//! Editor flavors and the launch/print side of the library: which command a
//! flavor runs, where its configuration lives, how a recent item is handed
//! to the command line, and how an entry is printed.

use vstd::prelude::*;

use crate::errors::RecentError;
use crate::location::url_to_path;
use crate::strutil::{eq_ignore_ascii_case, lower_ascii};
use crate::workspaces::{label_spec, Recent, RecentModel};

verus! {

/// One of the supported editor builds.
#[derive(PartialEq, Eq, Structural, Debug, Clone, Copy)]
pub enum Flavor {
    Code,
    CodeInsiders,
    CodeOSS,
    VSCodium,
}

/// The executable name of each flavor.
pub open spec fn flavor_cmd(f: Flavor) -> Seq<char> {
    match f {
        Flavor::Code => "code"@,
        Flavor::CodeInsiders => "code-insiders"@,
        Flavor::CodeOSS => "code-oss"@,
        Flavor::VSCodium => "codium"@,
    }
}

/// The configuration subdirectory of each flavor, under the platform's
/// configuration directory.
pub open spec fn flavor_config_subdir(f: Flavor) -> Seq<char> {
    match f {
        Flavor::Code => "Code"@,
        Flavor::CodeInsiders => "Code - Insiders"@,
        Flavor::CodeOSS => "Code - OSS"@,
        Flavor::VSCodium => "VSCodium"@,
    }
}

/// The flavor a name selects, up to ASCII case; `None` for an unrecognized
/// name.
pub open spec fn flavor_parse_spec(s: Seq<char>) -> Option<Flavor> {
    let l = lower_ascii(s);
    if l == "code"@ {
        Some(Flavor::Code)
    } else if l == "code-insiders"@ {
        Some(Flavor::CodeInsiders)
    } else if l == "code-oss"@ {
        Some(Flavor::CodeOSS)
    } else if l == "vscodium"@ || l == "codium"@ {
        Some(Flavor::VSCodium)
    } else {
        None
    }
}

/// The command-line flag that opens one recent item: folders go through the
/// folder flag, workspaces and files through the file flag.
pub open spec fn uri_flag_spec(r: RecentModel) -> Seq<char> {
    match r {
        RecentModel::Folder { .. } => "--folder-uri"@,
        _ => "--file-uri"@,
    }
}

impl Flavor {
    /// The command that runs the flavor.
    pub fn cmd(&self) -> (r: &str)
        ensures
            r@ == flavor_cmd(*self),
    {
        match self {
            Self::Code => "code",
            Self::CodeInsiders => "code-insiders",
            Self::CodeOSS => "code-oss",
            Self::VSCodium => "codium",
        }
    }

    /// The flavor's configuration subdirectory name. The embedding
    /// application joins it onto the platform's configuration directory and
    /// checks that it exists.
    pub fn config_subdir(&self) -> (r: &str)
        ensures
            r@ == flavor_config_subdir(*self),
    {
        match self {
            Self::Code => "Code",
            Self::CodeInsiders => "Code - Insiders",
            Self::CodeOSS => "Code - OSS",
            Self::VSCodium => "VSCodium",
        }
    }

    /// Selects a flavor by name, up to ASCII case.
    pub fn parse(s: &str) -> (r: Option<Flavor>)
        ensures
            r == flavor_parse_spec(s@),
    {
        proof {
            reveal_strlit("code");
            reveal_strlit("code-insiders");
            reveal_strlit("code-oss");
            reveal_strlit("vscodium");
            reveal_strlit("codium");
            assert(lower_ascii("code"@) =~= "code"@);
            assert(lower_ascii("code-insiders"@) =~= "code-insiders"@);
            assert(lower_ascii("code-oss"@) =~= "code-oss"@);
            assert(lower_ascii("vscodium"@) =~= "vscodium"@);
            assert(lower_ascii("codium"@) =~= "codium"@);
        }
        if eq_ignore_ascii_case(s, "code") {
            Some(Flavor::Code)
        } else if eq_ignore_ascii_case(s, "code-insiders") {
            Some(Flavor::CodeInsiders)
        } else if eq_ignore_ascii_case(s, "code-oss") {
            Some(Flavor::CodeOSS)
        } else if eq_ignore_ascii_case(s, "vscodium") || eq_ignore_ascii_case(s, "codium") {
            Some(Flavor::VSCodium)
        } else {
            None
        }
    }

    /// The command and arguments that open one recent item: the flavor's
    /// executable, the variant's URI flag, and the item's URL.
    pub fn open_recent_args(&self, recent: &Recent) -> (r: (String, Vec<String>))
        ensures
            r.0@ == flavor_cmd(*self),
            r.1.deep_view() =~= seq![uri_flag_spec(recent@), recent@.locator().text],
    {
        let mut args: Vec<String> = Vec::new();
        let flag: &str = match recent {
            Recent::Folder { .. } => "--folder-uri",
            _ => "--file-uri",
        };
        args.push(flag.to_owned());
        args.push(recent.url().as_str().to_owned());
        (self.cmd().to_owned(), args)
    }
}

/// How each recent item is printed by the listing front end.
#[derive(Debug, Clone, Copy, PartialEq, Eq, Structural)]
pub enum OutputFormat {
    /// The label (stored, or derived as the home-contracted path); only
    /// local items can be shown this way when no label is stored.
    Label,
    /// The absolute filesystem path; only local items can be shown this way.
    AbsolutePath,
    /// The URI; every item can be shown this way.
    Uri,
}

impl Default for OutputFormat {
    /// The default output format is the label.
    fn default() -> (r: Self)
        ensures
            r == OutputFormat::Label,
    {
        Self::Label
    }
}

/// What printing one entry yields under each format: its label, its local
/// filesystem path, or its URI — with the label's and the path's failure
/// modes passed through.
pub open spec fn format_entry_spec(r: RecentModel, f: OutputFormat, home: Seq<char>) -> Result<
    Seq<char>,
    RecentError,
> {
    match f {
        OutputFormat::Label => label_spec(r, home),
        OutputFormat::AbsolutePath => if !r.is_local() {
            Err(RecentError::NotLocal)
        } else {
            match url_to_path(r.locator().text) {
                Some(p) => Ok(p),
                None => Err(RecentError::MalformedUrl),
            }
        },
        OutputFormat::Uri => Ok(r.locator().text),
    }
}

/// Renders one entry for the listing front end.
pub fn format_entry(entry: &Recent, output_format: &OutputFormat, home: &str) -> (r: Result<
    String,
    RecentError,
>)
    ensures
        match format_entry_spec(entry@, *output_format, home@) {
            Ok(s) => r is Ok && r->Ok_0@ == s,
            Err(e) => r == Err::<String, RecentError>(e),
        },
{
    match output_format {
        OutputFormat::Label => entry.label(home),
        OutputFormat::AbsolutePath => entry.file_path(),
        OutputFormat::Uri => Ok(entry.url().as_str().to_owned()),
    }
}

} // verus!
