//! Home-directory contraction and expansion of filesystem paths.
//!
//! Paths are plain strings here. The home directory is injected by the
//! caller; an empty string stands for "home could not be resolved", in which
//! case both conversions leave their input unchanged. The injected home is
//! expected without a trailing separator, as platform home lookups return it.

use vstd::prelude::*;
use vstd::string::StrSliceExecFns;

use crate::strutil::{concat2, starts_with, str_eq};

verus! {

/// What [`tildify`] returns: `path` with a leading `home` component replaced
/// by `~`, or `path` itself when it does not lie under `home`.
pub open spec fn tildify_spec(path: Seq<char>, home: Seq<char>) -> Seq<char> {
    if home.len() > 0 && path == home {
        "~"@
    } else if home.len() > 0 && (home + "/"@).is_prefix_of(path) {
        "~"@ + path.skip(home.len() as int)
    } else {
        path
    }
}

/// What [`untildify`] returns: `text` with a leading `~` component replaced
/// by `home`, or `text` itself when it has no such component.
pub open spec fn untildify_spec(text: Seq<char>, home: Seq<char>) -> Seq<char> {
    if home.len() > 0 && text == "~"@ {
        home
    } else if home.len() > 0 && "~/"@.is_prefix_of(text) {
        home + text.skip(1)
    } else {
        text
    }
}

/// Replaces the home-directory prefix of `path` with `~`.
///
/// The replacement is component-wise: the prefix matches only when `path`
/// equals `home` or continues it with a separator. If the prefix is not
/// present, or `home` is empty (unresolved), the path is returned as is.
pub fn tildify(path: &str, home: &str) -> (r: String)
    ensures
        r@ == tildify_spec(path@, home@),
{
    let home_len = home.unicode_len();
    if home_len == 0 {
        return path.to_owned();
    }
    if str_eq(path, home) {
        return "~".to_owned();
    }
    let home_slash = concat2(home, "/");
    if starts_with(path, home_slash.as_str()) {
        proof {
            reveal_strlit("/");
            assert(path@.len() >= home@.len() + 1);
        }
        let path_len = path.unicode_len();
        let suffix = path.substring_char(home_len, path_len);
        let r = concat2("~", suffix);
        proof {
            assert(suffix@ =~= path@.skip(home@.len() as int));
        }
        return r;
    }
    path.to_owned()
}

/// Expands a leading `~` component of `text` to the home directory.
///
/// If the component is not present, or `home` is empty (unresolved), the
/// text is returned as is.
pub fn untildify(text: &str, home: &str) -> (r: String)
    ensures
        r@ == untildify_spec(text@, home@),
{
    let home_len = home.unicode_len();
    if home_len == 0 {
        return text.to_owned();
    }
    if str_eq(text, "~") {
        return home.to_owned();
    }
    if starts_with(text, "~/") {
        proof {
            reveal_strlit("~/");
            assert(text@.len() >= 2);
        }
        let text_len = text.unicode_len();
        let rest = text.substring_char(1, text_len);
        let r = concat2(home, rest);
        proof {
            assert(rest@ =~= text@.skip(1));
        }
        return r;
    }
    text.to_owned()
}

/// Law: expansion undoes contraction. For a non-empty home directory and a
/// path that lies under it (equal to it, or continuing it past a separator),
/// `untildify(tildify(path)) == path`; and a path that does not lie under
/// home is left unchanged by `tildify`.
pub proof fn lemma_untildify_tildify(path: Seq<char>, home: Seq<char>)
    requires
        home.len() > 0,
    ensures
        path == home || (home + "/"@).is_prefix_of(path) ==> untildify_spec(
            tildify_spec(path, home),
            home,
        ) == path,
        path != home && !(home + "/"@).is_prefix_of(path) ==> tildify_spec(path, home) == path,
{
    reveal_strlit("~");
    reveal_strlit("~/");
    reveal_strlit("/");
    if path == home {
        assert(tildify_spec(path, home) == "~"@);
        assert(untildify_spec("~"@, home) == home);
    } else if (home + "/"@).is_prefix_of(path) {
        let t = tildify_spec(path, home);
        assert(t == "~"@ + path.skip(home.len() as int));
        assert(path[home.len() as int] == (home + "/"@)[home.len() as int]);
        assert(path[home.len() as int] == '/');
        assert(t.len() >= 2);
        assert(t[0] == '~');
        assert(t[1] == '/');
        assert("~/"@.is_prefix_of(t)) by {
            assert("~/"@ =~= t.subrange(0, 2));
        }
        assert(t != "~"@);
        assert(untildify_spec(t, home) == home + t.skip(1));
        assert(t.skip(1) =~= path.skip(home.len() as int));
        let hp = home + "/"@;
        assert(hp == path.subrange(0, hp.len() as int));
        assert(forall|i: int| 0 <= i < home.len() ==> path[i] == home[i]) by {
            assert(forall|i: int| 0 <= i < home.len() ==> path.subrange(0, hp.len() as int)[i] == path[i]);
        }
        assert(home + path.skip(home.len() as int) =~= path);
    }
}

/// Law: text that does not start with a `~` is left unchanged by
/// expansion, whatever the home directory.
pub proof fn lemma_untildify_no_tilde(text: Seq<char>, home: Seq<char>)
    requires
        text.len() == 0 || text[0] != '~',
    ensures
        untildify_spec(text, home) == text,
{
    reveal_strlit("~");
    reveal_strlit("~/");
    assert(text != "~"@);
    if "~/"@.is_prefix_of(text) {
        assert(text[0] == "~/"@[0]);
        assert(false);
    }
}

/// The path of the state database under a configuration directory.
pub fn state_db_path(config_dir: &str) -> (r: String)
    ensures
        r@ == config_dir@ + "/User/globalStorage/state.vscdb"@,
{
    concat2(config_dir, "/User/globalStorage/state.vscdb")
}

} // verus!
