//! Icon configuration values: how icons are shown next to items, and the
//! color channels an icon font is rendered with.
//!
//! Rendering itself (theme lookups, glyph drawing) happens outside the
//! library; this module holds the pure parts — selecting the mode by name
//! and parsing a hexadecimal color.

use vstd::prelude::*;
use vstd::string::StrSliceExecFns;

use crate::strutil::{eq_ignore_ascii_case, lower_ascii};
use crate::workspaces::{icon_name_spec, nerd_icon_spec, Recent, RecentModel};

verus! {

/// How icons are shown next to items.
#[derive(Debug, Clone, Copy, PartialEq, Eq, Structural)]
pub enum IconMode {
    /// No icons.
    Off,
    /// From the current icon theme (the default).
    Theme,
    /// Glyphs from a nerd font.
    Nerd,
}

impl Default for IconMode {
    /// Icons come from the icon theme unless configured otherwise.
    fn default() -> (r: Self)
        ensures
            r == IconMode::Theme,
    {
        Self::Theme
    }
}

/// The mode a configuration name selects, up to ASCII case; an unrecognized
/// name selects the theme.
pub open spec fn icon_mode_spec(s: Seq<char>) -> IconMode {
    let l = lower_ascii(s);
    if l == "none"@ {
        IconMode::Off
    } else if l == "nerd"@ {
        IconMode::Nerd
    } else {
        IconMode::Theme
    }
}

impl IconMode {
    /// Selects the mode by its configuration name, up to ASCII case.
    pub fn from_name(s: &str) -> (r: IconMode)
        ensures
            r == icon_mode_spec(s@),
    {
        proof {
            reveal_strlit("none");
            reveal_strlit("nerd");
            assert(lower_ascii("none"@) =~= "none"@);
            assert(lower_ascii("nerd"@) =~= "nerd"@);
        }
        if eq_ignore_ascii_case(s, "none") {
            IconMode::Off
        } else if eq_ignore_ascii_case(s, "nerd") {
            IconMode::Nerd
        } else {
            IconMode::Theme
        }
    }
}

/// A color as four 8-bit channels: red, green, blue, alpha.
#[derive(Debug, Clone, Copy, PartialEq, Eq, Structural)]
pub struct RgbaChannels {
    pub red: u8,
    pub green: u8,
    pub blue: u8,
    pub alpha: u8,
}

/// Configuration for the icons shown next to items: the mode, the font
/// glyphs are rendered with, and the channels of the font's color.
#[derive(Debug, Clone)]
pub struct IconConfig {
    /// How icons are shown.
    pub mode: IconMode,
    /// Nerd font name used to render glyphs.
    pub font: String,
    /// Color the glyphs are rendered with.
    pub color: RgbaChannels,
}

/// What the renderer is asked to draw next to one item.
#[derive(Debug, Clone, PartialEq, Eq)]
pub enum IconRequest {
    /// Nothing.
    NoIcon,
    /// The named icon, from the current icon theme.
    FromTheme(String),
    /// The glyph, from the configured font.
    FromFont(String),
}

/// The mathematical value of an [`IconRequest`].
#[verifier::ext_equal]
pub enum IconRequestModel {
    NoIcon,
    FromTheme(Seq<char>),
    FromFont(Seq<char>),
}

impl View for IconRequest {
    type V = IconRequestModel;

    open spec fn view(&self) -> IconRequestModel {
        match self {
            IconRequest::NoIcon => IconRequestModel::NoIcon,
            IconRequest::FromTheme(s) => IconRequestModel::FromTheme(s@),
            IconRequest::FromFont(s) => IconRequestModel::FromFont(s@),
        }
    }
}

/// The icon request for one item under each mode: nothing, the variant's
/// theme icon name, or the variant's font glyph.
pub open spec fn icon_request_spec(mode: IconMode, r: RecentModel) -> IconRequestModel {
    match mode {
        IconMode::Off => IconRequestModel::NoIcon,
        IconMode::Theme => IconRequestModel::FromTheme(icon_name_spec(r)),
        IconMode::Nerd => IconRequestModel::FromFont(nerd_icon_spec(r)),
    }
}

impl IconConfig {
    /// What to draw next to one item under this configuration.
    pub fn request(&self, entry: &Recent) -> (r: IconRequest)
        ensures
            r@ == icon_request_spec(self.mode, entry@),
    {
        match self.mode {
            IconMode::Off => IconRequest::NoIcon,
            IconMode::Theme => IconRequest::FromTheme(entry.icon_name().to_owned()),
            IconMode::Nerd => IconRequest::FromFont(entry.nerd_icon().to_owned()),
        }
    }
}

/// The value of one hexadecimal digit, upper or lower case.
pub open spec fn hex_val(c: char) -> Option<u8> {
    if '0' <= c && c <= '9' {
        Some(((c as u8) - 0x30) as u8)
    } else if 'a' <= c && c <= 'f' {
        Some(((c as u8) - 0x61 + 10) as u8)
    } else if 'A' <= c && c <= 'F' {
        Some(((c as u8) - 0x41 + 10) as u8)
    } else {
        None
    }
}

/// The value of the two hexadecimal digits at `i` and `i + 1`.
pub open spec fn hex_pair(s: Seq<char>, i: int) -> Option<u8> {
    match (hex_val(s[i]), hex_val(s[i + 1])) {
        (Some(h), Some(l)) => Some((h * 16 + l) as u8),
        _ => None,
    }
}

/// The color that `#rrggbb` or `#rrggbbaa` text denotes (alpha full when
/// absent); `None` for any other shape.
pub open spec fn rgba_spec(s: Seq<char>) -> Option<RgbaChannels> {
    if s.len() == 7 && s[0] == '#' {
        match (hex_pair(s, 1), hex_pair(s, 3), hex_pair(s, 5)) {
            (Some(r), Some(g), Some(b)) => Some(
                RgbaChannels { red: r, green: g, blue: b, alpha: 255 },
            ),
            _ => None,
        }
    } else if s.len() == 9 && s[0] == '#' {
        match (hex_pair(s, 1), hex_pair(s, 3), hex_pair(s, 5), hex_pair(s, 7)) {
            (Some(r), Some(g), Some(b), Some(a)) => Some(
                RgbaChannels { red: r, green: g, blue: b, alpha: a },
            ),
            _ => None,
        }
    } else {
        None
    }
}

/// The value of one hexadecimal digit, upper or lower case.
fn hex_digit(c: char) -> (r: Option<u8>)
    ensures
        r == hex_val(c),
{
    if '0' <= c && c <= '9' {
        Some((c as u8) - 0x30)
    } else if 'a' <= c && c <= 'f' {
        Some((c as u8) - 0x61 + 10)
    } else if 'A' <= c && c <= 'F' {
        Some((c as u8) - 0x41 + 10)
    } else {
        None
    }
}

/// The value of the two hexadecimal digits of `s` at `i` and `i + 1`.
fn hex_pair_at(s: &str, i: usize) -> (r: Option<u8>)
    requires
        i + 1 < s@.len(),
    ensures
        r == hex_pair(s@, i as int),
{
    let tlen = s.unicode_len();
    let h = hex_digit(s.get_char(i));
    let l = hex_digit(s.get_char(i + 1));
    match (h, l) {
        (Some(h), Some(l)) => Some(h * 16 + l),
        _ => None,
    }
}

impl RgbaChannels {
    /// Parses `#rrggbb` or `#rrggbbaa` text (alpha full when absent).
    pub fn parse(s: &str) -> (r: Option<RgbaChannels>)
        ensures
            r == rgba_spec(s@),
    {
        let len = s.unicode_len();
        if len != 7 && len != 9 {
            return None;
        }
        if s.get_char(0) != '#' {
            return None;
        }
        let red = match hex_pair_at(s, 1) {
            Some(v) => v,
            None => {
                return None;
            },
        };
        let green = match hex_pair_at(s, 3) {
            Some(v) => v,
            None => {
                return None;
            },
        };
        let blue = match hex_pair_at(s, 5) {
            Some(v) => v,
            None => {
                return None;
            },
        };
        if len == 7 {
            return Some(RgbaChannels { red, green, blue, alpha: 255 });
        }
        let alpha = match hex_pair_at(s, 7) {
            Some(v) => v,
            None => {
                return None;
            },
        };
        Some(RgbaChannels { red, green, blue, alpha })
    }
}

} // verus!
