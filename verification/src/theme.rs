//! Icon sets: the Unicode one, and an ASCII-safe one for terminals that
//! cannot show it.

use vstd::prelude::*;
use crate::text::{has_sub, str_contains};

verus! {

/// The glyphs that the interface draws next to its panels and buttons.
#[derive(Clone, Copy)]
pub struct Icons {
    pub rocket: &'static str,
    pub shield: &'static str,
    pub brain: &'static str,
    pub cpu: &'static str,
    pub db: &'static str,
    pub package: &'static str,
    pub disk: &'static str,
    pub down: &'static str,
    pub up: &'static str,
    pub logs: &'static str,
    pub trash: &'static str,
    pub backup: &'static str,
    pub bolt: &'static str,
    pub folder: &'static str,
    pub plus: &'static str,
    pub enter: &'static str,
    pub dot_ok: &'static str,
    pub dot_bad: &'static str,
}

/// Whether `i` is the ASCII-safe icon set: every icon is plain ASCII text.
pub open spec fn is_ascii_set(i: Icons) -> bool {
    &&& i.rocket@ == ">>"@
    &&& i.shield@ == "SV"@
    &&& i.brain@ == "RAM"@
    &&& i.cpu@ == "CPU"@
    &&& i.db@ == "DB"@
    &&& i.package@ == "PKG"@
    &&& i.disk@ == "DSK"@
    &&& i.down@ == "v"@
    &&& i.up@ == "^"@
    &&& i.logs@ == "LOG"@
    &&& i.trash@ == "DEL"@
    &&& i.backup@ == "BAK"@
    &&& i.bolt@ == "API"@
    &&& i.folder@ == "DIR"@
    &&& i.plus@ == "+"@
    &&& i.enter@ == ">"@
    &&& i.dot_ok@ == "+"@
    &&& i.dot_bad@ == "x"@
}

/// Whether `i` is the Unicode icon set.
pub open spec fn is_unicode_set(i: Icons) -> bool {
    &&& i.rocket@ == "🚀"@
    &&& i.shield@ == "🛡 "@
    &&& i.brain@ == "🧠"@
    &&& i.cpu@ == "⚙"@
    &&& i.db@ == "🗄 "@
    &&& i.package@ == "📦"@
    &&& i.disk@ == "💽"@
    &&& i.down@ == "▼"@
    &&& i.up@ == "▲"@
    &&& i.logs@ == "📜"@
    &&& i.trash@ == "🗑 "@
    &&& i.backup@ == "💾"@
    &&& i.bolt@ == "⚡"@
    &&& i.folder@ == "📂"@
    &&& i.plus@ == "✚"@
    &&& i.enter@ == "↵"@
    &&& i.dot_ok@ == "●"@
    &&& i.dot_bad@ == "●"@
}

/// The Unicode icon set.
pub fn unicode_icons() -> (i: Icons)
    ensures
        is_unicode_set(i),
{
    Icons {
        rocket: "🚀",
        shield: "🛡 ",
        brain: "🧠",
        cpu: "⚙",
        db: "🗄 ",
        package: "📦",
        disk: "💽",
        down: "▼",
        up: "▲",
        logs: "📜",
        trash: "🗑 ",
        backup: "💾",
        bolt: "⚡",
        folder: "📂",
        plus: "✚",
        enter: "↵",
        dot_ok: "●",
        dot_bad: "●",
    }
}

/// The ASCII-safe icon set.
pub fn ascii_icons() -> (i: Icons)
    ensures
        is_ascii_set(i),
{
    Icons {
        rocket: ">>",
        shield: "SV",
        brain: "RAM",
        cpu: "CPU",
        db: "DB",
        package: "PKG",
        disk: "DSK",
        down: "v",
        up: "^",
        logs: "LOG",
        trash: "DEL",
        backup: "BAK",
        bolt: "API",
        folder: "DIR",
        plus: "+",
        enter: ">",
        dot_ok: "+",
        dot_bad: "x",
    }
}

// ───────────────────────── terminal capability ─────────────────────────

/// The upper-case form of `s`, as `str::to_uppercase` gives it.
pub uninterp spec fn upper_of(s: Seq<char>) -> Seq<char>;

/// `str::to_uppercase` from std. It maps by the Unicode case tables, which
/// are not restated here: the contract only names the result.
#[verifier::external_body]
fn to_upper(s: &str) -> (r: String)
    ensures
        r@ == upper_of(s@),
{
    s.to_uppercase()
}

/// Whether a locale setting names UTF-8: its upper-case form contains
/// "UTF-8" or "UTF8".
pub open spec fn names_utf8(v: Seq<char>) -> bool {
    has_sub(upper_of(v), "UTF-8"@) || has_sub(upper_of(v), "UTF8"@)
}

/// Whether the terminal looks UTF-8 capable, from the values of the locale
/// variables that are set (`LC_ALL`, `LC_CTYPE`, `LANG`, in that order):
/// whether any of them names UTF-8.
pub fn looks_utf8(values: &Vec<String>) -> (b: bool)
    ensures
        b == exists|i: int| 0 <= i < values@.len() && #[trigger] names_utf8(values@[i]@),
{
    let mut i: usize = 0;
    while i < values.len()
        invariant
            i <= values@.len(),
            forall|j: int| 0 <= j < i ==> !#[trigger] names_utf8(values@[j]@),
        decreases values@.len() - i,
    {
        let up = to_upper(values[i].as_str());
        if str_contains(up.as_str(), "UTF-8") || str_contains(up.as_str(), "UTF8") {
            assert(names_utf8(values@[i as int]@));
            return true;
        }
        i += 1;
    }
    false
}

} // verus!
