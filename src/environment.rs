use vstd::prelude::*;
use crate::registry::str_equals;

verus! {

/// The lowercase form of a string, as Rust's Unicode case mapping gives it.
pub uninterp spec fn lower_of(s: Seq<char>) -> Seq<char>;

/// Relies on `str::to_lowercase`: the result depends on the characters alone,
/// and an empty string stays empty.
#[verifier::external_body]
fn lowercase(s: &str) -> (r: String)
    ensures
        r@ == lower_of(s@),
        s@.len() == 0 ==> r@.len() == 0,
{
    s.to_lowercase()
}

/// The desktop session that the program runs in.
#[derive(Debug)]
pub struct Environment {
    pub desktop: String,
    pub debug: bool,
}

/// The screenshot backend that suits a desktop.
#[derive(Clone, Copy, Debug, PartialEq, Eq, Structural)]
pub enum Backend {
    /// KDE's own screenshot tool.
    Kde,
    /// GNOME's own screenshot tool.
    Gnome,
    /// Frame capture through the compositor's protocol.
    Native,
}

/// The backend for a lowercase desktop name.
pub open spec fn backend_for(desktop: Seq<char>) -> Backend {
    if desktop == "kde"@ {
        Backend::Kde
    } else if desktop == "gnome"@ {
        Backend::Gnome
    } else {
        Backend::Native
    }
}

/// The desktop name given the two session variables: the current desktop
/// where it is set, else the session name, else "unknown".
pub open spec fn desktop_name(current: Option<String>, session: Option<String>) -> Seq<char> {
    match current {
        Some(c) => c@,
        None => match session {
            Some(s) => s@,
            None => "unknown"@,
        },
    }
}

impl Environment {
    /// The environment described by the values of the current-desktop and
    /// desktop-session variables, `None` where a variable is unset.
    pub fn new(current_desktop: Option<String>, desktop_session: Option<String>, debug: bool) -> (r: Environment)
        ensures
            r.desktop@ == desktop_name(current_desktop, desktop_session),
            r.debug == debug,
    {
        let desktop = match current_desktop {
            Some(c) => c,
            None => match desktop_session {
                Some(s) => s,
                None => "unknown".to_owned(),
            },
        };
        Environment { desktop, debug }
    }

    /// The desktop name in lowercase.
    pub fn detect_desktop_environment(&self) -> (r: String)
        ensures
            r@ == lower_of(self.desktop@),
    {
        lowercase(self.desktop.as_str())
    }
}

/// Chooses the backend that saves a screenshot on this environment's desktop:
/// KDE's tool on "kde", GNOME's on "gnome", native capture elsewhere, the
/// name compared in lowercase.
pub fn save_geometry(env: &Environment) -> (b: Backend)
    ensures
        b == backend_for(lower_of(env.desktop@)),
{
    let desktop = env.detect_desktop_environment();
    backend_of_lowercase(desktop.as_str())
}

/// Which backend a lowercase desktop name selects.
pub fn backend_of_lowercase(desktop: &str) -> (b: Backend)
    ensures
        b == backend_for(desktop@),
{
    if str_equals(desktop, "kde") {
        Backend::Kde
    } else if str_equals(desktop, "gnome") {
        Backend::Gnome
    } else {
        Backend::Native
    }
}

/// A character of Unicode's White_Space property, as `char::is_whitespace`
/// decides it.
pub open spec fn is_space(c: char) -> bool {
    ||| c == ' '
    ||| '\t' <= c && c <= '\r'
    ||| c == '\u{85}'
    ||| c == '\u{a0}'
    ||| c == '\u{1680}'
    ||| '\u{2000}' <= c && c <= '\u{200a}'
    ||| c == '\u{2028}'
    ||| c == '\u{2029}'
    ||| c == '\u{202f}'
    ||| c == '\u{205f}'
    ||| c == '\u{3000}'
}

pub fn is_space_char(c: char) -> (b: bool)
    ensures
        b == is_space(c),
{
    c == ' ' || ('\t' <= c && c <= '\r') || c == '\u{85}' || c == '\u{a0}' || c == '\u{1680}' || (
    '\u{2000}' <= c && c <= '\u{200a}') || c == '\u{2028}' || c == '\u{2029}' || c == '\u{202f}'
        || c == '\u{205f}' || c == '\u{3000}'
}

/// How many whitespace characters `s` starts with.
pub open spec fn leading_spaces(s: Seq<char>) -> nat
    decreases s.len(),
{
    if s.len() > 0 && is_space(s[0]) {
        1 + leading_spaces(s.drop_first())
    } else {
        0
    }
}

/// How many whitespace characters `s` ends with.
pub open spec fn trailing_spaces(s: Seq<char>) -> nat
    decreases s.len(),
{
    if s.len() > 0 && is_space(s.last()) {
        1 + trailing_spaces(s.drop_last())
    } else {
        0
    }
}

/// `s` without its leading and trailing whitespace.
pub open spec fn trimmed(s: Seq<char>) -> Seq<char> {
    let t = s.subrange(leading_spaces(s) as int, s.len() as int);
    t.subrange(0, t.len() - trailing_spaces(t))
}

/// `s` without its leading and trailing whitespace, as `str::trim` gives it.
pub fn trim_whitespace(s: &str) -> (r: &str)
    ensures
        r@ == trimmed(s@),
{
    let n = s.unicode_len();
    let mut i: usize = 0;
    proof {
        assert(s@.subrange(0, n as int) =~= s@);
    }
    while i < n && is_space_char(s.get_char(i))
        invariant
            n == s@.len(),
            i <= n,
            leading_spaces(s@) == i + leading_spaces(s@.subrange(i as int, n as int)),
        decreases n - i,
    {
        proof {
            assert(s@.subrange(i as int, n as int).drop_first() =~= s@.subrange(i + 1, n as int));
        }
        i = i + 1;
    }
    proof {
        if i < n {
            assert(s@.subrange(i as int, n as int)[0] == s@[i as int]);
        }
    }
    let t = s.substring_char(i, n);
    let m = t.unicode_len();
    let mut j: usize = m;
    proof {
        assert(t@.subrange(0, m as int) =~= t@);
    }
    while j > 0 && is_space_char(t.get_char(j - 1))
        invariant
            m == t@.len(),
            j <= m,
            trailing_spaces(t@) == (m - j) + trailing_spaces(t@.subrange(0, j as int)),
        decreases j,
    {
        proof {
            assert(t@.subrange(0, j as int).drop_last() =~= t@.subrange(0, j - 1));
            assert(t@.subrange(0, j as int).last() == t@[j - 1]);
        }
        j = j - 1;
    }
    proof {
        if j > 0 {
            assert(t@.subrange(0, j as int).last() == t@[j - 1]);
        }
    }
    t.substring_char(0, j)
}

/// `needle` occurs in `s` at position `i`.
pub open spec fn occurs_at(s: Seq<char>, needle: Seq<char>, i: int) -> bool {
    0 <= i && i + needle.len() <= s.len() && s.subrange(i, i + needle.len()) == needle
}

pub open spec fn contains(s: Seq<char>, needle: Seq<char>) -> bool {
    exists|i: int| occurs_at(s, needle, i)
}

/// Whether `needle` occurs in `s`.
pub fn str_contains(s: &str, needle: &str) -> (r: bool)
    ensures
        r == contains(s@, needle@),
{
    let n = s.unicode_len();
    let m = needle.unicode_len();
    if m > n {
        proof {
            assert forall|i: int| !occurs_at(s@, needle@, i) by {}
        }
        return false;
    }
    let mut i: usize = 0;
    while i <= n - m
        invariant
            n == s@.len(),
            m == needle@.len(),
            m <= n,
            i <= n - m + 1,
            forall|k: int| 0 <= k < i ==> !occurs_at(s@, needle@, k),
        decreases n - m + 1 - i,
    {
        let mut j: usize = 0;
        while j < m && s.get_char(i + j) == needle.get_char(j)
            invariant
                n == s@.len(),
                m == needle@.len(),
                i + m <= n,
                j <= m,
                forall|k: int| 0 <= k < j ==> s@[i + k] == needle@[k],
            decreases m - j,
        {
            j = j + 1;
        }
        if j == m {
            proof {
                assert(s@.subrange(i as int, i + m) =~= needle@);
                assert(occurs_at(s@, needle@, i as int));
            }
            return true;
        }
        proof {
            assert(s@[i + j] != needle@[j as int]);
            assert(s@.subrange(i as int, i + m)[j as int] == s@[i + j]);
        }
        i = i + 1;
    }
    proof {
        assert forall|k: int| !occurs_at(s@, needle@, k) by {
            if 0 <= k < i {
            }
        }
    }
    false
}

/// The desktop family that a lowercase desktop name belongs to.
pub open spec fn desktop_label(lowered: Seq<char>) -> Seq<char> {
    if contains(lowered, "hyprland"@) {
        "Hyprland"@
    } else if contains(lowered, "kde"@) {
        "KDE"@
    } else if contains(lowered, "gnome"@) {
        "GNOME"@
    } else {
        "Unknown"@
    }
}

/// Names the desktop family of a lowercase desktop name: "Hyprland", "KDE"
/// or "GNOME" where the name contains that word, else "Unknown".
pub fn desktop_label_of(lowered: &str) -> (r: String)
    ensures
        r@ == desktop_label(lowered@),
{
    if str_contains(lowered, "hyprland") {
        "Hyprland".to_owned()
    } else if str_contains(lowered, "kde") {
        "KDE".to_owned()
    } else if str_contains(lowered, "gnome") {
        "GNOME".to_owned()
    } else {
        "Unknown".to_owned()
    }
}

/// Names the desktop family from the printed value of the current-desktop
/// variable, read without surrounding whitespace and in lowercase.
pub fn detect_desktop_environment(printed: &str) -> (r: String)
    ensures
        r@ == desktop_label(lower_of(trimmed(printed@))),
{
    let trimmed = trim_whitespace(printed);
    let lowered = lowercase(trimmed);
    desktop_label_of(lowered.as_str())
}

} // verus!
