//! The command surface: the data the two front ends hand the core, and the
//! small decisions they delegate to it.
//!
//! The nested, configuration-aware command tree is the canonical surface.
//! Argument and line reading stay with the caller; what stands here is the
//! shape of a parsed command and the rules for reading the interactive
//! answers.

use vstd::prelude::*;

use vstd::string::StringExecFns;
use vstd::string::StrSliceExecFns;

verus! {

/// A parsed command line.
pub struct Cli {
    pub command: Commands,
}

/// The two command groups.
pub enum Commands {
    /// Operate on a safe (create/read/update).
    Safe(SafeCommand),
    /// View or change configuration.
    Config(ConfigCommand),
}

/// The operations on a safe.  Each location is a path relative to the
/// configured base directory.
pub enum SafeCommand {
    Create { location: String, key: String, content: String },
    Read { location: String, key: String },
    Update { location: String, key: String, content: String },
}

/// The operations on the configuration.
pub enum ConfigCommand {
    /// Show current configuration.
    Show,
    /// Set a new base directory for safes.
    SetBase { base: String },
}

/// The action an interactive answer picks.
pub enum MenuChoice {
    Read,
    Write,
    List,
}

/// The upper-case form of the letters the menu words use.
pub open spec fn upper_of(c: char) -> char {
    if c == 'a' {
        'A'
    } else if c == 'd' {
        'D'
    } else if c == 'e' {
        'E'
    } else if c == 'i' {
        'I'
    } else if c == 'l' {
        'L'
    } else if c == 'r' {
        'R'
    } else if c == 's' {
        'S'
    } else if c == 't' {
        'T'
    } else if c == 'w' {
        'W'
    } else {
        c
    }
}

/// `s` spells the lower-case word `w`, each letter in either case.
pub open spec fn spells(s: Seq<char>, w: Seq<char>) -> bool {
    s.len() == w.len() && (forall|i: int|
        0 <= i < s.len() ==> s[i] == w[i] || s[i] == upper_of(w[i]))
}

/// The choice a trimmed answer line picks: `r`/`read`, `w`/`write` or
/// `l`/`list`, in any letter case; anything else picks nothing.
pub open spec fn menu_choice_of(s: Seq<char>) -> Option<MenuChoice> {
    if spells(s, "r"@) || spells(s, "read"@) {
        Some(MenuChoice::Read)
    } else if spells(s, "w"@) || spells(s, "write"@) {
        Some(MenuChoice::Write)
    } else if spells(s, "l"@) || spells(s, "list"@) {
        Some(MenuChoice::List)
    } else {
        None
    }
}

/// The upper-case form of a menu letter, as [`upper_of`] states.
fn upper_char(c: char) -> (r: char)
    ensures
        r == upper_of(c),
{
    if c == 'a' {
        'A'
    } else if c == 'd' {
        'D'
    } else if c == 'e' {
        'E'
    } else if c == 'i' {
        'I'
    } else if c == 'l' {
        'L'
    } else if c == 'r' {
        'R'
    } else if c == 's' {
        'S'
    } else if c == 't' {
        'T'
    } else if c == 'w' {
        'W'
    } else {
        c
    }
}

/// Whether `s` spells the lower-case word `w` letter for letter, each
/// letter in either case.
fn spells_word(s: &str, w: &str) -> (r: bool)
    ensures
        r == spells(s@, w@),
{
    let n = s.unicode_len();
    if n != w.unicode_len() {
        return false;
    }
    for i in 0..n
        invariant
            n == s@.len() == w@.len(),
            forall|j: int| 0 <= j < i ==> s@[j] == w@[j] || s@[j] == upper_of(w@[j]),
    {
        let a = s.get_char(i);
        let b = w.get_char(i);
        if a != b && a != upper_char(b) {
            return false;
        }
    }
    true
}

/// Read a trimmed interactive answer as a menu choice, as
/// [`menu_choice_of`] states.
pub fn parse_menu_choice(s: &str) -> (r: Option<MenuChoice>)
    ensures
        r == menu_choice_of(s@),
{
    if spells_word(s, "r") || spells_word(s, "read") {
        Some(MenuChoice::Read)
    } else if spells_word(s, "w") || spells_word(s, "write") {
        Some(MenuChoice::Write)
    } else if spells_word(s, "l") || spells_word(s, "list") {
        Some(MenuChoice::List)
    } else {
        None
    }
}

/// Where interactive write content comes from: a file named after a
/// `file:` prefix, or the line itself.
pub enum WriteSource {
    FromFile(String),
    Literal(String),
}

/// Read a trimmed content line: a `file:` prefix names a file to read the
/// content from, any other line is the content itself.
pub fn parse_write_source(s: &str) -> (r: WriteSource)
    ensures
        (if s@.len() >= 5 && s@.subrange(0, 5) == "file:"@ {
            r matches WriteSource::FromFile(p) && p@ == s@.skip(5)
        } else {
            r matches WriteSource::Literal(c) && c@ == s@
        }),
{
    proof {
        reveal_strlit("file:");
    }
    let n = s.unicode_len();
    if n >= 5 && s.get_char(0) == 'f' && s.get_char(1) == 'i' && s.get_char(2) == 'l'
        && s.get_char(3) == 'e' && s.get_char(4) == ':' {
        assert(s@.subrange(0, 5) =~= "file:"@);
        let path = s.substring_char(5, n).to_owned();
        assert(path@ =~= s@.skip(5));
        WriteSource::FromFile(path)
    } else {
        assert(!(s@.len() >= 5 && s@.subrange(0, 5) == "file:"@)) by {
            if s@.len() >= 5 && s@.subrange(0, 5) == "file:"@ {
                assert(s@[0] == s@.subrange(0, 5)[0]);
                assert(s@[1] == s@.subrange(0, 5)[1]);
                assert(s@[2] == s@.subrange(0, 5)[2]);
                assert(s@[3] == s@.subrange(0, 5)[3]);
                assert(s@[4] == s@.subrange(0, 5)[4]);
            }
        }
        WriteSource::Literal(s.to_owned())
    }
}

} // verus!
