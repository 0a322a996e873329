//! The per-user configuration value: the base directory under which all
//! safes live.
//!
//! The value is loaded once at process start from a small key/value
//! document and passed into whichever command path needs it; loading,
//! saving and locating that document is file work that the caller does.
//! What belongs here is the one rule the base directory serves: resolving
//! a safe's path against it.

use vstd::prelude::*;

use vstd::string::StringExecFns;

verus! {

/// The configuration record.  `safe_location` is the absolute directory
/// path under which relative safe paths are resolved.
pub struct Config {
    /// Absolute path under which all safes live.
    pub safe_location: String,
}

/// What joining `rel` onto the directory `base` yields: `rel` itself when
/// it is absolute or `base` is empty, otherwise the two joined with a
/// single separator between them.
pub open spec fn joined(base: Seq<char>, rel: Seq<char>) -> Seq<char> {
    if rel.len() > 0 && rel[0] == '/' {
        rel
    } else if base.len() == 0 {
        rel
    } else if base.last() == '/' {
        base + rel
    } else {
        base + seq!['/'] + rel
    }
}

/// Join a path onto a base directory, as [`joined`] states.
pub fn join_paths(base: &str, rel: &str) -> (r: String)
    ensures
        r@ == joined(base@, rel@),
{
    proof {
        reveal_strlit("/");
    }
    let rel_len = rel.unicode_len();
    if rel_len > 0 && rel.get_char(0) == '/' {
        return rel.to_owned();
    }
    let base_len = base.unicode_len();
    if base_len == 0 {
        return rel.to_owned();
    }
    let mut out = base.to_owned();
    if base.get_char(base_len - 1) != '/' {
        out.append("/");
    }
    out.append(rel);
    assert(out@ =~= joined(base@, rel@));
    out
}

impl Config {
    /// The location of a safe named relative to the configured base
    /// directory; an absolute name stands on its own.
    pub fn resolve_location(&self, location: &str) -> (r: String)
        ensures
            r@ == joined(self.safe_location@, location@),
    {
        join_paths(self.safe_location.as_str(), location)
    }

    /// The configuration that `set-base` produces: the same record with
    /// the base replaced by `base`, resolved against the directory `cwd`
    /// when it is relative.
    pub fn with_base(&self, cwd: &str, base: &str) -> (r: Config)
        ensures
            r.safe_location@ == joined(cwd@, base@),
    {
        Config { safe_location: join_paths(cwd, base) }
    }
}

} // verus!
