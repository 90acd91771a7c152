//! Paths as text, joined the way a Unix `PathBuf::join` joins them.

use vstd::prelude::*;
use vstd::string::*;

verus! {

/// The path separator.
pub open spec fn separator() -> char {
    '/'
}

/// An absolute path begins with the separator.
pub open spec fn is_absolute(p: Seq<char>) -> bool {
    p.len() > 0 && p[0] == separator()
}

/// `base` joined with `part`: an absolute `part` replaces `base`; otherwise
/// `part` is appended, with a separator in between unless `base` is empty or
/// already ends with one.
pub open spec fn joined(base: Seq<char>, part: Seq<char>) -> Seq<char> {
    if is_absolute(part) {
        part
    } else if base.len() > 0 && base.last() != separator() {
        base + seq![separator()] + part
    } else {
        base + part
    }
}

/// Joins `part` onto `base`, as `PathBuf::join` does on Unix hosts.
pub fn join(base: &str, part: &str) -> (r: String)
    ensures
        r@ == joined(base@, part@),
{
    let part_len = part.unicode_len();
    if part_len > 0 && part.get_char(0) == '/' {
        return part.to_owned();
    }
    let base_len = base.unicode_len();
    let mut out = base.to_owned();
    if base_len > 0 && base.get_char(base_len - 1) != '/' {
        out.append("/");
        proof {
            reveal_strlit("/");
        }
    }
    out.append(part);
    out
}

/// Joining a relative part keeps the base as a prefix and the part as a
/// suffix of the result.
pub proof fn lemma_join_relative_extends(base: Seq<char>, part: Seq<char>)
    requires
        !is_absolute(part),
    ensures
        joined(base, part).subrange(0, base.len() as int) == base,
        joined(base, part).subrange(
            joined(base, part).len() - part.len(),
            joined(base, part).len() as int,
        ) == part,
{
    let j = joined(base, part);
    assert(j.subrange(0, base.len() as int) =~= base);
    assert(j.subrange(j.len() - part.len(), j.len() as int) =~= part);
}

} // verus!
