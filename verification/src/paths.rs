//! Joining of slash-separated paths.

use vstd::prelude::*;

use crate::text::chars_of;

verus! {

/// `base` with `part` below it.
///
/// An absolute `part` replaces `base`. Otherwise the two are joined by one slash,
/// which is left out where `base` is empty or ends with one.
pub open spec fn joined_path(base: Seq<char>, part: Seq<char>) -> Seq<char> {
    if part.len() > 0 && part.first() == '/' {
        part
    } else if base.len() > 0 && base.last() != '/' {
        base + seq!['/'] + part
    } else {
        base + part
    }
}

/// `base` with `part` below it.
pub fn join_path(base: &str, part: &str) -> (path: String)
    ensures
        path@ == joined_path(base@, part@),
{
    let base_chars = chars_of(base);
    let part_chars = chars_of(part);
    if part_chars.len() > 0 && part_chars[0] == '/' {
        return part.to_string();
    }
    let mut path = base.to_string();
    if base_chars.len() > 0 && base_chars[base_chars.len() - 1] != '/' {
        path.push('/');
        assert(path@ =~= base@ + seq!['/']);
    }
    path.append(part);
    path
}

// ---------------------------------------------------------------------------
// Laws
// ---------------------------------------------------------------------------

/// It does not matter in which order three parts are joined.
pub proof fn joining_is_associative(base: Seq<char>, part: Seq<char>, last: Seq<char>)
    ensures
        joined_path(joined_path(base, part), last) == joined_path(base, joined_path(part, last)),
{
    let left = joined_path(joined_path(base, part), last);
    let right = joined_path(base, joined_path(part, last));
    if part.len() > 0 {
        assert(joined_path(part, last).len() > 0);
        assert(!(last.len() > 0 && last.first() == '/') ==> joined_path(part, last).first()
            == part.first());
        assert(joined_path(base, part).last() == part.last());
    }
    assert(left =~= right);
}

/// A relative part comes below the base, behind exactly one slash, and an absolute part takes
/// its place.
pub proof fn part_comes_below_the_base(base: Seq<char>, part: Seq<char>)
    requires
        base.len() > 0,
        base.last() != '/',
        part.len() > 0 ==> part.first() != '/',
    ensures
        joined_path(base, part) == base + seq!['/'] + part,
        joined_path(base + seq!['/'], part) == base + seq!['/'] + part,
        joined_path(base, seq!['/'] + part) == seq!['/'] + part,
        joined_path(Seq::empty(), part) == part,
{
    assert((base + seq!['/']).last() == '/');
    assert((seq!['/'] + part).first() == '/');
    assert(Seq::<char>::empty() + part =~= part);
}

/// An absolute part takes the place of every base, and below the root a relative part comes
/// directly behind its slash.
pub proof fn absolute_part_replaces_every_base(base: Seq<char>, part: Seq<char>)
    ensures
        joined_path(base, seq!['/'] + part) == seq!['/'] + part,
        part.len() > 0 && part.first() != '/' ==> joined_path(seq!['/'], part) == seq!['/'] + part,
{
    assert((seq!['/'] + part).first() == '/');
}

}
