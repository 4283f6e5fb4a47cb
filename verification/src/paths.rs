//! Resolving a program location to the directory the build tool runs in.
//!
//! A location is either absolute — it begins with the path separator — or
//! relative, in which case it is interpreted against the anchor root: the
//! directory containing the build instructions that requested the helper,
//! not the process's working directory. The functions here compute the
//! path handed to the operating system for canonicalization and map the
//! canonicalization outcome to the library's result; the filesystem call
//! itself lives outside the library.

use vstd::prelude::*;
use crate::errors::ErrorKind;

verus! {

/// A path is absolute when it begins with the path separator.
pub open spec fn is_absolute(p: Seq<char>) -> bool {
    p.len() > 0 && p[0] == '/'
}

/// Joining a child onto a base directory: a separator is inserted unless
/// the base already ends with one.
pub open spec fn spec_join(base: Seq<char>, child: Seq<char>) -> Seq<char> {
    if base.len() > 0 && base[base.len() - 1] == '/' {
        base + child
    } else {
        base + seq!['/'] + child
    }
}

/// The path to canonicalize for a location: the location itself when
/// absolute, else the location joined onto the anchor root.
pub open spec fn spec_resolution_target(anchor: Seq<char>, location: Seq<char>) -> Seq<char> {
    if is_absolute(location) {
        location
    } else {
        spec_join(anchor, location)
    }
}

/// Append `child` to `base` with a single separator between them.
pub fn join_path(base: &str, child: &str) -> (r: String)
    ensures
        r@ == spec_join(base@, child@),
{
    let n: usize = base.unicode_len();
    let mut s: String = base.to_owned();
    if n == 0 || base.get_char(n - 1) != '/' {
        proof {
            reveal_strlit("/");
        }
        s.append("/");
        proof {
            assert(s@ =~= base@ + seq!['/']);
        }
    }
    s.append(child);
    proof {
        assert(s@ =~= spec_join(base@, child@));
    }
    s
}

/// Decide where resolution looks on disk: an absolute location stands
/// alone, a relative one is anchored at the anchor root.
pub fn resolution_target(anchor: &str, location: &str) -> (r: String)
    ensures
        r@ == spec_resolution_target(anchor@, location@),
{
    let n: usize = location.unicode_len();
    if n > 0 && location.get_char(0) == '/' {
        location.to_owned()
    } else {
        join_path(anchor, location)
    }
}

/// Turn the outcome of canonicalizing the resolution target into the
/// resolved program directory: canonicalization succeeds exactly when the
/// path exists and every link in it can be followed, and its failure is
/// the helper's resolution error.
pub fn finish_resolution(canonical: Option<String>) -> (r: Result<String, ErrorKind>)
    ensures
        match canonical {
            Some(c) => r matches Ok(d) && d@ == c@,
            None => r matches Err(e) && e == ErrorKind::Resolution,
        },
{
    match canonical {
        Some(c) => Ok(c),
        None => Err(ErrorKind::Resolution),
    }
}

/// Law: resolution anchors exactly the relative locations — an absolute
/// location is canonicalized as given, a relative one is first joined
/// onto the anchor root.
pub proof fn lemma_resolution_target_branches(anchor: Seq<char>, location: Seq<char>)
    ensures
        is_absolute(location) ==> spec_resolution_target(anchor, location) == location,
        !is_absolute(location) ==> spec_resolution_target(anchor, location) == spec_join(
            anchor,
            location,
        ),
{
}

} // verus!
