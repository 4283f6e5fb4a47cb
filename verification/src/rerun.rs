//! Rerun triggers: the declarative directives that tell the host build
//! system which filesystem changes invalidate its cached result.
//!
//! The helper declares exactly three paths under the resolved program
//! directory — the source tree, the manifest and the lockfile — and wraps
//! each in the host protocol's rerun directive. Writing the directives to
//! the console lives outside the library.

use vstd::prelude::*;
use crate::paths::spec_join;
use crate::paths::join_path;

verus! {

/// `p` lies strictly below `dir`: it extends `dir` without being it.
pub open spec fn is_descendant(dir: Seq<char>, p: Seq<char>) -> bool {
    p.len() > dir.len() && p.subrange(0, dir.len() as int) == dir
}

/// The three paths whose change must re-run the helper: `src`, the
/// manifest and the lockfile, each under the resolved directory.
pub fn trigger_paths(dir: &str) -> (r: Vec<String>)
    ensures
        r@.len() == 3,
        r@[0]@ == spec_join(dir@, "src"@),
        r@[1]@ == spec_join(dir@, "Cargo.toml"@),
        r@[2]@ == spec_join(dir@, "Cargo.lock"@),
{
    let mut v: Vec<String> = Vec::new();
    v.push(join_path(dir, "src"));
    v.push(join_path(dir, "Cargo.toml"));
    v.push(join_path(dir, "Cargo.lock"));
    v
}

/// Wrap a path in the host protocol's rerun directive.
pub fn rerun_directive(path: &str) -> (r: String)
    ensures
        r@ == "cargo:rerun-if-changed="@ + path@,
{
    let mut s: String = "cargo:rerun-if-changed=".to_owned();
    s.append(path);
    s
}

/// Joining a non-empty child always lands strictly below the base.
pub proof fn lemma_join_descends(dir: Seq<char>, child: Seq<char>)
    requires
        child.len() > 0,
    ensures
        is_descendant(dir, spec_join(dir, child)),
{
    assert(spec_join(dir, child).subrange(0, dir.len() as int) =~= dir);
}

/// Law: every trigger path is a strict descendant of the resolved
/// directory.
pub proof fn lemma_triggers_are_descendants(dir: Seq<char>)
    ensures
        is_descendant(dir, spec_join(dir, "src"@)),
        is_descendant(dir, spec_join(dir, "Cargo.toml"@)),
        is_descendant(dir, spec_join(dir, "Cargo.lock"@)),
{
    reveal_strlit("src");
    reveal_strlit("Cargo.toml");
    reveal_strlit("Cargo.lock");
    lemma_join_descends(dir, "src"@);
    lemma_join_descends(dir, "Cargo.toml"@);
    lemma_join_descends(dir, "Cargo.lock"@);
}

} // verus!
