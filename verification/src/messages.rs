//! Diagnostics the helper writes into the host build protocol: the
//! program's display name, the completion notice with its timestamp, and
//! the skip notice.

use vstd::prelude::*;

verus! {

/// The display name of the program: the name the manifest lookup found,
/// or a generic placeholder when the lookup failed or named no package.
pub fn display_name(lookup: Option<String>) -> (r: String)
    ensures
        match lookup {
            Some(n) => r@ == n@,
            None => r@ == "Program"@,
        },
{
    match lookup {
        Some(n) => n,
        None => "Program".to_owned(),
    }
}

/// The completion notice for the host console.
pub open spec fn spec_build_notice(name: Seq<char>, datetime: Seq<char>) -> Seq<char> {
    "cargo:warning="@ + name + " built at "@ + datetime
}

/// Render the completion notice `cargo:warning=<name> built at <datetime>`.
pub fn build_notice(name: &str, datetime: &str) -> (r: String)
    ensures
        r@ == spec_build_notice(name@, datetime@),
{
    let mut s: String = "cargo:warning=".to_owned();
    s.append(name);
    s.append(" built at ");
    s.append(datetime);
    proof {
        assert(s@ =~= spec_build_notice(name@, datetime@));
    }
    s
}

/// Relies on chrono's `Local::now` and `DateTime::format` with the layout
/// `%Y-%m-%d %H:%M:%S`: renders the current local wall-clock time. The
/// value depends on the clock and the time zone, so nothing is promised
/// of it.
#[verifier::external_body]
fn current_datetime() -> (r: String) {
    chrono::Local::now().format("%Y-%m-%d %H:%M:%S").to_string()
}

/// The completion notice stamped with the current local time. Whatever
/// the clock read, the notice is the build-notice form around the name.
pub fn timestamped_build_notice(name: &str) -> (r: String)
    ensures
        exists|datetime: Seq<char>| r@ == spec_build_notice(name@, datetime),
{
    let d = current_datetime();
    let r = build_notice(name, d.as_str());
    proof {
        assert(r@ == spec_build_notice(name@, d@));
    }
    r
}

/// The notice emitted instead of a build when the skip condition holds.
pub fn skip_notice() -> (r: String)
    ensures
        r@ == "cargo:warning=Skipping build due to clippy invocation."@,
{
    "cargo:warning=Skipping build due to clippy invocation.".to_owned()
}

} // verus!
