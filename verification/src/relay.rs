//! Relaying subprocess output lines to the host console.
//!
//! Every line read from the subprocess's standard-out or standard-error is
//! re-emitted on the parent's corresponding stream with a fixed provenance
//! prefix. The functions here compute the relayed form of a line and of a
//! whole stream; the actual pipe reads and writes live outside the library.

use vstd::prelude::*;

verus! {

/// The provenance prefix put in front of every relayed line.
pub open spec fn relay_prefix() -> Seq<char> {
    "[sp1] "@
}

/// A relayed stream: same number of lines as the source, each line the
/// source line with the provenance prefix, in source order.
pub open spec fn relayed(src: Seq<String>, dst: Seq<String>) -> bool {
    &&& dst.len() == src.len()
    &&& forall|i: int| 0 <= i < src.len() ==> #[trigger] dst[i]@ == relay_prefix() + src[i]@
}

/// Prefix one line of subprocess output for relay to the host console.
pub fn prefix_line(line: &str) -> (r: String)
    ensures
        r@ == relay_prefix() + line@,
{
    let mut s: String = "[sp1] ".to_owned();
    s.append(line);
    s
}

/// Relay a whole stream: prefix every line, preserving order and count.
pub fn relay_lines(lines: &Vec<String>) -> (r: Vec<String>)
    ensures
        relayed(lines@, r@),
{
    let mut out: Vec<String> = Vec::new();
    let mut i: usize = 0;
    while i < lines.len()
        invariant
            i <= lines@.len(),
            out@.len() == i,
            forall|k: int| 0 <= k < i ==> #[trigger] out@[k]@ == relay_prefix() + lines@[k]@,
        decreases lines@.len() - i,
    {
        out.push(prefix_line(lines[i].as_str()));
        i += 1;
    }
    out
}

/// Law: relaying two streams drops no line and adds none — the total
/// relayed line count equals the total source line count, and within each
/// stream every line keeps its position and gains exactly the prefix.
pub proof fn lemma_relay_complete(
    out_src: Seq<String>,
    out_dst: Seq<String>,
    err_src: Seq<String>,
    err_dst: Seq<String>,
)
    requires
        relayed(out_src, out_dst),
        relayed(err_src, err_dst),
    ensures
        out_dst.len() + err_dst.len() == out_src.len() + err_src.len(),
        forall|i: int| 0 <= i < out_src.len() ==> #[trigger] out_dst[i]@ == relay_prefix()
            + out_src[i]@,
        forall|i: int| 0 <= i < err_src.len() ==> #[trigger] err_dst[i]@ == relay_prefix()
            + err_src[i]@,
{
}

} // verus!
