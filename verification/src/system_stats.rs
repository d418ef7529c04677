//! Text shown by the system stats module.
use vstd::prelude::*;
use crate::text::{decimal, digit_char, push_decimal};

verus! {

/// Bytes in one GiB.
pub const GIB: u64 = 1073741824;

/// `bytes` expressed in tenths of a GiB, rounded to the nearest tenth, a
/// tie going to the even tenth.
pub open spec fn gib_tenths(bytes: nat) -> nat {
    let q = (bytes * 10) / (GIB as nat);
    let r = (bytes * 10) % (GIB as nat);
    if 2 * r > GIB || (2 * r == GIB && q % 2 == 1) {
        q + 1
    } else {
        q
    }
}

/// `bytes` in GiB with one decimal, e.g. `"7.5"`.
pub open spec fn gib_text(bytes: nat) -> Seq<char> {
    decimal(gib_tenths(bytes) / 10) + seq!['.'] + seq![digit_char(gib_tenths(bytes) % 10)]
}

/// The memory line: `"system: RAM <used>/<total> GiB"`, or
/// `"system: RAM N/A"` when the total is unknown (zero).
pub open spec fn memory_text(used: nat, total: nat) -> Seq<char> {
    if total > 0 {
        "system: RAM "@ + gib_text(used) + "/"@ + gib_text(total) + " GiB"@
    } else {
        "system: RAM N/A"@
    }
}

fn push_gib(out: &mut String, bytes: u64)
    ensures
        final(out)@ == old(out)@ + gib_text(bytes as nat),
{
    let x: u128 = (bytes as u128) * 10;
    let g: u128 = GIB as u128;
    let q: u128 = x / g;
    let r: u128 = x % g;
    let t: u128 = if 2 * r > g || (2 * r == g && q % 2 == 1) { q + 1 } else { q };
    assert(t == gib_tenths(bytes as nat));
    assert(t <= 184467440737095516160u128) by (nonlinear_arith)
        requires
            x == bytes * 10,
            g == 1073741824,
            q == x / g,
            t <= q + 1,
            bytes <= 18446744073709551615u64,
    ;
    push_decimal(out, (t / 10) as u64);
    out.append(".");
    push_decimal(out, (t % 10) as u64);
    proof {
        reveal_strlit(".");
        assert(decimal((t % 10) as nat) == seq![digit_char((t % 10) as nat)]);
        assert(out@ =~= old(out)@ + gib_text(bytes as nat));
    }
}

/// Format a memory usage string from raw byte counts.
///
/// Returns `"system: RAM <used>/<total> GiB"` (GiB with one decimal) when
/// total memory is non-zero, or `"system: RAM N/A"` when the system cannot
/// report memory. The GiB values are computed exactly from the byte counts.
pub fn format_memory_text(used_bytes: u64, total_bytes: u64) -> (r: String)
    ensures
        r@ == memory_text(used_bytes as nat, total_bytes as nat),
{
    if total_bytes > 0 {
        let mut out = String::from_str("system: RAM ");
        push_gib(&mut out, used_bytes);
        out.append("/");
        push_gib(&mut out, total_bytes);
        out.append(" GiB");
        out
    } else {
        String::from_str("system: RAM N/A")
    }
}

} // verus!
