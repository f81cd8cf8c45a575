use vstd::prelude::*;

verus! {

/// The byte `'\n'`, ending each rendered line.
pub const NEWLINE: u8 = 10;

/// The byte `':'`, separating a building's encoding from its count.
pub const COLON: u8 = 58;

/// The ASCII digits of `n` in decimal, most significant first.
pub open spec fn dec_digits(n: nat) -> Seq<u8>
    decreases n,
{
    if n < 10 {
        seq![(48 + n) as u8]
    } else {
        dec_digits(n / 10).push((48 + n % 10) as u8)
    }
}

/// Writes `n` in decimal onto the end of `out`.
pub(crate) fn push_decimal(out: &mut Vec<u8>, n: usize)
    ensures
        final(out)@ == old(out)@ + dec_digits(n as nat),
    decreases n,
{
    if n < 10 {
        out.push(48 + (n as u8));
        proof {
            assert(old(out)@.push((48 + n) as u8) =~= old(out)@ + dec_digits(n as nat));
        }
    } else {
        push_decimal(out, n / 10);
        out.push(48 + ((n % 10) as u8));
        proof {
            assert((old(out)@ + dec_digits((n / 10) as nat)).push((48 + n % 10) as u8) =~= old(
                out,
            )@ + dec_digits(n as nat));
        }
    }
}

/// Relies on `String::from_utf8`: decoding bytes that are all ASCII
/// yields exactly one character per byte, each with the byte's code
/// point, and cannot fail.
#[verifier::external_body]
pub(crate) fn ascii_bytes_to_string(bytes: Vec<u8>) -> (r: String)
    requires
        forall|i: int| 0 <= i < bytes@.len() ==> bytes@[i] < 128,
    ensures
        r@.len() == bytes@.len(),
        forall|i: int| 0 <= i < bytes@.len() ==> r@[i] == bytes@[i] as char,
{
    String::from_utf8(bytes).unwrap_or_default()
}

} // verus!
