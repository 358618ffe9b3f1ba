//! Address reshaping for the single-address check.
//!
//! The host hands that operation an address in base58 text form; the engine
//! wants the raw address bytes re-encoded as a quoted hexadecimal text. The
//! base58 decoding comes from an outside crate behind a trusted wrapper; the
//! hexadecimal re-encoding and quoting are verified here.

use vstd::prelude::*;

verus! {

/// What base58 decoding (Bitcoin alphabet) yields for a text: its payload
/// bytes, or nothing when the text is not a base58 string.
pub uninterp spec fn base58_decoded(text: Seq<char>) -> Option<Seq<u8>>;

/// Relies on bs58's `DecodeBuilder::into_vec` with the default (Bitcoin)
/// alphabet and no checksum: the decoded bytes depend on the input
/// characters alone, and a non-alphabet character fails the decode.
#[verifier::external_body]
fn base58_decode(text: &str) -> (r: Option<Vec<u8>>)
    ensures
        r matches Some(v) ==> base58_decoded(text@) matches Some(payload) && v@ == payload,
        r is None ==> base58_decoded(text@) is None,
{
    match bs58::decode(text.as_bytes()).into_vec() {
        Ok(v) => Some(v),
        Err(_) => None,
    }
}

/// The lowercase hexadecimal digit of one value below sixteen, as an ASCII
/// byte.
pub open spec fn hex_digit(n: u8) -> u8
    recommends
        n < 16,
{
    if n < 10 {
        (48 + n) as u8
    } else {
        (87 + n) as u8
    }
}

/// The lowercase hexadecimal encoding of a byte string: two digits per byte,
/// high nibble first.
pub open spec fn hex_bytes_of(bytes: Seq<u8>) -> Seq<u8> {
    Seq::new(
        2 * bytes.len(),
        |i: int|
            if i % 2 == 0 {
                hex_digit((bytes[i / 2] / 16) as u8)
            } else {
                hex_digit((bytes[i / 2] % 16) as u8)
            },
    )
}

/// A byte string wrapped in ASCII double quotes.
pub open spec fn quoted(bytes: Seq<u8>) -> Seq<u8> {
    seq![34u8] + bytes + seq![34u8]
}

/// Encodes bytes as lowercase hexadecimal text.
pub fn hex_encode(bytes: &Vec<u8>) -> (r: Vec<u8>)
    ensures
        r@ == hex_bytes_of(bytes@),
{
    let n = bytes.len();
    let mut out: Vec<u8> = Vec::new();
    let mut i: usize = 0;
    while i < n
        invariant
            n == bytes@.len(),
            0 <= i <= n,
            out@ =~= hex_bytes_of(bytes@).subrange(0, 2 * i as int),
        decreases n - i,
    {
        let b = bytes[i];
        let hi = b / 16;
        let lo = b % 16;
        out.push(if hi < 10 {
            48 + hi
        } else {
            87 + hi
        });
        out.push(if lo < 10 {
            48 + lo
        } else {
            87 + lo
        });
        proof {
            assert(out@ =~= hex_bytes_of(bytes@).subrange(0, 2 * (i + 1) as int));
        }
        i = i + 1;
    }
    proof {
        assert(hex_bytes_of(bytes@).subrange(0, 2 * n as int) =~= hex_bytes_of(bytes@));
    }
    out
}

/// Re-encodes decoded address bytes as the engine's quoted hexadecimal text
/// form.
pub fn quote_hex(payload: &Vec<u8>) -> (r: Vec<u8>)
    ensures
        r@ == quoted(hex_bytes_of(payload@)),
{
    let mut out: Vec<u8> = Vec::new();
    out.push(34u8);
    let mut hex = hex_encode(payload);
    out.append(&mut hex);
    out.push(34u8);
    proof {
        assert(out@ =~= quoted(hex_bytes_of(payload@)));
    }
    out
}

/// Reshapes a base58 address into the engine's quoted hexadecimal text form,
/// or nothing when the text is not a base58 string.
pub fn reshape_address(address: &str) -> (r: Option<Vec<u8>>)
    ensures
        base58_decoded(address@) matches Some(payload) ==> r matches Some(v) && v@ == quoted(
            hex_bytes_of(payload),
        ),
        base58_decoded(address@) is None ==> r is None,
{
    match base58_decode(address) {
        None => None,
        Some(decoded) => Some(quote_hex(&decoded)),
    }
}

} // verus!
