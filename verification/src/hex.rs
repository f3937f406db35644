//! Lower-case hexadecimal rendering of bytes, from the `amplify` crate, and
//! random identifiers, from the random number generator that `bitcoin`
//! re-exports.
use vstd::prelude::*;

verus! {

/// Lower-case hexadecimal digit for a number below sixteen.
pub open spec fn hex_digit(d: nat) -> char {
    if d < 10 {
        crate::text::digit_char(d)
    } else if d == 10 { 'a' }
    else if d == 11 { 'b' }
    else if d == 12 { 'c' }
    else if d == 13 { 'd' }
    else if d == 14 { 'e' }
    else { 'f' }
}

/// Two lower-case hexadecimal digits per byte, most significant first.
pub open spec fn lower_hex(data: Seq<u8>) -> Seq<char>
    decreases data.len(),
{
    if data.len() == 0 {
        Seq::empty()
    } else {
        lower_hex(data.drop_last()) + seq![hex_digit((data.last() / 16) as nat), hex_digit((data.last() % 16) as nat)]
    }
}

/// Calls `amplify::hex::ToHex::to_hex` on a byte slice, which writes every
/// byte as two lower-case hexadecimal digits (`{:02x}`), in order. The contract
/// claims exactly that rendering.
#[verifier::external_body]
pub(crate) fn to_hex(data: &[u8]) -> (r: String)
    ensures
        r@ == lower_hex(data@),
{
    <[u8] as amplify::hex::ToHex>::to_hex(data)
}

/// Calls `bitcoin::secp256k1::rand::random` for 32 bytes drawn from the thread
/// random number generator. Nothing is claimed of the bytes.
#[verifier::external_body]
pub(crate) fn random_bytes32() -> (r: [u8; 32]) {
    bitcoin::secp256k1::rand::random::<[u8; 32]>()
}

/// Calls `Display` of `bitcoin::Txid` (via `ToString`) on a transaction id
/// given by its 32 bytes. `bitcoin_hashes` writes a double SHA-256 hash with
/// its bytes reversed, two lower-case hexadecimal digits each
/// (`format_hex_reverse`); the contract claims exactly that rendering.
#[verifier::external_body]
pub(crate) fn txid_text(txid: &[u8; 32]) -> (r: String)
    ensures
        r@ == lower_hex(txid@.reverse()),
{
    <bitcoin::Txid as bitcoin::hashes::Hash>::from_inner(*txid).to_string()
}


/// Whether two 32-byte identifiers are the same.
pub fn same_bytes32(a: &[u8; 32], b: &[u8; 32]) -> (r: bool)
    ensures
        r == (*a == *b),
{
    let mut i: usize = 0;
    while i < 32
        invariant
            i <= 32,
            forall|j: int| 0 <= j < i ==> a[j] == b[j],
        decreases 32 - i,
    {
        if a[i] != b[i] {
            return false;
        }
        i = i + 1;
    }
    proof {
        assert(*a =~= *b);
    }
    true
}

/// Calls `rand::Rng::gen_range` on the thread random number generator (the
/// `rand` that `bitcoin` re-exports), which gives a number in `[low, high)`
/// and panics when `low >= high`; the contract claims the range.
#[verifier::external_body]
pub(crate) fn random_in(low: u16, high: u16) -> (r: u16)
    requires
        low < high,
    ensures
        low <= r < high,
{
    bitcoin::secp256k1::rand::Rng::gen_range(&mut bitcoin::secp256k1::rand::thread_rng(), low, high)
}

/// Calls `bitcoin::secp256k1::rand::random` for one byte drawn from the
/// thread random number generator. Nothing is claimed of the byte.
#[verifier::external_body]
pub(crate) fn random_byte() -> (r: u8) {
    bitcoin::secp256k1::rand::random::<u8>()
}

} // verus!
