//! Rendering of an output's `scriptPubkey` with the `bitcoin` crate: the
//! address it pays to on a network, its assembly and its hexadecimal form.
use vstd::prelude::*;
use crate::funding::Network;
use crate::hex::lower_hex;

verus! {

/// The address that `bitcoin::Address::from_script` finds for a script on a
/// network, as `Display` writes it; `None` where the script pays to no
/// standard address.
pub uninterp spec fn address_text(script: Seq<u8>, network: Network) -> Option<Seq<char>>;

/// The assembly that `bitcoin::Script::bytes_to_asm` writes for a script.
pub uninterp spec fn script_assembly(script: Seq<u8>) -> Seq<char>;

/// Calls `bitcoin::Address::from_script` on the script and the network, and
/// `Display` on the address found. The result depends on these two alone;
/// the contract names it and claims nothing more of it.
#[verifier::external_body]
pub(crate) fn funding_address(script: &Vec<u8>, network: Network) -> (r: Option<String>)
    ensures
        match r {
            Some(a) => address_text(script@, network) == Some(a@),
            None => address_text(script@, network) is None,
        },
{
    let network = match network {
        Network::Bitcoin => bitcoin::Network::Bitcoin,
        Network::Testnet => bitcoin::Network::Testnet,
        Network::Signet => bitcoin::Network::Signet,
        Network::Regtest => bitcoin::Network::Regtest,
    };
    match bitcoin::Address::from_script(&bitcoin::Script::from(script.clone()), network) {
        Some(address) => Some(address.to_string()),
        None => None,
    }
}

/// Calls `bitcoin::Script::bytes_to_asm` on the script's bytes. The assembly
/// depends on the bytes alone; the contract names it and claims nothing more
/// of it.
#[verifier::external_body]
pub(crate) fn script_assembly_string(script: &Vec<u8>) -> (r: String)
    ensures
        r@ == script_assembly(script@),
{
    bitcoin::Script::bytes_to_asm(script.as_slice())
}

/// Calls `LowerHex` of `bitcoin::Script`, which writes every byte of the
/// script as two lower-case hexadecimal digits (`{:02x}`), in order. The
/// contract claims exactly that rendering.
#[verifier::external_body]
pub(crate) fn script_hex(script: &Vec<u8>) -> (r: String)
    ensures
        r@ == lower_hex(script@),
{
    format!("{:x}", bitcoin::Script::from(script.clone()))
}

} // verus!
