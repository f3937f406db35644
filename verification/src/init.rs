//! First-time initialisation of the node's data: which of the data
//! directory, the signing account and the funding wallet are created and
//! which are found, what is printed for each, and the signing account
//! derived from the master extended private key (BIP-32, with `bitcoin`).
use vstd::prelude::*;

verus! {

/// Name of the file holding the signing account in the data directory.
pub open spec fn master_key_file() -> Seq<char> {
    "master.key"@
}

/// Name of the file holding the funding wallet in the data directory.
pub open spec fn funding_wallet_file() -> Seq<char> {
    "funding.wallet"@
}

/// What the initialisation creates; what it does not create it finds and
/// reads.
#[derive(Copy, Clone, PartialEq, Eq, Structural, Debug, Hash)]
pub struct InitPlan {
    pub create_data_dir: bool,
    pub create_signing_account: bool,
    pub create_funding_wallet: bool,
}

/// Creates what does not exist yet: the data directory, the signing
/// account and the funding wallet; reuses what exists.
pub fn init_plan(data_dir_exists: bool, master_exists: bool, funding_exists: bool) -> (r: InitPlan)
    ensures
        r.create_data_dir == !data_dir_exists,
        r.create_signing_account == !master_exists,
        r.create_funding_wallet == !funding_exists,
{
    InitPlan {
        create_data_dir: !data_dir_exists,
        create_signing_account: !master_exists,
        create_funding_wallet: !funding_exists,
    }
}

/// The line printed for one step: what is set up, its name, and whether it
/// is being created or was found.
pub open spec fn step_text(what: Seq<char>, name: Seq<char>, create: bool) -> Seq<char> {
    what + " '"@ + name + "' ... "@ + if create { "creating"@ } else { "found"@ }
}

/// Appends the line of one step.
fn push_step_line(lines: &mut Vec<String>, what: &str, name: &str, create: bool)
    ensures
        final(lines)@.len() == old(lines)@.len() + 1,
        forall|i: int| 0 <= i < old(lines)@.len() ==> final(lines)@[i] == old(lines)@[i],
        final(lines)@.last()@ == step_text(what@, name@, create),
{
    let mut line = String::from_str(what);
    line.append(" '");
    line.append(name);
    line.append("' ... ");
    if create {
        line.append("creating");
    } else {
        line.append("found");
    }
    lines.push(line);
}

/// The lines printed while initialising the data in `data_dir`, in order:
/// the data directory, the signing account, the funding wallet.
pub fn init_lines(data_dir: &str, plan: InitPlan) -> (r: Vec<String>)
    ensures
        r@.len() == 3,
        r@[0]@ == step_text("Data directory"@, data_dir@, plan.create_data_dir),
        r@[1]@ == step_text("Signing account"@, master_key_file(), plan.create_signing_account),
        r@[2]@ == step_text("Funding wallet"@, funding_wallet_file(), plan.create_funding_wallet),
{
    let mut lines: Vec<String> = Vec::new();
    push_step_line(&mut lines, "Data directory", data_dir, plan.create_data_dir);
    push_step_line(&mut lines, "Signing account", "master.key", plan.create_signing_account);
    push_step_line(&mut lines, "Funding wallet", "funding.wallet", plan.create_funding_wallet);
    proof {
        reveal_strlit("Data directory");
        reveal_strlit("Signing account");
        reveal_strlit("Funding wallet");
        reveal_strlit("master.key");
        reveal_strlit("funding.wallet");
    }
    lines
}

/// The BIP-32 serialization (78 bytes) of the extended private key that
/// `FromStr` of `bitcoin::util::bip32::ExtendedPrivKey` reads from a text,
/// if it reads one.
pub uninterp spec fn xpriv_bytes_of(text: Seq<char>) -> Option<Seq<u8>>;

/// The BIP-32 serialization of the child `m/10046h` that `derive_priv`
/// derives from the extended private key with the given serialization, if
/// `decode` reads the key and the derivation succeeds.
pub uninterp spec fn account_of(master: Seq<u8>) -> Option<Seq<u8>>;

/// Calls `FromStr` of `bitcoin::util::bip32::ExtendedPrivKey` on the text
/// and, on success, `encode` for the key's 78-byte serialization, whose byte
/// 4 is the key's depth. The result depends on the text alone; the contract
/// names it and claims nothing more of it.
#[verifier::external_body]
pub(crate) fn parse_xpriv(text: &str) -> (r: Option<[u8; 78]>)
    ensures
        match r {
            Some(k) => xpriv_bytes_of(text@) == Some(k@),
            None => xpriv_bytes_of(text@) is None,
        },
{
    match <bitcoin::util::bip32::ExtendedPrivKey as std::str::FromStr>::from_str(text) {
        Ok(xpriv) => Some(xpriv.encode()),
        Err(_) => None,
    }
}

/// Calls `decode` of `bitcoin::util::bip32::ExtendedPrivKey` on the bytes,
/// `derive_priv` on the key with the path `m/10046h`, and `encode` on the
/// child. `ckd_priv` adds one to the depth, a `u8`, which overflows at depth
/// 255: `requires` leaves that out. The result depends on the bytes alone;
/// the contract names it and claims nothing more of it.
#[verifier::external_body]
pub(crate) fn derive_account(master: &[u8; 78]) -> (r: Option<[u8; 78]>)
    requires
        master@[4] < 255,
    ensures
        match r {
            Some(k) => account_of(master@) == Some(k@),
            None => account_of(master@) is None,
        },
{
    let secp = bitcoin::secp256k1::Secp256k1::new();
    let path = [bitcoin::util::bip32::ChildNumber::Hardened { index: 10046 }];
    match bitcoin::util::bip32::ExtendedPrivKey::decode(master) {
        Ok(xpriv) => match xpriv.derive_priv(&secp, &path) {
            Ok(account) => Some(account.encode()),
            Err(_) => None,
        },
        Err(_) => None,
    }
}

/// Why the signing account could not be set up.
#[derive(Copy, Clone, PartialEq, Eq, Structural, Debug, Hash)]
pub enum InitError {
    /// the text is no extended private key
    BadXpriv,
    /// the key is at the deepest depth BIP-32 can count, so it has no child
    DepthLimit,
    /// the child key could not be derived
    Derivation,
}

/// The signing account `m/10046h` of a master key given by its
/// serialization, below the deepest depth.
pub fn account_from_master(master: &[u8; 78]) -> (r: Result<[u8; 78], InitError>)
    requires
        master@[4] < 255,
    ensures
        match account_of(master@) {
            Some(k) => r matches Ok(b) && b@ == k,
            None => r == Err::<[u8; 78], InitError>(InitError::Derivation),
        },
{
    match derive_account(master) {
        Some(k) => Ok(k),
        None => Err(InitError::Derivation),
    }
}

/// The signing account `m/10046h` of the master extended private key the
/// user entered: `BadXpriv` where the text is no such key, `DepthLimit`
/// where the key has no child depth left, `Derivation` where deriving fails.
pub fn signing_account(xpriv: &str) -> (r: Result<[u8; 78], InitError>)
    ensures
        match xpriv_bytes_of(xpriv@) {
            None => r == Err::<[u8; 78], InitError>(InitError::BadXpriv),
            Some(m) => if m[4] == 255 {
                r == Err::<[u8; 78], InitError>(InitError::DepthLimit)
            } else {
                match account_of(m) {
                    Some(k) => r matches Ok(b) && b@ == k,
                    None => r == Err::<[u8; 78], InitError>(InitError::Derivation),
                }
            },
        },
{
    match parse_xpriv(xpriv) {
        None => Err(InitError::BadXpriv),
        Some(master) => {
            if master[4] == 255 {
                Err(InitError::DepthLimit)
            } else {
                account_from_master(&master)
            }
        },
    }
}

} // verus!
