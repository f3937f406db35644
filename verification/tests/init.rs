use lnp_node::init::{init_lines, init_plan, signing_account, InitError, InitPlan};

#[test]
fn plan_creates_what_is_missing() {
    assert_eq!(
        init_plan(true, false, true),
        InitPlan { create_data_dir: false, create_signing_account: true, create_funding_wallet: false }
    );
    assert_eq!(
        init_plan(false, false, false),
        InitPlan { create_data_dir: true, create_signing_account: true, create_funding_wallet: true }
    );
}

#[test]
fn init_progress_lines() {
    let lines = init_lines("/data/.lnp_node/signet", init_plan(true, false, true));
    assert_eq!(
        lines,
        vec![
            "Data directory '/data/.lnp_node/signet' ... found".to_string(),
            "Signing account 'master.key' ... creating".to_string(),
            "Funding wallet 'funding.wallet' ... found".to_string(),
        ]
    );
}

#[test]
fn signing_account_is_hardened_child_10046() {
    let master = "xprv9s21ZrQH143K3QTDL4LXw2F7HEK3wJUD2nW2nRk4stbPy6cq3jPPqjiChkVvvNKmPGJxWUtg6LnF5kejMRNNU3TGtRBeJgk33yuGBxrMPHi";
    let account = signing_account(master).unwrap();
    // mainnet private key version
    assert_eq!(&account[0..4], &[0x04, 0x88, 0xAD, 0xE4]);
    // depth one below the master
    assert_eq!(account[4], 1);
    // parent fingerprint: that of the master key of the BIP-32 test vector
    assert_eq!(&account[5..9], &[0x34, 0x42, 0x19, 0x3e]);
    // child number 10046, hardened
    assert_eq!(&account[9..13], &[0x80, 0x00, 0x27, 0x3e]);
    assert_eq!(account[45], 0);
}

#[test]
fn signing_account_refuses_bad_text() {
    assert_eq!(signing_account("not a key"), Err(InitError::BadXpriv));
    assert_eq!(signing_account(""), Err(InitError::BadXpriv));
}
