use lnp_node::funding::{
    collect_funds, lookup_end, next_derivation_index, plan_funding, select_funds, FundingError,
    Funds, OutPoint, ScriptUtxos, Utxo,
};

fn op(n: u8, vout: u32) -> OutPoint {
    OutPoint { txid: [n; 32], vout }
}

fn funds(amounts: &[u64]) -> Vec<Funds> {
    amounts
        .iter()
        .enumerate()
        .map(|(i, a)| Funds { outpoint: op(i as u8, 0), terminal: vec![0, i as u32], script_pubkey: vec![0x51], amount: *a })
        .collect()
}

#[test]
fn single_fund_is_smallest_cover() {
    assert_eq!(select_funds(&vec![10, 50, 30, 70], 25, 5), Ok(vec![2]));
    // ties go to the earlier fund
    assert_eq!(select_funds(&vec![40, 30, 30], 30, 0), Ok(vec![1]));
}

#[test]
fn walk_from_largest_covers_target() {
    // no single fund covers 100; from the largest down: 40 (40), 35 (75), 30 (105 >= 100)
    assert_eq!(select_funds(&vec![30, 40, 35, 20], 90, 10), Ok(vec![1, 2, 0]));
    // two equal funds: the later one counts as larger
    assert_eq!(select_funds(&vec![5, 5], 8, 0), Ok(vec![1, 0]));
    // exactly reaching the target stops the walk
    assert_eq!(select_funds(&vec![10, 20, 30], 45, 5), Ok(vec![2, 1]));
}

#[test]
fn insufficient_funds() {
    assert_eq!(select_funds(&vec![10, 20], 30, 1), Err(FundingError::InsufficientFunds));
    assert_eq!(select_funds(&vec![], 1, 0), Err(FundingError::InsufficientFunds));
    assert_eq!(select_funds(&vec![], 0, 0), Ok(vec![]));
}

#[test]
fn plan_takes_inputs_and_change_index() {
    let f = funds(&[10, 50, 30]);
    let plan = plan_funding(&f, 20, 5, 7).unwrap();
    assert_eq!(plan.selected, vec![2]);
    assert_eq!(plan.inputs.len(), 1);
    assert_eq!(plan.inputs[0].outpoint, op(2, 0));
    assert_eq!(plan.inputs[0].terminal, vec![0, 2]);
    assert_eq!(plan.change_index, 7);
    assert_eq!(plan.next_change_index, 8);
    assert_eq!(plan_funding(&f, 100, 0, 0), Err(FundingError::InsufficientFunds));
}

#[test]
fn derivation_indexes() {
    assert_eq!(next_derivation_index(0), 1);
    assert_eq!(next_derivation_index(0x7FFF_FFFE), 0x7FFF_FFFF);
    assert_eq!(next_derivation_index(0x7FFF_FFFF), 0);
    assert_eq!(lookup_end(5), 25);
    assert_eq!(lookup_end(u32::MAX - 3), u32::MAX);
}

#[test]
fn collecting_skips_used_and_empty() {
    let entries = vec![
        ScriptUtxos { index: 0, script_pubkey: vec![1], utxos: vec![Utxo { outpoint: op(1, 0), amount: 5 }] },
        ScriptUtxos { index: 3, script_pubkey: vec![2], utxos: vec![Utxo { outpoint: op(2, 1), amount: 7 }, Utxo { outpoint: op(3, 0), amount: 9 }] },
        ScriptUtxos { index: 9, script_pubkey: vec![3], utxos: vec![Utxo { outpoint: op(4, 0), amount: 1 }] },
    ];
    let used = vec![op(2, 1), op(4, 0)];
    let mut last = 2u32;
    let got = collect_funds(1, &entries, &used, &mut last);
    assert_eq!(got.len(), 2);
    assert_eq!(got[0], Funds { outpoint: op(1, 0), terminal: vec![1, 0], script_pubkey: vec![1], amount: 5 });
    assert_eq!(got[1], Funds { outpoint: op(3, 0), terminal: vec![1, 3], script_pubkey: vec![2], amount: 9 });
    // index 0 is below 2; index 3 advances it to 4; index 9 has no spendable output
    assert_eq!(last, 4);
}

#[test]
fn outpoint_equality() {
    assert!(op(1, 2).same(&op(1, 2)));
    assert!(!op(1, 2).same(&op(1, 3)));
    assert!(!op(1, 2).same(&op(2, 2)));
}

#[test]
fn funding_error_texts() {
    assert_eq!(FundingError::InsufficientFunds.to_display_string(), "Insufficient funds for the funding transaction");
    assert_eq!(
        FundingError::Io("denied".to_string()).to_display_string(),
        "error accessing funding wallet file. Details: denied"
    );
}

use lnp_node::funding::{used_outpoints, wallet_funds};

#[test]
fn wallet_funds_normal_then_change() {
    let normal = vec![ScriptUtxos { index: 5, script_pubkey: vec![1], utxos: vec![Utxo { outpoint: op(1, 0), amount: 10 }] }];
    let change = vec![
        ScriptUtxos { index: 0, script_pubkey: vec![2], utxos: vec![Utxo { outpoint: op(2, 0), amount: 20 }] },
        ScriptUtxos { index: 1, script_pubkey: vec![3], utxos: vec![Utxo { outpoint: op(3, 0), amount: 30 }] },
    ];
    let pending = vec![vec![op(3, 0)], vec![]];
    assert_eq!(used_outpoints(&pending), vec![op(3, 0)]);
    let w = wallet_funds(&normal, &change, &pending, 0, 0);
    assert_eq!(w.funds.len(), 2);
    assert_eq!(w.funds[0].terminal, vec![0, 5]);
    assert_eq!(w.funds[1].terminal, vec![1, 0]);
    assert_eq!(w.last_normal_index, 6);
    assert_eq!(w.last_change_index, 1);
}

use lnp_node::funding::{PendingFunding, PendingFundings};

#[test]
fn pending_fundings_read_after_write() {
    let mut p: PendingFundings<String> = PendingFundings::new();
    assert_eq!(p.get_funding_psbt(&[1u8; 32]), None);
    p.insert(PendingFunding { temp_channel_id: [9u8; 32], funding_txid: [1u8; 32], prev_outpoints: vec![op(5, 0)], psbt: "a".to_string() });
    p.insert(PendingFunding { temp_channel_id: [9u8; 32], funding_txid: [2u8; 32], prev_outpoints: vec![], psbt: "b".to_string() });
    assert_eq!(p.get_funding_psbt(&[1u8; 32]), Some(&"a".to_string()));
    p.insert(PendingFunding { temp_channel_id: [8u8; 32], funding_txid: [1u8; 32], prev_outpoints: vec![], psbt: "c".to_string() });
    assert_eq!(p.get_funding_psbt(&[1u8; 32]), Some(&"c".to_string()));
    assert_eq!(p.get_funding_psbt(&[2u8; 32]), Some(&"b".to_string()));
    assert_eq!(p.get_funding_psbt(&[3u8; 32]), None);
}

use lnp_node::config::Chain;
use lnp_node::funding::{check_wallet_chain, network_of, Network};

#[test]
fn recorded_funding_spends_its_inputs_and_no_pending_output() {
    let mut pending: PendingFundings<String> = PendingFundings::new();
    pending.insert(PendingFunding { temp_channel_id: [7u8; 32], funding_txid: [1u8; 32], prev_outpoints: vec![op(3, 0)], psbt: "a".to_string() });
    let used = pending.spent_outpoints();
    assert_eq!(used, vec![op(3, 0)]);
    let entries = vec![ScriptUtxos {
        index: 0,
        script_pubkey: vec![0x51],
        utxos: vec![Utxo { outpoint: op(3, 0), amount: 100 }, Utxo { outpoint: op(4, 1), amount: 60 }],
    }];
    let mut last = 0u32;
    let funds = collect_funds(0, &entries, &used, &mut last);
    assert_eq!(funds.len(), 1);
    assert_eq!(funds[0].outpoint, op(4, 1));
    let plan = plan_funding(&funds, 50, 5, 0).unwrap();
    assert_eq!(plan.inputs.len(), 1);
    assert_eq!(plan.inputs[0].outpoint, op(4, 1));
    pending.record([8u8; 32], [2u8; 32], &plan, "b".to_string());
    let mut spent = pending.spent_outpoints();
    spent.sort_by_key(|o| (o.txid, o.vout));
    assert_eq!(spent, vec![op(3, 0), op(4, 1)]);
    assert_eq!(pending.get_funding_psbt(&[2u8; 32]), Some(&"b".to_string()));
}

#[test]
fn chain_networks() {
    assert_eq!(network_of(&Chain::Mainnet), Ok(Network::Bitcoin));
    assert_eq!(network_of(&Chain::Testnet3), Ok(Network::Testnet));
    assert_eq!(network_of(&Chain::Signet), Ok(Network::Signet));
    assert_eq!(network_of(&Chain::Regtest), Ok(Network::Regtest));
    assert_eq!(network_of(&Chain::LiquidV1), Err(FundingError::ChainNotSupported));
}

#[test]
fn wallet_chain_checks() {
    assert_eq!(check_wallet_chain(&Chain::Testnet3, Ok(Network::Testnet)), Ok(Network::Testnet));
    assert_eq!(check_wallet_chain(&Chain::Mainnet, Ok(Network::Testnet)), Err(FundingError::ChainMismatch));
    assert_eq!(check_wallet_chain(&Chain::SignetCustom, Ok(Network::Signet)), Err(FundingError::ChainNotSupported));
    assert_eq!(
        check_wallet_chain(&Chain::Regtest, Err("no key".to_string())),
        Err(FundingError::Derivation("no key".to_string()))
    );
}

#[test]
fn wallet_funding_avoids_pending_outputs_of_both_cases() {
    let mut pending: PendingFundings<String> = PendingFundings::new();
    pending.insert(PendingFunding { temp_channel_id: [7u8; 32], funding_txid: [1u8; 32], prev_outpoints: vec![op(1, 0), op(2, 0)], psbt: "a".to_string() });
    let normal = vec![ScriptUtxos { index: 3, script_pubkey: vec![1], utxos: vec![Utxo { outpoint: op(1, 0), amount: 500 }] }];
    let change = vec![ScriptUtxos {
        index: 0,
        script_pubkey: vec![2],
        utxos: vec![Utxo { outpoint: op(2, 0), amount: 400 }, Utxo { outpoint: op(9, 0), amount: 80 }],
    }];
    let w = wallet_funds(&normal, &change, &vec![pending.spent_outpoints()], 0, 0);
    assert_eq!(w.funds.len(), 1);
    assert_eq!(w.funds[0].outpoint, op(9, 0));
    let plan = plan_funding(&w.funds, 70, 5, w.last_change_index).unwrap();
    pending.record([8u8; 32], [2u8; 32], &plan, "b".to_string());
    let mut spent = pending.spent_outpoints();
    spent.sort_by_key(|o| (o.txid, o.vout));
    assert_eq!(spent, vec![op(1, 0), op(2, 0), op(9, 0)]);
}

#[test]
fn scan_index_only_grows_below_the_last_unhardened_index() {
    let es = vec![
        ScriptUtxos { index: 2, script_pubkey: vec![1], utxos: vec![Utxo { outpoint: op(1, 0), amount: 1 }] },
        ScriptUtxos { index: 1, script_pubkey: vec![1], utxos: vec![Utxo { outpoint: op(2, 0), amount: 1 }] },
    ];
    let mut last = 5u32;
    collect_funds(0, &es, &vec![], &mut last);
    assert_eq!(last, 5);
    let mut last = 1u32;
    collect_funds(0, &es, &vec![], &mut last);
    assert_eq!(last, 3);
    // the last unhardened index wraps to the first
    let top = vec![ScriptUtxos { index: 0x7FFF_FFFF, script_pubkey: vec![1], utxos: vec![Utxo { outpoint: op(3, 0), amount: 1 }] }];
    let mut last = 10u32;
    collect_funds(0, &top, &vec![], &mut last);
    assert_eq!(last, 0);
}
