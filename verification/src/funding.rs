//! The funding wallet's own logic: which unspent outputs fund a channel, which
//! outputs the wallet may still spend, and how its derivation indexes advance.
//!
//! Scanning the blockchain through an Electrum server, constructing and
//! publishing transactions are done by the wallet around this module; they
//! hand it the outputs they found and take back the selection.
use vstd::prelude::*;
use crate::hex::same_bytes32;
use crate::config::Chain;

verus! {

/// Key by which funds are ordered: the amount, then the position in the list
/// (a stable sort by amount).
pub open spec fn key_lt(a: Seq<u64>, i: int, j: int) -> bool {
    a[i] < a[j] || (a[i] == a[j] && i < j)
}

/// Sum of the first `m` amounts.
pub open spec fn prefix_sum(a: Seq<u64>, m: int) -> nat
    decreases m,
{
    if m <= 0 {
        0
    } else {
        prefix_sum(a, m - 1) + a[m - 1] as nat
    }
}

/// Sum of all amounts.
pub open spec fn total(a: Seq<u64>) -> nat {
    prefix_sum(a, a.len() as int)
}

/// Sum of the amounts of the funds at the positions listed in `v`.
pub open spec fn sum_idx(a: Seq<u64>, v: Seq<usize>) -> nat
    decreases v.len(),
{
    if v.len() == 0 {
        0
    } else {
        sum_idx(a, v.drop_last()) + a[v.last() as int] as nat
    }
}

/// `i` is the smallest fund (by the order of funds) that covers `target`
/// alone.
pub open spec fn is_best_single(a: Seq<u64>, target: int, i: int) -> bool {
    &&& 0 <= i < a.len()
    &&& a[i] >= target
    &&& forall|j: int| 0 <= j < a.len() && a[j] >= target ==> !key_lt(a, j, i)
}

/// Some fund covers `target` alone.
pub open spec fn has_single(a: Seq<u64>, target: int) -> bool {
    exists|i: int| 0 <= i < a.len() && a[i] >= target
}

/// `v` lists positions of funds from the largest down, each once.
pub open spec fn descending(a: Seq<u64>, v: Seq<usize>) -> bool {
    &&& forall|p: int| 0 <= p < v.len() ==> v[p] < a.len()
    &&& forall|p: int, q: int| 0 <= p < q < v.len() ==> key_lt(a, v[q] as int, v[p] as int)
}

/// Every fund that `v` leaves out is smaller than every fund it lists.
pub open spec fn top_segment(a: Seq<u64>, v: Seq<usize>) -> bool {
    forall|j: int, p: int|
        0 <= j < a.len() && !v.contains(j as usize) && 0 <= p < v.len() ==> key_lt(a, j, v[p] as int)
}

/// The selection of funds for a transaction paying `amount` with `fee`, by
/// their positions in the list of amounts `a`: the smallest fund that covers
/// both alone; if there is none, the largest funds, from the largest down,
/// until together they cover `amount + fee` (the last one taken is the one
/// that makes them cover it), provided all the funds together do; otherwise
/// the funds are insufficient.
pub open spec fn selection_ok(a: Seq<u64>, amount: u64, fee: u64, r: Result<Vec<usize>, FundingError>) -> bool {
    let target = amount + fee;
    if has_single(a, target) {
        r matches Ok(v) && v@.len() == 1 && is_best_single(a, target, v@[0] as int)
    } else if total(a) < target {
        r == Err::<Vec<usize>, FundingError>(FundingError::InsufficientFunds)
    } else {
        r matches Ok(v) && {
            &&& descending(a, v@)
            &&& top_segment(a, v@)
            &&& sum_idx(a, v@) >= target
            &&& (v@.len() == 0 || sum_idx(a, v@.drop_last()) < target)
        }
    }
}

/// Errors working with funding wallet
#[derive(Clone, PartialEq, Eq, Debug)]
pub enum FundingError {
    /// error accessing funding wallet file, by its description
    Io(String),
    /// error reading or writing funding wallet data, by its description
    StrictEncoding(String),
    /// error resolving funding wallet transactions with Electrum server, by its description
    Electrum(String),
    /// error resolving funding wallet transactions, by its description
    Resolver(String),
    /// funding wallet uses custom descriptor which can't be represented as a
    /// valid bitcoin addresses, making channel funding impossible
    NoAddressRepresentation,
    /// chain is not supported for funding
    ChainNotSupported,
    /// chain network mismatches funding wallet network
    ChainMismatch,
    /// unable to derive an address for the descriptor, by the description
    Derivation(String),
    /// wallet has run out of funding addresses
    OutOfIndexes,
    /// Insufficient funds for the funding transaction
    InsufficientFunds,
    /// error finalizing transaction, by its description
    Finalizing(String),
}

/// Description of each error.
pub open spec fn funding_error_text(e: FundingError) -> Seq<char> {
    match e {
        FundingError::Io(d) => "error accessing funding wallet file. Details: "@ + d@,
        FundingError::StrictEncoding(d) => "error reading or writing funding wallet data. Details: "@ + d@,
        FundingError::Electrum(d) => "error resolving funding wallet transactions with Electrum server. Details: "@ + d@,
        FundingError::Resolver(d) => "error resolving funding wallet transactions. Details: "@ + d@,
        FundingError::NoAddressRepresentation => "funding wallet uses custom descriptor which can't be represented as a valid bitcoin addresses, making channel funding impossible"@,
        FundingError::ChainNotSupported => "chain is not supported for funding"@,
        FundingError::ChainMismatch => "chain network mismatches funding wallet network"@,
        FundingError::Derivation(d) => "unable to derive an address for the descriptor; potentially funding wallet descriptor is incorrect. Details: "@ + d@,
        FundingError::OutOfIndexes => "wallet has run out of funding addresses"@,
        FundingError::InsufficientFunds => "Insufficient funds for the funding transaction"@,
        FundingError::Finalizing(d) => "error finalizing transaction, probably not all signatures are present. Details: "@ + d@,
    }
}

impl FundingError {
    /// Description of the error.
    pub fn to_display_string(&self) -> (r: String)
        ensures
            r@ == funding_error_text(*self),
    {
        let (prefix, details): (&str, Option<&String>) = match self {
            FundingError::Io(d) => ("error accessing funding wallet file. Details: ", Some(d)),
            FundingError::StrictEncoding(d) => ("error reading or writing funding wallet data. Details: ", Some(d)),
            FundingError::Electrum(d) => ("error resolving funding wallet transactions with Electrum server. Details: ", Some(d)),
            FundingError::Resolver(d) => ("error resolving funding wallet transactions. Details: ", Some(d)),
            FundingError::NoAddressRepresentation => ("funding wallet uses custom descriptor which can't be represented as a valid bitcoin addresses, making channel funding impossible", None),
            FundingError::ChainNotSupported => ("chain is not supported for funding", None),
            FundingError::ChainMismatch => ("chain network mismatches funding wallet network", None),
            FundingError::Derivation(d) => ("unable to derive an address for the descriptor; potentially funding wallet descriptor is incorrect. Details: ", Some(d)),
            FundingError::OutOfIndexes => ("wallet has run out of funding addresses", None),
            FundingError::InsufficientFunds => ("Insufficient funds for the funding transaction", None),
            FundingError::Finalizing(d) => ("error finalizing transaction, probably not all signatures are present. Details: ", Some(d)),
        };
        let mut out = String::from_str(prefix);
        if let Some(d) = details {
            out.append(d.as_str());
        }
        out
    }
}

/// Whether fund `i` comes before fund `j` in the order of funds.
fn key_less(a: &Vec<u64>, i: usize, j: usize) -> (r: bool)
    requires
        i < a.len(),
        j < a.len(),
    ensures
        r == key_lt(a@, i as int, j as int),
{
    a[i] < a[j] || (a[i] == a[j] && i < j)
}

/// Inserting a position into a list adds its amount to the sum.
proof fn lemma_sum_idx_insert(a: Seq<u64>, v: Seq<usize>, p: int, x: usize)
    requires
        0 <= p <= v.len(),
    ensures
        sum_idx(a, v.insert(p, x)) == sum_idx(a, v) + a[x as int] as nat,
    decreases v.len(),
{
    let w = v.insert(p, x);
    if p == v.len() {
        assert(w.drop_last() =~= v);
    } else {
        assert(w.drop_last() =~= v.drop_last().insert(p, x));
        lemma_sum_idx_insert(a, v.drop_last(), p, x);
        assert(w.last() == v.last());
    }
}

/// The funds at the first positions of a list sum to at most those of all.
proof fn lemma_sum_idx_prefix(a: Seq<u64>, v: Seq<usize>, k: int)
    requires
        0 <= k <= v.len(),
    ensures
        sum_idx(a, v.take(k)) <= sum_idx(a, v),
    decreases v.len(),
{
    if k < v.len() {
        assert(v.drop_last().take(k) =~= v.take(k));
        lemma_sum_idx_prefix(a, v.drop_last(), k);
    } else {
        assert(v.take(k) =~= v);
    }
}

/// Selects the funds paying `amount` with `fee` from the funds with the given
/// amounts, by their positions.
pub fn select_funds(amounts: &Vec<u64>, amount: u64, fee: u64) -> (r: Result<Vec<usize>, FundingError>)
    requires
        amount + fee <= u64::MAX,
    ensures
        selection_ok(amounts@, amount, fee, r),
{
    let target: u64 = amount + fee;
    let n = amounts.len();
    // The smallest fund covering the target alone.
    let mut best: Option<usize> = None;
    let mut i: usize = 0;
    while i < n
        invariant
            i <= n,
            n == amounts.len(),
            target == amount + fee,
            match best {
                Some(b) => b < i && amounts@[b as int] >= target && forall|j: int|
                    0 <= j < i && amounts@[j] >= target ==> !key_lt(amounts@, j, b as int),
                None => forall|j: int| 0 <= j < i ==> amounts@[j] < target,
            },
        decreases n - i,
    {
        let ghost old_best = best;
        if amounts[i] >= target {
            match best {
                Some(b) => {
                    if key_less(amounts, i, b) {
                        best = Some(i);
                    }
                }
                None => {
                    best = Some(i);
                }
            }
        }
        proof {
            if let (Some(b), Some(ob)) = (best, old_best) {
                if b != ob {
                    assert forall|j: int| 0 <= j < i && amounts@[j] >= target implies !key_lt(amounts@, j, b as int) by {
                        assert(!key_lt(amounts@, j, ob as int));
                    }
                }
            }
        }
        i = i + 1;
    }
    if let Some(b) = best {
        let mut v: Vec<usize> = Vec::new();
        v.push(b);
        return Ok(v);
    }
    // Order all funds from the largest down.
    let mut ord: Vec<usize> = Vec::new();
    let mut j: usize = 0;
    while j < n
        invariant
            j <= n,
            n == amounts.len(),
            descending(amounts@, ord@),
            forall|p: int| 0 <= p < ord@.len() ==> ord@[p] < j,
            forall|x: int| 0 <= x < j ==> #[trigger] ord@.contains(x as usize),
            ord@.len() == j,
            sum_idx(amounts@, ord@) == prefix_sum(amounts@, j as int),
        decreases n - j,
    {
        let mut p: usize = 0;
        while p < ord.len() && key_less(amounts, j, ord[p])
            invariant
                p <= ord.len(),
                j < n,
                n == amounts.len(),
                descending(amounts@, ord@),
                forall|q: int| 0 <= q < p ==> key_lt(amounts@, j as int, ord@[q] as int),
            decreases ord.len() - p,
        {
            p = p + 1;
        }
        let ghost prev = ord@;
        ord.insert(p, j);
        proof {
            lemma_sum_idx_insert(amounts@, prev, p as int, j);
            assert forall|q: int| p <= q < prev.len() implies key_lt(amounts@, prev[q] as int, j as int) by {
                if q > p {
                    assert(key_lt(amounts@, prev[q] as int, prev[p as int] as int));
                }
                assert(prev[q] < j);
            }
            assert forall|x: int| 0 <= x < j + 1 implies #[trigger] ord@.contains(x as usize) by {
                if x == j {
                    assert(ord@[p as int] == j);
                } else {
                    assert(prev.contains(x as usize));
                    let w = choose|w: int| 0 <= w < prev.len() && prev[w] == x as usize;
                    if w < p {
                        assert(ord@[w] == x as usize);
                    } else {
                        assert(ord@[w + 1] == x as usize);
                    }
                }
            }
        }
        j = j + 1;
    }
    // Walk from the largest fund down until the funds taken cover the target.
    let mut out: Vec<usize> = Vec::new();
    let mut acc: u128 = 0;
    let mut k: usize = 0;
    while k < n && acc < target as u128
        invariant
            k <= n,
            n == amounts.len(),
            ord@.len() == n,
            target == amount + fee,
            out@ == ord@.take(k as int),
            acc == sum_idx(amounts@, out@),
            sum_idx(amounts@, ord@) == total(amounts@),
            forall|x: int| 0 <= x < n ==> #[trigger] ord@.contains(x as usize),
            descending(amounts@, ord@),
            k > 0 ==> sum_idx(amounts@, out@.drop_last()) < target,
            forall|p: int| 0 <= p < ord@.len() ==> ord@[p] < n,
        decreases n - k,
    {
        let x = ord[k];
        let ghost before = out@;
        out.push(x);
        proof {
            assert(out@.drop_last() =~= before);
            assert(out@ =~= ord@.take(k as int + 1));
        }
        acc = acc + amounts[x] as u128;
        k = k + 1;
    }
    if acc < target as u128 {
        proof {
            assert(ord@.take(n as int) =~= ord@);
        }
        return Err(FundingError::InsufficientFunds);
    }
    proof {
        lemma_sum_idx_prefix(amounts@, ord@, k as int);

        assert forall|a: int, b: int| 0 <= a < b < out@.len() implies
            key_lt(amounts@, out@[b] as int, out@[a] as int) by {
            assert(out@[a] == ord@[a]);
            assert(out@[b] == ord@[b]);
        }
        assert forall|x: int, p: int|
            0 <= x < amounts@.len() && !out@.contains(x as usize) && 0 <= p < out@.len() implies
            key_lt(amounts@, x, out@[p] as int) by {
            assert(ord@.contains(x as usize));
            let w = choose|w: int| 0 <= w < ord@.len() && ord@[w] == x as usize;
            if w < k {
                assert(out@[w] == x as usize);
            }
            assert(out@[p] == ord@[p]);
        }
    }
    Ok(out)
}

/// The funds walked from the largest down form a top segment: a fund larger
/// than a selected one is selected too.
pub proof fn law_selection_takes_largest(a: Seq<u64>, amount: u64, fee: u64, v: Vec<usize>, i: int, j: int)
    requires
        !has_single(a, amount + fee),
        selection_ok(a, amount, fee, Ok(v)),
        0 <= i < a.len(),
        0 <= j < a.len(),
        key_lt(a, i, j),
        v@.contains(i as usize),
        a.len() <= usize::MAX,
    ensures
        v@.contains(j as usize),
{
    if !v@.contains(j as usize) {
        let p = choose|p: int| 0 <= p < v@.len() && v@[p] == i as usize;
        assert(key_lt(a, j, v@[p] as int));
    }
}

/// The funds selected cover the amount and the fee together.
pub proof fn law_selection_covers(a: Seq<u64>, amount: u64, fee: u64, v: Vec<usize>)
    requires
        selection_ok(a, amount, fee, Ok(v)),
    ensures
        sum_idx(a, v@) >= amount + fee,
{
    if has_single(a, amount + fee) {
        assert(v@.drop_last().len() == 0);
    }
}

/// A selection exists exactly when one fund covers the amount and fee, or all
/// funds together do; otherwise the funds are insufficient.
pub proof fn law_selection_exists(a: Seq<u64>, amount: u64, fee: u64, r: Result<Vec<usize>, FundingError>)
    requires
        selection_ok(a, amount, fee, r),
    ensures
        r is Ok <==> (has_single(a, amount + fee) || total(a) >= amount + fee),
        r is Err ==> r == Err::<Vec<usize>, FundingError>(FundingError::InsufficientFunds),
{
}

/// Bound of unhardened derivation indexes.
pub open spec fn index_bound() -> nat {
    0x8000_0000
}

/// The derivation index after `i`; the first one once the unhardened range
/// is exhausted.
pub open spec fn next_index(i: u32) -> u32 {
    if i + 1 < index_bound() { (i + 1) as u32 } else { 0 }
}

/// The derivation index after `i`, or the first one once the unhardened
/// range is exhausted.
pub fn next_derivation_index(i: u32) -> (r: u32)
    ensures
        r == next_index(i),
{
    if i < 0x7FFF_FFFF { i + 1 } else { 0 }
}

/// Last derivation index to scan when the last used one is `last`: twenty
/// more, saturating.
pub fn lookup_end(last: u32) -> (r: u32)
    ensures
        r == if last + 20 <= u32::MAX { (last + 20) as int } else { u32::MAX as int },
{
    if last > u32::MAX - 20 { u32::MAX } else { last + 20 }
}

/// A transaction output: the id of its transaction, as its 32 bytes (which
/// display in reverse order), and its index.
#[derive(Copy, Clone, PartialEq, Eq, Debug)]
pub struct OutPoint {
    pub txid: [u8; 32],
    pub vout: u32,
}

impl OutPoint {
    /// Whether two outputs are the same.
    pub fn same(&self, other: &OutPoint) -> (r: bool)
        ensures
            r == (*self == *other),
    {
        same_bytes32(&self.txid, &other.txid) && self.vout == other.vout
    }
}

/// An unspent output found on the blockchain, with its amount in satoshis.
#[derive(Copy, Clone, PartialEq, Eq, Debug)]
pub struct Utxo {
    pub outpoint: OutPoint,
    pub amount: u64,
}

/// The unspent outputs found for the script derived at an index.
#[derive(Clone, PartialEq, Eq, Debug)]
pub struct ScriptUtxos {
    pub index: u32,
    pub script_pubkey: Vec<u8>,
    pub utxos: Vec<Utxo>,
}

/// Funds available to the wallet: an unspent output, the derivation path of
/// its key (`[case, index]`), its script and its amount.
#[derive(Clone, PartialEq, Eq, Debug)]
pub struct Funds {
    pub outpoint: OutPoint,
    pub terminal: Vec<u32>,
    pub script_pubkey: Vec<u8>,
    pub amount: u64,
}

/// Funds as specified.
pub struct FundsView {
    pub outpoint: OutPoint,
    pub terminal: Seq<u32>,
    pub script_pubkey: Seq<u8>,
    pub amount: u64,
}

impl View for Funds {
    type V = FundsView;

    open spec fn view(&self) -> FundsView {
        FundsView {
            outpoint: self.outpoint,
            terminal: self.terminal@,
            script_pubkey: self.script_pubkey@,
            amount: self.amount,
        }
    }
}

/// The outputs of `utxos` that no pending funding uses, in order.
pub open spec fn spendable(utxos: Seq<Utxo>, used: Seq<OutPoint>) -> Seq<Utxo>
    decreases utxos.len(),
{
    if utxos.len() == 0 {
        Seq::empty()
    } else {
        let rest = spendable(utxos.drop_last(), used);
        if used.contains(utxos.last().outpoint) { rest } else { rest.push(utxos.last()) }
    }
}

/// The funds of the spendable outputs of one script.
pub open spec fn script_funds(case: u32, index: u32, script: Seq<u8>, utxos: Seq<Utxo>, used: Seq<OutPoint>) -> Seq<FundsView> {
    spendable(utxos, used).map_values(|u: Utxo| FundsView {
        outpoint: u.outpoint,
        terminal: seq![case, index],
        script_pubkey: script,
        amount: u.amount,
    })
}

/// The funds of the spendable outputs of all scripts, in order.
pub open spec fn collected(case: u32, es: Seq<ScriptUtxos>, used: Seq<OutPoint>) -> Seq<FundsView>
    decreases es.len(),
{
    if es.len() == 0 {
        Seq::empty()
    } else {
        collected(case, es.drop_last(), used) + script_funds(
            case,
            es.last().index,
            es.last().script_pubkey@,
            es.last().utxos@,
            used,
        )
    }
}

/// The last derivation index after the scan: past every index that has
/// spendable outputs and is not below it.
pub open spec fn advanced(last: u32, es: Seq<ScriptUtxos>, used: Seq<OutPoint>) -> u32
    decreases es.len(),
{
    if es.len() == 0 {
        last
    } else {
        let l = advanced(last, es.drop_last(), used);
        let e = es.last();
        if spendable(e.utxos@, used).len() > 0 && e.index >= l { next_index(e.index) } else { l }
    }
}

/// Whether an output is among the used ones.
fn is_used(o: &OutPoint, used: &Vec<OutPoint>) -> (r: bool)
    ensures
        r == used@.contains(*o),
{
    let mut i: usize = 0;
    while i < used.len()
        invariant
            i <= used.len(),
            forall|j: int| 0 <= j < i ==> used@[j] != *o,
        decreases used.len() - i,
    {
        if used[i].same(o) {
            return true;
        }
        i = i + 1;
    }
    false
}

/// Copies bytes.
fn copy_bytes(b: &Vec<u8>) -> (r: Vec<u8>)
    ensures
        r@ == b@,
{
    let mut out: Vec<u8> = Vec::new();
    let mut i: usize = 0;
    while i < b.len()
        invariant
            i <= b.len(),
            out@ == b@.take(i as int),
        decreases b.len() - i,
    {
        out.push(b[i]);
        i = i + 1;
        proof {
            assert(out@ =~= b@.take(i as int));
        }
    }
    proof {
        assert(b@.take(b.len() as int) =~= b@);
    }
    out
}

/// Collects the funds found for derivation case `case` (normal or change
/// addresses) from the scripts scanned, skipping outputs that pending
/// fundings use and scripts left without outputs, and advances the last used
/// derivation index past every index with funds that is not below it.
pub fn collect_funds(case: u32, entries: &Vec<ScriptUtxos>, used: &Vec<OutPoint>, last_index: &mut u32) -> (r: Vec<Funds>)
    ensures
        r@.map_values(|f: Funds| f@) == collected(case, entries@, used@),
        *final(last_index) == advanced(*old(last_index), entries@, used@),
{
    let mut out: Vec<Funds> = Vec::new();
    let mut e: usize = 0;
    let ghost last0 = *last_index;
    while e < entries.len()
        invariant
            e <= entries.len(),
            out@.map_values(|f: Funds| f@) == collected(case, entries@.take(e as int), used@),
            *last_index == advanced(last0, entries@.take(e as int), used@),
        decreases entries.len() - e,
    {
        let entry = &entries[e];
        let ghost before = out@.map_values(|f: Funds| f@);
        let mut k: usize = 0;
        let mut found: usize = 0;
        while k < entry.utxos.len()
            invariant
                k <= entry.utxos.len(),
                e < entries.len(),
                entry == &entries@[e as int],
                out@.map_values(|f: Funds| f@) == before + script_funds(
                    case,
                    entry.index,
                    entry.script_pubkey@,
                    entry.utxos@.take(k as int),
                    used@,
                ),
                found == spendable(entry.utxos@.take(k as int), used@).len(),
                found <= k,
            decreases entry.utxos.len() - k,
        {
            let u = entry.utxos[k];
            proof {
                assert(entry.utxos@.take(k as int + 1).drop_last() =~= entry.utxos@.take(k as int));
            }
            if !is_used(&u.outpoint, used) {
                let mut terminal: Vec<u32> = Vec::new();
                terminal.push(case);
                terminal.push(entry.index);
                let script = copy_bytes(&entry.script_pubkey);
                let f = Funds { outpoint: u.outpoint, terminal, script_pubkey: script, amount: u.amount };
                let ghost prev = out@;
                out.push(f);
                found = found + 1;
                proof {
                    assert(f@.terminal =~= seq![case, entry.index]);
                    assert(out@.map_values(|f: Funds| f@) =~= prev.map_values(|f: Funds| f@).push(f@));
                    assert(script_funds(case, entry.index, entry.script_pubkey@, entry.utxos@.take(k as int + 1), used@)
                        =~= script_funds(case, entry.index, entry.script_pubkey@, entry.utxos@.take(k as int), used@).push(f@));
                    assert(out@.map_values(|f: Funds| f@) =~= before + script_funds(
                        case,
                        entry.index,
                        entry.script_pubkey@,
                        entry.utxos@.take(k as int + 1),
                        used@,
                    ));
                }
            }
            k = k + 1;
        }
        proof {
            assert(entry.utxos@.take(k as int) =~= entry.utxos@);
            assert(entries@.take(e as int + 1).drop_last() =~= entries@.take(e as int));
        }
        if found > 0 && entry.index >= *last_index {
            *last_index = next_derivation_index(entry.index);
        }
        e = e + 1;
    }
    proof {
        assert(entries@.take(e as int) =~= entries@);
    }
    out
}


/// An input of the funding transaction: the output it spends and the
/// derivation path of its key.
#[derive(Clone, PartialEq, Eq, Debug)]
pub struct FundingInput {
    pub outpoint: OutPoint,
    pub terminal: Vec<u32>,
}

/// What the funding transaction is built from: the positions of the funds it
/// spends, its inputs, the derivation index of its change output and the
/// wallet's next change index.
#[derive(Clone, PartialEq, Eq, Debug)]
pub struct FundingPlan {
    pub selected: Vec<usize>,
    pub inputs: Vec<FundingInput>,
    pub change_index: u32,
    pub next_change_index: u32,
}

/// Amounts of a list of funds.
pub open spec fn amounts_of(funds: Seq<Funds>) -> Seq<u64> {
    funds.map_values(|f: Funds| f.amount)
}

/// The inputs spend the selected funds, in the order of the selection.
pub open spec fn inputs_match(funds: Seq<Funds>, selected: Seq<usize>, inputs: Seq<FundingInput>) -> bool {
    &&& inputs.len() == selected.len()
    &&& forall|p: int| 0 <= p < inputs.len() ==> {
        &&& inputs[p].outpoint == funds[selected[p] as int].outpoint
        &&& inputs[p].terminal@ == funds[selected[p] as int].terminal@
    }
}

/// Copies a derivation path.
fn copy_path(b: &Vec<u32>) -> (r: Vec<u32>)
    ensures
        r@ == b@,
{
    let mut out: Vec<u32> = Vec::new();
    let mut i: usize = 0;
    while i < b.len()
        invariant
            i <= b.len(),
            out@ == b@.take(i as int),
        decreases b.len() - i,
    {
        out.push(b[i]);
        i = i + 1;
        proof {
            assert(out@ =~= b@.take(i as int));
        }
    }
    proof {
        assert(b@.take(b.len() as int) =~= b@);
    }
    out
}

/// Coin selection and change index of a funding transaction paying `amount`
/// with `fee` from the wallet's `funds`, whose last change index is
/// `last_change_index`: the change output takes that index, and the wallet
/// moves on to the next one.
pub fn plan_funding(funds: &Vec<Funds>, amount: u64, fee: u64, last_change_index: u32) -> (r: Result<FundingPlan, FundingError>)
    requires
        amount + fee <= u64::MAX,
    ensures
        r is Ok <==> (has_single(amounts_of(funds@), amount + fee) || total(amounts_of(funds@)) >= amount + fee),
        r is Err ==> r == Err::<FundingPlan, FundingError>(FundingError::InsufficientFunds),
        r matches Ok(plan) ==> {
            &&& selection_ok(amounts_of(funds@), amount, fee, Ok(plan.selected))
            &&& sum_idx(amounts_of(funds@), plan.selected@) >= amount + fee
            &&& inputs_match(funds@, plan.selected@, plan.inputs@)
            &&& plan.change_index == last_change_index
            &&& plan.next_change_index == next_index(last_change_index)
        },
{
    let mut amounts: Vec<u64> = Vec::new();
    let mut i: usize = 0;
    while i < funds.len()
        invariant
            i <= funds.len(),
            amounts@ == amounts_of(funds@).take(i as int),
        decreases funds.len() - i,
    {
        amounts.push(funds[i].amount);
        i = i + 1;
        proof {
            assert(amounts@ =~= amounts_of(funds@).take(i as int));
        }
    }
    proof {
        assert(amounts@ =~= amounts_of(funds@));
    }
    let selected = select_funds(&amounts, amount, fee);
    proof {
        law_selection_exists(amounts@, amount, fee, selected);
    }
    let selected = match selected {
        Ok(v) => v,
        Err(e) => return Err(e),
    };
    proof {
        law_selection_covers(amounts@, amount, fee, selected);
    }
    let mut inputs: Vec<FundingInput> = Vec::new();
    let mut p: usize = 0;
    while p < selected.len()
        invariant
            p <= selected.len(),
            amounts@ == amounts_of(funds@),
            selection_ok(amounts@, amount, fee, Ok(selected)),
            inputs@.len() == p,
            forall|q: int| 0 <= q < p ==> {
                &&& inputs@[q].outpoint == funds@[selected@[q] as int].outpoint
                &&& inputs@[q].terminal@ == funds@[selected@[q] as int].terminal@
            },
        decreases selected.len() - p,
    {
        let idx = selected[p];
        proof {
            if has_single(amounts@, amount + fee) {
                assert(p == 0);
            }
        }
        let f = &funds[idx];
        let terminal = copy_path(&f.terminal);
        inputs.push(FundingInput { outpoint: f.outpoint, terminal });
        p = p + 1;
    }
    let next = next_derivation_index(last_change_index);
    Ok(FundingPlan { selected, inputs, change_index: last_change_index, next_change_index: next })
}


/// All outputs spent by pending fundings, in order.
pub open spec fn flatten_outpoints(pending: Seq<Vec<OutPoint>>) -> Seq<OutPoint>
    decreases pending.len(),
{
    if pending.len() == 0 {
        Seq::empty()
    } else {
        flatten_outpoints(pending.drop_last()) + pending.last()@
    }
}

/// Some pending funding spends the output.
pub open spec fn spent_by_some(pending: Seq<Vec<OutPoint>>, o: OutPoint) -> bool {
    exists|i: int| 0 <= i < pending.len() && (#[trigger] pending[i])@.contains(o)
}

/// The outputs all pending fundings spend together hold an output exactly
/// when some pending funding spends it: none is dropped, none is added.
pub proof fn law_used_outputs_of_every_pending(pending: Seq<Vec<OutPoint>>)
    ensures
        forall|o: OutPoint| #[trigger] flatten_outpoints(pending).contains(o) <==> spent_by_some(pending, o),
    decreases pending.len(),
{
    if pending.len() > 0 {
        let init = pending.drop_last();
        law_used_outputs_of_every_pending(init);
        let last = pending.last()@;
        assert forall|o: OutPoint| #[trigger] flatten_outpoints(pending).contains(o) <==> spent_by_some(pending, o) by {
            let f = flatten_outpoints(init) + last;
            assert(flatten_outpoints(pending) == f);
            if f.contains(o) {
                let w = choose|w: int| 0 <= w < f.len() && f[w] == o;
                if w < flatten_outpoints(init).len() {
                    assert(flatten_outpoints(init)[w] == o);
                    assert(flatten_outpoints(init).contains(o));
                    let i = choose|i: int| 0 <= i < init.len() && (#[trigger] init[i])@.contains(o);
                    assert(pending[i] == init[i]);
                } else {
                    assert(last[w - flatten_outpoints(init).len()] == o);
                    assert(last.contains(o));
                    assert(pending[pending.len() - 1]@.contains(o));
                }
            }
            if spent_by_some(pending, o) {
                let i = choose|i: int| 0 <= i < pending.len() && (#[trigger] pending[i])@.contains(o);
                if i < pending.len() - 1 {
                    assert(init[i] == pending[i]);
                    assert(spent_by_some(init, o));
                    assert(flatten_outpoints(init).contains(o));
                    let w = choose|w: int| 0 <= w < flatten_outpoints(init).len() && flatten_outpoints(init)[w] == o;
                    assert(f[w] == o);
                } else {
                    let w = choose|w: int| 0 <= w < last.len() && last[w] == o;
                    assert(f[flatten_outpoints(init).len() + w] == o);
                }
            }
        }
    } else {
        assert forall|o: OutPoint| #[trigger] flatten_outpoints(pending).contains(o) <==> spent_by_some(pending, o) by {
            assert(flatten_outpoints(pending).len() == 0);
        }
    }
}

/// The outputs that pending fundings already spend, given the outputs each
/// of them spends.
pub fn used_outpoints(pending: &Vec<Vec<OutPoint>>) -> (r: Vec<OutPoint>)
    ensures
        r@ == flatten_outpoints(pending@),
        forall|o: OutPoint| r@.contains(o) <==> exists|i: int| 0 <= i < pending@.len() && (#[trigger] pending@[i])@.contains(o),
{
    proof {
        law_used_outputs_of_every_pending(pending@);
    }
    let mut out: Vec<OutPoint> = Vec::new();
    let mut i: usize = 0;
    while i < pending.len()
        invariant
            i <= pending.len(),
            out@ == flatten_outpoints(pending@.take(i as int)),
        decreases pending.len() - i,
    {
        let ghost before = out@;
        let spent = &pending[i];
        let mut k: usize = 0;
        while k < spent.len()
            invariant
                k <= spent.len(),
                i < pending.len(),
                spent == &pending@[i as int],
                out@ == before + spent@.take(k as int),
            decreases spent.len() - k,
        {
            out.push(spent[k]);
            k = k + 1;
            proof {
                assert(out@ =~= before + spent@.take(k as int));
            }
        }
        proof {
            assert(spent@.take(k as int) =~= spent@);
            assert(pending@.take(i as int + 1).drop_last() =~= pending@.take(i as int));
        }
        i = i + 1;
    }
    proof {
        assert(pending@.take(i as int) =~= pending@);
    }
    out
}

/// The funds of the wallet: those found for normal addresses, then those for
/// change addresses, with the last used normal and change indexes advanced.
pub struct WalletFunds {
    pub funds: Vec<Funds>,
    pub last_normal_index: u32,
    pub last_change_index: u32,
}

/// Collects the wallet's funds from the scripts scanned for normal
/// (derivation case 0) and change (case 1) addresses, skipping the outputs
/// that pending fundings spend.
pub fn wallet_funds(
    normal: &Vec<ScriptUtxos>,
    change: &Vec<ScriptUtxos>,
    pending: &Vec<Vec<OutPoint>>,
    last_normal_index: u32,
    last_change_index: u32,
) -> (r: WalletFunds)
    ensures
        r.funds@.map_values(|f: Funds| f@) == collected(0, normal@, flatten_outpoints(pending@))
            + collected(1, change@, flatten_outpoints(pending@)),
        r.last_normal_index == advanced(last_normal_index, normal@, flatten_outpoints(pending@)),
        r.last_change_index == advanced(last_change_index, change@, flatten_outpoints(pending@)),
        forall|k: int| 0 <= k < r.funds@.len() ==> !spent_by_some(pending@, #[trigger] r.funds@[k].outpoint),
{
    let used = used_outpoints(pending);
    let mut last_normal = last_normal_index;
    let mut last_change = last_change_index;
    let mut funds = collect_funds(0, normal, &used, &mut last_normal);
    let mut more = collect_funds(1, change, &used, &mut last_change);
    let ghost a = funds@;
    let ghost b = more@;
    funds.append(&mut more);
    proof {
        assert(funds@ == a + b);
        assert((a + b).map_values(|f: Funds| f@) =~= a.map_values(|f: Funds| f@) + b.map_values(|f: Funds| f@));
        let ca = collected(0, normal@, used@);
        let cb = collected(1, change@, used@);
        assert forall|k: int| 0 <= k < funds@.len() implies !spent_by_some(pending@, #[trigger] funds@[k].outpoint) by {
            assert(funds@.map_values(|f: Funds| f@)[k] == funds@[k]@);
            assert(funds@.map_values(|f: Funds| f@) == ca + cb);
            if k < ca.len() {
                assert((ca + cb)[k] == ca[k]);
                lemma_collected_unused(0, normal@, used@, k);
            } else {
                assert((ca + cb)[k] == cb[k - ca.len()]);
                lemma_collected_unused(1, change@, used@, k - ca.len());
            }
            assert(!used@.contains(funds@[k].outpoint));
        }
    }
    WalletFunds { funds, last_normal_index: last_normal, last_change_index: last_change }
}


/// Funding already used by a channel pending negotiation or signature: the
/// provisional channel, the funding transaction id, the outputs it spends and
/// the partially signed transaction `P`.
#[derive(Clone, PartialEq, Eq, Debug)]
pub struct PendingFunding<P> {
    pub temp_channel_id: [u8; 32],
    pub funding_txid: [u8; 32],
    pub prev_outpoints: Vec<OutPoint>,
    pub psbt: P,
}

/// A pending funding as specified.
pub struct PendingView<P> {
    pub temp_channel_id: [u8; 32],
    pub prev_outpoints: Seq<OutPoint>,
    pub psbt: P,
}

/// The view of a pending funding.
pub open spec fn pending_view<P>(f: PendingFunding<P>) -> PendingView<P> {
    PendingView { temp_channel_id: f.temp_channel_id, prev_outpoints: f.prev_outpoints@, psbt: f.psbt }
}

/// The pending fundings of a list, by funding transaction id; a later entry
/// for an id replaces an earlier one.
pub open spec fn pending_map<P>(s: Seq<PendingFunding<P>>) -> Map<[u8; 32], PendingView<P>>
    decreases s.len(),
{
    if s.len() == 0 {
        Map::empty()
    } else {
        pending_map(s.drop_last()).insert(s.last().funding_txid, pending_view(s.last()))
    }
}

/// No two entries of the list fund the same transaction.
pub open spec fn distinct_txids<P>(s: Seq<PendingFunding<P>>) -> bool {
    forall|i: int, j: int| 0 <= i < j < s.len() ==> s[i].funding_txid != s[j].funding_txid
}

/// The pending fundings of the wallet, by funding transaction id.
#[derive(Clone, PartialEq, Eq, Debug)]
pub struct PendingFundings<P> {
    entries: Vec<PendingFunding<P>>,
}

impl<P> View for PendingFundings<P> {
    type V = Map<[u8; 32], PendingView<P>>;

    closed spec fn view(&self) -> Map<[u8; 32], PendingView<P>> {
        pending_map(self.entries@)
    }
}

/// The map of a list holds exactly the ids of its entries.
proof fn lemma_pending_map_dom<P>(s: Seq<PendingFunding<P>>, t: [u8; 32])
    ensures
        pending_map(s).dom().contains(t) <==> exists|i: int| 0 <= i < s.len() && s[i].funding_txid == t,
    decreases s.len(),
{
    if s.len() > 0 {
        lemma_pending_map_dom(s.drop_last(), t);
        if pending_map(s).dom().contains(t) && t != s.last().funding_txid {
            let i = choose|i: int| 0 <= i < s.drop_last().len() && s.drop_last()[i].funding_txid == t;
            assert(s[i].funding_txid == t);
        }
        if exists|i: int| 0 <= i < s.len() && s[i].funding_txid == t {
            let i = choose|i: int| 0 <= i < s.len() && s[i].funding_txid == t;
            if i < s.len() - 1 {
                assert(s.drop_last()[i].funding_txid == t);
            }
        }
    }
}

/// With distinct ids, the map gives each entry under its id.
proof fn lemma_pending_map_at<P>(s: Seq<PendingFunding<P>>, i: int)
    requires
        distinct_txids(s),
        0 <= i < s.len(),
    ensures
        pending_map(s).dom().contains(s[i].funding_txid),
        pending_map(s)[s[i].funding_txid] == pending_view(s[i]),
    decreases s.len(),
{
    if i < s.len() - 1 {
        lemma_pending_map_at(s.drop_last(), i);
        assert(s.drop_last()[i] == s[i]);
        assert(s[i].funding_txid != s.last().funding_txid);
    }
}

/// Replacing the entry of an id keeps the map of the other ids.
proof fn lemma_pending_map_update<P>(s: Seq<PendingFunding<P>>, i: int, f: PendingFunding<P>)
    requires
        distinct_txids(s),
        0 <= i < s.len(),
        f.funding_txid == s[i].funding_txid,
    ensures
        pending_map(s.update(i, f)) == pending_map(s).insert(f.funding_txid, pending_view(f)),
    decreases s.len(),
{
    let u = s.update(i, f);
    if i == s.len() - 1 {
        assert(u.drop_last() =~= s.drop_last());
        assert(pending_map(u) =~= pending_map(s).insert(f.funding_txid, pending_view(f)));
    } else {
        assert(u.drop_last() =~= s.drop_last().update(i, f));
        assert(distinct_txids(s.drop_last()));
        lemma_pending_map_update(s.drop_last(), i, f);
        assert(s.last().funding_txid != f.funding_txid);
        assert(pending_map(u) =~= pending_map(s).insert(f.funding_txid, pending_view(f)));
    }
}

impl<P> PendingFundings<P> {
    /// Entries fund distinct transactions.
    pub closed spec fn wf(&self) -> bool {
        distinct_txids(self.entries@)
    }

    /// No pending funding.
    pub fn new() -> (r: PendingFundings<P>)
        ensures
            r.wf(),
            r@ == Map::<[u8; 32], PendingView<P>>::empty(),
    {
        PendingFundings { entries: Vec::new() }
    }

    /// Records a pending funding under its transaction id, replacing the one
    /// recorded under the same id.
    pub fn insert(&mut self, funding: PendingFunding<P>)
        requires
            old(self).wf(),
        ensures
            final(self).wf(),
            final(self)@ == old(self)@.insert(funding.funding_txid, pending_view(funding)),
    {
        let mut i: usize = 0;
        while i < self.entries.len()
            invariant
                i <= self.entries.len(),
                self.entries@ == old(self).entries@,
                distinct_txids(self.entries@),
                forall|j: int| 0 <= j < i ==> self.entries@[j].funding_txid != funding.funding_txid,
            decreases self.entries.len() - i,
        {
            if same_bytes32(&self.entries[i].funding_txid, &funding.funding_txid) {
                let ghost s = self.entries@;
                proof {
                    lemma_pending_map_update(s, i as int, funding);
                }
                self.entries.set(i, funding);
                proof {
                    assert(self.entries@ == s.update(i as int, funding));
                    assert forall|a: int, b: int| 0 <= a < b < self.entries@.len() implies
                        self.entries@[a].funding_txid != self.entries@[b].funding_txid by {
                        assert(s[a].funding_txid != s[b].funding_txid);
                    }
                }
                return;
            }
            i = i + 1;
        }
        let ghost s = self.entries@;
        self.entries.push(funding);
        proof {
            assert(self.entries@.drop_last() =~= s);
        }
    }

    /// The partially signed transaction of the pending funding with the given
    /// transaction id.
    pub fn get_funding_psbt(&self, txid: &[u8; 32]) -> (r: Option<&P>)
        requires
            self.wf(),
        ensures
            self@.dom().contains(*txid) ==> r == Some(&self@[*txid].psbt),
            !self@.dom().contains(*txid) ==> r is None,
    {
        let mut i: usize = 0;
        while i < self.entries.len()
            invariant
                i <= self.entries.len(),
                distinct_txids(self.entries@),
                forall|j: int| 0 <= j < i ==> self.entries@[j].funding_txid != *txid,
            decreases self.entries.len() - i,
        {
            if same_bytes32(&self.entries[i].funding_txid, txid) {
                proof {
                    lemma_pending_map_at(self.entries@, i as int);
                }
                return Some(&self.entries[i].psbt);
            }
            i = i + 1;
        }
        proof {
            lemma_pending_map_dom(self.entries@, *txid);
        }
        None
    }
}

/// Reading back a pending funding gives the one last recorded under its
/// transaction id; the others stay as they were.
pub proof fn law_pending_read_after_write<P>(m: Map<[u8; 32], PendingView<P>>, f: PendingFunding<P>, other: [u8; 32])
    requires
        other != f.funding_txid,
    ensures
        m.insert(f.funding_txid, pending_view(f)).dom().contains(f.funding_txid),
        m.insert(f.funding_txid, pending_view(f))[f.funding_txid].psbt == f.psbt,
        m.insert(f.funding_txid, pending_view(f)).dom().contains(other) == m.dom().contains(other),
        m.dom().contains(other) ==> m.insert(f.funding_txid, pending_view(f))[other] == m[other],
{
}


/// No spendable output is one that a pending funding spends.
proof fn lemma_spendable_unused(utxos: Seq<Utxo>, used: Seq<OutPoint>, k: int)
    requires
        0 <= k < spendable(utxos, used).len(),
    ensures
        !used.contains(spendable(utxos, used)[k].outpoint),
    decreases utxos.len(),
{
    let rest = spendable(utxos.drop_last(), used);
    if k < rest.len() {
        lemma_spendable_unused(utxos.drop_last(), used, k);
    }
}

/// The fund that an output of a script offers.
pub open spec fn fund_of(case: u32, e: ScriptUtxos, u: Utxo) -> FundsView {
    FundsView { outpoint: u.outpoint, terminal: seq![case, e.index], script_pubkey: e.script_pubkey@, amount: u.amount }
}

/// Every output of the list that no pending funding uses is spendable, and
/// every spendable output is one of the list that none uses.
proof fn lemma_spendable_members(utxos: Seq<Utxo>, used: Seq<OutPoint>)
    ensures
        forall|j: int| 0 <= j < utxos.len() && !used.contains(#[trigger] utxos[j].outpoint)
            ==> spendable(utxos, used).contains(utxos[j]),
        forall|i: int| #![trigger spendable(utxos, used)[i]] 0 <= i < spendable(utxos, used).len() ==> exists|j: int|
            0 <= j < utxos.len() && #[trigger] utxos[j] == spendable(utxos, used)[i] && !used.contains(utxos[j].outpoint),
    decreases utxos.len(),
{
    if utxos.len() > 0 {
        let init = utxos.drop_last();
        lemma_spendable_members(init, used);
        let rest = spendable(init, used);
        let sp = spendable(utxos, used);
        assert forall|j: int| 0 <= j < utxos.len() && !used.contains(#[trigger] utxos[j].outpoint)
            implies sp.contains(utxos[j]) by {
            if j < utxos.len() - 1 {
                assert(init[j] == utxos[j]);
                assert(rest.contains(init[j]));
                let w = choose|w: int| 0 <= w < rest.len() && rest[w] == init[j];
                assert(sp[w] == rest[w]);
            } else {
                assert(sp[sp.len() - 1] == utxos.last());
            }
        }
        assert forall|i: int| #![trigger sp[i]] 0 <= i < sp.len() implies exists|j: int|
            0 <= j < utxos.len() && #[trigger] utxos[j] == sp[i] && !used.contains(utxos[j].outpoint) by {
            if i < rest.len() {
                assert(sp[i] == rest[i]);
                let j = choose|j: int| 0 <= j < init.len() && #[trigger] init[j] == rest[i] && !used.contains(init[j].outpoint);
                assert(utxos[j] == init[j]);
            } else {
                assert(utxos[utxos.len() - 1] == sp[i]);
            }
        }
    }
}

/// The wallet offers exactly the outputs of its scripts that no pending
/// funding spends: each such output is offered as a fund with its amount,
/// the script it pays to and the derivation path `[case, index]` of that
/// script; and every fund offered is such an output.
pub proof fn law_collected_offers_every_unused_output(case: u32, es: Seq<ScriptUtxos>, used: Seq<OutPoint>)
    ensures
        forall|k: int, j: int| 0 <= k < es.len() && 0 <= j < es[k].utxos@.len()
            && !used.contains(#[trigger] es[k].utxos@[j].outpoint)
            ==> collected(case, es, used).contains(fund_of(case, es[k], es[k].utxos@[j])),
        forall|i: int| #![trigger collected(case, es, used)[i]] 0 <= i < collected(case, es, used).len() ==> exists|k: int, j: int|
            0 <= k < es.len() && 0 <= j < es[k].utxos@.len() && !used.contains(es[k].utxos@[j].outpoint)
                && collected(case, es, used)[i] == #[trigger] fund_of(case, es[k], es[k].utxos@[j]),
    decreases es.len(),
{
    if es.len() > 0 {
        let init = es.drop_last();
        let e = es.last();
        law_collected_offers_every_unused_output(case, init, used);
        lemma_spendable_members(e.utxos@, used);
        let before = collected(case, init, used);
        let sp = spendable(e.utxos@, used);
        let mine = script_funds(case, e.index, e.script_pubkey@, e.utxos@, used);
        let all = collected(case, es, used);
        assert(all == before + mine);
        assert forall|k: int, j: int| 0 <= k < es.len() && 0 <= j < es[k].utxos@.len()
            && !used.contains(#[trigger] es[k].utxos@[j].outpoint)
            implies all.contains(fund_of(case, es[k], es[k].utxos@[j])) by {
            if k < es.len() - 1 {
                assert(init[k] == es[k]);
                assert(init[k].utxos@[j] == es[k].utxos@[j]);
                assert(before.contains(fund_of(case, init[k], init[k].utxos@[j])));
                let w = choose|w: int| 0 <= w < before.len() && before[w] == fund_of(case, init[k], init[k].utxos@[j]);
                assert(all[w] == before[w]);
            } else {
                let u = e.utxos@[j];
                assert(sp.contains(u));
                let w = choose|w: int| 0 <= w < sp.len() && sp[w] == u;
                assert(mine[w] == fund_of(case, e, u));
                assert(all[before.len() + w] == mine[w]);
            }
        }
        assert forall|i: int| #![trigger all[i]] 0 <= i < all.len() implies exists|k: int, j: int|
            0 <= k < es.len() && 0 <= j < es[k].utxos@.len() && !used.contains(es[k].utxos@[j].outpoint)
                && all[i] == #[trigger] fund_of(case, es[k], es[k].utxos@[j]) by {
            if i < before.len() {
                assert(all[i] == before[i]);
                let (k, j) = choose|k: int, j: int| 0 <= k < init.len() && 0 <= j < init[k].utxos@.len()
                    && !used.contains(init[k].utxos@[j].outpoint)
                    && before[i] == #[trigger] fund_of(case, init[k], init[k].utxos@[j]);
                assert(es[k] == init[k]);
            } else {
                let q = i - before.len();
                assert(all[i] == mine[q]);
                assert(mine[q] == fund_of(case, e, sp[q]));
                let j = choose|j: int| 0 <= j < e.utxos@.len() && #[trigger] e.utxos@[j] == sp[q] && !used.contains(e.utxos@[j].outpoint);
                assert(es[es.len() - 1] == e);
            }
        }
    }
}

/// No collected fund is one that a pending funding spends.
proof fn lemma_collected_unused(case: u32, es: Seq<ScriptUtxos>, used: Seq<OutPoint>, i: int)
    requires
        0 <= i < collected(case, es, used).len(),
    ensures
        !used.contains(collected(case, es, used)[i].outpoint),
    decreases es.len(),
{
    let before = collected(case, es.drop_last(), used);
    if i < before.len() {
        lemma_collected_unused(case, es.drop_last(), used, i);
    } else {
        let e = es.last();
        lemma_spendable_unused(e.utxos@, used, i - before.len());
    }
}

/// A new funding spends no output that a pending funding spends: the funds
/// collected leave those outputs out, and the inputs of a funding planned
/// from such funds are among them.
pub proof fn law_new_funding_spends_unused(
    case: u32,
    es: Seq<ScriptUtxos>,
    used: Seq<OutPoint>,
    funds: Seq<Funds>,
    selected: Seq<usize>,
    inputs: Seq<FundingInput>,
)
    requires
        funds.map_values(|f: Funds| f@) == collected(case, es, used),
        forall|p: int| 0 <= p < selected.len() ==> selected[p] < funds.len(),
        inputs_match(funds, selected, inputs),
    ensures
        forall|i: int| 0 <= i < collected(case, es, used).len() ==> !used.contains(#[trigger] collected(case, es, used)[i].outpoint),
        forall|p: int| 0 <= p < inputs.len() ==> !used.contains(#[trigger] inputs[p].outpoint),
{
    assert forall|i: int| 0 <= i < collected(case, es, used).len() implies !used.contains(#[trigger] collected(case, es, used)[i].outpoint) by {
        lemma_collected_unused(case, es, used, i);
    }
    assert forall|p: int| 0 <= p < inputs.len() implies !used.contains(#[trigger] inputs[p].outpoint) by {
        let q = selected[p] as int;
        assert(funds.map_values(|f: Funds| f@)[q] == funds[q]@);
        lemma_collected_unused(case, es, used, q);
    }
}


/// Whether a pending funding of the map spends the output.
pub open spec fn spent_by<P>(m: Map<[u8; 32], PendingView<P>>, o: OutPoint) -> bool {
    exists|t: [u8; 32]| m.dom().contains(t) && #[trigger] m[t].prev_outpoints.contains(o)
}

/// No output is spent by two pending fundings.
pub open spec fn disjoint_fundings<P>(m: Map<[u8; 32], PendingView<P>>) -> bool {
    forall|t: [u8; 32], u: [u8; 32], o: OutPoint|
        m.dom().contains(t) && m.dom().contains(u) && t != u && #[trigger] m[t].prev_outpoints.contains(o)
            ==> !#[trigger] m[u].prev_outpoints.contains(o)
}

/// The outputs a funding made from the inputs spends.
pub open spec fn input_outpoints(inputs: Seq<FundingInput>) -> Seq<OutPoint> {
    inputs.map_values(|i: FundingInput| i.outpoint)
}

impl<P> PendingFundings<P> {
    /// Every output that a pending funding spends, each entry's in turn.
    pub fn spent_outpoints(&self) -> (r: Vec<OutPoint>)
        requires
            self.wf(),
        ensures
            forall|o: OutPoint| r@.contains(o) <==> spent_by(self@, o),
    {
        let mut out: Vec<OutPoint> = Vec::new();
        let mut i: usize = 0;
        while i < self.entries.len()
            invariant
                i <= self.entries.len(),
                forall|o: OutPoint| out@.contains(o) <==> exists|j: int|
                    0 <= j < i && #[trigger] self.entries@[j].prev_outpoints@.contains(o),
            decreases self.entries.len() - i,
        {
            let ghost before = out@;
            let spent = &self.entries[i].prev_outpoints;
            let mut k: usize = 0;
            while k < spent.len()
                invariant
                    k <= spent.len(),
                    i < self.entries.len(),
                    spent == &self.entries@[i as int].prev_outpoints,
                    out@ == before + spent@.take(k as int),
                decreases spent.len() - k,
            {
                out.push(spent[k]);
                k = k + 1;
                proof {
                    assert(out@ =~= before + spent@.take(k as int));
                }
            }
            proof {
                assert(spent@.take(k as int) =~= spent@);
                assert forall|o: OutPoint| out@.contains(o) <==> exists|j: int|
                    0 <= j < i + 1 && #[trigger] self.entries@[j].prev_outpoints@.contains(o) by {
                    if out@.contains(o) {
                        let w = choose|w: int| 0 <= w < out@.len() && out@[w] == o;
                        if w < before.len() {
                            assert(before[w] == o);
                            assert(before.contains(o));
                        } else {
                            assert(spent@[w - before.len()] == o);
                            assert(self.entries@[i as int].prev_outpoints@.contains(o));
                        }
                    }
                    if exists|j: int| 0 <= j < i + 1 && #[trigger] self.entries@[j].prev_outpoints@.contains(o) {
                        let j = choose|j: int| 0 <= j < i + 1 && #[trigger] self.entries@[j].prev_outpoints@.contains(o);
                        if j < i {
                            assert(before.contains(o));
                            let w = choose|w: int| 0 <= w < before.len() && before[w] == o;
                            assert(out@[w] == o);
                        } else {
                            let w = choose|w: int| 0 <= w < spent@.len() && spent@[w] == o;
                            assert(out@[before.len() + w] == o);
                        }
                    }
                }
            }
            i = i + 1;
        }
        proof {
            assert forall|o: OutPoint| out@.contains(o) <==> spent_by(self@, o) by {
                if out@.contains(o) {
                    let j = choose|j: int| 0 <= j < self.entries@.len() && #[trigger] self.entries@[j].prev_outpoints@.contains(o);
                    lemma_pending_map_at(self.entries@, j);
                    let t = self.entries@[j].funding_txid;
                    assert(self@[t].prev_outpoints.contains(o));
                }
                if spent_by(self@, o) {
                    let t = choose|t: [u8; 32]| self@.dom().contains(t) && #[trigger] self@[t].prev_outpoints.contains(o);
                    lemma_pending_map_dom(self.entries@, t);
                    let j = choose|j: int| 0 <= j < self.entries@.len() && self.entries@[j].funding_txid == t;
                    lemma_pending_map_at(self.entries@, j);
                    assert(self.entries@[j].prev_outpoints@.contains(o));
                }
            }
        }
        out
    }

    /// Records the funding planned by `plan` as pending under its
    /// transaction id: it spends the plan's inputs.
    pub fn record(&mut self, temp_channel_id: [u8; 32], funding_txid: [u8; 32], plan: &FundingPlan, psbt: P)
        requires
            old(self).wf(),
        ensures
            final(self).wf(),
            final(self)@ == old(self)@.insert(
                funding_txid,
                PendingView { temp_channel_id, prev_outpoints: input_outpoints(plan.inputs@), psbt },
            ),
    {
        let mut prev: Vec<OutPoint> = Vec::new();
        let mut i: usize = 0;
        while i < plan.inputs.len()
            invariant
                i <= plan.inputs.len(),
                prev@ == input_outpoints(plan.inputs@).take(i as int),
            decreases plan.inputs.len() - i,
        {
            prev.push(plan.inputs[i].outpoint);
            i = i + 1;
            proof {
                assert(prev@ =~= input_outpoints(plan.inputs@).take(i as int));
            }
        }
        proof {
            assert(prev@ =~= input_outpoints(plan.inputs@));
        }
        self.insert(PendingFunding { temp_channel_id, funding_txid, prev_outpoints: prev, psbt });
    }
}

/// Pending fundings stay disjoint: a funding planned from funds collected
/// with the outputs that pending fundings spend left out, and recorded under
/// its transaction id, spends no output that another pending funding spends.
pub proof fn law_pending_fundings_stay_disjoint<P>(
    m: Map<[u8; 32], PendingView<P>>,
    case: u32,
    es: Seq<ScriptUtxos>,
    used: Seq<OutPoint>,
    funds: Seq<Funds>,
    selected: Seq<usize>,
    inputs: Seq<FundingInput>,
    txid: [u8; 32],
    temp_channel_id: [u8; 32],
    psbt: P,
)
    requires
        disjoint_fundings(m),
        forall|o: OutPoint| used.contains(o) <==> spent_by(m, o),
        funds.map_values(|f: Funds| f@) == collected(case, es, used),
        forall|p: int| 0 <= p < selected.len() ==> selected[p] < funds.len(),
        inputs_match(funds, selected, inputs),
    ensures
        disjoint_fundings(m.insert(txid, PendingView { temp_channel_id, prev_outpoints: input_outpoints(inputs), psbt })),
{
    law_new_funding_spends_unused(case, es, used, funds, selected, inputs);
    let n = m.insert(txid, PendingView { temp_channel_id, prev_outpoints: input_outpoints(inputs), psbt });
    assert forall|o: OutPoint| input_outpoints(inputs).contains(o) implies !spent_by(m, o) by {
        let w = choose|w: int| 0 <= w < input_outpoints(inputs).len() && input_outpoints(inputs)[w] == o;
        assert(inputs[w].outpoint == o);
        assert(!used.contains(inputs[w].outpoint));
    }
    assert forall|t: [u8; 32], u: [u8; 32], o: OutPoint|
        n.dom().contains(t) && n.dom().contains(u) && t != u && #[trigger] n[t].prev_outpoints.contains(o)
        implies !#[trigger] n[u].prev_outpoints.contains(o) by {
        if t == txid {
            if n[u].prev_outpoints.contains(o) {
                assert(m[u].prev_outpoints.contains(o));
                assert(spent_by(m, o));
            }
        } else if u == txid {
            assert(m[t].prev_outpoints.contains(o));
            assert(spent_by(m, o));
        } else {
            assert(m[t].prev_outpoints.contains(o));
        }
    }
}


/// Pending fundings stay disjoint across the wallet: a funding planned from
/// the wallet's funds (those of its normal scripts, then those of its change
/// scripts, collected with the outputs that pending fundings spend left
/// out) and recorded under its transaction id spends no output that another
/// pending funding spends.
pub proof fn law_wallet_fundings_stay_disjoint<P>(
    m: Map<[u8; 32], PendingView<P>>,
    normal: Seq<ScriptUtxos>,
    change: Seq<ScriptUtxos>,
    used: Seq<OutPoint>,
    funds: Seq<Funds>,
    selected: Seq<usize>,
    inputs: Seq<FundingInput>,
    txid: [u8; 32],
    temp_channel_id: [u8; 32],
    psbt: P,
)
    requires
        disjoint_fundings(m),
        forall|o: OutPoint| used.contains(o) <==> spent_by(m, o),
        funds.map_values(|f: Funds| f@) == collected(0, normal, used) + collected(1, change, used),
        forall|p: int| 0 <= p < selected.len() ==> selected[p] < funds.len(),
        inputs_match(funds, selected, inputs),
    ensures
        disjoint_fundings(m.insert(txid, PendingView { temp_channel_id, prev_outpoints: input_outpoints(inputs), psbt })),
{
    let a = collected(0, normal, used);
    let b = collected(1, change, used);
    assert forall|p: int| 0 <= p < inputs.len() implies !used.contains(#[trigger] inputs[p].outpoint) by {
        let q = selected[p] as int;
        assert(funds.map_values(|f: Funds| f@).len() == funds.len());
        assert(q < (a + b).len());
        assert(funds.map_values(|f: Funds| f@)[q] == funds[q]@);
        if q < a.len() {
            assert((a + b)[q] == a[q]);
            lemma_collected_unused(0, normal, used, q);
        } else {
            assert((a + b)[q] == b[q - a.len()]);
            lemma_collected_unused(1, change, used, q - a.len());
        }
    }
    let n = m.insert(txid, PendingView { temp_channel_id, prev_outpoints: input_outpoints(inputs), psbt });
    assert forall|o: OutPoint| input_outpoints(inputs).contains(o) implies !spent_by(m, o) by {
        let w = choose|w: int| 0 <= w < input_outpoints(inputs).len() && input_outpoints(inputs)[w] == o;
        assert(inputs[w].outpoint == o);
        assert(!used.contains(inputs[w].outpoint));
    }
    assert forall|t: [u8; 32], u: [u8; 32], o: OutPoint|
        n.dom().contains(t) && n.dom().contains(u) && t != u && #[trigger] n[t].prev_outpoints.contains(o)
        implies !#[trigger] n[u].prev_outpoints.contains(o) by {
        if t == txid {
            if n[u].prev_outpoints.contains(o) {
                assert(m[u].prev_outpoints.contains(o));
                assert(spent_by(m, o));
            }
        } else if u == txid {
            assert(m[t].prev_outpoints.contains(o));
            assert(spent_by(m, o));
        } else {
            assert(m[t].prev_outpoints.contains(o));
        }
    }
}

/// The scan of the wallet's scripts never moves the last derivation index
/// back, and leaves it past every index that still has spendable outputs,
/// as long as no such index is the last unhardened one (whose successor
/// wraps to the first).
pub proof fn law_scan_index_grows(last: u32, es: Seq<ScriptUtxos>, used: Seq<OutPoint>)
    requires
        forall|k: int| 0 <= k < es.len() ==> (#[trigger] es[k]).index + 1 < index_bound(),
    ensures
        advanced(last, es, used) >= last,
        forall|k: int| 0 <= k < es.len() && spendable(es[k].utxos@, used).len() > 0
            ==> advanced(last, es, used) > (#[trigger] es[k]).index,
    decreases es.len(),
{
    if es.len() > 0 {
        let init = es.drop_last();
        assert forall|k: int| 0 <= k < init.len() implies (#[trigger] init[k]).index + 1 < index_bound() by {
            assert(init[k] == es[k]);
        }
        law_scan_index_grows(last, init, used);
        assert(es.last() == es[es.len() - 1]);
        assert forall|k: int| 0 <= k < es.len() && spendable(es[k].utxos@, used).len() > 0
            implies advanced(last, es, used) > (#[trigger] es[k]).index by {
            if k < es.len() - 1 {
                assert(init[k] == es[k]);
            }
        }
    }
}

/// Bitcoin networks.
#[derive(Copy, Clone, PartialEq, Eq, Structural, Debug, Hash)]
pub enum Network {
    Bitcoin,
    Testnet,
    Signet,
    Regtest,
}

/// The bitcoin network of a chain; the other chains have none.
pub open spec fn chain_network(chain: Chain) -> Option<Network> {
    match chain {
        Chain::Mainnet => Some(Network::Bitcoin),
        Chain::Testnet3 => Some(Network::Testnet),
        Chain::Signet => Some(Network::Signet),
        Chain::Regtest => Some(Network::Regtest),
        _ => None,
    }
}

/// The bitcoin network of a chain, or `ChainNotSupported` for a chain that
/// has none.
pub fn network_of(chain: &Chain) -> (r: Result<Network, FundingError>)
    ensures
        match chain_network(*chain) {
            Some(n) => r == Ok::<Network, FundingError>(n),
            None => r == Err::<Network, FundingError>(FundingError::ChainNotSupported),
        },
{
    match chain {
        Chain::Mainnet => Ok(Network::Bitcoin),
        Chain::Testnet3 => Ok(Network::Testnet),
        Chain::Signet => Ok(Network::Signet),
        Chain::Regtest => Ok(Network::Regtest),
        _ => Err(FundingError::ChainNotSupported),
    }
}

/// Whether a funding wallet opened for `chain` can be used: the chain must
/// have a bitcoin network, the wallet descriptor's network must be known
/// (else the derivation error, by its description) and equal to it (else
/// `ChainMismatch`). The network is the one the wallet then works on.
pub fn check_wallet_chain(chain: &Chain, descriptor_network: Result<Network, String>) -> (r: Result<Network, FundingError>)
    ensures
        match chain_network(*chain) {
            None => r == Err::<Network, FundingError>(FundingError::ChainNotSupported),
            Some(n) => match descriptor_network {
                Err(d) => r == Err::<Network, FundingError>(FundingError::Derivation(d)),
                Ok(w) => if w == n {
                    r == Ok::<Network, FundingError>(n)
                } else {
                    r == Err::<Network, FundingError>(FundingError::ChainMismatch)
                },
            },
        },
{
    let network = match network_of(chain) {
        Ok(n) => n,
        Err(e) => return Err(e),
    };
    match descriptor_network {
        Err(d) => Err(FundingError::Derivation(d)),
        Ok(w) => if w == network { Ok(network) } else { Err(FundingError::ChainMismatch) },
    }
}

} // verus!
