//! Wallet transaction history: parsing ledger and index records into
//! wallet entries, and the offset arithmetic of the ledger-backed page
//! source.
//!
//! The ledger serves transactions oldest-first by absolute index, so a
//! "most-recent-first" page `[start, end)` is translated into the native
//! range `[total - end, total - start)` (saturated at zero) and the fetched
//! records are reversed; the stream ends exactly when the translated start
//! reaches index 0. The index source serves newest-first already and needs
//! no translation; its end flag comes from comparing what came back against
//! what was requested.

use vstd::prelude::*;

use crate::balance::TokenBalance;
use crate::cursored_data::{page_end_spec, page_slice_spec, KeyedData, PageEntry};
use crate::error::Error;
use crate::store::DupValue;

verus! {

/// Which way a transaction moves value, from the wallet's point of view.
#[derive(Clone, Copy, Debug)]
pub enum TxnDirection {
    Transaction,
    Added,
    Deducted,
}

/// The kind of a wallet transaction, with its counterparties.
#[derive(Clone, Debug)]
pub enum TxnInfoType {
    Mint { to: String },
    Sent { to: String },
    Burn { from: String },
    Received { from: String },
    Transfer { from: String, to: String },
}

/// The direction each transaction kind moves value.
pub open spec fn spec_txn_direction(t: TxnInfoType) -> TxnDirection {
    match t {
        TxnInfoType::Burn { .. } => TxnDirection::Deducted,
        TxnInfoType::Sent { .. } => TxnDirection::Deducted,
        TxnInfoType::Mint { .. } => TxnDirection::Added,
        TxnInfoType::Received { .. } => TxnDirection::Added,
        TxnInfoType::Transfer { .. } => TxnDirection::Transaction,
    }
}

impl From<TxnInfoType> for TxnDirection {
    fn from(value: TxnInfoType) -> (r: TxnDirection) {
        match value {
            TxnInfoType::Burn { .. } => TxnDirection::Deducted,
            TxnInfoType::Sent { .. } => TxnDirection::Deducted,
            TxnInfoType::Mint { .. } => TxnDirection::Added,
            TxnInfoType::Received { .. } => TxnDirection::Added,
            TxnInfoType::Transfer { .. } => TxnDirection::Transaction,
        }
    }
}

impl vstd::std_specs::convert::FromSpecImpl<TxnInfoType> for TxnDirection {
    open spec fn obeys_from_spec() -> bool {
        true
    }

    open spec fn from_spec(v: TxnInfoType) -> TxnDirection {
        spec_txn_direction(v)
    }
}

impl TxnInfoType {
    /// The text each transaction kind renders as.
    pub open spec fn spec_text(&self) -> Seq<char> {
        match self {
            TxnInfoType::Burn { .. } => "Burned"@,
            TxnInfoType::Mint { .. } => "Minted"@,
            TxnInfoType::Received { .. } => "Received"@,
            TxnInfoType::Sent { .. } => "Sent"@,
            TxnInfoType::Transfer { .. } => "Transferred"@,
        }
    }

    /// Renders the transaction kind.
    pub fn to_text(&self) -> (r: &'static str)
        ensures
            r@ == self.spec_text(),
    {
        match self {
            TxnInfoType::Burn { .. } => "Burned",
            TxnInfoType::Mint { .. } => "Minted",
            TxnInfoType::Received { .. } => "Received",
            TxnInfoType::Sent { .. } => "Sent",
            TxnInfoType::Transfer { .. } => "Transferred",
        }
    }
}

impl DupValue for TxnInfoType {
    fn dup(&self) -> (r: Self) {
        match self {
            TxnInfoType::Mint { to } => TxnInfoType::Mint { to: to.clone() },
            TxnInfoType::Sent { to } => TxnInfoType::Sent { to: to.clone() },
            TxnInfoType::Burn { from } => TxnInfoType::Burn { from: from.clone() },
            TxnInfoType::Received { from } => TxnInfoType::Received { from: from.clone() },
            TxnInfoType::Transfer { from, to } => TxnInfoType::Transfer {
                from: from.clone(),
                to: to.clone(),
            },
        }
    }
}

/// One wallet-visible transaction, keyed by its absolute ledger index.
#[derive(Clone, Debug)]
pub struct TxnInfoWallet {
    pub tag: TxnInfoType,
    pub timestamp: u64,
    pub amount: TokenBalance,
    pub id: u64,
}

impl KeyedData for TxnInfoWallet {
    type Key = u64;

    open spec fn spec_key(&self) -> u64 {
        self.id
    }

    fn key(&self) -> (r: u64) {
        self.id
    }
}

impl DupValue for TxnInfoWallet {
    fn dup(&self) -> (r: Self) {
        TxnInfoWallet {
            tag: self.tag.dup(),
            timestamp: self.timestamp,
            amount: self.amount,
            id: self.id,
        }
    }
}

/// A mint operation of a fetched ledger record.
#[derive(Clone, Debug)]
pub struct MintOp {
    pub to: String,
    pub amount: u128,
}

/// A burn operation of a fetched ledger record.
#[derive(Clone, Debug)]
pub struct BurnOp {
    pub from: String,
    pub amount: u128,
}

/// A transfer operation of a fetched ledger record.
#[derive(Clone, Debug)]
pub struct TransferOp {
    pub from: String,
    pub to: String,
    pub amount: u128,
}

/// A transaction as a ledger serves it: at most one of the operation
/// kinds is present.
#[derive(Clone, Debug)]
pub struct LedgerTransaction {
    pub timestamp: u64,
    pub mint: Option<MintOp>,
    pub burn: Option<BurnOp>,
    pub transfer: Option<TransferOp>,
}

/// A transaction as an index canister serves it: a ledger record together
/// with its absolute index.
#[derive(Clone, Debug)]
pub struct IndexedTransaction {
    pub id: u64,
    pub transaction: LedgerTransaction,
}

/// Where a wallet's transactions come from: an index canister queried for
/// one account, or the ledger itself.
#[derive(Clone, Debug)]
pub enum IndexOrLedger {
    Index { key_principal: String, index: String },
    Ledger(String),
}

/// A wallet's transaction history source: which backend serves it and the
/// token's decimal places.
#[derive(Clone, Debug)]
pub struct TxnHistory {
    pub source: IndexOrLedger,
    pub decimals: u8,
}

/// What a ledger record parses to: the first present operation decides the
/// kind, and a record with no operation is unparseable.
pub open spec fn spec_parse_ledger(txn: LedgerTransaction, id: u64, decimals: u8) -> Option<
    TxnInfoWallet,
> {
    if txn.mint is Some {
        let m = txn.mint->Some_0;
        Some(
            TxnInfoWallet {
                tag: TxnInfoType::Mint { to: m.to },
                timestamp: txn.timestamp,
                amount: TokenBalance { e8s: m.amount, decimals },
                id,
            },
        )
    } else if txn.burn is Some {
        let b = txn.burn->Some_0;
        Some(
            TxnInfoWallet {
                tag: TxnInfoType::Burn { from: b.from },
                timestamp: txn.timestamp,
                amount: TokenBalance { e8s: b.amount, decimals },
                id,
            },
        )
    } else if txn.transfer is Some {
        let t = txn.transfer->Some_0;
        Some(
            TxnInfoWallet {
                tag: TxnInfoType::Transfer { from: t.from, to: t.to },
                timestamp: txn.timestamp,
                amount: TokenBalance { e8s: t.amount, decimals },
                id,
            },
        )
    } else {
        None
    }
}

/// What an index record parses to for the account `user`: a burn is
/// labelled with the queried account itself (the index serves one
/// account's records, so the burner is the account), and a transfer
/// becomes `Sent` or `Received` depending on which side the account is
/// on; a transfer that touches neither side is unparseable.
pub open spec fn spec_parse_index(
    txn: LedgerTransaction,
    id: u64,
    user: String,
    decimals: u8,
) -> Option<TxnInfoWallet> {
    if txn.mint is Some {
        let m = txn.mint->Some_0;
        Some(
            TxnInfoWallet {
                tag: TxnInfoType::Mint { to: m.to },
                timestamp: txn.timestamp,
                amount: TokenBalance { e8s: m.amount, decimals },
                id,
            },
        )
    } else if txn.burn is Some {
        let b = txn.burn->Some_0;
        Some(
            TxnInfoWallet {
                tag: TxnInfoType::Burn { from: user },
                timestamp: txn.timestamp,
                amount: TokenBalance { e8s: b.amount, decimals },
                id,
            },
        )
    } else if txn.transfer is Some {
        let t = txn.transfer->Some_0;
        if t.from@ == user@ {
            Some(
                TxnInfoWallet {
                    tag: TxnInfoType::Sent { to: t.to },
                    timestamp: txn.timestamp,
                    amount: TokenBalance { e8s: t.amount, decimals },
                    id,
                },
            )
        } else if t.to@ == user@ {
            Some(
                TxnInfoWallet {
                    tag: TxnInfoType::Received { from: t.from },
                    timestamp: txn.timestamp,
                    amount: TokenBalance { e8s: t.amount, decimals },
                    id,
                },
            )
        } else {
            None
        }
    } else {
        None
    }
}

/// The wallet entries of a run of ledger records starting at absolute
/// index `first`, unparseable records dropped.
pub open spec fn parsed_ledger_seq(
    txns: Seq<LedgerTransaction>,
    first: int,
    decimals: u8,
) -> Seq<TxnInfoWallet>
    decreases txns.len(),
{
    if txns.len() == 0 {
        Seq::empty()
    } else {
        (match spec_parse_ledger(txns[0], first as u64, decimals) {
            Some(w) => seq![w],
            None => Seq::empty(),
        }) + parsed_ledger_seq(txns.drop_first(), first + 1, decimals)
    }
}

/// The wallet entries of a run of index records for the account `user`,
/// unparseable records dropped.
pub open spec fn parsed_index_seq(
    txns: Seq<IndexedTransaction>,
    user: String,
    decimals: u8,
) -> Seq<TxnInfoWallet>
    decreases txns.len(),
{
    if txns.len() == 0 {
        Seq::empty()
    } else {
        (match spec_parse_index(txns[0].transaction, txns[0].id, user, decimals) {
            Some(w) => seq![w],
            None => Seq::empty(),
        }) + parsed_index_seq(txns.drop_first(), user, decimals)
    }
}

/// The ledger-native start of a most-recent-first page `[start, end)` over
/// `total` transactions: `total - end`, saturated at zero.
pub open spec fn ledger_native_start(total: int, end: int) -> int {
    if total > end {
        total - end
    } else {
        0
    }
}

/// The ledger-native end of the page: `total - start`, saturated at zero.
pub open spec fn ledger_native_end(total: int, start: int) -> int {
    if total > start {
        total - start
    } else {
        0
    }
}

impl TxnHistory {
    /// Parses one ledger record at absolute index `id`; a record with no
    /// recognised operation is an error.
    pub fn parse_transactions_ledger(txn: LedgerTransaction, id: u64, decimals: u8) -> (r: Result<
        TxnInfoWallet,
        Error,
    >)
        ensures
            match r {
                Ok(w) => spec_parse_ledger(txn, id, decimals) == Some(w),
                Err(e) => spec_parse_ledger(txn, id, decimals) is None && e is ParseTransaction,
            },
    {
        let timestamp = txn.timestamp;
        match (txn.mint, txn.burn, txn.transfer) {
            (Some(mint), _, _) => Ok(
                TxnInfoWallet {
                    tag: TxnInfoType::Mint { to: mint.to },
                    timestamp,
                    amount: TokenBalance::new(mint.amount, decimals),
                    id,
                },
            ),
            (None, Some(burn), _) => Ok(
                TxnInfoWallet {
                    tag: TxnInfoType::Burn { from: burn.from },
                    timestamp,
                    amount: TokenBalance::new(burn.amount, decimals),
                    id,
                },
            ),
            (None, None, Some(transfer)) => Ok(
                TxnInfoWallet {
                    tag: TxnInfoType::Transfer { from: transfer.from, to: transfer.to },
                    timestamp,
                    amount: TokenBalance::new(transfer.amount, decimals),
                    id,
                },
            ),
            _ => Err(Error::ParseTransaction),
        }
    }

    /// Parses one index record for the account `user`; a transfer that
    /// touches neither side of the account is an error.
    pub fn parse_transactions_index(
        txn: IndexedTransaction,
        user_principal: &String,
        decimals: u8,
    ) -> (r: Result<TxnInfoWallet, Error>)
        ensures
            match r {
                Ok(w) => spec_parse_index(txn.transaction, txn.id, *user_principal, decimals)
                    == Some(w),
                Err(e) => spec_parse_index(txn.transaction, txn.id, *user_principal, decimals)
                    is None && e is ParseTransaction,
            },
    {
        let id = txn.id;
        let timestamp = txn.transaction.timestamp;
        match (txn.transaction.mint, txn.transaction.burn, txn.transaction.transfer) {
            (Some(mint), _, _) => Ok(
                TxnInfoWallet {
                    tag: TxnInfoType::Mint { to: mint.to },
                    timestamp,
                    amount: TokenBalance::new(mint.amount, decimals),
                    id,
                },
            ),
            (None, Some(burn), _) => Ok(
                TxnInfoWallet {
                    tag: TxnInfoType::Burn { from: user_principal.clone() },
                    timestamp,
                    amount: TokenBalance::new(burn.amount, decimals),
                    id,
                },
            ),
            (None, None, Some(transfer)) => {
                if transfer.from == *user_principal {
                    Ok(
                        TxnInfoWallet {
                            tag: TxnInfoType::Sent { to: transfer.to },
                            timestamp,
                            amount: TokenBalance::new(transfer.amount, decimals),
                            id,
                        },
                    )
                } else if transfer.to == *user_principal {
                    Ok(
                        TxnInfoWallet {
                            tag: TxnInfoType::Received { from: transfer.from },
                            timestamp,
                            amount: TokenBalance::new(transfer.amount, decimals),
                            id,
                        },
                    )
                } else {
                    Err(Error::ParseTransaction)
                }
            },
            _ => Err(Error::ParseTransaction),
        }
    }

    /// Translates a most-recent-first page `[start, end)` into the
    /// ledger-native range to fetch: its absolute start, its length, and
    /// whether the page exhausts the stream (exactly when the translated
    /// start is index 0, so no earlier transactions exist).
    pub fn ledger_page_plan(total_transactions: u64, start: usize, end: usize) -> (r: (
        u64,
        u64,
        bool,
    ))
        requires
            start <= end,
        ensures
            r.0 == ledger_native_start(total_transactions as int, end as int),
            r.1 == ledger_native_end(total_transactions as int, start as int) - ledger_native_start(
                total_transactions as int,
                end as int,
            ),
            r.2 == (r.0 == 0),
    {
        let total = total_transactions;
        let start_index: u64 = if total > end as u64 {
            total - end as u64
        } else {
            0
        };
        let end_index: u64 = if total > start as u64 {
            total - start as u64
        } else {
            0
        };
        let length = end_index - start_index;
        (start_index, length, start_index == 0)
    }

    /// Assembles the wallet page from the records a ledger fetch returned:
    /// each record is parsed at its absolute index (`first_index` onward),
    /// unparseable records are dropped, and the result is reversed into
    /// most-recent-first order. `list_end` is the plan's end flag.
    pub fn parse_ledger_page(
        txns: Vec<LedgerTransaction>,
        first_index: u64,
        decimals: u8,
        list_end: bool,
    ) -> (r: PageEntry<TxnInfoWallet>)
        requires
            first_index + txns@.len() <= u64::MAX,
        ensures
            r.data@ == parsed_ledger_seq(txns@, first_index as int, decimals).reverse(),
            r.end == list_end,
    {
        let ghost orig = txns@;
        let mut rest = txns;
        let mut parsed: Vec<TxnInfoWallet> = Vec::new();
        let mut idx: u64 = first_index;
        while rest.len() > 0
            invariant
                first_index + orig.len() <= u64::MAX,
                idx == first_index + orig.len() - rest@.len(),
                parsed_ledger_seq(orig, first_index as int, decimals) == parsed@
                    + parsed_ledger_seq(rest@, idx as int, decimals),
            decreases rest.len(),
        {
            let ghost before = rest@;
            let t = rest.remove(0);
            proof {
                assert(rest@ =~= before.drop_first());
                assert(t == before[0]);
            }
            match Self::parse_transactions_ledger(t, idx, decimals) {
                Ok(w) => {
                    parsed.push(w);
                },
                Err(_) => {},
            }
            proof {
                assert(parsed_ledger_seq(orig, first_index as int, decimals) =~= parsed@
                    + parsed_ledger_seq(rest@, idx as int + 1, decimals));
            }
            idx = idx + 1;
        }
        proof {
            assert(parsed@ =~= parsed_ledger_seq(orig, first_index as int, decimals));
        }
        let ghost whole = parsed@;
        let mut data: Vec<TxnInfoWallet> = Vec::new();
        while parsed.len() > 0
            invariant
                whole =~= parsed@ + data@.reverse(),
            decreases parsed.len(),
        {
            let ghost pb = parsed@;
            let ghost db = data@;
            let w = parsed.pop().unwrap();
            data.push(w);
            proof {
                assert(data@.reverse() =~= seq![w] + db.reverse());
                assert(pb =~= pb.drop_last() + seq![w]);
                assert(whole =~= parsed@ + data@.reverse());
            }
        }
        proof {
            assert(data@ =~= whole.reverse());
        }
        PageEntry { data, end: list_end }
    }

    /// Assembles the wallet page from the records an index fetch returned
    /// for `[start, end)`: the fetch asked for the newest `end` records,
    /// so the page is the records at positions `[start, end)` of what came
    /// back, parsed for the account and with failures dropped; the stream
    /// ends when fewer records than requested were available.
    pub fn parse_index_page(
        txns: Vec<IndexedTransaction>,
        user_principal: &String,
        start: usize,
        end: usize,
        decimals: u8,
    ) -> (r: PageEntry<TxnInfoWallet>)
        requires
            start <= end,
        ensures
            r.data@ == parsed_index_seq(
                page_slice_spec(txns@, start as int, end as int),
                *user_principal,
                decimals,
            ),
            r.end == page_end_spec(txns@.len() as int, start as int, end as int),
    {
        let ghost orig = txns@;
        let n = txns.len();
        let lo = if start <= n {
            start
        } else {
            n
        };
        let hi = if end <= n {
            end
        } else {
            n
        };
        let mut rest = txns;
        let mut dropped: usize = 0;
        while dropped < lo
            invariant
                dropped <= lo,
                lo <= n,
                n == orig.len(),
                rest@ == orig.subrange(dropped as int, orig.len() as int),
            decreases lo - dropped,
        {
            proof {
                assert(orig.subrange(dropped as int, orig.len() as int).remove(0) =~= orig.subrange(
                    dropped + 1,
                    orig.len() as int,
                ));
            }
            rest.remove(0);
            dropped = dropped + 1;
        }
        let ghost window = orig.subrange(lo as int, hi as int);
        let mut out: Vec<TxnInfoWallet> = Vec::new();
        let mut taken: usize = 0;
        while taken < hi - lo
            invariant
                taken <= hi - lo,
                lo <= hi <= n,
                n == orig.len(),
                rest@ == orig.subrange(lo + taken, orig.len() as int),
                window == orig.subrange(lo as int, hi as int),
                parsed_index_seq(window, *user_principal, decimals) == out@ + parsed_index_seq(
                    orig.subrange(lo + taken, hi as int),
                    *user_principal,
                    decimals,
                ),
            decreases hi - lo - taken,
        {
            let ghost seg = orig.subrange(lo + taken, hi as int);
            proof {
                assert(orig.subrange(lo + taken, orig.len() as int).remove(0) =~= orig.subrange(
                    lo + taken + 1,
                    orig.len() as int,
                ));
                assert(seg[0] == orig[lo + taken]);
                assert(rest@[0] == orig[lo + taken]);
                assert(seg.drop_first() =~= orig.subrange(lo + taken + 1, hi as int));
            }
            let t = rest.remove(0);
            match Self::parse_transactions_index(t, user_principal, decimals) {
                Ok(w) => {
                    out.push(w);
                },
                Err(_) => {},
            }
            proof {
                assert(parsed_index_seq(window, *user_principal, decimals) =~= out@
                    + parsed_index_seq(
                    orig.subrange(lo + taken + 1, hi as int),
                    *user_principal,
                    decimals,
                ));
            }
            taken = taken + 1;
        }
        proof {
            assert(orig.subrange(lo + taken, hi as int) =~= Seq::<IndexedTransaction>::empty());
            assert(out@ =~= parsed_index_seq(window, *user_principal, decimals));
            assert(window == page_slice_spec(orig, start as int, end as int));
        }
        let is_end = hi - lo < end - start;
        PageEntry { data: out, end: is_end }
    }
}

/// The absolute index of the newest ledger block, read from the 8
/// big-endian bytes the tip certificate holds under `last_block_index`;
/// any other length is a malformed certificate.
pub fn last_block_index_from_bytes(bytes: &Vec<u8>) -> (r: Result<u64, Error>)
    ensures
        bytes@.len() == 8 ==> (r matches Ok(v) && v == be_bytes_val(bytes@)),
        bytes@.len() != 8 ==> (r matches Err(e) && e is TipCertificate),
{
    if bytes.len() != 8 {
        return Err(Error::TipCertificate);
    }
    let mut acc: u64 = 0;
    let mut i: usize = 0;
    while i < 8
        invariant
            i <= 8,
            bytes@.len() == 8,
            acc == be_bytes_val(bytes@.subrange(0, i as int)),
        decreases 8 - i,
    {
        let ghost pre = bytes@.subrange(0, i as int);
        proof {
            assert(bytes@.subrange(0, i + 1).drop_last() =~= pre);
            assert(bytes@.subrange(0, i + 1).last() == bytes@[i as int]);
            lemma_be_bytes_bound(pre);
            lemma_pow256_mono(i as int + 1, 8);
            reveal_with_fuel(pow256, 10);
            assert(pow256(i as int + 1) == 256 * pow256(i as int));
        }
        acc = acc * 256 + (bytes[i] as u64);
        i = i + 1;
    }
    proof {
        assert(bytes@.subrange(0, 8) =~= bytes@);
    }
    Ok(acc)
}

/// The big-endian value of a byte run.
pub open spec fn be_bytes_val(s: Seq<u8>) -> int
    decreases s.len(),
{
    if s.len() == 0 {
        0
    } else {
        be_bytes_val(s.drop_last()) * 256 + s.last()
    }
}

/// A run of `k` bytes reads below `256^k`.
proof fn lemma_be_bytes_bound(s: Seq<u8>)
    ensures
        0 <= be_bytes_val(s) < pow256(s.len() as int),
    decreases s.len(),
{
    if s.len() > 0 {
        lemma_be_bytes_bound(s.drop_last());
    }
}

/// 256 to the power `k`.
pub open spec fn pow256(k: int) -> int
    decreases k,
{
    if k <= 0 {
        1
    } else {
        256 * pow256(k - 1)
    }
}

/// Powers of 256 are positive and grow with the exponent.
proof fn lemma_pow256_mono(a: int, b: int)
    requires
        a <= b,
    ensures
        1 <= pow256(a) <= pow256(b),
    decreases b,
{
    if b > 0 {
        lemma_pow256_mono(
            if a <= b - 1 {
                a
            } else {
                b - 1
            },
            b - 1,
        );
    }
}

} // verus!
