//! Indexer query model: the response shapes of the structured-query
//! endpoint and the joins computed over them.

use vstd::prelude::*;

verus! {

/// Filter checkpoints by sequence number.
#[derive(Debug, Clone)]
pub struct CheckpointFilter {
    pub checkpoint_sequence_number: Option<u64>,
}

/// Filter transactions by digest.
#[derive(Debug, Clone)]
pub struct TransactionFilter {
    pub transaction_digest: Option<String>,
}

/// Filter objects by identifier or owner.
#[derive(Debug, Clone)]
pub struct ObjectFilter {
    pub object_id: Option<String>,
    pub owner: Option<OwnerFilter>,
}

/// Owner selector for object queries.
#[derive(Debug, Clone)]
pub enum OwnerFilter {
    Address(String),
    Object(String),
    Shared,
}

/// Filter events by originating transaction.
#[derive(Debug, Clone)]
pub struct EventFilter {
    pub transaction_digest: Option<String>,
}

/// Cursor state of a paged response.
#[derive(Debug, Clone)]
pub struct PageInfo {
    pub has_next_page: bool,
    pub end_cursor: Option<String>,
}

/// One checkpoint summary.
#[derive(Debug, Clone)]
pub struct Checkpoint {
    pub sequence_number: u64,
    pub digest: String,
    pub timestamp_ms: Option<u64>,
    pub previous_checkpoint_digest: Option<String>,
    pub epoch_id: Option<u64>,
    pub network_total_transactions: Option<u64>,
}

/// A page of checkpoints.
#[derive(Debug, Clone)]
pub struct CheckpointConnection {
    pub nodes: Vec<Checkpoint>,
    pub page_info: PageInfo,
}

/// The sender of a transaction.
#[derive(Debug, Clone)]
pub struct SenderAddress {
    pub address: String,
}

/// Execution status of a transaction.
#[derive(Debug, Clone)]
pub struct TransactionStatus {
    pub typename: Option<String>,
}

/// Gas charged to a transaction.
#[derive(Debug, Clone)]
pub struct GasCostSummary {
    pub computation_cost: Option<u64>,
    pub storage_cost: Option<u64>,
    pub storage_rebate: Option<u64>,
}

/// Observed effects of a transaction.
#[derive(Debug, Clone)]
pub struct TransactionEffects {
    pub status: Option<TransactionStatus>,
    pub gas_used: Option<GasCostSummary>,
}

/// One paid gas object.
#[derive(Debug, Clone)]
pub struct GasPayment {
    pub object_id: String,
}

/// The gas input of a transaction.
#[derive(Debug, Clone)]
pub struct GasInput {
    pub gas_payment: Option<Vec<GasPayment>>,
}

/// One command of a programmable transaction.
#[derive(Debug, Clone)]
pub struct TransactionCommand {
    pub typename: Option<String>,
}

/// The programmable block of a transaction.
#[derive(Debug, Clone)]
pub struct ProgrammableTransactionBlock {
    pub transactions: Option<Vec<TransactionCommand>>,
}

/// The kind of a transaction.
#[derive(Debug, Clone)]
pub struct TransactionKind {
    pub typename: Option<String>,
    pub programmable_transaction_block: Option<ProgrammableTransactionBlock>,
}

/// One transaction summary.
#[derive(Debug, Clone)]
pub struct Transaction {
    pub digest: String,
    pub effects: Option<TransactionEffects>,
    pub sender: Option<SenderAddress>,
    pub gas_input: Option<GasInput>,
    pub kind: Option<TransactionKind>,
}

/// A page of transactions.
#[derive(Debug, Clone)]
pub struct TransactionConnection {
    pub nodes: Vec<Transaction>,
    pub page_info: PageInfo,
}

/// One object summary.
#[derive(Debug, Clone)]
pub struct Object {
    pub object_id: String,
    pub version: Option<u64>,
    pub digest: Option<String>,
    pub owner: Option<ObjectOwner>,
    pub previous_transaction: Option<String>,
    pub storage_rebate: Option<u64>,
    pub bcs: Option<String>,
}

/// The owner of an object.
#[derive(Debug, Clone)]
pub struct ObjectOwner {
    pub typename: Option<String>,
}

/// A page of objects.
#[derive(Debug, Clone)]
pub struct ObjectConnection {
    pub nodes: Vec<Object>,
    pub page_info: PageInfo,
}

/// One emitted event.
#[derive(Debug, Clone)]
pub struct Event {
    pub id: Option<String>,
    pub transaction_digest: Option<String>,
    pub sender: Option<EventSenderAddress>,
    pub timestamp_ms: Option<u64>,
    pub bcs: Option<String>,
}

/// The sender recorded on an event.
#[derive(Debug, Clone)]
pub struct EventSenderAddress {
    pub address: String,
}

/// A page of events.
#[derive(Debug, Clone)]
pub struct EventConnection {
    pub nodes: Vec<Event>,
    pub page_info: PageInfo,
}

/// Whether a transaction's recorded sender is `addr`.
pub open spec fn tx_sender_matches(t: Transaction, addr: Seq<char>) -> bool {
    t.sender matches Some(s) && s.address@ == addr
}

/// The transactions of `s` whose sender is `addr`, in order.
pub open spec fn filter_by_sender(s: Seq<Transaction>, addr: Seq<char>) -> Seq<Transaction>
    decreases s.len(),
{
    if s.len() == 0 {
        s
    } else if tx_sender_matches(s.last(), addr) {
        filter_by_sender(s.drop_last(), addr).push(s.last())
    } else {
        filter_by_sender(s.drop_last(), addr)
    }
}

/// Keep only the transactions sent by `address`, preserving order.
pub fn filter_transactions_by_sender(txs: Vec<Transaction>, address: &str) -> (r: Vec<Transaction>)
    ensures
        r@ == filter_by_sender(txs@, address@),
{
    let ghost all: Seq<Transaction> = txs@;
    let mut rest = txs;
    let mut out: Vec<Transaction> = Vec::new();
    let ghost mut done: Seq<Transaction> = Seq::empty();
    proof {
        assert(done + rest@ =~= all);
        assert(out@ =~= filter_by_sender(done, address@));
    }
    while rest.len() > 0
        invariant
            done + rest@ == all,
            out@ == filter_by_sender(done, address@),
        decreases rest@.len(),
    {
        let ghost pre_rest: Seq<Transaction> = rest@;
        let t = rest.remove(0);
        proof {
            assert(rest@ =~= pre_rest.skip(1));
        }
        let keep: bool = match &t.sender {
            Some(s) => str_equal(s.address.as_str(), address),
            None => false,
        };
        proof {
            let done2 = done.push(t);
            assert(done2.drop_last() =~= done);
            assert(done2.last() == t);
            done = done2;
            assert(done + rest@ =~= all);
        }
        if keep {
            out.push(t);
        }
    }
    proof {
        assert(done =~= all);
    }
    out
}

/// Exact string equality through owned comparison.
fn str_equal(a: &str, b: &str) -> (r: bool)
    ensures
        r <==> a@ == b@,
{
    let ao: String = a.to_owned();
    let bo: String = b.to_owned();
    ao == bo
}

} // verus!
