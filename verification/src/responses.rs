//! Response shapes the API layer serves, and the small rules that fill
//! them: the status labels and the block total.

use vstd::prelude::*;
use crate::block::BlockSummary;
use crate::txn::TransactionSummary;
use crate::txn::ExecutionStatus;
use crate::txn::ExecStatusV;

verus! {

/// The liveness answer.
#[derive(Debug, Clone)]
pub struct HealthResponse {
    pub status: String,
}

/// Build the liveness answer.
pub fn health_response() -> (r: HealthResponse)
    ensures
        r.status@ == "ok"@,
{
    proof {
        reveal_strlit("ok");
    }
    HealthResponse { status: "ok".to_owned() }
}

/// What is known of the opened store.
#[derive(Debug, Clone)]
pub struct StatsResponse {
    pub db_path: String,
    pub latest_block: Option<u64>,
    pub column_count: usize,
    pub columns: Vec<String>,
}

/// A page of block rows with its paging echo.
#[derive(Debug, Clone)]
pub struct BlockListResponse {
    pub blocks: Vec<BlockSummary>,
    pub total: u64,
    pub offset: u64,
    pub limit: u64,
}

/// Assemble a block page: the total is one past the latest block number, or
/// zero for an empty store.
pub fn block_list_response(
    blocks: Vec<BlockSummary>,
    latest: Option<u64>,
    offset: u64,
    limit: u64,
) -> (r: BlockListResponse)
    requires
        latest matches Some(n) ==> n < u64::MAX,
    ensures
        r.blocks == blocks,
        r.offset == offset,
        r.limit == limit,
        r.total == (match latest {
            Some(n) => n + 1,
            None => 0,
        }),
{
    let total = match latest {
        Some(n) => n + 1,
        None => 0,
    };
    BlockListResponse { blocks, total, offset, limit }
}

/// A block's transactions with their count.
#[derive(Debug, Clone)]
pub struct TransactionListResponse {
    pub transactions: Vec<TransactionSummary>,
    pub block_number: u64,
    pub total: usize,
}

/// Assemble a transaction page; the total is the row count.
pub fn transaction_list_response(transactions: Vec<TransactionSummary>, block_number: u64) -> (r:
    TransactionListResponse)
    ensures
        r.transactions == transactions,
        r.block_number == block_number,
        r.total == transactions@.len(),
{
    let total = transactions.len();
    TransactionListResponse { transactions, block_number, total }
}

/// The status labels a transaction outcome is served under: `SUCCEEDED`
/// with no reason, or `REVERTED` with the stored reason.
pub fn status_strings(status: ExecutionStatus) -> (r: (String, Option<String>))
    ensures
        status@ is Succeeded ==> r.0@ == "SUCCEEDED"@ && r.1 is None,
        status@ matches ExecStatusV::Reverted(reason) ==> r.0@ == "REVERTED"@ && (r.1 matches Some(
            m,
        ) && m@ == reason),
{
    proof {
        reveal_strlit("SUCCEEDED");
        reveal_strlit("REVERTED");
    }
    match status {
        ExecutionStatus::Succeeded => ("SUCCEEDED".to_owned(), None),
        ExecutionStatus::Reverted(reason) => ("REVERTED".to_owned(), Some(reason)),
    }
}

} // verus!
