//! The result model: a columnar batch with its logical total row count, and
//! the timed wire envelope every data-producing operation returns.
use vstd::prelude::*;
use crate::error::DbError;

verus! {

/// A columnar result set. `data` is the encoded column payload the engine
/// produced, `rows` the physical row count of that payload, and `total` the
/// logical row count of the unbounded query, which `rows` may undercount
/// after pagination.
#[derive(Debug, Clone, PartialEq, Eq)]
pub struct RawArrowData {
    pub data: Vec<u8>,
    pub rows: usize,
    pub total: usize,
}

impl RawArrowData {
    /// A fresh batch: the logical total defaults to the physical row count.
    pub fn new(data: Vec<u8>, rows: usize) -> (r: RawArrowData)
        ensures
            r.data == data,
            r.rows == rows,
            r.total == rows,
    {
        RawArrowData { data, rows, total: rows }
    }
}

/// Sets the logical total from a successful count step and leaves the
/// physical row count standing when the count step failed. A best-effort
/// enrichment: no failure propagates from here.
pub fn merge_count(res: RawArrowData, count: Option<usize>) -> (r: RawArrowData)
    ensures
        r.data == res.data,
        r.rows == res.rows,
        r.total == match count {
            Some(c) => c,
            None => res.total,
        },
{
    match count {
        Some(c) => RawArrowData { total: c, ..res },
        None => res,
    }
}

/// The total for a structural table query: the separate count result, or zero
/// when that count failed.
pub fn merge_table_count(res: RawArrowData, count: Option<usize>) -> (r: RawArrowData)
    ensures
        r.data == res.data,
        r.rows == res.rows,
        r.total == match count {
            Some(c) => c,
            None => 0usize,
        },
{
    match count {
        Some(c) => RawArrowData { total: c, ..res },
        None => RawArrowData { total: 0, ..res },
    }
}

/// The wire envelope: either a well-formed batch (`code` zero, empty
/// `message`) or a single error string, with an optional elapsed-time
/// measurement in milliseconds.
#[derive(Debug, Clone, PartialEq, Eq)]
pub struct ArrowResponse {
    pub data: Vec<u8>,
    pub rows: usize,
    pub total: usize,
    pub code: u32,
    pub message: String,
    pub elapsed_ms: Option<u64>,
}

/// Folds an operation's outcome into the wire envelope: a success carries the
/// batch through unchanged; a failure carries only its message.
pub fn convert(res: Result<RawArrowData, DbError>, elapsed_ms: Option<u64>) -> (r: ArrowResponse)
    ensures
        r.elapsed_ms == elapsed_ms,
        res matches Ok(b) ==> r.data == b.data && r.rows == b.rows && r.total == b.total
            && r.code == 0u32 && r.message@ == Seq::<char>::empty(),
        res matches Err(e) ==> r.data@ == Seq::<u8>::empty() && r.rows == 0usize
            && r.total == 0usize && r.code == 1u32 && r.message@ == crate::error::message_spec(e),
{
    match res {
        Ok(b) => ArrowResponse {
            data: b.data,
            rows: b.rows,
            total: b.total,
            code: 0,
            message: String::new(),
            elapsed_ms,
        },
        Err(e) => ArrowResponse {
            data: Vec::new(),
            rows: 0,
            total: 0,
            code: 1,
            message: e.message(),
            elapsed_ms,
        },
    }
}

} // verus!
