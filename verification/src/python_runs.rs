//! Records of Python code blocks run from a message.
use vstd::prelude::*;

verus! {

/// One run of one code block of a message, with what it printed.
#[derive(Debug, Clone)]
pub struct PythonCodeRunRecord {
    pub run_id: String,
    pub workspace_id: String,
    pub message_id: String,
    pub code_block_index: u32,
    pub code_hash: String,
    pub code: String,
    pub status: String,
    pub stdout: String,
    pub stderr: String,
    pub installed_packages_json: String,
    pub tool_events_json: String,
    pub explanation_markdown: String,
    pub error_reason: Option<String>,
    pub created_at: String,
    pub updated_at: String,
}

/// The column that holds a run's code block index.
pub const CODE_BLOCK_INDEX_COLUMN: usize = 3;

/// A stored code block index: `None` when the stored integer does not fit
/// an index, which is reported as a conversion failure of its column rather
/// than wrapped around.
pub fn code_block_index_from_sql(value: i64) -> (r: Option<u32>)
    ensures
        0 <= value <= u32::MAX ==> r == Some(value as u32),
        !(0 <= value <= u32::MAX) ==> r is None,
{
    if value < 0 || value > u32::MAX as i64 {
        None
    } else {
        Some(value as u32)
    }
}

/// A code block index as stored.
pub fn code_block_index_to_sql(index: u32) -> (r: i64)
    ensures
        r == index,
{
    index as i64
}

} // verus!
