//! The run record: captures, entry results, and the whole run.
//!
//! These are created once per run, immutable after construction, and live for
//! the duration of reporting.

use vstd::prelude::*;

use crate::asserts::AssertResult;
use crate::error::SourceInfo;
use crate::http::Call;
use crate::http::Cookie;
use crate::value::Value;

verus! {

broadcast use {vstd::seq::group_seq_axioms, vstd::std_specs::vec::group_vec_axioms};

/// A named value extracted from a response for use by later entries. Name
/// uniqueness across one entry's captures is not enforced here.
#[derive(Debug)]
pub struct CaptureResult {
    pub name: String,
    pub value: Value,
}

/// The outcome of one script entry: its exchanges, captures and assertion
/// results, and how long it took.
#[derive(Debug)]
pub struct EntryResult {
    pub entry_index: usize,
    pub source_info: SourceInfo,
    pub calls: Vec<Call>,
    pub captures: Vec<CaptureResult>,
    pub asserts: Vec<AssertResult>,
    pub time_in_ms: u64,
}

impl EntryResult {
    pub open spec fn wf(&self) -> bool {
        forall|i: int| 0 <= i < self.calls@.len() ==> (#[trigger] self.calls@[i]).wf()
    }
}

/// The outcome of a whole run. `success` is supplied by the caller — the
/// aggregation policy lives outside this core — and is rendered, not
/// recomputed.
#[derive(Debug)]
pub struct HurlResult {
    pub entries: Vec<EntryResult>,
    pub success: bool,
    pub time_in_ms: u64,
    pub cookies: Vec<Cookie>,
}

impl HurlResult {
    pub open spec fn wf(&self) -> bool {
        forall|i: int| 0 <= i < self.entries@.len() ==> (#[trigger] self.entries@[i]).wf()
    }
}

} // verus!
