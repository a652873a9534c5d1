//! Insertion accounting: which per-source counter an embedding unit
//! records.
//!
//! Every unit ends in exactly one increment against the external store:
//! the success counter when the point was built and the store accepted it,
//! the failure counter in every other case.

use vstd::prelude::*;

use crate::pipeline::EmbedError;
use crate::pipeline::Point;

verus! {

/// How the vector store's insert call ended, as the unit observes it.
#[derive(Clone, Copy, PartialEq, Eq, Structural)]
pub enum InsertOutcome {
    /// The store reported an explicit OK status.
    Accepted,
    /// The store answered with any other status.
    NotAccepted,
    /// The insert call itself failed.
    CallFailed,
}

/// The per-source counter a unit records into the external store.
#[derive(Clone, Copy, PartialEq, Eq, Structural)]
pub enum CounterField {
    SuccessCount,
    FailureCount,
}

/// The one counter a unit records, given whether the pipeline produced a
/// point and, when it did, how the insert call ended.
pub open spec fn unit_counter_spec(pipeline_ok: bool, insert: InsertOutcome) -> CounterField {
    if pipeline_ok && insert is Accepted {
        CounterField::SuccessCount
    } else {
        CounterField::FailureCount
    }
}

/// Law: a message that reaches the embedding stage has exactly one of its
/// source's two counters recorded: the success counter exactly when the
/// pipeline produced a point and the store accepted it, the failure counter
/// in every other case; never both, never neither.
pub proof fn lemma_counter_exclusivity(pipeline_ok: bool, insert: InsertOutcome)
    ensures
        unit_counter_spec(pipeline_ok, insert) is SuccessCount <==> (pipeline_ok
            && insert is Accepted),
        unit_counter_spec(pipeline_ok, insert) is SuccessCount <==> !(unit_counter_spec(
            pipeline_ok,
            insert,
        ) is FailureCount),
{
}

/// What the unit does once the pipeline stage has ended: insert the point,
/// or record a failure at once.
pub enum AfterPipeline<V> {
    Insert(Point<V>),
    Record(CounterField),
}

/// Decides the unit's next step from the pipeline's result: a produced
/// point goes to the store; a pipeline error is recorded as a failure with
/// no insert call.
pub fn plan_after_pipeline<V>(r: Result<Point<V>, EmbedError>) -> (p: AfterPipeline<V>)
    ensures
        match p {
            AfterPipeline::Insert(point) => r matches Ok(q) && q == point,
            AfterPipeline::Record(c) => r is Err && c == CounterField::FailureCount,
        },
{
    match r {
        Ok(point) => AfterPipeline::Insert(point),
        Err(_) => AfterPipeline::Record(CounterField::FailureCount),
    }
}

/// Decides the counter after an insert call: success on an explicit OK
/// status, failure on any other status or on a failed call.
pub fn counter_after_insert(outcome: &InsertOutcome) -> (c: CounterField)
    ensures
        c == unit_counter_spec(true, *outcome),
{
    match outcome {
        InsertOutcome::Accepted => CounterField::SuccessCount,
        InsertOutcome::NotAccepted => CounterField::FailureCount,
        InsertOutcome::CallFailed => CounterField::FailureCount,
    }
}

/// The field path under which the external store keeps the counter.
pub fn counter_field_path(c: &CounterField) -> (r: String)
    ensures
        *c is SuccessCount ==> r@ == "recordCount.success"@,
        *c is FailureCount ==> r@ == "recordCount.failure"@,
{
    match c {
        CounterField::SuccessCount => "recordCount.success".to_owned(),
        CounterField::FailureCount => "recordCount.failure".to_owned(),
    }
}

} // verus!
