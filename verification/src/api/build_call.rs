use std::sync::Arc;

use vstd::prelude::*;

use crate::api::ownership::{
    handles_held,
    lemma_completion_gives_one_handle_back,
    lemma_issue_adds_one_handle,
};
use crate::build_options::BuildOptions;
use crate::containers::{BuildResult, Message, OutputFile, SliceContainer};

verus! {

/// The record that travels with one build as its opaque user data: the
/// handle that keeps the configuration alive until the call completes, and
/// the handler that takes the result.
pub struct BuildInvocationData<F> {
    pub opt_arc: Arc<BuildOptions>,
    pub cb: F,
}

/// Prepares a build under `options`. The record takes one handle on the
/// configuration, so that it is neither freed nor moved while the call runs.
/// The handler is not called here.
pub fn build_direct<F: FnOnce(BuildResult)>(options: Arc<BuildOptions>, cb: F) -> (data:
    BuildInvocationData<F>)
    ensures
        data.opt_arc == options,
        data.cb == cb,
{
    BuildInvocationData { opt_arc: options, cb }
}

/// Lets go of the handle that a record held.
fn release(handle: Arc<BuildOptions>) {
}

/// The result that a completed build hands to its handler: each array in a
/// container of its own.
pub open spec fn build_result(
    raw_output_files: Vec<OutputFile>,
    raw_errors: Vec<Message>,
    raw_warnings: Vec<Message>,
) -> BuildResult {
    BuildResult {
        output_files: SliceContainer { items: raw_output_files },
        errors: SliceContainer { items: raw_errors },
        warnings: SliceContainer { items: raw_warnings },
    }
}

/// Completes a build: lets go of the handle that the record held, wraps what
/// the foreign side handed over, and calls the handler with it. The record
/// is used up, so its handler cannot be called again.
pub fn build_callback<F: FnOnce(BuildResult)>(
    cb_data: BuildInvocationData<F>,
    raw_output_files: Vec<OutputFile>,
    raw_errors: Vec<Message>,
    raw_warnings: Vec<Message>,
)
    requires
        call_requires(cb_data.cb, (build_result(raw_output_files, raw_errors, raw_warnings),)),
    ensures
        call_ensures(cb_data.cb, (build_result(raw_output_files, raw_errors, raw_warnings),), ()),
{
    let BuildInvocationData { opt_arc, cb } = cb_data;
    release(opt_arc);
    let output_files = SliceContainer { items: raw_output_files };
    let errors = SliceContainer { items: raw_errors };
    let warnings = SliceContainer { items: raw_warnings };
    cb(BuildResult { output_files, errors, warnings });
}

/// The handles on configurations that the records of the builds in flight
/// keep, record by record.
pub open spec fn kept_configs<F>(in_flight: Seq<BuildInvocationData<F>>) -> Seq<
    Option<Arc<BuildOptions>>,
> {
    in_flight.map_values(|record: BuildInvocationData<F>| Some(record.opt_arc))
}

/// A build adds, while it is in flight, exactly one handle on its
/// configuration, whatever other builds share it.
pub proof fn lemma_build_in_flight_holds_one_handle<F>(
    in_flight: Seq<BuildInvocationData<F>>,
    record: BuildInvocationData<F>,
)
    ensures
        handles_held(kept_configs(in_flight.push(record)), record.opt_arc) == handles_held(
            kept_configs(in_flight),
            record.opt_arc,
        ) + 1,
{
    assert(kept_configs(in_flight.push(record)) =~= kept_configs(in_flight).push(
        Some(record.opt_arc),
    ));
    lemma_issue_adds_one_handle(kept_configs(in_flight), Some(record.opt_arc), record.opt_arc);
}

/// When a build completes, in whatever order, the handle that its record
/// kept is given back, and the count is again what the other builds in
/// flight make it.
pub proof fn lemma_build_completion_gives_handle_back<F>(
    in_flight: Seq<BuildInvocationData<F>>,
    i: int,
)
    requires
        0 <= i < in_flight.len(),
    ensures
        handles_held(kept_configs(in_flight.remove(i)), in_flight[i].opt_arc) + 1 == handles_held(
            kept_configs(in_flight),
            in_flight[i].opt_arc,
        ),
{
    assert(kept_configs(in_flight.remove(i)) =~= kept_configs(in_flight).remove(i));
    lemma_completion_gives_one_handle_back(kept_configs(in_flight), i, in_flight[i].opt_arc);
}

} // verus!
