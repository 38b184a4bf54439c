use std::sync::Arc;

use vstd::prelude::*;
use vstd::utf8::valid_utf8;

use crate::api::ownership::{
    handles_held,
    lemma_completion_gives_one_handle_back,
    lemma_issue_adds_one_handle,
};
use crate::bridge::GoString;
use crate::containers::{
    check_text,
    EncodingError,
    Message,
    SliceContainer,
    StrContainer,
    TransformResult,
};
use crate::transform_options::TransformOptions;

verus! {

/// The record that travels with one transform as its opaque user data: the
/// handles that keep the input and the configuration alive until the call
/// completes, and the handler that takes the result.
pub struct TransformInvocationData<F> {
    pub src_vec_arc: Option<Arc<Vec<u8>>>,
    pub opt_arc: Option<Arc<TransformOptions>>,
    pub cb: F,
}

/// The handles on configurations that the records of the transforms in
/// flight keep, record by record.
pub open spec fn kept_configs<F>(in_flight: Seq<TransformInvocationData<F>>) -> Seq<
    Option<Arc<TransformOptions>>,
> {
    in_flight.map_values(|record: TransformInvocationData<F>| record.opt_arc)
}

/// The handles on input buffers that the records of the transforms in flight
/// keep, record by record.
pub open spec fn kept_buffers<F>(in_flight: Seq<TransformInvocationData<F>>) -> Seq<
    Option<Arc<Vec<u8>>>,
> {
    in_flight.map_values(|record: TransformInvocationData<F>| record.src_vec_arc)
}

/// A transform that is ready to be issued: the input as the foreign call
/// takes it, and the record to pass along as user data.
pub struct TransformCall<F> {
    pub go_code: GoString,
    pub cb_data: TransformInvocationData<F>,
}

/// Prepares a transform of `code` under `options`, both of which the caller
/// keeps alive and in place until the call completes. The record holds no
/// handle on either.
///
/// Input that is not text is refused here, before anything is issued, and
/// the handler is then never called.
pub fn transform_direct_unmanaged<F: FnOnce(TransformResult)>(
    code: &[u8],
    _options: &TransformOptions,
    cb: F,
) -> (prepared: Result<TransformCall<F>, EncodingError>)
    ensures
        prepared is Ok <==> valid_utf8(code@),
        prepared matches Ok(call) ==> {
            &&& call.go_code.refers_to(code@)
            &&& call.cb_data.src_vec_arc is None
            &&& call.cb_data.opt_arc is None
            &&& call.cb_data.cb == cb
        },
        prepared matches Err(refused) ==> refused == EncodingError::InvalidUtf8,
{
    match check_text(code) {
        Ok(()) => {},
        Err(refused) => {
            return Err(refused);
        },
    }
    let go_code = GoString::from_bytes_unmanaged(code);
    let data = TransformInvocationData { src_vec_arc: None, opt_arc: None, cb };
    Ok(TransformCall { go_code, cb_data: data })
}

/// Prepares a transform of `code` under `options`. The record takes one
/// handle on each, so that neither is freed or moved while the call runs.
///
/// Input that is not text is refused here, before anything is issued, and
/// the handler is then never called.
pub fn transform_direct<F: FnOnce(TransformResult)>(
    code: Arc<Vec<u8>>,
    options: Arc<TransformOptions>,
    cb: F,
) -> (prepared: Result<TransformCall<F>, EncodingError>)
    ensures
        prepared is Ok <==> valid_utf8(code@),
        prepared matches Ok(call) ==> {
            &&& call.go_code.refers_to(code@)
            &&& call.cb_data.src_vec_arc == Some(code)
            &&& call.cb_data.opt_arc == Some(options)
            &&& call.cb_data.cb == cb
        },
        prepared matches Err(refused) ==> refused == EncodingError::InvalidUtf8,
{
    match check_text(code.as_slice()) {
        Ok(()) => {},
        Err(refused) => {
            return Err(refused);
        },
    }
    let go_code = GoString::from_bytes_unmanaged(code.as_slice());
    let data = TransformInvocationData { src_vec_arc: Some(code), opt_arc: Some(options), cb };
    Ok(TransformCall { go_code, cb_data: data })
}

/// Lets go of a handle that a record held.
fn release<T>(handle: Option<Arc<T>>) {
}

/// The result that a completed transform hands to its handler: the two
/// texts as they came, and each array in a container of its own.
pub open spec fn transform_result(
    code: StrContainer,
    map: StrContainer,
    raw_errors: Vec<Message>,
    raw_warnings: Vec<Message>,
) -> TransformResult {
    TransformResult {
        code,
        map,
        errors: SliceContainer { items: raw_errors },
        warnings: SliceContainer { items: raw_warnings },
    }
}

/// Completes a transform: lets go of the handles that the record held, wraps
/// what the foreign side handed over, and calls the handler with it. The
/// record is used up, so its handler cannot be called again.
pub fn transform_callback<F: FnOnce(TransformResult)>(
    cb_data: TransformInvocationData<F>,
    code: StrContainer,
    map: StrContainer,
    raw_errors: Vec<Message>,
    raw_warnings: Vec<Message>,
)
    requires
        call_requires(cb_data.cb, (transform_result(code, map, raw_errors, raw_warnings),)),
    ensures
        call_ensures(cb_data.cb, (transform_result(code, map, raw_errors, raw_warnings),), ()),
{
    let TransformInvocationData { src_vec_arc, opt_arc, cb } = cb_data;
    release(src_vec_arc);
    release(opt_arc);
    let errors = SliceContainer { items: raw_errors };
    let warnings = SliceContainer { items: raw_warnings };
    cb(TransformResult { code, map, errors, warnings });
}

/// A transform that keeps `code` and `options` adds, while it is in flight,
/// exactly one handle on each, whatever other transforms share them; one
/// that keeps nothing adds none.
pub proof fn lemma_transform_in_flight_holds_one_handle<F>(
    in_flight: Seq<TransformInvocationData<F>>,
    record: TransformInvocationData<F>,
    code: Arc<Vec<u8>>,
    options: Arc<TransformOptions>,
)
    ensures
        record.opt_arc == Some(options) ==> handles_held(
            kept_configs(in_flight.push(record)),
            options,
        ) == handles_held(kept_configs(in_flight), options) + 1,
        record.src_vec_arc == Some(code) ==> handles_held(
            kept_buffers(in_flight.push(record)),
            code,
        ) == handles_held(kept_buffers(in_flight), code) + 1,
        record.opt_arc is None ==> handles_held(kept_configs(in_flight.push(record)), options)
            == handles_held(kept_configs(in_flight), options),
        record.src_vec_arc is None ==> handles_held(kept_buffers(in_flight.push(record)), code)
            == handles_held(kept_buffers(in_flight), code),
{
    assert(kept_configs(in_flight.push(record)) =~= kept_configs(in_flight).push(record.opt_arc));
    assert(kept_buffers(in_flight.push(record)) =~= kept_buffers(in_flight).push(
        record.src_vec_arc,
    ));
    lemma_issue_adds_one_handle(kept_configs(in_flight), record.opt_arc, options);
    lemma_issue_adds_one_handle(kept_buffers(in_flight), record.src_vec_arc, code);
}

/// When a transform completes, in whatever order, the handles that its
/// record kept are given back, one on `options` and one on `code`, and each
/// count is again what the other transforms in flight make it.
pub proof fn lemma_transform_completion_gives_handles_back<F>(
    in_flight: Seq<TransformInvocationData<F>>,
    i: int,
    code: Arc<Vec<u8>>,
    options: Arc<TransformOptions>,
)
    requires
        0 <= i < in_flight.len(),
        in_flight[i].opt_arc == Some(options),
        in_flight[i].src_vec_arc == Some(code),
    ensures
        handles_held(kept_configs(in_flight.remove(i)), options) + 1 == handles_held(
            kept_configs(in_flight),
            options,
        ),
        handles_held(kept_buffers(in_flight.remove(i)), code) + 1 == handles_held(
            kept_buffers(in_flight),
            code,
        ),
{
    assert(kept_configs(in_flight.remove(i)) =~= kept_configs(in_flight).remove(i));
    assert(kept_buffers(in_flight.remove(i)) =~= kept_buffers(in_flight).remove(i));
    lemma_completion_gives_one_handle_back(kept_configs(in_flight), i, options);
    lemma_completion_gives_one_handle_back(kept_buffers(in_flight), i, code);
}

} // verus!
