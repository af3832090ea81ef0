//! The boundary adapter: translates foreign (host-supplied) primitive
//! values into a well-typed request, and translates internal results back
//! into the sentinel convention the host expects.
//!
//! Invalid input fails fast here and never reaches the concurrent core.  A
//! single typed error value is propagated internally and collapsed to the
//! host-visible sentinel only at the outermost boundary functions, with the
//! diagnostic handed back separately for the host's error sink.

use vstd::prelude::*;
use crate::config::{config_error, load_config, parsed, InitError};
use crate::handle_table::HandleTable;
use crate::networking_queue::{
    parse_uri_ok, uri_ok, Command, Completion, PendingCallback, Queue, Request, RequestType,
    Response, SubmitError,
};

verus! {

/// The sentinel a rejected boundary call returns to the host.
pub const INVALID_CELL: isize = 0;

/// What the boundary can reject, plus the submission/shutdown race.
#[derive(Clone, Copy, Debug, PartialEq, Eq, Structural)]
pub enum GripError {
    /// The method code matches no known request type.
    InvalidRequestType,
    /// The URI pointer was absent.
    InvalidUri,
    /// The URI bytes were not valid UTF-8.
    UriNotUtf8,
    /// The payload pointer was absent.
    InvalidUserData,
    /// The URI text was not accepted by the transport's parser.
    UriParseError,
    /// The submission arrived during or after shutdown.
    ShutdownRace,
}

/// A foreign text input as the boundary sees it: absent (a null pointer),
/// present but not valid UTF-8, or decoded text.
pub enum ForeignText {
    Null,
    NotUtf8,
    Text(String),
}

/// Models the host-side null check on a foreign pointer, the pointer stood
/// for by its address: zero is null, anything else passes through.
pub fn handle_null_ptr(ptr: usize) -> (r: Option<usize>)
    ensures
        ptr == 0 ==> r is None,
        ptr != 0 ==> r == Some(ptr),
{
    if ptr == 0 {
        None
    } else {
        Some(ptr)
    }
}

/// Collapses an internal result into the host-visible sentinel convention:
/// a value passes through, an absence or an error becomes `INVALID_CELL`.
/// The diagnostic itself travels to the host's error sink separately.
pub trait ResultFFIExt<T>: Sized {
    /// Whether the carried computation succeeded.
    spec fn ffi_ok(&self) -> bool;

    /// The carried value, meaningful when it succeeded.
    spec fn ffi_value(&self) -> T;

    fn handle_ffi_error(self) -> (r: Result<T, isize>)
        ensures
            self.ffi_ok() ==> r == Ok::<T, isize>(self.ffi_value()),
            !self.ffi_ok() ==> r == Err::<T, isize>(INVALID_CELL),
    ;
}

impl<T> ResultFFIExt<T> for Result<T, GripError> {
    open spec fn ffi_ok(&self) -> bool {
        self is Ok
    }

    open spec fn ffi_value(&self) -> T {
        self->Ok_0
    }

    fn handle_ffi_error(self) -> (r: Result<T, isize>) {
        match self {
            Ok(value) => Ok(value),
            Err(_) => Err(INVALID_CELL),
        }
    }
}

impl<T> ResultFFIExt<T> for Option<T> {
    open spec fn ffi_ok(&self) -> bool {
        self is Some
    }

    open spec fn ffi_value(&self) -> T {
        self->0
    }

    fn handle_ffi_error(self) -> (r: Result<T, isize>) {
        match self {
            Some(value) => Ok(value),
            None => Err(INVALID_CELL),
        }
    }
}

/// The first reason a foreign submission is rejected, in the order the
/// checks run — method code, URI presence, URI encoding, payload presence,
/// URI parse — or nothing when all inputs are acceptable.
pub open spec fn validation_error(
    request_type: isize,
    uri: ForeignText,
    user_data: Option<Vec<u8>>,
) -> Option<GripError> {
    if request_type != 0 {
        Some(GripError::InvalidRequestType)
    } else if uri is Null {
        Some(GripError::InvalidUri)
    } else if uri is NotUtf8 {
        Some(GripError::UriNotUtf8)
    } else if user_data is None {
        Some(GripError::InvalidUserData)
    } else if !uri_ok(uri->Text_0@) {
        Some(GripError::UriParseError)
    } else {
        None
    }
}

/// Validates the foreign inputs and builds the typed request plus captured
/// callback.  Exactly the inputs `validation_error` clears are accepted;
/// everything else is rejected with that error before it can reach the
/// queue.
pub fn build_request(
    forward_id: isize,
    request_type: isize,
    uri: ForeignText,
    handler: usize,
    user_data: Option<Vec<u8>>,
) -> (r: Result<(Request, PendingCallback), GripError>)
    ensures
        validation_error(request_type, uri, user_data) matches Some(e) ==> r == Err::<
            (Request, PendingCallback),
            GripError,
        >(e),
        validation_error(request_type, uri, user_data) is None ==> ({
            &&& r matches Ok(p)
            &&& p.0.id == forward_id
            &&& p.0.http_type is Get
            &&& uri matches ForeignText::Text(u) && p.0.uri == u
            &&& p.0.wf()
            &&& p.1.handler == handler
            &&& user_data matches Some(d) && p.1.user_data == d
        }),
{
    if request_type != 0 {
        return Err(GripError::InvalidRequestType);
    }
    let text = match uri {
        ForeignText::Null => {
            return Err(GripError::InvalidUri);
        },
        ForeignText::NotUtf8 => {
            return Err(GripError::UriNotUtf8);
        },
        ForeignText::Text(text) => text,
    };
    let data = match user_data {
        None => {
            return Err(GripError::InvalidUserData);
        },
        Some(data) => data,
    };
    if !parse_uri_ok(text.as_str()) {
        return Err(GripError::UriParseError);
    }
    Ok(
        (
            Request::new(forward_id, RequestType::Get, text),
            PendingCallback { handler, user_data: data },
        ),
    )
}

/// The outcome of one foreign submission: the sentinel for the caller, the
/// command bound for the worker when one was produced, and the diagnostic
/// for the error sink when the submission was rejected.
pub struct RequestOutcome {
    pub result: isize,
    pub command: Option<Command>,
    pub error: Option<GripError>,
}

/// The caller-facing boundary of a submission.  Invalid input is rejected
/// synchronously with its diagnostic and the `INVALID_CELL` sentinel, and
/// never reaches the queue; a submission racing with shutdown is likewise
/// refused; an accepted submission yields sentinel 1 and the `Submit`
/// command that carries the validated request and captured callback.
pub fn grip_request(
    queue: &mut Queue,
    forward_id: isize,
    uri: ForeignText,
    request_type: isize,
    handler: usize,
    user_data: Option<Vec<u8>>,
) -> (out: RequestOutcome)
    ensures
        final(queue).is_stopped() == old(queue).is_stopped(),
        validation_error(request_type, uri, user_data) matches Some(e) ==> (out.result
            == INVALID_CELL && out.command is None && out.error == Some(e)),
        validation_error(request_type, uri, user_data) is None && old(queue).is_stopped() ==> (
        out.result == INVALID_CELL && out.command is None && out.error == Some(
            GripError::ShutdownRace,
        )),
        validation_error(request_type, uri, user_data) is None && !old(queue).is_stopped() ==> ({
            &&& out.result == 1
            &&& out.error is None
            &&& out.command matches Some(cmd)
            &&& cmd matches Command::Submit(req, cb)
            &&& req.id == forward_id
            &&& req.http_type is Get
            &&& uri matches ForeignText::Text(u) && req.uri == u
            &&& req.wf()
            &&& cb.handler == handler
            &&& user_data matches Some(d) && cb.user_data == d
        }),
{
    let built = build_request(forward_id, request_type, uri, handler, user_data);
    let (request, callback) = match built {
        Err(e) => {
            return RequestOutcome { result: INVALID_CELL, command: None, error: Some(e) };
        },
        Ok(p) => p,
    };
    match queue.send_request(request, callback) {
        Err(SubmitError::ShutdownRace) => RequestOutcome {
            result: INVALID_CELL,
            command: None,
            error: Some(GripError::ShutdownRace),
        },
        Ok(cmd) => RequestOutcome { result: 1, command: Some(cmd), error: None },
    }
}

/// One drained completion made deliverable: the callback token, the
/// originating correlation id round-tripped unchanged, the handle freshly
/// minted for the response, and the captured payload delivered byte for
/// byte.
pub struct CallbackInvocation {
    pub handler: usize,
    pub forward_handle: isize,
    pub response_handle: usize,
    pub user_data: Vec<u8>,
}

/// Turns a completion into the single callback invocation it is owed.  The
/// response is published under a handle that aliases no other live handle;
/// the shell invokes the callable with these values and then revokes the
/// handle with `HandleTable::remove_with_id` the instant it returns.
pub fn prepare_callback(
    responses_handles: &mut HandleTable<Response>,
    completion: Completion,
) -> (inv: CallbackInvocation)
    requires
        old(responses_handles).wf(),
    ensures
        final(responses_handles).wf(),
        inv.handler == completion.callback.handler,
        inv.forward_handle == completion.response.base_request.id,
        inv.user_data == completion.callback.user_data,
        !old(responses_handles)@.dom().contains(inv.response_handle as int),
        final(responses_handles)@ == old(responses_handles)@.insert(
            inv.response_handle as int,
            completion.response,
        ),
{
    let Completion { response, callback } = completion;
    let forward_handle = response.base_request.id;
    let response_handle = responses_handles.insert_with_unique_id(response);
    CallbackInvocation {
        handler: callback.handler,
        forward_handle,
        response_handle,
        user_data: callback.user_data,
    }
}

/// Everything the host's boundary operations work over: the queue, the
/// handle table for in-flight responses, and the drain settings.  Created
/// by one initialization call, passed into every boundary operation, and
/// destroyed by one explicit shutdown — no implicit global lifecycle.
pub struct Context {
    pub global_queue: Queue,
    pub responses_handles: HandleTable<Response>,
    pub number_of_dns_threads: usize,
    pub callbacks_per_frame: usize,
    pub microseconds_delay_between_attempts: usize,
}

impl Context {
    pub open spec fn wf(&self) -> bool {
        self.responses_handles.wf()
    }
}

/// Builds the context from the configuration texts.  Initialization fails
/// fast — before any request can be submitted — unless every setting is
/// present and integer-parseable and the worker concurrency is positive;
/// on success the queue is running, no handle is live, and the drain
/// settings are exactly the parsed values.
pub fn grip_init(
    dns_section_present: bool,
    queue_section_present: bool,
    number_of_dns_threads: Option<&str>,
    callbacks_per_frame: Option<&str>,
    microseconds_delay_between_attempts: Option<&str>,
) -> (r: Result<Context, InitError>)
    ensures
        config_error(
            dns_section_present,
            queue_section_present,
            number_of_dns_threads,
            callbacks_per_frame,
            microseconds_delay_between_attempts,
        ) matches Some(e) ==> r == Err::<Context, InitError>(e),
        config_error(
            dns_section_present,
            queue_section_present,
            number_of_dns_threads,
            callbacks_per_frame,
            microseconds_delay_between_attempts,
        ) is None && parsed(number_of_dns_threads->0) == 0 ==> r == Err::<
            Context,
            InitError,
        >(InitError::InvalidConcurrency),
        config_error(
            dns_section_present,
            queue_section_present,
            number_of_dns_threads,
            callbacks_per_frame,
            microseconds_delay_between_attempts,
        ) is None && parsed(number_of_dns_threads->0) > 0 ==> ({
            &&& r matches Ok(ctx)
            &&& ctx.wf()
            &&& !ctx.global_queue.is_stopped()
            &&& ctx.responses_handles@ == Map::<int, Response>::empty()
            &&& ctx.number_of_dns_threads == parsed(number_of_dns_threads->0)
            &&& callbacks_per_frame matches Some(b) && ctx.callbacks_per_frame == parsed(b)
            &&& microseconds_delay_between_attempts matches Some(c)
                && ctx.microseconds_delay_between_attempts == parsed(c)
        }),
{
    let cfg = match load_config(
        dns_section_present,
        queue_section_present,
        number_of_dns_threads,
        callbacks_per_frame,
        microseconds_delay_between_attempts,
    ) {
        Err(e) => {
            return Err(e);
        },
        Ok(cfg) => cfg,
    };
    let global_queue = match Queue::new(cfg.number_of_dns_threads) {
        Err(e) => {
            return Err(e);
        },
        Ok(q) => q,
    };
    Ok(
        Context {
            global_queue,
            responses_handles: HandleTable::new(),
            number_of_dns_threads: cfg.number_of_dns_threads,
            callbacks_per_frame: cfg.callbacks_per_frame,
            microseconds_delay_between_attempts: cfg.microseconds_delay_between_attempts,
        },
    )
}

} // verus!
