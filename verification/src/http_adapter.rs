//! Adapting an HTTP handler to Lambda invocations.
//!
//! Each invocation becomes an HTTP request that carries the X-Ray trace id of
//! its own context (in concurrent mode the process environment cannot carry
//! it), and the handler's response is turned back into a Lambda response in
//! two stages: first the handler's future, then the response conversion.

use vstd::prelude::*;
use core::marker::PhantomData;

verus! {

/// The header that carries the X-Ray trace id.
pub open spec fn xray_header_name() -> Seq<char> {
    "x-amzn-trace-id"@
}

/// A character `http::HeaderValue::from_str` accepts: a tab, or any character
/// from space up except DEL (each byte of a non-ASCII character is accepted).
pub open spec fn is_header_value_char(c: char) -> bool {
    c == '\t' || (c as int >= 32 && c as int != 127)
}

/// Whether `http::HeaderValue::from_str` accepts a string.
pub open spec fn spec_header_value_valid(s: Seq<char>) -> bool {
    forall|i: int| 0 <= i < s.len() ==> is_header_value_char(#[trigger] s[i])
}

/// Whether a string is a valid header value, checked by
/// `http::HeaderValue::from_str`.
///
/// Trusted: the `http` source accepts a string exactly when each of its UTF-8
/// bytes is a tab or at least 32 and not 127; at the level of characters that
/// is the statement of the contract.
#[verifier::external_body]
fn header_value_accepts(s: &str) -> (r: bool)
    ensures
        r == spec_header_value_valid(s@),
{
    http::HeaderValue::from_str(s).is_ok()
}

/// The value of the `x-amzn-trace-id` header for an invocation: its trace id,
/// when it has one that is a valid header value.
pub open spec fn spec_xray_header_value(trace_id: Option<Seq<char>>) -> Option<Seq<char>> {
    match trace_id {
        Some(t) => if spec_header_value_valid(t) { Some(t) } else { None },
        None => None,
    }
}

/// The value to set the `x-amzn-trace-id` header of the request to, from the
/// X-Ray trace id of the invocation's context. `None` leaves the header alone.
pub fn xray_header_value(trace_id: Option<&str>) -> (r: Option<String>)
    ensures
        crate::concurrency::opt_string_view(r) == spec_xray_header_value(crate::concurrency::opt_str_view(trace_id)),
{
    match trace_id {
        Some(t) => if header_value_accepts(t) { Some(t.to_owned()) } else { None },
        None => None,
    }
}

/// The error a Lambda function reports.
#[derive(Debug, Clone)]
pub struct Diagnostic {
    pub error_type: String,
    pub error_message: String,
}

/// A failure to collect the body of a handler's response.
#[derive(Debug, Clone)]
pub struct BodyConversionError {
    pub error_type: String,
    pub error_message: String,
}

/// The result of the runtime adapter for a converted response: a body
/// conversion failure becomes the function's error, carrying its type and
/// message; otherwise the response goes through.
pub fn runtime_response_result<T>(conversion_error: Option<BodyConversionError>, response: T) -> (r: Result<T, Diagnostic>)
    ensures
        conversion_error is None ==> r == Ok::<T, Diagnostic>(response),
        conversion_error matches Some(e) ==> r matches Err(d)
            && d.error_type@ == e.error_type@ && d.error_message@ == e.error_message@,
{
    match conversion_error {
        Some(e) => Err(Diagnostic { error_type: e.error_type, error_message: e.error_message }),
        None => Ok(response),
    }
}

/// The two stages of turning a handler's response into a Lambda response:
/// waiting for the handler (`Request`), then converting its response
/// (`Response`); both keep the origin of the request.
pub enum TransformResponse<O, Q, P> {
    Request(O, Q),
    Response(O, P),
}

impl<O, Q, P> TransformResponse<O, Q, P> {
    /// The origin of the request.
    pub fn origin(&self) -> (r: &O)
        ensures
            *r == (match *self {
                TransformResponse::Request(o, _) => o,
                TransformResponse::Response(o, _) => o,
            }),
    {
        match self {
            TransformResponse::Request(o, _) => o,
            TransformResponse::Response(o, _) => o,
        }
    }

    /// Moves on once the handler has answered: the conversion of its response
    /// takes over, for the same origin.
    pub fn into_response_stage(self, conversion: P) -> (r: Self)
        requires
            self is Request,
        ensures
            r == TransformResponse::<O, Q, P>::Response(self->Request_0, conversion),
    {
        match self {
            TransformResponse::Request(o, _) => TransformResponse::Response(o, conversion),
            TransformResponse::Response(o, _) => TransformResponse::Response(o, conversion),
        }
    }
}

/// Wraps an HTTP service so that it serves Lambda invocations. The adapter
/// keeps the error type of the wrapped service.
pub struct Adapter<R, S> {
    service: S,
    _phantom_data: PhantomData<R>,
}

impl<R, S> Adapter<R, S> {
    /// The wrapped service.
    pub closed spec fn spec_service(&self) -> S {
        self.service
    }

    /// Wraps `service`.
    pub fn from(service: S) -> (r: Self)
        ensures
            r.spec_service() == service,
    {
        Adapter { service, _phantom_data: PhantomData }
    }

    /// The wrapped service, to be called for an invocation.
    pub fn service_mut(&mut self) -> (r: &mut S)
        ensures
            *r == old(self).spec_service(),
            final(self).spec_service() == *final(r),
    {
        &mut self.service
    }
}

/// Law: a trace id made only of tabs and of characters from space up other
/// than DEL is propagated unchanged, whatever else it holds (`;`, `=`, ...);
/// one holding any other character is not propagated; and without a trace id
/// the header is left alone.
pub proof fn lemma_xray_trace_id_propagated(t: Seq<char>)
    ensures
        (forall|i: int| 0 <= i < t.len() ==> (#[trigger] t[i] == '\t' || (t[i] as int >= 32 && t[i] as int != 127)))
            ==> spec_xray_header_value(Some(t)) == Some(t),
        (exists|i: int| 0 <= i < t.len() && !(#[trigger] t[i] == '\t' || (t[i] as int >= 32 && t[i] as int != 127)))
            ==> spec_xray_header_value(Some(t)) is None,
        spec_xray_header_value(None) is None,
{
}

} // verus!
