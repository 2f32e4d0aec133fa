//! Failures that must not leak: the caller is told that something failed and
//! under which correlation id; what failed goes to the log under that id.

use crate::status::Status;
use vstd::prelude::*;
use vstd::string::StringExecFns;

verus! {

/// What the caller is told before the correlation id.
pub const INTERNAL_ERROR_PREFIX: &'static str = "internal error (correlation id: ";

/// What the caller is told after the correlation id.
pub const INTERNAL_ERROR_SUFFIX: &'static str = ")";

/// The response to a failure, and the entry that goes to the log with it.
#[derive(Debug, PartialEq, Eq)]
pub struct ErrorResponse {
    /// Always [`Status::InternalServerError`].
    pub status: Status,
    /// What the caller is told: a fixed message with the correlation id.
    pub body: String,
    /// Log only: where the failure happened.
    pub context: String,
    /// Log only: what failed, as far as this library knows it.
    pub detail: String,
    /// The id that ties the response to the log entry.
    pub correlation_id: String,
}

/// What an [`ErrorResponse`] holds.
pub struct ErrorResponseModel {
    pub status: Status,
    pub body: Seq<char>,
    pub context: Seq<char>,
    pub detail: Seq<char>,
    pub correlation_id: Seq<char>,
}

impl View for ErrorResponse {
    type V = ErrorResponseModel;

    open spec fn view(&self) -> ErrorResponseModel {
        ErrorResponseModel {
            status: self.status,
            body: self.body@,
            context: self.context@,
            detail: self.detail@,
            correlation_id: self.correlation_id@,
        }
    }
}

/// A lower-case hexadecimal digit.
pub open spec fn is_lower_hex(c: char) -> bool {
    ('0' <= c <= '9') || ('a' <= c <= 'f')
}

/// Whether `i` is where a hyphen stands in a correlation id.
pub open spec fn is_hyphen_position(i: int) -> bool {
    i == 8 || i == 13 || i == 18 || i == 23
}

/// The shape of a correlation id: 32 lower-case hexadecimal digits in groups
/// of 8, 4, 4, 4 and 12, with a hyphen between the groups.
pub open spec fn is_correlation_id(id: Seq<char>) -> bool {
    &&& id.len() == 36
    &&& forall|i: int|
        0 <= i < 36 ==> if is_hyphen_position(i) {
            #[trigger] id[i] == '-'
        } else {
            is_lower_hex(id[i])
        }
}

/// A fresh correlation id.
///
/// Trusted: the body calls `uuid::Uuid::new_v4` and prints the result with
/// the type's `Display`. The id is random, so the contract states only the
/// shape that `Display` gives every `Uuid`: the lower-case hyphenated form.
/// The random bits come from the operating system; the call panics where
/// that source cannot be had.
#[verifier::external_body]
pub(crate) fn new_correlation_id() -> (id: String)
    ensures
        is_correlation_id(id@),
{
    uuid::Uuid::new_v4().to_string()
}

/// What the caller is told about a failure with the given correlation id.
pub open spec fn spec_error_body(correlation_id: Seq<char>) -> Seq<char> {
    INTERNAL_ERROR_PREFIX@ + correlation_id + INTERNAL_ERROR_SUFFIX@
}

/// The response to a failure with the given correlation id.
pub open spec fn spec_error_response(
    context: Seq<char>,
    detail: Seq<char>,
    correlation_id: Seq<char>,
) -> ErrorResponseModel {
    ErrorResponseModel {
        status: Status::InternalServerError,
        body: spec_error_body(correlation_id),
        context,
        detail,
        correlation_id,
    }
}

/// The response to a failure, under a correlation id that the caller made.
pub fn error_response(context: &str, detail: &str, correlation_id: String) -> (response:
    ErrorResponse)
    ensures
        response@ == spec_error_response(context@, detail@, correlation_id@),
{
    let body = String::from_str(INTERNAL_ERROR_PREFIX).concat(correlation_id.as_str()).concat(
        INTERNAL_ERROR_SUFFIX,
    );
    ErrorResponse {
        status: Status::InternalServerError,
        body,
        context: String::from_str(context),
        detail: String::from_str(detail),
        correlation_id,
    }
}

/// The response to a failure, under a fresh correlation id: status 500, a
/// body that names only the id, and the context and detail for the log.
pub fn log_and_response(context: &str, detail: &str) -> (response: ErrorResponse)
    ensures
        is_correlation_id(response@.correlation_id),
        response@ == spec_error_response(context@, detail@, response@.correlation_id),
{
    error_response(context, detail, new_correlation_id())
}

/// The response to a failure of the store: there is no detail to it but
/// what the store said, which the caller of the store has.
pub open spec fn spec_store_failure(context: Seq<char>, correlation_id: Seq<char>)
    -> ErrorResponseModel {
    spec_error_response(context, Seq::empty(), correlation_id)
}

/// The response to a failure of the store, under a fresh correlation id.
pub fn store_failure(context: &str) -> (response: ErrorResponse)
    ensures
        is_correlation_id(response@.correlation_id),
        response@ == spec_store_failure(context@, response@.correlation_id),
{
    proof {
        reveal_strlit("");
        assert(""@ =~= Seq::<char>::empty());
    }
    log_and_response(context, "")
}

} // verus!
