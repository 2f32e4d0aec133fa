//! Taking in one reading: decode the body, check the device id, label the
//! domain, derive the series key, and append one sample.
//!
//! The sample is stamped with the time of arrival; the timestamp inside the
//! reading is decoded and not used.

use crate::consts::errors::{
    ERR_DECODE_PROTOBUF, ERR_INVALID_UTF8_DEVICE_ID, ERR_REDIS_CONN, ERR_REDIS_WRITE,
};
use crate::error_utils::{
    is_correlation_id, log_and_response, spec_error_response, ErrorResponse, ErrorResponseModel,
};
use crate::sensor::{domain_label, spec_decode, spec_domain_label, SensorData, SensorDataModel};
use crate::status::Status;
use crate::store::{
    CommandModel, ReplyModel, Sample, SampleModel, Step, StepModel, StoreCommand, StoreReply,
};
use crate::text::text_from_utf8;
use crate::wire::DecodeError;
use vstd::prelude::*;
use vstd::string::StringExecFns;
use vstd::utf8::{decode_utf8, valid_utf8};

verus! {

/// What stands between the parts of a series key.
pub const KEY_SEPARATOR: &'static str = ":";

/// Why a body gives no sample.
#[derive(Clone, Copy, Debug, PartialEq, Eq, Structural)]
pub enum IngestError {
    /// The body is not a well-formed reading.
    Decode(DecodeError),
    /// The reading's device id is not UTF-8 text.
    InvalidDeviceId,
}

impl IngestError {
    /// Where the log says the failure happened.
    pub open spec fn spec_context(self) -> Seq<char> {
        match self {
            IngestError::Decode(_) => ERR_DECODE_PROTOBUF@,
            IngestError::InvalidDeviceId => ERR_INVALID_UTF8_DEVICE_ID@,
        }
    }

    /// Where the log says the failure happened.
    pub fn context(self) -> (text: &'static str)
        ensures
            text@ == self.spec_context(),
    {
        match self {
            IngestError::Decode(_) => ERR_DECODE_PROTOBUF,
            IngestError::InvalidDeviceId => ERR_INVALID_UTF8_DEVICE_ID,
        }
    }

    /// What the log says failed.
    pub open spec fn spec_detail(self) -> Seq<char> {
        match self {
            IngestError::Decode(e) => e.spec_description(),
            IngestError::InvalidDeviceId => "invalid utf-8 sequence"@,
        }
    }

    /// What the log says failed.
    pub fn detail(self) -> (text: &'static str)
        ensures
            text@ == self.spec_detail(),
    {
        match self {
            IngestError::Decode(e) => e.description(),
            IngestError::InvalidDeviceId => "invalid utf-8 sequence",
        }
    }
}

/// The key of the series for a device and a domain: the namespace prefix,
/// the device id and the domain's label, with a colon between them.
pub open spec fn spec_series_key(prefix: Seq<char>, device_id: Seq<char>, label: Seq<char>) -> Seq<
    char,
> {
    prefix + KEY_SEPARATOR@ + device_id + KEY_SEPARATOR@ + label
}

/// The key of the series for a device and a domain.
pub fn series_key(prefix: &str, device_id: &str, label: &str) -> (key: String)
    ensures
        key@ == spec_series_key(prefix@, device_id@, label@),
{
    String::from_str(prefix).concat(KEY_SEPARATOR).concat(device_id).concat(KEY_SEPARATOR).concat(
        label,
    )
}

/// The sample that a reading arriving at `now` becomes: keyed by prefix,
/// device and domain label, stamped `now`, labelled with device and domain.
/// None where the device id is not UTF-8.
pub open spec fn spec_sample(prefix: Seq<char>, reading: SensorDataModel, now: i64) -> Result<
    SampleModel,
    IngestError,
> {
    if !valid_utf8(reading.device_id) {
        Err(IngestError::InvalidDeviceId)
    } else {
        let device_id = decode_utf8(reading.device_id);
        let label = spec_domain_label(reading.domain);
        Ok(
            SampleModel {
                key: spec_series_key(prefix, device_id, label),
                timestamp: now,
                value_bits: reading.datum_bits,
                device_id,
                domain: label,
            },
        )
    }
}

/// The sample that a body arriving at `now` becomes, or why it becomes none.
pub open spec fn spec_plan(prefix: Seq<char>, body: Seq<u8>, now: i64) -> Result<
    SampleModel,
    IngestError,
> {
    match spec_decode(body) {
        Err(e) => Err(IngestError::Decode(e)),
        Ok(reading) => spec_sample(prefix, reading, now),
    }
}

/// The sample that a reading arriving at `now` becomes.
pub fn sample_from_reading(prefix: &str, reading: &SensorData, now: i64) -> (r: Result<
    Sample,
    IngestError,
>)
    ensures
        match spec_sample(prefix@, reading@, now) {
            Ok(sample) => r matches Ok(made) && made@ == sample,
            Err(e) => r matches Err(error) && error == e,
        },
{
    let device_id = match text_from_utf8(reading.device_id.as_slice()) {
        Some(text) => text,
        None => { return Err(IngestError::InvalidDeviceId); },
    };
    let label = domain_label(reading.domain);
    let key = series_key(prefix, device_id.as_str(), label);
    Ok(
        Sample {
            key,
            timestamp: now,
            value_bits: reading.datum_bits,
            device_id,
            domain: String::from_str(label),
        },
    )
}

/// The sample that a body arriving at `now` becomes, or why it becomes none.
pub fn plan_ingest(prefix: &str, body: &[u8], now: i64) -> (r: Result<Sample, IngestError>)
    ensures
        match spec_plan(prefix@, body@, now) {
            Ok(sample) => r matches Ok(made) && made@ == sample,
            Err(e) => r matches Err(error) && error == e,
        },
{
    match SensorData::decode(body) {
        Err(e) => Err(IngestError::Decode(e)),
        Ok(reading) => sample_from_reading(prefix, &reading, now),
    }
}

/// Where a request stands while its one command is out.
#[derive(Clone, Copy, Debug, PartialEq, Eq, Structural)]
pub enum IngestState {
    /// The append was sent.
    Writing,
}

impl View for IngestState {
    type V = IngestState;

    open spec fn view(&self) -> IngestState {
        *self
    }
}

/// How taking in a reading ended.
#[derive(Debug, PartialEq, Eq)]
pub enum IngestOutcome {
    /// The sample was appended: no content to answer with.
    Stored,
    /// Nothing was appended, or the append failed.
    Failed(ErrorResponse),
}

/// What an [`IngestOutcome`] holds.
pub enum IngestOutcomeModel {
    Stored,
    Failed(ErrorResponseModel),
}

impl View for IngestOutcome {
    type V = IngestOutcomeModel;

    open spec fn view(&self) -> IngestOutcomeModel {
        match *self {
            IngestOutcome::Stored => IngestOutcomeModel::Stored,
            IngestOutcome::Failed(response) => IngestOutcomeModel::Failed(response@),
        }
    }
}

impl IngestOutcomeModel {
    /// The status the outcome is answered with.
    pub open spec fn status(self) -> Status {
        match self {
            IngestOutcomeModel::Stored => Status::NoContent,
            IngestOutcomeModel::Failed(response) => response.status,
        }
    }
}

impl IngestOutcome {
    /// The status the outcome is answered with.
    pub fn status(&self) -> (status: Status)
        ensures
            status == self@.status(),
    {
        match self {
            IngestOutcome::Stored => Status::NoContent,
            IngestOutcome::Failed(response) => response.status,
        }
    }
}

/// The first step for a body arriving at `now`: the append of its sample,
/// or, for a body that gives none, the failure under the given correlation
/// id, with no command at all.
pub open spec fn spec_ingest(prefix: Seq<char>, body: Seq<u8>, now: i64, correlation_id: Seq<char>)
    -> StepModel<IngestState, IngestOutcomeModel> {
    match spec_plan(prefix, body, now) {
        Ok(sample) => StepModel::Call {
            command: CommandModel::Append(sample),
            state: IngestState::Writing,
        },
        Err(e) => StepModel::Finish(
            IngestOutcomeModel::Failed(
                spec_error_response(e.spec_context(), e.spec_detail(), correlation_id),
            ),
        ),
    }
}

/// The step after the append's reply: stored, unless the store could not be
/// reached or refused the append.
pub open spec fn spec_ingest_resume(state: IngestState, reply: ReplyModel, correlation_id: Seq<char>)
    -> StepModel<IngestState, IngestOutcomeModel> {
    match reply {
        ReplyModel::NoConnection => StepModel::Finish(
            IngestOutcomeModel::Failed(
                spec_error_response(ERR_REDIS_CONN@, Seq::empty(), correlation_id),
            ),
        ),
        ReplyModel::CommandFailed => StepModel::Finish(
            IngestOutcomeModel::Failed(
                spec_error_response(ERR_REDIS_WRITE@, Seq::empty(), correlation_id),
            ),
        ),
        _ => StepModel::Finish(IngestOutcomeModel::Stored),
    }
}

/// The time now, in Unix seconds.
///
/// Trusted: the body calls `chrono::Utc::now` and `DateTime::timestamp`.
/// Nothing is stated of the result: it is whatever the clock says. The call
/// panics where the system's clock stands before 1970.
#[verifier::external_body]
fn unix_now() -> i64 {
    chrono::Utc::now().timestamp()
}

/// Takes in one request body. A body that decodes to a reading with a
/// textual device id gives the append of one sample, stamped with the time
/// of arrival; any other body gives the failure, and no command.
pub fn ingest(prefix: &str, body: &[u8]) -> (step: Step<IngestState, IngestOutcome>)
    ensures
        match step@ {
            StepModel::Call { command: CommandModel::Append(sample), state } => step@
                == spec_ingest(prefix@, body@, sample.timestamp, Seq::empty()),
            StepModel::Finish(IngestOutcomeModel::Failed(response)) => step@ == spec_ingest(
                prefix@,
                body@,
                0,
                response.correlation_id,
            ) && is_correlation_id(response.correlation_id),
            _ => false,
        },
{
    let now = unix_now();
    match plan_ingest(prefix, body, now) {
        Ok(sample) => Step::Call { command: StoreCommand::Append(sample), state: IngestState::Writing },
        Err(e) => Step::Finish(IngestOutcome::Failed(log_and_response(e.context(), e.detail()))),
    }
}

/// Ends the request when the append's reply is in.
pub fn ingest_resume(state: IngestState, reply: StoreReply) -> (step: Step<
    IngestState,
    IngestOutcome,
>)
    ensures
        match step@ {
            StepModel::Finish(IngestOutcomeModel::Stored) => step@ == spec_ingest_resume(
                state,
                reply@,
                Seq::empty(),
            ),
            StepModel::Finish(IngestOutcomeModel::Failed(response)) => step@
                == spec_ingest_resume(state, reply@, response.correlation_id) && is_correlation_id(
                response.correlation_id,
            ),
            _ => false,
        },
{
    proof {
        reveal_strlit("");
        assert(""@ =~= Seq::<char>::empty());
    }
    match reply {
        StoreReply::NoConnection => Step::Finish(
            IngestOutcome::Failed(log_and_response(ERR_REDIS_CONN, "")),
        ),
        StoreReply::CommandFailed => Step::Finish(
            IngestOutcome::Failed(log_and_response(ERR_REDIS_WRITE, "")),
        ),
        _ => Step::Finish(IngestOutcome::Stored),
    }
}

} // verus!
