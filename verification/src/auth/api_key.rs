//! API keys: opaque credentials of the form prefix plus 48 random bytes in
//! URL-safe base64 without padding.
//!
//! A key's prefix tells a reader which scope it was issued for and decides
//! nothing: a key is accepted for a scope exactly when the store holds a
//! record for it in that scope's namespace.

use crate::consts::errors::{ERR_COUNT_ADMIN_KEYS, ERR_ISSUE_KEY};
use crate::error_utils::{
    is_correlation_id, spec_store_failure, store_failure, ErrorResponse, ErrorResponseModel,
};
use crate::status::Status;
use crate::store::{CommandModel, ReplyModel, Step, StepModel, StoreCommand, StoreReply};
use crate::text::{ascii_bytes, ascii_text, is_ascii_bytes, text_from_ascii};
use vstd::prelude::*;
use vstd::slice::slice_subrange;
use vstd::string::StringExecFns;
use vstd::utf8::{is_ascii_chars, is_ascii_chars_encode_utf8};

verus! {

/// The header that carries the credential.
pub const AUTH_HEADER: &'static str = "Authorization";

/// The scheme word that must stand before the credential.
pub const AUTH_SCHEME: &'static str = "SignalStash";

/// Namespace of the records of ordinary keys.
pub const API_KEY_PREFIX: &'static str = "api_key:";

/// Namespace of the records of admin keys.
pub const API_ADMIN_KEY_PREFIX: &'static str = "api_admin_key:";

/// The set that lists every ordinary key.
pub const ALL_API_KEYS: &'static str = "all_api_keys";

/// The set that lists every admin key.
pub const ALL_ADMIN_KEYS: &'static str = "all_admin_keys";

/// What an ordinary key starts with.
pub const API_KEY_FORMAT_PREFIX: &'static str = "sk-sigstash-";

/// What an admin key starts with.
pub const ADMIN_KEY_FORMAT_PREFIX: &'static str = "sk-sigstash-admin-";

/// The owner recorded for every admin key.
pub const ADMIN_OWNER: &'static str = "admin";

/// How many random bytes go into a key.
pub const KEY_ENTROPY_BYTES: usize = 48;

/// What a credential may be used for.
#[derive(Clone, Copy, Debug, PartialEq, Eq, Structural)]
pub enum Scope {
    /// The data plane: sending readings.
    Ordinary,
    /// Managing ordinary keys.
    Admin,
}

impl View for Scope {
    type V = Scope;

    open spec fn view(&self) -> Scope {
        *self
    }
}

impl Scope {
    /// The namespace of this scope's records.
    pub open spec fn spec_namespace(self) -> Seq<char> {
        match self {
            Scope::Ordinary => API_KEY_PREFIX@,
            Scope::Admin => API_ADMIN_KEY_PREFIX@,
        }
    }

    /// The namespace of this scope's records.
    pub fn namespace(self) -> (text: &'static str)
        ensures
            text@ == self.spec_namespace(),
    {
        match self {
            Scope::Ordinary => API_KEY_PREFIX,
            Scope::Admin => API_ADMIN_KEY_PREFIX,
        }
    }

    /// The set that lists this scope's keys.
    pub open spec fn spec_key_set(self) -> Seq<char> {
        match self {
            Scope::Ordinary => ALL_API_KEYS@,
            Scope::Admin => ALL_ADMIN_KEYS@,
        }
    }

    /// The set that lists this scope's keys.
    pub fn key_set(self) -> (text: &'static str)
        ensures
            text@ == self.spec_key_set(),
    {
        match self {
            Scope::Ordinary => ALL_API_KEYS,
            Scope::Admin => ALL_ADMIN_KEYS,
        }
    }

    /// What this scope's keys start with.
    pub open spec fn spec_format_prefix(self) -> Seq<char> {
        match self {
            Scope::Ordinary => API_KEY_FORMAT_PREFIX@,
            Scope::Admin => ADMIN_KEY_FORMAT_PREFIX@,
        }
    }

    /// What this scope's keys start with.
    pub fn format_prefix(self) -> (text: &'static str)
        ensures
            text@ == self.spec_format_prefix(),
    {
        match self {
            Scope::Ordinary => API_KEY_FORMAT_PREFIX,
            Scope::Admin => ADMIN_KEY_FORMAT_PREFIX,
        }
    }
}

/// The key of a credential's record: the scope's namespace, then the
/// credential.
pub open spec fn spec_record_key(scope: Scope, credential: Seq<char>) -> Seq<char> {
    scope.spec_namespace() + credential
}

/// The key of a credential's record.
pub fn record_key(scope: Scope, credential: &str) -> (key: String)
    ensures
        key@ == spec_record_key(scope, credential@),
{
    String::from_str(scope.namespace()).concat(credential)
}

/// URL-safe base64 without padding of `bytes`, as the `base64` crate's
/// `encode_config` gives it under `URL_SAFE_NO_PAD`.
pub uninterp spec fn base64_url_no_pad(bytes: Seq<u8>) -> Seq<char>;

/// A character of the URL-safe base64 alphabet.
pub open spec fn is_url_safe_char(c: char) -> bool {
    ('A' <= c <= 'Z') || ('a' <= c <= 'z') || ('0' <= c <= '9') || c == '-' || c == '_'
}

/// Whether every character is of the URL-safe base64 alphabet.
pub open spec fn is_url_safe(text: Seq<char>) -> bool {
    forall|i: int| 0 <= i < text.len() ==> is_url_safe_char(#[trigger] text[i])
}

/// How many characters encode `len` bytes without padding: four for each
/// three bytes, and two or three for one or two bytes left over.
pub open spec fn base64_len(len: nat) -> nat {
    len / 3 * 4 + if len % 3 == 0 {
        0
    } else {
        len % 3 + 1
    }
}

/// `len` bytes from the thread's random number generator.
///
/// Trusted: the body calls `rand::thread_rng` and `RngCore::fill_bytes`,
/// which fills the whole buffer. The bytes are random, so the contract
/// states only how many there are. The generator is seeded from the
/// operating system and panics where that source cannot be had.
#[verifier::external_body]
fn random_bytes(len: usize) -> (bytes: Vec<u8>)
    ensures
        bytes@.len() == len,
{
    let mut buffer = vec![0u8; len];
    rand::RngCore::fill_bytes(&mut rand::thread_rng(), &mut buffer);
    buffer
}

/// The bytes in URL-safe base64 without padding.
///
/// Trusted: the body calls `base64::encode_config` with
/// `base64::URL_SAFE_NO_PAD`. The contract names the result, and states of
/// it what the crate's `encoded_size` and its URL-safe table show: the
/// length, and that every character is a letter, a digit, `-` or `_`.
/// (The call panics where the encoded length does not fit `usize`; no slice
/// is that long.)
#[verifier::external_body]
fn encode_url_safe_no_pad(bytes: &[u8]) -> (text: String)
    ensures
        text@ == base64_url_no_pad(bytes@),
        text@.len() == base64_len(bytes@.len()),
        is_url_safe(text@),
{
    base64::encode_config(bytes, base64::URL_SAFE_NO_PAD)
}

/// The shape of a key issued under `prefix`: the prefix, then 64 characters
/// of the URL-safe alphabet that encode 48 bytes.
pub open spec fn is_api_key(prefix: Seq<char>, key: Seq<char>) -> bool {
    exists|entropy: Seq<u8>|
        {
            &&& entropy.len() == KEY_ENTROPY_BYTES
            &&& key == prefix + #[trigger] base64_url_no_pad(entropy)
            &&& base64_url_no_pad(entropy).len() == 64
            &&& is_url_safe(base64_url_no_pad(entropy))
        }
}

/// A key is its prefix and its random part, one after the other.
pub fn join_api_key(prefix: &str, random_part: &str) -> (key: String)
    ensures
        key@ == prefix@ + random_part@,
{
    String::from_str(prefix).concat(random_part)
}

/// The key that `entropy` gives under `prefix`.
pub fn api_key_from_entropy(prefix: &str, entropy: &[u8]) -> (key: String)
    ensures
        key@ == prefix@ + base64_url_no_pad(entropy@),
        key@.len() == prefix@.len() + base64_len(entropy@.len()),
        is_url_safe(key@.skip(prefix@.len() as int)),
        entropy@.len() == KEY_ENTROPY_BYTES ==> is_api_key(prefix@, key@),
{
    let random_part = encode_url_safe_no_pad(entropy);
    let key = join_api_key(prefix, random_part.as_str());
    assert(key@.skip(prefix@.len() as int) =~= random_part@);
    key
}

/// Generates a key under `prefix` from 48 fresh random bytes.
pub fn generate_api_key(prefix: &str) -> (key: String)
    ensures
        is_api_key(prefix@, key@),
        key@.len() == prefix@.len() + 64,
{
    let entropy = random_bytes(KEY_ENTROPY_BYTES);
    api_key_from_entropy(prefix, entropy.as_slice())
}

/// Why a request is turned away.
#[derive(Clone, Copy, Debug, PartialEq, Eq, Structural)]
pub enum Rejection {
    /// The request has no authorization header.
    MissingHeader,
    /// The header holds a byte that is no visible ASCII character.
    NotText,
    /// The header does not start with the scheme word and a space.
    WrongScheme,
    /// Nothing follows the scheme word and its space.
    MissingCredential,
    /// The store holds no record of the credential for the scope asked.
    UnknownCredential,
    /// The store could not be asked.
    StoreUnavailable,
}

impl Rejection {
    /// The status the rejection is answered with: 401, or 500 where the
    /// store could not be asked.
    pub open spec fn spec_status(self) -> Status {
        match self {
            Rejection::StoreUnavailable => Status::InternalServerError,
            _ => Status::Unauthorized,
        }
    }

    /// The status the rejection is answered with.
    #[verifier::when_used_as_spec(spec_status)]
    pub fn status(self) -> (status: Status)
        ensures
            status == self.spec_status(),
    {
        match self {
            Rejection::StoreUnavailable => Status::InternalServerError,
            _ => Status::Unauthorized,
        }
    }
}

/// A byte that may stand in a header read as text: a visible ASCII
/// character, a space or a tab.
pub open spec fn is_visible_ascii(byte: u8) -> bool {
    (32 <= byte < 127) || byte == 9
}

/// Whether a header value can be read as text.
pub open spec fn is_header_text(value: Seq<u8>) -> bool {
    forall|i: int| 0 <= i < value.len() ==> is_visible_ascii(#[trigger] value[i])
}

/// What a header value must start with: the scheme word and one space.
pub open spec fn scheme_prefix() -> Seq<u8> {
    ascii_bytes(AUTH_SCHEME@).push(32u8)
}

/// The credential that an authorization header carries: what follows the
/// scheme word and one space, in a header that is there and is text. A
/// header in which nothing follows them carries none.
pub open spec fn spec_extract(header: Option<Seq<u8>>) -> Result<Seq<char>, Rejection> {
    match header {
        None => Err(Rejection::MissingHeader),
        Some(value) => {
            if !is_header_text(value) {
                Err(Rejection::NotText)
            } else if !scheme_prefix().is_prefix_of(value) {
                Err(Rejection::WrongScheme)
            } else if value.len() == scheme_prefix().len() {
                Err(Rejection::MissingCredential)
            } else {
                Ok(ascii_text(value.skip(scheme_prefix().len() as int)))
            }
        },
    }
}

/// The header value that presents `credential`.
pub open spec fn spec_header_for(credential: Seq<char>) -> Seq<u8> {
    scheme_prefix() + ascii_bytes(credential)
}

/// Whether every byte of a header value can be read as text.
pub fn header_is_text(value: &[u8]) -> (text: bool)
    ensures
        text == is_header_text(value@),
{
    let mut i: usize = 0;
    while i < value.len()
        invariant
            i <= value.len(),
            forall|j: int| 0 <= j < i ==> is_visible_ascii(#[trigger] value@[j]),
        decreases value.len() - i,
    {
        let byte: u8 = value[i];
        if !((32 <= byte && byte < 127) || byte == 9) {
            return false;
        }
        i = i + 1;
    }
    true
}

/// The bytes of the scheme word.
fn scheme_bytes() -> (scheme: &'static [u8])
    ensures
        scheme@ == ascii_bytes(AUTH_SCHEME@),
        scheme@.len() == 11,
{
    proof {
        reveal_strlit("SignalStash");
    }
    let scheme = AUTH_SCHEME.as_bytes();
    assert(is_ascii_chars(AUTH_SCHEME@));
    assert(scheme@ =~= ascii_bytes(AUTH_SCHEME@)) by {
        is_ascii_chars_encode_utf8(AUTH_SCHEME@);
    }
    scheme
}

/// Where the credential starts in a header value that starts with the
/// scheme word and one space; `None` for any other value.
pub fn credential_start(value: &[u8]) -> (start: Option<usize>)
    ensures
        match start {
            Some(start) => scheme_prefix().is_prefix_of(value@) && start == scheme_prefix().len(),
            None => !scheme_prefix().is_prefix_of(value@),
        },
{
    let scheme = scheme_bytes();
    let n: usize = scheme.len();
    if value.len() <= n {
        return None;
    }
    let mut i: usize = 0;
    while i < n
        invariant
            i <= n,
            n == scheme@.len(),
            n < value.len(),
            scheme@ == ascii_bytes(AUTH_SCHEME@),
            forall|j: int| 0 <= j < i ==> value@[j] == scheme@[j],
        decreases n - i,
    {
        if value[i] != scheme[i] {
            assert(scheme_prefix()[i as int] == scheme@[i as int]);
            return None;
        }
        i = i + 1;
    }
    if value[n] != 32 {
        assert(scheme_prefix()[n as int] == 32u8);
        return None;
    }
    assert(scheme_prefix() =~= value@.subrange(0, n + 1));
    Some(n + 1)
}

/// Takes the credential out of an authorization header's value. The
/// credential it gives is never empty.
pub fn extract_api_key_from_header(header: Option<&[u8]>) -> (r: Result<String, Rejection>)
    ensures
        r matches Ok(found) ==> found@.len() > 0,
        match spec_extract(
            match header {
                Some(value) => Some(value@),
                None => None,
            },
        ) {
            Ok(credential) => r matches Ok(found) && found@ == credential,
            Err(e) => r matches Err(error) && error == e,
        },
{
    let value = match header {
        Some(value) => value,
        None => { return Err(Rejection::MissingHeader); },
    };
    if !header_is_text(value) {
        return Err(Rejection::NotText);
    }
    let start = match credential_start(value) {
        Some(start) => start,
        None => { return Err(Rejection::WrongScheme); },
    };
    if start == value.len() {
        return Err(Rejection::MissingCredential);
    }
    let rest = slice_subrange(value, start, value.len());
    assert(is_ascii_bytes(rest@)) by {
        assert forall|i: int| 0 <= i < rest@.len() implies #[trigger] rest@[i] < 128 by {
            assert(is_visible_ascii(value@[start + i]));
        }
    }
    Ok(text_from_ascii(rest))
}

/// What a header looks like to the specifications: its bytes, if it is there.
pub open spec fn header_view(header: Option<&[u8]>) -> Option<Seq<u8>> {
    match header {
        Some(value) => Some(value@),
        None => None,
    }
}

/// Where a request stands while the store is asked about its credential.
#[derive(Clone, Copy, Debug, PartialEq, Eq, Structural)]
pub enum AuthState {
    /// The existence check was sent.
    Checking,
}

impl View for AuthState {
    type V = AuthState;

    open spec fn view(&self) -> AuthState {
        *self
    }
}

/// What the guard decided.
#[derive(Clone, Copy, Debug, PartialEq, Eq, Structural)]
pub enum AuthOutcome {
    /// The request goes on to its handler.
    Authorized,
    /// The request is answered here, and does not reach its handler.
    Rejected(Rejection),
}

impl View for AuthOutcome {
    type V = AuthOutcome;

    open spec fn view(&self) -> AuthOutcome {
        *self
    }
}

/// The guard's first step for a request to an endpoint of the given scope: a
/// header that yields no credential is rejected without asking the store;
/// any other has its credential looked up in the scope's namespace.
pub open spec fn spec_validate(scope: Scope, header: Option<Seq<u8>>) -> StepModel<
    AuthState,
    AuthOutcome,
> {
    match spec_extract(header) {
        Err(e) => StepModel::Finish(AuthOutcome::Rejected(e)),
        Ok(credential) => StepModel::Call {
            command: CommandModel::Exists { key: spec_record_key(scope, credential) },
            state: AuthState::Checking,
        },
    }
}

/// The guard's decision once the store has answered: authorized where the
/// record exists, rejected where it does not or where the store failed.
pub open spec fn spec_validate_resume(state: AuthState, reply: ReplyModel) -> StepModel<
    AuthState,
    AuthOutcome,
> {
    match reply {
        ReplyModel::Flag(true) => StepModel::Finish(AuthOutcome::Authorized),
        ReplyModel::Flag(false) => StepModel::Finish(
            AuthOutcome::Rejected(Rejection::UnknownCredential),
        ),
        _ => StepModel::Finish(AuthOutcome::Rejected(Rejection::StoreUnavailable)),
    }
}

/// The guard's first step for a request to an endpoint of the given scope.
pub fn validate(scope: Scope, header: Option<&[u8]>) -> (step: Step<AuthState, AuthOutcome>)
    ensures
        step@ == spec_validate(scope, header_view(header)),
{
    match extract_api_key_from_header(header) {
        Err(e) => Step::Finish(AuthOutcome::Rejected(e)),
        Ok(credential) => Step::Call {
            command: StoreCommand::Exists { key: record_key(scope, credential.as_str()) },
            state: AuthState::Checking,
        },
    }
}

/// The guard before the data-plane endpoints.
pub fn validate_api_key(header: Option<&[u8]>) -> (step: Step<AuthState, AuthOutcome>)
    ensures
        step@ == spec_validate(Scope::Ordinary, header_view(header)),
{
    validate(Scope::Ordinary, header)
}

/// The guard before the key-management endpoints.
pub fn validate_admin_api_key(header: Option<&[u8]>) -> (step: Step<AuthState, AuthOutcome>)
    ensures
        step@ == spec_validate(Scope::Admin, header_view(header)),
{
    validate(Scope::Admin, header)
}

/// The guard's decision once the store has answered.
pub fn validate_resume(state: AuthState, reply: StoreReply) -> (step: Step<AuthState, AuthOutcome>)
    ensures
        step@ == spec_validate_resume(state, reply@),
{
    match reply {
        StoreReply::Flag(true) => Step::Finish(AuthOutcome::Authorized),
        StoreReply::Flag(false) => Step::Finish(AuthOutcome::Rejected(Rejection::UnknownCredential)),
        _ => Step::Finish(AuthOutcome::Rejected(Rejection::StoreUnavailable)),
    }
}

/// A key with the scope it is for and the owner it is recorded under.
#[derive(Debug, PartialEq, Eq)]
pub struct Grant {
    pub scope: Scope,
    pub key: String,
    pub owner: String,
}

/// What a [`Grant`] holds.
pub struct GrantModel {
    pub scope: Scope,
    pub key: Seq<char>,
    pub owner: Seq<char>,
}

impl View for Grant {
    type V = GrantModel;

    open spec fn view(&self) -> GrantModel {
        GrantModel { scope: self.scope, key: self.key@, owner: self.owner@ }
    }
}

/// Where the issue of a key stands.
#[derive(Debug, PartialEq, Eq)]
pub enum IssueState {
    /// The record was sent.
    Storing(Grant),
    /// The record is written; the listing in the scope's set was sent.
    Indexing(Grant),
}

/// What an [`IssueState`] holds.
pub enum IssueStateModel {
    Storing(GrantModel),
    Indexing(GrantModel),
}

impl View for IssueState {
    type V = IssueStateModel;

    open spec fn view(&self) -> IssueStateModel {
        match *self {
            IssueState::Storing(grant) => IssueStateModel::Storing(grant@),
            IssueState::Indexing(grant) => IssueStateModel::Indexing(grant@),
        }
    }
}

/// How the issue of a key ended.
#[derive(Debug, PartialEq, Eq)]
pub enum IssueOutcome {
    /// The key is recorded and listed.
    Issued(Grant),
    /// The store failed at one of the two writes.
    Failed(ErrorResponse),
}

/// What an [`IssueOutcome`] holds.
pub enum IssueOutcomeModel {
    Issued(GrantModel),
    Failed(ErrorResponseModel),
}

impl View for IssueOutcome {
    type V = IssueOutcomeModel;

    open spec fn view(&self) -> IssueOutcomeModel {
        match *self {
            IssueOutcome::Issued(grant) => IssueOutcomeModel::Issued(grant@),
            IssueOutcome::Failed(response) => IssueOutcomeModel::Failed(response@),
        }
    }
}

impl IssueOutcomeModel {
    /// The status the outcome is answered with.
    pub open spec fn status(self) -> Status {
        match self {
            IssueOutcomeModel::Issued(_) => Status::Success,
            IssueOutcomeModel::Failed(response) => response.status,
        }
    }
}

impl IssueOutcome {
    /// The status the outcome is answered with.
    pub fn status(&self) -> (status: Status)
        ensures
            status == self@.status(),
    {
        match self {
            IssueOutcome::Issued(_) => Status::Success,
            IssueOutcome::Failed(response) => response.status,
        }
    }
}

/// The first step of issuing a key: write its record, the owner under the
/// key's record key.
pub open spec fn spec_issue(grant: GrantModel) -> StepModel<IssueStateModel, IssueOutcomeModel> {
    StepModel::Call {
        command: CommandModel::Put {
            key: spec_record_key(grant.scope, grant.key),
            value: grant.owner,
        },
        state: IssueStateModel::Storing(grant),
    }
}

/// The next step of issuing a key: after the record, list the key in its
/// scope's set; after that, done. A failed write ends the issue there,
/// with a failure under the given correlation id.
pub open spec fn spec_issue_resume(
    state: IssueStateModel,
    reply: ReplyModel,
    correlation_id: Seq<char>,
) -> StepModel<IssueStateModel, IssueOutcomeModel> {
    if reply.is_failure() {
        StepModel::Finish(
            IssueOutcomeModel::Failed(spec_store_failure(ERR_ISSUE_KEY@, correlation_id)),
        )
    } else {
        match state {
            IssueStateModel::Storing(grant) => StepModel::Call {
                command: CommandModel::AddToSet {
                    set: grant.scope.spec_key_set(),
                    member: grant.key,
                },
                state: IssueStateModel::Indexing(grant),
            },
            IssueStateModel::Indexing(grant) => StepModel::Finish(IssueOutcomeModel::Issued(grant)),
        }
    }
}

/// Starts the issue of a key that the caller made.
pub fn issue(grant: Grant) -> (step: Step<IssueState, IssueOutcome>)
    ensures
        step@ == spec_issue(grant@),
{
    let key = record_key(grant.scope, grant.key.as_str());
    let value = grant.owner.clone();
    Step::Call { command: StoreCommand::Put { key, value }, state: IssueState::Storing(grant) }
}

/// Goes on with the issue of a key when a write's reply is in. A failure
/// it ends with has a fresh correlation id.
pub fn issue_resume(state: IssueState, reply: StoreReply) -> (step: Step<IssueState, IssueOutcome>)
    ensures
        match step@ {
            StepModel::Finish(IssueOutcomeModel::Failed(response)) => is_correlation_id(
                response.correlation_id,
            ) && step@ == spec_issue_resume(state@, reply@, response.correlation_id),
            _ => step@ == spec_issue_resume(state@, reply@, Seq::empty()),
        },
{
    if reply.is_failure() {
        return Step::Finish(IssueOutcome::Failed(store_failure(ERR_ISSUE_KEY)));
    }
    match state {
        IssueState::Storing(grant) => {
            let set = String::from_str(grant.scope.key_set());
            let member = grant.key.clone();
            Step::Call {
                command: StoreCommand::AddToSet { set, member },
                state: IssueState::Indexing(grant),
            }
        },
        IssueState::Indexing(grant) => Step::Finish(IssueOutcome::Issued(grant)),
    }
}

/// The grant of a fresh admin key: recorded under the fixed admin owner.
pub open spec fn spec_admin_grant(key: Seq<char>) -> GrantModel {
    GrantModel { scope: Scope::Admin, key, owner: ADMIN_OWNER@ }
}

/// Creates a new admin key and starts issuing it.
pub fn create_admin_api_key() -> (step: Step<IssueState, IssueOutcome>)
    ensures
        step@ matches StepModel::Call { state: IssueStateModel::Storing(grant), .. } && is_api_key(
            ADMIN_KEY_FORMAT_PREFIX@,
            grant.key,
        ) && step@ == spec_issue(spec_admin_grant(grant.key)),
{
    let key = generate_api_key(ADMIN_KEY_FORMAT_PREFIX);
    issue(Grant { scope: Scope::Admin, key, owner: String::from_str(ADMIN_OWNER) })
}

/// Where the question whether an admin key exists stands.
#[derive(Clone, Copy, Debug, PartialEq, Eq, Structural)]
pub enum AdminCheckState {
    /// The count of the admin set was asked for.
    Counting,
}

impl View for AdminCheckState {
    type V = AdminCheckState;

    open spec fn view(&self) -> AdminCheckState {
        *self
    }
}

/// Whether an admin key exists.
#[derive(Debug, PartialEq, Eq)]
pub enum AdminCheckOutcome {
    /// The admin set has a member, or has none.
    Known(bool),
    /// The store failed.
    Failed(ErrorResponse),
}

/// What an [`AdminCheckOutcome`] holds.
pub enum AdminCheckOutcomeModel {
    Known(bool),
    Failed(ErrorResponseModel),
}

impl View for AdminCheckOutcome {
    type V = AdminCheckOutcomeModel;

    open spec fn view(&self) -> AdminCheckOutcomeModel {
        match *self {
            AdminCheckOutcome::Known(exists) => AdminCheckOutcomeModel::Known(exists),
            AdminCheckOutcome::Failed(response) => AdminCheckOutcomeModel::Failed(response@),
        }
    }
}

/// The first step of asking whether an admin key exists: count the admin set.
pub open spec fn spec_admin_keys_exist() -> StepModel<AdminCheckState, AdminCheckOutcomeModel> {
    StepModel::Call {
        command: CommandModel::SetCardinality { set: ALL_ADMIN_KEYS@ },
        state: AdminCheckState::Counting,
    }
}

/// Whether an admin key exists, given the count: yes where it is above
/// zero. Any reply but a count is a failure, under the given correlation id.
pub open spec fn spec_admin_keys_exist_resume(
    state: AdminCheckState,
    reply: ReplyModel,
    correlation_id: Seq<char>,
) -> StepModel<AdminCheckState, AdminCheckOutcomeModel> {
    match reply {
        ReplyModel::Count(count) => StepModel::Finish(AdminCheckOutcomeModel::Known(count > 0)),
        _ => StepModel::Finish(
            AdminCheckOutcomeModel::Failed(
                spec_store_failure(ERR_COUNT_ADMIN_KEYS@, correlation_id),
            ),
        ),
    }
}

/// Asks whether any admin key exists.
pub fn admin_keys_exist() -> (step: Step<AdminCheckState, AdminCheckOutcome>)
    ensures
        step@ == spec_admin_keys_exist(),
{
    Step::Call {
        command: StoreCommand::SetCardinality { set: String::from_str(ALL_ADMIN_KEYS) },
        state: AdminCheckState::Counting,
    }
}

/// Answers whether any admin key exists when the count is in. A failure it
/// ends with has a fresh correlation id.
pub fn admin_keys_exist_resume(state: AdminCheckState, reply: StoreReply) -> (step: Step<
    AdminCheckState,
    AdminCheckOutcome,
>)
    ensures
        match step@ {
            StepModel::Finish(AdminCheckOutcomeModel::Failed(response)) => is_correlation_id(
                response.correlation_id,
            ) && step@ == spec_admin_keys_exist_resume(state, reply@, response.correlation_id),
            _ => step@ == spec_admin_keys_exist_resume(state, reply@, Seq::empty()),
        },
{
    match reply {
        StoreReply::Count(count) => Step::Finish(AdminCheckOutcome::Known(count > 0)),
        _ => Step::Finish(AdminCheckOutcome::Failed(store_failure(ERR_COUNT_ADMIN_KEYS))),
    }
}

/// Where the bootstrap stands.
#[derive(Debug, PartialEq, Eq)]
pub enum BootstrapState {
    /// Asking whether an admin key exists.
    Checking(AdminCheckState),
    /// None exists: issuing one.
    Creating(IssueState),
}

/// What a [`BootstrapState`] holds.
pub enum BootstrapStateModel {
    Checking(AdminCheckState),
    Creating(IssueStateModel),
}

impl View for BootstrapState {
    type V = BootstrapStateModel;

    open spec fn view(&self) -> BootstrapStateModel {
        match *self {
            BootstrapState::Checking(state) => BootstrapStateModel::Checking(state),
            BootstrapState::Creating(state) => BootstrapStateModel::Creating(state@),
        }
    }
}

/// How the bootstrap ended.
#[derive(Debug, PartialEq, Eq)]
pub enum BootstrapOutcome {
    /// No admin key existed; this one was issued. It is to be disclosed to
    /// the operator now: nothing can bring it back later.
    Created(String),
    /// An admin key exists; nothing was written.
    AlreadyExists,
    /// The store failed.
    Failed(ErrorResponse),
}

/// What a [`BootstrapOutcome`] holds.
pub enum BootstrapOutcomeModel {
    Created(Seq<char>),
    AlreadyExists,
    Failed(ErrorResponseModel),
}

impl View for BootstrapOutcome {
    type V = BootstrapOutcomeModel;

    open spec fn view(&self) -> BootstrapOutcomeModel {
        match *self {
            BootstrapOutcome::Created(key) => BootstrapOutcomeModel::Created(key@),
            BootstrapOutcome::AlreadyExists => BootstrapOutcomeModel::AlreadyExists,
            BootstrapOutcome::Failed(response) => BootstrapOutcomeModel::Failed(response@),
        }
    }
}

/// A step of the admin check as a step of the bootstrap, where the check
/// found none and `fresh_key` is the key to issue then.
pub open spec fn spec_bootstrap_after_check(
    step: StepModel<AdminCheckState, AdminCheckOutcomeModel>,
    fresh_key: Seq<char>,
) -> StepModel<BootstrapStateModel, BootstrapOutcomeModel> {
    match step {
        StepModel::Call { command, state } => StepModel::Call {
            command,
            state: BootstrapStateModel::Checking(state),
        },
        StepModel::Finish(AdminCheckOutcomeModel::Failed(response)) => StepModel::Finish(
            BootstrapOutcomeModel::Failed(response),
        ),
        StepModel::Finish(AdminCheckOutcomeModel::Known(true)) => StepModel::Finish(
            BootstrapOutcomeModel::AlreadyExists,
        ),
        StepModel::Finish(AdminCheckOutcomeModel::Known(false)) => spec_bootstrap_while_issuing(
            spec_issue(spec_admin_grant(fresh_key)),
        ),
    }
}

/// A step of the issue as a step of the bootstrap.
pub open spec fn spec_bootstrap_while_issuing(step: StepModel<IssueStateModel, IssueOutcomeModel>)
    -> StepModel<BootstrapStateModel, BootstrapOutcomeModel> {
    match step {
        StepModel::Call { command, state } => StepModel::Call {
            command,
            state: BootstrapStateModel::Creating(state),
        },
        StepModel::Finish(IssueOutcomeModel::Issued(grant)) => StepModel::Finish(
            BootstrapOutcomeModel::Created(grant.key),
        ),
        StepModel::Finish(IssueOutcomeModel::Failed(response)) => StepModel::Finish(
            BootstrapOutcomeModel::Failed(response),
        ),
    }
}

/// The first step of the bootstrap: ask whether an admin key exists.
pub open spec fn spec_bootstrap() -> StepModel<BootstrapStateModel, BootstrapOutcomeModel> {
    spec_bootstrap_after_check(spec_admin_keys_exist(), Seq::empty())
}

/// The next step of the bootstrap. Where an admin key exists it ends with
/// no write; where none does it issues `fresh_key`; a failure of the store
/// ends it, with a failure under the given correlation id.
pub open spec fn spec_bootstrap_resume(
    state: BootstrapStateModel,
    reply: ReplyModel,
    fresh_key: Seq<char>,
    correlation_id: Seq<char>,
) -> StepModel<BootstrapStateModel, BootstrapOutcomeModel> {
    match state {
        BootstrapStateModel::Checking(check) => spec_bootstrap_after_check(
            spec_admin_keys_exist_resume(check, reply, correlation_id),
            fresh_key,
        ),
        BootstrapStateModel::Creating(issue) => spec_bootstrap_while_issuing(
            spec_issue_resume(issue, reply, correlation_id),
        ),
    }
}

/// Whether the next step of the bootstrap issues a key: it does after a
/// count of zero.
pub open spec fn spec_bootstrap_needs_key(state: BootstrapStateModel, reply: ReplyModel) -> bool {
    state is Checking && reply == ReplyModel::Count(0)
}

fn bootstrap_while_issuing(step: Step<IssueState, IssueOutcome>) -> (lifted: Step<
    BootstrapState,
    BootstrapOutcome,
>)
    ensures
        lifted@ == spec_bootstrap_while_issuing(step@),
{
    match step {
        Step::Call { command, state } => Step::Call {
            command,
            state: BootstrapState::Creating(state),
        },
        Step::Finish(IssueOutcome::Issued(grant)) => Step::Finish(
            BootstrapOutcome::Created(grant.key),
        ),
        Step::Finish(IssueOutcome::Failed(response)) => Step::Finish(
            BootstrapOutcome::Failed(response),
        ),
    }
}

/// Starts the bootstrap: makes sure that an admin key exists, by issuing one
/// where there is none.
pub fn bootstrap_admin_key() -> (step: Step<BootstrapState, BootstrapOutcome>)
    ensures
        step@ == spec_bootstrap(),
{
    Step::Call {
        command: StoreCommand::SetCardinality { set: String::from_str(ALL_ADMIN_KEYS) },
        state: BootstrapState::Checking(AdminCheckState::Counting),
    }
}

/// Goes on with the bootstrap, with `fresh_key` as the key to issue if it
/// comes to that. A failure it ends with has a fresh correlation id.
pub fn bootstrap_admin_key_resume_with(state: BootstrapState, reply: StoreReply, fresh_key: String)
    -> (step: Step<BootstrapState, BootstrapOutcome>)
    ensures
        match step@ {
            StepModel::Finish(BootstrapOutcomeModel::Failed(response)) => is_correlation_id(
                response.correlation_id,
            ) && step@ == spec_bootstrap_resume(
                state@,
                reply@,
                fresh_key@,
                response.correlation_id,
            ),
            _ => step@ == spec_bootstrap_resume(state@, reply@, fresh_key@, Seq::empty()),
        },
{
    match state {
        BootstrapState::Checking(check) => match admin_keys_exist_resume(check, reply) {
            Step::Call { command, state } => Step::Call {
                command,
                state: BootstrapState::Checking(state),
            },
            Step::Finish(AdminCheckOutcome::Failed(response)) => Step::Finish(
                BootstrapOutcome::Failed(response),
            ),
            Step::Finish(AdminCheckOutcome::Known(true)) => Step::Finish(
                BootstrapOutcome::AlreadyExists,
            ),
            Step::Finish(AdminCheckOutcome::Known(false)) => bootstrap_while_issuing(
                issue(
                    Grant {
                        scope: Scope::Admin,
                        key: fresh_key,
                        owner: String::from_str(ADMIN_OWNER),
                    },
                ),
            ),
        },
        BootstrapState::Creating(state) => bootstrap_while_issuing(issue_resume(state, reply)),
    }
}

/// Goes on with the bootstrap when a reply is in. The key it issues, where
/// it issues one, is freshly generated.
pub fn bootstrap_admin_key_resume(state: BootstrapState, reply: StoreReply) -> (step: Step<
    BootstrapState,
    BootstrapOutcome,
>)
    ensures
        spec_bootstrap_needs_key(state@, reply@) ==> (step@ matches StepModel::Call {
            state: BootstrapStateModel::Creating(IssueStateModel::Storing(grant)),
            ..
        } && is_api_key(ADMIN_KEY_FORMAT_PREFIX@, grant.key) && step@ == spec_bootstrap_resume(
            state@,
            reply@,
            grant.key,
            Seq::empty(),
        )),
        !spec_bootstrap_needs_key(state@, reply@) ==> match step@ {
            StepModel::Finish(BootstrapOutcomeModel::Failed(response)) => is_correlation_id(
                response.correlation_id,
            ) && step@ == spec_bootstrap_resume(
                state@,
                reply@,
                Seq::empty(),
                response.correlation_id,
            ),
            _ => step@ == spec_bootstrap_resume(state@, reply@, Seq::empty(), Seq::empty()),
        },
{
    let needs_key = match (&state, &reply) {
        (BootstrapState::Checking(_), StoreReply::Count(count)) => *count == 0,
        _ => false,
    };
    if needs_key {
        let fresh_key = generate_api_key(ADMIN_KEY_FORMAT_PREFIX);
        bootstrap_admin_key_resume_with(state, reply, fresh_key)
    } else {
        bootstrap_admin_key_resume_with(state, reply, String::new())
    }
}

} // verus!
