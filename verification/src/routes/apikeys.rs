//! Managing ordinary keys: create one, list all, revoke one.
//!
//! A key has a record (its owner, under the key's record key) and a listing
//! (its membership in the set of all keys). Creating writes the record and
//! then the listing; revoking removes the record and then the listing. The
//! two writes are two commands: a failure between them leaves one without
//! the other.

use crate::auth::api_key::{
    generate_api_key, is_api_key, issue, record_key, spec_issue, spec_record_key, Grant,
    GrantModel, IssueOutcome, IssueState, IssueStateModel, Scope, ALL_API_KEYS,
    API_KEY_FORMAT_PREFIX,
};
use crate::consts::errors::{ERR_LIST_KEYS, ERR_REVOKE_KEY};
use crate::error_utils::{
    is_correlation_id, spec_store_failure, store_failure, ErrorResponse, ErrorResponseModel,
};
use crate::status::Status;
use crate::store::{CommandModel, ReplyModel, Step, StepModel, StoreCommand, StoreReply};
use vstd::prelude::*;
use vstd::string::StringExecFns;

verus! {

/// An ordinary key and the user it was issued to.
#[derive(Debug, PartialEq, Eq)]
pub struct ApiKey {
    pub key: String,
    pub user_id: String,
}

/// What an [`ApiKey`] holds.
pub struct ApiKeyModel {
    pub key: Seq<char>,
    pub user_id: Seq<char>,
}

impl View for ApiKey {
    type V = ApiKeyModel;

    open spec fn view(&self) -> ApiKeyModel {
        ApiKeyModel { key: self.key@, user_id: self.user_id@ }
    }
}

impl DeepView for ApiKey {
    type V = ApiKeyModel;

    open spec fn deep_view(&self) -> ApiKeyModel {
        self@
    }
}

impl ApiKey {
    /// The key and owner of a grant.
    pub fn from_grant(grant: Grant) -> (entry: ApiKey)
        ensures
            entry@ == (ApiKeyModel { key: grant@.key, user_id: grant@.owner }),
    {
        ApiKey { key: grant.key, user_id: grant.owner }
    }
}

/// The grant of an ordinary key to a user.
pub open spec fn spec_user_grant(key: Seq<char>, user_id: Seq<char>) -> GrantModel {
    GrantModel { scope: Scope::Ordinary, key, owner: user_id }
}

/// Creates a new ordinary key for `user_id` and starts issuing it. The
/// issue goes on with [`crate::auth::api_key::issue_resume`].
pub fn create_key(user_id: String) -> (step: Step<IssueState, IssueOutcome>)
    ensures
        step@ matches StepModel::Call { state: IssueStateModel::Storing(grant), .. } && is_api_key(
            API_KEY_FORMAT_PREFIX@,
            grant.key,
        ) && step@ == spec_issue(spec_user_grant(grant.key, user_id@)),
{
    let key = generate_api_key(API_KEY_FORMAT_PREFIX);
    issue(Grant { scope: Scope::Ordinary, key, owner: user_id })
}

/// The keys still to resolve, first to come first, from how a state holds
/// them: last to come first.
pub open spec fn spec_pending(remaining: Seq<String>) -> Seq<Seq<char>> {
    Seq::new(remaining.len(), |i: int| remaining[remaining.len() - 1 - i]@)
}

/// Where a listing stands.
#[derive(Debug, PartialEq, Eq)]
pub enum ListState {
    /// The members of the set of all keys were asked for.
    Listing,
    /// The owner of `current` was asked for.
    Resolving {
        /// The key whose owner is awaited.
        current: String,
        /// The keys after it, the next one last.
        remaining: Vec<String>,
        /// The keys before it, with their owners.
        found: Vec<ApiKey>,
    },
}

/// What a [`ListState`] holds.
pub enum ListStateModel {
    Listing,
    Resolving { current: Seq<char>, pending: Seq<Seq<char>>, found: Seq<ApiKeyModel> },
}

impl View for ListState {
    type V = ListStateModel;

    open spec fn view(&self) -> ListStateModel {
        match *self {
            ListState::Listing => ListStateModel::Listing,
            ListState::Resolving { current, remaining, found } => ListStateModel::Resolving {
                current: current@,
                pending: spec_pending(remaining@),
                found: found.deep_view(),
            },
        }
    }
}

/// How a listing ended.
#[derive(Debug, PartialEq, Eq)]
pub enum ListOutcome {
    /// Every key of the set, in the set's order, with its owner.
    Listed(Vec<ApiKey>),
    /// The store failed, or a listed key has no record.
    Failed(ErrorResponse),
}

/// What a [`ListOutcome`] holds.
pub enum ListOutcomeModel {
    Listed(Seq<ApiKeyModel>),
    Failed(ErrorResponseModel),
}

impl View for ListOutcome {
    type V = ListOutcomeModel;

    open spec fn view(&self) -> ListOutcomeModel {
        match *self {
            ListOutcome::Listed(entries) => ListOutcomeModel::Listed(entries.deep_view()),
            ListOutcome::Failed(response) => ListOutcomeModel::Failed(response@),
        }
    }
}

impl ListOutcomeModel {
    /// The status the outcome is answered with.
    pub open spec fn status(self) -> Status {
        match self {
            ListOutcomeModel::Listed(_) => Status::Success,
            ListOutcomeModel::Failed(response) => response.status,
        }
    }
}

impl ListOutcome {
    /// The status the outcome is answered with.
    pub fn status(&self) -> (status: Status)
        ensures
            status == self@.status(),
    {
        match self {
            ListOutcome::Listed(_) => Status::Success,
            ListOutcome::Failed(response) => response.status,
        }
    }
}

/// The first step of a listing: ask for the members of the set of all keys.
pub open spec fn spec_list_keys() -> StepModel<ListStateModel, ListOutcomeModel> {
    StepModel::Call {
        command: CommandModel::SetMembers { set: ALL_API_KEYS@ },
        state: ListStateModel::Listing,
    }
}

/// What a listing does with `pending` keys left and `found` entries made:
/// ask for the owner of the first pending key, or end where none is left.
pub open spec fn spec_resolve_next(pending: Seq<Seq<char>>, found: Seq<ApiKeyModel>) -> StepModel<
    ListStateModel,
    ListOutcomeModel,
> {
    if pending.len() == 0 {
        StepModel::Finish(ListOutcomeModel::Listed(found))
    } else {
        StepModel::Call {
            command: CommandModel::Get { key: spec_record_key(Scope::Ordinary, pending[0]) },
            state: ListStateModel::Resolving {
                current: pending[0],
                pending: pending.skip(1),
                found,
            },
        }
    }
}

/// The next step of a listing: the members start the resolving; each owner
/// read makes one entry; any other reply ends the listing as failed, under
/// the given correlation id.
pub open spec fn spec_list_keys_resume(
    state: ListStateModel,
    reply: ReplyModel,
    correlation_id: Seq<char>,
) -> StepModel<ListStateModel, ListOutcomeModel> {
    match (state, reply) {
        (ListStateModel::Listing, ReplyModel::Members(keys)) => spec_resolve_next(
            keys,
            Seq::empty(),
        ),
        (
            ListStateModel::Resolving { current, pending, found },
            ReplyModel::Text(owner),
        ) => spec_resolve_next(pending, found.push(ApiKeyModel { key: current, user_id: owner })),
        _ => StepModel::Finish(
            ListOutcomeModel::Failed(spec_store_failure(ERR_LIST_KEYS@, correlation_id)),
        ),
    }
}

/// Starts a listing of all ordinary keys with their owners.
pub fn list_keys() -> (step: Step<ListState, ListOutcome>)
    ensures
        step@ == spec_list_keys(),
{
    Step::Call {
        command: StoreCommand::SetMembers { set: String::from_str(ALL_API_KEYS) },
        state: ListState::Listing,
    }
}

/// The same texts in the opposite order.
fn reversed(texts: Vec<String>) -> (turned: Vec<String>)
    ensures
        spec_pending(turned@) == texts.deep_view(),
{
    let ghost given = texts@;
    let mut texts = texts;
    let mut turned: Vec<String> = Vec::new();
    while texts.len() > 0
        invariant
            texts@.len() + turned@.len() == given.len(),
            forall|i: int| 0 <= i < texts@.len() ==> texts@[i] == given[i],
            forall|i: int|
                0 <= i < turned@.len() ==> turned@[i] == given[given.len() - 1 - i],
        decreases texts@.len(),
    {
        match texts.pop() {
            Some(text) => turned.push(text),
            None => {},
        }
    }
    assert(spec_pending(turned@) =~= Seq::new(given.len(), |i: int| given[i]@));
    turned
}

fn resolve_next(remaining: Vec<String>, found: Vec<ApiKey>) -> (step: Step<ListState, ListOutcome>)
    ensures
        step@ == spec_resolve_next(spec_pending(remaining@), found.deep_view()),
{
    let mut remaining = remaining;
    let ghost before = remaining@;
    match remaining.pop() {
        None => Step::Finish(ListOutcome::Listed(found)),
        Some(current) => {
            assert(spec_pending(remaining@) =~= spec_pending(before).skip(1));
            Step::Call {
                command: StoreCommand::Get { key: record_key(Scope::Ordinary, current.as_str()) },
                state: ListState::Resolving { current, remaining, found },
            }
        },
    }
}

/// Goes on with a listing when a reply is in. A failure it ends with has a
/// fresh correlation id.
pub fn list_keys_resume(state: ListState, reply: StoreReply) -> (step: Step<ListState, ListOutcome>)
    ensures
        match step@ {
            StepModel::Finish(ListOutcomeModel::Failed(response)) => is_correlation_id(
                response.correlation_id,
            ) && step@ == spec_list_keys_resume(state@, reply@, response.correlation_id),
            _ => step@ == spec_list_keys_resume(state@, reply@, Seq::empty()),
        },
{
    match (state, reply) {
        (ListState::Listing, StoreReply::Members(keys)) => {
            let found: Vec<ApiKey> = Vec::new();
            assert(found.deep_view() =~= Seq::<ApiKeyModel>::empty());
            resolve_next(reversed(keys), found)
        },
        (ListState::Resolving { current, remaining, found }, StoreReply::Text(owner)) => {
            let mut found = found;
            let ghost before = found.deep_view();
            let ghost entry = ApiKeyModel { key: current@, user_id: owner@ };
            found.push(ApiKey { key: current, user_id: owner });
            assert(found.deep_view() =~= before.push(entry));
            resolve_next(remaining, found)
        },
        _ => Step::Finish(ListOutcome::Failed(store_failure(ERR_LIST_KEYS))),
    }
}

/// Where a revocation stands.
#[derive(Debug, PartialEq, Eq)]
pub enum RevokeState {
    /// Asked whether the key's record exists.
    Checking { key: String },
    /// The record exists; its removal was sent.
    Deleting { key: String },
    /// The record is gone; the removal from the set of all keys was sent.
    Unlisting,
}

/// What a [`RevokeState`] holds.
pub enum RevokeStateModel {
    Checking { key: Seq<char> },
    Deleting { key: Seq<char> },
    Unlisting,
}

impl View for RevokeState {
    type V = RevokeStateModel;

    open spec fn view(&self) -> RevokeStateModel {
        match *self {
            RevokeState::Checking { key } => RevokeStateModel::Checking { key: key@ },
            RevokeState::Deleting { key } => RevokeStateModel::Deleting { key: key@ },
            RevokeState::Unlisting => RevokeStateModel::Unlisting,
        }
    }
}

/// How a revocation ended.
#[derive(Debug, PartialEq, Eq)]
pub enum RevokeOutcome {
    /// The key's record and listing are removed.
    Revoked,
    /// The key has no record; nothing was written.
    NotFound,
    /// The store failed.
    Failed(ErrorResponse),
}

/// What a [`RevokeOutcome`] holds.
pub enum RevokeOutcomeModel {
    Revoked,
    NotFound,
    Failed(ErrorResponseModel),
}

impl View for RevokeOutcome {
    type V = RevokeOutcomeModel;

    open spec fn view(&self) -> RevokeOutcomeModel {
        match *self {
            RevokeOutcome::Revoked => RevokeOutcomeModel::Revoked,
            RevokeOutcome::NotFound => RevokeOutcomeModel::NotFound,
            RevokeOutcome::Failed(response) => RevokeOutcomeModel::Failed(response@),
        }
    }
}

impl RevokeOutcomeModel {
    /// The status the outcome is answered with.
    pub open spec fn status(self) -> Status {
        match self {
            RevokeOutcomeModel::Revoked => Status::NoContent,
            RevokeOutcomeModel::NotFound => Status::NotFound,
            RevokeOutcomeModel::Failed(response) => response.status,
        }
    }
}

impl RevokeOutcome {
    /// The status the outcome is answered with.
    pub fn status(&self) -> (status: Status)
        ensures
            status == self@.status(),
    {
        match self {
            RevokeOutcome::Revoked => Status::NoContent,
            RevokeOutcome::NotFound => Status::NotFound,
            RevokeOutcome::Failed(response) => response.status,
        }
    }
}

/// The first step of revoking a key: ask whether its record exists.
pub open spec fn spec_revoke_key(key: Seq<char>) -> StepModel<RevokeStateModel, RevokeOutcomeModel> {
    StepModel::Call {
        command: CommandModel::Exists { key: spec_record_key(Scope::Ordinary, key) },
        state: RevokeStateModel::Checking { key },
    }
}

/// How a revocation ends where the store fails, under the given
/// correlation id.
pub open spec fn spec_revoke_failed(correlation_id: Seq<char>) -> StepModel<
    RevokeStateModel,
    RevokeOutcomeModel,
> {
    StepModel::Finish(RevokeOutcomeModel::Failed(spec_store_failure(ERR_REVOKE_KEY@, correlation_id)))
}

/// The next step of revoking a key: a key without record is reported as not
/// found, with no write; for one with a record, the record is removed, then
/// the listing. A failure of the store ends the revocation there, under the
/// given correlation id.
pub open spec fn spec_revoke_key_resume(
    state: RevokeStateModel,
    reply: ReplyModel,
    correlation_id: Seq<char>,
) -> StepModel<RevokeStateModel, RevokeOutcomeModel> {
    match state {
        RevokeStateModel::Checking { key } => match reply {
            ReplyModel::Flag(false) => StepModel::Finish(RevokeOutcomeModel::NotFound),
            ReplyModel::Flag(true) => StepModel::Call {
                command: CommandModel::Delete { key: spec_record_key(Scope::Ordinary, key) },
                state: RevokeStateModel::Deleting { key },
            },
            _ => spec_revoke_failed(correlation_id),
        },
        RevokeStateModel::Deleting { key } => if reply.is_failure() {
            spec_revoke_failed(correlation_id)
        } else {
            StepModel::Call {
                command: CommandModel::RemoveFromSet { set: ALL_API_KEYS@, member: key },
                state: RevokeStateModel::Unlisting,
            }
        },
        RevokeStateModel::Unlisting => if reply.is_failure() {
            spec_revoke_failed(correlation_id)
        } else {
            StepModel::Finish(RevokeOutcomeModel::Revoked)
        },
    }
}

/// Starts revoking an ordinary key.
pub fn revoke_key(key: String) -> (step: Step<RevokeState, RevokeOutcome>)
    ensures
        step@ == spec_revoke_key(key@),
{
    Step::Call {
        command: StoreCommand::Exists { key: record_key(Scope::Ordinary, key.as_str()) },
        state: RevokeState::Checking { key },
    }
}

fn revoke_failed() -> (step: Step<RevokeState, RevokeOutcome>)
    ensures
        step@ matches StepModel::Finish(RevokeOutcomeModel::Failed(response)) && is_correlation_id(
            response.correlation_id,
        ) && step@ == spec_revoke_failed(response.correlation_id),
{
    Step::Finish(RevokeOutcome::Failed(store_failure(ERR_REVOKE_KEY)))
}

/// Goes on with a revocation when a reply is in. A failure it ends with
/// has a fresh correlation id.
pub fn revoke_key_resume(state: RevokeState, reply: StoreReply) -> (step: Step<
    RevokeState,
    RevokeOutcome,
>)
    ensures
        match step@ {
            StepModel::Finish(RevokeOutcomeModel::Failed(response)) => is_correlation_id(
                response.correlation_id,
            ) && step@ == spec_revoke_key_resume(state@, reply@, response.correlation_id),
            _ => step@ == spec_revoke_key_resume(state@, reply@, Seq::empty()),
        },
{
    match state {
        RevokeState::Checking { key } => match reply {
            StoreReply::Flag(false) => Step::Finish(RevokeOutcome::NotFound),
            StoreReply::Flag(true) => Step::Call {
                command: StoreCommand::Delete { key: record_key(Scope::Ordinary, key.as_str()) },
                state: RevokeState::Deleting { key },
            },
            _ => revoke_failed(),
        },
        RevokeState::Deleting { key } => if reply.is_failure() {
            revoke_failed()
        } else {
            Step::Call {
                command: StoreCommand::RemoveFromSet {
                    set: String::from_str(ALL_API_KEYS),
                    member: key,
                },
                state: RevokeState::Unlisting,
            }
        },
        RevokeState::Unlisting => if reply.is_failure() {
            revoke_failed()
        } else {
            Step::Finish(RevokeOutcome::Revoked)
        },
    }
}

} // verus!
