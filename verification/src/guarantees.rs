//! What holds of whole requests, handled against a store that works.
//!
//! Each theorem runs the steps of one or more requests against
//! [`StoreModel`], which answers every command as a working store would,
//! and states what comes out.

use crate::auth::api_key::{
    base64_url_no_pad, is_api_key, is_header_text, is_url_safe, is_url_safe_char,
    is_visible_ascii, scheme_prefix, spec_admin_keys_exist_resume, spec_bootstrap,
    spec_bootstrap_resume, spec_extract, spec_header_for, spec_issue, spec_issue_resume,
    spec_record_key, spec_validate, spec_validate_resume, AdminCheckOutcomeModel,
    AdminCheckState, AuthOutcome, AuthState, BootstrapOutcomeModel, BootstrapStateModel,
    GrantModel, IssueOutcomeModel, IssueStateModel, Rejection, Scope, ALL_ADMIN_KEYS,
    ALL_API_KEYS,
};
use crate::error_utils::{spec_error_body, spec_error_response, ErrorResponseModel};
use crate::routes::apikeys::{
    spec_list_keys, spec_list_keys_resume, spec_resolve_next, spec_revoke_key,
    spec_revoke_key_resume, spec_user_grant, ApiKeyModel, ListOutcomeModel, ListStateModel,
    RevokeOutcomeModel, RevokeStateModel,
};
use crate::routes::ingest::{
    spec_ingest, spec_ingest_resume, spec_plan, spec_sample, IngestError, IngestOutcomeModel,
    IngestState,
};
use crate::sensor::{spec_decode, spec_domain_label, Domain, SensorDataModel, UNKNOWN_DOMAIN};
use crate::status::Status;
use crate::store::{
    lemma_respond_well_formed, run, CommandModel, ReplyModel, SampleModel, StepModel, StoreModel,
};
use crate::text::{ascii_bytes, lemma_ascii_round_trip};
use vstd::prelude::*;
use vstd::utf8::{is_ascii_chars, valid_utf8};

verus! {

/// Whether every character of a text is a visible ASCII character.
pub open spec fn is_visible_text(text: Seq<char>) -> bool {
    forall|i: int| 0 <= i < text.len() ==> ' ' <= #[trigger] text[i] <= '~'
}

/// The guard's decision on a request to an endpoint of `scope` that carries
/// `header`, and the store afterwards.
pub open spec fn authorize(store: StoreModel, scope: Scope, header: Option<Seq<u8>>) -> (
    StoreModel,
    Option<AuthOutcome>,
) {
    run(
        store,
        spec_validate(scope, header),
        |state: AuthState, reply: ReplyModel| spec_validate_resume(state, reply),
        1,
    )
}

/// The issue of a grant, and the store afterwards. A failure, if it comes
/// to one, is under `correlation_id`.
pub open spec fn issued(store: StoreModel, grant: GrantModel, correlation_id: Seq<char>) -> (
    StoreModel,
    Option<IssueOutcomeModel>,
) {
    run(
        store,
        spec_issue(grant),
        |state: IssueStateModel, reply: ReplyModel|
            spec_issue_resume(state, reply, correlation_id),
        2,
    )
}

/// The revocation of an ordinary key, and the store afterwards. A failure,
/// if it comes to one, is under `correlation_id`.
pub open spec fn revoked(store: StoreModel, key: Seq<char>, correlation_id: Seq<char>) -> (
    StoreModel,
    Option<RevokeOutcomeModel>,
) {
    run(
        store,
        spec_revoke_key(key),
        |state: RevokeStateModel, reply: ReplyModel|
            spec_revoke_key_resume(state, reply, correlation_id),
        3,
    )
}

/// How a listing goes on when a reply is in, with the correlation id at
/// hand.
pub open spec fn list_resume(correlation_id: Seq<char>) -> spec_fn(
    ListStateModel,
    ReplyModel,
) -> StepModel<ListStateModel, ListOutcomeModel> {
    |state: ListStateModel, reply: ReplyModel|
        spec_list_keys_resume(state, reply, correlation_id)
}

/// The listing of all ordinary keys, and the store afterwards: one command
/// for the members, and one for each of them. A failure, if it comes to
/// one, is under `correlation_id`.
pub open spec fn listed(store: StoreModel, correlation_id: Seq<char>) -> (
    StoreModel,
    Option<ListOutcomeModel>,
) {
    run(
        store,
        spec_list_keys(),
        list_resume(correlation_id),
        store.members(ALL_API_KEYS@).len() + 1,
    )
}

/// The entries that a listing makes of `keys`: each key with the owner that
/// its record holds.
pub open spec fn entries_of(store: StoreModel, keys: Seq<Seq<char>>) -> Seq<ApiKeyModel> {
    Seq::new(
        keys.len(),
        |i: int|
            ApiKeyModel {
                key: keys[i],
                user_id: store.records[spec_record_key(Scope::Ordinary, keys[i])],
            },
    )
}

/// The bootstrap with `fresh_key` at hand, and the store afterwards. A
/// failure, if it comes to one, is under `correlation_id`.
pub open spec fn bootstrapped(
    store: StoreModel,
    fresh_key: Seq<char>,
    correlation_id: Seq<char>,
) -> (StoreModel, Option<BootstrapOutcomeModel>) {
    run(
        store,
        spec_bootstrap(),
        |state: BootstrapStateModel, reply: ReplyModel|
            spec_bootstrap_resume(state, reply, fresh_key, correlation_id),
        3,
    )
}

/// Every key of the set of all ordinary keys has a record.
pub open spec fn listing_is_backed(store: StoreModel) -> bool {
    forall|key: Seq<char>| #[trigger]
        store.members(ALL_API_KEYS@).contains(key) ==> store.records.contains_key(
            spec_record_key(Scope::Ordinary, key),
        )
}

/// Two keys with the same record key in one scope are the same key.
pub proof fn lemma_record_key_is_injective(scope: Scope, a: Seq<char>, b: Seq<char>)
    requires
        spec_record_key(scope, a) == spec_record_key(scope, b),
    ensures
        a == b,
{
    let prefix = scope.spec_namespace();
    assert(a =~= (prefix + a).skip(prefix.len() as int));
    assert(b =~= (prefix + b).skip(prefix.len() as int));
}

/// Whether every character of a text may stand in a header that is read as
/// text: a visible ASCII character, a space or a tab.
pub open spec fn is_header_chars(text: Seq<char>) -> bool {
    forall|i: int|
        0 <= i < text.len() ==> (' ' <= #[trigger] text[i] <= '~') || text[i] == '\t'
}

/// A header that presents a credential yields that credential, unless the
/// credential is empty.
pub proof fn lemma_header_round_trip(credential: Seq<char>)
    requires
        is_header_chars(credential),
        credential.len() > 0,
    ensures
        spec_extract(Some(spec_header_for(credential))) == Ok::<Seq<char>, Rejection>(credential),
{
    reveal_strlit("SignalStash");
    let header = spec_header_for(credential);
    let prefix = scheme_prefix();
    let bytes = ascii_bytes(credential);
    assert(is_ascii_chars(credential)) by {
        assert forall|i: int| 0 <= i < credential.len() implies '\0' <= #[trigger] credential[i]
            <= '\u{7f}' by {
            assert((' ' <= credential[i] <= '~') || credential[i] == '\t');
        }
    }
    lemma_ascii_round_trip(credential);
    assert(is_header_text(header)) by {
        assert forall|i: int| 0 <= i < header.len() implies is_visible_ascii(
            #[trigger] header[i],
        ) by {
            if i >= prefix.len() {
                assert(header[i] == bytes[i - prefix.len()]);
                assert((' ' <= credential[i - prefix.len()] <= '~') || credential[i
                    - prefix.len()] == '\t');
            }
        }
    }
    assert(prefix.is_prefix_of(header)) by {
        assert(header.subrange(0, prefix.len() as int) =~= prefix);
    }
    assert(header.skip(prefix.len() as int) =~= bytes);
}

/// A header yields a credential exactly where it is the scheme word, one
/// space and that credential, the credential not empty and made of
/// characters that may stand in a header. Nothing is trimmed.
pub proof fn theorem_credential_iff_header(header: Option<Seq<u8>>, credential: Seq<char>)
    ensures
        spec_extract(header) == Ok::<Seq<char>, Rejection>(credential) <==> credential.len() > 0
            && is_header_chars(credential) && header == Some(spec_header_for(credential)),
{
    if credential.len() > 0 && is_header_chars(credential) && header == Some(
        spec_header_for(credential),
    ) {
        lemma_header_round_trip(credential);
    }
    if spec_extract(header) == Ok::<Seq<char>, Rejection>(credential) {
        let value = header->0;
        let prefix = scheme_prefix();
        let rest = value.skip(prefix.len() as int);
        assert(credential == crate::text::ascii_text(rest));
        assert forall|i: int| 0 <= i < credential.len() implies (' ' <= #[trigger] credential[i]
            <= '~') || credential[i] == '\t' by {
            assert(is_visible_ascii(value[prefix.len() + i]));
            assert(rest[i] == value[prefix.len() + i]);
        }
        assert(ascii_bytes(credential) =~= rest) by {
            assert forall|i: int| 0 <= i < rest.len() implies ascii_bytes(credential)[i]
                == rest[i] by {
                assert(is_visible_ascii(value[prefix.len() + i]));
                assert(rest[i] == value[prefix.len() + i]);
            }
        }
        assert(value =~= prefix + rest);
    }
}

/// A key of the shape in which keys are issued is made of visible
/// characters.
pub proof fn lemma_api_key_is_visible(scope: Scope, key: Seq<char>)
    requires
        is_api_key(scope.spec_format_prefix(), key),
    ensures
        is_visible_text(key),
        is_header_chars(key),
        key.len() > 0,
{
    reveal_strlit("sk-sigstash-");
    reveal_strlit("sk-sigstash-admin-");
    let prefix = scope.spec_format_prefix();
    assert(is_visible_text(prefix));
    let entropy = choose|entropy: Seq<u8>|
        key == prefix + #[trigger] base64_url_no_pad(entropy) && is_url_safe(
            base64_url_no_pad(entropy),
        );
    let random_part = base64_url_no_pad(entropy);
    assert forall|i: int| 0 <= i < key.len() implies ' ' <= #[trigger] key[i] <= '~' by {
        if i < prefix.len() {
            assert(key[i] == prefix[i]);
        } else {
            assert(key[i] == random_part[i - prefix.len()]);
            assert(is_url_safe_char(random_part[i - prefix.len()]));
        }
    }
}

/// A generated key is turned away while the store holds no record of it,
/// and is let in once its issue is complete.
///
/// Between the two writes of the issue the record exists and the listing
/// does not: there the key is let in already.
pub proof fn theorem_key_is_accepted_once_issued(
    store: StoreModel,
    scope: Scope,
    key: Seq<char>,
    owner: Seq<char>,
    correlation_id: Seq<char>,
)
    requires
        is_api_key(scope.spec_format_prefix(), key),
        !store.records.contains_key(spec_record_key(scope, key)),
    ensures
        authorize(store, scope, Some(spec_header_for(key))) == (
            store,
            Some(AuthOutcome::Rejected(Rejection::UnknownCredential)),
        ),
        issued(store, GrantModel { scope, key, owner }, correlation_id).1 == Some(
            IssueOutcomeModel::Issued(GrantModel { scope, key, owner }),
        ),
        ({
            let after = issued(store, GrantModel { scope, key, owner }, correlation_id).0;
            authorize(after, scope, Some(spec_header_for(key))) == (
                after,
                Some(AuthOutcome::Authorized),
            )
        }),
{
    lemma_api_key_is_visible(scope, key);
    lemma_header_round_trip(key);
    reveal_with_fuel(run, 3);
}

/// Once the record of a key is written the key is let in, whether or not
/// it is listed yet: the guard asks for the record alone.
pub proof fn theorem_record_alone_lets_in(
    store: StoreModel,
    scope: Scope,
    key: Seq<char>,
    owner: Seq<char>,
)
    requires
        is_api_key(scope.spec_format_prefix(), key),
    ensures
        ({
            let put = CommandModel::Put { key: spec_record_key(scope, key), value: owner };
            let between = store.respond(put).0;
            &&& between.members(scope.spec_key_set()) == store.members(scope.spec_key_set())
            &&& authorize(between, scope, Some(spec_header_for(key))) == (
                between,
                Some(AuthOutcome::Authorized),
            )
        }),
{
    lemma_api_key_is_visible(scope, key);
    lemma_header_round_trip(key);
    reveal_with_fuel(run, 2);
}

/// A request whose header yields no credential is answered with 401, and
/// no command goes to the store: the request does not reach its handler.
/// That is so for a request without the header, with a header that is no
/// text, with another scheme, and with the scheme and no credential.
pub proof fn theorem_no_credential_no_entry(scope: Scope, header: Option<Seq<u8>>)
    requires
        spec_extract(header) is Err,
    ensures
        spec_validate(scope, header) matches StepModel::Finish(AuthOutcome::Rejected(rejection))
            && rejection.spec_status() == Status::Unauthorized && rejection.spec_status().spec_code()
            == 401,
        header is None ==> spec_extract(header) == Err::<Seq<char>, Rejection>(
            Rejection::MissingHeader,
        ),
        header matches Some(value) && !is_header_text(value) ==> spec_extract(header) == Err::<
            Seq<char>,
            Rejection,
        >(Rejection::NotText),
        header matches Some(value) && is_header_text(value) && !scheme_prefix().is_prefix_of(value)
            ==> spec_extract(header) == Err::<Seq<char>, Rejection>(Rejection::WrongScheme),
        header matches Some(value) && is_header_text(value) && scheme_prefix().is_prefix_of(value)
            ==> header == Some(scheme_prefix()) && spec_extract(header) == Err::<
            Seq<char>,
            Rejection,
        >(Rejection::MissingCredential),
{
    if header is Some && is_header_text(header->0) && scheme_prefix().is_prefix_of(header->0) {
        assert(header->0 =~= scheme_prefix());
    }
}

/// The header that is the scheme word and one space, with nothing behind
/// them, is rejected with 401 and sends no command.
pub proof fn theorem_scheme_alone_is_rejected(scope: Scope)
    ensures
        spec_extract(Some(scheme_prefix())) == Err::<Seq<char>, Rejection>(
            Rejection::MissingCredential,
        ),
        spec_validate(scope, Some(scheme_prefix())) == StepModel::<
            AuthState,
            AuthOutcome,
        >::Finish(AuthOutcome::Rejected(Rejection::MissingCredential)),
        Rejection::MissingCredential.spec_status().spec_code() == 401,
{
    reveal_strlit("SignalStash");
    let value = scheme_prefix();
    assert(is_header_text(value)) by {
        assert forall|i: int| 0 <= i < value.len() implies is_visible_ascii(#[trigger] value[i]) by {
        }
    }
    assert(value.is_prefix_of(value));
}

/// No request is let in on an empty credential: whatever the header, the
/// guard asks the store only for a record key that is longer than the
/// scope's namespace.
pub proof fn theorem_guard_asks_for_a_credential(scope: Scope, header: Option<Seq<u8>>)
    ensures
        spec_validate(scope, header) matches StepModel::Call { command, .. } ==> command
            matches CommandModel::Exists { key } && key.len() > scope.spec_namespace().len(),
        spec_extract(header) matches Ok(credential) ==> credential.len() > 0,
{
}

/// Revoking a key that has no record reports that it was not found and
/// leaves the store as it was; so does revoking it again.
pub proof fn theorem_revoke_unknown_is_not_found(
    store: StoreModel,
    key: Seq<char>,
    correlation_id: Seq<char>,
)
    requires
        !store.records.contains_key(spec_record_key(Scope::Ordinary, key)),
    ensures
        revoked(store, key, correlation_id) == (store, Some(RevokeOutcomeModel::NotFound)),
        revoked(revoked(store, key, correlation_id).0, key, correlation_id) == (
            store,
            Some(RevokeOutcomeModel::NotFound),
        ),
{
    reveal_with_fuel(run, 4);
}

/// Revoking a key that has a record removes record and listing; revoking
/// it once more reports that it was not found.
pub proof fn theorem_revoke_known_then_not_found(
    store: StoreModel,
    key: Seq<char>,
    correlation_id: Seq<char>,
)
    requires
        store.records.contains_key(spec_record_key(Scope::Ordinary, key)),
    ensures
        revoked(store, key, correlation_id).1 == Some(RevokeOutcomeModel::Revoked),
        !revoked(store, key, correlation_id).0.records.contains_key(
            spec_record_key(Scope::Ordinary, key),
        ),
        !revoked(store, key, correlation_id).0.members(ALL_API_KEYS@).contains(key),
        revoked(revoked(store, key, correlation_id).0, key, correlation_id).1 == Some(
            RevokeOutcomeModel::NotFound,
        ),
{
    reveal_with_fuel(run, 4);
}

/// Revoking a key leaves every other listed key with its record: where
/// the listing was backed before, it is backed after.
pub proof fn theorem_revocation_keeps_listing_backed(
    store: StoreModel,
    key: Seq<char>,
    correlation_id: Seq<char>,
)
    requires
        listing_is_backed(store),
    ensures
        listing_is_backed(revoked(store, key, correlation_id).0),
        revoked(store, key, correlation_id).1 matches Some(outcome) && !(outcome is Failed),
{
    reveal_with_fuel(run, 4);
    let after = revoked(store, key, correlation_id).0;
    if store.records.contains_key(spec_record_key(Scope::Ordinary, key)) {
        assert forall|other: Seq<char>| #[trigger]
            after.members(ALL_API_KEYS@).contains(other) implies after.records.contains_key(
            spec_record_key(Scope::Ordinary, other),
        ) by {
            assert(store.members(ALL_API_KEYS@).contains(other));
            if spec_record_key(Scope::Ordinary, other) == spec_record_key(Scope::Ordinary, key) {
                lemma_record_key_is_injective(Scope::Ordinary, other, key);
            }
        }
    }
}

/// The bootstrap ends with an admin key in the store, having issued
/// `first_key` only if there was none; a second bootstrap then writes
/// nothing and reports that an admin key exists.
pub proof fn theorem_bootstrap_twice(
    store: StoreModel,
    first_key: Seq<char>,
    second_key: Seq<char>,
    correlation_id: Seq<char>,
)
    requires
        store.well_formed(),
    ensures
        ({
            let (after, first) = bootstrapped(store, first_key, correlation_id);
            let (again, second) = bootstrapped(after, second_key, correlation_id);
            &&& store.members(ALL_ADMIN_KEYS@).len() > 0 ==> after == store && first == Some(
                BootstrapOutcomeModel::AlreadyExists,
            )
            &&& store.members(ALL_ADMIN_KEYS@).len() == 0 ==> first == Some(
                BootstrapOutcomeModel::Created(first_key),
            ) && after.members(ALL_ADMIN_KEYS@) == store.members(ALL_ADMIN_KEYS@).insert(first_key)
            &&& again == after
            &&& second == Some(BootstrapOutcomeModel::AlreadyExists)
        }),
{
    reveal_with_fuel(run, 4);
    let admins = store.members(ALL_ADMIN_KEYS@);
    assert(admins.finite());
    if admins.len() == 0 {
        assert(admins.insert(first_key).len() > 0);
    }
}

/// A finite set has as many members as the sequence made of them is long.
pub proof fn lemma_to_seq_len(set: Set<Seq<char>>)
    requires
        set.finite(),
    ensures
        set.to_seq().len() == set.len(),
    decreases set.len(),
{
    if set.len() != 0 {
        let x = set.choose();
        lemma_to_seq_len(set.remove(x));
    }
}

/// Resolving keys that all have records ends with the entries found so far
/// and one entry for each key, and leaves the store as it was.
pub proof fn lemma_resolving_lists_all(
    store: StoreModel,
    pending: Seq<Seq<char>>,
    found: Seq<ApiKeyModel>,
    fuel: nat,
    correlation_id: Seq<char>,
)
    requires
        forall|i: int|
            0 <= i < pending.len() ==> store.records.contains_key(
                #[trigger] spec_record_key(Scope::Ordinary, pending[i]),
            ),
        fuel >= pending.len(),
    ensures
        run(store, spec_resolve_next(pending, found), list_resume(correlation_id), fuel) == (
            store,
            Some(ListOutcomeModel::Listed(found + entries_of(store, pending))),
        ),
    decreases pending.len(),
{
    if pending.len() == 0 {
        assert(found + entries_of(store, pending) =~= found);
    } else {
        let record_key = spec_record_key(Scope::Ordinary, pending[0]);
        assert(store.records.contains_key(record_key));
        let entry = ApiKeyModel { key: pending[0], user_id: store.records[record_key] };
        let rest = pending.skip(1);
        assert forall|i: int| 0 <= i < rest.len() implies store.records.contains_key(
            #[trigger] spec_record_key(Scope::Ordinary, rest[i]),
        ) by {
            assert(rest[i] == pending[i + 1]);
        }
        lemma_resolving_lists_all(store, rest, found.push(entry), (fuel - 1) as nat, correlation_id);
        assert(found.push(entry) + entries_of(store, rest) =~= found + entries_of(store, pending));
        reveal_with_fuel(run, 2);
    }
}

/// On a store whose listed keys all have records, a listing gives every
/// listed key with its owner and writes nothing.
pub proof fn theorem_listing_is_complete(store: StoreModel, correlation_id: Seq<char>)
    requires
        store.well_formed(),
        listing_is_backed(store),
    ensures
        listed(store, correlation_id) == (
            store,
            Some(
                ListOutcomeModel::Listed(
                    entries_of(store, store.members(ALL_API_KEYS@).to_seq()),
                ),
            ),
        ),
        store.members(ALL_API_KEYS@).to_seq().to_set() == store.members(ALL_API_KEYS@),
{
    let members = store.members(ALL_API_KEYS@);
    let keys = members.to_seq();
    assert(members.finite());
    lemma_to_seq_len(members);
    members.lemma_to_seq_to_set_id();
    assert forall|i: int| 0 <= i < keys.len() implies store.records.contains_key(
        #[trigger] spec_record_key(Scope::Ordinary, keys[i]),
    ) by {
        assert(keys.contains(keys[i]));
        assert(keys.to_set().contains(keys[i]));
        assert(members.contains(keys[i]));
    }
    lemma_resolving_lists_all(store, keys, Seq::empty(), members.len(), correlation_id);
    assert(Seq::<ApiKeyModel>::empty() + entries_of(store, keys) =~= entries_of(store, keys));
    reveal_with_fuel(run, 2);
}

/// After a key is created for a user, a listing holds an entry with that
/// key and that user.
///
/// This asks that every key listed before has its record: a listing fails
/// as a whole on a listed key without one.
pub proof fn theorem_created_key_is_listed(
    store: StoreModel,
    key: Seq<char>,
    user_id: Seq<char>,
    correlation_id: Seq<char>,
)
    requires
        store.well_formed(),
        listing_is_backed(store),
    ensures
        ({
            let (after, made) = issued(store, spec_user_grant(key, user_id), correlation_id);
            &&& made == Some(IssueOutcomeModel::Issued(spec_user_grant(key, user_id)))
            &&& after.well_formed()
            &&& listing_is_backed(after)
            &&& listed(after, correlation_id).0 == after
            &&& listed(after, correlation_id).1 matches Some(ListOutcomeModel::Listed(entries))
            &&& entries.contains(ApiKeyModel { key, user_id })
        }),
{
    reveal_with_fuel(run, 3);
    let grant = spec_user_grant(key, user_id);
    let after = issued(store, grant, correlation_id).0;
    let record_key = spec_record_key(Scope::Ordinary, key);
    let before = store.members(ALL_API_KEYS@);
    assert(before.finite());
    assert(after.records == store.records.insert(record_key, user_id));
    assert(after.members(ALL_API_KEYS@) == before.insert(key));
    assert(after.well_formed()) by {
        let put = CommandModel::Put { key: record_key, value: user_id };
        let add = CommandModel::AddToSet { set: ALL_API_KEYS@, member: key };
        lemma_respond_well_formed(store, put);
        lemma_respond_well_formed(store.respond(put).0, add);
        assert(after == store.respond(put).0.respond(add).0);
    }
    assert(listing_is_backed(after)) by {
        assert forall|other: Seq<char>| #[trigger]
            after.members(ALL_API_KEYS@).contains(other) implies after.records.contains_key(
            spec_record_key(Scope::Ordinary, other),
        ) by {
            if other != key {
                assert(before.contains(other));
            }
        }
    }
    theorem_listing_is_complete(after, correlation_id);
    let keys = after.members(ALL_API_KEYS@).to_seq();
    let entries = entries_of(after, keys);
    assert(keys.to_set().contains(key));
    assert(keys.contains(key));
    let i = choose|i: int| 0 <= i < keys.len() && keys[i] == key;
    assert(entries[i] == ApiKeyModel { key, user_id });
}

/// A reading whose device id is text gives a sample whatever its domain
/// code is; the sample is labelled with the domain's name, and with the
/// label for unknown domains exactly where the code names no domain.
pub proof fn theorem_every_domain_is_taken(prefix: Seq<char>, reading: SensorDataModel, now: i64)
    requires
        valid_utf8(reading.device_id),
    ensures
        spec_sample(prefix, reading, now) matches Ok(sample) && sample.domain == spec_domain_label(
            reading.domain,
        ) && sample.timestamp == now && sample.value_bits == reading.datum_bits,
        Domain::spec_from_i32(reading.domain) is None <==> reading.domain != 0 && reading.domain
            != 1,
        Domain::spec_from_i32(reading.domain) is None ==> spec_domain_label(reading.domain)
            == UNKNOWN_DOMAIN@,
{
}

/// A body that is no well-formed reading, or whose device id is no text,
/// ends the request at once: status 500, a body that names the correlation
/// id, and no command to the store.
pub proof fn theorem_bad_body_writes_nothing(
    prefix: Seq<char>,
    body: Seq<u8>,
    now: i64,
    correlation_id: Seq<char>,
)
    requires
        spec_plan(prefix, body, now) is Err,
    ensures
        spec_ingest(prefix, body, now, correlation_id) matches StepModel::Finish(
            IngestOutcomeModel::Failed(response),
        ) && response.status == Status::InternalServerError && response.status.spec_code() == 500
            && response.correlation_id == correlation_id && response.body
            == spec_error_body(correlation_id),
        spec_decode(body) is Err ==> spec_plan(prefix, body, now) is Err,
{
}

/// Whether a body gives a sample does not depend on when it arrives, and
/// the time of arrival is all that differs between the samples.
pub proof fn theorem_arrival_only_stamps(prefix: Seq<char>, body: Seq<u8>, now: i64, later: i64)
    ensures
        spec_plan(prefix, body, now) is Ok <==> spec_plan(prefix, body, later) is Ok,
        spec_plan(prefix, body, now) matches Ok(sample) ==> spec_plan(prefix, body, later) == Ok::<
            SampleModel,
            IngestError,
        >(SampleModel { timestamp: later, ..sample }),
        spec_plan(prefix, body, now) matches Err(e) ==> spec_plan(prefix, body, later) == Err::<
            SampleModel,
            IngestError,
        >(e),
{
}

/// How the taking in of a reading goes on when the append's reply is in,
/// with the correlation id at hand.
pub open spec fn ingest_resume(correlation_id: Seq<char>) -> spec_fn(
    IngestState,
    ReplyModel,
) -> StepModel<IngestState, IngestOutcomeModel> {
    |state: IngestState, reply: ReplyModel|
        spec_ingest_resume(state, reply, correlation_id)
}

/// The taking in of a body that arrives at `now`, and the store afterwards.
pub open spec fn ingested(
    store: StoreModel,
    prefix: Seq<char>,
    body: Seq<u8>,
    now: i64,
    correlation_id: Seq<char>,
) -> (StoreModel, Option<IngestOutcomeModel>) {
    run(store, spec_ingest(prefix, body, now, correlation_id), ingest_resume(correlation_id), 1)
}

/// A body that gives a sample adds exactly that sample to the end of its
/// series and changes nothing else; any other body changes nothing at all.
pub proof fn theorem_ingest_appends_once(
    store: StoreModel,
    prefix: Seq<char>,
    body: Seq<u8>,
    now: i64,
    correlation_id: Seq<char>,
)
    ensures
        ({
            let (after, outcome) = ingested(store, prefix, body, now, correlation_id);
            match spec_plan(prefix, body, now) {
                Ok(sample) => {
                    &&& outcome == Some(IngestOutcomeModel::Stored)
                    &&& IngestOutcomeModel::Stored.status().spec_code() == 204
                    &&& after.samples(sample.key) == store.samples(sample.key).push(sample)
                    &&& forall|key: Seq<char>|
                        key != sample.key ==> #[trigger] after.samples(key) == store.samples(key)
                    &&& after.records == store.records
                    &&& after.sets == store.sets
                },
                Err(e) => {
                    &&& after == store
                    &&& outcome == Some(
                        IngestOutcomeModel::Failed(
                            spec_error_response(e.spec_context(), e.spec_detail(), correlation_id),
                        ),
                    )
                },
            }
        }),
{
    reveal_with_fuel(run, 2);
}

/// What a request that ends on a failure of the store is answered with:
/// status 500 and a body that names the correlation id and nothing else.
pub open spec fn is_internal_error(response: ErrorResponseModel, correlation_id: Seq<char>) -> bool {
    &&& response.status == Status::InternalServerError
    &&& response.status.spec_code() == 500
    &&& response.correlation_id == correlation_id
    &&& response.body == spec_error_body(correlation_id)
}

/// Whatever a request was doing, a failed store call ends it at once with
/// an internal error under the correlation id: in key management, in the
/// bootstrap and in ingestion alike.
pub proof fn theorem_store_failure_is_internal_error(
    reply: ReplyModel,
    correlation_id: Seq<char>,
    issue: IssueStateModel,
    list: ListStateModel,
    revoke: RevokeStateModel,
    bootstrap: BootstrapStateModel,
    fresh_key: Seq<char>,
)
    requires
        reply.is_failure(),
    ensures
        spec_issue_resume(issue, reply, correlation_id) matches StepModel::Finish(
            IssueOutcomeModel::Failed(response),
        ) && is_internal_error(response, correlation_id),
        spec_list_keys_resume(list, reply, correlation_id) matches StepModel::Finish(
            ListOutcomeModel::Failed(response),
        ) && is_internal_error(response, correlation_id),
        spec_revoke_key_resume(revoke, reply, correlation_id) matches StepModel::Finish(
            RevokeOutcomeModel::Failed(response),
        ) && is_internal_error(response, correlation_id),
        spec_admin_keys_exist_resume(AdminCheckState::Counting, reply, correlation_id)
            matches StepModel::Finish(AdminCheckOutcomeModel::Failed(response))
            && is_internal_error(response, correlation_id),
        spec_bootstrap_resume(bootstrap, reply, fresh_key, correlation_id) matches StepModel::Finish(
            BootstrapOutcomeModel::Failed(response),
        ) && is_internal_error(response, correlation_id),
        spec_ingest_resume(IngestState::Writing, reply, correlation_id) matches StepModel::Finish(
            IngestOutcomeModel::Failed(response),
        ) && is_internal_error(response, correlation_id),
{
}

} // verus!
