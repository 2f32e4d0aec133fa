use signalstashrs::auth::api_key::{
    admin_keys_exist, admin_keys_exist_resume, api_key_from_entropy, credential_start,
    extract_api_key_from_header, generate_api_key, header_is_text, join_api_key, record_key,
    validate, validate_admin_api_key, validate_api_key, validate_resume, AdminCheckOutcome,
    AdminCheckState, AuthOutcome, AuthState, Rejection, Scope, ADMIN_KEY_FORMAT_PREFIX,
    ADMIN_OWNER, ALL_ADMIN_KEYS, ALL_API_KEYS, API_ADMIN_KEY_PREFIX, API_KEY_FORMAT_PREFIX,
    API_KEY_PREFIX, AUTH_HEADER, AUTH_SCHEME, KEY_ENTROPY_BYTES,
};
use signalstashrs::status::Status;
use signalstashrs::store::{Step, StoreCommand, StoreReply};

fn is_url_safe(c: char) -> bool {
    c.is_ascii_alphanumeric() || c == '-' || c == '_'
}

#[test]
fn fixed_texts_of_the_credentials() {
    assert_eq!(AUTH_HEADER, "Authorization");
    assert_eq!(AUTH_SCHEME, "SignalStash");
    assert_eq!(API_KEY_PREFIX, "api_key:");
    assert_eq!(API_ADMIN_KEY_PREFIX, "api_admin_key:");
    assert_eq!(ALL_API_KEYS, "all_api_keys");
    assert_eq!(ALL_ADMIN_KEYS, "all_admin_keys");
    assert_eq!(API_KEY_FORMAT_PREFIX, "sk-sigstash-");
    assert_eq!(ADMIN_KEY_FORMAT_PREFIX, "sk-sigstash-admin-");
    assert_eq!(ADMIN_OWNER, "admin");
    assert_eq!(KEY_ENTROPY_BYTES, 48);
}

#[test]
fn scopes_name_their_places_in_the_store() {
    assert_eq!(Scope::Ordinary.namespace(), "api_key:");
    assert_eq!(Scope::Admin.namespace(), "api_admin_key:");
    assert_eq!(Scope::Ordinary.key_set(), "all_api_keys");
    assert_eq!(Scope::Admin.key_set(), "all_admin_keys");
    assert_eq!(Scope::Ordinary.format_prefix(), "sk-sigstash-");
    assert_eq!(Scope::Admin.format_prefix(), "sk-sigstash-admin-");
    assert_eq!(record_key(Scope::Ordinary, "abc"), "api_key:abc");
    assert_eq!(record_key(Scope::Admin, "abc"), "api_admin_key:abc");
    assert_eq!(record_key(Scope::Admin, ""), "api_admin_key:");
}

#[test]
fn generated_key_has_prefix_and_64_url_safe_characters() {
    for prefix in [API_KEY_FORMAT_PREFIX, ADMIN_KEY_FORMAT_PREFIX, "", "x"] {
        let key = generate_api_key(prefix);
        assert!(key.starts_with(prefix));
        let random_part = &key[prefix.len()..];
        assert_eq!(random_part.len(), 64);
        assert!(random_part.chars().all(is_url_safe), "{}", random_part);
        assert!(!random_part.contains('='));
        let entropy = base64::decode_config(random_part, base64::URL_SAFE_NO_PAD).unwrap();
        assert_eq!(entropy.len(), 48);
    }
}

#[test]
fn generated_keys_differ() {
    let mut seen = std::collections::HashSet::new();
    for _ in 0..200 {
        assert!(seen.insert(generate_api_key(API_KEY_FORMAT_PREFIX)));
    }
}

#[test]
fn key_from_entropy_is_prefix_and_encoding() {
    assert_eq!(api_key_from_entropy("sk-", &[0u8; 48]), format!("sk-{}", "A".repeat(64)));
    assert_eq!(api_key_from_entropy("sk-", &[0xffu8; 48]), format!("sk-{}", "_".repeat(64)));
    // 0xfb 0xff 0xbf is 111110 111111 111110 111111
    let entropy: Vec<u8> = [0xfbu8, 0xff, 0xbf].iter().cycle().take(48).cloned().collect();
    assert_eq!(api_key_from_entropy("", &entropy), "-_-_".repeat(16));
    let counting: Vec<u8> = (0u8..48).collect();
    assert_eq!(
        api_key_from_entropy("p:", &counting),
        "p:AAECAwQFBgcICQoLDA0ODxAREhMUFRYXGBkaGxwdHh8gISIjJCUmJygpKissLS4v"
    );
}

#[test]
fn key_from_entropy_of_other_lengths_is_unpadded() {
    assert_eq!(api_key_from_entropy("k", &[]), "k");
    assert_eq!(api_key_from_entropy("k", b"f"), "kZg");
    assert_eq!(api_key_from_entropy("k", b"fo"), "kZm8");
    assert_eq!(api_key_from_entropy("k", b"foo"), "kZm9v");
    assert_eq!(api_key_from_entropy("k", b"foob"), "kZm9vYg");
    assert_eq!(api_key_from_entropy("k", &[0xff, 0xfe]), "k__4");
}

#[test]
fn join_puts_prefix_before_random_part() {
    assert_eq!(join_api_key("sk-sigstash-", "abc"), "sk-sigstash-abc");
    assert_eq!(join_api_key("", "abc"), "abc");
    assert_eq!(join_api_key("abc", ""), "abc");
}

#[test]
fn header_text_is_visible_ascii_space_and_tab() {
    assert!(header_is_text(b""));
    assert!(header_is_text(b"SignalStash abc~ !"));
    assert!(header_is_text(b"a\tb"));
    assert!(!header_is_text(b"a\nb"));
    assert!(!header_is_text(b"a\x7fb"));
    assert!(!header_is_text(b"a\x00b"));
    assert!(!header_is_text(b"a\x1fb"));
    assert!(!header_is_text(&[b'a', 0x80]));
    assert!(!header_is_text(&[0xff]));
    assert!(!header_is_text("clé".as_bytes()));
}

#[test]
fn credential_starts_after_scheme_and_space() {
    assert_eq!(credential_start(b"SignalStash abc"), Some(12));
    assert_eq!(credential_start(b"SignalStash "), Some(12));
    assert_eq!(credential_start(b"SignalStash"), None);
    assert_eq!(credential_start(b"SignalStashabc"), None);
    assert_eq!(credential_start(b"SignalStas"), None);
    assert_eq!(credential_start(b""), None);
    assert_eq!(credential_start(b"signalstash abc"), None);
    assert_eq!(credential_start(b" SignalStash abc"), None);
    assert_eq!(credential_start(b"SignalStash\tabc"), None);
    assert_eq!(credential_start(b"Bearer abc"), None);
}

#[test]
fn header_yields_the_credential() {
    assert_eq!(
        extract_api_key_from_header(Some(b"SignalStash SECRET-REDACTED")),
        Ok("SECRET-REDACTED".to_string())
    );
    assert_eq!(extract_api_key_from_header(Some(b"SignalStash  x")), Ok(" x".to_string()));
    assert_eq!(extract_api_key_from_header(Some(b"SignalStash a b\tc")), Ok("a b\tc".to_string()));
}

#[test]
fn header_without_credential_is_rejected() {
    assert_eq!(extract_api_key_from_header(None), Err(Rejection::MissingHeader));
    assert_eq!(extract_api_key_from_header(Some(b"")), Err(Rejection::WrongScheme));
    assert_eq!(extract_api_key_from_header(Some(b"Bearer abc")), Err(Rejection::WrongScheme));
    assert_eq!(extract_api_key_from_header(Some(b"Basic dXNlcjpwYXNz")), Err(Rejection::WrongScheme));
    assert_eq!(extract_api_key_from_header(Some(b"SignalStash")), Err(Rejection::WrongScheme));
    assert_eq!(
        extract_api_key_from_header(Some(b"SignalStash ")),
        Err(Rejection::MissingCredential)
    );
    assert_eq!(extract_api_key_from_header(Some(b"signalstash abc")), Err(Rejection::WrongScheme));
    assert_eq!(extract_api_key_from_header(Some(b"abc")), Err(Rejection::WrongScheme));
    assert_eq!(extract_api_key_from_header(Some(&[0xff, 0xfe])), Err(Rejection::NotText));
    assert_eq!(
        extract_api_key_from_header(Some(b"SignalStash ab\x80c")),
        Err(Rejection::NotText)
    );
    assert_eq!(
        extract_api_key_from_header(Some("SignalStash clé".as_bytes())),
        Err(Rejection::NotText)
    );
}

#[test]
fn rejections_are_answered_with_401_or_500() {
    assert_eq!(Rejection::MissingHeader.status(), Status::Unauthorized);
    assert_eq!(Rejection::NotText.status(), Status::Unauthorized);
    assert_eq!(Rejection::WrongScheme.status(), Status::Unauthorized);
    assert_eq!(Rejection::MissingCredential.status(), Status::Unauthorized);
    assert_eq!(Rejection::MissingCredential.status().code(), 401);
    assert_eq!(Rejection::UnknownCredential.status(), Status::Unauthorized);
    assert_eq!(Rejection::StoreUnavailable.status(), Status::InternalServerError);
    assert_eq!(Status::Unauthorized.code(), 401);
    assert_eq!(Status::InternalServerError.code(), 500);
}

#[test]
fn status_codes() {
    assert_eq!(Status::Success.code(), 200);
    assert_eq!(Status::NoContent.code(), 204);
    assert_eq!(Status::Unauthorized.code(), 401);
    assert_eq!(Status::NotFound.code(), 404);
    assert_eq!(Status::InternalServerError.code(), 500);
    assert!(Status::Success.is_success());
    assert!(Status::NoContent.is_success());
    assert!(!Status::Unauthorized.is_success());
    assert!(!Status::NotFound.is_success());
    assert!(!Status::InternalServerError.is_success());
}

#[test]
fn absent_or_wrong_header_never_reaches_the_store() {
    let headers: [Option<&[u8]>; 7] = [
        None,
        Some(b"Bearer sk-sigstash-abc"),
        Some(b"SignalStash"),
        Some(b"SignalStash "),
        Some(b"sk-sigstash-abc"),
        Some(b""),
        Some(&[0xc3, 0x28]),
    ];
    for header in headers {
        for step in [validate_api_key(header), validate_admin_api_key(header)] {
            match step {
                Step::Finish(AuthOutcome::Rejected(rejection)) => {
                    assert_eq!(rejection.status().code(), 401);
                }
                other => panic!("{:?} was not rejected at once: {:?}", header, other),
            }
        }
    }
}

#[test]
fn credential_is_looked_up_in_the_namespace_of_the_scope() {
    let header: Option<&[u8]> = Some(b"SignalStash sk-sigstash-abc");
    assert_eq!(
        validate_api_key(header),
        Step::Call {
            command: StoreCommand::Exists { key: "api_key:sk-sigstash-abc".to_string() },
            state: AuthState::Checking,
        }
    );
    assert_eq!(
        validate_admin_api_key(header),
        Step::Call {
            command: StoreCommand::Exists { key: "api_admin_key:sk-sigstash-abc".to_string() },
            state: AuthState::Checking,
        }
    );
    assert_eq!(validate(Scope::Ordinary, header), validate_api_key(header));
    assert_eq!(validate(Scope::Admin, header), validate_admin_api_key(header));
}

#[test]
fn store_answer_decides() {
    assert_eq!(
        validate_resume(AuthState::Checking, StoreReply::Flag(true)),
        Step::Finish(AuthOutcome::Authorized)
    );
    assert_eq!(
        validate_resume(AuthState::Checking, StoreReply::Flag(false)),
        Step::Finish(AuthOutcome::Rejected(Rejection::UnknownCredential))
    );
    for reply in [
        StoreReply::NoConnection,
        StoreReply::CommandFailed,
        StoreReply::Done,
        StoreReply::Count(1),
        StoreReply::Text("1".to_string()),
        StoreReply::Members(vec![]),
    ] {
        assert_eq!(
            validate_resume(AuthState::Checking, reply),
            Step::Finish(AuthOutcome::Rejected(Rejection::StoreUnavailable))
        );
    }
}

#[test]
fn admin_keys_exist_counts_the_admin_set() {
    assert_eq!(
        admin_keys_exist(),
        Step::Call {
            command: StoreCommand::SetCardinality { set: "all_admin_keys".to_string() },
            state: AdminCheckState::Counting,
        }
    );
    assert_eq!(
        admin_keys_exist_resume(AdminCheckState::Counting, StoreReply::Count(0)),
        Step::Finish(AdminCheckOutcome::Known(false))
    );
    assert_eq!(
        admin_keys_exist_resume(AdminCheckState::Counting, StoreReply::Count(1)),
        Step::Finish(AdminCheckOutcome::Known(true))
    );
    assert_eq!(
        admin_keys_exist_resume(AdminCheckState::Counting, StoreReply::Count(usize::MAX)),
        Step::Finish(AdminCheckOutcome::Known(true))
    );
    for reply in [StoreReply::NoConnection, StoreReply::CommandFailed, StoreReply::Flag(true), StoreReply::Done] {
        match admin_keys_exist_resume(AdminCheckState::Counting, reply) {
            Step::Finish(AdminCheckOutcome::Failed(response)) => {
                assert_eq!(response.status.code(), 500);
                assert_eq!(response.context, "Failed to count admin API keys");
                assert_eq!(response.correlation_id.len(), 36);
                assert_eq!(
                    response.body,
                    format!("internal error (correlation id: {})", response.correlation_id)
                );
            }
            other => panic!("{:?}", other),
        }
    }
}

#[test]
fn scheme_without_credential_is_rejected_with_401_and_asks_nothing() {
    for scope in [Scope::Ordinary, Scope::Admin] {
        assert_eq!(
            validate(scope, Some(b"SignalStash ")),
            Step::Finish(AuthOutcome::Rejected(Rejection::MissingCredential))
        );
    }
    assert_eq!(Rejection::MissingCredential.status().code(), 401);
    // one character behind the space is a credential
    assert_eq!(extract_api_key_from_header(Some(b"SignalStash x")), Ok("x".to_string()));
    assert_eq!(extract_api_key_from_header(Some(b"SignalStash  ")), Ok(" ".to_string()));
}
