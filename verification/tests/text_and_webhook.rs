use deffy_bot::encryption::EncrytionHelper;
use deffy_bot::translation::{LanguageMap, TranslationManager};
use deffy_bot::webhook::{hex_encode, EventKind, Webhook};
use hmac::Mac;
use deffy_bot::facts::{fact_type_of_kind, EventType};
use deffy_bot::patreon::{
    webhook_channel_key, ApiDocument, DatabaseManager, DatabaseWebHookEvent, DiscordServerData,
    MemberAttributes, PatreonUserData, PatreonVerification, PatronStatus,
};

#[test]
fn encrypt_wraps_the_base64_text() {
    // rbase64 itself is linked here: the wrapper must hand back its
    // real encoding, prefixed.
    assert_eq!(EncrytionHelper::encrypt("hello"), format!("encrypted_{}", rbase64::encode(b"hello")));
    assert_eq!(EncrytionHelper::encrypt("hello"), "encrypted_aGVsbG8=");
    assert_eq!(EncrytionHelper::encrypt(""), "encrypted_");
}

#[test]
fn decrypt_strips_every_marker() {
    assert_eq!(EncrytionHelper::decrypt("encrypted_aGVsbG8="), "aGVsbG8=");
    assert_eq!(EncrytionHelper::decrypt("no marker here"), "no marker here");
    assert_eq!(EncrytionHelper::decrypt("encrypted_encrypted_x"), "x");
    assert_eq!(EncrytionHelper::decrypt("aencrypted_b"), "ab");
    assert_eq!(EncrytionHelper::decrypt(""), "");
    assert_eq!(EncrytionHelper::decrypt(EncrytionHelper::encrypt("hello").as_str()), "aGVsbG8=");
}

#[test]
fn hex_encoding_matches_the_reference() {
    let bytes: Vec<u8> = vec![0x00, 0x0f, 0xa5, 0xff, 0x10];
    assert_eq!(hex_encode(&bytes), hex::encode(&bytes));
    assert_eq!(hex_encode(&vec![]), "");
    assert_eq!(hex_encode(&vec![0xde, 0xad, 0xbe, 0xef]), "deadbeef");
}

#[test]
fn signature_check_accepts_the_real_tag_and_rejects_others() {
    let webhook = Webhook { webhook_secret: "SECRET-REDACTED".to_string() };
    let body = b"{\"data\":{}}";
    // Compute the expected tag with the real hmac and md5 crates.
    let mut mac = <hmac::Hmac<md5::Md5>>::new_from_slice(b"SECRET-REDACTED").unwrap();
    mac.update(body);
    let tag = hex::encode(mac.finalize().into_bytes());
    assert!(webhook.check_signature(body, &tag));
    // The comparison is exact, case included.
    assert!(!webhook.check_signature(body, &tag.to_uppercase()));
    assert!(!webhook.check_signature(body, "0000"));
    assert!(!webhook.check_signature(b"other body", &tag));
}

#[test]
fn triggers_parse_to_their_events() {
    let webhook = Webhook { webhook_secret: String::new() };
    assert_eq!(webhook.parse_event("members:create").unwrap(), EventKind::CreateMember);
    assert_eq!(webhook.parse_event("members:update").unwrap(), EventKind::UpdateMember);
    assert_eq!(webhook.parse_event("members:delete").unwrap(), EventKind::DeleteMember);
    assert_eq!(webhook.parse_event("pledges:create").unwrap(), EventKind::CreatePledge);
    assert_eq!(webhook.parse_event("members:pledge:delete").unwrap(), EventKind::DeleteMemberPledge);
    let err = webhook.parse_event("members:rename").unwrap_err();
    assert_eq!(err.trigger, "members:rename");
}

#[test]
fn member_triggers_map_to_fact_types() {
    assert_eq!(fact_type_of_kind(EventKind::CreateMember), Some(EventType::PatreonWebhookUserCreated));
    assert_eq!(fact_type_of_kind(EventKind::UpdateMember), Some(EventType::PatreonWebhookUserUpdated));
    assert_eq!(fact_type_of_kind(EventKind::DeleteMember), Some(EventType::PatreonWebhookUserDeleted));
    assert_eq!(fact_type_of_kind(EventKind::CreatePledge), None);
}

#[test]
fn translation_falls_back_step_by_step() {
    let mut tm = TranslationManager::new("en-US");
    let mut en = LanguageMap::new();
    en.insert("greet", "hello");
    en.insert("bye", "goodbye");
    tm.insert_language("en-US", en);
    let mut th = LanguageMap::new();
    th.insert("greet", "sawasdee");
    tm.insert_language("th", th);
    let mut th_th = LanguageMap::new();
    th_th.insert("bye", "la gon");
    tm.insert_language("th-TH", th_th);

    // 1. The exact locale wins where it has the key.
    assert_eq!(tm.tr("th-TH", "bye"), "la gon");
    // 2. Cutting the region finds the plain language table.
    assert_eq!(tm.tr("th-TH", "greet"), "sawasdee");
    // 3. Otherwise the fallback locale answers.
    assert_eq!(tm.tr("th-TH", "bye2"), "??bye2??");
    assert_eq!(tm.tr("de-DE", "bye"), "goodbye");
    // 4. A key found nowhere comes back wrapped in question marks.
    assert_eq!(tm.tr("de-DE", "missing"), "??missing??");
}

#[test]
fn later_translation_entries_override_earlier_ones() {
    let mut tm = TranslationManager::new("en-US");
    let mut en = LanguageMap::new();
    en.insert("greet", "hello");
    en.insert("greet", "hi");
    tm.insert_language("en-US", en);
    assert_eq!(tm.tr("en-US", "greet"), "hi");
}

#[test]
fn verification_checks_the_stored_records() {
    let users = vec![
        PatreonUserData {
            patreon_email: Some("a@example.test".to_string()),
            patreon_username: "A".to_string(),
            patreon_status: Some(PatronStatus::FormerPatron),
            last_charge_date_ms: None,
            last_charge_status: None,
            next_charge_date_ms: None,
            lifetime_support_cents: 0,
        },
        PatreonUserData {
            patreon_email: Some("b@example.test".to_string()),
            patreon_username: "B".to_string(),
            patreon_status: Some(PatronStatus::ActivePatron),
            last_charge_date_ms: None,
            last_charge_status: None,
            next_charge_date_ms: None,
            lifetime_support_cents: 100,
        },
    ];
    // A former patron's email verifies.
    let v = PatreonVerification::new("a@example.test".to_string());
    assert_eq!(v.verify(&users).unwrap(), true);
    // An already-active patron's email is refused outright.
    let v = PatreonVerification::new("b@example.test".to_string());
    assert!(v.verify(&users).is_err());
    // An unknown email does not verify.
    let v = PatreonVerification::new("c@example.test".to_string());
    assert_eq!(v.verify(&users).unwrap(), false);
}

#[test]
fn member_records_map_field_for_field() {
    let members = vec![ApiDocument {
        document_type: "member".to_string(),
        id: "m1".to_string(),
        attributes: MemberAttributes {
            email: Some("a@example.test".to_string()),
            full_name: "A Person".to_string(),
            patron_status: Some(PatronStatus::ActivePatron),
            last_charge_date_ms: Some(1_700_000_000_000),
            last_charge_status: None,
            next_charge_date_ms: None,
            lifetime_support_cents: 1234,
        },
    }];
    let records = DatabaseManager::map_members(&members);
    assert_eq!(records.len(), 1);
    assert_eq!(records[0].patreon_email.as_deref(), Some("a@example.test"));
    assert_eq!(records[0].patreon_username, "A Person");
    assert_eq!(records[0].patreon_status, Some(PatronStatus::ActivePatron));
    assert_eq!(records[0].last_charge_date_ms, Some(1_700_000_000_000));
    assert_eq!(records[0].lifetime_support_cents, 1234);
}

#[test]
fn webhook_channel_keys_name_their_columns() {
    assert_eq!(webhook_channel_key(DatabaseWebHookEvent::CreateMember), "webhook_create_member_channel_id");
    assert_eq!(webhook_channel_key(DatabaseWebHookEvent::UpdateMember), "webhook_update_member_channel_id");
    assert_eq!(webhook_channel_key(DatabaseWebHookEvent::DeleteMember), "webhook_delete_member_channel_id");
    let data = DiscordServerData {
        verify_role_id: 1,
        log_channel_id: 2,
        webhook_create_member_channel_id: 3,
        webhook_update_member_channel_id: 4,
        webhook_delete_member_channel_id: 5,
    };
    assert_eq!(data.webhook_channel_for(DatabaseWebHookEvent::CreateMember), 3);
    assert_eq!(data.webhook_channel_for(DatabaseWebHookEvent::UpdateMember), 4);
    assert_eq!(data.webhook_channel_for(DatabaseWebHookEvent::DeleteMember), 5);
}
