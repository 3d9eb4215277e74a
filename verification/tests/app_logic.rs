use aiu_desktop::intents::{
    current_threshold_draft, get_or_create_reset_intent, new_request_id, threshold_saved_in_snapshot,
};
use aiu_desktop::keys::auto_reset_args;
use aiu_desktop::protocol::{Account, BankedResets, PendingResetRequest};
use aiu_desktop::StringHashMap;

#[test]
fn uncertain_reset_retry_reuses_the_confirmed_request_id_and_credit() {
    let mut intents = StringHashMap::new();
    let first =
        get_or_create_reset_intent(&mut intents, "codex:a#org", None, Some("credit-7".into())).unwrap();
    // A failed or ambiguous operation is retried: the id and credit must stay.
    let retry = get_or_create_reset_intent(&mut intents, "codex:a#org", None, None).unwrap();
    assert!(!first.request_id.is_empty());
    assert_eq!(first.request_id, retry.request_id);
    assert_eq!(retry.credit_id.as_deref(), Some("credit-7"));
}

#[test]
fn backend_pending_request_wins_when_restarting_the_frontend() {
    let mut intents = StringHashMap::new();
    let pending = PendingResetRequest {
        request_id: "11111111-1111-4111-8111-111111111111".into(),
        credit_id: None,
    };
    let intent = get_or_create_reset_intent(&mut intents, "codex:a#org", Some(pending), None).unwrap();
    assert_eq!(intent.request_id, "11111111-1111-4111-8111-111111111111");
}

#[test]
fn backend_pending_request_replaces_a_local_intent_that_was_never_accepted() {
    let mut intents = StringHashMap::new();
    intents.insert(
        "codex:a#org".to_string(),
        PendingResetRequest {
            request_id: "22222222-2222-4222-8222-222222222222".into(),
            credit_id: Some("stale-credit".into()),
        },
    );
    let backend = PendingResetRequest {
        request_id: "11111111-1111-4111-8111-111111111111".into(),
        credit_id: Some("authoritative-credit".into()),
    };
    let intent = get_or_create_reset_intent(&mut intents, "codex:a#org", Some(backend), None).unwrap();
    assert_eq!(intent.request_id, "11111111-1111-4111-8111-111111111111");
    assert_eq!(intent.credit_id.as_deref(), Some("authoritative-credit"));
}

#[test]
fn threshold_save_preserves_enabled_state_and_sends_only_the_threshold() {
    let args = auto_reset_args("codex:a#org", None, Some(0));
    assert_eq!(args, ["--provider", "codex", "a#org", "--threshold", "0"]);
    assert!(!args.iter().any(|arg| arg == "--enabled"));
}

#[test]
fn enabling_auto_reset_atomically_sends_the_current_threshold_draft() {
    let args = auto_reset_args("codex:a#org", Some(true), Some(37));
    assert_eq!(
        args,
        [
            "--provider",
            "codex",
            "a#org",
            "--enabled",
            "true",
            "--threshold",
            "37"
        ]
    );
}

#[test]
fn local_threshold_draft_requires_matching_authoritative_snapshot_to_clear() {
    let key = "codex:a#org";
    assert!(!threshold_saved_in_snapshot(None, key, 42));
    let accounts = vec![Account {
        provider: "codex".into(),
        email: "a".into(),
        org: "org".into(),
        banked_resets: Some(BankedResets {
            auto_reset_threshold_percent: 41,
            ..Default::default()
        }),
        ..Default::default()
    }];
    assert!(!threshold_saved_in_snapshot(Some(&accounts), key, 42));
    assert!(threshold_saved_in_snapshot(Some(&accounts), key, 41));
}

#[test]
fn external_threshold_updates_refresh_clean_controls_and_preserve_dirty_drafts() {
    let key = "codex:a#org";
    let mut drafts = StringHashMap::new();
    assert_eq!(current_threshold_draft(&mut drafts, key, 5), 5);
    assert_eq!(current_threshold_draft(&mut drafts, key, 12), 12);
    assert!(drafts.is_empty());

    drafts.insert(key.into(), 37);
    assert_eq!(current_threshold_draft(&mut drafts, key, 20), 37);
    assert_eq!(drafts.get(key), Some(&37));

    assert_eq!(current_threshold_draft(&mut drafts, key, 37), 37);
    assert!(drafts.is_empty());
}

#[test]
fn request_ids_are_fresh_random_uuids() {
    let a = new_request_id().unwrap();
    let b = new_request_id().unwrap();
    assert_ne!(a, b);
    for id in [a, b] {
        assert_eq!(id.len(), 36);
        assert_eq!(id.as_bytes()[14], b'4');
        assert!(matches!(id.as_bytes()[19], b'8' | b'9' | b'a' | b'b'));
        assert!(id.chars().all(|c| c == '-' || c.is_ascii_digit() || ('a'..='f').contains(&c)));
    }
}
