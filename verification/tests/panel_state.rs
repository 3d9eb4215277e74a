use aiu_desktop::reader::{read_line_bounded, SliceReader};
use aiu_desktop::keys::{selector, selector_args, split_key};
use aiu_desktop::panel::{reset_args, Action, CloseDecision, PanelState};
use aiu_desktop::protocol::{Account, BankedResetCredit, BankedResets, PendingResetRequest, Window};
use aiu_desktop::session::Message;
use aiu_desktop::text::{colon_join, u8_to_decimal};
use aiu_desktop::tray::{command_for_click, command_for_menu_id, icon_pixels, Command};
use aiu_desktop::view::{credit_available_now, shows_banked_resets, window_caption, window_status, ResetControl, WindowStatus};

fn codex(email: &str, org: &str, resets: Option<BankedResets>) -> Account {
    Account {
        provider: "codex".into(),
        email: email.into(),
        org: org.into(),
        banked_resets: resets,
        ..Default::default()
    }
}

fn ready_panel(accounts: Vec<Account>) -> PanelState {
    let (mut panel, launch) = PanelState::new(false, true, accounts);
    assert!(launch.is_some());
    panel.launched();
    assert!(panel.finish(Message::Result {
        ok: true,
        cancelled: false,
        message: "ready".into(),
        accounts: None,
        error: None,
    }));
    panel
}

fn is_uuid_v4(id: &str) -> bool {
    id.len() == 36
        && id.chars().enumerate().all(|(i, c)| {
            if [8, 13, 18, 23].contains(&i) {
                c == '-'
            } else {
                c.is_ascii_hexdigit() && !c.is_ascii_uppercase()
            }
        })
        && id.as_bytes()[14] == b'4'
        && matches!(id.as_bytes()[19], b'8' | b'9' | b'a' | b'b')
}

#[test]
fn decimal_and_joins_match_the_standard_rendering() {
    for n in [0u8, 7, 10, 37, 99, 100, 205, 255] {
        assert_eq!(u8_to_decimal(n), n.to_string());
    }
    assert_eq!(colon_join("code", "message"), "code: message");
}

#[test]
fn selectors_and_their_parts() {
    let account = codex("a@example.test", "org", None);
    assert_eq!(selector(&account), "codex:a@example.test#org");
    assert_eq!(split_key("other:x#y"), ("other".to_string(), Some("x#y".to_string())));
    assert_eq!(split_key("a:b:c"), ("a".to_string(), Some("b:c".to_string())));
    assert_eq!(split_key("plain"), ("plain".to_string(), None));
    assert_eq!(selector_args("switch", "plain".into()), ("switch", vec!["--provider".to_string(), "plain".into(), String::new()]));
}

#[test]
fn reset_arguments_carry_the_intent() {
    let intent = PendingResetRequest { request_id: "id-1".into(), credit_id: Some("c-1".into()) };
    assert_eq!(
        reset_args("codex:a#org", &intent),
        ["--provider", "codex", "a#org", "--yes", "--request-id", "id-1", "--credit-id", "c-1"]
    );
    let intent = PendingResetRequest { request_id: "id-2".into(), credit_id: None };
    assert_eq!(reset_args("nocolon", &intent), ["--provider", "codex", "--yes", "--request-id", "id-2"]);
}

#[test]
fn sample_data_never_launches() {
    let (mut panel, launch) = PanelState::new(true, true, Vec::new());
    assert!(launch.is_none());
    assert_eq!(panel.message, "Sample data \u{2014} backend actions are disabled");
    assert!(panel.begin(Action::Status).is_none());
    assert!(!panel.editable());
    assert!(!panel.should_poll(1000));
}

#[test]
fn a_missing_backend_is_reported() {
    let (mut panel, launch) = PanelState::new(false, false, Vec::new());
    assert!(launch.is_none());
    assert_eq!(panel.message, "AIU backend executable is unavailable beside aiu-desktop");
    assert!(panel.begin(Action::Sync).is_none());
}

#[test]
fn only_one_operation_runs_at_a_time() {
    let (mut panel, launch) = PanelState::new(false, true, Vec::new());
    let launch = launch.unwrap();
    assert_eq!(launch.command, "status");
    assert!(launch.args.is_empty());
    assert_eq!(panel.message, "Working\u{2026}");
    panel.launched();
    assert!(panel.begin(Action::Sync).is_none());
    assert!(!panel.should_poll(120));
}

#[test]
fn add_and_login_pass_provider_and_label() {
    let mut panel = ready_panel(Vec::new());
    let launch = panel.begin(Action::Login("other".into(), "Work".into())).unwrap();
    assert_eq!(launch.command, "login");
    assert_eq!(launch.args, ["--provider", "other", "--label", "Work"]);
}

#[test]
fn a_failed_launch_clears_the_active_operation() {
    let mut panel = ready_panel(Vec::new());
    let launch = panel.begin(Action::AutoReset("codex:a#org".into(), None, Some(5))).unwrap();
    assert_eq!(launch.command, "auto-reset");
    assert_eq!(panel.active_auto_threshold, Some(("codex:a#org".to_string(), 5)));
    panel.launch_failed("no such file");
    assert_eq!(panel.message, "Could not start AIU: no such file");
    assert!(panel.active_auto_threshold.is_none());
    assert!(!panel.busy);
}

#[test]
fn a_reset_keeps_its_intent_until_a_terminal_result() {
    let resets = BankedResets { can_redeem: true, ..Default::default() };
    let mut panel = ready_panel(vec![codex("a", "org", Some(resets))]);
    let launch = panel.begin(Action::Reset("codex:a#org".into(), Some("credit-7".into()))).unwrap();
    assert_eq!(launch.command, "reset");
    let id = launch.args[5].clone();
    assert!(is_uuid_v4(&id));
    assert_eq!(launch.args, ["--provider", "codex", "a#org", "--yes", "--request-id", id.as_str(), "--credit-id", "credit-7"]);
    panel.launched();
    assert!(!panel.finish(Message::Failed("network".into())));
    assert_eq!(panel.message, "network");
    assert!(panel.reset_intents.contains_key("codex:a#org"));

    let retry = panel.begin(Action::Reset("codex:a#org".into(), None)).unwrap();
    assert_eq!(retry.args, launch.args);
    panel.launched();
    assert!(panel.finish(Message::Result { ok: true, cancelled: true, message: String::new(), accounts: None, error: None }));
    assert_eq!(panel.message, "Cancelled");
    assert!(panel.reset_intents.contains_key("codex:a#org"));

    panel.begin(Action::Reset("codex:a#org".into(), None)).unwrap();
    panel.launched();
    panel.finish(Message::Result { ok: true, cancelled: false, message: "redeemed".into(), accounts: None, error: None });
    assert_eq!(panel.message, "redeemed");
    assert!(!panel.reset_intents.contains_key("codex:a#org"));
}

#[test]
fn a_backend_pending_request_is_retried_as_is() {
    let pending = PendingResetRequest { request_id: "11111111-1111-4111-8111-111111111111".into(), credit_id: None };
    let resets = BankedResets { pending_request: Some(pending), ..Default::default() };
    let mut panel = ready_panel(vec![codex("a", "org", Some(resets))]);
    let launch = panel.begin(Action::Reset("codex:a#org".into(), Some("ignored".into()))).unwrap();
    assert_eq!(launch.args, ["--provider", "codex", "a#org", "--yes", "--request-id", "11111111-1111-4111-8111-111111111111"]);
}

#[test]
fn failed_results_show_the_error_and_keep_the_accounts() {
    let mut panel = ready_panel(vec![codex("a", "org", None)]);
    panel.begin(Action::Status).unwrap();
    panel.launched();
    assert!(panel.finish(Message::Result { ok: false, cancelled: false, message: "ignored".into(), accounts: Some(Vec::new()), error: Some("operation_failed: x".into()) }));
    assert_eq!(panel.message, "operation_failed: x");
    assert_eq!(panel.accounts.len(), 1);
    panel.begin(Action::Status).unwrap();
    panel.launched();
    panel.finish(Message::Result { ok: false, cancelled: false, message: String::new(), accounts: None, error: None });
    assert_eq!(panel.message, "AIU operation failed");
    panel.begin(Action::Status).unwrap();
    panel.launched();
    panel.finish(Message::Result { ok: true, cancelled: false, message: "ok".into(), accounts: Some(Vec::new()), error: None });
    assert!(panel.accounts.is_empty());
}

#[test]
fn progress_only_changes_the_message() {
    let mut panel = ready_panel(Vec::new());
    panel.begin(Action::Status).unwrap();
    panel.launched();
    assert!(!panel.finish(Message::Progress("waiting for browser".into())));
    assert_eq!(panel.message, "waiting for browser");
    assert!(panel.busy);
}

#[test]
fn a_confirmed_threshold_clears_its_draft() {
    let resets = BankedResets { auto_reset_threshold_percent: 1, ..Default::default() };
    let mut panel = ready_panel(vec![codex("a", "org", Some(resets))]);
    assert_eq!(panel.edit_threshold_draft("codex:a#org", 150, 1), 99);
    assert_eq!(panel.threshold_draft("codex:a#org", 1), 99);
    assert!(panel.can_save_threshold(99, 1));
    panel.begin(Action::AutoReset("codex:a#org".into(), None, Some(99))).unwrap();
    panel.launched();
    // A snapshot that does not hold the new threshold keeps the draft.
    let stale = BankedResets { auto_reset_threshold_percent: 1, ..Default::default() };
    panel.finish(Message::Result { ok: true, cancelled: false, message: String::new(), accounts: Some(vec![codex("a", "org", Some(stale))]), error: None });
    assert_eq!(panel.auto_threshold_drafts.get("codex:a#org"), Some(&99));

    panel.begin(Action::AutoReset("codex:a#org".into(), None, Some(99))).unwrap();
    panel.launched();
    let saved = BankedResets { auto_reset_threshold_percent: 99, ..Default::default() };
    panel.finish(Message::Result { ok: true, cancelled: false, message: String::new(), accounts: Some(vec![codex("a", "org", Some(saved))]), error: None });
    assert!(panel.auto_threshold_drafts.is_empty());
    assert_eq!(panel.edit_threshold_draft("codex:a#org", 99, 99), 99);
    assert!(panel.auto_threshold_drafts.is_empty());
}

#[test]
fn quitting_waits_for_the_operation() {
    let mut panel = ready_panel(Vec::new());
    panel.begin(Action::Status).unwrap();
    panel.launched();
    assert_eq!(panel.close_requested(true), CloseDecision::HideToTray);
    assert!(panel.request_cancel());
    assert_eq!(panel.message, "Cancelling\u{2026}");
    assert_eq!(panel.close_requested(false), CloseDecision::Quit { cancel: true });
    assert_eq!(panel.message, "Finishing current operation\u{2026}");
    assert!(!panel.should_close());
    assert!(panel.begin(Action::Status).is_none());
    panel.finish(Message::Result { ok: false, cancelled: true, message: String::new(), accounts: None, error: None });
    assert!(panel.should_close());
    assert_eq!(panel.close_requested(true), CloseDecision::Quit { cancel: false });
    assert!(!panel.request_cancel());
}

#[test]
fn polling_is_due_after_a_minute() {
    let panel = ready_panel(Vec::new());
    assert!(!panel.should_poll(59));
    assert!(panel.should_poll(60));
}

#[test]
fn reset_controls_follow_the_reset_state() {
    let credit = |id: &str, title: &str, can_redeem: bool| BankedResetCredit {
        id: id.into(),
        title: title.into(),
        can_redeem,
        ..Default::default()
    };
    let offered = BankedResets {
        can_redeem: true,
        credits: Some(vec![credit("c0", "", false), credit("c1", "", true), credit("c2", "Later", true)]),
        ..Default::default()
    };
    let mut panel = ready_panel(vec![codex("a", "org", Some(offered))]);
    let account = panel.accounts[0].clone();
    match panel.reset_control(&account) {
        ResetControl::UseCredit { credit, title } => {
            assert_eq!(credit, "c1");
            assert_eq!(title, "Use a reset");
        }
        other => panic!("unexpected {other:?}"),
    }
    assert!(panel.can_use_credit(&account, &account.banked_resets.as_ref().unwrap().credits.as_ref().unwrap()[2]));
    assert!(!panel.can_use_credit(&account, &account.banked_resets.as_ref().unwrap().credits.as_ref().unwrap()[0]));
    let confirmation = panel.confirmation("codex:a#org", &Some("c1".into()));
    assert_eq!(confirmation.identity, "a (org)");
    assert!(confirmation.enabled);
    assert!(!panel.confirmation("codex:a#org", &Some("c0".into())).enabled);
    assert!(!panel.confirmation("codex:missing#", &None).enabled);
    assert_eq!(panel.confirmation("codex:missing#", &None).identity, "codex:missing#");

    panel.begin(Action::Reset("codex:a#org".into(), Some("c1".into()))).unwrap();
    panel.launched();
    panel.finish(Message::Failed("timeout".into()));
    assert!(panel.reset_pending(&account));
    match panel.reset_control(&account) {
        ResetControl::Retry { credit_id } => assert_eq!(credit_id.as_deref(), Some("c1")),
        other => panic!("unexpected {other:?}"),
    }
    assert!(!panel.confirmation("codex:a#org", &Some("c1".into())).enabled);
    assert!(!panel.can_use_credit(&account, &account.banked_resets.as_ref().unwrap().credits.as_ref().unwrap()[2]));

    let next = ready_panel(vec![codex("b", "", Some(BankedResets { can_redeem: true, ..Default::default() }))]);
    assert!(matches!(next.reset_control(&next.accounts[0]), ResetControl::UseNext));
    let none = ready_panel(vec![codex("b", "", Some(BankedResets::default()))]);
    assert!(matches!(none.reset_control(&none.accounts[0]), ResetControl::Unavailable));
    assert!(!credit_available_now(&none.accounts[0], &None));
}

#[test]
fn confirmation_names_the_workspace() {
    let mut account = codex("a@example.test", "org-1", Some(BankedResets { can_redeem: true, ..Default::default() }));
    account.org_name = "Work".into();
    let panel = ready_panel(vec![account]);
    let confirmation = panel.confirmation("codex:a@example.test#org-1", &None);
    assert_eq!(confirmation.identity, "a@example.test (Work)");
    assert!(confirmation.enabled);
}

#[test]
fn banked_reset_controls_are_for_codex_rows_with_state() {
    assert!(shows_banked_resets(&codex("a", "o", Some(BankedResets::default()))));
    assert!(!shows_banked_resets(&codex("a", "o", None)));
    let other = Account { provider: "other".into(), banked_resets: Some(BankedResets::default()), ..Default::default() };
    assert!(!shows_banked_resets(&other));
}

#[test]
fn window_labels_and_status() {
    let locked = Window { key: "five_hour".into(), severity: "locked".into(), known: true, ..Default::default() };
    assert_eq!(window_status(&locked), WindowStatus::Locked);
    assert_eq!(window_caption(&locked), "five_hour");
    let unknown = Window { label: "Session".into(), known: false, ..Default::default() };
    assert_eq!(window_status(&unknown), WindowStatus::Unknown);
    assert_eq!(window_caption(&unknown), "Session");
    let known = Window { known: true, percent_bits: 42.5f64.to_bits(), ..Default::default() };
    assert_eq!(window_status(&known), WindowStatus::Known);
}

#[test]
fn tray_menu_ids_and_clicks() {
    assert_eq!(command_for_menu_id("aiu-show"), Some(Command::Show));
    assert_eq!(command_for_menu_id("aiu-refresh"), Some(Command::Refresh));
    assert_eq!(command_for_menu_id("aiu-quit"), Some(Command::Quit));
    assert_eq!(command_for_menu_id("other"), None);
    assert_eq!(command_for_click(true, false), Some(Command::Show));
    assert_eq!(command_for_click(true, true), None);
    assert_eq!(command_for_click(false, false), None);
}

#[test]
fn the_icon_draws_three_bars() {
    let pixels = icon_pixels();
    assert_eq!(pixels.len(), 32 * 32 * 4);
    let at = |x: usize, y: usize| &pixels[(y * 32 + x) * 4..(y * 32 + x) * 4 + 4];
    assert_eq!(at(4, 18), [133, 203, 193, 255]);
    assert_eq!(at(9, 27), [133, 203, 193, 255]);
    assert_eq!(at(10, 27), [0, 0, 0, 0]);
    assert_eq!(at(4, 17), [0, 0, 0, 0]);
    assert_eq!(at(13, 10), [133, 203, 193, 255]);
    assert_eq!(at(22, 4), [133, 203, 193, 255]);
    assert_eq!(at(27, 27), [133, 203, 193, 255]);
    assert_eq!(at(22, 28), [0, 0, 0, 0]);
    assert_eq!(pixels.iter().filter(|b| **b == 255).count(), 6 * 10 + 6 * 18 + 6 * 24);
}

#[test]
fn the_provider_is_chosen_from_the_offered_providers() {
    let rows = vec![
        Account { provider: "other".into(), ..Default::default() },
        codex("a", "org", None),
        Account { provider: String::new(), ..Default::default() },
        Account { provider: "other".into(), email: "b".into(), ..Default::default() },
    ];
    let mut panel = ready_panel(rows);
    assert_eq!(panel.provider, "codex");
    assert_eq!(panel.provider_choices(), ["codex", "other"]);
    assert!(panel.select_provider("other"));
    assert_eq!(panel.provider, "other");
    assert!(!panel.select_provider("typo"));
    assert_eq!(panel.provider, "other");
    assert!(!panel.select_provider(""));
    assert!(panel.select_provider("codex"));
    assert_eq!(panel.provider, "codex");
    let (fresh, _) = PanelState::new(true, false, Vec::new());
    assert_eq!(fresh.provider_choices(), ["codex"]);
}

#[test]
fn successive_reads_cover_the_whole_stream() {
    let stream = b"first\n\nthird line\nrest".to_vec();
    let mut reader = SliceReader::with_capacity(3, stream.clone());
    let mut lines = Vec::new();
    while let Some(line) = read_line_bounded(&mut reader, 64).unwrap() {
        lines.push(line);
    }
    assert_eq!(lines.len(), 4);
    assert_eq!(lines.concat(), stream);
    assert_eq!(lines[1], b"\n".to_vec());
    assert_eq!(lines[3], b"rest".to_vec());
}
