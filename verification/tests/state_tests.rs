use vipperfox::models::{
    activity_kind_code, activity_kind_from_code, ActivityEntry, ActivityKind, AppSnapshot, AuthSession,
    ConnectionStatus, HelixStream, StreamInfo, VipUser,
};
use vipperfox::state::{initial_snapshot, normalized_threshold, threshold_from_setting, CoreState, ACTIVITY_LIMIT};
use vipperfox::text::format_u64;

fn vip(id: &str, login: &str, wrote: bool) -> VipUser {
    VipUser {
        user_id: id.into(),
        login: login.into(),
        display_name: login.to_uppercase(),
        watch_streak: None,
        wrote_this_stream: wrote,
    }
}

fn entry(id: i64) -> ActivityEntry {
    ActivityEntry { id, kind: ActivityKind::System, title: format!("t{id}"), detail: String::new(), created_at: String::new() }
}

fn auth() -> AuthSession {
    AuthSession {
        client_id: "c".into(),
        access_token: "t".into(),
        broadcaster_id: "7".into(),
        login: "fox".into(),
        display_name: "Fox".into(),
    }
}

fn core_with(vips: Vec<VipUser>) -> CoreState {
    let mut snapshot = AppSnapshot::default();
    snapshot.vip_count = vips.len();
    snapshot.vips = vips;
    CoreState::new(snapshot)
}

#[test]
fn default_snapshot_is_disconnected_with_complete_report() {
    let s = AppSnapshot::default();
    assert!(!s.configured);
    assert_eq!(s.connection_status, ConnectionStatus::Disconnected);
    assert!(s.report_complete);
    assert_eq!(s.streak_threshold, 150);
    assert_eq!(s.vip_count, 0);
}

#[test]
fn activity_kind_codes_round_trip() {
    for kind in [ActivityKind::VipAdd, ActivityKind::VipRemove, ActivityKind::System, ActivityKind::Warning] {
        assert_eq!(activity_kind_from_code(activity_kind_code(kind)), kind);
    }
    assert_eq!(activity_kind_code(ActivityKind::VipRemove), "vip_remove");
    assert_eq!(activity_kind_from_code("something"), ActivityKind::System);
}

#[test]
fn threshold_setting_is_read_back() {
    assert_eq!(threshold_from_setting(&None), 150);
    assert_eq!(threshold_from_setting(&Some("abc".into())), 150);
    assert_eq!(threshold_from_setting(&Some("42".into())), 42);
    assert_eq!(threshold_from_setting(&Some(format_u64(987))), 987);
    assert_eq!(normalized_threshold(0), 1);
    assert_eq!(normalized_threshold(5), 5);
    let s = initial_snapshot(&Some("30".into()), vec![entry(1)]);
    assert_eq!(s.streak_threshold, 30);
    assert_eq!(s.activities.len(), 1);
    assert!(!s.configured);
}

#[test]
fn history_keeps_newest_hundred() {
    let mut core = core_with(vec![]);
    for id in 0..150 {
        core.record_activity(entry(id));
    }
    assert_eq!(core.snapshot.activities.len(), ACTIVITY_LIMIT);
    assert_eq!(core.snapshot.activities[0].id, 149);
    assert_eq!(core.snapshot.activities[99].id, 50);
}

#[test]
fn configure_error_and_disconnect() {
    let mut core = core_with(vec![vip("1", "a", false)]);
    core.configure(auth());
    assert!(core.snapshot.configured);
    assert_eq!(core.snapshot.channel_login.as_deref(), Some("fox"));
    assert_eq!(core.snapshot.connection_status, ConnectionStatus::Connecting);
    core.snapshot.stream = Some(StreamInfo { id: "s".into(), started_at: "t".into(), complete: true });
    core.mark_connection_error("boom".into());
    assert_eq!(core.snapshot.connection_status, ConnectionStatus::Error);
    assert_eq!(core.snapshot.last_error.as_deref(), Some("boom"));
    assert!(!core.snapshot.stream.as_ref().unwrap().complete);
    core.mark_connected();
    assert_eq!(core.snapshot.connection_status, ConnectionStatus::Connected);
    assert!(core.snapshot.last_error.is_none());
    core.set_streak_threshold(77);
    core.chat_message("9".into());
    core.disconnect(vec![entry(5)]);
    assert!(core.auth.is_none());
    assert!(core.chatters.is_empty());
    assert_eq!(core.snapshot.streak_threshold, 77);
    assert_eq!(core.snapshot.activities.len(), 1);
    assert!(core.snapshot.vips.is_empty());
    assert!(!core.snapshot.configured);
}

#[test]
fn refreshed_vips_keep_known_streak_and_chat() {
    let mut known = vip("1", "a", true);
    known.watch_streak = Some(12);
    let mut core = core_with(vec![known]);
    core.chat_message("2".into());
    core.apply_refreshed_vips(vec![vip("1", "a", false), vip("2", "b", false), vip("3", "c", false)]);
    assert_eq!(core.snapshot.vip_count, 3);
    assert_eq!(core.snapshot.vips[0].watch_streak, Some(12));
    assert!(core.snapshot.vips[0].wrote_this_stream);
    assert!(core.snapshot.vips[1].wrote_this_stream);
    assert!(!core.snapshot.vips[2].wrote_this_stream);
}

#[test]
fn reconcile_with_live_stream_and_with_ended_stream() {
    let mut core = core_with(vec![]);
    core.chat_message("1".into());
    core.apply_reconcile(vec![vip("1", "a", false)], Some(HelixStream { id: "s1".into(), started_at: "t".into() }));
    let stream = core.snapshot.stream.clone().unwrap();
    assert_eq!(stream.id, "s1");
    assert!(!stream.complete);
    assert!(core.chatters.is_empty());
    assert!(core.snapshot.vips[0].wrote_this_stream);

    core.chat_message("1".into());
    core.apply_reconcile(vec![vip("1", "a", false)], Some(HelixStream { id: "s1".into(), started_at: "t".into() }));
    assert_eq!(core.chatters.len(), 1);

    core.apply_reconcile(vec![vip("1", "a", false), vip("2", "b", false)], None);
    assert!(core.snapshot.stream.is_none());
    assert!(!core.snapshot.report_complete);
    assert_eq!(core.snapshot.report.len(), 1);
    assert_eq!(core.snapshot.report[0].user_id, "2");
    assert!(core.chatters.is_empty());
}

#[test]
fn a_monitored_stream_reports_silent_vips() {
    let mut core = core_with(vec![vip("1", "a", true), vip("2", "b", true)]);
    core.stream_online("s".into(), "t".into());
    assert!(core.snapshot.vips.iter().all(|v| !v.wrote_this_stream));
    assert!(core.snapshot.report.is_empty());
    core.chat_message("1".into());
    core.chat_message("1".into());
    assert_eq!(core.chatters.len(), 1);
    assert!(core.snapshot.vips[0].wrote_this_stream);
    core.stream_offline(vec![vip("1", "a", false), vip("2", "b", false), vip("3", "c", false)]);
    assert!(core.snapshot.report_complete);
    assert!(core.snapshot.stream.is_none());
    let ids: Vec<&str> = core.snapshot.report.iter().map(|r| r.user_id.as_str()).collect();
    assert_eq!(ids, vec!["2", "3"]);
    assert_eq!(core.snapshot.vip_count, 3);
}

#[test]
fn offline_without_stream_gives_incomplete_report() {
    let mut core = core_with(vec![]);
    core.stream_offline(vec![vip("1", "a", false)]);
    assert!(!core.snapshot.report_complete);
    assert_eq!(core.snapshot.report.len(), 1);
}

#[test]
fn watch_streak_grants_only_new_viewers_over_threshold() {
    let mut core = core_with(vec![vip("1", "a", false)]);
    core.snapshot.streak_threshold = 10;
    assert!(core.watch_streak(50, "1".into(), "a".into(), "A".into()).is_none());
    assert_eq!(core.snapshot.vips[0].watch_streak, Some(50));
    assert!(core.watch_streak(9, "2".into(), "b".into(), "B".into()).is_none());
    core.chat_message("3".into());
    let grant = core.watch_streak(10, "3".into(), "Zoe".into(), "Zoe".into()).unwrap();
    assert!(grant.wrote);
    assert_eq!(grant.count, 10);
    core.vip_granted(grant);
    core.vip_granted(vipperfox::state::VipGrant {
        user_id: "4".into(),
        login: "Bob".into(),
        display_name: "Bob".into(),
        count: 11,
        wrote: false,
    });
    let logins: Vec<&str> = core.snapshot.vips.iter().map(|v| v.login.as_str()).collect();
    assert_eq!(logins, vec!["a", "Bob", "Zoe"]);
    assert_eq!(core.snapshot.vip_count, 3);
}

#[test]
fn vip_events_add_and_remove() {
    let mut core = core_with(vec![vip("1", "a", false)]);
    core.snapshot.report = vipperfox::state::build_silent_report(&core.snapshot.vips);
    assert!(core.vip_added("1".into(), None, None).is_ok());
    assert_eq!(core.snapshot.vips.len(), 1);
    assert!(core.vip_added("2".into(), None, Some("B".into())).is_err());
    assert!(core.vip_added("2".into(), Some("b".into()), None).is_err());
    assert_eq!(core.snapshot.vips.len(), 1);
    core.chat_message("2".into());
    assert!(core.vip_added("2".into(), Some("b".into()), Some("B".into())).is_ok());
    assert_eq!(core.snapshot.vip_count, 2);
    assert!(core.snapshot.vips[1].wrote_this_stream);
    core.vip_removed(&"1".to_string());
    assert_eq!(core.snapshot.vip_count, 1);
    assert!(core.snapshot.report.is_empty());
}

#[test]
fn taking_the_role_names_the_user() {
    let mut core = core_with(vec![vip("1", "a", false), vip("2", "b", false)]);
    core.snapshot.report = vipperfox::state::build_silent_report(&core.snapshot.vips);
    assert_eq!(core.take_vip_role(&"2".to_string()), "B");
    assert_eq!(core.take_vip_role(&"9".to_string()), "9");
    assert_eq!(core.snapshot.vip_count, 1);
    assert_eq!(core.snapshot.report.len(), 1);
}

#[test]
fn an_interrupted_stream_ends_with_an_incomplete_report() {
    let mut core = core_with(vec![vip("1", "a", false)]);
    core.stream_online("s".into(), "t".into());
    core.mark_connection_error("lost".into());
    core.apply_reconcile(vec![vip("1", "a", false)], Some(HelixStream { id: "s".into(), started_at: "t".into() }));
    core.stream_offline(vec![vip("1", "a", false)]);
    assert!(!core.snapshot.report_complete);
    assert_eq!(core.snapshot.report.len(), 1);
}
