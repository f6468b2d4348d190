use vipperfox::models::{AppSnapshot, AuthSession, StreamInfo, VipUser};
use vipperfox::removal::{
    check_still_vips, live_refusal_message, pause_after, removal_step_check, stop_message, RemovalGate, StopReason,
};

fn auth(id: &str) -> AuthSession {
    AuthSession {
        client_id: "c".into(),
        access_token: "t".into(),
        broadcaster_id: id.into(),
        login: "fox".into(),
        display_name: "Fox".into(),
    }
}

#[test]
fn one_removal_operation_at_a_time() {
    let mut gate = RemovalGate::new();
    assert!(gate.begin());
    assert!(!gate.begin());
    gate.finish();
    assert!(gate.begin());
}

#[test]
fn a_stale_selection_is_refused() {
    let current = vec![VipUser {
        user_id: "1".into(),
        login: "a".into(),
        display_name: "A".into(),
        watch_streak: None,
        wrote_this_stream: false,
    }];
    assert!(check_still_vips(&vec!["1".into()], &current).is_ok());
    assert_eq!(
        check_still_vips(&vec!["1".into(), "2".into(), "3".into()], &current).unwrap_err(),
        "Операция отменена: пользователь 2 уже отсутствует в актуальном списке VIP"
    );
    assert_eq!(live_refusal_message(), "Снятие VIP отменено: Twitch сообщает, что канал сейчас в эфире");
}

#[test]
fn each_removal_rechecks_the_state() {
    let mut snapshot = AppSnapshot::default();
    assert!(removal_step_check(0, &snapshot, &Some(auth("7")), &auth("7")).is_ok());
    assert_eq!(
        removal_step_check(2, &snapshot, &None, &auth("7")).unwrap_err(),
        "Операция безопасно остановлена после 2 снятий: Twitch отключён"
    );
    assert_eq!(
        removal_step_check(1, &snapshot, &Some(auth("8")), &auth("7")).unwrap_err(),
        "Операция безопасно остановлена после 1 снятий: подключён другой канал"
    );
    snapshot.stream = Some(StreamInfo { id: "s".into(), started_at: "t".into(), complete: true });
    assert_eq!(
        removal_step_check(3, &snapshot, &Some(auth("7")), &auth("7")).unwrap_err(),
        "Операция безопасно остановлена после 3 снятий: состояние трансляции изменилось"
    );
    snapshot.stream = None;
    snapshot.report_complete = false;
    assert!(removal_step_check(0, &snapshot, &Some(auth("7")), &auth("7")).is_err());
    assert_eq!(
        stop_message(12, StopReason::WentLive),
        "Операция безопасно остановлена после 12 снятий: Twitch сообщает о начале эфира"
    );
}

#[test]
fn pauses_between_removals_only() {
    assert!(pause_after(0, 3));
    assert!(pause_after(1, 3));
    assert!(!pause_after(2, 3));
    assert!(!pause_after(0, 1));
}

use vipperfox::models::{RemoveVipsRequest, ReportUser};
use vipperfox::removal::{RemovalAction, RemovalEvent, RemovalPhase, RemovalRun};
use vipperfox::state::{build_silent_report, CoreState};

fn listed(id: &str) -> VipUser {
    VipUser { user_id: id.into(), login: format!("l{id}"), display_name: format!("N{id}"), watch_streak: None, wrote_this_stream: false }
}

fn core_for_removal() -> CoreState {
    let mut snapshot = AppSnapshot::default();
    snapshot.vips = vec![listed("42"), listed("43"), listed("44")];
    snapshot.vip_count = 3;
    snapshot.report = build_silent_report(&snapshot.vips);
    let mut core = CoreState::new(snapshot);
    core.configure(auth("7"));
    core
}

fn removal_request(ids: &[&str]) -> RemoveVipsRequest {
    RemoveVipsRequest { user_ids: ids.iter().map(|s| s.to_string()).collect(), channel_confirmation: "FOX".into() }
}

fn expect_check_live(a: RemovalAction) {
    assert!(matches!(a, RemovalAction::CheckLive));
}

#[test]
fn a_removal_run_checks_before_each_removal() {
    let mut core = core_for_removal();
    let (mut run, action) = RemovalRun::start(&core, removal_request(&["43", "42"])).unwrap();
    assert!(matches!(action, RemovalAction::FetchVipList));
    let (a, n) = run.step(&mut core, RemovalEvent::VipList(vec![listed("42"), listed("43")])).unwrap();
    expect_check_live(a);
    assert!(n.is_none());
    let (a, _) = run.step(&mut core, RemovalEvent::Live(false)).unwrap();
    expect_check_live(a);
    assert_eq!(run.phase, RemovalPhase::AwaitStepLive(0));
    let (a, _) = run.step(&mut core, RemovalEvent::Live(false)).unwrap();
    match a {
        RemovalAction::Remove(id) => assert_eq!(id, "43"),
        _ => panic!("expected a removal"),
    }
    let (a, n) = run.step(&mut core, RemovalEvent::Removed).unwrap();
    assert!(matches!(a, RemovalAction::Pause(1100)));
    assert_eq!(n.unwrap().title, "N43 лишён VIP");
    assert_eq!(core.snapshot.vip_count, 2);
    let (a, _) = run.step(&mut core, RemovalEvent::Paused).unwrap();
    expect_check_live(a);
    let (a, _) = run.step(&mut core, RemovalEvent::Live(false)).unwrap();
    match a {
        RemovalAction::Remove(id) => assert_eq!(id, "42"),
        _ => panic!("expected a removal"),
    }
    let (a, _) = run.step(&mut core, RemovalEvent::Removed).unwrap();
    assert!(matches!(a, RemovalAction::Finished));
    assert_eq!(run.phase, RemovalPhase::Finished);
    let ids: Vec<&str> = core.snapshot.vips.iter().map(|v| v.user_id.as_str()).collect();
    assert_eq!(ids, vec!["44"]);
    let reported: Vec<&str> = core.snapshot.report.iter().map(|r: &ReportUser| r.user_id.as_str()).collect();
    assert_eq!(reported, vec!["44"]);
}

#[test]
fn a_removal_run_stops_when_unsafe() {
    let mut core = core_for_removal();
    let disconnected = CoreState::new(AppSnapshot::default());
    assert_eq!(RemovalRun::start(&disconnected, removal_request(&["42"])).err().unwrap(), "Twitch не подключён");
    assert!(RemovalRun::start(&core, removal_request(&["99"])).is_err());

    let (mut run, _) = RemovalRun::start(&core, removal_request(&["42"])).unwrap();
    assert!(run.step(&mut core, RemovalEvent::VipList(vec![listed("43")])).is_err());

    let (mut run, _) = RemovalRun::start(&core, removal_request(&["42"])).unwrap();
    let (a, _) = run.step(&mut core, RemovalEvent::Removed).unwrap();
    assert!(matches!(a, RemovalAction::FetchVipList));
    run.step(&mut core, RemovalEvent::VipList(vec![listed("42")])).unwrap();
    assert_eq!(
        run.step(&mut core, RemovalEvent::Live(true)).err().unwrap(),
        "Снятие VIP отменено: Twitch сообщает, что канал сейчас в эфире"
    );

    let (mut run, _) = RemovalRun::start(&core, removal_request(&["42", "43"])).unwrap();
    run.step(&mut core, RemovalEvent::VipList(vec![listed("42"), listed("43")])).unwrap();
    run.step(&mut core, RemovalEvent::Live(false)).unwrap();
    run.step(&mut core, RemovalEvent::Live(false)).unwrap();
    run.step(&mut core, RemovalEvent::Removed).unwrap();
    core.stream_online("s".into(), "t".into());
    assert_eq!(
        run.step(&mut core, RemovalEvent::Paused).err().unwrap(),
        "Операция безопасно остановлена после 1 снятий: состояние трансляции изменилось"
    );
}

#[test]
fn a_removal_run_stops_when_the_channel_goes_live() {
    let mut core = core_for_removal();
    let (mut run, _) = RemovalRun::start(&core, removal_request(&["42", "43"])).unwrap();
    run.step(&mut core, RemovalEvent::VipList(vec![listed("42"), listed("43")])).unwrap();
    run.step(&mut core, RemovalEvent::Live(false)).unwrap();
    run.step(&mut core, RemovalEvent::Live(false)).unwrap();
    run.step(&mut core, RemovalEvent::Removed).unwrap();
    run.step(&mut core, RemovalEvent::Paused).unwrap();
    assert_eq!(
        run.step(&mut core, RemovalEvent::Live(true)).err().unwrap(),
        "Операция безопасно остановлена после 1 снятий: Twitch сообщает о начале эфира"
    );
    assert_eq!(core.snapshot.vip_count, 2);
}

#[test]
fn a_removal_run_names_the_first_missing_id() {
    let mut core = core_for_removal();
    let before = core.snapshot.vips.len();
    let (mut run, _) = RemovalRun::start(&core, removal_request(&["42", "43", "44"])).unwrap();
    assert_eq!(
        run.step(&mut core, RemovalEvent::VipList(vec![listed("42")])).err().unwrap(),
        "Операция отменена: пользователь 43 уже отсутствует в актуальном списке VIP"
    );
    assert_eq!(core.snapshot.vips.len(), before);
    assert_eq!(core.snapshot.vip_count, before);
}
