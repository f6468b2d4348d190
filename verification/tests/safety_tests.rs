use vipperfox::models::{AppSnapshot, AuthSession, ConnectionStatus, RemoveVipsRequest, ReportUser, StreamInfo};
use vipperfox::removal::validate_removal_request;

fn fixture(complete: bool, live: bool) -> (AppSnapshot, AuthSession, RemoveVipsRequest) {
    let report_user = ReportUser {
        user_id: "42".into(),
        login: "viewer".into(),
        display_name: "Viewer".into(),
        watch_streak: None,
        wrote_this_stream: false,
        selected: false,
    };
    let snapshot = AppSnapshot {
        configured: true,
        connection_status: ConnectionStatus::Connected,
        channel_login: Some("fox_channel".into()),
        channel_display_name: Some("Fox Channel".into()),
        stream: live.then(|| StreamInfo {
            id: "stream".into(),
            started_at: "2026-01-01T00:00:00Z".into(),
            complete,
        }),
        vip_count: 1,
        vips: vec![],
        report: vec![report_user],
        report_complete: complete,
        activities: vec![],
        streak_threshold: 150,
        last_error: None,
    };
    let auth = AuthSession {
        client_id: "client".into(),
        access_token: "token".into(),
        broadcaster_id: "7".into(),
        login: "fox_channel".into(),
        display_name: "Fox Channel".into(),
    };
    let request = RemoveVipsRequest {
        user_ids: vec!["42".into()],
        channel_confirmation: "fox_channel".into(),
    };
    (snapshot, auth, request)
}

#[test]
fn valid_completed_report_is_allowed() {
    let (snapshot, auth, request) = fixture(true, false);
    assert!(validate_removal_request(&snapshot, &auth, &request).is_ok());
}

#[test]
fn incomplete_report_is_never_allowed() {
    let (snapshot, auth, request) = fixture(false, false);
    assert!(validate_removal_request(&snapshot, &auth, &request).is_err());
}

#[test]
fn removal_during_stream_is_never_allowed() {
    let (snapshot, auth, request) = fixture(true, true);
    assert!(validate_removal_request(&snapshot, &auth, &request).is_err());
}

#[test]
fn arbitrary_or_duplicate_ids_are_rejected() {
    let (snapshot, auth, mut request) = fixture(true, false);
    request.user_ids = vec!["42".into(), "42".into()];
    assert!(validate_removal_request(&snapshot, &auth, &request).is_err());
    request.user_ids = vec!["not-in-report".into()];
    assert!(validate_removal_request(&snapshot, &auth, &request).is_err());
}

#[test]
fn empty_and_oversized_batches_are_rejected() {
    let (snapshot, auth, mut request) = fixture(true, false);
    request.user_ids.clear();
    assert!(validate_removal_request(&snapshot, &auth, &request).is_err());
    request.user_ids = (0..21).map(|index| index.to_string()).collect();
    assert!(validate_removal_request(&snapshot, &auth, &request).is_err());
}

#[test]
fn wrong_channel_confirmation_is_rejected() {
    let (snapshot, auth, mut request) = fixture(true, false);
    request.channel_confirmation = "another_channel".into();
    assert!(validate_removal_request(&snapshot, &auth, &request).is_err());
}

#[test]
fn each_rejection_has_its_message() {
    let (snapshot, auth, mut request) = fixture(true, false);
    request.user_ids.clear();
    assert_eq!(validate_removal_request(&snapshot, &auth, &request).unwrap_err(), "Не выбран ни один пользователь");
    request.user_ids = (0..21).map(|index| index.to_string()).collect();
    assert_eq!(
        validate_removal_request(&snapshot, &auth, &request).unwrap_err(),
        "За одну операцию можно снять VIP максимум у 20 пользователей"
    );
    let (live, auth, request) = fixture(true, true);
    assert_eq!(
        validate_removal_request(&live, &auth, &request).unwrap_err(),
        "Снятие VIP заблокировано до завершения трансляции"
    );
    let (partial, auth, request) = fixture(false, false);
    assert!(validate_removal_request(&partial, &auth, &request).unwrap_err().starts_with("Снятие VIP заблокировано: мониторинг"));
    let (snapshot, auth, mut request) = fixture(true, false);
    request.channel_confirmation = "another_channel".into();
    assert_eq!(
        validate_removal_request(&snapshot, &auth, &request).unwrap_err(),
        "Подтверждение не совпадает с логином подключённого канала"
    );
    request.channel_confirmation = "fox_channel".into();
    request.user_ids = vec!["42".into(), "42".into()];
    assert_eq!(
        validate_removal_request(&snapshot, &auth, &request).unwrap_err(),
        "Список пользователей повреждён или содержит повторы"
    );
    request.user_ids = vec!["  ".into()];
    assert_eq!(
        validate_removal_request(&snapshot, &auth, &request).unwrap_err(),
        "Список пользователей повреждён или содержит повторы"
    );
    request.user_ids = vec!["not-in-report".into()];
    assert_eq!(
        validate_removal_request(&snapshot, &auth, &request).unwrap_err(),
        "Операция отменена: выбран пользователь не из текущего отчёта"
    );
}

#[test]
fn confirmation_ignores_case_and_surrounding_spaces() {
    let (snapshot, auth, mut request) = fixture(true, false);
    request.channel_confirmation = "  FOX_Channel\t\n".into();
    assert!(validate_removal_request(&snapshot, &auth, &request).is_ok());
    request.channel_confirmation = "fox channel".into();
    assert!(validate_removal_request(&snapshot, &auth, &request).is_err());
    request.channel_confirmation = "\u{3000}fox_channel\u{00A0}".into();
    assert!(validate_removal_request(&snapshot, &auth, &request).is_ok());
}

#[test]
fn twenty_distinct_reported_users_are_allowed() {
    let (mut snapshot, auth, mut request) = fixture(true, false);
    snapshot.report = (0..20)
        .map(|index| ReportUser {
            user_id: index.to_string(),
            login: format!("user{index}"),
            display_name: format!("User{index}"),
            watch_streak: None,
            wrote_this_stream: false,
            selected: false,
        })
        .collect();
    request.user_ids = (0..20).map(|index| index.to_string()).collect();
    assert!(validate_removal_request(&snapshot, &auth, &request).is_ok());
}
