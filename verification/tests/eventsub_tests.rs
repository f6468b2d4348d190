use vipperfox::eventsub::{
    apply_channel_event, check_connection_start, decode_message, read_event, welcome_session_id, route_message, subscription_condition, subscriptions,
    ChannelEvent, ConnectionExit, EventFields, EventSubMessage, MissingField, MonitorLoop, MonitorStep,
    ProcessedMessages, Reaction, Route, MAX_RETRY_DELAY_SECS, REMEMBERED_MESSAGES,
};
use vipperfox::models::{AppSnapshot, AuthSession, VipUser};
use vipperfox::state::CoreState;

fn fields() -> EventFields {
    EventFields {
        id: None,
        started_at: None,
        chatter_user_id: None,
        chatter_user_login: None,
        chatter_user_name: None,
        user_id: None,
        user_login: None,
        user_name: None,
        notice_type: None,
        streak_count: None,
    }
}

fn message(kind: &str, id: Option<&str>, subscription: &str, event: EventFields) -> EventSubMessage {
    EventSubMessage {
        message_type: Some(kind.into()),
        message_id: id.map(|s| s.to_string()),
        subscription_type: Some(subscription.into()),
        reconnect_url: None,
        event,
    }
}

#[test]
fn events_need_their_fields() {
    let mut f = fields();
    f.id = Some("s".into());
    assert_eq!(read_event("stream.online", f.clone()).unwrap_err(), MissingField::StartedAt);
    f.started_at = Some("t".into());
    assert!(matches!(read_event("stream.online", f.clone()), Ok(ChannelEvent::StreamOnline { .. })));
    assert!(matches!(read_event("stream.offline", fields()), Ok(ChannelEvent::StreamOffline)));
    assert_eq!(read_event("channel.chat.message", fields()).unwrap_err(), MissingField::ChatterUserId);
    assert!(matches!(read_event("channel.chat.notification", fields()), Ok(ChannelEvent::Other)));
    let mut n = fields();
    n.notice_type = Some("watch_streak".into());
    n.chatter_user_id = Some("5".into());
    assert_eq!(read_event("channel.chat.notification", n.clone()).unwrap_err(), MissingField::ChatterUserLogin);
    n.chatter_user_login = Some("five".into());
    n.chatter_user_name = Some("Five".into());
    match read_event("channel.chat.notification", n).unwrap() {
        ChannelEvent::WatchStreak { count, user_id, .. } => {
            assert_eq!(count, 0);
            assert_eq!(user_id, "5");
        }
        _ => panic!("expected a watch streak"),
    }
    assert_eq!(read_event("channel.vip.remove", fields()).unwrap_err(), MissingField::UserId);
    assert!(matches!(read_event("something.else", fields()), Ok(ChannelEvent::Other)));
    assert_eq!(MissingField::UserName.message(), "В событии Twitch отсутствует user_name");
}

#[test]
fn messages_are_routed_and_repeats_dropped() {
    let mut seen = ProcessedMessages::new();
    let mut reconnect = message("session_reconnect", None, "", fields());
    assert_eq!(route_message(reconnect.clone(), &mut seen).unwrap_err(), "EventSub reconnect без URL");
    reconnect.reconnect_url = Some("wss://next".into());
    match route_message(reconnect, &mut seen).unwrap() {
        Route::Reconnect(url) => assert_eq!(url, "wss://next"),
        _ => panic!("expected a reconnect"),
    }
    assert!(matches!(route_message(message("session_keepalive", None, "", fields()), &mut seen), Ok(Route::Skip)));
    let mut f = fields();
    f.chatter_user_id = Some("1".into());
    let chat = message("notification", Some("m1"), "channel.chat.message", f);
    assert!(matches!(route_message(chat.clone(), &mut seen), Ok(Route::Event(ChannelEvent::ChatMessage { .. }))));
    assert!(matches!(route_message(chat, &mut seen), Ok(Route::Skip)));
    let broken = message("notification", Some("m2"), "channel.chat.message", fields());
    assert_eq!(route_message(broken.clone(), &mut seen).unwrap_err(), "В событии Twitch отсутствует chatter_user_id");
    assert!(matches!(route_message(broken, &mut seen), Ok(Route::Skip)));
}

#[test]
fn the_window_forgets_the_oldest_ids() {
    let mut seen = ProcessedMessages::new();
    for i in 0..REMEMBERED_MESSAGES + 1 {
        assert!(seen.first_time(i.to_string()));
    }
    assert_eq!(seen.ids.len(), REMEMBERED_MESSAGES);
    assert!(seen.first_time("0".into()));
    assert!(!seen.first_time("5000".into()));
}

#[test]
fn backoff_doubles_up_to_a_minute_and_resets_on_move() {
    let mut monitor = MonitorLoop::new();
    assert_eq!(monitor.url, "wss://eventsub.wss.twitch.tv/ws");
    let mut waits = vec![];
    for _ in 0..8 {
        match monitor.after_exit(ConnectionExit::Closed, true) {
            MonitorStep::Retry { message, wait_secs } => {
                assert_eq!(message, "Соединение EventSub прервано");
                waits.push(wait_secs);
            }
            _ => panic!("expected a retry"),
        }
    }
    assert_eq!(waits, vec![1, 2, 4, 8, 16, 32, 60, 60]);
    assert_eq!(monitor.delay_secs, MAX_RETRY_DELAY_SECS);
    assert!(matches!(monitor.after_exit(ConnectionExit::Reconnect("wss://x".into()), true), MonitorStep::Continue));
    assert_eq!(monitor.delay_secs, 1);
    assert!(monitor.transferred);
    assert_eq!(monitor.url, "wss://x");
    match monitor.after_exit(ConnectionExit::Failed("bad".into()), true) {
        MonitorStep::Retry { message, wait_secs } => {
            assert_eq!(message, "bad");
            assert_eq!(wait_secs, 1);
        }
        _ => panic!("expected a retry"),
    }
    assert!(!monitor.transferred);
    assert!(matches!(monitor.after_exit(ConnectionExit::Closed, false), MonitorStep::Stop));
}

#[test]
fn subscriptions_and_conditions() {
    let subs = subscriptions();
    let names: Vec<(&str, bool)> = subs.iter().map(|s| (s.event_type.as_str(), s.chat_event)).collect();
    assert_eq!(
        names,
        vec![
            ("stream.online", false),
            ("stream.offline", false),
            ("channel.chat.message", true),
            ("channel.chat.notification", true),
            ("channel.vip.add", false),
            ("channel.vip.remove", false),
        ]
    );
    let chat = subscription_condition(&"7".to_string(), true);
    assert_eq!(chat, vec![("broadcaster_user_id".to_string(), "7".to_string()), ("user_id".to_string(), "7".to_string())]);
    assert_eq!(subscription_condition(&"7".to_string(), false).len(), 1);
}

#[test]
fn connection_start_needs_url_and_session() {
    let auth = AuthSession {
        client_id: "c".into(),
        access_token: "t".into(),
        broadcaster_id: "7".into(),
        login: "fox".into(),
        display_name: "Fox".into(),
    };
    assert_eq!(check_connection_start(&String::new(), &Some(auth.clone())).unwrap_err(), "empty reconnect URL");
    assert_eq!(check_connection_start(&"wss://x".to_string(), &None).unwrap_err(), "Twitch не подключён");
    assert!(check_connection_start(&"wss://x".to_string(), &Some(auth)).is_ok());
}

#[test]
fn events_change_the_state() {
    let mut snapshot = AppSnapshot::default();
    snapshot.streak_threshold = 3;
    snapshot.vips = vec![VipUser {
        user_id: "1".into(),
        login: "a".into(),
        display_name: "A".into(),
        watch_streak: None,
        wrote_this_stream: true,
    }];
    snapshot.vip_count = 1;
    let mut core = CoreState::new(snapshot);
    match apply_channel_event(&mut core, ChannelEvent::StreamOnline { id: "s".into(), started_at: "t".into() }) {
        Ok(Reaction::Note(n)) => assert_eq!(n.title, "Стрим начался"),
        _ => panic!("expected a note"),
    }
    assert!(!core.snapshot.vips[0].wrote_this_stream);
    assert!(matches!(apply_channel_event(&mut core, ChannelEvent::StreamOffline), Ok(Reaction::NeedVipList)));
    assert!(core.snapshot.stream.is_some());
    let grant = ChannelEvent::WatchStreak { count: 3, user_id: "2".into(), login: "b".into(), display_name: "B".into() };
    assert!(matches!(apply_channel_event(&mut core, grant), Ok(Reaction::Grant(_))));
    let again = ChannelEvent::WatchStreak { count: 9, user_id: "1".into(), login: "a".into(), display_name: "A".into() };
    assert!(matches!(apply_channel_event(&mut core, again), Ok(Reaction::Done)));
    assert_eq!(core.snapshot.vips[0].watch_streak, Some(9));
    let add = ChannelEvent::VipAdd { user_id: "5".into(), login: None, display_name: None };
    assert_eq!(apply_channel_event(&mut core, add).unwrap_err(), MissingField::UserLogin);
    assert!(matches!(apply_channel_event(&mut core, ChannelEvent::VipRemove { user_id: "1".into() }), Ok(Reaction::Done)));
    assert_eq!(core.snapshot.vip_count, 0);
}

#[test]
fn a_notification_is_read_from_its_text() {
    let text = r#"{"metadata":{"message_id":"m-1","message_type":"notification"},
        "payload":{"subscription":{"type":"channel.chat.notification"},
        "event":{"chatter_user_id":"7","chatter_user_login":"bob","chatter_user_name":"Bob",
        "notice_type":"watch_streak","watch_streak":{"streak_count":5}}}}"#;
    let m = decode_message(text).unwrap();
    assert_eq!(m.message_type.as_deref(), Some("notification"));
    assert_eq!(m.message_id.as_deref(), Some("m-1"));
    assert_eq!(m.subscription_type.as_deref(), Some("channel.chat.notification"));
    assert_eq!(m.reconnect_url, None);
    assert_eq!(m.event.chatter_user_id.as_deref(), Some("7"));
    assert_eq!(m.event.chatter_user_login.as_deref(), Some("bob"));
    assert_eq!(m.event.chatter_user_name.as_deref(), Some("Bob"));
    assert_eq!(m.event.notice_type.as_deref(), Some("watch_streak"));
    assert_eq!(m.event.streak_count, Some(5));
    assert_eq!(m.event.user_id, None);
    let event = read_event("channel.chat.notification", m.event).unwrap();
    assert!(matches!(event, ChannelEvent::WatchStreak { count: 5, .. }));
}

#[test]
fn fields_of_the_wrong_kind_are_absent() {
    let text = r#"{"metadata":{"message_type":7},"payload":{"session":{"reconnect_url":"wss://x"},
        "event":{"user_id":12,"watch_streak":{"streak_count":"5"}}}}"#;
    let m = decode_message(text).unwrap();
    assert_eq!(m.message_type, None);
    assert_eq!(m.message_id, None);
    assert_eq!(m.reconnect_url.as_deref(), Some("wss://x"));
    assert_eq!(m.event.user_id, None);
    assert_eq!(m.event.streak_count, None);
}

#[test]
fn text_that_is_no_json_is_refused() {
    let e = decode_message("{not json").unwrap_err();
    assert_eq!(e, serde_json::from_str::<serde_json::Value>("{not json").unwrap_err().to_string());
    assert!(welcome_session_id("").is_err());
}

#[test]
fn the_welcome_gives_the_session_id() {
    let text = r#"{"metadata":{"message_type":"session_welcome"},"payload":{"session":{"id":"abc"}}}"#;
    assert_eq!(welcome_session_id(text).unwrap(), "abc");
    let without = r#"{"payload":{"session":{}}}"#;
    assert_eq!(welcome_session_id(without).unwrap_err(), "В EventSub welcome отсутствует session ID");
}

fn distinct_and_report_among_vips(core: &CoreState) -> bool {
    let vips = &core.snapshot.vips;
    let distinct = vips.iter().enumerate().all(|(i, a)| vips.iter().skip(i + 1).all(|b| b.user_id != a.user_id));
    let among = core.snapshot.report.iter().all(|r| vips.iter().any(|v| v.user_id == r.user_id));
    distinct && among
}

#[test]
fn events_keep_vip_ids_distinct_and_the_report_among_them() {
    let mut snapshot = AppSnapshot::default();
    snapshot.streak_threshold = 2;
    snapshot.vips = vec![
        VipUser { user_id: "1".into(), login: "a".into(), display_name: "A".into(), watch_streak: None, wrote_this_stream: false },
        VipUser { user_id: "2".into(), login: "b".into(), display_name: "B".into(), watch_streak: None, wrote_this_stream: false },
    ];
    snapshot.vip_count = 2;
    let mut core = CoreState::new(snapshot);
    let events = vec![
        ChannelEvent::StreamOnline { id: "s".into(), started_at: "t".into() },
        ChannelEvent::ChatMessage { user_id: "1".into() },
        ChannelEvent::VipAdd { user_id: "2".into(), login: Some("b".into()), display_name: Some("B".into()) },
        ChannelEvent::VipAdd { user_id: "3".into(), login: Some("c".into()), display_name: Some("C".into()) },
        ChannelEvent::WatchStreak { count: 4, user_id: "3".into(), login: "c".into(), display_name: "C".into() },
        ChannelEvent::VipRemove { user_id: "1".into() },
        ChannelEvent::Other,
    ];
    for event in events {
        let _ = apply_channel_event(&mut core, event);
        assert!(distinct_and_report_among_vips(&core));
        assert_eq!(core.snapshot.vip_count, core.snapshot.vips.len());
    }
    assert_eq!(core.snapshot.vips.len(), 2);
    assert_eq!(core.snapshot.vips[1].watch_streak, Some(4));
}
