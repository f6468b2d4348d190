use vipperfox::models::AuthSession;
use vipperfox::notes::connection_notes;
use vipperfox::twitch::{after_first_validation, after_swapped_validation, FirstValidation};
use vipperfox::models::{ConnectRequest, HelixUser, HelixVip, ValidateResponse, VipUser};
use vipperfox::notes::{
    connected_note, fields_swapped_note, grant_failed_note, reconnect_needed_note, stream_ended_note, vip_granted_note,
    vip_removed_note,
};
use vipperfox::twitch::{
    add_vip_outcome, api_error_message, check_token, complete_session, http_success, join_with_comma, missing_scopes,
    network_error_message, remove_vip_outcome, subscription_outcome, swapped_request, token_rejected_message,
};
use vipperfox::vips::{append_vip_page, sort_vips_by_login};

fn request() -> ConnectRequest {
    ConnectRequest { client_id: "cid".into(), access_token: "tok".into() }
}

fn validation(client: &str, scopes: &[&str]) -> ValidateResponse {
    ValidateResponse {
        client_id: client.into(),
        login: "fox".into(),
        user_id: "7".into(),
        scopes: scopes.iter().map(|s| s.to_string()).collect(),
    }
}

#[test]
fn token_checks() {
    assert_eq!(
        check_token(&request(), validation("other", &[])).unwrap_err(),
        "Client ID не соответствует Access Token"
    );
    assert_eq!(
        check_token(&request(), validation("cid", &[])).unwrap_err(),
        "В токене отсутствуют права: channel:manage:vips, user:read:chat"
    );
    assert_eq!(
        check_token(&request(), validation("cid", &["channel:manage:vips"])).unwrap_err(),
        "В токене отсутствуют права: user:read:chat"
    );
    let session = check_token(&request(), validation("cid", &["user:read:chat", "channel:manage:vips", "x"])).unwrap();
    assert_eq!(session.broadcaster_id, "7");
    assert_eq!(session.access_token, "tok");
    assert!(session.display_name.is_empty());
    assert_eq!(missing_scopes(&vec![]).len(), 2);
    assert_eq!(join_with_comma(&vec!["a".into(), "b".into(), "c".into()]), "a, b, c");
    assert_eq!(token_rejected_message(), "Access Token недействителен или истёк");

    assert_eq!(complete_session(session.clone(), vec![]).unwrap_err(), "Twitch не вернул данные владельца канала");
    let stranger = HelixUser { id: "8".into(), login: "x".into(), display_name: "X".into() };
    assert_eq!(
        complete_session(session.clone(), vec![stranger]).unwrap_err(),
        "Токен не принадлежит найденному владельцу канала"
    );
    let owner = HelixUser { id: "7".into(), login: "fox".into(), display_name: "Fox".into() };
    let done = complete_session(session, vec![owner]).unwrap();
    assert_eq!(done.display_name, "Fox");
    assert_eq!(done.client_id, "cid");
}

#[test]
fn swapping_fields_twice_restores_them() {
    let swapped = swapped_request(&request());
    assert_eq!(swapped.client_id, "tok");
    assert_eq!(swapped.access_token, "cid");
    let back = swapped_request(&swapped);
    assert_eq!(back.client_id, "cid");
    assert_eq!(back.access_token, "tok");
}

#[test]
fn status_outcomes() {
    assert!(add_vip_outcome(204).is_ok());
    assert_eq!(add_vip_outcome(409).unwrap_err(), "На канале нет свободных VIP-слотов");
    assert_eq!(add_vip_outcome(422).unwrap_err(), "Пользователь уже VIP или является модератором");
    assert_eq!(add_vip_outcome(500).unwrap_err(), "Twitch не выдал VIP (HTTP 500)");
    assert!(remove_vip_outcome(204).is_ok());
    assert!(remove_vip_outcome(422).is_ok());
    assert_eq!(remove_vip_outcome(401).unwrap_err(), "Twitch не снял VIP (HTTP 401)");
    assert!(subscription_outcome(202, &"stream.online".to_string(), None).is_ok());
    assert!(subscription_outcome(409, &"stream.online".to_string(), None).is_ok());
    assert_eq!(
        subscription_outcome(400, &"stream.online".to_string(), None).unwrap_err(),
        "stream.online: Не удалось создать EventSub-подписку (HTTP 400)"
    );
    assert_eq!(
        subscription_outcome(403, &"channel.vip.add".to_string(), Some("forbidden".into())).unwrap_err(),
        "channel.vip.add: forbidden (HTTP 403)"
    );
    assert_eq!(api_error_message(404, None), "Twitch API отклонил запрос (HTTP 404)");
    assert_eq!(api_error_message(429, Some("slow down".into())), "slow down (HTTP 429)");
    assert!(http_success(200) && http_success(299) && !http_success(300) && !http_success(199));
    assert_eq!(
        network_error_message("/streams", false, true, true, "refused", "reset"),
        "Twitch недоступен (/streams: не удалось установить соединение) после двух попыток: refused. Первая попытка: reset"
    );
    assert_eq!(
        network_error_message("op", false, false, false, "d", "f"),
        "Twitch недоступен (op: сетевая ошибка) после двух попыток: d. Первая попытка: f"
    );
}

#[test]
fn vip_pages_are_listed_and_sorted_by_lowercase_login() {
    let mut listed: Vec<VipUser> = vec![];
    append_vip_page(&mut listed, vec![
        HelixVip { user_id: "1".into(), user_login: "zed".into(), user_name: "Zed".into() },
        HelixVip { user_id: "2".into(), user_login: "Alice".into(), user_name: "Alice".into() },
    ]);
    append_vip_page(&mut listed, vec![HelixVip { user_id: "3".into(), user_login: "bob".into(), user_name: "Bob".into() }]);
    assert_eq!(listed.len(), 3);
    assert!(listed.iter().all(|v| v.watch_streak.is_none() && !v.wrote_this_stream));
    let sorted = sort_vips_by_login(listed);
    let ids: Vec<&str> = sorted.iter().map(|v| v.user_id.as_str()).collect();
    assert_eq!(ids, vec!["2", "3", "1"]);
    let same_key = vec![
        VipUser { user_id: "a".into(), login: "SAM".into(), display_name: String::new(), watch_streak: None, wrote_this_stream: false },
        VipUser { user_id: "b".into(), login: "amy".into(), display_name: String::new(), watch_streak: None, wrote_this_stream: false },
        VipUser { user_id: "c".into(), login: "sam".into(), display_name: String::new(), watch_streak: None, wrote_this_stream: false },
    ];
    let ids: Vec<String> = sort_vips_by_login(same_key).into_iter().map(|v| v.user_id).collect();
    assert_eq!(ids, vec!["b", "a", "c"]);
}

#[test]
fn notes_have_their_texts() {
    let n = vip_granted_note(&"Bob".to_string(), 150);
    assert_eq!((n.title.as_str(), n.detail.as_str()), ("Bob получил VIP", "Watch Streak достиг 150"));
    let n = grant_failed_note(&"Bob".to_string(), &"full".to_string());
    assert_eq!(n.detail, "Bob: full");
    assert_eq!(vip_removed_note(&"Bob".to_string()).title, "Bob лишён VIP");
    assert_eq!(stream_ended_note().detail, "Отчёт неактивных VIP готов");
    assert_eq!(connected_note().title, "Twitch подключён");
    assert_eq!(fields_swapped_note().detail, "Client ID и Access Token были вставлены наоборот");
    assert_eq!(reconnect_needed_note(&"e".to_string()).detail, "e");
}

#[test]
fn credentials_typed_the_other_way_round_are_tried_swapped() {
    let session = AuthSession {
        client_id: "cid".into(),
        access_token: "tok".into(),
        broadcaster_id: "7".into(),
        login: "fox".into(),
        display_name: "Fox".into(),
    };
    match after_first_validation(request(), Ok(session.clone())) {
        FirstValidation::Accepted(a, r) => {
            assert_eq!(a.login, "fox");
            assert_eq!(r.client_id, "cid");
        }
        _ => panic!("expected acceptance"),
    }
    match after_first_validation(request(), Err("bad".into())) {
        FirstValidation::TrySwapped(r, e) => {
            assert_eq!(r.client_id, "tok");
            assert_eq!(e, "bad");
            let (_, used) = after_swapped_validation(r.clone(), e.clone(), Ok(session)).unwrap();
            assert_eq!(used.access_token, "cid");
            assert_eq!(after_swapped_validation(r, e, Err("worse".into())).unwrap_err(), "bad");
        }
        _ => panic!("expected a second try"),
    }
    assert_eq!(connection_notes(false).len(), 1);
    let notes = connection_notes(true);
    assert_eq!(notes.len(), 2);
    assert_eq!(notes[1].title, "Поля исправлены автоматически");
}
