//! The decisions taken on Twitch's answers: whether an access token may be
//! used, what an HTTP status means for each call, and the texts of errors.
use vstd::prelude::*;
use crate::models::{AuthSession, ConnectRequest, HelixUser, ValidateResponse};
use crate::text::{decimal, format_u64, same_text};

verus! {

/// The scopes an access token must carry, in the order they are reported.
pub open spec fn required_scopes() -> Seq<Seq<char>> {
    seq!["channel:manage:vips"@, "user:read:chat"@]
}

/// Some scope of `scopes` is `s`.
pub open spec fn grants(scopes: Seq<String>, s: Seq<char>) -> bool {
    exists|i: int| 0 <= i < scopes.len() && (#[trigger] scopes[i])@ == s
}

/// The required scopes that `scopes` lacks, in order.
pub open spec fn lacking_scopes(scopes: Seq<String>) -> Seq<Seq<char>> {
    required_scopes().filter(|s: Seq<char>| !grants(scopes, s))
}

/// Texts joined with `", "` between them.
pub open spec fn join_comma(s: Seq<Seq<char>>) -> Seq<char>
    decreases s.len(),
{
    if s.len() == 0 {
        Seq::empty()
    } else if s.len() == 1 {
        s[0]
    } else {
        join_comma(s.drop_last()) + ", "@ + s.last()
    }
}

/// A status in the 2xx range.
pub open spec fn is_success(status: u16) -> bool {
    200 <= status <= 299
}

/// Whether an HTTP status reports success.
pub fn http_success(status: u16) -> (r: bool)
    ensures
        r == is_success(status),
{
    200 <= status && status <= 299
}

fn grants_scope(scopes: &Vec<String>, wanted: &str) -> (r: bool)
    ensures
        r == grants(scopes@, wanted@),
{
    let mut i: usize = 0;
    while i < scopes.len()
        invariant
            i <= scopes@.len(),
            forall|j: int| 0 <= j < i ==> (#[trigger] scopes@[j])@ != wanted@,
        decreases scopes@.len() - i,
    {
        if same_text(scopes[i].as_str(), wanted) {
            return true;
        }
        i = i + 1;
    }
    false
}

/// The required scopes missing from a token, in order.
pub fn missing_scopes(scopes: &Vec<String>) -> (r: Vec<String>)
    ensures
        r@.map_values(|s: String| s@) == lacking_scopes(scopes@),
{
    let ghost p = |s: Seq<char>| !grants(scopes@, s);
    let ghost req = required_scopes();
    let mut r: Vec<String> = Vec::new();
    proof {
        reveal_with_fuel(Seq::filter, 3);
        assert(req.drop_last().drop_last() =~= Seq::<Seq<char>>::empty());
        assert(req.drop_last() =~= seq!["channel:manage:vips"@]);
    }
    let a = grants_scope(scopes, "channel:manage:vips");
    let b = grants_scope(scopes, "user:read:chat");
    if !a {
        r.push(String::from_str("channel:manage:vips"));
    }
    if !b {
        r.push(String::from_str("user:read:chat"));
    }
    assert(r@.map_values(|s: String| s@) =~= lacking_scopes(scopes@));
    r
}

/// Joins texts with `", "` between them.
pub fn join_with_comma(parts: &Vec<String>) -> (r: String)
    ensures
        r@ == join_comma(parts@.map_values(|s: String| s@)),
{
    let mut r = String::new();
    let mut i: usize = 0;
    let ghost views = parts@.map_values(|s: String| s@);
    assert(views.take(0) =~= Seq::<Seq<char>>::empty());
    while i < parts.len()
        invariant
            i <= parts@.len(),
            views == parts@.map_values(|s: String| s@),
            r@ == join_comma(views.take(i as int)),
        decreases parts@.len() - i,
    {
        assert(views.take(i + 1).drop_last() =~= views.take(i as int));
        if i > 0 {
            r.append(", ");
        } else {
            assert(r@ =~= Seq::<char>::empty());
        }
        r.append(parts[i].as_str());
        i = i + 1;
    }
    assert(views.take(i as int) =~= views);
    r
}

/// The text shown when Twitch rejects the access token.
pub open spec fn token_rejected_text() -> Seq<char> {
    "Access Token недействителен или истёк"@
}

/// The text shown when Twitch rejects the access token.
pub fn token_rejected_message() -> (r: String)
    ensures
        r@ == token_rejected_text(),
{
    String::from_str("Access Token недействителен или истёк")
}

/// Checks what Twitch reports of a token against the request: the token must
/// belong to the client id given, and carry every required scope.
pub fn check_token(request: &ConnectRequest, validation: ValidateResponse) -> (r: Result<AuthSession, String>)
    ensures
        validation.client_id@ != request.client_id@ ==> (r matches Err(e) && e@
            == "Client ID не соответствует Access Token"@),
        validation.client_id@ == request.client_id@ && lacking_scopes(validation.scopes@).len() > 0 ==> (r matches Err(e)
            && e@ == "В токене отсутствуют права: "@ + join_comma(lacking_scopes(validation.scopes@))),
        validation.client_id@ == request.client_id@ && lacking_scopes(validation.scopes@).len() == 0 ==> (r matches Ok(
            s,
        ) && s.client_id == request.client_id && s.access_token == request.access_token && s.broadcaster_id
            == validation.user_id && s.login == validation.login && s.display_name@.len() == 0),
{
    if validation.client_id != request.client_id {
        return Err(String::from_str("Client ID не соответствует Access Token"));
    }
    let missing = missing_scopes(&validation.scopes);
    if missing.len() > 0 {
        let mut text = String::from_str("В токене отсутствуют права: ");
        let joined = join_with_comma(&missing);
        text.append(joined.as_str());
        return Err(text);
    }
    Ok(AuthSession {
        client_id: request.client_id.clone(),
        access_token: request.access_token.clone(),
        broadcaster_id: validation.user_id,
        login: validation.login,
        display_name: String::new(),
    })
}

/// Completes a session with the channel owner Twitch returned for it: the
/// first user listed must be the token's owner; their login and name are taken.
pub fn complete_session(session: AuthSession, users: Vec<HelixUser>) -> (r: Result<AuthSession, String>)
    ensures
        users@.len() == 0 ==> (r matches Err(e) && e@ == "Twitch не вернул данные владельца канала"@),
        users@.len() > 0 && users@[0].id@ != session.broadcaster_id@ ==> (r matches Err(e) && e@
            == "Токен не принадлежит найденному владельцу канала"@),
        users@.len() > 0 && users@[0].id@ == session.broadcaster_id@ ==> r == Ok::<AuthSession, String>(
            AuthSession { display_name: users@[0].display_name, login: users@[0].login, ..session },
        ),
{
    let mut users = users;
    if users.len() == 0 {
        return Err(String::from_str("Twitch не вернул данные владельца канала"));
    }
    let user = users.remove(0);
    if user.id != session.broadcaster_id {
        return Err(String::from_str("Токен не принадлежит найденному владельцу канала"));
    }
    Ok(AuthSession { display_name: user.display_name, login: user.login, ..session })
}

/// The request with its two fields exchanged.
pub open spec fn swapped(request: ConnectRequest) -> ConnectRequest {
    ConnectRequest { client_id: request.access_token, access_token: request.client_id }
}

/// The request with its two fields exchanged, for credentials typed into each
/// other's field.
pub fn swapped_request(request: &ConnectRequest) -> (r: ConnectRequest)
    ensures
        r == swapped(*request),
{
    ConnectRequest { client_id: request.access_token.clone(), access_token: request.client_id.clone() }
}

/// Exchanging the fields twice gives the request back.
pub proof fn lemma_swap_twice(request: ConnectRequest)
    ensures
        swapped(swapped(request)) == request,
{
}

/// What follows the validation of the credentials as typed.
#[derive(Debug)]
pub enum FirstValidation {
    /// The credentials are valid.
    Accepted(AuthSession, ConnectRequest),
    /// They are not: try them the other way round, and report this error if
    /// that fails too.
    TrySwapped(ConnectRequest, String),
}

/// Decides on the validation of the credentials as typed.
pub fn after_first_validation(request: ConnectRequest, result: Result<AuthSession, String>) -> (r: FirstValidation)
    ensures
        match result {
            Ok(a) => r == FirstValidation::Accepted(a, request),
            Err(e) => r == FirstValidation::TrySwapped(swapped(request), e),
        },
{
    match result {
        Ok(a) => FirstValidation::Accepted(a, request),
        Err(e) => FirstValidation::TrySwapped(ConnectRequest { client_id: request.access_token, access_token: request.client_id }, e),
    }
}

/// Decides on the validation of the swapped credentials: accepted, or the
/// error of the credentials as typed.
pub fn after_swapped_validation(
    swapped_request: ConnectRequest,
    original_error: String,
    result: Result<AuthSession, String>,
) -> (r: Result<(AuthSession, ConnectRequest), String>)
    ensures
        match result {
            Ok(a) => r == Ok::<(AuthSession, ConnectRequest), String>((a, swapped_request)),
            Err(_) => r == Err::<(AuthSession, ConnectRequest), String>(original_error),
        },
{
    match result {
        Ok(a) => Ok((a, swapped_request)),
        Err(_) => Err(original_error),
    }
}

/// What granting the VIP role gives for each HTTP status.
pub fn add_vip_outcome(status: u16) -> (r: Result<(), String>)
    ensures
        status == 204 ==> r is Ok,
        status == 409 ==> (r matches Err(e) && e@ == "На канале нет свободных VIP-слотов"@),
        status == 422 ==> (r matches Err(e) && e@ == "Пользователь уже VIP или является модератором"@),
        status != 204 && status != 409 && status != 422 ==> (r matches Err(e) && e@ == "Twitch не выдал VIP (HTTP "@
            + decimal(status as nat) + ")"@),
{
    if status == 204 {
        Ok(())
    } else if status == 409 {
        Err(String::from_str("На канале нет свободных VIP-слотов"))
    } else if status == 422 {
        Err(String::from_str("Пользователь уже VIP или является модератором"))
    } else {
        let mut e = String::from_str("Twitch не выдал VIP (HTTP ");
        let code = format_u64(status as u64);
        e.append(code.as_str());
        e.append(")");
        Err(e)
    }
}

/// What taking the VIP role gives for each HTTP status; a user who no longer
/// has the role counts as done.
pub fn remove_vip_outcome(status: u16) -> (r: Result<(), String>)
    ensures
        status == 204 || status == 422 ==> r is Ok,
        status != 204 && status != 422 ==> (r matches Err(e) && e@ == "Twitch не снял VIP (HTTP "@ + decimal(
            status as nat,
        ) + ")"@),
{
    if status == 204 || status == 422 {
        Ok(())
    } else {
        let mut e = String::from_str("Twitch не снял VIP (HTTP ");
        let code = format_u64(status as u64);
        e.append(code.as_str());
        e.append(")");
        Err(e)
    }
}

/// The message Twitch gave, or `fallback`.
pub open spec fn message_or(message: Option<String>, fallback: Seq<char>) -> Seq<char> {
    match message {
        Some(m) => m@,
        None => fallback,
    }
}

fn take_message_or(message: Option<String>, fallback: &str) -> (r: String)
    ensures
        r@ == message_or(message, fallback@),
{
    match message {
        Some(m) => m,
        None => String::from_str(fallback),
    }
}

/// What creating an EventSub subscription gives for an HTTP status: success,
/// or an existing subscription (409), is fine; otherwise the error names the
/// event type and gives Twitch's message.
pub fn subscription_outcome(status: u16, event_type: &String, message: Option<String>) -> (r: Result<(), String>)
    ensures
        is_success(status) || status == 409 ==> r is Ok,
        !is_success(status) && status != 409 ==> (r matches Err(e) && e@ == event_type@ + ": "@ + message_or(
            message,
            "Не удалось создать EventSub-подписку"@,
        ) + " (HTTP "@ + decimal(status as nat) + ")"@),
{
    if http_success(status) || status == 409 {
        return Ok(());
    }
    let mut e = event_type.clone();
    e.append(": ");
    let m = take_message_or(message, "Не удалось создать EventSub-подписку");
    e.append(m.as_str());
    e.append(" (HTTP ");
    let code = format_u64(status as u64);
    e.append(code.as_str());
    e.append(")");
    Err(e)
}

/// The error of a Helix call that failed with `status`: Twitch's message, or a
/// generic one, followed by the status.
pub fn api_error_message(status: u16, message: Option<String>) -> (r: String)
    ensures
        r@ == message_or(message, "Twitch API отклонил запрос"@) + " (HTTP "@ + decimal(status as nat) + ")"@,
{
    let mut e = take_message_or(message, "Twitch API отклонил запрос");
    e.append(" (HTTP ");
    let code = format_u64(status as u64);
    e.append(code.as_str());
    e.append(")");
    e
}

/// How a network failure is described, from the most specific cause.
pub open spec fn failure_category(timeout: bool, connect: bool, request: bool) -> Seq<char> {
    if timeout {
        "тайм-аут"@
    } else if connect {
        "не удалось установить соединение"@
    } else if request {
        "ошибка запроса"@
    } else {
        "сетевая ошибка"@
    }
}

/// The error of a call that failed twice over the network.
pub fn network_error_message(
    operation: &str,
    timeout: bool,
    connect: bool,
    request: bool,
    detail: &str,
    first: &str,
) -> (r: String)
    ensures
        r@ == "Twitch недоступен ("@ + operation@ + ": "@ + failure_category(timeout, connect, request)
            + ") после двух попыток: "@ + detail@ + ". Первая попытка: "@ + first@,
{
    let category = if timeout {
        "тайм-аут"
    } else if connect {
        "не удалось установить соединение"
    } else if request {
        "ошибка запроса"
    } else {
        "сетевая ошибка"
    };
    let mut e = String::from_str("Twitch недоступен (");
    e.append(operation);
    e.append(": ");
    e.append(category);
    e.append(") после двух попыток: ");
    e.append(detail);
    e.append(". Первая попытка: ");
    e.append(first);
    e
}

} // verus!
