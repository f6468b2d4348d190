//! The entries the application writes to its activity history.
use vstd::prelude::*;
use crate::models::ActivityKind;
use crate::text::{decimal, format_u64};

verus! {

/// An entry to add to the activity history (the store gives it an id and a time).
#[derive(Debug, Clone)]
pub struct ActivityNote {
    pub kind: ActivityKind,
    pub title: String,
    pub detail: String,
}

/// The note with exactly this kind, title and detail.
pub open spec fn note_is(n: ActivityNote, kind: ActivityKind, title: Seq<char>, detail: Seq<char>) -> bool {
    n.kind == kind && n.title@ == title && n.detail@ == detail
}

/// A stream started and chat monitoring runs from its first message.
pub fn stream_started_note() -> (r: ActivityNote)
    ensures
        note_is(r, ActivityKind::System, "Стрим начался"@, "Мониторинг чата запущен без пропусков"@),
{
    ActivityNote {
        kind: ActivityKind::System,
        title: String::from_str("Стрим начался"),
        detail: String::from_str("Мониторинг чата запущен без пропусков"),
    }
}

/// A stream ended and the report of silent VIPs is ready.
pub fn stream_ended_note() -> (r: ActivityNote)
    ensures
        note_is(r, ActivityKind::System, "Стрим завершён"@, "Отчёт неактивных VIP готов"@),
{
    ActivityNote {
        kind: ActivityKind::System,
        title: String::from_str("Стрим завершён"),
        detail: String::from_str("Отчёт неактивных VIP готов"),
    }
}

/// A viewer received the VIP role for their watch streak.
pub fn vip_granted_note(display_name: &String, count: u64) -> (r: ActivityNote)
    ensures
        note_is(
            r,
            ActivityKind::VipAdd,
            display_name@ + " получил VIP"@,
            "Watch Streak достиг "@ + decimal(count as nat),
        ),
{
    let mut title = display_name.clone();
    title.append(" получил VIP");
    let mut detail = String::from_str("Watch Streak достиг ");
    let digits = format_u64(count);
    detail.append(digits.as_str());
    ActivityNote { kind: ActivityKind::VipAdd, title, detail }
}

/// Twitch refused the VIP role to a viewer.
pub fn grant_failed_note(display_name: &String, error: &String) -> (r: ActivityNote)
    ensures
        note_is(r, ActivityKind::Warning, "Не удалось выдать VIP"@, display_name@ + ": "@ + error@),
{
    let mut detail = display_name.clone();
    detail.append(": ");
    detail.append(error.as_str());
    ActivityNote { kind: ActivityKind::Warning, title: String::from_str("Не удалось выдать VIP"), detail }
}

/// The operator took the VIP role from a user.
pub fn vip_removed_note(display_name: &String) -> (r: ActivityNote)
    ensures
        note_is(
            r,
            ActivityKind::VipRemove,
            display_name@ + " лишён VIP"@,
            "Ручное действие из отчёта VipperFox"@,
        ),
{
    let mut title = display_name.clone();
    title.append(" лишён VIP");
    ActivityNote {
        kind: ActivityKind::VipRemove,
        title,
        detail: String::from_str("Ручное действие из отчёта VipperFox"),
    }
}

/// Twitch is connected and the EventSub monitor starts.
pub fn connected_note() -> (r: ActivityNote)
    ensures
        note_is(r, ActivityKind::System, "Twitch подключён"@, "Токен проверен, запускаем EventSub"@),
{
    ActivityNote {
        kind: ActivityKind::System,
        title: String::from_str("Twitch подключён"),
        detail: String::from_str("Токен проверен, запускаем EventSub"),
    }
}

/// The client id and the access token had been typed into each other's field.
pub fn fields_swapped_note() -> (r: ActivityNote)
    ensures
        note_is(
            r,
            ActivityKind::Warning,
            "Поля исправлены автоматически"@,
            "Client ID и Access Token были вставлены наоборот"@,
        ),
{
    ActivityNote {
        kind: ActivityKind::Warning,
        title: String::from_str("Поля исправлены автоматически"),
        detail: String::from_str("Client ID и Access Token были вставлены наоборот"),
    }
}

/// The stored session could not be restored.
pub fn reconnect_needed_note(error: &String) -> (r: ActivityNote)
    ensures
        note_is(r, ActivityKind::Warning, "Нужно переподключить Twitch"@, error@),
{
    ActivityNote {
        kind: ActivityKind::Warning,
        title: String::from_str("Нужно переподключить Twitch"),
        detail: error.clone(),
    }
}

/// The entries recorded once Twitch is connected: the connection, and a
/// warning when the credentials had been typed the other way round.
pub fn connection_notes(fields_swapped: bool) -> (r: Vec<ActivityNote>)
    ensures
        r@.len() == if fields_swapped { 2int } else { 1int },
        note_is(r@[0], ActivityKind::System, "Twitch подключён"@, "Токен проверен, запускаем EventSub"@),
        fields_swapped ==> note_is(
            r@[1],
            ActivityKind::Warning,
            "Поля исправлены автоматически"@,
            "Client ID и Access Token были вставлены наоборот"@,
        ),
{
    let mut r: Vec<ActivityNote> = Vec::new();
    r.push(connected_note());
    if fields_swapped {
        r.push(fields_swapped_note());
    }
    r
}

} // verus!
