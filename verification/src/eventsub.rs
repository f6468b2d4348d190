//! EventSub: the subscriptions the monitor needs, how a message is routed
//! (reconnect, duplicate, event), what each event needs and changes, and the
//! reconnection policy of the monitor.
use vstd::prelude::*;
use crate::models::{ActivityKind, AppSnapshot, AuthSession, StreamInfo};
use crate::notes::{ActivityNote, note_is, stream_started_note};
use crate::state::{CoreState, VipGrant, after_chat, after_streak, announced_vip, first_index, lemma_first_index_exists, silenced};
use crate::text::same_text;
use crate::json::{check_json, json_error_text, json_parses, json_string_at, json_u64_at, string_at, u64_at};
use crate::users::{UserRecord, has_text, has_user, without_user};
use std::collections::VecDeque;

verus! {

/// A field an EventSub event must carry but did not.
#[derive(Debug, Clone, Copy, PartialEq, Eq, Structural)]
pub enum MissingField {
    Id,
    StartedAt,
    ChatterUserId,
    ChatterUserLogin,
    ChatterUserName,
    UserId,
    UserLogin,
    UserName,
}

/// The name of the field in the event object.
pub open spec fn field_name(f: MissingField) -> Seq<char> {
    match f {
        MissingField::Id => "id"@,
        MissingField::StartedAt => "started_at"@,
        MissingField::ChatterUserId => "chatter_user_id"@,
        MissingField::ChatterUserLogin => "chatter_user_login"@,
        MissingField::ChatterUserName => "chatter_user_name"@,
        MissingField::UserId => "user_id"@,
        MissingField::UserLogin => "user_login"@,
        MissingField::UserName => "user_name"@,
    }
}

impl MissingField {
    /// The name of the field in the event object.
    pub fn name(&self) -> (r: &'static str)
        ensures
            r@ == field_name(*self),
    {
        match self {
            MissingField::Id => "id",
            MissingField::StartedAt => "started_at",
            MissingField::ChatterUserId => "chatter_user_id",
            MissingField::ChatterUserLogin => "chatter_user_login",
            MissingField::ChatterUserName => "chatter_user_name",
            MissingField::UserId => "user_id",
            MissingField::UserLogin => "user_login",
            MissingField::UserName => "user_name",
        }
    }

    /// The user-facing text: the event lacks this field.
    pub fn message(&self) -> (r: String)
        ensures
            r@ == "В событии Twitch отсутствует "@ + field_name(*self),
    {
        let mut s = String::from_str("В событии Twitch отсутствует ");
        s.append(self.name());
        s
    }
}

/// The fields of an EventSub event object that the monitor reads; a field is
/// `None` when it is absent or not a string (a number for `streak_count`).
#[derive(Debug, Clone)]
pub struct EventFields {
    pub id: Option<String>,
    pub started_at: Option<String>,
    pub chatter_user_id: Option<String>,
    pub chatter_user_login: Option<String>,
    pub chatter_user_name: Option<String>,
    pub user_id: Option<String>,
    pub user_login: Option<String>,
    pub user_name: Option<String>,
    pub notice_type: Option<String>,
    /// `watch_streak.streak_count` of a chat notification.
    pub streak_count: Option<u64>,
}

/// What the monitor reads from one EventSub message.
#[derive(Debug, Clone)]
pub struct EventSubMessage {
    pub message_type: Option<String>,
    pub message_id: Option<String>,
    pub subscription_type: Option<String>,
    pub reconnect_url: Option<String>,
    pub event: EventFields,
}

/// The text of an optional string.
pub open spec fn opt_text(o: Option<String>) -> Option<Seq<char>> {
    match o {
        Some(s) => Some(s@),
        None => None,
    }
}

/// `m` holds what the JSON text of a message carries at the pointers the
/// monitor reads: the metadata, the subscription type, the reconnect URL, and
/// the fields of the event object.
pub open spec fn decoded_from(m: EventSubMessage, text: Seq<char>) -> bool {
    &&& opt_text(m.message_type) == json_string_at(text, "/metadata/message_type"@)
    &&& opt_text(m.message_id) == json_string_at(text, "/metadata/message_id"@)
    &&& opt_text(m.subscription_type) == json_string_at(text, "/payload/subscription/type"@)
    &&& opt_text(m.reconnect_url) == json_string_at(text, "/payload/session/reconnect_url"@)
    &&& opt_text(m.event.id) == json_string_at(text, "/payload/event/id"@)
    &&& opt_text(m.event.started_at) == json_string_at(text, "/payload/event/started_at"@)
    &&& opt_text(m.event.chatter_user_id) == json_string_at(text, "/payload/event/chatter_user_id"@)
    &&& opt_text(m.event.chatter_user_login) == json_string_at(text, "/payload/event/chatter_user_login"@)
    &&& opt_text(m.event.chatter_user_name) == json_string_at(text, "/payload/event/chatter_user_name"@)
    &&& opt_text(m.event.user_id) == json_string_at(text, "/payload/event/user_id"@)
    &&& opt_text(m.event.user_login) == json_string_at(text, "/payload/event/user_login"@)
    &&& opt_text(m.event.user_name) == json_string_at(text, "/payload/event/user_name"@)
    &&& opt_text(m.event.notice_type) == json_string_at(text, "/payload/event/notice_type"@)
    &&& m.event.streak_count == json_u64_at(text, "/payload/event/watch_streak/streak_count"@)
}

fn text_at(text: &str, path: &str) -> (r: Option<String>)
    ensures
        opt_text(r) == json_string_at(text@, path@),
{
    string_at(text, path)
}

/// Reads an EventSub message from its JSON text; the error is `serde_json`'s
/// when the text is not JSON.
pub fn decode_message(text: &str) -> (r: Result<EventSubMessage, String>)
    ensures
        r is Ok <==> json_parses(text@),
        r matches Err(e) ==> e@ == json_error_text(text@),
        r matches Ok(m) ==> decoded_from(m, text@),
{
    check_json(text)?;
    let event = EventFields {
        id: text_at(text, "/payload/event/id"),
        started_at: text_at(text, "/payload/event/started_at"),
        chatter_user_id: text_at(text, "/payload/event/chatter_user_id"),
        chatter_user_login: text_at(text, "/payload/event/chatter_user_login"),
        chatter_user_name: text_at(text, "/payload/event/chatter_user_name"),
        user_id: text_at(text, "/payload/event/user_id"),
        user_login: text_at(text, "/payload/event/user_login"),
        user_name: text_at(text, "/payload/event/user_name"),
        notice_type: text_at(text, "/payload/event/notice_type"),
        streak_count: u64_at(text, "/payload/event/watch_streak/streak_count"),
    };
    Ok(EventSubMessage {
        message_type: text_at(text, "/metadata/message_type"),
        message_id: text_at(text, "/metadata/message_id"),
        subscription_type: text_at(text, "/payload/subscription/type"),
        reconnect_url: text_at(text, "/payload/session/reconnect_url"),
        event,
    })
}

/// The text shown when the welcome message carries no session id.
pub open spec fn no_session_text() -> Seq<char> {
    "В EventSub welcome отсутствует session ID"@
}

/// The session id of the EventSub welcome message, from its JSON text.
pub fn welcome_session_id(text: &str) -> (r: Result<String, String>)
    ensures
        !json_parses(text@) ==> (r matches Err(e) && e@ == json_error_text(text@)),
        json_parses(text@) ==> match json_string_at(text@, "/payload/session/id"@) {
            Some(id) => r matches Ok(s) && s@ == id,
            None => r matches Err(e) && e@ == no_session_text(),
        },
{
    check_json(text)?;
    match text_at(text, "/payload/session/id") {
        Some(s) => Ok(s),
        None => Err(String::from_str("В EventSub welcome отсутствует session ID")),
    }
}

/// A channel event, with the fields it needs.
#[derive(Debug, Clone)]
pub enum ChannelEvent {
    StreamOnline { id: String, started_at: String },
    StreamOffline,
    ChatMessage { user_id: String },
    WatchStreak { count: u64, user_id: String, login: String, display_name: String },
    VipAdd { user_id: String, login: Option<String>, display_name: Option<String> },
    VipRemove { user_id: String },
    Other,
}

/// The event a notification of type `kind` carries, or the first needed
/// field it lacks.
pub open spec fn event_of(kind: Seq<char>, f: EventFields) -> Result<ChannelEvent, MissingField> {
    if kind == "stream.online"@ {
        match (f.id, f.started_at) {
            (None, _) => Err(MissingField::Id),
            (Some(_), None) => Err(MissingField::StartedAt),
            (Some(id), Some(started_at)) => Ok(ChannelEvent::StreamOnline { id, started_at }),
        }
    } else if kind == "stream.offline"@ {
        Ok(ChannelEvent::StreamOffline)
    } else if kind == "channel.chat.message"@ {
        match f.chatter_user_id {
            None => Err(MissingField::ChatterUserId),
            Some(user_id) => Ok(ChannelEvent::ChatMessage { user_id }),
        }
    } else if kind == "channel.chat.notification"@ && (f.notice_type matches Some(t) && t@
        == "watch_streak"@) {
        match (f.chatter_user_id, f.chatter_user_login, f.chatter_user_name) {
            (None, _, _) => Err(MissingField::ChatterUserId),
            (Some(_), None, _) => Err(MissingField::ChatterUserLogin),
            (Some(_), Some(_), None) => Err(MissingField::ChatterUserName),
            (Some(user_id), Some(login), Some(display_name)) => Ok(
                ChannelEvent::WatchStreak {
                    count: match f.streak_count {
                        Some(c) => c,
                        None => 0,
                    },
                    user_id,
                    login,
                    display_name,
                },
            ),
        }
    } else if kind == "channel.vip.add"@ {
        match f.user_id {
            None => Err(MissingField::UserId),
            Some(user_id) => Ok(
                ChannelEvent::VipAdd { user_id, login: f.user_login, display_name: f.user_name },
            ),
        }
    } else if kind == "channel.vip.remove"@ {
        match f.user_id {
            None => Err(MissingField::UserId),
            Some(user_id) => Ok(ChannelEvent::VipRemove { user_id }),
        }
    } else {
        Ok(ChannelEvent::Other)
    }
}

fn is_text(value: &Option<String>, expected: &str) -> (r: bool)
    ensures
        r == (value matches Some(t) && t@ == expected@),
{
    match value {
        Some(t) => same_text(t.as_str(), expected),
        None => false,
    }
}

/// Reads the event of a notification of type `kind`.
pub fn read_event(kind: &str, f: EventFields) -> (r: Result<ChannelEvent, MissingField>)
    ensures
        r == event_of(kind@, f),
{
    if same_text(kind, "stream.online") {
        match (f.id, f.started_at) {
            (None, _) => Err(MissingField::Id),
            (Some(_), None) => Err(MissingField::StartedAt),
            (Some(id), Some(started_at)) => Ok(ChannelEvent::StreamOnline { id, started_at }),
        }
    } else if same_text(kind, "stream.offline") {
        Ok(ChannelEvent::StreamOffline)
    } else if same_text(kind, "channel.chat.message") {
        match f.chatter_user_id {
            None => Err(MissingField::ChatterUserId),
            Some(user_id) => Ok(ChannelEvent::ChatMessage { user_id }),
        }
    } else if same_text(kind, "channel.chat.notification") && is_text(&f.notice_type, "watch_streak") {
        let count = match f.streak_count {
            Some(c) => c,
            None => 0,
        };
        match (f.chatter_user_id, f.chatter_user_login, f.chatter_user_name) {
            (None, _, _) => Err(MissingField::ChatterUserId),
            (Some(_), None, _) => Err(MissingField::ChatterUserLogin),
            (Some(_), Some(_), None) => Err(MissingField::ChatterUserName),
            (Some(user_id), Some(login), Some(display_name)) => Ok(
                ChannelEvent::WatchStreak { count, user_id, login, display_name },
            ),
        }
    } else if same_text(kind, "channel.vip.add") {
        match f.user_id {
            None => Err(MissingField::UserId),
            Some(user_id) => Ok(
                ChannelEvent::VipAdd { user_id, login: f.user_login, display_name: f.user_name },
            ),
        }
    } else if same_text(kind, "channel.vip.remove") {
        match f.user_id {
            None => Err(MissingField::UserId),
            Some(user_id) => Ok(ChannelEvent::VipRemove { user_id }),
        }
    } else {
        Ok(ChannelEvent::Other)
    }
}

/// What follows from applying an event.
#[derive(Debug)]
pub enum Reaction {
    /// Nothing more to do.
    Done,
    /// Record this entry in the history.
    Note(ActivityNote),
    /// Ask Twitch to grant the VIP role.
    Grant(VipGrant),
    /// The stream ended: read the VIP list from Twitch, then call
    /// `CoreState::stream_offline`.
    NeedVipList,
}

/// Applies a channel event other than the end of a stream to the state, and
/// says what the monitor must do next.
pub fn apply_channel_event(core: &mut CoreState, event: ChannelEvent) -> (r: Result<Reaction, MissingField>)
    ensures
        old(core).wf() ==> final(core).wf(),
        old(core).consistent() ==> final(core).consistent(),
        final(core).auth == old(core).auth,
        event matches ChannelEvent::StreamOnline { id, started_at } ==> {
            &&& (r matches Ok(Reaction::Note(n)) && note_is(
                n,
                ActivityKind::System,
                "Стрим начался"@,
                "Мониторинг чата запущен без пропусков"@,
            ))
            &&& final(core).snapshot.stream == Some(StreamInfo { id, started_at, complete: true })
            &&& final(core).snapshot.report@.len() == 0
            &&& final(core).snapshot.vips@ == silenced(old(core).snapshot.vips@)
            &&& final(core).snapshot == (AppSnapshot {
                vips: final(core).snapshot.vips,
                report: final(core).snapshot.report,
                stream: final(core).snapshot.stream,
                ..old(core).snapshot
            })
            &&& final(core).chatters@.len() == 0
        },
        event is StreamOffline ==> (r matches Ok(Reaction::NeedVipList)) && *final(core) == *old(core),
        event matches ChannelEvent::ChatMessage { user_id } ==> {
            &&& (r matches Ok(Reaction::Done))
            &&& final(core).chatter_ids() == old(core).chatter_ids().insert(user_id@)
            &&& final(core).snapshot.vips@ == after_chat(old(core).snapshot.vips@, user_id@)
            &&& final(core).snapshot == (AppSnapshot { vips: final(core).snapshot.vips, ..old(core).snapshot })
            &&& has_user(old(core).snapshot.vips@, user_id@) ==> final(core).snapshot.vips@[first_index(
                old(core).snapshot.vips@,
                user_id@,
            )].wrote_this_stream
        },
        event matches ChannelEvent::WatchStreak { count, user_id, login, display_name } ==> {
            let grants = count >= old(core).snapshot.streak_threshold && !has_user(old(core).snapshot.vips@, user_id@);
            &&& grants ==> (r matches Ok(Reaction::Grant(g)) && g == VipGrant {
                user_id,
                login,
                display_name,
                count,
                wrote: has_text(old(core).chatters@, user_id@),
            })
            &&& !grants ==> (r matches Ok(Reaction::Done))
            &&& final(core).snapshot.vips@ == after_streak(old(core).snapshot.vips@, user_id@, count)
            &&& final(core).snapshot == (AppSnapshot { vips: final(core).snapshot.vips, ..old(core).snapshot })
            &&& final(core).chatters == old(core).chatters
        },
        event matches ChannelEvent::VipAdd { user_id, login, display_name } ==> {
            &&& (r is Err <==> (!has_user(old(core).snapshot.vips@, user_id@) && (login is None || display_name is None)))
            &&& (r matches Err(e) ==> final(core).snapshot == old(core).snapshot && e == (if login is None {
                MissingField::UserLogin
            } else {
                MissingField::UserName
            }))
            &&& r is Ok ==> (r matches Ok(Reaction::Done))
            &&& has_user(old(core).snapshot.vips@, user_id@) ==> final(core).snapshot == old(core).snapshot
            &&& (!has_user(old(core).snapshot.vips@, user_id@) && login is Some && display_name is Some) ==> {
                &&& final(core).snapshot.vips@ == old(core).snapshot.vips@.push(
                    announced_vip(user_id, login->0, display_name->0, old(core).chatters@),
                )
                &&& final(core).snapshot == (AppSnapshot {
                    vips: final(core).snapshot.vips,
                    vip_count: (old(core).snapshot.vips@.len() + 1) as usize,
                    ..old(core).snapshot
                })
            }
            &&& final(core).chatters == old(core).chatters
        },
        event matches ChannelEvent::VipRemove { user_id } ==> {
            &&& (r matches Ok(Reaction::Done))
            &&& final(core).snapshot.vips@ == without_user(old(core).snapshot.vips@, user_id@)
            &&& final(core).snapshot.report@ == without_user(old(core).snapshot.report@, user_id@)
            &&& final(core).snapshot == (AppSnapshot {
                vips: final(core).snapshot.vips,
                report: final(core).snapshot.report,
                vip_count: final(core).snapshot.vips@.len() as usize,
                ..old(core).snapshot
            })
            &&& final(core).chatters == old(core).chatters
        },
        event is Other ==> (r matches Ok(Reaction::Done)) && *final(core) == *old(core),
{
    match event {
        ChannelEvent::StreamOnline { id, started_at } => {
            core.stream_online(id, started_at);
            Ok(Reaction::Note(stream_started_note()))
        },
        ChannelEvent::StreamOffline => Ok(Reaction::NeedVipList),
        ChannelEvent::ChatMessage { user_id } => {
            proof {
                if has_user(core.snapshot.vips@, user_id@) {
                    lemma_first_index_exists(core.snapshot.vips@, user_id@);
                }
            }
            core.chat_message(user_id);
            Ok(Reaction::Done)
        },
        ChannelEvent::WatchStreak { count, user_id, login, display_name } => {
            proof {
                if has_user(core.snapshot.vips@, user_id@) {
                    lemma_first_index_exists(core.snapshot.vips@, user_id@);
                }
            }
            match core.watch_streak(count, user_id, login, display_name) {
                Some(g) => Ok(Reaction::Grant(g)),
                None => Ok(Reaction::Done),
            }
        },
        ChannelEvent::VipAdd { user_id, login, display_name } => {
            let ghost id = user_id@;
            let ghost before = core.snapshot.vips@;
            match core.vip_added(user_id, login, display_name) {
                Ok(()) => {
                    proof {
                        if !has_user(before, id) {
                            assert(core.snapshot.vips@[before.len() as int].uid() == id);
                        }
                    }
                    Ok(Reaction::Done)
                },
                Err(e) => Err(e),
            }
        },
        ChannelEvent::VipRemove { user_id } => {
            core.vip_removed(&user_id);
            Ok(Reaction::Done)
        },
        ChannelEvent::Other => Ok(Reaction::Done),
    }
}

/// How many notification ids the monitor remembers to drop repeated deliveries.
pub const REMEMBERED_MESSAGES: usize = 5000;

/// The ids of the latest notifications, oldest first.
#[derive(Debug)]
pub struct ProcessedMessages {
    pub ids: VecDeque<String>,
}

/// The window after remembering `id`: it joins at the end, and the oldest id
/// is forgotten once more than `REMEMBERED_MESSAGES` are held.
pub open spec fn remembered(w: Seq<Seq<char>>, id: Seq<char>) -> Seq<Seq<char>> {
    let p = w.push(id);
    if p.len() > REMEMBERED_MESSAGES {
        p.drop_first()
    } else {
        p
    }
}

impl View for ProcessedMessages {
    type V = Seq<Seq<char>>;

    open spec fn view(&self) -> Seq<Seq<char>> {
        self.ids@.map_values(|s: String| s@)
    }
}

impl ProcessedMessages {
    /// Each id is held once, and no more than `REMEMBERED_MESSAGES` of them.
    pub open spec fn wf(&self) -> bool {
        &&& self@.no_duplicates()
        &&& self@.len() <= REMEMBERED_MESSAGES
    }

    /// An empty window.
    pub fn new() -> (r: Self)
        ensures
            r.wf(),
            r@.len() == 0,
    {
        let r = ProcessedMessages { ids: VecDeque::new() };
        assert(r@ =~= Seq::<Seq<char>>::empty());
        r
    }

    /// Remembers `id`; false when it was already remembered, that is when the
    /// notification is a repeated delivery.
    pub fn first_time(&mut self, id: String) -> (r: bool)
        ensures
            old(self).wf() ==> final(self).wf(),
            r == !old(self)@.contains(id@),
            r ==> final(self)@ == remembered(old(self)@, id@),
            !r ==> final(self)@ == old(self)@,
    {
        let ghost w = self@;
        let mut i: usize = 0;
        while i < self.ids.len()
            invariant
                w == self@,
                *self == *old(self),
                i <= self.ids@.len(),
                forall|j: int| 0 <= j < i ==> (#[trigger] self.ids@[j])@ != id@,
            decreases self.ids@.len() - i,
        {
            if self.ids[i] == id {
                assert(w[i as int] == id@);
                return false;
            }
            i = i + 1;
        }
        assert(!w.contains(id@)) by {
            if w.contains(id@) {
                let j = choose|j: int| 0 <= j < w.len() && w[j] == id@;
                assert(self.ids@[j]@ == w[j]);
            }
        }
        let ghost v = id@;
        self.ids.push_back(id);
        assert(self@ =~= w.push(v));
        if self.ids.len() > REMEMBERED_MESSAGES {
            let _ = self.ids.pop_front();
            assert(self@ =~= w.push(v).drop_first());
        }
        assert(w.no_duplicates() ==> w.push(v).no_duplicates()) by {
            if w.no_duplicates() {
            assert forall|a: int, b: int| 0 <= a < w.push(v).len() && 0 <= b < w.push(v).len() && a != b implies w.push(v)[a] != w.push(v)[b] by {
                if a == w.len() {
                    assert(w.push(v)[b] == w[b]);
                } else if b == w.len() {
                    assert(w.push(v)[a] == w[a]);
                }
            }
            }
        }
        true
    }
}

/// A notification id just remembered is remembered: its next delivery is dropped.
pub proof fn lemma_remembered_id_is_held(w: Seq<Seq<char>>, id: Seq<char>)
    requires
        w.len() <= REMEMBERED_MESSAGES,
    ensures
        remembered(w, id).contains(id),
{
    let r = remembered(w, id);
    assert(r[r.len() - 1] == id);
}

/// What the monitor does with an EventSub message.
#[derive(Debug)]
pub enum Route {
    /// Twitch asks to move to this URL.
    Reconnect(String),
    /// Not a notification, or one delivered before.
    Skip,
    /// A notification carrying this event.
    Event(ChannelEvent),
}

/// The text of a reconnect request without a URL.
pub open spec fn reconnect_without_url_text() -> Seq<char> {
    "EventSub reconnect без URL"@
}

/// The notification was delivered before: its id is remembered.
pub open spec fn is_repeat(id: Option<String>, seen: Seq<Seq<char>>) -> bool {
    id matches Some(i) && seen.contains(i@)
}

/// The kind of a message, or the empty text when it has none.
pub open spec fn kind_text(k: Option<String>) -> Seq<char> {
    match k {
        Some(t) => t@,
        None => Seq::empty(),
    }
}

fn text_or_empty(t: Option<String>) -> (r: String)
    ensures
        r@ == kind_text(t),
{
    match t {
        Some(s) => s,
        None => String::new(),
    }
}

/// Routes an EventSub message: a reconnect request gives its URL; a
/// notification delivered for the first time gives its event; anything else
/// is skipped. Notification ids are remembered to drop repeated deliveries.
pub fn route_message(msg: EventSubMessage, seen: &mut ProcessedMessages) -> (r: Result<Route, String>)
    ensures
        old(seen).wf() ==> final(seen).wf(),
        kind_text(msg.message_type) == "session_reconnect"@ ==> *final(seen) == *old(seen) && (match msg.reconnect_url {
            Some(u) => r matches Ok(Route::Reconnect(v)) && v == u,
            None => r matches Err(e) && e@ == reconnect_without_url_text(),
        }),
        kind_text(msg.message_type) != "session_reconnect"@ && kind_text(msg.message_type) != "notification"@
            ==> (r matches Ok(Route::Skip)) && *final(seen) == *old(seen),
        kind_text(msg.message_type) == "notification"@ && is_repeat(msg.message_id, old(seen)@) ==> (r matches Ok(
            Route::Skip,
        )) && final(seen)@ == old(seen)@,
        kind_text(msg.message_type) == "notification"@ && !is_repeat(msg.message_id, old(seen)@) ==> {
            &&& match msg.message_id {
                Some(id) => final(seen)@ == remembered(old(seen)@, id@),
                None => *final(seen) == *old(seen),
            }
            &&& match event_of(kind_text(msg.subscription_type), msg.event) {
                Ok(e) => r matches Ok(Route::Event(x)) && x == e,
                Err(f) => r matches Err(m) && m@ == "В событии Twitch отсутствует "@ + field_name(f),
            }
        },
{
    let kind = text_or_empty(msg.message_type);
    if same_text(kind.as_str(), "session_reconnect") {
        proof {
            reveal_strlit("session_reconnect");
            reveal_strlit("notification");
            assert("session_reconnect"@.len() != "notification"@.len());
        }
        return match msg.reconnect_url {
            Some(u) => Ok(Route::Reconnect(u)),
            None => Err(String::from_str("EventSub reconnect без URL")),
        };
    }
    if !same_text(kind.as_str(), "notification") {
        return Ok(Route::Skip);
    }
    proof {
        reveal_strlit("session_reconnect");
        reveal_strlit("notification");
        assert("session_reconnect"@.len() != "notification"@.len());
    }
    let ghost mid = msg.message_id;
    if let Some(id) = msg.message_id {
        if !seen.first_time(id) {
            assert(is_repeat(mid, old(seen)@));
            return Ok(Route::Skip);
        }
    }
    assert(!is_repeat(mid, old(seen)@));
    let event_type = text_or_empty(msg.subscription_type);
    match read_event(event_type.as_str(), msg.event) {
        Ok(e) => Ok(Route::Event(e)),
        Err(f) => Err(f.message()),
    }
}

/// The text of the start check: an empty reconnect URL.
pub open spec fn empty_url_text() -> Seq<char> {
    "empty reconnect URL"@
}

/// The text shown when Twitch is not connected.
pub open spec fn not_connected_text() -> Seq<char> {
    "Twitch не подключён"@
}

/// The text shown when Twitch is not connected.
pub fn not_connected_message() -> (r: String)
    ensures
        r@ == not_connected_text(),
{
    String::from_str("Twitch не подключён")
}

/// Checks that a connection can start: the URL is not empty and a session exists.
pub fn check_connection_start(url: &String, auth: &Option<AuthSession>) -> (r: Result<(), String>)
    ensures
        url@.len() == 0 ==> (r matches Err(e) && e@ == empty_url_text()),
        url@.len() > 0 && auth is None ==> (r matches Err(e) && e@ == not_connected_text()),
        url@.len() > 0 && auth is Some ==> r is Ok,
{
    if url.as_str().is_empty() {
        return Err(String::from_str("empty reconnect URL"));
    }
    if auth.is_none() {
        return Err(not_connected_message());
    }
    Ok(())
}

/// An EventSub subscription the monitor needs.
#[derive(Debug, Clone)]
pub struct Subscription {
    pub event_type: String,
    /// Chat events are subscribed as the broadcaster reading their own chat.
    pub chat_event: bool,
}

/// The subscriptions the monitor needs, in the order they are created.
pub open spec fn needed_subscriptions() -> Seq<(Seq<char>, bool)> {
    seq![
        ("stream.online"@, false),
        ("stream.offline"@, false),
        ("channel.chat.message"@, true),
        ("channel.chat.notification"@, true),
        ("channel.vip.add"@, false),
        ("channel.vip.remove"@, false),
    ]
}

/// The subscriptions the monitor creates on a fresh session.
pub fn subscriptions() -> (r: Vec<Subscription>)
    ensures
        r@.len() == needed_subscriptions().len(),
        forall|i: int| 0 <= i < r@.len() ==> ((#[trigger] r@[i]).event_type@, r@[i].chat_event)
            == needed_subscriptions()[i],
{
    let mut r: Vec<Subscription> = Vec::new();
    r.push(Subscription { event_type: String::from_str("stream.online"), chat_event: false });
    r.push(Subscription { event_type: String::from_str("stream.offline"), chat_event: false });
    r.push(Subscription { event_type: String::from_str("channel.chat.message"), chat_event: true });
    r.push(Subscription { event_type: String::from_str("channel.chat.notification"), chat_event: true });
    r.push(Subscription { event_type: String::from_str("channel.vip.add"), chat_event: false });
    r.push(Subscription { event_type: String::from_str("channel.vip.remove"), chat_event: false });
    r
}

/// The condition of a subscription, as key and value pairs: chat events also
/// name the reading user, the broadcaster.
pub fn subscription_condition(broadcaster_id: &String, chat_event: bool) -> (r: Vec<(String, String)>)
    ensures
        chat_event ==> r@.len() == 2 && r@[0].0@ == "broadcaster_user_id"@ && r@[0].1@ == broadcaster_id@
            && r@[1].0@ == "user_id"@ && r@[1].1@ == broadcaster_id@,
        !chat_event ==> r@.len() == 1 && r@[0].0@ == "broadcaster_user_id"@ && r@[0].1@ == broadcaster_id@,
{
    let mut r: Vec<(String, String)> = Vec::new();
    r.push((String::from_str("broadcaster_user_id"), broadcaster_id.clone()));
    if chat_event {
        r.push((String::from_str("user_id"), broadcaster_id.clone()));
    }
    r
}

/// The longest wait, in seconds, between two connection attempts.
pub const MAX_RETRY_DELAY_SECS: u64 = 60;

/// The EventSub WebSocket endpoint.
pub open spec fn default_url() -> Seq<char> {
    "wss://eventsub.wss.twitch.tv/ws"@
}

/// The EventSub WebSocket endpoint.
pub fn eventsub_url() -> (r: String)
    ensures
        r@ == default_url(),
{
    String::from_str("wss://eventsub.wss.twitch.tv/ws")
}

/// How a connection of the monitor ended.
#[derive(Debug)]
pub enum ConnectionExit {
    /// Twitch moved the session to this URL.
    Reconnect(String),
    /// The connection closed.
    Closed,
    /// The connection failed with this error.
    Failed(String),
}

/// What the monitor does after a connection ended.
#[derive(Debug)]
pub enum MonitorStep {
    /// Connect again at once.
    Continue,
    /// Show the error, wait this many seconds, then connect again.
    Retry { message: String, wait_secs: u64 },
    /// The monitor is no longer the current one: stop.
    Stop,
}

/// The wait after a failure that followed a wait of `d` seconds.
pub open spec fn next_delay(d: u64) -> u64 {
    if 2 * d > MAX_RETRY_DELAY_SECS {
        MAX_RETRY_DELAY_SECS
    } else {
        (2 * d) as u64
    }
}

/// The text shown when EventSub closed the connection.
pub open spec fn closed_text() -> Seq<char> {
    "Соединение EventSub прервано"@
}

/// Where the monitor connects next and how long it waits after a failure.
#[derive(Debug)]
pub struct MonitorLoop {
    pub delay_secs: u64,
    pub url: String,
    /// The session was moved by Twitch: its subscriptions carry over.
    pub transferred: bool,
}

impl MonitorLoop {
    /// The wait stays between one second and `MAX_RETRY_DELAY_SECS`.
    pub open spec fn wf(&self) -> bool {
        1 <= self.delay_secs <= MAX_RETRY_DELAY_SECS
    }

    /// A monitor about to open a fresh session.
    pub fn new() -> (r: Self)
        ensures
            r.wf(),
            r.delay_secs == 1,
            r.url@ == default_url(),
            !r.transferred,
    {
        MonitorLoop { delay_secs: 1, url: eventsub_url(), transferred: false }
    }

    /// Decides what follows a connection: a move by Twitch reconnects at once
    /// to the new URL; a close or a failure of the current monitor shows an
    /// error, waits, doubles the wait up to `MAX_RETRY_DELAY_SECS` and starts
    /// a fresh session; a monitor that is no longer current stops.
    pub fn after_exit(&mut self, exit: ConnectionExit, still_current: bool) -> (r: MonitorStep)
        ensures
            old(self).wf() ==> final(self).wf(),
            match exit {
                ConnectionExit::Reconnect(u) => {
                    &&& r is Continue
                    &&& final(self).url == u
                    &&& final(self).transferred
                    &&& final(self).delay_secs == 1
                },
                ConnectionExit::Closed => if still_current {
                    &&& r matches MonitorStep::Retry { message, wait_secs } && message@ == closed_text()
                        && wait_secs == old(self).delay_secs
                    &&& final(self).delay_secs == next_delay(old(self).delay_secs)
                    &&& final(self).url@ == default_url()
                    &&& !final(self).transferred
                } else {
                    r is Stop && *final(self) == *old(self)
                },
                ConnectionExit::Failed(e) => if still_current {
                    &&& r matches MonitorStep::Retry { message, wait_secs } && message == e
                        && wait_secs == old(self).delay_secs
                    &&& final(self).delay_secs == next_delay(old(self).delay_secs)
                    &&& final(self).url@ == default_url()
                    &&& !final(self).transferred
                } else {
                    r is Stop && *final(self) == *old(self)
                },
            },
    {
        match exit {
            ConnectionExit::Reconnect(u) => {
                self.url = u;
                self.transferred = true;
                self.delay_secs = 1;
                MonitorStep::Continue
            },
            ConnectionExit::Closed => {
                if !still_current {
                    return MonitorStep::Stop;
                }
                let wait_secs = self.delay_secs;
                self.retry_later();
                MonitorStep::Retry { message: String::from_str("Соединение EventSub прервано"), wait_secs }
            },
            ConnectionExit::Failed(e) => {
                if !still_current {
                    return MonitorStep::Stop;
                }
                let wait_secs = self.delay_secs;
                self.retry_later();
                MonitorStep::Retry { message: e, wait_secs }
            },
        }
    }

    fn retry_later(&mut self)
        ensures
            old(self).wf() ==> final(self).wf(),
            final(self).delay_secs == next_delay(old(self).delay_secs),
            final(self).url@ == default_url(),
            !final(self).transferred,
    {
        self.delay_secs = if self.delay_secs > MAX_RETRY_DELAY_SECS / 2 {
            MAX_RETRY_DELAY_SECS
        } else {
            self.delay_secs * 2
        };
        self.url = eventsub_url();
        self.transferred = false;
    }
}

/// The wait before the next attempt after `n` failures in a row.
pub open spec fn delay_after_failures(n: nat) -> u64
    decreases n,
{
    if n == 0 {
        1
    } else {
        next_delay(delay_after_failures((n - 1) as nat))
    }
}

/// After `n` failures in a row the wait is `2^n` seconds, at most
/// `MAX_RETRY_DELAY_SECS`.
pub proof fn lemma_backoff_doubles_up_to_cap(n: nat)
    ensures
        delay_after_failures(n) == if vstd::arithmetic::power2::pow2(n) > MAX_RETRY_DELAY_SECS {
            MAX_RETRY_DELAY_SECS as nat
        } else {
            vstd::arithmetic::power2::pow2(n)
        },
    decreases n,
{
    if n == 0 {
        vstd::arithmetic::power2::lemma2_to64();
    } else {
        lemma_backoff_doubles_up_to_cap((n - 1) as nat);
        vstd::arithmetic::power2::lemma_pow2_unfold(n);
    }
}


/// Of the chat notifications only a shared watch streak is an event: any other
/// notice type, or none, is ignored whatever the other fields hold.
pub proof fn law_only_watch_streaks_are_read(f: EventFields)
    requires
        !(f.notice_type matches Some(t) && t@ == "watch_streak"@),
    ensures
        event_of("channel.chat.notification"@, f) == Ok::<ChannelEvent, MissingField>(ChannelEvent::Other),
{
    reveal_strlit("channel.chat.notification");
    reveal_strlit("stream.online");
    reveal_strlit("stream.offline");
    reveal_strlit("channel.chat.message");
    reveal_strlit("channel.vip.add");
    reveal_strlit("channel.vip.remove");
    assert("channel.chat.notification"@.len() != "stream.online"@.len());
    assert("channel.chat.notification"@ != "stream.online"@);
    assert("channel.chat.notification"@.len() != "stream.offline"@.len());
    assert("channel.chat.notification"@ != "stream.offline"@);
    assert("channel.chat.notification"@.len() != "channel.chat.message"@.len());
    assert("channel.chat.notification"@ != "channel.chat.message"@);
    assert("channel.chat.notification"@.len() != "channel.vip.add"@.len());
    assert("channel.chat.notification"@ != "channel.vip.add"@);
    assert("channel.chat.notification"@.len() != "channel.vip.remove"@.len());
    assert("channel.chat.notification"@ != "channel.vip.remove"@);
}

/// A shared watch streak with the chatter's id, login and name is read as a
/// watch streak of the count it carries (zero when it carries none) by that
/// chatter.
pub proof fn law_watch_streak_is_read(f: EventFields, t: String, id: String, login: String, name: String)
    requires
        f.notice_type == Some(t),
        t@ == "watch_streak"@,
        f.chatter_user_id == Some(id),
        f.chatter_user_login == Some(login),
        f.chatter_user_name == Some(name),
    ensures
        event_of("channel.chat.notification"@, f) == Ok::<ChannelEvent, MissingField>(ChannelEvent::WatchStreak {
            count: if f.streak_count is Some { f.streak_count->0 } else { 0 },
            user_id: id,
            login,
            display_name: name,
        }),
{
    reveal_strlit("channel.chat.notification");
    reveal_strlit("stream.online");
    reveal_strlit("stream.offline");
    reveal_strlit("channel.chat.message");
    assert("channel.chat.notification"@.len() != "stream.online"@.len());
    assert("channel.chat.notification"@ != "stream.online"@);
    assert("channel.chat.notification"@.len() != "stream.offline"@.len());
    assert("channel.chat.notification"@ != "stream.offline"@);
    assert("channel.chat.notification"@.len() != "channel.chat.message"@.len());
    assert("channel.chat.notification"@ != "channel.chat.message"@);
}

} // verus!
