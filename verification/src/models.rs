//! The values the application tracks and shows: VIPs, the stream, the report
//! of silent VIPs, the activity history and the Twitch API records.
use vstd::prelude::*;

verus! {

/// State of the EventSub connection.
#[derive(Debug, Clone, Copy, PartialEq, Eq, Structural)]
pub enum ConnectionStatus {
    Disconnected,
    Connecting,
    Connected,
    Error,
}

/// A VIP of the channel and what is known of them during the current stream.
#[derive(Debug, Clone)]
pub struct VipUser {
    pub user_id: String,
    pub login: String,
    pub display_name: String,
    pub watch_streak: Option<u64>,
    pub wrote_this_stream: bool,
}

/// The stream being monitored; `complete` is false once chat may have been missed.
#[derive(Debug, Clone)]
pub struct StreamInfo {
    pub id: String,
    pub started_at: String,
    pub complete: bool,
}

/// A line of the report of VIPs who stayed silent during a stream.
#[derive(Debug, Clone)]
pub struct ReportUser {
    pub user_id: String,
    pub login: String,
    pub display_name: String,
    pub watch_streak: Option<u64>,
    pub wrote_this_stream: bool,
    pub selected: bool,
}

/// The report line for a VIP: same identity and counters, not selected.
pub open spec fn report_line(vip: VipUser) -> ReportUser {
    ReportUser {
        user_id: vip.user_id,
        login: vip.login,
        display_name: vip.display_name,
        watch_streak: vip.watch_streak,
        wrote_this_stream: vip.wrote_this_stream,
        selected: false,
    }
}

impl<'a> From<&'a VipUser> for ReportUser {
    fn from(value: &'a VipUser) -> (r: Self) {
        ReportUser {
            user_id: value.user_id.clone(),
            login: value.login.clone(),
            display_name: value.display_name.clone(),
            watch_streak: value.watch_streak,
            wrote_this_stream: value.wrote_this_stream,
            selected: false,
        }
    }
}

impl<'a> vstd::std_specs::convert::FromSpecImpl<&'a VipUser> for ReportUser {
    open spec fn obeys_from_spec() -> bool {
        true
    }

    open spec fn from_spec(v: &'a VipUser) -> Self {
        report_line(*v)
    }
}

/// Kind of an entry of the activity history.
#[derive(Debug, Clone, Copy, PartialEq, Eq, Structural)]
pub enum ActivityKind {
    VipAdd,
    VipRemove,
    System,
    Warning,
}

/// Name under which an activity kind is stored.
pub open spec fn kind_code(kind: ActivityKind) -> Seq<char> {
    match kind {
        ActivityKind::VipAdd => "vip_add"@,
        ActivityKind::VipRemove => "vip_remove"@,
        ActivityKind::System => "system"@,
        ActivityKind::Warning => "warning"@,
    }
}

/// The kind stored under `code`; unknown names read as `System`.
pub open spec fn kind_of_code(code: Seq<char>) -> ActivityKind {
    if code == "vip_add"@ {
        ActivityKind::VipAdd
    } else if code == "vip_remove"@ {
        ActivityKind::VipRemove
    } else if code == "warning"@ {
        ActivityKind::Warning
    } else {
        ActivityKind::System
    }
}

/// The name under which `kind` is stored.
pub fn activity_kind_code(kind: ActivityKind) -> (r: &'static str)
    ensures
        r@ == kind_code(kind),
{
    match kind {
        ActivityKind::VipAdd => "vip_add",
        ActivityKind::VipRemove => "vip_remove",
        ActivityKind::System => "system",
        ActivityKind::Warning => "warning",
    }
}

/// The kind stored under `code`; an unknown name reads as `System`.
pub fn activity_kind_from_code(code: &str) -> (r: ActivityKind)
    ensures
        r == kind_of_code(code@),
{
    if crate::text::same_text(code, "vip_add") {
        ActivityKind::VipAdd
    } else if crate::text::same_text(code, "vip_remove") {
        ActivityKind::VipRemove
    } else if crate::text::same_text(code, "warning") {
        ActivityKind::Warning
    } else {
        ActivityKind::System
    }
}

/// Storing a kind by name and reading the name back gives the same kind.
pub proof fn lemma_kind_code_round_trip(kind: ActivityKind)
    ensures
        kind_of_code(kind_code(kind)) == kind,
{
    reveal_strlit("vip_add");
    reveal_strlit("vip_remove");
    reveal_strlit("system");
    reveal_strlit("warning");
    assert("vip_add"@.len() != "vip_remove"@.len());
    assert("system"@.len() != "vip_add"@.len());
    assert("system"@.len() != "vip_remove"@.len());
    assert("system"@.len() != "warning"@.len());
    assert("warning"@[0] != "vip_add"@[0]);
    assert("warning"@.len() != "vip_remove"@.len());
}

/// An entry of the activity history.
#[derive(Debug, Clone)]
pub struct ActivityEntry {
    pub id: i64,
    pub kind: ActivityKind,
    pub title: String,
    pub detail: String,
    pub created_at: String,
}

/// Everything the user interface shows.
#[derive(Debug, Clone)]
pub struct AppSnapshot {
    pub configured: bool,
    pub connection_status: ConnectionStatus,
    pub channel_login: Option<String>,
    pub channel_display_name: Option<String>,
    pub stream: Option<StreamInfo>,
    pub vip_count: usize,
    pub vips: Vec<VipUser>,
    pub report: Vec<ReportUser>,
    pub report_complete: bool,
    pub activities: Vec<ActivityEntry>,
    pub streak_threshold: u64,
    pub last_error: Option<String>,
}

/// The watch-streak threshold used until the user sets one.
pub const DEFAULT_STREAK_THRESHOLD: u64 = 150;

/// The snapshot of an application that is not connected to Twitch, whatever
/// its threshold and history.
pub open spec fn is_disconnected_snapshot(s: AppSnapshot) -> bool {
    &&& !s.configured
    &&& s.connection_status == ConnectionStatus::Disconnected
    &&& s.channel_login is None
    &&& s.channel_display_name is None
    &&& s.stream is None
    &&& s.vip_count == 0
    &&& s.vips@.len() == 0
    &&& s.report@.len() == 0
    &&& s.report_complete
    &&& s.last_error is None
}

/// The snapshot of a fresh application: disconnected, default threshold, no history.
pub open spec fn is_initial_snapshot(s: AppSnapshot) -> bool {
    &&& is_disconnected_snapshot(s)
    &&& s.activities@.len() == 0
    &&& s.streak_threshold == DEFAULT_STREAK_THRESHOLD
}

impl Default for AppSnapshot {
    fn default() -> (r: Self)
        ensures
            is_initial_snapshot(r),
    {
        AppSnapshot {
            configured: false,
            connection_status: ConnectionStatus::Disconnected,
            channel_login: None,
            channel_display_name: None,
            stream: None,
            vip_count: 0,
            vips: Vec::new(),
            report: Vec::new(),
            report_complete: true,
            activities: Vec::new(),
            streak_threshold: DEFAULT_STREAK_THRESHOLD,
            last_error: None,
        }
    }
}

/// Credentials typed by the user when connecting.
#[derive(Debug, Clone)]
pub struct ConnectRequest {
    pub client_id: String,
    pub access_token: String,
}

/// A request to take the VIP role from the selected users.
#[derive(Debug, Clone)]
pub struct RemoveVipsRequest {
    pub user_ids: Vec<String>,
    /// Deliberately typed by the operator in the confirmation dialog.
    pub channel_confirmation: String,
}

/// A verified Twitch session of the channel owner.
#[derive(Debug, Clone)]
pub struct AuthSession {
    pub client_id: String,
    pub access_token: String,
    pub broadcaster_id: String,
    pub login: String,
    pub display_name: String,
}

impl AuthSession {
    /// A copy of the session.
    pub fn copied(&self) -> (r: Self)
        ensures
            r == *self,
    {
        AuthSession {
            client_id: self.client_id.clone(),
            access_token: self.access_token.clone(),
            broadcaster_id: self.broadcaster_id.clone(),
            login: self.login.clone(),
            display_name: self.display_name.clone(),
        }
    }
}

/// What Twitch reports about an access token.
#[derive(Debug)]
pub struct ValidateResponse {
    pub client_id: String,
    pub login: String,
    pub user_id: String,
    pub scopes: Vec<String>,
}

/// A page of a Helix API listing.
#[derive(Debug)]
pub struct HelixPage<T> {
    pub data: Vec<T>,
    pub pagination: Pagination,
}

/// Where the next page of a Helix listing starts, if there is one.
#[derive(Debug, Default)]
pub struct Pagination {
    pub cursor: Option<String>,
}

/// A Twitch user as the Helix API lists it.
#[derive(Debug)]
pub struct HelixUser {
    pub id: String,
    pub login: String,
    pub display_name: String,
}

/// A VIP as the Helix API lists it.
#[derive(Debug)]
pub struct HelixVip {
    pub user_id: String,
    pub user_login: String,
    pub user_name: String,
}

/// A live stream as the Helix API lists it.
#[derive(Debug)]
pub struct HelixStream {
    pub id: String,
    pub started_at: String,
}

} // verus!
