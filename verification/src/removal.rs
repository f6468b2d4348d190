//! The rules that guard taking the VIP role away: what a removal request must
//! satisfy, the checks repeated before every single removal, and how the
//! snapshot changes after one.
use vstd::prelude::*;
use crate::models::{AppSnapshot, AuthSession, RemoveVipsRequest, ReportUser, VipUser};
use crate::notes::{ActivityNote, note_is, vip_removed_note};
use crate::state::{CoreState, first_index};
use crate::users::{has_user, position_of_user, without_user};
use crate::models::ActivityKind;
use crate::text::{ascii_fold, blank, decimal, eq_ignore_ascii_case, format_u64, is_blank, trimmed, trimmed_eq_ignore_ascii_case};

verus! {

/// At most this many users lose the VIP role in one operation.
pub const MAX_REMOVALS_PER_OPERATION: usize = 20;

/// Why a removal request is refused before anything is sent to Twitch.
#[derive(Debug, Clone, Copy, PartialEq, Eq, Structural)]
pub enum RemovalRejection {
    NothingSelected,
    TooManySelected,
    StreamRunning,
    ReportIncomplete,
    ConfirmationMismatch,
    CorruptSelection,
    NotInReport,
}

/// The user-facing text of a rejection.
pub open spec fn rejection_text(r: RemovalRejection) -> Seq<char> {
    match r {
        RemovalRejection::NothingSelected => "Не выбран ни один пользователь"@,
        RemovalRejection::TooManySelected =>
            "За одну операцию можно снять VIP максимум у 20 пользователей"@,
        RemovalRejection::StreamRunning => "Снятие VIP заблокировано до завершения трансляции"@,
        RemovalRejection::ReportIncomplete =>
            "Снятие VIP заблокировано: мониторинг трансляции был неполным. Проверьте пользователей вручную в Twitch"@,
        RemovalRejection::ConfirmationMismatch =>
            "Подтверждение не совпадает с логином подключённого канала"@,
        RemovalRejection::CorruptSelection => "Список пользователей повреждён или содержит повторы"@,
        RemovalRejection::NotInReport =>
            "Операция отменена: выбран пользователь не из текущего отчёта"@,
    }
}

impl RemovalRejection {
    /// The user-facing text of the rejection.
    pub fn message(&self) -> (r: String)
        ensures
            r@ == rejection_text(*self),
    {
        match self {
            RemovalRejection::NothingSelected => String::from_str("Не выбран ни один пользователь"),
            RemovalRejection::TooManySelected => String::from_str(
                "За одну операцию можно снять VIP максимум у 20 пользователей",
            ),
            RemovalRejection::StreamRunning => String::from_str(
                "Снятие VIP заблокировано до завершения трансляции",
            ),
            RemovalRejection::ReportIncomplete => String::from_str(
                "Снятие VIP заблокировано: мониторинг трансляции был неполным. Проверьте пользователей вручную в Twitch",
            ),
            RemovalRejection::ConfirmationMismatch => String::from_str(
                "Подтверждение не совпадает с логином подключённого канала",
            ),
            RemovalRejection::CorruptSelection => String::from_str(
                "Список пользователей повреждён или содержит повторы",
            ),
            RemovalRejection::NotInReport => String::from_str(
                "Операция отменена: выбран пользователь не из текущего отчёта",
            ),
        }
    }
}

/// No user id occurs twice.
pub open spec fn ids_distinct(ids: Seq<String>) -> bool {
    forall|i: int, j: int| 0 <= i < j < ids.len() ==> #[trigger] ids[i]@ != #[trigger] ids[j]@
}

/// Some user id is empty or whitespace only.
pub open spec fn has_blank_id(ids: Seq<String>) -> bool {
    exists|i: int| 0 <= i < ids.len() && is_blank(#[trigger] ids[i]@)
}

/// Some line of the report is about the user `id`.
pub open spec fn report_has(report: Seq<ReportUser>, id: Seq<char>) -> bool {
    exists|j: int| 0 <= j < report.len() && (#[trigger] report[j]).user_id@ == id
}

/// Every selected user is in the report.
pub open spec fn all_in_report(ids: Seq<String>, report: Seq<ReportUser>) -> bool {
    forall|i: int| 0 <= i < ids.len() ==> report_has(report, (#[trigger] ids[i])@)
}

/// The first rule, in the order they are checked, that a removal request breaks;
/// `None` when it may go ahead.
pub open spec fn removal_rejection(
    snapshot: AppSnapshot,
    auth: AuthSession,
    request: RemoveVipsRequest,
) -> Option<RemovalRejection> {
    let ids = request.user_ids@;
    if ids.len() == 0 {
        Some(RemovalRejection::NothingSelected)
    } else if ids.len() > MAX_REMOVALS_PER_OPERATION {
        Some(RemovalRejection::TooManySelected)
    } else if snapshot.stream is Some {
        Some(RemovalRejection::StreamRunning)
    } else if !snapshot.report_complete {
        Some(RemovalRejection::ReportIncomplete)
    } else if !eq_ignore_ascii_case(trimmed(request.channel_confirmation@), auth.login@) {
        Some(RemovalRejection::ConfirmationMismatch)
    } else if !ids_distinct(ids) || has_blank_id(ids) {
        Some(RemovalRejection::CorruptSelection)
    } else if !all_in_report(ids, snapshot.report@) {
        Some(RemovalRejection::NotInReport)
    } else {
        None
    }
}

fn ids_are_distinct(ids: &Vec<String>) -> (r: bool)
    ensures
        r == ids_distinct(ids@),
{
    let n = ids.len();
    let mut i: usize = 0;
    while i < n
        invariant
            n == ids@.len(),
            i <= n,
            forall|a: int, b: int| 0 <= a < i && a < b < n ==> #[trigger] ids@[a]@ != #[trigger] ids@[b]@,
        decreases n - i,
    {
        let mut j: usize = i + 1;
        while j < n
            invariant
                n == ids@.len(),
                i < n,
                i < j <= n,
                forall|a: int, b: int| 0 <= a < i && a < b < n ==> #[trigger] ids@[a]@ != #[trigger] ids@[b]@,
                forall|b: int| i < b < j ==> ids@[i as int]@ != #[trigger] ids@[b]@,
            decreases n - j,
        {
            if ids[i] == ids[j] {
                return false;
            }
            j = j + 1;
        }
        i = i + 1;
    }
    true
}

fn any_blank(ids: &Vec<String>) -> (r: bool)
    ensures
        r == has_blank_id(ids@),
{
    let mut i: usize = 0;
    while i < ids.len()
        invariant
            i <= ids@.len(),
            forall|k: int| 0 <= k < i ==> !is_blank(#[trigger] ids@[k]@),
        decreases ids@.len() - i,
    {
        if blank(ids[i].as_str()) {
            return true;
        }
        i = i + 1;
    }
    false
}

/// Whether some line of `report` is about the user `id`.
pub fn in_report(report: &Vec<ReportUser>, id: &String) -> (r: bool)
    ensures
        r == report_has(report@, id@),
{
    let mut j: usize = 0;
    while j < report.len()
        invariant
            j <= report@.len(),
            forall|k: int| 0 <= k < j ==> (#[trigger] report@[k]).user_id@ != id@,
        decreases report@.len() - j,
    {
        if report[j].user_id == *id {
            return true;
        }
        j = j + 1;
    }
    false
}

fn every_id_in_report(ids: &Vec<String>, report: &Vec<ReportUser>) -> (r: bool)
    ensures
        r == all_in_report(ids@, report@),
{
    let mut i: usize = 0;
    while i < ids.len()
        invariant
            i <= ids@.len(),
            forall|k: int| 0 <= k < i ==> report_has(report@, (#[trigger] ids@[k])@),
        decreases ids@.len() - i,
    {
        if !in_report(report, &ids[i]) {
            return false;
        }
        i = i + 1;
    }
    true
}

/// Decides whether a removal request may go ahead: a non-empty selection of at
/// most twenty distinct, non-blank users, all taken from a complete report of a
/// stream that has ended, confirmed by typing the channel login.
pub fn removal_verdict(snapshot: &AppSnapshot, auth: &AuthSession, request: &RemoveVipsRequest) -> (r:
    Option<RemovalRejection>)
    ensures
        r == removal_rejection(*snapshot, *auth, *request),
{
    let ids = &request.user_ids;
    if ids.len() == 0 {
        return Some(RemovalRejection::NothingSelected);
    }
    if ids.len() > MAX_REMOVALS_PER_OPERATION {
        return Some(RemovalRejection::TooManySelected);
    }
    if snapshot.stream.is_some() {
        return Some(RemovalRejection::StreamRunning);
    }
    if !snapshot.report_complete {
        return Some(RemovalRejection::ReportIncomplete);
    }
    if !trimmed_eq_ignore_ascii_case(request.channel_confirmation.as_str(), auth.login.as_str()) {
        return Some(RemovalRejection::ConfirmationMismatch);
    }
    if !ids_are_distinct(ids) || any_blank(ids) {
        return Some(RemovalRejection::CorruptSelection);
    }
    if !every_id_in_report(ids, &snapshot.report) {
        return Some(RemovalRejection::NotInReport);
    }
    None
}

/// Checks a removal request before any call to Twitch; the error is the
/// user-facing text of the first rule it breaks.
pub fn validate_removal_request(
    snapshot: &AppSnapshot,
    auth: &AuthSession,
    request: &RemoveVipsRequest,
) -> (r: Result<(), String>)
    ensures
        r is Ok <==> removal_rejection(*snapshot, *auth, *request) is None,
        r matches Err(e) ==> removal_rejection(*snapshot, *auth, *request) matches Some(k) && e@
            == rejection_text(k),
{
    match removal_verdict(snapshot, auth, request) {
        None => Ok(()),
        Some(k) => Err(k.message()),
    }
}

/// Lets one removal operation run at a time.
#[derive(Debug)]
pub struct RemovalGate {
    pub busy: bool,
}

impl RemovalGate {
    /// No removal runs.
    pub fn new() -> (r: Self)
        ensures
            !r.busy,
    {
        RemovalGate { busy: false }
    }

    /// Starts a removal operation; false, and nothing changes, while another runs.
    pub fn begin(&mut self) -> (r: bool)
        ensures
            r == !old(self).busy,
            final(self).busy,
    {
        if self.busy {
            false
        } else {
            self.busy = true;
            true
        }
    }

    /// Ends the running removal operation.
    pub fn finish(&mut self)
        ensures
            !final(self).busy,
    {
        self.busy = false;
    }
}

/// The text shown when a removal operation is asked for while one runs.
pub open spec fn removal_busy_text() -> Seq<char> {
    "Снятие VIP уже выполняется. Дождитесь его завершения"@
}

/// The text shown when a removal operation is asked for while one runs.
pub fn removal_busy_message() -> (r: String)
    ensures
        r@ == removal_busy_text(),
{
    String::from_str("Снятие VIP уже выполняется. Дождитесь его завершения")
}

/// Every selected user is still listed as a VIP.
pub open spec fn all_still_vips(ids: Seq<String>, current: Seq<VipUser>) -> bool {
    forall|i: int| 0 <= i < ids.len() ==> has_user(current, (#[trigger] ids[i])@)
}

/// `ids[i]` is the first selected user that `current` no longer lists.
pub open spec fn first_missing(ids: Seq<String>, current: Seq<VipUser>, i: int) -> bool {
    &&& 0 <= i < ids.len()
    &&& !has_user(current, ids[i]@)
    &&& forall|j: int| 0 <= j < i ==> has_user(current, (#[trigger] ids[j])@)
}

/// The text shown when a selected user is no longer a VIP.
pub open spec fn gone_text(id: Seq<char>) -> Seq<char> {
    "Операция отменена: пользователь "@ + id + " уже отсутствует в актуальном списке VIP"@
}

/// Checks a selection against the VIP list read from Twitch just before any
/// change: a stale report must never be enough to take a role that is already
/// gone. The error names the first selected user no longer listed.
pub fn check_still_vips(ids: &Vec<String>, current: &Vec<VipUser>) -> (r: Result<(), String>)
    ensures
        r is Ok <==> all_still_vips(ids@, current@),
        r matches Err(e) ==> exists|i: int| #[trigger] first_missing(ids@, current@, i) && e@ == gone_text(ids@[i]@),
{
    let mut i: usize = 0;
    while i < ids.len()
        invariant
            i <= ids@.len(),
            forall|j: int| 0 <= j < i ==> has_user(current@, (#[trigger] ids@[j])@),
        decreases ids@.len() - i,
    {
        if position_of_user(current, &ids[i]).is_none() {
            let mut e = String::from_str("Операция отменена: пользователь ");
            e.append(ids[i].as_str());
            e.append(" уже отсутствует в актуальном списке VIP");
            assert(first_missing(ids@, current@, i as int));
            return Err(e);
        }
        i = i + 1;
    }
    Ok(())
}

/// The text shown when Twitch reports the channel live before any removal.
pub open spec fn live_refusal_text() -> Seq<char> {
    "Снятие VIP отменено: Twitch сообщает, что канал сейчас в эфире"@
}

/// The text shown when Twitch reports the channel live before any removal.
pub fn live_refusal_message() -> (r: String)
    ensures
        r@ == live_refusal_text(),
{
    String::from_str("Снятие VIP отменено: Twitch сообщает, что канал сейчас в эфире")
}

/// Why a running removal operation stops early.
#[derive(Debug, Clone, Copy, PartialEq, Eq, Structural)]
pub enum StopReason {
    StreamChanged,
    Disconnected,
    OtherChannel,
    WentLive,
}

/// The end of the text of an early stop.
pub open spec fn stop_reason_text(r: StopReason) -> Seq<char> {
    match r {
        StopReason::StreamChanged => "состояние трансляции изменилось"@,
        StopReason::Disconnected => "Twitch отключён"@,
        StopReason::OtherChannel => "подключён другой канал"@,
        StopReason::WentLive => "Twitch сообщает о начале эфира"@,
    }
}

/// The text of an early stop after `done` removals.
pub open spec fn stop_text(done: nat, r: StopReason) -> Seq<char> {
    "Операция безопасно остановлена после "@ + decimal(done) + " снятий: "@ + stop_reason_text(r)
}

/// The text of an early stop after `done` removals.
pub fn stop_message(done: usize, reason: StopReason) -> (r: String)
    ensures
        r@ == stop_text(done as nat, reason),
{
    let mut e = String::from_str("Операция безопасно остановлена после ");
    let count = format_u64(done as u64);
    e.append(count.as_str());
    e.append(" снятий: ");
    e.append(match reason {
        StopReason::StreamChanged => "состояние трансляции изменилось",
        StopReason::Disconnected => "Twitch отключён",
        StopReason::OtherChannel => "подключён другой канал",
        StopReason::WentLive => "Twitch сообщает о начале эфира",
    });
    e
}

/// Why the next removal may not go ahead, if it may not: the stream state
/// changed, Twitch was disconnected, or another channel is connected.
pub open spec fn step_stop(snapshot: AppSnapshot, current: Option<AuthSession>, auth: AuthSession) -> Option<StopReason> {
    if snapshot.stream is Some || !snapshot.report_complete {
        Some(StopReason::StreamChanged)
    } else if current is None {
        Some(StopReason::Disconnected)
    } else if current->0.broadcaster_id@ != auth.broadcaster_id@ {
        Some(StopReason::OtherChannel)
    } else {
        None
    }
}

/// The check repeated before each removal, `done` removals into the operation.
pub fn removal_step_check(
    done: usize,
    snapshot: &AppSnapshot,
    current: &Option<AuthSession>,
    auth: &AuthSession,
) -> (r: Result<(), String>)
    ensures
        r is Ok <==> step_stop(*snapshot, *current, *auth) is None,
        r matches Err(e) ==> step_stop(*snapshot, *current, *auth) matches Some(k) && e@ == stop_text(
            done as nat,
            k,
        ),
{
    if snapshot.stream.is_some() || !snapshot.report_complete {
        return Err(stop_message(done, StopReason::StreamChanged));
    }
    match current {
        None => Err(stop_message(done, StopReason::Disconnected)),
        Some(a) => {
            if a.broadcaster_id != auth.broadcaster_id {
                Err(stop_message(done, StopReason::OtherChannel))
            } else {
                Ok(())
            }
        },
    }
}

/// Pause between two removals, in milliseconds: Twitch allows at most ten
/// removals in ten seconds.
pub const REMOVAL_PAUSE_MILLIS: u64 = 1100;

/// Whether the operation pauses after the removal at `index` of `total`:
/// after every removal but the last.
pub fn pause_after(index: usize, total: usize) -> (r: bool)
    ensures
        r == (index + 1 < total),
{
    index < total && total - index > 1
}

/// No removal request is accepted while a stream runs or when the report is
/// incomplete.
pub proof fn lemma_no_removal_while_unsafe(snapshot: AppSnapshot, auth: AuthSession, request: RemoveVipsRequest)
    requires
        snapshot.stream is Some || !snapshot.report_complete,
    ensures
        removal_rejection(snapshot, auth, request) is Some,
{
}

/// An accepted request selects between one and twenty distinct users, all in
/// the report, confirmed by the channel login.
pub proof fn lemma_accepted_request(snapshot: AppSnapshot, auth: AuthSession, request: RemoveVipsRequest)
    requires
        removal_rejection(snapshot, auth, request) is None,
    ensures
        1 <= request.user_ids@.len() <= MAX_REMOVALS_PER_OPERATION,
        snapshot.stream is None,
        snapshot.report_complete,
        ids_distinct(request.user_ids@),
        forall|i: int| 0 <= i < request.user_ids@.len() ==> report_has(snapshot.report@, (#[trigger] request.user_ids@[i])@),
        eq_ignore_ascii_case(trimmed(request.channel_confirmation@), auth.login@),
{
}

/// Where a removal operation stands.
#[derive(Debug, Clone, Copy, PartialEq, Eq, Structural)]
pub enum RemovalPhase {
    /// Waiting for the VIP list read from Twitch.
    AwaitVipList,
    /// Waiting for Twitch to say whether the channel is live, before any removal.
    AwaitLiveCheck,
    /// Waiting for Twitch to say whether the channel is live, before removal `i`.
    AwaitStepLive(usize),
    /// Waiting for Twitch to take the role in removal `i`.
    AwaitRemoval(usize),
    /// Waiting for the pause after removal `i`.
    AwaitPause(usize),
    /// Every selected user lost the role.
    Finished,
}

/// What the application must do next for a removal operation.
#[derive(Debug, Clone)]
pub enum RemovalAction {
    /// Read the VIP list from Twitch.
    FetchVipList,
    /// Ask Twitch whether the channel is live.
    CheckLive,
    /// Ask Twitch to take the VIP role from this user.
    Remove(String),
    /// Wait this many milliseconds.
    Pause(u64),
    /// Nothing more: the operation is complete.
    Finished,
}

/// The answer to the last action.
#[derive(Debug)]
pub enum RemovalEvent {
    VipList(Vec<VipUser>),
    Live(bool),
    Removed,
    Paused,
}

/// A removal operation in progress.
pub struct RemovalRun {
    pub user_ids: Vec<String>,
    pub auth: AuthSession,
    pub phase: RemovalPhase,
    /// How many users have lost the role so far.
    pub done: Ghost<nat>,
}

/// The action a phase waits on.
pub open spec fn pending_action(run: RemovalRun, a: RemovalAction) -> bool {
    match run.phase {
        RemovalPhase::AwaitVipList => a is FetchVipList,
        RemovalPhase::AwaitLiveCheck => a is CheckLive,
        RemovalPhase::AwaitStepLive(_) => a is CheckLive,
        RemovalPhase::AwaitRemoval(i) => a matches RemovalAction::Remove(u) && u@ == run.user_ids@[i as int]@,
        RemovalPhase::AwaitPause(_) => a == RemovalAction::Pause(REMOVAL_PAUSE_MILLIS),
        RemovalPhase::Finished => a is Finished,
    }
}

/// The event that answers the action a phase waits on.
pub open spec fn answers(phase: RemovalPhase, e: RemovalEvent) -> bool {
    match phase {
        RemovalPhase::AwaitVipList => e is VipList,
        RemovalPhase::AwaitLiveCheck => e is Live,
        RemovalPhase::AwaitStepLive(_) => e is Live,
        RemovalPhase::AwaitRemoval(_) => e is Removed,
        RemovalPhase::AwaitPause(_) => e is Paused,
        RemovalPhase::Finished => false,
    }
}

impl RemovalRun {
    /// Users are taken in the order selected, one at a time: the phase's
    /// position is the number of users done so far.
    pub open spec fn wf(&self) -> bool {
        let n = self.user_ids@.len();
        &&& 1 <= n <= MAX_REMOVALS_PER_OPERATION
        &&& match self.phase {
            RemovalPhase::AwaitVipList => self.done@ == 0,
            RemovalPhase::AwaitLiveCheck => self.done@ == 0,
            RemovalPhase::AwaitStepLive(i) => i == self.done@ && i < n,
            RemovalPhase::AwaitRemoval(i) => i == self.done@ && i < n,
            RemovalPhase::AwaitPause(i) => i + 1 == self.done@ && i + 1 < n,
            RemovalPhase::Finished => self.done@ == n,
        }
    }

    /// Starts a removal operation for a connected channel and an accepted
    /// request; the first action is to read the VIP list again.
    pub fn start(core: &CoreState, request: RemoveVipsRequest) -> (r: Result<(RemovalRun, RemovalAction), String>)
        ensures
            core.auth is None ==> (r matches Err(e) && e@ == crate::eventsub::not_connected_text()),
            core.auth matches Some(a) ==> match removal_rejection(core.snapshot, a, request) {
                Some(k) => r matches Err(e) && e@ == rejection_text(k),
                None => r matches Ok((run, action)) && run.wf() && run.user_ids == request.user_ids
                    && run.auth == a && run.phase == RemovalPhase::AwaitVipList && action is FetchVipList,
            },
    {
        let auth = match &core.auth {
            Some(a) => a.copied(),
            None => return Err(crate::eventsub::not_connected_message()),
        };
        match removal_verdict(&core.snapshot, &auth, &request) {
            Some(k) => Err(k.message()),
            None => Ok((
                RemovalRun {
                    user_ids: request.user_ids,
                    auth,
                    phase: RemovalPhase::AwaitVipList,
                    done: Ghost(0),
                },
                RemovalAction::FetchVipList,
            )),
        }
    }

    fn gate(&mut self, core: &CoreState, i: usize) -> (r: Result<(RemovalAction, Option<ActivityNote>), String>)
        requires
            i < old(self).user_ids@.len(),
            1 <= old(self).user_ids@.len() <= MAX_REMOVALS_PER_OPERATION,
            old(self).done@ == i,
        ensures
            final(self).user_ids == old(self).user_ids,
            final(self).auth == old(self).auth,
            final(self).done == old(self).done,
            match step_stop(core.snapshot, core.auth, old(self).auth) {
                Some(k) => r matches Err(e) && e@ == stop_text(i as nat, k) && *final(self) == *old(self),
                None => r matches Ok((a, n)) && a is CheckLive && n is None && final(self).phase
                    == RemovalPhase::AwaitStepLive(i) && final(self).wf(),
            },
    {
        match removal_step_check(i, &core.snapshot, &core.auth, &self.auth) {
            Err(e) => Err(e),
            Ok(()) => {
                self.phase = RemovalPhase::AwaitStepLive(i);
                Ok((RemovalAction::CheckLive, None))
            },
        }
    }

    /// Takes the answer to the last action and gives the next one. The VIP
    /// list read again must still hold every selected user; no removal starts
    /// while Twitch reports the channel live; before each removal the stream
    /// state and the session are checked again; after each removal but the
    /// last the operation pauses. An answer that does not fit the phase
    /// changes nothing and the pending action is asked again.
    pub fn step(&mut self, core: &mut CoreState, event: RemovalEvent) -> (r: Result<(RemovalAction, Option<ActivityNote>), String>)
        requires
            old(self).wf(),
        ensures
            r is Ok ==> final(self).wf(),
            r is Err ==> *final(core) == *old(core),
            final(self).user_ids == old(self).user_ids,
            final(self).auth == old(self).auth,
            !answers(old(self).phase, event) ==> (r matches Ok((a, n)) && n is None && pending_action(*old(self), a))
                && *final(self) == *old(self) && *final(core) == *old(core),
            answers(old(self).phase, event) ==> match old(self).phase {
                RemovalPhase::AwaitVipList => if event matches RemovalEvent::VipList(list) && all_still_vips(old(self).user_ids@, list@) {
                    &&& r matches Ok((a, n)) && a is CheckLive && n is None
                    &&& final(self).phase == RemovalPhase::AwaitLiveCheck
                    &&& *final(core) == *old(core)
                } else {
                    event matches RemovalEvent::VipList(list) && r matches Err(e) && exists|i: int|
                        #[trigger] first_missing(old(self).user_ids@, list@, i) && e@ == gone_text(old(self).user_ids@[i]@)
                },
                RemovalPhase::AwaitLiveCheck => if event == RemovalEvent::Live(true) {
                    r matches Err(e) && e@ == live_refusal_text()
                } else {
                    match step_stop(old(core).snapshot, old(core).auth, old(self).auth) {
                        Some(k) => r matches Err(e) && e@ == stop_text(0, k),
                        None => {
                            &&& r matches Ok((a, n)) && a is CheckLive && n is None
                            &&& final(self).phase == RemovalPhase::AwaitStepLive(0)
                            &&& *final(core) == *old(core)
                        },
                    }
                },
                RemovalPhase::AwaitStepLive(i) => if event == RemovalEvent::Live(true) {
                    r matches Err(e) && e@ == stop_text(i as nat, StopReason::WentLive)
                } else {
                    &&& r matches Ok((a, n)) && a matches RemovalAction::Remove(u) && u@ == old(self).user_ids@[i as int]@
                        && n is None
                    &&& final(self).phase == RemovalPhase::AwaitRemoval(i)
                    &&& *final(core) == *old(core)
                },
                RemovalPhase::AwaitRemoval(i) => {
                    let id = old(self).user_ids@[i as int]@;
                    let shown = if has_user(old(core).snapshot.vips@, id) {
                        old(core).snapshot.vips@[first_index(old(core).snapshot.vips@, id)].display_name@
                    } else {
                        id
                    };
                    &&& final(core).snapshot.vips@ == without_user(old(core).snapshot.vips@, id)
                    &&& final(core).snapshot.report@ == without_user(old(core).snapshot.report@, id)
                    &&& final(core).snapshot == (AppSnapshot {
                        vips: final(core).snapshot.vips,
                        report: final(core).snapshot.report,
                        vip_count: final(core).snapshot.vips@.len() as usize,
                        ..old(core).snapshot
                    })
                    &&& final(core).auth == old(core).auth
                    &&& final(core).chatters == old(core).chatters
                    &&& r matches Ok((a, Some(n))) && note_is(
                        n,
                        ActivityKind::VipRemove,
                        shown + " лишён VIP"@,
                        "Ручное действие из отчёта VipperFox"@,
                    ) && if i + 1 < old(self).user_ids@.len() {
                        a == RemovalAction::Pause(REMOVAL_PAUSE_MILLIS) && final(self).phase == RemovalPhase::AwaitPause(i)
                    } else {
                        a is Finished && final(self).phase == RemovalPhase::Finished
                    }
                },
                RemovalPhase::AwaitPause(i) => match step_stop(old(core).snapshot, old(core).auth, old(self).auth) {
                    Some(k) => r matches Err(e) && e@ == stop_text((i + 1) as nat, k),
                    None => {
                        &&& r matches Ok((a, n)) && a is CheckLive && n is None
                        &&& final(self).phase == RemovalPhase::AwaitStepLive((i + 1) as usize)
                        &&& *final(core) == *old(core)
                    },
                },
                RemovalPhase::Finished => true,
            },
    {
        match (self.phase, event) {
            (RemovalPhase::AwaitVipList, RemovalEvent::VipList(list)) => {
                check_still_vips(&self.user_ids, &list)?;
                self.phase = RemovalPhase::AwaitLiveCheck;
                Ok((RemovalAction::CheckLive, None))
            },
            (RemovalPhase::AwaitLiveCheck, RemovalEvent::Live(live)) => {
                if live {
                    return Err(live_refusal_message());
                }
                self.gate(core, 0)
            },
            (RemovalPhase::AwaitStepLive(i), RemovalEvent::Live(live)) => {
                if live {
                    return Err(stop_message(i, StopReason::WentLive));
                }
                self.phase = RemovalPhase::AwaitRemoval(i);
                Ok((RemovalAction::Remove(self.user_ids[i].clone()), None))
            },
            (RemovalPhase::AwaitRemoval(i), RemovalEvent::Removed) => {
                let name = core.take_vip_role(&self.user_ids[i]);
                let note = vip_removed_note(&name);
                self.done = Ghost(self.done@ + 1);
                if pause_after(i, self.user_ids.len()) {
                    self.phase = RemovalPhase::AwaitPause(i);
                    Ok((RemovalAction::Pause(REMOVAL_PAUSE_MILLIS), Some(note)))
                } else {
                    self.phase = RemovalPhase::Finished;
                    Ok((RemovalAction::Finished, Some(note)))
                }
            },
            (RemovalPhase::AwaitPause(i), RemovalEvent::Paused) => self.gate(core, i + 1),
            (phase, _) => {
                let a = match phase {
                    RemovalPhase::AwaitVipList => RemovalAction::FetchVipList,
                    RemovalPhase::AwaitLiveCheck => RemovalAction::CheckLive,
                    RemovalPhase::AwaitStepLive(_) => RemovalAction::CheckLive,
                    RemovalPhase::AwaitRemoval(i) => RemovalAction::Remove(self.user_ids[i].clone()),
                    RemovalPhase::AwaitPause(_) => RemovalAction::Pause(REMOVAL_PAUSE_MILLIS),
                    RemovalPhase::Finished => RemovalAction::Finished,
                };
                Ok((a, None))
            },
        }
    }
}


/// A removal request goes ahead only when the confirmation, once trimmed, is the
/// login of the connected channel letter for letter up to ASCII case; a request
/// that passes the earlier rules and is so confirmed is never refused for its
/// confirmation.
pub proof fn law_confirmation_is_the_channel_login(snapshot: AppSnapshot, auth: AuthSession, request: RemoveVipsRequest)
    ensures
        ({
            let c = trimmed(request.channel_confirmation@);
            let l = auth.login@;
            let same = c.len() == l.len() && forall|i: int| 0 <= i < c.len() ==> ascii_fold(#[trigger] c[i]) == ascii_fold(l[i]);
            &&& removal_rejection(snapshot, auth, request) is None ==> same
            &&& removal_rejection(snapshot, auth, request) == Some(RemovalRejection::ConfirmationMismatch) ==> !same
            &&& (same && 0 < request.user_ids@.len() <= MAX_REMOVALS_PER_OPERATION && snapshot.stream is None
                && snapshot.report_complete) ==> removal_rejection(snapshot, auth, request) != Some(
                RemovalRejection::ConfirmationMismatch,
            )
        }),
{
}

} // verus!
