//! The shared state of the application and every change made to it: the
//! session, the VIP list, the stream, the report of silent VIPs, the chatters
//! of the current stream and the activity history.
use vstd::prelude::*;
use crate::models::{
    ActivityEntry, AppSnapshot, AuthSession, ConnectionStatus, HelixStream,
    ReportUser, StreamInfo, VipUser, report_line, is_disconnected_snapshot, DEFAULT_STREAK_THRESHOLD,
};
use crate::text::{parse_u64, parse_u64_text};
use crate::users::{
    UserRecord, contains_text, first_of_user, has_text, has_user, insert_text, position_of_user,
    retain_other_users, text_set, texts_distinct, without_user, uids_distinct, users_among, lemma_same_users,
    lemma_without_user, lemma_permuted_users,
};
use crate::vips::{sort_vips_by_login, stable_sort_of};

verus! {

/// At most this many entries of the activity history are shown.
pub const ACTIVITY_LIMIT: usize = 100;

/// The state shared by the commands and the EventSub monitor.
pub struct CoreState {
    pub snapshot: AppSnapshot,
    pub auth: Option<AuthSession>,
    /// Users who wrote in chat during the current stream, each once.
    pub chatters: Vec<String>,
}

/// Position of the first VIP of `s` with user id `id` (meaningful when there is one).
pub open spec fn first_index(s: Seq<VipUser>, id: Seq<char>) -> int {
    choose|i: int| first_of_user(s, id, i)
}

/// There is at most one first position of a user.
pub proof fn lemma_first_index(s: Seq<VipUser>, id: Seq<char>, i: int)
    requires
        first_of_user(s, id, i),
    ensures
        first_index(s, id) == i,
{
    let j = first_index(s, id);
    if j < i {
        assert(s[j].uid() != id);
    } else if i < j {
        assert(s[i].uid() != id);
    }
}

proof fn lemma_first_from(s: Seq<VipUser>, id: Seq<char>, k: int)
    requires
        0 <= k <= s.len(),
        forall|j: int| 0 <= j < k ==> (#[trigger] s[j]).uid() != id,
        exists|i: int| k <= i < s.len() && (#[trigger] s[i]).uid() == id,
    ensures
        exists|i: int| first_of_user(s, id, i),
    decreases s.len() - k,
{
    if s[k].uid() == id {
        assert(first_of_user(s, id, k));
    } else {
        lemma_first_from(s, id, k + 1);
    }
}

/// A user listed in `s` has a first position there.
pub proof fn lemma_first_index_exists(s: Seq<VipUser>, id: Seq<char>)
    requires
        has_user(s, id),
    ensures
        first_of_user(s, id, first_index(s, id)),
{
    lemma_first_from(s, id, 0);
}

/// `v` with its chat flag taken from the chatters of the stream.
pub open spec fn with_chat_flag(v: VipUser, chatters: Seq<String>) -> VipUser {
    VipUser { wrote_this_stream: has_text(chatters, v.user_id@), ..v }
}

/// A VIP freshly listed by Twitch, merged with what was known of them: the
/// known watch streak is kept, and they wrote if the chatters or the earlier
/// record say so.
pub open spec fn refreshed_vip(v: VipUser, known: Seq<VipUser>, chatters: Seq<String>) -> VipUser {
    if has_user(known, v.user_id@) {
        let p = known[first_index(known, v.user_id@)];
        VipUser {
            watch_streak: p.watch_streak,
            wrote_this_stream: has_text(chatters, v.user_id@) || p.wrote_this_stream,
            ..v
        }
    } else {
        with_chat_flag(v, chatters)
    }
}

/// A VIP listed by Twitch when the stream ends: the chatters decide whether they
/// wrote, and the known watch streak is kept.
pub open spec fn closing_vip(v: VipUser, known: Seq<VipUser>, chatters: Seq<String>) -> VipUser {
    if has_user(known, v.user_id@) {
        let p = known[first_index(known, v.user_id@)];
        VipUser { watch_streak: p.watch_streak, ..with_chat_flag(v, chatters) }
    } else {
        with_chat_flag(v, chatters)
    }
}

/// `v` at the start of a stream: nobody has written yet.
pub open spec fn silent_vip(v: VipUser) -> VipUser {
    VipUser { wrote_this_stream: false, ..v }
}

/// The VIP list after `id` wrote in chat: their first record is marked.
pub open spec fn after_chat(vips: Seq<VipUser>, id: Seq<char>) -> Seq<VipUser> {
    if has_user(vips, id) {
        let i = first_index(vips, id);
        vips.update(i, VipUser { wrote_this_stream: true, ..vips[i] })
    } else {
        vips
    }
}

/// The VIP list after `id` shared a watch streak of `count`: their first record
/// takes the count.
pub open spec fn after_streak(vips: Seq<VipUser>, id: Seq<char>, count: u64) -> Seq<VipUser> {
    if has_user(vips, id) {
        let i = first_index(vips, id);
        vips.update(i, VipUser { watch_streak: Some(count), ..vips[i] })
    } else {
        vips
    }
}

/// The record of a VIP announced by Twitch.
pub open spec fn announced_vip(user_id: String, login: String, display_name: String, chatters: Seq<String>) -> VipUser {
    VipUser {
        user_id,
        login,
        display_name,
        watch_streak: None,
        wrote_this_stream: has_text(chatters, user_id@),
    }
}

/// The stream after a connection error: chat may have been missed, so it can
/// no longer give a complete report.
pub open spec fn interrupted(stream: Option<StreamInfo>) -> Option<StreamInfo> {
    match stream {
        Some(s) => Some(StreamInfo { complete: false, ..s }),
        None => None,
    }
}

/// Whether the report made when the stream ends is complete: only when a
/// stream was being monitored from its start without interruption.
pub open spec fn closing_report_complete(stream: Option<StreamInfo>) -> bool {
    match stream {
        Some(s) => s.complete,
        None => false,
    }
}

/// The VIPs of `s` at the start of a stream.
pub open spec fn silenced(s: Seq<VipUser>) -> Seq<VipUser> {
    s.map_values(|v: VipUser| silent_vip(v))
}

/// The VIPs of `s` with chat flags taken from the chatters.
pub open spec fn flagged(s: Seq<VipUser>, chatters: Seq<String>) -> Seq<VipUser> {
    s.map_values(|v: VipUser| with_chat_flag(v, chatters))
}

/// The VIPs of a refreshed list `s` merged with the known ones.
pub open spec fn refreshed(s: Seq<VipUser>, known: Seq<VipUser>, chatters: Seq<String>) -> Seq<VipUser> {
    s.map_values(|v: VipUser| refreshed_vip(v, known, chatters))
}

/// The VIPs of the list `s` read when a stream ends, merged with the known ones.
pub open spec fn closing(s: Seq<VipUser>, known: Seq<VipUser>, chatters: Seq<String>) -> Seq<VipUser> {
    s.map_values(|v: VipUser| closing_vip(v, known, chatters))
}

/// The report of a finished stream: the VIPs who did not write, in list order.
pub open spec fn silent_report(vips: Seq<VipUser>) -> Seq<ReportUser> {
    vips.filter(|v: VipUser| !v.wrote_this_stream).map_values(|v: VipUser| report_line(v))
}

/// The history after recording `entry`: newest first, at most `ACTIVITY_LIMIT` entries.
pub open spec fn history_with(entry: ActivityEntry, old: Seq<ActivityEntry>) -> Seq<ActivityEntry> {
    let full = seq![entry] + old;
    if full.len() > ACTIVITY_LIMIT {
        full.take(ACTIVITY_LIMIT as int)
    } else {
        full
    }
}

/// The threshold stored in the settings, or the default when there is none or
/// it is not a number.
pub open spec fn stored_threshold(stored: Option<Seq<char>>) -> u64 {
    match stored {
        Some(t) => match parse_u64_text(t) {
            Some(v) => v,
            None => DEFAULT_STREAK_THRESHOLD,
        },
        None => DEFAULT_STREAK_THRESHOLD,
    }
}

/// A new VIP to record once Twitch has granted the role.
#[derive(Debug, Clone)]
pub struct VipGrant {
    pub user_id: String,
    pub login: String,
    pub display_name: String,
    pub count: u64,
    pub wrote: bool,
}

/// The threshold read back from the stored setting.
pub fn threshold_from_setting(stored: &Option<String>) -> (r: u64)
    ensures
        r == stored_threshold(match stored {
            Some(t) => Some(t@),
            None => None,
        }),
{
    match stored {
        Some(t) => match parse_u64(t.as_str()) {
            Some(v) => v,
            None => DEFAULT_STREAK_THRESHOLD,
        },
        None => DEFAULT_STREAK_THRESHOLD,
    }
}

/// The threshold a user asked for, raised to at least one.
pub fn normalized_threshold(value: u64) -> (r: u64)
    ensures
        r == if value >= 1 { value } else { 1 },
{
    if value >= 1 {
        value
    } else {
        1
    }
}

/// The snapshot at start-up: nothing connected, the stored threshold and the
/// stored history.
pub fn initial_snapshot(stored: &Option<String>, activities: Vec<ActivityEntry>) -> (r: AppSnapshot)
    ensures
        is_disconnected_snapshot(r),
        r.streak_threshold == threshold_from_setting_spec(stored),
        r.activities == activities,
{
    let mut s = AppSnapshot::default();
    s.streak_threshold = threshold_from_setting(stored);
    s.activities = activities;
    s
}

/// The threshold read back from an optional stored setting.
pub open spec fn threshold_from_setting_spec(stored: &Option<String>) -> u64 {
    stored_threshold(match stored {
        Some(t) => Some(t@),
        None => None,
    })
}

/// The report of silent VIPs for the list `vips`.
pub fn build_silent_report(vips: &Vec<VipUser>) -> (r: Vec<ReportUser>)
    ensures
        r@ == silent_report(vips@),
{
    let ghost pred = |v: VipUser| !v.wrote_this_stream;
    let ghost f = |v: VipUser| report_line(v);
    let mut r: Vec<ReportUser> = Vec::new();
    let mut i: usize = 0;
    assert(vips@.take(0) =~= Seq::<VipUser>::empty());
    assert(vips@.take(0).filter(pred) =~= Seq::<VipUser>::empty()) by {
        reveal(Seq::filter);
    }
    assert(r@ =~= vips@.take(0).filter(pred).map_values(f));
    while i < vips.len()
        invariant
            i <= vips@.len(),
            pred == (|v: VipUser| !v.wrote_this_stream),
            f == (|v: VipUser| report_line(v)),
            r@ == vips@.take(i as int).filter(pred).map_values(f),
        decreases vips@.len() - i,
    {
        let v = &vips[i];
        proof {
            assert(vips@.take(i + 1) =~= vips@.take(i as int).push(vips@[i as int]));
            vips@.take(i as int).lemma_filter_push(vips@[i as int], pred);
        }
        if !v.wrote_this_stream {
            let line = ReportUser::from(v);
            r.push(line);
            assert(r@ =~= vips@.take(i + 1).filter(pred).map_values(f));
        }
        i = i + 1;
    }
    assert(vips@.take(i as int) =~= vips@);
    r
}

fn flag_chatters(vips: Vec<VipUser>, chatters: &Vec<String>) -> (r: Vec<VipUser>)
    ensures
        r@ == flagged(vips@, chatters@),
{
    let ghost src = vips@;
    let ghost g = |v: VipUser| with_chat_flag(v, chatters@);
    let mut rest = vips;
    let mut out: Vec<VipUser> = Vec::new();
    let ghost mut m: int = 0;
    assert(out@ =~= src.take(0).map_values(g));
    assert(rest@ =~= src.skip(0));
    while rest.len() > 0
        invariant
            0 <= m <= src.len(),
            rest@ == src.skip(m),
            g == (|v: VipUser| with_chat_flag(v, chatters@)),
            out@ == src.take(m).map_values(g),
        decreases rest@.len(),
    {
        let v = rest.remove(0);
        assert(v == src[m]);
        let wrote = contains_text(chatters, &v.user_id);
        out.push(VipUser { wrote_this_stream: wrote, ..v });
        proof {
            assert(src.take(m + 1).map_values(g) =~= src.take(m).map_values(g).push(g(src[m])));
            m = m + 1;
            assert(rest@ =~= src.skip(m));
        }
    }
    assert(src.take(m) =~= src);
    out
}

fn merge_known(vips: Vec<VipUser>, known: &Vec<VipUser>, chatters: &Vec<String>, keep_wrote: bool) -> (r: Vec<VipUser>)
    ensures
        keep_wrote ==> r@ == refreshed(vips@, known@, chatters@),
        !keep_wrote ==> r@ == closing(vips@, known@, chatters@),
{
    let ghost src = vips@;
    let ghost g = if keep_wrote {
        |v: VipUser| refreshed_vip(v, known@, chatters@)
    } else {
        |v: VipUser| closing_vip(v, known@, chatters@)
    };
    let mut rest = vips;
    let mut out: Vec<VipUser> = Vec::new();
    let ghost mut m: int = 0;
    assert(out@ =~= src.take(0).map_values(g));
    assert(rest@ =~= src.skip(0));
    while rest.len() > 0
        invariant
            0 <= m <= src.len(),
            rest@ == src.skip(m),
            g == if keep_wrote {
                |v: VipUser| refreshed_vip(v, known@, chatters@)
            } else {
                |v: VipUser| closing_vip(v, known@, chatters@)
            },
            out@ == src.take(m).map_values(g),
        decreases rest@.len(),
    {
        let v = rest.remove(0);
        assert(v == src[m]);
        let wrote = contains_text(chatters, &v.user_id);
        let merged = match position_of_user(known, &v.user_id) {
            Some(j) => {
                proof {
                    lemma_first_index(known@, v.user_id@, j as int);
                }
                let p = &known[j];
                VipUser {
                    watch_streak: p.watch_streak,
                    wrote_this_stream: if keep_wrote { wrote || p.wrote_this_stream } else { wrote },
                    ..v
                }
            },
            None => VipUser { wrote_this_stream: wrote, ..v },
        };
        assert(merged == g(v));
        out.push(merged);
        proof {
            assert(src.take(m + 1).map_values(g) =~= src.take(m).map_values(g).push(g(src[m])));
            m = m + 1;
            assert(rest@ =~= src.skip(m));
        }
    }
    assert(src.take(m) =~= src);
    out
}

fn silence_all(vips: Vec<VipUser>) -> (r: Vec<VipUser>)
    ensures
        r@ == silenced(vips@),
{
    let ghost src = vips@;
    let ghost g = |v: VipUser| silent_vip(v);
    let mut rest = vips;
    let mut out: Vec<VipUser> = Vec::new();
    let ghost mut m: int = 0;
    assert(out@ =~= src.take(0).map_values(g));
    assert(rest@ =~= src.skip(0));
    while rest.len() > 0
        invariant
            0 <= m <= src.len(),
            rest@ == src.skip(m),
            g == (|v: VipUser| silent_vip(v)),
            out@ == src.take(m).map_values(g),
        decreases rest@.len(),
    {
        let v = rest.remove(0);
        assert(v == src[m]);
        out.push(VipUser { wrote_this_stream: false, ..v });
        proof {
            assert(src.take(m + 1).map_values(g) =~= src.take(m).map_values(g).push(g(src[m])));
            m = m + 1;
            assert(rest@ =~= src.skip(m));
        }
    }
    assert(src.take(m) =~= src);
    out
}

impl CoreState {
    /// No two VIP records are about the same user, and every user of the
    /// report has a VIP record.
    pub open spec fn consistent(&self) -> bool {
        &&& uids_distinct(self.snapshot.vips@)
        &&& users_among(self.snapshot.report@, self.snapshot.vips@)
    }

    /// The counters agree with the lists, and no chatter is recorded twice.
    pub open spec fn wf(&self) -> bool {
        &&& self.snapshot.vip_count == self.snapshot.vips@.len()
        &&& texts_distinct(self.chatters@)
    }

    /// The set of users who wrote during the current stream.
    pub open spec fn chatter_ids(&self) -> Set<Seq<char>> {
        text_set(self.chatters@)
    }

    /// A state with the given snapshot, no session and no chatters.
    pub fn new(snapshot: AppSnapshot) -> (r: Self)
        ensures
            r.snapshot == snapshot,
            r.auth is None,
            r.chatters@.len() == 0,
    {
        CoreState { snapshot, auth: None, chatters: Vec::new() }
    }

    /// Records a verified session: the snapshot shows the channel and a
    /// connection in progress, and the last error is forgotten.
    pub fn configure(&mut self, auth: AuthSession)
        ensures
            final(self).snapshot == (AppSnapshot {
                configured: true,
                channel_login: Some(auth.login),
                channel_display_name: Some(auth.display_name),
                connection_status: ConnectionStatus::Connecting,
                last_error: None,
                ..old(self).snapshot
            }),
            final(self).auth == Some(auth),
            final(self).chatters == old(self).chatters,
    {
        self.snapshot.configured = true;
        self.snapshot.channel_login = Some(auth.login.clone());
        self.snapshot.channel_display_name = Some(auth.display_name.clone());
        self.snapshot.connection_status = ConnectionStatus::Connecting;
        self.snapshot.last_error = None;
        self.auth = Some(auth);
    }

    /// Puts a new entry at the top of the history, keeping at most
    /// `ACTIVITY_LIMIT` entries.
    pub fn record_activity(&mut self, entry: ActivityEntry)
        ensures
            final(self).snapshot.activities@ == history_with(entry, old(self).snapshot.activities@),
            final(self).snapshot == (AppSnapshot {
                activities: final(self).snapshot.activities,
                ..old(self).snapshot
            }),
            final(self).auth == old(self).auth,
            final(self).chatters == old(self).chatters,
    {
        self.snapshot.activities.insert(0, entry);
        self.snapshot.activities.truncate(ACTIVITY_LIMIT);
        assert(self.snapshot.activities@ =~= history_with(entry, old(self).snapshot.activities@));
    }

    /// Shows a connection error; a running stream can no longer give a complete report.
    pub fn mark_connection_error(&mut self, message: String)
        ensures
            final(self).snapshot == (AppSnapshot {
                connection_status: ConnectionStatus::Error,
                last_error: Some(message),
                stream: interrupted(old(self).snapshot.stream),
                ..old(self).snapshot
            }),
            final(self).auth == old(self).auth,
            final(self).chatters == old(self).chatters,
    {
        self.snapshot.connection_status = ConnectionStatus::Error;
        self.snapshot.last_error = Some(message);
        let stream = self.snapshot.stream.take();
        self.snapshot.stream = match stream {
            Some(s) => Some(StreamInfo { complete: false, ..s }),
            None => None,
        };
    }

    /// Shows that the EventSub session is established.
    pub fn mark_connected(&mut self)
        ensures
            final(self).snapshot == (AppSnapshot {
                connection_status: ConnectionStatus::Connected,
                last_error: None,
                ..old(self).snapshot
            }),
            final(self).auth == old(self).auth,
            final(self).chatters == old(self).chatters,
    {
        self.snapshot.connection_status = ConnectionStatus::Connected;
        self.snapshot.last_error = None;
    }

    /// Forgets the session: the snapshot is back to its initial form except for
    /// the threshold, which is kept, and the history, which is `activities`.
    pub fn disconnect(&mut self, activities: Vec<ActivityEntry>)
        ensures
            is_disconnected_snapshot(final(self).snapshot),
            final(self).snapshot.streak_threshold == old(self).snapshot.streak_threshold,
            final(self).snapshot.activities == activities,
            final(self).auth is None,
            final(self).chatters@.len() == 0,
    {
        let threshold = self.snapshot.streak_threshold;
        self.auth = None;
        self.chatters = Vec::new();
        self.snapshot = AppSnapshot::default();
        self.snapshot.streak_threshold = threshold;
        self.snapshot.activities = activities;
    }

    /// Sets the watch-streak threshold.
    pub fn set_streak_threshold(&mut self, value: u64)
        ensures
            final(self).snapshot == (AppSnapshot { streak_threshold: value, ..old(self).snapshot }),
            final(self).auth == old(self).auth,
            final(self).chatters == old(self).chatters,
    {
        self.snapshot.streak_threshold = value;
    }

    /// Takes the VIP list just read from Twitch: each VIP keeps the known watch
    /// streak, has written if a chatter or already marked so, and the last
    /// error is forgotten.
    pub fn apply_refreshed_vips(&mut self, vips: Vec<VipUser>)
        ensures
            old(self).wf() ==> final(self).wf(),
            final(self).snapshot.vips@ == refreshed(vips@, old(self).snapshot.vips@, old(self).chatters@),
            final(self).snapshot == (AppSnapshot {
                vips: final(self).snapshot.vips,
                vip_count: vips@.len() as usize,
                last_error: None,
                ..old(self).snapshot
            }),
            final(self).auth == old(self).auth,
            final(self).chatters == old(self).chatters,
    {
        let merged = merge_known(vips, &self.snapshot.vips, &self.chatters, true);
        self.snapshot.vip_count = merged.len();
        self.snapshot.vips = merged;
        self.snapshot.last_error = None;
    }

    /// Brings the state in line with Twitch after (re)connecting: the VIP list
    /// is replaced, chat flags come from the chatters; a new live stream starts
    /// an incomplete monitoring; a stream that ended unseen yields an
    /// incomplete report of the VIPs who did not write.
    pub fn apply_reconcile(&mut self, vips: Vec<VipUser>, live: Option<HelixStream>)
        ensures
            old(self).wf() ==> final(self).wf(),
            ({
                let flagged = flagged(vips@, old(self).chatters@);
                let base = AppSnapshot {
                    vips: final(self).snapshot.vips,
                    vip_count: vips@.len() as usize,
                    ..old(self).snapshot
                };
                &&& final(self).snapshot.vips@ == flagged
                &&& match live {
                    Some(l) => if old(self).snapshot.stream matches Some(s) && s.id@ == l.id@ {
                        &&& final(self).snapshot == base
                        &&& final(self).chatters == old(self).chatters
                    } else {
                        &&& final(self).snapshot == (AppSnapshot {
                            stream: Some(StreamInfo { id: l.id, started_at: l.started_at, complete: false }),
                            ..base
                        })
                        &&& final(self).chatters@.len() == 0
                    },
                    None => if old(self).snapshot.stream is Some {
                        &&& final(self).snapshot.report@ == silent_report(flagged)
                        &&& final(self).snapshot == (AppSnapshot {
                            report: final(self).snapshot.report,
                            report_complete: false,
                            stream: None,
                            ..base
                        })
                        &&& final(self).chatters@.len() == 0
                    } else {
                        &&& final(self).snapshot == base
                        &&& final(self).chatters == old(self).chatters
                    },
                }
            }),
            final(self).auth == old(self).auth,
    {
        let flagged = flag_chatters(vips, &self.chatters);
        self.snapshot.vip_count = flagged.len();
        self.snapshot.vips = flagged;
        match live {
            Some(l) => {
                let same = match &self.snapshot.stream {
                    Some(s) => s.id == l.id,
                    None => false,
                };
                if !same {
                    self.chatters = Vec::new();
                    self.snapshot.stream = Some(StreamInfo { id: l.id, started_at: l.started_at, complete: false });
                }
            },
            None => {
                if self.snapshot.stream.is_some() {
                    self.snapshot.report = build_silent_report(&self.snapshot.vips);
                    self.snapshot.report_complete = false;
                    self.snapshot.stream = None;
                    self.chatters = Vec::new();
                }
            },
        }
    }

    /// A stream went live: monitoring starts from scratch with a complete
    /// record, nobody has written yet and the old report is dropped.
    pub fn stream_online(&mut self, id: String, started_at: String)
        ensures
            old(self).consistent() ==> final(self).consistent(),
            old(self).wf() ==> final(self).wf(),
            final(self).snapshot.vips@ == silenced(old(self).snapshot.vips@),
            final(self).snapshot.report@.len() == 0,
            final(self).snapshot == (AppSnapshot {
                vips: final(self).snapshot.vips,
                report: final(self).snapshot.report,
                stream: Some(StreamInfo { id, started_at, complete: true }),
                ..old(self).snapshot
            }),
            final(self).chatters@.len() == 0,
            final(self).auth == old(self).auth,
    {
        self.chatters = Vec::new();
        self.snapshot.report = Vec::new();
        self.snapshot.stream = Some(StreamInfo { id, started_at, complete: true });
        let mut vips: Vec<VipUser> = Vec::new();
        std::mem::swap(&mut vips, &mut self.snapshot.vips);
        self.snapshot.vips = silence_all(vips);
        proof {
            lemma_same_users(old(self).snapshot.vips@, self.snapshot.vips@);
        }
    }

    /// The stream ended: the VIP list is replaced by Twitch's, and the report
    /// lists the VIPs who did not write; it is complete only if the whole
    /// stream was monitored.
    pub fn stream_offline(&mut self, remote: Vec<VipUser>)
        ensures
            uids_distinct(remote@) ==> final(self).consistent(),
            old(self).wf() ==> final(self).wf(),
            final(self).snapshot.vips@ == closing(remote@, old(self).snapshot.vips@, old(self).chatters@),
            final(self).snapshot.report@ == silent_report(final(self).snapshot.vips@),
            final(self).snapshot == (AppSnapshot {
                vips: final(self).snapshot.vips,
                report: final(self).snapshot.report,
                vip_count: remote@.len() as usize,
                report_complete: closing_report_complete(old(self).snapshot.stream),
                stream: None,
                ..old(self).snapshot
            }),
            final(self).chatters@.len() == 0,
            final(self).auth == old(self).auth,
    {
        let complete = match &self.snapshot.stream {
            Some(s) => s.complete,
            None => false,
        };
        let merged = merge_known(remote, &self.snapshot.vips, &self.chatters, false);
        self.snapshot.report = build_silent_report(&merged);
        self.snapshot.report_complete = complete;
        self.snapshot.vip_count = merged.len();
        self.snapshot.vips = merged;
        self.snapshot.stream = None;
        self.chatters = Vec::new();
        proof {
            lemma_same_users(remote@, self.snapshot.vips@);
            lemma_report_is_silent_vips(self.snapshot.vips@);
            assert forall|i: int| 0 <= i < self.snapshot.report@.len() implies has_user(
                self.snapshot.vips@,
                (#[trigger] self.snapshot.report@[i]).uid(),
            ) by {
                let j = choose|j: int| 0 <= j < self.snapshot.vips@.len() && !self.snapshot.vips@[j].wrote_this_stream
                    && silent_report(self.snapshot.vips@)[i] == report_line(self.snapshot.vips@[j]);
                assert(self.snapshot.vips@[j].uid() == self.snapshot.report@[i].uid());
            }
        }
    }

    /// Someone wrote in chat: they are a chatter of the stream, and the first
    /// VIP record of theirs is marked as having written.
    pub fn chat_message(&mut self, user_id: String)
        ensures
            old(self).consistent() ==> final(self).consistent(),
            old(self).wf() ==> final(self).wf(),
            final(self).chatter_ids() == old(self).chatter_ids().insert(user_id@),
            final(self).snapshot.vips@ == after_chat(old(self).snapshot.vips@, user_id@),
            final(self).snapshot == (AppSnapshot { vips: final(self).snapshot.vips, ..old(self).snapshot }),
            final(self).auth == old(self).auth,
    {
        let found = position_of_user(&self.snapshot.vips, &user_id);
        insert_text(&mut self.chatters, user_id);
        if let Some(i) = found {
            proof {
                lemma_first_index(self.snapshot.vips@, old(self).snapshot.vips@[i as int].user_id@, i as int);
            }
            let v = self.snapshot.vips.remove(i);
            self.snapshot.vips.insert(i, VipUser { wrote_this_stream: true, ..v });
            assert(self.snapshot.vips@ =~= old(self).snapshot.vips@.update(
                i as int,
                VipUser { wrote_this_stream: true, ..old(self).snapshot.vips@[i as int] },
            ));
        }
        proof {
            lemma_same_users(old(self).snapshot.vips@, self.snapshot.vips@);
        }
    }

    /// A watch streak was shared in chat: a VIP's streak is updated; a viewer
    /// who is not a VIP and whose streak reaches the threshold is returned as
    /// a grant to request from Twitch.
    pub fn watch_streak(&mut self, count: u64, user_id: String, login: String, display_name: String) -> (r:
        Option<VipGrant>)
        ensures
            old(self).consistent() ==> final(self).consistent(),
            old(self).wf() ==> final(self).wf(),
            final(self).snapshot.vips@ == after_streak(old(self).snapshot.vips@, user_id@, count),
            final(self).snapshot == (AppSnapshot { vips: final(self).snapshot.vips, ..old(self).snapshot }),
            final(self).auth == old(self).auth,
            final(self).chatters == old(self).chatters,
            r is Some <==> count >= old(self).snapshot.streak_threshold && !has_user(old(self).snapshot.vips@, user_id@),
            r matches Some(g) ==> g == (VipGrant {
                user_id,
                login,
                display_name,
                count,
                wrote: has_text(old(self).chatters@, user_id@),
            }),
    {
        let wrote = contains_text(&self.chatters, &user_id);
        let threshold = self.snapshot.streak_threshold;
        let already_vip = match position_of_user(&self.snapshot.vips, &user_id) {
            Some(i) => {
                proof {
                    lemma_first_index(self.snapshot.vips@, user_id@, i as int);
                }
                let v = self.snapshot.vips.remove(i);
                self.snapshot.vips.insert(i, VipUser { watch_streak: Some(count), ..v });
                assert(self.snapshot.vips@ =~= old(self).snapshot.vips@.update(
                    i as int,
                    VipUser { watch_streak: Some(count), ..old(self).snapshot.vips@[i as int] },
                ));
                true
            },
            None => false,
        };
        proof {
            lemma_same_users(old(self).snapshot.vips@, self.snapshot.vips@);
        }
        if count >= threshold && !already_vip {
            Some(VipGrant { user_id, login, display_name, count, wrote })
        } else {
            None
        }
    }

    /// Twitch granted the role: the new VIP joins the list, which stays
    /// ordered by login.
    pub fn vip_granted(&mut self, grant: VipGrant)
        ensures
            old(self).consistent() && !has_user(old(self).snapshot.vips@, grant.user_id@) ==> final(self).consistent(),
            old(self).wf() ==> final(self).wf(),
            stable_sort_of(
                final(self).snapshot.vips@,
                old(self).snapshot.vips@.push(VipUser {
                    user_id: grant.user_id,
                    login: grant.login,
                    display_name: grant.display_name,
                    watch_streak: Some(grant.count),
                    wrote_this_stream: grant.wrote,
                }),
            ),
            final(self).snapshot == (AppSnapshot {
                vips: final(self).snapshot.vips,
                vip_count: final(self).snapshot.vips@.len() as usize,
                ..old(self).snapshot
            }),
            final(self).auth == old(self).auth,
            final(self).chatters == old(self).chatters,
    {
        let mut vips: Vec<VipUser> = Vec::new();
        std::mem::swap(&mut vips, &mut self.snapshot.vips);
        vips.push(VipUser {
            user_id: grant.user_id,
            login: grant.login,
            display_name: grant.display_name,
            watch_streak: Some(grant.count),
            wrote_this_stream: grant.wrote,
        });
        let ghost pushed = vips@;
        let sorted = sort_vips_by_login(vips);
        proof {
            lemma_permuted_users(pushed, sorted@);
            if old(self).consistent() && !has_user(old(self).snapshot.vips@, grant.user_id@) {
                let o = old(self).snapshot.vips@;
                assert forall|i: int, j: int| 0 <= i < j < pushed.len() implies (#[trigger] pushed[i]).uid() != (#[trigger] pushed[j]).uid() by {
                    if j == o.len() {
                        assert(pushed[i] == o[i]);
                    } else {
                        assert(pushed[i] == o[i] && pushed[j] == o[j]);
                    }
                }
                assert forall|x: Seq<char>| has_user(o, x) implies has_user(pushed, x) by {
                    let k = choose|k: int| 0 <= k < o.len() && (#[trigger] o[k]).uid() == x;
                    assert(pushed[k] == o[k]);
                }
            }
            vstd::seq_lib::to_multiset_len(sorted@);
            vstd::seq_lib::to_multiset_len(old(self).snapshot.vips@.push(VipUser {
                user_id: grant.user_id,
                login: grant.login,
                display_name: grant.display_name,
                watch_streak: Some(grant.count),
                wrote_this_stream: grant.wrote,
            }));
        }
        self.snapshot.vip_count = sorted.len();
        self.snapshot.vips = sorted;
    }

    /// Twitch announced a new VIP: unless already listed, they are added at the
    /// end, with the chat flag from the chatters. Their login and name must be
    /// present then.
    pub fn vip_added(&mut self, user_id: String, login: Option<String>, display_name: Option<String>) -> (r:
        Result<(), crate::eventsub::MissingField>)
        ensures
            old(self).consistent() ==> final(self).consistent(),
            old(self).wf() ==> final(self).wf(),
            final(self).auth == old(self).auth,
            final(self).chatters == old(self).chatters,
            has_user(old(self).snapshot.vips@, user_id@) ==> r is Ok && final(self).snapshot == old(
                self,
            ).snapshot,
            !has_user(old(self).snapshot.vips@, user_id@) ==> match (login, display_name) {
                (Some(l), Some(n)) => {
                    &&& r is Ok
                    &&& final(self).snapshot.vips@ == old(self).snapshot.vips@.push(
                        announced_vip(user_id, l, n, old(self).chatters@),
                    )
                    &&& final(self).snapshot == (AppSnapshot {
                        vips: final(self).snapshot.vips,
                        vip_count: (old(self).snapshot.vips@.len() + 1) as usize,
                        ..old(self).snapshot
                    })
                },
                (None, _) => r == Err::<(), crate::eventsub::MissingField>(
                    crate::eventsub::MissingField::UserLogin,
                ) && final(self).snapshot == old(self).snapshot,
                (Some(_), None) => r == Err::<(), crate::eventsub::MissingField>(
                    crate::eventsub::MissingField::UserName,
                ) && final(self).snapshot == old(self).snapshot,
            },
    {
        if position_of_user(&self.snapshot.vips, &user_id).is_some() {
            return Ok(());
        }
        let wrote = contains_text(&self.chatters, &user_id);
        let login = match login {
            Some(l) => l,
            None => return Err(crate::eventsub::MissingField::UserLogin),
        };
        let display_name = match display_name {
            Some(n) => n,
            None => return Err(crate::eventsub::MissingField::UserName),
        };
        let ghost o = self.snapshot.vips@;
        self.snapshot.vips.push(VipUser { user_id, login, display_name, watch_streak: None, wrote_this_stream: wrote });
        self.snapshot.vip_count = self.snapshot.vips.len();
        proof {
            let n = self.snapshot.vips@;
            assert forall|x: Seq<char>| has_user(o, x) implies has_user(n, x) by {
                let k = choose|k: int| 0 <= k < o.len() && (#[trigger] o[k]).uid() == x;
                assert(n[k] == o[k]);
            }
            if old(self).consistent() {
                assert forall|i: int, j: int| 0 <= i < j < n.len() implies (#[trigger] n[i]).uid() != (#[trigger] n[j]).uid() by {
                    if j == o.len() {
                        assert(n[i] == o[i]);
                    } else {
                        assert(n[i] == o[i] && n[j] == o[j]);
                    }
                }
            }
        }
        Ok(())
    }

    /// Someone lost the VIP role: they leave the list and the report.
    pub fn vip_removed(&mut self, user_id: &String)
        ensures
            old(self).consistent() ==> final(self).consistent(),
            old(self).wf() ==> final(self).wf(),
            final(self).snapshot.vips@ == without_user(old(self).snapshot.vips@, user_id@),
            final(self).snapshot.report@ == without_user(old(self).snapshot.report@, user_id@),
            final(self).snapshot == (AppSnapshot {
                vips: final(self).snapshot.vips,
                report: final(self).snapshot.report,
                vip_count: final(self).snapshot.vips@.len() as usize,
                ..old(self).snapshot
            }),
            final(self).auth == old(self).auth,
            final(self).chatters == old(self).chatters,
    {
        retain_other_users(&mut self.snapshot.vips, user_id);
        retain_other_users(&mut self.snapshot.report, user_id);
        self.snapshot.vip_count = self.snapshot.vips.len();
        proof {
            lemma_without_user(old(self).snapshot.vips@, user_id@);
            lemma_without_user(old(self).snapshot.report@, user_id@);
            if old(self).consistent() {
                assert forall|i: int| 0 <= i < self.snapshot.report@.len() implies has_user(
                    self.snapshot.vips@,
                    (#[trigger] self.snapshot.report@[i]).uid(),
                ) by {
                    let x = self.snapshot.report@[i].uid();
                    assert(has_user(self.snapshot.report@, x));
                    assert(has_user(old(self).snapshot.report@, x));
                    let k = choose|k: int| 0 <= k < old(self).snapshot.report@.len() && (#[trigger] old(self).snapshot.report@[k]).uid() == x;
                }
            }
        }
    }

    /// The operator took the VIP role from `user_id`: they leave the list and
    /// the report; the name to show is their display name, or their id when
    /// they were not listed.
    pub fn take_vip_role(&mut self, user_id: &String) -> (r: String)
        ensures
            old(self).consistent() ==> final(self).consistent(),
            old(self).wf() ==> final(self).wf(),
            r@ == if has_user(old(self).snapshot.vips@, user_id@) {
                old(self).snapshot.vips@[first_index(old(self).snapshot.vips@, user_id@)].display_name@
            } else {
                user_id@
            },
            final(self).snapshot.vips@ == without_user(old(self).snapshot.vips@, user_id@),
            final(self).snapshot.report@ == without_user(old(self).snapshot.report@, user_id@),
            final(self).snapshot == (AppSnapshot {
                vips: final(self).snapshot.vips,
                report: final(self).snapshot.report,
                vip_count: final(self).snapshot.vips@.len() as usize,
                ..old(self).snapshot
            }),
            final(self).auth == old(self).auth,
            final(self).chatters == old(self).chatters,
    {
        let name = match position_of_user(&self.snapshot.vips, user_id) {
            Some(i) => {
                proof {
                    lemma_first_index(self.snapshot.vips@, user_id@, i as int);
                }
                self.snapshot.vips[i].display_name.clone()
            },
            None => user_id.clone(),
        };
        self.vip_removed(user_id);
        name
    }
}

/// The report lists exactly the VIPs who did not write: each line is the line
/// of a silent VIP, and each silent VIP has a line.
pub proof fn lemma_report_is_silent_vips(vips: Seq<VipUser>)
    ensures
        forall|i: int| 0 <= i < silent_report(vips).len() ==> exists|j: int|
            0 <= j < vips.len() && !vips[j].wrote_this_stream && #[trigger] silent_report(vips)[i]
                == report_line(vips[j]),
        forall|j: int| 0 <= j < vips.len() && !(#[trigger] vips[j]).wrote_this_stream ==> silent_report(
            vips,
        ).contains(report_line(vips[j])),
{
    let pred = |v: VipUser| !v.wrote_this_stream;
    let f = vips.filter(pred);
    broadcast use vstd::seq_lib::group_filter_ensures;
    assert forall|i: int| 0 <= i < silent_report(vips).len() implies exists|j: int|
        0 <= j < vips.len() && !vips[j].wrote_this_stream && #[trigger] silent_report(vips)[i]
            == report_line(vips[j]) by {
        assert(pred(f[i]));
        assert(vips.contains(f[i])) by {
            vips.lemma_filter_contains_rev(pred, f[i]);
        }
        let j = choose|j: int| 0 <= j < vips.len() && vips[j] == f[i];
        assert(silent_report(vips)[i] == report_line(vips[j]));
    }
    assert forall|j: int| 0 <= j < vips.len() && !(#[trigger] vips[j]).wrote_this_stream implies silent_report(
        vips,
    ).contains(report_line(vips[j])) by {
        vips.lemma_filter_contains(pred, j);
        let k = choose|k: int| 0 <= k < f.len() && f[k] == vips[j];
        assert(silent_report(vips)[k] == report_line(vips[j]));
    }
}

/// A user who wrote during the stream is never in the report made when it ends.
pub proof fn lemma_chatter_not_reported(
    remote: Seq<VipUser>,
    known: Seq<VipUser>,
    chatters: Seq<String>,
    id: Seq<char>,
)
    requires
        has_text(chatters, id),
    ensures
        !has_user(silent_report(closing(remote, known, chatters)), id),
{
    let vips = closing(remote, known, chatters);
    let pred = |v: VipUser| !v.wrote_this_stream;
    let f = vips.filter(pred);
    broadcast use vstd::seq_lib::group_filter_ensures;
    if has_user(silent_report(vips), id) {
        let i = choose|i: int| 0 <= i < silent_report(vips).len() && (#[trigger] silent_report(vips)[i]).uid() == id;
        assert(pred(f[i]));
        vips.lemma_filter_contains_rev(pred, f[i]);
        let j = choose|j: int| 0 <= j < vips.len() && vips[j] == f[i];
        assert(vips[j] == closing_vip(remote[j], known, chatters));
        assert(vips[j].user_id@ == id);
        assert(vips[j].wrote_this_stream);
    }
}

/// The history never holds more than `ACTIVITY_LIMIT` entries once an entry is
/// recorded, and the newest comes first.
pub proof fn lemma_history_bounded(entry: ActivityEntry, old: Seq<ActivityEntry>)
    ensures
        history_with(entry, old).len() <= ACTIVITY_LIMIT,
        history_with(entry, old)[0] == entry,
        old.len() < ACTIVITY_LIMIT ==> history_with(entry, old) == seq![entry] + old,
{
}

/// A threshold saved as its decimal text is read back unchanged.
pub proof fn lemma_threshold_round_trip(value: u64)
    ensures
        stored_threshold(Some(crate::text::decimal(value as nat))) == value,
{
    crate::text::lemma_parse_decimal(value);
}

/// A stream during which the connection failed ends with an incomplete report.
pub proof fn lemma_interrupted_stream_reports_incomplete(stream: Option<StreamInfo>)
    ensures
        !closing_report_complete(interrupted(stream)),
{
}


/// A chat message changes the record of its writer only: the list keeps its
/// length, every record of another user is unchanged, and the writer's first
/// record is the same VIP, now marked as having written.
pub proof fn law_chat_marks_only_the_writer(vips: Seq<VipUser>, id: Seq<char>)
    ensures
        after_chat(vips, id).len() == vips.len(),
        forall|j: int| 0 <= j < vips.len() && (#[trigger] vips[j]).user_id@ != id ==> after_chat(vips, id)[j] == vips[j],
        has_user(vips, id) ==> {
            let i = first_index(vips, id);
            &&& after_chat(vips, id)[i].wrote_this_stream
            &&& after_chat(vips, id)[i].user_id == vips[i].user_id
            &&& after_chat(vips, id)[i].login == vips[i].login
            &&& after_chat(vips, id)[i].display_name == vips[i].display_name
            &&& after_chat(vips, id)[i].watch_streak == vips[i].watch_streak
        },
        forall|j: int| 0 <= j < vips.len() && j != first_index(vips, id) ==> after_chat(vips, id)[j] == vips[j],
{
    if has_user(vips, id) {
        lemma_first_index_exists(vips, id);
    }
}

/// A shared watch streak replaces the recorded streak of the VIP who shared it
/// with exactly the count shared, whatever it was before, and touches no other
/// record or field.
pub proof fn law_streak_takes_the_shared_count(vips: Seq<VipUser>, id: Seq<char>, count: u64)
    ensures
        after_streak(vips, id, count).len() == vips.len(),
        forall|j: int| 0 <= j < vips.len() && (#[trigger] vips[j]).user_id@ != id ==> after_streak(vips, id, count)[j] == vips[j],
        forall|j: int| 0 <= j < vips.len() && j != first_index(vips, id) ==> after_streak(vips, id, count)[j] == vips[j],
        has_user(vips, id) ==> {
            let i = first_index(vips, id);
            &&& vips[i].user_id@ == id
            &&& after_streak(vips, id, count)[i].watch_streak == Some(count)
            &&& after_streak(vips, id, count)[i].user_id == vips[i].user_id
            &&& after_streak(vips, id, count)[i].login == vips[i].login
            &&& after_streak(vips, id, count)[i].display_name == vips[i].display_name
            &&& after_streak(vips, id, count)[i].wrote_this_stream == vips[i].wrote_this_stream
        },
        !has_user(vips, id) ==> after_streak(vips, id, count) == vips,
{
    if has_user(vips, id) {
        lemma_first_index_exists(vips, id);
    }
}

/// At the end of a stream each VIP listed by Twitch keeps the identity Twitch
/// gives, has written exactly when they are among the chatters of the stream,
/// and keeps the watch streak known for them (none when unknown).
pub proof fn law_closing_flags_come_from_chat(s: Seq<VipUser>, known: Seq<VipUser>, chatters: Seq<String>)
    ensures
        closing(s, known, chatters).len() == s.len(),
        forall|j: int| 0 <= j < s.len() ==> {
            let c = #[trigger] closing(s, known, chatters)[j];
            &&& c.wrote_this_stream == has_text(chatters, s[j].user_id@)
            &&& c.user_id == s[j].user_id
            &&& c.login == s[j].login
            &&& c.display_name == s[j].display_name
            &&& has_user(known, s[j].user_id@) ==> c.watch_streak == known[first_index(known, s[j].user_id@)].watch_streak
            &&& !has_user(known, s[j].user_id@) ==> c.watch_streak == s[j].watch_streak
        },
{
}

/// The report made at the end of a stream holds every listed VIP who did not
/// write in chat, and nobody who did.
pub proof fn law_report_is_the_silent_vips(s: Seq<VipUser>, known: Seq<VipUser>, chatters: Seq<String>)
    ensures
        forall|j: int| 0 <= j < s.len() && !has_text(chatters, (#[trigger] s[j]).user_id@) ==> has_user(
            silent_report(closing(s, known, chatters)),
            s[j].user_id@,
        ),
        forall|k: int| 0 <= k < silent_report(closing(s, known, chatters)).len() ==> !has_text(
            chatters,
            (#[trigger] silent_report(closing(s, known, chatters))[k]).user_id@,
        ),
{
    let c = closing(s, known, chatters);
    let pred = |v: VipUser| !v.wrote_this_stream;
    let f = c.filter(pred);
    let r = silent_report(c);
    law_closing_flags_come_from_chat(s, known, chatters);
    assert(r == f.map_values(|v: VipUser| report_line(v)));
    assert forall|j: int| 0 <= j < s.len() && !has_text(chatters, (#[trigger] s[j]).user_id@) implies has_user(
        r,
        s[j].user_id@,
    ) by {
        assert(c[j].wrote_this_stream == has_text(chatters, s[j].user_id@));
        c.lemma_filter_contains(pred, j);
        let m = choose|m: int| 0 <= m < f.len() && f[m] == c[j];
        assert(r[m] == report_line(f[m]));
        assert(r[m].uid() == s[j].user_id@);
    }
    assert forall|k: int| 0 <= k < r.len() implies !has_text(chatters, (#[trigger] r[k]).user_id@) by {
        c.lemma_filter_len(pred);
        c.lemma_filter_pred(pred, k);
        assert(f.contains(f[k]));
        c.lemma_filter_contains_rev(pred, f[k]);
        let j = choose|j: int| 0 <= j < c.len() && c[j] == f[k];
        assert(c[j].wrote_this_stream == has_text(chatters, s[j].user_id@));
        assert(r[k] == report_line(f[k]));
    }
}

/// When the VIP list is read again during a stream, each VIP listed by Twitch
/// keeps the identity Twitch gives and the watch streak known for them, and has
/// written when the chatters or their earlier record say so.
pub proof fn law_refreshed_vips_keep_what_was_known(s: Seq<VipUser>, known: Seq<VipUser>, chatters: Seq<String>)
    ensures
        refreshed(s, known, chatters).len() == s.len(),
        forall|j: int| 0 <= j < s.len() ==> {
            let c = #[trigger] refreshed(s, known, chatters)[j];
            let id = s[j].user_id@;
            &&& c.user_id == s[j].user_id
            &&& c.login == s[j].login
            &&& c.display_name == s[j].display_name
            &&& has_user(known, id) ==> c.watch_streak == known[first_index(known, id)].watch_streak
                && c.wrote_this_stream == (has_text(chatters, id) || known[first_index(known, id)].wrote_this_stream)
            &&& !has_user(known, id) ==> c.watch_streak == s[j].watch_streak && c.wrote_this_stream == has_text(chatters, id)
        },
{
}

/// At the start of a stream every VIP is marked as not having written, and
/// nothing else about them changes.
pub proof fn law_stream_start_clears_every_flag(s: Seq<VipUser>)
    ensures
        silenced(s).len() == s.len(),
        forall|j: int| 0 <= j < s.len() ==> #[trigger] silenced(s)[j] == (VipUser { wrote_this_stream: false, ..s[j] }),
{
}

} // verus!
