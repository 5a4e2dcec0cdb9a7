//! The engine: snapshots of the audio sessions for display, enforcement
//! passes over the live sessions, and the restore that undoes them.
//!
//! The engine never talks to the audio endpoint itself. The caller
//! enumerates the sessions of the default render endpoint afresh for every
//! call and hands them in as plain values; the engine answers with one
//! command per session, which the caller applies.

use crate::display::{display_name, display_names};
use crate::policy::{
    decide_folded,
    entry_set,
    lemma_folded_lookup_is_membership,
    lowercase_all,
    should_mute,
};
use crate::record::{record_one, MuteRecord};
use crate::text::{lowercase, texts};
use crate::utils::NO_PROCESS;
use vstd::prelude::*;

verus! {

/// One session of a snapshot, as it is shown to the user.
#[derive(Clone, Debug)]
pub struct AudioSessionInfo {
    /// The name of the process that owns the session.
    pub name: String,
    /// The pid of that process.
    pub pid: u32,
    /// The title of one of its windows, empty if none was found.
    pub window_title: String,
    /// The name under which the session is listed.
    pub display_name: String,
}

/// One session as an enumeration found it.
#[derive(Clone, Debug)]
pub struct LiveSession {
    /// The pid of the process that owns the session; 0 for the system's own.
    pub pid: u32,
    /// The name resolved for that process.
    pub name: String,
    /// The session's mute flag, `None` if it could not be read.
    pub muted: Option<bool>,
}

/// One top-level window as an enumeration found it.
#[derive(Clone, Debug)]
pub struct TopLevelWindow {
    /// The pid of the process whose thread owns the window.
    pub owner_pid: u32,
    /// Whether the window is visible.
    pub visible: bool,
    /// The window's title, possibly empty.
    pub title: String,
}

/// A failed call on the session of process `pid`, with the code that the
/// audio interface returned.
#[derive(Clone, Copy, Debug, PartialEq, Eq, Structural)]
pub struct SessionError {
    pub pid: u32,
    pub code: i32,
}

/// The engine's state: the mute record. Its view is the record, a map from
/// pid to the mute flag found at the first touch.
pub struct AudioManager {
    saved_states: MuteRecord,
}

impl View for AudioManager {
    type V = Map<u32, bool>;

    closed spec fn view(&self) -> Map<u32, bool> {
        self.saved_states@
    }
}

/// The sessions that the engine governs: all but those of pid 0, in the
/// order of the enumeration.
pub open spec fn governed(sessions: Seq<LiveSession>) -> Seq<LiveSession>
    decreases sessions.len(),
{
    if sessions.len() == 0 {
        sessions
    } else if sessions.last().pid == NO_PROCESS {
        governed(sessions.drop_last())
    } else {
        governed(sessions.drop_last()).push(sessions.last())
    }
}

/// The process names of sessions, in order.
pub open spec fn session_names(sessions: Seq<LiveSession>) -> Seq<Seq<char>> {
    Seq::new(sessions.len(), |i: int| sessions[i].name@)
}

/// Whether the window can give process `pid` a title: it is visible, owned
/// by the process and titled.
pub open spec fn gives_title(window: TopLevelWindow, pid: u32) -> bool {
    window.owner_pid == pid && window.visible && window.title@.len() > 0
}

/// The title shown for process `pid`: that of the first window that can give
/// it one, empty if there is none.
pub open spec fn window_title_of(windows: Seq<TopLevelWindow>, pid: u32) -> Seq<char>
    decreases windows.len(),
{
    if windows.len() == 0 {
        Seq::empty()
    } else if gives_title(windows[0], pid) {
        windows[0].title@
    } else {
        window_title_of(windows.drop_first(), pid)
    }
}

/// The command of an enforcement pass for one session: none for a session of
/// pid 0, else the mute flag that the policy asks for.
pub open spec fn command_for(
    session: LiveSession,
    entries: Set<Seq<char>>,
    is_whitelist: bool,
    enabled: bool,
    foreground_pid: u32,
) -> Option<bool> {
    if session.pid == NO_PROCESS {
        None
    } else {
        Some(should_mute(entries, is_whitelist, enabled, session.name@, session.pid, foreground_pid))
    }
}

/// Whether the session offers a flag for the record: it is governed and
/// its mute flag was read.
pub open spec fn has_reading(session: LiveSession) -> bool {
    session.pid != NO_PROCESS && session.muted is Some
}

/// What touching one session makes of the record.
pub open spec fn record_session(record: Map<u32, bool>, session: LiveSession) -> Map<u32, bool> {
    if has_reading(session) {
        record_one(record, session.pid, session.muted->0)
    } else {
        record
    }
}

/// What touching the sessions one after the other makes of the record.
pub open spec fn record_pass(record: Map<u32, bool>, sessions: Seq<LiveSession>) -> Map<u32, bool>
    decreases sessions.len(),
{
    if sessions.len() == 0 {
        record
    } else {
        record_session(record_pass(record, sessions.drop_last()), sessions.last())
    }
}

/// The command of a restore for one session: unmute if its process is in the
/// record, none otherwise.
pub open spec fn restore_command(record: Map<u32, bool>, session: LiveSession) -> Option<bool> {
    if session.pid != NO_PROCESS && record.contains_key(session.pid) {
        Some(false)
    } else {
        None
    }
}

/// The report on a sweep: the first failure in the order of the attempts,
/// success if there is none.
pub open spec fn first_failure(outcomes: Seq<Result<(), SessionError>>) -> Result<(), SessionError>
    decreases outcomes.len(),
{
    if outcomes.len() == 0 {
        Ok(())
    } else {
        match outcomes[0] {
            Err(error) => Err(error),
            Ok(_) => first_failure(outcomes.drop_first()),
        }
    }
}

impl AudioManager {
    /// An engine that has touched nothing yet.
    pub fn new() -> (manager: AudioManager)
        ensures
            manager@ == Map::<u32, bool>::empty(),
    {
        AudioManager { saved_states: MuteRecord::new() }
    }

    /// The flag saved for `pid`, if the engine has touched it since
    /// the last restore.
    pub fn saved_state(&self, pid: u32) -> (saved: Option<bool>)
        ensures
            saved == (if self@.contains_key(pid) {
                Some(self@[pid])
            } else {
                None
            }),
    {
        self.saved_states.saved_flag(pid)
    }

    /// The number of processes in the record.
    pub fn saved_count(&self) -> (n: usize)
        ensures
            n == self@.len(),
    {
        self.saved_states.len()
    }

    /// Saves `flag` for `pid` unless a flag is saved for it already.
    pub fn record_if_absent(&mut self, pid: u32, flag: bool)
        ensures
            final(self)@ == record_one(old(self)@, pid, flag),
    {
        self.saved_states.record_if_absent(pid, flag);
    }

    /// Picks the title to show for process `pid` from the top-level windows,
    /// given in the order in which they were enumerated.
    pub fn get_window_title(pid: u32, windows: &Vec<TopLevelWindow>) -> (title: String)
        ensures
            title@ == window_title_of(windows@, pid),
    {
        let mut i: usize = 0;
        proof {
            assert(windows@.skip(0) == windows@);
        }
        while i < windows.len()
            invariant
                i <= windows@.len(),
                window_title_of(windows@, pid) == window_title_of(windows@.skip(i as int), pid),
            decreases windows@.len() - i,
        {
            let window = &windows[i];
            proof {
                let rest = windows@.skip(i as int);
                assert(rest[0] == windows@[i as int]);
                assert(rest.drop_first() == windows@.skip(i + 1));
            }
            if window.owner_pid == pid && window.visible && !window.title.as_str().is_empty() {
                return window.title.clone();
            }
            i += 1;
        }
        String::new()
    }

    /// Makes the snapshot for display from what an enumeration found:
    /// sessions of pid 0 are left out, each of the others gets its window
    /// title and its display name.
    pub fn get_active_sessions(
        &self,
        sessions: &Vec<LiveSession>,
        windows: &Vec<TopLevelWindow>,
    ) -> (snapshot: Vec<AudioSessionInfo>)
        ensures
            snapshot@.len() == governed(sessions@).len(),
            forall|i: int|
                #![trigger snapshot@[i]]
                0 <= i < snapshot@.len() ==> {
                    &&& snapshot@[i].pid == governed(sessions@)[i].pid
                    &&& snapshot@[i].name@ == governed(sessions@)[i].name@
                    &&& snapshot@[i].window_title@ == window_title_of(
                        windows@,
                        governed(sessions@)[i].pid,
                    )
                    &&& snapshot@[i].display_name@ == display_name(
                        session_names(governed(sessions@)),
                        i,
                    )
                },
    {
        let mut names: Vec<String> = Vec::new();
        let mut pids: Vec<u32> = Vec::new();
        let mut titles: Vec<String> = Vec::new();
        let mut i: usize = 0;
        while i < sessions.len()
            invariant
                i <= sessions@.len(),
                names@.len() == governed(sessions@.take(i as int)).len(),
                pids@.len() == names@.len(),
                titles@.len() == names@.len(),
                forall|k: int|
                    #![trigger names@[k]]
                    0 <= k < names@.len() ==> {
                        &&& names@[k]@ == governed(sessions@.take(i as int))[k].name@
                        &&& pids@[k] == governed(sessions@.take(i as int))[k].pid
                        &&& titles@[k]@ == window_title_of(windows@, pids@[k])
                    },
            decreases sessions@.len() - i,
        {
            let session = &sessions[i];
            proof {
                let read = sessions@.take(i + 1);
                assert(read.drop_last() == sessions@.take(i as int));
                assert(read.last() == sessions@[i as int]);
            }
            if session.pid != NO_PROCESS {
                names.push(session.name.clone());
                pids.push(session.pid);
                titles.push(Self::get_window_title(session.pid, windows));
            }
            i += 1;
        }
        proof {
            assert(sessions@.take(sessions@.len() as int) == sessions@);
            assert(texts(names@) == session_names(governed(sessions@)));
        }
        let shown = display_names(&names);
        let mut snapshot: Vec<AudioSessionInfo> = Vec::new();
        let mut j: usize = 0;
        while j < names.len()
            invariant
                j <= names@.len(),
                snapshot@.len() == j,
                names@.len() == governed(sessions@).len(),
                pids@.len() == names@.len(),
                titles@.len() == names@.len(),
                shown@.len() == names@.len(),
                forall|k: int|
                    #![trigger names@[k]]
                    0 <= k < names@.len() ==> {
                        &&& names@[k]@ == governed(sessions@)[k].name@
                        &&& pids@[k] == governed(sessions@)[k].pid
                        &&& titles@[k]@ == window_title_of(windows@, pids@[k])
                    },
                forall|k: int|
                    0 <= k < names@.len() ==> (#[trigger] shown@[k])@ == display_name(
                        session_names(governed(sessions@)),
                        k,
                    ),
                forall|k: int|
                    #![trigger snapshot@[k]]
                    0 <= k < j ==> {
                        &&& snapshot@[k].pid == pids@[k]
                        &&& snapshot@[k].name@ == names@[k]@
                        &&& snapshot@[k].window_title@ == titles@[k]@
                        &&& snapshot@[k].display_name@ == shown@[k]@
                    },
            decreases names@.len() - j,
        {
            snapshot.push(
                AudioSessionInfo {
                    name: names[j].clone(),
                    pid: pids[j],
                    window_title: titles[j].clone(),
                    display_name: shown[j].clone(),
                },
            );
            j += 1;
        }
        snapshot
    }

    /// Runs one enforcement pass over the live sessions. Answers with one
    /// command per session, in the order of `sessions`: the mute flag to set,
    /// or none for a session of pid 0. With the policy switched on, the mute
    /// flag of every governed session whose flag was read is recorded, unless
    /// its process has a saved flag already. With the policy switched off the
    /// record is left alone.
    pub fn update_mute_status(
        &mut self,
        sessions: &Vec<LiveSession>,
        list: &Vec<String>,
        is_whitelist: bool,
        enabled: bool,
        foreground_pid: u32,
    ) -> (plan: Vec<Option<bool>>)
        ensures
            plan@.len() == sessions@.len(),
            forall|i: int|
                0 <= i < sessions@.len() ==> #[trigger] plan@[i] == command_for(
                    sessions@[i],
                    entry_set(list@),
                    is_whitelist,
                    enabled,
                    foreground_pid,
                ),
            final(self)@ == (if enabled {
                record_pass(old(self)@, sessions@)
            } else {
                old(self)@
            }),
    {
        let folded_list = lowercase_all(list);
        let mut plan: Vec<Option<bool>> = Vec::new();
        let mut i: usize = 0;
        while i < sessions.len()
            invariant
                i <= sessions@.len(),
                plan@.len() == i,
                folded_list@.len() == list@.len(),
                forall|k: int|
                    0 <= k < list@.len() ==> (#[trigger] folded_list@[k])@ == lowercase(list@[k]@),
                forall|k: int|
                    0 <= k < i ==> #[trigger] plan@[k] == command_for(
                        sessions@[k],
                        entry_set(list@),
                        is_whitelist,
                        enabled,
                        foreground_pid,
                    ),
                self@ == (if enabled {
                    record_pass(old(self)@, sessions@.take(i as int))
                } else {
                    old(self)@
                }),
            decreases sessions@.len() - i,
        {
            let session = &sessions[i];
            proof {
                let read = sessions@.take(i + 1);
                assert(read.drop_last() == sessions@.take(i as int));
                assert(read.last() == sessions@[i as int]);
            }
            if session.pid == NO_PROCESS {
                plan.push(None);
            } else {
                let folded_name = session.name.as_str().to_lowercase();
                proof {
                    lemma_folded_lookup_is_membership(
                        list@,
                        folded_list@,
                        session.name@,
                        folded_name@,
                        session.pid,
                    );
                }
                let mute = decide_folded(
                    session.name.as_str(),
                    &folded_name,
                    session.pid,
                    list,
                    &folded_list,
                    is_whitelist,
                    enabled,
                    foreground_pid,
                );
                if enabled {
                    match session.muted {
                        Some(flag) => {
                            self.saved_states.record_if_absent(session.pid, flag);
                        },
                        None => {},
                    }
                }
                plan.push(Some(mute));
            }
            i += 1;
        }
        proof {
            assert(sessions@.take(sessions@.len() as int) == sessions@);
        }
        plan
    }

    /// Takes the whole record and answers with one command per live session,
    /// in the order of `sessions`: unmute for every governed session whose
    /// process was in the record, none for the others. The record is empty
    /// afterwards, whatever becomes of the commands.
    pub fn restore_saved_states(&mut self, sessions: &Vec<LiveSession>) -> (plan: Vec<Option<bool>>)
        ensures
            final(self)@ == Map::<u32, bool>::empty(),
            plan@.len() == sessions@.len(),
            forall|i: int|
                0 <= i < sessions@.len() ==> #[trigger] plan@[i] == restore_command(
                    old(self)@,
                    sessions@[i],
                ),
    {
        let saved = self.saved_states.take();
        let mut plan: Vec<Option<bool>> = Vec::new();
        let mut i: usize = 0;
        while i < sessions.len()
            invariant
                i <= sessions@.len(),
                plan@.len() == i,
                forall|k: int|
                    0 <= k < i ==> #[trigger] plan@[k] == restore_command(saved@, sessions@[k]),
            decreases sessions@.len() - i,
        {
            let session = &sessions[i];
            if session.pid != NO_PROCESS && saved.contains(session.pid) {
                plan.push(Some(false));
            } else {
                plan.push(None);
            }
            i += 1;
        }
        plan
    }

    /// Sums up a restore from the outcomes of its commands, given in the
    /// order in which they were attempted: the first failure, or success if
    /// every command went through.
    pub fn restore_result(outcomes: &Vec<Result<(), SessionError>>) -> (report: Result<
        (),
        SessionError,
    >)
        ensures
            report == first_failure(outcomes@),
    {
        let mut i: usize = 0;
        proof {
            assert(outcomes@.skip(0) == outcomes@);
        }
        while i < outcomes.len()
            invariant
                i <= outcomes@.len(),
                first_failure(outcomes@) == first_failure(outcomes@.skip(i as int)),
            decreases outcomes@.len() - i,
        {
            proof {
                let rest = outcomes@.skip(i as int);
                assert(rest[0] == outcomes@[i as int]);
                assert(rest.drop_first() == outcomes@.skip(i + 1));
            }
            match outcomes[i] {
                Err(error) => {
                    return Err(error);
                },
                Ok(_) => {},
            }
            i += 1;
        }
        Ok(())
    }
}

/// No session of pid 0 is governed, and every governed session was
/// enumerated.
pub proof fn lemma_governed_sessions(sessions: Seq<LiveSession>)
    ensures
        governed(sessions).len() <= sessions.len(),
        forall|k: int|
            0 <= k < governed(sessions).len() ==> {
                &&& (#[trigger] governed(sessions)[k]).pid != NO_PROCESS
                &&& sessions.contains(governed(sessions)[k])
            },
    decreases sessions.len(),
{
    if sessions.len() > 0 {
        let earlier = sessions.drop_last();
        lemma_governed_sessions(earlier);
        assert forall|k: int| 0 <= k < governed(sessions).len() implies {
            &&& (#[trigger] governed(sessions)[k]).pid != NO_PROCESS
            &&& sessions.contains(governed(sessions)[k])
        } by {
            if k < governed(earlier).len() {
                let found = choose|j: int|
                    0 <= j < earlier.len() && earlier[j] == governed(earlier)[k];
                assert(sessions[found] == governed(sessions)[k]);
            } else {
                assert(sessions[sessions.len() - 1] == governed(sessions)[k]);
            }
        }
    }
}

/// A process none of whose windows can give a title is shown without one.
pub proof fn lemma_no_window_no_title(windows: Seq<TopLevelWindow>, pid: u32)
    requires
        forall|i: int| 0 <= i < windows.len() ==> !gives_title(#[trigger] windows[i], pid),
    ensures
        window_title_of(windows, pid) == Seq::<char>::empty(),
    decreases windows.len(),
{
    if windows.len() > 0 {
        let rest = windows.drop_first();
        assert forall|i: int| 0 <= i < rest.len() implies !gives_title(#[trigger] rest[i], pid) by {
            assert(rest[i] == windows[i + 1]);
        }
        lemma_no_window_no_title(rest, pid);
    }
}

/// The title shown is that of the first window, in the order of the
/// enumeration, that can give one.
pub proof fn lemma_window_title_is_first(windows: Seq<TopLevelWindow>, pid: u32, k: int)
    requires
        0 <= k < windows.len(),
        gives_title(windows[k], pid),
        forall|i: int| 0 <= i < k ==> !gives_title(#[trigger] windows[i], pid),
    ensures
        window_title_of(windows, pid) == windows[k].title@,
    decreases windows.len(),
{
    if k > 0 {
        let rest = windows.drop_first();
        assert(rest[k - 1] == windows[k]);
        assert forall|i: int| 0 <= i < k - 1 implies !gives_title(#[trigger] rest[i], pid) by {
            assert(rest[i] == windows[i + 1]);
        }
        assert(!gives_title(windows[0], pid));
        lemma_window_title_is_first(rest, pid, k - 1);
    }
}

/// A pass with the policy switched off commands the unmuting of every
/// governed session, whatever the list, the mode and the foreground.
pub proof fn lemma_disabled_pass_unmutes_all(
    session: LiveSession,
    entries: Set<Seq<char>>,
    is_whitelist: bool,
    foreground_pid: u32,
)
    requires
        session.pid != NO_PROCESS,
    ensures
        command_for(session, entries, is_whitelist, false, foreground_pid) == Some(false),
{
}

/// No pass commands the muting of a session of the foreground process.
pub proof fn lemma_pass_spares_the_foreground(
    session: LiveSession,
    entries: Set<Seq<char>>,
    is_whitelist: bool,
    enabled: bool,
)
    ensures
        command_for(session, entries, is_whitelist, enabled, session.pid) != Some(true),
{
}

/// Record-once over a pass: what the record held before a pass it holds
/// after it, with the same flag, whatever flags the sessions show now.
pub proof fn lemma_pass_keeps_entries(record: Map<u32, bool>, sessions: Seq<LiveSession>, pid: u32)
    requires
        record.contains_key(pid),
    ensures
        record_pass(record, sessions).contains_key(pid),
        record_pass(record, sessions)[pid] == record[pid],
    decreases sessions.len(),
{
    if sessions.len() > 0 {
        lemma_pass_keeps_entries(record, sessions.drop_last(), pid);
    }
}

/// After a pass the record names the processes it named before and those of
/// the governed sessions whose flag was read, and no others.
pub proof fn lemma_pass_domain(record: Map<u32, bool>, sessions: Seq<LiveSession>, pid: u32)
    ensures
        record_pass(record, sessions).contains_key(pid) <==> record.contains_key(pid) || exists|
            i: int,
        |
            0 <= i < sessions.len() && has_reading(#[trigger] sessions[i]) && sessions[i].pid == pid,
    decreases sessions.len(),
{
    if sessions.len() > 0 {
        let earlier = sessions.drop_last();
        lemma_pass_domain(record, earlier, pid);
        if record_pass(record, sessions).contains_key(pid) && !record.contains_key(pid) {
            if record_pass(record, earlier).contains_key(pid) {
                let i = choose|i: int|
                    0 <= i < earlier.len() && has_reading(#[trigger] earlier[i]) && earlier[i].pid
                        == pid;
                assert(has_reading(sessions[i]) && sessions[i].pid == pid);
            } else {
                assert(has_reading(sessions[sessions.len() - 1]));
            }
        }
        if exists|i: int|
            0 <= i < sessions.len() && has_reading(#[trigger] sessions[i]) && sessions[i].pid
                == pid {
            let i = choose|i: int|
                0 <= i < sessions.len() && has_reading(#[trigger] sessions[i]) && sessions[i].pid
                    == pid;
            if i < earlier.len() {
                assert(has_reading(earlier[i]) && earlier[i].pid == pid);
            }
        }
    }
}

/// For a process that the record did not name, a pass records the flag of
/// the first of its sessions whose flag was read.
pub proof fn lemma_pass_records_first_reading(
    record: Map<u32, bool>,
    sessions: Seq<LiveSession>,
    i: int,
)
    requires
        0 <= i < sessions.len(),
        has_reading(sessions[i]),
        !record.contains_key(sessions[i].pid),
        forall|j: int|
            0 <= j < i ==> !(has_reading(#[trigger] sessions[j]) && sessions[j].pid
                == sessions[i].pid),
    ensures
        record_pass(record, sessions).contains_key(sessions[i].pid),
        record_pass(record, sessions)[sessions[i].pid] == sessions[i].muted->0,
    decreases sessions.len(),
{
    let earlier = sessions.drop_last();
    let pid = sessions[i].pid;
    if i == sessions.len() - 1 {
        lemma_pass_domain(record, earlier, pid);
        if record_pass(record, earlier).contains_key(pid) {
            let j = choose|j: int|
                0 <= j < earlier.len() && has_reading(#[trigger] earlier[j]) && earlier[j].pid
                    == pid;
            assert(has_reading(sessions[j]) && sessions[j].pid == pid);
        }
    } else {
        assert(earlier[i] == sessions[i]);
        assert forall|j: int| 0 <= j < i implies !(has_reading(#[trigger] earlier[j])
            && earlier[j].pid == earlier[i].pid) by {
            assert(earlier[j] == sessions[j]);
        }
        lemma_pass_records_first_reading(record, earlier, i);
    }
}

/// Nothing stays muted: a restore that follows a pass commands the unmuting
/// of every governed session whose process the pass recorded or found
/// recorded, and a restore never commands a muting.
pub proof fn lemma_restore_leaves_nothing_muted(
    record: Map<u32, bool>,
    sessions: Seq<LiveSession>,
    live: LiveSession,
)
    requires
        live.pid != NO_PROCESS,
    ensures
        restore_command(record_pass(record, sessions), live) != Some(true),
        record.contains_key(live.pid) ==> restore_command(record_pass(record, sessions), live)
            == Some(false),
        (exists|i: int|
            0 <= i < sessions.len() && has_reading(#[trigger] sessions[i]) && sessions[i].pid
                == live.pid) ==> restore_command(record_pass(record, sessions), live) == Some(
            false,
        ),
{
    lemma_pass_domain(record, sessions, live.pid);
}

/// A sweep is reported as a success exactly when no command failed;
/// otherwise the report is the failure before which every command went
/// through.
pub proof fn lemma_first_failure_is_first(outcomes: Seq<Result<(), SessionError>>)
    ensures
        first_failure(outcomes) is Ok <==> forall|i: int|
            0 <= i < outcomes.len() ==> (#[trigger] outcomes[i]) is Ok,
        first_failure(outcomes) is Err ==> exists|k: int|
            0 <= k < outcomes.len() && #[trigger] outcomes[k] == first_failure(outcomes) && forall|
                i: int,
            |
                0 <= i < k ==> (#[trigger] outcomes[i]) is Ok,
    decreases outcomes.len(),
{
    if outcomes.len() > 0 {
        let rest = outcomes.drop_first();
        lemma_first_failure_is_first(rest);
        match outcomes[0] {
            Err(_) => {
                assert(outcomes[0] == first_failure(outcomes));
            },
            Ok(_) => {
                assert(first_failure(outcomes) == first_failure(rest));
                if first_failure(rest) is Ok {
                    assert forall|i: int| 0 <= i < outcomes.len() implies (
                    #[trigger] outcomes[i]) is Ok by {
                        if i > 0 {
                            assert(rest[i - 1] == outcomes[i]);
                        }
                    }
                } else {
                    let k = choose|k: int|
                        0 <= k < rest.len() && #[trigger] rest[k] == first_failure(rest) && forall|
                            i: int,
                        |
                            0 <= i < k ==> (#[trigger] rest[i]) is Ok;
                    assert(outcomes[k + 1] == first_failure(outcomes));
                    assert forall|i: int| 0 <= i < k + 1 implies (#[trigger] outcomes[i]) is Ok by {
                        if i > 0 {
                            assert(rest[i - 1] == outcomes[i]);
                        }
                    }
                    assert(!(outcomes[k + 1] is Ok));
                }
            },
        }
    }
}

} // verus!
