//! Resident core.
//!
//! The resident owns a Named Mutex so only one instance per session runs, a
//! message-only window, a tray icon with an Exit menu, and a `GetMessage`
//! loop that blocks until Windows delivers something. Blocking in
//! `GetMessage` is what makes the Zero Idle Architecture possible: no
//! polling, no timers, no file watching. A missing tray icon is never
//! fatal: the icon is re-registered whenever Explorer broadcasts
//! TaskbarCreated, which also covers a logon autostart that ran before the
//! taskbar existed.
//!
//! Profiles execute on a temporary worker thread so a Wait action cannot
//! stall the message loop. The trigger is a WM_COPYDATA request (see
//! `ipc.rs`); each accepted request gets its own worker — bounded by
//! `MAX_CONCURRENT_WORKERS` so a burst of requests cannot exhaust threads —
//! so concurrent requests run independently and the only shared state is
//! the immutable `Arc<Config>`. Global hotkeys are intentionally not
//! implemented.
//!
//! The config is re-read only when a run request arrives and the file's
//! mtime changed since the last load — still purely event-driven, so nothing
//! happens while the user is idle.
//!
//! Which message, request or answer of Windows leads to what is decided
//! here; threads, windows and files are the caller's.

use crate::actions::{action_error_text, execute, launch_of, ActionError, Launch, LaunchView};
use crate::config::{is_guid, is_valid_guid, Action, Config, ConfigView, Profile};
use crate::ipc::{
    byte_count, decode, decode_gives, every_profile_can_be_asked_for, ipc_error_text, payload,
    reads_requests, requests_survive_the_way, run_profile_json, IpcError, IpcRequest, IPC_MAGIC,
    MAX_IPC_BYTES,
};
use crate::number::{decimal, decimal_text};
use crate::profile::{
    enabled, execute_profile, failures, find_profile, is_first_named, is_named, ran, Launcher,
    ProfileResult,
};
use crate::storage::{config_error_text, ConfigError};
use crate::text::{debug_string, debug_text};
use crate::utf16::{encode_wide, wide};
use std::sync::Arc;
use vstd::prelude::*;
use vstd::string::*;

verus! {

/// Identifies the single resident instance. `Local\` scopes the mutex to the
/// current session, so each logged-on user gets their own resident instead of
/// one user blocking another.
pub const MUTEX_NAME: &'static str = "Local\\ProjectLauncher.Resident";

/// Class name of the message-only window. The `--profile` frontend locates
/// the resident by this class, so it must stay stable and unique to this
/// program.
pub const WINDOW_CLASS: &'static str = "ProjectLauncher.ResidentMessageWindow";

/// Callback message the tray icon posts back to the window.
pub const WM_TRAYICON: u32 = 0x8001;

/// Menu command id for the tray's Exit item.
pub const IDM_EXIT: usize = 1;

/// NOTIFYICONDATA.uID for the single tray icon.
pub const TRAY_ICON_ID: u32 = 1;

#[derive(Debug)]
pub enum ResidentError {
    /// Another resident already owns the mutex. Not a failure: the desired
    /// state (a resident is running) already holds.
    AlreadyRunning,
    Config(ConfigError),
    /// A Win32 call failed; `code` is GetLastError().
    Win32 { api: &'static str, code: u32 },
    /// The host OS does not provide the required Win32 API.
    UnsupportedPlatform,
}

/// The text of a resident error.
pub open spec fn resident_error_text(e: ResidentError) -> Seq<char> {
    match e {
        ResidentError::AlreadyRunning => "another Project Launcher resident is already running"@,
        ResidentError::Config(e) => config_error_text(e),
        ResidentError::Win32 { api, code } => {
            api@ + " failed (GetLastError="@ + decimal(code as nat) + ")"@
        },
        ResidentError::UnsupportedPlatform => "the resident requires Windows"@,
    }
}

impl ResidentError {
    pub fn message(&self) -> (r: String)
        ensures
            r@ == resident_error_text(*self),
    {
        match self {
            ResidentError::AlreadyRunning => {
                "another Project Launcher resident is already running".to_owned()
            },
            ResidentError::Config(e) => e.message(),
            ResidentError::Win32 { api, code } => {
                (*api).to_owned().concat(" failed (GetLastError=").concat(
                    decimal_text(*code as u64).as_str(),
                ).concat(")")
            },
            ResidentError::UnsupportedPlatform => "the resident requires Windows".to_owned(),
        }
    }
}

// ---------- the config in memory ----------

/// Everything the resident keeps in memory between messages: the config it
/// loaded and the file mtime it was loaded from. Each run request re-stats
/// the file and reloads only when the mtime changed — event-driven, so the
/// zero-idle guarantee is preserved (nothing happens between requests).
pub struct ResidentState {
    /// Path the config is reloaded from; without one it never is.
    pub config_path: Option<String>,
    pub config: Arc<Config>,
    /// The file's mtime at load time, in nanoseconds since the Unix epoch;
    /// `None` where it could not be read.
    pub modified: Option<i128>,
}

impl ResidentState {
    /// Whether a file with this mtime has to be loaded again.
    pub open spec fn is_stale(self, modified: Option<i128>) -> bool {
        self.config_path is Some && self.modified != modified
    }

    /// The state that holds `config` as loaded from a file with this mtime.
    pub open spec fn reloaded(self, config: Config, modified: Option<i128>, after: Self) -> bool {
        &&& after.config_path == self.config_path
        &&& *after.config == config
        &&& after.modified == modified
    }

    /// Without a path, so `current_config` never reloads.
    pub fn new(config: Config) -> (r: Self)
        ensures
            r.config_path is None,
            *r.config == config,
            r.modified is None,
    {
        ResidentState { config_path: None, config: Arc::new(config), modified: None }
    }

    /// Remembers where the config lives so requests can reload it when the
    /// file changed.
    pub fn with_path(config: Config, path: String, modified: Option<i128>) -> (r: Self)
        ensures
            r.config_path == Some(path),
            *r.config == config,
            r.modified == modified,
    {
        ResidentState { config_path: Some(path), config: Arc::new(config), modified }
    }

    /// Returns the current config, reloading it first when the file's mtime
    /// changed since the last load, and what to log of that. A failed reload
    /// keeps the previous config (a corrupt edit must not brick a running
    /// resident) and is logged; the check is a single metadata call per
    /// request, never a timer or watcher.
    ///
    /// `modified` is the mtime that the file has now, and `load` loads it;
    /// an unchanged file is not loaded.
    pub fn current_config<L: FnOnce() -> Result<Config, ConfigError>>(
        &mut self,
        modified: Option<i128>,
        load: L,
    ) -> (r: (&Arc<Config>, Option<String>))
        requires
            old(self).is_stale(modified) ==> call_requires(load, ()),
        ensures
            *r.0 == final(self).config,
            if old(self).is_stale(modified) {
                exists|loaded: Result<Config, ConfigError>| #[trigger]
                    call_ensures(load, (), loaded) && match loaded {
                        Ok(config) => {
                            &&& old(self).reloaded(config, modified, *final(self))
                            &&& r.1 matches Some(line) && line@
                                == "[resident] config reloaded from "@
                                + old(self).config_path->0@
                        },
                        Err(e) => {
                            &&& *final(self) == *old(self)
                            &&& r.1 matches Some(line) && line@
                                == "[resident] config reload failed: "@ + config_error_text(e)
                                + "; keeping previous config"@
                        },
                    }
            } else {
                *final(self) == *old(self) && r.1 is None
            },
    {
        let path = match &self.config_path {
            Some(path) => path.clone(),
            None => return (&self.config, None),
        };
        if self.modified == modified {
            return (&self.config, None);
        }
        let loaded = load();
        let ghost seen = loaded;
        assert(call_ensures(load, (), seen));
        match loaded {
            Ok(config) => {
                self.config = Arc::new(config);
                self.modified = modified;
                let line = "[resident] config reloaded from ".to_owned().concat(path.as_str());
                (&self.config, Some(line))
            },
            Err(e) => {
                let line = "[resident] config reload failed: ".to_owned().concat(
                    e.message().as_str(),
                ).concat("; keeping previous config");
                (&self.config, Some(line))
            },
        }
    }

    pub fn profile_count(&self) -> (r: usize)
        ensures
            r == self.config.profiles@.len(),
    {
        self.config.profiles.len()
    }
}

/// A reload is not repeated while the file stays as it is; a reload that
/// failed is tried again at the next request.
pub proof fn reloads_only_when_the_file_changed(
    before: ResidentState,
    config: Config,
    modified: Option<i128>,
    after: ResidentState,
)
    requires
        before.is_stale(modified),
    ensures
        before.reloaded(config, modified, after) ==> !after.is_stale(modified),
        after == before ==> after.is_stale(modified),
{
}

// ---------- running profiles ----------

/// What performing a launch comes to, as a launcher's result.
pub open spec fn is_performed(done: Result<(), ActionError>, r: Result<(), String>) -> bool {
    match done {
        Ok(()) => r is Ok,
        Err(e) => r matches Err(text) && text@ == action_error_text(e),
    }
}

/// The production launcher: hand the action to Windows. `perform` does what
/// the action asks for; an action that cannot be handed over is not
/// performed.
pub fn launch_action<F: FnOnce(Launch) -> Result<(), ActionError>>(
    action: &Action,
    perform: F,
) -> (r: Result<(), String>)
    requires
        forall|launch: Launch|
            launch_of(action@.kind) == Ok::<LaunchView, Seq<char>>(launch@) ==> call_requires(
                perform,
                (launch,),
            ),
    ensures
        match launch_of(action@.kind) {
            Err(m) => r matches Err(text) && text@ == "invalid input: "@ + m,
            Ok(asked) => exists|launch: Launch, done: Result<(), ActionError>|
                launch@ == asked && #[trigger] call_ensures(perform, (launch,), done)
                    && is_performed(done, r),
        },
{
    let launch = match execute(action) {
        Ok(launch) => launch,
        Err(e) => return Err(e.message()),
    };
    let ghost asked = launch;
    let done = perform(launch);
    let ghost seen = done;
    assert(call_ensures(perform, (asked,), seen));
    match done {
        Ok(()) => Ok(()),
        Err(e) => Err(e.message()),
    }
}

/// What a worker does for an id: it runs the profile that the id names, or
/// nothing where the id names none.
pub open spec fn worker_ran<L: Launcher>(
    config: ConfigView,
    profile_id: Seq<char>,
    before: L,
    r: Option<ProfileResult>,
    after: L,
) -> bool {
    match r {
        None => !is_named(config.profiles, profile_id) && after == before,
        Some(result) => exists|i: int| #[trigger]
            is_first_named(config.profiles, profile_id, i) && ran(
                before,
                config.profiles[i],
                result,
                after,
            ),
    }
}

/// Runs the profile that an id names: what a worker does. `None` if the
/// profile id is not in the config.
pub fn run_profile<L: Launcher>(config: &Config, profile_id: &str, launcher: &mut L) -> (r: Option<
    ProfileResult,
>)
    ensures
        worker_ran(config@, profile_id@, *old(launcher), r, *final(launcher)),
{
    match find_profile(config, profile_id) {
        None => None,
        Some(profile) => Some(execute_profile(profile, launcher)),
    }
}

/// What a worker logs when it starts.
pub fn started_line(profile: &Profile, profile_id: &str) -> (r: String)
    ensures
        r@ == "[resident] profile '"@ + profile.name@ + "' ("@ + profile_id@ + ") started"@,
{
    "[resident] profile '".to_owned().concat(profile.name.as_str()).concat("' (").concat(
        profile_id,
    ).concat(") started")
}

/// What a worker logs when it is done, after the outcomes.
pub fn finished_line(profile_id: &str, result: &ProfileResult) -> (r: String)
    ensures
        r@ == "[resident] profile "@ + profile_id@ + " finished: "@ + decimal(
            failures(result.outcomes@),
        ) + " of "@ + decimal(result.outcomes@.len()) + " action(s) failed, "@ + decimal(
            result.skipped_disabled as nat,
        ) + " disabled skipped"@,
{
    "[resident] profile ".to_owned().concat(profile_id).concat(" finished: ").concat(
        decimal_text(result.failure_count() as u64).as_str(),
    ).concat(" of ").concat(decimal_text(result.outcomes.len() as u64).as_str()).concat(
        " action(s) failed, ",
    ).concat(decimal_text(result.skipped_disabled as u64).as_str()).concat(" disabled skipped")
}

// ---------- workers ----------

/// Upper bound on profile workers running at once. Every accepted IPC
/// request spawns a detached thread; without a cap a flood of requests
/// could exhaust the process's thread budget. Requests beyond the cap are
/// rejected so the sender learns that nothing was started.
pub const MAX_CONCURRENT_WORKERS: usize = 16;

/// The number of held slots once one more is claimed, or `None` when all are
/// taken.
pub open spec fn slot_claim(held: int) -> Option<int> {
    if held < MAX_CONCURRENT_WORKERS {
        Some(held + 1)
    } else {
        None
    }
}

/// Claims a worker slot when `in_flight` are held: the number held then, or
/// `None` when all are taken.
pub fn claim_worker(in_flight: usize) -> (r: Option<usize>)
    ensures
        match r {
            Some(held) => slot_claim(in_flight as int) == Some(held as int),
            None => slot_claim(in_flight as int) is None,
        },
{
    if in_flight < MAX_CONCURRENT_WORKERS {
        Some(in_flight + 1)
    } else {
        None
    }
}

/// The slots that are held once one is returned.
pub open spec fn slot_return(held: int) -> int {
    held - 1
}

/// Returns a claimed worker slot: the number held then.
pub fn release_worker(in_flight: usize) -> (r: usize)
    requires
        in_flight > 0,
    ensures
        r == slot_return(in_flight as int),
{
    in_flight - 1
}

/// One change of the number of held slots: a request that got one, a request
/// that got none, or a worker that exits.
pub open spec fn slots_step(before: int, after: int) -> bool {
    ||| slot_claim(before) == Some(after)
    ||| slot_claim(before) is None && after == before
    ||| before > 0 && after == slot_return(before)
}

/// However requests and exits follow on one another, there are never more
/// workers than the bound allows.
pub proof fn workers_stay_bounded(held: Seq<int>)
    requires
        held.len() > 0,
        held[0] == 0,
        forall|i: int| 0 <= i < held.len() - 1 ==> slots_step(#[trigger] held[i], held[i + 1]),
    ensures
        forall|i: int| 0 <= i < held.len() ==> 0 <= #[trigger] held[i] <= MAX_CONCURRENT_WORKERS,
    decreases held.len(),
{
    if held.len() > 1 {
        let front = held.drop_last();
        assert forall|i: int| 0 <= i < front.len() - 1 implies slots_step(
            #[trigger] front[i],
            front[i + 1],
        ) by {
            assert(slots_step(held[i], held[i + 1]));
        }
        workers_stay_bounded(front);
        let n = held.len() - 2;
        assert(slots_step(held[n], held[n + 1]));
        assert(front[n] == held[n]);
        assert forall|i: int| 0 <= i < held.len() implies 0 <= #[trigger] held[i]
            <= MAX_CONCURRENT_WORKERS by {
            if i < front.len() {
                assert(front[i] == held[i]);
            }
        }
    }
}

/// How many of the changes claimed a slot.
pub open spec fn slots_claimed(held: Seq<int>) -> int
    decreases held.len(),
{
    if held.len() < 2 {
        0
    } else {
        slots_claimed(held.drop_last()) + if held[held.len() - 1] > held[held.len() - 2] {
            1int
        } else {
            0
        }
    }
}

/// How many of the changes returned a slot.
pub open spec fn slots_returned(held: Seq<int>) -> int
    decreases held.len(),
{
    if held.len() < 2 {
        0
    } else {
        slots_returned(held.drop_last()) + if held[held.len() - 1] < held[held.len() - 2] {
            1int
        } else {
            0
        }
    }
}

/// The slots that are held are those of the workers that have not exited:
/// once every worker has returned the slot that was claimed for it, all are
/// free again, and the next request gets one.
pub proof fn every_slot_comes_back(held: Seq<int>)
    requires
        held.len() > 0,
        held[0] == 0,
        forall|i: int| 0 <= i < held.len() - 1 ==> slots_step(#[trigger] held[i], held[i + 1]),
    ensures
        held.last() == slots_claimed(held) - slots_returned(held),
        slots_claimed(held) == slots_returned(held) ==> held.last() == 0 && slot_claim(held.last()) is Some,
    decreases held.len(),
{
    if held.len() > 1 {
        let front = held.drop_last();
        assert forall|i: int| 0 <= i < front.len() - 1 implies slots_step(
            #[trigger] front[i],
            front[i + 1],
        ) by {
            assert(slots_step(held[i], held[i + 1]));
        }
        every_slot_comes_back(front);
        let n = held.len() - 2;
        assert(slots_step(held[n], held[n + 1]));
    }
}

/// A slot that is claimed and returned leaves as many held as before.
pub proof fn returning_undoes_claiming(held: int)
    requires
        slot_claim(held) is Some,
    ensures
        slot_return(slot_claim(held)->0) == held,
{
}

/// What became of a run request.
#[derive(Debug)]
pub enum Dispatch {
    Started,
    UnknownProfile,
    AtCapacity,
    /// No thread started; the claimed slot has to be handed back.
    SpawnFailed(String),
}

/// What a request comes to once a slot was claimed and a worker spawned.
pub open spec fn spawned(answer: Result<(), String>) -> Dispatch {
    match answer {
        Ok(()) => Dispatch::Started,
        Err(e) => Dispatch::SpawnFailed(e),
    }
}

impl Dispatch {
    /// Whether the sender learns that the profile was started.
    pub fn is_accepted(&self) -> (r: bool)
        ensures
            r == (*self is Started),
    {
        match self {
            Dispatch::Started => true,
            _ => false,
        }
    }

    /// Whether a claimed slot is left without a worker.
    pub fn returns_slot(&self) -> (r: bool)
        ensures
            r == (*self is SpawnFailed),
    {
        match self {
            Dispatch::SpawnFailed(_) => true,
            _ => false,
        }
    }

    /// What is logged of it.
    pub fn log_line(&self) -> (r: Option<String>)
        ensures
            match *self {
                Dispatch::Started | Dispatch::UnknownProfile => r is None,
                Dispatch::AtCapacity => r matches Some(line) && line@
                    == "[resident] rejected run request: "@ + decimal(
                    MAX_CONCURRENT_WORKERS as nat,
                ) + " workers already active"@,
                Dispatch::SpawnFailed(e) => r matches Some(line) && line@
                    == "[resident] failed to spawn a profile worker: "@ + e@,
            },
    {
        match self {
            Dispatch::Started => None,
            Dispatch::UnknownProfile => None,
            Dispatch::AtCapacity => Some(
                "[resident] rejected run request: ".to_owned().concat(
                    decimal_text(MAX_CONCURRENT_WORKERS as u64).as_str(),
                ).concat(" workers already active"),
            ),
            Dispatch::SpawnFailed(e) => Some(
                "[resident] failed to spawn a profile worker: ".to_owned().concat(e.as_str()),
            ),
        }
    }
}

/// What dispatching a run request comes to, by what the two answered.
pub open spec fn dispatched<C: FnOnce() -> bool, S: FnOnce(&str) -> Result<(), String>>(
    config: ConfigView,
    profile_id: &str,
    claim: C,
    start: S,
    r: Dispatch,
) -> bool {
    if is_named(config.profiles, profile_id@) {
        ||| call_ensures(claim, (), false) && r is AtCapacity
        ||| call_ensures(claim, (), true) && exists|answer: Result<(), String>| #[trigger]
            call_ensures(start, (profile_id,), answer) && r == spawned(answer)
    } else {
        r is UnknownProfile
    }
}

/// Dispatches an IPC run request onto a detached worker: `claim` claims a
/// worker slot and says whether there was one, `start` spawns the worker for
/// the id. Nothing is claimed for an id that names no profile, and nothing
/// is started without a slot.
///
/// The profile's existence is checked before spawning: inside the window
/// proc, work must stay trivial so the sender's SendMessageW returns
/// quickly.
pub fn dispatch_profile<C: FnOnce() -> bool, S: FnOnce(&str) -> Result<(), String>>(
    config: &Config,
    profile_id: &str,
    claim: C,
    start: S,
) -> (r: Dispatch)
    requires
        is_named(config@.profiles, profile_id@) ==> call_requires(claim, ()),
        is_named(config@.profiles, profile_id@) && call_ensures(claim, (), true) ==> call_requires(
            start,
            (profile_id,),
        ),
    ensures
        dispatched(config@, profile_id, claim, start, r),
{
    match find_profile(config, profile_id) {
        None => Dispatch::UnknownProfile,
        Some(_) => {
            let claimed = claim();
            if !claimed {
                return Dispatch::AtCapacity;
            }
            let answer = start(profile_id);
            let ghost seen = answer;
            assert(call_ensures(start, (profile_id,), seen));
            match answer {
                Ok(()) => Dispatch::Started,
                Err(e) => Dispatch::SpawnFailed(e),
            }
        },
    }
}

/// An accepted request has a slot and a worker that was started for its id.
/// That worker finds the profile, and hands its enabled actions to the
/// launcher once each, in order, and nothing else.
pub proof fn an_accepted_request_runs_its_profile<
    C: FnOnce() -> bool,
    S: FnOnce(&str) -> Result<(), String>,
    L: Launcher,
>(
    config: ConfigView,
    profile_id: &str,
    claim: C,
    start: S,
    before: L,
    r: Option<ProfileResult>,
    after: L,
)
    requires
        dispatched(config, profile_id, claim, start, Dispatch::Started),
        worker_ran(config, profile_id@, before, r, after),
    ensures
        call_ensures(claim, (), true),
        call_ensures(start, (profile_id,), Ok::<(), String>(())),
        r is Some,
        exists|i: int| #[trigger]
            is_first_named(config.profiles, profile_id@, i) && after.launched()
                == before.launched() + enabled(config.profiles[i].actions) && ran(
                before,
                config.profiles[i],
                r->0,
                after,
            ),
{
    let answer = choose|answer: Result<(), String>| #[trigger]
        call_ensures(start, (profile_id,), answer) && Dispatch::Started == spawned(answer);
    assert(answer->Ok_0 == ());
}

// ---------- starting up ----------

/// What starting the resident does next.
#[derive(Debug)]
pub enum StartStep {
    /// Resolve the path of the config and load it.
    LoadConfig,
    /// Load the tray icon.
    LoadIcon,
    /// Claim the single-instance mutex. Done before the window exists so a
    /// second instance cannot race into creating a duplicate window.
    ClaimInstance,
    /// Create the message-only window.
    CreateWindow,
    /// Register the tray icon.
    AddTray,
    /// Register for Explorer's TaskbarCreated broadcast, so the tray icon can
    /// be added again. The line is to be logged first.
    WatchTaskbar { line: Option<String> },
    /// Block in the message loop until the window is closed.
    MessageLoop,
    /// The resident has ended.
    Ended { result: Result<(), ResidentError> },
}

/// What is logged of a tray icon that could not be registered.
pub open spec fn tray_failed_line(e: ResidentError) -> Seq<char> {
    "[resident] tray icon registration failed, continuing without it: "@ + resident_error_text(e)
}

/// The step after `step` ended with `outcome`.
pub open spec fn start_after(
    step: StartStep,
    outcome: Result<(), ResidentError>,
    next: StartStep,
) -> bool {
    match (step, outcome) {
        (StartStep::LoadConfig, Ok(())) => next is LoadIcon,
        (StartStep::LoadIcon, Ok(())) => next is ClaimInstance,
        (StartStep::ClaimInstance, Ok(())) => next is CreateWindow,
        (StartStep::CreateWindow, Ok(())) => next is AddTray,
        (StartStep::AddTray, Ok(())) => next == (StartStep::WatchTaskbar { line: None }),
        (StartStep::AddTray, Err(e)) => {
            next matches StartStep::WatchTaskbar { line: Some(text) } && text@
                == tray_failed_line(e)
        },
        (StartStep::WatchTaskbar { .. }, Ok(())) => next is MessageLoop,
        (StartStep::Ended { result }, _) => next == (StartStep::Ended { result }),
        (_, result) => next == (StartStep::Ended { result }),
    }
}

/// Starts the resident: loads the config, claims the single-instance mutex,
/// creates the message-only window, registers the tray icon when the taskbar
/// is ready to accept it, then blocks in the message loop until the window is
/// closed. This is the first step; `StartStep::next` gives the others.
pub fn run() -> (r: StartStep)
    ensures
        r is LoadConfig,
{
    StartStep::LoadConfig
}

impl StartStep {
    /// The step after this one ended with `outcome`.
    ///
    /// Adding the icon legitimately fails when the resident starts before
    /// Explorer (e.g. a logon autostart while the taskbar is not up yet).
    /// That must not abort startup: the message loop works without a tray
    /// icon and the TaskbarCreated broadcast adds it once Explorer is up.
    pub fn next(self, outcome: Result<(), ResidentError>) -> (r: StartStep)
        ensures
            start_after(self, outcome, r),
    {
        match (self, outcome) {
            (StartStep::LoadConfig, Ok(())) => StartStep::LoadIcon,
            (StartStep::LoadIcon, Ok(())) => StartStep::ClaimInstance,
            (StartStep::ClaimInstance, Ok(())) => StartStep::CreateWindow,
            (StartStep::CreateWindow, Ok(())) => StartStep::AddTray,
            (StartStep::AddTray, Ok(())) => StartStep::WatchTaskbar { line: None },
            (StartStep::AddTray, Err(e)) => {
                let line =
                    "[resident] tray icon registration failed, continuing without it: ".to_owned().concat(
                e.message().as_str());
                StartStep::WatchTaskbar { line: Some(line) }
            },
            (StartStep::WatchTaskbar { .. }, Ok(())) => StartStep::MessageLoop,
            (StartStep::Ended { result }, _) => StartStep::Ended { result },
            (_, result) => StartStep::Ended { result },
        }
    }
}

/// What is printed when the message loop is entered.
pub fn ready_line(profiles: usize) -> (r: String)
    ensures
        r@ == "Resident started: "@ + decimal(profiles as nat)
            + " profile(s) loaded. Waiting for messages."@,
{
    "Resident started: ".to_owned().concat(decimal_text(profiles as u64).as_str()).concat(
        " profile(s) loaded. Waiting for messages.",
    )
}

/// The run of a start, with the outcomes that came in.
pub open spec fn start_run(
    steps: Seq<StartStep>,
    outcomes: Seq<Result<(), ResidentError>>,
) -> bool {
    &&& steps.len() == outcomes.len() + 1
    &&& steps[0] is LoadConfig
    &&& forall|i: int|
        0 <= i < outcomes.len() ==> start_after(#[trigger] steps[i], outcomes[i], steps[i + 1])
}

/// The resident waits for messages exactly when the config was loaded, the
/// icon too, the instance was claimed, the window created and the broadcast
/// registered; whether there is a tray icon does not matter.
pub proof fn waits_when_everything_but_the_tray_succeeded(
    steps: Seq<StartStep>,
    outcomes: Seq<Result<(), ResidentError>>,
)
    requires
        start_run(steps, outcomes),
        outcomes.len() >= 6,
    ensures
        steps[6] is MessageLoop <==> {
            &&& outcomes[0] is Ok
            &&& outcomes[1] is Ok
            &&& outcomes[2] is Ok
            &&& outcomes[3] is Ok
            &&& outcomes[5] is Ok
        },
        outcomes[2] matches Err(e) && outcomes[0] is Ok && outcomes[1] is Ok ==> steps[3]
            == (StartStep::Ended { result: outcomes[2] }),
{
    assert(start_after(steps[0], outcomes[0], steps[1]));
    assert(start_after(steps[1], outcomes[1], steps[2]));
    assert(start_after(steps[2], outcomes[2], steps[3]));
    assert(start_after(steps[3], outcomes[3], steps[4]));
    assert(start_after(steps[4], outcomes[4], steps[5]));
    assert(start_after(steps[5], outcomes[5], steps[6]));
}

// ---------- requests ----------

/// How many units of a WM_COPYDATA payload to copy out before it is decoded,
/// or `None` when there is nothing sound to copy: no data, an odd number of
/// bytes, or more than the protocol allows.
pub open spec fn copied_units(has_data: bool, byte_len: u32) -> Option<u32> {
    if has_data && byte_len != 0 && byte_len % 2 == 0 && byte_len <= MAX_IPC_BYTES {
        Some((byte_len / 2) as u32)
    } else {
        None
    }
}

/// How many units of a WM_COPYDATA payload to copy out before it is decoded.
pub fn copy_data_units(has_data: bool, byte_len: u32) -> (r: Option<u32>)
    ensures
        r == copied_units(has_data, byte_len),
{
    if !has_data || byte_len == 0 || byte_len % 2 != 0 || byte_len > MAX_IPC_BYTES {
        return None;
    }
    Some(byte_len / 2)
}

/// What reading a request comes to: the profile it asks for when that is a
/// GUID, else what is logged of the refusal.
pub open spec fn asks_for(decoded: Result<IpcRequest, IpcError>, r: Result<String, String>) -> bool {
    match decoded {
        Err(e) => r matches Err(line) && line@ == "[resident] rejected IPC payload: "@
            + ipc_error_text(e),
        Ok(IpcRequest::RunProfile { profile }) => if is_guid(profile@) {
            r == Ok::<String, String>(profile)
        } else {
            r matches Err(line) && line@ == "[resident] rejected IPC request: "@ + debug_text(
                profile@,
            ) + " is not a GUID"@
        },
    }
}

/// The profile that a payload asks for, or what is logged of the refusal.
/// `read` reads a request from its JSON document.
pub fn requested_profile<P: FnOnce(&str) -> Result<IpcRequest, String>>(
    dw_data: usize,
    data: &[u16],
    read: P,
) -> (r: Result<String, String>)
    requires
        forall|text: &str|
            payload(dw_data, data@) == Ok::<Seq<char>, IpcError>(text@) ==> call_requires(
                read,
                (text,),
            ),
    ensures
        exists|decoded: Result<IpcRequest, IpcError>| #[trigger]
            decode_gives(dw_data, data@, read, decoded) && asks_for(decoded, r),
{
    let decoded = decode(dw_data, data, read);
    let ghost seen = decoded;
    assert(decode_gives(dw_data, data@, read, seen));
    match decoded {
        Err(e) => Err(
            "[resident] rejected IPC payload: ".to_owned().concat(e.message().as_str()),
        ),
        Ok(IpcRequest::RunProfile { profile }) => {
            if is_valid_guid(profile.as_str()) {
                Ok(profile)
            } else {
                Err(
                    "[resident] rejected IPC request: ".to_owned().concat(
                        debug_string(profile.as_str()).as_str(),
                    ).concat(" is not a GUID"),
                )
            }
        },
    }
}

/// What a request that was dispatched is answered, and what is logged.
pub open spec fn is_request_answer(
    dispatch: Dispatch,
    profile: Seq<char>,
    r: (isize, Option<String>),
) -> bool {
    if dispatch is Started {
        r.0 == 1 && r.1 is None
    } else {
        &&& r.0 == 0
        &&& r.1 matches Some(line) && line@ == "[resident] rejected IPC run request for profile "@
            + profile
    }
}

/// What the window proc answers to a request that reached `dispatch_profile`,
/// and what it logs: nonzero when the request was accepted, so the sender can
/// tell "handed off" from "rejected".
pub fn request_answer(dispatch: &Dispatch, profile: &str) -> (r: (isize, Option<String>))
    ensures
        is_request_answer(*dispatch, profile@, r),
{
    if dispatch.is_accepted() {
        (1, None)
    } else {
        (0, Some("[resident] rejected IPC run request for profile ".to_owned().concat(profile)))
    }
}

/// What a request is answered that goes to `dispatch`: by what became of it.
pub open spec fn dispatch_answered<D: FnOnce(&str) -> Dispatch>(
    dispatch: D,
    profile: Seq<char>,
    r: (isize, Option<String>),
) -> bool {
    exists|id: &str, became: Dispatch|
        id@ == profile && #[trigger] call_ensures(dispatch, (id,), became) && is_request_answer(
            became,
            profile,
            r,
        )
}

/// What a request is answered once it was read: 0 with the refusal that was
/// logged of it, 0 without the resident's context, else by `dispatch`.
pub open spec fn read_answered<D: FnOnce(&str) -> Dispatch>(
    asked: Result<String, String>,
    live: bool,
    dispatch: D,
    r: (isize, Option<String>),
) -> bool {
    match asked {
        Err(line) => r.0 == 0 && r.1 == Some(line),
        Ok(profile) => if live {
            dispatch_answered(dispatch, profile@, r)
        } else {
            r.0 == 0 && r.1 is None
        },
    }
}

/// Whether a payload may be read as a request for this profile.
pub open spec fn may_ask_for<P: FnOnce(&str) -> Result<IpcRequest, String>>(
    dw_data: usize,
    data: Seq<u16>,
    read: P,
    profile: Seq<char>,
) -> bool {
    exists|decoded: Result<IpcRequest, IpcError>| #[trigger]
        decode_gives(dw_data, data, read, decoded) && (decoded matches Ok(
            IpcRequest::RunProfile { profile: p },
        ) && p@ == profile && is_guid(profile))
}

/// Answers a WM_COPYDATA message, and says what is logged. `data` is what was
/// copied out of the message, `read` reads a request from its JSON document,
/// `live` says whether the window still has the resident's context, and
/// `dispatch` dispatches a request. The answer is nonzero exactly when the
/// payload may be copied, its envelope is sound, it asks for a GUID, the
/// context is there and a worker was started.
pub fn answer_request<
    P: FnOnce(&str) -> Result<IpcRequest, String>,
    D: FnOnce(&str) -> Dispatch,
>(
    has_data: bool,
    byte_len: u32,
    dw_data: usize,
    data: &[u16],
    read: P,
    live: bool,
    dispatch: D,
) -> (r: (isize, Option<String>))
    requires
        copied_units(has_data, byte_len) is Some ==> forall|text: &str|
            payload(dw_data, data@) == Ok::<Seq<char>, IpcError>(text@) ==> call_requires(
                read,
                (text,),
            ),
        copied_units(has_data, byte_len) is Some && live ==> forall|id: &str|
            may_ask_for(dw_data, data@, read, id@) ==> #[trigger] call_requires(dispatch, (id,)),
    ensures
        match copied_units(has_data, byte_len) {
            None => r.0 == 0 && r.1 is None,
            Some(_) => exists|
                decoded: Result<IpcRequest, IpcError>,
                asked: Result<String, String>,
            | #[trigger]
                decode_gives(dw_data, data@, read, decoded) && #[trigger] asks_for(decoded, asked)
                    && read_answered(asked, live, dispatch, r),
        },
{
    if copy_data_units(has_data, byte_len).is_none() {
        return (0, None);
    }
    let asked = requested_profile(dw_data, data, read);
    let ghost seen = asked;
    let ghost decoded = choose|decoded: Result<IpcRequest, IpcError>| #[trigger]
        decode_gives(dw_data, data@, read, decoded) && asks_for(decoded, seen);
    assert(decode_gives(dw_data, data@, read, decoded) && asks_for(decoded, seen));
    let profile = match asked {
        Err(line) => {
            return (0, Some(line));
        },
        Ok(profile) => profile,
    };
    if !live {
        return (0, None);
    }
    let id = profile.as_str();
    assert(may_ask_for(dw_data, data@, read, id@));
    let became = dispatch(id);
    let r = request_answer(&became, id);
    assert(call_ensures(dispatch, (id,), became) && is_request_answer(became, id@, r));
    r
}

/// A request is answered with a nonzero number exactly when it was read, asks
/// for a GUID, found the resident's context, and became a started worker; in
/// every other case the answer is 0.
pub proof fn accepted_exactly_when_started<D: FnOnce(&str) -> Dispatch>(
    decoded: Result<IpcRequest, IpcError>,
    asked: Result<String, String>,
    live: bool,
    dispatch: D,
    r: (isize, Option<String>),
)
    requires
        asks_for(decoded, asked),
        read_answered(asked, live, dispatch, r),
    ensures
        r.0 == 0 || r.0 == 1,
        r.0 != 0 ==> live && (decoded matches Ok(IpcRequest::RunProfile { profile }) && is_guid(
            profile@,
        ) && exists|id: &str| id@ == profile@ && #[trigger] call_ensures(
            dispatch,
            (id,),
            Dispatch::Started,
        )),
        r.0 == 0 ==> !live || match decoded {
            Err(_) => true,
            Ok(IpcRequest::RunProfile { profile }) => !is_guid(profile@) || exists|
                id: &str,
                became: Dispatch,
            |
                id@ == profile@ && !(became is Started) && #[trigger] call_ensures(
                    dispatch,
                    (id,),
                    became,
                ),
        },
{
}

// ---------- window messages ----------

pub const WM_DESTROY: u32 = 0x0002;

pub const WM_CLOSE: u32 = 0x0010;

pub const WM_COPYDATA: u32 = 0x004A;

pub const WM_CONTEXTMENU: u32 = 0x007B;

pub const WM_RBUTTONUP: u32 = 0x0205;

/// What a message to the resident's window asks for.
#[derive(Debug, Clone, Copy, PartialEq, Eq, Structural)]
pub enum WindowEvent {
    /// Read the request and answer it.
    CopyData,
    /// Show the tray menu.
    TrayMenu,
    /// A mouse event on the tray icon that means nothing.
    Ignore,
    /// Explorer restarted (or finally came up): add the tray icon again.
    RestoreTray,
    /// Destroy the window.
    Close,
    /// Let go of the context and leave the message loop.
    Quit,
    /// Everything else is the default handler's.
    Default,
}

/// What a message to the resident's window asks for.
pub open spec fn window_event_of(msg: u32, event: u32, taskbar_created: u32) -> WindowEvent {
    if msg == WM_COPYDATA {
        WindowEvent::CopyData
    } else if msg == WM_TRAYICON {
        if event == WM_RBUTTONUP || event == WM_CONTEXTMENU {
            WindowEvent::TrayMenu
        } else {
            WindowEvent::Ignore
        }
    } else if taskbar_created != 0 && msg == taskbar_created {
        WindowEvent::RestoreTray
    } else if msg == WM_CLOSE {
        WindowEvent::Close
    } else if msg == WM_DESTROY {
        WindowEvent::Quit
    } else {
        WindowEvent::Default
    }
}

/// Sorts a message to the resident's window. `event` is the low half of
/// `lparam`, the mouse message for a tray callback; `taskbar_created` is the
/// id that TaskbarCreated was registered under, zero before that.
pub fn window_event(msg: u32, event: u32, taskbar_created: u32) -> (r: WindowEvent)
    ensures
        r == window_event_of(msg, event, taskbar_created),
{
    if msg == WM_COPYDATA {
        return WindowEvent::CopyData;
    }
    if msg == WM_TRAYICON {
        if event == WM_RBUTTONUP || event == WM_CONTEXTMENU {
            return WindowEvent::TrayMenu;
        }
        return WindowEvent::Ignore;
    }
    if taskbar_created != 0 && msg == taskbar_created {
        return WindowEvent::RestoreTray;
    }
    if msg == WM_CLOSE {
        return WindowEvent::Close;
    }
    if msg == WM_DESTROY {
        return WindowEvent::Quit;
    }
    WindowEvent::Default
}

/// What the message loop does after GetMessageW: `None` to dispatch the
/// message and go on, otherwise how the loop ends.
pub fn loop_end(result: i32, code: u32) -> (r: Option<Result<(), ResidentError>>)
    ensures
        match r {
            None => result != 0 && result != -1,
            Some(Ok(())) => result == 0,
            Some(Err(e)) => {
                result == -1 && is_win32(e, "GetMessageW"@, code)
            },
        },
{
    if result == 0 {
        return Some(Ok(()));
    }
    if result == -1 {
        return Some(called("GetMessageW", true, code));
    }
    None
}

/// Whether an error is the given call's with the given code.
pub open spec fn is_win32(e: ResidentError, api: Seq<char>, code: u32) -> bool {
    e matches ResidentError::Win32 { api: a, code: c } && a@ == api && c == code
}

/// The outcome of a Win32 call: `code` is GetLastError() right after it.
pub fn called(api: &'static str, failed: bool, code: u32) -> (r: Result<(), ResidentError>)
    ensures
        match r {
            Ok(()) => !failed,
            Err(e) => failed && is_win32(e, api@, code),
        },
{
    if failed {
        return Err(ResidentError::Win32 { api, code });
    }
    Ok(())
}

/// What creating the message-only window does next.
#[derive(Debug)]
pub enum WindowStep {
    /// Get the handle of the running module.
    Module,
    /// Register the window class.
    Class,
    /// Create the window.
    Window,
    /// Remove the registered class, so a failed create leaves nothing behind.
    Unregister { error: ResidentError },
    /// Attach the context, so that the window proc can reach it.
    Attach,
    Made,
    Failed { error: ResidentError },
}

/// The step after `step`, which failed with `code` or did not.
pub open spec fn window_after(step: WindowStep, failed: bool, code: u32, next: WindowStep) -> bool {
    match step {
        WindowStep::Module => if failed {
            next matches WindowStep::Failed { error } && is_win32(error, "GetModuleHandleW"@, code)
        } else {
            next is Class
        },
        WindowStep::Class => if failed {
            next matches WindowStep::Failed { error } && is_win32(error, "RegisterClassW"@, code)
        } else {
            next is Window
        },
        WindowStep::Window => if failed {
            next matches WindowStep::Unregister { error } && is_win32(
                error,
                "CreateWindowExW"@,
                code,
            )
        } else {
            next is Attach
        },
        WindowStep::Unregister { error } => next == (WindowStep::Failed { error }),
        WindowStep::Attach => next is Made,
        WindowStep::Made => next is Made,
        WindowStep::Failed { error } => next == (WindowStep::Failed { error }),
    }
}

impl WindowStep {
    /// The step after this one: `failed` is whether its call failed, and
    /// `code` GetLastError() right after it, before another call can
    /// overwrite it.
    pub fn next(self, failed: bool, code: u32) -> (r: WindowStep)
        ensures
            window_after(self, failed, code, r),
    {
        match self {
            WindowStep::Module => match called("GetModuleHandleW", failed, code) {
                Ok(()) => WindowStep::Class,
                Err(error) => WindowStep::Failed { error },
            },
            WindowStep::Class => match called("RegisterClassW", failed, code) {
                Ok(()) => WindowStep::Window,
                Err(error) => WindowStep::Failed { error },
            },
            WindowStep::Window => match called("CreateWindowExW", failed, code) {
                Ok(()) => WindowStep::Attach,
                Err(error) => WindowStep::Unregister { error },
            },
            WindowStep::Unregister { error } => WindowStep::Failed { error },
            WindowStep::Attach => WindowStep::Made,
            WindowStep::Made => WindowStep::Made,
            WindowStep::Failed { error } => WindowStep::Failed { error },
        }
    }
}

/// Whether the window class is registered after a step, given whether it was
/// before.
pub open spec fn class_registered(before: bool, done: WindowStep, failed: bool) -> bool {
    match done {
        WindowStep::Class => !failed,
        WindowStep::Unregister { .. } => false,
        _ => before,
    }
}

/// The class is registered exactly while the window is being created or is
/// made: a creation that failed leaves none behind.
pub proof fn failed_windows_leave_no_class(
    step: WindowStep,
    failed: bool,
    code: u32,
    next: WindowStep,
    registered: bool,
)
    requires
        window_after(step, failed, code, next),
        registered == (step is Window || step is Unregister || step is Attach || step is Made),
    ensures
        class_registered(registered, step, failed) == (next is Window || next is Unregister
            || next is Attach || next is Made),
{
}

/// CreateMutexW's code for a mutex that was there already.
pub const ERROR_ALREADY_EXISTS: u32 = 183;

/// Whether CreateMutexW made this the single instance. `null` is whether it
/// gave no handle, `code` GetLastError() read right after it: an existing
/// mutex is reported that way while a valid handle is still given.
pub fn instance_claimed(null: bool, code: u32) -> (r: Result<(), ResidentError>)
    ensures
        match r {
            Ok(()) => !null && code != ERROR_ALREADY_EXISTS,
            Err(e) => if null {
                is_win32(e, "CreateMutexW"@, code)
            } else {
                code == ERROR_ALREADY_EXISTS && e is AlreadyRunning
            },
        },
{
    if null {
        return called("CreateMutexW", true, code);
    }
    if code == ERROR_ALREADY_EXISTS {
        return Err(ResidentError::AlreadyRunning);
    }
    Ok(())
}

/// The units to put into a tip field of `size` units that is zero before, so
/// that it stays NUL-terminated however long the tip is.
pub fn tray_tip(size: usize) -> (r: Vec<u16>)
    requires
        size > 0,
    ensures
        r@ == wide("Project Launcher"@).take(
            if wide("Project Launcher"@).len() < size {
                wide("Project Launcher"@).len() as int
            } else {
                size - 1
            },
        ),
{
    let tip = encode_wide("Project Launcher");
    let n: usize = if tip.len() < size {
        tip.len()
    } else {
        size - 1
    };
    let mut r: Vec<u16> = Vec::new();
    let mut i: usize = 0;
    while i < n
        invariant
            i <= n <= tip@.len(),
            r@ == tip@.take(i as int),
        decreases n - i,
    {
        r.push(tip[i]);
        i += 1;
    }
    r
}

/// Nothing gets as far as a worker but a request for a profile by its GUID,
/// in a payload that is within the protocol's limit.
pub proof fn only_sound_requests_are_read(
    has_data: bool,
    byte_len: u32,
    decoded: Result<IpcRequest, IpcError>,
    asked: Result<String, String>,
)
    requires
        asks_for(decoded, asked),
    ensures
        copied_units(has_data, byte_len) matches Some(units) ==> has_data && 0 < byte_count(
            units as nat,
        ) <= MAX_IPC_BYTES && byte_count(units as nat) == byte_len,
        asked matches Ok(profile) ==> is_guid(profile@) && decoded == Ok::<IpcRequest, IpcError>(
            IpcRequest::RunProfile { profile },
        ),
{
}

/// A run request that a frontend sends for a GUID is read by the resident as
/// a request for that GUID: the payload is copied out whole, and asks for it.
pub proof fn a_sent_request_asks_for_its_profile<P: FnOnce(&str) -> Result<IpcRequest, String>>(
    id: Seq<char>,
    read: P,
    decoded: Result<IpcRequest, IpcError>,
    asked: Result<String, String>,
)
    requires
        is_guid(id),
        reads_requests(read),
        decode_gives(IPC_MAGIC, wide(run_profile_json(id)), read, decoded),
        asks_for(decoded, asked),
    ensures
        ({
            let sent = wide(run_profile_json(id)).len();
            copied_units(true, (2 * sent) as u32) == Some(sent as u32)
        }),
        asked matches Ok(profile) && profile@ == id,
{
    every_profile_can_be_asked_for(id);
    requests_survive_the_way(id, read, decoded);
}

} // verus!
