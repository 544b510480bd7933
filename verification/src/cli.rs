//! What the command line reports, and its exit codes.
//!
//! Exit codes:
//!   0  all enabled actions were handed to Windows successfully, a profile
//!      run request was forwarded to the resident, the resident exited
//!      normally, or a resident was already running
//!   1  one or more actions failed (partial or total profile failure)
//!   2  usage error, config error, resident/IPC failure, or shortcut error

use crate::args;
use crate::config::{Config, Profile};
use crate::ipc::{ipc_error_text, ForwardOutcome, IpcError};
use crate::number::{decimal, decimal_text};
use crate::profile::{
    all_succeeded, failures, find_profile, is_first_named, is_named, outcome_text, ActionOutcome,
    ProfileResult,
};
use crate::resident::{resident_error_text, ResidentError};
use crate::shortcut::{self, shortcut_error_text, ShortcutError};
use crate::storage::{config_error_text, ConfigError};
use crate::text::{debug_string, debug_text};
use vstd::prelude::*;
use vstd::string::*;

verus! {

pub const EXIT_SUCCESS: u8 = 0;

pub const EXIT_ACTIONS_FAILED: u8 = 1;

pub const EXIT_ERROR: u8 = 2;

/// How the program ends: a line for the standard output or for the standard
/// error, and the exit code.
#[derive(Debug)]
pub struct Exit {
    pub output: Option<String>,
    pub error: Option<String>,
    pub code: u8,
}

impl Exit {
    /// Ends with success and the given line.
    pub open spec fn is_success(self, line: Seq<char>) -> bool {
        &&& self.output matches Some(text) && text@ == line
        &&& self.error is None
        &&& self.code == EXIT_SUCCESS
    }

    /// Ends with an error and the given line.
    pub open spec fn is_error(self, line: Seq<char>) -> bool {
        &&& self.output is None
        &&& self.error matches Some(text) && text@ == line
        &&& self.code == EXIT_ERROR
    }
}

fn success(line: String) -> (r: Exit)
    ensures
        r.is_success(line@),
{
    Exit { output: Some(line), error: None, code: EXIT_SUCCESS }
}

/// Ends the program with an error.
pub fn fail(message: &str) -> (r: Exit)
    ensures
        r.is_error("error: "@ + message@),
{
    Exit { output: None, error: Some("error: ".to_owned().concat(message)), code: EXIT_ERROR }
}

/// How the program ends after the resident. A second instance is not an
/// error: the desired state (one resident running) already holds.
pub fn resident_exit(result: Result<(), ResidentError>) -> (r: Exit)
    ensures
        match result {
            Ok(()) => r.is_success("Resident stopped."@),
            Err(ResidentError::AlreadyRunning) => r.is_success(
                "A Project Launcher resident is already running."@,
            ),
            Err(e) => r.is_error("error: "@ + resident_error_text(e)),
        },
{
    match result {
        Ok(()) => success("Resident stopped.".to_owned()),
        Err(ResidentError::AlreadyRunning) => {
            success("A Project Launcher resident is already running.".to_owned())
        },
        Err(e) => fail(e.message().as_str()),
    }
}

/// How the program ends after a run request was handed to the resident;
/// `None` when there is no resident, and this process runs the profile
/// itself (headless use stays fully supported).
pub fn forwarded(id: &str, outcome: Result<ForwardOutcome, IpcError>) -> (r: Option<Exit>)
    ensures
        match outcome {
            Ok(ForwardOutcome::Delivered) => r matches Some(exit) && exit.is_success(
                "Forwarded the run request for profile "@ + id@ + " to the resident."@,
            ),
            Ok(ForwardOutcome::Rejected) => r matches Some(exit) && exit.is_error(
                "error: the resident rejected the request for profile "@ + id@
                    + " (unknown profile id, or blocked by UIPI integrity levels)"@,
            ),
            Ok(ForwardOutcome::NoResident) => r is None,
            Err(e) => r matches Some(exit) && exit.is_error("error: "@ + ipc_error_text(e)),
        },
{
    match outcome {
        Ok(ForwardOutcome::Delivered) => Some(
            success(
                "Forwarded the run request for profile ".to_owned().concat(id).concat(
                    " to the resident.",
                ),
            ),
        ),
        Ok(ForwardOutcome::Rejected) => {
            let line = "error: the resident rejected the request for profile ".to_owned().concat(
                id,
            ).concat(" (unknown profile id, or blocked by UIPI integrity levels)");
            Some(Exit { output: None, error: Some(line), code: EXIT_ERROR })
        },
        Ok(ForwardOutcome::NoResident) => None,
        Err(e) => Some(fail(e.message().as_str())),
    }
}

/// The profile that an id names in what loading the config gave, or how the
/// program ends without it.
pub fn chosen_profile<'a>(loaded: &'a Result<Config, ConfigError>, id: &str) -> (r: Result<
    &'a Profile,
    Exit,
>)
    ensures
        match *loaded {
            Err(e) => r matches Err(exit) && exit.is_error("error: "@ + config_error_text(e)),
            Ok(config) => match r {
                Ok(profile) => exists|i: int| #[trigger]
                    is_first_named(config@.profiles, id@, i) && *profile == config.profiles@[i],
                Err(exit) => !is_named(config@.profiles, id@) && exit.is_error(
                    "error: no profile with id "@ + debug_text(id@) + " in the config"@,
                ),
            },
        },
{
    match loaded {
        Err(e) => Err(fail(e.message().as_str())),
        Ok(config) => match find_profile(config, id) {
            Some(profile) => Ok(profile),
            None => {
                let line = "error: no profile with id ".to_owned().concat(
                    debug_string(id).as_str(),
                ).concat(" in the config");
                Err(Exit { output: None, error: Some(line), code: EXIT_ERROR })
            },
        },
    }
}

// ---------- running a profile ----------

/// The texts of some lines.
pub open spec fn line_views(lines: Seq<String>) -> Seq<Seq<char>> {
    Seq::new(lines.len(), |i: int| lines[i]@)
}

/// The line of each outcome.
pub open spec fn outcome_lines(outcomes: Seq<ActionOutcome>) -> Seq<Seq<char>> {
    Seq::new(outcomes.len(), |i: int| "  "@ + outcome_text(outcomes[i]))
}

/// The line on disabled actions, where there are any.
pub open spec fn skipped_lines(skipped: nat) -> Seq<Seq<char>> {
    if skipped > 0 {
        seq!["  ("@ + decimal(skipped) + " disabled action(s) skipped)"@]
    } else {
        Seq::empty()
    }
}

/// The line that sums a run up.
pub open spec fn summary_line(outcomes: Seq<ActionOutcome>) -> Seq<char> {
    if all_succeeded(outcomes) {
        "Profile finished: all "@ + decimal(outcomes.len()) + " action(s) succeeded."@
    } else {
        "Profile finished: "@ + decimal(failures(outcomes)) + " of "@ + decimal(outcomes.len())
            + " action(s) failed."@
    }
}

/// What is printed before a profile runs.
pub fn running_line(profile: &Profile) -> (r: String)
    ensures
        r@ == "Running profile '"@ + profile.name@ + "' ("@ + profile.id@ + ")"@,
{
    "Running profile '".to_owned().concat(profile.name.as_str()).concat("' (").concat(
        profile.id.as_str(),
    ).concat(")")
}

/// What is printed after a profile ran, and the exit code.
pub fn profile_report(result: &ProfileResult) -> (r: (Vec<String>, u8))
    ensures
        line_views(r.0@) == (outcome_lines(result.outcomes@) + skipped_lines(
            result.skipped_disabled as nat,
        )).push(summary_line(result.outcomes@)),
        r.1 == if all_succeeded(result.outcomes@) {
            EXIT_SUCCESS
        } else {
            EXIT_ACTIONS_FAILED
        },
{
    let mut lines: Vec<String> = Vec::new();
    let mut i: usize = 0;
    while i < result.outcomes.len()
        invariant
            i <= result.outcomes@.len(),
            line_views(lines@) == outcome_lines(result.outcomes@).take(i as int),
        decreases result.outcomes@.len() - i,
    {
        let ghost before = lines@;
        lines.push("  ".to_owned().concat(result.outcomes[i].text().as_str()));
        assert(line_views(lines@) =~= line_views(before).push(lines@.last()@));
        assert(outcome_lines(result.outcomes@).take(i + 1) =~= outcome_lines(
            result.outcomes@,
        ).take(i as int).push(outcome_lines(result.outcomes@)[i as int]));
        i += 1;
    }
    assert(line_views(lines@) =~= outcome_lines(result.outcomes@));
    if result.skipped_disabled > 0 {
        let ghost before = lines@;
        lines.push(
            "  (".to_owned().concat(decimal_text(result.skipped_disabled as u64).as_str()).concat(
                " disabled action(s) skipped)",
            ),
        );
        assert(line_views(lines@) =~= line_views(before).push(lines@.last()@));
        assert(outcome_lines(result.outcomes@) + skipped_lines(result.skipped_disabled as nat)
            =~= outcome_lines(result.outcomes@).push(
            skipped_lines(result.skipped_disabled as nat)[0],
        ));
    } else {
        assert(outcome_lines(result.outcomes@) + skipped_lines(result.skipped_disabled as nat)
            =~= outcome_lines(result.outcomes@));
    }
    let ghost before = lines@;
    if result.is_success() {
        lines.push(
            "Profile finished: all ".to_owned().concat(
                decimal_text(result.outcomes.len() as u64).as_str(),
            ).concat(" action(s) succeeded."),
        );
        assert(line_views(lines@) =~= line_views(before).push(lines@.last()@));
        (lines, EXIT_SUCCESS)
    } else {
        lines.push(
            "Profile finished: ".to_owned().concat(
                decimal_text(result.failure_count() as u64).as_str(),
            ).concat(" of ").concat(decimal_text(result.outcomes.len() as u64).as_str()).concat(
                " action(s) failed.",
            ),
        );
        assert(line_views(lines@) =~= line_views(before).push(lines@.last()@));
        (lines, EXIT_ACTIONS_FAILED)
    }
}

// ---------- creating shortcuts ----------

/// The places that a location stands for.
pub open spec fn places_of(location: args::ShortcutLocation) -> Seq<shortcut::ShortcutLocation> {
    match location {
        args::ShortcutLocation::Desktop => seq![shortcut::ShortcutLocation::Desktop],
        args::ShortcutLocation::StartMenu => seq![shortcut::ShortcutLocation::StartMenu],
        args::ShortcutLocation::Both => seq![
            shortcut::ShortcutLocation::Desktop,
            shortcut::ShortcutLocation::StartMenu,
        ],
    }
}

/// The places that a location stands for.
pub fn shortcut_places(location: args::ShortcutLocation) -> (r: Vec<shortcut::ShortcutLocation>)
    ensures
        r@ == places_of(location),
{
    let mut places: Vec<shortcut::ShortcutLocation> = Vec::new();
    match location {
        args::ShortcutLocation::Desktop => {
            places.push(shortcut::ShortcutLocation::Desktop);
        },
        args::ShortcutLocation::StartMenu => {
            places.push(shortcut::ShortcutLocation::StartMenu);
        },
        args::ShortcutLocation::Both => {
            places.push(shortcut::ShortcutLocation::Desktop);
            places.push(shortcut::ShortcutLocation::StartMenu);
        },
    }
    assert(places@ =~= places_of(location));
    places
}

/// A profile's shortcuts on their way: the places that were asked for, and
/// what creating one gave at each place tried so far. All requested places
/// are attempted so one failure still leaves the other place written.
#[derive(Debug)]
pub struct ShortcutRun {
    pub location: args::ShortcutLocation,
    /// The path that was written, or why none was, in the order of the places.
    pub made: Vec<Result<String, ShortcutError>>,
}

impl ShortcutRun {
    /// Whether no place was tried that was not asked for.
    pub open spec fn well_formed(self) -> bool {
        self.made@.len() <= places_of(self.location).len()
    }

    /// The place to try next, where one is left.
    pub open spec fn next_place(self) -> Option<shortcut::ShortcutLocation> {
        if self.made@.len() < places_of(self.location).len() {
            Some(places_of(self.location)[self.made@.len() as int])
        } else {
            None
        }
    }

    /// No place was tried yet.
    pub fn new(location: args::ShortcutLocation) -> (r: ShortcutRun)
        ensures
            r.well_formed(),
            r.location == location,
            r.made@.len() == 0,
    {
        ShortcutRun { location, made: Vec::new() }
    }

    /// The place to try next, where one is left.
    pub fn next(&self) -> (r: Option<shortcut::ShortcutLocation>)
        ensures
            r == self.next_place(),
    {
        let places = shortcut_places(self.location);
        if self.made.len() < places.len() {
            Some(places[self.made.len()])
        } else {
            None
        }
    }

    /// Takes what creating a shortcut at the next place gave.
    pub fn record(&mut self, made: Result<String, ShortcutError>)
        requires
            old(self).well_formed(),
            old(self).next_place() is Some,
        ensures
            final(self).well_formed(),
            final(self).location == old(self).location,
            final(self).made@ == old(self).made@.push(made),
    {
        self.made.push(made);
    }
}

/// Trying one place more: there was one left, and its result comes behind
/// the others.
pub open spec fn one_place_tried(before: ShortcutRun, after: ShortcutRun) -> bool {
    &&& before.next_place() is Some
    &&& after.location == before.location
    &&& exists|one: Result<String, ShortcutError>| after.made@ == #[trigger] before.made@.push(one)
}

/// However creating the shortcuts goes, every place that was asked for is
/// tried once, in order, before none is left.
pub proof fn every_place_is_tried(location: args::ShortcutLocation, runs: Seq<ShortcutRun>)
    requires
        runs.len() > 0,
        runs[0].location == location,
        runs[0].made@.len() == 0,
        forall|j: int, k: int|
            0 <= j && k == j + 1 && k < runs.len() ==> one_place_tried(
                #[trigger] runs[j],
                #[trigger] runs[k],
            ),
        runs.last().next_place() is None,
    ensures
        runs.len() == places_of(location).len() + 1,
        forall|k: int|
            0 <= k < runs.len() - 1 ==> (#[trigger] runs[k]).next_place() == Some(
                places_of(location)[k],
            ),
        runs.last().made@.len() == places_of(location).len(),
{
    assert forall|k: int| 0 <= k < runs.len() implies (#[trigger] runs[k]).location == location
        && runs[k].made@.len() == k by {
        tried_so_far(location, runs, k);
    }
    let last = runs.len() - 1;
    if last > 0 {
        assert(one_place_tried(runs[last - 1], runs[last]));
    }
    assert forall|k: int| 0 <= k < last implies (#[trigger] runs[k]).next_place() == Some(
        places_of(location)[k],
    ) by {
        assert(one_place_tried(runs[k], runs[k + 1]));
    }
}

proof fn tried_so_far(location: args::ShortcutLocation, runs: Seq<ShortcutRun>, k: int)
    requires
        0 <= k < runs.len(),
        runs[0].location == location,
        runs[0].made@.len() == 0,
        forall|i: int, j: int|
            0 <= i && j == i + 1 && j < runs.len() ==> one_place_tried(
                #[trigger] runs[i],
                #[trigger] runs[j],
            ),
    ensures
        runs[k].location == location,
        runs[k].made@.len() == k,
    decreases k,
{
    if k > 0 {
        tried_so_far(location, runs, k - 1);
        assert(one_place_tried(runs[k - 1], runs[k]));
    }
}

/// Whether every shortcut was created.
pub open spec fn all_created(made: Seq<Result<String, ShortcutError>>) -> bool {
    forall|i: int| 0 <= i < made.len() ==> (#[trigger] made[i]) is Ok
}

/// A line on one shortcut, for the standard output when it was created and
/// for the standard error when it was not.
pub open spec fn is_shortcut_line(
    made: Result<String, ShortcutError>,
    line: Result<String, String>,
) -> bool {
    match made {
        Ok(path) => line matches Ok(text) && text@ == "Created "@ + path@,
        Err(e) => line matches Err(text) && text@ == "error: "@ + shortcut_error_text(e),
    }
}

/// What is printed on each shortcut, and the exit code.
pub fn shortcut_report(made: &Vec<Result<String, ShortcutError>>) -> (r: (
    Vec<Result<String, String>>,
    u8,
))
    ensures
        r.0@.len() == made@.len(),
        forall|i: int| 0 <= i < made@.len() ==> is_shortcut_line(made@[i], #[trigger] r.0@[i]),
        r.1 == if all_created(made@) {
            EXIT_SUCCESS
        } else {
            EXIT_ERROR
        },
{
    let mut lines: Vec<Result<String, String>> = Vec::new();
    let mut code: u8 = EXIT_SUCCESS;
    let mut i: usize = 0;
    while i < made.len()
        invariant
            i <= made@.len(),
            lines@.len() == i,
            forall|j: int| 0 <= j < i ==> is_shortcut_line(made@[j], #[trigger] lines@[j]),
            code == if forall|j: int| 0 <= j < i ==> (#[trigger] made@[j]) is Ok {
                EXIT_SUCCESS
            } else {
                EXIT_ERROR
            },
        decreases made@.len() - i,
    {
        match &made[i] {
            Ok(path) => {
                lines.push(Ok("Created ".to_owned().concat(path.as_str())));
            },
            Err(e) => {
                lines.push(Err("error: ".to_owned().concat(e.message().as_str())));
                code = EXIT_ERROR;
                assert(made@[i as int] is Err);
            },
        }
        i += 1;
    }
    (lines, code)
}

} // verus!
