//! Run requests and the resident that serves them.

use crate::actions::{ActionError, Launch};
use crate::config::{Action, Config, Profile};
use crate::ipc::{
    body, decode, decodes_to, encode, every_profile_can_be_asked_for, forward_outcome,
    forward_run_profile, ipc_error_text, json_string, payload_text, run_profile_json,
    ForwardOutcome, IpcError, IpcRequest,
};
use crate::laws::runs::{guid_forms, keys_name_profiles, looks_like_a_guid, same_profile};
use crate::number::decimal;
use crate::profile::{is_first_named, is_named, ran, Launcher, ProfileResult};
use crate::resident::{
    answer_request, asks_for, called, claim_worker, copy_data_units, dispatch_profile,
    finished_line, instance_claimed, launch_action, loop_end, ready_line, release_worker,
    request_answer, requested_profile, resident_error_text, run_profile, started_line, tray_tip,
    window_event, Dispatch, ResidentError, ResidentState, StartStep, WindowEvent, WindowStep,
};
use crate::storage::{config_error_text, ConfigError};
use crate::utf16::{utf16, utf16_of_utf16_text, utf16_text_of_utf16, wide};
use std::sync::Arc;
use vstd::prelude::*;
use vstd::string::*;

verus! {

// ---------- the payload ----------

/// A request for a profile is its GUID in a document of the protocol, in
/// units that end in NUL.
pub proof fn requests_hold_the_id(request: &IpcRequest, id: String, r: Result<Vec<u16>, IpcError>)
    requires
        call_ensures(encode, (request,), r),
        *request == (IpcRequest::RunProfile { profile: id }),
        looks_like_a_guid(id@),
    ensures
        r is Ok,
        r->Ok_0@ == wide("{\"type\":\"run_profile\",\"profile\":\""@ + id@ + "\"}"@),
        2 * r->Ok_0@.len() <= 8192,
{
    guid_forms(id@);
    every_profile_can_be_asked_for(id@);
}

/// Whatever a request asks for stands in its document as a JSON string.
pub proof fn requests_hold_json_strings(
    request: &IpcRequest,
    id: String,
    r: Result<Vec<u16>, IpcError>,
)
    requires
        call_ensures(encode, (request,), r),
        *request == (IpcRequest::RunProfile { profile: id }),
    ensures
        r is Ok,
        r->Ok_0@ == wide("{\"type\":\"run_profile\",\"profile\":"@ + json_string(id@) + "}"@),
{
}

/// A payload is read exactly when it has the tag of the protocol, holds at
/// most 8192 bytes, and holds a text before a last NUL, if there is one. That
/// text is the one whose units it holds.
pub proof fn sound_payloads_are_read(
    tag: usize,
    data: &[u16],
    r: Result<String, IpcError>,
    text: Seq<char>,
)
    requires
        call_ensures(payload_text, (tag, data), r),
        text.len() > 0,
        data@.len() > 0,
        data@.last() == 0 ==> utf16(text) == data@.drop_last(),
        data@.last() != 0 ==> utf16(text) == data@,
    ensures
        r is Ok <==> tag == 0x504C_0001 && 2 * data@.len() <= 8192,
        r is Ok ==> r->Ok_0@ == text,
        tag != 0x504C_0001 ==> r == Err::<String, IpcError>(IpcError::BadMagic(tag)),
        tag == 0x504C_0001 && 2 * data@.len() > 8192 ==> r->Err_0 is Oversized,
{
    utf16_text_of_utf16(text);
    if utf16(text).len() == 0 {
        assert(utf16(text) =~= Seq::<u16>::empty());
        utf16_of_utf16_text(Seq::empty());
        utf16_text_of_utf16(Seq::empty());
    }
}

/// A payload is refused for a foreign tag, for holding nothing, for its size
/// and for units that are no text, in this order.
pub proof fn refused_payloads_say_why(tag: usize, data: &[u16], r: Result<String, IpcError>)
    requires
        call_ensures(payload_text, (tag, data), r),
    ensures
        match r {
            Ok(text) => {
                &&& tag == 0x504C_0001 && 0 < 2 * data@.len() <= 8192
                &&& data@.last() == 0 ==> utf16(text@) == data@.drop_last()
                &&& data@.last() != 0 ==> utf16(text@) == data@
            },
            Err(IpcError::BadMagic(t)) => t == tag && tag != 0x504C_0001,
            Err(IpcError::MalformedPayload) => {
                tag == 0x504C_0001 && (data@.len() == 0 || data@ == seq![0u16])
            },
            Err(IpcError::Oversized(n)) => {
                &&& tag == 0x504C_0001 && 2 * data@.len() > 8192
                &&& 2 * data@.len() <= u64::MAX ==> n == 2 * data@.len()
            },
            Err(IpcError::NotUtf16) => {
                &&& tag == 0x504C_0001 && 0 < 2 * data@.len() <= 8192
                &&& forall|text: Seq<char>| #[trigger] utf16(text) != body(data@)
            },
            Err(IpcError::BadJson(_)) => false,
        },
{
    utf16_of_utf16_text(body(data@));
    if body(data@).len() == 0 && data@.len() > 0 {
        assert(data@ =~= seq![0u16]);
    }
    if r matches Err(IpcError::NotUtf16) {
        assert forall|text: Seq<char>| #[trigger] utf16(text) != body(data@) by {
            utf16_text_of_utf16(text);
        }
    }
}

/// The units to copy out of a message are half its bytes; an odd number, none
/// and more than 8192 bytes are not copied.
pub proof fn sound_messages_are_copied(has_data: bool, bytes: u32, r: Option<u32>)
    requires
        call_ensures(copy_data_units, (has_data, bytes), r),
    ensures
        r is Some <==> has_data && 0 < bytes <= 8192 && bytes % 2 == 0,
        r matches Some(units) ==> 2 * units == bytes,
{
}

/// What a document is read as is what was asked for; a reader's failure is
/// handed on.
pub proof fn requests_are_read_by_the_reader<P: FnOnce(&str) -> Result<IpcRequest, String>>(
    tag: usize,
    data: &[u16],
    read: P,
    r: Result<IpcRequest, IpcError>,
    document: Result<String, IpcError>,
)
    requires
        call_ensures(decode::<P>, (tag, data, read), r),
        call_ensures(payload_text, (tag, data), document),
    ensures
        document matches Err(e) ==> r == Err::<IpcRequest, IpcError>(e),
        document matches Ok(text) ==> exists|t: &str, answer: Result<IpcRequest, String>|
            t@ == text@ && #[trigger] call_ensures(read, (t,), answer) && match answer {
                Ok(request) => r == Ok::<IpcRequest, IpcError>(request),
                Err(m) => r == Err::<IpcRequest, IpcError>(IpcError::BadJson(m)),
            },
{
    if let Ok(text) = document {
        let (t, answer) = choose|t: &str, answer: Result<IpcRequest, String>|
            t@ == text@ && #[trigger] call_ensures(read, (t,), answer) && r == decodes_to(answer);
        assert(call_ensures(read, (t,), answer));
    }
}

// ---------- forwarding ----------

/// A request was delivered when it reached the resident and the resident took
/// it, and rejected when there is a resident but either failed.
pub proof fn both_answers_count(answer: Option<(isize, usize)>, r: ForwardOutcome)
    requires
        call_ensures(forward_outcome, (answer,), r),
    ensures
        r is NoResident <==> answer is None,
        r is Delivered <==> answer is Some && (answer->0).0 != 0 && (answer->0).1 != 0,
        r is Rejected <==> answer is Some && ((answer->0).0 == 0 || (answer->0).1 == 0),
{
}

/// What is sent for a profile asks for that profile, and the answer to it is
/// what forwarding comes to.
pub proof fn the_request_for_the_profile_is_sent<S: FnOnce(&Vec<u16>) -> Option<(isize, usize)>>(
    id: &str,
    send: S,
    r: Result<ForwardOutcome, IpcError>,
)
    requires
        call_ensures(forward_run_profile::<S>, (id, send), r),
        looks_like_a_guid(id@),
    ensures
        r is Ok,
        exists|sent: &Vec<u16>, answer: Option<(isize, usize)>|
            sent@ == wide("{\"type\":\"run_profile\",\"profile\":\""@ + id@ + "\"}"@)
                && #[trigger] call_ensures(send, (sent,), answer) && (r->Ok_0 is NoResident <==>
                answer is None) && (r->Ok_0 is Delivered <==> answer is Some && (answer->0).0 != 0
                && (answer->0).1 != 0),
{
    guid_forms(id@);
    every_profile_can_be_asked_for(id@);
    let (sent, answer) = choose|sent: &Vec<u16>, answer: Option<(isize, usize)>|
        sent@ == wide(run_profile_json(id@)) && #[trigger] call_ensures(send, (sent,), answer) && r
            == Ok::<ForwardOutcome, IpcError>(crate::ipc::outcome_of(answer));
    assert(call_ensures(send, (sent,), answer));
}

// ---------- workers ----------

/// There are sixteen slots: one more is claimed while fewer are held, and
/// returning one leaves one less.
pub proof fn there_are_sixteen_slots(held: usize, claimed: Option<usize>, left: usize)
    requires
        call_ensures(claim_worker, (held,), claimed),
        held > 0 ==> call_ensures(release_worker, (held,), left),
    ensures
        claimed is Some <==> held < 16,
        claimed matches Some(n) ==> n == held + 1,
        held > 0 ==> left == held - 1,
{
}

/// Only a request for a profile that there is claims a slot, only one with a
/// slot starts a worker, for the id that was asked for, and it is accepted
/// when the worker was started.
pub proof fn requests_start_workers<C: FnOnce() -> bool, S: FnOnce(&str) -> Result<(), String>>(
    config: &Config,
    id: &str,
    claim: C,
    start: S,
    r: Dispatch,
    accepted: bool,
    returned: bool,
)
    requires
        call_ensures(dispatch_profile::<C, S>, (config, id, claim, start), r),
        call_ensures(Dispatch::is_accepted, (&r,), accepted),
        call_ensures(Dispatch::returns_slot, (&r,), returned),
    ensures
        r is UnknownProfile <==> forall|i: int|
            0 <= i < config.profiles@.len() ==> !same_profile(
                (#[trigger] config.profiles@[i]).id@,
                id@,
            ),
        r is AtCapacity ==> call_ensures(claim, (), false),
        r is Started || r is SpawnFailed ==> call_ensures(claim, (), true),
        r is Started ==> call_ensures(start, (id,), Ok::<(), String>(())),
        r matches Dispatch::SpawnFailed(e) ==> call_ensures(start, (id,), Err::<(), String>(e)),
        accepted <==> r is Started,
        returned <==> r is SpawnFailed,
{
    names(config, id@);
    if r is Started {
        let answer = choose|answer: Result<(), String>| #[trigger]
            call_ensures(start, (id,), answer) && r == crate::resident::spawned(answer);
        assert(answer->Ok_0 == ());
    }
}

proof fn names(config: &Config, id: Seq<char>)
    ensures
        is_named(config@.profiles, id) <==> exists|i: int|
            0 <= i < config.profiles@.len() && same_profile(
                (#[trigger] config.profiles@[i]).id@,
                id,
            ),
{
    if is_named(config@.profiles, id) {
        let i = choose|i: int|
            0 <= i < config@.profiles.len() && crate::config::guid_key_of(
                #[trigger] config@.profiles[i].id,
            ) == crate::config::guid_key_of(id);
        assert(config@.profiles[i] == config.profiles@[i]@);
        keys_name_profiles(config.profiles@[i].id@, id);
    }
    if exists|i: int| 0 <= i < config.profiles@.len() && same_profile(
        (#[trigger] config.profiles@[i]).id@,
        id,
    ) {
        let i = choose|i: int|
            0 <= i < config.profiles@.len() && same_profile(
                (#[trigger] config.profiles@[i]).id@,
                id,
            );
        assert(config@.profiles[i] == config.profiles@[i]@);
        keys_name_profiles(config.profiles@[i].id@, id);
        assert(config@.profiles[i].id == config.profiles@[i].id@);
    }
}

/// A worker runs the first profile that the id names, and nothing where it
/// names none.
pub proof fn workers_run_the_named_profile<L: Launcher>(
    config: &Config,
    id: &str,
    launcher: &mut L,
    r: Option<ProfileResult>,
)
    requires
        call_ensures(run_profile::<L>, (config, id, launcher), r),
    ensures
        r is None <==> forall|i: int|
            0 <= i < config.profiles@.len() ==> !same_profile(
                (#[trigger] config.profiles@[i]).id@,
                id@,
            ),
        r is None ==> *final(launcher) == *old(launcher),
        r matches Some(result) ==> exists|i: int|
            0 <= i < config.profiles@.len() && same_profile(
                (#[trigger] config.profiles@[i]).id@,
                id@,
            ) && (forall|j: int|
                0 <= j < i ==> !same_profile((#[trigger] config.profiles@[j]).id@, id@)) && ran(
                *old(launcher),
                config.profiles@[i]@,
                result,
                *final(launcher),
            ),
{
    names(config, id@);
    if let Some(result) = r {
        let i = choose|i: int| #[trigger]
            is_first_named(config@.profiles, id@, i) && ran(
                *old(launcher),
                config@.profiles[i],
                result,
                *final(launcher),
            );
        assert(config@.profiles[i] == config.profiles@[i]@);
        keys_name_profiles(config.profiles@[i].id@, id@);
        assert forall|j: int| 0 <= j < i implies !same_profile(
            (#[trigger] config.profiles@[j]).id@,
            id@,
        ) by {
            assert(config@.profiles[j].id == config.profiles@[j].id@);
            keys_name_profiles(config.profiles@[j].id@, id@);
        }
        assert(same_profile(config.profiles@[i].id@, id@));
    }
}

/// An action is performed as it asks to be, and what came of that is its
/// result; an action that cannot be handed over is not performed.
pub proof fn actions_are_performed_as_asked<F: FnOnce(Launch) -> Result<(), ActionError>>(
    action: &Action,
    perform: F,
    r: Result<(), String>,
    asked: Result<Launch, ActionError>,
)
    requires
        call_ensures(launch_action::<F>, (action, perform), r),
        call_ensures(crate::actions::execute, (action,), asked),
    ensures
        asked is Err ==> r is Err,
        asked matches Err(ActionError::InvalidInput(m)) ==> r->Err_0@ == "invalid input: "@ + m@,
        asked matches Ok(launch) ==> exists|l: Launch, done: Result<(), ActionError>|
            l@ == launch@ && #[trigger] call_ensures(perform, (l,), done) && (done is Ok <==> r is Ok),
{
    if let Ok(launch) = asked {
        let (l, done) = choose|l: Launch, done: Result<(), ActionError>|
            l@ == launch@ && #[trigger] call_ensures(perform, (l,), done)
                && crate::resident::is_performed(done, r);
        assert(call_ensures(perform, (l,), done));
    }
}

/// What a worker logs: the profile that it starts, and how many of how many
/// actions failed and were skipped.
pub proof fn workers_log_their_run(
    profile: &Profile,
    id: &str,
    started: String,
    result: &ProfileResult,
    failed: usize,
    finished: String,
    profiles: usize,
    ready: String,
)
    requires
        call_ensures(started_line, (profile, id), started),
        call_ensures(ProfileResult::failure_count, (result,), failed),
        call_ensures(finished_line, (id, result), finished),
        call_ensures(ready_line, (profiles,), ready),
    ensures
        started@ == "[resident] profile '"@ + profile.name@ + "' ("@ + id@ + ") started"@,
        finished@ == "[resident] profile "@ + id@ + " finished: "@ + decimal(failed as nat)
            + " of "@ + decimal(result.outcomes@.len()) + " action(s) failed, "@ + decimal(
            result.skipped_disabled as nat,
        ) + " disabled skipped"@,
        ready@ == "Resident started: "@ + decimal(profiles as nat)
            + " profile(s) loaded. Waiting for messages."@,
{
}

// ---------- the resident ----------

/// The config is loaded again exactly when it has a path and the file's time
/// is not the one it was loaded with. A config that loads is taken over with
/// its time; one that does not changes nothing. Either is logged.
pub proof fn changed_configs_are_loaded_again<L: FnOnce() -> Result<Config, ConfigError>>(
    state: &mut ResidentState,
    modified: Option<i128>,
    load: L,
    r: (&Arc<Config>, Option<String>),
)
    requires
        call_ensures(ResidentState::current_config::<L>, (state, modified, load), r),
    ensures
        *r.0 == final(state).config,
        final(state).config_path == old(state).config_path,
        r.1 is Some <==> old(state).config_path is Some && old(state).modified != modified,
        r.1 is None ==> *final(state) == *old(state),
        r.1 is Some ==> exists|loaded: Result<Config, ConfigError>| #[trigger]
            call_ensures(load, (), loaded) && match loaded {
                Ok(config) => {
                    &&& *final(state).config == config
                    &&& final(state).modified == modified
                    &&& r.1->0@ == "[resident] config reloaded from "@ + old(state).config_path->0@
                },
                Err(e) => {
                    &&& *final(state) == *old(state)
                    &&& r.1->0@ == "[resident] config reload failed: "@ + config_error_text(e)
                        + "; keeping previous config"@
                },
            },
{
}

/// A new state holds the config that it is given, with its path and time.
pub proof fn states_hold_what_was_loaded(
    config: Config,
    path: String,
    modified: Option<i128>,
    bare: ResidentState,
    full: ResidentState,
    count: usize,
)
    requires
        call_ensures(ResidentState::new, (config,), bare),
        call_ensures(ResidentState::with_path, (config, path, modified), full),
        call_ensures(ResidentState::profile_count, (&full,), count),
    ensures
        *bare.config == config && bare.config_path is None && bare.modified is None,
        *full.config == config && full.config_path == Some(path) && full.modified == modified,
        count == config.profiles@.len(),
{
}

/// The resident starts in its order: the config, the icon, the instance, the
/// window, the tray, the broadcast, and then it waits for messages. A failure
/// ends it, but for that of the tray, which is logged.
pub proof fn the_resident_starts_in_order(
    first: StartStep,
    step: StartStep,
    outcome: Result<(), ResidentError>,
    r: StartStep,
)
    requires
        call_ensures(crate::resident::run, (), first),
        call_ensures(StartStep::next, (step, outcome), r),
    ensures
        first is LoadConfig,
        outcome is Ok ==> {
            &&& step is LoadConfig ==> r is LoadIcon
            &&& step is LoadIcon ==> r is ClaimInstance
            &&& step is ClaimInstance ==> r is CreateWindow
            &&& step is CreateWindow ==> r is AddTray
            &&& step is WatchTaskbar ==> r is MessageLoop
            &&& step is MessageLoop ==> r is Ended && r->result is Ok
        },
        step is AddTray ==> r is WatchTaskbar && (r->line is Some <==> outcome is Err),
        step is AddTray ==> (outcome matches Err(e) ==> r->line->0@
            == "[resident] tray icon registration failed, continuing without it: "@
            + resident_error_text(e)),
        outcome is Err && !(step is AddTray) && !(step is Ended) ==> r is Ended && r->result
            == outcome,
        step matches StartStep::Ended { result } ==> r == (StartStep::Ended { result }),
{
}

/// A window is made by its steps in order, and the class goes again where the
/// window could not be made.
pub proof fn windows_are_made_in_order(step: WindowStep, failed: bool, code: u32, r: WindowStep)
    requires
        call_ensures(WindowStep::next, (step, failed, code), r),
    ensures
        !failed ==> {
            &&& step is Module ==> r is Class
            &&& step is Class ==> r is Window
            &&& step is Window ==> r is Attach
        },
        failed ==> {
            &&& step is Module ==> {
                r matches WindowStep::Failed { error: ResidentError::Win32 { api, code: c } } && api@
                    == "GetModuleHandleW"@ && c == code
            }
            &&& step is Class ==> {
                r matches WindowStep::Failed { error: ResidentError::Win32 { api, code: c } } && api@
                    == "RegisterClassW"@ && c == code
            }
            &&& step is Window ==> {
                r matches WindowStep::Unregister { error: ResidentError::Win32 { api, code: c } }
                    && api@ == "CreateWindowExW"@ && c == code
            }
        },
        step is Attach || step is Made ==> r is Made,
        step matches WindowStep::Unregister { error } ==> r == (WindowStep::Failed { error }),
        step matches WindowStep::Failed { error } ==> r == (WindowStep::Failed { error }),
{
}

/// What the resident's window makes of a message.
pub proof fn the_resident_sorts_its_messages(
    msg: u32,
    event: u32,
    taskbar: u32,
    r: WindowEvent,
)
    requires
        call_ensures(window_event, (msg, event, taskbar), r),
    ensures
        msg == 0x4A ==> r is CopyData,
        msg == 0x8001 ==> (r is TrayMenu <==> event == 0x205 || event == 0x7B) && (r is Ignore
            <==> event != 0x205 && event != 0x7B),
        msg != 0x4A && msg != 0x8001 && taskbar != 0 && msg == taskbar ==> r is RestoreTray,
        msg == 0x10 && taskbar != 0x10 ==> r is Close,
        msg == 0x02 && taskbar != 0x02 ==> r is Quit,
        msg != 0x4A && msg != 0x8001 && (taskbar == 0 || msg != taskbar) && msg != 0x10 && msg
            != 0x02 ==> r is Default,
{
}

/// The loop ends with a quit request or a failure, and goes on else; and a
/// mutex that was there already is another resident's.
pub proof fn one_resident_runs_until_it_is_told_to_quit(
    result: i32,
    code: u32,
    end: Option<Result<(), ResidentError>>,
    null: bool,
    claimed: Result<(), ResidentError>,
)
    requires
        call_ensures(loop_end, (result, code), end),
        call_ensures(instance_claimed, (null, code), claimed),
    ensures
        end is None <==> result != 0 && result != -1,
        result == 0 ==> end is Some && end->0 is Ok,
        result == -1 ==> {
            end matches Some(Err(ResidentError::Win32 { api, code: c })) && api@ == "GetMessageW"@
                && c == code
        },
        claimed is Ok <==> !null && code != 183,
        !null && code == 183 ==> claimed->Err_0 is AlreadyRunning,
        null ==> {
            claimed matches Err(ResidentError::Win32 { api, code: c }) && api@ == "CreateMutexW"@
                && c == code
        },
{
}

/// A request is answered with one exactly when a worker was started, and else
/// with zero and a line that names the profile.
pub proof fn started_requests_are_answered_with_one(
    dispatch: &Dispatch,
    profile: &str,
    r: (isize, Option<String>),
)
    requires
        call_ensures(request_answer, (dispatch, profile), r),
    ensures
        dispatch is Started ==> r.0 == 1 && r.1 is None,
        !(dispatch is Started) ==> r.0 == 0 && r.1 is Some && r.1->0@
            == "[resident] rejected IPC run request for profile "@ + profile@,
{
}

/// A payload asks for the profile in its request where that is a GUID; a
/// request for anything else is refused by name, and a payload that holds no
/// request for what is wrong with it.
pub proof fn requests_ask_for_guids<P: FnOnce(&str) -> Result<IpcRequest, String>>(
    tag: usize,
    data: &[u16],
    read: P,
    r: Result<String, String>,
)
    requires
        call_ensures(requested_profile::<P>, (tag, data, read), r),
    ensures
        r matches Ok(id) ==> looks_like_a_guid(id@) && tag == 0x504C_0001 && exists|text: &str|
            #[trigger]
            call_ensures(
                read,
                (text,),
                Ok::<IpcRequest, String>(IpcRequest::RunProfile { profile: id }),
            ),
        tag != 0x504C_0001 ==> r is Err && r->Err_0@ == "[resident] rejected IPC payload: "@
            + ipc_error_text(IpcError::BadMagic(tag)),
{
    let decoded = choose|decoded: Result<IpcRequest, IpcError>| #[trigger]
        crate::ipc::decode_gives(tag, data@, read, decoded) && asks_for(decoded, r);
    if let Ok(id) = r {
        guid_forms(id@);
        assert(decoded == Ok::<IpcRequest, IpcError>(IpcRequest::RunProfile { profile: id }));
        let (text, answer) = choose|text: &str, answer: Result<IpcRequest, String>|
            #[trigger] call_ensures(read, (text,), answer) && decoded == decodes_to(answer);
        assert(answer == Ok::<IpcRequest, String>(IpcRequest::RunProfile { profile: id }));
    }
}

/// A call that failed is told by its name and code.
pub proof fn failed_calls_are_named(
    api: &'static str,
    failed: bool,
    code: u32,
    r: Result<(), ResidentError>,
)
    requires
        call_ensures(called, (api, failed, code), r),
    ensures
        r is Ok <==> !failed,
        r matches Err(e) ==> {
            e matches ResidentError::Win32 { api: a, code: c } && a@ == api@ && c == code
        },
{
}

/// A message is answered with one only when its payload may be copied, the
/// resident's context is there, and dispatching started a worker for a GUID.
pub proof fn only_started_messages_are_answered_with_one<
    P: FnOnce(&str) -> Result<IpcRequest, String>,
    D: FnOnce(&str) -> Dispatch,
>(
    has_data: bool,
    bytes: u32,
    tag: usize,
    data: &[u16],
    read: P,
    live: bool,
    dispatch: D,
    r: (isize, Option<String>),
)
    requires
        call_ensures(
            answer_request::<P, D>,
            (has_data, bytes, tag, data, read, live, dispatch),
            r,
        ),
    ensures
        r.0 == 0 || r.0 == 1,
        r.0 == 1 ==> {
            &&& has_data && 0 < bytes <= 8192 && bytes % 2 == 0
            &&& tag == 0x504C_0001
            &&& live
            &&& exists|id: &str|
                looks_like_a_guid(id@) && #[trigger] call_ensures(
                    dispatch,
                    (id,),
                    Dispatch::Started,
                )
        },
        !live || tag != 0x504C_0001 ==> r.0 == 0,
        !has_data || bytes == 0 || bytes > 8192 || bytes % 2 != 0 ==> r.0 == 0 && r.1 is None,
        r.0 == 1 ==> r.1 is None,
        !live && r.1 is Some ==> exists|decoded: Result<IpcRequest, IpcError>| #[trigger]
            crate::ipc::decode_gives(tag, data@, read, decoded) && (decoded is Err
                || !looks_like_a_guid(decoded->Ok_0->profile@)),
        r.0 == 0 && live && has_data && 0 < bytes <= 8192 && bytes % 2 == 0 ==> {
            ||| exists|decoded: Result<IpcRequest, IpcError>| #[trigger]
                crate::ipc::decode_gives(tag, data@, read, decoded) && (decoded is Err
                    || !looks_like_a_guid(decoded->Ok_0->profile@))
            ||| exists|id: &str, became: Dispatch| #[trigger]
                call_ensures(dispatch, (id,), became) && !(became is Started)
        },
{
    if !live && r.1 is Some {
        let (decoded, asked) = choose|
            decoded: Result<IpcRequest, IpcError>,
            asked: Result<String, String>,
        | #[trigger]
            crate::ipc::decode_gives(tag, data@, read, decoded) && #[trigger] asks_for(
                decoded,
                asked,
            ) && crate::resident::read_answered(asked, live, dispatch, r);
        assert(crate::ipc::decode_gives(tag, data@, read, decoded));
        if let Ok(IpcRequest::RunProfile { profile }) = decoded {
            guid_forms(profile@);
        }
    }
    if r.0 == 0 && live && has_data && 0 < bytes <= 8192 && bytes % 2 == 0 {
        let (decoded, asked) = choose|
            decoded: Result<IpcRequest, IpcError>,
            asked: Result<String, String>,
        | #[trigger]
            crate::ipc::decode_gives(tag, data@, read, decoded) && #[trigger] asks_for(
                decoded,
                asked,
            ) && crate::resident::read_answered(asked, live, dispatch, r);
        crate::resident::accepted_exactly_when_started(decoded, asked, live, dispatch, r);
        assert(crate::ipc::decode_gives(tag, data@, read, decoded));
        if let Ok(IpcRequest::RunProfile { profile }) = decoded {
            guid_forms(profile@);
            if looks_like_a_guid(profile@) {
                let (id, became) = choose|id: &str, became: Dispatch|
                    id@ == profile@ && !(became is Started) && #[trigger] call_ensures(
                        dispatch,
                        (id,),
                        became,
                    );
                assert(call_ensures(dispatch, (id,), became));
            }
        }
    }
    if r.0 != 0 {
        let (decoded, asked) = choose|
            decoded: Result<IpcRequest, IpcError>,
            asked: Result<String, String>,
        | #[trigger]
            crate::ipc::decode_gives(tag, data@, read, decoded) && #[trigger] asks_for(
                decoded,
                asked,
            ) && crate::resident::read_answered(asked, live, dispatch, r);
        crate::resident::accepted_exactly_when_started(decoded, asked, live, dispatch, r);
        let id = choose|id: &str|
            id@ == decoded->Ok_0->profile@ && #[trigger] call_ensures(
                dispatch,
                (id,),
                Dispatch::Started,
            );
        guid_forms(id@);
        assert(looks_like_a_guid(id@));
    }
}

/// A tip that fits stands in the field whole, with its NUL; a longer one is
/// cut so that a zero is left behind it.
pub proof fn tips_leave_room_for_nul(size: usize, r: Vec<u16>)
    requires
        call_ensures(tray_tip, (size,), r),
        size > 0,
    ensures
        wide("Project Launcher"@).len() < size ==> r@ == wide("Project Launcher"@),
        wide("Project Launcher"@).len() >= size ==> r@.len() == size - 1 && r@ == wide(
            "Project Launcher"@,
        ).take(size - 1),
{
    let w = wide("Project Launcher"@);
    assert(w.take(w.len() as int) =~= w);
}

} // verus!
