//! WM_COPYDATA IPC between the `--profile` frontend and the resident.
//!
//! Envelope: `COPYDATASTRUCT.dwData` carries a magic + protocol version, and
//! `lpData` carries a NUL-terminated UTF-16 JSON document. JSON keeps the
//! protocol extensible (config reload, quit) without new framing.
//!
//! WM_COPYDATA semantics this design relies on:
//! - the sender MUST use a synchronous send (SendMessageTimeoutW, bounded
//!   so a hung resident cannot block the caller forever): `lpData` is only
//!   valid until the call returns, so PostMessage would point at freed
//!   memory;
//! - the receiver MUST copy `lpData` before returning from the window proc;
//! - UIPI can silently block delivery across integrity levels (e.g. an
//!   elevated resident cannot be reached from a non-elevated caller).

use crate::config::{is_bare_guid, is_guid, is_guid_hyphen, unbraced};
use crate::number::{decimal, decimal_text, hex_char_lower, hex_lower, hex_lower_text};
use crate::text::is_hex;
use crate::utf16::{
    char_is_scalar, decode_utf16, encode_wide, units_of_ascii, utf16, utf16_text,
    utf16_text_of_utf16, wide,
};
use vstd::prelude::*;
use vstd::string::*;

verus! {

/// Protocol identifier + version packed into `COPYDATASTRUCT.dwData`:
/// `0x504C` ("PL") in the high bits, protocol version 1 in the low bits.
/// Receivers must reject anything else so a foreign WM_COPYDATA broadcast is
/// never interpreted as a request.
pub const IPC_MAGIC: usize = 0x504C_0001;

/// Hard cap on the payload size. A run_profile request is a GUID inside
/// ~100 bytes of JSON; anything larger is malformed or hostile and rejected
/// before it can force a big allocation.
pub const MAX_IPC_BYTES: u32 = 8192;

#[derive(Debug)]
pub enum IpcRequest {
    /// Run a profile, addressed by its stable GUID.
    RunProfile { profile: String },
}

#[derive(Debug)]
pub enum IpcError {
    /// `dwData` did not match the protocol magic/version.
    BadMagic(usize),
    /// `lpData` was null, `cbData` was zero, or the payload had no content.
    MalformedPayload,
    /// The payload exceeded `MAX_IPC_BYTES`.
    Oversized(u64),
    /// The payload was not valid UTF-16.
    NotUtf16,
    /// The payload was not valid protocol JSON.
    BadJson(String),
}

/// The text of an IPC error.
pub open spec fn ipc_error_text(e: IpcError) -> Seq<char> {
    match e {
        IpcError::BadMagic(v) => "unexpected IPC magic 0x"@ + hex_lower(v as nat),
        IpcError::MalformedPayload => "empty or malformed IPC payload"@,
        IpcError::Oversized(n) => {
            "IPC payload of "@ + decimal(n as nat) + " bytes exceeds the "@ + decimal(
                MAX_IPC_BYTES as nat,
            ) + " byte limit"@
        },
        IpcError::NotUtf16 => "IPC payload is not valid UTF-16"@,
        IpcError::BadJson(e) => "IPC payload is not valid protocol JSON: "@ + e@,
    }
}

impl IpcError {
    pub fn message(&self) -> (r: String)
        ensures
            r@ == ipc_error_text(*self),
    {
        match self {
            IpcError::BadMagic(v) => {
                "unexpected IPC magic 0x".to_owned().concat(hex_lower_text(*v as u64).as_str())
            },
            IpcError::MalformedPayload => "empty or malformed IPC payload".to_owned(),
            IpcError::Oversized(n) => {
                "IPC payload of ".to_owned().concat(decimal_text(*n).as_str()).concat(
                    " bytes exceeds the ",
                ).concat(decimal_text(MAX_IPC_BYTES as u64).as_str()).concat(" byte limit")
            },
            IpcError::NotUtf16 => "IPC payload is not valid UTF-16".to_owned(),
            IpcError::BadJson(e) => {
                "IPC payload is not valid protocol JSON: ".to_owned().concat(e.as_str())
            },
        }
    }
}

// ---------- JSON ----------

/// The controls below U+0020.
pub open spec fn is_control(c: char) -> bool {
    c as u32 <= 0x1f
}

/// A character inside a JSON string: quotes, backslashes and the controls
/// below U+0020 are escaped, everything else stands for itself.
pub open spec fn json_char(c: char) -> Seq<char> {
    if c == '"' {
        seq!['\\', '"']
    } else if c == '\\' {
        seq!['\\', '\\']
    } else if c == '\u{8}' {
        seq!['\\', 'b']
    } else if c == '\t' {
        seq!['\\', 't']
    } else if c == '\n' {
        seq!['\\', 'n']
    } else if c == '\u{c}' {
        seq!['\\', 'f']
    } else if c == '\r' {
        seq!['\\', 'r']
    } else if is_control(c) {
        seq![
            '\\',
            'u',
            '0',
            '0',
            hex_char_lower(c as nat / 16),
            hex_char_lower(c as nat % 16),
        ]
    } else {
        seq![c]
    }
}

/// The characters of a text inside a JSON string.
pub open spec fn json_chars(s: Seq<char>) -> Seq<char>
    decreases s.len(),
{
    if s.len() == 0 {
        Seq::empty()
    } else {
        json_char(s[0]) + json_chars(s.drop_first())
    }
}

/// A text as a JSON string.
pub open spec fn json_string(s: Seq<char>) -> Seq<char> {
    seq!['"'] + json_chars(s) + seq!['"']
}

/// `serde_json::to_string` on a `str`: a JSON string of the text, with the
/// short escapes where JSON has them and `\u00xx` for the other controls.
/// Writing to memory, it does not fail.
#[verifier::external_body]
fn json_text(s: &str) -> (r: Result<String, String>)
    ensures
        match r {
            Ok(t) => t@ == json_string(s@),
            Err(_) => false,
        },
{
    match serde_json::to_string(s) {
        Ok(t) => Ok(t),
        Err(e) => Err(e.to_string()),
    }
}

/// The JSON document of a request.
pub open spec fn request_json(request: IpcRequest) -> Seq<char> {
    match request {
        IpcRequest::RunProfile { profile } => run_profile_json(profile@),
    }
}

pub open spec fn run_profile_json(profile: Seq<char>) -> Seq<char> {
    "{\"type\":\"run_profile\",\"profile\":"@ + json_string(profile) + "}"@
}

/// Serializes a request to a NUL-terminated UTF-16 payload.
pub fn encode(request: &IpcRequest) -> (r: Result<Vec<u16>, IpcError>)
    ensures
        r matches Ok(u) && u@ == wide(request_json(*request)),
{
    match request {
        IpcRequest::RunProfile { profile } => {
            let profile = match json_text(profile.as_str()) {
                Ok(profile) => profile,
                Err(e) => return Err(IpcError::BadJson(e)),
            };
            let json = "{\"type\":\"run_profile\",\"profile\":".to_owned().concat(
                profile.as_str(),
            ).concat("}");
            Ok(encode_wide(json.as_str()))
        },
    }
}

// ---------- the envelope ----------

/// How many bytes a number of units takes.
pub open spec fn byte_count(units: nat) -> u64 {
    if 2 * units > u64::MAX {
        u64::MAX
    } else {
        (2 * units) as u64
    }
}

/// The units without one trailing NUL.
pub open spec fn body(data: Seq<u16>) -> Seq<u16> {
    if data.len() > 0 && data.last() == 0 {
        data.drop_last()
    } else {
        data
    }
}

/// The document inside an envelope, or what is wrong with the envelope.
pub open spec fn payload(dw_data: usize, data: Seq<u16>) -> Result<Seq<char>, IpcError> {
    if dw_data != IPC_MAGIC {
        Err(IpcError::BadMagic(dw_data))
    } else if data.len() == 0 {
        Err(IpcError::MalformedPayload)
    } else if byte_count(data.len()) > MAX_IPC_BYTES {
        Err(IpcError::Oversized(byte_count(data.len())))
    } else if body(data).len() == 0 {
        Err(IpcError::MalformedPayload)
    } else {
        match utf16_text(body(data)) {
            Some(text) => Ok(text),
            None => Err(IpcError::NotUtf16),
        }
    }
}

/// Validates the envelope and gives the document inside it. `data` is the
/// UTF-16 content of `lpData` (`cbData / 2` units), which the receiver must
/// have already copied out of the COPYDATASTRUCT. A trailing NUL is stripped
/// if present but not required.
pub fn payload_text(dw_data: usize, data: &[u16]) -> (r: Result<String, IpcError>)
    ensures
        match r {
            Ok(text) => payload(dw_data, data@) == Ok::<Seq<char>, IpcError>(text@),
            Err(e) => payload(dw_data, data@) == Err::<Seq<char>, IpcError>(e),
        },
{
    if dw_data != IPC_MAGIC {
        return Err(IpcError::BadMagic(dw_data));
    }
    let units: u64 = data.len() as u64;
    let byte_len: u64 = if units > u64::MAX / 2 {
        u64::MAX
    } else {
        units * 2
    };
    if byte_len == 0 {
        return Err(IpcError::MalformedPayload);
    }
    if byte_len > MAX_IPC_BYTES as u64 {
        return Err(IpcError::Oversized(byte_len));
    }
    let end: usize = if data[data.len() - 1] == 0 {
        data.len() - 1
    } else {
        data.len()
    };
    if end == 0 {
        return Err(IpcError::MalformedPayload);
    }
    let mut text: Vec<u16> = Vec::new();
    let mut i: usize = 0;
    while i < end
        invariant
            i <= end <= data@.len(),
            text@ == data@.take(i as int),
        decreases end - i,
    {
        text.push(data[i]);
        i += 1;
    }
    assert(text@ =~= body(data@));
    match decode_utf16(text.as_slice()) {
        Some(text) => Ok(text),
        None => Err(IpcError::NotUtf16),
    }
}

/// What a request decodes to when its document was read so.
pub open spec fn decodes_to(read: Result<IpcRequest, String>) -> Result<IpcRequest, IpcError> {
    match read {
        Ok(request) => Ok(request),
        Err(m) => Err(IpcError::BadJson(m)),
    }
}

/// What decoding gives with the reader: the envelope's error, or what the
/// reader makes of the document inside it.
pub open spec fn decode_gives<P: FnOnce(&str) -> Result<IpcRequest, String>>(
    dw_data: usize,
    data: Seq<u16>,
    read: P,
    r: Result<IpcRequest, IpcError>,
) -> bool {
    match payload(dw_data, data) {
        Err(e) => r == Err::<IpcRequest, IpcError>(e),
        Ok(document) => exists|text: &str, answer: Result<IpcRequest, String>|
            text@ == document && #[trigger] call_ensures(read, (text,), answer) && r
                == decodes_to(answer),
    }
}

/// A reader that reads each request back from its document.
pub open spec fn reads_requests<P: FnOnce(&str) -> Result<IpcRequest, String>>(read: P) -> bool {
    forall|text: &str, answer: Result<IpcRequest, String>, profile: Seq<char>|
        text@ == #[trigger] run_profile_json(profile) && #[trigger] call_ensures(
            read,
            (text,),
            answer,
        ) ==> (answer matches Ok(IpcRequest::RunProfile { profile: p }) && p@ == profile)
}

/// Validates the envelope and decodes the payload. `read` reads a request
/// from its JSON document; it is asked only when the envelope is sound, and
/// only for the document inside it.
pub fn decode<P: FnOnce(&str) -> Result<IpcRequest, String>>(
    dw_data: usize,
    data: &[u16],
    read: P,
) -> (r: Result<IpcRequest, IpcError>)
    requires
        forall|text: &str|
            payload(dw_data, data@) == Ok::<Seq<char>, IpcError>(text@) ==> call_requires(
                read,
                (text,),
            ),
    ensures
        decode_gives(dw_data, data@, read, r),
{
    match payload_text(dw_data, data) {
        Err(e) => Err(e),
        Ok(document) => {
            let text = document.as_str();
            let answer = read(text);
            let ghost given = answer;
            assert(call_ensures(read, (text,), given));
            match answer {
                Ok(request) => Ok(request),
                Err(m) => Err(IpcError::BadJson(m)),
            }
        },
    }
}

// ---------- forwarding ----------

/// What happened when trying to hand a request to the resident.
#[derive(Debug, Clone, Copy, PartialEq, Eq, Structural)]
pub enum ForwardOutcome {
    /// The resident accepted the request and started a worker.
    Delivered,
    /// No resident window exists; the caller should run the profile itself.
    NoResident,
    /// A resident exists but the send did not deliver: the request was
    /// rejected (unknown profile id, malformed payload, saturated workers),
    /// blocked by UIPI, or the resident failed to answer in time.
    Rejected,
}

/// How long a forwarded request waits for the resident's window proc to
/// answer before giving up. WM_COPYDATA must be sent (not posted), but a
/// stuck resident must not block the caller indefinitely.
pub const FORWARD_TIMEOUT_MS: u32 = 3000;

/// What an answer to a forwarded request comes to.
pub open spec fn outcome_of(answer: Option<(isize, usize)>) -> ForwardOutcome {
    match answer {
        None => ForwardOutcome::NoResident,
        Some((delivered, result)) => if delivered != 0 && result != 0 {
            ForwardOutcome::Delivered
        } else {
            ForwardOutcome::Rejected
        },
    }
}

/// What forwarding came to. `answer` is `None` when no resident window
/// exists; otherwise it holds what SendMessageTimeoutW returned and the
/// window proc's result. A 0 return is a timeout or a failed send; a 0
/// result is the window proc rejecting the request.
pub fn forward_outcome(answer: Option<(isize, usize)>) -> (r: ForwardOutcome)
    ensures
        r == outcome_of(answer),
{
    match answer {
        None => ForwardOutcome::NoResident,
        Some((delivered, result)) => if delivered != 0 && result != 0 {
            ForwardOutcome::Delivered
        } else {
            ForwardOutcome::Rejected
        },
    }
}

/// Sends a run_profile request to the resident. Fire-and-forget: success
/// only means the resident accepted the request, not that the profile ran to
/// completion. `send` finds the resident's window and hands it the payload;
/// its answer is that of `forward_outcome`.
pub fn forward_run_profile<S: FnOnce(&Vec<u16>) -> Option<(isize, usize)>>(
    profile_id: &str,
    send: S,
) -> (r: Result<ForwardOutcome, IpcError>)
    requires
        forall|payload: &Vec<u16>|
            payload@ == wide(run_profile_json(profile_id@)) ==> call_requires(send, (payload,)),
    ensures
        exists|payload: &Vec<u16>, answer: Option<(isize, usize)>|
            payload@ == wide(run_profile_json(profile_id@)) && #[trigger] call_ensures(
                send,
                (payload,),
                answer,
            ) && r == Ok::<ForwardOutcome, IpcError>(outcome_of(answer)),
{
    let payload = match encode(&IpcRequest::RunProfile { profile: profile_id.to_owned() }) {
        Ok(payload) => payload,
        Err(e) => return Err(e),
    };
    let answer = send(&payload);
    assert(call_ensures(send, (&payload,), answer));
    Ok(forward_outcome(answer))
}

// ---------- laws ----------

/// The receiver gets the very document that the sender encoded, with or
/// without its terminating NUL, unless it is over the size limit.
pub proof fn decoding_undoes_encoding(request: IpcRequest)
    ensures
        ({
            let sent = wide(request_json(request));
            let document = Ok::<Seq<char>, IpcError>(request_json(request));
            &&& 2 * sent.len() <= MAX_IPC_BYTES ==> payload(IPC_MAGIC, sent) == document
            &&& 2 * (sent.len() - 1) <= MAX_IPC_BYTES ==> payload(IPC_MAGIC, sent.drop_last())
                == document
            &&& 2 * sent.len() > MAX_IPC_BYTES ==> payload(IPC_MAGIC, sent) == Err::<
                Seq<char>,
                IpcError,
            >(IpcError::Oversized(byte_count(sent.len())))
        }),
{
    let json = request_json(request);
    let sent = wide(json);
    reveal_strlit("{\"type\":\"run_profile\",\"profile\":");
    reveal_strlit("}");
    utf16_text_of_utf16(json);
    assert(sent.drop_last() =~= utf16(json));
    assert(json.last() == '}');
    let front = json.drop_last();
    assert(json =~= front + seq!['}']);
    crate::utf16::utf16_concat(front, seq!['}']);
    assert(seq!['}'].drop_first() =~= Seq::<char>::empty());
    assert(utf16(Seq::<char>::empty()) =~= Seq::<u16>::empty());
    assert(utf16(seq!['}']) =~= seq!['}' as u16]);
    assert(utf16(json).last() == '}' as u16);
}

/// A request decodes to what was asked for, with any reader that reads
/// documents back, unless it is over the size limit.
pub proof fn requests_survive_the_way<P: FnOnce(&str) -> Result<IpcRequest, String>>(
    profile: Seq<char>,
    read: P,
    r: Result<IpcRequest, IpcError>,
)
    requires
        reads_requests(read),
        2 * wide(run_profile_json(profile)).len() <= MAX_IPC_BYTES,
        decode_gives(IPC_MAGIC, wide(run_profile_json(profile)), read, r),
    ensures
        r matches Ok(IpcRequest::RunProfile { profile: p }) && p@ == profile,
{
    let json = run_profile_json(profile);
    reveal_strlit("}");
    envelope_of(json);
    let (text, answer) = choose|text: &str, answer: Result<IpcRequest, String>|
        text@ == json && #[trigger] call_ensures(read, (text,), answer) && r == decodes_to(answer);
    assert(text@ == run_profile_json(profile));
}

proof fn json_char_tells_apart(a: char, b: char, x: Seq<char>, y: Seq<char>)
    requires
        json_char(a) + x == json_char(b) + y,
    ensures
        a == b,
        x == y,
{
    let s = json_char(a) + x;
    let t = json_char(b) + y;
    char_is_scalar(a);
    char_is_scalar(b);
    assert(s[0] == json_char(a)[0] && t[0] == json_char(b)[0]);
    if s[0] == '\\' {
        assert(s[1] == json_char(a)[1] && t[1] == json_char(b)[1]);
        if s[1] == 'u' {
            assert(s[4] == json_char(a)[4] && t[4] == json_char(b)[4]);
            assert(s[5] == json_char(a)[5] && t[5] == json_char(b)[5]);
            let m = a as nat;
            let n = b as nat;
            assert(m < 32 && n < 32);
            assert(m / 16 == n / 16);
            assert(m % 16 == n % 16);
            assert(m == n);
        }
    }
    assert(a == b);
    let k = json_char(a).len() as int;
    assert(s.skip(k) =~= x);
    assert(t.skip(k) =~= y);
}

proof fn json_char_is_no_quote(c: char, rest: Seq<char>)
    ensures
        (json_char(c) + rest)[0] != '"',
{
    assert((json_char(c) + rest)[0] == json_char(c)[0]);
}

proof fn json_chars_tell_apart(a: Seq<char>, b: Seq<char>, tail: Seq<char>)
    requires
        tail.len() > 0,
        tail[0] == '"',
        json_chars(a) + tail == json_chars(b) + tail,
    ensures
        a == b,
    decreases a.len(),
{
    let x = json_chars(a) + tail;
    let y = json_chars(b) + tail;
    if a.len() == 0 || b.len() == 0 {
        if a.len() > 0 {
            assert(x =~= json_char(a[0]) + (json_chars(a.drop_first()) + tail));
            json_char_is_no_quote(a[0], json_chars(a.drop_first()) + tail);
            assert(y[0] == tail[0]);
        }
        if b.len() > 0 {
            assert(y =~= json_char(b[0]) + (json_chars(b.drop_first()) + tail));
            json_char_is_no_quote(b[0], json_chars(b.drop_first()) + tail);
            assert(x[0] == tail[0]);
        }
        assert(a =~= b);
    } else {
        let p = json_chars(a.drop_first()) + tail;
        let q = json_chars(b.drop_first()) + tail;
        assert(x =~= json_char(a[0]) + p);
        assert(y =~= json_char(b[0]) + q);
        json_char_tells_apart(a[0], b[0], p, q);
        json_chars_tell_apart(a.drop_first(), b.drop_first(), tail);
        assert(a =~= seq![a[0]] + a.drop_first());
        assert(b =~= seq![b[0]] + b.drop_first());
    }
}

/// A payload says which profile is asked for: requests for different
/// profiles are never sent as the same units.
pub proof fn payloads_tell_profiles_apart(a: Seq<char>, b: Seq<char>)
    requires
        wide(run_profile_json(a)) == wide(run_profile_json(b)),
    ensures
        a == b,
{
    let p = run_profile_json(a);
    let q = run_profile_json(b);
    assert(utf16(p) =~= wide(p).drop_last());
    assert(utf16(q) =~= wide(q).drop_last());
    utf16_text_of_utf16(p);
    utf16_text_of_utf16(q);
    assert(p == q);
    let head = "{\"type\":\"run_profile\",\"profile\":"@;
    let tail = seq!['"'] + "}"@;
    let n = head.len() + 1int;
    assert(p.skip(n) =~= json_chars(a) + tail);
    assert(q.skip(n) =~= json_chars(b) + tail);
    json_chars_tell_apart(a, b, tail);
}

proof fn json_chars_of_plain(s: Seq<char>)
    requires
        forall|i: int| 0 <= i < s.len() ==> json_char(#[trigger] s[i]) == seq![s[i]],
    ensures
        json_chars(s) == s,
    decreases s.len(),
{
    if s.len() > 0 {
        let rest = s.drop_first();
        assert forall|i: int| 0 <= i < rest.len() implies json_char(#[trigger] rest[i])
            == seq![rest[i]] by {
            assert(rest[i] == s[i + 1]);
        }
        json_chars_of_plain(rest);
        assert(json_char(s[0]) == seq![s[0]]);
        assert(seq![s[0]] + rest =~= s);
    }
}

/// Asking for any profile by its GUID is within the size limit, and the
/// GUID stands in the document as it is.
pub proof fn every_profile_can_be_asked_for(id: Seq<char>)
    requires
        is_guid(id),
    ensures
        run_profile_json(id) == "{\"type\":\"run_profile\",\"profile\":\""@ + id + "\"}"@,
        2 * wide(run_profile_json(id)).len() <= MAX_IPC_BYTES,
        payload(IPC_MAGIC, wide(run_profile_json(id))) == Ok::<Seq<char>, IpcError>(
            run_profile_json(id),
        ),
{
    reveal_strlit("{\"type\":\"run_profile\",\"profile\":");
    reveal_strlit("{\"type\":\"run_profile\",\"profile\":\"");
    reveal_strlit("}");
    reveal_strlit("\"}");
    let bare = unbraced(id);
    assert forall|i: int| 0 <= i < id.len() implies json_char(#[trigger] id[i]) == seq![id[i]]
        && id[i] < '\u{80}' by {
        if id == bare {
            assert(is_bare_guid(id));
            assert(is_guid_hyphen(i) || is_hex(id[i]));
        } else if 0 < i < id.len() - 1 {
            assert(id[i] == bare[i - 1]);
            assert(is_guid_hyphen(i - 1) || is_hex(bare[i - 1]));
        }
    }
    json_chars_of_plain(id);
    let json = run_profile_json(id);
    assert(json =~= "{\"type\":\"run_profile\",\"profile\":\""@ + id + "\"}"@);
    assert(id.len() <= 38);
    assert forall|i: int| 0 <= i < json.len() implies #[trigger] json[i] < '\u{80}' by {
        let n = "{\"type\":\"run_profile\",\"profile\":\""@.len();
        if n <= i < n + id.len() {
            assert(json[i] == id[i - n]);
        }
    }
    units_of_ascii(json);
    envelope_of(json);
}

proof fn envelope_of(json: Seq<char>)
    requires
        json.len() > 0,
        2 * wide(json).len() <= MAX_IPC_BYTES,
    ensures
        payload(IPC_MAGIC, wide(json)) == Ok::<Seq<char>, IpcError>(json),
{
    utf16_text_of_utf16(json);
    assert(body(wide(json)) =~= utf16(json));
}

} // verus!
