//! GitHub device-flow sign-in and update checks: the decisions taken on the
//! service's answers.
use crate::text::{chars_of, str_equals, string_from_chars, trim, trim_chars};
use crate::version::{strip_leading_v, trim_version_tag, version_gt, version_newer};
use vstd::prelude::*;

verus! {

/// The device-flow codes GitHub hands out.
#[derive(Debug, Clone)]
pub struct DeviceFlowResponse {
    pub device_code: String,
    pub user_code: String,
    pub verification_uri: String,
    pub expires_in: u64,
    pub interval: u64,
}

/// A signed-in GitHub user.
#[derive(Debug, Clone)]
pub struct GitHubUser {
    pub login: String,
    pub avatar_url: String,
    pub name: Option<String>,
}

/// The answer to one poll for the device-flow token.
#[derive(Debug, Clone)]
pub struct PollResult {
    pub status: String,
    pub token: Option<String>,
    pub message: Option<String>,
}

/// Whether a newer release is available.
#[derive(Debug, Clone)]
pub struct UpdateInfo {
    pub available: bool,
    pub current_version: String,
    pub latest_version: Option<String>,
    pub release_notes: Option<String>,
}

/// The values of the string fields `key1` and `key2` of the JSON document
/// `body`: `None` when `body` is not JSON; for each key `None` when there is
/// no such field or the field is not a string.
pub uninterp spec fn json_string_fields_of(body: Seq<u8>, key1: Seq<char>, key2: Seq<char>) -> Option<
    (Option<Seq<char>>, Option<Seq<char>>),
>;

/// Calls `serde_json::from_slice` into a `serde_json::Value`, then
/// `Value::get` with each key, reading each field when it is a string.
/// Claims only that the result is a function of the bytes and the keys,
/// named `json_string_fields_of`.
#[verifier::external_body]
fn json_string_fields(body: &[u8], key1: &str, key2: &str) -> (r: Option<(Option<String>, Option<String>)>)
    ensures
        r.deep_view() == json_string_fields_of(body@, key1@, key2@),
{
    match serde_json::from_slice::<serde_json::Value>(body) {
        Ok(v) => {
            let first = match v.get(key1) {
                Some(serde_json::Value::String(s)) => Some(s.clone()),
                _ => None,
            };
            let second = match v.get(key2) {
                Some(serde_json::Value::String(s)) => Some(s.clone()),
                _ => None,
            };
            Some((first, second))
        },
        Err(_) => None,
    }
}

/// What the HTTP client reports when a response body is not valid JSON.
pub open spec fn decode_error_text() -> Seq<char> {
    "error decoding response body"@
}

/// The message of a poll whose response could not be read as JSON.
pub open spec fn poll_decode_error() -> Seq<char> {
    "failed to parse response: "@ + decode_error_text()
}

/// Whether a device flow is waiting for the user.
pub struct PollingState {
    polling: bool,
}

impl View for PollingState {
    type V = bool;

    /// Whether polling for the token is under way.
    closed spec fn view(&self) -> bool {
        self.polling
    }
}

impl PollingState {
    /// Not polling.
    pub fn new() -> (r: Self)
        ensures
            !r@,
    {
        PollingState { polling: false }
    }

    /// A device flow was started: polling begins.
    pub fn start(&mut self)
        ensures
            final(self)@,
    {
        self.polling = true;
    }

    /// The user cancelled: polling stops.
    pub fn cancel(&mut self)
        ensures
            !final(self)@,
    {
        self.polling = false;
    }

    /// Whether polling is under way.
    pub fn is_polling(&self) -> (r: bool)
        ensures
            r == self@,
    {
        self.polling
    }
}

/// The mathematical value of a `PollResult`.
pub struct PollView {
    pub status: Seq<char>,
    pub token: Option<Seq<char>>,
    pub message: Option<Seq<char>>,
}

impl View for PollResult {
    type V = PollView;

    open spec fn view(&self) -> PollView {
        PollView {
            status: self.status@,
            token: self.token.deep_view(),
            message: self.message.deep_view(),
        }
    }
}

/// The answer to a poll made while no device flow is waiting.
pub open spec fn not_polling_view() -> PollView {
    PollView { status: "error"@, token: None, message: Some("not polling"@) }
}

/// The answer to a poll, from the response's `access_token` and `error`
/// fields: success with the token; pending while the user has not finished
/// (or GitHub asks to slow down); expired; else an error carrying the error
/// code ("unknown" when there is none).
pub open spec fn poll_view(access_token: Option<Seq<char>>, error: Option<Seq<char>>) -> PollView {
    match access_token {
        Some(t) => PollView { status: "success"@, token: Some(t), message: None },
        None => {
            let e = match error {
                Some(e) => e,
                None => "unknown"@,
            };
            if e == "authorization_pending"@ || e == "slow_down"@ {
                PollView { status: "pending"@, token: None, message: None }
            } else if e == "expired_token"@ {
                PollView { status: "expired"@, token: None, message: None }
            } else {
                PollView { status: "error"@, token: None, message: Some(e) }
            }
        },
    }
}

/// Whether polling goes on after a poll answered `v`: only while pending.
pub open spec fn keeps_polling(v: PollView) -> bool {
    v.status == "pending"@
}

/// The answer to a poll made while no device flow is waiting.
pub fn poll_when_not_polling() -> (r: PollResult)
    ensures
        r@ == not_polling_view(),
{
    PollResult {
        status: String::from_str("error"),
        token: None,
        message: Some(String::from_str("not polling")),
    }
}

/// The first step of a poll: with no device flow waiting, the answer is
/// "not polling" and no request is made; otherwise there is no answer yet
/// and the request for the token is to be sent.
pub open spec fn poll_start_view(polling: bool) -> Option<PollView> {
    if polling {
        None
    } else {
        Some(not_polling_view())
    }
}

/// The first step of a poll. `Some` is the answer, given without asking
/// GitHub; `None` means: send the request and read the answer with
/// `poll_response`. The polling state is only read.
pub fn start_poll(state: &PollingState) -> (r: Option<PollResult>)
    ensures
        (match r {
            Some(p) => Some(p@),
            None => None,
        }) == poll_start_view(state@),
{
    if state.is_polling() {
        None
    } else {
        Some(poll_when_not_polling())
    }
}

/// Decides the answer to a poll from the response's `access_token` and
/// `error` fields, and stops polling unless the flow is still pending. The
/// caller stores the token of a success.
pub fn poll_decision(
    state: &mut PollingState,
    access_token: Option<String>,
    error: Option<String>,
) -> (r: PollResult)
    ensures
        r@ == poll_view(access_token.deep_view(), error.deep_view()),
        final(state)@ == (old(state)@ && keeps_polling(r@)),
{
    proof {
        reveal_strlit("pending");
        reveal_strlit("success");
        reveal_strlit("expired");
        reveal_strlit("error");
        assert("success"@[0] != "pending"@[0]);
        assert("expired"@[0] != "pending"@[0]);
        assert("error"@[0] != "pending"@[0]);
    }
    if let Some(token) = access_token {
        state.cancel();
        return PollResult { status: String::from_str("success"), token: Some(token), message: None };
    }
    let e = match error {
        Some(e) => e,
        None => String::from_str("unknown"),
    };
    if str_equals(e.as_str(), "authorization_pending") || str_equals(e.as_str(), "slow_down") {
        return PollResult { status: String::from_str("pending"), token: None, message: None };
    }
    if str_equals(e.as_str(), "expired_token") {
        state.cancel();
        return PollResult { status: String::from_str("expired"), token: None, message: None };
    }
    state.cancel();
    PollResult { status: String::from_str("error"), token: None, message: Some(e) }
}

/// Reads the answer to a poll from the response body. A body that is not
/// JSON is an error; otherwise the answer is `poll_decision`'s on the body's
/// `access_token` and `error` string fields.
pub fn poll_response(state: &mut PollingState, body: &[u8]) -> (r: Result<PollResult, String>)
    ensures
        json_string_fields_of(body@, "access_token"@, "error"@) is None ==> (r matches Err(e)
            && e@ == poll_decode_error()) && final(state)@ == old(state)@,
        json_string_fields_of(body@, "access_token"@, "error"@) matches Some(fields) ==> {
            &&& r matches Ok(p) && p@ == poll_view(fields.0, fields.1)
            &&& final(state)@ == (old(state)@ && keeps_polling(poll_view(fields.0, fields.1)))
        },
{
    match json_string_fields(body, "access_token", "error") {
        None => Err(poll_decode_error_string()),
        Some((token, error)) => Ok(poll_decision(state, token, error)),
    }
}

/// The message of a poll whose response could not be read as JSON.
fn poll_decode_error_string() -> (r: String)
    ensures
        r@ == poll_decode_error(),
{
    let mut s = String::from_str("failed to parse response: ");
    s.append("error decoding response body");
    s
}

/// The token kept in the token file: the file's text without surrounding
/// white space, or none when that is empty.
pub open spec fn stored_token_of(contents: Seq<char>) -> Option<Seq<char>> {
    if trim(contents).len() == 0 {
        None
    } else {
        Some(trim(contents))
    }
}

/// Reads the token out of the token file's text.
pub fn token_from_file(contents: &str) -> (r: Option<String>)
    ensures
        r.deep_view() == stored_token_of(contents@),
{
    let trimmed = trim_chars(&chars_of(contents));
    if trimmed.len() == 0 {
        None
    } else {
        Some(string_from_chars(&trimmed))
    }
}

/// What to do with the answer to a request for the signed-in user.
#[derive(Debug, Clone, Copy, PartialEq, Eq, Structural)]
pub enum UserLookup {
    /// A success status (200 to 299): read the user from the body.
    ReadUser,
    /// 401 Unauthorized: the token is no longer valid; forget it and answer
    /// that nobody is signed in.
    ForgetToken,
    /// Any other status: an error naming the status.
    Fail,
}

/// The step taken on the HTTP status of a request for the signed-in user.
pub fn user_lookup_step(status: u16) -> (r: UserLookup)
    ensures
        200 <= status <= 299 ==> r == UserLookup::ReadUser,
        status == 401 ==> r == UserLookup::ForgetToken,
        !(200 <= status <= 299) && status != 401 ==> r == UserLookup::Fail,
{
    if 200 <= status && status <= 299 {
        UserLookup::ReadUser
    } else if status == 401 {
        UserLookup::ForgetToken
    } else {
        UserLookup::Fail
    }
}

/// The version assumed when the release has no tag or the app has no
/// version.
pub open spec fn zero_version() -> Seq<char> {
    "0.0.0"@
}

/// The mathematical value of an `UpdateInfo`.
pub struct UpdateView {
    pub available: bool,
    pub current_version: Seq<char>,
    pub latest_version: Option<Seq<char>>,
    pub release_notes: Option<Seq<char>>,
}

impl View for UpdateInfo {
    type V = UpdateView;

    open spec fn view(&self) -> UpdateView {
        UpdateView {
            available: self.available,
            current_version: self.current_version@,
            latest_version: self.latest_version.deep_view(),
            release_notes: self.release_notes.deep_view(),
        }
    }
}

/// The update check's answer when the repository has no release.
pub fn no_release(current_version: String) -> (r: UpdateInfo)
    ensures
        r@ == (UpdateView {
            available: false,
            current_version: current_version@,
            latest_version: None,
            release_notes: None,
        }),
{
    UpdateInfo { available: false, current_version, latest_version: None, release_notes: None }
}

/// The update check's answer for a release with the given tag (if any) and
/// notes: the latest version is the tag without its leading 'v's ("0.0.0"
/// without a tag), available when it is newer than the current version.
pub open spec fn release_view(
    current_version: Seq<char>,
    tag: Option<Seq<char>>,
    notes: Option<Seq<char>>,
) -> UpdateView {
    let latest = strip_leading_v(
        match tag {
            Some(t) => t,
            None => zero_version(),
        },
    );
    UpdateView {
        available: version_newer(latest, current_version),
        current_version: current_version,
        latest_version: Some(latest),
        release_notes: notes,
    }
}

/// The update check's answer for a release with the given tag and notes.
pub fn release_update_info(current_version: String, tag: Option<String>, notes: Option<String>) -> (r: UpdateInfo)
    ensures
        r@ == release_view(current_version@, tag.deep_view(), notes.deep_view()),
{
    let tag = match tag {
        Some(t) => t,
        None => String::from_str("0.0.0"),
    };
    let latest = trim_version_tag(tag.as_str());
    let available = version_gt(latest.as_str(), current_version.as_str());
    UpdateInfo { available, current_version, latest_version: Some(latest), release_notes: notes }
}

/// The update check's answer read from the latest release's JSON body
/// (`tag_name` and `body` string fields). A body that is not JSON is an
/// error.
pub fn update_info_from_release(current_version: String, body: &[u8]) -> (r: Result<UpdateInfo, String>)
    ensures
        json_string_fields_of(body@, "tag_name"@, "body"@) is None ==> (r matches Err(e) && e@
            == decode_error_text()),
        json_string_fields_of(body@, "tag_name"@, "body"@) matches Some(fields) ==> (r matches Ok(
            u,
        ) && u@ == release_view(current_version@, fields.0, fields.1)),
{
    match json_string_fields(body, "tag_name", "body") {
        None => Err(String::from_str("error decoding response body")),
        Some((tag, notes)) => Ok(release_update_info(current_version, tag, notes)),
    }
}


/// A poll made while no device flow is waiting answers "not polling"
/// without a request, carries no token to store, and (as `start_poll` only
/// reads the polling state) changes nothing.
pub proof fn law_poll_without_flow_answers_not_polling(polling: bool)
    requires
        !polling,
    ensures
        poll_start_view(polling) == Some(not_polling_view()),
        not_polling_view().token is None,
{
}

/// After a final answer (success, expired or an error) polling has
/// stopped, so the next poll answers "not polling" without a request,
/// until a new device flow starts.
pub proof fn law_final_answer_ends_polling(
    polling: bool,
    access_token: Option<Seq<char>>,
    error: Option<Seq<char>>,
)
    requires
        poll_view(access_token, error).status != "pending"@,
    ensures
        poll_start_view(polling && keeps_polling(poll_view(access_token, error))) == Some(
            not_polling_view(),
        ),
{
}

} // verus!
