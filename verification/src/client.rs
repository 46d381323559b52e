//! The authenticated-request contract: base-URL normalization, header
//! selection, and the uniform classification of HTTP outcomes into a
//! success value or one descriptive failure.

use vstd::prelude::*;
use vstd::string::*;

use crate::credentials::auth_header_view;
use crate::credentials::view_opt;
use crate::credentials::view_opt_str;
use crate::credentials::Credentials;
use crate::credentials::CredentialsView;
use crate::jsonval::error_member_of;
use crate::jsonval::hint_member_of;
use crate::jsonval::is_object_of;
use crate::jsonval::message_member_of;
use crate::jsonval::probe_error_members;
use crate::strutil::dec_rep;
use crate::strutil::u16_to_string;

verus! {

/// One failure class per outcome: transport trouble, a non-success
/// status with its decoded message, a success whose body did not decode,
/// or a failed liveness probe.
#[derive(Debug)]
pub enum ClientError {
    Network(String),
    Api(u16, String),
    Decode(String),
    Connection(String),
}

impl ClientError {
    /// The human-readable text of the failure.
    pub fn message(&self) -> (r: &str)
        ensures
            match self {
                ClientError::Network(m) => r@ == m@,
                ClientError::Api(_, m) => r@ == m@,
                ClientError::Decode(m) => r@ == m@,
                ClientError::Connection(m) => r@ == m@,
            },
    {
        match self {
            ClientError::Network(m) => m.as_str(),
            ClientError::Api(_, m) => m.as_str(),
            ClientError::Decode(m) => m.as_str(),
            ClientError::Connection(m) => m.as_str(),
        }
    }
}

/// The base endpoint substituted when none is configured.
pub open spec fn default_api_url_view() -> Seq<char> {
    "http://localhost:8080"@
}

pub fn default_api_url() -> (r: &'static str)
    ensures
        r@ == default_api_url_view(),
{
    "http://localhost:8080"
}

/// The base URL with its trailing slashes removed.
pub open spec fn trim_trailing_slashes(s: Seq<char>) -> Seq<char>
    decreases s.len(),
{
    if s.len() > 0 && s[s.len() - 1] == '/' {
        trim_trailing_slashes(s.drop_last())
    } else {
        s
    }
}

/// The effective base URL: the default when none is configured, else the
/// configured one without trailing slashes.
pub open spec fn normalized_base_url(s: Seq<char>) -> Seq<char> {
    if s.len() == 0 {
        default_api_url_view()
    } else {
        trim_trailing_slashes(s)
    }
}

/// Normalizes a configured base URL for request composition.
pub fn normalize_base_url(url: &str) -> (r: String)
    ensures
        r@ == normalized_base_url(url@),
{
    let n = url.unicode_len();
    if n == 0 {
        return String::from_str(default_api_url());
    }
    let mut end: usize = n;
    proof {
        assert(url@.subrange(0, n as int) =~= url@);
    }
    while end > 0 && url.get_char(end - 1) == '/'
        invariant
            end <= n,
            n == url@.len(),
            trim_trailing_slashes(url@) == trim_trailing_slashes(url@.subrange(0, end as int)),
        decreases end,
    {
        proof {
            assert(url@.subrange(0, end as int).drop_last() =~= url@.subrange(0, end - 1));
        }
        end = end - 1;
    }
    proof {
        if end > 0 {
            assert(url@.subrange(0, end as int)[end - 1] == url@[end - 1]);
        }
        assert(trim_trailing_slashes(url@.subrange(0, end as int)) == url@.subrange(
            0,
            end as int,
        ));
    }
    String::from_str(url.substring_char(0, end))
}

/// The full request URL: the normalized base followed by the path.
pub fn compose_url(base: &str, path: &str) -> (r: String)
    ensures
        r@ == base@ + path@,
{
    String::from_str(base).concat(path)
}

/// The headers attached to every request: the single authentication
/// header when a credential is present, then the environment id when
/// one is set.
pub open spec fn request_headers_view(c: CredentialsView) -> Seq<(Seq<char>, Seq<char>)> {
    (match auth_header_view(c) {
        Some(h) => seq![h],
        None => Seq::empty(),
    }) + (match c.environment_id {
        Some(e) => seq![("x-environment-id"@, e)],
        None => Seq::empty(),
    })
}

/// The character-level model of a header list.
pub open spec fn headers_view(v: Seq<(String, String)>) -> Seq<(Seq<char>, Seq<char>)> {
    v.map(|_i: int, h: (String, String)| (h.0@, h.1@))
}

/// The header list for one request under the given credentials.
pub fn request_headers(c: &Credentials) -> (r: Vec<(String, String)>)
    ensures
        headers_view(r@) == request_headers_view(c@),
{
    let mut v: Vec<(String, String)> = Vec::new();
    match c.get_auth_header() {
        Some(h) => {
            v.push((String::from_str(h.0), h.1));
        },
        None => {},
    }
    match &c.environment_id {
        Some(e) => {
            v.push((String::from_str("x-environment-id"), e.clone()));
        },
        None => {},
    }
    proof {
        assert(headers_view(v@) =~= request_headers_view(c@));
    }
    v
}

/// The effective base endpoint falls back to the hardcoded default
/// exactly when nothing configured one: an unset URL resolves to the
/// default, a configured one only loses its trailing slashes.
pub proof fn lemma_effective_url(url: Seq<char>)
    ensures
        url.len() == 0 ==> normalized_base_url(url) == default_api_url_view(),
        url.len() > 0 ==> normalized_base_url(url) == trim_trailing_slashes(url),
{
}

/// Whether a status code counts as HTTP success.
pub open spec fn is_success_status(status: u16) -> bool {
    200 <= status < 300
}

pub fn status_is_success(status: u16) -> (r: bool)
    ensures
        r == is_success_status(status),
{
    200 <= status && status < 300
}

/// The canonical reason phrase of a status code, as http's fixed table
/// gives it; a function of the code alone.
pub uninterp spec fn reason_of(status: u16) -> Option<Seq<char>>;

/// Relies on StatusCode::canonical_reason (http, re-exported by
/// reqwest): the reason phrase is a fixed table keyed by the numeric
/// code; codes outside the valid range have none.
#[verifier::external_body]
fn status_reason(status: u16) -> (r: Option<&'static str>)
    ensures
        view_opt_str(r) == reason_of(status),
{
    match reqwest::StatusCode::from_u16(status) {
        Ok(s) => s.canonical_reason(),
        Err(_) => None,
    }
}

/// The optional `error`/`message`/`hint` members of a structured error
/// body.
#[derive(Debug)]
pub struct ErrorFields {
    pub error: Option<String>,
    pub message: Option<String>,
    pub hint: Option<String>,
}

#[verifier::ext_equal]
pub struct ErrorFieldsView {
    pub error: Option<Seq<char>>,
    pub message: Option<Seq<char>>,
    pub hint: Option<Seq<char>>,
}

impl View for ErrorFields {
    type V = ErrorFieldsView;

    open spec fn view(&self) -> ErrorFieldsView {
        ErrorFieldsView {
            error: view_opt(self.error),
            message: view_opt(self.message),
            hint: view_opt(self.hint),
        }
    }
}

/// The headline chosen from a structured error body: `error` wins over
/// `message`; with neither, a fixed placeholder.
pub open spec fn chosen_error_text(f: ErrorFieldsView) -> Seq<char> {
    match f.error {
        Some(e) => e,
        None => match f.message {
            Some(m) => m,
            None => "Unknown error"@,
        },
    }
}

/// The message built from a structured error body:
/// "status (reason): text", with " — hint" appended when a hint came.
pub open spec fn structured_message_view(
    status: u16,
    reason: Option<Seq<char>>,
    f: ErrorFieldsView,
) -> Seq<char> {
    dec_rep(status as int) + " ("@ + (match reason {
        Some(r) => r,
        None => Seq::empty(),
    }) + "): "@ + chosen_error_text(f) + (match f.hint {
        Some(h) => " — "@ + h,
        None => Seq::empty(),
    })
}

/// The display form of a status code: the number, then its reason
/// phrase, or a fixed marker when the code has none.
pub open spec fn status_display_view(status: u16, reason: Option<Seq<char>>) -> Seq<char> {
    dec_rep(status as int) + " "@ + (match reason {
        Some(r) => r,
        None => "<unknown status code>"@,
    })
}

/// The message for a non-success response whose body was not a
/// structured error object: fixed guidance for the common statuses,
/// else the status display followed by the raw body.
pub open spec fn fallback_message_view(
    status: u16,
    reason: Option<Seq<char>>,
    body: Seq<char>,
) -> Seq<char> {
    if status == 401 {
        "Authentication failed. Run `flexprice auth login` or check your API key."@
    } else if status == 403 {
        "Permission denied. Your credentials may not have access to this resource."@
    } else if status == 404 {
        "Resource not found. Verify the ID is correct."@
    } else {
        status_display_view(status, reason) + ": "@ + body
    }
}

/// The message for a failure of the raw-text request variant: the status
/// display followed by the raw body.
pub open spec fn text_error_view(status: u16, reason: Option<Seq<char>>, body: Seq<char>) -> Seq<
    char,
> {
    status_display_view(status, reason) + ": "@ + body
}

/// Builds the message for a structured error body.
pub fn compose_error_message(status: u16, fields: &ErrorFields) -> (r: String)
    ensures
        r@ == structured_message_view(status, reason_of(status), fields@),
{
    let mut s = u16_to_string(status);
    s.append(" (");
    match status_reason(status) {
        Some(reason) => s.append(reason),
        None => {},
    }
    s.append("): ");
    match &fields.error {
        Some(e) => s.append(e.as_str()),
        None => match &fields.message {
            Some(m) => s.append(m.as_str()),
            None => s.append("Unknown error"),
        },
    }
    match &fields.hint {
        Some(h) => {
            s.append(" — ");
            s.append(h.as_str());
        },
        None => {},
    }
    proof {
        assert(s@ =~= structured_message_view(status, reason_of(status), fields@));
    }
    s
}

/// Builds the status display: "status reason".
fn status_display(status: u16) -> (r: String)
    ensures
        r@ == status_display_view(status, reason_of(status)),
{
    let mut s = u16_to_string(status);
    s.append(" ");
    match status_reason(status) {
        Some(reason) => s.append(reason),
        None => s.append("<unknown status code>"),
    }
    proof {
        assert(s@ =~= status_display_view(status, reason_of(status)));
    }
    s
}

/// Builds the fallback message for a body that was no structured error
/// object.
pub fn fallback_error_message(status: u16, body: &str) -> (r: String)
    ensures
        r@ == fallback_message_view(status, reason_of(status), body@),
{
    if status == 401 {
        String::from_str("Authentication failed. Run `flexprice auth login` or check your API key.")
    } else if status == 403 {
        String::from_str(
            "Permission denied. Your credentials may not have access to this resource.",
        )
    } else if status == 404 {
        String::from_str("Resource not found. Verify the ID is correct.")
    } else {
        let mut s = status_display(status);
        s.append(": ");
        s.append(body);
        proof {
            assert(s@ =~= fallback_message_view(status, reason_of(status), body@));
        }
        s
    }
}

/// Whether a body is the structured error shape: a JSON object whose
/// `error`, `message` and `hint` members, where present, are strings —
/// a present member of another type fails the structured parse, and the
/// fallback takes over.
pub open spec fn is_structured_error(body: Seq<char>) -> bool {
    &&& is_object_of(body)
    &&& error_member_of(body) != Some(None::<Seq<char>>)
    &&& message_member_of(body) != Some(None::<Seq<char>>)
    &&& hint_member_of(body) != Some(None::<Seq<char>>)
}

/// Flattens a three-way member that is known not to be a present
/// non-string.
pub open spec fn member_string(m: Option<Option<Seq<char>>>) -> Option<Seq<char>> {
    match m {
        Some(v) => v,
        None => None,
    }
}

/// The `error`/`message`/`hint` triple a structured error body carries.
pub open spec fn error_fields_of(body: Seq<char>) -> ErrorFieldsView {
    ErrorFieldsView {
        error: member_string(error_member_of(body)),
        message: member_string(message_member_of(body)),
        hint: member_string(hint_member_of(body)),
    }
}

/// The whole message of a non-success response: the structured form
/// over the body's own members when the body is a structured error
/// object, else the fallback.
pub open spec fn error_message_view(status: u16, reason: Option<Seq<char>>, body: Seq<char>) -> Seq<
    char,
> {
    if is_structured_error(body) {
        structured_message_view(status, reason, error_fields_of(body))
    } else {
        fallback_message_view(status, reason, body)
    }
}

/// The message of a non-success response.
pub fn classify_error_body(status: u16, body: &str) -> (r: String)
    ensures
        r@ == error_message_view(status, reason_of(status), body@),
{
    match probe_error_members(body) {
        Some(members) => {
            let (e, m, h) = members;
            if matches!(e, Some(None)) || matches!(m, Some(None)) || matches!(h, Some(None)) {
                fallback_error_message(status, body)
            } else {
                let fields = ErrorFields {
                    error: match e {
                        Some(v) => v,
                        None => None,
                    },
                    message: match m {
                        Some(v) => v,
                        None => None,
                    },
                    hint: match h {
                        Some(v) => v,
                        None => None,
                    },
                };
                proof {
                    assert(fields@ =~= error_fields_of(body@));
                }
                compose_error_message(status, &fields)
            }
        },
        None => fallback_error_message(status, body),
    }
}

/// The outcome of a typed request, given its status and raw body: `Ok`
/// exactly on a success status; otherwise an API failure carrying the
/// classified message. The decoding of a success body is the caller's
/// next step.
pub fn classify_response(status: u16, body: &str) -> (r: Result<(), ClientError>)
    ensures
        r is Ok <==> is_success_status(status),
        r matches Err(e) ==> (e matches ClientError::Api(s, m) && s == status && m@
            == error_message_view(status, reason_of(status), body@)),
{
    if status_is_success(status) {
        Ok(())
    } else {
        Err(ClientError::Api(status, classify_error_body(status, body)))
    }
}

/// The outcome of a raw-text request: the body itself on success, else
/// the status display with the raw body.
pub fn classify_text_response(status: u16, body: String) -> (r: Result<String, ClientError>)
    ensures
        r is Ok <==> is_success_status(status),
        r matches Ok(b) ==> b@ == body@,
        r matches Err(e) ==> (e matches ClientError::Api(s, m) && s == status && m@
            == text_error_view(status, reason_of(status), body@)),
{
    if status_is_success(status) {
        Ok(body)
    } else {
        let mut s = status_display(status);
        s.append(": ");
        s.append(body.as_str());
        proof {
            assert(s@ =~= text_error_view(status, reason_of(status), body@));
        }
        Err(ClientError::Api(status, s))
    }
}

/// The outcome of the liveness probe: success exactly on a success
/// status; every other status one unified connection failure.
pub fn health_result(status: u16) -> (r: Result<(), ClientError>)
    ensures
        r is Ok <==> is_success_status(status),
        r matches Err(e) ==> (e matches ClientError::Connection(m) && m@ == "API returned status "@
            + status_display_view(status, reason_of(status))),
{
    if status_is_success(status) {
        Ok(())
    } else {
        let mut s = String::from_str("API returned status ");
        let d = status_display(status);
        s.append(d.as_str());
        Err(ClientError::Connection(s))
    }
}

} // verus!
