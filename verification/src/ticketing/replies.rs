//! What Linear's GraphQL replies mean: the outcome of a call, the issue a
//! creation returns, where a file upload goes; and the input an issue is
//! created with.
use vstd::prelude::*;

use crate::json::{
    json_array_len, json_array_len_at, json_error, json_str, json_string_at, json_syntax_error,
    json_value_text, json_value_text_at,
};
use crate::text::{decimal, parsed_i32, push_decimal};
use crate::ticketing::linear::{linear_priority, LinearIntegration};
use crate::ticketing::types::{CreateTicketRequest, TicketingError};

verus! {

/// Why a successful reply's body could not be read as JSON: the message of
/// the HTTP client's decoding error (`decode_error`) when it gave one, else
/// serde_json's message for the body text, if it does not parse.
pub open spec fn body_failure(body: Seq<char>, decode_error: Option<&str>) -> Option<Seq<char>> {
    match decode_error {
        Some(d) => Some(d@),
        None => json_syntax_error(body),
    }
}

/// The failure `body_failure` describes, computed.
fn read_failure(body: &str, decode_error: Option<&str>) -> (r: Option<String>)
    ensures
        match r {
            Some(m) => body_failure(body@, decode_error) == Some(m@),
            None => body_failure(body@, decode_error) is None,
        },
{
    match decode_error {
        Some(d) => Some(String::from_str(d)),
        None => json_error(body),
    }
}

/// True for the HTTP success statuses.
pub open spec fn is_success(code: u16) -> bool {
    200 <= code <= 299
}

/// The outcome of a GraphQL call from its reply: status `code`, status
/// line `status_line`, body `body`, and the HTTP client's error when it
/// could not decode a successful reply as JSON.
pub fn graphql_reply(code: u16, status_line: &str, body: &str, decode_error: Option<&str>) -> (r: Result<(), TicketingError>)
    ensures
        !is_success(code) ==> (r matches Err(TicketingError::NetworkError(m)) && m@ == "HTTP "@
            + status_line@ + ": "@ + body@),
        is_success(code) && body_failure(body@, decode_error) is Some ==> (r matches Err(
            TicketingError::NetworkError(m),
        ) && m@ == "Failed to parse response: "@ + body_failure(body@, decode_error)->0),
        is_success(code) && body_failure(body@, decode_error) is None ==> match json_value_text_at(body@, "/errors"@) {
            Some(e) => r matches Err(TicketingError::CreationFailed(m)) && m@ == "GraphQL errors: "@ + e,
            None => r is Ok,
        },
{
    if !(200 <= code && code <= 299) {
        return LinearIntegration::graphql_outcome(code, status_line, body, None);
    }
    if let Some(f) = read_failure(body, decode_error) {
        let mut m = String::from_str("Failed to parse response: ");
        m.append(f.as_str());
        return Err(TicketingError::NetworkError(m));
    }
    match json_value_text(body, "/errors") {
        Some(e) => LinearIntegration::graphql_outcome(code, status_line, body, Some(e.as_str())),
        None => Ok(()),
    }
}

/// Whether the successful reply to an authentication check carries
/// GraphQL errors; a body that cannot be read as JSON fails the
/// authentication.
pub fn auth_reply_has_errors(body: &str, decode_error: Option<&str>) -> (r: Result<bool, TicketingError>)
    ensures
        body_failure(body@, decode_error) is Some ==> (r matches Err(
            TicketingError::AuthenticationFailed(m),
        ) && m@ == "Failed to parse response: "@ + body_failure(body@, decode_error)->0),
        body_failure(body@, decode_error) is None ==> r == Ok::<bool, TicketingError>(
            json_value_text_at(body@, "/errors"@) is Some,
        ),
{
    if let Some(f) = read_failure(body, decode_error) {
        let mut m = String::from_str("Failed to parse response: ");
        m.append(f.as_str());
        return Err(TicketingError::AuthenticationFailed(m));
    }
    Ok(json_value_text(body, "/errors").is_some())
}

/// Where the issue of an `issueCreate` reply sits.
pub const ISSUE_POINTER: &'static str = "/data/issueCreate/issue";

/// The id, identifier and URL of the issue an `issueCreate` reply returns:
/// the call's own errors first, then a missing issue or missing field is a
/// creation failure naming what is missing.
pub fn issue_create_reply(code: u16, status_line: &str, body: &str, decode_error: Option<&str>) -> (r: Result<
    (String, String, String),
    TicketingError,
>)
    ensures
        graphql_reply_fails(code, body@, decode_error) ==> r is Err,
        !graphql_reply_fails(code, body@, decode_error) ==> if json_value_text_at(body@, ISSUE_POINTER@) is None {
            r matches Err(TicketingError::CreationFailed(m)) && m@ == "Failed to extract issue data from response"@
        } else if json_string_at(body@, "/data/issueCreate/issue/id"@) is None {
            r matches Err(TicketingError::CreationFailed(m)) && m@ == "Missing issue ID"@
        } else if json_string_at(body@, "/data/issueCreate/issue/identifier"@) is None {
            r matches Err(TicketingError::CreationFailed(m)) && m@ == "Missing issue identifier"@
        } else if json_string_at(body@, "/data/issueCreate/issue/url"@) is None {
            r matches Err(TicketingError::CreationFailed(m)) && m@ == "Missing issue URL"@
        } else {
            r matches Ok((id, identifier, url)) && Some(id@) == json_string_at(
                body@,
                "/data/issueCreate/issue/id"@,
            ) && Some(identifier@) == json_string_at(body@, "/data/issueCreate/issue/identifier"@)
                && Some(url@) == json_string_at(body@, "/data/issueCreate/issue/url"@)
        },
{
    match graphql_reply(code, status_line, body, decode_error) {
        Err(e) => return Err(e),
        Ok(()) => {},
    }
    if json_value_text(body, ISSUE_POINTER).is_none() {
        return Err(TicketingError::CreationFailed(String::from_str("Failed to extract issue data from response")));
    }
    let id = match json_str(body, "/data/issueCreate/issue/id") {
        Some(v) => v,
        None => return Err(TicketingError::CreationFailed(String::from_str("Missing issue ID"))),
    };
    let identifier = match json_str(body, "/data/issueCreate/issue/identifier") {
        Some(v) => v,
        None => return Err(TicketingError::CreationFailed(String::from_str("Missing issue identifier"))),
    };
    let url = match json_str(body, "/data/issueCreate/issue/url") {
        Some(v) => v,
        None => return Err(TicketingError::CreationFailed(String::from_str("Missing issue URL"))),
    };
    Ok((id, identifier, url))
}

/// True when `graphql_reply` reports a failure for the reply.
pub open spec fn graphql_reply_fails(code: u16, body: Seq<char>, decode_error: Option<&str>) -> bool {
    !is_success(code) || body_failure(body, decode_error) is Some || json_value_text_at(body, "/errors"@) is Some
}

/// Where a file goes: the URL to `PUT` it to, the asset URL it will be
/// served from, and the extra headers the upload needs.
#[derive(Debug, Clone, PartialEq)]
pub struct UploadTarget {
    pub upload_url: String,
    pub asset_url: String,
    pub headers: Vec<(String, String)>,
}

/// Where the upload target of a `fileUpload` reply sits.
pub const UPLOAD_POINTER: &'static str = "/data/fileUpload/uploadFile";

/// Where the upload URL of a `fileUpload` reply sits.
pub const UPLOAD_URL_POINTER: &'static str = "/data/fileUpload/uploadFile/uploadUrl";

/// Where the asset URL of a `fileUpload` reply sits.
pub const ASSET_URL_POINTER: &'static str = "/data/fileUpload/uploadFile/assetUrl";

/// Where the headers of a `fileUpload` reply sit.
pub const HEADERS_POINTER: &'static str = "/data/fileUpload/uploadFile/headers";

/// The pointer to field `field` of header `i` of the upload target.
pub open spec fn header_pointer(i: nat, field: Seq<char>) -> Seq<char> {
    UPLOAD_POINTER@ + "/headers/"@ + decimal(i) + "/"@ + field
}

/// A string field of a header, or empty when it is not a string.
pub open spec fn header_field(body: Seq<char>, i: nat, field: Seq<char>) -> Seq<char> {
    match json_string_at(body, header_pointer(i, field)) {
        Some(s) => s,
        None => Seq::empty(),
    }
}

/// The headers among the first `n` entries of the upload target's
/// `headers` array that have a non-empty key, in order.
pub open spec fn upload_headers(body: Seq<char>, n: nat) -> Seq<(Seq<char>, Seq<char>)>
    decreases n,
{
    if n == 0 {
        Seq::empty()
    } else {
        let rest = upload_headers(body, (n - 1) as nat);
        let key = header_field(body, (n - 1) as nat, "key"@);
        if key.len() > 0 {
            rest.push((key, header_field(body, (n - 1) as nat, "value"@)))
        } else {
            rest
        }
    }
}

/// The pointer text of header `i`'s field `field`.
fn header_field_pointer(i: usize, field: &str) -> (r: String)
    ensures
        r@ == header_pointer(i as nat, field@),
{
    let mut p = String::from_str(UPLOAD_POINTER);
    p.append("/headers/");
    push_decimal(&mut p, i as u64);
    p.append("/");
    p.append(field);
    p
}

/// A string field of header `i`, or empty.
fn read_header_field(body: &str, i: usize, field: &str) -> (r: String)
    ensures
        r@ == header_field(body@, i as nat, field@),
{
    let p = header_field_pointer(i, field);
    match json_str(body, p.as_str()) {
        Some(s) => s,
        None => String::new(),
    }
}

/// The upload target a `fileUpload` reply gives: an HTTP failure, a body
/// that is not JSON or GraphQL errors are network errors quoting what came
/// back; a missing target, upload URL or asset URL is a network error
/// naming it; the headers are those with a key.
pub fn file_upload_reply(code: u16, status_line: &str, body: &str, decode_error: Option<&str>) -> (r: Result<UploadTarget, TicketingError>)
    ensures
        !is_success(code) ==> (r matches Err(TicketingError::NetworkError(m)) && m@
            == "fileUpload mutation HTTP "@ + status_line@ + ": "@ + body@),
        is_success(code) && body_failure(body@, decode_error) is Some ==> (r matches Err(
            TicketingError::NetworkError(m),
        ) && m@ == "Failed to parse fileUpload response: "@ + body_failure(body@, decode_error)->0),
        is_success(code) && body_failure(body@, decode_error) is None ==> if json_value_text_at(body@, "/errors"@) is Some {
            r matches Err(TicketingError::NetworkError(m)) && m@ == "fileUpload GraphQL errors: "@
                + json_value_text_at(body@, "/errors"@)->0
        } else if json_value_text_at(body@, UPLOAD_POINTER@) is None {
            r matches Err(TicketingError::NetworkError(m)) && m@ == "fileUpload mutation returned no uploadFile"@
        } else if json_string_at(body@, UPLOAD_URL_POINTER@) is None {
            r matches Err(TicketingError::NetworkError(m)) && m@ == "fileUpload returned no uploadUrl"@
        } else if json_string_at(body@, ASSET_URL_POINTER@) is None {
            r matches Err(TicketingError::NetworkError(m)) && m@ == "fileUpload returned no assetUrl"@
        } else {
            r matches Ok(t) && Some(t.upload_url@) == json_string_at(body@, UPLOAD_URL_POINTER@)
                && Some(t.asset_url@) == json_string_at(body@, ASSET_URL_POINTER@)
                && t.headers@.map_values(|h: (String, String)| (h.0@, h.1@)) == upload_headers(
                body@,
                match json_array_len_at(body@, HEADERS_POINTER@) {
                    Some(n) => n,
                    None => 0,
                },
            )
        },
{
    if !(200 <= code && code <= 299) {
        let mut m = String::from_str("fileUpload mutation HTTP ");
        m.append(status_line);
        m.append(": ");
        m.append(body);
        return Err(TicketingError::NetworkError(m));
    }
    if let Some(f) = read_failure(body, decode_error) {
        let mut m = String::from_str("Failed to parse fileUpload response: ");
        m.append(f.as_str());
        return Err(TicketingError::NetworkError(m));
    }
    if let Some(e) = json_value_text(body, "/errors") {
        let mut m = String::from_str("fileUpload GraphQL errors: ");
        m.append(e.as_str());
        return Err(TicketingError::NetworkError(m));
    }
    if json_value_text(body, UPLOAD_POINTER).is_none() {
        return Err(TicketingError::NetworkError(String::from_str("fileUpload mutation returned no uploadFile")));
    }
    let upload_url = match json_str(body, UPLOAD_URL_POINTER) {
        Some(v) => v,
        None => return Err(TicketingError::NetworkError(String::from_str("fileUpload returned no uploadUrl"))),
    };
    let asset_url = match json_str(body, ASSET_URL_POINTER) {
        Some(v) => v,
        None => return Err(TicketingError::NetworkError(String::from_str("fileUpload returned no assetUrl"))),
    };
    let n = match json_array_len(body, HEADERS_POINTER) {
        Some(n) => n,
        None => 0,
    };
    let mut headers: Vec<(String, String)> = Vec::new();
    let mut i: usize = 0;
    while i < n
        invariant
            i <= n,
            headers@.map_values(|h: (String, String)| (h.0@, h.1@)) == upload_headers(body@, i as nat),
        decreases n - i,
    {
        let key = read_header_field(body, i, "key");
        let value = read_header_field(body, i, "value");
        proof {
            reveal_strlit("key");
            reveal_strlit("value");
        }
        if key.unicode_len() > 0 {
            headers.push((key, value));
        }
        assert(headers@.map_values(|h: (String, String)| (h.0@, h.1@)) =~= upload_headers(body@, (i + 1) as nat));
        i = i + 1;
    }
    Ok(UploadTarget { upload_url, asset_url, headers })
}

/// The input an issue is created with.
#[derive(Debug, Clone, PartialEq)]
pub struct IssueInput {
    pub team_id: String,
    pub title: String,
    pub description: String,
    /// Sent only when the request names a priority.
    pub priority: Option<i32>,
    /// Sent only when the request has labels.
    pub label_ids: Option<Vec<String>>,
    pub assignee_id: Option<String>,
    pub state_id: Option<String>,
}

/// The `issueCreate` input for `request` in team `team_id`, described by
/// `description`: the priority the request spells (0 when it spells no
/// integer), the labels when there are any, and the assignee and workflow
/// state when given.
pub fn issue_create_input(team_id: &str, request: &CreateTicketRequest, description: &str) -> (r: IssueInput)
    ensures
        r.team_id@ == team_id@,
        r.title@ == request.title@,
        r.description@ == description@,
        match request.priority {
            Some(p) => r.priority == Some(match parsed_i32(p@) {
                Some(v) => v as i32,
                None => 0i32,
            }),
            None => r.priority is None,
        },
        request.labels@.len() == 0 ==> r.label_ids is None,
        request.labels@.len() > 0 ==> (r.label_ids matches Some(l) && l@ == request.labels@),
        r.assignee_id == request.assignee_id,
        r.state_id == request.state_id,
{
    let priority = match &request.priority {
        Some(p) => Some(linear_priority(p.as_str())),
        None => None,
    };
    let label_ids = if request.labels.len() > 0 {
        Some(request.labels.clone())
    } else {
        None
    };
    IssueInput {
        team_id: String::from_str(team_id),
        title: request.title.clone(),
        description: String::from_str(description),
        priority,
        label_ids,
        assignee_id: request.assignee_id.clone(),
        state_id: request.state_id.clone(),
    }
}

} // verus!
