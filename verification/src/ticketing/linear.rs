//! The Linear integration: its state (credentials and endpoint) and the
//! decisions it makes around the GraphQL calls — which credentials to use,
//! how answers are reported, and the description a ticket is filed with.
use vstd::prelude::*;

use crate::text::{decimal, parse_i32, parsed_i32, push_decimal, str_eq};
use crate::ticketing::types::{
    AttachmentUploadResult, ConnectionStatus, TicketingCredentials, TicketingError,
};

verus! {

/// The Linear GraphQL endpoint.
pub const LINEAR_API_ENDPOINT: &'static str = "https://api.linear.app/graphql";

/// The name of the integration.
pub const LINEAR_NAME: &'static str = "Linear";

/// Message of the error for a call made before authenticating.
pub const NOT_AUTHENTICATED: &'static str = "Not authenticated";

/// Linear issue creation through its GraphQL API.
pub struct LinearIntegration {
    credentials: Option<TicketingCredentials>,
    api_endpoint: String,
}

/// The asset URLs of the successful uploads, in order.
pub open spec fn success_urls(rs: Seq<AttachmentUploadResult>) -> Seq<Seq<char>>
    decreases rs.len(),
{
    if rs.len() == 0 {
        Seq::empty()
    } else if rs.last().success {
        success_urls(rs.drop_last()).push(rs.last().message@)
    } else {
        success_urls(rs.drop_last())
    }
}

/// The files whose upload failed, in order.
pub open spec fn failed_paths(rs: Seq<AttachmentUploadResult>) -> Seq<Seq<char>>
    decreases rs.len(),
{
    if rs.len() == 0 {
        Seq::empty()
    } else if !rs.last().success {
        failed_paths(rs.drop_last()).push(rs.last().file_path@)
    } else {
        failed_paths(rs.drop_last())
    }
}

/// Markdown image lines for the URLs, numbered from 1.
pub open spec fn screenshot_lines(urls: Seq<Seq<char>>) -> Seq<char>
    decreases urls.len(),
{
    if urls.len() == 0 {
        Seq::empty()
    } else {
        screenshot_lines(urls.drop_last()) + "![Screenshot "@ + decimal(urls.len()) + "]("@
            + urls.last() + ")\n\n"@
    }
}

/// The items separated by `sep`.
pub open spec fn join(items: Seq<Seq<char>>, sep: Seq<char>) -> Seq<char>
    decreases items.len(),
{
    if items.len() == 0 {
        Seq::empty()
    } else if items.len() == 1 {
        items[0]
    } else {
        join(items.drop_last(), sep) + sep + items.last()
    }
}

/// The description a ticket is filed with: the request's description, then
/// the uploaded screenshots embedded as images, then a note naming the
/// files that could not be uploaded.
pub open spec fn full_description(description: Seq<char>, rs: Seq<AttachmentUploadResult>) -> Seq<
    char,
> {
    description + (if success_urls(rs).len() > 0 {
        "\n\n## Screenshots\n\n"@ + screenshot_lines(success_urls(rs))
    } else {
        Seq::empty()
    }) + (if failed_paths(rs).len() > 0 {
        "\n\n*Note: The following screenshots could not be uploaded: "@ + join(
            failed_paths(rs),
            ", "@,
        ) + "*"@
    } else {
        Seq::empty()
    })
}

/// The MIME type an attachment is uploaded with, by its extension (compared
/// as written).
pub open spec fn content_type_of(ext: Option<Seq<char>>) -> Seq<char> {
    match ext {
        Some(e) => if e == "png"@ {
            "image/png"@
        } else if e == "jpg"@ || e == "jpeg"@ {
            "image/jpeg"@
        } else if e == "gif"@ {
            "image/gif"@
        } else if e == "webp"@ {
            "image/webp"@
        } else if e == "mp4"@ {
            "video/mp4"@
        } else if e == "mov"@ {
            "video/quicktime"@
        } else if e == "webm"@ {
            "video/webm"@
        } else {
            "application/octet-stream"@
        },
        None => "application/octet-stream"@,
    }
}

/// An attachment is uploaded as an image exactly when its extension is
/// png, jpg, jpeg, gif or webp, and as JPEG exactly when it is jpg or jpeg.
pub proof fn lemma_image_content_types(e: Seq<char>)
    ensures
        content_type_of(Some(e)) == "image/jpeg"@ <==> (e == "jpg"@ || e == "jpeg"@),
        ("image/"@).is_prefix_of(content_type_of(Some(e))) <==> (e == "png"@ || e == "jpg"@ || e == "jpeg"@
            || e == "gif"@ || e == "webp"@),
{
    reveal_strlit("image/");
    reveal_strlit("image/png");
    reveal_strlit("image/jpeg");
    reveal_strlit("image/gif");
    reveal_strlit("image/webp");
    reveal_strlit("video/mp4");
    reveal_strlit("video/quicktime");
    reveal_strlit("video/webm");
    reveal_strlit("application/octet-stream");
    reveal_strlit("png");
    reveal_strlit("jpg");
    reveal_strlit("jpeg");
    reveal_strlit("gif");
    reveal_strlit("webp");
    let t = content_type_of(Some(e));
    let j = "image/jpeg"@;
    if e == "png"@ || e == "jpg"@ || e == "jpeg"@ || e == "gif"@ || e == "webp"@ {
        assert(("image/"@) =~= t.subrange(0, 6));
        if e == "png"@ {
            assert(e[0] != "jpg"@[0] && e[0] != "jpeg"@[0]);
            assert(t == "image/png"@);
            assert(t.len() == 9);
            assert(t != j);
        } else if e == "gif"@ {
            assert(e[0] != "png"@[0] && e[0] != "jpg"@[0] && e[0] != "jpeg"@[0]);
            assert(t == "image/gif"@);
            assert(t.len() == 9);
            assert(t != j);
        } else if e == "webp"@ {
            assert(e[0] != "png"@[0] && e[0] != "jpg"@[0] && e[0] != "jpeg"@[0] && e[0] != "gif"@[0]);
            assert(t == "image/webp"@);
            assert(t[6] == 'w');
            assert(j[6] == 'j');
            assert(t != j);
        } else {
            assert(t == j);
        }
    } else {
        assert(t.subrange(0, 6)[0] == t[0]);
        assert(t[0] != 'i');
        assert(j[0] == 'i');
        assert(t != j);
    }
}

/// The MIME type for an attachment with extension `ext`.
pub fn content_type_for_extension(ext: Option<&str>) -> (r: &'static str)
    ensures
        r@ == content_type_of(
            match ext {
                Some(e) => Some(e@),
                None => None,
            },
        ),
{
    match ext {
        None => "application/octet-stream",
        Some(e) => {
            if str_eq(e, "png") {
                "image/png"
            } else if str_eq(e, "jpg") || str_eq(e, "jpeg") {
                "image/jpeg"
            } else if str_eq(e, "gif") {
                "image/gif"
            } else if str_eq(e, "webp") {
                "image/webp"
            } else if str_eq(e, "mp4") {
                "video/mp4"
            } else if str_eq(e, "mov") {
                "video/quicktime"
            } else if str_eq(e, "webm") {
                "video/webm"
            } else {
                "application/octet-stream"
            }
        },
    }
}

/// The record of one attachment upload: a non-empty asset URL is a success;
/// an empty URL or an error is a failure with its message.
pub open spec fn upload_record(
    path: String,
    upload: Result<String, TicketingError>,
    r: AttachmentUploadResult,
) -> bool {
    &&& r.file_path == path
    &&& match upload {
        Ok(url) => if url@.len() > 0 {
            r.success && r.message == url
        } else {
            !r.success && r.message@ == "Upload returned empty URL"@
        },
        Err(e) => !r.success && r.message@ == crate::ticketing::types::ticketing_error_text(e),
    }
}

/// The record of uploading the file at `path` with outcome `upload`.
pub fn attachment_result(path: String, upload: Result<String, TicketingError>) -> (r:
    AttachmentUploadResult)
    ensures
        upload_record(path, upload, r),
{
    match upload {
        Ok(url) => {
            if url.as_str().unicode_len() > 0 {
                AttachmentUploadResult { file_path: path, success: true, message: url }
            } else {
                AttachmentUploadResult {
                    file_path: path,
                    success: false,
                    message: String::from_str("Upload returned empty URL"),
                }
            }
        },
        Err(e) => AttachmentUploadResult { file_path: path, success: false, message: e.to_string() },
    }
}

/// The priority sent to Linear for a requested priority: the integer it
/// spells, or 0 (no priority) when it spells none.
pub fn linear_priority(priority: &str) -> (r: i32)
    ensures
        r as int == match parsed_i32(priority@) {
            Some(v) => v,
            None => 0,
        },
{
    match parse_i32(priority) {
        Some(v) => v,
        None => 0,
    }
}

/// The description to file: `description`, the uploaded screenshots and a
/// note on the failed uploads.
pub fn build_full_description(description: &str, results: &[AttachmentUploadResult]) -> (r: String)
    ensures
        r@ == full_description(description@, results@),
{
    let mut lines = String::new();
    let mut n: usize = 0;
    let mut failures = String::new();
    let mut m: usize = 0;
    let mut i: usize = 0;
    while i < results.len()
        invariant
            i <= results@.len(),
            n == success_urls(results@.subrange(0, i as int)).len(),
            n <= i,
            m <= i,
            lines@ == screenshot_lines(success_urls(results@.subrange(0, i as int))),
            m == failed_paths(results@.subrange(0, i as int)).len(),
            failures@ == join(failed_paths(results@.subrange(0, i as int)), ", "@),
        decreases results@.len() - i,
    {
        let ghost prefix = results@.subrange(0, i as int);
        let ghost next = results@.subrange(0, i + 1);
        assert(next.drop_last() =~= prefix);
        let r = &results[i];
        if r.success {
            lines.append("![Screenshot ");
            push_decimal(&mut lines, (n + 1) as u64);
            lines.append("](");
            lines.append(r.message.as_str());
            lines.append(")\n\n");
            assert(success_urls(next) == success_urls(prefix).push(r.message@));
            assert(success_urls(next).drop_last() =~= success_urls(prefix));
            assert(lines@ =~= screenshot_lines(success_urls(next)));
            n = n + 1;
        } else {
            if m > 0 {
                failures.append(", ");
            }
            failures.append(r.file_path.as_str());
            assert(failed_paths(next) == failed_paths(prefix).push(r.file_path@));
            assert(failed_paths(next).drop_last() =~= failed_paths(prefix));
            assert(failures@ =~= join(failed_paths(next), ", "@));
            m = m + 1;
        }
        i = i + 1;
    }
    assert(results@.subrange(0, results@.len() as int) =~= results@);
    let mut full = String::from_str(description);
    if n > 0 {
        full.append("\n\n## Screenshots\n\n");
        full.append(lines.as_str());
    }
    if m > 0 {
        full.append("\n\n*Note: The following screenshots could not be uploaded: ");
        full.append(failures.as_str());
        full.append("*");
    }
    assert(full@ =~= full_description(description@, results@));
    full
}

impl LinearIntegration {
    /// The credentials kept, if any.
    pub closed spec fn credentials_view(&self) -> Option<TicketingCredentials> {
        self.credentials
    }

    /// The endpoint calls are sent to.
    pub closed spec fn endpoint_view(&self) -> Seq<char> {
        self.api_endpoint@
    }

    /// A new integration with no credentials, talking to Linear's endpoint.
    pub fn new() -> (r: Self)
        ensures
            r.credentials_view() is None,
            r.endpoint_view() == LINEAR_API_ENDPOINT@,
    {
        LinearIntegration { credentials: None, api_endpoint: String::from_str(LINEAR_API_ENDPOINT) }
    }

    /// A new integration with no credentials, talking to `api_endpoint`.
    pub fn with_endpoint(api_endpoint: &str) -> (r: Self)
        ensures
            r.credentials_view() is None,
            r.endpoint_view() == api_endpoint@,
    {
        LinearIntegration { credentials: None, api_endpoint: String::from_str(api_endpoint) }
    }

    /// Keeps `credentials` without checking them with the service.
    pub fn set_credentials_for_test(&mut self, credentials: TicketingCredentials)
        ensures
            final(self).credentials_view() == Some(credentials),
            final(self).endpoint_view() == old(self).endpoint_view(),
    {
        self.credentials = Some(credentials);
    }

    /// The name of the integration.
    pub fn name(&self) -> (r: &'static str)
        ensures
            r@ == LINEAR_NAME@,
    {
        LINEAR_NAME
    }

    /// The endpoint calls are sent to.
    pub fn api_endpoint(&self) -> (r: &str)
        ensures
            r@ == self.endpoint_view(),
    {
        self.api_endpoint.as_str()
    }

    /// The API key calls are signed with; calls need credentials.
    pub fn api_key(&self) -> (r: Result<String, TicketingError>)
        ensures
            match self.credentials_view() {
                Some(c) => r == Ok::<String, TicketingError>(c.api_key),
                None => r matches Err(TicketingError::AuthenticationFailed(m)) && m@
                    == NOT_AUTHENTICATED@,
            },
    {
        match &self.credentials {
            Some(c) => Ok(c.api_key.clone()),
            None => Err(TicketingError::AuthenticationFailed(String::from_str(NOT_AUTHENTICATED))),
        }
    }

    /// The team tickets are filed in: it needs credentials with a team.
    pub fn team_id(&self) -> (r: Result<String, TicketingError>)
        ensures
            match self.credentials_view() {
                Some(c) => match c.team_id {
                    Some(t) => r == Ok::<String, TicketingError>(t),
                    None => r matches Err(TicketingError::InvalidConfig(m)) && m@
                        == "team_id is required"@,
                },
                None => r matches Err(TicketingError::AuthenticationFailed(m)) && m@
                    == NOT_AUTHENTICATED@,
            },
    {
        match &self.credentials {
            None => Err(TicketingError::AuthenticationFailed(String::from_str(NOT_AUTHENTICATED))),
            Some(c) => match &c.team_id {
                Some(t) => Ok(t.clone()),
                None => Err(TicketingError::InvalidConfig(String::from_str("team_id is required"))),
            },
        }
    }

    /// Concludes an authentication attempt from the service's answer: the
    /// status of the HTTP answer (its code and its status line) and whether
    /// the GraphQL answer carried errors. On success the credentials are kept;
    /// otherwise nothing changes.
    pub fn finish_authentication(
        &mut self,
        credentials: &TicketingCredentials,
        status_code: u16,
        status_line: &str,
        has_errors: bool,
    ) -> (r: Result<(), TicketingError>)
        ensures
            final(self).endpoint_view() == old(self).endpoint_view(),
            !(200 <= status_code <= 299) ==> (r matches Err(TicketingError::AuthenticationFailed(m))
                && m@ == "HTTP "@ + status_line@ + ": Invalid API key"@ && final(self).credentials_view()
                == old(self).credentials_view()),
            (200 <= status_code <= 299 && has_errors) ==> (r matches Err(
                TicketingError::AuthenticationFailed(m),
            ) && m@ == "Invalid API key or insufficient permissions"@
                && final(self).credentials_view() == old(self).credentials_view()),
            (200 <= status_code <= 299 && !has_errors) ==> (r is Ok
                && final(self).credentials_view() == Some(*credentials)),
    {
        if !(200 <= status_code && status_code <= 299) {
            let mut m = String::from_str("HTTP ");
            m.append(status_line);
            m.append(": Invalid API key");
            return Err(TicketingError::AuthenticationFailed(m));
        }
        if has_errors {
            return Err(
                TicketingError::AuthenticationFailed(
                    String::from_str("Invalid API key or insufficient permissions"),
                ),
            );
        }
        self.credentials = Some(credentials.clone());
        Ok(())
    }

    /// How the answer to a GraphQL call is reported: an HTTP failure is a
    /// network error quoting the status line and body; GraphQL errors make
    /// the call fail with those errors quoted.
    pub fn graphql_outcome(status_code: u16, status_line: &str, body: &str, errors: Option<&str>) -> (r:
        Result<(), TicketingError>)
        ensures
            !(200 <= status_code <= 299) ==> (r matches Err(TicketingError::NetworkError(m)) && m@
                == "HTTP "@ + status_line@ + ": "@ + body@),
            (200 <= status_code <= 299) ==> match errors {
                Some(e) => r matches Err(TicketingError::CreationFailed(m)) && m@
                    == "GraphQL errors: "@ + e@,
                None => r is Ok,
            },
    {
        if !(200 <= status_code && status_code <= 299) {
            let mut m = String::from_str("HTTP ");
            m.append(status_line);
            m.append(": ");
            m.append(body);
            return Err(TicketingError::NetworkError(m));
        }
        match errors {
            Some(e) => {
                let mut m = String::from_str("GraphQL errors: ");
                m.append(e);
                Err(TicketingError::CreationFailed(m))
            },
            None => Ok(()),
        }
    }

    /// The connection status when no check can be made: without credentials
    /// the integration is not connected; with credentials a check is needed
    /// (`None`).
    pub fn status_without_check(&self) -> (r: Option<ConnectionStatus>)
        ensures
            self.credentials_view() is Some <==> r is None,
            r matches Some(s) ==> (!s.connected && s.integration_name@ == LINEAR_NAME@ && (
            s.message matches Some(m) && m@ == NOT_AUTHENTICATED@)),
    {
        match &self.credentials {
            None => Some(
                ConnectionStatus {
                    connected: false,
                    message: Some(String::from_str(NOT_AUTHENTICATED)),
                    integration_name: String::from_str(LINEAR_NAME),
                },
            ),
            Some(_) => None,
        }
    }

    /// The connection status after a check call with outcome `check`.
    pub fn status_after_check(check: Result<(), TicketingError>) -> (r: ConnectionStatus)
        ensures
            r.integration_name@ == LINEAR_NAME@,
            r.connected == check is Ok,
            match check {
                Ok(_) => r.message is None,
                Err(e) => r.message matches Some(m) && m@
                    == crate::ticketing::types::ticketing_error_text(e),
            },
    {
        match check {
            Ok(()) => ConnectionStatus {
                connected: true,
                message: None,
                integration_name: String::from_str(LINEAR_NAME),
            },
            Err(e) => ConnectionStatus {
                connected: false,
                message: Some(e.to_string()),
                integration_name: String::from_str(LINEAR_NAME),
            },
        }
    }
}

impl Default for LinearIntegration {
    fn default() -> (r: Self)
        ensures
            r.credentials_view() is None,
            r.endpoint_view() == LINEAR_API_ENDPOINT@,
    {
        LinearIntegration::new()
    }
}

} // verus!
