//! The invoker interface of the AI service, the decisions of the Messages
//! API client (media types, authorization, how an HTTP status is reported)
//! and the admission rule of the request queue.
use std::sync::Arc;
use vstd::prelude::*;
use vstd::rwlock::{RwLock, RwLockPredicate};

use crate::claude_cli::types::{ClaudeCredentials, ClaudeError, ClaudeRequest, ClaudeResponse};
use crate::json::{json_array_len, json_array_len_at, json_error, json_str, json_string_at, json_syntax_error};
use crate::text::{chars_of, decimal, lowercase, push_decimal, str_eq, string_of, to_lowercase};

verus! {

/// Something that can answer a request to the AI service.
pub trait ClaudeInvoker: Send + Sync {
    /// Whether `result` is an outcome this invoker may give for `request`.
    /// An implementation says what it answers; one that does not may give
    /// any outcome.
    closed spec fn answers(&self, request: ClaudeRequest, result: Result<ClaudeResponse, ClaudeError>) -> bool {
        true
    }

    /// Answers `request`.
    fn invoke(&self, request: ClaudeRequest) -> (r: Result<ClaudeResponse, ClaudeError>)
        ensures
            self.answers(request, r),
    ;
}

/// The client of the Anthropic Messages API; it holds the credentials the
/// requests are signed with.
pub struct RealClaudeInvoker {
    pub credentials: ClaudeCredentials,
}

/// The media type declared for an image with the given (lowercased)
/// extension; anything unknown is sent as PNG.
pub open spec fn media_type_of(ext: Seq<char>) -> Seq<char> {
    if ext == "jpg"@ || ext == "jpeg"@ {
        "image/jpeg"@
    } else if ext == "gif"@ {
        "image/gif"@
    } else if ext == "webp"@ {
        "image/webp"@
    } else {
        "image/png"@
    }
}

/// The media type for an image whose extension is `ext` (none: PNG). The
/// extension is compared in lower case.
pub fn media_type_for_extension(ext: Option<&str>) -> (r: &'static str)
    ensures
        r@ == match ext {
            Some(e) => media_type_of(lowercase(e@)),
            None => "image/png"@,
        },
{
    match ext {
        None => "image/png",
        Some(e) => {
            let lower = to_lowercase(e);
            let l = lower.as_str();
            if str_eq(l, "jpg") || str_eq(l, "jpeg") {
                "image/jpeg"
            } else if str_eq(l, "gif") {
                "image/gif"
            } else if str_eq(l, "webp") {
                "image/webp"
            } else {
                "image/png"
            }
        },
    }
}

/// Message of the error for a rejected sign-in (HTTP 401).
pub const UNAUTHORIZED_MESSAGE: &'static str = "Invalid or expired API credentials. Check your API key.";

/// Message of the error for a rate-limited request (HTTP 429).
pub const RATE_LIMIT_MESSAGE: &'static str = "Rate limit exceeded. Please wait and try again.";

/// How an HTTP answer with status `code` is reported: no error for a
/// success (2xx); a sign-in error for 401; a rate-limit error for 429;
/// otherwise an API error quoting the status line and the body.
pub open spec fn status_error(
    code: u16,
    status_line: Seq<char>,
    body: Seq<char>,
    r: Option<ClaudeError>,
) -> bool {
    if 200 <= code <= 299 {
        r is None
    } else if code == 401 {
        r matches Some(ClaudeError::NotAuthenticated(m)) && m@ == UNAUTHORIZED_MESSAGE@
    } else if code == 429 {
        r matches Some(ClaudeError::ApiError(m)) && m@ == RATE_LIMIT_MESSAGE@
    } else {
        r matches Some(ClaudeError::ApiError(m)) && m@ == "HTTP "@ + status_line + ": "@ + body
    }
}

impl RealClaudeInvoker {
    /// A client that signs its requests with `credentials`.
    pub fn new(credentials: ClaudeCredentials) -> (r: Self)
        ensures
            r.credentials == credentials,
    {
        RealClaudeInvoker { credentials }
    }

    /// The value of the `Authorization` header: the access token as a bearer token.
    pub fn authorization(&self) -> (r: String)
        ensures
            r@ == "Bearer "@ + self.credentials.access_token@,
    {
        let mut s = String::from_str("Bearer ");
        s.append(self.credentials.access_token.as_str());
        s
    }

    /// The error, if any, for an HTTP answer with status `code`, whose
    /// status line reads `status_line` and whose body is `body`.
    pub fn http_status_error(code: u16, status_line: &str, body: &str) -> (r: Option<ClaudeError>)
        ensures
            status_error(code, status_line@, body@, r),
    {
        if 200 <= code && code <= 299 {
            None
        } else if code == 401 {
            Some(ClaudeError::NotAuthenticated(String::from_str(UNAUTHORIZED_MESSAGE)))
        } else if code == 429 {
            Some(ClaudeError::ApiError(String::from_str(RATE_LIMIT_MESSAGE)))
        } else {
            let mut m = String::from_str("HTTP ");
            m.append(status_line);
            m.append(": ");
            m.append(body);
            Some(ClaudeError::ApiError(m))
        }
    }
}

/// The text of a Messages API reply: the `text` of the first block of its
/// `content` array; none when there is no such string.
pub open spec fn reply_text(body: Seq<char>) -> Option<Seq<char>> {
    if json_array_len_at(body, "/content"@) matches Some(n) && n > 0 {
        json_string_at(body, "/content/0/text"@)
    } else {
        None
    }
}

/// At most the first `n` characters of `s`.
pub open spec fn head(s: Seq<char>, n: nat) -> Seq<char> {
    if s.len() <= n {
        s
    } else {
        s.take(n as int)
    }
}

/// The first characters of `s`, at most `n` of them.
fn head_of(s: &str, n: usize) -> (r: String)
    ensures
        r@ == head(s@, n as nat),
{
    let chars = chars_of(s);
    let m = if chars.len() <= n { chars.len() } else { n };
    let mut out: Vec<char> = Vec::new();
    let mut i: usize = 0;
    while i < m
        invariant
            chars@ == s@,
            m <= chars@.len(),
            i <= m,
            out@ == s@.take(i as int),
        decreases m - i,
    {
        out.push(chars[i]);
        assert(s@.take(i + 1) =~= s@.take(i as int).push(s@[i as int]));
        i = i + 1;
    }
    assert(s@.len() <= n ==> s@.take(m as int) =~= s@);
    string_of(out.as_slice())
}

/// How long the quoted start of an unexpected reply is, in characters.
pub const REPLY_EXCERPT_LEN: usize = 200;

/// The outcome of a request from the Messages API's reply with status
/// `code` (its status line `status_line`) and body `body`: the status's
/// error when it is not a success; a parse error when the body is not JSON
/// or has no text block, quoting the body's start; otherwise the response
/// with the reply's text, the request's task and its bug.
pub fn messages_response(request: &ClaudeRequest, code: u16, status_line: &str, body: &str) -> (r:
    Result<ClaudeResponse, ClaudeError>)
    ensures
        !(200 <= code <= 299) ==> (r matches Err(e) && status_error(code, status_line@, body@, Some(e))),
        200 <= code <= 299 ==> match json_syntax_error(body@) {
            Some(m) => r matches Err(ClaudeError::ParseError(p)) && p@ == "Invalid JSON response: "@ + m,
            None => match reply_text(body@) {
                Some(t) => r matches Ok(resp) && resp.content@ == t && resp.task == request.task
                    && resp.bug_id == request.bug_id,
                None => r matches Err(ClaudeError::ParseError(p)) && p@ == "Unexpected response structure: "@
                    + head(body@, REPLY_EXCERPT_LEN as nat),
            },
        },
{
    if let Some(e) = RealClaudeInvoker::http_status_error(code, status_line, body) {
        return Err(e);
    }
    if let Some(m) = json_error(body) {
        let mut p = String::from_str("Invalid JSON response: ");
        p.append(m.as_str());
        return Err(ClaudeError::ParseError(p));
    }
    let has_blocks = match json_array_len(body, "/content") {
        Some(n) => n > 0,
        None => false,
    };
    let text = if has_blocks { json_str(body, "/content/0/text") } else { None };
    match text {
        Some(t) => Ok(request.respond(t)),
        None => {
            let mut p = String::from_str("Unexpected response structure: ");
            p.append(head_of(body, REPLY_EXCERPT_LEN).as_str());
            Err(ClaudeError::ParseError(p))
        },
    }
}

/// Default number of requests that may wait in the queue.
pub const DEFAULT_MAX_QUEUE_SIZE: usize = 10;

/// Message of the error for a full queue holding `n` requests.
pub open spec fn queue_full_message(n: nat) -> Seq<char> {
    "Request queue is full ("@ + decimal(n) + " items)"@
}

/// Whether one more request may join a queue that holds `queue_len`
/// requests with room for `max_queue_size`: it may exactly when the queue
/// is not full; otherwise the error names how many requests wait.
pub fn queue_admission(queue_len: usize, max_queue_size: usize) -> (r: Result<(), ClaudeError>)
    ensures
        queue_len < max_queue_size <==> r is Ok,
        r is Err ==> (r matches Err(ClaudeError::QueueFull(m)) && m@ == queue_full_message(
            queue_len as nat,
        )),
{
    if queue_len >= max_queue_size {
        let mut m = String::from_str("Request queue is full (");
        push_decimal(&mut m, queue_len as u64);
        m.append(" items)");
        Err(ClaudeError::QueueFull(m))
    } else {
        Ok(())
    }
}

/// The message a request gets when it had to wait in the queue: it is
/// answered later and its answer is not handed back.
pub const QUEUED_MESSAGE: &'static str = "Request queued - async processing not yet implemented";

/// The requests waiting for the AI service and whether one is being
/// answered.
pub struct QueueState {
    pub pending: Vec<ClaudeRequest>,
    pub running: bool,
}

/// What happens to a request handed to the queue.
pub enum Admission {
    /// Refused: the queue is full.
    Refused(ClaudeError),
    /// Nothing is being answered: the request is answered at once.
    RunNow(ClaudeRequest),
    /// Another request is being answered: this one waits.
    Queued,
}

/// Hands `request` to the queue: refused when `max_queue_size` requests
/// already wait; answered at once when none is being answered (which then
/// counts as running); otherwise put at the back of the queue.
pub fn enqueue_request(state: &mut QueueState, request: ClaudeRequest, max_queue_size: usize) -> (r: Admission)
    ensures
        old(state).pending@.len() >= max_queue_size ==> (r matches Admission::Refused(
            ClaudeError::QueueFull(m),
        ) && m@ == queue_full_message(old(state).pending@.len()) && final(state).pending@ == old(
            state,
        ).pending@ && final(state).running == old(state).running),
        old(state).pending@.len() < max_queue_size && !old(state).running ==> (r
            == Admission::RunNow(request) && final(state).running && final(state).pending@ == old(
            state,
        ).pending@),
        old(state).pending@.len() < max_queue_size && old(state).running ==> (r is Queued
            && final(state).running && final(state).pending@ == old(state).pending@.push(request)),
{
    match queue_admission(state.pending.len(), max_queue_size) {
        Err(e) => Admission::Refused(e),
        Ok(()) => {
            if state.running {
                state.pending.push(request);
                Admission::Queued
            } else {
                state.running = true;
                Admission::RunNow(request)
            }
        },
    }
}

/// Takes all waiting requests out of the queue, to be answered now; the
/// queue stays running exactly when there were some.
pub fn take_pending(state: &mut QueueState) -> (r: Vec<ClaudeRequest>)
    ensures
        r@ == old(state).pending@,
        final(state).pending@.len() == 0,
        final(state).running == (r@.len() > 0),
{
    let mut batch: Vec<ClaudeRequest> = Vec::new();
    std::mem::swap(&mut batch, &mut state.pending);
    state.running = batch.len() > 0;
    batch
}

/// What the lock around the queue keeps true: no more than `bound`
/// requests wait.
pub struct QueueLockInv {
    pub bound: usize,
}

impl RwLockPredicate<QueueState> for QueueLockInv {
    open spec fn inv(self, v: QueueState) -> bool {
        v.pending@.len() <= self.bound
    }
}

/// An invoker that answers one request at a time: a request that comes
/// while another is being answered waits in a queue (and gets
/// `QUEUED_MESSAGE`), and one that finds the queue full is refused. The
/// requests that waited are answered, and their answers dropped, by the
/// caller whose request ran, once its own answer is in.
pub struct QueuedClaudeInvoker<I: ClaudeInvoker> {
    inner: Arc<I>,
    state: RwLock<QueueState, QueueLockInv>,
    max_queue_size: usize,
}

impl<I: ClaudeInvoker> QueuedClaudeInvoker<I> {
    /// The lock never holds more waiting requests than it has room for.
    #[verifier::type_invariant]
    spec fn wf(self) -> bool {
        self.max_queue_size <= self.state.pred().bound
    }

    /// The invoker that answers the requests.
    pub closed spec fn inner_view(&self) -> Arc<I> {
        self.inner
    }

    /// How many requests may wait.
    pub closed spec fn capacity(&self) -> usize {
        self.max_queue_size
    }

    /// The most requests that can be waiting: the capacity, or more when the
    /// capacity was lowered below the number already waiting.
    pub closed spec fn waiting_bound(&self) -> usize {
        self.state.pred().bound
    }

    /// A queue in front of `inner`, with room for the default number of
    /// requests, nothing waiting and nothing running.
    pub fn new(inner: Arc<I>) -> (r: Self)
        ensures
            r.inner_view() == inner,
            r.capacity() == DEFAULT_MAX_QUEUE_SIZE,
            r.waiting_bound() == DEFAULT_MAX_QUEUE_SIZE,
    {
        QueuedClaudeInvoker {
            inner,
            state: RwLock::new(
                QueueState { pending: Vec::new(), running: false },
                Ghost(QueueLockInv { bound: DEFAULT_MAX_QUEUE_SIZE }),
            ),
            max_queue_size: DEFAULT_MAX_QUEUE_SIZE,
        }
    }

    /// The same queue, with what waits and whether one runs kept, and room
    /// for `size` requests.
    pub fn with_max_queue_size(self, size: usize) -> (r: Self)
        ensures
            r.inner_view() == self.inner_view(),
            r.capacity() == size,
            r.waiting_bound() >= size,
    {
        proof {
            use_type_invariant(&self);
        }
        let QueuedClaudeInvoker { inner, state, max_queue_size: _ } = self;
        let st = state.into_inner();
        let bound: usize = if size >= st.pending.len() { size } else { st.pending.len() };
        QueuedClaudeInvoker { inner, state: RwLock::new(st, Ghost(QueueLockInv { bound })), max_queue_size: size }
    }

    /// Answers, one after the other, the requests waiting now, dropping
    /// their answers; then the queue stops running.
    fn process_queue(&self) {
        let (mut st, handle) = self.state.acquire_write();
        let batch = take_pending(&mut st);
        let any = batch.len() > 0;
        handle.release_write(st);
        if any {
            let mut i: usize = 0;
            while i < batch.len()
                invariant
                    i <= batch@.len(),
                decreases batch@.len() - i,
            {
                let _ = self.inner.invoke(batch[i].clone());
                i = i + 1;
            }
            let (mut st, handle) = self.state.acquire_write();
            st.running = false;
            handle.release_write(st);
        }
    }
}

impl<I: ClaudeInvoker> ClaudeInvoker for QueuedClaudeInvoker<I> {
    /// What the queue may answer: the queue-full error naming how many
    /// requests waited (never fewer than the capacity), the queued message
    /// while another request was being answered, or an answer of the inner
    /// invoker to the request itself; only the first when the capacity is 0.
    open spec fn answers(&self, request: ClaudeRequest, result: Result<ClaudeResponse, ClaudeError>) -> bool {
        ||| (exists|n: nat|
            #![trigger queue_full_message(n)]
            self.capacity() <= n <= self.waiting_bound() && (result matches Err(
                ClaudeError::QueueFull(m),
            ) && m@ == queue_full_message(n)))
        ||| (self.capacity() > 0 && (result matches Err(ClaudeError::InvocationFailed(m)) && m@
            == QUEUED_MESSAGE@))
        ||| (self.capacity() > 0 && (*self.inner_view()).answers(request, result))
    }

    /// Refuses the request when the queue is full, queues it while another
    /// is being answered, and otherwise answers it with the inner invoker,
    /// then answers the requests that queued meanwhile.
    fn invoke(&self, request: ClaudeRequest) -> (r: Result<ClaudeResponse, ClaudeError>)
        ensures
            self.capacity() == 0 ==> (r matches Err(ClaudeError::QueueFull(m)) && exists|n: nat|
                m@ == queue_full_message(n)),
    {
        proof {
            use_type_invariant(self);
        }
        let ghost req0 = request;
        let (mut st, handle) = self.state.acquire_write();
        let ghost waiting = st.pending@.len();
        let admission = enqueue_request(&mut st, request, self.max_queue_size);
        handle.release_write(st);
        match admission {
            Admission::Refused(e) => {
                assert(queue_full_message(waiting) == queue_full_message(waiting));
                Err(e)
            },
            Admission::Queued => Err(ClaudeError::InvocationFailed(String::from_str(QUEUED_MESSAGE))),
            Admission::RunNow(req) => {
                let result = self.inner.invoke(req);
                self.process_queue();
                result
            },
        }
    }
}

} // verus!
