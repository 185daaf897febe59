//! Client logic for the Responses API (Deep Research).
//!
//! `DeepResearchClient` holds the configured HTTP client and the base URL.
//! `build_create_request` turns a query and `CreateOptions` into the request
//! body, `PollSchedule` decides how polling proceeds, and `ClientError`
//! describes what can go wrong.

use std::collections::HashMap;
use vstd::prelude::*;
use vstd::arithmetic::power::pow;
use vstd::arithmetic::power2::{lemma_pow2, lemma_pow2_strictly_increases, lemma_pow2_unfold, pow2};

use crate::api::types::{
    Response,
    opt_location, opt_str, CreateRequest, CreateRequestView, DeepResearchModel, InputMessage,
    InputMessageView, ReasoningConfig, SearchContextSize, Tool, ToolView, UserLocation,
    UserLocationView,
};
use crate::api::http::{
    build_http_client, check_header_value, header_name_char, header_value_char, valid_header_name,
    valid_header_value, HeaderField, HeaderFieldView, HttpClient,
};
use crate::text::{decimal, join2, join3, lemma_trim_end_no_trailing, push_decimal, trim_end, trim_end_char};

verus! {

// ---------------------------------------------------------------------------
// Outside types and calls
// ---------------------------------------------------------------------------

/// The canonical reason phrase of an HTTP status code, as http's
/// `StatusCode::canonical_reason` gives it for the codes it knows.
pub uninterp spec fn canonical_reason(code: u16) -> Option<Seq<char>>;

/// `StatusCode::from_u16` then `StatusCode::canonical_reason` (http).
/// `from_u16` fails outside 100..=999, and the phrase is then absent.
#[verifier::external_body]
fn status_reason(code: u16) -> (r: Option<&'static str>)
    ensures
        match r {
            Some(p) => canonical_reason(code) == Some(p@),
            None => canonical_reason(code) is None,
        },
        !(100 <= code <= 999) ==> r is None,
{
    match reqwest::StatusCode::from_u16(code) {
        Ok(status) => status.canonical_reason(),
        Err(_) => None,
    }
}

// ---------------------------------------------------------------------------
// Errors
// ---------------------------------------------------------------------------

/// What can go wrong in the client logic.
#[derive(Debug)]
pub enum ClientError {
    /// Deep research accepts only the `Medium` search context size.
    UnsupportedSearchContextSize(SearchContextSize),
    /// The API key holds characters that an HTTP header value cannot hold.
    InvalidApiKey(reqwest::header::InvalidHeaderValue),
    /// The HTTP client could not be built.
    HttpClient(reqwest::Error),
    /// The API answered with a status outside 200..=299.
    Api { status: u16, body: String },
}

/// HTTP's success class: 200..=299 (what `StatusCode::is_success` tests).
pub open spec fn is_success_code(code: u16) -> bool {
    200 <= code <= 299
}

/// Whether an HTTP status code reports success.
pub fn is_success_status(code: u16) -> (b: bool)
    ensures
        b == is_success_code(code),
{
    200 <= code && code <= 299
}

/// How an HTTP status is printed: the code, a space, and the reason phrase
/// (or "<unknown status code>").
pub open spec fn status_text(code: u16) -> Seq<char> {
    decimal(code as nat) + " "@ + match canonical_reason(code) {
        Some(p) => p,
        None => "<unknown status code>"@,
    }
}

/// The message each error is reported with.
pub open spec fn error_message(e: ClientError) -> Seq<char> {
    match e {
        ClientError::UnsupportedSearchContextSize(_) =>
            "Deep research only supports search_context_size 'medium'; omit the option or use 'medium'"@,
        ClientError::InvalidApiKey(_) => "invalid API key characters"@,
        ClientError::HttpClient(_) => "failed to build HTTP client"@,
        ClientError::Api { status, body } => "OpenAI API error (HTTP "@ + status_text(status)
            + "): "@ + body@,
    }
}

impl ClientError {
    /// The message this error is reported with (what `Display` prints).
    pub fn message(&self) -> (m: String)
        ensures
            m@ == error_message(*self),
    {
        match self {
            ClientError::UnsupportedSearchContextSize(_) => String::from_str(
                "Deep research only supports search_context_size 'medium'; omit the option or use 'medium'",
            ),
            ClientError::InvalidApiKey(_) => String::from_str("invalid API key characters"),
            ClientError::HttpClient(_) => String::from_str("failed to build HTTP client"),
            ClientError::Api { status, body } => {
                let mut m = String::from_str("OpenAI API error (HTTP ");
                push_decimal(&mut m, *status as u64);
                m.append(" ");
                match status_reason(*status) {
                    Some(p) => m.append(p),
                    None => m.append("<unknown status code>"),
                }
                m.append("): ");
                m.append(body.as_str());
                m
            },
        }
    }
}

// ---------------------------------------------------------------------------
// Create options and the request body
// ---------------------------------------------------------------------------

/// Options for creating a deep research job.
#[derive(Debug, Clone)]
pub struct CreateOptions {
    /// ISO 3166-1 alpha-2 country code for web search localization.
    pub country: Option<String>,
    /// City name for web search localization.
    pub city: Option<String>,
    /// Region/state for web search localization.
    pub region: Option<String>,
    /// Web search context retrieval depth.
    pub search_context_size: Option<SearchContextSize>,
    /// Whether to enable the code interpreter tool.
    pub code_interpreter: bool,
    /// Developer-level instructions for the model.
    pub instructions: Option<String>,
    /// Whether to store the response (retained for 30 days).
    pub store: Option<bool>,
    /// Key-value metadata.
    pub metadata: Option<HashMap<String, String>>,
}

impl Default for CreateOptions {
    fn default() -> (o: Self)
        ensures
            o.country is None,
            o.city is None,
            o.region is None,
            o.search_context_size is None,
            !o.code_interpreter,
            o.instructions is None,
            o.store is None,
            o.metadata is None,
    {
        CreateOptions {
            country: None,
            city: None,
            region: None,
            search_context_size: None,
            code_interpreter: false,
            instructions: None,
            store: None,
            metadata: None,
        }
    }
}

/// Deep research accepts the options' search context size: none, or `Medium`.
pub open spec fn search_context_supported(o: CreateOptions) -> bool {
    match o.search_context_size {
        Some(size) => size == SearchContextSize::Medium,
        None => true,
    }
}

/// The web search location: present exactly when some location option is set.
pub open spec fn location_for(o: CreateOptions) -> Option<UserLocationView> {
    if o.country is Some || o.city is Some || o.region is Some {
        Some(
            UserLocationView {
                location_type: "approximate"@,
                country: opt_str(o.country),
                city: opt_str(o.city),
                region: opt_str(o.region),
            },
        )
    } else {
        None
    }
}

/// The tools: web search always, then the code interpreter when enabled.
pub open spec fn tools_for(o: CreateOptions) -> Seq<ToolView> {
    let web = ToolView::WebSearchPreview {
        user_location: location_for(o),
        search_context_size: o.search_context_size,
    };
    if o.code_interpreter {
        seq![web, ToolView::CodeInterpreter]
    } else {
        seq![web]
    }
}

/// The input: the developer instructions when given, then the user query.
pub open spec fn input_for(query: Seq<char>, o: CreateOptions) -> Seq<InputMessageView> {
    let user = InputMessageView { role: "user"@, content: query };
    match o.instructions {
        Some(i) => seq![InputMessageView { role: "developer"@, content: i@ }, user],
        None => seq![user],
    }
}

/// The request body for a query, a model and options.
pub open spec fn request_for(
    query: Seq<char>,
    model: DeepResearchModel,
    o: CreateOptions,
) -> CreateRequestView {
    CreateRequestView {
        model: model.id(),
        input: input_for(query, o),
        tools: tools_for(o),
        reasoning_summary: "auto"@,
        background: true,
        instructions: None,
        store: o.store,
        metadata: o.metadata,
    }
}

/// The request body that creates a deep research job.
///
/// Rejects a search context size other than `Medium` before anything is sent.
/// Web search is always included; the location is set when any of country,
/// city or region is given; the developer instructions, when given, come as
/// an input message before the user query.
pub fn build_create_request(query: &str, model: DeepResearchModel, options: CreateOptions) -> (r:
    Result<CreateRequest, ClientError>)
    ensures
        r is Err <==> !search_context_supported(options),
        r matches Err(e) ==> e == ClientError::UnsupportedSearchContextSize(
            options.search_context_size->Some_0,
        ),
        r matches Ok(req) ==> req@ == request_for(query@, model, options),
{
    if let Some(size) = &options.search_context_size {
        if *size != SearchContextSize::Medium {
            return Err(ClientError::UnsupportedSearchContextSize(*size));
        }
    }
    let ghost opts = options;
    let CreateOptions {
        country,
        city,
        region,
        search_context_size,
        code_interpreter,
        instructions,
        store,
        metadata,
    } = options;

    let user_location = if country.is_some() || city.is_some() || region.is_some() {
        let mut loc = UserLocation::new();
        if let Some(c) = &country {
            loc = loc.with_country(c.as_str());
        }
        if let Some(c) = &city {
            loc = loc.with_city(c.as_str());
        }
        if let Some(r) = &region {
            loc = loc.with_region(r.as_str());
        }
        Some(loc)
    } else {
        None
    };
    assert(opt_location(user_location) == location_for(opts));

    let mut tools: Vec<Tool> = Vec::new();
    tools.push(Tool::WebSearchPreview { user_location, search_context_size });
    if code_interpreter {
        tools.push(Tool::CodeInterpreter {  });
    }
    assert(tools@.map_values(|t: Tool| t@) =~= tools_for(opts));

    let mut input: Vec<InputMessage> = Vec::new();
    if let Some(i) = &instructions {
        input.push(
            InputMessage { role: String::from_str("developer"), content: String::from_str(i.as_str()) },
        );
    }
    input.push(InputMessage { role: String::from_str("user"), content: String::from_str(query) });
    assert(input@.map_values(|m: InputMessage| m@) =~= input_for(query@, opts));

    Ok(
        CreateRequest {
            model: model.to_string(),
            input,
            tools,
            reasoning: ReasoningConfig::default(),
            background: true,
            instructions: None,
            store,
            metadata,
        },
    )
}


// ---------------------------------------------------------------------------
// The client
// ---------------------------------------------------------------------------

/// The default API base URL.
pub open spec fn openai_api_base() -> Seq<char> {
    "https://api.openai.com/v1"@
}

/// The text sent in the `Authorization` header for an API key.
pub open spec fn bearer(api_key: Seq<char>) -> Seq<char> {
    "Bearer "@ + api_key
}

/// The media type every request body is sent as.
pub open spec fn json_media_type() -> Seq<char> {
    "application/json"@
}

/// The default header fields of a client for an API key:
/// `Authorization: Bearer <api_key>` and `Content-Type: application/json`.
pub open spec fn client_headers(api_key: Seq<char>) -> Seq<HeaderFieldView> {
    seq![
        HeaderFieldView { name: "authorization"@, value: bearer(api_key) },
        HeaderFieldView { name: "content-type"@, value: json_media_type() },
    ]
}

/// Client for the Responses API: the HTTP client, built to send the
/// `Authorization` and `Content-Type` fields with every request, and the
/// base URL.
#[derive(Debug)]
pub struct DeepResearchClient {
    http: HttpClient,
    base_url: String,
}

impl Clone for DeepResearchClient {
    /// A client with a handle to the same HTTP client, sending the same
    /// default headers, and the same base URL.
    fn clone(&self) -> (c: Self)
        ensures
            c.base() == self.base(),
            c.default_headers() == self.default_headers(),
    {
        proof {
            use_type_invariant(self);
        }
        DeepResearchClient { http: self.http.clone(), base_url: self.base_url.clone() }
    }
}

impl DeepResearchClient {
    /// The base URL requests go to, without trailing slashes.
    pub closed spec fn base(&self) -> Seq<char> {
        self.base_url@
    }

    /// The configured reqwest client.
    pub closed spec fn http_client(&self) -> reqwest::Client {
        self.http.inner()
    }

    /// The header fields the HTTP client sends with every request.
    pub closed spec fn default_headers(&self) -> Seq<HeaderFieldView> {
        self.http.default_headers()
    }

    /// The `Authorization` value the HTTP client sends with every request.
    pub closed spec fn authorization(&self) -> Seq<char> {
        self.default_headers()[0].value
    }

    /// The `Content-Type` value the HTTP client sends with every request.
    pub closed spec fn content_type(&self) -> Seq<char> {
        self.default_headers()[1].value
    }

    /// The base URL never ends in a slash, and the HTTP client sends an
    /// `Authorization` field, then a `Content-Type` field.
    #[verifier::type_invariant]
    closed spec fn inv(self) -> bool {
        &&& self.base_url@.len() == 0 || self.base_url@.last() != '/'
        &&& self.http.default_headers().len() == 2
        &&& self.http.default_headers()[0].name == "authorization"@
        &&& self.http.default_headers()[1].name == "content-type"@
    }

    /// A client for the default API base URL.
    pub fn new(api_key: &str) -> (r: Result<Self, ClientError>)
        ensures
            r matches Ok(c) ==> c.base() == openai_api_base(),
            r matches Ok(c) ==> c.default_headers() == client_headers(api_key@),
            r matches Ok(c) ==> c.authorization() == bearer(api_key@),
            r matches Ok(c) ==> c.content_type() == json_media_type(),
            r matches Err(e) ==> e is InvalidApiKey || e is HttpClient,
            (r matches Err(e) && e is InvalidApiKey) <==> !valid_header_value(api_key@),
    {
        let r = Self::with_base_url(api_key, "https://api.openai.com/v1");
        proof {
            reveal_strlit("https://api.openai.com/v1");
            let b = openai_api_base();
            assert(b.last() == '1');
            assert(trim_end(b, '/') == b);
        }
        r
    }

    /// A client with a custom base URL (for testing or proxies); trailing
    /// slashes of the base URL are dropped. Every request of the client
    /// carries `Authorization: Bearer <api_key>` and
    /// `Content-Type: application/json`.
    pub fn with_base_url(api_key: &str, base_url: &str) -> (r: Result<Self, ClientError>)
        ensures
            r matches Ok(c) ==> c.base() == trim_end(base_url@, '/'),
            r matches Ok(c) ==> c.default_headers() == client_headers(api_key@),
            r matches Ok(c) ==> c.authorization() == bearer(api_key@),
            r matches Ok(c) ==> c.content_type() == json_media_type(),
            r matches Err(e) ==> e is InvalidApiKey || e is HttpClient,
            (r matches Err(e) && e is InvalidApiKey) <==> !valid_header_value(api_key@),
    {
        let auth = join2("Bearer ", api_key);
        proof {
            reveal_strlit("Bearer ");
            let b = bearer(api_key@);
            assert(b.len() == 7 + api_key@.len());
            assert(forall|i: int| 0 <= i < 7 ==> header_value_char(#[trigger] b[i]));
            assert(forall|i: int| 0 <= i < api_key@.len() ==> #[trigger] api_key@[i] == b[7 + i]);
            if valid_header_value(api_key@) {
                assert forall|i: int| 0 <= i < b.len() implies header_value_char(#[trigger] b[i]) by {
                    if i >= 7 {
                        assert(b[i] == api_key@[i - 7]);
                    }
                }
            } else {
                let k = choose|k: int| 0 <= k < api_key@.len() && !header_value_char(#[trigger] api_key@[k]);
                assert(!header_value_char(b[7 + k]));
            }
        }
        match check_header_value(auth.as_str()) {
            Ok(()) => {},
            Err(e) => {
                return Err(ClientError::InvalidApiKey(e));
            },
        }
        let authorization = HeaderField { name: String::from_str("authorization"), value: auth };
        let content_type = HeaderField {
            name: String::from_str("content-type"),
            value: String::from_str("application/json"),
        };
        proof {
            lemma_default_header_names();
            reveal_strlit("application/json");
            assert(valid_header_value(content_type.value@));
        }
        let http = match build_http_client(authorization, content_type) {
            Ok(h) => h,
            Err(e) => {
                return Err(ClientError::HttpClient(e));
            },
        };
        let trimmed = trim_end_char(base_url, '/');
        proof {
            lemma_trim_end_no_trailing(base_url@, '/');
            reveal_strlit("authorization");
            reveal_strlit("content-type");
        }
        Ok(DeepResearchClient { http, base_url: trimmed })
    }

    /// The base URL requests go to.
    pub fn base_url(&self) -> (b: &str)
        ensures
            b@ == self.base(),
            b@.len() == 0 || b@.last() != '/',
    {
        proof {
            use_type_invariant(self);
        }
        self.base_url.as_str()
    }

    /// The `Authorization` value sent with every request.
    pub fn authorization_header(&self) -> (a: &str)
        ensures
            a@ == self.authorization(),
    {
        proof {
            use_type_invariant(self);
        }
        self.http.header_value(0)
    }

    /// The `Content-Type` value sent with every request.
    pub fn content_type_header(&self) -> (t: &str)
        ensures
            t@ == self.content_type(),
    {
        proof {
            use_type_invariant(self);
        }
        self.http.header_value(1)
    }

    /// The configured reqwest client, to send requests with.
    pub fn http(&self) -> (h: &reqwest::Client)
        ensures
            *h == self.http_client(),
    {
        self.http.client()
    }

    /// Where jobs are created: `{base}/responses`.
    pub fn responses_url(&self) -> (u: String)
        ensures
            u@ == self.base() + "/responses"@,
    {
        join2(self.base_url.as_str(), "/responses")
    }

    /// Where a job is read: `{base}/responses/{id}`.
    pub fn response_url(&self, response_id: &str) -> (u: String)
        ensures
            u@ == self.base() + "/responses/"@ + response_id@,
    {
        join3(self.base_url.as_str(), "/responses/", response_id)
    }
}

/// The names of the two default headers are names that HTTP accepts as they
/// are written.
proof fn lemma_default_header_names()
    ensures
        valid_header_name("authorization"@),
        valid_header_name("content-type"@),
        "authorization"@ != "content-type"@,
{
    reveal_strlit("authorization");
    reveal_strlit("content-type");
    let a = "authorization"@;
    let c = "content-type"@;
    assert(a.len() == 13);
    assert(c.len() == 12);
    assert forall|i: int| 0 <= i < a.len() implies header_name_char(#[trigger] a[i]) by {
        assert(0 <= i < 13);
    }
    assert forall|i: int| 0 <= i < c.len() implies header_name_char(#[trigger] c[i]) by {
        assert(0 <= i < 12);
    }
    assert(a[0] != c[0]);
}

// ---------------------------------------------------------------------------
// Polling
// ---------------------------------------------------------------------------

/// The first wait between polls, in seconds.
pub const INITIAL_POLL_INTERVAL_SECS: u64 = 5;

/// The longest wait between polls, in seconds.
pub const MAX_POLL_INTERVAL_SECS: u64 = 30;

/// What to do after reading a job's state.
#[derive(Debug, Clone, Copy, PartialEq, Eq, Structural)]
pub enum PollAction {
    /// The job is terminal: return it.
    Finish,
    /// The job is still running: wait this many seconds, then read it again.
    Wait { secs: u64 },
}

/// Exponential backoff for polling a job: 5 s, doubling, at most 30 s.
#[derive(Debug, Clone, Copy)]
pub struct PollSchedule {
    interval_secs: u64,
}

/// The wait after `n` non-terminal reads: 5 s doubled `n` times, at most 30 s.
pub open spec fn interval_after(n: nat) -> u64
    decreases n,
{
    if n == 0 {
        INITIAL_POLL_INTERVAL_SECS
    } else {
        let prev = interval_after((n - 1) as nat);
        if prev * 2 < MAX_POLL_INTERVAL_SECS {
            (prev * 2) as u64
        } else {
            MAX_POLL_INTERVAL_SECS
        }
    }
}

/// 5 seconds doubled `n` times, capped at 30: 5, 10, 20, 30, 30, ...
pub open spec fn capped_backoff(n: nat) -> int {
    let d = INITIAL_POLL_INTERVAL_SECS * pow2(n);
    if d < MAX_POLL_INTERVAL_SECS {
        d
    } else {
        MAX_POLL_INTERVAL_SECS as int
    }
}

/// What one call of `PollSchedule::next` does: on a terminal read it
/// finishes and leaves the schedule as it was; otherwise it waits the current
/// interval and doubles the interval, up to 30 seconds.
pub open spec fn poll_step(
    before: PollSchedule,
    terminal: bool,
    a: PollAction,
    after: PollSchedule,
) -> bool {
    if terminal {
        a == PollAction::Finish && after == before
    } else {
        &&& a == (PollAction::Wait { secs: before.interval() })
        &&& after.interval() == (if before.interval() * 2 < MAX_POLL_INTERVAL_SECS {
            before.interval() * 2
        } else {
            MAX_POLL_INTERVAL_SECS as int
        })
    }
}

impl PollSchedule {
    /// The next wait, in seconds.
    pub closed spec fn interval(self) -> u64 {
        self.interval_secs
    }

    /// The schedule keeps its wait between 5 and 30 seconds.
    #[verifier::type_invariant]
    pub closed spec fn wf(self) -> bool {
        INITIAL_POLL_INTERVAL_SECS <= self.interval_secs <= MAX_POLL_INTERVAL_SECS
    }

    /// A fresh schedule: the first wait is 5 seconds.
    pub fn new() -> (p: Self)
        ensures
            p.interval() == interval_after(0),
    {
        PollSchedule { interval_secs: INITIAL_POLL_INTERVAL_SECS }
    }

    /// The next wait, in seconds.
    pub fn interval_secs(&self) -> (s: u64)
        ensures
            s == self.interval(),
            INITIAL_POLL_INTERVAL_SECS <= s <= MAX_POLL_INTERVAL_SECS,
    {
        proof {
            use_type_invariant(self);
        }
        self.interval_secs
    }

    /// Decide on a freshly read job: finish when it is terminal, otherwise wait
    /// the current interval and double it, up to 30 seconds.
    pub fn next(&mut self, response: &Response) -> (a: PollAction)
        ensures
            INITIAL_POLL_INTERVAL_SECS <= final(self).interval() <= MAX_POLL_INTERVAL_SECS,
            response.status.terminal() ==> a == PollAction::Finish && *final(self) == *old(self),
            !response.status.terminal() ==> a == (PollAction::Wait { secs: old(self).interval() }),
            !response.status.terminal() ==> final(self).interval() == (if old(self).interval() * 2
                < MAX_POLL_INTERVAL_SECS {
                old(self).interval() * 2
            } else {
                MAX_POLL_INTERVAL_SECS as int
            }),
            poll_step(*old(self), response.status.terminal(), a, *final(self)),
    {
        proof {
            use_type_invariant(&*self);
        }
        if response.is_terminal() {
            return PollAction::Finish;
        }
        let secs = self.interval_secs;
        let doubled = secs * 2;
        self.interval_secs = if doubled < MAX_POLL_INTERVAL_SECS {
            doubled
        } else {
            MAX_POLL_INTERVAL_SECS
        };
        PollAction::Wait { secs }
    }
}


// ---------------------------------------------------------------------------
// Laws
// ---------------------------------------------------------------------------

/// Polling waits 5, 10 and 20 seconds, then 30 seconds each time after; the
/// wait never shrinks and stays between 5 and 30 seconds.
pub proof fn lemma_poll_intervals(n: nat)
    ensures
        INITIAL_POLL_INTERVAL_SECS <= interval_after(n) <= MAX_POLL_INTERVAL_SECS,
        interval_after(n) <= interval_after(n + 1),
        n == 0 ==> interval_after(n) == 5,
        n == 1 ==> interval_after(n) == 10,
        n == 2 ==> interval_after(n) == 20,
        n >= 3 ==> interval_after(n) == 30,
    decreases n,
{
    if n > 0 {
        lemma_poll_intervals((n - 1) as nat);
    }
    assert(interval_after(n + 1) == (if interval_after(n) * 2 < MAX_POLL_INTERVAL_SECS {
        (interval_after(n) * 2) as u64
    } else {
        MAX_POLL_INTERVAL_SECS
    }));
}

/// A schedule that has waited as `interval_after(n)` prescribes waits as
/// `interval_after(n + 1)` prescribes after one more non-terminal read.
pub proof fn lemma_poll_schedule_step(before: PollSchedule, after: PollSchedule, n: nat)
    requires
        before.interval() == interval_after(n),
        after.interval() == (if before.interval() * 2 < MAX_POLL_INTERVAL_SECS {
            before.interval() * 2
        } else {
            MAX_POLL_INTERVAL_SECS as int
        }),
    ensures
        after.interval() == interval_after(n + 1),
{
}

/// The wait after `n` non-terminal reads is 5 seconds doubled `n` times,
/// capped at 30 seconds.
pub proof fn lemma_poll_interval_closed_form(n: nat)
    ensures
        interval_after(n) == capped_backoff(n),
{
    lemma_poll_intervals(n);
    lemma_pow2_unfold(1);
    lemma_pow2_unfold(2);
    lemma_pow2_unfold(3);
    assert(pow2(0) == 1) by {
        lemma_pow2(0);
        reveal(pow);
    }
    if n >= 3 {
        if n > 3 {
            lemma_pow2_strictly_increases(3, n);
        }
        assert(pow2(n) >= 8);
    }
}

/// Schedules that start fresh and follow `poll_step` wait as `interval_after`
/// prescribes for as long as every read before has been non-terminal.
proof fn lemma_poll_run_prefix(
    terminal: Seq<bool>,
    actions: Seq<PollAction>,
    schedules: Seq<PollSchedule>,
    i: int,
)
    requires
        schedules.len() == terminal.len() + 1,
        actions.len() == terminal.len(),
        schedules[0].interval() == interval_after(0),
        forall|k: int|
            0 <= k < terminal.len() ==> poll_step(
                #[trigger] schedules[k],
                terminal[k],
                actions[k],
                schedules[k + 1],
            ),
        0 <= i < terminal.len(),
        forall|j: int| 0 <= j < i ==> !#[trigger] terminal[j],
    ensures
        schedules[i].interval() == interval_after(i as nat),
    decreases i,
{
    if i > 0 {
        lemma_poll_run_prefix(terminal, actions, schedules, i - 1);
        assert(poll_step(schedules[i - 1], terminal[i - 1], actions[i - 1], schedules[i]));
        assert(!terminal[i - 1]);
        lemma_poll_schedule_step(schedules[i - 1], schedules[i], (i - 1) as nat);
    }
}

/// A whole polling run from a fresh schedule, in which every read but the
/// last is non-terminal (the run stops at the first terminal read): after
/// read `i`, if it is not terminal, the run waits 5 seconds doubled `i` times,
/// capped at 30 (5, 10, 20, 30, 30, ...); a terminal read ends the run with
/// no wait.
pub proof fn lemma_poll_run(
    terminal: Seq<bool>,
    actions: Seq<PollAction>,
    schedules: Seq<PollSchedule>,
)
    requires
        schedules.len() == terminal.len() + 1,
        actions.len() == terminal.len(),
        schedules[0].interval() == interval_after(0),
        forall|k: int|
            0 <= k < terminal.len() ==> poll_step(
                #[trigger] schedules[k],
                terminal[k],
                actions[k],
                schedules[k + 1],
            ),
        forall|j: int| 0 <= j < terminal.len() - 1 ==> !#[trigger] terminal[j],
    ensures
        forall|i: int|
            0 <= i < terminal.len() && !terminal[i] ==> #[trigger] actions[i] == (PollAction::Wait {
                secs: capped_backoff(i as nat) as u64,
            }),
        forall|i: int| 0 <= i < terminal.len() && terminal[i] ==> #[trigger] actions[i] == PollAction::Finish,
{
    assert forall|i: int| 0 <= i < terminal.len() && !terminal[i] implies #[trigger] actions[i] == (
    PollAction::Wait { secs: capped_backoff(i as nat) as u64 }) by {
        lemma_poll_run_prefix(terminal, actions, schedules, i);
        lemma_poll_interval_closed_form(i as nat);
        assert(poll_step(schedules[i], terminal[i], actions[i], schedules[i + 1]));
    }
    assert forall|i: int| 0 <= i < terminal.len() && terminal[i] implies #[trigger] actions[i]
        == PollAction::Finish by {
        assert(poll_step(schedules[i], terminal[i], actions[i], schedules[i + 1]));
    }
}

/// Every request body holds web search as its first tool, the code
/// interpreter as a second tool exactly when it is enabled, and the user
/// query as its last input message, preceded by the developer instructions
/// exactly when they are given.
pub proof fn lemma_request_shape(query: Seq<char>, model: DeepResearchModel, o: CreateOptions)
    ensures
        request_for(query, model, o).tools[0] is WebSearchPreview,
        request_for(query, model, o).tools.len() == (if o.code_interpreter {
            2int
        } else {
            1int
        }),
        request_for(query, model, o).input.last() == (InputMessageView {
            role: "user"@,
            content: query,
        }),
        request_for(query, model, o).input.len() == (if o.instructions is Some {
            2int
        } else {
            1int
        }),
        o.instructions matches Some(i) ==> request_for(query, model, o).input[0] == (
        InputMessageView { role: "developer"@, content: i@ }),
        request_for(query, model, o).background,
        (request_for(query, model, o).tools[0]->user_location is Some) == (o.country is Some
            || o.city is Some || o.region is Some),
{
}

/// Each location field the options give reaches the web search tool as it
/// was given, whatever the other fields are: the tool has a location exactly
/// when a country, city or region is given, and then its country, city and
/// region are the options' own.
pub proof fn lemma_location_fields_pass_through(
    query: Seq<char>,
    model: DeepResearchModel,
    o: CreateOptions,
)
    ensures
        request_for(query, model, o).tools[0] is WebSearchPreview,
        (request_for(query, model, o).tools[0]->user_location is Some) <==> (o.country is Some
            || o.city is Some || o.region is Some),
        o.country matches Some(c) ==> request_for(query, model, o).tools[0]->user_location->Some_0.country
            == Some(c@),
        o.city matches Some(c) ==> request_for(query, model, o).tools[0]->user_location->Some_0.city
            == Some(c@),
        o.region matches Some(c) ==> request_for(query, model, o).tools[0]->user_location->Some_0.region
            == Some(c@),
        request_for(query, model, o).tools[0]->user_location matches Some(l) ==> l.country == opt_str(
            o.country,
        ) && l.city == opt_str(o.city) && l.region == opt_str(o.region) && l.location_type
            == "approximate"@,
        request_for(query, model, o).tools[0]->search_context_size == o.search_context_size,
{
}

/// The base URL a client keeps never ends in a slash, so the request URLs
/// join it to their paths with exactly one slash.
pub proof fn lemma_base_url_trimmed(base_url: Seq<char>)
    ensures
        trim_end(base_url, '/').len() == 0 || trim_end(base_url, '/').last() != '/',
        trim_end(trim_end(base_url, '/'), '/') == trim_end(base_url, '/'),
{
    lemma_trim_end_no_trailing(base_url, '/');
    crate::text::lemma_trim_end_idempotent(base_url, '/');
}

} // verus!
