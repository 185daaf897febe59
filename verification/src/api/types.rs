//! Responses API types for Deep Research.
//!
//! These types model the request/response shape of the Responses API when used
//! with the deep research models. All intermediate output items (web searches,
//! reasoning summaries, tool calls) are kept, and the helpers on `Response`
//! read the final report, its citations, the reasoning summaries and the
//! number of research steps out of them.

use std::collections::HashMap;
use vstd::prelude::*;

verus! {

/// JSON values in tool results are carried through unchanged; nothing here reads them.
#[verifier::external_type_specification]
#[verifier::external_body]
pub struct ExJsonValue(serde_json::Value);

// ---------------------------------------------------------------------------
// Models
// ---------------------------------------------------------------------------

/// Supported deep research models.
#[derive(Debug, Clone, Copy, PartialEq, Eq, Structural)]
pub enum DeepResearchModel {
    /// o3-deep-research-2025-06-26
    O3,
    /// o4-mini-deep-research-2025-06-26
    O4Mini,
}

impl DeepResearchModel {
    /// The model identifier sent to the API.
    pub open spec fn id(self) -> Seq<char> {
        match self {
            DeepResearchModel::O3 => "o3-deep-research-2025-06-26"@,
            DeepResearchModel::O4Mini => "o4-mini-deep-research-2025-06-26"@,
        }
    }

    pub fn as_str(&self) -> (s: &'static str)
        ensures
            s@ == self.id(),
    {
        match self {
            DeepResearchModel::O3 => "o3-deep-research-2025-06-26",
            DeepResearchModel::O4Mini => "o4-mini-deep-research-2025-06-26",
        }
    }

    /// The model identifier as an owned string (what `Display` prints).
    pub fn to_string(&self) -> (s: String)
        ensures
            s@ == self.id(),
    {
        String::from_str(self.as_str())
    }
}

impl Default for DeepResearchModel {
    fn default() -> (m: Self)
        ensures
            m == DeepResearchModel::O3,
    {
        DeepResearchModel::O3
    }
}

// ---------------------------------------------------------------------------
// Tool configuration
// ---------------------------------------------------------------------------

/// The view of an optional string.
pub open spec fn opt_str(o: Option<String>) -> Option<Seq<char>> {
    match o {
        Some(s) => Some(s@),
        None => None,
    }
}

/// User location hint for web search.
#[derive(Debug, Clone)]
pub struct UserLocation {
    /// Must be "approximate".
    pub location_type: String,
    /// ISO 3166-1 alpha-2 country code (e.g., "US", "GB").
    pub country: Option<String>,
    /// City name.
    pub city: Option<String>,
    /// Region/state.
    pub region: Option<String>,
}

/// The mathematical value of a `UserLocation`.
pub struct UserLocationView {
    pub location_type: Seq<char>,
    pub country: Option<Seq<char>>,
    pub city: Option<Seq<char>>,
    pub region: Option<Seq<char>>,
}

impl View for UserLocation {
    type V = UserLocationView;

    open spec fn view(&self) -> UserLocationView {
        UserLocationView {
            location_type: self.location_type@,
            country: opt_str(self.country),
            city: opt_str(self.city),
            region: opt_str(self.region),
        }
    }
}

impl UserLocationView {
    pub open spec fn has_any(self) -> bool {
        self.country is Some || self.city is Some || self.region is Some
    }
}

impl Default for UserLocation {
    fn default() -> (loc: Self)
        ensures
            loc@ == (UserLocationView {
                location_type: "approximate"@,
                country: None,
                city: None,
                region: None,
            }),
    {
        Self::new()
    }
}

impl UserLocation {
    /// An approximate location with no field set.
    pub fn new() -> (loc: Self)
        ensures
            loc@ == (UserLocationView {
                location_type: "approximate"@,
                country: None,
                city: None,
                region: None,
            }),
    {
        UserLocation {
            location_type: String::from_str("approximate"),
            country: None,
            city: None,
            region: None,
        }
    }

    pub fn with_country(self, country: &str) -> (loc: Self)
        ensures
            loc@ == (UserLocationView { country: Some(country@), ..self@ }),
    {
        let mut loc = self;
        loc.country = Some(String::from_str(country));
        loc
    }

    pub fn with_city(self, city: &str) -> (loc: Self)
        ensures
            loc@ == (UserLocationView { city: Some(city@), ..self@ }),
    {
        let mut loc = self;
        loc.city = Some(String::from_str(city));
        loc
    }

    pub fn with_region(self, region: &str) -> (loc: Self)
        ensures
            loc@ == (UserLocationView { region: Some(region@), ..self@ }),
    {
        let mut loc = self;
        loc.region = Some(String::from_str(region));
        loc
    }

    /// Returns true if any location field is set.
    pub fn has_any(&self) -> (b: bool)
        ensures
            b == self@.has_any(),
    {
        self.country.is_some() || self.city.is_some() || self.region.is_some()
    }
}

/// Web search context retrieval depth.
#[derive(Debug, Clone, Copy, PartialEq, Eq, Structural)]
pub enum SearchContextSize {
    Low,
    Medium,
    High,
}

impl SearchContextSize {
    /// The lowercase name used on the wire and in messages.
    pub open spec fn name(self) -> Seq<char> {
        match self {
            SearchContextSize::Low => "low"@,
            SearchContextSize::Medium => "medium"@,
            SearchContextSize::High => "high"@,
        }
    }

    /// The lowercase name (what `Display` prints).
    pub fn as_str(&self) -> (s: &'static str)
        ensures
            s@ == self.name(),
    {
        match self {
            SearchContextSize::Low => "low",
            SearchContextSize::Medium => "medium",
            SearchContextSize::High => "high",
        }
    }
}

/// A tool to include in the deep research request.
///
/// Deep research supports: web_search_preview, code_interpreter, file_search, mcp.
/// This library sends web_search_preview and code_interpreter.
#[derive(Debug, Clone)]
pub enum Tool {
    /// Web search with optional location and context size configuration.
    WebSearchPreview {
        user_location: Option<UserLocation>,
        search_context_size: Option<SearchContextSize>,
    },
    /// Code interpreter for running Python code during research.
    CodeInterpreter {},
}

/// The mathematical value of a `Tool`.
pub enum ToolView {
    WebSearchPreview {
        user_location: Option<UserLocationView>,
        search_context_size: Option<SearchContextSize>,
    },
    CodeInterpreter,
}

pub open spec fn opt_location(o: Option<UserLocation>) -> Option<UserLocationView> {
    match o {
        Some(l) => Some(l@),
        None => None,
    }
}

impl View for Tool {
    type V = ToolView;

    open spec fn view(&self) -> ToolView {
        match self {
            Tool::WebSearchPreview { user_location, search_context_size } =>
                ToolView::WebSearchPreview {
                    user_location: opt_location(*user_location),
                    search_context_size: *search_context_size,
                },
            Tool::CodeInterpreter {} => ToolView::CodeInterpreter,
        }
    }
}

// ---------------------------------------------------------------------------
// Request types
// ---------------------------------------------------------------------------

/// An input message for the deep research request.
#[derive(Debug, Clone)]
pub struct InputMessage {
    /// "user" for the research query, "developer" for system instructions.
    pub role: String,
    /// The message content.
    pub content: String,
}

/// The mathematical value of an `InputMessage`.
pub struct InputMessageView {
    pub role: Seq<char>,
    pub content: Seq<char>,
}

impl View for InputMessage {
    type V = InputMessageView;

    open spec fn view(&self) -> InputMessageView {
        InputMessageView { role: self.role@, content: self.content@ }
    }
}

/// Reasoning configuration.
#[derive(Debug, Clone)]
pub struct ReasoningConfig {
    /// "auto" to include reasoning summaries in the output.
    pub summary: String,
}

impl Default for ReasoningConfig {
    fn default() -> (r: Self)
        ensures
            r.summary@ == "auto"@,
    {
        ReasoningConfig { summary: String::from_str("auto") }
    }
}

/// Request body for creating a deep research job (sent as POST to /v1/responses).
#[derive(Debug, Clone)]
pub struct CreateRequest {
    /// The deep research model to use.
    pub model: String,
    /// Input messages (user query + optional developer instructions).
    pub input: Vec<InputMessage>,
    /// Tools available to the model.
    pub tools: Vec<Tool>,
    /// Reasoning configuration.
    pub reasoning: ReasoningConfig,
    /// Run in background mode (recommended for deep research).
    pub background: bool,
    /// Optional: top-level instructions for the model.
    pub instructions: Option<String>,
    /// Optional: whether to store the response (retained for 30 days).
    pub store: Option<bool>,
    /// Optional: key-value metadata.
    pub metadata: Option<HashMap<String, String>>,
}

/// The mathematical value of a `CreateRequest`.
pub struct CreateRequestView {
    pub model: Seq<char>,
    pub input: Seq<InputMessageView>,
    pub tools: Seq<ToolView>,
    pub reasoning_summary: Seq<char>,
    pub background: bool,
    pub instructions: Option<Seq<char>>,
    pub store: Option<bool>,
    pub metadata: Option<HashMap<String, String>>,
}

impl View for CreateRequest {
    type V = CreateRequestView;

    open spec fn view(&self) -> CreateRequestView {
        CreateRequestView {
            model: self.model@,
            input: self.input@.map_values(|m: InputMessage| m@),
            tools: self.tools@.map_values(|t: Tool| t@),
            reasoning_summary: self.reasoning.summary@,
            background: self.background,
            instructions: opt_str(self.instructions),
            store: self.store,
            metadata: self.metadata,
        }
    }
}

// ---------------------------------------------------------------------------
// Response types
// ---------------------------------------------------------------------------

/// Status of a deep research response.
#[derive(Debug, Clone, Copy, PartialEq, Eq, Structural)]
pub enum ResponseStatus {
    Queued,
    InProgress,
    Completed,
    Failed,
    Incomplete,
}

impl ResponseStatus {
    /// The snake_case name used on the wire and in messages.
    pub open spec fn name(self) -> Seq<char> {
        match self {
            ResponseStatus::Queued => "queued"@,
            ResponseStatus::InProgress => "in_progress"@,
            ResponseStatus::Completed => "completed"@,
            ResponseStatus::Failed => "failed"@,
            ResponseStatus::Incomplete => "incomplete"@,
        }
    }

    /// A job in this state will not change any more.
    pub open spec fn terminal(self) -> bool {
        self == ResponseStatus::Completed || self == ResponseStatus::Failed || self
            == ResponseStatus::Incomplete
    }

    /// The snake_case name (what `Display` prints).
    pub fn as_str(&self) -> (s: &'static str)
        ensures
            s@ == self.name(),
    {
        match self {
            ResponseStatus::Queued => "queued",
            ResponseStatus::InProgress => "in_progress",
            ResponseStatus::Completed => "completed",
            ResponseStatus::Failed => "failed",
            ResponseStatus::Incomplete => "incomplete",
        }
    }

    /// The snake_case name as an owned string.
    pub fn to_string(&self) -> (s: String)
        ensures
            s@ == self.name(),
    {
        String::from_str(self.as_str())
    }
}

/// API-level error information.
#[derive(Debug, Clone)]
pub struct ResponseError {
    pub code: String,
    pub message: String,
}

/// Token usage statistics.
#[derive(Debug, Clone, Copy, PartialEq, Eq, Structural)]
pub struct Usage {
    pub input_tokens: u64,
    pub output_tokens: u64,
    pub total_tokens: u64,
}

/// The top-level response object from the Responses API.
#[derive(Debug, Clone)]
pub struct Response {
    /// Unique response ID (starts with "resp_").
    pub id: String,
    /// Always "response".
    pub object: String,
    /// Current status of the research job.
    pub status: ResponseStatus,
    /// Full output array, including all intermediate items.
    pub output: Vec<OutputItem>,
    /// Error details (if status is "failed").
    pub error: Option<ResponseError>,
    /// Token usage (available when completed).
    pub usage: Option<Usage>,
    /// Model used.
    pub model: String,
    /// Creation timestamp in Unix seconds, as the bit pattern of the IEEE-754
    /// double the API sends; carried through, never computed on.
    pub created_at_bits: u64,
    /// Metadata.
    pub metadata: Option<HashMap<String, String>>,
}

// ---------------------------------------------------------------------------
// Output items
// ---------------------------------------------------------------------------

/// A single item in the response output array.
#[derive(Debug, Clone)]
pub enum OutputItem {
    /// The final (or intermediate) assistant message with the research report.
    Message { id: String, role: String, status: Option<String>, content: Vec<ContentItem> },
    /// A web search call made during research.
    WebSearchCall { id: String, status: Option<String> },
    /// Reasoning step with a summary of the model's thinking.
    Reasoning { id: String, summary: Vec<SummaryItem> },
    /// An MCP tool call made to a connected remote MCP server.
    McpToolCall {
        id: String,
        server_label: Option<String>,
        name: Option<String>,
        arguments: Option<String>,
        output: Option<String>,
        error: Option<String>,
    },
    /// A code interpreter invocation.
    CodeInterpreterCall {
        id: String,
        status: Option<String>,
        code: Option<String>,
        results: Option<Vec<serde_json::Value>>,
    },
    /// A file search call over vector stores.
    FileSearchCall { id: String, status: Option<String>, results: Option<Vec<serde_json::Value>> },
    /// Catch-all for unknown output item types (forward compatibility).
    Unknown,
}

/// Content within a message output item.
#[derive(Debug, Clone)]
pub enum ContentItem {
    /// Text content with optional URL citation annotations.
    OutputText { text: String, annotations: Vec<Annotation> },
    /// Catch-all for unknown content types.
    Unknown,
}

/// A URL citation annotation on text content.
#[derive(Debug, Clone)]
pub struct Annotation {
    /// Annotation type (e.g., "url_citation").
    pub annotation_type: String,
    /// The cited URL.
    pub url: Option<String>,
    /// Title of the cited page.
    pub title: Option<String>,
    /// Start character index in the parent text.
    pub start_index: Option<usize>,
    /// End character index in the parent text.
    pub end_index: Option<usize>,
}

/// A summary text item within a reasoning output.
#[derive(Debug, Clone)]
pub struct SummaryItem {
    /// Always "summary_text".
    pub summary_type: String,
    /// The reasoning summary text.
    pub text: String,
}


// ---------------------------------------------------------------------------
// Reading the output
// ---------------------------------------------------------------------------

/// An annotation that cites a URL.
pub open spec fn is_url_citation(a: Annotation) -> bool {
    a.annotation_type@ == "url_citation"@
}

/// The first non-empty output text among `contents`, in order.
pub open spec fn first_text(contents: Seq<ContentItem>) -> Option<Seq<char>>
    decreases contents.len(),
{
    if contents.len() == 0 {
        None
    } else if contents[0] is OutputText && contents[0]->text@.len() > 0 {
        Some(contents[0]->text@)
    } else {
        first_text(contents.drop_first())
    }
}

/// The research report: the first non-empty text of the last message that has one.
pub open spec fn report_of(items: Seq<OutputItem>) -> Option<Seq<char>>
    decreases items.len(),
{
    if items.len() == 0 {
        None
    } else if items.last() is Message && first_text(items.last()->content@) is Some {
        first_text(items.last()->content@)
    } else {
        report_of(items.drop_last())
    }
}

/// The URL citations among `anns`, in order.
pub open spec fn url_citations(anns: Seq<Annotation>) -> Seq<Annotation>
    decreases anns.len(),
{
    if anns.len() == 0 {
        Seq::empty()
    } else if is_url_citation(anns.last()) {
        url_citations(anns.drop_last()).push(anns.last())
    } else {
        url_citations(anns.drop_last())
    }
}

/// The URL citations of one content item.
pub open spec fn content_citations(c: ContentItem) -> Seq<Annotation> {
    match c {
        ContentItem::OutputText { annotations, .. } => url_citations(annotations@),
        ContentItem::Unknown => Seq::empty(),
    }
}

/// The URL citations of a message's contents, in order.
pub open spec fn message_citations(contents: Seq<ContentItem>) -> Seq<Annotation>
    decreases contents.len(),
{
    if contents.len() == 0 {
        Seq::empty()
    } else {
        message_citations(contents.drop_last()) + content_citations(contents.last())
    }
}

/// The citations of the response: those of the last message that has any.
pub open spec fn citations_of(items: Seq<OutputItem>) -> Seq<Annotation>
    decreases items.len(),
{
    if items.len() == 0 {
        Seq::empty()
    } else if items.last() is Message && message_citations(items.last()->content@).len() > 0 {
        message_citations(items.last()->content@)
    } else {
        citations_of(items.drop_last())
    }
}

/// Web searches, reasoning, and tool calls count as research steps.
pub open spec fn is_step(item: OutputItem) -> bool {
    item is WebSearchCall || item is Reasoning || item is McpToolCall || item is CodeInterpreterCall
        || item is FileSearchCall
}

/// The number of research steps among `items`.
pub open spec fn step_count(items: Seq<OutputItem>) -> nat
    decreases items.len(),
{
    if items.len() == 0 {
        0
    } else if is_step(items.last()) {
        step_count(items.drop_last()) + 1
    } else {
        step_count(items.drop_last())
    }
}

/// The texts of a reasoning item's summary, in order.
pub open spec fn summary_texts(summary: Seq<SummaryItem>) -> Seq<Seq<char>> {
    summary.map_values(|s: SummaryItem| s.text@)
}

/// All reasoning summary texts, in output order.
pub open spec fn summaries_of(items: Seq<OutputItem>) -> Seq<Seq<char>>
    decreases items.len(),
{
    if items.len() == 0 {
        Seq::empty()
    } else if items.last() is Reasoning {
        summaries_of(items.drop_last()) + summary_texts(items.last()->summary@)
    } else {
        summaries_of(items.drop_last())
    }
}

/// `first_text` read from position `j` on.
proof fn lemma_first_text_step(c: Seq<ContentItem>, j: int)
    requires
        0 <= j < c.len(),
    ensures
        first_text(c.skip(j)) == (if c[j] is OutputText && c[j]->text@.len() > 0 {
            Some(c[j]->text@)
        } else {
            first_text(c.skip(j + 1))
        }),
{
    assert(c.skip(j)[0] == c[j]);
    assert(c.skip(j).drop_first() =~= c.skip(j + 1));
}

fn first_nonempty_text(contents: &Vec<ContentItem>) -> (r: Option<&String>)
    ensures
        match r {
            Some(t) => first_text(contents@) == Some(t@),
            None => first_text(contents@) is None,
        },
{
    let mut j: usize = 0;
    assert(contents@.skip(0) =~= contents@);
    while j < contents.len()
        invariant
            j <= contents.len(),
            first_text(contents@) == first_text(contents@.skip(j as int)),
        decreases contents.len() - j,
    {
        proof {
            lemma_first_text_step(contents@, j as int);
        }
        match &contents[j] {
            ContentItem::OutputText { text, .. } => {
                if !text.as_str().is_empty() {
                    return Some(text);
                }
            },
            ContentItem::Unknown => {},
        }
        j = j + 1;
    }
    assert(contents@.skip(j as int).len() == 0);
    None
}

impl Response {
    /// The final assistant message text (the research report): scanning the
    /// output from the end, the first non-empty text of the last message that has one.
    pub fn final_report(&self) -> (r: Option<String>)
        ensures
            opt_str(r) == report_of(self.output@),
            r matches Some(t) ==> t@.len() > 0,
    {
        let mut i: usize = self.output.len();
        assert(self.output@.take(i as int) =~= self.output@);
        while i > 0
            invariant
                i <= self.output.len(),
                report_of(self.output@) == report_of(self.output@.take(i as int)),
            decreases i,
        {
            let ghost pre = self.output@.take(i as int);
            assert(pre.last() == self.output@[i - 1]);
            assert(pre.drop_last() =~= self.output@.take(i - 1));
            if let OutputItem::Message { content, .. } = &self.output[i - 1] {
                if let Some(t) = first_nonempty_text(content) {
                    proof { lemma_first_text_nonempty(content@); }
                    return Some(t.clone());
                }
            }
            i = i - 1;
        }
        None
    }

    /// The URL citations of the last message that has any.
    pub fn citations(&self) -> (r: Vec<&Annotation>)
        ensures
            r@.len() == citations_of(self.output@).len(),
            forall|k: int| 0 <= k < r@.len() ==> *r@[k] == citations_of(self.output@)[k],
            forall|k: int| 0 <= k < r@.len() ==> is_url_citation(*r@[k]),
    {
        let url_citation = String::from_str("url_citation");
        let mut citations: Vec<&Annotation> = Vec::new();
        let mut i: usize = self.output.len();
        assert(self.output@.take(i as int) =~= self.output@);
        while i > 0
            invariant
                url_citation@ == "url_citation"@,
                i <= self.output.len(),
                citations@.len() == 0,
                citations_of(self.output@) == citations_of(self.output@.take(i as int)),
            decreases i,
        {
            let ghost pre = self.output@.take(i as int);
            assert(pre.last() == self.output@[i - 1]);
            assert(pre.drop_last() =~= self.output@.take(i - 1));
            if let OutputItem::Message { content, .. } = &self.output[i - 1] {
                let mut j: usize = 0;
                assert(content@.take(0) =~= Seq::<ContentItem>::empty());
                while j < content.len()
                    invariant
                        url_citation@ == "url_citation"@,
                        j <= content.len(),
                        citations@.len() == message_citations(content@.take(j as int)).len(),
                        forall|k: int|
                            0 <= k < citations@.len() ==> *citations@[k] == message_citations(
                                content@.take(j as int),
                            )[k],
                    decreases content.len() - j,
                {
                    let ghost before = citations@;
                    let ghost cpre = content@.take(j + 1);
                    assert(cpre.last() == content@[j as int]);
                    assert(cpre.drop_last() =~= content@.take(j as int));
                    if let ContentItem::OutputText { annotations, .. } = &content[j] {
                        let mut k: usize = 0;
                        assert(annotations@.take(0) =~= Seq::<Annotation>::empty());
                        while k < annotations.len()
                            invariant
                                url_citation@ == "url_citation"@,
                                k <= annotations.len(),
                                citations@.len() == before.len() + url_citations(
                                    annotations@.take(k as int),
                                ).len(),
                                forall|m: int|
                                    0 <= m < before.len() ==> citations@[m] == before[m],
                                forall|m: int|
                                    0 <= m < url_citations(annotations@.take(k as int)).len()
                                        ==> *citations@[before.len() + m] == url_citations(
                                        annotations@.take(k as int),
                                    )[m],
                            decreases annotations.len() - k,
                        {
                            let ghost apre = annotations@.take(k + 1);
                            assert(apre.last() == annotations@[k as int]);
                            assert(apre.drop_last() =~= annotations@.take(k as int));
                            let ann = &annotations[k];
                            if ann.annotation_type == url_citation {
                                citations.push(ann);
                            }
                            k = k + 1;
                        }
                        assert(annotations@.take(k as int) =~= annotations@);
                    }
                    proof {
                        let added = content_citations(content@[j as int]);
                        assert(citations@.len() == before.len() + added.len());
                        assert(forall|m: int|
                            0 <= m < added.len() ==> *citations@[before.len() + m] == added[m]);
                        let mc = message_citations(cpre);
                        assert(mc == message_citations(content@.take(j as int)) + added);
                        assert forall|m: int| 0 <= m < citations@.len() implies *citations@[m]
                            == mc[m] by {
                            let prev = message_citations(content@.take(j as int));
                            if m >= before.len() {
                                assert(*citations@[before.len() + (m - before.len())]
                                    == added[m - before.len()]);
                                assert(mc[m] == added[m - before.len()]);
                            } else {
                                assert(citations@[m] == before[m]);
                                assert(mc[m] == prev[m]);
                            }
                        }
                    }
                    j = j + 1;
                }
                assert(content@.take(j as int) =~= content@);
                if citations.len() > 0 {
                    proof { lemma_citations_are_urls(self.output@.take(i as int)); }
                    return citations;
                }
            }
            i = i - 1;
        }
        assert(self.output@.take(0) =~= Seq::<OutputItem>::empty());
        citations
    }

    /// The number of intermediate research steps (web searches, reasoning, tool calls).
    pub fn research_step_count(&self) -> (n: usize)
        ensures
            n == step_count(self.output@),
            n <= self.output@.len(),
    {
        let mut n: usize = 0;
        let mut i: usize = 0;
        assert(self.output@.take(0) =~= Seq::<OutputItem>::empty());
        while i < self.output.len()
            invariant
                i <= self.output.len(),
                n == step_count(self.output@.take(i as int)),
                n <= i,
            decreases self.output.len() - i,
        {
            let ghost pre = self.output@.take(i + 1);
            assert(pre.last() == self.output@[i as int]);
            assert(pre.drop_last() =~= self.output@.take(i as int));
            match &self.output[i] {
                OutputItem::WebSearchCall { .. } | OutputItem::Reasoning { .. }
                | OutputItem::McpToolCall { .. } | OutputItem::CodeInterpreterCall { .. }
                | OutputItem::FileSearchCall { .. } => {
                    n = n + 1;
                },
                _ => {},
            }
            i = i + 1;
        }
        assert(self.output@.take(i as int) =~= self.output@);
        n
    }

    /// All reasoning summary texts, in output order.
    pub fn reasoning_summaries(&self) -> (r: Vec<&str>)
        ensures
            r@.len() == summaries_of(self.output@).len(),
            forall|k: int| 0 <= k < r@.len() ==> r@[k]@ == summaries_of(self.output@)[k],
    {
        let mut r: Vec<&str> = Vec::new();
        let mut i: usize = 0;
        assert(self.output@.take(0) =~= Seq::<OutputItem>::empty());
        while i < self.output.len()
            invariant
                i <= self.output.len(),
                r@.len() == summaries_of(self.output@.take(i as int)).len(),
                forall|k: int|
                    0 <= k < r@.len() ==> r@[k]@ == summaries_of(self.output@.take(i as int))[k],
            decreases self.output.len() - i,
        {
            let ghost pre = self.output@.take(i + 1);
            assert(pre.last() == self.output@[i as int]);
            assert(pre.drop_last() =~= self.output@.take(i as int));
            if let OutputItem::Reasoning { summary, .. } = &self.output[i] {
                let ghost before = r@;
                let mut j: usize = 0;
                while j < summary.len()
                    invariant
                        j <= summary.len(),
                        r@.len() == before.len() + j,
                        forall|m: int| 0 <= m < before.len() ==> r@[m] == before[m],
                        forall|m: int|
                            0 <= m < j ==> r@[before.len() + m]@ == summary@[m].text@,
                    decreases summary.len() - j,
                {
                    r.push(summary[j].text.as_str());
                    j = j + 1;
                }
            }
            i = i + 1;
        }
        assert(self.output@.take(i as int) =~= self.output@);
        r
    }

    /// Whether the job has reached a state it will not leave.
    pub fn is_terminal(&self) -> (b: bool)
        ensures
            b == self.status.terminal(),
    {
        match self.status {
            ResponseStatus::Completed | ResponseStatus::Failed | ResponseStatus::Incomplete => true,
            _ => false,
        }
    }
}

/// Every annotation that `url_citations` keeps cites a URL.
proof fn lemma_url_citations_are_urls(anns: Seq<Annotation>)
    ensures
        forall|k: int|
            0 <= k < url_citations(anns).len() ==> is_url_citation(#[trigger] url_citations(anns)[k]),
    decreases anns.len(),
{
    if anns.len() > 0 {
        lemma_url_citations_are_urls(anns.drop_last());
        let prev = url_citations(anns.drop_last());
        assert forall|k: int|
            0 <= k < url_citations(anns).len() implies is_url_citation(
                #[trigger] url_citations(anns)[k],
            ) by {
            if k < prev.len() {
                assert(is_url_citation(prev[k]));
            }
        }
    }
}

/// Every annotation that `message_citations` keeps cites a URL.
proof fn lemma_message_citations_are_urls(contents: Seq<ContentItem>)
    ensures
        forall|k: int|
            0 <= k < message_citations(contents).len() ==> is_url_citation(
                #[trigger] message_citations(contents)[k],
            ),
    decreases contents.len(),
{
    if contents.len() > 0 {
        lemma_message_citations_are_urls(contents.drop_last());
        match contents.last() {
            ContentItem::OutputText { annotations, .. } => lemma_url_citations_are_urls(annotations@),
            ContentItem::Unknown => {},
        }
        let a = message_citations(contents.drop_last());
        let b = content_citations(contents.last());
        assert forall|k: int| 0 <= k < (a + b).len() implies is_url_citation(#[trigger] (a + b)[k]) by {
            if k >= a.len() {
                assert((a + b)[k] == b[k - a.len()]);
            }
        }
    }
}

/// Every annotation that `citations_of` returns cites a URL.
pub proof fn lemma_citations_are_urls(items: Seq<OutputItem>)
    ensures
        forall|k: int|
            0 <= k < citations_of(items).len() ==> is_url_citation(#[trigger] citations_of(items)[k]),
    decreases items.len(),
{
    if items.len() > 0 {
        lemma_citations_are_urls(items.drop_last());
        let prev = citations_of(items.drop_last());
        if items.last() is Message && message_citations(items.last()->content@).len() > 0 {
            lemma_message_citations_are_urls(items.last()->content@);
        } else {
            assert(citations_of(items) == prev);
            assert forall|k: int|
                0 <= k < citations_of(items).len() implies is_url_citation(
                    #[trigger] citations_of(items)[k],
                ) by {
                assert(is_url_citation(prev[k]));
            }
        }
    }
}

/// A text found by `first_text` is not empty.
proof fn lemma_first_text_nonempty(c: Seq<ContentItem>)
    ensures
        first_text(c) matches Some(t) ==> t.len() > 0,
    decreases c.len(),
{
    if c.len() > 0 {
        lemma_first_text_nonempty(c.drop_first());
    }
}


// ---------------------------------------------------------------------------
// Laws
// ---------------------------------------------------------------------------

/// A message with a non-empty text.
pub open spec fn has_report(item: OutputItem) -> bool {
    item is Message && first_text(item->content@) is Some
}

/// A message with at least one URL citation.
pub open spec fn has_citations(item: OutputItem) -> bool {
    item is Message && message_citations(item->content@).len() > 0
}

/// The report comes from the last message that has a non-empty text; there
/// is no report exactly when no message has one.
pub proof fn lemma_report_from_last_message(items: Seq<OutputItem>)
    ensures
        report_of(items) is Some ==> exists|i: int|
            0 <= i < items.len() && has_report(#[trigger] items[i]) && first_text(items[i]->content@)
                == report_of(items) && forall|j: int|
                i < j < items.len() ==> !has_report(#[trigger] items[j]),
        report_of(items) is None ==> forall|j: int|
            0 <= j < items.len() ==> !has_report(#[trigger] items[j]),
    decreases items.len(),
{
    if items.len() > 0 {
        let prev = items.drop_last();
        lemma_report_from_last_message(prev);
        let n = items.len() - 1;
        if has_report(items.last()) {
            assert(has_report(items[n]));
        } else if report_of(items) is Some {
            let i = choose|i: int|
                0 <= i < prev.len() && has_report(#[trigger] prev[i]) && first_text(
                    prev[i]->content@,
                ) == report_of(prev) && forall|j: int|
                    i < j < prev.len() ==> !has_report(#[trigger] prev[j]);
            assert(items[i] == prev[i]);
            assert forall|j: int| i < j < items.len() implies !has_report(#[trigger] items[j]) by {
                if j < n {
                    assert(items[j] == prev[j]);
                }
            }
        } else {
            assert forall|j: int| 0 <= j < items.len() implies !has_report(#[trigger] items[j]) by {
                if j < n {
                    assert(items[j] == prev[j]);
                }
            }
        }
    }
}

/// The citations come from one message: the last one that has any; there
/// are none exactly when no message has one.
pub proof fn lemma_citations_from_last_message(items: Seq<OutputItem>)
    ensures
        citations_of(items).len() > 0 ==> exists|i: int|
            0 <= i < items.len() && has_citations(#[trigger] items[i]) && message_citations(
                items[i]->content@,
            ) == citations_of(items) && forall|j: int|
                i < j < items.len() ==> !has_citations(#[trigger] items[j]),
        citations_of(items).len() == 0 ==> forall|j: int|
            0 <= j < items.len() ==> !has_citations(#[trigger] items[j]),
    decreases items.len(),
{
    if items.len() > 0 {
        let prev = items.drop_last();
        lemma_citations_from_last_message(prev);
        let n = items.len() - 1;
        if has_citations(items.last()) {
            assert(has_citations(items[n]));
        } else if citations_of(items).len() > 0 {
            let i = choose|i: int|
                0 <= i < prev.len() && has_citations(#[trigger] prev[i]) && message_citations(
                    prev[i]->content@,
                ) == citations_of(prev) && forall|j: int|
                    i < j < prev.len() ==> !has_citations(#[trigger] prev[j]);
            assert(items[i] == prev[i]);
            assert forall|j: int| i < j < items.len() implies !has_citations(#[trigger] items[j]) by {
                if j < n {
                    assert(items[j] == prev[j]);
                }
            }
        } else {
            assert forall|j: int| 0 <= j < items.len() implies !has_citations(#[trigger] items[j]) by {
                if j < n {
                    assert(items[j] == prev[j]);
                }
            }
        }
    }
}

/// No more research steps are counted than there are output items.
pub proof fn lemma_step_count_bounded(items: Seq<OutputItem>)
    ensures
        step_count(items) <= items.len(),
    decreases items.len(),
{
    if items.len() > 0 {
        lemma_step_count_bounded(items.drop_last());
    }
}

/// Steps are counted one by one: the count over two runs of output put end
/// to end is the sum of their counts, and a single item counts 1 exactly when
/// it is a web search, a reasoning item, or an MCP, code interpreter or file
/// search call.
pub proof fn lemma_step_count_additive(a: Seq<OutputItem>, b: Seq<OutputItem>, x: OutputItem)
    ensures
        step_count(a + b) == step_count(a) + step_count(b),
        step_count(seq![x]) == (if x is WebSearchCall || x is Reasoning || x is McpToolCall
            || x is CodeInterpreterCall || x is FileSearchCall {
            1nat
        } else {
            0nat
        }),
    decreases b.len(),
{
    assert(seq![x].drop_last() =~= Seq::<OutputItem>::empty());
    assert(seq![x].len() == 1 && seq![x].last() == x);
    assert(step_count(Seq::<OutputItem>::empty()) == 0);
    if b.len() == 0 {
        assert(a + b =~= a);
    } else {
        lemma_step_count_additive(a, b.drop_last(), x);
        assert((a + b).drop_last() =~= a + b.drop_last());
        assert((a + b).last() == b.last());
    }
}

/// Distinct statuses have distinct names, so the name identifies the status.
pub proof fn lemma_status_names_distinct(a: ResponseStatus, b: ResponseStatus)
    ensures
        a.name() == b.name() ==> a == b,
{
    reveal_strlit("queued");
    reveal_strlit("in_progress");
    reveal_strlit("completed");
    reveal_strlit("failed");
    reveal_strlit("incomplete");
    if a != b {
        assert(a.name().len() != b.name().len() || a.name()[0] != b.name()[0]);
    }
}

/// Distinct models have distinct identifiers.
pub proof fn lemma_model_ids_distinct(a: DeepResearchModel, b: DeepResearchModel)
    ensures
        a.id() == b.id() ==> a == b,
{
    reveal_strlit("o3-deep-research-2025-06-26");
    reveal_strlit("o4-mini-deep-research-2025-06-26");
    if a != b {
        assert(a.id()[1] != b.id()[1]);
    }
}

} // verus!
