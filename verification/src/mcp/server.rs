//! The logic of the MCP research tools.
//!
//! Three tools are offered: `create_research` starts a job, `check_status`
//! reports its progress, and `get_results` reports the full results with the
//! intermediate output. This module turns tool parameters into a request and
//! shapes what each tool answers; the MCP plumbing sits around it.

use vstd::prelude::*;

use crate::api::client::{search_context_supported, CreateOptions};
use crate::api::types::{
    citations_of, opt_str, report_of, step_count, summaries_of, Annotation, DeepResearchModel,
    Response, ResponseError, SearchContextSize, Usage,
};
use crate::text::same_text;

verus! {

// ---------------------------------------------------------------------------
// Tool parameters
// ---------------------------------------------------------------------------

/// Parameters for creating a new deep research job.
#[derive(Debug, Clone)]
pub struct CreateResearchParams {
    /// The research query or question to investigate.
    pub query: String,
    /// Model to use: "o3" (default, full power) or "o4-mini" (faster, cheaper).
    pub model: Option<String>,
    /// ISO 3166-1 alpha-2 country code for localizing web search results.
    pub country: Option<String>,
    /// City name for localizing web search results.
    pub city: Option<String>,
    /// Region/state for localizing web search results.
    pub region: Option<String>,
    /// Web search context depth. Deep Research currently supports only "medium".
    pub search_context_size: Option<String>,
    /// Whether to enable the code interpreter tool during research.
    pub code_interpreter: Option<bool>,
    /// Optional developer-level instructions for the model.
    pub instructions: Option<String>,
}

/// Parameters for checking research job status.
#[derive(Debug, Clone)]
pub struct CheckStatusParams {
    /// The response ID returned by create_research (starts with "resp_").
    pub response_id: String,
}

/// Parameters for retrieving full research results.
#[derive(Debug, Clone)]
pub struct GetResultsParams {
    /// The response ID returned by create_research (starts with "resp_").
    pub response_id: String,
    /// Whether to include intermediate research steps; absent means yes.
    pub include_steps: Option<bool>,
}

/// The instructions the server announces to clients.
pub open spec fn instructions_text() -> Seq<char> {
    "Fathom: Deep Research API wrapper. Use create_research to start a job, check_status to monitor progress, and get_results to retrieve the full report with citations and intermediate research steps."@
}

/// The instructions the server announces to clients.
pub fn server_instructions() -> (s: &'static str)
    ensures
        s@ == instructions_text(),
{
    "Fathom: Deep Research API wrapper. Use create_research to start a job, check_status to monitor progress, and get_results to retrieve the full report with citations and intermediate research steps."
}

// ---------------------------------------------------------------------------
// create_research
// ---------------------------------------------------------------------------

/// The model a tool call asks for: "o4-mini" or "o4_mini" pick o4-mini,
/// anything else (or nothing) picks o3.
pub open spec fn model_for_param(m: Option<Seq<char>>) -> DeepResearchModel {
    if m == Some("o4-mini"@) || m == Some("o4_mini"@) {
        DeepResearchModel::O4Mini
    } else {
        DeepResearchModel::O3
    }
}

/// The search context sizes a tool call may give: none, or "medium"; deep
/// research accepts no other.
pub open spec fn context_size_param_supported(s: Option<Seq<char>>) -> bool {
    s is None || s == Some("medium"@)
}

/// The search context size an accepted tool call asks for.
pub open spec fn context_size_for_param(s: Option<Seq<char>>) -> Option<SearchContextSize> {
    if s == Some("medium"@) {
        Some(SearchContextSize::Medium)
    } else {
        None
    }
}

/// Why a tool call is refused before any request is sent.
#[derive(Debug, Clone)]
pub enum ToolError {
    /// The search context size given is not "medium".
    UnsupportedSearchContextSize(String),
}

/// The message a refused tool call is reported with.
pub open spec fn tool_error_message(e: ToolError) -> Seq<char> {
    match e {
        ToolError::UnsupportedSearchContextSize(_) =>
            "Deep research only supports search_context_size 'medium'; omit the option or use 'medium'"@,
    }
}

impl ToolError {
    /// The message this error is reported with (what `Display` prints).
    pub fn message(&self) -> (m: String)
        ensures
            m@ == tool_error_message(*self),
    {
        match self {
            ToolError::UnsupportedSearchContextSize(_) => String::from_str(
                "Deep research only supports search_context_size 'medium'; omit the option or use 'medium'",
            ),
        }
    }
}

/// The model a tool call asks for.
pub fn model_from_param(model: &Option<String>) -> (m: DeepResearchModel)
    ensures
        m == model_for_param(opt_str(*model)),
{
    match model {
        Some(name) => {
            if same_text(name.as_str(), "o4-mini") || same_text(name.as_str(), "o4_mini") {
                DeepResearchModel::O4Mini
            } else {
                DeepResearchModel::O3
            }
        },
        None => DeepResearchModel::O3,
    }
}

/// The search context size a tool call asks for; any value but "medium" is refused.
pub fn context_size_from_param(size: &Option<String>) -> (r: Result<
    Option<SearchContextSize>,
    ToolError,
>)
    ensures
        r is Ok <==> context_size_param_supported(opt_str(*size)),
        r matches Ok(s) ==> s == context_size_for_param(opt_str(*size)),
        r matches Err(e) ==> e is UnsupportedSearchContextSize && e->0@ == size->Some_0@,
{
    match size {
        Some(name) => {
            if same_text(name.as_str(), "medium") {
                Ok(Some(SearchContextSize::Medium))
            } else {
                Err(ToolError::UnsupportedSearchContextSize(name.clone()))
            }
        },
        None => Ok(None),
    }
}

impl CreateResearchParams {
    /// The query, model and options a `create_research` call starts a job with.
    /// A search context size other than "medium" is refused before any request
    /// is made. Responses are stored; no metadata is attached.
    pub fn into_request_args(self) -> (r: Result<(String, DeepResearchModel, CreateOptions), ToolError>)
        ensures
            r is Err <==> !context_size_param_supported(opt_str(self.search_context_size)),
            r matches Err(e) ==> e is UnsupportedSearchContextSize && e->0@
                == self.search_context_size->Some_0@,
            r matches Ok(a) ==> {
                &&& a.0@ == self.query@
                &&& a.1 == model_for_param(opt_str(self.model))
                &&& a.2.country == self.country
                &&& a.2.city == self.city
                &&& a.2.region == self.region
                &&& a.2.search_context_size == context_size_for_param(
                    opt_str(self.search_context_size),
                )
                &&& a.2.code_interpreter == (self.code_interpreter == Some(true))
                &&& a.2.instructions == self.instructions
                &&& a.2.store == Some(true)
                &&& a.2.metadata is None
            },
    {
        let search_context_size = match context_size_from_param(&self.search_context_size) {
            Ok(s) => s,
            Err(e) => {
                return Err(e);
            },
        };
        let model = model_from_param(&self.model);
        let code_interpreter = match self.code_interpreter {
            Some(b) => b,
            None => false,
        };
        let options = CreateOptions {
            country: self.country,
            city: self.city,
            region: self.region,
            search_context_size,
            code_interpreter,
            instructions: self.instructions,
            store: Some(true),
            metadata: None,
        };
        Ok((self.query, model, options))
    }
}

/// What `create_research` reports about a job it started.
#[derive(Debug)]
pub struct CreatedJob<'a> {
    pub response_id: &'a str,
    pub status: &'static str,
    pub model: &'a str,
    pub message: &'static str,
}

/// What `create_research` reports about the job it started.
pub fn created_job<'a>(response: &'a Response) -> (r: CreatedJob<'a>)
    ensures
        r.response_id@ == response.id@,
        r.status@ == response.status.name(),
        r.model@ == response.model@,
        r.message@ == "Research job created. Use check_status to monitor progress."@,
{
    CreatedJob {
        response_id: response.id.as_str(),
        status: response.status.as_str(),
        model: response.model.as_str(),
        message: "Research job created. Use check_status to monitor progress.",
    }
}

// ---------------------------------------------------------------------------
// check_status
// ---------------------------------------------------------------------------

/// What `check_status` reports about a job.
#[derive(Debug)]
pub struct StatusReport<'a> {
    pub response_id: &'a str,
    pub status: &'static str,
    pub research_steps: usize,
    /// Present when there is at least one reasoning summary.
    pub reasoning_summaries: Option<Vec<&'a str>>,
    pub error: Option<&'a ResponseError>,
    pub usage: Option<Usage>,
    pub is_terminal: bool,
    /// Present while the job is still running.
    pub hint: Option<&'static str>,
}

/// Reasoning summaries as reported: absent when there are none.
pub open spec fn reported_summaries(r: Option<Vec<&str>>, items: Seq<crate::api::types::OutputItem>) -> bool {
    &&& (r is Some <==> summaries_of(items).len() > 0)
    &&& (r matches Some(v) ==> v@.len() == summaries_of(items).len() && forall|k: int|
        0 <= k < v@.len() ==> v@[k]@ == summaries_of(items)[k])
}

/// The reasoning summaries of a response, absent when there are none.
fn present_summaries<'a>(response: &'a Response) -> (r: Option<Vec<&'a str>>)
    ensures
        reported_summaries(r, response.output@),
{
    let summaries = response.reasoning_summaries();
    if summaries.len() > 0 {
        Some(summaries)
    } else {
        None
    }
}

/// The error of a response, borrowed.
fn error_ref<'a>(response: &'a Response) -> (r: Option<&'a ResponseError>)
    ensures
        r is Some <==> response.error is Some,
        r matches Some(e) ==> *e == response.error->Some_0,
{
    match &response.error {
        Some(e) => Some(e),
        None => None,
    }
}

/// What `check_status` reports about a job: its status, how many research
/// steps it has taken, its reasoning summaries, error and usage when present,
/// and a hint to poll again while it runs.
pub fn status_report<'a>(response: &'a Response) -> (r: StatusReport<'a>)
    ensures
        r.response_id@ == response.id@,
        r.status@ == response.status.name(),
        r.research_steps == step_count(response.output@),
        reported_summaries(r.reasoning_summaries, response.output@),
        r.error is Some <==> response.error is Some,
        r.error matches Some(e) ==> *e == response.error->Some_0,
        r.usage == response.usage,
        r.is_terminal == response.status.terminal(),
        r.hint is Some <==> !response.status.terminal(),
        r.hint matches Some(h) ==> h@ == "Job still running. Poll again in 10-30 seconds."@,
{
    let is_terminal = response.is_terminal();
    StatusReport {
        response_id: response.id.as_str(),
        status: response.status.as_str(),
        research_steps: response.research_step_count(),
        reasoning_summaries: present_summaries(response),
        error: error_ref(response),
        usage: response.usage,
        is_terminal,
        hint: if is_terminal {
            None
        } else {
            Some("Job still running. Poll again in 10-30 seconds.")
        },
    }
}

// ---------------------------------------------------------------------------
// get_results
// ---------------------------------------------------------------------------

/// A cited source as `get_results` reports it.
#[derive(Debug)]
pub struct CitationLink<'a> {
    pub url: &'a str,
    pub title: Option<&'a str>,
}

/// The cited sources: the citations that carry a URL, with their titles.
pub open spec fn links_of(cits: Seq<Annotation>) -> Seq<(Seq<char>, Option<Seq<char>>)>
    decreases cits.len(),
{
    if cits.len() == 0 {
        Seq::empty()
    } else if cits.last().url is Some {
        links_of(cits.drop_last()).push(
            (cits.last().url->Some_0@, opt_str(cits.last().title)),
        )
    } else {
        links_of(cits.drop_last())
    }
}

/// The view of a borrowed optional text.
pub open spec fn opt_text(o: Option<&str>) -> Option<Seq<char>> {
    match o {
        Some(s) => Some(s@),
        None => None,
    }
}

/// The view of a list of cited sources.
pub open spec fn links_view(v: Seq<CitationLink>) -> Seq<(Seq<char>, Option<Seq<char>>)> {
    v.map_values(|l: CitationLink| (l.url@, opt_text(l.title)))
}

/// The research steps part of `get_results`.
#[derive(Debug)]
pub struct StepsReport<'a> {
    pub research_steps: usize,
    /// Present when there is at least one reasoning summary.
    pub reasoning_summaries: Option<Vec<&'a str>>,
}

/// What `get_results` reports about a job. When `steps` is present, the full
/// output array goes with it.
#[derive(Debug)]
pub struct ResultsReport<'a> {
    pub response_id: &'a str,
    pub status: &'static str,
    pub model: &'a str,
    pub report: Option<String>,
    /// Present when some citation carries a URL.
    pub citations: Option<Vec<CitationLink<'a>>>,
    /// Present when intermediate steps were asked for.
    pub steps: Option<StepsReport<'a>>,
    pub usage: Option<Usage>,
    pub error: Option<&'a ResponseError>,
    /// Present while the job is still running.
    pub warning: Option<&'static str>,
}

/// The cited sources of a response: its citations that carry a URL.
fn citation_links<'a>(response: &'a Response) -> (r: Vec<CitationLink<'a>>)
    ensures
        links_view(r@) == links_of(citations_of(response.output@)),
{
    let cits = response.citations();
    let ghost cs = citations_of(response.output@);
    let mut links: Vec<CitationLink<'a>> = Vec::new();
    let mut i: usize = 0;
    assert(cs.take(0) =~= Seq::<Annotation>::empty());
    while i < cits.len()
        invariant
            i <= cits@.len(),
            cits@.len() == cs.len(),
            forall|k: int| 0 <= k < cits@.len() ==> *cits@[k] == cs[k],
            links_view(links@) =~= links_of(cs.take(i as int)),
        decreases cits.len() - i,
    {
        let ghost pre = cs.take(i + 1);
        assert(pre.last() == cs[i as int]);
        assert(pre.drop_last() =~= cs.take(i as int));
        let ann: &'a Annotation = cits[i];
        if let Some(url) = &ann.url {
            let title: Option<&'a str> = match &ann.title {
                Some(t) => Some(t.as_str()),
                None => None,
            };
            links.push(CitationLink { url: url.as_str(), title });
        }
        i = i + 1;
    }
    assert(cs.take(i as int) =~= cs);
    links
}

/// What `get_results` reports about a job: its report, the cited sources,
/// the research steps and reasoning summaries when steps are asked for
/// (the default), usage and error when present, and a warning while it runs.
pub fn results_report<'a>(response: &'a Response, include_steps: Option<bool>) -> (r: ResultsReport<
    'a,
>)
    ensures
        r.response_id@ == response.id@,
        r.status@ == response.status.name(),
        r.model@ == response.model@,
        opt_str(r.report) == report_of(response.output@),
        r.citations is Some <==> links_of(citations_of(response.output@)).len() > 0,
        r.citations matches Some(c) ==> links_view(c@) == links_of(citations_of(response.output@)),
        r.steps is Some <==> include_steps != Some(false),
        r.steps matches Some(s) ==> s.research_steps == step_count(response.output@)
            && reported_summaries(s.reasoning_summaries, response.output@),
        r.usage == response.usage,
        r.error is Some <==> response.error is Some,
        r.error matches Some(e) ==> *e == response.error->Some_0,
        r.warning is Some <==> !response.status.terminal(),
        r.warning matches Some(w) ==> w@
            == "Research is still in progress. Results may be incomplete."@,
{
    let want_steps = match include_steps {
        Some(b) => b,
        None => true,
    };
    let links = citation_links(response);
    let citations = if links.len() > 0 {
        Some(links)
    } else {
        None
    };
    let steps = if want_steps {
        Some(
            StepsReport {
                research_steps: response.research_step_count(),
                reasoning_summaries: present_summaries(response),
            },
        )
    } else {
        None
    };
    ResultsReport {
        response_id: response.id.as_str(),
        status: response.status.as_str(),
        model: response.model.as_str(),
        report: response.final_report(),
        citations,
        steps,
        usage: response.usage,
        error: error_ref(response),
        warning: if response.is_terminal() {
            None
        } else {
            Some("Research is still in progress. Results may be incomplete.")
        },
    }
}


// ---------------------------------------------------------------------------
// Laws
// ---------------------------------------------------------------------------

/// A `create_research` call is refused locally exactly when its search
/// context size is given and is not "medium"; when it is accepted, the
/// request builder accepts the options it leads to, so no request is ever
/// sent with an unsupported size.
pub proof fn lemma_tool_size_check(o: CreateOptions, size: Option<Seq<char>>)
    requires
        o.search_context_size == context_size_for_param(size),
    ensures
        context_size_param_supported(size) ==> search_context_supported(o),
        !context_size_param_supported(size) ==> size is Some && size->Some_0 != "medium"@,
{
}

/// The cited sources are taken citation by citation: the sources of two
/// lists of citations put end to end are the sources of the first followed by
/// those of the second, and a single citation gives its own URL and title
/// when it has a URL, and nothing otherwise.
pub proof fn lemma_cited_sources(a: Seq<Annotation>, b: Seq<Annotation>, c: Annotation)
    ensures
        links_of(a + b) == links_of(a) + links_of(b),
        links_of(seq![c]) == (match c.url {
            Some(u) => seq![(u@, opt_str(c.title))],
            None => Seq::empty(),
        }),
    decreases b.len(),
{
    assert(seq![c].drop_last() =~= Seq::<Annotation>::empty());
    assert(seq![c].len() == 1 && seq![c].last() == c);
    assert(links_of(Seq::<Annotation>::empty()) =~= Seq::empty());
    assert(Seq::<(Seq<char>, Option<Seq<char>>)>::empty().push((c.url->Some_0@, opt_str(c.title)))
        =~= seq![(c.url->Some_0@, opt_str(c.title))]);
    if b.len() == 0 {
        assert(a + b =~= a);
        assert(links_of(a) + links_of(b) =~= links_of(a));
    } else {
        lemma_cited_sources(a, b.drop_last(), c);
        assert((a + b).drop_last() =~= a + b.drop_last());
        assert((a + b).last() == b.last());
        if b.last().url is Some {
            assert(links_of(a) + links_of(b.drop_last()).push(
                (b.last().url->Some_0@, opt_str(b.last().title)),
            ) =~= (links_of(a) + links_of(b.drop_last())).push(
                (b.last().url->Some_0@, opt_str(b.last().title)),
            ));
        }
    }
}

/// The model names a tool call can give map back to the model that
/// `as_str` names: "o4-mini" to o4-mini, and "o3" (or nothing) to o3.
pub proof fn lemma_model_param_names()
    ensures
        model_for_param(Some("o4-mini"@)) == DeepResearchModel::O4Mini,
        model_for_param(Some("o4_mini"@)) == DeepResearchModel::O4Mini,
        model_for_param(None) == DeepResearchModel::O3,
        model_for_param(Some("o3"@)) == DeepResearchModel::O3,
{
    reveal_strlit("o3");
    reveal_strlit("o4-mini");
    reveal_strlit("o4_mini");
    assert("o3"@.len() == 2);
    assert("o4-mini"@.len() == 7);
    assert("o4_mini"@.len() == 7);
}

} // verus!
