//! The command line of fathom.
//!
//! Subcommands:
//! - `research` — start a deep research job and optionally wait for results
//! - `status`   — check the status of an existing job
//! - `results`  — retrieve full results of a completed job
//! - `serve`    — run the MCP server (stdio or HTTP)
//!
//! Besides the command definitions, this module computes what each command
//! prints, as a list of lines for standard output or standard error.

use vstd::prelude::*;

use crate::api::client::CreateOptions;
use crate::api::types::{
    citations_of, report_of, step_count, summaries_of, Annotation, DeepResearchModel,
    Response, SearchContextSize, Usage,
};
use crate::text::{decimal, push_decimal, same_text};

verus! {

// ---------------------------------------------------------------------------
// Command definitions
// ---------------------------------------------------------------------------

/// Fathom — Deep Research from the command line.
#[derive(Debug)]
pub struct Cli {
    /// OpenAI API key. Can also be set via OPENAI_API_KEY env var.
    pub api_key: Option<String>,
    /// OpenAI API base URL (for proxies or testing).
    pub api_base: Option<String>,
    pub command: Command,
}

#[derive(Debug)]
pub enum Command {
    /// Start a new deep research job.
    Research {
        /// The research query or question.
        query: String,
        /// Model to use.
        model: ModelChoice,
        /// ISO country code for web search localization (e.g., "US", "GB").
        country: Option<String>,
        /// City for web search localization.
        city: Option<String>,
        /// Region/state for web search localization.
        region: Option<String>,
        /// Web search context depth. Deep Research currently supports only "medium".
        search_context_size: Option<ContextSize>,
        /// Enable code interpreter during research.
        code_interpreter: bool,
        /// Developer instructions for the model.
        instructions: Option<String>,
        /// Wait for the job to complete and print results.
        wait: bool,
    },
    /// Check the status of a research job.
    Status {
        /// Response ID (starts with "resp_").
        response_id: String,
    },
    /// Retrieve full results of a research job.
    Results {
        /// Response ID (starts with "resp_").
        response_id: String,
        /// Exclude intermediate steps (show only the final report).
        no_steps: bool,
    },
    /// Run as an MCP server.
    Serve {
        /// Transport mode.
        transport: TransportMode,
        /// Bind address for HTTP transport.
        bind: String,
        /// Bearer token for HTTP transport authentication.
        auth_token: Option<String>,
    },
}

/// Deep research model choices.
#[derive(Debug, Clone, Copy, PartialEq, Eq, Structural)]
pub enum ModelChoice {
    /// o3-deep-research (full power, slower)
    O3,
    /// o4-mini-deep-research (faster, cheaper)
    O4Mini,
}

/// Web search context size choices supported by Deep Research.
#[derive(Debug, Clone, Copy, PartialEq, Eq, Structural)]
pub enum ContextSize {
    Medium,
}

/// MCP server transport mode.
#[derive(Debug, Clone, Copy, PartialEq, Eq, Structural)]
pub enum TransportMode {
    /// JSON-RPC over stdin/stdout (for local agents).
    Stdio,
    /// Streamable HTTP (for remote access).
    Http,
}

impl ModelChoice {
    /// The API model a choice stands for.
    pub open spec fn spec_model(self) -> DeepResearchModel {
        match self {
            ModelChoice::O3 => DeepResearchModel::O3,
            ModelChoice::O4Mini => DeepResearchModel::O4Mini,
        }
    }

    /// The API model a choice stands for.
    pub fn model(&self) -> (m: DeepResearchModel)
        ensures
            m == self.spec_model(),
    {
        match self {
            ModelChoice::O3 => DeepResearchModel::O3,
            ModelChoice::O4Mini => DeepResearchModel::O4Mini,
        }
    }
}

impl ContextSize {
    /// The API search context size a choice stands for.
    pub fn size(&self) -> (s: SearchContextSize)
        ensures
            s == SearchContextSize::Medium,
    {
        SearchContextSize::Medium
    }
}

/// The API key to use: the `--api-key` flag, else the environment's `OPENAI_API_KEY`.
pub fn resolve_api_key(flag: Option<String>, env: Option<String>) -> (k: Option<String>)
    ensures
        k == (if flag is Some {
            flag
        } else {
            env
        }),
{
    match flag {
        Some(k) => Some(k),
        None => env,
    }
}

/// The options `research` starts a job with: the location and context size
/// given on the command line, responses stored, no metadata.
pub fn research_options(
    country: Option<String>,
    city: Option<String>,
    region: Option<String>,
    search_context_size: Option<ContextSize>,
    code_interpreter: bool,
    instructions: Option<String>,
) -> (o: CreateOptions)
    ensures
        o.country == country,
        o.city == city,
        o.region == region,
        o.search_context_size == (if search_context_size is Some {
            Some(SearchContextSize::Medium)
        } else {
            None
        }),
        o.code_interpreter == code_interpreter,
        o.instructions == instructions,
        o.store == Some(true),
        o.metadata is None,
{
    let size = match &search_context_size {
        Some(s) => Some(s.size()),
        None => None,
    };
    CreateOptions {
        country,
        city,
        region,
        search_context_size: size,
        code_interpreter,
        instructions,
        store: Some(true),
        metadata: None,
    }
}

/// Whether an `Authorization` header admits a request when the server
/// expects `token`: it must read exactly `Bearer <token>`.
pub fn bearer_matches(header: Option<&str>, token: &str) -> (b: bool)
    ensures
        b == (header matches Some(h) && h@ == "Bearer "@ + token@),
{
    match header {
        Some(h) => {
            let expected = crate::text::join2("Bearer ", token);
            same_text(h, expected.as_str())
        },
        None => false,
    }
}

// ---------------------------------------------------------------------------
// What the commands print
// ---------------------------------------------------------------------------

/// A line a command prints.
#[derive(Debug, Clone)]
pub enum ConsoleLine {
    /// A line for standard output.
    Stdout(String),
    /// A line for standard error.
    Stderr(String),
    /// The full output array of the response, as pretty JSON, on standard error.
    StderrOutputJson,
}

/// The mathematical value of a `ConsoleLine`.
pub enum ConsoleLineView {
    Stdout(Seq<char>),
    Stderr(Seq<char>),
    StderrOutputJson,
}

impl View for ConsoleLine {
    type V = ConsoleLineView;

    open spec fn view(&self) -> ConsoleLineView {
        match self {
            ConsoleLine::Stdout(s) => ConsoleLineView::Stdout(s@),
            ConsoleLine::Stderr(s) => ConsoleLineView::Stderr(s@),
            ConsoleLine::StderrOutputJson => ConsoleLineView::StderrOutputJson,
        }
    }
}

/// The view of a list of lines.
pub open spec fn lines_view(v: Seq<ConsoleLine>) -> Seq<ConsoleLineView> {
    v.map_values(|l: ConsoleLine| l@)
}

/// One line per citation that carries a URL: `  - <title>: <url>`, with
/// "(untitled)" for a missing title.
pub open spec fn citation_lines(cits: Seq<Annotation>) -> Seq<ConsoleLineView>
    decreases cits.len(),
{
    if cits.len() == 0 {
        Seq::empty()
    } else if cits.last().url is Some {
        let title = match cits.last().title {
            Some(t) => t@,
            None => "(untitled)"@,
        };
        citation_lines(cits.drop_last()).push(
            ConsoleLineView::Stderr("  - "@ + title + ": "@ + cits.last().url->Some_0@),
        )
    } else {
        citation_lines(cits.drop_last())
    }
}

/// The citations block: nothing when there are no citations, else a header
/// with their number and a line per citation with a URL.
pub open spec fn citations_block(cits: Seq<Annotation>) -> Seq<ConsoleLineView> {
    if cits.len() == 0 {
        Seq::empty()
    } else {
        seq![ConsoleLineView::Stderr("\n--- Citations ("@ + decimal(cits.len()) + ") ---"@)]
            + citation_lines(cits)
    }
}

/// One numbered line per reasoning summary: `  <n>. <text>`, counting from 1.
pub open spec fn summary_lines(s: Seq<Seq<char>>) -> Seq<ConsoleLineView>
    decreases s.len(),
{
    if s.len() == 0 {
        Seq::empty()
    } else {
        summary_lines(s.drop_last()).push(
            ConsoleLineView::Stderr("  "@ + decimal(s.len()) + ". "@ + s.last()),
        )
    }
}

/// The reasoning summaries block: nothing when there are none, else a header
/// and a numbered line per summary.
pub open spec fn summaries_block(s: Seq<Seq<char>>) -> Seq<ConsoleLineView> {
    if s.len() == 0 {
        Seq::empty()
    } else {
        seq![ConsoleLineView::Stderr("\nReasoning summaries:"@)] + summary_lines(s)
    }
}

/// The token usage line.
pub open spec fn usage_text(u: Usage) -> Seq<char> {
    "\nTokens: "@ + decimal(u.input_tokens as nat) + " input, "@ + decimal(u.output_tokens as nat)
        + " output, "@ + decimal(u.total_tokens as nat) + " total"@
}

/// The usage block: the usage line when usage is known.
pub open spec fn usage_block(u: Option<Usage>) -> Seq<ConsoleLineView> {
    match u {
        Some(u) => seq![ConsoleLineView::Stderr(usage_text(u))],
        None => Seq::empty(),
    }
}

/// The report on standard output, or a notice on standard error.
pub open spec fn report_block(items: Seq<crate::api::types::OutputItem>, missing: Seq<char>) -> Seq<
    ConsoleLineView,
> {
    match report_of(items) {
        Some(t) => seq![ConsoleLineView::Stdout(t)],
        None => seq![ConsoleLineView::Stderr(missing)],
    }
}

/// `research`, before the job is created.
pub open spec fn research_start_text(model: DeepResearchModel) -> Seq<char> {
    "Creating deep research job with model "@ + model.id() + "..."@
}

/// `research`, once the job is created.
pub open spec fn created_block(r: Response) -> Seq<ConsoleLineView> {
    seq![
        ConsoleLineView::Stderr("Job created: "@ + r.id@),
        ConsoleLineView::Stderr("Status: "@ + r.status.name()),
    ]
}

/// `research` without `--wait`: the ID on standard output and how to poll it.
pub open spec fn submitted_block(r: Response) -> Seq<ConsoleLineView> {
    seq![
        ConsoleLineView::Stdout(r.id@),
        ConsoleLineView::Stderr("Use `fathom status "@ + r.id@ + "` to check progress."@),
    ]
}

/// `research --wait`, once the job is terminal.
pub open spec fn finished_block(r: Response) -> Seq<ConsoleLineView> {
    seq![
        ConsoleLineView::Stderr("Status: "@ + r.status.name()),
        ConsoleLineView::Stderr("Research steps: "@ + decimal(step_count(r.output@))),
    ] + report_block(r.output@, "No report available."@) + citations_block(
        citations_of(r.output@),
    ) + usage_block(r.usage)
}

/// What `status` prints.
pub open spec fn status_block(r: Response, response_id: Seq<char>) -> Seq<ConsoleLineView> {
    seq![
        ConsoleLineView::Stderr("Response: "@ + r.id@),
        ConsoleLineView::Stderr("Status: "@ + r.status.name()),
        ConsoleLineView::Stderr("Research steps: "@ + decimal(step_count(r.output@))),
    ] + summaries_block(summaries_of(r.output@)) + match r.error {
        Some(e) => seq![
            ConsoleLineView::Stderr("\nError: "@ + e.code@ + " — "@ + e.message@),
        ],
        None => Seq::empty(),
    } + if r.status.terminal() {
        seq![
            ConsoleLineView::Stderr(
                "\nJob complete. Use `fathom results "@ + response_id + "` to get the report."@,
            ),
        ]
    } else {
        seq![ConsoleLineView::Stderr("\nJob still running. Check again in 10-30 seconds."@)]
    }
}

/// What `results` prints.
pub open spec fn results_block(r: Response, no_steps: bool) -> Seq<ConsoleLineView> {
    (if r.status.terminal() {
        Seq::empty()
    } else {
        seq![
            ConsoleLineView::Stderr(
                "Warning: job is still "@ + r.status.name() + " — results may be incomplete."@,
            ),
        ]
    }) + report_block(r.output@, "No report available yet."@) + citations_block(
        citations_of(r.output@),
    ) + (if no_steps {
        Seq::empty()
    } else {
        seq![ConsoleLineView::Stderr("\nResearch steps: "@ + decimal(step_count(r.output@)))]
            + summaries_block(summaries_of(r.output@)) + seq![
            ConsoleLineView::Stderr("\n--- Full output (JSON) ---"@),
            ConsoleLineView::StderrOutputJson,
        ]
    }) + usage_block(r.usage)
}

/// Append one line.
fn push_line(lines: &mut Vec<ConsoleLine>, line: ConsoleLine)
    ensures
        lines_view(final(lines)@) == lines_view(old(lines)@).push(line@),
{
    lines.push(line);
    assert(lines_view(lines@) =~= lines_view(old(lines)@).push(line@));
}

/// Append a line of standard error that reads `prefix` followed by `rest`.
fn push_stderr2(lines: &mut Vec<ConsoleLine>, prefix: &str, rest: &str)
    ensures
        lines_view(final(lines)@) == lines_view(old(lines)@).push(
            ConsoleLineView::Stderr(prefix@ + rest@),
        ),
{
    push_line(lines, ConsoleLine::Stderr(crate::text::join2(prefix, rest)));
}

/// Append a line of standard error that reads `prefix`, then `n` in decimal.
fn push_stderr_count(lines: &mut Vec<ConsoleLine>, prefix: &str, n: usize)
    ensures
        lines_view(final(lines)@) == lines_view(old(lines)@).push(
            ConsoleLineView::Stderr(prefix@ + decimal(n as nat)),
        ),
{
    let mut s = String::from_str(prefix);
    push_decimal(&mut s, n as u64);
    push_line(lines, ConsoleLine::Stderr(s));
}

/// Append the citations block.
fn push_citations(lines: &mut Vec<ConsoleLine>, cits: &Vec<&Annotation>, Ghost(cs): Ghost<
    Seq<Annotation>,
>)
    requires
        cits@.len() == cs.len(),
        forall|k: int| 0 <= k < cits@.len() ==> *cits@[k] == cs[k],
    ensures
        lines_view(final(lines)@) == lines_view(old(lines)@) + citations_block(cs),
{
    if cits.len() == 0 {
        assert(lines_view(lines@) =~= lines_view(old(lines)@) + citations_block(cs));
        return;
    }
    let mut header = String::from_str("\n--- Citations (");
    push_decimal(&mut header, cits.len() as u64);
    header.append(") ---");
    push_line(lines, ConsoleLine::Stderr(header));
    let ghost base = lines_view(lines@);
    let mut i: usize = 0;
    assert(cs.take(0) =~= Seq::<Annotation>::empty());
    assert(lines_view(lines@) =~= base + citation_lines(cs.take(0)));
    while i < cits.len()
        invariant
            i <= cits@.len(),
            cits@.len() == cs.len(),
            forall|k: int| 0 <= k < cits@.len() ==> *cits@[k] == cs[k],
            lines_view(lines@) == base + citation_lines(cs.take(i as int)),
        decreases cits.len() - i,
    {
        let ghost pre = cs.take(i + 1);
        assert(pre.last() == cs[i as int]);
        assert(pre.drop_last() =~= cs.take(i as int));
        let ann = cits[i];
        if let Some(url) = &ann.url {
            let mut s = String::from_str("  - ");
            match &ann.title {
                Some(t) => s.append(t.as_str()),
                None => s.append("(untitled)"),
            }
            s.append(": ");
            s.append(url.as_str());
            push_line(lines, ConsoleLine::Stderr(s));
            assert(lines_view(lines@) =~= base + citation_lines(cs.take(i + 1)));
        }
        i = i + 1;
    }
    assert(cs.take(i as int) =~= cs);
    assert(lines_view(lines@) =~= lines_view(old(lines)@) + citations_block(cs));
}

/// Append the reasoning summaries block.
fn push_summaries(lines: &mut Vec<ConsoleLine>, summaries: &Vec<&str>, Ghost(ss): Ghost<
    Seq<Seq<char>>,
>)
    requires
        summaries@.len() == ss.len(),
        forall|k: int| 0 <= k < summaries@.len() ==> summaries@[k]@ == ss[k],
    ensures
        lines_view(final(lines)@) == lines_view(old(lines)@) + summaries_block(ss),
{
    if summaries.len() == 0 {
        assert(lines_view(lines@) =~= lines_view(old(lines)@) + summaries_block(ss));
        return;
    }
    push_line(lines, ConsoleLine::Stderr(String::from_str("\nReasoning summaries:")));
    let ghost base = lines_view(lines@);
    let mut i: usize = 0;
    assert(ss.take(0) =~= Seq::<Seq<char>>::empty());
    assert(lines_view(lines@) =~= base + summary_lines(ss.take(0)));
    while i < summaries.len()
        invariant
            i <= summaries@.len(),
            summaries@.len() == ss.len(),
            forall|k: int| 0 <= k < summaries@.len() ==> summaries@[k]@ == ss[k],
            lines_view(lines@) == base + summary_lines(ss.take(i as int)),
        decreases summaries.len() - i,
    {
        let ghost pre = ss.take(i + 1);
        assert(pre.last() == ss[i as int]);
        assert(pre.drop_last() =~= ss.take(i as int));
        let mut s = String::from_str("  ");
        push_decimal(&mut s, (i + 1) as u64);
        s.append(". ");
        s.append(summaries[i]);
        push_line(lines, ConsoleLine::Stderr(s));
        assert(lines_view(lines@) =~= base + summary_lines(ss.take(i + 1)));
        i = i + 1;
    }
    assert(ss.take(i as int) =~= ss);
    assert(lines_view(lines@) =~= lines_view(old(lines)@) + summaries_block(ss));
}

/// Append the usage block.
fn push_usage(lines: &mut Vec<ConsoleLine>, usage: Option<Usage>)
    ensures
        lines_view(final(lines)@) == lines_view(old(lines)@) + usage_block(usage),
{
    match usage {
        Some(u) => {
            let mut s = String::from_str("\nTokens: ");
            push_decimal(&mut s, u.input_tokens);
            s.append(" input, ");
            push_decimal(&mut s, u.output_tokens);
            s.append(" output, ");
            push_decimal(&mut s, u.total_tokens);
            s.append(" total");
            push_line(lines, ConsoleLine::Stderr(s));
        },
        None => {},
    }
    assert(lines_view(lines@) =~= lines_view(old(lines)@) + usage_block(usage));
}

/// Append the report block.
fn push_report(lines: &mut Vec<ConsoleLine>, response: &Response, missing: &str)
    ensures
        lines_view(final(lines)@) == lines_view(old(lines)@) + report_block(
            response.output@,
            missing@,
        ),
{
    match response.final_report() {
        Some(t) => push_line(lines, ConsoleLine::Stdout(t)),
        None => push_line(lines, ConsoleLine::Stderr(String::from_str(missing))),
    }
    assert(lines_view(lines@) =~= lines_view(old(lines)@) + report_block(
        response.output@,
        missing@,
    ));
}

/// What `research` prints before the job is created.
pub fn research_start_line(model: DeepResearchModel) -> (s: String)
    ensures
        s@ == research_start_text(model),
{
    crate::text::join3("Creating deep research job with model ", model.as_str(), "...")
}

/// What `research --wait` prints before it starts polling.
pub open spec fn waiting_text() -> Seq<char> {
    "Waiting for completion (this typically takes 5-30 minutes)..."@
}

/// What `research --wait` prints, on standard error, before it starts polling.
pub fn waiting_line() -> (s: String)
    ensures
        s@ == waiting_text(),
{
    String::from_str("Waiting for completion (this typically takes 5-30 minutes)...")
}

/// What `research` prints once the job is created.
pub fn created_lines(response: &Response) -> (v: Vec<ConsoleLine>)
    ensures
        lines_view(v@) == created_block(*response),
{
    let mut v: Vec<ConsoleLine> = Vec::new();
    push_stderr2(&mut v, "Job created: ", response.id.as_str());
    push_stderr2(&mut v, "Status: ", response.status.as_str());
    assert(lines_view(v@) =~= created_block(*response));
    v
}

/// What `research` without `--wait` prints after creating the job.
pub fn submitted_lines(response: &Response) -> (v: Vec<ConsoleLine>)
    ensures
        lines_view(v@) == submitted_block(*response),
{
    let mut v: Vec<ConsoleLine> = Vec::new();
    push_line(&mut v, ConsoleLine::Stdout(String::from_str(response.id.as_str())));
    push_line(
        &mut v,
        ConsoleLine::Stderr(
            crate::text::join3("Use `fathom status ", response.id.as_str(), "` to check progress."),
        ),
    );
    assert(lines_view(v@) =~= submitted_block(*response));
    v
}

/// What `research --wait` prints once the job is terminal.
pub fn finished_lines(response: &Response) -> (v: Vec<ConsoleLine>)
    ensures
        lines_view(v@) == finished_block(*response),
{
    let mut v: Vec<ConsoleLine> = Vec::new();
    push_stderr2(&mut v, "Status: ", response.status.as_str());
    push_stderr_count(&mut v, "Research steps: ", response.research_step_count());
    push_report(&mut v, response, "No report available.");
    let cits = response.citations();
    push_citations(&mut v, &cits, Ghost(citations_of(response.output@)));
    push_usage(&mut v, response.usage);
    assert(lines_view(v@) =~= finished_block(*response));
    v
}

/// What `status` prints.
pub fn status_lines(response: &Response, response_id: &str) -> (v: Vec<ConsoleLine>)
    ensures
        lines_view(v@) == status_block(*response, response_id@),
{
    let mut v: Vec<ConsoleLine> = Vec::new();
    push_stderr2(&mut v, "Response: ", response.id.as_str());
    push_stderr2(&mut v, "Status: ", response.status.as_str());
    push_stderr_count(&mut v, "Research steps: ", response.research_step_count());
    let summaries = response.reasoning_summaries();
    push_summaries(&mut v, &summaries, Ghost(summaries_of(response.output@)));
    if let Some(e) = &response.error {
        let mut s = String::from_str("\nError: ");
        s.append(e.code.as_str());
        s.append(" — ");
        s.append(e.message.as_str());
        push_line(&mut v, ConsoleLine::Stderr(s));
    }
    if response.is_terminal() {
        push_line(
            &mut v,
            ConsoleLine::Stderr(
                crate::text::join3(
                    "\nJob complete. Use `fathom results ",
                    response_id,
                    "` to get the report.",
                ),
            ),
        );
    } else {
        push_line(
            &mut v,
            ConsoleLine::Stderr(
                String::from_str("\nJob still running. Check again in 10-30 seconds."),
            ),
        );
    }
    assert(lines_view(v@) =~= status_block(*response, response_id@));
    v
}

/// What `results` prints.
pub fn results_lines(response: &Response, no_steps: bool) -> (v: Vec<ConsoleLine>)
    ensures
        lines_view(v@) == results_block(*response, no_steps),
{
    let mut v: Vec<ConsoleLine> = Vec::new();
    if !response.is_terminal() {
        push_line(
            &mut v,
            ConsoleLine::Stderr(
                crate::text::join3(
                    "Warning: job is still ",
                    response.status.as_str(),
                    " — results may be incomplete.",
                ),
            ),
        );
    }
    push_report(&mut v, response, "No report available yet.");
    let cits = response.citations();
    push_citations(&mut v, &cits, Ghost(citations_of(response.output@)));
    if !no_steps {
        push_stderr_count(&mut v, "\nResearch steps: ", response.research_step_count());
        let summaries = response.reasoning_summaries();
        push_summaries(&mut v, &summaries, Ghost(summaries_of(response.output@)));
        push_line(&mut v, ConsoleLine::Stderr(String::from_str("\n--- Full output (JSON) ---")));
        push_line(&mut v, ConsoleLine::StderrOutputJson);
    }
    push_usage(&mut v, response.usage);
    assert(lines_view(v@) =~= results_block(*response, no_steps));
    v
}


// ---------------------------------------------------------------------------
// Laws
// ---------------------------------------------------------------------------

/// The texts of the lines that go to standard output, in order.
pub open spec fn stdout_texts(lines: Seq<ConsoleLineView>) -> Seq<Seq<char>>
    decreases lines.len(),
{
    if lines.len() == 0 {
        Seq::empty()
    } else {
        match lines.last() {
            ConsoleLineView::Stdout(t) => stdout_texts(lines.drop_last()).push(t),
            _ => stdout_texts(lines.drop_last()),
        }
    }
}

/// Standard output of lines put end to end is that of each, in order.
proof fn lemma_stdout_concat(a: Seq<ConsoleLineView>, b: Seq<ConsoleLineView>)
    ensures
        stdout_texts(a + b) == stdout_texts(a) + stdout_texts(b),
    decreases b.len(),
{
    if b.len() == 0 {
        assert(a + b =~= a);
        assert(stdout_texts(a) + stdout_texts(b) =~= stdout_texts(a));
    } else {
        lemma_stdout_concat(a, b.drop_last());
        assert((a + b).drop_last() =~= a + b.drop_last());
        assert((a + b).last() == b.last());
        match b.last() {
            ConsoleLineView::Stdout(t) => {
                assert(stdout_texts(a) + stdout_texts(b.drop_last()).push(t) =~= (stdout_texts(a)
                    + stdout_texts(b.drop_last())).push(t));
            },
            _ => {},
        }
    }
}

/// Lines that all go to standard error put nothing on standard output.
proof fn lemma_stdout_none(lines: Seq<ConsoleLineView>)
    requires
        forall|i: int| 0 <= i < lines.len() ==> !(#[trigger] lines[i] is Stdout),
    ensures
        stdout_texts(lines) == Seq::<Seq<char>>::empty(),
    decreases lines.len(),
{
    if lines.len() > 0 {
        assert(!(lines[lines.len() - 1] is Stdout));
        lemma_stdout_none(lines.drop_last());
    }
}

/// Citation lines all go to standard error.
proof fn lemma_citation_lines_stderr(cits: Seq<Annotation>)
    ensures
        forall|i: int| 0 <= i < citation_lines(cits).len() ==> !(#[trigger] citation_lines(cits)[i] is Stdout),
    decreases cits.len(),
{
    if cits.len() > 0 {
        lemma_citation_lines_stderr(cits.drop_last());
    }
}

/// Summary lines all go to standard error.
proof fn lemma_summary_lines_stderr(s: Seq<Seq<char>>)
    ensures
        forall|i: int| 0 <= i < summary_lines(s).len() ==> !(#[trigger] summary_lines(s)[i] is Stdout),
    decreases s.len(),
{
    if s.len() > 0 {
        lemma_summary_lines_stderr(s.drop_last());
    }
}

/// The citations and summaries blocks put nothing on standard output.
proof fn lemma_blocks_stderr(cits: Seq<Annotation>, s: Seq<Seq<char>>)
    ensures
        stdout_texts(citations_block(cits)) == Seq::<Seq<char>>::empty(),
        stdout_texts(summaries_block(s)) == Seq::<Seq<char>>::empty(),
{
    lemma_citation_lines_stderr(cits);
    lemma_summary_lines_stderr(s);
    let c = citations_block(cits);
    let m = summaries_block(s);
    if cits.len() > 0 {
        assert forall|i: int| 0 <= i < c.len() implies !(#[trigger] c[i] is Stdout) by {
            if i > 0 {
                assert(c[i] == citation_lines(cits)[i - 1]);
            }
        }
    }
    if s.len() > 0 {
        assert forall|i: int| 0 <= i < m.len() implies !(#[trigger] m[i] is Stdout) by {
            if i > 0 {
                assert(m[i] == summary_lines(s)[i - 1]);
            }
        }
    }
    lemma_stdout_none(c);
    lemma_stdout_none(m);
}

/// What goes to standard output: `results` and `research --wait` print the
/// report there, as their only standard-output line, when the response has
/// one, and nothing otherwise; `status` prints nothing there.
pub proof fn lemma_report_on_stdout(r: Response, no_steps: bool, response_id: Seq<char>)
    ensures
        stdout_texts(results_block(r, no_steps)) == (match report_of(r.output@) {
            Some(t) => seq![t],
            None => Seq::<Seq<char>>::empty(),
        }),
        stdout_texts(finished_block(r)) == (match report_of(r.output@) {
            Some(t) => seq![t],
            None => Seq::<Seq<char>>::empty(),
        }),
        stdout_texts(status_block(r, response_id)) == Seq::<Seq<char>>::empty(),
{
    let cits = citations_of(r.output@);
    let sums = summaries_of(r.output@);
    lemma_blocks_stderr(cits, sums);
    let expected = match report_of(r.output@) {
        Some(t) => seq![t],
        None => Seq::<Seq<char>>::empty(),
    };
    let rep = report_block(r.output@, "No report available yet."@);
    assert(stdout_texts(rep) == expected) by {
        assert(rep.len() == 1);
        assert(rep.drop_last() =~= Seq::<ConsoleLineView>::empty());
        assert(stdout_texts(Seq::<ConsoleLineView>::empty()) =~= Seq::<Seq<char>>::empty());
        match report_of(r.output@) {
            Some(t) => {
                assert(rep.last() == ConsoleLineView::Stdout(t));
                assert(Seq::<Seq<char>>::empty().push(t) =~= seq![t]);
            },
            None => {
                assert(rep.last() == ConsoleLineView::Stderr("No report available yet."@));
            },
        }
    }
    let rep2 = report_block(r.output@, "No report available."@);
    assert(stdout_texts(rep2) == expected) by {
        assert(rep2.len() == 1);
        assert(rep2.drop_last() =~= Seq::<ConsoleLineView>::empty());
        assert(stdout_texts(Seq::<ConsoleLineView>::empty()) =~= Seq::<Seq<char>>::empty());
        match report_of(r.output@) {
            Some(t) => {
                assert(rep2.last() == ConsoleLineView::Stdout(t));
                assert(Seq::<Seq<char>>::empty().push(t) =~= seq![t]);
            },
            None => {
                assert(rep2.last() == ConsoleLineView::Stderr("No report available."@));
            },
        }
    }
    // `results`
    let warn: Seq<ConsoleLineView> = if r.status.terminal() {
        Seq::empty()
    } else {
        seq![
            ConsoleLineView::Stderr(
                "Warning: job is still "@ + r.status.name() + " — results may be incomplete."@,
            ),
        ]
    };
    let steps: Seq<ConsoleLineView> = if no_steps {
        Seq::empty()
    } else {
        seq![ConsoleLineView::Stderr("\nResearch steps: "@ + decimal(step_count(r.output@)))]
            + summaries_block(sums) + seq![
            ConsoleLineView::Stderr("\n--- Full output (JSON) ---"@),
            ConsoleLineView::StderrOutputJson,
        ]
    };
    let usage = usage_block(r.usage);
    let e = Seq::<Seq<char>>::empty();
    lemma_stdout_none(warn);
    lemma_stdout_none(usage);
    if !no_steps {
        let head = seq![ConsoleLineView::Stderr("\nResearch steps: "@ + decimal(step_count(r.output@)))];
        let tail = seq![
            ConsoleLineView::Stderr("\n--- Full output (JSON) ---"@),
            ConsoleLineView::StderrOutputJson,
        ];
        lemma_stdout_none(head);
        lemma_stdout_none(tail);
        lemma_stdout_concat(head, summaries_block(sums));
        lemma_stdout_concat(head + summaries_block(sums), tail);
        assert(e + e =~= e);
        assert(steps == head + summaries_block(sums) + tail);
    } else {
        lemma_stdout_none(steps);
    }
    lemma_stdout_concat(warn, rep);
    lemma_stdout_concat(warn + rep, citations_block(cits));
    lemma_stdout_concat(warn + rep + citations_block(cits), steps);
    lemma_stdout_concat(warn + rep + citations_block(cits) + steps, usage);
    assert(e + expected =~= expected);
    assert(expected + e =~= expected);
    assert(results_block(r, no_steps) == warn + rep + citations_block(cits) + steps + usage);
    // `research --wait`
    let top = seq![
        ConsoleLineView::Stderr("Status: "@ + r.status.name()),
        ConsoleLineView::Stderr("Research steps: "@ + decimal(step_count(r.output@))),
    ];
    lemma_stdout_none(top);
    lemma_stdout_concat(top, rep2);
    lemma_stdout_concat(top + rep2, citations_block(cits));
    lemma_stdout_concat(top + rep2 + citations_block(cits), usage);
    assert(finished_block(r) == top + rep2 + citations_block(cits) + usage);
    // `status`
    let st = status_block(r, response_id);
    let top3 = seq![
        ConsoleLineView::Stderr("Response: "@ + r.id@),
        ConsoleLineView::Stderr("Status: "@ + r.status.name()),
        ConsoleLineView::Stderr("Research steps: "@ + decimal(step_count(r.output@))),
    ];
    let err: Seq<ConsoleLineView> = match r.error {
        Some(er) => seq![
            ConsoleLineView::Stderr("\nError: "@ + er.code@ + " — "@ + er.message@),
        ],
        None => Seq::empty(),
    };
    let close: Seq<ConsoleLineView> = if r.status.terminal() {
        seq![
            ConsoleLineView::Stderr(
                "\nJob complete. Use `fathom results "@ + response_id + "` to get the report."@,
            ),
        ]
    } else {
        seq![ConsoleLineView::Stderr("\nJob still running. Check again in 10-30 seconds."@)]
    };
    lemma_stdout_none(top3);
    lemma_stdout_none(err);
    lemma_stdout_none(close);
    lemma_stdout_concat(top3, summaries_block(sums));
    lemma_stdout_concat(top3 + summaries_block(sums), err);
    lemma_stdout_concat(top3 + summaries_block(sums) + err, close);
    assert(st == top3 + summaries_block(sums) + err + close);
}

/// `status` closes with "Job complete" exactly when the job has ended
/// (completed, failed or incomplete), and with "Job still running" while it
/// is queued or in progress.
pub proof fn lemma_status_closing_line(r: Response, response_id: Seq<char>)
    ensures
        status_block(r, response_id).last() == (if r.status is Completed || r.status is Failed
            || r.status is Incomplete {
            ConsoleLineView::Stderr(
                "\nJob complete. Use `fathom results "@ + response_id + "` to get the report."@,
            )
        } else {
            ConsoleLineView::Stderr("\nJob still running. Check again in 10-30 seconds."@)
        }),
{
}

/// A `research` command is never refused for its search context size: the
/// options `research_options` builds are accepted whatever the choice.
pub proof fn lemma_cli_options_accepted(o: CreateOptions, choice: Option<ContextSize>)
    requires
        o.search_context_size == (if choice is Some {
            Some(SearchContextSize::Medium)
        } else {
            None
        }),
    ensures
        crate::api::client::search_context_supported(o),
{
}

} // verus!
