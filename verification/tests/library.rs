use fathom::api::client::{
    build_create_request, is_success_status, ClientError, CreateOptions, DeepResearchClient,
    PollAction, PollSchedule,
};
use fathom::api::types::{
    Annotation, ContentItem, DeepResearchModel, OutputItem, ReasoningConfig, Response,
    ResponseError, ResponseStatus, SearchContextSize, SummaryItem, Usage, UserLocation,
};
use fathom::cli::{
    bearer_matches, created_lines, finished_lines, research_options, research_start_line,
    resolve_api_key, results_lines, status_lines, submitted_lines, waiting_line, ConsoleLine,
    ContextSize, ModelChoice,
};
use fathom::text::{decimal_string, join2, join3, same_text, trim_end_char};

fn out(s: &str) -> ConsoleLine {
    ConsoleLine::Stdout(s.to_string())
}

fn err(s: &str) -> ConsoleLine {
    ConsoleLine::Stderr(s.to_string())
}

fn texts(lines: &[ConsoleLine]) -> Vec<String> {
    lines
        .iter()
        .map(|l| match l {
            ConsoleLine::Stdout(s) => format!("out:{s}"),
            ConsoleLine::Stderr(s) => format!("err:{s}"),
            ConsoleLine::StderrOutputJson => "err:<output json>".to_string(),
        })
        .collect()
}

fn citation(url: Option<&str>, title: Option<&str>, kind: &str) -> Annotation {
    Annotation {
        annotation_type: kind.to_string(),
        url: url.map(|s| s.to_string()),
        title: title.map(|s| s.to_string()),
        start_index: None,
        end_index: None,
    }
}

fn message(texts: &[(&str, Vec<Annotation>)]) -> OutputItem {
    OutputItem::Message {
        id: "msg".to_string(),
        role: "assistant".to_string(),
        status: None,
        content: texts
            .iter()
            .map(|(t, a)| ContentItem::OutputText { text: t.to_string(), annotations: a.clone() })
            .collect(),
    }
}

fn reasoning(texts: &[&str]) -> OutputItem {
    OutputItem::Reasoning {
        id: "rs".to_string(),
        summary: texts
            .iter()
            .map(|t| SummaryItem { summary_type: "summary_text".to_string(), text: t.to_string() })
            .collect(),
    }
}

fn response(status: ResponseStatus, output: Vec<OutputItem>) -> Response {
    Response {
        id: "resp_1".to_string(),
        object: "response".to_string(),
        status,
        output,
        error: None,
        usage: None,
        model: "o3-deep-research-2025-06-26".to_string(),
        created_at_bits: 0,
        metadata: None,
    }
}

#[test]
fn decimal_rendering() {
    assert_eq!(decimal_string(0), "0");
    assert_eq!(decimal_string(7), "7");
    assert_eq!(decimal_string(120), "120");
    assert_eq!(decimal_string(1700000000), "1700000000");
    assert_eq!(decimal_string(u64::MAX), u64::MAX.to_string());
}

#[test]
fn text_helpers() {
    assert_eq!(trim_end_char("http://x/v1///", '/'), "http://x/v1");
    assert_eq!(trim_end_char("///", '/'), "");
    assert_eq!(trim_end_char("", '/'), "");
    assert_eq!(trim_end_char("héllo/", '/'), "héllo");
    assert_eq!(trim_end_char(&trim_end_char("a//", '/'), '/'), "a");
    assert!(same_text("medium", "medium"));
    assert!(!same_text("medium", "Medium"));
    assert_eq!(join2("ab", "cd"), "abcd");
    assert_eq!(join3("a", "", "c"), "ac");
}

#[test]
fn model_and_status_names() {
    assert_eq!(DeepResearchModel::O3.as_str(), "o3-deep-research-2025-06-26");
    assert_eq!(DeepResearchModel::O4Mini.to_string(), "o4-mini-deep-research-2025-06-26");
    assert_eq!(DeepResearchModel::default(), DeepResearchModel::O3);
    assert_eq!(SearchContextSize::Low.as_str(), "low");
    assert_eq!(SearchContextSize::Medium.as_str(), "medium");
    assert_eq!(SearchContextSize::High.as_str(), "high");
    let names: Vec<&str> = [
        ResponseStatus::Queued,
        ResponseStatus::InProgress,
        ResponseStatus::Completed,
        ResponseStatus::Failed,
        ResponseStatus::Incomplete,
    ]
    .iter()
    .map(|s| s.as_str())
    .collect();
    assert_eq!(names, vec!["queued", "in_progress", "completed", "failed", "incomplete"]);
    assert_eq!(ResponseStatus::InProgress.to_string(), "in_progress");
    assert_eq!(ReasoningConfig::default().summary, "auto");
}

#[test]
fn user_location_builders() {
    let loc = UserLocation::new();
    assert_eq!(loc.location_type, "approximate");
    assert!(!loc.has_any());
    let loc = loc.with_city("Paris");
    assert!(loc.has_any());
    assert_eq!(loc.city.as_deref(), Some("Paris"));
    assert!(loc.country.is_none() && loc.region.is_none());
    let loc = loc.with_country("FR").with_region("IDF");
    assert_eq!(loc.country.as_deref(), Some("FR"));
    assert_eq!(loc.region.as_deref(), Some("IDF"));
    assert_eq!(UserLocation::default().location_type, "approximate");
}

#[test]
fn search_context_sizes() {
    for (size, ok) in [
        (None, true),
        (Some(SearchContextSize::Medium), true),
        (Some(SearchContextSize::Low), false),
        (Some(SearchContextSize::High), false),
    ] {
        let opts = CreateOptions { search_context_size: size, ..Default::default() };
        assert_eq!(build_create_request("q", DeepResearchModel::O4Mini, opts).is_ok(), ok);
    }
    let err = build_create_request(
        "q",
        DeepResearchModel::O3,
        CreateOptions { search_context_size: Some(SearchContextSize::High), ..Default::default() },
    )
    .unwrap_err();
    assert_eq!(
        err.message(),
        "Deep research only supports search_context_size 'medium'; omit the option or use 'medium'"
    );
}

#[test]
fn location_only_when_some_field_set() {
    let body = build_create_request(
        "q",
        DeepResearchModel::O3,
        CreateOptions { region: Some("Bavaria".to_string()), ..Default::default() },
    )
    .unwrap();
    match &body.tools[0] {
        fathom::api::types::Tool::WebSearchPreview { user_location: Some(loc), .. } => {
            assert_eq!(loc.region.as_deref(), Some("Bavaria"));
            assert!(loc.country.is_none() && loc.city.is_none());
        }
        _ => panic!("expected a located web search"),
    }
    let body = build_create_request("q", DeepResearchModel::O3, CreateOptions::default()).unwrap();
    assert!(matches!(
        &body.tools[0],
        fathom::api::types::Tool::WebSearchPreview { user_location: None, search_context_size: None }
    ));
}

#[test]
fn metadata_and_store_pass_through() {
    let mut meta = std::collections::HashMap::new();
    meta.insert("k".to_string(), "v".to_string());
    let body = build_create_request(
        "q",
        DeepResearchModel::O3,
        CreateOptions { store: Some(false), metadata: Some(meta.clone()), ..Default::default() },
    )
    .unwrap();
    assert_eq!(body.store, Some(false));
    assert_eq!(body.metadata, Some(meta));
}

#[test]
fn invalid_api_key_is_rejected() {
    let r = DeepResearchClient::new("bad\nkey");
    assert!(matches!(r, Err(ClientError::InvalidApiKey(_))));
    assert_eq!(r.unwrap_err().message(), "invalid API key characters");
    let r = DeepResearchClient::with_base_url("tab\tis fine", "http://localhost:1");
    assert!(r.is_ok());
    let r = DeepResearchClient::with_base_url("del\u{7f}", "http://localhost:1");
    assert!(matches!(r, Err(ClientError::InvalidApiKey(_))));
    let r = DeepResearchClient::with_base_url("ключ", "http://localhost:1");
    assert!(r.is_ok());
}

#[test]
fn client_sends_bearer_and_json_headers() {
    let c = DeepResearchClient::new("test-key").expect("a valid key");
    assert_eq!(c.authorization_header(), "Bearer test-key");
    assert_eq!(c.content_type_header(), "application/json");
    let c = DeepResearchClient::with_base_url("sk-ключ", "http://localhost:1/").expect("a valid key");
    assert_eq!(c.authorization_header(), "Bearer sk-ключ");
    assert_eq!(c.content_type_header(), "application/json");
    let copy = c.clone();
    assert_eq!(copy.authorization_header(), "Bearer sk-ключ");
    assert_eq!(copy.base_url(), "http://localhost:1");
}

#[test]
fn api_error_messages() {
    assert!(is_success_status(200));
    assert!(is_success_status(299));
    assert!(!is_success_status(199));
    assert!(!is_success_status(300));
    let e = ClientError::Api { status: 404, body: "gone".to_string() };
    assert_eq!(e.message(), "OpenAI API error (HTTP 404 Not Found): gone");
    let e = ClientError::Api { status: 599, body: String::new() };
    assert_eq!(e.message(), "OpenAI API error (HTTP 599 <unknown status code>): ");
}

#[test]
fn poll_backoff_doubles_up_to_thirty_seconds() {
    let running = response(ResponseStatus::InProgress, vec![]);
    let mut schedule = PollSchedule::new();
    let mut waits = Vec::new();
    for _ in 0..6 {
        match schedule.next(&running) {
            PollAction::Wait { secs } => waits.push(secs),
            PollAction::Finish => panic!("a running job is not finished"),
        }
    }
    assert_eq!(waits, vec![5, 10, 20, 30, 30, 30]);
    let closed_form: Vec<u64> = (0..6u32).map(|i| (5u64 << i).min(30)).collect();
    assert_eq!(waits, closed_form);
    let queued = response(ResponseStatus::Queued, vec![]);
    assert_eq!(schedule.next(&queued), PollAction::Wait { secs: 30 });
    let incomplete = response(ResponseStatus::Incomplete, vec![]);
    assert_eq!(schedule.next(&incomplete), PollAction::Finish);
}

#[test]
fn report_comes_from_last_message_with_text() {
    let r = response(
        ResponseStatus::Completed,
        vec![
            message(&[("first report", vec![])]),
            reasoning(&["thinking"]),
            message(&[("", vec![]), ("second report", vec![])]),
            message(&[("", vec![])]),
            OutputItem::Unknown,
        ],
    );
    assert_eq!(r.final_report().as_deref(), Some("second report"));
    let empty = response(ResponseStatus::Completed, vec![message(&[("", vec![])])]);
    assert_eq!(empty.final_report(), None);
}

#[test]
fn citations_come_from_one_message() {
    let r = response(
        ResponseStatus::Completed,
        vec![
            message(&[("a", vec![citation(Some("https://old.example"), None, "url_citation")])]),
            message(&[
                ("b", vec![citation(Some("https://x.example"), Some("X"), "url_citation")]),
                (
                    "c",
                    vec![
                        citation(Some("https://other.example"), None, "file_citation"),
                        citation(None, Some("No URL"), "url_citation"),
                    ],
                ),
            ]),
            message(&[("d", vec![citation(Some("https://f.example"), None, "file_citation")])]),
        ],
    );
    let cits = r.citations();
    assert_eq!(cits.len(), 2);
    assert_eq!(cits[0].url.as_deref(), Some("https://x.example"));
    assert_eq!(cits[1].title.as_deref(), Some("No URL"));
    assert!(cits.iter().all(|a| a.annotation_type == "url_citation"));
}

#[test]
fn steps_and_summaries() {
    let r = response(
        ResponseStatus::InProgress,
        vec![
            reasoning(&["one", "two"]),
            OutputItem::McpToolCall {
                id: "m".to_string(),
                server_label: None,
                name: None,
                arguments: None,
                output: None,
                error: None,
            },
            OutputItem::CodeInterpreterCall { id: "c".to_string(), status: None, code: None, results: None },
            OutputItem::FileSearchCall { id: "f".to_string(), status: None, results: Some(vec![]) },
            message(&[("x", vec![])]),
            OutputItem::Unknown,
            reasoning(&[]),
            reasoning(&["three"]),
        ],
    );
    assert_eq!(r.research_step_count(), 6);
    assert_eq!(r.reasoning_summaries(), vec!["one", "two", "three"]);
    assert!(!r.is_terminal());
}

#[test]
fn cli_option_mapping() {
    assert_eq!(ModelChoice::O3.model(), DeepResearchModel::O3);
    assert_eq!(ModelChoice::O4Mini.model(), DeepResearchModel::O4Mini);
    assert_eq!(ContextSize::Medium.size(), SearchContextSize::Medium);
    let o = research_options(
        Some("US".to_string()),
        None,
        None,
        Some(ContextSize::Medium),
        true,
        None,
    );
    assert_eq!(o.store, Some(true));
    assert_eq!(o.search_context_size, Some(SearchContextSize::Medium));
    assert!(o.code_interpreter && o.metadata.is_none());
    assert!(build_create_request("q", DeepResearchModel::O3, o).is_ok());
    assert_eq!(resolve_api_key(Some("a".to_string()), Some("b".to_string())), Some("a".to_string()));
    assert_eq!(resolve_api_key(None, Some("b".to_string())), Some("b".to_string()));
    assert_eq!(resolve_api_key(None, None), None);
}

#[test]
fn bearer_token_check() {
    assert!(bearer_matches(Some("Bearer my-secret-token"), "my-secret-token"));
    assert!(!bearer_matches(Some("bearer my-secret-token"), "my-secret-token"));
    assert!(!bearer_matches(Some("Bearer my-secret-token "), "my-secret-token"));
    assert!(!bearer_matches(None, "my-secret-token"));
}

#[test]
fn research_command_output() {
    assert_eq!(waiting_line(), "Waiting for completion (this typically takes 5-30 minutes)...");
    assert_eq!(
        research_start_line(DeepResearchModel::O4Mini),
        "Creating deep research job with model o4-mini-deep-research-2025-06-26..."
    );
    let r = response(ResponseStatus::Queued, vec![]);
    assert_eq!(
        texts(&created_lines(&r)),
        texts(&[err("Job created: resp_1"), err("Status: queued")])
    );
    assert_eq!(
        texts(&submitted_lines(&r)),
        texts(&[out("resp_1"), err("Use `fathom status resp_1` to check progress.")])
    );
    let mut done = response(
        ResponseStatus::Completed,
        vec![
            OutputItem::WebSearchCall { id: "w".to_string(), status: None },
            message(&[(
                "The report",
                vec![
                    citation(Some("https://a.example"), Some("A"), "url_citation"),
                    citation(Some("https://b.example"), None, "url_citation"),
                ],
            )]),
        ],
    );
    done.usage = Some(Usage { input_tokens: 100, output_tokens: 500, total_tokens: 600 });
    assert_eq!(
        texts(&finished_lines(&done)),
        texts(&[
            err("Status: completed"),
            err("Research steps: 1"),
            out("The report"),
            err("\n--- Citations (2) ---"),
            err("  - A: https://a.example"),
            err("  - (untitled): https://b.example"),
            err("\nTokens: 100 input, 500 output, 600 total"),
        ])
    );
}

#[test]
fn status_command_output() {
    let mut r = response(ResponseStatus::Failed, vec![reasoning(&["first", "second"])]);
    r.error = Some(ResponseError { code: "server_error".to_string(), message: "boom".to_string() });
    assert_eq!(
        texts(&status_lines(&r, "resp_1")),
        texts(&[
            err("Response: resp_1"),
            err("Status: failed"),
            err("Research steps: 1"),
            err("\nReasoning summaries:"),
            err("  1. first"),
            err("  2. second"),
            err("\nError: server_error — boom"),
            err("\nJob complete. Use `fathom results resp_1` to get the report."),
        ])
    );
    let running = response(ResponseStatus::InProgress, vec![]);
    assert_eq!(
        texts(&status_lines(&running, "resp_1")),
        texts(&[
            err("Response: resp_1"),
            err("Status: in_progress"),
            err("Research steps: 0"),
            err("\nJob still running. Check again in 10-30 seconds."),
        ])
    );
}

#[test]
fn results_command_output() {
    let running = response(ResponseStatus::InProgress, vec![reasoning(&["r"])]);
    assert_eq!(
        texts(&results_lines(&running, false)),
        texts(&[
            err("Warning: job is still in_progress — results may be incomplete."),
            err("No report available yet."),
            err("\nResearch steps: 1"),
            err("\nReasoning summaries:"),
            err("  1. r"),
            err("\n--- Full output (JSON) ---"),
            ConsoleLine::StderrOutputJson,
        ])
    );
    assert_eq!(
        texts(&results_lines(&running, true)),
        texts(&[
            err("Warning: job is still in_progress — results may be incomplete."),
            err("No report available yet."),
        ])
    );
}
