use fathom::api::client::build_create_request;
use fathom::api::types::{
    ContentItem, DeepResearchModel, OutputItem, Response, ResponseStatus, SearchContextSize,
    SummaryItem, Usage,
};
use fathom::mcp::server::{
    context_size_from_param, created_job, model_from_param, results_report, server_instructions,
    status_report, CreateResearchParams, ToolError,
};

fn response_with(status: ResponseStatus, output: Vec<OutputItem>, usage: Option<Usage>) -> Response {
    Response {
        id: "resp_test123".to_string(),
        object: "response".to_string(),
        status,
        output,
        error: None,
        usage,
        model: "o3-deep-research-2025-06-26".to_string(),
        created_at_bits: 1700000000.0f64.to_bits(),
        metadata: None,
    }
}

fn web_search() -> OutputItem {
    OutputItem::WebSearchCall { id: "ws_1".to_string(), status: Some("completed".to_string()) }
}

fn reasoning(text: &str) -> OutputItem {
    OutputItem::Reasoning {
        id: "rs_1".to_string(),
        summary: vec![SummaryItem { summary_type: "summary_text".to_string(), text: text.to_string() }],
    }
}

/// The queued response that creating a job answers with.
fn queued_response() -> Response {
    response_with(ResponseStatus::Queued, vec![], None)
}

/// An in-progress response with one web search step and one reasoning step.
fn in_progress_response() -> Response {
    response_with(
        ResponseStatus::InProgress,
        vec![web_search(), reasoning("Found relevant info")],
        None,
    )
}

/// A completed response with a full report and usage stats.
fn completed_response() -> Response {
    response_with(
        ResponseStatus::Completed,
        vec![
            web_search(),
            reasoning("Found relevant info"),
            OutputItem::Message {
                id: "msg_1".to_string(),
                role: "assistant".to_string(),
                status: Some("completed".to_string()),
                content: vec![ContentItem::OutputText {
                    text: "Research report here".to_string(),
                    annotations: vec![],
                }],
            },
        ],
        Some(Usage { input_tokens: 100, output_tokens: 500, total_tokens: 600 }),
    )
}

#[test]
fn server_info_has_instructions() {
    let instructions = server_instructions();
    assert!(!instructions.is_empty(), "instructions should not be empty");
    assert!(instructions.contains("create_research"), "instructions should mention create_research");
    assert!(instructions.contains("check_status"), "instructions should mention check_status");
    assert!(instructions.contains("get_results"), "instructions should mention get_results");
}

#[test]
fn tool_create_research_success() {
    let params = CreateResearchParams {
        query: "What is quantum computing?".to_string(),
        model: None,
        country: None,
        city: None,
        region: None,
        search_context_size: None,
        code_interpreter: None,
        instructions: None,
    };
    let (query, model, options) = params.into_request_args().expect("no search context size given");
    assert_eq!(query, "What is quantum computing?");
    assert_eq!(model, DeepResearchModel::O3);
    assert_eq!(options.store, Some(true));
    assert!(!options.code_interpreter);
    let request = build_create_request(&query, model, options).expect("create_research should succeed");
    assert_eq!(request.input[0].content, "What is quantum computing?");

    let response = queued_response();
    let result = created_job(&response);
    assert_eq!(result.response_id, "resp_test123", "result should contain the response_id");
    assert_eq!(result.status, "queued", "result should contain the status");
    assert_eq!(result.model, "o3-deep-research-2025-06-26");
    assert_eq!(result.message, "Research job created. Use check_status to monitor progress.");
}

#[test]
fn tool_check_status_success() {
    let response = in_progress_response();
    let result = status_report(&response);
    assert_eq!(result.status, "in_progress", "result should contain the status");
    assert_eq!(result.research_steps, 2, "the in-progress fixture has 2 steps");
    assert_eq!(result.response_id, "resp_test123", "result should contain the response_id");
    assert_eq!(result.reasoning_summaries, Some(vec!["Found relevant info"]));
    assert!(!result.is_terminal);
    assert_eq!(result.hint, Some("Job still running. Poll again in 10-30 seconds."));
    assert!(result.error.is_none());
    assert!(result.usage.is_none());
}

#[test]
fn tool_get_results_success() {
    let response = completed_response();
    let result = results_report(&response, None);
    assert_eq!(result.report.as_deref(), Some("Research report here"), "result should contain the report");
    assert_eq!(result.status, "completed", "result should contain the status");
    assert_eq!(result.response_id, "resp_test123", "result should contain the response_id");
    let usage = result.usage.expect("result should contain usage stats");
    assert_eq!(usage.input_tokens, 100);
    assert_eq!(usage.output_tokens, 500);
    assert_eq!(usage.total_tokens, 600);
    let steps = result.steps.expect("steps are included by default");
    assert_eq!(steps.research_steps, 2);
    assert_eq!(steps.reasoning_summaries, Some(vec!["Found relevant info"]));
    assert!(result.citations.is_none(), "the fixture has no citations");
    assert!(result.warning.is_none());
}

#[test]
fn get_results_without_steps_omits_them() {
    let response = in_progress_response();
    let result = results_report(&response, Some(false));
    assert!(result.steps.is_none());
    assert!(result.report.is_none());
    assert_eq!(
        result.warning,
        Some("Research is still in progress. Results may be incomplete.")
    );
}

#[test]
fn tool_params_map_model_and_context_size() {
    assert_eq!(model_from_param(&Some("o4-mini".to_string())), DeepResearchModel::O4Mini);
    assert_eq!(model_from_param(&Some("o4_mini".to_string())), DeepResearchModel::O4Mini);
    assert_eq!(model_from_param(&Some("o3".to_string())), DeepResearchModel::O3);
    assert_eq!(model_from_param(&Some("gpt".to_string())), DeepResearchModel::O3);
    assert_eq!(model_from_param(&None), DeepResearchModel::O3);
    assert_eq!(
        context_size_from_param(&Some("medium".to_string())).ok(),
        Some(Some(SearchContextSize::Medium))
    );
    assert_eq!(context_size_from_param(&None).ok(), Some(None));
    for size in ["low", "high"] {
        match context_size_from_param(&Some(size.to_string())) {
            Err(ToolError::UnsupportedSearchContextSize(given)) => assert_eq!(given, size),
            Ok(_) => panic!("size {size} should be refused"),
        }
    }
}

#[test]
fn tool_refuses_unsupported_context_sizes() {
    for size in [None, Some("low"), Some("medium"), Some("high"), Some("huge")] {
        let params = CreateResearchParams {
            query: "q".to_string(),
            model: Some("o4-mini".to_string()),
            country: Some("US".to_string()),
            city: None,
            region: None,
            search_context_size: size.map(|s| s.to_string()),
            code_interpreter: Some(true),
            instructions: Some("Be concise.".to_string()),
        };
        match (size, params.into_request_args()) {
            (None, Ok((query, model, options))) | (Some("medium"), Ok((query, model, options))) => {
                let request = build_create_request(&query, model, options).expect("medium is accepted");
                assert_eq!(request.model, "o4-mini-deep-research-2025-06-26");
                assert_eq!(request.tools.len(), 2);
                assert_eq!(request.input.len(), 2);
            }
            (Some(given), Err(e)) if given != "medium" => {
                assert!(e.message().contains("only supports search_context_size 'medium'"));
                match e {
                    ToolError::UnsupportedSearchContextSize(s) => assert_eq!(s, given),
                }
            }
            (size, r) => panic!("unexpected outcome for {size:?}: {r:?}"),
        }
    }
}
