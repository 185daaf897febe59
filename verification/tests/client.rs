use fathom::api::client::{
    build_create_request, ClientError, CreateOptions, DeepResearchClient, PollAction, PollSchedule,
};
use fathom::api::types::{
    Annotation, ContentItem, DeepResearchModel, OutputItem, Response, ResponseError,
    ResponseStatus, SearchContextSize, SummaryItem, Tool, Usage,
};

/// The completed response of the API tests: a web search, a reasoning step
/// and a message with one URL citation.
fn completed_response() -> Response {
    Response {
        id: "resp_completed456".to_string(),
        object: "response".to_string(),
        status: ResponseStatus::Completed,
        output: vec![
            OutputItem::WebSearchCall { id: "ws_1".to_string(), status: Some("completed".to_string()) },
            OutputItem::Reasoning {
                id: "rs_1".to_string(),
                summary: vec![SummaryItem {
                    summary_type: "summary_text".to_string(),
                    text: "Analyzing results".to_string(),
                }],
            },
            OutputItem::Message {
                id: "msg_1".to_string(),
                role: "assistant".to_string(),
                status: Some("completed".to_string()),
                content: vec![ContentItem::OutputText {
                    text: "Here is the report...".to_string(),
                    annotations: vec![Annotation {
                        annotation_type: "url_citation".to_string(),
                        url: Some("https://example.com".to_string()),
                        title: Some("Example".to_string()),
                        start_index: Some(0),
                        end_index: Some(10),
                    }],
                }],
            },
        ],
        error: None,
        usage: Some(Usage { input_tokens: 100, output_tokens: 500, total_tokens: 600 }),
        model: "o3-deep-research-2025-06-26".to_string(),
        created_at_bits: 1700000000.0f64.to_bits(),
        metadata: None,
    }
}

/// The failed response of the API tests.
fn failed_response() -> Response {
    Response {
        id: "resp_failed789".to_string(),
        object: "response".to_string(),
        status: ResponseStatus::Failed,
        output: vec![],
        error: Some(ResponseError {
            code: "server_error".to_string(),
            message: "An internal error occurred".to_string(),
        }),
        usage: None,
        model: "o3-deep-research-2025-06-26".to_string(),
        created_at_bits: 1700000000.0f64.to_bits(),
        metadata: None,
    }
}

#[test]
fn client_new_succeeds() {
    let result = DeepResearchClient::new("test-key");
    assert!(result.is_ok(), "DeepResearchClient::new should succeed with a valid key");
    assert_eq!(result.unwrap().base_url(), "https://api.openai.com/v1");
}

#[test]
fn client_with_base_url_succeeds() {
    let result = DeepResearchClient::with_base_url("test-key", "http://127.0.0.1:4010");
    assert!(result.is_ok(), "with_base_url should succeed with a valid URL");
}

#[test]
fn client_base_url_trims_trailing_slash() {
    let base_url_with_slash = format!("{}/", "http://127.0.0.1:4010");
    let client = DeepResearchClient::with_base_url("test-key", &base_url_with_slash)
        .expect("client construction should succeed");
    assert_eq!(client.base_url(), "http://127.0.0.1:4010");
    assert_eq!(client.responses_url(), "http://127.0.0.1:4010/responses");
    assert_eq!(
        client.response_url("resp_test123"),
        "http://127.0.0.1:4010/responses/resp_test123"
    );
}

#[test]
fn create_options_default() {
    let opts = CreateOptions::default();
    assert!(opts.country.is_none(), "country should default to None");
    assert!(opts.city.is_none(), "city should default to None");
    assert!(opts.region.is_none(), "region should default to None");
    assert!(opts.search_context_size.is_none(), "search_context_size should default to None");
    assert!(!opts.code_interpreter, "code_interpreter should default to false");
    assert!(opts.instructions.is_none(), "instructions should default to None");
    assert!(opts.store.is_none(), "store should default to None");
    assert!(opts.metadata.is_none(), "metadata should default to None");
}

#[test]
fn create_sends_correct_request_body() {
    let body = build_create_request(
        "What is the capital of France?",
        DeepResearchModel::O3,
        CreateOptions::default(),
    )
    .expect("create should succeed");

    assert_eq!(body.model, "o3-deep-research-2025-06-26", "model field should match O3 model string");
    assert!(body.background, "background should be true");
    assert_eq!(body.reasoning.summary, "auto", "reasoning.summary should be 'auto'");
    assert_eq!(body.input.len(), 1, "default options should produce exactly one input message");
    assert_eq!(body.input[0].role, "user");
    assert_eq!(body.input[0].content, "What is the capital of France?");
    assert_eq!(body.tools.len(), 1, "default options should produce exactly one tool");
    assert!(matches!(body.tools[0], Tool::WebSearchPreview { .. }));
    assert!(body.instructions.is_none());
    assert!(body.store.is_none());
    assert!(body.metadata.is_none());
}

#[test]
fn create_with_location_includes_user_location() {
    let opts = CreateOptions {
        country: Some("US".to_string()),
        city: Some("San Francisco".to_string()),
        region: Some("California".to_string()),
        ..Default::default()
    };
    let body = build_create_request("test query", DeepResearchModel::O3, opts)
        .expect("create should succeed");

    let web_search = body
        .tools
        .iter()
        .find(|t| matches!(t, Tool::WebSearchPreview { .. }))
        .expect("web_search_preview tool should be present");
    match web_search {
        Tool::WebSearchPreview { user_location, search_context_size } => {
            let user_location = user_location.as_ref().expect("user_location should be set");
            assert_eq!(
                user_location.location_type, "approximate",
                "user_location.type should be 'approximate'"
            );
            assert_eq!(user_location.country.as_deref(), Some("US"));
            assert_eq!(user_location.city.as_deref(), Some("San Francisco"));
            assert_eq!(user_location.region.as_deref(), Some("California"));
            assert!(search_context_size.is_none());
        }
        _ => unreachable!(),
    }
}

#[test]
fn create_with_instructions_includes_developer_message() {
    let opts = CreateOptions {
        instructions: Some("Be concise and cite sources.".to_string()),
        ..Default::default()
    };
    let body = build_create_request("test query", DeepResearchModel::O3, opts)
        .expect("create should succeed");

    assert_eq!(body.input.len(), 2, "instructions + query should produce two input messages");
    assert_eq!(body.input[0].role, "developer");
    assert_eq!(body.input[0].content, "Be concise and cite sources.");
    assert_eq!(body.input[1].role, "user");
    assert_eq!(body.input[1].content, "test query");
}

#[test]
fn create_with_code_interpreter_includes_tool() {
    let opts = CreateOptions { code_interpreter: true, ..Default::default() };
    let body = build_create_request("test query", DeepResearchModel::O3, opts)
        .expect("create should succeed");

    assert_eq!(body.tools.len(), 2, "code_interpreter=true should produce two tools");
    let has_web_search = body.tools.iter().any(|t| matches!(t, Tool::WebSearchPreview { .. }));
    let has_code_interpreter = body.tools.iter().any(|t| matches!(t, Tool::CodeInterpreter {}));
    assert!(has_web_search, "tools should include web_search_preview");
    assert!(has_code_interpreter, "tools should include code_interpreter");
}

#[test]
fn create_rejects_non_medium_search_context_size_before_request() {
    let opts = CreateOptions {
        search_context_size: Some(SearchContextSize::Low),
        ..Default::default()
    };
    let err = build_create_request("test query", DeepResearchModel::O3, opts)
        .expect_err("low search context should be rejected locally");
    assert!(
        err.message().contains("only supports search_context_size 'medium'"),
        "error should explain the supported Deep Research search context size: {}",
        err.message()
    );
    assert!(matches!(err, ClientError::UnsupportedSearchContextSize(SearchContextSize::Low)));
}

#[test]
fn create_error_response() {
    let err = ClientError::Api {
        status: 400,
        body: r#"{"error":{"message":"Invalid request","type":"invalid_request_error"}}"#
            .to_string(),
    };
    let err_msg = err.message();
    assert!(err_msg.contains("400"), "error message should mention the HTTP status code; got: {err_msg}");
    assert_eq!(
        err_msg,
        r#"OpenAI API error (HTTP 400 Bad Request): {"error":{"message":"Invalid request","type":"invalid_request_error"}}"#
    );
}

#[test]
fn create_server_error_response() {
    let err = ClientError::Api { status: 500, body: "Internal Server Error".to_string() };
    let err_msg = err.message();
    assert!(err_msg.contains("500"), "error message should mention the HTTP status code; got: {err_msg}");
    assert_eq!(err_msg, "OpenAI API error (HTTP 500 Internal Server Error): Internal Server Error");
}

#[test]
fn retrieve_success_response() {
    let response = completed_response();

    assert_eq!(response.id, "resp_completed456");
    assert_eq!(response.status, ResponseStatus::Completed);
    assert_eq!(response.output.len(), 3, "completed response should have 3 output items");

    let usage = response.usage.as_ref().expect("completed response should have usage");
    assert_eq!(usage.input_tokens, 100);
    assert_eq!(usage.output_tokens, 500);
    assert_eq!(usage.total_tokens, 600);

    let report = response.final_report().expect("should extract final report text");
    assert_eq!(report, "Here is the report...");

    let citations = response.citations();
    assert_eq!(citations.len(), 1);
    assert_eq!(citations[0].url.as_deref(), Some("https://example.com"));
    assert_eq!(citations[0].title.as_deref(), Some("Example"));

    assert_eq!(response.research_step_count(), 2);
    assert!(response.is_terminal());
}

#[test]
fn retrieve_error_response() {
    let err = ClientError::Api {
        status: 404,
        body: r#"{"error":{"message":"Response not found","type":"not_found_error"}}"#.to_string(),
    };
    let err_msg = err.message();
    assert!(err_msg.contains("404"), "error message should mention the HTTP status code; got: {err_msg}");
    assert!(err_msg.starts_with("OpenAI API error (HTTP 404 Not Found): "));
}

#[test]
fn poll_returns_on_completed() {
    let response = completed_response();
    let mut schedule = PollSchedule::new();
    assert_eq!(schedule.next(&response), PollAction::Finish);
    assert_eq!(response.id, "resp_completed456");
    assert_eq!(response.status, ResponseStatus::Completed);
    assert!(response.is_terminal());
    assert_eq!(schedule.interval_secs(), 5);
}

#[test]
fn poll_returns_on_failed() {
    let response = failed_response();
    let mut schedule = PollSchedule::new();
    assert_eq!(schedule.next(&response), PollAction::Finish);
    assert_eq!(response.id, "resp_failed789");
    assert_eq!(response.status, ResponseStatus::Failed);
    assert!(response.is_terminal(), "failed status should be terminal");
    let error = response.error.as_ref().expect("failed response should have error details");
    assert_eq!(error.code, "server_error");
    assert!(!error.message.is_empty());
}
