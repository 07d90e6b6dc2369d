use zentinel_agents::guardrail::{GuardrailAction, GuardrailCallOutcome, GuardrailFailureMode,
    PiiCheckResult, PiiDetectionConfig, PromptInjectionConfig, PromptInjectionResult,
    evaluate_pii, evaluate_prompt_injection, extract_inference_content};
use zentinel_agents::protocol::{GuardrailDetection, GuardrailResponse};

#[test]
fn test_extract_openai_content() {
    let body = br#"{"messages": [{"role": "user", "content": "Hello world"}]}"#;
    let content = extract_inference_content(body);
    assert_eq!(content, Some("Hello world".to_string()));
}

#[test]
fn test_extract_openai_multi_message() {
    let body = br#"{
        "messages": [
            {"role": "system", "content": "You are helpful"},
            {"role": "user", "content": "Hello"}
        ]
    }"#;
    let content = extract_inference_content(body);
    assert_eq!(content, Some("You are helpful\nHello".to_string()));
}

#[test]
fn test_extract_anthropic_content() {
    let body = br#"{"prompt": "Human: Hello\n\nAssistant:"}"#;
    let content = extract_inference_content(body);
    assert_eq!(content, Some("Human: Hello\n\nAssistant:".to_string()));
}

#[test]
fn test_extract_generic_input() {
    let body = br#"{"input": "Test query"}"#;
    let content = extract_inference_content(body);
    assert_eq!(content, Some("Test query".to_string()));
}

#[test]
fn test_extract_invalid_json() {
    let body = b"not json";
    let content = extract_inference_content(body);
    assert_eq!(content, None);
}

fn injection_config(action: GuardrailAction, mode: GuardrailFailureMode) -> PromptInjectionConfig {
    PromptInjectionConfig {
        enabled: true,
        agent: "guard".to_string(),
        action,
        block_status: 403,
        block_message: None,
        timeout_ms: 50,
        failure_mode: mode,
    }
}

#[test]
fn detection_is_blocked_logged_or_warned_by_action() {
    let detection = GuardrailDetection::new("prompt_injection".to_string(),
        "instruction override".to_string());
    let response = GuardrailResponse::with_detection(detection);

    let r = evaluate_prompt_injection(
        &injection_config(GuardrailAction::Block, GuardrailFailureMode::Open),
        GuardrailCallOutcome::Answered(response),
    );
    match r {
        PromptInjectionResult::Blocked { status, message, detections } => {
            assert_eq!(status, 403);
            assert_eq!(message, "Request blocked: potential prompt injection detected");
            assert_eq!(detections.len(), 1);
        }
        _ => panic!("a detection under the block action must block"),
    }

    let detection = GuardrailDetection::new("prompt_injection".to_string(), "again".to_string());
    let r = evaluate_prompt_injection(
        &injection_config(GuardrailAction::Log, GuardrailFailureMode::Open),
        GuardrailCallOutcome::Answered(GuardrailResponse::with_detection(detection)),
    );
    assert!(matches!(r, PromptInjectionResult::Detected { .. }));
}

#[test]
fn guardrail_failure_honors_the_failure_mode() {
    let r = evaluate_prompt_injection(
        &injection_config(GuardrailAction::Block, GuardrailFailureMode::Open),
        GuardrailCallOutcome::CallError("boom".to_string()),
    );
    assert!(matches!(r, PromptInjectionResult::Clean));

    let r = evaluate_prompt_injection(
        &injection_config(GuardrailAction::Block, GuardrailFailureMode::Closed),
        GuardrailCallOutcome::CallTimeout,
    );
    match r {
        PromptInjectionResult::Blocked { status, message, .. } => {
            assert_eq!(status, 504);
            assert_eq!(message, "Guardrail check timed out");
        }
        _ => panic!("a fail-closed timeout must block"),
    }
}

#[test]
fn pii_detection_carries_redacted_content() {
    let config = PiiDetectionConfig {
        enabled: true,
        agent: "pii".to_string(),
        categories: vec!["ssn".to_string()],
        timeout_ms: 50,
        failure_mode: GuardrailFailureMode::Open,
    };
    let mut response = GuardrailResponse::clean();
    response.add_detection(GuardrailDetection::new("ssn".to_string(), "found".to_string()));
    response.redacted_content = Some("***-**-****".to_string());
    let r = evaluate_pii(&config, GuardrailCallOutcome::Answered(response));
    match r {
        PiiCheckResult::Detected { detections, redacted_content } => {
            assert_eq!(detections.len(), 1);
            assert_eq!(redacted_content.as_deref(), Some("***-**-****"));
        }
        _ => panic!("a detection must be reported"),
    }

    // Failures honor the failure mode: open treats the response as
    // clean, closed blocks with 503 on an error and 504 on a timeout.
    let r = evaluate_pii(&config, GuardrailCallOutcome::CallTimeout);
    assert!(matches!(r, PiiCheckResult::Clean));

    let mut closed = PiiDetectionConfig {
        enabled: true,
        agent: "pii".to_string(),
        categories: vec![],
        timeout_ms: 50,
        failure_mode: GuardrailFailureMode::Closed,
    };
    let r = evaluate_pii(&closed, GuardrailCallOutcome::CallError("boom".to_string()));
    match r {
        PiiCheckResult::Blocked { status, message, detections } => {
            assert_eq!(status, 503);
            assert_eq!(message, "Guardrail check unavailable");
            assert!(detections.is_empty());
        }
        _ => panic!("a fail-closed error must block"),
    }
    let r = evaluate_pii(&closed, GuardrailCallOutcome::CallTimeout);
    match r {
        PiiCheckResult::Blocked { status, message, .. } => {
            assert_eq!(status, 504);
            assert_eq!(message, "Guardrail check timed out");
        }
        _ => panic!("a fail-closed timeout must block"),
    }
    closed.enabled = false;
    assert!(matches!(
        evaluate_pii(&closed, GuardrailCallOutcome::CallTimeout),
        PiiCheckResult::Clean
    ));
}

#[test]
fn disabled_checks_are_always_clean() {
    let mut config = injection_config(GuardrailAction::Block, GuardrailFailureMode::Closed);
    config.enabled = false;
    let r = evaluate_prompt_injection(&config, GuardrailCallOutcome::CallTimeout);
    assert!(matches!(r, PromptInjectionResult::Clean));
}
