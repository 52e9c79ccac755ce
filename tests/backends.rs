use lemon_graph::llm::reply_text;
use lemon_graph::ollama::{on_generate_chunk, on_pull_status, GenerateChunk, GenerateStep, PullStep};

fn chunk(error: Option<&str>, response: Option<&str>) -> GenerateChunk {
    GenerateChunk {
        error: error.map(|e| e.to_string()),
        response: response.map(|r| r.to_string()),
    }
}

#[test]
fn responses_are_appended() {
    let mut text = String::from("Hel");
    let step = on_generate_chunk(&mut text, chunk(None, Some("lo")));
    assert!(matches!(step, GenerateStep::Continue));
    assert_eq!(text, "Hello");
    let step = on_generate_chunk(&mut text, chunk(None, None));
    assert!(matches!(step, GenerateStep::Continue));
    assert_eq!(text, "Hello");
}

#[test]
fn missing_model_asks_for_a_pull() {
    let mut text = String::new();
    let step = on_generate_chunk(
        &mut text,
        chunk(Some("model 'mistral' not found, try pulling it first"), None),
    );
    assert!(matches!(step, GenerateStep::Pull));
    assert_eq!(text, "");
}

#[test]
fn other_errors_fail_with_their_message() {
    let mut text = String::from("kept");
    let step = on_generate_chunk(&mut text, chunk(Some("out of memory"), Some("ignored")));
    match step {
        GenerateStep::Fail(message) => assert_eq!(message, "out of memory"),
        _ => panic!("expected a failure"),
    }
    assert_eq!(text, "kept");
}

#[test]
fn pull_statuses() {
    let mut last = String::new();
    assert_eq!(on_pull_status(&mut last, &"pulling manifest".to_string()), PullStep::Report);
    assert_eq!(last, "pulling manifest");
    assert_eq!(on_pull_status(&mut last, &"pulling manifest".to_string()), PullStep::Skip);
    assert_eq!(on_pull_status(&mut last, &"verifying".to_string()), PullStep::Report);
    assert_eq!(last, "verifying");
    assert_eq!(on_pull_status(&mut last, &"success".to_string()), PullStep::Retry);
    assert_eq!(last, "verifying");
}

#[test]
fn reply_parts_are_joined_and_trimmed() {
    let parts = vec![Some("  The".to_string()), None, Some(" answer ".to_string()), Some("is B \n".to_string())];
    assert_eq!(reply_text(&parts), "The answer is B");
    assert_eq!(reply_text(&vec![]), "");
    assert_eq!(reply_text(&vec![None, Some("x".to_string())]), "x");
}
