use whispr::ollama::status_line;
use whispr::ollama::{ollama_endpoint, ollama_status, status_display, TAGS_PATH};

#[test]
fn endpoint_drops_trailing_slashes_of_the_base() {
    assert_eq!(ollama_endpoint("http://localhost:11434", TAGS_PATH), "http://localhost:11434/api/tags");
    assert_eq!(ollama_endpoint("http://localhost:11434///", TAGS_PATH), "http://localhost:11434/api/tags");
    assert_eq!(ollama_endpoint("", "/x"), "/x");
    assert_eq!(ollama_endpoint("///", "/x"), "/x");
}

#[test]
fn endpoint_ignores_one_more_trailing_slash() {
    for base in ["http://h", "http://h/", "a/b//"] {
        let with_slash = format!("{}/", base);
        assert_eq!(ollama_endpoint(&with_slash, "/p"), ollama_endpoint(base, "/p"));
    }
}

#[test]
fn health_check_reports_success_statuses_as_running() {
    let st = ollama_status(Some(200));
    assert!(st.available);
    assert_eq!(st.message, "Ollama is running");
    assert!(ollama_status(Some(204)).available);
    assert!(ollama_status(Some(299)).available);
}

#[test]
fn health_check_reports_other_statuses_with_their_reason() {
    let st = ollama_status(Some(404));
    assert!(!st.available);
    assert_eq!(st.message, "Ollama responded with 404 Not Found");
    assert_eq!(ollama_status(Some(500)).message, "Ollama responded with 500 Internal Server Error");
    assert_eq!(ollama_status(Some(199)).message, "Ollama responded with 199 <unknown status code>");
    assert!(!ollama_status(Some(300)).available);
}

#[test]
fn health_check_without_answer_is_unreachable() {
    let st = ollama_status(None);
    assert!(!st.available);
    assert_eq!(st.message, "Ollama is not reachable");
}

#[test]
fn status_text_matches_the_http_display() {
    for code in [100u16, 200, 201, 301, 404, 418, 503, 599, 999] {
        let status = reqwest::StatusCode::from_u16(code).unwrap();
        assert_eq!(status_display(code), status.to_string());
    }
    assert_eq!(status_display(7), "7 <unknown status code>");
    assert_eq!(status_display(0), "0 <unknown status code>");
    assert_eq!(status_display(65535), "65535 <unknown status code>");
}

#[test]
fn status_line_writes_code_and_reason() {
    assert_eq!(status_line(404, Some("Not Found")), "404 Not Found");
    assert_eq!(status_line(42, None), "42 <unknown status code>");
    assert_eq!(status_line(0, Some("x")), "0 x");
}
