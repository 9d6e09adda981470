use hearye::services::{
    cleanup_reply, cleanup_request, cleanup_status, groq_request, status_is_success, transcription_reply,
    ServiceError, Service, GROQ_DEFAULT_MODEL, SYSTEM_PROMPT,
};

#[test]
fn groq_needs_a_key() {
    match groq_request("", &None) {
        Err(e @ ServiceError::KeyNotSet(Service::Groq)) => assert_eq!(e.message(), "Groq API key not set"),
        _ => panic!("request without key"),
    }
}

#[test]
fn groq_uses_the_default_model() {
    let r = groq_request("gsk", &None).unwrap();
    assert_eq!(r.api_key, "gsk");
    assert_eq!(r.model, GROQ_DEFAULT_MODEL);
    assert_eq!(r.model, "whisper-large-v3-turbo");
    let r = groq_request("gsk", &Some("distil".to_string())).unwrap();
    assert_eq!(r.model, "distil");
}

#[test]
fn transcript_is_trimmed() {
    assert_eq!(transcription_reply(200, "200 OK".into(), "  hello world \n".into()).unwrap(), "hello world");
}

#[test]
fn failed_transcription_carries_status_and_body() {
    match transcription_reply(401, "401 Unauthorized".into(), "bad key".into()) {
        Err(e) => assert_eq!(e.message(), "Groq error 401 Unauthorized: bad key"),
        Ok(_) => panic!("error accepted"),
    }
}

#[test]
fn success_statuses() {
    assert!(status_is_success(200) && status_is_success(204) && status_is_success(299));
    assert!(!status_is_success(199) && !status_is_success(300) && !status_is_success(500));
}

#[test]
fn cleanup_needs_a_key() {
    match cleanup_request("", &None, "text") {
        Err(e) => assert_eq!(e.message(), "Anthropic API key not set"),
        Ok(_) => panic!("request without key"),
    }
}

#[test]
fn cleanup_request_fields() {
    let r = cleanup_request("sk", &Some("m".to_string()), "um hello").unwrap();
    assert_eq!(r.model, "m");
    assert_eq!(r.max_tokens, 1024);
    assert_eq!(r.system, SYSTEM_PROMPT);
    assert_eq!(r.text, "um hello");
    match cleanup_request("sk", &None, "x") {
        Err(e @ ServiceError::ModelNotSet(Service::Anthropic)) => {
            assert_eq!(e.message(), "Anthropic model not set")
        }
        _ => panic!("request without model"),
    }
}

#[test]
fn cleanup_replies() {
    assert!(cleanup_status(200, "200 OK".into(), String::new()).is_none());
    match cleanup_status(529, "529 <unknown status code>".into(), "overloaded".into()) {
        Some(e) => assert_eq!(e.message(), "Anthropic error 529 <unknown status code>: overloaded"),
        None => panic!("error accepted"),
    }
    assert_eq!(cleanup_reply(Some(" Hello. ".into()), String::new()).unwrap(), "Hello.");
    match cleanup_reply(None, "{\"content\":[]}".into()) {
        Err(e) => assert_eq!(e.message(), "unexpected Anthropic response: {\"content\":[]}"),
        Ok(_) => panic!("missing text accepted"),
    }
    assert_eq!(ServiceError::Transport("timeout".into()).message(), "timeout");
}
