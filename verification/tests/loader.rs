use loft::json::Json;
use loft::loader::{
    deadline_passed, load_request, response_outcome, ExtensionLoader, LoadError, LoadOutcome,
    LoadStep, PipeRead, BROWSER_REQUEST_FD, BROWSER_RESPONSE_FD, LOAD_DEADLINE_SECS,
    LOAD_REQUEST_ID, POLL_INTERVAL_MS,
};

fn data(chunk: &[u8], elapsed_secs: u64, elapsed_subsec_nanos: u32) -> PipeRead<'_> {
    PipeRead::Data { chunk, elapsed_secs, elapsed_subsec_nanos }
}

fn loaded(id: &str) -> Option<(bool, String)> {
    Some((true, id.to_string()))
}

fn rejected(message: &str) -> Option<(bool, String)> {
    Some((false, message.to_string()))
}

fn plain(outcome: Option<LoadOutcome>) -> Option<(bool, String)> {
    match outcome {
        Some(LoadOutcome::Loaded { extension_id }) => Some((true, extension_id)),
        Some(LoadOutcome::Rejected { message }) => Some((false, message)),
        None => None,
    }
}

fn outcome_of(text: &str) -> Option<(bool, String)> {
    plain(response_outcome(&Json::parse(text.as_bytes()).unwrap()))
}

#[test]
fn request_is_the_json_text_and_a_zero_byte() {
    let request = load_request("/home/u/.local/share/loft/extension");
    let mut expected = br#"{"id":1,"method":"Extensions.loadUnpacked","params":{"path":"/home/u/.local/share/loft/extension"}}"#.to_vec();
    expected.push(0);
    assert_eq!(request, expected);
    assert_eq!(LOAD_REQUEST_ID, 1);
    assert_eq!((BROWSER_REQUEST_FD, BROWSER_RESPONSE_FD), (3, 4));
}

#[test]
fn request_escapes_the_path() {
    let request = load_request("/odd \"dir\"\\x\n");
    let mut expected =
        br#"{"id":1,"method":"Extensions.loadUnpacked","params":{"path":"/odd \"dir\"\\x\n"}}"#
            .to_vec();
    expected.push(0);
    assert_eq!(request, expected);
    assert_eq!(request.iter().filter(|b| **b == 0).count(), 1);
}

#[test]
fn response_with_result_is_loaded() {
    assert_eq!(outcome_of(r#"{"id":1,"result":{"id":"abcdef"}}"#), loaded("abcdef"));
    assert_eq!(outcome_of(r#"{"id":1,"result":{}}"#), loaded("?"));
    assert_eq!(outcome_of(r#"{"id":1,"result":{"id":5}}"#), loaded("?"));
    assert_eq!(outcome_of(r#"{"id":1,"result":null}"#), loaded("?"));
    assert_eq!(
        outcome_of(r#"{"id":1,"result":{"id":"x"},"error":{"message":"both"}}"#),
        loaded("x")
    );
}

#[test]
fn response_with_error_is_rejected() {
    assert_eq!(
        outcome_of(r#"{"id":1,"error":{"code":-32000,"message":"Manifest file is missing"}}"#),
        rejected("Manifest file is missing")
    );
    assert_eq!(outcome_of(r#"{"id":1,"error":{}}"#), rejected("unknown"));
    assert_eq!(outcome_of(r#"{"id":1,"error":"bad"}"#), rejected("unknown"));
}

#[test]
fn other_traffic_is_no_response() {
    for text in [
        r#"{"id":2,"result":{"id":"other"}}"#,
        r#"{"method":"Target.targetCreated","params":{}}"#,
        r#"{"id":"1","result":{"id":"text id"}}"#,
        r#"{"id":1.0,"result":{"id":"float id"}}"#,
        r#"{"id":-1,"result":{}}"#,
        r#"{"id":1}"#,
        r#"[1]"#,
        r#"1"#,
    ] {
        assert_eq!(outcome_of(text), None, "{}", text);
    }
}

#[test]
fn correlated_response_is_found_among_unrelated_traffic() {
    let stream = [
        r#"{"method":"Target.attachedToTarget","params":{"sessionId":"s"}}"#,
        r#"{"id":7,"result":{"id":"not ours"}}"#,
        "garbage that is not json",
        r#"{"id":1,"result":{"id":"eofapmpkglkhhdjadegnleadgbjooljp"}}"#,
        r#"{"id":1,"error":{"message":"too late"}}"#,
        "",
    ]
    .join("\0");
    let mut loader = ExtensionLoader::new();
    assert_eq!(plain(loader.feed(stream.as_bytes())), loaded("eofapmpkglkhhdjadegnleadgbjooljp"));
}

#[test]
fn response_may_arrive_in_pieces() {
    let text = [r#"{"id":3,"result":{}}"#, r#"{"id":1,"error":{"message":"Failed to load"}}"#, ""]
        .join("\0");
    let stream = text.as_bytes();
    for cut in 1..stream.len() {
        let mut loader = ExtensionLoader::new();
        let first = plain(loader.feed(&stream[..cut]));
        if cut == stream.len() {
            assert_eq!(first, rejected("Failed to load"));
        } else {
            assert_eq!(first, None, "cut at {}", cut);
            assert_eq!(plain(loader.feed(&stream[cut..])), rejected("Failed to load"), "cut at {}", cut);
        }
    }
    let mut loader = ExtensionLoader::new();
    for byte in &stream[..stream.len() - 1] {
        assert_eq!(plain(loader.feed(std::slice::from_ref(byte))), None);
    }
    assert_eq!(plain(loader.feed(&[0])), rejected("Failed to load"));
}

#[test]
fn unterminated_message_is_not_looked_at() {
    let mut loader = ExtensionLoader::new();
    assert_eq!(plain(loader.feed(br#"{"id":1,"result":{"id":"x"}}"#)), None);
    assert_eq!(plain(loader.feed(b"")), None);
    assert_eq!(plain(loader.feed(b"\0")), loaded("x"));
}

#[test]
fn steps_follow_the_read() {
    let mut loader = ExtensionLoader::new();
    assert!(matches!(loader.step(data(b"{\"id\":9}\0", 0, 0)), LoadStep::ReadAgain));
    assert!(matches!(
        loader.step(PipeRead::WouldBlock { elapsed_secs: 3, elapsed_subsec_nanos: 5 }),
        LoadStep::Sleep { millis: POLL_INTERVAL_MS }
    ));
    assert!(matches!(
        loader.step(data(b"{\"id\":1,\"result\":{\"id\":\"e\"}}\0", 4, 0)),
        LoadStep::Done { outcome: LoadOutcome::Loaded { ref extension_id } } if extension_id == "e"
    ));
    assert!(matches!(
        loader.step(data(b"", 4, 1)),
        LoadStep::Abort { error: LoadError::PipeClosed }
    ));
    assert!(matches!(
        loader.step(PipeRead::Failed),
        LoadStep::Abort { error: LoadError::ReadFailed }
    ));
}

#[test]
fn deadline_is_ten_seconds_and_not_a_moment_less() {
    assert_eq!(LOAD_DEADLINE_SECS, 10);
    assert_eq!(POLL_INTERVAL_MS, 100);
    assert!(!deadline_passed(0, 0));
    assert!(!deadline_passed(9, 999_999_999));
    assert!(!deadline_passed(10, 0));
    assert!(deadline_passed(10, 1));
    assert!(deadline_passed(11, 0));
    let mut loader = ExtensionLoader::new();
    assert!(matches!(
        loader.step(PipeRead::WouldBlock { elapsed_secs: 10, elapsed_subsec_nanos: 1 }),
        LoadStep::Abort { error: LoadError::LoadTimeout }
    ));
}

#[test]
fn outcomes_and_errors_have_their_text() {
    assert_eq!(
        LoadOutcome::Loaded { extension_id: "abc".to_string() }.into_result(),
        Ok("abc".to_string())
    );
    assert_eq!(
        LoadOutcome::Rejected { message: "no manifest".to_string() }.into_result(),
        Err("CDP Extensions.loadUnpacked failed: no manifest".to_string())
    );
    assert_eq!(LoadError::PipeClosed.message(), "CDP pipe closed without response");
    assert_eq!(LoadError::LoadTimeout.message(), "Timeout waiting for CDP response");
}

#[test]
fn unrelated_traffic_does_not_put_the_deadline_off() {
    let event = b"{\"method\":\"Target.targetCreated\",\"params\":{}}\0";
    let mut loader = ExtensionLoader::new();
    assert!(matches!(loader.step(data(event, 0, 1)), LoadStep::ReadAgain));
    assert!(matches!(loader.step(data(event, 9, 999_999_999)), LoadStep::ReadAgain));
    assert!(matches!(loader.step(data(event, 10, 0)), LoadStep::ReadAgain));
    assert!(matches!(
        loader.step(data(event, 10, 1)),
        LoadStep::Abort { error: LoadError::LoadTimeout }
    ));
    let mut partial = ExtensionLoader::new();
    assert!(matches!(partial.step(data(b"{\"id\":1,\"resu", 2, 0)), LoadStep::ReadAgain));
    assert!(matches!(
        partial.step(data(b"lt\":{", 11, 0)),
        LoadStep::Abort { error: LoadError::LoadTimeout }
    ));
}

#[test]
fn response_that_arrives_after_the_deadline_still_counts() {
    let mut loader = ExtensionLoader::new();
    assert!(matches!(loader.step(data(b"{\"id\":1,\"result\":", 3, 0)), LoadStep::ReadAgain));
    assert!(matches!(
        loader.step(data(b"{\"id\":\"late\"}}\0", 12, 0)),
        LoadStep::Done { outcome: LoadOutcome::Loaded { ref extension_id } } if extension_id == "late"
    ));
}

#[test]
fn closed_pipe_and_failed_read_end_the_exchange_at_any_time() {
    let mut loader = ExtensionLoader::new();
    assert!(matches!(
        loader.step(data(b"", 20, 0)),
        LoadStep::Abort { error: LoadError::PipeClosed }
    ));
    assert!(matches!(loader.step(PipeRead::Failed), LoadStep::Abort { error: LoadError::ReadFailed }));
}

#[test]
fn a_zero_in_the_path_is_escaped_and_the_request_ends_at_its_only_zero() {
    let request = load_request("/a\0b/\u{1}c");
    let mut expected =
        br#"{"id":1,"method":"Extensions.loadUnpacked","params":{"path":"/a\u0000b/\u0001c"}}"#
            .to_vec();
    expected.push(0);
    assert_eq!(request, expected);
    assert_eq!(request.iter().position(|b| *b == 0), Some(request.len() - 1));
    let unicode = load_request("/h\u{f6}me/\u{1f600}");
    assert_eq!(unicode.iter().position(|b| *b == 0), Some(unicode.len() - 1));
}
