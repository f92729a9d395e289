use rnote_engine::smartink::{
    split_whitespace, InkDump, PassthroughRefiner, RefineError, RefineRequest, RefineResponse,
    Refiner, SubprocessRefiner, PROTOCOL_VERSION,
};

fn response(version: u32, id: u64, strokes: Vec<u8>, error: Option<&str>) -> RefineResponse<u8> {
    RefineResponse { version, id, strokes, error: error.map(|e| e.to_string()) }
}

#[test]
fn empty_command_is_rejected() {
    assert!(SubprocessRefiner::new("   ").is_err());
}

#[test]
fn command_line_is_split_at_whitespace() {
    let refiner = SubprocessRefiner::new("  uv run\t--project  dir\nrefiner serve ").unwrap();
    assert_eq!(
        refiner.command(),
        &vec!["uv", "run", "--project", "dir", "refiner", "serve"]
            .into_iter()
            .map(String::from)
            .collect::<Vec<_>>()
    );
    assert!(!refiner.session_open());
    assert_eq!(split_whitespace("a\u{3000}b\u{a0}c"), vec!["a", "b", "c"]);
    assert!(split_whitespace("").is_empty());
    assert!(matches!(SubprocessRefiner::new(""), Err(RefineError::EmptyCommand)));
}

#[test]
fn request_ids_count_up() {
    let mut refiner = SubprocessRefiner::new("refiner").unwrap();
    assert_eq!(refiner.next_request_id(), 0);
    assert_eq!(refiner.next_request_id(), 1);
    assert_eq!(refiner.next_request_id(), 2);
}

#[test]
fn good_response_hands_back_strokes() {
    let mut refiner = SubprocessRefiner::new("refiner").unwrap();
    refiner.session_started();
    let strokes = refiner.finish_exchange(4, Ok(response(PROTOCOL_VERSION, 4, vec![1, 2, 3], None)));
    assert_eq!(strokes.unwrap(), vec![1, 2, 3]);
    assert!(refiner.session_open());
}

#[test]
fn reported_error_keeps_the_process() {
    let mut refiner = SubprocessRefiner::new("refiner").unwrap();
    refiner.session_started();
    let result = refiner.finish_exchange(1, Ok(response(PROTOCOL_VERSION, 1, vec![], Some("boom"))));
    assert!(matches!(result, Err(RefineError::Reported(ref m)) if m == "boom"));
    assert!(refiner.session_open());
}

#[test]
fn bad_responses_drop_the_process() {
    let mut refiner = SubprocessRefiner::new("refiner").unwrap();
    refiner.session_started();
    let result = refiner.finish_exchange(1, Ok(response(7, 1, vec![9], None)));
    assert!(matches!(result, Err(RefineError::VersionMismatch { got: 7 })));
    assert!(!refiner.session_open());

    refiner.session_started();
    let result = refiner.finish_exchange(1, Ok(response(PROTOCOL_VERSION, 2, vec![9], None)));
    assert!(matches!(result, Err(RefineError::IdMismatch { expected: 1, got: 2 })));
    assert!(!refiner.session_open());

    refiner.session_started();
    let result = refiner.finish_exchange::<u8>(3, Err(RefineError::Transport("closed".to_string())));
    assert!(matches!(result, Err(RefineError::Transport(_))));
    assert!(!refiner.session_open());
}

#[test]
fn passthrough_returns_the_strokes() {
    let mut refiner = PassthroughRefiner;
    assert_eq!(refiner.refine(0.3f64.to_bits(), vec![5u8, 6]).unwrap(), vec![5, 6]);
}

#[test]
fn requests_and_dumps_carry_the_protocol_version() {
    let request = RefineRequest::new(7, 0.3f64.to_bits(), vec![1u8]);
    assert_eq!(request.version, PROTOCOL_VERSION);
    assert_eq!(request.id, 7);
    assert_eq!(f64::from_bits(request.strength), 0.3);
    let dump = InkDump::new(vec![1u8, 2], 1_700_000_000);
    assert_eq!(dump.version, PROTOCOL_VERSION);
    assert_eq!(dump.created, 1_700_000_000);
    assert_eq!(dump.strokes, vec![1, 2]);
}

#[test]
fn refinement_rounds_take_ids_in_turn() {
    let mut refiner = SubprocessRefiner::new("refiner").unwrap();
    let request = refiner.begin_request(0.3f64.to_bits(), vec![1u8]);
    assert_eq!(request.id, 0);
    assert_eq!(request.version, PROTOCOL_VERSION);
    assert_eq!(f64::from_bits(request.strength), 0.3);
    assert_eq!(request.strokes, vec![1]);
    assert_eq!(refiner.next_id(), 1);

    // The child could not be started: the next round starts one again.
    let result = refiner.finish_exchange::<u8>(request.id, Err(RefineError::Spawn("no such program".to_string())));
    assert!(matches!(result, Err(RefineError::Spawn(_))));
    assert!(!refiner.session_open());

    // A failed round still used up its id.
    let request = refiner.begin_request(0.3f64.to_bits(), vec![2u8]);
    assert_eq!(request.id, 1);
    refiner.session_started();
    let result = refiner.finish_exchange(request.id, Ok(response(PROTOCOL_VERSION, 1, vec![3], None)));
    assert_eq!(result.unwrap(), vec![3]);
    assert!(refiner.session_open());
    assert_eq!(refiner.next_id(), 2);
}
