use godot_wry_playwright::engine::{
  make_envelope_response, make_loaded_response, make_stale_response, make_timeout_response,
  make_unreadable_response, Action, BrowserResponse, Engine, Event, RequestKind, NO_REQUEST,
};
use godot_wry_playwright::protocol::{Command, IpcEnvelope, ProtocolError};

fn failure(request_id: i64, error: &str) -> Action {
  Action::Respond(BrowserResponse {
    request_id,
    ok: false,
    result_json: "null".to_string(),
    error: error.to_string(),
  })
}

fn sorted_ids(actions: &[Action]) -> Vec<i64> {
  let mut ids: Vec<i64> = actions
    .iter()
    .map(|action| match action {
      Action::Respond(response) => response.request_id,
      other => panic!("expected a response, got {other:?}"),
    })
    .collect();
  ids.sort();
  ids
}

#[test]
fn responses_are_built_as_documented() {
  assert_eq!(
    BrowserResponse::failure(3, "boom".to_string()),
    BrowserResponse {
      request_id: 3,
      ok: false,
      result_json: "null".to_string(),
      error: "boom".to_string()
    }
  );
  assert_eq!(
    BrowserResponse::success(4, "\"x\"".to_string()),
    BrowserResponse {
      request_id: 4,
      ok: true,
      result_json: "\"x\"".to_string(),
      error: String::new()
    }
  );
  assert_eq!(NO_REQUEST, -1);
}

#[test]
fn timeout_responses_name_the_kind() {
  assert_eq!(make_timeout_response(1, Some(RequestKind::Navigation)).error, "goto_timeout");
  assert_eq!(make_timeout_response(2, Some(RequestKind::Script)).error, "js_timeout");
  assert_eq!(make_timeout_response(3, None).error, "cmd_timeout");
  let response = make_timeout_response(9, Some(RequestKind::Script));
  assert_eq!(response.request_id, 9);
  assert!(!response.ok);
  assert_eq!(response.result_json, "null");
}

#[test]
fn envelope_response_forwards_the_outcome() {
  let response = make_envelope_response(IpcEnvelope {
    id: "12".to_string(),
    ok: true,
    result: Some("{\"a\":1}".to_string()),
    error: None,
  });
  assert_eq!(
    response,
    BrowserResponse {
      request_id: 12,
      ok: true,
      result_json: "{\"a\":1}".to_string(),
      error: String::new()
    }
  );
  let response = make_envelope_response(IpcEnvelope {
    id: "unknown".to_string(),
    ok: false,
    result: None,
    error: Some("missing_id".to_string()),
  });
  assert_eq!(
    response,
    BrowserResponse {
      request_id: -1,
      ok: false,
      result_json: "null".to_string(),
      error: "missing_id".to_string()
    }
  );
}

#[test]
fn unreadable_response_is_a_sentinel() {
  let response = make_unreadable_response(&ProtocolError::InvalidJson("expected value".to_string()));
  assert_eq!(
    response,
    BrowserResponse {
      request_id: -1,
      ok: false,
      result_json: "null".to_string(),
      error: "ipc_parse_error: invalid ipc envelope json: expected value".to_string()
    }
  );
}

#[test]
fn stale_response_is_a_sentinel_that_names_the_identifier() {
  let response = make_stale_response(&IpcEnvelope {
    id: "12".to_string(),
    ok: true,
    result: Some("1".to_string()),
    error: None,
  });
  assert_eq!(
    response,
    BrowserResponse {
      request_id: -1,
      ok: false,
      result_json: "null".to_string(),
      error: "ipc_stale_reply: 12".to_string()
    }
  );
}

#[test]
fn loaded_response_carries_the_address() {
  let quoted = serde_json::to_string("https://example.com/");
  assert_eq!(
    make_loaded_response(5, quoted),
    BrowserResponse {
      request_id: 5,
      ok: true,
      result_json: "\"https://example.com/\"".to_string(),
      error: String::new()
    }
  );
  let failed = serde_json::from_str::<String>("nope").map(|_| String::new());
  assert_eq!(make_loaded_response(6, failed).result_json, "\"\"");
}

#[test]
fn navigate_asks_the_loop_to_load() {
  let mut engine = Engine::new();
  let actions = engine.handle(
    Event::Navigate { id: 1, url: "https://example.com".to_string(), timeout_ms: 1_000 },
    0,
  );
  assert_eq!(actions, vec![Action::LoadUrl { id: 1, url: "https://example.com".to_string() }]);
}

#[test]
fn page_load_completes_the_navigation_with_the_address() {
  let mut engine = Engine::new();
  engine.handle(Event::Navigate { id: 1, url: "https://a.test".to_string(), timeout_ms: 1_000 }, 0);
  let actions = engine.handle(Event::PageLoadFinished("https://a.test/\"x\"".to_string()), 10);
  assert_eq!(
    actions,
    vec![Action::Respond(BrowserResponse {
      request_id: 1,
      ok: true,
      result_json: "\"https://a.test/\\\"x\\\"\"".to_string(),
      error: String::new()
    })]
  );
  // The request is over: no timeout follows, and a second page load
  // answers nothing.
  assert!(engine.handle(Event::Tick, 5_000).is_empty());
  assert!(engine.handle(Event::PageLoadFinished("https://a.test".to_string()), 5_001).is_empty());
}

#[test]
fn page_load_without_navigation_answers_nothing() {
  let mut engine = Engine::new();
  assert!(engine.handle(Event::PageLoadFinished("about:blank".to_string()), 0).is_empty());
}

#[test]
fn navigation_times_out() {
  let mut engine = Engine::new();
  engine.handle(Event::Navigate { id: 42, url: "https://a.test".to_string(), timeout_ms: 50 }, 100);
  assert!(engine.handle(Event::Tick, 149).is_empty());
  assert_eq!(engine.handle(Event::Tick, 150), vec![failure(42, "goto_timeout")]);
  assert!(engine.handle(Event::Tick, 151).is_empty());
  // The slot was cleared with the timeout.
  assert!(engine.handle(Event::PageLoadFinished("https://a.test".to_string()), 200).is_empty());
}

#[test]
fn navigate_failed_answers_at_once_and_clears_the_slot() {
  let mut engine = Engine::new();
  engine.handle(Event::Navigate { id: 3, url: "::".to_string(), timeout_ms: 50 }, 0);
  let actions =
    engine.handle(Event::NavigateFailed { id: 3, error: "invalid url".to_string() }, 0);
  assert_eq!(actions, vec![failure(3, "invalid url")]);
  assert!(engine.handle(Event::Tick, 1_000).is_empty());
  assert!(engine.handle(Event::PageLoadFinished("x".to_string()), 1_000).is_empty());
}

#[test]
fn new_navigation_supersedes_the_slot_but_not_the_deadline() {
  let mut engine = Engine::new();
  engine.handle(Event::Navigate { id: 1, url: "a".to_string(), timeout_ms: 100 }, 0);
  engine.handle(Event::Navigate { id: 2, url: "b".to_string(), timeout_ms: 100 }, 10);
  let actions = engine.handle(Event::PageLoadFinished("b".to_string()), 20);
  assert_eq!(actions, vec![Action::Respond(BrowserResponse::success(2, "\"b\"".to_string()))]);
  assert_eq!(engine.handle(Event::Tick, 100), vec![failure(1, "goto_timeout")]);
}

#[test]
fn run_command_asks_the_loop_to_run_the_dispatch_script() {
  let mut engine = Engine::new();
  let actions = engine.handle(
    Event::RunCommand { id: 7, cmd: Command::Eval { js: "() => 1".to_string() }, timeout_ms: 50 },
    0,
  );
  assert_eq!(
    actions,
    vec![Action::EvaluateScript {
      id: 7,
      script: "window.__gwry && window.__gwry.dispatch({\"id\":\"7\",\"cmd\":\"eval\",\"js\":\"() => 1\"});"
        .to_string()
    }]
  );
}

#[test]
fn run_command_writes_negative_ids_in_decimal() {
  let mut engine = Engine::new();
  let actions = engine
    .handle(Event::RunCommand { id: -12, cmd: Command::Text { selector: "p".into() }, timeout_ms: 5 }, 0);
  match &actions[..] {
    [Action::EvaluateScript { id: -12, script }] => {
      assert!(script.contains("\"id\":\"-12\""), "{script}");
    }
    other => panic!("unexpected {other:?}"),
  }
}

#[test]
fn envelope_completes_the_command() {
  let mut engine = Engine::new();
  engine.handle(Event::RunCommand { id: 7, cmd: Command::Click { selector: "a".into() }, timeout_ms: 50 }, 0);
  let actions = engine.handle(
    Event::IpcEnvelope(r#"{"id":"7","ok":true,"result":true,"error":null}"#.to_string()),
    10,
  );
  assert_eq!(
    actions,
    vec![Action::Respond(BrowserResponse {
      request_id: 7,
      ok: true,
      result_json: "true".to_string(),
      error: String::new()
    })]
  );
  // First wins: the deadline passes without a second response.
  assert!(engine.handle(Event::Tick, 50).is_empty());
  assert!(engine.handle(Event::Tick, 5_000).is_empty());
}

#[test]
fn envelope_with_error_is_forwarded() {
  let mut engine = Engine::new();
  engine.handle(Event::RunCommand { id: 8, cmd: Command::Click { selector: "a".into() }, timeout_ms: 50 }, 0);
  let actions = engine.handle(
    Event::IpcEnvelope(r#"{"id":"8","ok":false,"result":null,"error":"not_found"}"#.to_string()),
    10,
  );
  assert_eq!(actions, vec![failure(8, "not_found")]);
}

#[test]
fn late_reply_after_timeout_is_not_answered_twice() {
  let mut engine = Engine::new();
  engine.handle(Event::RunCommand { id: 9, cmd: Command::Click { selector: "a".into() }, timeout_ms: 50 }, 0);
  assert_eq!(engine.handle(Event::Tick, 50), vec![failure(9, "js_timeout")]);
  assert!(engine.handle(Event::Tick, 60).is_empty());
  // The timeout came first. The reply is not dropped silently, but it is
  // not a second answer to request 9 either.
  let late = engine.handle(Event::IpcEnvelope(r#"{"id":"9","ok":true}"#.to_string()), 70);
  assert_eq!(late, vec![failure(-1, "ipc_stale_reply: 9")]);
}

#[test]
fn repeated_reply_is_not_answered_twice() {
  let mut engine = Engine::new();
  engine.handle(Event::RunCommand { id: 7, cmd: Command::Click { selector: "a".into() }, timeout_ms: 50 }, 0);
  let body = r#"{"id":"7","ok":true,"result":1}"#;
  let first = engine.handle(Event::IpcEnvelope(body.to_string()), 10);
  assert_eq!(first, vec![Action::Respond(BrowserResponse::success(7, "1".to_string()))]);
  let second = engine.handle(Event::IpcEnvelope(body.to_string()), 11);
  assert_eq!(second, vec![failure(-1, "ipc_stale_reply: 7")]);
  assert!(engine.handle(Event::Tick, 1_000).is_empty());
}

#[test]
fn reply_for_a_request_never_begun_is_stale() {
  let mut engine = Engine::new();
  let actions = engine.handle(Event::IpcEnvelope(r#"{"id":"123","ok":true}"#.to_string()), 0);
  assert_eq!(actions, vec![failure(-1, "ipc_stale_reply: 123")]);
}

#[test]
fn at_most_one_response_per_request_in_any_interleaving() {
  // One command, then every source of an answer, in each order.
  let reply = || Event::IpcEnvelope(r#"{"id":"5","ok":true}"#.to_string());
  let refusal = || Event::RunCommandFailed { id: 5, error: "refused".to_string() };
  let orders: Vec<Vec<Event>> = vec![
    vec![reply(), Event::Tick, refusal(), reply()],
    vec![Event::Tick, reply(), refusal(), Event::Tick],
    vec![refusal(), Event::Tick, reply(), reply()],
    vec![reply(), reply(), reply(), Event::Tick],
  ];
  for order in orders {
    let mut engine = Engine::new();
    engine.handle(Event::RunCommand { id: 5, cmd: Command::Eval { js: "1".into() }, timeout_ms: 10 }, 0);
    let mut answers = 0;
    for event in order {
      for action in engine.handle(event, 10) {
        match action {
          Action::Respond(response) if response.request_id == 5 => answers += 1,
          Action::Respond(response) => assert_eq!(response.request_id, -1),
          other => panic!("unexpected {other:?}"),
        }
      }
    }
    assert_eq!(answers, 1);
  }
}

#[test]
fn reply_for_the_awaited_navigation_wins_over_its_page_load() {
  let mut engine = Engine::new();
  engine.handle(Event::Navigate { id: 1, url: "a".to_string(), timeout_ms: 100 }, 0);
  let first = engine.handle(Event::IpcEnvelope(r#"{"id":"1","ok":false,"error":"x"}"#.to_string()), 5);
  assert_eq!(first, vec![failure(1, "x")]);
  // The page load finds the navigation answered: the slot is cleared and
  // nothing is reported.
  assert!(engine.handle(Event::PageLoadFinished("a".to_string()), 10).is_empty());
  assert!(engine.handle(Event::Tick, 1_000).is_empty());
}

#[test]
fn refusal_for_a_request_not_in_flight_answers_no_request() {
  let mut engine = Engine::new();
  assert_eq!(
    engine.handle(Event::NavigateFailed { id: 3, error: "refused".to_string() }, 0),
    vec![failure(-1, "refused")]
  );
  assert_eq!(
    engine.handle(Event::RunCommandFailed { id: 4, error: "refused".to_string() }, 0),
    vec![failure(-1, "refused")]
  );
  engine.handle(Event::Navigate { id: 5, url: "a".to_string(), timeout_ms: 100 }, 0);
  assert_eq!(engine.handle(Event::Tick, 100), vec![failure(5, "goto_timeout")]);
  assert_eq!(
    engine.handle(Event::NavigateFailed { id: 5, error: "late".to_string() }, 101),
    vec![failure(-1, "late")]
  );
}

#[test]
fn refusal_for_a_request_not_in_flight_leaves_the_slot() {
  let mut engine = Engine::new();
  engine.handle(Event::Navigate { id: 1, url: "a".to_string(), timeout_ms: 100 }, 0);
  engine.handle(Event::NavigateFailed { id: 2, error: "x".to_string() }, 1);
  let actions = engine.handle(Event::PageLoadFinished("a".to_string()), 10);
  assert_eq!(actions, vec![Action::Respond(BrowserResponse::success(1, "\"a\"".to_string()))]);
}

#[test]
fn run_command_failed_answers_at_once() {
  let mut engine = Engine::new();
  engine.handle(Event::RunCommand { id: 4, cmd: Command::Eval { js: "1".into() }, timeout_ms: 50 }, 0);
  let actions =
    engine.handle(Event::RunCommandFailed { id: 4, error: "webview gone".to_string() }, 0);
  assert_eq!(actions, vec![failure(4, "webview gone")]);
  assert!(engine.handle(Event::Tick, 1_000).is_empty());
}

#[test]
fn run_command_failed_leaves_the_navigation_slot() {
  let mut engine = Engine::new();
  engine.handle(Event::Navigate { id: 1, url: "a".to_string(), timeout_ms: 500 }, 0);
  engine.handle(Event::RunCommand { id: 2, cmd: Command::Eval { js: "1".into() }, timeout_ms: 50 }, 0);
  engine.handle(Event::RunCommandFailed { id: 2, error: "x".to_string() }, 0);
  let actions = engine.handle(Event::PageLoadFinished("a".to_string()), 10);
  assert_eq!(actions, vec![Action::Respond(BrowserResponse::success(1, "\"a\"".to_string()))]);
}

#[test]
fn malformed_envelope_is_surfaced_and_touches_nothing() {
  let mut engine = Engine::new();
  engine.handle(Event::RunCommand { id: 5, cmd: Command::Eval { js: "1".into() }, timeout_ms: 50 }, 0);
  let actions = engine.handle(Event::IpcEnvelope("not json".to_string()), 10);
  assert_eq!(
    actions,
    vec![failure(-1, "ipc_parse_error: invalid ipc envelope json: expected ident at line 1 column 2")]
  );
  let actions = engine.handle(Event::IpcEnvelope(r#"{"id":5,"ok":true}"#.to_string()), 11);
  assert_eq!(
    actions,
    vec![failure(
      -1,
      "ipc_parse_error: invalid ipc envelope json: invalid type for field `id`, expected a string"
    )]
  );
  // The request is still in flight and times out as usual.
  assert_eq!(engine.handle(Event::Tick, 50), vec![failure(5, "js_timeout")]);
}

#[test]
fn envelope_with_unreadable_id_answers_no_request() {
  let mut engine = Engine::new();
  engine.handle(Event::RunCommand { id: 5, cmd: Command::Eval { js: "1".into() }, timeout_ms: 50 }, 0);
  let actions = engine.handle(
    Event::IpcEnvelope(r#"{"id":"unknown","ok":false,"error":"missing_id"}"#.to_string()),
    10,
  );
  assert_eq!(actions, vec![failure(-1, "missing_id")]);
  assert_eq!(engine.handle(Event::Tick, 50), vec![failure(5, "js_timeout")]);
}

#[test]
fn tick_answers_every_due_request_once() {
  let mut engine = Engine::new();
  engine.handle(Event::Navigate { id: 1, url: "a".to_string(), timeout_ms: 10 }, 0);
  engine.handle(Event::RunCommand { id: 2, cmd: Command::Eval { js: "1".into() }, timeout_ms: 20 }, 0);
  engine.handle(Event::RunCommand { id: 3, cmd: Command::Eval { js: "2".into() }, timeout_ms: 20 }, 0);
  engine.handle(Event::RunCommand { id: 4, cmd: Command::Eval { js: "3".into() }, timeout_ms: 30 }, 0);
  let actions = engine.handle(Event::Tick, 20);
  assert_eq!(sorted_ids(&actions), vec![1, 2, 3]);
  for action in &actions {
    match action {
      Action::Respond(response) => {
        let expected = if response.request_id == 1 { "goto_timeout" } else { "js_timeout" };
        assert_eq!(response.error, expected);
        assert!(!response.ok);
        assert_eq!(response.result_json, "null");
      }
      other => panic!("expected a response, got {other:?}"),
    }
  }
  assert_eq!(engine.handle(Event::Tick, 30), vec![failure(4, "js_timeout")]);
  assert!(engine.handle(Event::Tick, 40).is_empty());
}

#[test]
fn zero_timeout_expires_on_the_next_tick() {
  let mut engine = Engine::new();
  engine.handle(Event::RunCommand { id: 1, cmd: Command::Eval { js: "1".into() }, timeout_ms: 0 }, 77);
  assert_eq!(engine.handle(Event::Tick, 77), vec![failure(1, "js_timeout")]);
}

#[test]
fn stop_leaves_the_loop() {
  let mut engine = Engine::new();
  assert_eq!(engine.handle(Event::Stop, 0), vec![Action::Exit]);
}

#[test]
fn engine_without_capture_never_requests_one() {
  let mut engine = Engine::new();
  engine.handle(Event::Navigate { id: 1, url: "a".to_string(), timeout_ms: 10 }, 0);
  engine.handle(Event::PageLoadFinished("a".to_string()), 1);
  assert!(engine.handle(Event::SetCaptureFps { fps: 30 }, 2).is_empty());
  assert!(engine.handle(Event::CaptureOnce, 3).is_empty());
  assert!(engine.handle(Event::Tick, 1_000).is_empty());
}

#[test]
fn capture_starts_after_the_first_page_load() {
  let mut engine = Engine::with_capture(30, 0);
  assert!(engine.handle(Event::Tick, 50).is_empty());
  engine.handle(Event::Navigate { id: 1, url: "a".to_string(), timeout_ms: 1_000 }, 60);
  assert!(engine.handle(Event::Tick, 100).is_empty());
  engine.handle(Event::PageLoadFinished("a".to_string()), 120);
  assert_eq!(engine.handle(Event::Tick, 150), vec![Action::RequestCapture]);
}

#[test]
fn no_capture_is_requested_while_one_is_in_flight() {
  let mut engine = Engine::with_capture(30, 0);
  engine.handle(Event::Navigate { id: 1, url: "a".to_string(), timeout_ms: 1_000 }, 0);
  engine.handle(Event::PageLoadFinished("a".to_string()), 10);
  assert_eq!(engine.handle(Event::Tick, 50), vec![Action::RequestCapture]);
  assert!(engine.handle(Event::Tick, 100).is_empty());
  assert!(engine.handle(Event::Tick, 150).is_empty());
  assert!(engine.handle(Event::Tick, 10_000).is_empty());
  let frame = vec![0x89, b'P', b'N', b'G'];
  assert_eq!(
    engine.handle(Event::CaptureFinished(frame.clone()), 10_001),
    vec![Action::EmitFrame(frame)]
  );
  assert_eq!(engine.handle(Event::Tick, 10_050), vec![Action::RequestCapture]);
}

#[test]
fn capture_failure_is_a_sentinel_and_keeps_the_cadence() {
  let mut engine = Engine::with_capture(30, 0);
  engine.handle(Event::Navigate { id: 1, url: "a".to_string(), timeout_ms: 1_000 }, 0);
  engine.handle(Event::PageLoadFinished("a".to_string()), 10);
  assert_eq!(engine.handle(Event::Tick, 50), vec![Action::RequestCapture]);
  assert_eq!(
    engine.handle(Event::CaptureFailed("capture_error: E_FAIL".to_string()), 60),
    vec![failure(-1, "capture_error: E_FAIL")]
  );
  assert!(engine.handle(Event::Tick, 82).is_empty());
  assert_eq!(engine.handle(Event::Tick, 83), vec![Action::RequestCapture]);
}

#[test]
fn tick_requests_the_capture_before_it_reports_timeouts() {
  let mut engine = Engine::with_capture(30, 0);
  engine.handle(Event::Navigate { id: 1, url: "a".to_string(), timeout_ms: 1_000 }, 0);
  engine.handle(Event::PageLoadFinished("a".to_string()), 10);
  engine.handle(Event::RunCommand { id: 2, cmd: Command::Eval { js: "1".into() }, timeout_ms: 5 }, 10);
  assert_eq!(engine.handle(Event::Tick, 50), vec![Action::RequestCapture, failure(2, "js_timeout")]);
}

#[test]
fn set_capture_fps_and_capture_once_retune_the_cadence() {
  let mut engine = Engine::with_capture(30, 0);
  engine.handle(Event::Navigate { id: 1, url: "a".to_string(), timeout_ms: 1_000 }, 0);
  engine.handle(Event::PageLoadFinished("a".to_string()), 10);
  engine.handle(Event::SetCaptureFps { fps: 1 }, 10);
  assert!(engine.handle(Event::Tick, 1_009).is_empty());
  engine.handle(Event::CaptureOnce, 500);
  assert_eq!(engine.handle(Event::Tick, 500), vec![Action::RequestCapture]);
}

#[test]
fn handlers_can_be_called_directly() {
  let mut engine = Engine::new();
  let action = engine.navigate(1, "a".to_string(), 10, 0);
  assert_eq!(action, Action::LoadUrl { id: 1, url: "a".to_string() });
  let response = engine.navigate_failed(1, "refused".to_string());
  assert_eq!(response, BrowserResponse::failure(1, "refused".to_string()));
  let action = engine.run_command(2, Command::Eval { js: "1".into() }, 10, 0);
  assert!(matches!(action, Action::EvaluateScript { id: 2, .. }));
  let response = engine.run_command_failed(2, "refused".to_string());
  assert_eq!(response, BrowserResponse::failure(2, "refused".to_string()));
  engine.run_command(3, Command::Eval { js: "1".into() }, 10, 0);
  let response = engine.ipc_envelope(r#"{"id":"3","ok":true,"result":[1]}"#);
  assert_eq!(response, BrowserResponse::success(3, "[1]".to_string()));
  engine.navigate(4, "b".to_string(), 10, 0);
  let response = engine.page_load_finished("b", 5);
  assert_eq!(response, Some(BrowserResponse::success(4, "\"b\"".to_string())));
  assert_eq!(engine.page_load_finished("b", 6), None);
  let response = engine.envelope_received(Err(ProtocolError::InvalidJson("x".to_string())));
  assert_eq!(
    response,
    BrowserResponse::failure(-1, "ipc_parse_error: invalid ipc envelope json: x".to_string())
  );
  assert!(engine.tick(1_000).is_empty());
}
