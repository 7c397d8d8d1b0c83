use godot_wry_playwright::engine::Event;
use godot_wry_playwright::host::{clamp_timeout, RequestIssuer};
use godot_wry_playwright::protocol::Command;

#[test]
fn clamp_timeout_takes_negative_as_zero() {
  assert_eq!(clamp_timeout(-1), 0);
  assert_eq!(clamp_timeout(i64::MIN), 0);
  assert_eq!(clamp_timeout(0), 0);
  assert_eq!(clamp_timeout(250), 250);
  assert_eq!(clamp_timeout(i64::MAX), i64::MAX as u64);
}

#[test]
fn identifiers_count_up_from_one() {
  let mut issuer = RequestIssuer::new();
  assert_eq!(issuer.next_id(), 1);
  assert_eq!(issuer.next_id(), 2);
  let (id, _) = issuer.goto("https://example.com".to_string(), 100);
  assert_eq!(id, 3);
  let (id, _) = issuer.eval("1".to_string(), 100);
  assert_eq!(id, 4);
}

#[test]
fn goto_phrases_a_navigation() {
  let mut issuer = RequestIssuer::new();
  let (id, event) = issuer.goto("https://example.com".to_string(), 5_000);
  assert_eq!(id, 1);
  assert_eq!(
    event,
    Event::Navigate { id: 1, url: "https://example.com".to_string(), timeout_ms: 5_000 }
  );
}

#[test]
fn goto_clamps_a_negative_timeout() {
  let mut issuer = RequestIssuer::new();
  let (_, event) = issuer.goto("about:blank".to_string(), -20);
  assert_eq!(event, Event::Navigate { id: 1, url: "about:blank".to_string(), timeout_ms: 0 });
}

#[test]
fn eval_phrases_a_command() {
  let mut issuer = RequestIssuer::new();
  let (id, event) = issuer.eval("() => 1".to_string(), 300);
  assert_eq!(
    event,
    Event::RunCommand { id, cmd: Command::Eval { js: "() => 1".to_string() }, timeout_ms: 300 }
  );
}

#[test]
fn click_phrases_a_command() {
  let mut issuer = RequestIssuer::new();
  let (id, event) = issuer.click("#go".to_string(), -1);
  assert_eq!(
    event,
    Event::RunCommand { id, cmd: Command::Click { selector: "#go".to_string() }, timeout_ms: 0 }
  );
}

#[test]
fn fill_phrases_a_command() {
  let mut issuer = RequestIssuer::new();
  let (id, event) = issuer.fill("input".to_string(), "hello".to_string(), 10);
  assert_eq!(
    event,
    Event::RunCommand {
      id,
      cmd: Command::Fill { selector: "input".to_string(), text: "hello".to_string() },
      timeout_ms: 10
    }
  );
}

#[test]
fn wait_for_selector_gives_the_page_the_same_timeout() {
  let mut issuer = RequestIssuer::new();
  let (id, event) = issuer.wait_for_selector(".done".to_string(), 750);
  assert_eq!(
    event,
    Event::RunCommand {
      id,
      cmd: Command::WaitForSelector { selector: ".done".to_string(), timeout_ms: 750 },
      timeout_ms: 750
    }
  );
  let (id, event) = issuer.wait_for_selector(".done".to_string(), -750);
  assert_eq!(
    event,
    Event::RunCommand {
      id,
      cmd: Command::WaitForSelector { selector: ".done".to_string(), timeout_ms: 0 },
      timeout_ms: 0
    }
  );
}

#[test]
fn command_phrases_any_command() {
  let mut issuer = RequestIssuer::new();
  let cmd = Command::Attr { selector: "a".to_string(), name: "href".to_string() };
  let (id, event) = issuer.command(cmd.clone(), 40);
  assert_eq!(id, 1);
  assert_eq!(event, Event::RunCommand { id: 1, cmd, timeout_ms: 40 });
}
