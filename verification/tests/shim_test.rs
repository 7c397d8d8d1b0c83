use godot_wry_playwright::protocol::automation_shim_js;

#[test]
fn automation_shim_defines_dispatch_and_ipc() {
  let js = automation_shim_js();
  assert!(js.contains("window.__gwry"), "shim should define window.__gwry");
  assert!(js.contains("dispatch"), "shim should define dispatch");
  assert!(
    js.contains("window.ipc") && js.contains("postMessage"),
    "shim should use window.ipc.postMessage"
  );
  assert!(js.contains("MutationObserver"), "shim should support DOM waits");
}

#[test]
fn automation_shim_installs_once_and_knows_every_command() {
  let js = automation_shim_js();
  assert!(js.contains("if (window.__gwry && window.__gwry.__installed) return;"));
  for tag in ["eval", "click", "fill", "text", "attr", "wait_for_selector"] {
    assert!(js.contains(&format!("case \"{tag}\":")), "shim should handle {tag}");
  }
  assert!(js.contains("unsupported_cmd:"));
}
