use portable_pty::CommandBuilder;
use pty_bridge::begin;
use pty_bridge::prepare_command;
use pty_bridge::BridgeError;
use pty_bridge::ProcessEvent;
use pty_bridge::PtySize;

fn contains(haystack: &[u8], needle: &[u8]) -> bool {
    if needle.is_empty() {
        return true;
    }
    if haystack.len() < needle.len() {
        return false;
    }
    for start in 0..=(haystack.len() - needle.len()) {
        if &haystack[start..start + needle.len()] == needle {
            return true;
        }
    }
    false
}

fn payload_concat(events: &[ProcessEvent]) -> Vec<u8> {
    let mut bytes = Vec::new();
    for ev in events {
        if let ProcessEvent::Output(d) = ev {
            bytes.extend_from_slice(d);
        }
    }
    bytes
}

fn assert_stream_shape(events: &[ProcessEvent]) {
    assert!(!events.is_empty());
    let mut terminated = 0;
    for (i, ev) in events.iter().enumerate() {
        match ev {
            ProcessEvent::Output(d) => assert!(!d.is_empty()),
            ProcessEvent::Terminated => {
                terminated += 1;
                assert_eq!(i, events.len() - 1);
            }
        }
    }
    assert_eq!(terminated, 1);
}

#[test]
fn pty_size_new_sets_dimensions() {
    let s = PtySize::new(24, 80);
    assert_eq!(s.rows, 24);
    assert_eq!(s.cols, 80);
    assert_eq!(s.pixel_width, 0);
    assert_eq!(s.pixel_height, 0);
}

#[test]
fn prepare_command_sets_terminal_environment() {
    let cmd = prepare_command("true");
    assert_eq!(cmd.get_env("TERM"), Some("xterm-256color".as_ref()));
    assert_eq!(cmd.get_env("COLOR"), Some("1".as_ref()));
    assert_eq!(cmd.get_env("TERM_PROGRAM"), Some("tm-switcher-host".as_ref()));
}

#[test]
fn echo_child_produces_output_then_terminated() {
    let mut cmd = CommandBuilder::new("head");
    cmd.args(["-n", "1"]);
    let (mut process, task, rx) = begin(cmd, PtySize::new(24, 80)).unwrap();
    assert!(process.resize(PtySize::new(30, 100)).is_ok());
    let written = process.write(b"hello\n").unwrap();
    assert!(written > 0 && written <= 6);
    process.flush().unwrap();
    task.run();
    let events: Vec<ProcessEvent> = rx.try_iter().collect();
    assert_stream_shape(&events);
    let bytes = payload_concat(&events);
    assert!(contains(&bytes, b"hello"));
}

#[test]
fn exact_child_output_is_relayed_in_order() {
    let mut cmd = CommandBuilder::new("sh");
    cmd.args(["-c", "printf abc"]);
    let (_process, task, rx) = begin(cmd, PtySize::new(24, 80)).unwrap();
    task.run();
    let events: Vec<ProcessEvent> = rx.try_iter().collect();
    assert_stream_shape(&events);
    assert_eq!(payload_concat(&events), b"abc".to_vec());
}

#[test]
fn long_output_is_relayed_byte_exact_across_chunks() {
    let mut cmd = CommandBuilder::new("sh");
    cmd.args(["-c", "i=1; while [ $i -le 500 ]; do echo $i; i=$((i+1)); done"]);
    let (_process, task, rx) = begin(cmd, PtySize::new(24, 80)).unwrap();
    task.run();
    let events: Vec<ProcessEvent> = rx.try_iter().collect();
    assert_stream_shape(&events);
    // The terminal turns each newline into carriage return plus newline.
    let mut expected: Vec<u8> = Vec::new();
    for i in 1..=500 {
        expected.extend_from_slice(format!("{}\r\n", i).as_bytes());
    }
    assert_eq!(payload_concat(&events), expected);
    // Chunks are at most one read buffer long, so this stream cannot fit
    // in a single Output event.
    assert!(events.len() >= 4);
}

#[test]
fn two_writes_reach_the_child_in_call_order() {
    let mut cmd = CommandBuilder::new("sh");
    cmd.args(["-c", "read a; read b; printf %s-%s \"$a\" \"$b\""]);
    let (mut process, task, rx) = begin(cmd, PtySize::new(24, 80)).unwrap();
    assert!(process.write_all(b"ab\n").is_ok());
    assert!(process.write_all(b"cd\n").is_ok());
    task.run();
    let events: Vec<ProcessEvent> = rx.try_iter().collect();
    assert_stream_shape(&events);
    let bytes = payload_concat(&events);
    assert!(contains(&bytes, b"ab-cd"));
}

#[test]
fn child_sees_requested_dimensions() {
    let mut cmd = CommandBuilder::new("stty");
    cmd.args(["size"]);
    let (_process, task, rx) = begin(cmd, PtySize::new(31, 117)).unwrap();
    task.run();
    let events: Vec<ProcessEvent> = rx.try_iter().collect();
    assert_stream_shape(&events);
    assert!(contains(&payload_concat(&events), b"31 117"));
}

#[test]
fn missing_executable_fails_with_spawn_error() {
    let cmd = CommandBuilder::new("/nonexistent/path/to/program");
    match begin(cmd, PtySize::new(24, 80)) {
        Ok(_) => panic!("construction must fail for a missing executable"),
        Err(e) => assert_eq!(e, BridgeError::Spawn),
    }
}

#[test]
fn child_that_exits_immediately_yields_one_terminated() {
    let cmd = prepare_command("true");
    let (_process, task, rx) = begin(cmd, PtySize::new(24, 80)).unwrap();
    task.run();
    let events: Vec<ProcessEvent> = rx.try_iter().collect();
    assert_stream_shape(&events);
}

#[test]
fn relay_stops_after_consumer_disconnects() {
    let mut cmd = CommandBuilder::new("sh");
    cmd.args(["-c", "i=0; while [ $i -lt 20000 ]; do echo data; i=$((i+1)); done"]);
    let (_process, task, rx) = begin(cmd, PtySize::new(24, 80)).unwrap();
    drop(rx);
    // With the consumer gone the relay must come back of its own accord,
    // well before the producing child is done.
    task.run();
}
