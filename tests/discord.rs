use ding::discord::DiscordSender;
use ding::duration::format_duration;
use ding::event::LifecycleEvent;
use ding::lifecycle::{Action, Input, Run};
use ding::sender::Sender;

fn words(ws: &[&str]) -> Vec<String> {
    ws.iter().map(|w| w.to_string()).collect()
}

fn sender(ws: &[&str]) -> DiscordSender {
    DiscordSender::new("https://example.invalid/hook".to_string(), words(ws))
}

#[test]
fn sender_keeps_its_configuration() {
    let s = sender(&["echo", "hi"]);
    assert_eq!(s.webhook_url(), "https://example.invalid/hook");
    assert_eq!(s.get_commands(), words(&["echo", "hi"]));
}

#[test]
fn start_payload_is_the_template_filled_in() {
    let s = sender(&["echo"]);
    let p = s.create_start_message("echo hi", "2024-01-02T03:04:05+00:00");
    let expected = "\n{\n    \"content\": \"\",\n    \"tts\": false,\n    \"embeds\": [\n        {\n            \"title\": \"🚀 Process started\",\n            \"description\": \"Process has started with the following command 🧨\",\n            \"color\": 3917055,\n            \"fields\": [],\n            \"timestamp\": \"2024-01-02T03:04:05+00:00\"\n        },\n        {\n            \"description\": \"```bash\\necho hi\\n```\",\n            \"fields\": []\n        }\n    ],\n    \"components\": [],\n    \"actions\": {},\n    \"username\": \"ding\"\n}\n";
    assert_eq!(p, expected);
}

#[test]
fn command_and_log_are_escaped_as_json_text() {
    let s = sender(&["echo"]);
    let p = s.create_start_message("echo \"a\\b\"", "T");
    assert!(p.contains("```bash\\necho \\\"a\\\\b\\\"\\n```"));
    let c = s.create_crash_message("line one\nline \"two\"", 1, "T");
    assert!(c.contains("```bash\\nline one\\nline \\\"two\\\"\\n```"));
}

#[test]
fn timestamp_is_escaped_as_json_text() {
    let s = sender(&["echo"]);
    let p = s.create_finish_message(0, "a\"b");
    assert!(p.contains("\"timestamp\": \"a\\\"b\""));
    let q = s.create_start_message("ls", "2024-01-02T03:04:05.250+00:00");
    assert!(q.contains("\"timestamp\": \"2024-01-02T03:04:05.250+00:00\""));
}

#[test]
fn finish_payload_carries_elapsed_time() {
    let s = sender(&["echo"]);
    let p = s.create_finish_message(3661, "T0");
    assert!(p.contains("\"title\": \"🎉 Process finished!\""));
    assert!(p.contains("\"color\": 4452159"));
    assert!(p.contains("\"timestamp\": \"T0\""));
    assert!(p.contains("\"name\": \"Elapsed time\",\n                    \"value\": \"1h 1m 1s\""));
    assert!(p.starts_with("\n{\n"));
    assert!(p.ends_with("\"username\": \"ding\"\n}\n"));
}

#[test]
fn crash_payload_carries_log_and_elapsed_time() {
    let s = sender(&["make"]);
    let p = s.create_crash_message("exit status: 2", 65, "T1");
    assert!(p.contains("\"title\": \"💥 Process crashed\""));
    assert!(p.contains("\"color\": 14553618"));
    assert!(p.contains("\"timestamp\": \"T1\""));
    assert!(p.contains("\"value\": \"1m 5s\""));
    assert!(p.contains("\"title\": \"Crash log\""));
    assert!(p.contains("```bash\\nexit status: 2\\n```"));
}

#[test]
fn render_picks_the_template_by_event_kind() {
    let s = sender(&["echo"]);
    let started = LifecycleEvent::Started { command_text: "ls -l".to_string(), timestamp: "T".to_string() };
    assert_eq!(s.render(&started), s.create_start_message("ls -l", "T"));
    let finished = LifecycleEvent::Finished { elapsed_secs: 7, timestamp: "U".to_string() };
    assert_eq!(s.render(&finished), s.create_finish_message(7, "U"));
    let crashed = LifecycleEvent::Crashed {
        command_text: "ls -l".to_string(),
        error_text: "boom".to_string(),
        elapsed_secs: 90061,
        timestamp: "V".to_string(),
    };
    assert_eq!(s.render(&crashed), s.create_crash_message("boom", 90061, "V"));
}

#[test]
fn events_are_stamped_with_rfc3339_time() {
    match LifecycleEvent::started("echo hi".to_string()) {
        LifecycleEvent::Started { command_text, timestamp } => {
            assert_eq!(command_text, "echo hi");
            assert!(timestamp.len() >= 20);
            assert_eq!(&timestamp[4..5], "-");
            assert_eq!(&timestamp[10..11], "T");
            assert!(timestamp.ends_with("+00:00"));
        }
        other => panic!("expected a start event, got {:?}", other),
    }
}

fn title(payload: &str) -> &str {
    let key = "\"title\": \"";
    let start = payload.find(key).unwrap() + key.len();
    let end = start + payload[start..].find('"').unwrap();
    &payload[start..end]
}

#[test]
fn echo_run_posts_start_then_finish() {
    let s = sender(&["echo", "hi"]);
    let mut run = Run::new(s.get_commands()).unwrap();
    let mut posted: Vec<String> = Vec::new();
    let mut input = Input::Begin;
    let result = loop {
        match run.step(input) {
            Action::Deliver(event) => {
                posted.push(s.render(&event));
                input = Input::Delivered;
            }
            Action::Spawn { program, args } => {
                assert_eq!(program, "echo");
                assert_eq!(args, words(&["hi"]));
                input = Input::Exited { success: true, status: "exit status: 0".to_string(), elapsed_secs: 2 };
            }
            Action::Finish(r) => break r,
        }
    };
    assert!(result.is_ok());
    assert_eq!(posted.len(), 2);
    assert_eq!(title(&posted[0]), "🚀 Process started");
    assert_eq!(title(&posted[1]), "🎉 Process finished!");
    assert!(posted[0].contains("```bash\\necho hi\\n```"));
    let field = format!("\"name\": \"Elapsed time\",\n                    \"value\": \"{}\"", format_duration(2));
    assert!(posted[1].contains(&field));
}
