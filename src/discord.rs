use vstd::prelude::*;

use crate::duration::{duration_text, format_duration};
use crate::event::LifecycleEvent;
use crate::json::{json_escaped, push_json_escaped};
use crate::sender::Sender;

verus! {

// The webhook's three message templates, cut at the places where the time,
// the command, the elapsed time and the crash log go.
pub const START_HEAD: &'static str = r#"
{
    "content": "",
    "tts": false,
    "embeds": [
        {
            "title": "🚀 Process started",
            "description": "Process has started with the following command 🧨",
            "color": 3917055,
            "fields": [],
            "timestamp": ""#;

pub const START_AFTER_TIME: &'static str = r#""
        },
        {
            "description": "```bash\n"#;

pub const START_TAIL: &'static str = r#"\n```",
            "fields": []
        }
    ],
    "components": [],
    "actions": {},
    "username": "ding"
}
"#;

pub const CRASH_HEAD: &'static str = r#"
{
    "content": "",
    "tts": false,
    "embeds": [
        {
            "title": "💥 Process crashed",
            "description": "Process has crashed for the following reason 😭",
            "timestamp": ""#;

pub const CRASH_AFTER_TIME: &'static str = r#"",
            "color": 14553618,
            "fields": [
                {
                    "name": "Elapsed time",
                    "value": ""#;

pub const CRASH_AFTER_ELAPSED: &'static str = r#"",
                    "inline": true
                }
            ]
        },
        {
            "title": "Crash log",
            "description": "```bash\n"#;

pub const CRASH_TAIL: &'static str = r#"\n```",
            "fields": []
        }
    ],
    "components": [],
    "actions": {},
    "username": "ding"
}
"#;

pub const FINISH_HEAD: &'static str = r#"
{
    "content": "",
    "tts": false,
    "embeds": [
        {
            "title": "🎉 Process finished!",
            "description": "Process has finished successfully ✅",
            "timestamp": ""#;

pub const FINISH_AFTER_TIME: &'static str = r#"",
            "color": 4452159,
            "fields": [
                {
                    "name": "Elapsed time",
                    "value": ""#;

pub const FINISH_TAIL: &'static str = r#"",
                    "inline": true
                }
            ]
        }
    ],
    "components": [],
    "actions": {},
    "username": "ding"
}
"#;

/// The payload that announces a run of `command`, made at `timestamp`. Both
/// are escaped as JSON string text.
pub open spec fn start_payload(timestamp: Seq<char>, command: Seq<char>) -> Seq<char> {
    START_HEAD@ + json_escaped(timestamp) + START_AFTER_TIME@ + json_escaped(command) + START_TAIL@
}

/// The payload that reports a crash with `log`, made at `timestamp` after
/// the span given as `elapsed` text. The time and the log are escaped as JSON
/// string text.
pub open spec fn crash_payload(timestamp: Seq<char>, elapsed: Seq<char>, log: Seq<char>) -> Seq<
    char,
> {
    CRASH_HEAD@ + json_escaped(timestamp) + CRASH_AFTER_TIME@ + elapsed + CRASH_AFTER_ELAPSED@ + json_escaped(log) + CRASH_TAIL@
}

/// The payload that reports a successful end, made at `timestamp` after the
/// span given as `elapsed` text. The time is escaped as JSON string text.
pub open spec fn finish_payload(timestamp: Seq<char>, elapsed: Seq<char>) -> Seq<char> {
    FINISH_HEAD@ + json_escaped(timestamp) + FINISH_AFTER_TIME@ + elapsed + FINISH_TAIL@
}

/// The webhook payload of a lifecycle event.
pub open spec fn payload(event: LifecycleEvent) -> Seq<char> {
    match event {
        LifecycleEvent::Started { command_text, timestamp } => start_payload(
            timestamp@,
            command_text@,
        ),
        LifecycleEvent::Finished { elapsed_secs, timestamp } => finish_payload(
            timestamp@,
            duration_text(elapsed_secs as nat),
        ),
        LifecycleEvent::Crashed { error_text, elapsed_secs, timestamp, .. } => crash_payload(
            timestamp@,
            duration_text(elapsed_secs as nat),
            error_text@,
        ),
    }
}

/// A notification sender that posts to a Discord webhook.
pub struct DiscordSender {
    webhook_url: String,
    commands: Vec<String>,
}

impl Sender for DiscordSender {
    closed spec fn endpoint(&self) -> Seq<char> {
        self.webhook_url@
    }

    closed spec fn command_spec(&self) -> Seq<String> {
        self.commands@
    }

    open spec fn rendered(&self, event: LifecycleEvent) -> Seq<char> {
        payload(event)
    }

    fn new(webhook_url: String, commands: Vec<String>) -> (r: DiscordSender) {
        DiscordSender { webhook_url, commands }
    }

    fn get_commands(&self) -> (r: Vec<String>) {
        let r = self.commands.clone();
        proof {
            assert(r@ =~= self.commands@);
        }
        r
    }

    fn render(&self, event: &LifecycleEvent) -> (r: String) {
        match event {
            LifecycleEvent::Started { command_text, timestamp } => self.create_start_message(
                command_text.as_str(),
                timestamp.as_str(),
            ),
            LifecycleEvent::Finished { elapsed_secs, timestamp } => self.create_finish_message(
                *elapsed_secs,
                timestamp.as_str(),
            ),
            LifecycleEvent::Crashed { error_text, elapsed_secs, timestamp, .. } => self.create_crash_message(
                error_text.as_str(),
                *elapsed_secs,
                timestamp.as_str(),
            ),
        }
    }
}

impl DiscordSender {
    pub fn webhook_url(&self) -> (r: &str)
        ensures
            r@ == self.endpoint(),
    {
        self.webhook_url.as_str()
    }

    /// Fills the start template with the escaped `timestamp` and `command`.
    pub fn create_start_message(&self, command: &str, timestamp: &str) -> (r: String)
        ensures
            r@ == start_payload(timestamp@, command@),
    {
        let mut out = String::from_str(START_HEAD);
        push_json_escaped(&mut out, timestamp);
        out.append(START_AFTER_TIME);
        push_json_escaped(&mut out, command);
        out.append(START_TAIL);
        out
    }

    /// Fills the crash template with the escaped `timestamp`, the elapsed time
    /// and the escaped `log`.
    pub fn create_crash_message(&self, log: &str, elapsed_secs: u64, timestamp: &str) -> (r:
        String)
        ensures
            r@ == crash_payload(timestamp@, duration_text(elapsed_secs as nat), log@),
    {
        let elapsed = format_duration(elapsed_secs);
        let mut out = String::from_str(CRASH_HEAD);
        push_json_escaped(&mut out, timestamp);
        out.append(CRASH_AFTER_TIME);
        out.append(elapsed.as_str());
        out.append(CRASH_AFTER_ELAPSED);
        push_json_escaped(&mut out, log);
        out.append(CRASH_TAIL);
        out
    }

    /// Fills the finish template with the escaped `timestamp` and the elapsed
    /// time.
    pub fn create_finish_message(&self, elapsed_secs: u64, timestamp: &str) -> (r: String)
        ensures
            r@ == finish_payload(timestamp@, duration_text(elapsed_secs as nat)),
    {
        let elapsed = format_duration(elapsed_secs);
        let mut out = String::from_str(FINISH_HEAD);
        push_json_escaped(&mut out, timestamp);
        out.append(FINISH_AFTER_TIME);
        out.append(elapsed.as_str());
        out.append(FINISH_TAIL);
        out
    }
}

} // verus!
