use vstd::prelude::*;

use crate::clock::{current_timestamp, rfc3339_layout};

verus! {

/// The words of a command line joined by single spaces.
pub open spec fn joined(words: Seq<String>) -> Seq<char>
    decreases words.len(),
{
    if words.len() == 0 {
        Seq::empty()
    } else if words.len() == 1 {
        words[0]@
    } else {
        joined(words.drop_last()).push(' ') + words.last()@
    }
}

/// Joins the words of a command line with single spaces.
pub fn join_command(words: &Vec<String>) -> (r: String)
    ensures
        r@ == joined(words@),
{
    let mut out = String::new();
    let mut i: usize = 0;
    while i < words.len()
        invariant
            i <= words@.len(),
            out@ == joined(words@.subrange(0, i as int)),
        decreases words@.len() - i,
    {
        proof {
            reveal_strlit(" ");
        }
        if i > 0 {
            out.append(" ");
        }
        out.append(words[i].as_str());
        proof {
            let next = words@.subrange(0, i + 1);
            assert(next.drop_last() =~= words@.subrange(0, i as int));
            assert(next.last() == words@[i as int]);
        }
        i = i + 1;
    }
    proof {
        assert(words@.subrange(0, words@.len() as int) =~= words@);
    }
    out
}

/// The three kinds of lifecycle event.
#[derive(PartialEq, Eq, Structural, Clone, Copy, Debug)]
pub enum EventKind {
    Started,
    Finished,
    Crashed,
}

/// A notifiable moment of a monitored command. Each event carries the
/// RFC 3339 time at which it was made; the two that end a run carry the whole
/// seconds that passed since the run was announced.
#[derive(Debug)]
pub enum LifecycleEvent {
    Started { command_text: String, timestamp: String },
    Finished { elapsed_secs: u64, timestamp: String },
    Crashed { command_text: String, error_text: String, elapsed_secs: u64, timestamp: String },
}

impl LifecycleEvent {
    pub open spec fn kind(&self) -> EventKind {
        match self {
            LifecycleEvent::Started { .. } => EventKind::Started,
            LifecycleEvent::Finished { .. } => EventKind::Finished,
            LifecycleEvent::Crashed { .. } => EventKind::Crashed,
        }
    }

    /// The time at which the event was made.
    pub open spec fn stamp(&self) -> Seq<char> {
        match self {
            LifecycleEvent::Started { timestamp, .. } => timestamp@,
            LifecycleEvent::Finished { timestamp, .. } => timestamp@,
            LifecycleEvent::Crashed { timestamp, .. } => timestamp@,
        }
    }

    /// The start of a run of `command_text`, stamped with the time now.
    pub fn started(command_text: String) -> (r: LifecycleEvent)
        ensures
            r matches LifecycleEvent::Started { command_text: c, timestamp: t } && c == command_text
                && rfc3339_layout(t@),
    {
        LifecycleEvent::Started { command_text, timestamp: current_timestamp() }
    }

    /// The successful end of a run, stamped with the time now.
    pub fn finished(elapsed_secs: u64) -> (r: LifecycleEvent)
        ensures
            r matches LifecycleEvent::Finished { elapsed_secs: e, timestamp: t } && e == elapsed_secs
                && rfc3339_layout(t@),
    {
        LifecycleEvent::Finished { elapsed_secs, timestamp: current_timestamp() }
    }

    /// The failed end of a run of `command_text`, stamped with the time now.
    pub fn crashed(command_text: String, error_text: String, elapsed_secs: u64) -> (r:
        LifecycleEvent)
        ensures
            r matches LifecycleEvent::Crashed {
                command_text: c,
                error_text: x,
                elapsed_secs: e,
                timestamp: t,
            } && c == command_text && x == error_text && e == elapsed_secs && rfc3339_layout(t@),
    {
        LifecycleEvent::Crashed { command_text, error_text, elapsed_secs, timestamp: current_timestamp() }
    }
}

} // verus!
