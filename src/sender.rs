use vstd::prelude::*;

use crate::event::LifecycleEvent;

verus! {

/// A notification provider: it is made from an endpoint and a command line,
/// hands the command line back, and renders each lifecycle event into the
/// payload that it delivers.
pub trait Sender: Sized {
    /// Where payloads are delivered.
    spec fn endpoint(&self) -> Seq<char>;

    /// The command line that is run.
    spec fn command_spec(&self) -> Seq<String>;

    /// The payload that this provider delivers for `event`.
    spec fn rendered(&self, event: LifecycleEvent) -> Seq<char>;

    fn new(webhook_url: String, commands: Vec<String>) -> (r: Self)
        ensures
            r.endpoint() == webhook_url@,
            r.command_spec() == commands@,
    ;

    fn get_commands(&self) -> (r: Vec<String>)
        ensures
            r@ == self.command_spec(),
    ;

    fn render(&self, event: &LifecycleEvent) -> (r: String)
        ensures
            r@ == self.rendered(*event),
    ;
}

} // verus!
