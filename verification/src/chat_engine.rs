//! The engine that the command loop talks to.

use crate::models::ChatEvent;
use crate::models::MessageView;
use crate::router::EventOutcome;
use crate::router::event_lines;
use crate::router::uses_log;
use crate::shared_log::LogError;
use crate::shared_log::SharedLog;
use vstd::prelude::*;

verus! {

/// Routes events to one shared message log.
pub struct ChatEngine {
    messages: SharedLog,
}

impl ChatEngine {
    /// The handle through which this engine reaches its log.
    pub closed spec fn log(&self) -> SharedLog {
        self.messages
    }

    /// An engine with a handle to a new log, made by [`SharedLog::new`].
    pub fn new() -> (engine: Self) {
        ChatEngine { messages: SharedLog::new() }
    }

    /// Another handle to this engine's log, for a producer to append to.
    pub fn get_messages(&self) -> (handle: SharedLog)
        ensures
            handle == self.log(),
    {
        self.messages.clone()
    }

    /// Carries out `event` and says what to show for it. A new message is
    /// appended to the log and a search reads the log, each under the lock
    /// and on the log as it stands at one instant; any other event leaves
    /// the log and its lock alone and cannot fail.
    pub fn process_event(&self, event: ChatEvent) -> (outcome: Result<EventOutcome, LogError>)
        ensures
            !uses_log(event@) ==> outcome is Ok,
            outcome matches Ok(shown) ==> {
                &&& shown.exit == (event@ is Exit)
                &&& exists|snapshot: Seq<MessageView>|
                    shown.lines.deep_view() == event_lines(snapshot, event@)
            },
    {
        self.messages.route(event)
    }
}

} // verus!
