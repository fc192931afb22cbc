//! The background producer: a fixed cast that posts a fixed script.

use crate::clock::unix_seconds;
use crate::models::Message;
use crate::models::MessageView;
use crate::models::User;
use crate::models::UserView;
use crate::router::message_line;
use crate::router::render_message;
use crate::shared_log::LogError;
use crate::shared_log::SharedLog;
use vstd::prelude::*;
use vstd::string::StringExecFns;

verus! {

/// The number of messages in the script.
pub const SCRIPT_LEN: usize = 6;

/// The cast: the id and the name of each simulated user.
pub open spec fn cast() -> Seq<(u64, Seq<char>)> {
    seq![
        (1u64, "Akito"@),
        (2u64, "Kazuki"@),
        (3u64, "Miku"@),
        (4u64, "Chisato"@),
        (5u64, "Yumi"@),
    ]
}

/// The script: who says what, in the order in which it is said.
pub open spec fn script() -> Seq<(u64, Seq<char>)> {
    seq![
        (1u64, "Hello everyone!"@),
        (2u64, "Hi!, how are you?"@),
        (1u64, "I'm good, thanks for asking!"@),
        (3u64, "Hello folks, what are we discussing today?"@),
        (4u64, "Just catching up, Charlie."@),
        (5u64, "Let's talk about Rust programming."@),
    ]
}

/// The index of the first of `users` at or after `from` that has the id
/// `id`, or the number of users if there is none.
pub open spec fn first_with_id(users: Seq<UserView>, id: u64, from: int) -> int
    decreases users.len() - from,
{
    if from >= users.len() {
        users.len() as int
    } else if users[from].id == id {
        from
    } else {
        first_with_id(users, id, from + 1)
    }
}

/// Whether one of `users` has the id `id`.
pub open spec fn has_user(users: Seq<UserView>, id: u64) -> bool {
    0 <= first_with_id(users, id, 0) < users.len()
}

/// The message at `position` of the script when `users` are the senders
/// and the time is `timestamp`. It carries the name of the first user that
/// has the sender's id.
pub open spec fn scripted_message(users: Seq<UserView>, position: int, timestamp: u64) -> MessageView {
    let (sender_id, content) = script()[position];
    MessageView {
        sender_id,
        sender_name: users[first_with_id(users, sender_id, 0)].name,
        content,
        timestamp,
    }
}

/// One turn of the producer.
#[derive(Debug, PartialEq, Eq)]
pub enum SimulationStep {
    /// A message went to the log: `line` shows it, and `next` is the
    /// position to go on from after a pause.
    Posted { line: String, next: usize },
    /// The script is at its end.
    Finished,
}

/// The producer of simulated messages.
pub struct ChatSimulator {
    users: Vec<User>,
}

/// The sender and the content at `position` of the script.
fn script_entry(position: usize) -> (entry: (u64, &'static str))
    requires
        position < SCRIPT_LEN,
    ensures
        entry.0 == script()[position as int].0,
        entry.1@ == script()[position as int].1,
{
    match position {
        0 => (1, "Hello everyone!"),
        1 => (2, "Hi!, how are you?"),
        2 => (1, "I'm good, thanks for asking!"),
        3 => (3, "Hello folks, what are we discussing today?"),
        4 => (4, "Just catching up, Charlie."),
        _ => (5, "Let's talk about Rust programming."),
    }
}

impl ChatSimulator {
    /// The simulated users, in the order in which they are searched.
    pub closed spec fn users(&self) -> Seq<UserView> {
        self.users.deep_view()
    }

    /// Every sender of the script is one of the users.
    pub open spec fn well_formed(&self) -> bool {
        forall|position: int|
            0 <= position < script().len() ==> has_user(
                self.users(),
                #[trigger] script()[position].0,
            )
    }

    /// A producer with the whole cast; each user is created now.
    pub fn new() -> (simulator: Self)
        ensures
            simulator.well_formed(),
            simulator.users().len() == cast().len(),
            forall|i: int|
                0 <= i < cast().len() ==> {
                    &&& (#[trigger] simulator.users()[i]).id == cast()[i].0
                    &&& simulator.users()[i].name == cast()[i].1
                },
    {
        let mut users: Vec<User> = Vec::new();
        users.push(User::new(1, String::from_str("Akito")));
        users.push(User::new(2, String::from_str("Kazuki")));
        users.push(User::new(3, String::from_str("Miku")));
        users.push(User::new(4, String::from_str("Chisato")));
        users.push(User::new(5, String::from_str("Yumi")));
        let simulator = ChatSimulator { users };
        proof {
            reveal_with_fuel(first_with_id, 6);
        }
        simulator
    }

    /// The first user with the id `id`, if there is one.
    pub fn find_user(&self, id: u64) -> (found: Option<&User>)
        ensures
            match found {
                Some(user) => has_user(self.users(), id) && user@ == self.users()[first_with_id(
                    self.users(),
                    id,
                    0,
                )],
                None => !has_user(self.users(), id),
            },
    {
        let mut i: usize = 0;
        while i < self.users.len()
            invariant
                i <= self.users.len(),
                first_with_id(self.users(), id, 0) == first_with_id(self.users(), id, i as int),
            decreases self.users.len() - i,
        {
            if self.users[i].id == id {
                return Some(&self.users[i]);
            }
            i += 1;
        }
        None
    }

    /// The message at `position` of the script, stamped with `timestamp`,
    /// or nothing once the script is at its end.
    pub fn message_at(&self, position: usize, timestamp: u64) -> (message: Option<Message>)
        requires
            self.well_formed(),
        ensures
            match message {
                Some(message) => position < script().len() && message@ == scripted_message(
                    self.users(),
                    position as int,
                    timestamp,
                ),
                None => position >= script().len(),
            },
    {
        if position >= SCRIPT_LEN {
            return None;
        }
        let (sender_id, content) = script_entry(position);
        match self.find_user(sender_id) {
            Some(user) => Some(
                Message::with_timestamp(
                    sender_id,
                    user.name.clone(),
                    String::from_str(content),
                    timestamp,
                ),
            ),
            None => None,
        }
    }

    /// One turn of the producer: builds the message at `position` of the
    /// script, stamps it with the current time and appends it to `log`.
    pub fn step(&self, log: &SharedLog, position: usize) -> (outcome: Result<
        SimulationStep,
        LogError,
    >)
        requires
            self.well_formed(),
        ensures
            position >= script().len() ==> outcome == Ok::<SimulationStep, LogError>(
                SimulationStep::Finished,
            ),
            position < script().len() ==> match outcome {
                Ok(SimulationStep::Posted { line, next }) => next == position + 1 && exists|
                    timestamp: u64,
                |
                    line@ == message_line(
                        scripted_message(self.users(), position as int, timestamp),
                    ),
                Ok(SimulationStep::Finished) => false,
                Err(_) => true,
            },
    {
        match self.message_at(position, unix_seconds()) {
            Some(message) => {
                let line = render_message(&message);
                match log.append(message) {
                    Ok(()) => Ok(SimulationStep::Posted { line, next: position + 1 }),
                    Err(error) => Err(error),
                }
            },
            None => Ok(SimulationStep::Finished),
        }
    }
}

} // verus!
