//! A message board whose log is shared between a command loop and a
//! background producer.
//!
//! The log itself is [`message_log::MessageLog`]: an append-only sequence
//! of messages with two searches, by sender and by keyword. Its contracts
//! say exactly what each operation returns. [`shared_log::SharedLog`] puts
//! one such log behind a lock, so that several threads can append and read
//! at once; [`history`] states what then holds of the log, whatever the
//! order in which the appends took effect.
//!
//! Around the log stand the parts that feed it: [`command`] reads a line
//! of input as an event, [`router`] carries an event out and renders what
//! to show, [`chat_engine::ChatEngine`] does so on the shared log, and
//! [`simulator::ChatSimulator`] produces the messages of a fixed script.
//! [`user_manager::UserManager`] keeps the users. [`text`], [`decimal`] and
//! [`matching`] hold the work on characters that the others need, and
//! [`clock`] reads the time.

pub mod chat_engine;
pub mod clock;
pub mod command;
pub mod decimal;
pub mod history;
pub mod matching;
pub mod message_log;
pub mod models;
pub mod router;
pub mod shared_log;
pub mod simulator;
pub mod text;
pub mod user_manager;
