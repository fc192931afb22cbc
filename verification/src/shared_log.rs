//! One message log shared by several threads, every access under one lock.

use crate::message_log::MessageLog;
use crate::message_log::keyword_filter;
use crate::message_log::sender_filter;
use crate::models::Message;
use crate::models::ChatEvent;
use crate::models::MessageView;
use crate::router::EventOutcome;
use crate::router::event_lines;
use crate::router::event_uses_log;
use crate::router::route_event;
use crate::router::uses_log;
use std::ops::Deref;
use std::ops::DerefMut;
use std::sync::Arc;
use std::sync::Mutex;
use std::sync::MutexGuard;
use std::sync::PoisonError;
use vstd::prelude::*;

verus! {

/// `std::sync::Mutex`, a lock around one value. Nothing of the value is
/// visible through the mutex itself.
#[verifier::external_type_specification]
#[verifier::external_body]
#[verifier::reject_recursive_types(T)]
pub struct ExMutex<T: ?Sized>(Mutex<T>);

/// `std::sync::MutexGuard`, which holds the lock until it is dropped.
#[verifier::external_type_specification]
#[verifier::external_body]
#[verifier::reject_recursive_types(T)]
pub struct ExMutexGuard<'a, T: ?Sized + 'a>(MutexGuard<'a, T>);

/// `std::sync::PoisonError`, the report that a holder of the lock
/// panicked.
#[verifier::external_type_specification]
#[verifier::external_body]
#[verifier::reject_recursive_types(T)]
pub struct ExPoisonError<T>(PoisonError<T>);

/// `Mutex::new` makes an unlocked mutex around `value`.
pub assume_specification<T>[ Mutex::<T>::new ](value: T) -> (mutex: Mutex<T>);

/// `Mutex::lock` waits for the lock and hands out its guard, or reports that
/// an earlier holder panicked. Which of the two comes back, and what the
/// guarded value is by then, depends on the other threads: nothing is
/// claimed of either. A thread that holds the lock must not ask for it
/// again; here every guard is dropped before the operation that took it
/// returns, and no operation calls another while it holds one.
pub assume_specification<'a, T: ?Sized>[ Mutex::<T>::lock ](mutex: &'a Mutex<T>) -> (outcome:
    Result<MutexGuard<'a, T>, PoisonError<MutexGuard<'a, T>>>);

/// Reading through a guard reaches the guarded value; nothing is claimed of
/// what it holds.
pub assume_specification<'a, 'b, T: ?Sized>[ <MutexGuard<'a, T> as Deref>::deref ](
    guard: &'b MutexGuard<'a, T>,
) -> (value: &'b T);

/// Writing through a guard reaches the guarded value; nothing is claimed of
/// what it holds.
pub assume_specification<'a, 'b, T: ?Sized>[ <MutexGuard<'a, T> as DerefMut>::deref_mut ](
    guard: &'b mut MutexGuard<'a, T>,
) -> (value: &'b mut T);

/// `Arc::clone` makes another handle to the same allocation.
#[verifier::external_body]
fn share(inner: &Arc<Mutex<MessageLog>>) -> (handle: Arc<Mutex<MessageLog>>)
    ensures
        handle == *inner,
{
    Arc::clone(inner)
}

/// Why an operation on a [`SharedLog`] did not take place.
#[derive(Debug, Clone, Copy, PartialEq, Eq)]
pub enum LogError {
    /// A thread panicked while it held the lock, so the log can no longer
    /// be trusted.
    Poisoned,
}

/// What a lock handed out, or [`LogError::Poisoned`] where it reported poison.
pub fn unpoisoned<T>(outcome: Result<T, PoisonError<T>>) -> (guard: Result<T, LogError>)
    ensures
        match outcome {
            Ok(value) => guard == Ok::<T, LogError>(value),
            Err(_) => guard == Err::<T, LogError>(LogError::Poisoned),
        },
{
    match outcome {
        Ok(value) => Ok(value),
        Err(_) => Err(LogError::Poisoned),
    }
}

/// A handle to a [`MessageLog`] that several threads share. Each operation
/// takes the lock, runs the operation of the same name on the log, and
/// releases the lock: an append takes effect as a whole, and a read sees
/// the log as it stood at one instant.
///
/// What the log holds lies behind the lock and changes while the handle
/// stays the same, so no contract here speaks of it. What an operation
/// does to the log it finds is stated on [`MessageLog`]; what is made of
/// the lock's answer is stated on [`unpoisoned`]; [`crate::history`]
/// states what holds of the log after appends from several threads.
pub struct SharedLog {
    inner: Arc<Mutex<MessageLog>>,
}

impl Clone for SharedLog {
    /// Another handle to the same log.
    fn clone(&self) -> (handle: Self)
        ensures
            handle == *self,
    {
        SharedLog { inner: share(&self.inner) }
    }
}

impl SharedLog {
    /// A handle to a new log, made around [`MessageLog::new`].
    pub fn new() -> (handle: Self) {
        SharedLog { inner: Arc::new(Mutex::new(MessageLog::new())) }
    }

    /// Adds `message` at the end of the log, in one step under the lock:
    /// [`MessageLog::append`] on the log that the lock hands out. Fails
    /// only where the lock reports poison.
    pub fn append(&self, message: Message) -> (outcome: Result<(), LogError>) {
        match unpoisoned(self.inner.lock()) {
            Ok(mut guard) => {
                let log: &mut MessageLog = guard.deref_mut();
                log.append(message);
                Ok(())
            },
            Err(error) => Err(error),
        }
    }

    /// A copy of the log as it stands at one instant: [`MessageLog::all`]
    /// on the log that the lock hands out. Fails only where the lock
    /// reports poison.
    pub fn all(&self) -> (outcome: Result<Vec<Message>, LogError>) {
        match unpoisoned(self.inner.lock()) {
            Ok(guard) => {
                let log: &MessageLog = guard.deref();
                Ok(log.all())
            },
            Err(error) => Err(error),
        }
    }

    /// The messages that `sender_id` sent, selected from the log as it
    /// stands at one instant: [`MessageLog::filter_by_sender`] on the log
    /// that the lock hands out. Fails only where the lock reports poison.
    pub fn filter_by_sender(&self, sender_id: u64) -> (outcome: Result<Vec<Message>, LogError>)
        ensures
            outcome matches Ok(messages) ==> exists|snapshot: Seq<MessageView>|
                messages.deep_view() == sender_filter(snapshot, sender_id),
    {
        match unpoisoned(self.inner.lock()) {
            Ok(guard) => {
                let log: &MessageLog = guard.deref();
                Ok(log.filter_by_sender(sender_id))
            },
            Err(error) => Err(error),
        }
    }

    /// The messages that hold `keyword`, letter case ignored, selected from
    /// the log as it stands at one instant: [`MessageLog::filter_by_keyword`]
    /// on the log that the lock hands out. Fails only where the lock
    /// reports poison.
    pub fn filter_by_keyword(&self, keyword: &str) -> (outcome: Result<Vec<Message>, LogError>)
        ensures
            outcome matches Ok(messages) ==> exists|snapshot: Seq<MessageView>|
                messages.deep_view() == keyword_filter(snapshot, keyword@),
    {
        match unpoisoned(self.inner.lock()) {
            Ok(guard) => {
                let log: &MessageLog = guard.deref();
                Ok(log.filter_by_keyword(keyword))
            },
            Err(error) => Err(error),
        }
    }

    /// Carries out `event` and says what to show for it. An event that
    /// reads or changes the log is carried out under the lock, on the log
    /// as it stands at one instant; any other event leaves the lock alone
    /// and cannot fail.
    pub(crate) fn route(&self, event: ChatEvent) -> (outcome: Result<EventOutcome, LogError>)
        ensures
            !uses_log(event@) ==> outcome is Ok,
            outcome matches Ok(shown) ==> {
                &&& shown.exit == (event@ is Exit)
                &&& exists|snapshot: Seq<MessageView>|
                    shown.lines.deep_view() == event_lines(snapshot, event@)
            },
    {
        if event_uses_log(&event) {
            match unpoisoned(self.inner.lock()) {
                Ok(mut guard) => {
                    let log: &mut MessageLog = guard.deref_mut();
                    Ok(route_event(log, event))
                },
                Err(error) => Err(error),
            }
        } else {
            let mut untouched = MessageLog::new();
            Ok(route_event(&mut untouched, event))
        }
    }
}

} // verus!
