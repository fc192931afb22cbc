//! Appends by several callers at once. Every append takes effect in one
//! step under the lock, so a run of concurrent callers is an order of
//! turns: at each turn the next message of one caller goes to the end of
//! the log.

use crate::models::MessageView;
use vstd::multiset::Multiset;
use vstd::prelude::*;

verus! {

/// How many turns of `schedule` belong to `caller`.
pub open spec fn turns_of(schedule: Seq<int>, caller: int) -> nat
    decreases schedule.len(),
{
    if schedule.len() == 0 {
        0
    } else if schedule.last() == caller {
        turns_of(schedule.drop_last(), caller) + 1
    } else {
        turns_of(schedule.drop_last(), caller)
    }
}

/// The log after the turns of `schedule`, starting from the empty log:
/// at each turn the caller named appends the next of its messages.
pub open spec fn replay(callers: Seq<Seq<MessageView>>, schedule: Seq<int>) -> Seq<MessageView>
    decreases schedule.len(),
{
    if schedule.len() == 0 {
        Seq::empty()
    } else {
        let earlier = schedule.drop_last();
        let caller = schedule.last();
        replay(callers, earlier).push(callers[caller][turns_of(earlier, caller) as int])
    }
}

/// Whether `schedule` gives turns to the callers only, and to none of them
/// more turns than it has messages.
pub open spec fn is_run(callers: Seq<Seq<MessageView>>, schedule: Seq<int>) -> bool {
    &&& forall|turn: int|
        0 <= turn < schedule.len() ==> 0 <= #[trigger] schedule[turn] < callers.len()
    &&& forall|caller: int|
        0 <= caller < callers.len() ==> #[trigger] turns_of(schedule, caller)
            <= callers[caller].len()
}

/// Whether `schedule` is a run in which every caller has appended all of
/// its messages.
pub open spec fn is_complete_run(callers: Seq<Seq<MessageView>>, schedule: Seq<int>) -> bool {
    &&& is_run(callers, schedule)
    &&& forall|caller: int|
        0 <= caller < callers.len() ==> #[trigger] turns_of(schedule, caller)
            == callers[caller].len()
}

/// The messages that the first `count` callers have appended by the end of
/// `schedule`, each as often as it was appended.
pub open spec fn appended_by(
    callers: Seq<Seq<MessageView>>,
    schedule: Seq<int>,
    count: int,
) -> Multiset<MessageView>
    decreases count,
{
    if count <= 0 {
        Multiset::empty()
    } else {
        appended_by(callers, schedule, count - 1).add(
            callers[count - 1].take(turns_of(schedule, count - 1) as int).to_multiset(),
        )
    }
}

/// Every message of every caller, each as often as the callers hold it.
pub open spec fn all_messages(callers: Seq<Seq<MessageView>>) -> Multiset<MessageView>
    decreases callers.len(),
{
    if callers.len() == 0 {
        Multiset::empty()
    } else {
        all_messages(callers.drop_last()).add(callers.last().to_multiset())
    }
}

/// The number of messages that the callers hold together.
pub open spec fn message_count(callers: Seq<Seq<MessageView>>) -> nat
    decreases callers.len(),
{
    if callers.len() == 0 {
        0
    } else {
        message_count(callers.drop_last()) + callers.last().len()
    }
}

/// Every turn appends one message.
proof fn lemma_replay_len(callers: Seq<Seq<MessageView>>, schedule: Seq<int>)
    ensures
        replay(callers, schedule).len() == schedule.len(),
    decreases schedule.len(),
{
    if schedule.len() > 0 {
        lemma_replay_len(callers, schedule.drop_last());
    }
}

/// A run without its last turn is a run.
proof fn lemma_run_without_last_turn(callers: Seq<Seq<MessageView>>, schedule: Seq<int>)
    requires
        is_run(callers, schedule),
        schedule.len() > 0,
    ensures
        is_run(callers, schedule.drop_last()),
        turns_of(schedule.drop_last(), schedule.last()) < callers[schedule.last()].len(),
{
    let earlier = schedule.drop_last();
    assert forall|caller: int| 0 <= caller < callers.len() implies #[trigger] turns_of(
        earlier,
        caller,
    ) <= callers[caller].len() by {
        assert(turns_of(schedule, caller) <= callers[caller].len());
    }
    assert(turns_of(schedule, schedule.last()) <= callers[schedule.last()].len());
}

/// One more turn adds the message of that turn to what its caller has
/// appended, and nothing to what the others have.
proof fn lemma_turn_appends_one(callers: Seq<Seq<MessageView>>, schedule: Seq<int>, count: int)
    requires
        is_run(callers, schedule),
        schedule.len() > 0,
        0 <= count <= callers.len(),
    ensures
        appended_by(callers, schedule, count) == if schedule.last() < count {
            appended_by(callers, schedule.drop_last(), count).insert(
                callers[schedule.last()][turns_of(schedule.drop_last(), schedule.last()) as int],
            )
        } else {
            appended_by(callers, schedule.drop_last(), count)
        },
    decreases count,
{
    broadcast use vstd::seq_lib::group_to_multiset_ensures;

    let earlier = schedule.drop_last();
    let caller = schedule.last();
    lemma_run_without_last_turn(callers, schedule);
    if count > 0 {
        lemma_turn_appends_one(callers, schedule, count - 1);
        if count - 1 == caller {
            let turn = turns_of(earlier, caller) as int;
            assert(callers[caller].take(turn + 1) == callers[caller].take(turn).push(
                callers[caller][turn],
            ));
        }
    }
}

/// After a run the log holds what the callers have appended so far: each
/// message once for each time it was appended, and nothing else.
pub proof fn lemma_run_keeps_every_append(callers: Seq<Seq<MessageView>>, schedule: Seq<int>)
    requires
        is_run(callers, schedule),
    ensures
        replay(callers, schedule).to_multiset() == appended_by(
            callers,
            schedule,
            callers.len() as int,
        ),
    decreases schedule.len(),
{
    broadcast use vstd::seq_lib::group_to_multiset_ensures;

    if schedule.len() == 0 {
        lemma_nothing_appended(callers, schedule, callers.len() as int);
    } else {
        lemma_run_without_last_turn(callers, schedule);
        lemma_run_keeps_every_append(callers, schedule.drop_last());
        lemma_turn_appends_one(callers, schedule, callers.len() as int);
    }
}

/// Before the first turn nobody has appended anything.
proof fn lemma_nothing_appended(callers: Seq<Seq<MessageView>>, schedule: Seq<int>, count: int)
    requires
        schedule.len() == 0,
        0 <= count <= callers.len(),
    ensures
        appended_by(callers, schedule, count) == Multiset::<MessageView>::empty(),
    decreases count,
{
    broadcast use vstd::seq_lib::group_to_multiset_ensures;

    if count > 0 {
        lemma_nothing_appended(callers, schedule, count - 1);
    }
}

/// Once every caller has appended all of its messages, what the callers
/// have appended is every message of every caller.
proof fn lemma_complete_run_appends_all(
    callers: Seq<Seq<MessageView>>,
    schedule: Seq<int>,
    count: int,
)
    requires
        is_complete_run(callers, schedule),
        0 <= count <= callers.len(),
    ensures
        appended_by(callers, schedule, count) == all_messages(callers.take(count)),
        appended_by(callers, schedule, count).len() == message_count(callers.take(count)),
    decreases count,
{
    broadcast use vstd::seq_lib::group_to_multiset_ensures;

    if count > 0 {
        lemma_complete_run_appends_all(callers, schedule, count - 1);
        let last = callers[count - 1];
        assert(callers.take(count).drop_last() == callers.take(count - 1));
        assert(last.take(last.len() as int) == last);
    }
}

/// When several callers append at once and all have finished, the log
/// holds exactly the messages that were appended: every message of every
/// caller, each once for each time it was appended, none lost and none
/// added, whatever the order in which the appends took effect.
pub proof fn lemma_concurrent_appends_are_all_kept(
    callers: Seq<Seq<MessageView>>,
    schedule: Seq<int>,
)
    requires
        is_complete_run(callers, schedule),
    ensures
        replay(callers, schedule).to_multiset() == all_messages(callers),
        replay(callers, schedule).len() == message_count(callers),
{
    broadcast use vstd::seq_lib::group_to_multiset_ensures;

    lemma_run_keeps_every_append(callers, schedule);
    lemma_complete_run_appends_all(callers, schedule, callers.len() as int);
    lemma_replay_len(callers, schedule);
    assert(callers.take(callers.len() as int) == callers);
}

/// The turns of `schedule` that belong to `caller`, in rising order.
pub open spec fn turn_positions(schedule: Seq<int>, caller: int) -> Seq<int>
    decreases schedule.len(),
{
    if schedule.len() == 0 {
        Seq::empty()
    } else if schedule.last() == caller {
        turn_positions(schedule.drop_last(), caller).push(schedule.len() - 1)
    } else {
        turn_positions(schedule.drop_last(), caller)
    }
}

/// A later turn leaves what earlier turns appended where it is.
proof fn lemma_replay_grows(callers: Seq<Seq<MessageView>>, schedule: Seq<int>, turn: int)
    requires
        0 <= turn < schedule.len() - 1,
    ensures
        replay(callers, schedule)[turn] == replay(callers, schedule.drop_last())[turn],
{
    lemma_replay_len(callers, schedule.drop_last());
}

/// The messages of one caller stand in the log in the order in which the
/// caller appended them, whatever the other callers did in between: the
/// caller's turns rise, and the log holds the caller's first message at
/// its first turn, the second at its second turn, and so on.
pub proof fn lemma_each_caller_keeps_its_order(
    callers: Seq<Seq<MessageView>>,
    schedule: Seq<int>,
    caller: int,
)
    requires
        is_run(callers, schedule),
        0 <= caller < callers.len(),
    ensures
        turn_positions(schedule, caller).len() == turns_of(schedule, caller),
        forall|k: int|
            0 <= k < turn_positions(schedule, caller).len() ==> {
                &&& 0 <= #[trigger] turn_positions(schedule, caller)[k] < schedule.len()
                &&& replay(callers, schedule)[turn_positions(schedule, caller)[k]]
                    == callers[caller][k]
            },
        forall|j: int, k: int|
            0 <= j < k < turn_positions(schedule, caller).len() ==> #[trigger] turn_positions(
                schedule,
                caller,
            )[j] < #[trigger] turn_positions(schedule, caller)[k],
    decreases schedule.len(),
{
    let positions = turn_positions(schedule, caller);
    if schedule.len() > 0 {
        let earlier = schedule.drop_last();
        let before = turn_positions(earlier, caller);
        lemma_run_without_last_turn(callers, schedule);
        lemma_each_caller_keeps_its_order(callers, earlier, caller);
        lemma_replay_len(callers, schedule);
        assert forall|k: int| 0 <= k < positions.len() implies {
            &&& 0 <= #[trigger] positions[k] < schedule.len()
            &&& replay(callers, schedule)[positions[k]] == callers[caller][k]
        } by {
            if k < before.len() {
                lemma_replay_grows(callers, schedule, before[k]);
            }
        }
    }
}

} // verus!
