use crate::linux::filter::{
    fits, initial_state, next, next_ready, Action, FilterError, FilterState, GrabStatus, Phase,
    Reply,
};
use crate::linux::watch::{source_of, watch_of_device, watch_of_nothing, Source};
use vstd::prelude::*;

verus! {

/// The state that a loop reaches from `s` by a run of replies.
pub open spec fn run<E, X>(s: FilterState, replies: Seq<Reply<E, X>>) -> FilterState
    decreases replies.len(),
{
    if replies.len() == 0 {
        s
    } else {
        next(run(s, replies.drop_last()), replies.last()).0
    }
}

/// What a loop does in answer to each of a run of replies.
pub open spec fn actions<E, X>(s: FilterState, replies: Seq<Reply<E, X>>) -> Seq<Action<E, X>>
    decreases replies.len(),
{
    if replies.len() == 0 {
        seq![]
    } else {
        actions(s, replies.drop_last()).push(
            next(run(s, replies.drop_last()), replies.last()).1,
        )
    }
}

/// Whether every reply of a run fits the action that it answers.
pub open spec fn all_fit<E, X>(s: FilterState, replies: Seq<Reply<E, X>>) -> bool
    decreases replies.len(),
{
    replies.len() > 0 ==> {
        &&& all_fit(s, replies.drop_last())
        &&& fits(run(s, replies.drop_last()), replies.last())
    }
}

/// The writes among the actions, in their order: the device and the event of each.
pub open spec fn writes<E, X>(actions: Seq<Action<E, X>>) -> Seq<(usize, E)>
    decreases actions.len(),
{
    if actions.len() == 0 {
        seq![]
    } else {
        let before = writes(actions.drop_last());
        match actions.last() {
            Action::Write { device, event } => before.push((device, event)),
            _ => before,
        }
    }
}

/// The events that are given to the filter, in their order.
pub open spec fn filtered<E, X>(actions: Seq<Action<E, X>>) -> Seq<E>
    decreases actions.len(),
{
    if actions.len() == 0 {
        seq![]
    } else {
        let before = filtered(actions.drop_last());
        match actions.last() {
            Action::Filter { event } => before.push(event),
            _ => before,
        }
    }
}

/// The events that were read from the devices, in their order.
pub open spec fn events_read<E, X>(replies: Seq<Reply<E, X>>) -> Seq<E>
    decreases replies.len(),
{
    if replies.len() == 0 {
        seq![]
    } else {
        let before = events_read(replies.drop_last());
        match replies.last() {
            Reply::Event(event) => before.push(event),
            _ => before,
        }
    }
}

/// The events that the filter let through, in their order, each with the device whose event
/// it was asked about; left out are those of a device without an output.
pub open spec fn let_through<E, X>(s: FilterState, replies: Seq<Reply<E, X>>) -> Seq<(usize, E)>
    decreases replies.len(),
{
    if replies.len() == 0 {
        seq![]
    } else {
        let at = run(s, replies.drop_last());
        let before = let_through(s, replies.drop_last());
        match (at.phase, replies.last()) {
            (Phase::Filtering { device }, Reply::Filtered(Some(event), _)) if device
                < at.outputs => before.push((device, event)),
            _ => before,
        }
    }
}

/// Every state that a loop reaches is a valid one.
pub proof fn law_runs_stay_valid<E, X>(s: FilterState, replies: Seq<Reply<E, X>>)
    requires
        s.inv(),
        all_fit(s, replies),
    ensures
        run(s, replies).inv(),
    decreases replies.len(),
{
    if replies.len() > 0 {
        law_runs_stay_valid(s, replies.drop_last());
    }
}

/// What is written is what the filter let through, event by event and in its order.
pub proof fn law_writes_are_what_was_let_through<E, X>(s: FilterState, replies: Seq<Reply<E, X>>)
    requires
        s.inv(),
        all_fit(s, replies),
    ensures
        writes(actions(s, replies)) == let_through(s, replies),
    decreases replies.len(),
{
    if replies.len() > 0 {
        law_writes_are_what_was_let_through(s, replies.drop_last());
        assert(actions(s, replies).drop_last() =~= actions(s, replies.drop_last()));
    }
}

/// An event is written to the output of the device that it came from: right before a write the
/// filter was given what was read, and right before that the same device was read.
pub proof fn law_writes_go_where_events_came_from<E, X>(replies: Seq<Reply<E, X>>)
    requires
        all_fit(initial_state(), replies),
    ensures
        actions(initial_state(), replies).len() == replies.len(),
        forall|i: int|
            0 <= i < replies.len() ==> (#[trigger] actions(
                initial_state(),
                replies,
            )[i] matches Action::Write { device, event } ==> write_is_due(
                replies,
                actions(initial_state(), replies),
                i,
                device,
                event,
            )),
    decreases replies.len(),
{
    if replies.len() > 0 {
        let before = replies.drop_last();
        let done = actions(initial_state(), replies);
        law_writes_go_where_events_came_from(before);
        lemma_filtering_follows_reading(before);
        assert forall|i: int| 0 <= i < replies.len() implies (#[trigger] done[
            i
        ] matches Action::Write { device, event } ==> write_is_due(
            replies,
            done,
            i,
            device,
            event,
        )) by {
            if i < before.len() {
                assert(done[i] == actions(initial_state(), before)[i]);
                assert(replies[i] == before[i]);
                if i >= 2 {
                    assert(replies[i - 1] == before[i - 1]);
                    assert(done[i - 1] == actions(initial_state(), before)[i - 1]);
                    assert(done[i - 2] == actions(initial_state(), before)[i - 2]);
                }
            }
        }
    }
}

/// Whether the write of an event to a device, as the action at a position, follows the reading
/// of that device and the filtering of what was read.
pub open spec fn write_is_due<E, X>(
    replies: Seq<Reply<E, X>>,
    actions: Seq<Action<E, X>>,
    at: int,
    device: usize,
    event: E,
) -> bool {
    &&& at >= 2
    &&& actions[at - 2] == (Action::<E, X>::ReadEvent { device })
    &&& replies[at - 1] matches Reply::Event(read) && actions[at - 1] == (Action::<
        E,
        X,
    >::Filter { event: read })
    &&& replies[at] matches Reply::Filtered(Some(passed), _) && passed == event
}

/// What has been done when a loop reads a device or waits for the filter.
proof fn lemma_filtering_follows_reading<E, X>(replies: Seq<Reply<E, X>>)
    requires
        all_fit(initial_state(), replies),
    ensures
        ({
            let done = actions(initial_state(), replies);
            let last = done.len() - 1;
            &&& done.len() == replies.len()
            &&& match run(initial_state(), replies).phase {
                Phase::Reading { device } => done.len() > 0 && done[last] == (Action::<
                    E,
                    X,
                >::ReadEvent { device }),
                Phase::Filtering { device } => {
                    &&& done.len() > 1
                    &&& done[last - 1] == (Action::<E, X>::ReadEvent { device })
                    &&& replies[last] matches Reply::Event(read) && done[last] == (Action::<
                        E,
                        X,
                    >::Filter { event: read })
                },
                _ => true,
            }
        }),
    decreases replies.len(),
{
    if replies.len() > 0 {
        lemma_filtering_follows_reading(replies.drop_last());
    }
}

/// The filter sees every event that was read from a device, once and in order, and nothing
/// else.
pub proof fn law_every_event_is_filtered<E, X>(s: FilterState, replies: Seq<Reply<E, X>>)
    requires
        s.inv(),
        all_fit(s, replies),
    ensures
        filtered(actions(s, replies)) == events_read(replies),
    decreases replies.len(),
{
    if replies.len() > 0 {
        law_every_event_is_filtered(s, replies.drop_last());
        assert(actions(s, replies).drop_last() =~= actions(s, replies.drop_last()));
    }
}

/// Which states follow a stop: nothing is read or filtered from there on.
pub open spec fn is_stopping(s: FilterState) -> bool {
    match s.phase {
        Phase::Writing { device: _, status } => status == GrabStatus::Stop,
        Phase::Ungrabbing { .. } => true,
        Phase::Closing => true,
        Phase::Finished => true,
        _ => false,
    }
}

/// When the filter says to stop, the loop is stopping, whatever the filter made of the
/// event.
pub proof fn law_stop_is_heeded<E, X>(s: FilterState, event: Option<E>)
    requires
        s.inv(),
        s.phase is Filtering,
    ensures
        is_stopping(next(s, Reply::<E, X>::Filtered(event, GrabStatus::Stop)).0),
{
}

/// A loop that is stopping does nothing more but ungrab devices, close the watch and
/// return.
pub proof fn law_stopping_reads_nothing<E, X>(s: FilterState, replies: Seq<Reply<E, X>>)
    requires
        s.inv(),
        is_stopping(s),
        all_fit(s, replies),
    ensures
        is_stopping(run(s, replies)),
        forall|i: int|
            0 <= i < actions(s, replies).len() ==> {
                let action = #[trigger] actions(s, replies)[i];
                action is Ungrab || action is Close || action is Return
            },
    decreases replies.len(),
{
    if replies.len() > 0 {
        law_stopping_reads_nothing(s, replies.drop_last());
        let before = actions(s, replies.drop_last());
        assert forall|i: int| 0 <= i < actions(s, replies).len() implies {
            let action = #[trigger] actions(s, replies)[i];
            action is Ungrab || action is Close || action is Return
        } by {
            if i < before.len() {
                assert(before[i] == actions(s, replies)[i]);
            }
        }
    }
}

/// Shutting down ungrabs every device, in order and whether or not an ungrabbing fails, then
/// closes the watch, then returns: the ungrabbing of the first device having been asked for,
/// these are the answers to the replies that follow.
pub proof fn law_every_device_is_ungrabbed<E, X>(s: FilterState, replies: Seq<Reply<E, X>>)
    requires
        s.inv(),
        s.phase == (Phase::Ungrabbing { device: 0 }),
        all_fit(s, replies),
    ensures
        replies.len() <= s.devices + 1,
        actions(s, replies).len() == replies.len(),
        forall|i: int|
            0 <= i < replies.len() ==> #[trigger] actions(s, replies)[i] == (if i + 1 < s.devices {
                Action::<E, X>::Ungrab { device: (i + 1) as usize }
            } else if i + 1 == s.devices {
                Action::Close
            } else {
                match replies[i] {
                    Reply::Failed(error) => Action::Return(Err(FilterError::Io(error))),
                    _ => Action::Return(Ok(())),
                }
            }),
        run(s, replies) == s.at(
            if replies.len() < s.devices {
                Phase::Ungrabbing { device: replies.len() as usize }
            } else if replies.len() == s.devices {
                Phase::Closing
            } else {
                Phase::Finished
            },
        ),
    decreases replies.len(),
{
    if replies.len() > 0 {
        let before = replies.drop_last();
        law_every_device_is_ungrabbed(s, before);
        assert forall|i: int| 0 <= i < before.len() implies actions(s, replies)[i] == actions(
            s,
            before,
        )[i] && replies[i] == before[i] by {}
    }
}

/// Every device is grabbed, in order, before anything is waited for: the watch on the
/// directory having been asked for, these are the answers to the replies that follow, as
/// long as none of them is a failure.
pub proof fn law_every_device_is_grabbed<E, X>(s: FilterState, replies: Seq<Reply<E, X>>)
    requires
        s.inv(),
        s.phase == Phase::SettingUpInotify,
        all_fit(s, replies),
        replies.len() <= s.devices + 1,
        forall|i: int| 0 <= i < replies.len() ==> #[trigger] replies[i] is Done,
    ensures
        actions(s, replies).len() == replies.len(),
        forall|i: int|
            0 <= i < replies.len() ==> #[trigger] actions(s, replies)[i] == (if i < s.devices {
                Action::<E, X>::Grab { device: i as usize }
            } else {
                Action::Wait
            }),
        run(s, replies) == s.at(
            if replies.len() == 0 {
                Phase::SettingUpInotify
            } else if replies.len() <= s.devices {
                Phase::Grabbing { device: (replies.len() - 1) as usize }
            } else {
                Phase::Waiting
            },
        ),
    decreases replies.len(),
{
    if replies.len() > 0 {
        let before = replies.drop_last();
        assert forall|i: int| 0 <= i < before.len() implies #[trigger] before[i] is Done by {
            assert(before[i] == replies[i]);
        }
        law_every_device_is_grabbed(s, before);
        assert(replies[replies.len() - 1] is Done);
        assert forall|i: int| 0 <= i < before.len() implies actions(s, replies)[i] == actions(
            s,
            before,
        )[i] by {}
    }
}

/// Devices are never forgotten, and once they are set up no output is added: what the filter
/// lets through of a device that is plugged in later is written nowhere.
pub proof fn law_later_devices_have_no_output<E, X>(s: FilterState, replies: Seq<Reply<E, X>>)
    requires
        s.inv(),
        s.phase != Phase::SettingUpDevices,
        all_fit(s, replies),
    ensures
        run(s, replies).phase != Phase::SettingUpDevices,
        run(s, replies).devices >= s.devices,
        run(s, replies).outputs == s.outputs,
        forall|i: int|
            0 <= i < writes(actions(s, replies)).len() ==> {
                let device = (#[trigger] writes(actions(s, replies))[i]).0;
                device < s.outputs && device < s.devices
            },
    decreases replies.len(),
{
    if replies.len() > 0 {
        law_later_devices_have_no_output(s, replies.drop_last());
        law_runs_stay_valid(s, replies.drop_last());
        assert(actions(s, replies).drop_last() =~= actions(s, replies.drop_last()));
        let before = writes(actions(s, replies.drop_last()));
        assert forall|i: int| 0 <= i < writes(actions(s, replies)).len() implies (
        #[trigger] writes(actions(s, replies))[i]).0 < s.outputs by {
            if i < before.len() {
                assert(before[i] == writes(actions(s, replies))[i]);
            }
        }
    }
}

/// A new device is watched under the position that it gets, and that number is not taken
/// for the device directory. Once it is added, what is reported under that number has the
/// loop ask the new device.
pub proof fn law_added_device_is_found_again<E, X>(s: FilterState, reply: Reply<E, X>)
    requires
        s.inv(),
        fits(s, reply),
        next(s, reply).1 is AddDevice,
    ensures
        ({
            let (after, action) = next(s, reply);
            &&& action->AddDevice_watch == watch_of_device(after.devices as usize)
            &&& source_of(action->AddDevice_watch.data) == Source::Device(after.devices as usize)
            &&& next_ready::<E, X>(
                FilterState {
                    devices: after.devices + 1,
                    ready: seq![action->AddDevice_watch.data],
                    ..after
                },
            ).1 == Action::<E, X>::HasPending { device: after.devices as usize }
        }),
{
}

/// A failure ends the loop with the error that caused it, except that a device that cannot
/// be read is only watched no longer, and one that cannot be ungrabbed is passed over.
pub proof fn law_failures<E, X>(s: FilterState, error: X)
    requires
        s.inv(),
        fits(s, Reply::<E, X>::Failed(error)),
    ensures
        ({
            let (after, action) = next(s, Reply::<E, X>::Failed(error));
            match s.phase {
                Phase::Reading { device } => {
                    &&& action == Action::<E, X>::Unwatch { device, watch: watch_of_nothing() }
                    &&& after == s.at(Phase::Unwatching)
                },
                Phase::Ungrabbing { .. } => (after, action) == next(s, Reply::<E, X>::Done),
                _ => {
                    &&& action == Action::<E, X>::Return(Err(FilterError::Io(error)))
                    &&& after == s.at(Phase::Finished)
                },
            }
        }),
{
}

/// Seeing to a reported number, the loop gives up only if that number is neither the
/// directory's nor that of one of the devices.
pub proof fn law_only_unknown_devices_abort<E, X>(s: FilterState)
    requires
        s.inv(),
        next_ready::<E, X>(s).1 is Abort,
    ensures
        s.ready.len() > 0,
        source_of(s.ready[0]) matches Source::Device(device) && device >= s.devices,
{
}

/// Whether the filter said to stop.
pub open spec fn stop_was_said<E, X>(replies: Seq<Reply<E, X>>) -> bool {
    exists|i: int|
        0 <= i < replies.len() && (#[trigger] replies[i] matches Reply::Filtered(_, status)
            && status == GrabStatus::Stop)
}

/// Whether the actions end with the ungrabbing of the first `count` devices, in order.
pub open spec fn end_with_ungrabs<E, X>(actions: Seq<Action<E, X>>, count: nat) -> bool {
    &&& actions.len() >= count
    &&& forall|i: int|
        actions.len() - count <= i < actions.len() ==> #[trigger] actions[i] == (Action::<
            E,
            X,
        >::Ungrab { device: (i - (actions.len() - count)) as usize })
}

/// What has been done when a loop is in the states that lead to its end.
spec fn end_is_earned<E, X>(replies: Seq<Reply<E, X>>) -> bool {
    let s = run(initial_state(), replies);
    let done = actions(initial_state(), replies);
    match s.phase {
        Phase::Writing { device: _, status } => status == GrabStatus::Stop ==> stop_was_said(
            replies,
        ),
        Phase::Ungrabbing { device } => stop_was_said(replies) && end_with_ungrabs(
            done,
            device as nat + 1,
        ),
        Phase::Closing => stop_was_said(replies) && done.len() > 0 && done.last() is Close
            && end_with_ungrabs(done.drop_last(), s.devices),
        _ => true,
    }
}

proof fn lemma_end_is_earned<E, X>(replies: Seq<Reply<E, X>>)
    requires
        all_fit(initial_state(), replies),
    ensures
        end_is_earned(replies),
    decreases replies.len(),
{
    if replies.len() > 0 {
        let before = replies.drop_last();
        let reply = replies.last();
        let s = run(initial_state(), before);
        lemma_end_is_earned(before);
        law_runs_stay_valid(initial_state(), before);
        let old_done = actions(initial_state(), before);
        let done = actions(initial_state(), replies);
        assert(done.drop_last() =~= old_done);
        if stop_was_said(before) {
            let i = choose|i: int|
                0 <= i < before.len() && (#[trigger] before[i] matches Reply::Filtered(_, status)
                    && status == GrabStatus::Stop);
            assert(replies[i] == before[i]);
            assert(stop_was_said(replies));
        }
        if let Reply::Filtered(_, status) = reply {
            if status == GrabStatus::Stop {
                assert(replies[replies.len() - 1] == reply);
                assert(stop_was_said(replies));
            }
        }
    }
}

/// The loop returns without an error only after the filter said to stop, and then its last
/// deeds were to ungrab every device, in order, and to close the watch.
pub proof fn law_success_follows_a_stop<E, X>(replies: Seq<Reply<E, X>>)
    requires
        all_fit(initial_state(), replies),
        replies.len() > 0,
        actions(initial_state(), replies).last() == Action::<E, X>::Return(Ok(())),
    ensures
        stop_was_said(replies),
        ({
            let closed = actions(initial_state(), replies).drop_last();
            let devices = run(initial_state(), replies).devices;
            &&& closed.len() > 0
            &&& closed.last() is Close
            &&& end_with_ungrabs(closed.drop_last(), devices)
        }),
{
    let before = replies.drop_last();
    lemma_end_is_earned(before);
    law_runs_stay_valid(initial_state(), before);
    assert(actions(initial_state(), replies).drop_last() =~= actions(initial_state(), before));
    assert(run(initial_state(), before).phase is Closing);
    let i = choose|i: int|
        0 <= i < before.len() && (#[trigger] before[i] matches Reply::Filtered(_, status) && status
            == GrabStatus::Stop);
    assert(replies[i] == before[i]);
}

} // verus!
