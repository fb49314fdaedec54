use crate::linux::filter::{
    fits, initial_state, next, Action, Fault, FilterError, GrabStatus, Phase, Reply,
};
use crate::linux::filter_laws::{actions, all_fit, law_runs_stay_valid, run};
use crate::linux::watch::{law_announcing_masks, law_numbers_lead_to_sources, EpollEvent};
use vstd::prelude::*;

verus! {

/// What a loop asks for last, after a run of replies from its beginning on.
pub open spec fn asked<E, X>(replies: Seq<Reply<E, X>>) -> Action<E, X> {
    if replies.len() == 0 {
        Action::SetupDevices
    } else {
        actions(initial_state(), replies).last()
    }
}

/// How many devices a run of replies has added: the successes among the replies to an
/// `AddDevice`.
pub open spec fn added_devices<E, X>(replies: Seq<Reply<E, X>>) -> nat
    decreases replies.len(),
{
    if replies.len() == 0 {
        0
    } else {
        let before = replies.drop_last();
        added_devices(before) + if asked(before) is AddDevice && replies.last() is Done {
            1nat
        } else {
            0
        }
    }
}

/// How many devices there are after a run of replies: those that were opened at first and those
/// that were added.
pub open spec fn devices_now<E, X>(replies: Seq<Reply<E, X>>) -> nat {
    match replies[0] {
        Reply::Opened { devices, outputs: _ } => devices as nat + added_devices(replies),
        _ => 0,
    }
}

/// How many outputs there are: those that were opened at first.
pub open spec fn outputs_now<E, X>(replies: Seq<Reply<E, X>>) -> nat {
    match replies[0] {
        Reply::Opened { devices: _, outputs } => outputs as nat,
        _ => 0,
    }
}

/// The numbers that are still to be seen to after a run of replies: those of the last report,
/// without the ones that were taken up since. One is taken up whenever the directory is read, and
/// whenever a device is asked for a pending event for another reason than that one of its events
/// was just dealt with.
pub open spec fn reported<E, X>(replies: Seq<Reply<E, X>>) -> Seq<u64>
    decreases replies.len(),
{
    if replies.len() == 0 {
        seq![]
    } else {
        let before = replies.drop_last();
        let waiting = match replies.last() {
            Reply::Ready(ready) => ready@,
            _ => reported(before),
        };
        let dealt_with = replies.last() is Filtered || asked(before) is Write;
        match asked(replies) {
            Action::ReadDirectory => waiting.drop_first(),
            Action::HasPending { .. } if !dealt_with => waiting.drop_first(),
            Action::Abort(Fault::UnknownDevice { .. }) => waiting.drop_first(),
            _ => waiting,
        }
    }
}

/// The masks of the last reading of the directory.
pub open spec fn masks_read<E, X>(replies: Seq<Reply<E, X>>) -> Seq<u32>
    decreases replies.len(),
{
    if replies.len() == 0 {
        seq![]
    } else {
        match replies.last() {
            Reply::Announced(masks) => masks@,
            _ => masks_read(replies.drop_last()),
        }
    }
}

/// How what a loop asks for last, and what it was told, shows in its state.
spec fn shows<E, X>(replies: Seq<Reply<E, X>>) -> bool {
    let s = run(initial_state(), replies);
    &&& actions(initial_state(), replies).len() == replies.len()
    &&& s.inv()
    &&& s.announced.len() <= usize::MAX
    &&& s.announced == masks_read(replies)
    &&& !(asked(replies) is Return || asked(replies) is Abort) ==> s.ready == reported(replies)
    &&& s.phase is SettingUpDevices <==> replies.len() == 0
    &&& s.phase is SettingUpDevices || s.phase is Finished || (replies[0] is Opened && s.devices
        == devices_now(replies) && s.outputs == outputs_now(replies))
    &&& match asked(replies) {
        Action::SetupDevices => s.phase is SettingUpDevices,
        Action::SetupInotify { .. } => s.phase is SettingUpInotify,
        Action::Grab { device } => s.phase == (Phase::Grabbing { device }),
        Action::Wait => s.phase is Waiting,
        Action::ReadDirectory => s.phase is ReadingDirectory,
        Action::AddDevice { announced, .. } => s.phase is AddingDevice && s.added == announced,
        Action::HasPending { device } => s.phase == (Phase::Polling { device }),
        Action::ReadEvent { device } => s.phase == (Phase::Reading { device }),
        Action::Unwatch { .. } => s.phase is Unwatching,
        Action::Filter { .. } => replies.len() > 1 && (asked(
            replies.drop_last(),
        ) matches Action::ReadEvent { device } && s.phase == (Phase::Filtering { device })),
        Action::Write { device, .. } => replies.len() > 0 && (
        replies.last() matches Reply::Filtered(_, status) && s.phase == (Phase::Writing {
            device,
            status,
        })),
        Action::Ungrab { device } => s.phase == (Phase::Ungrabbing { device }),
        Action::Close => s.phase is Closing,
        Action::Return(_) => s.phase is Finished,
        Action::Abort(_) => s.phase is Finished,
    }
}

proof fn lemma_asked_is_latest<E, X>(replies: Seq<Reply<E, X>>)
    requires
        replies.len() > 0,
    ensures
        asked(replies) == next(run(initial_state(), replies.drop_last()), replies.last()).1,
        run(initial_state(), replies) == next(
            run(initial_state(), replies.drop_last()),
            replies.last(),
        ).0,
{
}

#[verifier::rlimit(60)]
proof fn lemma_shows<E, X>(replies: Seq<Reply<E, X>>)
    requires
        all_fit(initial_state(), replies),
    ensures
        shows(replies),
    decreases replies.len(),
{
    if replies.len() > 0 {
        let before = replies.drop_last();
        lemma_shows(before);
        lemma_asked_is_latest(replies);
        law_runs_stay_valid(initial_state(), replies);
        if before.len() > 0 {
            assert(before[0] == replies[0]);
        }
        if let Reply::Announced(masks) = replies.last() {
            assert(masks.len() <= usize::MAX);
        }
    }
}

/// The loop's devices and outputs are those that were opened: as many as the reply to the setting
/// up says, to which only devices are added. `n` is any number below that of the directory.
pub proof fn law_devices_and_outputs_are_those_opened<E, X>(replies: Seq<Reply<E, X>>, n: usize)
    requires
        all_fit(initial_state(), replies),
        replies.len() > 0,
        replies[0] == (Reply::<E, X>::Opened { devices: n, outputs: n }),
        n < u64::MAX,
    ensures
        run(initial_state(), replies).outputs == n,
        run(initial_state(), replies).devices == n + added_devices(replies),
    decreases replies.len(),
{
    let before = replies.drop_last();
    lemma_asked_is_latest(replies);
    lemma_shows(before);
    if before.len() > 0 {
        assert(before[0] == replies[0]);
        law_devices_and_outputs_are_those_opened(before, n);
    } else {
        assert(before =~= seq![]);
        assert(added_devices(before) == 0);
    }
}

/// The answer to the opening of the devices. With so many that no number is left for the directory
/// the loop fails. Otherwise it asks for a watch on `/dev/input` for created files, under the
/// highest number.
pub proof fn law_answer_to_opening<E, X>(n: usize)
    ensures
        ({
            let answer = asked(seq![Reply::<E, X>::Opened { devices: n, outputs: n }]);
            if n < u64::MAX {
                answer matches Action::SetupInotify { watch } && {
                    &&& watch.path@ == "/dev/input"@
                    &&& watch.mask == 0x100
                    &&& watch.event.events == 1
                    &&& watch.event.data == u64::MAX
                }
            } else {
                answer == Action::<E, X>::Return(Err(FilterError::TooManyDevices))
            }
        }),
{
    let replies = seq![Reply::<E, X>::Opened { devices: n, outputs: n }];
    lemma_asked_is_latest(replies);
    assert(replies.drop_last() =~= seq![]);
}

/// Devices are grabbed one after the other from the first to the last of those opened, and only
/// then is anything waited for.
pub proof fn law_answers_while_grabbing<E, X>(replies: Seq<Reply<E, X>>)
    requires
        all_fit(initial_state(), replies),
        replies.len() > 0,
        replies.last() is Done,
    ensures
        ({
            let opened = devices_now(replies);
            let answer = asked(replies);
            match asked(replies.drop_last()) {
                Action::SetupInotify { .. } => answer == (if opened > 0 {
                    Action::<E, X>::Grab { device: 0 }
                } else {
                    Action::Wait
                }),
                Action::Grab { device } => answer == (if device + 1 < opened {
                    Action::<E, X>::Grab { device: (device + 1) as usize }
                } else {
                    Action::Wait
                }),
                _ => true,
            }
        }),
{
    lemma_shows(replies.drop_last());
    lemma_shows(replies);
    lemma_asked_is_latest(replies);
    assert(replies.drop_last().len() > 0 ==> replies.drop_last()[0] == replies[0]);
}

/// A device that has an event pending is read, and no other; what was read is given to the filter
/// as it is. If it cannot be read, the same device is watched no longer.
pub proof fn law_answers_while_reading<E, X>(replies: Seq<Reply<E, X>>)
    requires
        all_fit(initial_state(), replies),
        replies.len() > 0,
    ensures
        match (asked(replies.drop_last()), replies.last()) {
            (Action::HasPending { device }, Reply::Pending(true)) => asked(replies) == (Action::<
                E,
                X,
            >::ReadEvent { device }),
            (Action::ReadEvent { device }, Reply::Event(event)) => asked(replies) == (Action::<
                E,
                X,
            >::Filter { event }),
            (Action::ReadEvent { device }, Reply::Failed(_)) => asked(replies) == (Action::<
                E,
                X,
            >::Unwatch { device, watch: EpollEvent { events: 0, data: 0 } }),
            _ => true,
        },
{
    lemma_shows(replies.drop_last());
    lemma_asked_is_latest(replies);
}

/// Every event that the filter lets through about a device that was there at first, whichever of
/// the `n` it is, is written to the output of that device, as the filter made it.
pub proof fn law_let_through_events_are_written<E, X>(
    replies: Seq<Reply<E, X>>,
    n: usize,
    device: usize,
    event: E,
    status: GrabStatus,
)
    requires
        all_fit(initial_state(), replies),
        replies.len() > 2,
        replies[0] == (Reply::<E, X>::Opened { devices: n, outputs: n }),
        n < u64::MAX,
        asked(replies.drop_last().drop_last()) == (Action::<E, X>::ReadEvent { device }),
        replies.last() == Reply::<E, X>::Filtered(Some(event), status),
        device < n,
    ensures
        asked(replies) == (Action::<E, X>::Write { device, event }),
{
    let before = replies.drop_last();
    assert(all_fit(initial_state(), before));
    lemma_shows(before.drop_last());
    lemma_shows(before);
    lemma_asked_is_latest(before);
    lemma_asked_is_latest(replies);
    assert(before[0] == replies[0]);
    law_devices_and_outputs_are_those_opened(before, n);
}

/// After an event was dealt with, that is after it was written, or right away if the filter kept it
/// or the device has no output, the loop asks the same device for another, or begins to ungrab
/// from the first device on if the filter said to stop.
pub proof fn law_answers_after_an_event<E, X>(replies: Seq<Reply<E, X>>)
    requires
        all_fit(initial_state(), replies),
        replies.len() > 0,
    ensures
        match (asked(replies.drop_last()), replies.last()) {
            (Action::Filter { .. }, Reply::Filtered(event, status)) => {
                &&& replies.len() > 2
                &&& asked(replies.drop_last().drop_last()) matches Action::ReadEvent { device } && (
                event is None || device >= outputs_now(replies) ==> asked(replies) == (match status {
                    GrabStatus::Continue => Action::<E, X>::HasPending { device },
                    GrabStatus::Stop => Action::Ungrab { device: 0 },
                }))
            },
            (Action::Write { device, event: _ }, Reply::Done) => {
                &&& replies.len() > 1
                &&& replies[replies.len() - 2] matches Reply::Filtered(_, status) && asked(replies)
                    == (match status {
                    GrabStatus::Continue => Action::<E, X>::HasPending { device },
                    GrabStatus::Stop => Action::Ungrab { device: 0 },
                })
            },
            _ => true,
        },
{
    let before = replies.drop_last();
    lemma_shows(before);
    lemma_asked_is_latest(replies);
    if before.len() > 0 {
        assert(before[0] == replies[0]);
        assert(before.last() == replies[replies.len() - 2]);
    }
}

/// Devices are ungrabbed one after the other up to the last one that there is, whatever came of
/// each; then the watch is closed, and when it is closed the loop returns.
pub proof fn law_answers_while_ending<E, X>(replies: Seq<Reply<E, X>>)
    requires
        all_fit(initial_state(), replies),
        replies.len() > 0,
    ensures
        match (asked(replies.drop_last()), replies.last()) {
            (Action::Ungrab { device }, _) => asked(replies) == (if device + 1 < devices_now(
                replies,
            ) {
                Action::<E, X>::Ungrab { device: (device + 1) as usize }
            } else {
                Action::Close
            }),
            (Action::Close, Reply::Done) => asked(replies) == Action::<E, X>::Return(Ok(())),
            _ => true,
        },
{
    lemma_shows(replies.drop_last());
    lemma_asked_is_latest(replies);
    assert(replies.drop_last().len() > 0 ==> replies.drop_last()[0] == replies[0]);
}

/// Whatever else fails, the loop returns with the error that caused it.
pub proof fn law_answer_to_failure<E, X>(replies: Seq<Reply<E, X>>, error: X)
    requires
        all_fit(initial_state(), replies),
        replies.len() > 0,
        replies.last() == Reply::<E, X>::Failed(error),
        !(asked(replies.drop_last()) is ReadEvent),
        !(asked(replies.drop_last()) is Ungrab),
    ensures
        asked(replies) == Action::<E, X>::Return(Err(FilterError::Io(error))),
{
    lemma_shows(replies.drop_last());
    lemma_asked_is_latest(replies);
}

/// Whether a reply leaves the loop free to take up the next reported number: a new report came, a
/// device has nothing more pending or is watched no longer, or every event of the directory was
/// seen to.
pub open spec fn is_free<E, X>(replies: Seq<Reply<E, X>>) -> bool {
    match (asked(replies.drop_last()), replies.last()) {
        (Action::Wait, Reply::Ready(_)) => true,
        (Action::HasPending { .. }, Reply::Pending(false)) => true,
        (Action::Unwatch { .. }, Reply::Done) => true,
        (Action::ReadDirectory, Reply::Announced(masks)) => masks@.len() == 0,
        (Action::AddDevice { announced, .. }, Reply::Done) => announced + 1 >= masks_read(
            replies,
        ).len(),
        _ => false,
    }
}

/// The reported numbers are taken up in their order, each once, and only when all are seen to is
/// anything waited for. The highest number has the directory read; any other has the device of that
/// position asked, which must be one of those there are.
pub proof fn law_reports_are_taken_up_in_order<E, X>(replies: Seq<Reply<E, X>>)
    requires
        all_fit(initial_state(), replies),
        replies.len() > 0,
        is_free(replies),
    ensures
        ({
            let waiting = match replies.last() {
                Reply::Ready(ready) => ready@,
                _ => reported(replies.drop_last()),
            };
            asked(replies) == (if waiting.len() == 0 {
                Action::<E, X>::Wait
            } else if waiting[0] == u64::MAX {
                Action::ReadDirectory
            } else if (waiting[0] as usize) < devices_now(replies) {
                Action::HasPending { device: waiting[0] as usize }
            } else {
                Action::Abort(Fault::UnknownDevice { device: waiting[0] as usize })
            })
        }),
{
    let before = replies.drop_last();
    let waiting = match replies.last() {
        Reply::Ready(ready) => ready@,
        _ => reported(before),
    };
    lemma_shows(before);
    lemma_asked_is_latest(replies);
    assert(before.len() > 0 ==> before[0] == replies[0]);
    if waiting.len() > 0 {
        law_numbers_lead_to_sources(waiting[0]);
    }
}

/// The events of the directory are seen to in their order. One that announces a file has that
/// device added and watched for data to read under the position that it gets, which is the number
/// of devices so far; at one that does not, the loop gives up.
pub proof fn law_announced_devices_are_added_in_order<E, X>(replies: Seq<Reply<E, X>>)
    requires
        all_fit(initial_state(), replies),
        replies.len() > 0,
        !is_free(replies),
    ensures
        match (asked(replies.drop_last()), replies.last()) {
            (Action::ReadDirectory, Reply::Announced(masks)) => is_answer_to_announcement(
                masks@,
                0,
                devices_now(replies),
                asked(replies),
            ),
            (Action::AddDevice { announced, .. }, Reply::Done) => is_answer_to_announcement(
                masks_read(replies),
                announced + 1,
                devices_now(replies),
                asked(replies),
            ),
            _ => true,
        },
{
    let before = replies.drop_last();
    lemma_shows(before);
    lemma_shows(replies);
    lemma_asked_is_latest(replies);
    assert(before.len() > 0 ==> before[0] == replies[0]);
    match (asked(before), replies.last()) {
        (Action::ReadDirectory, Reply::Announced(masks)) => {
            law_announcing_masks(masks@[0]);
        },
        (Action::AddDevice { announced, .. }, Reply::Done) => {
            law_announcing_masks(masks_read(replies)[announced + 1]);
        },
        _ => {},
    }
}

/// Whether an action is the right one for the event at a position among those of the directory.
pub open spec fn is_answer_to_announcement<E, X>(
    masks: Seq<u32>,
    at: int,
    devices: nat,
    action: Action<E, X>,
) -> bool {
    if (masks[at] / 256) % 2 == 1 {
        action matches Action::AddDevice { announced, watch } && {
            &&& announced == at
            &&& watch.events == 1
            &&& watch.data == devices
        }
    } else {
        action == Action::<E, X>::Abort(Fault::NotACreation)
    }
}

/// Which replies a loop accepts, by what it asked for: every outcome that the action can have.
/// Devices come with an output each, and their list cannot outgrow the machine. Once the loop has
/// returned or given up there is nothing to reply to.
pub proof fn law_every_outcome_is_accepted<E, X>(replies: Seq<Reply<E, X>>, reply: Reply<E, X>)
    requires
        all_fit(initial_state(), replies),
    ensures
        fits(run(initial_state(), replies), reply) <==> (match asked(replies) {
            Action::SetupDevices => reply is Failed || (reply matches Reply::Opened {
                devices,
                outputs,
            } && outputs == devices),
            Action::Wait => reply is Ready || reply is Failed,
            Action::ReadDirectory => reply is Announced || reply is Failed,
            Action::AddDevice { .. } => reply is Failed || (reply is Done && devices_now(replies)
                + 1 < usize::MAX),
            Action::HasPending { .. } => reply is Pending,
            Action::ReadEvent { .. } => reply is Event || reply is Failed,
            Action::Filter { .. } => reply is Filtered,
            Action::Return(_) => false,
            Action::Abort(_) => false,
            _ => reply is Done || reply is Failed,
        }),
{
    lemma_shows(replies);
}

} // verus!
