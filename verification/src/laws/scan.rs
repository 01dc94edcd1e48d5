//! What scanning is for.

use crate::error::{BackendError, ErrorView};
use crate::exchange::{Effect, Reply, ReplyKind, Request, StepView};
use crate::filter::{sifted, Candidate};
use crate::handler::disconnect::{step_next, step_phase};
use crate::handler::scan::{
    discover_start, discover_step, order_left, scan_step, scan_step_effects, stop_start,
    stop_step, DiscoverPhase, ScanNext, ScanOrder, ScanPhase, ScanReply, ScanRequest, ScanTask,
    StopPhase,
};
use crate::handler::HandlerView;
use crate::index::{
    described, lex_le, lookup, names, other_devices_stay_known, reported_devices_are_known, Found,
};
use crate::laws::values::{
    descriptions_are_reported, filters_keep_what_they_ask_for, only_descriptions_are_reported,
    peripherals_are_kept_as_often, reports_are_sorted, wanted,
};
use crate::models::{BleDevice, Peripheral, ScanFilter};
use vstd::prelude::*;
use vstd::utf8::encode_utf8;

verus! {

/// A mask that is not as long as its data is refused, and nothing else happens. Any other
/// filter is accepted.
pub proof fn only_wrong_masks_are_refused<D, N>(
    h: HandlerView<D, N>,
    order: ScanOrder,
    allow_ibeacons: bool,
)
    ensures
        ({
            let (out, step) = discover_start(h, Seq::empty(), order, allow_ibeacons);
            let wrong = order.filter matches ScanFilter::ManufacturerDataMasked(_, data, mask)
                && data@.len() != mask@.len();
            if wrong {
                &&& step == StepView::<DiscoverPhase>::Done(Err(ErrorView::InvalidFilterMask))
                &&& out.h == h
                &&& out.effects.len() == 0
            } else {
                step is Ask
            }
        }),
{
}

/// A scan begins on the adapter in use, or on the first one that is found; a scan that was
/// running makes room. Its task is stopped and the adapter told to stop before it is told to
/// scan again, and whether the stop works does not matter.
pub proof fn scans_start_on_the_adapter<D, N>(
    h: HandlerView<D, N>,
    order: ScanOrder,
    allow_ibeacons: bool,
    h2: HandlerView<D, N>,
    stopped: Reply,
)
    requires
        order.filter matches ScanFilter::ManufacturerDataMasked(_, data, mask) ==> data@.len()
            == mask@.len(),
        h.adapter is Some,
        stopped.spec_kind() == ReplyKind::Plain,
    ensures
        ({
            let (out, step) = discover_start(h, Seq::empty(), order, allow_ibeacons);
            let (out2, step2) = discover_step(
                h2,
                Seq::empty(),
                order,
                allow_ibeacons,
                DiscoverPhase::Stopping,
                stopped,
            );
            &&& out.h.event_pump
            &&& !h.event_pump ==> out.effects.contains(Effect::<D>::StartEventPump)
            &&& h.event_pump ==> !out.effects.contains(Effect::<D>::StartEventPump)
            &&& match h.scan_task {
                Some(handle) => {
                    &&& step == StepView::Ask(DiscoverPhase::Stopping, Request::StopScan)
                    &&& out.effects.last() == Effect::<D>::AbortScan(handle.task)
                    &&& out.h == (HandlerView { scan_task: None, event_pump: true, ..h })
                },
                None => {
                    &&& step == StepView::Ask(DiscoverPhase::Starting, Request::StartScan)
                    &&& out.h == (HandlerView { allow_ibeacons, event_pump: true, ..h })
                },
            }
            &&& step2 == StepView::Ask(DiscoverPhase::Starting, Request::StartScan)
            &&& out2.h == (HandlerView { allow_ibeacons, ..h2 })
            &&& out2.effects.len() == 0
        }),
{
    let (out, step) = discover_start(h, Seq::empty(), order, allow_ibeacons);
    if !h.event_pump {
        assert(out.effects[0] == Effect::<D>::StartEventPump);
    }
}

/// Without an adapter one is looked for, and the first one that is found is used. That there is
/// none, or that they cannot be listed, is an error, and nothing else happens.
pub proof fn scans_look_for_an_adapter<D, N>(
    h: HandlerView<D, N>,
    order: ScanOrder,
    allow_ibeacons: bool,
    h2: HandlerView<D, N>,
    found: Result<Vec<u64>, BackendError>,
)
    requires
        order.filter matches ScanFilter::ManufacturerDataMasked(_, data, mask) ==> data@.len()
            == mask@.len(),
        h.adapter is None,
    ensures
        ({
            let (out, step) = discover_start(h, Seq::empty(), order, allow_ibeacons);
            let (out2, step2) = discover_step(
                h2,
                Seq::empty(),
                order,
                allow_ibeacons,
                DiscoverPhase::Adapter,
                Reply::Adapters(found),
            );
            &&& step == StepView::Ask(DiscoverPhase::Adapter, Request::FindAdapters)
            &&& out.h == h
            &&& out.effects.len() == 0
            &&& match found {
                Err(e) => step2 == StepView::<DiscoverPhase>::Done(Err(ErrorView::Btleplug(e)))
                    && out2.h == h2 && out2.effects.len() == 0,
                Ok(ids) => if ids@.len() == 0 {
                    step2 == StepView::<DiscoverPhase>::Done(Err(ErrorView::NoAdapters)) && out2.h
                        == h2 && out2.effects.len() == 0
                } else {
                    &&& step2 is Ask
                    &&& out2.h.adapter == Some(ids@[0])
                    &&& out2.effects[0] == Effect::<D>::UseAdapter(ids@[0])
                    &&& out2.h.event_pump
                    &&& out2.h.scan_task is None
                },
            }
        }),
{
}

/// An adapter that refuses to scan makes the call fail with its error. One that scans has a
/// task poll for devices, for exactly as long as was asked for: each poll takes 200
/// milliseconds, and the polls cover the time limit to within one of them, but there is at
/// least one. The task sends what the filter of the order keeps to the sink of the order, and
/// the update channels are told that a scan has begun.
pub proof fn scans_last_as_long_as_they_should<D, N>(
    h: HandlerView<D, N>,
    order: ScanOrder,
    allow_ibeacons: bool,
    e: BackendError,
)
    ensures
        ({
            let refused = discover_step(
                h,
                Seq::empty(),
                order,
                allow_ibeacons,
                DiscoverPhase::Starting,
                Reply::Plain(Err(e)),
            );
            let (out, step) = discover_step(
                h,
                Seq::empty(),
                order,
                allow_ibeacons,
                DiscoverPhase::Starting,
                Reply::Plain(Ok(())),
            );
            &&& refused.1 == StepView::<DiscoverPhase>::Done(Err(ErrorView::Btleplug(e)))
            &&& refused.0.h == h
            &&& refused.0.effects.len() == 0
            &&& step.succeeded()
            &&& out.effects.len() == 2
            &&& out.effects[0] == Effect::<D>::ScanUpdate(true)
            &&& out.effects[1] matches Effect::SpawnScan(task) && {
                &&& task.sink == order.sink
                &&& task.filter == order.filter
                &&& task.phase is Idle
                &&& task.polls >= 1
                &&& order.timeout < 200 ==> task.polls == 1
                &&& order.timeout >= 200 ==> task.polls * 200 <= order.timeout < (task.polls + 1)
                    * 200
                &&& out.h.scan_task matches Some(handle) && handle.task == task.task
                    && !handle.finished
            }
            &&& out.h == (HandlerView { scan_task: out.h.scan_task, tasks: out.h.tasks, ..h })
            &&& out.h.tasks != h.tasks
            &&& order_left(Some(order), step) is None
            &&& order_left(Some(order), refused.1) == Some(order)
        }),
{
    assert(h.tasks.wrapping_add(1) != h.tasks);
}

/// Scans for longer poll at least as often.
pub proof fn longer_scans_poll_more<D, N>(
    h: HandlerView<D, N>,
    short: ScanOrder,
    long: ScanOrder,
    allow_ibeacons: bool,
)
    requires
        short.timeout <= long.timeout,
    ensures
        ({
            let a = discover_step(
                h,
                Seq::empty(),
                short,
                allow_ibeacons,
                DiscoverPhase::Starting,
                Reply::Plain(Ok(())),
            ).0.effects[1];
            let b = discover_step(
                h,
                Seq::empty(),
                long,
                allow_ibeacons,
                DiscoverPhase::Starting,
                Reply::Plain(Ok(())),
            ).0.effects[1];
            a->SpawnScan_0.polls <= b->SpawnScan_0.polls
        }),
{
    scans_last_as_long_as_they_should(h, short, allow_ibeacons, BackendError::NotConnected);
    scans_last_as_long_as_they_should(h, long, allow_ibeacons, BackendError::NotConnected);
}

/// Stopping a scan stops its task first, then the adapter, and the update channels are told in
/// the end. That the adapter fails to stop is no error, but that there is none is.
pub proof fn stopped_scans_are_over<D, N>(
    h: HandlerView<D, N>,
    h2: HandlerView<D, N>,
    stopped: Reply,
    found: Result<Vec<u64>, BackendError>,
)
    requires
        stopped.spec_kind() == ReplyKind::Plain,
    ensures
        ({
            let (out, step) = stop_start(h, Seq::empty());
            let (out2, step2) = stop_step(h2, Seq::empty(), StopPhase::Stopping, stopped);
            let (out3, step3) = stop_step(
                h2,
                Seq::empty(),
                StopPhase::Adapter,
                Reply::Adapters(found),
            );
            &&& out.h == (HandlerView { scan_task: None, event_pump: out.h.event_pump, ..h })
            &&& h.scan_task matches Some(handle) ==> out.effects.len() > 0 && out.effects[0]
                == Effect::<D>::AbortScan(handle.task)
            &&& h.adapter is Some ==> step == StepView::Ask(StopPhase::Stopping, Request::StopScan)
                && out.h.event_pump
            &&& h.adapter is None ==> step == StepView::Ask(
                StopPhase::Adapter,
                Request::FindAdapters,
            )
            &&& step2.succeeded()
            &&& out2.h == h2
            &&& out2.effects == seq![Effect::<D>::ScanUpdate(false)]
            &&& match found {
                Err(e) => step3 == StepView::<StopPhase>::Done(Err(ErrorView::Btleplug(e))),
                Ok(ids) => if ids@.len() == 0 {
                    step3 == StepView::<StopPhase>::Done(Err(ErrorView::NoAdapters))
                } else {
                    step3 == StepView::Ask(StopPhase::Stopping, Request::StopScan)
                        && out3.h.adapter == Some(ids@[0])
                },
            }
        }),
{
    let out2 = stop_step(h2, Seq::empty(), StopPhase::Stopping, stopped).0;
    assert(out2.effects =~= seq![Effect::<D>::ScanUpdate(false)]);
}

/// What a call to start or to stop a scan asks for and returns is what its parts do.
pub proof fn calls_do_what_their_parts_do(
    phase: DiscoverPhase,
    request: Request,
    result: Result<(), ErrorView>,
)
    ensures
        step_next(StepView::Ask(phase, request)) is Ask,
        step_next(StepView::Ask(phase, request))->Ask_0 == request,
        step_phase(StepView::Ask(phase, request)) == Some(phase),
        step_next(StepView::<DiscoverPhase>::Done(result)) is Done,
        step_next(StepView::<DiscoverPhase>::Done(result))->Done_0 == result,
        step_phase(StepView::<DiscoverPhase>::Done(result)) is None,
{
}

/// A poll lists the devices in range, whatever became of the pause before, and has exactly
/// those described that the filter asks for, each as often as it was listed.
pub proof fn polls_describe_what_is_wanted<D, N>(
    h: HandlerView<D, N>,
    t: ScanTask,
    listed: Vec<Candidate>,
    h2: HandlerView<D, N>,
    t2: ScanTask,
    next: ScanNext,
    p: Peripheral,
)
    requires
        t.phase is Listing,
        scan_step(h, t, ScanReply::Listed(Ok(listed)), h2, t2, next),
    ensures
        h2 == h,
        t2 == (ScanTask { phase: ScanPhase::Describing, ..t }),
        next matches ScanNext::Ask(ScanRequest::Describe(asked)) && (asked@.contains(p)
            <==> exists|i: int|
            0 <= i < listed@.len() && (#[trigger] listed@[i]).peripheral == p && wanted(
                listed@[i],
                t.filter,
            )),
        next matches ScanNext::Ask(ScanRequest::Describe(asked)) && asked@.filter(
            |q: Peripheral| q == p,
        ).len() == listed@.filter(|c: Candidate| c.peripheral == p && wanted(c, t.filter)).len(),
{
    filters_keep_what_they_ask_for(listed@, t.filter);
    peripherals_are_kept_as_often(listed@, t.filter, p);
    let kept = sifted(listed@, t.filter, listed@.len());
    let asked = next->Ask_0->Describe_0;
    let pick = |c: Candidate| c.peripheral;
    assert(asked@ == kept.map_values(pick));
    if asked@.contains(p) {
        let k = choose|k: int| 0 <= k < asked@.len() && asked@[k] == p;
        assert(kept.contains(kept[k]));
        assert(listed@.contains(kept[k]));
        let i = choose|i: int| 0 <= i < listed@.len() && listed@[i] == kept[k];
        assert(listed@[i].peripheral == p);
    }
    if exists|i: int|
        0 <= i < listed@.len() && (#[trigger] listed@[i]).peripheral == p && wanted(
            listed@[i],
            t.filter,
        ) {
        let i = choose|i: int|
            0 <= i < listed@.len() && (#[trigger] listed@[i]).peripheral == p && wanted(
                listed@[i],
                t.filter,
            );
        assert(listed@.contains(listed@[i]));
        assert(kept.contains(listed@[i]));
        let k = choose|k: int| 0 <= k < kept.len() && kept[k] == listed@[i];
        assert(asked@[k] == p);
    }
}

/// The report of a poll holds every device that the backend described, each as often as it was
/// described, and no other; the devices come ordered by address. It is sent to the sink if there
/// is one and there is anything to report, and then, or at once, the task goes on: with another
/// poll after 200 milliseconds, or, after the last one, by telling the adapter to stop.
pub proof fn polls_report_what_was_described<D, N>(
    h: HandlerView<D, N>,
    t: ScanTask,
    found: Vec<Found>,
    h2: HandlerView<D, N>,
    t2: ScanTask,
    next: ScanNext,
    device: BleDevice,
)
    requires
        t.phase is Describing,
        scan_step(h, t, ScanReply::Described(found), h2, t2, next),
    ensures
        ({
            let any = exists|i: int| 0 <= i < found@.len() && (#[trigger] found@[i]).device is Some;
            &&& h2 == (HandlerView { devices: h2.devices, ..h })
            &&& any && t.sink !is Nobody ==> (next matches ScanNext::Ask(
                ScanRequest::Send(sink, sent),
            ) && {
                &&& sink == t.sink
                &&& sent@.to_multiset().count(device) == found@.map_values(
                    |f: Found| f.device,
                ).to_multiset().count(Some(device))
                &&& forall|i: int, j: int|
                    0 <= i < j < sent@.len() ==> lex_le(
                        encode_utf8((#[trigger] sent@[i]).address@),
                        encode_utf8((#[trigger] sent@[j]).address@),
                    )
                &&& t2 == (ScanTask { phase: ScanPhase::Sending, ..t })
            })
            &&& !any || t.sink is Nobody ==> goes_on(t, t2, next)
        }),
{
    descriptions_are_reported(found@, device);
    reports_are_sorted(described(found@), device.address@);
    only_descriptions_are_reported(found@);
}

/// The task goes on after a poll: it polls again after 200 milliseconds if it has polls left,
/// and has the adapter stop otherwise.
pub open spec fn goes_on(t: ScanTask, t2: ScanTask, next: ScanNext) -> bool {
    &&& t2.task == t.task
    &&& t2.sink == t.sink
    &&& t2.filter == t.filter
    &&& if t.polls > 1 {
        &&& next == ScanNext::Ask(ScanRequest::Sleep(200))
        &&& t2.polls == t.polls - 1
        &&& t2.phase is Sleeping
    } else {
        &&& next == ScanNext::Ask(ScanRequest::StopScan)
        &&& t2.phase is Stopping
    }
}

/// The other steps of a task: a pause leads to a list; what was sent leads on; a list that
/// fails, or a report that nobody takes, breaks the task off; and once the adapter was told to
/// stop, whatever came of that, the task is over, which the update channels are told. A task
/// that is over is marked so in the handler if it is still the current one.
pub proof fn tasks_go_on_to_their_end<D, N>(
    h: HandlerView<D, N>,
    t: ScanTask,
    reply: ScanReply,
    h2: HandlerView<D, N>,
    t2: ScanTask,
    next: ScanNext,
)
    requires
        t.phase.fits(reply),
        scan_step(h, t, reply, h2, t2, next),
    ensures
        t.phase is Sleeping ==> next == ScanNext::Ask(ScanRequest::List) && h2 == h && t2 == (
        ScanTask { phase: ScanPhase::Listing, ..t }),
        t.phase is Sending && reply == ScanReply::Plain(true) ==> goes_on(t, t2, next) && h2 == h,
        t.phase is Sending && reply == ScanReply::Plain(false) ==> next is Failed && ended(
            h,
            t.task,
            h2,
        ),
        t.phase is Listing && (reply matches ScanReply::Listed(Err(_))) ==> next is Failed
            && ended(h, t.task, h2),
        t.phase is Stopping ==> next is Done && ended(h, t.task, h2) && scan_step_effects::<D>(t)
            == seq![Effect::<D>::ScanUpdate(false)],
        t.phase !is Stopping ==> scan_step_effects::<D>(t).len() == 0 && next !is Done,
{
}

/// The task is marked as finished if it is the current one; nothing else changes.
pub open spec fn ended<D, N>(h: HandlerView<D, N>, task: u64, h2: HandlerView<D, N>) -> bool {
    &&& h2 == (HandlerView { scan_task: h2.scan_task, ..h })
    &&& match h.scan_task {
        Some(handle) => h2.scan_task matches Some(handle2) && handle2.task == handle.task
            && handle2.finished == (handle.finished || handle.task == task),
        None => h2.scan_task is None,
    }
}

/// After a poll, an address that was described leads to the peripheral that was described with
/// it, and every other address leads to where it led before.
pub proof fn polls_remember_what_was_described<D, N>(
    h: HandlerView<D, N>,
    t: ScanTask,
    found: Vec<Found>,
    h2: HandlerView<D, N>,
    t2: ScanTask,
    next: ScanNext,
    address: Seq<char>,
)
    requires
        t.phase is Describing,
        scan_step(h, t, ScanReply::Described(found), h2, t2, next),
    ensures
        ({
            let at = |i: int|
                0 <= i < found@.len() && (found@[i].device matches Some(d) && d.address@
                    == address);
            &&& (forall|i: int| !#[trigger] at(i)) ==> lookup(h2.devices, address)
                == lookup(h.devices, address)
            &&& forall|i: int|
                #[trigger] at(i) && (forall|j: int| i < j ==> !#[trigger] at(j))
                    ==> lookup(h2.devices, address) == Some(found@[i].peripheral)
        }),
{
    let at = |i: int|
        0 <= i < found@.len() && (found@[i].device matches Some(d) && d.address@ == address);
    if forall|i: int| !#[trigger] at(i) {
        assert forall|i: int| 0 <= i < found@.len() implies !names(
            #[trigger] found@[i],
            address,
        ) by {
            assert(!at(i));
        }
        other_devices_stay_known(h.devices, found@, address);
    }
    assert forall|i: int|
        #[trigger] at(i) && (forall|j: int| i < j ==> !#[trigger] at(j)) implies lookup(
        h2.devices,
        address,
    ) == Some(found@[i].peripheral) by {
        assert forall|j: int| i < j < found@.len() implies !names(
            #[trigger] found@[j],
            address,
        ) by {
            assert(!at(j));
        }
        reported_devices_are_known(h.devices, found@, address, i);
    }
}

} // verus!
