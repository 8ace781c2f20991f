//! The channels that carry price reports from a reporter to its subscribers.
//!
//! A channel is a ring buffer of one message: sending never blocks, and a
//! report that was not read in time is replaced by the next one.

use vstd::prelude::*;
use ring_channel::{RingReceiver, RingSender};
use crate::external_events::errors::ReporterError;
use crate::external_events::price_report::PriceReport;

verus! {

/// The sending end of a ring channel, `ring_channel::RingSender`.
#[verifier::external_type_specification]
#[verifier::external_body]
#[verifier::reject_recursive_types(T)]
pub struct ExRingSender<T>(RingSender<T>);

/// The receiving end of a ring channel, `ring_channel::RingReceiver`.
#[verifier::external_type_specification]
#[verifier::external_body]
#[verifier::reject_recursive_types(T)]
pub struct ExRingReceiver<T>(RingReceiver<T>);

/// The reports that were pushed into a channel through this sender since it was
/// opened, in order. What other senders pushed, and what has been read since,
/// makes no difference to it.
pub uninterp spec fn pushed(sender: RingSender<PriceReport>) -> Seq<PriceReport>;

/// The reports that were handed to this sender since it was opened and that it
/// refused, because its channel had lost its receivers, in order.
pub uninterp spec fn refused(sender: RingSender<PriceReport>) -> Seq<PriceReport>;

/// Whether the two are ends of one channel.
pub uninterp spec fn joined(
    sender: RingSender<PriceReport>,
    receiver: RingReceiver<PriceReport>,
) -> bool;

/// The number of pending reports that the channel of this sender has room for.
pub uninterp spec fn room(sender: RingSender<PriceReport>) -> nat;

/// Opens a channel with `ring_channel::ring_channel`.
///
/// Trusted: the two ends belong to one channel, which has room for as many
/// pending reports as asked, and its sender has neither pushed nor refused
/// anything.
#[verifier::external_body]
fn open_ring_channel(capacity: usize) -> (ends: (
    RingSender<PriceReport>,
    RingReceiver<PriceReport>,
))
    requires
        capacity > 0,
    ensures
        joined(ends.0, ends.1),
        room(ends.0) == capacity,
        pushed(ends.0) == Seq::<PriceReport>::empty(),
        refused(ends.0) == Seq::<PriceReport>::empty(),
{
    ring_channel::ring_channel(std::num::NonZeroUsize::new(capacity).unwrap())
}

/// Sends a report with `RingSender::send`, without blocking.
///
/// Trusted: either the report is pushed into the channel's buffer, after all
/// that was pushed through this sender before, or the channel has lost its
/// receivers, the report is refused, nothing is pushed and the same report is
/// handed back. The sender stays an end of the same channel. Which of the two
/// happens depends on the other threads that hold ends of the channel. So does
/// the older report that the new one may have replaced, which is dropped.
#[verifier::external_body]
fn send(sender: &mut RingSender<PriceReport>, report: PriceReport) -> (sent: Result<
    (),
    PriceReport,
>)
    ensures
        sent is Ok ==> pushed(*final(sender)) == pushed(*old(sender)).push(report) && refused(
            *final(sender),
        ) == refused(*old(sender)),
        sent is Err ==> pushed(*final(sender)) == pushed(*old(sender)) && refused(*final(sender))
            == refused(*old(sender)).push(report) && sent->Err_0 == report,
        same_channel(*old(sender), *final(sender)),
{
    match sender.send(report) {
        Ok(_) => Ok(()),
        Err(ring_channel::SendError::Disconnected(report)) => Err(report),
    }
}

/// The two senders are ends of one channel.
pub open spec fn same_channel(a: RingSender<PriceReport>, b: RingSender<PriceReport>) -> bool {
    &&& room(a) == room(b)
    &&& forall|receiver: RingReceiver<PriceReport>| joined(a, receiver) == joined(b, receiver)
}

/// A sender that was handed nothing so far, with room for one report, and the
/// receiver of its channel.
pub open spec fn fresh_channel(
    sender: RingSender<PriceReport>,
    receiver: RingReceiver<PriceReport>,
) -> bool {
    &&& joined(sender, receiver)
    &&& room(sender) == 1
    &&& pushed(sender) == Seq::<PriceReport>::empty()
    &&& refused(sender) == Seq::<PriceReport>::empty()
}

/// Between `before` and `after` the report was handed to one sender after the
/// other: the first `n` pushed it, the one after them, if there is one, refused
/// it, and those behind are as they were.
pub open spec fn pushed_through(
    before: Seq<RingSender<PriceReport>>,
    after: Seq<RingSender<PriceReport>>,
    n: int,
    report: PriceReport,
) -> bool {
    &&& after.len() == before.len()
    &&& forall|i: int|
        0 <= i < before.len() ==> {
            &&& same_channel(before[i], #[trigger] after[i])
            &&& pushed(after[i]) == (if i < n {
                pushed(before[i]).push(report)
            } else {
                pushed(before[i])
            })
            &&& refused(after[i]) == (if i == n {
                refused(before[i]).push(report)
            } else {
                refused(before[i])
            })
            &&& i > n ==> after[i] == before[i]
        }
}

/// What publishing a report leaves behind: all senders have pushed it and none
/// has refused it, or one of them has refused it, and only those before it have
/// pushed it.
pub open spec fn published(
    before: Seq<RingSender<PriceReport>>,
    after: Seq<RingSender<PriceReport>>,
    report: PriceReport,
    result: Result<(), ReporterError>,
) -> bool {
    match result {
        Ok(_) => pushed_through(before, after, before.len() as int, report),
        Err(error) => error == ReporterError::Disconnected && exists|n: int|
            0 <= n < before.len() && #[trigger] pushed_through(before, after, n, report),
    }
}

/// Reports that are published one after the other go through each sender in
/// that order, with nothing between them.
pub proof fn law_published_reports_keep_their_order(
    before: Seq<RingSender<PriceReport>>,
    between: Seq<RingSender<PriceReport>>,
    after: Seq<RingSender<PriceReport>>,
    first: PriceReport,
    second: PriceReport,
    i: int,
)
    requires
        published(before, between, first, Ok(())),
        published(between, after, second, Ok(())),
        0 <= i < before.len(),
    ensures
        after.len() == before.len(),
        pushed(after[i]) == pushed(before[i]).push(first).push(second),
        same_channel(before[i], after[i]),
{
    assert(same_channel(before[i], between[i]));
    assert(same_channel(between[i], after[i]));
}

/// A stream that is opened starts with the next report that is published:
/// nothing older went through the sender of its receiver.
pub proof fn law_new_stream_starts_with_the_next_report(
    before: Seq<RingSender<PriceReport>>,
    after: Seq<RingSender<PriceReport>>,
    receiver: RingReceiver<PriceReport>,
    report: PriceReport,
)
    requires
        before.len() > 0,
        fresh_channel(before.last(), receiver),
        published(before, after, report, Ok(())),
    ensures
        after.len() == before.len(),
        joined(after.last(), receiver),
        pushed(after.last()) == seq![report],
{
    let last = before.len() - 1;
    assert(same_channel(before[last], after[last]));
    assert(pushed(after[last]) =~= seq![report]);
}

/// However publishing ends, each sender has pushed the report once or not at
/// all, and a sender that has is preceded only by senders that have.
pub proof fn law_report_is_published_in_order(
    before: Seq<RingSender<PriceReport>>,
    after: Seq<RingSender<PriceReport>>,
    report: PriceReport,
    result: Result<(), ReporterError>,
    i: int,
    j: int,
)
    requires
        published(before, after, report, result),
        0 <= i <= j < before.len(),
    ensures
        pushed(after[j]) == pushed(before[j]).push(report) || pushed(after[j]) == pushed(before[j]),
        pushed(after[j]) == pushed(before[j]).push(report) ==> pushed(after[i]) == pushed(
            before[i],
        ).push(report),
{
    let n = match result {
        Ok(_) => before.len() as int,
        Err(_) => choose|n: int|
            0 <= n < before.len() && #[trigger] pushed_through(before, after, n, report),
    };
    assert(pushed_through(before, after, n, report));
    assert(same_channel(before[i], after[i]));
    assert(same_channel(before[j], after[j]));
    if j >= n {
        assert(pushed(before[j]).push(report).len() != pushed(before[j]).len());
    }
}

/// Publishing fails if and only if a sender refuses the report, and at most one
/// sender does.
pub proof fn law_failure_is_a_refusal(
    before: Seq<RingSender<PriceReport>>,
    after: Seq<RingSender<PriceReport>>,
    report: PriceReport,
    result: Result<(), ReporterError>,
)
    requires
        published(before, after, report, result),
    ensures
        result is Err <==> exists|i: int|
            0 <= i < before.len() && refused(#[trigger] after[i]) == refused(before[i]).push(
                report,
            ),
        forall|i: int, j: int|
            0 <= i < before.len() && 0 <= j < before.len() && refused(#[trigger] after[i])
                == refused(before[i]).push(report) && refused(#[trigger] after[j]) == refused(
                before[j],
            ).push(report) ==> i == j,
{
    let n = match result {
        Ok(_) => before.len() as int,
        Err(_) => choose|n: int|
            0 <= n < before.len() && #[trigger] pushed_through(before, after, n, report),
    };
    assert(pushed_through(before, after, n, report));
    assert forall|i: int| 0 <= i < before.len() && i != n implies refused(#[trigger] after[i])
        != refused(before[i]).push(report) by {
        assert(refused(before[i]).push(report).len() != refused(before[i]).len());
    }
    if result is Err {
        assert(refused(after[n]) == refused(before[n]).push(report));
    }
}

/// Opens a channel with room for one pending report.
pub(crate) fn new_ring_channel() -> (ends: (RingSender<PriceReport>, RingReceiver<PriceReport>))
    ensures
        fresh_channel(ends.0, ends.1),
{
    open_ring_channel(1)
}

/// Pushes a report through every sender, in order, up to the first whose
/// channel is disconnected.
pub(crate) fn publish(senders: &mut Vec<RingSender<PriceReport>>, report: PriceReport) -> (result:
    Result<(), ReporterError>)
    ensures
        published(old(senders)@, final(senders)@, report, result),
{
    let mut n: usize = 0;
    while n < senders.len()
        invariant
            n <= senders@.len(),
            senders@.len() == old(senders)@.len(),
            forall|i: int|
                0 <= i < n ==> {
                    &&& same_channel(old(senders)@[i], #[trigger] senders@[i])
                    &&& pushed(senders@[i]) == pushed(old(senders)@[i]).push(report)
                    &&& refused(senders@[i]) == refused(old(senders)@[i])
                },
            forall|i: int| n <= i < senders@.len() ==> #[trigger] senders@[i] == old(senders)@[i],
        decreases senders@.len() - n,
    {
        let sent = send(&mut senders[n], report);
        if sent.is_err() {
            assert(pushed_through(old(senders)@, senders@, n as int, report));
            return Err(ReporterError::Disconnected);
        }
        n += 1;
    }
    Ok(())
}

/// A report that was published has gone through every sender once. No sender
/// has refused anything, and each still belongs to its channel.
pub proof fn law_published_report_goes_through_every_sender(
    before: Seq<RingSender<PriceReport>>,
    after: Seq<RingSender<PriceReport>>,
    report: PriceReport,
    i: int,
)
    requires
        published(before, after, report, Ok(())),
        0 <= i < before.len(),
    ensures
        after.len() == before.len(),
        pushed(after[i]) == pushed(before[i]).push(report),
        refused(after[i]) == refused(before[i]),
        room(after[i]) == room(before[i]),
        forall|receiver: RingReceiver<PriceReport>| #[trigger]
            joined(after[i], receiver) == joined(before[i], receiver),
{
    assert(same_channel(before[i], after[i]));
}

/// Where publishing fails, some sender has refused the report and pushed
/// nothing. All senders before it have pushed the report and refused nothing,
/// and those behind it were not touched.
pub proof fn law_refusal_ends_publishing(
    before: Seq<RingSender<PriceReport>>,
    after: Seq<RingSender<PriceReport>>,
    report: PriceReport,
    error: ReporterError,
)
    requires
        published(before, after, report, Err(error)),
    ensures
        error == ReporterError::Disconnected,
        after.len() == before.len(),
        exists|n: int|
            {
                &&& 0 <= n < before.len()
                &&& refused(#[trigger] after[n]) == refused(before[n]).push(report)
                &&& pushed(after[n]) == pushed(before[n])
                &&& forall|i: int|
                    0 <= i < n ==> pushed(#[trigger] after[i]) == pushed(before[i]).push(report)
                        && refused(after[i]) == refused(before[i])
                &&& forall|i: int| n < i < before.len() ==> #[trigger] after[i] == before[i]
            },
        forall|i: int, receiver: RingReceiver<PriceReport>|
            0 <= i < before.len() ==> #[trigger] joined(after[i], receiver) == joined(
                before[i],
                receiver,
            ) && room(after[i]) == room(before[i]),
{
    let n = choose|n: int|
        0 <= n < before.len() && #[trigger] pushed_through(before, after, n, report);
    assert(refused(after[n]) == refused(before[n]).push(report));
    assert forall|i: int, receiver: RingReceiver<PriceReport>|
        0 <= i < before.len() implies #[trigger] joined(after[i], receiver) == joined(
        before[i],
        receiver,
    ) && room(after[i]) == room(before[i]) by {
        assert(same_channel(before[i], after[i]));
    }
}

/// A fresh channel has room for one report, and its sender was handed nothing.
pub proof fn law_fresh_channel_is_empty(
    sender: RingSender<PriceReport>,
    receiver: RingReceiver<PriceReport>,
)
    requires
        fresh_channel(sender, receiver),
    ensures
        joined(sender, receiver),
        room(sender) == 1,
        pushed(sender).len() == 0,
        refused(sender).len() == 0,
{
}

} // verus!
