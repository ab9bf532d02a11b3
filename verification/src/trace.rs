//! Whole scans: what holds of a scan after any run of events.

use crate::discord::MessageView;
use crate::scan::{ScanAction, ScanEventView, ScanStatus, ScanView};
use crate::search::FetchError;
use vstd::prelude::*;

verus! {

impl ScanView {
    /// `event` is an answer to what the scan waits for.
    pub open spec fn awaits(self, event: ScanEventView) -> bool {
        match (self.pending(), event) {
            (ScanAction::Fetch, ScanEventView::Fetched(_)) => true,
            (ScanAction::Poll, ScanEventView::Polled(_)) => true,
            _ => false,
        }
    }

    /// The scan after `events`, one after another.
    pub open spec fn run(self, events: Seq<ScanEventView>) -> ScanView
        decreases events.len(),
    {
        if events.len() == 0 {
            self
        } else {
            self.run(events.drop_last()).step(events.last())
        }
    }

    /// The events among `events` that the scan waited for when they came, in
    /// order.
    pub open spec fn heard(self, events: Seq<ScanEventView>) -> Seq<ScanEventView>
        decreases events.len(),
    {
        if events.len() == 0 {
            events
        } else if self.run(events.drop_last()).awaits(events.last()) {
            self.heard(events.drop_last()).push(events.last())
        } else {
            self.heard(events.drop_last())
        }
    }

    /// `events` is how a scan goes on from here: each event answers what the
    /// scan waited for when it came. After the event that ends the scan there
    /// is none.
    pub open spec fn follows(self, events: Seq<ScanEventView>) -> bool
        decreases events.len(),
    {
        events.len() == 0 || (self.follows(events.drop_last()) && self.run(
            events.drop_last(),
        ).awaits(events.last()))
    }
}

/// The messages that `events` bring, page after page.
pub open spec fn fetched(events: Seq<ScanEventView>) -> Seq<MessageView>
    decreases events.len(),
{
    if events.len() == 0 {
        Seq::empty()
    } else {
        fetched(events.drop_last()) + events.last().messages()
    }
}

/// The lengths of the pages that `events` bring, added up.
pub open spec fn fetched_len(events: Seq<ScanEventView>) -> nat
    decreases events.len(),
{
    if events.len() == 0 {
        0
    } else {
        fetched_len(events.drop_last()) + events.last().messages().len()
    }
}

/// Running `first` and then `rest` is running the two on end.
pub proof fn lemma_run_on(scan: ScanView, first: Seq<ScanEventView>, rest: Seq<ScanEventView>)
    ensures
        scan.run(first + rest) == scan.run(first).run(rest),
        scan.follows(first + rest) <==> scan.follows(first) && scan.run(first).follows(rest),
    decreases rest.len(),
{
    if rest.len() == 0 {
    } else {
        lemma_run_on(scan, first, rest.drop_last());
        assert((first + rest).drop_last() =~= first + rest.drop_last());
    }
}

/// An event that a scan does not wait for changes nothing: after any events
/// the scan is as after those of them that it waited for, which are a way for
/// it to go on. What holds of every scan that goes on by what it waits for
/// holds, then, of every scan.
pub proof fn lemma_run_heard(scan: ScanView, events: Seq<ScanEventView>)
    ensures
        scan.run(events) == scan.run(scan.heard(events)),
        scan.follows(scan.heard(events)),
        scan.follows(events) ==> scan.heard(events) == events,
    decreases events.len(),
{
    if events.len() > 0 {
        let before = events.drop_last();
        lemma_run_heard(scan, before);
        if scan.run(before).awaits(events.last()) {
            assert(scan.heard(before).push(events.last()).drop_last() =~= scan.heard(before));
        }
    }
}

/// A scan keeps what always holds of it, whatever happens.
pub proof fn lemma_run_wf(scan: ScanView, events: Seq<ScanEventView>)
    requires
        scan.wf(),
    ensures
        scan.run(events).wf(),
        scan.run(events).token == scan.token,
        scan.run(events).target == scan.target,
    decreases events.len(),
{
    if events.len() > 0 {
        lemma_run_wf(scan, events.drop_last());
    }
}

/// A scan only grows: whatever happens, what it holds begins with what it
/// held before, and its offset does not fall.
pub proof fn lemma_collected_only_grows(scan: ScanView, events: Seq<ScanEventView>)
    requires
        scan.wf(),
    ensures
        scan.collected.is_prefix_of(scan.run(events).collected),
        scan.offset <= scan.run(events).offset,
    decreases events.len(),
{
    if events.len() > 0 {
        lemma_collected_only_grows(scan, events.drop_last());
        lemma_run_wf(scan, events.drop_last());
        let before = scan.run(events.drop_last());
    }
}

/// A scan that is done, cancelled or failed stays as it is, whatever happens;
/// so does one that has not started.
pub proof fn lemma_ended_stays(scan: ScanView, events: Seq<ScanEventView>)
    requires
        !(scan.status is Running),
    ensures
        scan.run(events) == scan,
    decreases events.len(),
{
    if events.len() > 0 {
        lemma_ended_stays(scan, events.drop_last());
    }
}

/// The shape of a scan. Of a running scan that goes on by `events`:
/// every event but the last is a page with messages or a wait without a
/// cancel signal, the two in turn, and the last event decides where the scan
/// stands.
pub proof fn lemma_scan_shape(scan: ScanView, events: Seq<ScanEventView>)
    requires
        scan.wf(),
        scan.status is Running,
        scan.follows(events),
    ensures
        forall|i: int|
            0 <= i < events.len() - 1 ==> (#[trigger] events[i]).is_full_page() || events[i]
                == ScanEventView::Polled(false),
        forall|i: int|
            0 < i < events.len() ==> ((#[trigger] events[i]) is Polled <==> events[i
                - 1].is_full_page()),
        events.len() == 0 ==> scan.run(events) == scan,
        events.len() > 0 ==> scan.run(events).status == (match events.last() {
            ScanEventView::Fetched(Err(reason)) => ScanStatus::Failed(reason),
            ScanEventView::Fetched(Ok(page)) => if page.messages.len() == 0 {
                ScanStatus::Done
            } else {
                ScanStatus::Running
            },
            ScanEventView::Polled(cancel) => if cancel {
                ScanStatus::Cancelled
            } else {
                ScanStatus::Running
            },
        }),
        events.len() > 0 ==> scan.run(events).polling == events.last().is_full_page(),
    decreases events.len(),
{
    if events.len() > 0 {
        let before = events.drop_last();
        lemma_scan_shape(scan, before);
        lemma_run_wf(scan, before);
        assert forall|i: int| 0 <= i < events.len() - 1 implies (#[trigger] events[i]).is_full_page()
            || events[i] == ScanEventView::Polled(false) by {
            assert(events[i] == before[i]);
            if i == before.len() - 1 {
                assert(before.last() == events[i]);
            }
        }
        assert forall|i: int| 0 < i < events.len() implies ((#[trigger] events[i]) is Polled
            <==> events[i - 1].is_full_page()) by {
            assert(events[i - 1] == before[i - 1]);
            if i < before.len() {
                assert(events[i] == before[i]);
            }
        }
    }
}

/// A scan collects what its events bring. After a scan has gone on by
/// `events`, the messages of the pages that came stand behind those it held
/// before, in the order they came, and the offset has moved on by the sum of
/// the pages' lengths.
pub proof fn lemma_run_collects(scan: ScanView, events: Seq<ScanEventView>)
    requires
        scan.wf(),
        scan.follows(events),
    ensures
        scan.run(events).collected == scan.collected + fetched(events),
        scan.run(events).offset == scan.offset + fetched_len(events),
        fetched(events).len() == fetched_len(events),
    decreases events.len(),
{
    if events.len() > 0 {
        let before = events.drop_last();
        lemma_run_collects(scan, before);
        lemma_run_wf(scan, before);
    }
}

/// From its start on, the offset of a scan is the sum of the lengths of the
/// pages that came, and it counts the collected messages, which are those of
/// the pages in the order they came.
pub proof fn lemma_offset_sums_pages(scan: ScanView, events: Seq<ScanEventView>)
    requires
        scan.started().follows(events),
    ensures
        scan.started().run(events).offset == fetched_len(events),
        scan.started().run(events).offset == scan.started().run(events).collected.len(),
        scan.started().run(events).collected == fetched(events),
{
    lemma_run_collects(scan.started(), events);
}

/// A scan is done if and only if a request came back with a page without
/// messages; that request was its last.
pub proof fn lemma_done_iff_empty_page(scan: ScanView, events: Seq<ScanEventView>)
    requires
        scan.started().follows(events),
    ensures
        scan.started().run(events).status is Done <==> exists|i: int|
            0 <= i < events.len() && (#[trigger] events[i]).is_empty_page(),
        forall|i: int|
            0 <= i < events.len() && (#[trigger] events[i]).is_empty_page() ==> i == events.len()
                - 1,
{
    lemma_scan_shape(scan.started(), events);
}

/// A scan has failed if and only if a request failed, and then for the reason
/// that the request gave; that request was its last, and the scan holds what it
/// held before it, unchanged.
pub proof fn lemma_failed_iff_fetch_failed(scan: ScanView, events: Seq<ScanEventView>)
    requires
        scan.started().follows(events),
    ensures
        forall|reason: FetchError|
            scan.started().run(events).status == ScanStatus::Failed(reason) <==> exists|i: int|
                0 <= i < events.len() && #[trigger] events[i] == ScanEventView::Fetched(
                    Err(reason),
                ),
        forall|i: int|
            0 <= i < events.len() && (#[trigger] events[i]).is_failure() ==> {
                &&& i == events.len() - 1
                &&& scan.started().run(events).collected == scan.started().run(
                    events.take(i),
                ).collected
                &&& scan.started().run(events).offset == scan.started().run(events.take(i)).offset
            },
{
    lemma_scan_shape(scan.started(), events);
}

/// A scan is cancelled if and only if a cancel signal came; it came in the
/// wait that follows a page with messages, before the next request, and was
/// the last event. The scan holds what it held when the wait began.
pub proof fn lemma_cancelled_between_pages(scan: ScanView, events: Seq<ScanEventView>)
    requires
        scan.started().follows(events),
    ensures
        scan.started().run(events).status is Cancelled <==> exists|i: int|
            0 <= i < events.len() && #[trigger] events[i] == ScanEventView::Polled(true),
        forall|i: int|
            0 <= i < events.len() && #[trigger] events[i] == ScanEventView::Polled(true) ==> {
                &&& i == events.len() - 1
                &&& i > 0
                &&& events[i - 1].is_full_page()
                &&& scan.started().run(events).collected == scan.started().run(
                    events.take(i),
                ).collected
                &&& scan.started().run(events).offset == scan.started().run(events.take(i)).offset
            },
{
    lemma_scan_shape(scan.started(), events);
    assert forall|i: int|
        0 <= i < events.len() && #[trigger] events[i] == ScanEventView::Polled(true) implies {
        &&& i == events.len() - 1
        &&& i > 0
        &&& events[i - 1].is_full_page()
        &&& scan.started().run(events).collected == scan.started().run(events.take(i)).collected
        &&& scan.started().run(events).offset == scan.started().run(events.take(i)).offset
    } by {
        lemma_run_wf(scan.started(), events.drop_last());
        lemma_scan_shape(scan.started(), events.drop_last());
    }
}

/// What a cancelled scan holds is the beginning of what the scan would have
/// collected had it gone on. Take a scan that is cancelled after `before`, and
/// the same scan with no cancel signal there, going on by `more`: what the
/// first holds is what the second holds up to that length, in the same order,
/// and the second holds more exactly when `more` brings a message.
pub proof fn lemma_cancelled_is_prefix(
    scan: ScanView,
    before: Seq<ScanEventView>,
    more: Seq<ScanEventView>,
)
    requires
        scan.started().follows(before.push(ScanEventView::Polled(true))),
        scan.started().follows(before.push(ScanEventView::Polled(false)) + more),
    ensures
        scan.started().run(before.push(ScanEventView::Polled(true))).status is Cancelled,
        scan.started().run(before.push(ScanEventView::Polled(true))).collected.is_prefix_of(
            scan.started().run(before.push(ScanEventView::Polled(false)) + more).collected,
        ),
        scan.started().run(before.push(ScanEventView::Polled(true))).collected.len()
            < scan.started().run(before.push(ScanEventView::Polled(false)) + more).collected.len()
            <==> fetched_len(more) > 0,
{
    let cut = before.push(ScanEventView::Polled(true));
    let open = before.push(ScanEventView::Polled(false));
    assert(cut.drop_last() =~= before);
    assert(open.drop_last() =~= before);
    let at_wait = scan.started().run(before);
    lemma_run_wf(scan.started(), before);
    lemma_run_on(scan.started(), open, more);
    lemma_run_collects(at_wait.step(ScanEventView::Polled(false)), more);
}

} // verus!
