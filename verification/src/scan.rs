//! The scan: page after page until the server has no more, a request fails or
//! the operator cancels.

use crate::activity::{aggregate, hour_counts, hours_of, parseable, total, HourHistogram};
use crate::discord::{message_views, Message, MessageView};
use crate::search::{
    outcome_view, FetchError, InputValidationError, Messenger, MessengerView, ScanTarget,
    ScanTargetView, SearchPage, SearchPageView,
};
use crate::text::{decimal, push_decimal};
use vstd::prelude::*;
use vstd::string::StringExecFns;

verus! {

/// How long one wait for a cancel signal lasts at most, in milliseconds.
pub const POLL_MILLIS: u64 = 1000;

/// The least time from one request to the next, in milliseconds.
pub const FETCH_GAP_MILLIS: u64 = 1000;

/// How long the next request has to wait still, `elapsed` milliseconds after
/// the last one was sent.
pub fn fetch_wait(elapsed: u64) -> (wait: u64)
    ensures
        elapsed + wait >= FETCH_GAP_MILLIS,
        wait == (if elapsed < FETCH_GAP_MILLIS {
            FETCH_GAP_MILLIS - elapsed
        } else {
            0
        }),
{
    if elapsed < FETCH_GAP_MILLIS {
        FETCH_GAP_MILLIS - elapsed
    } else {
        0
    }
}

/// How far a scan is.
#[derive(Clone, Copy, Debug, PartialEq, Eq, Structural)]
pub enum ScanStatus {
    /// Not started.
    Idle,
    /// Pages are being fetched.
    Running,
    /// The server had no more messages.
    Done,
    /// The operator cancelled between two pages.
    Cancelled,
    /// A request failed.
    Failed(FetchError),
}

/// What whoever runs the scan does next.
#[derive(Clone, Copy, Debug, PartialEq, Eq, Structural)]
pub enum ScanAction {
    /// Ask for the next page, no sooner than [`FETCH_GAP_MILLIS`] after the
    /// last request, and hand back what came of it.
    Fetch,
    /// Show the scan as it stands, watch for a cancel signal for up to
    /// [`POLL_MILLIS`], and hand back whether one came.
    Poll,
    /// Nothing: no scan is running.
    Stop,
}

/// What happened outside the scan.
#[derive(Debug, PartialEq, Eq)]
pub enum ScanEvent {
    /// What the request for the next page came to.
    Fetched(Result<SearchPage, FetchError>),
    /// The wait for a cancel signal is over; `true` if one came.
    Polled(bool),
}

/// What a [`ScanEvent`] holds.
pub enum ScanEventView {
    Fetched(Result<SearchPageView, FetchError>),
    Polled(bool),
}

impl View for ScanEvent {
    type V = ScanEventView;

    open spec fn view(&self) -> ScanEventView {
        match self {
            ScanEvent::Fetched(outcome) => ScanEventView::Fetched(outcome_view(*outcome)),
            ScanEvent::Polled(cancel) => ScanEventView::Polled(*cancel),
        }
    }
}

impl ScanEventView {
    /// The messages that the event brings: those of a page that came, else none.
    pub open spec fn messages(self) -> Seq<MessageView> {
        match self {
            ScanEventView::Fetched(Ok(page)) => page.messages,
            _ => Seq::empty(),
        }
    }

    /// A request came back with a page without messages.
    pub open spec fn is_empty_page(self) -> bool {
        self matches ScanEventView::Fetched(Ok(page)) && page.messages.len() == 0
    }

    /// A request came back with a page with messages.
    pub open spec fn is_full_page(self) -> bool {
        self matches ScanEventView::Fetched(Ok(page)) && page.messages.len() > 0
    }

    /// A request failed.
    pub open spec fn is_failure(self) -> bool {
        self matches ScanEventView::Fetched(Err(_))
    }
}

/// A scan as a value: what a [`ScanState`] holds.
pub struct ScanView {
    pub token: Seq<char>,
    pub target: ScanTargetView,
    /// The messages of all pages so far, in the order they came.
    pub collected: Seq<MessageView>,
    /// How many messages came so far.
    pub offset: nat,
    /// How many matches the server reported with the last page.
    pub total_results: nat,
    pub status: ScanStatus,
    /// A page was merged, and the wait for a cancel signal that follows it is
    /// not over.
    pub polling: bool,
}

impl ScanView {
    /// What always holds of a scan: the offset counts the collected messages,
    /// and only a running scan waits for a cancel signal.
    pub open spec fn wf(self) -> bool {
        &&& self.offset == self.collected.len()
        &&& self.polling ==> self.status is Running
    }

    /// What the scan waits for.
    pub open spec fn pending(self) -> ScanAction {
        if !(self.status is Running) {
            ScanAction::Stop
        } else if self.polling {
            ScanAction::Poll
        } else {
            ScanAction::Fetch
        }
    }

    /// The scan begun anew: nothing collected, the first request pending.
    pub open spec fn started(self) -> ScanView {
        ScanView {
            collected: Seq::empty(),
            offset: 0,
            total_results: 0,
            status: ScanStatus::Running,
            polling: false,
            ..self
        }
    }

    /// The scan clear of what it collected, as before its start.
    pub open spec fn cleared(self) -> ScanView {
        ScanView {
            collected: Seq::empty(),
            offset: 0,
            total_results: 0,
            status: ScanStatus::Idle,
            polling: false,
            ..self
        }
    }

    /// Where the scan stands, in words.
    pub open spec fn status_line(self) -> Seq<char> {
        match self.status {
            ScanStatus::Idle => "Idle"@,
            ScanStatus::Running => "Working... ("@ + decimal(self.offset) + "/"@ + decimal(
                self.total_results,
            ) + ")"@,
            ScanStatus::Done => "Done!"@,
            ScanStatus::Cancelled => "Cancelled"@,
            ScanStatus::Failed(reason) => "Failed: "@ + reason.text(),
        }
    }

    /// The last `count` messages, or all if there are fewer, the newest first,
    /// each as one line.
    pub open spec fn recent(self, count: nat) -> Seq<Seq<char>> {
        Seq::new(
            if count <= self.collected.len() {
                count
            } else {
                self.collected.len()
            },
            |i: int| self.collected[self.collected.len() - 1 - i].line(),
        )
    }

    /// The scan after `event`.
    ///
    /// A scan that is not running stays as it is. A running one takes the
    /// event that it waits for and stays as it is on any other:
    /// - a failed request ends it as `Failed`, with the reason;
    /// - a page without messages ends it as `Done`;
    /// - a page with messages is appended, the offset moves on by its length,
    ///   and the wait for a cancel signal begins;
    /// - a cancel signal ends it as `Cancelled`; without one the next request
    ///   is pending.
    /// The total is that of the last page that came, whatever it held.
    pub open spec fn step(self, event: ScanEventView) -> ScanView {
        match (self.pending(), event) {
            (ScanAction::Fetch, ScanEventView::Fetched(Err(reason))) => ScanView {
                status: ScanStatus::Failed(reason),
                ..self
            },
            (ScanAction::Fetch, ScanEventView::Fetched(Ok(page))) => if page.messages.len() == 0 {
                ScanView { status: ScanStatus::Done, total_results: page.total_results, ..self }
            } else {
                ScanView {
                    collected: self.collected + page.messages,
                    offset: self.offset + page.messages.len(),
                    total_results: page.total_results,
                    polling: true,
                    ..self
                }
            },
            (ScanAction::Poll, ScanEventView::Polled(cancel)) => if cancel {
                ScanView { status: ScanStatus::Cancelled, polling: false, ..self }
            } else {
                ScanView { polling: false, ..self }
            },
            _ => self,
        }
    }
}

/// Where a scan stands, and what a running one waits for.
#[derive(Clone, Copy, Debug, PartialEq, Eq, Structural)]
enum Phase {
    Idle,
    /// Running: the next page is to be fetched.
    Fetching,
    /// Running: a page was merged, and the wait for a cancel signal is on.
    Polling,
    Done,
    Cancelled,
    Failed(FetchError),
}

impl Phase {
    spec fn status(self) -> ScanStatus {
        match self {
            Phase::Idle => ScanStatus::Idle,
            Phase::Fetching => ScanStatus::Running,
            Phase::Polling => ScanStatus::Running,
            Phase::Done => ScanStatus::Done,
            Phase::Cancelled => ScanStatus::Cancelled,
            Phase::Failed(reason) => ScanStatus::Failed(reason),
        }
    }
}

/// One scan and all that it has collected.
///
/// The offset is not kept beside the collected messages: it is their number.
#[derive(Debug, PartialEq, Eq)]
pub struct ScanState {
    token: String,
    target: ScanTarget,
    collected: Vec<Message>,
    total_results: u32,
    phase: Phase,
}

impl View for ScanState {
    type V = ScanView;

    closed spec fn view(&self) -> ScanView {
        ScanView {
            token: self.token@,
            target: self.target@,
            collected: message_views(self.collected@),
            offset: self.collected@.len(),
            total_results: self.total_results as nat,
            status: self.phase.status(),
            polling: self.phase is Polling,
        }
    }
}

impl ScanState {
    /// Every scan is in order.
    pub proof fn lemma_wf(&self)
        ensures
            self@.wf(),
    {
    }

    /// A scan that has not started, for the search that `messenger` names.
    pub fn new(messenger: Messenger) -> (scan: ScanState)
        ensures
            scan@ == (ScanView {
                token: messenger@.token,
                target: messenger@.target,
                collected: Seq::empty(),
                offset: 0,
                total_results: 0,
                status: ScanStatus::Idle,
                polling: false,
            }),
    {
        let scan = ScanState {
            token: messenger.token,
            target: messenger.target,
            collected: Vec::new(),
            total_results: 0,
            phase: Phase::Idle,
        };
        assert(scan@.collected =~= Seq::empty());
        scan
    }

    /// Begins the scan, anew if it had begun before: what was collected is
    /// dropped, and the first page is to be fetched. Where the author or the
    /// guild is not named, nothing begins and the scan stays as it is.
    pub fn start(&mut self) -> (result: Result<ScanAction, InputValidationError>)
        ensures
            match old(self)@.target.missing() {
                None => final(self)@ == old(self)@.started() && result == Ok::<
                    ScanAction,
                    InputValidationError,
                >(ScanAction::Fetch),
                Some(error) => final(self)@ == old(self)@ && result == Err::<
                    ScanAction,
                    InputValidationError,
                >(error),
            },
    {
        match self.target.missing() {
            Some(error) => {
                return Err(error);
            },
            None => {},
        }
        self.collected = Vec::new();
        self.total_results = 0;
        self.phase = Phase::Fetching;
        assert(self@.collected =~= Seq::empty());
        Ok(ScanAction::Fetch)
    }

    /// Takes in `event` and says what to do next.
    pub fn step(&mut self, event: ScanEvent) -> (action: ScanAction)
        ensures
            final(self)@ == old(self)@.step(event@),
            action == final(self)@.pending(),
    {
        match self.phase {
            Phase::Fetching => match event {
                ScanEvent::Fetched(Ok(page)) => {
                    let mut page = page;
                    self.total_results = page.total_results;
                    if page.messages.len() == 0 {
                        self.phase = Phase::Done;
                        ScanAction::Stop
                    } else {
                        let ghost before = self.collected@;
                        let ghost added = page.messages@;
                        self.collected.append(&mut page.messages);
                        self.phase = Phase::Polling;
                        assert(message_views(self.collected@) =~= message_views(before)
                            + message_views(added));
                        ScanAction::Poll
                    }
                },
                ScanEvent::Fetched(Err(reason)) => {
                    self.phase = Phase::Failed(reason);
                    ScanAction::Stop
                },
                ScanEvent::Polled(_) => ScanAction::Fetch,
            },
            Phase::Polling => match event {
                ScanEvent::Polled(cancel) => {
                    if cancel {
                        self.phase = Phase::Cancelled;
                        ScanAction::Stop
                    } else {
                        self.phase = Phase::Fetching;
                        ScanAction::Fetch
                    }
                },
                ScanEvent::Fetched(_) => ScanAction::Poll,
            },
            _ => ScanAction::Stop,
        }
    }

    /// What the scan waits for.
    pub fn pending(&self) -> (action: ScanAction)
        ensures
            action == self@.pending(),
    {
        match self.phase {
            Phase::Fetching => ScanAction::Fetch,
            Phase::Polling => ScanAction::Poll,
            _ => ScanAction::Stop,
        }
    }

    /// How far the scan is.
    pub fn status(&self) -> (status: ScanStatus)
        ensures
            status == self@.status,
    {
        match self.phase {
            Phase::Idle => ScanStatus::Idle,
            Phase::Fetching => ScanStatus::Running,
            Phase::Polling => ScanStatus::Running,
            Phase::Done => ScanStatus::Done,
            Phase::Cancelled => ScanStatus::Cancelled,
            Phase::Failed(reason) => ScanStatus::Failed(reason),
        }
    }

    /// How many messages came so far.
    pub fn offset(&self) -> (offset: usize)
        ensures
            offset == self@.offset,
    {
        self.collected.len()
    }

    /// How many matches the server reported with the last page.
    pub fn total_results(&self) -> (total: u32)
        ensures
            total == self@.total_results,
    {
        self.total_results
    }

    /// The messages of all pages so far, in the order they came.
    pub fn collected(&self) -> (collected: &Vec<Message>)
        ensures
            message_views(collected@) == self@.collected,
    {
        &self.collected
    }

    /// The search as it stands: whom it asks for, with which token, and how
    /// far it has come.
    pub fn messenger(&self) -> (messenger: Messenger)
        ensures
            messenger@ == (MessengerView {
                token: self@.token,
                target: self@.target,
                offset: self@.offset,
                total_results: self@.total_results,
            }),
    {
        Messenger {
            token: self.token.clone(),
            target: self.target.clone(),
            offset: self.collected.len(),
            total_results: self.total_results,
        }
    }

    /// Whose messages are sought, and where.
    pub fn target(&self) -> (target: &ScanTarget)
        ensures
            target@ == self@.target,
    {
        &self.target
    }

    /// The address of the page to fetch next.
    pub fn url(&self) -> (url: String)
        ensures
            url@ == self@.target.url(self@.offset),
    {
        self.target.url(self.collected.len())
    }

    /// Drops what was collected: the scan is as before its start.
    pub fn clear(&mut self)
        ensures
            final(self)@ == old(self)@.cleared(),
    {
        self.collected = Vec::new();
        self.total_results = 0;
        self.phase = Phase::Idle;
        assert(self@.collected =~= Seq::empty());
    }

    /// Where the scan stands, in words.
    pub fn status_line(&self) -> (line: String)
        ensures
            line@ == self@.status_line(),
    {
        match self.status() {
            ScanStatus::Idle => String::from_str("Idle"),
            ScanStatus::Running => {
                let mut line = String::from_str("Working... (");
                push_decimal(&mut line, self.collected.len() as u64);
                line.append("/");
                push_decimal(&mut line, self.total_results as u64);
                line.append(")");
                line
            },
            ScanStatus::Done => String::from_str("Done!"),
            ScanStatus::Cancelled => String::from_str("Cancelled"),
            ScanStatus::Failed(reason) => {
                let mut line = String::from_str("Failed: ");
                let text = reason.to_string();
                line.append(text.as_str());
                line
            },
        }
    }

    /// The last `count` messages, or all if there are fewer, the newest first,
    /// each as one line.
    pub fn recent(&self, count: usize) -> (lines: Vec<String>)
        ensures
            lines@.len() == self@.recent(count as nat).len(),
            forall|i: int|
                0 <= i < lines@.len() ==> (#[trigger] lines@[i])@ == self@.recent(count as nat)[i],
    {
        let length: usize = self.collected.len();
        let wanted: usize = if count <= length {
            count
        } else {
            length
        };
        let mut lines: Vec<String> = Vec::new();
        let mut i: usize = 0;
        while i < wanted
            invariant
                i <= wanted <= length,
                length == self.collected@.len(),
                wanted == self@.recent(count as nat).len(),
                lines@.len() == i,
                forall|j: int|
                    0 <= j < i ==> (#[trigger] lines@[j])@ == self@.recent(count as nat)[j],
            decreases wanted - i,
        {
            let line = self.collected[length - 1 - i].to_string();
            lines.push(line);
            i = i + 1;
        }
        lines
    }

    /// The collected messages counted by hour of day, counted afresh.
    pub fn histogram(&self) -> (histogram: HourHistogram)
        ensures
            histogram@ == hour_counts(hours_of(self@.collected)),
            total(histogram@) == parseable(self@.collected),
            total(histogram@) <= self@.collected.len(),
    {
        aggregate(&self.collected)
    }
}

} // verus!
