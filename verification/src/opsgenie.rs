//! The engine itself: the store, the configuration and the schedule of the
//! polls, driven by the events that the caller reports.
//!
//! The caller owns the timer, the cancellation signal, the clock, the
//! connection to the alerting service and the notification service. It tells
//! the engine what has happened ([`Event`]) and does what the engine answers
//! ([`Outcome`]):
//!
//! * while the engine is idle, it waits for the timer or the cancellation
//!   signal, whichever comes first, and reports it;
//! * where the answer asks for the clock, it reads it and reports the
//!   instant;
//! * where the answer holds a request, it lets the stated delay pass, sends
//!   the request, and reports the page received or the failure; a timer that
//!   fires meanwhile and a cancellation asked for meanwhile are reported as
//!   they come;
//! * where the answer reports a completed poll, it delivers the
//!   notifications decided on before it does anything else.

use crate::alert::{AlertRecord, AlertView, RecordView};
use crate::config::{Config, ConfigView};
use crate::dispatch::{decide_all, dispatches_for, Dispatch, DispatchView};
use crate::paging::{
    Page, PageRequest, PageRequestView, PageView, Paginator, PaginatorView, Progress,
    RATE_LIMIT_DELAY_SECS,
};
use crate::query::{query_for, query_text, watermark, watermark_of};
use crate::store::{
    is_latest_update, latest_update_of, lemma_latest_update_absent, lemma_latest_update_is_maximum,
    AlertStore,
};
use crate::sync::{lemma_merged_domain, lemma_second_merge_is_idle, merge, merged, new_ids};
use crate::time::{Timestamp, SECONDS_PER_DAY};
use vstd::prelude::*;
use vstd::string::StringExecFns;

verus! {

/// The word that precedes the key in the service's authorisation scheme.
pub open spec fn key_prefix() -> Seq<char> {
    "GenieKey"@
}

/// What a client of the alerting service needs to know to reach it.
#[derive(Clone, Debug, PartialEq, Eq)]
pub struct ApiSettings {
    pub key_prefix: String,
    pub key: String,
    pub base_path: String,
}

/// What an [`ApiSettings`] holds.
pub struct ApiSettingsView {
    pub key_prefix: Seq<char>,
    pub key: Seq<char>,
    pub base_path: Seq<char>,
}

impl View for ApiSettings {
    type V = ApiSettingsView;

    open spec fn view(&self) -> ApiSettingsView {
        ApiSettingsView {
            key_prefix: self.key_prefix@,
            key: self.key@,
            base_path: self.base_path@,
        }
    }
}

/// Why a poll was given up.
#[derive(Clone, Copy, Debug, PartialEq, Eq, Hash, Structural)]
pub enum FetchError {
    /// The alerting service could not be reached or refused the request.
    Service,
    /// The answer has more pages than the request's offset can address.
    OffsetOutOfRange,
}

/// What the caller reports to the engine.
#[derive(Clone, Debug, PartialEq, Eq)]
pub enum Event {
    /// The poll timer has fired.
    TimerFired,
    /// The user has asked the engine to stop.
    CancelRequested,
    /// The clock, read because the engine asked for it, shows this instant.
    ClockRead(Timestamp),
    /// The alerting service has answered the request last handed out.
    PageReceived(Page),
    /// The request last handed out has failed.
    FetchFailed,
}

/// What an [`Event`] holds.
pub enum EventView {
    TimerFired,
    CancelRequested,
    ClockRead(Timestamp),
    PageReceived(PageView),
    FetchFailed,
}

impl View for Event {
    type V = EventView;

    open spec fn view(&self) -> EventView {
        match self {
            Event::TimerFired => EventView::TimerFired,
            Event::CancelRequested => EventView::CancelRequested,
            Event::ClockRead(now) => EventView::ClockRead(*now),
            Event::PageReceived(page) => EventView::PageReceived(page@),
            Event::FetchFailed => EventView::FetchFailed,
        }
    }
}

/// What the caller is to do next.
#[derive(Clone, Debug, PartialEq, Eq)]
pub enum Next {
    /// Wait for the timer or the cancellation signal.
    Wait,
    /// Read the clock and report the instant.
    ReadClock,
    /// Let `delay_secs` seconds pass, send `request`, and report its result.
    Fetch { request: PageRequest, delay_secs: u64 },
    /// Go on with what is under way.
    Pending,
    /// Return: the engine has stopped.
    Stop,
}

/// What a [`Next`] holds.
pub enum NextView {
    Wait,
    ReadClock,
    Fetch { request: PageRequestView, delay_secs: int },
    Pending,
    Stop,
}

impl View for Next {
    type V = NextView;

    open spec fn view(&self) -> NextView {
        match self {
            Next::Wait => NextView::Wait,
            Next::ReadClock => NextView::ReadClock,
            Next::Fetch { request, delay_secs } => NextView::Fetch {
                request: request@,
                delay_secs: *delay_secs as int,
            },
            Next::Pending => NextView::Pending,
            Next::Stop => NextView::Stop,
        }
    }
}

/// What an event has brought about.
#[derive(Clone, Debug, PartialEq, Eq)]
pub enum Report {
    /// No poll has ended.
    Nothing,
    /// A poll has been completed and merged into the store. One decision for
    /// each identity that the poll has newly observed.
    Synced(Vec<Dispatch>),
    /// A poll has been given up and has left the store as it was.
    Abandoned(FetchError),
}

/// What a [`Report`] holds.
pub enum ReportView {
    Nothing,
    Synced(Seq<DispatchView>),
    Abandoned(FetchError),
}

impl View for Report {
    type V = ReportView;

    open spec fn view(&self) -> ReportView {
        match self {
            Report::Nothing => ReportView::Nothing,
            Report::Synced(dispatches) => ReportView::Synced(dispatches.deep_view()),
            Report::Abandoned(error) => ReportView::Abandoned(*error),
        }
    }
}

/// The engine's answer to an event. The caller deals with `report` first and
/// with `next` after it.
#[derive(Clone, Debug, PartialEq, Eq)]
pub struct Outcome {
    pub report: Report,
    pub next: Next,
}

/// What an [`Outcome`] holds.
pub struct OutcomeView {
    pub report: ReportView,
    pub next: NextView,
}

impl View for Outcome {
    type V = OutcomeView;

    open spec fn view(&self) -> OutcomeView {
        OutcomeView { report: self.report@, next: self.next@ }
    }
}

/// Where the engine stands in its schedule.
pub enum PhaseView {
    /// Between two polls.
    Idle,
    /// At the start of a poll for which the clock is being read.
    Starting {
        /// Whether the timer has fired again since the poll began.
        tick_missed: bool,
        /// Whether the user has asked to stop since the poll began.
        cancel_requested: bool,
    },
    /// In a poll, with a request under way.
    Running {
        /// Where the retrieval has got to.
        fetch: PaginatorView,
        /// The records retrieved so far, in the order received.
        batch: Seq<RecordView>,
        /// Whether the timer has fired again since the poll began.
        tick_missed: bool,
        /// Whether the user has asked to stop since the poll began.
        cancel_requested: bool,
    },
    /// Stopped for good.
    Stopped,
}

/// The engine's state.
pub struct EngineView {
    pub alerts: Map<Seq<char>, AlertView>,
    pub api: ApiSettingsView,
    pub request_limit: int,
    pub history_days: int,
    pub update_interval: int,
    pub phase: PhaseView,
}

impl EngineView {
    /// The state of a new engine: an empty store, the configuration's values,
    /// and no poll under way.
    pub open spec fn initial(config: ConfigView) -> EngineView {
        EngineView {
            alerts: Map::empty(),
            api: ApiSettingsView {
                key_prefix: key_prefix(),
                key: config.api_key,
                base_path: config.base_path,
            },
            request_limit: config.request_limit,
            history_days: config.history_days,
            update_interval: config.update_interval,
            phase: PhaseView::Idle,
        }
    }

    /// The instant from which a poll that begins at `now` asks for updates:
    /// the newest update time known, or, where there is none, the configured
    /// number of days before `now`.
    pub open spec fn query_watermark(self, now: Timestamp) -> Timestamp {
        watermark_of(latest_update_of(self.alerts), now, self.history_days)
    }

    /// The query of a poll that begins at `now`.
    pub open spec fn query(self, now: Timestamp) -> Seq<char> {
        query_text(self.query_watermark(now).secs as int)
    }

    /// Whether the engine has to be told the instant `now` before it can
    /// react to `event`: the event is a clock reading that the engine is
    /// waiting for, and no known alert carries an update time.
    pub open spec fn reads(self, event: EventView) -> bool {
        self.phase is Starting && event is ClockRead && latest_update_of(self.alerts) is None
    }

    /// Puts the first request of a poll under way: the first page of the
    /// query for `watermark` is asked for at once.
    pub open spec fn launch(self, watermark: Timestamp, tick_missed: bool, cancel_requested: bool)
        -> (EngineView, NextView) {
        let fetch = PaginatorView::start(query_text(watermark.secs as int), self.request_limit);
        (
            EngineView {
                phase: PhaseView::Running {
                    fetch,
                    batch: Seq::empty(),
                    tick_missed,
                    cancel_requested,
                },
                ..self
            },
            NextView::Fetch { request: fetch.request(), delay_secs: 0 },
        )
    }

    /// Begins a poll. Where an update time is known the poll asks from the
    /// newest one on and its first request goes out at once. Where none is
    /// known the clock has to be read first.
    pub open spec fn begin(self) -> (EngineView, NextView) {
        match latest_update_of(self.alerts) {
            Some(latest) => self.launch(latest, false, false),
            None => (
                EngineView {
                    phase: PhaseView::Starting { tick_missed: false, cancel_requested: false },
                    ..self
                },
                NextView::ReadClock,
            ),
        }
    }

    /// Ends a poll. A request to stop that came during the poll is obeyed
    /// now. Failing that, a poll that the timer asked for meanwhile begins at
    /// once, however often the timer has fired. Otherwise the engine is idle
    /// again.
    pub open spec fn settle(self, tick_missed: bool, cancel_requested: bool) -> (
        EngineView,
        NextView,
    ) {
        if cancel_requested {
            (EngineView { phase: PhaseView::Stopped, ..self }, NextView::Stop)
        } else if tick_missed {
            self.begin()
        } else {
            (EngineView { phase: PhaseView::Idle, ..self }, NextView::Wait)
        }
    }

    /// The engine's reaction to `event`: the state that follows, and the
    /// answer to the caller.
    pub open spec fn step(self, event: EventView) -> (EngineView, OutcomeView) {
        match self.phase {
            PhaseView::Stopped => (
                self,
                OutcomeView { report: ReportView::Nothing, next: NextView::Stop },
            ),
            PhaseView::Idle => match event {
                EventView::TimerFired => {
                    let (then, next) = self.begin();
                    (then, OutcomeView { report: ReportView::Nothing, next })
                },
                EventView::CancelRequested => (
                    EngineView { phase: PhaseView::Stopped, ..self },
                    OutcomeView { report: ReportView::Nothing, next: NextView::Stop },
                ),
                _ => (self, OutcomeView { report: ReportView::Nothing, next: NextView::Wait }),
            },
            PhaseView::Starting { tick_missed, cancel_requested } => match event {
                EventView::ClockRead(now) => {
                    let (then, next) = self.launch(
                        self.query_watermark(now),
                        tick_missed,
                        cancel_requested,
                    );
                    (then, OutcomeView { report: ReportView::Nothing, next })
                },
                EventView::TimerFired => (
                    EngineView {
                        phase: PhaseView::Starting { tick_missed: true, cancel_requested },
                        ..self
                    },
                    OutcomeView { report: ReportView::Nothing, next: NextView::Pending },
                ),
                EventView::CancelRequested => (
                    EngineView {
                        phase: PhaseView::Starting { tick_missed, cancel_requested: true },
                        ..self
                    },
                    OutcomeView { report: ReportView::Nothing, next: NextView::Pending },
                ),
                _ => (self, OutcomeView { report: ReportView::Nothing, next: NextView::Pending }),
            },
            PhaseView::Running { fetch, batch, tick_missed, cancel_requested } => match event {
                EventView::TimerFired => (
                    EngineView {
                        phase: PhaseView::Running {
                            fetch,
                            batch,
                            tick_missed: true,
                            cancel_requested,
                        },
                        ..self
                    },
                    OutcomeView { report: ReportView::Nothing, next: NextView::Pending },
                ),
                EventView::CancelRequested => (
                    EngineView {
                        phase: PhaseView::Running {
                            fetch,
                            batch,
                            tick_missed,
                            cancel_requested: true,
                        },
                        ..self
                    },
                    OutcomeView { report: ReportView::Nothing, next: NextView::Pending },
                ),
                EventView::ClockRead(_) => (
                    self,
                    OutcomeView { report: ReportView::Nothing, next: NextView::Pending },
                ),
                EventView::FetchFailed => {
                    let (then, next) = self.settle(tick_missed, cancel_requested);
                    (then, OutcomeView { report: ReportView::Abandoned(FetchError::Service), next })
                },
                EventView::PageReceived(page) => match fetch.progress(page) {
                    Progress::NextPage => (
                        EngineView {
                            phase: PhaseView::Running {
                                fetch: fetch.accept(page),
                                batch: batch + page.records(),
                                tick_missed,
                                cancel_requested,
                            },
                            ..self
                        },
                        OutcomeView {
                            report: ReportView::Nothing,
                            next: NextView::Fetch {
                                request: fetch.accept(page).request(),
                                delay_secs: RATE_LIMIT_DELAY_SECS as int,
                            },
                        },
                    ),
                    Progress::OffsetOutOfRange => {
                        let (then, next) = self.settle(tick_missed, cancel_requested);
                        (
                            then,
                            OutcomeView {
                                report: ReportView::Abandoned(FetchError::OffsetOutOfRange),
                                next,
                            },
                        )
                    },
                    Progress::Finished => {
                        let all = batch + page.records();
                        let synced = EngineView { alerts: merged(self.alerts, all), ..self };
                        let dispatches = dispatches_for(
                            synced.alerts,
                            new_ids(self.alerts.dom(), all),
                        );
                        let (then, next) = synced.settle(tick_missed, cancel_requested);
                        (then, OutcomeView { report: ReportView::Synced(dispatches), next })
                    },
                },
            },
        }
    }
}

/// While no known alert carries an update time, and so while the store is
/// empty, a poll reaches back the configured number of days from the instant
/// at which it begins: the engine asks for the clock, and the first request
/// that follows the reading carries the query for that instant.
pub proof fn lemma_first_poll_reaches_back(engine: EngineView, now: Timestamp)
    requires
        forall|id: Seq<char>| #[trigger]
            engine.alerts.contains_key(id) ==> engine.alerts[id].updated_at is None,
    ensures
        engine.query_watermark(now) == now.minus_days(engine.history_days),
        engine.query(now) == query_text(now.minus_days(engine.history_days).secs as int),
        engine.phase is Idle ==> engine.step(EventView::TimerFired).1.next == NextView::ReadClock
            && engine.step(EventView::TimerFired).0.step(EventView::ClockRead(now)).1.next == (
            NextView::Fetch {
                request: PaginatorView::start(
                    query_text(now.minus_days(engine.history_days).secs as int),
                    engine.request_limit,
                ).request(),
                delay_secs: 0,
            }),
{
    lemma_latest_update_absent(engine.alerts);
}

/// Once an alert carries an update time, a poll asks from the newest one on,
/// whatever the clock says and however many days of history are configured:
/// the clock is not even asked for.
pub proof fn lemma_poll_starts_at_latest_update(
    engine: EngineView,
    latest: Timestamp,
    now: Timestamp,
)
    requires
        is_latest_update(engine.alerts, latest),
    ensures
        engine.query_watermark(now) == latest,
        engine.query(now) == query_text(latest.secs as int),
        engine.phase is Idle ==> engine.step(EventView::TimerFired).1.next == (NextView::Fetch {
            request: PaginatorView::start(
                query_text(latest.secs as int),
                engine.request_limit,
            ).request(),
            delay_secs: 0,
        }),
{
    lemma_latest_update_is_maximum(engine.alerts, latest);
}

/// The engine asks for the clock only at the start of a poll, and only while
/// the store, as the poll finds it, holds no update time.
pub proof fn lemma_clock_is_read_only_when_needed(engine: EngineView, event: EventView)
    requires
        engine.step(event).1.next is ReadClock,
    ensures
        engine.step(event).0.phase is Starting,
        latest_update_of(engine.step(event).0.alerts) is None,
        engine.phase is Idle || engine.phase is Running,
{
}

/// A stopped engine stays as it is and answers every event with `Stop`.
pub proof fn lemma_stopped_is_final(engine: EngineView, event: EventView)
    requires
        engine.phase is Stopped,
    ensures
        engine.step(event) == (
            engine,
            OutcomeView { report: ReportView::Nothing, next: NextView::Stop },
        ),
{
}

/// No event makes the engine forget an alert or change its configuration, and
/// only a completed poll changes the store at all: it then holds the merge of
/// everything that the poll has retrieved. A poll that is given up leaves the
/// store as it was.
pub proof fn lemma_store_only_grows(engine: EngineView, event: EventView)
    ensures
        engine.alerts.dom().subset_of(engine.step(event).0.alerts.dom()),
        !(engine.step(event).1.report is Synced) ==> engine.step(event).0.alerts == engine.alerts,
        engine.step(event).1.report is Abandoned ==> engine.step(event).0.alerts == engine.alerts
            && engine.phase is Running && (event is FetchFailed || event is PageReceived),
        engine.step(event).0.api == engine.api,
        engine.step(event).0.request_limit == engine.request_limit,
        engine.step(event).0.history_days == engine.history_days,
        engine.step(event).0.update_interval == engine.update_interval,
{
    if let PhaseView::Running { fetch, batch, tick_missed, cancel_requested } = engine.phase {
        if let EventView::PageReceived(page) = event {
            lemma_merged_domain(engine.alerts, batch + page.records());
        }
    }
}

/// Every request but the first of a poll follows a page after which another
/// is due, one page size further on and after the rate-limit delay, whether or
/// not the user has asked to stop meanwhile. A first request goes out at once
/// and at offset 0, and only where no poll is under way: when the timer fires
/// on an idle engine, after the clock reading that such a poll has asked for,
/// or at the very end of a poll during which the timer fired and nobody asked
/// to stop. The query of a poll is fixed with its first request.
pub proof fn lemma_requests_are_paced(engine: EngineView, event: EventView)
    ensures
        ({
            let (then, outcome) = engine.step(event);
            let follows = engine.phase is Running && event is PageReceived
                && engine.phase->fetch.progress(event->PageReceived_0) == Progress::NextPage;
            &&& follows ==> outcome.next == (NextView::Fetch {
                request: PageRequestView {
                    offset: engine.phase->fetch.offset + engine.phase->fetch.limit,
                    ..engine.phase->fetch.request()
                },
                delay_secs: RATE_LIMIT_DELAY_SECS as int,
            })
            &&& !follows && outcome.next is Fetch ==> {
                &&& outcome.next->delay_secs == 0
                &&& outcome.next->request.offset == 0
                &&& outcome.next->request.limit == engine.request_limit
                &&& then.phase is Running
                &&& then.phase->fetch.request() == outcome.next->request
                &&& then.phase->batch == Seq::<RecordView>::empty()
                &&& engine.phase is Idle ==> event is TimerFired
                &&& engine.phase is Starting ==> event is ClockRead
                &&& engine.phase is Running ==> engine.phase->Running_tick_missed
                    && !engine.phase->Running_cancel_requested
                &&& !(engine.phase is Stopped)
            }
        }),
{
}

/// The query and the page size of a poll are fixed when it begins: as long as
/// an event does not end the poll, the retrieval goes on with the query and
/// the page size that it had, whatever the store, the clock or the timer do
/// meanwhile, and what has been retrieved so far is kept.
pub proof fn lemma_query_is_fixed_for_the_poll(engine: EngineView, event: EventView)
    requires
        engine.phase is Running,
        engine.step(event).1.report is Nothing,
    ensures
        ({
            let then = engine.step(event).0;
            &&& then.phase is Running
            &&& then.phase->fetch.query == engine.phase->fetch.query
            &&& then.phase->fetch.limit == engine.phase->fetch.limit
            &&& engine.phase->batch.is_prefix_of(then.phase->batch)
            &&& then.alerts == engine.alerts
        }),
{
}

/// Every identity that a completed poll has newly observed is decided about
/// in the very answer that reports the poll, also where that answer tells the
/// caller to stop.
pub proof fn lemma_no_new_alert_is_lost(engine: EngineView, page: PageView)
    requires
        engine.phase is Running,
        engine.step(EventView::PageReceived(page)).1.report is Synced,
    ensures
        ({
            let all = engine.phase->batch + page.records();
            let (then, outcome) = engine.step(EventView::PageReceived(page));
            &&& then.alerts == merged(engine.alerts, all)
            &&& outcome.report == ReportView::Synced(
                dispatches_for(then.alerts, new_ids(engine.alerts.dom(), all)),
            )
            &&& outcome.report->Synced_0.len() == new_ids(engine.alerts.dom(), all).len()
        }),
{
}

/// A poll that brings back what the poll before it has merged finds nothing
/// new and leaves the store as it is. Stated for polls of a single page that
/// no timer and no request to stop interrupts: `first` and `second` are where
/// the two retrievals stand, and their queries may differ.
pub proof fn lemma_repeated_poll_finds_nothing_new(
    engine: EngineView,
    first: PaginatorView,
    second: PaginatorView,
    page: PageView,
)
    requires
        !page.continues(),
    ensures
        ({
            let polling = EngineView {
                phase: PhaseView::Running {
                    fetch: first,
                    batch: Seq::empty(),
                    tick_missed: false,
                    cancel_requested: false,
                },
                ..engine
            };
            let (synced, once) = polling.step(EventView::PageReceived(page));
            let again = EngineView {
                phase: PhaseView::Running {
                    fetch: second,
                    batch: Seq::empty(),
                    tick_missed: false,
                    cancel_requested: false,
                },
                ..synced
            };
            let (then, twice) = again.step(EventView::PageReceived(page));
            &&& once == (OutcomeView {
                report: ReportView::Synced(
                    dispatches_for(synced.alerts, new_ids(engine.alerts.dom(), page.records())),
                ),
                next: NextView::Wait,
            })
            &&& synced.alerts == merged(engine.alerts, page.records())
            &&& synced.phase is Idle
            &&& twice == (OutcomeView {
                report: ReportView::Synced(Seq::empty()),
                next: NextView::Wait,
            })
            &&& then == synced
        }),
{
    let records = page.records();
    assert(Seq::<RecordView>::empty() + records =~= records);
    lemma_second_merge_is_idle(engine.alerts, records);
    let known = merged(engine.alerts, records);
    assert(dispatches_for(known, Seq::<Seq<char>>::empty()) =~= Seq::<DispatchView>::empty());
}

enum Phase {
    Idle,
    Starting { tick_missed: bool, cancel_requested: bool },
    Running { fetch: Paginator, batch: Vec<AlertRecord>, tick_missed: bool, cancel_requested: bool },
    Stopped,
}

impl View for Phase {
    type V = PhaseView;

    closed spec fn view(&self) -> PhaseView {
        match self {
            Phase::Idle => PhaseView::Idle,
            Phase::Starting { tick_missed, cancel_requested } => PhaseView::Starting {
                tick_missed: *tick_missed,
                cancel_requested: *cancel_requested,
            },
            Phase::Running { fetch, batch, tick_missed, cancel_requested } => PhaseView::Running {
                fetch: fetch@,
                batch: batch.deep_view(),
                tick_missed: *tick_missed,
                cancel_requested: *cancel_requested,
            },
            Phase::Stopped => PhaseView::Stopped,
        }
    }
}

/// The synchronisation engine for one account of the alerting service.
pub struct OpsGenieInterface {
    alerts: AlertStore,
    api: ApiSettings,
    request_limit: u8,
    history_days: u8,
    update_interval: u8,
    phase: Phase,
}

impl View for OpsGenieInterface {
    type V = EngineView;

    closed spec fn view(&self) -> EngineView {
        EngineView {
            alerts: self.alerts@,
            api: self.api@,
            request_limit: self.request_limit as int,
            history_days: self.history_days as int,
            update_interval: self.update_interval as int,
            phase: self.phase@,
        }
    }
}

impl OpsGenieInterface {
    /// The three numbers of an engine's configuration each fit a byte,
    /// whatever has happened to the engine. So the days of history can be
    /// counted back from every instant whose seconds are, say, not negative.
    pub proof fn lemma_configuration_fits_a_byte(&self)
        ensures
            0 <= self@.request_limit <= u8::MAX,
            0 <= self@.history_days <= u8::MAX,
            0 <= self@.update_interval <= u8::MAX,
    {
    }

    /// A new engine for `config`: it knows no alert and is idle.
    pub fn new_with_config(config: Config) -> (engine: OpsGenieInterface)
        ensures
            engine@ == EngineView::initial(config@),
    {
        let api = ApiSettings {
            key_prefix: String::from_str("GenieKey"),
            key: config.api_key,
            base_path: config.base_path,
        };
        OpsGenieInterface {
            alerts: AlertStore::new(),
            api,
            request_limit: config.request_limit,
            history_days: config.history_days,
            update_interval: config.update_interval,
            phase: Phase::Idle,
        }
    }

    /// The alerts known so far.
    pub fn alerts(&self) -> (alerts: &AlertStore)
        ensures
            alerts@ == self@.alerts,
    {
        &self.alerts
    }

    /// What a client needs to reach the alerting service.
    pub fn api(&self) -> (api: &ApiSettings)
        ensures
            api@ == self@.api,
    {
        &self.api
    }

    /// Seconds between two polls.
    pub fn update_interval(&self) -> (secs: u8)
        ensures
            secs == self@.update_interval,
    {
        self.update_interval
    }

    /// How far back the first poll reaches, in days.
    pub fn history_days(&self) -> (days: u8)
        ensures
            days == self@.history_days,
    {
        self.history_days
    }

    /// Whether the engine has stopped for good.
    pub fn is_stopped(&self) -> (stopped: bool)
        ensures
            stopped == (self@.phase is Stopped),
    {
        match self.phase {
            Phase::Stopped => true,
            _ => false,
        }
    }

    /// Whether a poll is under way, from the moment it begins to the moment
    /// it is completed or given up.
    pub fn is_running(&self) -> (running: bool)
        ensures
            running == (self@.phase is Running || self@.phase is Starting),
    {
        match self.phase {
            Phase::Running { .. } => true,
            Phase::Starting { .. } => true,
            _ => false,
        }
    }

    /// The newest update time among the known alerts, or `None` if no known
    /// alert carries one.
    pub fn get_latest_update(&self) -> (latest: Option<Timestamp>)
        ensures
            latest == latest_update_of(self@.alerts),
    {
        self.alerts.latest_update()
    }

    /// The instant from which a poll that begins at `now` asks for updates:
    /// the newest update time known, or, where there is none, the configured
    /// number of days before `now`.
    pub fn query_watermark(&self, now: Timestamp) -> (w: Timestamp)
        requires
            latest_update_of(self@.alerts) is None ==> now.secs - SECONDS_PER_DAY
                * self@.history_days >= i64::MIN,
        ensures
            w == self@.query_watermark(now),
    {
        watermark(self.alerts.latest_update(), now, self.history_days)
    }

    /// The query of a poll that begins at `now`: every open alert, and every
    /// alert updated since the poll's watermark.
    pub fn get_query(&self, now: Timestamp) -> (query: String)
        requires
            latest_update_of(self@.alerts) is None ==> now.secs - SECONDS_PER_DAY
                * self@.history_days >= i64::MIN,
        ensures
            query@ == self@.query(now),
    {
        query_for(self.query_watermark(now))
    }

    /// Merges a retrieved batch into the store, record by record in the
    /// batch's order, and returns the identities that were not known before.
    /// An alert known before is replaced as a whole, and its identity is not
    /// returned, whatever has changed in it.
    pub fn update_alerts(&mut self, retrieved: Vec<AlertRecord>) -> (new_alerts: Vec<String>)
        ensures
            final(self)@ == (EngineView {
                alerts: merged(old(self)@.alerts, retrieved.deep_view()),
                ..old(self)@
            }),
            new_alerts.deep_view() == new_ids(old(self)@.alerts.dom(), retrieved.deep_view()),
    {
        merge(&mut self.alerts, retrieved)
    }

    /// Decides about each of the identities `new_alerts`, by the alert that
    /// the store holds for it now.
    pub fn handle_new_alerts(&self, new_alerts: Vec<String>) -> (dispatches: Vec<Dispatch>)
        ensures
            dispatches.deep_view() == dispatches_for(self@.alerts, new_alerts.deep_view()),
    {
        decide_all(&self.alerts, new_alerts)
    }

    fn launch(&mut self, watermark: Timestamp, tick_missed: bool, cancel_requested: bool) -> (next:
        Next)
        ensures
            (final(self)@, next@) == old(self)@.launch(watermark, tick_missed, cancel_requested),
    {
        let fetch = Paginator::new(query_for(watermark), self.request_limit);
        let request = fetch.request();
        let batch: Vec<AlertRecord> = Vec::new();
        assert(batch.deep_view() =~= Seq::<RecordView>::empty());
        self.phase = Phase::Running { fetch, batch, tick_missed, cancel_requested };
        Next::Fetch { request, delay_secs: 0 }
    }

    fn begin(&mut self) -> (next: Next)
        ensures
            (final(self)@, next@) == old(self)@.begin(),
    {
        match self.alerts.latest_update() {
            Some(latest) => self.launch(latest, false, false),
            None => {
                self.phase = Phase::Starting { tick_missed: false, cancel_requested: false };
                Next::ReadClock
            },
        }
    }

    fn settle(&mut self, tick_missed: bool, cancel_requested: bool) -> (next: Next)
        ensures
            (final(self)@, next@) == old(self)@.settle(tick_missed, cancel_requested),
    {
        if cancel_requested {
            self.phase = Phase::Stopped;
            Next::Stop
        } else if tick_missed {
            self.begin()
        } else {
            self.phase = Phase::Idle;
            Next::Wait
        }
    }

    /// Runs the engine for one event.
    ///
    /// An idle engine begins a poll when the timer fires and stops when asked
    /// to. A poll asks from the newest update time known; where none is
    /// known, the engine first asks for the clock and then reaches back the
    /// configured number of days. During a poll the engine takes in the pages
    /// as they arrive and asks for the next one after the rate-limit delay;
    /// with the last page it merges everything retrieved into the store and
    /// decides about the newly observed alerts. A failed request ends the poll
    /// and leaves the store as it was. The timer and the cancellation signal
    /// are only remembered during a poll, and acted on when it ends. A stopped
    /// engine stays stopped.
    ///
    /// The one demand is on a clock reading that the engine has asked for and
    /// needs: counting the days of history back from it must not leave the
    /// range of the seconds.
    pub fn run(&mut self, event: Event) -> (outcome: Outcome)
        requires
            old(self)@.reads(event@) ==> event@->ClockRead_0.secs - SECONDS_PER_DAY * old(
                self,
            )@.history_days >= i64::MIN,
        ensures
            (final(self)@, outcome@) == old(self)@.step(event@),
    {
        let mut phase = Phase::Idle;
        core::mem::swap(&mut self.phase, &mut phase);
        match phase {
            Phase::Stopped => {
                self.phase = Phase::Stopped;
                Outcome { report: Report::Nothing, next: Next::Stop }
            },
            Phase::Idle => match event {
                Event::TimerFired => {
                    let next = self.begin();
                    Outcome { report: Report::Nothing, next }
                },
                Event::CancelRequested => {
                    self.phase = Phase::Stopped;
                    Outcome { report: Report::Nothing, next: Next::Stop }
                },
                _ => Outcome { report: Report::Nothing, next: Next::Wait },
            },
            Phase::Starting { tick_missed, cancel_requested } => match event {
                Event::ClockRead(now) => {
                    let since = self.query_watermark(now);
                    let next = self.launch(since, tick_missed, cancel_requested);
                    Outcome { report: Report::Nothing, next }
                },
                Event::TimerFired => {
                    self.phase = Phase::Starting { tick_missed: true, cancel_requested };
                    Outcome { report: Report::Nothing, next: Next::Pending }
                },
                Event::CancelRequested => {
                    self.phase = Phase::Starting { tick_missed, cancel_requested: true };
                    Outcome { report: Report::Nothing, next: Next::Pending }
                },
                _ => {
                    self.phase = Phase::Starting { tick_missed, cancel_requested };
                    Outcome { report: Report::Nothing, next: Next::Pending }
                },
            },
            Phase::Running { fetch, batch, tick_missed, cancel_requested } => match event {
                Event::TimerFired => {
                    self.phase = Phase::Running {
                        fetch,
                        batch,
                        tick_missed: true,
                        cancel_requested,
                    };
                    Outcome { report: Report::Nothing, next: Next::Pending }
                },
                Event::CancelRequested => {
                    self.phase = Phase::Running {
                        fetch,
                        batch,
                        tick_missed,
                        cancel_requested: true,
                    };
                    Outcome { report: Report::Nothing, next: Next::Pending }
                },
                Event::ClockRead(_) => {
                    self.phase = Phase::Running { fetch, batch, tick_missed, cancel_requested };
                    Outcome { report: Report::Nothing, next: Next::Pending }
                },
                Event::FetchFailed => {
                    let next = self.settle(tick_missed, cancel_requested);
                    Outcome { report: Report::Abandoned(FetchError::Service), next }
                },
                Event::PageReceived(page) => {
                    let mut fetch = fetch;
                    let mut batch = batch;
                    let ghost before = batch.deep_view();
                    let progress = fetch.accept(&page);
                    let mut records = page.into_records();
                    let ghost added = records.deep_view();
                    batch.append(&mut records);
                    assert(batch.deep_view() =~= before + added);
                    match progress {
                        Progress::NextPage => {
                            let request = fetch.request();
                            self.phase = Phase::Running {
                                fetch,
                                batch,
                                tick_missed,
                                cancel_requested,
                            };
                            Outcome {
                                report: Report::Nothing,
                                next: Next::Fetch { request, delay_secs: RATE_LIMIT_DELAY_SECS },
                            }
                        },
                        Progress::OffsetOutOfRange => {
                            let next = self.settle(tick_missed, cancel_requested);
                            Outcome {
                                report: Report::Abandoned(FetchError::OffsetOutOfRange),
                                next,
                            }
                        },
                        Progress::Finished => {
                            let new_alerts = self.update_alerts(batch);
                            let dispatches = self.handle_new_alerts(new_alerts);
                            let next = self.settle(tick_missed, cancel_requested);
                            Outcome { report: Report::Synced(dispatches), next }
                        },
                    }
                },
            },
        }
    }
}

} // verus!
