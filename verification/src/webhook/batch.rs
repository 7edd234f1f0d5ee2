//! Fetching the metadata that requests still lack, one request after the
//! other.
//!
//! The work is a small machine. It hands out one action at a time — look an
//! item up, pause, or finish with the report — and takes back what came of
//! it. An item that fails does not stop the run: it is counted and its
//! failure is put on the report.

use crate::bot::request::{
    API_BGM, API_MOVIE, API_SUBJECT, API_TMDB, API_TV, SOURCE_BGM, STORED_TMDB_MOVIE,
    STORED_TMDB_TV,
};
use crate::clock::{utc_now, ROW_STAMP};
use crate::ledger::{LedgerError, LedgerView, RequestLedger, Unscraped, UnscrapedView};
use crate::messages::{BATCH_FETCH_FAILED, BATCH_REQUEST, BATCH_SAVE_FAILED, BATCH_UNSUPPORTED};
use crate::models::{lemma_views_push, views};
use crate::scraper::{info_view, new_media, save_media_at, MediaInfo, MediaInfoView};
use crate::text::{decimal, i64_to_string, str_eq};
use vstd::prelude::*;
use vstd::string::*;

verus! {

/// Milliseconds to wait after every lookup, for the providers' sake.
pub const PAUSE_MILLIS: u64 = 500;

/// The report of a run.
#[derive(Clone, Debug, PartialEq, Eq)]
pub struct BatchScrapeResult {
    pub total_processed: usize,
    pub successful: usize,
    pub failed: usize,
    pub errors: Vec<String>,
}

pub struct BatchScrapeResultView {
    pub total_processed: usize,
    pub successful: usize,
    pub failed: usize,
    pub errors: Seq<Seq<char>>,
}

impl View for BatchScrapeResult {
    type V = BatchScrapeResultView;

    open spec fn view(&self) -> BatchScrapeResultView {
        BatchScrapeResultView {
            total_processed: self.total_processed,
            successful: self.successful,
            failed: self.failed,
            errors: views(self.errors@),
        }
    }
}

/// What the machine waits for.
#[derive(Clone, Copy, Debug, PartialEq, Eq, Structural)]
pub enum Stage {
    /// Nothing: the next request can be taken.
    Ready,
    /// The outcome of the lookup it asked for.
    Fetching,
    /// The end of the pause it asked for.
    Pausing,
    /// Nothing more: the report has been handed out.
    Done,
}

/// What happened outside since the last action.
#[derive(Debug, PartialEq, Eq)]
pub enum BatchEvent {
    /// Nothing yet: the run begins.
    Begin,
    /// The lookup ended, with what was found or with the reason it failed.
    Fetched(Result<MediaInfo, String>),
    /// The pause is over.
    Paused,
}

pub enum BatchEventView {
    Begin,
    Fetched(Result<MediaInfoView, Seq<char>>),
    Paused,
}

impl View for BatchEvent {
    type V = BatchEventView;

    open spec fn view(&self) -> BatchEventView {
        match self {
            BatchEvent::Begin => BatchEventView::Begin,
            BatchEvent::Fetched(outcome) => BatchEventView::Fetched(info_view(*outcome)),
            BatchEvent::Paused => BatchEventView::Paused,
        }
    }
}

/// What to do next.
#[derive(Clone, Debug, PartialEq, Eq)]
pub enum BatchAction {
    /// Look the item of this request up, then report [`BatchEvent::Fetched`].
    Fetch { request_id: i32, source: String, media_type: String, media_id: String },
    /// Wait this long, then report [`BatchEvent::Paused`].
    Pause { millis: u64 },
    /// The run is over; this is its report.
    Finish(BatchScrapeResult),
}

pub enum BatchActionView {
    Fetch { request_id: i32, source: Seq<char>, media_type: Seq<char>, media_id: Seq<char> },
    Pause { millis: u64 },
    Finish(BatchScrapeResultView),
}

impl View for BatchAction {
    type V = BatchActionView;

    open spec fn view(&self) -> BatchActionView {
        match self {
            BatchAction::Fetch { request_id, source, media_type, media_id } => BatchActionView::Fetch {
                request_id: *request_id,
                source: source@,
                media_type: media_type@,
                media_id: media_id@,
            },
            BatchAction::Pause { millis } => BatchActionView::Pause { millis: *millis },
            BatchAction::Finish(report) => BatchActionView::Finish(report@),
        }
    }
}

/// The provider and kind behind a stored source tag, if the tag is known.
pub open spec fn source_params(source: Seq<char>) -> Option<(Seq<char>, Seq<char>)> {
    if source == STORED_TMDB_MOVIE@ {
        Some((API_TMDB@, API_MOVIE@))
    } else if source == STORED_TMDB_TV@ {
        Some((API_TMDB@, API_TV@))
    } else if source == SOURCE_BGM@ {
        Some((API_BGM@, API_SUBJECT@))
    } else {
        None
    }
}

/// The report line of a request whose source tag is not known.
pub open spec fn unsupported_text(item: UnscrapedView) -> Seq<char> {
    BATCH_REQUEST@ + decimal(item.request_id as int) + BATCH_UNSUPPORTED@ + item.source
}

/// The report line of a request whose metadata could not be stored.
pub open spec fn save_failed_text(item: UnscrapedView, error: LedgerError) -> Seq<char> {
    BATCH_REQUEST@ + decimal(item.request_id as int) + BATCH_SAVE_FAILED@ + error.text()
}

/// The report line of a request whose lookup failed.
pub open spec fn fetch_failed_text(item: UnscrapedView, reason: Seq<char>) -> Seq<char> {
    BATCH_REQUEST@ + decimal(item.request_id as int) + BATCH_FETCH_FAILED@ + reason
}

/// A run: the requests to work through, how far it has come, and the tally so far.
pub struct BatchView {
    pub queue: Seq<UnscrapedView>,
    pub next: int,
    pub stage: Stage,
    pub successful: int,
    pub failed: int,
    pub errors: Seq<Seq<char>>,
}

impl BatchView {
    /// The run's invariant: every request behind the cursor is counted
    /// once, as a success or as a failure with its line on the report.
    pub open spec fn wf(self) -> bool {
        &&& 0 <= self.next <= self.queue.len()
        &&& 0 <= self.successful
        &&& 0 <= self.failed
        &&& self.successful + self.failed == self.next
        &&& self.errors.len() == self.failed
        &&& self.queue.len() <= usize::MAX
        &&& self.stage == Stage::Fetching ==> self.next < self.queue.len() && source_params(
            self.queue[self.next].source,
        ) is Some
        &&& self.stage == Stage::Done ==> self.next == self.queue.len()
    }

    /// A run over the given requests, not yet begun.
    pub open spec fn over(queue: Seq<UnscrapedView>) -> BatchView {
        BatchView {
            queue,
            next: 0,
            stage: Stage::Ready,
            successful: 0,
            failed: 0,
            errors: Seq::empty(),
        }
    }

    /// The run with the current request counted as a failure.
    pub open spec fn failing(self, line: Seq<char>) -> BatchView {
        BatchView {
            next: self.next + 1,
            failed: self.failed + 1,
            errors: self.errors.push(line),
            ..self
        }
    }

    /// The run with the current request counted as a success.
    pub open spec fn succeeding(self) -> BatchView {
        BatchView { next: self.next + 1, successful: self.successful + 1, ..self }
    }

    /// The run after every request at the cursor whose source tag is not
    /// known has been counted as a failure.
    pub open spec fn settled(self) -> BatchView
        decreases self.queue.len() - self.next,
    {
        if 0 <= self.next < self.queue.len() && source_params(self.queue[self.next].source)
            is None {
            self.failing(unsupported_text(self.queue[self.next])).settled()
        } else {
            self
        }
    }

    /// The report of the run as it stands.
    pub open spec fn report(self) -> BatchScrapeResultView {
        BatchScrapeResultView {
            total_processed: self.queue.len() as usize,
            successful: self.successful as usize,
            failed: self.failed as usize,
            errors: self.errors,
        }
    }

    /// The lookup of the request at the cursor.
    pub open spec fn lookup(self) -> BatchActionView {
        let item = self.queue[self.next];
        let (provider, kind) = source_params(item.source).unwrap();
        BatchActionView::Fetch {
            request_id: item.request_id,
            source: provider,
            media_type: kind,
            media_id: item.media_id,
        }
    }

    /// Taking the next request: those with unknown source tags are passed
    /// over; the first with a known one is looked up; when none is left the
    /// run finishes.
    pub open spec fn proceed(self) -> (BatchView, BatchActionView) {
        let run = self.settled();
        if run.next < run.queue.len() {
            (BatchView { stage: Stage::Fetching, ..run }, run.lookup())
        } else {
            (BatchView { stage: Stage::Done, ..run }, BatchActionView::Finish(run.report()))
        }
    }

    /// Counting the outcome of the lookup of the request at the cursor, at
    /// time `now`: what was found is stored; a lookup that failed, and
    /// metadata that could not be stored, count as failures.
    pub open spec fn record(
        self,
        ledger: LedgerView,
        outcome: Result<MediaInfoView, Seq<char>>,
        now: Seq<char>,
    ) -> (BatchView, LedgerView) {
        let item = self.queue[self.next];
        match outcome {
            Ok(info) => match ledger.save_media(new_media(item.request_id, info), now).1 {
                Ok(_) => (
                    self.succeeding(),
                    ledger.save_media(new_media(item.request_id, info), now).0,
                ),
                Err(e) => (self.failing(save_failed_text(item, e)), ledger),
            },
            Err(reason) => (self.failing(fetch_failed_text(item, reason)), ledger),
        }
    }

    /// One step of the run at time `now`. An event that the run does not
    /// wait for changes nothing: the pending action is handed out again.
    pub open spec fn step(self, ledger: LedgerView, event: BatchEventView, now: Seq<char>) -> (
        BatchView,
        LedgerView,
        BatchActionView,
    ) {
        match self.stage {
            Stage::Ready => (self.proceed().0, ledger, self.proceed().1),
            Stage::Fetching => match event {
                BatchEventView::Fetched(outcome) => (
                    BatchView { stage: Stage::Pausing, ..self.record(ledger, outcome, now).0 },
                    self.record(ledger, outcome, now).1,
                    BatchActionView::Pause { millis: PAUSE_MILLIS },
                ),
                _ => (self, ledger, self.lookup()),
            },
            Stage::Pausing => match event {
                BatchEventView::Paused => (self.proceed().0, ledger, self.proceed().1),
                _ => (self, ledger, BatchActionView::Pause { millis: PAUSE_MILLIS }),
            },
            Stage::Done => (self, ledger, BatchActionView::Finish(self.report())),
        }
    }

    /// Passing over requests keeps the invariant and ends at a request with
    /// a known source tag or at the end of the queue.
    pub proof fn lemma_settled(self)
        requires
            self.wf(),
            self.stage != Stage::Done,
            self.stage != Stage::Fetching,
        ensures
            self.settled().wf(),
            self.settled().queue == self.queue,
            self.settled().stage == self.stage,
            self.next <= self.settled().next,
            self.settled().next < self.queue.len() ==> source_params(
                self.queue[self.settled().next].source,
            ) is Some,
        decreases self.queue.len() - self.next,
    {
        if 0 <= self.next < self.queue.len() && source_params(self.queue[self.next].source)
            is None {
            self.failing(unsupported_text(self.queue[self.next])).lemma_settled();
        }
    }
}

/// Every step keeps the run's invariant, and the report that a run
/// finishes with accounts for every request of the queue exactly once: the
/// successes and the failures add up to the total, and every failure has
/// one line.
pub proof fn law_report_accounts_for_every_request(
    run: BatchView,
    ledger: LedgerView,
    event: BatchEventView,
    now: Seq<char>,
)
    requires
        run.wf(),
        ledger.wf(),
    ensures
        run.step(ledger, event, now).0.wf(),
        run.step(ledger, event, now).0.queue == run.queue,
        run.step(ledger, event, now).2 matches BatchActionView::Finish(report) ==> {
            &&& report.total_processed == run.queue.len()
            &&& report.successful + report.failed == report.total_processed
            &&& report.errors.len() == report.failed
        },
{
    match run.stage {
        Stage::Ready => {
            run.lemma_settled();
        },
        Stage::Pausing => {
            run.lemma_settled();
        },
        _ => {},
    }
}

/// The machine that fetches missing metadata.
pub struct BatchScrape {
    queue: Vec<Unscraped>,
    next: usize,
    stage: Stage,
    successful: usize,
    failed: usize,
    errors: Vec<String>,
}

impl View for BatchScrape {
    type V = BatchView;

    closed spec fn view(&self) -> BatchView {
        BatchView {
            queue: views(self.queue@),
            next: self.next as int,
            stage: self.stage,
            successful: self.successful as int,
            failed: self.failed as int,
            errors: views(self.errors@),
        }
    }
}

/// Works out the provider and kind behind a stored source tag.
pub fn stored_params(source: &str) -> (r: Option<(&'static str, &'static str)>)
    ensures
        match r {
            Some((provider, kind)) => source_params(source@) == Some((provider@, kind@)),
            None => source_params(source@) is None,
        },
{
    if str_eq(source, STORED_TMDB_MOVIE) {
        Some((API_TMDB, API_MOVIE))
    } else if str_eq(source, STORED_TMDB_TV) {
        Some((API_TMDB, API_TV))
    } else if str_eq(source, SOURCE_BGM) {
        Some((API_BGM, API_SUBJECT))
    } else {
        None
    }
}

/// Writes a line of the report.
fn report_line(request_id: i32, what: &str, detail: &str) -> (r: String)
    ensures
        r@ == BATCH_REQUEST@ + decimal(request_id as int) + what@ + detail@,
{
    let mut out = String::from_str(BATCH_REQUEST);
    let number = i64_to_string(request_id as i64);
    out.append(number.as_str());
    out.append(what);
    out.append(detail);
    out
}

/// A copy of the lines of a report.
fn copy_lines(lines: &Vec<String>) -> (r: Vec<String>)
    ensures
        views(r@) == views(lines@),
{
    let mut out: Vec<String> = Vec::new();
    let mut i: usize = 0;
    while i < lines.len()
        invariant
            i <= lines.len(),
            views(out@) == views(lines@).take(i as int),
        decreases lines.len() - i,
    {
        let line = lines[i].clone();
        proof {
            lemma_views_push(out@, line);
            assert(views(lines@).take(i + 1) == views(lines@).take(i as int).push(line@));
        }
        out.push(line);
        i += 1;
    }
    assert(views(lines@).take(i as int) == views(lines@));
    out
}

impl BatchScrape {
    /// The invariant that every step expects and keeps.
    pub open spec fn wf(&self) -> bool {
        self@.wf()
    }

    /// A run over the requests of the ledger that have no metadata.
    pub fn start(ledger: &RequestLedger) -> (run: BatchScrape)
        requires
            ledger.wf(),
        ensures
            run.wf(),
            run@ == BatchView::over(ledger@.unscraped()),
    {
        let queue = ledger.unscraped_requests();
        assert(views(queue@).len() == queue.len());
        let run = BatchScrape {
            queue,
            next: 0,
            stage: Stage::Ready,
            successful: 0,
            failed: 0,
            errors: Vec::new(),
        };
        assert(run@.errors =~= Seq::<Seq<char>>::empty());
        run
    }

    /// Counts the request at the cursor as a failure.
    fn fail(&mut self, line: String)
        requires
            old(self).wf(),
            old(self)@.next < old(self)@.queue.len(),
        ensures
            final(self)@ == old(self)@.failing(line@),
    {
        proof {
            lemma_views_push(self.errors@, line);
        }
        self.errors.push(line);
        self.failed = self.failed + 1;
        self.next = self.next + 1;
    }

    /// The report of the run as it stands.
    fn report(&self) -> (r: BatchScrapeResult)
        requires
            self.wf(),
        ensures
            r@ == self@.report(),
    {
        BatchScrapeResult {
            total_processed: self.queue.len(),
            successful: self.successful,
            failed: self.failed,
            errors: copy_lines(&self.errors),
        }
    }

    /// The lookup of the request at the cursor.
    fn lookup(&self) -> (action: BatchAction)
        requires
            self.wf(),
            self@.next < self@.queue.len(),
            source_params(self@.queue[self@.next].source) is Some,
        ensures
            action@ == self@.lookup(),
    {
        let item = &self.queue[self.next];
        match stored_params(item.source.as_str()) {
            Some((provider, kind)) => BatchAction::Fetch {
                request_id: item.request_id,
                source: String::from_str(provider),
                media_type: String::from_str(kind),
                media_id: item.media_id.clone(),
            },
            None => BatchAction::Pause { millis: PAUSE_MILLIS },
        }
    }

    /// Takes the next request.
    fn proceed(&mut self) -> (action: BatchAction)
        requires
            old(self).wf(),
            old(self)@.stage == Stage::Ready || old(self)@.stage == Stage::Pausing,
        ensures
            final(self).wf(),
            (final(self)@, action@) == old(self)@.proceed(),
    {
        proof {
            self@.lemma_settled();
        }
        while self.next < self.queue.len() && stored_params(
            self.queue[self.next].source.as_str(),
        ).is_none()
            invariant
                self.wf(),
                self@.stage == old(self)@.stage,
                self@.settled() == old(self)@.settled(),
            decreases self.queue.len() - self.next,
        {
            let item = &self.queue[self.next];
            let line = report_line(item.request_id, BATCH_UNSUPPORTED, item.source.as_str());
            self.fail(line);
        }
        proof {
            self@.lemma_settled();
        }
        if self.next < self.queue.len() {
            let action = self.lookup();
            self.stage = Stage::Fetching;
            action
        } else {
            let report = self.report();
            self.stage = Stage::Done;
            BatchAction::Finish(report)
        }
    }

    /// One step of the run at time `now`; see [`BatchView::step`].
    pub fn step_at(&mut self, ledger: &mut RequestLedger, event: &BatchEvent, now: &str) -> (action:
        BatchAction)
        requires
            old(self).wf(),
            old(ledger).wf(),
        ensures
            final(self).wf(),
            final(ledger).wf(),
            (final(self)@, final(ledger)@, action@) == old(self)@.step(old(ledger)@, event@, now@),
    {
        match self.stage {
            Stage::Ready => self.proceed(),
            Stage::Fetching => match event {
                BatchEvent::Fetched(outcome) => {
                    let request_id = self.queue[self.next].request_id;
                    match outcome {
                        Ok(info) => match save_media_at(ledger, request_id, info, now) {
                            Ok(_) => {
                                self.successful = self.successful + 1;
                                self.next = self.next + 1;
                            },
                            Err(e) => {
                                let line = report_line(request_id, BATCH_SAVE_FAILED, e.describe());
                                self.fail(line);
                            },
                        },
                        Err(reason) => {
                            let line = report_line(request_id, BATCH_FETCH_FAILED, reason.as_str());
                            self.fail(line);
                        },
                    }
                    self.stage = Stage::Pausing;
                    BatchAction::Pause { millis: PAUSE_MILLIS }
                },
                _ => self.lookup(),
            },
            Stage::Pausing => match event {
                BatchEvent::Paused => self.proceed(),
                _ => BatchAction::Pause { millis: PAUSE_MILLIS },
            },
            Stage::Done => BatchAction::Finish(self.report()),
        }
    }
}

/// One step of the run of fetching missing metadata; what is stored is
/// stamped with the current time.
pub fn batch_scrape_media(run: &mut BatchScrape, ledger: &mut RequestLedger, event: &BatchEvent) -> (action:
    BatchAction)
    requires
        old(run).wf(),
        old(ledger).wf(),
    ensures
        final(run).wf(),
        final(ledger).wf(),
        exists|now: Seq<char>|
            (final(run)@, final(ledger)@, action@) == #[trigger] old(run)@.step(
                old(ledger)@,
                event@,
                now,
            ),
{
    let now = utc_now(ROW_STAMP);
    run.step_at(ledger, event, now.as_str())
}

} // verus!
