//! The sync driver: a state machine over the identifiers of the addon list.
//!
//! For each identifier in turn the driver asks for the download, then for the
//! unpacking of what came back, then for a pause. It does none of these
//! itself: it names the action that is due, and the caller carries the action
//! out and reports what came of it. The driver records one outcome for each
//! identifier that it has finished with.

use crate::extract::ExtractError;
use crate::fetch::{
    archive_of_response, download_url, download_url_of, received_archive, FetchReply,
    FetchReplyView,
};
use crate::settings::ResolvedConfig;
use vstd::prelude::*;

verus! {

/// The pause after each identifier, in milliseconds.
pub const PACING_MILLIS: u64 = 500;

/// What the driver does when an identifier fails.
#[derive(Clone, Copy, Debug, PartialEq, Eq, Structural)]
pub enum FailurePolicy {
    /// Stop the run at the first failure.
    Abort,
    /// Record the failure and go on with the next identifier.
    Continue,
}

/// How one identifier ended.
#[derive(Clone, Debug, PartialEq, Eq)]
pub enum SyncOutcome {
    /// The archive was downloaded and unpacked.
    Extracted,
    /// No reply was had from the host, for the given reason.
    DownloadFailed(String),
    /// The host gave no archive bytes, and unpacking nothing failed.
    EmptyResponse,
    /// The archive bytes could not be unpacked.
    ExtractFailed(ExtractError),
}

/// The mathematical content of a [`SyncOutcome`].
pub enum SyncOutcomeView {
    Extracted,
    DownloadFailed(Seq<char>),
    EmptyResponse,
    ExtractFailed(ExtractError),
}

impl View for SyncOutcome {
    type V = SyncOutcomeView;

    open spec fn view(&self) -> SyncOutcomeView {
        match self {
            SyncOutcome::Extracted => SyncOutcomeView::Extracted,
            SyncOutcome::DownloadFailed(reason) => SyncOutcomeView::DownloadFailed(reason@),
            SyncOutcome::EmptyResponse => SyncOutcomeView::EmptyResponse,
            SyncOutcome::ExtractFailed(error) => SyncOutcomeView::ExtractFailed(*error),
        }
    }
}

impl SyncOutcomeView {
    /// Every outcome but `Extracted` is a failure.
    pub open spec fn is_failure(self) -> bool {
        !(self is Extracted)
    }
}

impl SyncOutcome {
    /// Whether the identifier failed: every outcome but `Extracted` says so.
    pub fn is_failure(&self) -> (b: bool)
        ensures
            b == self@.is_failure(),
    {
        match self {
            SyncOutcome::Extracted => false,
            _ => true,
        }
    }
}

/// The outcome of one identifier.
#[derive(Clone, Debug, PartialEq, Eq)]
pub struct Report {
    /// The identifier, as the addon list has it.
    pub id: String,
    /// How it ended.
    pub outcome: SyncOutcome,
}

/// The mathematical content of a [`Report`].
pub struct ReportView {
    pub id: Seq<char>,
    pub outcome: SyncOutcomeView,
}

impl View for Report {
    type V = ReportView;

    open spec fn view(&self) -> ReportView {
        ReportView { id: self.id@, outcome: self.outcome@ }
    }
}

/// The views of a sequence of reports.
pub open spec fn report_views(reports: Seq<Report>) -> Seq<ReportView> {
    reports.map_values(|report: Report| report@)
}

/// What the caller is to do next.
#[derive(Clone, Debug, PartialEq, Eq)]
pub enum Action {
    /// Request `url`, the archive of the addon `id`, and report the reply
    /// with [`Event::Fetched`].
    Fetch { id: String, url: String },
    /// Unpack `archive`, the bytes received for the addon `id`, into the
    /// directory `destination`, and report the result with
    /// [`Event::Extracted`].
    Extract { id: String, archive: Vec<u8>, destination: String },
    /// Wait for `millis` milliseconds, then report [`Event::Paused`].
    Pause { millis: u64 },
    /// Nothing: the run is over.
    Stop,
}

/// The mathematical content of an [`Action`].
pub enum ActionView {
    Fetch { id: Seq<char>, url: Seq<char> },
    Extract { id: Seq<char>, archive: Seq<u8>, destination: Seq<char> },
    Pause { millis: u64 },
    Stop,
}

impl View for Action {
    type V = ActionView;

    open spec fn view(&self) -> ActionView {
        match self {
            Action::Fetch { id, url } => ActionView::Fetch { id: id@, url: url@ },
            Action::Extract { id, archive, destination } => ActionView::Extract {
                id: id@,
                archive: archive@,
                destination: destination@,
            },
            Action::Pause { millis } => ActionView::Pause { millis: *millis },
            Action::Stop => ActionView::Stop,
        }
    }
}

/// What came of the action that was due.
#[derive(Debug, PartialEq, Eq)]
pub enum Event {
    /// The request was made, with this reply.
    Fetched(FetchReply),
    /// The archive was unpacked, or could not be.
    Extracted(Result<(), ExtractError>),
    /// The pause is over.
    Paused,
}

/// The mathematical content of an [`Event`].
pub enum EventView {
    Fetched(FetchReplyView),
    Extracted(Result<(), ExtractError>),
    Paused,
}

impl View for Event {
    type V = EventView;

    open spec fn view(&self) -> EventView {
        match self {
            Event::Fetched(reply) => EventView::Fetched(reply@),
            Event::Extracted(result) => EventView::Extracted(*result),
            Event::Paused => EventView::Paused,
        }
    }
}

/// How an identifier ended whose archive bytes were handed to unpacking:
/// with `Extracted` where that succeeded; where it failed, with
/// `EmptyResponse` if there were no bytes at all, and else with the failure
/// of the unpacking.
pub open spec fn outcome_of(archive: Seq<u8>, result: Result<(), ExtractError>) -> SyncOutcomeView {
    match result {
        Ok(_) => SyncOutcomeView::Extracted,
        Err(error) => if archive.len() == 0 {
            SyncOutcomeView::EmptyResponse
        } else {
            SyncOutcomeView::ExtractFailed(error)
        },
    }
}

/// The state of a run.
pub struct SyncState {
    /// The identifiers, in the order of the addon list.
    pub ids: Seq<Seq<char>>,
    /// The directory into which addons are unpacked.
    pub destination: Seq<char>,
    /// What happens at a failure.
    pub policy: FailurePolicy,
    /// The outcomes of the identifiers that are done, oldest first.
    pub reports: Seq<ReportView>,
    /// The action that is due.
    pub pending: ActionView,
}

impl SyncState {
    /// The request for the first identifier that is not done, or `Stop`
    /// where all are.
    pub open spec fn next_request(self) -> ActionView {
        if self.reports.len() < self.ids.len() {
            let id = self.ids[self.reports.len() as int];
            ActionView::Fetch { id, url: download_url_of(id) }
        } else {
            ActionView::Stop
        }
    }

    /// The state in which a run starts: nothing is done, and the first
    /// identifier is to be requested. Without any identifier the run is over
    /// before it starts.
    pub open spec fn initial(
        ids: Seq<Seq<char>>,
        destination: Seq<char>,
        policy: FailurePolicy,
    ) -> SyncState {
        let blank = SyncState {
            ids,
            destination,
            policy,
            reports: Seq::empty(),
            pending: ActionView::Stop,
        };
        SyncState { pending: blank.next_request(), ..blank }
    }

    /// The state after the identifier `id` has ended with `outcome`: the
    /// outcome is recorded, and the pause is due, unless the outcome is a
    /// failure and the policy is to abort, which stops the run.
    pub open spec fn conclude(self, id: Seq<char>, outcome: SyncOutcomeView) -> SyncState {
        SyncState {
            reports: self.reports.push(ReportView { id, outcome }),
            pending: if outcome.is_failure() && self.policy == FailurePolicy::Abort {
                ActionView::Stop
            } else {
                ActionView::Pause { millis: PACING_MILLIS }
            },
            ..self
        }
    }

    /// The state after `event`. A reply leads to the unpacking of the bytes
    /// it stands for, be they none; a request without a reply ends the
    /// identifier. The result of the unpacking ends the identifier. The end
    /// of the pause leads to the next identifier, or stops the run after the
    /// last. An event that does not answer the action that is due changes
    /// nothing.
    pub open spec fn step(self, event: EventView) -> SyncState {
        match (self.pending, event) {
            (
                ActionView::Fetch { id, .. },
                EventView::Fetched(FetchReplyView::Response { status, body }),
            ) => SyncState {
                pending: ActionView::Extract {
                    id,
                    archive: received_archive(status, body),
                    destination: self.destination,
                },
                ..self
            },
            (
                ActionView::Fetch { id, .. },
                EventView::Fetched(FetchReplyView::Failed { reason }),
            ) => self.conclude(id, SyncOutcomeView::DownloadFailed(reason)),
            (ActionView::Extract { id, archive, .. }, EventView::Extracted(result)) => {
                self.conclude(id, outcome_of(archive, result))
            },
            (ActionView::Pause { .. }, EventView::Paused) => SyncState {
                pending: self.next_request(),
                ..self
            },
            _ => self,
        }
    }

    /// The state after a sequence of events, taken in order.
    pub open spec fn run(self, events: Seq<EventView>) -> SyncState
        decreases events.len(),
    {
        if events.len() == 0 {
            self
        } else {
            self.run(events.drop_last()).step(events.last())
        }
    }

    /// Whether every identifier is done and none failed.
    pub open spec fn all_extracted(self) -> bool {
        &&& self.reports.len() == self.ids.len()
        &&& forall|k: int|
            0 <= k < self.reports.len() ==> !(#[trigger] self.reports[k]).outcome.is_failure()
    }

    /// What holds of every state that a run passes through.
    ///
    /// The reports are those of the first identifiers of the list, one each,
    /// in the order of the list. The identifier in work is the one right
    /// behind them. A pause is the fixed one and follows a finished
    /// identifier. The run has stopped only with every identifier done, or,
    /// where the policy is to abort, right after a failure. Under that
    /// policy no earlier identifier has failed.
    pub open spec fn well_formed(self) -> bool {
        &&& self.reports.len() <= self.ids.len()
        &&& forall|k: int|
            0 <= k < self.reports.len() ==> (#[trigger] self.reports[k]).id == self.ids[k]
        &&& self.policy == FailurePolicy::Abort ==> forall|k: int|
            0 <= k < self.reports.len() - 1 ==> !(#[trigger] self.reports[k]).outcome.is_failure()
        &&& match self.pending {
            ActionView::Fetch { id, url } => {
                &&& self.reports.len() < self.ids.len()
                &&& id == self.ids[self.reports.len() as int]
                &&& url == download_url_of(id)
                &&& self.no_failure_under_abort()
            },
            ActionView::Extract { id, destination, .. } => {
                &&& self.reports.len() < self.ids.len()
                &&& id == self.ids[self.reports.len() as int]
                &&& destination == self.destination
                &&& self.no_failure_under_abort()
            },
            ActionView::Pause { millis } => {
                &&& millis == PACING_MILLIS
                &&& self.reports.len() > 0
                &&& self.no_failure_under_abort()
            },
            ActionView::Stop => {
                ||| self.reports.len() == self.ids.len() && self.no_failure_under_abort()
                ||| self.aborted()
            },
        }
    }

    /// An upper bound of the actions that the run still asks for: three for
    /// each identifier that is not done, less those that the identifier in
    /// work is through with, and the pause of the one before where that is
    /// what is due.
    pub open spec fn steps_left(self) -> nat {
        let open = 3 * (self.ids.len() - self.reports.len());
        match self.pending {
            ActionView::Fetch { .. } => open as nat,
            ActionView::Extract { .. } => (open - 1) as nat,
            ActionView::Pause { .. } => (open + 1) as nat,
            ActionView::Stop => 0,
        }
    }

    /// Where the policy is to abort, no identifier has failed.
    pub open spec fn no_failure_under_abort(self) -> bool {
        self.policy == FailurePolicy::Abort ==> forall|k: int|
            0 <= k < self.reports.len() ==> !(#[trigger] self.reports[k]).outcome.is_failure()
    }

    /// The run was stopped by a failure: the policy is to abort, and the
    /// last identifier that was worked on failed.
    pub open spec fn aborted(self) -> bool {
        &&& self.pending is Stop
        &&& self.policy == FailurePolicy::Abort
        &&& self.reports.len() > 0
        &&& self.reports.last().outcome.is_failure()
    }
}

/// A run starts in a well-formed state.
pub proof fn lemma_initial_well_formed(
    ids: Seq<Seq<char>>,
    destination: Seq<char>,
    policy: FailurePolicy,
)
    ensures
        SyncState::initial(ids, destination, policy).well_formed(),
{
}

/// Every event leads from a well-formed state to a well-formed state. It
/// leaves the identifiers, the destination and the policy as they are, and
/// the reports too, but for at most one that it adds at the end.
pub proof fn lemma_step_well_formed(state: SyncState, event: EventView)
    requires
        state.well_formed(),
    ensures
        state.step(event).well_formed(),
        state.step(event).ids == state.ids,
        state.step(event).destination == state.destination,
        state.step(event).policy == state.policy,
        state.step(event).reports == state.reports || (state.step(event).reports.len()
            == state.reports.len() + 1 && state.step(event).reports.drop_last() == state.reports),
{
}

/// Whatever the events of a run are, the identifiers are worked on in the
/// exact order of the addon list, each occurrence on its own: at every point
/// the reports are those of the first identifiers of the list, one for each,
/// repeated identifiers included, and the identifier that a request or an
/// unpacking is due for is the one right behind them.
pub proof fn lemma_processing_order(
    ids: Seq<Seq<char>>,
    destination: Seq<char>,
    policy: FailurePolicy,
    events: Seq<EventView>,
)
    ensures
        ({
            let state = SyncState::initial(ids, destination, policy).run(events);
            &&& state.well_formed()
            &&& state.ids == ids
            &&& state.reports.len() <= ids.len()
            &&& forall|k: int|
                0 <= k < state.reports.len() ==> (#[trigger] state.reports[k]).id == ids[k]
            &&& state.pending matches ActionView::Fetch { id, .. } ==> state.reports.len()
                < ids.len() && id == ids[state.reports.len() as int]
            &&& state.pending matches ActionView::Extract { id, .. } ==> state.reports.len()
                < ids.len() && id == ids[state.reports.len() as int]
        }),
    decreases events.len(),
{
    let start = SyncState::initial(ids, destination, policy);
    if events.len() == 0 {
        lemma_initial_well_formed(ids, destination, policy);
    } else {
        lemma_processing_order(ids, destination, policy, events.drop_last());
        lemma_step_well_formed(start.run(events.drop_last()), events.last());
    }
}

/// Between two requests lies the pause: a request becomes due only at the
/// start of a run, for the first identifier, or when the fixed pause that
/// followed the identifier before has been reported as over. This holds
/// whether that identifier succeeded or failed.
pub proof fn lemma_requests_are_paced(state: SyncState, event: EventView)
    requires
        state.well_formed(),
        state.step(event).pending is Fetch,
    ensures
        state.step(event).pending == state.pending || (state.pending == (ActionView::Pause {
            millis: PACING_MILLIS,
        }) && event is Paused),
{
}

/// A run that has stopped without a failure has unpacked every identifier
/// of the list, and a run that goes on past failures stops only when every
/// identifier is done.
pub proof fn lemma_stop_is_complete(state: SyncState)
    requires
        state.well_formed(),
        state.pending is Stop,
    ensures
        !state.aborted() ==> state.reports.len() == state.ids.len(),
        state.policy == FailurePolicy::Continue ==> state.reports.len() == state.ids.len(),
{
}

/// A run that is over stays over: no event makes another action due or adds
/// a report. In particular no request follows the failure that a run was
/// aborted for.
pub proof fn lemma_stop_is_final(state: SyncState, events: Seq<EventView>)
    requires
        state.pending is Stop,
    ensures
        state.run(events) == state,
    decreases events.len(),
{
    if events.len() > 0 {
        lemma_stop_is_final(state, events.drop_last());
    }
}

/// Every event that is taken in brings the run closer to its end: it lowers
/// [`SyncState::steps_left`], which is never more than three for each
/// identifier of the list. So a run is over after at most that many answered
/// actions.
pub proof fn lemma_step_makes_progress(state: SyncState, event: EventView)
    requires
        state.well_formed(),
    ensures
        state.steps_left() <= 3 * state.ids.len(),
        state.step(event) == state || state.step(event).steps_left() < state.steps_left(),
        state.steps_left() == 0 <==> state.pending is Stop,
{
}

/// The driver of one run, see [`SyncState`] for what it holds.
#[derive(Debug)]
pub struct SyncDriver {
    ids: Vec<String>,
    destination: String,
    policy: FailurePolicy,
    reports: Vec<Report>,
    pending: Action,
}

impl View for SyncDriver {
    type V = SyncState;

    closed spec fn view(&self) -> SyncState {
        SyncState {
            ids: self.ids.deep_view(),
            destination: self.destination@,
            policy: self.policy,
            reports: report_views(self.reports@),
            pending: self.pending@,
        }
    }
}

impl SyncDriver {
    /// The driver of a run over `ids`, the identifiers of the addon list in
    /// the order of the list, that unpacks into the destination of `config`.
    /// The run starts with the request for the first identifier; without any
    /// identifier it is over at once. The settings have to be usable: a run
    /// is not started on an empty path.
    pub fn new(config: &ResolvedConfig, ids: Vec<String>, policy: FailurePolicy) -> (driver: Self)
        requires
            config.usable(),
        ensures
            driver@ == SyncState::initial(ids.deep_view(), config.destination_dir@, policy),
            driver@.well_formed(),
    {
        let pending = if ids.len() > 0 {
            let id = ids[0].clone();
            let url = download_url(id.as_str());
            Action::Fetch { id, url }
        } else {
            Action::Stop
        };
        let driver = SyncDriver {
            ids,
            destination: config.destination_dir.clone(),
            policy,
            reports: Vec::new(),
            pending,
        };
        assert(driver@.reports == Seq::<ReportView>::empty());
        driver
    }

    /// The action that is due. It stays the same until an event answers it.
    pub fn pending(&self) -> (action: &Action)
        ensures
            action@ == self@.pending,
    {
        &self.pending
    }

    /// The outcomes of the identifiers that are done, oldest first.
    pub fn reports(&self) -> (reports: &Vec<Report>)
        ensures
            report_views(reports@) == self@.reports,
    {
        &self.reports
    }

    /// Whether the run is over.
    pub fn is_finished(&self) -> (b: bool)
        ensures
            b == (self@.pending is Stop),
    {
        match self.pending {
            Action::Stop => true,
            _ => false,
        }
    }

    /// Whether every identifier of the list is done and none failed.
    pub fn all_extracted(&self) -> (b: bool)
        ensures
            b == self@.all_extracted(),
    {
        if self.reports.len() != self.ids.len() {
            return false;
        }
        let mut k: usize = 0;
        while k < self.reports.len()
            invariant
                k <= self.reports.len(),
                self.reports.len() == self.ids.len(),
                forall|j: int| 0 <= j < k ==> !(#[trigger] self@.reports[j]).outcome.is_failure(),
            decreases self.reports.len() - k,
        {
            if self.reports[k].outcome.is_failure() {
                assert(self@.reports[k as int].outcome.is_failure());
                return false;
            }
            k += 1;
        }
        true
    }

    /// Records that the identifier `id` has ended with `outcome`, and makes
    /// the pause due, or stops the run where the outcome is a failure and the
    /// policy is to abort.
    fn conclude(&mut self, id: String, outcome: SyncOutcome)
        requires
            old(self).pending@ is Stop,
        ensures
            final(self)@ == (SyncState { pending: old(self)@.pending, ..old(self)@ }).conclude(
                id@,
                outcome@,
            ),
    {
        let stop = outcome.is_failure() && self.policy == FailurePolicy::Abort;
        let ghost before = report_views(self.reports@);
        let report = Report { id, outcome };
        self.reports.push(report);
        assert(report_views(self.reports@) == before.push(report@));
        if !stop {
            self.pending = Action::Pause { millis: PACING_MILLIS };
        }
    }

    /// Takes in what came of the action that was due, see
    /// [`SyncState::step`], and makes the next action due. An event that does
    /// not answer the action that is due changes nothing.
    pub fn advance(&mut self, event: Event)
        ensures
            final(self)@ == old(self)@.step(event@),
            old(self)@.well_formed() ==> final(self)@.well_formed(),
    {
        proof {
            if self@.well_formed() {
                lemma_step_well_formed(self@, event@);
            }
        }
        let mut pending = Action::Stop;
        std::mem::swap(&mut self.pending, &mut pending);
        match (pending, event) {
            (
                Action::Fetch { id, url: _ },
                Event::Fetched(FetchReply::Response { status, body }),
            ) => {
                let archive = archive_of_response(status, body);
                let destination = self.destination.clone();
                self.pending = Action::Extract { id, archive, destination };
            },
            (Action::Fetch { id, url: _ }, Event::Fetched(FetchReply::Failed { reason })) => {
                self.conclude(id, SyncOutcome::DownloadFailed(reason));
            },
            (Action::Extract { id, archive, destination: _ }, Event::Extracted(result)) => {
                let outcome = match result {
                    Ok(_) => SyncOutcome::Extracted,
                    Err(error) => if archive.len() == 0 {
                        SyncOutcome::EmptyResponse
                    } else {
                        SyncOutcome::ExtractFailed(error)
                    },
                };
                self.conclude(id, outcome);
            },
            (Action::Pause { millis: _ }, Event::Paused) => {
                if self.reports.len() < self.ids.len() {
                    let id = self.ids[self.reports.len()].clone();
                    let url = download_url(id.as_str());
                    self.pending = Action::Fetch { id, url };
                }
            },
            (pending, _) => {
                self.pending = pending;
            },
        }
    }
}

} // verus!
