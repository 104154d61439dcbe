use vstd::prelude::*;
use vstd::string::*;
use crate::error::PlinkError;
use crate::error::PlinkErrorView;
use crate::remote::authorization_header;
use crate::remote::bearer;
use crate::run::collected;
use crate::run::create_payment_request;
use crate::run::infos_view;
use crate::run::interpret_create_response;
use crate::run::info_of;
use crate::run::lemma_all_succeed;
use crate::run::lemma_collected_counts_successes;
use crate::run::lemma_one_failure;
use crate::run::output_table;
use crate::run::paths_answer;
use crate::run::records_view;
use crate::run::request_of;
use crate::run::response_link;
use crate::run::validate_file_paths;
use crate::run::PaymentInfo;
use crate::run::PaymentInfoView;
use crate::run::PaymentRequest;
use crate::run::PaymentRequestView;
use crate::run::Record;
use crate::run::RecordView;
use crate::run::RunCommand;

verus! {

/// The pause after each creation attempt, in seconds.
pub const PACING_SECONDS: u64 = 1;

/// Where a creation run stands.
#[derive(Debug, Clone, Copy, PartialEq, Eq, Structural)]
pub enum RunPhase {
    /// Nothing is known of the two paths yet.
    Unchecked,
    /// The paths are good; the records of the input are awaited.
    Loading,
    /// The response to the current record's request is awaited.
    Creating,
    /// The pause after the current record's attempt is awaited.
    Pausing,
    /// Every record was tried; the results are being written.
    Writing,
    /// The results were written.
    Done,
    /// The run was given up.
    Failed,
}

/// What happened outside since the run last asked for something.
#[derive(Debug, Clone, PartialEq, Eq)]
pub enum RunEvent {
    /// It was looked up which of the two paths exist.
    Paths { input_exists: bool, output_exists: bool },
    /// The input was read and decoded into these records.
    Loaded { records: Vec<Record> },
    /// The input could not be read or decoded.
    Unreadable { error: PlinkError },
    /// The remote side answered the creation request.
    Response { status: u16, body: String },
    /// The creation request got no answer, for the reason given.
    Unanswered { reason: String },
    /// The pause is over.
    Paused,
    /// The results were written to the output.
    Written,
    /// The output could not be created or written, for the reason given.
    Unwritable { reason: String },
}

/// The mathematical value of a [`RunEvent`].
pub enum RunEventView {
    Paths { input_exists: bool, output_exists: bool },
    Loaded { records: Seq<RecordView> },
    Unreadable { error: PlinkErrorView },
    Response { status: u16, body: Seq<char> },
    Unanswered { reason: Seq<char> },
    Paused,
    Written,
    Unwritable { reason: Seq<char> },
}

impl View for RunEvent {
    type V = RunEventView;

    open spec fn view(&self) -> RunEventView {
        match *self {
            RunEvent::Paths { input_exists, output_exists } => RunEventView::Paths {
                input_exists,
                output_exists,
            },
            RunEvent::Loaded { records } => RunEventView::Loaded {
                records: records_view(records@),
            },
            RunEvent::Unreadable { error } => RunEventView::Unreadable { error: error@ },
            RunEvent::Response { status, body } => RunEventView::Response { status, body: body@ },
            RunEvent::Unanswered { reason } => RunEventView::Unanswered { reason: reason@ },
            RunEvent::Paused => RunEventView::Paused,
            RunEvent::Written => RunEventView::Written,
            RunEvent::Unwritable { reason } => RunEventView::Unwritable { reason: reason@ },
        }
    }
}

/// What the run asks its surroundings to do next.
#[derive(Debug, Clone, PartialEq, Eq)]
pub enum RunAction {
    /// Read the input, and come back with its records.
    Load,
    /// Post this request under this `Authorization` header, and come back
    /// with the response.
    Create { authorization: String, request: PaymentRequest },
    /// Wait for so many seconds, and come back; `failure` is the error of the
    /// attempt that was just made, if it failed.
    Pause { seconds: u64, failure: Option<PlinkError> },
    /// Every record was tried: write the results, and come back.
    Write,
    /// The run is over.
    Finish,
    /// Give the run up, for this reason.
    Abort(PlinkError),
    /// The event does not fit where the run stands; nothing has changed.
    Rejected,
}

/// The mathematical value of a [`RunAction`].
pub enum RunActionView {
    Load,
    Create { authorization: Seq<char>, request: PaymentRequestView },
    Pause { seconds: u64, failure: Option<PlinkErrorView> },
    Write,
    Finish,
    Abort(PlinkErrorView),
    Rejected,
}

impl View for RunAction {
    type V = RunActionView;

    open spec fn view(&self) -> RunActionView {
        match *self {
            RunAction::Load => RunActionView::Load,
            RunAction::Create { authorization, request } => RunActionView::Create {
                authorization: authorization@,
                request: request@,
            },
            RunAction::Pause { seconds, failure } => RunActionView::Pause {
                seconds,
                failure: match failure {
                    Some(e) => Some(e@),
                    None => None,
                },
            },
            RunAction::Write => RunActionView::Write,
            RunAction::Finish => RunActionView::Finish,
            RunAction::Abort(e) => RunActionView::Abort(e@),
            RunAction::Rejected => RunActionView::Rejected,
        }
    }
}

/// The mathematical value of a [`BatchRunner`]: what the run was started
/// with, the records, the index of the current record, the phase, and what
/// each attempt made so far came to (the link, or `None` for a failure).
pub struct RunnerView {
    pub input: Seq<char>,
    pub output: Seq<char>,
    pub api_key: Seq<char>,
    pub records: Seq<RecordView>,
    pub position: nat,
    pub phase: RunPhase,
    pub outcomes: Seq<Option<Seq<char>>>,
}

/// A state with another phase.
pub open spec fn in_phase(v: RunnerView, phase: RunPhase) -> RunnerView {
    RunnerView {
        input: v.input,
        output: v.output,
        api_key: v.api_key,
        records: v.records,
        position: v.position,
        phase,
        outcomes: v.outcomes,
    }
}

/// The move that turns to the record at `position` of `records`: a creation
/// request for it, or the writing of the results where no record is left.
pub open spec fn turn_to(v: RunnerView, records: Seq<RecordView>, position: nat) -> (
    RunnerView,
    RunActionView,
) {
    let phase = if position < records.len() {
        RunPhase::Creating
    } else {
        RunPhase::Writing
    };
    let w = RunnerView {
        input: v.input,
        output: v.output,
        api_key: v.api_key,
        records,
        position,
        phase,
        outcomes: v.outcomes,
    };
    if position < records.len() {
        (
            w,
            RunActionView::Create {
                authorization: bearer(v.api_key),
                request: request_of(records[position as int]),
            },
        )
    } else {
        (w, RunActionView::Write)
    }
}

/// The move that records what an attempt came to and asks for the pause.
pub open spec fn record_attempt(
    v: RunnerView,
    link: Option<Seq<char>>,
    failure: Option<PlinkErrorView>,
) -> (RunnerView, RunActionView) {
    (
        RunnerView {
            input: v.input,
            output: v.output,
            api_key: v.api_key,
            records: v.records,
            position: v.position,
            phase: RunPhase::Pausing,
            outcomes: v.outcomes.push(link),
        },
        RunActionView::Pause { seconds: PACING_SECONDS, failure },
    )
}

/// The run's rule: the state and the action that follow from a state and an
/// event.
///
/// The paths come first: a missing input or an occupied output gives the run
/// up, and so does an input that cannot be read or decoded. The records are
/// then tried one by one, in their order. What comes of an attempt is
/// recorded and answered by the pause, whether the attempt failed or not; a
/// request that got no answer counts as failed. The end of the pause turns
/// to the next record. When every record was tried the results are written,
/// which ends the run; an output that cannot be written gives it up. Any
/// other event is rejected and changes nothing.
pub open spec fn next(v: RunnerView, event: RunEventView) -> (RunnerView, RunActionView) {
    match (v.phase, event) {
        (RunPhase::Unchecked, RunEventView::Paths { input_exists, output_exists }) => {
            match paths_answer(v.input, input_exists, v.output, output_exists) {
                Ok(_) => (in_phase(v, RunPhase::Loading), RunActionView::Load),
                Err(e) => (in_phase(v, RunPhase::Failed), RunActionView::Abort(e)),
            }
        },
        (RunPhase::Loading, RunEventView::Loaded { records }) => turn_to(v, records, 0),
        (RunPhase::Loading, RunEventView::Unreadable { error }) => (
            in_phase(v, RunPhase::Failed),
            RunActionView::Abort(error),
        ),
        (RunPhase::Creating, RunEventView::Response { status, body }) => {
            let link = response_link(status, body);
            record_attempt(
                v,
                link,
                if link is Some {
                    None
                } else {
                    Some(PlinkErrorView::Remote(body))
                },
            )
        },
        (RunPhase::Creating, RunEventView::Unanswered { reason }) => record_attempt(
            v,
            None,
            Some(PlinkErrorView::Remote(reason)),
        ),
        (RunPhase::Pausing, RunEventView::Paused) => turn_to(v, v.records, v.position + 1),
        (RunPhase::Writing, RunEventView::Written) => (
            in_phase(v, RunPhase::Done),
            RunActionView::Finish,
        ),
        (RunPhase::Writing, RunEventView::Unwritable { reason }) => (
            in_phase(v, RunPhase::Failed),
            RunActionView::Abort(PlinkErrorView::Io(reason)),
        ),
        _ => (v, RunActionView::Rejected),
    }
}

/// What holds of every state that a run comes to: before the records are
/// there nothing was tried; after that the attempts made are those for the
/// records before the current one, and for the current one too while its
/// pause lasts; and a run is only given up before its first attempt or after
/// its last.
pub open spec fn consistent(v: RunnerView) -> bool {
    match v.phase {
        RunPhase::Unchecked | RunPhase::Loading => v.records.len() == 0 && v.position == 0
            && v.outcomes.len() == 0,
        RunPhase::Creating => v.position < v.records.len() && v.outcomes.len() == v.position,
        RunPhase::Pausing => v.position < v.records.len() && v.outcomes.len() == v.position + 1,
        RunPhase::Writing | RunPhase::Done => v.position == v.records.len() && v.outcomes.len()
            == v.position,
        RunPhase::Failed => v.outcomes.len() == v.position && (v.position == 0 || v.position
            == v.records.len()),
    }
}

/// The run's rule keeps a consistent state consistent and paces the requests:
/// a creation request is asked for only when the records have just come or
/// when a pause is over, and whatever comes of a request, the pause of
/// [`PACING_SECONDS`] is what the run asks for next.
pub proof fn lemma_requests_are_paced(v: RunnerView, event: RunEventView)
    requires
        consistent(v),
    ensures
        consistent(next(v, event).0),
        next(v, event).1 is Create ==> (v.phase == RunPhase::Loading && event is Loaded) || (v.phase
            == RunPhase::Pausing && event is Paused),
        v.phase == RunPhase::Creating ==> !(next(v, event).1 is Create),
        v.phase == RunPhase::Creating && (event is Response || event is Unanswered) ==> next(
            v,
            event,
        ).1 is Pause && next(v, event).1->Pause_seconds == PACING_SECONDS && next(
            v,
            event,
        ).0.phase == RunPhase::Pausing,
{
}

/// A run whose output path is occupied is given up when the paths are
/// looked at, and a run that was given up asks for nothing more: no request
/// is ever made.
pub proof fn lemma_occupied_output_stops_the_run(
    v: RunnerView,
    input_exists: bool,
    later: RunEventView,
)
    requires
        v.phase == RunPhase::Unchecked,
    ensures
        ({
            let first = next(v, RunEventView::Paths { input_exists, output_exists: true });
            &&& first.1 is Abort
            &&& input_exists ==> first.1 == RunActionView::Abort(
                PlinkErrorView::AlreadyExists(v.output),
            )
            &&& first.0.phase == RunPhase::Failed
            &&& next(first.0, later) == (first.0, RunActionView::Rejected)
        }),
{
}

/// No request is made before the paths were found good: a run that was not
/// checked yet answers every event with a rejection, but the one that tells
/// of the paths, and that one never with a request.
pub proof fn lemma_nothing_before_the_paths(v: RunnerView, event: RunEventView)
    requires
        v.phase == RunPhase::Unchecked,
    ensures
        !(event is Paths) ==> next(v, event) == (v, RunActionView::Rejected),
        !(next(v, event).1 is Create),
        next(v, event).1 is Load <==> event is Paths && event->Paths_input_exists
            && !event->Paths_output_exists,
{
}

/// A run never holds more results than it has records, in any consistent
/// state; so the output never has more rows under its header than the input
/// has records.
pub proof fn lemma_no_more_results_than_records(v: RunnerView)
    requires
        consistent(v),
    ensures
        collected(v.records, v.outcomes).len() <= v.outcomes.len() <= v.records.len(),
        output_table(collected(v.records, v.outcomes)).len() <= v.records.len() + 1,
{
    lemma_collected_counts_successes(v.records, v.outcomes);
}

/// Whether a run has tried every record.
pub open spec fn all_tried(v: RunnerView) -> bool {
    v.phase == RunPhase::Writing || v.phase == RunPhase::Done
}

/// A run that has tried every record, and in which every attempt made a
/// link, holds one result per record, in the order of the records, each
/// made of its own record and link.
pub proof fn lemma_finished_run_without_failure(v: RunnerView)
    requires
        consistent(v),
        all_tried(v),
        forall|i: int| 0 <= i < v.outcomes.len() ==> v.outcomes[i] is Some,
    ensures
        collected(v.records, v.outcomes).len() == v.records.len(),
        forall|i: int|
            0 <= i < v.records.len() ==> #[trigger] collected(v.records, v.outcomes)[i] == info_of(
                v.records[i],
                v.outcomes[i]->Some_0,
            ),
{
    lemma_all_succeed(v.records, v.outcomes);
}

/// A run in which exactly one attempt failed was not stopped by the failure:
/// when it has tried every record, it holds one result for every other
/// record.
pub proof fn lemma_finished_run_with_one_failure(v: RunnerView, failed: int)
    requires
        consistent(v),
        all_tried(v),
        0 <= failed < v.outcomes.len(),
        v.outcomes[failed] is None,
        forall|i: int| 0 <= i < v.outcomes.len() && i != failed ==> v.outcomes[i] is Some,
    ensures
        collected(v.records, v.outcomes).len() == v.records.len() - 1,
        forall|i: int|
            0 <= i < failed ==> #[trigger] collected(v.records, v.outcomes)[i] == info_of(
                v.records[i],
                v.outcomes[i]->Some_0,
            ),
        forall|i: int|
            failed < i < v.records.len() ==> #[trigger] collected(v.records, v.outcomes)[i - 1]
                == info_of(v.records[i], v.outcomes[i]->Some_0),
{
    lemma_one_failure(v.records, v.outcomes, failed);
}

/// A creation run: the paths are checked, the input is loaded, and the
/// records are tried one after the other, with a pause after each. The
/// runner performs nothing itself: it tells what to do next and takes in
/// what came of it.
pub struct BatchRunner {
    input: String,
    output: String,
    api_key: String,
    records: Vec<Record>,
    position: usize,
    phase: RunPhase,
    infos: Vec<PaymentInfo>,
    outcomes: Ghost<Seq<Option<Seq<char>>>>,
}

impl View for BatchRunner {
    type V = RunnerView;

    closed spec fn view(&self) -> RunnerView {
        RunnerView {
            input: self.input@,
            output: self.output@,
            api_key: self.api_key@,
            records: records_view(self.records@),
            position: self.position as nat,
            phase: self.phase,
            outcomes: self.outcomes@,
        }
    }
}

impl BatchRunner {
    /// The results collected so far.
    pub closed spec fn results(&self) -> Seq<PaymentInfoView> {
        infos_view(self.infos@)
    }

    /// The runner's invariant: its state is consistent, and its results are
    /// those of the attempts made so far.
    pub open spec fn wf(&self) -> bool {
        &&& consistent(self@)
        &&& self.results() == collected(self@.records, self@.outcomes)
    }

    /// A run that was started with `command` and has done nothing yet.
    pub fn new(command: RunCommand) -> (r: BatchRunner)
        ensures
            r.wf(),
            r@ == (RunnerView {
                input: command.input@,
                output: command.output@,
                api_key: command.api_key@,
                records: Seq::empty(),
                position: 0,
                phase: RunPhase::Unchecked,
                outcomes: Seq::empty(),
            }),
            r.results() == Seq::<PaymentInfoView>::empty(),
    {
        let r = BatchRunner {
            input: command.input,
            output: command.output,
            api_key: command.api_key,
            records: Vec::new(),
            position: 0,
            phase: RunPhase::Unchecked,
            infos: Vec::new(),
            outcomes: Ghost(Seq::empty()),
        };
        assert(r.results() =~= Seq::<PaymentInfoView>::empty());
        assert(r@.records =~= Seq::<RecordView>::empty());
        r
    }

    /// Where the run stands.
    pub fn phase(&self) -> (r: RunPhase)
        ensures
            r == self@.phase,
    {
        self.phase
    }

    /// The path of the input.
    pub fn input(&self) -> (r: &String)
        ensures
            r@ == self@.input,
    {
        &self.input
    }

    /// The path of the output.
    pub fn output(&self) -> (r: &String)
        ensures
            r@ == self@.output,
    {
        &self.output
    }

    /// The results collected so far: those of the attempts that made a link,
    /// in the order of the records, and never more than records tried.
    pub fn infos(&self) -> (r: &Vec<PaymentInfo>)
        requires
            self.wf(),
        ensures
            infos_view(r@) == self.results(),
            self.results() == collected(self@.records, self@.outcomes),
            r@.len() <= self@.outcomes.len() <= self@.records.len(),
    {
        proof {
            lemma_collected_counts_successes(self@.records, self@.outcomes);
        }
        &self.infos
    }

    fn turn_to(&mut self, position: usize) -> (action: RunAction)
        requires
            position <= old(self).records.len(),
            old(self).outcomes@.len() == position,
            old(self).results() == collected(old(self)@.records, old(self)@.outcomes),
        ensures
            final(self).wf(),
            (final(self)@, action@) == turn_to(old(self)@, old(self)@.records, position as nat),
            final(self).results() == old(self).results(),
    {
        self.position = position;
        if position < self.records.len() {
            self.phase = RunPhase::Creating;
            RunAction::Create {
                authorization: authorization_header(self.api_key.as_str()),
                request: create_payment_request(&self.records[position]),
            }
        } else {
            self.phase = RunPhase::Writing;
            RunAction::Write
        }
    }

    fn record_attempt(&mut self, outcome: Result<PaymentInfo, PlinkError>, Ghost(link): Ghost<
        Option<Seq<char>>,
    >) -> (action: RunAction)
        requires
            old(self).wf(),
            old(self)@.phase == RunPhase::Creating,
            match outcome {
                Ok(info) => link == Some(info@.payment_link) && info@ == info_of(
                    old(self)@.records[old(self)@.position as int],
                    info@.payment_link,
                ),
                Err(_) => link is None,
            },
        ensures
            final(self).wf(),
            (final(self)@, action@) == record_attempt(
                old(self)@,
                link,
                match outcome {
                    Ok(_) => None,
                    Err(e) => Some(e@),
                },
            ),
    {
        let ghost before = self.outcomes@;
        proof {
            assert(before.push(link).drop_last() =~= before);
        }
        self.outcomes = Ghost(before.push(link));
        self.phase = RunPhase::Pausing;
        match outcome {
            Ok(info) => {
                self.infos.push(info);
                assert(self.results() =~= collected(self@.records, self@.outcomes));
                RunAction::Pause { seconds: PACING_SECONDS, failure: None }
            },
            Err(e) => RunAction::Pause { seconds: PACING_SECONDS, failure: Some(e) },
        }
    }

    /// Takes in an event and tells what to do next, by the run's rule.
    pub fn step(&mut self, event: RunEvent) -> (action: RunAction)
        requires
            old(self).wf(),
        ensures
            final(self).wf(),
            (final(self)@, action@) == next(old(self)@, event@),
    {
        match (self.phase, event) {
            (RunPhase::Unchecked, RunEvent::Paths { input_exists, output_exists }) => {
                match validate_file_paths(
                    self.input.as_str(),
                    input_exists,
                    self.output.as_str(),
                    output_exists,
                ) {
                    Ok(()) => {
                        self.phase = RunPhase::Loading;
                        RunAction::Load
                    },
                    Err(e) => {
                        self.phase = RunPhase::Failed;
                        RunAction::Abort(e)
                    },
                }
            },
            (RunPhase::Loading, RunEvent::Loaded { records }) => {
                assert(self.outcomes@ =~= Seq::empty());
                self.records = records;
                self.turn_to(0)
            },
            (RunPhase::Loading, RunEvent::Unreadable { error }) => {
                self.phase = RunPhase::Failed;
                RunAction::Abort(error)
            },
            (RunPhase::Creating, RunEvent::Response { status, body }) => {
                let outcome = interpret_create_response(
                    &self.records[self.position],
                    status,
                    body.as_str(),
                );
                self.record_attempt(outcome, Ghost(response_link(status, body@)))
            },
            (RunPhase::Creating, RunEvent::Unanswered { reason }) => {
                self.record_attempt(Err(PlinkError::Remote(reason)), Ghost(None))
            },
            (RunPhase::Pausing, RunEvent::Paused) => {
                assert(self.position < self.records.len());
                let position = self.position + 1;
                self.turn_to(position)
            },
            (RunPhase::Writing, RunEvent::Written) => {
                self.phase = RunPhase::Done;
                RunAction::Finish
            },
            (RunPhase::Writing, RunEvent::Unwritable { reason }) => {
                self.phase = RunPhase::Failed;
                RunAction::Abort(PlinkError::Io(reason))
            },
            _ => RunAction::Rejected,
        }
    }
}

} // verus!
