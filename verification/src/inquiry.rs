use vstd::prelude::*;
use vstd::string::*;
use crate::check::get_payment_request_status;
use crate::check::link_token;
use crate::check::path_answer;
use crate::check::report_text;
use crate::check::status_address;
use crate::check::status_outcome;
use crate::check::status_report;
use crate::check::status_request;
use crate::check::validate_file_paths;
use crate::check::CheckCommand;
use crate::error::PlinkError;
use crate::error::PlinkErrorView;
use crate::remote::authorization_header;
use crate::remote::bearer;
use crate::remote::json_text;
use crate::run::infos_view;
use crate::run::PaymentInfo;
use crate::run::PaymentInfoView;

verus! {

/// Where a status check stands.
#[derive(Debug, Clone, Copy, PartialEq, Eq, Structural)]
pub enum CheckPhase {
    /// Nothing is known of the input path yet.
    Unchecked,
    /// The path is good; the links of the input are awaited.
    Loading,
    /// The response to the current link's status request is awaited.
    Fetching,
    /// What came of the current link is being reported.
    Reporting,
    /// Every link was looked at.
    Done,
    /// The check was given up before any request was made.
    Failed,
}

/// What happened outside since the check last asked for something.
#[derive(Debug, Clone, PartialEq, Eq)]
pub enum CheckEvent {
    /// It was looked up whether the input path exists.
    Path { input_exists: bool },
    /// The input was read and decoded into these links.
    Loaded { links: Vec<PaymentInfo> },
    /// The input could not be read or decoded.
    Unreadable { error: PlinkError },
    /// The remote side answered the status request.
    Response { status: u16, body: String },
    /// The status request got no answer, for the reason given.
    Unanswered { reason: String },
    /// The report was made.
    Reported,
}

/// The mathematical value of a [`CheckEvent`].
pub enum CheckEventView {
    Path { input_exists: bool },
    Loaded { links: Seq<PaymentInfoView> },
    Unreadable { error: PlinkErrorView },
    Response { status: u16, body: Seq<char> },
    Unanswered { reason: Seq<char> },
    Reported,
}

impl View for CheckEvent {
    type V = CheckEventView;

    open spec fn view(&self) -> CheckEventView {
        match *self {
            CheckEvent::Path { input_exists } => CheckEventView::Path { input_exists },
            CheckEvent::Loaded { links } => CheckEventView::Loaded { links: infos_view(links@) },
            CheckEvent::Unreadable { error } => CheckEventView::Unreadable { error: error@ },
            CheckEvent::Response { status, body } => CheckEventView::Response {
                status,
                body: body@,
            },
            CheckEvent::Unanswered { reason } => CheckEventView::Unanswered { reason: reason@ },
            CheckEvent::Reported => CheckEventView::Reported,
        }
    }
}

/// What the check asks its surroundings to do next.
#[derive(Debug, Clone, PartialEq, Eq)]
pub enum CheckAction {
    /// Read the input, and come back with its links.
    Load,
    /// Get this address under this `Authorization` header, and come back
    /// with the response.
    Fetch { url: String, authorization: String },
    /// Report the status of the current link with this line, and come back.
    Report(String),
    /// Report that the current link is skipped for this error, and come back.
    ReportError(PlinkError),
    /// Every link was looked at.
    Finish,
    /// Give the check up, for this reason. No request was made.
    Abort(PlinkError),
    /// The event does not fit where the check stands; nothing has changed.
    Rejected,
}

/// The mathematical value of a [`CheckAction`].
pub enum CheckActionView {
    Load,
    Fetch { url: Seq<char>, authorization: Seq<char> },
    Report(Seq<char>),
    ReportError(PlinkErrorView),
    Finish,
    Abort(PlinkErrorView),
    Rejected,
}

impl View for CheckAction {
    type V = CheckActionView;

    open spec fn view(&self) -> CheckActionView {
        match *self {
            CheckAction::Load => CheckActionView::Load,
            CheckAction::Fetch { url, authorization } => CheckActionView::Fetch {
                url: url@,
                authorization: authorization@,
            },
            CheckAction::Report(line) => CheckActionView::Report(line@),
            CheckAction::ReportError(e) => CheckActionView::ReportError(e@),
            CheckAction::Finish => CheckActionView::Finish,
            CheckAction::Abort(e) => CheckActionView::Abort(e@),
            CheckAction::Rejected => CheckActionView::Rejected,
        }
    }
}

/// The mathematical value of a [`StatusInquiry`]: what the check was started
/// with, the links, the index of the current link, and the phase.
pub struct InquiryView {
    pub input: Seq<char>,
    pub api_key: Seq<char>,
    pub links: Seq<PaymentInfoView>,
    pub position: nat,
    pub phase: CheckPhase,
}

/// A state with another phase.
pub open spec fn in_phase(v: InquiryView, phase: CheckPhase) -> InquiryView {
    InquiryView {
        input: v.input,
        api_key: v.api_key,
        links: v.links,
        position: v.position,
        phase,
    }
}

/// The move that turns to the link at `position` of `links`: a status
/// request for it; the report of a malformed link, for which nothing is
/// requested; or the end of the check where no link is left.
pub open spec fn turn_to(v: InquiryView, links: Seq<PaymentInfoView>, position: nat) -> (
    InquiryView,
    CheckActionView,
) {
    let w = InquiryView {
        input: v.input,
        api_key: v.api_key,
        links,
        position,
        phase: CheckPhase::Done,
    };
    if position < links.len() {
        match link_token(links[position as int].payment_link) {
            Some(token) => (
                in_phase(w, CheckPhase::Fetching),
                CheckActionView::Fetch {
                    url: status_address(token),
                    authorization: bearer(v.api_key),
                },
            ),
            None => (
                in_phase(w, CheckPhase::Reporting),
                CheckActionView::ReportError(PlinkErrorView::MalformedLink),
            ),
        }
    } else {
        (w, CheckActionView::Finish)
    }
}

/// What is reported of a link for a response to its status request: the
/// line of its status, or the error where the response gives none.
pub open spec fn response_report(link: PaymentInfoView, status: u16, body: Seq<char>) ->
    CheckActionView {
    match status_outcome(status, body, json_text(body, "/id"@), json_text(body, "/paidAt"@)) {
        Ok(s) => CheckActionView::Report(report_text(link, s)),
        Err(e) => CheckActionView::ReportError(e),
    }
}

/// The check's rule: the state and the action that follow from a state and
/// an event.
///
/// The path comes first: a missing input gives the check up, and so does an
/// input that cannot be read or decoded. The links are then looked at one by
/// one, in their order, without a pause. Whatever comes of a link is
/// reported, and the check turns to the next. Any other event is rejected
/// and changes nothing.
pub open spec fn next(v: InquiryView, event: CheckEventView) -> (InquiryView, CheckActionView) {
    match (v.phase, event) {
        (CheckPhase::Unchecked, CheckEventView::Path { input_exists }) => {
            match path_answer(v.input, input_exists) {
                Ok(_) => (in_phase(v, CheckPhase::Loading), CheckActionView::Load),
                Err(e) => (in_phase(v, CheckPhase::Failed), CheckActionView::Abort(e)),
            }
        },
        (CheckPhase::Loading, CheckEventView::Loaded { links }) => turn_to(v, links, 0),
        (CheckPhase::Loading, CheckEventView::Unreadable { error }) => (
            in_phase(v, CheckPhase::Failed),
            CheckActionView::Abort(error),
        ),
        (CheckPhase::Fetching, CheckEventView::Response { status, body }) => (
            in_phase(v, CheckPhase::Reporting),
            response_report(v.links[v.position as int], status, body),
        ),
        (CheckPhase::Fetching, CheckEventView::Unanswered { reason }) => (
            in_phase(v, CheckPhase::Reporting),
            CheckActionView::ReportError(PlinkErrorView::Remote(reason)),
        ),
        (CheckPhase::Reporting, CheckEventView::Reported) => turn_to(v, v.links, v.position + 1),
        _ => (v, CheckActionView::Rejected),
    }
}

/// What holds of every state that a check comes to: the current link is one
/// of the links while it is fetched and reported, and past the last one at
/// the end.
pub open spec fn consistent(v: InquiryView) -> bool {
    match v.phase {
        CheckPhase::Unchecked | CheckPhase::Loading | CheckPhase::Failed => v.links.len() == 0
            && v.position == 0,
        CheckPhase::Fetching | CheckPhase::Reporting => v.position < v.links.len(),
        CheckPhase::Done => v.position == v.links.len(),
    }
}

/// The check's rule keeps a consistent state consistent. Once the links are
/// there, no failure gives the check up: what comes of a link is reported
/// and the check goes on. And a request is only made for a link that has a
/// token, at the address of that token.
pub proof fn lemma_failures_are_reported(v: InquiryView, event: CheckEventView)
    requires
        consistent(v),
    ensures
        consistent(next(v, event).0),
        v.phase == CheckPhase::Fetching || v.phase == CheckPhase::Reporting ==> !(next(
            v,
            event,
        ).1 is Abort),
        v.phase == CheckPhase::Fetching && (event is Response || event is Unanswered) ==> next(
            v,
            event,
        ).0.phase == CheckPhase::Reporting && (next(v, event).1 is Report || next(
            v,
            event,
        ).1 is ReportError) && next(v, event).0.position == v.position,
        next(v, event).1 is Fetch ==> {
            let w = next(v, event).0;
            &&& w.phase == CheckPhase::Fetching
            &&& link_token(w.links[w.position as int].payment_link) is Some
            &&& next(v, event).1->Fetch_url == status_address(
                link_token(w.links[w.position as int].payment_link)->Some_0,
            )
        },
{
}

/// A status check: the path is checked, the input is loaded, and the status
/// of each link is fetched and reported. The inquiry performs nothing
/// itself: it tells what to do next and takes in what came of it.
pub struct StatusInquiry {
    input: String,
    api_key: String,
    links: Vec<PaymentInfo>,
    position: usize,
    phase: CheckPhase,
}

impl View for StatusInquiry {
    type V = InquiryView;

    closed spec fn view(&self) -> InquiryView {
        InquiryView {
            input: self.input@,
            api_key: self.api_key@,
            links: infos_view(self.links@),
            position: self.position as nat,
            phase: self.phase,
        }
    }
}

impl StatusInquiry {
    /// The inquiry's invariant: its state is consistent.
    pub open spec fn wf(&self) -> bool {
        consistent(self@)
    }

    /// A check that was started with `command` and has done nothing yet.
    pub fn new(command: CheckCommand) -> (r: StatusInquiry)
        ensures
            r.wf(),
            r@ == (InquiryView {
                input: command.input@,
                api_key: command.api_key@,
                links: Seq::empty(),
                position: 0,
                phase: CheckPhase::Unchecked,
            }),
    {
        let r = StatusInquiry {
            input: command.input,
            api_key: command.api_key,
            links: Vec::new(),
            position: 0,
            phase: CheckPhase::Unchecked,
        };
        assert(r@.links =~= Seq::<PaymentInfoView>::empty());
        r
    }

    /// Where the check stands.
    pub fn phase(&self) -> (r: CheckPhase)
        ensures
            r == self@.phase,
    {
        self.phase
    }

    /// The path of the input.
    pub fn input(&self) -> (r: &String)
        ensures
            r@ == self@.input,
    {
        &self.input
    }

    fn turn_to(&mut self, position: usize) -> (action: CheckAction)
        requires
            position <= old(self).links.len(),
        ensures
            final(self).wf(),
            (final(self)@, action@) == turn_to(old(self)@, old(self)@.links, position as nat),
    {
        self.position = position;
        if position < self.links.len() {
            match status_request(self.links[position].payment_link.as_str()) {
                Ok(url) => {
                    self.phase = CheckPhase::Fetching;
                    CheckAction::Fetch {
                        url,
                        authorization: authorization_header(self.api_key.as_str()),
                    }
                },
                Err(e) => {
                    self.phase = CheckPhase::Reporting;
                    CheckAction::ReportError(e)
                },
            }
        } else {
            self.phase = CheckPhase::Done;
            CheckAction::Finish
        }
    }

    /// Takes in an event and tells what to do next, by the check's rule.
    pub fn step(&mut self, event: CheckEvent) -> (action: CheckAction)
        requires
            old(self).wf(),
        ensures
            final(self).wf(),
            (final(self)@, action@) == next(old(self)@, event@),
    {
        match (self.phase, event) {
            (CheckPhase::Unchecked, CheckEvent::Path { input_exists }) => {
                match validate_file_paths(self.input.as_str(), input_exists) {
                    Ok(()) => {
                        self.phase = CheckPhase::Loading;
                        CheckAction::Load
                    },
                    Err(e) => {
                        self.phase = CheckPhase::Failed;
                        CheckAction::Abort(e)
                    },
                }
            },
            (CheckPhase::Loading, CheckEvent::Loaded { links }) => {
                self.links = links;
                self.turn_to(0)
            },
            (CheckPhase::Loading, CheckEvent::Unreadable { error }) => {
                self.phase = CheckPhase::Failed;
                CheckAction::Abort(error)
            },
            (CheckPhase::Fetching, CheckEvent::Response { status, body }) => {
                self.phase = CheckPhase::Reporting;
                match get_payment_request_status(status, body.as_str()) {
                    Ok(found) => CheckAction::Report(
                        status_report(&self.links[self.position], &found),
                    ),
                    Err(e) => CheckAction::ReportError(e),
                }
            },
            (CheckPhase::Fetching, CheckEvent::Unanswered { reason }) => {
                self.phase = CheckPhase::Reporting;
                CheckAction::ReportError(PlinkError::Remote(reason))
            },
            (CheckPhase::Reporting, CheckEvent::Reported) => {
                assert(self.position < self.links.len());
                let position = self.position + 1;
                self.turn_to(position)
            },
            _ => CheckAction::Rejected,
        }
    }
}

} // verus!
