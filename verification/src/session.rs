//! The session of one command: one request, one response and, where the
//! server offers candidates and the caller has chosen one, a second request
//! that is sent without waiting for a reply.
//!
//! The session does no input or output itself. It is told what happened on
//! the connection, one event at a time, and answers each event with the next
//! thing to do there. Whoever owns the connection carries the actions out:
//! `Send` and `Receive` on the open connection, and on `Close` it closes the
//! connection and hands the report to the caller.
//!
//! Where the server offers candidates and no choice was made beforehand, the
//! session ends with the list; the caller opens a new session once the
//! choice is made. The second request is not acknowledged: that the server
//! applies it is taken on trust.

use vstd::prelude::*;
use crate::message_types::{
    narrowed, track_views, ItemTag, RequestModel, ResponseModel, ServerResponse, TrackModel,
    UIRequest,
};
use crate::request::{RequestError, RequestErrorModel};
use crate::resolver::{
    classified, classify, in_range, select, Classification, ClassificationModel, SelectionError,
};
use crate::wire::{
    encode_request, encoded_request, read_response, request_text, response_result_view, sendable,
    text_response, ProtocolError,
};

verus! {

/// Where a session stands.
#[derive(Debug, Clone, Copy, PartialEq, Eq, Structural)]
pub enum SessionState {
    /// The request is on its way out.
    Idle,
    /// The request was sent; the response is awaited.
    AwaitingFirstResponse,
    /// A candidate was chosen; the request that switches to it is on its way out.
    AwaitingDisambiguation,
    /// The session is over and the connection closed.
    Done,
}

/// What went wrong on the connection.
#[derive(Debug, Clone, Copy, PartialEq, Eq, Structural)]
pub enum TransportError {
    /// A message could not be sent.
    SendFailed,
    /// A message could not be received.
    ReceiveFailed,
    /// The connection was closed before a message came.
    Closed,
    /// No message came in time.
    Timeout,
}

/// Why a session ended without an outcome.
#[derive(Debug, Clone, Copy, PartialEq, Eq, Structural)]
pub enum SessionError {
    Transport(TransportError),
    Protocol(ProtocolError),
    Selection(SelectionError),
    /// The session was told of something that cannot happen where it stands.
    OutOfTurn,
}

/// What the caller learns from a session that went well.
#[derive(Debug, PartialEq, Eq)]
pub enum Outcome {
    /// The server's status message.
    Acknowledgement { message: String },
    /// The one track that the server found.
    SingleMatch { message: String, track: ItemTag },
    /// The candidates among which to choose, in the server's order.
    MultipleMatches { message: String, candidates: Vec<ItemTag> },
    /// The request to switch to the chosen candidate was sent.
    SwitchRequested { message: String, track: ItemTag },
}

/// An outcome as a mathematical value.
pub enum OutcomeModel {
    Acknowledgement { message: Seq<char> },
    SingleMatch { message: Seq<char>, track: TrackModel },
    MultipleMatches { message: Seq<char>, candidates: Seq<TrackModel> },
    SwitchRequested { message: Seq<char>, track: TrackModel },
}

impl View for Outcome {
    type V = OutcomeModel;

    open spec fn view(&self) -> OutcomeModel {
        match *self {
            Outcome::Acknowledgement { message } => OutcomeModel::Acknowledgement {
                message: message@,
            },
            Outcome::SingleMatch { message, track } => OutcomeModel::SingleMatch {
                message: message@,
                track: track@,
            },
            Outcome::MultipleMatches { message, candidates } => OutcomeModel::MultipleMatches {
                message: message@,
                candidates: track_views(candidates@),
            },
            Outcome::SwitchRequested { message, track } => OutcomeModel::SwitchRequested {
                message: message@,
                track: track@,
            },
        }
    }
}

/// The mathematical value of a report.
pub open spec fn report_view(report: Result<Outcome, SessionError>) -> Result<
    OutcomeModel,
    SessionError,
> {
    match report {
        Ok(outcome) => Ok(outcome@),
        Err(error) => Err(error),
    }
}

/// What happened on the connection.
#[derive(Debug, PartialEq, Eq)]
pub enum SessionEvent {
    /// The message handed out with `Send` was sent.
    Sent,
    /// A message came, with this text.
    Received(String),
    /// The connection failed.
    Failed(TransportError),
}

/// An event as a mathematical value.
pub enum EventModel {
    Sent,
    Received(Seq<char>),
    Failed(TransportError),
}

impl View for SessionEvent {
    type V = EventModel;

    open spec fn view(&self) -> EventModel {
        match *self {
            SessionEvent::Sent => EventModel::Sent,
            SessionEvent::Received(text) => EventModel::Received(text@),
            SessionEvent::Failed(error) => EventModel::Failed(error),
        }
    }
}

/// What to do on the connection next.
#[derive(Debug, PartialEq, Eq)]
pub enum SessionAction {
    /// Send this text as one message, then report `Sent` or `Failed`.
    Send(String),
    /// Wait for one message, then report `Received` or `Failed`.
    Receive,
    /// Close the connection and hand the report to the caller.
    Close(Result<Outcome, SessionError>),
    /// The session was over already: there is nothing to do.
    Nothing,
}

/// An action as a mathematical value.
pub enum ActionModel {
    Send(Seq<char>),
    Receive,
    Close(Result<OutcomeModel, SessionError>),
    Nothing,
}

impl View for SessionAction {
    type V = ActionModel;

    open spec fn view(&self) -> ActionModel {
        match *self {
            SessionAction::Send(text) => ActionModel::Send(text@),
            SessionAction::Receive => ActionModel::Receive,
            SessionAction::Close(report) => ActionModel::Close(report_view(report)),
            SessionAction::Nothing => ActionModel::Nothing,
        }
    }
}

/// What is decided once the response is read.
#[derive(Debug, PartialEq, Eq)]
pub enum Resolution {
    /// The session is over, with this report.
    Report(Result<Outcome, SessionError>),
    /// A candidate was chosen: `frame` holds the request that switches to it.
    Switch { message: String, chosen: ItemTag, frame: String },
}

/// A resolution as a mathematical value.
pub enum ResolutionModel {
    Report(Result<OutcomeModel, SessionError>),
    Switch { message: Seq<char>, chosen: TrackModel, frame: Seq<char> },
}

impl View for Resolution {
    type V = ResolutionModel;

    open spec fn view(&self) -> ResolutionModel {
        match *self {
            Resolution::Report(report) => ResolutionModel::Report(report_view(report)),
            Resolution::Switch { message, chosen, frame } => ResolutionModel::Switch {
                message: message@,
                chosen: chosen@,
                frame: frame@,
            },
        }
    }
}

/// What follows from a list of candidates and the caller's choice.
///
/// Without a choice the list is reported. A choice that names no candidate
/// is an error, and so is a candidate without any value to match: in both
/// cases nothing is sent. Else the chosen candidate is switched to.
pub open spec fn chosen_among(
    message: Seq<char>,
    candidates: Seq<TrackModel>,
    choice: Option<i64>,
) -> ResolutionModel {
    match choice {
        None => ResolutionModel::Report(Ok(OutcomeModel::MultipleMatches { message, candidates })),
        Some(index) => if !in_range(index, candidates.len()) {
            ResolutionModel::Report(
                Err(
                    SessionError::Selection(
                        SelectionError { index, candidates: candidates.len() as usize },
                    ),
                ),
            )
        } else if narrowed(candidates[index as int]).is_empty() {
            ResolutionModel::Report(Err(SessionError::Protocol(ProtocolError::Malformed)))
        } else {
            ResolutionModel::Switch {
                message,
                chosen: candidates[index as int],
                frame: request_text(RequestModel::SwitchTo(narrowed(candidates[index as int]))),
            }
        },
    }
}

/// What follows from the response, or from the failure to read one.
/// `lookup` says whether the request was a `Search` or a `SwitchTo`,
/// `choice` which candidate the caller has chosen beforehand, if any.
pub open spec fn resolved(
    response: Result<ResponseModel, ProtocolError>,
    lookup: bool,
    choice: Option<i64>,
) -> ResolutionModel {
    match response {
        Err(error) => ResolutionModel::Report(Err(SessionError::Protocol(error))),
        Ok(reply) => match classified(reply, lookup) {
            ClassificationModel::Acknowledgement => ResolutionModel::Report(
                Ok(OutcomeModel::Acknowledgement { message: reply.message }),
            ),
            ClassificationModel::SingleMatch(track) => ResolutionModel::Report(
                Ok(OutcomeModel::SingleMatch { message: reply.message, track }),
            ),
            ClassificationModel::MultipleMatches(candidates) => chosen_among(
                reply.message,
                candidates,
                choice,
            ),
        },
    }
}

fn choose_among(message: String, candidates: Vec<ItemTag>, choice: Option<i64>) -> (resolution:
    Resolution)
    ensures
        resolution@ == chosen_among(message@, track_views(candidates@), choice),
{
    match choice {
        None => Resolution::Report(Ok(Outcome::MultipleMatches { message, candidates })),
        Some(index) => match select(&candidates, index) {
            Err(error) => Resolution::Report(Err(SessionError::Selection(error))),
            Ok(criterion) => {
                let chosen = candidates[index as usize].clone();
                match encode_request(&UIRequest::SwitchTo(criterion)) {
                    Ok(frame) => Resolution::Switch { message, chosen, frame },
                    Err(_) => Resolution::Report(
                        Err(SessionError::Protocol(ProtocolError::Malformed)),
                    ),
                }
            },
        },
    }
}

/// Decides what follows from the response, or from the failure to read one.
pub fn resolve(
    response: Result<ServerResponse, ProtocolError>,
    lookup: bool,
    choice: Option<i64>,
) -> (resolution: Resolution)
    ensures
        resolution@ == resolved(response_result_view(response), lookup, choice),
{
    match response {
        Err(error) => Resolution::Report(Err(SessionError::Protocol(error))),
        Ok(reply) => {
            let class = classify(&reply, lookup);
            let message = reply.message;
            match class {
                Classification::Acknowledgement => Resolution::Report(
                    Ok(Outcome::Acknowledgement { message }),
                ),
                Classification::SingleMatch(track) => Resolution::Report(
                    Ok(Outcome::SingleMatch { message, track }),
                ),
                Classification::MultipleMatches(candidates) => choose_among(
                    message,
                    candidates,
                    choice,
                ),
            }
        },
    }
}

/// The session of one command.
#[derive(Debug, PartialEq, Eq)]
pub struct Session {
    /// Where the session stands.
    pub state: SessionState,
    /// Whether the request is a `Search` or a `SwitchTo`.
    pub lookup: bool,
    /// The candidate that the caller has chosen beforehand, counted from zero.
    pub choice: Option<i64>,
    /// The server's message, kept while the second request goes out.
    pub message: String,
    /// The chosen candidate, kept while the second request goes out.
    pub chosen: ItemTag,
}

/// A session as a mathematical value.
pub struct SessionModel {
    pub state: SessionState,
    pub lookup: bool,
    pub choice: Option<i64>,
    pub message: Seq<char>,
    pub chosen: TrackModel,
}

impl View for Session {
    type V = SessionModel;

    open spec fn view(&self) -> SessionModel {
        SessionModel {
            state: self.state,
            lookup: self.lookup,
            choice: self.choice,
            message: self.message@,
            chosen: self.chosen@,
        }
    }
}

/// The session at its start, for a request and the caller's choice.
pub open spec fn opened(request: RequestModel, choice: Option<i64>) -> SessionModel {
    SessionModel {
        state: SessionState::Idle,
        lookup: request.is_lookup(),
        choice,
        message: Seq::empty(),
        chosen: crate::message_types::empty_track(),
    }
}

/// The session, over.
pub open spec fn ended(session: SessionModel) -> SessionModel {
    SessionModel { state: SessionState::Done, ..session }
}

/// The session closed with an error.
pub open spec fn failed(session: SessionModel, error: SessionError) -> (SessionModel, ActionModel) {
    (ended(session), ActionModel::Close(Err(error)))
}

/// The session after a resolution, and what the resolution asks for.
pub open spec fn after_resolution(session: SessionModel, resolution: ResolutionModel) -> (
    SessionModel,
    ActionModel,
) {
    match resolution {
        ResolutionModel::Report(report) => (ended(session), ActionModel::Close(report)),
        ResolutionModel::Switch { message, chosen, frame } => (
            SessionModel {
                state: SessionState::AwaitingDisambiguation,
                message,
                chosen,
                ..session
            },
            ActionModel::Send(frame),
        ),
    }
}

/// The session after the response was read, and what to do next. It
/// answers only where a response is awaited.
pub open spec fn answered(
    session: SessionModel,
    response: Result<ResponseModel, ProtocolError>,
) -> (SessionModel, ActionModel) {
    match session.state {
        SessionState::Done => (session, ActionModel::Nothing),
        SessionState::AwaitingFirstResponse => after_resolution(
            session,
            resolved(response, session.lookup, session.choice),
        ),
        _ => failed(session, SessionError::OutOfTurn),
    }
}

/// The session after an event, and what to do next.
pub open spec fn stepped(session: SessionModel, event: EventModel) -> (SessionModel, ActionModel) {
    match session.state {
        SessionState::Done => (session, ActionModel::Nothing),
        SessionState::Idle => match event {
            EventModel::Sent => (
                SessionModel { state: SessionState::AwaitingFirstResponse, ..session },
                ActionModel::Receive,
            ),
            EventModel::Failed(error) => failed(session, SessionError::Transport(error)),
            EventModel::Received(_) => failed(session, SessionError::OutOfTurn),
        },
        SessionState::AwaitingFirstResponse => match event {
            EventModel::Received(text) => answered(session, text_response(text)),
            EventModel::Failed(error) => failed(session, SessionError::Transport(error)),
            EventModel::Sent => failed(session, SessionError::OutOfTurn),
        },
        SessionState::AwaitingDisambiguation => match event {
            EventModel::Sent => (
                ended(session),
                ActionModel::Close(
                    Ok(
                        OutcomeModel::SwitchRequested {
                            message: session.message,
                            track: session.chosen,
                        },
                    ),
                ),
            ),
            EventModel::Failed(error) => failed(session, SessionError::Transport(error)),
            EventModel::Received(_) => failed(session, SessionError::OutOfTurn),
        },
    }
}

/// What opening a session gives: the session and its first action, which
/// sends the request; or `MissingArgument` for a lookup with an empty
/// criterion.
pub open spec fn begun(request: RequestModel, choice: Option<i64>) -> Result<
    (SessionModel, ActionModel),
    RequestErrorModel,
> {
    match encoded_request(request) {
        Ok(frame) => Ok((opened(request, choice), ActionModel::Send(frame))),
        Err(error) => Err(error),
    }
}

/// The mathematical value of a session with its action.
pub open spec fn turn_view(turn: (Session, SessionAction)) -> (SessionModel, ActionModel) {
    (turn.0@, turn.1@)
}

/// The mathematical value of an opened session or the error met in its place.
pub open spec fn opening_view(opening: Result<(Session, SessionAction), RequestError>) -> Result<
    (SessionModel, ActionModel),
    RequestErrorModel,
> {
    match opening {
        Ok(turn) => Ok(turn_view(turn)),
        Err(error) => Err(error@),
    }
}

impl Session {
    /// Opens the session of a request. `choice` is the candidate that the
    /// caller has chosen beforehand, counted from zero, if any.
    ///
    /// The first action sends the request. A request that may not be sent
    /// is refused here, before anything touches the connection.
    pub fn begin(request: &UIRequest, choice: Option<i64>) -> (opening: Result<
        (Session, SessionAction),
        RequestError,
    >)
        ensures
            opening_view(opening) == begun(request@, choice),
    {
        let lookup = match request {
            UIRequest::Search(_) => true,
            UIRequest::SwitchTo(_) => true,
            _ => false,
        };
        match encode_request(request) {
            Ok(frame) => {
                let session = Session {
                    state: SessionState::Idle,
                    lookup,
                    choice,
                    message: String::new(),
                    chosen: ItemTag::default(),
                };
                Ok((session, SessionAction::Send(frame)))
            },
            Err(error) => Err(error),
        }
    }

    /// Whether the session is over.
    pub fn is_done(&self) -> (done: bool)
        ensures
            done == (self@.state == SessionState::Done),
    {
        match self.state {
            SessionState::Done => true,
            _ => false,
        }
    }

    fn fail(self, error: SessionError) -> (turn: (Session, SessionAction))
        ensures
            turn_view(turn) == failed(self@, error),
    {
        let mut session = self;
        session.state = SessionState::Done;
        (session, SessionAction::Close(Err(error)))
    }

    /// Takes the response that was read, or the failure to read one, and
    /// says what to do next.
    pub fn answer(self, response: Result<ServerResponse, ProtocolError>) -> (turn: (
        Session,
        SessionAction,
    ))
        ensures
            turn_view(turn) == answered(self@, response_result_view(response)),
    {
        match self.state {
            SessionState::Done => (self, SessionAction::Nothing),
            SessionState::AwaitingFirstResponse => {
                let mut session = self;
                match resolve(response, session.lookup, session.choice) {
                    Resolution::Report(report) => {
                        session.state = SessionState::Done;
                        (session, SessionAction::Close(report))
                    },
                    Resolution::Switch { message, chosen, frame } => {
                        session.state = SessionState::AwaitingDisambiguation;
                        session.message = message;
                        session.chosen = chosen;
                        (session, SessionAction::Send(frame))
                    },
                }
            },
            _ => self.fail(SessionError::OutOfTurn),
        }
    }

    /// Takes what happened on the connection and says what to do next.
    pub fn step(self, event: SessionEvent) -> (turn: (Session, SessionAction))
        ensures
            turn_view(turn) == stepped(self@, event@),
    {
        match self.state {
            SessionState::Done => (self, SessionAction::Nothing),
            SessionState::Idle => match event {
                SessionEvent::Sent => {
                    let mut session = self;
                    session.state = SessionState::AwaitingFirstResponse;
                    (session, SessionAction::Receive)
                },
                SessionEvent::Failed(error) => self.fail(SessionError::Transport(error)),
                SessionEvent::Received(_) => self.fail(SessionError::OutOfTurn),
            },
            SessionState::AwaitingFirstResponse => match event {
                SessionEvent::Received(text) => {
                    let response = read_response(text.as_str());
                    self.answer(response)
                },
                SessionEvent::Failed(error) => self.fail(SessionError::Transport(error)),
                SessionEvent::Sent => self.fail(SessionError::OutOfTurn),
            },
            SessionState::AwaitingDisambiguation => match event {
                SessionEvent::Sent => {
                    let Session { state: _, lookup, choice, message, chosen } = self;
                    let report = Ok(
                        Outcome::SwitchRequested { message: message.clone(), track: chosen.clone() },
                    );
                    (
                        Session { state: SessionState::Done, lookup, choice, message, chosen },
                        SessionAction::Close(report),
                    )
                },
                SessionEvent::Failed(error) => self.fail(SessionError::Transport(error)),
                SessionEvent::Received(_) => self.fail(SessionError::OutOfTurn),
            },
        }
    }
}

/// The session after a row of events, and the actions that answered them.
pub open spec fn run(session: SessionModel, events: Seq<EventModel>) -> (
    SessionModel,
    Seq<ActionModel>,
)
    decreases events.len(),
{
    if events.len() == 0 {
        (session, Seq::empty())
    } else {
        let before = run(session, events.drop_last());
        let last = stepped(before.0, events.last());
        (last.0, before.1.push(last.1))
    }
}

/// How many of the actions close the connection.
pub open spec fn closes(actions: Seq<ActionModel>) -> nat
    decreases actions.len(),
{
    if actions.len() == 0 {
        0
    } else {
        closes(actions.drop_last()) + if actions.last() is Close {
            1nat
        } else {
            0nat
        }
    }
}

/// How many of the actions send a message.
pub open spec fn sends(actions: Seq<ActionModel>) -> nat
    decreases actions.len(),
{
    if actions.len() == 0 {
        0
    } else {
        sends(actions.drop_last()) + if actions.last() is Send {
            1nat
        } else {
            0nat
        }
    }
}

/// How many steps a session is from its end, at most.
pub open spec fn steps_left(state: SessionState) -> nat {
    match state {
        SessionState::Idle => 3,
        SessionState::AwaitingFirstResponse => 2,
        SessionState::AwaitingDisambiguation => 1,
        SessionState::Done => 0,
    }
}

/// A step closes the connection exactly when it ends the session; a
/// session that is over stays as it is and asks for nothing; and every
/// step of a session that is not over brings it nearer to its end.
pub proof fn lemma_step_closes_on_ending(session: SessionModel, event: EventModel)
    ensures
        stepped(session, event).1 is Close <==> session.state != SessionState::Done && stepped(
            session,
            event,
        ).0.state == SessionState::Done,
        session.state == SessionState::Done ==> stepped(session, event) == (
            session,
            ActionModel::Nothing,
        ),
        session.state != SessionState::Done ==> steps_left(stepped(session, event).0.state)
            < steps_left(session.state),
        stepped(session, event).1 is Send ==> session.state == SessionState::AwaitingFirstResponse
            && stepped(session, event).0.state == SessionState::AwaitingDisambiguation,
{
}

/// Over any row of events the connection is closed exactly once if the
/// session has ended, and not at all if it has not.
pub proof fn lemma_closed_exactly_once(session: SessionModel, events: Seq<EventModel>)
    requires
        session.state != SessionState::Done,
    ensures
        closes(run(session, events).1) == if run(session, events).0.state == SessionState::Done {
            1nat
        } else {
            0nat
        },
        run(session, events).1.len() == events.len(),
    decreases events.len(),
{
    if events.len() > 0 {
        let before = run(session, events.drop_last());
        lemma_closed_exactly_once(session, events.drop_last());
        lemma_step_closes_on_ending(before.0, events.last());
        let last = stepped(before.0, events.last());
        assert(before.1.push(last.1).drop_last() =~= before.1);
        assert(before.1.push(last.1).last() == last.1);
    }
}

/// A session sends at most once after its first request, and never once
/// it has left the state in which the response is awaited.
pub proof fn lemma_at_most_one_more_send(session: SessionModel, events: Seq<EventModel>)
    ensures
        sends(run(session, events).1) <= 1,
        session.state != SessionState::Idle && session.state
            != SessionState::AwaitingFirstResponse ==> sends(run(session, events).1) == 0,
        sends(run(session, events).1) == 1 ==> run(session, events).0.state
            == SessionState::AwaitingDisambiguation || run(session, events).0.state
            == SessionState::Done,
        steps_left(run(session, events).0.state) <= steps_left(session.state),
    decreases events.len(),
{
    if events.len() > 0 {
        let before = run(session, events.drop_last());
        lemma_at_most_one_more_send(session, events.drop_last());
        lemma_step_closes_on_ending(before.0, events.last());
        let last = stepped(before.0, events.last());
        assert(before.1.push(last.1).drop_last() =~= before.1);
        assert(before.1.push(last.1).last() == last.1);
    }
}

/// Every session is over after three events, whatever they are.
pub proof fn lemma_over_after_three_events(session: SessionModel, events: Seq<EventModel>)
    requires
        events.len() >= 3,
    ensures
        run(session, events).0.state == SessionState::Done,
{
    lemma_steps_left_run(session, events);
}

/// Each event of a row brings the session one step nearer to its end,
/// until it is over.
pub proof fn lemma_steps_left_run(session: SessionModel, events: Seq<EventModel>)
    ensures
        steps_left(run(session, events).0.state) + events.len() <= 3 || run(
            session,
            events,
        ).0.state == SessionState::Done,
    decreases events.len(),
{
    if events.len() > 0 {
        let before = run(session, events.drop_last());
        lemma_steps_left_run(session, events.drop_last());
        lemma_step_closes_on_ending(before.0, events.last());
    }
}

/// A choice that is negative, or equal to the number of candidates or
/// beyond it, ends the session with a selection error: the connection is
/// closed and no second request is sent.
pub proof fn lemma_choice_out_of_range(
    session: SessionModel,
    reply: ResponseModel,
    index: i64,
)
    requires
        session.state == SessionState::AwaitingFirstResponse,
        session.choice == Some(index),
        classified(reply, session.lookup) is MultipleMatches,
        index < 0 || index >= reply.results.len(),
    ensures
        answered(session, Ok(reply)) == failed(
            session,
            SessionError::Selection(
                SelectionError { index, candidates: reply.results.len() as usize },
            ),
        ),
        !(answered(session, Ok(reply)).1 is Send),
        answered(session, Ok(reply)).0.state == SessionState::Done,
{
}

/// Without a choice, candidates end the session with the whole list in
/// the server's order, and nothing more is sent.
pub proof fn lemma_candidates_without_choice(session: SessionModel, reply: ResponseModel)
    requires
        session.state == SessionState::AwaitingFirstResponse,
        session.choice is None,
        classified(reply, session.lookup) is MultipleMatches,
    ensures
        answered(session, Ok(reply)) == (
            ended(session),
            ActionModel::Close(
                Ok(
                    OutcomeModel::MultipleMatches {
                        message: reply.message,
                        candidates: reply.results,
                    },
                ),
            ),
        ),
{
}

/// A response that could not be read ends the session with that error.
pub proof fn lemma_unreadable_response(session: SessionModel, error: ProtocolError)
    requires
        session.state == SessionState::AwaitingFirstResponse,
    ensures
        answered(session, Err(error)) == failed(session, SessionError::Protocol(error)),
{
}

/// A request that is sent is never a lookup with an empty criterion.
pub proof fn lemma_empty_criterion_never_sent(request: RequestModel, choice: Option<i64>)
    ensures
        begun(request, choice) is Ok <==> sendable(request),
        !sendable(request) ==> begun(request, choice) == Err::<
            (SessionModel, ActionModel),
            RequestErrorModel,
        >(RequestErrorModel::MissingArgument),
{
}

} // verus!
