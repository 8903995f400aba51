use sousa_client::message_types::{ItemTag, PartialTag, ServerResponse, UIRequest};
use sousa_client::request::RequestError;
use sousa_client::resolver::SelectionError;
use sousa_client::session::{
    resolve, Outcome, Resolution, Session, SessionAction, SessionError, SessionEvent,
    SessionState, TransportError,
};
use sousa_client::wire::ProtocolError;

fn numbered(n: usize) -> ItemTag {
    ItemTag {
        path: format!("/music/{}.flac", n),
        title: format!("Song {}", n),
        artist: "Bob".to_string(),
        album: format!("Album {}", n),
        album_artist: String::new(),
    }
}

fn record(n: usize) -> String {
    format!(
        "{{\"path\":\"/music/{n}.flac\",\"title\":\"Song {n}\",\"artist\":\"Bob\",\"album\":\"Album {n}\",\"album_artist\":\"\"}}",
        n = n
    )
}

fn three_candidates() -> String {
    format!(
        "{{\"message\":\"Multiple results found: 3\",\"search_results\":[{},{},{}]}}",
        record(0),
        record(1),
        record(2)
    )
}

fn search(field: &str, value: &str) -> UIRequest {
    let mut tag = PartialTag::default();
    match field {
        "title" => tag.title = Some(value.to_string()),
        _ => tag.artist = Some(value.to_string()),
    }
    UIRequest::Search(tag)
}

/// Runs a session against a server that answers with the frames given,
/// and returns what was sent, the report and how often the connection
/// was closed.
fn run(request: &UIRequest, choice: Option<i64>, replies: &[&str]) -> (
    Vec<String>,
    Option<Result<Outcome, SessionError>>,
    usize,
) {
    let (mut session, mut action) = Session::begin(request, choice).unwrap();
    let mut sent = Vec::new();
    let mut report = None;
    let mut closed = 0;
    let mut replies = replies.iter();
    for _ in 0..10 {
        let event = match action {
            SessionAction::Send(frame) => {
                sent.push(frame);
                SessionEvent::Sent
            }
            SessionAction::Receive => match replies.next() {
                Some(frame) => SessionEvent::Received(frame.to_string()),
                None => SessionEvent::Failed(TransportError::Closed),
            },
            SessionAction::Close(result) => {
                closed += 1;
                report = Some(result);
                assert!(session.is_done());
                break;
            }
            SessionAction::Nothing => panic!("nothing to do before the session is over"),
        };
        let turn = session.step(event);
        session = turn.0;
        action = turn.1;
    }
    assert_eq!(session.state, SessionState::Done);
    let (after, nothing) = session.step(SessionEvent::Sent);
    assert_eq!(nothing, SessionAction::Nothing);
    assert!(after.is_done());
    (sent, report, closed)
}

#[test]
fn play_is_acknowledged() {
    let (sent, report, closed) = run(
        &UIRequest::Play,
        None,
        &["{\"message\":\"Now playing\",\"search_results\":[]}"],
    );
    assert_eq!(sent, vec!["\"Play\"".to_string()]);
    assert_eq!(report, Some(Ok(Outcome::Acknowledgement { message: "Now playing".to_string() })));
    assert_eq!(closed, 1);
}

#[test]
fn search_with_one_result_is_a_single_match() {
    let frame = format!("{{\"message\":\"Found\",\"search_results\":[{}]}}", record(0));
    let (sent, report, closed) = run(&search("title", "Rocker Song"), None, &[frame.as_str()]);
    assert_eq!(
        sent,
        vec!["{\"Search\":{\"path\":null,\"title\":\"Rocker Song\",\"artist\":null,\"album\":null,\"album_artist\":null}}".to_string()]
    );
    assert_eq!(
        report,
        Some(Ok(Outcome::SingleMatch { message: "Found".to_string(), track: numbered(0) }))
    );
    assert_eq!(closed, 1);
}

#[test]
fn candidates_without_choice_are_listed() {
    let frame = three_candidates();
    let (sent, report, closed) = run(&search("artist", "Bob"), None, &[frame.as_str()]);
    assert_eq!(sent.len(), 1);
    assert_eq!(
        report,
        Some(Ok(Outcome::MultipleMatches {
            message: "Multiple results found: 3".to_string(),
            candidates: vec![numbered(0), numbered(1), numbered(2)],
        }))
    );
    assert_eq!(closed, 1);
}

#[test]
fn chosen_candidate_is_switched_to() {
    let frame = three_candidates();
    let (sent, report, closed) = run(&search("artist", "Bob"), Some(1), &[frame.as_str()]);
    assert_eq!(
        sent,
        vec![
            "{\"Search\":{\"path\":null,\"title\":null,\"artist\":\"Bob\",\"album\":null,\"album_artist\":null}}".to_string(),
            "{\"SwitchTo\":{\"path\":\"/music/1.flac\",\"title\":\"Song 1\",\"artist\":\"Bob\",\"album\":\"Album 1\",\"album_artist\":null}}".to_string(),
        ]
    );
    assert_eq!(
        report,
        Some(Ok(Outcome::SwitchRequested {
            message: "Multiple results found: 3".to_string(),
            track: numbered(1),
        }))
    );
    assert_eq!(closed, 1);
}

#[test]
fn choice_beyond_the_list_is_a_selection_error() {
    let frame = three_candidates();
    for index in [5, 3, -1] {
        let (sent, report, closed) = run(&search("artist", "Bob"), Some(index), &[frame.as_str()]);
        assert_eq!(sent.len(), 1);
        assert_eq!(
            report,
            Some(Err(SessionError::Selection(SelectionError { index, candidates: 3 })))
        );
        assert_eq!(closed, 1);
    }
}

#[test]
fn choice_is_ignored_where_there_is_nothing_to_choose() {
    let frame = format!("{{\"message\":\"Found\",\"search_results\":[{}]}}", record(0));
    let (sent, report, _) = run(&search("title", "Song 0"), Some(7), &[frame.as_str()]);
    assert_eq!(sent.len(), 1);
    assert_eq!(
        report,
        Some(Ok(Outcome::SingleMatch { message: "Found".to_string(), track: numbered(0) }))
    );
    let (sent, report, _) = run(
        &UIRequest::Pause,
        Some(0),
        &["{\"message\":\"Paused\",\"search_results\":[]}"],
    );
    assert_eq!(sent, vec!["\"Pause\"".to_string()]);
    assert_eq!(report, Some(Ok(Outcome::Acknowledgement { message: "Paused".to_string() })));
}

#[test]
fn empty_and_malformed_replies_end_the_session() {
    let (sent, report, closed) = run(&UIRequest::GetStatus, None, &[""]);
    assert_eq!(sent, vec!["\"GetStatus\"".to_string()]);
    assert_eq!(report, Some(Err(SessionError::Protocol(ProtocolError::EmptyResponse))));
    assert_eq!(closed, 1);
    let (_, report, closed) = run(&UIRequest::GetStatus, None, &["{\"message\":"]);
    assert_eq!(report, Some(Err(SessionError::Protocol(ProtocolError::Malformed))));
    assert_eq!(closed, 1);
}

#[test]
fn closed_connection_ends_the_session() {
    let (sent, report, closed) = run(&UIRequest::Play, None, &[]);
    assert_eq!(sent.len(), 1);
    assert_eq!(report, Some(Err(SessionError::Transport(TransportError::Closed))));
    assert_eq!(closed, 1);
}

#[test]
fn failed_send_ends_the_session() {
    let (session, action) = Session::begin(&UIRequest::Play, None).unwrap();
    assert_eq!(session.state, SessionState::Idle);
    assert!(!session.lookup);
    assert_eq!(action, SessionAction::Send("\"Play\"".to_string()));
    let (session, action) = session.step(SessionEvent::Failed(TransportError::SendFailed));
    assert_eq!(session.state, SessionState::Done);
    assert_eq!(
        action,
        SessionAction::Close(Err(SessionError::Transport(TransportError::SendFailed)))
    );
}

#[test]
fn failed_second_send_ends_the_session() {
    let (session, _) = Session::begin(&search("artist", "Bob"), Some(2)).unwrap();
    assert!(session.lookup);
    let (session, action) = session.step(SessionEvent::Sent);
    assert_eq!(session.state, SessionState::AwaitingFirstResponse);
    assert_eq!(action, SessionAction::Receive);
    let (session, action) = session.step(SessionEvent::Received(three_candidates()));
    assert_eq!(session.state, SessionState::AwaitingDisambiguation);
    assert_eq!(session.chosen, numbered(2));
    assert!(matches!(action, SessionAction::Send(_)));
    let (session, action) = session.step(SessionEvent::Failed(TransportError::Timeout));
    assert!(session.is_done());
    assert_eq!(
        action,
        SessionAction::Close(Err(SessionError::Transport(TransportError::Timeout)))
    );
}

#[test]
fn events_out_of_turn_end_the_session() {
    let (session, _) = Session::begin(&UIRequest::Play, None).unwrap();
    let (session, action) = session.step(SessionEvent::Received("{}".to_string()));
    assert!(session.is_done());
    assert_eq!(action, SessionAction::Close(Err(SessionError::OutOfTurn)));

    let (session, _) = Session::begin(&UIRequest::Play, None).unwrap();
    let (session, _) = session.step(SessionEvent::Sent);
    let (session, action) = session.step(SessionEvent::Sent);
    assert!(session.is_done());
    assert_eq!(action, SessionAction::Close(Err(SessionError::OutOfTurn)));

    let (session, _) = Session::begin(&UIRequest::Play, None).unwrap();
    let reply = ServerResponse { message: "early".to_string(), search_results: vec![] };
    let (session, action) = session.answer(Ok(reply));
    assert!(session.is_done());
    assert_eq!(action, SessionAction::Close(Err(SessionError::OutOfTurn)));
}

#[test]
fn empty_criterion_opens_no_session() {
    assert_eq!(
        Session::begin(&UIRequest::Search(PartialTag::default()), None),
        Err(RequestError::MissingArgument)
    );
    assert_eq!(
        Session::begin(&UIRequest::SwitchTo(PartialTag::default()), Some(0)),
        Err(RequestError::MissingArgument)
    );
}

#[test]
fn resolution_follows_the_reply() {
    let candidates = ServerResponse {
        message: "Multiple results found: 2".to_string(),
        search_results: vec![numbered(0), numbered(1)],
    };
    assert_eq!(
        resolve(Ok(candidates), true, Some(0)),
        Resolution::Switch {
            message: "Multiple results found: 2".to_string(),
            chosen: numbered(0),
            frame: "{\"SwitchTo\":{\"path\":\"/music/0.flac\",\"title\":\"Song 0\",\"artist\":\"Bob\",\"album\":\"Album 0\",\"album_artist\":null}}".to_string(),
        }
    );
    assert_eq!(
        resolve(Err(ProtocolError::Malformed), true, Some(0)),
        Resolution::Report(Err(SessionError::Protocol(ProtocolError::Malformed)))
    );
    let blank = ServerResponse {
        message: "Multiple results found: 2".to_string(),
        search_results: vec![numbered(0), ItemTag::default()],
    };
    assert_eq!(
        resolve(Ok(blank), true, Some(1)),
        Resolution::Report(Err(SessionError::Protocol(ProtocolError::Malformed)))
    );
}
