use sousa_client::message_types::{ItemTag, PartialTag, ServerResponse};
use sousa_client::resolver::{
    classify, copy_tracks, message_announces_candidates, select, Classification, SelectionError,
};
use sousa_client::wire::{decode_response, read_response, ProtocolError, WireValue};

fn numbered(n: usize) -> ItemTag {
    ItemTag {
        path: format!("/music/{}.flac", n),
        title: format!("Song {}", n),
        artist: "Bob".to_string(),
        album: format!("Album {}", n),
        album_artist: String::new(),
    }
}

fn reply(message: &str, count: usize) -> ServerResponse {
    ServerResponse {
        message: message.to_string(),
        search_results: (0..count).map(numbered).collect(),
    }
}

fn text(value: &str) -> WireValue {
    WireValue::Text(value.to_string())
}

fn member(key: &str, value: WireValue) -> (String, WireValue) {
    (key.to_string(), value)
}

fn track_record(n: usize) -> WireValue {
    WireValue::Record(vec![
        member("album", text(&format!("Album {}", n))),
        member("album_artist", text("")),
        member("artist", text("Bob")),
        member("path", text(&format!("/music/{}.flac", n))),
        member("title", text(&format!("Song {}", n))),
    ])
}

#[test]
fn reply_without_results_is_read() {
    assert_eq!(
        read_response("{\"message\":\"Now playing\",\"search_results\":[]}"),
        Ok(reply("Now playing", 0))
    );
}

#[test]
fn reply_with_results_keeps_their_order() {
    let frame = "{\"message\": \"Multiple results found: 3\", \"search_results\": [\
        {\"path\":\"/music/0.flac\",\"title\":\"Song 0\",\"artist\":\"Bob\",\"album\":\"Album 0\",\"album_artist\":\"\"},\
        {\"title\":\"Song 1\",\"path\":\"/music/1.flac\",\"album_artist\":\"\",\"artist\":\"Bob\",\"album\":\"Album 1\"},\
        {\"path\":\"/music/2.flac\",\"title\":\"Song 2\",\"artist\":\"Bob\",\"album\":\"Album 2\",\"album_artist\":\"\",\"year\":1999}\
        ]}";
    assert_eq!(read_response(frame), Ok(reply("Multiple results found: 3", 3)));
}

#[test]
fn escapes_in_a_reply_are_resolved() {
    let read = read_response("{\"search_results\":[],\"message\":\"a\\n\\\"b\\\" \\u00e9\"}");
    assert_eq!(
        read,
        Ok(ServerResponse { message: "a\n\"b\" é".to_string(), search_results: vec![] })
    );
}

#[test]
fn empty_frame_is_an_empty_response() {
    assert_eq!(read_response(""), Err(ProtocolError::EmptyResponse));
}

#[test]
fn frames_of_another_shape_are_malformed() {
    for frame in [
        " ",
        "Now playing",
        "{\"message\":\"x\",\"search_results\":[]",
        "{\"message\":\"x\",\"search_results\":[]} trailing",
        "[]",
        "\"Play\"",
        "null",
        "{}",
        "{\"message\":\"x\"}",
        "{\"search_results\":[]}",
        "{\"message\":7,\"search_results\":[]}",
        "{\"message\":null,\"search_results\":[]}",
        "{\"message\":\"x\",\"search_results\":{}}",
        "{\"message\":\"x\",\"search_results\":[\"Song\"]}",
        "{\"message\":\"x\",\"search_results\":[{\"path\":\"p\",\"title\":\"t\",\"artist\":\"a\",\"album\":\"b\"}]}",
        "{\"message\":\"x\",\"search_results\":[{\"path\":\"p\",\"title\":\"t\",\"artist\":\"a\",\"album\":\"b\",\"album_artist\":null}]}",
        "{\"message\":\"x\",\"search_results\":[{\"path\":\"p\",\"title\":\"t\",\"artist\":\"a\",\"album\":\"b\",\"album_artist\":\"c\"},{}]}",
    ] {
        assert_eq!(read_response(frame), Err(ProtocolError::Malformed), "{}", frame);
    }
}

#[test]
fn parsed_frame_is_decoded() {
    let frame = WireValue::Record(vec![
        member("message", text("Found")),
        member("search_results", WireValue::List(vec![track_record(0), track_record(1)])),
    ]);
    assert_eq!(decode_response(&frame), Ok(reply("Found", 2)));
}

#[test]
fn other_members_are_passed_over() {
    let frame = WireValue::Record(vec![
        member("elapsed", WireValue::Number("12".to_string())),
        member("message", text("Found")),
        member("ok", WireValue::Bool(true)),
        member("search_results", WireValue::List(vec![])),
        member("server", WireValue::Null),
    ]);
    assert_eq!(decode_response(&frame), Ok(reply("Found", 0)));
}

#[test]
fn the_last_member_of_a_name_counts() {
    let frame = WireValue::Record(vec![
        member("message", WireValue::Null),
        member("search_results", WireValue::List(vec![])),
        member("message", text("second")),
    ]);
    assert_eq!(decode_response(&frame), Ok(reply("second", 0)));
    let frame = WireValue::Record(vec![
        member("message", text("first")),
        member("search_results", WireValue::List(vec![])),
        member("message", WireValue::Null),
    ]);
    assert_eq!(decode_response(&frame), Err(ProtocolError::Malformed));
}

#[test]
fn parsed_frames_of_another_shape_are_malformed() {
    let no_list = WireValue::Record(vec![
        member("message", text("Found")),
        member("search_results", text("none")),
    ]);
    let short_track = WireValue::Record(vec![
        member("message", text("Found")),
        member(
            "search_results",
            WireValue::List(vec![
                track_record(0),
                WireValue::Record(vec![member("title", text("Song 1"))]),
            ]),
        ),
    ]);
    for frame in [
        WireValue::Null,
        WireValue::Bool(false),
        WireValue::Number("1".to_string()),
        text("Found"),
        WireValue::List(vec![]),
        WireValue::Record(vec![]),
        no_list,
        short_track,
    ] {
        assert_eq!(decode_response(&frame), Err(ProtocolError::Malformed));
    }
}

#[test]
fn announcement_is_a_prefix_of_the_message() {
    assert!(message_announces_candidates("Multiple results found"));
    assert!(message_announces_candidates("Multiple results found: 3"));
    assert!(!message_announces_candidates("Multiple results"));
    assert!(!message_announces_candidates(" Multiple results found"));
    assert!(!message_announces_candidates("multiple results found"));
    assert!(!message_announces_candidates(""));
}

#[test]
fn no_results_is_an_acknowledgement() {
    for message in ["Now playing", "", "Multiple results found", "Multiple results found: 0"] {
        assert_eq!(classify(&reply(message, 0), true), Classification::Acknowledgement);
        assert_eq!(classify(&reply(message, 0), false), Classification::Acknowledgement);
    }
}

#[test]
fn other_commands_are_acknowledged() {
    assert_eq!(classify(&reply("Paused", 1), false), Classification::Acknowledgement);
    assert_eq!(
        classify(&reply("Multiple results found: 2", 2), false),
        Classification::Acknowledgement
    );
}

#[test]
fn one_result_is_a_single_match() {
    assert_eq!(
        classify(&reply("Switched to Song 0", 1), true),
        Classification::SingleMatch(numbered(0))
    );
}

#[test]
fn announced_results_are_candidates_in_order() {
    assert_eq!(
        classify(&reply("Multiple results found: 3", 3), true),
        Classification::MultipleMatches(vec![numbered(0), numbered(1), numbered(2)])
    );
}

#[test]
fn one_announced_result_is_a_list_of_one() {
    assert_eq!(
        classify(&reply("Multiple results found: 1", 1), true),
        Classification::MultipleMatches(vec![numbered(0)])
    );
}

#[test]
fn several_results_are_candidates_without_announcement() {
    assert_eq!(
        classify(&reply("Found", 2), true),
        Classification::MultipleMatches(vec![numbered(0), numbered(1)])
    );
}

#[test]
fn equal_candidates_are_all_kept() {
    let twice = ServerResponse {
        message: "Multiple results found: 3".to_string(),
        search_results: vec![numbered(2), numbered(0), numbered(2)],
    };
    assert_eq!(
        classify(&twice, true),
        Classification::MultipleMatches(vec![numbered(2), numbered(0), numbered(2)])
    );
    assert_eq!(copy_tracks(&twice.search_results), twice.search_results);
}

#[test]
fn selection_narrows_the_chosen_candidate() {
    let candidates = vec![numbered(0), numbered(1), numbered(2)];
    assert_eq!(
        select(&candidates, 1),
        Ok(PartialTag {
            path: Some("/music/1.flac".to_string()),
            title: Some("Song 1".to_string()),
            artist: Some("Bob".to_string()),
            album: Some("Album 1".to_string()),
            album_artist: None,
        })
    );
    assert_eq!(select(&candidates, 0).unwrap().title, Some("Song 0".to_string()));
    assert_eq!(select(&candidates, 2).unwrap().title, Some("Song 2".to_string()));
}

#[test]
fn selection_out_of_range_is_an_error() {
    let candidates = vec![numbered(0), numbered(1), numbered(2)];
    for index in [3, 4, 5, -1, -3, i64::MAX, i64::MIN] {
        assert_eq!(select(&candidates, index), Err(SelectionError { index, candidates: 3 }));
    }
    assert_eq!(select(&vec![], 0), Err(SelectionError { index: 0, candidates: 0 }));
    assert_eq!(
        SelectionError { index: 5, candidates: 3 }.describe(),
        "That index was larger than the list of options.\nTry running the command again without the `--choice-index` flag"
    );
}
