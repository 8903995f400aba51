//! The wire format: requests rendered as text frames, and the text of a
//! reply read back into a response. The JSON grammar itself is left to
//! `serde_json`; what a frame must hold to be a response is decided here.

use vstd::prelude::*;
use vstd::string::*;
use crate::request::{RequestError, RequestErrorModel};
use crate::text::same_text;
use crate::message_types::{ItemTag, PartialTag, ServerResponse, SkipDirection, UIRequest, TrackModel, CriterionModel, ResponseModel, RequestModel, track_views, text_view};

verus! {

/// A parsed frame: the tree of values that a JSON text stands for.
#[derive(Debug, PartialEq, Eq)]
pub enum WireValue {
    Null,
    Bool(bool),
    /// A number, held as its decimal text.
    Number(String),
    Text(String),
    List(Vec<WireValue>),
    /// The members of an object, each a key with its value.
    Record(Vec<(String, WireValue)>),
}

/// Why a reply could not be read.
#[derive(Debug, Clone, Copy, PartialEq, Eq, Structural)]
pub enum ProtocolError {
    /// The frame held no text at all.
    EmptyResponse,
    /// The frame is no JSON text, or not of the shape of a response.
    Malformed,
}

/// A parsed frame as a mathematical value.
pub enum WireModel {
    Null,
    Bool(bool),
    Number(Seq<char>),
    Text(Seq<char>),
    List(Seq<WireModel>),
    Record(Seq<(Seq<char>, WireModel)>),
}

/// The mathematical value of a parsed frame.
pub open spec fn wire_model(value: WireValue) -> WireModel
    decreases value,
{
    match value {
        WireValue::Null => WireModel::Null,
        WireValue::Bool(flag) => WireModel::Bool(flag),
        WireValue::Number(digits) => WireModel::Number(digits@),
        WireValue::Text(text) => WireModel::Text(text@),
        WireValue::List(items) => WireModel::List(
            Seq::new(
                items@.len(),
                |i: int|
                    if 0 <= i < items@.len() {
                        wire_model(items@[i])
                    } else {
                        WireModel::Null
                    },
            ),
        ),
        WireValue::Record(entries) => WireModel::Record(
            Seq::new(
                entries@.len(),
                |i: int|
                    if 0 <= i < entries@.len() {
                        (entries@[i].0@, wire_model(entries@[i].1))
                    } else {
                        (Seq::empty(), WireModel::Null)
                    },
            ),
        ),
    }
}

impl View for WireValue {
    type V = WireModel;

    open spec fn view(&self) -> WireModel {
        wire_model(*self)
    }
}

/// The values of a list, each as its mathematical value.
pub open spec fn list_view(items: Seq<WireValue>) -> Seq<WireModel> {
    Seq::new(items.len(), |i: int| items[i]@)
}

/// The members of an object, each as its mathematical value.
pub open spec fn record_view(entries: Seq<(String, WireValue)>) -> Seq<(Seq<char>, WireModel)> {
    Seq::new(entries.len(), |i: int| (entries[i].0@, entries[i].1@))
}

/// The view of a list is the list of the views, and so for an object.
pub proof fn lemma_view_of_parts(value: WireValue)
    ensures
        value matches WireValue::List(items) ==> value@ == WireModel::List(list_view(items@)),
        value matches WireValue::Record(entries) ==> value@ == WireModel::Record(
            record_view(entries@),
        ),
{
    match value {
        WireValue::List(items) => {
            assert(value@->List_0 =~= list_view(items@));
        },
        WireValue::Record(entries) => {
            assert(value@->Record_0 =~= record_view(entries@));
        },
        _ => {},
    }
}

/// What `serde_json` reads out of a text: the tree it parses to, or `None`
/// where it rejects the text.
pub uninterp spec fn parsed_frame(text: Seq<char>) -> Option<WireModel>;

/// The JSON string literal that `serde_json` writes for a text, quotes and
/// escapes included.
pub uninterp spec fn json_string(text: Seq<char>) -> Seq<char>;

#[verifier::external_type_specification]
#[verifier::external_body]
pub struct ExJsonError(serde_json::Error);

#[verifier::external_type_specification]
#[verifier::external_body]
pub struct ExJsonValue(serde_json::Value);

/// Moves a `serde_json::Value` into a `WireValue`, variant by variant.
/// Nothing is claimed of it on its own: `parse_frame` names the result of
/// parsing and moving together.
#[verifier::external_body]
fn lift_value(value: serde_json::Value) -> WireValue {
    match value {
        serde_json::Value::Null => WireValue::Null,
        serde_json::Value::Bool(flag) => WireValue::Bool(flag),
        serde_json::Value::Number(number) => WireValue::Number(number.to_string()),
        serde_json::Value::String(text) => WireValue::Text(text),
        serde_json::Value::Array(items) => WireValue::List(items.into_iter().map(lift_value).collect()),
        serde_json::Value::Object(members) => WireValue::Record(
            members.into_iter().map(|(key, member)| (key, lift_value(member))).collect(),
        ),
    }
}

/// `serde_json::from_str` at the type `serde_json::Value`. The contract
/// claims only that the outcome is a function of the text: the same text
/// parses to the same tree, or is rejected, every time.
#[verifier::external_body]
fn parse_frame(text: &str) -> (parsed: Result<WireValue, serde_json::Error>)
    ensures
        parsed matches Ok(value) ==> parsed_frame(text@) == Some(value@),
        parsed is Err ==> parsed_frame(text@) is None,
{
    serde_json::from_str::<serde_json::Value>(text).map(lift_value)
}

/// `serde_json`'s rendering of a string value (`Value::String` through its
/// `Display`). The contract claims only that the literal is a function of
/// the text.
#[verifier::external_body]
fn quote_text(text: &str) -> (literal: String)
    ensures
        literal@ == json_string(text@),
{
    serde_json::Value::String(text.to_owned()).to_string()
}

/// The value that an object holds under a key: that of the last member
/// with this key, if there is one.
pub open spec fn member(entries: Seq<(Seq<char>, WireModel)>, key: Seq<char>) -> Option<
    WireModel,
>
    decreases entries.len(),
{
    if entries.len() == 0 {
        None
    } else if entries.last().0 == key {
        Some(entries.last().1)
    } else {
        member(entries.drop_last(), key)
    }
}

/// The text that an object holds under a key, if it holds a text there.
pub open spec fn text_member(entries: Seq<(Seq<char>, WireModel)>, key: Seq<char>) -> Option<
    Seq<char>,
> {
    match member(entries, key) {
        Some(WireModel::Text(text)) => Some(text),
        _ => None,
    }
}

fn find_member<'a>(entries: &'a Vec<(String, WireValue)>, key: &str) -> (found: Option<
    &'a WireValue,
>)
    ensures
        found matches Some(value) ==> member(record_view(entries@), key@) == Some(value@),
        found is None ==> member(record_view(entries@), key@) is None,
{
    let ghost all = record_view(entries@);
    let mut rest: usize = entries.len();
    assert(all.take(rest as int) =~= all);
    while rest > 0
        invariant
            rest <= entries.len(),
            all == record_view(entries@),
            member(all, key@) == member(all.take(rest as int), key@),
        decreases rest,
    {
        let entry = &entries[rest - 1];
        assert(all.take(rest as int).last() == all[rest - 1]);
        assert(all.take(rest as int).drop_last() =~= all.take(rest - 1));
        if same_text(entry.0.as_str(), key) {
            return Some(&entry.1);
        }
        rest = rest - 1;
    }
    None
}

fn find_text<'a>(entries: &'a Vec<(String, WireValue)>, key: &str) -> (found: Option<&'a String>)
    ensures
        found matches Some(text) ==> text_member(record_view(entries@), key@) == Some(text@),
        found is None ==> text_member(record_view(entries@), key@) is None,
{
    match find_member(entries, key) {
        Some(WireValue::Text(text)) => Some(text),
        _ => None,
    }
}

/// The track that a parsed value stands for: an object that holds a text
/// under each of the five field names. Other members are passed over.
pub open spec fn decoded_track(value: WireModel) -> Option<TrackModel> {
    match value {
        WireModel::Record(entries) => {
            let path = text_member(entries, "path"@);
            let title = text_member(entries, "title"@);
            let artist = text_member(entries, "artist"@);
            let album = text_member(entries, "album"@);
            let album_artist = text_member(entries, "album_artist"@);
            if path is Some && title is Some && artist is Some && album is Some
                && album_artist is Some {
                Some(
                    TrackModel {
                        path: path->0,
                        title: title->0,
                        artist: artist->0,
                        album: album->0,
                        album_artist: album_artist->0,
                    },
                )
            } else {
                None
            }
        },
        _ => None,
    }
}

/// The tracks that a list of parsed values stands for, in the list's
/// order, if every one of them is a track.
pub open spec fn decoded_tracks(items: Seq<WireModel>) -> Option<Seq<TrackModel>> {
    if forall|i: int| 0 <= i < items.len() ==> (#[trigger] decoded_track(items[i])) is Some {
        Some(Seq::new(items.len(), |i: int| decoded_track(items[i])->0))
    } else {
        None
    }
}

/// The response that a parsed frame stands for: an object with a text
/// under `message` and a list of tracks under `search_results`.
pub open spec fn decoded_response(frame: WireModel) -> Option<ResponseModel> {
    match frame {
        WireModel::Record(entries) => match (
            text_member(entries, "message"@),
            member(entries, "search_results"@),
        ) {
            (Some(message), Some(WireModel::List(items))) => match decoded_tracks(items) {
                Some(results) => Some(ResponseModel { message, results }),
                None => None,
            },
            _ => None,
        },
        _ => None,
    }
}

/// The mathematical value of a response or the error met in its place.
pub open spec fn response_result_view(result: Result<ServerResponse, ProtocolError>) -> Result<
    ResponseModel,
    ProtocolError,
> {
    match result {
        Ok(response) => Ok(response@),
        Err(error) => Err(error),
    }
}

/// What reading a parsed frame gives: its response, or `Malformed`.
pub open spec fn frame_response(frame: WireModel) -> Result<ResponseModel, ProtocolError> {
    match decoded_response(frame) {
        Some(response) => Ok(response),
        None => Err(ProtocolError::Malformed),
    }
}

/// What reading the text of a frame gives: `EmptyResponse` for no text,
/// `Malformed` for a text that is no JSON or no response, and else the
/// response that the text stands for.
pub open spec fn text_response(text: Seq<char>) -> Result<ResponseModel, ProtocolError> {
    if text.len() == 0 {
        Err(ProtocolError::EmptyResponse)
    } else {
        match parsed_frame(text) {
            Some(frame) => frame_response(frame),
            None => Err(ProtocolError::Malformed),
        }
    }
}

fn decode_track(value: &WireValue) -> (track: Option<ItemTag>)
    ensures
        track matches Some(tag) ==> decoded_track(value@) == Some(tag@),
        track is None ==> decoded_track(value@) is None,
{
    proof {
        lemma_view_of_parts(*value);
    }
    match value {
        WireValue::Record(entries) => {
            let path = find_text(entries, "path");
            let title = find_text(entries, "title");
            let artist = find_text(entries, "artist");
            let album = find_text(entries, "album");
            let album_artist = find_text(entries, "album_artist");
            match (path, title, artist, album, album_artist) {
                (Some(path), Some(title), Some(artist), Some(album), Some(album_artist)) => Some(
                    ItemTag {
                        path: path.clone(),
                        title: title.clone(),
                        artist: artist.clone(),
                        album: album.clone(),
                        album_artist: album_artist.clone(),
                    },
                ),
                _ => None,
            }
        },
        _ => None,
    }
}

fn decode_tracks(items: &Vec<WireValue>) -> (tracks: Option<Vec<ItemTag>>)
    ensures
        tracks matches Some(list) ==> decoded_tracks(list_view(items@)) == Some(
            track_views(list@),
        ),
        tracks is None ==> decoded_tracks(list_view(items@)) is None,
{
    let ghost all = list_view(items@);
    let mut list: Vec<ItemTag> = Vec::new();
    let mut next: usize = 0;
    while next < items.len()
        invariant
            next <= items.len(),
            list@.len() == next,
            all == list_view(items@),
            forall|i: int| 0 <= i < next ==> (#[trigger] decoded_track(all[i])) == Some(list@[i]@),
        decreases items.len() - next,
    {
        match decode_track(&items[next]) {
            Some(tag) => {
                list.push(tag);
            },
            None => {
                assert(decoded_track(all[next as int]) is None);
                return None;
            },
        }
        next = next + 1;
    }
    assert(track_views(list@) =~= Seq::new(all.len(), |i: int| decoded_track(all[i])->0));
    Some(list)
}

/// Reads a parsed frame as a response.
///
/// The frame must be an object with a text under `message` and, under
/// `search_results`, a list of objects that each hold a text under `path`,
/// `title`, `artist`, `album` and `album_artist`. The tracks keep the
/// order of the list. Anything else is `Malformed`.
pub fn decode_response(frame: &WireValue) -> (result: Result<ServerResponse, ProtocolError>)
    ensures
        response_result_view(result) == frame_response(frame@),
{
    proof {
        lemma_view_of_parts(*frame);
    }
    match frame {
        WireValue::Record(entries) => {
            let message = find_text(entries, "message");
            let results = find_member(entries, "search_results");
            match (message, results) {
                (Some(message), Some(WireValue::List(items))) => {
                    proof {
                        lemma_view_of_parts(*results->0);
                    }
                    match decode_tracks(items) {
                        Some(search_results) => Ok(
                            ServerResponse { message: message.clone(), search_results },
                        ),
                        None => Err(ProtocolError::Malformed),
                    }
                },
                _ => Err(ProtocolError::Malformed),
            }
        },
        _ => Err(ProtocolError::Malformed),
    }
}

/// Reads the text of a frame as a response.
pub fn read_response(text: &str) -> (result: Result<ServerResponse, ProtocolError>)
    ensures
        response_result_view(result) == text_response(text@),
{
    if text.is_empty() {
        return Err(ProtocolError::EmptyResponse);
    }
    match parse_frame(text) {
        Ok(frame) => decode_response(&frame),
        Err(_) => Err(ProtocolError::Malformed),
    }
}

/// The text of one field of a criterion: `null` where it is unset, else
/// the value as a JSON string.
pub open spec fn field_text(field: Option<Seq<char>>) -> Seq<char> {
    match field {
        Some(value) => json_string(value),
        None => "null"@,
    }
}

/// The text of a criterion: an object with the five fields in their order.
pub open spec fn criterion_text(criterion: CriterionModel) -> Seq<char> {
    "{\"path\":"@ + field_text(criterion.path) + ",\"title\":"@ + field_text(criterion.title)
        + ",\"artist\":"@ + field_text(criterion.artist) + ",\"album\":"@ + field_text(
        criterion.album,
    ) + ",\"album_artist\":"@ + field_text(criterion.album_artist) + "}"@
}

/// The text of a request as it goes over the wire.
pub open spec fn request_text(request: RequestModel) -> Seq<char> {
    match request {
        RequestModel::Play => "\"Play\""@,
        RequestModel::Pause => "\"Pause\""@,
        RequestModel::GetStatus => "\"GetStatus\""@,
        RequestModel::Skip(SkipDirection::Forward) => "{\"Skip\":{\"direction\":\"Forward\"}}"@,
        RequestModel::Skip(SkipDirection::Backward) => "{\"Skip\":{\"direction\":\"Backward\"}}"@,
        RequestModel::Search(criterion) => "{\"Search\":"@ + criterion_text(criterion) + "}"@,
        RequestModel::SwitchTo(criterion) => "{\"SwitchTo\":"@ + criterion_text(criterion) + "}"@,
    }
}

/// Whether a request may be sent: a lookup needs a criterion that is not empty.
pub open spec fn sendable(request: RequestModel) -> bool {
    match request {
        RequestModel::Search(criterion) => !criterion.is_empty(),
        RequestModel::SwitchTo(criterion) => !criterion.is_empty(),
        _ => true,
    }
}

/// What encoding a request gives: its text, or `MissingArgument` for a
/// lookup with an empty criterion.
pub open spec fn encoded_request(request: RequestModel) -> Result<Seq<char>, RequestErrorModel> {
    if sendable(request) {
        Ok(request_text(request))
    } else {
        Err(RequestErrorModel::MissingArgument)
    }
}

/// The mathematical value of a frame or the error met in its place.
pub open spec fn frame_result_view(result: Result<String, RequestError>) -> Result<
    Seq<char>,
    RequestErrorModel,
> {
    match result {
        Ok(frame) => Ok(frame@),
        Err(error) => Err(error@),
    }
}

fn append_field(frame: &mut String, label: &str, field: &Option<String>)
    ensures
        final(frame)@ == old(frame)@ + label@ + field_text(text_view(*field)),
{
    frame.append(label);
    match field {
        Some(value) => {
            let literal = quote_text(value.as_str());
            frame.append(literal.as_str());
        },
        None => {
            frame.append("null");
        },
    }
}

fn append_criterion(frame: &mut String, criterion: &PartialTag)
    ensures
        final(frame)@ == old(frame)@ + criterion_text(criterion@),
{
    append_field(frame, "{\"path\":", &criterion.path);
    append_field(frame, ",\"title\":", &criterion.title);
    append_field(frame, ",\"artist\":", &criterion.artist);
    append_field(frame, ",\"album\":", &criterion.album);
    append_field(frame, ",\"album_artist\":", &criterion.album_artist);
    frame.append("}");
    assert(final(frame)@ =~= old(frame)@ + criterion_text(criterion@));
}

fn lookup_frame(tag: &str, criterion: &PartialTag) -> (frame: String)
    ensures
        frame@ == tag@ + criterion_text(criterion@) + "}"@,
{
    let mut frame = String::from_str(tag);
    append_criterion(&mut frame, criterion);
    frame.append("}");
    frame
}

/// Renders a request as the text of its frame.
///
/// A `Search` or `SwitchTo` whose criterion has no field set is refused
/// with `MissingArgument`: it is never put on the wire.
pub fn encode_request(request: &UIRequest) -> (result: Result<String, RequestError>)
    ensures
        frame_result_view(result) == encoded_request(request@),
{
    match request {
        UIRequest::Play => Ok(String::from_str("\"Play\"")),
        UIRequest::Pause => Ok(String::from_str("\"Pause\"")),
        UIRequest::GetStatus => Ok(String::from_str("\"GetStatus\"")),
        UIRequest::Skip(SkipDirection::Forward) => Ok(
            String::from_str("{\"Skip\":{\"direction\":\"Forward\"}}"),
        ),
        UIRequest::Skip(SkipDirection::Backward) => Ok(
            String::from_str("{\"Skip\":{\"direction\":\"Backward\"}}"),
        ),
        UIRequest::Search(criterion) => {
            if criterion.is_empty() {
                Err(RequestError::MissingArgument)
            } else {
                Ok(lookup_frame("{\"Search\":", criterion))
            }
        },
        UIRequest::SwitchTo(criterion) => {
            if criterion.is_empty() {
                Err(RequestError::MissingArgument)
            } else {
                Ok(lookup_frame("{\"SwitchTo\":", criterion))
            }
        },
    }
}

} // verus!
