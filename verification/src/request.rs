//! Building a request from what the user asked for: a command, and for the
//! commands that look a track up, the field to match and its value.

use vstd::prelude::*;
use vstd::string::*;
use crate::text::{lowercase, lowercased, same_text};
use crate::message_types::{
    empty_criterion, text_view, CriterionModel, PartialTag, RequestModel, SkipDirection,
    UIRequest,
};

verus! {

/// The commands that a user can give.
#[derive(Debug, Clone, Copy, PartialEq, Eq, Structural)]
pub enum Command {
    Play,
    Pause,
    Skip,
    Search,
    SwitchTo,
    GetStatus,
}

/// The fields by which a track can be looked up.
#[derive(Debug, Clone, Copy, PartialEq, Eq, Structural)]
pub enum SearchField {
    Title,
    Artist,
    Album,
}

/// Why no request could be built. Both are found before anything is sent.
#[derive(Debug, PartialEq, Eq)]
pub enum RequestError {
    /// The field, as the user wrote it, is none by which a track is looked up.
    InvalidField(String),
    /// The command needs an argument that was not given.
    MissingArgument,
}

/// A request error as a mathematical value.
pub enum RequestErrorModel {
    InvalidField(Seq<char>),
    MissingArgument,
}

impl View for RequestError {
    type V = RequestErrorModel;

    open spec fn view(&self) -> RequestErrorModel {
        match *self {
            RequestError::InvalidField(field) => RequestErrorModel::InvalidField(field@),
            RequestError::MissingArgument => RequestErrorModel::MissingArgument,
        }
    }
}

/// The text that describes a request error to the user.
pub open spec fn error_text(error: RequestErrorModel) -> Seq<char> {
    match error {
        RequestErrorModel::InvalidField(field) => "Unrecognized type: "@ + field,
        RequestErrorModel::MissingArgument => "Missing argument"@,
    }
}

impl RequestError {
    /// Describes the error in words.
    pub fn describe(&self) -> (text: String)
        ensures
            text@ == error_text(self@),
    {
        match self {
            RequestError::InvalidField(field) => {
                let mut text = String::from_str("Unrecognized type: ");
                text.append(field.as_str());
                text
            },
            RequestError::MissingArgument => String::from_str("Missing argument"),
        }
    }
}

/// The field that a name in lower case stands for.
pub open spec fn field_named(name: Seq<char>) -> Option<SearchField> {
    if name == "title"@ {
        Some(SearchField::Title)
    } else if name == "artist"@ {
        Some(SearchField::Artist)
    } else if name == "album"@ {
        Some(SearchField::Album)
    } else {
        None
    }
}

/// The criterion that sets one field to a value and leaves the others unset.
pub open spec fn single_field(field: SearchField, value: Seq<char>) -> CriterionModel {
    match field {
        SearchField::Title => CriterionModel { title: Some(value), ..empty_criterion() },
        SearchField::Artist => CriterionModel { artist: Some(value), ..empty_criterion() },
        SearchField::Album => CriterionModel { album: Some(value), ..empty_criterion() },
    }
}

/// The value that a criterion holds for a field.
pub open spec fn field_value(criterion: CriterionModel, field: SearchField) -> Option<Seq<char>> {
    match field {
        SearchField::Title => criterion.title,
        SearchField::Artist => criterion.artist,
        SearchField::Album => criterion.album,
    }
}

/// Reads a field's name, written in lower case.
pub fn search_field(name: &str) -> (field: Option<SearchField>)
    ensures
        field == field_named(name@),
{
    if same_text(name, "title") {
        Some(SearchField::Title)
    } else if same_text(name, "artist") {
        Some(SearchField::Artist)
    } else if same_text(name, "album") {
        Some(SearchField::Album)
    } else {
        None
    }
}

/// Builds the criterion that asks for one field to hold a value.
pub fn single_criterion(field: SearchField, value: String) -> (criterion: PartialTag)
    ensures
        criterion@ == single_field(field, value@),
        field_value(criterion@, field) == Some(value@),
        criterion@.set_count() == 1,
        !criterion@.is_empty(),
{
    match field {
        SearchField::Title => PartialTag {
            path: None,
            title: Some(value),
            artist: None,
            album: None,
            album_artist: None,
        },
        SearchField::Artist => PartialTag {
            path: None,
            title: None,
            artist: Some(value),
            album: None,
            album_artist: None,
        },
        SearchField::Album => PartialTag {
            path: None,
            title: None,
            artist: None,
            album: Some(value),
            album_artist: None,
        },
    }
}

/// What `parse_to_partialtag` returns for a field and a value.
pub open spec fn parsed_criterion(field: Seq<char>, value: Seq<char>) -> Result<
    CriterionModel,
    RequestErrorModel,
> {
    match field_named(lowercased(field)) {
        Some(known) => Ok(single_field(known, value)),
        None => Err(RequestErrorModel::InvalidField(field)),
    }
}

/// The mathematical value of a criterion or the error met in its place.
pub open spec fn criterion_result_view(result: Result<PartialTag, RequestError>) -> Result<
    CriterionModel,
    RequestErrorModel,
> {
    match result {
        Ok(criterion) => Ok(criterion@),
        Err(error) => Err(error@),
    }
}

/// Creates a criterion from the name of a field and the value to look for.
///
/// The name is read without regard to case. The criterion has that one
/// field set to the value; a name that is none of `title`, `artist` and
/// `album` is refused.
pub fn parse_to_partialtag(field: String, value: String) -> (result: Result<
    PartialTag,
    RequestError,
>)
    ensures
        criterion_result_view(result) == parsed_criterion(field@, value@),
{
    let lower = lowercase(field.as_str());
    match search_field(lower.as_str()) {
        Some(known) => Ok(single_criterion(known, value)),
        None => Err(RequestError::InvalidField(field)),
    }
}

/// The request that a command and its arguments give, or why there is none.
pub open spec fn built_request(
    command: Command,
    field: Option<Seq<char>>,
    value: Option<Seq<char>>,
    direction: Option<SkipDirection>,
) -> Result<RequestModel, RequestErrorModel> {
    match command {
        Command::Play => Ok(RequestModel::Play),
        Command::Pause => Ok(RequestModel::Pause),
        Command::GetStatus => Ok(RequestModel::GetStatus),
        Command::Skip => match direction {
            Some(way) => Ok(RequestModel::Skip(way)),
            None => Err(RequestErrorModel::MissingArgument),
        },
        Command::Search | Command::SwitchTo => if field is None || value is None {
            Err(RequestErrorModel::MissingArgument)
        } else {
            match parsed_criterion(field->0, value->0) {
                Ok(criterion) => if command == Command::Search {
                    Ok(RequestModel::Search(criterion))
                } else {
                    Ok(RequestModel::SwitchTo(criterion))
                },
                Err(error) => Err(error),
            }
        },
    }
}

/// The mathematical value of a request or the error met in its place.
pub open spec fn request_result_view(result: Result<UIRequest, RequestError>) -> Result<
    RequestModel,
    RequestErrorModel,
> {
    match result {
        Ok(request) => Ok(request@),
        Err(error) => Err(error@),
    }
}

/// Builds the request for a command.
///
/// `Play`, `Pause` and `GetStatus` take no argument and ignore what is
/// given. `Skip` needs a direction. `Search` and `SwitchTo` need a field
/// and a value, and the field must be one by which tracks are looked up.
pub fn build_request(
    command: Command,
    field: Option<String>,
    value: Option<String>,
    direction: Option<SkipDirection>,
) -> (result: Result<UIRequest, RequestError>)
    ensures
        request_result_view(result) == built_request(
            command,
            text_view(field),
            text_view(value),
            direction,
        ),
        (command == Command::Search || command == Command::SwitchTo) && field is Some
            && value is Some && field_named(lowercased(field->0@)) is None
            ==> request_result_view(result) == Err::<RequestModel, RequestErrorModel>(
            RequestErrorModel::InvalidField(field->0@),
        ),
{
    match command {
        Command::Play => Ok(UIRequest::Play),
        Command::Pause => Ok(UIRequest::Pause),
        Command::GetStatus => Ok(UIRequest::GetStatus),
        Command::Skip => match direction {
            Some(way) => Ok(UIRequest::Skip(way)),
            None => Err(RequestError::MissingArgument),
        },
        Command::Search => match (field, value) {
            (Some(name), Some(text)) => match parse_to_partialtag(name, text) {
                Ok(criterion) => Ok(UIRequest::Search(criterion)),
                Err(error) => Err(error),
            },
            _ => Err(RequestError::MissingArgument),
        },
        Command::SwitchTo => match (field, value) {
            (Some(name), Some(text)) => match parse_to_partialtag(name, text) {
                Ok(criterion) => Ok(UIRequest::SwitchTo(criterion)),
                Err(error) => Err(error),
            },
            _ => Err(RequestError::MissingArgument),
        },
    }
}

/// A criterion made for one field has exactly that field set, to the value
/// given, and is not empty.
pub proof fn lemma_single_field(field: SearchField, value: Seq<char>)
    ensures
        field_value(single_field(field, value), field) == Some(value),
        single_field(field, value).set_count() == 1,
        !single_field(field, value).is_empty(),
        single_field(field, value).path is None,
        single_field(field, value).album_artist is None,
        forall|other: SearchField|
            other != field ==> field_value(single_field(field, value), other) is None,
{
}

/// Whenever a field's name and a value give a criterion, the criterion has
/// exactly one field set, equal to the value, and is not empty.
pub proof fn lemma_parsed_criterion_single(field: Seq<char>, value: Seq<char>)
    requires
        parsed_criterion(field, value) is Ok,
    ensures
        field_named(lowercased(field)) is Some,
        parsed_criterion(field, value)->Ok_0.set_count() == 1,
        !parsed_criterion(field, value)->Ok_0.is_empty(),
        field_value(parsed_criterion(field, value)->Ok_0, field_named(lowercased(field))->0)
            == Some(value),
{
    lemma_single_field(field_named(lowercased(field))->0, value);
}

/// A lookup with a field that is not recognized gives `InvalidField`,
/// whatever the value, and no request.
pub proof fn lemma_unrecognized_field(
    command: Command,
    field: Seq<char>,
    value: Seq<char>,
    direction: Option<SkipDirection>,
)
    requires
        command == Command::Search || command == Command::SwitchTo,
        field_named(lowercased(field)) is None,
    ensures
        built_request(command, Some(field), Some(value), direction) == Err::<
            RequestModel,
            RequestErrorModel,
        >(RequestErrorModel::InvalidField(field)),
{
}

} // verus!
