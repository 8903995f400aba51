//! Telling apart the replies to a lookup: nothing found, one track found,
//! or several candidates among which one has to be chosen.

use vstd::prelude::*;
use vstd::string::*;
use crate::text::{has_prefix, starts_with};
use crate::message_types::{
    itemtag_to_partial, narrowed, track_views, CriterionModel, ItemTag, PartialTag,
    ResponseModel, ServerResponse, TrackModel,
};

verus! {

/// What a reply amounts to.
#[derive(Debug, PartialEq, Eq)]
pub enum Classification {
    /// The server has only something to say.
    Acknowledgement,
    /// The server settled on this one track.
    SingleMatch(ItemTag),
    /// The server offers these candidates, in its own order.
    MultipleMatches(Vec<ItemTag>),
}

/// A classification as a mathematical value.
pub enum ClassificationModel {
    Acknowledgement,
    SingleMatch(TrackModel),
    MultipleMatches(Seq<TrackModel>),
}

impl View for Classification {
    type V = ClassificationModel;

    open spec fn view(&self) -> ClassificationModel {
        match *self {
            Classification::Acknowledgement => ClassificationModel::Acknowledgement,
            Classification::SingleMatch(track) => ClassificationModel::SingleMatch(track@),
            Classification::MultipleMatches(tracks) => ClassificationModel::MultipleMatches(
                track_views(tracks@),
            ),
        }
    }
}

/// Whether a status message announces several candidates: it begins with
/// the words `Multiple results found`.
pub open spec fn announces_candidates(message: Seq<char>) -> bool {
    has_prefix(message, "Multiple results found"@)
}

/// What a response amounts to, given whether the request was a lookup
/// (`Search` or `SwitchTo`).
///
/// Without results, or after another command, it is an acknowledgement.
/// With results it is a list of candidates where the message announces
/// one or where there are several, and else the single match.
pub open spec fn classified(response: ResponseModel, lookup: bool) -> ClassificationModel {
    if !lookup || response.results.len() == 0 {
        ClassificationModel::Acknowledgement
    } else if announces_candidates(response.message) || response.results.len() > 1 {
        ClassificationModel::MultipleMatches(response.results)
    } else {
        ClassificationModel::SingleMatch(response.results[0])
    }
}

/// Whether a status message announces several candidates.
pub fn message_announces_candidates(message: &str) -> (announced: bool)
    ensures
        announced == announces_candidates(message@),
{
    starts_with(message, "Multiple results found")
}

/// Copies a list of tracks, keeping their order.
pub fn copy_tracks(tracks: &Vec<ItemTag>) -> (copy: Vec<ItemTag>)
    ensures
        track_views(copy@) == track_views(tracks@),
{
    let mut copy: Vec<ItemTag> = Vec::new();
    let mut next: usize = 0;
    while next < tracks.len()
        invariant
            next <= tracks.len(),
            copy@.len() == next,
            forall|i: int| 0 <= i < next ==> (#[trigger] copy@[i])@ == tracks@[i]@,
        decreases tracks.len() - next,
    {
        copy.push(tracks[next].clone());
        next = next + 1;
    }
    assert(track_views(copy@) =~= track_views(tracks@));
    copy
}

/// Classifies a response. `lookup` says whether the request was a
/// `Search` or a `SwitchTo`.
///
/// The candidates are handed on as the server sent them: nothing is
/// reordered, sorted or left out.
pub fn classify(response: &ServerResponse, lookup: bool) -> (class: Classification)
    ensures
        class@ == classified(response@, lookup),
{
    if !lookup || response.search_results.len() == 0 {
        Classification::Acknowledgement
    } else if message_announces_candidates(response.message.as_str())
        || response.search_results.len() > 1 {
        Classification::MultipleMatches(copy_tracks(&response.search_results))
    } else {
        Classification::SingleMatch(response.search_results[0].clone())
    }
}

/// A choice that names no candidate.
#[derive(Debug, Clone, Copy, PartialEq, Eq, Structural)]
pub struct SelectionError {
    /// The index that was asked for.
    pub index: i64,
    /// How many candidates there were.
    pub candidates: usize,
}

/// Whether an index names one of `count` candidates.
pub open spec fn in_range(index: i64, count: nat) -> bool {
    0 <= index < count
}

/// The criterion of the chosen candidate, or why there is none.
pub open spec fn selected(candidates: Seq<TrackModel>, index: i64) -> Result<
    CriterionModel,
    SelectionError,
> {
    if in_range(index, candidates.len()) {
        Ok(narrowed(candidates[index as int]))
    } else {
        Err(SelectionError { index, candidates: candidates.len() as usize })
    }
}

/// The mathematical value of a selection or the error met in its place.
pub open spec fn selection_view(result: Result<PartialTag, SelectionError>) -> Result<
    CriterionModel,
    SelectionError,
> {
    match result {
        Ok(criterion) => Ok(criterion@),
        Err(error) => Err(error),
    }
}

/// Picks a candidate by its place in the list, counted from zero, and
/// narrows it to the criterion that matches exactly that track.
pub fn select(candidates: &Vec<ItemTag>, index: i64) -> (result: Result<
    PartialTag,
    SelectionError,
>)
    ensures
        selection_view(result) == selected(track_views(candidates@), index),
{
    if index < 0 || index as u64 >= candidates.len() as u64 {
        Err(SelectionError { index, candidates: candidates.len() })
    } else {
        Ok(itemtag_to_partial(&candidates[index as usize]))
    }
}

/// The words that tell the user what to do about a choice out of range.
pub open spec fn selection_advice() -> Seq<char> {
    "That index was larger than the list of options.\nTry running the command again without the `--choice-index` flag"@
}

impl SelectionError {
    /// Describes the error and how to go on.
    pub fn describe(&self) -> (text: String)
        ensures
            text@ == selection_advice(),
    {
        String::from_str(
            "That index was larger than the list of options.\nTry running the command again without the `--choice-index` flag",
        )
    }
}

/// A response without results is an acknowledgement, whatever its message
/// says and whatever was asked.
pub proof fn lemma_no_results_acknowledged(response: ResponseModel, lookup: bool)
    requires
        response.results.len() == 0,
    ensures
        classified(response, lookup) == ClassificationModel::Acknowledgement,
{
}

/// A reply to a lookup with one result, whose message does not announce
/// candidates, is the single match with that record.
pub proof fn lemma_one_result_single(response: ResponseModel)
    requires
        response.results.len() == 1,
        !announces_candidates(response.message),
    ensures
        classified(response, true) == ClassificationModel::SingleMatch(response.results[0]),
{
}

/// A reply to a lookup with several results, whose message announces
/// candidates, is the list of all its records in their order.
pub proof fn lemma_many_results_listed(response: ResponseModel)
    requires
        response.results.len() > 1,
        announces_candidates(response.message),
    ensures
        classified(response, true) == ClassificationModel::MultipleMatches(response.results),
{
}

/// The announcement outweighs the count: one result under a message that
/// announces candidates is a list of one candidate.
pub proof fn lemma_announcement_outweighs_count(response: ResponseModel)
    requires
        response.results.len() == 1,
        announces_candidates(response.message),
    ensures
        classified(response, true) == ClassificationModel::MultipleMatches(response.results),
        classified(response, true)->MultipleMatches_0.len() == 1,
{
}

/// Several results are a list of candidates even where the message does
/// not announce one: nothing that the server sent is dropped.
pub proof fn lemma_several_results_listed(response: ResponseModel)
    requires
        response.results.len() > 1,
    ensures
        classified(response, true) == ClassificationModel::MultipleMatches(response.results),
{
}

/// After a command that is no lookup every response is an acknowledgement.
pub proof fn lemma_other_commands_acknowledged(response: ResponseModel)
    ensures
        classified(response, false) == ClassificationModel::Acknowledgement,
{
}

/// An index that is negative, or equal to the number of candidates or
/// beyond it, selects nothing.
pub proof fn lemma_selection_out_of_range(candidates: Seq<TrackModel>, index: i64)
    requires
        index < 0 || index >= candidates.len(),
    ensures
        selected(candidates, index) is Err,
{
}

} // verus!
