//! The rows under which tracks are shown to the user: what stands in each
//! cell, and in which order. Drawing the table is left to the caller.

use vstd::prelude::*;
use vstd::string::*;
use crate::message_types::{ItemTag, TrackModel, track_views};

verus! {

/// The text of one decimal digit.
pub open spec fn digit_text(digit: nat) -> Seq<char> {
    if digit == 0 {
        "0"@
    } else if digit == 1 {
        "1"@
    } else if digit == 2 {
        "2"@
    } else if digit == 3 {
        "3"@
    } else if digit == 4 {
        "4"@
    } else if digit == 5 {
        "5"@
    } else if digit == 6 {
        "6"@
    } else if digit == 7 {
        "7"@
    } else if digit == 8 {
        "8"@
    } else {
        "9"@
    }
}

/// A number written in decimal digits, without leading zeros.
pub open spec fn decimal_text(number: nat) -> Seq<char>
    decreases number,
{
    if number < 10 {
        digit_text(number)
    } else {
        decimal_text(number / 10) + digit_text(number % 10)
    }
}

fn digit_label(digit: usize) -> (label: &'static str)
    requires
        digit < 10,
    ensures
        label@ == digit_text(digit as nat),
{
    if digit == 0 {
        "0"
    } else if digit == 1 {
        "1"
    } else if digit == 2 {
        "2"
    } else if digit == 3 {
        "3"
    } else if digit == 4 {
        "4"
    } else if digit == 5 {
        "5"
    } else if digit == 6 {
        "6"
    } else if digit == 7 {
        "7"
    } else if digit == 8 {
        "8"
    } else {
        "9"
    }
}

/// Writes a candidate's place in the list, as the user will type it.
pub fn index_label(index: usize) -> (label: String)
    ensures
        label@ == decimal_text(index as nat),
{
    let mut rest: usize = index / 10;
    let mut label = String::from_str(digit_label(index % 10));
    if rest == 0 {
        return label;
    }
    while rest >= 10
        invariant
            rest > 0,
            decimal_text(index as nat) == decimal_text(rest as nat) + label@,
        decreases rest,
    {
        let digit = String::from_str(digit_label(rest % 10));
        proof {
            assert(decimal_text(rest as nat) == decimal_text((rest / 10) as nat) + digit_text(
                (rest % 10) as nat,
            ));
            assert((decimal_text((rest / 10) as nat) + digit@) + label@ =~= decimal_text(
                (rest / 10) as nat,
            ) + (digit@ + label@));
        }
        label = digit.concat(label.as_str());
        rest = rest / 10;
    }
    let first = String::from_str(digit_label(rest));
    first.concat(label.as_str())
}

/// The headings of the table of found tracks.
pub open spec fn result_headings() -> Seq<Seq<char>> {
    seq!["Title"@, "Artist"@, "Album"@]
}

/// The headings of the table of candidates.
pub open spec fn candidate_headings() -> Seq<Seq<char>> {
    seq!["Index"@, "Title"@, "Artist"@, "Album"@]
}

/// The cells of a found track.
pub open spec fn result_cells(track: TrackModel) -> Seq<Seq<char>> {
    seq![track.title, track.artist, track.album]
}

/// The cells of a candidate: its place in the list, then the track's cells.
pub open spec fn candidate_cells(index: nat, track: TrackModel) -> Seq<Seq<char>> {
    seq![decimal_text(index), track.title, track.artist, track.album]
}

/// The texts of a row of cells.
pub open spec fn cell_views(cells: Seq<String>) -> Seq<Seq<char>> {
    Seq::new(cells.len(), |i: int| cells[i]@)
}

/// The texts of a list of rows.
pub open spec fn row_views(rows: Seq<Vec<String>>) -> Seq<Seq<Seq<char>>> {
    Seq::new(rows.len(), |i: int| cell_views(rows[i]@))
}

/// The rows of the table of found tracks, one for each track, in order.
pub open spec fn result_table(tracks: Seq<TrackModel>) -> Seq<Seq<Seq<char>>> {
    Seq::new(tracks.len(), |i: int| result_cells(tracks[i]))
}

/// The rows of the table of candidates, one for each track, in order,
/// each with its place in the list.
pub open spec fn candidate_table(tracks: Seq<TrackModel>) -> Seq<Seq<Seq<char>>> {
    Seq::new(tracks.len(), |i: int| candidate_cells(i as nat, tracks[i]))
}

/// The headings of the table of found tracks.
pub fn result_headers() -> (headers: Vec<String>)
    ensures
        cell_views(headers@) == result_headings(),
{
    let mut headers: Vec<String> = Vec::new();
    headers.push(String::from_str("Title"));
    headers.push(String::from_str("Artist"));
    headers.push(String::from_str("Album"));
    assert(cell_views(headers@) =~= result_headings());
    headers
}

/// The headings of the table of candidates.
pub fn candidate_headers() -> (headers: Vec<String>)
    ensures
        cell_views(headers@) == candidate_headings(),
{
    let mut headers: Vec<String> = Vec::new();
    headers.push(String::from_str("Index"));
    headers.push(String::from_str("Title"));
    headers.push(String::from_str("Artist"));
    headers.push(String::from_str("Album"));
    assert(cell_views(headers@) =~= candidate_headings());
    headers
}

fn result_row(track: &ItemTag) -> (row: Vec<String>)
    ensures
        cell_views(row@) == result_cells(track@),
{
    let mut row: Vec<String> = Vec::new();
    row.push(track.title.clone());
    row.push(track.artist.clone());
    row.push(track.album.clone());
    assert(cell_views(row@) =~= result_cells(track@));
    row
}

fn candidate_row(index: usize, track: &ItemTag) -> (row: Vec<String>)
    ensures
        cell_views(row@) == candidate_cells(index as nat, track@),
{
    let mut row: Vec<String> = Vec::new();
    row.push(index_label(index));
    row.push(track.title.clone());
    row.push(track.artist.clone());
    row.push(track.album.clone());
    assert(cell_views(row@) =~= candidate_cells(index as nat, track@));
    row
}

/// The rows under which found tracks are shown: title, artist and album
/// of each, in the order of the list.
pub fn result_rows(tracks: &Vec<ItemTag>) -> (rows: Vec<Vec<String>>)
    ensures
        row_views(rows@) == result_table(track_views(tracks@)),
{
    let mut rows: Vec<Vec<String>> = Vec::new();
    let mut next: usize = 0;
    while next < tracks.len()
        invariant
            next <= tracks.len(),
            rows@.len() == next,
            forall|i: int|
                0 <= i < next ==> cell_views((#[trigger] rows@[i])@) == result_cells(tracks@[i]@),
        decreases tracks.len() - next,
    {
        rows.push(result_row(&tracks[next]));
        next = next + 1;
    }
    assert(row_views(rows@) =~= result_table(track_views(tracks@)));
    rows
}

/// The rows under which candidates are shown: the place in the list by
/// which a candidate is chosen, then title, artist and album.
pub fn candidate_rows(tracks: &Vec<ItemTag>) -> (rows: Vec<Vec<String>>)
    ensures
        row_views(rows@) == candidate_table(track_views(tracks@)),
{
    let mut rows: Vec<Vec<String>> = Vec::new();
    let mut next: usize = 0;
    while next < tracks.len()
        invariant
            next <= tracks.len(),
            rows@.len() == next,
            forall|i: int|
                0 <= i < next ==> cell_views((#[trigger] rows@[i])@) == candidate_cells(
                    i as nat,
                    tracks@[i]@,
                ),
        decreases tracks.len() - next,
    {
        rows.push(candidate_row(next, &tracks[next]));
        next = next + 1;
    }
    assert(row_views(rows@) =~= candidate_table(track_views(tracks@)));
    rows
}

} // verus!
