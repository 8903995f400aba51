//! The vocabulary shared by client and server: tracks, match criteria,
//! requests and responses, each with the mathematical value it stands for.

use vstd::prelude::*;

verus! {

/// A track as a mathematical value: five texts, the empty text meaning "no value".
pub struct TrackModel {
    pub path: Seq<char>,
    pub title: Seq<char>,
    pub artist: Seq<char>,
    pub album: Seq<char>,
    pub album_artist: Seq<char>,
}

/// A match criterion as a mathematical value: each field is unset or holds a text.
pub struct CriterionModel {
    pub path: Option<Seq<char>>,
    pub title: Option<Seq<char>>,
    pub artist: Option<Seq<char>>,
    pub album: Option<Seq<char>>,
    pub album_artist: Option<Seq<char>>,
}

/// A struct that defines all the music tags supported by Sousa.
#[derive(Debug, PartialEq, Eq)]
pub struct ItemTag {
    pub path: String,
    pub title: String,
    pub artist: String,
    pub album: String,
    pub album_artist: String,
}

impl View for ItemTag {
    type V = TrackModel;

    open spec fn view(&self) -> TrackModel {
        TrackModel {
            path: self.path@,
            title: self.title@,
            artist: self.artist@,
            album: self.album@,
            album_artist: self.album_artist@,
        }
    }
}

impl Clone for ItemTag {
    fn clone(&self) -> (copy: Self)
        ensures
            copy@ == self@,
    {
        ItemTag {
            path: self.path.clone(),
            title: self.title.clone(),
            artist: self.artist.clone(),
            album: self.album.clone(),
            album_artist: self.album_artist.clone(),
        }
    }
}

impl Default for ItemTag {
    fn default() -> (tag: Self)
        ensures
            tag@ == empty_track(),
    {
        ItemTag {
            path: String::new(),
            title: String::new(),
            artist: String::new(),
            album: String::new(),
            album_artist: String::new(),
        }
    }
}

/// The track whose every field is the empty text.
pub open spec fn empty_track() -> TrackModel {
    TrackModel {
        path: Seq::empty(),
        title: Seq::empty(),
        artist: Seq::empty(),
        album: Seq::empty(),
        album_artist: Seq::empty(),
    }
}

/// The criterion with no field set.
pub open spec fn empty_criterion() -> CriterionModel {
    CriterionModel { path: None, title: None, artist: None, album: None, album_artist: None }
}

/// The view of an optional string.
pub open spec fn text_view(field: Option<String>) -> Option<Seq<char>> {
    match field {
        Some(text) => Some(text@),
        None => None,
    }
}

/// A partial description of a track: the fields that are set must all match.
#[derive(Debug, PartialEq, Eq)]
pub struct PartialTag {
    pub path: Option<String>,
    pub title: Option<String>,
    pub artist: Option<String>,
    pub album: Option<String>,
    pub album_artist: Option<String>,
}

impl View for PartialTag {
    type V = CriterionModel;

    open spec fn view(&self) -> CriterionModel {
        CriterionModel {
            path: text_view(self.path),
            title: text_view(self.title),
            artist: text_view(self.artist),
            album: text_view(self.album),
            album_artist: text_view(self.album_artist),
        }
    }
}

impl Default for PartialTag {
    fn default() -> (tag: Self)
        ensures
            tag@ == empty_criterion(),
    {
        PartialTag { path: None, title: None, artist: None, album: None, album_artist: None }
    }
}

impl CriterionModel {
    /// How many fields are set.
    pub open spec fn set_count(self) -> nat {
        (if self.path is Some { 1nat } else { 0nat })
            + (if self.title is Some { 1nat } else { 0nat })
            + (if self.artist is Some { 1nat } else { 0nat })
            + (if self.album is Some { 1nat } else { 0nat })
            + (if self.album_artist is Some { 1nat } else { 0nat })
    }

    /// No field is set.
    pub open spec fn is_empty(self) -> bool {
        self == empty_criterion()
    }
}

impl PartialTag {
    pub fn has_path(self: &Self) -> (set: bool)
        ensures
            set == (self@.path is Some),
    {
        self.path.is_some()
    }

    pub fn has_title(self: &Self) -> (set: bool)
        ensures
            set == (self@.title is Some),
    {
        self.title.is_some()
    }

    pub fn has_artist(self: &Self) -> (set: bool)
        ensures
            set == (self@.artist is Some),
    {
        self.artist.is_some()
    }

    pub fn has_album(self: &Self) -> (set: bool)
        ensures
            set == (self@.album is Some),
    {
        self.album.is_some()
    }

    pub fn has_album_artist(self: &Self) -> (set: bool)
        ensures
            set == (self@.album_artist is Some),
    {
        self.album_artist.is_some()
    }

    /// Whether no field is set. An empty criterion matches nothing in
    /// particular and is never sent to the server.
    pub fn is_empty(self: &Self) -> (empty: bool)
        ensures
            empty == self@.is_empty(),
            empty == (self@.set_count() == 0),
    {
        return self.path.is_none() && self.title.is_none() && self.artist.is_none()
            && self.album.is_none() && self.album_artist.is_none();
    }
}

/// What the server answers: a status text and the tracks it found, in the
/// order in which it found them.
#[derive(Debug, PartialEq, Eq)]
pub struct ServerResponse {
    pub message: String,
    pub search_results: Vec<ItemTag>,
}

/// A response as a mathematical value.
pub struct ResponseModel {
    pub message: Seq<char>,
    pub results: Seq<TrackModel>,
}

/// The tracks of a list, each as its mathematical value, in the same order.
pub open spec fn track_views(tracks: Seq<ItemTag>) -> Seq<TrackModel> {
    Seq::new(tracks.len(), |i: int| tracks[i]@)
}

impl View for ServerResponse {
    type V = ResponseModel;

    open spec fn view(&self) -> ResponseModel {
        ResponseModel { message: self.message@, results: track_views(self.search_results@) }
    }
}

#[derive(Debug, Clone, Copy, PartialEq, Eq, Structural)]
pub enum SkipDirection {
    Forward,
    Backward,
}

/// One request of the client.
#[derive(Debug, PartialEq, Eq)]
pub enum UIRequest {
    Play,
    Pause,
    Skip(SkipDirection),
    Search(PartialTag),
    SwitchTo(PartialTag),
    GetStatus,
}

/// A request as a mathematical value.
pub enum RequestModel {
    Play,
    Pause,
    Skip(SkipDirection),
    Search(CriterionModel),
    SwitchTo(CriterionModel),
    GetStatus,
}

impl View for UIRequest {
    type V = RequestModel;

    open spec fn view(&self) -> RequestModel {
        match *self {
            UIRequest::Play => RequestModel::Play,
            UIRequest::Pause => RequestModel::Pause,
            UIRequest::Skip(direction) => RequestModel::Skip(direction),
            UIRequest::Search(tag) => RequestModel::Search(tag@),
            UIRequest::SwitchTo(tag) => RequestModel::SwitchTo(tag@),
            UIRequest::GetStatus => RequestModel::GetStatus,
        }
    }
}

impl RequestModel {
    /// Whether the request asks the server to look a track up.
    pub open spec fn is_lookup(self) -> bool {
        self is Search || self is SwitchTo
    }
}

/// A field of a track as a field of a criterion: the empty text is "unset".
pub open spec fn narrowed_field(text: Seq<char>) -> Option<Seq<char>> {
    if text.len() == 0 {
        None
    } else {
        Some(text)
    }
}

/// A field of a criterion as a field of a track: "unset" is the empty text.
pub open spec fn widened_field(field: Option<Seq<char>>) -> Seq<char> {
    match field {
        Some(text) => text,
        None => Seq::empty(),
    }
}

/// The criterion that pins a track down: every field that holds a value is
/// set to that value, every empty field is left unset.
pub open spec fn narrowed(track: TrackModel) -> CriterionModel {
    CriterionModel {
        path: narrowed_field(track.path),
        title: narrowed_field(track.title),
        artist: narrowed_field(track.artist),
        album: narrowed_field(track.album),
        album_artist: narrowed_field(track.album_artist),
    }
}

/// The track that a criterion describes, field by field.
pub open spec fn widened(criterion: CriterionModel) -> TrackModel {
    TrackModel {
        path: widened_field(criterion.path),
        title: widened_field(criterion.title),
        artist: widened_field(criterion.artist),
        album: widened_field(criterion.album),
        album_artist: widened_field(criterion.album_artist),
    }
}

fn narrow_field(text: &String) -> (field: Option<String>)
    ensures
        text_view(field) == narrowed_field(text@),
{
    if text.as_str().is_empty() {
        None
    } else {
        Some(text.clone())
    }
}

/// Narrows a track to the criterion that matches exactly that track.
pub fn itemtag_to_partial(itemtag: &ItemTag) -> (criterion: PartialTag)
    ensures
        criterion@ == narrowed(itemtag@),
{
    PartialTag {
        path: narrow_field(&itemtag.path),
        title: narrow_field(&itemtag.title),
        artist: narrow_field(&itemtag.artist),
        album: narrow_field(&itemtag.album),
        album_artist: narrow_field(&itemtag.album_artist),
    }
}

/// Narrowing a track and reading the criterion back field by field gives
/// the track again, whatever its fields hold.
pub proof fn lemma_narrow_round_trip(track: TrackModel)
    ensures
        widened(narrowed(track)) == track,
{
    assert(widened(narrowed(track)).path =~= track.path);
    assert(widened(narrowed(track)).title =~= track.title);
    assert(widened(narrowed(track)).artist =~= track.artist);
    assert(widened(narrowed(track)).album =~= track.album);
    assert(widened(narrowed(track)).album_artist =~= track.album_artist);
}

/// A track with no empty field narrows to a criterion with every field set
/// to the track's value.
pub proof fn lemma_narrow_full_track(track: TrackModel)
    requires
        track.path.len() > 0,
        track.title.len() > 0,
        track.artist.len() > 0,
        track.album.len() > 0,
        track.album_artist.len() > 0,
    ensures
        narrowed(track).path == Some(track.path),
        narrowed(track).title == Some(track.title),
        narrowed(track).artist == Some(track.artist),
        narrowed(track).album == Some(track.album),
        narrowed(track).album_artist == Some(track.album_artist),
        narrowed(track).set_count() == 5,
{
}

/// A field of a track is unset in its criterion exactly when it is empty;
/// so a track without an album artist narrows to a criterion without one,
/// and only the track with no value at all narrows to the empty criterion.
pub proof fn lemma_narrow_unset_iff_empty(track: TrackModel)
    ensures
        narrowed(track).path is None <==> track.path.len() == 0,
        narrowed(track).title is None <==> track.title.len() == 0,
        narrowed(track).artist is None <==> track.artist.len() == 0,
        narrowed(track).album is None <==> track.album.len() == 0,
        narrowed(track).album_artist is None <==> track.album_artist.len() == 0,
        narrowed(track).is_empty() <==> track == empty_track(),
{
    if narrowed(track).is_empty() {
        assert(track.path =~= Seq::empty());
        assert(track.title =~= Seq::empty());
        assert(track.artist =~= Seq::empty());
        assert(track.album =~= Seq::empty());
        assert(track.album_artist =~= Seq::empty());
    }
}

} // verus!
