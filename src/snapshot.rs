use vstd::prelude::*;

verus! {

/// The mathematical content of a [`MediaSnapshot`]: its four text fields.
pub ghost struct SnapshotView {
    pub title: Seq<char>,
    pub artist: Seq<char>,
    pub album_title: Seq<char>,
    pub album_artist: Seq<char>,
}

/// The snapshot with every field empty: "nothing playing".
pub open spec fn empty_view() -> SnapshotView {
    SnapshotView {
        title: Seq::empty(),
        artist: Seq::empty(),
        album_title: Seq::empty(),
        album_artist: Seq::empty(),
    }
}

/// One observed state of the media session's track metadata.
/// Absent fields are empty strings, so equality is total.
#[derive(Debug)]
pub struct MediaSnapshot {
    pub title: String,
    pub artist: String,
    pub album_title: String,
    pub album_artist: String,
}

impl View for MediaSnapshot {
    type V = SnapshotView;

    open spec fn view(&self) -> SnapshotView {
        SnapshotView {
            title: self.title@,
            artist: self.artist@,
            album_title: self.album_title@,
            album_artist: self.album_artist@,
        }
    }
}

impl MediaSnapshot {
    /// Builds a snapshot from its four fields.
    pub fn new(title: String, artist: String, album_title: String, album_artist: String) -> (r:
        MediaSnapshot)
        ensures
            r.title@ == title@,
            r.artist@ == artist@,
            r.album_title@ == album_title@,
            r.album_artist@ == album_artist@,
    {
        MediaSnapshot { title, artist, album_title, album_artist }
    }

    /// The empty snapshot, standing for "nothing playing".
    pub fn empty() -> (r: MediaSnapshot)
        ensures
            r@ == empty_view(),
    {
        MediaSnapshot {
            title: String::new(),
            artist: String::new(),
            album_title: String::new(),
            album_artist: String::new(),
        }
    }

    /// Whether every field is empty.
    pub fn is_empty(&self) -> (r: bool)
        ensures
            r == (self@ == empty_view()),
    {
        let r = self.title.as_str().is_empty() && self.artist.as_str().is_empty()
            && self.album_title.as_str().is_empty() && self.album_artist.as_str().is_empty();
        proof {
            if r {
                assert(self.title@ =~= Seq::<char>::empty());
                assert(self.artist@ =~= Seq::<char>::empty());
                assert(self.album_title@ =~= Seq::<char>::empty());
                assert(self.album_artist@ =~= Seq::<char>::empty());
            }
        }
        r
    }

    /// Field-wise equality: all four fields hold the same text.
    pub fn same_as(&self, other: &MediaSnapshot) -> (r: bool)
        ensures
            r == (self@ == other@),
    {
        self.title == other.title && self.artist == other.artist && self.album_title
            == other.album_title && self.album_artist == other.album_artist
    }

    /// A copy whose fields hold the same text.
    pub fn duplicate(&self) -> (r: MediaSnapshot)
        ensures
            r@ == self@,
    {
        MediaSnapshot {
            title: self.title.clone(),
            artist: self.artist.clone(),
            album_title: self.album_title.clone(),
            album_artist: self.album_artist.clone(),
        }
    }
}

impl PartialEq for MediaSnapshot {
    fn eq(&self, other: &MediaSnapshot) -> (r: bool) {
        self.same_as(other)
    }
}

impl vstd::std_specs::cmp::PartialEqSpecImpl for MediaSnapshot {
    open spec fn obeys_eq_spec() -> bool {
        true
    }

    open spec fn eq_spec(&self, other: &MediaSnapshot) -> bool {
        self@ == other@
    }
}

impl Eq for MediaSnapshot {
}

} // verus!
