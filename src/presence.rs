use vstd::prelude::*;
use crate::snapshot::{MediaSnapshot, SnapshotView};

verus! {

/// Which metadata field follows the title on the state line. Resolved once
/// at startup from the host platform: album artist where the OS reports it
/// reliably, album title elsewhere.
#[derive(Clone, Copy, Debug, PartialEq, Eq, Structural)]
pub enum SecondaryField {
    AlbumArtist,
    AlbumTitle,
}

/// The field that `field` selects from a snapshot.
pub open spec fn secondary_of(s: SnapshotView, field: SecondaryField) -> Seq<char> {
    match field {
        SecondaryField::AlbumArtist => s.album_artist,
        SecondaryField::AlbumTitle => s.album_title,
    }
}

/// The separator between the title and the secondary field.
pub open spec fn separator() -> Seq<char> {
    seq![' ', '-', ' ']
}

/// The state line: `"{title} - {secondary}"`, or the title alone when the
/// selected secondary field is empty.
pub open spec fn state_line(s: SnapshotView, field: SecondaryField) -> Seq<char> {
    let secondary = secondary_of(s, field);
    if secondary.len() == 0 {
        s.title
    } else {
        s.title + separator() + secondary
    }
}

/// The two lines of a presence update.
#[derive(Debug)]
pub struct PresenceText {
    pub details: String,
    pub state: String,
}

/// Relies on `String::push_str`: appends the characters of `t` to `s`.
#[verifier::external_body]
fn push_text(s: &mut String, t: &str)
    ensures
        final(s)@ == old(s)@ + t@,
{
    s.push_str(t)
}

/// The state line of `snapshot` with the secondary field `field`.
pub fn format_state(snapshot: &MediaSnapshot, field: SecondaryField) -> (r: String)
    ensures
        r@ == state_line(snapshot@, field),
{
    let secondary: &String = match field {
        SecondaryField::AlbumArtist => &snapshot.album_artist,
        SecondaryField::AlbumTitle => &snapshot.album_title,
    };
    let mut line = snapshot.title.clone();
    if !secondary.as_str().is_empty() {
        let sep = " - ";
        proof {
            reveal_strlit(" - ");
            assert(sep@ =~= separator());
        }
        push_text(&mut line, sep);
        push_text(&mut line, secondary.as_str());
    }
    line
}

impl PresenceText {
    /// What a publish of `snapshot` shows: the artist as details, and the
    /// state line built with `field`.
    pub fn of(snapshot: &MediaSnapshot, field: SecondaryField) -> (r: PresenceText)
        ensures
            r.details@ == snapshot.artist@,
            r.state@ == state_line(snapshot@, field),
    {
        PresenceText { details: snapshot.artist.clone(), state: format_state(snapshot, field) }
    }
}

} // verus!
