//! What the catalogue says of a track and of an artist, as far as the
//! scrobble pipeline reads it.

use crate::util::SpotifyId;
use vstd::prelude::*;

verus! {

/// A track of the catalogue: its title and its artists, the primary one first.
#[derive(Debug, PartialEq, Eq)]
pub struct Track {
    pub name: String,
    pub artists: Vec<SpotifyId>,
}

/// A track as the contracts see it.
pub ghost struct TrackView {
    pub name: Seq<char>,
    pub artists: Seq<SpotifyId>,
}

impl View for Track {
    type V = TrackView;

    open spec fn view(&self) -> TrackView {
        TrackView { name: self.name@, artists: self.artists@ }
    }
}

/// An artist of the catalogue.
#[derive(Debug, PartialEq, Eq)]
pub struct Artist {
    pub name: String,
}

impl View for Artist {
    type V = Seq<char>;

    open spec fn view(&self) -> Seq<char> {
        self.name@
    }
}

} // verus!
