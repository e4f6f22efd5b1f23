//! The display area: it shows whether the song is playing.

use vstd::prelude::*;

verus! {

/// The display area.
pub struct StatusView {
    is_playing: bool,
}

impl StatusView {
    /// Whether the display shows a playing song.
    pub closed spec fn playing(&self) -> bool {
        self.is_playing
    }

    /// A display that shows a paused song.
    pub fn new() -> (view: StatusView)
        ensures
            !view.playing(),
    {
        StatusView { is_playing: false }
    }

    /// Takes over the state to show.
    pub fn update(&mut self, is_playing: bool)
        ensures
            final(self).playing() == is_playing,
    {
        self.is_playing = is_playing;
    }

    /// Tells whether the display shows a playing song.
    pub fn is_playing(&self) -> (playing: bool)
        ensures
            playing == self.playing(),
    {
        self.is_playing
    }
}

} // verus!
