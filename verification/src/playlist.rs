//! Songs as entries of a catalogue, and playlists of them.

use vstd::prelude::*;

verus! {

/// A catalogue entry.
pub struct Song {
    pub title: String,
    pub artist: String,
    pub path: String,
    /// Playing time in seconds.
    pub duration: u32,
}

impl Song {
    /// An entry with the given details.
    pub fn new(title: &str, artist: &str, path: &str, duration: u32) -> (song: Song)
        ensures
            song.title@ == title@,
            song.artist@ == artist@,
            song.path@ == path@,
            song.duration == duration,
    {
        Song {
            title: String::from_str(title),
            artist: String::from_str(artist),
            path: String::from_str(path),
            duration,
        }
    }
}

/// A named list of songs, in the order in which they were added.
pub struct Playlist {
    pub name: String,
    pub tracks: Vec<Song>,
}

impl Playlist {
    /// An empty playlist called `name`.
    pub fn new(name: &str) -> (playlist: Playlist)
        ensures
            playlist.name@ == name@,
            playlist.tracks@ == Seq::<Song>::empty(),
    {
        Playlist { name: String::from_str(name), tracks: Vec::new() }
    }

    /// Puts `song` at the end of the playlist.
    pub fn add_song(&mut self, song: Song)
        ensures
            final(self).name == old(self).name,
            final(self).tracks@ == old(self).tracks@.push(song),
    {
        self.tracks.push(song);
    }
}

/// The keeper of one playlist.
pub struct PlaylistController {
    playlist: Playlist,
}

impl View for PlaylistController {
    type V = Playlist;

    closed spec fn view(&self) -> Playlist {
        self.playlist
    }
}

impl PlaylistController {
    /// A keeper of an empty playlist called `name`.
    pub fn new(name: &str) -> (keeper: PlaylistController)
        ensures
            keeper@.name@ == name@,
            keeper@.tracks@ == Seq::<Song>::empty(),
    {
        PlaylistController { playlist: Playlist::new(name) }
    }

    /// Puts `song` at the end of the playlist.
    pub fn add_song(&mut self, song: Song)
        ensures
            final(self)@.name == old(self)@.name,
            final(self)@.tracks@ == old(self)@.tracks@.push(song),
    {
        self.playlist.add_song(song);
    }

    /// The playlist.
    pub fn playlist(&self) -> (playlist: &Playlist)
        ensures
            *playlist == self@,
    {
        &self.playlist
    }
}

} // verus!
