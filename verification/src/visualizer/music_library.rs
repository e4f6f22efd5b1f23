//! The songs on offer, and the one that was picked.

use vstd::prelude::*;
use crate::visualizer::song::{title_of, Song, SongModel};

verus! {

/// What the library holds for a file called `filename` that was just
/// picked: the song, not playing.
pub open spec fn fresh(filename: Seq<char>) -> SongModel {
    SongModel { playing: false, title: title_of(filename), filename }
}

/// The songs in `songs`, each as plain values.
pub open spec fn song_models(songs: Seq<Song>) -> Seq<SongModel> {
    Seq::new(songs.len(), |i: int| songs[i]@)
}

/// Whether song `i` is the first of `songs` that is called `title`.
pub open spec fn first_called(songs: Seq<SongModel>, title: Seq<char>, i: int) -> bool {
    &&& 0 <= i < songs.len()
    &&& songs[i].title == title
    &&& forall|j: int| 0 <= j < i ==> (#[trigger] songs[j]).title != title
}

/// The songs on offer and the one that was picked.
pub struct MusicLibrary {
    pub songs: Vec<Song>,
    pub selected_song: Song,
}

impl MusicLibrary {
    /// A library with one song for each of `file_names`, in that order, and
    /// nothing picked.
    pub fn new(file_names: &Vec<String>) -> (library: MusicLibrary)
        ensures
            library.songs@.len() == file_names@.len(),
            forall|i: int|
                0 <= i < file_names@.len() ==> (#[trigger] library.songs@[i])@ == fresh(
                    file_names@[i]@,
                ),
            library.selected_song@ == (SongModel {
                playing: false,
                title: Seq::empty(),
                filename: Seq::empty(),
            }),
    {
        let mut songs: Vec<Song> = Vec::new();
        let mut i: usize = 0;
        while i < file_names.len()
            invariant
                i <= file_names@.len(),
                songs@.len() == i,
                forall|k: int| 0 <= k < i ==> (#[trigger] songs@[k])@ == fresh(file_names@[k]@),
            decreases file_names@.len() - i,
        {
            songs.push(Song::from_file(file_names[i].as_str()));
            i += 1;
        }
        MusicLibrary { songs, selected_song: Song::empty() }
    }

    /// Picks the first song called `title`, afresh from its file. If no
    /// song is called that, the pick stays as it was.
    pub fn select_song(&mut self, title: &str)
        ensures
            final(self).songs@ == old(self).songs@,
            forall|i: int|
                first_called(song_models(old(self).songs@), title@, i)
                    ==> final(self).selected_song@ == fresh(old(self).songs@[i]@.filename),
            (forall|i: int|
                0 <= i < old(self).songs@.len() ==> (#[trigger] old(self).songs@[i])@.title
                    != title@) ==> final(self).selected_song@ == old(self).selected_song@,
    {
        let wanted: String = String::from_str(title);
        let mut i: usize = 0;
        while i < self.songs.len()
            invariant
                wanted@ == title@,
                i <= self.songs@.len(),
                self.songs@ == old(self).songs@,
                self.selected_song@ == old(self).selected_song@,
                forall|k: int| 0 <= k < i ==> (#[trigger] self.songs@[k])@.title != title@,
            decreases self.songs@.len() - i,
        {
            if self.songs[i].get_title().eq(&wanted) {
                self.selected_song = Song::from_file(self.songs[i].get_filename().as_str());
                proof {
                    assert forall|j: int|
                        first_called(song_models(old(self).songs@), title@, j) implies j == i by {
                        if j < i {
                            assert(song_models(old(self).songs@)[j] == old(self).songs@[j]@);
                        } else if j > i {
                            assert(song_models(old(self).songs@)[i as int] == old(self).songs@[i as int]@);
                        }
                    }
                }
                return ;
            }
            i += 1;
        }
        proof {
            assert forall|j: int|
                first_called(song_models(old(self).songs@), title@, j) implies false by {
                assert(song_models(old(self).songs@)[j] == old(self).songs@[j]@);
            }
        }
    }

    /// The titles of all songs, in order.
    pub fn get_song_names(&self) -> (names: Vec<String>)
        ensures
            names@.len() == self.songs@.len(),
            forall|i: int|
                0 <= i < names@.len() ==> (#[trigger] names@[i])@ == self.songs@[i]@.title,
    {
        let mut names: Vec<String> = Vec::new();
        let mut i: usize = 0;
        while i < self.songs.len()
            invariant
                i <= self.songs@.len(),
                names@.len() == i,
                forall|k: int| 0 <= k < i ==> (#[trigger] names@[k])@ == self.songs@[k]@.title,
            decreases self.songs@.len() - i,
        {
            names.push(self.songs[i].get_title().clone());
            i += 1;
        }
        names
    }

    /// Tells whether a song is picked: the pick has a title.
    pub fn has_selected_song(&self) -> (picked: bool)
        ensures
            picked == (self.selected_song@.title.len() > 0),
    {
        !self.selected_song.get_title().as_str().is_empty()
    }
}

} // verus!
