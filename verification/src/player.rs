//! The menu of a small music player: a list of songs to pick from, and a
//! playback screen with a play/pause button and a way back.
//!
//! Audio is the host's business. The host reports the state of its audio
//! sink and what was clicked; the menu answers with what to do.

use vstd::prelude::*;

verus! {

/// What the audio sink reports about the song it holds.
#[derive(Clone, Copy, Debug, PartialEq, Eq, Structural)]
pub struct SongStatus {
    pub is_paused: bool,
}

/// What the host is to tell its audio sink.
#[derive(Clone, Copy, Debug, PartialEq, Eq, Structural)]
pub enum PlaybackCommand {
    Play,
    Pause,
}

/// What was clicked during one frame.
#[derive(Clone, Copy, Debug, PartialEq, Eq, Structural)]
pub struct Clicks {
    /// The position, in the song list, of the song button that was clicked.
    pub song: Option<usize>,
    /// Whether the play/pause button was clicked.
    pub play_pause: bool,
    /// Whether the back button was clicked.
    pub back: bool,
}

/// The command a click on the play/pause button stands for: a paused song
/// is played, a playing song is paused.
pub open spec fn toggled(status: SongStatus) -> PlaybackCommand {
    if status.is_paused {
        PlaybackCommand::Play
    } else {
        PlaybackCommand::Pause
    }
}

/// What a menu is, as plain values: the song names in list order and the
/// name picked last, if any.
pub struct SimpleMenuModel {
    pub songs: Seq<Seq<char>>,
    pub selected: Option<Seq<char>>,
}

/// The name that a click on song button `clicked` picks from `songs`, if
/// there is such a button.
pub open spec fn picked(songs: Seq<Seq<char>>, clicked: Option<usize>) -> Option<Seq<char>> {
    match clicked {
        Some(i) if i < songs.len() => Some(songs[i as int]),
        _ => None,
    }
}

/// The song menu.
pub struct SimpleMenu {
    song_list: Vec<String>,
    selected_song: Option<String>,
}

impl View for SimpleMenu {
    type V = SimpleMenuModel;

    closed spec fn view(&self) -> SimpleMenuModel {
        SimpleMenuModel {
            songs: Seq::new(self.song_list@.len(), |i: int| self.song_list@[i]@),
            selected: match self.selected_song {
                Some(name) => Some(name@),
                None => None,
            },
        }
    }
}

/// The names in `list`, each as a sequence of characters.
pub open spec fn names(list: Seq<String>) -> Seq<Seq<char>> {
    Seq::new(list.len(), |i: int| list[i]@)
}

impl SimpleMenu {
    /// A menu over `song_list`, with nothing picked yet.
    pub fn new(song_list: Vec<String>) -> (menu: SimpleMenu)
        ensures
            menu@.songs == names(song_list@),
            menu@.selected is None,
    {
        SimpleMenu { song_list, selected_song: None }
    }

    /// How many songs the list has.
    pub fn song_count(&self) -> (n: usize)
        ensures
            n == self@.songs.len(),
    {
        self.song_list.len()
    }

    /// The name of song `index`.
    pub fn song_name(&self, index: usize) -> (name: &String)
        requires
            index < self@.songs.len(),
        ensures
            name@ == self@.songs[index as int],
    {
        &self.song_list[index]
    }

    /// The name picked last, if any.
    pub fn selected_song(&self) -> (name: Option<String>)
        ensures
            name is Some <==> self@.selected is Some,
            name matches Some(n) ==> self@.selected == Some(n@),
    {
        match &self.selected_song {
            Some(name) => Some(name.clone()),
            None => None,
        }
    }

    /// Handles one frame of the playback screen.
    ///
    /// Returns the command for the audio sink, if the play/pause button was
    /// clicked, and whether the user asked to go back to the song list. The
    /// menu itself does not change.
    pub fn show_play_pause_screen(&mut self, status: &SongStatus, clicks: &Clicks) -> (out: (
        Option<PlaybackCommand>,
        bool,
    ))
        ensures
            final(self)@ == old(self)@,
            out.0 == (if clicks.play_pause {
                Some(toggled(*status))
            } else {
                None
            }),
            out.1 == clicks.back,
    {
        let command = if clicks.play_pause {
            if status.is_paused {
                Some(PlaybackCommand::Play)
            } else {
                Some(PlaybackCommand::Pause)
            }
        } else {
            None
        };
        (command, clicks.back)
    }

    /// Handles one frame of the song list.
    ///
    /// A click on a song button picks that song: the menu remembers its
    /// name, and the name is returned as the song to load. Without such a
    /// click the menu stays as it is and `song` is handed back.
    pub fn show_song_selection_screen(&mut self, clicks: &Clicks, song: Option<String>) -> (now:
        Option<String>)
        ensures
            final(self)@.songs == old(self)@.songs,
            picked(old(self)@.songs, clicks.song) is Some ==> {
                &&& final(self)@.selected == picked(old(self)@.songs, clicks.song)
                &&& now matches Some(name) && Some(name@) == picked(old(self)@.songs, clicks.song)
            },
            picked(old(self)@.songs, clicks.song) is None ==> {
                &&& final(self)@.selected == old(self)@.selected
                &&& now == song
            },
    {
        match clicks.song {
            Some(index) => {
                if index < self.song_list.len() {
                    let name = self.song_list[index].clone();
                    self.selected_song = Some(name.clone());
                    Some(name)
                } else {
                    song
                }
            },
            None => song,
        }
    }
}

/// The player: which song is loaded, if any, and the menu.
///
/// While no song is loaded the song list is on screen; while one is loaded
/// the playback screen is.
pub struct Controller {
    pub song: Option<String>,
    pub menu: SimpleMenu,
}

/// The name held in `song`, as a sequence of characters.
pub open spec fn name_of(song: Option<String>) -> Option<Seq<char>> {
    match song {
        Some(name) => Some(name@),
        None => None,
    }
}

impl Controller {
    /// A player over `song_list` with no song loaded.
    pub fn new(song_list: Vec<String>) -> (player: Controller)
        ensures
            player.song is None,
            player.menu@.songs == names(song_list@),
            player.menu@.selected is None,
    {
        Controller { song: None, menu: SimpleMenu::new(song_list) }
    }

    /// Handles one frame.
    ///
    /// With no song loaded, a click on a song button loads that song. With
    /// a song loaded, a click on play/pause yields the command for the audio
    /// sink, and a click on the back button unloads the song; both may happen
    /// in one frame. The list of songs never changes.
    pub fn update(&mut self, status: &SongStatus, clicks: &Clicks) -> (command: Option<
        PlaybackCommand,
    >)
        ensures
            final(self).menu@.songs == old(self).menu@.songs,
            old(self).song is None ==> {
                &&& command is None
                &&& name_of(final(self).song) == picked(old(self).menu@.songs, clicks.song)
                &&& final(self).menu@.selected == (if final(self).song is Some {
                    name_of(final(self).song)
                } else {
                    old(self).menu@.selected
                })
            },
            old(self).song is Some ==> {
                &&& command == (if clicks.play_pause {
                    Some(toggled(*status))
                } else {
                    None
                })
                &&& final(self).song == (if clicks.back {
                    None
                } else {
                    old(self).song
                })
                &&& final(self).menu@ == old(self).menu@
            },
    {
        if self.song.is_none() {
            self.song = self.menu.show_song_selection_screen(clicks, None);
            None
        } else {
            let (command, go_back) = self.menu.show_play_pause_screen(status, clicks);
            if go_back {
                self.song = None;
            }
            command
        }
    }
}

} // verus!
