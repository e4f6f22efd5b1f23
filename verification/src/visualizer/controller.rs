//! The visualizer as a whole: the panel decides, the song follows the
//! panel, the display follows the song.

use vstd::prelude::*;
use crate::player::PlaybackCommand;
use crate::visualizer::menu::{Menu, MenuModel};
use crate::visualizer::music_library::{fresh, MusicLibrary};
use crate::visualizer::song::{Song, SongModel};
use crate::visualizer::view::StatusView;

verus! {

/// Panel, song and display.
pub struct Controller {
    view: StatusView,
    menu: Menu,
    song: Song,
}

impl Controller {
    /// The panel.
    pub closed spec fn menu_model(&self) -> MenuModel {
        self.menu@
    }

    /// The panel's library.
    pub closed spec fn library(&self) -> MusicLibrary {
        self.menu.library()
    }

    /// The song.
    pub closed spec fn song_model(&self) -> SongModel {
        self.song@
    }

    /// Whether the display shows a playing song.
    pub closed spec fn shows_playing(&self) -> bool {
        self.view.playing()
    }

    /// A visualizer with nothing playing, no song loaded, and a library of
    /// `file_names`.
    pub fn new(file_names: &Vec<String>) -> (c: Controller)
        ensures
            c.menu_model() == (MenuModel {
                playing: false,
                was_pressed: false,
                buttons: seq![("PLAY"@, "play_button"@)],
            }),
            c.song_model() == (SongModel {
                playing: false,
                title: Seq::empty(),
                filename: Seq::empty(),
            }),
            !c.shows_playing(),
            c.library().songs@.len() == file_names@.len(),
            forall|i: int|
                0 <= i < file_names@.len() ==> (#[trigger] c.library().songs@[i])@ == fresh(
                    file_names@[i]@,
                ),
            c.library().selected_song@ == (SongModel {
                playing: false,
                title: Seq::empty(),
                filename: Seq::empty(),
            }),
    {
        Controller { view: StatusView::new(), menu: Menu::new(file_names), song: Song::empty() }
    }

    /// Handles one frame: the panel takes the mouse input, the song is
    /// brought in line with the panel, the display with the song. Returns
    /// what the host has to do to its audio stream.
    pub fn update(&mut self, is_mouse_pressed: bool, under_pointer: &Vec<bool>) -> (command: Option<
        PlaybackCommand,
    >)
        ensures
            final(self).menu_model() == old(self).menu_model().updated(
                is_mouse_pressed,
                under_pointer@,
            ),
            final(self).song_model() == (SongModel {
                playing: final(self).menu_model().playing,
                ..old(self).song_model()
            }),
            final(self).shows_playing() == final(self).menu_model().playing,
            final(self).library() == old(self).library(),
            command == (if final(self).menu_model().playing && !old(self).song_model().playing {
                Some(PlaybackCommand::Play)
            } else if !final(self).menu_model().playing && old(self).song_model().playing {
                Some(PlaybackCommand::Pause)
            } else {
                None
            }),
    {
        self.menu.update(is_mouse_pressed, under_pointer);
        let command = self.song.update(self.menu.is_playing());
        self.view.update(self.song.is_playing());
        command
    }

    /// The panel.
    pub fn menu(&self) -> (menu: &Menu)
        ensures
            menu@ == self.menu_model(),
            menu.library() == self.library(),
    {
        &self.menu
    }

    /// The song.
    pub fn song(&self) -> (song: &Song)
        ensures
            song@ == self.song_model(),
    {
        &self.song
    }

    /// The display.
    pub fn display(&self) -> (view: &StatusView)
        ensures
            view.playing() == self.shows_playing(),
    {
        &self.view
    }
}

} // verus!
