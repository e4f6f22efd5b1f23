//! The control panel: its buttons, and the play/pause state that a click
//! on the first of them flips.

use vstd::prelude::*;
use crate::visualizer::music_library::{fresh, MusicLibrary};
use crate::visualizer::song::SongModel;

verus! {

/// A button of the panel. Where it sits on screen is the host's business.
pub struct MenuButton {
    pub title: String,
    pub tag: String,
}

/// Whether `i` is the position of the first `true` in `flags`.
pub open spec fn is_first_set(flags: Seq<bool>, i: int) -> bool {
    &&& 0 <= i < flags.len()
    &&& flags[i]
    &&& forall|j: int| 0 <= j < i ==> !flags[j]
}

/// Finds the first `true` in `flags`.
pub fn first_hit(flags: &Vec<bool>) -> (hit: Option<usize>)
    ensures
        hit matches Some(i) ==> is_first_set(flags@, i as int),
        hit is None <==> forall|j: int| 0 <= j < flags@.len() ==> !flags@[j],
{
    let mut i: usize = 0;
    while i < flags.len()
        invariant
            i <= flags@.len(),
            forall|j: int| 0 <= j < i ==> !flags@[j],
        decreases flags@.len() - i,
    {
        if flags[i] {
            return Some(i);
        }
        i += 1;
    }
    None
}

/// The control panel.
pub struct Menu {
    is_playing: bool,
    buttons: Vec<MenuButton>,
    was_mouse_pressed: bool,
    pub music_library: MusicLibrary,
}

/// What the panel remembers between frames.
pub struct MenuModel {
    pub playing: bool,
    pub was_pressed: bool,
    pub buttons: Seq<(Seq<char>, Seq<char>)>,
}

impl View for Menu {
    type V = MenuModel;

    closed spec fn view(&self) -> MenuModel {
        MenuModel {
            playing: self.is_playing,
            was_pressed: self.was_mouse_pressed,
            buttons: Seq::new(
                self.buttons@.len(),
                |i: int| (self.buttons@[i].title@, self.buttons@[i].tag@),
            ),
        }
    }
}

impl MenuModel {
    /// Whether a frame is a click on the play button: the mouse button is
    /// down now and was not in the frame before, and of the panel's buttons
    /// the first one under the pointer is the play button, which is the
    /// first of all. `under_pointer` says for each button, in order, whether
    /// the pointer is over it; a button it does not reach is not under the
    /// pointer.
    pub open spec fn play_clicked(self, is_mouse_pressed: bool, under_pointer: Seq<bool>) -> bool {
        &&& is_mouse_pressed
        &&& !self.was_pressed
        &&& self.buttons.len() > 0
        &&& under_pointer.len() > 0
        &&& under_pointer[0]
    }

    /// The panel after a frame.
    pub open spec fn updated(self, is_mouse_pressed: bool, under_pointer: Seq<bool>) -> MenuModel {
        MenuModel {
            playing: if self.play_clicked(is_mouse_pressed, under_pointer) {
                !self.playing
            } else {
                self.playing
            },
            was_pressed: is_mouse_pressed,
            ..self
        }
    }
}

impl Menu {
    /// A panel with one button, "PLAY", tagged `play_button`, showing a
    /// paused song, over a library of `file_names`.
    pub fn new(file_names: &Vec<String>) -> (menu: Menu)
        ensures
            menu@ == (MenuModel {
                playing: false,
                was_pressed: false,
                buttons: seq![("PLAY"@, "play_button"@)],
            }),
            menu.library().songs@.len() == file_names@.len(),
            forall|i: int|
                0 <= i < file_names@.len() ==> (#[trigger] menu.library().songs@[i])@ == fresh(
                    file_names@[i]@,
                ),
            menu.library().selected_song@ == (SongModel {
                playing: false,
                title: Seq::empty(),
                filename: Seq::empty(),
            }),
    {
        let mut buttons: Vec<MenuButton> = Vec::new();
        buttons.push(
            MenuButton {
                title: String::from_str("PLAY"),
                tag: String::from_str("play_button"),
            },
        );
        let menu = Menu {
            is_playing: false,
            buttons,
            was_mouse_pressed: false,
            music_library: MusicLibrary::new(file_names),
        };
        assert(menu@.buttons =~= seq![("PLAY"@, "play_button"@)]);
        menu
    }

    /// The panel's library.
    pub closed spec fn library(&self) -> MusicLibrary {
        self.music_library
    }

    /// Handles one frame of mouse input.
    ///
    /// A click counts once, in the frame in which the mouse button goes
    /// down, and goes to the first button under the pointer. On the play
    /// button it flips between playing and paused; on any other button it
    /// does nothing.
    pub fn update(&mut self, is_mouse_pressed: bool, under_pointer: &Vec<bool>)
        ensures
            final(self)@ == old(self)@.updated(is_mouse_pressed, under_pointer@),
            final(self).library() == old(self).library(),
    {
        if is_mouse_pressed && !self.was_mouse_pressed {
            match first_hit(under_pointer) {
                Some(i) => {
                    if i < self.buttons.len() && i == 0 {
                        self.is_playing = !self.is_playing;
                    }
                },
                None => {},
            }
        }
        self.was_mouse_pressed = is_mouse_pressed;
    }

    /// The first button tagged `tag`, if there is one.
    pub fn get_button(&self, tag: &str) -> (found: Option<&MenuButton>)
        ensures
            found matches Some(button) ==> exists|i: int|
                0 <= i < self@.buttons.len() && self@.buttons[i] == (button.title@, button.tag@)
                    && button.tag@ == tag@ && forall|j: int|
                    0 <= j < i ==> (#[trigger] self@.buttons[j]).1 != tag@,
            found is None ==> forall|j: int|
                0 <= j < self@.buttons.len() ==> (#[trigger] self@.buttons[j]).1 != tag@,
    {
        let wanted: String = String::from_str(tag);
        let mut i: usize = 0;
        while i < self.buttons.len()
            invariant
                wanted@ == tag@,
                i <= self.buttons@.len(),
                forall|j: int| 0 <= j < i ==> (#[trigger] self@.buttons[j]).1 != tag@,
            decreases self.buttons@.len() - i,
        {
            if self.buttons[i].tag.eq(&wanted) {
                assert(self@.buttons[i as int] == (self.buttons[i as int].title@, self.buttons[i as int].tag@));
                return Some(&self.buttons[i]);
            }
            assert(self@.buttons[i as int].1 == self.buttons@[i as int].tag@);
            i += 1;
        }
        None
    }

    /// Tells whether the song is meant to play.
    pub fn is_playing(&self) -> (playing: bool)
        ensures
            playing == self@.playing,
    {
        self.is_playing
    }
}

} // verus!
