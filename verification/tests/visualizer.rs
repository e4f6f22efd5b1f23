use demo_core::player::PlaybackCommand;
use demo_core::visualizer::controller::Controller;
use demo_core::visualizer::menu::{first_hit, Menu};
use demo_core::visualizer::music_library::MusicLibrary;
use demo_core::visualizer::song::{title_part, Song};
use demo_core::visualizer::view::StatusView;

fn files() -> Vec<String> {
    vec![
        String::from("charleston-girl-live.wav"),
        String::from("scarlet_begonias.mp3"),
        String::from("charleston-girl-live.flac"),
    ]
}

#[test]
fn title_drops_the_extension_and_capitalises_words() {
    assert_eq!(Song::parse_title("charleston-girl-live.wav"), "Charleston Girl Live");
    assert_eq!(Song::parse_title("scarlet_begonias.mp3"), "Scarlet_begonias");
    assert_eq!(Song::parse_title("song"), "Song");
}

#[test]
fn title_cuts_at_the_last_dot_only() {
    assert_eq!(Song::parse_title("a.b-c.wav"), "A.b C");
    assert_eq!(Song::parse_title("archive.tar.gz"), "Archive.tar");
    assert_eq!(Song::parse_title(".hidden"), "");
    assert_eq!(Song::parse_title("trailing."), "Trailing");
    assert_eq!(Song::parse_title("."), "");
}

#[test]
fn title_keeps_a_space_for_every_hyphen() {
    assert_eq!(Song::parse_title(""), "");
    assert_eq!(Song::parse_title("-"), " ");
    assert_eq!(Song::parse_title("a--b"), "A  B");
    assert_eq!(Song::parse_title("-lead"), " Lead");
    assert_eq!(Song::parse_title("tail-"), "Tail ");
    assert_eq!(Song::parse_title("x-.wav"), "X ");
}

#[test]
fn title_leaves_the_rest_of_a_word_alone() {
    assert_eq!(Song::parse_title("hELLO-wORLD.wav"), "HELLO WORLD");
    assert_eq!(Song::parse_title("already Spaced-out"), "Already Spaced Out");
    assert_eq!(Song::parse_title("1st-2nd"), "1st 2nd");
}

#[test]
fn title_uses_the_full_upper_case_form() {
    assert_eq!(Song::parse_title("\u{df}eta-\u{e9}t\u{e9}.wav"), "SSeta \u{c9}t\u{e9}");
    assert_eq!(Song::parse_title("\u{fb01}sh"), "FIsh");
}

#[test]
fn title_part_follows_its_three_cases() {
    assert_eq!(title_part('-', true, vec!['X']), vec![' ']);
    assert_eq!(title_part('-', false, vec!['X']), vec![' ']);
    assert_eq!(title_part('a', true, vec!['A']), vec!['A']);
    assert_eq!(title_part('\u{df}', true, vec!['S', 'S']), vec!['S', 'S']);
    assert_eq!(title_part('a', false, vec!['A']), vec!['a']);
}

#[test]
fn song_from_file_is_not_playing() {
    let song = Song::from_file("charleston-girl-live.wav");
    assert_eq!(song.title, "Charleston Girl Live");
    assert_eq!(song.filename, "charleston-girl-live.wav");
    assert_eq!(song.get_title(), "Charleston Girl Live");
    assert_eq!(song.get_filename(), "charleston-girl-live.wav");
    assert!(!song.is_playing());
    let none = Song::empty();
    assert_eq!(none.title, "");
    assert_eq!(none.filename, "");
    assert!(!none.is_playing());
}

#[test]
fn song_update_reports_each_change_once() {
    let mut song = Song::from_file("a.wav");
    assert_eq!(song.update(false), None);
    assert!(!song.is_playing());
    assert_eq!(song.update(true), Some(PlaybackCommand::Play));
    assert!(song.is_playing());
    assert_eq!(song.update(true), None);
    assert!(song.is_playing());
    assert_eq!(song.update(false), Some(PlaybackCommand::Pause));
    assert!(!song.is_playing());
    assert_eq!(song.title, "A");
    assert_eq!(song.filename, "a.wav");
}

#[test]
fn library_lists_titles_in_order() {
    let library = MusicLibrary::new(&files());
    assert_eq!(
        library.get_song_names(),
        vec!["Charleston Girl Live", "Scarlet_begonias", "Charleston Girl Live"]
    );
    assert_eq!(library.songs.len(), 3);
    assert!(!library.has_selected_song());
    let empty = MusicLibrary::new(&Vec::new());
    assert!(empty.get_song_names().is_empty());
}

#[test]
fn library_picks_the_first_song_with_the_title() {
    let mut library = MusicLibrary::new(&files());
    library.select_song("Charleston Girl Live");
    assert!(library.has_selected_song());
    assert_eq!(library.selected_song.filename, "charleston-girl-live.wav");
    assert_eq!(library.selected_song.title, "Charleston Girl Live");
    assert!(!library.selected_song.is_playing());
    library.select_song("Scarlet_begonias");
    assert_eq!(library.selected_song.filename, "scarlet_begonias.mp3");
    assert_eq!(library.songs.len(), 3);
}

#[test]
fn library_keeps_its_pick_when_no_title_matches() {
    let mut library = MusicLibrary::new(&files());
    library.select_song("charleston-girl-live.wav");
    assert!(!library.has_selected_song());
    library.select_song("Scarlet_begonias");
    library.select_song("Unknown");
    assert_eq!(library.selected_song.filename, "scarlet_begonias.mp3");
    library.select_song("");
    assert_eq!(library.selected_song.filename, "scarlet_begonias.mp3");
}

#[test]
fn library_can_pick_a_song_without_a_title() {
    let mut library = MusicLibrary::new(&vec![String::from(".wav")]);
    library.select_song("");
    assert_eq!(library.selected_song.filename, ".wav");
    assert!(!library.has_selected_song());
}

#[test]
fn first_hit_finds_the_first_flag() {
    assert_eq!(first_hit(&vec![]), None);
    assert_eq!(first_hit(&vec![false, false]), None);
    assert_eq!(first_hit(&vec![true]), Some(0));
    assert_eq!(first_hit(&vec![false, true, true]), Some(1));
}

#[test]
fn menu_starts_paused_with_a_play_button() {
    let menu = Menu::new(&files());
    assert!(!menu.is_playing());
    let button = menu.get_button("play_button").unwrap();
    assert_eq!(button.title, "PLAY");
    assert_eq!(button.tag, "play_button");
    assert!(menu.get_button("PLAY").is_none());
    assert!(menu.get_button("").is_none());
    assert_eq!(menu.music_library.songs.len(), 3);
}

#[test]
fn menu_counts_a_click_once() {
    let mut menu = Menu::new(&files());
    let over = vec![true];
    menu.update(false, &over);
    assert!(!menu.is_playing());
    menu.update(true, &over);
    assert!(menu.is_playing());
    menu.update(true, &over);
    assert!(menu.is_playing());
    menu.update(true, &over);
    assert!(menu.is_playing());
    menu.update(false, &over);
    assert!(menu.is_playing());
    menu.update(true, &over);
    assert!(!menu.is_playing());
}

#[test]
fn menu_ignores_a_click_beside_the_button() {
    let mut menu = Menu::new(&files());
    menu.update(true, &vec![false]);
    assert!(!menu.is_playing());
    menu.update(false, &vec![false]);
    menu.update(true, &vec![]);
    assert!(!menu.is_playing());
    menu.update(false, &vec![]);
    menu.update(true, &vec![false, true]);
    assert!(!menu.is_playing());
    menu.update(true, &vec![true]);
    assert!(!menu.is_playing());
    menu.update(false, &vec![true]);
    menu.update(true, &vec![true, true]);
    assert!(menu.is_playing());
}

#[test]
fn display_shows_what_it_was_told() {
    let mut view = StatusView::new();
    assert!(!view.is_playing());
    view.update(true);
    assert!(view.is_playing());
    view.update(false);
    assert!(!view.is_playing());
}

#[test]
fn visualizer_carries_a_click_through() {
    let mut c = Controller::new(&files());
    assert!(!c.menu().is_playing());
    assert!(!c.song().is_playing());
    assert!(!c.display().is_playing());
    assert_eq!(c.song().get_filename(), "");
    let over = vec![true];
    assert_eq!(c.update(false, &over), None);
    assert_eq!(c.update(true, &over), Some(PlaybackCommand::Play));
    assert!(c.menu().is_playing());
    assert!(c.song().is_playing());
    assert!(c.display().is_playing());
    assert_eq!(c.update(true, &over), None);
    assert_eq!(c.update(false, &over), None);
    assert!(c.display().is_playing());
    assert_eq!(c.update(true, &over), Some(PlaybackCommand::Pause));
    assert!(!c.menu().is_playing());
    assert!(!c.song().is_playing());
    assert!(!c.display().is_playing());
}
