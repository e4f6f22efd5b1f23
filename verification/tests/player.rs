use demo_core::player::{Clicks, Controller, PlaybackCommand, SimpleMenu, SongStatus};

fn songs() -> Vec<String> {
    vec![String::from("alpha"), String::from("beta"), String::from("gamma")]
}

fn no_clicks() -> Clicks {
    Clicks { song: None, play_pause: false, back: false }
}

#[test]
fn new_menu_has_the_list_and_no_selection() {
    let menu = SimpleMenu::new(songs());
    assert_eq!(menu.song_count(), 3);
    assert_eq!(menu.song_name(0), "alpha");
    assert_eq!(menu.song_name(2), "gamma");
    assert_eq!(menu.selected_song(), None);
    let empty = SimpleMenu::new(Vec::new());
    assert_eq!(empty.song_count(), 0);
}

#[test]
fn clicking_a_song_picks_it() {
    let mut menu = SimpleMenu::new(songs());
    let clicks = Clicks { song: Some(1), play_pause: false, back: false };
    let now = menu.show_song_selection_screen(&clicks, None);
    assert_eq!(now, Some(String::from("beta")));
    assert_eq!(menu.selected_song(), Some(String::from("beta")));
    assert_eq!(menu.song_count(), 3);
}

#[test]
fn a_frame_without_a_song_click_changes_nothing() {
    let mut menu = SimpleMenu::new(songs());
    assert_eq!(menu.show_song_selection_screen(&no_clicks(), None), None);
    assert_eq!(menu.selected_song(), None);
    let held = Some(String::from("kept"));
    assert_eq!(menu.show_song_selection_screen(&no_clicks(), held.clone()), held);
    let beyond = Clicks { song: Some(3), play_pause: true, back: true };
    assert_eq!(menu.show_song_selection_screen(&beyond, None), None);
    assert_eq!(menu.selected_song(), None);
}

#[test]
fn play_pause_button_toggles() {
    let mut menu = SimpleMenu::new(songs());
    let click = Clicks { song: None, play_pause: true, back: false };
    let paused = SongStatus { is_paused: true };
    let playing = SongStatus { is_paused: false };
    assert_eq!(menu.show_play_pause_screen(&paused, &click), (Some(PlaybackCommand::Play), false));
    assert_eq!(menu.show_play_pause_screen(&playing, &click), (Some(PlaybackCommand::Pause), false));
    assert_eq!(menu.show_play_pause_screen(&playing, &no_clicks()), (None, false));
    let back = Clicks { song: Some(0), play_pause: false, back: true };
    assert_eq!(menu.show_play_pause_screen(&paused, &back), (None, true));
    assert_eq!(menu.selected_song(), None);
}

#[test]
fn player_moves_between_its_two_screens() {
    let mut player = Controller::new(songs());
    let playing = SongStatus { is_paused: false };
    assert_eq!(player.song, None);
    assert_eq!(player.update(&playing, &no_clicks()), None);
    assert_eq!(player.song, None);
    let ignored = Clicks { song: None, play_pause: true, back: true };
    assert_eq!(player.update(&playing, &ignored), None);
    assert_eq!(player.song, None);
    let pick = Clicks { song: Some(2), play_pause: false, back: false };
    assert_eq!(player.update(&playing, &pick), None);
    assert_eq!(player.song, Some(String::from("gamma")));
    assert_eq!(player.menu.selected_song(), Some(String::from("gamma")));
    let other = Clicks { song: Some(0), play_pause: true, back: false };
    assert_eq!(player.update(&playing, &other), Some(PlaybackCommand::Pause));
    assert_eq!(player.song, Some(String::from("gamma")));
    let both = Clicks { song: None, play_pause: true, back: true };
    let paused = SongStatus { is_paused: true };
    assert_eq!(player.update(&paused, &both), Some(PlaybackCommand::Play));
    assert_eq!(player.song, None);
    assert_eq!(player.menu.selected_song(), Some(String::from("gamma")));
}
