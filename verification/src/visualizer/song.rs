//! A song, and the display title made from its file name.

use vstd::prelude::*;
use crate::player::PlaybackCommand;
use crate::text::{to_upper, upper_case};

verus! {

/// The position of the last `.` in `name`, or -1 if it has none.
pub open spec fn last_dot(name: Seq<char>) -> int
    decreases name.len(),
{
    if name.len() == 0 {
        -1
    } else if name.last() == '.' {
        name.len() - 1
    } else {
        last_dot(name.drop_last())
    }
}

/// `name` without its extension: everything before the last `.`, or all of
/// it if there is none.
pub open spec fn stem(name: Seq<char>) -> Seq<char> {
    if last_dot(name) < 0 {
        name
    } else {
        name.take(last_dot(name))
    }
}

/// What character `i` of `stem` turns into in a title: a hyphen becomes a
/// space, a character at the start of a word (the first one, or one right
/// after a hyphen) becomes its upper-case form, any other stays.
pub open spec fn title_piece(stem: Seq<char>, i: int) -> Seq<char> {
    if stem[i] == '-' {
        seq![' ']
    } else if i == 0 || stem[i - 1] == '-' {
        upper_case(stem[i])
    } else {
        seq![stem[i]]
    }
}

/// The pieces for the first `n` characters of `stem`, joined.
pub open spec fn titled_upto(stem: Seq<char>, n: nat) -> Seq<char>
    decreases n,
{
    if n == 0 {
        Seq::empty()
    } else {
        titled_upto(stem, (n - 1) as nat) + title_piece(stem, n - 1)
    }
}

/// The display title for a file called `name`: the extension goes, hyphens
/// become spaces, and each word starts in upper case.
pub open spec fn title_of(name: Seq<char>) -> Seq<char> {
    titled_upto(stem(name), stem(name).len())
}

/// `last_dot` finds a `.`, and no `.` comes after the one it finds.
pub proof fn lemma_last_dot(name: Seq<char>)
    ensures
        -1 <= last_dot(name) < name.len(),
        last_dot(name) >= 0 ==> name[last_dot(name)] == '.',
        forall|i: int| last_dot(name) < i < name.len() ==> name[i] != '.',
    decreases name.len(),
{
    if name.len() > 0 && name.last() != '.' {
        lemma_last_dot(name.drop_last());
        assert forall|i: int| last_dot(name) < i < name.len() implies name[i] != '.' by {
            if i < name.len() - 1 {
                assert(name.drop_last()[i] == name[i]);
            }
        }
    }
}

/// What a song is, as plain values.
pub struct SongModel {
    pub playing: bool,
    pub title: Seq<char>,
    pub filename: Seq<char>,
}

/// A song of the library.
pub struct Song {
    is_playing: bool,
    pub title: String,
    pub filename: String,
}

impl View for Song {
    type V = SongModel;

    closed spec fn view(&self) -> SongModel {
        SongModel { playing: self.is_playing, title: self.title@, filename: self.filename@ }
    }
}

/// What one character of a file name's stem contributes to the title,
/// given its upper-case form `upper`: a space for a hyphen, `upper` for a
/// character at the start of a word, the character itself otherwise.
pub fn title_part(c: char, word_start: bool, upper: Vec<char>) -> (part: Vec<char>)
    ensures
        part@ == (if c == '-' {
            seq![' ']
        } else if word_start {
            upper@
        } else {
            seq![c]
        }),
{
    if c == '-' {
        vec![' ']
    } else if word_start {
        upper
    } else {
        vec![c]
    }
}

/// Appends the characters of `piece` to `title`.
fn push_all(title: &mut String, piece: &Vec<char>)
    ensures
        final(title)@ == old(title)@ + piece@,
{
    let mut k: usize = 0;
    while k < piece.len()
        invariant
            k <= piece@.len(),
            title@ == old(title)@ + piece@.take(k as int),
        decreases piece@.len() - k,
    {
        title.push(piece[k]);
        k += 1;
        assert(piece@.take(k as int) =~= piece@.take(k - 1).push(piece@[k - 1]));
    }
    assert(piece@.take(k as int) =~= piece@);
}

/// Finds where the extension of `name` begins: the position of its last
/// `.`, or the length of `name` if it has none.
fn stem_len(name: &str) -> (n: usize)
    ensures
        n == stem(name@).len(),
        n <= name@.len(),
{
    broadcast use vstd::string::axiom_spec_iter;

    let len: usize = name.unicode_len();
    let mut cut: usize = len;
    let mut i: usize = 0;
    for c in it: name.chars()
        invariant
            it.seq() == name@,
            len == name@.len(),
            i == it.index(),
            i <= len,
            last_dot(name@.take(i as int)) < 0 ==> cut == len,
            last_dot(name@.take(i as int)) >= 0 ==> cut == last_dot(name@.take(i as int)),
    {
        proof {
            lemma_last_dot(name@.take(i as int));
            assert(name@.take(i + 1).drop_last() =~= name@.take(i as int));
        }
        if c == '.' {
            cut = i;
        }
        i += 1;
    }
    proof {
        assert(name@.take(i as int) =~= name@);
        lemma_last_dot(name@);
    }
    cut
}

impl Song {
    /// The display title for a file called `song_file_name`.
    pub fn parse_title(song_file_name: &str) -> (title: String)
        ensures
            title@ == title_of(song_file_name@),
    {
        broadcast use vstd::string::axiom_spec_iter;

        let cut: usize = stem_len(song_file_name);
        let bare: &str = song_file_name.substring_char(0, cut);
        proof {
            lemma_last_dot(song_file_name@);
            assert(bare@ =~= stem(song_file_name@));
        }
        let mut title: String = String::new();
        let mut word_start: bool = true;
        let mut i: usize = 0;
        for c in it: bare.chars()
            invariant
                it.seq() == bare@,
                i == it.index(),
                i <= cut,
                cut == bare@.len(),
                word_start == (i == 0 || bare@[i - 1] == '-'),
                title@ == titled_upto(bare@, i as nat),
        {
            let part = title_part(c, word_start, to_upper(c));
            push_all(&mut title, &part);
            word_start = c == '-';
            i += 1;
            assert(title@ =~= titled_upto(bare@, i as nat));
        }
        title
    }

    /// The song kept in the file called `song_file_name`, not playing.
    pub fn from_file(song_file_name: &str) -> (song: Song)
        ensures
            song@ == (SongModel {
                playing: false,
                title: title_of(song_file_name@),
                filename: song_file_name@,
            }),
    {
        Song {
            is_playing: false,
            title: Song::parse_title(song_file_name),
            filename: String::from_str(song_file_name),
        }
    }

    /// No song: no title, no file, not playing.
    pub fn empty() -> (song: Song)
        ensures
            song@ == (SongModel { playing: false, title: Seq::empty(), filename: Seq::empty() }),
    {
        Song { is_playing: false, title: String::new(), filename: String::new() }
    }

    /// Brings the song in line with `should_play` and tells what the host
    /// has to do to its audio stream for that: start it, stop it, or
    /// nothing if the song already is as wanted.
    pub fn update(&mut self, should_play: bool) -> (command: Option<PlaybackCommand>)
        ensures
            final(self)@ == (SongModel { playing: should_play, ..old(self)@ }),
            command == (if should_play && !old(self)@.playing {
                Some(PlaybackCommand::Play)
            } else if !should_play && old(self)@.playing {
                Some(PlaybackCommand::Pause)
            } else {
                None
            }),
    {
        let command = if should_play && !self.is_playing {
            Some(PlaybackCommand::Play)
        } else if !should_play && self.is_playing {
            Some(PlaybackCommand::Pause)
        } else {
            None
        };
        self.is_playing = should_play;
        command
    }

    /// The display title.
    pub fn get_title(&self) -> (title: &String)
        ensures
            title@ == self@.title,
    {
        &self.title
    }

    /// The name of the file the song is kept in.
    pub fn get_filename(&self) -> (filename: &String)
        ensures
            filename@ == self@.filename,
    {
        &self.filename
    }

    /// Tells whether the song is playing.
    pub fn is_playing(&self) -> (playing: bool)
        ensures
            playing == self@.playing,
    {
        self.is_playing
    }
}

} // verus!
