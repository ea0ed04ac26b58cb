//! A track with the metadata shown for it.
use crate::player_controller::{last_segment, track_title};
use vstd::prelude::*;
use vstd::string::*;

verus! {

/// Where the last `.` of a file name stands, if it has one.
pub open spec fn last_dot(s: Seq<char>) -> Option<int>
    decreases s.len(),
{
    if s.len() == 0 {
        None
    } else if s.last() == '.' {
        Some(s.len() - 1)
    } else {
        last_dot(s.drop_last())
    }
}

/// The title of a track: the file name without its extension, when the file
/// name has one.
pub open spec fn title_of(path: Seq<char>) -> Option<Seq<char>> {
    match last_dot(last_segment(path)) {
        Some(k) => Some(last_segment(path).subrange(0, k)),
        None => None,
    }
}

proof fn lemma_last_dot_prefix(s: Seq<char>, i: int)
    requires
        0 <= i <= s.len(),
        forall|j: int| i <= j < s.len() ==> s[j] != '.',
    ensures
        last_dot(s) == last_dot(s.subrange(0, i)),
    decreases s.len() - i,
{
    if i < s.len() {
        lemma_last_dot_prefix(s, i + 1);
        assert(s.subrange(0, i + 1).drop_last() =~= s.subrange(0, i));
    } else {
        assert(s.subrange(0, i) =~= s);
    }
}

/// The file name of `path` without its extension, if it has one.
fn title_from_path(path: &str) -> (r: Option<String>)
    ensures
        title_of(path@) is None ==> r is None,
        title_of(path@) is Some ==> r is Some && r->Some_0@ == title_of(path@)->Some_0,
{
    let name = track_title(path);
    let s = name.as_str();
    let n = s.unicode_len();
    let mut i: usize = n;
    while i > 0 && s.get_char(i - 1) != '.'
        invariant
            n == s@.len(),
            s@ == last_segment(path@),
            i <= n,
            forall|j: int| i <= j < n ==> s@[j] != '.',
        decreases i,
    {
        i = i - 1;
    }
    proof {
        lemma_last_dot_prefix(s@, i as int);
        if i > 0 {
            assert(s@.subrange(0, i as int).last() == s@[i - 1]);
        }
    }
    if i == 0 {
        None
    } else {
        Some(String::from_str(s.substring_char(0, i - 1)))
    }
}

/// A track: its path, the title taken from its file name, and the artist
/// that its tags name, if any.
#[derive(Clone)]
pub struct Song {
    title: Option<String>,
    artist: Option<String>,
    path: String,
}

/// What a `Song` holds.
pub struct SongView {
    pub title: Option<Seq<char>>,
    pub artist: Option<Seq<char>>,
    pub path: Seq<char>,
}

/// The characters of an optional string.
pub open spec fn option_view(o: Option<String>) -> Option<Seq<char>> {
    match o {
        Some(s) => Some(s@),
        None => None,
    }
}

impl View for Song {
    type V = SongView;

    closed spec fn view(&self) -> SongView {
        SongView {
            title: option_view(self.title),
            artist: option_view(self.artist),
            path: self.path@,
        }
    }
}

fn clone_option(o: &Option<String>) -> (r: Option<String>)
    ensures
        option_view(r) == option_view(*o),
{
    match o {
        Some(s) => Some(s.clone()),
        None => None,
    }
}

impl Song {
    /// A track at `path`, with the artist read from its tags.
    pub fn new(path: String, artist: Option<String>) -> (s: Song)
        ensures
            s@ == (SongView { title: title_of(path@), artist: option_view(artist), path: path@ }),
    {
        let title = title_from_path(path.as_str());
        Song { title, artist, path }
    }

    /// The title, if the file name has an extension to strip.
    pub fn get_title(&self) -> (r: Option<String>)
        ensures
            option_view(r) == self@.title,
    {
        clone_option(&self.title)
    }

    /// The artist, if the tags name one.
    pub fn get_artist(&self) -> (r: Option<String>)
        ensures
            option_view(r) == self@.artist,
    {
        clone_option(&self.artist)
    }

    /// The path of the file.
    pub fn get_path(&self) -> (r: String)
        ensures
            r@ == self@.path,
    {
        self.path.clone()
    }
}

} // verus!
