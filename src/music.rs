//! Apple Music control. Each operation is an AppleScript that the caller runs
//! through `osascript`; the library writes the scripts and reads what they
//! print.

use vstd::prelude::*;
use crate::text::{texts, trim, trimmed};

verus! {

/// Controller for Apple Music on macOS.
pub struct MusicController;

/// The pieces of `s[start..]` separated by `", "`, scanning from `i`.
pub open spec fn split_from(s: Seq<char>, start: int, i: int) -> Seq<Seq<char>>
    recommends
        0 <= start <= i <= s.len(),
    decreases s.len() - i,
{
    if i + 1 >= s.len() {
        seq![s.subrange(start, s.len() as int)]
    } else if s[i] == ',' && s[i + 1] == ' ' {
        seq![s.subrange(start, i)] + split_from(s, i + 2, i + 2)
    } else {
        split_from(s, start, i + 1)
    }
}

/// The pieces of `s` separated by `", "`, in order.
pub open spec fn split_list(s: Seq<char>) -> Seq<Seq<char>> {
    split_from(s, 0, 0)
}

/// The pieces, each trimmed, with the empty ones left out.
pub open spec fn kept(pieces: Seq<Seq<char>>) -> Seq<Seq<char>>
    decreases pieces.len(),
{
    if pieces.len() == 0 {
        Seq::empty()
    } else {
        (if trim(pieces[0]).len() > 0 {
            seq![trim(pieces[0])]
        } else {
            Seq::empty()
        }) + kept(pieces.drop_first())
    }
}

/// The playlist names in what the playlist script prints.
pub open spec fn playlist_names(output: Seq<char>) -> Seq<Seq<char>> {
    kept(split_list(output))
}

proof fn lemma_kept_prepend(p: Seq<char>, rest: Seq<Seq<char>>)
    ensures
        kept(seq![p] + rest) == (if trim(p).len() > 0 {
            seq![trim(p)]
        } else {
            Seq::empty()
        }) + kept(rest),
{
    assert((seq![p] + rest).drop_first() =~= rest);
}

proof fn lemma_kept_one(p: Seq<char>)
    ensures
        kept(seq![p]) == (if trim(p).len() > 0 {
            seq![trim(p)]
        } else {
            Seq::<Seq<char>>::empty()
        }),
{
    lemma_kept_prepend(p, Seq::empty());
    assert(seq![p] + Seq::<Seq<char>>::empty() =~= seq![p]);
    assert(kept(Seq::<Seq<char>>::empty()) == Seq::<Seq<char>>::empty());
}

/// Adds the trimmed piece `s[start..end]` to `names` unless it is empty.
fn keep_piece(names: &mut Vec<String>, s: &str, start: usize, end: usize)
    requires
        start <= end <= s@.len(),
    ensures
        texts(final(names)@) == texts(old(names)@) + kept(seq![s@.subrange(start as int, end as int)]),
{
    let piece = trimmed(s.substring_char(start, end));
    proof {
        lemma_kept_one(s@.subrange(start as int, end as int));
    }
    if piece.unicode_len() > 0 {
        names.push(piece);
        assert(texts(names@) =~= texts(old(names)@) + kept(seq![s@.subrange(start as int, end as int)]));
    } else {
        assert(texts(names@) =~= texts(old(names)@) + kept(seq![s@.subrange(start as int, end as int)]));
    }
}

impl MusicController {
    /// The script that starts playback.
    pub fn play() -> (r: String)
        ensures
            r@ == "tell application \"Music\" to play"@,
    {
        String::from_str("tell application \"Music\" to play")
    }

    /// The script that pauses playback.
    pub fn pause() -> (r: String)
        ensures
            r@ == "tell application \"Music\" to pause"@,
    {
        String::from_str("tell application \"Music\" to pause")
    }

    /// The script that skips to the next track.
    pub fn next() -> (r: String)
        ensures
            r@ == "tell application \"Music\" to next track"@,
    {
        String::from_str("tell application \"Music\" to next track")
    }

    /// The script that goes back to the previous track.
    pub fn previous() -> (r: String)
        ensures
            r@ == "tell application \"Music\" to previous track"@,
    {
        String::from_str("tell application \"Music\" to previous track")
    }

    /// The script that prints "Track Name - Artist Name" while playing, and
    /// "Not playing" otherwise.
    pub fn current() -> (r: String)
        ensures
            r@ == CURRENT_SCRIPT@,
    {
        String::from_str(CURRENT_SCRIPT)
    }

    /// The script that prints the player state.
    pub fn player_state() -> (r: String)
        ensures
            r@ == "tell application \"Music\" to return player state as string"@,
    {
        String::from_str("tell application \"Music\" to return player state as string")
    }

    /// Whether the player state printed by `player_state` means playback.
    pub fn is_playing(state: &str) -> (r: bool)
        ensures
            r == (state@ == "playing"@),
    {
        let st = String::from_str(state);
        let playing = String::from_str("playing");
        st == playing
    }

    /// The script that prints the names of all playlists, separated by ", ".
    pub fn playlists() -> (r: String)
        ensures
            r@ == PLAYLISTS_SCRIPT@,
    {
        String::from_str(PLAYLISTS_SCRIPT)
    }

    /// The playlist names in what the playlist script printed: the pieces
    /// between ", " separators, each trimmed, the empty ones left out.
    pub fn list_playlists(output: &str) -> (r: Vec<String>)
        ensures
            texts(r@) == playlist_names(output@),
    {
        let n = output.unicode_len();
        let mut names: Vec<String> = Vec::new();
        let mut start: usize = 0;
        let mut i: usize = 0;
        while i < n && i + 1 < n
            invariant
                n == output@.len(),
                start <= i <= n,
                texts(names@) + kept(split_from(output@, start as int, i as int)) == playlist_names(
                    output@,
                ),
            decreases n - i,
        {
            if output.get_char(i) == ',' && output.get_char(i + 1) == ' ' {
                let ghost piece = output@.subrange(start as int, i as int);
                let ghost tail = split_from(output@, i + 2, i + 2);
                proof {
                    assert(split_from(output@, start as int, i as int) == seq![piece] + tail);
                    lemma_kept_prepend(piece, tail);
                    lemma_kept_one(piece);
                }
                let ghost before = texts(names@);
                keep_piece(&mut names, output, start, i);
                assert(texts(names@) + kept(tail) =~= before + kept(seq![piece] + tail));
                i = i + 2;
                start = i;
            } else {
                i = i + 1;
            }
        }
        proof {
            lemma_kept_one(output@.subrange(start as int, n as int));
        }
        let ghost before = texts(names@);
        keep_piece(&mut names, output, start, n);
        assert(texts(names@) =~= before + kept(split_from(output@, start as int, i as int)));
        names
    }

    /// The script that plays the playlist called `name`.
    pub fn play_playlist(name: &str) -> (r: String)
        ensures
            r@ == "tell application \"Music\" to play playlist named \""@ + name@ + "\""@,
    {
        let mut script = String::from_str("tell application \"Music\" to play playlist named \"");
        script.append(name);
        script.append("\"");
        script
    }
}

/// Script behind `MusicController::current`.
pub const CURRENT_SCRIPT: &'static str = "
            tell application \"Music\"
                if player state is playing then
                    set trackName to name of current track
                    set artistName to artist of current track
                    return trackName & \" - \" & artistName
                else
                    return \"Not playing\"
                end if
            end tell
        ";

/// Script behind `MusicController::playlists`.
pub const PLAYLISTS_SCRIPT: &'static str = "
            tell application \"Music\"
                set playlistNames to name of playlists
                return playlistNames
            end tell
        ";

} // verus!
