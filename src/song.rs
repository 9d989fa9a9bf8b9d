//! The parsed form of a song description, as plain values, and what the
//! catalog derives from its note stream: the player count and the lyrics.

use vstd::prelude::*;

verus! {

/// One entry of a line's note stream.
pub enum Note {
    /// An ordinary sung note.
    Regular { text: String },
    /// A bonus ("golden") note.
    Golden { text: String },
    /// A freestyle note.
    Freestyle { text: String },
    /// A marker switching to another performer's part (1, 2, or 3 for both).
    PlayerChange { player: i32 },
}

/// One lyric line: its notes in order.
pub struct SongLine {
    pub notes: Vec<Note>,
}

/// The sung text of a note; markers have none.
pub open spec fn note_text(n: Note) -> Seq<char> {
    match n {
        Note::Regular { text } => text@,
        Note::Golden { text } => text@,
        Note::Freestyle { text } => text@,
        Note::PlayerChange { .. } => Seq::empty(),
    }
}

/// Whether a note carries sung text (every kind but a marker does).
pub open spec fn carries_text(n: Note) -> bool {
    !(n is PlayerChange)
}

/// Whether a note switches to the second performer.
pub open spec fn selects_player_two(n: Note) -> bool {
    match n {
        Note::PlayerChange { player } => player == 2,
        _ => false,
    }
}

/// Whether any note of any line switches to the second performer.
pub open spec fn has_player_two(lines: Seq<SongLine>) -> bool {
    exists|i: int, j: int|
        0 <= i < lines.len() && 0 <= j < lines[i].notes@.len() && #[trigger] selects_player_two(
            lines[i].notes@[j],
        )
}

/// The number of performers a song is for.
pub open spec fn player_count_spec(lines: Seq<SongLine>) -> u32 {
    if has_player_two(lines) {
        2
    } else {
        1
    }
}

/// The raw text of a line: the sung text of its notes, concatenated.
pub open spec fn raw_line_text(notes: Seq<Note>) -> Seq<char>
    decreases notes.len(),
{
    if notes.len() == 0 {
        Seq::empty()
    } else {
        raw_line_text(notes.drop_last()) + note_text(notes.last())
    }
}

/// Whether a line has at least one note that carries text.
pub open spec fn line_has_text(notes: Seq<Note>) -> bool {
    exists|j: int| 0 <= j < notes.len() && #[trigger] carries_text(notes[j])
}

/// Unicode `White_Space`, the characters `str::trim` removes.
pub open spec fn is_white_space(c: char) -> bool {
    ('\u{9}' <= c <= '\u{d}') || c == ' ' || c == '\u{85}' || c == '\u{a0}' || c == '\u{1680}'
        || ('\u{2000}' <= c <= '\u{200a}') || c == '\u{2028}' || c == '\u{2029}' || c
        == '\u{202f}' || c == '\u{205f}' || c == '\u{3000}'
}

/// The text without its leading white space.
pub open spec fn trim_start_spec(s: Seq<char>) -> Seq<char>
    decreases s.len(),
{
    if s.len() > 0 && is_white_space(s[0]) {
        trim_start_spec(s.drop_first())
    } else {
        s
    }
}

/// The text without its trailing white space.
pub open spec fn trim_end_spec(s: Seq<char>) -> Seq<char>
    decreases s.len(),
{
    if s.len() > 0 && is_white_space(s.last()) {
        trim_end_spec(s.drop_last())
    } else {
        s
    }
}

/// The text without leading and trailing white space.
pub open spec fn trim_spec(s: Seq<char>) -> Seq<char> {
    trim_end_spec(trim_start_spec(s))
}

/// The lines that carry sung text, each reduced to its trimmed text.
pub open spec fn lyric_lines(lines: Seq<SongLine>) -> Seq<Seq<char>>
    decreases lines.len(),
{
    if lines.len() == 0 {
        Seq::empty()
    } else if line_has_text(lines.last().notes@) {
        lyric_lines(lines.drop_last()).push(trim_spec(raw_line_text(lines.last().notes@)))
    } else {
        lyric_lines(lines.drop_last())
    }
}

/// Text lines joined with a single newline between neighbours.
pub open spec fn join_lines(ls: Seq<Seq<char>>) -> Seq<char>
    decreases ls.len(),
{
    if ls.len() == 0 {
        Seq::empty()
    } else if ls.len() == 1 {
        ls[0]
    } else {
        join_lines(ls.drop_last()).push('\n') + ls.last()
    }
}

/// The lyrics of a song: the trimmed text of every line that carries sung
/// text, one line each. A line holding only player-change markers adds
/// nothing, not even an empty line.
pub open spec fn lyrics_spec(lines: Seq<SongLine>) -> Seq<char> {
    join_lines(lyric_lines(lines))
}

/// Relies on `str::trim`: it removes exactly the leading and trailing
/// characters with the Unicode `White_Space` property.
#[verifier::external_body]
pub(crate) fn trim_text(s: &str) -> (r: String)
    ensures
        r@ == trim_spec(s@),
{
    s.trim().to_owned()
}

/// 2 if any line switches to the second performer, else 1.
pub fn player_count(lines: &Vec<SongLine>) -> (r: u32)
    ensures
        r == player_count_spec(lines@),
{
    let mut i: usize = 0;
    while i < lines.len()
        invariant
            i <= lines@.len(),
            forall|a: int, b: int|
                0 <= a < i && 0 <= b < lines@[a].notes@.len() ==> !#[trigger] selects_player_two(
                    lines@[a].notes@[b],
                ),
        decreases lines@.len() - i,
    {
        let notes = &lines[i].notes;
        let mut j: usize = 0;
        while j < notes.len()
            invariant
                i < lines@.len(),
                notes == lines@[i as int].notes,
                j <= notes@.len(),
                forall|a: int, b: int|
                    0 <= a < i && 0 <= b < lines@[a].notes@.len() ==> !#[trigger] selects_player_two(
                        lines@[a].notes@[b],
                    ),
                forall|b: int| 0 <= b < j ==> !#[trigger] selects_player_two(notes@[b]),
            decreases notes@.len() - j,
        {
            if let Note::PlayerChange { player } = &notes[j] {
                if *player == 2 {
                    assert(selects_player_two(lines@[i as int].notes@[j as int]));
                    return 2;
                }
            }
            j = j + 1;
        }
        i = i + 1;
    }
    1
}

/// The concatenated sung text of a line, and whether any note carried text.
fn line_text(line: &SongLine) -> (r: (String, bool))
    ensures
        r.0@ == raw_line_text(line.notes@),
        r.1 == line_has_text(line.notes@),
{
    let mut s = String::new();
    let mut found = false;
    let mut j: usize = 0;
    while j < line.notes.len()
        invariant
            j <= line.notes@.len(),
            s@ == raw_line_text(line.notes@.subrange(0, j as int)),
            found == exists|k: int| 0 <= k < j && #[trigger] carries_text(line.notes@[k]),
        decreases line.notes@.len() - j,
    {
        let ghost pre = line.notes@.subrange(0, j as int);
        let ghost next = line.notes@.subrange(0, j + 1);
        assert(next.drop_last() =~= pre);
        match &line.notes[j] {
            Note::Regular { text } => {
                s.append(text.as_str());
                found = true;
            },
            Note::Golden { text } => {
                s.append(text.as_str());
                found = true;
            },
            Note::Freestyle { text } => {
                s.append(text.as_str());
                found = true;
            },
            Note::PlayerChange { .. } => {
                assert(s@ + Seq::<char>::empty() =~= s@);
            },
        }
        proof {
            if !carries_text(line.notes@[j as int]) {
                if exists|k: int| 0 <= k < j + 1 && #[trigger] carries_text(line.notes@[k]) {
                    let k = choose|k: int| 0 <= k < j + 1 && #[trigger] carries_text(line.notes@[k]);
                    assert(k < j);
                }
            }
        }
        j = j + 1;
    }
    assert(line.notes@.subrange(0, line.notes@.len() as int) =~= line.notes@);
    (s, found)
}

/// The lyrics of a song, as `lyrics_spec` states them.
pub fn assemble_lyrics(lines: &Vec<SongLine>) -> (r: String)
    ensures
        r@ == lyrics_spec(lines@),
{
    let mut out = String::new();
    let mut count: usize = 0;
    let mut i: usize = 0;
    while i < lines.len()
        invariant
            i <= lines@.len(),
            count <= i,
            count == lyric_lines(lines@.subrange(0, i as int)).len(),
            out@ == join_lines(lyric_lines(lines@.subrange(0, i as int))),
        decreases lines@.len() - i,
    {
        let ghost pre = lines@.subrange(0, i as int);
        let ghost next = lines@.subrange(0, i + 1);
        assert(next.drop_last() =~= pre);
        let (raw, has_text) = line_text(&lines[i]);
        if has_text {
            let trimmed = trim_text(raw.as_str());
            if count > 0 {
                out.append("\n");
                proof {
                    reveal_strlit("\n");
                }
            }
            out.append(trimmed.as_str());
            proof {
                let ls = lyric_lines(next);
                assert(ls.drop_last() =~= lyric_lines(pre));
                if count == 0 {
                    assert(out@ =~= ls[0]);
                } else {
                    assert(out@ =~= join_lines(ls));
                }
            }
            count = count + 1;
        }
        i = i + 1;
    }
    assert(lines@.subrange(0, lines@.len() as int) =~= lines@);
    out
}

} // verus!
