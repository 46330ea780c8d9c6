//! Lines of a cue sheet.
//!
//! A line is a keyword followed by arguments. White space parts the words of a
//! line; double quotes hold a word together and are dropped.

use vstd::prelude::*;
use crate::cuesheet::cuesheet::{
    comments_view,
    comments_with,
    lemma_comments_with_distinct,
    tracks_view,
    Cuesheet,
    CuesheetTrack,
    CuesheetTrackView,
    CuesheetView,
};
use crate::text::{
    chars_of,
    is_whitespace,
    lowercased,
    parse_unsigned,
    spec_parse_unsigned,
    str_eq,
    string_of,
    to_lowercase,
    whitespace,
};

verus! {

/// The byte order mark, which may stand at the start of a file.
pub const BYTE_ORDER_MARK: char = '\u{feff}';

/// Whether the character at `i` counts as white space: whether `blank` says
/// so. A character for which `blank` holds nothing does not count.
pub open spec fn is_blank(blank: Seq<bool>, i: int) -> bool {
    0 <= i < blank.len() && blank[i]
}

/// The index of the first character at or after `i` that is no byte order
/// mark.
pub open spec fn marks_end(s: Seq<char>, i: int) -> int
    decreases s.len() - i,
{
    if 0 <= i < s.len() && s[i] == BYTE_ORDER_MARK {
        marks_end(s, i + 1)
    } else {
        i
    }
}

/// The index of the first character at or after `i`, and before `len`, that
/// is no white space.
pub open spec fn blanks_end(blank: Seq<bool>, len: int, i: int) -> int
    decreases len - i,
{
    if 0 <= i < len && is_blank(blank, i) {
        blanks_end(blank, len, i + 1)
    } else {
        i
    }
}

/// The index after the last character before `j`, and not before `low`, that
/// is no white space.
pub open spec fn blanks_start(blank: Seq<bool>, low: int, j: int) -> int
    decreases j,
{
    if low < j && 0 < j && is_blank(blank, j - 1) {
        blanks_start(blank, low, j - 1)
    } else {
        j
    }
}

/// Where the text of a line starts: after the byte order marks at its start
/// and the white space that follows them.
pub open spec fn text_start(s: Seq<char>, blank: Seq<bool>) -> int {
    blanks_end(blank, s.len() as int, marks_end(s, 0))
}

/// Where the text of a line ends: before the white space at its end.
pub open spec fn text_end(s: Seq<char>, blank: Seq<bool>) -> int {
    blanks_start(blank, text_start(s, blank), s.len() as int)
}

/// Where the splitting of a line stands: the words that are complete, the
/// word that is being read, and whether a quote is open.
pub struct Split {
    pub parts: Seq<Seq<char>>,
    pub word: Seq<char>,
    pub quoted: bool,
}

impl Split {
    /// The splitting at the start of a line.
    pub open spec fn start() -> Split {
        Split { parts: Seq::empty(), word: Seq::empty(), quoted: false }
    }

    /// The splitting after one more character, which is white space or not.
    ///
    /// A double quote opens or closes a quote and is dropped. Within a quote
    /// every character goes to the word. Outside, white space ends the word,
    /// be it empty, and any other character goes to the word.
    pub open spec fn step(self, c: char, blank: bool) -> Split {
        if c == '"' {
            Split { quoted: !self.quoted, ..self }
        } else if self.quoted || !blank {
            Split { word: self.word.push(c), ..self }
        } else {
            Split { parts: self.parts.push(self.word), word: Seq::empty(), ..self }
        }
    }

    /// The splitting after the characters of `s` from `from` up to `to`.
    pub open spec fn after(s: Seq<char>, blank: Seq<bool>, from: int, to: int) -> Split
        decreases to - from,
    {
        if to <= from {
            Split::start()
        } else {
            Split::after(s, blank, from, to - 1).step(s[to - 1], is_blank(blank, to - 1))
        }
    }
}

/// The words of a line of which `blank` tells the white space: the line
/// without the byte order marks and the white space at its start and without
/// the white space at its end is split, and the word that was being read at
/// the end is the last word. There is always one word at least.
pub open spec fn spec_split_words(chars: Seq<char>, blank: Seq<bool>) -> Seq<Seq<char>> {
    let split = Split::after(chars, blank, text_start(chars, blank), text_end(chars, blank));
    split.parts.push(split.word)
}

/// For each character of a line, whether it is white space.
pub open spec fn blanks_of(line: Seq<char>) -> Seq<bool> {
    Seq::new(line.len(), |i: int| whitespace(line[i]))
}

/// The words of a line.
pub open spec fn spec_parse_line(line: Seq<char>) -> Seq<Seq<char>> {
    spec_split_words(line, blanks_of(line))
}

/// The texts of the strings in `v`, in order.
pub open spec fn texts(v: Seq<String>) -> Seq<Seq<char>> {
    Seq::new(v.len(), |i: int| v[i]@)
}

/// Whether the character at `i` counts as white space.
fn blank_at(blank: &[bool], i: usize) -> (r: bool)
    ensures
        r == is_blank(blank@, i as int),
{
    i < blank.len() && blank[i]
}

/// Where the text of a line starts and where it ends.
fn text_bounds(chars: &[char], blank: &[bool]) -> (r: (usize, usize))
    ensures
        r.0 == text_start(chars@, blank@),
        r.1 == text_end(chars@, blank@),
        r.0 <= r.1 <= chars@.len(),
{
    let n: usize = chars.len();
    let mut start: usize = 0;
    while start < n && chars[start] == BYTE_ORDER_MARK
        invariant
            start <= n,
            n == chars@.len(),
            marks_end(chars@, start as int) == marks_end(chars@, 0),
        decreases n - start,
    {
        start = start + 1;
    }
    let ghost marks: int = start as int;
    while start < n && blank_at(blank, start)
        invariant
            marks <= start <= n,
            n == chars@.len(),
            marks == marks_end(chars@, 0),
            blanks_end(blank@, n as int, start as int) == blanks_end(blank@, n as int, marks),
        decreases n - start,
    {
        start = start + 1;
    }
    let mut end: usize = n;
    while end > start && blank_at(blank, end - 1)
        invariant
            start <= end <= n,
            n == chars@.len(),
            blanks_start(blank@, start as int, end as int) == blanks_start(
                blank@,
                start as int,
                n as int,
            ),
        decreases end,
    {
        end = end - 1;
    }
    (start, end)
}

/// Splits a line into its words, given for each of its characters whether it
/// is white space. A character beyond the end of `blank` is none.
pub fn split_words(chars: &[char], blank: &[bool]) -> (parts: Vec<String>)
    ensures
        texts(parts@) == spec_split_words(chars@, blank@),
        parts@.len() >= 1,
{
    let (start, end) = text_bounds(chars, blank);
    let mut parts: Vec<String> = Vec::new();
    let mut inside_quotes: bool = false;
    let mut temp: Vec<char> = Vec::new();
    let mut i: usize = start;
    assert(texts(parts@) =~= Seq::<Seq<char>>::empty());
    while i < end
        invariant
            start <= i <= end <= chars@.len(),
            Split::after(chars@, blank@, start as int, i as int) == (Split {
                parts: texts(parts@),
                word: temp@,
                quoted: inside_quotes,
            }),
        decreases end - i,
    {
        let c: char = chars[i];
        let ghost before: Seq<Seq<char>> = texts(parts@);
        if c == '"' {
            inside_quotes = !inside_quotes;
        } else if inside_quotes {
            temp.push(c);
        } else if blank_at(blank, i) {
            let word: String = string_of(temp.as_slice(), 0, temp.len());
            assert(temp@.subrange(0, temp@.len() as int) =~= temp@);
            parts.push(word);
            assert(texts(parts@) =~= before.push(temp@));
            temp = Vec::new();
        } else {
            temp.push(c);
        }
        i = i + 1;
    }
    let ghost before: Seq<Seq<char>> = texts(parts@);
    let word: String = string_of(temp.as_slice(), 0, temp.len());
    assert(temp@.subrange(0, temp@.len() as int) =~= temp@);
    parts.push(word);
    assert(texts(parts@) =~= before.push(temp@));
    parts
}

/// Splits a line into its words.
pub fn parse_line(line: &str) -> (parts: Vec<String>)
    ensures
        texts(parts@) == spec_parse_line(line@),
        parts@.len() >= 1,
{
    let chars: Vec<char> = chars_of(line);
    let mut blank: Vec<bool> = Vec::new();
    let mut i: usize = 0;
    while i < chars.len()
        invariant
            i <= chars@.len(),
            chars@ == line@,
            blank@.len() == i,
            forall|j: int| 0 <= j < i ==> blank@[j] == whitespace(#[trigger] line@[j]),
        decreases chars@.len() - i,
    {
        blank.push(is_whitespace(chars[i]));
        i = i + 1;
    }
    assert(blank@ =~= blanks_of(line@));
    split_words(chars.as_slice(), blank.as_slice())
}

impl CuesheetTrackView {
    /// The track after a line, and whether the line could be taken.
    ///
    /// `TITLE` and `PERFORMER` set what their argument says. `INDEX` with the
    /// number 1 sets the begin of the track; with another number it changes
    /// nothing; its number must be one of 8 bits. Any other line changes
    /// nothing. A line that lacks an argument it needs cannot be taken.
    pub open spec fn process_track(self, line: Seq<char>) -> (CuesheetTrackView, Option<()>) {
        let parts = spec_parse_line(line);
        let keyword = parts[0];
        if keyword == "TITLE"@ {
            if parts.len() < 2 {
                (self, None)
            } else {
                (CuesheetTrackView { item_title: parts[1], ..self }, Some(()))
            }
        } else if keyword == "PERFORMER"@ {
            if parts.len() < 2 {
                (self, None)
            } else {
                (CuesheetTrackView { item_performer: parts[1], ..self }, Some(()))
            }
        } else if keyword == "INDEX"@ {
            if parts.len() < 2 {
                (self, None)
            } else {
                match spec_parse_unsigned(parts[1], u8::MAX as nat) {
                    None => (self, None),
                    Some(position) => if position != 1 {
                        (self, Some(()))
                    } else if parts.len() < 3 {
                        (self, None)
                    } else {
                        (CuesheetTrackView { item_begin_duration: parts[2], ..self }, Some(()))
                    },
                }
            }
        } else {
            (self, Some(()))
        }
    }
}

impl CuesheetView {
    /// The cue sheet after a line of its head, the part before the first
    /// track: `FILE` sets the name and the type of the audio file, `TITLE` and
    /// `PERFORMER` what their argument says, `REM` notes a remark under the
    /// lower case of its name, and `TRACK` ends the head. `None` for a line that
    /// lacks an argument it needs.
    pub open spec fn process_head(self, parts: Seq<Seq<char>>) -> Option<CuesheetView> {
        let keyword = parts[0];
        if keyword == "FILE"@ {
            if parts.len() < 3 {
                None
            } else {
                Some(CuesheetView { file_name: parts[1], file_type: parts[2], ..self })
            }
        } else if keyword == "TITLE"@ {
            if parts.len() < 2 {
                None
            } else {
                Some(CuesheetView { title: parts[1], ..self })
            }
        } else if keyword == "PERFORMER"@ {
            if parts.len() < 2 {
                None
            } else {
                Some(CuesheetView { performer: parts[1], ..self })
            }
        } else if keyword == "REM"@ {
            if parts.len() < 3 {
                None
            } else {
                Some(
                    CuesheetView {
                        comments: comments_with(self.comments, lowercased(parts[1]), parts[2]),
                        ..self
                    },
                )
            }
        } else if keyword == "TRACK"@ {
            Some(CuesheetView { is_processing_tracks: true, ..self })
        } else {
            Some(self)
        }
    }

    /// The cue sheet after a line among the tracks, and whether the line could
    /// be taken.
    ///
    /// `TRACK` opens a track with its number, which must be one of 8 bits,
    /// and its type. Any other line goes to the track that was opened last;
    /// there must be one, and what the track makes of the line does not count.
    pub open spec fn process_body(self, line: Seq<char>, parts: Seq<Seq<char>>) -> (
        CuesheetView,
        Option<()>,
    ) {
        if parts[0] == "TRACK"@ {
            if parts.len() < 3 {
                (self, None)
            } else {
                match spec_parse_unsigned(parts[1], u8::MAX as nat) {
                    None => (self, None),
                    Some(position) => (
                        CuesheetView {
                            tracks: self.tracks.push(
                                CuesheetTrackView {
                                    item_position: position as u8,
                                    item_type: parts[2],
                                    ..CuesheetTrackView::blank()
                                },
                            ),
                            ..self
                        },
                        Some(()),
                    ),
                }
            }
        } else if self.tracks.len() == 0 {
            (self, None)
        } else {
            (
                CuesheetView {
                    tracks: self.tracks.update(
                        self.tracks.len() - 1,
                        self.tracks.last().process_track(line).0,
                    ),
                    ..self
                },
                Some(()),
            )
        }
    }

    /// The cue sheet after a line, and whether the line could be taken.
    ///
    /// Before the first `TRACK` line a line belongs to the head. The `TRACK`
    /// line that ends the head, and every line after it, belongs to the
    /// tracks. A line that cannot be taken leaves the cue sheet as the part
    /// before the failure made it.
    pub open spec fn process_line(self, line: Seq<char>) -> (CuesheetView, Option<()>) {
        let parts = spec_parse_line(line);
        let headed = if self.is_processing_tracks {
            Some(self)
        } else {
            self.process_head(parts)
        };
        match headed {
            None => (self, None),
            Some(sheet) => if sheet.is_processing_tracks {
                sheet.process_body(line, parts)
            } else {
                (sheet, Some(()))
            },
        }
    }
}

/// Taking a line keeps the names of the remarks distinct.
pub proof fn lemma_process_line_well_formed(sheet: CuesheetView, line: Seq<char>)
    requires
        sheet.well_formed(),
    ensures
        sheet.process_line(line).0.well_formed(),
{
    let parts = spec_parse_line(line);
    if !sheet.is_processing_tracks && parts[0] == "REM"@ && parts.len() >= 3 {
        lemma_comments_with_distinct(sheet.comments, lowercased(parts[1]), parts[2]);
    }
}

impl Cuesheet {
    /// Takes a line of the head.
    fn process_head(&mut self, parts: &Vec<String>) -> (r: Option<()>)
        requires
            parts@.len() >= 1,
        ensures
            match old(self)@.process_head(texts(parts@)) {
                Some(sheet) => r is Some && final(self)@ == sheet,
                None => r is None && final(self)@ == old(self)@,
            },
    {
        let keyword: &str = parts[0].as_str();
        if str_eq(keyword, "FILE") {
            if parts.len() < 3 {
                return None;
            }
            self.file_name = parts[1].clone();
            self.file_type = parts[2].clone();
        } else if str_eq(keyword, "TITLE") {
            if parts.len() < 2 {
                return None;
            }
            self.title = parts[1].clone();
        } else if str_eq(keyword, "PERFORMER") {
            if parts.len() < 2 {
                return None;
            }
            self.performer = parts[1].clone();
        } else if str_eq(keyword, "REM") {
            if parts.len() < 3 {
                return None;
            }
            self.set_comment(to_lowercase(parts[1].as_str()), parts[2].clone());
        } else if str_eq(keyword, "TRACK") {
            self.is_processing_tracks = true;
        }
        Some(())
    }

    /// Takes a line among the tracks.
    fn process_body(&mut self, line: &str, parts: &Vec<String>) -> (r: Option<()>)
        requires
            parts@.len() >= 1,
            texts(parts@) == spec_parse_line(line@),
        ensures
            (final(self)@, r) == old(self)@.process_body(line@, texts(parts@)),
    {
        if str_eq(parts[0].as_str(), "TRACK") {
            if parts.len() < 3 {
                return None;
            }
            let position: u64 = match parse_unsigned(parts[1].as_str(), u8::MAX as u64) {
                Some(position) => position,
                None => { return None; },
            };
            let mut track: CuesheetTrack = CuesheetTrack::default();
            track.item_position = position as u8;
            track.item_type = parts[2].clone();
            let ghost before: Seq<CuesheetTrackView> = tracks_view(self.tracks@);
            self.tracks.push(track);
            assert(tracks_view(self.tracks@) =~= before.push(track@));
            Some(())
        } else {
            let n: usize = self.tracks.len();
            if n == 0 {
                return None;
            }
            let ghost before: Seq<CuesheetTrackView> = tracks_view(self.tracks@);
            let mut track: CuesheetTrack = self.tracks[n - 1].clone_track();
            let _ = track.process_track(line);
            self.tracks.set(n - 1, track);
            assert(tracks_view(self.tracks@) =~= before.update(n - 1, track@));
            Some(())
        }
    }

    /// Takes a line of the cue sheet. `None` where the line cannot be taken.
    pub fn process_line(&mut self, line: &str) -> (r: Option<()>)
        ensures
            (final(self)@, r) == old(self)@.process_line(line@),
            old(self)@.well_formed() ==> final(self)@.well_formed(),
    {
        proof {
            if self@.well_formed() {
                lemma_process_line_well_formed(self@, line@);
            }
        }
        let parts: Vec<String> = parse_line(line);
        if !self.is_processing_tracks {
            match self.process_head(&parts) {
                Some(_) => {},
                None => { return None; },
            }
        }
        if self.is_processing_tracks {
            self.process_body(line, &parts)
        } else {
            Some(())
        }
    }
}

impl CuesheetTrack {
    /// A copy of the track.
    pub fn clone_track(&self) -> (track: CuesheetTrack)
        ensures
            track@ == self@,
    {
        CuesheetTrack {
            item_type: self.item_type.clone(),
            item_position: self.item_position,
            item_performer: self.item_performer.clone(),
            item_title: self.item_title.clone(),
            item_begin_duration: self.item_begin_duration.clone(),
        }
    }

    /// Takes a line that belongs to the track. `None` where the line cannot be
    /// taken.
    pub fn process_track(&mut self, line: &str) -> (r: Option<()>)
        ensures
            (final(self)@, r) == old(self)@.process_track(line@),
    {
        let parts: Vec<String> = parse_line(line);
        let keyword: &str = parts[0].as_str();
        if str_eq(keyword, "TITLE") {
            if parts.len() < 2 {
                return None;
            }
            self.item_title = parts[1].clone();
        } else if str_eq(keyword, "PERFORMER") {
            if parts.len() < 2 {
                return None;
            }
            self.item_performer = parts[1].clone();
        } else if str_eq(keyword, "INDEX") {
            if parts.len() < 2 {
                return None;
            }
            let index_position: u64 = match parse_unsigned(parts[1].as_str(), u8::MAX as u64) {
                Some(position) => position,
                None => { return None; },
            };
            if index_position == 1 {
                if parts.len() < 3 {
                    return None;
                }
                self.item_begin_duration = parts[2].clone();
            }
        }
        Some(())
    }
}

} // verus!
