//! The cue sheet and its tracks.

use vstd::prelude::*;
use crate::cuesheet::parse::texts;
use crate::input_item::{
    CInputItem,
    CInputItemNode,
    CInputItemView,
    ItemType,
    MetaType,
    NetType,
    VLC_INPUT_OPTION_TRUSTED,
};
use crate::text::{
    ascii_lowercased,
    chars_of,
    decimal,
    lowercased,
    parse_unsigned,
    push_decimal,
    push_signed_decimal,
    signed_decimal,
    spec_parse_unsigned,
    str_eq,
    string_of,
    to_ascii_lowercase,
    to_lowercase,
};

verus! {

/// A track of a cue sheet.
#[derive(Clone, Debug)]
pub struct CuesheetTrack {
    pub item_type: String,
    pub item_position: u8,
    pub item_performer: String,
    pub item_title: String,
    /// Where the track begins: minutes, seconds and frames, parted by colons.
    pub item_begin_duration: String,
}

/// What a [`CuesheetTrack`] stands for.
pub struct CuesheetTrackView {
    pub item_type: Seq<char>,
    pub item_position: u8,
    pub item_performer: Seq<char>,
    pub item_title: Seq<char>,
    pub item_begin_duration: Seq<char>,
}

impl View for CuesheetTrack {
    type V = CuesheetTrackView;

    open spec fn view(&self) -> CuesheetTrackView {
        CuesheetTrackView {
            item_type: self.item_type@,
            item_position: self.item_position,
            item_performer: self.item_performer@,
            item_title: self.item_title@,
            item_begin_duration: self.item_begin_duration@,
        }
    }
}

impl Default for CuesheetTrack {
    fn default() -> (track: CuesheetTrack)
        ensures
            track@ == CuesheetTrackView::blank(),
    {
        CuesheetTrack {
            item_type: String::new(),
            item_position: 0,
            item_performer: String::new(),
            item_title: String::new(),
            item_begin_duration: String::new(),
        }
    }
}

/// How many frames a second holds.
pub const FRAME_RATE: u32 = 75;

/// How many seconds a minute holds.
pub const CONVERT_MIN_TO_S: i32 = 60;

/// The index at which the field that ends before `end` starts: after the last
/// colon before `end`, or at the start of the text.
pub open spec fn field_start(s: Seq<char>, end: int) -> int
    decreases end,
{
    if 0 < end <= s.len() && s[end - 1] != ':' {
        field_start(s, end - 1)
    } else {
        end
    }
}

/// A number of 32 bits without sign, read as one with sign.
pub open spec fn wrap_i32(v: int) -> int {
    if v > i32::MAX {
        v - 0x1_0000_0000
    } else {
        v
    }
}

/// The start time with a field added to it: the number that the field spells,
/// read as a signed one, times the factor. `None` where the field spells no
/// number of 32 bits or the result is no number of 32 bits.
pub open spec fn spec_add_to_start_time(
    start_time: i32,
    time_to_add: Option<Seq<char>>,
    conversion_factor: i32,
) -> Option<i32> {
    match time_to_add {
        None => None,
        Some(text) => match spec_parse_unsigned(text, u32::MAX as nat) {
            None => None,
            Some(val) => {
                let sum = start_time + wrap_i32(val as int) * conversion_factor;
                if i32::MIN <= sum <= i32::MAX && i32::MIN <= wrap_i32(val as int)
                    * conversion_factor <= i32::MAX {
                    Some(sum as i32)
                } else {
                    None
                }
            },
        },
    }
}

/// Adds a field of a time to a start time.
pub fn add_to_start_time(start_time: i32, time_to_add: Option<&str>, conversion_factor: i32) -> (r:
    Option<i32>)
    ensures
        r == spec_add_to_start_time(
            start_time,
            match time_to_add {
                Some(text) => Some(text@),
                None => None,
            },
            conversion_factor,
        ),
{
    let text: &str = match time_to_add {
        Some(text) => text,
        None => { return None; },
    };
    let val: u64 = match parse_unsigned(text, u32::MAX as u64) {
        Some(val) => val,
        None => { return None; },
    };
    let signed: i64 = if val > i32::MAX as u64 {
        val as i64 - 0x1_0000_0000
    } else {
        val as i64
    };
    assert(signed * conversion_factor <= 0x8000_0000 * 0x8000_0000 && signed * conversion_factor
        >= -0x8000_0000 * 0x8000_0000) by (nonlinear_arith)
        requires
            -0x8000_0000 <= signed <= 0x7fff_ffff,
            -0x8000_0000 <= conversion_factor <= 0x7fff_ffff,
    ;
    let product: i64 = signed * (conversion_factor as i64);
    if product < i32::MIN as i64 || product > i32::MAX as i64 {
        return None;
    }
    let sum: i64 = start_time as i64 + product;
    if sum < i32::MIN as i64 || sum > i32::MAX as i64 {
        return None;
    }
    Some(sum as i32)
}

impl CuesheetTrackView {
    /// The track of which nothing is known.
    pub open spec fn blank() -> CuesheetTrackView {
        CuesheetTrackView {
            item_type: Seq::empty(),
            item_position: 0,
            item_performer: Seq::empty(),
            item_title: Seq::empty(),
            item_begin_duration: Seq::empty(),
        }
    }

    /// Where the track begins, in seconds; -1 where the begin is no time.
    ///
    /// The begin is read from its end: the last field holds frames, of which
    /// 75 make a second and the rest is dropped; the field before it holds
    /// seconds; the one before that, minutes. Fields before these are not
    /// looked at. A begin of fewer than three fields is no time.
    pub open spec fn begin_time_in_seconds(self) -> i32 {
        let s = self.item_begin_duration;
        let frames_start = field_start(s, s.len() as int);
        let seconds_start = field_start(s, frames_start - 1);
        let minutes_start = field_start(s, seconds_start - 1);
        match spec_parse_unsigned(s.subrange(frames_start, s.len() as int), u32::MAX as nat) {
            None => -1i32,
            Some(frames) => {
                let seconds = if frames_start < 1 {
                    None
                } else {
                    Some(s.subrange(seconds_start, frames_start - 1))
                };
                match spec_add_to_start_time((frames / 75) as i32, seconds, 1) {
                    None => -1i32,
                    Some(start) => {
                        let minutes = if frames_start < 1 || seconds_start < 1 {
                            None
                        } else {
                            Some(s.subrange(minutes_start, seconds_start - 1))
                        };
                        match spec_add_to_start_time(start, minutes, 60) {
                            None => -1i32,
                            Some(total) => total,
                        }
                    },
                }
            },
        }
    }

    /// The property of this name, the case of the letters `A` to `Z` of the
    /// name set aside.
    pub open spec fn get_property(self, key: Seq<char>) -> Option<Seq<char>> {
        let name = ascii_lowercased(key);
        if name == "type"@ {
            Some(self.item_type)
        } else if name == "begin_duration"@ {
            Some(self.item_begin_duration)
        } else if name == "performer"@ {
            Some(self.item_performer)
        } else if name == "title"@ {
            Some(self.item_title)
        } else if name == "position"@ {
            Some(decimal(self.item_position as nat))
        } else {
            None
        }
    }
}

/// The start of the field that ends before `end`.
fn find_field_start(chars: &Vec<char>, end: usize) -> (start: usize)
    requires
        end <= chars@.len(),
    ensures
        start == field_start(chars@, end as int),
        start <= end,
{
    let mut start: usize = end;
    while start > 0 && chars[start - 1] != ':'
        invariant
            start <= end <= chars@.len(),
            field_start(chars@, start as int) == field_start(chars@, end as int),
        decreases start,
    {
        start = start - 1;
    }
    start
}

impl CuesheetTrack {
    /// Where the track begins, in seconds; -1 where the begin is no time.
    pub fn begin_time_in_seconds(&self) -> (r: i32)
        ensures
            r == self@.begin_time_in_seconds(),
    {
        let chars: Vec<char> = chars_of(self.item_begin_duration.as_str());
        let n: usize = chars.len();
        let frames_start: usize = find_field_start(&chars, n);
        let frames_text: String = string_of(chars.as_slice(), frames_start, n);
        let frames: u64 = match parse_unsigned(frames_text.as_str(), u32::MAX as u64) {
            Some(frames) => frames,
            None => { return -1; },
        };
        let start: i32 = (frames / (FRAME_RATE as u64)) as i32;
        if frames_start < 1 {
            proof {
                assert(field_start(chars@, -1) == -1);
            }
            return -1;
        }
        let seconds_start: usize = find_field_start(&chars, frames_start - 1);
        let seconds_text: String = string_of(chars.as_slice(), seconds_start, frames_start - 1);
        let start: i32 = match add_to_start_time(start, Some(seconds_text.as_str()), 1) {
            Some(start) => start,
            None => { return -1; },
        };
        if seconds_start < 1 {
            return -1;
        }
        let minutes_start: usize = find_field_start(&chars, seconds_start - 1);
        let minutes_text: String = string_of(chars.as_slice(), minutes_start, seconds_start - 1);
        match add_to_start_time(start, Some(minutes_text.as_str()), CONVERT_MIN_TO_S) {
            Some(total) => total,
            None => -1,
        }
    }

    /// The property of this name.
    pub fn get_property(&self, key: &str) -> (r: Option<String>)
        ensures
            match r {
                Some(value) => self@.get_property(key@) == Some(value@),
                None => self@.get_property(key@) is None,
            },
    {
        let name: String = to_ascii_lowercase(key);
        if str_eq(name.as_str(), "type") {
            Some(self.item_type.clone())
        } else if str_eq(name.as_str(), "begin_duration") {
            Some(self.item_begin_duration.clone())
        } else if str_eq(name.as_str(), "performer") {
            Some(self.item_performer.clone())
        } else if str_eq(name.as_str(), "title") {
            Some(self.item_title.clone())
        } else if str_eq(name.as_str(), "position") {
            let mut text: String = String::new();
            push_decimal(&mut text, self.item_position as u64);
            assert(Seq::<char>::empty() + decimal(self.item_position as nat) =~= decimal(
                self.item_position as nat,
            ));
            Some(text)
        } else {
            None
        }
    }
}

/// A cue sheet: the audio file, what is known of the album, and the tracks.
#[derive(Clone, Debug)]
pub struct Cuesheet {
    pub file_name: String,
    pub file_type: String,
    pub tracks: Vec<CuesheetTrack>,
    pub performer: String,
    pub title: String,
    /// The remarks, each a name and a value. A cue sheet that is filled line by
    /// line holds no name twice; of two remarks of one name the earlier entry
    /// would be the one that counts.
    pub comments: Vec<(String, String)>,
    pub is_processing_tracks: bool,
}

/// What a [`Cuesheet`] stands for.
pub struct CuesheetView {
    pub file_name: Seq<char>,
    pub file_type: Seq<char>,
    pub tracks: Seq<CuesheetTrackView>,
    pub performer: Seq<char>,
    pub title: Seq<char>,
    pub comments: Seq<(Seq<char>, Seq<char>)>,
    pub is_processing_tracks: bool,
}

/// The views of the tracks in `v`, in order.
pub open spec fn tracks_view(v: Seq<CuesheetTrack>) -> Seq<CuesheetTrackView> {
    Seq::new(v.len(), |i: int| v[i]@)
}

/// The remarks in `v` with the texts of their names and values.
pub open spec fn comments_view(v: Seq<(String, String)>) -> Seq<(Seq<char>, Seq<char>)> {
    Seq::new(v.len(), |i: int| (v[i].0@, v[i].1@))
}

impl View for Cuesheet {
    type V = CuesheetView;

    open spec fn view(&self) -> CuesheetView {
        CuesheetView {
            file_name: self.file_name@,
            file_type: self.file_type@,
            tracks: tracks_view(self.tracks@),
            performer: self.performer@,
            title: self.title@,
            comments: comments_view(self.comments@),
            is_processing_tracks: self.is_processing_tracks,
        }
    }
}

impl Default for Cuesheet {
    fn default() -> (sheet: Cuesheet)
        ensures
            sheet@ == CuesheetView::blank(),
            sheet@.well_formed(),
    {
        let sheet: Cuesheet = Cuesheet {
            file_name: String::new(),
            file_type: String::new(),
            tracks: Vec::new(),
            performer: String::new(),
            title: String::new(),
            comments: Vec::new(),
            is_processing_tracks: false,
        };
        assert(tracks_view(sheet.tracks@) =~= Seq::empty());
        assert(comments_view(sheet.comments@) =~= Seq::empty());
        sheet
    }
}

/// The index of the first remark of this name, if there is one.
pub open spec fn comment_index(comments: Seq<(Seq<char>, Seq<char>)>, name: Seq<char>, from: int)
    -> Option<int>
    decreases comments.len() - from,
{
    if from < 0 || from >= comments.len() {
        None
    } else if comments[from].0 == name {
        Some(from)
    } else {
        comment_index(comments, name, from + 1)
    }
}

/// No name occurs twice among the remarks.
pub open spec fn distinct_names(comments: Seq<(Seq<char>, Seq<char>)>) -> bool {
    forall|i: int, j: int|
        #![trigger comments[i], comments[j]]
        0 <= i < j < comments.len() ==> comments[i].0 != comments[j].0
}

/// What the index of a remark says: the remark there has the name, and no
/// remark between `from` and it has; without an index, no remark from `from`
/// on has the name.
pub proof fn lemma_comment_index(comments: Seq<(Seq<char>, Seq<char>)>, name: Seq<char>, from: int)
    requires
        0 <= from,
    ensures
        match comment_index(comments, name, from) {
            Some(i) => from <= i < comments.len() && comments[i].0 == name && forall|k: int|
                from <= k < i ==> (#[trigger] comments[k]).0 != name,
            None => forall|k: int|
                from <= k < comments.len() ==> (#[trigger] comments[k]).0 != name,
        },
    decreases comments.len() - from,
{
    if from < comments.len() && comments[from].0 != name {
        lemma_comment_index(comments, name, from + 1);
    }
}

/// Noting a remark keeps the names distinct.
pub proof fn lemma_comments_with_distinct(
    comments: Seq<(Seq<char>, Seq<char>)>,
    name: Seq<char>,
    value: Seq<char>,
)
    requires
        distinct_names(comments),
    ensures
        distinct_names(comments_with(comments, name, value)),
{
    lemma_comment_index(comments, name, 0);
    let after = comments_with(comments, name, value);
    assert forall|i: int, j: int|
        #![trigger after[i], after[j]]
        0 <= i < j < after.len() implies after[i].0 != after[j].0 by {
        match comment_index(comments, name, 0) {
            Some(k) => {
                assert(after[i].0 == comments[i].0);
                assert(after[j].0 == comments[j].0);
            },
            None => {
                if j < comments.len() {
                    assert(after[i] == comments[i]);
                    assert(after[j] == comments[j]);
                } else {
                    assert(after[i] == comments[i]);
                }
            },
        }
    }
}

/// The remarks after one was noted: it takes the place of the remark of its
/// name, or comes last if there is none.
pub open spec fn comments_with(
    comments: Seq<(Seq<char>, Seq<char>)>,
    name: Seq<char>,
    value: Seq<char>,
) -> Seq<(Seq<char>, Seq<char>)> {
    match comment_index(comments, name, 0) {
        Some(i) => comments.update(i, (name, value)),
        None => comments.push((name, value)),
    }
}

impl CuesheetView {
    /// What a map from names to values gives: no name of a remark occurs
    /// twice. A new cue sheet has it, and taking lines keeps it.
    pub open spec fn well_formed(self) -> bool {
        distinct_names(self.comments)
    }

    /// The cue sheet of which nothing is known.
    pub open spec fn blank() -> CuesheetView {
        CuesheetView {
            file_name: Seq::empty(),
            file_type: Seq::empty(),
            tracks: Seq::empty(),
            performer: Seq::empty(),
            title: Seq::empty(),
            comments: Seq::empty(),
            is_processing_tracks: false,
        }
    }

    /// The property of this name, the case of the letters `A` to `Z` of the
    /// name set aside.
    pub open spec fn get_property(self, key: Seq<char>) -> Option<Seq<char>> {
        let name = ascii_lowercased(key);
        if name == "file_name"@ {
            Some(self.file_name)
        } else if name == "file_type"@ {
            Some(self.file_type)
        } else if name == "performer"@ {
            Some(self.performer)
        } else if name == "title"@ {
            Some(self.title)
        } else {
            None
        }
    }

    /// The property of the track at `index`.
    pub open spec fn track_property(self, index: int, line: Seq<char>) -> Option<Seq<char>> {
        if 0 <= index < self.tracks.len() {
            self.tracks[index].get_property(line)
        } else {
            None
        }
    }

    /// The value of the remark whose name is the lower case of `line`.
    pub open spec fn comment_value(self, line: Seq<char>) -> Option<Seq<char>> {
        match comment_index(self.comments, lowercased(line), 0) {
            Some(i) => Some(self.comments[i].1),
            None => None,
        }
    }

    /// Where the track at `index` begins, in seconds; -1 where there is no
    /// such track or its begin is no time.
    pub open spec fn get_track_start(self, index: int) -> i32 {
        if 0 <= index < self.tracks.len() {
            self.tracks[index].begin_time_in_seconds()
        } else {
            -1i32
        }
    }
}

impl Cuesheet {
    /// The track at `index`, if there is one.
    pub fn get_track_at_index(&self, index: usize) -> (r: Option<&CuesheetTrack>)
        ensures
            r is Some <==> index < self@.tracks.len(),
            r matches Some(track) ==> track@ == self@.tracks[index as int],
    {
        if index >= self.tracks.len() {
            return None;
        }
        Some(&self.tracks[index])
    }

    /// The property of this name.
    pub fn get_property(&self, key: &str) -> (r: Option<&str>)
        ensures
            match r {
                Some(value) => self@.get_property(key@) == Some(value@),
                None => self@.get_property(key@) is None,
            },
    {
        let name: String = to_ascii_lowercase(key);
        if str_eq(name.as_str(), "file_name") {
            Some(self.file_name.as_str())
        } else if str_eq(name.as_str(), "file_type") {
            Some(self.file_type.as_str())
        } else if str_eq(name.as_str(), "performer") {
            Some(self.performer.as_str())
        } else if str_eq(name.as_str(), "title") {
            Some(self.title.as_str())
        } else {
            None
        }
    }

    /// The property of the track at `index`.
    pub fn track_property(&self, index: usize, line: &str) -> (r: Option<String>)
        ensures
            match r {
                Some(value) => self@.track_property(index as int, line@) == Some(value@),
                None => self@.track_property(index as int, line@) is None,
            },
    {
        match self.get_track_at_index(index) {
            Some(track) => track.get_property(line),
            None => None,
        }
    }

    /// The number of tracks.
    pub fn tracks_number(&self) -> (n: usize)
        ensures
            n == self@.tracks.len(),
    {
        self.tracks.len()
    }

    /// The index of the first remark of this name.
    fn find_comment(&self, name: &str) -> (r: Option<usize>)
        ensures
            match r {
                Some(i) => comment_index(self@.comments, name@, 0) == Some(i as int) && i
                    < self.comments@.len(),
                None => comment_index(self@.comments, name@, 0) is None,
            },
    {
        let mut i: usize = 0;
        while i < self.comments.len()
            invariant
                i <= self.comments@.len(),
                comment_index(self@.comments, name@, i as int) == comment_index(
                    self@.comments,
                    name@,
                    0,
                ),
            decreases self.comments@.len() - i,
        {
            if str_eq(self.comments[i].0.as_str(), name) {
                return Some(i);
            }
            i = i + 1;
        }
        None
    }

    /// The value of a remark.
    pub fn comment_value(&self, line: &str) -> (r: Option<&str>)
        ensures
            match r {
                Some(value) => self@.comment_value(line@) == Some(value@),
                None => self@.comment_value(line@) is None,
            },
    {
        let name: String = to_lowercase(line);
        match self.find_comment(name.as_str()) {
            Some(i) => Some(self.comments[i].1.as_str()),
            None => None,
        }
    }

    /// Notes a remark under its name.
    pub fn set_comment(&mut self, name: String, value: String)
        ensures
            final(self)@ == (CuesheetView {
                comments: comments_with(old(self)@.comments, name@, value@),
                ..old(self)@
            }),
            old(self)@.well_formed() ==> final(self)@.well_formed(),
    {
        proof {
            if self@.well_formed() {
                lemma_comments_with_distinct(self@.comments, name@, value@);
            }
        }
        let ghost before: Seq<(Seq<char>, Seq<char>)> = comments_view(self.comments@);
        match self.find_comment(name.as_str()) {
            Some(i) => {
                self.comments.set(i, (name, value));
                assert(comments_view(self.comments@) =~= before.update(
                    i as int,
                    (name@, value@),
                ));
            },
            None => {
                self.comments.push((name, value));
                assert(comments_view(self.comments@) =~= before.push((name@, value@)));
            },
        }
    }

    /// Where the track at `index` begins, in seconds.
    pub fn get_track_start(&self, index: usize) -> (r: i32)
        ensures
            r == self@.get_track_start(index as int),
    {
        match self.get_track_at_index(index) {
            Some(track) => track.begin_time_in_seconds(),
            None => -1,
        }
    }
}

/// The status that tells success.
pub const VLC_SUCCESS: i32 = 0;

/// An item with a piece of metadata, if there is a value for it.
pub open spec fn with_meta_if(item: CInputItemView, meta_type: MetaType, value: Option<Seq<char>>)
    -> CInputItemView {
    match value {
        Some(value) => item.with_meta(meta_type, value),
        None => item,
    }
}

impl CuesheetView {
    /// The options of the item of the track at `idx`: where to start, and,
    /// for every track but the last, where to stop, which is where the next
    /// track starts.
    pub open spec fn options(self, idx: int) -> Seq<Seq<char>> {
        let start = seq![":start-time="@ + signed_decimal(self.get_track_start(idx) as int)];
        if idx < self.tracks.len() - 1 {
            start.push(":stop-time="@ + signed_decimal(self.get_track_start(idx + 1) as int))
        } else {
            start
        }
    }

    /// The playlist item of the track at `idx`.
    ///
    /// The item lies at `url` and is named by the title of the track. It
    /// carries, in this order: the title and the performer of the cue sheet
    /// as title and album artist; the remarks `comment`, `date` and `genre`,
    /// where the cue sheet has them, as description, date and genre; the
    /// number of the track; the performer of the track as artist. Its options
    /// are trusted.
    pub open spec fn item(self, url: Seq<char>, idx: int) -> CInputItemView {
        let track = self.tracks[idx];
        let named = CInputItemView::fresh(
            url,
            track.item_title,
            0,
            ItemType::File,
            NetType::Unknown,
        ).with_meta(MetaType::Title, self.title).with_meta(MetaType::AlbumArtist, self.performer);
        let remarked = with_meta_if(
            with_meta_if(
                with_meta_if(named, MetaType::Description, self.comment_value("COMMENT"@)),
                MetaType::Date,
                self.comment_value("DATE"@),
            ),
            MetaType::Genre,
            self.comment_value("GENRE"@),
        );
        remarked.with_meta(
            MetaType::TrackNumber,
            decimal(track.item_position as nat),
        ).with_meta(MetaType::Artist, track.item_performer).with_options(
            self.options(idx),
            VLC_INPUT_OPTION_TRUSTED,
        )
    }

    /// The playlist items of the first `n` tracks, in the order of the tracks.
    pub open spec fn items(self, url: Seq<char>, n: int) -> Seq<CInputItemView>
        decreases n,
    {
        if n <= 0 {
            Seq::empty()
        } else {
            self.items(url, n - 1).push(self.item(url, n - 1))
        }
    }
}

impl Cuesheet {
    /// An option: a name and a time.
    fn time_option(name: &str, time: i32) -> (option: String)
        ensures
            option@ == name@ + signed_decimal(time as int),
    {
        let mut option: String = name.to_owned();
        push_signed_decimal(&mut option, time as i64);
        option
    }

    /// The playlist item of the track at `idx`.
    fn item(&self, url: &str, idx: usize) -> (item: CInputItem)
        requires
            idx < self@.tracks.len(),
        ensures
            item@ == self@.item(url@, idx as int),
    {
        let tracks: usize = self.tracks.len();
        let track: &CuesheetTrack = &self.tracks[idx];
        let mut item: CInputItem = CInputItem::new(
            url,
            track.item_title.as_str(),
            0,
            ItemType::File,
            NetType::Unknown,
        );
        item.set_meta(MetaType::Title, self.title.as_str());
        item.set_meta(MetaType::AlbumArtist, self.performer.as_str());
        match self.comment_value("COMMENT") {
            Some(description) => item.set_meta(MetaType::Description, description),
            None => {},
        }
        match self.comment_value("DATE") {
            Some(date) => item.set_meta(MetaType::Date, date),
            None => {},
        }
        match self.comment_value("GENRE") {
            Some(genre) => item.set_meta(MetaType::Genre, genre),
            None => {},
        }
        let mut index: String = String::new();
        push_decimal(&mut index, track.item_position as u64);
        assert(Seq::<char>::empty() + decimal(track.item_position as nat) =~= decimal(
            track.item_position as nat,
        ));
        item.set_meta(MetaType::TrackNumber, index.as_str());
        item.set_meta(MetaType::Artist, track.item_performer.as_str());

        let mut options: Vec<String> = Vec::new();
        options.push(Self::time_option(":start-time=", self.get_track_start(idx)));
        if idx < tracks - 1 {
            options.push(Self::time_option(":stop-time=", self.get_track_start(idx + 1)));
        }
        assert(texts(options@) =~= self@.options(idx as int));
        item.add_options(options, VLC_INPUT_OPTION_TRUSTED);
        item
    }

    /// Adds one playlist item for each track to `subitems`, in the order of
    /// the tracks. `url` is where the audio file of the cue sheet lies.
    pub fn read_dir(&self, subitems: &mut CInputItemNode, url: &str) -> (r: i32)
        ensures
            r == VLC_SUCCESS,
            final(subitems)@ == old(subitems)@ + self@.items(url@, self@.tracks.len() as int),
    {
        let tracks: usize = self.tracks_number();
        let mut idx: usize = 0;
        assert(subitems@ + self@.items(url@, 0) =~= subitems@);
        while idx < tracks
            invariant
                idx <= tracks,
                tracks == self@.tracks.len(),
                subitems@ == old(subitems)@ + self@.items(url@, idx as int),
            decreases tracks - idx,
        {
            let ghost before: Seq<CInputItemView> = subitems@;
            let item: CInputItem = self.item(url, idx);
            subitems.append_item(item);
            assert(before.push(item@) =~= old(subitems)@ + self@.items(url@, idx as int + 1));
            idx = idx + 1;
        }
        VLC_SUCCESS
    }
}

} // verus!
