use vlcrs_demux::cuesheet::cuesheet::{add_to_start_time, Cuesheet, CuesheetTrack};
use vlcrs_demux::cuesheet::parse::{parse_line, split_words};
use vlcrs_demux::input_item::{CInputItemNode, ItemType, MetaType, NetType};

fn sheet_of(lines: &[&str]) -> Cuesheet {
    let mut sheet = Cuesheet::default();
    for line in lines {
        assert_eq!(sheet.process_line(line), Some(()));
    }
    sheet
}

const SAMPLE: [&str; 13] = [
    "REM GENRE Rock",
    "REM DATE 1999",
    "REM COMMENT \"ripped at home\"",
    "PERFORMER \"The Band\"",
    "TITLE \"Live in Berlin\"",
    "FILE \"Live in Berlin.mp3\" MP3",
    "  TRACK 01 AUDIO",
    "    TITLE \"First Song\"",
    "    PERFORMER \"The Singer\"",
    "    INDEX 01 00:00:00",
    "  TRACK 02 AUDIO",
    "    TITLE \"Second Song\"",
    "    INDEX 01 03:25:74",
];

#[test]
fn test_parse_line_alt() {
    let parts = parse_line("FILE \"Live in Berlin\" MP3");
    assert_eq!(3, parts.len());
    assert_eq!("FILE", parts[0]);
    assert_eq!("Live in Berlin", parts[1]);
    assert_eq!("MP3", parts[2]);
}

#[test]
fn parse_line_drops_mark_and_outer_blanks() {
    let parts = parse_line("\u{feff}\u{feff}  \tTITLE  x \r\n");
    assert_eq!(parts, vec!["TITLE", "", "x"]);
}

#[test]
fn parse_line_of_nothing_is_one_empty_word() {
    assert_eq!(parse_line(""), vec![""]);
    assert_eq!(parse_line("   "), vec![""]);
}

#[test]
fn parse_line_keeps_blanks_within_quotes() {
    assert_eq!(parse_line("A \" b  c \" d"), vec!["A", " b  c ", "d"]);
    assert_eq!(parse_line("ab\"cd ef\"gh"), vec!["abcd efgh"]);
    assert_eq!(parse_line("x \"open"), vec!["x", "open"]);
}

#[test]
fn parse_line_uses_unicode_white_space() {
    // U+00A0 and U+3000 are white space, U+200B is not.
    assert_eq!(parse_line("a\u{a0}b\u{3000}c\u{200b}d"), vec!["a", "b", "c\u{200b}d"]);
}

#[test]
fn head_lines_fill_the_sheet() {
    let sheet = sheet_of(&SAMPLE[..6]);
    assert_eq!(sheet.file_name, "Live in Berlin.mp3");
    assert_eq!(sheet.file_type, "MP3");
    assert_eq!(sheet.title, "Live in Berlin");
    assert_eq!(sheet.performer, "The Band");
    assert!(!sheet.is_processing_tracks);
    assert_eq!(sheet.tracks_number(), 0);
    assert_eq!(sheet.comment_value("GENRE"), Some("Rock"));
    assert_eq!(sheet.comment_value("genre"), Some("Rock"));
    assert_eq!(sheet.comment_value("comment"), Some("ripped at home"));
    assert_eq!(sheet.comment_value("label"), None);
}

#[test]
fn a_later_remark_replaces_an_earlier_one() {
    let sheet = sheet_of(&["REM Date 1999", "REM DATE 2001", "REM ÄRGER x"]);
    assert_eq!(sheet.comment_value("date"), Some("2001"));
    assert_eq!(sheet.comments.len(), 2);
    assert_eq!(sheet.comment_value("ärger"), Some("x"));
}

#[test]
fn track_lines_fill_the_tracks() {
    let sheet = sheet_of(&SAMPLE);
    assert!(sheet.is_processing_tracks);
    assert_eq!(sheet.tracks_number(), 2);
    let first = sheet.get_track_at_index(0).unwrap();
    assert_eq!(first.item_position, 1);
    assert_eq!(first.item_type, "AUDIO");
    assert_eq!(first.item_title, "First Song");
    assert_eq!(first.item_performer, "The Singer");
    assert_eq!(first.item_begin_duration, "00:00:00");
    let second = sheet.get_track_at_index(1).unwrap();
    assert_eq!(second.item_position, 2);
    assert_eq!(second.item_title, "Second Song");
    assert_eq!(second.item_performer, "");
    assert_eq!(second.item_begin_duration, "03:25:74");
    assert!(sheet.get_track_at_index(2).is_none());
    // the head is closed: the title of the sheet stays
    assert_eq!(sheet.title, "Live in Berlin");
}

#[test]
fn lines_that_cannot_be_taken() {
    let mut sheet = Cuesheet::default();
    assert_eq!(sheet.process_line("FILE only"), None);
    assert_eq!(sheet.file_name, "");
    assert_eq!(sheet.process_line("TITLE"), None);
    assert_eq!(sheet.process_line("REM GENRE"), None);
    assert_eq!(sheet.process_line("UNHEARD OF"), Some(()));
    assert_eq!(sheet.process_line("TRACK x AUDIO"), None);
    assert!(sheet.is_processing_tracks);
    assert_eq!(sheet.tracks_number(), 0);
    // among the tracks, without a track
    assert_eq!(sheet.process_line("TITLE \"nobody's\""), None);
    assert_eq!(sheet.process_line("TRACK 256 AUDIO"), None);
    assert_eq!(sheet.process_line("TRACK 255"), None);
    assert_eq!(sheet.process_line("TRACK +255 AUDIO"), Some(()));
    assert_eq!(sheet.get_track_at_index(0).unwrap().item_position, 255);
    // what the track makes of a line does not count
    assert_eq!(sheet.process_line("INDEX one 00:00:00"), Some(()));
    assert_eq!(sheet.get_track_at_index(0).unwrap().item_begin_duration, "");
}

#[test]
fn process_track_takes_its_three_keywords() {
    let mut track = CuesheetTrack::default();
    assert_eq!(track.process_track("TITLE \"A B\""), Some(()));
    assert_eq!(track.process_track("PERFORMER C"), Some(()));
    assert_eq!(track.process_track("INDEX 00 00:01:00"), Some(()));
    assert_eq!(track.item_begin_duration, "");
    assert_eq!(track.process_track("INDEX 01 00:02:00"), Some(()));
    assert_eq!(track.item_begin_duration, "00:02:00");
    assert_eq!(track.process_track("INDEX 1 00:03:00"), Some(()));
    assert_eq!(track.item_begin_duration, "00:03:00");
    assert_eq!(track.process_track("FLAGS DCP"), Some(()));
    assert_eq!(track.item_title, "A B");
    assert_eq!(track.item_performer, "C");
    assert_eq!(track.process_track("INDEX"), None);
    assert_eq!(track.process_track("INDEX 300 00:00:00"), None);
    assert_eq!(track.process_track("INDEX -1 00:00:00"), None);
    assert_eq!(track.process_track("INDEX 01"), None);
    assert_eq!(track.process_track("TITLE"), None);
    assert_eq!(track.item_begin_duration, "00:03:00");
}

fn begin(text: &str) -> i32 {
    let mut track = CuesheetTrack::default();
    track.item_begin_duration = text.to_string();
    track.begin_time_in_seconds()
}

#[test]
fn begin_time_counts_minutes_seconds_frames() {
    assert_eq!(begin("00:00:00"), 0);
    assert_eq!(begin("03:25:74"), 205);
    assert_eq!(begin("03:25:75"), 206);
    assert_eq!(begin("01:02:150"), 64);
    assert_eq!(begin("99:59:00"), 5999);
    assert_eq!(begin("7:01:02:03"), 62);
    assert_eq!(begin("+1:+2:+3"), 62);
}

#[test]
fn begin_time_that_is_no_time() {
    assert_eq!(begin(""), -1);
    assert_eq!(begin("12"), -1);
    assert_eq!(begin("02:03"), -1);
    assert_eq!(begin("a:02:03"), -1);
    assert_eq!(begin("01:b:03"), -1);
    assert_eq!(begin("01:02:c"), -1);
    assert_eq!(begin("01::03"), -1);
    assert_eq!(begin("01:02:"), -1);
    assert_eq!(begin("01:02: 3"), -1);
    assert_eq!(begin("01:02:4294967296"), -1);
}

#[test]
fn begin_time_at_the_edges_of_32_bits() {
    // 35791394 * 60 = 2147483640
    assert_eq!(begin("35791394:7:0"), 2147483647);
    assert_eq!(begin("35791394:8:0"), -1);
    assert_eq!(begin("35791395:0:0"), -1);
    // a field beyond i32::MAX is read as a negative number
    assert_eq!(begin("0:4294967295:150"), 1);
    assert_eq!(begin("0:2147483648:0"), -2147483648);
    assert_eq!(begin("0:2147483648:4294967295"), -2147483648 + 57266230);
}

#[test]
fn add_to_start_time_adds_a_scaled_field() {
    assert_eq!(add_to_start_time(10, Some("5"), 60), Some(310));
    assert_eq!(add_to_start_time(10, Some("05"), 1), Some(15));
    assert_eq!(add_to_start_time(10, None, 1), None);
    assert_eq!(add_to_start_time(10, Some(""), 1), None);
    assert_eq!(add_to_start_time(10, Some("+"), 1), None);
    assert_eq!(add_to_start_time(10, Some("1e3"), 1), None);
    assert_eq!(add_to_start_time(1, Some("2147483647"), 1), None);
    assert_eq!(add_to_start_time(0, Some("2147483647"), 1), Some(2147483647));
    assert_eq!(add_to_start_time(0, Some("4294967295"), 60), Some(-60));
}

#[test]
fn track_properties_by_name() {
    let sheet = sheet_of(&SAMPLE);
    assert_eq!(sheet.track_property(0, "TITLE"), Some("First Song".to_string()));
    assert_eq!(sheet.track_property(0, "Performer"), Some("The Singer".to_string()));
    assert_eq!(sheet.track_property(1, "position"), Some("2".to_string()));
    assert_eq!(sheet.track_property(1, "TYPE"), Some("AUDIO".to_string()));
    assert_eq!(sheet.track_property(1, "BEGIN_DURATION"), Some("03:25:74".to_string()));
    assert_eq!(sheet.track_property(1, "begin duration"), None);
    assert_eq!(sheet.track_property(2, "TITLE"), None);
    let mut track = CuesheetTrack::default();
    track.item_position = 255;
    assert_eq!(track.get_property("POSITION"), Some("255".to_string()));
    track.item_position = 0;
    assert_eq!(track.get_property("POSITION"), Some("0".to_string()));
    track.item_position = 100;
    assert_eq!(track.get_property("PoSiTiOn"), Some("100".to_string()));
}

#[test]
fn sheet_properties_by_name() {
    let sheet = sheet_of(&SAMPLE);
    assert_eq!(sheet.get_property("FILE_NAME"), Some("Live in Berlin.mp3"));
    assert_eq!(sheet.get_property("file_type"), Some("MP3"));
    assert_eq!(sheet.get_property("Performer"), Some("The Band"));
    assert_eq!(sheet.get_property("TITLE"), Some("Live in Berlin"));
    assert_eq!(sheet.get_property("TİTLE"), None);
    assert_eq!(sheet.get_property("genre"), None);
}

#[test]
fn track_starts() {
    let sheet = sheet_of(&SAMPLE);
    assert_eq!(sheet.get_track_start(0), 0);
    assert_eq!(sheet.get_track_start(1), 205);
    assert_eq!(sheet.get_track_start(2), -1);
}

#[test]
fn read_dir_makes_one_item_for_each_track() {
    let sheet = sheet_of(&SAMPLE);
    let mut node = CInputItemNode::new();
    assert_eq!(sheet.read_dir(&mut node, "file:///music/Live%20in%20Berlin.mp3"), 0);
    assert_eq!(node.items.len(), 2);

    let first = &node.items[0];
    assert_eq!(first.uri, "file:///music/Live%20in%20Berlin.mp3");
    assert_eq!(first.name, "First Song");
    assert_eq!(first.duration, 0);
    assert_eq!(first.item_type, ItemType::File);
    assert_eq!(first.net_type, NetType::Unknown);
    assert_eq!(
        first.metas,
        vec![
            (MetaType::Title, "Live in Berlin".to_string()),
            (MetaType::AlbumArtist, "The Band".to_string()),
            (MetaType::Description, "ripped at home".to_string()),
            (MetaType::Date, "1999".to_string()),
            (MetaType::Genre, "Rock".to_string()),
            (MetaType::TrackNumber, "1".to_string()),
            (MetaType::Artist, "The Singer".to_string()),
        ]
    );
    assert_eq!(
        first.options,
        vec![(":start-time=0".to_string(), 2), (":stop-time=205".to_string(), 2)]
    );

    let second = &node.items[1];
    assert_eq!(second.name, "Second Song");
    assert_eq!(second.options, vec![(":start-time=205".to_string(), 2)]);
    assert_eq!(second.metas[5], (MetaType::TrackNumber, "2".to_string()));
    assert_eq!(second.metas[6], (MetaType::Artist, "".to_string()));
}

#[test]
fn read_dir_without_remarks_and_with_a_begin_that_is_no_time() {
    let sheet = sheet_of(&["FILE a.flac WAVE", "TRACK 07 AUDIO", "TITLE T"]);
    let mut node = CInputItemNode::new();
    assert_eq!(sheet.read_dir(&mut node, "a.flac"), 0);
    assert_eq!(node.items.len(), 1);
    assert_eq!(
        node.items[0].metas,
        vec![
            (MetaType::Title, "".to_string()),
            (MetaType::AlbumArtist, "".to_string()),
            (MetaType::TrackNumber, "7".to_string()),
            (MetaType::Artist, "".to_string()),
        ]
    );
    assert_eq!(node.items[0].options, vec![(":start-time=-1".to_string(), 2)]);
}

#[test]
fn read_dir_of_a_sheet_without_tracks_adds_nothing() {
    let sheet = sheet_of(&SAMPLE[..6]);
    let mut node = CInputItemNode::new();
    assert_eq!(sheet.read_dir(&mut node, "x"), 0);
    assert!(node.items.is_empty());
}

fn split_by(line: &str, blank: impl Fn(char) -> bool) -> Vec<String> {
    let chars: Vec<char> = line.chars().collect();
    let flags: Vec<bool> = chars.iter().map(|c| blank(*c)).collect();
    split_words(&chars, &flags)
}

#[test]
fn split_words_follows_the_classification_it_is_given() {
    assert_eq!(
        split_by("FILE \"Live in Berlin\" MP3", |c| c == ' '),
        vec!["FILE", "Live in Berlin", "MP3"]
    );
    // another classification, another split
    assert_eq!(split_by("xxaxbx cxx", |c| c == 'x'), vec!["a", "b", " c"]);
    assert_eq!(split_by(" a b ", |_| false), vec![" a b "]);
    assert_eq!(split_by("a b", |_| true), vec![""]);
    assert_eq!(split_by("\u{feff} \u{feff}a", |c| c == ' '), vec!["\u{feff}a"]);
    assert_eq!(split_by("", |c| c == ' '), vec![""]);
}

#[test]
fn split_words_takes_missing_flags_as_no_white_space() {
    let chars: Vec<char> = "a b c".chars().collect();
    assert_eq!(split_words(&chars, &[false, true]), vec!["a", "b c"]);
    assert_eq!(split_words(&chars, &[]), vec!["a b c"]);
    assert_eq!(
        split_words(&chars, &[false, true, false, true, false, true, true]),
        vec!["a", "b", "c"]
    );
}

#[test]
fn split_words_agrees_with_parse_line() {
    for line in ["FILE \"Live in Berlin\" MP3", "\u{feff}  REM  a\tb \r\n", "x \"y z", ""] {
        assert_eq!(split_by(line, |c| c.is_whitespace()), parse_line(line));
    }
}

#[test]
fn remark_names_stay_distinct() {
    let sheet = sheet_of(&[
        "REM GENRE Rock",
        "REM DATE 1999",
        "REM genre Pop",
        "REM Date 2001",
        "REM GENRE Jazz",
        "REM COMMENT c",
    ]);
    let names: Vec<&str> = sheet.comments.iter().map(|pair| pair.0.as_str()).collect();
    assert_eq!(names, vec!["genre", "date", "comment"]);
    assert_eq!(sheet.comment_value("GENRE"), Some("Jazz"));
    assert_eq!(sheet.comment_value("DATE"), Some("2001"));
}
