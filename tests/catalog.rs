use song_importer::keyset::{bytes_equal, KeySet};
use song_importer::path::{copy_bytes, normalize};
use song_importer::reconcile::{plan_reconciliation, summarize, ReconcileSummary};
use song_importer::record::{
    extract, AssetField, AssetSource, CatalogRecord, ExtractionError, SongDescription, SongHeader,
    StreamTiming,
};
use song_importer::song::{assemble_lyrics, player_count, Note, SongLine};
use song_importer::walk::{entry_action, is_description_file_name, EntryAction, EntryKind, ScanState};

fn comps(parts: &[&str]) -> Vec<Vec<u8>> {
    parts.iter().map(|p| p.as_bytes().to_vec()).collect()
}

fn text_note(t: &str) -> Note {
    Note::Regular { text: t.to_string() }
}

fn line(notes: Vec<Note>) -> SongLine {
    SongLine { notes }
}

fn header(audio: AssetSource, cover: Option<AssetSource>) -> SongHeader {
    SongHeader {
        title: "  Title ".to_string(),
        artist: "\tArtist\n".to_string(),
        language: Some(" English ".to_string()),
        year: Some(1999),
        audio,
        cover,
    }
}

fn local(parts: &[&str]) -> AssetSource {
    AssetSource::Local { components: comps(parts) }
}

fn remote() -> AssetSource {
    AssetSource::Remote { location: "https://example.com/a.mp3".to_string() }
}

fn song(audio: AssetSource, cover: Option<AssetSource>, lines: Vec<SongLine>) -> SongDescription {
    SongDescription { header: header(audio, cover), lines }
}

fn timing() -> StreamTiming {
    StreamTiming { ticks: 441000, time_base_num: 1, time_base_den: 44100 }
}

fn keys(ks: &[&str]) -> KeySet {
    let mut s = KeySet::new();
    for k in ks {
        s.insert(k.as_bytes().to_vec());
    }
    s
}

fn run(existing: &KeySet, observed: &KeySet) -> ReconcileSummary {
    let plan = plan_reconciliation(existing, observed);
    let changes = vec![1usize; plan.to_remove.len()];
    summarize(existing.len(), &plan, &changes)
}

fn ok_record(r: Result<CatalogRecord, ExtractionError>) -> CatalogRecord {
    match r {
        Ok(rec) => rec,
        Err(e) => panic!("unexpected extraction error {:?}", e),
    }
}

#[test]
fn normalize_keeps_absolute_path() {
    assert_eq!(normalize(&comps(&["/", "music", "a.mp3"]), 0), b"/music/a.mp3".to_vec());
}

#[test]
fn normalize_strips_leading_components() {
    assert_eq!(normalize(&comps(&["/", "srv", "music", "a.mp3"]), 2), b"music/a.mp3".to_vec());
}

#[test]
fn normalize_relative_path() {
    assert_eq!(normalize(&comps(&["x", "y"]), 0), b"x/y".to_vec());
}

#[test]
fn normalize_strip_beyond_length_is_empty() {
    assert_eq!(normalize(&comps(&["/", "a"]), 5), Vec::<u8>::new());
    assert_eq!(normalize(&comps(&["/", "a"]), 2), Vec::<u8>::new());
}

#[test]
fn normalize_keeps_non_utf8_bytes() {
    let cs = vec![vec![0xffu8, 0xfe], vec![b'z']];
    assert_eq!(normalize(&cs, 0), vec![0xffu8, 0xfe, b'/', b'z']);
}

#[test]
fn copy_and_compare_bytes() {
    let a = b"abc".to_vec();
    assert_eq!(copy_bytes(&a), a);
    assert!(bytes_equal(&a, &b"abc".to_vec()));
    assert!(!bytes_equal(&a, &b"abd".to_vec()));
    assert!(!bytes_equal(&a, &b"ab".to_vec()));
}

#[test]
fn player_count_two_when_marker_for_player_two() {
    let lines = vec![
        line(vec![text_note("a")]),
        line(vec![Note::PlayerChange { player: 2 }, text_note("b")]),
    ];
    assert_eq!(player_count(&lines), 2);
}

#[test]
fn player_count_one_without_marker_for_player_two() {
    let lines = vec![
        line(vec![Note::PlayerChange { player: 1 }, text_note("a")]),
        line(vec![Note::PlayerChange { player: 3 }]),
    ];
    assert_eq!(player_count(&lines), 1);
    assert_eq!(player_count(&Vec::new()), 1);
}

#[test]
fn lyrics_skip_marker_only_line() {
    let lines = vec![
        line(vec![text_note("ab")]),
        line(vec![text_note("cd")]),
        line(vec![Note::PlayerChange { player: 2 }]),
        line(vec![text_note("ef")]),
    ];
    assert_eq!(assemble_lyrics(&lines), "ab\ncd\nef");
}

#[test]
fn lyrics_concatenate_all_text_kinds_and_trim() {
    let lines = vec![
        line(vec![
            Note::Regular { text: " Hel".to_string() },
            Note::Golden { text: "lo ".to_string() },
            Note::PlayerChange { player: 1 },
            Note::Freestyle { text: "you  ".to_string() },
        ]),
        line(vec![text_note("\u{3000}end\t")]),
    ];
    assert_eq!(assemble_lyrics(&lines), "Hello you\nend");
}

#[test]
fn lyrics_of_no_lines_is_empty() {
    assert_eq!(assemble_lyrics(&Vec::new()), "");
}

#[test]
fn extract_builds_full_record() {
    let s = song(
        local(&["/", "srv", "songs", "a.mp3"]),
        Some(local(&["/", "srv", "songs", "a.jpg"])),
        vec![line(vec![text_note(" la ")]), line(vec![Note::PlayerChange { player: 2 }])],
    );
    let rec = ok_record(extract(Some(b"/srv/songs/a.txt".to_vec()), Ok(s), Some(timing()), 2));
    assert_eq!(rec.path, b"/srv/songs/a.txt".to_vec());
    assert_eq!(rec.title, "Title");
    assert_eq!(rec.artist, "Artist");
    assert_eq!(rec.language, Some("English".to_string()));
    assert_eq!(rec.year, Some(1999));
    assert_eq!(rec.duration, timing());
    assert_eq!(rec.lyrics, "la");
    assert_eq!(rec.player_count, 2);
    assert_eq!(rec.cover_path, Some(b"songs/a.jpg".to_vec()));
    assert_eq!(rec.audio_path, b"songs/a.mp3".to_vec());
}

#[test]
fn extract_without_cover_or_language() {
    let mut s = song(local(&["/", "a.mp3"]), None, vec![]);
    s.header.language = None;
    s.header.year = None;
    let rec = ok_record(extract(Some(b"/a.txt".to_vec()), Ok(s), Some(timing()), 0));
    assert_eq!(rec.cover_path, None);
    assert_eq!(rec.language, None);
    assert_eq!(rec.year, None);
    assert_eq!(rec.player_count, 1);
    assert_eq!(rec.audio_path, b"/a.mp3".to_vec());
}

#[test]
fn extract_unresolved_path_fails() {
    let s = song(local(&["/", "a.mp3"]), None, vec![]);
    let r = extract(None, Ok(s), Some(timing()), 0);
    assert!(matches!(r, Err(ExtractionError::PathResolution)));
}

#[test]
fn extract_parse_failure_keeps_detail() {
    let r = extract(Some(b"/a.txt".to_vec()), Err("bad line 3".to_string()), None, 0);
    match r {
        Err(ExtractionError::ParseFailure(d)) => assert_eq!(d, "bad line 3"),
        _ => panic!("expected a parse failure"),
    }
}

#[test]
fn extract_rejects_remote_audio() {
    let s = song(remote(), None, vec![line(vec![text_note("x")])]);
    let r = extract(Some(b"/a.txt".to_vec()), Ok(s), Some(timing()), 0);
    assert!(matches!(r, Err(ExtractionError::UnsupportedRemoteAsset(AssetField::Audio))));
}

#[test]
fn extract_rejects_remote_cover() {
    let s = song(local(&["/", "a.mp3"]), Some(remote()), vec![]);
    let r = extract(Some(b"/a.txt".to_vec()), Ok(s), Some(timing()), 0);
    assert!(matches!(r, Err(ExtractionError::UnsupportedRemoteAsset(AssetField::Cover))));
}

#[test]
fn extract_missing_probe_fails() {
    let s = song(local(&["/", "a.mp3"]), None, vec![]);
    let r = extract(Some(b"/a.txt".to_vec()), Ok(s), None, 0);
    assert!(matches!(r, Err(ExtractionError::MediaProbeFailure)));
}

#[test]
fn extract_unknown_duration_fails() {
    let s = song(local(&["/", "a.mp3"]), None, vec![]);
    let bad = StreamTiming { ticks: i64::MIN, time_base_num: 1, time_base_den: 1000 };
    assert!(!bad.is_valid());
    let r = extract(Some(b"/a.txt".to_vec()), Ok(s), Some(bad), 0);
    assert!(matches!(r, Err(ExtractionError::MediaProbeFailure)));
}

#[test]
fn description_file_names() {
    assert!(is_description_file_name(&b"song.txt".to_vec()));
    assert!(is_description_file_name(&b"..txt".to_vec()));
    assert!(!is_description_file_name(&b".txt".to_vec()));
    assert!(!is_description_file_name(&b"song.TXT".to_vec()));
    assert!(!is_description_file_name(&b"song.mp3".to_vec()));
    assert!(!is_description_file_name(&b"txt".to_vec()));
}

#[test]
fn entry_actions() {
    let n = b"a.txt".to_vec();
    assert_eq!(entry_action(EntryKind::Directory, &n), EntryAction::Descend);
    assert_eq!(entry_action(EntryKind::SymlinkToDirectory, &n), EntryAction::Descend);
    assert_eq!(entry_action(EntryKind::RegularFile, &n), EntryAction::Extract);
    assert_eq!(entry_action(EntryKind::RegularFile, &b"a.mp3".to_vec()), EntryAction::Skip);
    assert_eq!(entry_action(EntryKind::SymlinkToOther, &n), EntryAction::Skip);
    assert_eq!(entry_action(EntryKind::Other, &n), EntryAction::Skip);
}

#[test]
fn scan_isolates_failures() {
    let mut scan = ScanState::new();
    assert!(scan.record_write(b"/songs/good.txt".to_vec(), 1));
    scan.record_failure();
    assert_eq!(scan.failures(), 1);
    assert_eq!(scan.write_warnings(), 0);
    assert_eq!(scan.observed().len(), 1);
    assert!(scan.observed().contains(&b"/songs/good.txt".to_vec()));
    let summary = run(&KeySet::new(), scan.observed());
    assert_eq!(summary, ReconcileSummary { added: 1, removed: 0, total: 1 });
}

#[test]
fn scan_failed_write_is_not_observed() {
    let mut scan = ScanState::new();
    assert!(!scan.record_write(b"/a.txt".to_vec(), 0));
    assert_eq!(scan.write_warnings(), 1);
    assert_eq!(scan.observed().len(), 0);
}

#[test]
fn keyset_counts_repeats_once() {
    let rows = vec![b"a".to_vec(), b"b".to_vec(), b"a".to_vec()];
    let s = KeySet::from_rows(&rows);
    assert_eq!(s.len(), 2);
    assert!(s.contains(&b"b".to_vec()));
    assert!(!s.contains(&b"c".to_vec()));
    assert_eq!(s.keys().len(), 2);
}

#[test]
fn first_run_adds_everything() {
    let observed = keys(&["/s/a.txt", "/s/b.txt", "/s/c.txt"]);
    let summary = run(&KeySet::new(), &observed);
    assert_eq!(summary, ReconcileSummary { added: 3, removed: 0, total: 3 });
}

#[test]
fn second_run_is_quiet() {
    let existing = keys(&["/s/a.txt", "/s/old.txt"]);
    let observed = keys(&["/s/a.txt", "/s/b.txt"]);
    let first = run(&existing, &observed);
    assert_eq!(first, ReconcileSummary { added: 1, removed: 1, total: 2 });
    let second = run(&observed, &observed);
    assert_eq!(second, ReconcileSummary { added: 0, removed: 0, total: 2 });
}

#[test]
fn deleted_file_is_removed() {
    let existing = keys(&["/s/a.txt", "/s/b.txt"]);
    let observed = keys(&["/s/a.txt"]);
    let plan = plan_reconciliation(&existing, &observed);
    assert_eq!(plan.added, 0);
    assert_eq!(plan.to_remove, vec![b"/s/b.txt".to_vec()]);
    let summary = summarize(existing.len(), &plan, &vec![1]);
    assert_eq!(summary, ReconcileSummary { added: 0, removed: 1, total: 1 });
}

#[test]
fn failed_deletion_is_not_counted() {
    let existing = keys(&["/s/a.txt", "/s/b.txt"]);
    let observed = KeySet::new();
    let plan = plan_reconciliation(&existing, &observed);
    assert_eq!(plan.to_remove.len(), 2);
    let summary = summarize(existing.len(), &plan, &vec![1, 0]);
    assert_eq!(summary, ReconcileSummary { added: 0, removed: 1, total: 1 });
}
