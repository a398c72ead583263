use oxideo_organizer::cli::Cli;
use oxideo_organizer::counter::{Counter, Counters};
use oxideo_organizer::metadata::extract_timestamp;
use oxideo_organizer::organizer::{Entry, Organizer};

/// A minimal little-endian TIFF holding one Exif IFD whose only field is
/// DateTimeOriginal with the given 19-byte `YYYY:MM:DD HH:MM:SS` ASCII
/// value.
fn tiff_with_datetime_original(ascii: &str) -> Vec<u8> {
    assert_eq!(ascii.len(), 19);
    let mut b: Vec<u8> = Vec::new();
    // TIFF header: little-endian, magic 42, first IFD at offset 8.
    b.extend_from_slice(&[0x49, 0x49, 0x2A, 0x00]);
    b.extend_from_slice(&8u32.to_le_bytes());
    // IFD0: one entry, the Exif IFD pointer (tag 0x8769, LONG) to offset 26.
    b.extend_from_slice(&1u16.to_le_bytes());
    b.extend_from_slice(&0x8769u16.to_le_bytes());
    b.extend_from_slice(&4u16.to_le_bytes());
    b.extend_from_slice(&1u32.to_le_bytes());
    b.extend_from_slice(&26u32.to_le_bytes());
    b.extend_from_slice(&0u32.to_le_bytes());
    // Exif IFD at 26: one entry, DateTimeOriginal (tag 0x9003, ASCII,
    // count 20) stored at offset 44.
    b.extend_from_slice(&1u16.to_le_bytes());
    b.extend_from_slice(&0x9003u16.to_le_bytes());
    b.extend_from_slice(&2u16.to_le_bytes());
    b.extend_from_slice(&20u32.to_le_bytes());
    b.extend_from_slice(&44u32.to_le_bytes());
    b.extend_from_slice(&0u32.to_le_bytes());
    // The ASCII value itself, NUL-terminated.
    b.extend_from_slice(ascii.as_bytes());
    b.push(0);
    b
}

fn file(path: &str, bytes: Vec<u8>) -> Entry {
    Entry { path: path.to_string(), is_dir: false, bytes }
}

fn dir(path: &str) -> Entry {
    Entry { path: path.to_string(), is_dir: true, bytes: Vec::new() }
}

#[test]
fn counter_starts_at_zero_and_increments() {
    let mut c = Counter::new();
    assert_eq!(c.get(Counters::All), 0);
    assert_eq!(c.get(Counters::Media), 0);
    assert_eq!(c.get(Counters::Processed), 0);
    c.increment(Counters::All);
    c.increment(Counters::All);
    c.increment(Counters::Media);
    assert_eq!(c.get(Counters::All), 2);
    assert_eq!(c.get(Counters::Media), 1);
    assert_eq!(c.get(Counters::Processed), 0);
}

#[test]
fn counter_default_is_zero() {
    let c = Counter::default();
    assert_eq!(c.get(Counters::All), 0);
}

#[test]
fn extracts_timestamp_from_exif_container() {
    let bytes = tiff_with_datetime_original("2023:05:10 12:34:56");
    let t = extract_timestamp(&bytes).unwrap();
    assert_eq!(t.year, 2023);
    assert_eq!(t.month, 5);
    assert_eq!(t.day, 10);
    assert_eq!(t.hour, 12);
    assert_eq!(t.minute, 34);
    assert_eq!(t.second, 56);
}

#[test]
fn extraction_is_none_for_unparsable_bytes() {
    assert!(extract_timestamp(&Vec::new()).is_none());
    assert!(extract_timestamp(&vec![1, 2, 3, 4]).is_none());
}

#[test]
fn extraction_is_none_for_invalid_embedded_date() {
    // The container parses, but the field holds month 13.
    let bytes = tiff_with_datetime_original("2023:13:10 12:34:56");
    assert!(extract_timestamp(&bytes).is_none());
    // ... or an impossible calendar day.
    let bytes = tiff_with_datetime_original("2023:02:30 12:34:56");
    assert!(extract_timestamp(&bytes).is_none());
}

#[test]
fn run_over_three_files_archives_and_tallies_each_branch() {
    let mut o = Organizer::new("in", "out");
    let entries = vec![
        file("a.jpg", tiff_with_datetime_original("2023:05:10 12:34:56")),
        file("b.txt", Vec::new()),
        file("c.png", vec![0, 1, 2]),
    ];
    let plans = o.walk_dir(&entries);
    assert_eq!(o.counter.get(Counters::All), 3);
    assert_eq!(o.counter.get(Counters::Media), 2);
    assert_eq!(o.counter.get(Counters::Processed), 1);
    assert_eq!(plans.len(), 3);
    assert_eq!(plans[0].target_dir, "out/2023/2023-05");
    assert_eq!(plans[0].target_file, "out/2023/2023-05/a.jpg");
    assert_eq!(plans[1].target_file, "out/untouched/b.txt");
    assert_eq!(plans[2].target_file, "out/untouched/c.png");
    let fallback = o.non_media_paths();
    assert_eq!(fallback.len(), 2);
    assert_eq!(fallback[0], "b.txt");
    assert_eq!(fallback[1], "c.png");
}

#[test]
fn nested_media_file_loses_nesting_in_bucket_branch() {
    let mut o = Organizer::new("in", "out");
    let entries = vec![
        dir("sub"),
        file("sub/d.mp4", tiff_with_datetime_original("2021:01:02 03:04:05")),
    ];
    let plans = o.walk_dir(&entries);
    assert_eq!(o.counter.get(Counters::All), 1);
    assert_eq!(o.counter.get(Counters::Media), 1);
    assert_eq!(o.counter.get(Counters::Processed), 1);
    assert_eq!(plans.len(), 1);
    assert_eq!(plans[0].target_file, "out/2021/2021-01/d.mp4");
}

#[test]
fn empty_run_tallies_nothing() {
    let mut o = Organizer::new("in", "out");
    let plans = o.walk_dir(&Vec::new());
    assert_eq!(o.counter.get(Counters::All), 0);
    assert_eq!(o.counter.get(Counters::Media), 0);
    assert_eq!(o.counter.get(Counters::Processed), 0);
    assert!(plans.is_empty());
    assert!(o.non_media_paths().is_empty());
}

#[test]
fn directories_are_skipped_entirely() {
    let mut o = Organizer::new("in", "out");
    let entries = vec![dir("in"), dir("in/sub"), file("in/sub/x.txt", Vec::new())];
    let plans = o.walk_dir(&entries);
    assert_eq!(o.counter.get(Counters::All), 1);
    assert_eq!(plans.len(), 1);
    assert_eq!(plans[0].target_file, "out/untouched/in/sub/x.txt");
}

#[test]
fn media_without_timestamp_falls_back_and_is_reported() {
    let mut o = Organizer::new("in", "out");
    let p = o.process_file("c.png", &vec![9, 9, 9]);
    assert_eq!(o.counter.get(Counters::All), 1);
    assert_eq!(o.counter.get(Counters::Media), 1);
    assert_eq!(o.counter.get(Counters::Processed), 0);
    assert_eq!(p.target_file, "out/untouched/c.png");
    assert_eq!(o.non_media_paths().len(), 1);
    assert_eq!(o.non_media_paths()[0], "c.png");
}

#[test]
fn rerunning_the_same_entries_yields_identical_plans() {
    let entries = vec![
        file("a.jpg", tiff_with_datetime_original("2023:05:10 12:34:56")),
        file("b.txt", Vec::new()),
    ];
    let mut o1 = Organizer::new("in", "out");
    let mut o2 = Organizer::new("in", "out");
    let plans1 = o1.walk_dir(&entries);
    let plans2 = o2.walk_dir(&entries);
    assert_eq!(plans1.len(), plans2.len());
    for (p, q) in plans1.iter().zip(plans2.iter()) {
        assert_eq!(p.target_dir, q.target_dir);
        assert_eq!(p.target_file, q.target_file);
    }
}

#[test]
fn entries_in_same_bucket_share_a_directory() {
    let mut o = Organizer::new("in", "out");
    let entries = vec![
        file("a.jpg", tiff_with_datetime_original("2023:05:10 08:00:00")),
        file("b.png", tiff_with_datetime_original("2023:05:20 09:00:00")),
        file("c.gif", tiff_with_datetime_original("2023:05:31 10:00:00")),
    ];
    let plans = o.walk_dir(&entries);
    assert_eq!(plans[0].target_dir, plans[1].target_dir);
    assert_eq!(plans[1].target_dir, plans[2].target_dir);
    assert_eq!(plans[0].target_dir, "out/2023/2023-05");
}

#[test]
fn organizer_new_keeps_the_roots() {
    let o = Organizer::new("photos", "archive");
    assert_eq!(o.input, "photos");
    assert_eq!(o.output, "archive");
}

#[test]
fn cli_holds_the_two_roots() {
    let c = Cli { input: "in".to_string(), output: "out".to_string() };
    assert_eq!(c.input, "in");
    assert_eq!(c.output, "out");
}
