use archiver::listing::{
    entry_line, local_seconds, mode_column_text, shown_time, size_column_text,
    time_column_text, Listing, CALENDAR_FIRST, CALENDAR_LAST,
};
use archiver::metadata::EntryHeader;
use archiver::{ls, Error};

fn header(path: &str, size: u64) -> EntryHeader {
    EntryHeader { path: path.to_string(), size: Some(size), mode: Some(0o100644), mtime: None }
}

#[test]
fn listing_an_unnamed_archive_is_refused() {
    match ls("") {
        Err(Error::InvalidArg { path }) => assert_eq!(path, ""),
        _ => panic!("expected InvalidArg"),
    }
}

#[test]
fn an_empty_listing_counts_zero() {
    let listing = ls("/tmp/out.gz.tar").unwrap();
    assert_eq!(listing.len(), 0);
    assert_eq!(listing.render(), vec!["total 0".to_string()]);
}

#[test]
fn three_entries_give_a_total_and_three_lines_in_order() {
    let mut listing = ls("/tmp/out.gz.tar").unwrap();
    listing.add(&header("a.txt", 215));
    listing.add(&header("dir/b.txt", 1024));
    listing.add(&header("c.txt", 0));
    assert_eq!(listing.len(), 3);
    let lines = listing.render();
    assert_eq!(lines.len(), 4);
    assert_eq!(lines[0], "total 3");
    assert_eq!(lines[1], "-rw-r--r--     215 B                   --  a.txt");
    assert_eq!(lines[2], "-rw-r--r--   1.0 KiB                   --  dir/b.txt");
    assert_eq!(lines[3], "-rw-r--r--       0 B                   --  c.txt");
}

#[test]
fn unreadable_fields_show_as_dashes() {
    let mut listing = Listing::new();
    listing.add(&EntryHeader { path: "x".to_string(), size: None, mode: None, mtime: None });
    let lines = listing.render();
    assert_eq!(lines[0], "total 1");
    assert_eq!(lines[1], "--        --                   --  x");
}

fn timed_line(mtime: u64) -> String {
    let mut listing = Listing::new();
    listing.add(&EntryHeader {
        path: "x".to_string(),
        size: Some(1),
        mode: Some(0o040755),
        mtime: Some(mtime),
    });
    listing.render().remove(1)
}

#[test]
fn a_time_is_written_as_date_and_clock() {
    let line = timed_line(1_700_000_000);
    assert_eq!(line.len(), 44);
    assert!(line.starts_with("drwxr-xr-x       1 B  2023-11-1"));
    assert!(line.ends_with("  x"));
    assert_eq!(line.as_bytes()[32], b' ');
    assert_eq!(line.as_bytes()[35], b':');
    assert_eq!(line.as_bytes()[38], b':');
}

#[test]
fn a_time_beyond_the_calendar_is_written_as_the_epoch() {
    assert_eq!(timed_line(u64::MAX / 2), timed_line(0));
    assert_eq!(timed_line(1u64 << 43), timed_line(0));
    assert_eq!(timed_line(CALENDAR_LAST as u64 + 1), timed_line(0));
    assert_ne!(timed_line(1u64 << 41), timed_line(0));
}

#[test]
fn a_time_of_all_ones_is_the_second_before_the_epoch() {
    assert_ne!(timed_line(u64::MAX), timed_line(0));
    assert_eq!(timed_line(u64::MAX).len(), 44);
}

#[test]
fn mode_column_is_the_permission_string() {
    assert_eq!(mode_column_text(Some(0o040755)), "drwxr-xr-x");
    assert_eq!(mode_column_text(Some(0o100640)), "-rw-r-----");
    assert_eq!(mode_column_text(Some(0o120777)), "lrwxrwxrwx");
    assert_eq!(mode_column_text(None), "--");
}

#[test]
fn size_column_is_eight_wide() {
    assert_eq!(size_column_text(Some(215)), "   215 B");
    assert_eq!(size_column_text(Some(1024 * 301)), "301.0 KiB");
    assert_eq!(size_column_text(Some(1536)), " 1.5 KiB");
    assert_eq!(size_column_text(None), "      --");
}

#[test]
fn time_column_is_nineteen_wide() {
    assert_eq!(time_column_text(Some("2024-01-02 03:04:05")), "2024-01-02 03:04:05");
    assert_eq!(time_column_text(Some("short")), "              short");
    assert_eq!(time_column_text(Some("a text that is longer than the column")), "a text that is longer than the column");
    assert_eq!(time_column_text(None), "                 --");
}

#[test]
fn a_line_has_two_spaces_between_columns() {
    assert_eq!(entry_line("m", "s", "t", "p"), "m  s  t  p");
    assert_eq!(entry_line("", "", "", ""), "      ");
}

#[test]
fn a_line_with_a_given_time_is_exact() {
    let mut listing = Listing::new();
    listing.add_timed(
        &EntryHeader {
            path: "dir/file.txt".to_string(),
            size: Some(1024 * 1024 * 419),
            mode: Some(0o100640),
            mtime: Some(1),
        },
        Some("2024-01-02 03:04:05"),
    );
    listing.add_timed(&header("b", 0), None);
    assert_eq!(
        listing.render(),
        vec![
            "total 2".to_string(),
            "-rw-r-----  419.0 MiB  2024-01-02 03:04:05  dir/file.txt".to_string(),
            "-rw-r--r--       0 B                   --  b".to_string(),
        ]
    );
}

#[test]
fn times_a_minute_apart_differ_in_the_minutes_only() {
    let first = timed_line(1_700_000_000);
    let second = timed_line(1_700_000_060);
    assert_ne!(first, second);
    assert_eq!(first[..36], second[..33].to_string() + &first[33..36]);
    assert_eq!(first[38..], second[38..]);
}

#[test]
fn the_calendar_ends_where_the_date_library_ends() {
    assert!(chrono::DateTime::from_timestamp(CALENDAR_FIRST, 0).is_some());
    assert!(chrono::DateTime::from_timestamp(CALENDAR_FIRST - 1, 0).is_none());
    assert!(chrono::DateTime::from_timestamp(CALENDAR_LAST, 0).is_some());
    assert!(chrono::DateTime::from_timestamp(CALENDAR_LAST + 1, 0).is_none());
}

#[test]
fn a_time_is_shown_as_far_as_the_calendar_reaches() {
    assert_eq!(shown_time(0), 0);
    assert_eq!(shown_time(1_700_000_000), 1_700_000_000);
    assert_eq!(shown_time(1u64 << 42), 1i64 << 42);
    assert_eq!(shown_time(CALENDAR_LAST as u64), CALENDAR_LAST);
    assert_eq!(shown_time(CALENDAR_LAST as u64 + 1), 0);
    assert_eq!(shown_time(u64::MAX), -1);
    assert_eq!(shown_time(CALENDAR_FIRST as u64), CALENDAR_FIRST);
    assert_eq!(shown_time((CALENDAR_FIRST - 1) as u64), 0);
    assert_eq!(shown_time(i64::MAX as u64), 0);
}

#[test]
fn the_zone_offset_is_added_to_the_shown_time() {
    assert_eq!(local_seconds(1_700_000_000, 3600), 1_700_003_600);
    assert_eq!(local_seconds(1_700_000_000, -3600), 1_699_996_400);
    assert_eq!(local_seconds(0, -18_000), -18_000);
    assert_eq!(local_seconds(u64::MAX, 60), 59);
    assert_eq!(local_seconds(CALENDAR_LAST as u64 + 1, 7200), 7200);
    assert_eq!(local_seconds(CALENDAR_LAST as u64, -1), CALENDAR_LAST - 1);
    assert_eq!(local_seconds(CALENDAR_LAST as u64, 7200), 7200);
    assert_eq!(local_seconds(CALENDAR_FIRST as u64, -7200), -7200);
    assert_eq!(local_seconds(CALENDAR_FIRST as u64, 7200), CALENDAR_FIRST + 7200);
}

#[test]
fn a_far_time_within_the_calendar_is_written_as_its_date() {
    let line = timed_line(5_000_000_000_000);
    assert_ne!(line, timed_line(0));
    assert!(line.starts_with("drwxr-xr-x       1 B  +1604"));
    assert!(line.ends_with("  x"));
}
