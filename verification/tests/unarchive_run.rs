use archiver::archiver::{Extraction, UnarchiveRun};
use archiver::codec::Codec;
use archiver::compression::encode;
use archiver::metadata::{seconds_of, EntryHeader};
use archiver::{unarchive, Error, UnarchiveParams};

fn params(source: &str, target: &str, file: &str) -> UnarchiveParams {
    UnarchiveParams { source: source.to_string(), target: target.to_string(), file: file.to_string() }
}

fn ready(source: &str, target: &str, file: &str) -> UnarchiveRun {
    match unarchive(params(source, target, file)) {
        Ok(run) => run,
        Err(err) => panic!("refused: {:?}", err),
    }
}

fn header(path: &str, mtime: Option<u64>) -> EntryHeader {
    EntryHeader { path: path.to_string(), size: Some(1), mode: Some(0o100644), mtime }
}

#[test]
fn empty_source_is_refused() {
    match unarchive(params("", "/out", "")) {
        Err(Error::InvalidArg { path }) => assert_eq!(path, ""),
        _ => panic!("expected InvalidArg"),
    }
}

#[test]
fn source_without_a_tag_is_refused() {
    match unarchive(params("/tmp/out.tar", "/out", "")) {
        Err(Error::InvalidArg { path }) => assert_eq!(path, "/tmp/out.tar"),
        _ => panic!("expected InvalidArg"),
    }
}

#[test]
fn the_tag_is_the_last_but_one_piece() {
    assert_eq!(ready("/tmp/out.gz.tar", "/out", "").tag, "gz");
    assert_eq!(ready("/tmp/my.files.zst.tar", "/out", "").tag, "zst");
    assert_eq!(ready("/tmp/out.br.backup", "/out", "").tag, "br");
}

#[test]
fn output_is_the_target_when_given() {
    let run = ready("/tmp/in/out.gz.tar", "/somewhere/else", "");
    assert_eq!(run.output, "/somewhere/else");
    assert_eq!(run.source, "/tmp/in/out.gz.tar");
    assert_eq!(run.file, "");
    assert_eq!(run.file_count, 0);
}

#[test]
fn output_defaults_to_the_directory_of_the_source() {
    assert_eq!(ready("/tmp/in/out.gz.tar", "", "").output, "/tmp/in");
    assert_eq!(ready("out.gz.tar", "", "").output, "");
}

#[test]
fn an_unknown_tag_shows_at_the_first_wanted_entry() {
    let mut run = ready("/tmp/out.what.tar", "/out", "a.txt");
    let skipped = run.extract(&header("b.txt", None), b"whatever").unwrap();
    assert!(matches!(skipped, Extraction::Skipped));
    match run.extract(&header("a.txt", None), b"whatever") {
        Err(Error::InvalidCompression { compression }) => assert_eq!(compression, "what"),
        _ => panic!("expected InvalidCompression"),
    }
}

#[test]
fn every_entry_is_written_under_the_output() {
    let mut run = ready("/tmp/out.gz.tar", "/out", "");
    let content = b"hello, hello, hello".to_vec();
    let payload = encode(Codec::Gzip, &content, 6).unwrap();
    match run.extract(&header("a/b.txt", Some(1_700_000_000)), &payload).unwrap() {
        Extraction::Persist { path, data, mtime } => {
            assert_eq!(path, "/out/a/b.txt");
            assert_eq!(data, content);
            assert_eq!(mtime, Some(1_700_000_000));
        },
        _ => panic!("expected Persist"),
    }
    assert_eq!(run.file_count, 1);
    match run.extract(&header("c.txt", None), &payload).unwrap() {
        Extraction::Persist { path, data, mtime } => {
            assert_eq!(path, "/out/c.txt");
            assert_eq!(data, content);
            assert_eq!(mtime, None);
        },
        _ => panic!("expected Persist"),
    }
    assert_eq!(run.file_count, 2);
    let summary = run.summary(Some((1, 0))).unwrap();
    assert_eq!(summary.file_count, 2);
    assert_eq!(summary.duration, Some("1s".to_string()));
    assert_eq!(summary.file_size, None);
}

#[test]
fn a_single_wanted_entry_is_printed_not_written() {
    let mut run = ready("/tmp/out.sz.tar", "/out", "a/b.txt");
    let content = "the wanted text".as_bytes().to_vec();
    let payload = encode(Codec::Snappy, &content, 0).unwrap();
    assert!(run.wants("a/b.txt"));
    assert!(!run.wants("a/c.txt"));
    assert!(!run.wants("b.txt"));
    match run.extract(&header("a/c.txt", None), b"not even snappy").unwrap() {
        Extraction::Skipped => {},
        _ => panic!("expected Skipped"),
    }
    match run.extract(&header("a/b.txt", None), &payload).unwrap() {
        Extraction::Print { data, text } => {
            assert_eq!(data, content);
            assert_eq!(text, "the wanted text");
        },
        _ => panic!("expected Print"),
    }
    assert_eq!(run.file_count, 0);
    assert!(run.summary(Some((1, 0))).is_none());
}

#[test]
fn bytes_that_are_no_text_print_with_replacements() {
    let mut run = ready("/tmp/out.lz4.tar", "", "raw");
    let content = vec![b'a', 0xFF, b'b'];
    let payload = encode(Codec::Lz4, &content, 0).unwrap();
    match run.extract(&header("raw", None), &payload).unwrap() {
        Extraction::Print { data, text } => {
            assert_eq!(data, content);
            assert_eq!(text, "a\u{FFFD}b");
        },
        _ => panic!("expected Print"),
    }
}

#[test]
fn a_corrupt_payload_ends_the_run_with_the_codecs_error() {
    let garbage = b"\x05this is no compressed payload at all";
    let mut run = ready("/tmp/out.sz.tar", "/out", "");
    assert!(matches!(run.extract(&header("a", None), garbage), Err(Error::Snappy { .. })));
    assert_eq!(run.file_count, 0);
    let mut run = ready("/tmp/out.lz4.tar", "/out", "");
    assert!(matches!(run.extract(&header("a", None), b"\x01"), Err(Error::Lz4Decompress { .. })));
    let mut run = ready("/tmp/out.gz.tar", "/out", "");
    assert!(matches!(run.extract(&header("a", None), garbage), Err(Error::Io { .. })));
    let mut run = ready("/tmp/out.xz.tar", "/out", "");
    assert!(matches!(run.extract(&header("a", None), garbage), Err(Error::Io { .. })));
}

#[test]
fn seconds_keep_their_value_where_they_fit() {
    assert_eq!(seconds_of(0), 0);
    assert_eq!(seconds_of(1_700_000_000), 1_700_000_000);
    assert_eq!(seconds_of(i64::MAX as u64), i64::MAX);
    assert_eq!(seconds_of(i64::MAX as u64 + 1), i64::MIN);
    assert_eq!(seconds_of(u64::MAX), -1);
}

#[test]
fn restored_time_is_the_headers_time() {
    assert_eq!(header("a", Some(42)).restored_mtime(), Some(42));
    assert_eq!(header("a", None).restored_mtime(), None);
}

#[test]
fn the_tag_comes_from_the_file_name_alone() {
    match unarchive(params("/tmp/a.b/x.tar", "", "")) {
        Err(Error::InvalidArg { path }) => assert_eq!(path, "/tmp/a.b/x.tar"),
        _ => panic!("expected InvalidArg"),
    }
    match unarchive(params("/tmp/a.gz.b/x.tar", "/out", "")) {
        Err(Error::InvalidArg { path }) => assert_eq!(path, "/tmp/a.gz.b/x.tar"),
        _ => panic!("expected InvalidArg"),
    }
    assert!(matches!(unarchive(params("/tmp/a.gz.tar/x", "/out", "")), Err(Error::InvalidArg { .. })));
    assert_eq!(ready("/tmp/my.dir/out.zst.tar", "/out", "").tag, "zst");
    assert_eq!(ready("/tmp/a.b.c/x.lz4.tar", "", "").tag, "lz4");
}

#[test]
fn a_source_without_a_final_component_is_refused() {
    match unarchive(params("/tmp/x.gz.tar/..", "/out", "")) {
        Err(Error::InvalidArg { path }) => assert_eq!(path, "/tmp/x.gz.tar/.."),
        _ => panic!("expected InvalidArg"),
    }
    assert!(matches!(unarchive(params("/", "/out", "")), Err(Error::InvalidArg { .. })));
}

#[test]
fn a_failed_decoding_is_handed_on() {
    let mut run = ready("/tmp/out.gz.tar", "/out", "");
    let failure = Error::InvalidCompression { compression: "marker".to_string() };
    match run.placed(&header("a", Some(1)), Err(failure)) {
        Err(Error::InvalidCompression { compression }) => assert_eq!(compression, "marker"),
        _ => panic!("expected the error that was handed in"),
    }
    assert_eq!(run.file_count, 0);
}

#[test]
fn decoded_content_is_placed_under_the_output() {
    let mut run = ready("/tmp/out.gz.tar", "/out/dir", "");
    match run.placed(&header("a/b.txt", Some(77)), Ok(vec![1, 2, 3])).unwrap() {
        Extraction::Persist { path, data, mtime } => {
            assert_eq!(path, "/out/dir/a/b.txt");
            assert_eq!(data, vec![1, 2, 3]);
            assert_eq!(mtime, Some(77));
        },
        _ => panic!("expected Persist"),
    }
    assert_eq!(run.file_count, 1);
    match run.placed(&header("c", None), Ok(Vec::new())).unwrap() {
        Extraction::Persist { path, data, mtime } => {
            assert_eq!(path, "/out/dir/c");
            assert_eq!(data, Vec::<u8>::new());
            assert_eq!(mtime, None);
        },
        _ => panic!("expected Persist"),
    }
    assert_eq!(run.file_count, 2);
}

#[test]
fn decoded_content_of_a_single_entry_is_printed() {
    let mut run = ready("/tmp/out.gz.tar", "/out", "a");
    match run.placed(&header("a", Some(77)), Ok(b"text\n".to_vec())).unwrap() {
        Extraction::Print { data, text } => {
            assert_eq!(data, b"text\n".to_vec());
            assert_eq!(text, "text\n");
        },
        _ => panic!("expected Print"),
    }
    assert_eq!(run.file_count, 0);
}

#[test]
fn a_run_for_one_entry_prints_even_when_the_count_is_full() {
    let mut run = ready("/tmp/out.sz.tar", "/out", "a");
    run.file_count = u64::MAX;
    let payload = encode(Codec::Snappy, b"still printed", 0).unwrap();
    match run.extract(&header("a", None), &payload).unwrap() {
        Extraction::Print { text, .. } => assert_eq!(text, "still printed"),
        _ => panic!("expected Print"),
    }
    assert_eq!(run.file_count, u64::MAX);
}
