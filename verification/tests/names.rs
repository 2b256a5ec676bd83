use archiver::archiver::{source_codec_tag, target_codec_tag};
use archiver::codec::{same_text, Codec};
use archiver::text::{decimal_text, join_texts, split_dots};
use archiver::Error;

#[test]
fn split_keeps_empty_pieces() {
    assert_eq!(split_dots("a.b"), vec!["a", "b"]);
    assert_eq!(split_dots(""), vec![""]);
    assert_eq!(split_dots("a."), vec!["a", ""]);
    assert_eq!(split_dots(".a"), vec!["", "a"]);
    assert_eq!(split_dots("a..b"), vec!["a", "", "b"]);
    assert_eq!(split_dots("no dots"), vec!["no dots"]);
    assert_eq!(split_dots("héllo.wörld.tar"), vec!["héllo", "wörld", "tar"]);
}

#[test]
fn decimal_writes_base_ten() {
    assert_eq!(decimal_text(0), "0");
    assert_eq!(decimal_text(7), "7");
    assert_eq!(decimal_text(10), "10");
    assert_eq!(decimal_text(305), "305");
    assert_eq!(decimal_text(u64::MAX), "18446744073709551615");
}

#[test]
fn texts_join_in_order() {
    assert_eq!(join_texts("/root", "/**/*"), "/root/**/*");
    assert_eq!(join_texts("", "x"), "x");
}

#[test]
fn same_text_compares_content() {
    assert!(same_text("tar", "tar"));
    assert!(!same_text("tar", "tar "));
    assert!(!same_text("", "a"));
}

#[test]
fn every_tag_selects_its_codec() {
    assert_eq!(Codec::from_tag("gz").unwrap(), Codec::Gzip);
    assert_eq!(Codec::from_tag("zst").unwrap(), Codec::Zstd);
    assert_eq!(Codec::from_tag("br").unwrap(), Codec::Brotli);
    assert_eq!(Codec::from_tag("zip").unwrap(), Codec::Deflate);
    assert_eq!(Codec::from_tag("sz").unwrap(), Codec::Snappy);
    assert_eq!(Codec::from_tag("lz4").unwrap(), Codec::Lz4);
    assert_eq!(Codec::from_tag("xz").unwrap(), Codec::Xz);
}

#[test]
fn tags_and_codecs_correspond() {
    for codec in [
        Codec::Gzip,
        Codec::Zstd,
        Codec::Brotli,
        Codec::Deflate,
        Codec::Snappy,
        Codec::Lz4,
        Codec::Xz,
    ] {
        assert_eq!(Codec::from_tag(codec.tag()).unwrap(), codec);
    }
}

#[test]
fn unknown_tag_is_refused_with_the_tag() {
    match Codec::from_tag("gzip") {
        Err(Error::InvalidCompression { compression }) => assert_eq!(compression, "gzip"),
        other => panic!("unexpected: {:?}", other),
    }
    assert!(matches!(Codec::from_tag(""), Err(Error::InvalidCompression { .. })));
    assert!(matches!(Codec::from_tag("GZ"), Err(Error::InvalidCompression { .. })));
}

#[test]
fn only_block_codecs_lack_a_level() {
    assert!(Codec::Gzip.uses_level());
    assert!(Codec::Zstd.uses_level());
    assert!(Codec::Brotli.uses_level());
    assert!(Codec::Deflate.uses_level());
    assert!(Codec::Xz.uses_level());
    assert!(!Codec::Snappy.uses_level());
    assert!(!Codec::Lz4.uses_level());
}

#[test]
fn created_name_needs_tar_in_third_place() {
    assert_eq!(target_codec_tag("out.gz.tar"), Some("gz".to_string()));
    assert_eq!(target_codec_tag("out.unknown.tar"), Some("unknown".to_string()));
    assert_eq!(target_codec_tag("out.gz.tar.bak"), Some("gz".to_string()));
    assert_eq!(target_codec_tag("name.tar"), None);
    assert_eq!(target_codec_tag("name"), None);
    assert_eq!(target_codec_tag(""), None);
    assert_eq!(target_codec_tag("my.files.gz.tar"), None);
    assert_eq!(target_codec_tag("out.gz.TAR"), None);
    assert_eq!(target_codec_tag("..tar"), Some("".to_string()));
}

#[test]
fn read_name_takes_the_last_but_one_piece() {
    assert_eq!(source_codec_tag("out.gz.tar"), Some("gz".to_string()));
    assert_eq!(source_codec_tag("out.zst.tar"), Some("zst".to_string()));
    assert_eq!(source_codec_tag("a.b/x.tar"), Some("b/x".to_string()));
    assert_eq!(source_codec_tag("my.files.br.tar"), Some("br".to_string()));
    assert_eq!(source_codec_tag("out.gz.backup"), Some("gz".to_string()));
    assert_eq!(source_codec_tag("out.tar"), None);
    assert_eq!(source_codec_tag("out"), None);
}
