//! The closed set of codecs and the short tags that select them in file names.

use crate::error::Error;
use vstd::prelude::*;

verus! {

/// A compression algorithm that an archive's entries can be packed with.
#[derive(Clone, Copy, Debug, PartialEq, Eq, Structural)]
pub enum Codec {
    Gzip,
    Zstd,
    Brotli,
    Deflate,
    Snappy,
    Lz4,
    Xz,
}

/// The codec that a tag selects, if it selects one.
pub open spec fn codec_for_tag(tag: Seq<char>) -> Option<Codec> {
    if tag =~= seq!['g', 'z'] {
        Some(Codec::Gzip)
    } else if tag =~= seq!['z', 's', 't'] {
        Some(Codec::Zstd)
    } else if tag =~= seq!['b', 'r'] {
        Some(Codec::Brotli)
    } else if tag =~= seq!['z', 'i', 'p'] {
        Some(Codec::Deflate)
    } else if tag =~= seq!['s', 'z'] {
        Some(Codec::Snappy)
    } else if tag =~= seq!['l', 'z', '4'] {
        Some(Codec::Lz4)
    } else if tag =~= seq!['x', 'z'] {
        Some(Codec::Xz)
    } else {
        None
    }
}

/// Whether two texts are the same.
pub fn same_text(a: &str, b: &str) -> (r: bool)
    ensures
        r == (a@ == b@),
{
    let left = a.to_owned();
    let right = b.to_owned();
    left == right
}

impl Codec {
    /// The tag that selects the codec in a file name.
    pub open spec fn spec_tag(self) -> Seq<char> {
        match self {
            Codec::Gzip => seq!['g', 'z'],
            Codec::Zstd => seq!['z', 's', 't'],
            Codec::Brotli => seq!['b', 'r'],
            Codec::Deflate => seq!['z', 'i', 'p'],
            Codec::Snappy => seq!['s', 'z'],
            Codec::Lz4 => seq!['l', 'z', '4'],
            Codec::Xz => seq!['x', 'z'],
        }
    }

    /// Whether the codec has a tunable compression level.
    pub open spec fn spec_uses_level(self) -> bool {
        !(self is Snappy || self is Lz4)
    }

    /// The tag that selects the codec in a file name.
    pub fn tag(self) -> (r: &'static str)
        ensures
            r@ == self.spec_tag(),
    {
        proof {
            reveal_strlit("gz");
            reveal_strlit("zst");
            reveal_strlit("br");
            reveal_strlit("zip");
            reveal_strlit("sz");
            reveal_strlit("lz4");
            reveal_strlit("xz");
        }
        let r: &'static str = match self {
            Codec::Gzip => "gz",
            Codec::Zstd => "zst",
            Codec::Brotli => "br",
            Codec::Deflate => "zip",
            Codec::Snappy => "sz",
            Codec::Lz4 => "lz4",
            Codec::Xz => "xz",
        };
        assert(r@ =~= self.spec_tag());
        r
    }

    /// The codec that `tag` selects. A tag that selects none is an error that carries the
    /// tag; there is no fallback.
    pub fn from_tag(tag: &str) -> (r: Result<Codec, Error>)
        ensures
            match codec_for_tag(tag@) {
                Some(codec) => r == Ok::<Codec, Error>(codec),
                None => r matches Err(Error::InvalidCompression { compression })
                    && compression@ == tag@,
            },
    {
        if same_text(tag, Codec::Gzip.tag()) {
            Ok(Codec::Gzip)
        } else if same_text(tag, Codec::Zstd.tag()) {
            Ok(Codec::Zstd)
        } else if same_text(tag, Codec::Brotli.tag()) {
            Ok(Codec::Brotli)
        } else if same_text(tag, Codec::Deflate.tag()) {
            Ok(Codec::Deflate)
        } else if same_text(tag, Codec::Snappy.tag()) {
            Ok(Codec::Snappy)
        } else if same_text(tag, Codec::Lz4.tag()) {
            Ok(Codec::Lz4)
        } else if same_text(tag, Codec::Xz.tag()) {
            Ok(Codec::Xz)
        } else {
            Err(Error::InvalidCompression { compression: tag.to_owned() })
        }
    }

    /// Whether the codec has a tunable compression level; snappy and lz4 have none.
    pub fn uses_level(self) -> (r: bool)
        ensures
            r == self.spec_uses_level(),
    {
        match self {
            Codec::Snappy => false,
            Codec::Lz4 => false,
            _ => true,
        }
    }
}

/// Every codec is selected by its own tag, and by no other codec's.
pub proof fn lemma_tag_selects_codec(codec: Codec)
    ensures
        codec_for_tag(codec.spec_tag()) == Some(codec),
{
    let t = codec.spec_tag();
    assert(t.len() >= 2);
    match codec {
        Codec::Gzip => {},
        Codec::Zstd => {
            assert(t[0] == 'z' && t.len() == 3);
        },
        Codec::Brotli => {
            assert(t[0] == 'b');
        },
        Codec::Deflate => {
            assert(t[1] == 'i');
        },
        Codec::Snappy => {
            assert(t[0] == 's');
        },
        Codec::Lz4 => {
            assert(t[0] == 'l');
        },
        Codec::Xz => {
            assert(t[0] == 'x');
        },
    }
}

} // verus!
