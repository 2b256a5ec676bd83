//! Building, reading and listing archives: what each run is asked to do, the checks it
//! starts with, and the decisions it takes entry by entry. Files and the tar stream
//! themselves are the caller's: a run is handed what was read and answers what to write.

use crate::codec::codec_for_tag;
use crate::codec::same_text;
use crate::codec::Codec;
use crate::compression::decode;
use crate::compression::decoded;
use crate::compression::encode;
use crate::compression::encoded;
use crate::compression::is_codec_error;
use crate::error::Error;
use crate::listing::size_string;
use crate::listing::Listing;
use crate::listing::size_text;
use crate::metadata::seconds_view;
use crate::metadata::EntryHeader;
use crate::paths::file_name;
use crate::paths::file_name_of;
use crate::paths::join;
use crate::paths::joined;
use crate::paths::parent;
use crate::paths::parent_of;
use crate::paths::strip_prefix;
use crate::paths::stripped_of;
use crate::text::join_texts;
use crate::text::split_dots;
use crate::text::split_on;
use crate::text::texts;
use vstd::prelude::*;

verus! {

/// What to archive: the files under `source` that `pattern` matches, compressed at
/// `level` and packed into the tar file `target`.
pub struct ArchiveParams {
    pub source: String,
    pub target: String,
    pub level: i32,
    pub pattern: String,
}

/// What to extract: the entries of the tar file `source`, into the directory `target`
/// (beside the archive if empty), or the single entry `file` if that is not empty.
pub struct UnarchiveParams {
    pub source: String,
    pub target: String,
    pub file: String,
}

/// Whether `c` is a digit of lower-case hexadecimal.
pub open spec fn is_lower_hex(c: char) -> bool {
    c == '0' || c == '1' || c == '2' || c == '3' || c == '4' || c == '5' || c == '6' || c == '7'
        || c == '8' || c == '9' || c == 'a' || c == 'b' || c == 'c' || c == 'd' || c == 'e'
        || c == 'f'
}

/// Whether `s` has the shape of a version 7 identifier in its usual writing: 32
/// hexadecimal digits in groups of 8, 4, 4, 4 and 12 with hyphens between, the third
/// group starting with the version and the fourth with the variant.
pub open spec fn is_v7_text(s: Seq<char>) -> bool {
    &&& s.len() == 36
    &&& forall|i: int|
        0 <= i < 36 ==> if i == 8 || i == 13 || i == 18 || i == 23 {
            #[trigger] s[i] == '-'
        } else {
            is_lower_hex(s[i])
        }
    &&& s[14] == '7'
    &&& s[19] == '8' || s[19] == '9' || s[19] == 'a' || s[19] == 'b'
}

/// `uuid::Uuid::new_v7` on `uuid::Timestamp::now` without a context, written out by
/// `to_string`. The value comes from the clock and from chance, so only its shape is
/// stated. The clock must not stand before 1970.
#[verifier::external_body]
fn fresh_v7_text() -> (r: String)
    ensures
        is_v7_text(r@),
{
    uuid::Uuid::new_v7(uuid::Timestamp::now(uuid::NoContext)).to_string()
}

/// A fresh name for a temporary file: time-ordered, and unique for every practical
/// purpose. It holds nothing but hexadecimal digits and hyphens, so it names a file
/// directly inside whatever directory it is joined to.
pub fn uuid() -> (r: String)
    ensures
        is_v7_text(r@),
{
    fresh_v7_text()
}

/// The codec tag of an archive that is to be created under `file_name`: the second of
/// at least three pieces between dots, the third being `tar`.
pub open spec fn created_tag(file_name: Seq<char>) -> Option<Seq<char>> {
    let parts = split_on(file_name, '.');
    if parts.len() >= 3 && parts[2] =~= seq!['t', 'a', 'r'] {
        Some(parts[1])
    } else {
        None
    }
}

/// The codec tag of an archive that is to be read from a file called `file_name`: the
/// last but one of at least three pieces between dots.
pub open spec fn read_tag(file_name: Seq<char>) -> Option<Seq<char>> {
    let parts = split_on(file_name, '.');
    if parts.len() >= 3 {
        Some(parts[parts.len() - 2])
    } else {
        None
    }
}

/// The codec tag in the name of an archive to create, if the name follows the
/// convention `<name>.<codec>.tar`.
pub fn target_codec_tag(file_name: &str) -> (r: Option<String>)
    ensures
        match created_tag(file_name@) {
            Some(tag) => r matches Some(found) && found@ == tag,
            None => r is None,
        },
{
    proof {
        reveal_strlit("tar");
        assert("tar"@ =~= seq!['t', 'a', 'r']);
    }
    let parts = split_dots(file_name);
    assert(texts(parts@).len() == parts@.len());
    if parts.len() < 3 {
        return None;
    }
    assert(texts(parts@)[2] == parts[2]@);
    assert(texts(parts@)[1] == parts[1]@);
    if !same_text(parts[2].as_str(), "tar") {
        return None;
    }
    Some(parts[1].clone())
}

/// The codec tag in the name of an archive to read, if the name has one. The name
/// need not end in `tar`, and what stands before the tag may hold dots of its own.
pub fn source_codec_tag(file_name: &str) -> (r: Option<String>)
    ensures
        match read_tag(file_name@) {
            Some(tag) => r matches Some(found) && found@ == tag,
            None => r is None,
        },
{
    let parts = split_dots(file_name);
    assert(texts(parts@).len() == parts@.len());
    if parts.len() < 3 {
        return None;
    }
    let at = parts.len() - 2;
    assert(texts(parts@)[at as int] == parts[at as int]@);
    Some(parts[at].clone())
}

/// A run of archiving that has passed its checks: what is packed, how, and how many
/// entries have been appended so far.
pub struct ArchiveRun {
    /// The root that the files are matched under.
    pub source: String,
    /// The tar file that is written.
    pub target: String,
    /// The pattern that the files are found by: the root followed by the match pattern.
    pub pattern: String,
    /// The codec that the target's name selects.
    pub codec: Codec,
    /// The compression level.
    pub level: i32,
    /// The entries appended so far.
    pub file_count: u64,
}

/// What a run has to report when it is over.
pub struct RunSummary {
    /// The number of entries packed or extracted.
    pub file_count: u64,
    /// The time the run took, for a human reader, where the clock allowed to measure it.
    pub duration: Option<String>,
    /// The size of the archive, for a human reader, where it could be read.
    pub file_size: Option<String>,
}

/// The argument that `archive` refuses `params` for, if it refuses them for one: the
/// target where it is empty, else the source where that is empty, else the target where
/// it has no final component or that component does not follow the naming convention.
pub open spec fn archive_refusal(params: ArchiveParams) -> Option<Seq<char>> {
    if params.target@.len() == 0 {
        Some(params.target@)
    } else if params.source@.len() == 0 {
        Some(params.source@)
    } else {
        match file_name_of(params.target@) {
            None => Some(params.target@),
            Some(name) => if created_tag(name) is None {
                Some(params.target@)
            } else {
                None
            },
        }
    }
}

/// The codec tag in the target of `params` that `archive` does not refuse.
pub open spec fn archive_tag(params: ArchiveParams) -> Seq<char>
    recommends
        archive_refusal(params) is None,
{
    created_tag(file_name_of(params.target@).unwrap()).unwrap()
}

/// Starts a run of archiving. Nothing is read or written yet: the arguments are
/// checked and the codec is resolved, in this order.
///
/// An empty target, an empty source, a target without a final component or with one
/// that is not of the form `<name>.<codec>.tar` is an `InvalidArg` that carries the
/// argument. A tag that names no codec is an `InvalidCompression` that carries the tag.
/// Otherwise the run is ready, with no entry counted.
pub fn archive(params: ArchiveParams) -> (r: Result<ArchiveRun, Error>)
    ensures
        match archive_refusal(params) {
            Some(refused) => r matches Err(Error::InvalidArg { path }) && path@ == refused,
            None => match codec_for_tag(archive_tag(params)) {
                None => r matches Err(Error::InvalidCompression { compression })
                    && compression@ == archive_tag(params),
                Some(codec) => r matches Ok(run) && run.codec == codec && run.level
                    == params.level && run.source@ == params.source@ && run.target@
                    == params.target@ && run.pattern@ == params.source@ + params.pattern@
                    && run.file_count == 0,
            },
        },
{
    if params.target.as_str().is_empty() {
        return Err(Error::InvalidArg { path: params.target });
    }
    if params.source.as_str().is_empty() {
        return Err(Error::InvalidArg { path: params.source });
    }
    let name = match file_name(params.target.as_str()) {
        Some(name) => name,
        None => {
            return Err(Error::InvalidArg { path: params.target });
        },
    };
    let tag = match target_codec_tag(name.as_str()) {
        Some(tag) => tag,
        None => {
            return Err(Error::InvalidArg { path: params.target });
        },
    };
    let codec = match Codec::from_tag(tag.as_str()) {
        Ok(codec) => codec,
        Err(err) => {
            return Err(err);
        },
    };
    let pattern = join_texts(params.source.as_str(), params.pattern.as_str());
    Ok(
        ArchiveRun {
            source: params.source,
            target: params.target,
            pattern,
            codec,
            level: params.level,
            file_count: 0,
        },
    )
}

/// A span of time as `humantime::format_duration` writes it.
pub uninterp spec fn duration_text(seconds: u64, nanos: u32) -> Seq<char>;

/// `humantime::format_duration` of the span of `seconds` and `nanos`, written out by
/// `to_string`.
#[verifier::external_body]
fn duration_string(seconds: u64, nanos: u32) -> (r: String)
    requires
        nanos < 1_000_000_000,
    ensures
        r@ == duration_text(seconds, nanos),
{
    humantime::format_duration(std::time::Duration::new(seconds, nanos)).to_string()
}

/// What becomes of a matched path under the root `source`: `None` where it does not
/// lie under the root, which ends the run; else `Some(None)` for a directory, which is
/// passed over, and `Some(Some(name))` for a file, `name` being its path from the root.
pub open spec fn placement(source: Seq<char>, path: Seq<char>, is_dir: bool) -> Option<
    Option<Seq<char>>,
> {
    match stripped_of(path, source) {
        None => None,
        Some(name) => if is_dir {
            Some(None)
        } else {
            Some(Some(name))
        },
    }
}

/// The names of the entries that a run under the root `source` packs from `matches`,
/// each a path and whether it is a directory, in their order; `None` where one of them
/// ends the run.
pub open spec fn packed_names(source: Seq<char>, matches: Seq<(Seq<char>, bool)>) -> Option<
    Seq<Seq<char>>,
>
    decreases matches.len(),
{
    if matches.len() == 0 {
        Some(Seq::empty())
    } else {
        match packed_names(source, matches.drop_last()) {
            None => None,
            Some(names) => match placement(source, matches.last().0, matches.last().1) {
                None => None,
                Some(None) => Some(names),
                Some(Some(name)) => Some(names.push(name)),
            },
        }
    }
}

/// The number of entries that a run under the root `source` packs from `matches`;
/// `None` where one of them ends the run.
pub open spec fn packed_count(source: Seq<char>, matches: Seq<(Seq<char>, bool)>) -> Option<nat> {
    match packed_names(source, matches) {
        Some(names) => Some(names.len()),
        None => None,
    }
}

/// Matched paths as texts, each with whether it is a directory.
pub open spec fn match_views(matches: Seq<(String, bool)>) -> Seq<(Seq<char>, bool)> {
    Seq::new(matches.len(), |i: int| (matches[i].0@, matches[i].1))
}

/// A match that ends the run ends it however many matches follow.
proof fn lemma_failure_persists(source: Seq<char>, matches: Seq<(Seq<char>, bool)>, upto: int)
    requires
        0 <= upto <= matches.len(),
        packed_names(source, matches.subrange(0, upto)) is None,
    ensures
        packed_names(source, matches) is None,
    decreases matches.len(),
{
    if upto == matches.len() {
        assert(matches.subrange(0, upto) =~= matches);
    } else {
        assert(matches.drop_last().subrange(0, upto) =~= matches.subrange(0, upto));
        lemma_failure_persists(source, matches.drop_last(), upto);
    }
}

/// The text of a span of time, if there is one.
pub open spec fn elapsed_text(elapsed: Option<(u64, u32)>) -> Option<Seq<char>> {
    match elapsed {
        Some(span) => Some(duration_text(span.0, span.1)),
        None => None,
    }
}

/// The text of a size, if there is one.
pub open spec fn stored_text(size: Option<u64>) -> Option<Seq<char>> {
    match size {
        Some(bytes) => Some(size_text(bytes)),
        None => None,
    }
}

/// The text that a string holds, if there is one.
pub open spec fn text_of(s: Option<String>) -> Option<Seq<char>> {
    match s {
        Some(text) => Some(text@),
        None => None,
    }
}

/// Writes out a span of time for a summary.
fn elapsed_string(elapsed: Option<(u64, u32)>) -> (r: Option<String>)
    requires
        elapsed matches Some(span) ==> span.1 < 1_000_000_000,
    ensures
        text_of(r) == elapsed_text(elapsed),
{
    match elapsed {
        Some(span) => Some(duration_string(span.0, span.1)),
        None => None,
    }
}

impl ArchiveRun {
    /// Decides what becomes of a matched path. A path that does not lie under the root
    /// ends the run with a `StripPrefix` error; a directory is passed over; a file is
    /// to be packed under its path from the root.
    pub fn entry_name(&self, path: &str, is_dir: bool) -> (r: Result<Option<String>, Error>)
        ensures
            match placement(self.source@, path@, is_dir) {
                None => r matches Err(e) && e is StripPrefix,
                Some(None) => r matches Ok(None),
                Some(Some(name)) => r matches Ok(Some(found)) && found@ == name,
            },
    {
        let name = match strip_prefix(path, self.source.as_str()) {
            Ok(name) => name,
            Err(err) => {
                return Err(Error::StripPrefix { source: err });
            },
        };
        if is_dir {
            return Ok(None);
        }
        Ok(Some(name))
    }

    /// Decides what becomes of a whole sequence of matched paths, each with whether it
    /// is a directory: the names of the files to pack, in the order of the matches. The
    /// first path that does not lie under the root ends the run with a `StripPrefix`
    /// error.
    pub fn entry_names(&self, matches: &Vec<(String, bool)>) -> (r: Result<Vec<String>, Error>)
        ensures
            match packed_names(self.source@, match_views(matches@)) {
                Some(names) => r matches Ok(found) && texts(found@) == names && packed_count(
                    self.source@,
                    match_views(matches@),
                ) == Some(found@.len()),
                None => r matches Err(e) && e is StripPrefix,
            },
    {
        let ghost all = match_views(matches@);
        let mut found: Vec<String> = Vec::new();
        let mut i: usize = 0;
        assert(all.subrange(0, 0) =~= Seq::<(Seq<char>, bool)>::empty());
        assert(texts(found@) =~= Seq::<Seq<char>>::empty());
        while i < matches.len()
            invariant
                i <= matches.len(),
                all == match_views(matches@),
                packed_names(self.source@, all.subrange(0, i as int)) == Some(texts(found@)),
            decreases matches.len() - i,
        {
            let ghost before = texts(found@);
            assert(all.subrange(0, i as int + 1).drop_last() =~= all.subrange(0, i as int));
            assert(all.subrange(0, i as int + 1).last() == all[i as int]);
            assert(all[i as int] == (matches[i as int].0@, matches[i as int].1));
            match self.entry_name(matches[i].0.as_str(), matches[i].1) {
                Err(err) => {
                    proof {
                        lemma_failure_persists(self.source@, all, i as int + 1);
                    }
                    return Err(err);
                },
                Ok(None) => {},
                Ok(Some(name)) => {
                    found.push(name);
                    assert(texts(found@) =~= before.push(name@));
                },
            }
            i += 1;
        }
        assert(all.subrange(0, i as int) =~= all);
        Ok(found)
    }

    /// Compresses the content of one file with the run's codec and level. It fails
    /// exactly where the codec does, with that codec's error.
    pub fn encode(&self, data: &[u8]) -> (r: Result<Vec<u8>, Error>)
        ensures
            match encoded(self.codec, data@, self.level) {
                Some(bytes) => r matches Ok(out) && out@ == bytes,
                None => r matches Err(e) && is_codec_error(self.codec, e),
            },
    {
        encode(self.codec, data, self.level)
    }

    /// Counts one entry, once it has been appended to the archive.
    pub fn appended(&mut self)
        requires
            old(self).file_count < u64::MAX,
        ensures
            final(self).file_count == old(self).file_count + 1,
            final(self).source == old(self).source,
            final(self).target == old(self).target,
            final(self).pattern == old(self).pattern,
            final(self).codec == old(self).codec,
            final(self).level == old(self).level,
    {
        self.file_count = self.file_count + 1;
    }

    /// The summary of the run: the entries counted, the time it took and the size of
    /// the archive, the last two where they could be had.
    pub fn summary(&self, elapsed: Option<(u64, u32)>, size: Option<u64>) -> (r: RunSummary)
        requires
            elapsed matches Some(span) ==> span.1 < 1_000_000_000,
        ensures
            r.file_count == self.file_count,
            text_of(r.duration) == elapsed_text(elapsed),
            text_of(r.file_size) == stored_text(size),
    {
        let file_size = match size {
            Some(bytes) => Some(size_string(bytes)),
            None => None,
        };
        RunSummary { file_count: self.file_count, duration: elapsed_string(elapsed), file_size }
    }
}

/// A run that meets nothing but directories under its root packs no entry, and does
/// not fail.
pub proof fn lemma_directories_pack_nothing(source: Seq<char>, matches: Seq<(Seq<char>, bool)>)
    requires
        forall|i: int|
            0 <= i < matches.len() ==> (#[trigger] matches[i]).1 && stripped_of(
                matches[i].0,
                source,
            ) is Some,
    ensures
        packed_names(source, matches) == Some(Seq::<Seq<char>>::empty()),
        packed_count(source, matches) == Some(0nat),
    decreases matches.len(),
{
    if matches.len() > 0 {
        let before = matches.drop_last();
        assert forall|i: int| 0 <= i < before.len() implies (#[trigger] before[i]).1
            && stripped_of(before[i].0, source) is Some by {
            assert(before[i] == matches[i]);
        }
        lemma_directories_pack_nothing(source, before);
        assert(matches.last() == matches[matches.len() - 1]);
    }
}

/// Bytes read as text the way `String::from_utf8_lossy` reads them: what is not UTF-8
/// becomes the replacement character.
pub uninterp spec fn lossy_text(data: Seq<u8>) -> Seq<char>;

/// `String::from_utf8_lossy` of `data`, as an owned string.
#[verifier::external_body]
fn lossy_string(data: &[u8]) -> (r: String)
    ensures
        r@ == lossy_text(data@),
{
    String::from_utf8_lossy(data).into_owned()
}

/// A run of extracting that has passed its checks: where the entries come from, where
/// they go, which single entry is wanted if any, and how many have been written so far.
pub struct UnarchiveRun {
    /// The tar file that is read.
    pub source: String,
    /// The directory that the entries are written under.
    pub output: String,
    /// The stored path of the one entry that is wanted; empty where all are.
    pub file: String,
    /// The codec tag in the source's name. It is resolved when the first entry is
    /// decoded.
    pub tag: String,
    /// The entries written so far.
    pub file_count: u64,
}

/// What to do with one entry of the archive.
pub enum Extraction {
    /// The entry is not the one that is wanted: nothing is to be done.
    Skipped,
    /// The decoded content is to be written to `path`, and the file's modification time
    /// set to `mtime` seconds, where the header has one.
    Persist { path: String, data: Vec<u8>, mtime: Option<i64> },
    /// The decoded content is to be printed as `text`, and nothing written.
    Print { data: Vec<u8>, text: String },
}

/// The codec tag of the archive at the path `source`: that of its final component.
/// `None` where the path has no final component, or that component has no tag.
pub open spec fn source_tag(source: Seq<char>) -> Option<Seq<char>> {
    match file_name_of(source) {
        Some(name) => read_tag(name),
        None => None,
    }
}

/// The directory that `unarchive` extracts to: the target, or the parent of the source
/// where the target is empty. `None` where it refuses the source: for being empty, for
/// having no file name or no codec tag in it, or, where the target is empty, for having
/// no parent.
pub open spec fn unarchive_output(params: UnarchiveParams) -> Option<Seq<char>> {
    if params.source@.len() == 0 || source_tag(params.source@) is None {
        None
    } else if params.target@.len() == 0 {
        parent_of(params.source@)
    } else {
        Some(params.target@)
    }
}

/// Whether the entry stored under `path` is wanted by a run that asks for `file`: every
/// entry where `file` is empty, else the one stored under exactly `file`.
pub open spec fn selects(file: Seq<char>, path: Seq<char>) -> bool {
    file.len() == 0 || file == path
}

/// Whether `r`, with the run going from `before` to `after`, is what becomes of a wanted
/// entry whose payload decoded to `content`. Where all entries are wanted the content
/// goes to the entry's path under the output directory, with the header's modification
/// time, and the entry is counted. Where one entry is wanted its content is to be
/// printed, as it is and as text, and the run stays as it was.
pub open spec fn is_placement(
    before: UnarchiveRun,
    after: UnarchiveRun,
    header: EntryHeader,
    content: Seq<u8>,
    r: Result<Extraction, Error>,
) -> bool {
    if before.file@.len() == 0 {
        &&& r matches Ok(Extraction::Persist { path, data, mtime }) && data@ == content && path@
            == joined(before.output@, header.path@) && seconds_view(mtime)
            == header.spec_restored_mtime()
        &&& after.file_count == before.file_count + 1
        &&& after.source == before.source
        &&& after.output == before.output
        &&& after.file == before.file
        &&& after.tag == before.tag
    } else {
        &&& r matches Ok(Extraction::Print { data, text }) && data@ == content && text@
            == lossy_text(content)
        &&& after == before
    }
}

/// Starts a run of extracting. Nothing is read or written yet: the source is checked,
/// its codec tag is found and the output directory is settled.
///
/// A source that is empty, that has no final component, whose final component has
/// fewer than three pieces between dots or, where no target is given, that has no
/// parent directory is an `InvalidArg` that carries the source. Otherwise the run is
/// ready, with no entry counted.
pub fn unarchive(params: UnarchiveParams) -> (r: Result<UnarchiveRun, Error>)
    ensures
        match unarchive_output(params) {
            None => r matches Err(Error::InvalidArg { path }) && path@ == params.source@,
            Some(output) => r matches Ok(run) && run.source@ == params.source@ && run.output@
                == output && run.file@ == params.file@ && Some(run.tag@) == source_tag(
                params.source@,
            ) && run.file_count == 0,
        },
{
    if params.source.as_str().is_empty() {
        return Err(Error::InvalidArg { path: params.source });
    }
    let name = match file_name(params.source.as_str()) {
        Some(name) => name,
        None => {
            return Err(Error::InvalidArg { path: params.source });
        },
    };
    let tag = match source_codec_tag(name.as_str()) {
        Some(tag) => tag,
        None => {
            return Err(Error::InvalidArg { path: params.source });
        },
    };
    let output = if params.target.as_str().is_empty() {
        match parent(params.source.as_str()) {
            Some(dir) => dir,
            None => {
                return Err(Error::InvalidArg { path: params.source });
            },
        }
    } else {
        params.target
    };
    Ok(UnarchiveRun { source: params.source, output, file: params.file, tag, file_count: 0 })
}

impl UnarchiveRun {
    /// Whether the entry stored under `path` is wanted. One that is not need not even
    /// be read.
    pub fn wants(&self, path: &str) -> (r: bool)
        ensures
            r == selects(self.file@, path@),
    {
        self.file.as_str().is_empty() || same_text(self.file.as_str(), path)
    }

    /// Decides what to do with a wanted entry once its payload has been decoded, for
    /// every way the decoding can have ended.
    ///
    /// A failed decoding is handed on as it is, and the run stays as it was. Where all
    /// entries are wanted the content goes to the entry's path under the output
    /// directory, with the header's modification time, and the entry is counted. Where
    /// one entry is wanted its content is to be printed, and nothing is written or
    /// counted.
    pub fn placed(&mut self, header: &EntryHeader, decoded: Result<Vec<u8>, Error>) -> (r: Result<
        Extraction,
        Error,
    >)
        requires
            old(self).file@.len() == 0 ==> old(self).file_count < u64::MAX,
        ensures
            match decoded {
                Err(e) => r == Err::<Extraction, Error>(e) && *final(self) == *old(self),
                Ok(content) => is_placement(*old(self), *final(self), *header, content@, r),
            },
    {
        let data = match decoded {
            Ok(data) => data,
            Err(err) => {
                return Err(err);
            },
        };
        if self.file.as_str().is_empty() {
            let path = join(self.output.as_str(), header.path.as_str());
            let mtime = header.restored_mtime();
            self.file_count = self.file_count + 1;
            Ok(Extraction::Persist { path, data, mtime })
        } else {
            let text = lossy_string(data.as_slice());
            Ok(Extraction::Print { data, text })
        }
    }

    /// Decides what to do with one entry, from its header and its stored payload.
    ///
    /// An entry that is not wanted is skipped, whatever its payload holds. A wanted one
    /// is decoded with the codec that the source's tag names; a tag that names none is
    /// an `InvalidCompression` that carries the tag, and a payload that the codec
    /// rejects, and no other, is that codec's error. Where all entries are wanted the content goes to
    /// the entry's path under the output directory and the entry is counted; where one
    /// entry is wanted its content is printed, and nothing is written or counted.
    pub fn extract(&mut self, header: &EntryHeader, payload: &[u8]) -> (r: Result<
        Extraction,
        Error,
    >)
        requires
            old(self).file@.len() == 0 ==> old(self).file_count < u64::MAX,
        ensures
            !selects(old(self).file@, header.path@) ==> (r matches Ok(Extraction::Skipped)
                && *final(self) == *old(self)),
            selects(old(self).file@, header.path@) ==> match codec_for_tag(old(self).tag@) {
                None => r matches Err(Error::InvalidCompression { compression })
                    && compression@ == old(self).tag@ && *final(self) == *old(self),
                Some(codec) => match decoded(codec, payload@) {
                    None => r matches Err(e) && is_codec_error(codec, e) && *final(self)
                        == *old(self),
                    Some(content) => is_placement(*old(self), *final(self), *header, content, r),
                },
            },
    {
        if !self.wants(header.path.as_str()) {
            return Ok(Extraction::Skipped);
        }
        let codec = match Codec::from_tag(self.tag.as_str()) {
            Ok(codec) => codec,
            Err(err) => {
                return Err(err);
            },
        };
        let decoded = decode(codec, payload);
        self.placed(header, decoded)
    }

    /// The summary of the run, where all entries were wanted: the entries counted and
    /// the time it took, where the clock allowed to measure it. A run for a single
    /// entry has none.
    pub fn summary(&self, elapsed: Option<(u64, u32)>) -> (r: Option<RunSummary>)
        requires
            elapsed matches Some(span) ==> span.1 < 1_000_000_000,
        ensures
            self.file@.len() != 0 ==> r is None,
            self.file@.len() == 0 ==> (r matches Some(summary) && summary.file_count
                == self.file_count && text_of(summary.duration) == elapsed_text(elapsed)
                && summary.file_size is None),
    {
        if self.file.as_str().is_empty() {
            Some(
                RunSummary {
                    file_count: self.file_count,
                    duration: elapsed_string(elapsed),
                    file_size: None,
                },
            )
        } else {
            None
        }
    }
}

/// Starts the listing of the archive `target`. An empty `target` is an `InvalidArg`;
/// otherwise the listing is ready, with no entry in it.
pub fn ls(target: &str) -> (r: Result<Listing, Error>)
    ensures
        match r {
            Ok(listing) => target@.len() != 0 && listing@ == Seq::<Seq<char>>::empty(),
            Err(e) => target@.len() == 0 && (e matches Error::InvalidArg { path } && path@
                == target@),
        },
{
    if target.is_empty() {
        return Err(Error::InvalidArg { path: target.to_owned() });
    }
    Ok(Listing::new())
}

/// An archive created under a name of exactly three pieces is read with the tag it
/// was created with.
pub proof fn lemma_read_tag_is_created_tag(name: Seq<char>)
    requires
        split_on(name, '.').len() == 3,
        created_tag(name) is Some,
    ensures
        read_tag(name) == created_tag(name),
{
}

} // verus!
