//! The listing of an archive: one line for each entry, made from its header alone, under
//! a line that counts them.

use crate::metadata::seconds_of;
use crate::metadata::signed_seconds;
use crate::metadata::EntryHeader;
use crate::text::decimal;
use crate::text::decimal_text;
use crate::text::texts;
use pad::Alignment;
use pad::PadStr;
use vstd::prelude::*;

verus! {

/// The columns that a size is aligned in.
pub const SIZE_WIDTH: usize = 8;

/// The columns that a time is aligned in.
pub const TIME_WIDTH: usize = 19;

/// The first second of the calendar that dates are written in, counted from the
/// epoch: the start of the year 262144 BCE.
pub const CALENDAR_FIRST: i64 = -8_334_601_228_800;

/// The last second of that calendar: the end of the year 262142.
pub const CALENDAR_LAST: i64 = 8_210_266_876_799;

/// The seconds of a day. No time zone lies as far as this from UTC.
pub const DAY: i64 = 86_400;

/// The ten characters that `unix_mode::to_string` writes for mode bits, as `ls` would.
pub uninterp spec fn mode_text(mode: u32) -> Seq<char>;

/// A byte count as `bytesize::ByteSize` displays it.
pub uninterp spec fn size_text(bytes: u64) -> Seq<char>;

/// The columns that a text takes on a terminal, as the `pad` crate measures it.
pub uninterp spec fn text_columns(text: Seq<char>) -> nat;

/// The date and the time of day that lie `seconds` after the epoch, as `chrono` writes
/// them without a zone: year, month and day, then hours, minutes and seconds.
pub uninterp spec fn date_text(seconds: i64) -> Seq<char>;

/// What stands in a column whose value could not be read.
pub open spec fn placeholder() -> Seq<char> {
    seq!['-', '-']
}

/// What separates two columns.
pub open spec fn gap() -> Seq<char> {
    seq![' ', ' ']
}

/// `n` spaces.
pub open spec fn spaces(n: nat) -> Seq<char> {
    Seq::new(n, |i: int| ' ')
}

/// Whether a text holds printable ASCII only.
pub open spec fn is_plain(text: Seq<char>) -> bool {
    forall|i: int| 0 <= i < text.len() ==> ' ' <= #[trigger] text[i] <= '~'
}

/// A text that takes `columns` columns, padded to `width`: the text stands at the right
/// end of the column, and the spaces that it falls short by stand in front of it. A
/// text that fills the column or more stays as it is.
pub open spec fn aligned(text: Seq<char>, columns: nat, width: nat) -> Seq<char> {
    if columns >= width {
        text
    } else {
        spaces((width - columns) as nat) + text
    }
}

/// `text` aligned to the right in `width` columns.
pub open spec fn right_aligned(text: Seq<char>, width: nat) -> Seq<char> {
    aligned(text, text_columns(text), width)
}

/// `unix_mode::to_string`: the file type and the permissions in ten characters.
#[verifier::external_body]
fn mode_string(mode: u32) -> (r: String)
    ensures
        r@ == mode_text(mode),
        r@.len() == 10,
{
    unix_mode::to_string(mode)
}

/// `bytesize::ByteSize`, displayed by `to_string`.
#[verifier::external_body]
pub(crate) fn size_string(bytes: u64) -> (r: String)
    ensures
        r@ == size_text(bytes),
{
    bytesize::ByteSize(bytes).to_string()
}

/// `pad::PadStr::pad_to_width_with_alignment` to the right: a text narrower than
/// `width` columns gets the missing spaces in front, any other comes back as it is.
/// The columns are counted by `unicode_width`, for which each character of printable
/// ASCII takes one.
#[verifier::external_body]
fn pad_left(text: &str, width: usize) -> (r: String)
    ensures
        r@ == aligned(text@, text_columns(text@), width as nat),
        is_plain(text@) ==> r@ == aligned(text@, text@.len(), width as nat),
{
    text.pad_to_width_with_alignment(width, Alignment::Right)
}

/// The offset of the machine's time zone from UTC at `seconds` after the epoch, in
/// seconds: `chrono::DateTime::from_timestamp`, converted to `chrono::Local`, of which
/// `offset` and `local_minus_utc` give the number. Which offset it is depends on the
/// machine; every offset that `chrono` can hold is less than a day.
#[verifier::external_body]
fn zone_offset(seconds: i64) -> (r: i32)
    requires
        CALENDAR_FIRST <= seconds <= CALENDAR_LAST,
    ensures
        -DAY < r < DAY,
{
    let utc = chrono::DateTime::from_timestamp(seconds, 0).unwrap_or_default();
    chrono::DateTime::<chrono::Local>::from(utc).offset().local_minus_utc()
}

/// `chrono::DateTime::from_timestamp`, written without a zone by `naive_utc` and
/// `to_string`. Within the calendar the date exists.
#[verifier::external_body]
fn date_string(seconds: i64) -> (r: String)
    requires
        CALENDAR_FIRST <= seconds <= CALENDAR_LAST,
    ensures
        r@ == date_text(seconds),
{
    chrono::DateTime::from_timestamp(seconds, 0).unwrap_or_default().naive_utc().to_string()
}

/// The seconds after the epoch that a modification time is shown as: the time itself,
/// read as a signed number, or the epoch where the calendar does not reach that far.
pub open spec fn shown_seconds(mtime: u64) -> int {
    if CALENDAR_FIRST <= signed_seconds(mtime) <= CALENDAR_LAST {
        signed_seconds(mtime)
    } else {
        0
    }
}

/// The seconds that a modification time is written as in a time zone that is `offset`
/// seconds ahead of UTC: the shown time with the offset added, or, where the offset
/// leads out of the calendar, the epoch with the offset added.
pub open spec fn local_shown(mtime: u64, offset: int) -> int {
    if CALENDAR_FIRST <= shown_seconds(mtime) + offset <= CALENDAR_LAST {
        shown_seconds(mtime) + offset
    } else {
        offset
    }
}

/// Whether `text` is a modification time as some time zone shows it: the date and the
/// time of day that the zone's offset, of less than a day, leads to.
pub open spec fn is_local_time(text: Seq<char>, mtime: u64) -> bool {
    exists|offset: int|
        #![trigger local_shown(mtime, offset)]
        -DAY < offset < DAY && text == date_text(local_shown(mtime, offset) as i64)
}

/// The mode column: the permissions, or the placeholder.
pub open spec fn mode_column(mode: Option<u32>) -> Seq<char> {
    match mode {
        Some(bits) => mode_text(bits),
        None => placeholder(),
    }
}

/// The size column: the size for a human reader, or the placeholder, aligned right.
pub open spec fn size_column(size: Option<u64>) -> Seq<char> {
    match size {
        Some(bytes) => right_aligned(size_text(bytes), SIZE_WIDTH as nat),
        None => right_aligned(placeholder(), SIZE_WIDTH as nat),
    }
}

/// The time column for a time already written out, or the placeholder, aligned right.
pub open spec fn time_column(time: Option<Seq<char>>) -> Seq<char> {
    match time {
        Some(text) => right_aligned(text, TIME_WIDTH as nat),
        None => right_aligned(placeholder(), TIME_WIDTH as nat),
    }
}

/// One line of the listing: mode, size, time and path, two spaces between them.
pub open spec fn line_of(mode: Seq<char>, size: Seq<char>, time: Seq<char>, path: Seq<char>) -> Seq<
    char,
> {
    mode + gap() + size + gap() + time + gap() + path
}

/// The line that counts the entries.
pub open spec fn total_line(count: nat) -> Seq<char> {
    seq!['t', 'o', 't', 'a', 'l', ' '] + decimal(count)
}

/// Whether `line` is the line for `header`. Which time zone a time is written in
/// depends on the machine; the rest of the line is fixed by the header.
pub open spec fn is_entry_line(line: Seq<char>, header: EntryHeader) -> bool {
    match header.mtime {
        Some(mtime) => exists|time: Seq<char>|
            is_local_time(time, mtime) && line == #[trigger] line_of(
                mode_column(header.mode),
                size_column(header.size),
                time_column(Some(time)),
                header.path@,
            ),
        None => line == line_of(
            mode_column(header.mode),
            size_column(header.size),
            time_column(None),
            header.path@,
        ),
    }
}

/// The mode column of a header.
pub fn mode_column_text(mode: Option<u32>) -> (r: String)
    ensures
        r@ == mode_column(mode),
        mode is None ==> r@ == placeholder(),
{
    match mode {
        Some(bits) => mode_string(bits),
        None => {
            proof {
                reveal_strlit("--");
            }
            let r = "--".to_owned();
            assert(r@ =~= placeholder());
            r
        },
    }
}

/// The placeholder aligned right in `width` columns.
fn placeholder_column(width: usize) -> (r: String)
    ensures
        r@ == right_aligned(placeholder(), width as nat),
        width >= 2 ==> r@ == spaces((width - 2) as nat) + placeholder(),
{
    proof {
        reveal_strlit("--");
        assert("--"@ =~= placeholder());
    }
    pad_left("--", width)
}

/// The size column of a header.
pub fn size_column_text(size: Option<u64>) -> (r: String)
    ensures
        r@ == size_column(size),
        size is None ==> r@ == spaces(6) + placeholder(),
{
    match size {
        Some(bytes) => {
            let text = size_string(bytes);
            pad_left(text.as_str(), SIZE_WIDTH)
        },
        None => placeholder_column(SIZE_WIDTH),
    }
}

/// The time column for a time already written out.
pub fn time_column_text(time: Option<&str>) -> (r: String)
    ensures
        r@ == time_column(
            match time {
                Some(text) => Some(text@),
                None => None,
            },
        ),
        time is None ==> r@ == spaces(17) + placeholder(),
{
    match time {
        Some(text) => pad_left(text, TIME_WIDTH),
        None => placeholder_column(TIME_WIDTH),
    }
}

/// Puts the four columns of a line together.
pub fn entry_line(mode: &str, size: &str, time: &str, path: &str) -> (r: String)
    ensures
        r@ == line_of(mode@, size@, time@, path@),
{
    proof {
        reveal_strlit("  ");
        assert("  "@ =~= gap());
    }
    let mut r = mode.to_owned();
    r.append("  ");
    r.append(size);
    r.append("  ");
    r.append(time);
    r.append("  ");
    r.append(path);
    r
}

/// The seconds after the epoch that a modification time is shown as.
pub fn shown_time(mtime: u64) -> (r: i64)
    ensures
        r == shown_seconds(mtime),
{
    let signed = seconds_of(mtime);
    if CALENDAR_FIRST <= signed && signed <= CALENDAR_LAST {
        signed
    } else {
        0
    }
}

/// The seconds that a modification time is written as in a time zone that is `offset`
/// seconds ahead of UTC.
pub fn local_seconds(mtime: u64, offset: i32) -> (r: i64)
    ensures
        r == local_shown(mtime, offset as int),
        CALENDAR_FIRST <= shown_seconds(mtime) + offset <= CALENDAR_LAST ==> r == shown_seconds(
            mtime,
        ) + offset,
        CALENDAR_FIRST <= r <= CALENDAR_LAST,
{
    let local: i64 = shown_time(mtime) + (offset as i64);
    if CALENDAR_FIRST <= local && local <= CALENDAR_LAST {
        local
    } else {
        offset as i64
    }
}

/// Writes a modification time in the machine's time zone: the date and the time of
/// day that the zone's offset leads to. A time that the calendar does not reach is
/// written as the epoch.
fn time_text(mtime: u64) -> (r: String)
    ensures
        is_local_time(r@, mtime),
{
    let offset = zone_offset(shown_time(mtime));
    let local = local_seconds(mtime, offset);
    let r = date_string(local);
    assert(r@ == date_text(local_shown(mtime, offset as int) as i64));
    r
}

/// The lines of a listing, collected entry by entry in the order of the archive.
pub struct Listing {
    lines: Vec<String>,
}

impl View for Listing {
    type V = Seq<Seq<char>>;

    /// The entry lines so far, first entry first.
    closed spec fn view(&self) -> Seq<Seq<char>> {
        texts(self.lines@)
    }
}

impl Listing {
    /// A listing without entries.
    pub fn new() -> (r: Listing)
        ensures
            r@ == Seq::<Seq<char>>::empty(),
    {
        let r = Listing { lines: Vec::new() };
        assert(r@ =~= Seq::<Seq<char>>::empty());
        r
    }

    /// The number of entries listed so far.
    pub fn len(&self) -> (n: usize)
        ensures
            n == self@.len(),
    {
        self.lines.len()
    }

    /// Adds the line for one entry at the end, its time already written out as `time`
    /// (`None` where the header has none). Only the header is read: the payload of the
    /// entry plays no part.
    pub fn add_timed(&mut self, header: &EntryHeader, time: Option<&str>)
        ensures
            final(self)@ == old(self)@.push(
                line_of(
                    mode_column(header.mode),
                    size_column(header.size),
                    time_column(
                        match time {
                            Some(text) => Some(text@),
                            None => None,
                        },
                    ),
                    header.path@,
                ),
            ),
    {
        let mode = mode_column_text(header.mode);
        let size = size_column_text(header.size);
        let time = time_column_text(time);
        let line = entry_line(mode.as_str(), size.as_str(), time.as_str(), header.path.as_str());
        let ghost before = self.lines@;
        self.lines.push(line);
        assert(texts(self.lines@) =~= texts(before).push(line@));
    }

    /// Adds the line for one entry at the end, its time written out in the machine's
    /// time zone. Only the header is read: the payload of the entry plays no part.
    pub fn add(&mut self, header: &EntryHeader)
        ensures
            final(self)@.len() == old(self)@.len() + 1,
            final(self)@.drop_last() == old(self)@,
            is_entry_line(final(self)@.last(), *header),
    {
        let ghost before = self@;
        match header.mtime {
            Some(mtime) => {
                let text = time_text(mtime);
                self.add_timed(header, Some(text.as_str()));
            },
            None => {
                self.add_timed(header, None);
            },
        }
        assert(self@.drop_last() =~= before);
    }

    /// The whole listing: the line that counts the entries, then the entry lines in the
    /// order in which they were added.
    pub fn render(&self) -> (out: Vec<String>)
        ensures
            texts(out@) == seq![total_line(self@.len())] + self@,
    {
        proof {
            reveal_strlit("total ");
        }
        let mut first = "total ".to_owned();
        let count = decimal_text(self.lines.len() as u64);
        first.append(count.as_str());
        assert(first@ =~= total_line(self@.len()));
        let mut out: Vec<String> = Vec::new();
        out.push(first);
        let mut i: usize = 0;
        assert(texts(out@) =~= seq![total_line(self@.len())] + self@.subrange(0, 0));
        while i < self.lines.len()
            invariant
                i <= self.lines.len(),
                self@ == texts(self.lines@),
                texts(out@) == seq![total_line(self@.len())] + self@.subrange(0, i as int),
            decreases self.lines.len() - i,
        {
            let ghost before = texts(out@);
            out.push(self.lines[i].clone());
            assert(texts(out@) =~= before.push(self.lines[i as int]@));
            assert(self@.subrange(0, i as int + 1) =~= self@.subrange(0, i as int).push(
                self.lines[i as int]@,
            ));
            i += 1;
        }
        assert(self@.subrange(0, i as int) =~= self@);
        out
    }
}

} // verus!
