//! What the command line decides before a run starts: which flags bare arguments stand
//! for, which of the three operations is meant, and where a path that starts at the
//! home directory leads.

use crate::codec::same_text;
use crate::text::join_texts;
use crate::text::texts;
use vstd::prelude::*;

verus! {

/// The operation that a command line asks for.
#[derive(Clone, Copy, Debug, PartialEq, Eq, Structural)]
pub enum Mode {
    Archive,
    Ls,
    Unarchive,
}

/// Whether a text starts with a dash, as a flag does.
pub open spec fn starts_with_dash(s: Seq<char>) -> bool {
    s.len() > 0 && s[0] == '-'
}

/// Whether a text holds an equals sign, as a flag with its value attached does.
pub open spec fn has_equals(s: Seq<char>) -> bool {
    exists|i: int| 0 <= i < s.len() && s[i] == '='
}

/// Whether a text ends in `.tar`.
pub open spec fn ends_with_tar(s: Seq<char>) -> bool {
    s.len() >= 4 && s.subrange(s.len() - 4, s.len() as int) =~= seq!['.', 't', 'a', 'r']
}

/// The flag that the argument at `index` is given without: a bare argument that does
/// not follow a flag names the archive where it ends in `.tar`, and the source
/// otherwise. The first argument is the program's name and never stands for anything.
pub open spec fn implied_flag(arguments: Seq<Seq<char>>, index: int) -> Option<Seq<char>>
    recommends
        0 <= index < arguments.len(),
{
    if index != 0 && !starts_with_dash(arguments[index]) && !starts_with_dash(
        arguments[index - 1],
    ) && !has_equals(arguments[index - 1]) {
        if ends_with_tar(arguments[index]) {
            Some(seq!['-', 't'])
        } else {
            Some(seq!['-', 's'])
        }
    } else {
        None
    }
}

/// The first `upto` arguments, each with its implied flag in front.
pub open spec fn expanded(arguments: Seq<Seq<char>>, upto: int) -> Seq<Seq<char>>
    recommends
        upto <= arguments.len(),
    decreases upto,
{
    if upto <= 0 {
        Seq::empty()
    } else {
        let before = expanded(arguments, upto - 1);
        match implied_flag(arguments, upto - 1) {
            Some(flag) => before.push(flag).push(arguments[upto - 1]),
            None => before.push(arguments[upto - 1]),
        }
    }
}

/// The operation meant by the mode that was asked for, the source, and whether an
/// output directory or a single file was named: naming either means extracting; failing
/// that, no source means listing; failing both, the mode asked for decides, and any
/// that is neither `ls` nor `unarchive` means archiving.
pub open spec fn inferred_mode(mode: Seq<char>, source: Seq<char>, extracting: bool) -> Mode {
    if extracting || mode =~= seq!['u', 'n', 'a', 'r', 'c', 'h', 'i', 'v', 'e'] {
        Mode::Unarchive
    } else if source.len() == 0 || mode =~= seq!['l', 's'] {
        Mode::Ls
    } else {
        Mode::Archive
    }
}

/// A path with a leading `~` replaced by the home directory, where there is one.
pub open spec fn home_expanded(path: Seq<char>, home: Option<Seq<char>>) -> Seq<char> {
    if path.len() > 0 && path[0] == '~' {
        match home {
            Some(dir) => dir + path.subrange(1, path.len() as int),
            None => path,
        }
    } else {
        path
    }
}

/// Whether `s` starts with a dash.
pub fn is_flag(s: &str) -> (r: bool)
    ensures
        r == starts_with_dash(s@),
{
    s.unicode_len() > 0 && s.get_char(0) == '-'
}

/// Whether `s` holds an equals sign.
pub fn holds_equals(s: &str) -> (r: bool)
    ensures
        r == has_equals(s@),
{
    let n = s.unicode_len();
    let mut i: usize = 0;
    while i < n
        invariant
            i <= n,
            n == s@.len(),
            forall|j: int| 0 <= j < i ==> s@[j] != '=',
        decreases n - i,
    {
        if s.get_char(i) == '=' {
            return true;
        }
        i += 1;
    }
    false
}

/// Whether `s` names a tar file by its ending.
pub fn is_tar_name(s: &str) -> (r: bool)
    ensures
        r == ends_with_tar(s@),
{
    proof {
        reveal_strlit(".tar");
        assert(".tar"@ =~= seq!['.', 't', 'a', 'r']);
    }
    let n = s.unicode_len();
    if n < 4 {
        return false;
    }
    same_text(s.substring_char(n - 4, n), ".tar")
}

/// Puts the implied flags in front of the bare arguments of a command line.
pub fn expand_arguments(arguments: &Vec<String>) -> (out: Vec<String>)
    ensures
        texts(out@) == expanded(texts(arguments@), arguments@.len() as int),
{
    let ghost given = texts(arguments@);
    let mut out: Vec<String> = Vec::new();
    let mut i: usize = 0;
    assert(texts(out@) =~= expanded(given, 0));
    while i < arguments.len()
        invariant
            i <= arguments.len(),
            given == texts(arguments@),
            texts(out@) == expanded(given, i as int),
        decreases arguments.len() - i,
    {
        let item = arguments[i].as_str();
        let ghost before = texts(out@);
        assert(given[i as int] == item@);
        let mut bare = false;
        if i != 0 && !is_flag(item) {
            let prev = arguments[i - 1].as_str();
            assert(given[i as int - 1] == prev@);
            bare = !is_flag(prev) && !holds_equals(prev);
        }
        if bare {
            let ghost flag = implied_flag(given, i as int).unwrap();
            proof {
                reveal_strlit("-t");
                reveal_strlit("-s");
                assert("-t"@ =~= seq!['-', 't']);
                assert("-s"@ =~= seq!['-', 's']);
            }
            if is_tar_name(item) {
                out.push("-t".to_owned());
            } else {
                out.push("-s".to_owned());
            }
            assert(texts(out@) =~= before.push(flag));
            let ghost flagged = texts(out@);
            out.push(item.to_owned());
            assert(texts(out@) =~= flagged.push(item@));
        } else {
            out.push(item.to_owned());
            assert(implied_flag(given, i as int) is None);
            assert(texts(out@) =~= before.push(item@));
        }
        i += 1;
    }
    out
}

/// Decides which operation a command line asks for.
pub fn infer_mode(mode: &str, source: &str, output_given: bool, file_given: bool) -> (r: Mode)
    ensures
        r == inferred_mode(mode@, source@, output_given || file_given),
{
    proof {
        reveal_strlit("unarchive");
        reveal_strlit("ls");
        assert("unarchive"@ =~= seq!['u', 'n', 'a', 'r', 'c', 'h', 'i', 'v', 'e']);
        assert("ls"@ =~= seq!['l', 's']);
    }
    if output_given || file_given || same_text(mode, "unarchive") {
        Mode::Unarchive
    } else if source.is_empty() || same_text(mode, "ls") {
        Mode::Ls
    } else {
        Mode::Archive
    }
}

/// Replaces a leading `~` by the home directory, where there is one.
pub fn expand_home(path: &str, home: Option<&str>) -> (r: String)
    ensures
        r@ == home_expanded(path@, match home {
            Some(dir) => Some(dir@),
            None => None,
        }),
{
    let n = path.unicode_len();
    if n > 0 && path.get_char(0) == '~' {
        match home {
            Some(dir) => join_texts(dir, path.substring_char(1, n)),
            None => path.to_owned(),
        }
    } else {
        path.to_owned()
    }
}

} // verus!
