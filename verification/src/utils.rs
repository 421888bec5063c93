//! Turning the name that a sender gives a file into a path that stays
//! below the directory the files are saved to, and reading what a user
//! answers to a question.

use vstd::prelude::*;
use crate::text::{chars_of, same_text};

verus! {

/// What `path_clean::clean` makes of a path, as text.
pub uninterp spec fn path_cleaned(path: Seq<char>) -> Seq<char>;

/// Cleans a path with `path_clean::clean`, which works on the text alone
/// and never fails. The result is given back as text.
#[verifier::external_body]
pub(crate) fn clean_path(path: &str) -> (out: String)
    ensures
        out@ == path_cleaned(path@),
{
    path_clean::clean(path).to_string_lossy().into_owned()
}

/// Whether a text holds no separator.
pub open spec fn plain(text: Seq<char>) -> bool {
    forall|i: int| 0 <= i < text.len() ==> text[i] != '/'
}

/// Where the last separator of a path stands; -1 where it has none.
pub open spec fn last_separator(path: Seq<char>) -> int
    decreases path.len(),
{
    if path.len() == 0 {
        -1
    } else if path.last() == '/' {
        path.len() - 1
    } else {
        last_separator(path.drop_last())
    }
}

/// The parts of a path that its separators set apart, empty ones included.
/// A path of `n` separators has `n + 1` parts.
pub open spec fn segments(path: Seq<char>) -> Seq<Seq<char>>
    decreases path.len(),
    via segments_decreases
{
    let at = last_separator(path);
    if at < 0 {
        seq![path]
    } else {
        segments(path.subrange(0, at)).push(path.subrange(at + 1, path.len() as int))
    }
}

#[via_fn]
proof fn segments_decreases(path: Seq<char>) {
    lemma_last_separator(path);
}

/// The parts put together again, with one separator between each two.
pub open spec fn joined(parts: Seq<Seq<char>>) -> Seq<char>
    decreases parts.len(),
{
    if parts.len() == 0 {
        Seq::empty()
    } else if parts.len() == 1 {
        parts[0]
    } else {
        joined(parts.drop_last()) + seq!['/'] + parts.last()
    }
}

/// Whether a part names something below the directory it stands in: it is
/// not empty, not `.` and not `..`.
pub open spec fn keeps(part: Seq<char>) -> bool {
    part.len() > 0 && part != seq!['.'] && part != seq!['.', '.']
}

/// The parts that name something, in their order.
pub open spec fn kept(parts: Seq<Seq<char>>) -> Seq<Seq<char>>
    decreases parts.len(),
{
    if parts.len() == 0 {
        Seq::empty()
    } else if keeps(parts.last()) {
        kept(parts.drop_last()).push(parts.last())
    } else {
        kept(parts.drop_last())
    }
}

/// A path with every part taken out that is empty, `.` or `..`. What is
/// left of a path that had no other parts is `.`.
pub open spec fn confined(path: Seq<char>) -> Seq<char> {
    let parts = kept(segments(path));
    if parts.len() == 0 {
        seq!['.']
    } else {
        joined(parts)
    }
}

/// Whether a path, joined to a directory, stays below it: it is `.`, or
/// each of its parts names something. Such a path does not begin with a
/// separator and has no part `..`.
pub open spec fn is_confined(path: Seq<char>) -> bool {
    path == seq!['.'] || forall|i: int|
        0 <= i < segments(path).len() ==> keeps(#[trigger] segments(path)[i])
}

/// What a sender's file name becomes: cleaned, then confined.
pub open spec fn sanitized(file_path: Seq<char>) -> Seq<char> {
    confined(path_cleaned(file_path))
}

/// The last separator stands where a separator is, and none follows it.
pub proof fn lemma_last_separator(path: Seq<char>)
    ensures
        -1 <= last_separator(path) < path.len(),
        last_separator(path) >= 0 ==> path[last_separator(path)] == '/',
        forall|i: int| last_separator(path) < i < path.len() ==> path[i] != '/',
    decreases path.len(),
{
    if path.len() > 0 && path.last() != '/' {
        let rest = path.drop_last();
        lemma_last_separator(rest);
        assert forall|i: int| last_separator(path) < i < path.len() implies path[i] != '/' by {
            if i < rest.len() {
                assert(rest[i] == path[i]);
            }
        }
    }
}

/// A separator that none follows is the last.
pub proof fn lemma_last_separator_is(path: Seq<char>, at: int)
    requires
        0 <= at < path.len(),
        path[at] == '/',
        forall|i: int| at < i < path.len() ==> path[i] != '/',
    ensures
        last_separator(path) == at,
{
    lemma_last_separator(path);
}

/// A text without a separator is one part.
pub proof fn lemma_segments_plain(path: Seq<char>)
    requires
        plain(path),
    ensures
        segments(path) == seq![path],
{
    lemma_last_separator(path);
}

/// A separator and a text without one, put behind a path, add one part.
pub proof fn lemma_segments_push(path: Seq<char>, part: Seq<char>)
    requires
        plain(part),
    ensures
        segments(path + seq!['/'] + part) == segments(path).push(part),
{
    let whole = path + seq!['/'] + part;
    lemma_last_separator_is(whole, path.len() as int);
    assert(whole.subrange(0, path.len() as int) =~= path);
    assert(whole.subrange(path.len() as int + 1, whole.len() as int) =~= part);
}

/// No part of a path holds a separator.
pub proof fn lemma_segments_are_plain(path: Seq<char>)
    ensures
        forall|i: int| 0 <= i < segments(path).len() ==> plain(#[trigger] segments(path)[i]),
        segments(path).len() >= 1,
    decreases path.len(),
{
    lemma_last_separator(path);
    let at = last_separator(path);
    if at >= 0 {
        lemma_segments_are_plain(path.subrange(0, at));
    }
}

/// What is kept names something, and comes from the parts it was kept from.
pub proof fn lemma_kept(parts: Seq<Seq<char>>)
    ensures
        forall|i: int| 0 <= i < kept(parts).len() ==> keeps(#[trigger] kept(parts)[i]),
        forall|i: int| 0 <= i < kept(parts).len() ==> parts.contains(#[trigger] kept(parts)[i]),
    decreases parts.len(),
{
    if parts.len() > 0 {
        let rest = parts.drop_last();
        lemma_kept(rest);
        assert forall|i: int| 0 <= i < kept(parts).len() implies parts.contains(
            #[trigger] kept(parts)[i],
        ) by {
            if i < kept(rest).len() {
                assert(rest.contains(kept(rest)[i]));
            } else {
                assert(parts[parts.len() - 1] == kept(parts)[i]);
            }
        }
    }
}

/// Parts without separators, joined and set apart again, are the same parts.
pub proof fn lemma_segments_of_joined(parts: Seq<Seq<char>>)
    requires
        parts.len() >= 1,
        forall|i: int| 0 <= i < parts.len() ==> plain(#[trigger] parts[i]),
    ensures
        segments(joined(parts)) == parts,
    decreases parts.len(),
{
    if parts.len() == 1 {
        lemma_segments_plain(parts[0]);
    } else {
        let rest = parts.drop_last();
        lemma_segments_of_joined(rest);
        lemma_segments_push(joined(rest), parts.last());
    }
}

/// A path that has been confined stays below the directory it is joined to,
/// whatever the path was.
pub proof fn lemma_confined_is_confined(path: Seq<char>)
    ensures
        is_confined(confined(path)),
{
    let parts = kept(segments(path));
    lemma_kept(segments(path));
    lemma_segments_are_plain(path);
    if parts.len() > 0 {
        lemma_segments_of_joined(parts);
    }
}

/// A text that begins with the first of the joined parts.
pub proof fn lemma_joined_begins(parts: Seq<Seq<char>>)
    requires
        parts.len() >= 1,
    ensures
        joined(parts).len() >= parts[0].len(),
        joined(parts).subrange(0, parts[0].len() as int) == parts[0],
    decreases parts.len(),
{
    if parts.len() > 1 {
        lemma_joined_begins(parts.drop_last());
    }
}

/// A path that has been confined is not empty and does not begin with a
/// separator: joined to a directory it names something in it.
pub proof fn lemma_confined_is_relative(path: Seq<char>)
    ensures
        confined(path).len() > 0,
        confined(path)[0] != '/',
{
    let parts = kept(segments(path));
    lemma_kept(segments(path));
    lemma_segments_are_plain(path);
    if parts.len() > 0 {
        lemma_joined_begins(parts);
        assert(joined(parts).subrange(0, parts[0].len() as int)[0] == parts[0][0]);
    }
}

/// The parts of a path, joined again, are the path.
pub proof fn lemma_joined_segments(path: Seq<char>)
    ensures
        joined(segments(path)) == path,
    decreases path.len(),
{
    lemma_last_separator(path);
    let at = last_separator(path);
    if at >= 0 {
        let before = path.subrange(0, at);
        let after = path.subrange(at + 1, path.len() as int);
        lemma_joined_segments(before);
        lemma_segments_are_plain(before);
        lemma_joined_push(segments(before), after);
    }
}

/// Where every part is one to keep, all are kept.
pub proof fn lemma_kept_all(parts: Seq<Seq<char>>)
    requires
        forall|i: int| 0 <= i < parts.len() ==> keeps(#[trigger] parts[i]),
    ensures
        kept(parts) == parts,
    decreases parts.len(),
{
    if parts.len() > 0 {
        lemma_kept_all(parts.drop_last());
    }
}

/// A path that stays below the directory it is joined to is left as it
/// is. So to confine a path twice is to confine it once.
pub proof fn lemma_confined_keeps(path: Seq<char>)
    ensures
        is_confined(path) ==> confined(path) == path,
        confined(confined(path)) == confined(path),
{
    if is_confined(path) {
        lemma_confined_of_confined(path);
    }
    lemma_confined_is_confined(path);
    lemma_confined_of_confined(confined(path));
}

/// A path that stays below the directory it is joined to is left as it is.
proof fn lemma_confined_of_confined(path: Seq<char>)
    requires
        is_confined(path),
    ensures
        confined(path) == path,
{
    if path == seq!['.'] {
        lemma_segments_plain(path);
        reveal_with_fuel(kept, 2);
    } else {
        lemma_kept_all(segments(path));
        lemma_segments_are_plain(path);
        lemma_joined_segments(path);
    }
}

/// Whatever name a sender gives a file, the path it is saved under stays
/// below the directory it is joined to: it is not empty, does not begin
/// with a separator, and has no part that is empty, `.` or `..`, unless it
/// is `.` itself.
pub proof fn lemma_sanitized_is_confined(file_path: Seq<char>)
    ensures
        is_confined(sanitized(file_path)),
        sanitized(file_path).len() > 0,
        sanitized(file_path)[0] != '/',
{
    lemma_confined_is_confined(path_cleaned(file_path));
    lemma_confined_is_relative(path_cleaned(file_path));
}

/// One more part behind the others: it is kept or not by what it is alone.
proof fn lemma_kept_push(parts: Seq<Seq<char>>, part: Seq<char>)
    ensures
        kept(parts.push(part)) == if keeps(part) {
            kept(parts).push(part)
        } else {
            kept(parts)
        },
{
    assert(parts.push(part).drop_last() =~= parts);
}

/// One more part behind the others: it is joined on with a separator, if
/// there are others.
proof fn lemma_joined_push(parts: Seq<Seq<char>>, part: Seq<char>)
    ensures
        joined(parts.push(part)) == if parts.len() == 0 {
            part
        } else {
            joined(parts) + seq!['/'] + part
        },
{
    assert(parts.push(part).drop_last() =~= parts);
}

/// Puts a part behind what has been written of a path, if it is one to keep.
fn write_part(out: &mut String, any: &mut bool, part: &str, Ghost(parts): Ghost<Seq<Seq<char>>>)
    requires
        old(out)@ == joined(kept(parts)),
        *old(any) == (kept(parts).len() > 0),
    ensures
        final(out)@ == joined(kept(parts.push(part@))),
        *final(any) == (kept(parts.push(part@)).len() > 0),
{
    proof {
        reveal_strlit(".");
        reveal_strlit("..");
        reveal_strlit("/");
        assert("."@ =~= seq!['.']);
        assert(".."@ =~= seq!['.', '.']);
        lemma_kept_push(parts, part@);
        lemma_joined_push(kept(parts), part@);
    }
    if !part.is_empty() && !same_text(part, ".") && !same_text(part, "..") {
        if *any {
            out.append("/");
        }
        out.append(part);
        *any = true;
    }
}

/// Takes out of a path every part that is empty, `.` or `..`, so that what
/// is left stays below the directory it is joined to.
pub fn confine(path: &str) -> (out: String)
    ensures
        out@ == confined(path@),
        is_confined(out@),
        out@.len() > 0,
        out@[0] != '/',
{
    let chars = chars_of(path);
    let mut out = String::new();
    let mut any = false;
    let mut start: usize = 0;
    let mut i: usize = 0;
    let ghost mut done: Seq<Seq<char>> = Seq::empty();
    while i < chars.len()
        invariant
            chars@ == path@,
            start <= i <= chars.len(),
            plain(path@.subrange(start as int, i as int)),
            start > 0 ==> path@[start - 1] == '/',
            done == if start == 0 {
                Seq::<Seq<char>>::empty()
            } else {
                segments(path@.subrange(0, start - 1))
            },
            out@ == joined(kept(done)),
            any == (kept(done).len() > 0),
        decreases chars.len() - i,
    {
        if chars[i] == '/' {
            let part = path.substring_char(start, i);
            proof {
                lemma_part_done(path@, start as int, i as int);
            }
            write_part(&mut out, &mut any, part, Ghost(done));
            proof {
                done = done.push(part@);
            }
            start = i + 1;
        }
        i += 1;
    }
    let part = path.substring_char(start, i);
    proof {
        lemma_part_done(path@, start as int, i as int);
        assert(path@.subrange(0, i as int) =~= path@);
        lemma_confined_is_confined(path@);
        lemma_confined_is_relative(path@);
    }
    write_part(&mut out, &mut any, part, Ghost(done));
    if any {
        out
    } else {
        proof {
            reveal_strlit(".");
        }
        ".".to_owned()
    }
}

/// The parts of a path up to `end`, where the part that begins at `start`
/// holds no separator and a separator stands before it.
proof fn lemma_part_done(path: Seq<char>, start: int, end: int)
    requires
        0 <= start <= end <= path.len(),
        plain(path.subrange(start, end)),
        start > 0 ==> path[start - 1] == '/',
    ensures
        segments(path.subrange(0, end)) == (if start == 0 {
            Seq::<Seq<char>>::empty()
        } else {
            segments(path.subrange(0, start - 1))
        }).push(path.subrange(start, end)),
{
    if start == 0 {
        lemma_segments_plain(path.subrange(0, end));
    } else {
        lemma_segments_push(path.subrange(0, start - 1), path.subrange(start, end));
        assert(path.subrange(0, end) =~= path.subrange(0, start - 1) + seq!['/'] + path.subrange(
            start,
            end,
        ));
    }
}

/// Turns the name that a sender gives a file into a path to save it under.
///
/// The name is cleaned first: `.` parts go, and `..` parts go together
/// with the part before them. Then the path is confined: what is left of
/// `..`, and a separator at the beginning, go too. So the result, joined to a
/// directory, always names something below that directory.
pub fn sanitize_relative_path(file_path: &str) -> (out: String)
    ensures
        out@ == sanitized(file_path@),
        is_confined(out@),
        out@.len() > 0,
        out@[0] != '/',
{
    let cleaned = clean_path(file_path);
    confine(cleaned.as_str())
}

/// What `str::trim_end` leaves of a text: the text without the whitespace
/// at its end.
pub uninterp spec fn trimmed_end(text: Seq<char>) -> Seq<char>;

/// What `str::to_lowercase` makes of a text.
pub uninterp spec fn lowercased(text: Seq<char>) -> Seq<char>;

/// Takes the whitespace off the end of a text with `str::trim_end`.
#[verifier::external_body]
fn trim_end(text: &str) -> (out: &str)
    ensures
        out@ == trimmed_end(text@),
{
    text.trim_end()
}

/// Puts a text into lower case with `str::to_lowercase`.
#[verifier::external_body]
fn to_lowercase(text: &str) -> (out: String)
    ensures
        out@ == lowercased(text@),
{
    text.to_lowercase()
}

/// What is shown behind a question to say how it can be answered, with the
/// answer in capitals that the question suggests.
pub open spec fn options_shown(default: Option<bool>) -> Seq<char> {
    match default {
        Some(true) => "(Y/n)"@,
        Some(false) => "(y/N)"@,
        None => "(y/n)"@,
    }
}

/// What is shown behind a question to say how it can be answered.
pub fn options_text(default: Option<bool>) -> (out: &'static str)
    ensures
        out@ == options_shown(default),
{
    match default {
        Some(true) => "(Y/n)",
        Some(false) => "(y/N)",
        None => "(y/n)",
    }
}

/// What a word says to a question: yes for `y` and `yes`, no for `n` and
/// `no`, and nothing for any other word.
pub open spec fn answer_of(word: Seq<char>) -> Option<bool> {
    if word == "y"@ || word == "yes"@ {
        Some(true)
    } else if word == "n"@ || word == "no"@ {
        Some(false)
    } else {
        None
    }
}

/// Reads a word as the answer to a question.
pub fn read_word(word: &str) -> (out: Option<bool>)
    ensures
        out == answer_of(word@),
{
    if same_text(word, "y") || same_text(word, "yes") {
        Some(true)
    } else if same_text(word, "n") || same_text(word, "no") {
        Some(false)
    } else {
        None
    }
}

/// Reads a line that the user typed as the answer to a question. The
/// whitespace at its end and the case of its letters do not count. `None`
/// means that the question has to be asked again.
pub fn read_answer(line: &str) -> (out: Option<bool>)
    ensures
        out == answer_of(lowercased(trimmed_end(line@))),
{
    let word = to_lowercase(trim_end(line));
    read_word(word.as_str())
}

} // verus!
