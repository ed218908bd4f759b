//! The text of a trash record.
//!
//! A record has three lines: the header, the escaped original path after
//! `Path=`, and the time of deletion after `DeletionDate=`. Reading a record
//! looks at each line by itself and takes, for each of the two keys, the
//! first line that starts with the key and `=`; the order of the lines does
//! not matter, and a record that lacks one of the two is incomplete.

use crate::constants::{TRASH_INFO_DATE_KEY, TRASH_INFO_HEADER, TRASH_INFO_PATH_KEY};
use crate::text::{
    chars_of, extend_str, first_index_of, has_prefix, is_single_line,
    lemma_first_index_of_unique, slice_chars, string_of,
};
use crate::url_escape::{
    decoded_path, encoded_path, lemma_decode_encode_round_trip, lemma_encoded_path_single_line,
    trash_spec_url_encode,
};
use vstd::prelude::*;

verus! {

/// The text of the record for an item that lay at `path` and was deleted at
/// `date`.
pub open spec fn record_text(path: Seq<char>, date: Seq<char>) -> Seq<char> {
    TRASH_INFO_HEADER@ + seq!['\n'] + TRASH_INFO_PATH_KEY@ + seq!['='] + encoded_path(path)
        + seq!['\n'] + TRASH_INFO_DATE_KEY@ + seq!['='] + date + seq!['\n']
}

/// Length of the first line of `text`, its line ending not counted in.
///
/// A line ends at a line feed; a carriage return just before that line feed
/// belongs to the line ending. The last line needs no line ending.
pub open spec fn first_line_len(text: Seq<char>) -> int {
    let end = first_index_of(text, '\n');
    if 0 < end < text.len() && text[end - 1] == '\r' {
        end - 1
    } else {
        end
    }
}

/// The first line of `text`, without its line ending.
pub open spec fn first_line(text: Seq<char>) -> Seq<char> {
    text.take(first_line_len(text))
}

/// What follows the first line of `text` and its line ending.
pub open spec fn after_first_line(text: Seq<char>) -> Seq<char> {
    let end = first_index_of(text, '\n');
    if 0 <= end < text.len() {
        text.skip(end + 1)
    } else {
        Seq::empty()
    }
}

/// The value that `line` gives to `key`: what follows `key` and `=` at its
/// start.
pub open spec fn field_value(line: Seq<char>, key: Seq<char>) -> Option<Seq<char>> {
    if (key + seq!['=']).is_prefix_of(line) {
        Some(line.skip(key.len() as int + 1))
    } else {
        None
    }
}

/// The value of the first line of `text` that gives one to `key`.
pub open spec fn find_field(text: Seq<char>, key: Seq<char>) -> Option<Seq<char>>
    decreases text.len(),
{
    if text.len() == 0 {
        None
    } else if field_value(first_line(text), key) is Some {
        field_value(first_line(text), key)
    } else {
        find_field(after_first_line(text), key)
    }
}

/// What a record says: the escaped path and the time of deletion. Either is
/// missing where no line of the record gives it.
pub struct TrashInfoFields {
    pub path: Option<String>,
    pub deletion_date: Option<String>,
}

/// The text of a field that was found, if one was.
pub open spec fn field_text(field: Option<String>) -> Option<Seq<char>> {
    match field {
        Some(s) => Some(s@),
        None => None,
    }
}

/// A text that starts with a whole line and a line feed has that line as its
/// first line and the rest after it.
pub proof fn lemma_first_line(line: Seq<char>, rest: Seq<char>)
    requires
        is_single_line(line),
    ensures
        first_line(line + seq!['\n'] + rest) == line,
        after_first_line(line + seq!['\n'] + rest) == rest,
{
    let text = line + seq!['\n'] + rest;
    let k = line.len() as int;
    assert(text[k] == '\n');
    assert forall|i: int| 0 <= i < k implies text[i] != '\n' by {
        assert(text[i] == line[i]);
    }
    lemma_first_index_of_unique(text, '\n', k);
    if k > 0 {
        assert(text[k - 1] == line[k - 1]);
    }
    assert(text.take(k) == line);
    assert(text.skip(k + 1) == rest);
}

/// Reading the record that was written for an item gives back what was
/// written: the time of deletion as it stands, and an escaped path that
/// stands for the item's path.
pub proof fn lemma_record_round_trip(path: Seq<char>, date: Seq<char>)
    requires
        is_single_line(date),
    ensures
        find_field(record_text(path, date), TRASH_INFO_PATH_KEY@) == Some(encoded_path(path)),
        find_field(record_text(path, date), TRASH_INFO_DATE_KEY@) == Some(date),
        decoded_path(encoded_path(path)) == Some(path),
{
    reveal_strlit("[Trash Info]");
    reveal_strlit("Path");
    reveal_strlit("DeletionDate");
    let header = TRASH_INFO_HEADER@;
    let path_key = TRASH_INFO_PATH_KEY@;
    let date_key = TRASH_INFO_DATE_KEY@;
    let escaped = encoded_path(path);
    let line2 = path_key + seq!['='] + escaped;
    let line3 = date_key + seq!['='] + date;
    let tail3 = line3 + seq!['\n'] + Seq::<char>::empty();
    let tail2 = line2 + seq!['\n'] + tail3;
    let text = header + seq!['\n'] + tail2;
    assert(text == record_text(path, date));
    lemma_encoded_path_single_line(path);
    assert(is_single_line(header));
    assert(is_single_line(line2)) by {
        assert forall|i: int| 0 <= i < line2.len() implies line2[i] != '\n' && line2[i]
            != '\r' by {
            if i >= 5 {
                assert(line2[i] == escaped[i - 5]);
            }
        }
    }
    assert(is_single_line(line3)) by {
        assert forall|i: int| 0 <= i < line3.len() implies line3[i] != '\n' && line3[i]
            != '\r' by {
            if i >= 13 {
                assert(line3[i] == date[i - 13]);
            }
        }
    }
    lemma_first_line(header, tail2);
    lemma_first_line(line2, tail3);
    lemma_first_line(line3, Seq::<char>::empty());
    assert(header[0] == '[');
    assert((path_key + seq!['='])[0] == 'P');
    assert((date_key + seq!['='])[0] == 'D');
    assert(line2[0] == 'P');
    assert(line3[0] == 'D');
    assert(field_value(header, path_key) is None);
    assert(field_value(header, date_key) is None);
    assert(field_value(line2, date_key) is None);
    assert((path_key + seq!['=']).is_prefix_of(line2));
    assert(line2.skip(path_key.len() as int + 1) == escaped);
    assert((date_key + seq!['=']).is_prefix_of(line3));
    assert(line3.skip(date_key.len() as int + 1) == date);
    assert(find_field(tail3, date_key) == Some(date));
    assert(find_field(tail2, date_key) == Some(date));
    assert(find_field(tail2, path_key) == Some(escaped));
    lemma_decode_encode_round_trip(path);
}

/// The text of the record for an item that lay at `original_abs_path` and
/// was deleted at `deletion_date`.
pub fn build_trash_info_content(original_abs_path: &str, deletion_date: &str) -> (r: String)
    ensures
        r@ == record_text(original_abs_path@, deletion_date@),
{
    let mut out: Vec<char> = Vec::new();
    extend_str(&mut out, TRASH_INFO_HEADER);
    out.push('\n');
    extend_str(&mut out, TRASH_INFO_PATH_KEY);
    out.push('=');
    let escaped = trash_spec_url_encode(original_abs_path);
    extend_str(&mut out, escaped.as_str());
    out.push('\n');
    extend_str(&mut out, TRASH_INFO_DATE_KEY);
    out.push('=');
    extend_str(&mut out, deletion_date);
    out.push('\n');
    assert(out@ == record_text(original_abs_path@, deletion_date@));
    string_of(&out)
}

/// The value that `line` gives to `key`, if it gives one.
pub fn get_capture(key: &str, line: &Vec<char>) -> (r: Option<String>)
    ensures
        field_text(r) == field_value(line@, key@),
{
    let mut start = chars_of(key);
    start.push('=');
    if has_prefix(line, &start) {
        let value = slice_chars(line, start.len(), line.len());
        Some(string_of(&value))
    } else {
        None
    }
}

/// Reads a record: the value of the first line that starts with `Path=` and
/// of the first line that starts with `DeletionDate=`.
pub fn parse_trash_info(content: &str) -> (r: TrashInfoFields)
    ensures
        field_text(r.path) == find_field(content@, TRASH_INFO_PATH_KEY@),
        field_text(r.deletion_date) == find_field(content@, TRASH_INFO_DATE_KEY@),
{
    let text = chars_of(content);
    let mut path: Option<String> = None;
    let mut deletion_date: Option<String> = None;
    let mut pos: usize = 0;
    assert(text@.skip(0) == text@);
    while pos < text.len()
        invariant
            pos <= text.len(),
            text@ == content@,
            find_field(text@, TRASH_INFO_PATH_KEY@) == if path is Some {
                field_text(path)
            } else {
                find_field(text@.skip(pos as int), TRASH_INFO_PATH_KEY@)
            },
            find_field(text@, TRASH_INFO_DATE_KEY@) == if deletion_date is Some {
                field_text(deletion_date)
            } else {
                find_field(text@.skip(pos as int), TRASH_INFO_DATE_KEY@)
            },
        decreases text.len() - pos,
    {
        let ghost rest = text@.skip(pos as int);
        let mut end: usize = pos;
        while end < text.len() && text[end] != '\n'
            invariant
                pos <= end <= text.len(),
                forall|j: int| pos <= j < end ==> text@[j] != '\n',
            decreases text.len() - end,
        {
            end += 1;
        }
        proof {
            assert forall|j: int| 0 <= j < end - pos implies rest[j] != '\n' by {
                assert(rest[j] == text@[pos + j]);
            }
            lemma_first_index_of_unique(rest, '\n', end - pos);
        }
        let line_end: usize = if end < text.len() && end > pos && text[end - 1] == '\r' {
            end - 1
        } else {
            end
        };
        let line = slice_chars(&text, pos, line_end);
        assert(line@ == first_line(rest));
        if path.is_none() {
            path = get_capture(TRASH_INFO_PATH_KEY, &line);
        }
        if deletion_date.is_none() {
            deletion_date = get_capture(TRASH_INFO_DATE_KEY, &line);
        }
        let next: usize = if end < text.len() {
            end + 1
        } else {
            end
        };
        assert(text@.skip(next as int) == after_first_line(rest));
        pos = next;
    }
    TrashInfoFields { path, deletion_date }
}

} // verus!
