//! File paths as text: the file name of a path, its extension, and the path
//! with another extension.
//!
//! Both `/` and `\` separate the parts of a path. The file name is what
//! follows the last separator. Its extension is what follows its last dot,
//! where that dot is neither the first nor the last character of the name.

use crate::text::chars_of;
use vstd::prelude::*;
use vstd::string::StrSliceExecFns;
use vstd::string::StringExecFns;

verus! {

pub open spec fn is_separator(c: char) -> bool {
    c == '/' || c == '\\'
}

/// Whether no character of `text` is a separator.
pub open spec fn separator_free(text: Seq<char>) -> bool {
    forall|i: int| 0 <= i < text.len() ==> !is_separator(#[trigger] text[i])
}

/// Whether no character of `text` is a dot.
pub open spec fn dot_free(text: Seq<char>) -> bool {
    forall|i: int| 0 <= i < text.len() ==> #[trigger] text[i] != '.'
}

/// Where the file name of `path` begins: just behind the last separator, or
/// at 0 where there is none.
pub open spec fn name_start(path: Seq<char>) -> int
    decreases path.len(),
{
    if path.len() == 0 {
        0
    } else if is_separator(path.last()) {
        path.len() as int
    } else {
        name_start(path.drop_last())
    }
}

/// The position of the last dot of `name`, or -1 where there is none.
pub open spec fn last_dot(name: Seq<char>) -> int
    decreases name.len(),
{
    if name.len() == 0 {
        -1
    } else if name.last() == '.' {
        name.len() - 1
    } else {
        last_dot(name.drop_last())
    }
}

/// The file name of `path`.
pub open spec fn file_name(path: Seq<char>) -> Seq<char> {
    path.skip(name_start(path))
}

/// Whether the file name of `path` has an extension.
pub open spec fn has_extension(path: Seq<char>) -> bool {
    let name = file_name(path);
    0 < last_dot(name) && last_dot(name) + 1 < name.len()
}

/// The extension of the file name of `path`.
pub open spec fn extension(path: Seq<char>) -> Option<Seq<char>> {
    let name = file_name(path);
    if has_extension(path) {
        Some(name.skip(last_dot(name) + 1))
    } else {
        None
    }
}

/// The length of `path` without the extension of its file name and the dot
/// before it.
pub open spec fn stem_end(path: Seq<char>) -> int {
    if has_extension(path) {
        name_start(path) + last_dot(file_name(path))
    } else {
        path.len() as int
    }
}

/// `path` with `new_extension` in place of the extension of its file name,
/// or added to it where it has none.
pub open spec fn with_extension(path: Seq<char>, new_extension: Seq<char>) -> Seq<char> {
    path.take(stem_end(path)) + seq!['.'] + new_extension
}

/// The file name is the longest end of the path that holds no separator.
pub proof fn lemma_name_start(path: Seq<char>)
    ensures
        0 <= name_start(path) <= path.len(),
        separator_free(file_name(path)),
        name_start(path) > 0 ==> is_separator(path[name_start(path) - 1]),
    decreases path.len(),
{
    if path.len() > 0 && !is_separator(path.last()) {
        let shorter = path.drop_last();
        lemma_name_start(shorter);
        let start = name_start(path);
        assert forall|i: int| 0 <= i < file_name(path).len() implies !is_separator(
            #[trigger] file_name(path)[i],
        ) by {
            if start + i < shorter.len() {
                assert(file_name(path)[i] == file_name(shorter)[i]);
            }
        }
    }
}

/// The last dot is a dot, and no dot follows it.
pub proof fn lemma_last_dot(name: Seq<char>)
    ensures
        -1 <= last_dot(name) < name.len(),
        last_dot(name) >= 0 ==> name[last_dot(name)] == '.',
        dot_free(name.skip(last_dot(name) + 1)),
    decreases name.len(),
{
    if name.len() > 0 && name.last() != '.' {
        let shorter = name.drop_last();
        lemma_last_dot(shorter);
        let dot = last_dot(name);
        assert forall|i: int| 0 <= i < name.skip(dot + 1).len() implies #[trigger] name.skip(
            dot + 1,
        )[i] != '.' by {
            if dot + 1 + i < shorter.len() {
                assert(name.skip(dot + 1)[i] == shorter.skip(dot + 1)[i]);
            }
        }
    }
}

/// Text without a separator is its own file name.
pub proof fn lemma_name_start_of_name(name: Seq<char>)
    requires
        separator_free(name),
    ensures
        name_start(name) == 0,
        file_name(name) == name,
    decreases name.len(),
{
    if name.len() > 0 {
        assert(separator_free(name.drop_last()));
        lemma_name_start_of_name(name.drop_last());
    }
}

/// Text appended without a separator leaves the start of the file name
/// where it was.
pub proof fn lemma_name_start_append(path: Seq<char>, more: Seq<char>)
    requires
        separator_free(more),
    ensures
        name_start(path + more) == name_start(path),
    decreases more.len(),
{
    if more.len() > 0 {
        let shorter = more.drop_last();
        assert(separator_free(shorter));
        assert((path + more).drop_last() == path + shorter);
        lemma_name_start_append(path, shorter);
    }
}

/// Text appended without a dot, behind a dot, leaves that dot the last.
pub proof fn lemma_last_dot_append(stem: Seq<char>, more: Seq<char>)
    requires
        dot_free(more),
    ensures
        last_dot(stem + seq!['.'] + more) == stem.len(),
    decreases more.len(),
{
    if more.len() > 0 {
        let shorter = more.drop_last();
        assert(dot_free(shorter));
        assert((stem + seq!['.'] + more).drop_last() == stem + seq!['.'] + shorter);
        lemma_last_dot_append(stem, shorter);
    }
}

/// The file name of a path keeps the path's file name and extension.
pub proof fn lemma_file_name_of_file_name(path: Seq<char>)
    ensures
        file_name(file_name(path)) == file_name(path),
        has_extension(file_name(path)) == has_extension(path),
        extension(file_name(path)) == extension(path),
{
    lemma_name_start(path);
    lemma_name_start_of_name(file_name(path));
}

/// An extension is never empty, and holds neither a dot nor a separator.
pub proof fn lemma_extension_is_plain(path: Seq<char>)
    ensures
        extension(path) matches Some(found) ==> found.len() > 0 && dot_free(found)
            && separator_free(found),
{
    if has_extension(path) {
        lemma_name_start(path);
        lemma_last_dot(file_name(path));
        assert(separator_free(extension(path).unwrap()));
    }
}

/// A path of which the file name is not empty, given a plain extension, has
/// that extension; and its file name is the old one with the extension
/// replaced.
pub proof fn lemma_with_extension(path: Seq<char>, new_extension: Seq<char>)
    requires
        file_name(path).len() > 0,
        new_extension.len() > 0,
        dot_free(new_extension),
        separator_free(new_extension),
    ensures
        extension(with_extension(path, new_extension)) == Some(new_extension),
        name_start(with_extension(path, new_extension)) == name_start(path),
        file_name(with_extension(path, new_extension)) == with_extension(
            file_name(path),
            new_extension,
        ),
{
    let start = name_start(path);
    let end = stem_end(path);
    let name = file_name(path);
    let kept = path.take(end);
    let dropped = path.skip(end);
    let tail = seq!['.'] + new_extension;
    let renamed = with_extension(path, new_extension);
    lemma_name_start(path);
    lemma_last_dot(name);
    // The kept part begins its file name where the path does.
    assert(path == kept + dropped);
    assert forall|i: int| 0 <= i < dropped.len() implies !is_separator(#[trigger] dropped[i]) by {
        assert(dropped[i] == name[end - start + i]);
    }
    lemma_name_start_append(kept, dropped);
    // So does the renamed path.
    assert(separator_free(tail));
    assert(renamed == kept + tail);
    lemma_name_start_append(kept, tail);
    // Its file name is the stem, the dot and the new extension.
    let stem = kept.skip(start);
    assert(file_name(renamed) == stem + seq!['.'] + new_extension);
    lemma_last_dot_append(stem, new_extension);
    // The file name alone is renamed in the same way.
    lemma_name_start_of_name(name);
}

/// A path without a file name, given a plain extension, gets a file name
/// that begins with its only dot, and so has no extension.
pub proof fn lemma_with_extension_without_name(path: Seq<char>, new_extension: Seq<char>)
    requires
        file_name(path).len() == 0,
        dot_free(new_extension),
        separator_free(new_extension),
    ensures
        file_name(with_extension(path, new_extension)) == seq!['.'] + new_extension,
        extension(with_extension(path, new_extension)) is None,
{
    let tail = seq!['.'] + new_extension;
    lemma_name_start(path);
    lemma_last_dot(file_name(path));
    assert(separator_free(tail));
    assert(with_extension(path, new_extension) == path + tail);
    lemma_name_start_append(path, tail);
    lemma_last_dot_append(Seq::<char>::empty(), new_extension);
}

/// Where the file name of `path` begins.
fn find_name_start(path: &Vec<char>) -> (start: usize)
    ensures
        start == name_start(path@),
        start <= path.len(),
{
    let mut i = path.len();
    assert(path@.take(i as int) == path@);
    while i > 0
        invariant
            i <= path.len(),
            name_start(path@) == name_start(path@.take(i as int)),
        decreases i,
    {
        let c = path[i - 1];
        if c == '/' || c == '\\' {
            return i;
        }
        assert(path@.take(i as int).drop_last() == path@.take(i - 1));
        i -= 1;
    }
    0
}

/// The number of characters of `path` up to its last dot at or behind
/// `start`, that dot included; `start` where there is none.
fn find_last_dot(path: &Vec<char>, start: usize) -> (behind: usize)
    requires
        start <= path.len(),
    ensures
        behind == start + last_dot(path@.skip(start as int)) + 1,
        start <= behind <= path.len(),
{
    let ghost name = path@.skip(start as int);
    let mut i = path.len();
    assert(name.take(i - start) == name);
    while i > start
        invariant
            start <= i <= path.len(),
            name == path@.skip(start as int),
            last_dot(name) == last_dot(name.take(i - start)),
        decreases i,
    {
        let c = path[i - 1];
        if c == '.' {
            return i;
        }
        assert(name.take(i - start).drop_last() == name.take(i - 1 - start));
        i -= 1;
    }
    start
}

/// The file name of `path`.
pub fn file_name_of(path: &str) -> (name: &str)
    ensures
        name@ == file_name(path@),
{
    let chars = chars_of(path);
    let start = find_name_start(&chars);
    path.substring_char(start, chars.len())
}

/// The extension of the file name of `path`, if it has one.
pub fn extension_of(path: &str) -> (found: Option<&str>)
    ensures
        match found {
            Some(text) => extension(path@) == Some(text@),
            None => extension(path@) is None,
        },
{
    let chars = chars_of(path);
    let start = find_name_start(&chars);
    let behind = find_last_dot(&chars, start);
    if behind - start > 1 && behind < chars.len() {
        Some(path.substring_char(behind, chars.len()))
    } else {
        None
    }
}

/// `path` with `new_extension` in place of the extension of its file name,
/// or added to it where it has none.
pub fn replace_extension(path: &str, new_extension: &str) -> (renamed: String)
    ensures
        renamed@ == with_extension(path@, new_extension@),
{
    let chars = chars_of(path);
    let start = find_name_start(&chars);
    let behind = find_last_dot(&chars, start);
    let end = if behind - start > 1 && behind < chars.len() {
        behind - 1
    } else {
        chars.len()
    };
    let mut renamed = String::from_str(path.substring_char(0, end));
    renamed.append(".");
    renamed.append(new_extension);
    proof {
        reveal_strlit(".");
    }
    renamed
}

} // verus!
