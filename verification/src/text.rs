//! Character-level helpers: white space, lower case, comparison of
//! character sequences, and the extension of a file path.

use vstd::prelude::*;
use vstd::std_specs::iter::IteratorSpec;

verus! {

/// The characters that Unicode classes as white space (`White_Space`): the
/// ones that trimming a string takes away.
pub open spec fn white_space(c: char) -> bool {
    let n = c as u32;
    ||| 0x09 <= n <= 0x0D
    ||| n == 0x20
    ||| n == 0x85
    ||| n == 0xA0
    ||| n == 0x1680
    ||| 0x2000 <= n <= 0x200A
    ||| n == 0x2028
    ||| n == 0x2029
    ||| n == 0x202F
    ||| n == 0x205F
    ||| n == 0x3000
}

/// A line is blank when it holds nothing but white space; the empty line is
/// blank.
pub open spec fn blank(line: Seq<char>) -> bool {
    forall|i: int| 0 <= i < line.len() ==> white_space(#[trigger] line[i])
}

/// `line` without the white space that it begins with.
pub open spec fn trim_start(line: Seq<char>) -> Seq<char>
    decreases line.len(),
{
    if line.len() > 0 && white_space(line.first()) {
        trim_start(line.drop_first())
    } else {
        line
    }
}

/// `line` without the white space that it ends with.
pub open spec fn trim_end(line: Seq<char>) -> Seq<char>
    decreases line.len(),
{
    if line.len() > 0 && white_space(line.last()) {
        trim_end(line.drop_last())
    } else {
        line
    }
}

/// `line` without the white space at either end.
pub open spec fn trimmed(line: Seq<char>) -> Seq<char> {
    trim_end(trim_start(line))
}

/// Trimming white space at the start leaves nothing of a blank line, and
/// something that is not blank of any other.
pub proof fn lemma_trim_start_of_blank(line: Seq<char>)
    ensures
        blank(line) <==> trim_start(line).len() == 0,
        blank(line) <==> blank(trim_start(line)),
    decreases line.len(),
{
    if line.len() > 0 && white_space(line.first()) {
        let rest = line.drop_first();
        lemma_trim_start_of_blank(rest);
        if blank(rest) {
            assert forall|i: int| 0 <= i < line.len() implies white_space(#[trigger] line[i]) by {
                if i > 0 {
                    assert(line[i] == rest[i - 1]);
                }
            }
        }
    }
}

/// Trimming white space at the end leaves nothing exactly of a blank line.
pub proof fn lemma_trim_end_of_blank(line: Seq<char>)
    ensures
        blank(line) <==> trim_end(line).len() == 0,
    decreases line.len(),
{
    if line.len() > 0 && white_space(line.last()) {
        let rest = line.drop_last();
        lemma_trim_end_of_blank(rest);
        if blank(rest) {
            assert forall|i: int| 0 <= i < line.len() implies white_space(#[trigger] line[i]) by {
                if i < rest.len() {
                    assert(line[i] == rest[i]);
                }
            }
        }
    }
}

/// A line is blank exactly if nothing is left of it once the white space at
/// both ends is trimmed away.
pub proof fn lemma_blank_iff_trimmed_is_empty(line: Seq<char>)
    ensures
        blank(line) <==> trimmed(line).len() == 0,
{
    lemma_trim_start_of_blank(line);
    lemma_trim_end_of_blank(trim_start(line));
}

/// The lower case of `c`, for every character whose lower case is one of the
/// letters `a` to `z`: the letters `A` to `Z`, and U+212A KELVIN SIGN, whose
/// lower case is `k`. Any other character stands for itself.
///
/// No other character has a lower case in ASCII, so for a word that is
/// looked up among ASCII keys this is all there is to lower-casing.
pub open spec fn lower(c: char) -> char {
    if 'A' <= c <= 'Z' {
        ((c as u8) + 32) as char
    } else if c == '\u{212A}' {
        'k'
    } else {
        c
    }
}

/// `s` with every character passed through [`lower`].
pub open spec fn lowercase(s: Seq<char>) -> Seq<char> {
    Seq::new(s.len(), |i: int| lower(s[i]))
}

/// Where the extension of `path` begins: the index just after the last `.`
/// of the file name, or `None` when the file name holds no `.`. The file
/// name is what follows the last `/` of the path, or the whole path.
///
/// Read from the end of the path: the first `.` met marks the extension,
/// unless a `/` comes first.
pub open spec fn extension_start(path: Seq<char>) -> Option<int>
    decreases path.len(),
{
    if path.len() == 0 {
        None
    } else if path.last() == '.' {
        Some(path.len() as int)
    } else if path.last() == '/' {
        None
    } else {
        extension_start(path.drop_last())
    }
}

/// The extension of `path`: what follows the last `.` of its file name. A
/// name that begins with its only `.` has the rest as its extension; a name
/// that ends in `.` has the empty extension.
pub open spec fn extension(path: Seq<char>) -> Option<Seq<char>> {
    match extension_start(path) {
        Some(start) => Some(path.skip(start)),
        None => None,
    }
}

/// The index that [`extension_start`] gives lies just after a `.`, and no
/// `.` or `/` follows it; where it gives none, a `/` follows every `.`, so
/// the file name has none.
pub proof fn lemma_extension_start(path: Seq<char>)
    ensures
        match extension_start(path) {
            Some(start) => {
                &&& 1 <= start <= path.len()
                &&& path[start - 1] == '.'
                &&& forall|j: int| start <= j < path.len() ==> path[j] != '.' && path[j] != '/'
            },
            None => forall|i: int|
                0 <= i < path.len() && path[i] == '.' ==> exists|j: int|
                    i < j < path.len() && path[j] == '/',
        },
    decreases path.len(),
{
    if path.len() > 0 && path.last() != '.' && path.last() != '/' {
        let front = path.drop_last();
        lemma_extension_start(front);
        match extension_start(front) {
            Some(start) => {
                assert forall|j: int| start <= j < path.len() implies path[j] != '.' && path[j]
                    != '/' by {
                    if j < front.len() {
                        assert(front[j] == path[j]);
                    }
                }
            },
            None => {
                assert forall|i: int| 0 <= i < path.len() && path[i] == '.' implies exists|j: int|
                    i < j < path.len() && path[j] == '/' by {
                    assert(front[i] == path[i]);
                }
            },
        }
    }
}

/// Whether `c` is white space.
pub fn is_white_space(c: char) -> (b: bool)
    ensures
        b == white_space(c),
{
    let n: u32 = c as u32;
    (0x09 <= n && n <= 0x0D) || n == 0x20 || n == 0x85 || n == 0xA0 || n == 0x1680 || (0x2000 <= n
        && n <= 0x200A) || n == 0x2028 || n == 0x2029 || n == 0x202F || n == 0x205F || n == 0x3000
}

/// Whether `line` is blank.
pub fn is_blank(line: &str) -> (b: bool)
    ensures
        b == blank(line@),
{
    let mut it = line.chars();
    let ghost mut seen: Seq<char> = Seq::empty();
    loop
        invariant
            line@ == seen + it.remaining(),
            blank(seen),
            it.obeys_prophetic_iter_laws(),
            it.decrease() is Some,
        decreases it.decrease()->0,
    {
        match it.next() {
            Some(c) => {
                if !is_white_space(c) {
                    assert(line@[seen.len() as int] == c);
                    return false;
                }
                proof {
                    seen = seen.push(c);
                }
            },
            None => {
                return true;
            },
        }
    }
}

/// `c` in lower case, where that is a letter from `a` to `z`; else `c`.
pub fn to_lower(c: char) -> (l: char)
    ensures
        l == lower(c),
{
    if 'A' <= c && c <= 'Z' {
        ((c as u8) + 32) as char
    } else if c == '\u{212A}' {
        'k'
    } else {
        c
    }
}

/// Whether `chars` spells `word`.
pub fn spells(chars: &[char], word: &str) -> (b: bool)
    ensures
        b == (chars@ == word@),
{
    let mut it = word.chars();
    let mut i: usize = 0;
    loop
        invariant
            i <= chars.len(),
            word@ == chars@.take(i as int) + it.remaining(),
            it.obeys_prophetic_iter_laws(),
            it.decrease() is Some,
        decreases it.decrease()->0,
    {
        match it.next() {
            Some(c) => {
                if i >= chars.len() || chars[i] != c {
                    return false;
                }
                i = i + 1;
            },
            None => {
                if i == chars.len() {
                    assert(chars@.take(i as int) == chars@);
                }
                return i == chars.len();
            },
        }
    }
}

/// The extension of `path`, borrowed from it.
pub fn file_extension(path: &str) -> (ext: Option<&str>)
    ensures
        match ext {
            Some(e) => extension(path@) == Some(e@),
            None => extension(path@) is None,
        },
{
    let len: usize = path.unicode_len();
    let mut it = path.chars();
    let mut start: Option<usize> = None;
    let mut n: usize = 0;
    let ghost mut seen: Seq<char> = Seq::empty();
    loop
        invariant
            path@ == seen + it.remaining(),
            n == seen.len(),
            len == path@.len(),
            match start {
                Some(s) => extension_start(seen) == Some(s as int),
                None => extension_start(seen) is None,
            },
            it.obeys_prophetic_iter_laws(),
            it.decrease() is Some,
        ensures
            match start {
                Some(s) => extension_start(path@) == Some(s as int),
                None => extension_start(path@) is None,
            },
        decreases it.decrease()->0,
    {
        match it.next() {
            Some(c) => {
                proof {
                    assert(seen.push(c).drop_last() == seen);
                    seen = seen.push(c);
                }
                n = n + 1;
                if c == '.' {
                    start = Some(n);
                } else if c == '/' {
                    start = None;
                }
            },
            None => {
                break ;
            },
        }
    }
    match start {
        Some(s) => {
            proof {
                lemma_extension_start(path@);
            }
            Some(path.substring_char(s, len))
        },
        None => None,
    }
}

} // verus!
