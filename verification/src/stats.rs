//! Text statistics for the status bar: word and character counts, and the
//! line/column position of a character offset.

use vstd::prelude::*;

verus! {

/// Whether `c` is white space for the purpose of splitting words: the
/// Unicode `White_Space` set.
pub open spec fn is_space(c: char) -> bool {
    ||| c as int == 9
    ||| c as int == 10
    ||| c as int == 11
    ||| c as int == 12
    ||| c as int == 13
    ||| c as int == 32
    ||| c as int == 0x85
    ||| c as int == 0xA0
    ||| c as int == 0x1680
    ||| (0x2000 <= c as int && c as int <= 0x200A)
    ||| c as int == 0x2028
    ||| c as int == 0x2029
    ||| c as int == 0x202F
    ||| c as int == 0x205F
    ||| c as int == 0x3000
}

/// Number of words (maximal runs of non-space characters) among the first
/// `n` characters of `s`, counting a word at the position where it starts.
pub open spec fn word_count_upto(s: Seq<char>, n: int) -> int
    decreases n,
{
    if n <= 0 {
        0
    } else {
        word_count_upto(s, n - 1) + if !is_space(s[n - 1]) && (n == 1 || is_space(s[n - 2])) {
            1int
        } else {
            0int
        }
    }
}

/// Number of words in `s`.
pub open spec fn word_count(s: Seq<char>) -> int {
    word_count_upto(s, s.len() as int)
}

/// Number of line breaks among the first `n` characters of `s`.
pub open spec fn newline_count_upto(s: Seq<char>, n: int) -> int
    decreases n,
{
    if n <= 0 {
        0
    } else {
        newline_count_upto(s, n - 1) + if s[n - 1] == '\n' {
            1int
        } else {
            0int
        }
    }
}

/// Offset of the start of the line containing offset `n`: the position just
/// after the last line break before `n`.
pub open spec fn line_start_before(s: Seq<char>, n: int) -> int
    decreases n,
{
    if n <= 0 {
        0
    } else if s[n - 1] == '\n' {
        n
    } else {
        line_start_before(s, n - 1)
    }
}

fn is_space_exec(c: char) -> (r: bool)
    ensures
        r == is_space(c),
{
    let u: u32 = c as u32;
    (9 <= u && u <= 13) || u == 32 || u == 0x85 || u == 0xA0 || u == 0x1680 || (0x2000 <= u && u
        <= 0x200A) || u == 0x2028 || u == 0x2029 || u == 0x202F || u == 0x205F || u == 0x3000
}

/// Count the words and characters of `text`, as displayed in the status
/// bar.
pub fn text_counts(text: &str) -> (r: (usize, usize))
    ensures
        r.0 == word_count(text@),
        r.1 == text@.len(),
{
    let n: usize = text.unicode_len();
    let mut words: usize = 0;
    let mut prev_space: bool = true;
    let mut i: usize = 0;
    while i < n
        invariant
            0 <= i <= n,
            n == text@.len(),
            words == word_count_upto(text@, i as int),
            words <= i,
            prev_space == (i == 0 || is_space(text@[i as int - 1])),
        decreases n - i,
    {
        let c = text.get_char(i);
        let sp = is_space_exec(c);
        if !sp && prev_space {
            words = words + 1;
        }
        prev_space = sp;
        i = i + 1;
    }
    (words, n)
}

/// The one-based line and column of character offset `offset` in `text`,
/// as displayed in the status bar.
pub fn line_col_at(text: &str, offset: usize) -> (r: (usize, usize))
    requires
        offset <= text@.len(),
        offset < usize::MAX,
    ensures
        r.0 == 1 + newline_count_upto(text@, offset as int),
        r.1 == 1 + offset - line_start_before(text@, offset as int),
{
    let mut newlines: usize = 0;
    let mut line_start: usize = 0;
    let mut i: usize = 0;
    while i < offset
        invariant
            0 <= i <= offset,
            offset <= text@.len(),
            offset < usize::MAX,
            newlines == newline_count_upto(text@, i as int),
            newlines <= i,
            line_start == line_start_before(text@, i as int),
            line_start <= i,
        decreases offset - i,
    {
        let c = text.get_char(i);
        if c == '\n' {
            newlines = newlines + 1;
            line_start = i + 1;
        }
        i = i + 1;
    }
    (newlines + 1, offset - line_start + 1)
}

} // verus!
