//! Text helpers: what the rest of the crate needs of `str` and `String`
//! beyond what the standard library's specifications cover, and the
//! splitting of a text into lines.

use vstd::prelude::*;

verus! {

/// `str`'s `==` from the standard library: two string slices are equal exactly
/// when they hold the same characters.
pub assume_specification[ <str as PartialEq>::eq ](a: &str, b: &str) -> (r: bool)
    ensures
        r == (a@ == b@),
;

/// `String::push` from the standard library: appends one character.
pub assume_specification[ String::push ](s: &mut String, ch: char)
    ensures
        final(s)@ == old(s)@.push(ch),
;

/// The lowercase form of a text, as `str::to_lowercase` computes it from the
/// Unicode case tables.
pub uninterp spec fn lowercase(s: Seq<char>) -> Seq<char>;

/// `str::to_lowercase` from the standard library. Its result depends on the
/// characters of `s` alone and is referred to as `lowercase(s@)`.
pub assume_specification[ str::to_lowercase ](s: &str) -> (r: String)
    ensures
        r@ == lowercase(s@),
;

/// The characters with the Unicode property `White_Space`.
pub open spec fn is_whitespace(c: char) -> bool {
    ||| '\u{0009}' <= c <= '\u{000D}'
    ||| c == '\u{0020}'
    ||| c == '\u{0085}'
    ||| c == '\u{00A0}'
    ||| c == '\u{1680}'
    ||| '\u{2000}' <= c <= '\u{200A}'
    ||| c == '\u{2028}'
    ||| c == '\u{2029}'
    ||| c == '\u{202F}'
    ||| c == '\u{205F}'
    ||| c == '\u{3000}'
}

/// `s` without its leading whitespace.
pub open spec fn trim_start(s: Seq<char>) -> Seq<char>
    decreases s.len(),
{
    if s.len() > 0 && is_whitespace(s[0]) {
        trim_start(s.drop_first())
    } else {
        s
    }
}

/// `s` without its trailing whitespace.
pub open spec fn trim_end(s: Seq<char>) -> Seq<char>
    decreases s.len(),
{
    if s.len() > 0 && is_whitespace(s.last()) {
        trim_end(s.drop_last())
    } else {
        s
    }
}

/// `s` without leading and trailing whitespace.
pub open spec fn trimmed(s: Seq<char>) -> Seq<char> {
    trim_end(trim_start(s))
}

/// `str::trim` from the standard library: the slice that remains when leading
/// and trailing `White_Space` characters are removed.
pub assume_specification<'a>[ str::trim ](s: &'a str) -> (r: &'a str)
    ensures
        r@ == trimmed(s@),
;

/// Number of characters of `s` before its first line feed; the whole length
/// when it has none.
pub open spec fn line_end(s: Seq<char>) -> nat
    decreases s.len(),
{
    if s.len() == 0 || s[0] == '\n' {
        0
    } else {
        1 + line_end(s.drop_first())
    }
}

/// A line that was terminated by a line feed, without the carriage return that
/// may precede that line feed.
pub open spec fn strip_carriage_return(line: Seq<char>) -> Seq<char> {
    if line.len() > 0 && line.last() == '\r' {
        line.drop_last()
    } else {
        line
    }
}

/// The lines of a text. A line ends at a line feed, or at a carriage return
/// directly followed by one; the terminator is not part of the line. A last
/// line without a terminator is kept as it is, and a terminator at the very
/// end opens no further line.
pub open spec fn lines_of(s: Seq<char>) -> Seq<Seq<char>>
    decreases s.len(),
{
    if s.len() == 0 {
        Seq::empty()
    } else {
        let end = line_end(s);
        if end >= s.len() {
            seq![s]
        } else {
            seq![strip_carriage_return(s.take(end as int))] + lines_of(s.skip(end as int + 1))
        }
    }
}

/// The views of a vector of strings, in order.
pub open spec fn string_views(v: Seq<String>) -> Seq<Seq<char>> {
    v.map_values(|s: String| s@)
}

/// The text holds no line feed.
pub open spec fn no_line_feed(s: Seq<char>) -> bool {
    forall|i: int| 0 <= i < s.len() ==> #[trigger] s[i] != '\n'
}

/// The text is empty or ends with a line feed, so that whatever follows it
/// starts a line of its own.
pub open spec fn ends_lines(s: Seq<char>) -> bool {
    s.len() == 0 || s.last() == '\n'
}

/// The first line of a text followed by another ends where it ends in the
/// text alone, unless the text alone holds no line feed.
pub proof fn lemma_line_end_concat(a: Seq<char>, b: Seq<char>)
    ensures
        line_end(a) <= a.len(),
        line_end(a + b) == if line_end(a) < a.len() {
            line_end(a)
        } else {
            a.len() + line_end(b)
        },
    decreases a.len(),
{
    if a.len() == 0 {
        assert(a + b =~= b);
    } else if a[0] == '\n' {
        assert((a + b)[0] == '\n');
    } else {
        lemma_line_end_concat(a.drop_first(), b);
        assert((a + b)[0] == a[0]);
        assert((a + b).drop_first() =~= a.drop_first() + b);
    }
}

/// The first line of a text ends at or before each of its line feeds, and at
/// the end of a text that has none.
pub proof fn lemma_line_end_first(s: Seq<char>, i: int)
    ensures
        0 <= i < s.len() && s[i] == '\n' ==> line_end(s) <= i,
        no_line_feed(s) ==> line_end(s) == s.len(),
        line_end(s) < s.len() ==> s[line_end(s) as int] == '\n',
    decreases s.len(),
{
    if s.len() > 0 && s[0] != '\n' {
        lemma_line_end_first(s.drop_first(), i - 1);
        if no_line_feed(s) {
            assert forall|k: int| 0 <= k < s.drop_first().len() implies #[trigger] s.drop_first()[k]
                != '\n' by {
                assert(s[k + 1] != '\n');
            }
        }
    }
}

/// The lines of a text that ends its lines, followed by another text, are
/// the lines of the one followed by the lines of the other.
pub proof fn lemma_lines_concat(p: Seq<char>, y: Seq<char>)
    requires
        ends_lines(p),
    ensures
        lines_of(p + y) == lines_of(p) + lines_of(y),
    decreases p.len(),
{
    if p.len() == 0 {
        assert(p + y =~= y);
        assert(lines_of(p) + lines_of(y) =~= lines_of(y));
    } else {
        let e = line_end(p) as int;
        lemma_line_end_first(p, p.len() - 1);
        lemma_line_end_concat(p, y);
        let rest = p.skip(e + 1);
        assert(ends_lines(rest)) by {
            if rest.len() > 0 {
                assert(rest.last() == p.last());
            }
        }
        lemma_lines_concat(rest, y);
        assert((p + y).take(e) =~= p.take(e));
        assert((p + y).skip(e + 1) =~= rest + y);
        assert(lines_of(p + y) =~= lines_of(p) + lines_of(y));
    }
}

/// A text without a line feed is one line, unless it is empty; followed by a
/// line feed it is one line in any case, without the carriage return it may
/// end with.
pub proof fn lemma_lines_single(x: Seq<char>)
    requires
        no_line_feed(x),
    ensures
        lines_of(x) == if x.len() == 0 {
            Seq::<Seq<char>>::empty()
        } else {
            seq![x]
        },
        lines_of(x.push('\n')) == seq![strip_carriage_return(x)],
{
    lemma_line_end_first(x, 0);
    let terminated = x.push('\n');
    assert(terminated =~= x + seq!['\n']);
    lemma_line_end_concat(x, seq!['\n']);
    assert(line_end(seq!['\n']) == 0);
    assert(line_end(terminated) == x.len());
    assert(terminated.take(x.len() as int) =~= x);
    let rest = terminated.skip(x.len() as int + 1);
    assert(rest =~= Seq::<char>::empty());
    assert(lines_of(rest) =~= Seq::<Seq<char>>::empty());
    assert(lines_of(terminated) == seq![strip_carriage_return(x)] + lines_of(rest));
    assert(lines_of(terminated) =~= seq![strip_carriage_return(x)]);
}

/// Splits a text into its lines.
pub fn split_lines(s: &str) -> (lines: Vec<String>)
    ensures
        string_views(lines@) == lines_of(s@),
{
    let mut lines: Vec<String> = Vec::new();
    let mut current = String::new();
    let mut pending_return = false;
    let mut open = false;
    let ghost mut start: int = 0;
    proof {
        assert(s@.take(0) =~= Seq::<char>::empty());
        assert(string_views(lines@) =~= lines_of(s@.take(0)));
        assert(s@.subrange(0, 0) =~= current@);
    }
    for c in it: s.chars()
        invariant
            it.seq() == s@,
            0 <= start <= it.index() <= s@.len(),
            ends_lines(s@.take(start)),
            string_views(lines@) == lines_of(s@.take(start)),
            no_line_feed(s@.subrange(start, it.index() as int)),
            s@.subrange(start, it.index() as int) == if pending_return {
                current@.push('\r')
            } else {
                current@
            },
            !pending_return ==> current@.len() == 0 || current@.last() != '\r',
            open == (start < it.index()),
    {
        let ghost at = it.index() as int;
        let ghost line = s@.subrange(start, at);
        proof {
            assert(s@.subrange(start, at + 1) =~= line.push(c));
        }
        if c == '\n' {
            proof {
                lemma_lines_single(line);
                lemma_lines_concat(s@.take(start), line.push('\n'));
                assert(s@.take(at + 1) =~= s@.take(start) + line.push('\n'));
                assert(strip_carriage_return(line) =~= current@);
                assert(s@.subrange(at + 1, at + 1) =~= Seq::<char>::empty());
            }
            let ghost before = lines@;
            lines.push(current);
            proof {
                assert(string_views(lines@) =~= string_views(before).push(current@));
                start = at + 1;
            }
            current = String::new();
            pending_return = false;
            open = false;
        } else {
            if pending_return {
                current.push('\r');
            }
            if c == '\r' {
                pending_return = true;
            } else {
                current.push(c);
                pending_return = false;
            }
            open = true;
            proof {
                assert forall|i: int| 0 <= i < line.push(c).len() implies #[trigger] line.push(c)[i]
                    != '\n' by {
                    if i < line.len() {
                        assert(line[i] != '\n');
                    }
                }
            }
        }
    }
    let ghost line = s@.subrange(start, s@.len() as int);
    proof {
        lemma_lines_single(line);
        lemma_lines_concat(s@.take(start), line);
        assert(s@ =~= s@.take(start) + line);
    }
    if open {
        if pending_return {
            current.push('\r');
        }
        let ghost before = lines@;
        lines.push(current);
        assert(string_views(lines@) =~= string_views(before).push(line));
    } else {
        assert(lines_of(s@.take(start)) + Seq::<Seq<char>>::empty() =~= lines_of(s@.take(start)));
    }
    lines
}

} // verus!
