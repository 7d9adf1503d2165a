//! Plain-text helpers: splitting into lines as `str::lines` does, blank-line
//! detection as `str::trim().is_empty()` does, and joining with a separator.
use vstd::prelude::*;
use vstd::string::StringExecFns;

verus! {

broadcast use vstd::string::group_string_axioms;

/// The pieces of `s` between `'\n'` characters, in order; there is always one
/// more piece than there are newlines.
pub open spec fn newline_pieces(s: Seq<char>) -> Seq<Seq<char>>
    decreases s.len(),
{
    if s.len() == 0 {
        seq![Seq::empty()]
    } else {
        let prev = newline_pieces(s.drop_last());
        if s.last() == '\n' {
            prev.push(Seq::empty())
        } else {
            prev.update(prev.len() - 1, prev.last().push(s.last()))
        }
    }
}

/// A piece that a newline ended loses one trailing carriage return.
pub open spec fn strip_cr(line: Seq<char>) -> Seq<char> {
    if line.len() > 0 && line.last() == '\r' {
        line.drop_last()
    } else {
        line
    }
}

/// The lines of `s` as `str::lines` yields them: the newline-separated pieces,
/// without the empty piece after a final newline, each piece that a newline
/// ended stripped of one trailing `'\r'`.
pub open spec fn text_lines(s: Seq<char>) -> Seq<Seq<char>> {
    let pieces = newline_pieces(s);
    let n = pieces.len();
    let count: int = if pieces.last().len() == 0 { n - 1 } else { n as int };
    Seq::new(
        count as nat,
        |i: int|
            if i < n - 1 {
                strip_cr(pieces[i])
            } else {
                pieces[i]
            },
    )
}

pub proof fn lemma_newline_pieces_nonempty(s: Seq<char>)
    ensures
        newline_pieces(s).len() >= 1,
    decreases s.len(),
{
    if s.len() > 0 {
        lemma_newline_pieces_nonempty(s.drop_last());
    }
}

/// Splits `text` into its lines, as `str::lines` does.
pub fn split_lines<'a>(text: &'a str) -> (lines: Vec<&'a str>)
    ensures
        lines@.map_values(|l: &str| l@) == text_lines(text@),
{
    let mut lines: Vec<&'a str> = Vec::new();
    let mut start: usize = 0;
    let mut i: usize = 0;
    let mut prev_cr = false;
    let ghost s = text@;
    let char_count = text.unicode_len();
    proof {
        assert(s.take(0) =~= Seq::<char>::empty());
    }
    for c in it: text.chars()
        invariant
            s == text@,
            s.len() == char_count,
            it.seq() == s,
            i == it.index(),
            start <= i <= s.len(),
            newline_pieces(s.take(i as int)).len() == lines@.len() + 1,
            newline_pieces(s.take(i as int)).last() == s.subrange(start as int, i as int),
            forall|j: int|
                0 <= j < lines@.len() ==> #[trigger] lines@[j]@ == strip_cr(
                    newline_pieces(s.take(i as int))[j],
                ),
            prev_cr == (start < i && s[i - 1] == '\r'),
    {
        assert(i < s.len() && c == s[i as int]);
        proof {
            lemma_newline_pieces_nonempty(s.take(i as int));
            assert(s.take(i + 1).drop_last() =~= s.take(i as int));
        }
        if c == '\n' {
            let end = if prev_cr { i - 1 } else { i };
            let line = text.substring_char(start, end);
            proof {
                let p = newline_pieces(s.take(i as int));
                assert(line@ =~= strip_cr(p.last()));
            }
            lines.push(line);
            start = i + 1;
            prev_cr = false;
        } else {
            prev_cr = c == '\r';
            proof {
                let p = newline_pieces(s.take(i as int));
                assert(s.subrange(start as int, i + 1) =~= p.last().push(c));
            }
        }
        i = i + 1;
    }
    proof {
        assert(s.take(i as int) =~= s);
    }
    if start < i {
        let line = text.substring_char(start, i);
        lines.push(line);
    }
    proof {
        let p = newline_pieces(s);
        assert(lines@.map_values(|l: &str| l@) =~= text_lines(s));
    }
    lines
}

/// Whether `c` has the Unicode `White_Space` property, as `char::is_whitespace`
/// decides it.
pub open spec fn is_white_space(c: char) -> bool {
    ||| '\t' <= c <= '\r'
    ||| c == ' '
    ||| c == '\u{85}'
    ||| c == '\u{a0}'
    ||| c == '\u{1680}'
    ||| '\u{2000}' <= c <= '\u{200a}'
    ||| c == '\u{2028}'
    ||| c == '\u{2029}'
    ||| c == '\u{202f}'
    ||| c == '\u{205f}'
    ||| c == '\u{3000}'
}

/// A line is blank when trimming its white space leaves nothing.
pub open spec fn is_blank(s: Seq<char>) -> bool {
    forall|i: int| 0 <= i < s.len() ==> #[trigger] is_white_space(s[i])
}

/// `char::is_whitespace`, written out over the `White_Space` code points.
pub fn is_white_space_char(c: char) -> (r: bool)
    ensures
        r == is_white_space(c),
{
    ('\t' <= c && c <= '\r') || c == ' ' || c == '\u{85}' || c == '\u{a0}' || c == '\u{1680}'
        || ('\u{2000}' <= c && c <= '\u{200a}') || c == '\u{2028}' || c == '\u{2029}'
        || c == '\u{202f}' || c == '\u{205f}' || c == '\u{3000}'
}

/// Whether `line.trim().is_empty()`: every character of `line` is white space.
pub fn is_blank_line(line: &str) -> (r: bool)
    ensures
        r == is_blank(line@),
{
    let ghost s = line@;
    for c in it: line.chars()
        invariant
            s == line@,
            it.seq() == s,
            forall|j: int| 0 <= j < it.index() ==> #[trigger] is_white_space(s[j]),
    {
        assert(c == s[it.index()]);
        if !is_white_space_char(c) {
            return false;
        }
    }
    true
}

/// The parts of `parts` with `sep` between each two neighbours.
pub open spec fn joined(parts: Seq<Seq<char>>, sep: Seq<char>) -> Seq<char>
    decreases parts.len(),
{
    if parts.len() == 0 {
        Seq::empty()
    } else if parts.len() == 1 {
        parts[0]
    } else {
        joined(parts.drop_last(), sep) + sep + parts.last()
    }
}

/// One part joined is that part.
pub proof fn law_joined_single(part: Seq<char>, sep: Seq<char>)
    ensures
        joined(seq![part], sep) == part,
{
}

/// Joining two non-empty lists one after the other gives the join of each
/// with the separator between them: every part is kept, in order, with the
/// separator between each two neighbours.
pub proof fn law_joined_concat(a: Seq<Seq<char>>, b: Seq<Seq<char>>, sep: Seq<char>)
    requires
        a.len() > 0,
        b.len() > 0,
    ensures
        joined(a + b, sep) == joined(a, sep) + sep + joined(b, sep),
    decreases b.len(),
{
    if b.len() == 1 {
        assert((a + b).drop_last() =~= a);
        assert((a + b).last() == b[0]);
    } else {
        assert((a + b).drop_last() =~= a + b.drop_last());
        assert((a + b).last() == b.last());
        law_joined_concat(a, b.drop_last(), sep);
        assert(joined(a + b, sep) =~= joined(a, sep) + sep + joined(b, sep));
    }
}

/// The views of a slice of strings.
pub open spec fn string_views(parts: Seq<String>) -> Seq<Seq<char>> {
    parts.map_values(|p: String| p@)
}

/// `parts.join(sep)`.
pub fn join_with(parts: &[String], sep: &str) -> (r: String)
    ensures
        r@ == joined(string_views(parts@), sep@),
{
    let mut r = String::new();
    let n = parts.len();
    let ghost views = string_views(parts@);
    for i in 0..n
        invariant
            n == parts@.len(),
            views == string_views(parts@),
            r@ == joined(views.take(i as int), sep@),
    {
        proof {
            assert(views.take(i + 1).drop_last() =~= views.take(i as int));
            assert(views.take(i + 1).last() == parts@[i as int]@);
        }
        if i > 0 {
            r.append(sep);
        }
        r.append(parts[i].as_str());
        proof {
            if i == 0 {
                assert(r@ =~= joined(views.take(1), sep@));
            }
        }
    }
    proof {
        assert(views.take(n as int) =~= views);
    }
    r
}

/// The view of an optional string.
pub open spec fn opt_view(o: Option<String>) -> Option<Seq<char>> {
    match o {
        Some(s) => Some(s@),
        None => None,
    }
}

/// Whether two strings hold the same characters.
pub fn same_text(a: &str, b: &str) -> (r: bool)
    ensures
        r == (a@ == b@),
{
    let x = a.to_owned();
    let y = b.to_owned();
    x == y
}

/// Whether an optional string holds exactly `expected`.
pub fn holds_text(o: &Option<String>, expected: &str) -> (r: bool)
    ensures
        r == (opt_view(*o) == Some(expected@)),
{
    match o {
        Some(s) => same_text(s.as_str(), expected),
        None => false,
    }
}

} // verus!
