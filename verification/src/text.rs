use crate::vector::VectorType;
use vstd::prelude::*;

verus! {

/// The glyph for one decimal digit.
pub open spec fn digit_char(d: int) -> char {
    if d == 0 {
        '0'
    } else if d == 1 {
        '1'
    } else if d == 2 {
        '2'
    } else if d == 3 {
        '3'
    } else if d == 4 {
        '4'
    } else if d == 5 {
        '5'
    } else if d == 6 {
        '6'
    } else if d == 7 {
        '7'
    } else if d == 8 {
        '8'
    } else {
        '9'
    }
}

/// The decimal rendering of a non-negative number: its digits in reading
/// order, with no sign and no leading zero (a single `'0'` for zero).
pub open spec fn dec_rep(n: int) -> Seq<char>
    recommends
        0 <= n,
    decreases n,
{
    if n < 10 {
        seq![digit_char(n)]
    } else {
        dec_rep(n / 10).push(digit_char(n % 10))
    }
}

/// Elements joined by single spaces, e.g. `10 20 30`.
pub open spec fn spaced(s: Seq<u64>) -> Seq<char>
    decreases s.len(),
{
    if s.len() == 0 {
        Seq::empty()
    } else if s.len() == 1 {
        dec_rep(s[0] as int)
    } else {
        spaced(s.drop_last()) + seq![' '] + dec_rep(s.last() as int)
    }
}

/// A row vector's rendering: the spaced elements between brackets,
/// e.g. `[10 20]`.
pub open spec fn row_text(s: Seq<u64>) -> Seq<char> {
    seq!['['] + spaced(s) + seq![']']
}

/// One interior line of a column vector: the element between pipes, ended
/// by a newline.
pub open spec fn column_mid(e: u64) -> Seq<char> {
    seq!['│'] + dec_rep(e as int) + seq!['│', '\n']
}

/// The interior lines of a column vector, one per element.
pub open spec fn column_mids(s: Seq<u64>) -> Seq<char>
    decreases s.len(),
{
    if s.len() == 0 {
        Seq::empty()
    } else {
        column_mids(s.drop_last()) + column_mid(s.last())
    }
}

/// A column vector's rendering, for two or more elements: the first element
/// between the top corners, each interior element between pipes, the last
/// between the bottom corners, one element per line.
pub open spec fn column_text(s: Seq<u64>) -> Seq<char>
    recommends
        s.len() >= 2,
{
    seq!['┌'] + dec_rep(s[0] as int) + seq!['┐', '\n'] + column_mids(s.subrange(1, s.len() - 1))
        + seq!['└'] + dec_rep(s.last() as int) + seq!['┘']
}

/// A vector's rendering, chosen by its orientation.
pub open spec fn vector_text(s: Seq<u64>, t: VectorType) -> Seq<char> {
    match t {
        VectorType::Row => row_text(s),
        VectorType::Column => column_text(s),
    }
}

/// A run of `n` spaces.
pub open spec fn spaces(n: int) -> Seq<char> {
    Seq::new(n as nat, |i: int| ' ')
}

/// The length of the widest line.
pub open spec fn max_width(lines: Seq<Seq<char>>) -> int
    decreases lines.len(),
{
    if lines.len() == 0 {
        0
    } else {
        let w = lines.last().len() as int;
        let m = max_width(lines.drop_last());
        if w > m {
            w
        } else {
            m
        }
    }
}

/// The body lines after the first, each between a leading space and a
/// trailing pipe, ended by a newline.
pub open spec fn framed_tail(lines: Seq<Seq<char>>) -> Seq<char>
    decreases lines.len(),
{
    if lines.len() == 0 {
        Seq::empty()
    } else {
        framed_tail(lines.drop_last()) + seq![' '] + lines.last() + seq!['│', '\n']
    }
}

/// A matrix's boxed rendering: the top border, the first body line behind a
/// pipe, each further body line between a space and a pipe, and a bottom
/// border of spaces as wide as the widest body line, closed by the corner.
pub open spec fn framed_text(lines: Seq<Seq<char>>) -> Seq<char>
    recommends
        lines.len() >= 1,
{
    seq!['┌', '─', '\n', '│'] + lines[0] + seq!['\n'] + framed_tail(
        lines.subrange(1, lines.len() as int),
    ) + spaces(max_width(lines)) + seq!['─', '┘']
}

/// Relies on `String`'s `FromIterator<char>` impl: collecting chars yields
/// the string holding exactly those chars in order.
#[verifier::external_body]
fn chars_to_string(v: Vec<char>) -> (s: String)
    ensures
        s@ == v@,
{
    v.into_iter().collect()
}

/// The glyph for one decimal digit.
fn digit(d: u64) -> (c: char)
    requires
        d < 10,
    ensures
        c == digit_char(d as int),
{
    if d == 0 {
        '0'
    } else if d == 1 {
        '1'
    } else if d == 2 {
        '2'
    } else if d == 3 {
        '3'
    } else if d == 4 {
        '4'
    } else if d == 5 {
        '5'
    } else if d == 6 {
        '6'
    } else if d == 7 {
        '7'
    } else if d == 8 {
        '8'
    } else {
        '9'
    }
}

/// Appends the decimal rendering of `n`.
fn push_dec(out: &mut Vec<char>, n: u64)
    ensures
        final(out)@ == old(out)@ + dec_rep(n as int),
    decreases n,
{
    if n < 10 {
        out.push(digit(n));
        proof {
            assert(out@ =~= old(out)@ + dec_rep(n as int));
        }
    } else {
        push_dec(out, n / 10);
        out.push(digit(n % 10));
        proof {
            assert(out@ =~= old(out)@ + dec_rep(n as int));
        }
    }
}

/// Extending a spaced prefix by one element appends a separating space
/// (except before the first element) and the element's digits.
proof fn lemma_spaced_take_step(s: Seq<u64>, i: int)
    requires
        0 <= i < s.len(),
    ensures
        spaced(s.take(i + 1)) == if i == 0 {
            dec_rep(s[0] as int)
        } else {
            spaced(s.take(i)) + seq![' '] + dec_rep(s[i] as int)
        },
{
    let t = s.take(i + 1);
    if i == 0 {
        assert(t.len() == 1);
        assert(t[0] == s[0]);
    } else {
        assert(t.drop_last() =~= s.take(i));
        assert(t.last() == s[i]);
    }
}

/// Appends the elements joined by single spaces.
pub fn push_spaced(out: &mut Vec<char>, elems: &[u64])
    ensures
        final(out)@ == old(out)@ + spaced(elems@),
{
    let n = elems.len();
    proof {
        assert(out@ =~= old(out)@ + spaced(elems@.take(0)));
    }
    let mut i: usize = 0;
    while i < n
        invariant
            i <= n,
            n == elems@.len(),
            out@ == old(out)@ + spaced(elems@.take(i as int)),
        decreases n - i,
    {
        if i > 0 {
            out.push(' ');
        }
        push_dec(out, elems[i]);
        proof {
            lemma_spaced_take_step(elems@, i as int);
            assert(out@ =~= old(out)@ + spaced(elems@.take(i as int + 1)));
        }
        i += 1;
    }
    proof {
        assert(elems@.take(n as int) =~= elems@);
    }
}

/// Renders a row vector's elements, e.g. `[10 20]`.
pub fn row_string(elems: &[u64]) -> (s: String)
    ensures
        s@ == row_text(elems@),
{
    let mut out: Vec<char> = Vec::new();
    out.push('[');
    push_spaced(&mut out, elems);
    out.push(']');
    proof {
        assert(out@ =~= row_text(elems@));
    }
    chars_to_string(out)
}

/// Renders a column vector's elements, one per line inside the box glyphs.
pub fn column_string(elems: &[u64]) -> (s: String)
    requires
        elems@.len() >= 2,
    ensures
        s@ == column_text(elems@),
{
    let n = elems.len();
    let mut out: Vec<char> = Vec::new();
    out.push('┌');
    push_dec(&mut out, elems[0]);
    out.push('┐');
    out.push('\n');
    let ghost top: Seq<char> = seq!['┌'] + dec_rep(elems@[0] as int) + seq!['┐', '\n'];
    proof {
        assert(out@ =~= top + column_mids(elems@.subrange(1, 1)));
    }
    let mut i: usize = 1;
    while i < n - 1
        invariant
            1 <= i <= n - 1,
            n == elems@.len(),
            n >= 2,
            top == seq!['┌'] + dec_rep(elems@[0] as int) + seq!['┐', '\n'],
            out@ == top + column_mids(elems@.subrange(1, i as int)),
        decreases n - 1 - i,
    {
        out.push('│');
        push_dec(&mut out, elems[i]);
        out.push('│');
        out.push('\n');
        proof {
            assert(elems@.subrange(1, i as int + 1).drop_last() =~= elems@.subrange(1, i as int));
            assert(elems@.subrange(1, i as int + 1).last() == elems@[i as int]);
            assert(out@ =~= top + column_mids(elems@.subrange(1, i as int + 1)));
        }
        i += 1;
    }
    out.push('└');
    push_dec(&mut out, elems[n - 1]);
    out.push('┘');
    proof {
        assert(out@ =~= column_text(elems@));
    }
    chars_to_string(out)
}

/// Appends every char of `src`.
fn push_all(out: &mut Vec<char>, src: &Vec<char>)
    ensures
        final(out)@ == old(out)@ + src@,
{
    let n = src.len();
    proof {
        assert(out@ =~= old(out)@ + src@.take(0));
    }
    let mut i: usize = 0;
    while i < n
        invariant
            i <= n,
            n == src@.len(),
            out@ == old(out)@ + src@.take(i as int),
        decreases n - i,
    {
        out.push(src[i]);
        proof {
            assert(out@ =~= old(out)@ + src@.take(i as int + 1));
        }
        i += 1;
    }
    proof {
        assert(src@.take(n as int) =~= src@);
    }
}

/// Renders body lines inside the boxed matrix frame.
pub fn framed_string(lines: &Vec<Vec<char>>) -> (s: String)
    requires
        lines@.len() >= 1,
    ensures
        s@ == framed_text(lines@.map_values(|l: Vec<char>| l@)),
{
    let ghost vs: Seq<Seq<char>> = lines@.map_values(|l: Vec<char>| l@);
    let n = lines.len();
    let mut out: Vec<char> = Vec::new();
    out.push('┌');
    out.push('─');
    out.push('\n');
    out.push('│');
    push_all(&mut out, &lines[0]);
    out.push('\n');
    let ghost head: Seq<char> = seq!['┌', '─', '\n', '│'] + vs[0] + seq!['\n'];
    proof {
        assert(out@ =~= head + framed_tail(vs.subrange(1, 1)));
    }
    let mut i: usize = 1;
    while i < n
        invariant
            1 <= i <= n,
            n == lines@.len(),
            vs == lines@.map_values(|l: Vec<char>| l@),
            head == seq!['┌', '─', '\n', '│'] + vs[0] + seq!['\n'],
            out@ == head + framed_tail(vs.subrange(1, i as int)),
        decreases n - i,
    {
        out.push(' ');
        push_all(&mut out, &lines[i]);
        out.push('│');
        out.push('\n');
        proof {
            assert(vs.subrange(1, i as int + 1).drop_last() =~= vs.subrange(1, i as int));
            assert(vs.subrange(1, i as int + 1).last() == vs[i as int]);
            assert(out@ =~= head + framed_tail(vs.subrange(1, i as int + 1)));
        }
        i += 1;
    }
    let mut w: usize = 0;
    let mut j: usize = 0;
    while j < n
        invariant
            j <= n,
            n == lines@.len(),
            vs == lines@.map_values(|l: Vec<char>| l@),
            w as int == max_width(vs.take(j as int)),
        decreases n - j,
    {
        if lines[j].len() > w {
            w = lines[j].len();
        }
        proof {
            assert(vs.take(j as int + 1).drop_last() =~= vs.take(j as int));
            assert(vs.take(j as int + 1).last() == vs[j as int]);
        }
        j += 1;
    }
    proof {
        assert(vs.take(n as int) =~= vs);
    }
    let ghost before: Seq<char> = out@;
    let mut k: usize = 0;
    while k < w
        invariant
            k <= w,
            out@ == before + spaces(k as int),
        decreases w - k,
    {
        out.push(' ');
        proof {
            assert(out@ =~= before + spaces(k as int + 1));
        }
        k += 1;
    }
    out.push('─');
    out.push('┘');
    proof {
        assert(vs.subrange(1, n as int) =~= vs.subrange(1, vs.len() as int));
        assert(out@ =~= framed_text(vs));
    }
    chars_to_string(out)
}

} // verus!
