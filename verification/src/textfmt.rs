//! Small text-building helpers used by the renderer: decimal formatting of
//! counters and indentation-preserving escaping of embedded newlines.

use vstd::prelude::*;

verus! {

/// Relies on `String::push`: it appends the given character to the end of
/// the string.
pub assume_specification [ String::push ](s: &mut String, ch: char)
    ensures
        final(s)@ == old(s)@ + seq![ch],
;

/// The character for one decimal digit.
pub open spec fn dec_digit(d: nat) -> char {
    if d == 0 {
        '0'
    } else if d == 1 {
        '1'
    } else if d == 2 {
        '2'
    } else if d == 3 {
        '3'
    } else if d == 4 {
        '4'
    } else if d == 5 {
        '5'
    } else if d == 6 {
        '6'
    } else if d == 7 {
        '7'
    } else if d == 8 {
        '8'
    } else {
        '9'
    }
}

/// The decimal digit characters of `n`, most significant first.
pub open spec fn dec_rep(n: nat) -> Seq<char>
    decreases n,
{
    if n < 10 {
        seq![dec_digit(n)]
    } else {
        dec_rep(n / 10).push(dec_digit(n % 10))
    }
}

/// Append the character of one decimal digit.
fn push_digit(s: &mut String, d: u64)
    requires
        d < 10,
    ensures
        final(s)@ == old(s)@.push(dec_digit(d as nat)),
{
    let c: char = if d == 0 {
        '0'
    } else if d == 1 {
        '1'
    } else if d == 2 {
        '2'
    } else if d == 3 {
        '3'
    } else if d == 4 {
        '4'
    } else if d == 5 {
        '5'
    } else if d == 6 {
        '6'
    } else if d == 7 {
        '7'
    } else if d == 8 {
        '8'
    } else {
        '9'
    };
    s.push(c);
    proof {
        assert(old(s)@ + seq![c] =~= old(s)@.push(dec_digit(d as nat)));
    }
}

/// Render an unsigned number in decimal.
pub fn u64_to_dec(n: u64) -> (s: String)
    ensures
        s@ == dec_rep(n as nat),
    decreases n,
{
    if n < 10 {
        let mut s = String::new();
        push_digit(&mut s, n);
        proof {
            assert(Seq::<char>::empty().push(dec_digit(n as nat)) =~= dec_rep(n as nat));
        }
        s
    } else {
        let mut s = u64_to_dec(n / 10);
        push_digit(&mut s, n % 10);
        s
    }
}

/// One character of text as it is rendered inside an indented block: a
/// newline becomes a newline plus two tabs, so continuation lines keep the
/// block's indentation.
pub open spec fn escape_unit(c: char) -> Seq<char> {
    if c == '\n' {
        seq!['\n', '\t', '\t']
    } else {
        seq![c]
    }
}

/// Text with every newline indented for display inside a block.
pub open spec fn escape_nl(s: Seq<char>) -> Seq<char>
    decreases s.len(),
{
    if s.len() == 0 {
        Seq::empty()
    } else {
        escape_unit(s[0]) + escape_nl(s.drop_first())
    }
}

proof fn lemma_escape_nl_push(s: Seq<char>, c: char)
    ensures
        escape_nl(s.push(c)) == escape_nl(s) + escape_unit(c),
    decreases s.len(),
{
    if s.len() == 0 {
        assert(s.push(c).drop_first() =~= Seq::<char>::empty());
        assert(s.push(c)[0] == c);
        assert(escape_unit(c) + escape_nl(Seq::<char>::empty()) =~= escape_unit(c));
        assert(escape_nl(s) + escape_unit(c) =~= escape_unit(c));
    } else {
        lemma_escape_nl_push(s.drop_first(), c);
        assert(s.push(c).drop_first() =~= s.drop_first().push(c));
        assert(s.push(c)[0] == s[0]);
        assert(escape_unit(s[0]) + (escape_nl(s.drop_first()) + escape_unit(c)) =~= (escape_unit(
            s[0],
        ) + escape_nl(s.drop_first())) + escape_unit(c));
    }
}

/// Escape embedded newlines in a piece of text so that it can stand inside
/// an indented block.
pub fn escape_block_text(s: &str) -> (out: String)
    ensures
        out@ == escape_nl(s@),
{
    let n = s.unicode_len();
    let mut out = String::new();
    let mut i: usize = 0;
    while i < n
        invariant
            i <= n,
            n == s@.len(),
            out@ == escape_nl(s@.take(i as int)),
        decreases n - i,
    {
        let c = s.get_char(i);
        proof {
            lemma_escape_nl_push(s@.take(i as int), s@[i as int]);
            assert(s@.take(i as int).push(s@[i as int]) =~= s@.take(i as int + 1));
        }
        if c == '\n' {
            out.append("\n\t\t");
            proof {
                reveal_strlit("\n\t\t");
                assert("\n\t\t"@ =~= escape_unit('\n'));
            }
        } else {
            out.push(c);
            proof {
                assert(seq![c] =~= escape_unit(c));
            }
        }
        i = i + 1;
    }
    proof {
        assert(s@.take(n as int) =~= s@);
    }
    out
}

} // verus!
