//! Small text helpers over `String`, specified on sequences of characters.

use vstd::prelude::*;
use vstd::string::*;

verus! {

/// The character that stands for the decimal digit `d`.
pub open spec fn digit_char(d: nat) -> char
    recommends
        d < 10,
{
    if d == 0 {
        '0'
    } else if d == 1 {
        '1'
    } else if d == 2 {
        '2'
    } else if d == 3 {
        '3'
    } else if d == 4 {
        '4'
    } else if d == 5 {
        '5'
    } else if d == 6 {
        '6'
    } else if d == 7 {
        '7'
    } else if d == 8 {
        '8'
    } else {
        '9'
    }
}

/// The decimal numeral of `n`, without sign or leading zeros.
pub open spec fn decimal(n: nat) -> Seq<char>
    decreases n,
{
    if n < 10 {
        seq![digit_char(n)]
    } else {
        decimal(n / 10).push(digit_char(n % 10))
    }
}

/// The views of a sequence of strings.
pub open spec fn views(parts: Seq<String>) -> Seq<Seq<char>> {
    Seq::new(parts.len(), |i: int| parts[i]@)
}

/// The parts written one after another with `sep` between neighbours.
pub open spec fn joined(parts: Seq<Seq<char>>, sep: Seq<char>) -> Seq<char>
    decreases parts.len(),
{
    if parts.len() == 0 {
        Seq::empty()
    } else if parts.len() == 1 {
        parts[0]
    } else {
        joined(parts.drop_last(), sep) + sep + parts.last()
    }
}

fn digit_str(d: u64) -> (s: &'static str)
    requires
        d < 10,
    ensures
        s@ == seq![digit_char(d as nat)],
{
    proof {
        reveal_strlit("0");
        reveal_strlit("1");
        reveal_strlit("2");
        reveal_strlit("3");
        reveal_strlit("4");
        reveal_strlit("5");
        reveal_strlit("6");
        reveal_strlit("7");
        reveal_strlit("8");
        reveal_strlit("9");
    }
    let s = if d == 0 {
        "0"
    } else if d == 1 {
        "1"
    } else if d == 2 {
        "2"
    } else if d == 3 {
        "3"
    } else if d == 4 {
        "4"
    } else if d == 5 {
        "5"
    } else if d == 6 {
        "6"
    } else if d == 7 {
        "7"
    } else if d == 8 {
        "8"
    } else {
        "9"
    };
    assert(s@ =~= seq![digit_char(d as nat)]);
    s
}

/// Writes `n` as a decimal numeral.
pub fn decimal_string(n: u64) -> (s: String)
    ensures
        s@ == decimal(n as nat),
    decreases n,
{
    if n < 10 {
        String::from_str(digit_str(n))
    } else {
        let head = decimal_string(n / 10);
        let s = head.concat(digit_str(n % 10));
        assert(s@ =~= decimal(n as nat));
        s
    }
}

/// Joins `parts` with `sep` between neighbours.
pub fn join(parts: &Vec<String>, sep: &str) -> (s: String)
    ensures
        s@ == joined(views(parts@), sep@),
{
    let mut out = String::new();
    let mut i: usize = 0;
    while i < parts.len()
        invariant
            i <= parts.len(),
            out@ == joined(views(parts@).take(i as int), sep@),
        decreases parts.len() - i,
    {
        let ghost before = views(parts@).take(i as int);
        let ghost after = views(parts@).take(i + 1);
        proof {
            assert(after.drop_last() =~= before);
            assert(after.last() == parts@[i as int]@);
        }
        if i > 0 {
            out.append(sep);
        }
        out.append(parts[i].as_str());
        proof {
            if i == 0 {
                assert(out@ =~= parts@[0]@);
            }
        }
        i += 1;
    }
    proof {
        assert(views(parts@).take(parts.len() as int) =~= views(parts@));
    }
    out
}


/// The pieces of `s` between its commas: a comma ends a piece and begins the
/// next, any other character extends the last piece. A text without comma is
/// one piece, the empty text among them.
pub open spec fn comma_separated(s: Seq<char>) -> Seq<Seq<char>>
    decreases s.len(),
{
    if s.len() == 0 {
        seq![Seq::empty()]
    } else if s.last() == ',' {
        comma_separated(s.drop_last()).push(Seq::empty())
    } else {
        let head = comma_separated(s.drop_last());
        head.drop_last().push(head.last().push(s.last()))
    }
}

/// Splits `text` at its commas.
pub fn split_list(text: &str) -> (parts: Vec<String>)
    ensures
        views(parts@) == comma_separated(text@),
{
    let n = text.unicode_len();
    let mut parts: Vec<String> = Vec::new();
    let mut start: usize = 0;
    let mut i: usize = 0;
    proof {
        assert(text@.take(0) =~= Seq::<char>::empty());
        assert(text@.subrange(0, 0) =~= Seq::<char>::empty());
        assert(views(parts@).push(text@.subrange(0, 0)) =~= seq![Seq::<char>::empty()]);
    }
    while i < n
        invariant
            n == text@.len(),
            start <= i <= n,
            views(parts@).push(text@.subrange(start as int, i as int)) == comma_separated(
                text@.take(i as int),
            ),
        decreases n - i,
    {
        let c = text.get_char(i);
        let ghost prefix = text@.take(i as int);
        let ghost longer = text@.take(i + 1);
        let ghost done = views(parts@);
        let ghost piece = text@.subrange(start as int, i as int);
        proof {
            assert(longer.drop_last() =~= prefix);
            assert(longer.last() == c);
        }
        if c == ',' {
            parts.push(String::from_str(text.substring_char(start, i)));
            start = i + 1;
            proof {
                assert(views(parts@) =~= done.push(piece));
                assert(text@.subrange(start as int, i + 1) =~= Seq::<char>::empty());
            }
        } else {
            proof {
                assert(done.push(piece).drop_last() =~= done);
                assert(piece.push(c) =~= text@.subrange(start as int, i + 1));
            }
        }
        i += 1;
    }
    parts.push(String::from_str(text.substring_char(start, n)));
    proof {
        assert(text@.take(n as int) =~= text@);
        assert(views(parts@) =~= comma_separated(text@));
    }
    parts
}

/// A text always has at least one piece.
pub proof fn lemma_comma_separated_nonempty(s: Seq<char>)
    ensures
        comma_separated(s).len() >= 1,
    decreases s.len(),
{
    if s.len() > 0 {
        lemma_comma_separated_nonempty(s.drop_last());
    }
}

/// Splitting at commas and joining with commas gives the text back, and no
/// piece holds a comma.
pub proof fn lemma_join_of_split(s: Seq<char>)
    ensures
        joined(comma_separated(s), ","@) == s,
        forall|i: int, j: int|
            0 <= i < comma_separated(s).len() && 0 <= j < comma_separated(s)[i].len()
                ==> comma_separated(s)[i][j] != ',',
    decreases s.len(),
{
    reveal_strlit(",");
    let sep = ","@;
    assert(sep =~= seq![',']);
    let pieces = comma_separated(s);
    if s.len() == 0 {
        assert(joined(pieces, sep) =~= s);
    } else {
        let shorter = s.drop_last();
        let head = comma_separated(shorter);
        lemma_join_of_split(shorter);
        lemma_comma_separated_nonempty(shorter);
        assert(shorter.push(s.last()) =~= s);
        if s.last() == ',' {
            assert(pieces.drop_last() =~= head);
            assert(joined(pieces, sep) =~= s);
        } else {
            let grown = head.last().push(s.last());
            assert(pieces.last() == grown);
            assert(pieces.drop_last() =~= head.drop_last());
            if head.len() == 1 {
                assert(joined(pieces, sep) =~= s);
            } else {
                assert(joined(pieces, sep) == joined(head.drop_last(), sep) + sep + grown);
                assert(joined(head, sep) == joined(head.drop_last(), sep) + sep + head.last());
                assert(joined(pieces, sep) =~= joined(head, sep).push(s.last()));
            }
        }
    }
}

} // verus!
