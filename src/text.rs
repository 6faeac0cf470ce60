//! Plain text helpers: cutting a flag string at spaces, writing a number.
use vstd::prelude::*;

verus! {

/// The views of a list of strings.
pub open spec fn views(v: Seq<String>) -> Seq<Seq<char>> {
    v.map_values(|x: String| x@)
}

/// The pieces of `s` between single spaces, read left to right: every space
/// ends a piece, so two spaces in a row give an empty piece and the empty
/// text gives one empty piece.
pub open spec fn pieces(s: Seq<char>) -> Seq<Seq<char>>
    decreases s.len(),
{
    if s.len() == 0 {
        seq![Seq::<char>::empty()]
    } else {
        let p = pieces(s.drop_last());
        if s.last() == ' ' {
            p.push(Seq::<char>::empty())
        } else {
            p.update(p.len() - 1, p.last().push(s.last()))
        }
    }
}

/// There is always at least one piece, and the last one is the text after
/// the last space.
proof fn lemma_pieces_last(s: Seq<char>, start: int)
    requires
        0 <= start <= s.len(),
        forall|k: int| start <= k < s.len() ==> s[k] != ' ',
        start == 0 || s[start - 1] == ' ',
    ensures
        pieces(s).len() >= 1,
        pieces(s).last() == s.subrange(start, s.len() as int),
    decreases s.len(),
{
    if s.len() == 0 {
    } else if s.last() == ' ' {
        if s.len() > 1 {
            let t = s.drop_last();
            lemma_pieces_nonempty(t);
        }
        assert(s.subrange(start, s.len() as int) =~= Seq::<char>::empty());
    } else {
        let t = s.drop_last();
        lemma_pieces_last(t, start);
        assert(s.subrange(start, s.len() as int) =~= t.subrange(start, t.len() as int).push(s.last()));
    }
}

proof fn lemma_pieces_nonempty(s: Seq<char>)
    ensures
        pieces(s).len() >= 1,
    decreases s.len(),
{
    if s.len() > 0 {
        lemma_pieces_nonempty(s.drop_last());
    }
}

/// Cuts `s` at every space, as `str::split(" ")` does.
pub fn split_spaces(s: &str) -> (r: Vec<String>)
    ensures
        views(r@) == pieces(s@),
{
    let n = s.unicode_len();
    let mut r: Vec<String> = Vec::new();
    let mut start: usize = 0;
    let mut i: usize = 0;
    proof {
        assert(s@.subrange(0, 0) =~= Seq::<char>::empty());
        assert(views(r@) + seq![s@.subrange(0, 0)] =~= pieces(s@.subrange(0, 0)));
    }
    while i < n
        invariant
            n == s@.len(),
            start <= i <= n,
            forall|k: int| start <= k < i ==> s@[k] != ' ',
            start == 0 || s@[start - 1] == ' ',
            views(r@) + seq![s@.subrange(start as int, i as int)] == pieces(s@.subrange(0, i as int)),
        decreases n - i,
    {
        let c = s.get_char(i);
        let ghost pre = s@.subrange(0, i as int);
        let ghost cur = s@.subrange(0, i + 1);
        proof {
            assert(cur.drop_last() =~= pre);
            lemma_pieces_last(pre, start as int);
        }
        if c == ' ' {
            let piece = s.substring_char(start, i).to_owned();
            r.push(piece);
            i = i + 1;
            start = i;
            proof {
                assert(s@.subrange(start as int, i as int) =~= Seq::<char>::empty());
                assert(views(r@) =~= views(r@.drop_last()).push(piece@));
                assert(views(r@) + seq![s@.subrange(start as int, i as int)] =~= pieces(cur));
            }
        } else {
            i = i + 1;
            proof {
                let p = pieces(pre);
                assert(s@.subrange(start as int, i as int) =~= s@.subrange(start as int, i - 1).push(c));
                assert(views(r@) + seq![s@.subrange(start as int, i as int)] =~= p.update(p.len() - 1, p.last().push(c)));
            }
        }
    }
    let piece = s.substring_char(start, n).to_owned();
    let ghost old_r = r@;
    r.push(piece);
    proof {
        assert(s@.subrange(0, n as int) =~= s@);
        assert(views(r@) =~= views(old_r).push(piece@));
        assert(views(old_r).push(piece@) =~= views(old_r) + seq![piece@]);
    }
    r
}

/// The decimal digit `d`.
pub open spec fn digit(d: nat) -> char {
    seq!['0', '1', '2', '3', '4', '5', '6', '7', '8', '9'][d as int]
}

/// `n` written in decimal, without leading zeros.
pub open spec fn decimal(n: nat) -> Seq<char>
    decreases n,
{
    if n < 10 {
        seq![digit(n)]
    } else {
        decimal(n / 10) + seq![digit(n % 10)]
    }
}

/// The digits of `n` before its last one.
spec fn leading_digits(n: nat) -> Seq<char> {
    if n < 10 {
        Seq::<char>::empty()
    } else {
        decimal(n / 10)
    }
}

/// The text of the single digit `d`.
fn digit_text(d: u64) -> (r: String)
    requires
        d < 10,
    ensures
        r@ == seq![digit(d as nat)],
{
    let digits = "0123456789";
    proof {
        reveal_strlit("0123456789");
        assert(digits@ =~= seq!['0', '1', '2', '3', '4', '5', '6', '7', '8', '9']);
    }
    let r = digits.substring_char(d as usize, (d + 1) as usize).to_owned();
    assert(r@ =~= seq![digit(d as nat)]);
    r
}

/// Writes `n` in decimal.
pub fn decimal_text(n: u64) -> (r: String)
    ensures
        r@ == decimal(n as nat),
{
    let mut m: u64 = n;
    let mut r = digit_text(m % 10);
    assert(decimal(m as nat) =~= leading_digits(m as nat) + r@);
    while m >= 10
        invariant
            decimal(n as nat) == leading_digits(m as nat) + r@,
        decreases m,
    {
        let ghost old_r = r@;
        m = m / 10;
        let mut t = digit_text(m % 10);
        t.append(r.as_str());
        r = t;
        assert(decimal(m as nat) =~= leading_digits(m as nat) + seq![digit((m % 10) as nat)]);
        assert(leading_digits(m as nat) + r@ =~= decimal(m as nat) + old_r);
    }
    assert(leading_digits(m as nat) =~= Seq::<char>::empty());
    assert(r@ =~= leading_digits(m as nat) + r@);
    r
}

} // verus!
