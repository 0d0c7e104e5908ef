use vstd::prelude::*;
use crate::text::views;

verus! {

/// The pieces of `s` between occurrences of `sep`, in order. A text without
/// `sep` is one piece; two neighbouring separators enclose an empty piece.
pub open spec fn spec_split(s: Seq<char>, sep: char) -> Seq<Seq<char>>
    decreases s.len(),
{
    if s.len() == 0 {
        seq![Seq::<char>::empty()]
    } else {
        let before = spec_split(s.drop_last(), sep);
        if s.last() == sep {
            before.push(Seq::<char>::empty())
        } else {
            before.drop_last().push(before.last().push(s.last()))
        }
    }
}

/// A split always yields at least one piece.
pub proof fn lemma_split_nonempty(s: Seq<char>, sep: char)
    ensures
        spec_split(s, sep).len() >= 1,
    decreases s.len(),
{
    if s.len() > 0 {
        lemma_split_nonempty(s.drop_last(), sep);
    }
}

/// The pieces of `s` between occurrences of `sep`.
pub fn split(s: &Vec<char>, sep: char) -> (res: Vec<Vec<char>>)
    ensures
        views(res@) == spec_split(s@, sep),
{
    let mut done: Vec<Vec<char>> = Vec::new();
    let mut cur: Vec<char> = Vec::new();
    let mut i: usize = 0;
    while i < s.len()
        invariant
            i <= s.len(),
            views(done@).push(cur@) == spec_split(s@.take(i as int), sep),
        decreases s.len() - i,
    {
        let c = s[i];
        proof {
            let t = s@.take(i + 1);
            assert(t.drop_last() == s@.take(i as int));
            assert(t.last() == c);
            let before = spec_split(s@.take(i as int), sep);
            assert(before.drop_last() == views(done@));
            assert(before.last() == cur@);
        }
        if c == sep {
            let ghost old_done = done@;
            done.push(cur);
            cur = Vec::new();
            assert(views(done@) == views(old_done).push(done@.last()@));
        } else {
            cur.push(c);
        }
        i += 1;
    }
    assert(s@.take(s.len() as int) == s@);
    let ghost old_done = done@;
    done.push(cur);
    assert(views(done@) == views(old_done).push(done@.last()@));
    done
}

/// Whether `c` is white space: the code points that carry the Unicode
/// property White_Space.
pub open spec fn spec_is_whitespace(c: char) -> bool {
    let n = c as u32;
    (0x09 <= n <= 0x0d) || n == 0x20 || n == 0x85 || n == 0xa0 || n == 0x1680 || (0x2000 <= n
        <= 0x200a) || n == 0x2028 || n == 0x2029 || n == 0x202f || n == 0x205f || n == 0x3000
}

/// Whether `c` is white space.
pub fn is_whitespace(c: char) -> (res: bool)
    ensures
        res == spec_is_whitespace(c),
{
    let n: u32 = c as u32;
    (0x09 <= n && n <= 0x0d) || n == 0x20 || n == 0x85 || n == 0xa0 || n == 0x1680 || (0x2000
        <= n && n <= 0x200a) || n == 0x2028 || n == 0x2029 || n == 0x202f || n == 0x205f || n
        == 0x3000
}

/// The maximal runs of characters of `s` that are not white space, in order.
pub open spec fn spec_words(s: Seq<char>) -> Seq<Seq<char>>
    decreases s.len(),
{
    if s.len() == 0 {
        Seq::<Seq<char>>::empty()
    } else {
        let before = spec_words(s.drop_last());
        if spec_is_whitespace(s.last()) {
            before
        } else if s.len() >= 2 && !spec_is_whitespace(s[s.len() - 2]) {
            before.drop_last().push(before.last().push(s.last()))
        } else {
            before.push(seq![s.last()])
        }
    }
}

/// The words of `s`: its maximal runs of characters that are not white space.
pub fn split_whitespace(s: &Vec<char>) -> (res: Vec<Vec<char>>)
    ensures
        views(res@) == spec_words(s@),
{
    let mut done: Vec<Vec<char>> = Vec::new();
    let mut cur: Vec<char> = Vec::new();
    let mut open: bool = false;
    let mut i: usize = 0;
    while i < s.len()
        invariant
            i <= s.len(),
            open <==> (i > 0 && !spec_is_whitespace(s@[i - 1])),
            open ==> views(done@).push(cur@) == spec_words(s@.take(i as int)),
            !open ==> views(done@) == spec_words(s@.take(i as int)),
        decreases s.len() - i,
    {
        let c = s[i];
        proof {
            let t = s@.take(i + 1);
            assert(t.drop_last() == s@.take(i as int));
            assert(t.last() == c);
            if i > 0 {
                assert(t[t.len() - 2] == s@[i - 1]);
            }
            let before = spec_words(s@.take(i as int));
            if open {
                assert(before.drop_last() == views(done@));
                assert(before.last() == cur@);
            }
        }
        if is_whitespace(c) {
            if open {
                let ghost old_done = done@;
                done.push(cur);
                cur = Vec::new();
                assert(views(done@) == views(old_done).push(done@.last()@));
                open = false;
            }
        } else {
            if open {
                cur.push(c);
            } else {
                cur = Vec::new();
                cur.push(c);
                assert(cur@ == seq![c]);
                open = true;
            }
        }
        i += 1;
    }
    assert(s@.take(s.len() as int) == s@);
    if open {
        let ghost old_done = done@;
        done.push(cur);
        assert(views(done@) == views(old_done).push(done@.last()@));
    }
    done
}

/// The number of white-space characters at the start of `s`.
pub open spec fn spec_leading_space(s: Seq<char>) -> nat
    decreases s.len(),
{
    if s.len() > 0 && spec_is_whitespace(s[0]) {
        1 + spec_leading_space(s.skip(1))
    } else {
        0
    }
}

/// The number of white-space characters at the end of `s`.
pub open spec fn spec_trailing_space(s: Seq<char>) -> nat
    decreases s.len(),
{
    if s.len() > 0 && spec_is_whitespace(s.last()) {
        1 + spec_trailing_space(s.drop_last())
    } else {
        0
    }
}

/// `s` without the white space at its start and at its end.
pub open spec fn spec_trim(s: Seq<char>) -> Seq<char> {
    let a = spec_leading_space(s);
    let rest = s.skip(a as int);
    rest.take(rest.len() - spec_trailing_space(rest))
}

proof fn lemma_leading_bound(s: Seq<char>)
    ensures
        spec_leading_space(s) <= s.len(),
    decreases s.len(),
{
    if s.len() > 0 && spec_is_whitespace(s[0]) {
        lemma_leading_bound(s.skip(1));
    }
}

proof fn lemma_trailing_bound(s: Seq<char>)
    ensures
        spec_trailing_space(s) <= s.len(),
    decreases s.len(),
{
    if s.len() > 0 && spec_is_whitespace(s.last()) {
        lemma_trailing_bound(s.drop_last());
    }
}

proof fn lemma_leading_step(s: Seq<char>, k: int)
    requires
        0 <= k <= s.len(),
        forall|j: int| 0 <= j < k ==> spec_is_whitespace(s[j]),
    ensures
        spec_leading_space(s) == k + spec_leading_space(s.skip(k)),
    decreases k,
{
    if k > 0 {
        assert(s.skip(1).skip(k - 1) == s.skip(k));
        assert forall|j: int| 0 <= j < k - 1 implies spec_is_whitespace(s.skip(1)[j]) by {
            assert(s.skip(1)[j] == s[j + 1]);
        }
        lemma_leading_step(s.skip(1), k - 1);
    } else {
        assert(s.skip(0) == s);
    }
}

proof fn lemma_trailing_step(s: Seq<char>, k: int)
    requires
        0 <= k <= s.len(),
        forall|j: int| s.len() - k <= j < s.len() ==> spec_is_whitespace(s[j]),
    ensures
        spec_trailing_space(s) == k + spec_trailing_space(s.take(s.len() - k)),
    decreases k,
{
    if k > 0 {
        assert(s.drop_last().take(s.len() - k) == s.take(s.len() - k));
        lemma_trailing_step(s.drop_last(), k - 1);
    } else {
        assert(s.take(s.len() as int) == s);
    }
}

/// `s` without the white space at its start and at its end.
pub fn trim(s: &Vec<char>) -> (res: Vec<char>)
    ensures
        res@ == spec_trim(s@),
{
    let mut a: usize = 0;
    while a < s.len() && is_whitespace(s[a])
        invariant
            a <= s.len(),
            forall|j: int| 0 <= j < a ==> spec_is_whitespace(s@[j]),
        decreases s.len() - a,
    {
        a += 1;
    }
    proof {
        lemma_leading_step(s@, a as int);
    }
    let mut b: usize = s.len();
    while b > a && is_whitespace(s[b - 1])
        invariant
            a <= b <= s.len(),
            forall|j: int| b <= j < s.len() ==> spec_is_whitespace(s@[j]),
        decreases b,
    {
        b -= 1;
    }
    let ghost rest = s@.skip(a as int);
    proof {
        assert forall|j: int| rest.len() - (s.len() - b) <= j < rest.len() implies spec_is_whitespace(
            rest[j],
        ) by {
            assert(rest[j] == s@[j + a]);
        }
        lemma_trailing_step(rest, s.len() - b);
        let kept = rest.take(rest.len() - (s.len() - b));
        if b > a {
            assert(kept.last() == s@[b - 1]);
        }
    }
    let mut out: Vec<char> = Vec::new();
    let mut i: usize = a;
    while i < b
        invariant
            a <= i <= b <= s.len(),
            out@ == s@.subrange(a as int, i as int),
        decreases b - i,
    {
        out.push(s[i]);
        i += 1;
    }
    assert(s@.subrange(a as int, b as int) == rest.take(rest.len() - (s.len() - b)));
    out
}

/// `p` without one carriage return at its end, if it has one there.
pub open spec fn spec_strip_cr(p: Seq<char>) -> Seq<char> {
    if p.len() > 0 && p.last() == '\r' {
        p.drop_last()
    } else {
        p
    }
}

/// The lines of a text. A line ends at a line feed, or at a carriage
/// return followed by a line feed; neither belongs to the line. What
/// follows the last line feed is a line too, unless it is empty.
pub open spec fn spec_lines(s: Seq<char>) -> Seq<Seq<char>> {
    let pieces = spec_split(s, '\n');
    let ended = Seq::new((pieces.len() - 1) as nat, |i: int| spec_strip_cr(pieces[i]));
    if pieces.last().len() == 0 {
        ended
    } else {
        ended.push(pieces.last())
    }
}

/// The lines of a text.
pub fn lines(s: &Vec<char>) -> (res: Vec<Vec<char>>)
    ensures
        views(res@) == spec_lines(s@),
{
    let pieces = split(s, '\n');
    proof {
        lemma_split_nonempty(s@, '\n');
    }
    let ghost ps = spec_split(s@, '\n');
    assert(views(pieces@).len() == pieces@.len());
    let n = pieces.len();
    let mut out: Vec<Vec<char>> = Vec::new();
    let mut i: usize = 0;
    while i + 1 < n
        invariant
            n == pieces@.len(),
            n >= 1,
            i + 1 <= n,
            views(pieces@) == ps,
            out@.len() == i,
            forall|j: int| 0 <= j < i ==> (#[trigger] out@[j])@ == spec_strip_cr(ps[j]),
        decreases n - i,
    {
        let p = &pieces[i];
        assert(views(pieces@)[i as int] == p@);
        let keep: usize = if p.len() > 0 && p[p.len() - 1] == '\r' {
            p.len() - 1
        } else {
            p.len()
        };
        let line = crate::text::slice(p, 0, keep);
        assert(line@ == spec_strip_cr(ps[i as int])) by {
            assert(p@.subrange(0, keep as int) =~= spec_strip_cr(p@));
        }
        out.push(line);
        i += 1;
    }
    let last = &pieces[n - 1];
    assert(views(pieces@)[n - 1] == last@);
    if last.len() > 0 {
        let copy = crate::text::slice(last, 0, last.len());
        assert(copy@ =~= last@);
        out.push(copy);
    }
    assert(views(out@) =~= spec_lines(s@));
    out
}

} // verus!
