use vstd::prelude::*;
use vstd::string::StringExecFns;

verus! {

/// `String::push` appends one character to the end of the string and leaves
/// the characters already there as they were.
pub assume_specification[ String::push ](s: &mut String, c: char)
    ensures
        final(s)@ == old(s)@.push(c),
;

/// The views of a sequence of character vectors, element by element.
pub open spec fn views(v: Seq<Vec<char>>) -> Seq<Seq<char>> {
    Seq::new(v.len(), |i: int| v[i]@)
}

/// The views of a sequence of strings, element by element.
pub open spec fn string_views(v: Seq<String>) -> Seq<Seq<char>> {
    Seq::new(v.len(), |i: int| v[i]@)
}

/// `p` stands in `s` at offset `i`.
pub open spec fn spec_occurs_at(s: Seq<char>, p: Seq<char>, i: int) -> bool {
    0 <= i && i + p.len() <= s.len() && s.subrange(i, i + p.len()) == p
}

/// `s` begins with `p`.
pub open spec fn spec_starts_with(s: Seq<char>, p: Seq<char>) -> bool {
    spec_occurs_at(s, p, 0)
}

/// `s` ends with `p`.
pub open spec fn spec_ends_with(s: Seq<char>, p: Seq<char>) -> bool {
    spec_occurs_at(s, p, s.len() - p.len())
}

/// `p` stands somewhere in `s`.
pub open spec fn spec_contains(s: Seq<char>, p: Seq<char>) -> bool {
    exists|i: int| spec_occurs_at(s, p, i)
}

/// The first offset at which `p` stands in `s`, where it stands in `s`.
pub open spec fn spec_first_offset(s: Seq<char>, p: Seq<char>) -> int {
    choose|i: int| spec_occurs_at(s, p, i) && forall|j: int| 0 <= j < i ==> !spec_occurs_at(s, p, j)
}

/// The last offset at which `p` stands in `s`, where it stands in `s`.
pub open spec fn spec_last_offset(s: Seq<char>, p: Seq<char>) -> int {
    choose|i: int| spec_occurs_at(s, p, i) && forall|j: int| i < j ==> !spec_occurs_at(s, p, j)
}

/// The characters of `s`, one element each.
pub fn chars_of(s: &str) -> (v: Vec<char>)
    ensures
        v@ == s@,
{
    let mut v: Vec<char> = Vec::new();
    for c in it: s.chars()
        invariant
            it.seq() == s@,
            v@ == it.seq().take(it.index() as int),
    {
        v.push(c);
    }
    v
}

/// The string whose characters are those of `v`.
pub fn string_of(v: &Vec<char>) -> (s: String)
    ensures
        s@ == v@,
{
    let mut s = String::new();
    let mut i: usize = 0;
    while i < v.len()
        invariant
            i <= v.len(),
            s@ == v@.take(i as int),
        decreases v.len() - i,
    {
        s.push(v[i]);
        i += 1;
    }
    s
}

/// Appends the characters of `v` to `out`.
pub fn push_chars(out: &mut String, v: &Vec<char>)
    ensures
        final(out)@ == old(out)@ + v@,
{
    let mut i: usize = 0;
    while i < v.len()
        invariant
            i <= v.len(),
            out@ == old(out)@ + v@.take(i as int),
        decreases v.len() - i,
    {
        out.push(v[i]);
        i += 1;
    }
}

/// Whether two character vectors hold the same text.
pub fn chars_eq(a: &Vec<char>, b: &Vec<char>) -> (res: bool)
    ensures
        res == (a@ == b@),
{
    if a.len() != b.len() {
        return false;
    }
    let mut i: usize = 0;
    while i < a.len()
        invariant
            i <= a.len(),
            a.len() == b.len(),
            a@.take(i as int) == b@.take(i as int),
        decreases a.len() - i,
    {
        if a[i] != b[i] {
            return false;
        }
        assert(a@.take(i + 1) == a@.take(i as int).push(a@[i as int]));
        assert(b@.take(i + 1) == b@.take(i as int).push(b@[i as int]));
        i += 1;
    }
    assert(a@.take(a.len() as int) == a@);
    assert(b@.take(b.len() as int) == b@);
    true
}

/// Whether two string slices hold the same text.
pub fn str_eq(a: &str, b: &str) -> (res: bool)
    ensures
        res == (a@ == b@),
{
    let x = chars_of(a);
    let y = chars_of(b);
    chars_eq(&x, &y)
}

/// Whether `p` stands in `s` at offset `i`.
pub fn occurs_at(s: &Vec<char>, p: &Vec<char>, i: usize) -> (res: bool)
    ensures
        res == spec_occurs_at(s@, p@, i as int),
{
    if p.len() > s.len() || i > s.len() - p.len() {
        return false;
    }
    let mut k: usize = 0;
    while k < p.len()
        invariant
            k <= p.len(),
            i + p.len() <= s.len(),
            s@.subrange(i as int, i + k) == p@.take(k as int),
        decreases p.len() - k,
    {
        if s[i + k] != p[k] {
            assert(s@.subrange(i as int, i + p.len())[k as int] != p@[k as int]);
            return false;
        }
        assert(s@.subrange(i as int, i + k + 1) == s@.subrange(i as int, i + k).push(
            s@[i + k],
        ));
        assert(p@.take(k + 1) == p@.take(k as int).push(p@[k as int]));
        k += 1;
    }
    assert(p@.take(p.len() as int) == p@);
    true
}

/// Whether `s` begins with `p`.
pub fn starts_with(s: &Vec<char>, p: &Vec<char>) -> (res: bool)
    ensures
        res == spec_starts_with(s@, p@),
{
    occurs_at(s, p, 0)
}

/// Whether `s` ends with `p`.
pub fn ends_with(s: &Vec<char>, p: &Vec<char>) -> (res: bool)
    ensures
        res == spec_ends_with(s@, p@),
{
    if p.len() > s.len() {
        return false;
    }
    occurs_at(s, p, s.len() - p.len())
}

/// The first offset at which `p` stands in `s`, if there is one.
pub fn find(s: &Vec<char>, p: &Vec<char>) -> (res: Option<usize>)
    ensures
        res is Some <==> spec_contains(s@, p@),
        res matches Some(i) ==> spec_occurs_at(s@, p@, i as int) && i == spec_first_offset(s@, p@)
            && forall|j: int| 0 <= j < i ==> !spec_occurs_at(s@, p@, j),
{
    if p.len() > s.len() {
        return None;
    }
    let last: usize = s.len() - p.len();
    let mut i: usize = 0;
    loop
        invariant
            i <= last,
            last == s.len() - p.len(),
            forall|j: int| 0 <= j < i ==> !spec_occurs_at(s@, p@, j),
        decreases last - i,
    {
        if occurs_at(s, p, i) {
            proof {
                let k = spec_first_offset(s@, p@);
                if k < i {
                    assert(!spec_occurs_at(s@, p@, k));
                }
                if i < k {
                    assert(!spec_occurs_at(s@, p@, i as int));
                }
            }
            return Some(i);
        }
        if i == last {
            return None;
        }
        i += 1;
    }
}

/// Whether `p` stands somewhere in `s`.
pub fn contains(s: &Vec<char>, p: &Vec<char>) -> (res: bool)
    ensures
        res == spec_contains(s@, p@),
{
    find(s, p).is_some()
}

/// Whether the text of `s` begins with the text of `p`.
pub fn str_starts_with(s: &str, p: &str) -> (res: bool)
    ensures
        res == spec_starts_with(s@, p@),
{
    let x = chars_of(s);
    let y = chars_of(p);
    starts_with(&x, &y)
}

/// Whether the text of `s` ends with the text of `p`.
pub fn str_ends_with(s: &str, p: &str) -> (res: bool)
    ensures
        res == spec_ends_with(s@, p@),
{
    let x = chars_of(s);
    let y = chars_of(p);
    ends_with(&x, &y)
}

/// Whether the text of `p` stands somewhere in the text of `s`.
pub fn str_contains(s: &str, p: &str) -> (res: bool)
    ensures
        res == spec_contains(s@, p@),
{
    let x = chars_of(s);
    let y = chars_of(p);
    contains(&x, &y)
}

/// The texts of `parts` in order, with `sep` between each two neighbours.
pub open spec fn spec_join(parts: Seq<Seq<char>>, sep: Seq<char>) -> Seq<char>
    decreases parts.len(),
{
    if parts.len() == 0 {
        Seq::<char>::empty()
    } else if parts.len() == 1 {
        parts[0]
    } else {
        spec_join(parts.drop_last(), sep) + sep + parts.last()
    }
}

/// The texts of `parts` in order, with `sep` between each two neighbours.
pub fn join(parts: &Vec<String>, sep: &str) -> (res: String)
    ensures
        res@ == spec_join(string_views(parts@), sep@),
{
    let mut out = String::new();
    let mut i: usize = 0;
    while i < parts.len()
        invariant
            i <= parts.len(),
            out@ == spec_join(string_views(parts@).take(i as int), sep@),
        decreases parts.len() - i,
    {
        let ghost before = string_views(parts@).take(i as int);
        let ghost now = string_views(parts@).take(i + 1);
        assert(now.drop_last() == before);
        assert(now.last() == parts@[i as int]@);
        if i > 0 {
            out.append(sep);
        } else {
            assert(now[0] == parts@[0]@);
            assert(out@ + parts@[0]@ == parts@[0]@);
        }
        out.append(parts[i].as_str());
        i += 1;
    }
    assert(string_views(parts@).take(parts.len() as int) == string_views(parts@));
    out
}

/// A copy of a list of strings.
pub fn clone_strings(v: &Vec<String>) -> (res: Vec<String>)
    ensures
        string_views(res@) == string_views(v@),
{
    let mut out: Vec<String> = Vec::new();
    let mut i: usize = 0;
    while i < v.len()
        invariant
            i <= v.len(),
            out@.len() == i,
            forall|j: int| 0 <= j < i ==> out@[j]@ == v@[j]@,
        decreases v.len() - i,
    {
        out.push(v[i].clone());
        i += 1;
    }
    assert(string_views(out@) =~= string_views(v@));
    out
}

/// Appends `s` to a list of strings.
pub fn push_string(v: &mut Vec<String>, s: String)
    ensures
        string_views(final(v)@) == string_views(old(v)@).push(s@),
{
    v.push(s);
    assert(string_views(v@) =~= string_views(old(v)@).push(s@));
}

/// Appends a copy of `s` to a list of strings.
pub fn push_str(v: &mut Vec<String>, s: &str)
    ensures
        string_views(final(v)@) == string_views(old(v)@).push(s@),
{
    push_string(v, s.to_owned());
}

/// The last offset at which `p` stands in `s`, if there is one.
pub fn find_last(s: &Vec<char>, p: &Vec<char>) -> (res: Option<usize>)
    ensures
        res is Some <==> spec_contains(s@, p@),
        res matches Some(i) ==> spec_occurs_at(s@, p@, i as int) && i == spec_last_offset(s@, p@)
            && forall|j: int| i < j ==> !spec_occurs_at(s@, p@, j),
{
    if p.len() > s.len() {
        return None;
    }
    let mut i: usize = s.len() - p.len();
    loop
        invariant
            i <= s.len() - p.len(),
            p.len() <= s.len(),
            forall|j: int| i < j ==> !spec_occurs_at(s@, p@, j),
        decreases i,
    {
        if occurs_at(s, p, i) {
            proof {
                let k = spec_last_offset(s@, p@);
                if k < i {
                    assert(!spec_occurs_at(s@, p@, i as int));
                }
                if i < k {
                    assert(!spec_occurs_at(s@, p@, k));
                }
            }
            return Some(i);
        }
        if i == 0 {
            return None;
        }
        i -= 1;
    }
}

/// The characters of `s` from offset `from` up to, not including, offset `to`.
pub fn slice(s: &Vec<char>, from: usize, to: usize) -> (res: Vec<char>)
    requires
        from <= to <= s.len(),
    ensures
        res@ == s@.subrange(from as int, to as int),
{
    let mut out: Vec<char> = Vec::new();
    let mut i: usize = from;
    while i < to
        invariant
            from <= i <= to <= s.len(),
            out@ == s@.subrange(from as int, i as int),
        decreases to - i,
    {
        out.push(s[i]);
        i += 1;
    }
    out
}

} // verus!
