use vstd::prelude::*;
use crate::decimal::{parse_u32, spec_parse_u32};
use crate::error::BuildError;
use crate::scan::{split, spec_split};
use crate::text::{chars_of, string_of, views};
use crate::version::{spec_is_available, MAX_MAJOR, MIN_MAJOR};

verus! {

/// `s` without the occurrences of `c`.
pub open spec fn spec_without(s: Seq<char>, c: char) -> Seq<char>
    decreases s.len(),
{
    if s.len() == 0 {
        Seq::<char>::empty()
    } else if s.last() == c {
        spec_without(s.drop_last(), c)
    } else {
        spec_without(s.drop_last(), c).push(s.last())
    }
}

/// `s` without the occurrences of `c`.
pub fn without(s: &Vec<char>, c: char) -> (res: Vec<char>)
    ensures
        res@ == spec_without(s@, c),
{
    let mut out: Vec<char> = Vec::new();
    let mut i: usize = 0;
    while i < s.len()
        invariant
            i <= s.len(),
            out@ == spec_without(s@.take(i as int), c),
        decreases s.len() - i,
    {
        assert(s@.take(i + 1).drop_last() == s@.take(i as int));
        if s[i] != c {
            out.push(s[i]);
        }
        i += 1;
    }
    assert(s@.take(s.len() as int) == s@);
    out
}

/// What one part of a version specification asks for: the bounds of a range
/// of majors, equal to each other where the part is a single number. A part
/// that is neither a number nor two numbers joined by `-` asks for nothing
/// and is invalid.
pub open spec fn spec_part(part: Seq<char>) -> Option<(u32, u32)> {
    let p = spec_split(part, '-');
    if p.len() == 1 {
        match spec_parse_u32(p[0]) {
            Some(v) => Some((v, v)),
            None => None,
        }
    } else if p.len() == 2 {
        match (spec_parse_u32(p[0]), spec_parse_u32(p[1])) {
            (Some(a), Some(b)) => Some((a, b)),
            _ => None,
        }
    } else {
        None
    }
}

/// Whether `part` is valid and asks for the major `v`.
pub open spec fn spec_covers(part: Seq<char>, v: int) -> bool {
    match spec_part(part) {
        Some((lo, hi)) => lo <= v <= hi,
        None => false,
    }
}

/// Whether one of the first `k` parts asks for the major `v`, and `v` can be built.
pub open spec fn spec_selected(parts: Seq<Seq<char>>, k: int, v: int) -> bool {
    spec_is_available(v) && exists|i: int|
        0 <= i < k && i < parts.len() && #[trigger] spec_covers(parts[i], v)
}

/// Whether each of the first `k` parts is valid.
pub open spec fn spec_all_valid(parts: Seq<Seq<char>>, k: int) -> bool {
    forall|i: int| 0 <= i < k && i < parts.len() ==> (#[trigger] spec_part(parts[i])) is Some
}

/// The majors up to `n` that the parts ask for, in ascending order.
pub open spec fn spec_chosen_upto(parts: Seq<Seq<char>>, n: int) -> Seq<u32>
    decreases n,
{
    if n < MIN_MAJOR {
        Seq::<u32>::empty()
    } else {
        let before = spec_chosen_upto(parts, n - 1);
        if spec_selected(parts, parts.len() as int, n) {
            before.push(n as u32)
        } else {
            before
        }
    }
}

/// The parts of a version specification: the text without its blanks, cut at the commas.
pub open spec fn spec_parts(spec: Seq<char>) -> Seq<Seq<char>> {
    spec_split(spec_without(spec, ' '), ',')
}

/// The majors that a version specification asks for, in ascending order.
pub open spec fn spec_chosen(spec: Seq<char>) -> Seq<u32> {
    spec_chosen_upto(spec_parts(spec), MAX_MAJOR as int)
}

/// Whether `bad` is the part at place `i`, that part is invalid and all before it are valid.
pub open spec fn spec_first_invalid(parts: Seq<Seq<char>>, i: int, bad: Seq<char>) -> bool {
    &&& 0 <= i < parts.len()
    &&& spec_all_valid(parts, i)
    &&& spec_part(parts[i]) is None
    &&& bad == parts[i]
}

/// What `parse_version_spec` owes for a specification.
pub open spec fn spec_parse_result(text: Seq<char>, res: Result<Vec<u32>, BuildError>) -> bool {
    let parts = spec_parts(text);
    match res {
        Ok(v) => {
            &&& spec_all_valid(parts, parts.len() as int)
            &&& v@ == spec_chosen(text)
            &&& v@.len() > 0
        },
        Err(e) => match e {
            BuildError::InvalidVersionSpec { spec } => exists|i: int|
                #[trigger] spec_first_invalid(parts, i, spec@),
            BuildError::NoVersionsSelected => {
                &&& spec_all_valid(parts, parts.len() as int)
                &&& spec_chosen(text).len() == 0
            },
            _ => false,
        },
    }
}

/// The majors chosen are exactly those that can be built and that some
/// part asks for; they stand in strictly ascending order, so none occurs twice.
pub proof fn lemma_chosen_upto(parts: Seq<Seq<char>>, n: int)
    requires
        n <= MAX_MAJOR,
    ensures
        forall|j: int|
            0 <= j < spec_chosen_upto(parts, n).len() ==> MIN_MAJOR <= (
            #[trigger] spec_chosen_upto(parts, n)[j]) <= n && spec_selected(
                parts,
                parts.len() as int,
                spec_chosen_upto(parts, n)[j] as int,
            ),
        forall|i: int, j: int|
            0 <= i < j < spec_chosen_upto(parts, n).len() ==> spec_chosen_upto(parts, n)[i]
                < spec_chosen_upto(parts, n)[j],
        forall|v: int|
            MIN_MAJOR <= v <= n && spec_selected(parts, parts.len() as int, v) ==> spec_chosen_upto(
                parts,
                n,
            ).contains(v as u32),
    decreases n,
{
    if n >= MIN_MAJOR {
        lemma_chosen_upto(parts, n - 1);
        let before = spec_chosen_upto(parts, n - 1);
        let now = spec_chosen_upto(parts, n);
        assert forall|v: int|
            MIN_MAJOR <= v <= n && spec_selected(parts, parts.len() as int, v) implies now.contains(
            v as u32,
        ) by {
            if v == n {
                assert(now[now.len() - 1] == n as u32);
            } else {
                assert(before.contains(v as u32));
                let j = choose|j: int| 0 <= j < before.len() && before[j] == v as u32;
                assert(now[j] == v as u32);
            }
        }
    }
}

/// Every major that a specification yields can be built, asked for by one
/// of its parts; the majors ascend strictly, so a major named twice occurs once;
/// and each buildable major that a part asks for is among them.
pub proof fn lemma_chosen_laws(spec: Seq<char>)
    ensures
        forall|j: int|
            0 <= j < spec_chosen(spec).len() ==> spec_is_available(
                (#[trigger] spec_chosen(spec)[j]) as int,
            ) && spec_selected(
                spec_parts(spec),
                spec_parts(spec).len() as int,
                spec_chosen(spec)[j] as int,
            ),
        forall|i: int, j: int|
            0 <= i < j < spec_chosen(spec).len() ==> spec_chosen(spec)[i] < spec_chosen(spec)[j],
        forall|v: int|
            spec_selected(spec_parts(spec), spec_parts(spec).len() as int, v) ==> spec_chosen(
                spec,
            ).contains(v as u32),
{
    lemma_chosen_upto(spec_parts(spec), MAX_MAJOR as int);
}

/// What one part of a version specification asks for.
pub fn parse_part(part: &Vec<char>) -> (res: Option<(u32, u32)>)
    ensures
        res == spec_part(part@),
{
    let p = split(part, '-');
    assert(views(p@).len() == p@.len());
    if p.len() == 1 {
        assert(views(p@)[0] == p@[0]@);
        match parse_u32(&p[0]) {
            Some(v) => Some((v, v)),
            None => None,
        }
    } else if p.len() == 2 {
        assert(views(p@)[0] == p@[0]@);
        assert(views(p@)[1] == p@[1]@);
        match (parse_u32(&p[0]), parse_u32(&p[1])) {
            (Some(a), Some(b)) => Some((a, b)),
            _ => None,
        }
    } else {
        None
    }
}

/// Reads a version specification such as `13`, `11,13` or `11-14` and gives
/// the majors it asks for that can be built, each once, in ascending order.
/// Blanks are ignored. Majors that cannot be built are passed over; a part
/// that is no number and no range is an error, and so is a specification that
/// leaves nothing to build.
pub fn parse_version_spec(spec: &str) -> (res: Result<Vec<u32>, BuildError>)
    ensures
        spec_parse_result(spec@, res),
{
    let raw = chars_of(spec);
    let cleaned = without(&raw, ' ');
    let parts = split(&cleaned, ',');
    let ghost ps = spec_parts(spec@);
    assert(views(parts@) == ps);
    let mut flags: Vec<bool> = Vec::new();
    let mut n: u32 = MIN_MAJOR;
    while n <= MAX_MAJOR
        invariant
            MIN_MAJOR <= n <= MAX_MAJOR + 1,
            flags@.len() == n - MIN_MAJOR,
            forall|j: int| 0 <= j < flags@.len() ==> !flags@[j],
        decreases MAX_MAJOR + 1 - n,
    {
        flags.push(false);
        n += 1;
    }
    let mut i: usize = 0;
    while i < parts.len()
        invariant
            i <= parts.len(),
            ps == spec_parts(spec@),
            views(parts@) == ps,
            ps.len() == parts@.len(),
            flags@.len() == MAX_MAJOR - MIN_MAJOR + 1,
            spec_all_valid(ps, i as int),
            forall|v: int|
                MIN_MAJOR <= v <= MAX_MAJOR ==> (#[trigger] flags@[v - MIN_MAJOR]) == spec_selected(
                    ps,
                    i as int,
                    v,
                ),
        decreases parts.len() - i,
    {
        assert(views(parts@)[i as int] == parts@[i as int]@);
        match parse_part(&parts[i]) {
            None => {
                let bad = string_of(&parts[i]);
                assert(spec_first_invalid(ps, i as int, bad@));
                let r: Result<Vec<u32>, BuildError> = Err(
                    BuildError::InvalidVersionSpec { spec: bad },
                );
                assert(r matches Err(e) && e matches BuildError::InvalidVersionSpec { spec: b2 }
                    && b2@ == bad@);
                return r;
            },
            Some((lo, hi)) => {
                let ghost old_flags = flags@;
                let mut v: u32 = MIN_MAJOR;
                while v <= MAX_MAJOR
                    invariant
                        MIN_MAJOR <= v <= MAX_MAJOR + 1,
                        flags@.len() == MAX_MAJOR - MIN_MAJOR + 1,
                        old_flags.len() == flags@.len(),
                        forall|w: int|
                            MIN_MAJOR <= w < v ==> (#[trigger] flags@[w - MIN_MAJOR]) == (
                            old_flags[w - MIN_MAJOR] || lo <= w <= hi),
                        forall|w: int|
                            v <= w <= MAX_MAJOR ==> (#[trigger] flags@[w - MIN_MAJOR])
                                == old_flags[w - MIN_MAJOR],
                    decreases MAX_MAJOR + 1 - v,
                {
                    if lo <= v && v <= hi {
                        flags.set((v - MIN_MAJOR) as usize, true);
                    }
                    v += 1;
                }
                proof {
                    assert forall|w: int| MIN_MAJOR <= w <= MAX_MAJOR implies (
                    #[trigger] flags@[w - MIN_MAJOR]) == spec_selected(ps, i + 1, w) by {
                        assert(old_flags[w - MIN_MAJOR] == spec_selected(ps, i as int, w));
                        if spec_selected(ps, i + 1, w) {
                            let k = choose|k: int|
                                0 <= k < i + 1 && k < ps.len() && #[trigger] spec_covers(ps[k], w);
                            if k < i {
                                assert(spec_selected(ps, i as int, w));
                            }
                        }
                        if old_flags[w - MIN_MAJOR] {
                            let k = choose|k: int|
                                0 <= k < i && k < ps.len() && #[trigger] spec_covers(ps[k], w);
                            assert(spec_selected(ps, i + 1, w));
                        }
                        if lo <= w <= hi {
                            assert(spec_covers(ps[i as int], w));
                            assert(spec_selected(ps, i + 1, w));
                        }
                    }
                }
            },
        }
        i += 1;
    }
    let mut out: Vec<u32> = Vec::new();
    let mut v: u32 = MIN_MAJOR;
    while v <= MAX_MAJOR
        invariant
            MIN_MAJOR <= v <= MAX_MAJOR + 1,
            flags@.len() == MAX_MAJOR - MIN_MAJOR + 1,
            ps.len() == parts@.len(),
            forall|w: int|
                MIN_MAJOR <= w <= MAX_MAJOR ==> (#[trigger] flags@[w - MIN_MAJOR]) == spec_selected(
                    ps,
                    ps.len() as int,
                    w,
                ),
            out@ == spec_chosen_upto(ps, v - 1),
        decreases MAX_MAJOR + 1 - v,
    {
        if flags[(v - MIN_MAJOR) as usize] {
            out.push(v);
        }
        v += 1;
    }
    if out.len() == 0 {
        Err(BuildError::NoVersionsSelected)
    } else {
        Ok(out)
    }
}

} // verus!
