//! Version strings: parsing, ordering and display.
//!
//! Companion versions look like `"4.2.6+8823"` or `"v4.3.1"`. A version is
//! read by trimming surrounding whitespace, stripping leading `v`s and any
//! `+build` suffix, then splitting on `.` and keeping the components that are
//! decimal numbers fitting in a `u32`. Two versions are ordered by their
//! components from left to right, a missing component counting as zero.
use std::cmp::Ordering;
use vstd::prelude::*;

use crate::text::{chars_of, is_white_space, white_space, is_ascii_digit, digit_value};

verus! {

// ---------------------------------------------------------------------------
// The model
// ---------------------------------------------------------------------------
/// `s` without leading whitespace.
pub open spec fn trim_start_ws(s: Seq<char>) -> Seq<char>
    decreases s.len(),
{
    if s.len() > 0 && is_white_space(s[0]) {
        trim_start_ws(s.drop_first())
    } else {
        s
    }
}

/// `s` without trailing whitespace.
pub open spec fn trim_end_ws(s: Seq<char>) -> Seq<char>
    decreases s.len(),
{
    if s.len() > 0 && is_white_space(s.last()) {
        trim_end_ws(s.drop_last())
    } else {
        s
    }
}

/// `s` without leading `v`s.
pub open spec fn strip_leading_v(s: Seq<char>) -> Seq<char>
    decreases s.len(),
{
    if s.len() > 0 && s[0] == 'v' {
        strip_leading_v(s.drop_first())
    } else {
        s
    }
}

/// The part of `s` before its first `+` (all of `s` if it has none).
pub open spec fn before_plus(s: Seq<char>) -> Seq<char>
    decreases s.len(),
{
    if s.len() == 0 {
        s
    } else if s[0] == '+' {
        Seq::empty()
    } else {
        seq![s[0]] + before_plus(s.drop_first())
    }
}

/// The dotted numeric part of a version string: trimmed, without leading
/// `v`s, without a `+build` suffix.
pub open spec fn semver(s: Seq<char>) -> Seq<char> {
    before_plus(strip_leading_v(trim_end_ws(trim_start_ws(s))))
}

/// The pieces of `s` between dots, as `str::split('.')` yields them.
pub open spec fn split_on_dot(s: Seq<char>) -> Seq<Seq<char>>
    decreases s.len(),
{
    if s.len() == 0 {
        seq![Seq::empty()]
    } else {
        let init = split_on_dot(s.drop_last());
        if s.last() == '.' {
            init.push(Seq::empty())
        } else {
            init.update(init.len() - 1, init.last().push(s.last()))
        }
    }
}

/// Every character of `p` is an ASCII digit.
pub open spec fn all_digits(p: Seq<char>) -> bool {
    forall|i: int| 0 <= i < p.len() ==> #[trigger] is_ascii_digit(p[i])
}

/// The number that the decimal digits of `p` spell.
pub open spec fn digits_value(p: Seq<char>) -> nat
    decreases p.len(),
{
    if p.len() == 0 {
        0
    } else {
        10 * digits_value(p.drop_last()) + digit_value(p.last())
    }
}

/// What `p.parse::<u32>()` gives for a piece `p` that holds no `+`: the value
/// of a non-empty run of ASCII digits that fits in a `u32`, else nothing.
pub open spec fn parse_component(p: Seq<char>) -> Option<u32> {
    if p.len() > 0 && all_digits(p) && digits_value(p) <= u32::MAX {
        Some(digits_value(p) as u32)
    } else {
        None
    }
}

/// The components of `parts` that parse, in order.
pub open spec fn numeric_parts(parts: Seq<Seq<char>>) -> Seq<u32>
    decreases parts.len(),
{
    if parts.len() == 0 {
        Seq::empty()
    } else {
        let init = numeric_parts(parts.drop_last());
        match parse_component(parts.last()) {
            Some(n) => init.push(n),
            None => init,
        }
    }
}

/// The numeric components of version string `s`.
pub open spec fn version_parts(s: Seq<char>) -> Seq<u32> {
    numeric_parts(split_on_dot(semver(s)))
}

/// First component of `a`, or 0 when `a` is empty.
pub open spec fn head_or_zero(a: Seq<u32>) -> u32 {
    if a.len() > 0 {
        a[0]
    } else {
        0
    }
}

/// `a` without its first component.
pub open spec fn tail_of(a: Seq<u32>) -> Seq<u32> {
    if a.len() > 0 {
        a.drop_first()
    } else {
        a
    }
}

/// The first pair of components, read left to right with missing ones as 0,
/// that differ; nothing when the two sequences are equal in that reading.
pub open spec fn first_difference(a: Seq<u32>, b: Seq<u32>) -> Option<(u32, u32)>
    decreases a.len() + b.len(),
{
    if a.len() == 0 && b.len() == 0 {
        None
    } else if head_or_zero(a) != head_or_zero(b) {
        Some((head_or_zero(a), head_or_zero(b)))
    } else {
        first_difference(tail_of(a), tail_of(b))
    }
}

/// Component list `a` is strictly lower than `b`.
pub open spec fn parts_lt(a: Seq<u32>, b: Seq<u32>) -> bool {
    match first_difference(a, b) {
        Some((x, y)) => x < y,
        None => false,
    }
}

/// Component lists `a` and `b` denote the same version.
pub open spec fn parts_eq(a: Seq<u32>, b: Seq<u32>) -> bool {
    first_difference(a, b) is None
}

/// Version string `a` is strictly older than `b`.
pub open spec fn version_lt(a: Seq<char>, b: Seq<char>) -> bool {
    parts_lt(version_parts(a), version_parts(b))
}

/// Version strings `a` and `b` denote the same version.
pub open spec fn version_eq(a: Seq<char>, b: Seq<char>) -> bool {
    parts_eq(version_parts(a), version_parts(b))
}

/// The ordering of two version strings.
pub open spec fn version_order(a: Seq<char>, b: Seq<char>) -> Ordering {
    if version_lt(a, b) {
        Ordering::Less
    } else if version_eq(a, b) {
        Ordering::Equal
    } else {
        Ordering::Greater
    }
}

// ---------------------------------------------------------------------------
// Executable code
// ---------------------------------------------------------------------------
/// First index in `[lo, hi)` whose character is not whitespace, or `hi`.
fn skip_ws_front(v: &Vec<char>, lo: usize, hi: usize) -> (r: usize)
    requires
        lo <= hi <= v.len(),
    ensures
        lo <= r <= hi,
        trim_start_ws(v@.subrange(lo as int, hi as int)) == v@.subrange(r as int, hi as int),
{
    let mut i = lo;
    while i < hi && white_space(v[i])
        invariant
            lo <= i <= hi <= v.len(),
            trim_start_ws(v@.subrange(lo as int, hi as int)) == trim_start_ws(
                v@.subrange(i as int, hi as int),
            ),
        decreases hi - i,
    {
        assert(v@.subrange(i as int, hi as int).drop_first() =~= v@.subrange(i + 1, hi as int));
        i = i + 1;
    }
    i
}

/// One past the last index in `[lo, hi)` whose character is not whitespace,
/// or `lo`.
fn skip_ws_back(v: &Vec<char>, lo: usize, hi: usize) -> (r: usize)
    requires
        lo <= hi <= v.len(),
    ensures
        lo <= r <= hi,
        trim_end_ws(v@.subrange(lo as int, hi as int)) == v@.subrange(lo as int, r as int),
{
    let mut j = hi;
    while j > lo && white_space(v[j - 1])
        invariant
            lo <= j <= hi <= v.len(),
            trim_end_ws(v@.subrange(lo as int, hi as int)) == trim_end_ws(
                v@.subrange(lo as int, j as int),
            ),
        decreases j - lo,
    {
        assert(v@.subrange(lo as int, j as int).drop_last() =~= v@.subrange(lo as int, j - 1));
        j = j - 1;
    }
    j
}

/// First index in `[lo, hi)` whose character is not `v`, or `hi`.
fn skip_v_front(v: &Vec<char>, lo: usize, hi: usize) -> (r: usize)
    requires
        lo <= hi <= v.len(),
    ensures
        lo <= r <= hi,
        strip_leading_v(v@.subrange(lo as int, hi as int)) == v@.subrange(r as int, hi as int),
{
    let mut i = lo;
    while i < hi && v[i] == 'v'
        invariant
            lo <= i <= hi <= v.len(),
            strip_leading_v(v@.subrange(lo as int, hi as int)) == strip_leading_v(
                v@.subrange(i as int, hi as int),
            ),
        decreases hi - i,
    {
        assert(v@.subrange(i as int, hi as int).drop_first() =~= v@.subrange(i + 1, hi as int));
        i = i + 1;
    }
    i
}

/// First index in `[lo, hi)` holding `+`, or `hi`.
fn find_plus(v: &Vec<char>, lo: usize, hi: usize) -> (r: usize)
    requires
        lo <= hi <= v.len(),
    ensures
        lo <= r <= hi,
        before_plus(v@.subrange(lo as int, hi as int)) == v@.subrange(lo as int, r as int),
{
    let mut i = lo;
    while i < hi && v[i] != '+'
        invariant
            lo <= i <= hi <= v.len(),
            before_plus(v@.subrange(lo as int, hi as int)) == v@.subrange(lo as int, i as int)
                + before_plus(v@.subrange(i as int, hi as int)),
        decreases hi - i,
    {
        assert(v@.subrange(i as int, hi as int).drop_first() =~= v@.subrange(i + 1, hi as int));
        assert(v@.subrange(lo as int, i as int) + seq![v@[i as int]] =~= v@.subrange(
            lo as int,
            i + 1,
        ));
        i = i + 1;
    }
    if i < hi {
        assert(before_plus(v@.subrange(i as int, hi as int)) =~= Seq::<char>::empty());
    } else {
        assert(v@.subrange(i as int, hi as int) =~= Seq::<char>::empty());
    }
    assert(v@.subrange(lo as int, i as int) + Seq::<char>::empty() =~= v@.subrange(
        lo as int,
        i as int,
    ));
    i
}

/// Where the dotted numeric part of `v` lies in it.
fn semver_bounds(v: &Vec<char>) -> (r: (usize, usize))
    ensures
        r.0 <= r.1 <= v.len(),
        v@.subrange(r.0 as int, r.1 as int) == semver(v@),
{
    let n = v.len();
    assert(v@.subrange(0, n as int) =~= v@);
    let a = skip_ws_front(v, 0, n);
    let b = skip_ws_back(v, a, n);
    let c = skip_v_front(v, a, b);
    let d = find_plus(v, c, b);
    (c, d)
}

proof fn lemma_split_nonempty(s: Seq<char>)
    ensures
        split_on_dot(s).len() >= 1,
    decreases s.len(),
{
    if s.len() > 0 {
        lemma_split_nonempty(s.drop_last());
    }
}

/// The numeric components of the pieces of `v[lo..hi]` between dots.
fn numeric_components(v: &Vec<char>, lo: usize, hi: usize) -> (res: Vec<u32>)
    requires
        lo <= hi <= v.len(),
    ensures
        res@ == numeric_parts(split_on_dot(v@.subrange(lo as int, hi as int))),
{
    let mut out: Vec<u32> = Vec::new();
    let mut cur_len: usize = 0;
    let mut cur_ok = true;
    let mut cur_val: u32 = 0;
    let mut i = lo;
    proof {
        assert(v@.subrange(lo as int, lo as int) =~= Seq::<char>::empty());
    }
    while i < hi
        invariant
            lo <= i <= hi <= v.len(),
            cur_len <= i - lo,
            split_on_dot(v@.subrange(lo as int, i as int)).len() >= 1,
            out@ == numeric_parts(split_on_dot(v@.subrange(lo as int, i as int)).drop_last()),
            cur_len as int == split_on_dot(v@.subrange(lo as int, i as int)).last().len(),
            cur_ok == (all_digits(split_on_dot(v@.subrange(lo as int, i as int)).last())
                && digits_value(split_on_dot(v@.subrange(lo as int, i as int)).last())
                <= u32::MAX),
            cur_ok ==> cur_val as int == digits_value(
                split_on_dot(v@.subrange(lo as int, i as int)).last(),
            ),
        decreases hi - i,
    {
        let ghost pre = v@.subrange(lo as int, i as int);
        let ghost parts = split_on_dot(pre);
        let ghost next = v@.subrange(lo as int, i + 1);
        let c = v[i];
        proof {
            assert(next.drop_last() =~= pre);
            assert(next.last() == c);
            lemma_split_nonempty(next);
        }
        if c == '.' {
            proof {
                assert(split_on_dot(next) == parts.push(Seq::<char>::empty()));
                assert(split_on_dot(next).drop_last() =~= parts);
                assert(parts.drop_last().push(parts.last()) =~= parts);
            }
            if cur_len > 0 && cur_ok {
                out.push(cur_val);
            }
            cur_len = 0;
            cur_ok = true;
            cur_val = 0;
            proof {
                assert(split_on_dot(next).last() =~= Seq::<char>::empty());
            }
        } else {
            let ghost last = parts.last();
            let ghost grown = last.push(c);
            proof {
                assert(split_on_dot(next) == parts.update(parts.len() - 1, grown));
                assert(split_on_dot(next).drop_last() =~= parts.drop_last());
                assert(split_on_dot(next).last() == grown);
                assert(grown.drop_last() =~= last);
                assert(grown.last() == c);
                assert(digits_value(grown) == 10 * digits_value(last) + digit_value(c));
                if all_digits(grown) {
                    assert forall|k: int| 0 <= k < last.len() implies is_ascii_digit(last[k]) by {
                        assert(grown[k] == last[k]);
                    }
                    assert(is_ascii_digit(grown[last.len() as int]));
                }
                if all_digits(last) && is_ascii_digit(c) {
                    assert forall|k: int| 0 <= k < grown.len() implies is_ascii_digit(grown[k]) by {
                        if k < last.len() {
                            assert(grown[k] == last[k]);
                        }
                    }
                }
            }
            let u = c as u32;
            let is_digit = 0x30 <= u && u <= 0x39;
            if cur_ok && is_digit {
                let d = u - 0x30;
                let wide = (cur_val as u64) * 10 + (d as u64);
                if wide <= 0xffff_ffff {
                    cur_val = wide as u32;
                } else {
                    cur_ok = false;
                }
            } else {
                cur_ok = false;
            }
            cur_len = cur_len + 1;
        }
        i = i + 1;
    }
    proof {
        let parts = split_on_dot(v@.subrange(lo as int, hi as int));
        assert(parts.drop_last().push(parts.last()) =~= parts);
        assert(parts.drop_last() =~= parts.drop_last());
    }
    if cur_len > 0 && cur_ok {
        out.push(cur_val);
    }
    out
}

/// Parse a version string into its numeric components.
/// `"v4.2.6+8823"` gives `[4, 2, 6]`.
pub fn parse(s: &str) -> (res: Vec<u32>)
    ensures
        res@ == version_parts(s@),
{
    let v = chars_of(s);
    let (lo, hi) = semver_bounds(&v);
    numeric_components(&v, lo, hi)
}

/// The first pair of differing components of `pa` and `pb`.
fn find_difference(pa: &Vec<u32>, pb: &Vec<u32>) -> (res: Option<(u32, u32)>)
    ensures
        res == first_difference(pa@, pb@),
{
    let n = if pa.len() >= pb.len() {
        pa.len()
    } else {
        pb.len()
    };
    let mut i: usize = 0;
    assert(rest(pa@, 0) =~= pa@);
    assert(rest(pb@, 0) =~= pb@);
    while i < n
        invariant
            i <= n,
            n == pa.len() || n == pb.len(),
            pa.len() <= n,
            pb.len() <= n,
            first_difference(pa@, pb@) == first_difference(rest(pa@, i as int), rest(pb@, i as int)),
        decreases n - i,
    {
        let x = if i < pa.len() {
            pa[i]
        } else {
            0
        };
        let y = if i < pb.len() {
            pb[i]
        } else {
            0
        };
        proof {
            lemma_rest_step(pa@, i as int);
            lemma_rest_step(pb@, i as int);
        }
        if x != y {
            return Some((x, y));
        }
        i = i + 1;
    }
    proof {
        assert(rest(pa@, i as int) =~= Seq::<u32>::empty());
        assert(rest(pb@, i as int) =~= Seq::<u32>::empty());
    }
    None
}

/// `a` from index `i` on (empty past its end).
pub open spec fn rest(a: Seq<u32>, i: int) -> Seq<u32> {
    if i < a.len() {
        a.skip(i)
    } else {
        Seq::empty()
    }
}

proof fn lemma_rest_step(a: Seq<u32>, i: int)
    requires
        0 <= i,
    ensures
        head_or_zero(rest(a, i)) == (if i < a.len() {
            a[i]
        } else {
            0
        }),
        tail_of(rest(a, i)) == rest(a, i + 1),
        i < a.len() ==> rest(a, i).len() > 0,
{
    if i < a.len() {
        assert(a.skip(i).drop_first() =~= rest(a, i + 1));
    }
}

/// Compare two version strings numerically.
pub fn compare(a: &str, b: &str) -> (o: Ordering)
    ensures
        o == version_order(a@, b@),
{
    let pa = parse(a);
    let pb = parse(b);
    match find_difference(&pa, &pb) {
        None => Ordering::Equal,
        Some((x, y)) => {
            if x < y {
                Ordering::Less
            } else {
                Ordering::Greater
            }
        },
    }
}

/// Returns true if `latest` is strictly greater than `current`.
pub fn is_update_available(current: &str, latest: &str) -> (b: bool)
    ensures
        b == version_lt(current@, latest@),
{
    match compare(current, latest) {
        Ordering::Less => true,
        _ => false,
    }
}

/// The display form of version string `s`: one `v`, then its dotted
/// numeric part.
pub open spec fn formatted(s: Seq<char>) -> Seq<char> {
    seq!['v'] + semver(s)
}

/// Format a version string for display: ensure a single `v` prefix,
/// drop any `+build` suffix.
pub fn format(s: &str) -> (res: String)
    ensures
        res@ == formatted(s@),
{
    let v = chars_of(s);
    let (lo, hi) = semver_bounds(&v);
    let core = s.substring_char(lo, hi);
    let mut out = String::from_str("v");
    out.append(core);
    proof {
        reveal_strlit("v");
    }
    out
}

// ---------------------------------------------------------------------------
// Laws
// ---------------------------------------------------------------------------
proof fn lemma_first_difference_swap(a: Seq<u32>, b: Seq<u32>)
    ensures
        match first_difference(a, b) {
            Some((x, y)) => first_difference(b, a) == Some((y, x)) && x != y,
            None => first_difference(b, a) is None,
        },
    decreases a.len() + b.len(),
{
    if a.len() == 0 && b.len() == 0 {
    } else if head_or_zero(a) != head_or_zero(b) {
    } else {
        lemma_first_difference_swap(tail_of(a), tail_of(b));
    }
}

proof fn lemma_first_difference_self(a: Seq<u32>)
    ensures
        first_difference(a, a) is None,
    decreases a.len(),
{
    if a.len() > 0 {
        lemma_first_difference_self(tail_of(a));
    }
}

proof fn lemma_parts_transitive(a: Seq<u32>, b: Seq<u32>, c: Seq<u32>)
    ensures
        parts_eq(a, b) && parts_eq(b, c) ==> parts_eq(a, c),
        parts_lt(a, b) && (parts_lt(b, c) || parts_eq(b, c)) ==> parts_lt(a, c),
        (parts_lt(a, b) || parts_eq(a, b)) && parts_lt(b, c) ==> parts_lt(a, c),
    decreases a.len() + b.len() + c.len(),
{
    if a.len() == 0 && b.len() == 0 && c.len() == 0 {
    } else {
        lemma_parts_transitive(tail_of(a), tail_of(b), tail_of(c));
    }
}

/// A trailing zero component does not change a version: `4.2` and `4.2.0`
/// are the same version.
pub proof fn law_trailing_zero_ignored(parts: Seq<u32>)
    ensures
        parts_eq(parts, parts.push(0)),
    decreases parts.len(),
{
    if parts.len() > 0 {
        assert(parts.push(0).drop_first() =~= parts.drop_first().push(0));
        assert(head_or_zero(parts) == head_or_zero(parts.push(0)));
        assert(tail_of(parts.push(0)) == tail_of(parts).push(0));
        law_trailing_zero_ignored(parts.drop_first());
        assert(first_difference(parts, parts.push(0)) == first_difference(
            tail_of(parts),
            tail_of(parts.push(0)),
        ));
    } else {
        let z = parts.push(0);
        assert(tail_of(z) =~= parts);
        assert(head_or_zero(z) == 0);
        assert(first_difference(parts, z) == first_difference(parts, parts));
    }
}

/// An update is available exactly when `compare(current, latest)` is `Less`.
pub proof fn law_update_available_iff_less(current: Seq<char>, latest: Seq<char>)
    ensures
        version_lt(current, latest) <==> version_order(current, latest) == Ordering::Less,
{
}

/// Every version string compares equal to itself.
pub proof fn law_compare_reflexive(a: Seq<char>)
    ensures
        version_order(a, a) == Ordering::Equal,
{
    lemma_first_difference_self(version_parts(a));
}

/// Swapping the arguments of `compare` reverses the result.
pub proof fn law_compare_antisymmetric(a: Seq<char>, b: Seq<char>)
    ensures
        version_order(a, b) == Ordering::Less <==> version_order(b, a) == Ordering::Greater,
        version_order(a, b) == Ordering::Equal <==> version_order(b, a) == Ordering::Equal,
{
    lemma_first_difference_swap(version_parts(a), version_parts(b));
}

/// `compare` orders versions consistently: "not newer" is transitive, and
/// strictly so when either step is strict.
pub proof fn law_compare_transitive(a: Seq<char>, b: Seq<char>, c: Seq<char>)
    ensures
        version_order(a, b) != Ordering::Greater && version_order(b, c) != Ordering::Greater
            ==> version_order(a, c) != Ordering::Greater,
        version_order(a, b) == Ordering::Less && version_order(b, c) != Ordering::Greater
            ==> version_order(a, c) == Ordering::Less,
        version_order(a, b) != Ordering::Greater && version_order(b, c) == Ordering::Less
            ==> version_order(a, c) == Ordering::Less,
        version_order(a, b) == Ordering::Equal && version_order(b, c) == Ordering::Equal
            ==> version_order(a, c) == Ordering::Equal,
{
    let (pa, pb, pc) = (version_parts(a), version_parts(b), version_parts(c));
    lemma_parts_transitive(pa, pb, pc);
    lemma_first_difference_swap(pa, pb);
    lemma_first_difference_swap(pb, pc);
    lemma_first_difference_swap(pa, pc);
}

/// Of two versions, exactly one of "older", "same", "newer" holds.
pub proof fn law_compare_total(a: Seq<char>, b: Seq<char>)
    ensures
        version_lt(a, b) || version_eq(a, b) || version_lt(b, a),
        !(version_lt(a, b) && version_lt(b, a)),
        version_eq(a, b) ==> !version_lt(a, b) && !version_lt(b, a),
{
    lemma_first_difference_swap(version_parts(a), version_parts(b));
}

/// "Not newer than" is transitive: if `b` is not older than `a` and `c` is
/// not older than `b`, then `c` is not older than `a`.
pub proof fn law_not_older_transitive(a: Seq<char>, b: Seq<char>, c: Seq<char>)
    ensures
        !version_lt(b, a) && !version_lt(c, b) ==> !version_lt(c, a),
{
    let (pa, pb, pc) = (version_parts(a), version_parts(b), version_parts(c));
    lemma_parts_transitive(pa, pb, pc);
    lemma_first_difference_swap(pa, pb);
    lemma_first_difference_swap(pb, pc);
    lemma_first_difference_swap(pa, pc);
}

proof fn lemma_before_plus(s: Seq<char>)
    ensures
        before_plus(s).len() <= s.len(),
        forall|i: int| 0 <= i < before_plus(s).len() ==> before_plus(s)[i] == s[i],
        forall|i: int| 0 <= i < before_plus(s).len() ==> before_plus(s)[i] != '+',
        (forall|i: int| 0 <= i < s.len() ==> s[i] != '+') ==> before_plus(s) == s,
    decreases s.len(),
{
    if s.len() > 0 && s[0] != '+' {
        lemma_before_plus(s.drop_first());
        let r = before_plus(s.drop_first());
        assert forall|i: int| 0 <= i < before_plus(s).len() implies before_plus(s)[i] == s[i] by {
            if i > 0 {
                assert(before_plus(s)[i] == r[i - 1]);
                assert(s.drop_first()[i - 1] == s[i]);
            }
        }
        if forall|i: int| 0 <= i < s.len() ==> s[i] != '+' {
            assert forall|i: int| 0 <= i < s.drop_first().len() implies s.drop_first()[i] != '+' by {
                assert(s.drop_first()[i] == s[i + 1]);
            }
            assert(seq![s[0]] + s.drop_first() =~= s);
        }
    }
}

proof fn lemma_strip_leading_v(s: Seq<char>)
    ensures
        strip_leading_v(s).len() > 0 ==> strip_leading_v(s)[0] != 'v',
    decreases s.len(),
{
    if s.len() > 0 && s[0] == 'v' {
        lemma_strip_leading_v(s.drop_first());
    }
}

/// The dotted numeric part holds no `+` and does not start with `v`.
proof fn lemma_semver_shape(s: Seq<char>)
    ensures
        forall|i: int| 0 <= i < semver(s).len() ==> semver(s)[i] != '+',
        semver(s).len() > 0 ==> semver(s)[0] != 'v',
{
    let r = strip_leading_v(trim_end_ws(trim_start_ws(s)));
    lemma_before_plus(r);
    lemma_strip_leading_v(trim_end_ws(trim_start_ws(s)));
}

/// The display form starts with exactly one `v` and carries no `+build`
/// suffix.
pub proof fn law_format_shape(s: Seq<char>)
    ensures
        formatted(s)[0] == 'v',
        formatted(s).len() > 1 ==> formatted(s)[1] != 'v',
        forall|i: int| 0 <= i < formatted(s).len() ==> formatted(s)[i] != '+',
{
    lemma_semver_shape(s);
    assert forall|i: int| 0 <= i < formatted(s).len() implies formatted(s)[i] != '+' by {
        if i > 0 {
            assert(formatted(s)[i] == semver(s)[i - 1]);
        }
    }
}

/// The dotted numeric part of a display form is the one it was made from,
/// as long as that part does not end in whitespace.
proof fn lemma_semver_of_formatted(s: Seq<char>)
    requires
        !(semver(s).len() > 0 && is_white_space(semver(s).last())),
    ensures
        semver(formatted(s)) == semver(s),
{
    let sv = semver(s);
    let f = formatted(s);
    lemma_semver_shape(s);
    assert(!is_white_space('v'));
    assert(f[0] == 'v');
    assert(trim_start_ws(f) == f);
    assert(f.last() == (if sv.len() > 0 {
        sv.last()
    } else {
        'v'
    }));
    assert(trim_end_ws(f) == f);
    assert(f.drop_first() =~= sv);
    assert(strip_leading_v(f) == strip_leading_v(sv));
    assert(strip_leading_v(sv) == sv);
    lemma_before_plus(sv);
}

/// Formatting twice is formatting once, unless the dotted numeric part ends
/// in whitespace (`"4.2 +x"` formats to `"v4.2 "`, which formats to `"v4.2"`).
pub proof fn law_format_idempotent(s: Seq<char>)
    requires
        !(semver(s).len() > 0 && is_white_space(semver(s).last())),
    ensures
        formatted(formatted(s)) == formatted(s),
{
    lemma_semver_of_formatted(s);
}

/// The display form denotes the same version as the string it came from
/// (when its dotted numeric part does not end in whitespace).
pub proof fn law_format_keeps_version(s: Seq<char>)
    requires
        !(semver(s).len() > 0 && is_white_space(semver(s).last())),
    ensures
        version_parts(formatted(s)) == version_parts(s),
        version_order(formatted(s), s) == Ordering::Equal,
{
    lemma_semver_of_formatted(s);
    lemma_first_difference_self(version_parts(s));
}

} // verus!
