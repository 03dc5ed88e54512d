//! Version-string comparison.
//!
//! A version string is normalized by stripping the known non-numeric
//! language-name prefix, splitting the remainder on `.`, and parsing each
//! component as a non-negative integer; a component that does not parse is
//! silently dropped. The two resulting integer sequences are compared
//! lexicographically, with a shorter sequence sorting before a longer one
//! that shares its prefix.

use vstd::prelude::*;
use core::cmp::Ordering;

verus! {

/// True iff `c` is an ASCII decimal digit.
pub open spec fn is_digit(c: char) -> bool {
    '0' <= c && c <= '9'
}

/// The numeric value of an ASCII decimal digit.
pub open spec fn digit_val(c: char) -> int {
    c as int - '0' as int
}

/// The value of a digit string read most-significant-first.
pub open spec fn digits_val(s: Seq<char>) -> int
    decreases s.len(),
{
    if s.len() == 0 {
        0
    } else {
        digits_val(s.drop_last()) * 10 + digit_val(s.last())
    }
}

/// True iff every character of `s` is an ASCII decimal digit.
pub open spec fn all_digits(s: Seq<char>) -> bool {
    forall|i: int| 0 <= i < s.len() ==> is_digit(s[i])
}

/// The digit part of a component: an optional leading `+` sign is accepted
/// and skipped, as a decimal integer parser tolerates one.
pub open spec fn component_digits(s: Seq<char>) -> Seq<char> {
    if s.len() > 0 && s[0] == '+' {
        s.skip(1)
    } else {
        s
    }
}

/// True iff the component parses as a non-negative integer that fits the
/// 32-bit range: a non-empty run of digits after the optional sign.
pub open spec fn is_numeric_component(s: Seq<char>) -> bool {
    let d = component_digits(s);
    d.len() > 0 && all_digits(d) && digits_val(d) <= u32::MAX
}

/// The integer value of a numeric component.
pub open spec fn component_value(s: Seq<char>) -> int {
    digits_val(component_digits(s))
}

/// The components of `s` split on `.` separators; empty components are kept,
/// so the result always holds at least one component.
pub open spec fn split_dots(s: Seq<char>) -> Seq<Seq<char>>
    decreases s.len(),
{
    if s.len() == 0 {
        seq![Seq::<char>::empty()]
    } else if s[0] == '.' {
        seq![Seq::<char>::empty()] + split_dots(s.skip(1))
    } else {
        let rest = split_dots(s.skip(1));
        seq![seq![s[0]] + rest[0]] + rest.skip(1)
    }
}

/// The values of the numeric components, in order; non-numeric components
/// are dropped.
pub open spec fn numeric_values(parts: Seq<Seq<char>>) -> Seq<int>
    decreases parts.len(),
{
    if parts.len() == 0 {
        Seq::<int>::empty()
    } else {
        let rest = numeric_values(parts.drop_last());
        if is_numeric_component(parts.last()) {
            rest.push(component_value(parts.last()))
        } else {
            rest
        }
    }
}

/// The string with every leading occurrence of the language-name tag `go`
/// removed; the tag is stripped repeatedly, so a doubled tag vanishes too.
pub open spec fn strip_go(s: Seq<char>) -> Seq<char>
    decreases s.len(),
{
    if s.len() >= 2 && s[0] == 'g' && s[1] == 'o' {
        strip_go(s.skip(2))
    } else {
        s
    }
}

/// The integer sequence that a version string normalizes to.
pub open spec fn spec_version_nums(s: Seq<char>) -> Seq<int> {
    numeric_values(split_dots(strip_go(s)))
}

/// Lexicographic three-way comparison of integer sequences; a missing
/// trailing component is treated as absent, so a strict prefix sorts first.
pub open spec fn seq_cmp(a: Seq<int>, b: Seq<int>) -> Ordering
    decreases a.len(),
{
    if a.len() == 0 && b.len() == 0 {
        Ordering::Equal
    } else if a.len() == 0 {
        Ordering::Less
    } else if b.len() == 0 {
        Ordering::Greater
    } else if a.first() < b.first() {
        Ordering::Less
    } else if a.first() > b.first() {
        Ordering::Greater
    } else {
        seq_cmp(a.drop_first(), b.drop_first())
    }
}

/// What `compare_versions` returns on a pair of version strings.
pub open spec fn spec_compare_versions(a: Seq<char>, b: Seq<char>) -> Ordering {
    seq_cmp(spec_version_nums(a), spec_version_nums(b))
}

/// Splitting never yields an empty component list.
pub proof fn lemma_split_dots_nonempty(s: Seq<char>)
    ensures
        split_dots(s).len() >= 1,
{
}

/// How appending one character extends the split: a separator closes the
/// last component and opens an empty one; any other character grows the
/// last component.
pub proof fn lemma_split_dots_push(s: Seq<char>, c: char)
    ensures
        c == '.' ==> split_dots(s.push(c)) == split_dots(s).push(Seq::<char>::empty()),
        c != '.' ==> split_dots(s.push(c)) == split_dots(s).update(
            split_dots(s).len() - 1,
            split_dots(s).last().push(c),
        ),
    decreases s.len(),
{
    lemma_split_dots_nonempty(s);
    if s.len() == 0 {
        assert(s =~= Seq::<char>::empty());
        assert(s.push(c) =~= seq![c]);
        assert(seq![c].skip(1) =~= Seq::<char>::empty());
        assert(split_dots(Seq::<char>::empty()) == seq![Seq::<char>::empty()]);
        if c == '.' {
            assert(split_dots(seq![c]) == seq![Seq::<char>::empty()] + split_dots(
                Seq::<char>::empty(),
            ));
            assert(split_dots(s.push(c)) =~~= split_dots(s).push(Seq::<char>::empty()));
        } else {
            assert(split_dots(seq![c]) == seq![seq![c] + split_dots(Seq::<char>::empty())[0]]
                + split_dots(Seq::<char>::empty()).skip(1));
            assert(seq![c] + Seq::<char>::empty() =~= seq![c]);
            assert(split_dots(s.push(c)) =~~= split_dots(s).update(
                split_dots(s).len() - 1,
                split_dots(s).last().push(c),
            ));
        }
    } else {
        let t = s.push(c);
        assert(t[0] == s[0]);
        assert(t.skip(1) =~= s.skip(1).push(c));
        lemma_split_dots_push(s.skip(1), c);
        lemma_split_dots_nonempty(s.skip(1));
        let r = split_dots(s.skip(1));
        if s[0] == '.' {
            if c == '.' {
                assert(split_dots(t) =~~= split_dots(s).push(Seq::<char>::empty()));
            } else {
                assert(split_dots(t) =~~= split_dots(s).update(
                    split_dots(s).len() - 1,
                    split_dots(s).last().push(c),
                ));
            }
        } else {
            if c == '.' {
                assert(split_dots(t) =~~= split_dots(s).push(Seq::<char>::empty()));
            } else {
                if r.len() == 1 {
                    assert(seq![s[0]] + r[0].push(c) =~= (seq![s[0]] + r[0]).push(c));
                    assert(split_dots(t) =~~= split_dots(s).update(
                        split_dots(s).len() - 1,
                        split_dots(s).last().push(c),
                    ));
                } else {
                    assert(split_dots(t) =~~= split_dots(s).update(
                        split_dots(s).len() - 1,
                        split_dots(s).last().push(c),
                    ));
                }
            }
        }
    }
}

/// A digit string has a non-negative value.
pub proof fn lemma_digits_val_nonneg(s: Seq<char>)
    requires
        all_digits(s),
    ensures
        digits_val(s) >= 0,
    decreases s.len(),
{
    if s.len() > 0 {
        assert(all_digits(s.drop_last()));
        lemma_digits_val_nonneg(s.drop_last());
    }
}

/// Extending a digit string never lowers its value, so the value of a
/// prefix is a lower bound.
pub proof fn lemma_digits_val_prefix_le(s: Seq<char>, m: int)
    requires
        all_digits(s),
        0 <= m <= s.len(),
    ensures
        digits_val(s.take(m)) <= digits_val(s),
    decreases s.len() - m,
{
    if m < s.len() {
        let t = s.take(m + 1);
        assert(t.drop_last() =~= s.take(m));
        assert(all_digits(s.take(m)));
        lemma_digits_val_nonneg(s.take(m));
        assert(digits_val(t) == digits_val(s.take(m)) * 10 + digit_val(t.last()));
        lemma_digits_val_prefix_le(s, m + 1);
    } else {
        assert(s.take(m) =~= s);
    }
}

/// The string with every leading `go` tag removed.
pub fn strip_go_prefix(s: &str) -> (r: &str)
    ensures
        r@ == strip_go(s@),
{
    let len = s.unicode_len();
    let mut i: usize = 0;
    proof {
        assert(s@.skip(0) =~= s@);
    }
    while i < len && i + 1 < len && s.get_char(i) == 'g' && s.get_char(i + 1) == 'o'
        invariant
            len == s@.len(),
            i <= len,
            strip_go(s@) == strip_go(s@.skip(i as int)),
        decreases len - i,
    {
        proof {
            assert(s@.skip(i as int).len() >= 2);
            assert(s@.skip(i as int)[0] == 'g');
            assert(s@.skip(i as int)[1] == 'o');
            assert(s@.skip(i as int).skip(2) =~= s@.skip(i + 2));
        }
        i = i + 2;
    }
    proof {
        let rest = s@.skip(i as int);
        assert(!(rest.len() >= 2 && rest[0] == 'g' && rest[1] == 'o'));
        assert(strip_go(rest) == rest);
        assert(s@.subrange(i as int, len as int) =~= rest);
    }
    s.substring_char(i, len)
}

/// Parses the component `s[lo..hi]` as a non-negative 32-bit integer,
/// accepting an optional leading `+` sign; yields `None` exactly where the
/// component is not numeric.
pub fn parse_component_range(s: &str, lo: usize, hi: usize) -> (r: Option<u32>)
    requires
        lo <= hi <= s@.len(),
    ensures
        r is Some <==> is_numeric_component(s@.subrange(lo as int, hi as int)),
        r matches Some(v) ==> v as int == component_value(s@.subrange(lo as int, hi as int)),
{
    let ghost comp = s@.subrange(lo as int, hi as int);
    let mut j = lo;
    if j < hi && s.get_char(j) == '+' {
        j = j + 1;
    }
    proof {
        assert(component_digits(comp) =~= s@.subrange(j as int, hi as int));
    }
    let ghost d = s@.subrange(j as int, hi as int);
    if j == hi {
        return None;
    }
    let start = j;
    let mut acc: u64 = 0;
    while j < hi
        invariant
            start <= j <= hi <= s@.len(),
            d == s@.subrange(start as int, hi as int),
            component_digits(s@.subrange(lo as int, hi as int)) == d,
            d.len() > 0,
            all_digits(d.take(j - start)),
            acc <= u32::MAX,
            acc as int == digits_val(d.take(j - start)),
        decreases hi - j,
    {
        let c = s.get_char(j);
        let code = c as u32;
        if code < 48 || code > 57 {
            proof {
                assert(d[j - start] == c);
                assert(!is_digit(c));
            }
            return None;
        }
        let dv: u64 = (code - 48) as u64;
        acc = acc * 10 + dv;
        j = j + 1;
        proof {
            assert(d.take(j - start).drop_last() =~= d.take(j - start - 1));
            assert(d.take(j - start).last() == c);
            assert(all_digits(d.take(j - start)));
        }
        if acc > u32::MAX as u64 {
            proof {
                if all_digits(d) && digits_val(d) <= u32::MAX {
                    lemma_digits_val_prefix_le(d, j - start);
                }
            }
            return None;
        }
    }
    proof {
        assert(d.take(j - start) =~= d);
    }
    Some(acc as u32)
}

/// The components that a list of index bounds cuts out of `s`.
pub open spec fn bounds_parts(s: Seq<char>, bounds: Seq<(usize, usize)>) -> Seq<Seq<char>>
    decreases bounds.len(),
{
    if bounds.len() == 0 {
        Seq::<Seq<char>>::empty()
    } else {
        bounds_parts(s, bounds.drop_last()).push(
            s.subrange(bounds.last().0 as int, bounds.last().1 as int),
        )
    }
}

/// The integer views of a list of parsed components.
pub open spec fn nums_view(v: Seq<u32>) -> Seq<int> {
    v.map_values(|x: u32| x as int)
}

/// The bounds of the components of `s` split on `.`, in order.
pub fn split_dot_bounds(s: &str) -> (bounds: Vec<(usize, usize)>)
    ensures
        bounds_parts(s@, bounds@) == split_dots(s@),
        forall|k: int| 0 <= k < bounds@.len() ==> #[trigger] bounds@[k].0 <= bounds@[k].1
            <= s@.len(),
{
    let len = s.unicode_len();
    let mut bounds: Vec<(usize, usize)> = Vec::new();
    let mut start: usize = 0;
    let mut i: usize = 0;
    proof {
        assert(s@.take(0) =~= Seq::<char>::empty());
        assert(s@.subrange(0, 0) =~= Seq::<char>::empty());
        assert(split_dots(s@.take(0)) == seq![Seq::<char>::empty()]);
        assert(bounds_parts(s@, bounds@) =~= Seq::<Seq<char>>::empty());
    }
    while i < len
        invariant
            len == s@.len(),
            start <= i <= len,
            forall|k: int| 0 <= k < bounds@.len() ==> #[trigger] bounds@[k].0 <= bounds@[k].1
                <= s@.len(),
            split_dots(s@.take(i as int)) == bounds_parts(s@, bounds@).push(
                s@.subrange(start as int, i as int),
            ),
        decreases len - i,
    {
        let c = s.get_char(i);
        proof {
            lemma_split_dots_push(s@.take(i as int), c);
            assert(s@.take(i as int).push(c) =~= s@.take(i + 1));
        }
        let ghost old_bounds = bounds@;
        if c == '.' {
            bounds.push((start, i));
            proof {
                assert(bounds@.drop_last() =~= old_bounds);
                assert(s@.subrange(i + 1, i + 1) =~= Seq::<char>::empty());
                assert(split_dots(s@.take(i + 1)) =~~= bounds_parts(s@, bounds@).push(
                    s@.subrange(i + 1, i + 1),
                ));
            }
            start = i + 1;
        } else {
            proof {
                let parts = split_dots(s@.take(i as int));
                assert(parts.last() == s@.subrange(start as int, i as int));
                assert(s@.subrange(start as int, i as int).push(c) =~= s@.subrange(
                    start as int,
                    i + 1,
                ));
                assert(split_dots(s@.take(i + 1)) =~~= bounds_parts(s@, bounds@).push(
                    s@.subrange(start as int, i + 1),
                ));
            }
        }
        i = i + 1;
    }
    let ghost old_bounds = bounds@;
    bounds.push((start, len));
    proof {
        assert(s@.take(len as int) =~= s@);
        assert(bounds@.drop_last() =~= old_bounds);
    }
    bounds
}

/// The sequence of integers that the version string `s` normalizes to:
/// the language-name prefix is stripped, the rest is split on `.`, and
/// every numeric component is parsed, the others dropped.
pub fn parse_version(s: &str) -> (nums: Vec<u32>)
    ensures
        nums_view(nums@) == spec_version_nums(s@),
{
    let stripped = strip_go_prefix(s);
    let bounds = split_dot_bounds(stripped);
    let ghost parts = split_dots(strip_go(s@));
    let mut nums: Vec<u32> = Vec::new();
    let n = bounds.len();
    let mut k: usize = 0;
    proof {
        assert(parts.take(0) =~= Seq::<Seq<char>>::empty());
        assert(nums_view(nums@) =~= Seq::<int>::empty());
    }
    while k < n
        invariant
            k <= n == bounds@.len(),
            stripped@ == strip_go(s@),
            bounds_parts(stripped@, bounds@) == parts,
            forall|j: int| 0 <= j < bounds@.len() ==> #[trigger] bounds@[j].0 <= bounds@[j].1
                <= stripped@.len(),
            nums_view(nums@) == numeric_values(parts.take(k as int)),
        decreases n - k,
    {
        let lo = bounds[k].0;
        let hi = bounds[k].1;
        proof {
            lemma_bounds_parts_index(stripped@, bounds@, k as int);
            assert(parts.take(k + 1).drop_last() =~= parts.take(k as int));
            assert(parts.take(k + 1).last() == stripped@.subrange(lo as int, hi as int));
        }
        let ghost old_nums = nums@;
        match parse_component_range(stripped, lo, hi) {
            Some(v) => {
                nums.push(v);
                proof {
                    assert(nums_view(nums@) =~= nums_view(old_nums).push(v as int));
                }
            },
            None => {},
        }
        k = k + 1;
    }
    proof {
        lemma_bounds_parts_len(stripped@, bounds@);
        assert(parts.take(n as int) =~= parts);
    }
    nums
}

/// A bounds list cuts out as many components as it has pairs.
proof fn lemma_bounds_parts_len(s: Seq<char>, bounds: Seq<(usize, usize)>)
    ensures
        bounds_parts(s, bounds).len() == bounds.len(),
    decreases bounds.len(),
{
    if bounds.len() > 0 {
        lemma_bounds_parts_len(s, bounds.drop_last());
    }
}

/// Cutting out the `k`-th bounds pair gives the `k`-th component.
proof fn lemma_bounds_parts_index(s: Seq<char>, bounds: Seq<(usize, usize)>, k: int)
    requires
        0 <= k < bounds.len(),
    ensures
        bounds_parts(s, bounds).len() == bounds.len(),
        bounds_parts(s, bounds)[k] == s.subrange(bounds[k].0 as int, bounds[k].1 as int),
    decreases bounds.len(),
{
    lemma_bounds_parts_len(s, bounds);
    lemma_bounds_parts_len(s, bounds.drop_last());
    if k < bounds.len() - 1 {
        lemma_bounds_parts_index(s, bounds.drop_last(), k);
    }
}

/// Lexicographically compares two parsed version sequences.
pub fn compare_num_seqs(a: &Vec<u32>, b: &Vec<u32>) -> (r: Ordering)
    ensures
        r == seq_cmp(nums_view(a@), nums_view(b@)),
{
    let ghost av = nums_view(a@);
    let ghost bv = nums_view(b@);
    let a_len = a.len();
    let b_len = b.len();
    let short = if a_len < b_len {
        a_len
    } else {
        b_len
    };
    let mut i: usize = 0;
    proof {
        assert(av.skip(0) =~= av);
        assert(bv.skip(0) =~= bv);
    }
    while i < short
        invariant
            i <= short,
            short == if a_len < b_len {
                a_len as int
            } else {
                b_len as int
            },
            a_len == a@.len(),
            b_len == b@.len(),
            av == nums_view(a@),
            bv == nums_view(b@),
            seq_cmp(av, bv) == seq_cmp(av.skip(i as int), bv.skip(i as int)),
        decreases short - i,
    {
        let x = a[i];
        let y = b[i];
        proof {
            assert(av.skip(i as int)[0] == x as int);
            assert(bv.skip(i as int)[0] == y as int);
        }
        if x < y {
            return Ordering::Less;
        }
        if x > y {
            return Ordering::Greater;
        }
        proof {
            assert(av.skip(i as int).drop_first() =~= av.skip(i + 1));
            assert(bv.skip(i as int).drop_first() =~= bv.skip(i + 1));
        }
        i = i + 1;
    }
    proof {
        if a_len < b_len {
            assert(av.skip(i as int).len() == 0);
            assert(bv.skip(i as int).len() > 0);
        } else if b_len < a_len {
            assert(bv.skip(i as int).len() == 0);
            assert(av.skip(i as int).len() > 0);
        } else {
            assert(av.skip(i as int).len() == 0);
            assert(bv.skip(i as int).len() == 0);
        }
    }
    if a_len < b_len {
        Ordering::Less
    } else if b_len < a_len {
        Ordering::Greater
    } else {
        Ordering::Equal
    }
}

/// Three-way comparison of two version strings, after normalizing each to
/// its sequence of numeric components.
pub fn compare_versions(installed: &str, latest: &str) -> (r: Ordering)
    ensures
        r == spec_compare_versions(installed@, latest@),
{
    let a = parse_version(installed);
    let b = parse_version(latest);
    compare_num_seqs(&a, &b)
}

/// Lexicographic comparison of a sequence with itself yields `Equal`.
pub proof fn lemma_seq_cmp_reflexive(a: Seq<int>)
    ensures
        seq_cmp(a, a) == Ordering::Equal,
    decreases a.len(),
{
    if a.len() > 0 {
        lemma_seq_cmp_reflexive(a.drop_first());
    }
}

/// Comparing any version string with itself yields `Equal`.
pub proof fn lemma_compare_versions_reflexive(s: Seq<char>)
    ensures
        spec_compare_versions(s, s) == Ordering::Equal,
{
    lemma_seq_cmp_reflexive(spec_version_nums(s));
}

/// The one-character string holding the decimal digit `d`.
pub fn digit_str(d: u64) -> (r: &'static str)
    requires
        d < 10,
    ensures
        r@.len() == 1,
        is_digit(r@[0]),
        digit_val(r@[0]) == d as int,
{
    proof {
        reveal_strlit("0");
        reveal_strlit("1");
        reveal_strlit("2");
        reveal_strlit("3");
        reveal_strlit("4");
        reveal_strlit("5");
        reveal_strlit("6");
        reveal_strlit("7");
        reveal_strlit("8");
        reveal_strlit("9");
    }
    match d {
        0 => "0",
        1 => "1",
        2 => "2",
        3 => "3",
        4 => "4",
        5 => "5",
        6 => "6",
        7 => "7",
        8 => "8",
        _ => "9",
    }
}

/// Renders `n` in decimal: the digits alone pin the string, together with
/// the absence of a leading zero.
pub fn u64_to_decimal(n: u64) -> (r: String)
    ensures
        all_digits(r@),
        digits_val(r@) == n as int,
        r@.len() >= 1,
        r@.len() > 1 ==> r@[0] != '0',
    decreases n,
{
    if n < 10 {
        let d = digit_str(n);
        proof {
            assert(d@.drop_last() =~= Seq::<char>::empty());
            assert(digits_val(Seq::<char>::empty()) == 0);
            assert(d@.last() == d@[0]);
        }
        d.to_owned()
    } else {
        let mut r = u64_to_decimal(n / 10);
        let ghost prefix = r@;
        let last = digit_str(n % 10);
        r.append(last);
        proof {
            assert(digits_val(Seq::<char>::empty()) == 0);
            assert(r@.drop_last() =~= prefix);
            assert(r@.last() == last@[0]);
            assert(digits_val(r@) == digits_val(prefix) * 10 + digit_val(r@.last()));
            assert(n as int == (n as int / 10) * 10 + (n as int % 10));
            if prefix.len() == 1 {
                assert(prefix.drop_last() =~= Seq::<char>::empty());
                assert(digits_val(prefix) == digit_val(prefix[0]));
            }
            assert(r@[0] == prefix[0]);
        }
        r
    }
}

/// A strictly shorter sequence that is a prefix of a longer one sorts
/// first: a missing trailing component is treated as absent, not as zero.
pub proof fn lemma_proper_prefix_is_less(a: Seq<int>, b: Seq<int>)
    requires
        a.len() < b.len(),
        a == b.take(a.len() as int),
    ensures
        seq_cmp(a, b) == Ordering::Less,
    decreases a.len(),
{
    if a.len() > 0 {
        assert(a[0] == b[0]);
        assert(a.drop_first() =~= b.drop_first().take(a.len() - 1));
        lemma_proper_prefix_is_less(a.drop_first(), b.drop_first());
    }
}

/// A version string whose numeric components form a strict prefix of
/// another's compares below it, as `go1.20` against `go1.20.0`.
pub proof fn lemma_version_prefix_is_less(a: Seq<char>, b: Seq<char>)
    requires
        spec_version_nums(a).len() < spec_version_nums(b).len(),
        spec_version_nums(a) == spec_version_nums(b).take(spec_version_nums(a).len() as int),
    ensures
        spec_compare_versions(a, b) == Ordering::Less,
{
    lemma_proper_prefix_is_less(spec_version_nums(a), spec_version_nums(b));
}

} // verus!
