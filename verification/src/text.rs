//! Small verified utilities on strings and characters.

use vstd::prelude::*;

verus! {

/// True iff the two string slices hold the same characters.
pub fn str_equal(a: &str, b: &str) -> (r: bool)
    ensures
        r <==> a@ == b@,
{
    let a_len = a.unicode_len();
    let b_len = b.unicode_len();
    if a_len != b_len {
        return false;
    }
    let mut i: usize = 0;
    while i < a_len
        invariant
            a_len == a@.len(),
            b_len == b@.len(),
            a_len == b_len,
            i <= a_len,
            forall|j: int| 0 <= j < i ==> a@[j] == b@[j],
        decreases a_len - i,
    {
        if a.get_char(i) != b.get_char(i) {
            return false;
        }
        i = i + 1;
    }
    proof {
        assert(a@ =~= b@);
    }
    true
}

/// The least index at or after `from` where `c` stands in `s`, or the
/// length of `s` where `c` does not occur there.
pub open spec fn index_of_from(s: Seq<char>, c: char, from: int) -> int
    decreases s.len() - from,
{
    if from < 0 || from >= s.len() {
        s.len() as int
    } else if s[from] == c {
        from
    } else {
        index_of_from(s, c, from + 1)
    }
}

/// The defining properties of `index_of_from`, unrolled.
pub proof fn lemma_index_of_from(s: Seq<char>, c: char, from: int)
    requires
        0 <= from <= s.len(),
    ensures
        from <= index_of_from(s, c, from) <= s.len(),
        index_of_from(s, c, from) < s.len() ==> s[index_of_from(s, c, from)] == c,
        forall|j: int| from <= j < index_of_from(s, c, from) ==> s[j] != c,
    decreases s.len() - from,
{
    if from < s.len() && s[from] != c {
        lemma_index_of_from(s, c, from + 1);
    }
}

/// Finds the first occurrence of `c` in `s` at or after `from`; yields the
/// length of `s` where there is none.
pub fn find_char_from(s: &str, c: char, from: usize) -> (i: usize)
    requires
        from <= s@.len(),
    ensures
        i == index_of_from(s@, c, from as int),
{
    let len = s.unicode_len();
    let mut i = from;
    while i < len
        invariant
            from <= i <= len,
            len == s@.len(),
            index_of_from(s@, c, from as int) == index_of_from(s@, c, i as int),
        decreases len - i,
    {
        if s.get_char(i) == c {
            return i;
        }
        i = i + 1;
    }
    i
}

/// The character views of a list of strings, in order.
pub open spec fn string_views(v: Seq<String>) -> Seq<Seq<char>>
    decreases v.len(),
{
    if v.len() == 0 {
        Seq::<Seq<char>>::empty()
    } else {
        string_views(v.drop_last()).push(v.last()@)
    }
}

/// A list of strings has as many views as strings.
pub proof fn lemma_string_views_len(v: Seq<String>)
    ensures
        string_views(v).len() == v.len(),
    decreases v.len(),
{
    if v.len() > 0 {
        lemma_string_views_len(v.drop_last());
    }
}

/// The `k`-th view is the view of the `k`-th string.
pub proof fn lemma_string_views_index(v: Seq<String>, k: int)
    requires
        0 <= k < v.len(),
    ensures
        string_views(v).len() == v.len(),
        string_views(v)[k] == v[k]@,
    decreases v.len(),
{
    lemma_string_views_len(v);
    lemma_string_views_len(v.drop_last());
    if k < v.len() - 1 {
        lemma_string_views_index(v.drop_last(), k);
    }
}

} // verus!
