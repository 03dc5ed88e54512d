//! Selecting the latest version from vendor release metadata.
//!
//! The metadata arrives as a JSON document. Reading it is the JSON
//! library's work, behind one trusted reduction per document shape: each
//! reduction parses the document and moves the fields the selection rule
//! needs into plain values, and a name stands for its result, which is a
//! function of the document text alone. Everything the values decide —
//! which entry is selected, and what version string comes out — is
//! verified logic over those names.

use vstd::prelude::*;
use crate::error::ToolchainError;
use crate::outputs::strip_first_char;
use crate::version::{all_digits, digits_val, u64_to_decimal};

verus! {

/// The view of an optional string.
pub open spec fn opt_str_view(v: Option<String>) -> Option<Seq<char>> {
    match v {
        Some(s) => Some(s@),
        None => None,
    }
}

// ------------------------------------------------------------ trusted ----

/// What reducing a Go metadata document yields: absent where the document
/// is no JSON array; else, per entry, its `stable` field as a boolean and
/// its `version` field as a string, each absent where the entry lacks the
/// field or it has another type.
pub uninterp spec fn go_raw_entries_of(body: Seq<char>) -> Option<
    Seq<(Option<bool>, Option<Seq<char>>)>,
>;

/// The views of a reduced Go entry list.
pub open spec fn go_raw_seq(v: Seq<(Option<bool>, Option<String>)>) -> Seq<
    (Option<bool>, Option<Seq<char>>),
> {
    v.map_values(|e: (Option<bool>, Option<String>)| (e.0, opt_str_view(e.1)))
}

/// Relies on serde_json::from_str, Value::get, Value::as_bool and
/// Value::as_str: parses the document and moves each entry's `stable` and
/// `version` fields into plain values, nothing more.
#[verifier::external_body]
fn go_raw_entries(body: &str) -> (r: Option<Vec<(Option<bool>, Option<String>)>>)
    ensures
        (match r {
            Some(v) => Some(go_raw_seq(v@)),
            None => None,
        }) == go_raw_entries_of(body@),
{
    let values: Vec<serde_json::Value> = serde_json::from_str(body).ok()?;
    Some(
        values.iter().map(
            |v|
                (
                    v.get("stable").and_then(serde_json::Value::as_bool),
                    v.get("version").and_then(serde_json::Value::as_str).map(str::to_owned),
                ),
        ).collect(),
    )
}

/// What reducing a Node.js metadata document yields: absent where the
/// document is no JSON array; else, per entry, its `lts` field as a
/// boolean and as a string, and its `version` field as a string, each
/// absent where the entry lacks the field or it has another type.
pub uninterp spec fn node_raw_entries_of(body: Seq<char>) -> Option<
    Seq<(Option<bool>, Option<Seq<char>>, Option<Seq<char>>)>,
>;

/// The views of a reduced Node.js entry list.
pub open spec fn node_raw_seq(v: Seq<(Option<bool>, Option<String>, Option<String>)>) -> Seq<
    (Option<bool>, Option<Seq<char>>, Option<Seq<char>>),
> {
    v.map_values(
        |e: (Option<bool>, Option<String>, Option<String>)|
            (e.0, opt_str_view(e.1), opt_str_view(e.2)),
    )
}

/// Relies on serde_json::from_str, Value::get, Value::as_bool and
/// Value::as_str: parses the document and moves each entry's `lts` and
/// `version` fields into plain values, nothing more.
#[verifier::external_body]
fn node_raw_entries(body: &str) -> (r: Option<Vec<(Option<bool>, Option<String>, Option<String>)>>)
    ensures
        (match r {
            Some(v) => Some(node_raw_seq(v@)),
            None => None,
        }) == node_raw_entries_of(body@),
{
    let values: Vec<serde_json::Value> = serde_json::from_str(body).ok()?;
    Some(
        values.iter().map(
            |v|
                (
                    v.get("lts").and_then(serde_json::Value::as_bool),
                    v.get("lts").and_then(serde_json::Value::as_str).map(str::to_owned),
                    v.get("version").and_then(serde_json::Value::as_str).map(str::to_owned),
                ),
        ).collect(),
    )
}

/// What reducing a Java metadata document yields: absent where the
/// document does not parse; `Some(None)` where it lacks an
/// `available_lts_releases` array; else that array's elements, each as a
/// signed integer or absent where it is none.
pub uninterp spec fn java_lts_of(body: Seq<char>) -> Option<Option<Seq<Option<i64>>>>;

/// Relies on serde_json::from_str, Value::get, Value::as_array and
/// Value::as_i64: parses the document and moves the LTS release list into
/// plain values, nothing more.
#[verifier::external_body]
fn java_raw_lts(body: &str) -> (r: Option<Option<Vec<Option<i64>>>>)
    ensures
        (match r {
            Some(Some(v)) => Some(Some(v@)),
            Some(None) => Some(None),
            None => None,
        }) == java_lts_of(body@),
{
    let root: serde_json::Value = serde_json::from_str(body).ok()?;
    Some(
        root.get("available_lts_releases").and_then(serde_json::Value::as_array).map(
            |a| a.iter().map(serde_json::Value::as_i64).collect(),
        ),
    )
}

// ----------------------------------------------------------- verified ----

/// One release, reduced to what the selection rule reads: whether the
/// entry carries the stable/LTS-equivalent flag, and its version string
/// where the entry names one.
pub struct ReleaseEntry {
    /// True iff the entry satisfies the per-toolchain selection flag.
    pub flagged: bool,
    /// The entry's version string; absent where the entry carries none.
    pub version: Option<String>,
}

/// The index of the first flagged entry, where there is one.
pub open spec fn spec_first_flagged(rs: Seq<ReleaseEntry>) -> Option<int>
    decreases rs.len(),
{
    if rs.len() == 0 {
        None
    } else if rs.first().flagged {
        Some(0int)
    } else {
        match spec_first_flagged(rs.drop_first()) {
            Some(i) => Some(i + 1),
            None => None,
        }
    }
}

/// The index of the first set flag, where there is one.
pub open spec fn spec_first_true(flags: Seq<bool>) -> Option<int>
    decreases flags.len(),
{
    if flags.len() == 0 {
        None
    } else if flags.first() {
        Some(0int)
    } else {
        match spec_first_true(flags.drop_first()) {
            Some(i) => Some(i + 1),
            None => None,
        }
    }
}

/// A selected index lies within the flag sequence.
proof fn lemma_first_true_in_range(flags: Seq<bool>)
    ensures
        spec_first_true(flags) matches Some(i) ==> 0 <= i < flags.len(),
    decreases flags.len(),
{
    if flags.len() > 0 && !flags.first() {
        lemma_first_true_in_range(flags.drop_first());
    }
}

/// Entries and their flag sequence select the same index.
proof fn lemma_first_flagged_is_first_true(entries: Seq<ReleaseEntry>, flags: Seq<bool>)
    requires
        entries.len() == flags.len(),
        forall|i: int| 0 <= i < entries.len() ==> (#[trigger] entries[i]).flagged == flags[i],
    ensures
        spec_first_flagged(entries) == spec_first_true(flags),
    decreases entries.len(),
{
    if entries.len() > 0 && !entries.first().flagged {
        assert forall|i: int|
            0 <= i < entries.drop_first().len() implies (#[trigger] entries.drop_first()[i]).flagged
            == flags.drop_first()[i] by {
            assert(entries.drop_first()[i] == entries[i + 1]);
            assert(flags.drop_first()[i] == flags[i + 1]);
        }
        lemma_first_flagged_is_first_true(entries.drop_first(), flags.drop_first());
    }
}

/// Selects the first flagged release and yields its version: no flagged
/// entry is `VersionNotFound`; a flagged entry without a version string is
/// a malformed document.
pub fn select_release(entries: &Vec<ReleaseEntry>) -> (r: Result<String, ToolchainError>)
    ensures
        spec_first_flagged(entries@) is None ==> (r matches Err(e) && e
            == ToolchainError::VersionNotFound),
        spec_first_flagged(entries@) matches Some(i) ==> 0 <= i < entries@.len() && (
        match entries@[i].version {
            Some(v) => r matches Ok(s) && s@ == v@,
            None => r matches Err(e) && e == ToolchainError::NetworkError,
        }),
{
    let n = entries.len();
    let mut k: usize = 0;
    proof {
        assert(entries@.skip(0) =~= entries@);
    }
    while k < n
        invariant
            k <= n == entries@.len(),
            spec_first_flagged(entries@) == (match spec_first_flagged(entries@.skip(k as int)) {
                Some(i) => Some(i + k as int),
                None => None::<int>,
            }),
        decreases n - k,
    {
        proof {
            assert(entries@.skip(k as int).first() == entries@[k as int]);
        }
        let e = &entries[k];
        if e.flagged {
            match &e.version {
                Some(v) => {
                    return Ok(v.clone());
                },
                None => {
                    return Err(ToolchainError::NetworkError);
                },
            }
        }
        proof {
            assert(entries@.skip(k as int).drop_first() =~= entries@.skip(k + 1));
        }
        k = k + 1;
    }
    proof {
        assert(entries@.skip(n as int) =~= Seq::<ReleaseEntry>::empty());
    }
    Err(ToolchainError::VersionNotFound)
}

/// The greatest of the enumerated release numbers, where any exist.
pub fn max_release_number(numbers: &Vec<u64>) -> (r: Option<u64>)
    ensures
        r is None <==> numbers@.len() == 0,
        r matches Some(m) ==> (exists|i: int| 0 <= i < numbers@.len() && numbers@[i] == m) && (
        forall|i: int| 0 <= i < numbers@.len() ==> numbers@[i] <= m),
{
    if numbers.len() == 0 {
        return None;
    }
    let mut best = numbers[0];
    let mut k: usize = 1;
    while k < numbers.len()
        invariant
            1 <= k <= numbers@.len(),
            exists|i: int| 0 <= i < k && numbers@[i] == best,
            forall|i: int| 0 <= i < k ==> numbers@[i] <= best,
        decreases numbers@.len() - k,
    {
        if numbers[k] > best {
            best = numbers[k];
            proof {
                assert(numbers@[k as int] == best);
            }
        }
        k = k + 1;
    }
    Some(best)
}

// ---------------------------------------------------------------- go ----

/// The selection flags of reduced Go entries: the `stable` field must be
/// the boolean true; an absent or differently-typed field counts as not
/// stable.
pub open spec fn spec_go_flags(es: Seq<(Option<bool>, Option<Seq<char>>)>) -> Seq<bool> {
    es.map_values(|e: (Option<bool>, Option<Seq<char>>)| e.0 == Some(true))
}

/// Builds the selection entries from reduced Go entries, applying the
/// defaulting of the flag.
fn go_entries_from_raw(raw: &Vec<(Option<bool>, Option<String>)>) -> (entries: Vec<ReleaseEntry>)
    ensures
        entries@.len() == raw@.len(),
        forall|i: int| 0 <= i < raw@.len() ==> (#[trigger] entries@[i]).flagged == (raw@[i].0
            == Some(true)),
        forall|i: int| 0 <= i < raw@.len() ==> opt_str_view((#[trigger] entries@[i]).version)
            == opt_str_view(raw@[i].1),
{
    let mut entries: Vec<ReleaseEntry> = Vec::new();
    let mut k: usize = 0;
    while k < raw.len()
        invariant
            k <= raw@.len(),
            entries@.len() == k,
            forall|i: int| 0 <= i < k ==> (#[trigger] entries@[i]).flagged == (raw@[i].0 == Some(
                true,
            )),
            forall|i: int| 0 <= i < k ==> opt_str_view((#[trigger] entries@[i]).version)
                == opt_str_view(raw@[i].1),
        decreases raw@.len() - k,
    {
        let e = &raw[k];
        let flagged = match e.0 {
            Some(true) => true,
            _ => false,
        };
        let version = match &e.1 {
            Some(s) => Some(s.clone()),
            None => None,
        };
        entries.push(ReleaseEntry { flagged, version });
        k = k + 1;
    }
    entries
}

/// The latest stable Go version that a release-metadata document names:
/// the version of the first entry whose `stable` flag is true.
pub fn latest_go_version_from_json(body: &str) -> (r: Result<String, ToolchainError>)
    ensures
        go_raw_entries_of(body@) is None ==> (r matches Err(e) && e
            == ToolchainError::NetworkError),
        go_raw_entries_of(body@) matches Some(es) ==> ({
            &&& spec_first_true(spec_go_flags(es)) is None ==> (r matches Err(e) && e
                == ToolchainError::VersionNotFound)
            &&& spec_first_true(spec_go_flags(es)) matches Some(i) ==> (match es[i].1 {
                Some(v) => r matches Ok(s) && s@ == v,
                None => r matches Err(e) && e == ToolchainError::NetworkError,
            })
        }),
{
    let raw = match go_raw_entries(body) {
        Some(v) => v,
        None => {
            return Err(ToolchainError::NetworkError);
        },
    };
    let entries = go_entries_from_raw(&raw);
    proof {
        let es = go_raw_seq(raw@);
        assert(go_raw_entries_of(body@) == Some(es));
        assert forall|i: int| 0 <= i < entries@.len() implies (#[trigger] entries@[i]).flagged
            == spec_go_flags(es)[i] by {
            assert(es[i] == (raw@[i].0, opt_str_view(raw@[i].1)));
        }
        lemma_first_flagged_is_first_true(entries@, spec_go_flags(es));
        lemma_first_true_in_range(spec_go_flags(es));
        match spec_first_true(spec_go_flags(es)) {
            Some(i) => {
                assert(0 <= i < es.len());
                assert(es[i] == (raw@[i].0, opt_str_view(raw@[i].1)));
                assert(es[i].1 == opt_str_view(entries@[i].version));
            },
            None => {},
        }
    }
    select_release(&entries)
}

// -------------------------------------------------------------- node ----

/// The `lts` field counts as set where it is the boolean true or a
/// non-empty string naming the LTS line.
pub open spec fn spec_node_flag(as_bool: Option<bool>, as_str: Option<Seq<char>>) -> bool {
    as_bool == Some(true) || (match as_str {
        Some(s) => s.len() > 0,
        None => false,
    })
}

/// The selection flags of reduced Node.js entries.
pub open spec fn spec_node_flags(
    es: Seq<(Option<bool>, Option<Seq<char>>, Option<Seq<char>>)>,
) -> Seq<bool> {
    es.map_values(
        |e: (Option<bool>, Option<Seq<char>>, Option<Seq<char>>)| spec_node_flag(e.0, e.1),
    )
}

/// Builds the selection entries from reduced Node.js entries, applying
/// the bool-or-named-line rule of the flag.
fn node_entries_from_raw(raw: &Vec<(Option<bool>, Option<String>, Option<String>)>) -> (entries:
    Vec<ReleaseEntry>)
    ensures
        entries@.len() == raw@.len(),
        forall|i: int| 0 <= i < raw@.len() ==> (#[trigger] entries@[i]).flagged == spec_node_flag(
            raw@[i].0,
            opt_str_view(raw@[i].1),
        ),
        forall|i: int| 0 <= i < raw@.len() ==> opt_str_view((#[trigger] entries@[i]).version)
            == opt_str_view(raw@[i].2),
{
    let mut entries: Vec<ReleaseEntry> = Vec::new();
    let mut k: usize = 0;
    while k < raw.len()
        invariant
            k <= raw@.len(),
            entries@.len() == k,
            forall|i: int| 0 <= i < k ==> (#[trigger] entries@[i]).flagged == spec_node_flag(
                raw@[i].0,
                opt_str_view(raw@[i].1),
            ),
            forall|i: int| 0 <= i < k ==> opt_str_view((#[trigger] entries@[i]).version)
                == opt_str_view(raw@[i].2),
        decreases raw@.len() - k,
    {
        let e = &raw[k];
        let from_bool = match e.0 {
            Some(true) => true,
            _ => false,
        };
        let from_str = match &e.1 {
            Some(s) => !s.as_str().is_empty(),
            None => false,
        };
        let flagged = from_bool || from_str;
        let version = match &e.2 {
            Some(s) => Some(s.clone()),
            None => None,
        };
        entries.push(ReleaseEntry { flagged, version });
        k = k + 1;
    }
    entries
}

/// The latest LTS Node.js version that a release-metadata document names:
/// the version of the first entry whose `lts` field is set, with its
/// leading tag character removed.
pub fn latest_node_version_from_json(body: &str) -> (r: Result<String, ToolchainError>)
    ensures
        node_raw_entries_of(body@) is None ==> (r matches Err(e) && e
            == ToolchainError::NetworkError),
        node_raw_entries_of(body@) matches Some(es) ==> ({
            &&& spec_first_true(spec_node_flags(es)) is None ==> (r matches Err(e) && e
                == ToolchainError::VersionNotFound)
            &&& spec_first_true(spec_node_flags(es)) matches Some(i) ==> (match es[i].2 {
                Some(v) => r matches Ok(s) && s@ == (if v.len() >= 1 {
                    v.skip(1)
                } else {
                    v
                }),
                None => r matches Err(e) && e == ToolchainError::NetworkError,
            })
        }),
{
    let raw = match node_raw_entries(body) {
        Some(v) => v,
        None => {
            return Err(ToolchainError::NetworkError);
        },
    };
    let entries = node_entries_from_raw(&raw);
    proof {
        let es = node_raw_seq(raw@);
        assert(node_raw_entries_of(body@) == Some(es));
        assert forall|i: int| 0 <= i < entries@.len() implies (#[trigger] entries@[i]).flagged
            == spec_node_flags(es)[i] by {
            assert(es[i] == (raw@[i].0, opt_str_view(raw@[i].1), opt_str_view(raw@[i].2)));
        }
        lemma_first_flagged_is_first_true(entries@, spec_node_flags(es));
        lemma_first_true_in_range(spec_node_flags(es));
        match spec_first_true(spec_node_flags(es)) {
            Some(i) => {
                assert(0 <= i < es.len());
                assert(es[i] == (raw@[i].0, opt_str_view(raw@[i].1), opt_str_view(raw@[i].2)));
                assert(es[i].2 == opt_str_view(entries@[i].version));
            },
            None => {},
        }
    }
    match select_release(&entries) {
        Ok(tagged) => Ok(strip_first_char(tagged.as_str())),
        Err(e) => Err(e),
    }
}

// -------------------------------------------------------------- java ----

/// The enumerated LTS majors that count: the integral, non-negative
/// entries of the list, in order.
pub open spec fn spec_lts_numbers(list: Seq<Option<i64>>) -> Seq<int>
    decreases list.len(),
{
    if list.len() == 0 {
        Seq::<int>::empty()
    } else {
        let rest = spec_lts_numbers(list.drop_last());
        match list.last() {
            Some(x) => if x >= 0 {
                rest.push(x as int)
            } else {
                rest
            },
            None => rest,
        }
    }
}

/// The integer views of a list of release numbers.
pub open spec fn u64s_view(v: Seq<u64>) -> Seq<int> {
    v.map_values(|x: u64| x as int)
}

/// The greatest element of a non-empty sequence.
pub open spec fn spec_seq_max(s: Seq<int>) -> int
    decreases s.len(),
{
    if s.len() <= 1 {
        s[0]
    } else {
        let m = spec_seq_max(s.drop_first());
        if s[0] >= m {
            s[0]
        } else {
            m
        }
    }
}

/// The greatest element is a member and an upper bound.
proof fn lemma_seq_max_properties(s: Seq<int>)
    requires
        s.len() > 0,
    ensures
        exists|i: int| 0 <= i < s.len() && s[i] == spec_seq_max(s),
        forall|i: int| 0 <= i < s.len() ==> s[i] <= spec_seq_max(s),
    decreases s.len(),
{
    if s.len() == 1 {
        assert(s[0] == spec_seq_max(s));
    } else {
        lemma_seq_max_properties(s.drop_first());
        let rest = s.drop_first();
        let j = choose|j: int| 0 <= j < rest.len() && rest[j] == spec_seq_max(rest);
        assert(s[j + 1] == spec_seq_max(rest));
        if s[0] >= spec_seq_max(rest) {
            assert(s[0] == spec_seq_max(s));
        } else {
            assert(s[j + 1] == spec_seq_max(s));
        }
        assert forall|i: int| 0 <= i < s.len() implies s[i] <= spec_seq_max(s) by {
            if i > 0 {
                assert(s[i] == rest[i - 1]);
            }
        }
    }
}

/// Keeps the integral, non-negative entries of the reduced LTS list.
fn lts_numbers_from_raw(list: &Vec<Option<i64>>) -> (nums: Vec<u64>)
    ensures
        u64s_view(nums@) == spec_lts_numbers(list@),
{
    let mut nums: Vec<u64> = Vec::new();
    let mut k: usize = 0;
    proof {
        assert(list@.take(0) =~= Seq::<Option<i64>>::empty());
        assert(u64s_view(nums@) =~= Seq::<int>::empty());
    }
    while k < list.len()
        invariant
            k <= list@.len(),
            u64s_view(nums@) == spec_lts_numbers(list@.take(k as int)),
        decreases list@.len() - k,
    {
        proof {
            assert(list@.take(k + 1).drop_last() =~= list@.take(k as int));
            assert(list@.take(k + 1).last() == list@[k as int]);
        }
        let ghost old_nums = nums@;
        match list[k] {
            Some(x) => {
                if x >= 0 {
                    nums.push(x as u64);
                    proof {
                        assert(u64s_view(nums@) =~= u64s_view(old_nums).push(x as int));
                    }
                }
            },
            None => {},
        }
        k = k + 1;
    }
    proof {
        assert(list@.take(list@.len() as int) =~= list@);
    }
    nums
}

/// The latest LTS Java major version that a release-metadata document
/// names: the greatest of the enumerated non-negative LTS majors,
/// rendered in decimal without a leading zero.
pub fn latest_java_version_from_json(body: &str) -> (r: Result<String, ToolchainError>)
    ensures
        java_lts_of(body@) is None ==> (r matches Err(e) && e == ToolchainError::NetworkError),
        java_lts_of(body@) matches Some(inner) ==> ({
            &&& inner is None ==> (r matches Err(e) && e == ToolchainError::VersionNotFound)
            &&& inner matches Some(list) ==> ({
                let nums = spec_lts_numbers(list);
                &&& nums.len() == 0 ==> (r matches Err(e) && e == ToolchainError::VersionNotFound)
                &&& nums.len() > 0 ==> (r matches Ok(s) && all_digits(s@) && digits_val(s@)
                    == spec_seq_max(nums) && s@.len() >= 1 && (s@.len() > 1 ==> s@[0] != '0'))
            })
        }),
{
    let raw = match java_raw_lts(body) {
        Some(v) => v,
        None => {
            return Err(ToolchainError::NetworkError);
        },
    };
    let list = match raw {
        Some(l) => l,
        None => {
            return Err(ToolchainError::VersionNotFound);
        },
    };
    let nums = lts_numbers_from_raw(&list);
    match max_release_number(&nums) {
        Some(m) => {
            proof {
                let ints = spec_lts_numbers(list@);
                assert(u64s_view(nums@).len() == nums@.len());
                lemma_seq_max_properties(ints);
                let i0 = choose|i: int| 0 <= i < nums@.len() && nums@[i] == m;
                assert(u64s_view(nums@)[i0] == m as int);
                let j0 = choose|j: int| 0 <= j < ints.len() && ints[j] == spec_seq_max(ints);
                assert(u64s_view(nums@)[j0] == nums@[j0] as int);
                assert(nums@[j0] <= m);
                assert(m as int == spec_seq_max(ints));
            }
            Ok(u64_to_decimal(m))
        },
        None => {
            proof {
                assert(u64s_view(nums@).len() == nums@.len());
            }
            Err(ToolchainError::VersionNotFound)
        },
    }
}

} // verus!
