//! String utilities: edit distance and joining.

use vstd::prelude::*;
use vstd::string::{StrSliceExecFns, StringExecFns};

verus! {

pub open spec fn min_nat(a: nat, b: nat) -> nat {
    if a <= b {
        a
    } else {
        b
    }
}

/// Edit distance between the first `i` characters of `a` and the first `j`
/// characters of `b`, counting insertions, deletions and substitutions.
pub open spec fn prefix_distance(a: Seq<char>, b: Seq<char>, i: nat, j: nat) -> nat
    decreases i + j,
{
    if i == 0 {
        j
    } else if j == 0 {
        i
    } else {
        let cost: nat = if a[i - 1] == b[j - 1] {
            0
        } else {
            1
        };
        min_nat(
            min_nat(
                prefix_distance(a, b, (i - 1) as nat, j) + 1,
                prefix_distance(a, b, i, (j - 1) as nat) + 1,
            ),
            prefix_distance(a, b, (i - 1) as nat, (j - 1) as nat) + cost,
        )
    }
}

/// The Levenshtein distance between two character sequences.
pub open spec fn edit_distance(a: Seq<char>, b: Seq<char>) -> nat {
    prefix_distance(a, b, a.len(), b.len())
}

/// A prefix distance never exceeds the longer prefix.
proof fn lemma_prefix_distance_bound(a: Seq<char>, b: Seq<char>, i: nat, j: nat)
    ensures
        prefix_distance(a, b, i, j) <= if i >= j {
            i
        } else {
            j
        },
    decreases i + j,
{
    if i > 0 && j > 0 {
        lemma_prefix_distance_bound(a, b, (i - 1) as nat, (j - 1) as nat);
    }
}

/// The characters of `s`, in order.
fn chars_of(s: &str) -> (r: Vec<char>)
    ensures
        r@ == s@,
{
    let n = s.unicode_len();
    let mut r: Vec<char> = Vec::new();
    let mut i: usize = 0;
    while i < n
        invariant
            n as nat == s@.len(),
            i <= n,
            r@ == s@.subrange(0, i as int),
        decreases n - i,
    {
        r.push(s.get_char(i));
        i = i + 1;
        assert(r@ == s@.subrange(0, i as int));
    }
    assert(r@ == s@);
    r
}

/// Number of single-character insertions, deletions and substitutions that
/// turn `s1` into `s2`.
pub fn levenshtein_distance(s1: &str, s2: &str) -> (r: usize)
    ensures
        r as nat == edit_distance(s1@, s2@),
{
    let a = chars_of(s1);
    let b = chars_of(s2);
    let len1 = a.len();
    let len2 = b.len();
    let ghost sa = a@;
    let ghost sb = b@;

    let mut prev: Vec<usize> = Vec::new();
    let mut j: usize = 0;
    prev.push(0);
    while j < len2
        invariant
            j <= len2 == sb.len(),
            prev@.len() == j + 1,
            forall|k: int| 0 <= k <= j ==> prev@[k] as nat == prefix_distance(sa, sb, 0, k as nat),
        decreases len2 - j,
    {
        j = j + 1;
        prev.push(j);
    }

    let mut i: usize = 0;
    while i < len1
        invariant
            i <= len1 == sa.len(),
            len2 == sb.len(),
            a@ == sa,
            b@ == sb,
            prev@.len() == len2 + 1,
            forall|k: int|
                0 <= k <= len2 ==> prev@[k] as nat == prefix_distance(sa, sb, i as nat, k as nat),
        decreases len1 - i,
    {
        let mut cur: Vec<usize> = Vec::new();
        cur.push(i + 1);
        let mut j: usize = 0;
        while j < len2
            invariant
                i < len1 == sa.len(),
                j <= len2 == sb.len(),
                a@ == sa,
                b@ == sb,
                prev@.len() == len2 + 1,
                forall|k: int|
                    0 <= k <= len2 ==> prev@[k] as nat == prefix_distance(
                        sa,
                        sb,
                        i as nat,
                        k as nat,
                    ),
                cur@.len() == j + 1,
                forall|k: int|
                    0 <= k <= j ==> cur@[k] as nat == prefix_distance(
                        sa,
                        sb,
                        (i + 1) as nat,
                        k as nat,
                    ),
            decreases len2 - j,
        {
            proof {
                lemma_prefix_distance_bound(sa, sb, i as nat, j as nat);
            }
            let cost: usize = if a[i] == b[j] {
                0
            } else {
                1
            };
            let diag = prev[j] + cost;
            let up = prev[j + 1];
            let left = cur[j];
            let m = if up <= left {
                up
            } else {
                left
            };
            let v = if m < diag {
                m + 1
            } else {
                diag
            };
            assert(v as nat == prefix_distance(sa, sb, (i + 1) as nat, (j + 1) as nat));
            cur.push(v);
            j = j + 1;
        }
        prev = cur;
        i = i + 1;
    }
    prev[len2]
}

/// The parts joined with `sep` between each two neighbours.
pub open spec fn joined(parts: Seq<Seq<char>>, sep: Seq<char>) -> Seq<char>
    decreases parts.len(),
{
    if parts.len() == 0 {
        Seq::empty()
    } else if parts.len() == 1 {
        parts[0]
    } else {
        joined(parts.drop_last(), sep) + sep + parts.last()
    }
}

/// Joins `strings` with `separator` between each two neighbours.
pub fn join_strings(strings: &[String], separator: &str) -> (r: String)
    ensures
        r@ == joined(strings@.map_values(|s: String| s@), separator@),
{
    let ghost views = strings@.map_values(|s: String| s@);
    let mut r = String::new();
    assert(views.subrange(0, 0) =~= Seq::<Seq<char>>::empty());
    let mut i: usize = 0;
    while i < strings.len()
        invariant
            i <= strings@.len(),
            views == strings@.map_values(|s: String| s@),
            r@ == joined(views.subrange(0, i as int), separator@),
        decreases strings@.len() - i,
    {
        if i > 0 {
            r.append(separator);
        }
        r.append(strings[i].as_str());
        proof {
            let next = views.subrange(0, i + 1);
            assert(next.drop_last() == views.subrange(0, i as int));
            if i == 0 {
                assert(joined(views.subrange(0, 0), separator@) == Seq::<char>::empty());
            }
        }
        i = i + 1;
    }
    assert(views.subrange(0, strings@.len() as int) == views);
    r
}

/// Settings of the utilities service.
#[derive(Debug, Clone)]
pub struct UtilsConfig {
    /// Log level for the utilities.
    pub log_level: String,
    /// Whether performance tracking is on.
    pub perf_tracking: bool,
}

/// Holds the utilities' settings and gives access to the string helpers.
pub struct UtilsService {
    config: UtilsConfig,
}

impl UtilsService {
    /// Whether performance tracking is on.
    pub closed spec fn spec_perf_tracking(&self) -> bool {
        self.config.perf_tracking
    }

    /// The log level.
    pub closed spec fn spec_log_level(&self) -> Seq<char> {
        self.config.log_level@
    }

    /// Creates a service with the given settings.
    pub fn new(config: UtilsConfig) -> (r: UtilsService)
        ensures
            r.spec_perf_tracking() == config.perf_tracking,
            r.spec_log_level() == config.log_level@,
    {
        UtilsService { config }
    }

    /// Whether performance tracking is on.
    pub fn perf_tracking(&self) -> (r: bool)
        ensures
            r == self.spec_perf_tracking(),
    {
        self.config.perf_tracking
    }

    /// Joins `strings` with `separator` between each two neighbours.
    pub fn join_strings(&self, strings: &[String], separator: &str) -> (r: String)
        ensures
            r@ == joined(strings@.map_values(|s: String| s@), separator@),
    {
        join_strings(strings, separator)
    }
}

} // verus!
