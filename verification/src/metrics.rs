//! Figures gathered by the initialization benchmark: the size class of an
//! FMU, the number of variables its model description declares, and averages
//! over repeated runs. Durations are whole nanoseconds.
use crate::text::chars_of;
use vstd::prelude::*;

verus! {

/// Size class of an FMU, by archive size and number of variables.
#[derive(Debug, Clone, Copy, PartialEq, Eq, Structural)]
pub enum FmuSizeCategory {
    /// Under 1 MiB and under 100 variables.
    Small,
    /// Up to 10 MiB and up to 1000 variables, but not small.
    Medium,
    /// Over 10 MiB or over 1000 variables.
    Large,
}

/// The size class of an FMU of `size_bytes` bytes with `var_count` variables.
pub open spec fn size_category_spec(size_bytes: u64, var_count: usize) -> FmuSizeCategory {
    if size_bytes < 1_048_576 && var_count < 100 {
        FmuSizeCategory::Small
    } else if size_bytes <= 10_485_760 && var_count <= 1000 {
        FmuSizeCategory::Medium
    } else {
        FmuSizeCategory::Large
    }
}

/// The name under which a size class is reported.
pub open spec fn size_category_name(c: FmuSizeCategory) -> Seq<char> {
    match c {
        FmuSizeCategory::Small => "Small"@,
        FmuSizeCategory::Medium => "Medium"@,
        FmuSizeCategory::Large => "Large"@,
    }
}

impl FmuSizeCategory {
    /// The size class of an FMU of `size_bytes` bytes with `var_count`
    /// variables.
    pub fn from_metrics(size_bytes: u64, var_count: usize) -> (c: FmuSizeCategory)
        ensures
            c == size_category_spec(size_bytes, var_count),
    {
        if size_bytes < 1_048_576 && var_count < 100 {
            FmuSizeCategory::Small
        } else if size_bytes <= 10_485_760 && var_count <= 1000 {
            FmuSizeCategory::Medium
        } else {
            FmuSizeCategory::Large
        }
    }

    /// The name under which this size class is reported.
    pub fn as_str(&self) -> (s: &'static str)
        ensures
            s@ == size_category_name(*self),
    {
        match self {
            FmuSizeCategory::Small => "Small",
            FmuSizeCategory::Medium => "Medium",
            FmuSizeCategory::Large => "Large",
        }
    }
}

/// Timings and figures of one initialization run.
#[derive(Debug, Clone, Copy, PartialEq, Eq, Structural)]
pub struct InitMetrics {
    pub fmu_instantiation_nanos: u64,
    pub config_loading_nanos: u64,
    pub variable_init_nanos: u64,
    pub setup_experiment_nanos: u64,
    pub enter_init_mode_nanos: u64,
    pub exit_init_mode_nanos: u64,
    pub cleanup_nanos: u64,
    pub fmu_size_bytes: u64,
    pub variable_count: usize,
}

/// The initialization time of a run: every phase but the cleanup.
pub open spec fn total_init_spec(m: InitMetrics) -> int {
    m.fmu_instantiation_nanos + m.config_loading_nanos + m.variable_init_nanos
        + m.setup_experiment_nanos + m.enter_init_mode_nanos + m.exit_init_mode_nanos
}

impl InitMetrics {
    /// The initialization time of this run in nanoseconds: every phase but
    /// the cleanup.
    pub fn total_init_time(&self) -> (t: u128)
        ensures
            t == total_init_spec(*self),
    {
        self.fmu_instantiation_nanos as u128 + self.config_loading_nanos as u128
            + self.variable_init_nanos as u128 + self.setup_experiment_nanos as u128
            + self.enter_init_mode_nanos as u128 + self.exit_init_mode_nanos as u128
    }
}

/// The sum of one timing over a sequence of runs.
pub open spec fn sum_of(runs: Seq<InitMetrics>, field: spec_fn(InitMetrics) -> u64) -> int
    decreases runs.len(),
{
    if runs.len() == 0 {
        0
    } else {
        sum_of(runs.drop_last(), field) + field(runs.last())
    }
}

proof fn lemma_sum_of_prefix(runs: Seq<InitMetrics>, field: spec_fn(InitMetrics) -> u64, i: int)
    requires
        0 <= i <= runs.len(),
    ensures
        0 <= sum_of(runs.take(i), field) <= sum_of(runs, field),
    decreases runs.len() - i,
{
    if i == runs.len() {
        assert(runs.take(i) =~= runs);
        lemma_sum_of_nonneg(runs, field);
    } else {
        assert(runs.take(i + 1).drop_last() =~= runs.take(i));
        lemma_sum_of_prefix(runs, field, i + 1);
        lemma_sum_of_nonneg(runs.take(i), field);
    }
}

proof fn lemma_sum_of_nonneg(runs: Seq<InitMetrics>, field: spec_fn(InitMetrics) -> u64)
    ensures
        sum_of(runs, field) >= 0,
    decreases runs.len(),
{
    if runs.len() > 0 {
        lemma_sum_of_nonneg(runs.drop_last(), field);
    }
}

pub open spec fn instantiation_of(m: InitMetrics) -> u64 {
    m.fmu_instantiation_nanos
}

pub open spec fn config_loading_of(m: InitMetrics) -> u64 {
    m.config_loading_nanos
}

pub open spec fn variable_init_of(m: InitMetrics) -> u64 {
    m.variable_init_nanos
}

pub open spec fn setup_experiment_of(m: InitMetrics) -> u64 {
    m.setup_experiment_nanos
}

pub open spec fn enter_init_mode_of(m: InitMetrics) -> u64 {
    m.enter_init_mode_nanos
}

pub open spec fn exit_init_mode_of(m: InitMetrics) -> u64 {
    m.exit_init_mode_nanos
}

pub open spec fn cleanup_of(m: InitMetrics) -> u64 {
    m.cleanup_nanos
}

/// The sum of one timing over runs, computed without overflow.
fn sum_field(runs: &[InitMetrics], which: u8) -> (s: u64)
    requires
        which < 7,
        sum_of(runs@, field_of(which)) <= u64::MAX,
    ensures
        s == sum_of(runs@, field_of(which)),
{
    let ghost f = field_of(which);
    let mut s: u64 = 0;
    let mut i: usize = 0;
    while i < runs.len()
        invariant
            which < 7,
            f == field_of(which),
            sum_of(runs@, f) <= u64::MAX,
            i <= runs@.len(),
            s == sum_of(runs@.take(i as int), f),
        decreases runs@.len() - i,
    {
        proof {
            assert(runs@.take(i as int + 1).drop_last() =~= runs@.take(i as int));
            lemma_sum_of_prefix(runs@, f, i as int + 1);
        }
        let m = runs[i];
        let v = match which {
            0 => m.fmu_instantiation_nanos,
            1 => m.config_loading_nanos,
            2 => m.variable_init_nanos,
            3 => m.setup_experiment_nanos,
            4 => m.enter_init_mode_nanos,
            5 => m.exit_init_mode_nanos,
            _ => m.cleanup_nanos,
        };
        s = s + v;
        i = i + 1;
    }
    proof {
        assert(runs@.take(runs@.len() as int) =~= runs@);
    }
    s
}

/// The timing that `which` selects: the phases in report order, cleanup last.
pub open spec fn field_of(which: u8) -> spec_fn(InitMetrics) -> u64 {
    if which == 0 {
        |m: InitMetrics| instantiation_of(m)
    } else if which == 1 {
        |m: InitMetrics| config_loading_of(m)
    } else if which == 2 {
        |m: InitMetrics| variable_init_of(m)
    } else if which == 3 {
        |m: InitMetrics| setup_experiment_of(m)
    } else if which == 4 {
        |m: InitMetrics| enter_init_mode_of(m)
    } else if which == 5 {
        |m: InitMetrics| exit_init_mode_of(m)
    } else {
        |m: InitMetrics| cleanup_of(m)
    }
}

/// Whether every timing, summed over the runs, fits in 64 bits.
pub open spec fn sums_fit(runs: Seq<InitMetrics>) -> bool {
    forall|w: u8| w < 7 ==> #[trigger] sum_of(runs, field_of(w)) <= u64::MAX
}

/// Whether one timing, summed over the runs, fits in 64 bits.
fn field_sum_fits(runs: &[InitMetrics], which: u8) -> (b: bool)
    requires
        which < 7,
    ensures
        b == (sum_of(runs@, field_of(which)) <= u64::MAX),
{
    let ghost f = field_of(which);
    let mut s: u64 = 0;
    let mut i: usize = 0;
    while i < runs.len()
        invariant
            which < 7,
            f == field_of(which),
            i <= runs@.len(),
            s == sum_of(runs@.take(i as int), f),
        decreases runs@.len() - i,
    {
        proof {
            assert(runs@.take(i as int + 1).drop_last() =~= runs@.take(i as int));
            lemma_sum_of_prefix(runs@, f, i as int + 1);
        }
        let m = runs[i];
        let v = match which {
            0 => m.fmu_instantiation_nanos,
            1 => m.config_loading_nanos,
            2 => m.variable_init_nanos,
            3 => m.setup_experiment_nanos,
            4 => m.enter_init_mode_nanos,
            5 => m.exit_init_mode_nanos,
            _ => m.cleanup_nanos,
        };
        if v > u64::MAX - s {
            return false;
        }
        s = s + v;
        i = i + 1;
    }
    proof {
        assert(runs@.take(runs@.len() as int) =~= runs@);
    }
    true
}

/// Whether every timing, summed over the runs, fits in 64 bits, so that
/// `calculate_average` can take the runs.
pub fn timings_fit(results: &[InitMetrics]) -> (b: bool)
    ensures
        b == sums_fit(results@),
{
    let mut w: u8 = 0;
    while w < 7
        invariant
            w <= 7,
            forall|v: u8| v < w ==> #[trigger] sum_of(results@, field_of(v)) <= u64::MAX,
        decreases 7 - w,
    {
        if !field_sum_fits(results, w) {
            return false;
        }
        w = w + 1;
    }
    true
}

/// The average of a run timing: its sum divided by the number of runs,
/// rounded down.
pub open spec fn average_of(runs: Seq<InitMetrics>, which: u8) -> int {
    sum_of(runs, field_of(which)) / runs.len() as int
}

/// Each index selects its own timing: 0 the instantiation, 1 the
/// configuration loading, 2 the variable initialization, 3 the experiment
/// setup, 4 entering and 5 leaving initialization mode, 6 the cleanup.
pub proof fn lemma_field_of_selects(m: InitMetrics)
    ensures
        field_of(0)(m) == m.fmu_instantiation_nanos,
        field_of(1)(m) == m.config_loading_nanos,
        field_of(2)(m) == m.variable_init_nanos,
        field_of(3)(m) == m.setup_experiment_nanos,
        field_of(4)(m) == m.enter_init_mode_nanos,
        field_of(5)(m) == m.exit_init_mode_nanos,
        field_of(6)(m) == m.cleanup_nanos,
{
}

/// Summing by index is summing the timing it selects.
proof fn lemma_field_of_is_the_timing(runs: Seq<InitMetrics>)
    ensures
        sum_of(runs, field_of(0)) == sum_of(runs, |m: InitMetrics| m.fmu_instantiation_nanos),
        sum_of(runs, field_of(1)) == sum_of(runs, |m: InitMetrics| m.config_loading_nanos),
        sum_of(runs, field_of(2)) == sum_of(runs, |m: InitMetrics| m.variable_init_nanos),
        sum_of(runs, field_of(3)) == sum_of(runs, |m: InitMetrics| m.setup_experiment_nanos),
        sum_of(runs, field_of(4)) == sum_of(runs, |m: InitMetrics| m.enter_init_mode_nanos),
        sum_of(runs, field_of(5)) == sum_of(runs, |m: InitMetrics| m.exit_init_mode_nanos),
        sum_of(runs, field_of(6)) == sum_of(runs, |m: InitMetrics| m.cleanup_nanos),
{
    assert(field_of(0) =~= (|m: InitMetrics| m.fmu_instantiation_nanos));
    assert(field_of(1) =~= (|m: InitMetrics| m.config_loading_nanos));
    assert(field_of(2) =~= (|m: InitMetrics| m.variable_init_nanos));
    assert(field_of(3) =~= (|m: InitMetrics| m.setup_experiment_nanos));
    assert(field_of(4) =~= (|m: InitMetrics| m.enter_init_mode_nanos));
    assert(field_of(5) =~= (|m: InitMetrics| m.exit_init_mode_nanos));
    assert(field_of(6) =~= (|m: InitMetrics| m.cleanup_nanos));
}

/// The average of every timing over the runs (rounded down to whole
/// nanoseconds); size and variable count are those of the first run.
pub fn calculate_average(results: &[InitMetrics]) -> (avg: InitMetrics)
    requires
        results@.len() > 0,
        sums_fit(results@),
    ensures
        avg.fmu_instantiation_nanos == average_of(results@, 0),
        avg.config_loading_nanos == average_of(results@, 1),
        avg.variable_init_nanos == average_of(results@, 2),
        avg.setup_experiment_nanos == average_of(results@, 3),
        avg.enter_init_mode_nanos == average_of(results@, 4),
        avg.exit_init_mode_nanos == average_of(results@, 5),
        avg.cleanup_nanos == average_of(results@, 6),
        avg.fmu_size_bytes == results@[0].fmu_size_bytes,
        avg.variable_count == results@[0].variable_count,
        avg.fmu_instantiation_nanos == sum_of(results@, |m: InitMetrics| m.fmu_instantiation_nanos) / (results@.len() as int),
        avg.config_loading_nanos == sum_of(results@, |m: InitMetrics| m.config_loading_nanos) / (results@.len() as int),
        avg.variable_init_nanos == sum_of(results@, |m: InitMetrics| m.variable_init_nanos) / (results@.len() as int),
        avg.setup_experiment_nanos == sum_of(results@, |m: InitMetrics| m.setup_experiment_nanos) / (results@.len() as int),
        avg.enter_init_mode_nanos == sum_of(results@, |m: InitMetrics| m.enter_init_mode_nanos) / (results@.len() as int),
        avg.exit_init_mode_nanos == sum_of(results@, |m: InitMetrics| m.exit_init_mode_nanos) / (results@.len() as int),
        avg.cleanup_nanos == sum_of(results@, |m: InitMetrics| m.cleanup_nanos) / (results@.len() as int),
{
    let count = results.len() as u64;
    proof {
        lemma_field_of_is_the_timing(results@);
        assert(sum_of(results@, field_of(0)) <= u64::MAX);
        assert(sum_of(results@, field_of(1)) <= u64::MAX);
        assert(sum_of(results@, field_of(2)) <= u64::MAX);
        assert(sum_of(results@, field_of(3)) <= u64::MAX);
        assert(sum_of(results@, field_of(4)) <= u64::MAX);
        assert(sum_of(results@, field_of(5)) <= u64::MAX);
        assert(sum_of(results@, field_of(6)) <= u64::MAX);
    }
    InitMetrics {
        fmu_instantiation_nanos: sum_field(results, 0) / count,
        config_loading_nanos: sum_field(results, 1) / count,
        variable_init_nanos: sum_field(results, 2) / count,
        setup_experiment_nanos: sum_field(results, 3) / count,
        enter_init_mode_nanos: sum_field(results, 4) / count,
        exit_init_mode_nanos: sum_field(results, 5) / count,
        cleanup_nanos: sum_field(results, 6) / count,
        fmu_size_bytes: results[0].fmu_size_bytes,
        variable_count: results[0].variable_count,
    }
}


/// Whether `pat` occurs in `s` at position `i`.
pub open spec fn matches_at(s: Seq<char>, pat: Seq<char>, i: int) -> bool {
    0 <= i && i + pat.len() <= s.len() && s.subrange(i, i + pat.len()) == pat
}

/// The number of positions below `k` at which `pat` occurs in `s`.
pub open spec fn count_matches(s: Seq<char>, pat: Seq<char>, k: int) -> int
    decreases k,
{
    if k <= 0 {
        0
    } else {
        count_matches(s, pat, k - 1) + (if matches_at(s, pat, k - 1) {
            1int
        } else {
            0int
        })
    }
}

/// The number of variables that a model description declares: the
/// occurrences of the `<Float64`, `<Int32`, `<Boolean` and `<String`
/// element tags. No two occurrences of one tag overlap
/// (`lemma_tag_occurrences_disjoint`), so every occurrence counts once.
pub open spec fn variable_count_spec(xml: Seq<char>) -> int {
    count_matches(xml, "<Float64"@, xml.len() as int) + count_matches(
        xml,
        "<Int32"@,
        xml.len() as int,
    ) + count_matches(xml, "<Boolean"@, xml.len() as int) + count_matches(
        xml,
        "<String"@,
        xml.len() as int,
    )
}

/// Two occurrences of one element tag never overlap: a tag starts with `<`
/// and holds no other `<`.
pub proof fn lemma_tag_occurrences_disjoint(s: Seq<char>, pat: Seq<char>, i: int, j: int)
    requires
        pat == "<Float64"@ || pat == "<Int32"@ || pat == "<Boolean"@ || pat == "<String"@,
        matches_at(s, pat, i),
        matches_at(s, pat, j),
        i < j,
    ensures
        i + pat.len() <= j,
{
    reveal_strlit("<Float64");
    reveal_strlit("<Int32");
    reveal_strlit("<Boolean");
    reveal_strlit("<String");
    if j < i + pat.len() {
        assert(s.subrange(j, j + pat.len())[0] == pat[0]);
        assert(s.subrange(i, i + pat.len())[j - i] == pat[j - i]);
    }
}

fn occurs_at(s: &Vec<char>, pat: &Vec<char>, i: usize) -> (b: bool)
    requires
        i <= s@.len(),
    ensures
        b == matches_at(s@, pat@, i as int),
{
    if pat.len() > s.len() - i {
        return false;
    }
    let slen = s.len();
    let mut j: usize = 0;
    while j < pat.len()
        invariant
            slen == s@.len(),
            i + pat@.len() <= s@.len(),
            j <= pat@.len(),
            forall|k: int| 0 <= k < j ==> s@[i + k] == pat@[k],
        decreases pat@.len() - j,
    {
        if s[i + j] != pat[j] {
            proof {
                assert(s@.subrange(i as int, i + pat@.len())[j as int] != pat@[j as int]);
            }
            return false;
        }
        j = j + 1;
    }
    proof {
        assert(s@.subrange(i as int, i + pat@.len()) =~= pat@);
    }
    true
}

/// Counts the variables that the model description `xml` declares.
pub fn count_variables(xml: &str) -> (n: usize)
    ensures
        n == variable_count_spec(xml@),
{
    proof {
        reveal_strlit("<Float64");
        reveal_strlit("<Int32");
        reveal_strlit("<Boolean");
        reveal_strlit("<String");
    }
    let s = chars_of(xml);
    let float64 = chars_of("<Float64");
    let int32 = chars_of("<Int32");
    let boolean = chars_of("<Boolean");
    let string = chars_of("<String");
    let mut n: usize = 0;
    let mut i: usize = 0;
    while i < s.len()
        invariant
            s@ == xml@,
            float64@ == "<Float64"@,
            int32@ == "<Int32"@,
            boolean@ == "<Boolean"@,
            string@ == "<String"@,
            i <= s@.len(),
            n <= i,
            n == count_matches(s@, float64@, i as int) + count_matches(s@, int32@, i as int)
                + count_matches(s@, boolean@, i as int) + count_matches(s@, string@, i as int),
        decreases s@.len() - i,
    {
        let f = occurs_at(&s, &float64, i);
        let a = occurs_at(&s, &int32, i);
        let b = occurs_at(&s, &boolean, i);
        let c = occurs_at(&s, &string, i);
        proof {
            reveal_strlit("<Float64");
            reveal_strlit("<Int32");
            reveal_strlit("<Boolean");
            reveal_strlit("<String");
            if f {
                assert(s@.subrange(i as int, i + float64@.len())[1] == float64@[1]);
            }
            if a {
                assert(s@.subrange(i as int, i + int32@.len())[1] == int32@[1]);
            }
            if b {
                assert(s@.subrange(i as int, i + boolean@.len())[1] == boolean@[1]);
            }
            if c {
                assert(s@.subrange(i as int, i + string@.len())[1] == string@[1]);
            }
        }
        if f || a || b || c {
            n = n + 1;
        }
        i = i + 1;
    }
    n
}

/// The size classes by their bounds: small is under 1 MiB with under 100
/// variables; large is over 10 MiB or over 1000 variables; everything else
/// (up to 10 MiB and up to 1000 variables, but not small) is medium.
pub proof fn lemma_size_category_bounds(size_bytes: u64, var_count: usize)
    ensures
        (size_category_spec(size_bytes, var_count) == FmuSizeCategory::Small) <==> (size_bytes
            < 1_048_576 && var_count < 100),
        (size_category_spec(size_bytes, var_count) == FmuSizeCategory::Large) <==> (size_bytes
            > 10_485_760 || var_count > 1000),
{
}

} // verus!
