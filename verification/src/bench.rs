//! The microbenchmark of the bridge: which loads are measured, and how the
//! figures are shown.

use vstd::prelude::*;
use crate::text;
use crate::text::{cat, to_decimal};

verus! {

/// The number of levels that can be measured.
pub const N_LEVELS: usize = 7;

/// The concurrency of each level.
pub open spec fn level_at(i: int) -> nat {
    if i == 0 {
        1
    } else if i == 1 {
        4
    } else if i == 2 {
        8
    } else if i == 3 {
        16
    } else if i == 4 {
        20
    } else if i == 5 {
        32
    } else {
        64
    }
}

fn level(i: usize) -> (r: usize)
    ensures
        r == level_at(i as int),
{
    match i {
        0 => 1,
        1 => 4,
        2 => 8,
        3 => 16,
        4 => 20,
        5 => 32,
        _ => 64,
    }
}

/// One measurement: so many tasks side by side, each with so many round trips.
#[derive(Debug, Clone, Copy, PartialEq, Eq, Structural)]
pub struct Run {
    pub level: usize,
    pub per_task: usize,
}

/// The smaller of two numbers.
pub open spec fn smaller(a: nat, b: nat) -> nat {
    if a < b {
        a
    } else {
        b
    }
}

/// The larger of two numbers.
pub open spec fn larger(a: nat, b: nat) -> nat {
    if a < b {
        b
    } else {
        a
    }
}

/// The measurement at a level: no more tasks than asked for, but one at least,
/// and the round trips shared among them, but one each at least.
pub open spec fn is_run(run: Run, i: int, concurrency: nat, iters: nat) -> bool {
    &&& run.level == smaller(level_at(i), larger(concurrency, 1))
    &&& run.per_task == larger(iters / (run.level as nat), 1)
}

/// The number of measurements: up to the first level that reaches what was
/// asked for, or all.
pub open spec fn run_count(i: int, concurrency: nat) -> nat
    decreases N_LEVELS - i,
{
    if i >= N_LEVELS {
        0
    } else if level_at(i) >= concurrency {
        1
    } else {
        1 + run_count(i + 1, concurrency)
    }
}

/// The levels rise from one task to sixty-four.
pub proof fn levels_rise(i: int, j: int)
    ensures
        0 <= i < N_LEVELS ==> level_at(i) == seq![1nat, 4, 8, 16, 20, 32, 64][i],
        0 <= i < j < N_LEVELS ==> level_at(i) < level_at(j),
{
}

/// A measurement has one task at least and no more than asked for, and its
/// tasks share the round trips evenly: as many each as there are for all of
/// them, and one at least.
pub proof fn runs_share_the_trips(run: Run, i: int, concurrency: nat, iters: nat)
    requires
        0 <= i < N_LEVELS,
        is_run(run, i, concurrency, iters),
    ensures
        run.level >= 1 && run.per_task >= 1,
        concurrency >= 1 ==> run.level <= concurrency,
        run.level <= level_at(i),
        run.level == level_at(i) || run.level == concurrency || run.level == 1,
        iters >= run.level ==> run.per_task * run.level <= iters < (run.per_task + 1) * run.level,
        iters < run.level ==> run.per_task == 1,
{
    let n = run.level as int;
    let q = iters as int / n;
    vstd::arithmetic::div_mod::lemma_fundamental_div_mod(iters as int, n);
    assert(n * q == q * n) by (nonlinear_arith);
    assert((q + 1) * n == q * n + n) by (nonlinear_arith);
    if iters >= run.level {
        assert(q >= 1) by (nonlinear_arith)
            requires
                iters as int == n * q + iters as int % n,
                iters >= n,
                0 <= iters as int % n < n,
                n >= 1,
        ;
    } else {
        vstd::arithmetic::div_mod::lemma_basic_div(iters as int, n);
    }
}

/// Measurements go on until one has as many tasks as asked for, or the levels
/// are used up.
pub proof fn runs_reach_the_concurrency(i: int, concurrency: nat)
    requires
        0 <= i < N_LEVELS,
    ensures
        1 <= run_count(i, concurrency) <= N_LEVELS - i,
        i + run_count(i, concurrency) < N_LEVELS ==> level_at(
            i + run_count(i, concurrency) - 1,
        ) >= concurrency,
        forall|j: int|
            i <= j < i + run_count(i, concurrency) - 1 ==> #[trigger] level_at(j) < concurrency,
    decreases N_LEVELS - i,
{
    reveal_with_fuel(run_count, 2);
    if level_at(i) < concurrency && i + 1 < N_LEVELS {
        runs_reach_the_concurrency(i + 1, concurrency);
    }
}

/// The measurements for a concurrency and a number of round trips.
pub fn bench_plan(concurrency: usize, iters: usize) -> (r: Vec<Run>)
    ensures
        r@.len() == run_count(0, concurrency as nat),
        forall|i: int|
            0 <= i < r@.len() ==> is_run(#[trigger] r@[i], i, concurrency as nat, iters as nat),
{
    let mut runs: Vec<Run> = Vec::new();
    let mut i: usize = 0;
    while i < N_LEVELS
        invariant
            i <= N_LEVELS,
            runs@.len() == i,
            run_count(0, concurrency as nat) == i + run_count(i as int, concurrency as nat),
            forall|j: int|
                0 <= j < i ==> is_run(#[trigger] runs@[j], j, concurrency as nat, iters as nat),
        decreases N_LEVELS - i,
    {
        let most: usize = if concurrency < 1 {
            1
        } else {
            concurrency
        };
        let wanted: usize = level(i);
        let n: usize = if wanted < most {
            wanted
        } else {
            most
        };
        let share: usize = iters / n;
        let per_task: usize = if share < 1 {
            1
        } else {
            share
        };
        runs.push(Run { level: n, per_task });
        i += 1;
        if n >= concurrency {
            return runs;
        }
    }
    runs
}

/// One figure: the level and the milliseconds of a round trip, as a text.
pub open spec fn figure(run: Run, millis: Seq<char>) -> Seq<char> {
    "\""@ + text::decimal(run.level as nat) + "\": "@ + millis
}

/// The figures with commas between them.
pub open spec fn figures(runs: Seq<Run>, millis: Seq<Seq<char>>) -> Seq<char>
    decreases runs.len(),
{
    if runs.len() == 0 {
        Seq::empty()
    } else {
        let rest = figures(runs.drop_last(), millis.drop_last());
        let one = figure(runs.last(), millis.last());
        if runs.len() == 1 {
            one
        } else {
            rest + ", "@ + one
        }
    }
}

/// A figure is the level in quotes, a colon and the milliseconds; one more is
/// put behind the others, after a comma.
pub proof fn figures_stand_in_a_row(
    runs: Seq<Run>,
    millis: Seq<Seq<char>>,
    run: Run,
    shown: Seq<char>,
)
    ensures
        figures(seq![run], seq![shown]) == seq!['"'] + text::decimal(run.level as nat) + seq![
            '"',
            ':',
            ' ',
        ] + shown,
        runs.len() > 0 ==> figures(runs.push(run), millis.push(shown)) == figures(runs, millis)
            + seq![',', ' '] + figures(seq![run], seq![shown]),
{
    reveal_strlit("\"");
    reveal_strlit("\": ");
    reveal_strlit(", ");
    assert("\""@ =~= seq!['"']);
    assert("\": "@ =~= seq!['"', ':', ' ']);
    assert(", "@ =~= seq![',', ' ']);
    assert(runs.push(run).drop_last() =~= runs);
    assert(millis.push(shown).drop_last() =~= millis);
}

/// The figures of a benchmark as a JSON object. `millis` holds the
/// milliseconds of a round trip at each level, as texts.
pub fn bench_json(runs: &Vec<Run>, millis: &Vec<String>) -> (r: String)
    requires
        runs@.len() == millis@.len(),
    ensures
        r@ == "{"@ + figures(runs@, text::texts(millis@)) + "}"@,
{
    let mut out = String::new();
    let mut i: usize = 0;
    let ghost shown = text::texts(millis@);
    proof {
        assert(out@ =~= figures(runs@.take(0), shown.take(0)));
    }
    while i < runs.len()
        invariant
            i <= runs@.len(),
            runs@.len() == millis@.len(),
            shown == text::texts(millis@),
            out@ == figures(runs@.take(i as int), shown.take(i as int)),
        decreases runs@.len() - i,
    {
        let key = cat(cat("\"", to_decimal(runs[i].level as u64).as_str()).as_str(), "\": ");
        let one = cat(key.as_str(), millis[i].as_str());
        proof {
            assert(runs@.take(i + 1).drop_last() =~= runs@.take(i as int));
            assert(shown.take(i + 1).drop_last() =~= shown.take(i as int));
            assert(shown.take(i + 1).last() == millis@[i as int]@);
        }
        out = if i == 0 {
            one
        } else {
            cat(cat(out.as_str(), ", ").as_str(), one.as_str())
        };
        i += 1;
    }
    proof {
        assert(runs@.take(i as int) =~= runs@);
        assert(shown.take(i as int) =~= shown);
    }
    cat(cat("{", out.as_str()).as_str(), "}")
}

} // verus!
