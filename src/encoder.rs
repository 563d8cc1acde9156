use vstd::prelude::*;
use crate::grid::{CoreError, PixelGrid, Rgb};

verus! {

/// Linear indices `[start, end)` of the panel that share one colour.
#[derive(PartialEq, Eq, Structural, Clone, Copy, Debug)]
pub struct Run {
    pub start: u32,
    pub end: u32,
    pub color: Rgb,
}

/// The runs cover `[0, n)` in ascending order, each index exactly once, and
/// none is empty.
pub open spec fn runs_tile(runs: Seq<Run>, n: int) -> bool {
    &&& runs.len() > 0
    &&& runs[0].start == 0
    &&& runs.last().end == n
    &&& forall|k: int| 0 <= k < runs.len() ==> #[trigger] runs[k].start < runs[k].end
    &&& forall|k: int| 0 <= k < runs.len() - 1 ==> #[trigger] runs[k].end == runs[k + 1].start
}

/// Each index covered by a run has that run's colour.
pub open spec fn runs_match(runs: Seq<Run>, colors: Seq<Rgb>) -> bool {
    forall|k: int, i: int|
        #![trigger runs[k], colors[i]]
        0 <= k < runs.len() && runs[k].start <= i < runs[k].end ==> colors[i] == runs[k].color
}

/// No two neighbouring runs could be merged.
pub open spec fn runs_maximal(runs: Seq<Run>) -> bool {
    forall|k: int| 0 <= k < runs.len() - 1 ==> #[trigger] runs[k].color != runs[k + 1].color
}

/// `runs` is the run-length encoding of `colors`.
pub open spec fn is_encoding(runs: Seq<Run>, colors: Seq<Rgb>) -> bool {
    &&& runs_tile(runs, colors.len() as int)
    &&& runs_match(runs, colors)
    &&& runs_maximal(runs)
}

/// The colour sequence obtained by painting each run's colour over its range.
pub open spec fn paint(runs: Seq<Run>) -> Seq<Rgb>
    decreases runs.len(),
{
    if runs.len() == 0 {
        Seq::empty()
    } else {
        let last = runs.last();
        paint(runs.drop_last()) + Seq::new((last.end - last.start) as nat, |_i: int| last.color)
    }
}

proof fn lemma_end_bound(runs: Seq<Run>, n: int, k: int)
    requires
        runs_tile(runs, n),
        0 <= k < runs.len(),
    ensures
        runs[k].end <= n,
    decreases runs.len() - k,
{
    if k < runs.len() - 1 {
        lemma_end_bound(runs, n, k + 1);
        assert(runs[k].end == runs[k + 1].start);
        assert(runs[k + 1].start < runs[k + 1].end);
    }
}

proof fn lemma_paint_prefix(runs: Seq<Run>, colors: Seq<Rgb>, m: int)
    requires
        is_encoding(runs, colors),
        0 <= m <= runs.len(),
    ensures
        m == 0 ==> paint(runs.take(m)) =~= Seq::<Rgb>::empty(),
        m > 0 ==> paint(runs.take(m)) =~= colors.subrange(0, runs[m - 1].end as int),
    decreases m,
{
    if m > 0 {
        let n = colors.len() as int;
        let pre = runs.take(m);
        assert(pre.drop_last() =~= runs.take(m - 1));
        lemma_paint_prefix(runs, colors, m - 1);
        lemma_end_bound(runs, n, m - 1);
        let r = runs[m - 1];
        assert(pre.last() == r);
        assert(r.start < r.end);
        if m > 1 {
            assert(runs[m - 2].end == runs[m - 1].start);
        }
        let tail = Seq::new((r.end - r.start) as nat, |_i: int| r.color);
        assert(tail =~= colors.subrange(r.start as int, r.end as int)) by {
            assert forall|j: int| 0 <= j < tail.len() implies tail[j] == colors[r.start + j] by {
                assert(runs[m - 1] == r);
                assert(colors[r.start + j] == runs[m - 1].color);
            }
        }
    }
}

/// Painting an encoding back over the index range reproduces the colours it
/// was made from.
pub proof fn lemma_paint_encoding(runs: Seq<Run>, colors: Seq<Rgb>)
    requires
        is_encoding(runs, colors),
    ensures
        paint(runs) == colors,
{
    lemma_paint_prefix(runs, colors, runs.len() as int);
    assert(runs.take(runs.len() as int) =~= runs);
    assert(colors.subrange(0, colors.len() as int) =~= colors);
}

proof fn lemma_same_run(a: Seq<Run>, b: Seq<Run>, colors: Seq<Rgb>, k: int)
    requires
        is_encoding(a, colors),
        is_encoding(b, colors),
        0 <= k < a.len(),
        k < b.len(),
    ensures
        a[k] == b[k],
    decreases k,
{
    let n = colors.len() as int;
    if k > 0 {
        lemma_same_run(a, b, colors, k - 1);
        assert(a[k - 1].end == a[k].start);
        assert(b[k - 1].end == b[k].start);
    }
    lemma_end_bound(a, n, k);
    lemma_end_bound(b, n, k);
    let s = a[k].start as int;
    assert(colors[s] == a[k].color);
    assert(colors[s] == b[k].color);
    if a[k].end < b[k].end {
        let e = a[k].end as int;
        assert(k < a.len() - 1);
        assert(a[k].end == a[k + 1].start);
        assert(a[k + 1].start < a[k + 1].end);
        assert(colors[e] == b[k].color);
        assert(colors[e] == a[k + 1].color);
        assert(a[k].color != a[k + 1].color);
    } else if b[k].end < a[k].end {
        let e = b[k].end as int;
        assert(k < b.len() - 1);
        assert(b[k].end == b[k + 1].start);
        assert(b[k + 1].start < b[k + 1].end);
        assert(colors[e] == a[k].color);
        assert(colors[e] == b[k + 1].color);
        assert(b[k].color != b[k + 1].color);
    }
}

/// A colour sequence has exactly one encoding.
pub proof fn lemma_encoding_unique(a: Seq<Run>, b: Seq<Run>, colors: Seq<Rgb>)
    requires
        is_encoding(a, colors),
        is_encoding(b, colors),
    ensures
        a == b,
{
    let n = colors.len() as int;
    if a.len() < b.len() {
        let m = a.len() - 1;
        lemma_same_run(a, b, colors, m);
        assert(b[m].end == b[m + 1].start);
        assert(b[m + 1].start < b[m + 1].end);
        lemma_end_bound(b, n, m + 1);
    } else if b.len() < a.len() {
        let m = b.len() - 1;
        lemma_same_run(a, b, colors, m);
        assert(a[m].end == a[m + 1].start);
        assert(a[m + 1].start < a[m + 1].end);
        lemma_end_bound(a, n, m + 1);
    }
    assert forall|k: int| 0 <= k < a.len() implies a[k] == b[k] by {
        lemma_same_run(a, b, colors, k);
    }
    assert(a =~= b);
}

/// Round trip: the runs of a grid, painted back, give the grid's RGB
/// channels, and encoding any grid that holds the painted colours yields the
/// same runs again.
pub proof fn lemma_encode_round_trip(
    grid: PixelGrid,
    runs: Seq<Run>,
    painted: PixelGrid,
    again: Seq<Run>,
)
    requires
        grid.wf(),
        is_encoding(runs, grid.colors()),
        painted.wf(),
        painted.colors() == paint(runs),
        is_encoding(again, painted.colors()),
    ensures
        paint(runs) == grid.colors(),
        again == runs,
{
    lemma_paint_encoding(runs, grid.colors());
    lemma_encoding_unique(again, runs, grid.colors());
}

/// Splits the grid, in row-major order, into maximal runs of equal colour.
/// Alpha is ignored. A grid without pixels is rejected.
pub fn encode(grid: &PixelGrid) -> (r: Result<Vec<Run>, CoreError>)
    requires
        grid.wf(),
    ensures
        match r {
            Ok(runs) => grid.pixel_count() > 0 && is_encoding(runs@, grid.colors()),
            Err(e) => grid.pixel_count() == 0 && e == CoreError::InvalidInput,
        },
{
    let n: u32 = grid.len();
    if n == 0 {
        return Err(CoreError::InvalidInput);
    }
    let ghost cs = grid.colors();
    let mut runs: Vec<Run> = Vec::new();
    let mut current: Rgb = grid.rgb(0);
    let mut start: u32 = 0;
    let mut i: u32 = 1;
    while i < n
        invariant
            grid.wf(),
            n == grid.pixel_count(),
            cs == grid.colors(),
            cs.len() == n,
            start < i <= n,
            forall|j: int| start <= j < i ==> cs[j] == current,
            runs@.len() == 0 ==> start == 0,
            runs@.len() > 0 ==> runs@[0].start == 0 && runs@.last().end == start
                && runs@.last().color != current,
            forall|k: int| 0 <= k < runs@.len() ==> #[trigger] runs@[k].start < runs@[k].end,
            forall|k: int|
                0 <= k < runs@.len() - 1 ==> #[trigger] runs@[k].end == runs@[k + 1].start,
            runs_maximal(runs@),
            runs_match(runs@, cs),
        decreases n - i,
    {
        let c: Rgb = grid.rgb(i);
        if c != current {
            runs.push(Run { start, end: i, color: current });
            start = i;
            current = c;
        }
        i = i + 1;
    }
    runs.push(Run { start, end: n, color: current });
    Ok(runs)
}

} // verus!
