//! Partition of a frame's rows into horizontal bands, one per worker.
use vstd::prelude::*;

verus! {

/// Rows in each band but the last, for a frame `height` rows high shared by `threads` workers.
pub open spec fn rows_per_band(height: int, threads: int) -> int {
    height / threads + 1
}

/// Band `k` of the layout: its first row and its number of rows.
pub open spec fn band_at(height: int, threads: int, k: int) -> (int, int) {
    let r = rows_per_band(height, threads);
    let top = k * r;
    (top, if height - top < r { height - top } else { r })
}

/// True when `bands` is the layout of a frame `height` rows high for `threads` workers:
/// consecutive chunks of `rows_per_band` rows from the top, the last one cut short,
/// and no empty band.
pub open spec fn is_band_layout(height: int, threads: int, bands: Seq<(usize, usize)>) -> bool {
    &&& forall|k: int|
        0 <= k < bands.len() ==> {
            &&& (#[trigger] bands[k]).0 as int == band_at(height, threads, k).0
            &&& bands[k].1 as int == band_at(height, threads, k).1
            &&& band_at(height, threads, k).0 < height
        }
    &&& bands.len() * rows_per_band(height, threads) >= height
}

/// True when band `b` holds row `row`.
pub open spec fn band_holds(b: (usize, usize), row: int) -> bool {
    b.0 <= row < b.0 + b.1
}

/// Splits the rows `[0, height)` of a frame among at most `threads` workers.
/// Each pair is the band's first row and its number of rows.
pub fn band_layout(bounds: (usize, usize), threads: usize) -> (bands: Vec<(usize, usize)>)
    requires
        threads >= 1,
    ensures
        is_band_layout(bounds.1 as int, threads as int, bands@),
        bands@.len() <= threads,
{
    let height = bounds.1;
    let quotient = height / threads;
    let ghost r = rows_per_band(height as int, threads as int);
    proof {
        assert(0 * r == 0) by (nonlinear_arith);
    }
    let mut bands: Vec<(usize, usize)> = Vec::new();
    let mut top: usize = 0;
    while top < height
        invariant
            r == quotient + 1,
            r == rows_per_band(height as int, threads as int),
            threads >= 1,
            top as int <= bands@.len() * r,
            top < height ==> top as int == bands@.len() * r,
            top <= height,
            forall|k: int|
                0 <= k < bands@.len() ==> {
                    &&& (#[trigger] bands@[k]).0 as int == band_at(height as int, threads as int, k).0
                    &&& bands@[k].1 as int == band_at(height as int, threads as int, k).1
                    &&& band_at(height as int, threads as int, k).0 < height
                },
        decreases height - top,
    {
        let rows = if height - top <= quotient { height - top } else { quotient + 1 };
        let ghost k = bands@.len() as int;
        bands.push((top, rows));
        assert(bands@[k] == (top, rows));
        proof {
            assert((k + 1) * r == k * r + r) by (nonlinear_arith);
        }
        top = top + rows;
    }
    proof {
        let n = bands@.len() as int;
        let t = threads as int;
        let h = height as int;
        if n > t {
            assert(n >= t + 1);
            assert(t * r > h) by (nonlinear_arith)
                requires r == h / t + 1, t >= 1, h >= 0;
            assert(n * r >= (t + 1) * r) by (nonlinear_arith)
                requires n >= t + 1, r >= 1;
            assert((t + 1) * r == t * r + r) by (nonlinear_arith);
            assert((n - 1) * r == n * r - r) by (nonlinear_arith);
            assert(bands@[n - 1].0 as int == band_at(h, t, n - 1).0);
            assert(band_at(h, t, n - 1).0 == (n - 1) * r);
            assert(band_at(h, t, n - 1).0 < h);
            assert(false);
        }
    }
    bands
}

/// The band that holds `row`.
pub open spec fn band_index_of(height: int, threads: int, row: int) -> int {
    row / rows_per_band(height, threads)
}

/// Every row of the frame lies in exactly one band of the layout, and no band reaches
/// past the last row: the bands are disjoint and their union is `[0, height)`.
pub proof fn lemma_band_layout_partitions(height: int, threads: int, bands: Seq<(usize, usize)>)
    requires
        height >= 0,
        threads >= 1,
        is_band_layout(height, threads, bands),
    ensures
        forall|row: int|
            0 <= row < height ==> {
                let k = #[trigger] band_index_of(height, threads, row);
                0 <= k < bands.len() && band_holds(bands[k], row)
            },
        forall|j: int, k: int, row: int|
            0 <= j < bands.len() && 0 <= k < bands.len() && #[trigger] band_holds(bands[j], row)
                && #[trigger] band_holds(bands[k], row) ==> j == k,
        forall|k: int, row: int|
            0 <= k < bands.len() && #[trigger] band_holds(bands[k], row) ==> 0 <= row < height,
{
    let r = rows_per_band(height, threads);
    assert(r >= 1) by (nonlinear_arith)
        requires r == height / threads + 1, height >= 0, threads >= 1;
    assert forall|k: int| 0 <= k < bands.len() implies (#[trigger] bands[k]).0 == k * r && k * r
        < height && bands[k].0 + bands[k].1 <= height && bands[k].1 <= r && (bands[k].1 == r
        || bands[k].0 + bands[k].1 == height) by {
        assert(k * r >= 0) by (nonlinear_arith)
            requires k >= 0, r >= 1;
    }
    assert forall|row: int| 0 <= row < height implies {
        let k = #[trigger] band_index_of(height, threads, row);
        0 <= k < bands.len() && band_holds(bands[k], row)
    } by {
        let k = row / r;
        assert(k * r <= row < k * r + r) by (nonlinear_arith)
            requires k == row / r, r >= 1, row >= 0;
        assert(k >= 0) by (nonlinear_arith)
            requires k == row / r, r >= 1, row >= 0;
        if k >= bands.len() {
            assert(k * r >= bands.len() * r) by (nonlinear_arith)
                requires k >= bands.len(), r >= 1;
        }
        assert(band_holds(bands[k], row));
    }
    assert forall|j: int, k: int, row: int|
        0 <= j < bands.len() && 0 <= k < bands.len() && #[trigger] band_holds(bands[j], row)
            && #[trigger] band_holds(bands[k], row) implies j == k by {
        if j < k {
            assert((j + 1) * r <= k * r) by (nonlinear_arith)
                requires j + 1 <= k, r >= 1;
            assert((j + 1) * r == j * r + r) by (nonlinear_arith);
        }
        if k < j {
            assert((k + 1) * r <= j * r) by (nonlinear_arith)
                requires k + 1 <= j, r >= 1;
            assert((k + 1) * r == k * r + r) by (nonlinear_arith);
        }
    }
}

/// The pixels of band `b` in a frame `width` pixels wide whose pixel at row-major
/// index `i` is `pixel(i)`.
pub open spec fn render_band<A>(pixel: spec_fn(int) -> A, width: int, b: (usize, usize)) -> Seq<A> {
    Seq::new((b.1 * width) as nat, |j: int| pixel(b.0 * width + j))
}

/// The bands rendered one by one and laid end to end, in layout order.
pub open spec fn join_bands<A>(pixel: spec_fn(int) -> A, width: int, bands: Seq<(usize, usize)>) -> Seq<A>
    decreases bands.len(),
{
    if bands.len() == 0 {
        Seq::empty()
    } else {
        join_bands(pixel, width, bands.drop_last()) + render_band(pixel, width, bands.last())
    }
}

proof fn lemma_join_prefix<A>(
    pixel: spec_fn(int) -> A,
    width: int,
    height: int,
    threads: int,
    bands: Seq<(usize, usize)>,
    n: int,
)
    requires
        width >= 0,
        height >= 0,
        threads >= 1,
        is_band_layout(height, threads, bands),
        0 <= n <= bands.len(),
    ensures
        n == 0 ==> join_bands(pixel, width, bands.subrange(0, n)) == Seq::<A>::empty(),
        n > 0 ==> join_bands(pixel, width, bands.subrange(0, n)) == Seq::new(
            (width * (bands[n - 1].0 + bands[n - 1].1)) as nat,
            pixel,
        ),
    decreases n,
{
    let prefix = bands.subrange(0, n);
    if n > 0 {
        let r = rows_per_band(height, threads);
        assert(r >= 1) by (nonlinear_arith)
            requires r == height / threads + 1, height >= 0, threads >= 1;
        lemma_join_prefix(pixel, width, height, threads, bands, n - 1);
        assert(prefix.drop_last() =~= bands.subrange(0, n - 1));
        assert(prefix.last() == bands[n - 1]);
        let b = bands[n - 1];
        let top = b.0 as int;
        let rows = b.1 as int;
        assert(top == (n - 1) * r);
        if n > 1 {
            let p = bands[n - 2];
            assert(p.0 == (n - 2) * r);
            assert((n - 2) * r < height);
            assert((n - 1) * r == (n - 2) * r + r) by (nonlinear_arith);
            assert(p.0 + p.1 == top);
        } else {
            assert(0 * r == 0) by (nonlinear_arith);
        }
        let before: Seq<A> = if n > 1 {
            Seq::new((width * top) as nat, pixel)
        } else {
            Seq::empty()
        };
        assert(join_bands(pixel, width, bands.subrange(0, n - 1)) == before);
        assert(width * top >= 0) by (nonlinear_arith)
            requires width >= 0, top >= 0;
        assert(rows * width >= 0) by (nonlinear_arith)
            requires width >= 0, rows >= 0;
        assert(width * (top + rows) == width * top + rows * width) by (nonlinear_arith);
        assert(top * width == width * top) by (nonlinear_arith);
        assert(join_bands(pixel, width, prefix) == before + render_band(pixel, width, b));
        assert(before + render_band(pixel, width, b) =~= Seq::new((width * (top + rows)) as nat, pixel));
    }
}

/// Rendering band by band gives the frame that rendering it whole gives, whatever the
/// number of workers: for any `threads >= 1`, the bands of the layout, each filled
/// from the same per-pixel function and laid end to end, are exactly the row-major
/// frame of `width * height` pixels. In particular it equals the single-band frame.
pub proof fn lemma_bands_reassemble<A>(
    pixel: spec_fn(int) -> A,
    width: int,
    height: int,
    threads: int,
    bands: Seq<(usize, usize)>,
)
    requires
        width >= 0,
        height >= 0,
        threads >= 1,
        is_band_layout(height, threads, bands),
    ensures
        join_bands(pixel, width, bands) == Seq::new((width * height) as nat, pixel),
{
    let n = bands.len() as int;
    lemma_join_prefix(pixel, width, height, threads, bands, n);
    assert(bands.subrange(0, n) =~= bands);
    lemma_band_layout_partitions(height, threads, bands);
    if n == 0 {
        assert(0 * rows_per_band(height, threads) == 0) by (nonlinear_arith);
        assert(height == 0);
        assert(width * height == 0) by (nonlinear_arith)
            requires height == 0;
        assert(Seq::new((width * height) as nat, pixel) =~= Seq::<A>::empty());
    } else {
        let b = bands[n - 1];
        let r = rows_per_band(height, threads);
        assert(b.0 == (n - 1) * r);
        assert(n * r == (n - 1) * r + r) by (nonlinear_arith);
        assert(b.0 + b.1 == height);
    }
}

} // verus!
