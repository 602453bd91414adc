//! The projection engine: a fixed-shape linear map from embedding vectors
//! (DIM components) to three coordinates.
//!
//! Entries and coordinates are fixed-point integers in millionths. The matrix
//! is stored row by row: entry (i, j) sits at index `i * OUT_DIM + j`.
use vstd::prelude::*;
use vstd::string::*;
use crate::collector::div_toward_zero;
use crate::metrics::SCALE;

verus! {

/// Dimension of the embedding vectors.
pub const DIM: usize = 768;

/// Dimension of the projected points.
pub const OUT_DIM: usize = 3;

/// Number of matrix entries (DIM * OUT_DIM).
pub const MATRIX_LEN: usize = 2304;

/// Fixed seed of the generator that draws the matrix.
pub const MATRIX_SEED: u64 = 42;

/// Number of generator outputs that one matrix consumes: two per entry.
pub const DRAW_COUNT: usize = 4608;

/// Sum of the squares of column `j` over the first `n` rows.
pub open spec fn col_sumsq(raw: Seq<i32>, j: int, n: int) -> int
    decreases n,
{
    if n <= 0 {
        0
    } else {
        col_sumsq(raw, j, n - 1) + raw[(n - 1) * 3 + j] * raw[(n - 1) * 3 + j]
    }
}

/// `r` is the integer square root of `n`.
pub open spec fn is_isqrt(r: int, n: int) -> bool {
    0 <= r && r * r <= n && n < (r + 1) * (r + 1)
}

/// The integer square root (floor of the real one) of a natural number.
pub open spec fn isqrt_spec(n: int) -> int {
    choose|r: int| is_isqrt(r, n)
}

/// Euclidean norm of column `j`, rounded down.
pub open spec fn col_norm(raw: Seq<i32>, j: int) -> int {
    isqrt_spec(col_sumsq(raw, j, DIM as int))
}

/// An entry divided by its column's norm, in millionths; a zero column stays as it is.
pub open spec fn normalize_entry(x: int, norm: int) -> int {
    if norm > 0 {
        div_toward_zero(x * SCALE, norm)
    } else {
        x
    }
}

/// The raw matrix with each column scaled to unit length.
pub open spec fn normalized_spec(raw: Seq<i32>) -> Seq<i64> {
    Seq::new(
        MATRIX_LEN as nat,
        |k: int| normalize_entry(raw[k] as int, col_norm(raw, k % 3)) as i64,
    )
}

/// Column `j` of the matrix times vector `v`, over the first `n` rows.
pub open spec fn dot_col(m: Seq<i64>, v: Seq<i32>, j: int, n: int) -> int
    decreases n,
{
    if n <= 0 {
        0
    } else {
        dot_col(m, v, j, n - 1) + v[n - 1] * m[(n - 1) * 3 + j]
    }
}

/// The projection of `v`: the matrix-vector product in millionths, or the
/// origin when `v` does not have DIM components.
pub open spec fn project_spec(m: Seq<i64>, v: Seq<i32>) -> (i64, i64, i64) {
    if v.len() != DIM {
        (0, 0, 0)
    } else {
        (
            div_toward_zero(dot_col(m, v, 0, DIM as int), SCALE as int) as i64,
            div_toward_zero(dot_col(m, v, 1, DIM as int), SCALE as int) as i64,
            div_toward_zero(dot_col(m, v, 2, DIM as int), SCALE as int) as i64,
        )
    }
}

proof fn lemma_isqrt_unique(r1: int, r2: int, n: int)
    requires
        is_isqrt(r1, n),
        is_isqrt(r2, n),
    ensures
        r1 == r2,
{
    if r1 < r2 {
        assert((r1 + 1) * (r1 + 1) <= r2 * r2) by (nonlinear_arith)
            requires
                0 <= r1 < r2,
        ;
    } else if r2 < r1 {
        assert((r2 + 1) * (r2 + 1) <= r1 * r1) by (nonlinear_arith)
            requires
                0 <= r2 < r1,
        ;
    }
}

/// Integer square root by bisection.
fn isqrt(n: u128) -> (r: u128)
    requires
        n < 0x1_0000_0000_0000_0000_0000,
    ensures
        is_isqrt(r as int, n as int),
        r == isqrt_spec(n as int),
{
    let mut lo: u128 = 0;
    let mut hi: u128 = 0x100_0000_0000;
    assert(hi * hi == 0x1_0000_0000_0000_0000_0000);
    while hi - lo > 1
        invariant
            lo < hi <= 0x100_0000_0000,
            lo * lo <= n,
            n < hi * hi,
        decreases hi - lo,
    {
        let mid = lo + (hi - lo) / 2;
        assert(mid * mid <= 0x1_0000_0000_0000_0000_0000) by (nonlinear_arith)
            requires
                mid <= 0x100_0000_0000,
        ;
        if mid * mid <= n {
            lo = mid;
        } else {
            hi = mid;
        }
    }
    assert(is_isqrt(lo as int, n as int));
    proof {
        let c = isqrt_spec(n as int);
        assert(is_isqrt(c, n as int));
        lemma_isqrt_unique(lo as int, c, n as int);
    }
    lo
}

proof fn lemma_col_sumsq_bounds(raw: Seq<i32>, j: int, n: int)
    requires
        0 <= j < 3,
        0 <= n <= DIM,
        raw.len() == MATRIX_LEN,
    ensures
        0 <= col_sumsq(raw, j, n) <= n * 0x4000_0000_0000_0000,
        forall|i: int|
            0 <= i < n ==> #[trigger] (raw[i * 3 + j] * raw[i * 3 + j]) <= col_sumsq(raw, j, n),
    decreases n,
{
    if n > 0 {
        lemma_col_sumsq_bounds(raw, j, n - 1);
        let x = raw[(n - 1) * 3 + j] as int;
        assert(0 <= x * x <= 0x4000_0000_0000_0000) by (nonlinear_arith)
            requires
                -0x8000_0000 <= x < 0x8000_0000,
        ;
    }
}

/// Sum of squares of column `j`.
fn column_sumsq(raw: &Vec<i32>, j: usize) -> (r: u128)
    requires
        j < 3,
        raw@.len() == MATRIX_LEN,
    ensures
        r == col_sumsq(raw@, j as int, DIM as int),
        r <= DIM * 0x4000_0000_0000_0000,
{
    let mut acc: u128 = 0;
    let mut i: usize = 0;
    while i < DIM
        invariant
            j < 3,
            raw@.len() == MATRIX_LEN,
            i <= DIM,
            acc == col_sumsq(raw@, j as int, i as int),
        decreases DIM - i,
    {
        proof {
            lemma_col_sumsq_bounds(raw@, j as int, i as int + 1);
        }
        let x = raw[i * 3 + j] as i128;
        assert(0 <= x * x <= 0x4000_0000_0000_0000) by (nonlinear_arith)
            requires
                -0x8000_0000 <= x < 0x8000_0000,
        ;
        assert(col_sumsq(raw@, j as int, i + 1) == acc + x * x);
        let sq = (x * x) as u128;
        acc = acc + sq;
        i = i + 1;
    }
    proof {
        lemma_col_sumsq_bounds(raw@, j as int, DIM as int);
    }
    acc
}

/// One entry scaled by its column norm.
fn normalize_one(x: i32, norm: u128, Ghost(sumsq): Ghost<int>) -> (r: i64)
    requires
        is_isqrt(norm as int, sumsq),
        x * x <= sumsq,
        sumsq < 0x1_0000_0000_0000_0000_0000,
    ensures
        r == normalize_entry(x as int, norm as int),
        -SCALE <= r <= SCALE,
{
    if norm == 0 {
        assert(sumsq < 1) by (nonlinear_arith)
            requires
                sumsq < (norm + 1) * (norm + 1),
                norm == 0,
        ;
        assert(x == 0) by (nonlinear_arith)
            requires
                x * x < 1,
        ;
        x as i64
    } else {
        let mag: i64 = if x < 0 {
            -(x as i64)
        } else {
            x as i64
        };
        assert(mag * mag == x * x) by (nonlinear_arith)
            requires
                mag == x || mag == -x,
        ;
        assert(norm < 0x100_0000_0000) by (nonlinear_arith)
            requires
                norm * norm <= sumsq,
                sumsq < 0x1_0000_0000_0000_0000_0000,
                norm >= 0,
        ;
        assert(mag <= norm) by (nonlinear_arith)
            requires
                mag * mag <= sumsq,
                sumsq < (norm + 1) * (norm + 1),
                mag >= 0,
                norm >= 0,
        ;
        let n = norm as i64;
        let scaled = mag * SCALE;
        assert(scaled / n <= SCALE) by (nonlinear_arith)
            requires
                0 <= mag <= n,
                n > 0,
                scaled == mag * SCALE,
        ;
        let q = scaled / n;
        if x < 0 {
            -q
        } else {
            q
        }
    }
}

/// Divides by SCALE, rounding toward zero.
fn div_scale(x: i64) -> (r: i64)
    requires
        x > i64::MIN,
    ensures
        r == div_toward_zero(x as int, SCALE as int),
{
    if x >= 0 {
        x / SCALE
    } else {
        -((-x) / SCALE)
    }
}

/// The projection matrix and how it was obtained.
pub struct ProjectionState {
    /// DIM x OUT_DIM entries in millionths, row by row.
    pub matrix: Vec<i64>,
    /// Whether the matrix was trained (PCA) rather than drawn at random.
    pub is_trained: bool,
}

impl ProjectionState {
    /// The matrix has its shape and every entry lies in [-1, 1].
    pub open spec fn wf(&self) -> bool {
        &&& self.matrix@.len() == MATRIX_LEN
        &&& forall|k: int| 0 <= k < MATRIX_LEN ==> -SCALE <= #[trigger] self.matrix@[k] <= SCALE
    }

    /// An untrained projection whose columns are the columns of `raw`
    /// (Gaussian draws in millionths, row by row) scaled to unit length.
    /// `None` when `raw` does not have DIM x OUT_DIM entries.
    pub fn from_gaussians(raw: &Vec<i32>) -> (r: Option<Self>)
        ensures
            raw@.len() != MATRIX_LEN <==> r is None,
            r matches Some(p) ==> p.wf() && !p.is_trained && p.matrix@ == normalized_spec(raw@),
    {
        if raw.len() != MATRIX_LEN {
            return None;
        }
        let s0 = column_sumsq(raw, 0);
        let s1 = column_sumsq(raw, 1);
        let s2 = column_sumsq(raw, 2);
        let norms = [isqrt(s0), isqrt(s1), isqrt(s2)];
        let ghost sums = seq![s0 as int, s1 as int, s2 as int];
        proof {
            lemma_col_sumsq_bounds(raw@, 0, DIM as int);
            lemma_col_sumsq_bounds(raw@, 1, DIM as int);
            lemma_col_sumsq_bounds(raw@, 2, DIM as int);
        }
        let mut matrix: Vec<i64> = Vec::new();
        let mut k: usize = 0;
        while k < MATRIX_LEN
            invariant
                raw@.len() == MATRIX_LEN,
                k <= MATRIX_LEN,
                matrix@.len() == k,
                sums.len() == 3,
                forall|j: int| 0 <= j < 3 ==> sums[j] == col_sumsq(raw@, j, DIM as int),
                forall|j: int| 0 <= j < 3 ==> sums[j] <= DIM * 0x4000_0000_0000_0000,
                forall|j: int| 0 <= j < 3 ==> is_isqrt(#[trigger] norms@[j] as int, sums[j]),
                forall|j: int| 0 <= j < 3 ==> norms@[j] == col_norm(raw@, j),
                forall|j: int, i: int|
                    0 <= j < 3 && 0 <= i < DIM ==> #[trigger] (raw@[i * 3 + j] * raw@[i * 3 + j])
                        <= col_sumsq(raw@, j, DIM as int),
                forall|i: int| 0 <= i < k ==> #[trigger] matrix@[i] == normalized_spec(raw@)[i],
                forall|i: int| 0 <= i < k ==> -SCALE <= #[trigger] matrix@[i] <= SCALE,
            decreases MATRIX_LEN - k,
        {
            let j = k % 3;
            let row = k / 3;
            assert(row * 3 + j == k);
            let x = raw[k];
            assert(x * x <= sums[j as int]) by {
                assert((raw@[row * 3 + j] * raw@[row * 3 + j]) <= col_sumsq(raw@, j as int, DIM as int));
            }
            let e = normalize_one(x, norms[j], Ghost(sums[j as int]));
            matrix.push(e);
            k = k + 1;
        }
        assert(matrix@ =~= normalized_spec(raw@));
        Some(ProjectionState { matrix, is_trained: false })
    }

    /// Projects an embedding vector (components in millionths) to three
    /// coordinates in millionths. A vector without DIM components maps to the
    /// origin.
    pub fn project(&self, vec: &[i32]) -> (r: (i64, i64, i64))
        requires
            self.wf(),
        ensures
            r == project_spec(self.matrix@, vec@),
    {
        if vec.len() != DIM {
            return (0, 0, 0);
        }
        let mut acc: [i64; 3] = [0, 0, 0];
        let mut i: usize = 0;
        while i < DIM
            invariant
                self.wf(),
                vec@.len() == DIM,
                i <= DIM,
                forall|j: int| 0 <= j < 3 ==> #[trigger] acc@[j] == dot_col(self.matrix@, vec@, j, i as int),
                forall|j: int| 0 <= j < 3 ==> -(i * 0x8000_0000 * SCALE) <= #[trigger] acc@[j] <= i * 0x8000_0000 * SCALE,
            decreases DIM - i,
        {
            let v = vec[i] as i64;
            let mut j: usize = 0;
            let ghost before = acc@;
            while j < 3
                invariant
                    self.wf(),
                    vec@.len() == DIM,
                    i < DIM,
                    j <= 3,
                    v == vec@[i as int],
                    before.len() == 3,
                    forall|t: int| 0 <= t < 3 ==> #[trigger] before[t] == dot_col(self.matrix@, vec@, t, i as int),
                    forall|t: int| 0 <= t < 3 ==> -(i * 0x8000_0000 * SCALE) <= #[trigger] before[t] <= i * 0x8000_0000 * SCALE,
                    forall|t: int| j <= t < 3 ==> #[trigger] acc@[t] == before[t],
                    forall|t: int| 0 <= t < j ==> #[trigger] acc@[t] == dot_col(self.matrix@, vec@, t, i as int + 1),
                    forall|t: int| 0 <= t < j ==> -((i + 1) * 0x8000_0000 * SCALE) <= #[trigger] acc@[t] <= (i + 1) * 0x8000_0000 * SCALE,
                decreases 3 - j,
            {
                let m = self.matrix[i * 3 + j];
                assert(-(0x8000_0000 * SCALE) <= v * m <= 0x8000_0000 * SCALE) by (nonlinear_arith)
                    requires
                        -0x8000_0000 <= v < 0x8000_0000,
                        -SCALE <= m <= SCALE,
                ;
                assert(dot_col(self.matrix@, vec@, j as int, i as int + 1) == before[j as int] + v * m);
                acc[j] = acc[j] + v * m;
                j = j + 1;
            }
            i = i + 1;
        }
        (div_scale(acc[0]), div_scale(acc[1]), div_scale(acc[2]))
    }

    /// Which kind of matrix produced the points: "pca" or "random".
    pub fn projection_type(&self) -> (r: String)
        ensures
            r@ == if self.is_trained {
                "pca"@
            } else {
                "random"@
            },
    {
        if self.is_trained {
            String::from_str("pca")
        } else {
            String::from_str("random")
        }
    }
}


/// Sum of the squares of column `j` of `m` over the first `n` rows.
pub open spec fn col_sq(m: Seq<i64>, j: int, n: int) -> int
    decreases n,
{
    if n <= 0 {
        0
    } else {
        col_sq(m, j, n - 1) + m[(n - 1) * 3 + j] * m[(n - 1) * 3 + j]
    }
}

/// Magnitude of an integer.
pub open spec fn abs(x: int) -> int {
    if x < 0 {
        -x
    } else {
        x
    }
}

/// Sum of the squares of column `j` of `m` over the first `n` rows, each
/// entry moved one unit away from zero.
pub open spec fn col_sq_up(m: Seq<i64>, j: int, n: int) -> int
    decreases n,
{
    if n <= 0 {
        0
    } else {
        col_sq_up(m, j, n - 1) + (abs(m[(n - 1) * 3 + j] as int) + 1) * (abs(
            m[(n - 1) * 3 + j] as int,
        ) + 1)
    }
}

proof fn lemma_isqrt_exists(s: int)
    requires
        s >= 0,
    ensures
        is_isqrt(isqrt_spec(s), s),
    decreases s,
{
    if s == 0 {
        assert(is_isqrt(0, 0));
    } else {
        lemma_isqrt_exists(s - 1);
        let r = isqrt_spec(s - 1);
        if (r + 1) * (r + 1) <= s {
            assert(s < (r + 2) * (r + 2)) by (nonlinear_arith)
                requires
                    s - 1 < (r + 1) * (r + 1),
                    r >= 0,
            ;
            assert(is_isqrt(r + 1, s));
        } else {
            assert(is_isqrt(r, s));
        }
    }
}

proof fn lemma_entry_rounding(x: int, n: int)
    requires
        n > 0,
    ensures
        ({
            let q = normalize_entry(x, n);
            &&& q * q * (n * n) <= x * x * (SCALE * SCALE)
            &&& (abs(q) + 1) * (abs(q) + 1) * (n * n) >= x * x * (SCALE * SCALE)
        }),
{
    let a = abs(x) * SCALE;
    let f = a / n;
    assert(a >= 0) by (nonlinear_arith)
        requires
            a == abs(x) * SCALE,
            abs(x) >= 0,
    ;
    assert(f * n <= a < (f + 1) * n && f >= 0) by (nonlinear_arith)
        requires
            f == a / n,
            n > 0,
            a >= 0,
    ;
    assert(a * a == x * x * (SCALE * SCALE)) by (nonlinear_arith)
        requires
            a == abs(x) * SCALE,
            abs(x) == x || abs(x) == -x,
    ;
    assert(f * f * (n * n) <= a * a) by (nonlinear_arith)
        requires
            0 <= f * n <= a,
            f >= 0,
            n > 0,
    ;
    assert((f + 1) * (f + 1) * (n * n) >= a * a) by (nonlinear_arith)
        requires
            0 <= a < (f + 1) * n,
            f >= 0,
            n > 0,
    ;
    let q = normalize_entry(x, n);
    assert(abs(q) == f);
    assert(q * q == f * f) by (nonlinear_arith)
        requires
            q == f || q == -f,
    ;
}

proof fn lemma_column_sums(raw: Seq<i32>, j: int, n: int, rows: int)
    requires
        raw.len() == MATRIX_LEN,
        0 <= j < 3,
        0 <= rows <= DIM,
        n > 0,
        n == col_norm(raw, j),
    ensures
        col_sq(normalized_spec(raw), j, rows) * (n * n) <= col_sumsq(raw, j, rows) * (SCALE * SCALE),
        col_sq_up(normalized_spec(raw), j, rows) * (n * n) >= col_sumsq(raw, j, rows) * (SCALE * SCALE),
    decreases rows,
{
    if rows > 0 {
        lemma_column_sums(raw, j, n, rows - 1);
        let k = (rows - 1) * 3 + j;
        assert(k % 3 == j);
        let x = raw[k] as int;
        let m = normalized_spec(raw);
        assert(m[k] as int == normalize_entry(x, n)) by {
            lemma_col_sumsq_bounds(raw, j, DIM as int);
            assert(x * x <= col_sumsq(raw, j, DIM as int)) by {
                assert(raw[(rows - 1) * 3 + j] * raw[(rows - 1) * 3 + j] <= col_sumsq(raw, j, DIM as int));
            }
            let s = col_sumsq(raw, j, DIM as int);
            lemma_isqrt_exists(s);
            let mag = abs(x);
            assert(mag * mag == x * x) by (nonlinear_arith)
                requires
                    mag == x || mag == -x,
            ;
            assert(mag <= n) by (nonlinear_arith)
                requires
                    mag * mag <= s,
                    s < (n + 1) * (n + 1),
                    mag >= 0,
                    n >= 0,
            ;
            assert(mag * SCALE / n <= SCALE) by (nonlinear_arith)
                requires
                    0 <= mag <= n,
                    n > 0,
            ;
            assert(0 <= mag * SCALE / n) by (nonlinear_arith)
                requires
                    0 <= mag,
                    n > 0,
            ;
        }
        lemma_entry_rounding(x, n);
        let q = m[k] as int;
        let a0 = col_sq(m, j, rows - 1);
        let b0 = col_sq_up(m, j, rows - 1);
        let c0 = col_sumsq(raw, j, rows - 1);
        assert(col_sq(m, j, rows) == a0 + q * q);
        assert(col_sq_up(m, j, rows) == b0 + (abs(q) + 1) * (abs(q) + 1));
        assert(col_sumsq(raw, j, rows) == c0 + x * x);
        assert((a0 + q * q) * (n * n) <= (c0 + x * x) * (SCALE * SCALE)) by (nonlinear_arith)
            requires
                a0 * (n * n) <= c0 * (SCALE * SCALE),
                q * q * (n * n) <= x * x * (SCALE * SCALE),
        ;
        assert((b0 + (abs(q) + 1) * (abs(q) + 1)) * (n * n) >= (c0 + x * x) * (SCALE * SCALE))
            by (nonlinear_arith)
            requires
                b0 * (n * n) >= c0 * (SCALE * SCALE),
                (abs(q) + 1) * (abs(q) + 1) * (n * n) >= x * x * (SCALE * SCALE),
        ;
    }
}

/// Each column of the matrix has unit length, up to the rounding of its
/// entries toward zero, whenever the column of draws is not all zero. With
/// `s` the column's sum of squares and `n` its rounded-down norm
/// (n * n <= s < (n + 1) * (n + 1)), the squared length of the column in
/// millionths is at most SCALE^2 * s / n^2, and it reaches SCALE^2 once every
/// entry is moved one unit away from zero.
pub proof fn lemma_columns_unit_length(raw: Seq<i32>, j: int)
    requires
        raw.len() == MATRIX_LEN,
        0 <= j < 3,
        col_sumsq(raw, j, DIM as int) > 0,
    ensures
        col_norm(raw, j) > 0,
        col_norm(raw, j) * col_norm(raw, j) <= col_sumsq(raw, j, DIM as int),
        col_sumsq(raw, j, DIM as int) < (col_norm(raw, j) + 1) * (col_norm(raw, j) + 1),
        col_sq(normalized_spec(raw), j, DIM as int) * (col_norm(raw, j) * col_norm(raw, j))
            <= col_sumsq(raw, j, DIM as int) * (SCALE * SCALE),
        col_sq_up(normalized_spec(raw), j, DIM as int) >= SCALE * SCALE,
{
    let s = col_sumsq(raw, j, DIM as int);
    lemma_isqrt_exists(s);
    let n = col_norm(raw, j);
    assert(n > 0) by (nonlinear_arith)
        requires
            s < (n + 1) * (n + 1),
            s > 0,
            n >= 0,
    ;
    lemma_column_sums(raw, j, n, DIM as int);
    let u = col_sq_up(normalized_spec(raw), j, DIM as int);
    assert(u >= SCALE * SCALE) by (nonlinear_arith)
        requires
            u * (n * n) >= s * (SCALE * SCALE),
            s >= n * n,
            n > 0,
    ;
}

/// Projection is deterministic: the same matrix and the same input give the
/// same point, for vectors of DIM components as for any other.
pub proof fn lemma_project_deterministic(p: ProjectionState, q: ProjectionState, v: Seq<i32>, w: Seq<i32>)
    requires
        p.matrix@ == q.matrix@,
        v == w,
    ensures
        project_spec(p.matrix@, v) == project_spec(q.matrix@, w),
{
}

/// A vector whose length is not DIM projects to the origin.
pub proof fn lemma_wrong_length_is_origin(m: Seq<i64>, v: Seq<i32>)
    requires
        v.len() != DIM,
    ensures
        project_spec(m, v) == (0i64, 0i64, 0i64),
{
}

/// Building the matrix twice from the same draws gives the same matrix.
pub proof fn lemma_matrix_reproducible(raw: Seq<i32>, p: ProjectionState, q: ProjectionState)
    requires
        p.matrix@ == normalized_spec(raw),
        q.matrix@ == normalized_spec(raw),
    ensures
        p.matrix@ == q.matrix@,
{
}

} // verus!
