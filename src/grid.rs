//! Layout of a flat list of entries as a column-major grid whose columns hold
//! `h` rows each, and cursor movement across that grid.
use vstd::prelude::*;

verus! {

/// Number of columns needed for `n` entries in columns of height `h`.
pub open spec fn columns(n: int, h: int) -> int {
    if n % h == 0 {
        n / h
    } else {
        n / h + 1
    }
}

/// Index reached by moving right from `i`: the same row one column further;
/// the last entry when that column exists but is too short; otherwise a wrap
/// back into the first columns, taken modulo the number of columns.
pub open spec fn right_of(i: int, n: int, h: int) -> int {
    let candidate = i + h;
    if candidate < n {
        candidate
    } else if candidate < h * columns(n, h) {
        n - 1
    } else {
        candidate % columns(n, h)
    }
}

/// Index that a move left from `i` aims at: the same row one column back, or
/// the same row of the last column when `i` is in the first column.
pub open spec fn left_target(i: int, n: int, h: int) -> int {
    if i >= h {
        i - h
    } else {
        (columns(n, h) - 1) * h + i
    }
}

/// Index reached by moving left from `i`. Where the target lies past the end
/// of a short last column, the cursor goes to the last entry, as a move right
/// into such a column does, so that it always stays on an entry.
pub open spec fn left_of(i: int, n: int, h: int) -> int {
    if left_target(i, n, h) >= n {
        n - 1
    } else {
        left_target(i, n, h)
    }
}

/// `columns(n, h)` is the ceiling of `n / h`.
pub proof fn lemma_columns_is_ceiling(n: int, h: int)
    requires
        n >= 0,
        h >= 1,
    ensures
        columns(n, h) * h >= n,
        (columns(n, h) - 1) * h < n,
        columns(n, h) >= 0,
        n >= 1 ==> columns(n, h) >= 1,
        n >= 1 ==> columns(n, h) <= n,
{
    let q = n / h;
    let r = n % h;
    assert(n == q * h + r && 0 <= r < h) by (nonlinear_arith)
        requires
            q == n / h,
            r == n % h,
            h >= 1,
    ;
    assert(q >= 0) by (nonlinear_arith)
        requires
            q == n / h,
            n >= 0,
            h >= 1,
    ;
    if r == 0 {
        assert(columns(n, h) == q);
        assert((q - 1) * h == q * h - h) by (nonlinear_arith);
        if n >= 1 {
            assert(q >= 1) by (nonlinear_arith)
                requires
                    n == q * h,
                    n >= 1,
                    h >= 1,
            ;
            assert(q <= n) by (nonlinear_arith)
                requires
                    n == q * h,
                    q >= 1,
                    h >= 1,
            ;
        }
    } else {
        assert(columns(n, h) == q + 1);
        assert((q + 1) * h == q * h + h) by (nonlinear_arith);
        assert(q + 1 <= n) by (nonlinear_arith)
            requires
                n == q * h + r,
                r >= 1,
                q >= 0,
                h >= 1,
        ;
    }
}

/// The number of columns that `n` entries fill in columns of height `h`: the
/// ceiling of `n / h`.
pub fn number_of_columns(n: usize, h: usize) -> (r: usize)
    requires
        h >= 1,
    ensures
        r == columns(n as int, h as int),
        r * h >= n,
        (r - 1) * h < n,
{
    proof {
        lemma_columns_is_ceiling(n as int, h as int);
    }
    if n % h == 0 {
        n / h
    } else {
        n / h + 1
    }
}

/// Column of index `i` in columns of height `h`.
pub open spec fn column_of(i: int, h: int) -> int {
    i / h
}

/// Row of index `i` in columns of height `h`.
pub open spec fn row_of(i: int, h: int) -> int {
    i % h
}

/// Column and row of index `i` in columns of height `h`.
pub fn column_and_row(i: usize, h: usize) -> (r: (usize, usize))
    requires
        h >= 1,
    ensures
        r.0 == column_of(i as int, h as int),
        r.1 == row_of(i as int, h as int),
{
    (i / h, i % h)
}

/// Index reached by a move right from `i` among `n` entries in columns of
/// height `h`.
pub fn move_right(i: usize, n: usize, h: usize) -> (r: usize)
    requires
        h >= 1,
        i < n,
        n + h <= usize::MAX,
    ensures
        r == right_of(i as int, n as int, h as int),
        r < n,
{
    let cols = number_of_columns(n, h);
    proof {
        lemma_columns_is_ceiling(n as int, h as int);
    }
    let candidate = i + h;
    if candidate < n {
        candidate
    } else if candidate / h < cols {
        proof {
            lemma_below_columns(candidate as int, h as int, cols as int);
        }
        n - 1
    } else {
        proof {
            lemma_below_columns(candidate as int, h as int, cols as int);
        }
        candidate % cols
    }
}

/// For `h >= 1`, `x < h * c` holds exactly when `x / h < c`.
proof fn lemma_below_columns(x: int, h: int, c: int)
    requires
        x >= 0,
        h >= 1,
    ensures
        (x < h * c) == (x / h < c),
{
    let q = x / h;
    assert(x == q * h + x % h && 0 <= x % h < h) by (nonlinear_arith)
        requires
            q == x / h,
            h >= 1,
    ;
    if q < c {
        assert(q * h + h <= c * h) by (nonlinear_arith)
            requires
                q < c,
                h >= 1,
        ;
        assert(h * c == c * h) by (nonlinear_arith);
    } else {
        assert(c * h <= q * h) by (nonlinear_arith)
            requires
                q >= c,
                h >= 1,
        ;
        assert(h * c == c * h) by (nonlinear_arith);
    }
}

/// Index reached by a move left from `i` among `n` entries in columns of
/// height `h`.
pub fn move_left(i: usize, n: usize, h: usize) -> (r: usize)
    requires
        h >= 1,
        i < n,
        n + h <= usize::MAX,
    ensures
        r == left_of(i as int, n as int, h as int),
        r < n,
{
    let cols = number_of_columns(n, h);
    let target = if i >= h {
        i - h
    } else {
        proof {
            lemma_columns_is_ceiling(n as int, h as int);
            assert((cols - 1) * h + i < n + h) by (nonlinear_arith)
                requires
                    (cols - 1) * h < n,
                    i < h,
            ;
        }
        (cols - 1) * h + i
    };
    if target >= n {
        n - 1
    } else {
        target
    }
}

} // verus!
