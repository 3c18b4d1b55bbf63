//! Walking a grid of samples: sampling every position row by row, and
//! handing every position its neighbours for finite differences.
//!
//! Samples are of any type; nothing here computes with them. The sample of
//! the position in row `i` and column `j` of a grid with `cols` columns is
//! held at place `i * cols + j`.

use crate::math::mesh::vertex_at;
use vstd::prelude::*;

verus! {

/// Whether the grid position in row `a` and column `b` is sampled before the
/// one in row `i` and column `j`: positions are sampled row by row.
pub open spec fn comes_before(a: int, b: int, i: int, j: int) -> bool {
    a < i || (a == i && b < j)
}

/// Whether `sample` can succeed at a grid position.
pub open spec fn can_sample<T, F: Fn(usize, usize) -> Result<T, String>>(sample: F, i: usize, j: usize) -> bool {
    exists|value: T| call_ensures(sample, (i, j), Ok::<T, String>(value))
}

/// Whether `values` holds, row by row, a sample of every position of a grid
/// of `rows` by `cols` positions.
pub open spec fn is_sampling<T, F: Fn(usize, usize) -> Result<T, String>>(
    sample: F,
    rows: usize,
    cols: usize,
    values: Seq<T>,
) -> bool {
    &&& values.len() == rows * cols
    &&& forall|i: usize, j: usize|
        i < rows && j < cols ==> call_ensures(
            sample,
            (i, j),
            Ok::<T, String>(#[trigger] values[vertex_at(cols as int, i as int, j as int)]),
        )
}

/// Whether `sample` failed with `message` at the position in row `i` and
/// column `j` after it succeeded at every position before it.
pub open spec fn failed_at<T, F: Fn(usize, usize) -> Result<T, String>>(
    sample: F,
    rows: usize,
    cols: usize,
    i: usize,
    j: usize,
    message: String,
) -> bool {
    &&& i < rows
    &&& j < cols
    &&& call_ensures(sample, (i, j), Err::<T, String>(message))
    &&& forall|a: usize, b: usize|
        a < rows && b < cols && comes_before(a as int, b as int, i as int, j as int) ==> #[trigger] can_sample(
            sample,
            a,
            b,
        )
}

/// What [`sample_grid`] gives: a sample of every position, or the message of
/// the first position at which sampling failed.
pub open spec fn sampling_outcome<T, F: Fn(usize, usize) -> Result<T, String>>(
    sample: F,
    rows: usize,
    cols: usize,
    outcome: Result<Vec<T>, String>,
) -> bool {
    match outcome {
        Ok(values) => is_sampling(sample, rows, cols, values@),
        Err(message) => exists|i: usize, j: usize| #[trigger] failed_at(sample, rows, cols, i, j, message),
    }
}

/// A failure at a position is a failed sampling.
proof fn lemma_sampling_failed<T, F: Fn(usize, usize) -> Result<T, String>>(
    sample: F,
    rows: usize,
    cols: usize,
    i: usize,
    j: usize,
    message: String,
)
    requires
        failed_at(sample, rows, cols, i, j, message),
    ensures
        sampling_outcome(sample, rows, cols, Err::<Vec<T>, String>(message)),
{
    let outcome: Result<Vec<T>, String> = Err(message);
    assert(outcome matches Err(held) && held == message);
    assert(outcome matches Err(held) && (exists|a: usize, b: usize| #[trigger]
        failed_at(sample, rows, cols, a, b, held)));
}

/// Samples every position of a grid of `rows` by `cols` positions, row by
/// row. The first failure ends the sampling with its message: no sample of a
/// grid that failed anywhere is handed out.
pub fn sample_grid<T, F: Fn(usize, usize) -> Result<T, String>>(rows: usize, cols: usize, sample: &F) -> (outcome:
    Result<Vec<T>, String>)
    requires
        forall|i: usize, j: usize| i < rows && j < cols ==> call_requires(*sample, (i, j)),
    ensures
        sampling_outcome(*sample, rows, cols, outcome),
{
    let mut values: Vec<T> = Vec::new();
    let mut i: usize = 0;
    while i < rows
        invariant
            i <= rows,
            values@.len() == i * cols,
            forall|a: usize, b: usize| a < rows && b < cols ==> call_requires(*sample, (a, b)),
            forall|a: usize, b: usize|
                a < i && b < cols ==> call_ensures(
                    *sample,
                    (a, b),
                    Ok::<T, String>(#[trigger] values@[vertex_at(cols as int, a as int, b as int)]),
                ),
        decreases rows - i,
    {
        let mut j: usize = 0;
        while j < cols
            invariant
                i < rows,
                j <= cols,
                values@.len() == i * cols + j,
                forall|a: usize, b: usize| a < rows && b < cols ==> call_requires(*sample, (a, b)),
                forall|a: usize, b: usize|
                    a < i && b < cols ==> call_ensures(
                        *sample,
                        (a, b),
                        Ok::<T, String>(#[trigger] values@[vertex_at(cols as int, a as int, b as int)]),
                    ),
                forall|b: usize|
                    b < j ==> call_ensures(
                        *sample,
                        (i, b),
                        Ok::<T, String>(#[trigger] values@[vertex_at(cols as int, i as int, b as int)]),
                    ),
            decreases cols - j,
        {
            let ghost before = values@;
            match sample(i, j) {
                Ok(value) => {
                    values.push(value);
                    proof {
                        assert forall|a: usize, b: usize| a < i && b < cols implies call_ensures(
                            *sample,
                            (a, b),
                            Ok::<T, String>(#[trigger] values@[vertex_at(cols as int, a as int, b as int)]),
                        ) by {
                            lemma_slot_order(cols as int, a as int, b as int, i as int, j as int);
                            assert(values@[vertex_at(cols as int, a as int, b as int)] == before[vertex_at(
                                cols as int,
                                a as int,
                                b as int,
                            )]);
                        }
                        assert forall|b: usize| b < j + 1 implies call_ensures(
                            *sample,
                            (i, b),
                            Ok::<T, String>(#[trigger] values@[vertex_at(cols as int, i as int, b as int)]),
                        ) by {
                            if b < j {
                                assert(values@[vertex_at(cols as int, i as int, b as int)] == before[vertex_at(
                                    cols as int,
                                    i as int,
                                    b as int,
                                )]);
                            }
                        }
                    }
                },
                Err(message) => {
                    proof {
                        assert forall|a: usize, b: usize|
                            a < rows && b < cols && comes_before(
                                a as int,
                                b as int,
                                i as int,
                                j as int,
                            ) implies #[trigger] can_sample(*sample, a, b) by {
                            let held = values@[vertex_at(cols as int, a as int, b as int)];
                            assert(call_ensures(*sample, (a, b), Ok::<T, String>(held)));
                        }
                        lemma_sampling_failed(*sample, rows, cols, i, j, message);
                    }
                    return Err(message);
                },
            }
            j = j + 1;
        }
        proof {
            assert((i + 1) * cols == i * cols + cols) by (nonlinear_arith);
        }
        i = i + 1;
    }
    Ok(values)
}

/// A position that is sampled earlier has a smaller place in the row-by-row
/// order.
proof fn lemma_slot_order(cols: int, a: int, b: int, i: int, j: int)
    requires
        0 <= a < i,
        0 <= b < cols,
        0 <= j,
    ensures
        0 <= vertex_at(cols, a, b) < vertex_at(cols, i, j),
{
    assert((a + 1) * cols <= i * cols) by (nonlinear_arith)
        requires
            a + 1 <= i,
            0 <= cols,
    ;
    assert((a + 1) * cols == a * cols + cols) by (nonlinear_arith);
    assert(0 <= a * cols) by (nonlinear_arith)
        requires
            0 <= a,
            0 <= cols,
    ;
}

/// The two grid positions whose samples a finite difference at one position
/// is taken between, and the number of grid steps between them.
#[derive(Clone, Copy, Debug, PartialEq, Eq, Structural)]
pub struct Stencil {
    /// The position of the sample that is subtracted from.
    pub ahead: usize,
    /// The position of the sample that is subtracted.
    pub behind: usize,
    /// Grid steps from `behind` to `ahead`, to divide the difference by:
    /// two for a centred difference, one for a one-sided one.
    pub steps: usize,
}

/// The stencil at position `i` of `n`: centred on `i` inside the grid,
/// one-sided at either end, and the position itself, twice, where the grid
/// has no other position.
pub open spec fn stencil_spec(i: int, n: int) -> (int, int, int) {
    if 0 < i && i < n - 1 {
        (i + 1, i - 1, 2)
    } else if n < 2 {
        (i, i, 1)
    } else if i == 0 {
        (1, 0, 1)
    } else {
        (i, i - 1, 1)
    }
}

/// Picks the samples for the finite difference at position `i` of a grid
/// axis with `n` positions.
pub fn difference_stencil(i: usize, n: usize) -> (stencil: Stencil)
    ensures
        (stencil.ahead as int, stencil.behind as int, stencil.steps as int) == stencil_spec(
            i as int,
            n as int,
        ),
        i < n ==> stencil.behind <= i <= stencil.ahead < n,
        n >= 2 ==> stencil.ahead - stencil.behind == stencil.steps,
{
    if 0 < i && n >= 2 && i < n - 1 {
        Stencil { ahead: i + 1, behind: i - 1, steps: 2 }
    } else if n < 2 {
        Stencil { ahead: i, behind: i, steps: 1 }
    } else if i == 0 {
        Stencil { ahead: 1, behind: 0, steps: 1 }
    } else {
        Stencil { ahead: i, behind: i - 1, steps: 1 }
    }
}

/// A grid position with the samples that finite differences at it are taken
/// between, along the rows and along the columns.
pub struct Neighbourhood<S> {
    /// The row of the position.
    pub row: usize,
    /// The column of the position.
    pub col: usize,
    /// The sample at the position.
    pub here: S,
    /// The sample that the difference along the rows subtracts from; it lies
    /// in the same column.
    pub row_ahead: S,
    /// The sample that the difference along the rows subtracts.
    pub row_behind: S,
    /// Grid steps between the two samples along the rows.
    pub row_steps: usize,
    /// The sample that the difference along the columns subtracts from; it
    /// lies in the same row.
    pub col_ahead: S,
    /// The sample that the difference along the columns subtracts.
    pub col_behind: S,
    /// Grid steps between the two samples along the columns.
    pub col_steps: usize,
}

/// The neighbourhood of the position in row `i` and column `j` of a grid of
/// `rows` by `cols` samples: the stencil of [`stencil_spec`] along each axis.
pub open spec fn neighbourhood_at<S>(samples: Seq<S>, rows: int, cols: int, i: int, j: int) -> Neighbourhood<S> {
    let along_rows = stencil_spec(i, rows);
    let along_cols = stencil_spec(j, cols);
    Neighbourhood {
        row: i as usize,
        col: j as usize,
        here: samples[vertex_at(cols, i, j)],
        row_ahead: samples[vertex_at(cols, along_rows.0, j)],
        row_behind: samples[vertex_at(cols, along_rows.1, j)],
        row_steps: along_rows.2 as usize,
        col_ahead: samples[vertex_at(cols, i, along_cols.0)],
        col_behind: samples[vertex_at(cols, i, along_cols.1)],
        col_steps: along_cols.2 as usize,
    }
}

/// Whether `values` holds, row by row, what `vertex` makes of the
/// neighbourhood of every position of a grid of samples.
pub open spec fn is_grid_map<S, V, F: Fn(Neighbourhood<S>) -> V>(
    vertex: F,
    samples: Seq<S>,
    rows: usize,
    cols: usize,
    values: Seq<V>,
) -> bool {
    &&& values.len() == rows * cols
    &&& forall|i: usize, j: usize|
        i < rows && j < cols ==> call_ensures(
            vertex,
            (neighbourhood_at(samples, rows as int, cols as int, i as int, j as int),),
            #[trigger] values[vertex_at(cols as int, i as int, j as int)],
        )
}

/// The place of a grid position lies inside the grid.
proof fn lemma_place_in_grid(rows: int, cols: int, i: int, j: int)
    requires
        0 <= i < rows,
        0 <= j < cols,
    ensures
        0 <= i * cols <= vertex_at(cols, i, j) < rows * cols,
        vertex_at(cols, i, j) == i * cols + j,
{
    assert(0 <= i * cols) by (nonlinear_arith)
        requires
            0 <= i,
            0 <= cols,
    ;
    assert((i + 1) * cols <= rows * cols) by (nonlinear_arith)
        requires
            i + 1 <= rows,
            0 <= cols,
    ;
    assert((i + 1) * cols == i * cols + cols) by (nonlinear_arith);
}

/// Hands every position of a grid of `rows` by `cols` samples to `vertex`,
/// row by row, together with the samples that finite differences at the
/// position are taken between, and collects what `vertex` makes of them.
/// Gives `None` where `samples` does not hold one sample for each position.
pub fn map_grid<S: Copy, V, F: Fn(Neighbourhood<S>) -> V>(
    samples: &[S],
    rows: usize,
    cols: usize,
    vertex: &F,
) -> (mapped: Option<Vec<V>>)
    requires
        forall|around: Neighbourhood<S>| call_requires(*vertex, (around,)),
    ensures
        mapped.is_some() <==> samples@.len() == rows * cols,
        mapped matches Some(values) ==> is_grid_map(*vertex, samples@, rows, cols, values@),
{
    assert(rows * cols <= u64::MAX * u64::MAX) by (nonlinear_arith)
        requires
            0 <= rows <= u64::MAX,
            0 <= cols <= u64::MAX,
    ;
    let total: u128 = rows as u128 * cols as u128;
    if samples.len() as u128 != total {
        return None;
    }
    let mut values: Vec<V> = Vec::new();
    let mut i: usize = 0;
    while i < rows
        invariant
            i <= rows,
            samples@.len() == rows * cols,
            rows * cols <= usize::MAX,
            values@.len() == i * cols,
            forall|around: Neighbourhood<S>| call_requires(*vertex, (around,)),
            forall|a: usize, b: usize|
                a < i && b < cols ==> call_ensures(
                    *vertex,
                    (neighbourhood_at(samples@, rows as int, cols as int, a as int, b as int),),
                    #[trigger] values@[vertex_at(cols as int, a as int, b as int)],
                ),
        decreases rows - i,
    {
        let along_rows = difference_stencil(i, rows);
        let mut j: usize = 0;
        while j < cols
            invariant
                i < rows,
                j <= cols,
                samples@.len() == rows * cols,
                rows * cols <= usize::MAX,
                values@.len() == i * cols + j,
                (along_rows.ahead as int, along_rows.behind as int, along_rows.steps as int) == stencil_spec(
                    i as int,
                    rows as int,
                ),
                along_rows.behind <= i <= along_rows.ahead < rows,
                forall|around: Neighbourhood<S>| call_requires(*vertex, (around,)),
                forall|a: usize, b: usize|
                    a < i && b < cols ==> call_ensures(
                        *vertex,
                        (neighbourhood_at(samples@, rows as int, cols as int, a as int, b as int),),
                        #[trigger] values@[vertex_at(cols as int, a as int, b as int)],
                    ),
                forall|b: usize|
                    b < j ==> call_ensures(
                        *vertex,
                        (neighbourhood_at(samples@, rows as int, cols as int, i as int, b as int),),
                        #[trigger] values@[vertex_at(cols as int, i as int, b as int)],
                    ),
            decreases cols - j,
        {
            let along_cols = difference_stencil(j, cols);
            proof {
                lemma_place_in_grid(rows as int, cols as int, i as int, j as int);
                lemma_place_in_grid(rows as int, cols as int, along_rows.ahead as int, j as int);
                lemma_place_in_grid(rows as int, cols as int, along_rows.behind as int, j as int);
                lemma_place_in_grid(rows as int, cols as int, i as int, along_cols.ahead as int);
                lemma_place_in_grid(rows as int, cols as int, i as int, along_cols.behind as int);
            }
            let around = Neighbourhood {
                row: i,
                col: j,
                here: samples[i * cols + j],
                row_ahead: samples[along_rows.ahead * cols + j],
                row_behind: samples[along_rows.behind * cols + j],
                row_steps: along_rows.steps,
                col_ahead: samples[i * cols + along_cols.ahead],
                col_behind: samples[i * cols + along_cols.behind],
                col_steps: along_cols.steps,
            };
            assert(around == neighbourhood_at(samples@, rows as int, cols as int, i as int, j as int));
            let ghost before = values@;
            let value = vertex(around);
            values.push(value);
            proof {
                assert forall|a: usize, b: usize| a < i && b < cols implies call_ensures(
                    *vertex,
                    (neighbourhood_at(samples@, rows as int, cols as int, a as int, b as int),),
                    #[trigger] values@[vertex_at(cols as int, a as int, b as int)],
                ) by {
                    lemma_slot_order(cols as int, a as int, b as int, i as int, j as int);
                    assert(values@[vertex_at(cols as int, a as int, b as int)] == before[vertex_at(
                        cols as int,
                        a as int,
                        b as int,
                    )]);
                }
                assert forall|b: usize| b < j + 1 implies call_ensures(
                    *vertex,
                    (neighbourhood_at(samples@, rows as int, cols as int, i as int, b as int),),
                    #[trigger] values@[vertex_at(cols as int, i as int, b as int)],
                ) by {
                    if b < j {
                        assert(values@[vertex_at(cols as int, i as int, b as int)] == before[vertex_at(
                            cols as int,
                            i as int,
                            b as int,
                        )]);
                    }
                }
            }
            j = j + 1;
        }
        proof {
            assert((i + 1) * cols == i * cols + cols) by (nonlinear_arith);
        }
        i = i + 1;
    }
    Some(values)
}

} // verus!
