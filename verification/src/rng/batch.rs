//! Batches of coordinates: how a chain of recurrence outputs becomes packed
//! x, y, z triples, one call after the other.

use crate::rng::engine::{fold_width, normalize_spec, normalize_value, Bounds};
use vstd::prelude::*;

verus! {

/// The coordinate that the raw output at `position` of a batch stands for:
/// positions cycle through the x, y and z axes.
pub open spec fn coordinate(raw: i64, bounds: Bounds, position: int) -> int {
    normalize_spec(raw as int, bounds.axis_min(position % 3), bounds.axis_max(position % 3))
}

/// Whether `coords` holds, position by position, the coordinates that the
/// raw outputs `raws` stand for under `bounds`.
pub open spec fn is_batch_of(coords: Seq<i64>, raws: Seq<i64>, bounds: Bounds) -> bool {
    &&& coords.len() == raws.len()
    &&& forall|k: int| 0 <= k < raws.len() ==> #[trigger] coords[k] as int == coordinate(raws[k], bounds, k)
}

/// Every coordinate of a batch lies in the range of its axis: at least the
/// axis minimum, and less than the minimum plus the width of the fold.
pub proof fn lemma_coordinates_in_bounds(coords: Seq<i64>, raws: Seq<i64>, bounds: Bounds, k: int)
    requires
        is_batch_of(coords, raws, bounds),
        0 <= k < coords.len(),
    ensures
        bounds.axis_min(k % 3) <= coords[k] < bounds.axis_min(k % 3) + fold_width(
            bounds.axis_min(k % 3),
            bounds.axis_max(k % 3),
        ),
{
    assert(coords[k] as int == coordinate(raws[k], bounds, k));
}

/// The input of the call that produced `raws[k]` in a chain that began with
/// `start`: every output is the next input.
pub open spec fn chain_input(start: i64, raws: Seq<i64>, k: int) -> i64 {
    if k == 0 {
        start
    } else {
        raws[k - 1]
    }
}

/// Whether `eval` can produce the outputs `raws`, one call after the other,
/// when the first call is given `start` and every later call the output
/// before it.
pub open spec fn is_chain<F: Fn(i64) -> Result<i64, String>>(eval: F, start: i64, raws: Seq<i64>) -> bool {
    forall|k: int|
        0 <= k < raws.len() ==> call_ensures(
            eval,
            (#[trigger] chain_input(start, raws, k),),
            Ok::<i64, String>(raws[k]),
        )
}

/// A batch in the making: the coordinates produced so far and the state that
/// the next recurrence call takes.
pub struct BatchRun {
    bounds: Bounds,
    points: usize,
    start: i64,
    state: i64,
    coords: Vec<i64>,
    raws: Ghost<Seq<i64>>,
}

impl BatchRun {
    /// The limits that this batch folds its coordinates into.
    pub closed spec fn bounds(&self) -> Bounds {
        self.bounds
    }

    /// The number of points that the finished batch holds.
    pub closed spec fn points(&self) -> nat {
        self.points as nat
    }

    /// The generator state that the batch began with.
    pub closed spec fn start(&self) -> i64 {
        self.start
    }

    /// The input of the next recurrence call.
    pub closed spec fn state(&self) -> i64 {
        self.state
    }

    /// The coordinates produced so far, as packed x, y, z triples.
    pub closed spec fn coords(&self) -> Seq<i64> {
        self.coords@
    }

    /// The raw recurrence outputs accepted so far, oldest first.
    pub closed spec fn raws(&self) -> Seq<i64> {
        self.raws@
    }

    /// Whether every coordinate of the batch has been produced.
    pub open spec fn is_complete(&self) -> bool {
        self.raws().len() == 3 * self.points()
    }

    /// A batch never outgrows its size, holds exactly the coordinates of the
    /// outputs it accepted, and feeds the last output back as the next input.
    pub closed spec fn wf(&self) -> bool {
        &&& 3 * self.points <= usize::MAX
        &&& self.raws@.len() <= 3 * self.points
        &&& is_batch_of(self.coords@, self.raws@, self.bounds)
        &&& self.state == chain_input(self.start, self.raws@, self.raws@.len() as int)
    }

    /// What `wf` says, over the public accessors.
    pub proof fn lemma_wf(&self)
        requires
            self.wf(),
        ensures
            3 * self.points() <= usize::MAX,
            self.raws().len() <= 3 * self.points(),
            is_batch_of(self.coords(), self.raws(), self.bounds()),
            self.state() == chain_input(self.start(), self.raws(), self.raws().len() as int),
    {
    }

    /// Starts an empty batch of `points` points from the state `start`. The
    /// batch's three values for each point must be countable.
    pub fn new(bounds: Bounds, start: i64, points: usize) -> (run: BatchRun)
        requires
            3 * points <= usize::MAX,
        ensures
            run.wf(),
            run.bounds() == bounds,
            run.points() == points,
            run.start() == start,
            run.state() == start,
            run.raws() == Seq::<i64>::empty(),
            run.coords() == Seq::<i64>::empty(),
    {
        BatchRun { bounds, points, start, state: start, coords: Vec::new(), raws: Ghost(Seq::empty()) }
    }

    /// The input of the next recurrence call, or `None` once the batch is
    /// complete.
    pub fn next_input(&self) -> (input: Option<i64>)
        requires
            self.wf(),
        ensures
            input == if self.is_complete() {
                None
            } else {
                Some(self.state())
            },
    {
        if self.coords.len() < 3 * self.points {
            Some(self.state)
        } else {
            None
        }
    }

    /// Whether every coordinate of the batch has been produced.
    pub fn is_finished(&self) -> (finished: bool)
        requires
            self.wf(),
        ensures
            finished == self.is_complete(),
    {
        self.coords.len() >= 3 * self.points
    }

    /// Gives up the batch: its coordinates and the state that it reached.
    pub fn into_parts(self) -> (parts: (Vec<i64>, i64))
        ensures
            parts.0@ == self.coords(),
            parts.1 == self.state(),
    {
        (self.coords, self.state)
    }

    /// Takes one raw recurrence output: folds it into the bounds of the axis
    /// whose turn it is, appends the coordinate, and makes the output the
    /// input of the next call. A complete batch takes nothing more and
    /// answers `false`.
    pub fn accept(&mut self, raw: i64) -> (accepted: bool)
        requires
            old(self).wf(),
        ensures
            final(self).wf(),
            final(self).bounds() == old(self).bounds(),
            final(self).points() == old(self).points(),
            final(self).start() == old(self).start(),
            accepted == !old(self).is_complete(),
            accepted ==> {
                &&& final(self).raws() == old(self).raws().push(raw)
                &&& final(self).coords().len() == old(self).coords().len() + 1
                &&& final(self).coords().take(old(self).coords().len() as int) == old(self).coords()
                &&& final(self).coords().last() as int == coordinate(
                    raw,
                    old(self).bounds(),
                    old(self).raws().len() as int,
                )
                &&& final(self).state() == raw
            },
            !accepted ==> {
                &&& final(self).raws() == old(self).raws()
                &&& final(self).coords() == old(self).coords()
                &&& final(self).state() == old(self).state()
            },
    {
        let filled: usize = self.coords.len();
        if filled >= 3 * self.points {
            return false;
        }
        let axis: usize = filled % 3;
        let coord: i64 = if axis == 0 {
            normalize_value(raw, self.bounds.min_x, self.bounds.max_x)
        } else if axis == 1 {
            normalize_value(raw, self.bounds.min_y, self.bounds.max_y)
        } else {
            normalize_value(raw, self.bounds.min_z, self.bounds.max_z)
        };
        self.coords.push(coord);
        self.state = raw;
        proof {
            self.raws@ = self.raws@.push(raw);
        }
        assert(self.coords@.take(old(self).coords@.len() as int) == old(self).coords@);
        true
    }

    /// Completes the batch by chaining `eval`: every call takes the output
    /// of the call before it, the first the state that the batch has reached.
    /// The first failure ends the run at once with the evaluator's message;
    /// the batch then keeps what it held before the failing call.
    pub fn fill<F: Fn(i64) -> Result<i64, String>>(&mut self, eval: &F) -> (outcome: Result<(), String>)
        requires
            old(self).wf(),
            forall|input: i64| call_requires(*eval, (input,)),
        ensures
            final(self).wf(),
            final(self).bounds() == old(self).bounds(),
            final(self).points() == old(self).points(),
            final(self).start() == old(self).start(),
            old(self).raws().len() <= final(self).raws().len(),
            final(self).raws().take(old(self).raws().len() as int) == old(self).raws(),
            is_chain(*eval, old(self).state(), final(self).raws().skip(old(self).raws().len() as int)),
            match outcome {
                Ok(()) => final(self).is_complete(),
                Err(message) => !final(self).is_complete() && call_ensures(
                    *eval,
                    (final(self).state(),),
                    Err::<i64, String>(message),
                ),
            },
    {
        let ghost before: Seq<i64> = self.raws@;
        let ghost first: i64 = self.state;
        let goal: usize = 3 * self.points;
        while self.coords.len() < goal
            invariant
                self.wf(),
                self.bounds == old(self).bounds,
                self.points == old(self).points,
                self.start == old(self).start,
                goal == 3 * self.points,
                before == old(self).raws@,
                first == old(self).state,
                first == chain_input(self.start, before, before.len() as int),
                before.len() <= self.raws@.len(),
                self.raws@.take(before.len() as int) == before,
                is_chain(*eval, first, self.raws@.skip(before.len() as int)),
                forall|input: i64| call_requires(*eval, (input,)),
            decreases goal - self.coords.len(),
        {
            let ghost so_far: Seq<i64> = self.raws@;
            let input: i64 = self.state;
            match eval(input) {
                Ok(raw) => {
                    self.accept(raw);
                    proof {
                        let fresh = self.raws@.skip(before.len() as int);
                        let earlier = so_far.skip(before.len() as int);
                        assert(fresh == earlier.push(raw));
                        assert forall|k: int| 0 <= k < fresh.len() implies call_ensures(
                            *eval,
                            (#[trigger] chain_input(first, fresh, k),),
                            Ok::<i64, String>(fresh[k]),
                        ) by {
                            if k < earlier.len() {
                                assert(fresh[k] == earlier[k]);
                                assert(chain_input(first, fresh, k) == chain_input(first, earlier, k));
                            } else if k > 0 {
                                assert(fresh[k - 1] == so_far[so_far.len() - 1]);
                            } else {
                                assert(so_far == before);
                            }
                        }
                        assert(self.raws@.take(before.len() as int) == before);
                    }
                },
                Err(message) => {
                    return Err(message);
                },
            }
        }
        Ok(())
    }
}

/// Whether `eval` answers every input in one way only.
pub open spec fn is_deterministic<F: Fn(i64) -> Result<i64, String>>(eval: F) -> bool {
    forall|input: i64, a: Result<i64, String>, b: Result<i64, String>|
        #![trigger call_ensures(eval, (input,), a), call_ensures(eval, (input,), b)]
        call_ensures(eval, (input,), a) && call_ensures(eval, (input,), b) ==> a == b
}

/// Two chains of a deterministic recurrence that start alike agree wherever
/// both have an output.
pub proof fn lemma_chains_agree<F: Fn(i64) -> Result<i64, String>>(
    eval: F,
    start: i64,
    a: Seq<i64>,
    b: Seq<i64>,
    k: int,
)
    requires
        is_deterministic(eval),
        is_chain(eval, start, a),
        is_chain(eval, start, b),
        0 <= k < a.len(),
        k < b.len(),
    ensures
        a[k] == b[k],
        chain_input(start, a, k) == chain_input(start, b, k),
    decreases k,
{
    if k > 0 {
        lemma_chains_agree(eval, start, a, b, k - 1);
    }
    let input = chain_input(start, a, k);
    assert(input == chain_input(start, b, k));
    assert(call_ensures(eval, (input,), Ok::<i64, String>(a[k])));
    assert(call_ensures(eval, (input,), Ok::<i64, String>(b[k])));
    assert(Ok::<i64, String>(a[k]) == Ok::<i64, String>(b[k]));
}

/// Where a deterministic recurrence fails after the chain `short`, no chain
/// from the same start is longer than `short`.
pub proof fn lemma_failure_ends_chain<F: Fn(i64) -> Result<i64, String>>(
    eval: F,
    start: i64,
    short: Seq<i64>,
    message: String,
    other: Seq<i64>,
)
    requires
        is_deterministic(eval),
        is_chain(eval, start, short),
        is_chain(eval, start, other),
        call_ensures(eval, (chain_input(start, short, short.len() as int),), Err::<i64, String>(message)),
    ensures
        other.len() <= short.len(),
{
    if other.len() > short.len() {
        let k = short.len() as int;
        if k > 0 {
            lemma_chains_agree(eval, start, short, other, k - 1);
        }
        let input = chain_input(start, other, k);
        assert(input == chain_input(start, short, k));
        assert(call_ensures(eval, (input,), Ok::<i64, String>(other[k])));
        assert(Ok::<i64, String>(other[k]) == Err::<i64, String>(message));
    }
}

/// Two failures of a deterministic recurrence from the same start come after
/// the same chain and carry the same message.
pub proof fn lemma_failures_agree<F: Fn(i64) -> Result<i64, String>>(
    eval: F,
    start: i64,
    a: Seq<i64>,
    a_message: String,
    b: Seq<i64>,
    b_message: String,
)
    requires
        is_deterministic(eval),
        is_chain(eval, start, a),
        is_chain(eval, start, b),
        call_ensures(eval, (chain_input(start, a, a.len() as int),), Err::<i64, String>(a_message)),
        call_ensures(eval, (chain_input(start, b, b.len() as int),), Err::<i64, String>(b_message)),
    ensures
        a.len() == b.len(),
        a_message == b_message,
{
    lemma_failure_ends_chain(eval, start, a, a_message, b);
    lemma_failure_ends_chain(eval, start, b, b_message, a);
    let k = a.len() as int;
    if k > 0 {
        lemma_chains_agree(eval, start, a, b, k - 1);
    }
    let input = chain_input(start, a, k);
    assert(input == chain_input(start, b, k));
    assert(Err::<i64, String>(a_message) == Err::<i64, String>(b_message));
}

/// Two batches in a row are one batch cut in two: where the second batch
/// chains on from the state that the first one reached, their outputs form
/// one chain, and their coordinates, one batch after the other, are the
/// coordinates of that chain. So the stream of coordinates does not depend
/// on where the batch size of the moment cuts it.
pub proof fn lemma_batches_concatenate<F: Fn(i64) -> Result<i64, String>>(
    eval: F,
    start: i64,
    bounds: Bounds,
    first_raws: Seq<i64>,
    first: Seq<i64>,
    second_raws: Seq<i64>,
    second: Seq<i64>,
)
    requires
        first_raws.len() % 3 == 0,
        is_chain(eval, start, first_raws),
        is_chain(eval, chain_input(start, first_raws, first_raws.len() as int), second_raws),
        is_batch_of(first, first_raws, bounds),
        is_batch_of(second, second_raws, bounds),
    ensures
        is_chain(eval, start, first_raws + second_raws),
        is_batch_of(first + second, first_raws + second_raws, bounds),
        chain_input(start, first_raws + second_raws, (first_raws + second_raws).len() as int) == chain_input(
            chain_input(start, first_raws, first_raws.len() as int),
            second_raws,
            second_raws.len() as int,
        ),
{
    let raws = first_raws + second_raws;
    let coords = first + second;
    let cut = first_raws.len() as int;
    let middle = chain_input(start, first_raws, cut);
    assert forall|k: int| 0 <= k < raws.len() implies call_ensures(
        eval,
        (#[trigger] chain_input(start, raws, k),),
        Ok::<i64, String>(raws[k]),
    ) by {
        if k < cut {
            assert(chain_input(start, raws, k) == chain_input(start, first_raws, k));
            assert(raws[k] == first_raws[k]);
        } else {
            assert(chain_input(start, raws, k) == chain_input(middle, second_raws, k - cut));
            assert(raws[k] == second_raws[k - cut]);
        }
    }
    assert forall|k: int| 0 <= k < raws.len() implies #[trigger] coords[k] as int == coordinate(
        raws[k],
        bounds,
        k,
    ) by {
        if k < cut {
            assert(coords[k] == first[k]);
            assert(raws[k] == first_raws[k]);
        } else {
            assert(coords[k] == second[k - cut]);
            assert(raws[k] == second_raws[k - cut]);
            assert(second[k - cut] as int == coordinate(second_raws[k - cut], bounds, k - cut));
            assert((k - cut) % 3 == k % 3);
        }
    }
}

} // verus!
