//! The search space of a problem over array solutions: the lengths of its
//! two vectors and the bounds of its genes.

use crate::array_solution::ArraySolutionEvaluator;
use crate::operators::redrawn;
use crate::ErrorKind;
use vstd::prelude::*;

verus! {

/// Lengths and bounds that a decision vector can have.
#[derive(Clone, Copy, Debug, PartialEq, Eq, Structural)]
pub struct SearchSpace {
    x_len: usize,
    objectives_len: usize,
    min_x_value: i64,
    max_x_value: i64,
}

/// Whether a decision vector can have `x_len` genes between `min_x_value` and
/// `max_x_value`: it is not empty, its length is a denominator that the
/// mutation rate can have, and the bounds hold at least one value.
pub open spec fn admissible(x_len: usize, min_x_value: i64, max_x_value: i64) -> bool {
    0 < x_len <= u32::MAX && min_x_value <= max_x_value
}

/// Whether these are lengths and bounds that `evaluator` gives when asked.
pub open spec fn declares<E: ArraySolutionEvaluator>(
    evaluator: &E,
    x_len: usize,
    objectives_len: usize,
    min_x_value: i64,
    max_x_value: i64,
) -> bool {
    &&& call_ensures(E::x_len, (evaluator,), x_len)
    &&& call_ensures(E::objectives_len, (evaluator,), objectives_len)
    &&& call_ensures(E::min_x_value, (evaluator,), min_x_value)
    &&& call_ensures(E::max_x_value, (evaluator,), max_x_value)
}

/// The objective vector of a solution that was not evaluated yet: `len` zeros.
pub open spec fn placeholder(len: usize) -> Seq<i64> {
    Seq::new(len as nat, |i: int| 0i64)
}

impl SearchSpace {
    /// The length of a decision vector.
    pub closed spec fn dimension(&self) -> usize {
        self.x_len
    }

    /// The length of an objective vector.
    pub closed spec fn objective_count(&self) -> usize {
        self.objectives_len
    }

    /// The least value of a gene.
    pub closed spec fn lower(&self) -> i64 {
        self.min_x_value
    }

    /// The greatest value of a gene.
    pub closed spec fn upper(&self) -> i64 {
        self.max_x_value
    }

    /// The invariant of a search space.
    pub open spec fn valid(&self) -> bool {
        admissible(self.dimension(), self.lower(), self.upper())
    }

    /// Whether `value` lies between the bounds, both included.
    pub open spec fn contains(&self, value: i64) -> bool {
        self.lower() <= value <= self.upper()
    }

    /// Whether every entry of `genes` lies between the bounds.
    pub open spec fn within(&self, genes: Seq<i64>) -> bool {
        forall|i: int| 0 <= i < genes.len() ==> self.contains(#[trigger] genes[i])
    }

    /// Whether this search space has these lengths and bounds.
    pub open spec fn describes(
        &self,
        x_len: usize,
        objectives_len: usize,
        min_x_value: i64,
        max_x_value: i64,
    ) -> bool {
        &&& self.dimension() == x_len
        &&& self.objective_count() == objectives_len
        &&& self.lower() == min_x_value
        &&& self.upper() == max_x_value
    }

    /// The objective vector that is kept when an evaluation has left
    /// `produced`: `produced` itself if it has the declared length, the
    /// placeholder otherwise.
    pub open spec fn kept(&self, produced: Seq<i64>) -> Seq<i64> {
        if produced.len() == self.objective_count() {
            produced
        } else {
            placeholder(self.objective_count())
        }
    }

    /// The decision vector that has the lower bound everywhere.
    pub open spec fn lowest(&self) -> Seq<i64> {
        Seq::new(self.dimension() as nat, |i: int| self.lower())
    }

    /// Whether every value that `redraws` gives lies between the bounds.
    pub open spec fn admits(&self, redraws: Seq<Option<i64>>) -> bool {
        forall|i: int|
            0 <= i < redraws.len() ==> ((#[trigger] redraws[i]) matches Some(value)
                ==> self.contains(value))
    }

    /// Whether a bounded mutation in this search space can change the genes
    /// `before` into `after`: there are draws, one decision for each gene
    /// and every drawn value between the bounds, that do so. A gene that is
    /// the only one is drawn anew for certain.
    pub open spec fn mutates(&self, before: Seq<i64>, after: Seq<i64>) -> bool {
        exists|redraws: Seq<Option<i64>>|
            {
                &&& redraws.len() == before.len()
                &&& self.admits(redraws)
                &&& redraws.len() == 1 ==> redraws[0] is Some
                &&& after == #[trigger] redrawn(before, redraws)
            }
    }

    /// The search space with these lengths and bounds, unless no decision
    /// vector can have them.
    pub fn new(x_len: usize, objectives_len: usize, min_x_value: i64, max_x_value: i64) -> (outcome:
        Result<Self, ErrorKind>)
        ensures
            outcome is Ok <==> admissible(x_len, min_x_value, max_x_value),
            outcome is Err ==> outcome->Err_0 == ErrorKind::InvalidConfiguration,
            outcome is Ok ==> outcome->Ok_0.describes(x_len, objectives_len, min_x_value, max_x_value),
            outcome is Ok ==> outcome->Ok_0.valid(),
    {
        if x_len == 0 || x_len > 0xffff_ffff || min_x_value > max_x_value {
            return Err(ErrorKind::InvalidConfiguration);
        }
        Ok(SearchSpace { x_len, objectives_len, min_x_value, max_x_value })
    }

    /// The search space with the lengths and bounds that `evaluator` gives
    /// when asked, each asked for once, unless no decision vector can have
    /// them.
    pub fn declared_by<E: ArraySolutionEvaluator>(evaluator: &E) -> (outcome: Result<
        Self,
        ErrorKind,
    >)
        ensures
            exists|x_len: usize, objectives_len: usize, min_x_value: i64, max_x_value: i64|
                {
                    &&& #[trigger] declares(
                        evaluator,
                        x_len,
                        objectives_len,
                        min_x_value,
                        max_x_value,
                    )
                    &&& outcome is Ok <==> admissible(x_len, min_x_value, max_x_value)
                    &&& outcome is Ok ==> outcome->Ok_0.describes(
                        x_len,
                        objectives_len,
                        min_x_value,
                        max_x_value,
                    )
                },
            outcome is Err ==> outcome->Err_0 == ErrorKind::InvalidConfiguration,
            outcome is Ok ==> outcome->Ok_0.valid(),
    {
        let x_len = evaluator.x_len();
        let objectives_len = evaluator.objectives_len();
        let min_x_value = evaluator.min_x_value();
        let max_x_value = evaluator.max_x_value();
        assert(declares(evaluator, x_len, objectives_len, min_x_value, max_x_value));
        SearchSpace::new(x_len, objectives_len, min_x_value, max_x_value)
    }

    /// Whether `f` has the length of an objective vector.
    pub fn fits_objectives(&self, f: &Vec<i64>) -> (fits: bool)
        ensures
            fits == (f@.len() == self.objective_count()),
    {
        f.len() == self.objectives_len
    }

    /// The length of a decision vector.
    pub fn x_len(&self) -> (len: usize)
        ensures
            len == self.dimension(),
    {
        self.x_len
    }

    /// The length of an objective vector.
    pub fn objectives_len(&self) -> (len: usize)
        ensures
            len == self.objective_count(),
    {
        self.objectives_len
    }

    /// The least value of a gene.
    pub fn min_x_value(&self) -> (value: i64)
        ensures
            value == self.lower(),
    {
        self.min_x_value
    }

    /// The greatest value of a gene.
    pub fn max_x_value(&self) -> (value: i64)
        ensures
            value == self.upper(),
    {
        self.max_x_value
    }

    /// Whether every entry of `genes` lies between the bounds.
    pub fn holds(&self, genes: &Vec<i64>) -> (all: bool)
        ensures
            all == self.within(genes@),
    {
        let mut i: usize = 0;
        while i < genes.len()
            invariant
                i <= genes@.len(),
                forall|j: int| 0 <= j < i ==> self.contains(#[trigger] genes@[j]),
            decreases genes@.len() - i,
        {
            if genes[i] < self.min_x_value || genes[i] > self.max_x_value {
                return false;
            }
            i += 1;
        }
        true
    }
}

/// A vector of `len` zeros.
pub(crate) fn zeros(len: usize) -> (values: Vec<i64>)
    ensures
        values@ == placeholder(len),
{
    vec![0i64; len]
}

} // verus!
