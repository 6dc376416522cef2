//! Solutions whose decision vector is an array of bounded integers.
//!
//! A gene is an `i64`: a fixed-point number in units that the problem
//! chooses. Every gene of a solution lies between the two bounds that the
//! problem declares for all of them.

use crate::duplicate::duplicate;
use crate::memory_buffer::SimpleNonbufferedAllocator;
use crate::operators::{draw_coins, draw_genes, draw_redraws, mixed, redrawn, uniform_mix};
use crate::search_space::{admissible, declares, placeholder, zeros, SearchSpace};
use crate::{Constraint, ErrorKind, Meta, Objective, Ratio, Solution, SolutionsRuntimeProcessor};
use rand::thread_rng;
use std::marker::PhantomData;
use vstd::prelude::*;

verus! {

/// A problem over array solutions: how long the vectors are, between which
/// bounds every gene lies, and how the objectives follow from the genes.
///
/// The library reads the four numbers once and works with what it read. Of
/// `calculate_objectives` it uses the result only if the objective vector
/// still has its length afterwards.
pub trait ArraySolutionEvaluator: Clone {
    /// Writes the objectives of the decision vector `x` into `f`, which has
    /// one entry for each objective.
    fn calculate_objectives(&self, x: &Vec<i64>, f: &mut Vec<i64>);

    /// The length of a decision vector.
    fn x_len(&self) -> usize;

    /// The length of an objective vector.
    fn objectives_len(&self) -> usize;

    /// The least value of a gene.
    fn min_x_value(&self) -> i64;

    /// The greatest value of a gene.
    fn max_x_value(&self) -> i64;
}

/// The buffer that the operators on array solutions are handed. An array
/// solution owns its two vectors, so nothing is pooled for it.
pub type ArraySolutionBuffer = SimpleNonbufferedAllocator;

/// A candidate solution: a decision vector, the objective vector computed
/// from it, and the evaluator of its problem.
pub struct ArraySolution<E: ArraySolutionEvaluator> {
    x: Vec<i64>,
    f: Vec<i64>,
    space: SearchSpace,
    array_evaluator: E,
}

impl<E: ArraySolutionEvaluator> ArraySolution<E> {
    /// The decision vector.
    pub closed spec fn genes(&self) -> Seq<i64> {
        self.x@
    }

    /// The objective vector. It is a placeholder of zeros until the solution
    /// is evaluated, and out of date after a change of the genes.
    pub closed spec fn fitness(&self) -> Seq<i64> {
        self.f@
    }

    /// The lengths and bounds of the problem.
    pub closed spec fn search_space(&self) -> SearchSpace {
        self.space
    }

    /// The solution's own handle to the evaluator.
    pub closed spec fn evaluator(&self) -> E {
        self.array_evaluator
    }

    /// The invariant of a solution: both vectors have their declared length
    /// and every gene lies between the bounds.
    pub open spec fn well_formed(&self) -> bool {
        &&& self.search_space().valid()
        &&& self.genes().len() == self.search_space().dimension()
        &&& self.fitness().len() == self.search_space().objective_count()
        &&& self.search_space().within(self.genes())
    }

    /// Whether this is a call that an evaluation of this solution makes: the
    /// solution's evaluator is asked for the objectives of `decision`, which
    /// holds the genes, and is to write them through `written`, which points
    /// to the objectives that the solution has so far.
    pub open spec fn asks(&self, decision: Vec<i64>, written: &mut Vec<i64>) -> bool {
        &&& decision@ == self.genes()
        &&& mut_ref_current(written)@ == self.fitness()
        &&& call_ensures(E::calculate_objectives, (&self.evaluator(), &decision, written), ())
    }

    /// The solution with the decision vector `x` and a placeholder for its
    /// objectives, unless `x` has the wrong length or a gene out of bounds.
    pub fn new(x: Vec<i64>, space: SearchSpace, array_evaluator: E) -> (outcome: Result<
        Self,
        ErrorKind,
    >)
        requires
            space.valid(),
        ensures
            outcome is Ok <==> x@.len() == space.dimension() && space.within(x@),
            outcome is Err ==> outcome->Err_0 == if x@.len() != space.dimension() {
                ErrorKind::DimensionMismatch
            } else {
                ErrorKind::InvalidConfiguration
            },
            outcome is Ok ==> {
                let solution = outcome->Ok_0;
                &&& solution.well_formed()
                &&& solution.genes() == x@
                &&& solution.fitness() == placeholder(space.objective_count())
                &&& solution.search_space() == space
                &&& solution.evaluator() == array_evaluator
            },
    {
        if x.len() != space.x_len() {
            return Err(ErrorKind::DimensionMismatch);
        }
        if !space.holds(&x) {
            return Err(ErrorKind::InvalidConfiguration);
        }
        let f = zeros(space.objectives_len());
        Ok(ArraySolution { x, f, space, array_evaluator })
    }

    /// The decision vector.
    pub fn x(&self) -> (genes: &Vec<i64>)
        ensures
            genes@ == self.genes(),
    {
        &self.x
    }

    /// The objective vector.
    pub fn f(&self) -> (fitness: &Vec<i64>)
        ensures
            fitness@ == self.fitness(),
    {
        &self.f
    }

    /// The lengths and bounds of the problem.
    pub fn space(&self) -> (space: SearchSpace)
        ensures
            space == self.search_space(),
    {
        self.space
    }

    /// Makes `produced` the objective vector if it has the declared length.
    /// If it has not, the objectives become the placeholder of zeros, so
    /// that no vector of the wrong length is ever kept.
    pub fn store_objectives(&mut self, produced: Vec<i64>) -> (outcome: Result<(), ErrorKind>)
        requires
            old(self).search_space().valid(),
            old(self).genes().len() == old(self).search_space().dimension(),
            old(self).search_space().within(old(self).genes()),
        ensures
            outcome is Ok <==> produced@.len() == old(self).search_space().objective_count(),
            outcome is Err ==> outcome->Err_0 == ErrorKind::DimensionMismatch,
            final(self).fitness() == old(self).search_space().kept(produced@),
            final(self).genes() == old(self).genes(),
            final(self).search_space() == old(self).search_space(),
            final(self).evaluator() == old(self).evaluator(),
            final(self).well_formed(),
    {
        if self.space.fits_objectives(&produced) {
            self.f = produced;
            Ok(())
        } else {
            self.f = zeros(self.space.objectives_len());
            Err(ErrorKind::DimensionMismatch)
        }
    }

    /// Has the evaluator compute the objectives of the current genes. The
    /// evaluator writes into the objective vector itself; what it leaves is
    /// kept if it has the declared length, and replaced by the placeholder
    /// of zeros if not.
    ///
    /// The contract speaks of the one call that is made of the evaluator's
    /// `calculate_objectives`, and of what that call leaves behind the
    /// reference `written`.
    pub fn calc_objectives(&mut self) -> (outcome: Result<(), ErrorKind>)
        requires
            old(self).well_formed(),
        ensures
            exists|decision: Vec<i64>, written: &mut Vec<i64>|
                {
                    &&& #[trigger] old(self).asks(decision, written)
                    &&& outcome is Ok <==> mut_ref_future(written)@.len() == old(
                        self,
                    ).search_space().objective_count()
                    &&& final(self).fitness() == old(self).search_space().kept(
                        mut_ref_future(written)@,
                    )
                },
            outcome is Err ==> outcome->Err_0 == ErrorKind::DimensionMismatch,
            final(self).genes() == old(self).genes(),
            final(self).search_space() == old(self).search_space(),
            final(self).evaluator() == old(self).evaluator(),
            final(self).well_formed(),
    {
        let mut produced = Vec::new();
        std::mem::swap(&mut self.f, &mut produced);
        let ghost before = produced@;
        let ghost decision = self.x;
        self.array_evaluator.calculate_objectives(&self.x, &mut produced);
        let ghost written = choose|w: &mut Vec<i64>|
            mut_ref_current(w)@ == before && mut_ref_future(w)@ == produced@
                && #[trigger] call_ensures(
                E::calculate_objectives,
                (&self.array_evaluator, &self.x, w),
                (),
            );
        let outcome = self.store_objectives(produced);
        assert(old(self).asks(decision, written));
        outcome
    }

    /// Uniform crossover with the coins given: the two parents are replaced
    /// by two offspring. Each offspring is a copy of `other` that has the
    /// gene of `self` wherever its own sequence of coins says so.
    pub fn recombine(
        &mut self,
        other: &mut Self,
        first_coins: &Vec<bool>,
        second_coins: &Vec<bool>,
    ) -> (outcome: Result<(), ErrorKind>)
        requires
            old(self).well_formed(),
            old(other).well_formed(),
            old(self).search_space() == old(other).search_space(),
        ensures
            outcome is Ok <==> first_coins@.len() == old(other).genes().len() && second_coins@.len()
                == old(other).genes().len(),
            outcome is Err ==> {
                &&& outcome->Err_0 == ErrorKind::DimensionMismatch
                &&& *final(self) == *old(self)
                &&& *final(other) == *old(other)
            },
            outcome is Ok ==> {
                &&& final(self).genes() == uniform_mix(
                    old(self).genes(),
                    old(other).genes(),
                    first_coins@,
                )
                &&& final(other).genes() == uniform_mix(
                    old(self).genes(),
                    old(other).genes(),
                    second_coins@,
                )
                &&& final(self).fitness() == old(other).fitness()
                &&& final(other).fitness() == old(other).fitness()
                &&& cloned(old(other).evaluator(), final(self).evaluator())
                &&& cloned(old(other).evaluator(), final(other).evaluator())
            },
            final(self).search_space() == old(other).search_space(),
            final(other).search_space() == old(other).search_space(),
            final(self).well_formed(),
            final(other).well_formed(),
    {
        let n = other.x.len();
        if first_coins.len() != n || second_coins.len() != n {
            return Err(ErrorKind::DimensionMismatch);
        }
        let new_solution1 = ArraySolution {
            f: other.f.clone(),
            x: mixed(&self.x, &other.x, first_coins),
            space: other.space,
            array_evaluator: duplicate(&other.array_evaluator),
        };
        let new_solution2 = ArraySolution {
            f: other.f.clone(),
            x: mixed(&self.x, &other.x, second_coins),
            space: other.space,
            array_evaluator: duplicate(&other.array_evaluator),
        };
        *self = new_solution1;
        *other = new_solution2;
        Ok(())
    }

    /// Mutation with the draws given: gene `i` takes the value `redraws[i]`
    /// where there is one. Nothing changes if `redraws` has the wrong length
    /// or holds a value out of bounds.
    pub fn apply_redraws(&mut self, redraws: &Vec<Option<i64>>) -> (outcome: Result<(), ErrorKind>)
        requires
            old(self).well_formed(),
        ensures
            outcome is Ok <==> redraws@.len() == old(self).genes().len() && old(
                self,
            ).search_space().admits(redraws@),
            outcome is Err ==> {
                &&& outcome->Err_0 == if redraws@.len() != old(self).genes().len() {
                    ErrorKind::DimensionMismatch
                } else {
                    ErrorKind::InvalidConfiguration
                }
                &&& final(self).genes() == old(self).genes()
            },
            outcome is Ok ==> final(self).genes() == redrawn(old(self).genes(), redraws@),
            final(self).fitness() == old(self).fitness(),
            final(self).search_space() == old(self).search_space(),
            final(self).evaluator() == old(self).evaluator(),
            final(self).well_formed(),
    {
        let n = self.x.len();
        if redraws.len() != n {
            return Err(ErrorKind::DimensionMismatch);
        }
        let mut k: usize = 0;
        while k < n
            invariant
                k <= n,
                n == redraws@.len(),
                n == self.x@.len(),
                *self == *old(self),
                old(self).well_formed(),
                forall|j: int|
                    0 <= j < k ==> ((#[trigger] redraws@[j]) matches Some(value)
                        ==> self.space.contains(value)),
            decreases n - k,
        {
            match redraws[k] {
                Some(value) => {
                    if value < self.space.min_x_value() || value > self.space.max_x_value() {
                        return Err(ErrorKind::InvalidConfiguration);
                    }
                },
                None => {},
            }
            k += 1;
        }
        let mut i: usize = 0;
        while i < n
            invariant
                i <= n,
                n == redraws@.len(),
                n == self.x@.len(),
                self.x@.len() == old(self).x@.len(),
                self.f == old(self).f,
                self.space == old(self).space,
                self.array_evaluator == old(self).array_evaluator,
                self.space.admits(redraws@),
                forall|j: int| 0 <= j < i ==> self.x@[j] == redrawn(old(self).x@, redraws@)[j],
                forall|j: int| i <= j < n ==> self.x@[j] == old(self).x@[j],
            decreases n - i,
        {
            match redraws[i] {
                Some(value) => {
                    self.x[i] = value;
                },
                None => {},
            }
            i += 1;
        }
        Ok(())
    }
}

impl<E: ArraySolutionEvaluator> Clone for ArraySolution<E> {
    /// A solution with the same vectors and a copy of the evaluator.
    fn clone(&self) -> (copy: Self)
        ensures
            copy.genes() == self.genes(),
            copy.fitness() == self.fitness(),
            copy.search_space() == self.search_space(),
            cloned(self.evaluator(), copy.evaluator()),
            self.well_formed() ==> copy.well_formed(),
    {
        let x = self.x.clone();
        let f = self.f.clone();
        ArraySolution { x, f, space: self.space, array_evaluator: duplicate(&self.array_evaluator) }
    }
}

impl<E: ArraySolutionEvaluator> Solution<ArraySolutionBuffer> for ArraySolution<E> {
    open spec fn well_formed(&self) -> bool {
        ArraySolution::well_formed(self)
    }

    open spec fn can_recombine(&self, other: &Self) -> bool {
        self.search_space() == other.search_space()
    }

    open spec fn decision_len(&self) -> nat {
        self.genes().len()
    }

    /// Uniform crossover: each offspring starts as a copy of `other` and
    /// takes each gene of `self` on a fair coin of its own. The objectives
    /// are not computed anew.
    fn crossover(&mut self, _buffer: &mut ArraySolutionBuffer, other: &mut Self)
        ensures
            final(self).genes().len() == old(other).genes().len(),
            final(other).genes().len() == old(other).genes().len(),
            forall|i: int|
                0 <= i < old(other).genes().len() ==> {
                    ||| #[trigger] final(self).genes()[i] == old(self).genes()[i]
                    ||| final(self).genes()[i] == old(other).genes()[i]
                },
            forall|i: int|
                0 <= i < old(other).genes().len() ==> {
                    ||| #[trigger] final(other).genes()[i] == old(self).genes()[i]
                    ||| final(other).genes()[i] == old(other).genes()[i]
                },
            final(self).search_space().within(final(self).genes()),
            final(other).search_space().within(final(other).genes()),
            final(self).fitness() == old(other).fitness(),
            final(other).fitness() == old(other).fitness(),
            final(self).search_space() == old(other).search_space(),
            final(other).search_space() == old(other).search_space(),
            cloned(old(other).evaluator(), final(self).evaluator()),
            cloned(old(other).evaluator(), final(other).evaluator()),
            *final(_buffer) == *old(_buffer),
    {
        let mut rng = thread_rng();
        let n = other.x.len();
        let first_coins = draw_coins(&mut rng, n);
        let second_coins = draw_coins(&mut rng, n);
        let _ = self.recombine(other, &first_coins, &second_coins);
    }

    /// Bounded mutation: each gene is drawn anew between the bounds with
    /// probability one in the number of genes, so a single gene for certain.
    /// The length is kept, and the objectives are not computed anew.
    fn mutate(&mut self, _buffer: &mut ArraySolutionBuffer)
        ensures
            old(self).search_space().mutates(old(self).genes(), final(self).genes()),
            final(self).search_space().within(final(self).genes()),
            final(self).fitness() == old(self).fitness(),
            final(self).search_space() == old(self).search_space(),
            final(self).evaluator() == old(self).evaluator(),
            *final(_buffer) == *old(_buffer),
    {
        let mut rng = thread_rng();
        let redraws = draw_redraws(&mut rng, self.space);
        let _ = self.apply_redraws(&redraws);
    }
}

/// The objective that reads one entry of the objective vector of the array
/// solutions of evaluators of type `E`.
pub struct ArrayFObjective<E: ArraySolutionEvaluator> {
    index_f: usize,
    problem: PhantomData<E>,
}

impl<E: ArraySolutionEvaluator> ArrayFObjective<E> {
    /// The position in the objective vector that this objective reads.
    pub closed spec fn position(&self) -> usize {
        self.index_f
    }

    /// The position in the objective vector that this objective reads.
    pub fn index(&self) -> (index: usize)
        ensures
            index == self.position(),
    {
        self.index_f
    }
}

impl<E: ArraySolutionEvaluator> Objective<ArraySolutionBuffer, ArraySolution<E>> for ArrayFObjective<
    E,
> {
    open spec fn defined_on(&self, candidate: &ArraySolution<E>) -> bool {
        self.position() < candidate.fitness().len()
    }

    fn value(&self, candidate: &ArraySolution<E>) -> (val: i64)
        ensures
            val == candidate.fitness()[self.position() as int],
    {
        candidate.f[self.index_f]
    }

    /// No value ends the optimisation early.
    fn good_enough(&self, _val: i64) -> (enough: bool)
        ensures
            !enough,
    {
        false
    }
}

/// Whether this is the call by which an evaluator is tried: it is asked for
/// the objectives of `trial`, which holds the lower bound of `space`
/// everywhere, and is to write them through `written`, which points to a
/// placeholder of the length that `space` has for objectives.
pub open spec fn tries<E: ArraySolutionEvaluator>(
    evaluator: &E,
    space: SearchSpace,
    trial: Vec<i64>,
    written: &mut Vec<i64>,
) -> bool {
    &&& trial@ == space.lowest()
    &&& mut_ref_current(written)@ == placeholder(space.objective_count())
    &&& call_ensures(E::calculate_objectives, (evaluator, &trial, written), ())
}

/// The objectives that read the entries `0`, `1`, ... of an objective
/// vector of length `len`, in this order.
fn derive_objectives<E: ArraySolutionEvaluator>(len: usize) -> (objectives: Vec<ArrayFObjective<E>>)
    ensures
        objectives@.len() == len,
        forall|i: int| 0 <= i < len ==> (#[trigger] objectives@[i]).position() == i,
{
    let mut objectives: Vec<ArrayFObjective<E>> = Vec::new();
    let mut i: usize = 0;
    while i < len
        invariant
            i <= len,
            objectives@.len() == i,
            forall|j: int| 0 <= j < i ==> (#[trigger] objectives@[j]).position() == j,
        decreases len - i,
    {
        objectives.push(ArrayFObjective { index_f: i, problem: PhantomData });
        i += 1;
    }
    objectives
}

/// The configuration of a run over array solutions.
pub struct ArrayOptimizerParams<E: ArraySolutionEvaluator, C> {
    population_size: usize,
    crossover_odds: Ratio,
    mutation_odds: Ratio,
    space: SearchSpace,
    array_evaluator: E,
    objectives: Vec<ArrayFObjective<E>>,
    constraints: Vec<C>,
}

impl<E: ArraySolutionEvaluator, C> ArrayOptimizerParams<E, C> {
    /// The number of solutions in a population.
    pub closed spec fn size(&self) -> usize {
        self.population_size
    }

    /// The probability with which two parents are recombined.
    pub closed spec fn crossover_rate(&self) -> Ratio {
        self.crossover_odds
    }

    /// The probability with which an offspring is mutated.
    pub closed spec fn mutation_rate(&self) -> Ratio {
        self.mutation_odds
    }

    /// The lengths and bounds that the evaluator declared.
    pub closed spec fn search_space(&self) -> SearchSpace {
        self.space
    }

    /// The evaluator of the problem.
    pub closed spec fn evaluator(&self) -> E {
        self.array_evaluator
    }

    /// The objectives, one for each entry of the objective vector.
    pub closed spec fn objective_list(&self) -> Seq<ArrayFObjective<E>> {
        self.objectives@
    }

    /// The constraints, in the order in which they were added.
    pub closed spec fn constraint_list(&self) -> Seq<C> {
        self.constraints@
    }

    /// The invariant of the configuration: the search space is valid, and
    /// objective `i` reads entry `i` of the objective vector.
    pub open spec fn well_formed(&self) -> bool {
        &&& self.search_space().valid()
        &&& self.objective_list().len() == self.search_space().objective_count()
        &&& forall|i: int|
            0 <= i < self.objective_list().len() ==> (#[trigger] self.objective_list()[i]).position()
                == i
    }

    /// The configuration for the problem of `array_evaluator`, with one
    /// objective for each entry of its objective vector and no constraint.
    ///
    /// The evaluator's lengths and bounds are read here, once. The
    /// configuration is refused as invalid if no decision vector can have
    /// them. Then the evaluator is tried once, on the decision vector that
    /// has the lower bound everywhere and on a placeholder for the
    /// objectives: the configuration is refused for a dimension mismatch if
    /// the evaluator changes the length of that placeholder.
    pub fn new(
        population_size: usize,
        crossover_odds: Ratio,
        mutation_odds: Ratio,
        array_evaluator: E,
    ) -> (outcome: Result<Self, ErrorKind>)
        ensures
            exists|x_len: usize, objectives_len: usize, min_x_value: i64, max_x_value: i64|
                {
                    &&& #[trigger] declares(
                        &array_evaluator,
                        x_len,
                        objectives_len,
                        min_x_value,
                        max_x_value,
                    )
                    &&& !admissible(x_len, min_x_value, max_x_value) <==> outcome is Err
                        && outcome->Err_0 == ErrorKind::InvalidConfiguration
                },
            !(outcome is Err && outcome->Err_0 == ErrorKind::InvalidConfiguration) ==> exists|
                space: SearchSpace,
                trial: Vec<i64>,
                written: &mut Vec<i64>,
            |
                {
                    &&& #[trigger] tries(&array_evaluator, space, trial, written)
                    &&& space.valid()
                    &&& declares(
                        &array_evaluator,
                        space.dimension(),
                        space.objective_count(),
                        space.lower(),
                        space.upper(),
                    )
                    &&& outcome is Ok <==> mut_ref_future(written)@.len()
                        == space.objective_count()
                    &&& outcome is Ok ==> outcome->Ok_0.search_space() == space
                    &&& outcome is Err ==> outcome->Err_0 == ErrorKind::DimensionMismatch
                },
            outcome is Ok ==> {
                let params = outcome->Ok_0;
                &&& params.well_formed()
                &&& params.size() == population_size
                &&& params.crossover_rate() == crossover_odds
                &&& params.mutation_rate() == mutation_odds
                &&& params.evaluator() == array_evaluator
                &&& params.constraint_list() == Seq::<C>::empty()
            },
    {
        let space = match SearchSpace::declared_by(&array_evaluator) {
            Ok(space) => space,
            Err(kind) => {
                return Err(kind);
            },
        };
        let trial = vec![space.min_x_value(); space.x_len()];
        let mut produced = zeros(space.objectives_len());
        array_evaluator.calculate_objectives(&trial, &mut produced);
        proof {
            let written = choose|written: &mut Vec<i64>|
                mut_ref_current(written)@ == placeholder(space.objective_count())
                    && mut_ref_future(written)@ == produced@ && #[trigger] call_ensures(
                    E::calculate_objectives,
                    (&array_evaluator, &trial, written),
                    (),
                );
            assert(trial@ =~= space.lowest());
            assert(tries(&array_evaluator, space, trial, written));
        }
        if !space.fits_objectives(&produced) {
            return Err(ErrorKind::DimensionMismatch);
        }
        Ok(
            ArrayOptimizerParams::for_search_space(
                population_size,
                crossover_odds,
                mutation_odds,
                array_evaluator,
                space,
            ),
        )
    }

    /// The configuration for a problem whose lengths and bounds are `space`,
    /// with one objective for each entry of the objective vector and no
    /// constraint.
    pub fn for_search_space(
        population_size: usize,
        crossover_odds: Ratio,
        mutation_odds: Ratio,
        array_evaluator: E,
        space: SearchSpace,
    ) -> (params: Self)
        requires
            space.valid(),
        ensures
            params.well_formed(),
            params.size() == population_size,
            params.crossover_rate() == crossover_odds,
            params.mutation_rate() == mutation_odds,
            params.search_space() == space,
            params.evaluator() == array_evaluator,
            params.constraint_list() == Seq::<C>::empty(),
    {
        let objectives = derive_objectives(space.objectives_len());
        ArrayOptimizerParams {
            population_size,
            crossover_odds,
            mutation_odds,
            space,
            array_evaluator,
            objectives,
            constraints: Vec::new(),
        }
    }

    /// Adds `constraint` after the constraints that are there.
    pub fn add_constraint(&mut self, constraint: C)
        ensures
            final(self).constraint_list() == old(self).constraint_list().push(constraint),
            final(self).size() == old(self).size(),
            final(self).crossover_rate() == old(self).crossover_rate(),
            final(self).mutation_rate() == old(self).mutation_rate(),
            final(self).search_space() == old(self).search_space(),
            final(self).evaluator() == old(self).evaluator(),
            final(self).objective_list() == old(self).objective_list(),
    {
        self.constraints.push(constraint);
    }

    /// The lengths and bounds that the evaluator declared.
    pub fn space(&self) -> (space: SearchSpace)
        ensures
            space == self.search_space(),
    {
        self.space
    }
}

impl<
    E: ArraySolutionEvaluator,
    C: Constraint<ArraySolutionBuffer, ArraySolution<E>>,
> Meta<ArraySolutionBuffer, ArraySolution<E>> for ArrayOptimizerParams<E, C> {
    type Goal = ArrayFObjective<E>;

    type Limit = C;

    open spec fn well_formed(&self) -> bool {
        ArrayOptimizerParams::well_formed(self)
    }

    fn population_size(&self) -> (size: usize)
        ensures
            size == self.size(),
    {
        self.population_size
    }

    /// The rate that was given when the configuration was made.
    fn crossover_odds(&self) -> (odds: &Ratio)
        ensures
            *odds == self.crossover_rate(),
    {
        &self.crossover_odds
    }

    /// The rate that was given when the configuration was made.
    fn mutation_odds(&self) -> (odds: &Ratio)
        ensures
            *odds == self.mutation_rate(),
    {
        &self.mutation_odds
    }

    /// A solution with every gene drawn uniformly between the bounds, a
    /// placeholder of zeros for its objectives, and its own copy of the
    /// evaluator.
    fn random_solution(&mut self) -> (solution: ArraySolution<E>)
        ensures
            *final(self) == *old(self),
            solution.search_space() == old(self).search_space(),
            solution.genes().len() == old(self).search_space().dimension(),
            old(self).search_space().within(solution.genes()),
            solution.fitness() == placeholder(old(self).search_space().objective_count()),
            cloned(old(self).evaluator(), solution.evaluator()),
    {
        let mut rng = thread_rng();
        let x = draw_genes(&mut rng, self.space);
        ArraySolution {
            x,
            f: zeros(self.space.objectives_len()),
            space: self.space,
            array_evaluator: duplicate(&self.array_evaluator),
        }
    }

    fn objectives(&self) -> (list: &Vec<ArrayFObjective<E>>)
        ensures
            list@ == self.objective_list(),
    {
        &self.objectives
    }

    fn constraints(&self) -> (list: &Vec<C>)
        ensures
            list@ == self.constraint_list(),
    {
        &self.constraints
    }
}

/// Keeps the generation counter of one run over the array solutions of
/// evaluators of type `E`.
pub struct SolutionsRuntimeArrayProcessor<E: ArraySolutionEvaluator> {
    current_iteration_num: usize,
    problem: PhantomData<E>,
}

impl<E: ArraySolutionEvaluator> SolutionsRuntimeArrayProcessor<E> {
    /// The generation that was recorded last.
    pub closed spec fn generation(&self) -> usize {
        self.current_iteration_num
    }

    /// A processor at generation 0.
    pub fn new() -> (processor: Self)
        ensures
            processor.generation() == 0,
    {
        SolutionsRuntimeArrayProcessor { current_iteration_num: 0, problem: PhantomData }
    }

    /// The generation that was recorded last.
    pub fn current_iteration(&self) -> (num: usize)
        ensures
            num == self.generation(),
    {
        self.current_iteration_num
    }
}

impl<E: ArraySolutionEvaluator> SolutionsRuntimeProcessor<
    ArraySolutionBuffer,
    ArraySolution<E>,
> for SolutionsRuntimeArrayProcessor<E> {
    /// Has every candidate compute its objectives, in the order given. A
    /// candidate whose evaluator changed the length of the objective vector
    /// is left with the placeholder of zeros, and the call reports a
    /// dimension mismatch once all candidates were tried.
    ///
    /// The contract speaks of the one call that is made of each candidate's
    /// evaluator, as that of `ArraySolution::calc_objectives` does.
    fn initialize_new_candidates(&mut self, candidates: Vec<&mut ArraySolution<E>>) -> (outcome:
        Result<(), ErrorKind>)
        ensures
            forall|i: int|
                #![trigger candidates@[i]]
                0 <= i < candidates@.len() ==> {
                    &&& final(candidates@[i]).genes() == candidates@[i].genes()
                    &&& final(candidates@[i]).search_space() == candidates@[i].search_space()
                    &&& final(candidates@[i]).evaluator() == candidates@[i].evaluator()
                    &&& exists|decision: Vec<i64>, written: &mut Vec<i64>|
                        {
                            &&& #[trigger] candidates@[i].asks(decision, written)
                            &&& outcome is Ok ==> mut_ref_future(written)@.len()
                                == candidates@[i].search_space().objective_count()
                            &&& final(candidates@[i]).fitness()
                                == candidates@[i].search_space().kept(mut_ref_future(written)@)
                        }
                },
            outcome is Err ==> {
                &&& outcome->Err_0 == ErrorKind::DimensionMismatch
                &&& exists|i: int, decision: Vec<i64>, written: &mut Vec<i64>|
                    {
                        &&& 0 <= i < candidates@.len()
                        &&& #[trigger] candidates@[i].asks(decision, written)
                        &&& mut_ref_future(written)@.len()
                            != candidates@[i].search_space().objective_count()
                    }
            },
            final(self).generation() == old(self).generation(),
    {
        let ghost all = candidates@;
        let mut outcome: Result<(), ErrorKind> = Ok(());
        for array_solution in it: candidates
            invariant
                it.seq() == all,
                forall|i: int|
                    #![trigger all[i]]
                    it.index() <= i < all.len() ==> all[i].well_formed(),
                forall|i: int|
                    #![trigger all[i]]
                    0 <= i < it.index() ==> {
                        &&& final(all[i]).well_formed()
                        &&& final(all[i]).genes() == all[i].genes()
                        &&& final(all[i]).search_space() == all[i].search_space()
                        &&& final(all[i]).evaluator() == all[i].evaluator()
                        &&& exists|decision: Vec<i64>, written: &mut Vec<i64>|
                            {
                                &&& #[trigger] all[i].asks(decision, written)
                                &&& outcome is Ok ==> mut_ref_future(written)@.len()
                                    == all[i].search_space().objective_count()
                                &&& final(all[i]).fitness() == all[i].search_space().kept(
                                    mut_ref_future(written)@,
                                )
                            }
                    },
                outcome is Err ==> {
                    &&& outcome->Err_0 == ErrorKind::DimensionMismatch
                    &&& exists|i: int, decision: Vec<i64>, written: &mut Vec<i64>|
                        {
                            &&& 0 <= i < it.index()
                            &&& #[trigger] all[i].asks(decision, written)
                            &&& mut_ref_future(written)@.len()
                                != all[i].search_space().objective_count()
                        }
                },
        {
            let ghost done = it.index();
            let ghost earlier = outcome;
            let ghost candidate = *array_solution;
            let evaluated = array_solution.calc_objectives();
            let ghost (decision, written) = choose|decision: Vec<i64>, written: &mut Vec<i64>|
                {
                    &&& #[trigger] candidate.asks(decision, written)
                    &&& evaluated is Ok <==> mut_ref_future(written)@.len()
                        == candidate.search_space().objective_count()
                    &&& array_solution.fitness() == candidate.search_space().kept(
                        mut_ref_future(written)@,
                    )
                };
            match evaluated {
                Ok(()) => {},
                Err(kind) => {
                    outcome = Err(kind);
                },
            }
            proof {
                assert(all[done].asks(decision, written));
                assert forall|i: int|
                    #![trigger all[i]]
                    0 <= i < done + 1 implies {
                        &&& final(all[i]).well_formed()
                        &&& final(all[i]).genes() == all[i].genes()
                        &&& final(all[i]).search_space() == all[i].search_space()
                        &&& final(all[i]).evaluator() == all[i].evaluator()
                        &&& exists|decision: Vec<i64>, written: &mut Vec<i64>|
                            {
                                &&& #[trigger] all[i].asks(decision, written)
                                &&& outcome is Ok ==> mut_ref_future(written)@.len()
                                    == all[i].search_space().objective_count()
                                &&& final(all[i]).fitness() == all[i].search_space().kept(
                                    mut_ref_future(written)@,
                                )
                            }
                    } by {
                    if i < done {
                        let (decision, written) = choose|
                            decision: Vec<i64>,
                            written: &mut Vec<i64>,
                        |
                            {
                                &&& #[trigger] all[i].asks(decision, written)
                                &&& earlier is Ok ==> mut_ref_future(written)@.len()
                                    == all[i].search_space().objective_count()
                                &&& final(all[i]).fitness() == all[i].search_space().kept(
                                    mut_ref_future(written)@,
                                )
                            };
                        assert(all[i].asks(decision, written));
                    }
                }
            }
        }
        outcome
    }

    /// Leaves every candidate as it is.
    fn iter_solutions(&mut self, _candidates: Vec<&mut ArraySolution<E>>)
        ensures
            forall|i: int|
                #![trigger _candidates@[i]]
                0 <= i < _candidates@.len() ==> *final(_candidates@[i]) == *_candidates@[i],
            final(self).generation() == old(self).generation(),
    {
    }

    fn iteration_num(&mut self, num: usize)
        ensures
            final(self).generation() == num,
    {
        self.current_iteration_num = num;
    }

    /// This processor never asks for an early stop.
    fn needs_early_stop(&mut self) -> (stop: bool)
        ensures
            !stop,
            final(self).generation() == old(self).generation(),
    {
        false
    }

    fn create_solutions_memory_buffer(&mut self) -> (buffer: ArraySolutionBuffer)
        ensures
            final(self).generation() == old(self).generation(),
    {
        SimpleNonbufferedAllocator {  }
    }
}

} // verus!
