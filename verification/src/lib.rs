//! A framework for population-based multi-objective optimisation.
//!
//! The crate fixes the contracts through which candidate solutions, problem
//! evaluators and selection strategies work together, and provides one
//! concrete encoding: a bounded integer decision vector with uniform
//! crossover and bounded mutation.

use vstd::prelude::*;

pub mod array_solution;
mod duplicate;
pub mod memory_buffer;
pub mod operators;
pub mod optimizers;
mod random;
pub mod search_space;

verus! {

/// The ways in which a caller can break the framework's rules.
#[derive(Clone, Copy, Debug, PartialEq, Eq, Structural)]
pub enum ErrorKind {
    /// A vector does not have the length that was declared for it.
    DimensionMismatch,
    /// A decision vector is declared empty or too long, bounds hold no value,
    /// or a value lies outside the bounds.
    InvalidConfiguration,
    /// A value was handed to a pool that cannot have given it out.
    PoolMisuse,
}

/// A probability written as numerator over denominator.
#[derive(Clone, Copy, Debug, PartialEq, Eq, Structural)]
pub struct Ratio(pub u32, pub u32);

/// A candidate solution that can be recombined with another and mutated.
///
/// `Buffer` is the resource from which an implementation may take the
/// storage of the solutions it builds.
pub trait Solution<Buffer>: Sized {
    /// The invariant of a solution.
    open spec fn well_formed(&self) -> bool {
        true
    }

    /// Whether the two solutions belong to one problem, so that their genes
    /// can be exchanged.
    open spec fn can_recombine(&self, other: &Self) -> bool {
        true
    }

    /// The length of the decision vector, for a solution that has one.
    open spec fn decision_len(&self) -> nat {
        0
    }

    /// Replaces the two parents by two offspring, each a recombination of both.
    fn crossover(&mut self, buffer: &mut Buffer, other: &mut Self)
        requires
            old(self).well_formed(),
            old(other).well_formed(),
            old(self).can_recombine(old(other)),
        ensures
            final(self).well_formed(),
            final(other).well_formed(),
            final(self).can_recombine(final(other)),
    ;

    /// Changes the solution at random, within what its problem allows. The
    /// decision vector keeps its length.
    fn mutate(&mut self, buffer: &mut Buffer)
        requires
            old(self).well_formed(),
        ensures
            final(self).well_formed(),
            final(self).decision_len() == old(self).decision_len(),
    ;
}

/// One scalar to optimise, read off a solution.
pub trait Objective<Buffer, S: Solution<Buffer>> {
    /// Whether this objective can be read off `candidate`.
    open spec fn defined_on(&self, candidate: &S) -> bool {
        true
    }

    /// The value of this objective for `candidate`.
    fn value(&self, candidate: &S) -> (val: i64)
        requires
            self.defined_on(candidate),
    ;

    /// Whether `val` is good enough to end the optimisation early.
    fn good_enough(&self, val: i64) -> (enough: bool);
}

/// One feasibility condition, measured on a solution.
pub trait Constraint<Buffer, S: Solution<Buffer>> {
    /// Whether this constraint can be measured on `candidate`.
    open spec fn defined_on(&self, candidate: &S) -> bool {
        true
    }

    /// By how much `candidate` violates the constraint.
    fn value(&self, candidate: &S) -> (val: i64)
        requires
            self.defined_on(candidate),
    ;

    /// Whether a violation of `val` still counts as feasible.
    fn satisfied(&self, val: i64) -> (feasible: bool);
}

/// The configuration of one run: sizes, rates, and where solutions, objectives
/// and constraints come from.
pub trait Meta<Buffer, S: Solution<Buffer>> {
    /// The kind of objective that this configuration derives.
    type Goal: Objective<Buffer, S>;

    /// The kind of constraint that this configuration carries.
    type Limit: Constraint<Buffer, S>;

    /// The invariant of the configuration.
    open spec fn well_formed(&self) -> bool {
        true
    }

    /// The number of solutions in a population.
    fn population_size(&self) -> (size: usize);

    /// The probability with which two parents are recombined.
    fn crossover_odds(&self) -> (odds: &Ratio);

    /// The probability with which an offspring is mutated.
    fn mutation_odds(&self) -> (odds: &Ratio);

    /// A new solution, drawn at random.
    fn random_solution(&mut self) -> (solution: S)
        requires
            old(self).well_formed(),
        ensures
            final(self).well_formed(),
            solution.well_formed(),
    ;

    /// The objectives, one for each entry of the objective vector.
    fn objectives(&self) -> (list: &Vec<Self::Goal>);

    /// The constraints.
    fn constraints(&self) -> (list: &Vec<Self::Limit>);
}

/// The hooks that an optimiser calls in every generation.
pub trait SolutionsRuntimeProcessor<Buffer, S: Solution<Buffer>> {
    /// Computes the objectives of new solutions. An error tells that some
    /// solution could not be evaluated.
    fn initialize_new_candidates(&mut self, candidates: Vec<&mut S>) -> (outcome: Result<
        (),
        ErrorKind,
    >)
        requires
            forall|i: int|
                #![trigger candidates@[i]]
                0 <= i < candidates@.len() ==> candidates@[i].well_formed(),
        ensures
            forall|i: int|
                #![trigger candidates@[i]]
                0 <= i < candidates@.len() ==> final(candidates@[i]).well_formed(),
    ;

    /// Looks at the population of the current generation.
    fn iter_solutions(&mut self, candidates: Vec<&mut S>)
        requires
            forall|i: int|
                #![trigger candidates@[i]]
                0 <= i < candidates@.len() ==> candidates@[i].well_formed(),
        ensures
            forall|i: int|
                #![trigger candidates@[i]]
                0 <= i < candidates@.len() ==> final(candidates@[i]).well_formed(),
    ;

    /// Records the number of the current generation.
    fn iteration_num(&mut self, num: usize);

    /// Whether the optimiser is to stop before the next generation.
    fn needs_early_stop(&mut self) -> (stop: bool);

    /// The buffer for the solutions of one run.
    fn create_solutions_memory_buffer(&mut self) -> (buffer: Buffer);
}

} // verus!
