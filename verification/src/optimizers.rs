//! The boundary to the selection strategies.

use crate::{Solution, SolutionsRuntimeProcessor};
use vstd::prelude::*;

verus! {

/// A selection strategy that owns the loop over the generations.
pub trait Optimizer<Buffer, S: Solution<Buffer>> {
    /// What judges the progress of a run from outside.
    type Evaluator;

    /// The hooks that this strategy calls in every generation.
    type Processor: SolutionsRuntimeProcessor<Buffer, S>;

    /// The name of the strategy.
    fn name(&self) -> &str;

    /// Runs generations until the strategy's own rule or the processor's
    /// early stop ends the run.
    fn optimize(
        &mut self,
        eval: &mut Self::Evaluator,
        runtime_solutions_processor: &mut Self::Processor,
        buffer: &mut Buffer,
    );

    /// The solutions that no other found solution dominates, each with its
    /// objective vector.
    fn best_solutions(&self) -> Vec<(Vec<i64>, S)>;
}

} // verus!
