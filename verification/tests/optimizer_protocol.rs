use moea::array_solution::{
    ArrayOptimizerParams, ArraySolution, ArraySolutionBuffer, ArraySolutionEvaluator,
    SolutionsRuntimeArrayProcessor,
};
use moea::optimizers::Optimizer;
use moea::{Constraint, ErrorKind, Meta, Objective, Ratio, Solution, SolutionsRuntimeProcessor};

/// Two objectives that pull apart: the sum of the genes, and the sum of
/// their distances from the upper bound.
#[derive(Clone)]
struct Spread {
    genes: usize,
    upper: i64,
}

impl ArraySolutionEvaluator for Spread {
    fn calculate_objectives(&self, x: &Vec<i64>, f: &mut Vec<i64>) {
        f[0] = x.iter().sum();
        f[1] = x.iter().map(|v| self.upper - v).sum();
    }

    fn x_len(&self) -> usize {
        self.genes
    }

    fn objectives_len(&self) -> usize {
        2
    }

    fn min_x_value(&self) -> i64 {
        0
    }

    fn max_x_value(&self) -> i64 {
        self.upper
    }
}

#[derive(Clone)]
struct Resizing;

impl ArraySolutionEvaluator for Resizing {
    fn calculate_objectives(&self, _x: &Vec<i64>, f: &mut Vec<i64>) {
        f.push(1);
    }

    fn x_len(&self) -> usize {
        3
    }

    fn objectives_len(&self) -> usize {
        2
    }

    fn min_x_value(&self) -> i64 {
        0
    }

    fn max_x_value(&self) -> i64 {
        9
    }
}

struct Unbounded;

impl<E: ArraySolutionEvaluator> Constraint<ArraySolutionBuffer, ArraySolution<E>> for Unbounded {
    fn value(&self, _candidate: &ArraySolution<E>) -> i64 {
        0
    }

    fn satisfied(&self, _val: i64) -> bool {
        true
    }
}

/// Says when a run has lasted long enough.
struct Generations(usize);

/// Keeps the solution with the greatest first objective and the one with
/// the greatest second objective that it has seen.
struct Extremes {
    params: ArrayOptimizerParams<Spread, Unbounded>,
    best: Vec<(Vec<i64>, ArraySolution<Spread>)>,
    generations_run: usize,
}

impl Extremes {
    fn keep_extremes(&mut self, population: &Vec<ArraySolution<Spread>>) {
        let goals = self.params.objectives();
        let mut best = Vec::new();
        for goal in goals.iter() {
            let top = population.iter().max_by_key(|s| goal.value(s)).unwrap();
            best.push((top.f().clone(), top.clone()));
        }
        self.best = best;
    }
}

impl Optimizer<ArraySolutionBuffer, ArraySolution<Spread>> for Extremes {
    type Evaluator = Generations;

    type Processor = SolutionsRuntimeArrayProcessor<Spread>;

    fn name(&self) -> &str {
        "extremes"
    }

    fn optimize(
        &mut self,
        eval: &mut Generations,
        runtime_solutions_processor: &mut SolutionsRuntimeArrayProcessor<Spread>,
        buffer: &mut ArraySolutionBuffer,
    ) {
        let size = self.params.population_size();
        let mut population: Vec<ArraySolution<Spread>> = Vec::new();
        for _ in 0..size {
            population.push(self.params.random_solution());
        }
        let outcome =
            runtime_solutions_processor.initialize_new_candidates(population.iter_mut().collect());
        assert_eq!(outcome, Ok(()));
        let mut generation = 0;
        loop {
            runtime_solutions_processor.iteration_num(generation);
            if generation >= eval.0 || runtime_solutions_processor.needs_early_stop() {
                break;
            }
            for pair in population.chunks_mut(2) {
                if let [first, second] = pair {
                    first.crossover(buffer, second);
                }
            }
            for solution in population.iter_mut() {
                solution.mutate(buffer);
            }
            let outcome = runtime_solutions_processor
                .initialize_new_candidates(population.iter_mut().collect());
            assert_eq!(outcome, Ok(()));
            runtime_solutions_processor.iter_solutions(population.iter_mut().collect());
            for solution in population.iter() {
                let space = solution.space();
                assert_eq!(solution.x().len(), space.x_len());
                assert_eq!(solution.f().len(), space.objectives_len());
                assert!(space.holds(solution.x()));
                assert_eq!(solution.f()[0], solution.x().iter().sum::<i64>());
                assert_eq!(solution.f()[0] + solution.f()[1], 5 * 100);
            }
            generation += 1;
        }
        self.generations_run = generation;
        self.keep_extremes(&population);
    }

    fn best_solutions(&self) -> Vec<(Vec<i64>, ArraySolution<Spread>)> {
        self.best.clone()
    }
}

#[test]
fn a_strategy_runs_the_protocol_over_generations() {
    let problem = Spread { genes: 5, upper: 100 };
    let params = ArrayOptimizerParams::new(12, Ratio(1, 2), Ratio(3, 10), problem).unwrap();
    let mut strategy = Extremes { params, best: Vec::new(), generations_run: 0 };
    let mut processor = SolutionsRuntimeArrayProcessor::new();
    let mut buffer = processor.create_solutions_memory_buffer();
    strategy.optimize(&mut Generations(8), &mut processor, &mut buffer);
    assert_eq!(strategy.name(), "extremes");
    assert_eq!(strategy.generations_run, 8);
    assert_eq!(processor.current_iteration(), 8);
    let best = strategy.best_solutions();
    assert_eq!(best.len(), 2);
    for (objectives, solution) in best.iter() {
        assert_eq!(objectives, solution.f());
        assert_eq!(objectives[0], solution.x().iter().sum::<i64>());
        assert_eq!(objectives[1], solution.x().iter().map(|v| 100 - v).sum::<i64>());
    }
    assert!(best[0].0[0] >= best[1].0[0]);
    assert!(best[1].0[1] >= best[0].0[1]);
}

#[test]
fn a_run_of_no_generation_evaluates_the_first_population() {
    let problem = Spread { genes: 2, upper: 3 };
    let params = ArrayOptimizerParams::new(4, Ratio(1, 2), Ratio(3, 10), problem).unwrap();
    let mut strategy = Extremes { params, best: Vec::new(), generations_run: 0 };
    let mut processor = SolutionsRuntimeArrayProcessor::new();
    let mut buffer = processor.create_solutions_memory_buffer();
    strategy.optimize(&mut Generations(0), &mut processor, &mut buffer);
    assert_eq!(processor.current_iteration(), 0);
    for (objectives, solution) in strategy.best_solutions().iter() {
        assert_eq!(objectives[0] + objectives[1], 6);
        assert!(solution.space().holds(solution.x()));
    }
}

#[test]
fn params_reject_an_evaluator_that_resizes_the_objectives() {
    let outcome: Result<ArrayOptimizerParams<Resizing, Unbounded>, ErrorKind> =
        ArrayOptimizerParams::new(4, Ratio(1, 2), Ratio(3, 10), Resizing);
    assert_eq!(outcome.err(), Some(ErrorKind::DimensionMismatch));
}

#[test]
fn clone_of_a_solution_is_independent() {
    let problem = Spread { genes: 3, upper: 10 };
    let mut params: ArrayOptimizerParams<Spread, Unbounded> =
        ArrayOptimizerParams::new(4, Ratio(1, 2), Ratio(3, 10), problem).unwrap();
    let mut source = params.random_solution();
    assert_eq!(source.calc_objectives(), Ok(()));
    let copy = source.clone();
    assert_eq!(copy.x(), source.x());
    assert_eq!(copy.f(), source.f());
    assert_eq!(copy.space(), source.space());
    let kept = copy.x().clone();
    assert_eq!(source.apply_redraws(&vec![Some(0), Some(0), Some(0)]), Ok(()));
    assert_eq!(source.apply_redraws(&vec![Some(10), None, None]), Ok(()));
    assert_eq!(source.x(), &vec![10, 0, 0]);
    assert_eq!(copy.x(), &kept);
}
