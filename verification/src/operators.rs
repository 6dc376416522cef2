//! The two genetic operators on sequences of genes: uniform crossover and
//! bounded mutation, each as a function of the genes and of the random
//! draws, and the drawing itself.

use crate::random::{gen_range_inclusive, gen_ratio};
use crate::search_space::SearchSpace;
use rand::rngs::ThreadRng;
use vstd::prelude::*;

verus! {

/// The genes of an offspring that starts as a copy of `second` and takes the
/// gene of `first` wherever `take_first` says so.
pub open spec fn uniform_mix(first: Seq<i64>, second: Seq<i64>, take_first: Seq<bool>) -> Seq<i64> {
    Seq::new(
        second.len(),
        |i: int|
            if take_first[i] {
                first[i]
            } else {
                second[i]
            },
    )
}

/// The genes after a mutation that gives gene `i` the value `redraws[i]`
/// where there is one, and keeps it where there is none.
pub open spec fn redrawn(genes: Seq<i64>, redraws: Seq<Option<i64>>) -> Seq<i64> {
    Seq::new(
        genes.len(),
        |i: int|
            match redraws[i] {
                Some(value) => value,
                None => genes[i],
            },
    )
}

/// A copy of `second` that has the gene of `first` wherever `take_first`
/// says so.
pub(crate) fn mixed(first: &Vec<i64>, second: &Vec<i64>, take_first: &Vec<bool>) -> (genes: Vec<i64>)
    requires
        first@.len() == second@.len(),
        take_first@.len() == second@.len(),
    ensures
        genes@ == uniform_mix(first@, second@, take_first@),
{
    let mut genes = second.clone();
    let mut i: usize = 0;
    while i < genes.len()
        invariant
            i <= genes@.len(),
            genes@.len() == second@.len(),
            first@.len() == second@.len(),
            take_first@.len() == second@.len(),
            forall|j: int| 0 <= j < i ==> genes@[j] == uniform_mix(first@, second@, take_first@)[j],
            forall|j: int| i <= j < genes@.len() ==> genes@[j] == second@[j],
        decreases genes@.len() - i,
    {
        if take_first[i] {
            genes[i] = first[i];
        }
        i += 1;
    }
    genes
}

/// Draws `len` fair coins.
pub(crate) fn draw_coins(rng: &mut ThreadRng, len: usize) -> (coins: Vec<bool>)
    ensures
        coins@.len() == len,
{
    let mut coins: Vec<bool> = Vec::with_capacity(len);
    let mut i: usize = 0;
    while i < len
        invariant
            i <= len,
            coins@.len() == i,
        decreases len - i,
    {
        coins.push(gen_ratio(rng, 1, 2));
        i += 1;
    }
    coins
}

/// Decides for each gene, with probability one in the number of genes,
/// whether it is drawn anew, and draws the new value between the bounds.
/// A gene that is the only one is drawn anew for certain.
pub(crate) fn draw_redraws(rng: &mut ThreadRng, space: SearchSpace) -> (redraws: Vec<Option<i64>>)
    requires
        space.valid(),
    ensures
        redraws@.len() == space.dimension(),
        space.admits(redraws@),
        space.dimension() == 1 ==> redraws@[0] is Some,
{
    let x_len = space.x_len();
    let denominator = x_len as u32;
    let mut redraws: Vec<Option<i64>> = Vec::with_capacity(x_len);
    let mut i: usize = 0;
    while i < x_len
        invariant
            i <= x_len,
            x_len == space.dimension(),
            denominator == x_len,
            space.valid(),
            redraws@.len() == i,
            space.admits(redraws@),
            x_len == 1 && i == 1 ==> redraws@[0] is Some,
        decreases x_len - i,
    {
        if gen_ratio(rng, 1, denominator) {
            let value = gen_range_inclusive(rng, space.min_x_value(), space.max_x_value());
            redraws.push(Some(value));
        } else {
            redraws.push(None);
        }
        i += 1;
    }
    redraws
}

/// Draws a decision vector with every gene between the bounds.
pub(crate) fn draw_genes(rng: &mut ThreadRng, space: SearchSpace) -> (genes: Vec<i64>)
    requires
        space.valid(),
    ensures
        genes@.len() == space.dimension(),
        space.within(genes@),
{
    let x_len = space.x_len();
    let mut genes: Vec<i64> = Vec::with_capacity(x_len);
    let mut i: usize = 0;
    while i < x_len
        invariant
            i <= x_len,
            x_len == space.dimension(),
            space.valid(),
            genes@.len() == i,
            space.within(genes@),
        decreases x_len - i,
    {
        genes.push(gen_range_inclusive(rng, space.min_x_value(), space.max_x_value()));
        i += 1;
    }
    genes
}

/// An offspring of uniform crossover has, at every position, the gene that
/// one of its parents has there: the first parent's where the coin says so,
/// the second parent's elsewhere.
pub proof fn lemma_mix_takes_genes_from_parents(
    first: Seq<i64>,
    second: Seq<i64>,
    take_first: Seq<bool>,
)
    ensures
        uniform_mix(first, second, take_first).len() == second.len(),
        forall|i: int|
            0 <= i < second.len() ==> #[trigger] uniform_mix(first, second, take_first)[i] == (
            if take_first[i] {
                first[i]
            } else {
                second[i]
            }),
        forall|i: int|
            0 <= i < second.len() ==> {
                ||| #[trigger] uniform_mix(first, second, take_first)[i] == first[i]
                ||| uniform_mix(first, second, take_first)[i] == second[i]
            },
{
}

/// With every coin saying "take", the offspring is the first parent; with
/// every coin saying "keep", it is the second. The coins of one offspring
/// say nothing of the other.
pub proof fn lemma_mix_with_constant_coins(first: Seq<i64>, second: Seq<i64>, coins: Seq<bool>)
    requires
        first.len() == second.len(),
        coins.len() == second.len(),
    ensures
        (forall|i: int| 0 <= i < coins.len() ==> coins[i]) ==> uniform_mix(first, second, coins)
            == first,
        (forall|i: int| 0 <= i < coins.len() ==> !coins[i]) ==> uniform_mix(first, second, coins)
            == second,
{
}

/// Uniform crossover of two parents whose genes lie between the bounds
/// gives an offspring whose genes lie between them too.
pub proof fn lemma_mix_keeps_bounds(
    space: SearchSpace,
    first: Seq<i64>,
    second: Seq<i64>,
    take_first: Seq<bool>,
)
    requires
        first.len() == second.len(),
        space.within(first),
        space.within(second),
    ensures
        space.within(uniform_mix(first, second, take_first)),
{
}

/// A mutation keeps the length of the decision vector, and keeps every gene
/// between the bounds if every drawn value lies between them.
pub proof fn lemma_redraw_keeps_bounds(
    space: SearchSpace,
    genes: Seq<i64>,
    redraws: Seq<Option<i64>>,
)
    requires
        redraws.len() == genes.len(),
        space.within(genes),
        space.admits(redraws),
    ensures
        redrawn(genes, redraws).len() == genes.len(),
        space.within(redrawn(genes, redraws)),
{
}

/// A bounded mutation keeps the length of the decision vector, and keeps
/// every gene between the bounds.
pub proof fn lemma_mutation_keeps_length_and_bounds(
    space: SearchSpace,
    before: Seq<i64>,
    after: Seq<i64>,
)
    requires
        space.within(before),
        space.mutates(before, after),
    ensures
        after.len() == before.len(),
        space.within(after),
{
    let redraws = choose|redraws: Seq<Option<i64>>|
        {
            &&& redraws.len() == before.len()
            &&& space.admits(redraws)
            &&& redraws.len() == 1 ==> redraws[0] is Some
            &&& after == #[trigger] redrawn(before, redraws)
        };
    lemma_redraw_keeps_bounds(space, before, redraws);
}

} // verus!
