//! The selector: one exercise drawn at random from the candidates of a level.

use vstd::prelude::*;
use rand::rngs::ThreadRng;
use rand::seq::SliceRandom;
use crate::names::names_of;

verus! {

/// `rand::rngs::ThreadRng`, the handle to the random number generator of the
/// running thread. It is carried through; nothing is known of what it holds.
#[verifier::external_type_specification]
#[verifier::external_body]
pub struct ExThreadRng(rand::rngs::ThreadRng);

/// `rand::rng()`: a handle to the generator of the running thread, which the
/// operating system seeds. Nothing is claimed of the handle. The call panics
/// where the operating system gives the thread's generator no seed.
#[verifier::external_body]
fn thread_generator() -> (generator: ThreadRng) {
    rand::rng()
}

/// `rand::seq::SliceRandom::shuffle` on the slice of `names`: it rearranges
/// the slice in place by swapping its elements. Claimed: afterwards `names`
/// holds the same elements as before, each as often. Which arrangement comes
/// out is left open. The call panics where the generator is due for a new
/// seed and the operating system gives none.
#[verifier::external_body]
fn shuffle(names: &mut Vec<String>, generator: &mut ThreadRng)
    ensures
        final(names)@.to_multiset() == old(names)@.to_multiset(),
{
    names.shuffle(generator);
}

/// The exercise that a shuffled list of candidates yields: its last.
pub fn take_last(shuffled: Vec<String>) -> (last: String)
    requires
        shuffled.len() > 0,
    ensures
        last == shuffled@.last(),
{
    let mut shuffled = shuffled;
    match shuffled.pop() {
        Some(last) => last,
        None => String::new(),
    }
}

/// Draws exercises at random. Each draw is made afresh: none depends on an
/// earlier one.
pub struct Selector {
    generator: ThreadRng,
}

impl Selector {
    /// A selector on the random number generator of the running thread.
    pub fn new() -> (selector: Selector) {
        Selector { generator: thread_generator() }
    }

    /// One of `candidates`, drawn at random.
    pub fn pick(&mut self, candidates: Vec<String>) -> (chosen: String)
        requires
            candidates.len() > 0,
        ensures
            candidates@.contains(chosen),
            names_of(candidates@).contains(chosen@),
    {
        broadcast use vstd::seq_lib::group_to_multiset_ensures;

        let mut shuffled = candidates;
        shuffle(&mut shuffled, &mut self.generator);
        proof {
            shuffled@.to_multiset_ensures();
            candidates@.to_multiset_ensures();
            let last = shuffled@.last();
            assert(shuffled@.to_multiset().count(last) > 0);
            let i = choose|i: int| 0 <= i < candidates@.len() && candidates@[i] == last;
            assert(names_of(candidates@)[i] == last@);
        }
        take_last(shuffled)
    }

    /// One of `candidates`, drawn at random, or nothing where there is no
    /// candidate: then no draw is made.
    pub fn draw(&mut self, candidates: Vec<String>) -> (drawn: Option<String>)
        ensures
            drawn is None <==> candidates.len() == 0,
            drawn matches Some(chosen) ==> candidates@.contains(chosen) && names_of(
                candidates@,
            ).contains(chosen@),
    {
        if candidates.len() == 0 {
            None
        } else {
            Some(self.pick(candidates))
        }
    }
}

} // verus!
