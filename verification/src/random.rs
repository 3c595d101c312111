//! The random source that every generation step draws from.
//!
//! The generator itself is `rand`'s `StdRng`. It is reached only through the
//! few functions of this file that Verus takes on trust. Of a source made of
//! a seed it is known which generator it starts from; of a draw nothing is
//! ever claimed but the range it lies in.

use vstd::prelude::*;
use rand::rngs::{OsRng, StdRng};
use rand::{Rng, SeedableRng};
use std::cell::RefCell;
use std::rc::Rc;

verus! {

/// `rand::rngs::StdRng`. Its state is hidden from the proofs.
#[verifier::external_type_specification]
#[verifier::external_body]
pub struct ExStdRng(StdRng);

/// `std::cell::RefCell`. What it holds is hidden from the proofs.
#[verifier::external_type_specification]
#[verifier::external_body]
#[verifier::reject_recursive_types(T)]
pub struct ExRefCell<T: ?Sized>(RefCell<T>);

/// `RefCell::new` wraps a value; nothing more is claimed.
pub assume_specification<T>[ RefCell::<T>::new ](value: T) -> (cell: RefCell<T>)
;

/// The generator that `SeedableRng::seed_from_u64` makes of a seed for
/// `StdRng`: the seed alone fixes its state, and with it every draw.
pub uninterp spec fn seeded_generator(seed: u64) -> StdRng;

/// `SeedableRng::seed_from_u64` for `StdRng`: the generator that
/// [`seeded_generator`] names. Nothing more is claimed of it.
#[verifier::external_body]
fn generator_from_seed(seed: u64) -> (generator: StdRng)
    ensures
        generator == seeded_generator(seed),
{
    StdRng::seed_from_u64(seed)
}

/// `SeedableRng::from_rng` for `StdRng`, fed by `OsRng`: a generator seeded by
/// the operating system, or `None` where the system hands out no random bytes.
#[verifier::external_body]
fn generator_from_os() -> (generator: Option<StdRng>) {
    StdRng::from_rng(OsRng).ok()
}

/// `Rng::gen_range` on the generator in `cell`, over `low..high`. The range
/// must hold a number, or the call panics; the draw lies in the range. The
/// cell is borrowed for the length of this call only, and no one outside this
/// file can reach it, so the borrow cannot fail.
#[verifier::external_body]
fn draw_from(cell: &RefCell<StdRng>, low: u64, high: u64) -> (sample: u64)
    requires
        low < high,
    ensures
        low <= sample < high,
{
    cell.borrow_mut().gen_range(low..high)
}

/// A handle on a random generator. Handles made by [`RandomSource::share`]
/// draw from the same generator: a draw through one of them moves the stream
/// on for all of them.
pub struct RandomSource {
    cell: Rc<RefCell<StdRng>>,
    start: Ghost<StdRng>,
}

impl RandomSource {
    /// The generator as it was when the source was made, before any draw.
    pub closed spec fn start(&self) -> StdRng {
        self.start@
    }

    /// A source that starts from the generator that `seed` fixes: two sources
    /// made of the same seed give the same draws for the same requests.
    pub fn from_seed(seed: u64) -> (source: RandomSource)
        ensures
            source.start() == seeded_generator(seed),
    {
        let generator = generator_from_seed(seed);
        let start = Ghost(generator);
        RandomSource { cell: Rc::new(RefCell::new(generator)), start }
    }

    /// A generator seeded by the operating system. Should the system refuse,
    /// the generator is the one that `from_seed(0)` gives.
    pub fn from_entropy() -> (source: RandomSource) {
        let generator = match generator_from_os() {
            Some(generator) => generator,
            None => generator_from_seed(0),
        };
        let start = Ghost(generator);
        RandomSource { cell: Rc::new(RefCell::new(generator)), start }
    }

    /// Another handle on the same generator.
    pub fn share(&self) -> (handle: RandomSource)
        ensures
            handle == *self,
    {
        RandomSource { cell: Rc::clone(&self.cell), start: self.start }
    }

    /// A number with `low <= sample < high`, each with the same chance.
    pub fn gen_range(&self, low: u64, high: u64) -> (sample: u64)
        requires
            low < high,
        ensures
            low <= sample < high,
    {
        draw_from(&self.cell, low, high)
    }

    /// A draw from `low..high`, or `None` where the range holds no number.
    pub fn draw(&self, low: u64, high: u64) -> (sample: Option<u64>)
        ensures
            low < high <==> sample is Some,
            sample matches Some(number) ==> low <= number < high,
    {
        if low < high {
            Some(self.gen_range(low, high))
        } else {
            None
        }
    }
}

} // verus!
