//! What is made of the packets: images.
use core::marker::PhantomData;
use vstd::prelude::*;

pub mod color;
pub mod depth;
pub mod mat;

pub use mat::Mat;

use crate::error::Error;
use crate::packet::DepthPacket;

verus! {

/// Something that makes an output of an input, or fails.
pub trait ProcessorTrait<I, O> {
    /// What the processor promises of a run on `input` that ended with
    /// `outcome`, the output or the failure: nothing, unless the processor
    /// says more.
    open spec fn yields(&self, input: I, outcome: Result<O, Error>) -> bool {
        true
    }

    /// Makes the output of `input`, or fails.
    fn process(&self, input: I) -> (output: Result<O, Error>)
        ensures
            self.yields(input, output),
    ;
}

/// An input that can be handed to a processor.
pub trait ProcessTrait: Sized {
    /// Hands the input to `processor`: the outcome is an outcome of the
    /// processor's run on the input.
    fn process<O, P: ProcessorTrait<Self, O>>(self, processor: &P) -> (output: Result<O, Error>)
        ensures
            processor.yields(self, output),
    ;
}

/// A processor that takes anything and makes nothing of it.
pub struct NoopProcessor;

impl<T> ProcessorTrait<T, ()> for NoopProcessor {
    /// A run never fails.
    open spec fn yields(&self, input: T, outcome: Result<(), Error>) -> bool {
        outcome is Ok
    }

    fn process(&self, input: T) -> (output: Result<(), Error>) {
        Ok(())
    }
}

/// Two processors in a row: what the first makes goes to the second.
pub struct PipedProcessor<'a, 'b, I, T, O, Head, Tail> where
    Head: ProcessorTrait<I, T>,
    Tail: ProcessorTrait<T, O>,
 {
    _input: PhantomData<I>,
    _tmp: PhantomData<T>,
    _output: PhantomData<O>,
    processor1: &'a Head,
    processor2: &'b Tail,
}

impl<'a, 'b, I, T, O, Head, Tail> PipedProcessor<'a, 'b, I, T, O, Head, Tail> where
    Head: ProcessorTrait<I, T>,
    Tail: ProcessorTrait<T, O>,
 {
    /// The first of the two processors.
    pub closed spec fn first(&self) -> &'a Head {
        self.processor1
    }

    /// The second of the two processors.
    pub closed spec fn second(&self) -> &'b Tail {
        self.processor2
    }

    /// `processor1` followed by `processor2`.
    pub fn pipe(processor1: &'a Head, processor2: &'b Tail) -> (piped: Self)
        ensures
            piped.first() == processor1,
            piped.second() == processor2,
    {
        PipedProcessor {
            _input: PhantomData,
            _tmp: PhantomData,
            _output: PhantomData,
            processor1,
            processor2,
        }
    }
}

impl<'a, 'b, I, T, O, Head, Tail> ProcessorTrait<I, O> for PipedProcessor<'a, 'b, I, T, O, Head, Tail> where
    Head: ProcessorTrait<I, T>,
    Tail: ProcessorTrait<T, O>,
 {
    /// The first processor ran on the input. Where it failed, its failure
    /// is the outcome. Where it made something, the outcome is an outcome of
    /// the second processor's run on what it made.
    open spec fn yields(&self, input: I, outcome: Result<O, Error>) -> bool {
        exists|first: Result<T, Error>| #[trigger]
            self.first().yields(input, first) && match first {
                Ok(between) => self.second().yields(between, outcome),
                Err(error) => outcome == Err::<O, Error>(error),
            }
    }

    fn process(&self, input: I) -> (output: Result<O, Error>) {
        let first = self.processor1.process(input);
        let output = match first {
            Ok(between) => self.processor2.process(between),
            Err(error) => Err(error),
        };
        proof {
            assert(self.first().yields(input, first) && match first {
                Ok(between) => self.second().yields(between, output),
                Err(error) => output == Err::<O, Error>(error),
            });
        }
        output
    }
}

impl ProcessTrait for DepthPacket {
    fn process<O, P: ProcessorTrait<Self, O>>(self, processor: &P) -> (output: Result<O, Error>) {
        processor.process(self)
    }
}

} // verus!
