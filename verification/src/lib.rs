//! Adapters that let a resumable computation be pulled like a sequence.

pub mod generator;
pub mod gen_iter;
pub mod gen_iter_return;

pub use generator::{deterministic, Generator, GeneratorState};
pub use gen_iter::GenIter;
pub use gen_iter_return::{completes_with, GenIterReturn, Progress};
