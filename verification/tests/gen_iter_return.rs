use gen_iter::{GenIterReturn, Generator, GeneratorState};
use std::cell::RefCell;
use std::marker::PhantomPinned;
use std::pin::Pin;

/// Produces the numbers from `1` up to `last`, then completes with
/// `"done"`. Resuming it after completion is an error.
#[derive(Debug)]
struct UpTo {
    last: i32,
    resumed: i32,
}

impl UpTo {
    fn new(last: i32) -> Self {
        UpTo { last, resumed: 0 }
    }
}

impl Generator for UpTo {
    type Yield = i32;
    type Return = &'static str;

    fn resume(&mut self) -> GeneratorState<i32, &'static str> {
        assert!(self.resumed <= self.last, "resumed after completion");
        self.resumed += 1;
        if self.resumed <= self.last {
            GeneratorState::Yielded(self.resumed)
        } else {
            GeneratorState::Complete("done")
        }
    }
}

/// Counts down from its start to `1`, then completes with `"done"`; it may
/// be resumed after completion and completes again. It cannot be moved
/// once pinned.
#[derive(Debug)]
struct G(RefCell<i32>, PhantomPinned);

impl G {
    pub fn new(v: i32) -> Self {
        G(RefCell::new(v), PhantomPinned)
    }
}

impl Generator for Pin<Box<G>> {
    type Yield = i32;
    type Return = &'static str;

    fn resume(&mut self) -> GeneratorState<i32, &'static str> {
        let v = *self.0.borrow();
        if v > 0 {
            *self.0.borrow_mut() -= 1;
            GeneratorState::Yielded(v)
        } else {
            GeneratorState::Complete("done")
        }
    }
}

#[test]
fn gen_iter_return_it_works() {
    let mut g = GenIterReturn::new(UpTo::new(1));

    assert_eq!((&mut g).next(), Some(1));
    assert_eq!(g.is_complete(), false);

    g = g.try_get_return().expect_err("unexpected generator state: is_complete");

    assert_eq!((&mut g).next(), None);
    assert_eq!(g.is_complete(), true);

    assert_eq!((&mut g).next(), None);

    assert_eq!(g.try_get_return().ok(), Some("done"));
}

#[test]
fn from_generator() {
    let mut g = GenIterReturn::from(UpTo::new(1));

    assert_eq!((&mut g).next(), Some(1));
    assert_eq!((&mut g).next(), None);

    assert_eq!(g.is_complete(), true);
    assert_eq!(g.try_get_return().ok(), Some("done"));
}

#[test]
fn macro_usage() {
    let mut g = GenIterReturn::new(UpTo::new(2));

    let (mut sum, mut count) = (0, 0);
    while let Some(y) = g.next() {
        sum += y;
        count += 1;
    }
    assert_eq!((sum, count), (3, 2));

    assert_eq!(g.is_complete(), true);
    assert_eq!(g.try_get_return().ok(), Some("done"));
}

#[test]
fn impl_generator_not_unpin() {
    let pin_g = Box::pin(G::new(1));
    let mut g = GenIterReturn::new(pin_g);

    assert_eq!((&mut g).next(), Some(1));
    assert_eq!(g.is_complete(), false);

    g = g.try_get_return().expect_err("unexpected generator state: is_complete");

    assert_eq!((&mut g).next(), None);
    assert_eq!(g.is_complete(), true);

    assert_eq!((&mut g).next(), None);

    assert_eq!(g.try_get_return().ok(), Some("done"));
}

#[test]
fn one_two_done_in_full() {
    let mut g = GenIterReturn::new(UpTo::new(2));

    assert_eq!(g.is_complete(), false);
    assert_eq!(g.next(), Some(1));
    assert_eq!(g.is_complete(), false);
    assert_eq!(g.next(), Some(2));
    assert_eq!(g.is_complete(), false);

    g = match g.try_get_return() {
        Ok(_) => panic!("no result is due before the computation has finished"),
        Err(same) => same,
    };
    assert_eq!(g.is_complete(), false);

    assert_eq!(g.next(), None);
    assert_eq!(g.is_complete(), true);
    assert_eq!(g.try_get_return().ok(), Some("done"));
}

#[test]
fn pulls_after_done_never_resume() {
    let mut g = GenIterReturn::new(UpTo::new(2));
    assert_eq!(g.next(), Some(1));
    assert_eq!(g.next(), Some(2));
    assert_eq!(g.next(), None);

    let mut n: u32 = 0;
    while n < 1000 {
        assert_eq!(g.next(), None);
        assert_eq!(g.is_complete(), true);
        n += 1;
    }
    assert_eq!(g.try_get_return().ok(), Some("done"));
}

#[test]
fn running_adapter_comes_back_unchanged() {
    let g = GenIterReturn::new(UpTo::new(3));
    let mut g = g.try_get_return().expect_err("nothing was pulled yet");
    assert_eq!(g.next(), Some(1));
    let mut g = g.try_get_return().expect_err("two values are still to come");
    assert_eq!(g.next(), Some(2));
    assert_eq!(g.next(), Some(3));
    assert_eq!(g.next(), None);
    assert_eq!(g.try_get_return().ok(), Some("done"));
}

#[test]
fn immediate_completion() {
    let mut g = GenIterReturn::new(UpTo::new(0));
    assert_eq!(g.is_complete(), false);
    assert_eq!(g.next(), None);
    assert_eq!(g.is_complete(), true);
    assert_eq!(g.next(), None);
    assert_eq!(g.try_get_return().ok(), Some("done"));
}

#[test]
fn into_gen_iter_return() {
    let mut g: GenIterReturn<UpTo> = UpTo::new(1).into();
    assert_eq!(g.is_complete(), false);
    assert_eq!(g.next(), Some(1));
    assert_eq!(g.next(), None);
    assert_eq!(g.try_get_return().ok(), Some("done"));
}
