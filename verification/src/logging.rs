//! Verbosity-tagged logging, with composable filters in front of a sink.

use vstd::prelude::*;

verus! {

/// A sink for messages tagged with a verbosity level.
pub trait Logger {
    /// Log a message at the given verbosity level.
    fn log(&self, verbosity: u8, message: &str);
}

/// A logger that forwards to an inner logger only the messages that a
/// caller-supplied predicate accepts.
pub struct Filter<L, P> where P: Fn(u8, &str) -> bool {
    inner: L,
    predicate: P,
}

impl<L, P> Filter<L, P> where P: Fn(u8, &str) -> bool {
    /// The predicate can be asked about any level and message.
    #[verifier::type_invariant]
    spec fn predicate_total(self) -> bool {
        forall|verbosity: u8, message: &str| call_requires(self.predicate, (verbosity, message))
    }

    /// The wrapped logger.
    pub closed spec fn spec_inner(self) -> L {
        self.inner
    }

    /// The predicate in front of the wrapped logger.
    pub closed spec fn spec_predicate(self) -> P {
        self.predicate
    }
}

impl<L: Logger, P: Fn(u8, &str) -> bool> Filter<L, P> {
    /// Wrap an inner logger behind a filtering predicate.
    pub fn new(inner: L, predicate: P) -> (filter: Filter<L, P>)
        requires
            forall|verbosity: u8, message: &str| call_requires(predicate, (verbosity, message)),
        ensures
            filter.spec_inner() == inner,
            filter.spec_predicate() == predicate,
    {
        Filter { inner, predicate }
    }
}

impl<L: Logger, P: Fn(u8, &str) -> bool> Logger for Filter<L, P> {
    fn log(&self, verbosity: u8, message: &str) {
        proof {
            use_type_invariant(self);
        }
        if (self.predicate)(verbosity, message) {
            self.inner.log(verbosity, message);
        }
    }
}

/// A logger that forwards to an inner logger only the messages at or below
/// a maximum verbosity level.
pub struct VerbosityFilter<L> {
    pub max_verbosity: u8,
    pub inner: L,
}

impl<L: Logger> Logger for VerbosityFilter<L> {
    fn log(&self, verbosity: u8, message: &str) {
        if verbosity <= self.max_verbosity {
            self.inner.log(verbosity, message);
        }
    }
}

} // verus!
