use vstd::prelude::*;

verus! {

/// Control-flow signal from a component parser to the parser that composes it.
///
/// `Skip` means "this component did not start here; the caller may try the
/// next alternative". `Fatal` means "this component did start here but the
/// input is malformed; the caller must abort the whole parse".
pub enum SkipOrFatal<Skip, Fatal> {
    Skip(Skip),
    Fatal(Fatal),
}

/// Trait of the error type of a component parser: it classifies each error
/// value as a recoverable skip or a fatal failure.
pub trait IntoSkipOrFatal: Sized {
    type Skip;

    type Fatal;

    /// The classification, as a pure function of the error value.
    spec fn spec_into_skip_or_fatal(self) -> SkipOrFatal<Self::Skip, Self::Fatal>;

    /// Classifies the error.
    fn into_skip_or_fatal(self) -> (r: SkipOrFatal<Self::Skip, Self::Fatal>)
        ensures
            r == self.spec_into_skip_or_fatal(),
    ;
}

impl<Skip, Fatal> IntoSkipOrFatal for SkipOrFatal<Skip, Fatal> {
    type Skip = Skip;

    type Fatal = Fatal;

    open spec fn spec_into_skip_or_fatal(self) -> SkipOrFatal<Skip, Fatal> {
        self
    }

    fn into_skip_or_fatal(self) -> (r: SkipOrFatal<Skip, Fatal>) {
        self
    }
}

impl<Error> IntoSkipOrFatal for Option<Error> {
    type Skip = ();

    type Fatal = Error;

    open spec fn spec_into_skip_or_fatal(self) -> SkipOrFatal<(), Error> {
        match self {
            None => SkipOrFatal::Skip(()),
            Some(error) => SkipOrFatal::Fatal(error),
        }
    }

    fn into_skip_or_fatal(self) -> (r: SkipOrFatal<(), Error>) {
        match self {
            None => SkipOrFatal::Skip(()),
            Some(error) => SkipOrFatal::Fatal(error),
        }
    }
}

} // verus!
