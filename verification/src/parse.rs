use crate::enclosed::ComponentParserInput;
use crate::enclosed::ParserConfig;
use crate::errors::IntoSkipOrFatal;
use crate::errors::SkipOrFatal;
use vstd::prelude::*;

verus! {

/// The abstract outcome of running one component parser on given input:
/// either the component matched a prefix (producing a value and consuming a
/// positive number of characters), or it declined, or it matched its start
/// but found the input malformed.
pub enum ComponentOutcome<Output, Fatal> {
    Parsed(Output, int),
    Skipped,
    Failed(Fatal),
}

/// A component outcome fits its input: a successful parse consumes at least
/// one character and no more than the whole input.
pub open spec fn outcome_wf<Output, Fatal>(
    outcome: ComponentOutcome<Output, Fatal>,
    text: Seq<char>,
) -> bool {
    match outcome {
        ComponentOutcome::Parsed(_, consumed) => 1 <= consumed <= text.len(),
        _ => true,
    }
}

/// The contract every component parser implements: consume a prefix of the
/// remaining input, or decline, or fail fatally — exactly as its abstract
/// description `spec_parse` says.
pub trait Parse: Sized {
    type Output: View;

    type Error: IntoSkipOrFatal;

    /// What this component does on the given input, as a pure function.
    spec fn spec_parse(&self, text: Seq<char>, config: ParserConfig) -> ComponentOutcome<
        <Self::Output as View>::V,
        <Self::Error as IntoSkipOrFatal>::Fatal,
    >;

    /// A successful component parse consumes at least one character, so the
    /// remaining input is a strict suffix of the input.
    proof fn lemma_spec_parse_wf(&self, text: Seq<char>, config: ParserConfig)
        ensures
            outcome_wf(self.spec_parse(text, config), text),
    ;

    /// Parses a prefix of the remaining input, returning the produced value
    /// and the unconsumed suffix, or this component's own error.
    fn parse<'a>(&self, input: ComponentParserInput<'a>) -> (r: Result<
        (Self::Output, &'a str),
        Self::Error,
    >)
        ensures
            match self.spec_parse(input.text@, input.config) {
                ComponentOutcome::Parsed(v, consumed) => r matches Ok(pair) && pair.0@ == v
                    && pair.1@ == input.text@.skip(consumed),
                ComponentOutcome::Skipped => r matches Err(e) && (e.spec_into_skip_or_fatal()
                    matches SkipOrFatal::Skip(_)),
                ComponentOutcome::Failed(f) => r matches Err(e) && (e.spec_into_skip_or_fatal()
                    matches SkipOrFatal::Fatal(g) && g == f),
            },
    ;

    /// Parses as one alternative among several: a skip becomes `None` so the
    /// caller can try the next component, while a fatal error is raised.
    fn parse_as_component<'a>(&self, input: ComponentParserInput<'a>) -> (r: Result<
        Option<(Self::Output, &'a str)>,
        <Self::Error as IntoSkipOrFatal>::Fatal,
    >)
        ensures
            match self.spec_parse(input.text@, input.config) {
                ComponentOutcome::Parsed(v, consumed) => r matches Ok(Some(pair)) && pair.0@ == v
                    && pair.1@ == input.text@.skip(consumed),
                ComponentOutcome::Skipped => r matches Ok(None),
                ComponentOutcome::Failed(f) => r matches Err(g) && g == f,
            },
    {
        match self.parse(input) {
            Ok(pair) => Ok(Some(pair)),
            Err(error) => match error.into_skip_or_fatal() {
                SkipOrFatal::Skip(_) => Ok(None),
                SkipOrFatal::Fatal(fatal) => Err(fatal),
            },
        }
    }
}

} // verus!
