use vstd::prelude::*;

verus! {

/// Delimiter configuration shared, read-only, by every parsing component.
///
/// `open_bracket` and `close_bracket` enclose a query; `escape`, when set, is
/// the character that starts a two-character escape sequence. A configuration
/// is well formed (`wf`) when the brackets differ and the escape trigger, if
/// any, equals neither bracket.
#[derive(Debug, Clone, Copy)]
pub struct ParserConfig {
    pub open_bracket: char,
    pub close_bracket: char,
    pub escape: Option<char>,
}

impl ParserConfig {
    /// The brackets differ and the escape trigger, if any, is no bracket.
    pub open spec fn wf(self) -> bool {
        &&& self.open_bracket != self.close_bracket
        &&& match self.escape {
            Some(trigger) => trigger != self.open_bracket && trigger != self.close_bracket,
            None => true,
        }
    }

    /// A configuration with curly braces as delimiters and no escape trigger.
    pub fn curly_braces() -> (config: Self)
        ensures
            config == (ParserConfig { open_bracket: '{', close_bracket: '}', escape: None }),
            config.wf(),
    {
        ParserConfig { open_bracket: '{', close_bracket: '}', escape: None }
    }

    /// Replaces the escape trigger.
    pub fn with_escape(self, escape: char) -> (config: Self)
        ensures
            config == (ParserConfig { escape: Some(escape), ..self }),
    {
        ParserConfig { escape: Some(escape), ..self }
    }

    /// Removes the escape trigger.
    pub fn without_escape(self) -> (config: Self)
        ensures
            config == (ParserConfig { escape: None, ..self }),
    {
        ParserConfig { escape: None, ..self }
    }
}

/// What a component parser consumes: the remaining input paired with the
/// active configuration. Recreated per parse step; never outlives the
/// template string.
#[derive(Clone, Copy)]
pub struct ComponentParserInput<'a> {
    pub text: &'a str,
    pub config: ParserConfig,
}

} // verus!
