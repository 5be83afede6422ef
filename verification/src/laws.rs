//! The laws of the library, stated and proved once and for all inputs:
//! how parsing and rendering behave on plain text, how the lazy and the eager
//! paths agree, why a parsed template renders the same way every time, and
//! how escaping the delimiters round-trips through rendering.

use crate::enclosed::EnclosedTemplateParser;
use crate::enclosed::SegmentModel;
use crate::enclosed::SimpleEscapeParser;
use crate::enclosed::SimpleQueryParser;
use crate::enclosed::simple_escape::spec_escape_brackets;
use crate::enclosed::simple_escape::spec_escape_outcome;
use crate::enclosed::simple_query::spec_query_outcome;
use crate::enclosed::spec_parse_all;
use crate::enclosed::spec_parse_failure;
use crate::enclosed::spec_parse_step;
use crate::enclosed::spec_segments;
use crate::errors::IntoSkipOrFatal;
use crate::iter::ParsedTemplate;
use crate::parse::ComponentOutcome;
use crate::parse::Parse;
use crate::render::lemma_spec_render_congruence;
use crate::render::spec_render;
use crate::respond::Respond;
use vstd::prelude::*;

verus! {

/// The parser of the two reference components.
pub type SimpleParser = EnclosedTemplateParser<SimpleEscapeParser, SimpleQueryParser>;

/// A template with no delimiters and no escape triggers renders to itself,
/// whatever the responder: every character is consumed as a literal, parsing
/// cannot fail, and the responder is never consulted.
pub proof fn lemma_plain_text_renders_unchanged<R: Respond>(
    parser: SimpleParser,
    text: Seq<char>,
    responder: R,
)
    requires
        forall|i: int| 0 <= i < text.len() ==> text[i] != parser.config.open_bracket,
        forall|i: int| 0 <= i < text.len() ==> text[i] != parser.config.close_bracket,
        forall|i: int|
            0 <= i < text.len() ==> (parser.config.escape matches Some(trigger) ==> #[trigger]
            text[i] != trigger),
    ensures
        spec_parse_failure(parser, text) is None,
        spec_render(spec_segments(parser, text), responder).0 == text,
        spec_render(spec_segments(parser, text), responder).1 is None,
    decreases text.len(),
{
    if text.len() == 0 {
        assert(spec_render(spec_segments(parser, text), responder).0 =~= text);
    } else {
        assert(spec_escape_outcome(text, parser.config) is Skipped);
        assert(spec_query_outcome(text, parser.config) is Skipped);
        assert(spec_parse_step(parser, text) == Ok::<
            (SegmentModel, Seq<char>),
            crate::enclosed::ParseError<
                crate::enclosed::simple_escape::ParseError,
                crate::enclosed::simple_query::ParseError,
            >,
        >((SegmentModel::Character(text[0]), text.skip(1))));
        assert forall|i: int| 0 <= i < text.skip(1).len() implies text.skip(1)[i] == text[i
            + 1] by {}
        lemma_plain_text_renders_unchanged(parser, text.skip(1), responder);
        let segments = spec_segments(parser, text);
        let sub_segments = spec_segments(parser, text.skip(1));
        assert(segments == seq![SegmentModel::Character(text[0])] + sub_segments);
        assert(segments[0] == SegmentModel::Character(text[0]));
        assert(segments.skip(1) =~= sub_segments);
        assert(spec_render(segments, responder).0 =~= text);
    }
}

/// Lazy and eager parsing see the same template alike: when eager parsing
/// succeeds, lazy parsing yields exactly the same segments and no error, and
/// rendering those segments with responders of equal behavior produces the
/// same output either way.
pub proof fn lemma_lazy_eager_render_agree<EscapeParser, QueryParser, R: Respond>(
    parser: EnclosedTemplateParser<EscapeParser, QueryParser>,
    text: Seq<char>,
    segments: Seq<SegmentModel>,
    lazy_responder: R,
    eager_responder: R,
) where
    EscapeParser: Parse<Output = char>,
    QueryParser: Parse,
    QueryParser::Output: View<V = Seq<char>>,

    requires
        spec_parse_all(parser, text) == Ok::<
            Seq<SegmentModel>,
            crate::enclosed::ParseError<
                <EscapeParser::Error as IntoSkipOrFatal>::Fatal,
                <QueryParser::Error as IntoSkipOrFatal>::Fatal,
            >,
        >(segments),
        forall|q: Seq<char>|
            #[trigger] lazy_responder.response(q) == eager_responder.response(q),
    ensures
        spec_parse_failure(parser, text) is None,
        spec_segments(parser, text) == segments,
        spec_render(spec_segments(parser, text), lazy_responder) == spec_render(
            segments,
            eager_responder,
        ),
{
    lemma_spec_render_congruence(segments, lazy_responder, eager_responder);
}

/// Rendering an eagerly parsed template is repeatable: responders of equal
/// behavior — in particular the same responder again, since answering leaves
/// a responder's behavior unchanged — give the same output and the same
/// error both times.
pub proof fn lemma_eager_render_repeatable<R: Respond>(
    parsed: ParsedTemplate,
    first: R,
    second: R,
)
    requires
        forall|q: Seq<char>| #[trigger] first.response(q) == second.response(q),
    ensures
        spec_render(parsed@, first) == spec_render(parsed@, second),
{
    lemma_spec_render_congruence(parsed@, first, second);
}

/// Round trip: escaping every bracket in a text that is free of the escape
/// trigger, then rendering the escaped text as a template, gives that same
/// text back, whatever the responder.
pub proof fn lemma_escape_round_trip<R: Respond>(
    parser: SimpleParser,
    text: Seq<char>,
    responder: R,
)
    requires
        parser.config.wf(),
        parser.config.escape is Some,
        forall|i: int|
            0 <= i < text.len() ==> (parser.config.escape matches Some(trigger) ==> #[trigger]
            text[i] != trigger),
    ensures
        spec_parse_failure(parser, spec_escape_brackets(text, parser.config)) is None,
        spec_render(
            spec_segments(parser, spec_escape_brackets(text, parser.config)),
            responder,
        ).0 == text,
        spec_render(
            spec_segments(parser, spec_escape_brackets(text, parser.config)),
            responder,
        ).1 is None,
    decreases text.len(),
{
    let trigger = parser.config.escape->0;
    let escaped = spec_escape_brackets(text, parser.config);
    if text.len() == 0 {
        assert(spec_render(spec_segments(parser, escaped), responder).0 =~= text);
    } else {
        assert forall|i: int| 0 <= i < text.skip(1).len() implies text.skip(1)[i] == text[i
            + 1] by {}
        lemma_escape_round_trip(parser, text.skip(1), responder);
        let sub_escaped = spec_escape_brackets(text.skip(1), parser.config);
        let sub_segments = spec_segments(parser, sub_escaped);
        if text[0] == parser.config.open_bracket || text[0] == parser.config.close_bracket {
            assert(escaped == seq![trigger, text[0]] + sub_escaped);
            assert(escaped[0] == trigger);
            assert(escaped[1] == text[0]);
            assert(escaped.len() >= 2);
            assert(spec_escape_outcome(escaped, parser.config) == ComponentOutcome::Parsed::<
                char,
                crate::enclosed::simple_escape::ParseError,
            >(text[0], 2));
            assert(escaped.skip(2) =~= sub_escaped);
        } else {
            assert(escaped == seq![text[0]] + sub_escaped);
            assert(escaped[0] == text[0]);
            assert(spec_escape_outcome(escaped, parser.config) is Skipped);
            assert(spec_query_outcome(escaped, parser.config) is Skipped);
            assert(escaped.skip(1) =~= sub_escaped);
        }
        let segments = spec_segments(parser, escaped);
        assert(segments == seq![SegmentModel::Character(text[0])] + sub_segments);
        assert(segments[0] == SegmentModel::Character(text[0]));
        assert(segments.skip(1) =~= sub_segments);
        assert(spec_render(segments, responder).0 =~= text);
    }
}

} // verus!
