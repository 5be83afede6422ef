use crate::enclosed::SimpleQuery;
use crate::respond::Respond;
use crate::utils::push_char;
use vstd::prelude::*;

verus! {

/// A segment of a parsed template: one literal character, or one query to be
/// resolved by a responder.
#[derive(Debug)]
pub enum Segment<Query> {
    Character(char),
    Expression(Query),
}

/// The abstract value of a [`Segment`]: a literal character, or the query
/// text between the delimiters.
pub enum SegmentModel {
    Character(char),
    Expression(Seq<char>),
}

impl<Query: View<V = Seq<char>>> View for Segment<Query> {
    type V = SegmentModel;

    open spec fn view(&self) -> SegmentModel {
        match self {
            Segment::Character(c) => SegmentModel::Character(*c),
            Segment::Expression(query) => SegmentModel::Expression(query@),
        }
    }
}

/// Returned upon the rendering of a [`Segment`]: the literal character
/// itself, or the responder's output for the query.
#[derive(Debug)]
pub enum SegmentDisplay<Output> {
    Character(char),
    ExpressionResult(Output),
}

impl<Output: View<V = Seq<char>>> View for SegmentDisplay<Output> {
    type V = Seq<char>;

    open spec fn view(&self) -> Seq<char> {
        match self {
            SegmentDisplay::Character(c) => seq![*c],
            SegmentDisplay::ExpressionResult(output) => output@,
        }
    }
}

impl SegmentDisplay<String> {
    /// The display text of this unit of output.
    pub fn into_text(self) -> (r: String)
        ensures
            r@ == self@,
    {
        match self {
            SegmentDisplay::Character(c) => {
                let mut text = String::new();
                push_char(&mut text, c);
                proof {
                    assert(text@ =~= seq![c]);
                }
                text
            },
            SegmentDisplay::ExpressionResult(output) => output,
        }
    }
}

/// What rendering one segment yields: the literal character becomes itself;
/// the query text is put to the responder, whose answer or error is taken
/// over unchanged.
pub open spec fn spec_render_segment<R: Respond>(segment: SegmentModel, responder: R) -> Result<
    Seq<char>,
    <R::Error as View>::V,
> {
    match segment {
        SegmentModel::Character(c) => Ok(seq![c]),
        SegmentModel::Expression(query) => responder.response(query),
    }
}

impl Segment<SimpleQuery> {
    /// An owned copy with the same abstract value.
    pub fn duplicate(&self) -> (segment: Self)
        ensures
            segment@ == self@,
    {
        match self {
            Segment::Character(c) => Segment::Character(*c),
            Segment::Expression(query) => Segment::Expression(query.duplicate()),
        }
    }

    /// Renders this segment: a literal character stands for itself; a query
    /// is sent to the responder, whose error ends the rendering.
    pub fn render<R: Respond>(self, respond: &mut R) -> (r: Result<
        SegmentDisplay<String>,
        R::Error,
    >)
        ensures
            (match r {
                Ok(display) => spec_render_segment(self@, *old(respond)) matches Ok(v) && display@
                    == v,
                Err(error) => spec_render_segment(self@, *old(respond)) matches Err(v) && error@
                    == v,
            }),
            forall|q: Seq<char>| #[trigger] final(respond).response(q) == old(respond).response(q),
    {
        match self {
            Segment::Character(c) => Ok(SegmentDisplay::Character(c)),
            Segment::Expression(query) => match respond.respond(query.as_str()) {
                Ok(output) => Ok(SegmentDisplay::ExpressionResult(output)),
                Err(error) => Err(error),
            },
        }
    }
}

} // verus!
