use crate::enclosed::Segment;
use crate::enclosed::SegmentModel;
use crate::enclosed::SimpleQuery;
use crate::iter::SegmentSource;
use crate::template::Template;
use vstd::prelude::*;

verus! {

/// An eagerly parsed template: an owned, ordered sequence of segments,
/// validated once and rendered any number of times with different responders.
#[derive(Debug)]
pub struct ParsedTemplate {
    pub segments: Vec<Segment<SimpleQuery>>,
}

impl View for ParsedTemplate {
    type V = Seq<SegmentModel>;

    open spec fn view(&self) -> Seq<SegmentModel> {
        self.segments@.map_values(|segment: Segment<SimpleQuery>| segment@)
    }
}

impl ParsedTemplate {
    /// Wraps a validated sequence of segments.
    pub(crate) fn new(segments: Vec<Segment<SimpleQuery>>) -> (parsed: Self)
        ensures
            parsed.segments == segments,
    {
        ParsedTemplate { segments }
    }

    /// A fresh rendering session over the parsed segments.
    pub fn to_template<'a>(&'a self) -> (template: Template<EagerParseIter<'a>>)
        ensures
            template.iter.upcoming() == self@,
            template.iter.failure() is None,
    {
        Template::new(self.iter())
    }

    /// A fresh cursor over the parsed segments.
    pub fn iter<'a>(&'a self) -> (iter: EagerParseIter<'a>)
        ensures
            iter.upcoming() == self@,
            iter.failure() is None,
    {
        let iter = EagerParseIter { segments: &self.segments, index: 0 };
        proof {
            assert(iter.upcoming() =~= self@);
        }
        iter
    }
}

/// A cursor over the segments of an eagerly parsed template. Parsing is
/// already done, so this source never yields a parse error.
#[derive(Debug, Clone, Copy)]
pub struct EagerParseIter<'a> {
    pub segments: &'a Vec<Segment<SimpleQuery>>,
    pub index: usize,
}

impl<'a> SegmentSource for EagerParseIter<'a> {
    type ParseError = ();

    open spec fn upcoming(&self) -> Seq<SegmentModel> {
        if self.index <= self.segments@.len() {
            self.segments@.map_values(|segment: Segment<SimpleQuery>| segment@).skip(
                self.index as int,
            )
        } else {
            Seq::empty()
        }
    }

    open spec fn failure(&self) -> Option<()> {
        None
    }

    fn next_segment(&mut self) -> (r: Option<Result<Segment<SimpleQuery>, ()>>) {
        if self.index < self.segments.len() {
            let segment = self.segments[self.index].duplicate();
            proof {
                let mapped = self.segments@.map_values(|s: Segment<SimpleQuery>| s@);
                assert(mapped.skip(self.index as int)[0] == mapped[self.index as int]);
                assert(mapped.skip(self.index as int).skip(1) =~= mapped.skip(self.index + 1));
            }
            self.index = self.index + 1;
            Some(Ok(segment))
        } else {
            None
        }
    }
}

} // verus!
