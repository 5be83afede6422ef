use crate::enclosed::Segment;
use crate::enclosed::SegmentModel;
use crate::enclosed::SimpleQuery;
use vstd::prelude::*;

verus! {

/// A finite source of parsed segments, consumed one at a time.
///
/// Abstractly a source is the sequence of segments it will still yield
/// (`upcoming`), followed by at most one terminal parse error (`failure`).
/// After the terminal error has been yielded the source is drained: it yields
/// `None` from then on.
pub trait SegmentSource: Sized {
    type ParseError;

    /// The segments this source will still yield, in order.
    spec fn upcoming(&self) -> Seq<SegmentModel>;

    /// The terminal parse error that follows the upcoming segments, if any.
    spec fn failure(&self) -> Option<Self::ParseError>;

    /// Yields the next segment, then the terminal parse error if there is
    /// one, then `None`.
    fn next_segment(&mut self) -> (r: Option<
        Result<Segment<SimpleQuery>, Self::ParseError>,
    >)
        ensures
            ({
                let up = old(self).upcoming();
                if up.len() > 0 {
                    r matches Some(Ok(segment)) && segment@ == up[0] && final(self).upcoming()
                        == up.skip(1) && final(self).failure() == old(self).failure()
                } else {
                    match old(self).failure() {
                        Some(e) => r matches Some(Err(error)) && error == e
                            && final(self).upcoming().len() == 0
                            && final(self).failure() is None,
                        None => r is None && final(self).upcoming().len() == 0
                            && final(self).failure() is None,
                    }
                }
            }),
    ;
}

} // verus!
