use crate::enclosed::SegmentModel;
use crate::enclosed::spec_render_segment;
use crate::respond::Respond;
use vstd::prelude::*;
use vstd::string::StringExecFns;

verus! {

/// An append-only output sink whose writes may fail.
///
/// Abstractly a sink is the text it holds (`contents`). A failed write
/// records nothing. A sink type whose writes never fail says so through
/// `obeys_infallible`, and rendering into such a sink never reports a write
/// error.
pub trait Sink: Sized {
    type Error;

    /// Whether writes to this sink type never fail.
    spec fn obeys_infallible() -> bool;

    /// The text this sink holds.
    spec fn contents(&self) -> Seq<char>;

    /// Appends `text` to the sink, wholly or (on failure) not at all.
    fn write_str(&mut self, text: &str) -> (r: Result<(), Self::Error>)
        ensures
            (match r {
                Ok(u) => final(self).contents() == old(self).contents() + text@,
                Err(_) => final(self).contents() == old(self).contents(),
            }),
            Self::obeys_infallible() ==> r is Ok,
    ;
}

/// The in-memory growable buffer sink: appending to a `String` cannot fail.
impl Sink for String {
    type Error = ();

    open spec fn obeys_infallible() -> bool {
        true
    }

    open spec fn contents(&self) -> Seq<char> {
        self@
    }

    fn write_str(&mut self, text: &str) -> (r: Result<(), ()>) {
        self.append(text);
        Ok(())
    }
}

/// Rendering a sequence of segments with a responder, as a pure function:
/// the output text accumulated up to the first failing query, paired with
/// that query's error, if any.
pub open spec fn spec_render<R: Respond>(segments: Seq<SegmentModel>, responder: R) -> (
    Seq<char>,
    Option<<R::Error as View>::V>,
)
    decreases segments.len(),
{
    if segments.len() == 0 {
        (Seq::<char>::empty(), None)
    } else {
        match spec_render_segment(segments[0], responder) {
            Err(error) => (Seq::<char>::empty(), Some(error)),
            Ok(unit) => {
                let rest = spec_render(segments.skip(1), responder);
                (unit + rest.0, rest.1)
            },
        }
    }
}

/// How rendering grows when one more segment is appended: a rendering that
/// already failed is unchanged; otherwise the new segment's unit is appended
/// to the output, or its query error becomes the rendering's error.
pub proof fn lemma_spec_render_snoc<R: Respond>(
    segments: Seq<SegmentModel>,
    segment: SegmentModel,
    responder: R,
)
    ensures
        ({
            let prefix = spec_render(segments, responder);
            let whole = spec_render(segments.push(segment), responder);
            if prefix.1 is Some {
                whole == prefix
            } else {
                match spec_render_segment(segment, responder) {
                    Err(error) => whole == (prefix.0, Some(error)),
                    Ok(unit) => whole == (prefix.0 + unit, None::<<R::Error as View>::V>),
                }
            }
        }),
    decreases segments.len(),
{
    if segments.len() == 0 {
        assert(segments.push(segment).len() == 1);
        assert(segments.push(segment)[0] == segment);
        assert(segments.push(segment).skip(1) =~= Seq::<SegmentModel>::empty());
        assert(spec_render(Seq::<SegmentModel>::empty(), responder) == (
            Seq::<char>::empty(),
            None::<<R::Error as View>::V>,
        ));
        match spec_render_segment(segment, responder) {
            Err(_) => {},
            Ok(unit) => {
                assert(spec_render(segments, responder).0 + unit =~= unit + Seq::<char>::empty());
            },
        }
    } else {
        lemma_spec_render_snoc(segments.skip(1), segment, responder);
        assert(segments.push(segment)[0] == segments[0]);
        assert(segments.push(segment).skip(1) =~= segments.skip(1).push(segment));
        match spec_render_segment(segments[0], responder) {
            Err(_) => {},
            Ok(unit0) => {
                let prefix_rest = spec_render(segments.skip(1), responder);
                if prefix_rest.1 is None {
                    match spec_render_segment(segment, responder) {
                        Err(_) => {},
                        Ok(unit) => {
                            assert(unit0 + (prefix_rest.0 + unit) =~= (unit0 + prefix_rest.0)
                                + unit);
                        },
                    }
                }
            },
        }
    }
}

/// A rendering that has already failed within a prefix is not changed by the
/// segments after that prefix.
pub proof fn lemma_spec_render_error_stable<R: Respond>(
    segments: Seq<SegmentModel>,
    i: int,
    responder: R,
)
    requires
        0 <= i <= segments.len(),
        spec_render(segments.take(i), responder).1 is Some,
    ensures
        spec_render(segments, responder) == spec_render(segments.take(i), responder),
    decreases segments.len(),
{
    assert(i > 0) by {
        if i == 0 {
            assert(segments.take(0) =~= Seq::<SegmentModel>::empty());
        }
    }
    assert(segments.take(i)[0] == segments[0]);
    match spec_render_segment(segments[0], responder) {
        Err(_) => {},
        Ok(_) => {
            assert(segments.take(i).skip(1) =~= segments.skip(1).take(i - 1));
            lemma_spec_render_error_stable(segments.skip(1), i - 1, responder);
        },
    }
}

/// Responders that answer every query alike render every segment sequence
/// alike.
pub proof fn lemma_spec_render_congruence<R: Respond>(
    segments: Seq<SegmentModel>,
    first: R,
    second: R,
)
    requires
        forall|q: Seq<char>| #[trigger] first.response(q) == second.response(q),
    ensures
        spec_render(segments, first) == spec_render(segments, second),
    decreases segments.len(),
{
    if segments.len() > 0 {
        lemma_spec_render_congruence(segments.skip(1), first, second);
    }
}

} // verus!
