use crate::enclosed::SegmentModel;
use crate::enclosed::spec_render_segment;
use crate::iter::SegmentSource;
use crate::render::Sink;
use crate::render::lemma_spec_render_error_stable;
use crate::render::lemma_spec_render_snoc;
use crate::render::spec_render;
use crate::respond::Respond;
use vstd::prelude::*;
use vstd::string::StringExecFns;

verus! {

/// One rendering session over a stream of parsed segments. Rendering consumes
/// the session; an eagerly parsed template hands out a fresh session per
/// render.
#[derive(Debug, Clone, Copy)]
pub struct Template<Source> {
    pub iter: Source,
}

/// Which phase of applying a template failed: parsing a segment, resolving a
/// query through the responder, or writing to the output sink.
#[derive(Debug, Clone, Copy)]
pub enum TemplateApplicationError<ParseError, QueryError, WriteError> {
    Parse(ParseError),
    Query(QueryError),
    Write(WriteError),
}

impl<QueryError, WriteError> TemplateApplicationError<
    crate::enclosed::ParseError<
        crate::enclosed::simple_escape::ParseError,
        crate::enclosed::simple_query::ParseError,
    >,
    QueryError,
    WriteError,
> {
    /// The error text of an application over the two reference components: a
    /// parse error carries its own text, while query and write errors, being
    /// opaque caller-supplied values, are named by their phase alone.
    pub open spec fn spec_message(self) -> Seq<char> {
        match self {
            TemplateApplicationError::Parse(e) => e.spec_message(),
            TemplateApplicationError::Query(_) => "Fail to respond to query"@,
            TemplateApplicationError::Write(_) => "Fail to write output"@,
        }
    }

    /// The error text.
    pub fn message(&self) -> (r: String)
        ensures
            r@ == self.spec_message(),
    {
        match self {
            TemplateApplicationError::Parse(e) => e.message(),
            TemplateApplicationError::Query(_) => String::from_str("Fail to respond to query"),
            TemplateApplicationError::Write(_) => String::from_str("Fail to write output"),
        }
    }
}

impl<Source> Template<Source> {
    /// Wraps a segment stream.
    pub(crate) fn new(iter: Source) -> (template: Self)
        ensures
            template.iter == iter,
    {
        Template { iter }
    }
}

impl<Source: SegmentSource> Template<Source> {
    /// Renders the template left to right into the sink: literal characters
    /// stand for themselves and each query is resolved through the responder,
    /// exactly once, in template order. The first failure — a parse error, a
    /// query error or a write error — stops the rendering; output already
    /// written stays in the sink.
    pub fn write_to<S: Sink, R: Respond>(self, output: &mut S, respond: &mut R) -> (r: Result<
        (),
        TemplateApplicationError<Source::ParseError, R::Error, S::Error>,
    >)
        ensures
            forall|q: Seq<char>| #[trigger] final(respond).response(q) == old(respond).response(q),
            ({
                let rendered = spec_render(self.iter.upcoming(), *old(respond));
                match r {
                    Ok(u) => rendered.1 is None && self.iter.failure() is None
                        && final(output).contents() == old(output).contents() + rendered.0,
                    Err(TemplateApplicationError::Parse(error)) => rendered.1 is None && (
                    self.iter.failure() matches Some(e) && e == error)
                        && final(output).contents() == old(output).contents() + rendered.0,
                    Err(TemplateApplicationError::Query(error)) => (rendered.1 matches Some(v)
                        && error@ == v)
                        && final(output).contents() == old(output).contents() + rendered.0,
                    Err(TemplateApplicationError::Write(_)) => !S::obeys_infallible()
                        && exists|j: int|
                        0 <= j <= self.iter.upcoming().len() && #[trigger] spec_render(
                            self.iter.upcoming().take(j),
                            *old(respond),
                        ).1 is None
                            && final(output).contents() == old(output).contents() + spec_render(
                            self.iter.upcoming().take(j),
                            *old(respond),
                        ).0,
                }
            }),
    {
        let mut source = self.iter;
        let ghost responder0: R = *respond;
        let ghost contents0: Seq<char> = output.contents();
        let ghost total: Seq<SegmentModel> = source.upcoming();
        let ghost mut i: int = 0;
        loop
            invariant
                0 <= i <= total.len(),
                total == self.iter.upcoming(),
                source.upcoming() == total.skip(i),
                source.failure() == self.iter.failure(),
                responder0 == *old(respond),
                contents0 == old(output).contents(),
                forall|q: Seq<char>| #[trigger] respond.response(q) == responder0.response(q),
                spec_render(total.take(i), responder0).1 is None,
                output.contents() == contents0 + spec_render(total.take(i), responder0).0,
            decreases total.len() - i,
        {
            proof {
                assert(total.skip(i).len() == total.len() - i);
            }
            match source.next_segment() {
                None => {
                    proof {
                        assert(total.take(i) =~= total);
                    }
                    return Ok(());
                },
                Some(Err(error)) => {
                    proof {
                        assert(total.take(i) =~= total);
                    }
                    return Err(TemplateApplicationError::Parse(error));
                },
                Some(Ok(segment)) => {
                    proof {
                        assert(segment@ == total.skip(i)[0]);
                        assert(total.skip(i)[0] == total[i]);
                        assert(total.skip(i).skip(1) =~= total.skip(i + 1));
                    }
                    let ghost respond_before: R = *respond;
                    match segment.render(respond) {
                        Err(error) => {
                            proof {
                                assert(spec_render_segment(total[i], respond_before)
                                    == spec_render_segment(total[i], responder0));
                                lemma_spec_render_snoc(total.take(i), total[i], responder0);
                                assert(total.take(i).push(total[i]) =~= total.take(i + 1));
                                lemma_spec_render_error_stable(total, i + 1, responder0);
                            }
                            return Err(TemplateApplicationError::Query(error));
                        },
                        Ok(display) => {
                            let text = display.into_text();
                            proof {
                                assert(spec_render_segment(total[i], respond_before)
                                    == spec_render_segment(total[i], responder0));
                                lemma_spec_render_snoc(total.take(i), total[i], responder0);
                                assert(total.take(i).push(total[i]) =~= total.take(i + 1));
                            }
                            match output.write_str(text.as_str()) {
                                Err(error) => {
                                    return Err(TemplateApplicationError::Write(error));
                                },
                                Ok(()) => {
                                    proof {
                                        assert(contents0 + spec_render(total.take(i), responder0).0
                                            + text@ =~= contents0 + spec_render(
                                            total.take(i + 1),
                                            responder0,
                                        ).0);
                                        i = i + 1;
                                    }
                                },
                            }
                        },
                    }
                },
            }
        }
    }

    /// Renders the template into a fresh in-memory string: the whole output
    /// on success, or the first parse or query error. Building a string
    /// cannot fail to write, so no write error is ever reported.
    pub fn to_string<R: Respond>(self, respond: &mut R) -> (r: Result<
        String,
        TemplateApplicationError<Source::ParseError, R::Error, ()>,
    >)
        ensures
            forall|q: Seq<char>| #[trigger] final(respond).response(q) == old(respond).response(q),
            ({
                let rendered = spec_render(self.iter.upcoming(), *old(respond));
                match r {
                    Ok(text) => rendered.1 is None && self.iter.failure() is None && text@
                        == rendered.0,
                    Err(TemplateApplicationError::Parse(error)) => rendered.1 is None && (
                    self.iter.failure() matches Some(e) && e == error),
                    Err(TemplateApplicationError::Query(error)) => rendered.1 matches Some(v)
                        && error@ == v,
                    Err(TemplateApplicationError::Write(_)) => false,
                }
            }),
    {
        let mut buffer = String::new();
        match self.write_to(&mut buffer, respond) {
            Ok(()) => Ok(buffer),
            Err(error) => match error {
                TemplateApplicationError::Parse(e) => Err(TemplateApplicationError::Parse(e)),
                TemplateApplicationError::Query(e) => Err(TemplateApplicationError::Query(e)),
                TemplateApplicationError::Write(e) => Err(TemplateApplicationError::Write(e)),
            },
        }
    }
}

} // verus!
