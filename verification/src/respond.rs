use crate::utils::str_eq;
use vstd::prelude::*;

verus! {

/// The ability of a responder to answer the queries of a template.
///
/// `response` is the responder's behavior: a pure function from query text to
/// an answer or an error. `respond` performs one answer. A responder may keep
/// internal state, but answering must not change which response any query
/// would receive, so that a template rendered twice against the same
/// responder produces the same output.
pub trait Respond: Sized {
    type Error: View;

    /// The answer (or error) this responder gives to the given query text.
    spec fn response(&self, query: Seq<char>) -> Result<Seq<char>, <Self::Error as View>::V>;

    /// Answers one query.
    fn respond(&mut self, query: &str) -> (r: Result<String, Self::Error>)
        ensures
            (match r {
                Ok(output) => old(self).response(query@) matches Ok(v) && output@ == v,
                Err(error) => old(self).response(query@) matches Err(v) && error@ == v,
            }),
            forall|q: Seq<char>| #[trigger] final(self).response(q) == old(self).response(q),
    ;
}

/// The value of the first entry whose name equals `query`, if any.
pub open spec fn spec_lookup(entries: Seq<(String, String)>, query: Seq<char>) -> Option<Seq<char>>
    decreases entries.len(),
{
    if entries.len() == 0 {
        None
    } else if entries[0].0@ == query {
        Some(entries[0].1@)
    } else {
        spec_lookup(entries.skip(1), query)
    }
}

/// A responder backed by a list of `(name, value)` entries: a query is
/// answered with the value of the first entry whose name equals the query
/// text, and a query that matches no entry is returned unanswered as the
/// error.
///
/// `answered` logs every query put to the responder, in the order received,
/// making it visible that rendering consults the responder exactly once per
/// query segment, in template order.
pub struct KeyValueResponder {
    pub entries: Vec<(String, String)>,
    pub answered: Vec<String>,
}

impl KeyValueResponder {
    /// A responder over the given entries, with no query answered yet.
    pub fn new(entries: Vec<(String, String)>) -> (responder: Self)
        ensures
            responder.entries == entries,
            responder.answered@.len() == 0,
    {
        KeyValueResponder { entries, answered: Vec::new() }
    }
}

impl Respond for KeyValueResponder {
    type Error = String;

    open spec fn response(&self, query: Seq<char>) -> Result<Seq<char>, Seq<char>> {
        match spec_lookup(self.entries@, query) {
            Some(value) => Ok(value),
            None => Err(query),
        }
    }

    fn respond(&mut self, query: &str) -> (r: Result<String, String>)
        ensures
            final(self).entries == old(self).entries,
            final(self).answered@.len() == old(self).answered@.len() + 1,
            final(self).answered@.last()@ == query@,
            forall|i: int|
                0 <= i < old(self).answered@.len() ==> final(self).answered@[i] == old(
                    self,
                ).answered@[i],
    {
        let logged = query.to_owned();
        self.answered.push(logged);
        let entry_count = self.entries.len();
        proof {
            assert(self.entries@.skip(0) =~= self.entries@);
        }
        let mut i: usize = 0;
        while i < entry_count
            invariant
                i <= entry_count,
                entry_count == self.entries@.len(),
                self.entries == old(self).entries,
                self.answered@.len() == old(self).answered@.len() + 1,
                self.answered@.last()@ == query@,
                forall|j: int|
                    0 <= j < old(self).answered@.len() ==> self.answered@[j] == old(
                        self,
                    ).answered@[j],
                spec_lookup(self.entries@.skip(i as int), query@) == spec_lookup(
                    self.entries@,
                    query@,
                ),
            decreases entry_count - i,
        {
            proof {
                assert(self.entries@.skip(i as int)[0] == self.entries@[i as int]);
                assert(self.entries@.skip(i as int).skip(1) =~= self.entries@.skip(i + 1));
            }
            if str_eq(self.entries[i].0.as_str(), query) {
                return Ok(self.entries[i].1.clone());
            }
            i += 1;
        }
        Err(query.to_owned())
    }
}

} // verus!
