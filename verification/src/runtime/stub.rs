//! A runtime that returns canned responses, for tests.

use std::collections::VecDeque;
use vstd::prelude::*;

verus! {

/// A runtime that answers every call with the next of the encoded responses it was given,
/// in the order in which they were given.
#[derive(Debug)]
pub struct StubRuntime {
    call_results: VecDeque<Vec<u8>>,
}

impl StubRuntime {
    /// The responses that have not been returned yet, the next one first.
    pub closed spec fn pending(&self) -> Seq<Seq<u8>> {
        self.call_results@.map_values(|response: Vec<u8>| response@)
    }

    /// Creates a new empty [`StubRuntime`].
    pub fn new() -> (runtime: Self)
        ensures
            runtime.pending() == Seq::<Seq<u8>>::empty(),
    {
        let runtime = StubRuntime { call_results: VecDeque::new() };
        runtime
    }

    /// Adds the given encoded response after those that are pending.
    pub fn add_stub_response(self, stub_response: Vec<u8>) -> (runtime: Self)
        ensures
            runtime.pending() == self.pending().push(stub_response@),
    {
        let mut runtime = self;
        runtime.call_results.push_back(stub_response);
        runtime
    }

    /// Number of responses that have not been returned yet.
    pub fn pending_responses(&self) -> (count: usize)
        ensures
            count == self.pending().len(),
    {
        self.call_results.len()
    }

    /// Returns the next response. There is one: a call without a response is a mistake of
    /// the test.
    pub fn call(&mut self) -> (response: Vec<u8>)
        requires
            old(self).pending().len() > 0,
        ensures
            response@ == old(self).pending()[0],
            final(self).pending() == old(self).pending().drop_first(),
    {
        let next = self.call_results.pop_front();
        match next {
            Some(response) => response,
            None => vstd::pervasive::unreached(),
        }
    }

    /// Returns the next response, if there is one.
    pub fn try_call(&mut self) -> (response: Option<Vec<u8>>)
        ensures
            match response {
                Some(bytes) => old(self).pending().len() > 0 && bytes@ == old(self).pending()[0]
                    && final(self).pending() == old(self).pending().drop_first(),
                None => old(self).pending().len() == 0 && final(self).pending() == old(
                    self,
                ).pending(),
            },
    {
        if self.call_results.len() == 0 {
            None
        } else {
            Some(self.call())
        }
    }
}

impl Default for StubRuntime {
    fn default() -> (runtime: Self)
        ensures
            runtime.pending() == Seq::<Seq<u8>>::empty(),
    {
        Self::new()
    }
}

} // verus!
