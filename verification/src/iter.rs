//! Walking an error chain from an error to its last cause.

use crate::error::{lemma_chain_unfolds, Error, ErrorRef};
use vstd::prelude::*;

verus! {

/// Iterator over the error chain: it holds the error that it hands out next.
#[derive(Debug)]
pub struct ErrorChainIter<'a>(pub Option<ErrorRef<'a>>);

impl<'a> ErrorChainIter<'a> {
    /// The errors that the iterator has yet to hand out, in order.
    pub open spec fn remaining(self) -> Seq<ErrorRef<'a>> {
        match self.0 {
            Some(r) => r.chain(),
            None => Seq::empty(),
        }
    }

    /// Hands out the held error and moves on to its cause. Once the chain is
    /// at its end it hands out nothing, and stays there.
    pub fn next(&mut self) -> (item: Option<ErrorRef<'a>>)
        ensures
            item == old(self).0,
            final(self).0 == match old(self).0 {
                Some(r) => r.cause_spec(),
                None => None,
            },
            item is Some ==> old(self).remaining() == seq![item->0] + final(self).remaining(),
            item is None ==> old(self).remaining().len() == 0 && final(self).remaining().len() == 0,
    {
        match self.0.take() {
            Some(e) => {
                self.0 = e.cause();
                proof {
                    lemma_chain_unfolds(e);
                }
                Some(e)
            },
            None => None,
        }
    }

    /// Walks the rest of the chain and returns its errors in order.
    pub fn collect(self) -> (items: Vec<ErrorRef<'a>>)
        ensures
            items@ == self.remaining(),
    {
        let mut walker = self;
        let mut items: Vec<ErrorRef<'a>> = Vec::new();
        loop
            invariant
                self.remaining() == items@ + walker.remaining(),
            decreases walker.remaining().len(),
        {
            match walker.next() {
                Some(e) => {
                    items.push(e);
                },
                None => {
                    return items;
                },
            }
        }
    }
}

impl Error {
    /// Iterates over the error chain, starting with the error itself.
    pub fn iter(&self) -> (iter: ErrorChainIter<'_>)
        ensures
            iter.0 == Some(ErrorRef::Chained(self)),
            iter.remaining() == self.chain(),
    {
        ErrorChainIter(Some(ErrorRef::Chained(self)))
    }
}

} // verus!
