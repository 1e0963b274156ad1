use vstd::prelude::*;
use crate::tree::{lemma_trees_view_index, reversed, TokenStream, TokenTree, TreeView};

verus! {

/// Walks a stream's trees by reference, front to back. The stream itself is
/// left as it was, so a stream can be walked any number of times.
pub struct Iter<'s, 'a> {
    stream: &'s TokenStream<'a>,
    pos: usize,
}

impl<'s, 'a> View for Iter<'s, 'a> {
    type V = Seq<TreeView>;

    /// The trees not yet handed out, in order.
    closed spec fn view(&self) -> Seq<TreeView> {
        if self.pos <= self.stream@.len() {
            self.stream@.subrange(self.pos as int, self.stream@.len() as int)
        } else {
            Seq::empty()
        }
    }
}

impl<'s, 'a> Iter<'s, 'a> {
    /// Hands out the next tree; once none is left, `None` for good.
    pub fn next(&mut self) -> (r: Option<&'s TokenTree<'a>>)
        ensures
            old(self)@.len() > 0 ==> r is Some && r->0@ == old(self)@[0] && final(self)@
                == old(self)@.drop_first(),
            old(self)@.len() == 0 ==> r is None && final(self)@ == old(self)@,
    {
        let n = self.stream.len();
        if self.pos < n {
            let t = self.stream.get(self.pos).unwrap();
            self.pos = self.pos + 1;
            assert(self@ =~= old(self)@.drop_first());
            Some(t)
        } else {
            None
        }
    }

    /// How many trees are left.
    pub fn len(&self) -> (r: usize)
        ensures
            r == self@.len(),
    {
        let n = self.stream.len();
        if self.pos <= n {
            n - self.pos
        } else {
            0
        }
    }

    /// The exact number of trees left, as lower and upper bound.
    pub fn size_hint(&self) -> (r: (usize, Option<usize>))
        ensures
            r == (self@.len() as usize, Some(self@.len() as usize)),
    {
        let n = self.len();
        (n, Some(n))
    }
}

/// Hands out a stream's trees by value, front to back, once each.
pub struct IntoIter<'a> {
    /// The trees not yet handed out, last one first.
    rest: Vec<TokenTree<'a>>,
}

impl<'a> View for IntoIter<'a> {
    type V = Seq<TreeView>;

    /// The trees not yet handed out, in order.
    closed spec fn view(&self) -> Seq<TreeView> {
        Seq::new(self.rest@.len(), |j: int| self.rest@[self.rest@.len() - 1 - j]@)
    }
}

impl<'a> IntoIter<'a> {
    /// Hands out the next tree; once none is left, `None` for good: nothing
    /// is ever handed out twice.
    pub fn next(&mut self) -> (r: Option<TokenTree<'a>>)
        ensures
            old(self)@.len() > 0 ==> r is Some && r->0@ == old(self)@[0] && final(self)@
                == old(self)@.drop_first(),
            old(self)@.len() == 0 ==> r is None && final(self)@ == old(self)@,
    {
        let r = self.rest.pop();
        proof {
            if old(self)@.len() > 0 {
                assert(self@ =~= old(self)@.drop_first());
            }
        }
        r
    }

    /// How many trees are left.
    pub fn len(&self) -> (r: usize)
        ensures
            r == self@.len(),
    {
        self.rest.len()
    }

    /// The exact number of trees left, as lower and upper bound.
    pub fn size_hint(&self) -> (r: (usize, Option<usize>))
        ensures
            r == (self@.len() as usize, Some(self@.len() as usize)),
    {
        let n = self.rest.len();
        (n, Some(n))
    }
}

impl<'a> TokenStream<'a> {
    /// Walks the trees by reference, front to back.
    pub fn iter<'s>(&'s self) -> (r: Iter<'s, 'a>)
        ensures
            r@ == self@,
    {
        let r = Iter { stream: self, pos: 0 };
        assert(r@ =~= self@);
        r
    }

    /// Hands the trees out by value, front to back; the stream is used up.
    pub fn into_iter(self) -> (r: IntoIter<'a>)
        ensures
            r@ == self@,
    {
        let trees = self.into_trees();
        let rest = reversed(trees);
        let r = IntoIter { rest };
        proof {
            lemma_trees_view_index(trees@);
            assert(r@ =~= self@);
        }
        r
    }

    /// Hands the trees out by value and leaves the stream empty, so that a
    /// second call hands out nothing.
    pub fn drain(&mut self) -> (r: IntoIter<'a>)
        ensures
            r@ == old(self)@,
            final(self)@ == Seq::<TreeView>::empty(),
    {
        let mut taken = TokenStream::new();
        std::mem::swap(self, &mut taken);
        taken.into_iter()
    }
}

} // verus!
