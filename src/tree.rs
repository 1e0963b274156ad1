use vstd::prelude::*;
use crate::text::Text;

verus! {

broadcast use {
    vstd::std_specs::vec::axiom_vec_index_decreases,
    vstd::std_specs::vec::axiom_vec_decreases_to_view,
    vstd::seq::axiom_seq_index_decreases,
    vstd::seq::axiom_seq_subrange_decreases,
};

/// A literal value.
#[derive(Debug, PartialEq, Eq, Hash)]
pub enum Literal<'a> {
    String(Text<'a>),
    Character(char),
    Integer(i128),
}

/// The kind of bracket pair that frames a nested group.
#[derive(Clone, Copy, Debug, PartialEq, Eq, Hash, Structural)]
pub enum Delimeter {
    Braces,
    Brackets,
    Parenthesis,
}

/// One scanned unit.
#[derive(Debug, PartialEq, Eq, Hash)]
pub enum TokenTree<'a> {
    Ident(Text<'a>),
    Lit(Literal<'a>),
    Delimeted(Delimeter, TokenStream<'a>),
    Punct(char),
}

/// An ordered sequence of token trees, in source order.
#[derive(Debug, PartialEq, Eq, Hash)]
pub struct TokenStream<'a> {
    stream: Vec<TokenTree<'a>>,
}

/// What a literal stands for, whatever the ownership of its text.
pub enum LiteralView {
    Str(Seq<char>),
    Character(char),
    Integer(i128),
}

/// What a token tree stands for, whatever the ownership of its texts.
pub enum TreeView {
    Ident(Seq<char>),
    Lit(LiteralView),
    Delimited(Delimeter, Seq<TreeView>),
    Punct(char),
}

impl<'a> View for Literal<'a> {
    type V = LiteralView;

    open spec fn view(&self) -> LiteralView {
        match self {
            Literal::String(t) => LiteralView::Str(t@),
            Literal::Character(c) => LiteralView::Character(*c),
            Literal::Integer(n) => LiteralView::Integer(*n),
        }
    }
}

impl<'a> Literal<'a> {
    pub open spec fn is_owned(&self) -> bool {
        self matches Literal::String(t) ==> t.is_owned()
    }

    /// A copy that keeps the text's ownership as it is.
    pub fn duplicate(&self) -> (r: Literal<'a>)
        ensures
            r@ == self@,
    {
        match self {
            Literal::String(t) => Literal::String(t.duplicate()),
            Literal::Character(c) => Literal::Character(*c),
            Literal::Integer(n) => Literal::Integer(*n),
        }
    }

    /// A copy that holds no borrowed text.
    pub fn freeze(&self) -> (r: Literal<'static>)
        ensures
            r@ == self@,
            r.is_owned(),
    {
        match self {
            Literal::String(t) => Literal::String(t.to_owned_text()),
            Literal::Character(c) => Literal::Character(*c),
            Literal::Integer(n) => Literal::Integer(*n),
        }
    }
}

/// The views of a sequence of trees, one for one.
pub open spec fn trees_view<'a>(s: Seq<TokenTree<'a>>) -> Seq<TreeView>
    decreases s, 0nat,
{
    if s.len() == 0 {
        Seq::empty()
    } else {
        trees_view(s.drop_last()).push(tree_view(s.last()))
    }
}

/// The view of one tree.
pub open spec fn tree_view<'a>(t: TokenTree<'a>) -> TreeView
    decreases t, 1nat,
{
    match t {
        TokenTree::Ident(x) => TreeView::Ident(x@),
        TokenTree::Lit(l) => TreeView::Lit(l@),
        TokenTree::Delimeted(d, s) => TreeView::Delimited(d, s.view()),
        TokenTree::Punct(c) => TreeView::Punct(c),
    }
}

/// Whether no tree of a sequence holds borrowed text, at any depth.
pub open spec fn trees_owned<'a>(s: Seq<TokenTree<'a>>) -> bool
    decreases s, 0nat,
{
    if s.len() == 0 {
        true
    } else {
        trees_owned(s.drop_last()) && tree_owned(s.last())
    }
}

/// Whether a tree holds no borrowed text, at any depth.
pub open spec fn tree_owned<'a>(t: TokenTree<'a>) -> bool
    decreases t, 1nat,
{
    match t {
        TokenTree::Ident(x) => x.is_owned(),
        TokenTree::Lit(l) => l.is_owned(),
        TokenTree::Delimeted(_, s) => s.is_owned(),
        TokenTree::Punct(_) => true,
    }
}

/// The views of a sequence of streams, one for one.
pub open spec fn streams_view<'a>(s: Seq<TokenStream<'a>>) -> Seq<Seq<TreeView>> {
    s.map_values(|x: TokenStream<'a>| x@)
}

/// The same items in the opposite order.
pub(crate) fn reversed<T>(v: Vec<T>) -> (r: Vec<T>)
    ensures
        r@.len() == v@.len(),
        forall|j: int| 0 <= j < v@.len() ==> #[trigger] r@[j] == v@[v@.len() - 1 - j],
{
    let mut v = v;
    let ghost orig = v@;
    let mut r: Vec<T> = Vec::new();
    while v.len() > 0
        invariant
            v@ == orig.subrange(0, orig.len() - r@.len()),
            r@.len() <= orig.len(),
            forall|j: int| 0 <= j < r@.len() ==> #[trigger] r@[j] == orig[orig.len() - 1 - j],
        decreases v@.len(),
    {
        let x = v.pop().unwrap();
        r.push(x);
    }
    r
}

proof fn lemma_trees_push<'a>(s: Seq<TokenTree<'a>>, t: TokenTree<'a>)
    ensures
        trees_view(s.push(t)) == trees_view(s).push(tree_view(t)),
        trees_owned(s.push(t)) == (trees_owned(s) && tree_owned(t)),
{
    assert(s.push(t).drop_last() =~= s);
}

proof fn lemma_trees_concat<'a>(a: Seq<TokenTree<'a>>, b: Seq<TokenTree<'a>>)
    ensures
        trees_view(a + b) == trees_view(a) + trees_view(b),
        trees_owned(a + b) == (trees_owned(a) && trees_owned(b)),
    decreases b.len(),
{
    if b.len() == 0 {
        assert(a + b =~= a);
        assert(trees_view(a) + trees_view(b) =~= trees_view(a));
    } else {
        let b0 = b.drop_last();
        lemma_trees_concat(a, b0);
        assert((a + b).drop_last() =~= a + b0);
        assert((a + b).last() == b.last());
        assert(trees_view(a) + trees_view(b) =~= (trees_view(a) + trees_view(b0)).push(
            tree_view(b.last()),
        ));
    }
}

/// The view of a sequence of trees has one entry per tree, in the same order.
pub proof fn lemma_trees_view_index<'a>(s: Seq<TokenTree<'a>>)
    ensures
        trees_view(s).len() == s.len(),
        forall|i: int| 0 <= i < s.len() ==> #[trigger] trees_view(s)[i] == s[i]@,
    decreases s.len(),
{
    if s.len() > 0 {
        lemma_trees_view_index(s.drop_last());
    }
}

impl<'a> View for TokenTree<'a> {
    type V = TreeView;

    open spec fn view(&self) -> TreeView {
        tree_view(*self)
    }
}

impl<'a> View for TokenStream<'a> {
    type V = Seq<TreeView>;

    closed spec fn view(&self) -> Seq<TreeView>
        decreases self, 2nat,
    {
        trees_view(self.stream@)
    }
}

impl<'a> TokenStream<'a> {
    /// Whether no tree of the stream holds borrowed text, at any depth.
    pub closed spec fn is_owned(&self) -> bool
        decreases self, 2nat,
    {
        trees_owned(self.stream@)
    }
}

impl<'a> Clone for TokenTree<'a> {
    /// A deep copy that keeps each text's ownership as it is.
    fn clone(&self) -> (r: TokenTree<'a>)
        ensures
            r@ == self@,
    {
        self.duplicate()
    }
}

impl<'a> Clone for Literal<'a> {
    fn clone(&self) -> (r: Literal<'a>)
        ensures
            r@ == self@,
    {
        self.duplicate()
    }
}

impl<'a> Clone for TokenStream<'a> {
    /// A deep copy that keeps each text's ownership as it is.
    fn clone(&self) -> (r: TokenStream<'a>)
        ensures
            r@ == self@,
    {
        self.duplicate()
    }
}

impl<'a> Default for TokenStream<'a> {
    fn default() -> (r: TokenStream<'a>)
        ensures
            r@ == Seq::<TreeView>::empty(),
    {
        TokenStream::new()
    }
}

impl<'a> TokenTree<'a> {
    pub open spec fn is_owned(&self) -> bool {
        tree_owned(*self)
    }

    fn duplicate(&self) -> (r: TokenTree<'a>)
        ensures
            r@ == self@,
        decreases self,
    {
        match self {
            TokenTree::Ident(t) => TokenTree::Ident(t.duplicate()),
            TokenTree::Lit(l) => TokenTree::Lit(l.duplicate()),
            TokenTree::Delimeted(d, s) => TokenTree::Delimeted(*d, s.duplicate()),
            TokenTree::Punct(c) => TokenTree::Punct(*c),
        }
    }

    /// A deep copy that holds no borrowed text.
    pub fn freeze(&self) -> (r: TokenTree<'static>)
        ensures
            r@ == self@,
            r.is_owned(),
        decreases self,
    {
        match self {
            TokenTree::Ident(t) => TokenTree::Ident(t.to_owned_text()),
            TokenTree::Lit(l) => TokenTree::Lit(l.freeze()),
            TokenTree::Delimeted(d, s) => TokenTree::Delimeted(*d, s.freeze()),
            TokenTree::Punct(c) => TokenTree::Punct(*c),
        }
    }
}

impl<'a> TokenStream<'a> {
    /// An empty stream.
    pub fn new() -> (r: TokenStream<'a>)
        ensures
            r@ == Seq::<TreeView>::empty(),
    {
        TokenStream { stream: Vec::new() }
    }

    /// The number of trees at the top level.
    pub fn len(&self) -> (r: usize)
        ensures
            r == self@.len(),
    {
        proof {
            lemma_trees_view_index(self.stream@);
        }
        self.stream.len()
    }

    pub fn is_empty(&self) -> (r: bool)
        ensures
            r == (self@.len() == 0),
    {
        proof {
            lemma_trees_view_index(self.stream@);
        }
        self.stream.len() == 0
    }

    /// Appends one tree at the end.
    pub fn push(&mut self, t: TokenTree<'a>)
        ensures
            final(self)@ == old(self)@.push(t@),
    {
        proof {
            lemma_trees_push(self.stream@, t);
        }
        self.stream.push(t);
    }

    /// The tree at position `i`, if there is one.
    pub fn get(&self, i: usize) -> (r: Option<&TokenTree<'a>>)
        ensures
            i < self@.len() ==> r is Some && r->0@ == self@[i as int],
            i >= self@.len() ==> r is None,
    {
        proof {
            lemma_trees_view_index(self.stream@);
        }
        if i < self.stream.len() {
            Some(&self.stream[i])
        } else {
            None
        }
    }

    /// The stream that holds the given trees, in the same order.
    pub fn from_trees(trees: Vec<TokenTree<'a>>) -> (r: TokenStream<'a>)
        ensures
            r@ == trees_view(trees@),
    {
        TokenStream { stream: trees }
    }

    /// Gives up the stream's trees, in order.
    pub fn into_trees(self) -> (r: Vec<TokenTree<'a>>)
        ensures
            trees_view(r@) == self@,
    {
        self.stream
    }

    /// Appends the given trees at the end, in order.
    pub fn extend_trees(&mut self, trees: Vec<TokenTree<'a>>)
        ensures
            final(self)@ == old(self)@ + trees_view(trees@),
    {
        let mut trees = trees;
        proof {
            lemma_trees_concat(self.stream@, trees@);
        }
        self.stream.append(&mut trees);
    }

    /// Appends the trees of `other` at the end.
    pub fn append(&mut self, other: TokenStream<'a>)
        ensures
            final(self)@ == old(self)@ + other@,
    {
        self.extend_trees(other.stream);
    }

    /// The trees of `self` followed by those of `other`.
    pub fn concat(self, other: TokenStream<'a>) -> (r: TokenStream<'a>)
        ensures
            r@ == self@ + other@,
    {
        let mut r = self;
        r.append(other);
        r
    }

    /// Appends the trees of each given stream at the end, stream after stream:
    /// the streams are flattened, not nested.
    pub fn extend_streams(&mut self, streams: Vec<TokenStream<'a>>)
        ensures
            final(self)@ == old(self)@ + streams_view(streams@).flatten(),
    {
        let ghost all = streams@;
        let ghost start = self@;
        let n = streams.len();
        let mut rest = reversed(streams);
        let mut k: usize = 0;
        assert(start + streams_view(all.subrange(0, 0)).flatten() =~= start);
        while rest.len() > 0
            invariant
                k + rest@.len() == all.len(),
                all.len() == n,
                forall|j: int| 0 <= j < rest@.len() ==> #[trigger] rest@[j] == all[all.len() - 1 - j],
                self@ == start + streams_view(all.subrange(0, k as int)).flatten(),
            decreases rest@.len(),
        {
            let next = rest.pop().unwrap();
            proof {
                let done = all.subrange(0, k as int);
                assert(all.subrange(0, k + 1) =~= done.push(next));
                assert(streams_view(done.push(next)) =~= streams_view(done).push(next@));
                streams_view(done).lemma_flatten_push(next@);
                assert(start + streams_view(done).flatten() + next@ =~= start + (streams_view(
                    done,
                ).flatten() + next@));
            }
            self.append(next);
            k = k + 1;
        }
        assert(all.subrange(0, k as int) =~= all);
    }

    /// The trees of the given streams, stream after stream.
    pub fn from_streams(streams: Vec<TokenStream<'a>>) -> (r: TokenStream<'a>)
        ensures
            r@ == streams_view(streams@).flatten(),
    {
        let mut r = TokenStream::new();
        r.extend_streams(streams);
        assert(Seq::<TreeView>::empty() + streams_view(streams@).flatten() =~= streams_view(
            streams@,
        ).flatten());
        r
    }

    fn duplicate(&self) -> (r: TokenStream<'a>)
        ensures
            r@ == self@,
        decreases self,
    {
        let mut out: Vec<TokenTree<'a>> = Vec::new();
        let mut i: usize = 0;
        while i < self.stream.len()
            invariant
                i <= self.stream@.len(),
                trees_view(out@) == trees_view(self.stream@.subrange(0, i as int)),
            decreases self.stream@.len() - i,
        {
            let t = self.stream[i].duplicate();
            proof {
                lemma_trees_push(out@, t);
                lemma_trees_push(self.stream@.subrange(0, i as int), self.stream@[i as int]);
                assert(self.stream@.subrange(0, i as int).push(self.stream@[i as int])
                    =~= self.stream@.subrange(0, i + 1));
            }
            out.push(t);
            i = i + 1;
        }
        assert(self.stream@.subrange(0, i as int) =~= self.stream@);
        TokenStream { stream: out }
    }

    /// A deep copy that holds no borrowed text, at any depth.
    pub fn freeze(&self) -> (r: TokenStream<'static>)
        ensures
            r@ == self@,
            r.is_owned(),
        decreases self,
    {
        let mut out: Vec<TokenTree<'static>> = Vec::new();
        let mut i: usize = 0;
        while i < self.stream.len()
            invariant
                i <= self.stream@.len(),
                trees_view(out@) == trees_view(self.stream@.subrange(0, i as int)),
                trees_owned(out@),
            decreases self.stream@.len() - i,
        {
            let t = self.stream[i].freeze();
            proof {
                lemma_trees_push(out@, t);
                lemma_trees_push(self.stream@.subrange(0, i as int), self.stream@[i as int]);
                assert(self.stream@.subrange(0, i as int).push(self.stream@[i as int])
                    =~= self.stream@.subrange(0, i + 1));
            }
            out.push(t);
            i = i + 1;
        }
        assert(self.stream@.subrange(0, i as int) =~= self.stream@);
        TokenStream { stream: out }
    }
}

} // verus!
