use vstd::prelude::*;
use crate::tree::{lemma_trees_view_index, streams_view, trees_view, TokenStream, TokenTree};

verus! {

/// Freezing is idempotent: freezing a frozen stream gives a stream equal to
/// the first frozen one, and both are fully owned.
///
/// `once` and `twice` are what `freeze` returns for `s` and for `once`.
pub proof fn lemma_freeze_idempotent<'a>(
    s: TokenStream<'a>,
    once: TokenStream<'static>,
    twice: TokenStream<'static>,
)
    requires
        once@ == s@,
        once.is_owned(),
        twice@ == once@,
        twice.is_owned(),
    ensures
        twice@ == once@,
        twice@ == s@,
        once.is_owned() && twice.is_owned(),
{
}

/// Order is preserved: a stream built from trees `t1, ..., tn` holds, and
/// walks through, exactly `t1, ..., tn` in that order.
pub proof fn lemma_order_preserved<'a>(trees: Seq<TokenTree<'a>>)
    ensures
        trees_view(trees).len() == trees.len(),
        forall|i: int| 0 <= i < trees.len() ==> #[trigger] trees_view(trees)[i] == trees[i]@,
{
    lemma_trees_view_index(trees);
}

/// Concatenation is associative.
pub proof fn lemma_concat_associative<'a>(a: TokenStream<'a>, b: TokenStream<'a>, c: TokenStream<'a>)
    ensures
        (a@ + b@) + c@ == a@ + (b@ + c@),
{
    assert((a@ + b@) + c@ =~= a@ + (b@ + c@));
}

/// Extending a stream with the streams `[s1, s2]` gives the same trees as
/// extending it with the trees of `s1` and then those of `s2`.
pub proof fn lemma_extend_flattens<'a>(base: TokenStream<'a>, s1: TokenStream<'a>, s2: TokenStream<'a>)
    ensures
        base@ + streams_view(seq![s1, s2]).flatten() == (base@ + s1@) + s2@,
{
    let v = streams_view(seq![s1, s2]);
    assert(v =~= seq![s1@, s2@]);
    assert(v.drop_first() =~= seq![s2@]);
    assert(v.drop_first().drop_first() =~= Seq::<Seq<crate::tree::TreeView>>::empty());
    assert(v.flatten() =~= s1@ + s2@) by {
        reveal_with_fuel(Seq::flatten, 3);
    }
    assert(base@ + (s1@ + s2@) =~= (base@ + s1@) + s2@);
}

} // verus!
