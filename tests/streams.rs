use insngen_core::{lex, Delimeter, Literal, Text, TokenStream, TokenTree};

fn ident(s: &str) -> TokenTree<'_> {
    TokenTree::Ident(Text::Borrowed(s))
}

fn is_owned(s: &TokenStream<'_>) -> bool {
    let mut it = s.iter();
    while let Some(t) = it.next() {
        let ok = match t {
            TokenTree::Ident(Text::Borrowed(_)) => false,
            TokenTree::Lit(Literal::String(Text::Borrowed(_))) => false,
            TokenTree::Delimeted(_, inner) => is_owned(inner),
            _ => true,
        };
        if !ok {
            return false;
        }
    }
    true
}

#[test]
fn freeze_is_idempotent() {
    let s = lex(b"abc,def.g").unwrap();
    let once = s.freeze();
    let twice = once.freeze();
    assert_eq!(once, twice);
    assert_eq!(once, s);
    assert!(is_owned(&once));
    assert!(is_owned(&twice));
    assert!(!is_owned(&s));
}

#[test]
fn freeze_reaches_nested_groups() {
    let inner = TokenStream::from_trees(vec![
        ident("a"),
        TokenTree::Lit(Literal::String(Text::Borrowed("text"))),
        TokenTree::Lit(Literal::Character('c')),
        TokenTree::Lit(Literal::Integer(-170141183460469231731687303715884105728)),
    ]);
    let s = TokenStream::from_trees(vec![
        TokenTree::Delimeted(Delimeter::Brackets, inner),
        TokenTree::Punct(','),
    ]);
    let frozen = s.freeze();
    assert!(!is_owned(&s));
    assert!(is_owned(&frozen));
    assert_eq!(frozen, s);
}

#[test]
fn frozen_stream_outlives_input() {
    let frozen = {
        let input = b"keep.this".to_vec();
        lex(&input).unwrap().freeze()
    };
    let expected = TokenStream::from_trees(vec![ident("keep"), TokenTree::Punct('.'), ident("this")]);
    assert_eq!(frozen, expected);
}

#[test]
fn borrowed_and_owned_text_are_equal() {
    assert_eq!(Text::Borrowed("abc"), Text::Owned(String::from("abc")));
    assert_ne!(Text::Borrowed("abc"), Text::Owned(String::from("abd")));
    assert_eq!(Text::Borrowed("abc").to_owned_text(), Text::Owned(String::from("abc")));
    assert_eq!(Text::Owned(String::from("xy")).as_str(), "xy");
}

#[test]
fn building_from_trees_preserves_order() {
    let s = TokenStream::from_trees(vec![ident("t1"), TokenTree::Punct(','), ident("t2"), ident("t3")]);
    let mut it = s.iter();
    assert_eq!(it.size_hint(), (4, Some(4)));
    assert_eq!(it.next(), Some(&ident("t1")));
    assert_eq!(it.next(), Some(&TokenTree::Punct(',')));
    assert_eq!(it.len(), 2);
    assert_eq!(it.next(), Some(&ident("t2")));
    assert_eq!(it.next(), Some(&ident("t3")));
    assert_eq!(it.next(), None);
    assert_eq!(it.next(), None);
    assert_eq!(it.size_hint(), (0, Some(0)));
    let mut again = s.iter();
    assert_eq!(again.next(), Some(&ident("t1")));
    assert_eq!(s.get(3), Some(&ident("t3")));
    assert_eq!(s.get(4), None);
}

#[test]
fn concatenation_is_associative() {
    let a = || lex(b"a,b").unwrap();
    let b = || lex(b"c").unwrap();
    let c = || lex(b".d").unwrap();
    let left = a().concat(b()).concat(c());
    let right = a().concat(b().concat(c()));
    assert_eq!(left, right);
    assert_eq!(left.len(), 6);
}

#[test]
fn concatenation_keeps_order() {
    let joined = lex(b"a,b").unwrap().concat(lex(b".c").unwrap());
    let expected = TokenStream::from_trees(vec![
        ident("a"),
        TokenTree::Punct(','),
        ident("b"),
        TokenTree::Punct('.'),
        ident("c"),
    ]);
    assert_eq!(joined, expected);
}

#[test]
fn extending_with_streams_flattens() {
    let s1 = || lex(b"x,y").unwrap();
    let s2 = || lex(b".z").unwrap();
    let mut by_streams = lex(b"w").unwrap();
    by_streams.extend_streams(vec![s1(), s2()]);
    let mut by_trees = lex(b"w").unwrap();
    by_trees.extend_trees(s1().into_trees());
    by_trees.extend_trees(s2().into_trees());
    assert_eq!(by_streams, by_trees);
    assert_eq!(by_streams.len(), 6);
}

#[test]
fn building_from_streams_flattens() {
    let s = TokenStream::from_streams(vec![lex(b"a").unwrap(), TokenStream::new(), lex(b",b.").unwrap()]);
    let expected = TokenStream::from_trees(vec![
        ident("a"),
        TokenTree::Punct(','),
        ident("b"),
        TokenTree::Punct('.'),
    ]);
    assert_eq!(s, expected);
    assert_eq!(TokenStream::from_streams(vec![]), TokenStream::new());
}

#[test]
fn push_and_append() {
    let mut s = TokenStream::new();
    s.push(ident("a"));
    s.append(TokenStream::from_trees(vec![TokenTree::Punct('.')]));
    assert_eq!(s, lex(b"a.").unwrap());
}

#[test]
fn consuming_iteration_is_one_shot() {
    let mut s = lex(b"a,b").unwrap();
    let mut first = s.drain();
    assert_eq!(first.size_hint(), (3, Some(3)));
    assert_eq!(first.next(), Some(ident("a")));
    assert_eq!(first.next(), Some(TokenTree::Punct(',')));
    assert_eq!(first.next(), Some(ident("b")));
    assert_eq!(first.next(), None);
    assert_eq!(first.next(), None);
    assert!(s.is_empty());
    let mut second = s.drain();
    assert_eq!(second.len(), 0);
    assert_eq!(second.next(), None);
}

#[test]
fn into_iter_hands_out_in_order() {
    let s = lex(b"p.q").unwrap();
    let mut it = s.into_iter();
    assert_eq!(it.len(), 3);
    assert_eq!(it.next(), Some(ident("p")));
    assert_eq!(it.next(), Some(TokenTree::Punct('.')));
    assert_eq!(it.next(), Some(ident("q")));
    assert_eq!(it.next(), None);
}

#[test]
fn default_stream_is_empty() {
    let s: TokenStream<'static> = TokenStream::default();
    assert!(s.is_empty());
    assert_eq!(s, TokenStream::new());
}

#[test]
fn clone_keeps_ownership() {
    let s = lex(b"a.b").unwrap();
    let copy = s.clone();
    assert_eq!(copy, s);
    assert!(!is_owned(&copy));
    let frozen_copy = s.freeze().clone();
    assert!(is_owned(&frozen_copy));
    assert_eq!(frozen_copy, s);
    let lit = Literal::String(Text::Borrowed("q"));
    assert_eq!(lit.clone(), lit);
    assert_eq!(lit.freeze(), Literal::String(Text::Owned(String::from("q"))));
}
