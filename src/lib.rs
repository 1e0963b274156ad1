//! Lexical tokenizer for instruction descriptions: a byte scanner and the
//! token tree data model it produces.

mod iter;
mod laws;
mod lex;
mod text;
mod tree;

pub use text::Text;
pub use tree::{
    streams_view, trees_view, Delimeter, Literal, LiteralView, TokenStream, TokenTree, TreeView,
};
pub use lex::{
    bytes_text, is_ident_continue, is_ident_start, is_punct, lex, scan, scan_ident, LexError,
};
pub use iter::{IntoIter, Iter};
pub use laws::{
    lemma_concat_associative, lemma_extend_flattens, lemma_freeze_idempotent, lemma_order_preserved,
};
