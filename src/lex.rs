use vstd::prelude::*;
use crate::text::Text;
use crate::tree::{TokenStream, TokenTree, TreeView};

verus! {

/// Why a scan failed.
#[derive(Clone, Copy, Debug, PartialEq, Eq, Hash, Structural)]
pub enum LexError {
    /// A byte that starts no token, with its offset in the input.
    UnclassifiableByte { byte: u8, offset: usize },
}

/// `.`
pub const DOT: u8 = 46;
/// `,`
pub const COMMA: u8 = 44;
/// `$`
pub const DOLLAR: u8 = 36;
/// `_`
pub const UNDERSCORE: u8 = 95;

/// A byte that forms a punctuation token on its own: `.` or `,`.
pub open spec fn is_punct(b: u8) -> bool {
    b == DOT || b == COMMA
}

/// A byte that may start an identifier: an ASCII letter, `$` or `_`.
pub open spec fn is_ident_start(b: u8) -> bool {
    (65 <= b <= 90) || (97 <= b <= 122) || b == DOLLAR || b == UNDERSCORE
}

/// A byte that may continue an identifier: a start byte or an ASCII digit.
pub open spec fn is_ident_continue(b: u8) -> bool {
    is_ident_start(b) || (48 <= b <= 57)
}

/// The characters that a run of ASCII bytes spells.
pub open spec fn bytes_text(b: Seq<u8>) -> Seq<char> {
    b.map_values(|x: u8| x as char)
}

/// Puts `p` in front of a successful scan's trees; an error passes through.
pub open spec fn prepend(p: Seq<TreeView>, r: Result<Seq<TreeView>, LexError>) -> Result<
    Seq<TreeView>,
    LexError,
> {
    match r {
        Ok(ts) => Ok(p + ts),
        Err(e) => Err(e),
    }
}

/// The trees that the bytes of `b` from offset `i` on scan to, or the first
/// failure among them.
pub open spec fn scan(b: Seq<u8>, i: int) -> Result<Seq<TreeView>, LexError>
    decreases b.len() - i, 0int,
{
    if i < 0 || i >= b.len() {
        Ok(Seq::empty())
    } else if is_punct(b[i]) {
        prepend(seq![TreeView::Punct(b[i] as char)], scan(b, i + 1))
    } else if is_ident_start(b[i]) {
        scan_ident(b, i, i + 1)
    } else {
        Err(LexError::UnclassifiableByte { byte: b[i], offset: i as usize })
    }
}

/// The scan of `b` from inside an identifier that began at `start`, whose
/// bytes up to `j` all continue it.
pub open spec fn scan_ident(b: Seq<u8>, start: int, j: int) -> Result<Seq<TreeView>, LexError>
    decreases b.len() - j, 1int,
{
    if 0 <= j < b.len() && is_ident_continue(b[j]) {
        scan_ident(b, start, j + 1)
    } else {
        prepend(seq![TreeView::Ident(bytes_text(b.subrange(start, j)))], scan(b, j))
    }
}

/// What a scan's result stands for.
pub open spec fn lex_view<'a>(r: Result<TokenStream<'a>, LexError>) -> Result<
    Seq<TreeView>,
    LexError,
> {
    match r {
        Ok(s) => Ok(s@),
        Err(e) => Err(e),
    }
}

/// Relies on std::str::from_utf8: ASCII bytes are valid UTF-8, and the string
/// slice it returns for them holds one character per byte.
#[verifier::external_body]
fn ascii_str(b: &[u8]) -> (r: Option<&str>)
    ensures
        (forall|i: int| 0 <= i < b@.len() ==> b@[i] < 128u8) ==> r is Some && r->0@ == bytes_text(
            b@,
        ),
{
    std::str::from_utf8(b).ok()
}

fn byte_is_ident_start(c: u8) -> (r: bool)
    ensures
        r == is_ident_start(c),
{
    (65 <= c && c <= 90) || (97 <= c && c <= 122) || c == DOLLAR || c == UNDERSCORE
}

fn byte_is_ident_continue(c: u8) -> (r: bool)
    ensures
        r == is_ident_continue(c),
{
    byte_is_ident_start(c) || (48 <= c && c <= 57)
}

proof fn lemma_prepend_push(out: Seq<TreeView>, t: TreeView, r: Result<Seq<TreeView>, LexError>)
    ensures
        prepend(out, prepend(seq![t], r)) == prepend(out.push(t), r),
{
    if let Ok(ts) = r {
        assert(out + (seq![t] + ts) =~= out.push(t) + ts);
    }
}

/// Scans `input` into a stream of trees whose identifiers borrow their text
/// from `input`.
///
/// Punctuation is `.` and `,`; an identifier is an ASCII letter, `$` or `_`
/// followed by any run of letters, digits, `$` and `_`. Any other byte stops
/// the scan with `UnclassifiableByte`, and no stream is returned.
pub fn lex<'a>(input: &'a [u8]) -> (r: Result<TokenStream<'a>, LexError>)
    ensures
        lex_view(r) == scan(input@, 0),
{
    let ghost b = input@;
    let mut out = TokenStream::new();
    let mut i: usize = 0;
    assert(prepend(out@, scan(b, 0)) =~= scan(b, 0)) by {
        if let Ok(ts) = scan(b, 0) {
            assert(out@ + ts =~= ts);
        }
    }
    while i < input.len()
        invariant
            b == input@,
            i <= b.len(),
            prepend(out@, scan(b, i as int)) == scan(b, 0),
        decreases b.len() - i,
    {
        let c = input[i];
        if c == DOT || c == COMMA {
            proof {
                lemma_prepend_push(out@, TreeView::Punct(c as char), scan(b, i + 1));
            }
            out.push(TokenTree::Punct(c as char));
            i = i + 1;
        } else if byte_is_ident_start(c) {
            let start = i;
            i = i + 1;
            while i < input.len() && byte_is_ident_continue(input[i])
                invariant
                    b == input@,
                    start < i <= b.len(),
                    scan_ident(b, start as int, i as int) == scan(b, start as int),
                    forall|k: int| start <= k < i ==> #[trigger] b[k] < 128u8,
                decreases b.len() - i,
            {
                i = i + 1;
            }
            let word = &input[start..i];
            let text = ascii_str(word);
            assert(text is Some);
            let text = text.unwrap();
            let ghost t = TreeView::Ident(bytes_text(b.subrange(start as int, i as int)));
            proof {
                lemma_prepend_push(out@, t, scan(b, i as int));
            }
            out.push(TokenTree::Ident(Text::Borrowed(text)));
        } else {
            return Err(LexError::UnclassifiableByte { byte: c, offset: i });
        }
    }
    assert(prepend(out@, scan(b, i as int)) =~= Ok(out@)) by {
        assert(out@ + Seq::<TreeView>::empty() =~= out@);
    }
    Ok(out)
}

} // verus!
