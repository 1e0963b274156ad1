use vstd::prelude::*;

verus! {

/// Token text: either a view borrowed from an input buffer, or an owned copy.
///
/// Both modes stand for the same characters; equality compares the
/// characters only, never the mode.
#[derive(Debug)]
pub enum Text<'a> {
    Borrowed(&'a str),
    Owned(String),
}

impl<'a> View for Text<'a> {
    type V = Seq<char>;

    open spec fn view(&self) -> Seq<char> {
        match self {
            Text::Borrowed(s) => s@,
            Text::Owned(s) => s@,
        }
    }
}

/// Relies on `str`'s `==`: two string slices are equal exactly when they
/// hold the same characters.
#[verifier::external_body]
fn str_eq(a: &str, b: &str) -> (r: bool)
    ensures
        r == (a@ == b@),
{
    a == b
}

impl<'a> Text<'a> {
    /// Whether the text holds no reference to an outside buffer.
    pub open spec fn is_owned(&self) -> bool {
        self is Owned
    }

    pub fn as_str(&self) -> (r: &str)
        ensures
            r@ == self@,
    {
        match self {
            Text::Borrowed(s) => s,
            Text::Owned(s) => s.as_str(),
        }
    }

    /// A copy that keeps the ownership as it is: a borrowed view stays a
    /// view into the same buffer.
    pub fn duplicate(&self) -> (r: Text<'a>)
        ensures
            r@ == self@,
            r.is_owned() == self.is_owned(),
    {
        match self {
            Text::Borrowed(s) => Text::Borrowed(s),
            Text::Owned(s) => Text::Owned(s.clone()),
        }
    }

    /// An owned copy of the same characters, tied to no buffer.
    pub fn to_owned_text(&self) -> (r: Text<'static>)
        ensures
            r@ == self@,
            r.is_owned(),
    {
        Text::Owned(self.as_str().to_owned())
    }
}

impl<'a> Clone for Text<'a> {
    fn clone(&self) -> (r: Text<'a>)
        ensures
            r@ == self@,
            r.is_owned() == self.is_owned(),
    {
        self.duplicate()
    }
}

impl<'a, 'b> PartialEq<Text<'b>> for Text<'a> {
    fn eq(&self, other: &Text<'b>) -> (r: bool) {
        str_eq(self.as_str(), other.as_str())
    }
}

impl<'a, 'b> vstd::std_specs::cmp::PartialEqSpecImpl<Text<'b>> for Text<'a> {
    open spec fn obeys_eq_spec() -> bool {
        true
    }

    open spec fn eq_spec(&self, other: &Text<'b>) -> bool {
        self@ == other@
    }
}

impl<'a> Eq for Text<'a> {
}

impl<'a> core::hash::Hash for Text<'a> {
    /// Relies on `str`'s `Hash`: the hash depends on the characters alone, so
    /// a borrowed and an owned text that are equal hash alike.
    #[verifier::external_body]
    fn hash<H: core::hash::Hasher>(&self, state: &mut H) {
        self.as_str().hash(state);
    }
}

} // verus!
