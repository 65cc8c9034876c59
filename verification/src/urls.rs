//! Cluster addresses as the library reads them.
//!
//! A `StoreUrl` keeps the two things the routing logic ever looks at: the
//! normalized serialization of the address and its scheme.  Parsing and
//! normalization are the `url` crate's job, reached through one trusted
//! wrapper.

use vstd::prelude::*;

verus! {

/// A cluster address: the normalized serialization of a URL together with
/// its scheme.
#[derive(Clone, Debug)]
pub struct StoreUrl {
    pub text: String,
    pub scheme: String,
}

/// What `url::Url::parse` makes of a string: `None` when the string is not
/// an absolute URL, otherwise the normalized serialization paired with the
/// scheme.  The outcome depends on the string alone.
pub uninterp spec fn parse_url_spec(s: Seq<char>) -> Option<(Seq<char>, Seq<char>)>;

pub open spec fn url_parses(s: Seq<char>) -> bool {
    parse_url_spec(s) is Some
}

/// The normalized serialization of a parsable URL string.
pub open spec fn url_norm(s: Seq<char>) -> Seq<char> {
    parse_url_spec(s).unwrap().0
}

/// The scheme of a parsable URL string.
pub open spec fn url_scheme(s: Seq<char>) -> Seq<char> {
    parse_url_spec(s).unwrap().1
}

impl StoreUrl {
    /// An equal copy; written out so that the equality is a contract.
    pub fn duplicate(&self) -> (r: Self)
        ensures
            r == *self,
    {
        StoreUrl { text: self.text.clone(), scheme: self.scheme.clone() }
    }

    pub fn as_str(&self) -> (r: &str)
        ensures
            r@ == self.text@,
    {
        self.text.as_str()
    }

    /// Two addresses are the same exactly when their normalized
    /// serializations agree.
    pub fn same_address(&self, other: &StoreUrl) -> (r: bool)
        ensures
            r == (self.text@ == other.text@),
    {
        self.text == other.text
    }
}

/// Some entry of the list has this normalized text.
pub open spec fn text_present(urls: Seq<StoreUrl>, t: Seq<char>) -> bool {
    exists|i: int| 0 <= i < urls.len() && (#[trigger] urls[i]).text@ == t
}

pub(crate) proof fn lemma_text_present_push(urls: Seq<StoreUrl>, x: StoreUrl, t: Seq<char>)
    requires
        text_present(urls, t),
    ensures
        text_present(urls.push(x), t),
{
    let i = choose|i: int| 0 <= i < urls.len() && (#[trigger] urls[i]).text@ == t;
    assert(urls.push(x)[i].text@ == t);
}

/// Whether the list already holds an entry with this URL's text.
pub(crate) fn contains_text(urls: &Vec<StoreUrl>, u: &StoreUrl) -> (r: bool)
    ensures
        r == text_present(urls@, u.text@),
{
    let mut idx: usize = 0;
    while idx < urls.len()
        invariant
            idx <= urls@.len(),
            forall|i: int| 0 <= i < idx ==> (#[trigger] urls@[i]).text@ != u.text@,
        decreases urls@.len() - idx,
    {
        if urls[idx].same_address(u) {
            return true;
        }
        idx += 1;
    }
    false
}

/// Relies on `url::Url::parse`: success depends on the input string alone,
/// `Url::to_string` yields the normalized serialization, and `Url::scheme`
/// the scheme in lower case.
#[verifier::external_body]
pub(crate) fn parse_url(s: &str) -> (r: Option<StoreUrl>)
    ensures
        r matches Some(u) ==> parse_url_spec(s@) == Some((u.text@, u.scheme@)),
        (r is None) == (parse_url_spec(s@) is None),
{
    match url::Url::parse(s) {
        Ok(u) => {
            let scheme = u.scheme().to_string();
            Some(StoreUrl { text: u.to_string(), scheme })
        }
        Err(_) => None,
    }
}

/// Relies on `str` equality comparing the underlying characters.
#[verifier::external_body]
pub(crate) fn str_eq(a: &str, b: &str) -> (r: bool)
    ensures
        r == (a@ == b@),
{
    a == b
}

} // verus!
