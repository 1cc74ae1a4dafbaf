use vstd::prelude::*;

verus! {

/// Whether `url::Url::parse` accepts the string as an absolute URL.
pub uninterp spec fn url_parse_ok(s: Seq<char>) -> bool;

/// The serialization of the URL that `url::Url::parse` reads out of the
/// string; meaningful only where `url_parse_ok` holds.
pub uninterp spec fn url_normalized(s: Seq<char>) -> Seq<char>;

/// Relies on `url::Url::parse`, which accepts or rejects a string and
/// normalizes the accepted ones as a function of the characters alone, and
/// on `String::from(Url)`, which returns the parsed URL's serialization.
#[verifier::external_body]
fn parse_url_text(s: &str) -> (r: Option<String>)
    ensures
        r is Some <==> url_parse_ok(s@),
        r is Some ==> r->0@ == url_normalized(s@),
{
    match url::Url::parse(s) {
        Ok(u) => Some(String::from(u)),
        Err(_) => None,
    }
}

/// An absolute URL, kept as the normalized serialization that parsing it
/// produced.
pub struct Url {
    text: String,
}

impl View for Url {
    type V = Seq<char>;

    closed spec fn view(&self) -> Seq<char> {
        self.text@
    }
}

impl Url {
    /// Parse an absolute URL; `None` exactly when the text is not one.
    pub fn parse(s: &str) -> (r: Option<Url>)
        ensures
            r is Some <==> url_parse_ok(s@),
            r is Some ==> r->0@ == url_normalized(s@),
    {
        match parse_url_text(s) {
            Some(text) => Some(Url { text }),
            None => None,
        }
    }

    /// The URL's serialization.
    pub fn as_str(&self) -> (s: &str)
        ensures
            s@ == self@,
    {
        self.text.as_str()
    }
}

impl Clone for Url {
    /// A clone is the same URL.
    fn clone(&self) -> (r: Self)
        ensures
            r@ == self@,
    {
        Url { text: self.text.clone() }
    }
}

} // verus!
