use vstd::prelude::*;

verus! {

/// What `url` makes of a path joined onto a base URL: the serialized URL,
/// or `None` where either does not parse.
pub uninterp spec fn joined_url(base: Seq<char>, path: Seq<char>) -> Option<Seq<char>>;

/// What `url` makes of a URL once the pairs are appended, percent-encoded,
/// to its query; `None` where the text does not parse as a URL.
pub uninterp spec fn url_with_pairs(url: Seq<char>, pairs: Seq<(Seq<char>, Seq<char>)>) -> Option<
    Seq<char>,
>;

/// A URL with the pairs appended to its query; a text that is not a URL
/// stays as it is.
pub open spec fn appended_url(url: Seq<char>, pairs: Seq<(Seq<char>, Seq<char>)>) -> Seq<char> {
    match url_with_pairs(url, pairs) {
        Some(text) => text,
        None => url,
    }
}

/// The view of a list of text pairs.
pub open spec fn pairs_view(pairs: Seq<(String, String)>) -> Seq<(Seq<char>, Seq<char>)> {
    pairs.map_values(|p: (String, String)| (p.0@, p.1@))
}

/// Relies on `url::Url::join`, after `url::Url::parse` reads the base: the
/// path is resolved against the base as a browser would; the text of the
/// result, or the error of whichever of the two failed.
#[verifier::external_body]
fn join_url(base: &str, path: &str) -> (r: Result<String, url::ParseError>)
    ensures
        r is Ok <==> joined_url(base@, path@) is Some,
        r is Ok ==> r->Ok_0@ == joined_url(base@, path@)->Some_0,
{
    let base = url::Url::parse(base)?;
    Ok(String::from(base.join(path)?))
}

/// Relies on `url::Url::query_pairs_mut` and `form_urlencoded::Serializer::extend_pairs`,
/// after `url::Url::parse` reads the text: the pairs are appended to the
/// query in the order given; the parse error where the text is not a URL.
#[verifier::external_body]
fn append_query_pairs(url: &str, pairs: &Vec<(String, String)>) -> (r: Result<
    String,
    url::ParseError,
>)
    ensures
        r is Ok <==> url_with_pairs(url@, pairs_view(pairs@)) is Some,
        r is Ok ==> r->Ok_0@ == url_with_pairs(url@, pairs_view(pairs@))->Some_0,
{
    let mut u = url::Url::parse(url)?;
    u.query_pairs_mut().extend_pairs(pairs.iter());
    Ok(String::from(u))
}

/// A fully qualified URL, held as its serialized text.
#[derive(Debug)]
pub struct Url {
    text: String,
}

impl View for Url {
    type V = Seq<char>;

    closed spec fn view(&self) -> Seq<char> {
        self.text@
    }
}

impl Url {
    /// Resolves `path` against `base`; the error of `url` where that fails.
    pub fn join(base: &str, path: &str) -> (r: Result<Url, url::ParseError>)
        ensures
            r is Ok <==> joined_url(base@, path@) is Some,
            r is Ok ==> r->Ok_0@ == joined_url(base@, path@)->Some_0,
    {
        match join_url(base, path) {
            Ok(text) => Ok(Url { text }),
            Err(e) => Err(e),
        }
    }

    /// The serialized URL.
    pub fn as_str(&self) -> (r: &str)
        ensures
            r@ == self@,
    {
        self.text.as_str()
    }

    /// Appends the pairs to the query of this URL; a text that `url` does not
    /// read as a URL is left as it is.
    pub fn extend_query(&mut self, pairs: &Vec<(String, String)>)
        ensures
            final(self)@ == appended_url(old(self)@, pairs_view(pairs@)),
    {
        match append_query_pairs(self.text.as_str(), pairs) {
            Ok(text) => {
                self.text = text;
            },
            Err(_) => {},
        }
    }
}

} // verus!
