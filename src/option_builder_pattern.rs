use crate::{opt_text, pairs_text, lemma_pairs_text_push, RequestView};
use vstd::prelude::*;

verus! {

/// The slots of a request being collected, seen as plain values.
pub struct DraftView {
    pub url: Option<Seq<char>>,
    pub method: Option<Seq<char>>,
    pub body: Option<Seq<char>>,
    pub headers: Seq<(Seq<char>, Seq<char>)>,
}

/// Which mandatory field a request lacked.
#[derive(PartialEq, Eq, Structural, Debug, Clone, Copy)]
pub enum BuildError {
    MissingUrl,
    MissingMethod,
}

impl DraftView {
    /// What building yields: the url is checked first, then the method.
    pub open spec fn outcome(self) -> Result<RequestView, BuildError> {
        if self.url is None {
            Err(BuildError::MissingUrl)
        } else if self.method is None {
            Err(BuildError::MissingMethod)
        } else {
            Ok(
                RequestView {
                    url: self.url.unwrap(),
                    method: self.method.unwrap(),
                    body: self.body,
                    headers: self.headers,
                },
            )
        }
    }
}

/// A request checked for its mandatory fields only when it is built.
pub struct RequestBuilder {
    url: Option<String>,
    method: Option<String>,
    body: Option<String>,
    headers: Vec<(String, String)>,
}

impl View for RequestBuilder {
    type V = DraftView;

    closed spec fn view(&self) -> DraftView {
        DraftView {
            url: opt_text(self.url),
            method: opt_text(self.method),
            body: opt_text(self.body),
            headers: pairs_text(self.headers@),
        }
    }
}

impl Default for RequestBuilder {
    /// An empty builder.
    fn default() -> (r: Self)
        ensures
            r@ == (DraftView { url: None, method: None, body: None, headers: seq![] }),
    {
        let r = RequestBuilder { url: None, method: None, body: None, headers: Vec::new() };
        assert(r@.headers =~= seq![]);
        r
    }
}

/// The outcome of a build, seen as plain values.
pub open spec fn outcome_view(r: Result<Request, BuildError>) -> Result<RequestView, BuildError> {
    match r {
        Ok(req) => Ok(req@),
        Err(e) => Err(e),
    }
}

impl RequestBuilder {
    /// Sets the url, replacing any earlier one.
    pub fn url(self, url: String) -> (r: Self)
        ensures
            r@ == (DraftView { url: Some(url@), ..self@ }),
    {
        RequestBuilder { url: Some(url), ..self }
    }

    /// Sets the method, replacing any earlier one.
    pub fn method(self, method: String) -> (r: Self)
        ensures
            r@ == (DraftView { method: Some(method@), ..self@ }),
    {
        RequestBuilder { method: Some(method), ..self }
    }

    /// Sets the body, replacing any earlier one.
    pub fn body(self, body: String) -> (r: Self)
        ensures
            r@ == (DraftView { body: Some(body@), ..self@ }),
    {
        RequestBuilder { body: Some(body), ..self }
    }

    /// Appends a header after those already added; equal keys are all kept.
    pub fn header(self, header: String, value: String) -> (r: Self)
        ensures
            r@ == (DraftView { headers: self@.headers.push((header@, value@)), ..self@ }),
    {
        let ghost old_headers = self.headers@;
        let mut headers = self.headers;
        let ghost pair = (header, value);
        headers.push((header, value));
        proof {
            lemma_pairs_text_push(old_headers, pair);
        }
        RequestBuilder { url: self.url, method: self.method, body: self.body, headers }
    }

    /// The request, or the first missing field: the url is checked before the method.
    pub fn build(self) -> (r: Result<Request, BuildError>)
        ensures
            outcome_view(r) == self@.outcome(),
    {
        match self.url {
            None => Err(BuildError::MissingUrl),
            Some(url) => match self.method {
                None => Err(BuildError::MissingMethod),
                Some(method) => Ok(
                    Request { url, method, body: self.body, headers: self.headers },
                ),
            },
        }
    }
}

/// A built request.
pub struct Request {
    pub url: String,
    pub method: String,
    pub body: Option<String>,
    pub headers: Vec<(String, String)>,
}

impl View for Request {
    type V = RequestView;

    open spec fn view(&self) -> RequestView {
        RequestView {
            url: self.url@,
            method: self.method@,
            body: opt_text(self.body),
            headers: pairs_text(self.headers@),
        }
    }
}

/// With neither mandatory field set, building reports the missing url, not the missing
/// method.
pub proof fn lemma_url_checked_first(d: DraftView)
    requires
        d.url is None,
        d.method is None,
    ensures
        d.outcome() == Err::<RequestView, BuildError>(BuildError::MissingUrl),
{
}

} // verus!
