//! The client's configuration and the request that a check sends.

use vstd::prelude::*;

use crate::error::Error;

verus! {

/// Whether `url::Url::parse` accepts the text as an absolute URL.
pub uninterp spec fn url_parses(s: Seq<char>) -> bool;

/// The serialization of the URL that `url::Url::join` resolves from `path`
/// against the absolute URL parsed from `base`, or `None` where either step
/// fails.
pub uninterp spec fn url_joined(base: Seq<char>, path: Seq<char>) -> Option<Seq<char>>;

/// Relies on `url::Url::parse` (re-exported as `reqwest::Url`): it succeeds
/// exactly when the text is an absolute URL. A text without `':'` has no
/// scheme, and the parser then fails with `RelativeUrlWithoutBase`.
#[verifier::external_body]
fn parse_url(s: &str) -> (r: Result<(), reqwest::UrlError>)
    ensures
        r is Ok <==> url_parses(s@),
        !s@.contains(':') ==> r is Err,
{
    reqwest::Url::parse(s).map(|_| ())
}

/// Relies on `url::Url::parse` and `url::Url::join`: the base is parsed, the
/// path is resolved against it, and the result is serialized.
#[verifier::external_body]
fn join_url(base: &str, path: &str) -> (r: Result<String, reqwest::UrlError>)
    ensures
        match r {
            Ok(u) => url_joined(base@, path@) == Some(u@),
            Err(_) => url_joined(base@, path@) is None,
        },
{
    reqwest::Url::parse(base).and_then(|b| b.join(path)).map(|u| u.into_string())
}

/// The address used until another base is set.
pub open spec fn default_base() -> Seq<char> {
    "http://api.grammarbot.io"@
}

/// The default language code.
pub open spec fn default_language() -> Seq<char> {
    "en-US"@
}

/// The path of the check endpoint, relative to the base.
pub open spec fn check_path() -> Seq<char> {
    "/v2/check"@
}

/// The name of the query parameter that carries the text.
pub open spec fn text_param() -> Seq<char> {
    "text"@
}

/// The configuration that a `Client` holds.
pub struct ClientView {
    pub api_key: Seq<char>,
    pub language: Seq<char>,
    /// The base address as it was last accepted.
    pub base: Seq<char>,
}

impl ClientView {
    pub open spec fn with_api_key(self, key: Seq<char>) -> ClientView {
        ClientView { api_key: key, ..self }
    }

    pub open spec fn with_language(self, code: Seq<char>) -> ClientView {
        ClientView { language: code, ..self }
    }

    /// The configuration after setting the base to `s`, or `None` where `s`
    /// is not an absolute URL.
    pub open spec fn with_base(self, s: Seq<char>) -> Option<ClientView> {
        if url_parses(s) {
            Some(ClientView { base: s, ..self })
        } else {
            None
        }
    }

    /// The address that a check is sent to.
    pub open spec fn check_target(self) -> Option<Seq<char>> {
        url_joined(self.base, check_path())
    }
}

/// Setting the API key or the language twice keeps only the last value, and
/// any text is accepted, the empty one included.
pub proof fn last_setting_wins(v: ClientView, first: Seq<char>, second: Seq<char>)
    ensures
        v.with_api_key(first).with_api_key(second) == v.with_api_key(second),
        v.with_language(first).with_language(second) == v.with_language(second),
        v.with_api_key(second).api_key == second,
        v.with_language(second).language == second,
        v.with_api_key(Seq::empty()).api_key == Seq::<char>::empty(),
        v.with_language(Seq::empty()).language == Seq::<char>::empty(),
{
}

/// Setting the base to an absolute URL succeeds, and every later check is sent
/// to the check endpoint under that URL, whatever the key and the language.
pub proof fn base_directs_checks(v: ClientView, s: Seq<char>, key: Seq<char>, code: Seq<char>)
    requires
        url_parses(s),
    ensures
        v.with_base(s) matches Some(w) && w.check_target() == url_joined(s, check_path())
            && w.with_api_key(key).with_language(code).check_target() == url_joined(
            s,
            check_path(),
        ),
{
}

/// The primary way to interact with the API: the configuration of requests.
pub struct Client {
    api_key: String,
    language: String,
    base: String,
}

/// A GET request: the address and the query pairs, in order.
pub struct Request {
    pub url: String,
    pub query: Vec<(String, String)>,
}

impl View for Client {
    type V = ClientView;

    closed spec fn view(&self) -> ClientView {
        ClientView { api_key: self.api_key@, language: self.language@, base: self.base@ }
    }
}

impl Client {
    /// Create a new `Client` with the default language and base.
    pub fn new(api_key: &str) -> (r: Self)
        ensures
            r@ == (ClientView {
                api_key: api_key@,
                language: default_language(),
                base: default_base(),
            }),
    {
        Client {
            api_key: api_key.to_owned(),
            language: "en-US".to_owned(),
            base: "http://api.grammarbot.io".to_owned(),
        }
    }

    /// Set the API key for the client.
    pub fn api_key(&mut self, api_key: &str) -> (r: &mut Self)
        ensures
            r@ == old(self)@.with_api_key(api_key@),
            *final(self) == *final(r),
    {
        self.api_key = api_key.to_owned();
        self
    }

    /// Set the language for the client.
    pub fn language(&mut self, language: &str) -> (r: &mut Self)
        ensures
            r@ == old(self)@.with_language(language@),
            *final(self) == *final(r),
    {
        self.language = language.to_owned();
        self
    }

    /// The API key that the client holds.
    pub fn current_api_key(&self) -> (r: &str)
        ensures
            r@ == self@.api_key,
    {
        self.api_key.as_str()
    }

    /// The language code that the client holds.
    pub fn current_language(&self) -> (r: &str)
        ensures
            r@ == self@.language,
    {
        self.language.as_str()
    }

    /// Set the base URL for the client. A text that is not an absolute URL is
    /// refused, and the client is left as it was.
    pub fn base(&mut self, base: &str) -> (r: Result<&mut Self, Error>)
        ensures
            match r {
                Ok(c) => old(self)@.with_base(base@) == Some(c@) && *final(self) == *final(c),
                Err(e) => old(self)@.with_base(base@) is None && *final(self) == *old(self)
                    && e is InvalidUrl,
            },
            !base@.contains(':') ==> r is Err,
    {
        match parse_url(base) {
            Ok(()) => {
                self.base = base.to_owned();
                Ok(self)
            },
            Err(source) => Err(Error::InvalidUrl { source }),
        }
    }

    fn request(&self, path: &str, query: Vec<(String, String)>) -> (r: Result<Request, Error>)
        ensures
            match r {
                Ok(q) => url_joined(self@.base, path@) == Some(q.url@) && q.query == query,
                Err(e) => url_joined(self@.base, path@) is None && e is InvalidUrl,
            },
    {
        match join_url(self.base.as_str(), path) {
            Ok(url) => Ok(Request { url, query }),
            Err(source) => Err(Error::InvalidUrl { source }),
        }
    }

    /// The request that checks `text`: a GET of the check endpoint under the
    /// base, with the text as its one query parameter. The API key and the
    /// language are not sent.
    pub fn check_request(&self, text: &str) -> (r: Result<Request, Error>)
        ensures
            match r {
                Ok(q) => self@.check_target() == Some(q.url@) && q.query@.len() == 1
                    && q.query@[0].0@ == text_param() && q.query@[0].1@ == text@,
                Err(e) => self@.check_target() is None && e is InvalidUrl,
            },
    {
        let mut query: Vec<(String, String)> = Vec::new();
        query.push(("text".to_owned(), text.to_owned()));
        self.request("/v2/check", query)
    }
}

} // verus!
