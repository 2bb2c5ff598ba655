//! The webhook endpoint: an absolute `http` or `https` URL.

use crate::line::has_prefix;
use vstd::prelude::*;

verus! {

/// What `url::Url::parse` makes of `text`: the serialization of the URL it
/// read, or the wording of the error it gave.
pub uninterp spec fn url_parse(text: Seq<char>) -> Result<Seq<char>, Seq<char>>;

/// Calls `url::Url::parse` and hands back the URL's serialization, or the
/// error as the parser words it. The contract names the outcome and claims
/// nothing else of it.
#[verifier::external_body]
fn parse_url(text: &str) -> (parsed: Result<String, String>)
    ensures
        match parsed {
            Ok(url) => url_parse(text@) == Ok::<Seq<char>, Seq<char>>(url@),
            Err(reason) => url_parse(text@) == Err::<Seq<char>, Seq<char>>(reason@),
        },
{
    match url::Url::parse(text) {
        Ok(url) => Ok(String::from(url)),
        Err(err) => Err(err.to_string()),
    }
}

/// A serialized URL whose scheme is `http` or `https`.
pub open spec fn has_web_scheme(url: Seq<char>) -> bool {
    "http://"@.is_prefix_of(url) || "https://"@.is_prefix_of(url)
}

/// The URLs a message may be posted to: serializations of a parsed URL with
/// a web scheme.
pub open spec fn is_endpoint(url: Seq<char>) -> bool {
    &&& has_web_scheme(url)
    &&& exists|text: Seq<char>| url_parse(text) == Ok::<Seq<char>, Seq<char>>(url)
}

/// Why a text is no endpoint.
#[derive(Debug)]
pub enum UrlError {
    /// The text is no absolute URL; `reason` is the parser's wording.
    Malformed { reason: String },
    /// The text is a URL, serialized as `url`, of another scheme than `http`
    /// or `https`.
    UnsupportedScheme { url: String },
}

impl UrlError {
    /// Whether this error is the one that `text` is refused with: the
    /// parser's own, or the scheme of the URL that it read.
    pub open spec fn refuses(self, text: Seq<char>) -> bool {
        match self {
            UrlError::Malformed { reason } => url_parse(text) == Err::<Seq<char>, Seq<char>>(
                reason@,
            ),
            UrlError::UnsupportedScheme { url } => url_parse(text) == Ok::<Seq<char>, Seq<char>>(
                url@,
            ) && !has_web_scheme(url@),
        }
    }

    /// The wording of the error.
    pub open spec fn text(self) -> Seq<char> {
        match self {
            UrlError::Malformed { reason } => reason@,
            UrlError::UnsupportedScheme { url } => "URL scheme is not http or https: "@ + url@,
        }
    }

    /// The error in words, for a diagnostic.
    pub fn message(&self) -> (message: String)
        ensures
            message@ == self.text(),
    {
        match self {
            UrlError::Malformed { reason } => reason.clone(),
            UrlError::UnsupportedScheme { url } => {
                let mut message = String::from_str("URL scheme is not http or https: ");
                message.append(url.as_str());
                message
            },
        }
    }
}

/// The endpoint that `text` stands for, in serialized form, if it stands
/// for one.
pub open spec fn endpoint_of(text: Seq<char>) -> Option<Seq<char>> {
    match url_parse(text) {
        Ok(url) => if has_web_scheme(url) {
            Some(url)
        } else {
            None
        },
        Err(_) => None,
    }
}

/// Where the messages go. A value of this type always holds a valid
/// endpoint, so whoever has one need not look at the URL again.
#[derive(Debug)]
pub struct Endpoint {
    url: String,
}

impl View for Endpoint {
    type V = Seq<char>;

    /// The URL in serialized form.
    closed spec fn view(&self) -> Seq<char> {
        self.url@
    }
}

impl Endpoint {
    #[verifier::type_invariant]
    spec fn valid(self) -> bool {
        is_endpoint(self.url@)
    }

    /// Reads `text` as an endpoint. It is one exactly if it parses as an
    /// absolute URL and that URL's scheme is `http` or `https`; the endpoint
    /// then holds the URL as the parser serializes it.
    pub fn parse(text: &str) -> (parsed: Result<Endpoint, UrlError>)
        ensures
            match parsed {
                Ok(endpoint) => endpoint_of(text@) == Some(endpoint@),
                Err(error) => endpoint_of(text@) is None && error.refuses(text@),
            },
    {
        match parse_url(text) {
            Ok(url) => {
                if has_prefix(url.as_str(), "http://") || has_prefix(url.as_str(), "https://") {
                    Ok(Endpoint { url })
                } else {
                    Err(UrlError::UnsupportedScheme { url })
                }
            },
            Err(reason) => Err(UrlError::Malformed { reason }),
        }
    }

    /// The URL to post to.
    pub fn as_str(&self) -> (url: &str)
        ensures
            url@ == self@,
            is_endpoint(url@),
    {
        proof {
            use_type_invariant(self);
        }
        self.url.as_str()
    }
}

impl Clone for Endpoint {
    fn clone(&self) -> (copy: Endpoint)
        ensures
            copy@ == self@,
    {
        proof {
            use_type_invariant(self);
        }
        Endpoint { url: self.url.clone() }
    }
}

} // verus!
