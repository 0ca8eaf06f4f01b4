use vstd::prelude::*;

verus! {

/// The result of resolving the string `rel` as a URL reference against the
/// base URL string `base`: the serialization of the resolved URL, or `None`
/// where the two strings do not form a valid absolute URL.
pub uninterp spec fn url_join(base: Seq<char>, rel: Seq<char>) -> Option<Seq<char>>;

/// Relies on `url::Url::parse`, `url::Url::join` and `url::Url::as_str`:
/// parsing a base URL and resolving a reference against it is the WHATWG
/// base-plus-relative resolution, and its outcome depends on the two strings
/// alone. An absolute reference replaces the base entirely; a relative one is
/// resolved against it.
#[verifier::external_body]
fn join_url(base: &str, rel: &str) -> (r: Option<String>)
    ensures
        match r {
            Some(u) => url_join(base@, rel@) == Some(u@),
            None => url_join(base@, rel@) is None,
        },
{
    match url::Url::parse(base) {
        Ok(b) => match b.join(rel) {
            Ok(u) => Some(u.as_str().to_owned()),
            Err(_) => None,
        },
        Err(_) => None,
    }
}

/// The well-known endpoint that resolves a set identifier into a download
/// descriptor.
pub open spec fn spec_card_set_request_url() -> Seq<char> {
    "https://playartifact.com/cardset/"@
}

/// The base endpoint for resolving set identifiers, as a string.
pub fn card_set_request_url() -> (r: &'static str)
    ensures
        r@ == spec_card_set_request_url(),
{
    "https://playartifact.com/cardset/"
}

/// Why resolving or fetching a card set failed: the identifier does not form
/// a valid request URL, the transport failed (connection, status or timeout),
/// or a response body did not decode to the expected shape.
#[derive(Debug)]
pub enum CardSetRequestError {
    MalformedIdentifier,
    TransportError { message: String },
    DecodeError { message: String },
}

/// The message a `CardSetRequestError` reads as.
pub open spec fn spec_error_message(e: CardSetRequestError) -> Seq<char> {
    match e {
        CardSetRequestError::MalformedIdentifier => "invalid set id"@,
        CardSetRequestError::TransportError { message } => message@,
        CardSetRequestError::DecodeError { message } => message@,
    }
}

impl CardSetRequestError {
    /// A human-readable description of the failure.
    pub fn to_string(self) -> (r: String)
        ensures
            r@ == spec_error_message(self),
    {
        match self {
            CardSetRequestError::MalformedIdentifier => "invalid set id".to_owned(),
            CardSetRequestError::TransportError { message } => message,
            CardSetRequestError::DecodeError { message } => message,
        }
    }
}

/// A time-limited download descriptor: the payload of one set lives at
/// `url` resolved against `cdn_root`. The expiry stamp is informational and
/// never checked against a clock.
#[derive(Debug)]
pub struct CardSetRequest {
    pub cdn_root: String,
    pub url: String,
    pub expire_time: i32,
}

/// Mathematical value of a `CardSetRequest`.
#[verifier::ext_equal]
pub ghost struct CardSetRequestView {
    pub cdn_root: Seq<char>,
    pub url: Seq<char>,
    pub expire_time: i32,
}

impl View for CardSetRequest {
    type V = CardSetRequestView;

    open spec fn view(&self) -> CardSetRequestView {
        CardSetRequestView {
            cdn_root: self.cdn_root@,
            url: self.url@,
            expire_time: self.expire_time,
        }
    }
}

impl Clone for CardSetRequest {
    fn clone(&self) -> (r: Self)
        ensures
            r@ == self@,
    {
        CardSetRequest {
            cdn_root: self.cdn_root.clone(),
            url: self.url.clone(),
            expire_time: self.expire_time,
        }
    }
}

impl PartialEq for CardSetRequest {
    /// Two descriptors are equal iff all three fields are.
    fn eq(&self, other: &CardSetRequest) -> (r: bool) {
        self.cdn_root == other.cdn_root && self.url == other.url && self.expire_time
            == other.expire_time
    }
}

impl vstd::std_specs::cmp::PartialEqSpecImpl for CardSetRequest {
    open spec fn obeys_eq_spec() -> bool {
        true
    }

    open spec fn eq_spec(&self, other: &CardSetRequest) -> bool {
        self@ == other@
    }
}

impl CardSetRequest {
    /// The final download URL: the relative path resolved against the
    /// content root. Callers must know that the two fields resolve; see
    /// `try_url` for the total form.
    pub fn url(self) -> (r: String)
        requires
            url_join(self.cdn_root@, self.url@) is Some,
        ensures
            Some(r@) == url_join(self.cdn_root@, self.url@),
    {
        join_url(&self.cdn_root, &self.url).unwrap()
    }

    /// The final download URL, or `None` where the content root and relative
    /// path do not resolve to a valid URL.
    pub fn try_url(self) -> (r: Option<String>)
        ensures
            match r {
                Some(u) => url_join(self.cdn_root@, self.url@) == Some(u@),
                None => url_join(self.cdn_root@, self.url@) is None,
            },
    {
        let probe = join_url(&self.cdn_root, &self.url);
        match probe {
            Some(_) => Some(self.url()),
            None => None,
        }
    }
}

/// The request URL that resolves `set_id`, or `MalformedIdentifier` where the
/// identifier cannot be joined onto the base endpoint.
pub fn parse_url(set_id: &str) -> (r: Result<String, CardSetRequestError>)
    ensures
        match r {
            Ok(u) => url_join(spec_card_set_request_url(), set_id@) == Some(u@),
            Err(e) => url_join(spec_card_set_request_url(), set_id@) is None && e
                == CardSetRequestError::MalformedIdentifier,
        },
{
    match join_url(card_set_request_url(), set_id) {
        Some(u) => Ok(u),
        None => Err(CardSetRequestError::MalformedIdentifier),
    }
}

} // verus!
