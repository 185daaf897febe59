//! The HTTP client the API client sends its requests with, together with the
//! default headers it was built to send.
//!
//! An `HttpClient` can only be made by `build_http_client`, which installs the
//! header fields it is given and keeps them as its model, or copied by
//! `clone`, which keeps the same model.

use vstd::prelude::*;

verus! {

/// The HTTP client of reqwest; carried, never inspected.
#[verifier::external_type_specification]
#[verifier::external_body]
pub struct ExReqwestClient(reqwest::Client);

/// reqwest's error type; carried as the source of `ClientError::HttpClient`.
#[verifier::external_type_specification]
#[verifier::external_body]
pub struct ExReqwestError(reqwest::Error);

/// The error of an invalid HTTP header value (http crate, re-exported by reqwest).
#[verifier::external_type_specification]
#[verifier::external_body]
pub struct ExInvalidHeaderValue(reqwest::header::InvalidHeaderValue);

/// A character whose UTF-8 bytes are all allowed in an HTTP header value:
/// no control byte other than tab. Characters beyond ASCII encode to bytes of
/// 128 or more, which are allowed.
pub open spec fn header_value_char(c: char) -> bool {
    (c as u32 >= 32 && c as u32 != 127) || c == '\t'
}

/// A text that `HeaderValue::from_str` accepts.
pub open spec fn valid_header_value(s: Seq<char>) -> bool {
    forall|i: int| 0 <= i < s.len() ==> header_value_char(#[trigger] s[i])
}

/// A character that `HeaderName::from_bytes` keeps as it is: a lowercase
/// letter, a digit, or one of the token symbols ``!#$%&'*+-.^_`|~``.
pub open spec fn header_name_char(c: char) -> bool {
    let u = c as u32;
    (97 <= u <= 122) || (48 <= u <= 57) || c == '!' || c == '#' || c == '$' || c == '%' || c
        == '&' || c == '\'' || c == '*' || c == '+' || c == '-' || c == '.' || c == '^' || c
        == '_' || c == '`' || c == '|' || c == '~'
}

/// A text that `HeaderName::from_bytes` accepts and keeps unchanged: 1 to
/// 65535 such characters.
pub open spec fn valid_header_name(s: Seq<char>) -> bool {
    0 < s.len() <= 65535 && forall|i: int| 0 <= i < s.len() ==> header_name_char(#[trigger] s[i])
}

/// An HTTP header field: a name and a value.
#[derive(Debug, Clone)]
pub struct HeaderField {
    pub name: String,
    pub value: String,
}

/// The mathematical value of a `HeaderField`.
pub struct HeaderFieldView {
    pub name: Seq<char>,
    pub value: Seq<char>,
}

impl View for HeaderField {
    type V = HeaderFieldView;

    open spec fn view(&self) -> HeaderFieldView {
        HeaderFieldView { name: self.name@, value: self.value@ }
    }
}

/// `HeaderValue::from_str` (http): it fails exactly when some byte of the
/// UTF-8 encoding is below 32 and not tab, or is 127 (`is_valid` in http's
/// header/value.rs), which is `valid_header_value` over the characters.
/// The value made is dropped; the result only tells valid from invalid.
#[verifier::external_body]
pub(crate) fn check_header_value(s: &str) -> (r: Result<(), reqwest::header::InvalidHeaderValue>)
    ensures
        r is Ok <==> valid_header_value(s@),
{
    reqwest::header::HeaderValue::from_str(s).map(|_| ())
}

/// A reqwest client and the default header fields it sends with every
/// request, in the order they were installed.
#[derive(Debug)]
pub struct HttpClient {
    inner: reqwest::Client,
    headers: Vec<HeaderField>,
}

impl HttpClient {
    /// The default header fields the client sends with every request.
    pub closed spec fn default_headers(&self) -> Seq<HeaderFieldView> {
        self.headers@.map_values(|h: HeaderField| h@)
    }

    /// The reqwest client itself.
    pub closed spec fn inner(&self) -> reqwest::Client {
        self.inner
    }

    /// The reqwest client, to send requests with.
    pub fn client(&self) -> (c: &reqwest::Client)
        ensures
            *c == self.inner(),
    {
        &self.inner
    }

    /// The value of the `i`-th default header field.
    pub fn header_value(&self, i: usize) -> (v: &str)
        requires
            i < self.default_headers().len(),
        ensures
            v@ == self.default_headers()[i as int].value,
    {
        self.headers[i].value.as_str()
    }
}

impl Clone for HttpClient {
    /// `Clone for reqwest::Client` (a handle to the same shared client, whose
    /// configuration, default headers included, is behind one `Arc`), and a
    /// copy of the header fields it sends.
    #[verifier::external_body]
    fn clone(&self) -> (c: Self)
        ensures
            c.default_headers() == self.default_headers(),
    {
        HttpClient { inner: self.inner.clone(), headers: self.headers.clone() }
    }
}

/// `HeaderName::from_bytes` and `HeaderValue::from_str` (http) for each field,
/// which accept them under the `requires`, then `ClientBuilder::default_headers`
/// and `ClientBuilder::build` (reqwest). On success the client sends the two
/// fields with every request, and its model is exactly those two fields.
/// Whether the build succeeds depends on the TLS backend of the machine, so
/// nothing is promised of that.
#[verifier::external_body]
pub(crate) fn build_http_client(first: HeaderField, second: HeaderField) -> (r: Result<
    HttpClient,
    reqwest::Error,
>)
    requires
        valid_header_name(first.name@),
        valid_header_value(first.value@),
        valid_header_name(second.name@),
        valid_header_value(second.value@),
        first.name@ != second.name@,
    ensures
        r matches Ok(h) ==> h.default_headers() == seq![first@, second@],
{
    let mut headers = reqwest::header::HeaderMap::new();
    headers.insert(
        reqwest::header::HeaderName::from_bytes(first.name.as_bytes()).expect("a valid name"),
        reqwest::header::HeaderValue::from_str(&first.value).expect("a valid value"),
    );
    headers.insert(
        reqwest::header::HeaderName::from_bytes(second.name.as_bytes()).expect("a valid name"),
        reqwest::header::HeaderValue::from_str(&second.value).expect("a valid value"),
    );
    match reqwest::Client::builder().default_headers(headers).build() {
        Ok(c) => Ok(HttpClient { inner: c, headers: vec![first, second] }),
        Err(e) => Err(e),
    }
}

} // verus!
