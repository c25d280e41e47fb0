//! URLs, parsed and edited by the `url` crate; the library reads back the
//! parts it needs as plain strings.

use vstd::prelude::*;

verus! {

/// A parsed URL.
#[verifier::external_type_specification]
#[verifier::external_body]
pub struct ExUrl(url::Url);

/// Why a text is not a URL (the variants of `url::ParseError`).
#[derive(Debug, PartialEq, Eq, Structural, Clone, Copy)]
pub enum UrlParseError {
    EmptyHost,
    IdnaError,
    InvalidPort,
    InvalidIpv4Address,
    InvalidIpv6Address,
    InvalidDomainCharacter,
    RelativeUrlWithoutBase,
    RelativeUrlWithCannotBeABaseBase,
    SetHostOnCannotBeABaseUrl,
    Overflow,
    /// A kind this library does not know yet.
    Other,
}

/// The text `url::ParseError` displays for each kind.
pub open spec fn spec_url_error_text(e: UrlParseError) -> Seq<char> {
    match e {
        UrlParseError::EmptyHost => "empty host"@,
        UrlParseError::IdnaError => "invalid international domain name"@,
        UrlParseError::InvalidPort => "invalid port number"@,
        UrlParseError::InvalidIpv4Address => "invalid IPv4 address"@,
        UrlParseError::InvalidIpv6Address => "invalid IPv6 address"@,
        UrlParseError::InvalidDomainCharacter => "invalid domain character"@,
        UrlParseError::RelativeUrlWithoutBase => "relative URL without a base"@,
        UrlParseError::RelativeUrlWithCannotBeABaseBase => "relative URL with a cannot-be-a-base base"@,
        UrlParseError::SetHostOnCannotBeABaseUrl => "a cannot-be-a-base URL doesn’t have a host to set"@,
        UrlParseError::Overflow => "URLs more than 4 GB are not supported"@,
        UrlParseError::Other => "invalid URL"@,
    }
}

impl UrlParseError {
    /// The text this kind of error is displayed with.
    pub fn text(&self) -> (res: &'static str)
        ensures
            res@ == spec_url_error_text(*self),
    {
        match self {
            UrlParseError::EmptyHost => "empty host",
            UrlParseError::IdnaError => "invalid international domain name",
            UrlParseError::InvalidPort => "invalid port number",
            UrlParseError::InvalidIpv4Address => "invalid IPv4 address",
            UrlParseError::InvalidIpv6Address => "invalid IPv6 address",
            UrlParseError::InvalidDomainCharacter => "invalid domain character",
            UrlParseError::RelativeUrlWithoutBase => "relative URL without a base",
            UrlParseError::RelativeUrlWithCannotBeABaseBase => "relative URL with a cannot-be-a-base base",
            UrlParseError::SetHostOnCannotBeABaseUrl => "a cannot-be-a-base URL doesn’t have a host to set",
            UrlParseError::Overflow => "URLs more than 4 GB are not supported",
            UrlParseError::Other => "invalid URL",
        }
    }
}

/// The parts of a URL the daemon reads.
pub struct UrlView {
    /// The whole URL as it is printed.
    pub serialization: Seq<char>,
    /// The host, if the URL has one.
    pub host: Option<Seq<char>>,
    /// The path, percent-encoded.
    pub path: Seq<char>,
    /// The `/`-separated segments of the path, unless the URL cannot be a
    /// base.
    pub path_segments: Option<Seq<Seq<char>>>,
}

/// What `url::Url::parse` makes of a text.
pub uninterp spec fn url_parse_spec(input: Seq<char>) -> Result<UrlView, UrlParseError>;

/// What `url::Url::set_username` makes of a URL.
pub uninterp spec fn url_set_username_spec(url: UrlView, username: Seq<char>) -> Result<UrlView, ()>;

/// What `url::Url::set_password` makes of a URL.
pub uninterp spec fn url_set_password_spec(url: UrlView, password: Option<Seq<char>>) -> Result<UrlView, ()>;

/// A parsed URL, with the parts the daemon reads.
pub struct WebUrl {
    inner: url::Url,
    serialization: String,
    host: Option<String>,
    path: String,
    path_segments: Option<Vec<String>>,
}

impl WebUrl {
    /// The parts of the URL.
    pub closed spec fn view(&self) -> UrlView {
        UrlView {
            serialization: self.serialization@,
            host: self.host.deep_view(),
            path: self.path@,
            path_segments: self.path_segments.deep_view(),
        }
    }

    /// Parses a URL the way the `url` crate does; the parts read back are
    /// those of the parsed URL, and an error is the kind the crate reports.
    pub fn parse(input: &str) -> (res: Result<WebUrl, UrlParseError>)
        ensures
            match url_parse_spec(input@) {
                Ok(v) => res matches Ok(u) && u.view() == v,
                Err(e) => res == Err::<WebUrl, UrlParseError>(e),
            },
            res matches Ok(u) ==> (u.view().path_segments matches Some(s) ==> s.len() >= 1),
    {
        parse_url(input)
    }

    /// The URL as it is printed.
    pub fn as_string(&self) -> (res: String)
        ensures
            res@ == self.view().serialization,
    {
        self.serialization.clone()
    }

    /// The host, if any.
    pub fn host(&self) -> (res: Option<String>)
        ensures
            res.deep_view() == self.view().host,
    {
        self.host.clone()
    }

    /// The path.
    pub fn path(&self) -> (res: String)
        ensures
            res@ == self.view().path,
    {
        self.path.clone()
    }

    /// The last segment of the path, unless the URL cannot be a base.
    pub fn last_path_segment(&self) -> (res: Option<String>)
        ensures
            res.deep_view() == (match self.view().path_segments {
                Some(s) => if s.len() > 0 { Some(s.last()) } else { None::<Seq<char>> },
                None => None::<Seq<char>>,
            }),
    {
        match &self.path_segments {
            None => None,
            Some(segments) => {
                if segments.len() == 0 {
                    None
                } else {
                    Some(segments[segments.len() - 1].clone())
                }
            },
        }
    }
}

/// The library's value for a URL read by the `url` crate.
#[verifier::external_body]
fn from_url(inner: url::Url) -> WebUrl {
    WebUrl {
        serialization: inner.as_str().to_string(),
        host: inner.host_str().map(|h| h.to_string()),
        path: inner.path().to_string(),
        path_segments: inner.path_segments().map(|s| s.map(|p| p.to_string()).collect()),
        inner,
    }
}

/// Parses a URL with `url::Url::parse`. The parse is a function of the text
/// alone, named by `url_parse_spec`; as the crate documents, when the path
/// has segments there is at least one.
#[verifier::external_body]
pub(crate) fn parse_url(input: &str) -> (res: Result<WebUrl, UrlParseError>)
    ensures
        match url_parse_spec(input@) {
            Ok(v) => res matches Ok(u) && u.view() == v,
            Err(e) => res == Err::<WebUrl, UrlParseError>(e),
        },
        res matches Ok(u) ==> (u.view().path_segments matches Some(s) ==> s.len() >= 1),
{
    match url::Url::parse(input) {
        Ok(u) => Ok(from_url(u)),
        Err(url::ParseError::EmptyHost) => Err(UrlParseError::EmptyHost),
        Err(url::ParseError::IdnaError) => Err(UrlParseError::IdnaError),
        Err(url::ParseError::InvalidPort) => Err(UrlParseError::InvalidPort),
        Err(url::ParseError::InvalidIpv4Address) => Err(UrlParseError::InvalidIpv4Address),
        Err(url::ParseError::InvalidIpv6Address) => Err(UrlParseError::InvalidIpv6Address),
        Err(url::ParseError::InvalidDomainCharacter) => Err(UrlParseError::InvalidDomainCharacter),
        Err(url::ParseError::RelativeUrlWithoutBase) => Err(UrlParseError::RelativeUrlWithoutBase),
        Err(url::ParseError::RelativeUrlWithCannotBeABaseBase) => Err(UrlParseError::RelativeUrlWithCannotBeABaseBase),
        Err(url::ParseError::SetHostOnCannotBeABaseUrl) => Err(UrlParseError::SetHostOnCannotBeABaseUrl),
        Err(url::ParseError::Overflow) => Err(UrlParseError::Overflow),
        Err(_) => Err(UrlParseError::Other),
    }
}

/// Whether setting a user name or password of `input_len` characters into a
/// URL whose text has `url_len` characters keeps every offset the `url`
/// crate stores within 32 bits: a character takes at most 4 bytes, and
/// percent-encoding at most triples the bytes of the input, which comes with
/// at most two separators.
pub open spec fn fits_userinfo(url_len: nat, input_len: nat) -> bool {
    4 * url_len + 12 * input_len + 2 < 0x1_0000_0000
}

/// `fits_userinfo`, computed.
pub fn userinfo_fits(url_len: usize, input_len: usize) -> (res: bool)
    ensures
        res == fits_userinfo(url_len as nat, input_len as nat),
{
    if url_len >= 0x4000_0000 || input_len >= 0x1555_5556 {
        return false;
    }
    let total: u64 = 4 * (url_len as u64) + 12 * (input_len as u64) + 2;
    total < 0x1_0000_0000
}

/// Sets the user name of a URL with `url::Url::set_username`. As its
/// source shows, a URL without a host is refused and left as it was; the
/// new URL is named by `url_set_username_spec`. The crate panics when the
/// new text's length does not fit in 32 bits, which `requires` leaves out.
#[verifier::external_body]
pub(crate) fn set_url_username(url: &mut WebUrl, username: &str) -> (res: Result<(), ()>)
    requires
        fits_userinfo(old(url).view().serialization.len(), username@.len()),
    ensures
        match url_set_username_spec(old(url).view(), username@) {
            Ok(v) => res is Ok && final(url).view() == v,
            Err(_) => res is Err && final(url).view() == old(url).view(),
        },
        old(url).view().host is None ==> res is Err,
{
    let mut inner = url.inner.clone();
    let res = inner.set_username(username);
    *url = from_url(inner);
    res
}

/// Sets the password of a URL with `url::Url::set_password`. As its source
/// shows, a URL without a host is refused and left as it was; the new URL
/// is named by `url_set_password_spec`. The crate panics when the new
/// text's length does not fit in 32 bits, which `requires` leaves out.
#[verifier::external_body]
pub(crate) fn set_url_password(url: &mut WebUrl, password: Option<&str>) -> (res: Result<(), ()>)
    requires
        fits_userinfo(old(url).view().serialization.len(), match password {
            Some(p) => p@.len(),
            None => 0,
        }),
    ensures
        match url_set_password_spec(old(url).view(), password.deep_view()) {
            Ok(v) => res is Ok && final(url).view() == v,
            Err(_) => res is Err && final(url).view() == old(url).view(),
        },
        old(url).view().host is None ==> res is Err,
{
    let mut inner = url.inner.clone();
    let res = inner.set_password(password);
    *url = from_url(inner);
    res
}

} // verus!
