//! Downloading a file over HTTP: the file's name, its announced size, and
//! the bookkeeping of the bytes written while the body streams in.

use vstd::prelude::*;
use crate::error::{HttpResponseError, BAD_REQUEST, http_error};
use crate::weburl::WebUrl;

verus! {

/// Where a download stands.
#[derive(Debug, PartialEq, Eq, Structural, Clone, Copy)]
pub enum DownloadFileStatus {
    Downloading,
    Syncing,
    Done,
}

/// The name a downloaded file is stored under: the last segment of the
/// URL's path; a URL that cannot be a base is answered with `400`.
pub fn download_file_name(url: &WebUrl) -> (res: Result<String, HttpResponseError>)
    ensures
        match url.view().path_segments {
            Some(s) => if s.len() > 0 {
                res matches Ok(name) && name@ == s.last()
            } else {
                res matches Err(e) && e.status == BAD_REQUEST
                    && e.msg@ == "url have empty path cannot determine file name lol."@
            },
            None => res matches Err(e) && e.status == BAD_REQUEST
                && e.msg@ == "url have empty path cannot determine file name lol."@,
        },
{
    match url.last_path_segment() {
        Some(name) => Ok(name),
        None => Err(http_error(BAD_REQUEST, "url have empty path cannot determine file name lol.")),
    }
}

/// A byte that may stand in a header value read as text: visible ASCII or
/// a tab.
pub open spec fn is_visible_ascii(b: u8) -> bool {
    (32 <= b && b < 127) || b == 9
}

/// The value of a decimal number written with ASCII digits.
pub open spec fn digits_value(s: Seq<u8>) -> nat
    decreases s.len(),
{
    if s.len() == 0 {
        0
    } else {
        digits_value(s.drop_last()) * 10 + (s.last() - 48) as nat
    }
}

/// An ASCII decimal digit.
pub open spec fn is_ascii_digit(b: u8) -> bool {
    48 <= b && b <= 57
}

/// A text without its leading `+`, if it has one.
pub open spec fn unsigned_digits(s: Seq<u8>) -> Seq<u8> {
    if s.len() > 0 && s[0] == 43u8 { s.subrange(1, s.len() as int) } else { s }
}

/// Every byte is an ASCII digit.
pub open spec fn all_ascii_digits(d: Seq<u8>) -> bool {
    forall|i: int| 0 <= i < d.len() ==> is_ascii_digit(#[trigger] d[i])
}

/// Every byte may stand in a header value read as text.
pub open spec fn all_visible_ascii(h: Seq<u8>) -> bool {
    forall|i: int| 0 <= i < h.len() ==> is_visible_ascii(#[trigger] h[i])
}

/// The number a text holds as `u64::from_str` reads it: an optional `+`,
/// then at least one digit and nothing else, the value fitting in 64 bits.
pub open spec fn spec_parse_u64(s: Seq<u8>) -> Option<u64> {
    let digits = unsigned_digits(s);
    if digits.len() == 0 || !all_ascii_digits(digits) {
        None
    } else if digits_value(digits) > u64::MAX {
        None
    } else {
        Some(digits_value(digits) as u64)
    }
}

/// Why a response announces no usable size.
#[derive(Debug, PartialEq, Eq, Structural, Clone, Copy)]
pub enum ContentLengthError {
    /// There is no `content-length` header.
    Missing,
    /// The header is not visible ASCII text.
    NotText,
    /// The header is not a number of bytes.
    NotANumber,
}

/// The size a response announces in its `content-length` header.
pub open spec fn spec_content_length(header: Option<Seq<u8>>) -> Result<u64, ContentLengthError> {
    match header {
        None => Err(ContentLengthError::Missing),
        Some(h) => if !all_visible_ascii(h) {
            Err(ContentLengthError::NotText)
        } else {
            match spec_parse_u64(h) {
                Some(n) => Ok(n),
                None => Err(ContentLengthError::NotANumber),
            }
        },
    }
}

proof fn lemma_digits_value_push(s: Seq<u8>, b: u8)
    ensures
        digits_value(s.push(b)) == digits_value(s) * 10 + (b - 48) as nat,
{
    assert(s.push(b).drop_last() =~= s);
}

/// Reads a number the way `u64::from_str` does.
pub fn parse_u64(s: &[u8]) -> (res: Option<u64>)
    ensures
        res == spec_parse_u64(s@),
{
    let n = s.len();
    let start: usize = if n > 0 && s[0] == 43u8 { 1 } else { 0 };
    let ghost digits = unsigned_digits(s@);
    assert(digits =~= s@.subrange(start as int, n as int));
    if start == n {
        return None;
    }
    let mut acc: u64 = 0;
    let mut i: usize = start;
    while i < n
        invariant
            start <= i <= n,
            n == s@.len(),
            start < n,
            digits == unsigned_digits(s@),
            digits =~= s@.subrange(start as int, n as int),
            forall|j: int| start <= j < i ==> is_ascii_digit(#[trigger] s@[j]),
            acc == digits_value(s@.subrange(start as int, i as int)),
        decreases n - i,
    {
        let b = s[i];
        if !(48u8 <= b && b <= 57u8) {
            assert(digits[i - start] == s@[i as int]);
            assert(!is_ascii_digit(digits[i - start]));
            assert(!all_ascii_digits(digits));
            assert(digits.len() > 0);
            return None;
        }
        let d = (b - 48u8) as u64;
        proof {
            lemma_digits_value_push(s@.subrange(start as int, i as int), b);
            assert(s@.subrange(start as int, i + 1) =~= s@.subrange(start as int, i as int).push(b));
        }
        if acc > (u64::MAX - d) / 10 {
            proof {
                assert(acc * 10 + d > u64::MAX) by (nonlinear_arith)
                    requires
                        acc > (u64::MAX - d) / 10,
                        d <= 9,
                ;
                assert(digits.subrange(0, i + 1 - start) =~= s@.subrange(start as int, i + 1));
                if all_ascii_digits(digits) {
                    lemma_digits_value_prefix_bound(digits, (i + 1 - start) as int);
                    assert(digits_value(digits) > u64::MAX);
                }
            }
            return None;
        }
        assert(acc * 10 + d <= u64::MAX) by (nonlinear_arith)
            requires
                acc <= (u64::MAX - d) / 10,
                d <= 9,
        ;
        acc = acc * 10 + d;
        i = i + 1;
    }
    assert(s@.subrange(start as int, n as int) =~= digits);
    proof {
        assert forall|j: int| 0 <= j < digits.len() implies is_ascii_digit(#[trigger] digits[j]) by {
            assert(digits[j] == s@[start + j]);
        }
    }
    Some(acc)
}

/// A prefix of a digit string is worth at most the whole.
proof fn lemma_digits_value_prefix_bound(s: Seq<u8>, k: int)
    requires
        0 <= k <= s.len(),
        forall|j: int| 0 <= j < s.len() ==> is_ascii_digit(#[trigger] s[j]),
    ensures
        digits_value(s.subrange(0, k)) <= digits_value(s),
    decreases s.len() - k,
{
    if k < s.len() {
        lemma_digits_value_prefix_bound(s, k + 1);
        lemma_digits_value_push(s.subrange(0, k), s[k]);
        assert(s.subrange(0, k + 1) =~= s.subrange(0, k).push(s[k]));
    } else {
        assert(s.subrange(0, k) =~= s);
    }
}

/// The size announced by a response's `content-length` header (`None`
/// when there is none).
pub fn content_length(header: Option<&[u8]>) -> (res: Result<u64, ContentLengthError>)
    ensures
        res == spec_content_length(header.deep_view()),
{
    let h = match header {
        None => return Err(ContentLengthError::Missing),
        Some(h) => h,
    };
    assert(h.deep_view() =~= h@);
    let mut i: usize = 0;
    while i < h.len()
        invariant
            i <= h@.len(),
            header == Some(h),
            h.deep_view() == h@,
            forall|j: int| 0 <= j < i ==> is_visible_ascii(#[trigger] h@[j]),
        decreases h@.len() - i,
    {
        let b = h[i];
        if !((32u8 <= b && b < 127u8) || b == 9u8) {
            assert(!is_visible_ascii(h@[i as int]));
            assert(!all_visible_ascii(h@));
            return Err(ContentLengthError::NotText);
        }
        i = i + 1;
    }
    match parse_u64(h) {
        Some(n) => Ok(n),
        None => Err(ContentLengthError::NotANumber),
    }
}

impl ContentLengthError {
    /// The name of the error, as it is printed in messages.
    pub fn text(&self) -> (res: &'static str)
        ensures
            res@ == spec_content_length_error_text(*self),
    {
        match self {
            ContentLengthError::Missing => "Missing",
            ContentLengthError::NotText => "NotText",
            ContentLengthError::NotANumber => "NotANumber",
        }
    }
}

/// The name of a content-length error, as it is printed in messages.
pub open spec fn spec_content_length_error_text(e: ContentLengthError) -> Seq<char> {
    match e {
        ContentLengthError::Missing => "Missing"@,
        ContentLengthError::NotText => "NotText"@,
        ContentLengthError::NotANumber => "NotANumber"@,
    }
}

/// A successful HTTP status: `2xx`.
pub open spec fn is_success_status(status: u16) -> bool {
    200 <= status && status < 300
}

/// What the answer to a download request decides, for the URL printed as
/// `url`, the answer's status (printed as `status_text`) and its
/// `content-length` header: the size to download, or the error answered.
/// A status other than `2xx` is answered with that status; a missing or
/// unreadable size with `400`.
pub open spec fn spec_download_answer(
    url: Seq<char>,
    status: u16,
    status_text: Seq<char>,
    header: Option<Seq<u8>>,
) -> Result<u64, (u16, Seq<char>)> {
    if !is_success_status(status) {
        Err((status, "Unable to get "@ + url + " got response e&rror "@ + status_text))
    } else {
        match spec_content_length(header) {
            Ok(n) => Ok(n),
            Err(ContentLengthError::Missing) => Err((400u16, "Unable to download "@ + url + " content-length not set."@)),
            Err(e) => Err((
                400u16,
                "Unable to download "@ + url + " cannot convert content-length got error "@
                    + spec_content_length_error_text(e),
            )),
        }
    }
}

/// Checks the answer to a download request: its status must be `2xx` and
/// its `content-length` header a number of bytes, which is returned.
pub fn download_answer(url: &str, status: u16, status_text: &str, header: Option<&[u8]>) -> (res: Result<u64, HttpResponseError>)
    ensures
        match spec_download_answer(url@, status, status_text@, header.deep_view()) {
            Ok(n) => res == Ok::<u64, HttpResponseError>(n),
            Err((code, msg)) => res is Err && res->Err_0.status == code && res->Err_0.msg@ == msg,
        },
{
    if !(200u16 <= status && status < 300u16) {
        let mut msg = String::from_str("Unable to get ");
        msg.append(url);
        msg.append(" got response e&rror ");
        msg.append(status_text);
        return Err(HttpResponseError { status, msg });
    }
    match content_length(header) {
        Ok(n) => Ok(n),
        Err(ContentLengthError::Missing) => {
            let mut msg = String::from_str("Unable to download ");
            msg.append(url);
            msg.append(" content-length not set.");
            Err(HttpResponseError { status: BAD_REQUEST, msg })
        },
        Err(e) => {
            let mut msg = String::from_str("Unable to download ");
            msg.append(url);
            msg.append(" cannot convert content-length got error ");
            msg.append(e.text());
            Err(HttpResponseError { status: BAD_REQUEST, msg })
        },
    }
}

/// The bytes of a download written so far, against the announced size.
pub struct DownloadProgress {
    offset: u64,
    total: u64,
}

/// How a download ended.
#[derive(Debug, PartialEq, Eq, Structural, Clone, Copy)]
pub enum DownloadEnd {
    /// Every announced byte came: sync the file and report it done.
    Complete,
    /// The body ended early or overran: remove the file.
    Incomplete,
}

impl DownloadProgress {
    /// Bytes written so far.
    pub closed spec fn written(&self) -> nat {
        self.offset as nat
    }

    /// Bytes announced.
    pub closed spec fn announced(&self) -> nat {
        self.total as nat
    }

    /// A download of `total` bytes, nothing written yet.
    pub fn new(total: u64) -> (res: DownloadProgress)
        ensures
            res.written() == 0,
            res.announced() == total,
    {
        DownloadProgress { offset: 0, total }
    }

    /// Bytes written so far.
    pub fn offset(&self) -> (res: u64)
        ensures
            res == self.written(),
    {
        self.offset
    }

    /// Bytes announced.
    pub fn total(&self) -> (res: u64)
        ensures
            res == self.announced(),
    {
        self.total
    }

    /// A chunk of `len` bytes arrived: it is written at the returned offset,
    /// after everything written so far.
    pub fn on_chunk(&mut self, len: u64) -> (at: u64)
        requires
            old(self).written() + len <= u64::MAX,
        ensures
            at == old(self).written(),
            final(self).written() == old(self).written() + len,
            final(self).announced() == old(self).announced(),
    {
        let at = self.offset;
        self.offset = self.offset + len;
        at
    }

    /// How the download ends once the body is over: complete exactly when
    /// the bytes written are the bytes announced.
    pub fn finish(&self) -> (res: DownloadEnd)
        ensures
            res == (if self.written() == self.announced() {
                DownloadEnd::Complete
            } else {
                DownloadEnd::Incomplete
            }),
    {
        if self.offset == self.total {
            DownloadEnd::Complete
        } else {
            DownloadEnd::Incomplete
        }
    }
}

/// Only a `2xx` answer is downloaded: any other status is answered with an
/// error carrying that very status, and a size comes back only for a status
/// in `200..=299`.
pub proof fn law_download_answer_status(url: Seq<char>, status: u16, status_text: Seq<char>, header: Option<Seq<u8>>)
    ensures
        !(200 <= status && status <= 299) ==> (spec_download_answer(url, status, status_text, header) matches Err(e)
            && e.0 == status),
        spec_download_answer(url, status, status_text, header) is Ok ==> 200 <= status && status <= 299,
        200 <= status && status <= 299 ==> (spec_download_answer(url, status, status_text, header) is Ok
            <==> spec_content_length(header) is Ok),
{
}

} // verus!
