//! Images and the streams answered while docker works: the `name:tag` an
//! image is asked by, how progress messages are framed, and which output
//! of an exec is passed on.

use vstd::prelude::*;
use vstd::string::StringSliceAdditionalSpecFns;
use crate::error::{HttpResponseError, BAD_REQUEST, http_error};
use crate::labels::Labels;
use crate::records::{GitRepositoryItem, GitRepositoryBranchItem};
use crate::text::{decimal, is_digit, lemma_decimal_digits, lemma_decimal_injective, split_once_exact, occurs_once};

verus! {

/// Splits an image reference `name:tag`; a reference with no `:` or more
/// than one is answered with `400 Bad Request`.
pub fn parse_image_name(name: &str) -> (res: Result<(String, String), HttpResponseError>)
    ensures
        res is Ok <==> occurs_once(name@, ':'),
        res matches Ok((image, tag)) ==> name@ == image@ + seq![':'] + tag@ && !image@.contains(':')
            && !tag@.contains(':'),
        res matches Err(e) ==> e.status == BAD_REQUEST && e.msg@ == "missing tag in image name"@,
{
    match split_once_exact(name, ':') {
        Some(parts) => Ok(parts),
        None => Err(http_error(BAD_REQUEST, "missing tag in image name")),
    }
}

/// The ASCII bytes of a text made of ASCII characters.
pub open spec fn ascii_bytes(s: Seq<char>) -> Seq<u8> {
    s.map_values(|c: char| c as u8)
}

/// Appends the decimal digits of `n`, as ASCII bytes, to `out`.
pub fn push_decimal_bytes(out: &mut Vec<u8>, n: u64)
    ensures
        final(out)@ == old(out)@ + ascii_bytes(decimal(n as nat)),
    decreases n,
{
    if n < 10 {
        out.push(digit_byte(n));
        assert(ascii_bytes(decimal(n as nat)) =~= seq![digit_byte_spec(n as nat)]);
    } else {
        push_decimal_bytes(out, n / 10);
        out.push(digit_byte(n % 10));
        assert(decimal(n as nat) == decimal((n / 10) as nat).push(crate::text::digit_char((n % 10) as nat)));
        assert(ascii_bytes(decimal(n as nat)) =~= ascii_bytes(decimal((n / 10) as nat)).push(
            digit_byte_spec((n % 10) as nat),
        ));
    }
}

spec fn digit_byte_spec(d: nat) -> u8 {
    crate::text::digit_char(d) as u8
}

fn digit_byte(d: u64) -> (b: u8)
    requires
        d < 10,
    ensures
        b == digit_byte_spec(d as nat),
{
    if d == 0 { 48 }
    else if d == 1 { 49 }
    else if d == 2 { 50 }
    else if d == 3 { 51 }
    else if d == 4 { 52 }
    else if d == 5 { 53 }
    else if d == 6 { 54 }
    else if d == 7 { 55 }
    else if d == 8 { 56 }
    else { 57 }
}

fn push_bytes(out: &mut Vec<u8>, bytes: &[u8])
    ensures
        final(out)@ == old(out)@ + bytes@,
{
    let mut i: usize = 0;
    while i < bytes.len()
        invariant
            i <= bytes@.len(),
            out@ == old(out)@ + bytes@.subrange(0, i as int),
        decreases bytes@.len() - i,
    {
        out.push(bytes[i]);
        assert(old(out)@ + bytes@.subrange(0, i + 1) =~= (old(out)@ + bytes@.subrange(0, i as int)).push(bytes@[i as int]));
        i = i + 1;
    }
    assert(bytes@.subrange(0, bytes@.len() as int) =~= bytes@);
}

/// A chunk of a download stream: the byte length of the message in
/// decimal, a newline, the message, a newline.
pub open spec fn spec_length_line_frame(data: Seq<u8>) -> Seq<u8> {
    ascii_bytes(decimal(data.len())) + seq![10u8] + data + seq![10u8]
}

/// Frames a progress message of an image download as
/// `"{len}\n{data}\n"`, `len` being the byte length of the message.
pub fn frame_download_chunk(data: &str) -> (res: Vec<u8>)
    ensures
        res@ == spec_length_line_frame(data.spec_bytes()),
{
    let bytes = data.as_bytes();
    let mut out: Vec<u8> = Vec::new();
    push_decimal_bytes(&mut out, bytes.len() as u64);
    out.push(10u8);
    push_bytes(&mut out, bytes);
    out.push(10u8);
    assert(out@ =~= spec_length_line_frame(data.spec_bytes()));
    out
}

proof fn lemma_ascii_decimal_no_newline(n: nat)
    ensures
        ascii_bytes(decimal(n)).len() == decimal(n).len(),
        forall|i: int| 0 <= i < ascii_bytes(decimal(n)).len() ==> #[trigger] ascii_bytes(decimal(n))[i] != 10u8,
{
    lemma_decimal_digits(n);
    assert forall|i: int| 0 <= i < ascii_bytes(decimal(n)).len() implies #[trigger] ascii_bytes(decimal(n))[i] != 10u8 by {
        assert(is_digit(decimal(n)[i]));
    }
}

proof fn lemma_digit_byte(d: nat)
    requires
        d < 10,
    ensures
        crate::text::digit_char(d) as u8 == 48 + d,
{
}

proof fn lemma_decimal_is_digit_chars(n: nat)
    ensures
        forall|i: int| 0 <= i < decimal(n).len() ==> exists|d: nat|
            d < 10 && #[trigger] decimal(n)[i] == crate::text::digit_char(d),
    decreases n,
{
    if n >= 10 {
        lemma_decimal_is_digit_chars(n / 10);
        assert forall|i: int| 0 <= i < decimal(n).len() implies exists|d: nat|
            d < 10 && #[trigger] decimal(n)[i] == crate::text::digit_char(d) by {
            if i < decimal(n).len() - 1 {
                assert(decimal(n)[i] == decimal(n / 10)[i]);
            } else {
                assert(decimal(n)[i] == crate::text::digit_char(n % 10));
            }
        }
    } else {
        assert forall|i: int| 0 <= i < decimal(n).len() implies exists|d: nat|
            d < 10 && #[trigger] decimal(n)[i] == crate::text::digit_char(d) by {
            assert(decimal(n)[i] == crate::text::digit_char(n));
        }
    }
}

proof fn lemma_ascii_decimal_injective(a: nat, b: nat)
    requires
        ascii_bytes(decimal(a)) == ascii_bytes(decimal(b)),
    ensures
        a == b,
{
    lemma_decimal_is_digit_chars(a);
    lemma_decimal_is_digit_chars(b);
    let da = decimal(a);
    let db = decimal(b);
    assert(da.len() == ascii_bytes(da).len());
    assert forall|i: int| 0 <= i < da.len() implies da[i] == db[i] by {
        let x = choose|d: nat| d < 10 && #[trigger] da[i] == crate::text::digit_char(d);
        let y = choose|d: nat| d < 10 && #[trigger] db[i] == crate::text::digit_char(d);
        lemma_digit_byte(x);
        lemma_digit_byte(y);
        assert(ascii_bytes(da)[i] == ascii_bytes(db)[i]);
    }
    assert(da =~= db);
    lemma_decimal_injective(a, b);
}

/// A download stream chunk is read back unambiguously: two messages framed
/// the same are the same message.
pub proof fn law_length_line_frame_unambiguous(d1: Seq<u8>, d2: Seq<u8>)
    requires
        spec_length_line_frame(d1) == spec_length_line_frame(d2),
    ensures
        d1 == d2,
{
    let a1 = ascii_bytes(decimal(d1.len()));
    let a2 = ascii_bytes(decimal(d2.len()));
    let f = spec_length_line_frame(d1);
    lemma_ascii_decimal_no_newline(d1.len());
    lemma_ascii_decimal_no_newline(d2.len());
    lemma_decimal_digits(d1.len());
    lemma_decimal_digits(d2.len());
    if a1.len() < a2.len() {
        assert(f[a1.len() as int] == 10u8);
        assert(spec_length_line_frame(d2)[a1.len() as int] == a2[a1.len() as int]);
    } else if a2.len() < a1.len() {
        assert(spec_length_line_frame(d2)[a2.len() as int] == 10u8);
        assert(f[a2.len() as int] == a1[a2.len() as int]);
    } else {
        assert(a1 =~= f.subrange(0, a1.len() as int));
        assert(a2 =~= spec_length_line_frame(d2).subrange(0, a2.len() as int));
        lemma_ascii_decimal_injective(d1.len(), d2.len());
        assert(d1 =~= f.subrange(a1.len() as int + 1, a1.len() as int + 1 + d1.len()));
        assert(d2 =~= spec_length_line_frame(d2).subrange(a2.len() as int + 1, a2.len() as int + 1 + d2.len()));
    }
}

/// Ten to the power `k`.
pub open spec fn pow10(k: nat) -> nat
    decreases k,
{
    if k == 0 { 1 } else { 10 * pow10((k - 1) as nat) }
}

/// A number below `10^k` (with `k >= 1`) has at most `k` decimal digits.
proof fn lemma_decimal_len_bound(n: nat, k: nat)
    requires
        k >= 1,
        n < pow10(k),
    ensures
        decimal(n).len() <= k,
    decreases n,
{
    if n >= 10 {
        if k == 1 {
            assert(pow10(1) == 10 * pow10(0));
        }
        assert(k >= 2);
        let k1 = (k - 1) as nat;
        assert(pow10(k) == 10 * pow10(k1));
        assert(n / 10 < pow10(k1)) by (nonlinear_arith)
            requires
                n < 10 * pow10(k1),
        ;
        lemma_decimal_len_bound(n / 10, k1);
    }
}

/// A 64-bit number has at most 20 decimal digits.
proof fn lemma_decimal_len_u64(n: u64)
    ensures
        decimal(n as nat).len() <= 20,
{
    reveal_with_fuel(pow10, 21);
    assert(pow10(20) == 100000000000000000000nat);
    lemma_decimal_len_bound(n as nat, 20);
}

/// The 64-byte length field of an image creation chunk: the decimal digits
/// of the length, then zero bytes up to 64.
pub open spec fn length_field64(len: nat) -> Seq<u8> {
    ascii_bytes(decimal(len)) + Seq::new((64 - decimal(len).len()) as nat, |i: int| 0u8)
}

/// A chunk of an image creation stream: a 64-byte field holding the byte
/// length of the message in decimal (padded with zero bytes), the message,
/// a newline.
pub open spec fn spec_length_prefix_frame(data: Seq<u8>) -> Seq<u8> {
    length_field64(data.len()) + data + seq![10u8]
}

/// Frames a progress message of an image creation: a first 64-byte field
/// holding the digits of its byte length followed by zero bytes, the
/// message, then a newline.
pub fn frame_create_image_chunk(data: &str) -> (res: Vec<u8>)
    ensures
        res@ == spec_length_prefix_frame(data.spec_bytes()),
        res@.len() == 64 + data.spec_bytes().len() + 1,
{
    let bytes = data.as_bytes();
    let mut out: Vec<u8> = Vec::new();
    push_decimal_bytes(&mut out, bytes.len() as u64);
    let ghost digits = ascii_bytes(decimal(bytes@.len()));
    proof {
        lemma_decimal_len_u64(bytes.len() as u64);
        assert(out@ =~= digits);
    }
    while out.len() < 64
        invariant
            out@.len() <= 64,
            digits.len() <= 20,
            digits.len() == decimal(bytes@.len()).len(),
            out@.len() >= digits.len(),
            out@ =~= digits + Seq::new((out@.len() - digits.len()) as nat, |i: int| 0u8),
        decreases 64 - out@.len(),
    {
        out.push(0u8);
    }
    assert(out@ =~= length_field64(bytes@.len()));
    push_bytes(&mut out, bytes);
    out.push(10u8);
    assert(out@ =~= spec_length_prefix_frame(data.spec_bytes()));
    out
}

/// An output item of a command run in a container.
pub enum LogOutput {
    StdErr { message: Vec<u8> },
    StdOut { message: Vec<u8> },
    StdIn { message: Vec<u8> },
    Console { message: Vec<u8> },
}

/// Which stream an output message of a command comes from.
#[derive(Debug, PartialEq, Eq, Structural, Clone, Copy)]
pub enum LogOutputStreamTypes {
    StdErr,
    StdIn,
    StdOut,
    Console,
}

/// An output message of a command, with the stream it comes from.
pub struct LogOutputStream {
    pub types: LogOutputStreamTypes,
    pub message: String,
}

/// The bytes passed on to the client for one output item of a command run
/// through the cargo instance helpers: console and standard output, not
/// standard error or input.
pub fn instance_exec_chunk(output: LogOutput) -> (res: Option<Vec<u8>>)
    ensures
        res == (match output {
            LogOutput::Console { message } => Some(message),
            LogOutput::StdOut { message } => Some(message),
            _ => None::<Vec<u8>>,
        }),
{
    match output {
        LogOutput::Console { message } => Some(message),
        LogOutput::StdOut { message } => Some(message),
        _ => None,
    }
}

/// The bytes passed on to the client for one output item of a command
/// started through the exec endpoints: standard output only.
pub fn exec_start_chunk(output: LogOutput) -> (res: Option<Vec<u8>>)
    ensures
        res == (match output {
            LogOutput::StdOut { message } => Some(message),
            _ => None::<Vec<u8>>,
        }),
{
    match output {
        LogOutput::StdOut { message } => Some(message),
        _ => None,
    }
}

/// What docker is asked to build an image from a git branch with: the
/// remote `url.git#branch`, and a `commit` label holding the branch's last
/// commit.
pub fn git_build_source(item: &GitRepositoryItem, branch: &GitRepositoryBranchItem) -> (res: (String, Labels))
    ensures
        res.0@ == item.url@ + ".git#"@ + branch.name@,
        res.1.view() == Map::<Seq<char>, Seq<char>>::empty().insert("commit"@, branch.last_commit_sha@),
{
    let mut image_url = item.url.clone();
    image_url.append(".git#");
    image_url.append(branch.name.as_str());
    let mut labels = Labels::new();
    labels.insert(String::from_str("commit"), branch.last_commit_sha.clone());
    (image_url, labels)
}

} // verus!
