use vstd::prelude::*;
use vstd::string::StringSliceAdditionalSpecFns;

verus! {

/// The status of a response.
#[derive(Clone, Copy, Debug, PartialEq, Eq, Structural)]
pub enum Status {
    /// `200 OK`
    Success,
    /// `400 BAD REQUEST`
    BadRequest,
    /// `404 NOT FOUND`
    NotFound,
}

/// The media types the server announces in a `Content-Type` header.
#[derive(Clone, Copy, Debug, PartialEq, Eq, Structural)]
pub enum ContentType {
    /// `application/wasm`
    Wasm,
    /// `application/javascript`
    JavaScript,
}

/// A response before it is put on the wire.
#[derive(Debug)]
pub struct Response {
    pub status: Status,
    /// `None` sends no `Content-Type` header and leaves the type to the client.
    pub content_type: Option<ContentType>,
    pub body: Vec<u8>,
}

/// What a [`Response`] stands for.
pub ghost struct ResponseModel {
    pub status: Status,
    pub content_type: Option<ContentType>,
    pub body: Seq<u8>,
}

impl View for Response {
    type V = ResponseModel;

    open spec fn view(&self) -> ResponseModel {
        ResponseModel { status: self.status, content_type: self.content_type, body: self.body@ }
    }
}

pub open spec fn crlf() -> Seq<u8> {
    "\r\n".spec_bytes()
}

pub open spec fn status_line(s: Status) -> Seq<u8> {
    match s {
        Status::Success => "HTTP/1.1 200 OK".spec_bytes(),
        Status::BadRequest => "HTTP/1.1 400 BAD REQUEST".spec_bytes(),
        Status::NotFound => "HTTP/1.1 404 NOT FOUND".spec_bytes(),
    }
}

pub open spec fn media_type(c: ContentType) -> Seq<u8> {
    match c {
        ContentType::Wasm => "application/wasm".spec_bytes(),
        ContentType::JavaScript => "application/javascript".spec_bytes(),
    }
}

pub open spec fn content_type_field() -> Seq<u8> {
    "Content-Type: ".spec_bytes()
}

pub open spec fn content_length_field() -> Seq<u8> {
    "Content-Length: ".spec_bytes()
}

/// The decimal digits of `n`, most significant first, with no leading zero.
pub open spec fn decimal(n: nat) -> Seq<u8>
    decreases n,
{
    if n < 10 {
        seq![(48 + n) as u8]
    } else {
        decimal(n / 10).push((48 + n % 10) as u8)
    }
}

/// The number that a string of decimal digits denotes.
pub open spec fn decimal_value(d: Seq<u8>) -> nat
    decreases d.len(),
{
    if d.len() == 0 {
        0
    } else {
        decimal_value(d.drop_last()) * 10 + (d.last() - 48) as nat
    }
}

pub open spec fn is_digit(b: u8) -> bool {
    48 <= b <= 57
}

/// Status line, headers and the blank line that ends them, for a body of `len` bytes.
pub open spec fn head(status: Status, content_type: Option<ContentType>, len: nat) -> Seq<u8> {
    let type_field = match content_type {
        Some(c) => content_type_field() + media_type(c) + crlf(),
        None => Seq::empty(),
    };
    status_line(status) + crlf() + type_field + content_length_field() + decimal(len) + crlf()
        + crlf()
}

/// The bytes of `r` on the wire.
pub open spec fn encode(r: ResponseModel) -> Seq<u8> {
    head(r.status, r.content_type, r.body.len()) + r.body
}

/// Appends the bytes of `s` to `out`.
pub fn append(out: &mut Vec<u8>, s: &[u8])
    ensures
        final(out)@ == old(out)@ + s@,
{
    let mut i: usize = 0;
    while i < s.len()
        invariant
            i <= s@.len(),
            out@ == old(out)@ + s@.subrange(0, i as int),
        decreases s@.len() - i,
    {
        out.push(s[i]);
        i = i + 1;
        assert(out@ =~= old(out)@ + s@.subrange(0, i as int));
    }
    assert(s@.subrange(0, s@.len() as int) =~= s@);
}

/// Appends the decimal digits of `n` to `out`.
pub fn append_decimal(out: &mut Vec<u8>, n: usize)
    ensures
        final(out)@ == old(out)@ + decimal(n as nat),
    decreases n,
{
    if n >= 10 {
        append_decimal(out, n / 10);
    }
    out.push(48u8 + (n % 10) as u8);
    assert(out@ =~= old(out)@ + decimal(n as nat));
}

fn status_bytes(s: Status) -> (r: &'static [u8])
    ensures
        r@ == status_line(s),
{
    match s {
        Status::Success => "HTTP/1.1 200 OK".as_bytes(),
        Status::BadRequest => "HTTP/1.1 400 BAD REQUEST".as_bytes(),
        Status::NotFound => "HTTP/1.1 404 NOT FOUND".as_bytes(),
    }
}

fn media_type_bytes(c: ContentType) -> (r: &'static [u8])
    ensures
        r@ == media_type(c),
{
    match c {
        ContentType::Wasm => "application/wasm".as_bytes(),
        ContentType::JavaScript => "application/javascript".as_bytes(),
    }
}

impl Response {
    /// The status line, the headers, a blank line, then the body.
    pub fn to_bytes(&self) -> (r: Vec<u8>)
        ensures
            r@ == encode(self@),
    {
        let mut out: Vec<u8> = Vec::new();
        append(&mut out, status_bytes(self.status));
        append(&mut out, "\r\n".as_bytes());
        let ghost status_part = out@;
        match self.content_type {
            Some(c) => {
                append(&mut out, "Content-Type: ".as_bytes());
                append(&mut out, media_type_bytes(c));
                append(&mut out, "\r\n".as_bytes());
            },
            None => {},
        }
        append(&mut out, "Content-Length: ".as_bytes());
        append_decimal(&mut out, self.body.len());
        append(&mut out, "\r\n".as_bytes());
        append(&mut out, "\r\n".as_bytes());
        let ghost head_part = out@;
        append(&mut out, self.body.as_slice());
        assert(head_part =~= head(self.status, self.content_type, self.body@.len()));
        out
    }
}

/// Reading back the digits of `decimal(n)` gives `n`.
pub proof fn lemma_decimal_round_trip(n: nat)
    ensures
        decimal_value(decimal(n)) == n,
        forall|i: int| 0 <= i < decimal(n).len() ==> is_digit(#[trigger] decimal(n)[i]),
        decimal(n).len() > 0,
    decreases n,
{
    if n >= 10 {
        lemma_decimal_round_trip(n / 10);
        assert(decimal(n).drop_last() =~= decimal(n / 10));
    } else {
        assert(decimal_value(decimal(n).drop_last()) == 0);
    }
}

/// On the wire, the `Content-Length` header is followed only by the blank line
/// and the body, and the number it declares is the byte length of that body.
pub proof fn lemma_declared_length_is_body_length(r: ResponseModel)
    ensures
        exists|fields: Seq<u8>, digits: Seq<u8>|
            {
                &&& encode(r) == fields + content_length_field() + digits + crlf() + crlf()
                    + r.body
                &&& digits.len() > 0
                &&& forall|i: int| 0 <= i < digits.len() ==> is_digit(#[trigger] digits[i])
                &&& decimal_value(digits) == r.body.len()
            },
{
    let digits = decimal(r.body.len());
    lemma_decimal_round_trip(r.body.len());
    let fields = status_line(r.status) + crlf() + match r.content_type {
        Some(c) => content_type_field() + media_type(c) + crlf(),
        None => Seq::empty(),
    };
    assert(encode(r) =~= fields + content_length_field() + digits + crlf() + crlf() + r.body);
}

} // verus!
