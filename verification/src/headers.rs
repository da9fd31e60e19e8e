//! HTTP response headers: the closed status-code registry, content-type
//! carriers, and the verified assembly of the response header text.
//!
//! The wire format is pinned down by spec functions over character
//! sequences: a status line `HTTP/1.1 <code> <phrase>`, a
//! `Content-Type: <type>/<subtype>` line, a `Content-Length: <n>` line,
//! joined with `\r\n` and closed by a blank line.

use vstd::prelude::*;

verus! {

use vstd::string::*;
use crate::strutil::{dec_rep, u64_to_string};

/// The codes of the closed status registry.
pub open spec fn is_registered(code: u16) -> bool {
    code == 200 || code == 400 || code == 401 || code == 404 || code == 501
}

/// The reason phrase paired with each registered code.
pub open spec fn spec_phrase(code: u16) -> Seq<char> {
    if code == 200 {
        "OK"@
    } else if code == 400 {
        "Bad Request"@
    } else if code == 401 {
        "Unauthorized"@
    } else if code == 404 {
        "Not found"@
    } else {
        "Not Implemented"@
    }
}

/// Holds an HTTP status code with its corresponding phrase (i.e. 200 OK).
#[derive(Clone, Copy, Debug)]
pub struct HttpStatusCode {
    pub code: u16,
    pub phrase: &'static str,
}

/// Returns the phrase that corresponds to the provided code.
pub fn code_to_msg(code: u16) -> (r: Option<&'static str>)
    ensures
        r is Some <==> is_registered(code),
        r matches Some(p) ==> p@ == spec_phrase(code),
{
    match code {
        200u16 => Some("OK"),
        400u16 => Some("Bad Request"),
        401u16 => Some("Unauthorized"),
        404u16 => Some("Not found"),
        501u16 => Some("Not Implemented"),
        _ => None,
    }
}

/// Returns an [`HttpStatusCode`] for the provided code.
pub fn code_to_const(code: u16) -> (r: Option<HttpStatusCode>)
    ensures
        r is Some <==> is_registered(code),
        r matches Some(sc) ==> sc.code == code && sc.phrase@ == spec_phrase(code),
{
    match code {
        200u16 => Some(HttpStatusCode { code: 200, phrase: "OK" }),
        400u16 => Some(HttpStatusCode { code: 400, phrase: "Bad Request" }),
        401u16 => Some(HttpStatusCode { code: 401, phrase: "Unauthorized" }),
        404u16 => Some(HttpStatusCode { code: 404, phrase: "Not found" }),
        501u16 => Some(HttpStatusCode { code: 501, phrase: "Not Implemented" }),
        _ => None,
    }
}

/// Looking a registered code up gives that same code back, paired with its
/// phrase: the registry is a closed table keyed by the code itself.
pub proof fn lemma_status_lookup_round_trip(code: u16, r: Option<HttpStatusCode>)
    requires
        is_registered(code),
        call_ensures(code_to_const, (code,), r),
    ensures
        r matches Some(sc) && sc.code == code && sc.phrase@ == spec_phrase(code),
{
}

impl HttpStatusCode {
    /// Creates a new [`HttpStatusCode`] with a default of OK (i.e. 200).
    pub fn new() -> (r: Self)
        ensures
            r.code == 200,
            r.phrase@ == spec_phrase(200),
    {
        HttpStatusCode { code: 200, phrase: "OK" }
    }

    /// Creates a new [`HttpStatusCode`] with the specified status code,
    /// which must be in the registry.
    pub fn new_from(code: u16) -> (r: Self)
        requires
            is_registered(code),
        ensures
            r.code == code,
            r.phrase@ == spec_phrase(code),
    {
        code_to_const(code).unwrap()
    }
}

impl Default for HttpStatusCode {
    /// Default implementation for [`HttpStatusCode`]. Uses `200 OK`.
    fn default() -> (r: Self)
        ensures
            r.code == 200,
            r.phrase@ == spec_phrase(200),
    {
        HttpStatusCode::new_from(200)
    }
}

/// Holds the data used to build the status line (e.g. HTTP/1.1 200 OK).
#[derive(Clone, Copy, Debug)]
pub struct HttpStatusHeader {
    pub code: HttpStatusCode,
}

/// Holds the content type information that is used in the
/// [`HttpContentTypeHeader`], e.g. text/plain.
#[derive(Clone, Copy, Debug)]
pub struct HttpContentType {
    pub first: &'static str,
    pub second: &'static str,
}

/// Holds the content type provided by [`HttpContentType`].
#[derive(Clone, Copy, Debug)]
pub struct HttpContentTypeHeader {
    pub content_type: HttpContentType,
}

/// Holds the content to be sent to the client.
#[derive(Debug)]
pub struct HttpContent {
    pub content: Vec<u8>,
}

impl From<Vec<u8>> for HttpContent {
    /// Wraps raw bytes into an [`HttpContent`] struct.
    fn from(content: Vec<u8>) -> (r: Self) {
        HttpContent { content }
    }
}

impl vstd::std_specs::convert::FromSpecImpl<Vec<u8>> for HttpContent {
    open spec fn obeys_from_spec() -> bool {
        true
    }

    open spec fn from_spec(content: Vec<u8>) -> Self {
        HttpContent { content }
    }
}

/// Holds a chunk of [`HttpContent`], reserved for sending larger files in
/// several pieces.
#[derive(Debug)]
pub struct HttpContentChunk {
    pub content: HttpContent,
    pub current_chunk: u32,
    pub total_chunks: u32,
}

/// A fully assembled response: serialized header text and the body bytes.
#[derive(Debug)]
pub struct HttpResponse {
    pub headers: String,
    pub content: HttpContent,
}

/// Holds the size of the content of the response, in bytes.
#[derive(Clone, Copy, Debug)]
pub struct HttpContentLengthHeader {
    pub length: usize,
}

/// One response header line, tagged by which header it is.
#[derive(Clone, Copy, Debug)]
pub enum HttpHeaderLine {
    Status(HttpStatusHeader),
    ContentType(HttpContentTypeHeader),
    ContentLength(HttpContentLengthHeader),
}

/// Vector of HTTP headers used to build the response.
pub struct HeaderVec {
    pub vec: Vec<HttpHeaderLine>,
}

/// [`HttpHeader`] supertrait.
pub trait HttpHeader<T>: Sized {
    /// Which inputs [`HttpHeader::new_from`] accepts.
    spec fn accepts(value: T) -> bool;

    fn new() -> Self;

    fn new_from(value: T) -> Self
        requires
            Self::accepts(value),
    ;
}

/// Allow a header data type to be converted into its string form.
pub trait StringifyHttpHeader: Sized {
    fn to_string(&self) -> String;
}

/// Text of the status line: `HTTP/1.1 <code> <phrase>`.
pub open spec fn spec_status_line_text(code: nat, phrase: Seq<char>) -> Seq<char> {
    "HTTP/1.1 "@ + dec_rep(code) + " "@ + phrase
}

/// Text of the content-type line: `Content-Type: <type>/<subtype>`.
pub open spec fn spec_content_type_text(first: Seq<char>, second: Seq<char>) -> Seq<char> {
    "Content-Type: "@ + first + "/"@ + second
}

/// Text of the content-length line: `Content-Length: <n>`.
pub open spec fn spec_content_length_text(length: nat) -> Seq<char> {
    "Content-Length: "@ + dec_rep(length)
}

/// The serialized text of one header line.
pub open spec fn line_text(l: HttpHeaderLine) -> Seq<char> {
    match l {
        HttpHeaderLine::Status(h) => spec_status_line_text(h.code.code as nat, h.code.phrase@),
        HttpHeaderLine::ContentType(h) => spec_content_type_text(
            h.content_type.first@,
            h.content_type.second@,
        ),
        HttpHeaderLine::ContentLength(h) => spec_content_length_text(h.length as nat),
    }
}

impl HttpHeader<u16> for HttpStatusHeader {
    /// A status-line header can be made from any registered code.
    open spec fn accepts(code: u16) -> bool {
        is_registered(code)
    }

    /// Creates a new [`HttpStatusHeader`] with the default status code of 200.
    fn new() -> (r: Self)
        ensures
            r.code.code == 200,
            r.code.phrase@ == spec_phrase(200),
    {
        HttpStatusHeader { code: HttpStatusCode::new_from(200) }
    }

    /// Creates a new [`HttpStatusHeader`] with the specified registered
    /// status code.
    fn new_from(code: u16) -> (r: Self)
        ensures
            r.code.code == code,
            r.code.phrase@ == spec_phrase(code),
    {
        HttpStatusHeader { code: HttpStatusCode::new_from(code) }
    }
}

impl HttpHeader<HttpContentType> for HttpContentTypeHeader {
    /// A content-type header can be made from any content type.
    open spec fn accepts(content_type: HttpContentType) -> bool {
        true
    }

    /// Creates a new [`HttpContentTypeHeader`] with a default content type
    /// of text/plain.
    fn new() -> (r: Self)
        ensures
            r.content_type.first@ == "text"@,
            r.content_type.second@ == "plain"@,
    {
        HttpContentTypeHeader { content_type: HttpContentType { first: "text", second: "plain" } }
    }

    /// Creates a new [`HttpContentTypeHeader`] with the specified content type.
    fn new_from(content_type: HttpContentType) -> (r: Self)
        ensures
            r.content_type == content_type,
    {
        HttpContentTypeHeader { content_type }
    }
}

impl HttpHeader<usize> for HttpContentLengthHeader {
    /// A content-length header can be made from any length.
    open spec fn accepts(length: usize) -> bool {
        true
    }

    /// Creates a new [`HttpContentLengthHeader`] with a default length of 0.
    fn new() -> (r: Self)
        ensures
            r.length == 0,
    {
        HttpContentLengthHeader { length: 0 }
    }

    /// Creates a new [`HttpContentLengthHeader`] with the specified length.
    fn new_from(length: usize) -> (r: Self)
        ensures
            r.length == length,
    {
        HttpContentLengthHeader { length }
    }
}

impl StringifyHttpHeader for HttpStatusHeader {
    /// Serializes the status line.
    fn to_string(&self) -> (r: String)
        ensures
            r@ == line_text(HttpHeaderLine::Status(*self)),
    {
        let mut s = String::from_str("HTTP/1.1 ");
        let code_digits = u64_to_string(self.code.code as u64);
        s.append(code_digits.as_str());
        s.append(" ");
        s.append(self.code.phrase);
        proof {
            assert(s@ =~= spec_status_line_text(self.code.code as nat, self.code.phrase@));
        }
        s
    }
}

impl StringifyHttpHeader for HttpContentTypeHeader {
    /// Serializes the content-type line.
    fn to_string(&self) -> (r: String)
        ensures
            r@ == line_text(HttpHeaderLine::ContentType(*self)),
    {
        let mut s = String::from_str("Content-Type: ");
        s.append(self.content_type.first);
        s.append("/");
        s.append(self.content_type.second);
        proof {
            assert(s@ =~= spec_content_type_text(
                self.content_type.first@,
                self.content_type.second@,
            ));
        }
        s
    }
}

impl StringifyHttpHeader for HttpContentLengthHeader {
    /// Serializes the content-length line.
    fn to_string(&self) -> (r: String)
        ensures
            r@ == line_text(HttpHeaderLine::ContentLength(*self)),
    {
        let mut s = String::from_str("Content-Length: ");
        let digits = u64_to_string(self.length as u64);
        s.append(digits.as_str());
        proof {
            assert(s@ =~= spec_content_length_text(self.length as nat));
        }
        s
    }
}

/// Serializes any tagged header line.
pub fn line_to_string(l: &HttpHeaderLine) -> (r: String)
    ensures
        r@ == line_text(*l),
{
    match l {
        HttpHeaderLine::Status(h) => h.to_string(),
        HttpHeaderLine::ContentType(h) => h.to_string(),
        HttpHeaderLine::ContentLength(h) => h.to_string(),
    }
}

/// Header lines joined by `\r\n`, with no trailing separator.
pub open spec fn join_crlf(lines: Seq<Seq<char>>) -> Seq<char>
    decreases lines.len(),
{
    if lines.len() == 0 {
        Seq::empty()
    } else if lines.len() == 1 {
        lines[0]
    } else {
        lines[0] + "\r\n"@ + join_crlf(lines.drop_first())
    }
}

pub proof fn lemma_join_crlf_push(lines: Seq<Seq<char>>, line: Seq<char>)
    requires
        lines.len() >= 1,
    ensures
        join_crlf(lines.push(line)) == join_crlf(lines) + "\r\n"@ + line,
    decreases lines.len(),
{
    if lines.len() == 1 {
        assert(lines.push(line).drop_first() =~= seq![line]);
        assert(join_crlf(seq![line]) == line);
        assert(lines.push(line)[0] == lines[0]);
        assert(join_crlf(lines.push(line)) =~= lines[0] + "\r\n"@ + line);
        assert(join_crlf(lines) + "\r\n"@ + line =~= lines[0] + "\r\n"@ + line);
    } else {
        lemma_join_crlf_push(lines.drop_first(), line);
        assert(lines.push(line).drop_first() =~= lines.drop_first().push(line));
        assert(join_crlf(lines.push(line)) =~= join_crlf(lines) + "\r\n"@ + line);
    }
}

impl HeaderVec {
    /// The serialized text of each held line, in order.
    pub open spec fn lines(self) -> Seq<Seq<char>> {
        self.vec@.map(|i: int, l: HttpHeaderLine| line_text(l))
    }

    /// Creates an empty [`HeaderVec`].
    pub fn new() -> (r: Self)
        ensures
            r.vec@.len() == 0,
    {
        HeaderVec { vec: Vec::new() }
    }

    /// Pushes a provided header line onto the [`HeaderVec`].
    pub fn add_header(self, header: HttpHeaderLine) -> (r: Self)
        ensures
            r.vec@ == self.vec@.push(header),
    {
        let mut v = self.vec;
        v.push(header);
        HeaderVec { vec: v }
    }

    /// Builds the [`HeaderVec`] into its [`String`] form: the lines joined
    /// by `\r\n` and closed by the blank-line terminator.
    pub fn build(self) -> (r: String)
        ensures
            r@ == join_crlf(self.lines()) + "\r\n\r\n"@,
    {
        let ghost all_lines = self.lines();
        let mut s = String::new();
        let n = self.vec.len();
        let mut i: usize = 0;
        while i < n
            invariant
                0 <= i <= n,
                n == self.vec.len(),
                all_lines == self.lines(),
                all_lines.len() == n,
                i == 0 ==> s@ == Seq::<char>::empty(),
                i > 0 ==> s@ == join_crlf(all_lines.subrange(0, i as int)),
            decreases n - i,
        {
            let line = self.vec[i];
            let t = line_to_string(&line);
            if i > 0 {
                s.append("\r\n");
            }
            s.append(t.as_str());
            proof {
                let prev = all_lines.subrange(0, i as int);
                let cur = all_lines.subrange(0, i + 1 as int);
                assert(all_lines[i as int] == line_text(line));
                if i == 0 {
                    assert(cur =~= seq![line_text(line)]);
                    assert(s@ =~= join_crlf(cur));
                } else {
                    lemma_join_crlf_push(prev, line_text(line));
                    assert(cur =~= prev.push(line_text(line)));
                    assert(s@ =~= join_crlf(cur));
                }
            }
            i = i + 1;
        }
        s.append("\r\n\r\n");
        proof {
            if n == 0 {
                assert(s@ =~= join_crlf(all_lines) + "\r\n\r\n"@);
            } else {
                assert(all_lines.subrange(0, n as int) =~= all_lines);
                assert(s@ =~= join_crlf(all_lines) + "\r\n\r\n"@);
            }
        }
        s
    }
}

} // verus!
