//! The request dispatcher: splits a raw request into method and path
//! tokens, routes by method, resolves the path under the served root with
//! a traversal guard, and assembles the response bit-exactly.
//!
//! Retrieval is the only implemented method.  A path whose local form
//! contains `..` is answered with the unauthorized-path response, which
//! carries status code 504: that code is outside the status registry, but
//! it is the established wire behaviour and is preserved as such.  After
//! status and body are chosen, a request extension missing from the
//! content-type registry forces status 400, extension `txt`, and the
//! Bad-Request body, whatever came before.

use vstd::prelude::*;

verus! {

use vstd::string::*;
use vstd::utf8::{is_ascii_chars, is_ascii_chars_concat};
use crate::errors::HttpErrors;
use crate::headers::{
    code_to_msg, spec_phrase, spec_status_line_text, spec_content_type_text,
    spec_content_length_text, join_crlf, HeaderVec, HttpContent, HttpContentLengthHeader,
    HttpContentTypeHeader, HttpHeader, HttpHeaderLine, HttpResponse,
    HttpStatusCode, HttpStatusHeader,
};
use crate::media::{ext_supported, ext_to_type, spec_mime_first, spec_mime_second};
use crate::strutil::{
    ascii_bytes, dec_rep, lemma_dec_rep_ascii, skip_tok, skip_ws, str_eq_str,
    str_to_ascii_bytes, tok_end, u64_to_string, ws_end,
};

/// The reason phrase as it goes on the wire.  Code 504 is emitted only for
/// the unauthorized-path case and has no registry entry; it travels with
/// the Unauthorized phrase.
pub open spec fn wire_phrase(code: u16) -> Seq<char> {
    if code == 504 {
        "Unauthorized"@
    } else {
        spec_phrase(code)
    }
}

/// The status-phrase string used as an error/placeholder body:
/// `<code> <phrase>`.
pub open spec fn status_body_text(code: u16) -> Seq<char> {
    dec_rep(code as nat) + " "@ + wire_phrase(code)
}

/// The UTF-8 (here: ASCII) bytes of the status-phrase body.
pub open spec fn status_body_bytes(code: u16) -> Seq<u8> {
    ascii_bytes(status_body_text(code))
}

/// The full serialized header text for a response: status line,
/// content-type line, content-length line, blank-line terminator, joined
/// with `\r\n`.
pub open spec fn spec_headers_text(code: u16, ext: Seq<char>, len: nat) -> Seq<char> {
    spec_status_line_text(code as nat, wire_phrase(code)) + "\r\n"@ + spec_content_type_text(
        spec_mime_first(ext),
        spec_mime_second(ext),
    ) + "\r\n"@ + spec_content_length_text(len) + "\r\n\r\n"@
}

/// A response is exactly the wire form for `code`, the content type of
/// `ext`, and the body `body`: headers byte-for-byte, content-length equal
/// to the body's byte count, body equal to `body`.
pub open spec fn is_wire_response(
    resp: HttpResponse,
    code: u16,
    ext: Seq<char>,
    body: Seq<u8>,
) -> bool {
    &&& resp.headers@ == spec_headers_text(code, ext, body.len())
    &&& resp.content.content@ == body
}

/// The path contains the two-character sequence `..` somewhere.
pub open spec fn contains_dotdot(s: Seq<char>) -> bool {
    exists|i: int| 0 <= i && i + 1 < s.len() && #[trigger] s[i] == '.' && s[i + 1] == '.'
}

/// Runtime check for [`contains_dotdot`]: the coarse traversal guard.
pub fn path_contains_dotdot(path: &str) -> (b: bool)
    ensures
        b == contains_dotdot(path@),
{
    let n = path.unicode_len();
    if n < 2 {
        return false;
    }
    let mut i: usize = 0;
    while i < n - 1
        invariant
            2 <= n,
            0 <= i <= n - 1,
            n == path@.len(),
            forall|j: int| 0 <= j < i ==> !(#[trigger] path@[j] == '.' && path@[j + 1] == '.'),
        decreases n - i,
    {
        if path.get_char(i) == '.' && path.get_char(i + 1) == '.' {
            return true;
        }
        i = i + 1;
    }
    false
}

/// Index of the last `.` strictly below `i`, or `-1` when there is none.
pub open spec fn last_dot_from(s: Seq<char>, i: int) -> int
    decreases i,
{
    if i <= 0 {
        -1
    } else if s[i - 1] == '.' {
        i - 1
    } else {
        last_dot_from(s, i - 1)
    }
}

/// The effective extension of a request path: the text after the last `.`,
/// or `txt` when the path has no `.` at all.
pub open spec fn spec_extension_of(s: Seq<char>) -> Seq<char> {
    let d = last_dot_from(s, s.len() as int);
    if d < 0 {
        "txt"@
    } else {
        s.subrange(d + 1, s.len() as int)
    }
}

/// Extracts the effective extension of a request path.  A path with no
/// `.` segment falls back to the `txt` extension.
pub fn request_extension(path: &str) -> (r: String)
    ensures
        r@ == spec_extension_of(path@),
        (forall|i: int| 0 <= i < path@.len() ==> path@[i] != '.') ==> r@ == "txt"@,
{
    let n = path.unicode_len();
    let mut i: usize = n;
    while i > 0
        invariant
            0 <= i <= n,
            n == path@.len(),
            last_dot_from(path@, n as int) == last_dot_from(path@, i as int),
        decreases i,
    {
        if path.get_char(i - 1) == '.' {
            let tail = path.substring_char(i, n);
            proof {
                assert(last_dot_from(path@, i as int) == i - 1);
            }
            return String::from_str(tail);
        }
        i = i - 1;
    }
    proof {
        assert(last_dot_from(path@, 0int) == -1);
    }
    String::from_str("txt")
}

/// Prefixes the request path with the served root, the current directory.
pub fn to_local_path(path: &str) -> (r: String)
    ensures
        r@ == "."@ + path@,
{
    let mut s = String::from_str(".");
    s.append(path);
    s
}

/// Relies on fs_err::metadata: `Ok` exactly when a filesystem entry exists
/// at `path` and its metadata is readable.  The result depends on the state
/// of the disk, so nothing is assumed of it.
#[verifier::external_body]
fn path_exists(path: &str) -> bool {
    fs_err::metadata(path).is_ok()
}

/// Relies on fs_err::read: the complete contents of the file at `path`, or
/// the rendered text of the I/O error.  The result depends on the state of
/// the disk, so nothing is assumed of it.
#[verifier::external_body]
fn read_file_bytes(path: &str) -> Result<Vec<u8>, String> {
    match fs_err::read(path) {
        Ok(bytes) => Ok(bytes),
        Err(e) => Err(e.to_string()),
    }
}

/// Resolves a local path to its file contents.  A path containing `..` is
/// rejected before any disk access; a path with no filesystem entry is
/// reported as not found; a failing read is reported as a read failure.
pub fn get_file(path: &str) -> (r: Result<Vec<u8>, HttpErrors>)
    ensures
        contains_dotdot(path@) ==> (r matches Err(e) && e matches HttpErrors::UnauthorizedPath(p)
            && p@ == path@),
        !contains_dotdot(path@) ==> match r {
            Ok(_) => true,
            Err(e) => (e matches HttpErrors::ResourceNotFound(p) && p@ == path@) || (
            e matches HttpErrors::FileReadFailure(_)),
        },
{
    if path_contains_dotdot(path) {
        return Err(HttpErrors::UnauthorizedPath(String::from_str(path)));
    }
    if !path_exists(path) {
        return Err(HttpErrors::ResourceNotFound(String::from_str(path)));
    }
    match read_file_bytes(path) {
        Ok(bytes) => Ok(bytes),
        Err(msg) => Err(HttpErrors::FileReadFailure(msg)),
    }
}

/// Builds the status-phrase body for one of the emitted error codes.
fn status_body_vec(code: u16) -> (r: Vec<u8>)
    requires
        code == 400 || code == 404 || code == 501 || code == 504,
    ensures
        r@ == status_body_bytes(code),
{
    let phrase: &'static str = if code == 504 {
        "Unauthorized"
    } else {
        code_to_msg(code).unwrap()
    };
    let mut s = u64_to_string(code as u64);
    s.append(" ");
    s.append(phrase);
    proof {
        let t1 = dec_rep(code as nat);
        let t2 = " "@;
        let t3 = phrase@;
        lemma_dec_rep_ascii(code as nat);
        reveal_strlit(" ");
        assert(is_ascii_chars(t2));
        reveal_strlit("Unauthorized");
        reveal_strlit("Bad Request");
        reveal_strlit("Not found");
        reveal_strlit("Not Implemented");
        assert(is_ascii_chars(t3));
        is_ascii_chars_concat(t1 + t2, t1, t2);
        is_ascii_chars_concat(t1 + t2 + t3, t1 + t2, t3);
        assert(s@ =~= t1 + t2 + t3);
        assert(is_ascii_chars(s@));
        assert(s@ == status_body_text(code));
    }
    str_to_ascii_bytes(s.as_str())
}

/// Assembles the final response for a chosen status and body, applying the
/// unconditional extension override: when the requested extension is not in
/// the content-type registry, the status becomes 400, the extension `txt`,
/// and the body the Bad-Request status-phrase string, whatever was chosen
/// before.
pub fn assemble_response(status_code: u16, ext: String, content: HttpContent) -> (resp:
    HttpResponse)
    requires
        status_code == 200 || status_code == 404 || status_code == 501 || status_code == 504,
    ensures
        ext_supported(ext@) ==> is_wire_response(resp, status_code, ext@, content.content@),
        !ext_supported(ext@) ==> is_wire_response(resp, 400, "txt"@, status_body_bytes(400)),
{
    let mut status_code = status_code;
    let mut ext = ext;
    let mut content = content;
    let ghost supported = ext_supported(ext@);
    if ext_to_type(ext.as_str()).is_none() {
        ext = String::from_str("txt");
        status_code = 400;
        content = HttpContent { content: status_body_vec(400) };
    }
    let status_header = if status_code == 504 {
        HttpStatusHeader { code: HttpStatusCode { code: 504, phrase: "Unauthorized" } }
    } else {
        HttpStatusHeader::new_from(status_code)
    };
    let ce = ext_to_type(ext.as_str()).unwrap();
    let length = content.content.len();
    let hv = HeaderVec::new().add_header(HttpHeaderLine::Status(status_header)).add_header(
        HttpHeaderLine::ContentType(HttpContentTypeHeader::new_from(ce.content_type)),
    ).add_header(HttpHeaderLine::ContentLength(HttpContentLengthHeader::new_from(length)));
    let headers = hv.build();
    proof {
        let t1 = spec_status_line_text(status_code as nat, wire_phrase(status_code));
        let t2 = spec_content_type_text(spec_mime_first(ext@), spec_mime_second(ext@));
        let t3 = spec_content_length_text(content.content@.len());
        let lines = seq![t1, t2, t3];
        assert(hv.lines() =~= seq![t1, t2, t3]);
        assert(seq![t1, t2, t3].drop_first() =~= seq![t2, t3]);
        assert(seq![t2, t3].drop_first() =~= seq![t3]);
        assert(join_crlf(seq![t3]) == t3);
        assert(join_crlf(seq![t2, t3]) == t2 + "\r\n"@ + join_crlf(seq![t3]));
        assert(join_crlf(lines) == t1 + "\r\n"@ + join_crlf(seq![t2, t3]));
        assert(headers@ =~= spec_headers_text(status_code, ext@, content.content@.len()));
    }
    HttpResponse { headers, content }
}

/// Handles a retrieval request for an already localized path and effective
/// extension.  Traversal attempts are answered, never erred on; only a
/// failing read of an existing file surfaces as an error.
pub fn get(request_url: String, ext: String) -> (r: Result<HttpResponse, HttpErrors>)
    ensures
        get_contract(r, request_url@, ext@),
{
    match get_file(request_url.as_str()) {
        Ok(bytes) => {
            let resp = assemble_response(200, ext, HttpContent::from(bytes));
            proof {
                if ext_supported(ext@) {
                    assert(is_wire_response(resp, 200, ext@, resp.content.content@));
                }
            }
            Ok(resp)
        },
        Err(HttpErrors::ResourceNotFound(_)) => {
            let body = status_body_vec(404);
            if ext_to_type(ext.as_str()).is_some() {
                // The not-found response's content type falls back to txt,
                // whatever extension was requested.
                Ok(assemble_response(404, String::from_str("txt"), HttpContent { content: body }))
            } else {
                // An unsupported extension still draws the unconditional
                // 400 override.
                Ok(assemble_response(404, ext, HttpContent { content: body }))
            }
        },
        Err(HttpErrors::UnauthorizedPath(_)) => {
            let body = status_body_vec(504);
            Ok(assemble_response(504, ext, HttpContent { content: body }))
        },
        Err(e) => Err(e),
    }
}

/// What [`get`] guarantees: a traversal path (`..` in the local path) is
/// answered with the 504 unauthorized response; an unsupported extension
/// forces the 400 Bad-Request response whatever else happened; otherwise
/// the response is the 404 not-found body, whose content type falls back
/// to txt, or a 200 carrying some file contents; the only error outcome is
/// a failing read of an existing file.
pub open spec fn get_contract(
    r: Result<HttpResponse, HttpErrors>,
    url: Seq<char>,
    ext: Seq<char>,
) -> bool {
    let dd = contains_dotdot(url);
    let sup = ext_supported(ext);
    &&& (dd ==> r is Ok)
    &&& (r matches Err(e) ==> !dd && e matches HttpErrors::FileReadFailure(_))
    &&& (r matches Ok(resp) ==> if !sup {
        is_wire_response(resp, 400, "txt"@, status_body_bytes(400))
    } else if dd {
        is_wire_response(resp, 504, ext, status_body_bytes(504))
    } else {
        is_wire_response(resp, 404, "txt"@, status_body_bytes(404)) || (exists|b: Seq<u8>|
            is_wire_response(resp, 200, ext, b))
    })
}

/// A request path containing `..` always draws status 504 with the
/// unauthorized-path body, as long as the effective extension is in the
/// registry (an unsupported extension instead draws the unconditional 400
/// override).
pub proof fn lemma_traversal_guard(
    r: Result<HttpResponse, HttpErrors>,
    url: Seq<char>,
    ext: Seq<char>,
)
    requires
        get_contract(r, url, ext),
        contains_dotdot(url),
        ext_supported(ext),
    ensures
        r matches Ok(resp) && is_wire_response(resp, 504, ext, status_body_bytes(504)),
{
}

/// An extension outside the content-type registry always draws status 400
/// with the Bad-Request body, whether or not the resource exists.
pub proof fn lemma_unsupported_extension(
    r: Result<HttpResponse, HttpErrors>,
    url: Seq<char>,
    ext: Seq<char>,
)
    requires
        get_contract(r, url, ext),
        !ext_supported(ext),
        r is Ok,
    ensures
        r matches Ok(resp) && is_wire_response(resp, 400, "txt"@, status_body_bytes(400)),
{
}

/// The fixed Not-Implemented response: status 501, content type
/// text/plain, body `501 Not Implemented`.
pub fn not_impl() -> (r: Result<HttpResponse, HttpErrors>)
    ensures
        r matches Ok(resp) && is_wire_response(resp, 501, "txt"@, status_body_bytes(501)),
{
    let body = status_body_vec(501);
    let resp = assemble_response(501, String::from_str("txt"), HttpContent { content: body });
    Ok(resp)
}

/// POST is not implemented; the path is ignored.
pub fn post(request_url: String, ext: String) -> (r: Result<HttpResponse, HttpErrors>)
    ensures
        r matches Ok(resp) && is_wire_response(resp, 501, "txt"@, status_body_bytes(501)),
{
    let _ = request_url;
    let _ = ext;
    not_impl()
}

/// PATCH is not implemented; the path is ignored.
pub fn patch(request_url: String, ext: String) -> (r: Result<HttpResponse, HttpErrors>)
    ensures
        r matches Ok(resp) && is_wire_response(resp, 501, "txt"@, status_body_bytes(501)),
{
    let _ = request_url;
    let _ = ext;
    not_impl()
}

/// PUT is not implemented; the path is ignored.
pub fn put(request_url: String, ext: String) -> (r: Result<HttpResponse, HttpErrors>)
    ensures
        r matches Ok(resp) && is_wire_response(resp, 501, "txt"@, status_body_bytes(501)),
{
    let _ = request_url;
    let _ = ext;
    not_impl()
}

/// DELETE is not implemented; the path is ignored.
pub fn delete(request_url: String, ext: String) -> (r: Result<HttpResponse, HttpErrors>)
    ensures
        r matches Ok(resp) && is_wire_response(resp, 501, "txt"@, status_body_bytes(501)),
{
    let _ = request_url;
    let _ = ext;
    not_impl()
}

/// The method token of a raw request: the first whitespace-delimited word.
pub open spec fn spec_method_of(s: Seq<char>) -> Seq<char> {
    s.subrange(ws_end(s, 0), tok_end(s, ws_end(s, 0)))
}

/// The path token of a raw request: the second whitespace-delimited word.
pub open spec fn spec_path_of(s: Seq<char>) -> Seq<char> {
    let m1 = tok_end(s, ws_end(s, 0));
    s.subrange(ws_end(s, m1), tok_end(s, ws_end(s, m1)))
}

/// The raw request splits into at least a method token and a path token.
pub open spec fn has_two_tokens(s: Seq<char>) -> bool {
    ws_end(s, tok_end(s, ws_end(s, 0))) < s.len()
}

/// Parses a raw request into method and path tokens, routes by method, and
/// produces the structured response.
pub fn handle_request(request: &str) -> (r: Result<HttpResponse, HttpErrors>)
    ensures
        !has_two_tokens(request@) ==> (r matches Err(e) && e matches HttpErrors::InvalidRequest(t)
            && t@ == request@),
        has_two_tokens(request@) ==> ({
            let method = spec_method_of(request@);
            let path = spec_path_of(request@);
            &&& (method == "GET"@ ==> get_contract(r, "."@ + path, spec_extension_of(path)))
            &&& ((method == "POST"@ || method == "PATCH"@ || method == "PUT"@ || method
                == "DELETE"@) ==> (r matches Ok(resp) && is_wire_response(
                resp,
                501,
                "txt"@,
                status_body_bytes(501),
            )))
            &&& ((method != "GET"@ && method != "POST"@ && method != "PATCH"@ && method != "PUT"@
                && method != "DELETE"@) ==> (r matches Err(e)
                && e matches HttpErrors::UnsupportedRequestType(t) && t@ == method))
        }),
{
    let n = request.unicode_len();
    let m0 = skip_ws(request, 0);
    let m1 = skip_tok(request, m0);
    let p0 = skip_ws(request, m1);
    if p0 == n {
        return Err(HttpErrors::InvalidRequest(String::from_str(request)));
    }
    let p1 = skip_tok(request, p0);
    let method = request.substring_char(m0, m1);
    let path = request.substring_char(p0, p1);
    let local = to_local_path(path);
    let ext = request_extension(path);
    proof {
        reveal_strlit("GET");
        reveal_strlit("POST");
        reveal_strlit("PATCH");
        reveal_strlit("PUT");
        reveal_strlit("DELETE");
        assert("GET"@.len() == 3 && "POST"@.len() == 4 && "PATCH"@.len() == 5 && "PUT"@.len() == 3
            && "DELETE"@.len() == 6);
        assert("GET"@ != "POST"@ && "GET"@ != "PATCH"@ && "GET"@ != "DELETE"@);
        assert("GET"@ != "PUT"@) by {
            assert("GET"@[0] == 'G');
            assert("PUT"@[0] == 'P');
        }
    }
    if str_eq_str(method, "GET") {
        get(local, ext)
    } else if str_eq_str(method, "POST") {
        post(local, ext)
    } else if str_eq_str(method, "PATCH") {
        patch(local, ext)
    } else if str_eq_str(method, "PUT") {
        put(local, ext)
    } else if str_eq_str(method, "DELETE") {
        delete(local, ext)
    } else {
        Err(HttpErrors::UnsupportedRequestType(String::from_str(method)))
    }
}

} // verus!
