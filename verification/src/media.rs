//! The closed content-type registry: an exact, case-sensitive mapping from
//! file extensions to MIME type pairs.

use vstd::prelude::*;

verus! {

use crate::headers::HttpContentType;
use crate::strutil::str_eq_str;

/// Contains an [`HttpContentType`] with its corresponding file extension.
#[derive(Clone, Copy, Debug)]
pub struct ContentExtension {
    pub content_type: HttpContentType,
    pub file_extension: &'static str,
}

/// The extensions the registry knows.
pub open spec fn ext_supported(ext: Seq<char>) -> bool {
    ||| ext == "txt"@
    ||| ext == "html"@
    ||| ext == "css"@
    ||| ext == "png"@
    ||| ext == "svg"@
}

/// The MIME type for a supported extension.
pub open spec fn spec_mime_first(ext: Seq<char>) -> Seq<char> {
    if ext == "txt"@ || ext == "html"@ || ext == "css"@ {
        "text"@
    } else {
        "image"@
    }
}

/// The MIME subtype for a supported extension.
pub open spec fn spec_mime_second(ext: Seq<char>) -> Seq<char> {
    if ext == "txt"@ {
        "plain"@
    } else if ext == "html"@ {
        "html"@
    } else if ext == "css"@ {
        "css"@
    } else if ext == "png"@ {
        "png"@
    } else {
        "svg+xml"@
    }
}

/// Converts a file extension into a [`ContentExtension`] if the registry
/// holds that extension.  Matching is exact and case-sensitive.
pub fn ext_to_type(ext: &str) -> (r: Option<ContentExtension>)
    ensures
        r is Some <==> ext_supported(ext@),
        r matches Some(ce) ==> {
            &&& ce.file_extension@ == ext@
            &&& ce.content_type.first@ == spec_mime_first(ext@)
            &&& ce.content_type.second@ == spec_mime_second(ext@)
        },
{
    if str_eq_str(ext, "txt") {
        Some(ContentExtension {
            content_type: HttpContentType { first: "text", second: "plain" },
            file_extension: "txt",
        })
    } else if str_eq_str(ext, "html") {
        Some(ContentExtension {
            content_type: HttpContentType { first: "text", second: "html" },
            file_extension: "html",
        })
    } else if str_eq_str(ext, "css") {
        Some(ContentExtension {
            content_type: HttpContentType { first: "text", second: "css" },
            file_extension: "css",
        })
    } else if str_eq_str(ext, "png") {
        Some(ContentExtension {
            content_type: HttpContentType { first: "image", second: "png" },
            file_extension: "png",
        })
    } else if str_eq_str(ext, "svg") {
        Some(ContentExtension {
            content_type: HttpContentType { first: "image", second: "svg+xml" },
            file_extension: "svg",
        })
    } else {
        None
    }
}

} // verus!
