//! The fixed catalog of error kinds: three categories, 47 (category, code,
//! name, message) entries, and the exact-match lookup with its fallback.

use vstd::prelude::*;

verus! {

/// Coarse classification of an error kind, derived from the hundred-band of
/// its code: 3xx redirections, 4xx client errors, 5xx server errors.
#[derive(Clone, Copy, PartialEq, Eq, Structural, Debug)]
pub enum Category {
    Redirection,
    ClientError,
    ServerError,
}

impl Category {
    /// The family code of the band: 300, 400 or 500.
    pub open spec fn spec_family_code(self) -> u16 {
        match self {
            Category::Redirection => 300,
            Category::ClientError => 400,
            Category::ServerError => 500,
        }
    }

    pub fn family_code(self) -> (c: u16)
        ensures
            c == self.spec_family_code(),
    {
        match self {
            Category::Redirection => 300,
            Category::ClientError => 400,
            Category::ServerError => 500,
        }
    }

    /// The category's display label.
    pub open spec fn spec_label(self) -> Seq<char> {
        match self {
            Category::Redirection => "Redirect"@,
            Category::ClientError => "Client Error"@,
            Category::ServerError => "Server Error"@,
        }
    }

    pub fn label(self) -> (s: &'static str)
        ensures
            s@ == self.spec_label(),
    {
        match self {
            Category::Redirection => "Redirect",
            Category::ClientError => "Client Error",
            Category::ServerError => "Server Error",
        }
    }

    /// The category's identifier, as it appears in an error's class string.
    pub open spec fn spec_name(self) -> Seq<char> {
        match self {
            Category::Redirection => "Redirection"@,
            Category::ClientError => "ClientError"@,
            Category::ServerError => "ServerError"@,
        }
    }

    pub fn name(self) -> (s: &'static str)
        ensures
            s@ == self.spec_name(),
    {
        match self {
            Category::Redirection => "Redirection",
            Category::ClientError => "ClientError",
            Category::ServerError => "ServerError",
        }
    }

    /// Which side an error of this category is blamed on in its class string:
    /// families up to 499 (redirections included) read "Client", the 500
    /// family reads "Server".
    pub open spec fn spec_side(self) -> Seq<char> {
        if self.spec_family_code() <= 499 {
            "Client"@
        } else {
            "Server"@
        }
    }

    pub fn side(self) -> (s: &'static str)
        ensures
            s@ == self.spec_side(),
    {
        match self {
            Category::Redirection => "Client",
            Category::ClientError => "Client",
            Category::ServerError => "Server",
        }
    }
}

/// The category whose band a code falls in, for codes from 300 up: below 400
/// a redirection, below 500 a client error, otherwise a server error.
pub open spec fn band_category(c: u16) -> Category {
    if c < 400 {
        Category::Redirection
    } else if c < 500 {
        Category::ClientError
    } else {
        Category::ServerError
    }
}

/// One entry of the registry: a named, immutable template for a structured
/// error with a fixed code and a fixed default message.
#[derive(Clone, Copy, Debug)]
pub struct ErrorKind {
    pub category: Category,
    pub code: u16,
    pub name: &'static str,
    pub message: &'static str,
}

impl ErrorKind {
    /// Category boundaries hold: the code lies inside its category's
    /// hundred-band, never cross-assigned.
    pub open spec fn wf(self) -> bool {
        &&& self.category == band_category(self.code)
        &&& self.category.spec_family_code() <= self.code
        &&& self.code < self.category.spec_family_code() + 100
    }
}

/// Whether a code is one of the 47 that the registry lists. Gaps inside the
/// populated bands (306, 419, 420, 425, 427, 430, 432..450, 452..499, 509)
/// are intentional and count as unknown.
pub open spec fn known_code(c: u16) -> bool {
    ||| c == 300
    ||| c == 301
    ||| c == 302
    ||| c == 303
    ||| c == 304
    ||| c == 305
    ||| c == 307
    ||| c == 308
    ||| c == 400
    ||| c == 401
    ||| c == 402
    ||| c == 403
    ||| c == 404
    ||| c == 405
    ||| c == 406
    ||| c == 407
    ||| c == 408
    ||| c == 409
    ||| c == 410
    ||| c == 411
    ||| c == 412
    ||| c == 413
    ||| c == 414
    ||| c == 415
    ||| c == 416
    ||| c == 417
    ||| c == 418
    ||| c == 421
    ||| c == 422
    ||| c == 423
    ||| c == 424
    ||| c == 426
    ||| c == 428
    ||| c == 429
    ||| c == 431
    ||| c == 451
    ||| c == 500
    ||| c == 501
    ||| c == 502
    ||| c == 503
    ||| c == 504
    ||| c == 505
    ||| c == 506
    ||| c == 507
    ||| c == 508
    ||| c == 510
    ||| c == 511
}

/// The code the converter answers with: the code itself when it is listed,
/// the Internal Server Error code otherwise.
pub open spec fn resolved_code(c: u16) -> u16 {
    if known_code(c) {
        c
    } else {
        500
    }
}

/// The name of the registry entry for a listed code; for any other code, the
/// name of the fallback entry.
pub open spec fn name_of(c: u16) -> Seq<char> {
    if c == 300 {
        "MultipleChoices"@
    } else if c == 301 {
        "MovedPermanently"@
    } else if c == 302 {
        "Found"@
    } else if c == 303 {
        "SeeOther"@
    } else if c == 304 {
        "NotModified"@
    } else if c == 305 {
        "UseProxy"@
    } else if c == 307 {
        "TemporaryRedirect"@
    } else if c == 308 {
        "PermanentRedirect"@
    } else if c == 400 {
        "BadRequest"@
    } else if c == 401 {
        "Unauthorized"@
    } else if c == 402 {
        "PaymentRequired"@
    } else if c == 403 {
        "Forbidden"@
    } else if c == 404 {
        "NotFound"@
    } else if c == 405 {
        "MethodNotAllowed"@
    } else if c == 406 {
        "NotAcceptable"@
    } else if c == 407 {
        "ProxyAuthenticationRequired"@
    } else if c == 408 {
        "RequestTimeout"@
    } else if c == 409 {
        "Conflict"@
    } else if c == 410 {
        "Gone"@
    } else if c == 411 {
        "LengthRequired"@
    } else if c == 412 {
        "PreconditionFailed"@
    } else if c == 413 {
        "PayloadTooLarge"@
    } else if c == 414 {
        "UriTooLong"@
    } else if c == 415 {
        "UnsupportedMediaType"@
    } else if c == 416 {
        "RangeNotSatisfiable"@
    } else if c == 417 {
        "ExpectationFailed"@
    } else if c == 418 {
        "ImATeapot"@
    } else if c == 421 {
        "MisdirectedRequest"@
    } else if c == 422 {
        "UnprocessableEntity"@
    } else if c == 423 {
        "Locked"@
    } else if c == 424 {
        "FailedDependency"@
    } else if c == 426 {
        "UpgradeRequired"@
    } else if c == 428 {
        "PreconditionRequired"@
    } else if c == 429 {
        "TooManyRequests"@
    } else if c == 431 {
        "RequestHeaderFieldsTooLarge"@
    } else if c == 451 {
        "UnavailableForLegalReasons"@
    } else if c == 501 {
        "NotImplemented"@
    } else if c == 502 {
        "BadGateway"@
    } else if c == 503 {
        "ServiceUnavailable"@
    } else if c == 504 {
        "GatewayTimeout"@
    } else if c == 505 {
        "HttpVersionNotSupported"@
    } else if c == 506 {
        "VariantAlsoNegotiates"@
    } else if c == 507 {
        "InsufficientStorage"@
    } else if c == 508 {
        "LoopDetected"@
    } else if c == 510 {
        "NotExtended"@
    } else if c == 511 {
        "NetworkAuthenticationRequired"@
    } else {
        "InternalServerError"@
    }
}

/// The default message of the registry entry for a listed code; for any
/// other code, the message of the fallback entry.
pub open spec fn message_of(c: u16) -> Seq<char> {
    if c == 300 {
        "Multiple Choices"@
    } else if c == 301 {
        "Moved Permanently"@
    } else if c == 302 {
        "Found"@
    } else if c == 303 {
        "See Other"@
    } else if c == 304 {
        "Not Modified"@
    } else if c == 305 {
        "Use Proxy"@
    } else if c == 307 {
        "Temporary Redirect"@
    } else if c == 308 {
        "Permanent Redirect"@
    } else if c == 400 {
        "Bad Request"@
    } else if c == 401 {
        "Unauthorized"@
    } else if c == 402 {
        "Payment Required"@
    } else if c == 403 {
        "Forbidden"@
    } else if c == 404 {
        "Not Found"@
    } else if c == 405 {
        "Method Not Allowed"@
    } else if c == 406 {
        "Not Acceptable"@
    } else if c == 407 {
        "Proxy Authentication Required"@
    } else if c == 408 {
        "Request Timeout"@
    } else if c == 409 {
        "Conflict"@
    } else if c == 410 {
        "Gone"@
    } else if c == 411 {
        "Length Required"@
    } else if c == 412 {
        "Precondition Failed"@
    } else if c == 413 {
        "Payload Too Large"@
    } else if c == 414 {
        "URI Too Long"@
    } else if c == 415 {
        "Unsupported Media Type"@
    } else if c == 416 {
        "Range Not Satisfiable"@
    } else if c == 417 {
        "Expectation Failed"@
    } else if c == 418 {
        "I'm a teapot"@
    } else if c == 421 {
        "Misdirected Request"@
    } else if c == 422 {
        "Unprocessable Entity"@
    } else if c == 423 {
        "Locked"@
    } else if c == 424 {
        "Failed Dependency"@
    } else if c == 426 {
        "Upgrade Required"@
    } else if c == 428 {
        "Precondition Required"@
    } else if c == 429 {
        "Too Many Requests"@
    } else if c == 431 {
        "Request Header Fields Too Large"@
    } else if c == 451 {
        "Unavailable For Legal Reasons"@
    } else if c == 501 {
        "Not Implemented"@
    } else if c == 502 {
        "Bad Gateway"@
    } else if c == 503 {
        "Service Unavailable"@
    } else if c == 504 {
        "Gateway Timeout"@
    } else if c == 505 {
        "HTTP Version Not Supported"@
    } else if c == 506 {
        "Variant Also Negotiates"@
    } else if c == 507 {
        "Insufficient Storage"@
    } else if c == 508 {
        "Loop Detected"@
    } else if c == 510 {
        "Not Extended"@
    } else if c == 511 {
        "Network Authentication Required"@
    } else {
        "Internal Server Error"@
    }
}

/// Every field the registry entry of a resolved code carries, gathered in
/// one predicate: the entry for `c` itself when `c` is listed, the fallback
/// entry otherwise.
pub open spec fn is_entry_for(c: u16, k: ErrorKind) -> bool {
    &&& k.code == resolved_code(c)
    &&& k.category == band_category(resolved_code(c))
    &&& k.name@ == name_of(resolved_code(c))
    &&& k.message@ == message_of(resolved_code(c))
    &&& k.wf()
}

/// Exact-match lookup in the registry: the entry whose code equals `status`,
/// or `None` when `status` is not one of the 47 listed codes.
pub fn lookup(status: u16) -> (r: Option<ErrorKind>)
    ensures
        r is Some <==> known_code(status),
        r is Some ==> is_entry_for(status, r->Some_0),
{
    match status {
        300 => Some(
            ErrorKind {
                category: Category::Redirection,
                code: 300,
                name: "MultipleChoices",
                message: "Multiple Choices",
            },
        ),
        301 => Some(
            ErrorKind {
                category: Category::Redirection,
                code: 301,
                name: "MovedPermanently",
                message: "Moved Permanently",
            },
        ),
        302 => Some(
            ErrorKind { category: Category::Redirection, code: 302, name: "Found", message: "Found" },
        ),
        303 => Some(
            ErrorKind {
                category: Category::Redirection,
                code: 303,
                name: "SeeOther",
                message: "See Other",
            },
        ),
        304 => Some(
            ErrorKind {
                category: Category::Redirection,
                code: 304,
                name: "NotModified",
                message: "Not Modified",
            },
        ),
        305 => Some(
            ErrorKind {
                category: Category::Redirection,
                code: 305,
                name: "UseProxy",
                message: "Use Proxy",
            },
        ),
        307 => Some(
            ErrorKind {
                category: Category::Redirection,
                code: 307,
                name: "TemporaryRedirect",
                message: "Temporary Redirect",
            },
        ),
        308 => Some(
            ErrorKind {
                category: Category::Redirection,
                code: 308,
                name: "PermanentRedirect",
                message: "Permanent Redirect",
            },
        ),
        400 => Some(
            ErrorKind {
                category: Category::ClientError,
                code: 400,
                name: "BadRequest",
                message: "Bad Request",
            },
        ),
        401 => Some(
            ErrorKind {
                category: Category::ClientError,
                code: 401,
                name: "Unauthorized",
                message: "Unauthorized",
            },
        ),
        402 => Some(
            ErrorKind {
                category: Category::ClientError,
                code: 402,
                name: "PaymentRequired",
                message: "Payment Required",
            },
        ),
        403 => Some(
            ErrorKind {
                category: Category::ClientError,
                code: 403,
                name: "Forbidden",
                message: "Forbidden",
            },
        ),
        404 => Some(
            ErrorKind {
                category: Category::ClientError,
                code: 404,
                name: "NotFound",
                message: "Not Found",
            },
        ),
        405 => Some(
            ErrorKind {
                category: Category::ClientError,
                code: 405,
                name: "MethodNotAllowed",
                message: "Method Not Allowed",
            },
        ),
        406 => Some(
            ErrorKind {
                category: Category::ClientError,
                code: 406,
                name: "NotAcceptable",
                message: "Not Acceptable",
            },
        ),
        407 => Some(
            ErrorKind {
                category: Category::ClientError,
                code: 407,
                name: "ProxyAuthenticationRequired",
                message: "Proxy Authentication Required",
            },
        ),
        408 => Some(
            ErrorKind {
                category: Category::ClientError,
                code: 408,
                name: "RequestTimeout",
                message: "Request Timeout",
            },
        ),
        409 => Some(
            ErrorKind {
                category: Category::ClientError,
                code: 409,
                name: "Conflict",
                message: "Conflict",
            },
        ),
        410 => Some(
            ErrorKind { category: Category::ClientError, code: 410, name: "Gone", message: "Gone" },
        ),
        411 => Some(
            ErrorKind {
                category: Category::ClientError,
                code: 411,
                name: "LengthRequired",
                message: "Length Required",
            },
        ),
        412 => Some(
            ErrorKind {
                category: Category::ClientError,
                code: 412,
                name: "PreconditionFailed",
                message: "Precondition Failed",
            },
        ),
        413 => Some(
            ErrorKind {
                category: Category::ClientError,
                code: 413,
                name: "PayloadTooLarge",
                message: "Payload Too Large",
            },
        ),
        414 => Some(
            ErrorKind {
                category: Category::ClientError,
                code: 414,
                name: "UriTooLong",
                message: "URI Too Long",
            },
        ),
        415 => Some(
            ErrorKind {
                category: Category::ClientError,
                code: 415,
                name: "UnsupportedMediaType",
                message: "Unsupported Media Type",
            },
        ),
        416 => Some(
            ErrorKind {
                category: Category::ClientError,
                code: 416,
                name: "RangeNotSatisfiable",
                message: "Range Not Satisfiable",
            },
        ),
        417 => Some(
            ErrorKind {
                category: Category::ClientError,
                code: 417,
                name: "ExpectationFailed",
                message: "Expectation Failed",
            },
        ),
        418 => Some(
            ErrorKind {
                category: Category::ClientError,
                code: 418,
                name: "ImATeapot",
                message: "I'm a teapot",
            },
        ),
        421 => Some(
            ErrorKind {
                category: Category::ClientError,
                code: 421,
                name: "MisdirectedRequest",
                message: "Misdirected Request",
            },
        ),
        422 => Some(
            ErrorKind {
                category: Category::ClientError,
                code: 422,
                name: "UnprocessableEntity",
                message: "Unprocessable Entity",
            },
        ),
        423 => Some(
            ErrorKind {
                category: Category::ClientError,
                code: 423,
                name: "Locked",
                message: "Locked",
            },
        ),
        424 => Some(
            ErrorKind {
                category: Category::ClientError,
                code: 424,
                name: "FailedDependency",
                message: "Failed Dependency",
            },
        ),
        426 => Some(
            ErrorKind {
                category: Category::ClientError,
                code: 426,
                name: "UpgradeRequired",
                message: "Upgrade Required",
            },
        ),
        428 => Some(
            ErrorKind {
                category: Category::ClientError,
                code: 428,
                name: "PreconditionRequired",
                message: "Precondition Required",
            },
        ),
        429 => Some(
            ErrorKind {
                category: Category::ClientError,
                code: 429,
                name: "TooManyRequests",
                message: "Too Many Requests",
            },
        ),
        431 => Some(
            ErrorKind {
                category: Category::ClientError,
                code: 431,
                name: "RequestHeaderFieldsTooLarge",
                message: "Request Header Fields Too Large",
            },
        ),
        451 => Some(
            ErrorKind {
                category: Category::ClientError,
                code: 451,
                name: "UnavailableForLegalReasons",
                message: "Unavailable For Legal Reasons",
            },
        ),
        500 => Some(
            ErrorKind {
                category: Category::ServerError,
                code: 500,
                name: "InternalServerError",
                message: "Internal Server Error",
            },
        ),
        501 => Some(
            ErrorKind {
                category: Category::ServerError,
                code: 501,
                name: "NotImplemented",
                message: "Not Implemented",
            },
        ),
        502 => Some(
            ErrorKind {
                category: Category::ServerError,
                code: 502,
                name: "BadGateway",
                message: "Bad Gateway",
            },
        ),
        503 => Some(
            ErrorKind {
                category: Category::ServerError,
                code: 503,
                name: "ServiceUnavailable",
                message: "Service Unavailable",
            },
        ),
        504 => Some(
            ErrorKind {
                category: Category::ServerError,
                code: 504,
                name: "GatewayTimeout",
                message: "Gateway Timeout",
            },
        ),
        505 => Some(
            ErrorKind {
                category: Category::ServerError,
                code: 505,
                name: "HttpVersionNotSupported",
                message: "HTTP Version Not Supported",
            },
        ),
        506 => Some(
            ErrorKind {
                category: Category::ServerError,
                code: 506,
                name: "VariantAlsoNegotiates",
                message: "Variant Also Negotiates",
            },
        ),
        507 => Some(
            ErrorKind {
                category: Category::ServerError,
                code: 507,
                name: "InsufficientStorage",
                message: "Insufficient Storage",
            },
        ),
        508 => Some(
            ErrorKind {
                category: Category::ServerError,
                code: 508,
                name: "LoopDetected",
                message: "Loop Detected",
            },
        ),
        510 => Some(
            ErrorKind {
                category: Category::ServerError,
                code: 510,
                name: "NotExtended",
                message: "Not Extended",
            },
        ),
        511 => Some(
            ErrorKind {
                category: Category::ServerError,
                code: 511,
                name: "NetworkAuthenticationRequired",
                message: "Network Authentication Required",
            },
        ),
        _ => None,
    }
}

/// The registry entry the converter uses for `status`: the exact match when
/// there is one, the Internal Server Error entry otherwise.
pub fn resolve(status: u16) -> (k: ErrorKind)
    ensures
        is_entry_for(status, k),
        known_code(status) ==> k.code == status,
        !known_code(status) ==> k.code == 500,
{
    match lookup(status) {
        Some(k) => k,
        None => ErrorKind {
            category: Category::ServerError,
            code: 500,
            name: "InternalServerError",
            message: "Internal Server Error",
        },
    }
}

/// The registry's band invariant: every listed code lies between 300 and
/// 511, and its category is the one of its hundred-band.
pub proof fn lemma_registry_bands(c: u16)
    requires
        known_code(c),
    ensures
        300 <= c <= 511,
        300 <= c <= 399 ==> band_category(c) is Redirection,
        400 <= c <= 499 ==> band_category(c) is ClientError,
        500 <= c <= 599 ==> band_category(c) is ServerError,
{
}

} // verus!

