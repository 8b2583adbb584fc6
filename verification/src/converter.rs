//! The status converter: turns a numeric status code and a caller-supplied
//! context map into a `cdumay_core::Error`, by exact-match lookup in the
//! registry with the Internal Server Error entry as fallback.

use std::collections::BTreeMap;
use vstd::prelude::*;
use vstd::string::StringExecFns;

use crate::registry::band_category;
use crate::registry::known_code;
use crate::registry::message_of;
use crate::registry::name_of;
use crate::registry::resolve;
use crate::registry::resolved_code;

verus! {

/// Declares `cdumay_core::Error`, the structured error value this crate
/// constructs and decorates but never inspects.
#[verifier::external_type_specification]
#[verifier::external_body]
pub struct ExError(cdumay_core::Error);

/// Declares `serde_value::Value`, the tagged context values carried through
/// verbatim and never inspected.
#[verifier::external_type_specification]
#[verifier::external_body]
pub struct ExValue(serde_value::Value);

/// The numeric code a `cdumay_core::Error` stores, as its `code` accessor
/// returns it.
pub uninterp spec fn error_code(e: cdumay_core::Error) -> u16;

/// The class string a `cdumay_core::Error` stores, as its `class` accessor
/// returns it.
pub uninterp spec fn error_class(e: cdumay_core::Error) -> Seq<char>;

/// The message a `cdumay_core::Error` stores, as its `message` accessor
/// returns it.
pub uninterp spec fn error_message(e: cdumay_core::Error) -> Seq<char>;

/// The details map a `cdumay_core::Error` stores, as its `details` and
/// `details_ref` accessors return it.
pub uninterp spec fn error_details(e: cdumay_core::Error) -> Map<String, serde_value::Value>;

/// Relies on `cdumay_core::Error::new`: it stores its four arguments
/// verbatim in the fields that the accessors `code`, `class`, `message` and
/// `details` read back unchanged.
pub assume_specification [ cdumay_core::Error::new ](
    code: u16,
    class: String,
    message: String,
    details: BTreeMap<String, serde_value::Value>,
) -> (e: cdumay_core::Error)
    ensures
        error_code(e) == code,
        error_class(e) == class@,
        error_message(e) == message@,
        error_details(e) == details@,
;

/// The class string of the entry for a resolved code, as the converter
/// writes it: side, category name and entry name, joined by double colons.
pub open spec fn class_of(c: u16) -> Seq<char> {
    band_category(c).spec_side() + "::"@ + band_category(c).spec_name() + "::"@ + name_of(c)
}

/// What the converter promises of its result: the error carries the resolved
/// code with that entry's class and message, and the context verbatim as its
/// details.
pub open spec fn is_conversion(
    status: u16,
    ctx: Map<String, serde_value::Value>,
    e: cdumay_core::Error,
) -> bool {
    &&& error_code(e) == resolved_code(status)
    &&& error_class(e) == class_of(resolved_code(status))
    &&& error_message(e) == message_of(resolved_code(status))
    &&& error_details(e) == ctx
}

/// No entry of the registry, the fallback included, has an empty message.
pub proof fn lemma_message_of_nonempty(c: u16)
    ensures
        message_of(c).len() > 0,
{
    reveal_strlit("Multiple Choices");
    reveal_strlit("Moved Permanently");
    reveal_strlit("Found");
    reveal_strlit("See Other");
    reveal_strlit("Not Modified");
    reveal_strlit("Use Proxy");
    reveal_strlit("Temporary Redirect");
    reveal_strlit("Permanent Redirect");
    reveal_strlit("Bad Request");
    reveal_strlit("Unauthorized");
    reveal_strlit("Payment Required");
    reveal_strlit("Forbidden");
    reveal_strlit("Not Found");
    reveal_strlit("Method Not Allowed");
    reveal_strlit("Not Acceptable");
    reveal_strlit("Proxy Authentication Required");
    reveal_strlit("Request Timeout");
    reveal_strlit("Conflict");
    reveal_strlit("Gone");
    reveal_strlit("Length Required");
    reveal_strlit("Precondition Failed");
    reveal_strlit("Payload Too Large");
    reveal_strlit("URI Too Long");
    reveal_strlit("Unsupported Media Type");
    reveal_strlit("Range Not Satisfiable");
    reveal_strlit("Expectation Failed");
    reveal_strlit("I'm a teapot");
    reveal_strlit("Misdirected Request");
    reveal_strlit("Unprocessable Entity");
    reveal_strlit("Locked");
    reveal_strlit("Failed Dependency");
    reveal_strlit("Upgrade Required");
    reveal_strlit("Precondition Required");
    reveal_strlit("Too Many Requests");
    reveal_strlit("Request Header Fields Too Large");
    reveal_strlit("Unavailable For Legal Reasons");
    reveal_strlit("Not Implemented");
    reveal_strlit("Bad Gateway");
    reveal_strlit("Service Unavailable");
    reveal_strlit("Gateway Timeout");
    reveal_strlit("HTTP Version Not Supported");
    reveal_strlit("Variant Also Negotiates");
    reveal_strlit("Insufficient Storage");
    reveal_strlit("Loop Detected");
    reveal_strlit("Not Extended");
    reveal_strlit("Network Authentication Required");
    reveal_strlit("Internal Server Error");
}

/// Converts HTTP status codes into `cdumay_core::Error` objects.
pub struct HTTPErrorConverter;

impl HTTPErrorConverter {
    /// Converts a `u16` HTTP status code into a structured `Error`.
    ///
    /// The returned error carries the matched registry entry's code and
    /// message — or those of the Internal Server Error entry when `status`
    /// is not one of the 47 listed codes — and the supplied context,
    /// unchanged, as its details. Total: every status code and every
    /// context map is accepted.
    pub fn from_u16(status: u16, context: BTreeMap<String, serde_value::Value>) -> (e:
        cdumay_core::Error)
        ensures
            is_conversion(status, context@, e),
            known_code(status) ==> error_code(e) == status && error_message(e) == message_of(
                status,
            ),
            !known_code(status) ==> error_code(e) == 500,
            error_details(e) == context@,
            error_message(e).len() > 0,
    {
        let kind = resolve(status);
        let mut class = String::from_str(kind.category.side());
        class.append("::");
        class.append(kind.category.name());
        class.append("::");
        class.append(kind.name);
        let message = String::from_str(kind.message);
        proof {
            lemma_message_of_nonempty(resolved_code(status));
        }
        cdumay_core::Error::new(kind.code, class, message, context)
    }
}

/// Idempotence: two conversions of the same status with value-equal contexts
/// agree in every field of the error — code, class, message and details.
pub proof fn lemma_convert_idempotent(
    status: u16,
    ctx: Map<String, serde_value::Value>,
    e1: cdumay_core::Error,
    e2: cdumay_core::Error,
)
    requires
        is_conversion(status, ctx, e1),
        is_conversion(status, ctx, e2),
    ensures
        error_code(e1) == error_code(e2),
        error_class(e1) == error_class(e2),
        error_message(e1) == error_message(e2),
        error_details(e1) == error_details(e2),
{
}

} // verus!
