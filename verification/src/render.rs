//! Rendering an application error message into wire-error payload bytes.

use vstd::prelude::*;

verus! {

/// What std's `Debug` formatting yields for a string slice, as UTF-8 bytes:
/// the text wrapped in double quotes, with the escapes `Debug` chooses. The
/// result depends on the characters alone.
pub uninterp spec fn rendered_bytes(s: Seq<char>) -> Seq<u8>;

/// Relies on the `format!` macro with the `{:?}` (`Debug`) specifier for
/// `str`, and on `String::into_bytes`, to turn an error message into the
/// payload of an outbound `Error` frame.
#[verifier::external_body]
pub(crate) fn render_error_payload(message: &str) -> (r: Vec<u8>)
    ensures
        r@ == rendered_bytes(message@),
{
    format!("{:?}", message).into_bytes()
}

} // verus!
