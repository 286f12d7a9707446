//! Host capability bridge: rendering a capability handle's failure.
//!
//! The guest calls four host-supplied capability functions.  Each forwards
//! to an externally supplied handle; when the handle fails, only a single
//! descriptive string may cross back to the guest — never the external
//! environment's own error object.  The preferred text is the external
//! environment's own rendering of the failure; when none is available the
//! bridge falls back to a `Type: message` shape built from the handle's
//! reported type name and string representation.

use vstd::prelude::*;
use vstd::string::StringExecFns;

verus! {

/// A failure reported by a capability handle, reduced to the plain values
/// that the bridge's rendering reads: the external environment's own
/// rendering of the failure when it produced one, the failure's reported
/// type name when it could be retrieved, and its string representation
/// when it could be retrieved.
pub struct HandleFailure {
    pub rendered: Option<String>,
    pub ty_name: Option<String>,
    pub message: Option<String>,
}

/// The guest-visible text of a capability failure: the external
/// environment's own rendering when present, otherwise the fallback
/// `Type: message` shape with `"PyErr"` standing in for an unretrievable
/// type name and `"<error>"` for an unretrievable string representation.
pub open spec fn failure_text_spec(f: HandleFailure) -> Seq<char> {
    if f.rendered is Some {
        f.rendered->0@
    } else {
        let ty = if f.ty_name is Some {
            f.ty_name->0@
        } else {
            "PyErr"@
        };
        let msg = if f.message is Some {
            f.message->0@
        } else {
            "<error>"@
        };
        ty + ": "@ + msg
    }
}

/// Renders a capability handle's failure into the one string the guest is
/// allowed to see.
pub fn failure_text(f: &HandleFailure) -> (s: String)
    ensures
        s@ == failure_text_spec(*f),
{
    match &f.rendered {
        Some(r) => r.clone(),
        None => {
            let mut s = String::new();
            match &f.ty_name {
                Some(t) => s.append(t.as_str()),
                None => s.append("PyErr"),
            }
            s.append(": ");
            match &f.message {
                Some(m) => s.append(m.as_str()),
                None => s.append("<error>"),
            }
            proof {
                assert(s@ =~= failure_text_spec(*f));
            }
            s
        },
    }
}

/// Translates the outcome of one capability call into the guest's error
/// convention: success passes through unchanged, and a failure becomes the
/// rendered string of [`failure_text`] — nothing else of the external
/// failure crosses the boundary.
pub fn guest_outcome<T>(r: Result<T, HandleFailure>) -> (g: Result<T, String>)
    ensures
        r is Ok ==> g is Ok && g->Ok_0 == r->Ok_0,
        r is Err ==> g is Err && g->Err_0@ == failure_text_spec(r->Err_0),
{
    match r {
        Ok(v) => Ok(v),
        Err(f) => Err(failure_text(&f)),
    }
}

/// In the fallback shape, the guest-visible text carries the handle's
/// reported failure type first and its message last, separated by `": "`:
/// the type is the prefix of the text and the message its suffix, in that
/// order.
pub proof fn lemma_failure_text_type_then_message(ty_name: String, message: String)
    ensures
        ({
            let s = failure_text_spec(
                HandleFailure {
                    rendered: None,
                    ty_name: Some(ty_name),
                    message: Some(message),
                },
            );
            &&& s.len() == ty_name@.len() + 2 + message@.len()
            &&& s.subrange(0, ty_name@.len() as int) =~= ty_name@
            &&& s.subrange(ty_name@.len() as int + 2, s.len() as int) =~= message@
        }),
{
    reveal_strlit(": ");
}

} // verus!
