//! The error taxonomy of the client, and the one rule that sorts every
//! response into success or remote failure.

use vstd::prelude::*;

use crate::is_success_status;
use crate::text::dec_of;

verus! {

/// Every way a remote operation can fail.
///
/// `Config` arises only while constructing the client handle; `Transport`
/// stands for a network-level failure reported by the HTTP layer; `Remote` is
/// a response whose status lies outside the success range, carrying the status
/// and the raw body text verbatim; `Decode` is a success response whose body
/// did not match the expected shape.
#[derive(Clone, Debug)]
pub enum YuqueError {
    Config(String),
    Transport(String),
    Remote { status: u16, body: String },
    Decode(String),
}

/// The rendered message of an error, as the view of [`YuqueError::message`].
pub open spec fn error_message(e: YuqueError) -> Seq<char> {
    match e {
        YuqueError::Config(m) => "configuration error: "@ + m@,
        YuqueError::Transport(m) => "transport error: "@ + m@,
        YuqueError::Remote { status, body } => dec_of(status as nat) + " "@ + body@,
        YuqueError::Decode(m) => "decode error: "@ + m@,
    }
}

impl YuqueError {
    /// A human-readable description; a remote error renders as the status
    /// code, a space, and the raw body.
    pub fn message(&self) -> (r: String)
        ensures
            r@ == error_message(*self),
    {
        match self {
            YuqueError::Config(m) => {
                let mut out = String::from_str("configuration error: ");
                out.append(m.as_str());
                out
            },
            YuqueError::Transport(m) => {
                let mut out = String::from_str("transport error: ");
                out.append(m.as_str());
                out
            },
            YuqueError::Remote { status, body } => {
                let mut out = String::new();
                crate::text::push_u64(&mut out, *status as u64);
                out.push(' ');
                out.append(body.as_str());
                proof {
                    reveal_strlit(" ");
                    assert(out@ =~= error_message(*self));
                }
                out
            },
            YuqueError::Decode(m) => {
                let mut out = String::from_str("decode error: ");
                out.append(m.as_str());
                out
            },
        }
    }
}

/// Sorts a finished HTTP exchange: a status in the success range yields the
/// body for decoding, any other status yields a remote error carrying the
/// status and the body verbatim.
pub fn response_outcome(status: u16, body: String) -> (r: Result<String, YuqueError>)
    ensures
        is_success_status(status) ==> (r matches Ok(b) && b@ == body@),
        !is_success_status(status) ==> (r matches Err(YuqueError::Remote { status: s, body: b })
            && s == status && b@ == body@),
{
    if crate::status_is_success(status) {
        Ok(body)
    } else {
        Err(YuqueError::Remote { status, body })
    }
}

} // verus!
