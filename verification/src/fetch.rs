//! Validation of a fetched HTTP response.
//!
//! The network transfer itself happens outside the library; whatever the
//! transport observed is handed in as a [`FetchOutcome`]. Validation turns
//! that raw outcome into either the declared content type and the payload,
//! or a [`FetchError`]: a transport failure or timeout is `Unreachable`;
//! a missing or disallowed content type, or a body that could not be
//! read, is `NotAnImage`. Only `image/jpeg` and `image/png` are allowed,
//! by exact comparison of the declared value.

use vstd::prelude::*;

verus! {

use vstd::string::StringExecFns;

/// Why a fetch produced no image.
#[derive(Clone, Copy, Debug, PartialEq, Eq, Structural)]
pub enum FetchError {
    /// Transport-level failure or timeout reaching the source URL.
    Unreachable,
    /// Missing or disallowed content type, or an unreadable body.
    NotAnImage,
}

/// What the transport observed for one request.
#[derive(Debug)]
pub enum FetchOutcome {
    /// The transfer itself failed: DNS, connection, TLS or timeout.
    Unreachable,
    /// A response arrived, with its declared `Content-Type` header (if
    /// any) and its body (`None` when reading the body failed).
    Response { content_type: Option<String>, body: Option<Vec<u8>> },
}

/// The declared content type is one the fetcher accepts.
pub open spec fn is_image_content_type(content_type: Seq<char>) -> bool {
    content_type == "image/jpeg"@ || content_type == "image/png"@
}

/// What validation makes of a raw outcome: the declared content type and
/// the payload on success, the reason otherwise.
pub open spec fn spec_validate(outcome: FetchOutcome) -> Result<(Seq<char>, Seq<u8>), FetchError> {
    match outcome {
        FetchOutcome::Unreachable => Err(FetchError::Unreachable),
        FetchOutcome::Response { content_type, body } => match content_type {
            None => Err(FetchError::NotAnImage),
            Some(ct) => if !is_image_content_type(ct@) {
                Err(FetchError::NotAnImage)
            } else {
                match body {
                    None => Err(FetchError::NotAnImage),
                    Some(b) => Ok((ct@, b@)),
                }
            },
        },
    }
}

/// Turn a raw transport outcome into a validated image response.
pub fn validate_fetched(outcome: FetchOutcome) -> (r: Result<(String, Vec<u8>), FetchError>)
    ensures
        match r {
            Ok(p) => spec_validate(outcome) == Ok::<(Seq<char>, Seq<u8>), FetchError>(
                (p.0@, p.1@),
            ),
            Err(e) => spec_validate(outcome) == Err::<(Seq<char>, Seq<u8>), FetchError>(e),
        },
{
    match outcome {
        FetchOutcome::Unreachable => Err(FetchError::Unreachable),
        FetchOutcome::Response { content_type, body } => {
            let ct = match content_type {
                None => {
                    return Err(FetchError::NotAnImage);
                },
                Some(ct) => ct,
            };
            let jpeg: String = String::from_str("image/jpeg");
            let png: String = String::from_str("image/png");
            if !ct.eq(&jpeg) && !ct.eq(&png) {
                return Err(FetchError::NotAnImage);
            }
            match body {
                None => Err(FetchError::NotAnImage),
                Some(b) => Ok((ct, b)),
            }
        },
    }
}

} // verus!
