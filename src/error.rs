//! The errors of the library.

use vstd::prelude::*;
use crate::text::{decimal, int_to_decimal};

verus! {

/// Declared so that an image error can travel inside [`SteamError`].
#[verifier::external_type_specification]
#[verifier::external_body]
pub struct ExImageError(image::ImageError);

/// Why a request to the Steam services, or the work on its reply, failed.
#[derive(Debug)]
pub enum SteamError {
    /// The request could not be carried out at all.
    RequestFailed(),
    /// A reply lacked the fields that were expected in it.
    ParseError(),
    /// The game-list service refused the API key.
    WrongAPIKey(),
    /// A service answered with an unexpected HTTP status.
    RequestStatusError(u16),
    /// Artwork could not be decoded, encoded or stored.
    ImageLoadError(image::ImageError),
}

/// The one-line description of an error.
pub open spec fn error_text(e: SteamError) -> Seq<char> {
    match e {
        SteamError::RequestFailed() => "request failed"@,
        SteamError::ParseError() => "response parsing failed"@,
        SteamError::WrongAPIKey() => "wrong api key"@,
        SteamError::RequestStatusError(code) => "failed with status "@ + decimal(code as int),
        SteamError::ImageLoadError(_) => "failed to load image"@,
    }
}

impl SteamError {
    /// The one-line description of this error.
    pub fn message(&self) -> (r: String)
        ensures
            r@ == error_text(*self),
    {
        proof {
            reveal_strlit("request failed");
            reveal_strlit("response parsing failed");
            reveal_strlit("wrong api key");
            reveal_strlit("failed with status ");
            reveal_strlit("failed to load image");
        }
        match self {
            SteamError::RequestFailed() => String::from_str("request failed"),
            SteamError::ParseError() => String::from_str("response parsing failed"),
            SteamError::WrongAPIKey() => String::from_str("wrong api key"),
            SteamError::RequestStatusError(code) => {
                let mut r = String::from_str("failed with status ");
                let digits = int_to_decimal(*code as i128);
                r.append(digits.as_str());
                r
            },
            SteamError::ImageLoadError(_) => String::from_str("failed to load image"),
        }
    }
}

} // verus!
