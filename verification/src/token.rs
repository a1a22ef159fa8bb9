//! Tokens and the identities around them.
//!
//! The two external services are addressed by actor identifiers and
//! deduplicate requests by transaction identifiers; both are plain unsigned
//! integers here. The reserved value 0 is the null actor address.

use vstd::prelude::*;
use crate::geometry::{Coordinates, Rectangle};

verus! {

/// An actor address: a user, the platform owner, or an external service.
/// The value 0 is reserved and never a valid address.
pub type ActorId = u64;

/// The identifier the external token registry assigns to a minted token.
pub type TokenId = u128;

/// The tag attached to one request to an external service; the services
/// deduplicate on it, so the engine never issues the same value twice.
pub type TransactionId = u64;

/// Descriptive fields forwarded to the external token registry on mint; the
/// engine carries them through without reading them.
#[derive(PartialEq, Eq, Debug)]
pub struct TokenMetadata {
    pub name: String,
    pub description: String,
    pub media: String,
    pub reference: String,
}

impl Clone for TokenMetadata {
    /// The copy carries the same value.
    fn clone(&self) -> (res: Self)
        ensures
            res == *self,
    {
        TokenMetadata {
            name: self.name.clone(),
            description: self.description.clone(),
            media: self.media.clone(),
            reference: self.reference.clone(),
        }
    }
}

/// What the board records about one minted token.
#[derive(Clone, Copy, PartialEq, Eq, Debug)]
pub struct TokenInfo {
    /// The identifier under which the external token registry knows the
    /// token.
    pub token_id: TokenId,
    /// The current owner of the territory.
    pub owner: ActorId,
    /// `None` while the token is not for sale; `Some(p)` lists it at `p` per
    /// pixel.
    pub pixel_price: Option<u128>,
}

/// A minted token: its territory on the canvas and its record.
#[derive(Clone, Copy, PartialEq, Eq, Debug)]
pub struct Token(pub Rectangle, pub TokenInfo);

impl Token {
    /// The all-zero token that state queries answer a miss with.
    pub open spec fn zeroed_spec() -> Token {
        Token(
            Rectangle {
                top_left_corner: Coordinates { x: 0, y: 0 },
                bottom_right_corner: Coordinates { x: 0, y: 0 },
            },
            TokenInfo { token_id: 0, owner: 0, pixel_price: None },
        )
    }

    /// Builds the all-zero token.
    pub fn zeroed() -> (t: Token)
        ensures
            t == Token::zeroed_spec(),
    {
        Token(
            Rectangle {
                top_left_corner: Coordinates { x: 0, y: 0 },
                bottom_right_corner: Coordinates { x: 0, y: 0 },
            },
            TokenInfo { token_id: 0, owner: 0, pixel_price: None },
        )
    }
}

} // verus!
