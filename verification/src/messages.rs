//! The request and reply surface of the pixelboard, abstracted from any wire
//! encoding.

use vstd::prelude::*;
use crate::geometry::{Color, Coordinates, MinBlockSideLength, Rectangle, Resolution};
use crate::token::{ActorId, Token, TokenId, TokenMetadata};

verus! {

/// Static configuration of a pixelboard, validated once at creation.
///
/// Requirements, each checked by [`crate::engine::Engine::new`]:
/// * `owner`, `ft_program` and `nft_program` must not be the null address;
/// * `min_block_side_length` must be positive;
/// * both sides of `resolution` must be positive multiples of
///   `min_block_side_length`;
/// * `pixel_price` must not exceed [`crate::pricing::MAX_PIXEL_PRICE`];
/// * `resale_commission_percentage` must not exceed 100;
/// * `painting` must hold one color per pixel of the canvas.
#[derive(Clone, Debug)]
pub struct InitNFTPixelboard {
    /// The platform owner: minting fees and resale commissions go here.
    pub owner: ActorId,
    /// The side length of the allocation blocks; both canvas dimensions must
    /// be multiples of it.
    pub min_block_side_length: MinBlockSideLength,
    /// The price of one free pixel, used to compute minting costs.
    pub pixel_price: u128,
    /// The canvas width and height.
    pub resolution: Resolution,
    /// The percentage of each resale routed to the platform owner.
    pub resale_commission_percentage: u8,
    /// The initial painting shown on the whole canvas.
    pub painting: Vec<Color>,
    /// The address of the fungible-payment ledger.
    pub ft_program: ActorId,
    /// The address of the ownership token registry.
    pub nft_program: ActorId,
}

/// An inbound request to the pixelboard.
#[derive(Debug)]
pub enum NFTPixelboardAction {
    /// Mints one token over `rectangle`, paints `painting` there, and
    /// transfers the token to the caller.
    Mint {
        rectangle: Rectangle,
        token_metadata: TokenMetadata,
        painting: Vec<Color>,
    },
    /// Buys the listed token, paying the current owner minus the platform
    /// commission.
    Buy(TokenId),
    /// Lists a token for sale at the given price per pixel. A listing is
    /// never updated or withdrawn: it clears only when the token is bought.
    PutUpForSale { token_id: TokenId, pixel_price: u128 },
    /// Repaints a token's territory.
    Paint { token_id: TokenId, painting: Vec<Color> },
}

/// The reply to a successfully processed [`NFTPixelboardAction`].
#[derive(Clone, Copy, PartialEq, Eq, Structural, Debug)]
pub enum NFTPixelboardEvent {
    Minted(TokenId),
    Bought(TokenId),
    SaleStateChanged(TokenId),
    Painted(TokenId),
}

/// A read-only query of the board's state.
#[derive(Clone, Copy, PartialEq, Eq, Debug)]
pub enum NFTPixelboardState {
    /// The painting of the entire canvas.
    Painting,
    /// The canvas resolution.
    Resolution,
    /// The price of one free pixel.
    PixelPrice,
    /// The allocation block side length.
    MinBlockSideLength,
    /// The token covering the given pixel, if any.
    PixelInfo(Coordinates),
    /// The token with the given identifier, if any.
    TokenInfo(TokenId),
    /// The resale commission percentage.
    ResaleCommissionPercentage,
    /// The address of the fungible-payment ledger.
    FTProgram,
    /// The address of the ownership token registry.
    NFTProgram,
}

/// The reply to a [`NFTPixelboardState`] query. `PixelInfo` and `TokenInfo`
/// answer a miss with a zeroed [`Token`].
#[derive(PartialEq, Eq, Debug)]
pub enum NFTPixelboardStateReply {
    Painting(Vec<Color>),
    Resolution(Resolution),
    PixelPrice(u128),
    MinBlockSideLength(MinBlockSideLength),
    PixelInfo(Token),
    TokenInfo(Token),
    ResaleCommissionPercentage(u8),
    FTProgram(ActorId),
    NFTProgram(ActorId),
}

} // verus!
