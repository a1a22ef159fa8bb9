//! A verified engine for an NFT pixelboard: rectangular territories on a
//! fixed-size pixel canvas, each owned by a non-fungible token, resold with a
//! commission routed to the platform owner.

pub mod canvas;
pub mod engine;
pub mod error;
pub mod geometry;
pub mod messages;
pub mod pricing;
pub mod registry;
pub mod settlement;
pub mod token;

pub use canvas::CanvasBuffer;
pub use engine::{ActionOutcome, Engine};
pub use error::NFTPixelboardError;
pub use geometry::{BlockSideLength, Color, Coordinates, MinBlockSideLength, Rectangle, Resolution};
pub use messages::{
    InitNFTPixelboard, NFTPixelboardAction, NFTPixelboardEvent, NFTPixelboardState,
    NFTPixelboardStateReply,
};
pub use pricing::MAX_PIXEL_PRICE;
pub use registry::TerritoryRegistry;
pub use settlement::{ExternalAction, PendingOp};
pub use token::{ActorId, Token, TokenId, TokenInfo, TokenMetadata, TransactionId};
