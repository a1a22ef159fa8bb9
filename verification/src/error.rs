//! The error taxonomy of the pixelboard.
//!
//! Validation and conflict errors are reported synchronously, before any
//! request to an external service is issued, and leave the engine unchanged.
//! The external-call errors report a failed leg of a settlement; effects
//! already committed on the external side before the failing leg are not
//! rolled back, since the engine has no authority over the external services.

use vstd::prelude::*;

verus! {

/// Everything a pixelboard operation can fail with.
#[derive(Clone, Copy, PartialEq, Eq, Structural, Debug)]
pub enum NFTPixelboardError {
    /// An initialization address (owner, payment service, token service) is
    /// the reserved null address.
    ZeroAddress,
    /// The block side length is zero.
    ZeroBlockSideLength,
    /// A canvas dimension is zero or not a multiple of the block side length.
    InvalidResolution,
    /// The commission percentage exceeds 100.
    InvalidCommission,
    /// A rectangle's corners are mixed up, equal, or lie outside the canvas.
    InvalidGeometry,
    /// A painting's pixel count differs from the area it must fill.
    SizeMismatch,
    /// A pixel price exceeds [`crate::pricing::MAX_PIXEL_PRICE`].
    PriceTooHigh,
    /// The caller does not own the token it tries to modify.
    Unauthorized,
    /// The rectangle to mint intersects an already minted territory.
    Overlap,
    /// No minted token matches the given token identifier.
    NotFound,
    /// The targeted rectangle or token has a settlement in flight; the
    /// request must be resubmitted once that settlement reaches a terminal
    /// state.
    Busy,
    /// The token is not listed for sale.
    NotForSale,
    /// The token is already listed for sale; a listing is never updated in
    /// place.
    AlreadyForSale,
    /// A price computation would exceed the value type.
    Overflow,
    /// The payment ledger refused or failed a token transfer.
    FTokensTransferFailed,
    /// The token registry refused or failed an ownership transfer.
    NFTTransferFailed,
    /// The token registry refused or failed a mint, or handed back a token
    /// identifier that is already registered on this board.
    NFTMintFailed,
}

} // verus!
