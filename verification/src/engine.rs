//! The pixelboard engine: one owned object holding the whole board state.
//!
//! Synchronous operations (listing, painting, queries) complete in one call.
//! A mint or a resale instead runs as a small state machine: the engine
//! validates the request, records a pending operation, and hands back the
//! first request to send to an external service; each reply entry point
//! consumes the service's answer and either hands back the next request or
//! finishes the operation. The engine never performs the external calls
//! itself, so all of its behavior is a function of plain values.
//!
//! While an operation is pending, its rectangle or token carries a marker
//! and every conflicting request is rejected with `Busy`; operations on
//! disjoint territories proceed independently. A failed leg ends the
//! operation: effects already committed by an earlier leg (a debited
//! commission, a paid minting fee) are not rolled back, since the engine has
//! no authority over the external services; the failure is reported to the
//! caller, who may resubmit as a brand-new operation.

use vstd::prelude::*;
use vstd::arithmetic::mul::lemma_mul_upper_bound;
use crate::canvas::{blitted, CanvasBuffer};
use crate::error::NFTPixelboardError;
use crate::geometry::{Color, Coordinates, MinBlockSideLength, Rectangle, Resolution};
use crate::messages::{
    InitNFTPixelboard, NFTPixelboardAction, NFTPixelboardEvent, NFTPixelboardState,
    NFTPixelboardStateReply,
};
use crate::pricing::MAX_PIXEL_PRICE;
use crate::registry::{
    covers_some, has_token, lemma_register_preserves_wf, lemma_token_index_unique, overlaps_some,
    token_index, TerritoryRegistry,
};
use crate::settlement::{
    any_buy_blocks, any_mint_blocks, buy_blocks, find_op, has_op, lemma_op_index_unique,
    mint_blocks, op_index, unique_op_ids, BuyStage, ExternalAction, MintStage, PendingBuy,
    PendingKind, PendingMint, PendingOp,
};
use crate::token::{ActorId, Token, TokenId, TokenInfo, TokenMetadata, TransactionId};

verus! {

/// The board: static configuration, canvas, registry, and the in-flight
/// settlements.
pub struct Engine {
    /// The platform owner receiving minting fees and commissions.
    pub owner: ActorId,
    /// The allocation block side length; both canvas dimensions are
    /// multiples of it.
    pub min_block_side_length: MinBlockSideLength,
    /// The price of one free pixel.
    pub pixel_price: u128,
    /// The canvas resolution.
    pub resolution: Resolution,
    /// The percentage of each resale routed to the platform owner.
    pub resale_commission_percentage: u8,
    /// The address of the fungible-payment ledger.
    pub ft_program: ActorId,
    /// The address of the ownership token registry.
    pub nft_program: ActorId,
    /// The shared pixel buffer.
    pub canvas: CanvasBuffer,
    /// Every minted token.
    pub registry: TerritoryRegistry,
    /// The settlements awaiting an external reply.
    pub pending: Vec<PendingOp>,
    /// The next transaction identifier to hand to an external service;
    /// strictly increasing, so no identifier is ever issued twice.
    pub next_transaction_id: TransactionId,
    /// The next pending-operation identifier; strictly increasing.
    pub next_op_id: u64,
}

/// Everything but the pending table and the transaction counter is kept.
pub open spec fn only_pending_changed(pre: Engine, post: Engine) -> bool {
    &&& same_config(pre, post)
    &&& post.canvas == pre.canvas
    &&& post.registry == pre.registry
    &&& post.next_op_id == pre.next_op_id
}

/// The parts of the engine fixed at initialization.
pub open spec fn same_config(pre: Engine, post: Engine) -> bool {
    &&& post.owner == pre.owner
    &&& post.min_block_side_length == pre.min_block_side_length
    &&& post.pixel_price == pre.pixel_price
    &&& post.resolution == pre.resolution
    &&& post.resale_commission_percentage == pre.resale_commission_percentage
    &&& post.ft_program == pre.ft_program
    &&& post.nft_program == pre.nft_program
}

/// What an accepted mint start changes and hands back: the fee request to
/// the payment ledger, the parked operation under its fresh identifier, and
/// nothing else.
pub open spec fn mint_started(
    pre: Engine,
    post: Engine,
    caller: ActorId,
    rectangle: Rectangle,
    token_metadata: TokenMetadata,
    painting: Seq<Color>,
    op_id: u64,
    action: ExternalAction,
) -> bool {
    &&& op_id == pre.next_op_id
    &&& action matches ExternalAction::TransferFtokens {
        transaction_id,
        sender,
        recipient,
        amount,
    } && transaction_id == pre.next_transaction_id && sender == caller && recipient == pre.owner
        && amount == rectangle.area() * pre.pixel_price
    &&& post.pending@.len() == pre.pending@.len() + 1
    &&& post.pending@.subrange(0, pre.pending@.len() as int) == pre.pending@
    &&& ({
        let op = post.pending@.last();
        &&& op.id == pre.next_op_id
        &&& op.kind matches PendingKind::Mint(m) && m.buyer == caller && m.rectangle == rectangle
            && m.token_metadata == token_metadata && m.painting@ == painting && m.stage
            == MintStage::PaymentRequested
    })
    &&& post.next_op_id == pre.next_op_id + 1
    &&& post.next_transaction_id == pre.next_transaction_id + 1
    &&& post.registry == pre.registry
    &&& post.canvas == pre.canvas
    &&& same_config(pre, post)
}

/// What an accepted resale start changes and hands back: the commission
/// request to the payment ledger — the truncated percentage share of the
/// listed total — the parked operation, and nothing else.
pub open spec fn buy_started(
    pre: Engine,
    post: Engine,
    caller: ActorId,
    token_id: TokenId,
    op_id: u64,
    action: ExternalAction,
) -> bool {
    let t = pre.registry.tokens@[token_index(pre.registry.tokens@, token_id)];
    let total = t.0.area() * t.1.pixel_price->0;
    let commission = total * pre.resale_commission_percentage / 100;
    &&& op_id == pre.next_op_id
    &&& action matches ExternalAction::TransferFtokens {
        transaction_id,
        sender,
        recipient,
        amount,
    } && transaction_id == pre.next_transaction_id && sender == caller && recipient == pre.owner
        && amount == commission
    &&& post.pending@.len() == pre.pending@.len() + 1
    &&& post.pending@.subrange(0, pre.pending@.len() as int) == pre.pending@
    &&& ({
        let op = post.pending@.last();
        &&& op.id == pre.next_op_id
        &&& op.kind matches PendingKind::Buy(b) && b.buyer == caller && b.token_id == token_id
            && b.seller == t.1.owner && b.commission == commission && b.remainder == total
            - commission && b.stage == BuyStage::CommissionRequested
    })
    &&& post.next_op_id == pre.next_op_id + 1
    &&& post.next_transaction_id == pre.next_transaction_id + 1
    &&& post.registry == pre.registry
    &&& post.canvas == pre.canvas
    &&& same_config(pre, post)
}

/// What an accepted listing changes: exactly the token's sale price, set to
/// the given value.
pub open spec fn token_listed(pre: Engine, post: Engine, token_id: TokenId, pixel_price: u128) -> bool {
    let ti = token_index(pre.registry.tokens@, token_id);
    let t = pre.registry.tokens@[ti];
    &&& post.registry.tokens@ == pre.registry.tokens@.update(
        ti,
        Token(t.0, TokenInfo { pixel_price: Some(pixel_price), ..t.1 }),
    )
    &&& post.pending@ == pre.pending@
    &&& post.canvas == pre.canvas
    &&& post.next_transaction_id == pre.next_transaction_id
    &&& post.next_op_id == pre.next_op_id
    &&& same_config(pre, post)
}

/// What an accepted repaint changes: exactly the territory's footprint on
/// the canvas, which now shows the given painting.
pub open spec fn territory_painted(pre: Engine, post: Engine, token_id: TokenId, painting: Seq<Color>) -> bool {
    let t = pre.registry.tokens@[token_index(pre.registry.tokens@, token_id)];
    &&& post.canvas.pixels@ == blitted(
        pre.canvas.pixels@,
        pre.resolution.width as int,
        t.0,
        painting,
    )
    &&& post.canvas.width == pre.canvas.width
    &&& post.canvas.height == pre.canvas.height
    &&& post.registry == pre.registry
    &&& post.pending@ == pre.pending@
    &&& post.next_transaction_id == pre.next_transaction_id
    &&& post.next_op_id == pre.next_op_id
    &&& same_config(pre, post)
}

/// Dropping one pending operation keeps the pending table well formed, as
/// long as the registry and resolution it is judged against are unchanged.
proof fn lemma_pending_remove_wf(pre: Engine, post: Engine, i: int)
    requires
        pre.pending_wf(),
        0 <= i < pre.pending@.len(),
        post.pending@ == pre.pending@.remove(i),
        post.resolution == pre.resolution,
        post.registry == pre.registry,
        post.next_op_id >= pre.next_op_id,
    ensures
        post.pending_wf(),
{
    let n = post.pending@.len() as int;
    assert forall|j1: int, j2: int| 0 <= j1 < j2 < n implies (#[trigger] post.pending@[j1]).id != (
    #[trigger] post.pending@[j2]).id by {
        let k1: int = if j1 < i { j1 } else { j1 + 1 };
        let k2: int = if j2 < i { j2 } else { j2 + 1 };
        assert(post.pending@[j1] == pre.pending@[k1]);
        assert(post.pending@[j2] == pre.pending@[k2]);
        assert(pre.pending@[k1].id != pre.pending@[k2].id);
    }
    assert forall|j: int| 0 <= j < n implies post.pending_op_wf(#[trigger] post.pending@[j]) by {
        let k: int = if j < i { j } else { j + 1 };
        assert(post.pending@[j] == pre.pending@[k]);
        assert(pre.pending_op_wf(pre.pending@[k]));
    }
    assert forall|j: int| 0 <= j < n implies (#[trigger] post.pending@[j]).id < post.next_op_id by {
        let k: int = if j < i { j } else { j + 1 };
        assert(post.pending@[j] == pre.pending@[k]);
        assert(pre.pending@[k].id < pre.next_op_id);
    }
    assert forall|j1: int, j2: int| 0 <= j1 < j2 < n implies match (
        (#[trigger] post.pending@[j1]).kind,
        (#[trigger] post.pending@[j2]).kind,
    ) {
        (PendingKind::Mint(a), PendingKind::Mint(b)) => !a.rectangle.overlaps(b.rectangle),
        (PendingKind::Buy(a), PendingKind::Buy(b)) => a.token_id != b.token_id,
        _ => true,
    } by {
        let k1: int = if j1 < i { j1 } else { j1 + 1 };
        let k2: int = if j2 < i { j2 } else { j2 + 1 };
        assert(post.pending@[j1] == pre.pending@[k1]);
        assert(post.pending@[j2] == pre.pending@[k2]);
    }
}

/// Replacing one pending operation by another of the same identifier, the
/// same target, and the same kind keeps the pending table well formed.
proof fn lemma_pending_update_wf(pre: Engine, post: Engine, i: int, op: PendingOp)
    requires
        pre.pending_wf(),
        0 <= i < pre.pending@.len(),
        op.id == pre.pending@[i].id,
        post.pending@ == pre.pending@.update(i, op),
        post.resolution == pre.resolution,
        post.registry == pre.registry,
        post.next_op_id == pre.next_op_id,
        post.pending_op_wf(op),
        match (pre.pending@[i].kind, op.kind) {
            (PendingKind::Mint(a), PendingKind::Mint(b)) => a.rectangle == b.rectangle,
            (PendingKind::Buy(a), PendingKind::Buy(b)) => a.token_id == b.token_id,
            _ => false,
        },
    ensures
        post.pending_wf(),
{
    let n = post.pending@.len() as int;
    assert forall|j1: int, j2: int| 0 <= j1 < j2 < n implies (#[trigger] post.pending@[j1]).id != (
    #[trigger] post.pending@[j2]).id by {
        assert(pre.pending@[j1].id != pre.pending@[j2].id);
    }
    assert forall|j: int| 0 <= j < n implies post.pending_op_wf(#[trigger] post.pending@[j]) by {
        if j != i {
            assert(post.pending@[j] == pre.pending@[j]);
            assert(pre.pending_op_wf(pre.pending@[j]));
        }
    }
    assert forall|j: int| 0 <= j < n implies (#[trigger] post.pending@[j]).id < post.next_op_id by {
        assert(pre.pending@[j].id < pre.next_op_id);
    }
    assert forall|j1: int, j2: int| 0 <= j1 < j2 < n implies match (
        (#[trigger] post.pending@[j1]).kind,
        (#[trigger] post.pending@[j2]).kind,
    ) {
        (PendingKind::Mint(a), PendingKind::Mint(b)) => !a.rectangle.overlaps(b.rectangle),
        (PendingKind::Buy(a), PendingKind::Buy(b)) => a.token_id != b.token_id,
        _ => true,
    } by {
        if j1 != i && j2 != i {
            assert(post.pending@[j1] == pre.pending@[j1]);
            assert(post.pending@[j2] == pre.pending@[j2]);
        }
    }
}

impl Engine {
    /// The validated static configuration.
    pub open spec fn config_wf(self) -> bool {
        &&& self.owner != 0
        &&& self.ft_program != 0
        &&& self.nft_program != 0
        &&& self.min_block_side_length > 0
        &&& self.resolution.width > 0
        &&& self.resolution.height > 0
        &&& self.resolution.width as int % self.min_block_side_length as int == 0
        &&& self.resolution.height as int % self.min_block_side_length as int == 0
        &&& self.pixel_price <= MAX_PIXEL_PRICE
        &&& self.resale_commission_percentage <= 100
    }

    /// What each in-flight settlement guarantees about the state around it.
    ///
    /// A pending mint's rectangle is valid, its painting fits, and the
    /// rectangle overlaps no registered territory, so the final insertion
    /// cannot fail. A pending resale's token is registered and its recorded
    /// seller is the token's current owner.
    pub open spec fn pending_op_wf(self, op: PendingOp) -> bool {
        match op.kind {
            PendingKind::Mint(m) => {
                &&& m.rectangle.valid_in(self.resolution)
                &&& m.painting@.len() == m.rectangle.area()
                &&& !overlaps_some(self.registry.tokens@, m.rectangle)
            },
            PendingKind::Buy(b) => {
                &&& has_token(self.registry.tokens@, b.token_id)
                &&& self.registry.tokens@[token_index(self.registry.tokens@, b.token_id)].1.owner
                    == b.seller
            },
        }
    }

    /// The pending table is consistent: identifiers are unique and fresh,
    /// every operation is well formed, pending mints are pairwise disjoint
    /// (they will all insert cleanly), and no token is targeted by two
    /// pending resales.
    pub open spec fn pending_wf(self) -> bool {
        &&& unique_op_ids(self.pending@)
        &&& forall|i: int|
            0 <= i < self.pending@.len() ==> self.pending_op_wf(#[trigger] self.pending@[i])
        &&& forall|i: int|
            0 <= i < self.pending@.len() ==> (#[trigger] self.pending@[i]).id < self.next_op_id
        &&& forall|i: int, j: int|
            0 <= i < j < self.pending@.len() ==> match (
                (#[trigger] self.pending@[i]).kind,
                (#[trigger] self.pending@[j]).kind,
            ) {
                (PendingKind::Mint(a), PendingKind::Mint(b)) => !a.rectangle.overlaps(b.rectangle),
                (PendingKind::Buy(a), PendingKind::Buy(b)) => a.token_id != b.token_id,
                _ => true,
            }
    }

    /// Well-formedness of the whole engine: the invariant every operation
    /// preserves.
    pub open spec fn wf(self) -> bool {
        &&& self.config_wf()
        &&& self.canvas.wf()
        &&& self.canvas.width == self.resolution.width
        &&& self.canvas.height == self.resolution.height
        &&& self.registry.wf(self.resolution)
        &&& self.pending_wf()
    }

    /// Why an initialization is rejected, or `None` if it is accepted.
    pub open spec fn init_error(init: InitNFTPixelboard) -> Option<NFTPixelboardError> {
        if init.owner == 0 || init.ft_program == 0 || init.nft_program == 0 {
            Some(NFTPixelboardError::ZeroAddress)
        } else if init.min_block_side_length == 0 {
            Some(NFTPixelboardError::ZeroBlockSideLength)
        } else if init.resolution.width == 0 || init.resolution.height == 0
            || init.resolution.width as int % init.min_block_side_length as int != 0
            || init.resolution.height as int % init.min_block_side_length as int != 0 {
            Some(NFTPixelboardError::InvalidResolution)
        } else if init.pixel_price > MAX_PIXEL_PRICE {
            Some(NFTPixelboardError::PriceTooHigh)
        } else if init.resale_commission_percentage > 100 {
            Some(NFTPixelboardError::InvalidCommission)
        } else if init.painting@.len() != init.resolution.width as int
            * init.resolution.height as int {
            Some(NFTPixelboardError::SizeMismatch)
        } else {
            None
        }
    }

    /// Builds a board from its static configuration: an empty registry, no
    /// pending settlement, and the initial painting on the whole canvas.
    /// Fails, if and only if the configuration breaks one of its documented
    /// requirements, with the error naming the first broken one.
    pub fn new(init: InitNFTPixelboard) -> (result: Result<Engine, NFTPixelboardError>)
        ensures
            result is Err <==> Self::init_error(init) is Some,
            result is Err ==> result->Err_0 == Self::init_error(init)->0,
            result matches Ok(engine) ==> {
                &&& engine.owner == init.owner
                &&& engine.min_block_side_length == init.min_block_side_length
                &&& engine.pixel_price == init.pixel_price
                &&& engine.resolution == init.resolution
                &&& engine.resale_commission_percentage == init.resale_commission_percentage
                &&& engine.ft_program == init.ft_program
                &&& engine.nft_program == init.nft_program
                &&& engine.canvas.pixels@ == init.painting@
                &&& engine.registry.tokens@ == Seq::<Token>::empty()
                &&& engine.pending@ == Seq::<PendingOp>::empty()
                &&& engine.next_transaction_id == 0
                &&& engine.next_op_id == 0
                &&& engine.wf()
            },
    {
        if init.owner == 0 || init.ft_program == 0 || init.nft_program == 0 {
            return Err(NFTPixelboardError::ZeroAddress);
        }
        if init.min_block_side_length == 0 {
            return Err(NFTPixelboardError::ZeroBlockSideLength);
        }
        if init.resolution.width == 0 || init.resolution.height == 0
            || init.resolution.width % init.min_block_side_length != 0
            || init.resolution.height % init.min_block_side_length != 0 {
            return Err(NFTPixelboardError::InvalidResolution);
        }
        match crate::pricing::validate_price(init.pixel_price) {
            Ok(_) => {},
            Err(e) => {
                return Err(e);
            },
        }
        if init.resale_commission_percentage > 100 {
            return Err(NFTPixelboardError::InvalidCommission);
        }
        let width = init.resolution.width;
        let height = init.resolution.height;
        proof {
            lemma_mul_upper_bound(width as int, 0xFFFF, height as int, 0xFFFF);
        }
        let pixel_count = (width as u64) * (height as u64);
        if init.painting.len() as u64 != pixel_count {
            return Err(NFTPixelboardError::SizeMismatch);
        }
        let canvas = CanvasBuffer::from_painting(width, height, init.painting);
        Ok(
            Engine {
                owner: init.owner,
                min_block_side_length: init.min_block_side_length,
                pixel_price: init.pixel_price,
                resolution: init.resolution,
                resale_commission_percentage: init.resale_commission_percentage,
                ft_program: init.ft_program,
                nft_program: init.nft_program,
                canvas,
                registry: TerritoryRegistry::new(),
                pending: Vec::new(),
                next_transaction_id: 0,
                next_op_id: 0,
            },
        )
    }

    /// Why a mint request is rejected, or `None` if it is accepted.
    pub open spec fn mint_error(self, rectangle: Rectangle, painting: Seq<Color>) -> Option<
        NFTPixelboardError,
    > {
        if !rectangle.valid_in(self.resolution) {
            Some(NFTPixelboardError::InvalidGeometry)
        } else if painting.len() != rectangle.area() {
            Some(NFTPixelboardError::SizeMismatch)
        } else if overlaps_some(self.registry.tokens@, rectangle) {
            Some(NFTPixelboardError::Overlap)
        } else if mint_blocks(self.pending@, rectangle) {
            Some(NFTPixelboardError::Busy)
        } else {
            None
        }
    }

    /// Starts minting a token over `rectangle` for `caller`.
    ///
    /// On acceptance the painting and metadata are parked under a fresh
    /// pending operation, the rectangle is marked, and the returned request
    /// asks the payment ledger to move the minting fee — the rectangle's
    /// area times the board's pixel price — from the caller to the platform
    /// owner. Nothing is registered or painted until both external legs
    /// confirm. A rejection names the first failing check and changes
    /// nothing.
    pub fn begin_mint(
        &mut self,
        caller: ActorId,
        rectangle: Rectangle,
        token_metadata: TokenMetadata,
        painting: Vec<Color>,
    ) -> (result: Result<(u64, ExternalAction), NFTPixelboardError>)
        requires
            old(self).wf(),
            old(self).next_transaction_id < u64::MAX,
            old(self).next_op_id < u64::MAX,
        ensures
            final(self).wf(),
            result is Err <==> old(self).mint_error(rectangle, painting@) is Some,
            result is Err ==> result->Err_0 == old(self).mint_error(rectangle, painting@)->0
                && *final(self) == *old(self),
            result matches Ok((op_id, action)) ==> mint_started(
                *old(self),
                *final(self),
                caller,
                rectangle,
                token_metadata,
                painting@,
                op_id,
                action,
            ),
    {
        if !rectangle.is_valid_in(&self.resolution) {
            return Err(NFTPixelboardError::InvalidGeometry);
        }
        let area = rectangle.area_pixels();
        if painting.len() as u64 != area {
            return Err(NFTPixelboardError::SizeMismatch);
        }
        if self.registry.find_overlap(&rectangle).is_some() {
            return Err(NFTPixelboardError::Overlap);
        }
        if any_mint_blocks(&self.pending, &rectangle) {
            return Err(NFTPixelboardError::Busy);
        }
        proof {
            lemma_mul_upper_bound(
                rectangle.spec_width(),
                0xFFFF,
                rectangle.spec_height(),
                0xFFFF,
            );
            lemma_mul_upper_bound(
                rectangle.area(),
                0x1_0000_0000,
                self.pixel_price as int,
                MAX_PIXEL_PRICE as int,
            );
        }
        let amount = match crate::pricing::mint_cost(area, self.pixel_price) {
            Ok(amount) => amount,
            Err(e) => {
                proof {
                    assert(false);
                }
                return Err(e);
            },
        };
        let transaction_id = self.next_transaction_id;
        self.next_transaction_id = transaction_id + 1;
        let op_id = self.next_op_id;
        self.next_op_id = op_id + 1;
        let op = PendingOp {
            id: op_id,
            kind: PendingKind::Mint(
                PendingMint {
                    buyer: caller,
                    rectangle,
                    token_metadata,
                    painting,
                    stage: MintStage::PaymentRequested,
                },
            ),
        };
        self.pending.push(op);
        proof {
            let pre = *old(self);
            let post = *self;
            assert forall|i: int, j: int| 0 <= i < j < post.pending@.len() implies (
            #[trigger] post.pending@[i]).id != (#[trigger] post.pending@[j]).id by {
                if j < pre.pending@.len() {
                    assert(pre.pending@[i].id != pre.pending@[j].id);
                } else {
                    assert(post.pending@[i] == pre.pending@[i]);
                    assert(pre.pending@[i].id < pre.next_op_id);
                }
            }
            assert forall|i: int|
                0 <= i < post.pending@.len() implies post.pending_op_wf(
                #[trigger] post.pending@[i],
            ) by {
                if i < pre.pending@.len() {
                    assert(post.pending@[i] == pre.pending@[i]);
                    assert(pre.pending_op_wf(pre.pending@[i]));
                }
            }
            assert forall|i: int, j: int| 0 <= i < j < post.pending@.len() implies match (
                (#[trigger] post.pending@[i]).kind,
                (#[trigger] post.pending@[j]).kind,
            ) {
                (PendingKind::Mint(a), PendingKind::Mint(b)) => !a.rectangle.overlaps(b.rectangle),
                (PendingKind::Buy(a), PendingKind::Buy(b)) => a.token_id != b.token_id,
                _ => true,
            } by {
                if j < pre.pending@.len() {
                    assert(post.pending@[i] == pre.pending@[i]);
                    assert(post.pending@[j] == pre.pending@[j]);
                } else {
                    assert(post.pending@[i] == pre.pending@[i]);
                    assert(!mint_blocks(pre.pending@, rectangle));
                }
            }
            assert(post.pending@.subrange(0, pre.pending@.len() as int) =~= pre.pending@);
        }
        Ok(
            (
                op_id,
                ExternalAction::TransferFtokens {
                    transaction_id,
                    sender: caller,
                    recipient: self.owner,
                    amount,
                },
            ),
        )
    }

    /// The pending operation `op_id` is a mint awaiting its payment reply.
    pub open spec fn awaits_mint_payment(self, op_id: u64) -> bool {
        has_op(self.pending@, op_id) && (self.pending@[op_index(self.pending@, op_id)].kind
            matches PendingKind::Mint(m) && m.stage == MintStage::PaymentRequested)
    }

    /// The pending operation `op_id` is a mint awaiting its ownership
    /// reply.
    pub open spec fn awaits_mint_ownership(self, op_id: u64) -> bool {
        has_op(self.pending@, op_id) && (self.pending@[op_index(self.pending@, op_id)].kind
            matches PendingKind::Mint(m) && m.stage == MintStage::OwnershipRequested)
    }

    /// Feeds a pending mint the payment ledger's reply.
    ///
    /// A confirmed payment advances the operation and hands back the
    /// ownership-mint request for the token registry, under a fresh
    /// transaction identifier. A refused payment ends the operation with
    /// `FTokensTransferFailed` and releases its marker; nothing was
    /// registered or painted. A reply for an unknown operation identifier
    /// is rejected with `NotFound`, one for an operation not awaiting this
    /// leg with `Busy`; neither changes anything, so a redelivered reply
    /// cannot advance an operation twice.
    pub fn mint_payment_reply(&mut self, op_id: u64, transfer_ok: bool) -> (result: Result<
        ExternalAction,
        NFTPixelboardError,
    >)
        requires
            old(self).wf(),
            old(self).next_transaction_id < u64::MAX,
        ensures
            final(self).wf(),
            !has_op(old(self).pending@, op_id) ==> result is Err && result->Err_0
                == NFTPixelboardError::NotFound && *final(self) == *old(self),
            has_op(old(self).pending@, op_id) && !old(self).awaits_mint_payment(op_id) ==> result
                is Err && result->Err_0 == NFTPixelboardError::Busy && *final(self) == *old(self),
            old(self).awaits_mint_payment(op_id) && !transfer_ok ==> {
                &&& result is Err && result->Err_0 == NFTPixelboardError::FTokensTransferFailed
                &&& final(self).pending@ == old(self).pending@.remove(
                    op_index(old(self).pending@, op_id),
                )
                &&& only_pending_changed(*old(self), *final(self))
                &&& final(self).next_transaction_id == old(self).next_transaction_id
            },
            old(self).awaits_mint_payment(op_id) && transfer_ok ==> ({
                let i = op_index(old(self).pending@, op_id);
                let pre_op = old(self).pending@[i];
                &&& pre_op.kind matches PendingKind::Mint(m) && {
                    &&& result matches Ok(action)
                    &&& action matches ExternalAction::MintNft {
                        transaction_id,
                        token_metadata,
                        to,
                    } && transaction_id == old(self).next_transaction_id && token_metadata
                        == m.token_metadata && to == m.buyer
                    &&& final(self).pending@ == old(self).pending@.update(
                        i,
                        (PendingOp {
                            id: pre_op.id,
                            kind: PendingKind::Mint(
                                (PendingMint {
                                    buyer: m.buyer,
                                    rectangle: m.rectangle,
                                    token_metadata: m.token_metadata,
                                    painting: m.painting,
                                    stage: MintStage::OwnershipRequested,
                                }),
                            ),
                        }),
                    )
                }
                &&& only_pending_changed(*old(self), *final(self))
                &&& final(self).next_transaction_id == old(self).next_transaction_id + 1
            }),
    {
        let found = find_op(&self.pending, op_id);
        match found {
            None => Err(NFTPixelboardError::NotFound),
            Some(i) => {
                proof {
                    lemma_op_index_unique(self.pending@, op_id, i as int);
                }
                let ready = match &self.pending[i].kind {
                    PendingKind::Mint(m) => m.stage == MintStage::PaymentRequested,
                    PendingKind::Buy(_) => false,
                };
                if !ready {
                    return Err(NFTPixelboardError::Busy);
                }
                if !transfer_ok {
                    let _ = self.pending.remove(i);
                    proof {
                        lemma_pending_remove_wf(*old(self), *self, i as int);
                    }
                    return Err(NFTPixelboardError::FTokensTransferFailed);
                }
                let transaction_id = self.next_transaction_id;
                self.next_transaction_id = transaction_id + 1;
                let op = self.pending.remove(i);
                match op.kind {
                    PendingKind::Mint(m) => {
                        let buyer = m.buyer;
                        let action_metadata = m.token_metadata.clone();
                        let updated = PendingOp {
                            id: op.id,
                            kind: PendingKind::Mint(
                                PendingMint {
                                    buyer: m.buyer,
                                    rectangle: m.rectangle,
                                    token_metadata: m.token_metadata,
                                    painting: m.painting,
                                    stage: MintStage::OwnershipRequested,
                                },
                            ),
                        };
                        self.pending.insert(i, updated);
                        proof {
                            assert(self.pending@ =~= old(self).pending@.update(
                                i as int,
                                self.pending@[i as int],
                            ));
                            lemma_pending_update_wf(
                                *old(self),
                                *self,
                                i as int,
                                self.pending@[i as int],
                            );
                        }
                        Ok(
                            ExternalAction::MintNft {
                                transaction_id,
                                token_metadata: action_metadata,
                                to: buyer,
                            },
                        )
                    },
                    PendingKind::Buy(_) => {
                        proof {
                            assert(false);
                        }
                        Err(NFTPixelboardError::Busy)
                    },
                }
            },
        }
    }

    /// Feeds a pending mint the token registry's reply: the fresh token
    /// identifier, or `None` for a refused or malformed mint.
    ///
    /// On a confirmed mint the operation applies in full: the token is
    /// registered over its rectangle for the buyer, not for sale, the
    /// parked painting is blitted into the rectangle's footprint, the
    /// marker is released, and `Minted` carries the token identifier back.
    /// The insertion cannot fail: the rectangle was reserved against both
    /// registered and pending territories when the mint began. On a refused
    /// mint — or a reply naming a token identifier this board already has —
    /// the operation ends with `NFTMintFailed` and no state change beyond
    /// releasing the marker; the fee already paid is not refunded, which is
    /// this board's documented partial-failure policy. Unknown identifiers
    /// are rejected with `NotFound`, operations not awaiting this leg with
    /// `Busy`; neither changes anything.
    pub fn mint_ownership_reply(&mut self, op_id: u64, minted: Option<TokenId>) -> (result: Result<
        NFTPixelboardEvent,
        NFTPixelboardError,
    >)
        requires
            old(self).wf(),
        ensures
            final(self).wf(),
            !has_op(old(self).pending@, op_id) ==> result is Err && result->Err_0
                == NFTPixelboardError::NotFound && *final(self) == *old(self),
            has_op(old(self).pending@, op_id) && !old(self).awaits_mint_ownership(op_id)
                ==> result is Err && result->Err_0 == NFTPixelboardError::Busy && *final(self)
                == *old(self),
            old(self).awaits_mint_ownership(op_id) && (minted is None || has_token(
                old(self).registry.tokens@,
                minted->0,
            )) ==> {
                &&& result is Err && result->Err_0 == NFTPixelboardError::NFTMintFailed
                &&& final(self).pending@ == old(self).pending@.remove(
                    op_index(old(self).pending@, op_id),
                )
                &&& only_pending_changed(*old(self), *final(self))
                &&& final(self).next_transaction_id == old(self).next_transaction_id
            },
            old(self).awaits_mint_ownership(op_id) && minted is Some && !has_token(
                old(self).registry.tokens@,
                minted->0,
            ) ==> ({
                let token_id = minted->0;
                let i = op_index(old(self).pending@, op_id);
                let pre_op = old(self).pending@[i];
                &&& pre_op.kind matches PendingKind::Mint(m) && {
                    &&& result matches Ok(event) && event == NFTPixelboardEvent::Minted(token_id)
                    &&& final(self).registry.tokens@ == old(self).registry.tokens@.push(
                        Token(
                            m.rectangle,
                            TokenInfo { token_id, owner: m.buyer, pixel_price: None },
                        ),
                    )
                    &&& final(self).canvas.pixels@ == blitted(
                        old(self).canvas.pixels@,
                        old(self).resolution.width as int,
                        m.rectangle,
                        m.painting@,
                    )
                }
                &&& final(self).pending@ == old(self).pending@.remove(i)
                &&& final(self).canvas.width == old(self).canvas.width
                &&& final(self).canvas.height == old(self).canvas.height
                &&& final(self).next_transaction_id == old(self).next_transaction_id
                &&& final(self).next_op_id == old(self).next_op_id
                &&& same_config(*old(self), *final(self))
            }),
    {
        let found = find_op(&self.pending, op_id);
        match found {
            None => Err(NFTPixelboardError::NotFound),
            Some(i) => {
                proof {
                    lemma_op_index_unique(self.pending@, op_id, i as int);
                }
                let ready = match &self.pending[i].kind {
                    PendingKind::Mint(m) => m.stage == MintStage::OwnershipRequested,
                    PendingKind::Buy(_) => false,
                };
                if !ready {
                    return Err(NFTPixelboardError::Busy);
                }
                let token_id = match minted {
                    None => {
                        let _ = self.pending.remove(i);
                        proof {
                            lemma_pending_remove_wf(*old(self), *self, i as int);
                        }
                        return Err(NFTPixelboardError::NFTMintFailed);
                    },
                    Some(token_id) => token_id,
                };
                if self.registry.find_index(token_id).is_some() {
                    let _ = self.pending.remove(i);
                    proof {
                        lemma_pending_remove_wf(*old(self), *self, i as int);
                    }
                    return Err(NFTPixelboardError::NFTMintFailed);
                }
                let op = self.pending.remove(i);
                proof {
                    lemma_pending_remove_wf(*old(self), *self, i as int);
                }
                match op.kind {
                    PendingKind::Mint(m) => {
                        let token = Token(
                            m.rectangle,
                            TokenInfo { token_id, owner: m.buyer, pixel_price: None },
                        );
                        let registered = self.registry.register(token);
                        match registered {
                            Ok(_) => {},
                            Err(_) => {
                                proof {
                                    assert(false);
                                }
                                return Err(NFTPixelboardError::NFTMintFailed);
                            },
                        }
                        proof {
                            let mid = *self;
                            let pre = *old(self);
                            lemma_register_preserves_wf(
                                pre.registry.tokens@,
                                token,
                                pre.resolution,
                            );
                            assert forall|j: int|
                                0 <= j < mid.pending@.len() implies mid.pending_op_wf(
                                #[trigger] mid.pending@[j],
                            ) by {
                                let k: int = if j < i { j } else { j + 1 };
                                assert(mid.pending@[j] == pre.pending@[k]);
                                assert(pre.pending_op_wf(pre.pending@[k]));
                                match pre.pending@[k].kind {
                                    PendingKind::Mint(other) => {
                                        if k < i {
                                            assert(match (
                                                pre.pending@[k].kind,
                                                pre.pending@[i as int].kind,
                                            ) {
                                                (
                                                    PendingKind::Mint(a),
                                                    PendingKind::Mint(b),
                                                ) => !a.rectangle.overlaps(b.rectangle),
                                                (
                                                    PendingKind::Buy(a),
                                                    PendingKind::Buy(b),
                                                ) => a.token_id != b.token_id,
                                                _ => true,
                                            });
                                        } else {
                                            assert(match (
                                                pre.pending@[i as int].kind,
                                                pre.pending@[k].kind,
                                            ) {
                                                (
                                                    PendingKind::Mint(a),
                                                    PendingKind::Mint(b),
                                                ) => !a.rectangle.overlaps(b.rectangle),
                                                (
                                                    PendingKind::Buy(a),
                                                    PendingKind::Buy(b),
                                                ) => a.token_id != b.token_id,
                                                _ => true,
                                            });
                                        }
                                        assert(!other.rectangle.overlaps(m.rectangle));
                                        assert forall|t: int|
                                            0 <= t < mid.registry.tokens@.len() implies !(
                                        #[trigger] mid.registry.tokens@[t]).0.overlaps(
                                            other.rectangle,
                                        ) by {
                                            if t < pre.registry.tokens@.len() {
                                                assert(mid.registry.tokens@[t]
                                                    == pre.registry.tokens@[t]);
                                                assert(!overlaps_some(
                                                    pre.registry.tokens@,
                                                    other.rectangle,
                                                ));
                                            } else {
                                                assert(mid.registry.tokens@[t] == token);
                                                crate::geometry::lemma_overlap_symmetric(
                                                    m.rectangle,
                                                    other.rectangle,
                                                );
                                            }
                                        }
                                    },
                                    PendingKind::Buy(b) => {
                                        let ti = token_index(pre.registry.tokens@, b.token_id);
                                        lemma_token_index_unique(
                                            mid.registry.tokens@,
                                            b.token_id,
                                            ti,
                                        );
                                    },
                                }
                            }
                        }
                        let blit_result = self.canvas.blit(&m.rectangle, &m.painting);
                        match blit_result {
                            Ok(_) => {},
                            Err(_) => {
                                proof {
                                    assert(false);
                                }
                                return Err(NFTPixelboardError::NFTMintFailed);
                            },
                        }
                        Ok(NFTPixelboardEvent::Minted(token_id))
                    },
                    PendingKind::Buy(_) => {
                        proof {
                            assert(false);
                        }
                        Err(NFTPixelboardError::NFTMintFailed)
                    },
                }
            },
        }
    }

    /// Why a resale request is rejected, or `None` if it is accepted.
    pub open spec fn buy_error(self, token_id: TokenId) -> Option<NFTPixelboardError> {
        if !has_token(self.registry.tokens@, token_id) {
            Some(NFTPixelboardError::NotFound)
        } else if buy_blocks(self.pending@, token_id) {
            Some(NFTPixelboardError::Busy)
        } else if self.registry.tokens@[token_index(self.registry.tokens@, token_id)].1.pixel_price
            is None {
            Some(NFTPixelboardError::NotForSale)
        } else {
            None
        }
    }

    /// The pending operation `op_id` is a resale awaiting the given leg.
    pub open spec fn awaits_buy(self, op_id: u64, stage: BuyStage) -> bool {
        has_op(self.pending@, op_id) && (self.pending@[op_index(self.pending@, op_id)].kind
            matches PendingKind::Buy(b) && b.stage == stage)
    }

    /// Starts buying the listed token `token_id` for `caller`.
    ///
    /// The total is the token's area times its listed per-pixel price; the
    /// commission — the truncated percentage share, rounding in the
    /// platform owner's favor — and the seller's remainder split it
    /// exactly. On acceptance the token is marked, and the returned request
    /// asks the payment ledger to move the commission from the caller to
    /// the platform owner; the remainder and the ownership transfer follow
    /// as separate legs. A rejection names the first failing check and
    /// changes nothing.
    pub fn begin_buy(&mut self, caller: ActorId, token_id: TokenId) -> (result: Result<
        (u64, ExternalAction),
        NFTPixelboardError,
    >)
        requires
            old(self).wf(),
            old(self).next_transaction_id < u64::MAX,
            old(self).next_op_id < u64::MAX,
        ensures
            final(self).wf(),
            result is Err <==> old(self).buy_error(token_id) is Some,
            result is Err ==> result->Err_0 == old(self).buy_error(token_id)->0 && *final(self)
                == *old(self),
            result matches Ok((op_id, action)) ==> buy_started(
                *old(self),
                *final(self),
                caller,
                token_id,
                op_id,
                action,
            ),
    {
        let found = self.registry.find_index(token_id);
        let i = match found {
            None => {
                return Err(NFTPixelboardError::NotFound);
            },
            Some(i) => i,
        };
        proof {
            lemma_token_index_unique(self.registry.tokens@, token_id, i as int);
        }
        if any_buy_blocks(&self.pending, token_id) {
            return Err(NFTPixelboardError::Busy);
        }
        let t = self.tokens_at(i);
        let price = match t.1.pixel_price {
            None => {
                return Err(NFTPixelboardError::NotForSale);
            },
            Some(price) => price,
        };
        proof {
            lemma_mul_upper_bound(t.0.spec_width(), 0xFFFF, t.0.spec_height(), 0xFFFF);
            lemma_mul_upper_bound(
                t.0.area(),
                0x1_0000_0000,
                price as int,
                MAX_PIXEL_PRICE as int,
            );
        }
        let area = t.0.area_pixels();
        let total = (area as u128) * price;
        proof {
            lemma_mul_upper_bound(
                total as int,
                0x1_0000_0000 * MAX_PIXEL_PRICE as int,
                self.resale_commission_percentage as int,
                100,
            );
        }
        let split = crate::pricing::split_commission(total, self.resale_commission_percentage);
        let commission = split.0;
        let remainder = split.1;
        let transaction_id = self.next_transaction_id;
        self.next_transaction_id = transaction_id + 1;
        let op_id = self.next_op_id;
        self.next_op_id = op_id + 1;
        let op = PendingOp {
            id: op_id,
            kind: PendingKind::Buy(
                PendingBuy {
                    buyer: caller,
                    token_id,
                    seller: t.1.owner,
                    commission,
                    remainder,
                    stage: BuyStage::CommissionRequested,
                },
            ),
        };
        self.pending.push(op);
        proof {
            let pre = *old(self);
            let post = *self;
            assert forall|j1: int, j2: int| 0 <= j1 < j2 < post.pending@.len() implies (
            #[trigger] post.pending@[j1]).id != (#[trigger] post.pending@[j2]).id by {
                if j2 < pre.pending@.len() {
                    assert(pre.pending@[j1].id != pre.pending@[j2].id);
                } else {
                    assert(post.pending@[j1] == pre.pending@[j1]);
                    assert(pre.pending@[j1].id < pre.next_op_id);
                }
            }
            assert forall|j: int|
                0 <= j < post.pending@.len() implies post.pending_op_wf(
                #[trigger] post.pending@[j],
            ) by {
                if j < pre.pending@.len() {
                    assert(post.pending@[j] == pre.pending@[j]);
                    assert(pre.pending_op_wf(pre.pending@[j]));
                }
            }
            assert forall|j1: int, j2: int| 0 <= j1 < j2 < post.pending@.len() implies match (
                (#[trigger] post.pending@[j1]).kind,
                (#[trigger] post.pending@[j2]).kind,
            ) {
                (PendingKind::Mint(a), PendingKind::Mint(b)) => !a.rectangle.overlaps(b.rectangle),
                (PendingKind::Buy(a), PendingKind::Buy(b)) => a.token_id != b.token_id,
                _ => true,
            } by {
                if j2 < pre.pending@.len() {
                    assert(post.pending@[j1] == pre.pending@[j1]);
                    assert(post.pending@[j2] == pre.pending@[j2]);
                } else {
                    assert(post.pending@[j1] == pre.pending@[j1]);
                    assert(!buy_blocks(pre.pending@, token_id));
                }
            }
            assert(post.pending@.subrange(0, pre.pending@.len() as int) =~= pre.pending@);
        }
        Ok(
            (
                op_id,
                ExternalAction::TransferFtokens {
                    transaction_id,
                    sender: caller,
                    recipient: self.owner,
                    amount: commission,
                },
            ),
        )
    }

    /// Feeds a pending resale the ledger's reply to the commission leg.
    ///
    /// A confirmed commission transfer advances the operation and hands
    /// back the remainder transfer, from the buyer to the seller, under a
    /// fresh transaction identifier. A refused transfer ends the operation
    /// with `FTokensTransferFailed`; nothing was debited. Unknown
    /// identifiers are rejected with `NotFound`, operations not awaiting
    /// this leg with `Busy`; neither changes anything.
    pub fn buy_commission_reply(&mut self, op_id: u64, transfer_ok: bool) -> (result: Result<
        ExternalAction,
        NFTPixelboardError,
    >)
        requires
            old(self).wf(),
            old(self).next_transaction_id < u64::MAX,
        ensures
            final(self).wf(),
            !has_op(old(self).pending@, op_id) ==> result is Err && result->Err_0
                == NFTPixelboardError::NotFound && *final(self) == *old(self),
            has_op(old(self).pending@, op_id) && !old(self).awaits_buy(
                op_id,
                BuyStage::CommissionRequested,
            ) ==> result is Err && result->Err_0 == NFTPixelboardError::Busy && *final(self)
                == *old(self),
            old(self).awaits_buy(op_id, BuyStage::CommissionRequested) && !transfer_ok ==> {
                &&& result is Err && result->Err_0 == NFTPixelboardError::FTokensTransferFailed
                &&& final(self).pending@ == old(self).pending@.remove(
                    op_index(old(self).pending@, op_id),
                )
                &&& only_pending_changed(*old(self), *final(self))
                &&& final(self).next_transaction_id == old(self).next_transaction_id
            },
            old(self).awaits_buy(op_id, BuyStage::CommissionRequested) && transfer_ok ==> ({
                let i = op_index(old(self).pending@, op_id);
                let pre_op = old(self).pending@[i];
                &&& pre_op.kind matches PendingKind::Buy(b) && {
                    &&& result matches Ok(action)
                    &&& action matches ExternalAction::TransferFtokens {
                        transaction_id,
                        sender,
                        recipient,
                        amount,
                    } && transaction_id == old(self).next_transaction_id && sender == b.buyer
                        && recipient == b.seller && amount == b.remainder
                    &&& final(self).pending@ == old(self).pending@.update(
                        i,
                        (PendingOp {
                            id: pre_op.id,
                            kind: PendingKind::Buy(
                                (PendingBuy { stage: BuyStage::RemainderRequested, ..b }),
                            ),
                        }),
                    )
                }
                &&& only_pending_changed(*old(self), *final(self))
                &&& final(self).next_transaction_id == old(self).next_transaction_id + 1
            }),
    {
        let found = find_op(&self.pending, op_id);
        match found {
            None => Err(NFTPixelboardError::NotFound),
            Some(i) => {
                proof {
                    lemma_op_index_unique(self.pending@, op_id, i as int);
                }
                let b = match &self.pending[i].kind {
                    PendingKind::Buy(b) => *b,
                    PendingKind::Mint(_) => {
                        return Err(NFTPixelboardError::Busy);
                    },
                };
                if !(b.stage == BuyStage::CommissionRequested) {
                    return Err(NFTPixelboardError::Busy);
                }
                if !transfer_ok {
                    let _ = self.pending.remove(i);
                    proof {
                        lemma_pending_remove_wf(*old(self), *self, i as int);
                    }
                    return Err(NFTPixelboardError::FTokensTransferFailed);
                }
                let transaction_id = self.next_transaction_id;
                self.next_transaction_id = transaction_id + 1;
                let updated = PendingOp {
                    id: op_id,
                    kind: PendingKind::Buy(
                        PendingBuy { stage: BuyStage::RemainderRequested, ..b },
                    ),
                };
                self.pending[i] = updated;
                proof {
                    lemma_pending_update_wf(*old(self), *self, i as int, self.pending@[i as int]);
                }
                Ok(
                    ExternalAction::TransferFtokens {
                        transaction_id,
                        sender: b.buyer,
                        recipient: b.seller,
                        amount: b.remainder,
                    },
                )
            },
        }
    }

    /// Feeds a pending resale the ledger's reply to the remainder leg.
    ///
    /// A confirmed remainder transfer advances the operation and hands back
    /// the ownership transfer to the buyer, under a fresh transaction
    /// identifier. A refused transfer ends the operation with
    /// `FTokensTransferFailed`; the commission already moved to the
    /// platform owner is not reversed — the board's documented asymmetric
    /// partial-failure policy — and ownership and sale state are unchanged.
    /// Unknown identifiers are rejected with `NotFound`, operations not
    /// awaiting this leg with `Busy`; neither changes anything.
    pub fn buy_remainder_reply(&mut self, op_id: u64, transfer_ok: bool) -> (result: Result<
        ExternalAction,
        NFTPixelboardError,
    >)
        requires
            old(self).wf(),
            old(self).next_transaction_id < u64::MAX,
        ensures
            final(self).wf(),
            !has_op(old(self).pending@, op_id) ==> result is Err && result->Err_0
                == NFTPixelboardError::NotFound && *final(self) == *old(self),
            has_op(old(self).pending@, op_id) && !old(self).awaits_buy(
                op_id,
                BuyStage::RemainderRequested,
            ) ==> result is Err && result->Err_0 == NFTPixelboardError::Busy && *final(self)
                == *old(self),
            old(self).awaits_buy(op_id, BuyStage::RemainderRequested) && !transfer_ok ==> {
                &&& result is Err && result->Err_0 == NFTPixelboardError::FTokensTransferFailed
                &&& final(self).pending@ == old(self).pending@.remove(
                    op_index(old(self).pending@, op_id),
                )
                &&& only_pending_changed(*old(self), *final(self))
                &&& final(self).next_transaction_id == old(self).next_transaction_id
            },
            old(self).awaits_buy(op_id, BuyStage::RemainderRequested) && transfer_ok ==> ({
                let i = op_index(old(self).pending@, op_id);
                let pre_op = old(self).pending@[i];
                &&& pre_op.kind matches PendingKind::Buy(b) && {
                    &&& result matches Ok(action)
                    &&& action matches ExternalAction::TransferNft {
                        transaction_id,
                        token_id,
                        to,
                    } && transaction_id == old(self).next_transaction_id && token_id == b.token_id
                        && to == b.buyer
                    &&& final(self).pending@ == old(self).pending@.update(
                        i,
                        (PendingOp {
                            id: pre_op.id,
                            kind: PendingKind::Buy(
                                (PendingBuy { stage: BuyStage::OwnershipRequested, ..b }),
                            ),
                        }),
                    )
                }
                &&& only_pending_changed(*old(self), *final(self))
                &&& final(self).next_transaction_id == old(self).next_transaction_id + 1
            }),
    {
        let found = find_op(&self.pending, op_id);
        match found {
            None => Err(NFTPixelboardError::NotFound),
            Some(i) => {
                proof {
                    lemma_op_index_unique(self.pending@, op_id, i as int);
                }
                let b = match &self.pending[i].kind {
                    PendingKind::Buy(b) => *b,
                    PendingKind::Mint(_) => {
                        return Err(NFTPixelboardError::Busy);
                    },
                };
                if !(b.stage == BuyStage::RemainderRequested) {
                    return Err(NFTPixelboardError::Busy);
                }
                if !transfer_ok {
                    let _ = self.pending.remove(i);
                    proof {
                        lemma_pending_remove_wf(*old(self), *self, i as int);
                    }
                    return Err(NFTPixelboardError::FTokensTransferFailed);
                }
                let transaction_id = self.next_transaction_id;
                self.next_transaction_id = transaction_id + 1;
                let updated = PendingOp {
                    id: op_id,
                    kind: PendingKind::Buy(
                        PendingBuy { stage: BuyStage::OwnershipRequested, ..b },
                    ),
                };
                self.pending[i] = updated;
                proof {
                    lemma_pending_update_wf(*old(self), *self, i as int, self.pending@[i as int]);
                }
                Ok(
                    ExternalAction::TransferNft {
                        transaction_id,
                        token_id: b.token_id,
                        to: b.buyer,
                    },
                )
            },
        }
    }

    /// Feeds a pending resale the token registry's reply to the ownership
    /// leg.
    ///
    /// On a confirmed transfer the resale applies: the record's owner
    /// becomes the buyer, the listing clears, the marker is released, and
    /// `Bought` carries the token identifier back. On a refused transfer
    /// the operation ends with `NFTTransferFailed` and the record is
    /// unchanged: the money already moved stays moved — the board's
    /// documented asymmetric partial-failure policy — and the
    /// inconsistency is surfaced to the caller. Unknown identifiers are
    /// rejected with `NotFound`, operations not awaiting this leg with
    /// `Busy`; neither changes anything.
    pub fn buy_ownership_reply(&mut self, op_id: u64, transfer_ok: bool) -> (result: Result<
        NFTPixelboardEvent,
        NFTPixelboardError,
    >)
        requires
            old(self).wf(),
        ensures
            final(self).wf(),
            !has_op(old(self).pending@, op_id) ==> result is Err && result->Err_0
                == NFTPixelboardError::NotFound && *final(self) == *old(self),
            has_op(old(self).pending@, op_id) && !old(self).awaits_buy(
                op_id,
                BuyStage::OwnershipRequested,
            ) ==> result is Err && result->Err_0 == NFTPixelboardError::Busy && *final(self)
                == *old(self),
            old(self).awaits_buy(op_id, BuyStage::OwnershipRequested) && !transfer_ok ==> {
                &&& result is Err && result->Err_0 == NFTPixelboardError::NFTTransferFailed
                &&& final(self).pending@ == old(self).pending@.remove(
                    op_index(old(self).pending@, op_id),
                )
                &&& only_pending_changed(*old(self), *final(self))
                &&& final(self).next_transaction_id == old(self).next_transaction_id
            },
            old(self).awaits_buy(op_id, BuyStage::OwnershipRequested) && transfer_ok ==> ({
                let i = op_index(old(self).pending@, op_id);
                let pre_op = old(self).pending@[i];
                &&& pre_op.kind matches PendingKind::Buy(b) && ({
                    let ti = token_index(old(self).registry.tokens@, b.token_id);
                    let t = old(self).registry.tokens@[ti];
                    &&& result matches Ok(event) && event == NFTPixelboardEvent::Bought(b.token_id)
                    &&& final(self).registry.tokens@ == old(self).registry.tokens@.update(
                        ti,
                        Token(
                            t.0,
                            TokenInfo {
                                token_id: b.token_id,
                                owner: b.buyer,
                                pixel_price: None,
                            },
                        ),
                    )
                })
                &&& final(self).pending@ == old(self).pending@.remove(i)
                &&& final(self).canvas == old(self).canvas
                &&& final(self).next_transaction_id == old(self).next_transaction_id
                &&& final(self).next_op_id == old(self).next_op_id
                &&& same_config(*old(self), *final(self))
            }),
    {
        let found = find_op(&self.pending, op_id);
        match found {
            None => Err(NFTPixelboardError::NotFound),
            Some(i) => {
                proof {
                    lemma_op_index_unique(self.pending@, op_id, i as int);
                }
                let b = match &self.pending[i].kind {
                    PendingKind::Buy(b) => *b,
                    PendingKind::Mint(_) => {
                        return Err(NFTPixelboardError::Busy);
                    },
                };
                if !(b.stage == BuyStage::OwnershipRequested) {
                    return Err(NFTPixelboardError::Busy);
                }
                let _ = self.pending.remove(i);
                proof {
                    lemma_pending_remove_wf(*old(self), *self, i as int);
                }
                if !transfer_ok {
                    return Err(NFTPixelboardError::NFTTransferFailed);
                }
                let ghost pre = *old(self);
                let ghost ti = token_index(pre.registry.tokens@, b.token_id);
                let ghost t = pre.registry.tokens@[ti];
                let transferred = self.registry.transfer_owner(b.token_id, b.buyer);
                match transferred {
                    Ok(_) => {},
                    Err(_) => {
                        proof {
                            assert(false);
                        }
                        return Err(NFTPixelboardError::NFTTransferFailed);
                    },
                }
                proof {
                    crate::registry::lemma_update_record_preserves_wf(
                        pre.registry.tokens@,
                        ti,
                        TokenInfo { owner: b.buyer, ..t.1 },
                        pre.resolution,
                    );
                    lemma_token_index_unique(self.registry.tokens@, b.token_id, ti);
                }
                let cleared = self.registry.set_sale_price(b.token_id, None);
                match cleared {
                    Ok(_) => {},
                    Err(_) => {
                        proof {
                            assert(false);
                        }
                        return Err(NFTPixelboardError::NFTTransferFailed);
                    },
                }
                proof {
                    let mid_tokens = pre.registry.tokens@.update(
                        ti,
                        Token(t.0, TokenInfo { owner: b.buyer, ..t.1 }),
                    );
                    crate::registry::lemma_update_record_preserves_wf(
                        mid_tokens,
                        ti,
                        TokenInfo { pixel_price: None, ..TokenInfo { owner: b.buyer, ..t.1 } },
                        pre.resolution,
                    );
                    assert(self.registry.tokens@ =~= pre.registry.tokens@.update(
                        ti,
                        Token(
                            t.0,
                            TokenInfo {
                                token_id: b.token_id,
                                owner: b.buyer,
                                pixel_price: None,
                            },
                        ),
                    ));
                    let post = *self;
                    assert forall|j: int|
                        0 <= j < post.pending@.len() implies post.pending_op_wf(
                        #[trigger] post.pending@[j],
                    ) by {
                        let k: int = if j < i { j } else { j + 1 };
                        assert(post.pending@[j] == pre.pending@[k]);
                        assert(pre.pending_op_wf(pre.pending@[k]));
                        match pre.pending@[k].kind {
                            PendingKind::Mint(other) => {
                                assert forall|u: int|
                                    0 <= u < post.registry.tokens@.len() implies !(
                                #[trigger] post.registry.tokens@[u]).0.overlaps(
                                    other.rectangle,
                                ) by {
                                    assert(post.registry.tokens@[u].0
                                        == pre.registry.tokens@[u].0);
                                    assert(!overlaps_some(pre.registry.tokens@, other.rectangle));
                                }
                            },
                            PendingKind::Buy(ob) => {
                                assert(ob.token_id != b.token_id);
                                let oti = token_index(pre.registry.tokens@, ob.token_id);
                                assert(pre.registry.tokens@[oti].1.token_id == ob.token_id);
                                assert(oti != ti);
                                assert(post.registry.tokens@[oti] == pre.registry.tokens@[oti]);
                                lemma_token_index_unique(
                                    post.registry.tokens@,
                                    ob.token_id,
                                    oti,
                                );
                            },
                        }
                    }
                }
                Ok(NFTPixelboardEvent::Bought(b.token_id))
            },
        }
    }

    /// The token at a registry position; a small helper for the engine's
    /// own reads.
    fn tokens_at(&self, i: usize) -> (t: Token)
        requires
            0 <= i < self.registry.tokens@.len(),
        ensures
            t == self.registry.tokens@[i as int],
    {
        self.registry.tokens[i]
    }

    /// Why a listing request is rejected, or `None` if it is accepted.
    pub open spec fn sale_error(self, caller: ActorId, token_id: TokenId, pixel_price: u128) -> Option<
        NFTPixelboardError,
    > {
        if !has_token(self.registry.tokens@, token_id) {
            Some(NFTPixelboardError::NotFound)
        } else if buy_blocks(self.pending@, token_id) {
            Some(NFTPixelboardError::Busy)
        } else if self.registry.tokens@[token_index(self.registry.tokens@, token_id)].1.owner
            != caller {
            Some(NFTPixelboardError::Unauthorized)
        } else if pixel_price > MAX_PIXEL_PRICE {
            Some(NFTPixelboardError::PriceTooHigh)
        } else if self.registry.tokens@[token_index(self.registry.tokens@, token_id)].1.pixel_price
            is Some {
            Some(NFTPixelboardError::AlreadyForSale)
        } else {
            None
        }
    }

    /// Lists the caller's token for sale at `pixel_price` per pixel.
    ///
    /// Synchronous: no external call is made. A listing is never updated or
    /// withdrawn; it clears only when the token is bought, so listing an
    /// already listed token is rejected with `AlreadyForSale`. A rejection
    /// names the first failing check and changes nothing.
    pub fn put_up_for_sale(&mut self, caller: ActorId, token_id: TokenId, pixel_price: u128) -> (result: Result<
        NFTPixelboardEvent,
        NFTPixelboardError,
    >)
        requires
            old(self).wf(),
        ensures
            final(self).wf(),
            result is Err <==> old(self).sale_error(caller, token_id, pixel_price) is Some,
            result is Err ==> result->Err_0 == old(self).sale_error(caller, token_id, pixel_price)->0
                && *final(self) == *old(self),
            result is Ok ==> result->Ok_0 == NFTPixelboardEvent::SaleStateChanged(token_id)
                && token_listed(*old(self), *final(self), token_id, pixel_price),
    {
        let found = self.registry.find_index(token_id);
        let i = match found {
            None => {
                return Err(NFTPixelboardError::NotFound);
            },
            Some(i) => i,
        };
        proof {
            lemma_token_index_unique(self.registry.tokens@, token_id, i as int);
        }
        if any_buy_blocks(&self.pending, token_id) {
            return Err(NFTPixelboardError::Busy);
        }
        let t = self.tokens_at(i);
        if t.1.owner != caller {
            return Err(NFTPixelboardError::Unauthorized);
        }
        match crate::pricing::validate_price(pixel_price) {
            Ok(_) => {},
            Err(e) => {
                return Err(e);
            },
        }
        if t.1.pixel_price.is_some() {
            return Err(NFTPixelboardError::AlreadyForSale);
        }
        let ghost pre = *old(self);
        let listed = self.registry.set_sale_price(token_id, Some(pixel_price));
        match listed {
            Ok(_) => {},
            Err(_) => {
                proof {
                    assert(false);
                }
                return Err(NFTPixelboardError::NotFound);
            },
        }
        proof {
            crate::registry::lemma_update_record_preserves_wf(
                pre.registry.tokens@,
                i as int,
                TokenInfo { pixel_price: Some(pixel_price), ..t.1 },
                pre.resolution,
            );
            let post = *self;
            assert forall|j: int|
                0 <= j < post.pending@.len() implies post.pending_op_wf(
                #[trigger] post.pending@[j],
            ) by {
                assert(pre.pending_op_wf(pre.pending@[j]));
                match pre.pending@[j].kind {
                    PendingKind::Mint(other) => {
                        assert forall|u: int|
                            0 <= u < post.registry.tokens@.len() implies !(
                        #[trigger] post.registry.tokens@[u]).0.overlaps(other.rectangle) by {
                            assert(post.registry.tokens@[u].0 == pre.registry.tokens@[u].0);
                            assert(!overlaps_some(pre.registry.tokens@, other.rectangle));
                        }
                    },
                    PendingKind::Buy(ob) => {
                        assert(!buy_blocks(pre.pending@, token_id));
                        assert(ob.token_id != token_id);
                        let oti = token_index(pre.registry.tokens@, ob.token_id);
                        assert(pre.registry.tokens@[oti].1.token_id == ob.token_id);
                        assert(oti != i as int);
                        assert(post.registry.tokens@[oti] == pre.registry.tokens@[oti]);
                        lemma_token_index_unique(post.registry.tokens@, ob.token_id, oti);
                    },
                }
            }
        }
        Ok(NFTPixelboardEvent::SaleStateChanged(token_id))
    }

    /// Why a repaint request is rejected, or `None` if it is accepted.
    pub open spec fn paint_error(self, caller: ActorId, token_id: TokenId, painting: Seq<Color>) -> Option<
        NFTPixelboardError,
    > {
        if !has_token(self.registry.tokens@, token_id) {
            Some(NFTPixelboardError::NotFound)
        } else if buy_blocks(self.pending@, token_id) {
            Some(NFTPixelboardError::Busy)
        } else if self.registry.tokens@[token_index(self.registry.tokens@, token_id)].1.owner
            != caller {
            Some(NFTPixelboardError::Unauthorized)
        } else if painting.len() != self.registry.tokens@[token_index(
            self.registry.tokens@,
            token_id,
        )].0.area() {
            Some(NFTPixelboardError::SizeMismatch)
        } else {
            None
        }
    }

    /// Repaints the caller's territory with `painting`.
    ///
    /// Synchronous: no external call is made. The painting must hold
    /// exactly one color per pixel of the territory; it is blitted into the
    /// territory's footprint and every pixel outside is unaffected. A
    /// rejection names the first failing check and changes nothing.
    pub fn paint(&mut self, caller: ActorId, token_id: TokenId, painting: Vec<Color>) -> (result: Result<
        NFTPixelboardEvent,
        NFTPixelboardError,
    >)
        requires
            old(self).wf(),
        ensures
            final(self).wf(),
            result is Err <==> old(self).paint_error(caller, token_id, painting@) is Some,
            result is Err ==> result->Err_0 == old(self).paint_error(caller, token_id, painting@)->0
                && *final(self) == *old(self),
            result is Ok ==> result->Ok_0 == NFTPixelboardEvent::Painted(token_id)
                && territory_painted(*old(self), *final(self), token_id, painting@),
    {
        let found = self.registry.find_index(token_id);
        let i = match found {
            None => {
                return Err(NFTPixelboardError::NotFound);
            },
            Some(i) => i,
        };
        proof {
            lemma_token_index_unique(self.registry.tokens@, token_id, i as int);
        }
        if any_buy_blocks(&self.pending, token_id) {
            return Err(NFTPixelboardError::Busy);
        }
        let t = self.tokens_at(i);
        if t.1.owner != caller {
            return Err(NFTPixelboardError::Unauthorized);
        }
        let area = t.0.area_pixels();
        if painting.len() as u64 != area {
            return Err(NFTPixelboardError::SizeMismatch);
        }
        let ghost pre = *old(self);
        let painted = self.canvas.blit(&t.0, &painting);
        match painted {
            Ok(_) => {},
            Err(_) => {
                proof {
                    assert(false);
                }
                return Err(NFTPixelboardError::SizeMismatch);
            },
        }
        proof {
            let post = *self;
            assert forall|j: int|
                0 <= j < post.pending@.len() implies post.pending_op_wf(
                #[trigger] post.pending@[j],
            ) by {
                assert(pre.pending_op_wf(pre.pending@[j]));
            }
        }
        Ok(NFTPixelboardEvent::Painted(token_id))
    }

    /// The painting currently on the whole canvas.
    pub fn painting(&self) -> (painting: Vec<Color>)
        ensures
            painting@ == self.canvas.pixels@,
    {
        let n = self.canvas.pixels.len();
        let mut painting: Vec<Color> = Vec::new();
        let mut i: usize = 0;
        while i < n
            invariant
                0 <= i <= n,
                n == self.canvas.pixels@.len(),
                painting@ == self.canvas.pixels@.subrange(0, i as int),
            decreases n - i,
        {
            painting.push(self.canvas.pixels[i]);
            proof {
                assert(painting@ =~= self.canvas.pixels@.subrange(0, i + 1));
            }
            i = i + 1;
        }
        proof {
            assert(painting@ =~= self.canvas.pixels@);
        }
        painting
    }

    /// The canvas resolution.
    pub fn resolution(&self) -> (resolution: Resolution)
        ensures
            resolution == self.resolution,
    {
        self.resolution
    }

    /// The price of one free pixel.
    pub fn pixel_price(&self) -> (price: u128)
        ensures
            price == self.pixel_price,
    {
        self.pixel_price
    }

    /// The allocation block side length.
    pub fn min_block_side_length(&self) -> (side: MinBlockSideLength)
        ensures
            side == self.min_block_side_length,
    {
        self.min_block_side_length
    }

    /// The resale commission percentage.
    pub fn resale_commission_percentage(&self) -> (percentage: u8)
        ensures
            percentage == self.resale_commission_percentage,
    {
        self.resale_commission_percentage
    }

    /// The address of the fungible-payment ledger.
    pub fn ft_program(&self) -> (program: ActorId)
        ensures
            program == self.ft_program,
    {
        self.ft_program
    }

    /// The address of the ownership token registry.
    pub fn nft_program(&self) -> (program: ActorId)
        ensures
            program == self.nft_program,
    {
        self.nft_program
    }

    /// The token whose territory covers the given pixel, if any; with
    /// pairwise disjoint territories it is unique.
    pub fn pixel_info(&self, coordinates: Coordinates) -> (found: Option<Token>)
        requires
            self.wf(),
        ensures
            found matches Some(t) ==> exists|i: int|
                0 <= i < self.registry.tokens@.len() && (#[trigger] self.registry.tokens@[i]) == t
                    && t.0.covers(coordinates.x as int, coordinates.y as int),
            found is None <==> !covers_some(
                self.registry.tokens@,
                coordinates.x as int,
                coordinates.y as int,
            ),
    {
        match self.registry.find_containing(&coordinates) {
            Some(i) => Some(self.tokens_at(i)),
            None => None,
        }
    }

    /// The token with the given identifier, if any.
    pub fn token_info(&self, token_id: TokenId) -> (found: Option<Token>)
        requires
            self.wf(),
        ensures
            found is Some <==> has_token(self.registry.tokens@, token_id),
            found matches Some(t) ==> t == self.registry.tokens@[token_index(
                self.registry.tokens@,
                token_id,
            )],
    {
        self.registry.get_by_token_id(token_id)
    }

    /// Answers a read-only state query. `PixelInfo` and `TokenInfo` answer
    /// a miss with the all-zero token, as the wire protocol expects a token
    /// in every reply.
    pub fn state_query(&self, query: NFTPixelboardState) -> (reply: NFTPixelboardStateReply)
        requires
            self.wf(),
        ensures
            query is Painting ==> (reply matches NFTPixelboardStateReply::Painting(p) && p@
                == self.canvas.pixels@),
            query is Resolution ==> reply == NFTPixelboardStateReply::Resolution(self.resolution),
            query is PixelPrice ==> reply == NFTPixelboardStateReply::PixelPrice(self.pixel_price),
            query is MinBlockSideLength ==> reply == NFTPixelboardStateReply::MinBlockSideLength(
                self.min_block_side_length,
            ),
            query is ResaleCommissionPercentage ==> reply
                == NFTPixelboardStateReply::ResaleCommissionPercentage(
                self.resale_commission_percentage,
            ),
            query is FTProgram ==> reply == NFTPixelboardStateReply::FTProgram(self.ft_program),
            query is NFTProgram ==> reply == NFTPixelboardStateReply::NFTProgram(self.nft_program),
            query matches NFTPixelboardState::PixelInfo(c) ==> (reply matches
                NFTPixelboardStateReply::PixelInfo(t) && (if covers_some(
                self.registry.tokens@,
                c.x as int,
                c.y as int,
            ) {
                exists|i: int|
                    0 <= i < self.registry.tokens@.len() && (#[trigger] self.registry.tokens@[i])
                        == t && t.0.covers(c.x as int, c.y as int)
            } else {
                t == Token::zeroed_spec()
            })),
            query matches NFTPixelboardState::TokenInfo(id) ==> (reply matches
                NFTPixelboardStateReply::TokenInfo(t) && (if has_token(
                self.registry.tokens@,
                id,
            ) {
                t == self.registry.tokens@[token_index(self.registry.tokens@, id)]
            } else {
                t == Token::zeroed_spec()
            })),
    {
        match query {
            NFTPixelboardState::Painting => NFTPixelboardStateReply::Painting(self.painting()),
            NFTPixelboardState::Resolution => NFTPixelboardStateReply::Resolution(self.resolution),
            NFTPixelboardState::PixelPrice => NFTPixelboardStateReply::PixelPrice(self.pixel_price),
            NFTPixelboardState::MinBlockSideLength => NFTPixelboardStateReply::MinBlockSideLength(
                self.min_block_side_length,
            ),
            NFTPixelboardState::ResaleCommissionPercentage => {
                NFTPixelboardStateReply::ResaleCommissionPercentage(
                    self.resale_commission_percentage,
                )
            },
            NFTPixelboardState::FTProgram => NFTPixelboardStateReply::FTProgram(self.ft_program),
            NFTPixelboardState::NFTProgram => NFTPixelboardStateReply::NFTProgram(self.nft_program),
            NFTPixelboardState::PixelInfo(coordinates) => {
                match self.pixel_info(coordinates) {
                    Some(t) => NFTPixelboardStateReply::PixelInfo(t),
                    None => NFTPixelboardStateReply::PixelInfo(Token::zeroed()),
                }
            },
            NFTPixelboardState::TokenInfo(token_id) => {
                match self.token_info(token_id) {
                    Some(t) => NFTPixelboardStateReply::TokenInfo(t),
                    None => NFTPixelboardStateReply::TokenInfo(Token::zeroed()),
                }
            },
        }
    }
}

/// How the board answers an inbound request: a settlement was started and
/// its first external request must be sent, or the request completed
/// synchronously with an event.
#[derive(Debug)]
pub enum ActionOutcome {
    /// A mint or a resale was accepted; send `request` to its service and
    /// feed the reply back under `op_id`.
    Started { op_id: u64, request: ExternalAction },
    /// A listing or a repaint completed.
    Completed(NFTPixelboardEvent),
}

impl Engine {
    /// Dispatches one inbound request.
    ///
    /// A mint or a resale is validated and started: the outcome carries the
    /// first external request and the operation identifier under which the
    /// replies come back. A listing or a repaint completes synchronously.
    /// Every rejection leaves the board unchanged.
    pub fn handle_action(&mut self, caller: ActorId, action: NFTPixelboardAction) -> (result:
        Result<ActionOutcome, NFTPixelboardError>)
        requires
            old(self).wf(),
            old(self).next_transaction_id < u64::MAX,
            old(self).next_op_id < u64::MAX,
        ensures
            final(self).wf(),
            action matches NFTPixelboardAction::Mint { rectangle, token_metadata, painting } ==> {
                &&& result is Err <==> old(self).mint_error(rectangle, painting@) is Some
                &&& result is Err ==> result->Err_0 == old(self).mint_error(
                    rectangle,
                    painting@,
                )->0 && *final(self) == *old(self)
                &&& result matches Ok(outcome) ==> outcome matches ActionOutcome::Started {
                    op_id,
                    request,
                } && mint_started(
                    *old(self),
                    *final(self),
                    caller,
                    rectangle,
                    token_metadata,
                    painting@,
                    op_id,
                    request,
                )
            },
            action matches NFTPixelboardAction::Buy(token_id) ==> {
                &&& result is Err <==> old(self).buy_error(token_id) is Some
                &&& result is Err ==> result->Err_0 == old(self).buy_error(token_id)->0
                    && *final(self) == *old(self)
                &&& result matches Ok(outcome) ==> outcome matches ActionOutcome::Started {
                    op_id,
                    request,
                } && buy_started(*old(self), *final(self), caller, token_id, op_id, request)
            },
            action matches NFTPixelboardAction::PutUpForSale { token_id, pixel_price } ==> {
                &&& result is Err <==> old(self).sale_error(caller, token_id, pixel_price) is Some
                &&& result is Err ==> result->Err_0 == old(self).sale_error(
                    caller,
                    token_id,
                    pixel_price,
                )->0 && *final(self) == *old(self)
                &&& result matches Ok(outcome) ==> outcome == ActionOutcome::Completed(
                    NFTPixelboardEvent::SaleStateChanged(token_id),
                ) && token_listed(*old(self), *final(self), token_id, pixel_price)
            },
            action matches NFTPixelboardAction::Paint { token_id, painting } ==> {
                &&& result is Err <==> old(self).paint_error(caller, token_id, painting@) is Some
                &&& result is Err ==> result->Err_0 == old(self).paint_error(
                    caller,
                    token_id,
                    painting@,
                )->0 && *final(self) == *old(self)
                &&& result matches Ok(outcome) ==> outcome == ActionOutcome::Completed(
                    NFTPixelboardEvent::Painted(token_id),
                ) && territory_painted(*old(self), *final(self), token_id, painting@)
            },
    {
        match action {
            NFTPixelboardAction::Mint { rectangle, token_metadata, painting } => {
                let started = self.begin_mint(caller, rectangle, token_metadata, painting)?;
                Ok(ActionOutcome::Started { op_id: started.0, request: started.1 })
            },
            NFTPixelboardAction::Buy(token_id) => {
                let started = self.begin_buy(caller, token_id)?;
                Ok(ActionOutcome::Started { op_id: started.0, request: started.1 })
            },
            NFTPixelboardAction::PutUpForSale { token_id, pixel_price } => {
                let event = self.put_up_for_sale(caller, token_id, pixel_price)?;
                Ok(ActionOutcome::Completed(event))
            },
            NFTPixelboardAction::Paint { token_id, painting } => {
                let event = self.paint(caller, token_id, painting)?;
                Ok(ActionOutcome::Completed(event))
            },
        }
    }
}

/// One outward request, as the engine's contracts describe it: the action
/// carries the transaction counter at the time of issue, and the counter
/// advances past it.
pub open spec fn issues(pre: Engine, post: Engine, action: ExternalAction) -> bool {
    &&& crate::settlement::action_transaction_id(action) == pre.next_transaction_id
    &&& post.next_transaction_id == pre.next_transaction_id + 1
}

/// A transaction identifier is never issued twice.
///
/// Every entry point that hands back an external request satisfies
/// [`issues`]: the request carries the transaction counter at the time of
/// issue and the counter advances past it, and no entry point ever
/// decreases the counter. So two requests issued at different times — here,
/// with any run of the engine between them — carry distinct transaction
/// identifiers, and the external services' deduplication can never drop a
/// genuine new request.
pub proof fn lemma_no_transaction_id_reuse(
    pre1: Engine,
    post1: Engine,
    action1: ExternalAction,
    pre2: Engine,
    post2: Engine,
    action2: ExternalAction,
)
    requires
        issues(pre1, post1, action1),
        post1.next_transaction_id <= pre2.next_transaction_id,
        issues(pre2, post2, action2),
    ensures
        crate::settlement::action_transaction_id(action1)
            != crate::settlement::action_transaction_id(action2),
{
}

} // verus!
