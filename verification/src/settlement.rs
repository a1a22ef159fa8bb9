//! In-flight settlements and the requests they send outward.
//!
//! A mint or a resale spans several calls to external services. Between the
//! calls the operation rests here as a pending record, holding a marker on
//! the rectangle or token it targets; every mutating entry point of the
//! engine rejects new work on a marked target until the operation reaches a
//! terminal state. Each outward request carries a transaction identifier
//! that is never issued twice, so the external services can deduplicate
//! redelivered requests.

use vstd::prelude::*;
use crate::geometry::{Color, Rectangle};
use crate::token::{ActorId, TokenId, TokenMetadata, TransactionId};

verus! {

/// How far a pending mint has come: the payment leg runs first, the
/// ownership leg after it is confirmed.
#[derive(Clone, Copy, PartialEq, Eq, Structural, Debug)]
pub enum MintStage {
    /// The minting fee transfer has been requested and not yet answered.
    PaymentRequested,
    /// The payment is confirmed; the ownership mint has been requested and
    /// not yet answered.
    OwnershipRequested,
}

/// How far a pending resale has come: commission, then the seller's
/// remainder, then the ownership transfer.
#[derive(Clone, Copy, PartialEq, Eq, Structural, Debug)]
pub enum BuyStage {
    /// The commission transfer to the platform owner has been requested.
    CommissionRequested,
    /// The commission is confirmed; the remainder transfer to the seller has
    /// been requested. If this leg fails the commission is not reversed.
    RemainderRequested,
    /// Both transfers are confirmed; the ownership transfer has been
    /// requested.
    OwnershipRequested,
}

/// A mint waiting for an external reply; it holds the pending marker on its
/// rectangle.
#[derive(Debug)]
pub struct PendingMint {
    pub buyer: ActorId,
    pub rectangle: Rectangle,
    pub token_metadata: TokenMetadata,
    pub painting: Vec<Color>,
    pub stage: MintStage,
}

/// A resale waiting for an external reply; it holds the pending marker on
/// its token.
#[derive(Clone, Copy, PartialEq, Eq, Debug)]
pub struct PendingBuy {
    pub buyer: ActorId,
    pub token_id: TokenId,
    /// The owner at the time the resale began; owner changes on the token
    /// are blocked while the resale is pending.
    pub seller: ActorId,
    /// The part of the total routed to the platform owner.
    pub commission: u128,
    /// The part of the total routed to the seller.
    pub remainder: u128,
    pub stage: BuyStage,
}

/// Either kind of in-flight settlement.
#[derive(Debug)]
pub enum PendingKind {
    Mint(PendingMint),
    Buy(PendingBuy),
}

/// One in-flight settlement, under an operation identifier unique among the
/// pending operations.
#[derive(Debug)]
pub struct PendingOp {
    pub id: u64,
    pub kind: PendingKind,
}

/// A request the engine asks its caller to send to an external service.
/// Replies come back through the engine's reply entry points under the
/// operation identifier that produced the request.
#[derive(Debug)]
pub enum ExternalAction {
    /// Ask the payment ledger to move `amount` from `sender` to `recipient`.
    TransferFtokens {
        transaction_id: TransactionId,
        sender: ActorId,
        recipient: ActorId,
        amount: u128,
    },
    /// Ask the token registry to mint a token with the given metadata
    /// directly to `to`.
    MintNft {
        transaction_id: TransactionId,
        token_metadata: TokenMetadata,
        to: ActorId,
    },
    /// Ask the token registry to hand the token to `to`.
    TransferNft {
        transaction_id: TransactionId,
        token_id: TokenId,
        to: ActorId,
    },
}

/// The transaction identifier an action carries.
pub open spec fn action_transaction_id(action: ExternalAction) -> TransactionId {
    match action {
        ExternalAction::TransferFtokens { transaction_id, .. } => transaction_id,
        ExternalAction::MintNft { transaction_id, .. } => transaction_id,
        ExternalAction::TransferNft { transaction_id, .. } => transaction_id,
    }
}

/// No two pending operations share an identifier.
pub open spec fn unique_op_ids(pending: Seq<PendingOp>) -> bool {
    forall|i: int, j: int|
        0 <= i < j < pending.len() ==> (#[trigger] pending[i]).id != (#[trigger] pending[j]).id
}

/// Some pending operation carries the given identifier.
pub open spec fn has_op(pending: Seq<PendingOp>, id: u64) -> bool {
    exists|i: int| 0 <= i < pending.len() && (#[trigger] pending[i]).id == id
}

/// The position of the pending operation with the given identifier; under
/// [`unique_op_ids`] there is at most one.
pub open spec fn op_index(pending: Seq<PendingOp>, id: u64) -> int {
    choose|i: int| 0 <= i < pending.len() && (#[trigger] pending[i]).id == id
}

/// Some pending mint's rectangle overlaps `r`: `r` is under a pending
/// marker.
pub open spec fn mint_blocks(pending: Seq<PendingOp>, r: Rectangle) -> bool {
    exists|i: int|
        0 <= i < pending.len() && ((#[trigger] pending[i]).kind matches PendingKind::Mint(m)
            && m.rectangle.overlaps(r))
}

/// Some pending resale targets the given token: the token is under a
/// pending marker.
pub open spec fn buy_blocks(pending: Seq<PendingOp>, token_id: TokenId) -> bool {
    exists|i: int|
        0 <= i < pending.len() && ((#[trigger] pending[i]).kind matches PendingKind::Buy(b)
            && b.token_id == token_id)
}

/// With unique identifiers, any pending operation carrying `id` stands at
/// [`op_index`]: the identifier pins the operation.
pub proof fn lemma_op_index_unique(pending: Seq<PendingOp>, id: u64, i: int)
    requires
        unique_op_ids(pending),
        0 <= i < pending.len(),
        pending[i].id == id,
    ensures
        has_op(pending, id),
        op_index(pending, id) == i,
{
    assert(0 <= i < pending.len() && pending[i].id == id);
}

/// The position of the pending operation with the given identifier, if any.
pub fn find_op(pending: &Vec<PendingOp>, id: u64) -> (found: Option<usize>)
    ensures
        found matches Some(i) ==> 0 <= i < pending@.len() && pending@[i as int].id == id,
        found is None <==> !has_op(pending@, id),
{
    let n = pending.len();
    let mut i: usize = 0;
    while i < n
        invariant
            0 <= i <= n,
            n == pending@.len(),
            forall|j: int| 0 <= j < i ==> (#[trigger] pending@[j]).id != id,
        decreases n - i,
    {
        if pending[i].id == id {
            return Some(i);
        }
        i = i + 1;
    }
    None
}

/// Whether some pending mint's rectangle overlaps `r`.
pub fn any_mint_blocks(pending: &Vec<PendingOp>, r: &Rectangle) -> (blocked: bool)
    ensures
        blocked == mint_blocks(pending@, *r),
{
    let n = pending.len();
    let mut i: usize = 0;
    while i < n
        invariant
            0 <= i <= n,
            n == pending@.len(),
            forall|j: int|
                0 <= j < i ==> !((#[trigger] pending@[j]).kind matches PendingKind::Mint(m)
                    && m.rectangle.overlaps(*r)),
        decreases n - i,
    {
        match &pending[i].kind {
            PendingKind::Mint(m) => {
                if m.rectangle.intersects(r) {
                    return true;
                }
            },
            PendingKind::Buy(_) => {},
        }
        i = i + 1;
    }
    false
}

/// Whether some pending resale targets the given token.
pub fn any_buy_blocks(pending: &Vec<PendingOp>, token_id: TokenId) -> (blocked: bool)
    ensures
        blocked == buy_blocks(pending@, token_id),
{
    let n = pending.len();
    let mut i: usize = 0;
    while i < n
        invariant
            0 <= i <= n,
            n == pending@.len(),
            forall|j: int|
                0 <= j < i ==> !((#[trigger] pending@[j]).kind matches PendingKind::Buy(b)
                    && b.token_id == token_id),
        decreases n - i,
    {
        match &pending[i].kind {
            PendingKind::Buy(b) => {
                if b.token_id == token_id {
                    return true;
                }
            },
            PendingKind::Mint(_) => {},
        }
        i = i + 1;
    }
    false
}

} // verus!
