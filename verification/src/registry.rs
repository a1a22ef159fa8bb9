//! The territory registry: every minted token, keyed by its rectangle and
//! by its external token identifier.
//!
//! The registry doubles as the board's spatial index. Its well-formedness
//! carries the board's central guarantees: registered rectangles are
//! pairwise non-overlapping and valid on the canvas, token identifiers are
//! unique (so identifier and rectangle determine each other), and every
//! listed sale price respects the price bound. Territories are never
//! deleted; only the owner and the sale price of a record change after
//! minting.

use vstd::prelude::*;
use crate::error::NFTPixelboardError;
use crate::geometry::{Coordinates, Rectangle, Resolution};
use crate::pricing::MAX_PIXEL_PRICE;
use crate::token::{ActorId, Token, TokenId, TokenInfo};

verus! {

/// No two records share a token identifier.
pub open spec fn unique_token_ids(tokens: Seq<Token>) -> bool {
    forall|i: int, j: int|
        0 <= i < j < tokens.len() ==> (#[trigger] tokens[i]).1.token_id != (
        #[trigger] tokens[j]).1.token_id
}

/// No two registered rectangles share a pixel.
pub open spec fn pairwise_disjoint(tokens: Seq<Token>) -> bool {
    forall|i: int, j: int|
        0 <= i < j < tokens.len() ==> !(#[trigger] tokens[i]).0.overlaps(
            (#[trigger] tokens[j]).0,
        )
}

/// Well-formedness of a token sequence on a canvas of the given resolution.
pub open spec fn tokens_wf(tokens: Seq<Token>, resolution: Resolution) -> bool {
    &&& forall|i: int| 0 <= i < tokens.len() ==> (#[trigger] tokens[i]).0.valid_in(resolution)
    &&& forall|i: int|
        0 <= i < tokens.len() ==> ((#[trigger] tokens[i]).1.pixel_price matches Some(p) ==> p
            <= MAX_PIXEL_PRICE)
    &&& unique_token_ids(tokens)
    &&& pairwise_disjoint(tokens)
}

/// Some record carries the given token identifier.
pub open spec fn has_token(tokens: Seq<Token>, token_id: TokenId) -> bool {
    exists|i: int| 0 <= i < tokens.len() && (#[trigger] tokens[i]).1.token_id == token_id
}

/// The position of the record carrying the given token identifier; under
/// [`unique_token_ids`] there is at most one.
pub open spec fn token_index(tokens: Seq<Token>, token_id: TokenId) -> int {
    choose|i: int| 0 <= i < tokens.len() && (#[trigger] tokens[i]).1.token_id == token_id
}

/// Some registered rectangle overlaps `r`.
pub open spec fn overlaps_some(tokens: Seq<Token>, r: Rectangle) -> bool {
    exists|i: int| 0 <= i < tokens.len() && (#[trigger] tokens[i]).0.overlaps(r)
}

/// Some registered rectangle covers the pixel at `(x, y)`.
pub open spec fn covers_some(tokens: Seq<Token>, x: int, y: int) -> bool {
    exists|i: int| 0 <= i < tokens.len() && (#[trigger] tokens[i]).0.covers(x, y)
}

/// With unique identifiers, any record carrying `token_id` stands at
/// [`token_index`]: the identifier pins the record.
pub proof fn lemma_token_index_unique(tokens: Seq<Token>, token_id: TokenId, i: int)
    requires
        unique_token_ids(tokens),
        0 <= i < tokens.len(),
        tokens[i].1.token_id == token_id,
    ensures
        has_token(tokens, token_id),
        token_index(tokens, token_id) == i,
{
    assert(0 <= i < tokens.len() && tokens[i].1.token_id == token_id);
}

/// Appending a valid, fresh, non-overlapping record keeps the registry well
/// formed.
pub proof fn lemma_register_preserves_wf(tokens: Seq<Token>, token: Token, resolution: Resolution)
    requires
        tokens_wf(tokens, resolution),
        token.0.valid_in(resolution),
        token.1.pixel_price matches Some(p) ==> p <= MAX_PIXEL_PRICE,
        !has_token(tokens, token.1.token_id),
        !overlaps_some(tokens, token.0),
    ensures
        tokens_wf(tokens.push(token), resolution),
{
    let pushed = tokens.push(token);
    assert forall|i: int, j: int| 0 <= i < j < pushed.len() implies (#[trigger] pushed[i]).1.token_id
        != (#[trigger] pushed[j]).1.token_id by {
        if j == tokens.len() {
            assert(pushed[i] == tokens[i]);
        }
    }
    assert forall|i: int, j: int| 0 <= i < j < pushed.len() implies !(#[trigger] pushed[i]).0.overlaps(
        (#[trigger] pushed[j]).0,
    ) by {
        if j == tokens.len() {
            assert(pushed[i] == tokens[i]);
        }
    }
}

/// Replacing only the owner or sale price of one record keeps the registry
/// well formed, as long as the new price respects the bound.
pub proof fn lemma_update_record_preserves_wf(tokens: Seq<Token>, i: int, info: TokenInfo, resolution: Resolution)
    requires
        tokens_wf(tokens, resolution),
        0 <= i < tokens.len(),
        info.token_id == tokens[i].1.token_id,
        info.pixel_price matches Some(p) ==> p <= MAX_PIXEL_PRICE,
    ensures
        tokens_wf(tokens.update(i, Token(tokens[i].0, info)), resolution),
{
    let updated = tokens.update(i, Token(tokens[i].0, info));
    assert(forall|j: int| 0 <= j < updated.len() && j != i ==> updated[j] == tokens[j]);
    assert(updated[i].0 == tokens[i].0);
    assert(updated[i].1.token_id == tokens[i].1.token_id);
}

/// Registered territories are pairwise non-overlapping: any two distinct
/// records of a well-formed registry have disjoint rectangles. Every
/// accepted mint preserves well-formedness and every rejected one reports
/// `Overlap` exactly when its rectangle intersects a registered one, so
/// this holds after any run of operations.
pub proof fn lemma_registered_disjoint(tokens: Seq<Token>, resolution: Resolution, i: int, j: int)
    requires
        tokens_wf(tokens, resolution),
        0 <= i < tokens.len(),
        0 <= j < tokens.len(),
        i != j,
    ensures
        !tokens[i].0.overlaps(tokens[j].0),
{
    if j < i {
        crate::geometry::lemma_overlap_symmetric(tokens[i].0, tokens[j].0);
    }
}

/// Token identifier and rectangle determine each other: identifiers are
/// unique outright, and two records sharing a rectangle would overlap (a
/// territory has positive area, so it overlaps itself), which
/// well-formedness forbids. The registry is therefore a bijection between
/// identifiers and rectangles.
pub proof fn lemma_rectangle_determines_record(
    tokens: Seq<Token>,
    resolution: Resolution,
    i: int,
    j: int,
)
    requires
        tokens_wf(tokens, resolution),
        0 <= i < tokens.len(),
        0 <= j < tokens.len(),
        tokens[i].0 == tokens[j].0,
    ensures
        i == j,
{
    if i != j {
        lemma_registered_disjoint(tokens, resolution, i, j);
    }
}

/// A point query names at most one territory: with pairwise disjoint
/// rectangles, two records covering the same pixel are the same record, so
/// [`TerritoryRegistry::find_containing`] returns the unique covering
/// territory or none.
pub proof fn lemma_containing_unique(
    tokens: Seq<Token>,
    resolution: Resolution,
    x: int,
    y: int,
    i: int,
    j: int,
)
    requires
        tokens_wf(tokens, resolution),
        0 <= i < tokens.len(),
        0 <= j < tokens.len(),
        tokens[i].0.covers(x, y),
        tokens[j].0.covers(x, y),
    ensures
        i == j,
{
    if i != j {
        crate::geometry::lemma_shared_point_overlaps(tokens[i].0, tokens[j].0, x, y);
        lemma_registered_disjoint(tokens, resolution, i, j);
    }
}

/// The board's token store and spatial index in one structure.
pub struct TerritoryRegistry {
    pub tokens: Vec<Token>,
}

impl TerritoryRegistry {
    /// Well-formedness on a canvas of the given resolution.
    pub open spec fn wf(self, resolution: Resolution) -> bool {
        tokens_wf(self.tokens@, resolution)
    }

    /// An empty registry.
    pub fn new() -> (registry: TerritoryRegistry)
        ensures
            registry.tokens@ == Seq::<Token>::empty(),
    {
        TerritoryRegistry { tokens: Vec::new() }
    }

    /// The position of the record with the given token identifier, if any.
    pub fn find_index(&self, token_id: TokenId) -> (found: Option<usize>)
        ensures
            found matches Some(i) ==> 0 <= i < self.tokens@.len() && self.tokens@[
                i as int
            ].1.token_id == token_id,
            found is None <==> !has_token(self.tokens@, token_id),
    {
        let n = self.tokens.len();
        let mut i: usize = 0;
        while i < n
            invariant
                0 <= i <= n,
                n == self.tokens@.len(),
                forall|j: int| 0 <= j < i ==> (#[trigger] self.tokens@[j]).1.token_id != token_id,
            decreases n - i,
        {
            if self.tokens[i].1.token_id == token_id {
                return Some(i);
            }
            i = i + 1;
        }
        None
    }

    /// The position of some registered rectangle overlapping `r`, if any.
    pub fn find_overlap(&self, r: &Rectangle) -> (found: Option<usize>)
        ensures
            found matches Some(i) ==> 0 <= i < self.tokens@.len() && self.tokens@[
                i as int
            ].0.overlaps(*r),
            found is None <==> !overlaps_some(self.tokens@, *r),
    {
        let n = self.tokens.len();
        let mut i: usize = 0;
        while i < n
            invariant
                0 <= i <= n,
                n == self.tokens@.len(),
                forall|j: int| 0 <= j < i ==> !(#[trigger] self.tokens@[j]).0.overlaps(*r),
            decreases n - i,
        {
            if self.tokens[i].0.intersects(r) {
                return Some(i);
            }
            i = i + 1;
        }
        None
    }

    /// The position of the record whose rectangle covers `point`, if any;
    /// with pairwise disjoint rectangles it is unique.
    pub fn find_containing(&self, point: &Coordinates) -> (found: Option<usize>)
        ensures
            found matches Some(i) ==> 0 <= i < self.tokens@.len() && self.tokens@[
                i as int
            ].0.covers(point.x as int, point.y as int),
            found is None <==> !covers_some(self.tokens@, point.x as int, point.y as int),
    {
        let n = self.tokens.len();
        let mut i: usize = 0;
        while i < n
            invariant
                0 <= i <= n,
                n == self.tokens@.len(),
                forall|j: int|
                    0 <= j < i ==> !(#[trigger] self.tokens@[j]).0.covers(
                        point.x as int,
                        point.y as int,
                    ),
            decreases n - i,
        {
            if self.tokens[i].0.contains_point(point) {
                return Some(i);
            }
            i = i + 1;
        }
        None
    }

    /// The record with the given token identifier, if any.
    pub fn get_by_token_id(&self, token_id: TokenId) -> (found: Option<Token>)
        requires
            unique_token_ids(self.tokens@),
        ensures
            found is Some <==> has_token(self.tokens@, token_id),
            found matches Some(t) ==> t == self.tokens@[token_index(self.tokens@, token_id)],
    {
        match self.find_index(token_id) {
            Some(i) => {
                proof {
                    lemma_token_index_unique(self.tokens@, token_id, i as int);
                }
                Some(self.tokens[i])
            },
            None => None,
        }
    }

    /// The record registered under exactly the rectangle `r`, if any.
    pub fn get_by_rectangle(&self, r: &Rectangle) -> (found: Option<Token>)
        ensures
            found matches Some(t) ==> exists|i: int|
                0 <= i < self.tokens@.len() && (#[trigger] self.tokens@[i]) == t && t.0 == *r,
            found is None <==> !exists|i: int|
                0 <= i < self.tokens@.len() && (#[trigger] self.tokens@[i]).0 == *r,
    {
        let n = self.tokens.len();
        let mut i: usize = 0;
        while i < n
            invariant
                0 <= i <= n,
                n == self.tokens@.len(),
                forall|j: int| 0 <= j < i ==> (#[trigger] self.tokens@[j]).0 != *r,
            decreases n - i,
        {
            let candidate = &self.tokens[i].0;
            if candidate.top_left_corner.x == r.top_left_corner.x
                && candidate.top_left_corner.y == r.top_left_corner.y
                && candidate.bottom_right_corner.x == r.bottom_right_corner.x
                && candidate.bottom_right_corner.y == r.bottom_right_corner.y {
                return Some(self.tokens[i]);
            }
            i = i + 1;
        }
        None
    }

    /// Registers a freshly minted token. Fails with `Overlap`, changing
    /// nothing, if and only if the token's rectangle intersects a
    /// registered one.
    pub fn register(&mut self, token: Token) -> (result: Result<(), NFTPixelboardError>)
        ensures
            result is Err <==> overlaps_some(old(self).tokens@, token.0),
            result is Err ==> result->Err_0 == NFTPixelboardError::Overlap && final(self).tokens@
                == old(self).tokens@,
            result is Ok ==> final(self).tokens@ == old(self).tokens@.push(token),
    {
        match self.find_overlap(&token.0) {
            Some(_) => Err(NFTPixelboardError::Overlap),
            None => {
                self.tokens.push(token);
                Ok(())
            },
        }
    }

    /// Sets or clears the sale price of the record with the given token
    /// identifier. Fails with `NotFound`, changing nothing, if and only if
    /// no record carries the identifier.
    pub fn set_sale_price(&mut self, token_id: TokenId, pixel_price: Option<u128>) -> (result: Result<
        (),
        NFTPixelboardError,
    >)
        requires
            unique_token_ids(old(self).tokens@),
        ensures
            result is Err <==> !has_token(old(self).tokens@, token_id),
            result is Err ==> result->Err_0 == NFTPixelboardError::NotFound && final(self).tokens@
                == old(self).tokens@,
            result is Ok ==> ({
                let i = token_index(old(self).tokens@, token_id);
                let t = old(self).tokens@[i];
                final(self).tokens@ == old(self).tokens@.update(
                    i,
                    Token(t.0, TokenInfo { pixel_price, ..t.1 }),
                )
            }),
    {
        match self.find_index(token_id) {
            Some(i) => {
                proof {
                    lemma_token_index_unique(self.tokens@, token_id, i as int);
                }
                let t = self.tokens[i];
                self.tokens[i] = Token(t.0, TokenInfo { pixel_price, ..t.1 });
                Ok(())
            },
            None => Err(NFTPixelboardError::NotFound),
        }
    }

    /// Hands the record with the given token identifier to a new owner.
    /// Fails with `NotFound`, changing nothing, if and only if no record
    /// carries the identifier.
    pub fn transfer_owner(&mut self, token_id: TokenId, new_owner: ActorId) -> (result: Result<
        (),
        NFTPixelboardError,
    >)
        requires
            unique_token_ids(old(self).tokens@),
        ensures
            result is Err <==> !has_token(old(self).tokens@, token_id),
            result is Err ==> result->Err_0 == NFTPixelboardError::NotFound && final(self).tokens@
                == old(self).tokens@,
            result is Ok ==> ({
                let i = token_index(old(self).tokens@, token_id);
                let t = old(self).tokens@[i];
                final(self).tokens@ == old(self).tokens@.update(
                    i,
                    Token(t.0, TokenInfo { owner: new_owner, ..t.1 }),
                )
            }),
    {
        match self.find_index(token_id) {
            Some(i) => {
                proof {
                    lemma_token_index_unique(self.tokens@, token_id, i as int);
                }
                let t = self.tokens[i];
                self.tokens[i] = Token(t.0, TokenInfo { owner: new_owner, ..t.1 });
                Ok(())
            },
            None => Err(NFTPixelboardError::NotFound),
        }
    }
}

} // verus!
