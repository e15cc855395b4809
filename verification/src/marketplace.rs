//! The slot registry: listing of ad slots, fixed-price purchase, auction
//! bidding with a deadline, permissionless auction close, owner deactivation,
//! and the creative (`Ad`) registry.

use vstd::prelude::*;

use crate::account::AccountId;

verus! {

/// One advertising inventory unit.
pub struct AdSlot {
    pub owner: AccountId,
    pub slot_id: String,
    pub price: u64,
    pub duration: u64,
    pub is_auction: bool,
    pub auction_end: i64,
    pub highest_bid: u64,
    pub highest_bidder: AccountId,
    pub is_active: bool,
    pub view_count: u64,
    pub category: String,
    pub audience_size: u64,
}

/// A creative bound to a slot; immutable once created.
pub struct Ad {
    pub owner: AccountId,
    pub ad_id: String,
    pub media_cid: String,
    pub slot_key: AccountId,
}

/// Why a slot-registry operation was rejected. Every rejection aborts the
/// whole operation: the slot is left exactly as it was.
#[derive(Clone, Copy, PartialEq, Eq, Structural, Debug)]
pub enum ErrorCode {
    InvalidPurchaseType,
    SlotNotActive,
    BidTooLow,
    AuctionEnded,
    AuctionNotEnded,
    Unauthorized,
}

/// Notification that a slot was listed.
pub struct SlotCreated {
    pub slot_id: String,
    pub owner: AccountId,
}

/// Notification that a creative was registered.
pub struct AdCreated {
    pub ad_id: String,
    pub owner: AccountId,
}

/// Notification that a fixed-price slot was bought.
pub struct SlotPurchased {
    pub slot_id: String,
    pub buyer: AccountId,
}

/// Notification that a bid was recorded as the new highest bid.
pub struct BidPlaced {
    pub slot_id: String,
    pub bidder: AccountId,
    pub amount: u64,
}

/// Notification that an auction was finalized; `winner` may still be the
/// no-bid sentinel when the auction expired without a bid.
pub struct AuctionClosed {
    pub slot_id: String,
    pub winner: AccountId,
}

/// Well-formedness of a slot: a fixed-price slot carries no deadline.
pub open spec fn slot_wf(s: AdSlot) -> bool {
    !s.is_auction ==> s.auction_end == 0
}

/// A fixed-price purchase is allowed on an active, non-auction slot.
pub open spec fn buy_fixed_price_allowed(s: AdSlot) -> bool {
    !s.is_auction && s.is_active
}

/// The slot after a fixed-price purchase by `buyer`.
pub open spec fn bought(pre: AdSlot, buyer: AccountId) -> AdSlot {
    AdSlot { is_active: false, highest_bidder: buyer, ..pre }
}

/// A bid of `amount` at time `now` is allowed on an active auction slot
/// strictly before its deadline, and must strictly exceed the standing bid
/// (equal bids are rejected, so ties cannot arise).
pub open spec fn place_bid_allowed(s: AdSlot, amount: u64, now: i64) -> bool {
    s.is_auction && s.is_active && now < s.auction_end && amount > s.highest_bid
}

/// The slot after `bidder`'s bid of `amount` is recorded.
pub open spec fn bid_recorded(pre: AdSlot, bidder: AccountId, amount: u64) -> AdSlot {
    AdSlot { highest_bid: amount, highest_bidder: bidder, ..pre }
}

/// An auction may be closed by anyone once its deadline has passed; closing an
/// already-inactive auction again is allowed and changes nothing further.
pub open spec fn close_auction_allowed(s: AdSlot, now: i64) -> bool {
    s.is_auction && now >= s.auction_end
}

/// The slot once its lifecycle has concluded.
pub open spec fn closed(pre: AdSlot) -> AdSlot {
    AdSlot { is_active: false, ..pre }
}

/// Only the owner may deactivate, and only while the slot is active.
pub open spec fn deactivate_allowed(s: AdSlot, caller: AccountId) -> bool {
    s.is_active && caller == s.owner
}

/// The slot after one more view; the counter saturates instead of wrapping.
pub open spec fn viewed(pre: AdSlot) -> AdSlot {
    AdSlot {
        view_count: if pre.view_count == u64::MAX { u64::MAX } else { (pre.view_count + 1) as u64 },
        ..pre
    }
}

/// A successful bid, abstracted over who bid and when: the standing bid
/// strictly rises and nothing else changes.
pub open spec fn bid_step(pre: AdSlot, post: AdSlot) -> bool {
    &&& pre.is_auction
    &&& pre.is_active
    &&& post.highest_bid > pre.highest_bid
    &&& post == bid_recorded(pre, post.highest_bidder, post.highest_bid)
}

/// Everything one slot-registry operation can do to a slot, abstracted over
/// caller and time: either a rejected operation (no change) or one of the five
/// mutations.
pub open spec fn slot_step(pre: AdSlot, post: AdSlot) -> bool {
    ||| post == pre
    ||| (buy_fixed_price_allowed(pre) && post == bought(pre, post.highest_bidder))
    ||| bid_step(pre, post)
    ||| (pre.is_auction && post == closed(pre))
    ||| (pre.is_active && post == closed(pre))
    ||| post == viewed(pre)
}

/// Lists a new slot for `owner`. A fixed-price slot gets no deadline and its
/// owner as the "no real bid yet" sentinel bidder; an auction slot starts with
/// no bid and the all-zero sentinel bidder.
///
/// Deliberately not checked here: that an auction's deadline lies in the
/// future. A listing whose deadline has already passed simply accepts no bids
/// and can be closed at once; screening such listings is left to the caller.
pub fn create_ad_slot(
    owner: AccountId,
    slot_id: String,
    price: u64,
    duration: u64,
    is_auction: bool,
    auction_end: i64,
    category: String,
    audience_size: u64,
) -> (r: (AdSlot, SlotCreated))
    ensures
        r.0.owner == owner,
        r.0.slot_id@ == slot_id@,
        r.0.price == price,
        r.0.duration == duration,
        r.0.is_auction == is_auction,
        r.0.auction_end == (if is_auction { auction_end } else { 0 }),
        r.0.highest_bid == 0,
        r.0.highest_bidder == (if is_auction { AccountId { value: 0 } } else { owner }),
        r.0.is_active,
        r.0.view_count == 0,
        r.0.category@ == category@,
        r.0.audience_size == audience_size,
        slot_wf(r.0),
        r.1.slot_id@ == slot_id@,
        r.1.owner == owner,
{
    let event = SlotCreated { slot_id: slot_id.clone(), owner };
    let slot = AdSlot {
        owner,
        slot_id,
        price,
        duration,
        is_auction,
        auction_end: if is_auction { auction_end } else { 0 },
        highest_bid: 0,
        highest_bidder: if is_auction { AccountId::default() } else { owner },
        is_active: true,
        view_count: 0,
        category,
        audience_size,
    };
    (slot, event)
}

/// Registers a creative for `owner` against the slot stored under `slot_key`.
pub fn create_ad(
    owner: AccountId,
    ad_id: String,
    media_cid: String,
    slot_key: AccountId,
) -> (r: (Ad, AdCreated))
    ensures
        r.0.owner == owner,
        r.0.ad_id@ == ad_id@,
        r.0.media_cid@ == media_cid@,
        r.0.slot_key == slot_key,
        r.1.ad_id@ == ad_id@,
        r.1.owner == owner,
{
    let event = AdCreated { ad_id: ad_id.clone(), owner };
    let ad = Ad { owner, ad_id, media_cid, slot_key };
    (ad, event)
}

/// Buys a fixed-price slot outright for `buyer`, ending its lifecycle.
pub fn buy_fixed_price(slot: &mut AdSlot, buyer: AccountId) -> (r: Result<
    SlotPurchased,
    ErrorCode,
>)
    ensures
        r is Ok <==> buy_fixed_price_allowed(*old(slot)),
        r is Ok ==> *final(slot) == bought(*old(slot), buyer),
        r matches Ok(ev) ==> ev.slot_id@ == old(slot).slot_id@ && ev.buyer == buyer,
        old(slot).is_auction ==> r == Err::<SlotPurchased, ErrorCode>(
            ErrorCode::InvalidPurchaseType,
        ),
        !old(slot).is_auction && !old(slot).is_active ==> r == Err::<SlotPurchased, ErrorCode>(
            ErrorCode::SlotNotActive,
        ),
        r is Err ==> *final(slot) == *old(slot),
        slot_step(*old(slot), *final(slot)),
        slot_wf(*old(slot)) ==> slot_wf(*final(slot)),
{
    if slot.is_auction {
        return Err(ErrorCode::InvalidPurchaseType);
    }
    if !slot.is_active {
        return Err(ErrorCode::SlotNotActive);
    }
    slot.is_active = false;
    slot.highest_bidder = buyer;
    Ok(SlotPurchased { slot_id: slot.slot_id.clone(), buyer })
}

/// Records `bidder`'s bid of `bid_amount` at time `now` as the new highest
/// bid of an open auction.
pub fn place_bid(slot: &mut AdSlot, bidder: AccountId, bid_amount: u64, now: i64) -> (r: Result<
    BidPlaced,
    ErrorCode,
>)
    ensures
        r is Ok <==> place_bid_allowed(*old(slot), bid_amount, now),
        r is Ok ==> *final(slot) == bid_recorded(*old(slot), bidder, bid_amount),
        r is Ok ==> bid_step(*old(slot), *final(slot)),
        r matches Ok(ev) ==> ev.slot_id@ == old(slot).slot_id@ && ev.bidder == bidder && ev.amount
            == bid_amount,
        r is Err ==> *final(slot) == *old(slot) && r == Err::<BidPlaced, ErrorCode>(
            place_bid_error(*old(slot), bid_amount, now),
        ),
        slot_step(*old(slot), *final(slot)),
        slot_wf(*old(slot)) ==> slot_wf(*final(slot)),
{
    if !slot.is_auction {
        return Err(ErrorCode::InvalidPurchaseType);
    }
    if !slot.is_active {
        return Err(ErrorCode::SlotNotActive);
    }
    if now >= slot.auction_end {
        return Err(ErrorCode::AuctionEnded);
    }
    if bid_amount <= slot.highest_bid {
        return Err(ErrorCode::BidTooLow);
    }
    slot.highest_bid = bid_amount;
    slot.highest_bidder = bidder;
    Ok(BidPlaced { slot_id: slot.slot_id.clone(), bidder, amount: bid_amount })
}

/// The rejection a bid receives, by the first precondition it misses.
pub open spec fn place_bid_error(s: AdSlot, amount: u64, now: i64) -> ErrorCode {
    if !s.is_auction {
        ErrorCode::InvalidPurchaseType
    } else if !s.is_active {
        ErrorCode::SlotNotActive
    } else if now >= s.auction_end {
        ErrorCode::AuctionEnded
    } else {
        ErrorCode::BidTooLow
    }
}

/// Finalizes an auction whose deadline has passed; callable by anyone, so an
/// unresponsive owner cannot hold the outcome hostage. The standing highest
/// bidder becomes the settled winner.
pub fn close_auction(slot: &mut AdSlot, now: i64) -> (r: Result<AuctionClosed, ErrorCode>)
    ensures
        r is Ok <==> close_auction_allowed(*old(slot), now),
        r is Ok ==> *final(slot) == closed(*old(slot)),
        r matches Ok(ev) ==> ev.slot_id@ == old(slot).slot_id@ && ev.winner == old(
            slot,
        ).highest_bidder,
        !old(slot).is_auction ==> r == Err::<AuctionClosed, ErrorCode>(
            ErrorCode::InvalidPurchaseType,
        ),
        old(slot).is_auction && now < old(slot).auction_end ==> r == Err::<
            AuctionClosed,
            ErrorCode,
        >(ErrorCode::AuctionNotEnded),
        r is Err ==> *final(slot) == *old(slot),
        slot_step(*old(slot), *final(slot)),
        slot_wf(*old(slot)) ==> slot_wf(*final(slot)),
{
    if !slot.is_auction {
        return Err(ErrorCode::InvalidPurchaseType);
    }
    if now < slot.auction_end {
        return Err(ErrorCode::AuctionNotEnded);
    }
    slot.is_active = false;
    Ok(AuctionClosed { slot_id: slot.slot_id.clone(), winner: slot.highest_bidder })
}

/// Takes an active slot off the market; only its owner may.
pub fn deactivate_slot(slot: &mut AdSlot, caller: AccountId) -> (r: Result<(), ErrorCode>)
    ensures
        r is Ok <==> deactivate_allowed(*old(slot), caller),
        r is Ok ==> *final(slot) == closed(*old(slot)),
        !old(slot).is_active ==> r == Err::<(), ErrorCode>(ErrorCode::SlotNotActive),
        old(slot).is_active && caller != old(slot).owner ==> r == Err::<(), ErrorCode>(
            ErrorCode::Unauthorized,
        ),
        r is Err ==> *final(slot) == *old(slot),
        slot_step(*old(slot), *final(slot)),
        slot_wf(*old(slot)) ==> slot_wf(*final(slot)),
{
    if !slot.is_active {
        return Err(ErrorCode::SlotNotActive);
    }
    if !(caller == slot.owner) {
        return Err(ErrorCode::Unauthorized);
    }
    slot.is_active = false;
    Ok(())
}

/// Counts one more view. Deliberately unauthenticated (an informational
/// counter), and saturating instead of wrapping at the top of the range.
pub fn increment_view(slot: &mut AdSlot)
    ensures
        *final(slot) == viewed(*old(slot)),
        slot_step(*old(slot), *final(slot)),
        slot_wf(*old(slot)) ==> slot_wf(*final(slot)),
{
    if slot.view_count < u64::MAX {
        slot.view_count = slot.view_count + 1;
    }
}

/// One step cannot revive a slot: every operation either leaves the slot as
/// it is or moves it toward (or keeps it in) the inactive state.
pub proof fn lemma_slot_step_preserves_inactive(pre: AdSlot, post: AdSlot)
    requires
        slot_step(pre, post),
        !pre.is_active,
    ensures
        !post.is_active,
{
}

/// Terminal lifecycle law: along any run of slot-registry operations, once a
/// slot is inactive it is inactive ever after; no operation can set
/// `is_active` back to true.
pub proof fn lemma_terminal_lifecycle(tr: Seq<AdSlot>, i: int, j: int)
    requires
        forall|k: int| 0 <= k < tr.len() - 1 ==> #[trigger] slot_step(tr[k], tr[k + 1]),
        0 <= i <= j < tr.len(),
        !tr[i].is_active,
    ensures
        !tr[j].is_active,
    decreases j - i,
{
    if i < j {
        lemma_terminal_lifecycle(tr, i, j - 1);
        assert(slot_step(tr[j - 1], tr[(j - 1) + 1]));
        lemma_slot_step_preserves_inactive(tr[j - 1], tr[j]);
    }
}

/// A successful bid strictly raises the standing bid.
pub proof fn lemma_bid_step_increases(pre: AdSlot, post: AdSlot)
    requires
        bid_step(pre, post),
    ensures
        post.highest_bid > pre.highest_bid,
{
}

/// Monotonic bidding law: along any run of successful bids on one slot, the
/// recorded highest bids are strictly increasing.
pub proof fn lemma_monotonic_bidding(tr: Seq<AdSlot>, i: int, j: int)
    requires
        forall|k: int| 0 <= k < tr.len() - 1 ==> #[trigger] bid_step(tr[k], tr[k + 1]),
        0 <= i < j < tr.len(),
    ensures
        tr[i].highest_bid < tr[j].highest_bid,
    decreases j - i,
{
    if i + 1 < j {
        lemma_monotonic_bidding(tr, i, j - 1);
    }
    assert(bid_step(tr[j - 1], tr[(j - 1) + 1]));
}

} // verus!
