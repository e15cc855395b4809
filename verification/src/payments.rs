//! The escrow vault and settlement coordinator: an advertiser funds an escrow
//! tied to one slot, and exactly one of release-to-publisher or
//! refund-to-advertiser later moves the money, authorized by role and gated on
//! the slot's lifecycle.
//!
//! Policy choices where two internally consistent variants exist: release may
//! be triggered by the publisher or by the advertiser (symmetric release
//! rights), while refund is the advertiser's alone; and refund does not wait
//! for the slot to become inactive, while release does.

use vstd::prelude::*;

use crate::account::AccountId;
use crate::account::LedgerAccount;
pub use crate::marketplace::AdSlot;

verus! {

/// Custody of an advertiser's funds for one advertiser-slot pairing.
///
/// `custody` is the balance of the ledger account that holds the record: in
/// the substrate, the record and the funds backing it live in one account, so
/// the held funds travel with the record here. `publisher` is the slot's owner
/// as captured at funding time: a later change of slot ownership must not
/// redirect the money.
pub struct Escrow {
    pub amount: u64,
    pub advertiser: AccountId,
    pub publisher: AccountId,
    pub is_released: bool,
    pub custody: u64,
}

/// Why a payments operation was rejected. Every rejection aborts the whole
/// operation: the escrow and every account involved are left exactly as they
/// were.
#[derive(Clone, Copy, PartialEq, Eq, Structural, Debug)]
pub enum ErrorCode {
    InvalidEscrow,
    SlotActive,
    InvalidAmount,
    EscrowAlreadyReleased,
    InsufficientFunds,
    Unauthorized,
}

/// Notification that an escrow was funded.
pub struct EscrowCreated {
    pub escrow_key: AccountId,
    pub advertiser: AccountId,
    pub publisher: AccountId,
    pub amount: u64,
}

/// Notification that an escrow's funds went to the publisher.
#[derive(Clone, Copy, PartialEq, Eq, Structural, Debug)]
pub struct EscrowReleased {
    pub escrow_key: AccountId,
    pub publisher: AccountId,
    pub amount: u64,
}

/// Notification that an escrow's funds went back to the advertiser.
#[derive(Clone, Copy, PartialEq, Eq, Structural, Debug)]
pub struct EscrowRefunded {
    pub escrow_key: AccountId,
    pub advertiser: AccountId,
    pub amount: u64,
}

/// Well-formedness of an escrow: funds are held until settlement, the
/// recorded amount is positive exactly while a settlement is still owed, and a
/// settled escrow records nothing left to move.
pub open spec fn escrow_wf(e: Escrow) -> bool {
    &&& e.custody >= e.amount
    &&& (!e.is_released ==> e.amount > 0)
    &&& (e.is_released ==> e.amount == 0)
}

/// Funding is allowed for a positive amount the advertiser can cover.
pub open spec fn fund_allowed(advertiser: LedgerAccount, amount: u64) -> bool {
    amount > 0 && advertiser.lamports >= amount
}

/// The escrow a funding call creates.
pub open spec fn funded(advertiser: AccountId, publisher: AccountId, amount: u64) -> Escrow {
    Escrow { amount, advertiser, publisher, is_released: false, custody: amount }
}

/// The rejection a funding call receives, by the first precondition it
/// misses.
pub open spec fn fund_error(advertiser: LedgerAccount, amount: u64) -> ErrorCode {
    if amount == 0 {
        ErrorCode::InvalidAmount
    } else {
        ErrorCode::InsufficientFunds
    }
}

/// Release is allowed when the accounts are wired to the record (the paid
/// account is the recorded publisher, who still owns the slot), the caller is
/// the publisher or the advertiser, a settlement is still owed, the slot's
/// lifecycle has concluded, and custody covers the recorded amount.
pub open spec fn release_allowed(
    e: Escrow,
    slot: AdSlot,
    publisher_key: AccountId,
    authority: AccountId,
) -> bool {
    &&& publisher_key == e.publisher
    &&& !e.is_released
    &&& slot.owner == e.publisher
    &&& (authority == e.publisher || authority == e.advertiser)
    &&& e.amount > 0
    &&& !slot.is_active
    &&& e.custody >= e.amount
}

/// Refund is allowed under the same wiring and custody conditions, but only
/// for the advertiser, and without waiting for the slot to go inactive.
pub open spec fn refund_allowed(
    e: Escrow,
    slot: AdSlot,
    advertiser_key: AccountId,
    authority: AccountId,
) -> bool {
    &&& advertiser_key == e.advertiser
    &&& !e.is_released
    &&& slot.owner == e.publisher
    &&& authority == e.advertiser
    &&& e.amount > 0
    &&& e.custody >= e.amount
}

/// The escrow record after its single settlement: the latch is set, nothing
/// is owed, and the moved amount has left custody.
pub open spec fn settled(pre: Escrow) -> Escrow {
    Escrow {
        amount: 0,
        is_released: true,
        custody: (pre.custody - pre.amount) as u64,
        ..pre
    }
}

/// The rejection a release receives, by the first check it fails: the account
/// wiring and the caller's role are checked before the record's state, as the
/// substrate validates accounts before the operation body runs.
pub open spec fn release_error(
    e: Escrow,
    slot: AdSlot,
    publisher_key: AccountId,
    authority: AccountId,
) -> ErrorCode {
    if publisher_key != e.publisher {
        ErrorCode::Unauthorized
    } else if e.is_released {
        ErrorCode::EscrowAlreadyReleased
    } else if slot.owner != e.publisher {
        ErrorCode::Unauthorized
    } else if authority != e.publisher && authority != e.advertiser {
        ErrorCode::Unauthorized
    } else if e.amount == 0 {
        ErrorCode::InvalidEscrow
    } else if slot.is_active {
        ErrorCode::SlotActive
    } else {
        ErrorCode::InsufficientFunds
    }
}

/// The rejection a refund receives, by the first check it fails.
pub open spec fn refund_error(
    e: Escrow,
    slot: AdSlot,
    advertiser_key: AccountId,
    authority: AccountId,
) -> ErrorCode {
    if advertiser_key != e.advertiser {
        ErrorCode::Unauthorized
    } else if e.is_released {
        ErrorCode::EscrowAlreadyReleased
    } else if slot.owner != e.publisher {
        ErrorCode::Unauthorized
    } else if authority != e.advertiser {
        ErrorCode::Unauthorized
    } else if e.amount == 0 {
        ErrorCode::InvalidEscrow
    } else {
        ErrorCode::InsufficientFunds
    }
}

/// Funds a new escrow: moves `amount` from the advertiser's account into the
/// new record's custody and captures the slot's owner as the publisher to be
/// paid. The record's storage key, `escrow_key`, is chosen by the substrate
/// deterministically from the (advertiser, slot) pair — at most one escrow
/// per pair — and is echoed in the notification.
pub fn escrow_payment(
    advertiser: &mut LedgerAccount,
    slot: &AdSlot,
    amount: u64,
    escrow_key: AccountId,
) -> (r: Result<(Escrow, EscrowCreated), ErrorCode>)
    ensures
        r is Ok <==> fund_allowed(*old(advertiser), amount),
        r matches Ok(p) ==> {
            &&& p.0 == funded(old(advertiser).key, slot.owner, amount)
            &&& escrow_wf(p.0)
            &&& p.1 == (EscrowCreated {
                escrow_key,
                advertiser: old(advertiser).key,
                publisher: slot.owner,
                amount,
            })
        },
        r is Ok ==> final(advertiser).key == old(advertiser).key && final(advertiser).lamports
            == old(advertiser).lamports - amount,
        r is Err ==> *final(advertiser) == *old(advertiser) && r == Err::<
            (Escrow, EscrowCreated),
            ErrorCode,
        >(fund_error(*old(advertiser), amount)),
{
    if amount == 0 {
        return Err(ErrorCode::InvalidAmount);
    }
    if advertiser.lamports < amount {
        return Err(ErrorCode::InsufficientFunds);
    }
    advertiser.lamports = advertiser.lamports - amount;
    let escrow = Escrow {
        amount,
        advertiser: advertiser.key,
        publisher: slot.owner,
        is_released: false,
        custody: amount,
    };
    let event = EscrowCreated {
        escrow_key,
        advertiser: advertiser.key,
        publisher: slot.owner,
        amount,
    };
    Ok((escrow, event))
}

/// Pays the escrowed amount to the publisher, exactly once. Allowed to the
/// publisher or to the advertiser, and only after the slot's lifecycle has
/// concluded — no release while the inventory is still being sold or bid on.
///
/// The move of funds and the latch flip happen in one call with no
/// intermediate state observable; on any rejection nothing changes.
pub fn release_escrow(
    escrow: &mut Escrow,
    publisher: &mut LedgerAccount,
    slot: &AdSlot,
    authority: AccountId,
    escrow_key: AccountId,
) -> (r: Result<EscrowReleased, ErrorCode>)
    requires
        old(publisher).lamports + old(escrow).amount <= u64::MAX,
    ensures
        r is Ok <==> release_allowed(*old(escrow), *slot, old(publisher).key, authority),
        r is Ok ==> *final(escrow) == settled(*old(escrow)) && escrow_wf(*final(escrow)),
        r is Ok ==> final(publisher).key == old(publisher).key && final(publisher).lamports == old(
            publisher,
        ).lamports + old(escrow).amount,
        r is Ok ==> final(escrow).custody + final(publisher).lamports == old(escrow).custody + old(
            publisher,
        ).lamports,
        r matches Ok(ev) ==> ev == (EscrowReleased {
            escrow_key,
            publisher: old(publisher).key,
            amount: old(escrow).amount,
        }),
        r is Err ==> *final(escrow) == *old(escrow) && *final(publisher) == *old(publisher) && r
            == Err::<EscrowReleased, ErrorCode>(
            release_error(*old(escrow), *slot, old(publisher).key, authority),
        ),
{
    if !(publisher.key == escrow.publisher) {
        return Err(ErrorCode::Unauthorized);
    }
    if escrow.is_released {
        return Err(ErrorCode::EscrowAlreadyReleased);
    }
    if !(slot.owner == escrow.publisher) {
        return Err(ErrorCode::Unauthorized);
    }
    if !(authority == publisher.key) && !(authority == escrow.advertiser) {
        return Err(ErrorCode::Unauthorized);
    }
    if escrow.amount == 0 {
        return Err(ErrorCode::InvalidEscrow);
    }
    if slot.is_active {
        return Err(ErrorCode::SlotActive);
    }
    if escrow.custody < escrow.amount {
        return Err(ErrorCode::InsufficientFunds);
    }
    let release_amount = escrow.amount;
    escrow.custody = escrow.custody - release_amount;
    publisher.lamports = publisher.lamports + release_amount;
    escrow.is_released = true;
    escrow.amount = 0;
    Ok(EscrowReleased { escrow_key, publisher: publisher.key, amount: release_amount })
}

/// Returns the escrowed amount to the advertiser, exactly once. Refund is not
/// symmetric: only the funder may reclaim. It does not wait for the slot to
/// go inactive.
pub fn refund_escrow(
    escrow: &mut Escrow,
    advertiser: &mut LedgerAccount,
    slot: &AdSlot,
    authority: AccountId,
    escrow_key: AccountId,
) -> (r: Result<EscrowRefunded, ErrorCode>)
    requires
        old(advertiser).lamports + old(escrow).amount <= u64::MAX,
    ensures
        r is Ok <==> refund_allowed(*old(escrow), *slot, old(advertiser).key, authority),
        r is Ok ==> *final(escrow) == settled(*old(escrow)) && escrow_wf(*final(escrow)),
        r is Ok ==> final(advertiser).key == old(advertiser).key && final(advertiser).lamports
            == old(advertiser).lamports + old(escrow).amount,
        r is Ok ==> final(escrow).custody + final(advertiser).lamports == old(escrow).custody
            + old(advertiser).lamports,
        r matches Ok(ev) ==> ev == (EscrowRefunded {
            escrow_key,
            advertiser: old(advertiser).key,
            amount: old(escrow).amount,
        }),
        r is Err ==> *final(escrow) == *old(escrow) && *final(advertiser) == *old(advertiser) && r
            == Err::<EscrowRefunded, ErrorCode>(
            refund_error(*old(escrow), *slot, old(advertiser).key, authority),
        ),
{
    if !(advertiser.key == escrow.advertiser) {
        return Err(ErrorCode::Unauthorized);
    }
    if escrow.is_released {
        return Err(ErrorCode::EscrowAlreadyReleased);
    }
    if !(slot.owner == escrow.publisher) {
        return Err(ErrorCode::Unauthorized);
    }
    if !(authority == escrow.advertiser) {
        return Err(ErrorCode::Unauthorized);
    }
    if escrow.amount == 0 {
        return Err(ErrorCode::InvalidEscrow);
    }
    if escrow.custody < escrow.amount {
        return Err(ErrorCode::InsufficientFunds);
    }
    let refund_amount = escrow.amount;
    escrow.custody = escrow.custody - refund_amount;
    advertiser.lamports = advertiser.lamports + refund_amount;
    escrow.is_released = true;
    escrow.amount = 0;
    Ok(EscrowRefunded { escrow_key, advertiser: advertiser.key, amount: refund_amount })
}

/// A settled escrow is terminal: no release and no refund is allowed on it
/// again, whoever calls and whatever the slot looks like; repeat calls are
/// rejected, never silently absorbed.
pub proof fn lemma_settled_is_terminal(e: Escrow)
    requires
        e.is_released,
    ensures
        forall|slot: AdSlot, pk: AccountId, auth: AccountId| !release_allowed(e, slot, pk, auth),
        forall|slot: AdSlot, ak: AccountId, auth: AccountId| !refund_allowed(e, slot, ak, auth),
{
}

/// Authorization gating law: a refund is never allowed to a caller other than
/// the escrow's advertiser.
pub proof fn lemma_refund_requires_advertiser(
    e: Escrow,
    slot: AdSlot,
    advertiser_key: AccountId,
    authority: AccountId,
)
    requires
        authority != e.advertiser,
    ensures
        !refund_allowed(e, slot, advertiser_key, authority),
{
}

/// A snapshot of everything one settlement can touch: the escrow record (with
/// its custody balance) and the two parties' ledger accounts.
pub struct SettlementState {
    pub escrow: Escrow,
    pub publisher: LedgerAccount,
    pub advertiser: LedgerAccount,
}

/// An escrow still owing its settlement, with custody able to cover it.
pub open spec fn settlement_ready(e: Escrow) -> bool {
    !e.is_released && e.amount > 0 && e.custody >= e.amount
}

/// A successful release, as a relation on snapshots: the recorded amount
/// moves from custody to the publisher, the latch is set, and the advertiser
/// is untouched.
pub open spec fn release_step(pre: SettlementState, post: SettlementState) -> bool {
    &&& settlement_ready(pre.escrow)
    &&& post.escrow == settled(pre.escrow)
    &&& post.publisher.key == pre.publisher.key
    &&& post.publisher.lamports == pre.publisher.lamports + pre.escrow.amount
    &&& post.advertiser == pre.advertiser
}

/// A successful refund: the recorded amount moves from custody back to the
/// advertiser, the latch is set, and the publisher is untouched.
pub open spec fn refund_step(pre: SettlementState, post: SettlementState) -> bool {
    &&& settlement_ready(pre.escrow)
    &&& post.escrow == settled(pre.escrow)
    &&& post.advertiser.key == pre.advertiser.key
    &&& post.advertiser.lamports == pre.advertiser.lamports + pre.escrow.amount
    &&& post.publisher == pre.publisher
}

/// One attempted settlement: a rejected call changes nothing, a successful
/// one is a release or a refund.
pub open spec fn settlement_step(pre: SettlementState, post: SettlementState) -> bool {
    ||| post == pre
    ||| release_step(pre, post)
    ||| refund_step(pre, post)
}

/// What a successful `release_escrow` call guarantees of the escrow and the
/// publisher's account — its postcondition — is one `settlement_step` of the
/// snapshot, for any advertiser account (which such a call never touches).
pub proof fn lemma_release_refines_settlement_step(
    e_pre: Escrow,
    e_post: Escrow,
    p_pre: LedgerAccount,
    p_post: LedgerAccount,
    advertiser: LedgerAccount,
    slot: AdSlot,
    authority: AccountId,
)
    requires
        release_allowed(e_pre, slot, p_pre.key, authority),
        e_post == settled(e_pre),
        p_post.key == p_pre.key,
        p_post.lamports == p_pre.lamports + e_pre.amount,
    ensures
        settlement_step(
            SettlementState { escrow: e_pre, publisher: p_pre, advertiser },
            SettlementState { escrow: e_post, publisher: p_post, advertiser },
        ),
{
}

/// What a successful `refund_escrow` call guarantees of the escrow and the
/// advertiser's account is one `settlement_step` of the snapshot, for any
/// publisher account (which such a call never touches).
pub proof fn lemma_refund_refines_settlement_step(
    e_pre: Escrow,
    e_post: Escrow,
    a_pre: LedgerAccount,
    a_post: LedgerAccount,
    publisher: LedgerAccount,
    slot: AdSlot,
    authority: AccountId,
)
    requires
        refund_allowed(e_pre, slot, a_pre.key, authority),
        e_post == settled(e_pre),
        a_post.key == a_pre.key,
        a_post.lamports == a_pre.lamports + e_pre.amount,
    ensures
        settlement_step(
            SettlementState { escrow: e_pre, publisher, advertiser: a_pre },
            SettlementState { escrow: e_post, publisher, advertiser: a_post },
        ),
{
}

/// The settlement latch is stable: once an escrow is released, every further
/// attempted settlement leaves it released.
pub proof fn lemma_released_is_stable(tr: Seq<SettlementState>, i: int, j: int)
    requires
        forall|k: int| 0 <= k < tr.len() - 1 ==> #[trigger] settlement_step(tr[k], tr[k + 1]),
        0 <= i <= j < tr.len(),
        tr[i].escrow.is_released,
    ensures
        tr[j].escrow.is_released,
    decreases j - i,
{
    if i < j {
        lemma_released_is_stable(tr, i, j - 1);
        assert(settlement_step(tr[j - 1], tr[(j - 1) + 1]));
    }
}

/// Whether the attempt leaving state `k` is the successful settlement.
pub open spec fn settles_at(tr: Seq<SettlementState>, k: int) -> bool {
    !tr[k].escrow.is_released && tr[k + 1].escrow.is_released
}

/// At-most-once settlement law: across any sequence of release and refund
/// attempts on one escrow, at most one attempt succeeds; the underlying
/// custody transfer executes at most once.
pub proof fn lemma_at_most_once_settlement(tr: Seq<SettlementState>, k1: int, k2: int)
    requires
        forall|k: int| 0 <= k < tr.len() - 1 ==> #[trigger] settlement_step(tr[k], tr[k + 1]),
        0 <= k1 < k2 < tr.len() - 1,
        settles_at(tr, k1),
    ensures
        !settles_at(tr, k2),
{
    lemma_released_is_stable(tr, k1 + 1, k2);
}

/// Funds conservation law, over any run of release/refund attempts on a
/// freshly funded escrow: what the publisher and the advertiser gained is
/// exactly what left custody; nothing moves until the single settlement, which
/// moves exactly the funded amount; and never do both parties gain.
pub proof fn lemma_funds_conservation(tr: Seq<SettlementState>)
    requires
        tr.len() > 0,
        !tr[0].escrow.is_released,
        tr[0].escrow.custody == tr[0].escrow.amount,
        forall|k: int| 0 <= k < tr.len() - 1 ==> #[trigger] settlement_step(tr[k], tr[k + 1]),
    ensures
        tr.last().publisher.lamports - tr[0].publisher.lamports + tr.last().advertiser.lamports
            - tr[0].advertiser.lamports == tr[0].escrow.custody - tr.last().escrow.custody,
        !tr.last().escrow.is_released ==> tr.last() == tr[0],
        tr.last().escrow.is_released ==> tr[0].escrow.custody - tr.last().escrow.custody == tr[0].escrow.amount
            && tr.last().escrow.amount == 0,
        !(tr.last().publisher.lamports > tr[0].publisher.lamports
            && tr.last().advertiser.lamports > tr[0].advertiser.lamports),
    decreases tr.len(),
{
    if tr.len() > 1 {
        let prefix = tr.drop_last();
        assert forall|k: int| 0 <= k < prefix.len() - 1 implies #[trigger] settlement_step(
            prefix[k],
            prefix[k + 1],
        ) by {
            assert(settlement_step(tr[k], tr[k + 1]));
        }
        lemma_funds_conservation(prefix);
        assert(settlement_step(tr[tr.len() - 2], tr[(tr.len() - 2) + 1]));
    }
}

} // verus!
