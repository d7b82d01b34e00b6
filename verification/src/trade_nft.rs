//! The trade exchange engine: a counter-indexed store of trades, each a
//! one-shot proposal that only its seller may resolve, by approval (the asset
//! moves to the buyer) or rejection (the asset moves back to the seller).

use vstd::prelude::*;

use crate::AccountId;
use crate::Error;

verus! {

/// A pending or resolved asset trade.
#[derive(Clone, Copy, Debug, PartialEq, Eq, Structural)]
pub struct Trade {
    /// The creator of the trade; the only identity that may resolve it.
    pub seller: AccountId,
    /// The counterparty that receives the asset on approval.
    pub buyer: AccountId,
    /// The external asset-transfer collaborator holding the traded asset.
    pub nft_contract: AccountId,
    /// `true` from creation until the one successful approval or rejection.
    pub is_active: bool,
}

/// Notification that a trade was created.
#[derive(Clone, Copy, Debug, PartialEq, Eq, Structural)]
pub struct TradeCreated {
    pub trade_id: u128,
    pub seller: AccountId,
    pub nft_contract: AccountId,
}

/// Notification that a trade was approved and the asset sent to the buyer.
#[derive(Clone, Copy, Debug, PartialEq, Eq, Structural)]
pub struct TradeApproved {
    pub trade_id: u128,
    pub buyer: AccountId,
}

/// Notification that a trade was rejected and the asset returned.
#[derive(Clone, Copy, Debug, PartialEq, Eq, Structural)]
pub struct TradeRejected {
    pub trade_id: u128,
}

/// A request to the external asset-transfer collaborator: move `token_id`
/// from `from` to `to` on the contract `nft_contract`. The host performs it
/// and aborts the whole call if the collaborator reports failure.
#[derive(Clone, Copy, Debug, PartialEq, Eq, Structural)]
pub struct AssetTransferRequest {
    pub nft_contract: AccountId,
    pub from: AccountId,
    pub to: AccountId,
    pub token_id: u128,
}

/// The trade exchange engine: every trade ever created, keyed by id, and the
/// counter from which the next id is assigned.
pub struct TradeNFT {
    /// The trade with id `i` is `trades[i]`; records are never deleted.
    pub trades: Vec<Trade>,
    /// The next id to assign; ids count up from 0 with no gaps or reuse.
    pub trade_counter: u128,
}

impl TradeNFT {
    /// The engine's invariant: the counter equals the number of stored
    /// trades, so the ids assigned so far are exactly 0 .. trade_counter.
    pub open spec fn wf(self) -> bool {
        self.trade_counter == self.trades@.len()
    }

    /// Whether a trade with this id exists.
    pub open spec fn has_trade(self, trade_id: u128) -> bool {
        (trade_id as int) < self.trades@.len()
    }

    /// The stored trade with this id.
    pub open spec fn trade_at(self, trade_id: u128) -> Trade {
        self.trades@[trade_id as int]
    }

    /// The error, if any, with which an approval or rejection of `trade_id`
    /// by `caller` fails. Approval and rejection share their preconditions,
    /// checked in this order: the trade must exist, must still be active, and
    /// the caller must be its seller.
    pub open spec fn resolve_err(self, caller: AccountId, trade_id: u128) -> Option<Error> {
        if !self.has_trade(trade_id) {
            Some(Error::NotFound)
        } else if !self.trade_at(trade_id).is_active {
            Some(Error::InvalidState)
        } else if caller != self.trade_at(trade_id).seller {
            Some(Error::Unauthorized)
        } else {
            None
        }
    }

    /// How a successful resolution (approval or rejection) of `trade_id`
    /// changes the engine: the trade is made inactive and everything else is
    /// unchanged.
    pub open spec fn resolves_to(self, post: TradeNFT, trade_id: u128) -> bool {
        &&& post.trade_counter == self.trade_counter
        &&& post.trades@ == self.trades@.update(
            trade_id as int,
            Trade { is_active: false, ..self.trade_at(trade_id) },
        )
    }

    /// A fresh engine with no trades and the id counter at 0.
    pub fn new() -> (engine: Self)
        ensures
            engine.wf(),
            engine.trade_counter == 0,
            engine.trades@.len() == 0,
    {
        TradeNFT { trades: Vec::new(), trade_counter: 0 }
    }

    /// Creates a trade: the caller becomes the seller, the next counter value
    /// becomes the trade's id, and the counter moves up by one. Returns the
    /// assigned id and the notification to emit. Never fails.
    pub fn create_trade(
        &mut self,
        caller: AccountId,
        nft_contract: AccountId,
        buyer: AccountId,
    ) -> (r: (u128, TradeCreated))
        requires
            old(self).wf(),
        ensures
            final(self).wf(),
            r.0 == old(self).trade_counter,
            final(self).trade_counter == old(self).trade_counter + 1,
            final(self).trades@ == old(self).trades@.push(
                Trade { seller: caller, buyer, nft_contract, is_active: true },
            ),
            r.1 == (TradeCreated { trade_id: r.0, seller: caller, nft_contract }),
    {
        let trade_id = self.trade_counter;
        let trade = Trade { seller: caller, buyer, nft_contract, is_active: true };
        proof {
            assert(self.trades.len() == self.trades@.len());
        }
        self.trades.push(trade);
        self.trade_counter = self.trade_counter + 1;
        (trade_id, TradeCreated { trade_id, seller: caller, nft_contract })
    }

    /// Approves a trade: only its seller may do so, only while the trade is
    /// active. On success the asset `token_id` is requested to move from the
    /// engine's own holding account (`self_account`) to the buyer, the trade
    /// becomes inactive for good, and the notification to emit is returned.
    /// Fails as `resolve_err` says; a failed call changes nothing. The host
    /// aborts the whole call, state change included, if the requested
    /// transfer fails.
    pub fn approve_trade(
        &mut self,
        caller: AccountId,
        self_account: AccountId,
        trade_id: u128,
        token_id: u128,
    ) -> (r: Result<(AssetTransferRequest, TradeApproved), Error>)
        requires
            old(self).wf(),
        ensures
            final(self).wf(),
            r is Err <==> old(self).resolve_err(caller, trade_id) is Some,
            old(self).resolve_err(caller, trade_id) matches Some(e)
                ==> r == Err::<(AssetTransferRequest, TradeApproved), Error>(e)
                    && *final(self) == *old(self),
            old(self).resolve_err(caller, trade_id) is None ==> ({
                let t = old(self).trade_at(trade_id);
                &&& old(self).resolves_to(*final(self), trade_id)
                &&& r == Ok::<(AssetTransferRequest, TradeApproved), Error>(
                    (
                        AssetTransferRequest {
                            nft_contract: t.nft_contract,
                            from: self_account,
                            to: t.buyer,
                            token_id,
                        },
                        TradeApproved { trade_id, buyer: t.buyer },
                    ),
                )
            }),
    {
        if trade_id >= self.trade_counter {
            return Err(Error::NotFound);
        }
        proof {
            assert(self.trades.len() == self.trades@.len());
        }
        let idx = trade_id as usize;
        let trade = self.trades[idx];
        if !trade.is_active {
            return Err(Error::InvalidState);
        }
        if caller != trade.seller {
            return Err(Error::Unauthorized);
        }
        let request = AssetTransferRequest {
            nft_contract: trade.nft_contract,
            from: self_account,
            to: trade.buyer,
            token_id,
        };
        self.trades[idx].is_active = false;
        Ok((request, TradeApproved { trade_id, buyer: trade.buyer }))
    }

    /// Rejects a trade: the same authorization and state rules as approval,
    /// but the asset `token_id` is requested to move back to the seller.
    /// Fails as `resolve_err` says; a failed call changes nothing.
    pub fn reject_trade(
        &mut self,
        caller: AccountId,
        self_account: AccountId,
        trade_id: u128,
        token_id: u128,
    ) -> (r: Result<(AssetTransferRequest, TradeRejected), Error>)
        requires
            old(self).wf(),
        ensures
            final(self).wf(),
            r is Err <==> old(self).resolve_err(caller, trade_id) is Some,
            old(self).resolve_err(caller, trade_id) matches Some(e)
                ==> r == Err::<(AssetTransferRequest, TradeRejected), Error>(e)
                    && *final(self) == *old(self),
            old(self).resolve_err(caller, trade_id) is None ==> ({
                let t = old(self).trade_at(trade_id);
                &&& old(self).resolves_to(*final(self), trade_id)
                &&& r == Ok::<(AssetTransferRequest, TradeRejected), Error>(
                    (
                        AssetTransferRequest {
                            nft_contract: t.nft_contract,
                            from: self_account,
                            to: t.seller,
                            token_id,
                        },
                        TradeRejected { trade_id },
                    ),
                )
            }),
    {
        if trade_id >= self.trade_counter {
            return Err(Error::NotFound);
        }
        proof {
            assert(self.trades.len() == self.trades@.len());
        }
        let idx = trade_id as usize;
        let trade = self.trades[idx];
        if !trade.is_active {
            return Err(Error::InvalidState);
        }
        if caller != trade.seller {
            return Err(Error::Unauthorized);
        }
        let request = AssetTransferRequest {
            nft_contract: trade.nft_contract,
            from: self_account,
            to: trade.seller,
            token_id,
        };
        self.trades[idx].is_active = false;
        Ok((request, TradeRejected { trade_id }))
    }
}

/// In a well-formed engine the assigned trade ids are exactly those below the
/// counter. Together with `create_trade`'s contract — each call assigns the
/// current counter value and moves the counter up by one — the ids handed out
/// over any sequence of creations are 0, 1, 2, ...: strictly increasing from
/// 0, with no gaps and no reuse.
pub proof fn lemma_trade_ids_are_counter_range(engine: TradeNFT)
    requires
        engine.wf(),
    ensures
        forall|trade_id: u128|
            engine.has_trade(trade_id) <==> (trade_id as int) < engine.trade_counter as int,
{
}

/// An approval or rejection of an inactive trade fails with the
/// invalid-state error, whoever the caller is.
pub proof fn lemma_inactive_trade_is_invalid_state(
    engine: TradeNFT,
    caller: AccountId,
    trade_id: u128,
)
    requires
        engine.has_trade(trade_id),
        !engine.trade_at(trade_id).is_active,
    ensures
        engine.resolve_err(caller, trade_id) == Some(Error::InvalidState),
{
}

/// An approval or rejection of an active trade by any identity other than
/// the trade's seller — the buyer included — fails with the unauthorized
/// error.
pub proof fn lemma_non_seller_is_unauthorized(
    engine: TradeNFT,
    caller: AccountId,
    trade_id: u128,
)
    requires
        engine.has_trade(trade_id),
        engine.trade_at(trade_id).is_active,
        caller != engine.trade_at(trade_id).seller,
    ensures
        engine.resolve_err(caller, trade_id) == Some(Error::Unauthorized),
{
}

/// Resolution is terminal: after a successful approval or rejection the
/// trade is inactive, and every further approval or rejection of the same
/// id, by any caller, fails with the invalid-state error. Approval and
/// rejection are therefore mutually exclusive: at most one of them ever
/// succeeds on a given trade.
pub proof fn lemma_resolution_is_terminal(
    engine: TradeNFT,
    post: TradeNFT,
    caller: AccountId,
    later_caller: AccountId,
    trade_id: u128,
)
    requires
        engine.wf(),
        engine.resolve_err(caller, trade_id) is None,
        engine.resolves_to(post, trade_id),
    ensures
        post.wf(),
        !post.trade_at(trade_id).is_active,
        post.resolve_err(later_caller, trade_id) == Some(Error::InvalidState),
{
}

} // verus!
