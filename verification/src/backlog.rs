//! Order and backlog data carried by the wider system around the follower:
//! timestamped orders in their backlog states, order weights, and the
//! identities of on-chain orders and entities.

use vstd::prelude::*;

verus! {

/// An order waiting in the backlog, with the time it entered.
pub struct BacklogOrder<TOrd> {
    pub order: TOrd,
    pub timestamp: i64,
}

/// Priority weight of an order.
pub struct OrderWeight(pub u64);

impl OrderWeight {
    pub fn from(x: u64) -> (r: OrderWeight)
        ensures
            r.0 == x,
    {
        OrderWeight(x)
    }
}

/// Something with a priority weight.
pub trait Weighted {
    fn weight(&self) -> OrderWeight;
}

/// An order seen but not yet executed.
pub struct PendingOrder<TOrd> {
    pub order: TOrd,
    pub timestamp: i64,
}

/// An order set aside after a failed attempt.
pub struct SuspendedOrder<TOrd> {
    pub order: TOrd,
    pub timestamp: i64,
}

/// An order whose execution is in flight.
pub struct ProgressingOrder<TOrd> {
    pub order: TOrd,
    pub timestamp: i64,
}

impl<TOrd> PendingOrder<TOrd> {
    /// An in-flight order returns to the pending state unchanged.
    pub fn from(po: ProgressingOrder<TOrd>) -> (r: PendingOrder<TOrd>)
        ensures
            r.order == po.order,
            r.timestamp == po.timestamp,
    {
        PendingOrder { order: po.order, timestamp: po.timestamp }
    }
}

/// A change in the set of known orders: a new pending order, or an order
/// that left the books.
pub enum OrderUpdate<TOrd, TOrderId> {
    NewOrder(PendingOrder<TOrd>),
    OrderEliminated(TOrderId),
}

/// Identity of an on-chain order.
pub trait OnChainOrder {
    type TOrderId;

    type TEntityId;

    fn get_self_ref(&self) -> Self::TOrderId;

    fn get_entity_ref(&self) -> Self::TEntityId;
}

/// Identity and state identity of an on-chain entity.
pub trait OnChainEntity {
    type TEntityId;

    type TStateId;

    fn get_self_ref(&self) -> Self::TEntityId;

    fn get_self_state_ref(&self) -> Self::TStateId;
}

} // verus!
