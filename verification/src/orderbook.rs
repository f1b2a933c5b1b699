//! Limit-order book for prediction-market outcome shares.
//!
//! Orders are matched against the opposite side of the book for the same
//! call and outcome as soon as they are placed; each placement fills at most
//! `MAX_MATCHES_PER_ORDER` resting orders, at the resting order's price.
use vstd::prelude::*;
use std::collections::BTreeMap;
use crate::AccountId;
use crate::lists::{list_at, push_to_list};

verus! {

broadcast use vstd::std_specs::btree::group_btree_axioms, vstd::laws_cmp::group_laws_cmp;

/// Most resting orders a single incoming order is matched against.
pub const MAX_MATCHES_PER_ORDER: u32 = 20;

/// Protocol share of the trading fee, in basis points.
pub const PROTOCOL_FEE_BPS: u32 = 25;

/// Liquidity-provider share of the trading fee, in basis points.
pub const LP_FEE_BPS: u32 = 5;

/// Total trading fee set at initialization, in basis points.
pub const DEFAULT_FEE_BPS: u32 = 30;

/// Errors of the order-book contract, in the order of their error codes (from 1).
#[derive(Clone, Copy, Debug, PartialEq, Eq, Structural)]
pub enum OrderbookError {
    AlreadyInitialized,
    NotInitialized,
    Unauthorized,
    InvalidAmount,
    InvalidPrice,
    OrderNotFound,
    InsufficientBalance,
    SelfTrading,
    MaxMatchesReached,
}

/// Side of an order.
#[derive(Clone, Copy, Debug, PartialEq, Eq, Structural)]
pub enum OrderSide {
    Bid,
    Ask,
}

/// A limit order.
#[derive(Clone, Copy, Debug, PartialEq, Eq, Structural)]
pub struct Order {
    pub id: u64,
    pub user: AccountId,
    pub call_id: u64,
    pub outcome: u32,
    pub side: OrderSide,
    pub amount: i128,
    pub price_bps: u32,
    pub filled: i128,
    pub created_at: u64,
    pub active: bool,
}

/// Fee configuration of the book.
#[derive(Clone, Copy, Debug, PartialEq, Eq, Structural)]
pub struct OrderbookConfig {
    pub admin: AccountId,
    pub fee_bps: u32,
    pub protocol_fee_bps: u32,
    pub lp_fee_bps: u32,
}

/// Events the book publishes.
#[derive(Clone, Copy, Debug, PartialEq, Eq, Structural)]
pub enum OrderbookEvent {
    OrderPlaced { order_id: u64, user: AccountId, call_id: u64, outcome: u32, is_bid: bool },
    OrderCancelled { order_id: u64 },
    OrderExecuted {
        maker: AccountId,
        taker: AccountId,
        call_id: u64,
        outcome: u32,
        amount: i128,
        price: u32,
    },
}

/// The stored state of the order-book contract, plus the events published
/// so far.
pub struct Orderbook {
    pub config: Option<OrderbookConfig>,
    /// Id of the last order placed (0 before the first).
    pub order_counter: u64,
    pub orders: BTreeMap<u64, Order>,
    /// Ids of each user's orders, in placement order.
    pub user_orders: BTreeMap<AccountId, Vec<u64>>,
    /// Ids of the bids placed on each (call, outcome), in placement order.
    pub bids: BTreeMap<(u64, u32), Vec<u64>>,
    /// Ids of the asks placed on each (call, outcome), in placement order.
    pub asks: BTreeMap<(u64, u32), Vec<u64>>,
    pub events: Vec<OrderbookEvent>,
}

/// An order's size and fill are consistent: positive size, fill within it,
/// and a fully filled order no longer active.
pub open spec fn order_wf(o: Order) -> bool {
    &&& o.amount > 0
    &&& 0 <= o.filled <= o.amount
    &&& o.filled >= o.amount ==> !o.active
}

/// The ids listed on one side of the book at (call, outcome).
pub open spec fn book_ids(book: Map<(u64, u32), Vec<u64>>, call_id: u64, outcome: u32) -> Seq<u64> {
    list_at(book, (call_id, outcome))
}

/// A resting order that the taker can trade against, given how many matches
/// were already made.
pub open spec fn can_match(maker: Order, taker: Order) -> bool {
    &&& maker.active
    &&& maker.user != taker.user
    &&& if taker.side == OrderSide::Bid {
        maker.price_bps <= taker.price_bps
    } else {
        maker.price_bps >= taker.price_bps
    }
    &&& taker.amount - taker.filled > 0
    &&& maker.amount - maker.filled > 0
}

/// Amount traded between a maker and the taker: the smaller remainder.
pub open spec fn fill_amount(maker: Order, taker: Order) -> int {
    let t = taker.amount - taker.filled;
    let m = maker.amount - maker.filled;
    if t <= m { t } else { m }
}

/// The maker after trading `fill` with a taker: it becomes inactive once fully filled.
pub open spec fn filled_maker(maker: Order, fill: int) -> Order {
    Order {
        filled: (maker.filled + fill) as i128,
        active: maker.filled + fill < maker.amount,
        ..maker
    }
}

/// One step of matching the taker against the resting order `maker_id`:
/// the orders, the number of matches made and the events published.
pub open spec fn match_step(
    st: (Map<u64, Order>, nat, Seq<OrderbookEvent>),
    taker: Order,
    maker_id: u64,
) -> (Map<u64, Order>, nat, Seq<OrderbookEvent>) {
    let (orders, count, events) = st;
    if count >= MAX_MATCHES_PER_ORDER || !orders.contains_key(maker_id) {
        st
    } else {
        let maker = orders[maker_id];
        if !can_match(maker, taker) {
            st
        } else {
            let fill = fill_amount(maker, taker);
            (
                orders.insert(maker_id, filled_maker(maker, fill)),
                count + 1,
                events.push(
                    OrderbookEvent::OrderExecuted {
                        maker: maker.user,
                        taker: taker.user,
                        call_id: taker.call_id,
                        outcome: taker.outcome,
                        amount: fill as i128,
                        price: maker.price_bps,
                    },
                ),
            )
        }
    }
}

/// Matching the taker against the first `n` ids of the opposite book.
pub open spec fn match_prefix(
    orders: Map<u64, Order>,
    book: Seq<u64>,
    taker: Order,
    n: nat,
) -> (Map<u64, Order>, nat, Seq<OrderbookEvent>)
    decreases n,
{
    if n == 0 || n > book.len() {
        (orders, 0, Seq::empty())
    } else {
        match_step(match_prefix(orders, book, taker, (n - 1) as nat), taker, book[n - 1])
    }
}

/// The result of matching the taker against the whole opposite book.
pub open spec fn match_all(orders: Map<u64, Order>, book: Seq<u64>, taker: Order) -> (
    Map<u64, Order>,
    nat,
    Seq<OrderbookEvent>,
) {
    match_prefix(orders, book, taker, book.len())
}

/// The side of the book that an order rests in or matches against.
pub open spec fn opposite_book(ob: Orderbook, taker: Order) -> Seq<u64> {
    if taker.side == OrderSide::Bid {
        book_ids(ob.asks@, taker.call_id, taker.outcome)
    } else {
        book_ids(ob.bids@, taker.call_id, taker.outcome)
    }
}

impl Orderbook {
    /// Every stored order is well formed, and no stored id is above the
    /// last id handed out.
    pub open spec fn wf(self) -> bool {
        forall|id: u64| #[trigger] self.orders@.contains_key(id) ==> order_wf(self.orders@[id])
            && id <= self.order_counter
    }

    /// A freshly deployed book: no configuration, no orders.
    pub fn new() -> (ob: Self)
        ensures
            ob.config is None,
            ob.order_counter == 0,
            ob.orders@ == Map::<u64, Order>::empty(),
            ob.user_orders@ == Map::<AccountId, Vec<u64>>::empty(),
            ob.bids@ == Map::<(u64, u32), Vec<u64>>::empty(),
            ob.asks@ == Map::<(u64, u32), Vec<u64>>::empty(),
            ob.events@ == Seq::<OrderbookEvent>::empty(),
            ob.wf(),
    {
        Orderbook {
            config: None,
            order_counter: 0,
            orders: BTreeMap::new(),
            user_orders: BTreeMap::new(),
            bids: BTreeMap::new(),
            asks: BTreeMap::new(),
            events: Vec::new(),
        }
    }

    /// Store the configuration with the default fee split; fails if already configured.
    pub fn initialize(&mut self, admin: AccountId) -> (r: Result<(), OrderbookError>)
        ensures
            old(self).config is Some ==> {
                &&& r == Err::<(), OrderbookError>(OrderbookError::AlreadyInitialized)
                &&& final(self).config == old(self).config
            },
            old(self).config is None ==> {
                &&& r is Ok
                &&& final(self).config == Some(
                    OrderbookConfig {
                        admin,
                        fee_bps: DEFAULT_FEE_BPS,
                        protocol_fee_bps: PROTOCOL_FEE_BPS,
                        lp_fee_bps: LP_FEE_BPS,
                    },
                )
            },
            final(self).order_counter == old(self).order_counter,
            final(self).orders@ == old(self).orders@,
            final(self).user_orders@ == old(self).user_orders@,
            final(self).bids@ == old(self).bids@,
            final(self).asks@ == old(self).asks@,
            final(self).events@ == old(self).events@,
    {
        if self.config.is_some() {
            return Err(OrderbookError::AlreadyInitialized);
        }
        self.config = Some(
            OrderbookConfig {
                admin,
                fee_bps: DEFAULT_FEE_BPS,
                protocol_fee_bps: PROTOCOL_FEE_BPS,
                lp_fee_bps: LP_FEE_BPS,
            },
        );
        Ok(())
    }

    /// Allocate the next order id.
    fn next_order_id(&mut self) -> (id: u64)
        requires
            old(self).order_counter < u64::MAX,
        ensures
            id == old(self).order_counter + 1,
            final(self).order_counter == id,
            final(self).config == old(self).config,
            final(self).orders@ == old(self).orders@,
            final(self).user_orders@ == old(self).user_orders@,
            final(self).bids@ == old(self).bids@,
            final(self).asks@ == old(self).asks@,
            final(self).events@ == old(self).events@,
    {
        self.order_counter = self.order_counter + 1;
        self.order_counter
    }

    /// Store `order` under `id`.
    pub fn set_order(&mut self, id: u64, order: Order)
        ensures
            final(self).orders@ == old(self).orders@.insert(id, order),
            *final(self) == (Orderbook { orders: final(self).orders, ..*old(self) }),
    {
        self.orders.insert(id, order);
    }

    /// The order stored under `id`, if any.
    pub fn get_order(&self, id: u64) -> (r: Option<Order>)
        ensures
            r == (if self.orders@.contains_key(id) {
                Some(self.orders@[id])
            } else {
                None
            }),
    {
        match self.orders.get(&id) {
            Some(o) => Some(*o),
            None => None,
        }
    }

    /// Append `order_id` to `user`'s list of orders.
    pub fn add_user_order(&mut self, user: AccountId, order_id: u64)
        ensures
            list_at(final(self).user_orders@, user) == list_at(old(self).user_orders@, user).push(order_id),
            final(self).user_orders@.contains_key(user),
            final(self).user_orders@.remove(user) == old(self).user_orders@.remove(user),
            *final(self) == (Orderbook { user_orders: final(self).user_orders, ..*old(self) }),
    {
        push_to_list(&mut self.user_orders, user, order_id);
    }

    /// The ids of `user`'s orders, in placement order.
    pub fn get_user_order_ids(&self, user: AccountId) -> (r: Vec<u64>)
        ensures
            r@ == list_at(self.user_orders@, user),
    {
        match self.user_orders.get(&user) {
            Some(l) => l.clone(),
            None => Vec::new(),
        }
    }

    /// Append `order_id` to the bids (`is_bid`) or asks of (`call_id`, `outcome`).
    pub fn add_to_book(&mut self, call_id: u64, outcome: u32, order_id: u64, is_bid: bool)
        ensures
            is_bid ==> {
                &&& book_ids(final(self).bids@, call_id, outcome) == book_ids(old(self).bids@, call_id, outcome).push(order_id)
                &&& final(self).bids@.contains_key((call_id, outcome))
                &&& final(self).bids@.remove((call_id, outcome)) == old(self).bids@.remove((call_id, outcome))
                &&& *final(self) == (Orderbook { bids: final(self).bids, ..*old(self) })
            },
            !is_bid ==> {
                &&& book_ids(final(self).asks@, call_id, outcome) == book_ids(old(self).asks@, call_id, outcome).push(order_id)
                &&& final(self).asks@.contains_key((call_id, outcome))
                &&& final(self).asks@.remove((call_id, outcome)) == old(self).asks@.remove((call_id, outcome))
                &&& *final(self) == (Orderbook { asks: final(self).asks, ..*old(self) })
            },
    {
        if is_bid {
            push_to_list(&mut self.bids, (call_id, outcome), order_id);
        } else {
            push_to_list(&mut self.asks, (call_id, outcome), order_id);
        }
    }

    /// The ids listed on one side of the book at (call, outcome).
    pub fn get_book_ids(&self, call_id: u64, outcome: u32, is_bid: bool) -> (ids: Vec<u64>)
        ensures
            ids@ == (if is_bid {
                book_ids(self.bids@, call_id, outcome)
            } else {
                book_ids(self.asks@, call_id, outcome)
            }),
    {
        let book = if is_bid {
            &self.bids
        } else {
            &self.asks
        };
        match book.get(&(call_id, outcome)) {
            Some(list) => list.clone(),
            None => Vec::new(),
        }
    }

    /// Match the stored order `taker_order_id` against the opposite side of
    /// its book: each compatible resting order (active, of another user,
    /// priced at or better than the taker, with something left) is filled by
    /// the smaller of the two remainders, in book order, for at most
    /// `MAX_MATCHES_PER_ORDER` orders. The taker order itself is left as it is.
    fn match_orders(&mut self, taker_order_id: u64) -> (r: Result<(), OrderbookError>)
        requires
            old(self).wf(),
        ensures
            final(self).wf(),
            final(self).config == old(self).config,
            final(self).order_counter == old(self).order_counter,
            final(self).user_orders@ == old(self).user_orders@,
            final(self).bids@ == old(self).bids@,
            final(self).asks@ == old(self).asks@,
            !old(self).orders@.contains_key(taker_order_id) ==> {
                &&& r == Err::<(), OrderbookError>(OrderbookError::OrderNotFound)
                &&& final(self).orders@ == old(self).orders@
                &&& final(self).events@ == old(self).events@
            },
            old(self).orders@.contains_key(taker_order_id) ==> {
                let taker = old(self).orders@[taker_order_id];
                let res = match_all(old(self).orders@, opposite_book(*old(self), taker), taker);
                &&& r is Ok
                &&& !taker.active ==> final(self).orders@ == old(self).orders@
                    && final(self).events@ == old(self).events@
                &&& taker.active ==> final(self).orders@ == res.0
                    && final(self).events@ == old(self).events@ + res.2
            },
    {
        let taker = match self.orders.get(&taker_order_id) {
            Some(o) => *o,
            None => return Err(OrderbookError::OrderNotFound),
        };
        if !taker.active {
            return Ok(());
        }
        let is_taker_bid = match taker.side {
            OrderSide::Bid => true,
            OrderSide::Ask => false,
        };
        let book_ids = self.get_book_ids(taker.call_id, taker.outcome, !is_taker_bid);
        let ghost orders0 = self.orders@;
        let ghost events0 = self.events@;
        let ghost book = book_ids@;
        proof {
            assert(book == opposite_book(*old(self), taker));
            assert(order_wf(taker));
        }
        let mut matches_count: u32 = 0;
        let mut i: usize = 0;
        while i < book_ids.len() && matches_count < MAX_MATCHES_PER_ORDER
            invariant
                0 <= i <= book_ids.len(),
                book == book_ids@,
                orders0 == old(self).orders@,
                events0 == old(self).events@,
                order_wf(taker),
                taker.active,
                is_taker_bid == (taker.side == OrderSide::Bid),
                self.wf(),
                self.config == old(self).config,
                self.order_counter == old(self).order_counter,
                self.user_orders@ == old(self).user_orders@,
                self.bids@ == old(self).bids@,
                self.asks@ == old(self).asks@,
                match_prefix(orders0, book, taker, i as nat) == (
                    self.orders@,
                    matches_count as nat,
                    self.events@.subrange(events0.len() as int, self.events@.len() as int),
                ),
                events0.len() <= self.events@.len(),
                events0 == self.events@.subrange(0, events0.len() as int),
                matches_count <= MAX_MATCHES_PER_ORDER,
            decreases book_ids.len() - i,
        {
            let ghost before = (self.orders@, matches_count as nat, self.events@.subrange(events0.len() as int, self.events@.len() as int));
            proof {
                assert(match_prefix(orders0, book, taker, (i + 1) as nat) == match_step(
                    before,
                    taker,
                    book[i as int],
                ));
            }
            let maker_id = book_ids[i];
            let mut maker = match self.orders.get(&maker_id) {
                Some(o) => *o,
                None => {
                    i = i + 1;
                    continue;
                },
            };
            if !maker.active || maker.user == taker.user {
                i = i + 1;
                continue;
            }
            let price_compatible = if is_taker_bid {
                maker.price_bps <= taker.price_bps
            } else {
                maker.price_bps >= taker.price_bps
            };
            if !price_compatible {
                i = i + 1;
                continue;
            }
            let taker_remaining = taker.amount - taker.filled;
            let maker_remaining = maker.amount - maker.filled;
            let fill_amount = if taker_remaining <= maker_remaining {
                taker_remaining
            } else {
                maker_remaining
            };
            if fill_amount <= 0 {
                i = i + 1;
                continue;
            }
            let exec_price = maker.price_bps;
            maker.filled = maker.filled + fill_amount;
            if maker.filled >= maker.amount {
                maker.active = false;
            }
            self.orders.insert(maker_id, maker);
            self.events.push(
                OrderbookEvent::OrderExecuted {
                    maker: maker.user,
                    taker: taker.user,
                    call_id: taker.call_id,
                    outcome: taker.outcome,
                    amount: fill_amount,
                    price: exec_price,
                },
            );
            matches_count = matches_count + 1;
            proof {
                assert(maker == filled_maker(before.0[maker_id], fill_amount as int));
                assert(self.events@.subrange(events0.len() as int, self.events@.len() as int)
                    =~= before.2.push(self.events@.last()));
                assert(self.events@.subrange(0, events0.len() as int) =~= events0);
                assert forall|id: u64| #[trigger] self.orders@.contains_key(id) implies order_wf(
                    self.orders@[id],
                ) by {
                    if id != maker_id {
                        assert(old(self).orders@.contains_key(id) || before.0.contains_key(id));
                    }
                }
            }
            i = i + 1;
        }
        proof {
            if i < book_ids.len() {
                assert(match_prefix(orders0, book, taker, i as nat).1 >= MAX_MATCHES_PER_ORDER);
                // Stopped early: every later step is a no-op once the limit is reached.
                lemma_match_saturated(orders0, book, taker, i as nat);
            }
            assert(self.events@ =~= events0 + match_all(orders0, book, taker).2);
        }
        Ok(())
    }
}


/// The stored orders listed under `ids` (in list order), keeping only the
/// active ones when `active_only`.
pub open spec fn listed_orders(orders: Map<u64, Order>, ids: Seq<u64>, active_only: bool) -> Seq<Order>
    decreases ids.len(),
{
    if ids.len() == 0 {
        Seq::empty()
    } else {
        let prev = listed_orders(orders, ids.drop_last(), active_only);
        let id = ids.last();
        if orders.contains_key(id) && (!active_only || orders[id].active) {
            prev.push(orders[id])
        } else {
            prev
        }
    }
}

/// A new, unfilled, active order.
pub open spec fn new_order(
    id: u64,
    user: AccountId,
    call_id: u64,
    outcome: u32,
    side: OrderSide,
    amount: i128,
    price_bps: u32,
    now: u64,
) -> Order {
    Order {
        id,
        user,
        call_id,
        outcome,
        side,
        amount,
        price_bps,
        filled: 0,
        created_at: now,
        active: true,
    }
}

impl Orderbook {
    /// Place an order of `side`: validate it, store it, list it under its
    /// user and its side of the book, publish `OrderPlaced`, then match it.
    fn place_order(
        &mut self,
        side: OrderSide,
        user: AccountId,
        call_id: u64,
        outcome: u32,
        amount: i128,
        price_bps: u32,
        now: u64,
    ) -> (r: Result<u64, OrderbookError>)
        requires
            old(self).wf(),
            amount > 0 && 0 < price_bps <= 10000 ==> old(self).order_counter < u64::MAX,
        ensures
            final(self).wf(),
            amount <= 0 ==> r == Err::<u64, OrderbookError>(OrderbookError::InvalidAmount)
                && *final(self) == *old(self),
            amount > 0 && (price_bps == 0 || price_bps > 10000) ==> r == Err::<u64, OrderbookError>(
                OrderbookError::InvalidPrice,
            ) && *final(self) == *old(self),
            amount > 0 && 0 < price_bps <= 10000 ==> {
                let id = (old(self).order_counter + 1) as u64;
                let o = new_order(id, user, call_id, outcome, side, amount, price_bps, now);
                let is_bid = side == OrderSide::Bid;
                let res = match_all(
                    old(self).orders@.insert(id, o),
                    opposite_book(*old(self), o),
                    o,
                );
                &&& r == Ok::<u64, OrderbookError>(id)
                &&& final(self).config == old(self).config
                &&& final(self).order_counter == id
                &&& final(self).orders@ == res.0
                &&& final(self).events@ == old(self).events@.push(
                    OrderbookEvent::OrderPlaced { order_id: id, user, call_id, outcome, is_bid },
                ) + res.2
                &&& forall|i: int|
                    old(self).events@.len() < i < final(self).events@.len() ==> within_taker_limit(
                        #[trigger] final(self).events@[i],
                        o,
                    )
                &&& list_at(final(self).user_orders@, user) == list_at(
                    old(self).user_orders@,
                    user,
                ).push(id)
                &&& final(self).user_orders@.remove(user) == old(self).user_orders@.remove(user)
                &&& is_bid ==> book_ids(final(self).bids@, call_id, outcome) == book_ids(
                    old(self).bids@,
                    call_id,
                    outcome,
                ).push(id) && final(self).bids@.remove((call_id, outcome)) == old(self).bids@.remove((call_id, outcome)) && final(self).asks@ == old(self).asks@
                &&& !is_bid ==> book_ids(final(self).asks@, call_id, outcome) == book_ids(
                    old(self).asks@,
                    call_id,
                    outcome,
                ).push(id) && final(self).asks@.remove((call_id, outcome)) == old(self).asks@.remove((call_id, outcome)) && final(self).bids@ == old(self).bids@
            },
    {
        if amount <= 0 {
            return Err(OrderbookError::InvalidAmount);
        }
        if price_bps == 0 || price_bps > 10000 {
            return Err(OrderbookError::InvalidPrice);
        }
        let ghost old_ob = *old(self);
        let order_id = self.next_order_id();
        let is_bid = match side {
            OrderSide::Bid => true,
            OrderSide::Ask => false,
        };
        let order = Order {
            id: order_id,
            user,
            call_id,
            outcome,
            side,
            amount,
            price_bps,
            filled: 0,
            created_at: now,
            active: true,
        };
        self.orders.insert(order_id, order);
        self.add_user_order(user, order_id);
        self.add_to_book(call_id, outcome, order_id, is_bid);
        self.events.push(
            OrderbookEvent::OrderPlaced { order_id, user, call_id, outcome, is_bid },
        );
        proof {
            assert(opposite_book(*self, order) == opposite_book(old_ob, order));
        }
        let ghost before = self.events@;
        let m = self.match_orders(order_id);
        assert(m is Ok);
        proof {
            let res = match_all(old_ob.orders@.insert(order_id, order), opposite_book(old_ob, order), order);
            lemma_executions_within_limit(
                old_ob.orders@.insert(order_id, order),
                opposite_book(old_ob, order),
                order,
                opposite_book(old_ob, order).len(),
            );
            assert(self.events@ == before + res.2);
            assert forall|i: int|
                old(self).events@.len() < i < self.events@.len() implies within_taker_limit(
                #[trigger] self.events@[i],
                order,
            ) by {
                assert(self.events@[i] == res.2[i - before.len()]);
            }
        }
        Ok(order_id)
    }

    /// Place a bid for `amount` shares of `outcome` on `call_id` at
    /// `price_bps`, matching it against the asks at once.
    pub fn place_bid(
        &mut self,
        user: AccountId,
        call_id: u64,
        outcome: u32,
        amount: i128,
        price_bps: u32,
        now: u64,
    ) -> (r: Result<u64, OrderbookError>)
        requires
            old(self).wf(),
            amount > 0 && 0 < price_bps <= 10000 ==> old(self).order_counter < u64::MAX,
        ensures
            final(self).wf(),
            amount <= 0 ==> r == Err::<u64, OrderbookError>(OrderbookError::InvalidAmount)
                && *final(self) == *old(self),
            amount > 0 && (price_bps == 0 || price_bps > 10000) ==> r == Err::<u64, OrderbookError>(
                OrderbookError::InvalidPrice,
            ) && *final(self) == *old(self),
            amount > 0 && 0 < price_bps <= 10000 ==> {
                let id = (old(self).order_counter + 1) as u64;
                let o = new_order(id, user, call_id, outcome, OrderSide::Bid, amount, price_bps, now);
                let res = match_all(
                    old(self).orders@.insert(id, o),
                    book_ids(old(self).asks@, call_id, outcome),
                    o,
                );
                &&& r == Ok::<u64, OrderbookError>(id)
                &&& final(self).config == old(self).config
                &&& final(self).order_counter == id
                &&& final(self).orders@ == res.0
                &&& final(self).events@ == old(self).events@.push(
                    OrderbookEvent::OrderPlaced { order_id: id, user, call_id, outcome, is_bid: true },
                ) + res.2
                &&& forall|i: int|
                    old(self).events@.len() < i < final(self).events@.len() ==> within_taker_limit(
                        #[trigger] final(self).events@[i],
                        o,
                    )
                &&& list_at(final(self).user_orders@, user) == list_at(
                    old(self).user_orders@,
                    user,
                ).push(id)
                &&& final(self).user_orders@.remove(user) == old(self).user_orders@.remove(user)
                &&& book_ids(final(self).bids@, call_id, outcome) == book_ids(
                    old(self).bids@,
                    call_id,
                    outcome,
                ).push(id)
                &&& final(self).bids@.remove((call_id, outcome)) == old(self).bids@.remove(
                    (call_id, outcome),
                )
                &&& final(self).asks@ == old(self).asks@
            },
    {
        self.place_order(OrderSide::Bid, user, call_id, outcome, amount, price_bps, now)
    }

    /// Place an ask of `share_amount` shares of `outcome` on `call_id` at
    /// `price_bps`, matching it against the bids at once.
    pub fn place_ask(
        &mut self,
        user: AccountId,
        call_id: u64,
        outcome: u32,
        share_amount: i128,
        price_bps: u32,
        now: u64,
    ) -> (r: Result<u64, OrderbookError>)
        requires
            old(self).wf(),
            share_amount > 0 && 0 < price_bps <= 10000 ==> old(self).order_counter < u64::MAX,
        ensures
            final(self).wf(),
            share_amount <= 0 ==> r == Err::<u64, OrderbookError>(OrderbookError::InvalidAmount)
                && *final(self) == *old(self),
            share_amount > 0 && (price_bps == 0 || price_bps > 10000) ==> r == Err::<
                u64,
                OrderbookError,
            >(OrderbookError::InvalidPrice) && *final(self) == *old(self),
            share_amount > 0 && 0 < price_bps <= 10000 ==> {
                let id = (old(self).order_counter + 1) as u64;
                let o = new_order(
                    id,
                    user,
                    call_id,
                    outcome,
                    OrderSide::Ask,
                    share_amount,
                    price_bps,
                    now,
                );
                let res = match_all(
                    old(self).orders@.insert(id, o),
                    book_ids(old(self).bids@, call_id, outcome),
                    o,
                );
                &&& r == Ok::<u64, OrderbookError>(id)
                &&& final(self).config == old(self).config
                &&& final(self).order_counter == id
                &&& final(self).orders@ == res.0
                &&& final(self).events@ == old(self).events@.push(
                    OrderbookEvent::OrderPlaced { order_id: id, user, call_id, outcome, is_bid: false },
                ) + res.2
                &&& forall|i: int|
                    old(self).events@.len() < i < final(self).events@.len() ==> within_taker_limit(
                        #[trigger] final(self).events@[i],
                        o,
                    )
                &&& list_at(final(self).user_orders@, user) == list_at(
                    old(self).user_orders@,
                    user,
                ).push(id)
                &&& final(self).user_orders@.remove(user) == old(self).user_orders@.remove(user)
                &&& book_ids(final(self).asks@, call_id, outcome) == book_ids(
                    old(self).asks@,
                    call_id,
                    outcome,
                ).push(id)
                &&& final(self).asks@.remove((call_id, outcome)) == old(self).asks@.remove(
                    (call_id, outcome),
                )
                &&& final(self).bids@ == old(self).bids@
            },
    {
        self.place_order(OrderSide::Ask, user, call_id, outcome, share_amount, price_bps, now)
    }

    /// Cancel `order_id` on behalf of `user`: only its owner may cancel it,
    /// and only while it is active.
    pub fn cancel_order(&mut self, user: AccountId, order_id: u64) -> (r: Result<(), OrderbookError>)
        requires
            old(self).wf(),
        ensures
            final(self).wf(),
            !old(self).orders@.contains_key(order_id) ==> r == Err::<(), OrderbookError>(
                OrderbookError::OrderNotFound,
            ) && *final(self) == *old(self),
            old(self).orders@.contains_key(order_id) && old(self).orders@[order_id].user != user
                ==> r == Err::<(), OrderbookError>(OrderbookError::Unauthorized) && *final(self)
                == *old(self),
            old(self).orders@.contains_key(order_id) && old(self).orders@[order_id].user == user
                && !old(self).orders@[order_id].active ==> r == Err::<(), OrderbookError>(
                OrderbookError::OrderNotFound,
            ) && *final(self) == *old(self),
            old(self).orders@.contains_key(order_id) && old(self).orders@[order_id].user == user
                && old(self).orders@[order_id].active ==> {
                &&& r is Ok
                &&& final(self).orders@ == old(self).orders@.insert(
                    order_id,
                    Order { active: false, ..old(self).orders@[order_id] },
                )
                &&& final(self).events@ == old(self).events@.push(
                    OrderbookEvent::OrderCancelled { order_id },
                )
                &&& final(self).config == old(self).config
                &&& final(self).order_counter == old(self).order_counter
                &&& final(self).user_orders@ == old(self).user_orders@
                &&& final(self).bids@ == old(self).bids@
                &&& final(self).asks@ == old(self).asks@
            },
    {
        let mut order = match self.orders.get(&order_id) {
            Some(o) => *o,
            None => return Err(OrderbookError::OrderNotFound),
        };
        if order.user != user {
            return Err(OrderbookError::Unauthorized);
        }
        if !order.active {
            return Err(OrderbookError::OrderNotFound);
        }
        order.active = false;
        self.orders.insert(order_id, order);
        self.events.push(OrderbookEvent::OrderCancelled { order_id });
        Ok(())
    }

    /// The stored orders listed under `ids`, optionally only the active ones.
    fn collect_orders(&self, ids: &Vec<u64>, active_only: bool) -> (out: Vec<Order>)
        ensures
            out@ == listed_orders(self.orders@, ids@, active_only),
    {
        let mut out: Vec<Order> = Vec::new();
        let mut i: usize = 0;
        while i < ids.len()
            invariant
                0 <= i <= ids.len(),
                out@ == listed_orders(self.orders@, ids@.subrange(0, i as int), active_only),
            decreases ids.len() - i,
        {
            proof {
                assert(ids@.subrange(0, i + 1).drop_last() =~= ids@.subrange(0, i as int));
            }
            match self.orders.get(&ids[i]) {
                Some(o) => {
                    if !active_only || o.active {
                        out.push(*o);
                    }
                },
                None => {},
            }
            i = i + 1;
        }
        proof {
            assert(ids@.subrange(0, ids@.len() as int) =~= ids@);
        }
        out
    }

    /// The active bids and asks on (`call_id`, `outcome`), each in book order.
    pub fn get_orderbook(&self, call_id: u64, outcome: u32) -> (r: (Vec<Order>, Vec<Order>))
        ensures
            r.0@ == listed_orders(self.orders@, book_ids(self.bids@, call_id, outcome), true),
            r.1@ == listed_orders(self.orders@, book_ids(self.asks@, call_id, outcome), true),
    {
        let bid_ids = self.get_book_ids(call_id, outcome, true);
        let ask_ids = self.get_book_ids(call_id, outcome, false);
        let bids = self.collect_orders(&bid_ids, true);
        let asks = self.collect_orders(&ask_ids, true);
        (bids, asks)
    }

    /// All of `user`'s orders, active or not, in placement order.
    pub fn get_user_orders(&self, user: AccountId) -> (r: Vec<Order>)
        ensures
            r@ == listed_orders(self.orders@, list_at(self.user_orders@, user), false),
    {
        let ids = match self.user_orders.get(&user) {
            Some(l) => l.clone(),
            None => Vec::new(),
        };
        self.collect_orders(&ids, false)
    }

    /// The book's configuration, if it was initialized.
    pub fn get_config_view(&self) -> (r: Result<OrderbookConfig, OrderbookError>)
        ensures
            r == (match self.config {
                Some(c) => Ok(c),
                None => Err(OrderbookError::NotInitialized),
            }),
    {
        match self.config {
            Some(c) => Ok(c),
            None => Err(OrderbookError::NotInitialized),
        }
    }
}


/// Matching one incoming order executes against at most
/// `MAX_MATCHES_PER_ORDER` resting orders, and publishes exactly one
/// `OrderExecuted` event per execution.
pub proof fn lemma_match_bounded(orders: Map<u64, Order>, book: Seq<u64>, taker: Order, n: nat)
    ensures
        match_prefix(orders, book, taker, n).1 <= MAX_MATCHES_PER_ORDER,
        match_prefix(orders, book, taker, n).2.len() == match_prefix(orders, book, taker, n).1,
    decreases n,
{
    if n > 0 && n <= book.len() {
        lemma_match_bounded(orders, book, taker, (n - 1) as nat);
    }
}

/// Matching changes only resting orders listed in the book it walks; every
/// other order is left exactly as it was.
pub proof fn lemma_match_touches_only_book(
    orders: Map<u64, Order>,
    book: Seq<u64>,
    taker: Order,
    n: nat,
    id: u64,
)
    requires
        !book.contains(id),
    ensures
        match_prefix(orders, book, taker, n).0.dom() == orders.dom(),
        orders.contains_key(id) ==> match_prefix(orders, book, taker, n).0[id] == orders[id],
    decreases n,
{
    if n > 0 && n <= book.len() {
        lemma_match_touches_only_book(orders, book, taker, (n - 1) as nat, id);
        let prev = match_prefix(orders, book, taker, (n - 1) as nat);
        let maker_id = book[n - 1];
        assert(maker_id != id);
        if prev.0.contains_key(maker_id) {
            assert(prev.0.insert(maker_id, filled_maker(prev.0[maker_id], fill_amount(prev.0[maker_id], taker))).dom() =~= prev.0.dom());
        }
    }
}

/// Matching only ever adds to a resting order's fill, never beyond its size,
/// and never changes anything else about it but whether it is active.
pub proof fn lemma_match_fills_within_size(
    orders: Map<u64, Order>,
    book: Seq<u64>,
    taker: Order,
    n: nat,
    id: u64,
)
    requires
        orders.contains_key(id) ==> order_wf(orders[id]),
    ensures
        match_prefix(orders, book, taker, n).0.contains_key(id) ==> {
            let o = match_prefix(orders, book, taker, n).0[id];
            &&& orders.contains_key(id)
            &&& order_wf(o)
            &&& orders[id].filled <= o.filled
            &&& o == (Order { filled: o.filled, active: o.active, ..orders[id] })
        },
    decreases n,
{
    if n > 0 && n <= book.len() {
        lemma_match_fills_within_size(orders, book, taker, (n - 1) as nat, id);
    }
}

/// An execution that respects the incoming order's limit: it trades a
/// positive amount between the taker and another user, at a price no worse
/// for the taker than its own (at least an ask's price, at most a bid's).
pub open spec fn within_taker_limit(e: OrderbookEvent, taker: Order) -> bool {
    e matches OrderbookEvent::OrderExecuted { maker, taker: t, amount, price, .. } && t == taker.user
        && maker != taker.user && amount > 0 && (taker.side == OrderSide::Ask ==> price
        >= taker.price_bps) && (taker.side == OrderSide::Bid ==> price <= taker.price_bps)
}

/// Every execution made while matching an order respects that order's
/// price limit and trades a positive amount with another user.
pub proof fn lemma_executions_within_limit(orders: Map<u64, Order>, book: Seq<u64>, taker: Order, n: nat)
    requires
        order_wf(taker),
    ensures
        forall|i: int|
            0 <= i < match_prefix(orders, book, taker, n).2.len() ==> within_taker_limit(
                #[trigger] match_prefix(orders, book, taker, n).2[i],
                taker,
            ),
    decreases n,
{
    if n > 0 && n <= book.len() {
        lemma_executions_within_limit(orders, book, taker, (n - 1) as nat);
        let prev = match_prefix(orders, book, taker, (n - 1) as nat);
        let cur = match_prefix(orders, book, taker, n);
        let id = book[n - 1];
        assert(cur == match_step(prev, taker, id));
        if prev.1 >= MAX_MATCHES_PER_ORDER || !prev.0.contains_key(id) || !can_match(prev.0[id], taker) {
            assert(cur == prev);
        } else {
            let maker = prev.0[id];
            let fill = fill_amount(maker, taker);
            let e = OrderbookEvent::OrderExecuted {
                maker: maker.user,
                taker: taker.user,
                call_id: taker.call_id,
                outcome: taker.outcome,
                amount: fill as i128,
                price: maker.price_bps,
            };
            assert(cur.2 == prev.2.push(e));
            assert(fill > 0);
            assert(within_taker_limit(e, taker));
            assert forall|i: int| 0 <= i < cur.2.len() implies within_taker_limit(#[trigger] cur.2[i], taker) by {
                if i < prev.2.len() {
                    assert(cur.2[i] == prev.2[i]);
                }
            }
        }
    }
}

/// The first listed order that the incoming order can trade with (active,
/// of another user, with something left, priced within the incoming order's
/// limit) is executed first, for as much as both have left.
pub proof fn lemma_first_compatible_order_executes(orders: Map<u64, Order>, book: Seq<u64>, taker: Order)
    requires
        book.len() > 0,
        orders.contains_key(book[0]),
        orders[book[0]].active,
        orders[book[0]].user != taker.user,
        orders[book[0]].amount - orders[book[0]].filled > 0,
        taker.amount - taker.filled > 0,
        taker.side == OrderSide::Ask ==> orders[book[0]].price_bps >= taker.price_bps,
        taker.side == OrderSide::Bid ==> orders[book[0]].price_bps <= taker.price_bps,
    ensures
        ({
            let maker = orders[book[0]];
            let t = taker.amount - taker.filled;
            let m = maker.amount - maker.filled;
            let res = match_all(orders, book, taker);
            &&& res.1 >= 1
            &&& res.2.len() >= 1
            &&& res.2[0] == (OrderbookEvent::OrderExecuted {
                maker: maker.user,
                taker: taker.user,
                call_id: taker.call_id,
                outcome: taker.outcome,
                amount: (if t <= m { t } else { m }) as i128,
                price: maker.price_bps,
            })
        }),
{
    lemma_first_execution_kept(orders, book, taker, book.len());
}

proof fn lemma_first_execution_kept(orders: Map<u64, Order>, book: Seq<u64>, taker: Order, n: nat)
    requires
        1 <= n <= book.len(),
        orders.contains_key(book[0]),
        orders[book[0]].active,
        orders[book[0]].user != taker.user,
        orders[book[0]].amount - orders[book[0]].filled > 0,
        taker.amount - taker.filled > 0,
        taker.side == OrderSide::Ask ==> orders[book[0]].price_bps >= taker.price_bps,
        taker.side == OrderSide::Bid ==> orders[book[0]].price_bps <= taker.price_bps,
    ensures
        ({
            let maker = orders[book[0]];
            let t = taker.amount - taker.filled;
            let m = maker.amount - maker.filled;
            let res = match_prefix(orders, book, taker, n);
            &&& res.1 >= 1
            &&& res.2.len() >= 1
            &&& res.2[0] == (OrderbookEvent::OrderExecuted {
                maker: maker.user,
                taker: taker.user,
                call_id: taker.call_id,
                outcome: taker.outcome,
                amount: (if t <= m { t } else { m }) as i128,
                price: maker.price_bps,
            })
        }),
    decreases n,
{
    if n == 1 {
        assert(match_prefix(orders, book, taker, 0) == (orders, 0nat, Seq::<OrderbookEvent>::empty()));
    } else {
        lemma_first_execution_kept(orders, book, taker, (n - 1) as nat);
    }
}

/// Once `MAX_MATCHES_PER_ORDER` matches are made, the remaining book changes nothing.
proof fn lemma_match_saturated(orders: Map<u64, Order>, book: Seq<u64>, taker: Order, n: nat)
    requires
        n <= book.len(),
        match_prefix(orders, book, taker, n).1 >= MAX_MATCHES_PER_ORDER,
    ensures
        match_all(orders, book, taker) == match_prefix(orders, book, taker, n),
    decreases book.len() - n,
{
    if n < book.len() {
        assert(match_prefix(orders, book, taker, (n + 1) as nat) == match_prefix(
            orders,
            book,
            taker,
            n,
        ));
        lemma_match_saturated(orders, book, taker, (n + 1) as nat);
    }
}

} // verus!
