//! The order-lifecycle state machine of one trade cycle.
//!
//! A cycle tracks one spot limit buy: fill events for that order grow the
//! unhedged quantity, each growth asks the hedge accumulator for a futures
//! sell, and the executed part of every sell shrinks the unhedged quantity
//! again. The worker that blocks on feeds and talks to the order gateway
//! lives outside the library; it feeds events in and executed sizes back.

use crate::hedge::HedgeAccumulator;
use crate::step_grid::lemma_step_floor_bounds;
use vstd::prelude::*;

verus! {

/// The lifecycle stage a fill notification reports for the spot order.
#[derive(Clone, Copy, Debug, PartialEq, Eq, Structural)]
pub enum OrderStatus {
    /// The order is resting; nothing has traded.
    New,
    /// Part of the order traded in this event.
    PartiallyFilled,
    /// The rest of the order traded in this event; the cycle ends.
    Filled,
    /// Any other venue status: logged by the caller, ignored here.
    Other,
}

/// One decoded fill notification from the private account stream.
#[derive(Clone, Copy, Debug, PartialEq, Eq, Structural)]
pub struct FillEvent {
    /// The order the event belongs to.
    pub order_id: u64,
    /// The lifecycle stage reported.
    pub status: OrderStatus,
    /// Atoms that traded in this event alone.
    pub qty_last_filled_trade: u64,
    /// Atoms traded so far over the order's whole life.
    pub accumulated_qty_filled_trades: u64,
    /// Atoms the order asked for in total.
    pub total_order_qty: u64,
}

impl FillEvent {
    /// The quantities are consistent: no single trade exceeds the running
    /// total, which never exceeds the order's size.
    pub open spec fn wf(self) -> bool {
        self.qty_last_filled_trade <= self.accumulated_qty_filled_trades
            <= self.total_order_qty
    }

    /// Atoms still open on the spot order after this event.
    pub open spec fn spec_remains_to_buy(self) -> u64 {
        (self.total_order_qty - self.accumulated_qty_filled_trades) as u64
    }
}

/// The private fill stream: its worker decodes venue notifications outside
/// the library and hands each through `normalize` before the engine sees it.
pub struct SpotUserTradesObserver {}

impl SpotUserTradesObserver {
    /// Check a decoded fill notification's quantities and build the event the
    /// engine consumes; `None` rejects an inconsistent notification.
    pub fn normalize(
        order_id: u64,
        status: OrderStatus,
        qty_last_filled_trade: u64,
        accumulated_qty_filled_trades: u64,
        total_order_qty: u64,
    ) -> (r: Option<FillEvent>)
        ensures
            r is Some <==> qty_last_filled_trade <= accumulated_qty_filled_trades
                <= total_order_qty,
            r matches Some(ev) ==> ev == (FillEvent {
                order_id,
                status,
                qty_last_filled_trade,
                accumulated_qty_filled_trades,
                total_order_qty,
            }) && ev.wf(),
    {
        if qty_last_filled_trade <= accumulated_qty_filled_trades
            && accumulated_qty_filled_trades <= total_order_qty {
            Some(
                FillEvent {
                    order_id,
                    status,
                    qty_last_filled_trade,
                    accumulated_qty_filled_trades,
                    total_order_qty,
                },
            )
        } else {
            None
        }
    }
}

/// One trade cycle's state: the tracked spot order and its running hedge
/// accounting.
#[derive(Clone, Copy, Debug, PartialEq, Eq, Structural)]
pub struct ExecutionEngine {
    /// The spot order this cycle tracks; events for any other order are
    /// ignored.
    pub order_id: u64,
    /// The futures sizing rules in force for this cycle.
    pub accumulator: HedgeAccumulator,
    /// Atoms filled on spot but not yet hedged.
    pub available_to_sell: u64,
    /// Atoms filled on spot over the cycle so far.
    pub total_filled: u64,
    /// Atoms sold on futures over the cycle so far.
    pub total_hedged: u64,
    /// Whether the terminal FILLED event has been consumed.
    pub done: bool,
}

impl ExecutionEngine {
    /// The cycle's accounting is consistent: the unhedged quantity is exactly
    /// what filled minus what was hedged, and never negative.
    pub open spec fn wf(self) -> bool {
        &&& self.accumulator.wf()
        &&& self.total_hedged <= self.total_filled
        &&& self.available_to_sell == self.total_filled - self.total_hedged
    }

    /// Whether the engine lets this event pass without touching its state:
    /// another order's event, a resting-order notice, or an unknown status.
    pub open spec fn spec_ignores(self, ev: FillEvent) -> bool {
        ||| ev.order_id != self.order_id
        ||| ev.status is New
        ||| ev.status is Other
    }

    /// A fresh cycle tracking a just-placed spot order: nothing filled,
    /// nothing hedged.
    pub fn start_cycle(order_id: u64, accumulator: HedgeAccumulator) -> (r: Self)
        requires
            accumulator.wf(),
        ensures
            r == (ExecutionEngine {
                order_id,
                accumulator,
                available_to_sell: 0,
                total_filled: 0,
                total_hedged: 0,
                done: false,
            }),
            r.wf(),
    {
        ExecutionEngine {
            order_id,
            accumulator,
            available_to_sell: 0,
            total_filled: 0,
            total_hedged: 0,
            done: false,
        }
    }

    /// Consume one fill event, in delivery order. Events that are not a
    /// partial or terminal fill of the tracked order leave the state
    /// untouched. A fill grows the unhedged quantity and asks the
    /// accumulator for the next futures sell: the returned size, if any, is
    /// for the caller to submit, reporting back through `on_hedge_result`.
    /// The terminal fill flushes (`remains_to_buy` forced to zero) and ends
    /// the cycle.
    pub fn on_fill_event(&mut self, ev: &FillEvent) -> (r: Option<u64>)
        requires
            old(self).wf(),
            !old(self).done,
            ev.wf(),
            old(self).total_filled + ev.qty_last_filled_trade <= u64::MAX,
        ensures
            final(self).order_id == old(self).order_id,
            final(self).accumulator == old(self).accumulator,
            final(self).total_hedged == old(self).total_hedged,
            old(self).spec_ignores(*ev) ==> *final(self) == *old(self) && r is None,
            !old(self).spec_ignores(*ev) ==> {
                &&& final(self).total_filled == old(self).total_filled
                    + ev.qty_last_filled_trade
                &&& final(self).available_to_sell == old(self).available_to_sell
                    + ev.qty_last_filled_trade
                &&& final(self).done == (ev.status is Filled)
                &&& ev.status is PartiallyFilled ==> r == old(self).accumulator.spec_size_to_sell(
                    final(self).available_to_sell,
                    ev.spec_remains_to_buy(),
                )
                &&& ev.status is Filled ==> r == old(self).accumulator.spec_size_to_sell(
                    final(self).available_to_sell,
                    0,
                )
            },
            r matches Some(s) ==> s <= final(self).available_to_sell,
            final(self).wf(),
    {
        if ev.order_id != self.order_id {
            return None;
        }
        match ev.status {
            OrderStatus::New => None,
            OrderStatus::Other => None,
            OrderStatus::PartiallyFilled => {
                self.available_to_sell = self.available_to_sell + ev.qty_last_filled_trade;
                self.total_filled = self.total_filled + ev.qty_last_filled_trade;
                let remains_to_buy: u64 = ev.total_order_qty - ev.accumulated_qty_filled_trades;
                self.accumulator.calculate_size_to_sell_on_futures(
                    self.available_to_sell,
                    remains_to_buy,
                )
            },
            OrderStatus::Filled => {
                self.available_to_sell = self.available_to_sell + ev.qty_last_filled_trade;
                self.total_filled = self.total_filled + ev.qty_last_filled_trade;
                self.done = true;
                self.accumulator.calculate_size_to_sell_on_futures(self.available_to_sell, 0)
            },
        }
    }

    /// Record how much of a proposed futures sell actually executed: that
    /// much of the unhedged quantity is now covered. A failed submission
    /// reports zero, leaving the shortfall for the next opportunity.
    pub fn on_hedge_result(&mut self, executed_size: u64)
        requires
            old(self).wf(),
            executed_size <= old(self).available_to_sell,
        ensures
            final(self).available_to_sell == old(self).available_to_sell - executed_size,
            final(self).total_hedged == old(self).total_hedged + executed_size,
            final(self).total_filled == old(self).total_filled,
            final(self).order_id == old(self).order_id,
            final(self).accumulator == old(self).accumulator,
            final(self).done == old(self).done,
            final(self).wf(),
    {
        self.available_to_sell = self.available_to_sell - executed_size;
        self.total_hedged = self.total_hedged + executed_size;
    }
}

/// Hedge conservation: over a cycle the unhedged quantity is always exactly
/// the total filled minus the total hedged (the engine's invariant), and the
/// terminal flush proposed on the FILLED event, once executed in full, brings
/// the total hedged to the total filled short only of a remainder below one
/// size step.
pub proof fn lemma_hedge_conservation(pre: ExecutionEngine, ev: FillEvent)
    requires
        pre.wf(),
        !pre.done,
        ev.wf(),
        ev.order_id == pre.order_id,
        ev.status is Filled,
        pre.total_filled + ev.qty_last_filled_trade <= u64::MAX,
    ensures
        ({
            let filled = pre.total_filled + ev.qty_last_filled_trade;
            let unhedged = pre.available_to_sell + ev.qty_last_filled_trade;
            let flush = pre.accumulator.spec_size_to_sell(unhedged as u64, 0);
            &&& flush is Some
            &&& pre.total_hedged + flush->Some_0 <= filled
            &&& filled - (pre.total_hedged + flush->Some_0) < pre.accumulator.size_step
        }),
{
    let unhedged: int = pre.available_to_sell + ev.qty_last_filled_trade;
    lemma_step_floor_bounds(unhedged, pre.accumulator.size_step as int);
}

} // verus!
