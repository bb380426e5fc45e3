use vstd::prelude::*;
use crate::error::{ConnectorError, ExchangeError};
use crate::ticker::{base_symbol, has_usd_marker};
use crate::types::{Order, Position};

verus! {

/// Where a reconciliation stands: which exchange answer it waits for.
#[derive(Clone, Copy, Debug, PartialEq, Eq, Structural)]
pub enum Stage {
    /// Closing: waits for the cancellation of resting orders.
    AwaitingCancel,
    /// Closing: waits for the live position after the cancellation.
    AwaitingCloseCheck,
    /// Reversing: waits for the live position.
    AwaitingReverseCheck,
    /// Waits for the outcome of the order placement.
    AwaitingPlacement,
    /// Nothing more to do.
    Done,
}

/// The next thing to do, for the code that talks to the exchange.
#[derive(Debug, PartialEq, Eq)]
pub enum Step {
    /// Cancel every resting order for the asset.
    CancelOrders,
    /// Query the live position for the asset.
    QueryPosition,
    /// Place the order, reduce-only exactly when it closes a position.
    PlaceOrder,
    /// The reconciliation is over, with this outcome.
    Finish(Result<(), ConnectorError>),
}

/// What the exchange answered to the last step.
#[derive(Debug)]
pub enum Event {
    Cancelled(Result<bool, ExchangeError>),
    Queried(Result<Position, ExchangeError>),
    Placed(Result<(), ExchangeError>),
}

/// The reconciliation of one signal against the live exchange state.
#[derive(Debug)]
pub struct Reconciliation {
    /// The signal; only `contracts` changes, doubled at most once.
    pub order: Order,
    /// The normalised ticker used for every exchange call.
    pub asset: String,
    pub stage: Stage,
}

/// The largest quantity that can still be doubled.
pub const MAX_DOUBLABLE: u64 = 0x7fff_ffff_ffff_ffff;

/// The stage a reconciliation starts in.
pub open spec fn initial_stage(o: Order) -> Stage {
    if o.closing() {
        Stage::AwaitingCancel
    } else if o.reversing() {
        Stage::AwaitingReverseCheck
    } else {
        Stage::AwaitingPlacement
    }
}

/// The step that a stage asks for.
pub open spec fn pending_step(stage: Stage) -> Step {
    match stage {
        Stage::AwaitingCancel => Step::CancelOrders,
        Stage::AwaitingCloseCheck => Step::QueryPosition,
        Stage::AwaitingReverseCheck => Step::QueryPosition,
        Stage::AwaitingPlacement => Step::PlaceOrder,
        Stage::Done => Step::Finish(Ok(())),
    }
}

/// The event answers the step that the stage asked for.
pub open spec fn answers(stage: Stage, e: Event) -> bool {
    match stage {
        Stage::AwaitingCancel => e is Cancelled,
        Stage::AwaitingCloseCheck => e is Queried,
        Stage::AwaitingReverseCheck => e is Queried,
        Stage::AwaitingPlacement => e is Placed,
        Stage::Done => false,
    }
}

/// A live position calls for doubling when it is neither flat nor already
/// the target.
pub open spec fn needs_doubling(live: Position, target: Position) -> bool {
    live != Position::Flat && live != target
}

/// The stage after `e` arrives in `stage`.
pub open spec fn next_stage(stage: Stage, e: Event) -> Stage {
    match e {
        Event::Cancelled(Ok(_)) => Stage::AwaitingCloseCheck,
        Event::Queried(Ok(p)) => if stage == Stage::AwaitingCloseCheck && p == Position::Flat {
            Stage::Done
        } else {
            Stage::AwaitingPlacement
        },
        _ => Stage::Done,
    }
}

/// The step after `e` arrives in `stage`.
pub open spec fn next_step(stage: Stage, e: Event) -> Step {
    match e {
        Event::Cancelled(Err(x)) => Step::Finish(Err(ConnectorError::Exchange(x))),
        Event::Queried(Err(x)) => Step::Finish(Err(ConnectorError::Exchange(x))),
        Event::Placed(Err(x)) => Step::Finish(Err(ConnectorError::Exchange(x))),
        Event::Placed(Ok(_)) => Step::Finish(Ok(())),
        _ => pending_step(next_stage(stage, e)),
    }
}

/// The contracts after `e` arrives in `stage`: doubled when a reversal meets
/// a live position on the other side.
pub open spec fn next_contracts(stage: Stage, e: Event, target: Position, contracts: u64) -> u64 {
    match e {
        Event::Queried(Ok(p)) => if stage == Stage::AwaitingReverseCheck && needs_doubling(
            p,
            target,
        ) {
            (2 * contracts) as u64
        } else {
            contracts
        },
        _ => contracts,
    }
}

impl Reconciliation {
    pub open spec fn wf(&self) -> bool {
        &&& has_usd_marker(self.order.ticker@)
        &&& self.asset@ == base_symbol(self.order.ticker@)
        &&& (self.stage == Stage::AwaitingCancel || self.stage == Stage::AwaitingCloseCheck)
            ==> self.order.closing()
        &&& self.stage == Stage::AwaitingReverseCheck ==> self.order.reversing()
            && self.order.contracts <= MAX_DOUBLABLE
    }

    /// Starts reconciling `order`. Fails with `InvalidTicker`, before any
    /// exchange call, when the ticker has no USD marker.
    pub fn begin(order: Order) -> (r: Result<(Reconciliation, Step), ConnectorError>)
        requires
            order.reversing() ==> order.contracts <= MAX_DOUBLABLE,
        ensures
            r is Ok <==> has_usd_marker(order.ticker@),
            r matches Err(e) ==> e == ConnectorError::InvalidTicker,
            r matches Ok((rc, step)) ==> {
                &&& rc.wf()
                &&& rc.order == order
                &&& rc.asset@ == base_symbol(order.ticker@)
                &&& rc.stage == initial_stage(order)
                &&& step == pending_step(rc.stage)
            },
    {
        let asset = match order.normalise_ticker(order.ticker.as_str()) {
            Ok(a) => a,
            Err(e) => {
                return Err(e);
            },
        };
        let stage = if order.is_close_position() {
            Stage::AwaitingCancel
        } else if order.is_reverse_position() {
            Stage::AwaitingReverseCheck
        } else {
            Stage::AwaitingPlacement
        };
        let step = match stage {
            Stage::AwaitingCancel => Step::CancelOrders,
            Stage::AwaitingReverseCheck => Step::QueryPosition,
            _ => Step::PlaceOrder,
        };
        Ok((Reconciliation { order, asset, stage }, step))
    }

    /// Whether the order is to be placed reduce-only: exactly when it closes
    /// a position, whatever the caller's hint says.
    pub fn reduce_only(&self) -> (r: bool)
        ensures
            r == self.order.closing(),
    {
        self.order.is_close_position()
    }

    /// Takes the exchange's answer to the pending step and returns the next
    /// step. Any exchange failure ends the reconciliation with that failure.
    pub fn advance(&mut self, e: Event) -> (step: Step)
        requires
            old(self).wf(),
            answers(old(self).stage, e),
        ensures
            final(self).wf(),
            final(self).asset == old(self).asset,
            final(self).order == (Order {
                contracts: next_contracts(
                    old(self).stage,
                    e,
                    old(self).order.position,
                    old(self).order.contracts,
                ),
                ..old(self).order
            }),
            final(self).stage == next_stage(old(self).stage, e),
            step == next_step(old(self).stage, e),
    {
        match e {
            Event::Cancelled(Ok(_)) => {
                self.stage = Stage::AwaitingCloseCheck;
                Step::QueryPosition
            },
            Event::Queried(Ok(p)) => {
                if self.stage == Stage::AwaitingCloseCheck && p == Position::Flat {
                    self.stage = Stage::Done;
                    Step::Finish(Ok(()))
                } else {
                    if self.stage == Stage::AwaitingReverseCheck && p != Position::Flat && p
                        != self.order.position {
                        self.order.contracts = self.order.contracts * 2;
                    }
                    self.stage = Stage::AwaitingPlacement;
                    Step::PlaceOrder
                }
            },
            Event::Placed(Ok(_)) => {
                self.stage = Stage::Done;
                Step::Finish(Ok(()))
            },
            Event::Cancelled(Err(x)) => {
                self.stage = Stage::Done;
                Step::Finish(Err(ConnectorError::Exchange(x)))
            },
            Event::Queried(Err(x)) => {
                self.stage = Stage::Done;
                Step::Finish(Err(ConnectorError::Exchange(x)))
            },
            Event::Placed(Err(x)) => {
                self.stage = Stage::Done;
                Step::Finish(Err(ConnectorError::Exchange(x)))
            },
        }
    }
}

/// Closing cancels resting orders before anything else, and after the
/// cancellation it queries the live position before any placement.
pub proof fn lemma_close_cancels_first(o: Order, e: Event)
    requires
        o.closing(),
        answers(initial_stage(o), e),
    ensures
        pending_step(initial_stage(o)) == Step::CancelOrders,
        next_step(initial_stage(o), e) != Step::PlaceOrder,
        e matches Event::Cancelled(Ok(_)) ==> next_step(initial_stage(o), e)
            == Step::QueryPosition,
{
}

/// A reconciliation never returns to the reversal check, and only that check
/// changes `contracts`: the doubling happens at most once per signal.
pub proof fn lemma_doubling_at_most_once(stage: Stage, e: Event, target: Position, c: u64)
    ensures
        next_stage(stage, e) != Stage::AwaitingReverseCheck,
        stage != Stage::AwaitingReverseCheck ==> next_contracts(stage, e, target, c) == c,
{
}

} // verus!
