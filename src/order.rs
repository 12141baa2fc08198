//! Order execution: validation of trade instructions, construction of the
//! brokerage order call, and normalisation of the brokerage's answer.
//!
//! Prices are integers in the smallest currency unit (paise).

use vstd::prelude::*;
use crate::text::same_text;

verus! {

/// A trade instruction as received at the boundary.
#[derive(Debug, Clone)]
pub struct TradeInstruction {
    /// `buy`, `sell` or `cancel`.
    pub action: String,
    pub symbol: String,
    pub exchange: String,
    pub quantity: u32,
    /// `MARKET` or `LIMIT`.
    pub price_type: String,
    pub limit_price: Option<i64>,
    pub stop_loss: Option<i64>,
    pub target: Option<i64>,
    pub order_id: Option<String>,
    /// Ranking window in seconds, for the best-performer symbol.
    pub timeframe: Option<u64>,
}

/// Why an instruction was not carried out.
#[derive(Debug, Clone, PartialEq, Eq)]
pub enum OrderError {
    /// The action is none of `buy`, `sell`, `cancel`.
    UnsupportedAction(String),
    /// A buy or sell without a symbol.
    MissingSymbol,
    /// A buy or sell without an exchange.
    MissingExchange,
    /// A buy or sell of quantity zero.
    InvalidQuantity,
    /// The price type is neither `MARKET` nor `LIMIT`.
    UnsupportedPriceType(String),
    /// A `LIMIT` order without a limit price.
    MissingLimitPrice,
    /// A cancellation without the id of the order to cancel.
    MissingCancelOrderId,
    /// The brokerage refused the call or could not be reached.
    BrokerRejected(String),
    /// The brokerage accepted the call but answered without an order id.
    MissingOrderId,
}

#[derive(Debug, Clone, Copy, PartialEq, Eq)]
pub enum Side {
    Buy,
    Sell,
}

#[derive(Debug, Clone, Copy, PartialEq, Eq)]
pub enum OrderType {
    Market,
    Limit,
}

/// Parameters of one order placement.
#[derive(Debug, Clone)]
pub struct OrderRequest {
    pub exchange: String,
    pub tradingsymbol: String,
    pub side: Side,
    pub quantity: u32,
    pub order_type: OrderType,
    /// Product type; always cash-and-carry (`CNC`).
    pub product: String,
    /// Validity; always a day order (`DAY`).
    pub validity: String,
    /// Order variety; always `regular`.
    pub variety: String,
    /// Limit price, passed through from the instruction.
    pub price: Option<i64>,
    /// Stop-loss, passed through from the instruction.
    pub stop_loss: Option<i64>,
}

/// The one brokerage call an instruction leads to.
#[derive(Debug, Clone)]
pub enum OrderCall {
    Place(OrderRequest),
    Cancel { order_id: String, variety: String },
}

/// Symbol that asks for the best performer of the watchlist instead of an order.
pub open spec fn best_performer_symbol() -> Seq<char> {
    "BEST PERFORMER"@
}

/// Ranking window used when an instruction gives none, in seconds.
pub const DEFAULT_TIMEFRAME_SECS: u64 = 20;

/// What a request for `/trade` turns into.
#[derive(Debug, Clone, Copy, PartialEq, Eq)]
pub enum TradePlan {
    /// Rank the watchlist over the last `window_secs` seconds.
    RankBest { window_secs: u64 },
    /// Execute the instruction as an order.
    Execute,
}

/// Decides whether an instruction asks for ranking or for an order.
pub fn plan_trade(instruction: &TradeInstruction) -> (r: TradePlan)
    ensures
        instruction.symbol@ == best_performer_symbol() ==> r == (TradePlan::RankBest {
            window_secs: match instruction.timeframe {
                Some(w) => w,
                None => DEFAULT_TIMEFRAME_SECS,
            },
        }),
        instruction.symbol@ != best_performer_symbol() ==> r == TradePlan::Execute,
{
    if same_text(instruction.symbol.as_str(), "BEST PERFORMER") {
        let window_secs = match instruction.timeframe {
            Some(w) => w,
            None => DEFAULT_TIMEFRAME_SECS,
        };
        TradePlan::RankBest { window_secs }
    } else {
        TradePlan::Execute
    }
}

/// The request a valid buy or sell instruction becomes.
pub open spec fn request_matches(q: OrderRequest, i: TradeInstruction, side: Side) -> bool {
    &&& q.exchange@ == i.exchange@
    &&& q.tradingsymbol@ == i.symbol@
    &&& q.side == side
    &&& q.quantity == i.quantity
    &&& q.order_type == (if i.price_type@ == "LIMIT"@ { OrderType::Limit } else { OrderType::Market })
    &&& q.product@ == "CNC"@
    &&& q.validity@ == "DAY"@
    &&& q.variety@ == "regular"@
    &&& q.price == i.limit_price
    &&& q.stop_loss == i.stop_loss
}

/// The outcome of validating and building a buy or sell instruction.
pub open spec fn order_outcome(r: Result<OrderRequest, OrderError>, i: TradeInstruction, side: Side) -> bool {
    if i.symbol@.len() == 0 {
        r == Err::<OrderRequest, OrderError>(OrderError::MissingSymbol)
    } else if i.exchange@.len() == 0 {
        r == Err::<OrderRequest, OrderError>(OrderError::MissingExchange)
    } else if i.quantity == 0 {
        r == Err::<OrderRequest, OrderError>(OrderError::InvalidQuantity)
    } else if i.price_type@ == "MARKET"@ {
        r is Ok && request_matches(r->Ok_0, i, side)
    } else if i.price_type@ == "LIMIT"@ {
        if i.limit_price.is_none() {
            r == Err::<OrderRequest, OrderError>(OrderError::MissingLimitPrice)
        } else {
            r is Ok && request_matches(r->Ok_0, i, side)
        }
    } else {
        r is Err && r->Err_0 is UnsupportedPriceType && r->Err_0->UnsupportedPriceType_0@ == i.price_type@
    }
}

/// The outcome of validating a cancel instruction.
pub open spec fn cancel_outcome(r: Result<String, OrderError>, i: TradeInstruction) -> bool {
    match i.order_id {
        Some(id) => if id@.len() > 0 {
            r is Ok && r->Ok_0@ == id@
        } else {
            r == Err::<String, OrderError>(OrderError::MissingCancelOrderId)
        },
        None => r == Err::<String, OrderError>(OrderError::MissingCancelOrderId),
    }
}

fn build_order(instruction: &TradeInstruction, side: Side) -> (r: Result<OrderRequest, OrderError>)
    ensures
        order_outcome(r, *instruction, side),
{
    if instruction.symbol.as_str().is_empty() {
        return Err(OrderError::MissingSymbol);
    }
    if instruction.exchange.as_str().is_empty() {
        return Err(OrderError::MissingExchange);
    }
    if instruction.quantity == 0 {
        return Err(OrderError::InvalidQuantity);
    }
    let order_type = if same_text(instruction.price_type.as_str(), "MARKET") {
        OrderType::Market
    } else if same_text(instruction.price_type.as_str(), "LIMIT") {
        if instruction.limit_price.is_none() {
            return Err(OrderError::MissingLimitPrice);
        }
        OrderType::Limit
    } else {
        return Err(OrderError::UnsupportedPriceType(instruction.price_type.clone()));
    };
    proof {
        reveal_strlit("MARKET");
        reveal_strlit("LIMIT");
        assert("MARKET"@.len() != "LIMIT"@.len());
    }
    Ok(OrderRequest {
        exchange: instruction.exchange.clone(),
        tradingsymbol: instruction.symbol.clone(),
        side,
        quantity: instruction.quantity,
        order_type,
        product: "CNC".to_owned(),
        validity: "DAY".to_owned(),
        variety: "regular".to_owned(),
        price: instruction.limit_price,
        stop_loss: instruction.stop_loss,
    })
}

/// The outcome of executing an instruction: the call a valid instruction
/// leads to, or the reason it is rejected.
pub open spec fn execute_outcome(r: Result<OrderCall, OrderError>, i: TradeInstruction, variety: Seq<char>) -> bool {
    &&& (i.action@ == "buy"@ ==> match r {
            Ok(OrderCall::Place(q)) => order_outcome(Ok(q), i, Side::Buy),
            Ok(OrderCall::Cancel { .. }) => false,
            Err(e) => order_outcome(Err(e), i, Side::Buy),
        })
    &&& (i.action@ == "sell"@ ==> match r {
            Ok(OrderCall::Place(q)) => order_outcome(Ok(q), i, Side::Sell),
            Ok(OrderCall::Cancel { .. }) => false,
            Err(e) => order_outcome(Err(e), i, Side::Sell),
        })
    &&& (i.action@ == "cancel"@ ==> match r {
            Ok(OrderCall::Place(_)) => false,
            Ok(OrderCall::Cancel { order_id, variety: v }) =>
                cancel_outcome(Ok(order_id), i) && v@ == variety,
            Err(e) => cancel_outcome(Err(e), i),
        })
    &&& (i.action@ != "buy"@ && i.action@ != "sell"@ && i.action@ != "cancel"@ ==>
            r is Err && r->Err_0 is UnsupportedAction && r->Err_0->UnsupportedAction_0@ == i.action@)
}

/// Drives trade instructions through validation, request construction and
/// completion; the brokerage call between the last two is made by the caller.
pub struct TradeExecutor {
    /// Order variety used for every call (`regular`).
    pub variety: String,
}

impl TradeExecutor {
    pub fn new() -> (r: Self)
        ensures
            r.variety@ == "regular"@,
    {
        TradeExecutor { variety: "regular".to_owned() }
    }

    /// Validates a buy instruction and builds its order request.
    pub fn place_buy_order(&self, instruction: &TradeInstruction) -> (r: Result<OrderRequest, OrderError>)
        ensures
            order_outcome(r, *instruction, Side::Buy),
    {
        build_order(instruction, Side::Buy)
    }

    /// Validates a sell instruction and builds its order request.
    pub fn place_sell_order(&self, instruction: &TradeInstruction) -> (r: Result<OrderRequest, OrderError>)
        ensures
            order_outcome(r, *instruction, Side::Sell),
    {
        build_order(instruction, Side::Sell)
    }

    /// Validates a cancel instruction and returns the id of the order to cancel.
    pub fn cancel_order(&self, instruction: &TradeInstruction) -> (r: Result<String, OrderError>)
        ensures
            cancel_outcome(r, *instruction),
    {
        match &instruction.order_id {
            Some(id) => {
                if id.as_str().is_empty() {
                    Err(OrderError::MissingCancelOrderId)
                } else {
                    Ok(id.clone())
                }
            },
            None => Err(OrderError::MissingCancelOrderId),
        }
    }

    /// Validates an instruction and builds the one brokerage call it leads to.
    /// No call is made here: a rejected instruction never reaches the brokerage.
    pub fn execute_instructions(&self, instruction: &TradeInstruction) -> (r: Result<OrderCall, OrderError>)
        ensures
            execute_outcome(r, *instruction, self.variety@),
    {
        proof {
            reveal_strlit("buy");
            reveal_strlit("sell");
            reveal_strlit("cancel");
            assert("buy"@.len() == 3 && "sell"@.len() == 4 && "cancel"@.len() == 6);
        }
        let action = instruction.action.as_str();
        if same_text(action, "buy") {
            match self.place_buy_order(instruction) {
                Ok(q) => Ok(OrderCall::Place(q)),
                Err(e) => Err(e),
            }
        } else if same_text(action, "sell") {
            match self.place_sell_order(instruction) {
                Ok(q) => Ok(OrderCall::Place(q)),
                Err(e) => Err(e),
            }
        } else if same_text(action, "cancel") {
            match self.cancel_order(instruction) {
                Ok(id) => Ok(OrderCall::Cancel { order_id: id, variety: self.variety.clone() }),
                Err(e) => Err(e),
            }
        } else {
            Err(OrderError::UnsupportedAction(instruction.action.clone()))
        }
    }

    /// Turns the brokerage's answer to `call` into the order id returned to the
    /// caller. `response` is `Err(details)` when the call failed, otherwise the
    /// `order_id` field of the answer, if any.
    pub fn complete_order(&self, call: &OrderCall, response: Result<Option<String>, String>) -> (r: Result<String, OrderError>)
        ensures
            match (call, response) {
                (_, Err(d)) => r is Err && r->Err_0 is BrokerRejected && r->Err_0->BrokerRejected_0@ == d@,
                (OrderCall::Cancel { order_id, .. }, Ok(_)) => r is Ok && r->Ok_0@ == order_id@,
                (OrderCall::Place(_), Ok(Some(id))) => if id@.len() > 0 {
                    r is Ok && r->Ok_0@ == id@
                } else {
                    r == Err::<String, OrderError>(OrderError::MissingOrderId)
                },
                (OrderCall::Place(_), Ok(None)) => r == Err::<String, OrderError>(OrderError::MissingOrderId),
            },
    {
        match response {
            Err(d) => Err(OrderError::BrokerRejected(d)),
            Ok(answer) => match call {
                OrderCall::Cancel { order_id, .. } => Ok(order_id.clone()),
                OrderCall::Place(_) => match answer {
                    Some(id) => {
                        if id.as_str().is_empty() {
                            Err(OrderError::MissingOrderId)
                        } else {
                            Ok(id)
                        }
                    },
                    None => Err(OrderError::MissingOrderId),
                },
            },
        }
    }
}

/// A buy or sell instruction of price type `LIMIT` without a limit price is
/// rejected: no order call comes out of it.
pub proof fn lemma_limit_without_price_rejected(r: Result<OrderCall, OrderError>, i: TradeInstruction, variety: Seq<char>)
    requires
        execute_outcome(r, i, variety),
        i.action@ != "cancel"@,
        i.price_type@ == "LIMIT"@,
        i.limit_price.is_none(),
    ensures
        r is Err,
{
    reveal_strlit("buy");
    reveal_strlit("sell");
    reveal_strlit("cancel");
    reveal_strlit("LIMIT");
    reveal_strlit("MARKET");
    assert("buy"@.len() == 3 && "sell"@.len() == 4 && "cancel"@.len() == 6);
    assert("MARKET"@.len() != "LIMIT"@.len());
}

/// A cancellation without an order id is rejected as such: no call comes
/// out of it.
pub proof fn lemma_cancel_without_id_rejected(r: Result<OrderCall, OrderError>, i: TradeInstruction, variety: Seq<char>)
    requires
        execute_outcome(r, i, variety),
        i.action@ == "cancel"@,
        i.order_id.is_none(),
    ensures
        r == Err::<OrderCall, OrderError>(OrderError::MissingCancelOrderId),
{
}

} // verus!
