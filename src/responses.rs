//! Client-visible results of the boundary operations.

use vstd::prelude::*;
use vstd::string::*;
use crate::order::TradeInstruction;

verus! {

/// A failure as reported to the client.
#[derive(Debug, Clone, PartialEq, Eq)]
pub struct ErrorResponse {
    pub status: String,
    pub message: String,
}

impl ErrorResponse {
    /// A failure with status `Error` and the given message.
    pub fn error(message: String) -> (r: Self)
        ensures
            r.status@ == "Error"@,
            r.message@ == message@,
    {
        ErrorResponse { status: "Error".to_owned(), message }
    }
}

/// The result of a successful order submission; never changed afterwards.
#[derive(Debug, Clone, PartialEq, Eq)]
pub struct TradeResponse {
    pub order_id: String,
    pub status: String,
    pub message: String,
    pub symbol: String,
    pub quantity: u32,
    /// Limit price of the instruction, if it had one, in paise.
    pub price: Option<i64>,
    /// RFC 3339 time of the submission.
    pub timestamp: String,
}

impl TradeResponse {
    /// The result reported for `instruction` once the brokerage returned
    /// `order_id` at `timestamp`.
    pub fn placed(order_id: String, instruction: &TradeInstruction, timestamp: String) -> (r: Self)
        ensures
            r.order_id@ == order_id@,
            r.status@ == "Success"@,
            r.message@ == "Order placed successfully for: "@ + instruction.symbol@,
            r.symbol@ == instruction.symbol@,
            r.quantity == instruction.quantity,
            r.price == instruction.limit_price,
            r.timestamp@ == timestamp@,
    {
        let message = "Order placed successfully for: ".to_owned().concat(instruction.symbol.as_str());
        TradeResponse {
            order_id,
            status: "Success".to_owned(),
            message,
            symbol: instruction.symbol.clone(),
            quantity: instruction.quantity,
            price: instruction.limit_price,
            timestamp,
        }
    }
}

} // verus!
