use trade_gateway::order::{
    plan_trade, OrderCall, OrderError, OrderType, Side, TradeExecutor, TradeInstruction, TradePlan,
};
use trade_gateway::responses::{ErrorResponse, TradeResponse};

fn instruction(action: &str, price_type: &str) -> TradeInstruction {
    TradeInstruction {
        action: action.to_string(),
        symbol: "INFY".to_string(),
        exchange: "NSE".to_string(),
        quantity: 5,
        price_type: price_type.to_string(),
        limit_price: None,
        stop_loss: None,
        target: None,
        order_id: None,
        timeframe: None,
    }
}

#[test]
fn limit_without_price_is_rejected() {
    let ex = TradeExecutor::new();
    let r = ex.execute_instructions(&instruction("buy", "LIMIT"));
    assert_eq!(r.unwrap_err(), OrderError::MissingLimitPrice);
    let r = ex.execute_instructions(&instruction("sell", "LIMIT"));
    assert_eq!(r.unwrap_err(), OrderError::MissingLimitPrice);
}

#[test]
fn cancel_without_order_id_is_rejected() {
    let ex = TradeExecutor::new();
    let r = ex.execute_instructions(&instruction("cancel", "MARKET"));
    assert_eq!(r.unwrap_err(), OrderError::MissingCancelOrderId);
    let mut i = instruction("cancel", "MARKET");
    i.order_id = Some(String::new());
    assert_eq!(ex.execute_instructions(&i).unwrap_err(), OrderError::MissingCancelOrderId);
}

#[test]
fn cancel_with_order_id_builds_cancel_call() {
    let ex = TradeExecutor::new();
    let mut i = instruction("cancel", "MARKET");
    i.order_id = Some("240101000001".to_string());
    match ex.execute_instructions(&i).unwrap() {
        OrderCall::Cancel { order_id, variety } => {
            assert_eq!(order_id, "240101000001");
            assert_eq!(variety, "regular");
        }
        other => panic!("unexpected call {:?}", other),
    }
}

#[test]
fn unsupported_action_is_rejected() {
    let ex = TradeExecutor::new();
    let r = ex.execute_instructions(&instruction("hold", "MARKET"));
    assert_eq!(r.unwrap_err(), OrderError::UnsupportedAction("hold".to_string()));
}

#[test]
fn missing_fields_are_rejected() {
    let ex = TradeExecutor::new();
    let mut i = instruction("buy", "MARKET");
    i.symbol = String::new();
    assert_eq!(ex.place_buy_order(&i).unwrap_err(), OrderError::MissingSymbol);
    let mut i = instruction("buy", "MARKET");
    i.exchange = String::new();
    assert_eq!(ex.place_buy_order(&i).unwrap_err(), OrderError::MissingExchange);
    let mut i = instruction("sell", "MARKET");
    i.quantity = 0;
    assert_eq!(ex.place_sell_order(&i).unwrap_err(), OrderError::InvalidQuantity);
    let i = instruction("buy", "STOP");
    assert_eq!(ex.place_buy_order(&i).unwrap_err(), OrderError::UnsupportedPriceType("STOP".to_string()));
}

#[test]
fn market_buy_builds_request() {
    let ex = TradeExecutor::new();
    let mut i = instruction("buy", "MARKET");
    i.stop_loss = Some(150_000);
    match ex.execute_instructions(&i).unwrap() {
        OrderCall::Place(q) => {
            assert_eq!(q.side, Side::Buy);
            assert_eq!(q.order_type, OrderType::Market);
            assert_eq!(q.tradingsymbol, "INFY");
            assert_eq!(q.exchange, "NSE");
            assert_eq!(q.quantity, 5);
            assert_eq!(q.product, "CNC");
            assert_eq!(q.validity, "DAY");
            assert_eq!(q.variety, "regular");
            assert_eq!(q.price, None);
            assert_eq!(q.stop_loss, Some(150_000));
        }
        other => panic!("unexpected call {:?}", other),
    }
}

#[test]
fn limit_sell_passes_price_through() {
    let ex = TradeExecutor::new();
    let mut i = instruction("sell", "LIMIT");
    i.limit_price = Some(160_050);
    let q = ex.place_sell_order(&i).unwrap();
    assert_eq!(q.side, Side::Sell);
    assert_eq!(q.order_type, OrderType::Limit);
    assert_eq!(q.price, Some(160_050));
}

#[test]
fn response_without_order_id_is_missing_order_id() {
    let ex = TradeExecutor::new();
    let call = ex.execute_instructions(&instruction("buy", "MARKET")).unwrap();
    assert_eq!(ex.complete_order(&call, Ok(None)), Err(OrderError::MissingOrderId));
    assert_eq!(ex.complete_order(&call, Ok(Some(String::new()))), Err(OrderError::MissingOrderId));
}

#[test]
fn broker_failure_is_rejection() {
    let ex = TradeExecutor::new();
    let call = ex.execute_instructions(&instruction("buy", "MARKET")).unwrap();
    assert_eq!(
        ex.complete_order(&call, Err("insufficient funds".to_string())),
        Err(OrderError::BrokerRejected("insufficient funds".to_string()))
    );
}

#[test]
fn order_id_is_returned() {
    let ex = TradeExecutor::new();
    let call = ex.execute_instructions(&instruction("buy", "MARKET")).unwrap();
    assert_eq!(ex.complete_order(&call, Ok(Some("9001".to_string()))), Ok("9001".to_string()));
    let mut c = instruction("cancel", "MARKET");
    c.order_id = Some("77".to_string());
    let cancel = ex.execute_instructions(&c).unwrap();
    assert_eq!(ex.complete_order(&cancel, Ok(None)), Ok("77".to_string()));
}

#[test]
fn best_performer_symbol_plans_ranking() {
    let mut i = instruction("buy", "MARKET");
    i.symbol = "BEST PERFORMER".to_string();
    assert_eq!(plan_trade(&i), TradePlan::RankBest { window_secs: 20 });
    i.timeframe = Some(3600);
    assert_eq!(plan_trade(&i), TradePlan::RankBest { window_secs: 3600 });
    assert_eq!(plan_trade(&instruction("buy", "MARKET")), TradePlan::Execute);
}

#[test]
fn responses_carry_status_and_message() {
    let e = ErrorResponse::error("bad".to_string());
    assert_eq!(e.status, "Error");
    assert_eq!(e.message, "bad");
    let mut i = instruction("buy", "LIMIT");
    i.limit_price = Some(1_000);
    let t = TradeResponse::placed("42".to_string(), &i, "2024-01-01T00:00:00Z".to_string());
    assert_eq!(t.status, "Success");
    assert_eq!(t.message, "Order placed successfully for: INFY");
    assert_eq!(t.symbol, "INFY");
    assert_eq!(t.quantity, 5);
    assert_eq!(t.price, Some(1_000));
    assert_eq!(t.order_id, "42");
}
