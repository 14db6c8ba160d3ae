use vstd::prelude::*;
use vstd::string::*;

verus! {

/// Order to buy or sell the asset.
#[derive(Debug, Clone, Copy, PartialEq, Eq, Structural, Ord, PartialOrd, Hash)]
pub enum Order {
    Buy,
    Sell,
}

impl Order {
    /// The order as the exchange names it.
    pub open spec fn text(self) -> Seq<char> {
        match self {
            Order::Buy => "buy"@,
            Order::Sell => "sell"@,
        }
    }

    /// The order as the exchange names it.
    pub fn as_str(&self) -> (text: &'static str)
        ensures
            text@ == self.text(),
    {
        match self {
            Order::Buy => "buy",
            Order::Sell => "sell",
        }
    }

    /// The order as the exchange names it.
    pub fn to_string(&self) -> (text: String)
        ensures
            text@ == self.text(),
    {
        String::from_str(self.as_str())
    }
}

/// Enumeration of order types.
#[derive(Debug, Clone, Copy, PartialEq, Eq, Structural, Ord, PartialOrd, Hash)]
pub enum OrderType {
    /// Buy/Sell asset at the best market price.
    Market,
    /// Buy/Sell at a fixed price per asset.
    Limit,
    /// Settle position(s) at the price of the order that opened them.
    SettlePosition,
    /// Buy at market once last price is >= stop price.
    /// Sell at market once last price is <= stop price.
    StopLoss,
    /// Buy at a fixed price once last price >= stop price.
    /// Sell at a fixed price once last price <= stop price.
    StopLossLimit,
    /// Buy at market once last price <= take profit price.
    /// Sell at market once last price >= take profit price.
    TakeProfit,
    /// Buy at a fixed price once market price <= take profit price.
    /// Sell at a fixed price once market price >= take profit price.
    TakeProfitLimit,
}

impl OrderType {
    /// The order type as the exchange names it.
    pub open spec fn text(self) -> Seq<char> {
        match self {
            OrderType::Market => "market"@,
            OrderType::Limit => "limit"@,
            OrderType::SettlePosition => "settle-position"@,
            OrderType::StopLoss => "stop-loss"@,
            OrderType::TakeProfit => "take-profit"@,
            OrderType::StopLossLimit => "stop-loss-limit"@,
            OrderType::TakeProfitLimit => "take-profit-limit"@,
        }
    }

    /// The order type as the exchange names it.
    pub fn as_str(&self) -> (text: &'static str)
        ensures
            text@ == self.text(),
    {
        match self {
            OrderType::Market => "market",
            OrderType::Limit => "limit",
            OrderType::SettlePosition => "settle-position",
            OrderType::StopLoss => "stop-loss",
            OrderType::TakeProfit => "take-profit",
            OrderType::StopLossLimit => "stop-loss-limit",
            OrderType::TakeProfitLimit => "take-profit-limit",
        }
    }

    /// The order type as the exchange names it.
    pub fn to_string(&self) -> (text: String)
        ensures
            text@ == self.text(),
    {
        String::from_str(self.as_str())
    }
}

} // verus!
