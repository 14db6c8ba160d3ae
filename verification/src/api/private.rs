use crate::api::builder::{ApiBuilder, ApiBuilderView};
use crate::api::ApiKind;
use vstd::prelude::*;

verus! {

/// List of private methods.
#[derive(Debug, Copy, Clone, PartialEq, Eq, Structural)]
pub enum PrivateMethod {
    // Private User Data
    AddExport,
    Balance,
    ClosedOrders,
    ExportStatus,
    Ledgers,
    OpenOrders,
    OpenPositions,
    QueryLedgers,
    QueryOrders,
    QueryTrades,
    RemoveExport,
    RetrieveExport,
    TradeBalance,
    TradeVolume,
    TradesHistory,
    // Private User Trading
    AddOrder,
    CancelAll,
    CancelOrder,
    CancelAllOrdersAfter,
    // Private User Funding
    DepositAddresses,
    DepositMethods,
    DepositStatus,
    WalletTransfer,
    Withdraw,
    WithdrawCancel,
    WithdrawInfo,
    WithdrawStatus,
    // Websockets Authentication
    GetWebSocketsToken,
}

impl PrivateMethod {
    /// The name of the method in a URL.
    pub open spec fn text(self) -> Seq<char> {
        match self {
            PrivateMethod::AddExport => "AddExport"@,
            PrivateMethod::Balance => "Balance"@,
            PrivateMethod::ClosedOrders => "ClosedOrders"@,
            PrivateMethod::ExportStatus => "ExportStatus"@,
            PrivateMethod::Ledgers => "Ledgers"@,
            PrivateMethod::OpenOrders => "OpenOrders"@,
            PrivateMethod::OpenPositions => "OpenPositions"@,
            PrivateMethod::QueryLedgers => "QueryLedgers"@,
            PrivateMethod::QueryOrders => "QueryOrders"@,
            PrivateMethod::QueryTrades => "QueryTrades"@,
            PrivateMethod::RemoveExport => "RemoveExport"@,
            PrivateMethod::RetrieveExport => "RetrieveExport"@,
            PrivateMethod::TradeBalance => "TradeBalance"@,
            PrivateMethod::TradeVolume => "TradeVolume"@,
            PrivateMethod::TradesHistory => "TradesHistory"@,
            PrivateMethod::AddOrder => "AddOrder"@,
            PrivateMethod::CancelAll => "CancelAll"@,
            PrivateMethod::CancelOrder => "CancelOrder"@,
            PrivateMethod::CancelAllOrdersAfter => "CancelAllOrdersAfter"@,
            PrivateMethod::DepositAddresses => "DepositAddresses"@,
            PrivateMethod::DepositMethods => "DepositMethods"@,
            PrivateMethod::DepositStatus => "DepositStatus"@,
            PrivateMethod::WalletTransfer => "WalletTransfer"@,
            PrivateMethod::Withdraw => "Withdraw"@,
            PrivateMethod::WithdrawCancel => "WithdrawCancel"@,
            PrivateMethod::WithdrawInfo => "WithdrawInfo"@,
            PrivateMethod::WithdrawStatus => "WithdrawStatus"@,
            PrivateMethod::GetWebSocketsToken => "GetWebSocketsToken"@,
        }
    }

    /// The name of the method in a URL.
    pub fn name(&self) -> (name: &'static str)
        ensures
            name@ == self.text(),
    {
        match self {
            PrivateMethod::AddExport => "AddExport",
            PrivateMethod::Balance => "Balance",
            PrivateMethod::ClosedOrders => "ClosedOrders",
            PrivateMethod::ExportStatus => "ExportStatus",
            PrivateMethod::Ledgers => "Ledgers",
            PrivateMethod::OpenOrders => "OpenOrders",
            PrivateMethod::OpenPositions => "OpenPositions",
            PrivateMethod::QueryLedgers => "QueryLedgers",
            PrivateMethod::QueryOrders => "QueryOrders",
            PrivateMethod::QueryTrades => "QueryTrades",
            PrivateMethod::RemoveExport => "RemoveExport",
            PrivateMethod::RetrieveExport => "RetrieveExport",
            PrivateMethod::TradeBalance => "TradeBalance",
            PrivateMethod::TradeVolume => "TradeVolume",
            PrivateMethod::TradesHistory => "TradesHistory",
            PrivateMethod::AddOrder => "AddOrder",
            PrivateMethod::CancelAll => "CancelAll",
            PrivateMethod::CancelOrder => "CancelOrder",
            PrivateMethod::CancelAllOrdersAfter => "CancelAllOrdersAfter",
            PrivateMethod::DepositAddresses => "DepositAddresses",
            PrivateMethod::DepositMethods => "DepositMethods",
            PrivateMethod::DepositStatus => "DepositStatus",
            PrivateMethod::WalletTransfer => "WalletTransfer",
            PrivateMethod::Withdraw => "Withdraw",
            PrivateMethod::WithdrawCancel => "WithdrawCancel",
            PrivateMethod::WithdrawInfo => "WithdrawInfo",
            PrivateMethod::WithdrawStatus => "WithdrawStatus",
            PrivateMethod::GetWebSocketsToken => "GetWebSocketsToken",
        }
    }
}

/// What a private API of `method` is before any parameter is added.
pub open spec fn private_api(method: PrivateMethod) -> ApiBuilderView {
    ApiBuilderView::new(ApiKind::Private, method.text())
}

/// Get export report.
pub fn retrieve_export() -> (api: ApiBuilder)
    ensures
        api@ == private_api(PrivateMethod::RetrieveExport),
{
    ApiBuilder::private(PrivateMethod::RetrieveExport)
}

/// Wallet Transfer.
pub fn wallet_transfer() -> (api: ApiBuilder)
    ensures
        api@ == private_api(PrivateMethod::WalletTransfer),
{
    ApiBuilder::private(PrivateMethod::WalletTransfer)
}

/// Request withdrawal cancellation.
pub fn withdraw_cancel() -> (api: ApiBuilder)
    ensures
        api@ == private_api(PrivateMethod::WithdrawCancel),
{
    ApiBuilder::private(PrivateMethod::WithdrawCancel)
}

/// Get status of recent withdrawals.
pub fn withdraw_status() -> (api: ApiBuilder)
    ensures
        api@ == private_api(PrivateMethod::WithdrawStatus),
{
    ApiBuilder::private(PrivateMethod::WithdrawStatus)
}

/// Withdraw funds.
pub fn withdraw() -> (api: ApiBuilder)
    ensures
        api@ == private_api(PrivateMethod::Withdraw),
{
    ApiBuilder::private(PrivateMethod::Withdraw)
}

/// Get withdrawal information.
pub fn withdraw_info() -> (api: ApiBuilder)
    ensures
        api@ == private_api(PrivateMethod::WithdrawInfo),
{
    ApiBuilder::private(PrivateMethod::WithdrawInfo)
}

/// Get status of recent deposits.
pub fn deposit_status() -> (api: ApiBuilder)
    ensures
        api@ == private_api(PrivateMethod::DepositStatus),
{
    ApiBuilder::private(PrivateMethod::DepositStatus)
}

/// Get deposit addresses.
pub fn deposit_addresses() -> (api: ApiBuilder)
    ensures
        api@ == private_api(PrivateMethod::DepositAddresses),
{
    ApiBuilder::private(PrivateMethod::DepositAddresses)
}

/// Get deposit methods.
pub fn deposit_methods() -> (api: ApiBuilder)
    ensures
        api@ == private_api(PrivateMethod::DepositMethods),
{
    ApiBuilder::private(PrivateMethod::DepositMethods)
}

/// Get account balance.
pub fn balance() -> (api: ApiBuilder)
    ensures
        api@ == private_api(PrivateMethod::Balance),
{
    ApiBuilder::private(PrivateMethod::Balance)
}

/// Get trade balance.
pub fn trade_balance() -> (api: ApiBuilder)
    ensures
        api@ == private_api(PrivateMethod::TradeBalance),
{
    ApiBuilder::private(PrivateMethod::TradeBalance)
}

/// Get open orders.
pub fn open_orders() -> (api: ApiBuilder)
    ensures
        api@ == private_api(PrivateMethod::OpenOrders),
{
    ApiBuilder::private(PrivateMethod::OpenOrders)
}

/// Get closed orders.
pub fn closed_orders() -> (api: ApiBuilder)
    ensures
        api@ == private_api(PrivateMethod::ClosedOrders),
{
    ApiBuilder::private(PrivateMethod::ClosedOrders)
}

/// Query ledgers.
pub fn query_ledgers() -> (api: ApiBuilder)
    ensures
        api@ == private_api(PrivateMethod::QueryLedgers),
{
    ApiBuilder::private(PrivateMethod::QueryLedgers)
}

/// Query orders info.
pub fn query_orders() -> (api: ApiBuilder)
    ensures
        api@ == private_api(PrivateMethod::QueryOrders),
{
    ApiBuilder::private(PrivateMethod::QueryOrders)
}

/// Get trades history.
pub fn trades_history() -> (api: ApiBuilder)
    ensures
        api@ == private_api(PrivateMethod::TradesHistory),
{
    ApiBuilder::private(PrivateMethod::TradesHistory)
}

/// Query trades info.
pub fn query_trades() -> (api: ApiBuilder)
    ensures
        api@ == private_api(PrivateMethod::QueryTrades),
{
    ApiBuilder::private(PrivateMethod::QueryTrades)
}

/// Get open positions.
pub fn open_positions() -> (api: ApiBuilder)
    ensures
        api@ == private_api(PrivateMethod::OpenPositions),
{
    ApiBuilder::private(PrivateMethod::OpenPositions)
}

/// Get ledgers info.
pub fn ledgers() -> (api: ApiBuilder)
    ensures
        api@ == private_api(PrivateMethod::Ledgers),
{
    ApiBuilder::private(PrivateMethod::Ledgers)
}

/// Get trade volume.
pub fn trade_volume() -> (api: ApiBuilder)
    ensures
        api@ == private_api(PrivateMethod::TradeVolume),
{
    ApiBuilder::private(PrivateMethod::TradeVolume)
}

/// Request export report.
pub fn add_export() -> (api: ApiBuilder)
    ensures
        api@ == private_api(PrivateMethod::AddExport),
{
    ApiBuilder::private(PrivateMethod::AddExport)
}

/// Get export statuses.
pub fn export_status() -> (api: ApiBuilder)
    ensures
        api@ == private_api(PrivateMethod::ExportStatus),
{
    ApiBuilder::private(PrivateMethod::ExportStatus)
}

/// Remove export report.
pub fn remove_export() -> (api: ApiBuilder)
    ensures
        api@ == private_api(PrivateMethod::RemoveExport),
{
    ApiBuilder::private(PrivateMethod::RemoveExport)
}

/// Add standard order.
pub fn add_order() -> (api: ApiBuilder)
    ensures
        api@ == private_api(PrivateMethod::AddOrder),
{
    ApiBuilder::private(PrivateMethod::AddOrder)
}

/// Cancel open order.
pub fn cancel_order() -> (api: ApiBuilder)
    ensures
        api@ == private_api(PrivateMethod::CancelOrder),
{
    ApiBuilder::private(PrivateMethod::CancelOrder)
}

/// Cancel all open orders.
pub fn cancel_all() -> (api: ApiBuilder)
    ensures
        api@ == private_api(PrivateMethod::CancelAll),
{
    ApiBuilder::private(PrivateMethod::CancelAll)
}

/// Cancel all orders when the timeout expires.
pub fn cancel_all_after() -> (api: ApiBuilder)
    ensures
        api@ == private_api(PrivateMethod::CancelAllOrdersAfter),
{
    ApiBuilder::private(PrivateMethod::CancelAllOrdersAfter)
}

/// Get a token to connect to and authenticate with the Websockets API.
pub fn get_websockets_token() -> (api: ApiBuilder)
    ensures
        api@ == private_api(PrivateMethod::GetWebSocketsToken),
{
    ApiBuilder::private(PrivateMethod::GetWebSocketsToken)
}

} // verus!
