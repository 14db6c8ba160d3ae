use crate::api::builder::{ApiBuilder, ApiBuilderView};
use crate::api::ApiKind;
use vstd::prelude::*;

verus! {

/// List of public methods.
#[derive(Debug, Copy, Clone, PartialEq, Eq, Structural)]
#[allow(clippy::upper_case_acronyms)]
pub enum PublicMethod {
    // Public Market Data
    AssetPairs,
    Assets,
    Depth,
    OHLC,
    Spread,
    SystemStatus,
    Ticker,
    Time,
    Trades,
}

impl PublicMethod {
    /// The name of the method in a URL.
    pub open spec fn text(self) -> Seq<char> {
        match self {
            PublicMethod::AssetPairs => "AssetPairs"@,
            PublicMethod::Assets => "Assets"@,
            PublicMethod::Depth => "Depth"@,
            PublicMethod::OHLC => "OHLC"@,
            PublicMethod::Spread => "Spread"@,
            PublicMethod::SystemStatus => "SystemStatus"@,
            PublicMethod::Ticker => "Ticker"@,
            PublicMethod::Time => "Time"@,
            PublicMethod::Trades => "Trades"@,
        }
    }

    /// The name of the method in a URL.
    pub fn name(&self) -> (name: &'static str)
        ensures
            name@ == self.text(),
    {
        match self {
            PublicMethod::AssetPairs => "AssetPairs",
            PublicMethod::Assets => "Assets",
            PublicMethod::Depth => "Depth",
            PublicMethod::OHLC => "OHLC",
            PublicMethod::Spread => "Spread",
            PublicMethod::SystemStatus => "SystemStatus",
            PublicMethod::Ticker => "Ticker",
            PublicMethod::Time => "Time",
            PublicMethod::Trades => "Trades",
        }
    }
}

/// What a public API of `method` is before any parameter is added.
pub open spec fn public_api(method: PublicMethod) -> ApiBuilderView {
    ApiBuilderView::new(ApiKind::Public, method.text())
}

/// Get server time.
pub fn time() -> (api: ApiBuilder)
    ensures
        api@ == public_api(PublicMethod::Time),
{
    ApiBuilder::public(PublicMethod::Time)
}

/// Get asset info.
pub fn assets() -> (api: ApiBuilder)
    ensures
        api@ == public_api(PublicMethod::Assets),
{
    ApiBuilder::public(PublicMethod::Assets)
}

/// Get tradable asset pair.
pub fn asset_pairs() -> (api: ApiBuilder)
    ensures
        api@ == public_api(PublicMethod::AssetPairs),
{
    ApiBuilder::public(PublicMethod::AssetPairs)
}

/// Get ticker info.
pub fn ticker() -> (api: ApiBuilder)
    ensures
        api@ == public_api(PublicMethod::Ticker),
{
    ApiBuilder::public(PublicMethod::Ticker)
}

/// Get OHLC info.
pub fn ohlc() -> (api: ApiBuilder)
    ensures
        api@ == public_api(PublicMethod::OHLC),
{
    ApiBuilder::public(PublicMethod::OHLC)
}

/// Get order book.
pub fn depth() -> (api: ApiBuilder)
    ensures
        api@ == public_api(PublicMethod::Depth),
{
    ApiBuilder::public(PublicMethod::Depth)
}

/// Get recent trades.
pub fn trades() -> (api: ApiBuilder)
    ensures
        api@ == public_api(PublicMethod::Trades),
{
    ApiBuilder::public(PublicMethod::Trades)
}

/// Get recent spread data.
pub fn spread() -> (api: ApiBuilder)
    ensures
        api@ == public_api(PublicMethod::Spread),
{
    ApiBuilder::public(PublicMethod::Spread)
}

/// Get system status.
pub fn system_status() -> (api: ApiBuilder)
    ensures
        api@ == public_api(PublicMethod::SystemStatus),
{
    ApiBuilder::public(PublicMethod::SystemStatus)
}

} // verus!
