use crate::text::same_text;
use vstd::prelude::*;
use vstd::string::*;

verus! {

/// Whether `code` names one of the national currencies that the exchange
/// writes with the prefix `Z`.
pub open spec fn is_fiat_code(code: Seq<char>) -> bool {
    code == "AUD"@ || code == "CAD"@ || code == "EUR"@ || code == "GBP"@ || code == "JPY"@ || code
        == "USD"@
}

/// Whether `code` names one of the cryptocurrencies that the exchange writes
/// with the prefix `X`.
pub open spec fn is_crypto_code(code: Seq<char>) -> bool {
    code == "ETC"@ || code == "ETH"@ || code == "LTC"@ || code == "MLN"@ || code == "REP"@ || code
        == "XBT"@ || code == "XDG"@ || code == "XLM"@ || code == "XMR"@ || code == "XRP"@ || code
        == "ZEC"@
}

/// The code with the prefix of its class: `X` before a cryptocurrency, `Z`
/// before a national currency, nothing before any other code.
pub open spec fn prefixed_code(code: Seq<char>) -> Seq<char> {
    if is_crypto_code(code) {
        "X"@ + code
    } else if is_fiat_code(code) {
        "Z"@ + code
    } else {
        code
    }
}

/// Whether one of the two codes is a cryptocurrency and the other a national
/// currency.
pub open spec fn is_mixed_pair(base: Seq<char>, quote: Seq<char>) -> bool {
    (is_crypto_code(base) && is_fiat_code(quote)) || (is_fiat_code(base) && is_crypto_code(quote))
}

/// Whether both codes are cryptocurrencies, or both national currencies.
pub open spec fn is_same_class_pair(base: Seq<char>, quote: Seq<char>) -> bool {
    (is_crypto_code(base) && is_crypto_code(quote)) || (is_fiat_code(base) && is_fiat_code(quote))
}

/// The two sides of a pair of `base` and `quote`: both with their prefix
/// where the pair is mixed, both as they are in every other pair.
pub open spec fn paired_codes(base: Seq<char>, quote: Seq<char>) -> (Seq<char>, Seq<char>) {
    if is_mixed_pair(base, quote) {
        (prefixed_code(base), prefixed_code(quote))
    } else {
        (base, quote)
    }
}

/// No code is both a cryptocurrency and a national currency.
pub proof fn lemma_classes_are_disjoint(code: Seq<char>)
    ensures
        !(is_crypto_code(code) && is_fiat_code(code)),
{
    reveal_strlit("AUD");
    reveal_strlit("CAD");
    reveal_strlit("EUR");
    reveal_strlit("GBP");
    reveal_strlit("JPY");
    reveal_strlit("USD");
    reveal_strlit("ETC");
    reveal_strlit("ETH");
    reveal_strlit("LTC");
    reveal_strlit("MLN");
    reveal_strlit("REP");
    reveal_strlit("XBT");
    reveal_strlit("XDG");
    reveal_strlit("XLM");
    reveal_strlit("XMR");
    reveal_strlit("XRP");
    reveal_strlit("ZEC");
    if is_fiat_code(code) {
        assert(code.len() == 3);
        assert(code[2] == 'D' || code[2] == 'R' || code[2] == 'P' || code[2] == 'Y');
        assert(code[0] != 'R' && code[0] != 'X');
    }
}

/// A pair of a cryptocurrency and a national currency has the prefix on both
/// sides, whichever of the two is the base: `X` before the cryptocurrency and
/// `Z` before the national currency.
pub proof fn lemma_mixed_pair_is_prefixed(base: Seq<char>, quote: Seq<char>)
    requires
        is_mixed_pair(base, quote),
    ensures
        is_crypto_code(base) ==> paired_codes(base, quote) == ("X"@ + base, "Z"@ + quote),
        is_fiat_code(base) ==> paired_codes(base, quote) == ("Z"@ + base, "X"@ + quote),
        is_crypto_code(base) || is_fiat_code(base),
{
    lemma_classes_are_disjoint(base);
    lemma_classes_are_disjoint(quote);
}

/// A pair of two cryptocurrencies, or of two national currencies, has the
/// bare codes on both sides.
pub proof fn lemma_same_class_pair_is_bare(base: Seq<char>, quote: Seq<char>)
    requires
        is_same_class_pair(base, quote),
    ensures
        paired_codes(base, quote) == (base, quote),
{
    lemma_classes_are_disjoint(base);
    lemma_classes_are_disjoint(quote);
}

/// Pairing treats both sides alike: with base and quote exchanged, the two
/// sides of the pair are exchanged and nothing else changes.
pub proof fn lemma_pairing_is_symmetric(base: Seq<char>, quote: Seq<char>)
    ensures
        is_mixed_pair(base, quote) == is_mixed_pair(quote, base),
        paired_codes(quote, base) == (paired_codes(base, quote).1, paired_codes(base, quote).0),
{
}

/// Kraken tradable asset name, such a cryptocurrencies or FIAT.
#[derive(Debug, PartialEq, Eq, PartialOrd, Ord, Hash)]
pub struct Asset(String);

impl View for Asset {
    type V = Seq<char>;

    closed spec fn view(&self) -> Seq<char> {
        self.0@
    }
}

impl Clone for Asset {
    fn clone(&self) -> (copy: Self)
        ensures
            copy@ == self@,
    {
        Asset(self.0.clone())
    }
}

impl From<&str> for Asset {
    fn from(asset: &str) -> (made: Self)
        ensures
            made@ == asset@,
    {
        Asset(String::from_str(asset))
    }
}

impl vstd::std_specs::convert::FromSpecImpl<&str> for Asset {
    open spec fn obeys_from_spec() -> bool {
        false
    }

    open spec fn from_spec(asset: &str) -> Asset {
        arbitrary()
    }
}

impl From<String> for Asset {
    fn from(asset: String) -> (made: Self)
        ensures
            made@ == asset@,
    {
        Asset(asset)
    }
}

impl vstd::std_specs::convert::FromSpecImpl<String> for Asset {
    open spec fn obeys_from_spec() -> bool {
        false
    }

    open spec fn from_spec(asset: String) -> Asset {
        arbitrary()
    }
}

impl Asset {
    /// Constructs a new Asset.
    pub fn new(asset: &str) -> (made: Self)
        ensures
            made@ == asset@,
    {
        Asset(String::from_str(asset))
    }

    /// The code of the asset.
    pub fn as_str(&self) -> (code: &str)
        ensures
            code@ == self@,
    {
        self.0.as_str()
    }

    /// The code of the asset.
    pub fn to_string(&self) -> (code: String)
        ensures
            code@ == self@,
    {
        self.0.clone()
    }

    /// Whether the asset is a national currency that the exchange writes with
    /// the prefix `Z`.
    pub fn is_fiat(&self) -> (fiat: bool)
        ensures
            fiat == is_fiat_code(self@),
    {
        let code = self.0.as_str();
        same_text(code, "AUD") || same_text(code, "CAD") || same_text(code, "EUR") || same_text(
            code,
            "GBP",
        ) || same_text(code, "JPY") || same_text(code, "USD")
    }

    /// Whether the asset is a cryptocurrency that the exchange writes with the
    /// prefix `X`.
    pub fn is_crypto(&self) -> (crypto: bool)
        ensures
            crypto == is_crypto_code(self@),
    {
        let code = self.0.as_str();
        same_text(code, "ETC") || same_text(code, "ETH") || same_text(code, "LTC") || same_text(
            code,
            "MLN",
        ) || same_text(code, "REP") || same_text(code, "XBT") || same_text(code, "XDG")
            || same_text(code, "XLM") || same_text(code, "XMR") || same_text(code, "XRP")
            || same_text(code, "ZEC")
    }

    /// The asset with the prefix of its class before its code.
    fn prefixed(&self) -> (made: Self)
        ensures
            made@ == prefixed_code(self@),
    {
        if self.is_crypto() {
            let mut code = String::from_str("X");
            code.append(self.0.as_str());
            Asset(code)
        } else if self.is_fiat() {
            let mut code = String::from_str("Z");
            code.append(self.0.as_str());
            Asset(code)
        } else {
            self.clone()
        }
    }

    /// Constructs a new asset pair using self as base and the given Asset as
    /// quote. Where one of the two is a cryptocurrency and the other a
    /// national currency, both sides get the prefix of their class.
    pub fn pair(self, quote: Asset) -> (pair: AssetPair)
        ensures
            (pair.base@, pair.quote@) == paired_codes(self@, quote@),
    {
        if (self.is_crypto() && quote.is_fiat()) || (self.is_fiat() && quote.is_crypto()) {
            AssetPair { base: self.prefixed(), quote: quote.prefixed() }
        } else {
            AssetPair { base: self, quote }
        }
    }
}

/// An asset pair with base and quote assets.
#[derive(Debug, PartialEq, Eq, PartialOrd, Ord, Hash)]
pub struct AssetPair {
    /// The base component of the asset pair.
    pub base: Asset,
    /// The quote component of the asset pair.
    pub quote: Asset,
}

impl Clone for AssetPair {
    fn clone(&self) -> (copy: Self)
        ensures
            copy.base@ == self.base@,
            copy.quote@ == self.quote@,
    {
        AssetPair { base: self.base.clone(), quote: self.quote.clone() }
    }
}

impl AssetPair {
    /// The name of the pair: its base directly followed by its quote.
    pub open spec fn text(&self) -> Seq<char> {
        self.base@ + self.quote@
    }

    /// The name of the pair.
    pub fn to_string(&self) -> (name: String)
        ensures
            name@ == self.text(),
    {
        let mut name = self.base.to_string();
        name.append(self.quote.as_str());
        name
    }
}

impl From<(Asset, Asset)> for AssetPair {
    fn from(sides: (Asset, Asset)) -> (pair: Self) {
        let (base, quote) = sides;
        Self { base, quote }
    }
}

impl vstd::std_specs::convert::FromSpecImpl<(Asset, Asset)> for AssetPair {
    open spec fn obeys_from_spec() -> bool {
        true
    }

    open spec fn from_spec(sides: (Asset, Asset)) -> AssetPair {
        AssetPair { base: sides.0, quote: sides.1 }
    }
}

impl From<AssetPair> for (Asset, Asset) {
    fn from(asset_pair: AssetPair) -> (sides: Self) {
        (asset_pair.base, asset_pair.quote)
    }
}

impl vstd::std_specs::convert::FromSpecImpl<AssetPair> for (Asset, Asset) {
    open spec fn obeys_from_spec() -> bool {
        true
    }

    open spec fn from_spec(asset_pair: AssetPair) -> (Asset, Asset) {
        (asset_pair.base, asset_pair.quote)
    }
}

} // verus!
