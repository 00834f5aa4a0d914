use vstd::prelude::*;

use crate::text::str_eq;

verus! {

/// The closed set of supported fiat and crypto currency codes, with a
/// catch-all for codes added server-side after this binding was written.
/// Two distinct unrecognized codes both land on `Other` and become
/// indistinguishable: a deliberate forward-compatibility tradeoff.
#[derive(Debug, Copy, Clone, PartialEq, Eq, Hash, Structural)]
pub enum Currency {
    /// United States Dollar
    USD,
    /// Euro
    EUR,
    /// British Pound Sterling
    GBP,
    /// Australian Dollar
    AUD,
    /// Canadian Dollar
    CAD,
    /// New Zealand Dollar
    NZD,
    /// Argentine Peso
    ARS,
    /// Brazilian Real
    BRL,
    /// Swiss Franc
    CHF,
    /// Chilean Peso
    CLP,
    /// Colombian Peso
    COP,
    /// Czech Koruna
    CZK,
    /// Danish Krone
    DKK,
    /// Hong Kong Dollar
    HKD,
    /// Israeli New Shekel
    ILS,
    /// Indian Rupee
    INR,
    /// Icelandic Krona
    ISK,
    /// Japanese Yen
    JPY,
    /// South Korean Won
    KRW,
    /// Mexican Peso
    MXN,
    /// Malaysian Ringgit
    MYR,
    /// Norwegian Krone
    NOK,
    /// Philippine Peso
    PHP,
    /// Polish Zloty
    PLN,
    /// Swedish Krona
    SEK,
    /// Singapore Dollar
    SGD,
    /// Thai Baht
    THB,
    /// Vietnamese Dong
    VND,
    /// South African Rand
    ZAR,
    /// Bitcoin
    BTC,
    /// Ethereum
    ETH,
    /// Stellar
    XLM,
    /// Stellar USDC
    SUSDC,
    /// Avalanche
    AVAX,
    /// DAI
    DAI,
    /// Palm DAI
    PDAI,
    /// USD Coin
    USDC,
    /// Matic USDC
    MUSDC,
    /// Liquid BTC
    LBTC,
    /// Tether
    USDT,
    /// Binance USD
    BUSD,
    /// Gemini Dollar
    GUSD,
    /// Paxos Standard
    PAX,
    /// Stably Dollar
    USDS,
    /// Aave
    AAVE,
    /// Compound
    COMP,
    /// Chainlink
    LINK,
    /// Wrapped Bitcoin
    WBTC,
    /// Basic Attention Token
    BAT,
    /// Curve
    CRV,
    /// Maker
    MKR,
    /// Synthetix
    SNX,
    /// UMA
    UMA,
    /// Uniswap
    UNI,
    /// yearn.finance
    YFI,
    /// Digital JPY
    GYEN,
    /// Digital USD
    ZUSD,
    /// Polygon
    MATIC,
    /// All other currencies; unrecognized codes land here.
    Other,
}

/// The wire token of each currency code. Most tokens are the code name
/// itself; a few carry a fixed mixed-case form.
pub open spec fn currency_token(c: Currency) -> Seq<char> {
    match c {
        Currency::USD => "USD"@,
        Currency::EUR => "EUR"@,
        Currency::GBP => "GBP"@,
        Currency::AUD => "AUD"@,
        Currency::CAD => "CAD"@,
        Currency::NZD => "NZD"@,
        Currency::ARS => "ARS"@,
        Currency::BRL => "BRL"@,
        Currency::CHF => "CHF"@,
        Currency::CLP => "CLP"@,
        Currency::COP => "COP"@,
        Currency::CZK => "CZK"@,
        Currency::DKK => "DKK"@,
        Currency::HKD => "HKD"@,
        Currency::ILS => "ILS"@,
        Currency::INR => "INR"@,
        Currency::ISK => "ISK"@,
        Currency::JPY => "JPY"@,
        Currency::KRW => "KRW"@,
        Currency::MXN => "MXN"@,
        Currency::MYR => "MYR"@,
        Currency::NOK => "NOK"@,
        Currency::PHP => "PHP"@,
        Currency::PLN => "PLN"@,
        Currency::SEK => "SEK"@,
        Currency::SGD => "SGD"@,
        Currency::THB => "THB"@,
        Currency::VND => "VND"@,
        Currency::ZAR => "ZAR"@,
        Currency::BTC => "BTC"@,
        Currency::ETH => "ETH"@,
        Currency::XLM => "XLM"@,
        Currency::SUSDC => "sUSDC"@,
        Currency::AVAX => "AVAX"@,
        Currency::DAI => "DAI"@,
        Currency::PDAI => "pDAI"@,
        Currency::USDC => "USDC"@,
        Currency::MUSDC => "mUSDC"@,
        Currency::LBTC => "L-BTC"@,
        Currency::USDT => "USDT"@,
        Currency::BUSD => "BUSD"@,
        Currency::GUSD => "GUSD"@,
        Currency::PAX => "PAX"@,
        Currency::USDS => "USDS"@,
        Currency::AAVE => "AAVE"@,
        Currency::COMP => "COMP"@,
        Currency::LINK => "LINK"@,
        Currency::WBTC => "WBTC"@,
        Currency::BAT => "BAT"@,
        Currency::CRV => "CRV"@,
        Currency::MKR => "MKR"@,
        Currency::SNX => "SNX"@,
        Currency::UMA => "UMA"@,
        Currency::UNI => "UNI"@,
        Currency::YFI => "YFI"@,
        Currency::GYEN => "GYEN"@,
        Currency::ZUSD => "ZUSD"@,
        Currency::MATIC => "MATIC"@,
        Currency::Other => "Other"@,
    }
}

/// The currency selected by a wire token; every unrecognized token
/// selects `Other`.
pub open spec fn spec_parse_currency(s: Seq<char>) -> Currency {
    if s == "USD"@ {
        Currency::USD
    } else if s == "EUR"@ {
        Currency::EUR
    } else if s == "GBP"@ {
        Currency::GBP
    } else if s == "AUD"@ {
        Currency::AUD
    } else if s == "CAD"@ {
        Currency::CAD
    } else if s == "NZD"@ {
        Currency::NZD
    } else if s == "ARS"@ {
        Currency::ARS
    } else if s == "BRL"@ {
        Currency::BRL
    } else if s == "CHF"@ {
        Currency::CHF
    } else if s == "CLP"@ {
        Currency::CLP
    } else if s == "COP"@ {
        Currency::COP
    } else if s == "CZK"@ {
        Currency::CZK
    } else if s == "DKK"@ {
        Currency::DKK
    } else if s == "HKD"@ {
        Currency::HKD
    } else if s == "ILS"@ {
        Currency::ILS
    } else if s == "INR"@ {
        Currency::INR
    } else if s == "ISK"@ {
        Currency::ISK
    } else if s == "JPY"@ {
        Currency::JPY
    } else if s == "KRW"@ {
        Currency::KRW
    } else if s == "MXN"@ {
        Currency::MXN
    } else if s == "MYR"@ {
        Currency::MYR
    } else if s == "NOK"@ {
        Currency::NOK
    } else if s == "PHP"@ {
        Currency::PHP
    } else if s == "PLN"@ {
        Currency::PLN
    } else if s == "SEK"@ {
        Currency::SEK
    } else if s == "SGD"@ {
        Currency::SGD
    } else if s == "THB"@ {
        Currency::THB
    } else if s == "VND"@ {
        Currency::VND
    } else if s == "ZAR"@ {
        Currency::ZAR
    } else if s == "BTC"@ {
        Currency::BTC
    } else if s == "ETH"@ {
        Currency::ETH
    } else if s == "XLM"@ {
        Currency::XLM
    } else if s == "sUSDC"@ {
        Currency::SUSDC
    } else if s == "AVAX"@ {
        Currency::AVAX
    } else if s == "DAI"@ {
        Currency::DAI
    } else if s == "pDAI"@ {
        Currency::PDAI
    } else if s == "USDC"@ {
        Currency::USDC
    } else if s == "mUSDC"@ {
        Currency::MUSDC
    } else if s == "L-BTC"@ {
        Currency::LBTC
    } else if s == "USDT"@ {
        Currency::USDT
    } else if s == "BUSD"@ {
        Currency::BUSD
    } else if s == "GUSD"@ {
        Currency::GUSD
    } else if s == "PAX"@ {
        Currency::PAX
    } else if s == "USDS"@ {
        Currency::USDS
    } else if s == "AAVE"@ {
        Currency::AAVE
    } else if s == "COMP"@ {
        Currency::COMP
    } else if s == "LINK"@ {
        Currency::LINK
    } else if s == "WBTC"@ {
        Currency::WBTC
    } else if s == "BAT"@ {
        Currency::BAT
    } else if s == "CRV"@ {
        Currency::CRV
    } else if s == "MKR"@ {
        Currency::MKR
    } else if s == "SNX"@ {
        Currency::SNX
    } else if s == "UMA"@ {
        Currency::UMA
    } else if s == "UNI"@ {
        Currency::UNI
    } else if s == "YFI"@ {
        Currency::YFI
    } else if s == "GYEN"@ {
        Currency::GYEN
    } else if s == "ZUSD"@ {
        Currency::ZUSD
    } else if s == "MATIC"@ {
        Currency::MATIC
    } else {
        Currency::Other
    }
}

impl Currency {
    /// Writes the currency's wire token.
    pub fn code(&self) -> (r: String)
        ensures
            r@ == currency_token(*self),
    {
        match self {
            Currency::USD => String::from_str("USD"),
            Currency::EUR => String::from_str("EUR"),
            Currency::GBP => String::from_str("GBP"),
            Currency::AUD => String::from_str("AUD"),
            Currency::CAD => String::from_str("CAD"),
            Currency::NZD => String::from_str("NZD"),
            Currency::ARS => String::from_str("ARS"),
            Currency::BRL => String::from_str("BRL"),
            Currency::CHF => String::from_str("CHF"),
            Currency::CLP => String::from_str("CLP"),
            Currency::COP => String::from_str("COP"),
            Currency::CZK => String::from_str("CZK"),
            Currency::DKK => String::from_str("DKK"),
            Currency::HKD => String::from_str("HKD"),
            Currency::ILS => String::from_str("ILS"),
            Currency::INR => String::from_str("INR"),
            Currency::ISK => String::from_str("ISK"),
            Currency::JPY => String::from_str("JPY"),
            Currency::KRW => String::from_str("KRW"),
            Currency::MXN => String::from_str("MXN"),
            Currency::MYR => String::from_str("MYR"),
            Currency::NOK => String::from_str("NOK"),
            Currency::PHP => String::from_str("PHP"),
            Currency::PLN => String::from_str("PLN"),
            Currency::SEK => String::from_str("SEK"),
            Currency::SGD => String::from_str("SGD"),
            Currency::THB => String::from_str("THB"),
            Currency::VND => String::from_str("VND"),
            Currency::ZAR => String::from_str("ZAR"),
            Currency::BTC => String::from_str("BTC"),
            Currency::ETH => String::from_str("ETH"),
            Currency::XLM => String::from_str("XLM"),
            Currency::SUSDC => String::from_str("sUSDC"),
            Currency::AVAX => String::from_str("AVAX"),
            Currency::DAI => String::from_str("DAI"),
            Currency::PDAI => String::from_str("pDAI"),
            Currency::USDC => String::from_str("USDC"),
            Currency::MUSDC => String::from_str("mUSDC"),
            Currency::LBTC => String::from_str("L-BTC"),
            Currency::USDT => String::from_str("USDT"),
            Currency::BUSD => String::from_str("BUSD"),
            Currency::GUSD => String::from_str("GUSD"),
            Currency::PAX => String::from_str("PAX"),
            Currency::USDS => String::from_str("USDS"),
            Currency::AAVE => String::from_str("AAVE"),
            Currency::COMP => String::from_str("COMP"),
            Currency::LINK => String::from_str("LINK"),
            Currency::WBTC => String::from_str("WBTC"),
            Currency::BAT => String::from_str("BAT"),
            Currency::CRV => String::from_str("CRV"),
            Currency::MKR => String::from_str("MKR"),
            Currency::SNX => String::from_str("SNX"),
            Currency::UMA => String::from_str("UMA"),
            Currency::UNI => String::from_str("UNI"),
            Currency::YFI => String::from_str("YFI"),
            Currency::GYEN => String::from_str("GYEN"),
            Currency::ZUSD => String::from_str("ZUSD"),
            Currency::MATIC => String::from_str("MATIC"),
            Currency::Other => String::from_str("Other"),
        }
    }

    /// Reads a wire token; an unrecognized token decodes to `Other`
    /// rather than failing.
    pub fn from_code(s: &str) -> (r: Currency)
        ensures
            r == spec_parse_currency(s@),
    {
        if str_eq(s, "USD") {
            Currency::USD
        } else if str_eq(s, "EUR") {
            Currency::EUR
        } else if str_eq(s, "GBP") {
            Currency::GBP
        } else if str_eq(s, "AUD") {
            Currency::AUD
        } else if str_eq(s, "CAD") {
            Currency::CAD
        } else if str_eq(s, "NZD") {
            Currency::NZD
        } else if str_eq(s, "ARS") {
            Currency::ARS
        } else if str_eq(s, "BRL") {
            Currency::BRL
        } else if str_eq(s, "CHF") {
            Currency::CHF
        } else if str_eq(s, "CLP") {
            Currency::CLP
        } else if str_eq(s, "COP") {
            Currency::COP
        } else if str_eq(s, "CZK") {
            Currency::CZK
        } else if str_eq(s, "DKK") {
            Currency::DKK
        } else if str_eq(s, "HKD") {
            Currency::HKD
        } else if str_eq(s, "ILS") {
            Currency::ILS
        } else if str_eq(s, "INR") {
            Currency::INR
        } else if str_eq(s, "ISK") {
            Currency::ISK
        } else if str_eq(s, "JPY") {
            Currency::JPY
        } else if str_eq(s, "KRW") {
            Currency::KRW
        } else if str_eq(s, "MXN") {
            Currency::MXN
        } else if str_eq(s, "MYR") {
            Currency::MYR
        } else if str_eq(s, "NOK") {
            Currency::NOK
        } else if str_eq(s, "PHP") {
            Currency::PHP
        } else if str_eq(s, "PLN") {
            Currency::PLN
        } else if str_eq(s, "SEK") {
            Currency::SEK
        } else if str_eq(s, "SGD") {
            Currency::SGD
        } else if str_eq(s, "THB") {
            Currency::THB
        } else if str_eq(s, "VND") {
            Currency::VND
        } else if str_eq(s, "ZAR") {
            Currency::ZAR
        } else if str_eq(s, "BTC") {
            Currency::BTC
        } else if str_eq(s, "ETH") {
            Currency::ETH
        } else if str_eq(s, "XLM") {
            Currency::XLM
        } else if str_eq(s, "sUSDC") {
            Currency::SUSDC
        } else if str_eq(s, "AVAX") {
            Currency::AVAX
        } else if str_eq(s, "DAI") {
            Currency::DAI
        } else if str_eq(s, "pDAI") {
            Currency::PDAI
        } else if str_eq(s, "USDC") {
            Currency::USDC
        } else if str_eq(s, "mUSDC") {
            Currency::MUSDC
        } else if str_eq(s, "L-BTC") {
            Currency::LBTC
        } else if str_eq(s, "USDT") {
            Currency::USDT
        } else if str_eq(s, "BUSD") {
            Currency::BUSD
        } else if str_eq(s, "GUSD") {
            Currency::GUSD
        } else if str_eq(s, "PAX") {
            Currency::PAX
        } else if str_eq(s, "USDS") {
            Currency::USDS
        } else if str_eq(s, "AAVE") {
            Currency::AAVE
        } else if str_eq(s, "COMP") {
            Currency::COMP
        } else if str_eq(s, "LINK") {
            Currency::LINK
        } else if str_eq(s, "WBTC") {
            Currency::WBTC
        } else if str_eq(s, "BAT") {
            Currency::BAT
        } else if str_eq(s, "CRV") {
            Currency::CRV
        } else if str_eq(s, "MKR") {
            Currency::MKR
        } else if str_eq(s, "SNX") {
            Currency::SNX
        } else if str_eq(s, "UMA") {
            Currency::UMA
        } else if str_eq(s, "UNI") {
            Currency::UNI
        } else if str_eq(s, "YFI") {
            Currency::YFI
        } else if str_eq(s, "GYEN") {
            Currency::GYEN
        } else if str_eq(s, "ZUSD") {
            Currency::ZUSD
        } else if str_eq(s, "MATIC") {
            Currency::MATIC
        } else {
            Currency::Other
        }
    }
}

proof fn lemma_token_reaches_usd()
    ensures
        spec_parse_currency(currency_token(Currency::USD)) == Currency::USD,
{
    reveal_strlit("USD");
}

proof fn lemma_token_reaches_eur()
    ensures
        spec_parse_currency(currency_token(Currency::EUR)) == Currency::EUR,
{
    reveal_strlit("USD");
    reveal_strlit("EUR");
    assert(("EUR"@)[0] != ("USD"@)[0]);
    assert("EUR"@ != "USD"@);
}

proof fn lemma_token_reaches_gbp()
    ensures
        spec_parse_currency(currency_token(Currency::GBP)) == Currency::GBP,
{
    reveal_strlit("USD");
    reveal_strlit("EUR");
    reveal_strlit("GBP");
    assert(("GBP"@)[0] != ("USD"@)[0]);
    assert(("GBP"@)[0] != ("EUR"@)[0]);
    assert("GBP"@ != "USD"@);
    assert("GBP"@ != "EUR"@);
}

proof fn lemma_token_reaches_aud()
    ensures
        spec_parse_currency(currency_token(Currency::AUD)) == Currency::AUD,
{
    reveal_strlit("USD");
    reveal_strlit("EUR");
    reveal_strlit("GBP");
    reveal_strlit("AUD");
    assert(("AUD"@)[0] != ("USD"@)[0]);
    assert(("AUD"@)[0] != ("EUR"@)[0]);
    assert(("AUD"@)[0] != ("GBP"@)[0]);
    assert("AUD"@ != "USD"@);
    assert("AUD"@ != "EUR"@);
    assert("AUD"@ != "GBP"@);
}

proof fn lemma_token_reaches_cad()
    ensures
        spec_parse_currency(currency_token(Currency::CAD)) == Currency::CAD,
{
    reveal_strlit("USD");
    reveal_strlit("EUR");
    reveal_strlit("GBP");
    reveal_strlit("AUD");
    reveal_strlit("CAD");
    assert(("CAD"@)[0] != ("USD"@)[0]);
    assert(("CAD"@)[0] != ("EUR"@)[0]);
    assert(("CAD"@)[0] != ("GBP"@)[0]);
    assert(("CAD"@)[0] != ("AUD"@)[0]);
    assert("CAD"@ != "USD"@);
    assert("CAD"@ != "EUR"@);
    assert("CAD"@ != "GBP"@);
    assert("CAD"@ != "AUD"@);
}

proof fn lemma_token_reaches_nzd()
    ensures
        spec_parse_currency(currency_token(Currency::NZD)) == Currency::NZD,
{
    reveal_strlit("USD");
    reveal_strlit("EUR");
    reveal_strlit("GBP");
    reveal_strlit("AUD");
    reveal_strlit("CAD");
    reveal_strlit("NZD");
    assert(("NZD"@)[0] != ("USD"@)[0]);
    assert(("NZD"@)[0] != ("EUR"@)[0]);
    assert(("NZD"@)[0] != ("GBP"@)[0]);
    assert(("NZD"@)[0] != ("AUD"@)[0]);
    assert(("NZD"@)[0] != ("CAD"@)[0]);
    assert("NZD"@ != "USD"@);
    assert("NZD"@ != "EUR"@);
    assert("NZD"@ != "GBP"@);
    assert("NZD"@ != "AUD"@);
    assert("NZD"@ != "CAD"@);
}

proof fn lemma_token_reaches_ars()
    ensures
        spec_parse_currency(currency_token(Currency::ARS)) == Currency::ARS,
{
    reveal_strlit("USD");
    reveal_strlit("EUR");
    reveal_strlit("GBP");
    reveal_strlit("AUD");
    reveal_strlit("CAD");
    reveal_strlit("NZD");
    reveal_strlit("ARS");
    assert(("ARS"@)[0] != ("USD"@)[0]);
    assert(("ARS"@)[0] != ("EUR"@)[0]);
    assert(("ARS"@)[0] != ("GBP"@)[0]);
    assert(("ARS"@)[1] != ("AUD"@)[1]);
    assert(("ARS"@)[0] != ("CAD"@)[0]);
    assert(("ARS"@)[0] != ("NZD"@)[0]);
    assert("ARS"@ != "USD"@);
    assert("ARS"@ != "EUR"@);
    assert("ARS"@ != "GBP"@);
    assert("ARS"@ != "AUD"@);
    assert("ARS"@ != "CAD"@);
    assert("ARS"@ != "NZD"@);
}

proof fn lemma_token_reaches_brl()
    ensures
        spec_parse_currency(currency_token(Currency::BRL)) == Currency::BRL,
{
    reveal_strlit("USD");
    reveal_strlit("EUR");
    reveal_strlit("GBP");
    reveal_strlit("AUD");
    reveal_strlit("CAD");
    reveal_strlit("NZD");
    reveal_strlit("ARS");
    reveal_strlit("BRL");
    assert(("BRL"@)[0] != ("USD"@)[0]);
    assert(("BRL"@)[0] != ("EUR"@)[0]);
    assert(("BRL"@)[0] != ("GBP"@)[0]);
    assert(("BRL"@)[0] != ("AUD"@)[0]);
    assert(("BRL"@)[0] != ("CAD"@)[0]);
    assert(("BRL"@)[0] != ("NZD"@)[0]);
    assert(("BRL"@)[0] != ("ARS"@)[0]);
    assert("BRL"@ != "USD"@);
    assert("BRL"@ != "EUR"@);
    assert("BRL"@ != "GBP"@);
    assert("BRL"@ != "AUD"@);
    assert("BRL"@ != "CAD"@);
    assert("BRL"@ != "NZD"@);
    assert("BRL"@ != "ARS"@);
}

proof fn lemma_token_reaches_chf()
    ensures
        spec_parse_currency(currency_token(Currency::CHF)) == Currency::CHF,
{
    reveal_strlit("USD");
    reveal_strlit("EUR");
    reveal_strlit("GBP");
    reveal_strlit("AUD");
    reveal_strlit("CAD");
    reveal_strlit("NZD");
    reveal_strlit("ARS");
    reveal_strlit("BRL");
    reveal_strlit("CHF");
    assert(("CHF"@)[0] != ("USD"@)[0]);
    assert(("CHF"@)[0] != ("EUR"@)[0]);
    assert(("CHF"@)[0] != ("GBP"@)[0]);
    assert(("CHF"@)[0] != ("AUD"@)[0]);
    assert(("CHF"@)[1] != ("CAD"@)[1]);
    assert(("CHF"@)[0] != ("NZD"@)[0]);
    assert(("CHF"@)[0] != ("ARS"@)[0]);
    assert(("CHF"@)[0] != ("BRL"@)[0]);
    assert("CHF"@ != "USD"@);
    assert("CHF"@ != "EUR"@);
    assert("CHF"@ != "GBP"@);
    assert("CHF"@ != "AUD"@);
    assert("CHF"@ != "CAD"@);
    assert("CHF"@ != "NZD"@);
    assert("CHF"@ != "ARS"@);
    assert("CHF"@ != "BRL"@);
}

proof fn lemma_token_reaches_clp()
    ensures
        spec_parse_currency(currency_token(Currency::CLP)) == Currency::CLP,
{
    reveal_strlit("USD");
    reveal_strlit("EUR");
    reveal_strlit("GBP");
    reveal_strlit("AUD");
    reveal_strlit("CAD");
    reveal_strlit("NZD");
    reveal_strlit("ARS");
    reveal_strlit("BRL");
    reveal_strlit("CHF");
    reveal_strlit("CLP");
    assert(("CLP"@)[0] != ("USD"@)[0]);
    assert(("CLP"@)[0] != ("EUR"@)[0]);
    assert(("CLP"@)[0] != ("GBP"@)[0]);
    assert(("CLP"@)[0] != ("AUD"@)[0]);
    assert(("CLP"@)[1] != ("CAD"@)[1]);
    assert(("CLP"@)[0] != ("NZD"@)[0]);
    assert(("CLP"@)[0] != ("ARS"@)[0]);
    assert(("CLP"@)[0] != ("BRL"@)[0]);
    assert(("CLP"@)[1] != ("CHF"@)[1]);
    assert("CLP"@ != "USD"@);
    assert("CLP"@ != "EUR"@);
    assert("CLP"@ != "GBP"@);
    assert("CLP"@ != "AUD"@);
    assert("CLP"@ != "CAD"@);
    assert("CLP"@ != "NZD"@);
    assert("CLP"@ != "ARS"@);
    assert("CLP"@ != "BRL"@);
    assert("CLP"@ != "CHF"@);
}

proof fn lemma_token_reaches_cop()
    ensures
        spec_parse_currency(currency_token(Currency::COP)) == Currency::COP,
{
    reveal_strlit("USD");
    reveal_strlit("EUR");
    reveal_strlit("GBP");
    reveal_strlit("AUD");
    reveal_strlit("CAD");
    reveal_strlit("NZD");
    reveal_strlit("ARS");
    reveal_strlit("BRL");
    reveal_strlit("CHF");
    reveal_strlit("CLP");
    reveal_strlit("COP");
    assert(("COP"@)[0] != ("USD"@)[0]);
    assert(("COP"@)[0] != ("EUR"@)[0]);
    assert(("COP"@)[0] != ("GBP"@)[0]);
    assert(("COP"@)[0] != ("AUD"@)[0]);
    assert(("COP"@)[1] != ("CAD"@)[1]);
    assert(("COP"@)[0] != ("NZD"@)[0]);
    assert(("COP"@)[0] != ("ARS"@)[0]);
    assert(("COP"@)[0] != ("BRL"@)[0]);
    assert(("COP"@)[1] != ("CHF"@)[1]);
    assert(("COP"@)[1] != ("CLP"@)[1]);
    assert("COP"@ != "USD"@);
    assert("COP"@ != "EUR"@);
    assert("COP"@ != "GBP"@);
    assert("COP"@ != "AUD"@);
    assert("COP"@ != "CAD"@);
    assert("COP"@ != "NZD"@);
    assert("COP"@ != "ARS"@);
    assert("COP"@ != "BRL"@);
    assert("COP"@ != "CHF"@);
    assert("COP"@ != "CLP"@);
}

proof fn lemma_token_reaches_czk()
    ensures
        spec_parse_currency(currency_token(Currency::CZK)) == Currency::CZK,
{
    reveal_strlit("USD");
    reveal_strlit("EUR");
    reveal_strlit("GBP");
    reveal_strlit("AUD");
    reveal_strlit("CAD");
    reveal_strlit("NZD");
    reveal_strlit("ARS");
    reveal_strlit("BRL");
    reveal_strlit("CHF");
    reveal_strlit("CLP");
    reveal_strlit("COP");
    reveal_strlit("CZK");
    assert(("CZK"@)[0] != ("USD"@)[0]);
    assert(("CZK"@)[0] != ("EUR"@)[0]);
    assert(("CZK"@)[0] != ("GBP"@)[0]);
    assert(("CZK"@)[0] != ("AUD"@)[0]);
    assert(("CZK"@)[1] != ("CAD"@)[1]);
    assert(("CZK"@)[0] != ("NZD"@)[0]);
    assert(("CZK"@)[0] != ("ARS"@)[0]);
    assert(("CZK"@)[0] != ("BRL"@)[0]);
    assert(("CZK"@)[1] != ("CHF"@)[1]);
    assert(("CZK"@)[1] != ("CLP"@)[1]);
    assert(("CZK"@)[1] != ("COP"@)[1]);
    assert("CZK"@ != "USD"@);
    assert("CZK"@ != "EUR"@);
    assert("CZK"@ != "GBP"@);
    assert("CZK"@ != "AUD"@);
    assert("CZK"@ != "CAD"@);
    assert("CZK"@ != "NZD"@);
    assert("CZK"@ != "ARS"@);
    assert("CZK"@ != "BRL"@);
    assert("CZK"@ != "CHF"@);
    assert("CZK"@ != "CLP"@);
    assert("CZK"@ != "COP"@);
}

proof fn lemma_token_reaches_dkk()
    ensures
        spec_parse_currency(currency_token(Currency::DKK)) == Currency::DKK,
{
    reveal_strlit("USD");
    reveal_strlit("EUR");
    reveal_strlit("GBP");
    reveal_strlit("AUD");
    reveal_strlit("CAD");
    reveal_strlit("NZD");
    reveal_strlit("ARS");
    reveal_strlit("BRL");
    reveal_strlit("CHF");
    reveal_strlit("CLP");
    reveal_strlit("COP");
    reveal_strlit("CZK");
    reveal_strlit("DKK");
    assert(("DKK"@)[0] != ("USD"@)[0]);
    assert(("DKK"@)[0] != ("EUR"@)[0]);
    assert(("DKK"@)[0] != ("GBP"@)[0]);
    assert(("DKK"@)[0] != ("AUD"@)[0]);
    assert(("DKK"@)[0] != ("CAD"@)[0]);
    assert(("DKK"@)[0] != ("NZD"@)[0]);
    assert(("DKK"@)[0] != ("ARS"@)[0]);
    assert(("DKK"@)[0] != ("BRL"@)[0]);
    assert(("DKK"@)[0] != ("CHF"@)[0]);
    assert(("DKK"@)[0] != ("CLP"@)[0]);
    assert(("DKK"@)[0] != ("COP"@)[0]);
    assert(("DKK"@)[0] != ("CZK"@)[0]);
    assert("DKK"@ != "USD"@);
    assert("DKK"@ != "EUR"@);
    assert("DKK"@ != "GBP"@);
    assert("DKK"@ != "AUD"@);
    assert("DKK"@ != "CAD"@);
    assert("DKK"@ != "NZD"@);
    assert("DKK"@ != "ARS"@);
    assert("DKK"@ != "BRL"@);
    assert("DKK"@ != "CHF"@);
    assert("DKK"@ != "CLP"@);
    assert("DKK"@ != "COP"@);
    assert("DKK"@ != "CZK"@);
}

proof fn lemma_token_reaches_hkd()
    ensures
        spec_parse_currency(currency_token(Currency::HKD)) == Currency::HKD,
{
    reveal_strlit("USD");
    reveal_strlit("EUR");
    reveal_strlit("GBP");
    reveal_strlit("AUD");
    reveal_strlit("CAD");
    reveal_strlit("NZD");
    reveal_strlit("ARS");
    reveal_strlit("BRL");
    reveal_strlit("CHF");
    reveal_strlit("CLP");
    reveal_strlit("COP");
    reveal_strlit("CZK");
    reveal_strlit("DKK");
    reveal_strlit("HKD");
    assert(("HKD"@)[0] != ("USD"@)[0]);
    assert(("HKD"@)[0] != ("EUR"@)[0]);
    assert(("HKD"@)[0] != ("GBP"@)[0]);
    assert(("HKD"@)[0] != ("AUD"@)[0]);
    assert(("HKD"@)[0] != ("CAD"@)[0]);
    assert(("HKD"@)[0] != ("NZD"@)[0]);
    assert(("HKD"@)[0] != ("ARS"@)[0]);
    assert(("HKD"@)[0] != ("BRL"@)[0]);
    assert(("HKD"@)[0] != ("CHF"@)[0]);
    assert(("HKD"@)[0] != ("CLP"@)[0]);
    assert(("HKD"@)[0] != ("COP"@)[0]);
    assert(("HKD"@)[0] != ("CZK"@)[0]);
    assert(("HKD"@)[0] != ("DKK"@)[0]);
    assert("HKD"@ != "USD"@);
    assert("HKD"@ != "EUR"@);
    assert("HKD"@ != "GBP"@);
    assert("HKD"@ != "AUD"@);
    assert("HKD"@ != "CAD"@);
    assert("HKD"@ != "NZD"@);
    assert("HKD"@ != "ARS"@);
    assert("HKD"@ != "BRL"@);
    assert("HKD"@ != "CHF"@);
    assert("HKD"@ != "CLP"@);
    assert("HKD"@ != "COP"@);
    assert("HKD"@ != "CZK"@);
    assert("HKD"@ != "DKK"@);
}

proof fn lemma_token_reaches_ils()
    ensures
        spec_parse_currency(currency_token(Currency::ILS)) == Currency::ILS,
{
    reveal_strlit("USD");
    reveal_strlit("EUR");
    reveal_strlit("GBP");
    reveal_strlit("AUD");
    reveal_strlit("CAD");
    reveal_strlit("NZD");
    reveal_strlit("ARS");
    reveal_strlit("BRL");
    reveal_strlit("CHF");
    reveal_strlit("CLP");
    reveal_strlit("COP");
    reveal_strlit("CZK");
    reveal_strlit("DKK");
    reveal_strlit("HKD");
    reveal_strlit("ILS");
    assert(("ILS"@)[0] != ("USD"@)[0]);
    assert(("ILS"@)[0] != ("EUR"@)[0]);
    assert(("ILS"@)[0] != ("GBP"@)[0]);
    assert(("ILS"@)[0] != ("AUD"@)[0]);
    assert(("ILS"@)[0] != ("CAD"@)[0]);
    assert(("ILS"@)[0] != ("NZD"@)[0]);
    assert(("ILS"@)[0] != ("ARS"@)[0]);
    assert(("ILS"@)[0] != ("BRL"@)[0]);
    assert(("ILS"@)[0] != ("CHF"@)[0]);
    assert(("ILS"@)[0] != ("CLP"@)[0]);
    assert(("ILS"@)[0] != ("COP"@)[0]);
    assert(("ILS"@)[0] != ("CZK"@)[0]);
    assert(("ILS"@)[0] != ("DKK"@)[0]);
    assert(("ILS"@)[0] != ("HKD"@)[0]);
    assert("ILS"@ != "USD"@);
    assert("ILS"@ != "EUR"@);
    assert("ILS"@ != "GBP"@);
    assert("ILS"@ != "AUD"@);
    assert("ILS"@ != "CAD"@);
    assert("ILS"@ != "NZD"@);
    assert("ILS"@ != "ARS"@);
    assert("ILS"@ != "BRL"@);
    assert("ILS"@ != "CHF"@);
    assert("ILS"@ != "CLP"@);
    assert("ILS"@ != "COP"@);
    assert("ILS"@ != "CZK"@);
    assert("ILS"@ != "DKK"@);
    assert("ILS"@ != "HKD"@);
}

proof fn lemma_token_reaches_inr()
    ensures
        spec_parse_currency(currency_token(Currency::INR)) == Currency::INR,
{
    reveal_strlit("USD");
    reveal_strlit("EUR");
    reveal_strlit("GBP");
    reveal_strlit("AUD");
    reveal_strlit("CAD");
    reveal_strlit("NZD");
    reveal_strlit("ARS");
    reveal_strlit("BRL");
    reveal_strlit("CHF");
    reveal_strlit("CLP");
    reveal_strlit("COP");
    reveal_strlit("CZK");
    reveal_strlit("DKK");
    reveal_strlit("HKD");
    reveal_strlit("ILS");
    reveal_strlit("INR");
    assert(("INR"@)[0] != ("USD"@)[0]);
    assert(("INR"@)[0] != ("EUR"@)[0]);
    assert(("INR"@)[0] != ("GBP"@)[0]);
    assert(("INR"@)[0] != ("AUD"@)[0]);
    assert(("INR"@)[0] != ("CAD"@)[0]);
    assert(("INR"@)[0] != ("NZD"@)[0]);
    assert(("INR"@)[0] != ("ARS"@)[0]);
    assert(("INR"@)[0] != ("BRL"@)[0]);
    assert(("INR"@)[0] != ("CHF"@)[0]);
    assert(("INR"@)[0] != ("CLP"@)[0]);
    assert(("INR"@)[0] != ("COP"@)[0]);
    assert(("INR"@)[0] != ("CZK"@)[0]);
    assert(("INR"@)[0] != ("DKK"@)[0]);
    assert(("INR"@)[0] != ("HKD"@)[0]);
    assert(("INR"@)[1] != ("ILS"@)[1]);
    assert("INR"@ != "USD"@);
    assert("INR"@ != "EUR"@);
    assert("INR"@ != "GBP"@);
    assert("INR"@ != "AUD"@);
    assert("INR"@ != "CAD"@);
    assert("INR"@ != "NZD"@);
    assert("INR"@ != "ARS"@);
    assert("INR"@ != "BRL"@);
    assert("INR"@ != "CHF"@);
    assert("INR"@ != "CLP"@);
    assert("INR"@ != "COP"@);
    assert("INR"@ != "CZK"@);
    assert("INR"@ != "DKK"@);
    assert("INR"@ != "HKD"@);
    assert("INR"@ != "ILS"@);
}

proof fn lemma_token_reaches_isk()
    ensures
        spec_parse_currency(currency_token(Currency::ISK)) == Currency::ISK,
{
    reveal_strlit("USD");
    reveal_strlit("EUR");
    reveal_strlit("GBP");
    reveal_strlit("AUD");
    reveal_strlit("CAD");
    reveal_strlit("NZD");
    reveal_strlit("ARS");
    reveal_strlit("BRL");
    reveal_strlit("CHF");
    reveal_strlit("CLP");
    reveal_strlit("COP");
    reveal_strlit("CZK");
    reveal_strlit("DKK");
    reveal_strlit("HKD");
    reveal_strlit("ILS");
    reveal_strlit("INR");
    reveal_strlit("ISK");
    assert(("ISK"@)[0] != ("USD"@)[0]);
    assert(("ISK"@)[0] != ("EUR"@)[0]);
    assert(("ISK"@)[0] != ("GBP"@)[0]);
    assert(("ISK"@)[0] != ("AUD"@)[0]);
    assert(("ISK"@)[0] != ("CAD"@)[0]);
    assert(("ISK"@)[0] != ("NZD"@)[0]);
    assert(("ISK"@)[0] != ("ARS"@)[0]);
    assert(("ISK"@)[0] != ("BRL"@)[0]);
    assert(("ISK"@)[0] != ("CHF"@)[0]);
    assert(("ISK"@)[0] != ("CLP"@)[0]);
    assert(("ISK"@)[0] != ("COP"@)[0]);
    assert(("ISK"@)[0] != ("CZK"@)[0]);
    assert(("ISK"@)[0] != ("DKK"@)[0]);
    assert(("ISK"@)[0] != ("HKD"@)[0]);
    assert(("ISK"@)[1] != ("ILS"@)[1]);
    assert(("ISK"@)[1] != ("INR"@)[1]);
    assert("ISK"@ != "USD"@);
    assert("ISK"@ != "EUR"@);
    assert("ISK"@ != "GBP"@);
    assert("ISK"@ != "AUD"@);
    assert("ISK"@ != "CAD"@);
    assert("ISK"@ != "NZD"@);
    assert("ISK"@ != "ARS"@);
    assert("ISK"@ != "BRL"@);
    assert("ISK"@ != "CHF"@);
    assert("ISK"@ != "CLP"@);
    assert("ISK"@ != "COP"@);
    assert("ISK"@ != "CZK"@);
    assert("ISK"@ != "DKK"@);
    assert("ISK"@ != "HKD"@);
    assert("ISK"@ != "ILS"@);
    assert("ISK"@ != "INR"@);
}

proof fn lemma_token_reaches_jpy()
    ensures
        spec_parse_currency(currency_token(Currency::JPY)) == Currency::JPY,
{
    reveal_strlit("USD");
    reveal_strlit("EUR");
    reveal_strlit("GBP");
    reveal_strlit("AUD");
    reveal_strlit("CAD");
    reveal_strlit("NZD");
    reveal_strlit("ARS");
    reveal_strlit("BRL");
    reveal_strlit("CHF");
    reveal_strlit("CLP");
    reveal_strlit("COP");
    reveal_strlit("CZK");
    reveal_strlit("DKK");
    reveal_strlit("HKD");
    reveal_strlit("ILS");
    reveal_strlit("INR");
    reveal_strlit("ISK");
    reveal_strlit("JPY");
    assert(("JPY"@)[0] != ("USD"@)[0]);
    assert(("JPY"@)[0] != ("EUR"@)[0]);
    assert(("JPY"@)[0] != ("GBP"@)[0]);
    assert(("JPY"@)[0] != ("AUD"@)[0]);
    assert(("JPY"@)[0] != ("CAD"@)[0]);
    assert(("JPY"@)[0] != ("NZD"@)[0]);
    assert(("JPY"@)[0] != ("ARS"@)[0]);
    assert(("JPY"@)[0] != ("BRL"@)[0]);
    assert(("JPY"@)[0] != ("CHF"@)[0]);
    assert(("JPY"@)[0] != ("CLP"@)[0]);
    assert(("JPY"@)[0] != ("COP"@)[0]);
    assert(("JPY"@)[0] != ("CZK"@)[0]);
    assert(("JPY"@)[0] != ("DKK"@)[0]);
    assert(("JPY"@)[0] != ("HKD"@)[0]);
    assert(("JPY"@)[0] != ("ILS"@)[0]);
    assert(("JPY"@)[0] != ("INR"@)[0]);
    assert(("JPY"@)[0] != ("ISK"@)[0]);
    assert("JPY"@ != "USD"@);
    assert("JPY"@ != "EUR"@);
    assert("JPY"@ != "GBP"@);
    assert("JPY"@ != "AUD"@);
    assert("JPY"@ != "CAD"@);
    assert("JPY"@ != "NZD"@);
    assert("JPY"@ != "ARS"@);
    assert("JPY"@ != "BRL"@);
    assert("JPY"@ != "CHF"@);
    assert("JPY"@ != "CLP"@);
    assert("JPY"@ != "COP"@);
    assert("JPY"@ != "CZK"@);
    assert("JPY"@ != "DKK"@);
    assert("JPY"@ != "HKD"@);
    assert("JPY"@ != "ILS"@);
    assert("JPY"@ != "INR"@);
    assert("JPY"@ != "ISK"@);
}

proof fn lemma_token_reaches_krw()
    ensures
        spec_parse_currency(currency_token(Currency::KRW)) == Currency::KRW,
{
    reveal_strlit("USD");
    reveal_strlit("EUR");
    reveal_strlit("GBP");
    reveal_strlit("AUD");
    reveal_strlit("CAD");
    reveal_strlit("NZD");
    reveal_strlit("ARS");
    reveal_strlit("BRL");
    reveal_strlit("CHF");
    reveal_strlit("CLP");
    reveal_strlit("COP");
    reveal_strlit("CZK");
    reveal_strlit("DKK");
    reveal_strlit("HKD");
    reveal_strlit("ILS");
    reveal_strlit("INR");
    reveal_strlit("ISK");
    reveal_strlit("JPY");
    reveal_strlit("KRW");
    assert(("KRW"@)[0] != ("USD"@)[0]);
    assert(("KRW"@)[0] != ("EUR"@)[0]);
    assert(("KRW"@)[0] != ("GBP"@)[0]);
    assert(("KRW"@)[0] != ("AUD"@)[0]);
    assert(("KRW"@)[0] != ("CAD"@)[0]);
    assert(("KRW"@)[0] != ("NZD"@)[0]);
    assert(("KRW"@)[0] != ("ARS"@)[0]);
    assert(("KRW"@)[0] != ("BRL"@)[0]);
    assert(("KRW"@)[0] != ("CHF"@)[0]);
    assert(("KRW"@)[0] != ("CLP"@)[0]);
    assert(("KRW"@)[0] != ("COP"@)[0]);
    assert(("KRW"@)[0] != ("CZK"@)[0]);
    assert(("KRW"@)[0] != ("DKK"@)[0]);
    assert(("KRW"@)[0] != ("HKD"@)[0]);
    assert(("KRW"@)[0] != ("ILS"@)[0]);
    assert(("KRW"@)[0] != ("INR"@)[0]);
    assert(("KRW"@)[0] != ("ISK"@)[0]);
    assert(("KRW"@)[0] != ("JPY"@)[0]);
    assert("KRW"@ != "USD"@);
    assert("KRW"@ != "EUR"@);
    assert("KRW"@ != "GBP"@);
    assert("KRW"@ != "AUD"@);
    assert("KRW"@ != "CAD"@);
    assert("KRW"@ != "NZD"@);
    assert("KRW"@ != "ARS"@);
    assert("KRW"@ != "BRL"@);
    assert("KRW"@ != "CHF"@);
    assert("KRW"@ != "CLP"@);
    assert("KRW"@ != "COP"@);
    assert("KRW"@ != "CZK"@);
    assert("KRW"@ != "DKK"@);
    assert("KRW"@ != "HKD"@);
    assert("KRW"@ != "ILS"@);
    assert("KRW"@ != "INR"@);
    assert("KRW"@ != "ISK"@);
    assert("KRW"@ != "JPY"@);
}

proof fn lemma_token_reaches_mxn()
    ensures
        spec_parse_currency(currency_token(Currency::MXN)) == Currency::MXN,
{
    reveal_strlit("USD");
    reveal_strlit("EUR");
    reveal_strlit("GBP");
    reveal_strlit("AUD");
    reveal_strlit("CAD");
    reveal_strlit("NZD");
    reveal_strlit("ARS");
    reveal_strlit("BRL");
    reveal_strlit("CHF");
    reveal_strlit("CLP");
    reveal_strlit("COP");
    reveal_strlit("CZK");
    reveal_strlit("DKK");
    reveal_strlit("HKD");
    reveal_strlit("ILS");
    reveal_strlit("INR");
    reveal_strlit("ISK");
    reveal_strlit("JPY");
    reveal_strlit("KRW");
    reveal_strlit("MXN");
    assert(("MXN"@)[0] != ("USD"@)[0]);
    assert(("MXN"@)[0] != ("EUR"@)[0]);
    assert(("MXN"@)[0] != ("GBP"@)[0]);
    assert(("MXN"@)[0] != ("AUD"@)[0]);
    assert(("MXN"@)[0] != ("CAD"@)[0]);
    assert(("MXN"@)[0] != ("NZD"@)[0]);
    assert(("MXN"@)[0] != ("ARS"@)[0]);
    assert(("MXN"@)[0] != ("BRL"@)[0]);
    assert(("MXN"@)[0] != ("CHF"@)[0]);
    assert(("MXN"@)[0] != ("CLP"@)[0]);
    assert(("MXN"@)[0] != ("COP"@)[0]);
    assert(("MXN"@)[0] != ("CZK"@)[0]);
    assert(("MXN"@)[0] != ("DKK"@)[0]);
    assert(("MXN"@)[0] != ("HKD"@)[0]);
    assert(("MXN"@)[0] != ("ILS"@)[0]);
    assert(("MXN"@)[0] != ("INR"@)[0]);
    assert(("MXN"@)[0] != ("ISK"@)[0]);
    assert(("MXN"@)[0] != ("JPY"@)[0]);
    assert(("MXN"@)[0] != ("KRW"@)[0]);
    assert("MXN"@ != "USD"@);
    assert("MXN"@ != "EUR"@);
    assert("MXN"@ != "GBP"@);
    assert("MXN"@ != "AUD"@);
    assert("MXN"@ != "CAD"@);
    assert("MXN"@ != "NZD"@);
    assert("MXN"@ != "ARS"@);
    assert("MXN"@ != "BRL"@);
    assert("MXN"@ != "CHF"@);
    assert("MXN"@ != "CLP"@);
    assert("MXN"@ != "COP"@);
    assert("MXN"@ != "CZK"@);
    assert("MXN"@ != "DKK"@);
    assert("MXN"@ != "HKD"@);
    assert("MXN"@ != "ILS"@);
    assert("MXN"@ != "INR"@);
    assert("MXN"@ != "ISK"@);
    assert("MXN"@ != "JPY"@);
    assert("MXN"@ != "KRW"@);
}

proof fn lemma_token_reaches_myr()
    ensures
        spec_parse_currency(currency_token(Currency::MYR)) == Currency::MYR,
{
    reveal_strlit("USD");
    reveal_strlit("EUR");
    reveal_strlit("GBP");
    reveal_strlit("AUD");
    reveal_strlit("CAD");
    reveal_strlit("NZD");
    reveal_strlit("ARS");
    reveal_strlit("BRL");
    reveal_strlit("CHF");
    reveal_strlit("CLP");
    reveal_strlit("COP");
    reveal_strlit("CZK");
    reveal_strlit("DKK");
    reveal_strlit("HKD");
    reveal_strlit("ILS");
    reveal_strlit("INR");
    reveal_strlit("ISK");
    reveal_strlit("JPY");
    reveal_strlit("KRW");
    reveal_strlit("MXN");
    reveal_strlit("MYR");
    assert(("MYR"@)[0] != ("USD"@)[0]);
    assert(("MYR"@)[0] != ("EUR"@)[0]);
    assert(("MYR"@)[0] != ("GBP"@)[0]);
    assert(("MYR"@)[0] != ("AUD"@)[0]);
    assert(("MYR"@)[0] != ("CAD"@)[0]);
    assert(("MYR"@)[0] != ("NZD"@)[0]);
    assert(("MYR"@)[0] != ("ARS"@)[0]);
    assert(("MYR"@)[0] != ("BRL"@)[0]);
    assert(("MYR"@)[0] != ("CHF"@)[0]);
    assert(("MYR"@)[0] != ("CLP"@)[0]);
    assert(("MYR"@)[0] != ("COP"@)[0]);
    assert(("MYR"@)[0] != ("CZK"@)[0]);
    assert(("MYR"@)[0] != ("DKK"@)[0]);
    assert(("MYR"@)[0] != ("HKD"@)[0]);
    assert(("MYR"@)[0] != ("ILS"@)[0]);
    assert(("MYR"@)[0] != ("INR"@)[0]);
    assert(("MYR"@)[0] != ("ISK"@)[0]);
    assert(("MYR"@)[0] != ("JPY"@)[0]);
    assert(("MYR"@)[0] != ("KRW"@)[0]);
    assert(("MYR"@)[1] != ("MXN"@)[1]);
    assert("MYR"@ != "USD"@);
    assert("MYR"@ != "EUR"@);
    assert("MYR"@ != "GBP"@);
    assert("MYR"@ != "AUD"@);
    assert("MYR"@ != "CAD"@);
    assert("MYR"@ != "NZD"@);
    assert("MYR"@ != "ARS"@);
    assert("MYR"@ != "BRL"@);
    assert("MYR"@ != "CHF"@);
    assert("MYR"@ != "CLP"@);
    assert("MYR"@ != "COP"@);
    assert("MYR"@ != "CZK"@);
    assert("MYR"@ != "DKK"@);
    assert("MYR"@ != "HKD"@);
    assert("MYR"@ != "ILS"@);
    assert("MYR"@ != "INR"@);
    assert("MYR"@ != "ISK"@);
    assert("MYR"@ != "JPY"@);
    assert("MYR"@ != "KRW"@);
    assert("MYR"@ != "MXN"@);
}

proof fn lemma_token_reaches_nok()
    ensures
        spec_parse_currency(currency_token(Currency::NOK)) == Currency::NOK,
{
    reveal_strlit("USD");
    reveal_strlit("EUR");
    reveal_strlit("GBP");
    reveal_strlit("AUD");
    reveal_strlit("CAD");
    reveal_strlit("NZD");
    reveal_strlit("ARS");
    reveal_strlit("BRL");
    reveal_strlit("CHF");
    reveal_strlit("CLP");
    reveal_strlit("COP");
    reveal_strlit("CZK");
    reveal_strlit("DKK");
    reveal_strlit("HKD");
    reveal_strlit("ILS");
    reveal_strlit("INR");
    reveal_strlit("ISK");
    reveal_strlit("JPY");
    reveal_strlit("KRW");
    reveal_strlit("MXN");
    reveal_strlit("MYR");
    reveal_strlit("NOK");
    assert(("NOK"@)[0] != ("USD"@)[0]);
    assert(("NOK"@)[0] != ("EUR"@)[0]);
    assert(("NOK"@)[0] != ("GBP"@)[0]);
    assert(("NOK"@)[0] != ("AUD"@)[0]);
    assert(("NOK"@)[0] != ("CAD"@)[0]);
    assert(("NOK"@)[1] != ("NZD"@)[1]);
    assert(("NOK"@)[0] != ("ARS"@)[0]);
    assert(("NOK"@)[0] != ("BRL"@)[0]);
    assert(("NOK"@)[0] != ("CHF"@)[0]);
    assert(("NOK"@)[0] != ("CLP"@)[0]);
    assert(("NOK"@)[0] != ("COP"@)[0]);
    assert(("NOK"@)[0] != ("CZK"@)[0]);
    assert(("NOK"@)[0] != ("DKK"@)[0]);
    assert(("NOK"@)[0] != ("HKD"@)[0]);
    assert(("NOK"@)[0] != ("ILS"@)[0]);
    assert(("NOK"@)[0] != ("INR"@)[0]);
    assert(("NOK"@)[0] != ("ISK"@)[0]);
    assert(("NOK"@)[0] != ("JPY"@)[0]);
    assert(("NOK"@)[0] != ("KRW"@)[0]);
    assert(("NOK"@)[0] != ("MXN"@)[0]);
    assert(("NOK"@)[0] != ("MYR"@)[0]);
    assert("NOK"@ != "USD"@);
    assert("NOK"@ != "EUR"@);
    assert("NOK"@ != "GBP"@);
    assert("NOK"@ != "AUD"@);
    assert("NOK"@ != "CAD"@);
    assert("NOK"@ != "NZD"@);
    assert("NOK"@ != "ARS"@);
    assert("NOK"@ != "BRL"@);
    assert("NOK"@ != "CHF"@);
    assert("NOK"@ != "CLP"@);
    assert("NOK"@ != "COP"@);
    assert("NOK"@ != "CZK"@);
    assert("NOK"@ != "DKK"@);
    assert("NOK"@ != "HKD"@);
    assert("NOK"@ != "ILS"@);
    assert("NOK"@ != "INR"@);
    assert("NOK"@ != "ISK"@);
    assert("NOK"@ != "JPY"@);
    assert("NOK"@ != "KRW"@);
    assert("NOK"@ != "MXN"@);
    assert("NOK"@ != "MYR"@);
}

proof fn lemma_token_reaches_php()
    ensures
        spec_parse_currency(currency_token(Currency::PHP)) == Currency::PHP,
{
    reveal_strlit("USD");
    reveal_strlit("EUR");
    reveal_strlit("GBP");
    reveal_strlit("AUD");
    reveal_strlit("CAD");
    reveal_strlit("NZD");
    reveal_strlit("ARS");
    reveal_strlit("BRL");
    reveal_strlit("CHF");
    reveal_strlit("CLP");
    reveal_strlit("COP");
    reveal_strlit("CZK");
    reveal_strlit("DKK");
    reveal_strlit("HKD");
    reveal_strlit("ILS");
    reveal_strlit("INR");
    reveal_strlit("ISK");
    reveal_strlit("JPY");
    reveal_strlit("KRW");
    reveal_strlit("MXN");
    reveal_strlit("MYR");
    reveal_strlit("NOK");
    reveal_strlit("PHP");
    assert(("PHP"@)[0] != ("USD"@)[0]);
    assert(("PHP"@)[0] != ("EUR"@)[0]);
    assert(("PHP"@)[0] != ("GBP"@)[0]);
    assert(("PHP"@)[0] != ("AUD"@)[0]);
    assert(("PHP"@)[0] != ("CAD"@)[0]);
    assert(("PHP"@)[0] != ("NZD"@)[0]);
    assert(("PHP"@)[0] != ("ARS"@)[0]);
    assert(("PHP"@)[0] != ("BRL"@)[0]);
    assert(("PHP"@)[0] != ("CHF"@)[0]);
    assert(("PHP"@)[0] != ("CLP"@)[0]);
    assert(("PHP"@)[0] != ("COP"@)[0]);
    assert(("PHP"@)[0] != ("CZK"@)[0]);
    assert(("PHP"@)[0] != ("DKK"@)[0]);
    assert(("PHP"@)[0] != ("HKD"@)[0]);
    assert(("PHP"@)[0] != ("ILS"@)[0]);
    assert(("PHP"@)[0] != ("INR"@)[0]);
    assert(("PHP"@)[0] != ("ISK"@)[0]);
    assert(("PHP"@)[0] != ("JPY"@)[0]);
    assert(("PHP"@)[0] != ("KRW"@)[0]);
    assert(("PHP"@)[0] != ("MXN"@)[0]);
    assert(("PHP"@)[0] != ("MYR"@)[0]);
    assert(("PHP"@)[0] != ("NOK"@)[0]);
    assert("PHP"@ != "USD"@);
    assert("PHP"@ != "EUR"@);
    assert("PHP"@ != "GBP"@);
    assert("PHP"@ != "AUD"@);
    assert("PHP"@ != "CAD"@);
    assert("PHP"@ != "NZD"@);
    assert("PHP"@ != "ARS"@);
    assert("PHP"@ != "BRL"@);
    assert("PHP"@ != "CHF"@);
    assert("PHP"@ != "CLP"@);
    assert("PHP"@ != "COP"@);
    assert("PHP"@ != "CZK"@);
    assert("PHP"@ != "DKK"@);
    assert("PHP"@ != "HKD"@);
    assert("PHP"@ != "ILS"@);
    assert("PHP"@ != "INR"@);
    assert("PHP"@ != "ISK"@);
    assert("PHP"@ != "JPY"@);
    assert("PHP"@ != "KRW"@);
    assert("PHP"@ != "MXN"@);
    assert("PHP"@ != "MYR"@);
    assert("PHP"@ != "NOK"@);
}

proof fn lemma_token_reaches_pln()
    ensures
        spec_parse_currency(currency_token(Currency::PLN)) == Currency::PLN,
{
    reveal_strlit("USD");
    reveal_strlit("EUR");
    reveal_strlit("GBP");
    reveal_strlit("AUD");
    reveal_strlit("CAD");
    reveal_strlit("NZD");
    reveal_strlit("ARS");
    reveal_strlit("BRL");
    reveal_strlit("CHF");
    reveal_strlit("CLP");
    reveal_strlit("COP");
    reveal_strlit("CZK");
    reveal_strlit("DKK");
    reveal_strlit("HKD");
    reveal_strlit("ILS");
    reveal_strlit("INR");
    reveal_strlit("ISK");
    reveal_strlit("JPY");
    reveal_strlit("KRW");
    reveal_strlit("MXN");
    reveal_strlit("MYR");
    reveal_strlit("NOK");
    reveal_strlit("PHP");
    reveal_strlit("PLN");
    assert(("PLN"@)[0] != ("USD"@)[0]);
    assert(("PLN"@)[0] != ("EUR"@)[0]);
    assert(("PLN"@)[0] != ("GBP"@)[0]);
    assert(("PLN"@)[0] != ("AUD"@)[0]);
    assert(("PLN"@)[0] != ("CAD"@)[0]);
    assert(("PLN"@)[0] != ("NZD"@)[0]);
    assert(("PLN"@)[0] != ("ARS"@)[0]);
    assert(("PLN"@)[0] != ("BRL"@)[0]);
    assert(("PLN"@)[0] != ("CHF"@)[0]);
    assert(("PLN"@)[0] != ("CLP"@)[0]);
    assert(("PLN"@)[0] != ("COP"@)[0]);
    assert(("PLN"@)[0] != ("CZK"@)[0]);
    assert(("PLN"@)[0] != ("DKK"@)[0]);
    assert(("PLN"@)[0] != ("HKD"@)[0]);
    assert(("PLN"@)[0] != ("ILS"@)[0]);
    assert(("PLN"@)[0] != ("INR"@)[0]);
    assert(("PLN"@)[0] != ("ISK"@)[0]);
    assert(("PLN"@)[0] != ("JPY"@)[0]);
    assert(("PLN"@)[0] != ("KRW"@)[0]);
    assert(("PLN"@)[0] != ("MXN"@)[0]);
    assert(("PLN"@)[0] != ("MYR"@)[0]);
    assert(("PLN"@)[0] != ("NOK"@)[0]);
    assert(("PLN"@)[1] != ("PHP"@)[1]);
    assert("PLN"@ != "USD"@);
    assert("PLN"@ != "EUR"@);
    assert("PLN"@ != "GBP"@);
    assert("PLN"@ != "AUD"@);
    assert("PLN"@ != "CAD"@);
    assert("PLN"@ != "NZD"@);
    assert("PLN"@ != "ARS"@);
    assert("PLN"@ != "BRL"@);
    assert("PLN"@ != "CHF"@);
    assert("PLN"@ != "CLP"@);
    assert("PLN"@ != "COP"@);
    assert("PLN"@ != "CZK"@);
    assert("PLN"@ != "DKK"@);
    assert("PLN"@ != "HKD"@);
    assert("PLN"@ != "ILS"@);
    assert("PLN"@ != "INR"@);
    assert("PLN"@ != "ISK"@);
    assert("PLN"@ != "JPY"@);
    assert("PLN"@ != "KRW"@);
    assert("PLN"@ != "MXN"@);
    assert("PLN"@ != "MYR"@);
    assert("PLN"@ != "NOK"@);
    assert("PLN"@ != "PHP"@);
}

proof fn lemma_token_reaches_sek()
    ensures
        spec_parse_currency(currency_token(Currency::SEK)) == Currency::SEK,
{
    reveal_strlit("USD");
    reveal_strlit("EUR");
    reveal_strlit("GBP");
    reveal_strlit("AUD");
    reveal_strlit("CAD");
    reveal_strlit("NZD");
    reveal_strlit("ARS");
    reveal_strlit("BRL");
    reveal_strlit("CHF");
    reveal_strlit("CLP");
    reveal_strlit("COP");
    reveal_strlit("CZK");
    reveal_strlit("DKK");
    reveal_strlit("HKD");
    reveal_strlit("ILS");
    reveal_strlit("INR");
    reveal_strlit("ISK");
    reveal_strlit("JPY");
    reveal_strlit("KRW");
    reveal_strlit("MXN");
    reveal_strlit("MYR");
    reveal_strlit("NOK");
    reveal_strlit("PHP");
    reveal_strlit("PLN");
    reveal_strlit("SEK");
    assert(("SEK"@)[0] != ("USD"@)[0]);
    assert(("SEK"@)[0] != ("EUR"@)[0]);
    assert(("SEK"@)[0] != ("GBP"@)[0]);
    assert(("SEK"@)[0] != ("AUD"@)[0]);
    assert(("SEK"@)[0] != ("CAD"@)[0]);
    assert(("SEK"@)[0] != ("NZD"@)[0]);
    assert(("SEK"@)[0] != ("ARS"@)[0]);
    assert(("SEK"@)[0] != ("BRL"@)[0]);
    assert(("SEK"@)[0] != ("CHF"@)[0]);
    assert(("SEK"@)[0] != ("CLP"@)[0]);
    assert(("SEK"@)[0] != ("COP"@)[0]);
    assert(("SEK"@)[0] != ("CZK"@)[0]);
    assert(("SEK"@)[0] != ("DKK"@)[0]);
    assert(("SEK"@)[0] != ("HKD"@)[0]);
    assert(("SEK"@)[0] != ("ILS"@)[0]);
    assert(("SEK"@)[0] != ("INR"@)[0]);
    assert(("SEK"@)[0] != ("ISK"@)[0]);
    assert(("SEK"@)[0] != ("JPY"@)[0]);
    assert(("SEK"@)[0] != ("KRW"@)[0]);
    assert(("SEK"@)[0] != ("MXN"@)[0]);
    assert(("SEK"@)[0] != ("MYR"@)[0]);
    assert(("SEK"@)[0] != ("NOK"@)[0]);
    assert(("SEK"@)[0] != ("PHP"@)[0]);
    assert(("SEK"@)[0] != ("PLN"@)[0]);
    assert("SEK"@ != "USD"@);
    assert("SEK"@ != "EUR"@);
    assert("SEK"@ != "GBP"@);
    assert("SEK"@ != "AUD"@);
    assert("SEK"@ != "CAD"@);
    assert("SEK"@ != "NZD"@);
    assert("SEK"@ != "ARS"@);
    assert("SEK"@ != "BRL"@);
    assert("SEK"@ != "CHF"@);
    assert("SEK"@ != "CLP"@);
    assert("SEK"@ != "COP"@);
    assert("SEK"@ != "CZK"@);
    assert("SEK"@ != "DKK"@);
    assert("SEK"@ != "HKD"@);
    assert("SEK"@ != "ILS"@);
    assert("SEK"@ != "INR"@);
    assert("SEK"@ != "ISK"@);
    assert("SEK"@ != "JPY"@);
    assert("SEK"@ != "KRW"@);
    assert("SEK"@ != "MXN"@);
    assert("SEK"@ != "MYR"@);
    assert("SEK"@ != "NOK"@);
    assert("SEK"@ != "PHP"@);
    assert("SEK"@ != "PLN"@);
}

proof fn lemma_token_reaches_sgd()
    ensures
        spec_parse_currency(currency_token(Currency::SGD)) == Currency::SGD,
{
    reveal_strlit("USD");
    reveal_strlit("EUR");
    reveal_strlit("GBP");
    reveal_strlit("AUD");
    reveal_strlit("CAD");
    reveal_strlit("NZD");
    reveal_strlit("ARS");
    reveal_strlit("BRL");
    reveal_strlit("CHF");
    reveal_strlit("CLP");
    reveal_strlit("COP");
    reveal_strlit("CZK");
    reveal_strlit("DKK");
    reveal_strlit("HKD");
    reveal_strlit("ILS");
    reveal_strlit("INR");
    reveal_strlit("ISK");
    reveal_strlit("JPY");
    reveal_strlit("KRW");
    reveal_strlit("MXN");
    reveal_strlit("MYR");
    reveal_strlit("NOK");
    reveal_strlit("PHP");
    reveal_strlit("PLN");
    reveal_strlit("SEK");
    reveal_strlit("SGD");
    assert(("SGD"@)[0] != ("USD"@)[0]);
    assert(("SGD"@)[0] != ("EUR"@)[0]);
    assert(("SGD"@)[0] != ("GBP"@)[0]);
    assert(("SGD"@)[0] != ("AUD"@)[0]);
    assert(("SGD"@)[0] != ("CAD"@)[0]);
    assert(("SGD"@)[0] != ("NZD"@)[0]);
    assert(("SGD"@)[0] != ("ARS"@)[0]);
    assert(("SGD"@)[0] != ("BRL"@)[0]);
    assert(("SGD"@)[0] != ("CHF"@)[0]);
    assert(("SGD"@)[0] != ("CLP"@)[0]);
    assert(("SGD"@)[0] != ("COP"@)[0]);
    assert(("SGD"@)[0] != ("CZK"@)[0]);
    assert(("SGD"@)[0] != ("DKK"@)[0]);
    assert(("SGD"@)[0] != ("HKD"@)[0]);
    assert(("SGD"@)[0] != ("ILS"@)[0]);
    assert(("SGD"@)[0] != ("INR"@)[0]);
    assert(("SGD"@)[0] != ("ISK"@)[0]);
    assert(("SGD"@)[0] != ("JPY"@)[0]);
    assert(("SGD"@)[0] != ("KRW"@)[0]);
    assert(("SGD"@)[0] != ("MXN"@)[0]);
    assert(("SGD"@)[0] != ("MYR"@)[0]);
    assert(("SGD"@)[0] != ("NOK"@)[0]);
    assert(("SGD"@)[0] != ("PHP"@)[0]);
    assert(("SGD"@)[0] != ("PLN"@)[0]);
    assert(("SGD"@)[1] != ("SEK"@)[1]);
    assert("SGD"@ != "USD"@);
    assert("SGD"@ != "EUR"@);
    assert("SGD"@ != "GBP"@);
    assert("SGD"@ != "AUD"@);
    assert("SGD"@ != "CAD"@);
    assert("SGD"@ != "NZD"@);
    assert("SGD"@ != "ARS"@);
    assert("SGD"@ != "BRL"@);
    assert("SGD"@ != "CHF"@);
    assert("SGD"@ != "CLP"@);
    assert("SGD"@ != "COP"@);
    assert("SGD"@ != "CZK"@);
    assert("SGD"@ != "DKK"@);
    assert("SGD"@ != "HKD"@);
    assert("SGD"@ != "ILS"@);
    assert("SGD"@ != "INR"@);
    assert("SGD"@ != "ISK"@);
    assert("SGD"@ != "JPY"@);
    assert("SGD"@ != "KRW"@);
    assert("SGD"@ != "MXN"@);
    assert("SGD"@ != "MYR"@);
    assert("SGD"@ != "NOK"@);
    assert("SGD"@ != "PHP"@);
    assert("SGD"@ != "PLN"@);
    assert("SGD"@ != "SEK"@);
}

proof fn lemma_token_reaches_thb()
    ensures
        spec_parse_currency(currency_token(Currency::THB)) == Currency::THB,
{
    reveal_strlit("USD");
    reveal_strlit("EUR");
    reveal_strlit("GBP");
    reveal_strlit("AUD");
    reveal_strlit("CAD");
    reveal_strlit("NZD");
    reveal_strlit("ARS");
    reveal_strlit("BRL");
    reveal_strlit("CHF");
    reveal_strlit("CLP");
    reveal_strlit("COP");
    reveal_strlit("CZK");
    reveal_strlit("DKK");
    reveal_strlit("HKD");
    reveal_strlit("ILS");
    reveal_strlit("INR");
    reveal_strlit("ISK");
    reveal_strlit("JPY");
    reveal_strlit("KRW");
    reveal_strlit("MXN");
    reveal_strlit("MYR");
    reveal_strlit("NOK");
    reveal_strlit("PHP");
    reveal_strlit("PLN");
    reveal_strlit("SEK");
    reveal_strlit("SGD");
    reveal_strlit("THB");
    assert(("THB"@)[0] != ("USD"@)[0]);
    assert(("THB"@)[0] != ("EUR"@)[0]);
    assert(("THB"@)[0] != ("GBP"@)[0]);
    assert(("THB"@)[0] != ("AUD"@)[0]);
    assert(("THB"@)[0] != ("CAD"@)[0]);
    assert(("THB"@)[0] != ("NZD"@)[0]);
    assert(("THB"@)[0] != ("ARS"@)[0]);
    assert(("THB"@)[0] != ("BRL"@)[0]);
    assert(("THB"@)[0] != ("CHF"@)[0]);
    assert(("THB"@)[0] != ("CLP"@)[0]);
    assert(("THB"@)[0] != ("COP"@)[0]);
    assert(("THB"@)[0] != ("CZK"@)[0]);
    assert(("THB"@)[0] != ("DKK"@)[0]);
    assert(("THB"@)[0] != ("HKD"@)[0]);
    assert(("THB"@)[0] != ("ILS"@)[0]);
    assert(("THB"@)[0] != ("INR"@)[0]);
    assert(("THB"@)[0] != ("ISK"@)[0]);
    assert(("THB"@)[0] != ("JPY"@)[0]);
    assert(("THB"@)[0] != ("KRW"@)[0]);
    assert(("THB"@)[0] != ("MXN"@)[0]);
    assert(("THB"@)[0] != ("MYR"@)[0]);
    assert(("THB"@)[0] != ("NOK"@)[0]);
    assert(("THB"@)[0] != ("PHP"@)[0]);
    assert(("THB"@)[0] != ("PLN"@)[0]);
    assert(("THB"@)[0] != ("SEK"@)[0]);
    assert(("THB"@)[0] != ("SGD"@)[0]);
    assert("THB"@ != "USD"@);
    assert("THB"@ != "EUR"@);
    assert("THB"@ != "GBP"@);
    assert("THB"@ != "AUD"@);
    assert("THB"@ != "CAD"@);
    assert("THB"@ != "NZD"@);
    assert("THB"@ != "ARS"@);
    assert("THB"@ != "BRL"@);
    assert("THB"@ != "CHF"@);
    assert("THB"@ != "CLP"@);
    assert("THB"@ != "COP"@);
    assert("THB"@ != "CZK"@);
    assert("THB"@ != "DKK"@);
    assert("THB"@ != "HKD"@);
    assert("THB"@ != "ILS"@);
    assert("THB"@ != "INR"@);
    assert("THB"@ != "ISK"@);
    assert("THB"@ != "JPY"@);
    assert("THB"@ != "KRW"@);
    assert("THB"@ != "MXN"@);
    assert("THB"@ != "MYR"@);
    assert("THB"@ != "NOK"@);
    assert("THB"@ != "PHP"@);
    assert("THB"@ != "PLN"@);
    assert("THB"@ != "SEK"@);
    assert("THB"@ != "SGD"@);
}

proof fn lemma_token_reaches_vnd()
    ensures
        spec_parse_currency(currency_token(Currency::VND)) == Currency::VND,
{
    reveal_strlit("USD");
    reveal_strlit("EUR");
    reveal_strlit("GBP");
    reveal_strlit("AUD");
    reveal_strlit("CAD");
    reveal_strlit("NZD");
    reveal_strlit("ARS");
    reveal_strlit("BRL");
    reveal_strlit("CHF");
    reveal_strlit("CLP");
    reveal_strlit("COP");
    reveal_strlit("CZK");
    reveal_strlit("DKK");
    reveal_strlit("HKD");
    reveal_strlit("ILS");
    reveal_strlit("INR");
    reveal_strlit("ISK");
    reveal_strlit("JPY");
    reveal_strlit("KRW");
    reveal_strlit("MXN");
    reveal_strlit("MYR");
    reveal_strlit("NOK");
    reveal_strlit("PHP");
    reveal_strlit("PLN");
    reveal_strlit("SEK");
    reveal_strlit("SGD");
    reveal_strlit("THB");
    reveal_strlit("VND");
    assert(("VND"@)[0] != ("USD"@)[0]);
    assert(("VND"@)[0] != ("EUR"@)[0]);
    assert(("VND"@)[0] != ("GBP"@)[0]);
    assert(("VND"@)[0] != ("AUD"@)[0]);
    assert(("VND"@)[0] != ("CAD"@)[0]);
    assert(("VND"@)[0] != ("NZD"@)[0]);
    assert(("VND"@)[0] != ("ARS"@)[0]);
    assert(("VND"@)[0] != ("BRL"@)[0]);
    assert(("VND"@)[0] != ("CHF"@)[0]);
    assert(("VND"@)[0] != ("CLP"@)[0]);
    assert(("VND"@)[0] != ("COP"@)[0]);
    assert(("VND"@)[0] != ("CZK"@)[0]);
    assert(("VND"@)[0] != ("DKK"@)[0]);
    assert(("VND"@)[0] != ("HKD"@)[0]);
    assert(("VND"@)[0] != ("ILS"@)[0]);
    assert(("VND"@)[0] != ("INR"@)[0]);
    assert(("VND"@)[0] != ("ISK"@)[0]);
    assert(("VND"@)[0] != ("JPY"@)[0]);
    assert(("VND"@)[0] != ("KRW"@)[0]);
    assert(("VND"@)[0] != ("MXN"@)[0]);
    assert(("VND"@)[0] != ("MYR"@)[0]);
    assert(("VND"@)[0] != ("NOK"@)[0]);
    assert(("VND"@)[0] != ("PHP"@)[0]);
    assert(("VND"@)[0] != ("PLN"@)[0]);
    assert(("VND"@)[0] != ("SEK"@)[0]);
    assert(("VND"@)[0] != ("SGD"@)[0]);
    assert(("VND"@)[0] != ("THB"@)[0]);
    assert("VND"@ != "USD"@);
    assert("VND"@ != "EUR"@);
    assert("VND"@ != "GBP"@);
    assert("VND"@ != "AUD"@);
    assert("VND"@ != "CAD"@);
    assert("VND"@ != "NZD"@);
    assert("VND"@ != "ARS"@);
    assert("VND"@ != "BRL"@);
    assert("VND"@ != "CHF"@);
    assert("VND"@ != "CLP"@);
    assert("VND"@ != "COP"@);
    assert("VND"@ != "CZK"@);
    assert("VND"@ != "DKK"@);
    assert("VND"@ != "HKD"@);
    assert("VND"@ != "ILS"@);
    assert("VND"@ != "INR"@);
    assert("VND"@ != "ISK"@);
    assert("VND"@ != "JPY"@);
    assert("VND"@ != "KRW"@);
    assert("VND"@ != "MXN"@);
    assert("VND"@ != "MYR"@);
    assert("VND"@ != "NOK"@);
    assert("VND"@ != "PHP"@);
    assert("VND"@ != "PLN"@);
    assert("VND"@ != "SEK"@);
    assert("VND"@ != "SGD"@);
    assert("VND"@ != "THB"@);
}

proof fn lemma_token_reaches_zar()
    ensures
        spec_parse_currency(currency_token(Currency::ZAR)) == Currency::ZAR,
{
    reveal_strlit("USD");
    reveal_strlit("EUR");
    reveal_strlit("GBP");
    reveal_strlit("AUD");
    reveal_strlit("CAD");
    reveal_strlit("NZD");
    reveal_strlit("ARS");
    reveal_strlit("BRL");
    reveal_strlit("CHF");
    reveal_strlit("CLP");
    reveal_strlit("COP");
    reveal_strlit("CZK");
    reveal_strlit("DKK");
    reveal_strlit("HKD");
    reveal_strlit("ILS");
    reveal_strlit("INR");
    reveal_strlit("ISK");
    reveal_strlit("JPY");
    reveal_strlit("KRW");
    reveal_strlit("MXN");
    reveal_strlit("MYR");
    reveal_strlit("NOK");
    reveal_strlit("PHP");
    reveal_strlit("PLN");
    reveal_strlit("SEK");
    reveal_strlit("SGD");
    reveal_strlit("THB");
    reveal_strlit("VND");
    reveal_strlit("ZAR");
    assert(("ZAR"@)[0] != ("USD"@)[0]);
    assert(("ZAR"@)[0] != ("EUR"@)[0]);
    assert(("ZAR"@)[0] != ("GBP"@)[0]);
    assert(("ZAR"@)[0] != ("AUD"@)[0]);
    assert(("ZAR"@)[0] != ("CAD"@)[0]);
    assert(("ZAR"@)[0] != ("NZD"@)[0]);
    assert(("ZAR"@)[0] != ("ARS"@)[0]);
    assert(("ZAR"@)[0] != ("BRL"@)[0]);
    assert(("ZAR"@)[0] != ("CHF"@)[0]);
    assert(("ZAR"@)[0] != ("CLP"@)[0]);
    assert(("ZAR"@)[0] != ("COP"@)[0]);
    assert(("ZAR"@)[0] != ("CZK"@)[0]);
    assert(("ZAR"@)[0] != ("DKK"@)[0]);
    assert(("ZAR"@)[0] != ("HKD"@)[0]);
    assert(("ZAR"@)[0] != ("ILS"@)[0]);
    assert(("ZAR"@)[0] != ("INR"@)[0]);
    assert(("ZAR"@)[0] != ("ISK"@)[0]);
    assert(("ZAR"@)[0] != ("JPY"@)[0]);
    assert(("ZAR"@)[0] != ("KRW"@)[0]);
    assert(("ZAR"@)[0] != ("MXN"@)[0]);
    assert(("ZAR"@)[0] != ("MYR"@)[0]);
    assert(("ZAR"@)[0] != ("NOK"@)[0]);
    assert(("ZAR"@)[0] != ("PHP"@)[0]);
    assert(("ZAR"@)[0] != ("PLN"@)[0]);
    assert(("ZAR"@)[0] != ("SEK"@)[0]);
    assert(("ZAR"@)[0] != ("SGD"@)[0]);
    assert(("ZAR"@)[0] != ("THB"@)[0]);
    assert(("ZAR"@)[0] != ("VND"@)[0]);
    assert("ZAR"@ != "USD"@);
    assert("ZAR"@ != "EUR"@);
    assert("ZAR"@ != "GBP"@);
    assert("ZAR"@ != "AUD"@);
    assert("ZAR"@ != "CAD"@);
    assert("ZAR"@ != "NZD"@);
    assert("ZAR"@ != "ARS"@);
    assert("ZAR"@ != "BRL"@);
    assert("ZAR"@ != "CHF"@);
    assert("ZAR"@ != "CLP"@);
    assert("ZAR"@ != "COP"@);
    assert("ZAR"@ != "CZK"@);
    assert("ZAR"@ != "DKK"@);
    assert("ZAR"@ != "HKD"@);
    assert("ZAR"@ != "ILS"@);
    assert("ZAR"@ != "INR"@);
    assert("ZAR"@ != "ISK"@);
    assert("ZAR"@ != "JPY"@);
    assert("ZAR"@ != "KRW"@);
    assert("ZAR"@ != "MXN"@);
    assert("ZAR"@ != "MYR"@);
    assert("ZAR"@ != "NOK"@);
    assert("ZAR"@ != "PHP"@);
    assert("ZAR"@ != "PLN"@);
    assert("ZAR"@ != "SEK"@);
    assert("ZAR"@ != "SGD"@);
    assert("ZAR"@ != "THB"@);
    assert("ZAR"@ != "VND"@);
}

proof fn lemma_token_reaches_btc()
    ensures
        spec_parse_currency(currency_token(Currency::BTC)) == Currency::BTC,
{
    reveal_strlit("USD");
    reveal_strlit("EUR");
    reveal_strlit("GBP");
    reveal_strlit("AUD");
    reveal_strlit("CAD");
    reveal_strlit("NZD");
    reveal_strlit("ARS");
    reveal_strlit("BRL");
    reveal_strlit("CHF");
    reveal_strlit("CLP");
    reveal_strlit("COP");
    reveal_strlit("CZK");
    reveal_strlit("DKK");
    reveal_strlit("HKD");
    reveal_strlit("ILS");
    reveal_strlit("INR");
    reveal_strlit("ISK");
    reveal_strlit("JPY");
    reveal_strlit("KRW");
    reveal_strlit("MXN");
    reveal_strlit("MYR");
    reveal_strlit("NOK");
    reveal_strlit("PHP");
    reveal_strlit("PLN");
    reveal_strlit("SEK");
    reveal_strlit("SGD");
    reveal_strlit("THB");
    reveal_strlit("VND");
    reveal_strlit("ZAR");
    reveal_strlit("BTC");
    assert(("BTC"@)[0] != ("USD"@)[0]);
    assert(("BTC"@)[0] != ("EUR"@)[0]);
    assert(("BTC"@)[0] != ("GBP"@)[0]);
    assert(("BTC"@)[0] != ("AUD"@)[0]);
    assert(("BTC"@)[0] != ("CAD"@)[0]);
    assert(("BTC"@)[0] != ("NZD"@)[0]);
    assert(("BTC"@)[0] != ("ARS"@)[0]);
    assert(("BTC"@)[1] != ("BRL"@)[1]);
    assert(("BTC"@)[0] != ("CHF"@)[0]);
    assert(("BTC"@)[0] != ("CLP"@)[0]);
    assert(("BTC"@)[0] != ("COP"@)[0]);
    assert(("BTC"@)[0] != ("CZK"@)[0]);
    assert(("BTC"@)[0] != ("DKK"@)[0]);
    assert(("BTC"@)[0] != ("HKD"@)[0]);
    assert(("BTC"@)[0] != ("ILS"@)[0]);
    assert(("BTC"@)[0] != ("INR"@)[0]);
    assert(("BTC"@)[0] != ("ISK"@)[0]);
    assert(("BTC"@)[0] != ("JPY"@)[0]);
    assert(("BTC"@)[0] != ("KRW"@)[0]);
    assert(("BTC"@)[0] != ("MXN"@)[0]);
    assert(("BTC"@)[0] != ("MYR"@)[0]);
    assert(("BTC"@)[0] != ("NOK"@)[0]);
    assert(("BTC"@)[0] != ("PHP"@)[0]);
    assert(("BTC"@)[0] != ("PLN"@)[0]);
    assert(("BTC"@)[0] != ("SEK"@)[0]);
    assert(("BTC"@)[0] != ("SGD"@)[0]);
    assert(("BTC"@)[0] != ("THB"@)[0]);
    assert(("BTC"@)[0] != ("VND"@)[0]);
    assert(("BTC"@)[0] != ("ZAR"@)[0]);
    assert("BTC"@ != "USD"@);
    assert("BTC"@ != "EUR"@);
    assert("BTC"@ != "GBP"@);
    assert("BTC"@ != "AUD"@);
    assert("BTC"@ != "CAD"@);
    assert("BTC"@ != "NZD"@);
    assert("BTC"@ != "ARS"@);
    assert("BTC"@ != "BRL"@);
    assert("BTC"@ != "CHF"@);
    assert("BTC"@ != "CLP"@);
    assert("BTC"@ != "COP"@);
    assert("BTC"@ != "CZK"@);
    assert("BTC"@ != "DKK"@);
    assert("BTC"@ != "HKD"@);
    assert("BTC"@ != "ILS"@);
    assert("BTC"@ != "INR"@);
    assert("BTC"@ != "ISK"@);
    assert("BTC"@ != "JPY"@);
    assert("BTC"@ != "KRW"@);
    assert("BTC"@ != "MXN"@);
    assert("BTC"@ != "MYR"@);
    assert("BTC"@ != "NOK"@);
    assert("BTC"@ != "PHP"@);
    assert("BTC"@ != "PLN"@);
    assert("BTC"@ != "SEK"@);
    assert("BTC"@ != "SGD"@);
    assert("BTC"@ != "THB"@);
    assert("BTC"@ != "VND"@);
    assert("BTC"@ != "ZAR"@);
}

proof fn lemma_token_reaches_eth()
    ensures
        spec_parse_currency(currency_token(Currency::ETH)) == Currency::ETH,
{
    reveal_strlit("USD");
    reveal_strlit("EUR");
    reveal_strlit("GBP");
    reveal_strlit("AUD");
    reveal_strlit("CAD");
    reveal_strlit("NZD");
    reveal_strlit("ARS");
    reveal_strlit("BRL");
    reveal_strlit("CHF");
    reveal_strlit("CLP");
    reveal_strlit("COP");
    reveal_strlit("CZK");
    reveal_strlit("DKK");
    reveal_strlit("HKD");
    reveal_strlit("ILS");
    reveal_strlit("INR");
    reveal_strlit("ISK");
    reveal_strlit("JPY");
    reveal_strlit("KRW");
    reveal_strlit("MXN");
    reveal_strlit("MYR");
    reveal_strlit("NOK");
    reveal_strlit("PHP");
    reveal_strlit("PLN");
    reveal_strlit("SEK");
    reveal_strlit("SGD");
    reveal_strlit("THB");
    reveal_strlit("VND");
    reveal_strlit("ZAR");
    reveal_strlit("BTC");
    reveal_strlit("ETH");
    assert(("ETH"@)[0] != ("USD"@)[0]);
    assert(("ETH"@)[1] != ("EUR"@)[1]);
    assert(("ETH"@)[0] != ("GBP"@)[0]);
    assert(("ETH"@)[0] != ("AUD"@)[0]);
    assert(("ETH"@)[0] != ("CAD"@)[0]);
    assert(("ETH"@)[0] != ("NZD"@)[0]);
    assert(("ETH"@)[0] != ("ARS"@)[0]);
    assert(("ETH"@)[0] != ("BRL"@)[0]);
    assert(("ETH"@)[0] != ("CHF"@)[0]);
    assert(("ETH"@)[0] != ("CLP"@)[0]);
    assert(("ETH"@)[0] != ("COP"@)[0]);
    assert(("ETH"@)[0] != ("CZK"@)[0]);
    assert(("ETH"@)[0] != ("DKK"@)[0]);
    assert(("ETH"@)[0] != ("HKD"@)[0]);
    assert(("ETH"@)[0] != ("ILS"@)[0]);
    assert(("ETH"@)[0] != ("INR"@)[0]);
    assert(("ETH"@)[0] != ("ISK"@)[0]);
    assert(("ETH"@)[0] != ("JPY"@)[0]);
    assert(("ETH"@)[0] != ("KRW"@)[0]);
    assert(("ETH"@)[0] != ("MXN"@)[0]);
    assert(("ETH"@)[0] != ("MYR"@)[0]);
    assert(("ETH"@)[0] != ("NOK"@)[0]);
    assert(("ETH"@)[0] != ("PHP"@)[0]);
    assert(("ETH"@)[0] != ("PLN"@)[0]);
    assert(("ETH"@)[0] != ("SEK"@)[0]);
    assert(("ETH"@)[0] != ("SGD"@)[0]);
    assert(("ETH"@)[0] != ("THB"@)[0]);
    assert(("ETH"@)[0] != ("VND"@)[0]);
    assert(("ETH"@)[0] != ("ZAR"@)[0]);
    assert(("ETH"@)[0] != ("BTC"@)[0]);
    assert("ETH"@ != "USD"@);
    assert("ETH"@ != "EUR"@);
    assert("ETH"@ != "GBP"@);
    assert("ETH"@ != "AUD"@);
    assert("ETH"@ != "CAD"@);
    assert("ETH"@ != "NZD"@);
    assert("ETH"@ != "ARS"@);
    assert("ETH"@ != "BRL"@);
    assert("ETH"@ != "CHF"@);
    assert("ETH"@ != "CLP"@);
    assert("ETH"@ != "COP"@);
    assert("ETH"@ != "CZK"@);
    assert("ETH"@ != "DKK"@);
    assert("ETH"@ != "HKD"@);
    assert("ETH"@ != "ILS"@);
    assert("ETH"@ != "INR"@);
    assert("ETH"@ != "ISK"@);
    assert("ETH"@ != "JPY"@);
    assert("ETH"@ != "KRW"@);
    assert("ETH"@ != "MXN"@);
    assert("ETH"@ != "MYR"@);
    assert("ETH"@ != "NOK"@);
    assert("ETH"@ != "PHP"@);
    assert("ETH"@ != "PLN"@);
    assert("ETH"@ != "SEK"@);
    assert("ETH"@ != "SGD"@);
    assert("ETH"@ != "THB"@);
    assert("ETH"@ != "VND"@);
    assert("ETH"@ != "ZAR"@);
    assert("ETH"@ != "BTC"@);
}

proof fn lemma_token_reaches_xlm()
    ensures
        spec_parse_currency(currency_token(Currency::XLM)) == Currency::XLM,
{
    reveal_strlit("USD");
    reveal_strlit("EUR");
    reveal_strlit("GBP");
    reveal_strlit("AUD");
    reveal_strlit("CAD");
    reveal_strlit("NZD");
    reveal_strlit("ARS");
    reveal_strlit("BRL");
    reveal_strlit("CHF");
    reveal_strlit("CLP");
    reveal_strlit("COP");
    reveal_strlit("CZK");
    reveal_strlit("DKK");
    reveal_strlit("HKD");
    reveal_strlit("ILS");
    reveal_strlit("INR");
    reveal_strlit("ISK");
    reveal_strlit("JPY");
    reveal_strlit("KRW");
    reveal_strlit("MXN");
    reveal_strlit("MYR");
    reveal_strlit("NOK");
    reveal_strlit("PHP");
    reveal_strlit("PLN");
    reveal_strlit("SEK");
    reveal_strlit("SGD");
    reveal_strlit("THB");
    reveal_strlit("VND");
    reveal_strlit("ZAR");
    reveal_strlit("BTC");
    reveal_strlit("ETH");
    reveal_strlit("XLM");
    assert(("XLM"@)[0] != ("USD"@)[0]);
    assert(("XLM"@)[0] != ("EUR"@)[0]);
    assert(("XLM"@)[0] != ("GBP"@)[0]);
    assert(("XLM"@)[0] != ("AUD"@)[0]);
    assert(("XLM"@)[0] != ("CAD"@)[0]);
    assert(("XLM"@)[0] != ("NZD"@)[0]);
    assert(("XLM"@)[0] != ("ARS"@)[0]);
    assert(("XLM"@)[0] != ("BRL"@)[0]);
    assert(("XLM"@)[0] != ("CHF"@)[0]);
    assert(("XLM"@)[0] != ("CLP"@)[0]);
    assert(("XLM"@)[0] != ("COP"@)[0]);
    assert(("XLM"@)[0] != ("CZK"@)[0]);
    assert(("XLM"@)[0] != ("DKK"@)[0]);
    assert(("XLM"@)[0] != ("HKD"@)[0]);
    assert(("XLM"@)[0] != ("ILS"@)[0]);
    assert(("XLM"@)[0] != ("INR"@)[0]);
    assert(("XLM"@)[0] != ("ISK"@)[0]);
    assert(("XLM"@)[0] != ("JPY"@)[0]);
    assert(("XLM"@)[0] != ("KRW"@)[0]);
    assert(("XLM"@)[0] != ("MXN"@)[0]);
    assert(("XLM"@)[0] != ("MYR"@)[0]);
    assert(("XLM"@)[0] != ("NOK"@)[0]);
    assert(("XLM"@)[0] != ("PHP"@)[0]);
    assert(("XLM"@)[0] != ("PLN"@)[0]);
    assert(("XLM"@)[0] != ("SEK"@)[0]);
    assert(("XLM"@)[0] != ("SGD"@)[0]);
    assert(("XLM"@)[0] != ("THB"@)[0]);
    assert(("XLM"@)[0] != ("VND"@)[0]);
    assert(("XLM"@)[0] != ("ZAR"@)[0]);
    assert(("XLM"@)[0] != ("BTC"@)[0]);
    assert(("XLM"@)[0] != ("ETH"@)[0]);
    assert("XLM"@ != "USD"@);
    assert("XLM"@ != "EUR"@);
    assert("XLM"@ != "GBP"@);
    assert("XLM"@ != "AUD"@);
    assert("XLM"@ != "CAD"@);
    assert("XLM"@ != "NZD"@);
    assert("XLM"@ != "ARS"@);
    assert("XLM"@ != "BRL"@);
    assert("XLM"@ != "CHF"@);
    assert("XLM"@ != "CLP"@);
    assert("XLM"@ != "COP"@);
    assert("XLM"@ != "CZK"@);
    assert("XLM"@ != "DKK"@);
    assert("XLM"@ != "HKD"@);
    assert("XLM"@ != "ILS"@);
    assert("XLM"@ != "INR"@);
    assert("XLM"@ != "ISK"@);
    assert("XLM"@ != "JPY"@);
    assert("XLM"@ != "KRW"@);
    assert("XLM"@ != "MXN"@);
    assert("XLM"@ != "MYR"@);
    assert("XLM"@ != "NOK"@);
    assert("XLM"@ != "PHP"@);
    assert("XLM"@ != "PLN"@);
    assert("XLM"@ != "SEK"@);
    assert("XLM"@ != "SGD"@);
    assert("XLM"@ != "THB"@);
    assert("XLM"@ != "VND"@);
    assert("XLM"@ != "ZAR"@);
    assert("XLM"@ != "BTC"@);
    assert("XLM"@ != "ETH"@);
}

proof fn lemma_token_reaches_susdc()
    ensures
        spec_parse_currency(currency_token(Currency::SUSDC)) == Currency::SUSDC,
{
    reveal_strlit("USD");
    reveal_strlit("EUR");
    reveal_strlit("GBP");
    reveal_strlit("AUD");
    reveal_strlit("CAD");
    reveal_strlit("NZD");
    reveal_strlit("ARS");
    reveal_strlit("BRL");
    reveal_strlit("CHF");
    reveal_strlit("CLP");
    reveal_strlit("COP");
    reveal_strlit("CZK");
    reveal_strlit("DKK");
    reveal_strlit("HKD");
    reveal_strlit("ILS");
    reveal_strlit("INR");
    reveal_strlit("ISK");
    reveal_strlit("JPY");
    reveal_strlit("KRW");
    reveal_strlit("MXN");
    reveal_strlit("MYR");
    reveal_strlit("NOK");
    reveal_strlit("PHP");
    reveal_strlit("PLN");
    reveal_strlit("SEK");
    reveal_strlit("SGD");
    reveal_strlit("THB");
    reveal_strlit("VND");
    reveal_strlit("ZAR");
    reveal_strlit("BTC");
    reveal_strlit("ETH");
    reveal_strlit("XLM");
    reveal_strlit("sUSDC");
    assert(("sUSDC"@).len() != ("USD"@).len());
    assert(("sUSDC"@).len() != ("EUR"@).len());
    assert(("sUSDC"@).len() != ("GBP"@).len());
    assert(("sUSDC"@).len() != ("AUD"@).len());
    assert(("sUSDC"@).len() != ("CAD"@).len());
    assert(("sUSDC"@).len() != ("NZD"@).len());
    assert(("sUSDC"@).len() != ("ARS"@).len());
    assert(("sUSDC"@).len() != ("BRL"@).len());
    assert(("sUSDC"@).len() != ("CHF"@).len());
    assert(("sUSDC"@).len() != ("CLP"@).len());
    assert(("sUSDC"@).len() != ("COP"@).len());
    assert(("sUSDC"@).len() != ("CZK"@).len());
    assert(("sUSDC"@).len() != ("DKK"@).len());
    assert(("sUSDC"@).len() != ("HKD"@).len());
    assert(("sUSDC"@).len() != ("ILS"@).len());
    assert(("sUSDC"@).len() != ("INR"@).len());
    assert(("sUSDC"@).len() != ("ISK"@).len());
    assert(("sUSDC"@).len() != ("JPY"@).len());
    assert(("sUSDC"@).len() != ("KRW"@).len());
    assert(("sUSDC"@).len() != ("MXN"@).len());
    assert(("sUSDC"@).len() != ("MYR"@).len());
    assert(("sUSDC"@).len() != ("NOK"@).len());
    assert(("sUSDC"@).len() != ("PHP"@).len());
    assert(("sUSDC"@).len() != ("PLN"@).len());
    assert(("sUSDC"@).len() != ("SEK"@).len());
    assert(("sUSDC"@).len() != ("SGD"@).len());
    assert(("sUSDC"@).len() != ("THB"@).len());
    assert(("sUSDC"@).len() != ("VND"@).len());
    assert(("sUSDC"@).len() != ("ZAR"@).len());
    assert(("sUSDC"@).len() != ("BTC"@).len());
    assert(("sUSDC"@).len() != ("ETH"@).len());
    assert(("sUSDC"@).len() != ("XLM"@).len());
    assert("sUSDC"@ != "USD"@);
    assert("sUSDC"@ != "EUR"@);
    assert("sUSDC"@ != "GBP"@);
    assert("sUSDC"@ != "AUD"@);
    assert("sUSDC"@ != "CAD"@);
    assert("sUSDC"@ != "NZD"@);
    assert("sUSDC"@ != "ARS"@);
    assert("sUSDC"@ != "BRL"@);
    assert("sUSDC"@ != "CHF"@);
    assert("sUSDC"@ != "CLP"@);
    assert("sUSDC"@ != "COP"@);
    assert("sUSDC"@ != "CZK"@);
    assert("sUSDC"@ != "DKK"@);
    assert("sUSDC"@ != "HKD"@);
    assert("sUSDC"@ != "ILS"@);
    assert("sUSDC"@ != "INR"@);
    assert("sUSDC"@ != "ISK"@);
    assert("sUSDC"@ != "JPY"@);
    assert("sUSDC"@ != "KRW"@);
    assert("sUSDC"@ != "MXN"@);
    assert("sUSDC"@ != "MYR"@);
    assert("sUSDC"@ != "NOK"@);
    assert("sUSDC"@ != "PHP"@);
    assert("sUSDC"@ != "PLN"@);
    assert("sUSDC"@ != "SEK"@);
    assert("sUSDC"@ != "SGD"@);
    assert("sUSDC"@ != "THB"@);
    assert("sUSDC"@ != "VND"@);
    assert("sUSDC"@ != "ZAR"@);
    assert("sUSDC"@ != "BTC"@);
    assert("sUSDC"@ != "ETH"@);
    assert("sUSDC"@ != "XLM"@);
}

proof fn lemma_token_reaches_avax()
    ensures
        spec_parse_currency(currency_token(Currency::AVAX)) == Currency::AVAX,
{
    reveal_strlit("USD");
    reveal_strlit("EUR");
    reveal_strlit("GBP");
    reveal_strlit("AUD");
    reveal_strlit("CAD");
    reveal_strlit("NZD");
    reveal_strlit("ARS");
    reveal_strlit("BRL");
    reveal_strlit("CHF");
    reveal_strlit("CLP");
    reveal_strlit("COP");
    reveal_strlit("CZK");
    reveal_strlit("DKK");
    reveal_strlit("HKD");
    reveal_strlit("ILS");
    reveal_strlit("INR");
    reveal_strlit("ISK");
    reveal_strlit("JPY");
    reveal_strlit("KRW");
    reveal_strlit("MXN");
    reveal_strlit("MYR");
    reveal_strlit("NOK");
    reveal_strlit("PHP");
    reveal_strlit("PLN");
    reveal_strlit("SEK");
    reveal_strlit("SGD");
    reveal_strlit("THB");
    reveal_strlit("VND");
    reveal_strlit("ZAR");
    reveal_strlit("BTC");
    reveal_strlit("ETH");
    reveal_strlit("XLM");
    reveal_strlit("sUSDC");
    reveal_strlit("AVAX");
    assert(("AVAX"@).len() != ("USD"@).len());
    assert(("AVAX"@).len() != ("EUR"@).len());
    assert(("AVAX"@).len() != ("GBP"@).len());
    assert(("AVAX"@).len() != ("AUD"@).len());
    assert(("AVAX"@).len() != ("CAD"@).len());
    assert(("AVAX"@).len() != ("NZD"@).len());
    assert(("AVAX"@).len() != ("ARS"@).len());
    assert(("AVAX"@).len() != ("BRL"@).len());
    assert(("AVAX"@).len() != ("CHF"@).len());
    assert(("AVAX"@).len() != ("CLP"@).len());
    assert(("AVAX"@).len() != ("COP"@).len());
    assert(("AVAX"@).len() != ("CZK"@).len());
    assert(("AVAX"@).len() != ("DKK"@).len());
    assert(("AVAX"@).len() != ("HKD"@).len());
    assert(("AVAX"@).len() != ("ILS"@).len());
    assert(("AVAX"@).len() != ("INR"@).len());
    assert(("AVAX"@).len() != ("ISK"@).len());
    assert(("AVAX"@).len() != ("JPY"@).len());
    assert(("AVAX"@).len() != ("KRW"@).len());
    assert(("AVAX"@).len() != ("MXN"@).len());
    assert(("AVAX"@).len() != ("MYR"@).len());
    assert(("AVAX"@).len() != ("NOK"@).len());
    assert(("AVAX"@).len() != ("PHP"@).len());
    assert(("AVAX"@).len() != ("PLN"@).len());
    assert(("AVAX"@).len() != ("SEK"@).len());
    assert(("AVAX"@).len() != ("SGD"@).len());
    assert(("AVAX"@).len() != ("THB"@).len());
    assert(("AVAX"@).len() != ("VND"@).len());
    assert(("AVAX"@).len() != ("ZAR"@).len());
    assert(("AVAX"@).len() != ("BTC"@).len());
    assert(("AVAX"@).len() != ("ETH"@).len());
    assert(("AVAX"@).len() != ("XLM"@).len());
    assert(("AVAX"@).len() != ("sUSDC"@).len());
    assert("AVAX"@ != "USD"@);
    assert("AVAX"@ != "EUR"@);
    assert("AVAX"@ != "GBP"@);
    assert("AVAX"@ != "AUD"@);
    assert("AVAX"@ != "CAD"@);
    assert("AVAX"@ != "NZD"@);
    assert("AVAX"@ != "ARS"@);
    assert("AVAX"@ != "BRL"@);
    assert("AVAX"@ != "CHF"@);
    assert("AVAX"@ != "CLP"@);
    assert("AVAX"@ != "COP"@);
    assert("AVAX"@ != "CZK"@);
    assert("AVAX"@ != "DKK"@);
    assert("AVAX"@ != "HKD"@);
    assert("AVAX"@ != "ILS"@);
    assert("AVAX"@ != "INR"@);
    assert("AVAX"@ != "ISK"@);
    assert("AVAX"@ != "JPY"@);
    assert("AVAX"@ != "KRW"@);
    assert("AVAX"@ != "MXN"@);
    assert("AVAX"@ != "MYR"@);
    assert("AVAX"@ != "NOK"@);
    assert("AVAX"@ != "PHP"@);
    assert("AVAX"@ != "PLN"@);
    assert("AVAX"@ != "SEK"@);
    assert("AVAX"@ != "SGD"@);
    assert("AVAX"@ != "THB"@);
    assert("AVAX"@ != "VND"@);
    assert("AVAX"@ != "ZAR"@);
    assert("AVAX"@ != "BTC"@);
    assert("AVAX"@ != "ETH"@);
    assert("AVAX"@ != "XLM"@);
    assert("AVAX"@ != "sUSDC"@);
}

proof fn lemma_token_reaches_dai()
    ensures
        spec_parse_currency(currency_token(Currency::DAI)) == Currency::DAI,
{
    reveal_strlit("USD");
    reveal_strlit("EUR");
    reveal_strlit("GBP");
    reveal_strlit("AUD");
    reveal_strlit("CAD");
    reveal_strlit("NZD");
    reveal_strlit("ARS");
    reveal_strlit("BRL");
    reveal_strlit("CHF");
    reveal_strlit("CLP");
    reveal_strlit("COP");
    reveal_strlit("CZK");
    reveal_strlit("DKK");
    reveal_strlit("HKD");
    reveal_strlit("ILS");
    reveal_strlit("INR");
    reveal_strlit("ISK");
    reveal_strlit("JPY");
    reveal_strlit("KRW");
    reveal_strlit("MXN");
    reveal_strlit("MYR");
    reveal_strlit("NOK");
    reveal_strlit("PHP");
    reveal_strlit("PLN");
    reveal_strlit("SEK");
    reveal_strlit("SGD");
    reveal_strlit("THB");
    reveal_strlit("VND");
    reveal_strlit("ZAR");
    reveal_strlit("BTC");
    reveal_strlit("ETH");
    reveal_strlit("XLM");
    reveal_strlit("sUSDC");
    reveal_strlit("AVAX");
    reveal_strlit("DAI");
    assert(("DAI"@)[0] != ("USD"@)[0]);
    assert(("DAI"@)[0] != ("EUR"@)[0]);
    assert(("DAI"@)[0] != ("GBP"@)[0]);
    assert(("DAI"@)[0] != ("AUD"@)[0]);
    assert(("DAI"@)[0] != ("CAD"@)[0]);
    assert(("DAI"@)[0] != ("NZD"@)[0]);
    assert(("DAI"@)[0] != ("ARS"@)[0]);
    assert(("DAI"@)[0] != ("BRL"@)[0]);
    assert(("DAI"@)[0] != ("CHF"@)[0]);
    assert(("DAI"@)[0] != ("CLP"@)[0]);
    assert(("DAI"@)[0] != ("COP"@)[0]);
    assert(("DAI"@)[0] != ("CZK"@)[0]);
    assert(("DAI"@)[1] != ("DKK"@)[1]);
    assert(("DAI"@)[0] != ("HKD"@)[0]);
    assert(("DAI"@)[0] != ("ILS"@)[0]);
    assert(("DAI"@)[0] != ("INR"@)[0]);
    assert(("DAI"@)[0] != ("ISK"@)[0]);
    assert(("DAI"@)[0] != ("JPY"@)[0]);
    assert(("DAI"@)[0] != ("KRW"@)[0]);
    assert(("DAI"@)[0] != ("MXN"@)[0]);
    assert(("DAI"@)[0] != ("MYR"@)[0]);
    assert(("DAI"@)[0] != ("NOK"@)[0]);
    assert(("DAI"@)[0] != ("PHP"@)[0]);
    assert(("DAI"@)[0] != ("PLN"@)[0]);
    assert(("DAI"@)[0] != ("SEK"@)[0]);
    assert(("DAI"@)[0] != ("SGD"@)[0]);
    assert(("DAI"@)[0] != ("THB"@)[0]);
    assert(("DAI"@)[0] != ("VND"@)[0]);
    assert(("DAI"@)[0] != ("ZAR"@)[0]);
    assert(("DAI"@)[0] != ("BTC"@)[0]);
    assert(("DAI"@)[0] != ("ETH"@)[0]);
    assert(("DAI"@)[0] != ("XLM"@)[0]);
    assert(("DAI"@).len() != ("sUSDC"@).len());
    assert(("DAI"@).len() != ("AVAX"@).len());
    assert("DAI"@ != "USD"@);
    assert("DAI"@ != "EUR"@);
    assert("DAI"@ != "GBP"@);
    assert("DAI"@ != "AUD"@);
    assert("DAI"@ != "CAD"@);
    assert("DAI"@ != "NZD"@);
    assert("DAI"@ != "ARS"@);
    assert("DAI"@ != "BRL"@);
    assert("DAI"@ != "CHF"@);
    assert("DAI"@ != "CLP"@);
    assert("DAI"@ != "COP"@);
    assert("DAI"@ != "CZK"@);
    assert("DAI"@ != "DKK"@);
    assert("DAI"@ != "HKD"@);
    assert("DAI"@ != "ILS"@);
    assert("DAI"@ != "INR"@);
    assert("DAI"@ != "ISK"@);
    assert("DAI"@ != "JPY"@);
    assert("DAI"@ != "KRW"@);
    assert("DAI"@ != "MXN"@);
    assert("DAI"@ != "MYR"@);
    assert("DAI"@ != "NOK"@);
    assert("DAI"@ != "PHP"@);
    assert("DAI"@ != "PLN"@);
    assert("DAI"@ != "SEK"@);
    assert("DAI"@ != "SGD"@);
    assert("DAI"@ != "THB"@);
    assert("DAI"@ != "VND"@);
    assert("DAI"@ != "ZAR"@);
    assert("DAI"@ != "BTC"@);
    assert("DAI"@ != "ETH"@);
    assert("DAI"@ != "XLM"@);
    assert("DAI"@ != "sUSDC"@);
    assert("DAI"@ != "AVAX"@);
}

proof fn lemma_token_reaches_pdai()
    ensures
        spec_parse_currency(currency_token(Currency::PDAI)) == Currency::PDAI,
{
    reveal_strlit("USD");
    reveal_strlit("EUR");
    reveal_strlit("GBP");
    reveal_strlit("AUD");
    reveal_strlit("CAD");
    reveal_strlit("NZD");
    reveal_strlit("ARS");
    reveal_strlit("BRL");
    reveal_strlit("CHF");
    reveal_strlit("CLP");
    reveal_strlit("COP");
    reveal_strlit("CZK");
    reveal_strlit("DKK");
    reveal_strlit("HKD");
    reveal_strlit("ILS");
    reveal_strlit("INR");
    reveal_strlit("ISK");
    reveal_strlit("JPY");
    reveal_strlit("KRW");
    reveal_strlit("MXN");
    reveal_strlit("MYR");
    reveal_strlit("NOK");
    reveal_strlit("PHP");
    reveal_strlit("PLN");
    reveal_strlit("SEK");
    reveal_strlit("SGD");
    reveal_strlit("THB");
    reveal_strlit("VND");
    reveal_strlit("ZAR");
    reveal_strlit("BTC");
    reveal_strlit("ETH");
    reveal_strlit("XLM");
    reveal_strlit("sUSDC");
    reveal_strlit("AVAX");
    reveal_strlit("DAI");
    reveal_strlit("pDAI");
    assert(("pDAI"@).len() != ("USD"@).len());
    assert(("pDAI"@).len() != ("EUR"@).len());
    assert(("pDAI"@).len() != ("GBP"@).len());
    assert(("pDAI"@).len() != ("AUD"@).len());
    assert(("pDAI"@).len() != ("CAD"@).len());
    assert(("pDAI"@).len() != ("NZD"@).len());
    assert(("pDAI"@).len() != ("ARS"@).len());
    assert(("pDAI"@).len() != ("BRL"@).len());
    assert(("pDAI"@).len() != ("CHF"@).len());
    assert(("pDAI"@).len() != ("CLP"@).len());
    assert(("pDAI"@).len() != ("COP"@).len());
    assert(("pDAI"@).len() != ("CZK"@).len());
    assert(("pDAI"@).len() != ("DKK"@).len());
    assert(("pDAI"@).len() != ("HKD"@).len());
    assert(("pDAI"@).len() != ("ILS"@).len());
    assert(("pDAI"@).len() != ("INR"@).len());
    assert(("pDAI"@).len() != ("ISK"@).len());
    assert(("pDAI"@).len() != ("JPY"@).len());
    assert(("pDAI"@).len() != ("KRW"@).len());
    assert(("pDAI"@).len() != ("MXN"@).len());
    assert(("pDAI"@).len() != ("MYR"@).len());
    assert(("pDAI"@).len() != ("NOK"@).len());
    assert(("pDAI"@).len() != ("PHP"@).len());
    assert(("pDAI"@).len() != ("PLN"@).len());
    assert(("pDAI"@).len() != ("SEK"@).len());
    assert(("pDAI"@).len() != ("SGD"@).len());
    assert(("pDAI"@).len() != ("THB"@).len());
    assert(("pDAI"@).len() != ("VND"@).len());
    assert(("pDAI"@).len() != ("ZAR"@).len());
    assert(("pDAI"@).len() != ("BTC"@).len());
    assert(("pDAI"@).len() != ("ETH"@).len());
    assert(("pDAI"@).len() != ("XLM"@).len());
    assert(("pDAI"@).len() != ("sUSDC"@).len());
    assert(("pDAI"@)[0] != ("AVAX"@)[0]);
    assert(("pDAI"@).len() != ("DAI"@).len());
    assert("pDAI"@ != "USD"@);
    assert("pDAI"@ != "EUR"@);
    assert("pDAI"@ != "GBP"@);
    assert("pDAI"@ != "AUD"@);
    assert("pDAI"@ != "CAD"@);
    assert("pDAI"@ != "NZD"@);
    assert("pDAI"@ != "ARS"@);
    assert("pDAI"@ != "BRL"@);
    assert("pDAI"@ != "CHF"@);
    assert("pDAI"@ != "CLP"@);
    assert("pDAI"@ != "COP"@);
    assert("pDAI"@ != "CZK"@);
    assert("pDAI"@ != "DKK"@);
    assert("pDAI"@ != "HKD"@);
    assert("pDAI"@ != "ILS"@);
    assert("pDAI"@ != "INR"@);
    assert("pDAI"@ != "ISK"@);
    assert("pDAI"@ != "JPY"@);
    assert("pDAI"@ != "KRW"@);
    assert("pDAI"@ != "MXN"@);
    assert("pDAI"@ != "MYR"@);
    assert("pDAI"@ != "NOK"@);
    assert("pDAI"@ != "PHP"@);
    assert("pDAI"@ != "PLN"@);
    assert("pDAI"@ != "SEK"@);
    assert("pDAI"@ != "SGD"@);
    assert("pDAI"@ != "THB"@);
    assert("pDAI"@ != "VND"@);
    assert("pDAI"@ != "ZAR"@);
    assert("pDAI"@ != "BTC"@);
    assert("pDAI"@ != "ETH"@);
    assert("pDAI"@ != "XLM"@);
    assert("pDAI"@ != "sUSDC"@);
    assert("pDAI"@ != "AVAX"@);
    assert("pDAI"@ != "DAI"@);
}

proof fn lemma_token_reaches_usdc()
    ensures
        spec_parse_currency(currency_token(Currency::USDC)) == Currency::USDC,
{
    reveal_strlit("USD");
    reveal_strlit("EUR");
    reveal_strlit("GBP");
    reveal_strlit("AUD");
    reveal_strlit("CAD");
    reveal_strlit("NZD");
    reveal_strlit("ARS");
    reveal_strlit("BRL");
    reveal_strlit("CHF");
    reveal_strlit("CLP");
    reveal_strlit("COP");
    reveal_strlit("CZK");
    reveal_strlit("DKK");
    reveal_strlit("HKD");
    reveal_strlit("ILS");
    reveal_strlit("INR");
    reveal_strlit("ISK");
    reveal_strlit("JPY");
    reveal_strlit("KRW");
    reveal_strlit("MXN");
    reveal_strlit("MYR");
    reveal_strlit("NOK");
    reveal_strlit("PHP");
    reveal_strlit("PLN");
    reveal_strlit("SEK");
    reveal_strlit("SGD");
    reveal_strlit("THB");
    reveal_strlit("VND");
    reveal_strlit("ZAR");
    reveal_strlit("BTC");
    reveal_strlit("ETH");
    reveal_strlit("XLM");
    reveal_strlit("sUSDC");
    reveal_strlit("AVAX");
    reveal_strlit("DAI");
    reveal_strlit("pDAI");
    reveal_strlit("USDC");
    assert(("USDC"@).len() != ("USD"@).len());
    assert(("USDC"@).len() != ("EUR"@).len());
    assert(("USDC"@).len() != ("GBP"@).len());
    assert(("USDC"@).len() != ("AUD"@).len());
    assert(("USDC"@).len() != ("CAD"@).len());
    assert(("USDC"@).len() != ("NZD"@).len());
    assert(("USDC"@).len() != ("ARS"@).len());
    assert(("USDC"@).len() != ("BRL"@).len());
    assert(("USDC"@).len() != ("CHF"@).len());
    assert(("USDC"@).len() != ("CLP"@).len());
    assert(("USDC"@).len() != ("COP"@).len());
    assert(("USDC"@).len() != ("CZK"@).len());
    assert(("USDC"@).len() != ("DKK"@).len());
    assert(("USDC"@).len() != ("HKD"@).len());
    assert(("USDC"@).len() != ("ILS"@).len());
    assert(("USDC"@).len() != ("INR"@).len());
    assert(("USDC"@).len() != ("ISK"@).len());
    assert(("USDC"@).len() != ("JPY"@).len());
    assert(("USDC"@).len() != ("KRW"@).len());
    assert(("USDC"@).len() != ("MXN"@).len());
    assert(("USDC"@).len() != ("MYR"@).len());
    assert(("USDC"@).len() != ("NOK"@).len());
    assert(("USDC"@).len() != ("PHP"@).len());
    assert(("USDC"@).len() != ("PLN"@).len());
    assert(("USDC"@).len() != ("SEK"@).len());
    assert(("USDC"@).len() != ("SGD"@).len());
    assert(("USDC"@).len() != ("THB"@).len());
    assert(("USDC"@).len() != ("VND"@).len());
    assert(("USDC"@).len() != ("ZAR"@).len());
    assert(("USDC"@).len() != ("BTC"@).len());
    assert(("USDC"@).len() != ("ETH"@).len());
    assert(("USDC"@).len() != ("XLM"@).len());
    assert(("USDC"@).len() != ("sUSDC"@).len());
    assert(("USDC"@)[0] != ("AVAX"@)[0]);
    assert(("USDC"@).len() != ("DAI"@).len());
    assert(("USDC"@)[0] != ("pDAI"@)[0]);
    assert("USDC"@ != "USD"@);
    assert("USDC"@ != "EUR"@);
    assert("USDC"@ != "GBP"@);
    assert("USDC"@ != "AUD"@);
    assert("USDC"@ != "CAD"@);
    assert("USDC"@ != "NZD"@);
    assert("USDC"@ != "ARS"@);
    assert("USDC"@ != "BRL"@);
    assert("USDC"@ != "CHF"@);
    assert("USDC"@ != "CLP"@);
    assert("USDC"@ != "COP"@);
    assert("USDC"@ != "CZK"@);
    assert("USDC"@ != "DKK"@);
    assert("USDC"@ != "HKD"@);
    assert("USDC"@ != "ILS"@);
    assert("USDC"@ != "INR"@);
    assert("USDC"@ != "ISK"@);
    assert("USDC"@ != "JPY"@);
    assert("USDC"@ != "KRW"@);
    assert("USDC"@ != "MXN"@);
    assert("USDC"@ != "MYR"@);
    assert("USDC"@ != "NOK"@);
    assert("USDC"@ != "PHP"@);
    assert("USDC"@ != "PLN"@);
    assert("USDC"@ != "SEK"@);
    assert("USDC"@ != "SGD"@);
    assert("USDC"@ != "THB"@);
    assert("USDC"@ != "VND"@);
    assert("USDC"@ != "ZAR"@);
    assert("USDC"@ != "BTC"@);
    assert("USDC"@ != "ETH"@);
    assert("USDC"@ != "XLM"@);
    assert("USDC"@ != "sUSDC"@);
    assert("USDC"@ != "AVAX"@);
    assert("USDC"@ != "DAI"@);
    assert("USDC"@ != "pDAI"@);
}

proof fn lemma_token_reaches_musdc()
    ensures
        spec_parse_currency(currency_token(Currency::MUSDC)) == Currency::MUSDC,
{
    reveal_strlit("USD");
    reveal_strlit("EUR");
    reveal_strlit("GBP");
    reveal_strlit("AUD");
    reveal_strlit("CAD");
    reveal_strlit("NZD");
    reveal_strlit("ARS");
    reveal_strlit("BRL");
    reveal_strlit("CHF");
    reveal_strlit("CLP");
    reveal_strlit("COP");
    reveal_strlit("CZK");
    reveal_strlit("DKK");
    reveal_strlit("HKD");
    reveal_strlit("ILS");
    reveal_strlit("INR");
    reveal_strlit("ISK");
    reveal_strlit("JPY");
    reveal_strlit("KRW");
    reveal_strlit("MXN");
    reveal_strlit("MYR");
    reveal_strlit("NOK");
    reveal_strlit("PHP");
    reveal_strlit("PLN");
    reveal_strlit("SEK");
    reveal_strlit("SGD");
    reveal_strlit("THB");
    reveal_strlit("VND");
    reveal_strlit("ZAR");
    reveal_strlit("BTC");
    reveal_strlit("ETH");
    reveal_strlit("XLM");
    reveal_strlit("sUSDC");
    reveal_strlit("AVAX");
    reveal_strlit("DAI");
    reveal_strlit("pDAI");
    reveal_strlit("USDC");
    reveal_strlit("mUSDC");
    assert(("mUSDC"@).len() != ("USD"@).len());
    assert(("mUSDC"@).len() != ("EUR"@).len());
    assert(("mUSDC"@).len() != ("GBP"@).len());
    assert(("mUSDC"@).len() != ("AUD"@).len());
    assert(("mUSDC"@).len() != ("CAD"@).len());
    assert(("mUSDC"@).len() != ("NZD"@).len());
    assert(("mUSDC"@).len() != ("ARS"@).len());
    assert(("mUSDC"@).len() != ("BRL"@).len());
    assert(("mUSDC"@).len() != ("CHF"@).len());
    assert(("mUSDC"@).len() != ("CLP"@).len());
    assert(("mUSDC"@).len() != ("COP"@).len());
    assert(("mUSDC"@).len() != ("CZK"@).len());
    assert(("mUSDC"@).len() != ("DKK"@).len());
    assert(("mUSDC"@).len() != ("HKD"@).len());
    assert(("mUSDC"@).len() != ("ILS"@).len());
    assert(("mUSDC"@).len() != ("INR"@).len());
    assert(("mUSDC"@).len() != ("ISK"@).len());
    assert(("mUSDC"@).len() != ("JPY"@).len());
    assert(("mUSDC"@).len() != ("KRW"@).len());
    assert(("mUSDC"@).len() != ("MXN"@).len());
    assert(("mUSDC"@).len() != ("MYR"@).len());
    assert(("mUSDC"@).len() != ("NOK"@).len());
    assert(("mUSDC"@).len() != ("PHP"@).len());
    assert(("mUSDC"@).len() != ("PLN"@).len());
    assert(("mUSDC"@).len() != ("SEK"@).len());
    assert(("mUSDC"@).len() != ("SGD"@).len());
    assert(("mUSDC"@).len() != ("THB"@).len());
    assert(("mUSDC"@).len() != ("VND"@).len());
    assert(("mUSDC"@).len() != ("ZAR"@).len());
    assert(("mUSDC"@).len() != ("BTC"@).len());
    assert(("mUSDC"@).len() != ("ETH"@).len());
    assert(("mUSDC"@).len() != ("XLM"@).len());
    assert(("mUSDC"@)[0] != ("sUSDC"@)[0]);
    assert(("mUSDC"@).len() != ("AVAX"@).len());
    assert(("mUSDC"@).len() != ("DAI"@).len());
    assert(("mUSDC"@).len() != ("pDAI"@).len());
    assert(("mUSDC"@).len() != ("USDC"@).len());
    assert("mUSDC"@ != "USD"@);
    assert("mUSDC"@ != "EUR"@);
    assert("mUSDC"@ != "GBP"@);
    assert("mUSDC"@ != "AUD"@);
    assert("mUSDC"@ != "CAD"@);
    assert("mUSDC"@ != "NZD"@);
    assert("mUSDC"@ != "ARS"@);
    assert("mUSDC"@ != "BRL"@);
    assert("mUSDC"@ != "CHF"@);
    assert("mUSDC"@ != "CLP"@);
    assert("mUSDC"@ != "COP"@);
    assert("mUSDC"@ != "CZK"@);
    assert("mUSDC"@ != "DKK"@);
    assert("mUSDC"@ != "HKD"@);
    assert("mUSDC"@ != "ILS"@);
    assert("mUSDC"@ != "INR"@);
    assert("mUSDC"@ != "ISK"@);
    assert("mUSDC"@ != "JPY"@);
    assert("mUSDC"@ != "KRW"@);
    assert("mUSDC"@ != "MXN"@);
    assert("mUSDC"@ != "MYR"@);
    assert("mUSDC"@ != "NOK"@);
    assert("mUSDC"@ != "PHP"@);
    assert("mUSDC"@ != "PLN"@);
    assert("mUSDC"@ != "SEK"@);
    assert("mUSDC"@ != "SGD"@);
    assert("mUSDC"@ != "THB"@);
    assert("mUSDC"@ != "VND"@);
    assert("mUSDC"@ != "ZAR"@);
    assert("mUSDC"@ != "BTC"@);
    assert("mUSDC"@ != "ETH"@);
    assert("mUSDC"@ != "XLM"@);
    assert("mUSDC"@ != "sUSDC"@);
    assert("mUSDC"@ != "AVAX"@);
    assert("mUSDC"@ != "DAI"@);
    assert("mUSDC"@ != "pDAI"@);
    assert("mUSDC"@ != "USDC"@);
}

proof fn lemma_token_reaches_lbtc()
    ensures
        spec_parse_currency(currency_token(Currency::LBTC)) == Currency::LBTC,
{
    reveal_strlit("USD");
    reveal_strlit("EUR");
    reveal_strlit("GBP");
    reveal_strlit("AUD");
    reveal_strlit("CAD");
    reveal_strlit("NZD");
    reveal_strlit("ARS");
    reveal_strlit("BRL");
    reveal_strlit("CHF");
    reveal_strlit("CLP");
    reveal_strlit("COP");
    reveal_strlit("CZK");
    reveal_strlit("DKK");
    reveal_strlit("HKD");
    reveal_strlit("ILS");
    reveal_strlit("INR");
    reveal_strlit("ISK");
    reveal_strlit("JPY");
    reveal_strlit("KRW");
    reveal_strlit("MXN");
    reveal_strlit("MYR");
    reveal_strlit("NOK");
    reveal_strlit("PHP");
    reveal_strlit("PLN");
    reveal_strlit("SEK");
    reveal_strlit("SGD");
    reveal_strlit("THB");
    reveal_strlit("VND");
    reveal_strlit("ZAR");
    reveal_strlit("BTC");
    reveal_strlit("ETH");
    reveal_strlit("XLM");
    reveal_strlit("sUSDC");
    reveal_strlit("AVAX");
    reveal_strlit("DAI");
    reveal_strlit("pDAI");
    reveal_strlit("USDC");
    reveal_strlit("mUSDC");
    reveal_strlit("L-BTC");
    assert(("L-BTC"@).len() != ("USD"@).len());
    assert(("L-BTC"@).len() != ("EUR"@).len());
    assert(("L-BTC"@).len() != ("GBP"@).len());
    assert(("L-BTC"@).len() != ("AUD"@).len());
    assert(("L-BTC"@).len() != ("CAD"@).len());
    assert(("L-BTC"@).len() != ("NZD"@).len());
    assert(("L-BTC"@).len() != ("ARS"@).len());
    assert(("L-BTC"@).len() != ("BRL"@).len());
    assert(("L-BTC"@).len() != ("CHF"@).len());
    assert(("L-BTC"@).len() != ("CLP"@).len());
    assert(("L-BTC"@).len() != ("COP"@).len());
    assert(("L-BTC"@).len() != ("CZK"@).len());
    assert(("L-BTC"@).len() != ("DKK"@).len());
    assert(("L-BTC"@).len() != ("HKD"@).len());
    assert(("L-BTC"@).len() != ("ILS"@).len());
    assert(("L-BTC"@).len() != ("INR"@).len());
    assert(("L-BTC"@).len() != ("ISK"@).len());
    assert(("L-BTC"@).len() != ("JPY"@).len());
    assert(("L-BTC"@).len() != ("KRW"@).len());
    assert(("L-BTC"@).len() != ("MXN"@).len());
    assert(("L-BTC"@).len() != ("MYR"@).len());
    assert(("L-BTC"@).len() != ("NOK"@).len());
    assert(("L-BTC"@).len() != ("PHP"@).len());
    assert(("L-BTC"@).len() != ("PLN"@).len());
    assert(("L-BTC"@).len() != ("SEK"@).len());
    assert(("L-BTC"@).len() != ("SGD"@).len());
    assert(("L-BTC"@).len() != ("THB"@).len());
    assert(("L-BTC"@).len() != ("VND"@).len());
    assert(("L-BTC"@).len() != ("ZAR"@).len());
    assert(("L-BTC"@).len() != ("BTC"@).len());
    assert(("L-BTC"@).len() != ("ETH"@).len());
    assert(("L-BTC"@).len() != ("XLM"@).len());
    assert(("L-BTC"@)[0] != ("sUSDC"@)[0]);
    assert(("L-BTC"@).len() != ("AVAX"@).len());
    assert(("L-BTC"@).len() != ("DAI"@).len());
    assert(("L-BTC"@).len() != ("pDAI"@).len());
    assert(("L-BTC"@).len() != ("USDC"@).len());
    assert(("L-BTC"@)[0] != ("mUSDC"@)[0]);
    assert("L-BTC"@ != "USD"@);
    assert("L-BTC"@ != "EUR"@);
    assert("L-BTC"@ != "GBP"@);
    assert("L-BTC"@ != "AUD"@);
    assert("L-BTC"@ != "CAD"@);
    assert("L-BTC"@ != "NZD"@);
    assert("L-BTC"@ != "ARS"@);
    assert("L-BTC"@ != "BRL"@);
    assert("L-BTC"@ != "CHF"@);
    assert("L-BTC"@ != "CLP"@);
    assert("L-BTC"@ != "COP"@);
    assert("L-BTC"@ != "CZK"@);
    assert("L-BTC"@ != "DKK"@);
    assert("L-BTC"@ != "HKD"@);
    assert("L-BTC"@ != "ILS"@);
    assert("L-BTC"@ != "INR"@);
    assert("L-BTC"@ != "ISK"@);
    assert("L-BTC"@ != "JPY"@);
    assert("L-BTC"@ != "KRW"@);
    assert("L-BTC"@ != "MXN"@);
    assert("L-BTC"@ != "MYR"@);
    assert("L-BTC"@ != "NOK"@);
    assert("L-BTC"@ != "PHP"@);
    assert("L-BTC"@ != "PLN"@);
    assert("L-BTC"@ != "SEK"@);
    assert("L-BTC"@ != "SGD"@);
    assert("L-BTC"@ != "THB"@);
    assert("L-BTC"@ != "VND"@);
    assert("L-BTC"@ != "ZAR"@);
    assert("L-BTC"@ != "BTC"@);
    assert("L-BTC"@ != "ETH"@);
    assert("L-BTC"@ != "XLM"@);
    assert("L-BTC"@ != "sUSDC"@);
    assert("L-BTC"@ != "AVAX"@);
    assert("L-BTC"@ != "DAI"@);
    assert("L-BTC"@ != "pDAI"@);
    assert("L-BTC"@ != "USDC"@);
    assert("L-BTC"@ != "mUSDC"@);
}

proof fn lemma_token_reaches_usdt()
    ensures
        spec_parse_currency(currency_token(Currency::USDT)) == Currency::USDT,
{
    reveal_strlit("USD");
    reveal_strlit("EUR");
    reveal_strlit("GBP");
    reveal_strlit("AUD");
    reveal_strlit("CAD");
    reveal_strlit("NZD");
    reveal_strlit("ARS");
    reveal_strlit("BRL");
    reveal_strlit("CHF");
    reveal_strlit("CLP");
    reveal_strlit("COP");
    reveal_strlit("CZK");
    reveal_strlit("DKK");
    reveal_strlit("HKD");
    reveal_strlit("ILS");
    reveal_strlit("INR");
    reveal_strlit("ISK");
    reveal_strlit("JPY");
    reveal_strlit("KRW");
    reveal_strlit("MXN");
    reveal_strlit("MYR");
    reveal_strlit("NOK");
    reveal_strlit("PHP");
    reveal_strlit("PLN");
    reveal_strlit("SEK");
    reveal_strlit("SGD");
    reveal_strlit("THB");
    reveal_strlit("VND");
    reveal_strlit("ZAR");
    reveal_strlit("BTC");
    reveal_strlit("ETH");
    reveal_strlit("XLM");
    reveal_strlit("sUSDC");
    reveal_strlit("AVAX");
    reveal_strlit("DAI");
    reveal_strlit("pDAI");
    reveal_strlit("USDC");
    reveal_strlit("mUSDC");
    reveal_strlit("L-BTC");
    reveal_strlit("USDT");
    assert(("USDT"@).len() != ("USD"@).len());
    assert(("USDT"@).len() != ("EUR"@).len());
    assert(("USDT"@).len() != ("GBP"@).len());
    assert(("USDT"@).len() != ("AUD"@).len());
    assert(("USDT"@).len() != ("CAD"@).len());
    assert(("USDT"@).len() != ("NZD"@).len());
    assert(("USDT"@).len() != ("ARS"@).len());
    assert(("USDT"@).len() != ("BRL"@).len());
    assert(("USDT"@).len() != ("CHF"@).len());
    assert(("USDT"@).len() != ("CLP"@).len());
    assert(("USDT"@).len() != ("COP"@).len());
    assert(("USDT"@).len() != ("CZK"@).len());
    assert(("USDT"@).len() != ("DKK"@).len());
    assert(("USDT"@).len() != ("HKD"@).len());
    assert(("USDT"@).len() != ("ILS"@).len());
    assert(("USDT"@).len() != ("INR"@).len());
    assert(("USDT"@).len() != ("ISK"@).len());
    assert(("USDT"@).len() != ("JPY"@).len());
    assert(("USDT"@).len() != ("KRW"@).len());
    assert(("USDT"@).len() != ("MXN"@).len());
    assert(("USDT"@).len() != ("MYR"@).len());
    assert(("USDT"@).len() != ("NOK"@).len());
    assert(("USDT"@).len() != ("PHP"@).len());
    assert(("USDT"@).len() != ("PLN"@).len());
    assert(("USDT"@).len() != ("SEK"@).len());
    assert(("USDT"@).len() != ("SGD"@).len());
    assert(("USDT"@).len() != ("THB"@).len());
    assert(("USDT"@).len() != ("VND"@).len());
    assert(("USDT"@).len() != ("ZAR"@).len());
    assert(("USDT"@).len() != ("BTC"@).len());
    assert(("USDT"@).len() != ("ETH"@).len());
    assert(("USDT"@).len() != ("XLM"@).len());
    assert(("USDT"@).len() != ("sUSDC"@).len());
    assert(("USDT"@)[0] != ("AVAX"@)[0]);
    assert(("USDT"@).len() != ("DAI"@).len());
    assert(("USDT"@)[0] != ("pDAI"@)[0]);
    assert(("USDT"@)[3] != ("USDC"@)[3]);
    assert(("USDT"@).len() != ("mUSDC"@).len());
    assert(("USDT"@).len() != ("L-BTC"@).len());
    assert("USDT"@ != "USD"@);
    assert("USDT"@ != "EUR"@);
    assert("USDT"@ != "GBP"@);
    assert("USDT"@ != "AUD"@);
    assert("USDT"@ != "CAD"@);
    assert("USDT"@ != "NZD"@);
    assert("USDT"@ != "ARS"@);
    assert("USDT"@ != "BRL"@);
    assert("USDT"@ != "CHF"@);
    assert("USDT"@ != "CLP"@);
    assert("USDT"@ != "COP"@);
    assert("USDT"@ != "CZK"@);
    assert("USDT"@ != "DKK"@);
    assert("USDT"@ != "HKD"@);
    assert("USDT"@ != "ILS"@);
    assert("USDT"@ != "INR"@);
    assert("USDT"@ != "ISK"@);
    assert("USDT"@ != "JPY"@);
    assert("USDT"@ != "KRW"@);
    assert("USDT"@ != "MXN"@);
    assert("USDT"@ != "MYR"@);
    assert("USDT"@ != "NOK"@);
    assert("USDT"@ != "PHP"@);
    assert("USDT"@ != "PLN"@);
    assert("USDT"@ != "SEK"@);
    assert("USDT"@ != "SGD"@);
    assert("USDT"@ != "THB"@);
    assert("USDT"@ != "VND"@);
    assert("USDT"@ != "ZAR"@);
    assert("USDT"@ != "BTC"@);
    assert("USDT"@ != "ETH"@);
    assert("USDT"@ != "XLM"@);
    assert("USDT"@ != "sUSDC"@);
    assert("USDT"@ != "AVAX"@);
    assert("USDT"@ != "DAI"@);
    assert("USDT"@ != "pDAI"@);
    assert("USDT"@ != "USDC"@);
    assert("USDT"@ != "mUSDC"@);
    assert("USDT"@ != "L-BTC"@);
}

proof fn lemma_token_reaches_busd()
    ensures
        spec_parse_currency(currency_token(Currency::BUSD)) == Currency::BUSD,
{
    reveal_strlit("USD");
    reveal_strlit("EUR");
    reveal_strlit("GBP");
    reveal_strlit("AUD");
    reveal_strlit("CAD");
    reveal_strlit("NZD");
    reveal_strlit("ARS");
    reveal_strlit("BRL");
    reveal_strlit("CHF");
    reveal_strlit("CLP");
    reveal_strlit("COP");
    reveal_strlit("CZK");
    reveal_strlit("DKK");
    reveal_strlit("HKD");
    reveal_strlit("ILS");
    reveal_strlit("INR");
    reveal_strlit("ISK");
    reveal_strlit("JPY");
    reveal_strlit("KRW");
    reveal_strlit("MXN");
    reveal_strlit("MYR");
    reveal_strlit("NOK");
    reveal_strlit("PHP");
    reveal_strlit("PLN");
    reveal_strlit("SEK");
    reveal_strlit("SGD");
    reveal_strlit("THB");
    reveal_strlit("VND");
    reveal_strlit("ZAR");
    reveal_strlit("BTC");
    reveal_strlit("ETH");
    reveal_strlit("XLM");
    reveal_strlit("sUSDC");
    reveal_strlit("AVAX");
    reveal_strlit("DAI");
    reveal_strlit("pDAI");
    reveal_strlit("USDC");
    reveal_strlit("mUSDC");
    reveal_strlit("L-BTC");
    reveal_strlit("USDT");
    reveal_strlit("BUSD");
    assert(("BUSD"@).len() != ("USD"@).len());
    assert(("BUSD"@).len() != ("EUR"@).len());
    assert(("BUSD"@).len() != ("GBP"@).len());
    assert(("BUSD"@).len() != ("AUD"@).len());
    assert(("BUSD"@).len() != ("CAD"@).len());
    assert(("BUSD"@).len() != ("NZD"@).len());
    assert(("BUSD"@).len() != ("ARS"@).len());
    assert(("BUSD"@).len() != ("BRL"@).len());
    assert(("BUSD"@).len() != ("CHF"@).len());
    assert(("BUSD"@).len() != ("CLP"@).len());
    assert(("BUSD"@).len() != ("COP"@).len());
    assert(("BUSD"@).len() != ("CZK"@).len());
    assert(("BUSD"@).len() != ("DKK"@).len());
    assert(("BUSD"@).len() != ("HKD"@).len());
    assert(("BUSD"@).len() != ("ILS"@).len());
    assert(("BUSD"@).len() != ("INR"@).len());
    assert(("BUSD"@).len() != ("ISK"@).len());
    assert(("BUSD"@).len() != ("JPY"@).len());
    assert(("BUSD"@).len() != ("KRW"@).len());
    assert(("BUSD"@).len() != ("MXN"@).len());
    assert(("BUSD"@).len() != ("MYR"@).len());
    assert(("BUSD"@).len() != ("NOK"@).len());
    assert(("BUSD"@).len() != ("PHP"@).len());
    assert(("BUSD"@).len() != ("PLN"@).len());
    assert(("BUSD"@).len() != ("SEK"@).len());
    assert(("BUSD"@).len() != ("SGD"@).len());
    assert(("BUSD"@).len() != ("THB"@).len());
    assert(("BUSD"@).len() != ("VND"@).len());
    assert(("BUSD"@).len() != ("ZAR"@).len());
    assert(("BUSD"@).len() != ("BTC"@).len());
    assert(("BUSD"@).len() != ("ETH"@).len());
    assert(("BUSD"@).len() != ("XLM"@).len());
    assert(("BUSD"@).len() != ("sUSDC"@).len());
    assert(("BUSD"@)[0] != ("AVAX"@)[0]);
    assert(("BUSD"@).len() != ("DAI"@).len());
    assert(("BUSD"@)[0] != ("pDAI"@)[0]);
    assert(("BUSD"@)[0] != ("USDC"@)[0]);
    assert(("BUSD"@).len() != ("mUSDC"@).len());
    assert(("BUSD"@).len() != ("L-BTC"@).len());
    assert(("BUSD"@)[0] != ("USDT"@)[0]);
    assert("BUSD"@ != "USD"@);
    assert("BUSD"@ != "EUR"@);
    assert("BUSD"@ != "GBP"@);
    assert("BUSD"@ != "AUD"@);
    assert("BUSD"@ != "CAD"@);
    assert("BUSD"@ != "NZD"@);
    assert("BUSD"@ != "ARS"@);
    assert("BUSD"@ != "BRL"@);
    assert("BUSD"@ != "CHF"@);
    assert("BUSD"@ != "CLP"@);
    assert("BUSD"@ != "COP"@);
    assert("BUSD"@ != "CZK"@);
    assert("BUSD"@ != "DKK"@);
    assert("BUSD"@ != "HKD"@);
    assert("BUSD"@ != "ILS"@);
    assert("BUSD"@ != "INR"@);
    assert("BUSD"@ != "ISK"@);
    assert("BUSD"@ != "JPY"@);
    assert("BUSD"@ != "KRW"@);
    assert("BUSD"@ != "MXN"@);
    assert("BUSD"@ != "MYR"@);
    assert("BUSD"@ != "NOK"@);
    assert("BUSD"@ != "PHP"@);
    assert("BUSD"@ != "PLN"@);
    assert("BUSD"@ != "SEK"@);
    assert("BUSD"@ != "SGD"@);
    assert("BUSD"@ != "THB"@);
    assert("BUSD"@ != "VND"@);
    assert("BUSD"@ != "ZAR"@);
    assert("BUSD"@ != "BTC"@);
    assert("BUSD"@ != "ETH"@);
    assert("BUSD"@ != "XLM"@);
    assert("BUSD"@ != "sUSDC"@);
    assert("BUSD"@ != "AVAX"@);
    assert("BUSD"@ != "DAI"@);
    assert("BUSD"@ != "pDAI"@);
    assert("BUSD"@ != "USDC"@);
    assert("BUSD"@ != "mUSDC"@);
    assert("BUSD"@ != "L-BTC"@);
    assert("BUSD"@ != "USDT"@);
}

proof fn lemma_token_reaches_gusd()
    ensures
        spec_parse_currency(currency_token(Currency::GUSD)) == Currency::GUSD,
{
    reveal_strlit("USD");
    reveal_strlit("EUR");
    reveal_strlit("GBP");
    reveal_strlit("AUD");
    reveal_strlit("CAD");
    reveal_strlit("NZD");
    reveal_strlit("ARS");
    reveal_strlit("BRL");
    reveal_strlit("CHF");
    reveal_strlit("CLP");
    reveal_strlit("COP");
    reveal_strlit("CZK");
    reveal_strlit("DKK");
    reveal_strlit("HKD");
    reveal_strlit("ILS");
    reveal_strlit("INR");
    reveal_strlit("ISK");
    reveal_strlit("JPY");
    reveal_strlit("KRW");
    reveal_strlit("MXN");
    reveal_strlit("MYR");
    reveal_strlit("NOK");
    reveal_strlit("PHP");
    reveal_strlit("PLN");
    reveal_strlit("SEK");
    reveal_strlit("SGD");
    reveal_strlit("THB");
    reveal_strlit("VND");
    reveal_strlit("ZAR");
    reveal_strlit("BTC");
    reveal_strlit("ETH");
    reveal_strlit("XLM");
    reveal_strlit("sUSDC");
    reveal_strlit("AVAX");
    reveal_strlit("DAI");
    reveal_strlit("pDAI");
    reveal_strlit("USDC");
    reveal_strlit("mUSDC");
    reveal_strlit("L-BTC");
    reveal_strlit("USDT");
    reveal_strlit("BUSD");
    reveal_strlit("GUSD");
    assert(("GUSD"@).len() != ("USD"@).len());
    assert(("GUSD"@).len() != ("EUR"@).len());
    assert(("GUSD"@).len() != ("GBP"@).len());
    assert(("GUSD"@).len() != ("AUD"@).len());
    assert(("GUSD"@).len() != ("CAD"@).len());
    assert(("GUSD"@).len() != ("NZD"@).len());
    assert(("GUSD"@).len() != ("ARS"@).len());
    assert(("GUSD"@).len() != ("BRL"@).len());
    assert(("GUSD"@).len() != ("CHF"@).len());
    assert(("GUSD"@).len() != ("CLP"@).len());
    assert(("GUSD"@).len() != ("COP"@).len());
    assert(("GUSD"@).len() != ("CZK"@).len());
    assert(("GUSD"@).len() != ("DKK"@).len());
    assert(("GUSD"@).len() != ("HKD"@).len());
    assert(("GUSD"@).len() != ("ILS"@).len());
    assert(("GUSD"@).len() != ("INR"@).len());
    assert(("GUSD"@).len() != ("ISK"@).len());
    assert(("GUSD"@).len() != ("JPY"@).len());
    assert(("GUSD"@).len() != ("KRW"@).len());
    assert(("GUSD"@).len() != ("MXN"@).len());
    assert(("GUSD"@).len() != ("MYR"@).len());
    assert(("GUSD"@).len() != ("NOK"@).len());
    assert(("GUSD"@).len() != ("PHP"@).len());
    assert(("GUSD"@).len() != ("PLN"@).len());
    assert(("GUSD"@).len() != ("SEK"@).len());
    assert(("GUSD"@).len() != ("SGD"@).len());
    assert(("GUSD"@).len() != ("THB"@).len());
    assert(("GUSD"@).len() != ("VND"@).len());
    assert(("GUSD"@).len() != ("ZAR"@).len());
    assert(("GUSD"@).len() != ("BTC"@).len());
    assert(("GUSD"@).len() != ("ETH"@).len());
    assert(("GUSD"@).len() != ("XLM"@).len());
    assert(("GUSD"@).len() != ("sUSDC"@).len());
    assert(("GUSD"@)[0] != ("AVAX"@)[0]);
    assert(("GUSD"@).len() != ("DAI"@).len());
    assert(("GUSD"@)[0] != ("pDAI"@)[0]);
    assert(("GUSD"@)[0] != ("USDC"@)[0]);
    assert(("GUSD"@).len() != ("mUSDC"@).len());
    assert(("GUSD"@).len() != ("L-BTC"@).len());
    assert(("GUSD"@)[0] != ("USDT"@)[0]);
    assert(("GUSD"@)[0] != ("BUSD"@)[0]);
    assert("GUSD"@ != "USD"@);
    assert("GUSD"@ != "EUR"@);
    assert("GUSD"@ != "GBP"@);
    assert("GUSD"@ != "AUD"@);
    assert("GUSD"@ != "CAD"@);
    assert("GUSD"@ != "NZD"@);
    assert("GUSD"@ != "ARS"@);
    assert("GUSD"@ != "BRL"@);
    assert("GUSD"@ != "CHF"@);
    assert("GUSD"@ != "CLP"@);
    assert("GUSD"@ != "COP"@);
    assert("GUSD"@ != "CZK"@);
    assert("GUSD"@ != "DKK"@);
    assert("GUSD"@ != "HKD"@);
    assert("GUSD"@ != "ILS"@);
    assert("GUSD"@ != "INR"@);
    assert("GUSD"@ != "ISK"@);
    assert("GUSD"@ != "JPY"@);
    assert("GUSD"@ != "KRW"@);
    assert("GUSD"@ != "MXN"@);
    assert("GUSD"@ != "MYR"@);
    assert("GUSD"@ != "NOK"@);
    assert("GUSD"@ != "PHP"@);
    assert("GUSD"@ != "PLN"@);
    assert("GUSD"@ != "SEK"@);
    assert("GUSD"@ != "SGD"@);
    assert("GUSD"@ != "THB"@);
    assert("GUSD"@ != "VND"@);
    assert("GUSD"@ != "ZAR"@);
    assert("GUSD"@ != "BTC"@);
    assert("GUSD"@ != "ETH"@);
    assert("GUSD"@ != "XLM"@);
    assert("GUSD"@ != "sUSDC"@);
    assert("GUSD"@ != "AVAX"@);
    assert("GUSD"@ != "DAI"@);
    assert("GUSD"@ != "pDAI"@);
    assert("GUSD"@ != "USDC"@);
    assert("GUSD"@ != "mUSDC"@);
    assert("GUSD"@ != "L-BTC"@);
    assert("GUSD"@ != "USDT"@);
    assert("GUSD"@ != "BUSD"@);
}

proof fn lemma_token_reaches_pax()
    ensures
        spec_parse_currency(currency_token(Currency::PAX)) == Currency::PAX,
{
    reveal_strlit("USD");
    reveal_strlit("EUR");
    reveal_strlit("GBP");
    reveal_strlit("AUD");
    reveal_strlit("CAD");
    reveal_strlit("NZD");
    reveal_strlit("ARS");
    reveal_strlit("BRL");
    reveal_strlit("CHF");
    reveal_strlit("CLP");
    reveal_strlit("COP");
    reveal_strlit("CZK");
    reveal_strlit("DKK");
    reveal_strlit("HKD");
    reveal_strlit("ILS");
    reveal_strlit("INR");
    reveal_strlit("ISK");
    reveal_strlit("JPY");
    reveal_strlit("KRW");
    reveal_strlit("MXN");
    reveal_strlit("MYR");
    reveal_strlit("NOK");
    reveal_strlit("PHP");
    reveal_strlit("PLN");
    reveal_strlit("SEK");
    reveal_strlit("SGD");
    reveal_strlit("THB");
    reveal_strlit("VND");
    reveal_strlit("ZAR");
    reveal_strlit("BTC");
    reveal_strlit("ETH");
    reveal_strlit("XLM");
    reveal_strlit("sUSDC");
    reveal_strlit("AVAX");
    reveal_strlit("DAI");
    reveal_strlit("pDAI");
    reveal_strlit("USDC");
    reveal_strlit("mUSDC");
    reveal_strlit("L-BTC");
    reveal_strlit("USDT");
    reveal_strlit("BUSD");
    reveal_strlit("GUSD");
    reveal_strlit("PAX");
    assert(("PAX"@)[0] != ("USD"@)[0]);
    assert(("PAX"@)[0] != ("EUR"@)[0]);
    assert(("PAX"@)[0] != ("GBP"@)[0]);
    assert(("PAX"@)[0] != ("AUD"@)[0]);
    assert(("PAX"@)[0] != ("CAD"@)[0]);
    assert(("PAX"@)[0] != ("NZD"@)[0]);
    assert(("PAX"@)[0] != ("ARS"@)[0]);
    assert(("PAX"@)[0] != ("BRL"@)[0]);
    assert(("PAX"@)[0] != ("CHF"@)[0]);
    assert(("PAX"@)[0] != ("CLP"@)[0]);
    assert(("PAX"@)[0] != ("COP"@)[0]);
    assert(("PAX"@)[0] != ("CZK"@)[0]);
    assert(("PAX"@)[0] != ("DKK"@)[0]);
    assert(("PAX"@)[0] != ("HKD"@)[0]);
    assert(("PAX"@)[0] != ("ILS"@)[0]);
    assert(("PAX"@)[0] != ("INR"@)[0]);
    assert(("PAX"@)[0] != ("ISK"@)[0]);
    assert(("PAX"@)[0] != ("JPY"@)[0]);
    assert(("PAX"@)[0] != ("KRW"@)[0]);
    assert(("PAX"@)[0] != ("MXN"@)[0]);
    assert(("PAX"@)[0] != ("MYR"@)[0]);
    assert(("PAX"@)[0] != ("NOK"@)[0]);
    assert(("PAX"@)[1] != ("PHP"@)[1]);
    assert(("PAX"@)[1] != ("PLN"@)[1]);
    assert(("PAX"@)[0] != ("SEK"@)[0]);
    assert(("PAX"@)[0] != ("SGD"@)[0]);
    assert(("PAX"@)[0] != ("THB"@)[0]);
    assert(("PAX"@)[0] != ("VND"@)[0]);
    assert(("PAX"@)[0] != ("ZAR"@)[0]);
    assert(("PAX"@)[0] != ("BTC"@)[0]);
    assert(("PAX"@)[0] != ("ETH"@)[0]);
    assert(("PAX"@)[0] != ("XLM"@)[0]);
    assert(("PAX"@).len() != ("sUSDC"@).len());
    assert(("PAX"@).len() != ("AVAX"@).len());
    assert(("PAX"@)[0] != ("DAI"@)[0]);
    assert(("PAX"@).len() != ("pDAI"@).len());
    assert(("PAX"@).len() != ("USDC"@).len());
    assert(("PAX"@).len() != ("mUSDC"@).len());
    assert(("PAX"@).len() != ("L-BTC"@).len());
    assert(("PAX"@).len() != ("USDT"@).len());
    assert(("PAX"@).len() != ("BUSD"@).len());
    assert(("PAX"@).len() != ("GUSD"@).len());
    assert("PAX"@ != "USD"@);
    assert("PAX"@ != "EUR"@);
    assert("PAX"@ != "GBP"@);
    assert("PAX"@ != "AUD"@);
    assert("PAX"@ != "CAD"@);
    assert("PAX"@ != "NZD"@);
    assert("PAX"@ != "ARS"@);
    assert("PAX"@ != "BRL"@);
    assert("PAX"@ != "CHF"@);
    assert("PAX"@ != "CLP"@);
    assert("PAX"@ != "COP"@);
    assert("PAX"@ != "CZK"@);
    assert("PAX"@ != "DKK"@);
    assert("PAX"@ != "HKD"@);
    assert("PAX"@ != "ILS"@);
    assert("PAX"@ != "INR"@);
    assert("PAX"@ != "ISK"@);
    assert("PAX"@ != "JPY"@);
    assert("PAX"@ != "KRW"@);
    assert("PAX"@ != "MXN"@);
    assert("PAX"@ != "MYR"@);
    assert("PAX"@ != "NOK"@);
    assert("PAX"@ != "PHP"@);
    assert("PAX"@ != "PLN"@);
    assert("PAX"@ != "SEK"@);
    assert("PAX"@ != "SGD"@);
    assert("PAX"@ != "THB"@);
    assert("PAX"@ != "VND"@);
    assert("PAX"@ != "ZAR"@);
    assert("PAX"@ != "BTC"@);
    assert("PAX"@ != "ETH"@);
    assert("PAX"@ != "XLM"@);
    assert("PAX"@ != "sUSDC"@);
    assert("PAX"@ != "AVAX"@);
    assert("PAX"@ != "DAI"@);
    assert("PAX"@ != "pDAI"@);
    assert("PAX"@ != "USDC"@);
    assert("PAX"@ != "mUSDC"@);
    assert("PAX"@ != "L-BTC"@);
    assert("PAX"@ != "USDT"@);
    assert("PAX"@ != "BUSD"@);
    assert("PAX"@ != "GUSD"@);
}

proof fn lemma_token_reaches_usds()
    ensures
        spec_parse_currency(currency_token(Currency::USDS)) == Currency::USDS,
{
    reveal_strlit("USD");
    reveal_strlit("EUR");
    reveal_strlit("GBP");
    reveal_strlit("AUD");
    reveal_strlit("CAD");
    reveal_strlit("NZD");
    reveal_strlit("ARS");
    reveal_strlit("BRL");
    reveal_strlit("CHF");
    reveal_strlit("CLP");
    reveal_strlit("COP");
    reveal_strlit("CZK");
    reveal_strlit("DKK");
    reveal_strlit("HKD");
    reveal_strlit("ILS");
    reveal_strlit("INR");
    reveal_strlit("ISK");
    reveal_strlit("JPY");
    reveal_strlit("KRW");
    reveal_strlit("MXN");
    reveal_strlit("MYR");
    reveal_strlit("NOK");
    reveal_strlit("PHP");
    reveal_strlit("PLN");
    reveal_strlit("SEK");
    reveal_strlit("SGD");
    reveal_strlit("THB");
    reveal_strlit("VND");
    reveal_strlit("ZAR");
    reveal_strlit("BTC");
    reveal_strlit("ETH");
    reveal_strlit("XLM");
    reveal_strlit("sUSDC");
    reveal_strlit("AVAX");
    reveal_strlit("DAI");
    reveal_strlit("pDAI");
    reveal_strlit("USDC");
    reveal_strlit("mUSDC");
    reveal_strlit("L-BTC");
    reveal_strlit("USDT");
    reveal_strlit("BUSD");
    reveal_strlit("GUSD");
    reveal_strlit("PAX");
    reveal_strlit("USDS");
    assert(("USDS"@).len() != ("USD"@).len());
    assert(("USDS"@).len() != ("EUR"@).len());
    assert(("USDS"@).len() != ("GBP"@).len());
    assert(("USDS"@).len() != ("AUD"@).len());
    assert(("USDS"@).len() != ("CAD"@).len());
    assert(("USDS"@).len() != ("NZD"@).len());
    assert(("USDS"@).len() != ("ARS"@).len());
    assert(("USDS"@).len() != ("BRL"@).len());
    assert(("USDS"@).len() != ("CHF"@).len());
    assert(("USDS"@).len() != ("CLP"@).len());
    assert(("USDS"@).len() != ("COP"@).len());
    assert(("USDS"@).len() != ("CZK"@).len());
    assert(("USDS"@).len() != ("DKK"@).len());
    assert(("USDS"@).len() != ("HKD"@).len());
    assert(("USDS"@).len() != ("ILS"@).len());
    assert(("USDS"@).len() != ("INR"@).len());
    assert(("USDS"@).len() != ("ISK"@).len());
    assert(("USDS"@).len() != ("JPY"@).len());
    assert(("USDS"@).len() != ("KRW"@).len());
    assert(("USDS"@).len() != ("MXN"@).len());
    assert(("USDS"@).len() != ("MYR"@).len());
    assert(("USDS"@).len() != ("NOK"@).len());
    assert(("USDS"@).len() != ("PHP"@).len());
    assert(("USDS"@).len() != ("PLN"@).len());
    assert(("USDS"@).len() != ("SEK"@).len());
    assert(("USDS"@).len() != ("SGD"@).len());
    assert(("USDS"@).len() != ("THB"@).len());
    assert(("USDS"@).len() != ("VND"@).len());
    assert(("USDS"@).len() != ("ZAR"@).len());
    assert(("USDS"@).len() != ("BTC"@).len());
    assert(("USDS"@).len() != ("ETH"@).len());
    assert(("USDS"@).len() != ("XLM"@).len());
    assert(("USDS"@).len() != ("sUSDC"@).len());
    assert(("USDS"@)[0] != ("AVAX"@)[0]);
    assert(("USDS"@).len() != ("DAI"@).len());
    assert(("USDS"@)[0] != ("pDAI"@)[0]);
    assert(("USDS"@)[3] != ("USDC"@)[3]);
    assert(("USDS"@).len() != ("mUSDC"@).len());
    assert(("USDS"@).len() != ("L-BTC"@).len());
    assert(("USDS"@)[3] != ("USDT"@)[3]);
    assert(("USDS"@)[0] != ("BUSD"@)[0]);
    assert(("USDS"@)[0] != ("GUSD"@)[0]);
    assert(("USDS"@).len() != ("PAX"@).len());
    assert("USDS"@ != "USD"@);
    assert("USDS"@ != "EUR"@);
    assert("USDS"@ != "GBP"@);
    assert("USDS"@ != "AUD"@);
    assert("USDS"@ != "CAD"@);
    assert("USDS"@ != "NZD"@);
    assert("USDS"@ != "ARS"@);
    assert("USDS"@ != "BRL"@);
    assert("USDS"@ != "CHF"@);
    assert("USDS"@ != "CLP"@);
    assert("USDS"@ != "COP"@);
    assert("USDS"@ != "CZK"@);
    assert("USDS"@ != "DKK"@);
    assert("USDS"@ != "HKD"@);
    assert("USDS"@ != "ILS"@);
    assert("USDS"@ != "INR"@);
    assert("USDS"@ != "ISK"@);
    assert("USDS"@ != "JPY"@);
    assert("USDS"@ != "KRW"@);
    assert("USDS"@ != "MXN"@);
    assert("USDS"@ != "MYR"@);
    assert("USDS"@ != "NOK"@);
    assert("USDS"@ != "PHP"@);
    assert("USDS"@ != "PLN"@);
    assert("USDS"@ != "SEK"@);
    assert("USDS"@ != "SGD"@);
    assert("USDS"@ != "THB"@);
    assert("USDS"@ != "VND"@);
    assert("USDS"@ != "ZAR"@);
    assert("USDS"@ != "BTC"@);
    assert("USDS"@ != "ETH"@);
    assert("USDS"@ != "XLM"@);
    assert("USDS"@ != "sUSDC"@);
    assert("USDS"@ != "AVAX"@);
    assert("USDS"@ != "DAI"@);
    assert("USDS"@ != "pDAI"@);
    assert("USDS"@ != "USDC"@);
    assert("USDS"@ != "mUSDC"@);
    assert("USDS"@ != "L-BTC"@);
    assert("USDS"@ != "USDT"@);
    assert("USDS"@ != "BUSD"@);
    assert("USDS"@ != "GUSD"@);
    assert("USDS"@ != "PAX"@);
}

proof fn lemma_token_reaches_aave()
    ensures
        spec_parse_currency(currency_token(Currency::AAVE)) == Currency::AAVE,
{
    reveal_strlit("USD");
    reveal_strlit("EUR");
    reveal_strlit("GBP");
    reveal_strlit("AUD");
    reveal_strlit("CAD");
    reveal_strlit("NZD");
    reveal_strlit("ARS");
    reveal_strlit("BRL");
    reveal_strlit("CHF");
    reveal_strlit("CLP");
    reveal_strlit("COP");
    reveal_strlit("CZK");
    reveal_strlit("DKK");
    reveal_strlit("HKD");
    reveal_strlit("ILS");
    reveal_strlit("INR");
    reveal_strlit("ISK");
    reveal_strlit("JPY");
    reveal_strlit("KRW");
    reveal_strlit("MXN");
    reveal_strlit("MYR");
    reveal_strlit("NOK");
    reveal_strlit("PHP");
    reveal_strlit("PLN");
    reveal_strlit("SEK");
    reveal_strlit("SGD");
    reveal_strlit("THB");
    reveal_strlit("VND");
    reveal_strlit("ZAR");
    reveal_strlit("BTC");
    reveal_strlit("ETH");
    reveal_strlit("XLM");
    reveal_strlit("sUSDC");
    reveal_strlit("AVAX");
    reveal_strlit("DAI");
    reveal_strlit("pDAI");
    reveal_strlit("USDC");
    reveal_strlit("mUSDC");
    reveal_strlit("L-BTC");
    reveal_strlit("USDT");
    reveal_strlit("BUSD");
    reveal_strlit("GUSD");
    reveal_strlit("PAX");
    reveal_strlit("USDS");
    reveal_strlit("AAVE");
    assert(("AAVE"@).len() != ("USD"@).len());
    assert(("AAVE"@).len() != ("EUR"@).len());
    assert(("AAVE"@).len() != ("GBP"@).len());
    assert(("AAVE"@).len() != ("AUD"@).len());
    assert(("AAVE"@).len() != ("CAD"@).len());
    assert(("AAVE"@).len() != ("NZD"@).len());
    assert(("AAVE"@).len() != ("ARS"@).len());
    assert(("AAVE"@).len() != ("BRL"@).len());
    assert(("AAVE"@).len() != ("CHF"@).len());
    assert(("AAVE"@).len() != ("CLP"@).len());
    assert(("AAVE"@).len() != ("COP"@).len());
    assert(("AAVE"@).len() != ("CZK"@).len());
    assert(("AAVE"@).len() != ("DKK"@).len());
    assert(("AAVE"@).len() != ("HKD"@).len());
    assert(("AAVE"@).len() != ("ILS"@).len());
    assert(("AAVE"@).len() != ("INR"@).len());
    assert(("AAVE"@).len() != ("ISK"@).len());
    assert(("AAVE"@).len() != ("JPY"@).len());
    assert(("AAVE"@).len() != ("KRW"@).len());
    assert(("AAVE"@).len() != ("MXN"@).len());
    assert(("AAVE"@).len() != ("MYR"@).len());
    assert(("AAVE"@).len() != ("NOK"@).len());
    assert(("AAVE"@).len() != ("PHP"@).len());
    assert(("AAVE"@).len() != ("PLN"@).len());
    assert(("AAVE"@).len() != ("SEK"@).len());
    assert(("AAVE"@).len() != ("SGD"@).len());
    assert(("AAVE"@).len() != ("THB"@).len());
    assert(("AAVE"@).len() != ("VND"@).len());
    assert(("AAVE"@).len() != ("ZAR"@).len());
    assert(("AAVE"@).len() != ("BTC"@).len());
    assert(("AAVE"@).len() != ("ETH"@).len());
    assert(("AAVE"@).len() != ("XLM"@).len());
    assert(("AAVE"@).len() != ("sUSDC"@).len());
    assert(("AAVE"@)[1] != ("AVAX"@)[1]);
    assert(("AAVE"@).len() != ("DAI"@).len());
    assert(("AAVE"@)[0] != ("pDAI"@)[0]);
    assert(("AAVE"@)[0] != ("USDC"@)[0]);
    assert(("AAVE"@).len() != ("mUSDC"@).len());
    assert(("AAVE"@).len() != ("L-BTC"@).len());
    assert(("AAVE"@)[0] != ("USDT"@)[0]);
    assert(("AAVE"@)[0] != ("BUSD"@)[0]);
    assert(("AAVE"@)[0] != ("GUSD"@)[0]);
    assert(("AAVE"@).len() != ("PAX"@).len());
    assert(("AAVE"@)[0] != ("USDS"@)[0]);
    assert("AAVE"@ != "USD"@);
    assert("AAVE"@ != "EUR"@);
    assert("AAVE"@ != "GBP"@);
    assert("AAVE"@ != "AUD"@);
    assert("AAVE"@ != "CAD"@);
    assert("AAVE"@ != "NZD"@);
    assert("AAVE"@ != "ARS"@);
    assert("AAVE"@ != "BRL"@);
    assert("AAVE"@ != "CHF"@);
    assert("AAVE"@ != "CLP"@);
    assert("AAVE"@ != "COP"@);
    assert("AAVE"@ != "CZK"@);
    assert("AAVE"@ != "DKK"@);
    assert("AAVE"@ != "HKD"@);
    assert("AAVE"@ != "ILS"@);
    assert("AAVE"@ != "INR"@);
    assert("AAVE"@ != "ISK"@);
    assert("AAVE"@ != "JPY"@);
    assert("AAVE"@ != "KRW"@);
    assert("AAVE"@ != "MXN"@);
    assert("AAVE"@ != "MYR"@);
    assert("AAVE"@ != "NOK"@);
    assert("AAVE"@ != "PHP"@);
    assert("AAVE"@ != "PLN"@);
    assert("AAVE"@ != "SEK"@);
    assert("AAVE"@ != "SGD"@);
    assert("AAVE"@ != "THB"@);
    assert("AAVE"@ != "VND"@);
    assert("AAVE"@ != "ZAR"@);
    assert("AAVE"@ != "BTC"@);
    assert("AAVE"@ != "ETH"@);
    assert("AAVE"@ != "XLM"@);
    assert("AAVE"@ != "sUSDC"@);
    assert("AAVE"@ != "AVAX"@);
    assert("AAVE"@ != "DAI"@);
    assert("AAVE"@ != "pDAI"@);
    assert("AAVE"@ != "USDC"@);
    assert("AAVE"@ != "mUSDC"@);
    assert("AAVE"@ != "L-BTC"@);
    assert("AAVE"@ != "USDT"@);
    assert("AAVE"@ != "BUSD"@);
    assert("AAVE"@ != "GUSD"@);
    assert("AAVE"@ != "PAX"@);
    assert("AAVE"@ != "USDS"@);
}

proof fn lemma_token_reaches_comp()
    ensures
        spec_parse_currency(currency_token(Currency::COMP)) == Currency::COMP,
{
    reveal_strlit("USD");
    reveal_strlit("EUR");
    reveal_strlit("GBP");
    reveal_strlit("AUD");
    reveal_strlit("CAD");
    reveal_strlit("NZD");
    reveal_strlit("ARS");
    reveal_strlit("BRL");
    reveal_strlit("CHF");
    reveal_strlit("CLP");
    reveal_strlit("COP");
    reveal_strlit("CZK");
    reveal_strlit("DKK");
    reveal_strlit("HKD");
    reveal_strlit("ILS");
    reveal_strlit("INR");
    reveal_strlit("ISK");
    reveal_strlit("JPY");
    reveal_strlit("KRW");
    reveal_strlit("MXN");
    reveal_strlit("MYR");
    reveal_strlit("NOK");
    reveal_strlit("PHP");
    reveal_strlit("PLN");
    reveal_strlit("SEK");
    reveal_strlit("SGD");
    reveal_strlit("THB");
    reveal_strlit("VND");
    reveal_strlit("ZAR");
    reveal_strlit("BTC");
    reveal_strlit("ETH");
    reveal_strlit("XLM");
    reveal_strlit("sUSDC");
    reveal_strlit("AVAX");
    reveal_strlit("DAI");
    reveal_strlit("pDAI");
    reveal_strlit("USDC");
    reveal_strlit("mUSDC");
    reveal_strlit("L-BTC");
    reveal_strlit("USDT");
    reveal_strlit("BUSD");
    reveal_strlit("GUSD");
    reveal_strlit("PAX");
    reveal_strlit("USDS");
    reveal_strlit("AAVE");
    reveal_strlit("COMP");
    assert(("COMP"@).len() != ("USD"@).len());
    assert(("COMP"@).len() != ("EUR"@).len());
    assert(("COMP"@).len() != ("GBP"@).len());
    assert(("COMP"@).len() != ("AUD"@).len());
    assert(("COMP"@).len() != ("CAD"@).len());
    assert(("COMP"@).len() != ("NZD"@).len());
    assert(("COMP"@).len() != ("ARS"@).len());
    assert(("COMP"@).len() != ("BRL"@).len());
    assert(("COMP"@).len() != ("CHF"@).len());
    assert(("COMP"@).len() != ("CLP"@).len());
    assert(("COMP"@).len() != ("COP"@).len());
    assert(("COMP"@).len() != ("CZK"@).len());
    assert(("COMP"@).len() != ("DKK"@).len());
    assert(("COMP"@).len() != ("HKD"@).len());
    assert(("COMP"@).len() != ("ILS"@).len());
    assert(("COMP"@).len() != ("INR"@).len());
    assert(("COMP"@).len() != ("ISK"@).len());
    assert(("COMP"@).len() != ("JPY"@).len());
    assert(("COMP"@).len() != ("KRW"@).len());
    assert(("COMP"@).len() != ("MXN"@).len());
    assert(("COMP"@).len() != ("MYR"@).len());
    assert(("COMP"@).len() != ("NOK"@).len());
    assert(("COMP"@).len() != ("PHP"@).len());
    assert(("COMP"@).len() != ("PLN"@).len());
    assert(("COMP"@).len() != ("SEK"@).len());
    assert(("COMP"@).len() != ("SGD"@).len());
    assert(("COMP"@).len() != ("THB"@).len());
    assert(("COMP"@).len() != ("VND"@).len());
    assert(("COMP"@).len() != ("ZAR"@).len());
    assert(("COMP"@).len() != ("BTC"@).len());
    assert(("COMP"@).len() != ("ETH"@).len());
    assert(("COMP"@).len() != ("XLM"@).len());
    assert(("COMP"@).len() != ("sUSDC"@).len());
    assert(("COMP"@)[0] != ("AVAX"@)[0]);
    assert(("COMP"@).len() != ("DAI"@).len());
    assert(("COMP"@)[0] != ("pDAI"@)[0]);
    assert(("COMP"@)[0] != ("USDC"@)[0]);
    assert(("COMP"@).len() != ("mUSDC"@).len());
    assert(("COMP"@).len() != ("L-BTC"@).len());
    assert(("COMP"@)[0] != ("USDT"@)[0]);
    assert(("COMP"@)[0] != ("BUSD"@)[0]);
    assert(("COMP"@)[0] != ("GUSD"@)[0]);
    assert(("COMP"@).len() != ("PAX"@).len());
    assert(("COMP"@)[0] != ("USDS"@)[0]);
    assert(("COMP"@)[0] != ("AAVE"@)[0]);
    assert("COMP"@ != "USD"@);
    assert("COMP"@ != "EUR"@);
    assert("COMP"@ != "GBP"@);
    assert("COMP"@ != "AUD"@);
    assert("COMP"@ != "CAD"@);
    assert("COMP"@ != "NZD"@);
    assert("COMP"@ != "ARS"@);
    assert("COMP"@ != "BRL"@);
    assert("COMP"@ != "CHF"@);
    assert("COMP"@ != "CLP"@);
    assert("COMP"@ != "COP"@);
    assert("COMP"@ != "CZK"@);
    assert("COMP"@ != "DKK"@);
    assert("COMP"@ != "HKD"@);
    assert("COMP"@ != "ILS"@);
    assert("COMP"@ != "INR"@);
    assert("COMP"@ != "ISK"@);
    assert("COMP"@ != "JPY"@);
    assert("COMP"@ != "KRW"@);
    assert("COMP"@ != "MXN"@);
    assert("COMP"@ != "MYR"@);
    assert("COMP"@ != "NOK"@);
    assert("COMP"@ != "PHP"@);
    assert("COMP"@ != "PLN"@);
    assert("COMP"@ != "SEK"@);
    assert("COMP"@ != "SGD"@);
    assert("COMP"@ != "THB"@);
    assert("COMP"@ != "VND"@);
    assert("COMP"@ != "ZAR"@);
    assert("COMP"@ != "BTC"@);
    assert("COMP"@ != "ETH"@);
    assert("COMP"@ != "XLM"@);
    assert("COMP"@ != "sUSDC"@);
    assert("COMP"@ != "AVAX"@);
    assert("COMP"@ != "DAI"@);
    assert("COMP"@ != "pDAI"@);
    assert("COMP"@ != "USDC"@);
    assert("COMP"@ != "mUSDC"@);
    assert("COMP"@ != "L-BTC"@);
    assert("COMP"@ != "USDT"@);
    assert("COMP"@ != "BUSD"@);
    assert("COMP"@ != "GUSD"@);
    assert("COMP"@ != "PAX"@);
    assert("COMP"@ != "USDS"@);
    assert("COMP"@ != "AAVE"@);
}

proof fn lemma_token_reaches_link()
    ensures
        spec_parse_currency(currency_token(Currency::LINK)) == Currency::LINK,
{
    reveal_strlit("USD");
    reveal_strlit("EUR");
    reveal_strlit("GBP");
    reveal_strlit("AUD");
    reveal_strlit("CAD");
    reveal_strlit("NZD");
    reveal_strlit("ARS");
    reveal_strlit("BRL");
    reveal_strlit("CHF");
    reveal_strlit("CLP");
    reveal_strlit("COP");
    reveal_strlit("CZK");
    reveal_strlit("DKK");
    reveal_strlit("HKD");
    reveal_strlit("ILS");
    reveal_strlit("INR");
    reveal_strlit("ISK");
    reveal_strlit("JPY");
    reveal_strlit("KRW");
    reveal_strlit("MXN");
    reveal_strlit("MYR");
    reveal_strlit("NOK");
    reveal_strlit("PHP");
    reveal_strlit("PLN");
    reveal_strlit("SEK");
    reveal_strlit("SGD");
    reveal_strlit("THB");
    reveal_strlit("VND");
    reveal_strlit("ZAR");
    reveal_strlit("BTC");
    reveal_strlit("ETH");
    reveal_strlit("XLM");
    reveal_strlit("sUSDC");
    reveal_strlit("AVAX");
    reveal_strlit("DAI");
    reveal_strlit("pDAI");
    reveal_strlit("USDC");
    reveal_strlit("mUSDC");
    reveal_strlit("L-BTC");
    reveal_strlit("USDT");
    reveal_strlit("BUSD");
    reveal_strlit("GUSD");
    reveal_strlit("PAX");
    reveal_strlit("USDS");
    reveal_strlit("AAVE");
    reveal_strlit("COMP");
    reveal_strlit("LINK");
    assert(("LINK"@).len() != ("USD"@).len());
    assert(("LINK"@).len() != ("EUR"@).len());
    assert(("LINK"@).len() != ("GBP"@).len());
    assert(("LINK"@).len() != ("AUD"@).len());
    assert(("LINK"@).len() != ("CAD"@).len());
    assert(("LINK"@).len() != ("NZD"@).len());
    assert(("LINK"@).len() != ("ARS"@).len());
    assert(("LINK"@).len() != ("BRL"@).len());
    assert(("LINK"@).len() != ("CHF"@).len());
    assert(("LINK"@).len() != ("CLP"@).len());
    assert(("LINK"@).len() != ("COP"@).len());
    assert(("LINK"@).len() != ("CZK"@).len());
    assert(("LINK"@).len() != ("DKK"@).len());
    assert(("LINK"@).len() != ("HKD"@).len());
    assert(("LINK"@).len() != ("ILS"@).len());
    assert(("LINK"@).len() != ("INR"@).len());
    assert(("LINK"@).len() != ("ISK"@).len());
    assert(("LINK"@).len() != ("JPY"@).len());
    assert(("LINK"@).len() != ("KRW"@).len());
    assert(("LINK"@).len() != ("MXN"@).len());
    assert(("LINK"@).len() != ("MYR"@).len());
    assert(("LINK"@).len() != ("NOK"@).len());
    assert(("LINK"@).len() != ("PHP"@).len());
    assert(("LINK"@).len() != ("PLN"@).len());
    assert(("LINK"@).len() != ("SEK"@).len());
    assert(("LINK"@).len() != ("SGD"@).len());
    assert(("LINK"@).len() != ("THB"@).len());
    assert(("LINK"@).len() != ("VND"@).len());
    assert(("LINK"@).len() != ("ZAR"@).len());
    assert(("LINK"@).len() != ("BTC"@).len());
    assert(("LINK"@).len() != ("ETH"@).len());
    assert(("LINK"@).len() != ("XLM"@).len());
    assert(("LINK"@).len() != ("sUSDC"@).len());
    assert(("LINK"@)[0] != ("AVAX"@)[0]);
    assert(("LINK"@).len() != ("DAI"@).len());
    assert(("LINK"@)[0] != ("pDAI"@)[0]);
    assert(("LINK"@)[0] != ("USDC"@)[0]);
    assert(("LINK"@).len() != ("mUSDC"@).len());
    assert(("LINK"@).len() != ("L-BTC"@).len());
    assert(("LINK"@)[0] != ("USDT"@)[0]);
    assert(("LINK"@)[0] != ("BUSD"@)[0]);
    assert(("LINK"@)[0] != ("GUSD"@)[0]);
    assert(("LINK"@).len() != ("PAX"@).len());
    assert(("LINK"@)[0] != ("USDS"@)[0]);
    assert(("LINK"@)[0] != ("AAVE"@)[0]);
    assert(("LINK"@)[0] != ("COMP"@)[0]);
    assert("LINK"@ != "USD"@);
    assert("LINK"@ != "EUR"@);
    assert("LINK"@ != "GBP"@);
    assert("LINK"@ != "AUD"@);
    assert("LINK"@ != "CAD"@);
    assert("LINK"@ != "NZD"@);
    assert("LINK"@ != "ARS"@);
    assert("LINK"@ != "BRL"@);
    assert("LINK"@ != "CHF"@);
    assert("LINK"@ != "CLP"@);
    assert("LINK"@ != "COP"@);
    assert("LINK"@ != "CZK"@);
    assert("LINK"@ != "DKK"@);
    assert("LINK"@ != "HKD"@);
    assert("LINK"@ != "ILS"@);
    assert("LINK"@ != "INR"@);
    assert("LINK"@ != "ISK"@);
    assert("LINK"@ != "JPY"@);
    assert("LINK"@ != "KRW"@);
    assert("LINK"@ != "MXN"@);
    assert("LINK"@ != "MYR"@);
    assert("LINK"@ != "NOK"@);
    assert("LINK"@ != "PHP"@);
    assert("LINK"@ != "PLN"@);
    assert("LINK"@ != "SEK"@);
    assert("LINK"@ != "SGD"@);
    assert("LINK"@ != "THB"@);
    assert("LINK"@ != "VND"@);
    assert("LINK"@ != "ZAR"@);
    assert("LINK"@ != "BTC"@);
    assert("LINK"@ != "ETH"@);
    assert("LINK"@ != "XLM"@);
    assert("LINK"@ != "sUSDC"@);
    assert("LINK"@ != "AVAX"@);
    assert("LINK"@ != "DAI"@);
    assert("LINK"@ != "pDAI"@);
    assert("LINK"@ != "USDC"@);
    assert("LINK"@ != "mUSDC"@);
    assert("LINK"@ != "L-BTC"@);
    assert("LINK"@ != "USDT"@);
    assert("LINK"@ != "BUSD"@);
    assert("LINK"@ != "GUSD"@);
    assert("LINK"@ != "PAX"@);
    assert("LINK"@ != "USDS"@);
    assert("LINK"@ != "AAVE"@);
    assert("LINK"@ != "COMP"@);
}

proof fn lemma_token_reaches_wbtc()
    ensures
        spec_parse_currency(currency_token(Currency::WBTC)) == Currency::WBTC,
{
    reveal_strlit("USD");
    reveal_strlit("EUR");
    reveal_strlit("GBP");
    reveal_strlit("AUD");
    reveal_strlit("CAD");
    reveal_strlit("NZD");
    reveal_strlit("ARS");
    reveal_strlit("BRL");
    reveal_strlit("CHF");
    reveal_strlit("CLP");
    reveal_strlit("COP");
    reveal_strlit("CZK");
    reveal_strlit("DKK");
    reveal_strlit("HKD");
    reveal_strlit("ILS");
    reveal_strlit("INR");
    reveal_strlit("ISK");
    reveal_strlit("JPY");
    reveal_strlit("KRW");
    reveal_strlit("MXN");
    reveal_strlit("MYR");
    reveal_strlit("NOK");
    reveal_strlit("PHP");
    reveal_strlit("PLN");
    reveal_strlit("SEK");
    reveal_strlit("SGD");
    reveal_strlit("THB");
    reveal_strlit("VND");
    reveal_strlit("ZAR");
    reveal_strlit("BTC");
    reveal_strlit("ETH");
    reveal_strlit("XLM");
    reveal_strlit("sUSDC");
    reveal_strlit("AVAX");
    reveal_strlit("DAI");
    reveal_strlit("pDAI");
    reveal_strlit("USDC");
    reveal_strlit("mUSDC");
    reveal_strlit("L-BTC");
    reveal_strlit("USDT");
    reveal_strlit("BUSD");
    reveal_strlit("GUSD");
    reveal_strlit("PAX");
    reveal_strlit("USDS");
    reveal_strlit("AAVE");
    reveal_strlit("COMP");
    reveal_strlit("LINK");
    reveal_strlit("WBTC");
    assert(("WBTC"@).len() != ("USD"@).len());
    assert(("WBTC"@).len() != ("EUR"@).len());
    assert(("WBTC"@).len() != ("GBP"@).len());
    assert(("WBTC"@).len() != ("AUD"@).len());
    assert(("WBTC"@).len() != ("CAD"@).len());
    assert(("WBTC"@).len() != ("NZD"@).len());
    assert(("WBTC"@).len() != ("ARS"@).len());
    assert(("WBTC"@).len() != ("BRL"@).len());
    assert(("WBTC"@).len() != ("CHF"@).len());
    assert(("WBTC"@).len() != ("CLP"@).len());
    assert(("WBTC"@).len() != ("COP"@).len());
    assert(("WBTC"@).len() != ("CZK"@).len());
    assert(("WBTC"@).len() != ("DKK"@).len());
    assert(("WBTC"@).len() != ("HKD"@).len());
    assert(("WBTC"@).len() != ("ILS"@).len());
    assert(("WBTC"@).len() != ("INR"@).len());
    assert(("WBTC"@).len() != ("ISK"@).len());
    assert(("WBTC"@).len() != ("JPY"@).len());
    assert(("WBTC"@).len() != ("KRW"@).len());
    assert(("WBTC"@).len() != ("MXN"@).len());
    assert(("WBTC"@).len() != ("MYR"@).len());
    assert(("WBTC"@).len() != ("NOK"@).len());
    assert(("WBTC"@).len() != ("PHP"@).len());
    assert(("WBTC"@).len() != ("PLN"@).len());
    assert(("WBTC"@).len() != ("SEK"@).len());
    assert(("WBTC"@).len() != ("SGD"@).len());
    assert(("WBTC"@).len() != ("THB"@).len());
    assert(("WBTC"@).len() != ("VND"@).len());
    assert(("WBTC"@).len() != ("ZAR"@).len());
    assert(("WBTC"@).len() != ("BTC"@).len());
    assert(("WBTC"@).len() != ("ETH"@).len());
    assert(("WBTC"@).len() != ("XLM"@).len());
    assert(("WBTC"@).len() != ("sUSDC"@).len());
    assert(("WBTC"@)[0] != ("AVAX"@)[0]);
    assert(("WBTC"@).len() != ("DAI"@).len());
    assert(("WBTC"@)[0] != ("pDAI"@)[0]);
    assert(("WBTC"@)[0] != ("USDC"@)[0]);
    assert(("WBTC"@).len() != ("mUSDC"@).len());
    assert(("WBTC"@).len() != ("L-BTC"@).len());
    assert(("WBTC"@)[0] != ("USDT"@)[0]);
    assert(("WBTC"@)[0] != ("BUSD"@)[0]);
    assert(("WBTC"@)[0] != ("GUSD"@)[0]);
    assert(("WBTC"@).len() != ("PAX"@).len());
    assert(("WBTC"@)[0] != ("USDS"@)[0]);
    assert(("WBTC"@)[0] != ("AAVE"@)[0]);
    assert(("WBTC"@)[0] != ("COMP"@)[0]);
    assert(("WBTC"@)[0] != ("LINK"@)[0]);
    assert("WBTC"@ != "USD"@);
    assert("WBTC"@ != "EUR"@);
    assert("WBTC"@ != "GBP"@);
    assert("WBTC"@ != "AUD"@);
    assert("WBTC"@ != "CAD"@);
    assert("WBTC"@ != "NZD"@);
    assert("WBTC"@ != "ARS"@);
    assert("WBTC"@ != "BRL"@);
    assert("WBTC"@ != "CHF"@);
    assert("WBTC"@ != "CLP"@);
    assert("WBTC"@ != "COP"@);
    assert("WBTC"@ != "CZK"@);
    assert("WBTC"@ != "DKK"@);
    assert("WBTC"@ != "HKD"@);
    assert("WBTC"@ != "ILS"@);
    assert("WBTC"@ != "INR"@);
    assert("WBTC"@ != "ISK"@);
    assert("WBTC"@ != "JPY"@);
    assert("WBTC"@ != "KRW"@);
    assert("WBTC"@ != "MXN"@);
    assert("WBTC"@ != "MYR"@);
    assert("WBTC"@ != "NOK"@);
    assert("WBTC"@ != "PHP"@);
    assert("WBTC"@ != "PLN"@);
    assert("WBTC"@ != "SEK"@);
    assert("WBTC"@ != "SGD"@);
    assert("WBTC"@ != "THB"@);
    assert("WBTC"@ != "VND"@);
    assert("WBTC"@ != "ZAR"@);
    assert("WBTC"@ != "BTC"@);
    assert("WBTC"@ != "ETH"@);
    assert("WBTC"@ != "XLM"@);
    assert("WBTC"@ != "sUSDC"@);
    assert("WBTC"@ != "AVAX"@);
    assert("WBTC"@ != "DAI"@);
    assert("WBTC"@ != "pDAI"@);
    assert("WBTC"@ != "USDC"@);
    assert("WBTC"@ != "mUSDC"@);
    assert("WBTC"@ != "L-BTC"@);
    assert("WBTC"@ != "USDT"@);
    assert("WBTC"@ != "BUSD"@);
    assert("WBTC"@ != "GUSD"@);
    assert("WBTC"@ != "PAX"@);
    assert("WBTC"@ != "USDS"@);
    assert("WBTC"@ != "AAVE"@);
    assert("WBTC"@ != "COMP"@);
    assert("WBTC"@ != "LINK"@);
}

proof fn lemma_token_reaches_bat()
    ensures
        spec_parse_currency(currency_token(Currency::BAT)) == Currency::BAT,
{
    reveal_strlit("USD");
    reveal_strlit("EUR");
    reveal_strlit("GBP");
    reveal_strlit("AUD");
    reveal_strlit("CAD");
    reveal_strlit("NZD");
    reveal_strlit("ARS");
    reveal_strlit("BRL");
    reveal_strlit("CHF");
    reveal_strlit("CLP");
    reveal_strlit("COP");
    reveal_strlit("CZK");
    reveal_strlit("DKK");
    reveal_strlit("HKD");
    reveal_strlit("ILS");
    reveal_strlit("INR");
    reveal_strlit("ISK");
    reveal_strlit("JPY");
    reveal_strlit("KRW");
    reveal_strlit("MXN");
    reveal_strlit("MYR");
    reveal_strlit("NOK");
    reveal_strlit("PHP");
    reveal_strlit("PLN");
    reveal_strlit("SEK");
    reveal_strlit("SGD");
    reveal_strlit("THB");
    reveal_strlit("VND");
    reveal_strlit("ZAR");
    reveal_strlit("BTC");
    reveal_strlit("ETH");
    reveal_strlit("XLM");
    reveal_strlit("sUSDC");
    reveal_strlit("AVAX");
    reveal_strlit("DAI");
    reveal_strlit("pDAI");
    reveal_strlit("USDC");
    reveal_strlit("mUSDC");
    reveal_strlit("L-BTC");
    reveal_strlit("USDT");
    reveal_strlit("BUSD");
    reveal_strlit("GUSD");
    reveal_strlit("PAX");
    reveal_strlit("USDS");
    reveal_strlit("AAVE");
    reveal_strlit("COMP");
    reveal_strlit("LINK");
    reveal_strlit("WBTC");
    reveal_strlit("BAT");
    assert(("BAT"@)[0] != ("USD"@)[0]);
    assert(("BAT"@)[0] != ("EUR"@)[0]);
    assert(("BAT"@)[0] != ("GBP"@)[0]);
    assert(("BAT"@)[0] != ("AUD"@)[0]);
    assert(("BAT"@)[0] != ("CAD"@)[0]);
    assert(("BAT"@)[0] != ("NZD"@)[0]);
    assert(("BAT"@)[0] != ("ARS"@)[0]);
    assert(("BAT"@)[1] != ("BRL"@)[1]);
    assert(("BAT"@)[0] != ("CHF"@)[0]);
    assert(("BAT"@)[0] != ("CLP"@)[0]);
    assert(("BAT"@)[0] != ("COP"@)[0]);
    assert(("BAT"@)[0] != ("CZK"@)[0]);
    assert(("BAT"@)[0] != ("DKK"@)[0]);
    assert(("BAT"@)[0] != ("HKD"@)[0]);
    assert(("BAT"@)[0] != ("ILS"@)[0]);
    assert(("BAT"@)[0] != ("INR"@)[0]);
    assert(("BAT"@)[0] != ("ISK"@)[0]);
    assert(("BAT"@)[0] != ("JPY"@)[0]);
    assert(("BAT"@)[0] != ("KRW"@)[0]);
    assert(("BAT"@)[0] != ("MXN"@)[0]);
    assert(("BAT"@)[0] != ("MYR"@)[0]);
    assert(("BAT"@)[0] != ("NOK"@)[0]);
    assert(("BAT"@)[0] != ("PHP"@)[0]);
    assert(("BAT"@)[0] != ("PLN"@)[0]);
    assert(("BAT"@)[0] != ("SEK"@)[0]);
    assert(("BAT"@)[0] != ("SGD"@)[0]);
    assert(("BAT"@)[0] != ("THB"@)[0]);
    assert(("BAT"@)[0] != ("VND"@)[0]);
    assert(("BAT"@)[0] != ("ZAR"@)[0]);
    assert(("BAT"@)[1] != ("BTC"@)[1]);
    assert(("BAT"@)[0] != ("ETH"@)[0]);
    assert(("BAT"@)[0] != ("XLM"@)[0]);
    assert(("BAT"@).len() != ("sUSDC"@).len());
    assert(("BAT"@).len() != ("AVAX"@).len());
    assert(("BAT"@)[0] != ("DAI"@)[0]);
    assert(("BAT"@).len() != ("pDAI"@).len());
    assert(("BAT"@).len() != ("USDC"@).len());
    assert(("BAT"@).len() != ("mUSDC"@).len());
    assert(("BAT"@).len() != ("L-BTC"@).len());
    assert(("BAT"@).len() != ("USDT"@).len());
    assert(("BAT"@).len() != ("BUSD"@).len());
    assert(("BAT"@).len() != ("GUSD"@).len());
    assert(("BAT"@)[0] != ("PAX"@)[0]);
    assert(("BAT"@).len() != ("USDS"@).len());
    assert(("BAT"@).len() != ("AAVE"@).len());
    assert(("BAT"@).len() != ("COMP"@).len());
    assert(("BAT"@).len() != ("LINK"@).len());
    assert(("BAT"@).len() != ("WBTC"@).len());
    assert("BAT"@ != "USD"@);
    assert("BAT"@ != "EUR"@);
    assert("BAT"@ != "GBP"@);
    assert("BAT"@ != "AUD"@);
    assert("BAT"@ != "CAD"@);
    assert("BAT"@ != "NZD"@);
    assert("BAT"@ != "ARS"@);
    assert("BAT"@ != "BRL"@);
    assert("BAT"@ != "CHF"@);
    assert("BAT"@ != "CLP"@);
    assert("BAT"@ != "COP"@);
    assert("BAT"@ != "CZK"@);
    assert("BAT"@ != "DKK"@);
    assert("BAT"@ != "HKD"@);
    assert("BAT"@ != "ILS"@);
    assert("BAT"@ != "INR"@);
    assert("BAT"@ != "ISK"@);
    assert("BAT"@ != "JPY"@);
    assert("BAT"@ != "KRW"@);
    assert("BAT"@ != "MXN"@);
    assert("BAT"@ != "MYR"@);
    assert("BAT"@ != "NOK"@);
    assert("BAT"@ != "PHP"@);
    assert("BAT"@ != "PLN"@);
    assert("BAT"@ != "SEK"@);
    assert("BAT"@ != "SGD"@);
    assert("BAT"@ != "THB"@);
    assert("BAT"@ != "VND"@);
    assert("BAT"@ != "ZAR"@);
    assert("BAT"@ != "BTC"@);
    assert("BAT"@ != "ETH"@);
    assert("BAT"@ != "XLM"@);
    assert("BAT"@ != "sUSDC"@);
    assert("BAT"@ != "AVAX"@);
    assert("BAT"@ != "DAI"@);
    assert("BAT"@ != "pDAI"@);
    assert("BAT"@ != "USDC"@);
    assert("BAT"@ != "mUSDC"@);
    assert("BAT"@ != "L-BTC"@);
    assert("BAT"@ != "USDT"@);
    assert("BAT"@ != "BUSD"@);
    assert("BAT"@ != "GUSD"@);
    assert("BAT"@ != "PAX"@);
    assert("BAT"@ != "USDS"@);
    assert("BAT"@ != "AAVE"@);
    assert("BAT"@ != "COMP"@);
    assert("BAT"@ != "LINK"@);
    assert("BAT"@ != "WBTC"@);
}

proof fn lemma_token_reaches_crv()
    ensures
        spec_parse_currency(currency_token(Currency::CRV)) == Currency::CRV,
{
    reveal_strlit("USD");
    reveal_strlit("EUR");
    reveal_strlit("GBP");
    reveal_strlit("AUD");
    reveal_strlit("CAD");
    reveal_strlit("NZD");
    reveal_strlit("ARS");
    reveal_strlit("BRL");
    reveal_strlit("CHF");
    reveal_strlit("CLP");
    reveal_strlit("COP");
    reveal_strlit("CZK");
    reveal_strlit("DKK");
    reveal_strlit("HKD");
    reveal_strlit("ILS");
    reveal_strlit("INR");
    reveal_strlit("ISK");
    reveal_strlit("JPY");
    reveal_strlit("KRW");
    reveal_strlit("MXN");
    reveal_strlit("MYR");
    reveal_strlit("NOK");
    reveal_strlit("PHP");
    reveal_strlit("PLN");
    reveal_strlit("SEK");
    reveal_strlit("SGD");
    reveal_strlit("THB");
    reveal_strlit("VND");
    reveal_strlit("ZAR");
    reveal_strlit("BTC");
    reveal_strlit("ETH");
    reveal_strlit("XLM");
    reveal_strlit("sUSDC");
    reveal_strlit("AVAX");
    reveal_strlit("DAI");
    reveal_strlit("pDAI");
    reveal_strlit("USDC");
    reveal_strlit("mUSDC");
    reveal_strlit("L-BTC");
    reveal_strlit("USDT");
    reveal_strlit("BUSD");
    reveal_strlit("GUSD");
    reveal_strlit("PAX");
    reveal_strlit("USDS");
    reveal_strlit("AAVE");
    reveal_strlit("COMP");
    reveal_strlit("LINK");
    reveal_strlit("WBTC");
    reveal_strlit("BAT");
    reveal_strlit("CRV");
    assert(("CRV"@)[0] != ("USD"@)[0]);
    assert(("CRV"@)[0] != ("EUR"@)[0]);
    assert(("CRV"@)[0] != ("GBP"@)[0]);
    assert(("CRV"@)[0] != ("AUD"@)[0]);
    assert(("CRV"@)[1] != ("CAD"@)[1]);
    assert(("CRV"@)[0] != ("NZD"@)[0]);
    assert(("CRV"@)[0] != ("ARS"@)[0]);
    assert(("CRV"@)[0] != ("BRL"@)[0]);
    assert(("CRV"@)[1] != ("CHF"@)[1]);
    assert(("CRV"@)[1] != ("CLP"@)[1]);
    assert(("CRV"@)[1] != ("COP"@)[1]);
    assert(("CRV"@)[1] != ("CZK"@)[1]);
    assert(("CRV"@)[0] != ("DKK"@)[0]);
    assert(("CRV"@)[0] != ("HKD"@)[0]);
    assert(("CRV"@)[0] != ("ILS"@)[0]);
    assert(("CRV"@)[0] != ("INR"@)[0]);
    assert(("CRV"@)[0] != ("ISK"@)[0]);
    assert(("CRV"@)[0] != ("JPY"@)[0]);
    assert(("CRV"@)[0] != ("KRW"@)[0]);
    assert(("CRV"@)[0] != ("MXN"@)[0]);
    assert(("CRV"@)[0] != ("MYR"@)[0]);
    assert(("CRV"@)[0] != ("NOK"@)[0]);
    assert(("CRV"@)[0] != ("PHP"@)[0]);
    assert(("CRV"@)[0] != ("PLN"@)[0]);
    assert(("CRV"@)[0] != ("SEK"@)[0]);
    assert(("CRV"@)[0] != ("SGD"@)[0]);
    assert(("CRV"@)[0] != ("THB"@)[0]);
    assert(("CRV"@)[0] != ("VND"@)[0]);
    assert(("CRV"@)[0] != ("ZAR"@)[0]);
    assert(("CRV"@)[0] != ("BTC"@)[0]);
    assert(("CRV"@)[0] != ("ETH"@)[0]);
    assert(("CRV"@)[0] != ("XLM"@)[0]);
    assert(("CRV"@).len() != ("sUSDC"@).len());
    assert(("CRV"@).len() != ("AVAX"@).len());
    assert(("CRV"@)[0] != ("DAI"@)[0]);
    assert(("CRV"@).len() != ("pDAI"@).len());
    assert(("CRV"@).len() != ("USDC"@).len());
    assert(("CRV"@).len() != ("mUSDC"@).len());
    assert(("CRV"@).len() != ("L-BTC"@).len());
    assert(("CRV"@).len() != ("USDT"@).len());
    assert(("CRV"@).len() != ("BUSD"@).len());
    assert(("CRV"@).len() != ("GUSD"@).len());
    assert(("CRV"@)[0] != ("PAX"@)[0]);
    assert(("CRV"@).len() != ("USDS"@).len());
    assert(("CRV"@).len() != ("AAVE"@).len());
    assert(("CRV"@).len() != ("COMP"@).len());
    assert(("CRV"@).len() != ("LINK"@).len());
    assert(("CRV"@).len() != ("WBTC"@).len());
    assert(("CRV"@)[0] != ("BAT"@)[0]);
    assert("CRV"@ != "USD"@);
    assert("CRV"@ != "EUR"@);
    assert("CRV"@ != "GBP"@);
    assert("CRV"@ != "AUD"@);
    assert("CRV"@ != "CAD"@);
    assert("CRV"@ != "NZD"@);
    assert("CRV"@ != "ARS"@);
    assert("CRV"@ != "BRL"@);
    assert("CRV"@ != "CHF"@);
    assert("CRV"@ != "CLP"@);
    assert("CRV"@ != "COP"@);
    assert("CRV"@ != "CZK"@);
    assert("CRV"@ != "DKK"@);
    assert("CRV"@ != "HKD"@);
    assert("CRV"@ != "ILS"@);
    assert("CRV"@ != "INR"@);
    assert("CRV"@ != "ISK"@);
    assert("CRV"@ != "JPY"@);
    assert("CRV"@ != "KRW"@);
    assert("CRV"@ != "MXN"@);
    assert("CRV"@ != "MYR"@);
    assert("CRV"@ != "NOK"@);
    assert("CRV"@ != "PHP"@);
    assert("CRV"@ != "PLN"@);
    assert("CRV"@ != "SEK"@);
    assert("CRV"@ != "SGD"@);
    assert("CRV"@ != "THB"@);
    assert("CRV"@ != "VND"@);
    assert("CRV"@ != "ZAR"@);
    assert("CRV"@ != "BTC"@);
    assert("CRV"@ != "ETH"@);
    assert("CRV"@ != "XLM"@);
    assert("CRV"@ != "sUSDC"@);
    assert("CRV"@ != "AVAX"@);
    assert("CRV"@ != "DAI"@);
    assert("CRV"@ != "pDAI"@);
    assert("CRV"@ != "USDC"@);
    assert("CRV"@ != "mUSDC"@);
    assert("CRV"@ != "L-BTC"@);
    assert("CRV"@ != "USDT"@);
    assert("CRV"@ != "BUSD"@);
    assert("CRV"@ != "GUSD"@);
    assert("CRV"@ != "PAX"@);
    assert("CRV"@ != "USDS"@);
    assert("CRV"@ != "AAVE"@);
    assert("CRV"@ != "COMP"@);
    assert("CRV"@ != "LINK"@);
    assert("CRV"@ != "WBTC"@);
    assert("CRV"@ != "BAT"@);
}

proof fn lemma_token_reaches_mkr()
    ensures
        spec_parse_currency(currency_token(Currency::MKR)) == Currency::MKR,
{
    reveal_strlit("USD");
    reveal_strlit("EUR");
    reveal_strlit("GBP");
    reveal_strlit("AUD");
    reveal_strlit("CAD");
    reveal_strlit("NZD");
    reveal_strlit("ARS");
    reveal_strlit("BRL");
    reveal_strlit("CHF");
    reveal_strlit("CLP");
    reveal_strlit("COP");
    reveal_strlit("CZK");
    reveal_strlit("DKK");
    reveal_strlit("HKD");
    reveal_strlit("ILS");
    reveal_strlit("INR");
    reveal_strlit("ISK");
    reveal_strlit("JPY");
    reveal_strlit("KRW");
    reveal_strlit("MXN");
    reveal_strlit("MYR");
    reveal_strlit("NOK");
    reveal_strlit("PHP");
    reveal_strlit("PLN");
    reveal_strlit("SEK");
    reveal_strlit("SGD");
    reveal_strlit("THB");
    reveal_strlit("VND");
    reveal_strlit("ZAR");
    reveal_strlit("BTC");
    reveal_strlit("ETH");
    reveal_strlit("XLM");
    reveal_strlit("sUSDC");
    reveal_strlit("AVAX");
    reveal_strlit("DAI");
    reveal_strlit("pDAI");
    reveal_strlit("USDC");
    reveal_strlit("mUSDC");
    reveal_strlit("L-BTC");
    reveal_strlit("USDT");
    reveal_strlit("BUSD");
    reveal_strlit("GUSD");
    reveal_strlit("PAX");
    reveal_strlit("USDS");
    reveal_strlit("AAVE");
    reveal_strlit("COMP");
    reveal_strlit("LINK");
    reveal_strlit("WBTC");
    reveal_strlit("BAT");
    reveal_strlit("CRV");
    reveal_strlit("MKR");
    assert(("MKR"@)[0] != ("USD"@)[0]);
    assert(("MKR"@)[0] != ("EUR"@)[0]);
    assert(("MKR"@)[0] != ("GBP"@)[0]);
    assert(("MKR"@)[0] != ("AUD"@)[0]);
    assert(("MKR"@)[0] != ("CAD"@)[0]);
    assert(("MKR"@)[0] != ("NZD"@)[0]);
    assert(("MKR"@)[0] != ("ARS"@)[0]);
    assert(("MKR"@)[0] != ("BRL"@)[0]);
    assert(("MKR"@)[0] != ("CHF"@)[0]);
    assert(("MKR"@)[0] != ("CLP"@)[0]);
    assert(("MKR"@)[0] != ("COP"@)[0]);
    assert(("MKR"@)[0] != ("CZK"@)[0]);
    assert(("MKR"@)[0] != ("DKK"@)[0]);
    assert(("MKR"@)[0] != ("HKD"@)[0]);
    assert(("MKR"@)[0] != ("ILS"@)[0]);
    assert(("MKR"@)[0] != ("INR"@)[0]);
    assert(("MKR"@)[0] != ("ISK"@)[0]);
    assert(("MKR"@)[0] != ("JPY"@)[0]);
    assert(("MKR"@)[0] != ("KRW"@)[0]);
    assert(("MKR"@)[1] != ("MXN"@)[1]);
    assert(("MKR"@)[1] != ("MYR"@)[1]);
    assert(("MKR"@)[0] != ("NOK"@)[0]);
    assert(("MKR"@)[0] != ("PHP"@)[0]);
    assert(("MKR"@)[0] != ("PLN"@)[0]);
    assert(("MKR"@)[0] != ("SEK"@)[0]);
    assert(("MKR"@)[0] != ("SGD"@)[0]);
    assert(("MKR"@)[0] != ("THB"@)[0]);
    assert(("MKR"@)[0] != ("VND"@)[0]);
    assert(("MKR"@)[0] != ("ZAR"@)[0]);
    assert(("MKR"@)[0] != ("BTC"@)[0]);
    assert(("MKR"@)[0] != ("ETH"@)[0]);
    assert(("MKR"@)[0] != ("XLM"@)[0]);
    assert(("MKR"@).len() != ("sUSDC"@).len());
    assert(("MKR"@).len() != ("AVAX"@).len());
    assert(("MKR"@)[0] != ("DAI"@)[0]);
    assert(("MKR"@).len() != ("pDAI"@).len());
    assert(("MKR"@).len() != ("USDC"@).len());
    assert(("MKR"@).len() != ("mUSDC"@).len());
    assert(("MKR"@).len() != ("L-BTC"@).len());
    assert(("MKR"@).len() != ("USDT"@).len());
    assert(("MKR"@).len() != ("BUSD"@).len());
    assert(("MKR"@).len() != ("GUSD"@).len());
    assert(("MKR"@)[0] != ("PAX"@)[0]);
    assert(("MKR"@).len() != ("USDS"@).len());
    assert(("MKR"@).len() != ("AAVE"@).len());
    assert(("MKR"@).len() != ("COMP"@).len());
    assert(("MKR"@).len() != ("LINK"@).len());
    assert(("MKR"@).len() != ("WBTC"@).len());
    assert(("MKR"@)[0] != ("BAT"@)[0]);
    assert(("MKR"@)[0] != ("CRV"@)[0]);
    assert("MKR"@ != "USD"@);
    assert("MKR"@ != "EUR"@);
    assert("MKR"@ != "GBP"@);
    assert("MKR"@ != "AUD"@);
    assert("MKR"@ != "CAD"@);
    assert("MKR"@ != "NZD"@);
    assert("MKR"@ != "ARS"@);
    assert("MKR"@ != "BRL"@);
    assert("MKR"@ != "CHF"@);
    assert("MKR"@ != "CLP"@);
    assert("MKR"@ != "COP"@);
    assert("MKR"@ != "CZK"@);
    assert("MKR"@ != "DKK"@);
    assert("MKR"@ != "HKD"@);
    assert("MKR"@ != "ILS"@);
    assert("MKR"@ != "INR"@);
    assert("MKR"@ != "ISK"@);
    assert("MKR"@ != "JPY"@);
    assert("MKR"@ != "KRW"@);
    assert("MKR"@ != "MXN"@);
    assert("MKR"@ != "MYR"@);
    assert("MKR"@ != "NOK"@);
    assert("MKR"@ != "PHP"@);
    assert("MKR"@ != "PLN"@);
    assert("MKR"@ != "SEK"@);
    assert("MKR"@ != "SGD"@);
    assert("MKR"@ != "THB"@);
    assert("MKR"@ != "VND"@);
    assert("MKR"@ != "ZAR"@);
    assert("MKR"@ != "BTC"@);
    assert("MKR"@ != "ETH"@);
    assert("MKR"@ != "XLM"@);
    assert("MKR"@ != "sUSDC"@);
    assert("MKR"@ != "AVAX"@);
    assert("MKR"@ != "DAI"@);
    assert("MKR"@ != "pDAI"@);
    assert("MKR"@ != "USDC"@);
    assert("MKR"@ != "mUSDC"@);
    assert("MKR"@ != "L-BTC"@);
    assert("MKR"@ != "USDT"@);
    assert("MKR"@ != "BUSD"@);
    assert("MKR"@ != "GUSD"@);
    assert("MKR"@ != "PAX"@);
    assert("MKR"@ != "USDS"@);
    assert("MKR"@ != "AAVE"@);
    assert("MKR"@ != "COMP"@);
    assert("MKR"@ != "LINK"@);
    assert("MKR"@ != "WBTC"@);
    assert("MKR"@ != "BAT"@);
    assert("MKR"@ != "CRV"@);
}

proof fn lemma_token_reaches_snx()
    ensures
        spec_parse_currency(currency_token(Currency::SNX)) == Currency::SNX,
{
    reveal_strlit("USD");
    reveal_strlit("EUR");
    reveal_strlit("GBP");
    reveal_strlit("AUD");
    reveal_strlit("CAD");
    reveal_strlit("NZD");
    reveal_strlit("ARS");
    reveal_strlit("BRL");
    reveal_strlit("CHF");
    reveal_strlit("CLP");
    reveal_strlit("COP");
    reveal_strlit("CZK");
    reveal_strlit("DKK");
    reveal_strlit("HKD");
    reveal_strlit("ILS");
    reveal_strlit("INR");
    reveal_strlit("ISK");
    reveal_strlit("JPY");
    reveal_strlit("KRW");
    reveal_strlit("MXN");
    reveal_strlit("MYR");
    reveal_strlit("NOK");
    reveal_strlit("PHP");
    reveal_strlit("PLN");
    reveal_strlit("SEK");
    reveal_strlit("SGD");
    reveal_strlit("THB");
    reveal_strlit("VND");
    reveal_strlit("ZAR");
    reveal_strlit("BTC");
    reveal_strlit("ETH");
    reveal_strlit("XLM");
    reveal_strlit("sUSDC");
    reveal_strlit("AVAX");
    reveal_strlit("DAI");
    reveal_strlit("pDAI");
    reveal_strlit("USDC");
    reveal_strlit("mUSDC");
    reveal_strlit("L-BTC");
    reveal_strlit("USDT");
    reveal_strlit("BUSD");
    reveal_strlit("GUSD");
    reveal_strlit("PAX");
    reveal_strlit("USDS");
    reveal_strlit("AAVE");
    reveal_strlit("COMP");
    reveal_strlit("LINK");
    reveal_strlit("WBTC");
    reveal_strlit("BAT");
    reveal_strlit("CRV");
    reveal_strlit("MKR");
    reveal_strlit("SNX");
    assert(("SNX"@)[0] != ("USD"@)[0]);
    assert(("SNX"@)[0] != ("EUR"@)[0]);
    assert(("SNX"@)[0] != ("GBP"@)[0]);
    assert(("SNX"@)[0] != ("AUD"@)[0]);
    assert(("SNX"@)[0] != ("CAD"@)[0]);
    assert(("SNX"@)[0] != ("NZD"@)[0]);
    assert(("SNX"@)[0] != ("ARS"@)[0]);
    assert(("SNX"@)[0] != ("BRL"@)[0]);
    assert(("SNX"@)[0] != ("CHF"@)[0]);
    assert(("SNX"@)[0] != ("CLP"@)[0]);
    assert(("SNX"@)[0] != ("COP"@)[0]);
    assert(("SNX"@)[0] != ("CZK"@)[0]);
    assert(("SNX"@)[0] != ("DKK"@)[0]);
    assert(("SNX"@)[0] != ("HKD"@)[0]);
    assert(("SNX"@)[0] != ("ILS"@)[0]);
    assert(("SNX"@)[0] != ("INR"@)[0]);
    assert(("SNX"@)[0] != ("ISK"@)[0]);
    assert(("SNX"@)[0] != ("JPY"@)[0]);
    assert(("SNX"@)[0] != ("KRW"@)[0]);
    assert(("SNX"@)[0] != ("MXN"@)[0]);
    assert(("SNX"@)[0] != ("MYR"@)[0]);
    assert(("SNX"@)[0] != ("NOK"@)[0]);
    assert(("SNX"@)[0] != ("PHP"@)[0]);
    assert(("SNX"@)[0] != ("PLN"@)[0]);
    assert(("SNX"@)[1] != ("SEK"@)[1]);
    assert(("SNX"@)[1] != ("SGD"@)[1]);
    assert(("SNX"@)[0] != ("THB"@)[0]);
    assert(("SNX"@)[0] != ("VND"@)[0]);
    assert(("SNX"@)[0] != ("ZAR"@)[0]);
    assert(("SNX"@)[0] != ("BTC"@)[0]);
    assert(("SNX"@)[0] != ("ETH"@)[0]);
    assert(("SNX"@)[0] != ("XLM"@)[0]);
    assert(("SNX"@).len() != ("sUSDC"@).len());
    assert(("SNX"@).len() != ("AVAX"@).len());
    assert(("SNX"@)[0] != ("DAI"@)[0]);
    assert(("SNX"@).len() != ("pDAI"@).len());
    assert(("SNX"@).len() != ("USDC"@).len());
    assert(("SNX"@).len() != ("mUSDC"@).len());
    assert(("SNX"@).len() != ("L-BTC"@).len());
    assert(("SNX"@).len() != ("USDT"@).len());
    assert(("SNX"@).len() != ("BUSD"@).len());
    assert(("SNX"@).len() != ("GUSD"@).len());
    assert(("SNX"@)[0] != ("PAX"@)[0]);
    assert(("SNX"@).len() != ("USDS"@).len());
    assert(("SNX"@).len() != ("AAVE"@).len());
    assert(("SNX"@).len() != ("COMP"@).len());
    assert(("SNX"@).len() != ("LINK"@).len());
    assert(("SNX"@).len() != ("WBTC"@).len());
    assert(("SNX"@)[0] != ("BAT"@)[0]);
    assert(("SNX"@)[0] != ("CRV"@)[0]);
    assert(("SNX"@)[0] != ("MKR"@)[0]);
    assert("SNX"@ != "USD"@);
    assert("SNX"@ != "EUR"@);
    assert("SNX"@ != "GBP"@);
    assert("SNX"@ != "AUD"@);
    assert("SNX"@ != "CAD"@);
    assert("SNX"@ != "NZD"@);
    assert("SNX"@ != "ARS"@);
    assert("SNX"@ != "BRL"@);
    assert("SNX"@ != "CHF"@);
    assert("SNX"@ != "CLP"@);
    assert("SNX"@ != "COP"@);
    assert("SNX"@ != "CZK"@);
    assert("SNX"@ != "DKK"@);
    assert("SNX"@ != "HKD"@);
    assert("SNX"@ != "ILS"@);
    assert("SNX"@ != "INR"@);
    assert("SNX"@ != "ISK"@);
    assert("SNX"@ != "JPY"@);
    assert("SNX"@ != "KRW"@);
    assert("SNX"@ != "MXN"@);
    assert("SNX"@ != "MYR"@);
    assert("SNX"@ != "NOK"@);
    assert("SNX"@ != "PHP"@);
    assert("SNX"@ != "PLN"@);
    assert("SNX"@ != "SEK"@);
    assert("SNX"@ != "SGD"@);
    assert("SNX"@ != "THB"@);
    assert("SNX"@ != "VND"@);
    assert("SNX"@ != "ZAR"@);
    assert("SNX"@ != "BTC"@);
    assert("SNX"@ != "ETH"@);
    assert("SNX"@ != "XLM"@);
    assert("SNX"@ != "sUSDC"@);
    assert("SNX"@ != "AVAX"@);
    assert("SNX"@ != "DAI"@);
    assert("SNX"@ != "pDAI"@);
    assert("SNX"@ != "USDC"@);
    assert("SNX"@ != "mUSDC"@);
    assert("SNX"@ != "L-BTC"@);
    assert("SNX"@ != "USDT"@);
    assert("SNX"@ != "BUSD"@);
    assert("SNX"@ != "GUSD"@);
    assert("SNX"@ != "PAX"@);
    assert("SNX"@ != "USDS"@);
    assert("SNX"@ != "AAVE"@);
    assert("SNX"@ != "COMP"@);
    assert("SNX"@ != "LINK"@);
    assert("SNX"@ != "WBTC"@);
    assert("SNX"@ != "BAT"@);
    assert("SNX"@ != "CRV"@);
    assert("SNX"@ != "MKR"@);
}

proof fn lemma_token_reaches_uma()
    ensures
        spec_parse_currency(currency_token(Currency::UMA)) == Currency::UMA,
{
    reveal_strlit("USD");
    reveal_strlit("EUR");
    reveal_strlit("GBP");
    reveal_strlit("AUD");
    reveal_strlit("CAD");
    reveal_strlit("NZD");
    reveal_strlit("ARS");
    reveal_strlit("BRL");
    reveal_strlit("CHF");
    reveal_strlit("CLP");
    reveal_strlit("COP");
    reveal_strlit("CZK");
    reveal_strlit("DKK");
    reveal_strlit("HKD");
    reveal_strlit("ILS");
    reveal_strlit("INR");
    reveal_strlit("ISK");
    reveal_strlit("JPY");
    reveal_strlit("KRW");
    reveal_strlit("MXN");
    reveal_strlit("MYR");
    reveal_strlit("NOK");
    reveal_strlit("PHP");
    reveal_strlit("PLN");
    reveal_strlit("SEK");
    reveal_strlit("SGD");
    reveal_strlit("THB");
    reveal_strlit("VND");
    reveal_strlit("ZAR");
    reveal_strlit("BTC");
    reveal_strlit("ETH");
    reveal_strlit("XLM");
    reveal_strlit("sUSDC");
    reveal_strlit("AVAX");
    reveal_strlit("DAI");
    reveal_strlit("pDAI");
    reveal_strlit("USDC");
    reveal_strlit("mUSDC");
    reveal_strlit("L-BTC");
    reveal_strlit("USDT");
    reveal_strlit("BUSD");
    reveal_strlit("GUSD");
    reveal_strlit("PAX");
    reveal_strlit("USDS");
    reveal_strlit("AAVE");
    reveal_strlit("COMP");
    reveal_strlit("LINK");
    reveal_strlit("WBTC");
    reveal_strlit("BAT");
    reveal_strlit("CRV");
    reveal_strlit("MKR");
    reveal_strlit("SNX");
    reveal_strlit("UMA");
    assert(("UMA"@)[1] != ("USD"@)[1]);
    assert(("UMA"@)[0] != ("EUR"@)[0]);
    assert(("UMA"@)[0] != ("GBP"@)[0]);
    assert(("UMA"@)[0] != ("AUD"@)[0]);
    assert(("UMA"@)[0] != ("CAD"@)[0]);
    assert(("UMA"@)[0] != ("NZD"@)[0]);
    assert(("UMA"@)[0] != ("ARS"@)[0]);
    assert(("UMA"@)[0] != ("BRL"@)[0]);
    assert(("UMA"@)[0] != ("CHF"@)[0]);
    assert(("UMA"@)[0] != ("CLP"@)[0]);
    assert(("UMA"@)[0] != ("COP"@)[0]);
    assert(("UMA"@)[0] != ("CZK"@)[0]);
    assert(("UMA"@)[0] != ("DKK"@)[0]);
    assert(("UMA"@)[0] != ("HKD"@)[0]);
    assert(("UMA"@)[0] != ("ILS"@)[0]);
    assert(("UMA"@)[0] != ("INR"@)[0]);
    assert(("UMA"@)[0] != ("ISK"@)[0]);
    assert(("UMA"@)[0] != ("JPY"@)[0]);
    assert(("UMA"@)[0] != ("KRW"@)[0]);
    assert(("UMA"@)[0] != ("MXN"@)[0]);
    assert(("UMA"@)[0] != ("MYR"@)[0]);
    assert(("UMA"@)[0] != ("NOK"@)[0]);
    assert(("UMA"@)[0] != ("PHP"@)[0]);
    assert(("UMA"@)[0] != ("PLN"@)[0]);
    assert(("UMA"@)[0] != ("SEK"@)[0]);
    assert(("UMA"@)[0] != ("SGD"@)[0]);
    assert(("UMA"@)[0] != ("THB"@)[0]);
    assert(("UMA"@)[0] != ("VND"@)[0]);
    assert(("UMA"@)[0] != ("ZAR"@)[0]);
    assert(("UMA"@)[0] != ("BTC"@)[0]);
    assert(("UMA"@)[0] != ("ETH"@)[0]);
    assert(("UMA"@)[0] != ("XLM"@)[0]);
    assert(("UMA"@).len() != ("sUSDC"@).len());
    assert(("UMA"@).len() != ("AVAX"@).len());
    assert(("UMA"@)[0] != ("DAI"@)[0]);
    assert(("UMA"@).len() != ("pDAI"@).len());
    assert(("UMA"@).len() != ("USDC"@).len());
    assert(("UMA"@).len() != ("mUSDC"@).len());
    assert(("UMA"@).len() != ("L-BTC"@).len());
    assert(("UMA"@).len() != ("USDT"@).len());
    assert(("UMA"@).len() != ("BUSD"@).len());
    assert(("UMA"@).len() != ("GUSD"@).len());
    assert(("UMA"@)[0] != ("PAX"@)[0]);
    assert(("UMA"@).len() != ("USDS"@).len());
    assert(("UMA"@).len() != ("AAVE"@).len());
    assert(("UMA"@).len() != ("COMP"@).len());
    assert(("UMA"@).len() != ("LINK"@).len());
    assert(("UMA"@).len() != ("WBTC"@).len());
    assert(("UMA"@)[0] != ("BAT"@)[0]);
    assert(("UMA"@)[0] != ("CRV"@)[0]);
    assert(("UMA"@)[0] != ("MKR"@)[0]);
    assert(("UMA"@)[0] != ("SNX"@)[0]);
    assert("UMA"@ != "USD"@);
    assert("UMA"@ != "EUR"@);
    assert("UMA"@ != "GBP"@);
    assert("UMA"@ != "AUD"@);
    assert("UMA"@ != "CAD"@);
    assert("UMA"@ != "NZD"@);
    assert("UMA"@ != "ARS"@);
    assert("UMA"@ != "BRL"@);
    assert("UMA"@ != "CHF"@);
    assert("UMA"@ != "CLP"@);
    assert("UMA"@ != "COP"@);
    assert("UMA"@ != "CZK"@);
    assert("UMA"@ != "DKK"@);
    assert("UMA"@ != "HKD"@);
    assert("UMA"@ != "ILS"@);
    assert("UMA"@ != "INR"@);
    assert("UMA"@ != "ISK"@);
    assert("UMA"@ != "JPY"@);
    assert("UMA"@ != "KRW"@);
    assert("UMA"@ != "MXN"@);
    assert("UMA"@ != "MYR"@);
    assert("UMA"@ != "NOK"@);
    assert("UMA"@ != "PHP"@);
    assert("UMA"@ != "PLN"@);
    assert("UMA"@ != "SEK"@);
    assert("UMA"@ != "SGD"@);
    assert("UMA"@ != "THB"@);
    assert("UMA"@ != "VND"@);
    assert("UMA"@ != "ZAR"@);
    assert("UMA"@ != "BTC"@);
    assert("UMA"@ != "ETH"@);
    assert("UMA"@ != "XLM"@);
    assert("UMA"@ != "sUSDC"@);
    assert("UMA"@ != "AVAX"@);
    assert("UMA"@ != "DAI"@);
    assert("UMA"@ != "pDAI"@);
    assert("UMA"@ != "USDC"@);
    assert("UMA"@ != "mUSDC"@);
    assert("UMA"@ != "L-BTC"@);
    assert("UMA"@ != "USDT"@);
    assert("UMA"@ != "BUSD"@);
    assert("UMA"@ != "GUSD"@);
    assert("UMA"@ != "PAX"@);
    assert("UMA"@ != "USDS"@);
    assert("UMA"@ != "AAVE"@);
    assert("UMA"@ != "COMP"@);
    assert("UMA"@ != "LINK"@);
    assert("UMA"@ != "WBTC"@);
    assert("UMA"@ != "BAT"@);
    assert("UMA"@ != "CRV"@);
    assert("UMA"@ != "MKR"@);
    assert("UMA"@ != "SNX"@);
}

proof fn lemma_token_reaches_uni()
    ensures
        spec_parse_currency(currency_token(Currency::UNI)) == Currency::UNI,
{
    reveal_strlit("USD");
    reveal_strlit("EUR");
    reveal_strlit("GBP");
    reveal_strlit("AUD");
    reveal_strlit("CAD");
    reveal_strlit("NZD");
    reveal_strlit("ARS");
    reveal_strlit("BRL");
    reveal_strlit("CHF");
    reveal_strlit("CLP");
    reveal_strlit("COP");
    reveal_strlit("CZK");
    reveal_strlit("DKK");
    reveal_strlit("HKD");
    reveal_strlit("ILS");
    reveal_strlit("INR");
    reveal_strlit("ISK");
    reveal_strlit("JPY");
    reveal_strlit("KRW");
    reveal_strlit("MXN");
    reveal_strlit("MYR");
    reveal_strlit("NOK");
    reveal_strlit("PHP");
    reveal_strlit("PLN");
    reveal_strlit("SEK");
    reveal_strlit("SGD");
    reveal_strlit("THB");
    reveal_strlit("VND");
    reveal_strlit("ZAR");
    reveal_strlit("BTC");
    reveal_strlit("ETH");
    reveal_strlit("XLM");
    reveal_strlit("sUSDC");
    reveal_strlit("AVAX");
    reveal_strlit("DAI");
    reveal_strlit("pDAI");
    reveal_strlit("USDC");
    reveal_strlit("mUSDC");
    reveal_strlit("L-BTC");
    reveal_strlit("USDT");
    reveal_strlit("BUSD");
    reveal_strlit("GUSD");
    reveal_strlit("PAX");
    reveal_strlit("USDS");
    reveal_strlit("AAVE");
    reveal_strlit("COMP");
    reveal_strlit("LINK");
    reveal_strlit("WBTC");
    reveal_strlit("BAT");
    reveal_strlit("CRV");
    reveal_strlit("MKR");
    reveal_strlit("SNX");
    reveal_strlit("UMA");
    reveal_strlit("UNI");
    assert(("UNI"@)[1] != ("USD"@)[1]);
    assert(("UNI"@)[0] != ("EUR"@)[0]);
    assert(("UNI"@)[0] != ("GBP"@)[0]);
    assert(("UNI"@)[0] != ("AUD"@)[0]);
    assert(("UNI"@)[0] != ("CAD"@)[0]);
    assert(("UNI"@)[0] != ("NZD"@)[0]);
    assert(("UNI"@)[0] != ("ARS"@)[0]);
    assert(("UNI"@)[0] != ("BRL"@)[0]);
    assert(("UNI"@)[0] != ("CHF"@)[0]);
    assert(("UNI"@)[0] != ("CLP"@)[0]);
    assert(("UNI"@)[0] != ("COP"@)[0]);
    assert(("UNI"@)[0] != ("CZK"@)[0]);
    assert(("UNI"@)[0] != ("DKK"@)[0]);
    assert(("UNI"@)[0] != ("HKD"@)[0]);
    assert(("UNI"@)[0] != ("ILS"@)[0]);
    assert(("UNI"@)[0] != ("INR"@)[0]);
    assert(("UNI"@)[0] != ("ISK"@)[0]);
    assert(("UNI"@)[0] != ("JPY"@)[0]);
    assert(("UNI"@)[0] != ("KRW"@)[0]);
    assert(("UNI"@)[0] != ("MXN"@)[0]);
    assert(("UNI"@)[0] != ("MYR"@)[0]);
    assert(("UNI"@)[0] != ("NOK"@)[0]);
    assert(("UNI"@)[0] != ("PHP"@)[0]);
    assert(("UNI"@)[0] != ("PLN"@)[0]);
    assert(("UNI"@)[0] != ("SEK"@)[0]);
    assert(("UNI"@)[0] != ("SGD"@)[0]);
    assert(("UNI"@)[0] != ("THB"@)[0]);
    assert(("UNI"@)[0] != ("VND"@)[0]);
    assert(("UNI"@)[0] != ("ZAR"@)[0]);
    assert(("UNI"@)[0] != ("BTC"@)[0]);
    assert(("UNI"@)[0] != ("ETH"@)[0]);
    assert(("UNI"@)[0] != ("XLM"@)[0]);
    assert(("UNI"@).len() != ("sUSDC"@).len());
    assert(("UNI"@).len() != ("AVAX"@).len());
    assert(("UNI"@)[0] != ("DAI"@)[0]);
    assert(("UNI"@).len() != ("pDAI"@).len());
    assert(("UNI"@).len() != ("USDC"@).len());
    assert(("UNI"@).len() != ("mUSDC"@).len());
    assert(("UNI"@).len() != ("L-BTC"@).len());
    assert(("UNI"@).len() != ("USDT"@).len());
    assert(("UNI"@).len() != ("BUSD"@).len());
    assert(("UNI"@).len() != ("GUSD"@).len());
    assert(("UNI"@)[0] != ("PAX"@)[0]);
    assert(("UNI"@).len() != ("USDS"@).len());
    assert(("UNI"@).len() != ("AAVE"@).len());
    assert(("UNI"@).len() != ("COMP"@).len());
    assert(("UNI"@).len() != ("LINK"@).len());
    assert(("UNI"@).len() != ("WBTC"@).len());
    assert(("UNI"@)[0] != ("BAT"@)[0]);
    assert(("UNI"@)[0] != ("CRV"@)[0]);
    assert(("UNI"@)[0] != ("MKR"@)[0]);
    assert(("UNI"@)[0] != ("SNX"@)[0]);
    assert(("UNI"@)[1] != ("UMA"@)[1]);
    assert("UNI"@ != "USD"@);
    assert("UNI"@ != "EUR"@);
    assert("UNI"@ != "GBP"@);
    assert("UNI"@ != "AUD"@);
    assert("UNI"@ != "CAD"@);
    assert("UNI"@ != "NZD"@);
    assert("UNI"@ != "ARS"@);
    assert("UNI"@ != "BRL"@);
    assert("UNI"@ != "CHF"@);
    assert("UNI"@ != "CLP"@);
    assert("UNI"@ != "COP"@);
    assert("UNI"@ != "CZK"@);
    assert("UNI"@ != "DKK"@);
    assert("UNI"@ != "HKD"@);
    assert("UNI"@ != "ILS"@);
    assert("UNI"@ != "INR"@);
    assert("UNI"@ != "ISK"@);
    assert("UNI"@ != "JPY"@);
    assert("UNI"@ != "KRW"@);
    assert("UNI"@ != "MXN"@);
    assert("UNI"@ != "MYR"@);
    assert("UNI"@ != "NOK"@);
    assert("UNI"@ != "PHP"@);
    assert("UNI"@ != "PLN"@);
    assert("UNI"@ != "SEK"@);
    assert("UNI"@ != "SGD"@);
    assert("UNI"@ != "THB"@);
    assert("UNI"@ != "VND"@);
    assert("UNI"@ != "ZAR"@);
    assert("UNI"@ != "BTC"@);
    assert("UNI"@ != "ETH"@);
    assert("UNI"@ != "XLM"@);
    assert("UNI"@ != "sUSDC"@);
    assert("UNI"@ != "AVAX"@);
    assert("UNI"@ != "DAI"@);
    assert("UNI"@ != "pDAI"@);
    assert("UNI"@ != "USDC"@);
    assert("UNI"@ != "mUSDC"@);
    assert("UNI"@ != "L-BTC"@);
    assert("UNI"@ != "USDT"@);
    assert("UNI"@ != "BUSD"@);
    assert("UNI"@ != "GUSD"@);
    assert("UNI"@ != "PAX"@);
    assert("UNI"@ != "USDS"@);
    assert("UNI"@ != "AAVE"@);
    assert("UNI"@ != "COMP"@);
    assert("UNI"@ != "LINK"@);
    assert("UNI"@ != "WBTC"@);
    assert("UNI"@ != "BAT"@);
    assert("UNI"@ != "CRV"@);
    assert("UNI"@ != "MKR"@);
    assert("UNI"@ != "SNX"@);
    assert("UNI"@ != "UMA"@);
}

proof fn lemma_token_reaches_yfi()
    ensures
        spec_parse_currency(currency_token(Currency::YFI)) == Currency::YFI,
{
    reveal_strlit("USD");
    reveal_strlit("EUR");
    reveal_strlit("GBP");
    reveal_strlit("AUD");
    reveal_strlit("CAD");
    reveal_strlit("NZD");
    reveal_strlit("ARS");
    reveal_strlit("BRL");
    reveal_strlit("CHF");
    reveal_strlit("CLP");
    reveal_strlit("COP");
    reveal_strlit("CZK");
    reveal_strlit("DKK");
    reveal_strlit("HKD");
    reveal_strlit("ILS");
    reveal_strlit("INR");
    reveal_strlit("ISK");
    reveal_strlit("JPY");
    reveal_strlit("KRW");
    reveal_strlit("MXN");
    reveal_strlit("MYR");
    reveal_strlit("NOK");
    reveal_strlit("PHP");
    reveal_strlit("PLN");
    reveal_strlit("SEK");
    reveal_strlit("SGD");
    reveal_strlit("THB");
    reveal_strlit("VND");
    reveal_strlit("ZAR");
    reveal_strlit("BTC");
    reveal_strlit("ETH");
    reveal_strlit("XLM");
    reveal_strlit("sUSDC");
    reveal_strlit("AVAX");
    reveal_strlit("DAI");
    reveal_strlit("pDAI");
    reveal_strlit("USDC");
    reveal_strlit("mUSDC");
    reveal_strlit("L-BTC");
    reveal_strlit("USDT");
    reveal_strlit("BUSD");
    reveal_strlit("GUSD");
    reveal_strlit("PAX");
    reveal_strlit("USDS");
    reveal_strlit("AAVE");
    reveal_strlit("COMP");
    reveal_strlit("LINK");
    reveal_strlit("WBTC");
    reveal_strlit("BAT");
    reveal_strlit("CRV");
    reveal_strlit("MKR");
    reveal_strlit("SNX");
    reveal_strlit("UMA");
    reveal_strlit("UNI");
    reveal_strlit("YFI");
    assert(("YFI"@)[0] != ("USD"@)[0]);
    assert(("YFI"@)[0] != ("EUR"@)[0]);
    assert(("YFI"@)[0] != ("GBP"@)[0]);
    assert(("YFI"@)[0] != ("AUD"@)[0]);
    assert(("YFI"@)[0] != ("CAD"@)[0]);
    assert(("YFI"@)[0] != ("NZD"@)[0]);
    assert(("YFI"@)[0] != ("ARS"@)[0]);
    assert(("YFI"@)[0] != ("BRL"@)[0]);
    assert(("YFI"@)[0] != ("CHF"@)[0]);
    assert(("YFI"@)[0] != ("CLP"@)[0]);
    assert(("YFI"@)[0] != ("COP"@)[0]);
    assert(("YFI"@)[0] != ("CZK"@)[0]);
    assert(("YFI"@)[0] != ("DKK"@)[0]);
    assert(("YFI"@)[0] != ("HKD"@)[0]);
    assert(("YFI"@)[0] != ("ILS"@)[0]);
    assert(("YFI"@)[0] != ("INR"@)[0]);
    assert(("YFI"@)[0] != ("ISK"@)[0]);
    assert(("YFI"@)[0] != ("JPY"@)[0]);
    assert(("YFI"@)[0] != ("KRW"@)[0]);
    assert(("YFI"@)[0] != ("MXN"@)[0]);
    assert(("YFI"@)[0] != ("MYR"@)[0]);
    assert(("YFI"@)[0] != ("NOK"@)[0]);
    assert(("YFI"@)[0] != ("PHP"@)[0]);
    assert(("YFI"@)[0] != ("PLN"@)[0]);
    assert(("YFI"@)[0] != ("SEK"@)[0]);
    assert(("YFI"@)[0] != ("SGD"@)[0]);
    assert(("YFI"@)[0] != ("THB"@)[0]);
    assert(("YFI"@)[0] != ("VND"@)[0]);
    assert(("YFI"@)[0] != ("ZAR"@)[0]);
    assert(("YFI"@)[0] != ("BTC"@)[0]);
    assert(("YFI"@)[0] != ("ETH"@)[0]);
    assert(("YFI"@)[0] != ("XLM"@)[0]);
    assert(("YFI"@).len() != ("sUSDC"@).len());
    assert(("YFI"@).len() != ("AVAX"@).len());
    assert(("YFI"@)[0] != ("DAI"@)[0]);
    assert(("YFI"@).len() != ("pDAI"@).len());
    assert(("YFI"@).len() != ("USDC"@).len());
    assert(("YFI"@).len() != ("mUSDC"@).len());
    assert(("YFI"@).len() != ("L-BTC"@).len());
    assert(("YFI"@).len() != ("USDT"@).len());
    assert(("YFI"@).len() != ("BUSD"@).len());
    assert(("YFI"@).len() != ("GUSD"@).len());
    assert(("YFI"@)[0] != ("PAX"@)[0]);
    assert(("YFI"@).len() != ("USDS"@).len());
    assert(("YFI"@).len() != ("AAVE"@).len());
    assert(("YFI"@).len() != ("COMP"@).len());
    assert(("YFI"@).len() != ("LINK"@).len());
    assert(("YFI"@).len() != ("WBTC"@).len());
    assert(("YFI"@)[0] != ("BAT"@)[0]);
    assert(("YFI"@)[0] != ("CRV"@)[0]);
    assert(("YFI"@)[0] != ("MKR"@)[0]);
    assert(("YFI"@)[0] != ("SNX"@)[0]);
    assert(("YFI"@)[0] != ("UMA"@)[0]);
    assert(("YFI"@)[0] != ("UNI"@)[0]);
    assert("YFI"@ != "USD"@);
    assert("YFI"@ != "EUR"@);
    assert("YFI"@ != "GBP"@);
    assert("YFI"@ != "AUD"@);
    assert("YFI"@ != "CAD"@);
    assert("YFI"@ != "NZD"@);
    assert("YFI"@ != "ARS"@);
    assert("YFI"@ != "BRL"@);
    assert("YFI"@ != "CHF"@);
    assert("YFI"@ != "CLP"@);
    assert("YFI"@ != "COP"@);
    assert("YFI"@ != "CZK"@);
    assert("YFI"@ != "DKK"@);
    assert("YFI"@ != "HKD"@);
    assert("YFI"@ != "ILS"@);
    assert("YFI"@ != "INR"@);
    assert("YFI"@ != "ISK"@);
    assert("YFI"@ != "JPY"@);
    assert("YFI"@ != "KRW"@);
    assert("YFI"@ != "MXN"@);
    assert("YFI"@ != "MYR"@);
    assert("YFI"@ != "NOK"@);
    assert("YFI"@ != "PHP"@);
    assert("YFI"@ != "PLN"@);
    assert("YFI"@ != "SEK"@);
    assert("YFI"@ != "SGD"@);
    assert("YFI"@ != "THB"@);
    assert("YFI"@ != "VND"@);
    assert("YFI"@ != "ZAR"@);
    assert("YFI"@ != "BTC"@);
    assert("YFI"@ != "ETH"@);
    assert("YFI"@ != "XLM"@);
    assert("YFI"@ != "sUSDC"@);
    assert("YFI"@ != "AVAX"@);
    assert("YFI"@ != "DAI"@);
    assert("YFI"@ != "pDAI"@);
    assert("YFI"@ != "USDC"@);
    assert("YFI"@ != "mUSDC"@);
    assert("YFI"@ != "L-BTC"@);
    assert("YFI"@ != "USDT"@);
    assert("YFI"@ != "BUSD"@);
    assert("YFI"@ != "GUSD"@);
    assert("YFI"@ != "PAX"@);
    assert("YFI"@ != "USDS"@);
    assert("YFI"@ != "AAVE"@);
    assert("YFI"@ != "COMP"@);
    assert("YFI"@ != "LINK"@);
    assert("YFI"@ != "WBTC"@);
    assert("YFI"@ != "BAT"@);
    assert("YFI"@ != "CRV"@);
    assert("YFI"@ != "MKR"@);
    assert("YFI"@ != "SNX"@);
    assert("YFI"@ != "UMA"@);
    assert("YFI"@ != "UNI"@);
}

proof fn lemma_token_reaches_gyen()
    ensures
        spec_parse_currency(currency_token(Currency::GYEN)) == Currency::GYEN,
{
    reveal_strlit("USD");
    reveal_strlit("EUR");
    reveal_strlit("GBP");
    reveal_strlit("AUD");
    reveal_strlit("CAD");
    reveal_strlit("NZD");
    reveal_strlit("ARS");
    reveal_strlit("BRL");
    reveal_strlit("CHF");
    reveal_strlit("CLP");
    reveal_strlit("COP");
    reveal_strlit("CZK");
    reveal_strlit("DKK");
    reveal_strlit("HKD");
    reveal_strlit("ILS");
    reveal_strlit("INR");
    reveal_strlit("ISK");
    reveal_strlit("JPY");
    reveal_strlit("KRW");
    reveal_strlit("MXN");
    reveal_strlit("MYR");
    reveal_strlit("NOK");
    reveal_strlit("PHP");
    reveal_strlit("PLN");
    reveal_strlit("SEK");
    reveal_strlit("SGD");
    reveal_strlit("THB");
    reveal_strlit("VND");
    reveal_strlit("ZAR");
    reveal_strlit("BTC");
    reveal_strlit("ETH");
    reveal_strlit("XLM");
    reveal_strlit("sUSDC");
    reveal_strlit("AVAX");
    reveal_strlit("DAI");
    reveal_strlit("pDAI");
    reveal_strlit("USDC");
    reveal_strlit("mUSDC");
    reveal_strlit("L-BTC");
    reveal_strlit("USDT");
    reveal_strlit("BUSD");
    reveal_strlit("GUSD");
    reveal_strlit("PAX");
    reveal_strlit("USDS");
    reveal_strlit("AAVE");
    reveal_strlit("COMP");
    reveal_strlit("LINK");
    reveal_strlit("WBTC");
    reveal_strlit("BAT");
    reveal_strlit("CRV");
    reveal_strlit("MKR");
    reveal_strlit("SNX");
    reveal_strlit("UMA");
    reveal_strlit("UNI");
    reveal_strlit("YFI");
    reveal_strlit("GYEN");
    assert(("GYEN"@).len() != ("USD"@).len());
    assert(("GYEN"@).len() != ("EUR"@).len());
    assert(("GYEN"@).len() != ("GBP"@).len());
    assert(("GYEN"@).len() != ("AUD"@).len());
    assert(("GYEN"@).len() != ("CAD"@).len());
    assert(("GYEN"@).len() != ("NZD"@).len());
    assert(("GYEN"@).len() != ("ARS"@).len());
    assert(("GYEN"@).len() != ("BRL"@).len());
    assert(("GYEN"@).len() != ("CHF"@).len());
    assert(("GYEN"@).len() != ("CLP"@).len());
    assert(("GYEN"@).len() != ("COP"@).len());
    assert(("GYEN"@).len() != ("CZK"@).len());
    assert(("GYEN"@).len() != ("DKK"@).len());
    assert(("GYEN"@).len() != ("HKD"@).len());
    assert(("GYEN"@).len() != ("ILS"@).len());
    assert(("GYEN"@).len() != ("INR"@).len());
    assert(("GYEN"@).len() != ("ISK"@).len());
    assert(("GYEN"@).len() != ("JPY"@).len());
    assert(("GYEN"@).len() != ("KRW"@).len());
    assert(("GYEN"@).len() != ("MXN"@).len());
    assert(("GYEN"@).len() != ("MYR"@).len());
    assert(("GYEN"@).len() != ("NOK"@).len());
    assert(("GYEN"@).len() != ("PHP"@).len());
    assert(("GYEN"@).len() != ("PLN"@).len());
    assert(("GYEN"@).len() != ("SEK"@).len());
    assert(("GYEN"@).len() != ("SGD"@).len());
    assert(("GYEN"@).len() != ("THB"@).len());
    assert(("GYEN"@).len() != ("VND"@).len());
    assert(("GYEN"@).len() != ("ZAR"@).len());
    assert(("GYEN"@).len() != ("BTC"@).len());
    assert(("GYEN"@).len() != ("ETH"@).len());
    assert(("GYEN"@).len() != ("XLM"@).len());
    assert(("GYEN"@).len() != ("sUSDC"@).len());
    assert(("GYEN"@)[0] != ("AVAX"@)[0]);
    assert(("GYEN"@).len() != ("DAI"@).len());
    assert(("GYEN"@)[0] != ("pDAI"@)[0]);
    assert(("GYEN"@)[0] != ("USDC"@)[0]);
    assert(("GYEN"@).len() != ("mUSDC"@).len());
    assert(("GYEN"@).len() != ("L-BTC"@).len());
    assert(("GYEN"@)[0] != ("USDT"@)[0]);
    assert(("GYEN"@)[0] != ("BUSD"@)[0]);
    assert(("GYEN"@)[1] != ("GUSD"@)[1]);
    assert(("GYEN"@).len() != ("PAX"@).len());
    assert(("GYEN"@)[0] != ("USDS"@)[0]);
    assert(("GYEN"@)[0] != ("AAVE"@)[0]);
    assert(("GYEN"@)[0] != ("COMP"@)[0]);
    assert(("GYEN"@)[0] != ("LINK"@)[0]);
    assert(("GYEN"@)[0] != ("WBTC"@)[0]);
    assert(("GYEN"@).len() != ("BAT"@).len());
    assert(("GYEN"@).len() != ("CRV"@).len());
    assert(("GYEN"@).len() != ("MKR"@).len());
    assert(("GYEN"@).len() != ("SNX"@).len());
    assert(("GYEN"@).len() != ("UMA"@).len());
    assert(("GYEN"@).len() != ("UNI"@).len());
    assert(("GYEN"@).len() != ("YFI"@).len());
    assert("GYEN"@ != "USD"@);
    assert("GYEN"@ != "EUR"@);
    assert("GYEN"@ != "GBP"@);
    assert("GYEN"@ != "AUD"@);
    assert("GYEN"@ != "CAD"@);
    assert("GYEN"@ != "NZD"@);
    assert("GYEN"@ != "ARS"@);
    assert("GYEN"@ != "BRL"@);
    assert("GYEN"@ != "CHF"@);
    assert("GYEN"@ != "CLP"@);
    assert("GYEN"@ != "COP"@);
    assert("GYEN"@ != "CZK"@);
    assert("GYEN"@ != "DKK"@);
    assert("GYEN"@ != "HKD"@);
    assert("GYEN"@ != "ILS"@);
    assert("GYEN"@ != "INR"@);
    assert("GYEN"@ != "ISK"@);
    assert("GYEN"@ != "JPY"@);
    assert("GYEN"@ != "KRW"@);
    assert("GYEN"@ != "MXN"@);
    assert("GYEN"@ != "MYR"@);
    assert("GYEN"@ != "NOK"@);
    assert("GYEN"@ != "PHP"@);
    assert("GYEN"@ != "PLN"@);
    assert("GYEN"@ != "SEK"@);
    assert("GYEN"@ != "SGD"@);
    assert("GYEN"@ != "THB"@);
    assert("GYEN"@ != "VND"@);
    assert("GYEN"@ != "ZAR"@);
    assert("GYEN"@ != "BTC"@);
    assert("GYEN"@ != "ETH"@);
    assert("GYEN"@ != "XLM"@);
    assert("GYEN"@ != "sUSDC"@);
    assert("GYEN"@ != "AVAX"@);
    assert("GYEN"@ != "DAI"@);
    assert("GYEN"@ != "pDAI"@);
    assert("GYEN"@ != "USDC"@);
    assert("GYEN"@ != "mUSDC"@);
    assert("GYEN"@ != "L-BTC"@);
    assert("GYEN"@ != "USDT"@);
    assert("GYEN"@ != "BUSD"@);
    assert("GYEN"@ != "GUSD"@);
    assert("GYEN"@ != "PAX"@);
    assert("GYEN"@ != "USDS"@);
    assert("GYEN"@ != "AAVE"@);
    assert("GYEN"@ != "COMP"@);
    assert("GYEN"@ != "LINK"@);
    assert("GYEN"@ != "WBTC"@);
    assert("GYEN"@ != "BAT"@);
    assert("GYEN"@ != "CRV"@);
    assert("GYEN"@ != "MKR"@);
    assert("GYEN"@ != "SNX"@);
    assert("GYEN"@ != "UMA"@);
    assert("GYEN"@ != "UNI"@);
    assert("GYEN"@ != "YFI"@);
}

proof fn lemma_token_reaches_zusd()
    ensures
        spec_parse_currency(currency_token(Currency::ZUSD)) == Currency::ZUSD,
{
    reveal_strlit("USD");
    reveal_strlit("EUR");
    reveal_strlit("GBP");
    reveal_strlit("AUD");
    reveal_strlit("CAD");
    reveal_strlit("NZD");
    reveal_strlit("ARS");
    reveal_strlit("BRL");
    reveal_strlit("CHF");
    reveal_strlit("CLP");
    reveal_strlit("COP");
    reveal_strlit("CZK");
    reveal_strlit("DKK");
    reveal_strlit("HKD");
    reveal_strlit("ILS");
    reveal_strlit("INR");
    reveal_strlit("ISK");
    reveal_strlit("JPY");
    reveal_strlit("KRW");
    reveal_strlit("MXN");
    reveal_strlit("MYR");
    reveal_strlit("NOK");
    reveal_strlit("PHP");
    reveal_strlit("PLN");
    reveal_strlit("SEK");
    reveal_strlit("SGD");
    reveal_strlit("THB");
    reveal_strlit("VND");
    reveal_strlit("ZAR");
    reveal_strlit("BTC");
    reveal_strlit("ETH");
    reveal_strlit("XLM");
    reveal_strlit("sUSDC");
    reveal_strlit("AVAX");
    reveal_strlit("DAI");
    reveal_strlit("pDAI");
    reveal_strlit("USDC");
    reveal_strlit("mUSDC");
    reveal_strlit("L-BTC");
    reveal_strlit("USDT");
    reveal_strlit("BUSD");
    reveal_strlit("GUSD");
    reveal_strlit("PAX");
    reveal_strlit("USDS");
    reveal_strlit("AAVE");
    reveal_strlit("COMP");
    reveal_strlit("LINK");
    reveal_strlit("WBTC");
    reveal_strlit("BAT");
    reveal_strlit("CRV");
    reveal_strlit("MKR");
    reveal_strlit("SNX");
    reveal_strlit("UMA");
    reveal_strlit("UNI");
    reveal_strlit("YFI");
    reveal_strlit("GYEN");
    reveal_strlit("ZUSD");
    assert(("ZUSD"@).len() != ("USD"@).len());
    assert(("ZUSD"@).len() != ("EUR"@).len());
    assert(("ZUSD"@).len() != ("GBP"@).len());
    assert(("ZUSD"@).len() != ("AUD"@).len());
    assert(("ZUSD"@).len() != ("CAD"@).len());
    assert(("ZUSD"@).len() != ("NZD"@).len());
    assert(("ZUSD"@).len() != ("ARS"@).len());
    assert(("ZUSD"@).len() != ("BRL"@).len());
    assert(("ZUSD"@).len() != ("CHF"@).len());
    assert(("ZUSD"@).len() != ("CLP"@).len());
    assert(("ZUSD"@).len() != ("COP"@).len());
    assert(("ZUSD"@).len() != ("CZK"@).len());
    assert(("ZUSD"@).len() != ("DKK"@).len());
    assert(("ZUSD"@).len() != ("HKD"@).len());
    assert(("ZUSD"@).len() != ("ILS"@).len());
    assert(("ZUSD"@).len() != ("INR"@).len());
    assert(("ZUSD"@).len() != ("ISK"@).len());
    assert(("ZUSD"@).len() != ("JPY"@).len());
    assert(("ZUSD"@).len() != ("KRW"@).len());
    assert(("ZUSD"@).len() != ("MXN"@).len());
    assert(("ZUSD"@).len() != ("MYR"@).len());
    assert(("ZUSD"@).len() != ("NOK"@).len());
    assert(("ZUSD"@).len() != ("PHP"@).len());
    assert(("ZUSD"@).len() != ("PLN"@).len());
    assert(("ZUSD"@).len() != ("SEK"@).len());
    assert(("ZUSD"@).len() != ("SGD"@).len());
    assert(("ZUSD"@).len() != ("THB"@).len());
    assert(("ZUSD"@).len() != ("VND"@).len());
    assert(("ZUSD"@).len() != ("ZAR"@).len());
    assert(("ZUSD"@).len() != ("BTC"@).len());
    assert(("ZUSD"@).len() != ("ETH"@).len());
    assert(("ZUSD"@).len() != ("XLM"@).len());
    assert(("ZUSD"@).len() != ("sUSDC"@).len());
    assert(("ZUSD"@)[0] != ("AVAX"@)[0]);
    assert(("ZUSD"@).len() != ("DAI"@).len());
    assert(("ZUSD"@)[0] != ("pDAI"@)[0]);
    assert(("ZUSD"@)[0] != ("USDC"@)[0]);
    assert(("ZUSD"@).len() != ("mUSDC"@).len());
    assert(("ZUSD"@).len() != ("L-BTC"@).len());
    assert(("ZUSD"@)[0] != ("USDT"@)[0]);
    assert(("ZUSD"@)[0] != ("BUSD"@)[0]);
    assert(("ZUSD"@)[0] != ("GUSD"@)[0]);
    assert(("ZUSD"@).len() != ("PAX"@).len());
    assert(("ZUSD"@)[0] != ("USDS"@)[0]);
    assert(("ZUSD"@)[0] != ("AAVE"@)[0]);
    assert(("ZUSD"@)[0] != ("COMP"@)[0]);
    assert(("ZUSD"@)[0] != ("LINK"@)[0]);
    assert(("ZUSD"@)[0] != ("WBTC"@)[0]);
    assert(("ZUSD"@).len() != ("BAT"@).len());
    assert(("ZUSD"@).len() != ("CRV"@).len());
    assert(("ZUSD"@).len() != ("MKR"@).len());
    assert(("ZUSD"@).len() != ("SNX"@).len());
    assert(("ZUSD"@).len() != ("UMA"@).len());
    assert(("ZUSD"@).len() != ("UNI"@).len());
    assert(("ZUSD"@).len() != ("YFI"@).len());
    assert(("ZUSD"@)[0] != ("GYEN"@)[0]);
    assert("ZUSD"@ != "USD"@);
    assert("ZUSD"@ != "EUR"@);
    assert("ZUSD"@ != "GBP"@);
    assert("ZUSD"@ != "AUD"@);
    assert("ZUSD"@ != "CAD"@);
    assert("ZUSD"@ != "NZD"@);
    assert("ZUSD"@ != "ARS"@);
    assert("ZUSD"@ != "BRL"@);
    assert("ZUSD"@ != "CHF"@);
    assert("ZUSD"@ != "CLP"@);
    assert("ZUSD"@ != "COP"@);
    assert("ZUSD"@ != "CZK"@);
    assert("ZUSD"@ != "DKK"@);
    assert("ZUSD"@ != "HKD"@);
    assert("ZUSD"@ != "ILS"@);
    assert("ZUSD"@ != "INR"@);
    assert("ZUSD"@ != "ISK"@);
    assert("ZUSD"@ != "JPY"@);
    assert("ZUSD"@ != "KRW"@);
    assert("ZUSD"@ != "MXN"@);
    assert("ZUSD"@ != "MYR"@);
    assert("ZUSD"@ != "NOK"@);
    assert("ZUSD"@ != "PHP"@);
    assert("ZUSD"@ != "PLN"@);
    assert("ZUSD"@ != "SEK"@);
    assert("ZUSD"@ != "SGD"@);
    assert("ZUSD"@ != "THB"@);
    assert("ZUSD"@ != "VND"@);
    assert("ZUSD"@ != "ZAR"@);
    assert("ZUSD"@ != "BTC"@);
    assert("ZUSD"@ != "ETH"@);
    assert("ZUSD"@ != "XLM"@);
    assert("ZUSD"@ != "sUSDC"@);
    assert("ZUSD"@ != "AVAX"@);
    assert("ZUSD"@ != "DAI"@);
    assert("ZUSD"@ != "pDAI"@);
    assert("ZUSD"@ != "USDC"@);
    assert("ZUSD"@ != "mUSDC"@);
    assert("ZUSD"@ != "L-BTC"@);
    assert("ZUSD"@ != "USDT"@);
    assert("ZUSD"@ != "BUSD"@);
    assert("ZUSD"@ != "GUSD"@);
    assert("ZUSD"@ != "PAX"@);
    assert("ZUSD"@ != "USDS"@);
    assert("ZUSD"@ != "AAVE"@);
    assert("ZUSD"@ != "COMP"@);
    assert("ZUSD"@ != "LINK"@);
    assert("ZUSD"@ != "WBTC"@);
    assert("ZUSD"@ != "BAT"@);
    assert("ZUSD"@ != "CRV"@);
    assert("ZUSD"@ != "MKR"@);
    assert("ZUSD"@ != "SNX"@);
    assert("ZUSD"@ != "UMA"@);
    assert("ZUSD"@ != "UNI"@);
    assert("ZUSD"@ != "YFI"@);
    assert("ZUSD"@ != "GYEN"@);
}

proof fn lemma_token_reaches_matic()
    ensures
        spec_parse_currency(currency_token(Currency::MATIC)) == Currency::MATIC,
{
    reveal_strlit("USD");
    reveal_strlit("EUR");
    reveal_strlit("GBP");
    reveal_strlit("AUD");
    reveal_strlit("CAD");
    reveal_strlit("NZD");
    reveal_strlit("ARS");
    reveal_strlit("BRL");
    reveal_strlit("CHF");
    reveal_strlit("CLP");
    reveal_strlit("COP");
    reveal_strlit("CZK");
    reveal_strlit("DKK");
    reveal_strlit("HKD");
    reveal_strlit("ILS");
    reveal_strlit("INR");
    reveal_strlit("ISK");
    reveal_strlit("JPY");
    reveal_strlit("KRW");
    reveal_strlit("MXN");
    reveal_strlit("MYR");
    reveal_strlit("NOK");
    reveal_strlit("PHP");
    reveal_strlit("PLN");
    reveal_strlit("SEK");
    reveal_strlit("SGD");
    reveal_strlit("THB");
    reveal_strlit("VND");
    reveal_strlit("ZAR");
    reveal_strlit("BTC");
    reveal_strlit("ETH");
    reveal_strlit("XLM");
    reveal_strlit("sUSDC");
    reveal_strlit("AVAX");
    reveal_strlit("DAI");
    reveal_strlit("pDAI");
    reveal_strlit("USDC");
    reveal_strlit("mUSDC");
    reveal_strlit("L-BTC");
    reveal_strlit("USDT");
    reveal_strlit("BUSD");
    reveal_strlit("GUSD");
    reveal_strlit("PAX");
    reveal_strlit("USDS");
    reveal_strlit("AAVE");
    reveal_strlit("COMP");
    reveal_strlit("LINK");
    reveal_strlit("WBTC");
    reveal_strlit("BAT");
    reveal_strlit("CRV");
    reveal_strlit("MKR");
    reveal_strlit("SNX");
    reveal_strlit("UMA");
    reveal_strlit("UNI");
    reveal_strlit("YFI");
    reveal_strlit("GYEN");
    reveal_strlit("ZUSD");
    reveal_strlit("MATIC");
    assert(("MATIC"@).len() != ("USD"@).len());
    assert(("MATIC"@).len() != ("EUR"@).len());
    assert(("MATIC"@).len() != ("GBP"@).len());
    assert(("MATIC"@).len() != ("AUD"@).len());
    assert(("MATIC"@).len() != ("CAD"@).len());
    assert(("MATIC"@).len() != ("NZD"@).len());
    assert(("MATIC"@).len() != ("ARS"@).len());
    assert(("MATIC"@).len() != ("BRL"@).len());
    assert(("MATIC"@).len() != ("CHF"@).len());
    assert(("MATIC"@).len() != ("CLP"@).len());
    assert(("MATIC"@).len() != ("COP"@).len());
    assert(("MATIC"@).len() != ("CZK"@).len());
    assert(("MATIC"@).len() != ("DKK"@).len());
    assert(("MATIC"@).len() != ("HKD"@).len());
    assert(("MATIC"@).len() != ("ILS"@).len());
    assert(("MATIC"@).len() != ("INR"@).len());
    assert(("MATIC"@).len() != ("ISK"@).len());
    assert(("MATIC"@).len() != ("JPY"@).len());
    assert(("MATIC"@).len() != ("KRW"@).len());
    assert(("MATIC"@).len() != ("MXN"@).len());
    assert(("MATIC"@).len() != ("MYR"@).len());
    assert(("MATIC"@).len() != ("NOK"@).len());
    assert(("MATIC"@).len() != ("PHP"@).len());
    assert(("MATIC"@).len() != ("PLN"@).len());
    assert(("MATIC"@).len() != ("SEK"@).len());
    assert(("MATIC"@).len() != ("SGD"@).len());
    assert(("MATIC"@).len() != ("THB"@).len());
    assert(("MATIC"@).len() != ("VND"@).len());
    assert(("MATIC"@).len() != ("ZAR"@).len());
    assert(("MATIC"@).len() != ("BTC"@).len());
    assert(("MATIC"@).len() != ("ETH"@).len());
    assert(("MATIC"@).len() != ("XLM"@).len());
    assert(("MATIC"@)[0] != ("sUSDC"@)[0]);
    assert(("MATIC"@).len() != ("AVAX"@).len());
    assert(("MATIC"@).len() != ("DAI"@).len());
    assert(("MATIC"@).len() != ("pDAI"@).len());
    assert(("MATIC"@).len() != ("USDC"@).len());
    assert(("MATIC"@)[0] != ("mUSDC"@)[0]);
    assert(("MATIC"@)[0] != ("L-BTC"@)[0]);
    assert(("MATIC"@).len() != ("USDT"@).len());
    assert(("MATIC"@).len() != ("BUSD"@).len());
    assert(("MATIC"@).len() != ("GUSD"@).len());
    assert(("MATIC"@).len() != ("PAX"@).len());
    assert(("MATIC"@).len() != ("USDS"@).len());
    assert(("MATIC"@).len() != ("AAVE"@).len());
    assert(("MATIC"@).len() != ("COMP"@).len());
    assert(("MATIC"@).len() != ("LINK"@).len());
    assert(("MATIC"@).len() != ("WBTC"@).len());
    assert(("MATIC"@).len() != ("BAT"@).len());
    assert(("MATIC"@).len() != ("CRV"@).len());
    assert(("MATIC"@).len() != ("MKR"@).len());
    assert(("MATIC"@).len() != ("SNX"@).len());
    assert(("MATIC"@).len() != ("UMA"@).len());
    assert(("MATIC"@).len() != ("UNI"@).len());
    assert(("MATIC"@).len() != ("YFI"@).len());
    assert(("MATIC"@).len() != ("GYEN"@).len());
    assert(("MATIC"@).len() != ("ZUSD"@).len());
    assert("MATIC"@ != "USD"@);
    assert("MATIC"@ != "EUR"@);
    assert("MATIC"@ != "GBP"@);
    assert("MATIC"@ != "AUD"@);
    assert("MATIC"@ != "CAD"@);
    assert("MATIC"@ != "NZD"@);
    assert("MATIC"@ != "ARS"@);
    assert("MATIC"@ != "BRL"@);
    assert("MATIC"@ != "CHF"@);
    assert("MATIC"@ != "CLP"@);
    assert("MATIC"@ != "COP"@);
    assert("MATIC"@ != "CZK"@);
    assert("MATIC"@ != "DKK"@);
    assert("MATIC"@ != "HKD"@);
    assert("MATIC"@ != "ILS"@);
    assert("MATIC"@ != "INR"@);
    assert("MATIC"@ != "ISK"@);
    assert("MATIC"@ != "JPY"@);
    assert("MATIC"@ != "KRW"@);
    assert("MATIC"@ != "MXN"@);
    assert("MATIC"@ != "MYR"@);
    assert("MATIC"@ != "NOK"@);
    assert("MATIC"@ != "PHP"@);
    assert("MATIC"@ != "PLN"@);
    assert("MATIC"@ != "SEK"@);
    assert("MATIC"@ != "SGD"@);
    assert("MATIC"@ != "THB"@);
    assert("MATIC"@ != "VND"@);
    assert("MATIC"@ != "ZAR"@);
    assert("MATIC"@ != "BTC"@);
    assert("MATIC"@ != "ETH"@);
    assert("MATIC"@ != "XLM"@);
    assert("MATIC"@ != "sUSDC"@);
    assert("MATIC"@ != "AVAX"@);
    assert("MATIC"@ != "DAI"@);
    assert("MATIC"@ != "pDAI"@);
    assert("MATIC"@ != "USDC"@);
    assert("MATIC"@ != "mUSDC"@);
    assert("MATIC"@ != "L-BTC"@);
    assert("MATIC"@ != "USDT"@);
    assert("MATIC"@ != "BUSD"@);
    assert("MATIC"@ != "GUSD"@);
    assert("MATIC"@ != "PAX"@);
    assert("MATIC"@ != "USDS"@);
    assert("MATIC"@ != "AAVE"@);
    assert("MATIC"@ != "COMP"@);
    assert("MATIC"@ != "LINK"@);
    assert("MATIC"@ != "WBTC"@);
    assert("MATIC"@ != "BAT"@);
    assert("MATIC"@ != "CRV"@);
    assert("MATIC"@ != "MKR"@);
    assert("MATIC"@ != "SNX"@);
    assert("MATIC"@ != "UMA"@);
    assert("MATIC"@ != "UNI"@);
    assert("MATIC"@ != "YFI"@);
    assert("MATIC"@ != "GYEN"@);
    assert("MATIC"@ != "ZUSD"@);
}

proof fn lemma_token_reaches_other()
    ensures
        spec_parse_currency(currency_token(Currency::Other)) == Currency::Other,
{
    reveal_strlit("USD");
    reveal_strlit("EUR");
    reveal_strlit("GBP");
    reveal_strlit("AUD");
    reveal_strlit("CAD");
    reveal_strlit("NZD");
    reveal_strlit("ARS");
    reveal_strlit("BRL");
    reveal_strlit("CHF");
    reveal_strlit("CLP");
    reveal_strlit("COP");
    reveal_strlit("CZK");
    reveal_strlit("DKK");
    reveal_strlit("HKD");
    reveal_strlit("ILS");
    reveal_strlit("INR");
    reveal_strlit("ISK");
    reveal_strlit("JPY");
    reveal_strlit("KRW");
    reveal_strlit("MXN");
    reveal_strlit("MYR");
    reveal_strlit("NOK");
    reveal_strlit("PHP");
    reveal_strlit("PLN");
    reveal_strlit("SEK");
    reveal_strlit("SGD");
    reveal_strlit("THB");
    reveal_strlit("VND");
    reveal_strlit("ZAR");
    reveal_strlit("BTC");
    reveal_strlit("ETH");
    reveal_strlit("XLM");
    reveal_strlit("sUSDC");
    reveal_strlit("AVAX");
    reveal_strlit("DAI");
    reveal_strlit("pDAI");
    reveal_strlit("USDC");
    reveal_strlit("mUSDC");
    reveal_strlit("L-BTC");
    reveal_strlit("USDT");
    reveal_strlit("BUSD");
    reveal_strlit("GUSD");
    reveal_strlit("PAX");
    reveal_strlit("USDS");
    reveal_strlit("AAVE");
    reveal_strlit("COMP");
    reveal_strlit("LINK");
    reveal_strlit("WBTC");
    reveal_strlit("BAT");
    reveal_strlit("CRV");
    reveal_strlit("MKR");
    reveal_strlit("SNX");
    reveal_strlit("UMA");
    reveal_strlit("UNI");
    reveal_strlit("YFI");
    reveal_strlit("GYEN");
    reveal_strlit("ZUSD");
    reveal_strlit("MATIC");
    reveal_strlit("Other");
    assert(("Other"@).len() != ("USD"@).len());
    assert(("Other"@).len() != ("EUR"@).len());
    assert(("Other"@).len() != ("GBP"@).len());
    assert(("Other"@).len() != ("AUD"@).len());
    assert(("Other"@).len() != ("CAD"@).len());
    assert(("Other"@).len() != ("NZD"@).len());
    assert(("Other"@).len() != ("ARS"@).len());
    assert(("Other"@).len() != ("BRL"@).len());
    assert(("Other"@).len() != ("CHF"@).len());
    assert(("Other"@).len() != ("CLP"@).len());
    assert(("Other"@).len() != ("COP"@).len());
    assert(("Other"@).len() != ("CZK"@).len());
    assert(("Other"@).len() != ("DKK"@).len());
    assert(("Other"@).len() != ("HKD"@).len());
    assert(("Other"@).len() != ("ILS"@).len());
    assert(("Other"@).len() != ("INR"@).len());
    assert(("Other"@).len() != ("ISK"@).len());
    assert(("Other"@).len() != ("JPY"@).len());
    assert(("Other"@).len() != ("KRW"@).len());
    assert(("Other"@).len() != ("MXN"@).len());
    assert(("Other"@).len() != ("MYR"@).len());
    assert(("Other"@).len() != ("NOK"@).len());
    assert(("Other"@).len() != ("PHP"@).len());
    assert(("Other"@).len() != ("PLN"@).len());
    assert(("Other"@).len() != ("SEK"@).len());
    assert(("Other"@).len() != ("SGD"@).len());
    assert(("Other"@).len() != ("THB"@).len());
    assert(("Other"@).len() != ("VND"@).len());
    assert(("Other"@).len() != ("ZAR"@).len());
    assert(("Other"@).len() != ("BTC"@).len());
    assert(("Other"@).len() != ("ETH"@).len());
    assert(("Other"@).len() != ("XLM"@).len());
    assert(("Other"@)[0] != ("sUSDC"@)[0]);
    assert(("Other"@).len() != ("AVAX"@).len());
    assert(("Other"@).len() != ("DAI"@).len());
    assert(("Other"@).len() != ("pDAI"@).len());
    assert(("Other"@).len() != ("USDC"@).len());
    assert(("Other"@)[0] != ("mUSDC"@)[0]);
    assert(("Other"@)[0] != ("L-BTC"@)[0]);
    assert(("Other"@).len() != ("USDT"@).len());
    assert(("Other"@).len() != ("BUSD"@).len());
    assert(("Other"@).len() != ("GUSD"@).len());
    assert(("Other"@).len() != ("PAX"@).len());
    assert(("Other"@).len() != ("USDS"@).len());
    assert(("Other"@).len() != ("AAVE"@).len());
    assert(("Other"@).len() != ("COMP"@).len());
    assert(("Other"@).len() != ("LINK"@).len());
    assert(("Other"@).len() != ("WBTC"@).len());
    assert(("Other"@).len() != ("BAT"@).len());
    assert(("Other"@).len() != ("CRV"@).len());
    assert(("Other"@).len() != ("MKR"@).len());
    assert(("Other"@).len() != ("SNX"@).len());
    assert(("Other"@).len() != ("UMA"@).len());
    assert(("Other"@).len() != ("UNI"@).len());
    assert(("Other"@).len() != ("YFI"@).len());
    assert(("Other"@).len() != ("GYEN"@).len());
    assert(("Other"@).len() != ("ZUSD"@).len());
    assert(("Other"@)[0] != ("MATIC"@)[0]);
    assert("Other"@ != "USD"@);
    assert("Other"@ != "EUR"@);
    assert("Other"@ != "GBP"@);
    assert("Other"@ != "AUD"@);
    assert("Other"@ != "CAD"@);
    assert("Other"@ != "NZD"@);
    assert("Other"@ != "ARS"@);
    assert("Other"@ != "BRL"@);
    assert("Other"@ != "CHF"@);
    assert("Other"@ != "CLP"@);
    assert("Other"@ != "COP"@);
    assert("Other"@ != "CZK"@);
    assert("Other"@ != "DKK"@);
    assert("Other"@ != "HKD"@);
    assert("Other"@ != "ILS"@);
    assert("Other"@ != "INR"@);
    assert("Other"@ != "ISK"@);
    assert("Other"@ != "JPY"@);
    assert("Other"@ != "KRW"@);
    assert("Other"@ != "MXN"@);
    assert("Other"@ != "MYR"@);
    assert("Other"@ != "NOK"@);
    assert("Other"@ != "PHP"@);
    assert("Other"@ != "PLN"@);
    assert("Other"@ != "SEK"@);
    assert("Other"@ != "SGD"@);
    assert("Other"@ != "THB"@);
    assert("Other"@ != "VND"@);
    assert("Other"@ != "ZAR"@);
    assert("Other"@ != "BTC"@);
    assert("Other"@ != "ETH"@);
    assert("Other"@ != "XLM"@);
    assert("Other"@ != "sUSDC"@);
    assert("Other"@ != "AVAX"@);
    assert("Other"@ != "DAI"@);
    assert("Other"@ != "pDAI"@);
    assert("Other"@ != "USDC"@);
    assert("Other"@ != "mUSDC"@);
    assert("Other"@ != "L-BTC"@);
    assert("Other"@ != "USDT"@);
    assert("Other"@ != "BUSD"@);
    assert("Other"@ != "GUSD"@);
    assert("Other"@ != "PAX"@);
    assert("Other"@ != "USDS"@);
    assert("Other"@ != "AAVE"@);
    assert("Other"@ != "COMP"@);
    assert("Other"@ != "LINK"@);
    assert("Other"@ != "WBTC"@);
    assert("Other"@ != "BAT"@);
    assert("Other"@ != "CRV"@);
    assert("Other"@ != "MKR"@);
    assert("Other"@ != "SNX"@);
    assert("Other"@ != "UMA"@);
    assert("Other"@ != "UNI"@);
    assert("Other"@ != "YFI"@);
    assert("Other"@ != "GYEN"@);
    assert("Other"@ != "ZUSD"@);
    assert("Other"@ != "MATIC"@);
}

/// Writing any currency's token and reading it back reproduces the
/// currency; in particular `Other`'s own token is not a recognized code,
/// so even `Other` survives the trip.
pub proof fn lemma_currency_round_trip(c: Currency)
    ensures
        spec_parse_currency(currency_token(c)) == c,
{
    match c {
        Currency::USD => lemma_token_reaches_usd(),
        Currency::EUR => lemma_token_reaches_eur(),
        Currency::GBP => lemma_token_reaches_gbp(),
        Currency::AUD => lemma_token_reaches_aud(),
        Currency::CAD => lemma_token_reaches_cad(),
        Currency::NZD => lemma_token_reaches_nzd(),
        Currency::ARS => lemma_token_reaches_ars(),
        Currency::BRL => lemma_token_reaches_brl(),
        Currency::CHF => lemma_token_reaches_chf(),
        Currency::CLP => lemma_token_reaches_clp(),
        Currency::COP => lemma_token_reaches_cop(),
        Currency::CZK => lemma_token_reaches_czk(),
        Currency::DKK => lemma_token_reaches_dkk(),
        Currency::HKD => lemma_token_reaches_hkd(),
        Currency::ILS => lemma_token_reaches_ils(),
        Currency::INR => lemma_token_reaches_inr(),
        Currency::ISK => lemma_token_reaches_isk(),
        Currency::JPY => lemma_token_reaches_jpy(),
        Currency::KRW => lemma_token_reaches_krw(),
        Currency::MXN => lemma_token_reaches_mxn(),
        Currency::MYR => lemma_token_reaches_myr(),
        Currency::NOK => lemma_token_reaches_nok(),
        Currency::PHP => lemma_token_reaches_php(),
        Currency::PLN => lemma_token_reaches_pln(),
        Currency::SEK => lemma_token_reaches_sek(),
        Currency::SGD => lemma_token_reaches_sgd(),
        Currency::THB => lemma_token_reaches_thb(),
        Currency::VND => lemma_token_reaches_vnd(),
        Currency::ZAR => lemma_token_reaches_zar(),
        Currency::BTC => lemma_token_reaches_btc(),
        Currency::ETH => lemma_token_reaches_eth(),
        Currency::XLM => lemma_token_reaches_xlm(),
        Currency::SUSDC => lemma_token_reaches_susdc(),
        Currency::AVAX => lemma_token_reaches_avax(),
        Currency::DAI => lemma_token_reaches_dai(),
        Currency::PDAI => lemma_token_reaches_pdai(),
        Currency::USDC => lemma_token_reaches_usdc(),
        Currency::MUSDC => lemma_token_reaches_musdc(),
        Currency::LBTC => lemma_token_reaches_lbtc(),
        Currency::USDT => lemma_token_reaches_usdt(),
        Currency::BUSD => lemma_token_reaches_busd(),
        Currency::GUSD => lemma_token_reaches_gusd(),
        Currency::PAX => lemma_token_reaches_pax(),
        Currency::USDS => lemma_token_reaches_usds(),
        Currency::AAVE => lemma_token_reaches_aave(),
        Currency::COMP => lemma_token_reaches_comp(),
        Currency::LINK => lemma_token_reaches_link(),
        Currency::WBTC => lemma_token_reaches_wbtc(),
        Currency::BAT => lemma_token_reaches_bat(),
        Currency::CRV => lemma_token_reaches_crv(),
        Currency::MKR => lemma_token_reaches_mkr(),
        Currency::SNX => lemma_token_reaches_snx(),
        Currency::UMA => lemma_token_reaches_uma(),
        Currency::UNI => lemma_token_reaches_uni(),
        Currency::YFI => lemma_token_reaches_yfi(),
        Currency::GYEN => lemma_token_reaches_gyen(),
        Currency::ZUSD => lemma_token_reaches_zusd(),
        Currency::MATIC => lemma_token_reaches_matic(),
        Currency::Other => lemma_token_reaches_other(),
    }
}

} // verus!
