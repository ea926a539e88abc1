//! The closed enumeration of known trading-pair symbols.
//!
//! A wire symbol string is matched case-sensitively against this
//! enumeration; an unknown string is a hard decode error, since downstream
//! storage keys off the enumeration.  The reverse direction,
//! [`to_wire_string`], renders a symbol in the lower case that outbound
//! subscription URLs use.

use vstd::prelude::*;

use crate::errors::DecodeError;
use crate::errors::ErrorModel;
use crate::text::ascii_lower_seq;
use crate::text::lower_ascii_str;
use crate::text::seq_ends_with;
use crate::text::str_ends_with;
use crate::text::str_eq;

verus! {

/// The base currencies a trading pair can be quoted in.
#[derive(Debug, Clone, Copy, PartialEq, Eq, Structural)]
pub enum CurrencyBase {
    BNB,
    BTC,
    ETH,
    TUST,
    USDT,
    PAX,
    USDC,
}

/// The wire spelling of a base currency.
pub open spec fn base_wire_str(b: CurrencyBase) -> Seq<char> {
    match b {
        CurrencyBase::BNB => "BNB"@,
        CurrencyBase::BTC => "BTC"@,
        CurrencyBase::ETH => "ETH"@,
        CurrencyBase::TUST => "TUST"@,
        CurrencyBase::USDT => "USDT"@,
        CurrencyBase::PAX => "PAX"@,
        CurrencyBase::USDC => "USDC"@,
    }
}

impl CurrencyBase {
    /// The wire spelling of the base currency.
    pub fn as_str(&self) -> (r: &'static str)
        ensures
            r@ == base_wire_str(*self),
    {
        match self {
            CurrencyBase::BNB => "BNB",
            CurrencyBase::BTC => "BTC",
            CurrencyBase::ETH => "ETH",
            CurrencyBase::TUST => "TUST",
            CurrencyBase::USDT => "USDT",
            CurrencyBase::PAX => "PAX",
            CurrencyBase::USDC => "USDC",
        }
    }
}

/// The closed set of trading pairs the feed knows.
#[derive(Debug, Clone, Copy, PartialEq, Eq, Structural)]
pub enum CurrencyPair {
    ADABNB, ADABTC, ADAETH, ADATUSD, ADAUSDT, ADXBNB, ADXBTC, ADXETH,
    AEBNB, AEBTC, AEETH, AGIBNB, AGIBTC, AGIETH, AIONBNB, AIONBTC,
    AIONETH, AMBBNB, AMBBTC, AMBETH, APPCBNB, APPCBTC, APPCETH, ARDRBNB,
    ARDRBTC, ARDRETH, ARKBTC, ARKETH, ARNBTC, ARNETH, ASTBTC, ASTETH,
    BATBNB, BATBTC, BATETH, BCCBNB, BCCBTC, BCCETH, BCCUSDT, BCDBTC,
    BCDETH, BCHABCBTC, BCHABCPAX, BCHABCTUSD, BCHABCUSDC, BCHABCUSDT, BCHSVBTC, BCHSVPAX,
    BCHSVTUSD, BCHSVUSDC, BCHSVUSDT, BCNBNB, BCNBTC, BCNETH, BCPTBNB, BCPTBTC,
    BCPTETH, BLZBNB, BLZBTC, BLZETH, BNBBTC, BNBETH, BNBPAX, BNBUSDC,
    BNBUSDT, BNTBTC, BNTETH, BQXBTC, BQXETH, BRDBNB, BRDBTC, BRDETH,
    BTCPAX, BTCUSDC, BTCUSDT, BTGBTC, BTGETH, BTSBNB, BTSBTC, BTSETH,
    BTTBNB, BTTBTC, BTTUSDT, CDTBTC, CDTETH, CHATBTC, CHATETH, CLOAKBTC,
    CLOAKETH, CMTBNB, CMTBTC, CMTETH, CNDBNB, CNDBTC, CNDETH, CVCBNB,
    CVCBTC, CVCETH, DASHBTC, DASHETH, DATABTC, DATAETH, DCRBNB, DCRBTC,
    DENTBTC, DENTETH, DGDBTC, DGDETH, DLTBNB, DLTBTC, DLTETH, DNTBTC,
    DNTETH, DOCKBTC, DOCKETH, EDOBTC, EDOETH, ELFBTC, ELFETH, ENGBTC,
    ENGETH, ENJBNB, ENJBTC, ENJETH, EOSBNB, EOSBTC, EOSETH, EOSPAX,
    EOSTUSD, EOSUSDC, EOSUSDT, ETCBNB, ETCBTC, ETCETH, ETCUSDT, ETHBTC,
    ETHPAX, ETHUSDC, ETHUSDT, EVXBTC, EVXETH, FUELBTC, FUELETH, FUNBTC,
    FUNETH, GASBTC, GNTBNB, GNTBTC, GNTETH, GOBNB, GOBTC, GRSBTC,
    GRSETH, GTOBNB, GTOBTC, GTOETH, GVTBTC, GVTETH, GXSBTC, GXSETH,
    HCBTC, HCETH, HOTBTC, HOTETH, HSRBTC, HSRETH, ICNBTC, ICNETH,
    ICXBNB, ICXBTC, ICXETH, ICXUSDT, INSBTC, INSETH, IOSTBTC, IOSTETH,
    IOTABNB, IOTABTC, IOTAETH, IOTAUSDT, IOTXBTC, IOTXETH, KEYBTC, KEYETH,
    KMDBTC, KMDETH, KNCBTC, KNCETH, LENDBTC, LENDETH, LINKBTC, LINKETH,
    LINKPAX, LINKTUSD, LINKUSDC, LINKUSDT, LOOMBNB, LOOMBTC, LOOMETH, LRCBTC,
    LRCETH, LSKBNB, LSKBTC, LSKETH, LTCBNB, LTCBTC, LTCETH, LTCPAX,
    LTCTUSD, LTCUSDC, LTCUSDT, LUNBTC, LUNETH, MANABTC, MANAETH, MCOBNB,
    MCOBTC, MCOETH, MDABTC, MDAETH, MFTBNB, MFTBTC, MFTETH, MITHBNB,
    MITHBTC, MODBTC, MODETH, MTHBTC, MTHETH, MTLBTC, MTLETH, NANOBNB,
    NANOBTC, NANOETH, NASBNB, NASBTC, NASETH, NAVBNB, NAVBTC, NAVETH,
    NCASHBNB, NCASHBTC, NCASHETH, NEBLBNB, NEBLBTC, NEBLETH, NEOBNB, NEOBTC,
    NEOETH, NEOTUSD, NEOUSDT, NPXSBTC, NPXSETH, NULSBNB, NULSBTC, NULSETH,
    NULSUSDT, NXSBNB, NXSBTC, NXSETH, OAXBTC, OAXETH, OMGBTC, OMGETH,
    ONTBNB, ONTBTC, ONTETH, ONTUSDT, OSTBNB, OSTBTC, OSTETH, PAXBNB,
    PAXBTC, PAXETH, PAXTUSD, PAXUSDT, PHXBNB, PHXBTC, PHXETH, PIVXBNB,
    PIVXBTC, PIVXETH, POABNB, POABTC, POAETH, POEBTC, POEETH, POLYBNB,
    POLYBTC, POWRBNB, POWRBTC, POWRETH, PPTBTC, PPTETH, QKCBTC, QKCETH,
    QLCBNB, QLCBTC, QLCETH, QSPBNB, QSPBTC, QSPETH, QTUMBNB, QTUMBTC,
    QTUMETH, QTUMUSDT, RCNBNB, RCNBTC, RCNETH, RDNBNB, RDNBTC, RDNETH,
    RENBNB, RENBTC, REPBNB, REPBTC, REPETH, REQBTC, REQETH, RLCBNB,
    RLCBTC, RLCETH, RPXBNB, RPXBTC, RPXETH, RVNBNB, RVNBTC, SALTBTC,
    SALTETH, SCBNB, SCBTC, SCETH, SKYBNB, SKYBTC, SKYETH, SNGLSBTC,
    SNGLSETH, SNMBTC, SNMETH, SNTBTC, SNTETH, STEEMBNB, STEEMBTC, STEEMETH,
    STORJBTC, STORJETH, STORMBNB, STORMBTC, STORMETH, STRATBTC, STRATETH, SUBBTC,
    SUBETH, SYSBNB, SYSBTC, SYSETH, THETABNB, THETABTC, THETAETH, TNBBTC,
    TNBETH, TNTBTC, TNTETH, TRIGBNB, TRIGBTC, TRIGETH, TRXBNB, TRXBTC,
    TRXETH, TRXPAX, TRXTUSD, TRXUSDC, TRXUSDT, TRXXRP, TUSDBNB, TUSDBTC,
    TUSDETH, TUSDUSDT, USDCBNB, USDCBTC, USDCPAX, USDCTUSD, USDCUSDT, VENBNB,
    VENBTC, VENETH, VENUSDT, VETBNB, VETBTC, VETETH, VETUSDT, VIABNB,
    VIABTC, VIAETH, VIBBTC, VIBEBTC, VIBEETH, VIBETH, WABIBNB, WABIBTC,
    WABIETH, WANBNB, WANBTC, WANETH, WAVESBNB, WAVESBTC, WAVESETH, WAVESPAX,
    WAVESTUSD, WAVESUSDC, WAVESUSDT, WINGSBTC, WINGSETH, WPRBTC, WPRETH, WTCBNB,
    WTCBTC, WTCETH, XEMBNB, XEMBTC, XEMETH, XLMBNB, XLMBTC, XLMETH,
    XLMPAX, XLMTUSD, XLMUSDC, XLMUSDT, XMRBTC, XMRETH, XRPBNB, XRPBTC,
    XRPETH, XRPPAX, XRPTUSD, XRPUSDC, XRPUSDT, XVGBTC, XVGETH, XZCBNB,
    XZCBTC, XZCETH, XZCXRP, YOYOBNB, YOYOBTC, YOYOETH, ZECBTC, ZECETH,
    ZENBNB, ZENBTC, ZENETH, ZILBNB, ZILBTC, ZILETH, ZRXBTC, ZRXETH,
}

/// The exact wire spelling of a trading pair.
pub open spec fn wire_str(p: CurrencyPair) -> Seq<char> {
    match p {
        CurrencyPair::ADABNB => "ADABNB"@,
        CurrencyPair::ADABTC => "ADABTC"@,
        CurrencyPair::ADAETH => "ADAETH"@,
        CurrencyPair::ADATUSD => "ADATUSD"@,
        CurrencyPair::ADAUSDT => "ADAUSDT"@,
        CurrencyPair::ADXBNB => "ADXBNB"@,
        CurrencyPair::ADXBTC => "ADXBTC"@,
        CurrencyPair::ADXETH => "ADXETH"@,
        CurrencyPair::AEBNB => "AEBNB"@,
        CurrencyPair::AEBTC => "AEBTC"@,
        CurrencyPair::AEETH => "AEETH"@,
        CurrencyPair::AGIBNB => "AGIBNB"@,
        CurrencyPair::AGIBTC => "AGIBTC"@,
        CurrencyPair::AGIETH => "AGIETH"@,
        CurrencyPair::AIONBNB => "AIONBNB"@,
        CurrencyPair::AIONBTC => "AIONBTC"@,
        CurrencyPair::AIONETH => "AIONETH"@,
        CurrencyPair::AMBBNB => "AMBBNB"@,
        CurrencyPair::AMBBTC => "AMBBTC"@,
        CurrencyPair::AMBETH => "AMBETH"@,
        CurrencyPair::APPCBNB => "APPCBNB"@,
        CurrencyPair::APPCBTC => "APPCBTC"@,
        CurrencyPair::APPCETH => "APPCETH"@,
        CurrencyPair::ARDRBNB => "ARDRBNB"@,
        CurrencyPair::ARDRBTC => "ARDRBTC"@,
        CurrencyPair::ARDRETH => "ARDRETH"@,
        CurrencyPair::ARKBTC => "ARKBTC"@,
        CurrencyPair::ARKETH => "ARKETH"@,
        CurrencyPair::ARNBTC => "ARNBTC"@,
        CurrencyPair::ARNETH => "ARNETH"@,
        CurrencyPair::ASTBTC => "ASTBTC"@,
        CurrencyPair::ASTETH => "ASTETH"@,
        CurrencyPair::BATBNB => "BATBNB"@,
        CurrencyPair::BATBTC => "BATBTC"@,
        CurrencyPair::BATETH => "BATETH"@,
        CurrencyPair::BCCBNB => "BCCBNB"@,
        CurrencyPair::BCCBTC => "BCCBTC"@,
        CurrencyPair::BCCETH => "BCCETH"@,
        CurrencyPair::BCCUSDT => "BCCUSDT"@,
        CurrencyPair::BCDBTC => "BCDBTC"@,
        CurrencyPair::BCDETH => "BCDETH"@,
        CurrencyPair::BCHABCBTC => "BCHABCBTC"@,
        CurrencyPair::BCHABCPAX => "BCHABCPAX"@,
        CurrencyPair::BCHABCTUSD => "BCHABCTUSD"@,
        CurrencyPair::BCHABCUSDC => "BCHABCUSDC"@,
        CurrencyPair::BCHABCUSDT => "BCHABCUSDT"@,
        CurrencyPair::BCHSVBTC => "BCHSVBTC"@,
        CurrencyPair::BCHSVPAX => "BCHSVPAX"@,
        CurrencyPair::BCHSVTUSD => "BCHSVTUSD"@,
        CurrencyPair::BCHSVUSDC => "BCHSVUSDC"@,
        CurrencyPair::BCHSVUSDT => "BCHSVUSDT"@,
        CurrencyPair::BCNBNB => "BCNBNB"@,
        CurrencyPair::BCNBTC => "BCNBTC"@,
        CurrencyPair::BCNETH => "BCNETH"@,
        CurrencyPair::BCPTBNB => "BCPTBNB"@,
        CurrencyPair::BCPTBTC => "BCPTBTC"@,
        CurrencyPair::BCPTETH => "BCPTETH"@,
        CurrencyPair::BLZBNB => "BLZBNB"@,
        CurrencyPair::BLZBTC => "BLZBTC"@,
        CurrencyPair::BLZETH => "BLZETH"@,
        CurrencyPair::BNBBTC => "BNBBTC"@,
        CurrencyPair::BNBETH => "BNBETH"@,
        CurrencyPair::BNBPAX => "BNBPAX"@,
        CurrencyPair::BNBUSDC => "BNBUSDC"@,
        CurrencyPair::BNBUSDT => "BNBUSDT"@,
        CurrencyPair::BNTBTC => "BNTBTC"@,
        CurrencyPair::BNTETH => "BNTETH"@,
        CurrencyPair::BQXBTC => "BQXBTC"@,
        CurrencyPair::BQXETH => "BQXETH"@,
        CurrencyPair::BRDBNB => "BRDBNB"@,
        CurrencyPair::BRDBTC => "BRDBTC"@,
        CurrencyPair::BRDETH => "BRDETH"@,
        CurrencyPair::BTCPAX => "BTCPAX"@,
        CurrencyPair::BTCUSDC => "BTCUSDC"@,
        CurrencyPair::BTCUSDT => "BTCUSDT"@,
        CurrencyPair::BTGBTC => "BTGBTC"@,
        CurrencyPair::BTGETH => "BTGETH"@,
        CurrencyPair::BTSBNB => "BTSBNB"@,
        CurrencyPair::BTSBTC => "BTSBTC"@,
        CurrencyPair::BTSETH => "BTSETH"@,
        CurrencyPair::BTTBNB => "BTTBNB"@,
        CurrencyPair::BTTBTC => "BTTBTC"@,
        CurrencyPair::BTTUSDT => "BTTUSDT"@,
        CurrencyPair::CDTBTC => "CDTBTC"@,
        CurrencyPair::CDTETH => "CDTETH"@,
        CurrencyPair::CHATBTC => "CHATBTC"@,
        CurrencyPair::CHATETH => "CHATETH"@,
        CurrencyPair::CLOAKBTC => "CLOAKBTC"@,
        CurrencyPair::CLOAKETH => "CLOAKETH"@,
        CurrencyPair::CMTBNB => "CMTBNB"@,
        CurrencyPair::CMTBTC => "CMTBTC"@,
        CurrencyPair::CMTETH => "CMTETH"@,
        CurrencyPair::CNDBNB => "CNDBNB"@,
        CurrencyPair::CNDBTC => "CNDBTC"@,
        CurrencyPair::CNDETH => "CNDETH"@,
        CurrencyPair::CVCBNB => "CVCBNB"@,
        CurrencyPair::CVCBTC => "CVCBTC"@,
        CurrencyPair::CVCETH => "CVCETH"@,
        CurrencyPair::DASHBTC => "DASHBTC"@,
        CurrencyPair::DASHETH => "DASHETH"@,
        CurrencyPair::DATABTC => "DATABTC"@,
        CurrencyPair::DATAETH => "DATAETH"@,
        CurrencyPair::DCRBNB => "DCRBNB"@,
        CurrencyPair::DCRBTC => "DCRBTC"@,
        CurrencyPair::DENTBTC => "DENTBTC"@,
        CurrencyPair::DENTETH => "DENTETH"@,
        CurrencyPair::DGDBTC => "DGDBTC"@,
        CurrencyPair::DGDETH => "DGDETH"@,
        CurrencyPair::DLTBNB => "DLTBNB"@,
        CurrencyPair::DLTBTC => "DLTBTC"@,
        CurrencyPair::DLTETH => "DLTETH"@,
        CurrencyPair::DNTBTC => "DNTBTC"@,
        CurrencyPair::DNTETH => "DNTETH"@,
        CurrencyPair::DOCKBTC => "DOCKBTC"@,
        CurrencyPair::DOCKETH => "DOCKETH"@,
        CurrencyPair::EDOBTC => "EDOBTC"@,
        CurrencyPair::EDOETH => "EDOETH"@,
        CurrencyPair::ELFBTC => "ELFBTC"@,
        CurrencyPair::ELFETH => "ELFETH"@,
        CurrencyPair::ENGBTC => "ENGBTC"@,
        CurrencyPair::ENGETH => "ENGETH"@,
        CurrencyPair::ENJBNB => "ENJBNB"@,
        CurrencyPair::ENJBTC => "ENJBTC"@,
        CurrencyPair::ENJETH => "ENJETH"@,
        CurrencyPair::EOSBNB => "EOSBNB"@,
        CurrencyPair::EOSBTC => "EOSBTC"@,
        CurrencyPair::EOSETH => "EOSETH"@,
        CurrencyPair::EOSPAX => "EOSPAX"@,
        CurrencyPair::EOSTUSD => "EOSTUSD"@,
        CurrencyPair::EOSUSDC => "EOSUSDC"@,
        CurrencyPair::EOSUSDT => "EOSUSDT"@,
        CurrencyPair::ETCBNB => "ETCBNB"@,
        CurrencyPair::ETCBTC => "ETCBTC"@,
        CurrencyPair::ETCETH => "ETCETH"@,
        CurrencyPair::ETCUSDT => "ETCUSDT"@,
        CurrencyPair::ETHBTC => "ETHBTC"@,
        CurrencyPair::ETHPAX => "ETHPAX"@,
        CurrencyPair::ETHUSDC => "ETHUSDC"@,
        CurrencyPair::ETHUSDT => "ETHUSDT"@,
        CurrencyPair::EVXBTC => "EVXBTC"@,
        CurrencyPair::EVXETH => "EVXETH"@,
        CurrencyPair::FUELBTC => "FUELBTC"@,
        CurrencyPair::FUELETH => "FUELETH"@,
        CurrencyPair::FUNBTC => "FUNBTC"@,
        CurrencyPair::FUNETH => "FUNETH"@,
        CurrencyPair::GASBTC => "GASBTC"@,
        CurrencyPair::GNTBNB => "GNTBNB"@,
        CurrencyPair::GNTBTC => "GNTBTC"@,
        CurrencyPair::GNTETH => "GNTETH"@,
        CurrencyPair::GOBNB => "GOBNB"@,
        CurrencyPair::GOBTC => "GOBTC"@,
        CurrencyPair::GRSBTC => "GRSBTC"@,
        CurrencyPair::GRSETH => "GRSETH"@,
        CurrencyPair::GTOBNB => "GTOBNB"@,
        CurrencyPair::GTOBTC => "GTOBTC"@,
        CurrencyPair::GTOETH => "GTOETH"@,
        CurrencyPair::GVTBTC => "GVTBTC"@,
        CurrencyPair::GVTETH => "GVTETH"@,
        CurrencyPair::GXSBTC => "GXSBTC"@,
        CurrencyPair::GXSETH => "GXSETH"@,
        CurrencyPair::HCBTC => "HCBTC"@,
        CurrencyPair::HCETH => "HCETH"@,
        CurrencyPair::HOTBTC => "HOTBTC"@,
        CurrencyPair::HOTETH => "HOTETH"@,
        CurrencyPair::HSRBTC => "HSRBTC"@,
        CurrencyPair::HSRETH => "HSRETH"@,
        CurrencyPair::ICNBTC => "ICNBTC"@,
        CurrencyPair::ICNETH => "ICNETH"@,
        CurrencyPair::ICXBNB => "ICXBNB"@,
        CurrencyPair::ICXBTC => "ICXBTC"@,
        CurrencyPair::ICXETH => "ICXETH"@,
        CurrencyPair::ICXUSDT => "ICXUSDT"@,
        CurrencyPair::INSBTC => "INSBTC"@,
        CurrencyPair::INSETH => "INSETH"@,
        CurrencyPair::IOSTBTC => "IOSTBTC"@,
        CurrencyPair::IOSTETH => "IOSTETH"@,
        CurrencyPair::IOTABNB => "IOTABNB"@,
        CurrencyPair::IOTABTC => "IOTABTC"@,
        CurrencyPair::IOTAETH => "IOTAETH"@,
        CurrencyPair::IOTAUSDT => "IOTAUSDT"@,
        CurrencyPair::IOTXBTC => "IOTXBTC"@,
        CurrencyPair::IOTXETH => "IOTXETH"@,
        CurrencyPair::KEYBTC => "KEYBTC"@,
        CurrencyPair::KEYETH => "KEYETH"@,
        CurrencyPair::KMDBTC => "KMDBTC"@,
        CurrencyPair::KMDETH => "KMDETH"@,
        CurrencyPair::KNCBTC => "KNCBTC"@,
        CurrencyPair::KNCETH => "KNCETH"@,
        CurrencyPair::LENDBTC => "LENDBTC"@,
        CurrencyPair::LENDETH => "LENDETH"@,
        CurrencyPair::LINKBTC => "LINKBTC"@,
        CurrencyPair::LINKETH => "LINKETH"@,
        CurrencyPair::LINKPAX => "LINKPAX"@,
        CurrencyPair::LINKTUSD => "LINKTUSD"@,
        CurrencyPair::LINKUSDC => "LINKUSDC"@,
        CurrencyPair::LINKUSDT => "LINKUSDT"@,
        CurrencyPair::LOOMBNB => "LOOMBNB"@,
        CurrencyPair::LOOMBTC => "LOOMBTC"@,
        CurrencyPair::LOOMETH => "LOOMETH"@,
        CurrencyPair::LRCBTC => "LRCBTC"@,
        CurrencyPair::LRCETH => "LRCETH"@,
        CurrencyPair::LSKBNB => "LSKBNB"@,
        CurrencyPair::LSKBTC => "LSKBTC"@,
        CurrencyPair::LSKETH => "LSKETH"@,
        CurrencyPair::LTCBNB => "LTCBNB"@,
        CurrencyPair::LTCBTC => "LTCBTC"@,
        CurrencyPair::LTCETH => "LTCETH"@,
        CurrencyPair::LTCPAX => "LTCPAX"@,
        CurrencyPair::LTCTUSD => "LTCTUSD"@,
        CurrencyPair::LTCUSDC => "LTCUSDC"@,
        CurrencyPair::LTCUSDT => "LTCUSDT"@,
        CurrencyPair::LUNBTC => "LUNBTC"@,
        CurrencyPair::LUNETH => "LUNETH"@,
        CurrencyPair::MANABTC => "MANABTC"@,
        CurrencyPair::MANAETH => "MANAETH"@,
        CurrencyPair::MCOBNB => "MCOBNB"@,
        CurrencyPair::MCOBTC => "MCOBTC"@,
        CurrencyPair::MCOETH => "MCOETH"@,
        CurrencyPair::MDABTC => "MDABTC"@,
        CurrencyPair::MDAETH => "MDAETH"@,
        CurrencyPair::MFTBNB => "MFTBNB"@,
        CurrencyPair::MFTBTC => "MFTBTC"@,
        CurrencyPair::MFTETH => "MFTETH"@,
        CurrencyPair::MITHBNB => "MITHBNB"@,
        CurrencyPair::MITHBTC => "MITHBTC"@,
        CurrencyPair::MODBTC => "MODBTC"@,
        CurrencyPair::MODETH => "MODETH"@,
        CurrencyPair::MTHBTC => "MTHBTC"@,
        CurrencyPair::MTHETH => "MTHETH"@,
        CurrencyPair::MTLBTC => "MTLBTC"@,
        CurrencyPair::MTLETH => "MTLETH"@,
        CurrencyPair::NANOBNB => "NANOBNB"@,
        CurrencyPair::NANOBTC => "NANOBTC"@,
        CurrencyPair::NANOETH => "NANOETH"@,
        CurrencyPair::NASBNB => "NASBNB"@,
        CurrencyPair::NASBTC => "NASBTC"@,
        CurrencyPair::NASETH => "NASETH"@,
        CurrencyPair::NAVBNB => "NAVBNB"@,
        CurrencyPair::NAVBTC => "NAVBTC"@,
        CurrencyPair::NAVETH => "NAVETH"@,
        CurrencyPair::NCASHBNB => "NCASHBNB"@,
        CurrencyPair::NCASHBTC => "NCASHBTC"@,
        CurrencyPair::NCASHETH => "NCASHETH"@,
        CurrencyPair::NEBLBNB => "NEBLBNB"@,
        CurrencyPair::NEBLBTC => "NEBLBTC"@,
        CurrencyPair::NEBLETH => "NEBLETH"@,
        CurrencyPair::NEOBNB => "NEOBNB"@,
        CurrencyPair::NEOBTC => "NEOBTC"@,
        CurrencyPair::NEOETH => "NEOETH"@,
        CurrencyPair::NEOTUSD => "NEOTUSD"@,
        CurrencyPair::NEOUSDT => "NEOUSDT"@,
        CurrencyPair::NPXSBTC => "NPXSBTC"@,
        CurrencyPair::NPXSETH => "NPXSETH"@,
        CurrencyPair::NULSBNB => "NULSBNB"@,
        CurrencyPair::NULSBTC => "NULSBTC"@,
        CurrencyPair::NULSETH => "NULSETH"@,
        CurrencyPair::NULSUSDT => "NULSUSDT"@,
        CurrencyPair::NXSBNB => "NXSBNB"@,
        CurrencyPair::NXSBTC => "NXSBTC"@,
        CurrencyPair::NXSETH => "NXSETH"@,
        CurrencyPair::OAXBTC => "OAXBTC"@,
        CurrencyPair::OAXETH => "OAXETH"@,
        CurrencyPair::OMGBTC => "OMGBTC"@,
        CurrencyPair::OMGETH => "OMGETH"@,
        CurrencyPair::ONTBNB => "ONTBNB"@,
        CurrencyPair::ONTBTC => "ONTBTC"@,
        CurrencyPair::ONTETH => "ONTETH"@,
        CurrencyPair::ONTUSDT => "ONTUSDT"@,
        CurrencyPair::OSTBNB => "OSTBNB"@,
        CurrencyPair::OSTBTC => "OSTBTC"@,
        CurrencyPair::OSTETH => "OSTETH"@,
        CurrencyPair::PAXBNB => "PAXBNB"@,
        CurrencyPair::PAXBTC => "PAXBTC"@,
        CurrencyPair::PAXETH => "PAXETH"@,
        CurrencyPair::PAXTUSD => "PAXTUSD"@,
        CurrencyPair::PAXUSDT => "PAXUSDT"@,
        CurrencyPair::PHXBNB => "PHXBNB"@,
        CurrencyPair::PHXBTC => "PHXBTC"@,
        CurrencyPair::PHXETH => "PHXETH"@,
        CurrencyPair::PIVXBNB => "PIVXBNB"@,
        CurrencyPair::PIVXBTC => "PIVXBTC"@,
        CurrencyPair::PIVXETH => "PIVXETH"@,
        CurrencyPair::POABNB => "POABNB"@,
        CurrencyPair::POABTC => "POABTC"@,
        CurrencyPair::POAETH => "POAETH"@,
        CurrencyPair::POEBTC => "POEBTC"@,
        CurrencyPair::POEETH => "POEETH"@,
        CurrencyPair::POLYBNB => "POLYBNB"@,
        CurrencyPair::POLYBTC => "POLYBTC"@,
        CurrencyPair::POWRBNB => "POWRBNB"@,
        CurrencyPair::POWRBTC => "POWRBTC"@,
        CurrencyPair::POWRETH => "POWRETH"@,
        CurrencyPair::PPTBTC => "PPTBTC"@,
        CurrencyPair::PPTETH => "PPTETH"@,
        CurrencyPair::QKCBTC => "QKCBTC"@,
        CurrencyPair::QKCETH => "QKCETH"@,
        CurrencyPair::QLCBNB => "QLCBNB"@,
        CurrencyPair::QLCBTC => "QLCBTC"@,
        CurrencyPair::QLCETH => "QLCETH"@,
        CurrencyPair::QSPBNB => "QSPBNB"@,
        CurrencyPair::QSPBTC => "QSPBTC"@,
        CurrencyPair::QSPETH => "QSPETH"@,
        CurrencyPair::QTUMBNB => "QTUMBNB"@,
        CurrencyPair::QTUMBTC => "QTUMBTC"@,
        CurrencyPair::QTUMETH => "QTUMETH"@,
        CurrencyPair::QTUMUSDT => "QTUMUSDT"@,
        CurrencyPair::RCNBNB => "RCNBNB"@,
        CurrencyPair::RCNBTC => "RCNBTC"@,
        CurrencyPair::RCNETH => "RCNETH"@,
        CurrencyPair::RDNBNB => "RDNBNB"@,
        CurrencyPair::RDNBTC => "RDNBTC"@,
        CurrencyPair::RDNETH => "RDNETH"@,
        CurrencyPair::RENBNB => "RENBNB"@,
        CurrencyPair::RENBTC => "RENBTC"@,
        CurrencyPair::REPBNB => "REPBNB"@,
        CurrencyPair::REPBTC => "REPBTC"@,
        CurrencyPair::REPETH => "REPETH"@,
        CurrencyPair::REQBTC => "REQBTC"@,
        CurrencyPair::REQETH => "REQETH"@,
        CurrencyPair::RLCBNB => "RLCBNB"@,
        CurrencyPair::RLCBTC => "RLCBTC"@,
        CurrencyPair::RLCETH => "RLCETH"@,
        CurrencyPair::RPXBNB => "RPXBNB"@,
        CurrencyPair::RPXBTC => "RPXBTC"@,
        CurrencyPair::RPXETH => "RPXETH"@,
        CurrencyPair::RVNBNB => "RVNBNB"@,
        CurrencyPair::RVNBTC => "RVNBTC"@,
        CurrencyPair::SALTBTC => "SALTBTC"@,
        CurrencyPair::SALTETH => "SALTETH"@,
        CurrencyPair::SCBNB => "SCBNB"@,
        CurrencyPair::SCBTC => "SCBTC"@,
        CurrencyPair::SCETH => "SCETH"@,
        CurrencyPair::SKYBNB => "SKYBNB"@,
        CurrencyPair::SKYBTC => "SKYBTC"@,
        CurrencyPair::SKYETH => "SKYETH"@,
        CurrencyPair::SNGLSBTC => "SNGLSBTC"@,
        CurrencyPair::SNGLSETH => "SNGLSETH"@,
        CurrencyPair::SNMBTC => "SNMBTC"@,
        CurrencyPair::SNMETH => "SNMETH"@,
        CurrencyPair::SNTBTC => "SNTBTC"@,
        CurrencyPair::SNTETH => "SNTETH"@,
        CurrencyPair::STEEMBNB => "STEEMBNB"@,
        CurrencyPair::STEEMBTC => "STEEMBTC"@,
        CurrencyPair::STEEMETH => "STEEMETH"@,
        CurrencyPair::STORJBTC => "STORJBTC"@,
        CurrencyPair::STORJETH => "STORJETH"@,
        CurrencyPair::STORMBNB => "STORMBNB"@,
        CurrencyPair::STORMBTC => "STORMBTC"@,
        CurrencyPair::STORMETH => "STORMETH"@,
        CurrencyPair::STRATBTC => "STRATBTC"@,
        CurrencyPair::STRATETH => "STRATETH"@,
        CurrencyPair::SUBBTC => "SUBBTC"@,
        CurrencyPair::SUBETH => "SUBETH"@,
        CurrencyPair::SYSBNB => "SYSBNB"@,
        CurrencyPair::SYSBTC => "SYSBTC"@,
        CurrencyPair::SYSETH => "SYSETH"@,
        CurrencyPair::THETABNB => "THETABNB"@,
        CurrencyPair::THETABTC => "THETABTC"@,
        CurrencyPair::THETAETH => "THETAETH"@,
        CurrencyPair::TNBBTC => "TNBBTC"@,
        CurrencyPair::TNBETH => "TNBETH"@,
        CurrencyPair::TNTBTC => "TNTBTC"@,
        CurrencyPair::TNTETH => "TNTETH"@,
        CurrencyPair::TRIGBNB => "TRIGBNB"@,
        CurrencyPair::TRIGBTC => "TRIGBTC"@,
        CurrencyPair::TRIGETH => "TRIGETH"@,
        CurrencyPair::TRXBNB => "TRXBNB"@,
        CurrencyPair::TRXBTC => "TRXBTC"@,
        CurrencyPair::TRXETH => "TRXETH"@,
        CurrencyPair::TRXPAX => "TRXPAX"@,
        CurrencyPair::TRXTUSD => "TRXTUSD"@,
        CurrencyPair::TRXUSDC => "TRXUSDC"@,
        CurrencyPair::TRXUSDT => "TRXUSDT"@,
        CurrencyPair::TRXXRP => "TRXXRP"@,
        CurrencyPair::TUSDBNB => "TUSDBNB"@,
        CurrencyPair::TUSDBTC => "TUSDBTC"@,
        CurrencyPair::TUSDETH => "TUSDETH"@,
        CurrencyPair::TUSDUSDT => "TUSDUSDT"@,
        CurrencyPair::USDCBNB => "USDCBNB"@,
        CurrencyPair::USDCBTC => "USDCBTC"@,
        CurrencyPair::USDCPAX => "USDCPAX"@,
        CurrencyPair::USDCTUSD => "USDCTUSD"@,
        CurrencyPair::USDCUSDT => "USDCUSDT"@,
        CurrencyPair::VENBNB => "VENBNB"@,
        CurrencyPair::VENBTC => "VENBTC"@,
        CurrencyPair::VENETH => "VENETH"@,
        CurrencyPair::VENUSDT => "VENUSDT"@,
        CurrencyPair::VETBNB => "VETBNB"@,
        CurrencyPair::VETBTC => "VETBTC"@,
        CurrencyPair::VETETH => "VETETH"@,
        CurrencyPair::VETUSDT => "VETUSDT"@,
        CurrencyPair::VIABNB => "VIABNB"@,
        CurrencyPair::VIABTC => "VIABTC"@,
        CurrencyPair::VIAETH => "VIAETH"@,
        CurrencyPair::VIBBTC => "VIBBTC"@,
        CurrencyPair::VIBEBTC => "VIBEBTC"@,
        CurrencyPair::VIBEETH => "VIBEETH"@,
        CurrencyPair::VIBETH => "VIBETH"@,
        CurrencyPair::WABIBNB => "WABIBNB"@,
        CurrencyPair::WABIBTC => "WABIBTC"@,
        CurrencyPair::WABIETH => "WABIETH"@,
        CurrencyPair::WANBNB => "WANBNB"@,
        CurrencyPair::WANBTC => "WANBTC"@,
        CurrencyPair::WANETH => "WANETH"@,
        CurrencyPair::WAVESBNB => "WAVESBNB"@,
        CurrencyPair::WAVESBTC => "WAVESBTC"@,
        CurrencyPair::WAVESETH => "WAVESETH"@,
        CurrencyPair::WAVESPAX => "WAVESPAX"@,
        CurrencyPair::WAVESTUSD => "WAVESTUSD"@,
        CurrencyPair::WAVESUSDC => "WAVESUSDC"@,
        CurrencyPair::WAVESUSDT => "WAVESUSDT"@,
        CurrencyPair::WINGSBTC => "WINGSBTC"@,
        CurrencyPair::WINGSETH => "WINGSETH"@,
        CurrencyPair::WPRBTC => "WPRBTC"@,
        CurrencyPair::WPRETH => "WPRETH"@,
        CurrencyPair::WTCBNB => "WTCBNB"@,
        CurrencyPair::WTCBTC => "WTCBTC"@,
        CurrencyPair::WTCETH => "WTCETH"@,
        CurrencyPair::XEMBNB => "XEMBNB"@,
        CurrencyPair::XEMBTC => "XEMBTC"@,
        CurrencyPair::XEMETH => "XEMETH"@,
        CurrencyPair::XLMBNB => "XLMBNB"@,
        CurrencyPair::XLMBTC => "XLMBTC"@,
        CurrencyPair::XLMETH => "XLMETH"@,
        CurrencyPair::XLMPAX => "XLMPAX"@,
        CurrencyPair::XLMTUSD => "XLMTUSD"@,
        CurrencyPair::XLMUSDC => "XLMUSDC"@,
        CurrencyPair::XLMUSDT => "XLMUSDT"@,
        CurrencyPair::XMRBTC => "XMRBTC"@,
        CurrencyPair::XMRETH => "XMRETH"@,
        CurrencyPair::XRPBNB => "XRPBNB"@,
        CurrencyPair::XRPBTC => "XRPBTC"@,
        CurrencyPair::XRPETH => "XRPETH"@,
        CurrencyPair::XRPPAX => "XRPPAX"@,
        CurrencyPair::XRPTUSD => "XRPTUSD"@,
        CurrencyPair::XRPUSDC => "XRPUSDC"@,
        CurrencyPair::XRPUSDT => "XRPUSDT"@,
        CurrencyPair::XVGBTC => "XVGBTC"@,
        CurrencyPair::XVGETH => "XVGETH"@,
        CurrencyPair::XZCBNB => "XZCBNB"@,
        CurrencyPair::XZCBTC => "XZCBTC"@,
        CurrencyPair::XZCETH => "XZCETH"@,
        CurrencyPair::XZCXRP => "XZCXRP"@,
        CurrencyPair::YOYOBNB => "YOYOBNB"@,
        CurrencyPair::YOYOBTC => "YOYOBTC"@,
        CurrencyPair::YOYOETH => "YOYOETH"@,
        CurrencyPair::ZECBTC => "ZECBTC"@,
        CurrencyPair::ZECETH => "ZECETH"@,
        CurrencyPair::ZENBNB => "ZENBNB"@,
        CurrencyPair::ZENBTC => "ZENBTC"@,
        CurrencyPair::ZENETH => "ZENETH"@,
        CurrencyPair::ZILBNB => "ZILBNB"@,
        CurrencyPair::ZILBTC => "ZILBTC"@,
        CurrencyPair::ZILETH => "ZILETH"@,
        CurrencyPair::ZRXBTC => "ZRXBTC"@,
        CurrencyPair::ZRXETH => "ZRXETH"@,
    }
}

impl CurrencyPair {
    /// The exact wire spelling of the pair.
    pub fn as_str(&self) -> (r: &'static str)
        ensures
            r@ == wire_str(*self),
    {
        match self {
            CurrencyPair::ADABNB => "ADABNB",
            CurrencyPair::ADABTC => "ADABTC",
            CurrencyPair::ADAETH => "ADAETH",
            CurrencyPair::ADATUSD => "ADATUSD",
            CurrencyPair::ADAUSDT => "ADAUSDT",
            CurrencyPair::ADXBNB => "ADXBNB",
            CurrencyPair::ADXBTC => "ADXBTC",
            CurrencyPair::ADXETH => "ADXETH",
            CurrencyPair::AEBNB => "AEBNB",
            CurrencyPair::AEBTC => "AEBTC",
            CurrencyPair::AEETH => "AEETH",
            CurrencyPair::AGIBNB => "AGIBNB",
            CurrencyPair::AGIBTC => "AGIBTC",
            CurrencyPair::AGIETH => "AGIETH",
            CurrencyPair::AIONBNB => "AIONBNB",
            CurrencyPair::AIONBTC => "AIONBTC",
            CurrencyPair::AIONETH => "AIONETH",
            CurrencyPair::AMBBNB => "AMBBNB",
            CurrencyPair::AMBBTC => "AMBBTC",
            CurrencyPair::AMBETH => "AMBETH",
            CurrencyPair::APPCBNB => "APPCBNB",
            CurrencyPair::APPCBTC => "APPCBTC",
            CurrencyPair::APPCETH => "APPCETH",
            CurrencyPair::ARDRBNB => "ARDRBNB",
            CurrencyPair::ARDRBTC => "ARDRBTC",
            CurrencyPair::ARDRETH => "ARDRETH",
            CurrencyPair::ARKBTC => "ARKBTC",
            CurrencyPair::ARKETH => "ARKETH",
            CurrencyPair::ARNBTC => "ARNBTC",
            CurrencyPair::ARNETH => "ARNETH",
            CurrencyPair::ASTBTC => "ASTBTC",
            CurrencyPair::ASTETH => "ASTETH",
            CurrencyPair::BATBNB => "BATBNB",
            CurrencyPair::BATBTC => "BATBTC",
            CurrencyPair::BATETH => "BATETH",
            CurrencyPair::BCCBNB => "BCCBNB",
            CurrencyPair::BCCBTC => "BCCBTC",
            CurrencyPair::BCCETH => "BCCETH",
            CurrencyPair::BCCUSDT => "BCCUSDT",
            CurrencyPair::BCDBTC => "BCDBTC",
            CurrencyPair::BCDETH => "BCDETH",
            CurrencyPair::BCHABCBTC => "BCHABCBTC",
            CurrencyPair::BCHABCPAX => "BCHABCPAX",
            CurrencyPair::BCHABCTUSD => "BCHABCTUSD",
            CurrencyPair::BCHABCUSDC => "BCHABCUSDC",
            CurrencyPair::BCHABCUSDT => "BCHABCUSDT",
            CurrencyPair::BCHSVBTC => "BCHSVBTC",
            CurrencyPair::BCHSVPAX => "BCHSVPAX",
            CurrencyPair::BCHSVTUSD => "BCHSVTUSD",
            CurrencyPair::BCHSVUSDC => "BCHSVUSDC",
            CurrencyPair::BCHSVUSDT => "BCHSVUSDT",
            CurrencyPair::BCNBNB => "BCNBNB",
            CurrencyPair::BCNBTC => "BCNBTC",
            CurrencyPair::BCNETH => "BCNETH",
            CurrencyPair::BCPTBNB => "BCPTBNB",
            CurrencyPair::BCPTBTC => "BCPTBTC",
            CurrencyPair::BCPTETH => "BCPTETH",
            CurrencyPair::BLZBNB => "BLZBNB",
            CurrencyPair::BLZBTC => "BLZBTC",
            CurrencyPair::BLZETH => "BLZETH",
            CurrencyPair::BNBBTC => "BNBBTC",
            CurrencyPair::BNBETH => "BNBETH",
            CurrencyPair::BNBPAX => "BNBPAX",
            CurrencyPair::BNBUSDC => "BNBUSDC",
            CurrencyPair::BNBUSDT => "BNBUSDT",
            CurrencyPair::BNTBTC => "BNTBTC",
            CurrencyPair::BNTETH => "BNTETH",
            CurrencyPair::BQXBTC => "BQXBTC",
            CurrencyPair::BQXETH => "BQXETH",
            CurrencyPair::BRDBNB => "BRDBNB",
            CurrencyPair::BRDBTC => "BRDBTC",
            CurrencyPair::BRDETH => "BRDETH",
            CurrencyPair::BTCPAX => "BTCPAX",
            CurrencyPair::BTCUSDC => "BTCUSDC",
            CurrencyPair::BTCUSDT => "BTCUSDT",
            CurrencyPair::BTGBTC => "BTGBTC",
            CurrencyPair::BTGETH => "BTGETH",
            CurrencyPair::BTSBNB => "BTSBNB",
            CurrencyPair::BTSBTC => "BTSBTC",
            CurrencyPair::BTSETH => "BTSETH",
            CurrencyPair::BTTBNB => "BTTBNB",
            CurrencyPair::BTTBTC => "BTTBTC",
            CurrencyPair::BTTUSDT => "BTTUSDT",
            CurrencyPair::CDTBTC => "CDTBTC",
            CurrencyPair::CDTETH => "CDTETH",
            CurrencyPair::CHATBTC => "CHATBTC",
            CurrencyPair::CHATETH => "CHATETH",
            CurrencyPair::CLOAKBTC => "CLOAKBTC",
            CurrencyPair::CLOAKETH => "CLOAKETH",
            CurrencyPair::CMTBNB => "CMTBNB",
            CurrencyPair::CMTBTC => "CMTBTC",
            CurrencyPair::CMTETH => "CMTETH",
            CurrencyPair::CNDBNB => "CNDBNB",
            CurrencyPair::CNDBTC => "CNDBTC",
            CurrencyPair::CNDETH => "CNDETH",
            CurrencyPair::CVCBNB => "CVCBNB",
            CurrencyPair::CVCBTC => "CVCBTC",
            CurrencyPair::CVCETH => "CVCETH",
            CurrencyPair::DASHBTC => "DASHBTC",
            CurrencyPair::DASHETH => "DASHETH",
            CurrencyPair::DATABTC => "DATABTC",
            CurrencyPair::DATAETH => "DATAETH",
            CurrencyPair::DCRBNB => "DCRBNB",
            CurrencyPair::DCRBTC => "DCRBTC",
            CurrencyPair::DENTBTC => "DENTBTC",
            CurrencyPair::DENTETH => "DENTETH",
            CurrencyPair::DGDBTC => "DGDBTC",
            CurrencyPair::DGDETH => "DGDETH",
            CurrencyPair::DLTBNB => "DLTBNB",
            CurrencyPair::DLTBTC => "DLTBTC",
            CurrencyPair::DLTETH => "DLTETH",
            CurrencyPair::DNTBTC => "DNTBTC",
            CurrencyPair::DNTETH => "DNTETH",
            CurrencyPair::DOCKBTC => "DOCKBTC",
            CurrencyPair::DOCKETH => "DOCKETH",
            CurrencyPair::EDOBTC => "EDOBTC",
            CurrencyPair::EDOETH => "EDOETH",
            CurrencyPair::ELFBTC => "ELFBTC",
            CurrencyPair::ELFETH => "ELFETH",
            CurrencyPair::ENGBTC => "ENGBTC",
            CurrencyPair::ENGETH => "ENGETH",
            CurrencyPair::ENJBNB => "ENJBNB",
            CurrencyPair::ENJBTC => "ENJBTC",
            CurrencyPair::ENJETH => "ENJETH",
            CurrencyPair::EOSBNB => "EOSBNB",
            CurrencyPair::EOSBTC => "EOSBTC",
            CurrencyPair::EOSETH => "EOSETH",
            CurrencyPair::EOSPAX => "EOSPAX",
            CurrencyPair::EOSTUSD => "EOSTUSD",
            CurrencyPair::EOSUSDC => "EOSUSDC",
            CurrencyPair::EOSUSDT => "EOSUSDT",
            CurrencyPair::ETCBNB => "ETCBNB",
            CurrencyPair::ETCBTC => "ETCBTC",
            CurrencyPair::ETCETH => "ETCETH",
            CurrencyPair::ETCUSDT => "ETCUSDT",
            CurrencyPair::ETHBTC => "ETHBTC",
            CurrencyPair::ETHPAX => "ETHPAX",
            CurrencyPair::ETHUSDC => "ETHUSDC",
            CurrencyPair::ETHUSDT => "ETHUSDT",
            CurrencyPair::EVXBTC => "EVXBTC",
            CurrencyPair::EVXETH => "EVXETH",
            CurrencyPair::FUELBTC => "FUELBTC",
            CurrencyPair::FUELETH => "FUELETH",
            CurrencyPair::FUNBTC => "FUNBTC",
            CurrencyPair::FUNETH => "FUNETH",
            CurrencyPair::GASBTC => "GASBTC",
            CurrencyPair::GNTBNB => "GNTBNB",
            CurrencyPair::GNTBTC => "GNTBTC",
            CurrencyPair::GNTETH => "GNTETH",
            CurrencyPair::GOBNB => "GOBNB",
            CurrencyPair::GOBTC => "GOBTC",
            CurrencyPair::GRSBTC => "GRSBTC",
            CurrencyPair::GRSETH => "GRSETH",
            CurrencyPair::GTOBNB => "GTOBNB",
            CurrencyPair::GTOBTC => "GTOBTC",
            CurrencyPair::GTOETH => "GTOETH",
            CurrencyPair::GVTBTC => "GVTBTC",
            CurrencyPair::GVTETH => "GVTETH",
            CurrencyPair::GXSBTC => "GXSBTC",
            CurrencyPair::GXSETH => "GXSETH",
            CurrencyPair::HCBTC => "HCBTC",
            CurrencyPair::HCETH => "HCETH",
            CurrencyPair::HOTBTC => "HOTBTC",
            CurrencyPair::HOTETH => "HOTETH",
            CurrencyPair::HSRBTC => "HSRBTC",
            CurrencyPair::HSRETH => "HSRETH",
            CurrencyPair::ICNBTC => "ICNBTC",
            CurrencyPair::ICNETH => "ICNETH",
            CurrencyPair::ICXBNB => "ICXBNB",
            CurrencyPair::ICXBTC => "ICXBTC",
            CurrencyPair::ICXETH => "ICXETH",
            CurrencyPair::ICXUSDT => "ICXUSDT",
            CurrencyPair::INSBTC => "INSBTC",
            CurrencyPair::INSETH => "INSETH",
            CurrencyPair::IOSTBTC => "IOSTBTC",
            CurrencyPair::IOSTETH => "IOSTETH",
            CurrencyPair::IOTABNB => "IOTABNB",
            CurrencyPair::IOTABTC => "IOTABTC",
            CurrencyPair::IOTAETH => "IOTAETH",
            CurrencyPair::IOTAUSDT => "IOTAUSDT",
            CurrencyPair::IOTXBTC => "IOTXBTC",
            CurrencyPair::IOTXETH => "IOTXETH",
            CurrencyPair::KEYBTC => "KEYBTC",
            CurrencyPair::KEYETH => "KEYETH",
            CurrencyPair::KMDBTC => "KMDBTC",
            CurrencyPair::KMDETH => "KMDETH",
            CurrencyPair::KNCBTC => "KNCBTC",
            CurrencyPair::KNCETH => "KNCETH",
            CurrencyPair::LENDBTC => "LENDBTC",
            CurrencyPair::LENDETH => "LENDETH",
            CurrencyPair::LINKBTC => "LINKBTC",
            CurrencyPair::LINKETH => "LINKETH",
            CurrencyPair::LINKPAX => "LINKPAX",
            CurrencyPair::LINKTUSD => "LINKTUSD",
            CurrencyPair::LINKUSDC => "LINKUSDC",
            CurrencyPair::LINKUSDT => "LINKUSDT",
            CurrencyPair::LOOMBNB => "LOOMBNB",
            CurrencyPair::LOOMBTC => "LOOMBTC",
            CurrencyPair::LOOMETH => "LOOMETH",
            CurrencyPair::LRCBTC => "LRCBTC",
            CurrencyPair::LRCETH => "LRCETH",
            CurrencyPair::LSKBNB => "LSKBNB",
            CurrencyPair::LSKBTC => "LSKBTC",
            CurrencyPair::LSKETH => "LSKETH",
            CurrencyPair::LTCBNB => "LTCBNB",
            CurrencyPair::LTCBTC => "LTCBTC",
            CurrencyPair::LTCETH => "LTCETH",
            CurrencyPair::LTCPAX => "LTCPAX",
            CurrencyPair::LTCTUSD => "LTCTUSD",
            CurrencyPair::LTCUSDC => "LTCUSDC",
            CurrencyPair::LTCUSDT => "LTCUSDT",
            CurrencyPair::LUNBTC => "LUNBTC",
            CurrencyPair::LUNETH => "LUNETH",
            CurrencyPair::MANABTC => "MANABTC",
            CurrencyPair::MANAETH => "MANAETH",
            CurrencyPair::MCOBNB => "MCOBNB",
            CurrencyPair::MCOBTC => "MCOBTC",
            CurrencyPair::MCOETH => "MCOETH",
            CurrencyPair::MDABTC => "MDABTC",
            CurrencyPair::MDAETH => "MDAETH",
            CurrencyPair::MFTBNB => "MFTBNB",
            CurrencyPair::MFTBTC => "MFTBTC",
            CurrencyPair::MFTETH => "MFTETH",
            CurrencyPair::MITHBNB => "MITHBNB",
            CurrencyPair::MITHBTC => "MITHBTC",
            CurrencyPair::MODBTC => "MODBTC",
            CurrencyPair::MODETH => "MODETH",
            CurrencyPair::MTHBTC => "MTHBTC",
            CurrencyPair::MTHETH => "MTHETH",
            CurrencyPair::MTLBTC => "MTLBTC",
            CurrencyPair::MTLETH => "MTLETH",
            CurrencyPair::NANOBNB => "NANOBNB",
            CurrencyPair::NANOBTC => "NANOBTC",
            CurrencyPair::NANOETH => "NANOETH",
            CurrencyPair::NASBNB => "NASBNB",
            CurrencyPair::NASBTC => "NASBTC",
            CurrencyPair::NASETH => "NASETH",
            CurrencyPair::NAVBNB => "NAVBNB",
            CurrencyPair::NAVBTC => "NAVBTC",
            CurrencyPair::NAVETH => "NAVETH",
            CurrencyPair::NCASHBNB => "NCASHBNB",
            CurrencyPair::NCASHBTC => "NCASHBTC",
            CurrencyPair::NCASHETH => "NCASHETH",
            CurrencyPair::NEBLBNB => "NEBLBNB",
            CurrencyPair::NEBLBTC => "NEBLBTC",
            CurrencyPair::NEBLETH => "NEBLETH",
            CurrencyPair::NEOBNB => "NEOBNB",
            CurrencyPair::NEOBTC => "NEOBTC",
            CurrencyPair::NEOETH => "NEOETH",
            CurrencyPair::NEOTUSD => "NEOTUSD",
            CurrencyPair::NEOUSDT => "NEOUSDT",
            CurrencyPair::NPXSBTC => "NPXSBTC",
            CurrencyPair::NPXSETH => "NPXSETH",
            CurrencyPair::NULSBNB => "NULSBNB",
            CurrencyPair::NULSBTC => "NULSBTC",
            CurrencyPair::NULSETH => "NULSETH",
            CurrencyPair::NULSUSDT => "NULSUSDT",
            CurrencyPair::NXSBNB => "NXSBNB",
            CurrencyPair::NXSBTC => "NXSBTC",
            CurrencyPair::NXSETH => "NXSETH",
            CurrencyPair::OAXBTC => "OAXBTC",
            CurrencyPair::OAXETH => "OAXETH",
            CurrencyPair::OMGBTC => "OMGBTC",
            CurrencyPair::OMGETH => "OMGETH",
            CurrencyPair::ONTBNB => "ONTBNB",
            CurrencyPair::ONTBTC => "ONTBTC",
            CurrencyPair::ONTETH => "ONTETH",
            CurrencyPair::ONTUSDT => "ONTUSDT",
            CurrencyPair::OSTBNB => "OSTBNB",
            CurrencyPair::OSTBTC => "OSTBTC",
            CurrencyPair::OSTETH => "OSTETH",
            CurrencyPair::PAXBNB => "PAXBNB",
            CurrencyPair::PAXBTC => "PAXBTC",
            CurrencyPair::PAXETH => "PAXETH",
            CurrencyPair::PAXTUSD => "PAXTUSD",
            CurrencyPair::PAXUSDT => "PAXUSDT",
            CurrencyPair::PHXBNB => "PHXBNB",
            CurrencyPair::PHXBTC => "PHXBTC",
            CurrencyPair::PHXETH => "PHXETH",
            CurrencyPair::PIVXBNB => "PIVXBNB",
            CurrencyPair::PIVXBTC => "PIVXBTC",
            CurrencyPair::PIVXETH => "PIVXETH",
            CurrencyPair::POABNB => "POABNB",
            CurrencyPair::POABTC => "POABTC",
            CurrencyPair::POAETH => "POAETH",
            CurrencyPair::POEBTC => "POEBTC",
            CurrencyPair::POEETH => "POEETH",
            CurrencyPair::POLYBNB => "POLYBNB",
            CurrencyPair::POLYBTC => "POLYBTC",
            CurrencyPair::POWRBNB => "POWRBNB",
            CurrencyPair::POWRBTC => "POWRBTC",
            CurrencyPair::POWRETH => "POWRETH",
            CurrencyPair::PPTBTC => "PPTBTC",
            CurrencyPair::PPTETH => "PPTETH",
            CurrencyPair::QKCBTC => "QKCBTC",
            CurrencyPair::QKCETH => "QKCETH",
            CurrencyPair::QLCBNB => "QLCBNB",
            CurrencyPair::QLCBTC => "QLCBTC",
            CurrencyPair::QLCETH => "QLCETH",
            CurrencyPair::QSPBNB => "QSPBNB",
            CurrencyPair::QSPBTC => "QSPBTC",
            CurrencyPair::QSPETH => "QSPETH",
            CurrencyPair::QTUMBNB => "QTUMBNB",
            CurrencyPair::QTUMBTC => "QTUMBTC",
            CurrencyPair::QTUMETH => "QTUMETH",
            CurrencyPair::QTUMUSDT => "QTUMUSDT",
            CurrencyPair::RCNBNB => "RCNBNB",
            CurrencyPair::RCNBTC => "RCNBTC",
            CurrencyPair::RCNETH => "RCNETH",
            CurrencyPair::RDNBNB => "RDNBNB",
            CurrencyPair::RDNBTC => "RDNBTC",
            CurrencyPair::RDNETH => "RDNETH",
            CurrencyPair::RENBNB => "RENBNB",
            CurrencyPair::RENBTC => "RENBTC",
            CurrencyPair::REPBNB => "REPBNB",
            CurrencyPair::REPBTC => "REPBTC",
            CurrencyPair::REPETH => "REPETH",
            CurrencyPair::REQBTC => "REQBTC",
            CurrencyPair::REQETH => "REQETH",
            CurrencyPair::RLCBNB => "RLCBNB",
            CurrencyPair::RLCBTC => "RLCBTC",
            CurrencyPair::RLCETH => "RLCETH",
            CurrencyPair::RPXBNB => "RPXBNB",
            CurrencyPair::RPXBTC => "RPXBTC",
            CurrencyPair::RPXETH => "RPXETH",
            CurrencyPair::RVNBNB => "RVNBNB",
            CurrencyPair::RVNBTC => "RVNBTC",
            CurrencyPair::SALTBTC => "SALTBTC",
            CurrencyPair::SALTETH => "SALTETH",
            CurrencyPair::SCBNB => "SCBNB",
            CurrencyPair::SCBTC => "SCBTC",
            CurrencyPair::SCETH => "SCETH",
            CurrencyPair::SKYBNB => "SKYBNB",
            CurrencyPair::SKYBTC => "SKYBTC",
            CurrencyPair::SKYETH => "SKYETH",
            CurrencyPair::SNGLSBTC => "SNGLSBTC",
            CurrencyPair::SNGLSETH => "SNGLSETH",
            CurrencyPair::SNMBTC => "SNMBTC",
            CurrencyPair::SNMETH => "SNMETH",
            CurrencyPair::SNTBTC => "SNTBTC",
            CurrencyPair::SNTETH => "SNTETH",
            CurrencyPair::STEEMBNB => "STEEMBNB",
            CurrencyPair::STEEMBTC => "STEEMBTC",
            CurrencyPair::STEEMETH => "STEEMETH",
            CurrencyPair::STORJBTC => "STORJBTC",
            CurrencyPair::STORJETH => "STORJETH",
            CurrencyPair::STORMBNB => "STORMBNB",
            CurrencyPair::STORMBTC => "STORMBTC",
            CurrencyPair::STORMETH => "STORMETH",
            CurrencyPair::STRATBTC => "STRATBTC",
            CurrencyPair::STRATETH => "STRATETH",
            CurrencyPair::SUBBTC => "SUBBTC",
            CurrencyPair::SUBETH => "SUBETH",
            CurrencyPair::SYSBNB => "SYSBNB",
            CurrencyPair::SYSBTC => "SYSBTC",
            CurrencyPair::SYSETH => "SYSETH",
            CurrencyPair::THETABNB => "THETABNB",
            CurrencyPair::THETABTC => "THETABTC",
            CurrencyPair::THETAETH => "THETAETH",
            CurrencyPair::TNBBTC => "TNBBTC",
            CurrencyPair::TNBETH => "TNBETH",
            CurrencyPair::TNTBTC => "TNTBTC",
            CurrencyPair::TNTETH => "TNTETH",
            CurrencyPair::TRIGBNB => "TRIGBNB",
            CurrencyPair::TRIGBTC => "TRIGBTC",
            CurrencyPair::TRIGETH => "TRIGETH",
            CurrencyPair::TRXBNB => "TRXBNB",
            CurrencyPair::TRXBTC => "TRXBTC",
            CurrencyPair::TRXETH => "TRXETH",
            CurrencyPair::TRXPAX => "TRXPAX",
            CurrencyPair::TRXTUSD => "TRXTUSD",
            CurrencyPair::TRXUSDC => "TRXUSDC",
            CurrencyPair::TRXUSDT => "TRXUSDT",
            CurrencyPair::TRXXRP => "TRXXRP",
            CurrencyPair::TUSDBNB => "TUSDBNB",
            CurrencyPair::TUSDBTC => "TUSDBTC",
            CurrencyPair::TUSDETH => "TUSDETH",
            CurrencyPair::TUSDUSDT => "TUSDUSDT",
            CurrencyPair::USDCBNB => "USDCBNB",
            CurrencyPair::USDCBTC => "USDCBTC",
            CurrencyPair::USDCPAX => "USDCPAX",
            CurrencyPair::USDCTUSD => "USDCTUSD",
            CurrencyPair::USDCUSDT => "USDCUSDT",
            CurrencyPair::VENBNB => "VENBNB",
            CurrencyPair::VENBTC => "VENBTC",
            CurrencyPair::VENETH => "VENETH",
            CurrencyPair::VENUSDT => "VENUSDT",
            CurrencyPair::VETBNB => "VETBNB",
            CurrencyPair::VETBTC => "VETBTC",
            CurrencyPair::VETETH => "VETETH",
            CurrencyPair::VETUSDT => "VETUSDT",
            CurrencyPair::VIABNB => "VIABNB",
            CurrencyPair::VIABTC => "VIABTC",
            CurrencyPair::VIAETH => "VIAETH",
            CurrencyPair::VIBBTC => "VIBBTC",
            CurrencyPair::VIBEBTC => "VIBEBTC",
            CurrencyPair::VIBEETH => "VIBEETH",
            CurrencyPair::VIBETH => "VIBETH",
            CurrencyPair::WABIBNB => "WABIBNB",
            CurrencyPair::WABIBTC => "WABIBTC",
            CurrencyPair::WABIETH => "WABIETH",
            CurrencyPair::WANBNB => "WANBNB",
            CurrencyPair::WANBTC => "WANBTC",
            CurrencyPair::WANETH => "WANETH",
            CurrencyPair::WAVESBNB => "WAVESBNB",
            CurrencyPair::WAVESBTC => "WAVESBTC",
            CurrencyPair::WAVESETH => "WAVESETH",
            CurrencyPair::WAVESPAX => "WAVESPAX",
            CurrencyPair::WAVESTUSD => "WAVESTUSD",
            CurrencyPair::WAVESUSDC => "WAVESUSDC",
            CurrencyPair::WAVESUSDT => "WAVESUSDT",
            CurrencyPair::WINGSBTC => "WINGSBTC",
            CurrencyPair::WINGSETH => "WINGSETH",
            CurrencyPair::WPRBTC => "WPRBTC",
            CurrencyPair::WPRETH => "WPRETH",
            CurrencyPair::WTCBNB => "WTCBNB",
            CurrencyPair::WTCBTC => "WTCBTC",
            CurrencyPair::WTCETH => "WTCETH",
            CurrencyPair::XEMBNB => "XEMBNB",
            CurrencyPair::XEMBTC => "XEMBTC",
            CurrencyPair::XEMETH => "XEMETH",
            CurrencyPair::XLMBNB => "XLMBNB",
            CurrencyPair::XLMBTC => "XLMBTC",
            CurrencyPair::XLMETH => "XLMETH",
            CurrencyPair::XLMPAX => "XLMPAX",
            CurrencyPair::XLMTUSD => "XLMTUSD",
            CurrencyPair::XLMUSDC => "XLMUSDC",
            CurrencyPair::XLMUSDT => "XLMUSDT",
            CurrencyPair::XMRBTC => "XMRBTC",
            CurrencyPair::XMRETH => "XMRETH",
            CurrencyPair::XRPBNB => "XRPBNB",
            CurrencyPair::XRPBTC => "XRPBTC",
            CurrencyPair::XRPETH => "XRPETH",
            CurrencyPair::XRPPAX => "XRPPAX",
            CurrencyPair::XRPTUSD => "XRPTUSD",
            CurrencyPair::XRPUSDC => "XRPUSDC",
            CurrencyPair::XRPUSDT => "XRPUSDT",
            CurrencyPair::XVGBTC => "XVGBTC",
            CurrencyPair::XVGETH => "XVGETH",
            CurrencyPair::XZCBNB => "XZCBNB",
            CurrencyPair::XZCBTC => "XZCBTC",
            CurrencyPair::XZCETH => "XZCETH",
            CurrencyPair::XZCXRP => "XZCXRP",
            CurrencyPair::YOYOBNB => "YOYOBNB",
            CurrencyPair::YOYOBTC => "YOYOBTC",
            CurrencyPair::YOYOETH => "YOYOETH",
            CurrencyPair::ZECBTC => "ZECBTC",
            CurrencyPair::ZECETH => "ZECETH",
            CurrencyPair::ZENBNB => "ZENBNB",
            CurrencyPair::ZENBTC => "ZENBTC",
            CurrencyPair::ZENETH => "ZENETH",
            CurrencyPair::ZILBNB => "ZILBNB",
            CurrencyPair::ZILBTC => "ZILBTC",
            CurrencyPair::ZILETH => "ZILETH",
            CurrencyPair::ZRXBTC => "ZRXBTC",
            CurrencyPair::ZRXETH => "ZRXETH",
        }
    }

    /// The exact wire spelling of the pair as an owned string.
    pub fn as_string(&self) -> (r: String)
        ensures
            r@ == wire_str(*self),
    {
        self.as_str().to_owned()
    }

    /// The lower-case spelling used in outbound stream subscriptions.
    pub fn to_lowercase(&self) -> (r: String)
        ensures
            r@ == ascii_lower_seq(wire_str(*self)),
    {
        lower_ascii_str(self.as_str())
    }

    /// Whether this pair is quoted in the given base currency.
    pub fn filter_base_pair(&self, base_pair: CurrencyBase) -> (r: bool)
        ensures
            r == seq_ends_with(wire_str(*self), base_wire_str(base_pair)),
    {
        str_ends_with(self.as_str(), base_pair.as_str())
    }
}

/// The lower-case wire spelling of a symbol, used when building outbound
/// subscription URLs.
pub fn to_wire_string(symbol: &CurrencyPair) -> (r: String)
    ensures
        r@ == ascii_lower_seq(wire_str(*symbol)),
{
    symbol.to_lowercase()
}

pub open spec fn lookup_ab(s: Seq<char>) -> Option<CurrencyPair> {
    if s == "ADABNB"@ {
        Some(CurrencyPair::ADABNB)
    } else if s == "ADABTC"@ {
        Some(CurrencyPair::ADABTC)
    } else if s == "ADAETH"@ {
        Some(CurrencyPair::ADAETH)
    } else if s == "ADATUSD"@ {
        Some(CurrencyPair::ADATUSD)
    } else if s == "ADAUSDT"@ {
        Some(CurrencyPair::ADAUSDT)
    } else if s == "ADXBNB"@ {
        Some(CurrencyPair::ADXBNB)
    } else if s == "ADXBTC"@ {
        Some(CurrencyPair::ADXBTC)
    } else if s == "ADXETH"@ {
        Some(CurrencyPair::ADXETH)
    } else if s == "AEBNB"@ {
        Some(CurrencyPair::AEBNB)
    } else if s == "AEBTC"@ {
        Some(CurrencyPair::AEBTC)
    } else if s == "AEETH"@ {
        Some(CurrencyPair::AEETH)
    } else if s == "AGIBNB"@ {
        Some(CurrencyPair::AGIBNB)
    } else if s == "AGIBTC"@ {
        Some(CurrencyPair::AGIBTC)
    } else if s == "AGIETH"@ {
        Some(CurrencyPair::AGIETH)
    } else if s == "AIONBNB"@ {
        Some(CurrencyPair::AIONBNB)
    } else if s == "AIONBTC"@ {
        Some(CurrencyPair::AIONBTC)
    } else if s == "AIONETH"@ {
        Some(CurrencyPair::AIONETH)
    } else if s == "AMBBNB"@ {
        Some(CurrencyPair::AMBBNB)
    } else if s == "AMBBTC"@ {
        Some(CurrencyPair::AMBBTC)
    } else if s == "AMBETH"@ {
        Some(CurrencyPair::AMBETH)
    } else if s == "APPCBNB"@ {
        Some(CurrencyPair::APPCBNB)
    } else if s == "APPCBTC"@ {
        Some(CurrencyPair::APPCBTC)
    } else if s == "APPCETH"@ {
        Some(CurrencyPair::APPCETH)
    } else if s == "ARDRBNB"@ {
        Some(CurrencyPair::ARDRBNB)
    } else if s == "ARDRBTC"@ {
        Some(CurrencyPair::ARDRBTC)
    } else if s == "ARDRETH"@ {
        Some(CurrencyPair::ARDRETH)
    } else if s == "ARKBTC"@ {
        Some(CurrencyPair::ARKBTC)
    } else if s == "ARKETH"@ {
        Some(CurrencyPair::ARKETH)
    } else if s == "ARNBTC"@ {
        Some(CurrencyPair::ARNBTC)
    } else if s == "ARNETH"@ {
        Some(CurrencyPair::ARNETH)
    } else if s == "ASTBTC"@ {
        Some(CurrencyPair::ASTBTC)
    } else if s == "ASTETH"@ {
        Some(CurrencyPair::ASTETH)
    } else if s == "BATBNB"@ {
        Some(CurrencyPair::BATBNB)
    } else if s == "BATBTC"@ {
        Some(CurrencyPair::BATBTC)
    } else if s == "BATETH"@ {
        Some(CurrencyPair::BATETH)
    } else if s == "BCCBNB"@ {
        Some(CurrencyPair::BCCBNB)
    } else if s == "BCCBTC"@ {
        Some(CurrencyPair::BCCBTC)
    } else if s == "BCCETH"@ {
        Some(CurrencyPair::BCCETH)
    } else if s == "BCCUSDT"@ {
        Some(CurrencyPair::BCCUSDT)
    } else if s == "BCDBTC"@ {
        Some(CurrencyPair::BCDBTC)
    } else if s == "BCDETH"@ {
        Some(CurrencyPair::BCDETH)
    } else if s == "BCHABCBTC"@ {
        Some(CurrencyPair::BCHABCBTC)
    } else if s == "BCHABCPAX"@ {
        Some(CurrencyPair::BCHABCPAX)
    } else if s == "BCHABCTUSD"@ {
        Some(CurrencyPair::BCHABCTUSD)
    } else if s == "BCHABCUSDC"@ {
        Some(CurrencyPair::BCHABCUSDC)
    } else if s == "BCHABCUSDT"@ {
        Some(CurrencyPair::BCHABCUSDT)
    } else if s == "BCHSVBTC"@ {
        Some(CurrencyPair::BCHSVBTC)
    } else if s == "BCHSVPAX"@ {
        Some(CurrencyPair::BCHSVPAX)
    } else if s == "BCHSVTUSD"@ {
        Some(CurrencyPair::BCHSVTUSD)
    } else if s == "BCHSVUSDC"@ {
        Some(CurrencyPair::BCHSVUSDC)
    } else if s == "BCHSVUSDT"@ {
        Some(CurrencyPair::BCHSVUSDT)
    } else if s == "BCNBNB"@ {
        Some(CurrencyPair::BCNBNB)
    } else if s == "BCNBTC"@ {
        Some(CurrencyPair::BCNBTC)
    } else if s == "BCNETH"@ {
        Some(CurrencyPair::BCNETH)
    } else if s == "BCPTBNB"@ {
        Some(CurrencyPair::BCPTBNB)
    } else if s == "BCPTBTC"@ {
        Some(CurrencyPair::BCPTBTC)
    } else if s == "BCPTETH"@ {
        Some(CurrencyPair::BCPTETH)
    } else if s == "BLZBNB"@ {
        Some(CurrencyPair::BLZBNB)
    } else if s == "BLZBTC"@ {
        Some(CurrencyPair::BLZBTC)
    } else if s == "BLZETH"@ {
        Some(CurrencyPair::BLZETH)
    } else if s == "BNBBTC"@ {
        Some(CurrencyPair::BNBBTC)
    } else if s == "BNBETH"@ {
        Some(CurrencyPair::BNBETH)
    } else if s == "BNBPAX"@ {
        Some(CurrencyPair::BNBPAX)
    } else if s == "BNBUSDC"@ {
        Some(CurrencyPair::BNBUSDC)
    } else if s == "BNBUSDT"@ {
        Some(CurrencyPair::BNBUSDT)
    } else if s == "BNTBTC"@ {
        Some(CurrencyPair::BNTBTC)
    } else if s == "BNTETH"@ {
        Some(CurrencyPair::BNTETH)
    } else if s == "BQXBTC"@ {
        Some(CurrencyPair::BQXBTC)
    } else if s == "BQXETH"@ {
        Some(CurrencyPair::BQXETH)
    } else if s == "BRDBNB"@ {
        Some(CurrencyPair::BRDBNB)
    } else if s == "BRDBTC"@ {
        Some(CurrencyPair::BRDBTC)
    } else if s == "BRDETH"@ {
        Some(CurrencyPair::BRDETH)
    } else if s == "BTCPAX"@ {
        Some(CurrencyPair::BTCPAX)
    } else if s == "BTCUSDC"@ {
        Some(CurrencyPair::BTCUSDC)
    } else if s == "BTCUSDT"@ {
        Some(CurrencyPair::BTCUSDT)
    } else if s == "BTGBTC"@ {
        Some(CurrencyPair::BTGBTC)
    } else {
        None
    }
}

#[verifier::rlimit(100)]
fn decode_ab(s: &str) -> (r: Option<CurrencyPair>)
    ensures
        r == lookup_ab(s@),
{
    if str_eq(s, "ADABNB") {
        Some(CurrencyPair::ADABNB)
    } else if str_eq(s, "ADABTC") {
        Some(CurrencyPair::ADABTC)
    } else if str_eq(s, "ADAETH") {
        Some(CurrencyPair::ADAETH)
    } else if str_eq(s, "ADATUSD") {
        Some(CurrencyPair::ADATUSD)
    } else if str_eq(s, "ADAUSDT") {
        Some(CurrencyPair::ADAUSDT)
    } else if str_eq(s, "ADXBNB") {
        Some(CurrencyPair::ADXBNB)
    } else if str_eq(s, "ADXBTC") {
        Some(CurrencyPair::ADXBTC)
    } else if str_eq(s, "ADXETH") {
        Some(CurrencyPair::ADXETH)
    } else if str_eq(s, "AEBNB") {
        Some(CurrencyPair::AEBNB)
    } else if str_eq(s, "AEBTC") {
        Some(CurrencyPair::AEBTC)
    } else if str_eq(s, "AEETH") {
        Some(CurrencyPair::AEETH)
    } else if str_eq(s, "AGIBNB") {
        Some(CurrencyPair::AGIBNB)
    } else if str_eq(s, "AGIBTC") {
        Some(CurrencyPair::AGIBTC)
    } else if str_eq(s, "AGIETH") {
        Some(CurrencyPair::AGIETH)
    } else if str_eq(s, "AIONBNB") {
        Some(CurrencyPair::AIONBNB)
    } else if str_eq(s, "AIONBTC") {
        Some(CurrencyPair::AIONBTC)
    } else if str_eq(s, "AIONETH") {
        Some(CurrencyPair::AIONETH)
    } else if str_eq(s, "AMBBNB") {
        Some(CurrencyPair::AMBBNB)
    } else if str_eq(s, "AMBBTC") {
        Some(CurrencyPair::AMBBTC)
    } else if str_eq(s, "AMBETH") {
        Some(CurrencyPair::AMBETH)
    } else if str_eq(s, "APPCBNB") {
        Some(CurrencyPair::APPCBNB)
    } else if str_eq(s, "APPCBTC") {
        Some(CurrencyPair::APPCBTC)
    } else if str_eq(s, "APPCETH") {
        Some(CurrencyPair::APPCETH)
    } else if str_eq(s, "ARDRBNB") {
        Some(CurrencyPair::ARDRBNB)
    } else if str_eq(s, "ARDRBTC") {
        Some(CurrencyPair::ARDRBTC)
    } else if str_eq(s, "ARDRETH") {
        Some(CurrencyPair::ARDRETH)
    } else if str_eq(s, "ARKBTC") {
        Some(CurrencyPair::ARKBTC)
    } else if str_eq(s, "ARKETH") {
        Some(CurrencyPair::ARKETH)
    } else if str_eq(s, "ARNBTC") {
        Some(CurrencyPair::ARNBTC)
    } else if str_eq(s, "ARNETH") {
        Some(CurrencyPair::ARNETH)
    } else if str_eq(s, "ASTBTC") {
        Some(CurrencyPair::ASTBTC)
    } else if str_eq(s, "ASTETH") {
        Some(CurrencyPair::ASTETH)
    } else if str_eq(s, "BATBNB") {
        Some(CurrencyPair::BATBNB)
    } else if str_eq(s, "BATBTC") {
        Some(CurrencyPair::BATBTC)
    } else if str_eq(s, "BATETH") {
        Some(CurrencyPair::BATETH)
    } else if str_eq(s, "BCCBNB") {
        Some(CurrencyPair::BCCBNB)
    } else if str_eq(s, "BCCBTC") {
        Some(CurrencyPair::BCCBTC)
    } else if str_eq(s, "BCCETH") {
        Some(CurrencyPair::BCCETH)
    } else if str_eq(s, "BCCUSDT") {
        Some(CurrencyPair::BCCUSDT)
    } else if str_eq(s, "BCDBTC") {
        Some(CurrencyPair::BCDBTC)
    } else if str_eq(s, "BCDETH") {
        Some(CurrencyPair::BCDETH)
    } else if str_eq(s, "BCHABCBTC") {
        Some(CurrencyPair::BCHABCBTC)
    } else if str_eq(s, "BCHABCPAX") {
        Some(CurrencyPair::BCHABCPAX)
    } else if str_eq(s, "BCHABCTUSD") {
        Some(CurrencyPair::BCHABCTUSD)
    } else if str_eq(s, "BCHABCUSDC") {
        Some(CurrencyPair::BCHABCUSDC)
    } else if str_eq(s, "BCHABCUSDT") {
        Some(CurrencyPair::BCHABCUSDT)
    } else if str_eq(s, "BCHSVBTC") {
        Some(CurrencyPair::BCHSVBTC)
    } else if str_eq(s, "BCHSVPAX") {
        Some(CurrencyPair::BCHSVPAX)
    } else if str_eq(s, "BCHSVTUSD") {
        Some(CurrencyPair::BCHSVTUSD)
    } else if str_eq(s, "BCHSVUSDC") {
        Some(CurrencyPair::BCHSVUSDC)
    } else if str_eq(s, "BCHSVUSDT") {
        Some(CurrencyPair::BCHSVUSDT)
    } else if str_eq(s, "BCNBNB") {
        Some(CurrencyPair::BCNBNB)
    } else if str_eq(s, "BCNBTC") {
        Some(CurrencyPair::BCNBTC)
    } else if str_eq(s, "BCNETH") {
        Some(CurrencyPair::BCNETH)
    } else if str_eq(s, "BCPTBNB") {
        Some(CurrencyPair::BCPTBNB)
    } else if str_eq(s, "BCPTBTC") {
        Some(CurrencyPair::BCPTBTC)
    } else if str_eq(s, "BCPTETH") {
        Some(CurrencyPair::BCPTETH)
    } else if str_eq(s, "BLZBNB") {
        Some(CurrencyPair::BLZBNB)
    } else if str_eq(s, "BLZBTC") {
        Some(CurrencyPair::BLZBTC)
    } else if str_eq(s, "BLZETH") {
        Some(CurrencyPair::BLZETH)
    } else if str_eq(s, "BNBBTC") {
        Some(CurrencyPair::BNBBTC)
    } else if str_eq(s, "BNBETH") {
        Some(CurrencyPair::BNBETH)
    } else if str_eq(s, "BNBPAX") {
        Some(CurrencyPair::BNBPAX)
    } else if str_eq(s, "BNBUSDC") {
        Some(CurrencyPair::BNBUSDC)
    } else if str_eq(s, "BNBUSDT") {
        Some(CurrencyPair::BNBUSDT)
    } else if str_eq(s, "BNTBTC") {
        Some(CurrencyPair::BNTBTC)
    } else if str_eq(s, "BNTETH") {
        Some(CurrencyPair::BNTETH)
    } else if str_eq(s, "BQXBTC") {
        Some(CurrencyPair::BQXBTC)
    } else if str_eq(s, "BQXETH") {
        Some(CurrencyPair::BQXETH)
    } else if str_eq(s, "BRDBNB") {
        Some(CurrencyPair::BRDBNB)
    } else if str_eq(s, "BRDBTC") {
        Some(CurrencyPair::BRDBTC)
    } else if str_eq(s, "BRDETH") {
        Some(CurrencyPair::BRDETH)
    } else if str_eq(s, "BTCPAX") {
        Some(CurrencyPair::BTCPAX)
    } else if str_eq(s, "BTCUSDC") {
        Some(CurrencyPair::BTCUSDC)
    } else if str_eq(s, "BTCUSDT") {
        Some(CurrencyPair::BTCUSDT)
    } else if str_eq(s, "BTGBTC") {
        Some(CurrencyPair::BTGBTC)
    } else {
        None
    }
}

#[verifier::rlimit(100)]
proof fn lemma_ab_sound(s: Seq<char>)
    ensures
        match lookup_ab(s) {
            Some(p) => wire_str(p) == s,
            None => true,
        },
{
}

pub open spec fn lookup_bg(s: Seq<char>) -> Option<CurrencyPair> {
    if s == "BTGETH"@ {
        Some(CurrencyPair::BTGETH)
    } else if s == "BTSBNB"@ {
        Some(CurrencyPair::BTSBNB)
    } else if s == "BTSBTC"@ {
        Some(CurrencyPair::BTSBTC)
    } else if s == "BTSETH"@ {
        Some(CurrencyPair::BTSETH)
    } else if s == "BTTBNB"@ {
        Some(CurrencyPair::BTTBNB)
    } else if s == "BTTBTC"@ {
        Some(CurrencyPair::BTTBTC)
    } else if s == "BTTUSDT"@ {
        Some(CurrencyPair::BTTUSDT)
    } else if s == "CDTBTC"@ {
        Some(CurrencyPair::CDTBTC)
    } else if s == "CDTETH"@ {
        Some(CurrencyPair::CDTETH)
    } else if s == "CHATBTC"@ {
        Some(CurrencyPair::CHATBTC)
    } else if s == "CHATETH"@ {
        Some(CurrencyPair::CHATETH)
    } else if s == "CLOAKBTC"@ {
        Some(CurrencyPair::CLOAKBTC)
    } else if s == "CLOAKETH"@ {
        Some(CurrencyPair::CLOAKETH)
    } else if s == "CMTBNB"@ {
        Some(CurrencyPair::CMTBNB)
    } else if s == "CMTBTC"@ {
        Some(CurrencyPair::CMTBTC)
    } else if s == "CMTETH"@ {
        Some(CurrencyPair::CMTETH)
    } else if s == "CNDBNB"@ {
        Some(CurrencyPair::CNDBNB)
    } else if s == "CNDBTC"@ {
        Some(CurrencyPair::CNDBTC)
    } else if s == "CNDETH"@ {
        Some(CurrencyPair::CNDETH)
    } else if s == "CVCBNB"@ {
        Some(CurrencyPair::CVCBNB)
    } else if s == "CVCBTC"@ {
        Some(CurrencyPair::CVCBTC)
    } else if s == "CVCETH"@ {
        Some(CurrencyPair::CVCETH)
    } else if s == "DASHBTC"@ {
        Some(CurrencyPair::DASHBTC)
    } else if s == "DASHETH"@ {
        Some(CurrencyPair::DASHETH)
    } else if s == "DATABTC"@ {
        Some(CurrencyPair::DATABTC)
    } else if s == "DATAETH"@ {
        Some(CurrencyPair::DATAETH)
    } else if s == "DCRBNB"@ {
        Some(CurrencyPair::DCRBNB)
    } else if s == "DCRBTC"@ {
        Some(CurrencyPair::DCRBTC)
    } else if s == "DENTBTC"@ {
        Some(CurrencyPair::DENTBTC)
    } else if s == "DENTETH"@ {
        Some(CurrencyPair::DENTETH)
    } else if s == "DGDBTC"@ {
        Some(CurrencyPair::DGDBTC)
    } else if s == "DGDETH"@ {
        Some(CurrencyPair::DGDETH)
    } else if s == "DLTBNB"@ {
        Some(CurrencyPair::DLTBNB)
    } else if s == "DLTBTC"@ {
        Some(CurrencyPair::DLTBTC)
    } else if s == "DLTETH"@ {
        Some(CurrencyPair::DLTETH)
    } else if s == "DNTBTC"@ {
        Some(CurrencyPair::DNTBTC)
    } else if s == "DNTETH"@ {
        Some(CurrencyPair::DNTETH)
    } else if s == "DOCKBTC"@ {
        Some(CurrencyPair::DOCKBTC)
    } else if s == "DOCKETH"@ {
        Some(CurrencyPair::DOCKETH)
    } else if s == "EDOBTC"@ {
        Some(CurrencyPair::EDOBTC)
    } else if s == "EDOETH"@ {
        Some(CurrencyPair::EDOETH)
    } else if s == "ELFBTC"@ {
        Some(CurrencyPair::ELFBTC)
    } else if s == "ELFETH"@ {
        Some(CurrencyPair::ELFETH)
    } else if s == "ENGBTC"@ {
        Some(CurrencyPair::ENGBTC)
    } else if s == "ENGETH"@ {
        Some(CurrencyPair::ENGETH)
    } else if s == "ENJBNB"@ {
        Some(CurrencyPair::ENJBNB)
    } else if s == "ENJBTC"@ {
        Some(CurrencyPair::ENJBTC)
    } else if s == "ENJETH"@ {
        Some(CurrencyPair::ENJETH)
    } else if s == "EOSBNB"@ {
        Some(CurrencyPair::EOSBNB)
    } else if s == "EOSBTC"@ {
        Some(CurrencyPair::EOSBTC)
    } else if s == "EOSETH"@ {
        Some(CurrencyPair::EOSETH)
    } else if s == "EOSPAX"@ {
        Some(CurrencyPair::EOSPAX)
    } else if s == "EOSTUSD"@ {
        Some(CurrencyPair::EOSTUSD)
    } else if s == "EOSUSDC"@ {
        Some(CurrencyPair::EOSUSDC)
    } else if s == "EOSUSDT"@ {
        Some(CurrencyPair::EOSUSDT)
    } else if s == "ETCBNB"@ {
        Some(CurrencyPair::ETCBNB)
    } else if s == "ETCBTC"@ {
        Some(CurrencyPair::ETCBTC)
    } else if s == "ETCETH"@ {
        Some(CurrencyPair::ETCETH)
    } else if s == "ETCUSDT"@ {
        Some(CurrencyPair::ETCUSDT)
    } else if s == "ETHBTC"@ {
        Some(CurrencyPair::ETHBTC)
    } else if s == "ETHPAX"@ {
        Some(CurrencyPair::ETHPAX)
    } else if s == "ETHUSDC"@ {
        Some(CurrencyPair::ETHUSDC)
    } else if s == "ETHUSDT"@ {
        Some(CurrencyPair::ETHUSDT)
    } else if s == "EVXBTC"@ {
        Some(CurrencyPair::EVXBTC)
    } else if s == "EVXETH"@ {
        Some(CurrencyPair::EVXETH)
    } else if s == "FUELBTC"@ {
        Some(CurrencyPair::FUELBTC)
    } else if s == "FUELETH"@ {
        Some(CurrencyPair::FUELETH)
    } else if s == "FUNBTC"@ {
        Some(CurrencyPair::FUNBTC)
    } else if s == "FUNETH"@ {
        Some(CurrencyPair::FUNETH)
    } else if s == "GASBTC"@ {
        Some(CurrencyPair::GASBTC)
    } else if s == "GNTBNB"@ {
        Some(CurrencyPair::GNTBNB)
    } else if s == "GNTBTC"@ {
        Some(CurrencyPair::GNTBTC)
    } else if s == "GNTETH"@ {
        Some(CurrencyPair::GNTETH)
    } else if s == "GOBNB"@ {
        Some(CurrencyPair::GOBNB)
    } else if s == "GOBTC"@ {
        Some(CurrencyPair::GOBTC)
    } else if s == "GRSBTC"@ {
        Some(CurrencyPair::GRSBTC)
    } else {
        None
    }
}

#[verifier::rlimit(100)]
fn decode_bg(s: &str) -> (r: Option<CurrencyPair>)
    ensures
        r == lookup_bg(s@),
{
    if str_eq(s, "BTGETH") {
        Some(CurrencyPair::BTGETH)
    } else if str_eq(s, "BTSBNB") {
        Some(CurrencyPair::BTSBNB)
    } else if str_eq(s, "BTSBTC") {
        Some(CurrencyPair::BTSBTC)
    } else if str_eq(s, "BTSETH") {
        Some(CurrencyPair::BTSETH)
    } else if str_eq(s, "BTTBNB") {
        Some(CurrencyPair::BTTBNB)
    } else if str_eq(s, "BTTBTC") {
        Some(CurrencyPair::BTTBTC)
    } else if str_eq(s, "BTTUSDT") {
        Some(CurrencyPair::BTTUSDT)
    } else if str_eq(s, "CDTBTC") {
        Some(CurrencyPair::CDTBTC)
    } else if str_eq(s, "CDTETH") {
        Some(CurrencyPair::CDTETH)
    } else if str_eq(s, "CHATBTC") {
        Some(CurrencyPair::CHATBTC)
    } else if str_eq(s, "CHATETH") {
        Some(CurrencyPair::CHATETH)
    } else if str_eq(s, "CLOAKBTC") {
        Some(CurrencyPair::CLOAKBTC)
    } else if str_eq(s, "CLOAKETH") {
        Some(CurrencyPair::CLOAKETH)
    } else if str_eq(s, "CMTBNB") {
        Some(CurrencyPair::CMTBNB)
    } else if str_eq(s, "CMTBTC") {
        Some(CurrencyPair::CMTBTC)
    } else if str_eq(s, "CMTETH") {
        Some(CurrencyPair::CMTETH)
    } else if str_eq(s, "CNDBNB") {
        Some(CurrencyPair::CNDBNB)
    } else if str_eq(s, "CNDBTC") {
        Some(CurrencyPair::CNDBTC)
    } else if str_eq(s, "CNDETH") {
        Some(CurrencyPair::CNDETH)
    } else if str_eq(s, "CVCBNB") {
        Some(CurrencyPair::CVCBNB)
    } else if str_eq(s, "CVCBTC") {
        Some(CurrencyPair::CVCBTC)
    } else if str_eq(s, "CVCETH") {
        Some(CurrencyPair::CVCETH)
    } else if str_eq(s, "DASHBTC") {
        Some(CurrencyPair::DASHBTC)
    } else if str_eq(s, "DASHETH") {
        Some(CurrencyPair::DASHETH)
    } else if str_eq(s, "DATABTC") {
        Some(CurrencyPair::DATABTC)
    } else if str_eq(s, "DATAETH") {
        Some(CurrencyPair::DATAETH)
    } else if str_eq(s, "DCRBNB") {
        Some(CurrencyPair::DCRBNB)
    } else if str_eq(s, "DCRBTC") {
        Some(CurrencyPair::DCRBTC)
    } else if str_eq(s, "DENTBTC") {
        Some(CurrencyPair::DENTBTC)
    } else if str_eq(s, "DENTETH") {
        Some(CurrencyPair::DENTETH)
    } else if str_eq(s, "DGDBTC") {
        Some(CurrencyPair::DGDBTC)
    } else if str_eq(s, "DGDETH") {
        Some(CurrencyPair::DGDETH)
    } else if str_eq(s, "DLTBNB") {
        Some(CurrencyPair::DLTBNB)
    } else if str_eq(s, "DLTBTC") {
        Some(CurrencyPair::DLTBTC)
    } else if str_eq(s, "DLTETH") {
        Some(CurrencyPair::DLTETH)
    } else if str_eq(s, "DNTBTC") {
        Some(CurrencyPair::DNTBTC)
    } else if str_eq(s, "DNTETH") {
        Some(CurrencyPair::DNTETH)
    } else if str_eq(s, "DOCKBTC") {
        Some(CurrencyPair::DOCKBTC)
    } else if str_eq(s, "DOCKETH") {
        Some(CurrencyPair::DOCKETH)
    } else if str_eq(s, "EDOBTC") {
        Some(CurrencyPair::EDOBTC)
    } else if str_eq(s, "EDOETH") {
        Some(CurrencyPair::EDOETH)
    } else if str_eq(s, "ELFBTC") {
        Some(CurrencyPair::ELFBTC)
    } else if str_eq(s, "ELFETH") {
        Some(CurrencyPair::ELFETH)
    } else if str_eq(s, "ENGBTC") {
        Some(CurrencyPair::ENGBTC)
    } else if str_eq(s, "ENGETH") {
        Some(CurrencyPair::ENGETH)
    } else if str_eq(s, "ENJBNB") {
        Some(CurrencyPair::ENJBNB)
    } else if str_eq(s, "ENJBTC") {
        Some(CurrencyPair::ENJBTC)
    } else if str_eq(s, "ENJETH") {
        Some(CurrencyPair::ENJETH)
    } else if str_eq(s, "EOSBNB") {
        Some(CurrencyPair::EOSBNB)
    } else if str_eq(s, "EOSBTC") {
        Some(CurrencyPair::EOSBTC)
    } else if str_eq(s, "EOSETH") {
        Some(CurrencyPair::EOSETH)
    } else if str_eq(s, "EOSPAX") {
        Some(CurrencyPair::EOSPAX)
    } else if str_eq(s, "EOSTUSD") {
        Some(CurrencyPair::EOSTUSD)
    } else if str_eq(s, "EOSUSDC") {
        Some(CurrencyPair::EOSUSDC)
    } else if str_eq(s, "EOSUSDT") {
        Some(CurrencyPair::EOSUSDT)
    } else if str_eq(s, "ETCBNB") {
        Some(CurrencyPair::ETCBNB)
    } else if str_eq(s, "ETCBTC") {
        Some(CurrencyPair::ETCBTC)
    } else if str_eq(s, "ETCETH") {
        Some(CurrencyPair::ETCETH)
    } else if str_eq(s, "ETCUSDT") {
        Some(CurrencyPair::ETCUSDT)
    } else if str_eq(s, "ETHBTC") {
        Some(CurrencyPair::ETHBTC)
    } else if str_eq(s, "ETHPAX") {
        Some(CurrencyPair::ETHPAX)
    } else if str_eq(s, "ETHUSDC") {
        Some(CurrencyPair::ETHUSDC)
    } else if str_eq(s, "ETHUSDT") {
        Some(CurrencyPair::ETHUSDT)
    } else if str_eq(s, "EVXBTC") {
        Some(CurrencyPair::EVXBTC)
    } else if str_eq(s, "EVXETH") {
        Some(CurrencyPair::EVXETH)
    } else if str_eq(s, "FUELBTC") {
        Some(CurrencyPair::FUELBTC)
    } else if str_eq(s, "FUELETH") {
        Some(CurrencyPair::FUELETH)
    } else if str_eq(s, "FUNBTC") {
        Some(CurrencyPair::FUNBTC)
    } else if str_eq(s, "FUNETH") {
        Some(CurrencyPair::FUNETH)
    } else if str_eq(s, "GASBTC") {
        Some(CurrencyPair::GASBTC)
    } else if str_eq(s, "GNTBNB") {
        Some(CurrencyPair::GNTBNB)
    } else if str_eq(s, "GNTBTC") {
        Some(CurrencyPair::GNTBTC)
    } else if str_eq(s, "GNTETH") {
        Some(CurrencyPair::GNTETH)
    } else if str_eq(s, "GOBNB") {
        Some(CurrencyPair::GOBNB)
    } else if str_eq(s, "GOBTC") {
        Some(CurrencyPair::GOBTC)
    } else if str_eq(s, "GRSBTC") {
        Some(CurrencyPair::GRSBTC)
    } else {
        None
    }
}

#[verifier::rlimit(100)]
proof fn lemma_bg_sound(s: Seq<char>)
    ensures
        match lookup_bg(s) {
            Some(p) => wire_str(p) == s,
            None => true,
        },
{
}

pub open spec fn lookup_gm(s: Seq<char>) -> Option<CurrencyPair> {
    if s == "GRSETH"@ {
        Some(CurrencyPair::GRSETH)
    } else if s == "GTOBNB"@ {
        Some(CurrencyPair::GTOBNB)
    } else if s == "GTOBTC"@ {
        Some(CurrencyPair::GTOBTC)
    } else if s == "GTOETH"@ {
        Some(CurrencyPair::GTOETH)
    } else if s == "GVTBTC"@ {
        Some(CurrencyPair::GVTBTC)
    } else if s == "GVTETH"@ {
        Some(CurrencyPair::GVTETH)
    } else if s == "GXSBTC"@ {
        Some(CurrencyPair::GXSBTC)
    } else if s == "GXSETH"@ {
        Some(CurrencyPair::GXSETH)
    } else if s == "HCBTC"@ {
        Some(CurrencyPair::HCBTC)
    } else if s == "HCETH"@ {
        Some(CurrencyPair::HCETH)
    } else if s == "HOTBTC"@ {
        Some(CurrencyPair::HOTBTC)
    } else if s == "HOTETH"@ {
        Some(CurrencyPair::HOTETH)
    } else if s == "HSRBTC"@ {
        Some(CurrencyPair::HSRBTC)
    } else if s == "HSRETH"@ {
        Some(CurrencyPair::HSRETH)
    } else if s == "ICNBTC"@ {
        Some(CurrencyPair::ICNBTC)
    } else if s == "ICNETH"@ {
        Some(CurrencyPair::ICNETH)
    } else if s == "ICXBNB"@ {
        Some(CurrencyPair::ICXBNB)
    } else if s == "ICXBTC"@ {
        Some(CurrencyPair::ICXBTC)
    } else if s == "ICXETH"@ {
        Some(CurrencyPair::ICXETH)
    } else if s == "ICXUSDT"@ {
        Some(CurrencyPair::ICXUSDT)
    } else if s == "INSBTC"@ {
        Some(CurrencyPair::INSBTC)
    } else if s == "INSETH"@ {
        Some(CurrencyPair::INSETH)
    } else if s == "IOSTBTC"@ {
        Some(CurrencyPair::IOSTBTC)
    } else if s == "IOSTETH"@ {
        Some(CurrencyPair::IOSTETH)
    } else if s == "IOTABNB"@ {
        Some(CurrencyPair::IOTABNB)
    } else if s == "IOTABTC"@ {
        Some(CurrencyPair::IOTABTC)
    } else if s == "IOTAETH"@ {
        Some(CurrencyPair::IOTAETH)
    } else if s == "IOTAUSDT"@ {
        Some(CurrencyPair::IOTAUSDT)
    } else if s == "IOTXBTC"@ {
        Some(CurrencyPair::IOTXBTC)
    } else if s == "IOTXETH"@ {
        Some(CurrencyPair::IOTXETH)
    } else if s == "KEYBTC"@ {
        Some(CurrencyPair::KEYBTC)
    } else if s == "KEYETH"@ {
        Some(CurrencyPair::KEYETH)
    } else if s == "KMDBTC"@ {
        Some(CurrencyPair::KMDBTC)
    } else if s == "KMDETH"@ {
        Some(CurrencyPair::KMDETH)
    } else if s == "KNCBTC"@ {
        Some(CurrencyPair::KNCBTC)
    } else if s == "KNCETH"@ {
        Some(CurrencyPair::KNCETH)
    } else if s == "LENDBTC"@ {
        Some(CurrencyPair::LENDBTC)
    } else if s == "LENDETH"@ {
        Some(CurrencyPair::LENDETH)
    } else if s == "LINKBTC"@ {
        Some(CurrencyPair::LINKBTC)
    } else if s == "LINKETH"@ {
        Some(CurrencyPair::LINKETH)
    } else if s == "LINKPAX"@ {
        Some(CurrencyPair::LINKPAX)
    } else if s == "LINKTUSD"@ {
        Some(CurrencyPair::LINKTUSD)
    } else if s == "LINKUSDC"@ {
        Some(CurrencyPair::LINKUSDC)
    } else if s == "LINKUSDT"@ {
        Some(CurrencyPair::LINKUSDT)
    } else if s == "LOOMBNB"@ {
        Some(CurrencyPair::LOOMBNB)
    } else if s == "LOOMBTC"@ {
        Some(CurrencyPair::LOOMBTC)
    } else if s == "LOOMETH"@ {
        Some(CurrencyPair::LOOMETH)
    } else if s == "LRCBTC"@ {
        Some(CurrencyPair::LRCBTC)
    } else if s == "LRCETH"@ {
        Some(CurrencyPair::LRCETH)
    } else if s == "LSKBNB"@ {
        Some(CurrencyPair::LSKBNB)
    } else if s == "LSKBTC"@ {
        Some(CurrencyPair::LSKBTC)
    } else if s == "LSKETH"@ {
        Some(CurrencyPair::LSKETH)
    } else if s == "LTCBNB"@ {
        Some(CurrencyPair::LTCBNB)
    } else if s == "LTCBTC"@ {
        Some(CurrencyPair::LTCBTC)
    } else if s == "LTCETH"@ {
        Some(CurrencyPair::LTCETH)
    } else if s == "LTCPAX"@ {
        Some(CurrencyPair::LTCPAX)
    } else if s == "LTCTUSD"@ {
        Some(CurrencyPair::LTCTUSD)
    } else if s == "LTCUSDC"@ {
        Some(CurrencyPair::LTCUSDC)
    } else if s == "LTCUSDT"@ {
        Some(CurrencyPair::LTCUSDT)
    } else if s == "LUNBTC"@ {
        Some(CurrencyPair::LUNBTC)
    } else if s == "LUNETH"@ {
        Some(CurrencyPair::LUNETH)
    } else if s == "MANABTC"@ {
        Some(CurrencyPair::MANABTC)
    } else if s == "MANAETH"@ {
        Some(CurrencyPair::MANAETH)
    } else if s == "MCOBNB"@ {
        Some(CurrencyPair::MCOBNB)
    } else if s == "MCOBTC"@ {
        Some(CurrencyPair::MCOBTC)
    } else if s == "MCOETH"@ {
        Some(CurrencyPair::MCOETH)
    } else if s == "MDABTC"@ {
        Some(CurrencyPair::MDABTC)
    } else if s == "MDAETH"@ {
        Some(CurrencyPair::MDAETH)
    } else if s == "MFTBNB"@ {
        Some(CurrencyPair::MFTBNB)
    } else if s == "MFTBTC"@ {
        Some(CurrencyPair::MFTBTC)
    } else if s == "MFTETH"@ {
        Some(CurrencyPair::MFTETH)
    } else if s == "MITHBNB"@ {
        Some(CurrencyPair::MITHBNB)
    } else if s == "MITHBTC"@ {
        Some(CurrencyPair::MITHBTC)
    } else if s == "MODBTC"@ {
        Some(CurrencyPair::MODBTC)
    } else if s == "MODETH"@ {
        Some(CurrencyPair::MODETH)
    } else if s == "MTHBTC"@ {
        Some(CurrencyPair::MTHBTC)
    } else {
        None
    }
}

#[verifier::rlimit(100)]
fn decode_gm(s: &str) -> (r: Option<CurrencyPair>)
    ensures
        r == lookup_gm(s@),
{
    if str_eq(s, "GRSETH") {
        Some(CurrencyPair::GRSETH)
    } else if str_eq(s, "GTOBNB") {
        Some(CurrencyPair::GTOBNB)
    } else if str_eq(s, "GTOBTC") {
        Some(CurrencyPair::GTOBTC)
    } else if str_eq(s, "GTOETH") {
        Some(CurrencyPair::GTOETH)
    } else if str_eq(s, "GVTBTC") {
        Some(CurrencyPair::GVTBTC)
    } else if str_eq(s, "GVTETH") {
        Some(CurrencyPair::GVTETH)
    } else if str_eq(s, "GXSBTC") {
        Some(CurrencyPair::GXSBTC)
    } else if str_eq(s, "GXSETH") {
        Some(CurrencyPair::GXSETH)
    } else if str_eq(s, "HCBTC") {
        Some(CurrencyPair::HCBTC)
    } else if str_eq(s, "HCETH") {
        Some(CurrencyPair::HCETH)
    } else if str_eq(s, "HOTBTC") {
        Some(CurrencyPair::HOTBTC)
    } else if str_eq(s, "HOTETH") {
        Some(CurrencyPair::HOTETH)
    } else if str_eq(s, "HSRBTC") {
        Some(CurrencyPair::HSRBTC)
    } else if str_eq(s, "HSRETH") {
        Some(CurrencyPair::HSRETH)
    } else if str_eq(s, "ICNBTC") {
        Some(CurrencyPair::ICNBTC)
    } else if str_eq(s, "ICNETH") {
        Some(CurrencyPair::ICNETH)
    } else if str_eq(s, "ICXBNB") {
        Some(CurrencyPair::ICXBNB)
    } else if str_eq(s, "ICXBTC") {
        Some(CurrencyPair::ICXBTC)
    } else if str_eq(s, "ICXETH") {
        Some(CurrencyPair::ICXETH)
    } else if str_eq(s, "ICXUSDT") {
        Some(CurrencyPair::ICXUSDT)
    } else if str_eq(s, "INSBTC") {
        Some(CurrencyPair::INSBTC)
    } else if str_eq(s, "INSETH") {
        Some(CurrencyPair::INSETH)
    } else if str_eq(s, "IOSTBTC") {
        Some(CurrencyPair::IOSTBTC)
    } else if str_eq(s, "IOSTETH") {
        Some(CurrencyPair::IOSTETH)
    } else if str_eq(s, "IOTABNB") {
        Some(CurrencyPair::IOTABNB)
    } else if str_eq(s, "IOTABTC") {
        Some(CurrencyPair::IOTABTC)
    } else if str_eq(s, "IOTAETH") {
        Some(CurrencyPair::IOTAETH)
    } else if str_eq(s, "IOTAUSDT") {
        Some(CurrencyPair::IOTAUSDT)
    } else if str_eq(s, "IOTXBTC") {
        Some(CurrencyPair::IOTXBTC)
    } else if str_eq(s, "IOTXETH") {
        Some(CurrencyPair::IOTXETH)
    } else if str_eq(s, "KEYBTC") {
        Some(CurrencyPair::KEYBTC)
    } else if str_eq(s, "KEYETH") {
        Some(CurrencyPair::KEYETH)
    } else if str_eq(s, "KMDBTC") {
        Some(CurrencyPair::KMDBTC)
    } else if str_eq(s, "KMDETH") {
        Some(CurrencyPair::KMDETH)
    } else if str_eq(s, "KNCBTC") {
        Some(CurrencyPair::KNCBTC)
    } else if str_eq(s, "KNCETH") {
        Some(CurrencyPair::KNCETH)
    } else if str_eq(s, "LENDBTC") {
        Some(CurrencyPair::LENDBTC)
    } else if str_eq(s, "LENDETH") {
        Some(CurrencyPair::LENDETH)
    } else if str_eq(s, "LINKBTC") {
        Some(CurrencyPair::LINKBTC)
    } else if str_eq(s, "LINKETH") {
        Some(CurrencyPair::LINKETH)
    } else if str_eq(s, "LINKPAX") {
        Some(CurrencyPair::LINKPAX)
    } else if str_eq(s, "LINKTUSD") {
        Some(CurrencyPair::LINKTUSD)
    } else if str_eq(s, "LINKUSDC") {
        Some(CurrencyPair::LINKUSDC)
    } else if str_eq(s, "LINKUSDT") {
        Some(CurrencyPair::LINKUSDT)
    } else if str_eq(s, "LOOMBNB") {
        Some(CurrencyPair::LOOMBNB)
    } else if str_eq(s, "LOOMBTC") {
        Some(CurrencyPair::LOOMBTC)
    } else if str_eq(s, "LOOMETH") {
        Some(CurrencyPair::LOOMETH)
    } else if str_eq(s, "LRCBTC") {
        Some(CurrencyPair::LRCBTC)
    } else if str_eq(s, "LRCETH") {
        Some(CurrencyPair::LRCETH)
    } else if str_eq(s, "LSKBNB") {
        Some(CurrencyPair::LSKBNB)
    } else if str_eq(s, "LSKBTC") {
        Some(CurrencyPair::LSKBTC)
    } else if str_eq(s, "LSKETH") {
        Some(CurrencyPair::LSKETH)
    } else if str_eq(s, "LTCBNB") {
        Some(CurrencyPair::LTCBNB)
    } else if str_eq(s, "LTCBTC") {
        Some(CurrencyPair::LTCBTC)
    } else if str_eq(s, "LTCETH") {
        Some(CurrencyPair::LTCETH)
    } else if str_eq(s, "LTCPAX") {
        Some(CurrencyPair::LTCPAX)
    } else if str_eq(s, "LTCTUSD") {
        Some(CurrencyPair::LTCTUSD)
    } else if str_eq(s, "LTCUSDC") {
        Some(CurrencyPair::LTCUSDC)
    } else if str_eq(s, "LTCUSDT") {
        Some(CurrencyPair::LTCUSDT)
    } else if str_eq(s, "LUNBTC") {
        Some(CurrencyPair::LUNBTC)
    } else if str_eq(s, "LUNETH") {
        Some(CurrencyPair::LUNETH)
    } else if str_eq(s, "MANABTC") {
        Some(CurrencyPair::MANABTC)
    } else if str_eq(s, "MANAETH") {
        Some(CurrencyPair::MANAETH)
    } else if str_eq(s, "MCOBNB") {
        Some(CurrencyPair::MCOBNB)
    } else if str_eq(s, "MCOBTC") {
        Some(CurrencyPair::MCOBTC)
    } else if str_eq(s, "MCOETH") {
        Some(CurrencyPair::MCOETH)
    } else if str_eq(s, "MDABTC") {
        Some(CurrencyPair::MDABTC)
    } else if str_eq(s, "MDAETH") {
        Some(CurrencyPair::MDAETH)
    } else if str_eq(s, "MFTBNB") {
        Some(CurrencyPair::MFTBNB)
    } else if str_eq(s, "MFTBTC") {
        Some(CurrencyPair::MFTBTC)
    } else if str_eq(s, "MFTETH") {
        Some(CurrencyPair::MFTETH)
    } else if str_eq(s, "MITHBNB") {
        Some(CurrencyPair::MITHBNB)
    } else if str_eq(s, "MITHBTC") {
        Some(CurrencyPair::MITHBTC)
    } else if str_eq(s, "MODBTC") {
        Some(CurrencyPair::MODBTC)
    } else if str_eq(s, "MODETH") {
        Some(CurrencyPair::MODETH)
    } else if str_eq(s, "MTHBTC") {
        Some(CurrencyPair::MTHBTC)
    } else {
        None
    }
}

#[verifier::rlimit(100)]
proof fn lemma_gm_sound(s: Seq<char>)
    ensures
        match lookup_gm(s) {
            Some(p) => wire_str(p) == s,
            None => true,
        },
{
}

pub open spec fn lookup_mq(s: Seq<char>) -> Option<CurrencyPair> {
    if s == "MTHETH"@ {
        Some(CurrencyPair::MTHETH)
    } else if s == "MTLBTC"@ {
        Some(CurrencyPair::MTLBTC)
    } else if s == "MTLETH"@ {
        Some(CurrencyPair::MTLETH)
    } else if s == "NANOBNB"@ {
        Some(CurrencyPair::NANOBNB)
    } else if s == "NANOBTC"@ {
        Some(CurrencyPair::NANOBTC)
    } else if s == "NANOETH"@ {
        Some(CurrencyPair::NANOETH)
    } else if s == "NASBNB"@ {
        Some(CurrencyPair::NASBNB)
    } else if s == "NASBTC"@ {
        Some(CurrencyPair::NASBTC)
    } else if s == "NASETH"@ {
        Some(CurrencyPair::NASETH)
    } else if s == "NAVBNB"@ {
        Some(CurrencyPair::NAVBNB)
    } else if s == "NAVBTC"@ {
        Some(CurrencyPair::NAVBTC)
    } else if s == "NAVETH"@ {
        Some(CurrencyPair::NAVETH)
    } else if s == "NCASHBNB"@ {
        Some(CurrencyPair::NCASHBNB)
    } else if s == "NCASHBTC"@ {
        Some(CurrencyPair::NCASHBTC)
    } else if s == "NCASHETH"@ {
        Some(CurrencyPair::NCASHETH)
    } else if s == "NEBLBNB"@ {
        Some(CurrencyPair::NEBLBNB)
    } else if s == "NEBLBTC"@ {
        Some(CurrencyPair::NEBLBTC)
    } else if s == "NEBLETH"@ {
        Some(CurrencyPair::NEBLETH)
    } else if s == "NEOBNB"@ {
        Some(CurrencyPair::NEOBNB)
    } else if s == "NEOBTC"@ {
        Some(CurrencyPair::NEOBTC)
    } else if s == "NEOETH"@ {
        Some(CurrencyPair::NEOETH)
    } else if s == "NEOTUSD"@ {
        Some(CurrencyPair::NEOTUSD)
    } else if s == "NEOUSDT"@ {
        Some(CurrencyPair::NEOUSDT)
    } else if s == "NPXSBTC"@ {
        Some(CurrencyPair::NPXSBTC)
    } else if s == "NPXSETH"@ {
        Some(CurrencyPair::NPXSETH)
    } else if s == "NULSBNB"@ {
        Some(CurrencyPair::NULSBNB)
    } else if s == "NULSBTC"@ {
        Some(CurrencyPair::NULSBTC)
    } else if s == "NULSETH"@ {
        Some(CurrencyPair::NULSETH)
    } else if s == "NULSUSDT"@ {
        Some(CurrencyPair::NULSUSDT)
    } else if s == "NXSBNB"@ {
        Some(CurrencyPair::NXSBNB)
    } else if s == "NXSBTC"@ {
        Some(CurrencyPair::NXSBTC)
    } else if s == "NXSETH"@ {
        Some(CurrencyPair::NXSETH)
    } else if s == "OAXBTC"@ {
        Some(CurrencyPair::OAXBTC)
    } else if s == "OAXETH"@ {
        Some(CurrencyPair::OAXETH)
    } else if s == "OMGBTC"@ {
        Some(CurrencyPair::OMGBTC)
    } else if s == "OMGETH"@ {
        Some(CurrencyPair::OMGETH)
    } else if s == "ONTBNB"@ {
        Some(CurrencyPair::ONTBNB)
    } else if s == "ONTBTC"@ {
        Some(CurrencyPair::ONTBTC)
    } else if s == "ONTETH"@ {
        Some(CurrencyPair::ONTETH)
    } else if s == "ONTUSDT"@ {
        Some(CurrencyPair::ONTUSDT)
    } else if s == "OSTBNB"@ {
        Some(CurrencyPair::OSTBNB)
    } else if s == "OSTBTC"@ {
        Some(CurrencyPair::OSTBTC)
    } else if s == "OSTETH"@ {
        Some(CurrencyPair::OSTETH)
    } else if s == "PAXBNB"@ {
        Some(CurrencyPair::PAXBNB)
    } else if s == "PAXBTC"@ {
        Some(CurrencyPair::PAXBTC)
    } else if s == "PAXETH"@ {
        Some(CurrencyPair::PAXETH)
    } else if s == "PAXTUSD"@ {
        Some(CurrencyPair::PAXTUSD)
    } else if s == "PAXUSDT"@ {
        Some(CurrencyPair::PAXUSDT)
    } else if s == "PHXBNB"@ {
        Some(CurrencyPair::PHXBNB)
    } else if s == "PHXBTC"@ {
        Some(CurrencyPair::PHXBTC)
    } else if s == "PHXETH"@ {
        Some(CurrencyPair::PHXETH)
    } else if s == "PIVXBNB"@ {
        Some(CurrencyPair::PIVXBNB)
    } else if s == "PIVXBTC"@ {
        Some(CurrencyPair::PIVXBTC)
    } else if s == "PIVXETH"@ {
        Some(CurrencyPair::PIVXETH)
    } else if s == "POABNB"@ {
        Some(CurrencyPair::POABNB)
    } else if s == "POABTC"@ {
        Some(CurrencyPair::POABTC)
    } else if s == "POAETH"@ {
        Some(CurrencyPair::POAETH)
    } else if s == "POEBTC"@ {
        Some(CurrencyPair::POEBTC)
    } else if s == "POEETH"@ {
        Some(CurrencyPair::POEETH)
    } else if s == "POLYBNB"@ {
        Some(CurrencyPair::POLYBNB)
    } else if s == "POLYBTC"@ {
        Some(CurrencyPair::POLYBTC)
    } else if s == "POWRBNB"@ {
        Some(CurrencyPair::POWRBNB)
    } else if s == "POWRBTC"@ {
        Some(CurrencyPair::POWRBTC)
    } else if s == "POWRETH"@ {
        Some(CurrencyPair::POWRETH)
    } else if s == "PPTBTC"@ {
        Some(CurrencyPair::PPTBTC)
    } else if s == "PPTETH"@ {
        Some(CurrencyPair::PPTETH)
    } else if s == "QKCBTC"@ {
        Some(CurrencyPair::QKCBTC)
    } else if s == "QKCETH"@ {
        Some(CurrencyPair::QKCETH)
    } else if s == "QLCBNB"@ {
        Some(CurrencyPair::QLCBNB)
    } else if s == "QLCBTC"@ {
        Some(CurrencyPair::QLCBTC)
    } else if s == "QLCETH"@ {
        Some(CurrencyPair::QLCETH)
    } else if s == "QSPBNB"@ {
        Some(CurrencyPair::QSPBNB)
    } else if s == "QSPBTC"@ {
        Some(CurrencyPair::QSPBTC)
    } else if s == "QSPETH"@ {
        Some(CurrencyPair::QSPETH)
    } else if s == "QTUMBNB"@ {
        Some(CurrencyPair::QTUMBNB)
    } else if s == "QTUMBTC"@ {
        Some(CurrencyPair::QTUMBTC)
    } else {
        None
    }
}

#[verifier::rlimit(100)]
fn decode_mq(s: &str) -> (r: Option<CurrencyPair>)
    ensures
        r == lookup_mq(s@),
{
    if str_eq(s, "MTHETH") {
        Some(CurrencyPair::MTHETH)
    } else if str_eq(s, "MTLBTC") {
        Some(CurrencyPair::MTLBTC)
    } else if str_eq(s, "MTLETH") {
        Some(CurrencyPair::MTLETH)
    } else if str_eq(s, "NANOBNB") {
        Some(CurrencyPair::NANOBNB)
    } else if str_eq(s, "NANOBTC") {
        Some(CurrencyPair::NANOBTC)
    } else if str_eq(s, "NANOETH") {
        Some(CurrencyPair::NANOETH)
    } else if str_eq(s, "NASBNB") {
        Some(CurrencyPair::NASBNB)
    } else if str_eq(s, "NASBTC") {
        Some(CurrencyPair::NASBTC)
    } else if str_eq(s, "NASETH") {
        Some(CurrencyPair::NASETH)
    } else if str_eq(s, "NAVBNB") {
        Some(CurrencyPair::NAVBNB)
    } else if str_eq(s, "NAVBTC") {
        Some(CurrencyPair::NAVBTC)
    } else if str_eq(s, "NAVETH") {
        Some(CurrencyPair::NAVETH)
    } else if str_eq(s, "NCASHBNB") {
        Some(CurrencyPair::NCASHBNB)
    } else if str_eq(s, "NCASHBTC") {
        Some(CurrencyPair::NCASHBTC)
    } else if str_eq(s, "NCASHETH") {
        Some(CurrencyPair::NCASHETH)
    } else if str_eq(s, "NEBLBNB") {
        Some(CurrencyPair::NEBLBNB)
    } else if str_eq(s, "NEBLBTC") {
        Some(CurrencyPair::NEBLBTC)
    } else if str_eq(s, "NEBLETH") {
        Some(CurrencyPair::NEBLETH)
    } else if str_eq(s, "NEOBNB") {
        Some(CurrencyPair::NEOBNB)
    } else if str_eq(s, "NEOBTC") {
        Some(CurrencyPair::NEOBTC)
    } else if str_eq(s, "NEOETH") {
        Some(CurrencyPair::NEOETH)
    } else if str_eq(s, "NEOTUSD") {
        Some(CurrencyPair::NEOTUSD)
    } else if str_eq(s, "NEOUSDT") {
        Some(CurrencyPair::NEOUSDT)
    } else if str_eq(s, "NPXSBTC") {
        Some(CurrencyPair::NPXSBTC)
    } else if str_eq(s, "NPXSETH") {
        Some(CurrencyPair::NPXSETH)
    } else if str_eq(s, "NULSBNB") {
        Some(CurrencyPair::NULSBNB)
    } else if str_eq(s, "NULSBTC") {
        Some(CurrencyPair::NULSBTC)
    } else if str_eq(s, "NULSETH") {
        Some(CurrencyPair::NULSETH)
    } else if str_eq(s, "NULSUSDT") {
        Some(CurrencyPair::NULSUSDT)
    } else if str_eq(s, "NXSBNB") {
        Some(CurrencyPair::NXSBNB)
    } else if str_eq(s, "NXSBTC") {
        Some(CurrencyPair::NXSBTC)
    } else if str_eq(s, "NXSETH") {
        Some(CurrencyPair::NXSETH)
    } else if str_eq(s, "OAXBTC") {
        Some(CurrencyPair::OAXBTC)
    } else if str_eq(s, "OAXETH") {
        Some(CurrencyPair::OAXETH)
    } else if str_eq(s, "OMGBTC") {
        Some(CurrencyPair::OMGBTC)
    } else if str_eq(s, "OMGETH") {
        Some(CurrencyPair::OMGETH)
    } else if str_eq(s, "ONTBNB") {
        Some(CurrencyPair::ONTBNB)
    } else if str_eq(s, "ONTBTC") {
        Some(CurrencyPair::ONTBTC)
    } else if str_eq(s, "ONTETH") {
        Some(CurrencyPair::ONTETH)
    } else if str_eq(s, "ONTUSDT") {
        Some(CurrencyPair::ONTUSDT)
    } else if str_eq(s, "OSTBNB") {
        Some(CurrencyPair::OSTBNB)
    } else if str_eq(s, "OSTBTC") {
        Some(CurrencyPair::OSTBTC)
    } else if str_eq(s, "OSTETH") {
        Some(CurrencyPair::OSTETH)
    } else if str_eq(s, "PAXBNB") {
        Some(CurrencyPair::PAXBNB)
    } else if str_eq(s, "PAXBTC") {
        Some(CurrencyPair::PAXBTC)
    } else if str_eq(s, "PAXETH") {
        Some(CurrencyPair::PAXETH)
    } else if str_eq(s, "PAXTUSD") {
        Some(CurrencyPair::PAXTUSD)
    } else if str_eq(s, "PAXUSDT") {
        Some(CurrencyPair::PAXUSDT)
    } else if str_eq(s, "PHXBNB") {
        Some(CurrencyPair::PHXBNB)
    } else if str_eq(s, "PHXBTC") {
        Some(CurrencyPair::PHXBTC)
    } else if str_eq(s, "PHXETH") {
        Some(CurrencyPair::PHXETH)
    } else if str_eq(s, "PIVXBNB") {
        Some(CurrencyPair::PIVXBNB)
    } else if str_eq(s, "PIVXBTC") {
        Some(CurrencyPair::PIVXBTC)
    } else if str_eq(s, "PIVXETH") {
        Some(CurrencyPair::PIVXETH)
    } else if str_eq(s, "POABNB") {
        Some(CurrencyPair::POABNB)
    } else if str_eq(s, "POABTC") {
        Some(CurrencyPair::POABTC)
    } else if str_eq(s, "POAETH") {
        Some(CurrencyPair::POAETH)
    } else if str_eq(s, "POEBTC") {
        Some(CurrencyPair::POEBTC)
    } else if str_eq(s, "POEETH") {
        Some(CurrencyPair::POEETH)
    } else if str_eq(s, "POLYBNB") {
        Some(CurrencyPair::POLYBNB)
    } else if str_eq(s, "POLYBTC") {
        Some(CurrencyPair::POLYBTC)
    } else if str_eq(s, "POWRBNB") {
        Some(CurrencyPair::POWRBNB)
    } else if str_eq(s, "POWRBTC") {
        Some(CurrencyPair::POWRBTC)
    } else if str_eq(s, "POWRETH") {
        Some(CurrencyPair::POWRETH)
    } else if str_eq(s, "PPTBTC") {
        Some(CurrencyPair::PPTBTC)
    } else if str_eq(s, "PPTETH") {
        Some(CurrencyPair::PPTETH)
    } else if str_eq(s, "QKCBTC") {
        Some(CurrencyPair::QKCBTC)
    } else if str_eq(s, "QKCETH") {
        Some(CurrencyPair::QKCETH)
    } else if str_eq(s, "QLCBNB") {
        Some(CurrencyPair::QLCBNB)
    } else if str_eq(s, "QLCBTC") {
        Some(CurrencyPair::QLCBTC)
    } else if str_eq(s, "QLCETH") {
        Some(CurrencyPair::QLCETH)
    } else if str_eq(s, "QSPBNB") {
        Some(CurrencyPair::QSPBNB)
    } else if str_eq(s, "QSPBTC") {
        Some(CurrencyPair::QSPBTC)
    } else if str_eq(s, "QSPETH") {
        Some(CurrencyPair::QSPETH)
    } else if str_eq(s, "QTUMBNB") {
        Some(CurrencyPair::QTUMBNB)
    } else if str_eq(s, "QTUMBTC") {
        Some(CurrencyPair::QTUMBTC)
    } else {
        None
    }
}

#[verifier::rlimit(100)]
proof fn lemma_mq_sound(s: Seq<char>)
    ensures
        match lookup_mq(s) {
            Some(p) => wire_str(p) == s,
            None => true,
        },
{
}

pub open spec fn lookup_qu(s: Seq<char>) -> Option<CurrencyPair> {
    if s == "QTUMETH"@ {
        Some(CurrencyPair::QTUMETH)
    } else if s == "QTUMUSDT"@ {
        Some(CurrencyPair::QTUMUSDT)
    } else if s == "RCNBNB"@ {
        Some(CurrencyPair::RCNBNB)
    } else if s == "RCNBTC"@ {
        Some(CurrencyPair::RCNBTC)
    } else if s == "RCNETH"@ {
        Some(CurrencyPair::RCNETH)
    } else if s == "RDNBNB"@ {
        Some(CurrencyPair::RDNBNB)
    } else if s == "RDNBTC"@ {
        Some(CurrencyPair::RDNBTC)
    } else if s == "RDNETH"@ {
        Some(CurrencyPair::RDNETH)
    } else if s == "RENBNB"@ {
        Some(CurrencyPair::RENBNB)
    } else if s == "RENBTC"@ {
        Some(CurrencyPair::RENBTC)
    } else if s == "REPBNB"@ {
        Some(CurrencyPair::REPBNB)
    } else if s == "REPBTC"@ {
        Some(CurrencyPair::REPBTC)
    } else if s == "REPETH"@ {
        Some(CurrencyPair::REPETH)
    } else if s == "REQBTC"@ {
        Some(CurrencyPair::REQBTC)
    } else if s == "REQETH"@ {
        Some(CurrencyPair::REQETH)
    } else if s == "RLCBNB"@ {
        Some(CurrencyPair::RLCBNB)
    } else if s == "RLCBTC"@ {
        Some(CurrencyPair::RLCBTC)
    } else if s == "RLCETH"@ {
        Some(CurrencyPair::RLCETH)
    } else if s == "RPXBNB"@ {
        Some(CurrencyPair::RPXBNB)
    } else if s == "RPXBTC"@ {
        Some(CurrencyPair::RPXBTC)
    } else if s == "RPXETH"@ {
        Some(CurrencyPair::RPXETH)
    } else if s == "RVNBNB"@ {
        Some(CurrencyPair::RVNBNB)
    } else if s == "RVNBTC"@ {
        Some(CurrencyPair::RVNBTC)
    } else if s == "SALTBTC"@ {
        Some(CurrencyPair::SALTBTC)
    } else if s == "SALTETH"@ {
        Some(CurrencyPair::SALTETH)
    } else if s == "SCBNB"@ {
        Some(CurrencyPair::SCBNB)
    } else if s == "SCBTC"@ {
        Some(CurrencyPair::SCBTC)
    } else if s == "SCETH"@ {
        Some(CurrencyPair::SCETH)
    } else if s == "SKYBNB"@ {
        Some(CurrencyPair::SKYBNB)
    } else if s == "SKYBTC"@ {
        Some(CurrencyPair::SKYBTC)
    } else if s == "SKYETH"@ {
        Some(CurrencyPair::SKYETH)
    } else if s == "SNGLSBTC"@ {
        Some(CurrencyPair::SNGLSBTC)
    } else if s == "SNGLSETH"@ {
        Some(CurrencyPair::SNGLSETH)
    } else if s == "SNMBTC"@ {
        Some(CurrencyPair::SNMBTC)
    } else if s == "SNMETH"@ {
        Some(CurrencyPair::SNMETH)
    } else if s == "SNTBTC"@ {
        Some(CurrencyPair::SNTBTC)
    } else if s == "SNTETH"@ {
        Some(CurrencyPair::SNTETH)
    } else if s == "STEEMBNB"@ {
        Some(CurrencyPair::STEEMBNB)
    } else if s == "STEEMBTC"@ {
        Some(CurrencyPair::STEEMBTC)
    } else if s == "STEEMETH"@ {
        Some(CurrencyPair::STEEMETH)
    } else if s == "STORJBTC"@ {
        Some(CurrencyPair::STORJBTC)
    } else if s == "STORJETH"@ {
        Some(CurrencyPair::STORJETH)
    } else if s == "STORMBNB"@ {
        Some(CurrencyPair::STORMBNB)
    } else if s == "STORMBTC"@ {
        Some(CurrencyPair::STORMBTC)
    } else if s == "STORMETH"@ {
        Some(CurrencyPair::STORMETH)
    } else if s == "STRATBTC"@ {
        Some(CurrencyPair::STRATBTC)
    } else if s == "STRATETH"@ {
        Some(CurrencyPair::STRATETH)
    } else if s == "SUBBTC"@ {
        Some(CurrencyPair::SUBBTC)
    } else if s == "SUBETH"@ {
        Some(CurrencyPair::SUBETH)
    } else if s == "SYSBNB"@ {
        Some(CurrencyPair::SYSBNB)
    } else if s == "SYSBTC"@ {
        Some(CurrencyPair::SYSBTC)
    } else if s == "SYSETH"@ {
        Some(CurrencyPair::SYSETH)
    } else if s == "THETABNB"@ {
        Some(CurrencyPair::THETABNB)
    } else if s == "THETABTC"@ {
        Some(CurrencyPair::THETABTC)
    } else if s == "THETAETH"@ {
        Some(CurrencyPair::THETAETH)
    } else if s == "TNBBTC"@ {
        Some(CurrencyPair::TNBBTC)
    } else if s == "TNBETH"@ {
        Some(CurrencyPair::TNBETH)
    } else if s == "TNTBTC"@ {
        Some(CurrencyPair::TNTBTC)
    } else if s == "TNTETH"@ {
        Some(CurrencyPair::TNTETH)
    } else if s == "TRIGBNB"@ {
        Some(CurrencyPair::TRIGBNB)
    } else if s == "TRIGBTC"@ {
        Some(CurrencyPair::TRIGBTC)
    } else if s == "TRIGETH"@ {
        Some(CurrencyPair::TRIGETH)
    } else if s == "TRXBNB"@ {
        Some(CurrencyPair::TRXBNB)
    } else if s == "TRXBTC"@ {
        Some(CurrencyPair::TRXBTC)
    } else if s == "TRXETH"@ {
        Some(CurrencyPair::TRXETH)
    } else if s == "TRXPAX"@ {
        Some(CurrencyPair::TRXPAX)
    } else if s == "TRXTUSD"@ {
        Some(CurrencyPair::TRXTUSD)
    } else if s == "TRXUSDC"@ {
        Some(CurrencyPair::TRXUSDC)
    } else if s == "TRXUSDT"@ {
        Some(CurrencyPair::TRXUSDT)
    } else if s == "TRXXRP"@ {
        Some(CurrencyPair::TRXXRP)
    } else if s == "TUSDBNB"@ {
        Some(CurrencyPair::TUSDBNB)
    } else if s == "TUSDBTC"@ {
        Some(CurrencyPair::TUSDBTC)
    } else if s == "TUSDETH"@ {
        Some(CurrencyPair::TUSDETH)
    } else if s == "TUSDUSDT"@ {
        Some(CurrencyPair::TUSDUSDT)
    } else if s == "USDCBNB"@ {
        Some(CurrencyPair::USDCBNB)
    } else if s == "USDCBTC"@ {
        Some(CurrencyPair::USDCBTC)
    } else {
        None
    }
}

#[verifier::rlimit(100)]
fn decode_qu(s: &str) -> (r: Option<CurrencyPair>)
    ensures
        r == lookup_qu(s@),
{
    if str_eq(s, "QTUMETH") {
        Some(CurrencyPair::QTUMETH)
    } else if str_eq(s, "QTUMUSDT") {
        Some(CurrencyPair::QTUMUSDT)
    } else if str_eq(s, "RCNBNB") {
        Some(CurrencyPair::RCNBNB)
    } else if str_eq(s, "RCNBTC") {
        Some(CurrencyPair::RCNBTC)
    } else if str_eq(s, "RCNETH") {
        Some(CurrencyPair::RCNETH)
    } else if str_eq(s, "RDNBNB") {
        Some(CurrencyPair::RDNBNB)
    } else if str_eq(s, "RDNBTC") {
        Some(CurrencyPair::RDNBTC)
    } else if str_eq(s, "RDNETH") {
        Some(CurrencyPair::RDNETH)
    } else if str_eq(s, "RENBNB") {
        Some(CurrencyPair::RENBNB)
    } else if str_eq(s, "RENBTC") {
        Some(CurrencyPair::RENBTC)
    } else if str_eq(s, "REPBNB") {
        Some(CurrencyPair::REPBNB)
    } else if str_eq(s, "REPBTC") {
        Some(CurrencyPair::REPBTC)
    } else if str_eq(s, "REPETH") {
        Some(CurrencyPair::REPETH)
    } else if str_eq(s, "REQBTC") {
        Some(CurrencyPair::REQBTC)
    } else if str_eq(s, "REQETH") {
        Some(CurrencyPair::REQETH)
    } else if str_eq(s, "RLCBNB") {
        Some(CurrencyPair::RLCBNB)
    } else if str_eq(s, "RLCBTC") {
        Some(CurrencyPair::RLCBTC)
    } else if str_eq(s, "RLCETH") {
        Some(CurrencyPair::RLCETH)
    } else if str_eq(s, "RPXBNB") {
        Some(CurrencyPair::RPXBNB)
    } else if str_eq(s, "RPXBTC") {
        Some(CurrencyPair::RPXBTC)
    } else if str_eq(s, "RPXETH") {
        Some(CurrencyPair::RPXETH)
    } else if str_eq(s, "RVNBNB") {
        Some(CurrencyPair::RVNBNB)
    } else if str_eq(s, "RVNBTC") {
        Some(CurrencyPair::RVNBTC)
    } else if str_eq(s, "SALTBTC") {
        Some(CurrencyPair::SALTBTC)
    } else if str_eq(s, "SALTETH") {
        Some(CurrencyPair::SALTETH)
    } else if str_eq(s, "SCBNB") {
        Some(CurrencyPair::SCBNB)
    } else if str_eq(s, "SCBTC") {
        Some(CurrencyPair::SCBTC)
    } else if str_eq(s, "SCETH") {
        Some(CurrencyPair::SCETH)
    } else if str_eq(s, "SKYBNB") {
        Some(CurrencyPair::SKYBNB)
    } else if str_eq(s, "SKYBTC") {
        Some(CurrencyPair::SKYBTC)
    } else if str_eq(s, "SKYETH") {
        Some(CurrencyPair::SKYETH)
    } else if str_eq(s, "SNGLSBTC") {
        Some(CurrencyPair::SNGLSBTC)
    } else if str_eq(s, "SNGLSETH") {
        Some(CurrencyPair::SNGLSETH)
    } else if str_eq(s, "SNMBTC") {
        Some(CurrencyPair::SNMBTC)
    } else if str_eq(s, "SNMETH") {
        Some(CurrencyPair::SNMETH)
    } else if str_eq(s, "SNTBTC") {
        Some(CurrencyPair::SNTBTC)
    } else if str_eq(s, "SNTETH") {
        Some(CurrencyPair::SNTETH)
    } else if str_eq(s, "STEEMBNB") {
        Some(CurrencyPair::STEEMBNB)
    } else if str_eq(s, "STEEMBTC") {
        Some(CurrencyPair::STEEMBTC)
    } else if str_eq(s, "STEEMETH") {
        Some(CurrencyPair::STEEMETH)
    } else if str_eq(s, "STORJBTC") {
        Some(CurrencyPair::STORJBTC)
    } else if str_eq(s, "STORJETH") {
        Some(CurrencyPair::STORJETH)
    } else if str_eq(s, "STORMBNB") {
        Some(CurrencyPair::STORMBNB)
    } else if str_eq(s, "STORMBTC") {
        Some(CurrencyPair::STORMBTC)
    } else if str_eq(s, "STORMETH") {
        Some(CurrencyPair::STORMETH)
    } else if str_eq(s, "STRATBTC") {
        Some(CurrencyPair::STRATBTC)
    } else if str_eq(s, "STRATETH") {
        Some(CurrencyPair::STRATETH)
    } else if str_eq(s, "SUBBTC") {
        Some(CurrencyPair::SUBBTC)
    } else if str_eq(s, "SUBETH") {
        Some(CurrencyPair::SUBETH)
    } else if str_eq(s, "SYSBNB") {
        Some(CurrencyPair::SYSBNB)
    } else if str_eq(s, "SYSBTC") {
        Some(CurrencyPair::SYSBTC)
    } else if str_eq(s, "SYSETH") {
        Some(CurrencyPair::SYSETH)
    } else if str_eq(s, "THETABNB") {
        Some(CurrencyPair::THETABNB)
    } else if str_eq(s, "THETABTC") {
        Some(CurrencyPair::THETABTC)
    } else if str_eq(s, "THETAETH") {
        Some(CurrencyPair::THETAETH)
    } else if str_eq(s, "TNBBTC") {
        Some(CurrencyPair::TNBBTC)
    } else if str_eq(s, "TNBETH") {
        Some(CurrencyPair::TNBETH)
    } else if str_eq(s, "TNTBTC") {
        Some(CurrencyPair::TNTBTC)
    } else if str_eq(s, "TNTETH") {
        Some(CurrencyPair::TNTETH)
    } else if str_eq(s, "TRIGBNB") {
        Some(CurrencyPair::TRIGBNB)
    } else if str_eq(s, "TRIGBTC") {
        Some(CurrencyPair::TRIGBTC)
    } else if str_eq(s, "TRIGETH") {
        Some(CurrencyPair::TRIGETH)
    } else if str_eq(s, "TRXBNB") {
        Some(CurrencyPair::TRXBNB)
    } else if str_eq(s, "TRXBTC") {
        Some(CurrencyPair::TRXBTC)
    } else if str_eq(s, "TRXETH") {
        Some(CurrencyPair::TRXETH)
    } else if str_eq(s, "TRXPAX") {
        Some(CurrencyPair::TRXPAX)
    } else if str_eq(s, "TRXTUSD") {
        Some(CurrencyPair::TRXTUSD)
    } else if str_eq(s, "TRXUSDC") {
        Some(CurrencyPair::TRXUSDC)
    } else if str_eq(s, "TRXUSDT") {
        Some(CurrencyPair::TRXUSDT)
    } else if str_eq(s, "TRXXRP") {
        Some(CurrencyPair::TRXXRP)
    } else if str_eq(s, "TUSDBNB") {
        Some(CurrencyPair::TUSDBNB)
    } else if str_eq(s, "TUSDBTC") {
        Some(CurrencyPair::TUSDBTC)
    } else if str_eq(s, "TUSDETH") {
        Some(CurrencyPair::TUSDETH)
    } else if str_eq(s, "TUSDUSDT") {
        Some(CurrencyPair::TUSDUSDT)
    } else if str_eq(s, "USDCBNB") {
        Some(CurrencyPair::USDCBNB)
    } else if str_eq(s, "USDCBTC") {
        Some(CurrencyPair::USDCBTC)
    } else {
        None
    }
}

#[verifier::rlimit(100)]
proof fn lemma_qu_sound(s: Seq<char>)
    ensures
        match lookup_qu(s) {
            Some(p) => wire_str(p) == s,
            None => true,
        },
{
}

pub open spec fn lookup_uz(s: Seq<char>) -> Option<CurrencyPair> {
    if s == "USDCPAX"@ {
        Some(CurrencyPair::USDCPAX)
    } else if s == "USDCTUSD"@ {
        Some(CurrencyPair::USDCTUSD)
    } else if s == "USDCUSDT"@ {
        Some(CurrencyPair::USDCUSDT)
    } else if s == "VENBNB"@ {
        Some(CurrencyPair::VENBNB)
    } else if s == "VENBTC"@ {
        Some(CurrencyPair::VENBTC)
    } else if s == "VENETH"@ {
        Some(CurrencyPair::VENETH)
    } else if s == "VENUSDT"@ {
        Some(CurrencyPair::VENUSDT)
    } else if s == "VETBNB"@ {
        Some(CurrencyPair::VETBNB)
    } else if s == "VETBTC"@ {
        Some(CurrencyPair::VETBTC)
    } else if s == "VETETH"@ {
        Some(CurrencyPair::VETETH)
    } else if s == "VETUSDT"@ {
        Some(CurrencyPair::VETUSDT)
    } else if s == "VIABNB"@ {
        Some(CurrencyPair::VIABNB)
    } else if s == "VIABTC"@ {
        Some(CurrencyPair::VIABTC)
    } else if s == "VIAETH"@ {
        Some(CurrencyPair::VIAETH)
    } else if s == "VIBBTC"@ {
        Some(CurrencyPair::VIBBTC)
    } else if s == "VIBEBTC"@ {
        Some(CurrencyPair::VIBEBTC)
    } else if s == "VIBEETH"@ {
        Some(CurrencyPair::VIBEETH)
    } else if s == "VIBETH"@ {
        Some(CurrencyPair::VIBETH)
    } else if s == "WABIBNB"@ {
        Some(CurrencyPair::WABIBNB)
    } else if s == "WABIBTC"@ {
        Some(CurrencyPair::WABIBTC)
    } else if s == "WABIETH"@ {
        Some(CurrencyPair::WABIETH)
    } else if s == "WANBNB"@ {
        Some(CurrencyPair::WANBNB)
    } else if s == "WANBTC"@ {
        Some(CurrencyPair::WANBTC)
    } else if s == "WANETH"@ {
        Some(CurrencyPair::WANETH)
    } else if s == "WAVESBNB"@ {
        Some(CurrencyPair::WAVESBNB)
    } else if s == "WAVESBTC"@ {
        Some(CurrencyPair::WAVESBTC)
    } else if s == "WAVESETH"@ {
        Some(CurrencyPair::WAVESETH)
    } else if s == "WAVESPAX"@ {
        Some(CurrencyPair::WAVESPAX)
    } else if s == "WAVESTUSD"@ {
        Some(CurrencyPair::WAVESTUSD)
    } else if s == "WAVESUSDC"@ {
        Some(CurrencyPair::WAVESUSDC)
    } else if s == "WAVESUSDT"@ {
        Some(CurrencyPair::WAVESUSDT)
    } else if s == "WINGSBTC"@ {
        Some(CurrencyPair::WINGSBTC)
    } else if s == "WINGSETH"@ {
        Some(CurrencyPair::WINGSETH)
    } else if s == "WPRBTC"@ {
        Some(CurrencyPair::WPRBTC)
    } else if s == "WPRETH"@ {
        Some(CurrencyPair::WPRETH)
    } else if s == "WTCBNB"@ {
        Some(CurrencyPair::WTCBNB)
    } else if s == "WTCBTC"@ {
        Some(CurrencyPair::WTCBTC)
    } else if s == "WTCETH"@ {
        Some(CurrencyPair::WTCETH)
    } else if s == "XEMBNB"@ {
        Some(CurrencyPair::XEMBNB)
    } else if s == "XEMBTC"@ {
        Some(CurrencyPair::XEMBTC)
    } else if s == "XEMETH"@ {
        Some(CurrencyPair::XEMETH)
    } else if s == "XLMBNB"@ {
        Some(CurrencyPair::XLMBNB)
    } else if s == "XLMBTC"@ {
        Some(CurrencyPair::XLMBTC)
    } else if s == "XLMETH"@ {
        Some(CurrencyPair::XLMETH)
    } else if s == "XLMPAX"@ {
        Some(CurrencyPair::XLMPAX)
    } else if s == "XLMTUSD"@ {
        Some(CurrencyPair::XLMTUSD)
    } else if s == "XLMUSDC"@ {
        Some(CurrencyPair::XLMUSDC)
    } else if s == "XLMUSDT"@ {
        Some(CurrencyPair::XLMUSDT)
    } else if s == "XMRBTC"@ {
        Some(CurrencyPair::XMRBTC)
    } else if s == "XMRETH"@ {
        Some(CurrencyPair::XMRETH)
    } else if s == "XRPBNB"@ {
        Some(CurrencyPair::XRPBNB)
    } else if s == "XRPBTC"@ {
        Some(CurrencyPair::XRPBTC)
    } else if s == "XRPETH"@ {
        Some(CurrencyPair::XRPETH)
    } else if s == "XRPPAX"@ {
        Some(CurrencyPair::XRPPAX)
    } else if s == "XRPTUSD"@ {
        Some(CurrencyPair::XRPTUSD)
    } else if s == "XRPUSDC"@ {
        Some(CurrencyPair::XRPUSDC)
    } else if s == "XRPUSDT"@ {
        Some(CurrencyPair::XRPUSDT)
    } else if s == "XVGBTC"@ {
        Some(CurrencyPair::XVGBTC)
    } else if s == "XVGETH"@ {
        Some(CurrencyPair::XVGETH)
    } else if s == "XZCBNB"@ {
        Some(CurrencyPair::XZCBNB)
    } else if s == "XZCBTC"@ {
        Some(CurrencyPair::XZCBTC)
    } else if s == "XZCETH"@ {
        Some(CurrencyPair::XZCETH)
    } else if s == "XZCXRP"@ {
        Some(CurrencyPair::XZCXRP)
    } else if s == "YOYOBNB"@ {
        Some(CurrencyPair::YOYOBNB)
    } else if s == "YOYOBTC"@ {
        Some(CurrencyPair::YOYOBTC)
    } else if s == "YOYOETH"@ {
        Some(CurrencyPair::YOYOETH)
    } else if s == "ZECBTC"@ {
        Some(CurrencyPair::ZECBTC)
    } else if s == "ZECETH"@ {
        Some(CurrencyPair::ZECETH)
    } else if s == "ZENBNB"@ {
        Some(CurrencyPair::ZENBNB)
    } else if s == "ZENBTC"@ {
        Some(CurrencyPair::ZENBTC)
    } else if s == "ZENETH"@ {
        Some(CurrencyPair::ZENETH)
    } else if s == "ZILBNB"@ {
        Some(CurrencyPair::ZILBNB)
    } else if s == "ZILBTC"@ {
        Some(CurrencyPair::ZILBTC)
    } else if s == "ZILETH"@ {
        Some(CurrencyPair::ZILETH)
    } else if s == "ZRXBTC"@ {
        Some(CurrencyPair::ZRXBTC)
    } else if s == "ZRXETH"@ {
        Some(CurrencyPair::ZRXETH)
    } else {
        None
    }
}

#[verifier::rlimit(100)]
fn decode_uz(s: &str) -> (r: Option<CurrencyPair>)
    ensures
        r == lookup_uz(s@),
{
    if str_eq(s, "USDCPAX") {
        Some(CurrencyPair::USDCPAX)
    } else if str_eq(s, "USDCTUSD") {
        Some(CurrencyPair::USDCTUSD)
    } else if str_eq(s, "USDCUSDT") {
        Some(CurrencyPair::USDCUSDT)
    } else if str_eq(s, "VENBNB") {
        Some(CurrencyPair::VENBNB)
    } else if str_eq(s, "VENBTC") {
        Some(CurrencyPair::VENBTC)
    } else if str_eq(s, "VENETH") {
        Some(CurrencyPair::VENETH)
    } else if str_eq(s, "VENUSDT") {
        Some(CurrencyPair::VENUSDT)
    } else if str_eq(s, "VETBNB") {
        Some(CurrencyPair::VETBNB)
    } else if str_eq(s, "VETBTC") {
        Some(CurrencyPair::VETBTC)
    } else if str_eq(s, "VETETH") {
        Some(CurrencyPair::VETETH)
    } else if str_eq(s, "VETUSDT") {
        Some(CurrencyPair::VETUSDT)
    } else if str_eq(s, "VIABNB") {
        Some(CurrencyPair::VIABNB)
    } else if str_eq(s, "VIABTC") {
        Some(CurrencyPair::VIABTC)
    } else if str_eq(s, "VIAETH") {
        Some(CurrencyPair::VIAETH)
    } else if str_eq(s, "VIBBTC") {
        Some(CurrencyPair::VIBBTC)
    } else if str_eq(s, "VIBEBTC") {
        Some(CurrencyPair::VIBEBTC)
    } else if str_eq(s, "VIBEETH") {
        Some(CurrencyPair::VIBEETH)
    } else if str_eq(s, "VIBETH") {
        Some(CurrencyPair::VIBETH)
    } else if str_eq(s, "WABIBNB") {
        Some(CurrencyPair::WABIBNB)
    } else if str_eq(s, "WABIBTC") {
        Some(CurrencyPair::WABIBTC)
    } else if str_eq(s, "WABIETH") {
        Some(CurrencyPair::WABIETH)
    } else if str_eq(s, "WANBNB") {
        Some(CurrencyPair::WANBNB)
    } else if str_eq(s, "WANBTC") {
        Some(CurrencyPair::WANBTC)
    } else if str_eq(s, "WANETH") {
        Some(CurrencyPair::WANETH)
    } else if str_eq(s, "WAVESBNB") {
        Some(CurrencyPair::WAVESBNB)
    } else if str_eq(s, "WAVESBTC") {
        Some(CurrencyPair::WAVESBTC)
    } else if str_eq(s, "WAVESETH") {
        Some(CurrencyPair::WAVESETH)
    } else if str_eq(s, "WAVESPAX") {
        Some(CurrencyPair::WAVESPAX)
    } else if str_eq(s, "WAVESTUSD") {
        Some(CurrencyPair::WAVESTUSD)
    } else if str_eq(s, "WAVESUSDC") {
        Some(CurrencyPair::WAVESUSDC)
    } else if str_eq(s, "WAVESUSDT") {
        Some(CurrencyPair::WAVESUSDT)
    } else if str_eq(s, "WINGSBTC") {
        Some(CurrencyPair::WINGSBTC)
    } else if str_eq(s, "WINGSETH") {
        Some(CurrencyPair::WINGSETH)
    } else if str_eq(s, "WPRBTC") {
        Some(CurrencyPair::WPRBTC)
    } else if str_eq(s, "WPRETH") {
        Some(CurrencyPair::WPRETH)
    } else if str_eq(s, "WTCBNB") {
        Some(CurrencyPair::WTCBNB)
    } else if str_eq(s, "WTCBTC") {
        Some(CurrencyPair::WTCBTC)
    } else if str_eq(s, "WTCETH") {
        Some(CurrencyPair::WTCETH)
    } else if str_eq(s, "XEMBNB") {
        Some(CurrencyPair::XEMBNB)
    } else if str_eq(s, "XEMBTC") {
        Some(CurrencyPair::XEMBTC)
    } else if str_eq(s, "XEMETH") {
        Some(CurrencyPair::XEMETH)
    } else if str_eq(s, "XLMBNB") {
        Some(CurrencyPair::XLMBNB)
    } else if str_eq(s, "XLMBTC") {
        Some(CurrencyPair::XLMBTC)
    } else if str_eq(s, "XLMETH") {
        Some(CurrencyPair::XLMETH)
    } else if str_eq(s, "XLMPAX") {
        Some(CurrencyPair::XLMPAX)
    } else if str_eq(s, "XLMTUSD") {
        Some(CurrencyPair::XLMTUSD)
    } else if str_eq(s, "XLMUSDC") {
        Some(CurrencyPair::XLMUSDC)
    } else if str_eq(s, "XLMUSDT") {
        Some(CurrencyPair::XLMUSDT)
    } else if str_eq(s, "XMRBTC") {
        Some(CurrencyPair::XMRBTC)
    } else if str_eq(s, "XMRETH") {
        Some(CurrencyPair::XMRETH)
    } else if str_eq(s, "XRPBNB") {
        Some(CurrencyPair::XRPBNB)
    } else if str_eq(s, "XRPBTC") {
        Some(CurrencyPair::XRPBTC)
    } else if str_eq(s, "XRPETH") {
        Some(CurrencyPair::XRPETH)
    } else if str_eq(s, "XRPPAX") {
        Some(CurrencyPair::XRPPAX)
    } else if str_eq(s, "XRPTUSD") {
        Some(CurrencyPair::XRPTUSD)
    } else if str_eq(s, "XRPUSDC") {
        Some(CurrencyPair::XRPUSDC)
    } else if str_eq(s, "XRPUSDT") {
        Some(CurrencyPair::XRPUSDT)
    } else if str_eq(s, "XVGBTC") {
        Some(CurrencyPair::XVGBTC)
    } else if str_eq(s, "XVGETH") {
        Some(CurrencyPair::XVGETH)
    } else if str_eq(s, "XZCBNB") {
        Some(CurrencyPair::XZCBNB)
    } else if str_eq(s, "XZCBTC") {
        Some(CurrencyPair::XZCBTC)
    } else if str_eq(s, "XZCETH") {
        Some(CurrencyPair::XZCETH)
    } else if str_eq(s, "XZCXRP") {
        Some(CurrencyPair::XZCXRP)
    } else if str_eq(s, "YOYOBNB") {
        Some(CurrencyPair::YOYOBNB)
    } else if str_eq(s, "YOYOBTC") {
        Some(CurrencyPair::YOYOBTC)
    } else if str_eq(s, "YOYOETH") {
        Some(CurrencyPair::YOYOETH)
    } else if str_eq(s, "ZECBTC") {
        Some(CurrencyPair::ZECBTC)
    } else if str_eq(s, "ZECETH") {
        Some(CurrencyPair::ZECETH)
    } else if str_eq(s, "ZENBNB") {
        Some(CurrencyPair::ZENBNB)
    } else if str_eq(s, "ZENBTC") {
        Some(CurrencyPair::ZENBTC)
    } else if str_eq(s, "ZENETH") {
        Some(CurrencyPair::ZENETH)
    } else if str_eq(s, "ZILBNB") {
        Some(CurrencyPair::ZILBNB)
    } else if str_eq(s, "ZILBTC") {
        Some(CurrencyPair::ZILBTC)
    } else if str_eq(s, "ZILETH") {
        Some(CurrencyPair::ZILETH)
    } else if str_eq(s, "ZRXBTC") {
        Some(CurrencyPair::ZRXBTC)
    } else if str_eq(s, "ZRXETH") {
        Some(CurrencyPair::ZRXETH)
    } else {
        None
    }
}

#[verifier::rlimit(100)]
proof fn lemma_uz_sound(s: Seq<char>)
    ensures
        match lookup_uz(s) {
            Some(p) => wire_str(p) == s,
            None => true,
        },
{
}

/// The pair a wire symbol string denotes, if any: an exact, case-sensitive
/// match against the enumeration.
pub open spec fn spec_symbol_of_wire(s: Seq<char>) -> Option<CurrencyPair> {
    match lookup_ab(s) {
        Some(p) => Some(p),
        None => match lookup_bg(s) {
            Some(p) => Some(p),
            None => match lookup_gm(s) {
                Some(p) => Some(p),
                None => match lookup_mq(s) {
                    Some(p) => Some(p),
                    None => match lookup_qu(s) {
                        Some(p) => Some(p),
                        None => lookup_uz(s),
                    },
                },
            },
        },
    }
}

/// Decodes a wire symbol string against the closed enumeration; an unknown
/// string is `UnknownSymbol`, carrying the offending text.
pub fn decode_symbol(s: &str) -> (r: Result<CurrencyPair, DecodeError>)
    ensures
        match spec_symbol_of_wire(s@) {
            Some(p) => r matches Ok(x) && x == p,
            None => r matches Err(e) && e@ == ErrorModel::UnknownSymbol(s@),
        },
{
    let found: Option<CurrencyPair> = match decode_ab(s) {
        Some(p) => Some(p),
        None => match decode_bg(s) {
            Some(p) => Some(p),
            None => match decode_gm(s) {
                Some(p) => Some(p),
                None => match decode_mq(s) {
                    Some(p) => Some(p),
                    None => match decode_qu(s) {
                        Some(p) => Some(p),
                        None => decode_uz(s),
                    },
                },
            },
        },
    };
    match found {
        Some(p) => Ok(p),
        None => Err(DecodeError::UnknownSymbol(s.to_owned())),
    }
}

/// A successful symbol decode inverts the wire spelling exactly: the
/// matched pair spells back to the very string that was decoded.
pub proof fn lemma_symbol_sound(s: Seq<char>)
    ensures
        match spec_symbol_of_wire(s) {
            Some(p) => wire_str(p) == s,
            None => true,
        },
{
    lemma_ab_sound(s);
    lemma_bg_sound(s);
    lemma_gm_sound(s);
    lemma_mq_sound(s);
    lemma_qu_sound(s);
    lemma_uz_sound(s);
}

/// Round trip: for every valid wire symbol string, decoding and rendering
/// back to the wire yields exactly the lower-cased input.
pub proof fn lemma_symbol_round_trip(s: Seq<char>)
    ensures
        match spec_symbol_of_wire(s) {
            Some(p) => ascii_lower_seq(wire_str(p)) == ascii_lower_seq(s),
            None => true,
        },
{
    lemma_symbol_sound(s);
}

} // verus!
