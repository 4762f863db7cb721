//! The enumerated byte codes. Each is the raw byte of the wire and nothing
//! more: a byte outside the known set is kept as it is, and only its text says
//! that it is unknown.

use vstd::prelude::*;

verus! {

/// Which system event a notice reports.
#[allow(non_camel_case_types)]
#[derive(Debug, Clone, Copy, PartialEq, Eq)]
pub struct eSystemEvent(pub u8);

#[allow(non_upper_case_globals)]
impl eSystemEvent {
    /// `'O'`
    pub const Start_of_Messages: u8 = 79;

    /// `'S'`
    pub const Start_of_System_hours: u8 = 83;

    /// `'Q'`
    pub const Start_of_Market_hours: u8 = 81;

    /// `'M'`
    pub const End_of_Market_hours: u8 = 77;

    /// `'E'`
    pub const End_of_System_hours: u8 = 69;

    /// `'C'`
    pub const End_of_Messages: u8 = 67;

    /// The text for the code `c`: the byte in quotes and its meaning, or
    /// `Unknown` for a byte outside the known set.
    pub open spec fn text(c: u8) -> Seq<char> {
        if c == Self::Start_of_Messages {
            "'O' (Start of Messages)"@
        } else if c == Self::Start_of_System_hours {
            "'S' (Start of System hours)"@
        } else if c == Self::Start_of_Market_hours {
            "'Q' (Start of Market hours)"@
        } else if c == Self::End_of_Market_hours {
            "'M' (End of Market hours)"@
        } else if c == Self::End_of_System_hours {
            "'E' (End of System hours)"@
        } else if c == Self::End_of_Messages {
            "'C' (End of Messages)"@
        } else {
            "Unknown"@
        }
    }

    /// The code as text.
    pub fn to_string(&self) -> (s: String)
        ensures
            s@ == Self::text(self.0),
    {
        if self.0 == Self::Start_of_Messages {
            "'O' (Start of Messages)".to_owned()
        } else if self.0 == Self::Start_of_System_hours {
            "'S' (Start of System hours)".to_owned()
        } else if self.0 == Self::Start_of_Market_hours {
            "'Q' (Start of Market hours)".to_owned()
        } else if self.0 == Self::End_of_Market_hours {
            "'M' (End of Market hours)".to_owned()
        } else if self.0 == Self::End_of_System_hours {
            "'E' (End of System hours)".to_owned()
        } else if self.0 == Self::End_of_Messages {
            "'C' (End of Messages)".to_owned()
        } else {
            "Unknown".to_owned()
        }
    }
}

impl Default for eSystemEvent {
    /// The zero byte, which is no known code.
    fn default() -> (r: Self)
        ensures
            r.0 == 0,
    {
        eSystemEvent(0)
    }
}

/// The market on which an instrument is listed.
#[allow(non_camel_case_types)]
#[derive(Debug, Clone, Copy, PartialEq, Eq)]
pub struct eMarketCategory(pub u8);

#[allow(non_upper_case_globals)]
impl eMarketCategory {
    /// `'Q'`
    pub const Nasdaq_Global_Select_MarketSM: u8 = 81;

    /// `'G'`
    pub const Nasdaq_Global_MarketSM: u8 = 71;

    /// `'S'`
    pub const Nasdaq_Capital_Market: u8 = 83;

    /// `'N'`
    pub const New_York_Stock_Exchange: u8 = 78;

    /// `'A'`
    pub const NYSE_MKT: u8 = 65;

    /// `'P'`
    pub const NYSE_Arca: u8 = 80;

    /// `'Z'`
    pub const BATS_Z_Exchange: u8 = 90;

    /// `'V'`
    pub const Investors_Exchange_LLC: u8 = 86;

    /// `' '`
    pub const Not_available: u8 = 32;

    /// The text for the code `c`: the byte in quotes and its meaning, or
    /// `Unknown` for a byte outside the known set.
    pub open spec fn text(c: u8) -> Seq<char> {
        if c == Self::Nasdaq_Global_Select_MarketSM {
            "'Q' (Nasdaq Global Select MarketSM)"@
        } else if c == Self::Nasdaq_Global_MarketSM {
            "'G' (Nasdaq Global MarketSM)"@
        } else if c == Self::Nasdaq_Capital_Market {
            "'S' (Nasdaq Capital Market)"@
        } else if c == Self::New_York_Stock_Exchange {
            "'N' (New York Stock Exchange)"@
        } else if c == Self::NYSE_MKT {
            "'A' (NYSE MKT)"@
        } else if c == Self::NYSE_Arca {
            "'P' (NYSE Arca)"@
        } else if c == Self::BATS_Z_Exchange {
            "'Z' (BATS Z Exchange)"@
        } else if c == Self::Investors_Exchange_LLC {
            "'V' (Investors Exchange LLC)"@
        } else if c == Self::Not_available {
            "' ' (Not available)"@
        } else {
            "Unknown"@
        }
    }

    /// The code as text.
    pub fn to_string(&self) -> (s: String)
        ensures
            s@ == Self::text(self.0),
    {
        if self.0 == Self::Nasdaq_Global_Select_MarketSM {
            "'Q' (Nasdaq Global Select MarketSM)".to_owned()
        } else if self.0 == Self::Nasdaq_Global_MarketSM {
            "'G' (Nasdaq Global MarketSM)".to_owned()
        } else if self.0 == Self::Nasdaq_Capital_Market {
            "'S' (Nasdaq Capital Market)".to_owned()
        } else if self.0 == Self::New_York_Stock_Exchange {
            "'N' (New York Stock Exchange)".to_owned()
        } else if self.0 == Self::NYSE_MKT {
            "'A' (NYSE MKT)".to_owned()
        } else if self.0 == Self::NYSE_Arca {
            "'P' (NYSE Arca)".to_owned()
        } else if self.0 == Self::BATS_Z_Exchange {
            "'Z' (BATS Z Exchange)".to_owned()
        } else if self.0 == Self::Investors_Exchange_LLC {
            "'V' (Investors Exchange LLC)".to_owned()
        } else if self.0 == Self::Not_available {
            "' ' (Not available)".to_owned()
        } else {
            "Unknown".to_owned()
        }
    }
}

impl Default for eMarketCategory {
    /// The zero byte, which is no known code.
    fn default() -> (r: Self)
        ensures
            r.0 == 0,
    {
        eMarketCategory(0)
    }
}

/// The financial status of an issuer.
#[allow(non_camel_case_types)]
#[derive(Debug, Clone, Copy, PartialEq, Eq)]
pub struct eFinancialStatusIndicator(pub u8);

#[allow(non_upper_case_globals)]
impl eFinancialStatusIndicator {
    /// `'D'`
    pub const Deficient: u8 = 68;

    /// `'E'`
    pub const Delinquent: u8 = 69;

    /// `'Q'`
    pub const Bankrupt: u8 = 81;

    /// `'S'`
    pub const Suspended: u8 = 83;

    /// `'G'`
    pub const Deficient_and_Bankrupt: u8 = 71;

    /// `'H'`
    pub const Deficient_and_Delinquent: u8 = 72;

    /// `'J'`
    pub const Delinquent_and_Bankrupt: u8 = 74;

    /// `'K'`
    pub const Deficient_Delinquent_and_Bankrupt: u8 = 75;

    /// `'C'`
    pub const Creations_and_or_Redemptions_Suspended: u8 = 67;

    /// `'N'`
    pub const Normal: u8 = 78;

    /// `' '`
    pub const Not_available: u8 = 32;

    /// The text for the code `c`: the byte in quotes and its meaning, or
    /// `Unknown` for a byte outside the known set.
    pub open spec fn text(c: u8) -> Seq<char> {
        if c == Self::Deficient {
            "'D' (Deficient)"@
        } else if c == Self::Delinquent {
            "'E' (Delinquent)"@
        } else if c == Self::Bankrupt {
            "'Q' (Bankrupt)"@
        } else if c == Self::Suspended {
            "'S' (Suspended)"@
        } else if c == Self::Deficient_and_Bankrupt {
            "'G' (Deficient and Bankrupt)"@
        } else if c == Self::Deficient_and_Delinquent {
            "'H' (Deficient and Delinquent)"@
        } else if c == Self::Delinquent_and_Bankrupt {
            "'J' (Delinquent and Bankrupt)"@
        } else if c == Self::Deficient_Delinquent_and_Bankrupt {
            "'K' (Deficient Delinquent and Bankrupt)"@
        } else if c == Self::Creations_and_or_Redemptions_Suspended {
            "'C' (Creations and or Redemptions Suspended)"@
        } else if c == Self::Normal {
            "'N' (Normal)"@
        } else if c == Self::Not_available {
            "' ' (Not available)"@
        } else {
            "Unknown"@
        }
    }

    /// The code as text.
    pub fn to_string(&self) -> (s: String)
        ensures
            s@ == Self::text(self.0),
    {
        if self.0 == Self::Deficient {
            "'D' (Deficient)".to_owned()
        } else if self.0 == Self::Delinquent {
            "'E' (Delinquent)".to_owned()
        } else if self.0 == Self::Bankrupt {
            "'Q' (Bankrupt)".to_owned()
        } else if self.0 == Self::Suspended {
            "'S' (Suspended)".to_owned()
        } else if self.0 == Self::Deficient_and_Bankrupt {
            "'G' (Deficient and Bankrupt)".to_owned()
        } else if self.0 == Self::Deficient_and_Delinquent {
            "'H' (Deficient and Delinquent)".to_owned()
        } else if self.0 == Self::Delinquent_and_Bankrupt {
            "'J' (Delinquent and Bankrupt)".to_owned()
        } else if self.0 == Self::Deficient_Delinquent_and_Bankrupt {
            "'K' (Deficient Delinquent and Bankrupt)".to_owned()
        } else if self.0 == Self::Creations_and_or_Redemptions_Suspended {
            "'C' (Creations and or Redemptions Suspended)".to_owned()
        } else if self.0 == Self::Normal {
            "'N' (Normal)".to_owned()
        } else if self.0 == Self::Not_available {
            "' ' (Not available)".to_owned()
        } else {
            "Unknown".to_owned()
        }
    }
}

impl Default for eFinancialStatusIndicator {
    /// The zero byte, which is no known code.
    fn default() -> (r: Self)
        ensures
            r.0 == 0,
    {
        eFinancialStatusIndicator(0)
    }
}

/// Whether orders must come in round lots.
#[allow(non_camel_case_types)]
#[derive(Debug, Clone, Copy, PartialEq, Eq)]
pub struct eRoundLotsOnly(pub u8);

#[allow(non_upper_case_globals)]
impl eRoundLotsOnly {
    /// `'Y'`
    pub const Round_Lots_Only: u8 = 89;

    /// `'N'`
    pub const Accepts_Round_Lots: u8 = 78;

    /// The text for the code `c`: the byte in quotes and its meaning, or
    /// `Unknown` for a byte outside the known set.
    pub open spec fn text(c: u8) -> Seq<char> {
        if c == Self::Round_Lots_Only {
            "'Y' (Round Lots Only)"@
        } else if c == Self::Accepts_Round_Lots {
            "'N' (Accepts Round Lots)"@
        } else {
            "Unknown"@
        }
    }

    /// The code as text.
    pub fn to_string(&self) -> (s: String)
        ensures
            s@ == Self::text(self.0),
    {
        if self.0 == Self::Round_Lots_Only {
            "'Y' (Round Lots Only)".to_owned()
        } else if self.0 == Self::Accepts_Round_Lots {
            "'N' (Accepts Round Lots)".to_owned()
        } else {
            "Unknown".to_owned()
        }
    }
}

impl Default for eRoundLotsOnly {
    /// The zero byte, which is no known code.
    fn default() -> (r: Self)
        ensures
            r.0 == 0,
    {
        eRoundLotsOnly(0)
    }
}

/// Whether an instrument is live or a test.
#[allow(non_camel_case_types)]
#[derive(Debug, Clone, Copy, PartialEq, Eq)]
pub struct eAuthenticity(pub u8);

#[allow(non_upper_case_globals)]
impl eAuthenticity {
    /// `'P'`
    pub const Production: u8 = 80;

    /// `'T'`
    pub const Test: u8 = 84;

    /// The text for the code `c`: the byte in quotes and its meaning, or
    /// `Unknown` for a byte outside the known set.
    pub open spec fn text(c: u8) -> Seq<char> {
        if c == Self::Production {
            "'P' (Production)"@
        } else if c == Self::Test {
            "'T' (Test)"@
        } else {
            "Unknown"@
        }
    }

    /// The code as text.
    pub fn to_string(&self) -> (s: String)
        ensures
            s@ == Self::text(self.0),
    {
        if self.0 == Self::Production {
            "'P' (Production)".to_owned()
        } else if self.0 == Self::Test {
            "'T' (Test)".to_owned()
        } else {
            "Unknown".to_owned()
        }
    }
}

impl Default for eAuthenticity {
    /// The zero byte, which is no known code.
    fn default() -> (r: Self)
        ensures
            r.0 == 0,
    {
        eAuthenticity(0)
    }
}

/// Whether an instrument is under short-sale threshold restrictions.
#[allow(non_camel_case_types)]
#[derive(Debug, Clone, Copy, PartialEq, Eq)]
pub struct eShortSaleThresholdIndicator(pub u8);

#[allow(non_upper_case_globals)]
impl eShortSaleThresholdIndicator {
    /// `'Y'`
    pub const Restricted: u8 = 89;

    /// `'N'`
    pub const Not_Restricted: u8 = 78;

    /// `' '`
    pub const Not_available: u8 = 32;

    /// The text for the code `c`: the byte in quotes and its meaning, or
    /// `Unknown` for a byte outside the known set.
    pub open spec fn text(c: u8) -> Seq<char> {
        if c == Self::Restricted {
            "'Y' (Restricted)"@
        } else if c == Self::Not_Restricted {
            "'N' (Not Restricted)"@
        } else if c == Self::Not_available {
            "' ' (Not available)"@
        } else {
            "Unknown"@
        }
    }

    /// The code as text.
    pub fn to_string(&self) -> (s: String)
        ensures
            s@ == Self::text(self.0),
    {
        if self.0 == Self::Restricted {
            "'Y' (Restricted)".to_owned()
        } else if self.0 == Self::Not_Restricted {
            "'N' (Not Restricted)".to_owned()
        } else if self.0 == Self::Not_available {
            "' ' (Not available)".to_owned()
        } else {
            "Unknown".to_owned()
        }
    }
}

impl Default for eShortSaleThresholdIndicator {
    /// The zero byte, which is no known code.
    fn default() -> (r: Self)
        ensures
            r.0 == 0,
    {
        eShortSaleThresholdIndicator(0)
    }
}

/// Whether an instrument is newly listed.
#[allow(non_camel_case_types)]
#[derive(Debug, Clone, Copy, PartialEq, Eq)]
pub struct eIPOFlag(pub u8);

#[allow(non_upper_case_globals)]
impl eIPOFlag {
    /// `'Y'`
    pub const New_IPO_Security: u8 = 89;

    /// `'N'`
    pub const Not_A_New_IPO_Security: u8 = 78;

    /// `' '`
    pub const Not_available: u8 = 32;

    /// The text for the code `c`: the byte in quotes and its meaning, or
    /// `Unknown` for a byte outside the known set.
    pub open spec fn text(c: u8) -> Seq<char> {
        if c == Self::New_IPO_Security {
            "'Y' (New IPO Security)"@
        } else if c == Self::Not_A_New_IPO_Security {
            "'N' (Not A New IPO Security)"@
        } else if c == Self::Not_available {
            "' ' (Not available)"@
        } else {
            "Unknown"@
        }
    }

    /// The code as text.
    pub fn to_string(&self) -> (s: String)
        ensures
            s@ == Self::text(self.0),
    {
        if self.0 == Self::New_IPO_Security {
            "'Y' (New IPO Security)".to_owned()
        } else if self.0 == Self::Not_A_New_IPO_Security {
            "'N' (Not A New IPO Security)".to_owned()
        } else if self.0 == Self::Not_available {
            "' ' (Not available)".to_owned()
        } else {
            "Unknown".to_owned()
        }
    }
}

impl Default for eIPOFlag {
    /// The zero byte, which is no known code.
    fn default() -> (r: Self)
        ensures
            r.0 == 0,
    {
        eIPOFlag(0)
    }
}

/// The limit-up limit-down price band tier of an instrument.
#[allow(non_camel_case_types)]
#[derive(Debug, Clone, Copy, PartialEq, Eq)]
pub struct eLULDReferencePriceTier(pub u8);

#[allow(non_upper_case_globals)]
impl eLULDReferencePriceTier {
    /// `'1'`
    pub const Tier_1_NMS_Stocks_and_select_ETPs: u8 = 49;

    /// `'2'`
    pub const Tier_2_NMSStocks: u8 = 50;

    /// `' '`
    pub const Not_available: u8 = 32;

    /// The text for the code `c`: the byte in quotes and its meaning, or
    /// `Unknown` for a byte outside the known set.
    pub open spec fn text(c: u8) -> Seq<char> {
        if c == Self::Tier_1_NMS_Stocks_and_select_ETPs {
            "'1' (Tier 1 NMS Stocks and select ETPs)"@
        } else if c == Self::Tier_2_NMSStocks {
            "'2' (Tier 2 NMSStocks)"@
        } else if c == Self::Not_available {
            "' ' (Not available)"@
        } else {
            "Unknown"@
        }
    }

    /// The code as text.
    pub fn to_string(&self) -> (s: String)
        ensures
            s@ == Self::text(self.0),
    {
        if self.0 == Self::Tier_1_NMS_Stocks_and_select_ETPs {
            "'1' (Tier 1 NMS Stocks and select ETPs)".to_owned()
        } else if self.0 == Self::Tier_2_NMSStocks {
            "'2' (Tier 2 NMSStocks)".to_owned()
        } else if self.0 == Self::Not_available {
            "' ' (Not available)".to_owned()
        } else {
            "Unknown".to_owned()
        }
    }
}

impl Default for eLULDReferencePriceTier {
    /// The zero byte, which is no known code.
    fn default() -> (r: Self)
        ensures
            r.0 == 0,
    {
        eLULDReferencePriceTier(0)
    }
}

/// Whether an instrument is an exchange-traded product.
#[allow(non_camel_case_types)]
#[derive(Debug, Clone, Copy, PartialEq, Eq)]
pub struct eETPFlag(pub u8);

#[allow(non_upper_case_globals)]
impl eETPFlag {
    /// `'Y'`
    pub const Instrument_is_an_ETP: u8 = 89;

    /// `'N'`
    pub const Instrument_is_not_an_ETP: u8 = 78;

    /// `' '`
    pub const Not_available: u8 = 32;

    /// The text for the code `c`: the byte in quotes and its meaning, or
    /// `Unknown` for a byte outside the known set.
    pub open spec fn text(c: u8) -> Seq<char> {
        if c == Self::Instrument_is_an_ETP {
            "'Y' (Instrument is an ETP)"@
        } else if c == Self::Instrument_is_not_an_ETP {
            "'N' (Instrument is not an ETP)"@
        } else if c == Self::Not_available {
            "' ' (Not available)"@
        } else {
            "Unknown"@
        }
    }

    /// The code as text.
    pub fn to_string(&self) -> (s: String)
        ensures
            s@ == Self::text(self.0),
    {
        if self.0 == Self::Instrument_is_an_ETP {
            "'Y' (Instrument is an ETP)".to_owned()
        } else if self.0 == Self::Instrument_is_not_an_ETP {
            "'N' (Instrument is not an ETP)".to_owned()
        } else if self.0 == Self::Not_available {
            "' ' (Not available)".to_owned()
        } else {
            "Unknown".to_owned()
        }
    }
}

impl Default for eETPFlag {
    /// The zero byte, which is no known code.
    fn default() -> (r: Self)
        ensures
            r.0 == 0,
    {
        eETPFlag(0)
    }
}

/// Whether an exchange-traded product is an inverse one.
#[allow(non_camel_case_types)]
#[derive(Debug, Clone, Copy, PartialEq, Eq)]
pub struct eInverseIndicator(pub u8);

#[allow(non_upper_case_globals)]
impl eInverseIndicator {
    /// `'Y'`
    pub const ETP_is_an_Inverse_ETP: u8 = 89;

    /// `'N'`
    pub const ETP_is_not_an_Inverse_ETP: u8 = 78;

    /// The text for the code `c`: the byte in quotes and its meaning, or
    /// `Unknown` for a byte outside the known set.
    pub open spec fn text(c: u8) -> Seq<char> {
        if c == Self::ETP_is_an_Inverse_ETP {
            "'Y' (ETP is an Inverse ETP)"@
        } else if c == Self::ETP_is_not_an_Inverse_ETP {
            "'N' (ETP is not an Inverse ETP)"@
        } else {
            "Unknown"@
        }
    }

    /// The code as text.
    pub fn to_string(&self) -> (s: String)
        ensures
            s@ == Self::text(self.0),
    {
        if self.0 == Self::ETP_is_an_Inverse_ETP {
            "'Y' (ETP is an Inverse ETP)".to_owned()
        } else if self.0 == Self::ETP_is_not_an_Inverse_ETP {
            "'N' (ETP is not an Inverse ETP)".to_owned()
        } else {
            "Unknown".to_owned()
        }
    }
}

impl Default for eInverseIndicator {
    /// The zero byte, which is no known code.
    fn default() -> (r: Self)
        ensures
            r.0 == 0,
    {
        eInverseIndicator(0)
    }
}

/// The trading state of an instrument.
#[allow(non_camel_case_types)]
#[derive(Debug, Clone, Copy, PartialEq, Eq)]
pub struct eTradingState(pub u8);

#[allow(non_upper_case_globals)]
impl eTradingState {
    /// `'H'`
    pub const Halted: u8 = 72;

    /// `'P'`
    pub const Paused: u8 = 80;

    /// `'Q'`
    pub const Quotation_only: u8 = 81;

    /// `'T'`
    pub const Trading: u8 = 84;

    /// The text for the code `c`: the byte in quotes and its meaning, or
    /// `Unknown` for a byte outside the known set.
    pub open spec fn text(c: u8) -> Seq<char> {
        if c == Self::Halted {
            "'H' (Halted)"@
        } else if c == Self::Paused {
            "'P' (Paused)"@
        } else if c == Self::Quotation_only {
            "'Q' (Quotation only)"@
        } else if c == Self::Trading {
            "'T' (Trading)"@
        } else {
            "Unknown"@
        }
    }

    /// The code as text.
    pub fn to_string(&self) -> (s: String)
        ensures
            s@ == Self::text(self.0),
    {
        if self.0 == Self::Halted {
            "'H' (Halted)".to_owned()
        } else if self.0 == Self::Paused {
            "'P' (Paused)".to_owned()
        } else if self.0 == Self::Quotation_only {
            "'Q' (Quotation only)".to_owned()
        } else if self.0 == Self::Trading {
            "'T' (Trading)".to_owned()
        } else {
            "Unknown".to_owned()
        }
    }
}

impl Default for eTradingState {
    /// The zero byte, which is no known code.
    fn default() -> (r: Self)
        ensures
            r.0 == 0,
    {
        eTradingState(0)
    }
}

/// The short-sale price test in effect.
#[allow(non_camel_case_types)]
#[derive(Debug, Clone, Copy, PartialEq, Eq)]
pub struct eRegSHOAction(pub u8);

#[allow(non_upper_case_globals)]
impl eRegSHOAction {
    /// `'0'`
    pub const No_price_test_in_place: u8 = 48;

    /// `'1'`
    pub const Reg_SHO_Short_Sale_Price_Test_Restriction_in_effect: u8 = 49;

    /// `'2'`
    pub const Reg_SHO_Short_Sale_Price_Test_Restriction_remains_in_effect: u8 = 50;

    /// The text for the code `c`: the byte in quotes and its meaning, or
    /// `Unknown` for a byte outside the known set.
    pub open spec fn text(c: u8) -> Seq<char> {
        if c == Self::No_price_test_in_place {
            "'0' (No price test in place)"@
        } else if c == Self::Reg_SHO_Short_Sale_Price_Test_Restriction_in_effect {
            "'1' (Reg SHO Short Sale Price Test Restriction in effect)"@
        } else if c == Self::Reg_SHO_Short_Sale_Price_Test_Restriction_remains_in_effect {
            "'2' (Reg SHO Short Sale Price Test Restriction remains in effect)"@
        } else {
            "Unknown"@
        }
    }

    /// The code as text.
    pub fn to_string(&self) -> (s: String)
        ensures
            s@ == Self::text(self.0),
    {
        if self.0 == Self::No_price_test_in_place {
            "'0' (No price test in place)".to_owned()
        } else if self.0 == Self::Reg_SHO_Short_Sale_Price_Test_Restriction_in_effect {
            "'1' (Reg SHO Short Sale Price Test Restriction in effect)".to_owned()
        } else if self.0 == Self::Reg_SHO_Short_Sale_Price_Test_Restriction_remains_in_effect {
            "'2' (Reg SHO Short Sale Price Test Restriction remains in effect)".to_owned()
        } else {
            "Unknown".to_owned()
        }
    }
}

impl Default for eRegSHOAction {
    /// The zero byte, which is no known code.
    fn default() -> (r: Self)
        ensures
            r.0 == 0,
    {
        eRegSHOAction(0)
    }
}

/// Whether a participant is a primary market maker.
#[allow(non_camel_case_types)]
#[derive(Debug, Clone, Copy, PartialEq, Eq)]
pub struct ePrimaryMarketMaker(pub u8);

#[allow(non_upper_case_globals)]
impl ePrimaryMarketMaker {
    /// `'Y'`
    pub const primary_market_maker: u8 = 89;

    /// `'N'`
    pub const non_primary_market_maker: u8 = 78;

    /// The text for the code `c`: the byte in quotes and its meaning, or
    /// `Unknown` for a byte outside the known set.
    pub open spec fn text(c: u8) -> Seq<char> {
        if c == Self::primary_market_maker {
            "'Y' (primary market maker)"@
        } else if c == Self::non_primary_market_maker {
            "'N' (non primary market maker)"@
        } else {
            "Unknown"@
        }
    }

    /// The code as text.
    pub fn to_string(&self) -> (s: String)
        ensures
            s@ == Self::text(self.0),
    {
        if self.0 == Self::primary_market_maker {
            "'Y' (primary market maker)".to_owned()
        } else if self.0 == Self::non_primary_market_maker {
            "'N' (non primary market maker)".to_owned()
        } else {
            "Unknown".to_owned()
        }
    }
}

impl Default for ePrimaryMarketMaker {
    /// The zero byte, which is no known code.
    fn default() -> (r: Self)
        ensures
            r.0 == 0,
    {
        ePrimaryMarketMaker(0)
    }
}

/// The mode in which a market maker quotes.
#[allow(non_camel_case_types)]
#[derive(Debug, Clone, Copy, PartialEq, Eq)]
pub struct eMarketMakerMode(pub u8);

#[allow(non_upper_case_globals)]
impl eMarketMakerMode {
    /// `'N'`
    pub const normal: u8 = 78;

    /// `'P'`
    pub const passive: u8 = 80;

    /// `'S'`
    pub const syndicate: u8 = 83;

    /// `'R'`
    pub const pre_syndicate: u8 = 82;

    /// `'L'`
    pub const penalty: u8 = 76;

    /// The text for the code `c`: the byte in quotes and its meaning, or
    /// `Unknown` for a byte outside the known set.
    pub open spec fn text(c: u8) -> Seq<char> {
        if c == Self::normal {
            "'N' (normal)"@
        } else if c == Self::passive {
            "'P' (passive)"@
        } else if c == Self::syndicate {
            "'S' (syndicate)"@
        } else if c == Self::pre_syndicate {
            "'R' (pre syndicate)"@
        } else if c == Self::penalty {
            "'L' (penalty)"@
        } else {
            "Unknown"@
        }
    }

    /// The code as text.
    pub fn to_string(&self) -> (s: String)
        ensures
            s@ == Self::text(self.0),
    {
        if self.0 == Self::normal {
            "'N' (normal)".to_owned()
        } else if self.0 == Self::passive {
            "'P' (passive)".to_owned()
        } else if self.0 == Self::syndicate {
            "'S' (syndicate)".to_owned()
        } else if self.0 == Self::pre_syndicate {
            "'R' (pre syndicate)".to_owned()
        } else if self.0 == Self::penalty {
            "'L' (penalty)".to_owned()
        } else {
            "Unknown".to_owned()
        }
    }
}

impl Default for eMarketMakerMode {
    /// The zero byte, which is no known code.
    fn default() -> (r: Self)
        ensures
            r.0 == 0,
    {
        eMarketMakerMode(0)
    }
}

/// The state of a market participant.
#[allow(non_camel_case_types)]
#[derive(Debug, Clone, Copy, PartialEq, Eq)]
pub struct eMarketParticipantState(pub u8);

#[allow(non_upper_case_globals)]
impl eMarketParticipantState {
    /// `'A'`
    pub const Active: u8 = 65;

    /// `'E'`
    pub const Excused_Withdrawn: u8 = 69;

    /// `'W'`
    pub const Withdrawn: u8 = 87;

    /// `'S'`
    pub const Suspended: u8 = 83;

    /// `'D'`
    pub const Deleted: u8 = 68;

    /// The text for the code `c`: the byte in quotes and its meaning, or
    /// `Unknown` for a byte outside the known set.
    pub open spec fn text(c: u8) -> Seq<char> {
        if c == Self::Active {
            "'A' (Active)"@
        } else if c == Self::Excused_Withdrawn {
            "'E' (Excused Withdrawn)"@
        } else if c == Self::Withdrawn {
            "'W' (Withdrawn)"@
        } else if c == Self::Suspended {
            "'S' (Suspended)"@
        } else if c == Self::Deleted {
            "'D' (Deleted)"@
        } else {
            "Unknown"@
        }
    }

    /// The code as text.
    pub fn to_string(&self) -> (s: String)
        ensures
            s@ == Self::text(self.0),
    {
        if self.0 == Self::Active {
            "'A' (Active)".to_owned()
        } else if self.0 == Self::Excused_Withdrawn {
            "'E' (Excused Withdrawn)".to_owned()
        } else if self.0 == Self::Withdrawn {
            "'W' (Withdrawn)".to_owned()
        } else if self.0 == Self::Suspended {
            "'S' (Suspended)".to_owned()
        } else if self.0 == Self::Deleted {
            "'D' (Deleted)".to_owned()
        } else {
            "Unknown".to_owned()
        }
    }
}

impl Default for eMarketParticipantState {
    /// The zero byte, which is no known code.
    fn default() -> (r: Self)
        ensures
            r.0 == 0,
    {
        eMarketParticipantState(0)
    }
}

/// Which circuit breaker level was breached.
#[allow(non_camel_case_types)]
#[derive(Debug, Clone, Copy, PartialEq, Eq)]
pub struct eBreachedLevel(pub u8);

#[allow(non_upper_case_globals)]
impl eBreachedLevel {
    /// `'1'`
    pub const Level_1: u8 = 49;

    /// `'2'`
    pub const Level_2: u8 = 50;

    /// `'3'`
    pub const Level_3: u8 = 51;

    /// The text for the code `c`: the byte in quotes and its meaning, or
    /// `Unknown` for a byte outside the known set.
    pub open spec fn text(c: u8) -> Seq<char> {
        if c == Self::Level_1 {
            "'1' (Level 1)"@
        } else if c == Self::Level_2 {
            "'2' (Level 2)"@
        } else if c == Self::Level_3 {
            "'3' (Level 3)"@
        } else {
            "Unknown"@
        }
    }

    /// The code as text.
    pub fn to_string(&self) -> (s: String)
        ensures
            s@ == Self::text(self.0),
    {
        if self.0 == Self::Level_1 {
            "'1' (Level 1)".to_owned()
        } else if self.0 == Self::Level_2 {
            "'2' (Level 2)".to_owned()
        } else if self.0 == Self::Level_3 {
            "'3' (Level 3)".to_owned()
        } else {
            "Unknown".to_owned()
        }
    }
}

impl Default for eBreachedLevel {
    /// The zero byte, which is no known code.
    fn default() -> (r: Self)
        ensures
            r.0 == 0,
    {
        eBreachedLevel(0)
    }
}

/// Whether a quotation release is expected or called off.
#[allow(non_camel_case_types)]
#[derive(Debug, Clone, Copy, PartialEq, Eq)]
pub struct eIPOQuotationReleaseQualifier(pub u8);

#[allow(non_upper_case_globals)]
impl eIPOQuotationReleaseQualifier {
    /// `'A'`
    pub const Anticipated_Quotation_Release_Time: u8 = 65;

    /// `'C'`
    pub const IPO_Release_Canceled_Postponed: u8 = 67;

    /// The text for the code `c`: the byte in quotes and its meaning, or
    /// `Unknown` for a byte outside the known set.
    pub open spec fn text(c: u8) -> Seq<char> {
        if c == Self::Anticipated_Quotation_Release_Time {
            "'A' (Anticipated Quotation Release Time)"@
        } else if c == Self::IPO_Release_Canceled_Postponed {
            "'C' (IPO Release Canceled Postponed)"@
        } else {
            "Unknown"@
        }
    }

    /// The code as text.
    pub fn to_string(&self) -> (s: String)
        ensures
            s@ == Self::text(self.0),
    {
        if self.0 == Self::Anticipated_Quotation_Release_Time {
            "'A' (Anticipated Quotation Release Time)".to_owned()
        } else if self.0 == Self::IPO_Release_Canceled_Postponed {
            "'C' (IPO Release Canceled Postponed)".to_owned()
        } else {
            "Unknown".to_owned()
        }
    }
}

impl Default for eIPOQuotationReleaseQualifier {
    /// The zero byte, which is no known code.
    fn default() -> (r: Self)
        ensures
            r.0 == 0,
    {
        eIPOQuotationReleaseQualifier(0)
    }
}

/// The market on which a halt applies.
#[allow(non_camel_case_types)]
#[derive(Debug, Clone, Copy, PartialEq, Eq)]
pub struct eMarketCode(pub u8);

#[allow(non_upper_case_globals)]
impl eMarketCode {
    /// `'Q'`
    pub const Nasdaq: u8 = 81;

    /// `'B'`
    pub const BX: u8 = 66;

    /// `'X'`
    pub const PSX: u8 = 88;

    /// The text for the code `c`: the byte in quotes and its meaning, or
    /// `Unknown` for a byte outside the known set.
    pub open spec fn text(c: u8) -> Seq<char> {
        if c == Self::Nasdaq {
            "'Q' (Nasdaq)"@
        } else if c == Self::BX {
            "'B' (BX)"@
        } else if c == Self::PSX {
            "'X' (PSX)"@
        } else {
            "Unknown"@
        }
    }

    /// The code as text.
    pub fn to_string(&self) -> (s: String)
        ensures
            s@ == Self::text(self.0),
    {
        if self.0 == Self::Nasdaq {
            "'Q' (Nasdaq)".to_owned()
        } else if self.0 == Self::BX {
            "'B' (BX)".to_owned()
        } else if self.0 == Self::PSX {
            "'X' (PSX)".to_owned()
        } else {
            "Unknown".to_owned()
        }
    }
}

impl Default for eMarketCode {
    /// The zero byte, which is no known code.
    fn default() -> (r: Self)
        ensures
            r.0 == 0,
    {
        eMarketCode(0)
    }
}

/// Whether a halt begins or ends.
#[allow(non_camel_case_types)]
#[derive(Debug, Clone, Copy, PartialEq, Eq)]
pub struct eOperationalHaltAction(pub u8);

#[allow(non_upper_case_globals)]
impl eOperationalHaltAction {
    /// `'H'`
    pub const Halted: u8 = 72;

    /// `'T'`
    pub const Trading: u8 = 84;

    /// The text for the code `c`: the byte in quotes and its meaning, or
    /// `Unknown` for a byte outside the known set.
    pub open spec fn text(c: u8) -> Seq<char> {
        if c == Self::Halted {
            "'H' (Halted)"@
        } else if c == Self::Trading {
            "'T' (Trading)"@
        } else {
            "Unknown"@
        }
    }

    /// The code as text.
    pub fn to_string(&self) -> (s: String)
        ensures
            s@ == Self::text(self.0),
    {
        if self.0 == Self::Halted {
            "'H' (Halted)".to_owned()
        } else if self.0 == Self::Trading {
            "'T' (Trading)".to_owned()
        } else {
            "Unknown".to_owned()
        }
    }
}

impl Default for eOperationalHaltAction {
    /// The zero byte, which is no known code.
    fn default() -> (r: Self)
        ensures
            r.0 == 0,
    {
        eOperationalHaltAction(0)
    }
}

/// The side of an order.
#[allow(non_camel_case_types)]
#[derive(Debug, Clone, Copy, PartialEq, Eq)]
pub struct eBuySellIndicator(pub u8);

#[allow(non_upper_case_globals)]
impl eBuySellIndicator {
    /// `'B'`
    pub const Buy_Order: u8 = 66;

    /// `'S'`
    pub const Sell_Order: u8 = 83;

    /// The text for the code `c`: the byte in quotes and its meaning, or
    /// `Unknown` for a byte outside the known set.
    pub open spec fn text(c: u8) -> Seq<char> {
        if c == Self::Buy_Order {
            "'B' (Buy Order)"@
        } else if c == Self::Sell_Order {
            "'S' (Sell Order)"@
        } else {
            "Unknown"@
        }
    }

    /// The code as text.
    pub fn to_string(&self) -> (s: String)
        ensures
            s@ == Self::text(self.0),
    {
        if self.0 == Self::Buy_Order {
            "'B' (Buy Order)".to_owned()
        } else if self.0 == Self::Sell_Order {
            "'S' (Sell Order)".to_owned()
        } else {
            "Unknown".to_owned()
        }
    }
}

impl Default for eBuySellIndicator {
    /// The zero byte, which is no known code.
    fn default() -> (r: Self)
        ensures
            r.0 == 0,
    {
        eBuySellIndicator(0)
    }
}

/// Whether an execution counts towards printed volume.
#[allow(non_camel_case_types)]
#[derive(Debug, Clone, Copy, PartialEq, Eq)]
pub struct ePrintable(pub u8);

#[allow(non_upper_case_globals)]
impl ePrintable {
    /// `'N'`
    pub const Non_Printable: u8 = 78;

    /// `'Y'`
    pub const Printable: u8 = 89;

    /// The text for the code `c`: the byte in quotes and its meaning, or
    /// `Unknown` for a byte outside the known set.
    pub open spec fn text(c: u8) -> Seq<char> {
        if c == Self::Non_Printable {
            "'N' (Non Printable)"@
        } else if c == Self::Printable {
            "'Y' (Printable)"@
        } else {
            "Unknown"@
        }
    }

    /// The code as text.
    pub fn to_string(&self) -> (s: String)
        ensures
            s@ == Self::text(self.0),
    {
        if self.0 == Self::Non_Printable {
            "'N' (Non Printable)".to_owned()
        } else if self.0 == Self::Printable {
            "'Y' (Printable)".to_owned()
        } else {
            "Unknown".to_owned()
        }
    }
}

impl Default for ePrintable {
    /// The zero byte, which is no known code.
    fn default() -> (r: Self)
        ensures
            r.0 == 0,
    {
        ePrintable(0)
    }
}

/// The kind of cross.
#[allow(non_camel_case_types)]
#[derive(Debug, Clone, Copy, PartialEq, Eq)]
pub struct eCrossType(pub u8);

#[allow(non_upper_case_globals)]
impl eCrossType {
    /// `'O'`
    pub const Nasdaq_Opening_Cross: u8 = 79;

    /// `'C'`
    pub const Nasdaq_Closing_Cross: u8 = 67;

    /// `'H'`
    pub const Cross_for_IPO_and_halted_paused_securities: u8 = 72;

    /// `'I'`
    pub const Nasdaq_Cross_Network_Intraday_Cross_and_Post_Close_Cross: u8 = 73;

    /// The text for the code `c`: the byte in quotes and its meaning, or
    /// `Unknown` for a byte outside the known set.
    pub open spec fn text(c: u8) -> Seq<char> {
        if c == Self::Nasdaq_Opening_Cross {
            "'O' (Nasdaq Opening Cross)"@
        } else if c == Self::Nasdaq_Closing_Cross {
            "'C' (Nasdaq Closing Cross)"@
        } else if c == Self::Cross_for_IPO_and_halted_paused_securities {
            "'H' (Cross for IPO and halted paused securities)"@
        } else if c == Self::Nasdaq_Cross_Network_Intraday_Cross_and_Post_Close_Cross {
            "'I' (Nasdaq Cross Network Intraday Cross and Post Close Cross)"@
        } else {
            "Unknown"@
        }
    }

    /// The code as text.
    pub fn to_string(&self) -> (s: String)
        ensures
            s@ == Self::text(self.0),
    {
        if self.0 == Self::Nasdaq_Opening_Cross {
            "'O' (Nasdaq Opening Cross)".to_owned()
        } else if self.0 == Self::Nasdaq_Closing_Cross {
            "'C' (Nasdaq Closing Cross)".to_owned()
        } else if self.0 == Self::Cross_for_IPO_and_halted_paused_securities {
            "'H' (Cross for IPO and halted paused securities)".to_owned()
        } else if self.0 == Self::Nasdaq_Cross_Network_Intraday_Cross_and_Post_Close_Cross {
            "'I' (Nasdaq Cross Network Intraday Cross and Post Close Cross)".to_owned()
        } else {
            "Unknown".to_owned()
        }
    }
}

impl Default for eCrossType {
    /// The zero byte, which is no known code.
    fn default() -> (r: Self)
        ensures
            r.0 == 0,
    {
        eCrossType(0)
    }
}

/// The side on which an imbalance lies.
#[allow(non_camel_case_types)]
#[derive(Debug, Clone, Copy, PartialEq, Eq)]
pub struct eImbalanceDirection(pub u8);

#[allow(non_upper_case_globals)]
impl eImbalanceDirection {
    /// `'B'`
    pub const buy_imbalance: u8 = 66;

    /// `'S'`
    pub const sell_imbalance: u8 = 83;

    /// `'N'`
    pub const no_imbalance: u8 = 78;

    /// `'O'`
    pub const Insufficient_orders_to_calculate: u8 = 79;

    /// The text for the code `c`: the byte in quotes and its meaning, or
    /// `Unknown` for a byte outside the known set.
    pub open spec fn text(c: u8) -> Seq<char> {
        if c == Self::buy_imbalance {
            "'B' (buy imbalance)"@
        } else if c == Self::sell_imbalance {
            "'S' (sell imbalance)"@
        } else if c == Self::no_imbalance {
            "'N' (no imbalance)"@
        } else if c == Self::Insufficient_orders_to_calculate {
            "'O' (Insufficient orders to calculate)"@
        } else {
            "Unknown"@
        }
    }

    /// The code as text.
    pub fn to_string(&self) -> (s: String)
        ensures
            s@ == Self::text(self.0),
    {
        if self.0 == Self::buy_imbalance {
            "'B' (buy imbalance)".to_owned()
        } else if self.0 == Self::sell_imbalance {
            "'S' (sell imbalance)".to_owned()
        } else if self.0 == Self::no_imbalance {
            "'N' (no imbalance)".to_owned()
        } else if self.0 == Self::Insufficient_orders_to_calculate {
            "'O' (Insufficient orders to calculate)".to_owned()
        } else {
            "Unknown".to_owned()
        }
    }
}

impl Default for eImbalanceDirection {
    /// The zero byte, which is no known code.
    fn default() -> (r: Self)
        ensures
            r.0 == 0,
    {
        eImbalanceDirection(0)
    }
}

/// How far the clearing price lies from the reference price.
#[allow(non_camel_case_types)]
#[derive(Debug, Clone, Copy, PartialEq, Eq)]
pub struct ePriceVariationIndicator(pub u8);

#[allow(non_upper_case_globals)]
impl ePriceVariationIndicator {
    /// `'L'`
    pub const less_than_1_pct: u8 = 76;

    /// `'1'`
    pub const deviation_1_to_2_pct: u8 = 49;

    /// `'2'`
    pub const deviation_2_to_3_pct: u8 = 50;

    /// `'3'`
    pub const deviation_3_to_4_pct: u8 = 51;

    /// `'4'`
    pub const deviation_4_to_5_pct: u8 = 52;

    /// `'5'`
    pub const deviation_5_to_6_pct: u8 = 53;

    /// `'6'`
    pub const deviation_6_to_7_pct: u8 = 54;

    /// `'7'`
    pub const deviation_7_to_8_pct: u8 = 55;

    /// `'8'`
    pub const deviation_8_to_9_pct: u8 = 56;

    /// `'9'`
    pub const deviation_9_to_10_pct: u8 = 57;

    /// `'A'`
    pub const deviation_10_to_20_pct: u8 = 65;

    /// `'B'`
    pub const deviation_20_to_30_pct: u8 = 66;

    /// `'C'`
    pub const deviation_30_pct_or_greater: u8 = 67;

    /// `' '`
    pub const Cannot_be_calculated: u8 = 32;

    /// The text for the code `c`: the byte in quotes and its meaning, or
    /// `Unknown` for a byte outside the known set.
    pub open spec fn text(c: u8) -> Seq<char> {
        if c == Self::less_than_1_pct {
            "'L' (less than 1 pct)"@
        } else if c == Self::deviation_1_to_2_pct {
            "'1' (deviation 1 to 2 pct)"@
        } else if c == Self::deviation_2_to_3_pct {
            "'2' (deviation 2 to 3 pct)"@
        } else if c == Self::deviation_3_to_4_pct {
            "'3' (deviation 3 to 4 pct)"@
        } else if c == Self::deviation_4_to_5_pct {
            "'4' (deviation 4 to 5 pct)"@
        } else if c == Self::deviation_5_to_6_pct {
            "'5' (deviation 5 to 6 pct)"@
        } else if c == Self::deviation_6_to_7_pct {
            "'6' (deviation 6 to 7 pct)"@
        } else if c == Self::deviation_7_to_8_pct {
            "'7' (deviation 7 to 8 pct)"@
        } else if c == Self::deviation_8_to_9_pct {
            "'8' (deviation 8 to 9 pct)"@
        } else if c == Self::deviation_9_to_10_pct {
            "'9' (deviation 9 to 10 pct)"@
        } else if c == Self::deviation_10_to_20_pct {
            "'A' (deviation 10 to 20 pct)"@
        } else if c == Self::deviation_20_to_30_pct {
            "'B' (deviation 20 to 30 pct)"@
        } else if c == Self::deviation_30_pct_or_greater {
            "'C' (deviation 30 pct or greater)"@
        } else if c == Self::Cannot_be_calculated {
            "' ' (Cannot be calculated)"@
        } else {
            "Unknown"@
        }
    }

    /// The code as text.
    pub fn to_string(&self) -> (s: String)
        ensures
            s@ == Self::text(self.0),
    {
        if self.0 == Self::less_than_1_pct {
            "'L' (less than 1 pct)".to_owned()
        } else if self.0 == Self::deviation_1_to_2_pct {
            "'1' (deviation 1 to 2 pct)".to_owned()
        } else if self.0 == Self::deviation_2_to_3_pct {
            "'2' (deviation 2 to 3 pct)".to_owned()
        } else if self.0 == Self::deviation_3_to_4_pct {
            "'3' (deviation 3 to 4 pct)".to_owned()
        } else if self.0 == Self::deviation_4_to_5_pct {
            "'4' (deviation 4 to 5 pct)".to_owned()
        } else if self.0 == Self::deviation_5_to_6_pct {
            "'5' (deviation 5 to 6 pct)".to_owned()
        } else if self.0 == Self::deviation_6_to_7_pct {
            "'6' (deviation 6 to 7 pct)".to_owned()
        } else if self.0 == Self::deviation_7_to_8_pct {
            "'7' (deviation 7 to 8 pct)".to_owned()
        } else if self.0 == Self::deviation_8_to_9_pct {
            "'8' (deviation 8 to 9 pct)".to_owned()
        } else if self.0 == Self::deviation_9_to_10_pct {
            "'9' (deviation 9 to 10 pct)".to_owned()
        } else if self.0 == Self::deviation_10_to_20_pct {
            "'A' (deviation 10 to 20 pct)".to_owned()
        } else if self.0 == Self::deviation_20_to_30_pct {
            "'B' (deviation 20 to 30 pct)".to_owned()
        } else if self.0 == Self::deviation_30_pct_or_greater {
            "'C' (deviation 30 pct or greater)".to_owned()
        } else if self.0 == Self::Cannot_be_calculated {
            "' ' (Cannot be calculated)".to_owned()
        } else {
            "Unknown".to_owned()
        }
    }
}

impl Default for ePriceVariationIndicator {
    /// The zero byte, which is no known code.
    fn default() -> (r: Self)
        ensures
            r.0 == 0,
    {
        ePriceVariationIndicator(0)
    }
}

/// The sides on which retail price improvement interest stands.
#[allow(non_camel_case_types)]
#[derive(Debug, Clone, Copy, PartialEq, Eq)]
pub struct eInterestFlag(pub u8);

#[allow(non_upper_case_globals)]
impl eInterestFlag {
    /// `'B'`
    pub const RPI_orders_available_on_the_buy_side: u8 = 66;

    /// `'S'`
    pub const RPI_orders_available_on_the_sell_side: u8 = 83;

    /// `'A'`
    pub const RPI_orders_available_on_both_sides: u8 = 65;

    /// `'N'`
    pub const No_RPI_orders_available: u8 = 78;

    /// The text for the code `c`: the byte in quotes and its meaning, or
    /// `Unknown` for a byte outside the known set.
    pub open spec fn text(c: u8) -> Seq<char> {
        if c == Self::RPI_orders_available_on_the_buy_side {
            "'B' (RPI orders available on the buy side)"@
        } else if c == Self::RPI_orders_available_on_the_sell_side {
            "'S' (RPI orders available on the sell side)"@
        } else if c == Self::RPI_orders_available_on_both_sides {
            "'A' (RPI orders available on both sides)"@
        } else if c == Self::No_RPI_orders_available {
            "'N' (No RPI orders available)"@
        } else {
            "Unknown"@
        }
    }

    /// The code as text.
    pub fn to_string(&self) -> (s: String)
        ensures
            s@ == Self::text(self.0),
    {
        if self.0 == Self::RPI_orders_available_on_the_buy_side {
            "'B' (RPI orders available on the buy side)".to_owned()
        } else if self.0 == Self::RPI_orders_available_on_the_sell_side {
            "'S' (RPI orders available on the sell side)".to_owned()
        } else if self.0 == Self::RPI_orders_available_on_both_sides {
            "'A' (RPI orders available on both sides)".to_owned()
        } else if self.0 == Self::No_RPI_orders_available {
            "'N' (No RPI orders available)".to_owned()
        } else {
            "Unknown".to_owned()
        }
    }
}

impl Default for eInterestFlag {
    /// The zero byte, which is no known code.
    fn default() -> (r: Self)
        ensures
            r.0 == 0,
    {
        eInterestFlag(0)
    }
}

/// The class of a security.
#[allow(non_camel_case_types)]
#[derive(Debug, Clone, Copy, PartialEq, Eq)]
pub struct eIssueClassification(pub u8);

#[allow(non_upper_case_globals)]
impl eIssueClassification {
    /// `'A'`
    pub const American_Depositary_Share: u8 = 65;

    /// `'B'`
    pub const Bond: u8 = 66;

    /// `'C'`
    pub const Common_Stock: u8 = 67;

    /// `'F'`
    pub const Depository_Receipt: u8 = 70;

    /// `'I'`
    pub const Rule_144A: u8 = 73;

    /// `'L'`
    pub const Limited_Partnership: u8 = 76;

    /// `'N'`
    pub const Notes: u8 = 78;

    /// `'O'`
    pub const Ordinary_Share: u8 = 79;

    /// `'P'`
    pub const Preferred_Stock: u8 = 80;

    /// `'Q'`
    pub const Other_Securities: u8 = 81;

    /// `'R'`
    pub const Right: u8 = 82;

    /// `'S'`
    pub const Shares_of_Beneficial_Interest: u8 = 83;

    /// `'T'`
    pub const Convertible_Debenture: u8 = 84;

    /// `'U'`
    pub const Unit: u8 = 85;

    /// `'V'`
    pub const Units_Benif_Int: u8 = 86;

    /// `'W'`
    pub const Warrant: u8 = 87;

    /// The text for the code `c`: the byte in quotes and its meaning, or
    /// `Unknown` for a byte outside the known set.
    pub open spec fn text(c: u8) -> Seq<char> {
        if c == Self::American_Depositary_Share {
            "'A' (American Depositary Share)"@
        } else if c == Self::Bond {
            "'B' (Bond)"@
        } else if c == Self::Common_Stock {
            "'C' (Common Stock)"@
        } else if c == Self::Depository_Receipt {
            "'F' (Depository Receipt)"@
        } else if c == Self::Rule_144A {
            "'I' (Rule 144A)"@
        } else if c == Self::Limited_Partnership {
            "'L' (Limited Partnership)"@
        } else if c == Self::Notes {
            "'N' (Notes)"@
        } else if c == Self::Ordinary_Share {
            "'O' (Ordinary Share)"@
        } else if c == Self::Preferred_Stock {
            "'P' (Preferred Stock)"@
        } else if c == Self::Other_Securities {
            "'Q' (Other Securities)"@
        } else if c == Self::Right {
            "'R' (Right)"@
        } else if c == Self::Shares_of_Beneficial_Interest {
            "'S' (Shares of Beneficial Interest)"@
        } else if c == Self::Convertible_Debenture {
            "'T' (Convertible Debenture)"@
        } else if c == Self::Unit {
            "'U' (Unit)"@
        } else if c == Self::Units_Benif_Int {
            "'V' (Units Benif Int)"@
        } else if c == Self::Warrant {
            "'W' (Warrant)"@
        } else {
            "Unknown"@
        }
    }

    /// The code as text.
    pub fn to_string(&self) -> (s: String)
        ensures
            s@ == Self::text(self.0),
    {
        if self.0 == Self::American_Depositary_Share {
            "'A' (American Depositary Share)".to_owned()
        } else if self.0 == Self::Bond {
            "'B' (Bond)".to_owned()
        } else if self.0 == Self::Common_Stock {
            "'C' (Common Stock)".to_owned()
        } else if self.0 == Self::Depository_Receipt {
            "'F' (Depository Receipt)".to_owned()
        } else if self.0 == Self::Rule_144A {
            "'I' (Rule 144A)".to_owned()
        } else if self.0 == Self::Limited_Partnership {
            "'L' (Limited Partnership)".to_owned()
        } else if self.0 == Self::Notes {
            "'N' (Notes)".to_owned()
        } else if self.0 == Self::Ordinary_Share {
            "'O' (Ordinary Share)".to_owned()
        } else if self.0 == Self::Preferred_Stock {
            "'P' (Preferred Stock)".to_owned()
        } else if self.0 == Self::Other_Securities {
            "'Q' (Other Securities)".to_owned()
        } else if self.0 == Self::Right {
            "'R' (Right)".to_owned()
        } else if self.0 == Self::Shares_of_Beneficial_Interest {
            "'S' (Shares of Beneficial Interest)".to_owned()
        } else if self.0 == Self::Convertible_Debenture {
            "'T' (Convertible Debenture)".to_owned()
        } else if self.0 == Self::Unit {
            "'U' (Unit)".to_owned()
        } else if self.0 == Self::Units_Benif_Int {
            "'V' (Units Benif Int)".to_owned()
        } else if self.0 == Self::Warrant {
            "'W' (Warrant)".to_owned()
        } else {
            "Unknown".to_owned()
        }
    }
}

impl Default for eIssueClassification {
    /// The zero byte, which is no known code.
    fn default() -> (r: Self)
        ensures
            r.0 == 0,
    {
        eIssueClassification(0)
    }
}

} // verus!
