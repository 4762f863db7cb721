//! The record types, one per wire format, with what each means as bytes:
//! `decoded` reads a record off a byte sequence, `encoded` spells one out.

use crate::bytes::{
    array10_at, array20_at, array2_at, array4_at, array8_at, be_bytes, u16_at, u32_at, u48_at,
    u64_at,
};
use crate::itch::codes::{
    eAuthenticity,
    eBreachedLevel,
    eBuySellIndicator,
    eCrossType,
    eETPFlag,
    eFinancialStatusIndicator,
    eIPOFlag,
    eIPOQuotationReleaseQualifier,
    eImbalanceDirection,
    eInterestFlag,
    eInverseIndicator,
    eIssueClassification,
    eLULDReferencePriceTier,
    eMarketCategory,
    eMarketCode,
    eMarketMakerMode,
    eMarketParticipantState,
    eOperationalHaltAction,
    ePriceVariationIndicator,
    ePrimaryMarketMaker,
    ePrintable,
    eRegSHOAction,
    eRoundLotsOnly,
    eShortSaleThresholdIndicator,
    eSystemEvent,
    eTradingState,
};
use vstd::prelude::*;

verus! {

/// The header of a batch packet: the session, the sequence number of the first
/// message in the batch, and how many messages the batch announces.
#[derive(Debug, Clone, Copy, PartialEq, Eq)]
pub struct PacketHeader {
    pub session: [u8; 10],
    pub sequence_number: u64,
    pub message_count: u16,
}

/// How many bytes a [`PacketHeader`] takes on the wire.
pub const PACKET_HEADER_SIZE: usize = 20;

impl PacketHeader {
    /// The record that the first `PACKET_HEADER_SIZE` bytes of `b` spell.
    pub open spec fn decoded(b: Seq<u8>) -> PacketHeader {
        PacketHeader {
            session: array10_at(b, 0),
            sequence_number: u64_at(b, 10),
            message_count: u16_at(b, 18),
        }
    }
}

impl Default for PacketHeader {
    /// The record with every field zero.
    fn default() -> (r: Self)
        ensures
            forall|i: int| 0 <= i < 10 ==> r.session[i] == 0,
            r.sequence_number == 0,
            r.message_count == 0,
    {
        PacketHeader {
            session: [0u8; 10],
            sequence_number: 0,
            message_count: 0,
        }
    }
}

/// The length prefix that stands before each message of a batch.
#[derive(Debug, Clone, Copy, PartialEq, Eq)]
pub struct MessageBlock {
    pub message_length: u16,
}

/// How many bytes a [`MessageBlock`] takes on the wire.
pub const MESSAGE_BLOCK_SIZE: usize = 2;

impl MessageBlock {
    /// The record that the first `MESSAGE_BLOCK_SIZE` bytes of `b` spell.
    pub open spec fn decoded(b: Seq<u8>) -> MessageBlock {
        MessageBlock {
            message_length: u16_at(b, 0),
        }
    }
}

impl Default for MessageBlock {
    /// The record with every field zero.
    fn default() -> (r: Self)
        ensures
            r.message_length == 0,
    {
        MessageBlock {
            message_length: 0,
        }
    }
}

/// A request to send a run of messages again.
#[derive(Debug, Clone, Copy, PartialEq, Eq)]
pub struct RequestPacket {
    pub session: [u8; 10],
    pub sequence_number: [u8; 8],
    pub requested_message_count: u16,
}

/// How many bytes a [`RequestPacket`] takes on the wire.
pub const REQUEST_PACKET_SIZE: usize = 20;

impl RequestPacket {
    /// The record that the first `REQUEST_PACKET_SIZE` bytes of `b` spell.
    pub open spec fn decoded(b: Seq<u8>) -> RequestPacket {
        RequestPacket {
            session: array10_at(b, 0),
            sequence_number: array8_at(b, 10),
            requested_message_count: u16_at(b, 18),
        }
    }
}

impl Default for RequestPacket {
    /// The record with every field zero.
    fn default() -> (r: Self)
        ensures
            forall|i: int| 0 <= i < 10 ==> r.session[i] == 0,
            forall|i: int| 0 <= i < 8 ==> r.sequence_number[i] == 0,
            r.requested_message_count == 0,
    {
        RequestPacket {
            session: [0u8; 10],
            sequence_number: [0u8; 8],
            requested_message_count: 0,
        }
    }
}

/// A system event notice.
#[derive(Debug, Clone, Copy, PartialEq, Eq)]
pub struct SystemEvent {
    pub message_type: u8,
    pub stock_locate: u16,
    pub tracking_number: u16,
    pub timestamp: u64,
    pub event_code: eSystemEvent,
}

/// How many bytes a [`SystemEvent`] takes on the wire.
pub const SYSTEM_EVENT_SIZE: usize = 12;

impl SystemEvent {
    /// The tag byte, `'S'`.
    pub const TYPE: u8 = 83;

    /// The record that the first `SYSTEM_EVENT_SIZE` bytes of `b` spell.
    pub open spec fn decoded(b: Seq<u8>) -> SystemEvent {
        SystemEvent {
            message_type: b[0],
            stock_locate: u16_at(b, 1),
            tracking_number: u16_at(b, 3),
            timestamp: u48_at(b, 5),
            event_code: eSystemEvent(b[11]),
        }
    }

    /// The bytes that stand for this record on the wire. The tag is always the
    /// type's own, whatever `message_type` holds, and of the timestamp only the
    /// low 48 bits are kept.
    pub open spec fn encoded(self) -> Seq<u8> {
        seq![Self::TYPE]
            + be_bytes(self.stock_locate as nat, 2)
            + be_bytes(self.tracking_number as nat, 2)
            + be_bytes(self.timestamp as nat, 6)
            + seq![self.event_code.0]
    }
}

impl Default for SystemEvent {
    /// The record with every field zero.
    fn default() -> (r: Self)
        ensures
            r.message_type == 0,
            r.stock_locate == 0,
            r.tracking_number == 0,
            r.timestamp == 0,
            r.event_code.0 == 0,
    {
        SystemEvent {
            message_type: 0,
            stock_locate: 0,
            tracking_number: 0,
            timestamp: 0,
            event_code: eSystemEvent(0),
        }
    }
}

/// An entry of the instrument directory.
#[derive(Debug, Clone, Copy, PartialEq, Eq)]
pub struct StockDirectory {
    pub message_type: u8,
    pub stock_locate: u16,
    pub tracking_number: u16,
    pub timestamp: u64,
    pub stock: [u8; 8],
    pub market_category: eMarketCategory,
    pub financial_status_indicator: eFinancialStatusIndicator,
    pub round_lot_size: u32,
    pub round_lots_only: eRoundLotsOnly,
    pub issue_classification: eIssueClassification,
    pub issue_sub_type: [u8; 2],
    pub authenticity: eAuthenticity,
    pub short_sale_threshold_indicator: eShortSaleThresholdIndicator,
    pub ipo_flag: eIPOFlag,
    pub luld_reference_price_tier: eLULDReferencePriceTier,
    pub etp_flag: eETPFlag,
    pub etp_leverage_factor: u32,
    pub inverse_indicator: eInverseIndicator,
}

/// How many bytes a [`StockDirectory`] takes on the wire.
pub const STOCK_DIRECTORY_SIZE: usize = 39;

impl StockDirectory {
    /// The tag byte, `'R'`.
    pub const TYPE: u8 = 82;

    /// The record that the first `STOCK_DIRECTORY_SIZE` bytes of `b` spell.
    pub open spec fn decoded(b: Seq<u8>) -> StockDirectory {
        StockDirectory {
            message_type: b[0],
            stock_locate: u16_at(b, 1),
            tracking_number: u16_at(b, 3),
            timestamp: u48_at(b, 5),
            stock: array8_at(b, 11),
            market_category: eMarketCategory(b[19]),
            financial_status_indicator: eFinancialStatusIndicator(b[20]),
            round_lot_size: u32_at(b, 21),
            round_lots_only: eRoundLotsOnly(b[25]),
            issue_classification: eIssueClassification(b[26]),
            issue_sub_type: array2_at(b, 27),
            authenticity: eAuthenticity(b[29]),
            short_sale_threshold_indicator: eShortSaleThresholdIndicator(b[30]),
            ipo_flag: eIPOFlag(b[31]),
            luld_reference_price_tier: eLULDReferencePriceTier(b[32]),
            etp_flag: eETPFlag(b[33]),
            etp_leverage_factor: u32_at(b, 34),
            inverse_indicator: eInverseIndicator(b[38]),
        }
    }

    /// The bytes that stand for this record on the wire. The tag is always the
    /// type's own, whatever `message_type` holds, and of the timestamp only the
    /// low 48 bits are kept.
    pub open spec fn encoded(self) -> Seq<u8> {
        seq![Self::TYPE]
            + be_bytes(self.stock_locate as nat, 2)
            + be_bytes(self.tracking_number as nat, 2)
            + be_bytes(self.timestamp as nat, 6)
            + self.stock@
            + seq![self.market_category.0]
            + seq![self.financial_status_indicator.0]
            + be_bytes(self.round_lot_size as nat, 4)
            + seq![self.round_lots_only.0]
            + seq![self.issue_classification.0]
            + self.issue_sub_type@
            + seq![self.authenticity.0]
            + seq![self.short_sale_threshold_indicator.0]
            + seq![self.ipo_flag.0]
            + seq![self.luld_reference_price_tier.0]
            + seq![self.etp_flag.0]
            + be_bytes(self.etp_leverage_factor as nat, 4)
            + seq![self.inverse_indicator.0]
    }
}

impl Default for StockDirectory {
    /// The record with every field zero.
    fn default() -> (r: Self)
        ensures
            r.message_type == 0,
            r.stock_locate == 0,
            r.tracking_number == 0,
            r.timestamp == 0,
            forall|i: int| 0 <= i < 8 ==> r.stock[i] == 0,
            r.market_category.0 == 0,
            r.financial_status_indicator.0 == 0,
            r.round_lot_size == 0,
            r.round_lots_only.0 == 0,
            r.issue_classification.0 == 0,
            forall|i: int| 0 <= i < 2 ==> r.issue_sub_type[i] == 0,
            r.authenticity.0 == 0,
            r.short_sale_threshold_indicator.0 == 0,
            r.ipo_flag.0 == 0,
            r.luld_reference_price_tier.0 == 0,
            r.etp_flag.0 == 0,
            r.etp_leverage_factor == 0,
            r.inverse_indicator.0 == 0,
    {
        StockDirectory {
            message_type: 0,
            stock_locate: 0,
            tracking_number: 0,
            timestamp: 0,
            stock: [0u8; 8],
            market_category: eMarketCategory(0),
            financial_status_indicator: eFinancialStatusIndicator(0),
            round_lot_size: 0,
            round_lots_only: eRoundLotsOnly(0),
            issue_classification: eIssueClassification(0),
            issue_sub_type: [0u8; 2],
            authenticity: eAuthenticity(0),
            short_sale_threshold_indicator: eShortSaleThresholdIndicator(0),
            ipo_flag: eIPOFlag(0),
            luld_reference_price_tier: eLULDReferencePriceTier(0),
            etp_flag: eETPFlag(0),
            etp_leverage_factor: 0,
            inverse_indicator: eInverseIndicator(0),
        }
    }
}

/// A change in the trading state of an instrument.
#[derive(Debug, Clone, Copy, PartialEq, Eq)]
pub struct StockTradingAction {
    pub message_type: u8,
    pub stock_locate: u16,
    pub tracking_number: u16,
    pub timestamp: u64,
    pub stock: [u8; 8],
    pub trading_state: eTradingState,
    pub reserved: u8,
    pub reason: [u8; 4],
}

/// How many bytes a [`StockTradingAction`] takes on the wire.
pub const STOCK_TRADING_ACTION_SIZE: usize = 25;

impl StockTradingAction {
    /// The tag byte, `'H'`.
    pub const TYPE: u8 = 72;

    /// The record that the first `STOCK_TRADING_ACTION_SIZE` bytes of `b`
    /// spell.
    pub open spec fn decoded(b: Seq<u8>) -> StockTradingAction {
        StockTradingAction {
            message_type: b[0],
            stock_locate: u16_at(b, 1),
            tracking_number: u16_at(b, 3),
            timestamp: u48_at(b, 5),
            stock: array8_at(b, 11),
            trading_state: eTradingState(b[19]),
            reserved: b[20],
            reason: array4_at(b, 21),
        }
    }

    /// The bytes that stand for this record on the wire. The tag is always the
    /// type's own, whatever `message_type` holds, and of the timestamp only the
    /// low 48 bits are kept.
    pub open spec fn encoded(self) -> Seq<u8> {
        seq![Self::TYPE]
            + be_bytes(self.stock_locate as nat, 2)
            + be_bytes(self.tracking_number as nat, 2)
            + be_bytes(self.timestamp as nat, 6)
            + self.stock@
            + seq![self.trading_state.0]
            + seq![self.reserved]
            + self.reason@
    }
}

impl Default for StockTradingAction {
    /// The record with every field zero.
    fn default() -> (r: Self)
        ensures
            r.message_type == 0,
            r.stock_locate == 0,
            r.tracking_number == 0,
            r.timestamp == 0,
            forall|i: int| 0 <= i < 8 ==> r.stock[i] == 0,
            r.trading_state.0 == 0,
            r.reserved == 0,
            forall|i: int| 0 <= i < 4 ==> r.reason[i] == 0,
    {
        StockTradingAction {
            message_type: 0,
            stock_locate: 0,
            tracking_number: 0,
            timestamp: 0,
            stock: [0u8; 8],
            trading_state: eTradingState(0),
            reserved: 0,
            reason: [0u8; 4],
        }
    }
}

/// A short-sale price test restriction on an instrument.
#[derive(Debug, Clone, Copy, PartialEq, Eq)]
pub struct RegShoRestriction {
    pub message_type: u8,
    pub stock_locate: u16,
    pub tracking_number: u16,
    pub timestamp: u64,
    pub stock: [u8; 8],
    pub reg_sho_action: eRegSHOAction,
}

/// How many bytes a [`RegShoRestriction`] takes on the wire.
pub const REG_SHO_RESTRICTION_SIZE: usize = 20;

impl RegShoRestriction {
    /// The tag byte, `'Y'`.
    pub const TYPE: u8 = 89;

    /// The record that the first `REG_SHO_RESTRICTION_SIZE` bytes of `b` spell.
    pub open spec fn decoded(b: Seq<u8>) -> RegShoRestriction {
        RegShoRestriction {
            message_type: b[0],
            stock_locate: u16_at(b, 1),
            tracking_number: u16_at(b, 3),
            timestamp: u48_at(b, 5),
            stock: array8_at(b, 11),
            reg_sho_action: eRegSHOAction(b[19]),
        }
    }

    /// The bytes that stand for this record on the wire. The tag is always the
    /// type's own, whatever `message_type` holds, and of the timestamp only the
    /// low 48 bits are kept.
    pub open spec fn encoded(self) -> Seq<u8> {
        seq![Self::TYPE]
            + be_bytes(self.stock_locate as nat, 2)
            + be_bytes(self.tracking_number as nat, 2)
            + be_bytes(self.timestamp as nat, 6)
            + self.stock@
            + seq![self.reg_sho_action.0]
    }
}

impl Default for RegShoRestriction {
    /// The record with every field zero.
    fn default() -> (r: Self)
        ensures
            r.message_type == 0,
            r.stock_locate == 0,
            r.tracking_number == 0,
            r.timestamp == 0,
            forall|i: int| 0 <= i < 8 ==> r.stock[i] == 0,
            r.reg_sho_action.0 == 0,
    {
        RegShoRestriction {
            message_type: 0,
            stock_locate: 0,
            tracking_number: 0,
            timestamp: 0,
            stock: [0u8; 8],
            reg_sho_action: eRegSHOAction(0),
        }
    }
}

/// The standing of a market participant in an instrument.
#[derive(Debug, Clone, Copy, PartialEq, Eq)]
pub struct MarketParticipantPosition {
    pub message_type: u8,
    pub stock_locate: u16,
    pub tracking_number: u16,
    pub timestamp: u64,
    pub mpid: [u8; 4],
    pub stock: [u8; 8],
    pub primary_market_maker: ePrimaryMarketMaker,
    pub market_maker_mode: eMarketMakerMode,
    pub market_participant_state: eMarketParticipantState,
}

/// How many bytes a [`MarketParticipantPosition`] takes on the wire.
pub const MARKET_PARTICIPANT_POSITION_SIZE: usize = 26;

impl MarketParticipantPosition {
    /// The tag byte, `'L'`.
    pub const TYPE: u8 = 76;

    /// The record that the first `MARKET_PARTICIPANT_POSITION_SIZE` bytes of
    /// `b` spell.
    pub open spec fn decoded(b: Seq<u8>) -> MarketParticipantPosition {
        MarketParticipantPosition {
            message_type: b[0],
            stock_locate: u16_at(b, 1),
            tracking_number: u16_at(b, 3),
            timestamp: u48_at(b, 5),
            mpid: array4_at(b, 11),
            stock: array8_at(b, 15),
            primary_market_maker: ePrimaryMarketMaker(b[23]),
            market_maker_mode: eMarketMakerMode(b[24]),
            market_participant_state: eMarketParticipantState(b[25]),
        }
    }

    /// The bytes that stand for this record on the wire. The tag is always the
    /// type's own, whatever `message_type` holds, and of the timestamp only the
    /// low 48 bits are kept.
    pub open spec fn encoded(self) -> Seq<u8> {
        seq![Self::TYPE]
            + be_bytes(self.stock_locate as nat, 2)
            + be_bytes(self.tracking_number as nat, 2)
            + be_bytes(self.timestamp as nat, 6)
            + self.mpid@
            + self.stock@
            + seq![self.primary_market_maker.0]
            + seq![self.market_maker_mode.0]
            + seq![self.market_participant_state.0]
    }
}

impl Default for MarketParticipantPosition {
    /// The record with every field zero.
    fn default() -> (r: Self)
        ensures
            r.message_type == 0,
            r.stock_locate == 0,
            r.tracking_number == 0,
            r.timestamp == 0,
            forall|i: int| 0 <= i < 4 ==> r.mpid[i] == 0,
            forall|i: int| 0 <= i < 8 ==> r.stock[i] == 0,
            r.primary_market_maker.0 == 0,
            r.market_maker_mode.0 == 0,
            r.market_participant_state.0 == 0,
    {
        MarketParticipantPosition {
            message_type: 0,
            stock_locate: 0,
            tracking_number: 0,
            timestamp: 0,
            mpid: [0u8; 4],
            stock: [0u8; 8],
            primary_market_maker: ePrimaryMarketMaker(0),
            market_maker_mode: eMarketMakerMode(0),
            market_participant_state: eMarketParticipantState(0),
        }
    }
}

/// The three market-wide circuit breaker decline levels of the day.
#[derive(Debug, Clone, Copy, PartialEq, Eq)]
pub struct MwcbDeclineLevel {
    pub message_type: u8,
    pub stock_locate: u16,
    pub tracking_number: u16,
    pub timestamp: u64,
    pub level_1: u64,
    pub level_2: u64,
    pub level_3: u64,
}

/// How many bytes an [`MwcbDeclineLevel`] takes on the wire.
pub const MWCB_DECLINE_LEVEL_SIZE: usize = 35;

impl MwcbDeclineLevel {
    /// The tag byte, `'V'`.
    pub const TYPE: u8 = 86;

    /// The record that the first `MWCB_DECLINE_LEVEL_SIZE` bytes of `b` spell.
    pub open spec fn decoded(b: Seq<u8>) -> MwcbDeclineLevel {
        MwcbDeclineLevel {
            message_type: b[0],
            stock_locate: u16_at(b, 1),
            tracking_number: u16_at(b, 3),
            timestamp: u48_at(b, 5),
            level_1: u64_at(b, 11),
            level_2: u64_at(b, 19),
            level_3: u64_at(b, 27),
        }
    }

    /// The bytes that stand for this record on the wire. The tag is always the
    /// type's own, whatever `message_type` holds, and of the timestamp only the
    /// low 48 bits are kept.
    pub open spec fn encoded(self) -> Seq<u8> {
        seq![Self::TYPE]
            + be_bytes(self.stock_locate as nat, 2)
            + be_bytes(self.tracking_number as nat, 2)
            + be_bytes(self.timestamp as nat, 6)
            + be_bytes(self.level_1 as nat, 8)
            + be_bytes(self.level_2 as nat, 8)
            + be_bytes(self.level_3 as nat, 8)
    }
}

impl Default for MwcbDeclineLevel {
    /// The record with every field zero.
    fn default() -> (r: Self)
        ensures
            r.message_type == 0,
            r.stock_locate == 0,
            r.tracking_number == 0,
            r.timestamp == 0,
            r.level_1 == 0,
            r.level_2 == 0,
            r.level_3 == 0,
    {
        MwcbDeclineLevel {
            message_type: 0,
            stock_locate: 0,
            tracking_number: 0,
            timestamp: 0,
            level_1: 0,
            level_2: 0,
            level_3: 0,
        }
    }
}

/// A market-wide circuit breaker level that was breached.
#[derive(Debug, Clone, Copy, PartialEq, Eq)]
pub struct MwcbStatus {
    pub message_type: u8,
    pub stock_locate: u16,
    pub tracking_number: u16,
    pub timestamp: u64,
    pub breached_level: eBreachedLevel,
}

/// How many bytes an [`MwcbStatus`] takes on the wire.
pub const MWCB_STATUS_SIZE: usize = 12;

impl MwcbStatus {
    /// The tag byte, `'W'`.
    pub const TYPE: u8 = 87;

    /// The record that the first `MWCB_STATUS_SIZE` bytes of `b` spell.
    pub open spec fn decoded(b: Seq<u8>) -> MwcbStatus {
        MwcbStatus {
            message_type: b[0],
            stock_locate: u16_at(b, 1),
            tracking_number: u16_at(b, 3),
            timestamp: u48_at(b, 5),
            breached_level: eBreachedLevel(b[11]),
        }
    }

    /// The bytes that stand for this record on the wire. The tag is always the
    /// type's own, whatever `message_type` holds, and of the timestamp only the
    /// low 48 bits are kept.
    pub open spec fn encoded(self) -> Seq<u8> {
        seq![Self::TYPE]
            + be_bytes(self.stock_locate as nat, 2)
            + be_bytes(self.tracking_number as nat, 2)
            + be_bytes(self.timestamp as nat, 6)
            + seq![self.breached_level.0]
    }
}

impl Default for MwcbStatus {
    /// The record with every field zero.
    fn default() -> (r: Self)
        ensures
            r.message_type == 0,
            r.stock_locate == 0,
            r.tracking_number == 0,
            r.timestamp == 0,
            r.breached_level.0 == 0,
    {
        MwcbStatus {
            message_type: 0,
            stock_locate: 0,
            tracking_number: 0,
            timestamp: 0,
            breached_level: eBreachedLevel(0),
        }
    }
}

/// The quotation release time of an initial public offering.
#[derive(Debug, Clone, Copy, PartialEq, Eq)]
pub struct IpoQuotingPeriodUpdate {
    pub message_type: u8,
    pub stock_locate: u16,
    pub tracking_number: u16,
    pub timestamp: u64,
    pub stock: [u8; 8],
    pub ipo_quotation_release_time: u32,
    pub ipo_quotation_release_qualifier: eIPOQuotationReleaseQualifier,
    pub ipo_price: u32,
}

/// How many bytes an [`IpoQuotingPeriodUpdate`] takes on the wire.
pub const IPO_QUOTING_PERIOD_UPDATE_SIZE: usize = 28;

impl IpoQuotingPeriodUpdate {
    /// The tag byte, `'K'`.
    pub const TYPE: u8 = 75;

    /// The record that the first `IPO_QUOTING_PERIOD_UPDATE_SIZE` bytes of `b`
    /// spell.
    pub open spec fn decoded(b: Seq<u8>) -> IpoQuotingPeriodUpdate {
        IpoQuotingPeriodUpdate {
            message_type: b[0],
            stock_locate: u16_at(b, 1),
            tracking_number: u16_at(b, 3),
            timestamp: u48_at(b, 5),
            stock: array8_at(b, 11),
            ipo_quotation_release_time: u32_at(b, 19),
            ipo_quotation_release_qualifier: eIPOQuotationReleaseQualifier(b[23]),
            ipo_price: u32_at(b, 24),
        }
    }

    /// The bytes that stand for this record on the wire. The tag is always the
    /// type's own, whatever `message_type` holds, and of the timestamp only the
    /// low 48 bits are kept.
    pub open spec fn encoded(self) -> Seq<u8> {
        seq![Self::TYPE]
            + be_bytes(self.stock_locate as nat, 2)
            + be_bytes(self.tracking_number as nat, 2)
            + be_bytes(self.timestamp as nat, 6)
            + self.stock@
            + be_bytes(self.ipo_quotation_release_time as nat, 4)
            + seq![self.ipo_quotation_release_qualifier.0]
            + be_bytes(self.ipo_price as nat, 4)
    }
}

impl Default for IpoQuotingPeriodUpdate {
    /// The record with every field zero.
    fn default() -> (r: Self)
        ensures
            r.message_type == 0,
            r.stock_locate == 0,
            r.tracking_number == 0,
            r.timestamp == 0,
            forall|i: int| 0 <= i < 8 ==> r.stock[i] == 0,
            r.ipo_quotation_release_time == 0,
            r.ipo_quotation_release_qualifier.0 == 0,
            r.ipo_price == 0,
    {
        IpoQuotingPeriodUpdate {
            message_type: 0,
            stock_locate: 0,
            tracking_number: 0,
            timestamp: 0,
            stock: [0u8; 8],
            ipo_quotation_release_time: 0,
            ipo_quotation_release_qualifier: eIPOQuotationReleaseQualifier(0),
            ipo_price: 0,
        }
    }
}

/// The auction collar prices of an instrument in a trading pause.
#[derive(Debug, Clone, Copy, PartialEq, Eq)]
pub struct LuldAuctionCollar {
    pub message_type: u8,
    pub stock_locate: u16,
    pub tracking_number: u16,
    pub timestamp: u64,
    pub stock: [u8; 8],
    pub auction_collar_reference_price: u32,
    pub upper_auction_collar_price: u32,
    pub lower_auction_collar_price: u32,
    pub auction_collar_extension: u32,
}

/// How many bytes a [`LuldAuctionCollar`] takes on the wire.
pub const LULD_AUCTION_COLLAR_SIZE: usize = 35;

impl LuldAuctionCollar {
    /// The tag byte, `'J'`.
    pub const TYPE: u8 = 74;

    /// The record that the first `LULD_AUCTION_COLLAR_SIZE` bytes of `b` spell.
    pub open spec fn decoded(b: Seq<u8>) -> LuldAuctionCollar {
        LuldAuctionCollar {
            message_type: b[0],
            stock_locate: u16_at(b, 1),
            tracking_number: u16_at(b, 3),
            timestamp: u48_at(b, 5),
            stock: array8_at(b, 11),
            auction_collar_reference_price: u32_at(b, 19),
            upper_auction_collar_price: u32_at(b, 23),
            lower_auction_collar_price: u32_at(b, 27),
            auction_collar_extension: u32_at(b, 31),
        }
    }

    /// The bytes that stand for this record on the wire. The tag is always the
    /// type's own, whatever `message_type` holds, and of the timestamp only the
    /// low 48 bits are kept.
    pub open spec fn encoded(self) -> Seq<u8> {
        seq![Self::TYPE]
            + be_bytes(self.stock_locate as nat, 2)
            + be_bytes(self.tracking_number as nat, 2)
            + be_bytes(self.timestamp as nat, 6)
            + self.stock@
            + be_bytes(self.auction_collar_reference_price as nat, 4)
            + be_bytes(self.upper_auction_collar_price as nat, 4)
            + be_bytes(self.lower_auction_collar_price as nat, 4)
            + be_bytes(self.auction_collar_extension as nat, 4)
    }
}

impl Default for LuldAuctionCollar {
    /// The record with every field zero.
    fn default() -> (r: Self)
        ensures
            r.message_type == 0,
            r.stock_locate == 0,
            r.tracking_number == 0,
            r.timestamp == 0,
            forall|i: int| 0 <= i < 8 ==> r.stock[i] == 0,
            r.auction_collar_reference_price == 0,
            r.upper_auction_collar_price == 0,
            r.lower_auction_collar_price == 0,
            r.auction_collar_extension == 0,
    {
        LuldAuctionCollar {
            message_type: 0,
            stock_locate: 0,
            tracking_number: 0,
            timestamp: 0,
            stock: [0u8; 8],
            auction_collar_reference_price: 0,
            upper_auction_collar_price: 0,
            lower_auction_collar_price: 0,
            auction_collar_extension: 0,
        }
    }
}

/// An operational halt of an instrument on one market.
#[derive(Debug, Clone, Copy, PartialEq, Eq)]
pub struct OperationalHalt {
    pub message_type: u8,
    pub stock_locate: u16,
    pub tracking_number: u16,
    pub timestamp: u64,
    pub stock: [u8; 8],
    pub market_code: eMarketCode,
    pub operational_halt_action: eOperationalHaltAction,
}

/// How many bytes an [`OperationalHalt`] takes on the wire.
pub const OPERATIONAL_HALT_SIZE: usize = 21;

impl OperationalHalt {
    /// The tag byte, `'h'`.
    pub const TYPE: u8 = 104;

    /// The record that the first `OPERATIONAL_HALT_SIZE` bytes of `b` spell.
    pub open spec fn decoded(b: Seq<u8>) -> OperationalHalt {
        OperationalHalt {
            message_type: b[0],
            stock_locate: u16_at(b, 1),
            tracking_number: u16_at(b, 3),
            timestamp: u48_at(b, 5),
            stock: array8_at(b, 11),
            market_code: eMarketCode(b[19]),
            operational_halt_action: eOperationalHaltAction(b[20]),
        }
    }

    /// The bytes that stand for this record on the wire. The tag is always the
    /// type's own, whatever `message_type` holds, and of the timestamp only the
    /// low 48 bits are kept.
    pub open spec fn encoded(self) -> Seq<u8> {
        seq![Self::TYPE]
            + be_bytes(self.stock_locate as nat, 2)
            + be_bytes(self.tracking_number as nat, 2)
            + be_bytes(self.timestamp as nat, 6)
            + self.stock@
            + seq![self.market_code.0]
            + seq![self.operational_halt_action.0]
    }
}

impl Default for OperationalHalt {
    /// The record with every field zero.
    fn default() -> (r: Self)
        ensures
            r.message_type == 0,
            r.stock_locate == 0,
            r.tracking_number == 0,
            r.timestamp == 0,
            forall|i: int| 0 <= i < 8 ==> r.stock[i] == 0,
            r.market_code.0 == 0,
            r.operational_halt_action.0 == 0,
    {
        OperationalHalt {
            message_type: 0,
            stock_locate: 0,
            tracking_number: 0,
            timestamp: 0,
            stock: [0u8; 8],
            market_code: eMarketCode(0),
            operational_halt_action: eOperationalHaltAction(0),
        }
    }
}

/// A new order without attribution.
#[derive(Debug, Clone, Copy, PartialEq, Eq)]
pub struct AddOrder {
    pub message_type: u8,
    pub stock_locate: u16,
    pub tracking_number: u16,
    pub timestamp: u64,
    pub order_reference_number: u64,
    pub buy_sell_indicator: eBuySellIndicator,
    pub shares: u32,
    pub stock: [u8; 8],
    pub price: u32,
}

/// How many bytes an [`AddOrder`] takes on the wire.
pub const ADD_ORDER_SIZE: usize = 36;

impl AddOrder {
    /// The tag byte, `'A'`.
    pub const TYPE: u8 = 65;

    /// The record that the first `ADD_ORDER_SIZE` bytes of `b` spell.
    pub open spec fn decoded(b: Seq<u8>) -> AddOrder {
        AddOrder {
            message_type: b[0],
            stock_locate: u16_at(b, 1),
            tracking_number: u16_at(b, 3),
            timestamp: u48_at(b, 5),
            order_reference_number: u64_at(b, 11),
            buy_sell_indicator: eBuySellIndicator(b[19]),
            shares: u32_at(b, 20),
            stock: array8_at(b, 24),
            price: u32_at(b, 32),
        }
    }

    /// The bytes that stand for this record on the wire. The tag is always the
    /// type's own, whatever `message_type` holds, and of the timestamp only the
    /// low 48 bits are kept.
    pub open spec fn encoded(self) -> Seq<u8> {
        seq![Self::TYPE]
            + be_bytes(self.stock_locate as nat, 2)
            + be_bytes(self.tracking_number as nat, 2)
            + be_bytes(self.timestamp as nat, 6)
            + be_bytes(self.order_reference_number as nat, 8)
            + seq![self.buy_sell_indicator.0]
            + be_bytes(self.shares as nat, 4)
            + self.stock@
            + be_bytes(self.price as nat, 4)
    }
}

impl Default for AddOrder {
    /// The record with every field zero.
    fn default() -> (r: Self)
        ensures
            r.message_type == 0,
            r.stock_locate == 0,
            r.tracking_number == 0,
            r.timestamp == 0,
            r.order_reference_number == 0,
            r.buy_sell_indicator.0 == 0,
            r.shares == 0,
            forall|i: int| 0 <= i < 8 ==> r.stock[i] == 0,
            r.price == 0,
    {
        AddOrder {
            message_type: 0,
            stock_locate: 0,
            tracking_number: 0,
            timestamp: 0,
            order_reference_number: 0,
            buy_sell_indicator: eBuySellIndicator(0),
            shares: 0,
            stock: [0u8; 8],
            price: 0,
        }
    }
}

/// A new order attributed to a market participant.
#[derive(Debug, Clone, Copy, PartialEq, Eq)]
pub struct AddOrderWithMpid {
    pub message_type: u8,
    pub stock_locate: u16,
    pub tracking_number: u16,
    pub timestamp: u64,
    pub order_reference_number: u64,
    pub buy_sell_indicator: eBuySellIndicator,
    pub shares: u32,
    pub stock: [u8; 8],
    pub price: u32,
    pub attribution: [u8; 4],
}

/// How many bytes an [`AddOrderWithMpid`] takes on the wire.
pub const ADD_ORDER_WITH_MPID_SIZE: usize = 40;

impl AddOrderWithMpid {
    /// The tag byte, `'F'`.
    pub const TYPE: u8 = 70;

    /// The record that the first `ADD_ORDER_WITH_MPID_SIZE` bytes of `b` spell.
    pub open spec fn decoded(b: Seq<u8>) -> AddOrderWithMpid {
        AddOrderWithMpid {
            message_type: b[0],
            stock_locate: u16_at(b, 1),
            tracking_number: u16_at(b, 3),
            timestamp: u48_at(b, 5),
            order_reference_number: u64_at(b, 11),
            buy_sell_indicator: eBuySellIndicator(b[19]),
            shares: u32_at(b, 20),
            stock: array8_at(b, 24),
            price: u32_at(b, 32),
            attribution: array4_at(b, 36),
        }
    }

    /// The bytes that stand for this record on the wire. The tag is always the
    /// type's own, whatever `message_type` holds, and of the timestamp only the
    /// low 48 bits are kept.
    pub open spec fn encoded(self) -> Seq<u8> {
        seq![Self::TYPE]
            + be_bytes(self.stock_locate as nat, 2)
            + be_bytes(self.tracking_number as nat, 2)
            + be_bytes(self.timestamp as nat, 6)
            + be_bytes(self.order_reference_number as nat, 8)
            + seq![self.buy_sell_indicator.0]
            + be_bytes(self.shares as nat, 4)
            + self.stock@
            + be_bytes(self.price as nat, 4)
            + self.attribution@
    }
}

impl Default for AddOrderWithMpid {
    /// The record with every field zero.
    fn default() -> (r: Self)
        ensures
            r.message_type == 0,
            r.stock_locate == 0,
            r.tracking_number == 0,
            r.timestamp == 0,
            r.order_reference_number == 0,
            r.buy_sell_indicator.0 == 0,
            r.shares == 0,
            forall|i: int| 0 <= i < 8 ==> r.stock[i] == 0,
            r.price == 0,
            forall|i: int| 0 <= i < 4 ==> r.attribution[i] == 0,
    {
        AddOrderWithMpid {
            message_type: 0,
            stock_locate: 0,
            tracking_number: 0,
            timestamp: 0,
            order_reference_number: 0,
            buy_sell_indicator: eBuySellIndicator(0),
            shares: 0,
            stock: [0u8; 8],
            price: 0,
            attribution: [0u8; 4],
        }
    }
}

/// An execution of a resting order at its own price.
#[derive(Debug, Clone, Copy, PartialEq, Eq)]
pub struct OrderExecuted {
    pub message_type: u8,
    pub stock_locate: u16,
    pub tracking_number: u16,
    pub timestamp: u64,
    pub order_reference_number: u64,
    pub executed_shares: u32,
    pub match_number: u64,
}

/// How many bytes an [`OrderExecuted`] takes on the wire.
pub const ORDER_EXECUTED_SIZE: usize = 31;

impl OrderExecuted {
    /// The tag byte, `'E'`.
    pub const TYPE: u8 = 69;

    /// The record that the first `ORDER_EXECUTED_SIZE` bytes of `b` spell.
    pub open spec fn decoded(b: Seq<u8>) -> OrderExecuted {
        OrderExecuted {
            message_type: b[0],
            stock_locate: u16_at(b, 1),
            tracking_number: u16_at(b, 3),
            timestamp: u48_at(b, 5),
            order_reference_number: u64_at(b, 11),
            executed_shares: u32_at(b, 19),
            match_number: u64_at(b, 23),
        }
    }

    /// The bytes that stand for this record on the wire. The tag is always the
    /// type's own, whatever `message_type` holds, and of the timestamp only the
    /// low 48 bits are kept.
    pub open spec fn encoded(self) -> Seq<u8> {
        seq![Self::TYPE]
            + be_bytes(self.stock_locate as nat, 2)
            + be_bytes(self.tracking_number as nat, 2)
            + be_bytes(self.timestamp as nat, 6)
            + be_bytes(self.order_reference_number as nat, 8)
            + be_bytes(self.executed_shares as nat, 4)
            + be_bytes(self.match_number as nat, 8)
    }
}

impl Default for OrderExecuted {
    /// The record with every field zero.
    fn default() -> (r: Self)
        ensures
            r.message_type == 0,
            r.stock_locate == 0,
            r.tracking_number == 0,
            r.timestamp == 0,
            r.order_reference_number == 0,
            r.executed_shares == 0,
            r.match_number == 0,
    {
        OrderExecuted {
            message_type: 0,
            stock_locate: 0,
            tracking_number: 0,
            timestamp: 0,
            order_reference_number: 0,
            executed_shares: 0,
            match_number: 0,
        }
    }
}

/// An execution of a resting order at another price than its own.
#[derive(Debug, Clone, Copy, PartialEq, Eq)]
pub struct OrderExecutedWithPrice {
    pub message_type: u8,
    pub stock_locate: u16,
    pub tracking_number: u16,
    pub timestamp: u64,
    pub order_reference_number: u64,
    pub executed_shares: u32,
    pub match_number: u64,
    pub printable: ePrintable,
    pub execution_price: u32,
}

/// How many bytes an [`OrderExecutedWithPrice`] takes on the wire.
pub const ORDER_EXECUTED_WITH_PRICE_SIZE: usize = 36;

impl OrderExecutedWithPrice {
    /// The tag byte, `'C'`.
    pub const TYPE: u8 = 67;

    /// The record that the first `ORDER_EXECUTED_WITH_PRICE_SIZE` bytes of `b`
    /// spell.
    pub open spec fn decoded(b: Seq<u8>) -> OrderExecutedWithPrice {
        OrderExecutedWithPrice {
            message_type: b[0],
            stock_locate: u16_at(b, 1),
            tracking_number: u16_at(b, 3),
            timestamp: u48_at(b, 5),
            order_reference_number: u64_at(b, 11),
            executed_shares: u32_at(b, 19),
            match_number: u64_at(b, 23),
            printable: ePrintable(b[31]),
            execution_price: u32_at(b, 32),
        }
    }

    /// The bytes that stand for this record on the wire. The tag is always the
    /// type's own, whatever `message_type` holds, and of the timestamp only the
    /// low 48 bits are kept.
    pub open spec fn encoded(self) -> Seq<u8> {
        seq![Self::TYPE]
            + be_bytes(self.stock_locate as nat, 2)
            + be_bytes(self.tracking_number as nat, 2)
            + be_bytes(self.timestamp as nat, 6)
            + be_bytes(self.order_reference_number as nat, 8)
            + be_bytes(self.executed_shares as nat, 4)
            + be_bytes(self.match_number as nat, 8)
            + seq![self.printable.0]
            + be_bytes(self.execution_price as nat, 4)
    }
}

impl Default for OrderExecutedWithPrice {
    /// The record with every field zero.
    fn default() -> (r: Self)
        ensures
            r.message_type == 0,
            r.stock_locate == 0,
            r.tracking_number == 0,
            r.timestamp == 0,
            r.order_reference_number == 0,
            r.executed_shares == 0,
            r.match_number == 0,
            r.printable.0 == 0,
            r.execution_price == 0,
    {
        OrderExecutedWithPrice {
            message_type: 0,
            stock_locate: 0,
            tracking_number: 0,
            timestamp: 0,
            order_reference_number: 0,
            executed_shares: 0,
            match_number: 0,
            printable: ePrintable(0),
            execution_price: 0,
        }
    }
}

/// A partial cancellation of a resting order.
#[derive(Debug, Clone, Copy, PartialEq, Eq)]
pub struct OrderCancel {
    pub message_type: u8,
    pub stock_locate: u16,
    pub tracking_number: u16,
    pub timestamp: u64,
    pub order_reference_number: u64,
    pub cancelled_shares: u32,
}

/// How many bytes an [`OrderCancel`] takes on the wire.
pub const ORDER_CANCEL_SIZE: usize = 23;

impl OrderCancel {
    /// The tag byte, `'X'`.
    pub const TYPE: u8 = 88;

    /// The record that the first `ORDER_CANCEL_SIZE` bytes of `b` spell.
    pub open spec fn decoded(b: Seq<u8>) -> OrderCancel {
        OrderCancel {
            message_type: b[0],
            stock_locate: u16_at(b, 1),
            tracking_number: u16_at(b, 3),
            timestamp: u48_at(b, 5),
            order_reference_number: u64_at(b, 11),
            cancelled_shares: u32_at(b, 19),
        }
    }

    /// The bytes that stand for this record on the wire. The tag is always the
    /// type's own, whatever `message_type` holds, and of the timestamp only the
    /// low 48 bits are kept.
    pub open spec fn encoded(self) -> Seq<u8> {
        seq![Self::TYPE]
            + be_bytes(self.stock_locate as nat, 2)
            + be_bytes(self.tracking_number as nat, 2)
            + be_bytes(self.timestamp as nat, 6)
            + be_bytes(self.order_reference_number as nat, 8)
            + be_bytes(self.cancelled_shares as nat, 4)
    }
}

impl Default for OrderCancel {
    /// The record with every field zero.
    fn default() -> (r: Self)
        ensures
            r.message_type == 0,
            r.stock_locate == 0,
            r.tracking_number == 0,
            r.timestamp == 0,
            r.order_reference_number == 0,
            r.cancelled_shares == 0,
    {
        OrderCancel {
            message_type: 0,
            stock_locate: 0,
            tracking_number: 0,
            timestamp: 0,
            order_reference_number: 0,
            cancelled_shares: 0,
        }
    }
}

/// The removal of a resting order.
#[derive(Debug, Clone, Copy, PartialEq, Eq)]
pub struct OrderDelete {
    pub message_type: u8,
    pub stock_locate: u16,
    pub tracking_number: u16,
    pub timestamp: u64,
    pub order_reference_number: u64,
}

/// How many bytes an [`OrderDelete`] takes on the wire.
pub const ORDER_DELETE_SIZE: usize = 19;

impl OrderDelete {
    /// The tag byte, `'D'`.
    pub const TYPE: u8 = 68;

    /// The record that the first `ORDER_DELETE_SIZE` bytes of `b` spell.
    pub open spec fn decoded(b: Seq<u8>) -> OrderDelete {
        OrderDelete {
            message_type: b[0],
            stock_locate: u16_at(b, 1),
            tracking_number: u16_at(b, 3),
            timestamp: u48_at(b, 5),
            order_reference_number: u64_at(b, 11),
        }
    }

    /// The bytes that stand for this record on the wire. The tag is always the
    /// type's own, whatever `message_type` holds, and of the timestamp only the
    /// low 48 bits are kept.
    pub open spec fn encoded(self) -> Seq<u8> {
        seq![Self::TYPE]
            + be_bytes(self.stock_locate as nat, 2)
            + be_bytes(self.tracking_number as nat, 2)
            + be_bytes(self.timestamp as nat, 6)
            + be_bytes(self.order_reference_number as nat, 8)
    }
}

impl Default for OrderDelete {
    /// The record with every field zero.
    fn default() -> (r: Self)
        ensures
            r.message_type == 0,
            r.stock_locate == 0,
            r.tracking_number == 0,
            r.timestamp == 0,
            r.order_reference_number == 0,
    {
        OrderDelete {
            message_type: 0,
            stock_locate: 0,
            tracking_number: 0,
            timestamp: 0,
            order_reference_number: 0,
        }
    }
}

/// The replacement of a resting order by a new one.
#[derive(Debug, Clone, Copy, PartialEq, Eq)]
pub struct OrderReplace {
    pub message_type: u8,
    pub stock_locate: u16,
    pub tracking_number: u16,
    pub timestamp: u64,
    pub original_order_reference_number: u64,
    pub new_order_reference_number: u64,
    pub shares: u32,
    pub price: u32,
}

/// How many bytes an [`OrderReplace`] takes on the wire.
pub const ORDER_REPLACE_SIZE: usize = 35;

impl OrderReplace {
    /// The tag byte, `'U'`.
    pub const TYPE: u8 = 85;

    /// The record that the first `ORDER_REPLACE_SIZE` bytes of `b` spell.
    pub open spec fn decoded(b: Seq<u8>) -> OrderReplace {
        OrderReplace {
            message_type: b[0],
            stock_locate: u16_at(b, 1),
            tracking_number: u16_at(b, 3),
            timestamp: u48_at(b, 5),
            original_order_reference_number: u64_at(b, 11),
            new_order_reference_number: u64_at(b, 19),
            shares: u32_at(b, 27),
            price: u32_at(b, 31),
        }
    }

    /// The bytes that stand for this record on the wire. The tag is always the
    /// type's own, whatever `message_type` holds, and of the timestamp only the
    /// low 48 bits are kept.
    pub open spec fn encoded(self) -> Seq<u8> {
        seq![Self::TYPE]
            + be_bytes(self.stock_locate as nat, 2)
            + be_bytes(self.tracking_number as nat, 2)
            + be_bytes(self.timestamp as nat, 6)
            + be_bytes(self.original_order_reference_number as nat, 8)
            + be_bytes(self.new_order_reference_number as nat, 8)
            + be_bytes(self.shares as nat, 4)
            + be_bytes(self.price as nat, 4)
    }
}

impl Default for OrderReplace {
    /// The record with every field zero.
    fn default() -> (r: Self)
        ensures
            r.message_type == 0,
            r.stock_locate == 0,
            r.tracking_number == 0,
            r.timestamp == 0,
            r.original_order_reference_number == 0,
            r.new_order_reference_number == 0,
            r.shares == 0,
            r.price == 0,
    {
        OrderReplace {
            message_type: 0,
            stock_locate: 0,
            tracking_number: 0,
            timestamp: 0,
            original_order_reference_number: 0,
            new_order_reference_number: 0,
            shares: 0,
            price: 0,
        }
    }
}

/// A trade against an order that is not displayed.
#[derive(Debug, Clone, Copy, PartialEq, Eq)]
pub struct Trade {
    pub message_type: u8,
    pub stock_locate: u16,
    pub tracking_number: u16,
    pub timestamp: u64,
    pub order_reference_number: u64,
    pub buy_sell_indicator: eBuySellIndicator,
    pub shares: u32,
    pub stock: [u8; 8],
    pub price: u32,
    pub match_number: u64,
}

/// How many bytes a [`Trade`] takes on the wire.
pub const TRADE_SIZE: usize = 44;

impl Trade {
    /// The tag byte, `'P'`.
    pub const TYPE: u8 = 80;

    /// The record that the first `TRADE_SIZE` bytes of `b` spell.
    pub open spec fn decoded(b: Seq<u8>) -> Trade {
        Trade {
            message_type: b[0],
            stock_locate: u16_at(b, 1),
            tracking_number: u16_at(b, 3),
            timestamp: u48_at(b, 5),
            order_reference_number: u64_at(b, 11),
            buy_sell_indicator: eBuySellIndicator(b[19]),
            shares: u32_at(b, 20),
            stock: array8_at(b, 24),
            price: u32_at(b, 32),
            match_number: u64_at(b, 36),
        }
    }

    /// The bytes that stand for this record on the wire. The tag is always the
    /// type's own, whatever `message_type` holds, and of the timestamp only the
    /// low 48 bits are kept.
    pub open spec fn encoded(self) -> Seq<u8> {
        seq![Self::TYPE]
            + be_bytes(self.stock_locate as nat, 2)
            + be_bytes(self.tracking_number as nat, 2)
            + be_bytes(self.timestamp as nat, 6)
            + be_bytes(self.order_reference_number as nat, 8)
            + seq![self.buy_sell_indicator.0]
            + be_bytes(self.shares as nat, 4)
            + self.stock@
            + be_bytes(self.price as nat, 4)
            + be_bytes(self.match_number as nat, 8)
    }
}

impl Default for Trade {
    /// The record with every field zero.
    fn default() -> (r: Self)
        ensures
            r.message_type == 0,
            r.stock_locate == 0,
            r.tracking_number == 0,
            r.timestamp == 0,
            r.order_reference_number == 0,
            r.buy_sell_indicator.0 == 0,
            r.shares == 0,
            forall|i: int| 0 <= i < 8 ==> r.stock[i] == 0,
            r.price == 0,
            r.match_number == 0,
    {
        Trade {
            message_type: 0,
            stock_locate: 0,
            tracking_number: 0,
            timestamp: 0,
            order_reference_number: 0,
            buy_sell_indicator: eBuySellIndicator(0),
            shares: 0,
            stock: [0u8; 8],
            price: 0,
            match_number: 0,
        }
    }
}

/// The bulk trade of a cross.
#[derive(Debug, Clone, Copy, PartialEq, Eq)]
pub struct CrossTrade {
    pub message_type: u8,
    pub stock_locate: u16,
    pub tracking_number: u16,
    pub timestamp: u64,
    pub shares: u64,
    pub stock: [u8; 8],
    pub cross_price: u32,
    pub match_number: u64,
    pub cross_type: eCrossType,
}

/// How many bytes a [`CrossTrade`] takes on the wire.
pub const CROSS_TRADE_SIZE: usize = 40;

impl CrossTrade {
    /// The tag byte, `'Q'`.
    pub const TYPE: u8 = 81;

    /// The record that the first `CROSS_TRADE_SIZE` bytes of `b` spell.
    pub open spec fn decoded(b: Seq<u8>) -> CrossTrade {
        CrossTrade {
            message_type: b[0],
            stock_locate: u16_at(b, 1),
            tracking_number: u16_at(b, 3),
            timestamp: u48_at(b, 5),
            shares: u64_at(b, 11),
            stock: array8_at(b, 19),
            cross_price: u32_at(b, 27),
            match_number: u64_at(b, 31),
            cross_type: eCrossType(b[39]),
        }
    }

    /// The bytes that stand for this record on the wire. The tag is always the
    /// type's own, whatever `message_type` holds, and of the timestamp only the
    /// low 48 bits are kept.
    pub open spec fn encoded(self) -> Seq<u8> {
        seq![Self::TYPE]
            + be_bytes(self.stock_locate as nat, 2)
            + be_bytes(self.tracking_number as nat, 2)
            + be_bytes(self.timestamp as nat, 6)
            + be_bytes(self.shares as nat, 8)
            + self.stock@
            + be_bytes(self.cross_price as nat, 4)
            + be_bytes(self.match_number as nat, 8)
            + seq![self.cross_type.0]
    }
}

impl Default for CrossTrade {
    /// The record with every field zero.
    fn default() -> (r: Self)
        ensures
            r.message_type == 0,
            r.stock_locate == 0,
            r.tracking_number == 0,
            r.timestamp == 0,
            r.shares == 0,
            forall|i: int| 0 <= i < 8 ==> r.stock[i] == 0,
            r.cross_price == 0,
            r.match_number == 0,
            r.cross_type.0 == 0,
    {
        CrossTrade {
            message_type: 0,
            stock_locate: 0,
            tracking_number: 0,
            timestamp: 0,
            shares: 0,
            stock: [0u8; 8],
            cross_price: 0,
            match_number: 0,
            cross_type: eCrossType(0),
        }
    }
}

/// A trade that was broken after the fact.
#[derive(Debug, Clone, Copy, PartialEq, Eq)]
pub struct BrokenTrade {
    pub message_type: u8,
    pub stock_locate: u16,
    pub tracking_number: u16,
    pub timestamp: u64,
    pub match_number: u64,
}

/// How many bytes a [`BrokenTrade`] takes on the wire.
pub const BROKEN_TRADE_SIZE: usize = 19;

impl BrokenTrade {
    /// The tag byte, `'B'`.
    pub const TYPE: u8 = 66;

    /// The record that the first `BROKEN_TRADE_SIZE` bytes of `b` spell.
    pub open spec fn decoded(b: Seq<u8>) -> BrokenTrade {
        BrokenTrade {
            message_type: b[0],
            stock_locate: u16_at(b, 1),
            tracking_number: u16_at(b, 3),
            timestamp: u48_at(b, 5),
            match_number: u64_at(b, 11),
        }
    }

    /// The bytes that stand for this record on the wire. The tag is always the
    /// type's own, whatever `message_type` holds, and of the timestamp only the
    /// low 48 bits are kept.
    pub open spec fn encoded(self) -> Seq<u8> {
        seq![Self::TYPE]
            + be_bytes(self.stock_locate as nat, 2)
            + be_bytes(self.tracking_number as nat, 2)
            + be_bytes(self.timestamp as nat, 6)
            + be_bytes(self.match_number as nat, 8)
    }
}

impl Default for BrokenTrade {
    /// The record with every field zero.
    fn default() -> (r: Self)
        ensures
            r.message_type == 0,
            r.stock_locate == 0,
            r.tracking_number == 0,
            r.timestamp == 0,
            r.match_number == 0,
    {
        BrokenTrade {
            message_type: 0,
            stock_locate: 0,
            tracking_number: 0,
            timestamp: 0,
            match_number: 0,
        }
    }
}

/// The order imbalance ahead of a cross.
#[derive(Debug, Clone, Copy, PartialEq, Eq)]
pub struct NetOrderImbalanceIndicator {
    pub message_type: u8,
    pub stock_locate: u16,
    pub tracking_number: u16,
    pub timestamp: u64,
    pub paired_shares: u64,
    pub imbalance_shares: u64,
    pub imbalance_direction: eImbalanceDirection,
    pub stock: [u8; 8],
    pub far_price: u32,
    pub near_price: u32,
    pub current_reference_price: u32,
    pub cross_type: eCrossType,
    pub price_variation_indicator: ePriceVariationIndicator,
}

/// How many bytes a [`NetOrderImbalanceIndicator`] takes on the wire.
pub const NET_ORDER_IMBALANCE_INDICATOR_SIZE: usize = 50;

impl NetOrderImbalanceIndicator {
    /// The tag byte, `'I'`.
    pub const TYPE: u8 = 73;

    /// The record that the first `NET_ORDER_IMBALANCE_INDICATOR_SIZE` bytes of
    /// `b` spell.
    pub open spec fn decoded(b: Seq<u8>) -> NetOrderImbalanceIndicator {
        NetOrderImbalanceIndicator {
            message_type: b[0],
            stock_locate: u16_at(b, 1),
            tracking_number: u16_at(b, 3),
            timestamp: u48_at(b, 5),
            paired_shares: u64_at(b, 11),
            imbalance_shares: u64_at(b, 19),
            imbalance_direction: eImbalanceDirection(b[27]),
            stock: array8_at(b, 28),
            far_price: u32_at(b, 36),
            near_price: u32_at(b, 40),
            current_reference_price: u32_at(b, 44),
            cross_type: eCrossType(b[48]),
            price_variation_indicator: ePriceVariationIndicator(b[49]),
        }
    }

    /// The bytes that stand for this record on the wire. The tag is always the
    /// type's own, whatever `message_type` holds, and of the timestamp only the
    /// low 48 bits are kept.
    pub open spec fn encoded(self) -> Seq<u8> {
        seq![Self::TYPE]
            + be_bytes(self.stock_locate as nat, 2)
            + be_bytes(self.tracking_number as nat, 2)
            + be_bytes(self.timestamp as nat, 6)
            + be_bytes(self.paired_shares as nat, 8)
            + be_bytes(self.imbalance_shares as nat, 8)
            + seq![self.imbalance_direction.0]
            + self.stock@
            + be_bytes(self.far_price as nat, 4)
            + be_bytes(self.near_price as nat, 4)
            + be_bytes(self.current_reference_price as nat, 4)
            + seq![self.cross_type.0]
            + seq![self.price_variation_indicator.0]
    }
}

impl Default for NetOrderImbalanceIndicator {
    /// The record with every field zero.
    fn default() -> (r: Self)
        ensures
            r.message_type == 0,
            r.stock_locate == 0,
            r.tracking_number == 0,
            r.timestamp == 0,
            r.paired_shares == 0,
            r.imbalance_shares == 0,
            r.imbalance_direction.0 == 0,
            forall|i: int| 0 <= i < 8 ==> r.stock[i] == 0,
            r.far_price == 0,
            r.near_price == 0,
            r.current_reference_price == 0,
            r.cross_type.0 == 0,
            r.price_variation_indicator.0 == 0,
    {
        NetOrderImbalanceIndicator {
            message_type: 0,
            stock_locate: 0,
            tracking_number: 0,
            timestamp: 0,
            paired_shares: 0,
            imbalance_shares: 0,
            imbalance_direction: eImbalanceDirection(0),
            stock: [0u8; 8],
            far_price: 0,
            near_price: 0,
            current_reference_price: 0,
            cross_type: eCrossType(0),
            price_variation_indicator: ePriceVariationIndicator(0),
        }
    }
}

/// Whether retail price improvement interest is at hand.
#[derive(Debug, Clone, Copy, PartialEq, Eq)]
pub struct RetailPriceImprovementIndicator {
    pub message_type: u8,
    pub stock_locate: u16,
    pub tracking_number: u16,
    pub timestamp: u64,
    pub stock: [u8; 8],
    pub interest_flag: eInterestFlag,
}

/// How many bytes a [`RetailPriceImprovementIndicator`] takes on the wire.
pub const RETAIL_PRICE_IMPROVEMENT_INDICATOR_SIZE: usize = 20;

impl RetailPriceImprovementIndicator {
    /// The tag byte, `'N'`.
    pub const TYPE: u8 = 78;

    /// The record that the first `RETAIL_PRICE_IMPROVEMENT_INDICATOR_SIZE`
    /// bytes of `b` spell.
    pub open spec fn decoded(b: Seq<u8>) -> RetailPriceImprovementIndicator {
        RetailPriceImprovementIndicator {
            message_type: b[0],
            stock_locate: u16_at(b, 1),
            tracking_number: u16_at(b, 3),
            timestamp: u48_at(b, 5),
            stock: array8_at(b, 11),
            interest_flag: eInterestFlag(b[19]),
        }
    }

    /// The bytes that stand for this record on the wire. The tag is always the
    /// type's own, whatever `message_type` holds, and of the timestamp only the
    /// low 48 bits are kept.
    pub open spec fn encoded(self) -> Seq<u8> {
        seq![Self::TYPE]
            + be_bytes(self.stock_locate as nat, 2)
            + be_bytes(self.tracking_number as nat, 2)
            + be_bytes(self.timestamp as nat, 6)
            + self.stock@
            + seq![self.interest_flag.0]
    }
}

impl Default for RetailPriceImprovementIndicator {
    /// The record with every field zero.
    fn default() -> (r: Self)
        ensures
            r.message_type == 0,
            r.stock_locate == 0,
            r.tracking_number == 0,
            r.timestamp == 0,
            forall|i: int| 0 <= i < 8 ==> r.stock[i] == 0,
            r.interest_flag.0 == 0,
    {
        RetailPriceImprovementIndicator {
            message_type: 0,
            stock_locate: 0,
            tracking_number: 0,
            timestamp: 0,
            stock: [0u8; 8],
            interest_flag: eInterestFlag(0),
        }
    }
}

/// The marker that ends a snapshot. It has no common prefix.
#[derive(Debug, Clone, Copy, PartialEq, Eq)]
pub struct EndOfSnapshot {
    pub message_type: u8,
    pub sequence_number: [u8; 20],
}

/// How many bytes an [`EndOfSnapshot`] takes on the wire.
pub const END_OF_SNAPSHOT_SIZE: usize = 21;

impl EndOfSnapshot {
    /// The tag byte, `'G'`.
    pub const TYPE: u8 = 71;

    /// The record that the first `END_OF_SNAPSHOT_SIZE` bytes of `b` spell.
    pub open spec fn decoded(b: Seq<u8>) -> EndOfSnapshot {
        EndOfSnapshot {
            message_type: b[0],
            sequence_number: array20_at(b, 1),
        }
    }

    /// The bytes that stand for this record on the wire. The tag is always the
    /// type's own, whatever `message_type` holds.
    pub open spec fn encoded(self) -> Seq<u8> {
        seq![Self::TYPE]
            + self.sequence_number@
    }
}

impl Default for EndOfSnapshot {
    /// The record with every field zero.
    fn default() -> (r: Self)
        ensures
            r.message_type == 0,
            forall|i: int| 0 <= i < 20 ==> r.sequence_number[i] == 0,
    {
        EndOfSnapshot {
            message_type: 0,
            sequence_number: [0u8; 20],
        }
    }
}

} // verus!
