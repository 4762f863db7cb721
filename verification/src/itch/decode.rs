//! Decoding: from a byte slice, or from a cursor that moves past what it read.

use crate::bytes::{
    read_array10_at, read_array20_at, read_array2_at, read_array4_at, read_array8_at,
    read_u16_at, read_u32_at, read_u64_at,
};
use crate::cursor::ReadCursor;
use crate::error::DecodeError;
use crate::itch::codes::{
    eAuthenticity,
    eBreachedLevel,
    eBuySellIndicator,
    eCrossType,
    eETPFlag,
    eFinancialStatusIndicator,
    eIPOFlag,
    eIPOQuotationReleaseQualifier,
    eImbalanceDirection,
    eInterestFlag,
    eInverseIndicator,
    eIssueClassification,
    eLULDReferencePriceTier,
    eMarketCategory,
    eMarketCode,
    eMarketMakerMode,
    eMarketParticipantState,
    eOperationalHaltAction,
    ePriceVariationIndicator,
    ePrimaryMarketMaker,
    ePrintable,
    eRegSHOAction,
    eRoundLotsOnly,
    eShortSaleThresholdIndicator,
    eSystemEvent,
    eTradingState,
};
use crate::itch::read_u48_at;
use crate::itch::records::{
    PacketHeader, PACKET_HEADER_SIZE,
    MessageBlock, MESSAGE_BLOCK_SIZE,
    RequestPacket, REQUEST_PACKET_SIZE,
    SystemEvent, SYSTEM_EVENT_SIZE,
    StockDirectory, STOCK_DIRECTORY_SIZE,
    StockTradingAction, STOCK_TRADING_ACTION_SIZE,
    RegShoRestriction, REG_SHO_RESTRICTION_SIZE,
    MarketParticipantPosition, MARKET_PARTICIPANT_POSITION_SIZE,
    MwcbDeclineLevel, MWCB_DECLINE_LEVEL_SIZE,
    MwcbStatus, MWCB_STATUS_SIZE,
    IpoQuotingPeriodUpdate, IPO_QUOTING_PERIOD_UPDATE_SIZE,
    LuldAuctionCollar, LULD_AUCTION_COLLAR_SIZE,
    OperationalHalt, OPERATIONAL_HALT_SIZE,
    AddOrder, ADD_ORDER_SIZE,
    AddOrderWithMpid, ADD_ORDER_WITH_MPID_SIZE,
    OrderExecuted, ORDER_EXECUTED_SIZE,
    OrderExecutedWithPrice, ORDER_EXECUTED_WITH_PRICE_SIZE,
    OrderCancel, ORDER_CANCEL_SIZE,
    OrderDelete, ORDER_DELETE_SIZE,
    OrderReplace, ORDER_REPLACE_SIZE,
    Trade, TRADE_SIZE,
    CrossTrade, CROSS_TRADE_SIZE,
    BrokenTrade, BROKEN_TRADE_SIZE,
    NetOrderImbalanceIndicator, NET_ORDER_IMBALANCE_INDICATOR_SIZE,
    RetailPriceImprovementIndicator, RETAIL_PRICE_IMPROVEMENT_INDICATOR_SIZE,
    EndOfSnapshot, END_OF_SNAPSHOT_SIZE,
};
use vstd::prelude::*;

verus! {

impl PacketHeader {
    /// Decodes a `PacketHeader` from the start of `bytes`. Fails, with nothing
    /// decoded, exactly when `bytes` is shorter than `PACKET_HEADER_SIZE`; what
    /// lies beyond that length is not looked at.
    pub fn from_bytes(bytes: &[u8]) -> (r: Option<(Self, usize)>)
        ensures
            bytes@.len() < PACKET_HEADER_SIZE ==> r is None,
            bytes@.len() >= PACKET_HEADER_SIZE ==> r == Some(
                (Self::decoded(bytes@), PACKET_HEADER_SIZE),
            ),
    {
        if bytes.len() < PACKET_HEADER_SIZE {
            return None;
        }
        let obj = PacketHeader {
            session: read_array10_at(bytes, 0),
            sequence_number: read_u64_at(bytes, 10),
            message_count: read_u16_at(bytes, 18),
        };
        Some((obj, PACKET_HEADER_SIZE))
    }

    /// Decodes a `PacketHeader` at the cursor and moves the cursor past it.
    /// Where fewer than `PACKET_HEADER_SIZE` bytes are left, the call fails and
    /// the cursor stays where it was.
    pub fn from_cursor(rdr: &mut ReadCursor<'_>) -> (r: Result<Self, DecodeError>)
        ensures
            old(rdr)@.room() < PACKET_HEADER_SIZE ==> {
                &&& r == Err::<Self, DecodeError>(DecodeError::Truncated)
                &&& final(rdr)@ == old(rdr)@
            },
            old(rdr)@.room() >= PACKET_HEADER_SIZE ==> {
                &&& r == Ok::<Self, DecodeError>(Self::decoded(old(rdr)@.remaining()))
                &&& final(rdr)@ == old(rdr)@.advance(PACKET_HEADER_SIZE as nat)
            },
    {
        match Self::from_bytes(rdr.remaining()) {
            Some((obj, used)) => {
                rdr.advance(used);
                Ok(obj)
            },
            None => Err(DecodeError::Truncated),
        }
    }
}

impl MessageBlock {
    /// Decodes a `MessageBlock` from the start of `bytes`. Fails, with nothing
    /// decoded, exactly when `bytes` is shorter than `MESSAGE_BLOCK_SIZE`; what
    /// lies beyond that length is not looked at.
    pub fn from_bytes(bytes: &[u8]) -> (r: Option<(Self, usize)>)
        ensures
            bytes@.len() < MESSAGE_BLOCK_SIZE ==> r is None,
            bytes@.len() >= MESSAGE_BLOCK_SIZE ==> r == Some(
                (Self::decoded(bytes@), MESSAGE_BLOCK_SIZE),
            ),
    {
        if bytes.len() < MESSAGE_BLOCK_SIZE {
            return None;
        }
        let obj = MessageBlock {
            message_length: read_u16_at(bytes, 0),
        };
        Some((obj, MESSAGE_BLOCK_SIZE))
    }

    /// Decodes a `MessageBlock` at the cursor and moves the cursor past it.
    /// Where fewer than `MESSAGE_BLOCK_SIZE` bytes are left, the call fails and
    /// the cursor stays where it was.
    pub fn from_cursor(rdr: &mut ReadCursor<'_>) -> (r: Result<Self, DecodeError>)
        ensures
            old(rdr)@.room() < MESSAGE_BLOCK_SIZE ==> {
                &&& r == Err::<Self, DecodeError>(DecodeError::Truncated)
                &&& final(rdr)@ == old(rdr)@
            },
            old(rdr)@.room() >= MESSAGE_BLOCK_SIZE ==> {
                &&& r == Ok::<Self, DecodeError>(Self::decoded(old(rdr)@.remaining()))
                &&& final(rdr)@ == old(rdr)@.advance(MESSAGE_BLOCK_SIZE as nat)
            },
    {
        match Self::from_bytes(rdr.remaining()) {
            Some((obj, used)) => {
                rdr.advance(used);
                Ok(obj)
            },
            None => Err(DecodeError::Truncated),
        }
    }
}

impl RequestPacket {
    /// Decodes a `RequestPacket` from the start of `bytes`. Fails, with nothing
    /// decoded, exactly when `bytes` is shorter than `REQUEST_PACKET_SIZE`;
    /// what lies beyond that length is not looked at.
    pub fn from_bytes(bytes: &[u8]) -> (r: Option<(Self, usize)>)
        ensures
            bytes@.len() < REQUEST_PACKET_SIZE ==> r is None,
            bytes@.len() >= REQUEST_PACKET_SIZE ==> r == Some(
                (Self::decoded(bytes@), REQUEST_PACKET_SIZE),
            ),
    {
        if bytes.len() < REQUEST_PACKET_SIZE {
            return None;
        }
        let obj = RequestPacket {
            session: read_array10_at(bytes, 0),
            sequence_number: read_array8_at(bytes, 10),
            requested_message_count: read_u16_at(bytes, 18),
        };
        Some((obj, REQUEST_PACKET_SIZE))
    }

    /// Decodes a `RequestPacket` at the cursor and moves the cursor past it.
    /// Where fewer than `REQUEST_PACKET_SIZE` bytes are left, the call fails
    /// and the cursor stays where it was.
    pub fn from_cursor(rdr: &mut ReadCursor<'_>) -> (r: Result<Self, DecodeError>)
        ensures
            old(rdr)@.room() < REQUEST_PACKET_SIZE ==> {
                &&& r == Err::<Self, DecodeError>(DecodeError::Truncated)
                &&& final(rdr)@ == old(rdr)@
            },
            old(rdr)@.room() >= REQUEST_PACKET_SIZE ==> {
                &&& r == Ok::<Self, DecodeError>(Self::decoded(old(rdr)@.remaining()))
                &&& final(rdr)@ == old(rdr)@.advance(REQUEST_PACKET_SIZE as nat)
            },
    {
        match Self::from_bytes(rdr.remaining()) {
            Some((obj, used)) => {
                rdr.advance(used);
                Ok(obj)
            },
            None => Err(DecodeError::Truncated),
        }
    }
}

impl SystemEvent {
    /// Decodes a `SystemEvent` from the start of `bytes`. Fails, with nothing
    /// decoded, exactly when `bytes` is shorter than `SYSTEM_EVENT_SIZE`; what
    /// lies beyond that length is not looked at.
    pub fn from_bytes(bytes: &[u8]) -> (r: Option<(Self, usize)>)
        ensures
            bytes@.len() < SYSTEM_EVENT_SIZE ==> r is None,
            bytes@.len() >= SYSTEM_EVENT_SIZE ==> r == Some(
                (Self::decoded(bytes@), SYSTEM_EVENT_SIZE),
            ),
    {
        if bytes.len() < SYSTEM_EVENT_SIZE {
            return None;
        }
        let obj = SystemEvent {
            message_type: bytes[0],
            stock_locate: read_u16_at(bytes, 1),
            tracking_number: read_u16_at(bytes, 3),
            timestamp: read_u48_at(bytes, 5),
            event_code: eSystemEvent(bytes[11]),
        };
        Some((obj, SYSTEM_EVENT_SIZE))
    }

    /// Decodes a `SystemEvent` at the cursor and moves the cursor past it.
    /// Where fewer than `SYSTEM_EVENT_SIZE` bytes are left, the call fails and
    /// the cursor stays where it was.
    pub fn from_cursor(rdr: &mut ReadCursor<'_>) -> (r: Result<Self, DecodeError>)
        ensures
            old(rdr)@.room() < SYSTEM_EVENT_SIZE ==> {
                &&& r == Err::<Self, DecodeError>(DecodeError::Truncated)
                &&& final(rdr)@ == old(rdr)@
            },
            old(rdr)@.room() >= SYSTEM_EVENT_SIZE ==> {
                &&& r == Ok::<Self, DecodeError>(Self::decoded(old(rdr)@.remaining()))
                &&& final(rdr)@ == old(rdr)@.advance(SYSTEM_EVENT_SIZE as nat)
            },
    {
        match Self::from_bytes(rdr.remaining()) {
            Some((obj, used)) => {
                rdr.advance(used);
                Ok(obj)
            },
            None => Err(DecodeError::Truncated),
        }
    }
}

impl StockDirectory {
    /// Decodes a `StockDirectory` from the start of `bytes`. Fails, with
    /// nothing decoded, exactly when `bytes` is shorter than
    /// `STOCK_DIRECTORY_SIZE`; what lies beyond that length is not looked at.
    pub fn from_bytes(bytes: &[u8]) -> (r: Option<(Self, usize)>)
        ensures
            bytes@.len() < STOCK_DIRECTORY_SIZE ==> r is None,
            bytes@.len() >= STOCK_DIRECTORY_SIZE ==> r == Some(
                (Self::decoded(bytes@), STOCK_DIRECTORY_SIZE),
            ),
    {
        if bytes.len() < STOCK_DIRECTORY_SIZE {
            return None;
        }
        let obj = StockDirectory {
            message_type: bytes[0],
            stock_locate: read_u16_at(bytes, 1),
            tracking_number: read_u16_at(bytes, 3),
            timestamp: read_u48_at(bytes, 5),
            stock: read_array8_at(bytes, 11),
            market_category: eMarketCategory(bytes[19]),
            financial_status_indicator: eFinancialStatusIndicator(bytes[20]),
            round_lot_size: read_u32_at(bytes, 21),
            round_lots_only: eRoundLotsOnly(bytes[25]),
            issue_classification: eIssueClassification(bytes[26]),
            issue_sub_type: read_array2_at(bytes, 27),
            authenticity: eAuthenticity(bytes[29]),
            short_sale_threshold_indicator: eShortSaleThresholdIndicator(bytes[30]),
            ipo_flag: eIPOFlag(bytes[31]),
            luld_reference_price_tier: eLULDReferencePriceTier(bytes[32]),
            etp_flag: eETPFlag(bytes[33]),
            etp_leverage_factor: read_u32_at(bytes, 34),
            inverse_indicator: eInverseIndicator(bytes[38]),
        };
        Some((obj, STOCK_DIRECTORY_SIZE))
    }

    /// Decodes a `StockDirectory` at the cursor and moves the cursor past it.
    /// Where fewer than `STOCK_DIRECTORY_SIZE` bytes are left, the call fails
    /// and the cursor stays where it was.
    pub fn from_cursor(rdr: &mut ReadCursor<'_>) -> (r: Result<Self, DecodeError>)
        ensures
            old(rdr)@.room() < STOCK_DIRECTORY_SIZE ==> {
                &&& r == Err::<Self, DecodeError>(DecodeError::Truncated)
                &&& final(rdr)@ == old(rdr)@
            },
            old(rdr)@.room() >= STOCK_DIRECTORY_SIZE ==> {
                &&& r == Ok::<Self, DecodeError>(Self::decoded(old(rdr)@.remaining()))
                &&& final(rdr)@ == old(rdr)@.advance(STOCK_DIRECTORY_SIZE as nat)
            },
    {
        match Self::from_bytes(rdr.remaining()) {
            Some((obj, used)) => {
                rdr.advance(used);
                Ok(obj)
            },
            None => Err(DecodeError::Truncated),
        }
    }
}

impl StockTradingAction {
    /// Decodes a `StockTradingAction` from the start of `bytes`. Fails, with
    /// nothing decoded, exactly when `bytes` is shorter than
    /// `STOCK_TRADING_ACTION_SIZE`; what lies beyond that length is not looked
    /// at.
    pub fn from_bytes(bytes: &[u8]) -> (r: Option<(Self, usize)>)
        ensures
            bytes@.len() < STOCK_TRADING_ACTION_SIZE ==> r is None,
            bytes@.len() >= STOCK_TRADING_ACTION_SIZE ==> r == Some(
                (Self::decoded(bytes@), STOCK_TRADING_ACTION_SIZE),
            ),
    {
        if bytes.len() < STOCK_TRADING_ACTION_SIZE {
            return None;
        }
        let obj = StockTradingAction {
            message_type: bytes[0],
            stock_locate: read_u16_at(bytes, 1),
            tracking_number: read_u16_at(bytes, 3),
            timestamp: read_u48_at(bytes, 5),
            stock: read_array8_at(bytes, 11),
            trading_state: eTradingState(bytes[19]),
            reserved: bytes[20],
            reason: read_array4_at(bytes, 21),
        };
        Some((obj, STOCK_TRADING_ACTION_SIZE))
    }

    /// Decodes a `StockTradingAction` at the cursor and moves the cursor past
    /// it. Where fewer than `STOCK_TRADING_ACTION_SIZE` bytes are left, the
    /// call fails and the cursor stays where it was.
    pub fn from_cursor(rdr: &mut ReadCursor<'_>) -> (r: Result<Self, DecodeError>)
        ensures
            old(rdr)@.room() < STOCK_TRADING_ACTION_SIZE ==> {
                &&& r == Err::<Self, DecodeError>(DecodeError::Truncated)
                &&& final(rdr)@ == old(rdr)@
            },
            old(rdr)@.room() >= STOCK_TRADING_ACTION_SIZE ==> {
                &&& r == Ok::<Self, DecodeError>(Self::decoded(old(rdr)@.remaining()))
                &&& final(rdr)@ == old(rdr)@.advance(STOCK_TRADING_ACTION_SIZE as nat)
            },
    {
        match Self::from_bytes(rdr.remaining()) {
            Some((obj, used)) => {
                rdr.advance(used);
                Ok(obj)
            },
            None => Err(DecodeError::Truncated),
        }
    }
}

impl RegShoRestriction {
    /// Decodes a `RegShoRestriction` from the start of `bytes`. Fails, with
    /// nothing decoded, exactly when `bytes` is shorter than
    /// `REG_SHO_RESTRICTION_SIZE`; what lies beyond that length is not looked
    /// at.
    pub fn from_bytes(bytes: &[u8]) -> (r: Option<(Self, usize)>)
        ensures
            bytes@.len() < REG_SHO_RESTRICTION_SIZE ==> r is None,
            bytes@.len() >= REG_SHO_RESTRICTION_SIZE ==> r == Some(
                (Self::decoded(bytes@), REG_SHO_RESTRICTION_SIZE),
            ),
    {
        if bytes.len() < REG_SHO_RESTRICTION_SIZE {
            return None;
        }
        let obj = RegShoRestriction {
            message_type: bytes[0],
            stock_locate: read_u16_at(bytes, 1),
            tracking_number: read_u16_at(bytes, 3),
            timestamp: read_u48_at(bytes, 5),
            stock: read_array8_at(bytes, 11),
            reg_sho_action: eRegSHOAction(bytes[19]),
        };
        Some((obj, REG_SHO_RESTRICTION_SIZE))
    }

    /// Decodes a `RegShoRestriction` at the cursor and moves the cursor past
    /// it. Where fewer than `REG_SHO_RESTRICTION_SIZE` bytes are left, the call
    /// fails and the cursor stays where it was.
    pub fn from_cursor(rdr: &mut ReadCursor<'_>) -> (r: Result<Self, DecodeError>)
        ensures
            old(rdr)@.room() < REG_SHO_RESTRICTION_SIZE ==> {
                &&& r == Err::<Self, DecodeError>(DecodeError::Truncated)
                &&& final(rdr)@ == old(rdr)@
            },
            old(rdr)@.room() >= REG_SHO_RESTRICTION_SIZE ==> {
                &&& r == Ok::<Self, DecodeError>(Self::decoded(old(rdr)@.remaining()))
                &&& final(rdr)@ == old(rdr)@.advance(REG_SHO_RESTRICTION_SIZE as nat)
            },
    {
        match Self::from_bytes(rdr.remaining()) {
            Some((obj, used)) => {
                rdr.advance(used);
                Ok(obj)
            },
            None => Err(DecodeError::Truncated),
        }
    }
}

impl MarketParticipantPosition {
    /// Decodes a `MarketParticipantPosition` from the start of `bytes`. Fails,
    /// with nothing decoded, exactly when `bytes` is shorter than
    /// `MARKET_PARTICIPANT_POSITION_SIZE`; what lies beyond that length is not
    /// looked at.
    pub fn from_bytes(bytes: &[u8]) -> (r: Option<(Self, usize)>)
        ensures
            bytes@.len() < MARKET_PARTICIPANT_POSITION_SIZE ==> r is None,
            bytes@.len() >= MARKET_PARTICIPANT_POSITION_SIZE ==> r == Some(
                (Self::decoded(bytes@), MARKET_PARTICIPANT_POSITION_SIZE),
            ),
    {
        if bytes.len() < MARKET_PARTICIPANT_POSITION_SIZE {
            return None;
        }
        let obj = MarketParticipantPosition {
            message_type: bytes[0],
            stock_locate: read_u16_at(bytes, 1),
            tracking_number: read_u16_at(bytes, 3),
            timestamp: read_u48_at(bytes, 5),
            mpid: read_array4_at(bytes, 11),
            stock: read_array8_at(bytes, 15),
            primary_market_maker: ePrimaryMarketMaker(bytes[23]),
            market_maker_mode: eMarketMakerMode(bytes[24]),
            market_participant_state: eMarketParticipantState(bytes[25]),
        };
        Some((obj, MARKET_PARTICIPANT_POSITION_SIZE))
    }

    /// Decodes a `MarketParticipantPosition` at the cursor and moves the cursor
    /// past it. Where fewer than `MARKET_PARTICIPANT_POSITION_SIZE` bytes are
    /// left, the call fails and the cursor stays where it was.
    pub fn from_cursor(rdr: &mut ReadCursor<'_>) -> (r: Result<Self, DecodeError>)
        ensures
            old(rdr)@.room() < MARKET_PARTICIPANT_POSITION_SIZE ==> {
                &&& r == Err::<Self, DecodeError>(DecodeError::Truncated)
                &&& final(rdr)@ == old(rdr)@
            },
            old(rdr)@.room() >= MARKET_PARTICIPANT_POSITION_SIZE ==> {
                &&& r == Ok::<Self, DecodeError>(Self::decoded(old(rdr)@.remaining()))
                &&& final(rdr)@ == old(rdr)@.advance(MARKET_PARTICIPANT_POSITION_SIZE as nat)
            },
    {
        match Self::from_bytes(rdr.remaining()) {
            Some((obj, used)) => {
                rdr.advance(used);
                Ok(obj)
            },
            None => Err(DecodeError::Truncated),
        }
    }
}

impl MwcbDeclineLevel {
    /// Decodes an `MwcbDeclineLevel` from the start of `bytes`. Fails, with
    /// nothing decoded, exactly when `bytes` is shorter than
    /// `MWCB_DECLINE_LEVEL_SIZE`; what lies beyond that length is not looked
    /// at.
    pub fn from_bytes(bytes: &[u8]) -> (r: Option<(Self, usize)>)
        ensures
            bytes@.len() < MWCB_DECLINE_LEVEL_SIZE ==> r is None,
            bytes@.len() >= MWCB_DECLINE_LEVEL_SIZE ==> r == Some(
                (Self::decoded(bytes@), MWCB_DECLINE_LEVEL_SIZE),
            ),
    {
        if bytes.len() < MWCB_DECLINE_LEVEL_SIZE {
            return None;
        }
        let obj = MwcbDeclineLevel {
            message_type: bytes[0],
            stock_locate: read_u16_at(bytes, 1),
            tracking_number: read_u16_at(bytes, 3),
            timestamp: read_u48_at(bytes, 5),
            level_1: read_u64_at(bytes, 11),
            level_2: read_u64_at(bytes, 19),
            level_3: read_u64_at(bytes, 27),
        };
        Some((obj, MWCB_DECLINE_LEVEL_SIZE))
    }

    /// Decodes an `MwcbDeclineLevel` at the cursor and moves the cursor past
    /// it. Where fewer than `MWCB_DECLINE_LEVEL_SIZE` bytes are left, the call
    /// fails and the cursor stays where it was.
    pub fn from_cursor(rdr: &mut ReadCursor<'_>) -> (r: Result<Self, DecodeError>)
        ensures
            old(rdr)@.room() < MWCB_DECLINE_LEVEL_SIZE ==> {
                &&& r == Err::<Self, DecodeError>(DecodeError::Truncated)
                &&& final(rdr)@ == old(rdr)@
            },
            old(rdr)@.room() >= MWCB_DECLINE_LEVEL_SIZE ==> {
                &&& r == Ok::<Self, DecodeError>(Self::decoded(old(rdr)@.remaining()))
                &&& final(rdr)@ == old(rdr)@.advance(MWCB_DECLINE_LEVEL_SIZE as nat)
            },
    {
        match Self::from_bytes(rdr.remaining()) {
            Some((obj, used)) => {
                rdr.advance(used);
                Ok(obj)
            },
            None => Err(DecodeError::Truncated),
        }
    }
}

impl MwcbStatus {
    /// Decodes an `MwcbStatus` from the start of `bytes`. Fails, with nothing
    /// decoded, exactly when `bytes` is shorter than `MWCB_STATUS_SIZE`; what
    /// lies beyond that length is not looked at.
    pub fn from_bytes(bytes: &[u8]) -> (r: Option<(Self, usize)>)
        ensures
            bytes@.len() < MWCB_STATUS_SIZE ==> r is None,
            bytes@.len() >= MWCB_STATUS_SIZE ==> r == Some(
                (Self::decoded(bytes@), MWCB_STATUS_SIZE),
            ),
    {
        if bytes.len() < MWCB_STATUS_SIZE {
            return None;
        }
        let obj = MwcbStatus {
            message_type: bytes[0],
            stock_locate: read_u16_at(bytes, 1),
            tracking_number: read_u16_at(bytes, 3),
            timestamp: read_u48_at(bytes, 5),
            breached_level: eBreachedLevel(bytes[11]),
        };
        Some((obj, MWCB_STATUS_SIZE))
    }

    /// Decodes an `MwcbStatus` at the cursor and moves the cursor past it.
    /// Where fewer than `MWCB_STATUS_SIZE` bytes are left, the call fails and
    /// the cursor stays where it was.
    pub fn from_cursor(rdr: &mut ReadCursor<'_>) -> (r: Result<Self, DecodeError>)
        ensures
            old(rdr)@.room() < MWCB_STATUS_SIZE ==> {
                &&& r == Err::<Self, DecodeError>(DecodeError::Truncated)
                &&& final(rdr)@ == old(rdr)@
            },
            old(rdr)@.room() >= MWCB_STATUS_SIZE ==> {
                &&& r == Ok::<Self, DecodeError>(Self::decoded(old(rdr)@.remaining()))
                &&& final(rdr)@ == old(rdr)@.advance(MWCB_STATUS_SIZE as nat)
            },
    {
        match Self::from_bytes(rdr.remaining()) {
            Some((obj, used)) => {
                rdr.advance(used);
                Ok(obj)
            },
            None => Err(DecodeError::Truncated),
        }
    }
}

impl IpoQuotingPeriodUpdate {
    /// Decodes an `IpoQuotingPeriodUpdate` from the start of `bytes`. Fails,
    /// with nothing decoded, exactly when `bytes` is shorter than
    /// `IPO_QUOTING_PERIOD_UPDATE_SIZE`; what lies beyond that length is not
    /// looked at.
    pub fn from_bytes(bytes: &[u8]) -> (r: Option<(Self, usize)>)
        ensures
            bytes@.len() < IPO_QUOTING_PERIOD_UPDATE_SIZE ==> r is None,
            bytes@.len() >= IPO_QUOTING_PERIOD_UPDATE_SIZE ==> r == Some(
                (Self::decoded(bytes@), IPO_QUOTING_PERIOD_UPDATE_SIZE),
            ),
    {
        if bytes.len() < IPO_QUOTING_PERIOD_UPDATE_SIZE {
            return None;
        }
        let obj = IpoQuotingPeriodUpdate {
            message_type: bytes[0],
            stock_locate: read_u16_at(bytes, 1),
            tracking_number: read_u16_at(bytes, 3),
            timestamp: read_u48_at(bytes, 5),
            stock: read_array8_at(bytes, 11),
            ipo_quotation_release_time: read_u32_at(bytes, 19),
            ipo_quotation_release_qualifier: eIPOQuotationReleaseQualifier(bytes[23]),
            ipo_price: read_u32_at(bytes, 24),
        };
        Some((obj, IPO_QUOTING_PERIOD_UPDATE_SIZE))
    }

    /// Decodes an `IpoQuotingPeriodUpdate` at the cursor and moves the cursor
    /// past it. Where fewer than `IPO_QUOTING_PERIOD_UPDATE_SIZE` bytes are
    /// left, the call fails and the cursor stays where it was.
    pub fn from_cursor(rdr: &mut ReadCursor<'_>) -> (r: Result<Self, DecodeError>)
        ensures
            old(rdr)@.room() < IPO_QUOTING_PERIOD_UPDATE_SIZE ==> {
                &&& r == Err::<Self, DecodeError>(DecodeError::Truncated)
                &&& final(rdr)@ == old(rdr)@
            },
            old(rdr)@.room() >= IPO_QUOTING_PERIOD_UPDATE_SIZE ==> {
                &&& r == Ok::<Self, DecodeError>(Self::decoded(old(rdr)@.remaining()))
                &&& final(rdr)@ == old(rdr)@.advance(IPO_QUOTING_PERIOD_UPDATE_SIZE as nat)
            },
    {
        match Self::from_bytes(rdr.remaining()) {
            Some((obj, used)) => {
                rdr.advance(used);
                Ok(obj)
            },
            None => Err(DecodeError::Truncated),
        }
    }
}

impl LuldAuctionCollar {
    /// Decodes a `LuldAuctionCollar` from the start of `bytes`. Fails, with
    /// nothing decoded, exactly when `bytes` is shorter than
    /// `LULD_AUCTION_COLLAR_SIZE`; what lies beyond that length is not looked
    /// at.
    pub fn from_bytes(bytes: &[u8]) -> (r: Option<(Self, usize)>)
        ensures
            bytes@.len() < LULD_AUCTION_COLLAR_SIZE ==> r is None,
            bytes@.len() >= LULD_AUCTION_COLLAR_SIZE ==> r == Some(
                (Self::decoded(bytes@), LULD_AUCTION_COLLAR_SIZE),
            ),
    {
        if bytes.len() < LULD_AUCTION_COLLAR_SIZE {
            return None;
        }
        let obj = LuldAuctionCollar {
            message_type: bytes[0],
            stock_locate: read_u16_at(bytes, 1),
            tracking_number: read_u16_at(bytes, 3),
            timestamp: read_u48_at(bytes, 5),
            stock: read_array8_at(bytes, 11),
            auction_collar_reference_price: read_u32_at(bytes, 19),
            upper_auction_collar_price: read_u32_at(bytes, 23),
            lower_auction_collar_price: read_u32_at(bytes, 27),
            auction_collar_extension: read_u32_at(bytes, 31),
        };
        Some((obj, LULD_AUCTION_COLLAR_SIZE))
    }

    /// Decodes a `LuldAuctionCollar` at the cursor and moves the cursor past
    /// it. Where fewer than `LULD_AUCTION_COLLAR_SIZE` bytes are left, the call
    /// fails and the cursor stays where it was.
    pub fn from_cursor(rdr: &mut ReadCursor<'_>) -> (r: Result<Self, DecodeError>)
        ensures
            old(rdr)@.room() < LULD_AUCTION_COLLAR_SIZE ==> {
                &&& r == Err::<Self, DecodeError>(DecodeError::Truncated)
                &&& final(rdr)@ == old(rdr)@
            },
            old(rdr)@.room() >= LULD_AUCTION_COLLAR_SIZE ==> {
                &&& r == Ok::<Self, DecodeError>(Self::decoded(old(rdr)@.remaining()))
                &&& final(rdr)@ == old(rdr)@.advance(LULD_AUCTION_COLLAR_SIZE as nat)
            },
    {
        match Self::from_bytes(rdr.remaining()) {
            Some((obj, used)) => {
                rdr.advance(used);
                Ok(obj)
            },
            None => Err(DecodeError::Truncated),
        }
    }
}

impl OperationalHalt {
    /// Decodes an `OperationalHalt` from the start of `bytes`. Fails, with
    /// nothing decoded, exactly when `bytes` is shorter than
    /// `OPERATIONAL_HALT_SIZE`; what lies beyond that length is not looked at.
    pub fn from_bytes(bytes: &[u8]) -> (r: Option<(Self, usize)>)
        ensures
            bytes@.len() < OPERATIONAL_HALT_SIZE ==> r is None,
            bytes@.len() >= OPERATIONAL_HALT_SIZE ==> r == Some(
                (Self::decoded(bytes@), OPERATIONAL_HALT_SIZE),
            ),
    {
        if bytes.len() < OPERATIONAL_HALT_SIZE {
            return None;
        }
        let obj = OperationalHalt {
            message_type: bytes[0],
            stock_locate: read_u16_at(bytes, 1),
            tracking_number: read_u16_at(bytes, 3),
            timestamp: read_u48_at(bytes, 5),
            stock: read_array8_at(bytes, 11),
            market_code: eMarketCode(bytes[19]),
            operational_halt_action: eOperationalHaltAction(bytes[20]),
        };
        Some((obj, OPERATIONAL_HALT_SIZE))
    }

    /// Decodes an `OperationalHalt` at the cursor and moves the cursor past it.
    /// Where fewer than `OPERATIONAL_HALT_SIZE` bytes are left, the call fails
    /// and the cursor stays where it was.
    pub fn from_cursor(rdr: &mut ReadCursor<'_>) -> (r: Result<Self, DecodeError>)
        ensures
            old(rdr)@.room() < OPERATIONAL_HALT_SIZE ==> {
                &&& r == Err::<Self, DecodeError>(DecodeError::Truncated)
                &&& final(rdr)@ == old(rdr)@
            },
            old(rdr)@.room() >= OPERATIONAL_HALT_SIZE ==> {
                &&& r == Ok::<Self, DecodeError>(Self::decoded(old(rdr)@.remaining()))
                &&& final(rdr)@ == old(rdr)@.advance(OPERATIONAL_HALT_SIZE as nat)
            },
    {
        match Self::from_bytes(rdr.remaining()) {
            Some((obj, used)) => {
                rdr.advance(used);
                Ok(obj)
            },
            None => Err(DecodeError::Truncated),
        }
    }
}

impl AddOrder {
    /// Decodes an `AddOrder` from the start of `bytes`. Fails, with nothing
    /// decoded, exactly when `bytes` is shorter than `ADD_ORDER_SIZE`; what
    /// lies beyond that length is not looked at.
    pub fn from_bytes(bytes: &[u8]) -> (r: Option<(Self, usize)>)
        ensures
            bytes@.len() < ADD_ORDER_SIZE ==> r is None,
            bytes@.len() >= ADD_ORDER_SIZE ==> r == Some(
                (Self::decoded(bytes@), ADD_ORDER_SIZE),
            ),
    {
        if bytes.len() < ADD_ORDER_SIZE {
            return None;
        }
        let obj = AddOrder {
            message_type: bytes[0],
            stock_locate: read_u16_at(bytes, 1),
            tracking_number: read_u16_at(bytes, 3),
            timestamp: read_u48_at(bytes, 5),
            order_reference_number: read_u64_at(bytes, 11),
            buy_sell_indicator: eBuySellIndicator(bytes[19]),
            shares: read_u32_at(bytes, 20),
            stock: read_array8_at(bytes, 24),
            price: read_u32_at(bytes, 32),
        };
        Some((obj, ADD_ORDER_SIZE))
    }

    /// Decodes an `AddOrder` at the cursor and moves the cursor past it. Where
    /// fewer than `ADD_ORDER_SIZE` bytes are left, the call fails and the
    /// cursor stays where it was.
    pub fn from_cursor(rdr: &mut ReadCursor<'_>) -> (r: Result<Self, DecodeError>)
        ensures
            old(rdr)@.room() < ADD_ORDER_SIZE ==> {
                &&& r == Err::<Self, DecodeError>(DecodeError::Truncated)
                &&& final(rdr)@ == old(rdr)@
            },
            old(rdr)@.room() >= ADD_ORDER_SIZE ==> {
                &&& r == Ok::<Self, DecodeError>(Self::decoded(old(rdr)@.remaining()))
                &&& final(rdr)@ == old(rdr)@.advance(ADD_ORDER_SIZE as nat)
            },
    {
        match Self::from_bytes(rdr.remaining()) {
            Some((obj, used)) => {
                rdr.advance(used);
                Ok(obj)
            },
            None => Err(DecodeError::Truncated),
        }
    }
}

impl AddOrderWithMpid {
    /// Decodes an `AddOrderWithMpid` from the start of `bytes`. Fails, with
    /// nothing decoded, exactly when `bytes` is shorter than
    /// `ADD_ORDER_WITH_MPID_SIZE`; what lies beyond that length is not looked
    /// at.
    pub fn from_bytes(bytes: &[u8]) -> (r: Option<(Self, usize)>)
        ensures
            bytes@.len() < ADD_ORDER_WITH_MPID_SIZE ==> r is None,
            bytes@.len() >= ADD_ORDER_WITH_MPID_SIZE ==> r == Some(
                (Self::decoded(bytes@), ADD_ORDER_WITH_MPID_SIZE),
            ),
    {
        if bytes.len() < ADD_ORDER_WITH_MPID_SIZE {
            return None;
        }
        let obj = AddOrderWithMpid {
            message_type: bytes[0],
            stock_locate: read_u16_at(bytes, 1),
            tracking_number: read_u16_at(bytes, 3),
            timestamp: read_u48_at(bytes, 5),
            order_reference_number: read_u64_at(bytes, 11),
            buy_sell_indicator: eBuySellIndicator(bytes[19]),
            shares: read_u32_at(bytes, 20),
            stock: read_array8_at(bytes, 24),
            price: read_u32_at(bytes, 32),
            attribution: read_array4_at(bytes, 36),
        };
        Some((obj, ADD_ORDER_WITH_MPID_SIZE))
    }

    /// Decodes an `AddOrderWithMpid` at the cursor and moves the cursor past
    /// it. Where fewer than `ADD_ORDER_WITH_MPID_SIZE` bytes are left, the call
    /// fails and the cursor stays where it was.
    pub fn from_cursor(rdr: &mut ReadCursor<'_>) -> (r: Result<Self, DecodeError>)
        ensures
            old(rdr)@.room() < ADD_ORDER_WITH_MPID_SIZE ==> {
                &&& r == Err::<Self, DecodeError>(DecodeError::Truncated)
                &&& final(rdr)@ == old(rdr)@
            },
            old(rdr)@.room() >= ADD_ORDER_WITH_MPID_SIZE ==> {
                &&& r == Ok::<Self, DecodeError>(Self::decoded(old(rdr)@.remaining()))
                &&& final(rdr)@ == old(rdr)@.advance(ADD_ORDER_WITH_MPID_SIZE as nat)
            },
    {
        match Self::from_bytes(rdr.remaining()) {
            Some((obj, used)) => {
                rdr.advance(used);
                Ok(obj)
            },
            None => Err(DecodeError::Truncated),
        }
    }
}

impl OrderExecuted {
    /// Decodes an `OrderExecuted` from the start of `bytes`. Fails, with
    /// nothing decoded, exactly when `bytes` is shorter than
    /// `ORDER_EXECUTED_SIZE`; what lies beyond that length is not looked at.
    pub fn from_bytes(bytes: &[u8]) -> (r: Option<(Self, usize)>)
        ensures
            bytes@.len() < ORDER_EXECUTED_SIZE ==> r is None,
            bytes@.len() >= ORDER_EXECUTED_SIZE ==> r == Some(
                (Self::decoded(bytes@), ORDER_EXECUTED_SIZE),
            ),
    {
        if bytes.len() < ORDER_EXECUTED_SIZE {
            return None;
        }
        let obj = OrderExecuted {
            message_type: bytes[0],
            stock_locate: read_u16_at(bytes, 1),
            tracking_number: read_u16_at(bytes, 3),
            timestamp: read_u48_at(bytes, 5),
            order_reference_number: read_u64_at(bytes, 11),
            executed_shares: read_u32_at(bytes, 19),
            match_number: read_u64_at(bytes, 23),
        };
        Some((obj, ORDER_EXECUTED_SIZE))
    }

    /// Decodes an `OrderExecuted` at the cursor and moves the cursor past it.
    /// Where fewer than `ORDER_EXECUTED_SIZE` bytes are left, the call fails
    /// and the cursor stays where it was.
    pub fn from_cursor(rdr: &mut ReadCursor<'_>) -> (r: Result<Self, DecodeError>)
        ensures
            old(rdr)@.room() < ORDER_EXECUTED_SIZE ==> {
                &&& r == Err::<Self, DecodeError>(DecodeError::Truncated)
                &&& final(rdr)@ == old(rdr)@
            },
            old(rdr)@.room() >= ORDER_EXECUTED_SIZE ==> {
                &&& r == Ok::<Self, DecodeError>(Self::decoded(old(rdr)@.remaining()))
                &&& final(rdr)@ == old(rdr)@.advance(ORDER_EXECUTED_SIZE as nat)
            },
    {
        match Self::from_bytes(rdr.remaining()) {
            Some((obj, used)) => {
                rdr.advance(used);
                Ok(obj)
            },
            None => Err(DecodeError::Truncated),
        }
    }
}

impl OrderExecutedWithPrice {
    /// Decodes an `OrderExecutedWithPrice` from the start of `bytes`. Fails,
    /// with nothing decoded, exactly when `bytes` is shorter than
    /// `ORDER_EXECUTED_WITH_PRICE_SIZE`; what lies beyond that length is not
    /// looked at.
    pub fn from_bytes(bytes: &[u8]) -> (r: Option<(Self, usize)>)
        ensures
            bytes@.len() < ORDER_EXECUTED_WITH_PRICE_SIZE ==> r is None,
            bytes@.len() >= ORDER_EXECUTED_WITH_PRICE_SIZE ==> r == Some(
                (Self::decoded(bytes@), ORDER_EXECUTED_WITH_PRICE_SIZE),
            ),
    {
        if bytes.len() < ORDER_EXECUTED_WITH_PRICE_SIZE {
            return None;
        }
        let obj = OrderExecutedWithPrice {
            message_type: bytes[0],
            stock_locate: read_u16_at(bytes, 1),
            tracking_number: read_u16_at(bytes, 3),
            timestamp: read_u48_at(bytes, 5),
            order_reference_number: read_u64_at(bytes, 11),
            executed_shares: read_u32_at(bytes, 19),
            match_number: read_u64_at(bytes, 23),
            printable: ePrintable(bytes[31]),
            execution_price: read_u32_at(bytes, 32),
        };
        Some((obj, ORDER_EXECUTED_WITH_PRICE_SIZE))
    }

    /// Decodes an `OrderExecutedWithPrice` at the cursor and moves the cursor
    /// past it. Where fewer than `ORDER_EXECUTED_WITH_PRICE_SIZE` bytes are
    /// left, the call fails and the cursor stays where it was.
    pub fn from_cursor(rdr: &mut ReadCursor<'_>) -> (r: Result<Self, DecodeError>)
        ensures
            old(rdr)@.room() < ORDER_EXECUTED_WITH_PRICE_SIZE ==> {
                &&& r == Err::<Self, DecodeError>(DecodeError::Truncated)
                &&& final(rdr)@ == old(rdr)@
            },
            old(rdr)@.room() >= ORDER_EXECUTED_WITH_PRICE_SIZE ==> {
                &&& r == Ok::<Self, DecodeError>(Self::decoded(old(rdr)@.remaining()))
                &&& final(rdr)@ == old(rdr)@.advance(ORDER_EXECUTED_WITH_PRICE_SIZE as nat)
            },
    {
        match Self::from_bytes(rdr.remaining()) {
            Some((obj, used)) => {
                rdr.advance(used);
                Ok(obj)
            },
            None => Err(DecodeError::Truncated),
        }
    }
}

impl OrderCancel {
    /// Decodes an `OrderCancel` from the start of `bytes`. Fails, with nothing
    /// decoded, exactly when `bytes` is shorter than `ORDER_CANCEL_SIZE`; what
    /// lies beyond that length is not looked at.
    pub fn from_bytes(bytes: &[u8]) -> (r: Option<(Self, usize)>)
        ensures
            bytes@.len() < ORDER_CANCEL_SIZE ==> r is None,
            bytes@.len() >= ORDER_CANCEL_SIZE ==> r == Some(
                (Self::decoded(bytes@), ORDER_CANCEL_SIZE),
            ),
    {
        if bytes.len() < ORDER_CANCEL_SIZE {
            return None;
        }
        let obj = OrderCancel {
            message_type: bytes[0],
            stock_locate: read_u16_at(bytes, 1),
            tracking_number: read_u16_at(bytes, 3),
            timestamp: read_u48_at(bytes, 5),
            order_reference_number: read_u64_at(bytes, 11),
            cancelled_shares: read_u32_at(bytes, 19),
        };
        Some((obj, ORDER_CANCEL_SIZE))
    }

    /// Decodes an `OrderCancel` at the cursor and moves the cursor past it.
    /// Where fewer than `ORDER_CANCEL_SIZE` bytes are left, the call fails and
    /// the cursor stays where it was.
    pub fn from_cursor(rdr: &mut ReadCursor<'_>) -> (r: Result<Self, DecodeError>)
        ensures
            old(rdr)@.room() < ORDER_CANCEL_SIZE ==> {
                &&& r == Err::<Self, DecodeError>(DecodeError::Truncated)
                &&& final(rdr)@ == old(rdr)@
            },
            old(rdr)@.room() >= ORDER_CANCEL_SIZE ==> {
                &&& r == Ok::<Self, DecodeError>(Self::decoded(old(rdr)@.remaining()))
                &&& final(rdr)@ == old(rdr)@.advance(ORDER_CANCEL_SIZE as nat)
            },
    {
        match Self::from_bytes(rdr.remaining()) {
            Some((obj, used)) => {
                rdr.advance(used);
                Ok(obj)
            },
            None => Err(DecodeError::Truncated),
        }
    }
}

impl OrderDelete {
    /// Decodes an `OrderDelete` from the start of `bytes`. Fails, with nothing
    /// decoded, exactly when `bytes` is shorter than `ORDER_DELETE_SIZE`; what
    /// lies beyond that length is not looked at.
    pub fn from_bytes(bytes: &[u8]) -> (r: Option<(Self, usize)>)
        ensures
            bytes@.len() < ORDER_DELETE_SIZE ==> r is None,
            bytes@.len() >= ORDER_DELETE_SIZE ==> r == Some(
                (Self::decoded(bytes@), ORDER_DELETE_SIZE),
            ),
    {
        if bytes.len() < ORDER_DELETE_SIZE {
            return None;
        }
        let obj = OrderDelete {
            message_type: bytes[0],
            stock_locate: read_u16_at(bytes, 1),
            tracking_number: read_u16_at(bytes, 3),
            timestamp: read_u48_at(bytes, 5),
            order_reference_number: read_u64_at(bytes, 11),
        };
        Some((obj, ORDER_DELETE_SIZE))
    }

    /// Decodes an `OrderDelete` at the cursor and moves the cursor past it.
    /// Where fewer than `ORDER_DELETE_SIZE` bytes are left, the call fails and
    /// the cursor stays where it was.
    pub fn from_cursor(rdr: &mut ReadCursor<'_>) -> (r: Result<Self, DecodeError>)
        ensures
            old(rdr)@.room() < ORDER_DELETE_SIZE ==> {
                &&& r == Err::<Self, DecodeError>(DecodeError::Truncated)
                &&& final(rdr)@ == old(rdr)@
            },
            old(rdr)@.room() >= ORDER_DELETE_SIZE ==> {
                &&& r == Ok::<Self, DecodeError>(Self::decoded(old(rdr)@.remaining()))
                &&& final(rdr)@ == old(rdr)@.advance(ORDER_DELETE_SIZE as nat)
            },
    {
        match Self::from_bytes(rdr.remaining()) {
            Some((obj, used)) => {
                rdr.advance(used);
                Ok(obj)
            },
            None => Err(DecodeError::Truncated),
        }
    }
}

impl OrderReplace {
    /// Decodes an `OrderReplace` from the start of `bytes`. Fails, with nothing
    /// decoded, exactly when `bytes` is shorter than `ORDER_REPLACE_SIZE`; what
    /// lies beyond that length is not looked at.
    pub fn from_bytes(bytes: &[u8]) -> (r: Option<(Self, usize)>)
        ensures
            bytes@.len() < ORDER_REPLACE_SIZE ==> r is None,
            bytes@.len() >= ORDER_REPLACE_SIZE ==> r == Some(
                (Self::decoded(bytes@), ORDER_REPLACE_SIZE),
            ),
    {
        if bytes.len() < ORDER_REPLACE_SIZE {
            return None;
        }
        let obj = OrderReplace {
            message_type: bytes[0],
            stock_locate: read_u16_at(bytes, 1),
            tracking_number: read_u16_at(bytes, 3),
            timestamp: read_u48_at(bytes, 5),
            original_order_reference_number: read_u64_at(bytes, 11),
            new_order_reference_number: read_u64_at(bytes, 19),
            shares: read_u32_at(bytes, 27),
            price: read_u32_at(bytes, 31),
        };
        Some((obj, ORDER_REPLACE_SIZE))
    }

    /// Decodes an `OrderReplace` at the cursor and moves the cursor past it.
    /// Where fewer than `ORDER_REPLACE_SIZE` bytes are left, the call fails and
    /// the cursor stays where it was.
    pub fn from_cursor(rdr: &mut ReadCursor<'_>) -> (r: Result<Self, DecodeError>)
        ensures
            old(rdr)@.room() < ORDER_REPLACE_SIZE ==> {
                &&& r == Err::<Self, DecodeError>(DecodeError::Truncated)
                &&& final(rdr)@ == old(rdr)@
            },
            old(rdr)@.room() >= ORDER_REPLACE_SIZE ==> {
                &&& r == Ok::<Self, DecodeError>(Self::decoded(old(rdr)@.remaining()))
                &&& final(rdr)@ == old(rdr)@.advance(ORDER_REPLACE_SIZE as nat)
            },
    {
        match Self::from_bytes(rdr.remaining()) {
            Some((obj, used)) => {
                rdr.advance(used);
                Ok(obj)
            },
            None => Err(DecodeError::Truncated),
        }
    }
}

impl Trade {
    /// Decodes a `Trade` from the start of `bytes`. Fails, with nothing
    /// decoded, exactly when `bytes` is shorter than `TRADE_SIZE`; what lies
    /// beyond that length is not looked at.
    pub fn from_bytes(bytes: &[u8]) -> (r: Option<(Self, usize)>)
        ensures
            bytes@.len() < TRADE_SIZE ==> r is None,
            bytes@.len() >= TRADE_SIZE ==> r == Some(
                (Self::decoded(bytes@), TRADE_SIZE),
            ),
    {
        if bytes.len() < TRADE_SIZE {
            return None;
        }
        let obj = Trade {
            message_type: bytes[0],
            stock_locate: read_u16_at(bytes, 1),
            tracking_number: read_u16_at(bytes, 3),
            timestamp: read_u48_at(bytes, 5),
            order_reference_number: read_u64_at(bytes, 11),
            buy_sell_indicator: eBuySellIndicator(bytes[19]),
            shares: read_u32_at(bytes, 20),
            stock: read_array8_at(bytes, 24),
            price: read_u32_at(bytes, 32),
            match_number: read_u64_at(bytes, 36),
        };
        Some((obj, TRADE_SIZE))
    }

    /// Decodes a `Trade` at the cursor and moves the cursor past it. Where
    /// fewer than `TRADE_SIZE` bytes are left, the call fails and the cursor
    /// stays where it was.
    pub fn from_cursor(rdr: &mut ReadCursor<'_>) -> (r: Result<Self, DecodeError>)
        ensures
            old(rdr)@.room() < TRADE_SIZE ==> {
                &&& r == Err::<Self, DecodeError>(DecodeError::Truncated)
                &&& final(rdr)@ == old(rdr)@
            },
            old(rdr)@.room() >= TRADE_SIZE ==> {
                &&& r == Ok::<Self, DecodeError>(Self::decoded(old(rdr)@.remaining()))
                &&& final(rdr)@ == old(rdr)@.advance(TRADE_SIZE as nat)
            },
    {
        match Self::from_bytes(rdr.remaining()) {
            Some((obj, used)) => {
                rdr.advance(used);
                Ok(obj)
            },
            None => Err(DecodeError::Truncated),
        }
    }
}

impl CrossTrade {
    /// Decodes a `CrossTrade` from the start of `bytes`. Fails, with nothing
    /// decoded, exactly when `bytes` is shorter than `CROSS_TRADE_SIZE`; what
    /// lies beyond that length is not looked at.
    pub fn from_bytes(bytes: &[u8]) -> (r: Option<(Self, usize)>)
        ensures
            bytes@.len() < CROSS_TRADE_SIZE ==> r is None,
            bytes@.len() >= CROSS_TRADE_SIZE ==> r == Some(
                (Self::decoded(bytes@), CROSS_TRADE_SIZE),
            ),
    {
        if bytes.len() < CROSS_TRADE_SIZE {
            return None;
        }
        let obj = CrossTrade {
            message_type: bytes[0],
            stock_locate: read_u16_at(bytes, 1),
            tracking_number: read_u16_at(bytes, 3),
            timestamp: read_u48_at(bytes, 5),
            shares: read_u64_at(bytes, 11),
            stock: read_array8_at(bytes, 19),
            cross_price: read_u32_at(bytes, 27),
            match_number: read_u64_at(bytes, 31),
            cross_type: eCrossType(bytes[39]),
        };
        Some((obj, CROSS_TRADE_SIZE))
    }

    /// Decodes a `CrossTrade` at the cursor and moves the cursor past it. Where
    /// fewer than `CROSS_TRADE_SIZE` bytes are left, the call fails and the
    /// cursor stays where it was.
    pub fn from_cursor(rdr: &mut ReadCursor<'_>) -> (r: Result<Self, DecodeError>)
        ensures
            old(rdr)@.room() < CROSS_TRADE_SIZE ==> {
                &&& r == Err::<Self, DecodeError>(DecodeError::Truncated)
                &&& final(rdr)@ == old(rdr)@
            },
            old(rdr)@.room() >= CROSS_TRADE_SIZE ==> {
                &&& r == Ok::<Self, DecodeError>(Self::decoded(old(rdr)@.remaining()))
                &&& final(rdr)@ == old(rdr)@.advance(CROSS_TRADE_SIZE as nat)
            },
    {
        match Self::from_bytes(rdr.remaining()) {
            Some((obj, used)) => {
                rdr.advance(used);
                Ok(obj)
            },
            None => Err(DecodeError::Truncated),
        }
    }
}

impl BrokenTrade {
    /// Decodes a `BrokenTrade` from the start of `bytes`. Fails, with nothing
    /// decoded, exactly when `bytes` is shorter than `BROKEN_TRADE_SIZE`; what
    /// lies beyond that length is not looked at.
    pub fn from_bytes(bytes: &[u8]) -> (r: Option<(Self, usize)>)
        ensures
            bytes@.len() < BROKEN_TRADE_SIZE ==> r is None,
            bytes@.len() >= BROKEN_TRADE_SIZE ==> r == Some(
                (Self::decoded(bytes@), BROKEN_TRADE_SIZE),
            ),
    {
        if bytes.len() < BROKEN_TRADE_SIZE {
            return None;
        }
        let obj = BrokenTrade {
            message_type: bytes[0],
            stock_locate: read_u16_at(bytes, 1),
            tracking_number: read_u16_at(bytes, 3),
            timestamp: read_u48_at(bytes, 5),
            match_number: read_u64_at(bytes, 11),
        };
        Some((obj, BROKEN_TRADE_SIZE))
    }

    /// Decodes a `BrokenTrade` at the cursor and moves the cursor past it.
    /// Where fewer than `BROKEN_TRADE_SIZE` bytes are left, the call fails and
    /// the cursor stays where it was.
    pub fn from_cursor(rdr: &mut ReadCursor<'_>) -> (r: Result<Self, DecodeError>)
        ensures
            old(rdr)@.room() < BROKEN_TRADE_SIZE ==> {
                &&& r == Err::<Self, DecodeError>(DecodeError::Truncated)
                &&& final(rdr)@ == old(rdr)@
            },
            old(rdr)@.room() >= BROKEN_TRADE_SIZE ==> {
                &&& r == Ok::<Self, DecodeError>(Self::decoded(old(rdr)@.remaining()))
                &&& final(rdr)@ == old(rdr)@.advance(BROKEN_TRADE_SIZE as nat)
            },
    {
        match Self::from_bytes(rdr.remaining()) {
            Some((obj, used)) => {
                rdr.advance(used);
                Ok(obj)
            },
            None => Err(DecodeError::Truncated),
        }
    }
}

impl NetOrderImbalanceIndicator {
    /// Decodes a `NetOrderImbalanceIndicator` from the start of `bytes`. Fails,
    /// with nothing decoded, exactly when `bytes` is shorter than
    /// `NET_ORDER_IMBALANCE_INDICATOR_SIZE`; what lies beyond that length is
    /// not looked at.
    pub fn from_bytes(bytes: &[u8]) -> (r: Option<(Self, usize)>)
        ensures
            bytes@.len() < NET_ORDER_IMBALANCE_INDICATOR_SIZE ==> r is None,
            bytes@.len() >= NET_ORDER_IMBALANCE_INDICATOR_SIZE ==> r == Some(
                (Self::decoded(bytes@), NET_ORDER_IMBALANCE_INDICATOR_SIZE),
            ),
    {
        if bytes.len() < NET_ORDER_IMBALANCE_INDICATOR_SIZE {
            return None;
        }
        let obj = NetOrderImbalanceIndicator {
            message_type: bytes[0],
            stock_locate: read_u16_at(bytes, 1),
            tracking_number: read_u16_at(bytes, 3),
            timestamp: read_u48_at(bytes, 5),
            paired_shares: read_u64_at(bytes, 11),
            imbalance_shares: read_u64_at(bytes, 19),
            imbalance_direction: eImbalanceDirection(bytes[27]),
            stock: read_array8_at(bytes, 28),
            far_price: read_u32_at(bytes, 36),
            near_price: read_u32_at(bytes, 40),
            current_reference_price: read_u32_at(bytes, 44),
            cross_type: eCrossType(bytes[48]),
            price_variation_indicator: ePriceVariationIndicator(bytes[49]),
        };
        Some((obj, NET_ORDER_IMBALANCE_INDICATOR_SIZE))
    }

    /// Decodes a `NetOrderImbalanceIndicator` at the cursor and moves the
    /// cursor past it. Where fewer than `NET_ORDER_IMBALANCE_INDICATOR_SIZE`
    /// bytes are left, the call fails and the cursor stays where it was.
    pub fn from_cursor(rdr: &mut ReadCursor<'_>) -> (r: Result<Self, DecodeError>)
        ensures
            old(rdr)@.room() < NET_ORDER_IMBALANCE_INDICATOR_SIZE ==> {
                &&& r == Err::<Self, DecodeError>(DecodeError::Truncated)
                &&& final(rdr)@ == old(rdr)@
            },
            old(rdr)@.room() >= NET_ORDER_IMBALANCE_INDICATOR_SIZE ==> {
                &&& r == Ok::<Self, DecodeError>(Self::decoded(old(rdr)@.remaining()))
                &&& final(rdr)@ == old(rdr)@.advance(NET_ORDER_IMBALANCE_INDICATOR_SIZE as nat)
            },
    {
        match Self::from_bytes(rdr.remaining()) {
            Some((obj, used)) => {
                rdr.advance(used);
                Ok(obj)
            },
            None => Err(DecodeError::Truncated),
        }
    }
}

impl RetailPriceImprovementIndicator {
    /// Decodes a `RetailPriceImprovementIndicator` from the start of `bytes`.
    /// Fails, with nothing decoded, exactly when `bytes` is shorter than
    /// `RETAIL_PRICE_IMPROVEMENT_INDICATOR_SIZE`; what lies beyond that length
    /// is not looked at.
    pub fn from_bytes(bytes: &[u8]) -> (r: Option<(Self, usize)>)
        ensures
            bytes@.len() < RETAIL_PRICE_IMPROVEMENT_INDICATOR_SIZE ==> r is None,
            bytes@.len() >= RETAIL_PRICE_IMPROVEMENT_INDICATOR_SIZE ==> r == Some(
                (Self::decoded(bytes@), RETAIL_PRICE_IMPROVEMENT_INDICATOR_SIZE),
            ),
    {
        if bytes.len() < RETAIL_PRICE_IMPROVEMENT_INDICATOR_SIZE {
            return None;
        }
        let obj = RetailPriceImprovementIndicator {
            message_type: bytes[0],
            stock_locate: read_u16_at(bytes, 1),
            tracking_number: read_u16_at(bytes, 3),
            timestamp: read_u48_at(bytes, 5),
            stock: read_array8_at(bytes, 11),
            interest_flag: eInterestFlag(bytes[19]),
        };
        Some((obj, RETAIL_PRICE_IMPROVEMENT_INDICATOR_SIZE))
    }

    /// Decodes a `RetailPriceImprovementIndicator` at the cursor and moves the
    /// cursor past it. Where fewer than
    /// `RETAIL_PRICE_IMPROVEMENT_INDICATOR_SIZE` bytes are left, the call fails
    /// and the cursor stays where it was.
    pub fn from_cursor(rdr: &mut ReadCursor<'_>) -> (r: Result<Self, DecodeError>)
        ensures
            old(rdr)@.room() < RETAIL_PRICE_IMPROVEMENT_INDICATOR_SIZE ==> {
                &&& r == Err::<Self, DecodeError>(DecodeError::Truncated)
                &&& final(rdr)@ == old(rdr)@
            },
            old(rdr)@.room() >= RETAIL_PRICE_IMPROVEMENT_INDICATOR_SIZE ==> {
                &&& r == Ok::<Self, DecodeError>(Self::decoded(old(rdr)@.remaining()))
                &&& final(rdr)@ == old(rdr)@.advance(RETAIL_PRICE_IMPROVEMENT_INDICATOR_SIZE as nat)
            },
    {
        match Self::from_bytes(rdr.remaining()) {
            Some((obj, used)) => {
                rdr.advance(used);
                Ok(obj)
            },
            None => Err(DecodeError::Truncated),
        }
    }
}

impl EndOfSnapshot {
    /// Decodes an `EndOfSnapshot` from the start of `bytes`. Fails, with
    /// nothing decoded, exactly when `bytes` is shorter than
    /// `END_OF_SNAPSHOT_SIZE`; what lies beyond that length is not looked at.
    pub fn from_bytes(bytes: &[u8]) -> (r: Option<(Self, usize)>)
        ensures
            bytes@.len() < END_OF_SNAPSHOT_SIZE ==> r is None,
            bytes@.len() >= END_OF_SNAPSHOT_SIZE ==> r == Some(
                (Self::decoded(bytes@), END_OF_SNAPSHOT_SIZE),
            ),
    {
        if bytes.len() < END_OF_SNAPSHOT_SIZE {
            return None;
        }
        let obj = EndOfSnapshot {
            message_type: bytes[0],
            sequence_number: read_array20_at(bytes, 1),
        };
        Some((obj, END_OF_SNAPSHOT_SIZE))
    }

    /// Decodes an `EndOfSnapshot` at the cursor and moves the cursor past it.
    /// Where fewer than `END_OF_SNAPSHOT_SIZE` bytes are left, the call fails
    /// and the cursor stays where it was.
    pub fn from_cursor(rdr: &mut ReadCursor<'_>) -> (r: Result<Self, DecodeError>)
        ensures
            old(rdr)@.room() < END_OF_SNAPSHOT_SIZE ==> {
                &&& r == Err::<Self, DecodeError>(DecodeError::Truncated)
                &&& final(rdr)@ == old(rdr)@
            },
            old(rdr)@.room() >= END_OF_SNAPSHOT_SIZE ==> {
                &&& r == Ok::<Self, DecodeError>(Self::decoded(old(rdr)@.remaining()))
                &&& final(rdr)@ == old(rdr)@.advance(END_OF_SNAPSHOT_SIZE as nat)
            },
    {
        match Self::from_bytes(rdr.remaining()) {
            Some((obj, used)) => {
                rdr.advance(used);
                Ok(obj)
            },
            None => Err(DecodeError::Truncated),
        }
    }
}

} // verus!
