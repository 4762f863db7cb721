//! Encoding: each message type is written at a cursor, field by field, in
//! wire order. A write that does not fit fills the buffer as far as it goes and
//! fails.

use crate::bytes::{be_bytes, lemma_be_bytes_len};
use crate::cursor::WriteCursor;
use crate::error::EncodeError;
use crate::itch::codes::{
    eAuthenticity,
    eBreachedLevel,
    eBuySellIndicator,
    eCrossType,
    eETPFlag,
    eFinancialStatusIndicator,
    eIPOFlag,
    eIPOQuotationReleaseQualifier,
    eImbalanceDirection,
    eInterestFlag,
    eInverseIndicator,
    eIssueClassification,
    eLULDReferencePriceTier,
    eMarketCategory,
    eMarketCode,
    eMarketMakerMode,
    eMarketParticipantState,
    eOperationalHaltAction,
    ePriceVariationIndicator,
    ePrimaryMarketMaker,
    ePrintable,
    eRegSHOAction,
    eRoundLotsOnly,
    eShortSaleThresholdIndicator,
    eSystemEvent,
    eTradingState,
};
use crate::itch::records::{
    SystemEvent, SYSTEM_EVENT_SIZE,
    StockDirectory, STOCK_DIRECTORY_SIZE,
    StockTradingAction, STOCK_TRADING_ACTION_SIZE,
    RegShoRestriction, REG_SHO_RESTRICTION_SIZE,
    MarketParticipantPosition, MARKET_PARTICIPANT_POSITION_SIZE,
    MwcbDeclineLevel, MWCB_DECLINE_LEVEL_SIZE,
    MwcbStatus, MWCB_STATUS_SIZE,
    IpoQuotingPeriodUpdate, IPO_QUOTING_PERIOD_UPDATE_SIZE,
    LuldAuctionCollar, LULD_AUCTION_COLLAR_SIZE,
    OperationalHalt, OPERATIONAL_HALT_SIZE,
    AddOrder, ADD_ORDER_SIZE,
    AddOrderWithMpid, ADD_ORDER_WITH_MPID_SIZE,
    OrderExecuted, ORDER_EXECUTED_SIZE,
    OrderExecutedWithPrice, ORDER_EXECUTED_WITH_PRICE_SIZE,
    OrderCancel, ORDER_CANCEL_SIZE,
    OrderDelete, ORDER_DELETE_SIZE,
    OrderReplace, ORDER_REPLACE_SIZE,
    Trade, TRADE_SIZE,
    CrossTrade, CROSS_TRADE_SIZE,
    BrokenTrade, BROKEN_TRADE_SIZE,
    NetOrderImbalanceIndicator, NET_ORDER_IMBALANCE_INDICATOR_SIZE,
    RetailPriceImprovementIndicator, RETAIL_PRICE_IMPROVEMENT_INDICATOR_SIZE,
    EndOfSnapshot, END_OF_SNAPSHOT_SIZE,
};
use vstd::prelude::*;

verus! {

/// Writes a [`SystemEvent`] made of the given fields at the cursor.
pub fn write_system_event(
    wrt: &mut WriteCursor<'_>,
    stock_locate: u16,
    tracking_number: u16,
    timestamp: u64,
    event_code: eSystemEvent,
) -> (r: Result<(), EncodeError>)
    ensures
        final(wrt)@ == old(wrt)@.put(
            (SystemEvent {
                message_type: SystemEvent::TYPE,
                stock_locate,
                tracking_number,
                timestamp,
                event_code,
            }).encoded(),
        ),
        r is Ok <==> SYSTEM_EVENT_SIZE <= old(wrt)@.room(),
{
    write_system_event_struct(
        wrt,
        SystemEvent {
            message_type: SystemEvent::TYPE,
            stock_locate,
            tracking_number,
            timestamp,
            event_code,
        },
    )
}

/// Writes `msg` at the cursor: `SYSTEM_EVENT_SIZE` bytes where they fit. The
/// tag written is the type's own, whatever `msg.message_type` holds.
pub fn write_system_event_struct(
    wrt: &mut WriteCursor<'_>,
    msg: SystemEvent,
) -> (r: Result<(), EncodeError>)
    ensures
        final(wrt)@ == old(wrt)@.put(msg.encoded()),
        r is Ok <==> SYSTEM_EVENT_SIZE <= old(wrt)@.room(),
{
    proof {
        use_type_invariant(&*wrt);
        wrt.lemma_inv();
        let v = wrt@;
        lemma_be_bytes_len(msg.stock_locate as nat, 2);
        lemma_be_bytes_len(msg.tracking_number as nat, 2);
        lemma_be_bytes_len(msg.timestamp as nat, 6);
        let p0 = seq![SystemEvent::TYPE];
        v.lemma_put_put(p0, be_bytes(msg.stock_locate as nat, 2));
        let p1 = p0 + be_bytes(msg.stock_locate as nat, 2);
        v.lemma_put_put(p1, be_bytes(msg.tracking_number as nat, 2));
        let p2 = p1 + be_bytes(msg.tracking_number as nat, 2);
        v.lemma_put_put(p2, be_bytes(msg.timestamp as nat, 6));
        let p3 = p2 + be_bytes(msg.timestamp as nat, 6);
        v.lemma_put_put(p3, seq![msg.event_code.0]);
    }
    wrt.write_u8(SystemEvent::TYPE)?;
    wrt.write_u16(msg.stock_locate)?;
    wrt.write_u16(msg.tracking_number)?;
    wrt.write_u48(msg.timestamp)?;
    wrt.write_u8(msg.event_code.0)?;
    Ok(())
}

/// Writes a [`StockDirectory`] made of the given fields at the cursor.
pub fn write_stock_directory(
    wrt: &mut WriteCursor<'_>,
    stock_locate: u16,
    tracking_number: u16,
    timestamp: u64,
    stock: [u8; 8],
    market_category: eMarketCategory,
    financial_status_indicator: eFinancialStatusIndicator,
    round_lot_size: u32,
    round_lots_only: eRoundLotsOnly,
    issue_classification: eIssueClassification,
    issue_sub_type: [u8; 2],
    authenticity: eAuthenticity,
    short_sale_threshold_indicator: eShortSaleThresholdIndicator,
    ipo_flag: eIPOFlag,
    luld_reference_price_tier: eLULDReferencePriceTier,
    etp_flag: eETPFlag,
    etp_leverage_factor: u32,
    inverse_indicator: eInverseIndicator,
) -> (r: Result<(), EncodeError>)
    ensures
        final(wrt)@ == old(wrt)@.put(
            (StockDirectory {
                message_type: StockDirectory::TYPE,
                stock_locate,
                tracking_number,
                timestamp,
                stock,
                market_category,
                financial_status_indicator,
                round_lot_size,
                round_lots_only,
                issue_classification,
                issue_sub_type,
                authenticity,
                short_sale_threshold_indicator,
                ipo_flag,
                luld_reference_price_tier,
                etp_flag,
                etp_leverage_factor,
                inverse_indicator,
            }).encoded(),
        ),
        r is Ok <==> STOCK_DIRECTORY_SIZE <= old(wrt)@.room(),
{
    write_stock_directory_struct(
        wrt,
        StockDirectory {
            message_type: StockDirectory::TYPE,
            stock_locate,
            tracking_number,
            timestamp,
            stock,
            market_category,
            financial_status_indicator,
            round_lot_size,
            round_lots_only,
            issue_classification,
            issue_sub_type,
            authenticity,
            short_sale_threshold_indicator,
            ipo_flag,
            luld_reference_price_tier,
            etp_flag,
            etp_leverage_factor,
            inverse_indicator,
        },
    )
}

/// Writes `msg` at the cursor: `STOCK_DIRECTORY_SIZE` bytes where they fit. The
/// tag written is the type's own, whatever `msg.message_type` holds.
pub fn write_stock_directory_struct(
    wrt: &mut WriteCursor<'_>,
    msg: StockDirectory,
) -> (r: Result<(), EncodeError>)
    ensures
        final(wrt)@ == old(wrt)@.put(msg.encoded()),
        r is Ok <==> STOCK_DIRECTORY_SIZE <= old(wrt)@.room(),
{
    proof {
        use_type_invariant(&*wrt);
        wrt.lemma_inv();
        let v = wrt@;
        lemma_be_bytes_len(msg.stock_locate as nat, 2);
        lemma_be_bytes_len(msg.tracking_number as nat, 2);
        lemma_be_bytes_len(msg.timestamp as nat, 6);
        lemma_be_bytes_len(msg.round_lot_size as nat, 4);
        lemma_be_bytes_len(msg.etp_leverage_factor as nat, 4);
        let p0 = seq![StockDirectory::TYPE];
        v.lemma_put_put(p0, be_bytes(msg.stock_locate as nat, 2));
        let p1 = p0 + be_bytes(msg.stock_locate as nat, 2);
        v.lemma_put_put(p1, be_bytes(msg.tracking_number as nat, 2));
        let p2 = p1 + be_bytes(msg.tracking_number as nat, 2);
        v.lemma_put_put(p2, be_bytes(msg.timestamp as nat, 6));
        let p3 = p2 + be_bytes(msg.timestamp as nat, 6);
        v.lemma_put_put(p3, msg.stock@);
        let p4 = p3 + msg.stock@;
        v.lemma_put_put(p4, seq![msg.market_category.0]);
        let p5 = p4 + seq![msg.market_category.0];
        v.lemma_put_put(p5, seq![msg.financial_status_indicator.0]);
        let p6 = p5 + seq![msg.financial_status_indicator.0];
        v.lemma_put_put(p6, be_bytes(msg.round_lot_size as nat, 4));
        let p7 = p6 + be_bytes(msg.round_lot_size as nat, 4);
        v.lemma_put_put(p7, seq![msg.round_lots_only.0]);
        let p8 = p7 + seq![msg.round_lots_only.0];
        v.lemma_put_put(p8, seq![msg.issue_classification.0]);
        let p9 = p8 + seq![msg.issue_classification.0];
        v.lemma_put_put(p9, msg.issue_sub_type@);
        let p10 = p9 + msg.issue_sub_type@;
        v.lemma_put_put(p10, seq![msg.authenticity.0]);
        let p11 = p10 + seq![msg.authenticity.0];
        v.lemma_put_put(p11, seq![msg.short_sale_threshold_indicator.0]);
        let p12 = p11 + seq![msg.short_sale_threshold_indicator.0];
        v.lemma_put_put(p12, seq![msg.ipo_flag.0]);
        let p13 = p12 + seq![msg.ipo_flag.0];
        v.lemma_put_put(p13, seq![msg.luld_reference_price_tier.0]);
        let p14 = p13 + seq![msg.luld_reference_price_tier.0];
        v.lemma_put_put(p14, seq![msg.etp_flag.0]);
        let p15 = p14 + seq![msg.etp_flag.0];
        v.lemma_put_put(p15, be_bytes(msg.etp_leverage_factor as nat, 4));
        let p16 = p15 + be_bytes(msg.etp_leverage_factor as nat, 4);
        v.lemma_put_put(p16, seq![msg.inverse_indicator.0]);
    }
    wrt.write_u8(StockDirectory::TYPE)?;
    wrt.write_u16(msg.stock_locate)?;
    wrt.write_u16(msg.tracking_number)?;
    wrt.write_u48(msg.timestamp)?;
    wrt.write_all(&msg.stock)?;
    wrt.write_u8(msg.market_category.0)?;
    wrt.write_u8(msg.financial_status_indicator.0)?;
    wrt.write_u32(msg.round_lot_size)?;
    wrt.write_u8(msg.round_lots_only.0)?;
    wrt.write_u8(msg.issue_classification.0)?;
    wrt.write_all(&msg.issue_sub_type)?;
    wrt.write_u8(msg.authenticity.0)?;
    wrt.write_u8(msg.short_sale_threshold_indicator.0)?;
    wrt.write_u8(msg.ipo_flag.0)?;
    wrt.write_u8(msg.luld_reference_price_tier.0)?;
    wrt.write_u8(msg.etp_flag.0)?;
    wrt.write_u32(msg.etp_leverage_factor)?;
    wrt.write_u8(msg.inverse_indicator.0)?;
    Ok(())
}

/// Writes a [`StockTradingAction`] made of the given fields at the cursor.
pub fn write_stock_trading_action(
    wrt: &mut WriteCursor<'_>,
    stock_locate: u16,
    tracking_number: u16,
    timestamp: u64,
    stock: [u8; 8],
    trading_state: eTradingState,
    reserved: u8,
    reason: [u8; 4],
) -> (r: Result<(), EncodeError>)
    ensures
        final(wrt)@ == old(wrt)@.put(
            (StockTradingAction {
                message_type: StockTradingAction::TYPE,
                stock_locate,
                tracking_number,
                timestamp,
                stock,
                trading_state,
                reserved,
                reason,
            }).encoded(),
        ),
        r is Ok <==> STOCK_TRADING_ACTION_SIZE <= old(wrt)@.room(),
{
    write_stock_trading_action_struct(
        wrt,
        StockTradingAction {
            message_type: StockTradingAction::TYPE,
            stock_locate,
            tracking_number,
            timestamp,
            stock,
            trading_state,
            reserved,
            reason,
        },
    )
}

/// Writes `msg` at the cursor: `STOCK_TRADING_ACTION_SIZE` bytes where they
/// fit. The tag written is the type's own, whatever `msg.message_type` holds.
pub fn write_stock_trading_action_struct(
    wrt: &mut WriteCursor<'_>,
    msg: StockTradingAction,
) -> (r: Result<(), EncodeError>)
    ensures
        final(wrt)@ == old(wrt)@.put(msg.encoded()),
        r is Ok <==> STOCK_TRADING_ACTION_SIZE <= old(wrt)@.room(),
{
    proof {
        use_type_invariant(&*wrt);
        wrt.lemma_inv();
        let v = wrt@;
        lemma_be_bytes_len(msg.stock_locate as nat, 2);
        lemma_be_bytes_len(msg.tracking_number as nat, 2);
        lemma_be_bytes_len(msg.timestamp as nat, 6);
        let p0 = seq![StockTradingAction::TYPE];
        v.lemma_put_put(p0, be_bytes(msg.stock_locate as nat, 2));
        let p1 = p0 + be_bytes(msg.stock_locate as nat, 2);
        v.lemma_put_put(p1, be_bytes(msg.tracking_number as nat, 2));
        let p2 = p1 + be_bytes(msg.tracking_number as nat, 2);
        v.lemma_put_put(p2, be_bytes(msg.timestamp as nat, 6));
        let p3 = p2 + be_bytes(msg.timestamp as nat, 6);
        v.lemma_put_put(p3, msg.stock@);
        let p4 = p3 + msg.stock@;
        v.lemma_put_put(p4, seq![msg.trading_state.0]);
        let p5 = p4 + seq![msg.trading_state.0];
        v.lemma_put_put(p5, seq![msg.reserved]);
        let p6 = p5 + seq![msg.reserved];
        v.lemma_put_put(p6, msg.reason@);
    }
    wrt.write_u8(StockTradingAction::TYPE)?;
    wrt.write_u16(msg.stock_locate)?;
    wrt.write_u16(msg.tracking_number)?;
    wrt.write_u48(msg.timestamp)?;
    wrt.write_all(&msg.stock)?;
    wrt.write_u8(msg.trading_state.0)?;
    wrt.write_u8(msg.reserved)?;
    wrt.write_all(&msg.reason)?;
    Ok(())
}

/// Writes a [`RegShoRestriction`] made of the given fields at the cursor.
pub fn write_reg_sho_restriction(
    wrt: &mut WriteCursor<'_>,
    stock_locate: u16,
    tracking_number: u16,
    timestamp: u64,
    stock: [u8; 8],
    reg_sho_action: eRegSHOAction,
) -> (r: Result<(), EncodeError>)
    ensures
        final(wrt)@ == old(wrt)@.put(
            (RegShoRestriction {
                message_type: RegShoRestriction::TYPE,
                stock_locate,
                tracking_number,
                timestamp,
                stock,
                reg_sho_action,
            }).encoded(),
        ),
        r is Ok <==> REG_SHO_RESTRICTION_SIZE <= old(wrt)@.room(),
{
    write_reg_sho_restriction_struct(
        wrt,
        RegShoRestriction {
            message_type: RegShoRestriction::TYPE,
            stock_locate,
            tracking_number,
            timestamp,
            stock,
            reg_sho_action,
        },
    )
}

/// Writes `msg` at the cursor: `REG_SHO_RESTRICTION_SIZE` bytes where they fit.
/// The tag written is the type's own, whatever `msg.message_type` holds.
pub fn write_reg_sho_restriction_struct(
    wrt: &mut WriteCursor<'_>,
    msg: RegShoRestriction,
) -> (r: Result<(), EncodeError>)
    ensures
        final(wrt)@ == old(wrt)@.put(msg.encoded()),
        r is Ok <==> REG_SHO_RESTRICTION_SIZE <= old(wrt)@.room(),
{
    proof {
        use_type_invariant(&*wrt);
        wrt.lemma_inv();
        let v = wrt@;
        lemma_be_bytes_len(msg.stock_locate as nat, 2);
        lemma_be_bytes_len(msg.tracking_number as nat, 2);
        lemma_be_bytes_len(msg.timestamp as nat, 6);
        let p0 = seq![RegShoRestriction::TYPE];
        v.lemma_put_put(p0, be_bytes(msg.stock_locate as nat, 2));
        let p1 = p0 + be_bytes(msg.stock_locate as nat, 2);
        v.lemma_put_put(p1, be_bytes(msg.tracking_number as nat, 2));
        let p2 = p1 + be_bytes(msg.tracking_number as nat, 2);
        v.lemma_put_put(p2, be_bytes(msg.timestamp as nat, 6));
        let p3 = p2 + be_bytes(msg.timestamp as nat, 6);
        v.lemma_put_put(p3, msg.stock@);
        let p4 = p3 + msg.stock@;
        v.lemma_put_put(p4, seq![msg.reg_sho_action.0]);
    }
    wrt.write_u8(RegShoRestriction::TYPE)?;
    wrt.write_u16(msg.stock_locate)?;
    wrt.write_u16(msg.tracking_number)?;
    wrt.write_u48(msg.timestamp)?;
    wrt.write_all(&msg.stock)?;
    wrt.write_u8(msg.reg_sho_action.0)?;
    Ok(())
}

/// Writes a [`MarketParticipantPosition`] made of the given fields at the
/// cursor.
pub fn write_market_participant_position(
    wrt: &mut WriteCursor<'_>,
    stock_locate: u16,
    tracking_number: u16,
    timestamp: u64,
    mpid: [u8; 4],
    stock: [u8; 8],
    primary_market_maker: ePrimaryMarketMaker,
    market_maker_mode: eMarketMakerMode,
    market_participant_state: eMarketParticipantState,
) -> (r: Result<(), EncodeError>)
    ensures
        final(wrt)@ == old(wrt)@.put(
            (MarketParticipantPosition {
                message_type: MarketParticipantPosition::TYPE,
                stock_locate,
                tracking_number,
                timestamp,
                mpid,
                stock,
                primary_market_maker,
                market_maker_mode,
                market_participant_state,
            }).encoded(),
        ),
        r is Ok <==> MARKET_PARTICIPANT_POSITION_SIZE <= old(wrt)@.room(),
{
    write_market_participant_position_struct(
        wrt,
        MarketParticipantPosition {
            message_type: MarketParticipantPosition::TYPE,
            stock_locate,
            tracking_number,
            timestamp,
            mpid,
            stock,
            primary_market_maker,
            market_maker_mode,
            market_participant_state,
        },
    )
}

/// Writes `msg` at the cursor: `MARKET_PARTICIPANT_POSITION_SIZE` bytes where
/// they fit. The tag written is the type's own, whatever `msg.message_type`
/// holds.
pub fn write_market_participant_position_struct(
    wrt: &mut WriteCursor<'_>,
    msg: MarketParticipantPosition,
) -> (r: Result<(), EncodeError>)
    ensures
        final(wrt)@ == old(wrt)@.put(msg.encoded()),
        r is Ok <==> MARKET_PARTICIPANT_POSITION_SIZE <= old(wrt)@.room(),
{
    proof {
        use_type_invariant(&*wrt);
        wrt.lemma_inv();
        let v = wrt@;
        lemma_be_bytes_len(msg.stock_locate as nat, 2);
        lemma_be_bytes_len(msg.tracking_number as nat, 2);
        lemma_be_bytes_len(msg.timestamp as nat, 6);
        let p0 = seq![MarketParticipantPosition::TYPE];
        v.lemma_put_put(p0, be_bytes(msg.stock_locate as nat, 2));
        let p1 = p0 + be_bytes(msg.stock_locate as nat, 2);
        v.lemma_put_put(p1, be_bytes(msg.tracking_number as nat, 2));
        let p2 = p1 + be_bytes(msg.tracking_number as nat, 2);
        v.lemma_put_put(p2, be_bytes(msg.timestamp as nat, 6));
        let p3 = p2 + be_bytes(msg.timestamp as nat, 6);
        v.lemma_put_put(p3, msg.mpid@);
        let p4 = p3 + msg.mpid@;
        v.lemma_put_put(p4, msg.stock@);
        let p5 = p4 + msg.stock@;
        v.lemma_put_put(p5, seq![msg.primary_market_maker.0]);
        let p6 = p5 + seq![msg.primary_market_maker.0];
        v.lemma_put_put(p6, seq![msg.market_maker_mode.0]);
        let p7 = p6 + seq![msg.market_maker_mode.0];
        v.lemma_put_put(p7, seq![msg.market_participant_state.0]);
    }
    wrt.write_u8(MarketParticipantPosition::TYPE)?;
    wrt.write_u16(msg.stock_locate)?;
    wrt.write_u16(msg.tracking_number)?;
    wrt.write_u48(msg.timestamp)?;
    wrt.write_all(&msg.mpid)?;
    wrt.write_all(&msg.stock)?;
    wrt.write_u8(msg.primary_market_maker.0)?;
    wrt.write_u8(msg.market_maker_mode.0)?;
    wrt.write_u8(msg.market_participant_state.0)?;
    Ok(())
}

/// Writes an [`MwcbDeclineLevel`] made of the given fields at the cursor.
pub fn write_mwcb_decline_level(
    wrt: &mut WriteCursor<'_>,
    stock_locate: u16,
    tracking_number: u16,
    timestamp: u64,
    level_1: u64,
    level_2: u64,
    level_3: u64,
) -> (r: Result<(), EncodeError>)
    ensures
        final(wrt)@ == old(wrt)@.put(
            (MwcbDeclineLevel {
                message_type: MwcbDeclineLevel::TYPE,
                stock_locate,
                tracking_number,
                timestamp,
                level_1,
                level_2,
                level_3,
            }).encoded(),
        ),
        r is Ok <==> MWCB_DECLINE_LEVEL_SIZE <= old(wrt)@.room(),
{
    write_mwcb_decline_level_struct(
        wrt,
        MwcbDeclineLevel {
            message_type: MwcbDeclineLevel::TYPE,
            stock_locate,
            tracking_number,
            timestamp,
            level_1,
            level_2,
            level_3,
        },
    )
}

/// Writes `msg` at the cursor: `MWCB_DECLINE_LEVEL_SIZE` bytes where they fit.
/// The tag written is the type's own, whatever `msg.message_type` holds.
pub fn write_mwcb_decline_level_struct(
    wrt: &mut WriteCursor<'_>,
    msg: MwcbDeclineLevel,
) -> (r: Result<(), EncodeError>)
    ensures
        final(wrt)@ == old(wrt)@.put(msg.encoded()),
        r is Ok <==> MWCB_DECLINE_LEVEL_SIZE <= old(wrt)@.room(),
{
    proof {
        use_type_invariant(&*wrt);
        wrt.lemma_inv();
        let v = wrt@;
        lemma_be_bytes_len(msg.stock_locate as nat, 2);
        lemma_be_bytes_len(msg.tracking_number as nat, 2);
        lemma_be_bytes_len(msg.timestamp as nat, 6);
        lemma_be_bytes_len(msg.level_1 as nat, 8);
        lemma_be_bytes_len(msg.level_2 as nat, 8);
        lemma_be_bytes_len(msg.level_3 as nat, 8);
        let p0 = seq![MwcbDeclineLevel::TYPE];
        v.lemma_put_put(p0, be_bytes(msg.stock_locate as nat, 2));
        let p1 = p0 + be_bytes(msg.stock_locate as nat, 2);
        v.lemma_put_put(p1, be_bytes(msg.tracking_number as nat, 2));
        let p2 = p1 + be_bytes(msg.tracking_number as nat, 2);
        v.lemma_put_put(p2, be_bytes(msg.timestamp as nat, 6));
        let p3 = p2 + be_bytes(msg.timestamp as nat, 6);
        v.lemma_put_put(p3, be_bytes(msg.level_1 as nat, 8));
        let p4 = p3 + be_bytes(msg.level_1 as nat, 8);
        v.lemma_put_put(p4, be_bytes(msg.level_2 as nat, 8));
        let p5 = p4 + be_bytes(msg.level_2 as nat, 8);
        v.lemma_put_put(p5, be_bytes(msg.level_3 as nat, 8));
    }
    wrt.write_u8(MwcbDeclineLevel::TYPE)?;
    wrt.write_u16(msg.stock_locate)?;
    wrt.write_u16(msg.tracking_number)?;
    wrt.write_u48(msg.timestamp)?;
    wrt.write_u64(msg.level_1)?;
    wrt.write_u64(msg.level_2)?;
    wrt.write_u64(msg.level_3)?;
    Ok(())
}

/// Writes an [`MwcbStatus`] made of the given fields at the cursor.
pub fn write_mwcb_status(
    wrt: &mut WriteCursor<'_>,
    stock_locate: u16,
    tracking_number: u16,
    timestamp: u64,
    breached_level: eBreachedLevel,
) -> (r: Result<(), EncodeError>)
    ensures
        final(wrt)@ == old(wrt)@.put(
            (MwcbStatus {
                message_type: MwcbStatus::TYPE,
                stock_locate,
                tracking_number,
                timestamp,
                breached_level,
            }).encoded(),
        ),
        r is Ok <==> MWCB_STATUS_SIZE <= old(wrt)@.room(),
{
    write_mwcb_status_struct(
        wrt,
        MwcbStatus {
            message_type: MwcbStatus::TYPE,
            stock_locate,
            tracking_number,
            timestamp,
            breached_level,
        },
    )
}

/// Writes `msg` at the cursor: `MWCB_STATUS_SIZE` bytes where they fit. The tag
/// written is the type's own, whatever `msg.message_type` holds.
pub fn write_mwcb_status_struct(
    wrt: &mut WriteCursor<'_>,
    msg: MwcbStatus,
) -> (r: Result<(), EncodeError>)
    ensures
        final(wrt)@ == old(wrt)@.put(msg.encoded()),
        r is Ok <==> MWCB_STATUS_SIZE <= old(wrt)@.room(),
{
    proof {
        use_type_invariant(&*wrt);
        wrt.lemma_inv();
        let v = wrt@;
        lemma_be_bytes_len(msg.stock_locate as nat, 2);
        lemma_be_bytes_len(msg.tracking_number as nat, 2);
        lemma_be_bytes_len(msg.timestamp as nat, 6);
        let p0 = seq![MwcbStatus::TYPE];
        v.lemma_put_put(p0, be_bytes(msg.stock_locate as nat, 2));
        let p1 = p0 + be_bytes(msg.stock_locate as nat, 2);
        v.lemma_put_put(p1, be_bytes(msg.tracking_number as nat, 2));
        let p2 = p1 + be_bytes(msg.tracking_number as nat, 2);
        v.lemma_put_put(p2, be_bytes(msg.timestamp as nat, 6));
        let p3 = p2 + be_bytes(msg.timestamp as nat, 6);
        v.lemma_put_put(p3, seq![msg.breached_level.0]);
    }
    wrt.write_u8(MwcbStatus::TYPE)?;
    wrt.write_u16(msg.stock_locate)?;
    wrt.write_u16(msg.tracking_number)?;
    wrt.write_u48(msg.timestamp)?;
    wrt.write_u8(msg.breached_level.0)?;
    Ok(())
}

/// Writes an [`IpoQuotingPeriodUpdate`] made of the given fields at the cursor.
pub fn write_ipo_quoting_period_update(
    wrt: &mut WriteCursor<'_>,
    stock_locate: u16,
    tracking_number: u16,
    timestamp: u64,
    stock: [u8; 8],
    ipo_quotation_release_time: u32,
    ipo_quotation_release_qualifier: eIPOQuotationReleaseQualifier,
    ipo_price: u32,
) -> (r: Result<(), EncodeError>)
    ensures
        final(wrt)@ == old(wrt)@.put(
            (IpoQuotingPeriodUpdate {
                message_type: IpoQuotingPeriodUpdate::TYPE,
                stock_locate,
                tracking_number,
                timestamp,
                stock,
                ipo_quotation_release_time,
                ipo_quotation_release_qualifier,
                ipo_price,
            }).encoded(),
        ),
        r is Ok <==> IPO_QUOTING_PERIOD_UPDATE_SIZE <= old(wrt)@.room(),
{
    write_ipo_quoting_period_update_struct(
        wrt,
        IpoQuotingPeriodUpdate {
            message_type: IpoQuotingPeriodUpdate::TYPE,
            stock_locate,
            tracking_number,
            timestamp,
            stock,
            ipo_quotation_release_time,
            ipo_quotation_release_qualifier,
            ipo_price,
        },
    )
}

/// Writes `msg` at the cursor: `IPO_QUOTING_PERIOD_UPDATE_SIZE` bytes where
/// they fit. The tag written is the type's own, whatever `msg.message_type`
/// holds.
pub fn write_ipo_quoting_period_update_struct(
    wrt: &mut WriteCursor<'_>,
    msg: IpoQuotingPeriodUpdate,
) -> (r: Result<(), EncodeError>)
    ensures
        final(wrt)@ == old(wrt)@.put(msg.encoded()),
        r is Ok <==> IPO_QUOTING_PERIOD_UPDATE_SIZE <= old(wrt)@.room(),
{
    proof {
        use_type_invariant(&*wrt);
        wrt.lemma_inv();
        let v = wrt@;
        lemma_be_bytes_len(msg.stock_locate as nat, 2);
        lemma_be_bytes_len(msg.tracking_number as nat, 2);
        lemma_be_bytes_len(msg.timestamp as nat, 6);
        lemma_be_bytes_len(msg.ipo_quotation_release_time as nat, 4);
        lemma_be_bytes_len(msg.ipo_price as nat, 4);
        let p0 = seq![IpoQuotingPeriodUpdate::TYPE];
        v.lemma_put_put(p0, be_bytes(msg.stock_locate as nat, 2));
        let p1 = p0 + be_bytes(msg.stock_locate as nat, 2);
        v.lemma_put_put(p1, be_bytes(msg.tracking_number as nat, 2));
        let p2 = p1 + be_bytes(msg.tracking_number as nat, 2);
        v.lemma_put_put(p2, be_bytes(msg.timestamp as nat, 6));
        let p3 = p2 + be_bytes(msg.timestamp as nat, 6);
        v.lemma_put_put(p3, msg.stock@);
        let p4 = p3 + msg.stock@;
        v.lemma_put_put(p4, be_bytes(msg.ipo_quotation_release_time as nat, 4));
        let p5 = p4 + be_bytes(msg.ipo_quotation_release_time as nat, 4);
        v.lemma_put_put(p5, seq![msg.ipo_quotation_release_qualifier.0]);
        let p6 = p5 + seq![msg.ipo_quotation_release_qualifier.0];
        v.lemma_put_put(p6, be_bytes(msg.ipo_price as nat, 4));
    }
    wrt.write_u8(IpoQuotingPeriodUpdate::TYPE)?;
    wrt.write_u16(msg.stock_locate)?;
    wrt.write_u16(msg.tracking_number)?;
    wrt.write_u48(msg.timestamp)?;
    wrt.write_all(&msg.stock)?;
    wrt.write_u32(msg.ipo_quotation_release_time)?;
    wrt.write_u8(msg.ipo_quotation_release_qualifier.0)?;
    wrt.write_u32(msg.ipo_price)?;
    Ok(())
}

/// Writes a [`LuldAuctionCollar`] made of the given fields at the cursor.
pub fn write_luld_auction_collar(
    wrt: &mut WriteCursor<'_>,
    stock_locate: u16,
    tracking_number: u16,
    timestamp: u64,
    stock: [u8; 8],
    auction_collar_reference_price: u32,
    upper_auction_collar_price: u32,
    lower_auction_collar_price: u32,
    auction_collar_extension: u32,
) -> (r: Result<(), EncodeError>)
    ensures
        final(wrt)@ == old(wrt)@.put(
            (LuldAuctionCollar {
                message_type: LuldAuctionCollar::TYPE,
                stock_locate,
                tracking_number,
                timestamp,
                stock,
                auction_collar_reference_price,
                upper_auction_collar_price,
                lower_auction_collar_price,
                auction_collar_extension,
            }).encoded(),
        ),
        r is Ok <==> LULD_AUCTION_COLLAR_SIZE <= old(wrt)@.room(),
{
    write_luld_auction_collar_struct(
        wrt,
        LuldAuctionCollar {
            message_type: LuldAuctionCollar::TYPE,
            stock_locate,
            tracking_number,
            timestamp,
            stock,
            auction_collar_reference_price,
            upper_auction_collar_price,
            lower_auction_collar_price,
            auction_collar_extension,
        },
    )
}

/// Writes `msg` at the cursor: `LULD_AUCTION_COLLAR_SIZE` bytes where they fit.
/// The tag written is the type's own, whatever `msg.message_type` holds.
pub fn write_luld_auction_collar_struct(
    wrt: &mut WriteCursor<'_>,
    msg: LuldAuctionCollar,
) -> (r: Result<(), EncodeError>)
    ensures
        final(wrt)@ == old(wrt)@.put(msg.encoded()),
        r is Ok <==> LULD_AUCTION_COLLAR_SIZE <= old(wrt)@.room(),
{
    proof {
        use_type_invariant(&*wrt);
        wrt.lemma_inv();
        let v = wrt@;
        lemma_be_bytes_len(msg.stock_locate as nat, 2);
        lemma_be_bytes_len(msg.tracking_number as nat, 2);
        lemma_be_bytes_len(msg.timestamp as nat, 6);
        lemma_be_bytes_len(msg.auction_collar_reference_price as nat, 4);
        lemma_be_bytes_len(msg.upper_auction_collar_price as nat, 4);
        lemma_be_bytes_len(msg.lower_auction_collar_price as nat, 4);
        lemma_be_bytes_len(msg.auction_collar_extension as nat, 4);
        let p0 = seq![LuldAuctionCollar::TYPE];
        v.lemma_put_put(p0, be_bytes(msg.stock_locate as nat, 2));
        let p1 = p0 + be_bytes(msg.stock_locate as nat, 2);
        v.lemma_put_put(p1, be_bytes(msg.tracking_number as nat, 2));
        let p2 = p1 + be_bytes(msg.tracking_number as nat, 2);
        v.lemma_put_put(p2, be_bytes(msg.timestamp as nat, 6));
        let p3 = p2 + be_bytes(msg.timestamp as nat, 6);
        v.lemma_put_put(p3, msg.stock@);
        let p4 = p3 + msg.stock@;
        v.lemma_put_put(p4, be_bytes(msg.auction_collar_reference_price as nat, 4));
        let p5 = p4 + be_bytes(msg.auction_collar_reference_price as nat, 4);
        v.lemma_put_put(p5, be_bytes(msg.upper_auction_collar_price as nat, 4));
        let p6 = p5 + be_bytes(msg.upper_auction_collar_price as nat, 4);
        v.lemma_put_put(p6, be_bytes(msg.lower_auction_collar_price as nat, 4));
        let p7 = p6 + be_bytes(msg.lower_auction_collar_price as nat, 4);
        v.lemma_put_put(p7, be_bytes(msg.auction_collar_extension as nat, 4));
    }
    wrt.write_u8(LuldAuctionCollar::TYPE)?;
    wrt.write_u16(msg.stock_locate)?;
    wrt.write_u16(msg.tracking_number)?;
    wrt.write_u48(msg.timestamp)?;
    wrt.write_all(&msg.stock)?;
    wrt.write_u32(msg.auction_collar_reference_price)?;
    wrt.write_u32(msg.upper_auction_collar_price)?;
    wrt.write_u32(msg.lower_auction_collar_price)?;
    wrt.write_u32(msg.auction_collar_extension)?;
    Ok(())
}

/// Writes an [`OperationalHalt`] made of the given fields at the cursor.
pub fn write_operational_halt(
    wrt: &mut WriteCursor<'_>,
    stock_locate: u16,
    tracking_number: u16,
    timestamp: u64,
    stock: [u8; 8],
    market_code: eMarketCode,
    operational_halt_action: eOperationalHaltAction,
) -> (r: Result<(), EncodeError>)
    ensures
        final(wrt)@ == old(wrt)@.put(
            (OperationalHalt {
                message_type: OperationalHalt::TYPE,
                stock_locate,
                tracking_number,
                timestamp,
                stock,
                market_code,
                operational_halt_action,
            }).encoded(),
        ),
        r is Ok <==> OPERATIONAL_HALT_SIZE <= old(wrt)@.room(),
{
    write_operational_halt_struct(
        wrt,
        OperationalHalt {
            message_type: OperationalHalt::TYPE,
            stock_locate,
            tracking_number,
            timestamp,
            stock,
            market_code,
            operational_halt_action,
        },
    )
}

/// Writes `msg` at the cursor: `OPERATIONAL_HALT_SIZE` bytes where they fit.
/// The tag written is the type's own, whatever `msg.message_type` holds.
pub fn write_operational_halt_struct(
    wrt: &mut WriteCursor<'_>,
    msg: OperationalHalt,
) -> (r: Result<(), EncodeError>)
    ensures
        final(wrt)@ == old(wrt)@.put(msg.encoded()),
        r is Ok <==> OPERATIONAL_HALT_SIZE <= old(wrt)@.room(),
{
    proof {
        use_type_invariant(&*wrt);
        wrt.lemma_inv();
        let v = wrt@;
        lemma_be_bytes_len(msg.stock_locate as nat, 2);
        lemma_be_bytes_len(msg.tracking_number as nat, 2);
        lemma_be_bytes_len(msg.timestamp as nat, 6);
        let p0 = seq![OperationalHalt::TYPE];
        v.lemma_put_put(p0, be_bytes(msg.stock_locate as nat, 2));
        let p1 = p0 + be_bytes(msg.stock_locate as nat, 2);
        v.lemma_put_put(p1, be_bytes(msg.tracking_number as nat, 2));
        let p2 = p1 + be_bytes(msg.tracking_number as nat, 2);
        v.lemma_put_put(p2, be_bytes(msg.timestamp as nat, 6));
        let p3 = p2 + be_bytes(msg.timestamp as nat, 6);
        v.lemma_put_put(p3, msg.stock@);
        let p4 = p3 + msg.stock@;
        v.lemma_put_put(p4, seq![msg.market_code.0]);
        let p5 = p4 + seq![msg.market_code.0];
        v.lemma_put_put(p5, seq![msg.operational_halt_action.0]);
    }
    wrt.write_u8(OperationalHalt::TYPE)?;
    wrt.write_u16(msg.stock_locate)?;
    wrt.write_u16(msg.tracking_number)?;
    wrt.write_u48(msg.timestamp)?;
    wrt.write_all(&msg.stock)?;
    wrt.write_u8(msg.market_code.0)?;
    wrt.write_u8(msg.operational_halt_action.0)?;
    Ok(())
}

/// Writes an [`AddOrder`] made of the given fields at the cursor.
pub fn write_add_order(
    wrt: &mut WriteCursor<'_>,
    stock_locate: u16,
    tracking_number: u16,
    timestamp: u64,
    order_reference_number: u64,
    buy_sell_indicator: eBuySellIndicator,
    shares: u32,
    stock: [u8; 8],
    price: u32,
) -> (r: Result<(), EncodeError>)
    ensures
        final(wrt)@ == old(wrt)@.put(
            (AddOrder {
                message_type: AddOrder::TYPE,
                stock_locate,
                tracking_number,
                timestamp,
                order_reference_number,
                buy_sell_indicator,
                shares,
                stock,
                price,
            }).encoded(),
        ),
        r is Ok <==> ADD_ORDER_SIZE <= old(wrt)@.room(),
{
    write_add_order_struct(
        wrt,
        AddOrder {
            message_type: AddOrder::TYPE,
            stock_locate,
            tracking_number,
            timestamp,
            order_reference_number,
            buy_sell_indicator,
            shares,
            stock,
            price,
        },
    )
}

/// Writes `msg` at the cursor: `ADD_ORDER_SIZE` bytes where they fit. The tag
/// written is the type's own, whatever `msg.message_type` holds.
pub fn write_add_order_struct(
    wrt: &mut WriteCursor<'_>,
    msg: AddOrder,
) -> (r: Result<(), EncodeError>)
    ensures
        final(wrt)@ == old(wrt)@.put(msg.encoded()),
        r is Ok <==> ADD_ORDER_SIZE <= old(wrt)@.room(),
{
    proof {
        use_type_invariant(&*wrt);
        wrt.lemma_inv();
        let v = wrt@;
        lemma_be_bytes_len(msg.stock_locate as nat, 2);
        lemma_be_bytes_len(msg.tracking_number as nat, 2);
        lemma_be_bytes_len(msg.timestamp as nat, 6);
        lemma_be_bytes_len(msg.order_reference_number as nat, 8);
        lemma_be_bytes_len(msg.shares as nat, 4);
        lemma_be_bytes_len(msg.price as nat, 4);
        let p0 = seq![AddOrder::TYPE];
        v.lemma_put_put(p0, be_bytes(msg.stock_locate as nat, 2));
        let p1 = p0 + be_bytes(msg.stock_locate as nat, 2);
        v.lemma_put_put(p1, be_bytes(msg.tracking_number as nat, 2));
        let p2 = p1 + be_bytes(msg.tracking_number as nat, 2);
        v.lemma_put_put(p2, be_bytes(msg.timestamp as nat, 6));
        let p3 = p2 + be_bytes(msg.timestamp as nat, 6);
        v.lemma_put_put(p3, be_bytes(msg.order_reference_number as nat, 8));
        let p4 = p3 + be_bytes(msg.order_reference_number as nat, 8);
        v.lemma_put_put(p4, seq![msg.buy_sell_indicator.0]);
        let p5 = p4 + seq![msg.buy_sell_indicator.0];
        v.lemma_put_put(p5, be_bytes(msg.shares as nat, 4));
        let p6 = p5 + be_bytes(msg.shares as nat, 4);
        v.lemma_put_put(p6, msg.stock@);
        let p7 = p6 + msg.stock@;
        v.lemma_put_put(p7, be_bytes(msg.price as nat, 4));
    }
    wrt.write_u8(AddOrder::TYPE)?;
    wrt.write_u16(msg.stock_locate)?;
    wrt.write_u16(msg.tracking_number)?;
    wrt.write_u48(msg.timestamp)?;
    wrt.write_u64(msg.order_reference_number)?;
    wrt.write_u8(msg.buy_sell_indicator.0)?;
    wrt.write_u32(msg.shares)?;
    wrt.write_all(&msg.stock)?;
    wrt.write_u32(msg.price)?;
    Ok(())
}

/// Writes an [`AddOrderWithMpid`] made of the given fields at the cursor.
pub fn write_add_order_with_mpid(
    wrt: &mut WriteCursor<'_>,
    stock_locate: u16,
    tracking_number: u16,
    timestamp: u64,
    order_reference_number: u64,
    buy_sell_indicator: eBuySellIndicator,
    shares: u32,
    stock: [u8; 8],
    price: u32,
    attribution: [u8; 4],
) -> (r: Result<(), EncodeError>)
    ensures
        final(wrt)@ == old(wrt)@.put(
            (AddOrderWithMpid {
                message_type: AddOrderWithMpid::TYPE,
                stock_locate,
                tracking_number,
                timestamp,
                order_reference_number,
                buy_sell_indicator,
                shares,
                stock,
                price,
                attribution,
            }).encoded(),
        ),
        r is Ok <==> ADD_ORDER_WITH_MPID_SIZE <= old(wrt)@.room(),
{
    write_add_order_with_mpid_struct(
        wrt,
        AddOrderWithMpid {
            message_type: AddOrderWithMpid::TYPE,
            stock_locate,
            tracking_number,
            timestamp,
            order_reference_number,
            buy_sell_indicator,
            shares,
            stock,
            price,
            attribution,
        },
    )
}

/// Writes `msg` at the cursor: `ADD_ORDER_WITH_MPID_SIZE` bytes where they fit.
/// The tag written is the type's own, whatever `msg.message_type` holds.
pub fn write_add_order_with_mpid_struct(
    wrt: &mut WriteCursor<'_>,
    msg: AddOrderWithMpid,
) -> (r: Result<(), EncodeError>)
    ensures
        final(wrt)@ == old(wrt)@.put(msg.encoded()),
        r is Ok <==> ADD_ORDER_WITH_MPID_SIZE <= old(wrt)@.room(),
{
    proof {
        use_type_invariant(&*wrt);
        wrt.lemma_inv();
        let v = wrt@;
        lemma_be_bytes_len(msg.stock_locate as nat, 2);
        lemma_be_bytes_len(msg.tracking_number as nat, 2);
        lemma_be_bytes_len(msg.timestamp as nat, 6);
        lemma_be_bytes_len(msg.order_reference_number as nat, 8);
        lemma_be_bytes_len(msg.shares as nat, 4);
        lemma_be_bytes_len(msg.price as nat, 4);
        let p0 = seq![AddOrderWithMpid::TYPE];
        v.lemma_put_put(p0, be_bytes(msg.stock_locate as nat, 2));
        let p1 = p0 + be_bytes(msg.stock_locate as nat, 2);
        v.lemma_put_put(p1, be_bytes(msg.tracking_number as nat, 2));
        let p2 = p1 + be_bytes(msg.tracking_number as nat, 2);
        v.lemma_put_put(p2, be_bytes(msg.timestamp as nat, 6));
        let p3 = p2 + be_bytes(msg.timestamp as nat, 6);
        v.lemma_put_put(p3, be_bytes(msg.order_reference_number as nat, 8));
        let p4 = p3 + be_bytes(msg.order_reference_number as nat, 8);
        v.lemma_put_put(p4, seq![msg.buy_sell_indicator.0]);
        let p5 = p4 + seq![msg.buy_sell_indicator.0];
        v.lemma_put_put(p5, be_bytes(msg.shares as nat, 4));
        let p6 = p5 + be_bytes(msg.shares as nat, 4);
        v.lemma_put_put(p6, msg.stock@);
        let p7 = p6 + msg.stock@;
        v.lemma_put_put(p7, be_bytes(msg.price as nat, 4));
        let p8 = p7 + be_bytes(msg.price as nat, 4);
        v.lemma_put_put(p8, msg.attribution@);
    }
    wrt.write_u8(AddOrderWithMpid::TYPE)?;
    wrt.write_u16(msg.stock_locate)?;
    wrt.write_u16(msg.tracking_number)?;
    wrt.write_u48(msg.timestamp)?;
    wrt.write_u64(msg.order_reference_number)?;
    wrt.write_u8(msg.buy_sell_indicator.0)?;
    wrt.write_u32(msg.shares)?;
    wrt.write_all(&msg.stock)?;
    wrt.write_u32(msg.price)?;
    wrt.write_all(&msg.attribution)?;
    Ok(())
}

/// Writes an [`OrderExecuted`] made of the given fields at the cursor.
pub fn write_order_executed(
    wrt: &mut WriteCursor<'_>,
    stock_locate: u16,
    tracking_number: u16,
    timestamp: u64,
    order_reference_number: u64,
    executed_shares: u32,
    match_number: u64,
) -> (r: Result<(), EncodeError>)
    ensures
        final(wrt)@ == old(wrt)@.put(
            (OrderExecuted {
                message_type: OrderExecuted::TYPE,
                stock_locate,
                tracking_number,
                timestamp,
                order_reference_number,
                executed_shares,
                match_number,
            }).encoded(),
        ),
        r is Ok <==> ORDER_EXECUTED_SIZE <= old(wrt)@.room(),
{
    write_order_executed_struct(
        wrt,
        OrderExecuted {
            message_type: OrderExecuted::TYPE,
            stock_locate,
            tracking_number,
            timestamp,
            order_reference_number,
            executed_shares,
            match_number,
        },
    )
}

/// Writes `msg` at the cursor: `ORDER_EXECUTED_SIZE` bytes where they fit. The
/// tag written is the type's own, whatever `msg.message_type` holds.
pub fn write_order_executed_struct(
    wrt: &mut WriteCursor<'_>,
    msg: OrderExecuted,
) -> (r: Result<(), EncodeError>)
    ensures
        final(wrt)@ == old(wrt)@.put(msg.encoded()),
        r is Ok <==> ORDER_EXECUTED_SIZE <= old(wrt)@.room(),
{
    proof {
        use_type_invariant(&*wrt);
        wrt.lemma_inv();
        let v = wrt@;
        lemma_be_bytes_len(msg.stock_locate as nat, 2);
        lemma_be_bytes_len(msg.tracking_number as nat, 2);
        lemma_be_bytes_len(msg.timestamp as nat, 6);
        lemma_be_bytes_len(msg.order_reference_number as nat, 8);
        lemma_be_bytes_len(msg.executed_shares as nat, 4);
        lemma_be_bytes_len(msg.match_number as nat, 8);
        let p0 = seq![OrderExecuted::TYPE];
        v.lemma_put_put(p0, be_bytes(msg.stock_locate as nat, 2));
        let p1 = p0 + be_bytes(msg.stock_locate as nat, 2);
        v.lemma_put_put(p1, be_bytes(msg.tracking_number as nat, 2));
        let p2 = p1 + be_bytes(msg.tracking_number as nat, 2);
        v.lemma_put_put(p2, be_bytes(msg.timestamp as nat, 6));
        let p3 = p2 + be_bytes(msg.timestamp as nat, 6);
        v.lemma_put_put(p3, be_bytes(msg.order_reference_number as nat, 8));
        let p4 = p3 + be_bytes(msg.order_reference_number as nat, 8);
        v.lemma_put_put(p4, be_bytes(msg.executed_shares as nat, 4));
        let p5 = p4 + be_bytes(msg.executed_shares as nat, 4);
        v.lemma_put_put(p5, be_bytes(msg.match_number as nat, 8));
    }
    wrt.write_u8(OrderExecuted::TYPE)?;
    wrt.write_u16(msg.stock_locate)?;
    wrt.write_u16(msg.tracking_number)?;
    wrt.write_u48(msg.timestamp)?;
    wrt.write_u64(msg.order_reference_number)?;
    wrt.write_u32(msg.executed_shares)?;
    wrt.write_u64(msg.match_number)?;
    Ok(())
}

/// Writes an [`OrderExecutedWithPrice`] made of the given fields at the cursor.
pub fn write_order_executed_with_price(
    wrt: &mut WriteCursor<'_>,
    stock_locate: u16,
    tracking_number: u16,
    timestamp: u64,
    order_reference_number: u64,
    executed_shares: u32,
    match_number: u64,
    printable: ePrintable,
    execution_price: u32,
) -> (r: Result<(), EncodeError>)
    ensures
        final(wrt)@ == old(wrt)@.put(
            (OrderExecutedWithPrice {
                message_type: OrderExecutedWithPrice::TYPE,
                stock_locate,
                tracking_number,
                timestamp,
                order_reference_number,
                executed_shares,
                match_number,
                printable,
                execution_price,
            }).encoded(),
        ),
        r is Ok <==> ORDER_EXECUTED_WITH_PRICE_SIZE <= old(wrt)@.room(),
{
    write_order_executed_with_price_struct(
        wrt,
        OrderExecutedWithPrice {
            message_type: OrderExecutedWithPrice::TYPE,
            stock_locate,
            tracking_number,
            timestamp,
            order_reference_number,
            executed_shares,
            match_number,
            printable,
            execution_price,
        },
    )
}

/// Writes `msg` at the cursor: `ORDER_EXECUTED_WITH_PRICE_SIZE` bytes where
/// they fit. The tag written is the type's own, whatever `msg.message_type`
/// holds.
pub fn write_order_executed_with_price_struct(
    wrt: &mut WriteCursor<'_>,
    msg: OrderExecutedWithPrice,
) -> (r: Result<(), EncodeError>)
    ensures
        final(wrt)@ == old(wrt)@.put(msg.encoded()),
        r is Ok <==> ORDER_EXECUTED_WITH_PRICE_SIZE <= old(wrt)@.room(),
{
    proof {
        use_type_invariant(&*wrt);
        wrt.lemma_inv();
        let v = wrt@;
        lemma_be_bytes_len(msg.stock_locate as nat, 2);
        lemma_be_bytes_len(msg.tracking_number as nat, 2);
        lemma_be_bytes_len(msg.timestamp as nat, 6);
        lemma_be_bytes_len(msg.order_reference_number as nat, 8);
        lemma_be_bytes_len(msg.executed_shares as nat, 4);
        lemma_be_bytes_len(msg.match_number as nat, 8);
        lemma_be_bytes_len(msg.execution_price as nat, 4);
        let p0 = seq![OrderExecutedWithPrice::TYPE];
        v.lemma_put_put(p0, be_bytes(msg.stock_locate as nat, 2));
        let p1 = p0 + be_bytes(msg.stock_locate as nat, 2);
        v.lemma_put_put(p1, be_bytes(msg.tracking_number as nat, 2));
        let p2 = p1 + be_bytes(msg.tracking_number as nat, 2);
        v.lemma_put_put(p2, be_bytes(msg.timestamp as nat, 6));
        let p3 = p2 + be_bytes(msg.timestamp as nat, 6);
        v.lemma_put_put(p3, be_bytes(msg.order_reference_number as nat, 8));
        let p4 = p3 + be_bytes(msg.order_reference_number as nat, 8);
        v.lemma_put_put(p4, be_bytes(msg.executed_shares as nat, 4));
        let p5 = p4 + be_bytes(msg.executed_shares as nat, 4);
        v.lemma_put_put(p5, be_bytes(msg.match_number as nat, 8));
        let p6 = p5 + be_bytes(msg.match_number as nat, 8);
        v.lemma_put_put(p6, seq![msg.printable.0]);
        let p7 = p6 + seq![msg.printable.0];
        v.lemma_put_put(p7, be_bytes(msg.execution_price as nat, 4));
    }
    wrt.write_u8(OrderExecutedWithPrice::TYPE)?;
    wrt.write_u16(msg.stock_locate)?;
    wrt.write_u16(msg.tracking_number)?;
    wrt.write_u48(msg.timestamp)?;
    wrt.write_u64(msg.order_reference_number)?;
    wrt.write_u32(msg.executed_shares)?;
    wrt.write_u64(msg.match_number)?;
    wrt.write_u8(msg.printable.0)?;
    wrt.write_u32(msg.execution_price)?;
    Ok(())
}

/// Writes an [`OrderCancel`] made of the given fields at the cursor.
pub fn write_order_cancel(
    wrt: &mut WriteCursor<'_>,
    stock_locate: u16,
    tracking_number: u16,
    timestamp: u64,
    order_reference_number: u64,
    cancelled_shares: u32,
) -> (r: Result<(), EncodeError>)
    ensures
        final(wrt)@ == old(wrt)@.put(
            (OrderCancel {
                message_type: OrderCancel::TYPE,
                stock_locate,
                tracking_number,
                timestamp,
                order_reference_number,
                cancelled_shares,
            }).encoded(),
        ),
        r is Ok <==> ORDER_CANCEL_SIZE <= old(wrt)@.room(),
{
    write_order_cancel_struct(
        wrt,
        OrderCancel {
            message_type: OrderCancel::TYPE,
            stock_locate,
            tracking_number,
            timestamp,
            order_reference_number,
            cancelled_shares,
        },
    )
}

/// Writes `msg` at the cursor: `ORDER_CANCEL_SIZE` bytes where they fit. The
/// tag written is the type's own, whatever `msg.message_type` holds.
pub fn write_order_cancel_struct(
    wrt: &mut WriteCursor<'_>,
    msg: OrderCancel,
) -> (r: Result<(), EncodeError>)
    ensures
        final(wrt)@ == old(wrt)@.put(msg.encoded()),
        r is Ok <==> ORDER_CANCEL_SIZE <= old(wrt)@.room(),
{
    proof {
        use_type_invariant(&*wrt);
        wrt.lemma_inv();
        let v = wrt@;
        lemma_be_bytes_len(msg.stock_locate as nat, 2);
        lemma_be_bytes_len(msg.tracking_number as nat, 2);
        lemma_be_bytes_len(msg.timestamp as nat, 6);
        lemma_be_bytes_len(msg.order_reference_number as nat, 8);
        lemma_be_bytes_len(msg.cancelled_shares as nat, 4);
        let p0 = seq![OrderCancel::TYPE];
        v.lemma_put_put(p0, be_bytes(msg.stock_locate as nat, 2));
        let p1 = p0 + be_bytes(msg.stock_locate as nat, 2);
        v.lemma_put_put(p1, be_bytes(msg.tracking_number as nat, 2));
        let p2 = p1 + be_bytes(msg.tracking_number as nat, 2);
        v.lemma_put_put(p2, be_bytes(msg.timestamp as nat, 6));
        let p3 = p2 + be_bytes(msg.timestamp as nat, 6);
        v.lemma_put_put(p3, be_bytes(msg.order_reference_number as nat, 8));
        let p4 = p3 + be_bytes(msg.order_reference_number as nat, 8);
        v.lemma_put_put(p4, be_bytes(msg.cancelled_shares as nat, 4));
    }
    wrt.write_u8(OrderCancel::TYPE)?;
    wrt.write_u16(msg.stock_locate)?;
    wrt.write_u16(msg.tracking_number)?;
    wrt.write_u48(msg.timestamp)?;
    wrt.write_u64(msg.order_reference_number)?;
    wrt.write_u32(msg.cancelled_shares)?;
    Ok(())
}

/// Writes an [`OrderDelete`] made of the given fields at the cursor.
pub fn write_order_delete(
    wrt: &mut WriteCursor<'_>,
    stock_locate: u16,
    tracking_number: u16,
    timestamp: u64,
    order_reference_number: u64,
) -> (r: Result<(), EncodeError>)
    ensures
        final(wrt)@ == old(wrt)@.put(
            (OrderDelete {
                message_type: OrderDelete::TYPE,
                stock_locate,
                tracking_number,
                timestamp,
                order_reference_number,
            }).encoded(),
        ),
        r is Ok <==> ORDER_DELETE_SIZE <= old(wrt)@.room(),
{
    write_order_delete_struct(
        wrt,
        OrderDelete {
            message_type: OrderDelete::TYPE,
            stock_locate,
            tracking_number,
            timestamp,
            order_reference_number,
        },
    )
}

/// Writes `msg` at the cursor: `ORDER_DELETE_SIZE` bytes where they fit. The
/// tag written is the type's own, whatever `msg.message_type` holds.
pub fn write_order_delete_struct(
    wrt: &mut WriteCursor<'_>,
    msg: OrderDelete,
) -> (r: Result<(), EncodeError>)
    ensures
        final(wrt)@ == old(wrt)@.put(msg.encoded()),
        r is Ok <==> ORDER_DELETE_SIZE <= old(wrt)@.room(),
{
    proof {
        use_type_invariant(&*wrt);
        wrt.lemma_inv();
        let v = wrt@;
        lemma_be_bytes_len(msg.stock_locate as nat, 2);
        lemma_be_bytes_len(msg.tracking_number as nat, 2);
        lemma_be_bytes_len(msg.timestamp as nat, 6);
        lemma_be_bytes_len(msg.order_reference_number as nat, 8);
        let p0 = seq![OrderDelete::TYPE];
        v.lemma_put_put(p0, be_bytes(msg.stock_locate as nat, 2));
        let p1 = p0 + be_bytes(msg.stock_locate as nat, 2);
        v.lemma_put_put(p1, be_bytes(msg.tracking_number as nat, 2));
        let p2 = p1 + be_bytes(msg.tracking_number as nat, 2);
        v.lemma_put_put(p2, be_bytes(msg.timestamp as nat, 6));
        let p3 = p2 + be_bytes(msg.timestamp as nat, 6);
        v.lemma_put_put(p3, be_bytes(msg.order_reference_number as nat, 8));
    }
    wrt.write_u8(OrderDelete::TYPE)?;
    wrt.write_u16(msg.stock_locate)?;
    wrt.write_u16(msg.tracking_number)?;
    wrt.write_u48(msg.timestamp)?;
    wrt.write_u64(msg.order_reference_number)?;
    Ok(())
}

/// Writes an [`OrderReplace`] made of the given fields at the cursor.
pub fn write_order_replace(
    wrt: &mut WriteCursor<'_>,
    stock_locate: u16,
    tracking_number: u16,
    timestamp: u64,
    original_order_reference_number: u64,
    new_order_reference_number: u64,
    shares: u32,
    price: u32,
) -> (r: Result<(), EncodeError>)
    ensures
        final(wrt)@ == old(wrt)@.put(
            (OrderReplace {
                message_type: OrderReplace::TYPE,
                stock_locate,
                tracking_number,
                timestamp,
                original_order_reference_number,
                new_order_reference_number,
                shares,
                price,
            }).encoded(),
        ),
        r is Ok <==> ORDER_REPLACE_SIZE <= old(wrt)@.room(),
{
    write_order_replace_struct(
        wrt,
        OrderReplace {
            message_type: OrderReplace::TYPE,
            stock_locate,
            tracking_number,
            timestamp,
            original_order_reference_number,
            new_order_reference_number,
            shares,
            price,
        },
    )
}

/// Writes `msg` at the cursor: `ORDER_REPLACE_SIZE` bytes where they fit. The
/// tag written is the type's own, whatever `msg.message_type` holds.
pub fn write_order_replace_struct(
    wrt: &mut WriteCursor<'_>,
    msg: OrderReplace,
) -> (r: Result<(), EncodeError>)
    ensures
        final(wrt)@ == old(wrt)@.put(msg.encoded()),
        r is Ok <==> ORDER_REPLACE_SIZE <= old(wrt)@.room(),
{
    proof {
        use_type_invariant(&*wrt);
        wrt.lemma_inv();
        let v = wrt@;
        lemma_be_bytes_len(msg.stock_locate as nat, 2);
        lemma_be_bytes_len(msg.tracking_number as nat, 2);
        lemma_be_bytes_len(msg.timestamp as nat, 6);
        lemma_be_bytes_len(msg.original_order_reference_number as nat, 8);
        lemma_be_bytes_len(msg.new_order_reference_number as nat, 8);
        lemma_be_bytes_len(msg.shares as nat, 4);
        lemma_be_bytes_len(msg.price as nat, 4);
        let p0 = seq![OrderReplace::TYPE];
        v.lemma_put_put(p0, be_bytes(msg.stock_locate as nat, 2));
        let p1 = p0 + be_bytes(msg.stock_locate as nat, 2);
        v.lemma_put_put(p1, be_bytes(msg.tracking_number as nat, 2));
        let p2 = p1 + be_bytes(msg.tracking_number as nat, 2);
        v.lemma_put_put(p2, be_bytes(msg.timestamp as nat, 6));
        let p3 = p2 + be_bytes(msg.timestamp as nat, 6);
        v.lemma_put_put(p3, be_bytes(msg.original_order_reference_number as nat, 8));
        let p4 = p3 + be_bytes(msg.original_order_reference_number as nat, 8);
        v.lemma_put_put(p4, be_bytes(msg.new_order_reference_number as nat, 8));
        let p5 = p4 + be_bytes(msg.new_order_reference_number as nat, 8);
        v.lemma_put_put(p5, be_bytes(msg.shares as nat, 4));
        let p6 = p5 + be_bytes(msg.shares as nat, 4);
        v.lemma_put_put(p6, be_bytes(msg.price as nat, 4));
    }
    wrt.write_u8(OrderReplace::TYPE)?;
    wrt.write_u16(msg.stock_locate)?;
    wrt.write_u16(msg.tracking_number)?;
    wrt.write_u48(msg.timestamp)?;
    wrt.write_u64(msg.original_order_reference_number)?;
    wrt.write_u64(msg.new_order_reference_number)?;
    wrt.write_u32(msg.shares)?;
    wrt.write_u32(msg.price)?;
    Ok(())
}

/// Writes a [`Trade`] made of the given fields at the cursor.
pub fn write_trade(
    wrt: &mut WriteCursor<'_>,
    stock_locate: u16,
    tracking_number: u16,
    timestamp: u64,
    order_reference_number: u64,
    buy_sell_indicator: eBuySellIndicator,
    shares: u32,
    stock: [u8; 8],
    price: u32,
    match_number: u64,
) -> (r: Result<(), EncodeError>)
    ensures
        final(wrt)@ == old(wrt)@.put(
            (Trade {
                message_type: Trade::TYPE,
                stock_locate,
                tracking_number,
                timestamp,
                order_reference_number,
                buy_sell_indicator,
                shares,
                stock,
                price,
                match_number,
            }).encoded(),
        ),
        r is Ok <==> TRADE_SIZE <= old(wrt)@.room(),
{
    write_trade_struct(
        wrt,
        Trade {
            message_type: Trade::TYPE,
            stock_locate,
            tracking_number,
            timestamp,
            order_reference_number,
            buy_sell_indicator,
            shares,
            stock,
            price,
            match_number,
        },
    )
}

/// Writes `msg` at the cursor: `TRADE_SIZE` bytes where they fit. The tag
/// written is the type's own, whatever `msg.message_type` holds.
pub fn write_trade_struct(
    wrt: &mut WriteCursor<'_>,
    msg: Trade,
) -> (r: Result<(), EncodeError>)
    ensures
        final(wrt)@ == old(wrt)@.put(msg.encoded()),
        r is Ok <==> TRADE_SIZE <= old(wrt)@.room(),
{
    proof {
        use_type_invariant(&*wrt);
        wrt.lemma_inv();
        let v = wrt@;
        lemma_be_bytes_len(msg.stock_locate as nat, 2);
        lemma_be_bytes_len(msg.tracking_number as nat, 2);
        lemma_be_bytes_len(msg.timestamp as nat, 6);
        lemma_be_bytes_len(msg.order_reference_number as nat, 8);
        lemma_be_bytes_len(msg.shares as nat, 4);
        lemma_be_bytes_len(msg.price as nat, 4);
        lemma_be_bytes_len(msg.match_number as nat, 8);
        let p0 = seq![Trade::TYPE];
        v.lemma_put_put(p0, be_bytes(msg.stock_locate as nat, 2));
        let p1 = p0 + be_bytes(msg.stock_locate as nat, 2);
        v.lemma_put_put(p1, be_bytes(msg.tracking_number as nat, 2));
        let p2 = p1 + be_bytes(msg.tracking_number as nat, 2);
        v.lemma_put_put(p2, be_bytes(msg.timestamp as nat, 6));
        let p3 = p2 + be_bytes(msg.timestamp as nat, 6);
        v.lemma_put_put(p3, be_bytes(msg.order_reference_number as nat, 8));
        let p4 = p3 + be_bytes(msg.order_reference_number as nat, 8);
        v.lemma_put_put(p4, seq![msg.buy_sell_indicator.0]);
        let p5 = p4 + seq![msg.buy_sell_indicator.0];
        v.lemma_put_put(p5, be_bytes(msg.shares as nat, 4));
        let p6 = p5 + be_bytes(msg.shares as nat, 4);
        v.lemma_put_put(p6, msg.stock@);
        let p7 = p6 + msg.stock@;
        v.lemma_put_put(p7, be_bytes(msg.price as nat, 4));
        let p8 = p7 + be_bytes(msg.price as nat, 4);
        v.lemma_put_put(p8, be_bytes(msg.match_number as nat, 8));
    }
    wrt.write_u8(Trade::TYPE)?;
    wrt.write_u16(msg.stock_locate)?;
    wrt.write_u16(msg.tracking_number)?;
    wrt.write_u48(msg.timestamp)?;
    wrt.write_u64(msg.order_reference_number)?;
    wrt.write_u8(msg.buy_sell_indicator.0)?;
    wrt.write_u32(msg.shares)?;
    wrt.write_all(&msg.stock)?;
    wrt.write_u32(msg.price)?;
    wrt.write_u64(msg.match_number)?;
    Ok(())
}

/// Writes a [`CrossTrade`] made of the given fields at the cursor.
pub fn write_cross_trade(
    wrt: &mut WriteCursor<'_>,
    stock_locate: u16,
    tracking_number: u16,
    timestamp: u64,
    shares: u64,
    stock: [u8; 8],
    cross_price: u32,
    match_number: u64,
    cross_type: eCrossType,
) -> (r: Result<(), EncodeError>)
    ensures
        final(wrt)@ == old(wrt)@.put(
            (CrossTrade {
                message_type: CrossTrade::TYPE,
                stock_locate,
                tracking_number,
                timestamp,
                shares,
                stock,
                cross_price,
                match_number,
                cross_type,
            }).encoded(),
        ),
        r is Ok <==> CROSS_TRADE_SIZE <= old(wrt)@.room(),
{
    write_cross_trade_struct(
        wrt,
        CrossTrade {
            message_type: CrossTrade::TYPE,
            stock_locate,
            tracking_number,
            timestamp,
            shares,
            stock,
            cross_price,
            match_number,
            cross_type,
        },
    )
}

/// Writes `msg` at the cursor: `CROSS_TRADE_SIZE` bytes where they fit. The tag
/// written is the type's own, whatever `msg.message_type` holds.
pub fn write_cross_trade_struct(
    wrt: &mut WriteCursor<'_>,
    msg: CrossTrade,
) -> (r: Result<(), EncodeError>)
    ensures
        final(wrt)@ == old(wrt)@.put(msg.encoded()),
        r is Ok <==> CROSS_TRADE_SIZE <= old(wrt)@.room(),
{
    proof {
        use_type_invariant(&*wrt);
        wrt.lemma_inv();
        let v = wrt@;
        lemma_be_bytes_len(msg.stock_locate as nat, 2);
        lemma_be_bytes_len(msg.tracking_number as nat, 2);
        lemma_be_bytes_len(msg.timestamp as nat, 6);
        lemma_be_bytes_len(msg.shares as nat, 8);
        lemma_be_bytes_len(msg.cross_price as nat, 4);
        lemma_be_bytes_len(msg.match_number as nat, 8);
        let p0 = seq![CrossTrade::TYPE];
        v.lemma_put_put(p0, be_bytes(msg.stock_locate as nat, 2));
        let p1 = p0 + be_bytes(msg.stock_locate as nat, 2);
        v.lemma_put_put(p1, be_bytes(msg.tracking_number as nat, 2));
        let p2 = p1 + be_bytes(msg.tracking_number as nat, 2);
        v.lemma_put_put(p2, be_bytes(msg.timestamp as nat, 6));
        let p3 = p2 + be_bytes(msg.timestamp as nat, 6);
        v.lemma_put_put(p3, be_bytes(msg.shares as nat, 8));
        let p4 = p3 + be_bytes(msg.shares as nat, 8);
        v.lemma_put_put(p4, msg.stock@);
        let p5 = p4 + msg.stock@;
        v.lemma_put_put(p5, be_bytes(msg.cross_price as nat, 4));
        let p6 = p5 + be_bytes(msg.cross_price as nat, 4);
        v.lemma_put_put(p6, be_bytes(msg.match_number as nat, 8));
        let p7 = p6 + be_bytes(msg.match_number as nat, 8);
        v.lemma_put_put(p7, seq![msg.cross_type.0]);
    }
    wrt.write_u8(CrossTrade::TYPE)?;
    wrt.write_u16(msg.stock_locate)?;
    wrt.write_u16(msg.tracking_number)?;
    wrt.write_u48(msg.timestamp)?;
    wrt.write_u64(msg.shares)?;
    wrt.write_all(&msg.stock)?;
    wrt.write_u32(msg.cross_price)?;
    wrt.write_u64(msg.match_number)?;
    wrt.write_u8(msg.cross_type.0)?;
    Ok(())
}

/// Writes a [`BrokenTrade`] made of the given fields at the cursor.
pub fn write_broken_trade(
    wrt: &mut WriteCursor<'_>,
    stock_locate: u16,
    tracking_number: u16,
    timestamp: u64,
    match_number: u64,
) -> (r: Result<(), EncodeError>)
    ensures
        final(wrt)@ == old(wrt)@.put(
            (BrokenTrade {
                message_type: BrokenTrade::TYPE,
                stock_locate,
                tracking_number,
                timestamp,
                match_number,
            }).encoded(),
        ),
        r is Ok <==> BROKEN_TRADE_SIZE <= old(wrt)@.room(),
{
    write_broken_trade_struct(
        wrt,
        BrokenTrade {
            message_type: BrokenTrade::TYPE,
            stock_locate,
            tracking_number,
            timestamp,
            match_number,
        },
    )
}

/// Writes `msg` at the cursor: `BROKEN_TRADE_SIZE` bytes where they fit. The
/// tag written is the type's own, whatever `msg.message_type` holds.
pub fn write_broken_trade_struct(
    wrt: &mut WriteCursor<'_>,
    msg: BrokenTrade,
) -> (r: Result<(), EncodeError>)
    ensures
        final(wrt)@ == old(wrt)@.put(msg.encoded()),
        r is Ok <==> BROKEN_TRADE_SIZE <= old(wrt)@.room(),
{
    proof {
        use_type_invariant(&*wrt);
        wrt.lemma_inv();
        let v = wrt@;
        lemma_be_bytes_len(msg.stock_locate as nat, 2);
        lemma_be_bytes_len(msg.tracking_number as nat, 2);
        lemma_be_bytes_len(msg.timestamp as nat, 6);
        lemma_be_bytes_len(msg.match_number as nat, 8);
        let p0 = seq![BrokenTrade::TYPE];
        v.lemma_put_put(p0, be_bytes(msg.stock_locate as nat, 2));
        let p1 = p0 + be_bytes(msg.stock_locate as nat, 2);
        v.lemma_put_put(p1, be_bytes(msg.tracking_number as nat, 2));
        let p2 = p1 + be_bytes(msg.tracking_number as nat, 2);
        v.lemma_put_put(p2, be_bytes(msg.timestamp as nat, 6));
        let p3 = p2 + be_bytes(msg.timestamp as nat, 6);
        v.lemma_put_put(p3, be_bytes(msg.match_number as nat, 8));
    }
    wrt.write_u8(BrokenTrade::TYPE)?;
    wrt.write_u16(msg.stock_locate)?;
    wrt.write_u16(msg.tracking_number)?;
    wrt.write_u48(msg.timestamp)?;
    wrt.write_u64(msg.match_number)?;
    Ok(())
}

/// Writes a [`NetOrderImbalanceIndicator`] made of the given fields at the
/// cursor.
pub fn write_net_order_imbalance_indicator(
    wrt: &mut WriteCursor<'_>,
    stock_locate: u16,
    tracking_number: u16,
    timestamp: u64,
    paired_shares: u64,
    imbalance_shares: u64,
    imbalance_direction: eImbalanceDirection,
    stock: [u8; 8],
    far_price: u32,
    near_price: u32,
    current_reference_price: u32,
    cross_type: eCrossType,
    price_variation_indicator: ePriceVariationIndicator,
) -> (r: Result<(), EncodeError>)
    ensures
        final(wrt)@ == old(wrt)@.put(
            (NetOrderImbalanceIndicator {
                message_type: NetOrderImbalanceIndicator::TYPE,
                stock_locate,
                tracking_number,
                timestamp,
                paired_shares,
                imbalance_shares,
                imbalance_direction,
                stock,
                far_price,
                near_price,
                current_reference_price,
                cross_type,
                price_variation_indicator,
            }).encoded(),
        ),
        r is Ok <==> NET_ORDER_IMBALANCE_INDICATOR_SIZE <= old(wrt)@.room(),
{
    write_net_order_imbalance_indicator_struct(
        wrt,
        NetOrderImbalanceIndicator {
            message_type: NetOrderImbalanceIndicator::TYPE,
            stock_locate,
            tracking_number,
            timestamp,
            paired_shares,
            imbalance_shares,
            imbalance_direction,
            stock,
            far_price,
            near_price,
            current_reference_price,
            cross_type,
            price_variation_indicator,
        },
    )
}

/// Writes `msg` at the cursor: `NET_ORDER_IMBALANCE_INDICATOR_SIZE` bytes where
/// they fit. The tag written is the type's own, whatever `msg.message_type`
/// holds.
pub fn write_net_order_imbalance_indicator_struct(
    wrt: &mut WriteCursor<'_>,
    msg: NetOrderImbalanceIndicator,
) -> (r: Result<(), EncodeError>)
    ensures
        final(wrt)@ == old(wrt)@.put(msg.encoded()),
        r is Ok <==> NET_ORDER_IMBALANCE_INDICATOR_SIZE <= old(wrt)@.room(),
{
    proof {
        use_type_invariant(&*wrt);
        wrt.lemma_inv();
        let v = wrt@;
        lemma_be_bytes_len(msg.stock_locate as nat, 2);
        lemma_be_bytes_len(msg.tracking_number as nat, 2);
        lemma_be_bytes_len(msg.timestamp as nat, 6);
        lemma_be_bytes_len(msg.paired_shares as nat, 8);
        lemma_be_bytes_len(msg.imbalance_shares as nat, 8);
        lemma_be_bytes_len(msg.far_price as nat, 4);
        lemma_be_bytes_len(msg.near_price as nat, 4);
        lemma_be_bytes_len(msg.current_reference_price as nat, 4);
        let p0 = seq![NetOrderImbalanceIndicator::TYPE];
        v.lemma_put_put(p0, be_bytes(msg.stock_locate as nat, 2));
        let p1 = p0 + be_bytes(msg.stock_locate as nat, 2);
        v.lemma_put_put(p1, be_bytes(msg.tracking_number as nat, 2));
        let p2 = p1 + be_bytes(msg.tracking_number as nat, 2);
        v.lemma_put_put(p2, be_bytes(msg.timestamp as nat, 6));
        let p3 = p2 + be_bytes(msg.timestamp as nat, 6);
        v.lemma_put_put(p3, be_bytes(msg.paired_shares as nat, 8));
        let p4 = p3 + be_bytes(msg.paired_shares as nat, 8);
        v.lemma_put_put(p4, be_bytes(msg.imbalance_shares as nat, 8));
        let p5 = p4 + be_bytes(msg.imbalance_shares as nat, 8);
        v.lemma_put_put(p5, seq![msg.imbalance_direction.0]);
        let p6 = p5 + seq![msg.imbalance_direction.0];
        v.lemma_put_put(p6, msg.stock@);
        let p7 = p6 + msg.stock@;
        v.lemma_put_put(p7, be_bytes(msg.far_price as nat, 4));
        let p8 = p7 + be_bytes(msg.far_price as nat, 4);
        v.lemma_put_put(p8, be_bytes(msg.near_price as nat, 4));
        let p9 = p8 + be_bytes(msg.near_price as nat, 4);
        v.lemma_put_put(p9, be_bytes(msg.current_reference_price as nat, 4));
        let p10 = p9 + be_bytes(msg.current_reference_price as nat, 4);
        v.lemma_put_put(p10, seq![msg.cross_type.0]);
        let p11 = p10 + seq![msg.cross_type.0];
        v.lemma_put_put(p11, seq![msg.price_variation_indicator.0]);
    }
    wrt.write_u8(NetOrderImbalanceIndicator::TYPE)?;
    wrt.write_u16(msg.stock_locate)?;
    wrt.write_u16(msg.tracking_number)?;
    wrt.write_u48(msg.timestamp)?;
    wrt.write_u64(msg.paired_shares)?;
    wrt.write_u64(msg.imbalance_shares)?;
    wrt.write_u8(msg.imbalance_direction.0)?;
    wrt.write_all(&msg.stock)?;
    wrt.write_u32(msg.far_price)?;
    wrt.write_u32(msg.near_price)?;
    wrt.write_u32(msg.current_reference_price)?;
    wrt.write_u8(msg.cross_type.0)?;
    wrt.write_u8(msg.price_variation_indicator.0)?;
    Ok(())
}

/// Writes a [`RetailPriceImprovementIndicator`] made of the given fields at the
/// cursor.
pub fn write_retail_price_improvement_indicator(
    wrt: &mut WriteCursor<'_>,
    stock_locate: u16,
    tracking_number: u16,
    timestamp: u64,
    stock: [u8; 8],
    interest_flag: eInterestFlag,
) -> (r: Result<(), EncodeError>)
    ensures
        final(wrt)@ == old(wrt)@.put(
            (RetailPriceImprovementIndicator {
                message_type: RetailPriceImprovementIndicator::TYPE,
                stock_locate,
                tracking_number,
                timestamp,
                stock,
                interest_flag,
            }).encoded(),
        ),
        r is Ok <==> RETAIL_PRICE_IMPROVEMENT_INDICATOR_SIZE <= old(wrt)@.room(),
{
    write_retail_price_improvement_indicator_struct(
        wrt,
        RetailPriceImprovementIndicator {
            message_type: RetailPriceImprovementIndicator::TYPE,
            stock_locate,
            tracking_number,
            timestamp,
            stock,
            interest_flag,
        },
    )
}

/// Writes `msg` at the cursor: `RETAIL_PRICE_IMPROVEMENT_INDICATOR_SIZE` bytes
/// where they fit. The tag written is the type's own, whatever
/// `msg.message_type` holds.
pub fn write_retail_price_improvement_indicator_struct(
    wrt: &mut WriteCursor<'_>,
    msg: RetailPriceImprovementIndicator,
) -> (r: Result<(), EncodeError>)
    ensures
        final(wrt)@ == old(wrt)@.put(msg.encoded()),
        r is Ok <==> RETAIL_PRICE_IMPROVEMENT_INDICATOR_SIZE <= old(wrt)@.room(),
{
    proof {
        use_type_invariant(&*wrt);
        wrt.lemma_inv();
        let v = wrt@;
        lemma_be_bytes_len(msg.stock_locate as nat, 2);
        lemma_be_bytes_len(msg.tracking_number as nat, 2);
        lemma_be_bytes_len(msg.timestamp as nat, 6);
        let p0 = seq![RetailPriceImprovementIndicator::TYPE];
        v.lemma_put_put(p0, be_bytes(msg.stock_locate as nat, 2));
        let p1 = p0 + be_bytes(msg.stock_locate as nat, 2);
        v.lemma_put_put(p1, be_bytes(msg.tracking_number as nat, 2));
        let p2 = p1 + be_bytes(msg.tracking_number as nat, 2);
        v.lemma_put_put(p2, be_bytes(msg.timestamp as nat, 6));
        let p3 = p2 + be_bytes(msg.timestamp as nat, 6);
        v.lemma_put_put(p3, msg.stock@);
        let p4 = p3 + msg.stock@;
        v.lemma_put_put(p4, seq![msg.interest_flag.0]);
    }
    wrt.write_u8(RetailPriceImprovementIndicator::TYPE)?;
    wrt.write_u16(msg.stock_locate)?;
    wrt.write_u16(msg.tracking_number)?;
    wrt.write_u48(msg.timestamp)?;
    wrt.write_all(&msg.stock)?;
    wrt.write_u8(msg.interest_flag.0)?;
    Ok(())
}

/// Writes an [`EndOfSnapshot`] made of the given fields at the cursor.
pub fn write_end_of_snapshot(
    wrt: &mut WriteCursor<'_>,
    sequence_number: [u8; 20],
) -> (r: Result<(), EncodeError>)
    ensures
        final(wrt)@ == old(wrt)@.put(
            (EndOfSnapshot {
                message_type: EndOfSnapshot::TYPE,
                sequence_number,
            }).encoded(),
        ),
        r is Ok <==> END_OF_SNAPSHOT_SIZE <= old(wrt)@.room(),
{
    write_end_of_snapshot_struct(
        wrt,
        EndOfSnapshot {
            message_type: EndOfSnapshot::TYPE,
            sequence_number,
        },
    )
}

/// Writes `msg` at the cursor: `END_OF_SNAPSHOT_SIZE` bytes where they fit. The
/// tag written is the type's own, whatever `msg.message_type` holds.
pub fn write_end_of_snapshot_struct(
    wrt: &mut WriteCursor<'_>,
    msg: EndOfSnapshot,
) -> (r: Result<(), EncodeError>)
    ensures
        final(wrt)@ == old(wrt)@.put(msg.encoded()),
        r is Ok <==> END_OF_SNAPSHOT_SIZE <= old(wrt)@.room(),
{
    proof {
        use_type_invariant(&*wrt);
        wrt.lemma_inv();
        let v = wrt@;
        let p0 = seq![EndOfSnapshot::TYPE];
        v.lemma_put_put(p0, msg.sequence_number@);
    }
    wrt.write_u8(EndOfSnapshot::TYPE)?;
    wrt.write_all(&msg.sequence_number)?;
    Ok(())
}

} // verus!
