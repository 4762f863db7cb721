//! The message codec: the record types, their byte codes, and the functions
//! that turn bytes into records and records into bytes.

pub mod codes;
pub mod decode;
pub mod dispatch;
pub mod encode;
pub mod laws;
pub mod records;

use crate::bytes::{
    be_bytes, be_value, lemma_be_bytes_len, lemma_pow256_values, lemma_value_of_bytes,
    read_array6_at, u48_at,
};
pub use crate::itch::codes::{
    eAuthenticity, eBreachedLevel, eBuySellIndicator, eCrossType, eETPFlag,
    eFinancialStatusIndicator, eIPOFlag, eIPOQuotationReleaseQualifier, eImbalanceDirection,
    eInterestFlag, eInverseIndicator, eIssueClassification, eLULDReferencePriceTier,
    eMarketCategory, eMarketCode, eMarketMakerMode, eMarketParticipantState,
    eOperationalHaltAction, ePriceVariationIndicator, ePrimaryMarketMaker, ePrintable,
    eRegSHOAction, eRoundLotsOnly, eShortSaleThresholdIndicator, eSystemEvent, eTradingState
};
pub use crate::itch::dispatch::{
    ItchHandler, Message, crack_message
};
pub use crate::itch::encode::{
    write_add_order, write_add_order_struct, write_add_order_with_mpid,
    write_add_order_with_mpid_struct, write_broken_trade, write_broken_trade_struct,
    write_cross_trade, write_cross_trade_struct, write_end_of_snapshot,
    write_end_of_snapshot_struct, write_ipo_quoting_period_update,
    write_ipo_quoting_period_update_struct, write_luld_auction_collar,
    write_luld_auction_collar_struct, write_market_participant_position,
    write_market_participant_position_struct, write_mwcb_decline_level,
    write_mwcb_decline_level_struct, write_mwcb_status, write_mwcb_status_struct,
    write_net_order_imbalance_indicator, write_net_order_imbalance_indicator_struct,
    write_operational_halt, write_operational_halt_struct, write_order_cancel,
    write_order_cancel_struct, write_order_delete, write_order_delete_struct,
    write_order_executed, write_order_executed_struct, write_order_executed_with_price,
    write_order_executed_with_price_struct, write_order_replace, write_order_replace_struct,
    write_reg_sho_restriction, write_reg_sho_restriction_struct,
    write_retail_price_improvement_indicator, write_retail_price_improvement_indicator_struct,
    write_stock_directory, write_stock_directory_struct, write_stock_trading_action,
    write_stock_trading_action_struct, write_system_event, write_system_event_struct,
    write_trade, write_trade_struct
};
pub use crate::itch::records::{
    ADD_ORDER_SIZE, ADD_ORDER_WITH_MPID_SIZE, AddOrder, AddOrderWithMpid, BROKEN_TRADE_SIZE,
    BrokenTrade, CROSS_TRADE_SIZE, CrossTrade, END_OF_SNAPSHOT_SIZE, EndOfSnapshot,
    IPO_QUOTING_PERIOD_UPDATE_SIZE, IpoQuotingPeriodUpdate, LULD_AUCTION_COLLAR_SIZE,
    LuldAuctionCollar, MARKET_PARTICIPANT_POSITION_SIZE, MESSAGE_BLOCK_SIZE,
    MWCB_DECLINE_LEVEL_SIZE, MWCB_STATUS_SIZE, MarketParticipantPosition, MessageBlock,
    MwcbDeclineLevel, MwcbStatus, NET_ORDER_IMBALANCE_INDICATOR_SIZE,
    NetOrderImbalanceIndicator, OPERATIONAL_HALT_SIZE, ORDER_CANCEL_SIZE, ORDER_DELETE_SIZE,
    ORDER_EXECUTED_SIZE, ORDER_EXECUTED_WITH_PRICE_SIZE, ORDER_REPLACE_SIZE, OperationalHalt,
    OrderCancel, OrderDelete, OrderExecuted, OrderExecutedWithPrice, OrderReplace,
    PACKET_HEADER_SIZE, PacketHeader, REG_SHO_RESTRICTION_SIZE, REQUEST_PACKET_SIZE,
    RETAIL_PRICE_IMPROVEMENT_INDICATOR_SIZE, RegShoRestriction, RequestPacket,
    RetailPriceImprovementIndicator, STOCK_DIRECTORY_SIZE, STOCK_TRADING_ACTION_SIZE,
    SYSTEM_EVENT_SIZE, StockDirectory, StockTradingAction, SystemEvent, TRADE_SIZE, Trade
};
use vstd::prelude::*;

verus! {

/// The 48-bit big-endian number that the six bytes of `num` spell, widened to
/// 64 bits. The upper 16 bits of the result are zero.
pub fn u48_to_u64(num: &[u8; 6]) -> (r: u64)
    ensures
        r as nat == be_value(num@),
        r < 0x1_0000_0000_0000,
{
    let b0 = num[0] as u64;
    let b1 = num[1] as u64;
    let b2 = num[2] as u64;
    let b3 = num[3] as u64;
    let b4 = num[4] as u64;
    let b5 = num[5] as u64;
    proof {
        assert(b0 < 256 ==> b0 << 40 == b0 * 0x100_0000_0000) by (bit_vector);
        assert(b1 < 256 ==> b1 << 32 == b1 * 0x1_0000_0000) by (bit_vector);
        assert(b2 < 256 ==> b2 << 24 == b2 * 0x100_0000) by (bit_vector);
        assert(b3 < 256 ==> b3 << 16 == b3 * 0x1_0000) by (bit_vector);
        assert(b4 < 256 ==> b4 << 8 == b4 * 0x100) by (bit_vector);
        assert(b5 << 0 == b5) by (bit_vector);
        let s = num@;
        let s5 = s.drop_last();
        let s4 = s5.drop_last();
        let s3 = s4.drop_last();
        let s2 = s3.drop_last();
        let s1 = s2.drop_last();
        assert(be_value(s1.drop_last()) == 0);
        assert(be_value(s1) == b0);
        assert(be_value(s2) == be_value(s1) * 256 + b1);
        assert(be_value(s3) == be_value(s2) * 256 + b2);
        assert(be_value(s4) == be_value(s3) * 256 + b3);
        assert(be_value(s5) == be_value(s4) * 256 + b4);
        assert(be_value(s) == be_value(s5) * 256 + b5);
    }
    (b0 << 40) + (b1 << 32) + (b2 << 24) + (b3 << 16) + (b4 << 8) + (b5 << 0)
}

/// A timestamp written as six bytes and read back is itself where it is below
/// `2^48`, and else what its low 48 bits hold.
pub proof fn lemma_timestamp_round_trip(timestamp: u64)
    ensures
        u48_at(be_bytes(timestamp as nat, 6), 0) == timestamp % 0x1_0000_0000_0000,
        timestamp < 0x1_0000_0000_0000 ==> u48_at(be_bytes(timestamp as nat, 6), 0) == timestamp,
{
    let six = be_bytes(timestamp as nat, 6);
    lemma_be_bytes_len(timestamp as nat, 6);
    lemma_pow256_values();
    lemma_value_of_bytes(timestamp as nat, 6);
    assert(six.subrange(0, 6) =~= six);
}

/// Reads the 48-bit big-endian integer at `off`.
pub fn read_u48_at(bytes: &[u8], off: usize) -> (r: u64)
    requires
        off + 6 <= bytes@.len(),
    ensures
        r == u48_at(bytes@, off as int),
{
    let six = read_array6_at(bytes, off);
    assert(six@ =~= bytes@.subrange(off as int, off + 6));
    u48_to_u64(&six)
}

} // verus!
