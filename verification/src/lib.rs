//! A codec for a depth-of-market data feed and for the batch packets that
//! carry it.
//!
//! [`moldudp`] takes a batch packet apart into its messages and puts one
//! together; [`itch`] turns each message into a typed record and back. The
//! contracts are stated over byte sequences: [`bytes`] holds the arithmetic of
//! big-endian integers, [`cursor`] the positions in a buffer.

pub mod bytes;
pub mod cursor;
pub mod error;
pub mod itch;
pub mod moldudp;

pub use crate::itch::{
    ADD_ORDER_SIZE, ADD_ORDER_WITH_MPID_SIZE, AddOrder, AddOrderWithMpid, BROKEN_TRADE_SIZE,
    BrokenTrade, CROSS_TRADE_SIZE, CrossTrade, END_OF_SNAPSHOT_SIZE, EndOfSnapshot,
    IPO_QUOTING_PERIOD_UPDATE_SIZE, IpoQuotingPeriodUpdate, ItchHandler,
    LULD_AUCTION_COLLAR_SIZE, LuldAuctionCollar, MARKET_PARTICIPANT_POSITION_SIZE,
    MESSAGE_BLOCK_SIZE, MWCB_DECLINE_LEVEL_SIZE, MWCB_STATUS_SIZE, MarketParticipantPosition,
    Message, MessageBlock, MwcbDeclineLevel, MwcbStatus, NET_ORDER_IMBALANCE_INDICATOR_SIZE,
    NetOrderImbalanceIndicator, OPERATIONAL_HALT_SIZE, ORDER_CANCEL_SIZE, ORDER_DELETE_SIZE,
    ORDER_EXECUTED_SIZE, ORDER_EXECUTED_WITH_PRICE_SIZE, ORDER_REPLACE_SIZE, OperationalHalt,
    OrderCancel, OrderDelete, OrderExecuted, OrderExecutedWithPrice, OrderReplace,
    PACKET_HEADER_SIZE, PacketHeader, REG_SHO_RESTRICTION_SIZE, REQUEST_PACKET_SIZE,
    RETAIL_PRICE_IMPROVEMENT_INDICATOR_SIZE, RegShoRestriction, RequestPacket,
    RetailPriceImprovementIndicator, STOCK_DIRECTORY_SIZE, STOCK_TRADING_ACTION_SIZE,
    SYSTEM_EVENT_SIZE, StockDirectory, StockTradingAction, SystemEvent, TRADE_SIZE, Trade,
    crack_message, eAuthenticity, eBreachedLevel, eBuySellIndicator, eCrossType, eETPFlag,
    eFinancialStatusIndicator, eIPOFlag, eIPOQuotationReleaseQualifier, eImbalanceDirection,
    eInterestFlag, eInverseIndicator, eIssueClassification, eLULDReferencePriceTier,
    eMarketCategory, eMarketCode, eMarketMakerMode, eMarketParticipantState,
    eOperationalHaltAction, ePriceVariationIndicator, ePrimaryMarketMaker, ePrintable,
    eRegSHOAction, eRoundLotsOnly, eShortSaleThresholdIndicator, eSystemEvent, eTradingState,
    u48_to_u64, write_add_order, write_add_order_struct, write_add_order_with_mpid,
    write_add_order_with_mpid_struct, write_broken_trade, write_broken_trade_struct,
    write_cross_trade, write_cross_trade_struct, write_end_of_snapshot,
    write_end_of_snapshot_struct, write_ipo_quoting_period_update,
    write_ipo_quoting_period_update_struct, write_luld_auction_collar,
    write_luld_auction_collar_struct, write_market_participant_position,
    write_market_participant_position_struct, write_mwcb_decline_level,
    write_mwcb_decline_level_struct, write_mwcb_status, write_mwcb_status_struct,
    write_net_order_imbalance_indicator, write_net_order_imbalance_indicator_struct,
    write_operational_halt, write_operational_halt_struct, write_order_cancel,
    write_order_cancel_struct, write_order_delete, write_order_delete_struct,
    write_order_executed, write_order_executed_struct, write_order_executed_with_price,
    write_order_executed_with_price_struct, write_order_replace, write_order_replace_struct,
    write_reg_sho_restriction, write_reg_sho_restriction_struct,
    write_retail_price_improvement_indicator, write_retail_price_improvement_indicator_struct,
    write_stock_directory, write_stock_directory_struct, write_stock_trading_action,
    write_stock_trading_action_struct, write_system_event, write_system_event_struct,
    write_trade, write_trade_struct
};
