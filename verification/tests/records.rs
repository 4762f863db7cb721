use itch_codec::cursor::{ReadCursor, WriteCursor};
use itch_codec::error::{DecodeError, EncodeError};
use itch_codec::itch::{
    ADD_ORDER_SIZE, ADD_ORDER_WITH_MPID_SIZE, AddOrder, AddOrderWithMpid, BROKEN_TRADE_SIZE,
    BrokenTrade, CROSS_TRADE_SIZE, CrossTrade, END_OF_SNAPSHOT_SIZE, EndOfSnapshot,
    IPO_QUOTING_PERIOD_UPDATE_SIZE, IpoQuotingPeriodUpdate, LULD_AUCTION_COLLAR_SIZE,
    LuldAuctionCollar, MARKET_PARTICIPANT_POSITION_SIZE, MESSAGE_BLOCK_SIZE,
    MWCB_DECLINE_LEVEL_SIZE, MWCB_STATUS_SIZE, MarketParticipantPosition, Message, MessageBlock,
    MwcbDeclineLevel, MwcbStatus, NET_ORDER_IMBALANCE_INDICATOR_SIZE,
    NetOrderImbalanceIndicator, OPERATIONAL_HALT_SIZE, ORDER_CANCEL_SIZE, ORDER_DELETE_SIZE,
    ORDER_EXECUTED_SIZE, ORDER_EXECUTED_WITH_PRICE_SIZE, ORDER_REPLACE_SIZE, OperationalHalt,
    OrderCancel, OrderDelete, OrderExecuted, OrderExecutedWithPrice, OrderReplace,
    PACKET_HEADER_SIZE, PacketHeader, REG_SHO_RESTRICTION_SIZE, REQUEST_PACKET_SIZE,
    RETAIL_PRICE_IMPROVEMENT_INDICATOR_SIZE, RegShoRestriction, RequestPacket,
    RetailPriceImprovementIndicator, STOCK_DIRECTORY_SIZE, STOCK_TRADING_ACTION_SIZE,
    SYSTEM_EVENT_SIZE, StockDirectory, StockTradingAction, SystemEvent, TRADE_SIZE, Trade,
    eAuthenticity, eBreachedLevel, eBuySellIndicator, eCrossType, eETPFlag,
    eFinancialStatusIndicator, eIPOFlag, eIPOQuotationReleaseQualifier, eImbalanceDirection,
    eInterestFlag, eInverseIndicator, eIssueClassification, eLULDReferencePriceTier,
    eMarketCategory, eMarketCode, eMarketMakerMode, eMarketParticipantState,
    eOperationalHaltAction, ePriceVariationIndicator, ePrimaryMarketMaker, ePrintable,
    eRegSHOAction, eRoundLotsOnly, eShortSaleThresholdIndicator, eSystemEvent, eTradingState,
    write_add_order, write_add_order_struct, write_add_order_with_mpid,
    write_add_order_with_mpid_struct, write_broken_trade, write_broken_trade_struct,
    write_cross_trade, write_cross_trade_struct, write_end_of_snapshot,
    write_end_of_snapshot_struct, write_ipo_quoting_period_update,
    write_ipo_quoting_period_update_struct, write_luld_auction_collar,
    write_luld_auction_collar_struct, write_market_participant_position,
    write_market_participant_position_struct, write_mwcb_decline_level,
    write_mwcb_decline_level_struct, write_mwcb_status, write_mwcb_status_struct,
    write_net_order_imbalance_indicator, write_net_order_imbalance_indicator_struct,
    write_operational_halt, write_operational_halt_struct, write_order_cancel,
    write_order_cancel_struct, write_order_delete, write_order_delete_struct,
    write_order_executed, write_order_executed_struct, write_order_executed_with_price,
    write_order_executed_with_price_struct, write_order_replace, write_order_replace_struct,
    write_reg_sho_restriction, write_reg_sho_restriction_struct,
    write_retail_price_improvement_indicator, write_retail_price_improvement_indicator_struct,
    write_stock_directory, write_stock_directory_struct, write_stock_trading_action,
    write_stock_trading_action_struct, write_system_event, write_system_event_struct,
    write_trade, write_trade_struct,
};

fn packet_header_sample() -> PacketHeader {
    PacketHeader {
        session: *b"YVFOVVGIHC",
        sequence_number: 0xbb8a4bf569b058be,
        message_count: 0xeaf9,
    }
}

const PACKET_HEADER_BYTES: [u8; 20] = [
    0x59, 0x56, 0x46, 0x4f, 0x56, 0x56, 0x47, 0x49, 0x48, 0x43, 0xbb, 0x8a, 0x4b, 0xf5,
    0x69, 0xb0, 0x58, 0xbe, 0xea, 0xf9
];

#[test]
fn packet_header_decodes_from_its_bytes() {
    assert_eq!(PACKET_HEADER_SIZE, 20);
    assert_eq!(PacketHeader::from_bytes(&PACKET_HEADER_BYTES), Some((packet_header_sample(), 20)));
    let mut longer = PACKET_HEADER_BYTES.to_vec();
    longer.extend_from_slice(b"trailing");
    assert_eq!(PacketHeader::from_bytes(&longer), Some((packet_header_sample(), 20)));
    assert_eq!(PacketHeader::from_bytes(&PACKET_HEADER_BYTES[..19]), None);
    assert_eq!(PacketHeader::from_bytes(b""), None);
}

#[test]
fn packet_header_decodes_at_a_cursor() {
    let mut twice = PACKET_HEADER_BYTES.to_vec();
    twice.extend_from_slice(&PACKET_HEADER_BYTES);
    twice.pop();
    let mut rdr = ReadCursor::new(&twice);
    assert_eq!(PacketHeader::from_cursor(&mut rdr), Ok(packet_header_sample()));
    assert_eq!(rdr.position(), 20);
    assert_eq!(PacketHeader::from_cursor(&mut rdr), Err(DecodeError::Truncated));
    assert_eq!(rdr.position(), 20);
}

fn message_block_sample() -> MessageBlock {
    MessageBlock {
        message_length: 0x929d,
    }
}

const MESSAGE_BLOCK_BYTES: [u8; 2] = [
    0x92, 0x9d
];

#[test]
fn message_block_decodes_from_its_bytes() {
    assert_eq!(MESSAGE_BLOCK_SIZE, 2);
    assert_eq!(MessageBlock::from_bytes(&MESSAGE_BLOCK_BYTES), Some((message_block_sample(), 2)));
    let mut longer = MESSAGE_BLOCK_BYTES.to_vec();
    longer.extend_from_slice(b"trailing");
    assert_eq!(MessageBlock::from_bytes(&longer), Some((message_block_sample(), 2)));
    assert_eq!(MessageBlock::from_bytes(&MESSAGE_BLOCK_BYTES[..1]), None);
    assert_eq!(MessageBlock::from_bytes(b""), None);
}

#[test]
fn message_block_decodes_at_a_cursor() {
    let mut twice = MESSAGE_BLOCK_BYTES.to_vec();
    twice.extend_from_slice(&MESSAGE_BLOCK_BYTES);
    twice.pop();
    let mut rdr = ReadCursor::new(&twice);
    assert_eq!(MessageBlock::from_cursor(&mut rdr), Ok(message_block_sample()));
    assert_eq!(rdr.position(), 2);
    assert_eq!(MessageBlock::from_cursor(&mut rdr), Err(DecodeError::Truncated));
    assert_eq!(rdr.position(), 2);
}

fn request_packet_sample() -> RequestPacket {
    RequestPacket {
        session: *b"ZOXJNWFTLS",
        sequence_number: *b"GSBOMHOB",
        requested_message_count: 0xe15e,
    }
}

const REQUEST_PACKET_BYTES: [u8; 20] = [
    0x5a, 0x4f, 0x58, 0x4a, 0x4e, 0x57, 0x46, 0x54, 0x4c, 0x53, 0x47, 0x53, 0x42, 0x4f,
    0x4d, 0x48, 0x4f, 0x42, 0xe1, 0x5e
];

#[test]
fn request_packet_decodes_from_its_bytes() {
    assert_eq!(REQUEST_PACKET_SIZE, 20);
    assert_eq!(RequestPacket::from_bytes(&REQUEST_PACKET_BYTES), Some((request_packet_sample(), 20)));
    let mut longer = REQUEST_PACKET_BYTES.to_vec();
    longer.extend_from_slice(b"trailing");
    assert_eq!(RequestPacket::from_bytes(&longer), Some((request_packet_sample(), 20)));
    assert_eq!(RequestPacket::from_bytes(&REQUEST_PACKET_BYTES[..19]), None);
    assert_eq!(RequestPacket::from_bytes(b""), None);
}

#[test]
fn request_packet_decodes_at_a_cursor() {
    let mut twice = REQUEST_PACKET_BYTES.to_vec();
    twice.extend_from_slice(&REQUEST_PACKET_BYTES);
    twice.pop();
    let mut rdr = ReadCursor::new(&twice);
    assert_eq!(RequestPacket::from_cursor(&mut rdr), Ok(request_packet_sample()));
    assert_eq!(rdr.position(), 20);
    assert_eq!(RequestPacket::from_cursor(&mut rdr), Err(DecodeError::Truncated));
    assert_eq!(rdr.position(), 20);
}

fn system_event_sample() -> SystemEvent {
    SystemEvent {
        message_type: b'S',
        stock_locate: 0xfecb,
        tracking_number: 0xb3fa,
        timestamp: 0xdbd7aec14aac,
        event_code: eSystemEvent(eSystemEvent::End_of_Messages),
    }
}

const SYSTEM_EVENT_BYTES: [u8; 12] = [
    0x53, 0xfe, 0xcb, 0xb3, 0xfa, 0xdb, 0xd7, 0xae, 0xc1, 0x4a, 0xac, 0x43
];

#[test]
fn system_event_decodes_from_its_bytes() {
    assert_eq!(SYSTEM_EVENT_SIZE, 12);
    assert_eq!(SystemEvent::from_bytes(&SYSTEM_EVENT_BYTES), Some((system_event_sample(), 12)));
    let mut longer = SYSTEM_EVENT_BYTES.to_vec();
    longer.extend_from_slice(b"trailing");
    assert_eq!(SystemEvent::from_bytes(&longer), Some((system_event_sample(), 12)));
    assert_eq!(SystemEvent::from_bytes(&SYSTEM_EVENT_BYTES[..11]), None);
    assert_eq!(SystemEvent::from_bytes(b""), None);
}

#[test]
fn system_event_decodes_at_a_cursor() {
    let mut twice = SYSTEM_EVENT_BYTES.to_vec();
    twice.extend_from_slice(&SYSTEM_EVENT_BYTES);
    twice.pop();
    let mut rdr = ReadCursor::new(&twice);
    assert_eq!(SystemEvent::from_cursor(&mut rdr), Ok(system_event_sample()));
    assert_eq!(rdr.position(), 12);
    assert_eq!(SystemEvent::from_cursor(&mut rdr), Err(DecodeError::Truncated));
    assert_eq!(rdr.position(), 12);
}

#[test]
fn system_event_encodes_to_its_bytes() {
    let mut buf = [0u8; 12];
    let mut cursor = WriteCursor::new(&mut buf);
    assert_eq!(write_system_event_struct(&mut cursor, system_event_sample()), Ok(()));
    assert_eq!(cursor.position(), 12);
    assert_eq!(buf, SYSTEM_EVENT_BYTES);

    let m = system_event_sample();
    let mut buf = [0u8; 15];
    let mut cursor = WriteCursor::new(&mut buf);
    cursor.write_u8(0xee).unwrap();
    let r = write_system_event(
        &mut cursor,
        m.stock_locate,
        m.tracking_number,
        m.timestamp,
        m.event_code,
    );
    assert_eq!(r, Ok(()));
    assert_eq!(cursor.position(), 13);
    assert_eq!(buf[0], 0xee);
    assert_eq!(buf[1..13], SYSTEM_EVENT_BYTES);
    assert_eq!(buf[13..], [0, 0]);
}

#[test]
fn system_event_does_not_fit_in_one_byte_less() {
    let mut buf = [0u8; 11];
    let mut cursor = WriteCursor::new(&mut buf);
    assert_eq!(write_system_event_struct(&mut cursor, system_event_sample()), Err(EncodeError::BufferFull));
    assert_eq!(cursor.position(), 11);
    assert_eq!(buf, SYSTEM_EVENT_BYTES[..11]);
}

#[test]
fn system_event_is_picked_by_its_tag() {
    assert_eq!(SystemEvent::TYPE, b'S');
    assert_eq!(Message::from_bytes(&SYSTEM_EVENT_BYTES), Ok(Message::SystemEvent(system_event_sample())));
    assert_eq!(
        Message::from_bytes(&SYSTEM_EVENT_BYTES[..11]),
        Err(DecodeError::Truncated)
    );
}

#[test]
fn system_event_default_is_all_zero() {
    let mut zeros = [0u8; 12];
    assert_eq!(SystemEvent::from_bytes(&zeros), Some((SystemEvent::default(), 12)));
    let mut buf = [0xffu8; 12];
    let mut cursor = WriteCursor::new(&mut buf);
    write_system_event_struct(&mut cursor, SystemEvent::default()).unwrap();
    zeros[0] = SystemEvent::TYPE;
    assert_eq!(buf, zeros);
}

fn stock_directory_sample() -> StockDirectory {
    StockDirectory {
        message_type: b'R',
        stock_locate: 0xd1ee,
        tracking_number: 0xe015,
        timestamp: 0xc4ecc99c8622,
        stock: *b"NDXGXFDT",
        market_category: eMarketCategory(eMarketCategory::BATS_Z_Exchange),
        financial_status_indicator: eFinancialStatusIndicator(eFinancialStatusIndicator::Suspended),
        round_lot_size: 0xb9ba4111,
        round_lots_only: eRoundLotsOnly(eRoundLotsOnly::Accepts_Round_Lots),
        issue_classification: eIssueClassification(eIssueClassification::Rule_144A),
        issue_sub_type: *b"ED",
        authenticity: eAuthenticity(eAuthenticity::Test),
        short_sale_threshold_indicator: eShortSaleThresholdIndicator(eShortSaleThresholdIndicator::Not_Restricted),
        ipo_flag: eIPOFlag(eIPOFlag::New_IPO_Security),
        luld_reference_price_tier: eLULDReferencePriceTier(eLULDReferencePriceTier::Not_available),
        etp_flag: eETPFlag(eETPFlag::Instrument_is_not_an_ETP),
        etp_leverage_factor: 0x8a12643e,
        inverse_indicator: eInverseIndicator(eInverseIndicator::ETP_is_not_an_Inverse_ETP),
    }
}

const STOCK_DIRECTORY_BYTES: [u8; 39] = [
    0x52, 0xd1, 0xee, 0xe0, 0x15, 0xc4, 0xec, 0xc9, 0x9c, 0x86, 0x22, 0x4e, 0x44, 0x58,
    0x47, 0x58, 0x46, 0x44, 0x54, 0x5a, 0x53, 0xb9, 0xba, 0x41, 0x11, 0x4e, 0x49, 0x45,
    0x44, 0x54, 0x4e, 0x59, 0x20, 0x4e, 0x8a, 0x12, 0x64, 0x3e, 0x4e
];

#[test]
fn stock_directory_decodes_from_its_bytes() {
    assert_eq!(STOCK_DIRECTORY_SIZE, 39);
    assert_eq!(StockDirectory::from_bytes(&STOCK_DIRECTORY_BYTES), Some((stock_directory_sample(), 39)));
    let mut longer = STOCK_DIRECTORY_BYTES.to_vec();
    longer.extend_from_slice(b"trailing");
    assert_eq!(StockDirectory::from_bytes(&longer), Some((stock_directory_sample(), 39)));
    assert_eq!(StockDirectory::from_bytes(&STOCK_DIRECTORY_BYTES[..38]), None);
    assert_eq!(StockDirectory::from_bytes(b""), None);
}

#[test]
fn stock_directory_decodes_at_a_cursor() {
    let mut twice = STOCK_DIRECTORY_BYTES.to_vec();
    twice.extend_from_slice(&STOCK_DIRECTORY_BYTES);
    twice.pop();
    let mut rdr = ReadCursor::new(&twice);
    assert_eq!(StockDirectory::from_cursor(&mut rdr), Ok(stock_directory_sample()));
    assert_eq!(rdr.position(), 39);
    assert_eq!(StockDirectory::from_cursor(&mut rdr), Err(DecodeError::Truncated));
    assert_eq!(rdr.position(), 39);
}

#[test]
fn stock_directory_encodes_to_its_bytes() {
    let mut buf = [0u8; 39];
    let mut cursor = WriteCursor::new(&mut buf);
    assert_eq!(write_stock_directory_struct(&mut cursor, stock_directory_sample()), Ok(()));
    assert_eq!(cursor.position(), 39);
    assert_eq!(buf, STOCK_DIRECTORY_BYTES);

    let m = stock_directory_sample();
    let mut buf = [0u8; 42];
    let mut cursor = WriteCursor::new(&mut buf);
    cursor.write_u8(0xee).unwrap();
    let r = write_stock_directory(
        &mut cursor,
        m.stock_locate,
        m.tracking_number,
        m.timestamp,
        m.stock,
        m.market_category,
        m.financial_status_indicator,
        m.round_lot_size,
        m.round_lots_only,
        m.issue_classification,
        m.issue_sub_type,
        m.authenticity,
        m.short_sale_threshold_indicator,
        m.ipo_flag,
        m.luld_reference_price_tier,
        m.etp_flag,
        m.etp_leverage_factor,
        m.inverse_indicator,
    );
    assert_eq!(r, Ok(()));
    assert_eq!(cursor.position(), 40);
    assert_eq!(buf[0], 0xee);
    assert_eq!(buf[1..40], STOCK_DIRECTORY_BYTES);
    assert_eq!(buf[40..], [0, 0]);
}

#[test]
fn stock_directory_does_not_fit_in_one_byte_less() {
    let mut buf = [0u8; 38];
    let mut cursor = WriteCursor::new(&mut buf);
    assert_eq!(write_stock_directory_struct(&mut cursor, stock_directory_sample()), Err(EncodeError::BufferFull));
    assert_eq!(cursor.position(), 38);
    assert_eq!(buf, STOCK_DIRECTORY_BYTES[..38]);
}

#[test]
fn stock_directory_is_picked_by_its_tag() {
    assert_eq!(StockDirectory::TYPE, b'R');
    assert_eq!(Message::from_bytes(&STOCK_DIRECTORY_BYTES), Ok(Message::StockDirectory(stock_directory_sample())));
    assert_eq!(
        Message::from_bytes(&STOCK_DIRECTORY_BYTES[..38]),
        Err(DecodeError::Truncated)
    );
}

#[test]
fn stock_directory_default_is_all_zero() {
    let mut zeros = [0u8; 39];
    assert_eq!(StockDirectory::from_bytes(&zeros), Some((StockDirectory::default(), 39)));
    let mut buf = [0xffu8; 39];
    let mut cursor = WriteCursor::new(&mut buf);
    write_stock_directory_struct(&mut cursor, StockDirectory::default()).unwrap();
    zeros[0] = StockDirectory::TYPE;
    assert_eq!(buf, zeros);
}

fn stock_trading_action_sample() -> StockTradingAction {
    StockTradingAction {
        message_type: b'H',
        stock_locate: 0xe867,
        tracking_number: 0x9edf,
        timestamp: 0x859b3de32e88,
        stock: *b"YZPRVUMW",
        trading_state: eTradingState(eTradingState::Quotation_only),
        reserved: 0x37,
        reason: *b"OSFY",
    }
}

const STOCK_TRADING_ACTION_BYTES: [u8; 25] = [
    0x48, 0xe8, 0x67, 0x9e, 0xdf, 0x85, 0x9b, 0x3d, 0xe3, 0x2e, 0x88, 0x59, 0x5a, 0x50,
    0x52, 0x56, 0x55, 0x4d, 0x57, 0x51, 0x37, 0x4f, 0x53, 0x46, 0x59
];

#[test]
fn stock_trading_action_decodes_from_its_bytes() {
    assert_eq!(STOCK_TRADING_ACTION_SIZE, 25);
    assert_eq!(StockTradingAction::from_bytes(&STOCK_TRADING_ACTION_BYTES), Some((stock_trading_action_sample(), 25)));
    let mut longer = STOCK_TRADING_ACTION_BYTES.to_vec();
    longer.extend_from_slice(b"trailing");
    assert_eq!(StockTradingAction::from_bytes(&longer), Some((stock_trading_action_sample(), 25)));
    assert_eq!(StockTradingAction::from_bytes(&STOCK_TRADING_ACTION_BYTES[..24]), None);
    assert_eq!(StockTradingAction::from_bytes(b""), None);
}

#[test]
fn stock_trading_action_decodes_at_a_cursor() {
    let mut twice = STOCK_TRADING_ACTION_BYTES.to_vec();
    twice.extend_from_slice(&STOCK_TRADING_ACTION_BYTES);
    twice.pop();
    let mut rdr = ReadCursor::new(&twice);
    assert_eq!(StockTradingAction::from_cursor(&mut rdr), Ok(stock_trading_action_sample()));
    assert_eq!(rdr.position(), 25);
    assert_eq!(StockTradingAction::from_cursor(&mut rdr), Err(DecodeError::Truncated));
    assert_eq!(rdr.position(), 25);
}

#[test]
fn stock_trading_action_encodes_to_its_bytes() {
    let mut buf = [0u8; 25];
    let mut cursor = WriteCursor::new(&mut buf);
    assert_eq!(write_stock_trading_action_struct(&mut cursor, stock_trading_action_sample()), Ok(()));
    assert_eq!(cursor.position(), 25);
    assert_eq!(buf, STOCK_TRADING_ACTION_BYTES);

    let m = stock_trading_action_sample();
    let mut buf = [0u8; 28];
    let mut cursor = WriteCursor::new(&mut buf);
    cursor.write_u8(0xee).unwrap();
    let r = write_stock_trading_action(
        &mut cursor,
        m.stock_locate,
        m.tracking_number,
        m.timestamp,
        m.stock,
        m.trading_state,
        m.reserved,
        m.reason,
    );
    assert_eq!(r, Ok(()));
    assert_eq!(cursor.position(), 26);
    assert_eq!(buf[0], 0xee);
    assert_eq!(buf[1..26], STOCK_TRADING_ACTION_BYTES);
    assert_eq!(buf[26..], [0, 0]);
}

#[test]
fn stock_trading_action_does_not_fit_in_one_byte_less() {
    let mut buf = [0u8; 24];
    let mut cursor = WriteCursor::new(&mut buf);
    assert_eq!(write_stock_trading_action_struct(&mut cursor, stock_trading_action_sample()), Err(EncodeError::BufferFull));
    assert_eq!(cursor.position(), 24);
    assert_eq!(buf, STOCK_TRADING_ACTION_BYTES[..24]);
}

#[test]
fn stock_trading_action_is_picked_by_its_tag() {
    assert_eq!(StockTradingAction::TYPE, b'H');
    assert_eq!(Message::from_bytes(&STOCK_TRADING_ACTION_BYTES), Ok(Message::StockTradingAction(stock_trading_action_sample())));
    assert_eq!(
        Message::from_bytes(&STOCK_TRADING_ACTION_BYTES[..24]),
        Err(DecodeError::Truncated)
    );
}

#[test]
fn stock_trading_action_default_is_all_zero() {
    let mut zeros = [0u8; 25];
    assert_eq!(StockTradingAction::from_bytes(&zeros), Some((StockTradingAction::default(), 25)));
    let mut buf = [0xffu8; 25];
    let mut cursor = WriteCursor::new(&mut buf);
    write_stock_trading_action_struct(&mut cursor, StockTradingAction::default()).unwrap();
    zeros[0] = StockTradingAction::TYPE;
    assert_eq!(buf, zeros);
}

fn reg_sho_restriction_sample() -> RegShoRestriction {
    RegShoRestriction {
        message_type: b'Y',
        stock_locate: 0xc3a3,
        tracking_number: 0x8fbd,
        timestamp: 0xa1bfb3387107,
        stock: *b"YVFOVVGI",
        reg_sho_action: eRegSHOAction(eRegSHOAction::Reg_SHO_Short_Sale_Price_Test_Restriction_remains_in_effect),
    }
}

const REG_SHO_RESTRICTION_BYTES: [u8; 20] = [
    0x59, 0xc3, 0xa3, 0x8f, 0xbd, 0xa1, 0xbf, 0xb3, 0x38, 0x71, 0x07, 0x59, 0x56, 0x46,
    0x4f, 0x56, 0x56, 0x47, 0x49, 0x32
];

#[test]
fn reg_sho_restriction_decodes_from_its_bytes() {
    assert_eq!(REG_SHO_RESTRICTION_SIZE, 20);
    assert_eq!(RegShoRestriction::from_bytes(&REG_SHO_RESTRICTION_BYTES), Some((reg_sho_restriction_sample(), 20)));
    let mut longer = REG_SHO_RESTRICTION_BYTES.to_vec();
    longer.extend_from_slice(b"trailing");
    assert_eq!(RegShoRestriction::from_bytes(&longer), Some((reg_sho_restriction_sample(), 20)));
    assert_eq!(RegShoRestriction::from_bytes(&REG_SHO_RESTRICTION_BYTES[..19]), None);
    assert_eq!(RegShoRestriction::from_bytes(b""), None);
}

#[test]
fn reg_sho_restriction_decodes_at_a_cursor() {
    let mut twice = REG_SHO_RESTRICTION_BYTES.to_vec();
    twice.extend_from_slice(&REG_SHO_RESTRICTION_BYTES);
    twice.pop();
    let mut rdr = ReadCursor::new(&twice);
    assert_eq!(RegShoRestriction::from_cursor(&mut rdr), Ok(reg_sho_restriction_sample()));
    assert_eq!(rdr.position(), 20);
    assert_eq!(RegShoRestriction::from_cursor(&mut rdr), Err(DecodeError::Truncated));
    assert_eq!(rdr.position(), 20);
}

#[test]
fn reg_sho_restriction_encodes_to_its_bytes() {
    let mut buf = [0u8; 20];
    let mut cursor = WriteCursor::new(&mut buf);
    assert_eq!(write_reg_sho_restriction_struct(&mut cursor, reg_sho_restriction_sample()), Ok(()));
    assert_eq!(cursor.position(), 20);
    assert_eq!(buf, REG_SHO_RESTRICTION_BYTES);

    let m = reg_sho_restriction_sample();
    let mut buf = [0u8; 23];
    let mut cursor = WriteCursor::new(&mut buf);
    cursor.write_u8(0xee).unwrap();
    let r = write_reg_sho_restriction(
        &mut cursor,
        m.stock_locate,
        m.tracking_number,
        m.timestamp,
        m.stock,
        m.reg_sho_action,
    );
    assert_eq!(r, Ok(()));
    assert_eq!(cursor.position(), 21);
    assert_eq!(buf[0], 0xee);
    assert_eq!(buf[1..21], REG_SHO_RESTRICTION_BYTES);
    assert_eq!(buf[21..], [0, 0]);
}

#[test]
fn reg_sho_restriction_does_not_fit_in_one_byte_less() {
    let mut buf = [0u8; 19];
    let mut cursor = WriteCursor::new(&mut buf);
    assert_eq!(write_reg_sho_restriction_struct(&mut cursor, reg_sho_restriction_sample()), Err(EncodeError::BufferFull));
    assert_eq!(cursor.position(), 19);
    assert_eq!(buf, REG_SHO_RESTRICTION_BYTES[..19]);
}

#[test]
fn reg_sho_restriction_is_picked_by_its_tag() {
    assert_eq!(RegShoRestriction::TYPE, b'Y');
    assert_eq!(Message::from_bytes(&REG_SHO_RESTRICTION_BYTES), Ok(Message::RegShoRestriction(reg_sho_restriction_sample())));
    assert_eq!(
        Message::from_bytes(&REG_SHO_RESTRICTION_BYTES[..19]),
        Err(DecodeError::Truncated)
    );
}

#[test]
fn reg_sho_restriction_default_is_all_zero() {
    let mut zeros = [0u8; 20];
    assert_eq!(RegShoRestriction::from_bytes(&zeros), Some((RegShoRestriction::default(), 20)));
    let mut buf = [0xffu8; 20];
    let mut cursor = WriteCursor::new(&mut buf);
    write_reg_sho_restriction_struct(&mut cursor, RegShoRestriction::default()).unwrap();
    zeros[0] = RegShoRestriction::TYPE;
    assert_eq!(buf, zeros);
}

fn market_participant_position_sample() -> MarketParticipantPosition {
    MarketParticipantPosition {
        message_type: b'L',
        stock_locate: 0x82bb,
        tracking_number: 0x8a4b,
        timestamp: 0xf569b058be6a,
        mpid: *b"PQBZ",
        stock: *b"OXJNWFTL",
        primary_market_maker: ePrimaryMarketMaker(ePrimaryMarketMaker::primary_market_maker),
        market_maker_mode: eMarketMakerMode(eMarketMakerMode::syndicate),
        market_participant_state: eMarketParticipantState(eMarketParticipantState::Active),
    }
}

const MARKET_PARTICIPANT_POSITION_BYTES: [u8; 26] = [
    0x4c, 0x82, 0xbb, 0x8a, 0x4b, 0xf5, 0x69, 0xb0, 0x58, 0xbe, 0x6a, 0x50, 0x51, 0x42,
    0x5a, 0x4f, 0x58, 0x4a, 0x4e, 0x57, 0x46, 0x54, 0x4c, 0x59, 0x53, 0x41
];

#[test]
fn market_participant_position_decodes_from_its_bytes() {
    assert_eq!(MARKET_PARTICIPANT_POSITION_SIZE, 26);
    assert_eq!(MarketParticipantPosition::from_bytes(&MARKET_PARTICIPANT_POSITION_BYTES), Some((market_participant_position_sample(), 26)));
    let mut longer = MARKET_PARTICIPANT_POSITION_BYTES.to_vec();
    longer.extend_from_slice(b"trailing");
    assert_eq!(MarketParticipantPosition::from_bytes(&longer), Some((market_participant_position_sample(), 26)));
    assert_eq!(MarketParticipantPosition::from_bytes(&MARKET_PARTICIPANT_POSITION_BYTES[..25]), None);
    assert_eq!(MarketParticipantPosition::from_bytes(b""), None);
}

#[test]
fn market_participant_position_decodes_at_a_cursor() {
    let mut twice = MARKET_PARTICIPANT_POSITION_BYTES.to_vec();
    twice.extend_from_slice(&MARKET_PARTICIPANT_POSITION_BYTES);
    twice.pop();
    let mut rdr = ReadCursor::new(&twice);
    assert_eq!(MarketParticipantPosition::from_cursor(&mut rdr), Ok(market_participant_position_sample()));
    assert_eq!(rdr.position(), 26);
    assert_eq!(MarketParticipantPosition::from_cursor(&mut rdr), Err(DecodeError::Truncated));
    assert_eq!(rdr.position(), 26);
}

#[test]
fn market_participant_position_encodes_to_its_bytes() {
    let mut buf = [0u8; 26];
    let mut cursor = WriteCursor::new(&mut buf);
    assert_eq!(write_market_participant_position_struct(&mut cursor, market_participant_position_sample()), Ok(()));
    assert_eq!(cursor.position(), 26);
    assert_eq!(buf, MARKET_PARTICIPANT_POSITION_BYTES);

    let m = market_participant_position_sample();
    let mut buf = [0u8; 29];
    let mut cursor = WriteCursor::new(&mut buf);
    cursor.write_u8(0xee).unwrap();
    let r = write_market_participant_position(
        &mut cursor,
        m.stock_locate,
        m.tracking_number,
        m.timestamp,
        m.mpid,
        m.stock,
        m.primary_market_maker,
        m.market_maker_mode,
        m.market_participant_state,
    );
    assert_eq!(r, Ok(()));
    assert_eq!(cursor.position(), 27);
    assert_eq!(buf[0], 0xee);
    assert_eq!(buf[1..27], MARKET_PARTICIPANT_POSITION_BYTES);
    assert_eq!(buf[27..], [0, 0]);
}

#[test]
fn market_participant_position_does_not_fit_in_one_byte_less() {
    let mut buf = [0u8; 25];
    let mut cursor = WriteCursor::new(&mut buf);
    assert_eq!(write_market_participant_position_struct(&mut cursor, market_participant_position_sample()), Err(EncodeError::BufferFull));
    assert_eq!(cursor.position(), 25);
    assert_eq!(buf, MARKET_PARTICIPANT_POSITION_BYTES[..25]);
}

#[test]
fn market_participant_position_is_picked_by_its_tag() {
    assert_eq!(MarketParticipantPosition::TYPE, b'L');
    assert_eq!(Message::from_bytes(&MARKET_PARTICIPANT_POSITION_BYTES), Ok(Message::MarketParticipantPosition(market_participant_position_sample())));
    assert_eq!(
        Message::from_bytes(&MARKET_PARTICIPANT_POSITION_BYTES[..25]),
        Err(DecodeError::Truncated)
    );
}

#[test]
fn market_participant_position_default_is_all_zero() {
    let mut zeros = [0u8; 26];
    assert_eq!(MarketParticipantPosition::from_bytes(&zeros), Some((MarketParticipantPosition::default(), 26)));
    let mut buf = [0xffu8; 26];
    let mut cursor = WriteCursor::new(&mut buf);
    write_market_participant_position_struct(&mut cursor, MarketParticipantPosition::default()).unwrap();
    zeros[0] = MarketParticipantPosition::TYPE;
    assert_eq!(buf, zeros);
}

fn mwcb_decline_level_sample() -> MwcbDeclineLevel {
    MwcbDeclineLevel {
        message_type: b'V',
        stock_locate: 0x8342,
        tracking_number: 0xda55,
        timestamp: 0xdeb7615e7ecb,
        level_1: 0xb3fadbd7aec14aac,
        level_2: 0xafd1ee601544ecc9,
        level_3: 0x9c86220ded17d665,
    }
}

const MWCB_DECLINE_LEVEL_BYTES: [u8; 35] = [
    0x56, 0x83, 0x42, 0xda, 0x55, 0xde, 0xb7, 0x61, 0x5e, 0x7e, 0xcb, 0xb3, 0xfa, 0xdb,
    0xd7, 0xae, 0xc1, 0x4a, 0xac, 0xaf, 0xd1, 0xee, 0x60, 0x15, 0x44, 0xec, 0xc9, 0x9c,
    0x86, 0x22, 0x0d, 0xed, 0x17, 0xd6, 0x65
];

#[test]
fn mwcb_decline_level_decodes_from_its_bytes() {
    assert_eq!(MWCB_DECLINE_LEVEL_SIZE, 35);
    assert_eq!(MwcbDeclineLevel::from_bytes(&MWCB_DECLINE_LEVEL_BYTES), Some((mwcb_decline_level_sample(), 35)));
    let mut longer = MWCB_DECLINE_LEVEL_BYTES.to_vec();
    longer.extend_from_slice(b"trailing");
    assert_eq!(MwcbDeclineLevel::from_bytes(&longer), Some((mwcb_decline_level_sample(), 35)));
    assert_eq!(MwcbDeclineLevel::from_bytes(&MWCB_DECLINE_LEVEL_BYTES[..34]), None);
    assert_eq!(MwcbDeclineLevel::from_bytes(b""), None);
}

#[test]
fn mwcb_decline_level_decodes_at_a_cursor() {
    let mut twice = MWCB_DECLINE_LEVEL_BYTES.to_vec();
    twice.extend_from_slice(&MWCB_DECLINE_LEVEL_BYTES);
    twice.pop();
    let mut rdr = ReadCursor::new(&twice);
    assert_eq!(MwcbDeclineLevel::from_cursor(&mut rdr), Ok(mwcb_decline_level_sample()));
    assert_eq!(rdr.position(), 35);
    assert_eq!(MwcbDeclineLevel::from_cursor(&mut rdr), Err(DecodeError::Truncated));
    assert_eq!(rdr.position(), 35);
}

#[test]
fn mwcb_decline_level_encodes_to_its_bytes() {
    let mut buf = [0u8; 35];
    let mut cursor = WriteCursor::new(&mut buf);
    assert_eq!(write_mwcb_decline_level_struct(&mut cursor, mwcb_decline_level_sample()), Ok(()));
    assert_eq!(cursor.position(), 35);
    assert_eq!(buf, MWCB_DECLINE_LEVEL_BYTES);

    let m = mwcb_decline_level_sample();
    let mut buf = [0u8; 38];
    let mut cursor = WriteCursor::new(&mut buf);
    cursor.write_u8(0xee).unwrap();
    let r = write_mwcb_decline_level(
        &mut cursor,
        m.stock_locate,
        m.tracking_number,
        m.timestamp,
        m.level_1,
        m.level_2,
        m.level_3,
    );
    assert_eq!(r, Ok(()));
    assert_eq!(cursor.position(), 36);
    assert_eq!(buf[0], 0xee);
    assert_eq!(buf[1..36], MWCB_DECLINE_LEVEL_BYTES);
    assert_eq!(buf[36..], [0, 0]);
}

#[test]
fn mwcb_decline_level_does_not_fit_in_one_byte_less() {
    let mut buf = [0u8; 34];
    let mut cursor = WriteCursor::new(&mut buf);
    assert_eq!(write_mwcb_decline_level_struct(&mut cursor, mwcb_decline_level_sample()), Err(EncodeError::BufferFull));
    assert_eq!(cursor.position(), 34);
    assert_eq!(buf, MWCB_DECLINE_LEVEL_BYTES[..34]);
}

#[test]
fn mwcb_decline_level_is_picked_by_its_tag() {
    assert_eq!(MwcbDeclineLevel::TYPE, b'V');
    assert_eq!(Message::from_bytes(&MWCB_DECLINE_LEVEL_BYTES), Ok(Message::MwcbDeclineLevel(mwcb_decline_level_sample())));
    assert_eq!(
        Message::from_bytes(&MWCB_DECLINE_LEVEL_BYTES[..34]),
        Err(DecodeError::Truncated)
    );
}

#[test]
fn mwcb_decline_level_default_is_all_zero() {
    let mut zeros = [0u8; 35];
    assert_eq!(MwcbDeclineLevel::from_bytes(&zeros), Some((MwcbDeclineLevel::default(), 35)));
    let mut buf = [0xffu8; 35];
    let mut cursor = WriteCursor::new(&mut buf);
    write_mwcb_decline_level_struct(&mut cursor, MwcbDeclineLevel::default()).unwrap();
    zeros[0] = MwcbDeclineLevel::TYPE;
    assert_eq!(buf, zeros);
}

fn mwcb_status_sample() -> MwcbStatus {
    MwcbStatus {
        message_type: b'W',
        stock_locate: 0x876b,
        tracking_number: 0xc7cc,
        timestamp: 0xfc39ba41111b,
        breached_level: eBreachedLevel(eBreachedLevel::Level_2),
    }
}

const MWCB_STATUS_BYTES: [u8; 12] = [
    0x57, 0x87, 0x6b, 0xc7, 0xcc, 0xfc, 0x39, 0xba, 0x41, 0x11, 0x1b, 0x32
];

#[test]
fn mwcb_status_decodes_from_its_bytes() {
    assert_eq!(MWCB_STATUS_SIZE, 12);
    assert_eq!(MwcbStatus::from_bytes(&MWCB_STATUS_BYTES), Some((mwcb_status_sample(), 12)));
    let mut longer = MWCB_STATUS_BYTES.to_vec();
    longer.extend_from_slice(b"trailing");
    assert_eq!(MwcbStatus::from_bytes(&longer), Some((mwcb_status_sample(), 12)));
    assert_eq!(MwcbStatus::from_bytes(&MWCB_STATUS_BYTES[..11]), None);
    assert_eq!(MwcbStatus::from_bytes(b""), None);
}

#[test]
fn mwcb_status_decodes_at_a_cursor() {
    let mut twice = MWCB_STATUS_BYTES.to_vec();
    twice.extend_from_slice(&MWCB_STATUS_BYTES);
    twice.pop();
    let mut rdr = ReadCursor::new(&twice);
    assert_eq!(MwcbStatus::from_cursor(&mut rdr), Ok(mwcb_status_sample()));
    assert_eq!(rdr.position(), 12);
    assert_eq!(MwcbStatus::from_cursor(&mut rdr), Err(DecodeError::Truncated));
    assert_eq!(rdr.position(), 12);
}

#[test]
fn mwcb_status_encodes_to_its_bytes() {
    let mut buf = [0u8; 12];
    let mut cursor = WriteCursor::new(&mut buf);
    assert_eq!(write_mwcb_status_struct(&mut cursor, mwcb_status_sample()), Ok(()));
    assert_eq!(cursor.position(), 12);
    assert_eq!(buf, MWCB_STATUS_BYTES);

    let m = mwcb_status_sample();
    let mut buf = [0u8; 15];
    let mut cursor = WriteCursor::new(&mut buf);
    cursor.write_u8(0xee).unwrap();
    let r = write_mwcb_status(
        &mut cursor,
        m.stock_locate,
        m.tracking_number,
        m.timestamp,
        m.breached_level,
    );
    assert_eq!(r, Ok(()));
    assert_eq!(cursor.position(), 13);
    assert_eq!(buf[0], 0xee);
    assert_eq!(buf[1..13], MWCB_STATUS_BYTES);
    assert_eq!(buf[13..], [0, 0]);
}

#[test]
fn mwcb_status_does_not_fit_in_one_byte_less() {
    let mut buf = [0u8; 11];
    let mut cursor = WriteCursor::new(&mut buf);
    assert_eq!(write_mwcb_status_struct(&mut cursor, mwcb_status_sample()), Err(EncodeError::BufferFull));
    assert_eq!(cursor.position(), 11);
    assert_eq!(buf, MWCB_STATUS_BYTES[..11]);
}

#[test]
fn mwcb_status_is_picked_by_its_tag() {
    assert_eq!(MwcbStatus::TYPE, b'W');
    assert_eq!(Message::from_bytes(&MWCB_STATUS_BYTES), Ok(Message::MwcbStatus(mwcb_status_sample())));
    assert_eq!(
        Message::from_bytes(&MWCB_STATUS_BYTES[..11]),
        Err(DecodeError::Truncated)
    );
}

#[test]
fn mwcb_status_default_is_all_zero() {
    let mut zeros = [0u8; 12];
    assert_eq!(MwcbStatus::from_bytes(&zeros), Some((MwcbStatus::default(), 12)));
    let mut buf = [0xffu8; 12];
    let mut cursor = WriteCursor::new(&mut buf);
    write_mwcb_status_struct(&mut cursor, MwcbStatus::default()).unwrap();
    zeros[0] = MwcbStatus::TYPE;
    assert_eq!(buf, zeros);
}

fn ipo_quoting_period_update_sample() -> IpoQuotingPeriodUpdate {
    IpoQuotingPeriodUpdate {
        message_type: b'K',
        stock_locate: 0xd203,
        tracking_number: 0x89c4,
        timestamp: 0xaa5fc70a1264,
        stock: *b"KXAZEPFZ",
        ipo_quotation_release_time: 0xbde32e88,
        ipo_quotation_release_qualifier: eIPOQuotationReleaseQualifier(eIPOQuotationReleaseQualifier::Anticipated_Quotation_Release_Time),
        ipo_price: 0x81abe197,
    }
}

const IPO_QUOTING_PERIOD_UPDATE_BYTES: [u8; 28] = [
    0x4b, 0xd2, 0x03, 0x89, 0xc4, 0xaa, 0x5f, 0xc7, 0x0a, 0x12, 0x64, 0x4b, 0x58, 0x41,
    0x5a, 0x45, 0x50, 0x46, 0x5a, 0xbd, 0xe3, 0x2e, 0x88, 0x41, 0x81, 0xab, 0xe1, 0x97
];

#[test]
fn ipo_quoting_period_update_decodes_from_its_bytes() {
    assert_eq!(IPO_QUOTING_PERIOD_UPDATE_SIZE, 28);
    assert_eq!(IpoQuotingPeriodUpdate::from_bytes(&IPO_QUOTING_PERIOD_UPDATE_BYTES), Some((ipo_quoting_period_update_sample(), 28)));
    let mut longer = IPO_QUOTING_PERIOD_UPDATE_BYTES.to_vec();
    longer.extend_from_slice(b"trailing");
    assert_eq!(IpoQuotingPeriodUpdate::from_bytes(&longer), Some((ipo_quoting_period_update_sample(), 28)));
    assert_eq!(IpoQuotingPeriodUpdate::from_bytes(&IPO_QUOTING_PERIOD_UPDATE_BYTES[..27]), None);
    assert_eq!(IpoQuotingPeriodUpdate::from_bytes(b""), None);
}

#[test]
fn ipo_quoting_period_update_decodes_at_a_cursor() {
    let mut twice = IPO_QUOTING_PERIOD_UPDATE_BYTES.to_vec();
    twice.extend_from_slice(&IPO_QUOTING_PERIOD_UPDATE_BYTES);
    twice.pop();
    let mut rdr = ReadCursor::new(&twice);
    assert_eq!(IpoQuotingPeriodUpdate::from_cursor(&mut rdr), Ok(ipo_quoting_period_update_sample()));
    assert_eq!(rdr.position(), 28);
    assert_eq!(IpoQuotingPeriodUpdate::from_cursor(&mut rdr), Err(DecodeError::Truncated));
    assert_eq!(rdr.position(), 28);
}

#[test]
fn ipo_quoting_period_update_encodes_to_its_bytes() {
    let mut buf = [0u8; 28];
    let mut cursor = WriteCursor::new(&mut buf);
    assert_eq!(write_ipo_quoting_period_update_struct(&mut cursor, ipo_quoting_period_update_sample()), Ok(()));
    assert_eq!(cursor.position(), 28);
    assert_eq!(buf, IPO_QUOTING_PERIOD_UPDATE_BYTES);

    let m = ipo_quoting_period_update_sample();
    let mut buf = [0u8; 31];
    let mut cursor = WriteCursor::new(&mut buf);
    cursor.write_u8(0xee).unwrap();
    let r = write_ipo_quoting_period_update(
        &mut cursor,
        m.stock_locate,
        m.tracking_number,
        m.timestamp,
        m.stock,
        m.ipo_quotation_release_time,
        m.ipo_quotation_release_qualifier,
        m.ipo_price,
    );
    assert_eq!(r, Ok(()));
    assert_eq!(cursor.position(), 29);
    assert_eq!(buf[0], 0xee);
    assert_eq!(buf[1..29], IPO_QUOTING_PERIOD_UPDATE_BYTES);
    assert_eq!(buf[29..], [0, 0]);
}

#[test]
fn ipo_quoting_period_update_does_not_fit_in_one_byte_less() {
    let mut buf = [0u8; 27];
    let mut cursor = WriteCursor::new(&mut buf);
    assert_eq!(write_ipo_quoting_period_update_struct(&mut cursor, ipo_quoting_period_update_sample()), Err(EncodeError::BufferFull));
    assert_eq!(cursor.position(), 27);
    assert_eq!(buf, IPO_QUOTING_PERIOD_UPDATE_BYTES[..27]);
}

#[test]
fn ipo_quoting_period_update_is_picked_by_its_tag() {
    assert_eq!(IpoQuotingPeriodUpdate::TYPE, b'K');
    assert_eq!(Message::from_bytes(&IPO_QUOTING_PERIOD_UPDATE_BYTES), Ok(Message::IpoQuotingPeriodUpdate(ipo_quoting_period_update_sample())));
    assert_eq!(
        Message::from_bytes(&IPO_QUOTING_PERIOD_UPDATE_BYTES[..27]),
        Err(DecodeError::Truncated)
    );
}

#[test]
fn ipo_quoting_period_update_default_is_all_zero() {
    let mut zeros = [0u8; 28];
    assert_eq!(IpoQuotingPeriodUpdate::from_bytes(&zeros), Some((IpoQuotingPeriodUpdate::default(), 28)));
    let mut buf = [0xffu8; 28];
    let mut cursor = WriteCursor::new(&mut buf);
    write_ipo_quoting_period_update_struct(&mut cursor, IpoQuotingPeriodUpdate::default()).unwrap();
    zeros[0] = IpoQuotingPeriodUpdate::TYPE;
    assert_eq!(buf, zeros);
}

fn luld_auction_collar_sample() -> LuldAuctionCollar {
    LuldAuctionCollar {
        message_type: b'J',
        stock_locate: 0x94f6,
        tracking_number: 0xb2ea,
        timestamp: 0xb728c8534c43,
        stock: *b"HNHHJXEJ",
        auction_collar_reference_price: 0x8732b1a1,
        upper_auction_collar_price: 0xf84963f0,
        lower_auction_collar_price: 0xf28902bb,
        auction_collar_extension: 0x8a4bf569,
    }
}

const LULD_AUCTION_COLLAR_BYTES: [u8; 35] = [
    0x4a, 0x94, 0xf6, 0xb2, 0xea, 0xb7, 0x28, 0xc8, 0x53, 0x4c, 0x43, 0x48, 0x4e, 0x48,
    0x48, 0x4a, 0x58, 0x45, 0x4a, 0x87, 0x32, 0xb1, 0xa1, 0xf8, 0x49, 0x63, 0xf0, 0xf2,
    0x89, 0x02, 0xbb, 0x8a, 0x4b, 0xf5, 0x69
];

#[test]
fn luld_auction_collar_decodes_from_its_bytes() {
    assert_eq!(LULD_AUCTION_COLLAR_SIZE, 35);
    assert_eq!(LuldAuctionCollar::from_bytes(&LULD_AUCTION_COLLAR_BYTES), Some((luld_auction_collar_sample(), 35)));
    let mut longer = LULD_AUCTION_COLLAR_BYTES.to_vec();
    longer.extend_from_slice(b"trailing");
    assert_eq!(LuldAuctionCollar::from_bytes(&longer), Some((luld_auction_collar_sample(), 35)));
    assert_eq!(LuldAuctionCollar::from_bytes(&LULD_AUCTION_COLLAR_BYTES[..34]), None);
    assert_eq!(LuldAuctionCollar::from_bytes(b""), None);
}

#[test]
fn luld_auction_collar_decodes_at_a_cursor() {
    let mut twice = LULD_AUCTION_COLLAR_BYTES.to_vec();
    twice.extend_from_slice(&LULD_AUCTION_COLLAR_BYTES);
    twice.pop();
    let mut rdr = ReadCursor::new(&twice);
    assert_eq!(LuldAuctionCollar::from_cursor(&mut rdr), Ok(luld_auction_collar_sample()));
    assert_eq!(rdr.position(), 35);
    assert_eq!(LuldAuctionCollar::from_cursor(&mut rdr), Err(DecodeError::Truncated));
    assert_eq!(rdr.position(), 35);
}

#[test]
fn luld_auction_collar_encodes_to_its_bytes() {
    let mut buf = [0u8; 35];
    let mut cursor = WriteCursor::new(&mut buf);
    assert_eq!(write_luld_auction_collar_struct(&mut cursor, luld_auction_collar_sample()), Ok(()));
    assert_eq!(cursor.position(), 35);
    assert_eq!(buf, LULD_AUCTION_COLLAR_BYTES);

    let m = luld_auction_collar_sample();
    let mut buf = [0u8; 38];
    let mut cursor = WriteCursor::new(&mut buf);
    cursor.write_u8(0xee).unwrap();
    let r = write_luld_auction_collar(
        &mut cursor,
        m.stock_locate,
        m.tracking_number,
        m.timestamp,
        m.stock,
        m.auction_collar_reference_price,
        m.upper_auction_collar_price,
        m.lower_auction_collar_price,
        m.auction_collar_extension,
    );
    assert_eq!(r, Ok(()));
    assert_eq!(cursor.position(), 36);
    assert_eq!(buf[0], 0xee);
    assert_eq!(buf[1..36], LULD_AUCTION_COLLAR_BYTES);
    assert_eq!(buf[36..], [0, 0]);
}

#[test]
fn luld_auction_collar_does_not_fit_in_one_byte_less() {
    let mut buf = [0u8; 34];
    let mut cursor = WriteCursor::new(&mut buf);
    assert_eq!(write_luld_auction_collar_struct(&mut cursor, luld_auction_collar_sample()), Err(EncodeError::BufferFull));
    assert_eq!(cursor.position(), 34);
    assert_eq!(buf, LULD_AUCTION_COLLAR_BYTES[..34]);
}

#[test]
fn luld_auction_collar_is_picked_by_its_tag() {
    assert_eq!(LuldAuctionCollar::TYPE, b'J');
    assert_eq!(Message::from_bytes(&LULD_AUCTION_COLLAR_BYTES), Ok(Message::LuldAuctionCollar(luld_auction_collar_sample())));
    assert_eq!(
        Message::from_bytes(&LULD_AUCTION_COLLAR_BYTES[..34]),
        Err(DecodeError::Truncated)
    );
}

#[test]
fn luld_auction_collar_default_is_all_zero() {
    let mut zeros = [0u8; 35];
    assert_eq!(LuldAuctionCollar::from_bytes(&zeros), Some((LuldAuctionCollar::default(), 35)));
    let mut buf = [0xffu8; 35];
    let mut cursor = WriteCursor::new(&mut buf);
    write_luld_auction_collar_struct(&mut cursor, LuldAuctionCollar::default()).unwrap();
    zeros[0] = LuldAuctionCollar::TYPE;
    assert_eq!(buf, zeros);
}

fn operational_halt_sample() -> OperationalHalt {
    OperationalHalt {
        message_type: b'h',
        stock_locate: 0xb058,
        tracking_number: 0xbe6a,
        timestamp: 0xf9929dcf5ce7,
        stock: *b"JNWFTLSG",
        market_code: eMarketCode(eMarketCode::BX),
        operational_halt_action: eOperationalHaltAction(eOperationalHaltAction::Trading),
    }
}

const OPERATIONAL_HALT_BYTES: [u8; 21] = [
    0x68, 0xb0, 0x58, 0xbe, 0x6a, 0xf9, 0x92, 0x9d, 0xcf, 0x5c, 0xe7, 0x4a, 0x4e, 0x57,
    0x46, 0x54, 0x4c, 0x53, 0x47, 0x42, 0x54
];

#[test]
fn operational_halt_decodes_from_its_bytes() {
    assert_eq!(OPERATIONAL_HALT_SIZE, 21);
    assert_eq!(OperationalHalt::from_bytes(&OPERATIONAL_HALT_BYTES), Some((operational_halt_sample(), 21)));
    let mut longer = OPERATIONAL_HALT_BYTES.to_vec();
    longer.extend_from_slice(b"trailing");
    assert_eq!(OperationalHalt::from_bytes(&longer), Some((operational_halt_sample(), 21)));
    assert_eq!(OperationalHalt::from_bytes(&OPERATIONAL_HALT_BYTES[..20]), None);
    assert_eq!(OperationalHalt::from_bytes(b""), None);
}

#[test]
fn operational_halt_decodes_at_a_cursor() {
    let mut twice = OPERATIONAL_HALT_BYTES.to_vec();
    twice.extend_from_slice(&OPERATIONAL_HALT_BYTES);
    twice.pop();
    let mut rdr = ReadCursor::new(&twice);
    assert_eq!(OperationalHalt::from_cursor(&mut rdr), Ok(operational_halt_sample()));
    assert_eq!(rdr.position(), 21);
    assert_eq!(OperationalHalt::from_cursor(&mut rdr), Err(DecodeError::Truncated));
    assert_eq!(rdr.position(), 21);
}

#[test]
fn operational_halt_encodes_to_its_bytes() {
    let mut buf = [0u8; 21];
    let mut cursor = WriteCursor::new(&mut buf);
    assert_eq!(write_operational_halt_struct(&mut cursor, operational_halt_sample()), Ok(()));
    assert_eq!(cursor.position(), 21);
    assert_eq!(buf, OPERATIONAL_HALT_BYTES);

    let m = operational_halt_sample();
    let mut buf = [0u8; 24];
    let mut cursor = WriteCursor::new(&mut buf);
    cursor.write_u8(0xee).unwrap();
    let r = write_operational_halt(
        &mut cursor,
        m.stock_locate,
        m.tracking_number,
        m.timestamp,
        m.stock,
        m.market_code,
        m.operational_halt_action,
    );
    assert_eq!(r, Ok(()));
    assert_eq!(cursor.position(), 22);
    assert_eq!(buf[0], 0xee);
    assert_eq!(buf[1..22], OPERATIONAL_HALT_BYTES);
    assert_eq!(buf[22..], [0, 0]);
}

#[test]
fn operational_halt_does_not_fit_in_one_byte_less() {
    let mut buf = [0u8; 20];
    let mut cursor = WriteCursor::new(&mut buf);
    assert_eq!(write_operational_halt_struct(&mut cursor, operational_halt_sample()), Err(EncodeError::BufferFull));
    assert_eq!(cursor.position(), 20);
    assert_eq!(buf, OPERATIONAL_HALT_BYTES[..20]);
}

#[test]
fn operational_halt_is_picked_by_its_tag() {
    assert_eq!(OperationalHalt::TYPE, b'h');
    assert_eq!(Message::from_bytes(&OPERATIONAL_HALT_BYTES), Ok(Message::OperationalHalt(operational_halt_sample())));
    assert_eq!(
        Message::from_bytes(&OPERATIONAL_HALT_BYTES[..20]),
        Err(DecodeError::Truncated)
    );
}

#[test]
fn operational_halt_default_is_all_zero() {
    let mut zeros = [0u8; 21];
    assert_eq!(OperationalHalt::from_bytes(&zeros), Some((OperationalHalt::default(), 21)));
    let mut buf = [0xffu8; 21];
    let mut cursor = WriteCursor::new(&mut buf);
    write_operational_halt_struct(&mut cursor, OperationalHalt::default()).unwrap();
    zeros[0] = OperationalHalt::TYPE;
    assert_eq!(buf, zeros);
}

fn add_order_sample() -> AddOrder {
    AddOrder {
        message_type: b'A',
        stock_locate: 0xc25a,
        tracking_number: 0xd5de,
        timestamp: 0xb7615e7ecb33,
        order_reference_number: 0xfadbd7aec14aac2f,
        buy_sell_indicator: eBuySellIndicator(eBuySellIndicator::Sell_Order),
        shares: 0xee601544,
        stock: *b"CTAEINDX",
        price: 0xd665876b,
    }
}

const ADD_ORDER_BYTES: [u8; 36] = [
    0x41, 0xc2, 0x5a, 0xd5, 0xde, 0xb7, 0x61, 0x5e, 0x7e, 0xcb, 0x33, 0xfa, 0xdb, 0xd7,
    0xae, 0xc1, 0x4a, 0xac, 0x2f, 0x53, 0xee, 0x60, 0x15, 0x44, 0x43, 0x54, 0x41, 0x45,
    0x49, 0x4e, 0x44, 0x58, 0xd6, 0x65, 0x87, 0x6b
];

#[test]
fn add_order_decodes_from_its_bytes() {
    assert_eq!(ADD_ORDER_SIZE, 36);
    assert_eq!(AddOrder::from_bytes(&ADD_ORDER_BYTES), Some((add_order_sample(), 36)));
    let mut longer = ADD_ORDER_BYTES.to_vec();
    longer.extend_from_slice(b"trailing");
    assert_eq!(AddOrder::from_bytes(&longer), Some((add_order_sample(), 36)));
    assert_eq!(AddOrder::from_bytes(&ADD_ORDER_BYTES[..35]), None);
    assert_eq!(AddOrder::from_bytes(b""), None);
}

#[test]
fn add_order_decodes_at_a_cursor() {
    let mut twice = ADD_ORDER_BYTES.to_vec();
    twice.extend_from_slice(&ADD_ORDER_BYTES);
    twice.pop();
    let mut rdr = ReadCursor::new(&twice);
    assert_eq!(AddOrder::from_cursor(&mut rdr), Ok(add_order_sample()));
    assert_eq!(rdr.position(), 36);
    assert_eq!(AddOrder::from_cursor(&mut rdr), Err(DecodeError::Truncated));
    assert_eq!(rdr.position(), 36);
}

#[test]
fn add_order_encodes_to_its_bytes() {
    let mut buf = [0u8; 36];
    let mut cursor = WriteCursor::new(&mut buf);
    assert_eq!(write_add_order_struct(&mut cursor, add_order_sample()), Ok(()));
    assert_eq!(cursor.position(), 36);
    assert_eq!(buf, ADD_ORDER_BYTES);

    let m = add_order_sample();
    let mut buf = [0u8; 39];
    let mut cursor = WriteCursor::new(&mut buf);
    cursor.write_u8(0xee).unwrap();
    let r = write_add_order(
        &mut cursor,
        m.stock_locate,
        m.tracking_number,
        m.timestamp,
        m.order_reference_number,
        m.buy_sell_indicator,
        m.shares,
        m.stock,
        m.price,
    );
    assert_eq!(r, Ok(()));
    assert_eq!(cursor.position(), 37);
    assert_eq!(buf[0], 0xee);
    assert_eq!(buf[1..37], ADD_ORDER_BYTES);
    assert_eq!(buf[37..], [0, 0]);
}

#[test]
fn add_order_does_not_fit_in_one_byte_less() {
    let mut buf = [0u8; 35];
    let mut cursor = WriteCursor::new(&mut buf);
    assert_eq!(write_add_order_struct(&mut cursor, add_order_sample()), Err(EncodeError::BufferFull));
    assert_eq!(cursor.position(), 35);
    assert_eq!(buf, ADD_ORDER_BYTES[..35]);
}

#[test]
fn add_order_is_picked_by_its_tag() {
    assert_eq!(AddOrder::TYPE, b'A');
    assert_eq!(Message::from_bytes(&ADD_ORDER_BYTES), Ok(Message::AddOrder(add_order_sample())));
    assert_eq!(
        Message::from_bytes(&ADD_ORDER_BYTES[..35]),
        Err(DecodeError::Truncated)
    );
}

#[test]
fn add_order_default_is_all_zero() {
    let mut zeros = [0u8; 36];
    assert_eq!(AddOrder::from_bytes(&zeros), Some((AddOrder::default(), 36)));
    let mut buf = [0xffu8; 36];
    let mut cursor = WriteCursor::new(&mut buf);
    write_add_order_struct(&mut cursor, AddOrder::default()).unwrap();
    zeros[0] = AddOrder::TYPE;
    assert_eq!(buf, zeros);
}

fn add_order_with_mpid_sample() -> AddOrderWithMpid {
    AddOrderWithMpid {
        message_type: b'F',
        stock_locate: 0xc7cc,
        tracking_number: 0xfc39,
        timestamp: 0xba41111b0452,
        order_reference_number: 0x8309c42a5fc70a12,
        buy_sell_indicator: eBuySellIndicator(eBuySellIndicator::Buy_Order),
        shares: 0xbe316867,
        stock: *b"EPFZJTUG",
        price: 0xb481abe1,
        attribution: *b"VUMW",
    }
}

const ADD_ORDER_WITH_MPID_BYTES: [u8; 40] = [
    0x46, 0xc7, 0xcc, 0xfc, 0x39, 0xba, 0x41, 0x11, 0x1b, 0x04, 0x52, 0x83, 0x09, 0xc4,
    0x2a, 0x5f, 0xc7, 0x0a, 0x12, 0x42, 0xbe, 0x31, 0x68, 0x67, 0x45, 0x50, 0x46, 0x5a,
    0x4a, 0x54, 0x55, 0x47, 0xb4, 0x81, 0xab, 0xe1, 0x56, 0x55, 0x4d, 0x57
];

#[test]
fn add_order_with_mpid_decodes_from_its_bytes() {
    assert_eq!(ADD_ORDER_WITH_MPID_SIZE, 40);
    assert_eq!(AddOrderWithMpid::from_bytes(&ADD_ORDER_WITH_MPID_BYTES), Some((add_order_with_mpid_sample(), 40)));
    let mut longer = ADD_ORDER_WITH_MPID_BYTES.to_vec();
    longer.extend_from_slice(b"trailing");
    assert_eq!(AddOrderWithMpid::from_bytes(&longer), Some((add_order_with_mpid_sample(), 40)));
    assert_eq!(AddOrderWithMpid::from_bytes(&ADD_ORDER_WITH_MPID_BYTES[..39]), None);
    assert_eq!(AddOrderWithMpid::from_bytes(b""), None);
}

#[test]
fn add_order_with_mpid_decodes_at_a_cursor() {
    let mut twice = ADD_ORDER_WITH_MPID_BYTES.to_vec();
    twice.extend_from_slice(&ADD_ORDER_WITH_MPID_BYTES);
    twice.pop();
    let mut rdr = ReadCursor::new(&twice);
    assert_eq!(AddOrderWithMpid::from_cursor(&mut rdr), Ok(add_order_with_mpid_sample()));
    assert_eq!(rdr.position(), 40);
    assert_eq!(AddOrderWithMpid::from_cursor(&mut rdr), Err(DecodeError::Truncated));
    assert_eq!(rdr.position(), 40);
}

#[test]
fn add_order_with_mpid_encodes_to_its_bytes() {
    let mut buf = [0u8; 40];
    let mut cursor = WriteCursor::new(&mut buf);
    assert_eq!(write_add_order_with_mpid_struct(&mut cursor, add_order_with_mpid_sample()), Ok(()));
    assert_eq!(cursor.position(), 40);
    assert_eq!(buf, ADD_ORDER_WITH_MPID_BYTES);

    let m = add_order_with_mpid_sample();
    let mut buf = [0u8; 43];
    let mut cursor = WriteCursor::new(&mut buf);
    cursor.write_u8(0xee).unwrap();
    let r = write_add_order_with_mpid(
        &mut cursor,
        m.stock_locate,
        m.tracking_number,
        m.timestamp,
        m.order_reference_number,
        m.buy_sell_indicator,
        m.shares,
        m.stock,
        m.price,
        m.attribution,
    );
    assert_eq!(r, Ok(()));
    assert_eq!(cursor.position(), 41);
    assert_eq!(buf[0], 0xee);
    assert_eq!(buf[1..41], ADD_ORDER_WITH_MPID_BYTES);
    assert_eq!(buf[41..], [0, 0]);
}

#[test]
fn add_order_with_mpid_does_not_fit_in_one_byte_less() {
    let mut buf = [0u8; 39];
    let mut cursor = WriteCursor::new(&mut buf);
    assert_eq!(write_add_order_with_mpid_struct(&mut cursor, add_order_with_mpid_sample()), Err(EncodeError::BufferFull));
    assert_eq!(cursor.position(), 39);
    assert_eq!(buf, ADD_ORDER_WITH_MPID_BYTES[..39]);
}

#[test]
fn add_order_with_mpid_is_picked_by_its_tag() {
    assert_eq!(AddOrderWithMpid::TYPE, b'F');
    assert_eq!(Message::from_bytes(&ADD_ORDER_WITH_MPID_BYTES), Ok(Message::AddOrderWithMpid(add_order_with_mpid_sample())));
    assert_eq!(
        Message::from_bytes(&ADD_ORDER_WITH_MPID_BYTES[..39]),
        Err(DecodeError::Truncated)
    );
}

#[test]
fn add_order_with_mpid_default_is_all_zero() {
    let mut zeros = [0u8; 40];
    assert_eq!(AddOrderWithMpid::from_bytes(&zeros), Some((AddOrderWithMpid::default(), 40)));
    let mut buf = [0xffu8; 40];
    let mut cursor = WriteCursor::new(&mut buf);
    write_add_order_with_mpid_struct(&mut cursor, AddOrderWithMpid::default()).unwrap();
    zeros[0] = AddOrderWithMpid::TYPE;
    assert_eq!(buf, zeros);
}

fn order_executed_sample() -> OrderExecuted {
    OrderExecuted {
        message_type: b'E',
        stock_locate: 0xea37,
        tracking_number: 0xa8c8,
        timestamp: 0xd34c43a38fbd,
        order_reference_number: 0xa1bfb338710732b1,
        executed_shares: 0xa1f84963,
        match_number: 0xf0f28902bb8a4bf5,
    }
}

const ORDER_EXECUTED_BYTES: [u8; 31] = [
    0x45, 0xea, 0x37, 0xa8, 0xc8, 0xd3, 0x4c, 0x43, 0xa3, 0x8f, 0xbd, 0xa1, 0xbf, 0xb3,
    0x38, 0x71, 0x07, 0x32, 0xb1, 0xa1, 0xf8, 0x49, 0x63, 0xf0, 0xf2, 0x89, 0x02, 0xbb,
    0x8a, 0x4b, 0xf5
];

#[test]
fn order_executed_decodes_from_its_bytes() {
    assert_eq!(ORDER_EXECUTED_SIZE, 31);
    assert_eq!(OrderExecuted::from_bytes(&ORDER_EXECUTED_BYTES), Some((order_executed_sample(), 31)));
    let mut longer = ORDER_EXECUTED_BYTES.to_vec();
    longer.extend_from_slice(b"trailing");
    assert_eq!(OrderExecuted::from_bytes(&longer), Some((order_executed_sample(), 31)));
    assert_eq!(OrderExecuted::from_bytes(&ORDER_EXECUTED_BYTES[..30]), None);
    assert_eq!(OrderExecuted::from_bytes(b""), None);
}

#[test]
fn order_executed_decodes_at_a_cursor() {
    let mut twice = ORDER_EXECUTED_BYTES.to_vec();
    twice.extend_from_slice(&ORDER_EXECUTED_BYTES);
    twice.pop();
    let mut rdr = ReadCursor::new(&twice);
    assert_eq!(OrderExecuted::from_cursor(&mut rdr), Ok(order_executed_sample()));
    assert_eq!(rdr.position(), 31);
    assert_eq!(OrderExecuted::from_cursor(&mut rdr), Err(DecodeError::Truncated));
    assert_eq!(rdr.position(), 31);
}

#[test]
fn order_executed_encodes_to_its_bytes() {
    let mut buf = [0u8; 31];
    let mut cursor = WriteCursor::new(&mut buf);
    assert_eq!(write_order_executed_struct(&mut cursor, order_executed_sample()), Ok(()));
    assert_eq!(cursor.position(), 31);
    assert_eq!(buf, ORDER_EXECUTED_BYTES);

    let m = order_executed_sample();
    let mut buf = [0u8; 34];
    let mut cursor = WriteCursor::new(&mut buf);
    cursor.write_u8(0xee).unwrap();
    let r = write_order_executed(
        &mut cursor,
        m.stock_locate,
        m.tracking_number,
        m.timestamp,
        m.order_reference_number,
        m.executed_shares,
        m.match_number,
    );
    assert_eq!(r, Ok(()));
    assert_eq!(cursor.position(), 32);
    assert_eq!(buf[0], 0xee);
    assert_eq!(buf[1..32], ORDER_EXECUTED_BYTES);
    assert_eq!(buf[32..], [0, 0]);
}

#[test]
fn order_executed_does_not_fit_in_one_byte_less() {
    let mut buf = [0u8; 30];
    let mut cursor = WriteCursor::new(&mut buf);
    assert_eq!(write_order_executed_struct(&mut cursor, order_executed_sample()), Err(EncodeError::BufferFull));
    assert_eq!(cursor.position(), 30);
    assert_eq!(buf, ORDER_EXECUTED_BYTES[..30]);
}

#[test]
fn order_executed_is_picked_by_its_tag() {
    assert_eq!(OrderExecuted::TYPE, b'E');
    assert_eq!(Message::from_bytes(&ORDER_EXECUTED_BYTES), Ok(Message::OrderExecuted(order_executed_sample())));
    assert_eq!(
        Message::from_bytes(&ORDER_EXECUTED_BYTES[..30]),
        Err(DecodeError::Truncated)
    );
}

#[test]
fn order_executed_default_is_all_zero() {
    let mut zeros = [0u8; 31];
    assert_eq!(OrderExecuted::from_bytes(&zeros), Some((OrderExecuted::default(), 31)));
    let mut buf = [0xffu8; 31];
    let mut cursor = WriteCursor::new(&mut buf);
    write_order_executed_struct(&mut cursor, OrderExecuted::default()).unwrap();
    zeros[0] = OrderExecuted::TYPE;
    assert_eq!(buf, zeros);
}

fn order_executed_with_price_sample() -> OrderExecutedWithPrice {
    OrderExecutedWithPrice {
        message_type: b'C',
        stock_locate: 0xe9b0,
        tracking_number: 0xd8be,
        timestamp: 0xeaf9929dcf5c,
        order_reference_number: 0xe75775301f2d3f7a,
        executed_shares: 0xa2468342,
        match_number: 0xda55deb7615e7ecb,
        printable: ePrintable(ePrintable::Printable),
        execution_price: 0xfadbd7ae,
    }
}

const ORDER_EXECUTED_WITH_PRICE_BYTES: [u8; 36] = [
    0x43, 0xe9, 0xb0, 0xd8, 0xbe, 0xea, 0xf9, 0x92, 0x9d, 0xcf, 0x5c, 0xe7, 0x57, 0x75,
    0x30, 0x1f, 0x2d, 0x3f, 0x7a, 0xa2, 0x46, 0x83, 0x42, 0xda, 0x55, 0xde, 0xb7, 0x61,
    0x5e, 0x7e, 0xcb, 0x59, 0xfa, 0xdb, 0xd7, 0xae
];

#[test]
fn order_executed_with_price_decodes_from_its_bytes() {
    assert_eq!(ORDER_EXECUTED_WITH_PRICE_SIZE, 36);
    assert_eq!(OrderExecutedWithPrice::from_bytes(&ORDER_EXECUTED_WITH_PRICE_BYTES), Some((order_executed_with_price_sample(), 36)));
    let mut longer = ORDER_EXECUTED_WITH_PRICE_BYTES.to_vec();
    longer.extend_from_slice(b"trailing");
    assert_eq!(OrderExecutedWithPrice::from_bytes(&longer), Some((order_executed_with_price_sample(), 36)));
    assert_eq!(OrderExecutedWithPrice::from_bytes(&ORDER_EXECUTED_WITH_PRICE_BYTES[..35]), None);
    assert_eq!(OrderExecutedWithPrice::from_bytes(b""), None);
}

#[test]
fn order_executed_with_price_decodes_at_a_cursor() {
    let mut twice = ORDER_EXECUTED_WITH_PRICE_BYTES.to_vec();
    twice.extend_from_slice(&ORDER_EXECUTED_WITH_PRICE_BYTES);
    twice.pop();
    let mut rdr = ReadCursor::new(&twice);
    assert_eq!(OrderExecutedWithPrice::from_cursor(&mut rdr), Ok(order_executed_with_price_sample()));
    assert_eq!(rdr.position(), 36);
    assert_eq!(OrderExecutedWithPrice::from_cursor(&mut rdr), Err(DecodeError::Truncated));
    assert_eq!(rdr.position(), 36);
}

#[test]
fn order_executed_with_price_encodes_to_its_bytes() {
    let mut buf = [0u8; 36];
    let mut cursor = WriteCursor::new(&mut buf);
    assert_eq!(write_order_executed_with_price_struct(&mut cursor, order_executed_with_price_sample()), Ok(()));
    assert_eq!(cursor.position(), 36);
    assert_eq!(buf, ORDER_EXECUTED_WITH_PRICE_BYTES);

    let m = order_executed_with_price_sample();
    let mut buf = [0u8; 39];
    let mut cursor = WriteCursor::new(&mut buf);
    cursor.write_u8(0xee).unwrap();
    let r = write_order_executed_with_price(
        &mut cursor,
        m.stock_locate,
        m.tracking_number,
        m.timestamp,
        m.order_reference_number,
        m.executed_shares,
        m.match_number,
        m.printable,
        m.execution_price,
    );
    assert_eq!(r, Ok(()));
    assert_eq!(cursor.position(), 37);
    assert_eq!(buf[0], 0xee);
    assert_eq!(buf[1..37], ORDER_EXECUTED_WITH_PRICE_BYTES);
    assert_eq!(buf[37..], [0, 0]);
}

#[test]
fn order_executed_with_price_does_not_fit_in_one_byte_less() {
    let mut buf = [0u8; 35];
    let mut cursor = WriteCursor::new(&mut buf);
    assert_eq!(write_order_executed_with_price_struct(&mut cursor, order_executed_with_price_sample()), Err(EncodeError::BufferFull));
    assert_eq!(cursor.position(), 35);
    assert_eq!(buf, ORDER_EXECUTED_WITH_PRICE_BYTES[..35]);
}

#[test]
fn order_executed_with_price_is_picked_by_its_tag() {
    assert_eq!(OrderExecutedWithPrice::TYPE, b'C');
    assert_eq!(Message::from_bytes(&ORDER_EXECUTED_WITH_PRICE_BYTES), Ok(Message::OrderExecutedWithPrice(order_executed_with_price_sample())));
    assert_eq!(
        Message::from_bytes(&ORDER_EXECUTED_WITH_PRICE_BYTES[..35]),
        Err(DecodeError::Truncated)
    );
}

#[test]
fn order_executed_with_price_default_is_all_zero() {
    let mut zeros = [0u8; 36];
    assert_eq!(OrderExecutedWithPrice::from_bytes(&zeros), Some((OrderExecutedWithPrice::default(), 36)));
    let mut buf = [0xffu8; 36];
    let mut cursor = WriteCursor::new(&mut buf);
    write_order_executed_with_price_struct(&mut cursor, OrderExecutedWithPrice::default()).unwrap();
    zeros[0] = OrderExecutedWithPrice::TYPE;
    assert_eq!(buf, zeros);
}

fn order_cancel_sample() -> OrderCancel {
    OrderCancel {
        message_type: b'X',
        stock_locate: 0xc14a,
        tracking_number: 0xac2f,
        timestamp: 0xd1ee601544ec,
        order_reference_number: 0xc99c86220ded17d6,
        cancelled_shares: 0xe5876b47,
    }
}

const ORDER_CANCEL_BYTES: [u8; 23] = [
    0x58, 0xc1, 0x4a, 0xac, 0x2f, 0xd1, 0xee, 0x60, 0x15, 0x44, 0xec, 0xc9, 0x9c, 0x86,
    0x22, 0x0d, 0xed, 0x17, 0xd6, 0xe5, 0x87, 0x6b, 0x47
];

#[test]
fn order_cancel_decodes_from_its_bytes() {
    assert_eq!(ORDER_CANCEL_SIZE, 23);
    assert_eq!(OrderCancel::from_bytes(&ORDER_CANCEL_BYTES), Some((order_cancel_sample(), 23)));
    let mut longer = ORDER_CANCEL_BYTES.to_vec();
    longer.extend_from_slice(b"trailing");
    assert_eq!(OrderCancel::from_bytes(&longer), Some((order_cancel_sample(), 23)));
    assert_eq!(OrderCancel::from_bytes(&ORDER_CANCEL_BYTES[..22]), None);
    assert_eq!(OrderCancel::from_bytes(b""), None);
}

#[test]
fn order_cancel_decodes_at_a_cursor() {
    let mut twice = ORDER_CANCEL_BYTES.to_vec();
    twice.extend_from_slice(&ORDER_CANCEL_BYTES);
    twice.pop();
    let mut rdr = ReadCursor::new(&twice);
    assert_eq!(OrderCancel::from_cursor(&mut rdr), Ok(order_cancel_sample()));
    assert_eq!(rdr.position(), 23);
    assert_eq!(OrderCancel::from_cursor(&mut rdr), Err(DecodeError::Truncated));
    assert_eq!(rdr.position(), 23);
}

#[test]
fn order_cancel_encodes_to_its_bytes() {
    let mut buf = [0u8; 23];
    let mut cursor = WriteCursor::new(&mut buf);
    assert_eq!(write_order_cancel_struct(&mut cursor, order_cancel_sample()), Ok(()));
    assert_eq!(cursor.position(), 23);
    assert_eq!(buf, ORDER_CANCEL_BYTES);

    let m = order_cancel_sample();
    let mut buf = [0u8; 26];
    let mut cursor = WriteCursor::new(&mut buf);
    cursor.write_u8(0xee).unwrap();
    let r = write_order_cancel(
        &mut cursor,
        m.stock_locate,
        m.tracking_number,
        m.timestamp,
        m.order_reference_number,
        m.cancelled_shares,
    );
    assert_eq!(r, Ok(()));
    assert_eq!(cursor.position(), 24);
    assert_eq!(buf[0], 0xee);
    assert_eq!(buf[1..24], ORDER_CANCEL_BYTES);
    assert_eq!(buf[24..], [0, 0]);
}

#[test]
fn order_cancel_does_not_fit_in_one_byte_less() {
    let mut buf = [0u8; 22];
    let mut cursor = WriteCursor::new(&mut buf);
    assert_eq!(write_order_cancel_struct(&mut cursor, order_cancel_sample()), Err(EncodeError::BufferFull));
    assert_eq!(cursor.position(), 22);
    assert_eq!(buf, ORDER_CANCEL_BYTES[..22]);
}

#[test]
fn order_cancel_is_picked_by_its_tag() {
    assert_eq!(OrderCancel::TYPE, b'X');
    assert_eq!(Message::from_bytes(&ORDER_CANCEL_BYTES), Ok(Message::OrderCancel(order_cancel_sample())));
    assert_eq!(
        Message::from_bytes(&ORDER_CANCEL_BYTES[..22]),
        Err(DecodeError::Truncated)
    );
}

#[test]
fn order_cancel_default_is_all_zero() {
    let mut zeros = [0u8; 23];
    assert_eq!(OrderCancel::from_bytes(&zeros), Some((OrderCancel::default(), 23)));
    let mut buf = [0xffu8; 23];
    let mut cursor = WriteCursor::new(&mut buf);
    write_order_cancel_struct(&mut cursor, OrderCancel::default()).unwrap();
    zeros[0] = OrderCancel::TYPE;
    assert_eq!(buf, zeros);
}

fn order_delete_sample() -> OrderDelete {
    OrderDelete {
        message_type: b'D',
        stock_locate: 0xcc7c,
        tracking_number: 0xb9ba,
        timestamp: 0xc1111b045203,
        order_reference_number: 0x89c42a5fc70a1264,
    }
}

const ORDER_DELETE_BYTES: [u8; 19] = [
    0x44, 0xcc, 0x7c, 0xb9, 0xba, 0xc1, 0x11, 0x1b, 0x04, 0x52, 0x03, 0x89, 0xc4, 0x2a,
    0x5f, 0xc7, 0x0a, 0x12, 0x64
];

#[test]
fn order_delete_decodes_from_its_bytes() {
    assert_eq!(ORDER_DELETE_SIZE, 19);
    assert_eq!(OrderDelete::from_bytes(&ORDER_DELETE_BYTES), Some((order_delete_sample(), 19)));
    let mut longer = ORDER_DELETE_BYTES.to_vec();
    longer.extend_from_slice(b"trailing");
    assert_eq!(OrderDelete::from_bytes(&longer), Some((order_delete_sample(), 19)));
    assert_eq!(OrderDelete::from_bytes(&ORDER_DELETE_BYTES[..18]), None);
    assert_eq!(OrderDelete::from_bytes(b""), None);
}

#[test]
fn order_delete_decodes_at_a_cursor() {
    let mut twice = ORDER_DELETE_BYTES.to_vec();
    twice.extend_from_slice(&ORDER_DELETE_BYTES);
    twice.pop();
    let mut rdr = ReadCursor::new(&twice);
    assert_eq!(OrderDelete::from_cursor(&mut rdr), Ok(order_delete_sample()));
    assert_eq!(rdr.position(), 19);
    assert_eq!(OrderDelete::from_cursor(&mut rdr), Err(DecodeError::Truncated));
    assert_eq!(rdr.position(), 19);
}

#[test]
fn order_delete_encodes_to_its_bytes() {
    let mut buf = [0u8; 19];
    let mut cursor = WriteCursor::new(&mut buf);
    assert_eq!(write_order_delete_struct(&mut cursor, order_delete_sample()), Ok(()));
    assert_eq!(cursor.position(), 19);
    assert_eq!(buf, ORDER_DELETE_BYTES);

    let m = order_delete_sample();
    let mut buf = [0u8; 22];
    let mut cursor = WriteCursor::new(&mut buf);
    cursor.write_u8(0xee).unwrap();
    let r = write_order_delete(
        &mut cursor,
        m.stock_locate,
        m.tracking_number,
        m.timestamp,
        m.order_reference_number,
    );
    assert_eq!(r, Ok(()));
    assert_eq!(cursor.position(), 20);
    assert_eq!(buf[0], 0xee);
    assert_eq!(buf[1..20], ORDER_DELETE_BYTES);
    assert_eq!(buf[20..], [0, 0]);
}

#[test]
fn order_delete_does_not_fit_in_one_byte_less() {
    let mut buf = [0u8; 18];
    let mut cursor = WriteCursor::new(&mut buf);
    assert_eq!(write_order_delete_struct(&mut cursor, order_delete_sample()), Err(EncodeError::BufferFull));
    assert_eq!(cursor.position(), 18);
    assert_eq!(buf, ORDER_DELETE_BYTES[..18]);
}

#[test]
fn order_delete_is_picked_by_its_tag() {
    assert_eq!(OrderDelete::TYPE, b'D');
    assert_eq!(Message::from_bytes(&ORDER_DELETE_BYTES), Ok(Message::OrderDelete(order_delete_sample())));
    assert_eq!(
        Message::from_bytes(&ORDER_DELETE_BYTES[..18]),
        Err(DecodeError::Truncated)
    );
}

#[test]
fn order_delete_default_is_all_zero() {
    let mut zeros = [0u8; 19];
    assert_eq!(OrderDelete::from_bytes(&zeros), Some((OrderDelete::default(), 19)));
    let mut buf = [0xffu8; 19];
    let mut cursor = WriteCursor::new(&mut buf);
    write_order_delete_struct(&mut cursor, OrderDelete::default()).unwrap();
    zeros[0] = OrderDelete::TYPE;
    assert_eq!(buf, zeros);
}

fn order_replace_sample() -> OrderReplace {
    OrderReplace {
        message_type: b'U',
        stock_locate: 0xbe31,
        tracking_number: 0xe867,
        timestamp: 0x9edf059b3de3,
        original_order_reference_number: 0xae88b481abe19714,
        new_order_reference_number: 0xf6b2ea3728c8534c,
        shares: 0xc3a38fbd,
        price: 0xa1bfb338,
    }
}

const ORDER_REPLACE_BYTES: [u8; 35] = [
    0x55, 0xbe, 0x31, 0xe8, 0x67, 0x9e, 0xdf, 0x05, 0x9b, 0x3d, 0xe3, 0xae, 0x88, 0xb4,
    0x81, 0xab, 0xe1, 0x97, 0x14, 0xf6, 0xb2, 0xea, 0x37, 0x28, 0xc8, 0x53, 0x4c, 0xc3,
    0xa3, 0x8f, 0xbd, 0xa1, 0xbf, 0xb3, 0x38
];

#[test]
fn order_replace_decodes_from_its_bytes() {
    assert_eq!(ORDER_REPLACE_SIZE, 35);
    assert_eq!(OrderReplace::from_bytes(&ORDER_REPLACE_BYTES), Some((order_replace_sample(), 35)));
    let mut longer = ORDER_REPLACE_BYTES.to_vec();
    longer.extend_from_slice(b"trailing");
    assert_eq!(OrderReplace::from_bytes(&longer), Some((order_replace_sample(), 35)));
    assert_eq!(OrderReplace::from_bytes(&ORDER_REPLACE_BYTES[..34]), None);
    assert_eq!(OrderReplace::from_bytes(b""), None);
}

#[test]
fn order_replace_decodes_at_a_cursor() {
    let mut twice = ORDER_REPLACE_BYTES.to_vec();
    twice.extend_from_slice(&ORDER_REPLACE_BYTES);
    twice.pop();
    let mut rdr = ReadCursor::new(&twice);
    assert_eq!(OrderReplace::from_cursor(&mut rdr), Ok(order_replace_sample()));
    assert_eq!(rdr.position(), 35);
    assert_eq!(OrderReplace::from_cursor(&mut rdr), Err(DecodeError::Truncated));
    assert_eq!(rdr.position(), 35);
}

#[test]
fn order_replace_encodes_to_its_bytes() {
    let mut buf = [0u8; 35];
    let mut cursor = WriteCursor::new(&mut buf);
    assert_eq!(write_order_replace_struct(&mut cursor, order_replace_sample()), Ok(()));
    assert_eq!(cursor.position(), 35);
    assert_eq!(buf, ORDER_REPLACE_BYTES);

    let m = order_replace_sample();
    let mut buf = [0u8; 38];
    let mut cursor = WriteCursor::new(&mut buf);
    cursor.write_u8(0xee).unwrap();
    let r = write_order_replace(
        &mut cursor,
        m.stock_locate,
        m.tracking_number,
        m.timestamp,
        m.original_order_reference_number,
        m.new_order_reference_number,
        m.shares,
        m.price,
    );
    assert_eq!(r, Ok(()));
    assert_eq!(cursor.position(), 36);
    assert_eq!(buf[0], 0xee);
    assert_eq!(buf[1..36], ORDER_REPLACE_BYTES);
    assert_eq!(buf[36..], [0, 0]);
}

#[test]
fn order_replace_does_not_fit_in_one_byte_less() {
    let mut buf = [0u8; 34];
    let mut cursor = WriteCursor::new(&mut buf);
    assert_eq!(write_order_replace_struct(&mut cursor, order_replace_sample()), Err(EncodeError::BufferFull));
    assert_eq!(cursor.position(), 34);
    assert_eq!(buf, ORDER_REPLACE_BYTES[..34]);
}

#[test]
fn order_replace_is_picked_by_its_tag() {
    assert_eq!(OrderReplace::TYPE, b'U');
    assert_eq!(Message::from_bytes(&ORDER_REPLACE_BYTES), Ok(Message::OrderReplace(order_replace_sample())));
    assert_eq!(
        Message::from_bytes(&ORDER_REPLACE_BYTES[..34]),
        Err(DecodeError::Truncated)
    );
}

#[test]
fn order_replace_default_is_all_zero() {
    let mut zeros = [0u8; 35];
    assert_eq!(OrderReplace::from_bytes(&zeros), Some((OrderReplace::default(), 35)));
    let mut buf = [0xffu8; 35];
    let mut cursor = WriteCursor::new(&mut buf);
    write_order_replace_struct(&mut cursor, OrderReplace::default()).unwrap();
    zeros[0] = OrderReplace::TYPE;
    assert_eq!(buf, zeros);
}

fn trade_sample() -> Trade {
    Trade {
        message_type: b'P',
        stock_locate: 0xf107,
        tracking_number: 0xb2b1,
        timestamp: 0xa1f84963f0f2,
        order_reference_number: 0x8902bb8a4bf569b0,
        buy_sell_indicator: eBuySellIndicator(eBuySellIndicator::Buy_Order),
        shares: 0xbe6af992,
        stock: *b"BZOXJNWF",
        price: 0xad3f7aa2,
        match_number: 0xc683425a55deb761,
    }
}

const TRADE_BYTES: [u8; 44] = [
    0x50, 0xf1, 0x07, 0xb2, 0xb1, 0xa1, 0xf8, 0x49, 0x63, 0xf0, 0xf2, 0x89, 0x02, 0xbb,
    0x8a, 0x4b, 0xf5, 0x69, 0xb0, 0x42, 0xbe, 0x6a, 0xf9, 0x92, 0x42, 0x5a, 0x4f, 0x58,
    0x4a, 0x4e, 0x57, 0x46, 0xad, 0x3f, 0x7a, 0xa2, 0xc6, 0x83, 0x42, 0x5a, 0x55, 0xde,
    0xb7, 0x61
];

#[test]
fn trade_decodes_from_its_bytes() {
    assert_eq!(TRADE_SIZE, 44);
    assert_eq!(Trade::from_bytes(&TRADE_BYTES), Some((trade_sample(), 44)));
    let mut longer = TRADE_BYTES.to_vec();
    longer.extend_from_slice(b"trailing");
    assert_eq!(Trade::from_bytes(&longer), Some((trade_sample(), 44)));
    assert_eq!(Trade::from_bytes(&TRADE_BYTES[..43]), None);
    assert_eq!(Trade::from_bytes(b""), None);
}

#[test]
fn trade_decodes_at_a_cursor() {
    let mut twice = TRADE_BYTES.to_vec();
    twice.extend_from_slice(&TRADE_BYTES);
    twice.pop();
    let mut rdr = ReadCursor::new(&twice);
    assert_eq!(Trade::from_cursor(&mut rdr), Ok(trade_sample()));
    assert_eq!(rdr.position(), 44);
    assert_eq!(Trade::from_cursor(&mut rdr), Err(DecodeError::Truncated));
    assert_eq!(rdr.position(), 44);
}

#[test]
fn trade_encodes_to_its_bytes() {
    let mut buf = [0u8; 44];
    let mut cursor = WriteCursor::new(&mut buf);
    assert_eq!(write_trade_struct(&mut cursor, trade_sample()), Ok(()));
    assert_eq!(cursor.position(), 44);
    assert_eq!(buf, TRADE_BYTES);

    let m = trade_sample();
    let mut buf = [0u8; 47];
    let mut cursor = WriteCursor::new(&mut buf);
    cursor.write_u8(0xee).unwrap();
    let r = write_trade(
        &mut cursor,
        m.stock_locate,
        m.tracking_number,
        m.timestamp,
        m.order_reference_number,
        m.buy_sell_indicator,
        m.shares,
        m.stock,
        m.price,
        m.match_number,
    );
    assert_eq!(r, Ok(()));
    assert_eq!(cursor.position(), 45);
    assert_eq!(buf[0], 0xee);
    assert_eq!(buf[1..45], TRADE_BYTES);
    assert_eq!(buf[45..], [0, 0]);
}

#[test]
fn trade_does_not_fit_in_one_byte_less() {
    let mut buf = [0u8; 43];
    let mut cursor = WriteCursor::new(&mut buf);
    assert_eq!(write_trade_struct(&mut cursor, trade_sample()), Err(EncodeError::BufferFull));
    assert_eq!(cursor.position(), 43);
    assert_eq!(buf, TRADE_BYTES[..43]);
}

#[test]
fn trade_is_picked_by_its_tag() {
    assert_eq!(Trade::TYPE, b'P');
    assert_eq!(Message::from_bytes(&TRADE_BYTES), Ok(Message::Trade(trade_sample())));
    assert_eq!(
        Message::from_bytes(&TRADE_BYTES[..43]),
        Err(DecodeError::Truncated)
    );
}

#[test]
fn trade_default_is_all_zero() {
    let mut zeros = [0u8; 44];
    assert_eq!(Trade::from_bytes(&zeros), Some((Trade::default(), 44)));
    let mut buf = [0xffu8; 44];
    let mut cursor = WriteCursor::new(&mut buf);
    write_trade_struct(&mut cursor, Trade::default()).unwrap();
    zeros[0] = Trade::TYPE;
    assert_eq!(buf, zeros);
}

fn cross_trade_sample() -> CrossTrade {
    CrossTrade {
        message_type: b'Q',
        stock_locate: 0xde7e,
        tracking_number: 0xcb33,
        timestamp: 0xfadbd7aec14a,
        shares: 0xac2fd1ee601544ec,
        stock: *b"TAEINDXG",
        cross_price: 0xe5876b47,
        match_number: 0xcc7c39ba41111b04,
        cross_type: eCrossType(eCrossType::Cross_for_IPO_and_halted_paused_securities),
    }
}

const CROSS_TRADE_BYTES: [u8; 40] = [
    0x51, 0xde, 0x7e, 0xcb, 0x33, 0xfa, 0xdb, 0xd7, 0xae, 0xc1, 0x4a, 0xac, 0x2f, 0xd1,
    0xee, 0x60, 0x15, 0x44, 0xec, 0x54, 0x41, 0x45, 0x49, 0x4e, 0x44, 0x58, 0x47, 0xe5,
    0x87, 0x6b, 0x47, 0xcc, 0x7c, 0x39, 0xba, 0x41, 0x11, 0x1b, 0x04, 0x48
];

#[test]
fn cross_trade_decodes_from_its_bytes() {
    assert_eq!(CROSS_TRADE_SIZE, 40);
    assert_eq!(CrossTrade::from_bytes(&CROSS_TRADE_BYTES), Some((cross_trade_sample(), 40)));
    let mut longer = CROSS_TRADE_BYTES.to_vec();
    longer.extend_from_slice(b"trailing");
    assert_eq!(CrossTrade::from_bytes(&longer), Some((cross_trade_sample(), 40)));
    assert_eq!(CrossTrade::from_bytes(&CROSS_TRADE_BYTES[..39]), None);
    assert_eq!(CrossTrade::from_bytes(b""), None);
}

#[test]
fn cross_trade_decodes_at_a_cursor() {
    let mut twice = CROSS_TRADE_BYTES.to_vec();
    twice.extend_from_slice(&CROSS_TRADE_BYTES);
    twice.pop();
    let mut rdr = ReadCursor::new(&twice);
    assert_eq!(CrossTrade::from_cursor(&mut rdr), Ok(cross_trade_sample()));
    assert_eq!(rdr.position(), 40);
    assert_eq!(CrossTrade::from_cursor(&mut rdr), Err(DecodeError::Truncated));
    assert_eq!(rdr.position(), 40);
}

#[test]
fn cross_trade_encodes_to_its_bytes() {
    let mut buf = [0u8; 40];
    let mut cursor = WriteCursor::new(&mut buf);
    assert_eq!(write_cross_trade_struct(&mut cursor, cross_trade_sample()), Ok(()));
    assert_eq!(cursor.position(), 40);
    assert_eq!(buf, CROSS_TRADE_BYTES);

    let m = cross_trade_sample();
    let mut buf = [0u8; 43];
    let mut cursor = WriteCursor::new(&mut buf);
    cursor.write_u8(0xee).unwrap();
    let r = write_cross_trade(
        &mut cursor,
        m.stock_locate,
        m.tracking_number,
        m.timestamp,
        m.shares,
        m.stock,
        m.cross_price,
        m.match_number,
        m.cross_type,
    );
    assert_eq!(r, Ok(()));
    assert_eq!(cursor.position(), 41);
    assert_eq!(buf[0], 0xee);
    assert_eq!(buf[1..41], CROSS_TRADE_BYTES);
    assert_eq!(buf[41..], [0, 0]);
}

#[test]
fn cross_trade_does_not_fit_in_one_byte_less() {
    let mut buf = [0u8; 39];
    let mut cursor = WriteCursor::new(&mut buf);
    assert_eq!(write_cross_trade_struct(&mut cursor, cross_trade_sample()), Err(EncodeError::BufferFull));
    assert_eq!(cursor.position(), 39);
    assert_eq!(buf, CROSS_TRADE_BYTES[..39]);
}

#[test]
fn cross_trade_is_picked_by_its_tag() {
    assert_eq!(CrossTrade::TYPE, b'Q');
    assert_eq!(Message::from_bytes(&CROSS_TRADE_BYTES), Ok(Message::CrossTrade(cross_trade_sample())));
    assert_eq!(
        Message::from_bytes(&CROSS_TRADE_BYTES[..39]),
        Err(DecodeError::Truncated)
    );
}

#[test]
fn cross_trade_default_is_all_zero() {
    let mut zeros = [0u8; 40];
    assert_eq!(CrossTrade::from_bytes(&zeros), Some((CrossTrade::default(), 40)));
    let mut buf = [0xffu8; 40];
    let mut cursor = WriteCursor::new(&mut buf);
    write_cross_trade_struct(&mut cursor, CrossTrade::default()).unwrap();
    zeros[0] = CrossTrade::TYPE;
    assert_eq!(buf, zeros);
}

fn broken_trade_sample() -> BrokenTrade {
    BrokenTrade {
        message_type: b'B',
        stock_locate: 0x8309,
        tracking_number: 0xc42a,
        timestamp: 0xdfc70a12643e,
        match_number: 0xb168671edf059b3d,
    }
}

const BROKEN_TRADE_BYTES: [u8; 19] = [
    0x42, 0x83, 0x09, 0xc4, 0x2a, 0xdf, 0xc7, 0x0a, 0x12, 0x64, 0x3e, 0xb1, 0x68, 0x67,
    0x1e, 0xdf, 0x05, 0x9b, 0x3d
];

#[test]
fn broken_trade_decodes_from_its_bytes() {
    assert_eq!(BROKEN_TRADE_SIZE, 19);
    assert_eq!(BrokenTrade::from_bytes(&BROKEN_TRADE_BYTES), Some((broken_trade_sample(), 19)));
    let mut longer = BROKEN_TRADE_BYTES.to_vec();
    longer.extend_from_slice(b"trailing");
    assert_eq!(BrokenTrade::from_bytes(&longer), Some((broken_trade_sample(), 19)));
    assert_eq!(BrokenTrade::from_bytes(&BROKEN_TRADE_BYTES[..18]), None);
    assert_eq!(BrokenTrade::from_bytes(b""), None);
}

#[test]
fn broken_trade_decodes_at_a_cursor() {
    let mut twice = BROKEN_TRADE_BYTES.to_vec();
    twice.extend_from_slice(&BROKEN_TRADE_BYTES);
    twice.pop();
    let mut rdr = ReadCursor::new(&twice);
    assert_eq!(BrokenTrade::from_cursor(&mut rdr), Ok(broken_trade_sample()));
    assert_eq!(rdr.position(), 19);
    assert_eq!(BrokenTrade::from_cursor(&mut rdr), Err(DecodeError::Truncated));
    assert_eq!(rdr.position(), 19);
}

#[test]
fn broken_trade_encodes_to_its_bytes() {
    let mut buf = [0u8; 19];
    let mut cursor = WriteCursor::new(&mut buf);
    assert_eq!(write_broken_trade_struct(&mut cursor, broken_trade_sample()), Ok(()));
    assert_eq!(cursor.position(), 19);
    assert_eq!(buf, BROKEN_TRADE_BYTES);

    let m = broken_trade_sample();
    let mut buf = [0u8; 22];
    let mut cursor = WriteCursor::new(&mut buf);
    cursor.write_u8(0xee).unwrap();
    let r = write_broken_trade(
        &mut cursor,
        m.stock_locate,
        m.tracking_number,
        m.timestamp,
        m.match_number,
    );
    assert_eq!(r, Ok(()));
    assert_eq!(cursor.position(), 20);
    assert_eq!(buf[0], 0xee);
    assert_eq!(buf[1..20], BROKEN_TRADE_BYTES);
    assert_eq!(buf[20..], [0, 0]);
}

#[test]
fn broken_trade_does_not_fit_in_one_byte_less() {
    let mut buf = [0u8; 18];
    let mut cursor = WriteCursor::new(&mut buf);
    assert_eq!(write_broken_trade_struct(&mut cursor, broken_trade_sample()), Err(EncodeError::BufferFull));
    assert_eq!(cursor.position(), 18);
    assert_eq!(buf, BROKEN_TRADE_BYTES[..18]);
}

#[test]
fn broken_trade_is_picked_by_its_tag() {
    assert_eq!(BrokenTrade::TYPE, b'B');
    assert_eq!(Message::from_bytes(&BROKEN_TRADE_BYTES), Ok(Message::BrokenTrade(broken_trade_sample())));
    assert_eq!(
        Message::from_bytes(&BROKEN_TRADE_BYTES[..18]),
        Err(DecodeError::Truncated)
    );
}

#[test]
fn broken_trade_default_is_all_zero() {
    let mut zeros = [0u8; 19];
    assert_eq!(BrokenTrade::from_bytes(&zeros), Some((BrokenTrade::default(), 19)));
    let mut buf = [0xffu8; 19];
    let mut cursor = WriteCursor::new(&mut buf);
    write_broken_trade_struct(&mut cursor, BrokenTrade::default()).unwrap();
    zeros[0] = BrokenTrade::TYPE;
    assert_eq!(buf, zeros);
}

fn net_order_imbalance_indicator_sample() -> NetOrderImbalanceIndicator {
    NetOrderImbalanceIndicator {
        message_type: b'I',
        stock_locate: 0xe32e,
        tracking_number: 0x88b4,
        timestamp: 0x81abe19714f6,
        paired_shares: 0xb2ea3728c8534c43,
        imbalance_shares: 0xa38fbd21bfb33871,
        imbalance_direction: eImbalanceDirection(eImbalanceDirection::Insufficient_orders_to_calculate),
        stock: *b"YVFOVVGI",
        far_price: 0x8902bb8a,
        near_price: 0xcbf569b0,
        current_reference_price: 0xd8be6af9,
        cross_type: eCrossType(eCrossType::Cross_for_IPO_and_halted_paused_securities),
        price_variation_indicator: ePriceVariationIndicator(ePriceVariationIndicator::deviation_3_to_4_pct),
    }
}

const NET_ORDER_IMBALANCE_INDICATOR_BYTES: [u8; 50] = [
    0x49, 0xe3, 0x2e, 0x88, 0xb4, 0x81, 0xab, 0xe1, 0x97, 0x14, 0xf6, 0xb2, 0xea, 0x37,
    0x28, 0xc8, 0x53, 0x4c, 0x43, 0xa3, 0x8f, 0xbd, 0x21, 0xbf, 0xb3, 0x38, 0x71, 0x4f,
    0x59, 0x56, 0x46, 0x4f, 0x56, 0x56, 0x47, 0x49, 0x89, 0x02, 0xbb, 0x8a, 0xcb, 0xf5,
    0x69, 0xb0, 0xd8, 0xbe, 0x6a, 0xf9, 0x48, 0x33
];

#[test]
fn net_order_imbalance_indicator_decodes_from_its_bytes() {
    assert_eq!(NET_ORDER_IMBALANCE_INDICATOR_SIZE, 50);
    assert_eq!(NetOrderImbalanceIndicator::from_bytes(&NET_ORDER_IMBALANCE_INDICATOR_BYTES), Some((net_order_imbalance_indicator_sample(), 50)));
    let mut longer = NET_ORDER_IMBALANCE_INDICATOR_BYTES.to_vec();
    longer.extend_from_slice(b"trailing");
    assert_eq!(NetOrderImbalanceIndicator::from_bytes(&longer), Some((net_order_imbalance_indicator_sample(), 50)));
    assert_eq!(NetOrderImbalanceIndicator::from_bytes(&NET_ORDER_IMBALANCE_INDICATOR_BYTES[..49]), None);
    assert_eq!(NetOrderImbalanceIndicator::from_bytes(b""), None);
}

#[test]
fn net_order_imbalance_indicator_decodes_at_a_cursor() {
    let mut twice = NET_ORDER_IMBALANCE_INDICATOR_BYTES.to_vec();
    twice.extend_from_slice(&NET_ORDER_IMBALANCE_INDICATOR_BYTES);
    twice.pop();
    let mut rdr = ReadCursor::new(&twice);
    assert_eq!(NetOrderImbalanceIndicator::from_cursor(&mut rdr), Ok(net_order_imbalance_indicator_sample()));
    assert_eq!(rdr.position(), 50);
    assert_eq!(NetOrderImbalanceIndicator::from_cursor(&mut rdr), Err(DecodeError::Truncated));
    assert_eq!(rdr.position(), 50);
}

#[test]
fn net_order_imbalance_indicator_encodes_to_its_bytes() {
    let mut buf = [0u8; 50];
    let mut cursor = WriteCursor::new(&mut buf);
    assert_eq!(write_net_order_imbalance_indicator_struct(&mut cursor, net_order_imbalance_indicator_sample()), Ok(()));
    assert_eq!(cursor.position(), 50);
    assert_eq!(buf, NET_ORDER_IMBALANCE_INDICATOR_BYTES);

    let m = net_order_imbalance_indicator_sample();
    let mut buf = [0u8; 53];
    let mut cursor = WriteCursor::new(&mut buf);
    cursor.write_u8(0xee).unwrap();
    let r = write_net_order_imbalance_indicator(
        &mut cursor,
        m.stock_locate,
        m.tracking_number,
        m.timestamp,
        m.paired_shares,
        m.imbalance_shares,
        m.imbalance_direction,
        m.stock,
        m.far_price,
        m.near_price,
        m.current_reference_price,
        m.cross_type,
        m.price_variation_indicator,
    );
    assert_eq!(r, Ok(()));
    assert_eq!(cursor.position(), 51);
    assert_eq!(buf[0], 0xee);
    assert_eq!(buf[1..51], NET_ORDER_IMBALANCE_INDICATOR_BYTES);
    assert_eq!(buf[51..], [0, 0]);
}

#[test]
fn net_order_imbalance_indicator_does_not_fit_in_one_byte_less() {
    let mut buf = [0u8; 49];
    let mut cursor = WriteCursor::new(&mut buf);
    assert_eq!(write_net_order_imbalance_indicator_struct(&mut cursor, net_order_imbalance_indicator_sample()), Err(EncodeError::BufferFull));
    assert_eq!(cursor.position(), 49);
    assert_eq!(buf, NET_ORDER_IMBALANCE_INDICATOR_BYTES[..49]);
}

#[test]
fn net_order_imbalance_indicator_is_picked_by_its_tag() {
    assert_eq!(NetOrderImbalanceIndicator::TYPE, b'I');
    assert_eq!(Message::from_bytes(&NET_ORDER_IMBALANCE_INDICATOR_BYTES), Ok(Message::NetOrderImbalanceIndicator(net_order_imbalance_indicator_sample())));
    assert_eq!(
        Message::from_bytes(&NET_ORDER_IMBALANCE_INDICATOR_BYTES[..49]),
        Err(DecodeError::Truncated)
    );
}

#[test]
fn net_order_imbalance_indicator_default_is_all_zero() {
    let mut zeros = [0u8; 50];
    assert_eq!(NetOrderImbalanceIndicator::from_bytes(&zeros), Some((NetOrderImbalanceIndicator::default(), 50)));
    let mut buf = [0xffu8; 50];
    let mut cursor = WriteCursor::new(&mut buf);
    write_net_order_imbalance_indicator_struct(&mut cursor, NetOrderImbalanceIndicator::default()).unwrap();
    zeros[0] = NetOrderImbalanceIndicator::TYPE;
    assert_eq!(buf, zeros);
}

fn retail_price_improvement_indicator_sample() -> RetailPriceImprovementIndicator {
    RetailPriceImprovementIndicator {
        message_type: b'N',
        stock_locate: 0xcf5c,
        tracking_number: 0xe757,
        timestamp: 0xf5301f2d3f7a,
        stock: *b"GSBOMHOB",
        interest_flag: eInterestFlag(eInterestFlag::RPI_orders_available_on_the_sell_side),
    }
}

const RETAIL_PRICE_IMPROVEMENT_INDICATOR_BYTES: [u8; 20] = [
    0x4e, 0xcf, 0x5c, 0xe7, 0x57, 0xf5, 0x30, 0x1f, 0x2d, 0x3f, 0x7a, 0x47, 0x53, 0x42,
    0x4f, 0x4d, 0x48, 0x4f, 0x42, 0x53
];

#[test]
fn retail_price_improvement_indicator_decodes_from_its_bytes() {
    assert_eq!(RETAIL_PRICE_IMPROVEMENT_INDICATOR_SIZE, 20);
    assert_eq!(RetailPriceImprovementIndicator::from_bytes(&RETAIL_PRICE_IMPROVEMENT_INDICATOR_BYTES), Some((retail_price_improvement_indicator_sample(), 20)));
    let mut longer = RETAIL_PRICE_IMPROVEMENT_INDICATOR_BYTES.to_vec();
    longer.extend_from_slice(b"trailing");
    assert_eq!(RetailPriceImprovementIndicator::from_bytes(&longer), Some((retail_price_improvement_indicator_sample(), 20)));
    assert_eq!(RetailPriceImprovementIndicator::from_bytes(&RETAIL_PRICE_IMPROVEMENT_INDICATOR_BYTES[..19]), None);
    assert_eq!(RetailPriceImprovementIndicator::from_bytes(b""), None);
}

#[test]
fn retail_price_improvement_indicator_decodes_at_a_cursor() {
    let mut twice = RETAIL_PRICE_IMPROVEMENT_INDICATOR_BYTES.to_vec();
    twice.extend_from_slice(&RETAIL_PRICE_IMPROVEMENT_INDICATOR_BYTES);
    twice.pop();
    let mut rdr = ReadCursor::new(&twice);
    assert_eq!(RetailPriceImprovementIndicator::from_cursor(&mut rdr), Ok(retail_price_improvement_indicator_sample()));
    assert_eq!(rdr.position(), 20);
    assert_eq!(RetailPriceImprovementIndicator::from_cursor(&mut rdr), Err(DecodeError::Truncated));
    assert_eq!(rdr.position(), 20);
}

#[test]
fn retail_price_improvement_indicator_encodes_to_its_bytes() {
    let mut buf = [0u8; 20];
    let mut cursor = WriteCursor::new(&mut buf);
    assert_eq!(write_retail_price_improvement_indicator_struct(&mut cursor, retail_price_improvement_indicator_sample()), Ok(()));
    assert_eq!(cursor.position(), 20);
    assert_eq!(buf, RETAIL_PRICE_IMPROVEMENT_INDICATOR_BYTES);

    let m = retail_price_improvement_indicator_sample();
    let mut buf = [0u8; 23];
    let mut cursor = WriteCursor::new(&mut buf);
    cursor.write_u8(0xee).unwrap();
    let r = write_retail_price_improvement_indicator(
        &mut cursor,
        m.stock_locate,
        m.tracking_number,
        m.timestamp,
        m.stock,
        m.interest_flag,
    );
    assert_eq!(r, Ok(()));
    assert_eq!(cursor.position(), 21);
    assert_eq!(buf[0], 0xee);
    assert_eq!(buf[1..21], RETAIL_PRICE_IMPROVEMENT_INDICATOR_BYTES);
    assert_eq!(buf[21..], [0, 0]);
}

#[test]
fn retail_price_improvement_indicator_does_not_fit_in_one_byte_less() {
    let mut buf = [0u8; 19];
    let mut cursor = WriteCursor::new(&mut buf);
    assert_eq!(write_retail_price_improvement_indicator_struct(&mut cursor, retail_price_improvement_indicator_sample()), Err(EncodeError::BufferFull));
    assert_eq!(cursor.position(), 19);
    assert_eq!(buf, RETAIL_PRICE_IMPROVEMENT_INDICATOR_BYTES[..19]);
}

#[test]
fn retail_price_improvement_indicator_is_picked_by_its_tag() {
    assert_eq!(RetailPriceImprovementIndicator::TYPE, b'N');
    assert_eq!(Message::from_bytes(&RETAIL_PRICE_IMPROVEMENT_INDICATOR_BYTES), Ok(Message::RetailPriceImprovementIndicator(retail_price_improvement_indicator_sample())));
    assert_eq!(
        Message::from_bytes(&RETAIL_PRICE_IMPROVEMENT_INDICATOR_BYTES[..19]),
        Err(DecodeError::Truncated)
    );
}

#[test]
fn retail_price_improvement_indicator_default_is_all_zero() {
    let mut zeros = [0u8; 20];
    assert_eq!(RetailPriceImprovementIndicator::from_bytes(&zeros), Some((RetailPriceImprovementIndicator::default(), 20)));
    let mut buf = [0xffu8; 20];
    let mut cursor = WriteCursor::new(&mut buf);
    write_retail_price_improvement_indicator_struct(&mut cursor, RetailPriceImprovementIndicator::default()).unwrap();
    zeros[0] = RetailPriceImprovementIndicator::TYPE;
    assert_eq!(buf, zeros);
}

fn end_of_snapshot_sample() -> EndOfSnapshot {
    EndOfSnapshot {
        message_type: b'G',
        sequence_number: *b"QWVZQLHSLWQVBESVQCTA",
    }
}

const END_OF_SNAPSHOT_BYTES: [u8; 21] = [
    0x47, 0x51, 0x57, 0x56, 0x5a, 0x51, 0x4c, 0x48, 0x53, 0x4c, 0x57, 0x51, 0x56, 0x42,
    0x45, 0x53, 0x56, 0x51, 0x43, 0x54, 0x41
];

#[test]
fn end_of_snapshot_decodes_from_its_bytes() {
    assert_eq!(END_OF_SNAPSHOT_SIZE, 21);
    assert_eq!(EndOfSnapshot::from_bytes(&END_OF_SNAPSHOT_BYTES), Some((end_of_snapshot_sample(), 21)));
    let mut longer = END_OF_SNAPSHOT_BYTES.to_vec();
    longer.extend_from_slice(b"trailing");
    assert_eq!(EndOfSnapshot::from_bytes(&longer), Some((end_of_snapshot_sample(), 21)));
    assert_eq!(EndOfSnapshot::from_bytes(&END_OF_SNAPSHOT_BYTES[..20]), None);
    assert_eq!(EndOfSnapshot::from_bytes(b""), None);
}

#[test]
fn end_of_snapshot_decodes_at_a_cursor() {
    let mut twice = END_OF_SNAPSHOT_BYTES.to_vec();
    twice.extend_from_slice(&END_OF_SNAPSHOT_BYTES);
    twice.pop();
    let mut rdr = ReadCursor::new(&twice);
    assert_eq!(EndOfSnapshot::from_cursor(&mut rdr), Ok(end_of_snapshot_sample()));
    assert_eq!(rdr.position(), 21);
    assert_eq!(EndOfSnapshot::from_cursor(&mut rdr), Err(DecodeError::Truncated));
    assert_eq!(rdr.position(), 21);
}

#[test]
fn end_of_snapshot_encodes_to_its_bytes() {
    let mut buf = [0u8; 21];
    let mut cursor = WriteCursor::new(&mut buf);
    assert_eq!(write_end_of_snapshot_struct(&mut cursor, end_of_snapshot_sample()), Ok(()));
    assert_eq!(cursor.position(), 21);
    assert_eq!(buf, END_OF_SNAPSHOT_BYTES);

    let m = end_of_snapshot_sample();
    let mut buf = [0u8; 24];
    let mut cursor = WriteCursor::new(&mut buf);
    cursor.write_u8(0xee).unwrap();
    let r = write_end_of_snapshot(&mut cursor, m.sequence_number);
    assert_eq!(r, Ok(()));
    assert_eq!(cursor.position(), 22);
    assert_eq!(buf[0], 0xee);
    assert_eq!(buf[1..22], END_OF_SNAPSHOT_BYTES);
    assert_eq!(buf[22..], [0, 0]);
}

#[test]
fn end_of_snapshot_does_not_fit_in_one_byte_less() {
    let mut buf = [0u8; 20];
    let mut cursor = WriteCursor::new(&mut buf);
    assert_eq!(write_end_of_snapshot_struct(&mut cursor, end_of_snapshot_sample()), Err(EncodeError::BufferFull));
    assert_eq!(cursor.position(), 20);
    assert_eq!(buf, END_OF_SNAPSHOT_BYTES[..20]);
}

#[test]
fn end_of_snapshot_is_picked_by_its_tag() {
    assert_eq!(EndOfSnapshot::TYPE, b'G');
    assert_eq!(Message::from_bytes(&END_OF_SNAPSHOT_BYTES), Ok(Message::EndOfSnapshot(end_of_snapshot_sample())));
    assert_eq!(
        Message::from_bytes(&END_OF_SNAPSHOT_BYTES[..20]),
        Err(DecodeError::Truncated)
    );
}

#[test]
fn end_of_snapshot_default_is_all_zero() {
    let mut zeros = [0u8; 21];
    assert_eq!(EndOfSnapshot::from_bytes(&zeros), Some((EndOfSnapshot::default(), 21)));
    let mut buf = [0xffu8; 21];
    let mut cursor = WriteCursor::new(&mut buf);
    write_end_of_snapshot_struct(&mut cursor, EndOfSnapshot::default()).unwrap();
    zeros[0] = EndOfSnapshot::TYPE;
    assert_eq!(buf, zeros);
}
