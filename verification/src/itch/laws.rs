//! What holds between `decoded` and `encoded`, for every message type.

use crate::bytes::{
    array20_at, array2_at, array4_at, array8_at, be_bytes, lemma_be_bytes_len,
    lemma_be_value_bound, lemma_bytes_of_value, lemma_pow256_values, lemma_value_of_bytes,
};
use crate::itch::records::{
    SystemEvent, SYSTEM_EVENT_SIZE,
    StockDirectory, STOCK_DIRECTORY_SIZE,
    StockTradingAction, STOCK_TRADING_ACTION_SIZE,
    RegShoRestriction, REG_SHO_RESTRICTION_SIZE,
    MarketParticipantPosition, MARKET_PARTICIPANT_POSITION_SIZE,
    MwcbDeclineLevel, MWCB_DECLINE_LEVEL_SIZE,
    MwcbStatus, MWCB_STATUS_SIZE,
    IpoQuotingPeriodUpdate, IPO_QUOTING_PERIOD_UPDATE_SIZE,
    LuldAuctionCollar, LULD_AUCTION_COLLAR_SIZE,
    OperationalHalt, OPERATIONAL_HALT_SIZE,
    AddOrder, ADD_ORDER_SIZE,
    AddOrderWithMpid, ADD_ORDER_WITH_MPID_SIZE,
    OrderExecuted, ORDER_EXECUTED_SIZE,
    OrderExecutedWithPrice, ORDER_EXECUTED_WITH_PRICE_SIZE,
    OrderCancel, ORDER_CANCEL_SIZE,
    OrderDelete, ORDER_DELETE_SIZE,
    OrderReplace, ORDER_REPLACE_SIZE,
    Trade, TRADE_SIZE,
    CrossTrade, CROSS_TRADE_SIZE,
    BrokenTrade, BROKEN_TRADE_SIZE,
    NetOrderImbalanceIndicator, NET_ORDER_IMBALANCE_INDICATOR_SIZE,
    RetailPriceImprovementIndicator, RETAIL_PRICE_IMPROVEMENT_INDICATOR_SIZE,
    EndOfSnapshot, END_OF_SNAPSHOT_SIZE,
};
use vstd::prelude::*;

verus! {

impl SystemEvent {
    /// An encoded record is `SYSTEM_EVENT_SIZE` bytes long and begins with the
    /// tag.
    pub proof fn lemma_encoded_len(self)
        ensures
            self.encoded().len() == SYSTEM_EVENT_SIZE,
            self.encoded()[0] == Self::TYPE,
    {
        lemma_be_bytes_len(self.stock_locate as nat, 2);
        lemma_be_bytes_len(self.tracking_number as nat, 2);
        lemma_be_bytes_len(self.timestamp as nat, 6);
    }

    /// Decoding what was encoded gives the record back field for field, but for
    /// what encoding does not keep: the tag is the type's own, and the
    /// timestamp is cut to its low 48 bits. A record that holds its own tag and
    /// a timestamp below `2^48` comes back unchanged.
    pub proof fn lemma_decode_encode(self)
        ensures
            Self::decoded(self.encoded()) == (SystemEvent {
                message_type: Self::TYPE,
                timestamp: (self.timestamp % 0x1_0000_0000_0000) as u64,
                ..self
            }),
            self.message_type == Self::TYPE && self.timestamp < 0x1_0000_0000_0000
                ==> Self::decoded(self.encoded()) == self,
    {
        let b = self.encoded();
        lemma_pow256_values();
        lemma_be_bytes_len(self.stock_locate as nat, 2);
        lemma_be_bytes_len(self.tracking_number as nat, 2);
        lemma_be_bytes_len(self.timestamp as nat, 6);
        assert(b.subrange(1, 3) =~= be_bytes(self.stock_locate as nat, 2));
        lemma_value_of_bytes(self.stock_locate as nat, 2);
        assert(b.subrange(3, 5) =~= be_bytes(self.tracking_number as nat, 2));
        lemma_value_of_bytes(self.tracking_number as nat, 2);
        assert(b.subrange(5, 11) =~= be_bytes(self.timestamp as nat, 6));
        lemma_value_of_bytes(self.timestamp as nat, 6);
        assert(b[11] == self.event_code.0);
    }

    /// Encoding what was decoded from `SYSTEM_EVENT_SIZE` bytes that begin with
    /// the tag gives those bytes back.
    pub proof fn lemma_encode_decode(b: Seq<u8>)
        requires
            b.len() == SYSTEM_EVENT_SIZE,
            b[0] == Self::TYPE,
        ensures
            Self::decoded(b).encoded() == b,
    {
        let v = Self::decoded(b);
        lemma_pow256_values();
        lemma_be_value_bound(b.subrange(1, 3));
        lemma_bytes_of_value(b.subrange(1, 3));
        assert(be_bytes(v.stock_locate as nat, 2) == b.subrange(1, 3));
        lemma_be_value_bound(b.subrange(3, 5));
        lemma_bytes_of_value(b.subrange(3, 5));
        assert(be_bytes(v.tracking_number as nat, 2) == b.subrange(3, 5));
        lemma_be_value_bound(b.subrange(5, 11));
        lemma_bytes_of_value(b.subrange(5, 11));
        assert(be_bytes(v.timestamp as nat, 6) == b.subrange(5, 11));
        assert(v.encoded() =~= b);
    }
}

impl StockDirectory {
    /// An encoded record is `STOCK_DIRECTORY_SIZE` bytes long and begins with
    /// the tag.
    pub proof fn lemma_encoded_len(self)
        ensures
            self.encoded().len() == STOCK_DIRECTORY_SIZE,
            self.encoded()[0] == Self::TYPE,
    {
        lemma_be_bytes_len(self.stock_locate as nat, 2);
        lemma_be_bytes_len(self.tracking_number as nat, 2);
        lemma_be_bytes_len(self.timestamp as nat, 6);
        lemma_be_bytes_len(self.round_lot_size as nat, 4);
        lemma_be_bytes_len(self.etp_leverage_factor as nat, 4);
    }

    /// Decoding what was encoded gives the record back field for field, but for
    /// what encoding does not keep: the tag is the type's own, and the
    /// timestamp is cut to its low 48 bits. A record that holds its own tag and
    /// a timestamp below `2^48` comes back unchanged.
    pub proof fn lemma_decode_encode(self)
        ensures
            Self::decoded(self.encoded()) == (StockDirectory {
                message_type: Self::TYPE,
                timestamp: (self.timestamp % 0x1_0000_0000_0000) as u64,
                ..self
            }),
            self.message_type == Self::TYPE && self.timestamp < 0x1_0000_0000_0000
                ==> Self::decoded(self.encoded()) == self,
    {
        let b = self.encoded();
        lemma_pow256_values();
        lemma_be_bytes_len(self.stock_locate as nat, 2);
        lemma_be_bytes_len(self.tracking_number as nat, 2);
        lemma_be_bytes_len(self.timestamp as nat, 6);
        lemma_be_bytes_len(self.round_lot_size as nat, 4);
        lemma_be_bytes_len(self.etp_leverage_factor as nat, 4);
        assert(b.subrange(1, 3) =~= be_bytes(self.stock_locate as nat, 2));
        lemma_value_of_bytes(self.stock_locate as nat, 2);
        assert(b.subrange(3, 5) =~= be_bytes(self.tracking_number as nat, 2));
        lemma_value_of_bytes(self.tracking_number as nat, 2);
        assert(b.subrange(5, 11) =~= be_bytes(self.timestamp as nat, 6));
        lemma_value_of_bytes(self.timestamp as nat, 6);
        assert(array8_at(b, 11) =~= self.stock);
        assert(b[19] == self.market_category.0);
        assert(b[20] == self.financial_status_indicator.0);
        assert(b.subrange(21, 25) =~= be_bytes(self.round_lot_size as nat, 4));
        lemma_value_of_bytes(self.round_lot_size as nat, 4);
        assert(b[25] == self.round_lots_only.0);
        assert(b[26] == self.issue_classification.0);
        assert(array2_at(b, 27) =~= self.issue_sub_type);
        assert(b[29] == self.authenticity.0);
        assert(b[30] == self.short_sale_threshold_indicator.0);
        assert(b[31] == self.ipo_flag.0);
        assert(b[32] == self.luld_reference_price_tier.0);
        assert(b[33] == self.etp_flag.0);
        assert(b.subrange(34, 38) =~= be_bytes(self.etp_leverage_factor as nat, 4));
        lemma_value_of_bytes(self.etp_leverage_factor as nat, 4);
        assert(b[38] == self.inverse_indicator.0);
    }

    /// Encoding what was decoded from `STOCK_DIRECTORY_SIZE` bytes that begin
    /// with the tag gives those bytes back.
    pub proof fn lemma_encode_decode(b: Seq<u8>)
        requires
            b.len() == STOCK_DIRECTORY_SIZE,
            b[0] == Self::TYPE,
        ensures
            Self::decoded(b).encoded() == b,
    {
        let v = Self::decoded(b);
        lemma_pow256_values();
        lemma_be_value_bound(b.subrange(1, 3));
        lemma_bytes_of_value(b.subrange(1, 3));
        assert(be_bytes(v.stock_locate as nat, 2) == b.subrange(1, 3));
        lemma_be_value_bound(b.subrange(3, 5));
        lemma_bytes_of_value(b.subrange(3, 5));
        assert(be_bytes(v.tracking_number as nat, 2) == b.subrange(3, 5));
        lemma_be_value_bound(b.subrange(5, 11));
        lemma_bytes_of_value(b.subrange(5, 11));
        assert(be_bytes(v.timestamp as nat, 6) == b.subrange(5, 11));
        assert(v.stock@ =~= b.subrange(11, 19));
        lemma_be_value_bound(b.subrange(21, 25));
        lemma_bytes_of_value(b.subrange(21, 25));
        assert(be_bytes(v.round_lot_size as nat, 4) == b.subrange(21, 25));
        assert(v.issue_sub_type@ =~= b.subrange(27, 29));
        lemma_be_value_bound(b.subrange(34, 38));
        lemma_bytes_of_value(b.subrange(34, 38));
        assert(be_bytes(v.etp_leverage_factor as nat, 4) == b.subrange(34, 38));
        assert(v.encoded() =~= b);
    }
}

impl StockTradingAction {
    /// An encoded record is `STOCK_TRADING_ACTION_SIZE` bytes long and begins
    /// with the tag.
    pub proof fn lemma_encoded_len(self)
        ensures
            self.encoded().len() == STOCK_TRADING_ACTION_SIZE,
            self.encoded()[0] == Self::TYPE,
    {
        lemma_be_bytes_len(self.stock_locate as nat, 2);
        lemma_be_bytes_len(self.tracking_number as nat, 2);
        lemma_be_bytes_len(self.timestamp as nat, 6);
    }

    /// Decoding what was encoded gives the record back field for field, but for
    /// what encoding does not keep: the tag is the type's own, and the
    /// timestamp is cut to its low 48 bits. A record that holds its own tag and
    /// a timestamp below `2^48` comes back unchanged.
    pub proof fn lemma_decode_encode(self)
        ensures
            Self::decoded(self.encoded()) == (StockTradingAction {
                message_type: Self::TYPE,
                timestamp: (self.timestamp % 0x1_0000_0000_0000) as u64,
                ..self
            }),
            self.message_type == Self::TYPE && self.timestamp < 0x1_0000_0000_0000
                ==> Self::decoded(self.encoded()) == self,
    {
        let b = self.encoded();
        lemma_pow256_values();
        lemma_be_bytes_len(self.stock_locate as nat, 2);
        lemma_be_bytes_len(self.tracking_number as nat, 2);
        lemma_be_bytes_len(self.timestamp as nat, 6);
        assert(b.subrange(1, 3) =~= be_bytes(self.stock_locate as nat, 2));
        lemma_value_of_bytes(self.stock_locate as nat, 2);
        assert(b.subrange(3, 5) =~= be_bytes(self.tracking_number as nat, 2));
        lemma_value_of_bytes(self.tracking_number as nat, 2);
        assert(b.subrange(5, 11) =~= be_bytes(self.timestamp as nat, 6));
        lemma_value_of_bytes(self.timestamp as nat, 6);
        assert(array8_at(b, 11) =~= self.stock);
        assert(b[19] == self.trading_state.0);
        assert(b[20] == self.reserved);
        assert(array4_at(b, 21) =~= self.reason);
    }

    /// Encoding what was decoded from `STOCK_TRADING_ACTION_SIZE` bytes that
    /// begin with the tag gives those bytes back.
    pub proof fn lemma_encode_decode(b: Seq<u8>)
        requires
            b.len() == STOCK_TRADING_ACTION_SIZE,
            b[0] == Self::TYPE,
        ensures
            Self::decoded(b).encoded() == b,
    {
        let v = Self::decoded(b);
        lemma_pow256_values();
        lemma_be_value_bound(b.subrange(1, 3));
        lemma_bytes_of_value(b.subrange(1, 3));
        assert(be_bytes(v.stock_locate as nat, 2) == b.subrange(1, 3));
        lemma_be_value_bound(b.subrange(3, 5));
        lemma_bytes_of_value(b.subrange(3, 5));
        assert(be_bytes(v.tracking_number as nat, 2) == b.subrange(3, 5));
        lemma_be_value_bound(b.subrange(5, 11));
        lemma_bytes_of_value(b.subrange(5, 11));
        assert(be_bytes(v.timestamp as nat, 6) == b.subrange(5, 11));
        assert(v.stock@ =~= b.subrange(11, 19));
        assert(v.reason@ =~= b.subrange(21, 25));
        assert(v.encoded() =~= b);
    }
}

impl RegShoRestriction {
    /// An encoded record is `REG_SHO_RESTRICTION_SIZE` bytes long and begins
    /// with the tag.
    pub proof fn lemma_encoded_len(self)
        ensures
            self.encoded().len() == REG_SHO_RESTRICTION_SIZE,
            self.encoded()[0] == Self::TYPE,
    {
        lemma_be_bytes_len(self.stock_locate as nat, 2);
        lemma_be_bytes_len(self.tracking_number as nat, 2);
        lemma_be_bytes_len(self.timestamp as nat, 6);
    }

    /// Decoding what was encoded gives the record back field for field, but for
    /// what encoding does not keep: the tag is the type's own, and the
    /// timestamp is cut to its low 48 bits. A record that holds its own tag and
    /// a timestamp below `2^48` comes back unchanged.
    pub proof fn lemma_decode_encode(self)
        ensures
            Self::decoded(self.encoded()) == (RegShoRestriction {
                message_type: Self::TYPE,
                timestamp: (self.timestamp % 0x1_0000_0000_0000) as u64,
                ..self
            }),
            self.message_type == Self::TYPE && self.timestamp < 0x1_0000_0000_0000
                ==> Self::decoded(self.encoded()) == self,
    {
        let b = self.encoded();
        lemma_pow256_values();
        lemma_be_bytes_len(self.stock_locate as nat, 2);
        lemma_be_bytes_len(self.tracking_number as nat, 2);
        lemma_be_bytes_len(self.timestamp as nat, 6);
        assert(b.subrange(1, 3) =~= be_bytes(self.stock_locate as nat, 2));
        lemma_value_of_bytes(self.stock_locate as nat, 2);
        assert(b.subrange(3, 5) =~= be_bytes(self.tracking_number as nat, 2));
        lemma_value_of_bytes(self.tracking_number as nat, 2);
        assert(b.subrange(5, 11) =~= be_bytes(self.timestamp as nat, 6));
        lemma_value_of_bytes(self.timestamp as nat, 6);
        assert(array8_at(b, 11) =~= self.stock);
        assert(b[19] == self.reg_sho_action.0);
    }

    /// Encoding what was decoded from `REG_SHO_RESTRICTION_SIZE` bytes that
    /// begin with the tag gives those bytes back.
    pub proof fn lemma_encode_decode(b: Seq<u8>)
        requires
            b.len() == REG_SHO_RESTRICTION_SIZE,
            b[0] == Self::TYPE,
        ensures
            Self::decoded(b).encoded() == b,
    {
        let v = Self::decoded(b);
        lemma_pow256_values();
        lemma_be_value_bound(b.subrange(1, 3));
        lemma_bytes_of_value(b.subrange(1, 3));
        assert(be_bytes(v.stock_locate as nat, 2) == b.subrange(1, 3));
        lemma_be_value_bound(b.subrange(3, 5));
        lemma_bytes_of_value(b.subrange(3, 5));
        assert(be_bytes(v.tracking_number as nat, 2) == b.subrange(3, 5));
        lemma_be_value_bound(b.subrange(5, 11));
        lemma_bytes_of_value(b.subrange(5, 11));
        assert(be_bytes(v.timestamp as nat, 6) == b.subrange(5, 11));
        assert(v.stock@ =~= b.subrange(11, 19));
        assert(v.encoded() =~= b);
    }
}

impl MarketParticipantPosition {
    /// An encoded record is `MARKET_PARTICIPANT_POSITION_SIZE` bytes long and
    /// begins with the tag.
    pub proof fn lemma_encoded_len(self)
        ensures
            self.encoded().len() == MARKET_PARTICIPANT_POSITION_SIZE,
            self.encoded()[0] == Self::TYPE,
    {
        lemma_be_bytes_len(self.stock_locate as nat, 2);
        lemma_be_bytes_len(self.tracking_number as nat, 2);
        lemma_be_bytes_len(self.timestamp as nat, 6);
    }

    /// Decoding what was encoded gives the record back field for field, but for
    /// what encoding does not keep: the tag is the type's own, and the
    /// timestamp is cut to its low 48 bits. A record that holds its own tag and
    /// a timestamp below `2^48` comes back unchanged.
    pub proof fn lemma_decode_encode(self)
        ensures
            Self::decoded(self.encoded()) == (MarketParticipantPosition {
                message_type: Self::TYPE,
                timestamp: (self.timestamp % 0x1_0000_0000_0000) as u64,
                ..self
            }),
            self.message_type == Self::TYPE && self.timestamp < 0x1_0000_0000_0000
                ==> Self::decoded(self.encoded()) == self,
    {
        let b = self.encoded();
        lemma_pow256_values();
        lemma_be_bytes_len(self.stock_locate as nat, 2);
        lemma_be_bytes_len(self.tracking_number as nat, 2);
        lemma_be_bytes_len(self.timestamp as nat, 6);
        assert(b.subrange(1, 3) =~= be_bytes(self.stock_locate as nat, 2));
        lemma_value_of_bytes(self.stock_locate as nat, 2);
        assert(b.subrange(3, 5) =~= be_bytes(self.tracking_number as nat, 2));
        lemma_value_of_bytes(self.tracking_number as nat, 2);
        assert(b.subrange(5, 11) =~= be_bytes(self.timestamp as nat, 6));
        lemma_value_of_bytes(self.timestamp as nat, 6);
        assert(array4_at(b, 11) =~= self.mpid);
        assert(array8_at(b, 15) =~= self.stock);
        assert(b[23] == self.primary_market_maker.0);
        assert(b[24] == self.market_maker_mode.0);
        assert(b[25] == self.market_participant_state.0);
    }

    /// Encoding what was decoded from `MARKET_PARTICIPANT_POSITION_SIZE` bytes
    /// that begin with the tag gives those bytes back.
    pub proof fn lemma_encode_decode(b: Seq<u8>)
        requires
            b.len() == MARKET_PARTICIPANT_POSITION_SIZE,
            b[0] == Self::TYPE,
        ensures
            Self::decoded(b).encoded() == b,
    {
        let v = Self::decoded(b);
        lemma_pow256_values();
        lemma_be_value_bound(b.subrange(1, 3));
        lemma_bytes_of_value(b.subrange(1, 3));
        assert(be_bytes(v.stock_locate as nat, 2) == b.subrange(1, 3));
        lemma_be_value_bound(b.subrange(3, 5));
        lemma_bytes_of_value(b.subrange(3, 5));
        assert(be_bytes(v.tracking_number as nat, 2) == b.subrange(3, 5));
        lemma_be_value_bound(b.subrange(5, 11));
        lemma_bytes_of_value(b.subrange(5, 11));
        assert(be_bytes(v.timestamp as nat, 6) == b.subrange(5, 11));
        assert(v.mpid@ =~= b.subrange(11, 15));
        assert(v.stock@ =~= b.subrange(15, 23));
        assert(v.encoded() =~= b);
    }
}

impl MwcbDeclineLevel {
    /// An encoded record is `MWCB_DECLINE_LEVEL_SIZE` bytes long and begins
    /// with the tag.
    pub proof fn lemma_encoded_len(self)
        ensures
            self.encoded().len() == MWCB_DECLINE_LEVEL_SIZE,
            self.encoded()[0] == Self::TYPE,
    {
        lemma_be_bytes_len(self.stock_locate as nat, 2);
        lemma_be_bytes_len(self.tracking_number as nat, 2);
        lemma_be_bytes_len(self.timestamp as nat, 6);
        lemma_be_bytes_len(self.level_1 as nat, 8);
        lemma_be_bytes_len(self.level_2 as nat, 8);
        lemma_be_bytes_len(self.level_3 as nat, 8);
    }

    /// Decoding what was encoded gives the record back field for field, but for
    /// what encoding does not keep: the tag is the type's own, and the
    /// timestamp is cut to its low 48 bits. A record that holds its own tag and
    /// a timestamp below `2^48` comes back unchanged.
    pub proof fn lemma_decode_encode(self)
        ensures
            Self::decoded(self.encoded()) == (MwcbDeclineLevel {
                message_type: Self::TYPE,
                timestamp: (self.timestamp % 0x1_0000_0000_0000) as u64,
                ..self
            }),
            self.message_type == Self::TYPE && self.timestamp < 0x1_0000_0000_0000
                ==> Self::decoded(self.encoded()) == self,
    {
        let b = self.encoded();
        lemma_pow256_values();
        lemma_be_bytes_len(self.stock_locate as nat, 2);
        lemma_be_bytes_len(self.tracking_number as nat, 2);
        lemma_be_bytes_len(self.timestamp as nat, 6);
        lemma_be_bytes_len(self.level_1 as nat, 8);
        lemma_be_bytes_len(self.level_2 as nat, 8);
        lemma_be_bytes_len(self.level_3 as nat, 8);
        assert(b.subrange(1, 3) =~= be_bytes(self.stock_locate as nat, 2));
        lemma_value_of_bytes(self.stock_locate as nat, 2);
        assert(b.subrange(3, 5) =~= be_bytes(self.tracking_number as nat, 2));
        lemma_value_of_bytes(self.tracking_number as nat, 2);
        assert(b.subrange(5, 11) =~= be_bytes(self.timestamp as nat, 6));
        lemma_value_of_bytes(self.timestamp as nat, 6);
        assert(b.subrange(11, 19) =~= be_bytes(self.level_1 as nat, 8));
        lemma_value_of_bytes(self.level_1 as nat, 8);
        assert(b.subrange(19, 27) =~= be_bytes(self.level_2 as nat, 8));
        lemma_value_of_bytes(self.level_2 as nat, 8);
        assert(b.subrange(27, 35) =~= be_bytes(self.level_3 as nat, 8));
        lemma_value_of_bytes(self.level_3 as nat, 8);
    }

    /// Encoding what was decoded from `MWCB_DECLINE_LEVEL_SIZE` bytes that
    /// begin with the tag gives those bytes back.
    pub proof fn lemma_encode_decode(b: Seq<u8>)
        requires
            b.len() == MWCB_DECLINE_LEVEL_SIZE,
            b[0] == Self::TYPE,
        ensures
            Self::decoded(b).encoded() == b,
    {
        let v = Self::decoded(b);
        lemma_pow256_values();
        lemma_be_value_bound(b.subrange(1, 3));
        lemma_bytes_of_value(b.subrange(1, 3));
        assert(be_bytes(v.stock_locate as nat, 2) == b.subrange(1, 3));
        lemma_be_value_bound(b.subrange(3, 5));
        lemma_bytes_of_value(b.subrange(3, 5));
        assert(be_bytes(v.tracking_number as nat, 2) == b.subrange(3, 5));
        lemma_be_value_bound(b.subrange(5, 11));
        lemma_bytes_of_value(b.subrange(5, 11));
        assert(be_bytes(v.timestamp as nat, 6) == b.subrange(5, 11));
        lemma_be_value_bound(b.subrange(11, 19));
        lemma_bytes_of_value(b.subrange(11, 19));
        assert(be_bytes(v.level_1 as nat, 8) == b.subrange(11, 19));
        lemma_be_value_bound(b.subrange(19, 27));
        lemma_bytes_of_value(b.subrange(19, 27));
        assert(be_bytes(v.level_2 as nat, 8) == b.subrange(19, 27));
        lemma_be_value_bound(b.subrange(27, 35));
        lemma_bytes_of_value(b.subrange(27, 35));
        assert(be_bytes(v.level_3 as nat, 8) == b.subrange(27, 35));
        assert(v.encoded() =~= b);
    }
}

impl MwcbStatus {
    /// An encoded record is `MWCB_STATUS_SIZE` bytes long and begins with the
    /// tag.
    pub proof fn lemma_encoded_len(self)
        ensures
            self.encoded().len() == MWCB_STATUS_SIZE,
            self.encoded()[0] == Self::TYPE,
    {
        lemma_be_bytes_len(self.stock_locate as nat, 2);
        lemma_be_bytes_len(self.tracking_number as nat, 2);
        lemma_be_bytes_len(self.timestamp as nat, 6);
    }

    /// Decoding what was encoded gives the record back field for field, but for
    /// what encoding does not keep: the tag is the type's own, and the
    /// timestamp is cut to its low 48 bits. A record that holds its own tag and
    /// a timestamp below `2^48` comes back unchanged.
    pub proof fn lemma_decode_encode(self)
        ensures
            Self::decoded(self.encoded()) == (MwcbStatus {
                message_type: Self::TYPE,
                timestamp: (self.timestamp % 0x1_0000_0000_0000) as u64,
                ..self
            }),
            self.message_type == Self::TYPE && self.timestamp < 0x1_0000_0000_0000
                ==> Self::decoded(self.encoded()) == self,
    {
        let b = self.encoded();
        lemma_pow256_values();
        lemma_be_bytes_len(self.stock_locate as nat, 2);
        lemma_be_bytes_len(self.tracking_number as nat, 2);
        lemma_be_bytes_len(self.timestamp as nat, 6);
        assert(b.subrange(1, 3) =~= be_bytes(self.stock_locate as nat, 2));
        lemma_value_of_bytes(self.stock_locate as nat, 2);
        assert(b.subrange(3, 5) =~= be_bytes(self.tracking_number as nat, 2));
        lemma_value_of_bytes(self.tracking_number as nat, 2);
        assert(b.subrange(5, 11) =~= be_bytes(self.timestamp as nat, 6));
        lemma_value_of_bytes(self.timestamp as nat, 6);
        assert(b[11] == self.breached_level.0);
    }

    /// Encoding what was decoded from `MWCB_STATUS_SIZE` bytes that begin with
    /// the tag gives those bytes back.
    pub proof fn lemma_encode_decode(b: Seq<u8>)
        requires
            b.len() == MWCB_STATUS_SIZE,
            b[0] == Self::TYPE,
        ensures
            Self::decoded(b).encoded() == b,
    {
        let v = Self::decoded(b);
        lemma_pow256_values();
        lemma_be_value_bound(b.subrange(1, 3));
        lemma_bytes_of_value(b.subrange(1, 3));
        assert(be_bytes(v.stock_locate as nat, 2) == b.subrange(1, 3));
        lemma_be_value_bound(b.subrange(3, 5));
        lemma_bytes_of_value(b.subrange(3, 5));
        assert(be_bytes(v.tracking_number as nat, 2) == b.subrange(3, 5));
        lemma_be_value_bound(b.subrange(5, 11));
        lemma_bytes_of_value(b.subrange(5, 11));
        assert(be_bytes(v.timestamp as nat, 6) == b.subrange(5, 11));
        assert(v.encoded() =~= b);
    }
}

impl IpoQuotingPeriodUpdate {
    /// An encoded record is `IPO_QUOTING_PERIOD_UPDATE_SIZE` bytes long and
    /// begins with the tag.
    pub proof fn lemma_encoded_len(self)
        ensures
            self.encoded().len() == IPO_QUOTING_PERIOD_UPDATE_SIZE,
            self.encoded()[0] == Self::TYPE,
    {
        lemma_be_bytes_len(self.stock_locate as nat, 2);
        lemma_be_bytes_len(self.tracking_number as nat, 2);
        lemma_be_bytes_len(self.timestamp as nat, 6);
        lemma_be_bytes_len(self.ipo_quotation_release_time as nat, 4);
        lemma_be_bytes_len(self.ipo_price as nat, 4);
    }

    /// Decoding what was encoded gives the record back field for field, but for
    /// what encoding does not keep: the tag is the type's own, and the
    /// timestamp is cut to its low 48 bits. A record that holds its own tag and
    /// a timestamp below `2^48` comes back unchanged.
    pub proof fn lemma_decode_encode(self)
        ensures
            Self::decoded(self.encoded()) == (IpoQuotingPeriodUpdate {
                message_type: Self::TYPE,
                timestamp: (self.timestamp % 0x1_0000_0000_0000) as u64,
                ..self
            }),
            self.message_type == Self::TYPE && self.timestamp < 0x1_0000_0000_0000
                ==> Self::decoded(self.encoded()) == self,
    {
        let b = self.encoded();
        lemma_pow256_values();
        lemma_be_bytes_len(self.stock_locate as nat, 2);
        lemma_be_bytes_len(self.tracking_number as nat, 2);
        lemma_be_bytes_len(self.timestamp as nat, 6);
        lemma_be_bytes_len(self.ipo_quotation_release_time as nat, 4);
        lemma_be_bytes_len(self.ipo_price as nat, 4);
        assert(b.subrange(1, 3) =~= be_bytes(self.stock_locate as nat, 2));
        lemma_value_of_bytes(self.stock_locate as nat, 2);
        assert(b.subrange(3, 5) =~= be_bytes(self.tracking_number as nat, 2));
        lemma_value_of_bytes(self.tracking_number as nat, 2);
        assert(b.subrange(5, 11) =~= be_bytes(self.timestamp as nat, 6));
        lemma_value_of_bytes(self.timestamp as nat, 6);
        assert(array8_at(b, 11) =~= self.stock);
        assert(b.subrange(19, 23) =~= be_bytes(self.ipo_quotation_release_time as nat, 4));
        lemma_value_of_bytes(self.ipo_quotation_release_time as nat, 4);
        assert(b[23] == self.ipo_quotation_release_qualifier.0);
        assert(b.subrange(24, 28) =~= be_bytes(self.ipo_price as nat, 4));
        lemma_value_of_bytes(self.ipo_price as nat, 4);
    }

    /// Encoding what was decoded from `IPO_QUOTING_PERIOD_UPDATE_SIZE` bytes
    /// that begin with the tag gives those bytes back.
    pub proof fn lemma_encode_decode(b: Seq<u8>)
        requires
            b.len() == IPO_QUOTING_PERIOD_UPDATE_SIZE,
            b[0] == Self::TYPE,
        ensures
            Self::decoded(b).encoded() == b,
    {
        let v = Self::decoded(b);
        lemma_pow256_values();
        lemma_be_value_bound(b.subrange(1, 3));
        lemma_bytes_of_value(b.subrange(1, 3));
        assert(be_bytes(v.stock_locate as nat, 2) == b.subrange(1, 3));
        lemma_be_value_bound(b.subrange(3, 5));
        lemma_bytes_of_value(b.subrange(3, 5));
        assert(be_bytes(v.tracking_number as nat, 2) == b.subrange(3, 5));
        lemma_be_value_bound(b.subrange(5, 11));
        lemma_bytes_of_value(b.subrange(5, 11));
        assert(be_bytes(v.timestamp as nat, 6) == b.subrange(5, 11));
        assert(v.stock@ =~= b.subrange(11, 19));
        lemma_be_value_bound(b.subrange(19, 23));
        lemma_bytes_of_value(b.subrange(19, 23));
        assert(be_bytes(v.ipo_quotation_release_time as nat, 4) == b.subrange(19, 23));
        lemma_be_value_bound(b.subrange(24, 28));
        lemma_bytes_of_value(b.subrange(24, 28));
        assert(be_bytes(v.ipo_price as nat, 4) == b.subrange(24, 28));
        assert(v.encoded() =~= b);
    }
}

impl LuldAuctionCollar {
    /// An encoded record is `LULD_AUCTION_COLLAR_SIZE` bytes long and begins
    /// with the tag.
    pub proof fn lemma_encoded_len(self)
        ensures
            self.encoded().len() == LULD_AUCTION_COLLAR_SIZE,
            self.encoded()[0] == Self::TYPE,
    {
        lemma_be_bytes_len(self.stock_locate as nat, 2);
        lemma_be_bytes_len(self.tracking_number as nat, 2);
        lemma_be_bytes_len(self.timestamp as nat, 6);
        lemma_be_bytes_len(self.auction_collar_reference_price as nat, 4);
        lemma_be_bytes_len(self.upper_auction_collar_price as nat, 4);
        lemma_be_bytes_len(self.lower_auction_collar_price as nat, 4);
        lemma_be_bytes_len(self.auction_collar_extension as nat, 4);
    }

    /// Decoding what was encoded gives the record back field for field, but for
    /// what encoding does not keep: the tag is the type's own, and the
    /// timestamp is cut to its low 48 bits. A record that holds its own tag and
    /// a timestamp below `2^48` comes back unchanged.
    pub proof fn lemma_decode_encode(self)
        ensures
            Self::decoded(self.encoded()) == (LuldAuctionCollar {
                message_type: Self::TYPE,
                timestamp: (self.timestamp % 0x1_0000_0000_0000) as u64,
                ..self
            }),
            self.message_type == Self::TYPE && self.timestamp < 0x1_0000_0000_0000
                ==> Self::decoded(self.encoded()) == self,
    {
        let b = self.encoded();
        lemma_pow256_values();
        lemma_be_bytes_len(self.stock_locate as nat, 2);
        lemma_be_bytes_len(self.tracking_number as nat, 2);
        lemma_be_bytes_len(self.timestamp as nat, 6);
        lemma_be_bytes_len(self.auction_collar_reference_price as nat, 4);
        lemma_be_bytes_len(self.upper_auction_collar_price as nat, 4);
        lemma_be_bytes_len(self.lower_auction_collar_price as nat, 4);
        lemma_be_bytes_len(self.auction_collar_extension as nat, 4);
        assert(b.subrange(1, 3) =~= be_bytes(self.stock_locate as nat, 2));
        lemma_value_of_bytes(self.stock_locate as nat, 2);
        assert(b.subrange(3, 5) =~= be_bytes(self.tracking_number as nat, 2));
        lemma_value_of_bytes(self.tracking_number as nat, 2);
        assert(b.subrange(5, 11) =~= be_bytes(self.timestamp as nat, 6));
        lemma_value_of_bytes(self.timestamp as nat, 6);
        assert(array8_at(b, 11) =~= self.stock);
        assert(b.subrange(19, 23) =~= be_bytes(self.auction_collar_reference_price as nat, 4));
        lemma_value_of_bytes(self.auction_collar_reference_price as nat, 4);
        assert(b.subrange(23, 27) =~= be_bytes(self.upper_auction_collar_price as nat, 4));
        lemma_value_of_bytes(self.upper_auction_collar_price as nat, 4);
        assert(b.subrange(27, 31) =~= be_bytes(self.lower_auction_collar_price as nat, 4));
        lemma_value_of_bytes(self.lower_auction_collar_price as nat, 4);
        assert(b.subrange(31, 35) =~= be_bytes(self.auction_collar_extension as nat, 4));
        lemma_value_of_bytes(self.auction_collar_extension as nat, 4);
    }

    /// Encoding what was decoded from `LULD_AUCTION_COLLAR_SIZE` bytes that
    /// begin with the tag gives those bytes back.
    pub proof fn lemma_encode_decode(b: Seq<u8>)
        requires
            b.len() == LULD_AUCTION_COLLAR_SIZE,
            b[0] == Self::TYPE,
        ensures
            Self::decoded(b).encoded() == b,
    {
        let v = Self::decoded(b);
        lemma_pow256_values();
        lemma_be_value_bound(b.subrange(1, 3));
        lemma_bytes_of_value(b.subrange(1, 3));
        assert(be_bytes(v.stock_locate as nat, 2) == b.subrange(1, 3));
        lemma_be_value_bound(b.subrange(3, 5));
        lemma_bytes_of_value(b.subrange(3, 5));
        assert(be_bytes(v.tracking_number as nat, 2) == b.subrange(3, 5));
        lemma_be_value_bound(b.subrange(5, 11));
        lemma_bytes_of_value(b.subrange(5, 11));
        assert(be_bytes(v.timestamp as nat, 6) == b.subrange(5, 11));
        assert(v.stock@ =~= b.subrange(11, 19));
        lemma_be_value_bound(b.subrange(19, 23));
        lemma_bytes_of_value(b.subrange(19, 23));
        assert(be_bytes(v.auction_collar_reference_price as nat, 4) == b.subrange(19, 23));
        lemma_be_value_bound(b.subrange(23, 27));
        lemma_bytes_of_value(b.subrange(23, 27));
        assert(be_bytes(v.upper_auction_collar_price as nat, 4) == b.subrange(23, 27));
        lemma_be_value_bound(b.subrange(27, 31));
        lemma_bytes_of_value(b.subrange(27, 31));
        assert(be_bytes(v.lower_auction_collar_price as nat, 4) == b.subrange(27, 31));
        lemma_be_value_bound(b.subrange(31, 35));
        lemma_bytes_of_value(b.subrange(31, 35));
        assert(be_bytes(v.auction_collar_extension as nat, 4) == b.subrange(31, 35));
        assert(v.encoded() =~= b);
    }
}

impl OperationalHalt {
    /// An encoded record is `OPERATIONAL_HALT_SIZE` bytes long and begins with
    /// the tag.
    pub proof fn lemma_encoded_len(self)
        ensures
            self.encoded().len() == OPERATIONAL_HALT_SIZE,
            self.encoded()[0] == Self::TYPE,
    {
        lemma_be_bytes_len(self.stock_locate as nat, 2);
        lemma_be_bytes_len(self.tracking_number as nat, 2);
        lemma_be_bytes_len(self.timestamp as nat, 6);
    }

    /// Decoding what was encoded gives the record back field for field, but for
    /// what encoding does not keep: the tag is the type's own, and the
    /// timestamp is cut to its low 48 bits. A record that holds its own tag and
    /// a timestamp below `2^48` comes back unchanged.
    pub proof fn lemma_decode_encode(self)
        ensures
            Self::decoded(self.encoded()) == (OperationalHalt {
                message_type: Self::TYPE,
                timestamp: (self.timestamp % 0x1_0000_0000_0000) as u64,
                ..self
            }),
            self.message_type == Self::TYPE && self.timestamp < 0x1_0000_0000_0000
                ==> Self::decoded(self.encoded()) == self,
    {
        let b = self.encoded();
        lemma_pow256_values();
        lemma_be_bytes_len(self.stock_locate as nat, 2);
        lemma_be_bytes_len(self.tracking_number as nat, 2);
        lemma_be_bytes_len(self.timestamp as nat, 6);
        assert(b.subrange(1, 3) =~= be_bytes(self.stock_locate as nat, 2));
        lemma_value_of_bytes(self.stock_locate as nat, 2);
        assert(b.subrange(3, 5) =~= be_bytes(self.tracking_number as nat, 2));
        lemma_value_of_bytes(self.tracking_number as nat, 2);
        assert(b.subrange(5, 11) =~= be_bytes(self.timestamp as nat, 6));
        lemma_value_of_bytes(self.timestamp as nat, 6);
        assert(array8_at(b, 11) =~= self.stock);
        assert(b[19] == self.market_code.0);
        assert(b[20] == self.operational_halt_action.0);
    }

    /// Encoding what was decoded from `OPERATIONAL_HALT_SIZE` bytes that begin
    /// with the tag gives those bytes back.
    pub proof fn lemma_encode_decode(b: Seq<u8>)
        requires
            b.len() == OPERATIONAL_HALT_SIZE,
            b[0] == Self::TYPE,
        ensures
            Self::decoded(b).encoded() == b,
    {
        let v = Self::decoded(b);
        lemma_pow256_values();
        lemma_be_value_bound(b.subrange(1, 3));
        lemma_bytes_of_value(b.subrange(1, 3));
        assert(be_bytes(v.stock_locate as nat, 2) == b.subrange(1, 3));
        lemma_be_value_bound(b.subrange(3, 5));
        lemma_bytes_of_value(b.subrange(3, 5));
        assert(be_bytes(v.tracking_number as nat, 2) == b.subrange(3, 5));
        lemma_be_value_bound(b.subrange(5, 11));
        lemma_bytes_of_value(b.subrange(5, 11));
        assert(be_bytes(v.timestamp as nat, 6) == b.subrange(5, 11));
        assert(v.stock@ =~= b.subrange(11, 19));
        assert(v.encoded() =~= b);
    }
}

impl AddOrder {
    /// An encoded record is `ADD_ORDER_SIZE` bytes long and begins with the
    /// tag.
    pub proof fn lemma_encoded_len(self)
        ensures
            self.encoded().len() == ADD_ORDER_SIZE,
            self.encoded()[0] == Self::TYPE,
    {
        lemma_be_bytes_len(self.stock_locate as nat, 2);
        lemma_be_bytes_len(self.tracking_number as nat, 2);
        lemma_be_bytes_len(self.timestamp as nat, 6);
        lemma_be_bytes_len(self.order_reference_number as nat, 8);
        lemma_be_bytes_len(self.shares as nat, 4);
        lemma_be_bytes_len(self.price as nat, 4);
    }

    /// Decoding what was encoded gives the record back field for field, but for
    /// what encoding does not keep: the tag is the type's own, and the
    /// timestamp is cut to its low 48 bits. A record that holds its own tag and
    /// a timestamp below `2^48` comes back unchanged.
    pub proof fn lemma_decode_encode(self)
        ensures
            Self::decoded(self.encoded()) == (AddOrder {
                message_type: Self::TYPE,
                timestamp: (self.timestamp % 0x1_0000_0000_0000) as u64,
                ..self
            }),
            self.message_type == Self::TYPE && self.timestamp < 0x1_0000_0000_0000
                ==> Self::decoded(self.encoded()) == self,
    {
        let b = self.encoded();
        lemma_pow256_values();
        lemma_be_bytes_len(self.stock_locate as nat, 2);
        lemma_be_bytes_len(self.tracking_number as nat, 2);
        lemma_be_bytes_len(self.timestamp as nat, 6);
        lemma_be_bytes_len(self.order_reference_number as nat, 8);
        lemma_be_bytes_len(self.shares as nat, 4);
        lemma_be_bytes_len(self.price as nat, 4);
        assert(b.subrange(1, 3) =~= be_bytes(self.stock_locate as nat, 2));
        lemma_value_of_bytes(self.stock_locate as nat, 2);
        assert(b.subrange(3, 5) =~= be_bytes(self.tracking_number as nat, 2));
        lemma_value_of_bytes(self.tracking_number as nat, 2);
        assert(b.subrange(5, 11) =~= be_bytes(self.timestamp as nat, 6));
        lemma_value_of_bytes(self.timestamp as nat, 6);
        assert(b.subrange(11, 19) =~= be_bytes(self.order_reference_number as nat, 8));
        lemma_value_of_bytes(self.order_reference_number as nat, 8);
        assert(b[19] == self.buy_sell_indicator.0);
        assert(b.subrange(20, 24) =~= be_bytes(self.shares as nat, 4));
        lemma_value_of_bytes(self.shares as nat, 4);
        assert(array8_at(b, 24) =~= self.stock);
        assert(b.subrange(32, 36) =~= be_bytes(self.price as nat, 4));
        lemma_value_of_bytes(self.price as nat, 4);
    }

    /// Encoding what was decoded from `ADD_ORDER_SIZE` bytes that begin with
    /// the tag gives those bytes back.
    pub proof fn lemma_encode_decode(b: Seq<u8>)
        requires
            b.len() == ADD_ORDER_SIZE,
            b[0] == Self::TYPE,
        ensures
            Self::decoded(b).encoded() == b,
    {
        let v = Self::decoded(b);
        lemma_pow256_values();
        lemma_be_value_bound(b.subrange(1, 3));
        lemma_bytes_of_value(b.subrange(1, 3));
        assert(be_bytes(v.stock_locate as nat, 2) == b.subrange(1, 3));
        lemma_be_value_bound(b.subrange(3, 5));
        lemma_bytes_of_value(b.subrange(3, 5));
        assert(be_bytes(v.tracking_number as nat, 2) == b.subrange(3, 5));
        lemma_be_value_bound(b.subrange(5, 11));
        lemma_bytes_of_value(b.subrange(5, 11));
        assert(be_bytes(v.timestamp as nat, 6) == b.subrange(5, 11));
        lemma_be_value_bound(b.subrange(11, 19));
        lemma_bytes_of_value(b.subrange(11, 19));
        assert(be_bytes(v.order_reference_number as nat, 8) == b.subrange(11, 19));
        lemma_be_value_bound(b.subrange(20, 24));
        lemma_bytes_of_value(b.subrange(20, 24));
        assert(be_bytes(v.shares as nat, 4) == b.subrange(20, 24));
        assert(v.stock@ =~= b.subrange(24, 32));
        lemma_be_value_bound(b.subrange(32, 36));
        lemma_bytes_of_value(b.subrange(32, 36));
        assert(be_bytes(v.price as nat, 4) == b.subrange(32, 36));
        assert(v.encoded() =~= b);
    }
}

impl AddOrderWithMpid {
    /// An encoded record is `ADD_ORDER_WITH_MPID_SIZE` bytes long and begins
    /// with the tag.
    pub proof fn lemma_encoded_len(self)
        ensures
            self.encoded().len() == ADD_ORDER_WITH_MPID_SIZE,
            self.encoded()[0] == Self::TYPE,
    {
        lemma_be_bytes_len(self.stock_locate as nat, 2);
        lemma_be_bytes_len(self.tracking_number as nat, 2);
        lemma_be_bytes_len(self.timestamp as nat, 6);
        lemma_be_bytes_len(self.order_reference_number as nat, 8);
        lemma_be_bytes_len(self.shares as nat, 4);
        lemma_be_bytes_len(self.price as nat, 4);
    }

    /// Decoding what was encoded gives the record back field for field, but for
    /// what encoding does not keep: the tag is the type's own, and the
    /// timestamp is cut to its low 48 bits. A record that holds its own tag and
    /// a timestamp below `2^48` comes back unchanged.
    pub proof fn lemma_decode_encode(self)
        ensures
            Self::decoded(self.encoded()) == (AddOrderWithMpid {
                message_type: Self::TYPE,
                timestamp: (self.timestamp % 0x1_0000_0000_0000) as u64,
                ..self
            }),
            self.message_type == Self::TYPE && self.timestamp < 0x1_0000_0000_0000
                ==> Self::decoded(self.encoded()) == self,
    {
        let b = self.encoded();
        lemma_pow256_values();
        lemma_be_bytes_len(self.stock_locate as nat, 2);
        lemma_be_bytes_len(self.tracking_number as nat, 2);
        lemma_be_bytes_len(self.timestamp as nat, 6);
        lemma_be_bytes_len(self.order_reference_number as nat, 8);
        lemma_be_bytes_len(self.shares as nat, 4);
        lemma_be_bytes_len(self.price as nat, 4);
        assert(b.subrange(1, 3) =~= be_bytes(self.stock_locate as nat, 2));
        lemma_value_of_bytes(self.stock_locate as nat, 2);
        assert(b.subrange(3, 5) =~= be_bytes(self.tracking_number as nat, 2));
        lemma_value_of_bytes(self.tracking_number as nat, 2);
        assert(b.subrange(5, 11) =~= be_bytes(self.timestamp as nat, 6));
        lemma_value_of_bytes(self.timestamp as nat, 6);
        assert(b.subrange(11, 19) =~= be_bytes(self.order_reference_number as nat, 8));
        lemma_value_of_bytes(self.order_reference_number as nat, 8);
        assert(b[19] == self.buy_sell_indicator.0);
        assert(b.subrange(20, 24) =~= be_bytes(self.shares as nat, 4));
        lemma_value_of_bytes(self.shares as nat, 4);
        assert(array8_at(b, 24) =~= self.stock);
        assert(b.subrange(32, 36) =~= be_bytes(self.price as nat, 4));
        lemma_value_of_bytes(self.price as nat, 4);
        assert(array4_at(b, 36) =~= self.attribution);
    }

    /// Encoding what was decoded from `ADD_ORDER_WITH_MPID_SIZE` bytes that
    /// begin with the tag gives those bytes back.
    pub proof fn lemma_encode_decode(b: Seq<u8>)
        requires
            b.len() == ADD_ORDER_WITH_MPID_SIZE,
            b[0] == Self::TYPE,
        ensures
            Self::decoded(b).encoded() == b,
    {
        let v = Self::decoded(b);
        lemma_pow256_values();
        lemma_be_value_bound(b.subrange(1, 3));
        lemma_bytes_of_value(b.subrange(1, 3));
        assert(be_bytes(v.stock_locate as nat, 2) == b.subrange(1, 3));
        lemma_be_value_bound(b.subrange(3, 5));
        lemma_bytes_of_value(b.subrange(3, 5));
        assert(be_bytes(v.tracking_number as nat, 2) == b.subrange(3, 5));
        lemma_be_value_bound(b.subrange(5, 11));
        lemma_bytes_of_value(b.subrange(5, 11));
        assert(be_bytes(v.timestamp as nat, 6) == b.subrange(5, 11));
        lemma_be_value_bound(b.subrange(11, 19));
        lemma_bytes_of_value(b.subrange(11, 19));
        assert(be_bytes(v.order_reference_number as nat, 8) == b.subrange(11, 19));
        lemma_be_value_bound(b.subrange(20, 24));
        lemma_bytes_of_value(b.subrange(20, 24));
        assert(be_bytes(v.shares as nat, 4) == b.subrange(20, 24));
        assert(v.stock@ =~= b.subrange(24, 32));
        lemma_be_value_bound(b.subrange(32, 36));
        lemma_bytes_of_value(b.subrange(32, 36));
        assert(be_bytes(v.price as nat, 4) == b.subrange(32, 36));
        assert(v.attribution@ =~= b.subrange(36, 40));
        assert(v.encoded() =~= b);
    }
}

impl OrderExecuted {
    /// An encoded record is `ORDER_EXECUTED_SIZE` bytes long and begins with
    /// the tag.
    pub proof fn lemma_encoded_len(self)
        ensures
            self.encoded().len() == ORDER_EXECUTED_SIZE,
            self.encoded()[0] == Self::TYPE,
    {
        lemma_be_bytes_len(self.stock_locate as nat, 2);
        lemma_be_bytes_len(self.tracking_number as nat, 2);
        lemma_be_bytes_len(self.timestamp as nat, 6);
        lemma_be_bytes_len(self.order_reference_number as nat, 8);
        lemma_be_bytes_len(self.executed_shares as nat, 4);
        lemma_be_bytes_len(self.match_number as nat, 8);
    }

    /// Decoding what was encoded gives the record back field for field, but for
    /// what encoding does not keep: the tag is the type's own, and the
    /// timestamp is cut to its low 48 bits. A record that holds its own tag and
    /// a timestamp below `2^48` comes back unchanged.
    pub proof fn lemma_decode_encode(self)
        ensures
            Self::decoded(self.encoded()) == (OrderExecuted {
                message_type: Self::TYPE,
                timestamp: (self.timestamp % 0x1_0000_0000_0000) as u64,
                ..self
            }),
            self.message_type == Self::TYPE && self.timestamp < 0x1_0000_0000_0000
                ==> Self::decoded(self.encoded()) == self,
    {
        let b = self.encoded();
        lemma_pow256_values();
        lemma_be_bytes_len(self.stock_locate as nat, 2);
        lemma_be_bytes_len(self.tracking_number as nat, 2);
        lemma_be_bytes_len(self.timestamp as nat, 6);
        lemma_be_bytes_len(self.order_reference_number as nat, 8);
        lemma_be_bytes_len(self.executed_shares as nat, 4);
        lemma_be_bytes_len(self.match_number as nat, 8);
        assert(b.subrange(1, 3) =~= be_bytes(self.stock_locate as nat, 2));
        lemma_value_of_bytes(self.stock_locate as nat, 2);
        assert(b.subrange(3, 5) =~= be_bytes(self.tracking_number as nat, 2));
        lemma_value_of_bytes(self.tracking_number as nat, 2);
        assert(b.subrange(5, 11) =~= be_bytes(self.timestamp as nat, 6));
        lemma_value_of_bytes(self.timestamp as nat, 6);
        assert(b.subrange(11, 19) =~= be_bytes(self.order_reference_number as nat, 8));
        lemma_value_of_bytes(self.order_reference_number as nat, 8);
        assert(b.subrange(19, 23) =~= be_bytes(self.executed_shares as nat, 4));
        lemma_value_of_bytes(self.executed_shares as nat, 4);
        assert(b.subrange(23, 31) =~= be_bytes(self.match_number as nat, 8));
        lemma_value_of_bytes(self.match_number as nat, 8);
    }

    /// Encoding what was decoded from `ORDER_EXECUTED_SIZE` bytes that begin
    /// with the tag gives those bytes back.
    pub proof fn lemma_encode_decode(b: Seq<u8>)
        requires
            b.len() == ORDER_EXECUTED_SIZE,
            b[0] == Self::TYPE,
        ensures
            Self::decoded(b).encoded() == b,
    {
        let v = Self::decoded(b);
        lemma_pow256_values();
        lemma_be_value_bound(b.subrange(1, 3));
        lemma_bytes_of_value(b.subrange(1, 3));
        assert(be_bytes(v.stock_locate as nat, 2) == b.subrange(1, 3));
        lemma_be_value_bound(b.subrange(3, 5));
        lemma_bytes_of_value(b.subrange(3, 5));
        assert(be_bytes(v.tracking_number as nat, 2) == b.subrange(3, 5));
        lemma_be_value_bound(b.subrange(5, 11));
        lemma_bytes_of_value(b.subrange(5, 11));
        assert(be_bytes(v.timestamp as nat, 6) == b.subrange(5, 11));
        lemma_be_value_bound(b.subrange(11, 19));
        lemma_bytes_of_value(b.subrange(11, 19));
        assert(be_bytes(v.order_reference_number as nat, 8) == b.subrange(11, 19));
        lemma_be_value_bound(b.subrange(19, 23));
        lemma_bytes_of_value(b.subrange(19, 23));
        assert(be_bytes(v.executed_shares as nat, 4) == b.subrange(19, 23));
        lemma_be_value_bound(b.subrange(23, 31));
        lemma_bytes_of_value(b.subrange(23, 31));
        assert(be_bytes(v.match_number as nat, 8) == b.subrange(23, 31));
        assert(v.encoded() =~= b);
    }
}

impl OrderExecutedWithPrice {
    /// An encoded record is `ORDER_EXECUTED_WITH_PRICE_SIZE` bytes long and
    /// begins with the tag.
    pub proof fn lemma_encoded_len(self)
        ensures
            self.encoded().len() == ORDER_EXECUTED_WITH_PRICE_SIZE,
            self.encoded()[0] == Self::TYPE,
    {
        lemma_be_bytes_len(self.stock_locate as nat, 2);
        lemma_be_bytes_len(self.tracking_number as nat, 2);
        lemma_be_bytes_len(self.timestamp as nat, 6);
        lemma_be_bytes_len(self.order_reference_number as nat, 8);
        lemma_be_bytes_len(self.executed_shares as nat, 4);
        lemma_be_bytes_len(self.match_number as nat, 8);
        lemma_be_bytes_len(self.execution_price as nat, 4);
    }

    /// Decoding what was encoded gives the record back field for field, but for
    /// what encoding does not keep: the tag is the type's own, and the
    /// timestamp is cut to its low 48 bits. A record that holds its own tag and
    /// a timestamp below `2^48` comes back unchanged.
    pub proof fn lemma_decode_encode(self)
        ensures
            Self::decoded(self.encoded()) == (OrderExecutedWithPrice {
                message_type: Self::TYPE,
                timestamp: (self.timestamp % 0x1_0000_0000_0000) as u64,
                ..self
            }),
            self.message_type == Self::TYPE && self.timestamp < 0x1_0000_0000_0000
                ==> Self::decoded(self.encoded()) == self,
    {
        let b = self.encoded();
        lemma_pow256_values();
        lemma_be_bytes_len(self.stock_locate as nat, 2);
        lemma_be_bytes_len(self.tracking_number as nat, 2);
        lemma_be_bytes_len(self.timestamp as nat, 6);
        lemma_be_bytes_len(self.order_reference_number as nat, 8);
        lemma_be_bytes_len(self.executed_shares as nat, 4);
        lemma_be_bytes_len(self.match_number as nat, 8);
        lemma_be_bytes_len(self.execution_price as nat, 4);
        assert(b.subrange(1, 3) =~= be_bytes(self.stock_locate as nat, 2));
        lemma_value_of_bytes(self.stock_locate as nat, 2);
        assert(b.subrange(3, 5) =~= be_bytes(self.tracking_number as nat, 2));
        lemma_value_of_bytes(self.tracking_number as nat, 2);
        assert(b.subrange(5, 11) =~= be_bytes(self.timestamp as nat, 6));
        lemma_value_of_bytes(self.timestamp as nat, 6);
        assert(b.subrange(11, 19) =~= be_bytes(self.order_reference_number as nat, 8));
        lemma_value_of_bytes(self.order_reference_number as nat, 8);
        assert(b.subrange(19, 23) =~= be_bytes(self.executed_shares as nat, 4));
        lemma_value_of_bytes(self.executed_shares as nat, 4);
        assert(b.subrange(23, 31) =~= be_bytes(self.match_number as nat, 8));
        lemma_value_of_bytes(self.match_number as nat, 8);
        assert(b[31] == self.printable.0);
        assert(b.subrange(32, 36) =~= be_bytes(self.execution_price as nat, 4));
        lemma_value_of_bytes(self.execution_price as nat, 4);
    }

    /// Encoding what was decoded from `ORDER_EXECUTED_WITH_PRICE_SIZE` bytes
    /// that begin with the tag gives those bytes back.
    pub proof fn lemma_encode_decode(b: Seq<u8>)
        requires
            b.len() == ORDER_EXECUTED_WITH_PRICE_SIZE,
            b[0] == Self::TYPE,
        ensures
            Self::decoded(b).encoded() == b,
    {
        let v = Self::decoded(b);
        lemma_pow256_values();
        lemma_be_value_bound(b.subrange(1, 3));
        lemma_bytes_of_value(b.subrange(1, 3));
        assert(be_bytes(v.stock_locate as nat, 2) == b.subrange(1, 3));
        lemma_be_value_bound(b.subrange(3, 5));
        lemma_bytes_of_value(b.subrange(3, 5));
        assert(be_bytes(v.tracking_number as nat, 2) == b.subrange(3, 5));
        lemma_be_value_bound(b.subrange(5, 11));
        lemma_bytes_of_value(b.subrange(5, 11));
        assert(be_bytes(v.timestamp as nat, 6) == b.subrange(5, 11));
        lemma_be_value_bound(b.subrange(11, 19));
        lemma_bytes_of_value(b.subrange(11, 19));
        assert(be_bytes(v.order_reference_number as nat, 8) == b.subrange(11, 19));
        lemma_be_value_bound(b.subrange(19, 23));
        lemma_bytes_of_value(b.subrange(19, 23));
        assert(be_bytes(v.executed_shares as nat, 4) == b.subrange(19, 23));
        lemma_be_value_bound(b.subrange(23, 31));
        lemma_bytes_of_value(b.subrange(23, 31));
        assert(be_bytes(v.match_number as nat, 8) == b.subrange(23, 31));
        lemma_be_value_bound(b.subrange(32, 36));
        lemma_bytes_of_value(b.subrange(32, 36));
        assert(be_bytes(v.execution_price as nat, 4) == b.subrange(32, 36));
        assert(v.encoded() =~= b);
    }
}

impl OrderCancel {
    /// An encoded record is `ORDER_CANCEL_SIZE` bytes long and begins with the
    /// tag.
    pub proof fn lemma_encoded_len(self)
        ensures
            self.encoded().len() == ORDER_CANCEL_SIZE,
            self.encoded()[0] == Self::TYPE,
    {
        lemma_be_bytes_len(self.stock_locate as nat, 2);
        lemma_be_bytes_len(self.tracking_number as nat, 2);
        lemma_be_bytes_len(self.timestamp as nat, 6);
        lemma_be_bytes_len(self.order_reference_number as nat, 8);
        lemma_be_bytes_len(self.cancelled_shares as nat, 4);
    }

    /// Decoding what was encoded gives the record back field for field, but for
    /// what encoding does not keep: the tag is the type's own, and the
    /// timestamp is cut to its low 48 bits. A record that holds its own tag and
    /// a timestamp below `2^48` comes back unchanged.
    pub proof fn lemma_decode_encode(self)
        ensures
            Self::decoded(self.encoded()) == (OrderCancel {
                message_type: Self::TYPE,
                timestamp: (self.timestamp % 0x1_0000_0000_0000) as u64,
                ..self
            }),
            self.message_type == Self::TYPE && self.timestamp < 0x1_0000_0000_0000
                ==> Self::decoded(self.encoded()) == self,
    {
        let b = self.encoded();
        lemma_pow256_values();
        lemma_be_bytes_len(self.stock_locate as nat, 2);
        lemma_be_bytes_len(self.tracking_number as nat, 2);
        lemma_be_bytes_len(self.timestamp as nat, 6);
        lemma_be_bytes_len(self.order_reference_number as nat, 8);
        lemma_be_bytes_len(self.cancelled_shares as nat, 4);
        assert(b.subrange(1, 3) =~= be_bytes(self.stock_locate as nat, 2));
        lemma_value_of_bytes(self.stock_locate as nat, 2);
        assert(b.subrange(3, 5) =~= be_bytes(self.tracking_number as nat, 2));
        lemma_value_of_bytes(self.tracking_number as nat, 2);
        assert(b.subrange(5, 11) =~= be_bytes(self.timestamp as nat, 6));
        lemma_value_of_bytes(self.timestamp as nat, 6);
        assert(b.subrange(11, 19) =~= be_bytes(self.order_reference_number as nat, 8));
        lemma_value_of_bytes(self.order_reference_number as nat, 8);
        assert(b.subrange(19, 23) =~= be_bytes(self.cancelled_shares as nat, 4));
        lemma_value_of_bytes(self.cancelled_shares as nat, 4);
    }

    /// Encoding what was decoded from `ORDER_CANCEL_SIZE` bytes that begin with
    /// the tag gives those bytes back.
    pub proof fn lemma_encode_decode(b: Seq<u8>)
        requires
            b.len() == ORDER_CANCEL_SIZE,
            b[0] == Self::TYPE,
        ensures
            Self::decoded(b).encoded() == b,
    {
        let v = Self::decoded(b);
        lemma_pow256_values();
        lemma_be_value_bound(b.subrange(1, 3));
        lemma_bytes_of_value(b.subrange(1, 3));
        assert(be_bytes(v.stock_locate as nat, 2) == b.subrange(1, 3));
        lemma_be_value_bound(b.subrange(3, 5));
        lemma_bytes_of_value(b.subrange(3, 5));
        assert(be_bytes(v.tracking_number as nat, 2) == b.subrange(3, 5));
        lemma_be_value_bound(b.subrange(5, 11));
        lemma_bytes_of_value(b.subrange(5, 11));
        assert(be_bytes(v.timestamp as nat, 6) == b.subrange(5, 11));
        lemma_be_value_bound(b.subrange(11, 19));
        lemma_bytes_of_value(b.subrange(11, 19));
        assert(be_bytes(v.order_reference_number as nat, 8) == b.subrange(11, 19));
        lemma_be_value_bound(b.subrange(19, 23));
        lemma_bytes_of_value(b.subrange(19, 23));
        assert(be_bytes(v.cancelled_shares as nat, 4) == b.subrange(19, 23));
        assert(v.encoded() =~= b);
    }
}

impl OrderDelete {
    /// An encoded record is `ORDER_DELETE_SIZE` bytes long and begins with the
    /// tag.
    pub proof fn lemma_encoded_len(self)
        ensures
            self.encoded().len() == ORDER_DELETE_SIZE,
            self.encoded()[0] == Self::TYPE,
    {
        lemma_be_bytes_len(self.stock_locate as nat, 2);
        lemma_be_bytes_len(self.tracking_number as nat, 2);
        lemma_be_bytes_len(self.timestamp as nat, 6);
        lemma_be_bytes_len(self.order_reference_number as nat, 8);
    }

    /// Decoding what was encoded gives the record back field for field, but for
    /// what encoding does not keep: the tag is the type's own, and the
    /// timestamp is cut to its low 48 bits. A record that holds its own tag and
    /// a timestamp below `2^48` comes back unchanged.
    pub proof fn lemma_decode_encode(self)
        ensures
            Self::decoded(self.encoded()) == (OrderDelete {
                message_type: Self::TYPE,
                timestamp: (self.timestamp % 0x1_0000_0000_0000) as u64,
                ..self
            }),
            self.message_type == Self::TYPE && self.timestamp < 0x1_0000_0000_0000
                ==> Self::decoded(self.encoded()) == self,
    {
        let b = self.encoded();
        lemma_pow256_values();
        lemma_be_bytes_len(self.stock_locate as nat, 2);
        lemma_be_bytes_len(self.tracking_number as nat, 2);
        lemma_be_bytes_len(self.timestamp as nat, 6);
        lemma_be_bytes_len(self.order_reference_number as nat, 8);
        assert(b.subrange(1, 3) =~= be_bytes(self.stock_locate as nat, 2));
        lemma_value_of_bytes(self.stock_locate as nat, 2);
        assert(b.subrange(3, 5) =~= be_bytes(self.tracking_number as nat, 2));
        lemma_value_of_bytes(self.tracking_number as nat, 2);
        assert(b.subrange(5, 11) =~= be_bytes(self.timestamp as nat, 6));
        lemma_value_of_bytes(self.timestamp as nat, 6);
        assert(b.subrange(11, 19) =~= be_bytes(self.order_reference_number as nat, 8));
        lemma_value_of_bytes(self.order_reference_number as nat, 8);
    }

    /// Encoding what was decoded from `ORDER_DELETE_SIZE` bytes that begin with
    /// the tag gives those bytes back.
    pub proof fn lemma_encode_decode(b: Seq<u8>)
        requires
            b.len() == ORDER_DELETE_SIZE,
            b[0] == Self::TYPE,
        ensures
            Self::decoded(b).encoded() == b,
    {
        let v = Self::decoded(b);
        lemma_pow256_values();
        lemma_be_value_bound(b.subrange(1, 3));
        lemma_bytes_of_value(b.subrange(1, 3));
        assert(be_bytes(v.stock_locate as nat, 2) == b.subrange(1, 3));
        lemma_be_value_bound(b.subrange(3, 5));
        lemma_bytes_of_value(b.subrange(3, 5));
        assert(be_bytes(v.tracking_number as nat, 2) == b.subrange(3, 5));
        lemma_be_value_bound(b.subrange(5, 11));
        lemma_bytes_of_value(b.subrange(5, 11));
        assert(be_bytes(v.timestamp as nat, 6) == b.subrange(5, 11));
        lemma_be_value_bound(b.subrange(11, 19));
        lemma_bytes_of_value(b.subrange(11, 19));
        assert(be_bytes(v.order_reference_number as nat, 8) == b.subrange(11, 19));
        assert(v.encoded() =~= b);
    }
}

impl OrderReplace {
    /// An encoded record is `ORDER_REPLACE_SIZE` bytes long and begins with the
    /// tag.
    pub proof fn lemma_encoded_len(self)
        ensures
            self.encoded().len() == ORDER_REPLACE_SIZE,
            self.encoded()[0] == Self::TYPE,
    {
        lemma_be_bytes_len(self.stock_locate as nat, 2);
        lemma_be_bytes_len(self.tracking_number as nat, 2);
        lemma_be_bytes_len(self.timestamp as nat, 6);
        lemma_be_bytes_len(self.original_order_reference_number as nat, 8);
        lemma_be_bytes_len(self.new_order_reference_number as nat, 8);
        lemma_be_bytes_len(self.shares as nat, 4);
        lemma_be_bytes_len(self.price as nat, 4);
    }

    /// Decoding what was encoded gives the record back field for field, but for
    /// what encoding does not keep: the tag is the type's own, and the
    /// timestamp is cut to its low 48 bits. A record that holds its own tag and
    /// a timestamp below `2^48` comes back unchanged.
    pub proof fn lemma_decode_encode(self)
        ensures
            Self::decoded(self.encoded()) == (OrderReplace {
                message_type: Self::TYPE,
                timestamp: (self.timestamp % 0x1_0000_0000_0000) as u64,
                ..self
            }),
            self.message_type == Self::TYPE && self.timestamp < 0x1_0000_0000_0000
                ==> Self::decoded(self.encoded()) == self,
    {
        let b = self.encoded();
        lemma_pow256_values();
        lemma_be_bytes_len(self.stock_locate as nat, 2);
        lemma_be_bytes_len(self.tracking_number as nat, 2);
        lemma_be_bytes_len(self.timestamp as nat, 6);
        lemma_be_bytes_len(self.original_order_reference_number as nat, 8);
        lemma_be_bytes_len(self.new_order_reference_number as nat, 8);
        lemma_be_bytes_len(self.shares as nat, 4);
        lemma_be_bytes_len(self.price as nat, 4);
        assert(b.subrange(1, 3) =~= be_bytes(self.stock_locate as nat, 2));
        lemma_value_of_bytes(self.stock_locate as nat, 2);
        assert(b.subrange(3, 5) =~= be_bytes(self.tracking_number as nat, 2));
        lemma_value_of_bytes(self.tracking_number as nat, 2);
        assert(b.subrange(5, 11) =~= be_bytes(self.timestamp as nat, 6));
        lemma_value_of_bytes(self.timestamp as nat, 6);
        assert(b.subrange(11, 19) =~= be_bytes(self.original_order_reference_number as nat, 8));
        lemma_value_of_bytes(self.original_order_reference_number as nat, 8);
        assert(b.subrange(19, 27) =~= be_bytes(self.new_order_reference_number as nat, 8));
        lemma_value_of_bytes(self.new_order_reference_number as nat, 8);
        assert(b.subrange(27, 31) =~= be_bytes(self.shares as nat, 4));
        lemma_value_of_bytes(self.shares as nat, 4);
        assert(b.subrange(31, 35) =~= be_bytes(self.price as nat, 4));
        lemma_value_of_bytes(self.price as nat, 4);
    }

    /// Encoding what was decoded from `ORDER_REPLACE_SIZE` bytes that begin
    /// with the tag gives those bytes back.
    pub proof fn lemma_encode_decode(b: Seq<u8>)
        requires
            b.len() == ORDER_REPLACE_SIZE,
            b[0] == Self::TYPE,
        ensures
            Self::decoded(b).encoded() == b,
    {
        let v = Self::decoded(b);
        lemma_pow256_values();
        lemma_be_value_bound(b.subrange(1, 3));
        lemma_bytes_of_value(b.subrange(1, 3));
        assert(be_bytes(v.stock_locate as nat, 2) == b.subrange(1, 3));
        lemma_be_value_bound(b.subrange(3, 5));
        lemma_bytes_of_value(b.subrange(3, 5));
        assert(be_bytes(v.tracking_number as nat, 2) == b.subrange(3, 5));
        lemma_be_value_bound(b.subrange(5, 11));
        lemma_bytes_of_value(b.subrange(5, 11));
        assert(be_bytes(v.timestamp as nat, 6) == b.subrange(5, 11));
        lemma_be_value_bound(b.subrange(11, 19));
        lemma_bytes_of_value(b.subrange(11, 19));
        assert(be_bytes(v.original_order_reference_number as nat, 8) == b.subrange(11, 19));
        lemma_be_value_bound(b.subrange(19, 27));
        lemma_bytes_of_value(b.subrange(19, 27));
        assert(be_bytes(v.new_order_reference_number as nat, 8) == b.subrange(19, 27));
        lemma_be_value_bound(b.subrange(27, 31));
        lemma_bytes_of_value(b.subrange(27, 31));
        assert(be_bytes(v.shares as nat, 4) == b.subrange(27, 31));
        lemma_be_value_bound(b.subrange(31, 35));
        lemma_bytes_of_value(b.subrange(31, 35));
        assert(be_bytes(v.price as nat, 4) == b.subrange(31, 35));
        assert(v.encoded() =~= b);
    }
}

impl Trade {
    /// An encoded record is `TRADE_SIZE` bytes long and begins with the tag.
    pub proof fn lemma_encoded_len(self)
        ensures
            self.encoded().len() == TRADE_SIZE,
            self.encoded()[0] == Self::TYPE,
    {
        lemma_be_bytes_len(self.stock_locate as nat, 2);
        lemma_be_bytes_len(self.tracking_number as nat, 2);
        lemma_be_bytes_len(self.timestamp as nat, 6);
        lemma_be_bytes_len(self.order_reference_number as nat, 8);
        lemma_be_bytes_len(self.shares as nat, 4);
        lemma_be_bytes_len(self.price as nat, 4);
        lemma_be_bytes_len(self.match_number as nat, 8);
    }

    /// Decoding what was encoded gives the record back field for field, but for
    /// what encoding does not keep: the tag is the type's own, and the
    /// timestamp is cut to its low 48 bits. A record that holds its own tag and
    /// a timestamp below `2^48` comes back unchanged.
    pub proof fn lemma_decode_encode(self)
        ensures
            Self::decoded(self.encoded()) == (Trade {
                message_type: Self::TYPE,
                timestamp: (self.timestamp % 0x1_0000_0000_0000) as u64,
                ..self
            }),
            self.message_type == Self::TYPE && self.timestamp < 0x1_0000_0000_0000
                ==> Self::decoded(self.encoded()) == self,
    {
        let b = self.encoded();
        lemma_pow256_values();
        lemma_be_bytes_len(self.stock_locate as nat, 2);
        lemma_be_bytes_len(self.tracking_number as nat, 2);
        lemma_be_bytes_len(self.timestamp as nat, 6);
        lemma_be_bytes_len(self.order_reference_number as nat, 8);
        lemma_be_bytes_len(self.shares as nat, 4);
        lemma_be_bytes_len(self.price as nat, 4);
        lemma_be_bytes_len(self.match_number as nat, 8);
        assert(b.subrange(1, 3) =~= be_bytes(self.stock_locate as nat, 2));
        lemma_value_of_bytes(self.stock_locate as nat, 2);
        assert(b.subrange(3, 5) =~= be_bytes(self.tracking_number as nat, 2));
        lemma_value_of_bytes(self.tracking_number as nat, 2);
        assert(b.subrange(5, 11) =~= be_bytes(self.timestamp as nat, 6));
        lemma_value_of_bytes(self.timestamp as nat, 6);
        assert(b.subrange(11, 19) =~= be_bytes(self.order_reference_number as nat, 8));
        lemma_value_of_bytes(self.order_reference_number as nat, 8);
        assert(b[19] == self.buy_sell_indicator.0);
        assert(b.subrange(20, 24) =~= be_bytes(self.shares as nat, 4));
        lemma_value_of_bytes(self.shares as nat, 4);
        assert(array8_at(b, 24) =~= self.stock);
        assert(b.subrange(32, 36) =~= be_bytes(self.price as nat, 4));
        lemma_value_of_bytes(self.price as nat, 4);
        assert(b.subrange(36, 44) =~= be_bytes(self.match_number as nat, 8));
        lemma_value_of_bytes(self.match_number as nat, 8);
    }

    /// Encoding what was decoded from `TRADE_SIZE` bytes that begin with the
    /// tag gives those bytes back.
    pub proof fn lemma_encode_decode(b: Seq<u8>)
        requires
            b.len() == TRADE_SIZE,
            b[0] == Self::TYPE,
        ensures
            Self::decoded(b).encoded() == b,
    {
        let v = Self::decoded(b);
        lemma_pow256_values();
        lemma_be_value_bound(b.subrange(1, 3));
        lemma_bytes_of_value(b.subrange(1, 3));
        assert(be_bytes(v.stock_locate as nat, 2) == b.subrange(1, 3));
        lemma_be_value_bound(b.subrange(3, 5));
        lemma_bytes_of_value(b.subrange(3, 5));
        assert(be_bytes(v.tracking_number as nat, 2) == b.subrange(3, 5));
        lemma_be_value_bound(b.subrange(5, 11));
        lemma_bytes_of_value(b.subrange(5, 11));
        assert(be_bytes(v.timestamp as nat, 6) == b.subrange(5, 11));
        lemma_be_value_bound(b.subrange(11, 19));
        lemma_bytes_of_value(b.subrange(11, 19));
        assert(be_bytes(v.order_reference_number as nat, 8) == b.subrange(11, 19));
        lemma_be_value_bound(b.subrange(20, 24));
        lemma_bytes_of_value(b.subrange(20, 24));
        assert(be_bytes(v.shares as nat, 4) == b.subrange(20, 24));
        assert(v.stock@ =~= b.subrange(24, 32));
        lemma_be_value_bound(b.subrange(32, 36));
        lemma_bytes_of_value(b.subrange(32, 36));
        assert(be_bytes(v.price as nat, 4) == b.subrange(32, 36));
        lemma_be_value_bound(b.subrange(36, 44));
        lemma_bytes_of_value(b.subrange(36, 44));
        assert(be_bytes(v.match_number as nat, 8) == b.subrange(36, 44));
        assert(v.encoded() =~= b);
    }
}

impl CrossTrade {
    /// An encoded record is `CROSS_TRADE_SIZE` bytes long and begins with the
    /// tag.
    pub proof fn lemma_encoded_len(self)
        ensures
            self.encoded().len() == CROSS_TRADE_SIZE,
            self.encoded()[0] == Self::TYPE,
    {
        lemma_be_bytes_len(self.stock_locate as nat, 2);
        lemma_be_bytes_len(self.tracking_number as nat, 2);
        lemma_be_bytes_len(self.timestamp as nat, 6);
        lemma_be_bytes_len(self.shares as nat, 8);
        lemma_be_bytes_len(self.cross_price as nat, 4);
        lemma_be_bytes_len(self.match_number as nat, 8);
    }

    /// Decoding what was encoded gives the record back field for field, but for
    /// what encoding does not keep: the tag is the type's own, and the
    /// timestamp is cut to its low 48 bits. A record that holds its own tag and
    /// a timestamp below `2^48` comes back unchanged.
    pub proof fn lemma_decode_encode(self)
        ensures
            Self::decoded(self.encoded()) == (CrossTrade {
                message_type: Self::TYPE,
                timestamp: (self.timestamp % 0x1_0000_0000_0000) as u64,
                ..self
            }),
            self.message_type == Self::TYPE && self.timestamp < 0x1_0000_0000_0000
                ==> Self::decoded(self.encoded()) == self,
    {
        let b = self.encoded();
        lemma_pow256_values();
        lemma_be_bytes_len(self.stock_locate as nat, 2);
        lemma_be_bytes_len(self.tracking_number as nat, 2);
        lemma_be_bytes_len(self.timestamp as nat, 6);
        lemma_be_bytes_len(self.shares as nat, 8);
        lemma_be_bytes_len(self.cross_price as nat, 4);
        lemma_be_bytes_len(self.match_number as nat, 8);
        assert(b.subrange(1, 3) =~= be_bytes(self.stock_locate as nat, 2));
        lemma_value_of_bytes(self.stock_locate as nat, 2);
        assert(b.subrange(3, 5) =~= be_bytes(self.tracking_number as nat, 2));
        lemma_value_of_bytes(self.tracking_number as nat, 2);
        assert(b.subrange(5, 11) =~= be_bytes(self.timestamp as nat, 6));
        lemma_value_of_bytes(self.timestamp as nat, 6);
        assert(b.subrange(11, 19) =~= be_bytes(self.shares as nat, 8));
        lemma_value_of_bytes(self.shares as nat, 8);
        assert(array8_at(b, 19) =~= self.stock);
        assert(b.subrange(27, 31) =~= be_bytes(self.cross_price as nat, 4));
        lemma_value_of_bytes(self.cross_price as nat, 4);
        assert(b.subrange(31, 39) =~= be_bytes(self.match_number as nat, 8));
        lemma_value_of_bytes(self.match_number as nat, 8);
        assert(b[39] == self.cross_type.0);
    }

    /// Encoding what was decoded from `CROSS_TRADE_SIZE` bytes that begin with
    /// the tag gives those bytes back.
    pub proof fn lemma_encode_decode(b: Seq<u8>)
        requires
            b.len() == CROSS_TRADE_SIZE,
            b[0] == Self::TYPE,
        ensures
            Self::decoded(b).encoded() == b,
    {
        let v = Self::decoded(b);
        lemma_pow256_values();
        lemma_be_value_bound(b.subrange(1, 3));
        lemma_bytes_of_value(b.subrange(1, 3));
        assert(be_bytes(v.stock_locate as nat, 2) == b.subrange(1, 3));
        lemma_be_value_bound(b.subrange(3, 5));
        lemma_bytes_of_value(b.subrange(3, 5));
        assert(be_bytes(v.tracking_number as nat, 2) == b.subrange(3, 5));
        lemma_be_value_bound(b.subrange(5, 11));
        lemma_bytes_of_value(b.subrange(5, 11));
        assert(be_bytes(v.timestamp as nat, 6) == b.subrange(5, 11));
        lemma_be_value_bound(b.subrange(11, 19));
        lemma_bytes_of_value(b.subrange(11, 19));
        assert(be_bytes(v.shares as nat, 8) == b.subrange(11, 19));
        assert(v.stock@ =~= b.subrange(19, 27));
        lemma_be_value_bound(b.subrange(27, 31));
        lemma_bytes_of_value(b.subrange(27, 31));
        assert(be_bytes(v.cross_price as nat, 4) == b.subrange(27, 31));
        lemma_be_value_bound(b.subrange(31, 39));
        lemma_bytes_of_value(b.subrange(31, 39));
        assert(be_bytes(v.match_number as nat, 8) == b.subrange(31, 39));
        assert(v.encoded() =~= b);
    }
}

impl BrokenTrade {
    /// An encoded record is `BROKEN_TRADE_SIZE` bytes long and begins with the
    /// tag.
    pub proof fn lemma_encoded_len(self)
        ensures
            self.encoded().len() == BROKEN_TRADE_SIZE,
            self.encoded()[0] == Self::TYPE,
    {
        lemma_be_bytes_len(self.stock_locate as nat, 2);
        lemma_be_bytes_len(self.tracking_number as nat, 2);
        lemma_be_bytes_len(self.timestamp as nat, 6);
        lemma_be_bytes_len(self.match_number as nat, 8);
    }

    /// Decoding what was encoded gives the record back field for field, but for
    /// what encoding does not keep: the tag is the type's own, and the
    /// timestamp is cut to its low 48 bits. A record that holds its own tag and
    /// a timestamp below `2^48` comes back unchanged.
    pub proof fn lemma_decode_encode(self)
        ensures
            Self::decoded(self.encoded()) == (BrokenTrade {
                message_type: Self::TYPE,
                timestamp: (self.timestamp % 0x1_0000_0000_0000) as u64,
                ..self
            }),
            self.message_type == Self::TYPE && self.timestamp < 0x1_0000_0000_0000
                ==> Self::decoded(self.encoded()) == self,
    {
        let b = self.encoded();
        lemma_pow256_values();
        lemma_be_bytes_len(self.stock_locate as nat, 2);
        lemma_be_bytes_len(self.tracking_number as nat, 2);
        lemma_be_bytes_len(self.timestamp as nat, 6);
        lemma_be_bytes_len(self.match_number as nat, 8);
        assert(b.subrange(1, 3) =~= be_bytes(self.stock_locate as nat, 2));
        lemma_value_of_bytes(self.stock_locate as nat, 2);
        assert(b.subrange(3, 5) =~= be_bytes(self.tracking_number as nat, 2));
        lemma_value_of_bytes(self.tracking_number as nat, 2);
        assert(b.subrange(5, 11) =~= be_bytes(self.timestamp as nat, 6));
        lemma_value_of_bytes(self.timestamp as nat, 6);
        assert(b.subrange(11, 19) =~= be_bytes(self.match_number as nat, 8));
        lemma_value_of_bytes(self.match_number as nat, 8);
    }

    /// Encoding what was decoded from `BROKEN_TRADE_SIZE` bytes that begin with
    /// the tag gives those bytes back.
    pub proof fn lemma_encode_decode(b: Seq<u8>)
        requires
            b.len() == BROKEN_TRADE_SIZE,
            b[0] == Self::TYPE,
        ensures
            Self::decoded(b).encoded() == b,
    {
        let v = Self::decoded(b);
        lemma_pow256_values();
        lemma_be_value_bound(b.subrange(1, 3));
        lemma_bytes_of_value(b.subrange(1, 3));
        assert(be_bytes(v.stock_locate as nat, 2) == b.subrange(1, 3));
        lemma_be_value_bound(b.subrange(3, 5));
        lemma_bytes_of_value(b.subrange(3, 5));
        assert(be_bytes(v.tracking_number as nat, 2) == b.subrange(3, 5));
        lemma_be_value_bound(b.subrange(5, 11));
        lemma_bytes_of_value(b.subrange(5, 11));
        assert(be_bytes(v.timestamp as nat, 6) == b.subrange(5, 11));
        lemma_be_value_bound(b.subrange(11, 19));
        lemma_bytes_of_value(b.subrange(11, 19));
        assert(be_bytes(v.match_number as nat, 8) == b.subrange(11, 19));
        assert(v.encoded() =~= b);
    }
}

impl NetOrderImbalanceIndicator {
    /// An encoded record is `NET_ORDER_IMBALANCE_INDICATOR_SIZE` bytes long and
    /// begins with the tag.
    pub proof fn lemma_encoded_len(self)
        ensures
            self.encoded().len() == NET_ORDER_IMBALANCE_INDICATOR_SIZE,
            self.encoded()[0] == Self::TYPE,
    {
        lemma_be_bytes_len(self.stock_locate as nat, 2);
        lemma_be_bytes_len(self.tracking_number as nat, 2);
        lemma_be_bytes_len(self.timestamp as nat, 6);
        lemma_be_bytes_len(self.paired_shares as nat, 8);
        lemma_be_bytes_len(self.imbalance_shares as nat, 8);
        lemma_be_bytes_len(self.far_price as nat, 4);
        lemma_be_bytes_len(self.near_price as nat, 4);
        lemma_be_bytes_len(self.current_reference_price as nat, 4);
    }

    /// Decoding what was encoded gives the record back field for field, but for
    /// what encoding does not keep: the tag is the type's own, and the
    /// timestamp is cut to its low 48 bits. A record that holds its own tag and
    /// a timestamp below `2^48` comes back unchanged.
    pub proof fn lemma_decode_encode(self)
        ensures
            Self::decoded(self.encoded()) == (NetOrderImbalanceIndicator {
                message_type: Self::TYPE,
                timestamp: (self.timestamp % 0x1_0000_0000_0000) as u64,
                ..self
            }),
            self.message_type == Self::TYPE && self.timestamp < 0x1_0000_0000_0000
                ==> Self::decoded(self.encoded()) == self,
    {
        let b = self.encoded();
        lemma_pow256_values();
        lemma_be_bytes_len(self.stock_locate as nat, 2);
        lemma_be_bytes_len(self.tracking_number as nat, 2);
        lemma_be_bytes_len(self.timestamp as nat, 6);
        lemma_be_bytes_len(self.paired_shares as nat, 8);
        lemma_be_bytes_len(self.imbalance_shares as nat, 8);
        lemma_be_bytes_len(self.far_price as nat, 4);
        lemma_be_bytes_len(self.near_price as nat, 4);
        lemma_be_bytes_len(self.current_reference_price as nat, 4);
        assert(b.subrange(1, 3) =~= be_bytes(self.stock_locate as nat, 2));
        lemma_value_of_bytes(self.stock_locate as nat, 2);
        assert(b.subrange(3, 5) =~= be_bytes(self.tracking_number as nat, 2));
        lemma_value_of_bytes(self.tracking_number as nat, 2);
        assert(b.subrange(5, 11) =~= be_bytes(self.timestamp as nat, 6));
        lemma_value_of_bytes(self.timestamp as nat, 6);
        assert(b.subrange(11, 19) =~= be_bytes(self.paired_shares as nat, 8));
        lemma_value_of_bytes(self.paired_shares as nat, 8);
        assert(b.subrange(19, 27) =~= be_bytes(self.imbalance_shares as nat, 8));
        lemma_value_of_bytes(self.imbalance_shares as nat, 8);
        assert(b[27] == self.imbalance_direction.0);
        assert(array8_at(b, 28) =~= self.stock);
        assert(b.subrange(36, 40) =~= be_bytes(self.far_price as nat, 4));
        lemma_value_of_bytes(self.far_price as nat, 4);
        assert(b.subrange(40, 44) =~= be_bytes(self.near_price as nat, 4));
        lemma_value_of_bytes(self.near_price as nat, 4);
        assert(b.subrange(44, 48) =~= be_bytes(self.current_reference_price as nat, 4));
        lemma_value_of_bytes(self.current_reference_price as nat, 4);
        assert(b[48] == self.cross_type.0);
        assert(b[49] == self.price_variation_indicator.0);
    }

    /// Encoding what was decoded from `NET_ORDER_IMBALANCE_INDICATOR_SIZE`
    /// bytes that begin with the tag gives those bytes back.
    pub proof fn lemma_encode_decode(b: Seq<u8>)
        requires
            b.len() == NET_ORDER_IMBALANCE_INDICATOR_SIZE,
            b[0] == Self::TYPE,
        ensures
            Self::decoded(b).encoded() == b,
    {
        let v = Self::decoded(b);
        lemma_pow256_values();
        lemma_be_value_bound(b.subrange(1, 3));
        lemma_bytes_of_value(b.subrange(1, 3));
        assert(be_bytes(v.stock_locate as nat, 2) == b.subrange(1, 3));
        lemma_be_value_bound(b.subrange(3, 5));
        lemma_bytes_of_value(b.subrange(3, 5));
        assert(be_bytes(v.tracking_number as nat, 2) == b.subrange(3, 5));
        lemma_be_value_bound(b.subrange(5, 11));
        lemma_bytes_of_value(b.subrange(5, 11));
        assert(be_bytes(v.timestamp as nat, 6) == b.subrange(5, 11));
        lemma_be_value_bound(b.subrange(11, 19));
        lemma_bytes_of_value(b.subrange(11, 19));
        assert(be_bytes(v.paired_shares as nat, 8) == b.subrange(11, 19));
        lemma_be_value_bound(b.subrange(19, 27));
        lemma_bytes_of_value(b.subrange(19, 27));
        assert(be_bytes(v.imbalance_shares as nat, 8) == b.subrange(19, 27));
        assert(v.stock@ =~= b.subrange(28, 36));
        lemma_be_value_bound(b.subrange(36, 40));
        lemma_bytes_of_value(b.subrange(36, 40));
        assert(be_bytes(v.far_price as nat, 4) == b.subrange(36, 40));
        lemma_be_value_bound(b.subrange(40, 44));
        lemma_bytes_of_value(b.subrange(40, 44));
        assert(be_bytes(v.near_price as nat, 4) == b.subrange(40, 44));
        lemma_be_value_bound(b.subrange(44, 48));
        lemma_bytes_of_value(b.subrange(44, 48));
        assert(be_bytes(v.current_reference_price as nat, 4) == b.subrange(44, 48));
        assert(v.encoded() =~= b);
    }
}

impl RetailPriceImprovementIndicator {
    /// An encoded record is `RETAIL_PRICE_IMPROVEMENT_INDICATOR_SIZE` bytes
    /// long and begins with the tag.
    pub proof fn lemma_encoded_len(self)
        ensures
            self.encoded().len() == RETAIL_PRICE_IMPROVEMENT_INDICATOR_SIZE,
            self.encoded()[0] == Self::TYPE,
    {
        lemma_be_bytes_len(self.stock_locate as nat, 2);
        lemma_be_bytes_len(self.tracking_number as nat, 2);
        lemma_be_bytes_len(self.timestamp as nat, 6);
    }

    /// Decoding what was encoded gives the record back field for field, but for
    /// what encoding does not keep: the tag is the type's own, and the
    /// timestamp is cut to its low 48 bits. A record that holds its own tag and
    /// a timestamp below `2^48` comes back unchanged.
    pub proof fn lemma_decode_encode(self)
        ensures
            Self::decoded(self.encoded()) == (RetailPriceImprovementIndicator {
                message_type: Self::TYPE,
                timestamp: (self.timestamp % 0x1_0000_0000_0000) as u64,
                ..self
            }),
            self.message_type == Self::TYPE && self.timestamp < 0x1_0000_0000_0000
                ==> Self::decoded(self.encoded()) == self,
    {
        let b = self.encoded();
        lemma_pow256_values();
        lemma_be_bytes_len(self.stock_locate as nat, 2);
        lemma_be_bytes_len(self.tracking_number as nat, 2);
        lemma_be_bytes_len(self.timestamp as nat, 6);
        assert(b.subrange(1, 3) =~= be_bytes(self.stock_locate as nat, 2));
        lemma_value_of_bytes(self.stock_locate as nat, 2);
        assert(b.subrange(3, 5) =~= be_bytes(self.tracking_number as nat, 2));
        lemma_value_of_bytes(self.tracking_number as nat, 2);
        assert(b.subrange(5, 11) =~= be_bytes(self.timestamp as nat, 6));
        lemma_value_of_bytes(self.timestamp as nat, 6);
        assert(array8_at(b, 11) =~= self.stock);
        assert(b[19] == self.interest_flag.0);
    }

    /// Encoding what was decoded from `RETAIL_PRICE_IMPROVEMENT_INDICATOR_SIZE`
    /// bytes that begin with the tag gives those bytes back.
    pub proof fn lemma_encode_decode(b: Seq<u8>)
        requires
            b.len() == RETAIL_PRICE_IMPROVEMENT_INDICATOR_SIZE,
            b[0] == Self::TYPE,
        ensures
            Self::decoded(b).encoded() == b,
    {
        let v = Self::decoded(b);
        lemma_pow256_values();
        lemma_be_value_bound(b.subrange(1, 3));
        lemma_bytes_of_value(b.subrange(1, 3));
        assert(be_bytes(v.stock_locate as nat, 2) == b.subrange(1, 3));
        lemma_be_value_bound(b.subrange(3, 5));
        lemma_bytes_of_value(b.subrange(3, 5));
        assert(be_bytes(v.tracking_number as nat, 2) == b.subrange(3, 5));
        lemma_be_value_bound(b.subrange(5, 11));
        lemma_bytes_of_value(b.subrange(5, 11));
        assert(be_bytes(v.timestamp as nat, 6) == b.subrange(5, 11));
        assert(v.stock@ =~= b.subrange(11, 19));
        assert(v.encoded() =~= b);
    }
}

impl EndOfSnapshot {
    /// An encoded record is `END_OF_SNAPSHOT_SIZE` bytes long and begins with
    /// the tag.
    pub proof fn lemma_encoded_len(self)
        ensures
            self.encoded().len() == END_OF_SNAPSHOT_SIZE,
            self.encoded()[0] == Self::TYPE,
    {
    }

    /// Decoding what was encoded gives the record back field for field, but for
    /// what encoding does not keep: the tag is the type's own. A record that
    /// holds its own tag comes back unchanged.
    pub proof fn lemma_decode_encode(self)
        ensures
            Self::decoded(self.encoded()) == (EndOfSnapshot {
                message_type: Self::TYPE,
                ..self
            }),
            self.message_type == Self::TYPE
                ==> Self::decoded(self.encoded()) == self,
    {
        let b = self.encoded();
        lemma_pow256_values();
        assert(array20_at(b, 1) =~= self.sequence_number);
    }

    /// Encoding what was decoded from `END_OF_SNAPSHOT_SIZE` bytes that begin
    /// with the tag gives those bytes back.
    pub proof fn lemma_encode_decode(b: Seq<u8>)
        requires
            b.len() == END_OF_SNAPSHOT_SIZE,
            b[0] == Self::TYPE,
        ensures
            Self::decoded(b).encoded() == b,
    {
        let v = Self::decoded(b);
        lemma_pow256_values();
        assert(v.sequence_number@ =~= b.subrange(1, 21));
        assert(v.encoded() =~= b);
    }
}

} // verus!
