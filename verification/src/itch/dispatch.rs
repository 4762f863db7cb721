//! Dispatch: the leading byte of a message says which record it is, and each
//! kind of record has its own handler method.

use crate::error::DecodeError;
use crate::itch::records::{
    SystemEvent, SYSTEM_EVENT_SIZE,
    StockDirectory, STOCK_DIRECTORY_SIZE,
    StockTradingAction, STOCK_TRADING_ACTION_SIZE,
    RegShoRestriction, REG_SHO_RESTRICTION_SIZE,
    MarketParticipantPosition, MARKET_PARTICIPANT_POSITION_SIZE,
    MwcbDeclineLevel, MWCB_DECLINE_LEVEL_SIZE,
    MwcbStatus, MWCB_STATUS_SIZE,
    IpoQuotingPeriodUpdate, IPO_QUOTING_PERIOD_UPDATE_SIZE,
    LuldAuctionCollar, LULD_AUCTION_COLLAR_SIZE,
    OperationalHalt, OPERATIONAL_HALT_SIZE,
    AddOrder, ADD_ORDER_SIZE,
    AddOrderWithMpid, ADD_ORDER_WITH_MPID_SIZE,
    OrderExecuted, ORDER_EXECUTED_SIZE,
    OrderExecutedWithPrice, ORDER_EXECUTED_WITH_PRICE_SIZE,
    OrderCancel, ORDER_CANCEL_SIZE,
    OrderDelete, ORDER_DELETE_SIZE,
    OrderReplace, ORDER_REPLACE_SIZE,
    Trade, TRADE_SIZE,
    CrossTrade, CROSS_TRADE_SIZE,
    BrokenTrade, BROKEN_TRADE_SIZE,
    NetOrderImbalanceIndicator, NET_ORDER_IMBALANCE_INDICATOR_SIZE,
    RetailPriceImprovementIndicator, RETAIL_PRICE_IMPROVEMENT_INDICATOR_SIZE,
    EndOfSnapshot, END_OF_SNAPSHOT_SIZE,
};
use vstd::prelude::*;

verus! {

/// A decoded message of any type.
#[derive(Debug, Clone, Copy, PartialEq, Eq)]
pub enum Message {
    SystemEvent(SystemEvent),
    StockDirectory(StockDirectory),
    StockTradingAction(StockTradingAction),
    RegShoRestriction(RegShoRestriction),
    MarketParticipantPosition(MarketParticipantPosition),
    MwcbDeclineLevel(MwcbDeclineLevel),
    MwcbStatus(MwcbStatus),
    IpoQuotingPeriodUpdate(IpoQuotingPeriodUpdate),
    LuldAuctionCollar(LuldAuctionCollar),
    OperationalHalt(OperationalHalt),
    AddOrder(AddOrder),
    AddOrderWithMpid(AddOrderWithMpid),
    OrderExecuted(OrderExecuted),
    OrderExecutedWithPrice(OrderExecutedWithPrice),
    OrderCancel(OrderCancel),
    OrderDelete(OrderDelete),
    OrderReplace(OrderReplace),
    Trade(Trade),
    CrossTrade(CrossTrade),
    BrokenTrade(BrokenTrade),
    NetOrderImbalanceIndicator(NetOrderImbalanceIndicator),
    RetailPriceImprovementIndicator(RetailPriceImprovementIndicator),
    EndOfSnapshot(EndOfSnapshot),
}

impl Message {
    /// What the message buffer `b` means: the record of the type that its
    /// leading byte names, read off its start. A buffer that is empty or
    /// shorter than that type's records is truncated; a leading byte that names
    /// no type is reported with the byte.
    pub open spec fn decoded(b: Seq<u8>) -> Result<Message, DecodeError> {
        if b.len() == 0 {
            Err(DecodeError::Truncated)
        } else if b[0] == SystemEvent::TYPE {
            if b.len() >= SYSTEM_EVENT_SIZE {
                Ok(Message::SystemEvent(SystemEvent::decoded(b)))
            } else {
                Err(DecodeError::Truncated)
            }
        } else if b[0] == StockDirectory::TYPE {
            if b.len() >= STOCK_DIRECTORY_SIZE {
                Ok(Message::StockDirectory(StockDirectory::decoded(b)))
            } else {
                Err(DecodeError::Truncated)
            }
        } else if b[0] == StockTradingAction::TYPE {
            if b.len() >= STOCK_TRADING_ACTION_SIZE {
                Ok(Message::StockTradingAction(StockTradingAction::decoded(b)))
            } else {
                Err(DecodeError::Truncated)
            }
        } else if b[0] == RegShoRestriction::TYPE {
            if b.len() >= REG_SHO_RESTRICTION_SIZE {
                Ok(Message::RegShoRestriction(RegShoRestriction::decoded(b)))
            } else {
                Err(DecodeError::Truncated)
            }
        } else if b[0] == MarketParticipantPosition::TYPE {
            if b.len() >= MARKET_PARTICIPANT_POSITION_SIZE {
                Ok(Message::MarketParticipantPosition(MarketParticipantPosition::decoded(b)))
            } else {
                Err(DecodeError::Truncated)
            }
        } else if b[0] == MwcbDeclineLevel::TYPE {
            if b.len() >= MWCB_DECLINE_LEVEL_SIZE {
                Ok(Message::MwcbDeclineLevel(MwcbDeclineLevel::decoded(b)))
            } else {
                Err(DecodeError::Truncated)
            }
        } else if b[0] == MwcbStatus::TYPE {
            if b.len() >= MWCB_STATUS_SIZE {
                Ok(Message::MwcbStatus(MwcbStatus::decoded(b)))
            } else {
                Err(DecodeError::Truncated)
            }
        } else if b[0] == IpoQuotingPeriodUpdate::TYPE {
            if b.len() >= IPO_QUOTING_PERIOD_UPDATE_SIZE {
                Ok(Message::IpoQuotingPeriodUpdate(IpoQuotingPeriodUpdate::decoded(b)))
            } else {
                Err(DecodeError::Truncated)
            }
        } else if b[0] == LuldAuctionCollar::TYPE {
            if b.len() >= LULD_AUCTION_COLLAR_SIZE {
                Ok(Message::LuldAuctionCollar(LuldAuctionCollar::decoded(b)))
            } else {
                Err(DecodeError::Truncated)
            }
        } else if b[0] == OperationalHalt::TYPE {
            if b.len() >= OPERATIONAL_HALT_SIZE {
                Ok(Message::OperationalHalt(OperationalHalt::decoded(b)))
            } else {
                Err(DecodeError::Truncated)
            }
        } else if b[0] == AddOrder::TYPE {
            if b.len() >= ADD_ORDER_SIZE {
                Ok(Message::AddOrder(AddOrder::decoded(b)))
            } else {
                Err(DecodeError::Truncated)
            }
        } else if b[0] == AddOrderWithMpid::TYPE {
            if b.len() >= ADD_ORDER_WITH_MPID_SIZE {
                Ok(Message::AddOrderWithMpid(AddOrderWithMpid::decoded(b)))
            } else {
                Err(DecodeError::Truncated)
            }
        } else if b[0] == OrderExecuted::TYPE {
            if b.len() >= ORDER_EXECUTED_SIZE {
                Ok(Message::OrderExecuted(OrderExecuted::decoded(b)))
            } else {
                Err(DecodeError::Truncated)
            }
        } else if b[0] == OrderExecutedWithPrice::TYPE {
            if b.len() >= ORDER_EXECUTED_WITH_PRICE_SIZE {
                Ok(Message::OrderExecutedWithPrice(OrderExecutedWithPrice::decoded(b)))
            } else {
                Err(DecodeError::Truncated)
            }
        } else if b[0] == OrderCancel::TYPE {
            if b.len() >= ORDER_CANCEL_SIZE {
                Ok(Message::OrderCancel(OrderCancel::decoded(b)))
            } else {
                Err(DecodeError::Truncated)
            }
        } else if b[0] == OrderDelete::TYPE {
            if b.len() >= ORDER_DELETE_SIZE {
                Ok(Message::OrderDelete(OrderDelete::decoded(b)))
            } else {
                Err(DecodeError::Truncated)
            }
        } else if b[0] == OrderReplace::TYPE {
            if b.len() >= ORDER_REPLACE_SIZE {
                Ok(Message::OrderReplace(OrderReplace::decoded(b)))
            } else {
                Err(DecodeError::Truncated)
            }
        } else if b[0] == Trade::TYPE {
            if b.len() >= TRADE_SIZE {
                Ok(Message::Trade(Trade::decoded(b)))
            } else {
                Err(DecodeError::Truncated)
            }
        } else if b[0] == CrossTrade::TYPE {
            if b.len() >= CROSS_TRADE_SIZE {
                Ok(Message::CrossTrade(CrossTrade::decoded(b)))
            } else {
                Err(DecodeError::Truncated)
            }
        } else if b[0] == BrokenTrade::TYPE {
            if b.len() >= BROKEN_TRADE_SIZE {
                Ok(Message::BrokenTrade(BrokenTrade::decoded(b)))
            } else {
                Err(DecodeError::Truncated)
            }
        } else if b[0] == NetOrderImbalanceIndicator::TYPE {
            if b.len() >= NET_ORDER_IMBALANCE_INDICATOR_SIZE {
                Ok(Message::NetOrderImbalanceIndicator(NetOrderImbalanceIndicator::decoded(b)))
            } else {
                Err(DecodeError::Truncated)
            }
        } else if b[0] == RetailPriceImprovementIndicator::TYPE {
            if b.len() >= RETAIL_PRICE_IMPROVEMENT_INDICATOR_SIZE {
                Ok(
                    Message::RetailPriceImprovementIndicator(
                        RetailPriceImprovementIndicator::decoded(b),
                    ),
                )
            } else {
                Err(DecodeError::Truncated)
            }
        } else if b[0] == EndOfSnapshot::TYPE {
            if b.len() >= END_OF_SNAPSHOT_SIZE {
                Ok(Message::EndOfSnapshot(EndOfSnapshot::decoded(b)))
            } else {
                Err(DecodeError::Truncated)
            }
        } else {
            Err(DecodeError::UnknownType(b[0]))
        }
    }

    /// Decodes the message in `msg` by its leading byte.
    pub fn from_bytes(msg: &[u8]) -> (r: Result<Message, DecodeError>)
        ensures
            r == Self::decoded(msg@),
    {
        if msg.len() == 0 {
            return Err(DecodeError::Truncated);
        }
        let tipe = msg[0];
        if tipe == SystemEvent::TYPE {
            match SystemEvent::from_bytes(msg) {
                Some((rec, _)) => Ok(Message::SystemEvent(rec)),
                None => Err(DecodeError::Truncated),
            }
        } else if tipe == StockDirectory::TYPE {
            match StockDirectory::from_bytes(msg) {
                Some((rec, _)) => Ok(Message::StockDirectory(rec)),
                None => Err(DecodeError::Truncated),
            }
        } else if tipe == StockTradingAction::TYPE {
            match StockTradingAction::from_bytes(msg) {
                Some((rec, _)) => Ok(Message::StockTradingAction(rec)),
                None => Err(DecodeError::Truncated),
            }
        } else if tipe == RegShoRestriction::TYPE {
            match RegShoRestriction::from_bytes(msg) {
                Some((rec, _)) => Ok(Message::RegShoRestriction(rec)),
                None => Err(DecodeError::Truncated),
            }
        } else if tipe == MarketParticipantPosition::TYPE {
            match MarketParticipantPosition::from_bytes(msg) {
                Some((rec, _)) => Ok(Message::MarketParticipantPosition(rec)),
                None => Err(DecodeError::Truncated),
            }
        } else if tipe == MwcbDeclineLevel::TYPE {
            match MwcbDeclineLevel::from_bytes(msg) {
                Some((rec, _)) => Ok(Message::MwcbDeclineLevel(rec)),
                None => Err(DecodeError::Truncated),
            }
        } else if tipe == MwcbStatus::TYPE {
            match MwcbStatus::from_bytes(msg) {
                Some((rec, _)) => Ok(Message::MwcbStatus(rec)),
                None => Err(DecodeError::Truncated),
            }
        } else if tipe == IpoQuotingPeriodUpdate::TYPE {
            match IpoQuotingPeriodUpdate::from_bytes(msg) {
                Some((rec, _)) => Ok(Message::IpoQuotingPeriodUpdate(rec)),
                None => Err(DecodeError::Truncated),
            }
        } else if tipe == LuldAuctionCollar::TYPE {
            match LuldAuctionCollar::from_bytes(msg) {
                Some((rec, _)) => Ok(Message::LuldAuctionCollar(rec)),
                None => Err(DecodeError::Truncated),
            }
        } else if tipe == OperationalHalt::TYPE {
            match OperationalHalt::from_bytes(msg) {
                Some((rec, _)) => Ok(Message::OperationalHalt(rec)),
                None => Err(DecodeError::Truncated),
            }
        } else if tipe == AddOrder::TYPE {
            match AddOrder::from_bytes(msg) {
                Some((rec, _)) => Ok(Message::AddOrder(rec)),
                None => Err(DecodeError::Truncated),
            }
        } else if tipe == AddOrderWithMpid::TYPE {
            match AddOrderWithMpid::from_bytes(msg) {
                Some((rec, _)) => Ok(Message::AddOrderWithMpid(rec)),
                None => Err(DecodeError::Truncated),
            }
        } else if tipe == OrderExecuted::TYPE {
            match OrderExecuted::from_bytes(msg) {
                Some((rec, _)) => Ok(Message::OrderExecuted(rec)),
                None => Err(DecodeError::Truncated),
            }
        } else if tipe == OrderExecutedWithPrice::TYPE {
            match OrderExecutedWithPrice::from_bytes(msg) {
                Some((rec, _)) => Ok(Message::OrderExecutedWithPrice(rec)),
                None => Err(DecodeError::Truncated),
            }
        } else if tipe == OrderCancel::TYPE {
            match OrderCancel::from_bytes(msg) {
                Some((rec, _)) => Ok(Message::OrderCancel(rec)),
                None => Err(DecodeError::Truncated),
            }
        } else if tipe == OrderDelete::TYPE {
            match OrderDelete::from_bytes(msg) {
                Some((rec, _)) => Ok(Message::OrderDelete(rec)),
                None => Err(DecodeError::Truncated),
            }
        } else if tipe == OrderReplace::TYPE {
            match OrderReplace::from_bytes(msg) {
                Some((rec, _)) => Ok(Message::OrderReplace(rec)),
                None => Err(DecodeError::Truncated),
            }
        } else if tipe == Trade::TYPE {
            match Trade::from_bytes(msg) {
                Some((rec, _)) => Ok(Message::Trade(rec)),
                None => Err(DecodeError::Truncated),
            }
        } else if tipe == CrossTrade::TYPE {
            match CrossTrade::from_bytes(msg) {
                Some((rec, _)) => Ok(Message::CrossTrade(rec)),
                None => Err(DecodeError::Truncated),
            }
        } else if tipe == BrokenTrade::TYPE {
            match BrokenTrade::from_bytes(msg) {
                Some((rec, _)) => Ok(Message::BrokenTrade(rec)),
                None => Err(DecodeError::Truncated),
            }
        } else if tipe == NetOrderImbalanceIndicator::TYPE {
            match NetOrderImbalanceIndicator::from_bytes(msg) {
                Some((rec, _)) => Ok(Message::NetOrderImbalanceIndicator(rec)),
                None => Err(DecodeError::Truncated),
            }
        } else if tipe == RetailPriceImprovementIndicator::TYPE {
            match RetailPriceImprovementIndicator::from_bytes(msg) {
                Some((rec, _)) => Ok(Message::RetailPriceImprovementIndicator(rec)),
                None => Err(DecodeError::Truncated),
            }
        } else if tipe == EndOfSnapshot::TYPE {
            match EndOfSnapshot::from_bytes(msg) {
                Some((rec, _)) => Ok(Message::EndOfSnapshot(rec)),
                None => Err(DecodeError::Truncated),
            }
        } else {
            Err(DecodeError::UnknownType(tipe))
        }
    }
}

/// What a consumer of the feed implements: one method per message type. Each
/// does nothing unless it is overridden, so a consumer writes only the ones it
/// cares for. A method that is overridden is free to do what it likes.
pub trait ItchHandler: Sized {
    /// Called with every [`SystemEvent`] of the feed.
    fn on_system_event(&mut self, _msg: SystemEvent)
        default_ensures
            *final(self) == *old(self),
    {
    }

    /// Called with every [`StockDirectory`] of the feed.
    fn on_stock_directory(&mut self, _msg: StockDirectory)
        default_ensures
            *final(self) == *old(self),
    {
    }

    /// Called with every [`StockTradingAction`] of the feed.
    fn on_stock_trading_action(&mut self, _msg: StockTradingAction)
        default_ensures
            *final(self) == *old(self),
    {
    }

    /// Called with every [`RegShoRestriction`] of the feed.
    fn on_reg_sho_restriction(&mut self, _msg: RegShoRestriction)
        default_ensures
            *final(self) == *old(self),
    {
    }

    /// Called with every [`MarketParticipantPosition`] of the feed.
    fn on_market_participant_position(&mut self, _msg: MarketParticipantPosition)
        default_ensures
            *final(self) == *old(self),
    {
    }

    /// Called with every [`MwcbDeclineLevel`] of the feed.
    fn on_mwcb_decline_level(&mut self, _msg: MwcbDeclineLevel)
        default_ensures
            *final(self) == *old(self),
    {
    }

    /// Called with every [`MwcbStatus`] of the feed.
    fn on_mwcb_status(&mut self, _msg: MwcbStatus)
        default_ensures
            *final(self) == *old(self),
    {
    }

    /// Called with every [`IpoQuotingPeriodUpdate`] of the feed.
    fn on_ipo_quoting_period_update(&mut self, _msg: IpoQuotingPeriodUpdate)
        default_ensures
            *final(self) == *old(self),
    {
    }

    /// Called with every [`LuldAuctionCollar`] of the feed.
    fn on_luld_auction_collar(&mut self, _msg: LuldAuctionCollar)
        default_ensures
            *final(self) == *old(self),
    {
    }

    /// Called with every [`OperationalHalt`] of the feed.
    fn on_operational_halt(&mut self, _msg: OperationalHalt)
        default_ensures
            *final(self) == *old(self),
    {
    }

    /// Called with every [`AddOrder`] of the feed.
    fn on_add_order(&mut self, _msg: AddOrder)
        default_ensures
            *final(self) == *old(self),
    {
    }

    /// Called with every [`AddOrderWithMpid`] of the feed.
    fn on_add_order_with_mpid(&mut self, _msg: AddOrderWithMpid)
        default_ensures
            *final(self) == *old(self),
    {
    }

    /// Called with every [`OrderExecuted`] of the feed.
    fn on_order_executed(&mut self, _msg: OrderExecuted)
        default_ensures
            *final(self) == *old(self),
    {
    }

    /// Called with every [`OrderExecutedWithPrice`] of the feed.
    fn on_order_executed_with_price(&mut self, _msg: OrderExecutedWithPrice)
        default_ensures
            *final(self) == *old(self),
    {
    }

    /// Called with every [`OrderCancel`] of the feed.
    fn on_order_cancel(&mut self, _msg: OrderCancel)
        default_ensures
            *final(self) == *old(self),
    {
    }

    /// Called with every [`OrderDelete`] of the feed.
    fn on_order_delete(&mut self, _msg: OrderDelete)
        default_ensures
            *final(self) == *old(self),
    {
    }

    /// Called with every [`OrderReplace`] of the feed.
    fn on_order_replace(&mut self, _msg: OrderReplace)
        default_ensures
            *final(self) == *old(self),
    {
    }

    /// Called with every [`Trade`] of the feed.
    fn on_trade(&mut self, _msg: Trade)
        default_ensures
            *final(self) == *old(self),
    {
    }

    /// Called with every [`CrossTrade`] of the feed.
    fn on_cross_trade(&mut self, _msg: CrossTrade)
        default_ensures
            *final(self) == *old(self),
    {
    }

    /// Called with every [`BrokenTrade`] of the feed.
    fn on_broken_trade(&mut self, _msg: BrokenTrade)
        default_ensures
            *final(self) == *old(self),
    {
    }

    /// Called with every [`NetOrderImbalanceIndicator`] of the feed.
    fn on_net_order_imbalance_indicator(&mut self, _msg: NetOrderImbalanceIndicator)
        default_ensures
            *final(self) == *old(self),
    {
    }

    /// Called with every [`RetailPriceImprovementIndicator`] of the feed.
    fn on_retail_price_improvement_indicator(&mut self, _msg: RetailPriceImprovementIndicator)
        default_ensures
            *final(self) == *old(self),
    {
    }

    /// Called with every [`EndOfSnapshot`] of the feed.
    fn on_end_of_snapshot(&mut self, _msg: EndOfSnapshot)
        default_ensures
            *final(self) == *old(self),
    {
    }
}

/// Decodes the message in `msg` and hands the record to the handler method of
/// its type, which is called once. A message that cannot be decoded reaches no
/// handler method: the handler is left as it was and the reason is returned.
///
/// Each handler method is called through its function value, so that the
/// contract can say of the handler what that one call has left of it.
pub fn crack_message<T: ItchHandler>(msg: &[u8], handler: &mut T) -> (r: Result<
    (),
    DecodeError,
>)
    requires
        msg@.len() > 0,
    ensures
        r is Ok <==> Message::decoded(msg@) is Ok,
        r is Err ==> Message::decoded(msg@) == Err::<Message, DecodeError>(r->Err_0),
        r is Err ==> *final(handler) == *old(handler),
        r is Ok ==> match Message::decoded(msg@)->Ok_0 {
            Message::SystemEvent(rec) => exists|h: &mut T|
                *h == *old(handler) && *final(h) == *final(handler) && #[trigger] call_ensures(
                    T::on_system_event,
                    (h, rec),
                    (),
                ),
            Message::StockDirectory(rec) => exists|h: &mut T|
                *h == *old(handler) && *final(h) == *final(handler) && #[trigger] call_ensures(
                    T::on_stock_directory,
                    (h, rec),
                    (),
                ),
            Message::StockTradingAction(rec) => exists|h: &mut T|
                *h == *old(handler) && *final(h) == *final(handler) && #[trigger] call_ensures(
                    T::on_stock_trading_action,
                    (h, rec),
                    (),
                ),
            Message::RegShoRestriction(rec) => exists|h: &mut T|
                *h == *old(handler) && *final(h) == *final(handler) && #[trigger] call_ensures(
                    T::on_reg_sho_restriction,
                    (h, rec),
                    (),
                ),
            Message::MarketParticipantPosition(rec) => exists|h: &mut T|
                *h == *old(handler) && *final(h) == *final(handler) && #[trigger] call_ensures(
                    T::on_market_participant_position,
                    (h, rec),
                    (),
                ),
            Message::MwcbDeclineLevel(rec) => exists|h: &mut T|
                *h == *old(handler) && *final(h) == *final(handler) && #[trigger] call_ensures(
                    T::on_mwcb_decline_level,
                    (h, rec),
                    (),
                ),
            Message::MwcbStatus(rec) => exists|h: &mut T|
                *h == *old(handler) && *final(h) == *final(handler) && #[trigger] call_ensures(
                    T::on_mwcb_status,
                    (h, rec),
                    (),
                ),
            Message::IpoQuotingPeriodUpdate(rec) => exists|h: &mut T|
                *h == *old(handler) && *final(h) == *final(handler) && #[trigger] call_ensures(
                    T::on_ipo_quoting_period_update,
                    (h, rec),
                    (),
                ),
            Message::LuldAuctionCollar(rec) => exists|h: &mut T|
                *h == *old(handler) && *final(h) == *final(handler) && #[trigger] call_ensures(
                    T::on_luld_auction_collar,
                    (h, rec),
                    (),
                ),
            Message::OperationalHalt(rec) => exists|h: &mut T|
                *h == *old(handler) && *final(h) == *final(handler) && #[trigger] call_ensures(
                    T::on_operational_halt,
                    (h, rec),
                    (),
                ),
            Message::AddOrder(rec) => exists|h: &mut T|
                *h == *old(handler) && *final(h) == *final(handler) && #[trigger] call_ensures(
                    T::on_add_order,
                    (h, rec),
                    (),
                ),
            Message::AddOrderWithMpid(rec) => exists|h: &mut T|
                *h == *old(handler) && *final(h) == *final(handler) && #[trigger] call_ensures(
                    T::on_add_order_with_mpid,
                    (h, rec),
                    (),
                ),
            Message::OrderExecuted(rec) => exists|h: &mut T|
                *h == *old(handler) && *final(h) == *final(handler) && #[trigger] call_ensures(
                    T::on_order_executed,
                    (h, rec),
                    (),
                ),
            Message::OrderExecutedWithPrice(rec) => exists|h: &mut T|
                *h == *old(handler) && *final(h) == *final(handler) && #[trigger] call_ensures(
                    T::on_order_executed_with_price,
                    (h, rec),
                    (),
                ),
            Message::OrderCancel(rec) => exists|h: &mut T|
                *h == *old(handler) && *final(h) == *final(handler) && #[trigger] call_ensures(
                    T::on_order_cancel,
                    (h, rec),
                    (),
                ),
            Message::OrderDelete(rec) => exists|h: &mut T|
                *h == *old(handler) && *final(h) == *final(handler) && #[trigger] call_ensures(
                    T::on_order_delete,
                    (h, rec),
                    (),
                ),
            Message::OrderReplace(rec) => exists|h: &mut T|
                *h == *old(handler) && *final(h) == *final(handler) && #[trigger] call_ensures(
                    T::on_order_replace,
                    (h, rec),
                    (),
                ),
            Message::Trade(rec) => exists|h: &mut T|
                *h == *old(handler) && *final(h) == *final(handler) && #[trigger] call_ensures(
                    T::on_trade,
                    (h, rec),
                    (),
                ),
            Message::CrossTrade(rec) => exists|h: &mut T|
                *h == *old(handler) && *final(h) == *final(handler) && #[trigger] call_ensures(
                    T::on_cross_trade,
                    (h, rec),
                    (),
                ),
            Message::BrokenTrade(rec) => exists|h: &mut T|
                *h == *old(handler) && *final(h) == *final(handler) && #[trigger] call_ensures(
                    T::on_broken_trade,
                    (h, rec),
                    (),
                ),
            Message::NetOrderImbalanceIndicator(rec) => exists|h: &mut T|
                *h == *old(handler) && *final(h) == *final(handler) && #[trigger] call_ensures(
                    T::on_net_order_imbalance_indicator,
                    (h, rec),
                    (),
                ),
            Message::RetailPriceImprovementIndicator(rec) => exists|h: &mut T|
                *h == *old(handler) && *final(h) == *final(handler) && #[trigger] call_ensures(
                    T::on_retail_price_improvement_indicator,
                    (h, rec),
                    (),
                ),
            Message::EndOfSnapshot(rec) => exists|h: &mut T|
                *h == *old(handler) && *final(h) == *final(handler) && #[trigger] call_ensures(
                    T::on_end_of_snapshot,
                    (h, rec),
                    (),
                ),
        },
{
    match Message::from_bytes(msg) {
        Err(e) => Err(e),
        Ok(message) => {
            match message {
                Message::SystemEvent(rec) => {
                    let on = T::on_system_event;
                    on(handler, rec);
                },
                Message::StockDirectory(rec) => {
                    let on = T::on_stock_directory;
                    on(handler, rec);
                },
                Message::StockTradingAction(rec) => {
                    let on = T::on_stock_trading_action;
                    on(handler, rec);
                },
                Message::RegShoRestriction(rec) => {
                    let on = T::on_reg_sho_restriction;
                    on(handler, rec);
                },
                Message::MarketParticipantPosition(rec) => {
                    let on = T::on_market_participant_position;
                    on(handler, rec);
                },
                Message::MwcbDeclineLevel(rec) => {
                    let on = T::on_mwcb_decline_level;
                    on(handler, rec);
                },
                Message::MwcbStatus(rec) => {
                    let on = T::on_mwcb_status;
                    on(handler, rec);
                },
                Message::IpoQuotingPeriodUpdate(rec) => {
                    let on = T::on_ipo_quoting_period_update;
                    on(handler, rec);
                },
                Message::LuldAuctionCollar(rec) => {
                    let on = T::on_luld_auction_collar;
                    on(handler, rec);
                },
                Message::OperationalHalt(rec) => {
                    let on = T::on_operational_halt;
                    on(handler, rec);
                },
                Message::AddOrder(rec) => {
                    let on = T::on_add_order;
                    on(handler, rec);
                },
                Message::AddOrderWithMpid(rec) => {
                    let on = T::on_add_order_with_mpid;
                    on(handler, rec);
                },
                Message::OrderExecuted(rec) => {
                    let on = T::on_order_executed;
                    on(handler, rec);
                },
                Message::OrderExecutedWithPrice(rec) => {
                    let on = T::on_order_executed_with_price;
                    on(handler, rec);
                },
                Message::OrderCancel(rec) => {
                    let on = T::on_order_cancel;
                    on(handler, rec);
                },
                Message::OrderDelete(rec) => {
                    let on = T::on_order_delete;
                    on(handler, rec);
                },
                Message::OrderReplace(rec) => {
                    let on = T::on_order_replace;
                    on(handler, rec);
                },
                Message::Trade(rec) => {
                    let on = T::on_trade;
                    on(handler, rec);
                },
                Message::CrossTrade(rec) => {
                    let on = T::on_cross_trade;
                    on(handler, rec);
                },
                Message::BrokenTrade(rec) => {
                    let on = T::on_broken_trade;
                    on(handler, rec);
                },
                Message::NetOrderImbalanceIndicator(rec) => {
                    let on = T::on_net_order_imbalance_indicator;
                    on(handler, rec);
                },
                Message::RetailPriceImprovementIndicator(rec) => {
                    let on = T::on_retail_price_improvement_indicator;
                    on(handler, rec);
                },
                Message::EndOfSnapshot(rec) => {
                    let on = T::on_end_of_snapshot;
                    on(handler, rec);
                },
            }
            Ok(())
        },
    }
}

} // verus!
