//! The message catalog: a closed enumeration of inbound message kinds,
//! the decode routine that tags raw payloads, and the dispatch routine
//! that picks the sink method for a decoded message.

use vstd::prelude::*;

verus! {

/// The closed set of message kinds the relay can subscribe to. Each kind
/// is a dispatch key: it selects the decode routine and the sink method.
/// Extending the catalog means adding a variant here and an arm to
/// `decode`, `dispatch` and `event_for` together; the match statements are
/// exhaustive, so a missing arm is a compile-time error.
#[derive(Clone, Copy, Debug, PartialEq, Eq, Structural)]
pub enum MessageKind {
    Chart,
    AlgoChart,
    PositionStats,
    OrderList,
    Candle,
    Point,
    Advice,
    Order,
    OrderFilled,
    TotalPnl,
    TotalPnlRealized,
    TotalPnlUnrealized,
    PositionPnlRealized,
    PositionPnlRealizedList,
    PositionPnlUnrealized,
    OverallStats,
    OverallDayStats,
    PnlCalendar,
    PnlHour,
    Rectangle,
}

/// A decoded message: the kind tag together with the raw payload. The
/// router never inspects the payload; the typed schema belongs to the
/// serialization layer outside this crate.
#[derive(Debug)]
pub struct TypedMessage {
    pub kind: MessageKind,
    pub payload: Vec<u8>,
}

/// A payload that did not match the schema of the kind it arrived under.
#[derive(Clone, Copy, Debug, PartialEq, Eq, Structural)]
pub struct DecodeError {
    pub kind: MessageKind,
}

/// The sink methods the relay can deliver to: one per message kind, plus
/// the control-plane notifications.
#[derive(Clone, Copy, Debug, PartialEq, Eq, Structural)]
pub enum SinkEvent {
    Chart,
    AlgoChart,
    PositionStats,
    OrderList,
    Candle,
    Point,
    Advice,
    Order,
    OrderFilled,
    TotalPnl,
    TotalPnlRealized,
    TotalPnlUnrealized,
    PositionPnlRealized,
    PositionPnlRealizedList,
    PositionPnlUnrealized,
    OverallStats,
    OverallDayStats,
    PnlCalendar,
    PnlHour,
    Rectangle,
    /// The summary notification emitted once a handover has installed its
    /// subscription set; distinct from individual message relays.
    TopicListReady,
    /// A directory scan finished and its result is ready for display.
    DirectoryScanResult,
    /// A long-running action has started and the presentation layer
    /// should show progress.
    Loading,
}

/// The sink method associated with a message kind.
pub open spec fn event_for(kind: MessageKind) -> SinkEvent {
    match kind {
        MessageKind::Chart => SinkEvent::Chart,
        MessageKind::AlgoChart => SinkEvent::AlgoChart,
        MessageKind::PositionStats => SinkEvent::PositionStats,
        MessageKind::OrderList => SinkEvent::OrderList,
        MessageKind::Candle => SinkEvent::Candle,
        MessageKind::Point => SinkEvent::Point,
        MessageKind::Advice => SinkEvent::Advice,
        MessageKind::Order => SinkEvent::Order,
        MessageKind::OrderFilled => SinkEvent::OrderFilled,
        MessageKind::TotalPnl => SinkEvent::TotalPnl,
        MessageKind::TotalPnlRealized => SinkEvent::TotalPnlRealized,
        MessageKind::TotalPnlUnrealized => SinkEvent::TotalPnlUnrealized,
        MessageKind::PositionPnlRealized => SinkEvent::PositionPnlRealized,
        MessageKind::PositionPnlRealizedList => SinkEvent::PositionPnlRealizedList,
        MessageKind::PositionPnlUnrealized => SinkEvent::PositionPnlUnrealized,
        MessageKind::OverallStats => SinkEvent::OverallStats,
        MessageKind::OverallDayStats => SinkEvent::OverallDayStats,
        MessageKind::PnlCalendar => SinkEvent::PnlCalendar,
        MessageKind::PnlHour => SinkEvent::PnlHour,
        MessageKind::Rectangle => SinkEvent::Rectangle,
    }
}

/// The kind whose messages a sink method displays, for the per-kind
/// methods; the control-plane notifications have no kind.
pub open spec fn kind_of_event(event: SinkEvent) -> Option<MessageKind> {
    match event {
        SinkEvent::Chart => Some(MessageKind::Chart),
        SinkEvent::AlgoChart => Some(MessageKind::AlgoChart),
        SinkEvent::PositionStats => Some(MessageKind::PositionStats),
        SinkEvent::OrderList => Some(MessageKind::OrderList),
        SinkEvent::Candle => Some(MessageKind::Candle),
        SinkEvent::Point => Some(MessageKind::Point),
        SinkEvent::Advice => Some(MessageKind::Advice),
        SinkEvent::Order => Some(MessageKind::Order),
        SinkEvent::OrderFilled => Some(MessageKind::OrderFilled),
        SinkEvent::TotalPnl => Some(MessageKind::TotalPnl),
        SinkEvent::TotalPnlRealized => Some(MessageKind::TotalPnlRealized),
        SinkEvent::TotalPnlUnrealized => Some(MessageKind::TotalPnlUnrealized),
        SinkEvent::PositionPnlRealized => Some(MessageKind::PositionPnlRealized),
        SinkEvent::PositionPnlRealizedList => Some(MessageKind::PositionPnlRealizedList),
        SinkEvent::PositionPnlUnrealized => Some(MessageKind::PositionPnlUnrealized),
        SinkEvent::OverallStats => Some(MessageKind::OverallStats),
        SinkEvent::OverallDayStats => Some(MessageKind::OverallDayStats),
        SinkEvent::PnlCalendar => Some(MessageKind::PnlCalendar),
        SinkEvent::PnlHour => Some(MessageKind::PnlHour),
        SinkEvent::Rectangle => Some(MessageKind::Rectangle),
        SinkEvent::TopicListReady => None,
        SinkEvent::DirectoryScanResult => None,
        SinkEvent::Loading => None,
    }
}

/// Law: each message kind has its own sink method — the catalog mapping
/// from kind to sink event is injective, so a dispatched message reaches
/// the method of its kind and of no other kind.
pub proof fn lemma_event_for_injective(k1: MessageKind, k2: MessageKind)
    ensures
        event_for(k1) == event_for(k2) ==> k1 == k2,
{
    assert(kind_of_event(event_for(k1)) == Some(k1));
    assert(kind_of_event(event_for(k2)) == Some(k2));
}

/// What `decode` returns: the payload tagged with its kind when the
/// schema check passed, and a decode error naming the kind otherwise.
pub open spec fn spec_decode(
    kind: MessageKind,
    payload: Vec<u8>,
    schema_ok: bool,
) -> Result<TypedMessage, DecodeError> {
    if schema_ok {
        Ok(TypedMessage { kind, payload })
    } else {
        Err(DecodeError { kind })
    }
}

/// Decode one inbound payload under a kind. The schema itself belongs to
/// the typed serialization layer outside this crate; its verdict is the
/// `schema_ok` argument, and this routine tags the payload or reports the
/// decode error for exactly that verdict.
pub fn decode(kind: MessageKind, payload: Vec<u8>, schema_ok: bool) -> (r: Result<
    TypedMessage,
    DecodeError,
>)
    ensures
        r == spec_decode(kind, payload, schema_ok),
        schema_ok ==> (r matches Ok(m) && m.kind == kind && m.payload@ == payload@),
        !schema_ok ==> (r matches Err(e) && e.kind == kind),
{
    if schema_ok {
        Ok(TypedMessage { kind, payload })
    } else {
        Err(DecodeError { kind })
    }
}

/// Dispatch a decoded message: pick the sink method of its kind. The
/// routine forwards the value and performs no logic of its own.
pub fn dispatch(message: &TypedMessage) -> (e: SinkEvent)
    ensures
        e == event_for(message.kind),
{
    match message.kind {
        MessageKind::Chart => SinkEvent::Chart,
        MessageKind::AlgoChart => SinkEvent::AlgoChart,
        MessageKind::PositionStats => SinkEvent::PositionStats,
        MessageKind::OrderList => SinkEvent::OrderList,
        MessageKind::Candle => SinkEvent::Candle,
        MessageKind::Point => SinkEvent::Point,
        MessageKind::Advice => SinkEvent::Advice,
        MessageKind::Order => SinkEvent::Order,
        MessageKind::OrderFilled => SinkEvent::OrderFilled,
        MessageKind::TotalPnl => SinkEvent::TotalPnl,
        MessageKind::TotalPnlRealized => SinkEvent::TotalPnlRealized,
        MessageKind::TotalPnlUnrealized => SinkEvent::TotalPnlUnrealized,
        MessageKind::PositionPnlRealized => SinkEvent::PositionPnlRealized,
        MessageKind::PositionPnlRealizedList => SinkEvent::PositionPnlRealizedList,
        MessageKind::PositionPnlUnrealized => SinkEvent::PositionPnlUnrealized,
        MessageKind::OverallStats => SinkEvent::OverallStats,
        MessageKind::OverallDayStats => SinkEvent::OverallDayStats,
        MessageKind::PnlCalendar => SinkEvent::PnlCalendar,
        MessageKind::PnlHour => SinkEvent::PnlHour,
        MessageKind::Rectangle => SinkEvent::Rectangle,
    }
}

/// The event name under which the unverified shell forwards a sink event
/// to the presentation layer.
pub open spec fn spec_event_label(event: SinkEvent) -> Seq<char> {
    match event {
        SinkEvent::Chart => "chart"@,
        SinkEvent::AlgoChart => "algo_chart"@,
        SinkEvent::PositionStats => "position_stats"@,
        SinkEvent::OrderList => "order_list"@,
        SinkEvent::Candle => "update_candle"@,
        SinkEvent::Point => "point"@,
        SinkEvent::Advice => "advice"@,
        SinkEvent::Order => "order"@,
        SinkEvent::OrderFilled => "order_filled"@,
        SinkEvent::TotalPnl => "total_pnl"@,
        SinkEvent::TotalPnlRealized => "total_pnl_realized"@,
        SinkEvent::TotalPnlUnrealized => "total_pnl_unrealized"@,
        SinkEvent::PositionPnlRealized => "pos_pnl_realized"@,
        SinkEvent::PositionPnlRealizedList => "pos_pnl_realized_list"@,
        SinkEvent::PositionPnlUnrealized => "pos_pnl_unrealized"@,
        SinkEvent::OverallStats => "overall_stats"@,
        SinkEvent::OverallDayStats => "overall_day_stats"@,
        SinkEvent::PnlCalendar => "pnl_calendar"@,
        SinkEvent::PnlHour => "pnl_hour"@,
        SinkEvent::Rectangle => "rectangle"@,
        SinkEvent::TopicListReady => "strategy_list"@,
        SinkEvent::DirectoryScanResult => "open_log_successful"@,
        SinkEvent::Loading => "loading"@,
    }
}

/// The event name of a sink event, for the unverified shell to emit under.
pub fn event_label(event: SinkEvent) -> (r: &'static str)
    ensures
        r@ == spec_event_label(event),
{
    match event {
        SinkEvent::Chart => "chart",
        SinkEvent::AlgoChart => "algo_chart",
        SinkEvent::PositionStats => "position_stats",
        SinkEvent::OrderList => "order_list",
        SinkEvent::Candle => "update_candle",
        SinkEvent::Point => "point",
        SinkEvent::Advice => "advice",
        SinkEvent::Order => "order",
        SinkEvent::OrderFilled => "order_filled",
        SinkEvent::TotalPnl => "total_pnl",
        SinkEvent::TotalPnlRealized => "total_pnl_realized",
        SinkEvent::TotalPnlUnrealized => "total_pnl_unrealized",
        SinkEvent::PositionPnlRealized => "pos_pnl_realized",
        SinkEvent::PositionPnlRealizedList => "pos_pnl_realized_list",
        SinkEvent::PositionPnlUnrealized => "pos_pnl_unrealized",
        SinkEvent::OverallStats => "overall_stats",
        SinkEvent::OverallDayStats => "overall_day_stats",
        SinkEvent::PnlCalendar => "pnl_calendar",
        SinkEvent::PnlHour => "pnl_hour",
        SinkEvent::Rectangle => "rectangle",
        SinkEvent::TopicListReady => "strategy_list",
        SinkEvent::DirectoryScanResult => "open_log_successful",
        SinkEvent::Loading => "loading",
    }
}

/// Law: decoding a payload under a kind and dispatching the result
/// delivers to the sink method of that kind, and to no other kind's
/// method.
pub proof fn lemma_dispatch_round_trip(kind: MessageKind, payload: Vec<u8>, other: MessageKind)
    requires
        other != kind,
    ensures
        spec_decode(kind, payload, true) matches Ok(m) && event_for(m.kind) == event_for(kind),
        spec_decode(kind, payload, true) matches Ok(m) && event_for(m.kind) != event_for(other),
{
    lemma_event_for_injective(kind, other);
}

/// The two sink notifications a finished directory scan produces: the
/// refreshed strategy list and the scan result itself.
pub fn directory_scan_events() -> (r: (SinkEvent, SinkEvent))
    ensures
        r.0 == SinkEvent::TopicListReady,
        r.1 == SinkEvent::DirectoryScanResult,
{
    (SinkEvent::TopicListReady, SinkEvent::DirectoryScanResult)
}

} // verus!
