use trade_relay::catalog::{
    decode, directory_scan_events, dispatch, event_label, DecodeError, MessageKind, SinkEvent,
};

fn kinds() -> Vec<MessageKind> {
    vec![
        MessageKind::Chart,
        MessageKind::AlgoChart,
        MessageKind::PositionStats,
        MessageKind::OrderList,
        MessageKind::Candle,
        MessageKind::Point,
        MessageKind::Advice,
        MessageKind::Order,
        MessageKind::OrderFilled,
        MessageKind::TotalPnl,
        MessageKind::TotalPnlRealized,
        MessageKind::TotalPnlUnrealized,
        MessageKind::PositionPnlRealized,
        MessageKind::PositionPnlRealizedList,
        MessageKind::PositionPnlUnrealized,
        MessageKind::OverallStats,
        MessageKind::OverallDayStats,
        MessageKind::PnlCalendar,
        MessageKind::PnlHour,
        MessageKind::Rectangle,
    ]
}

fn expected_event(kind: MessageKind) -> SinkEvent {
    match kind {
        MessageKind::Chart => SinkEvent::Chart,
        MessageKind::AlgoChart => SinkEvent::AlgoChart,
        MessageKind::PositionStats => SinkEvent::PositionStats,
        MessageKind::OrderList => SinkEvent::OrderList,
        MessageKind::Candle => SinkEvent::Candle,
        MessageKind::Point => SinkEvent::Point,
        MessageKind::Advice => SinkEvent::Advice,
        MessageKind::Order => SinkEvent::Order,
        MessageKind::OrderFilled => SinkEvent::OrderFilled,
        MessageKind::TotalPnl => SinkEvent::TotalPnl,
        MessageKind::TotalPnlRealized => SinkEvent::TotalPnlRealized,
        MessageKind::TotalPnlUnrealized => SinkEvent::TotalPnlUnrealized,
        MessageKind::PositionPnlRealized => SinkEvent::PositionPnlRealized,
        MessageKind::PositionPnlRealizedList => SinkEvent::PositionPnlRealizedList,
        MessageKind::PositionPnlUnrealized => SinkEvent::PositionPnlUnrealized,
        MessageKind::OverallStats => SinkEvent::OverallStats,
        MessageKind::OverallDayStats => SinkEvent::OverallDayStats,
        MessageKind::PnlCalendar => SinkEvent::PnlCalendar,
        MessageKind::PnlHour => SinkEvent::PnlHour,
        MessageKind::Rectangle => SinkEvent::Rectangle,
    }
}

#[test]
fn round_trip_every_kind_reaches_its_own_sink_method() {
    for kind in kinds() {
        let decoded = decode(kind, vec![1u8, 2, 3], true).unwrap();
        assert_eq!(decoded.kind, kind);
        assert_eq!(decoded.payload, vec![1u8, 2, 3]);
        let event = dispatch(&decoded);
        assert_eq!(event, expected_event(kind));
        for other in kinds() {
            if other != kind {
                assert_ne!(event, expected_event(other));
            }
        }
    }
}

#[test]
fn decode_reports_the_failing_kind() {
    let err = decode(MessageKind::Candle, vec![0u8], false).unwrap_err();
    assert_eq!(err, DecodeError { kind: MessageKind::Candle });
}

#[test]
fn event_labels_match_the_presentation_names() {
    assert_eq!(event_label(SinkEvent::Chart), "chart");
    assert_eq!(event_label(SinkEvent::Candle), "update_candle");
    assert_eq!(event_label(SinkEvent::AlgoChart), "algo_chart");
    assert_eq!(event_label(SinkEvent::Order), "order");
    assert_eq!(event_label(SinkEvent::OrderList), "order_list");
    assert_eq!(event_label(SinkEvent::OrderFilled), "order_filled");
    assert_eq!(event_label(SinkEvent::TotalPnl), "total_pnl");
    assert_eq!(event_label(SinkEvent::TotalPnlRealized), "total_pnl_realized");
    assert_eq!(event_label(SinkEvent::TotalPnlUnrealized), "total_pnl_unrealized");
    assert_eq!(event_label(SinkEvent::PositionPnlRealized), "pos_pnl_realized");
    assert_eq!(event_label(SinkEvent::PositionPnlRealizedList), "pos_pnl_realized_list");
    assert_eq!(event_label(SinkEvent::PositionPnlUnrealized), "pos_pnl_unrealized");
    assert_eq!(event_label(SinkEvent::PositionStats), "position_stats");
    assert_eq!(event_label(SinkEvent::OverallStats), "overall_stats");
    assert_eq!(event_label(SinkEvent::OverallDayStats), "overall_day_stats");
    assert_eq!(event_label(SinkEvent::PnlCalendar), "pnl_calendar");
    assert_eq!(event_label(SinkEvent::PnlHour), "pnl_hour");
    assert_eq!(event_label(SinkEvent::Point), "point");
    assert_eq!(event_label(SinkEvent::Advice), "advice");
    assert_eq!(event_label(SinkEvent::Rectangle), "rectangle");
    assert_eq!(event_label(SinkEvent::TopicListReady), "strategy_list");
    assert_eq!(event_label(SinkEvent::DirectoryScanResult), "open_log_successful");
    assert_eq!(event_label(SinkEvent::Loading), "loading");
}

#[test]
fn labels_are_pairwise_distinct() {
    let events = [
        SinkEvent::Chart,
        SinkEvent::AlgoChart,
        SinkEvent::PositionStats,
        SinkEvent::OrderList,
        SinkEvent::Candle,
        SinkEvent::Point,
        SinkEvent::Advice,
        SinkEvent::Order,
        SinkEvent::OrderFilled,
        SinkEvent::TotalPnl,
        SinkEvent::TotalPnlRealized,
        SinkEvent::TotalPnlUnrealized,
        SinkEvent::PositionPnlRealized,
        SinkEvent::PositionPnlRealizedList,
        SinkEvent::PositionPnlUnrealized,
        SinkEvent::OverallStats,
        SinkEvent::OverallDayStats,
        SinkEvent::PnlCalendar,
        SinkEvent::PnlHour,
        SinkEvent::Rectangle,
        SinkEvent::TopicListReady,
        SinkEvent::DirectoryScanResult,
        SinkEvent::Loading,
    ];
    for (i, a) in events.iter().enumerate() {
        for (j, b) in events.iter().enumerate() {
            if i != j {
                assert_ne!(event_label(*a), event_label(*b));
            }
        }
    }
}

#[test]
fn directory_scan_produces_list_and_scan_result() {
    let (first, second) = directory_scan_events();
    assert_eq!(first, SinkEvent::TopicListReady);
    assert_eq!(second, SinkEvent::DirectoryScanResult);
}
