use belugasnooze::logging::{log_level, LogLevel};
use belugasnooze::thread_channel::{ChannelAction, ChannelMessage};
use belugasnooze::ws::message_handler::{
    frame_handling, on_text, FrameHandling, FrameKind, HandlerAction, MessageValues, ParsedMessage,
};
use belugasnooze::sql::ModelTimezone;
use belugasnooze::ws::{rainbow_at_connection, rainbow_on_connect, Response};

#[test]
fn handler_add_alarm_inserts_each_day() {
    let msg = MessageValues::Valid(ParsedMessage::AddAlarm { days: vec![0, 3, 6], hour: 6, minute: 15 });
    assert_eq!(
        on_text(msg, false),
        vec![
            HandlerAction::InsertAlarm { day: 0, hour: 6, minute: 15 },
            HandlerAction::InsertAlarm { day: 3, hour: 6, minute: 15 },
            HandlerAction::InsertAlarm { day: 6, hour: 6, minute: 15 },
            HandlerAction::RefreshAlarms,
            HandlerAction::RequestStatus,
        ]
    );
}

#[test]
fn handler_delete_requests() {
    assert_eq!(
        on_text(MessageValues::Valid(ParsedMessage::DeleteAll), true),
        vec![HandlerAction::DeleteAllAlarms, HandlerAction::RefreshAlarms, HandlerAction::RequestStatus]
    );
    assert_eq!(
        on_text(MessageValues::Valid(ParsedMessage::DeleteOne { alarm_id: 5 }), false),
        vec![
            HandlerAction::DeleteAlarm { alarm_id: 5 },
            HandlerAction::RemoveScheduledAlarm { alarm_id: 5 },
            HandlerAction::RequestStatus,
        ]
    );
}

#[test]
fn handler_led_status_reports_light() {
    assert_eq!(
        on_text(MessageValues::Valid(ParsedMessage::LedStatus), true),
        vec![HandlerAction::RespondLedStatus { status: true }]
    );
    assert_eq!(
        on_text(MessageValues::Valid(ParsedMessage::LedStatus), false),
        vec![HandlerAction::RespondLedStatus { status: false }]
    );
}

#[test]
fn handler_light_toggle() {
    assert_eq!(
        on_text(MessageValues::Valid(ParsedMessage::Light { status: true }), false),
        vec![
            HandlerAction::SetLight { on: true },
            HandlerAction::RespondLedStatus { status: true },
            HandlerAction::RunLight,
        ]
    );
    assert_eq!(on_text(MessageValues::Valid(ParsedMessage::Light { status: true }), true), vec![]);
    assert_eq!(
        on_text(MessageValues::Valid(ParsedMessage::Light { status: false }), true),
        vec![HandlerAction::SetLight { on: false }, HandlerAction::RespondLedStatus { status: false }]
    );
}

#[test]
fn handler_time_zone_restart_status_invalid() {
    assert_eq!(
        on_text(MessageValues::Valid(ParsedMessage::TimeZone { zone: String::from("Europe/Berlin") }), false),
        vec![
            HandlerAction::UpdateTimeZone { zone: String::from("Europe/Berlin") },
            HandlerAction::RefreshTimeZone,
            HandlerAction::RequestStatus,
        ]
    );
    assert_eq!(on_text(MessageValues::Valid(ParsedMessage::Restart), false), vec![HandlerAction::Restart]);
    assert_eq!(on_text(MessageValues::Valid(ParsedMessage::Status), false), vec![HandlerAction::RequestStatus]);
    assert_eq!(on_text(MessageValues::Invalid(String::from("bad json")), false), vec![]);
}

#[test]
fn channel_messages_to_actions() {
    assert!(matches!(
        ChannelMessage::LightOn.into_action(),
        ChannelAction::Send(Response::LedStatus { status: true }, None)
    ));
    assert!(matches!(
        ChannelMessage::LightOff.into_action(),
        ChannelAction::Send(Response::LedStatus { status: false }, None)
    ));
    assert!(matches!(ChannelMessage::Status.into_action(), ChannelAction::SendStatus { cache: Some(true) }));
    assert!(matches!(ChannelMessage::Close.into_action(), ChannelAction::Close));
    assert!(matches!(
        ChannelMessage::Response(Response::LedStatus { status: true }, Some(true)).into_action(),
        ChannelAction::Send(Response::LedStatus { status: true }, Some(true))
    ));
}

#[test]
fn frames_handled() {
    assert_eq!(frame_handling(FrameKind::Text), FrameHandling::HandleText);
    assert_eq!(frame_handling(FrameKind::Close), FrameHandling::HandleClose);
    for kind in [FrameKind::Binary, FrameKind::Ping, FrameKind::Pong, FrameKind::Other] {
        assert_eq!(frame_handling(kind), FrameHandling::Ignore);
    }
}

#[test]
fn log_levels() {
    assert_eq!(log_level(true, true), LogLevel::Trace);
    assert_eq!(log_level(true, false), LogLevel::Trace);
    assert_eq!(log_level(false, true), LogLevel::Debug);
    assert_eq!(log_level(false, false), LogLevel::Info);
}

#[test]
fn rainbow_greeting_hours() {
    assert!(!rainbow_on_connect(6));
    assert!(rainbow_on_connect(7));
    assert!(rainbow_on_connect(10));
    assert!(!rainbow_on_connect(11));
    assert!(!rainbow_on_connect(0));
}

#[test]
fn rainbow_greeting_at_local_hour() {
    let berlin = ModelTimezone {
        timezone_id: 1,
        zone_name: String::from("Europe/Berlin"),
        offset_hour: 1,
        offset_minute: 0,
        offset_second: 0,
    };
    // 2024-01-15 06:00 UTC is 07:00 in Berlin; 09:59:59 UTC is 10:59:59.
    assert!(rainbow_at_connection(1_705_298_400, &berlin));
    assert!(rainbow_at_connection(1_705_312_799, &berlin));
    assert!(!rainbow_at_connection(1_705_312_800, &berlin));
    assert!(!rainbow_at_connection(1_705_298_399, &berlin));
}
