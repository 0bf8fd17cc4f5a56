use vstd::prelude::*;

verus! {

/// A request from a client, as parsed from its JSON text.
#[derive(Debug)]
pub enum ParsedMessage {
    /// Add an alarm at `hour:minute` on each of the week days `days` (0 is Monday).
    AddAlarm { days: Vec<u8>, hour: u8, minute: u8 },
    DeleteAll,
    DeleteOne { alarm_id: i64 },
    LedStatus,
    Light { status: bool },
    Restart,
    Status,
    TimeZone { zone: String },
}

/// The outcome of parsing a client's text message.
#[derive(Debug)]
pub enum MessageValues {
    Valid(ParsedMessage),
    Invalid(String),
}

/// One step of handling a client's request, in the order the handler takes them.
#[derive(Debug, PartialEq, Eq)]
pub enum HandlerAction {
    /// Insert an alarm into the database.
    InsertAlarm { day: u8, hour: u8, minute: u8 },
    /// Delete every alarm from the database.
    DeleteAllAlarms,
    /// Delete the alarm with this id from the database.
    DeleteAlarm { alarm_id: i64 },
    /// Reload the alarm schedule's alarms and time zone from the database.
    RefreshAlarms,
    /// Remove the alarm with this id from the alarm schedule.
    RemoveScheduledAlarm { alarm_id: i64 },
    /// Store the named time zone, with its current offset, in the database.
    UpdateTimeZone { zone: String },
    /// Reload the alarm schedule's time zone from the database.
    RefreshTimeZone,
    /// Set the light status.
    SetLight { on: bool },
    /// Send the led status to the clients.
    RespondLedStatus { status: bool },
    /// Ask for the full status to be sent to the clients.
    RequestStatus,
    /// Keep the light on until its status goes off or its limit passes.
    RunLight,
    /// Exit the process, to be restarted.
    Restart,
}

/// The steps of turning the light on or off, from the requested and the current
/// light status: switching on an off light sets the status, announces it and runs
/// the light; switching off sets the status off and announces it; switching on a
/// light that is already on does nothing.
pub open spec fn toggle_light_actions(new_status: bool, light_on: bool) -> Seq<HandlerAction> {
    if new_status && !light_on {
        seq![
            HandlerAction::SetLight { on: true },
            HandlerAction::RespondLedStatus { status: true },
            HandlerAction::RunLight,
        ]
    } else if !new_status {
        seq![HandlerAction::SetLight { on: false }, HandlerAction::RespondLedStatus { status: false }]
    } else {
        Seq::empty()
    }
}

/// The insertion of one alarm per week day of `days`, at `hour:minute`.
pub open spec fn insert_alarm_actions(days: Seq<u8>, hour: u8, minute: u8) -> Seq<HandlerAction> {
    days.map_values(|day: u8| HandlerAction::InsertAlarm { day, hour, minute })
}

/// The steps of handling `message` while the light status is `light_on`.
pub open spec fn message_actions(message: MessageValues, light_on: bool) -> Seq<HandlerAction> {
    match message {
        MessageValues::Invalid(_) => Seq::empty(),
        MessageValues::Valid(parsed) => match parsed {
            ParsedMessage::DeleteAll => seq![
                HandlerAction::DeleteAllAlarms,
                HandlerAction::RefreshAlarms,
                HandlerAction::RequestStatus,
            ],
            ParsedMessage::DeleteOne { alarm_id } => seq![
                HandlerAction::DeleteAlarm { alarm_id },
                HandlerAction::RemoveScheduledAlarm { alarm_id },
                HandlerAction::RequestStatus,
            ],
            ParsedMessage::LedStatus => seq![HandlerAction::RespondLedStatus { status: light_on }],
            ParsedMessage::Restart => seq![HandlerAction::Restart],
            ParsedMessage::TimeZone { zone } => seq![
                HandlerAction::UpdateTimeZone { zone },
                HandlerAction::RefreshTimeZone,
                HandlerAction::RequestStatus,
            ],
            ParsedMessage::AddAlarm { days, hour, minute } => insert_alarm_actions(days@, hour, minute)
                + seq![HandlerAction::RefreshAlarms, HandlerAction::RequestStatus],
            ParsedMessage::Light { status } => toggle_light_actions(status, light_on),
            ParsedMessage::Status => seq![HandlerAction::RequestStatus],
        },
    }
}

/// Every request that changes the alarms or the time zone ends by asking for the
/// status to be sent, so that the clients see the change; an alarm request inserts
/// one alarm per requested day, in the order of the days.
pub proof fn lemma_changes_are_announced(parsed: ParsedMessage, light_on: bool)
    requires
        parsed is AddAlarm || parsed is DeleteAll || parsed is DeleteOne || parsed is TimeZone,
    ensures
        ({
            let actions = message_actions(MessageValues::Valid(parsed), light_on);
            &&& actions.len() > 0
            &&& actions.last() == HandlerAction::RequestStatus
        }),
        parsed matches ParsedMessage::AddAlarm { days, hour, minute } ==> {
            let actions = message_actions(MessageValues::Valid(parsed), light_on);
            &&& actions.len() == days@.len() + 2
            &&& forall|i: int|
                0 <= i < days@.len() ==> #[trigger] actions[i] == HandlerAction::InsertAlarm {
                    day: days@[i],
                    hour,
                    minute,
                }
        },
{
}

/// A light request leaves the announced led status equal to the requested one, and
/// runs the light only when it switches an off light on.
pub proof fn lemma_light_request_announces_status(new_status: bool, light_on: bool)
    ensures
        ({
            let actions = toggle_light_actions(new_status, light_on);
            &&& (new_status && light_on) <==> actions.len() == 0
            &&& actions.len() > 0 ==> actions[0] == HandlerAction::SetLight { on: new_status }
                && actions[1] == HandlerAction::RespondLedStatus { status: new_status }
            &&& actions.contains(HandlerAction::RunLight) <==> (new_status && !light_on)
        }),
{
    let actions = toggle_light_actions(new_status, light_on);
    if new_status && !light_on {
        assert(actions[2] == HandlerAction::RunLight);
    }
}

/// Every light status that a light request sets or announces is the requested one,
/// so the clients are last told the status they asked for; switching the light off
/// takes exactly two steps, setting it off and announcing it off, whatever the light
/// was; switching an off light on takes three, and switching on a light that is
/// already on takes none.
pub proof fn lemma_light_request_sets_only_requested_status(new_status: bool, light_on: bool)
    ensures
        ({
            let actions = toggle_light_actions(new_status, light_on);
            &&& forall|i: int|
                0 <= i < actions.len() ==> match #[trigger] actions[i] {
                    HandlerAction::SetLight { on } => on == new_status,
                    HandlerAction::RespondLedStatus { status } => status == new_status,
                    HandlerAction::RunLight => new_status,
                    _ => false,
                }
            &&& !new_status ==> actions.len() == 2 && actions[0] == HandlerAction::SetLight { on: false }
                && actions[1] == HandlerAction::RespondLedStatus { status: false }
            &&& new_status && !light_on ==> actions.len() == 3
            &&& new_status && light_on ==> actions.len() == 0
            &&& actions.len() > 0 ==> actions.last() == HandlerAction::RespondLedStatus {
                status: new_status,
            } || actions.last() == HandlerAction::RunLight
        }),
{
}

/// Only the led-status and light requests look at the light status: every other
/// request takes the same steps whether the light is on or off, and an invalid
/// message takes none.
pub proof fn lemma_only_light_requests_read_the_light(message: MessageValues)
    requires
        !(message matches MessageValues::Valid(ParsedMessage::LedStatus)),
        !(message matches MessageValues::Valid(ParsedMessage::Light { .. })),
    ensures
        message_actions(message, true) == message_actions(message, false),
        message is Invalid ==> message_actions(message, true).len() == 0,
{
}

/// The kind of a websocket frame.
#[derive(Debug, Clone, Copy, PartialEq, Eq)]
pub enum FrameKind {
    Text,
    Binary,
    Ping,
    Pong,
    Close,
    Other,
}

/// What the handler does with a websocket frame.
#[derive(Debug, Clone, Copy, PartialEq, Eq)]
pub enum FrameHandling {
    /// Parse the text and handle the request.
    HandleText,
    /// Log the closing and tell the writer to close.
    HandleClose,
    /// Nothing.
    Ignore,
}

/// Only text and close frames are handled; the others are ignored.
pub fn frame_handling(kind: FrameKind) -> (res: FrameHandling)
    ensures
        res == match kind {
            FrameKind::Text => FrameHandling::HandleText,
            FrameKind::Close => FrameHandling::HandleClose,
            _ => FrameHandling::Ignore,
        },
{
    match kind {
        FrameKind::Text => FrameHandling::HandleText,
        FrameKind::Close => FrameHandling::HandleClose,
        _ => FrameHandling::Ignore,
    }
}

/// turn light either on or off
pub fn toggle_light(new_status: bool, light_on: bool) -> (res: Vec<HandlerAction>)
    ensures
        res@ == toggle_light_actions(new_status, light_on),
{
    let mut actions: Vec<HandlerAction> = Vec::new();
    if new_status && !light_on {
        actions.push(HandlerAction::SetLight { on: true });
        actions.push(HandlerAction::RespondLedStatus { status: true });
        actions.push(HandlerAction::RunLight);
    } else if !new_status {
        actions.push(HandlerAction::SetLight { on: false });
        actions.push(HandlerAction::RespondLedStatus { status: false });
    }
    actions
}

/// Add a new alarm to the database for each day, then update the alarm schedule and
/// send the status.
pub fn add_alarm(days: Vec<u8>, hour: u8, minute: u8) -> (res: Vec<HandlerAction>)
    ensures
        res@ == insert_alarm_actions(days@, hour, minute) + seq![
            HandlerAction::RefreshAlarms,
            HandlerAction::RequestStatus,
        ],
{
    let mut actions: Vec<HandlerAction> = Vec::new();
    let len = days.len();
    let mut i: usize = 0;
    while i < len
        invariant
            len == days@.len(),
            i <= len,
            actions@ == insert_alarm_actions(days@.take(i as int), hour, minute),
        decreases len - i,
    {
        actions.push(HandlerAction::InsertAlarm { day: days[i], hour, minute });
        assert(days@.take(i + 1) == days@.take(i as int).push(days@[i as int]));
        assert(insert_alarm_actions(days@.take(i + 1), hour, minute) == insert_alarm_actions(
            days@.take(i as int),
            hour,
            minute,
        ).push(HandlerAction::InsertAlarm { day: days@[i as int], hour, minute }));
        i = i + 1;
    }
    assert(days@.take(len as int) == days@);
    actions.push(HandlerAction::RefreshAlarms);
    actions.push(HandlerAction::RequestStatus);
    actions
}

/// Handle text message, in this program they will all be json text: the steps that
/// the request takes while the light status is `light_on`. An invalid message is
/// only logged.
pub fn on_text(message: MessageValues, light_on: bool) -> (res: Vec<HandlerAction>)
    ensures
        res@ == message_actions(message, light_on),
{
    match message {
        MessageValues::Invalid(_) => Vec::new(),
        MessageValues::Valid(parsed) => match parsed {
            ParsedMessage::DeleteAll => {
                let mut actions: Vec<HandlerAction> = Vec::new();
                actions.push(HandlerAction::DeleteAllAlarms);
                actions.push(HandlerAction::RefreshAlarms);
                actions.push(HandlerAction::RequestStatus);
                actions
            },
            ParsedMessage::DeleteOne { alarm_id } => {
                let mut actions: Vec<HandlerAction> = Vec::new();
                actions.push(HandlerAction::DeleteAlarm { alarm_id });
                actions.push(HandlerAction::RemoveScheduledAlarm { alarm_id });
                actions.push(HandlerAction::RequestStatus);
                actions
            },
            ParsedMessage::LedStatus => {
                let mut actions: Vec<HandlerAction> = Vec::new();
                actions.push(HandlerAction::RespondLedStatus { status: light_on });
                actions
            },
            ParsedMessage::Restart => {
                let mut actions: Vec<HandlerAction> = Vec::new();
                actions.push(HandlerAction::Restart);
                actions
            },
            ParsedMessage::TimeZone { zone } => {
                let mut actions: Vec<HandlerAction> = Vec::new();
                actions.push(HandlerAction::UpdateTimeZone { zone });
                actions.push(HandlerAction::RefreshTimeZone);
                actions.push(HandlerAction::RequestStatus);
                actions
            },
            ParsedMessage::AddAlarm { days, hour, minute } => add_alarm(days, hour, minute),
            ParsedMessage::Light { status } => toggle_light(status, light_on),
            ParsedMessage::Status => {
                let mut actions: Vec<HandlerAction> = Vec::new();
                actions.push(HandlerAction::RequestStatus);
                actions
            },
        },
    }
}

} // verus!
