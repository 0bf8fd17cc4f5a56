use crate::ws::Response;
use vstd::prelude::*;

verus! {

/// The messages passed between the websocket handlers, the alarm loop and the
/// websocket writer.
#[derive(Debug, Clone)]
pub enum ChannelMessage {
    LightOn,
    LightOff,
    Close,
    Status,
    Response(Response, Option<bool>),
}

/// What the websocket writer does with a channel message.
#[derive(Debug)]
pub enum ChannelAction {
    /// Send the response, with its cache flag, to the socket.
    Send(Response, Option<bool>),
    /// Gather the status of the Pi and send it with this cache flag.
    SendStatus { cache: Option<bool> },
    /// Close the socket.
    Close,
}

impl ChannelMessage {
    /// Handle an internal message, sent from the ws socket handler or the alarm scheduler:
    /// the light switching on or off is announced as the led status, the status is
    /// gathered and sent with the cache flag set, a response is sent as it is.
    pub fn into_action(self) -> (res: ChannelAction)
        ensures
            res == match self {
                ChannelMessage::LightOn => ChannelAction::Send(Response::LedStatus { status: true }, None),
                ChannelMessage::LightOff => ChannelAction::Send(Response::LedStatus { status: false }, None),
                ChannelMessage::Status => ChannelAction::SendStatus { cache: Some(true) },
                ChannelMessage::Close => ChannelAction::Close,
                ChannelMessage::Response(response, cache) => ChannelAction::Send(response, cache),
            },
    {
        match self {
            ChannelMessage::LightOn => ChannelAction::Send(Response::LedStatus { status: true }, None),
            ChannelMessage::LightOff => ChannelAction::Send(Response::LedStatus { status: false }, None),
            ChannelMessage::Status => ChannelAction::SendStatus { cache: Some(true) },
            ChannelMessage::Close => ChannelAction::Close,
            ChannelMessage::Response(response, cache) => ChannelAction::Send(response, cache),
        }
    }
}

} // verus!
