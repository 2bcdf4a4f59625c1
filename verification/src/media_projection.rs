//! Obtaining a media projection token: open the binder device, send the
//! `createProjection` call to the manager, read the token from the reply.
//! The device work is done by the caller; this module decides each step.

use vstd::prelude::*;

verus! {

/// The well-known handle of the media projection manager.
pub const MEDIA_PROJECTION_MANAGER_HANDLE: u32 = 3;

/// What the caller reports back.
pub enum TokenEvent {
    /// Nothing has been done yet.
    Started,
    /// Opening the binder device gave this descriptor, or failed.
    DeviceOpened { opened: Option<i32> },
    /// Sending the call on `fd` succeeded or failed.
    ProjectionSent { fd: i32, sent: bool },
    /// Reading the reply gave this token, or failed.
    ReplyReceived { token: Option<u32> },
}

/// What the caller does next.
#[derive(PartialEq, Eq, Structural, Debug, Clone, Copy)]
pub enum TokenAction {
    /// Open the binder device.
    OpenDevice,
    /// Send `createProjection` to `handle` on `fd`.
    SendCreateProjection { fd: i32, handle: u32 },
    /// Read the driver's reply on `fd`.
    ReceiveReply { fd: i32 },
    /// Stop with this token, or with none.
    Finish(Option<u32>),
}

/// The step that follows `event`.
pub open spec fn token_step(event: TokenEvent) -> TokenAction {
    match event {
        TokenEvent::Started => TokenAction::OpenDevice,
        TokenEvent::DeviceOpened { opened } => match opened {
            Some(fd) => TokenAction::SendCreateProjection {
                fd,
                handle: MEDIA_PROJECTION_MANAGER_HANDLE,
            },
            None => TokenAction::Finish(None),
        },
        TokenEvent::ProjectionSent { fd, sent } => if sent {
            TokenAction::ReceiveReply { fd }
        } else {
            TokenAction::Finish(None)
        },
        TokenEvent::ReplyReceived { token } => TokenAction::Finish(token),
    }
}

/// Decides the next step of obtaining a media projection token: open the
/// device first; without a device there is no token; with one, send the
/// call to the manager's well-known handle; if that fails there is no
/// token; otherwise read the reply, whose token (if any) is the result.
pub fn create_media_projection_token(event: TokenEvent) -> (r: TokenAction)
    ensures
        r == token_step(event),
{
    match event {
        TokenEvent::Started => TokenAction::OpenDevice,
        TokenEvent::DeviceOpened { opened } => match opened {
            Some(fd) => TokenAction::SendCreateProjection {
                fd,
                handle: MEDIA_PROJECTION_MANAGER_HANDLE,
            },
            None => TokenAction::Finish(None),
        },
        TokenEvent::ProjectionSent { fd, sent } => {
            if sent {
                TokenAction::ReceiveReply { fd }
            } else {
                TokenAction::Finish(None)
            }
        },
        TokenEvent::ReplyReceived { token } => TokenAction::Finish(token),
    }
}

/// The outcome of driving the steps with these device results: whether
/// the device opened (and as which descriptor), whether the call was sent,
/// and what the reply held.
pub open spec fn token_run(opened: Option<i32>, sent: bool, reply: Option<u32>) -> Option<u32> {
    match token_step(TokenEvent::DeviceOpened { opened }) {
        TokenAction::Finish(t) => t,
        TokenAction::SendCreateProjection { fd, handle } => match token_step(
            TokenEvent::ProjectionSent { fd, sent },
        ) {
            TokenAction::Finish(t) => t,
            TokenAction::ReceiveReply { fd } => match token_step(
                TokenEvent::ReplyReceived { token: reply },
            ) {
                TokenAction::Finish(t) => t,
                _ => None,
            },
            _ => None,
        },
        _ => None,
    }
}

/// A token is obtained exactly when the device opened, the call was sent
/// and the reply held one, and it is the reply's token; the call always
/// goes to the manager's well-known handle, 3, on the opened descriptor, and
/// the reply is read on that same descriptor.
pub proof fn lemma_token_run(opened: Option<i32>, sent: bool, reply: Option<u32>)
    ensures
        token_step(TokenEvent::Started) == TokenAction::OpenDevice,
        token_run(opened, sent, reply) == (if opened is Some && sent {
            reply
        } else {
            None
        }),
        opened matches Some(fd) ==> token_step(TokenEvent::DeviceOpened { opened })
            == (TokenAction::SendCreateProjection { fd, handle: 3 }),
        opened matches Some(fd) ==> (sent ==> token_step(TokenEvent::ProjectionSent { fd, sent })
            == (TokenAction::ReceiveReply { fd })),
{
}

} // verus!
