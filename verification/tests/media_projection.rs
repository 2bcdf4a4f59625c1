use mirrox::media_projection::{create_media_projection_token, TokenAction, TokenEvent};

fn run(opened: Option<i32>, sent: bool, reply: Option<u32>) -> (Option<u32>, Vec<TokenAction>) {
    let mut actions = Vec::new();
    let mut action = create_media_projection_token(TokenEvent::Started);
    loop {
        actions.push(action);
        action = match action {
            TokenAction::OpenDevice => create_media_projection_token(TokenEvent::DeviceOpened { opened }),
            TokenAction::SendCreateProjection { fd, .. } => {
                create_media_projection_token(TokenEvent::ProjectionSent { fd, sent })
            }
            TokenAction::ReceiveReply { .. } => create_media_projection_token(TokenEvent::ReplyReceived { token: reply }),
            TokenAction::Finish(t) => return (t, actions),
        };
    }
}

#[test]
fn token_obtained() {
    let (t, actions) = run(Some(7), true, Some(0xABCD));
    assert_eq!(t, Some(0xABCD));
    assert_eq!(
        actions,
        vec![
            TokenAction::OpenDevice,
            TokenAction::SendCreateProjection { fd: 7, handle: 3 },
            TokenAction::ReceiveReply { fd: 7 },
            TokenAction::Finish(Some(0xABCD)),
        ]
    );
}

#[test]
fn no_device_no_token() {
    let (t, actions) = run(None, true, Some(1));
    assert_eq!(t, None);
    assert_eq!(actions.len(), 2);
}

#[test]
fn send_failure_no_token() {
    let (t, actions) = run(Some(3), false, Some(1));
    assert_eq!(t, None);
    assert_eq!(actions.len(), 3);
}

#[test]
fn reply_failure_no_token() {
    assert_eq!(run(Some(3), true, None).0, None);
}
