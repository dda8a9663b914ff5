use secret_music_bot::voice_chat::{
    active_group_call, audio_stream, extract_answer_params, full_chat_request, join_group_call,
    volume_change, CallUpdate, CallUpdates, FullChatRequest, GroupCallRef, InputGroupCall,
    InputMode, PeerKind, VoiceError,
};

#[test]
fn stream_command_for_a_media_address() {
    let a = audio_stream("https://aac.saavncdn.com/x_320.mp4");
    assert_eq!(a.input, "ffmpeg -re -i \"https://aac.saavncdn.com/x_320.mp4\" -f s16le -ac 2 -ar 48000 -acodec pcm_s16le pipe:1");
    assert_eq!(a.input_mode, InputMode::Shell);
    assert_eq!((a.sample_rate, a.bits_per_sample, a.channel_count), (48000, 16, 2));
}

#[test]
fn answer_params_come_from_the_first_connection() {
    let updates = CallUpdates::Updates(vec![
        CallUpdate::Other,
        CallUpdate::GroupCallConnection { params: "{\"a\":1}".to_string() },
        CallUpdate::GroupCallConnection { params: "second".to_string() },
    ]);
    assert_eq!(extract_answer_params(&updates), Ok("{\"a\":1}".to_string()));
    let combined = CallUpdates::Combined(vec![CallUpdate::GroupCallConnection { params: "c".to_string() }]);
    assert_eq!(extract_answer_params(&combined), Ok("c".to_string()));
}

#[test]
fn answer_params_errors() {
    let none = CallUpdates::Updates(vec![CallUpdate::Other]);
    assert_eq!(extract_answer_params(&none), Err(VoiceError::NoGroupCallConnection));
    assert_eq!(extract_answer_params(&CallUpdates::Combined(Vec::new())), Err(VoiceError::NoGroupCallConnection));
    assert_eq!(extract_answer_params(&CallUpdates::Other), Err(VoiceError::UnexpectedUpdates));
}

#[test]
fn full_chat_request_by_peer() {
    assert_eq!(full_chat_request(-42, PeerKind::Chat), Ok(FullChatRequest::Chat { chat_id: -42 }));
    assert_eq!(
        full_chat_request(-100, PeerKind::Channel { channel_id: 7, access_hash: 9 }),
        Ok(FullChatRequest::Channel { channel_id: 7, access_hash: 9 })
    );
    assert_eq!(full_chat_request(5, PeerKind::Other), Err(VoiceError::UnsupportedPeer));
}

#[test]
fn active_call_by_reference() {
    let call = InputGroupCall { id: 1, access_hash: 2 };
    assert_eq!(active_group_call(Some(GroupCallRef::Call(call))), Ok(call));
    assert_eq!(active_group_call(Some(GroupCallRef::Slug("s".to_string()))), Err(VoiceError::SlugNotSupported));
    assert_eq!(active_group_call(None), Err(VoiceError::NoActiveCall));
}

#[test]
fn requests_and_messages() {
    let call = InputGroupCall { id: 1, access_hash: 2 };
    let join = join_group_call(call, "offer".to_string());
    assert_eq!(join.call, call);
    assert_eq!(join.params, "offer");
    assert_eq!(join.muted, Some(false));
    assert!(join.video_stopped.is_none() && join.invite_hash.is_none());
    let v = volume_change(call, 15000);
    assert_eq!(v.volume, Some(15000));
    assert!(v.muted.is_none() && v.raise_hand.is_none() && v.video_stopped.is_none());
    assert_eq!(VoiceError::UnsupportedPeer.message(), "Unsupported peer type");
    assert_eq!(VoiceError::SlugNotSupported.message(), "Group call slug not supported");
    assert_eq!(VoiceError::NoActiveCall.message(), "No active group call in this chat");
    assert_eq!(VoiceError::NoGroupCallConnection.message(), "No GroupCallConnection found");
    assert_eq!(VoiceError::UnexpectedUpdates.message(), "Unexpected updates type");
}
