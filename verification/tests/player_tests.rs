use secret_music_bot::jiosaavn::Song;
use secret_music_bot::player::{Advance, ChatState, PlayStep};
use tokio_util::sync::CancellationToken;

fn song(id: &str) -> Song {
    Song {
        id: id.to_string(),
        title: format!("title {id}"),
        artists: "A".to_string(),
        album: "B".to_string(),
        duration: 10,
        thumbnail: String::new(),
        media_url: format!("https://m/{id}"),
    }
}

fn next_id(a: &Advance) -> Option<String> {
    match a {
        Advance::Next(s) => Some(s.id.clone()),
        _ => None,
    }
}

#[test]
fn first_request_starts_by_joining() {
    let (state, step) = ChatState::new().play(song("a"));
    assert_eq!(step, PlayStep::Start { change_stream: false });
    assert_eq!(state.current.as_ref().map(|s| s.id.as_str()), Some("a"));
    assert!(state.queue.is_none());
}

#[test]
fn requests_while_playing_are_played_in_order() {
    let (state, _) = ChatState::new().play(song("a"));
    let state = state.joined().monitor_armed(CancellationToken::new());
    let (state, s1) = state.play(song("b"));
    let (state, s2) = state.play(song("c"));
    assert_eq!((s1, s2), (PlayStep::Queued, PlayStep::Queued));
    let (state, adv) = state.track_finished();
    assert_eq!(next_id(&adv), Some("b".to_string()));
    let state = match adv {
        Advance::Next(s) => state.start_next(s),
        _ => unreachable!(),
    };
    let (state, adv) = state.track_finished();
    assert_eq!(next_id(&adv), Some("c".to_string()));
    let state = match adv {
        Advance::Next(s) => state.start_next(s),
        _ => unreachable!(),
    };
    let (state, adv) = state.track_finished();
    assert!(matches!(adv, Advance::QueueEmpty));
    assert!(state.is_idle());
}

#[test]
fn joined_chat_switches_stream() {
    let (state, _) = ChatState::new().play(song("a"));
    let state = state.joined();
    let (state, adv) = state.track_finished();
    assert!(matches!(adv, Advance::NoQueue));
    assert!(!state.connected);
    let state = ChatState::new().joined();
    let (_, step) = state.play(song("b"));
    assert_eq!(step, PlayStep::Start { change_stream: true });
}

#[test]
fn failed_start_is_undone() {
    let (state, _) = ChatState::new().play(song("a"));
    let state = state.start_failed();
    assert!(state.current.is_none());
    assert!(state.is_idle());
}

#[test]
fn skip_cancels_the_monitor_and_moves_on() {
    let (state, _) = ChatState::new().play(song("a"));
    let state = state.joined().monitor_armed(CancellationToken::new());
    let (state, _) = state.play(song("b"));
    let (state, cancel, adv) = state.skip();
    assert!(cancel.is_some());
    assert_eq!(next_id(&adv), Some("b".to_string()));
    assert!(state.current.is_none());
    assert!(state.monitor.is_none());
    assert!(state.connected);
    assert_eq!(state.queue.as_ref().map(|q| q.len()), Some(0));
    let (state, cancel, adv) = state.skip();
    assert!(cancel.is_none());
    assert!(matches!(adv, Advance::QueueEmpty));
    assert!(state.is_idle());
    let (_, _, adv) = state.skip();
    assert!(matches!(adv, Advance::NoQueue));
}

#[test]
fn stop_clears_everything() {
    let (state, _) = ChatState::new().play(song("a"));
    let (state, _) = state.joined().monitor_armed(CancellationToken::new()).play(song("b"));
    let (state, cancel) = state.stop();
    assert!(cancel.is_some());
    assert!(state.is_idle());
}

#[test]
fn cancelled_monitor_lets_go() {
    let token = CancellationToken::new();
    let state = ChatState::new().monitor_armed(token.clone());
    assert!(state.monitor.is_some());
    assert!(!state.is_idle());
    assert!(state.monitor_cancelled().monitor.is_none());
}

#[test]
fn skip_and_track_end_agree() {
    let build = || {
        let (state, _) = ChatState::new().play(song("a"));
        let (state, _) = state.joined().monitor_armed(CancellationToken::new()).play(song("b"));
        state
    };
    let (after_skip, cancel, skip_adv) = build().skip();
    let (after_end, end_adv) = build().track_finished();
    assert!(cancel.is_some());
    assert_eq!(next_id(&skip_adv), next_id(&end_adv));
    assert_eq!(after_skip.connected, after_end.connected);
    assert_eq!(after_skip.monitor.is_some(), after_end.monitor.is_some());
    assert_eq!(after_skip.current.is_none(), after_end.current.is_none());
    assert_eq!(
        after_skip.queue.as_ref().map(|q| q.len()),
        after_end.queue.as_ref().map(|q| q.len())
    );
}

#[test]
fn started_marks_joined_only_after_a_join() {
    let (state, _) = ChatState::new().play(song("a"));
    assert!(state.started(false).connected);
    let (state, _) = ChatState::new().play(song("a"));
    assert!(!state.started(true).connected);
}

#[test]
fn skip_hands_back_the_armed_token() {
    let token = CancellationToken::new();
    let (state, _) = ChatState::new().play(song("a"));
    let state = state.joined().monitor_armed(token.clone());
    let (_, cancel, _) = state.skip();
    let handed = cancel.expect("armed token");
    handed.cancel();
    assert!(token.is_cancelled());
}
