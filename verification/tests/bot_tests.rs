use secret_music_bot::bot::{
    auto_playing_reply, first_song, help_reply, no_results_reply, nowplaying_reply, pause_reply,
    play_log_text, play_query, play_usage_reply, playing_reply, queue_entries, queue_reply,
    queued_reply, requester_tag, resume_reply, search_failed_reply, skip_reply, start_failure_reply,
    stop_reply, volume_command, volume_rejection_reply, volume_result_reply, VolumeCommand,
};
use secret_music_bot::jiosaavn::Song;
use secret_music_bot::player::{Advance, ChatState};

fn song(id: &str, title: &str) -> Song {
    Song {
        id: id.to_string(),
        title: title.to_string(),
        artists: "Arijit Singh".to_string(),
        album: "Aashiqui 2".to_string(),
        duration: 262,
        thumbnail: String::new(),
        media_url: String::new(),
    }
}

#[test]
fn play_query_takes_the_trimmed_rest() {
    assert_eq!(play_query("/play  tum hi ho  "), Some("tum hi ho".to_string()));
    assert_eq!(play_query("/play@SecretMusicBot kesariya"), Some("kesariya".to_string()));
    assert_eq!(play_query("/play"), None);
    assert_eq!(play_query("/play    "), None);
    assert_eq!(play_query("/play\tsong"), None);
}

#[test]
fn volume_command_accepts_one_to_two_hundred() {
    assert_eq!(volume_command("/volume 150"), VolumeCommand::SetTo { volume: 150, telegram_volume: 15000 });
    assert_eq!(volume_command("/volume  1 "), VolumeCommand::SetTo { volume: 1, telegram_volume: 100 });
    assert_eq!(volume_command("/volume 200"), VolumeCommand::SetTo { volume: 200, telegram_volume: 20000 });
    assert_eq!(volume_command("/volume 0"), VolumeCommand::OutOfRange);
    assert_eq!(volume_command("/volume 201"), VolumeCommand::OutOfRange);
    assert_eq!(volume_command("/volume -5"), VolumeCommand::OutOfRange);
    assert_eq!(volume_command("/volume loud"), VolumeCommand::Usage);
    assert_eq!(volume_command("/volume"), VolumeCommand::Usage);
    assert_eq!(volume_command(""), VolumeCommand::Usage);
    assert_eq!(volume_command("/volume 99999999999"), VolumeCommand::Usage);
}

#[test]
fn volume_replies() {
    assert_eq!(volume_rejection_reply(VolumeCommand::OutOfRange), Some("\u{274c} \u{1d415}\u{1d428}\u{1d425}\u{1d42e}\u{1d426}\u{1d41e} \u{1d426}\u{1d42e}\u{1d42c}\u{1d42d} \u{1d41b}\u{1d41e} \u{1d41b}\u{1d41e}\u{1d42d}\u{1d430}\u{1d41e}\u{1d41e}\u{1d427} \u{1d7cf} \u{1d41a}\u{1d427}\u{1d41d} \u{1d7d0}\u{1d7ce}\u{1d7ce}.".to_string()));
    assert_eq!(volume_rejection_reply(VolumeCommand::Usage), Some("\u{274c} \u{1d414}\u{1d42c}\u{1d41a}\u{1d420}\u{1d41e}: /\u{1d42f}\u{1d428}\u{1d425}\u{1d42e}\u{1d426}\u{1d41e} <\u{1d7cf}-\u{1d7d0}\u{1d7ce}\u{1d7ce}>".to_string()));
    assert_eq!(volume_rejection_reply(VolumeCommand::SetTo { volume: 5, telegram_volume: 500 }), None);
    assert_eq!(volume_result_reply(150, true), "\u{2705} \u{1d415}\u{1d428}\u{1d425}\u{1d42e}\u{1d426}\u{1d41e} \u{1d42c}\u{1d41e}\u{1d42d} \u{1d42d}\u{1d428} \u{1d7cf}\u{1d7d3}\u{1d7ce}.");
    assert_eq!(volume_result_reply(150, false), "\u{274c} \u{1d405}\u{1d41a}\u{1d422}\u{1d425}\u{1d41e}\u{1d41d} \u{1d42d}\u{1d428} \u{1d42c}\u{1d41e}\u{1d42d} \u{1d42f}\u{1d428}\u{1d425}\u{1d42e}\u{1d426}\u{1d41e}.");
}

#[test]
fn fixed_replies() {
    assert_eq!(play_usage_reply(), "\u{274c} \u{1d40f}\u{1d425}\u{1d41e}\u{1d41a}\u{1d42c}\u{1d41e} \u{1d429}\u{1d42b}\u{1d428}\u{1d42f}\u{1d422}\u{1d41d}\u{1d41e} \u{1d41a} \u{1d42c}\u{1d428}\u{1d427}\u{1d420} \u{1d427}\u{1d41a}\u{1d426}\u{1d41e}");
    assert_eq!(search_failed_reply(), "\u{274c} \u{1d405}\u{1d41a}\u{1d422}\u{1d425}\u{1d41e}\u{1d41d} \u{1d42d}\u{1d428} \u{1d42c}\u{1d41e}\u{1d41a}\u{1d42b}\u{1d41c}\u{1d421} \u{1d42c}\u{1d428}\u{1d427}\u{1d420}");
    assert_eq!(no_results_reply(), "\u{274c} \u{1d40d}\u{1d428} \u{1d42b}\u{1d41e}\u{1d42c}\u{1d42e}\u{1d425}\u{1d42d}\u{1d42c} \u{1d41f}\u{1d428}\u{1d42e}\u{1d427}\u{1d41d}");
    assert_eq!(stop_reply(), "\u{2705} \u{1d412}\u{1d42d}\u{1d428}\u{1d429}\u{1d429}\u{1d41e}\u{1d41d} \u{1d41a}\u{1d427}\u{1d41d} \u{1d425}\u{1d41e}\u{1d41f}\u{1d42d} \u{1d42f}\u{1d428}\u{1d422}\u{1d41c}\u{1d41e} \u{1d41c}\u{1d421}\u{1d41a}\u{1d42d}.");
    assert_eq!(pause_reply(true), "\u{2705} \u{1d40f}\u{1d41a}\u{1d42e}\u{1d42c}\u{1d41e}\u{1d41d}.");
    assert_eq!(pause_reply(false), "\u{274c} \u{1d40d}\u{1d428}\u{1d42d} \u{1d429}\u{1d425}\u{1d41a}\u{1d432}\u{1d422}\u{1d427}\u{1d420}.");
    assert_eq!(resume_reply(true), "\u{2705} \u{1d411}\u{1d41e}\u{1d42c}\u{1d42e}\u{1d426}\u{1d41e}\u{1d41d}.");
    assert_eq!(resume_reply(false), "\u{274c} \u{1d40d}\u{1d428}\u{1d42d} \u{1d429}\u{1d41a}\u{1d42e}\u{1d42c}\u{1d41e}\u{1d41d}.");
    assert_eq!(start_failure_reply(true), "\u{274c} \u{1d405}\u{1d41a}\u{1d422}\u{1d425}\u{1d41e}\u{1d41d} \u{1d42d}\u{1d428} \u{1d429}\u{1d425}\u{1d41a}\u{1d432} \u{1d42c}\u{1d428}\u{1d427}\u{1d420}.");
    assert_eq!(start_failure_reply(false), "\u{274c} \u{1d405}\u{1d41a}\u{1d422}\u{1d425}\u{1d41e}\u{1d41d} \u{1d42d}\u{1d428} \u{1d423}\u{1d428}\u{1d422}\u{1d427} \u{1d42f}\u{1d428}\u{1d422}\u{1d41c}\u{1d41e} \u{1d41c}\u{1d421}\u{1d41a}\u{1d42d}. \u{1d408}\u{1d42c} \u{1d42d}\u{1d421}\u{1d41e}\u{1d42b}\u{1d41e} \u{1d41a}\u{1d427} \u{1d41a}\u{1d41c}\u{1d42d}\u{1d422}\u{1d42f}\u{1d41e} \u{1d415}\u{1d402}?");
    assert_eq!(help_reply(), "\u{1f3b5} \u{1d412}\u{1d41e}\u{1d41c}\u{1d42b}\u{1d41e}\u{1d42d}\u{1d40c}\u{1d42e}\u{1d42c}\u{1d422}\u{1d41c}\u{1d401}\u{1d428}\u{1d42d}\n\u{1f4d6} \u{1d407}\u{1d41e}\u{1d425}\u{1d429}\n/play <song> - \u{1d443}\u{1d459}\u{1d44e}\u{1d466} \u{1d44e} \u{1d460}\u{1d45c}\u{1d45b}\u{1d454}\n/skip - \u{1d446}\u{1d458}\u{1d456}\u{1d45d} \u{1d450}\u{1d462}\u{1d45f}\u{1d45f}\u{1d452}\u{1d45b}\u{1d461} \u{1d460}\u{1d45c}\u{1d45b}\u{1d454}\n/stop - \u{1d446}\u{1d461}\u{1d45c}\u{1d45d} \u{1d44e}\u{1d45b}\u{1d451} \u{1d459}\u{1d452}\u{1d44e}\u{1d463}\u{1d452} \u{1d449}\u{1d436}\n/pause - \u{1d443}\u{1d44e}\u{1d462}\u{1d460}\u{1d452} \u{1d45d}\u{1d459}\u{1d44e}\u{1d466}\u{1d44f}\u{1d44e}\u{1d450}\u{1d458}\n/resume - \u{1d445}\u{1d452}\u{1d460}\u{1d462}\u{1d45a}\u{1d452} \u{1d45d}\u{1d459}\u{1d44e}\u{1d466}\u{1d44f}\u{1d44e}\u{1d450}\u{1d458}\n/volume <1-200> - \u{1d446}\u{1d452}\u{1d461} \u{1d463}\u{1d45c}\u{1d459}\u{1d462}\u{1d45a}\u{1d452}\n/queue - \u{1d446}\u{1d455}\u{1d45c}\u{1d464} \u{1d45e}\u{1d462}\u{1d452}\u{1d462}\u{1d452}\n/nowplaying - \u{1d446}\u{1d455}\u{1d45c}\u{1d464} \u{1d450}\u{1d462}\u{1d45f}\u{1d45f}\u{1d452}\u{1d45b}\u{1d461} \u{1d460}\u{1d45c}\u{1d45b}\u{1d454}\n/help - \u{1d446}\u{1d455}\u{1d45c}\u{1d464} \u{1d461}\u{1d455}\u{1d456}\u{1d460} \u{1d45a}\u{1d452}\u{1d460}\u{1d460}\u{1d44e}\u{1d454}\u{1d452}");
}

#[test]
fn skip_replies() {
    assert_eq!(skip_reply(&Advance::QueueEmpty), Some("\u{2705} \u{1d410}\u{1d42e}\u{1d41e}\u{1d42e}\u{1d41e} \u{1d41f}\u{1d422}\u{1d427}\u{1d422}\u{1d42c}\u{1d421}\u{1d41e}\u{1d41d}. \u{1d40b}\u{1d41e}\u{1d41f}\u{1d42d} \u{1d42f}\u{1d428}\u{1d422}\u{1d41c}\u{1d41e} \u{1d41c}\u{1d421}\u{1d41a}\u{1d42d}.".to_string()));
    assert_eq!(skip_reply(&Advance::NoQueue), Some("\u{2705} \u{1d412}\u{1d424}\u{1d422}\u{1d429}\u{1d429}\u{1d41e}\u{1d41d}. \u{1d40d}\u{1d428} \u{1d426}\u{1d428}\u{1d42b}\u{1d41e} \u{1d42c}\u{1d428}\u{1d427}\u{1d420}\u{1d42c} \u{1d422}\u{1d427} \u{1d42a}\u{1d42e}\u{1d41e}\u{1d42e}\u{1d41e}.".to_string()));
    assert_eq!(skip_reply(&Advance::Next(song("a", "A"))), None);
}

#[test]
fn first_song_is_the_top_result() {
    let picked = first_song(vec![song("a", "A"), song("b", "B")]).unwrap();
    assert_eq!(picked.id, "a");
    assert!(first_song(Vec::new()).is_none());
}

#[test]
fn queued_and_playing_cards() {
    assert_eq!(queued_reply("Kesariya"), "\u{1f3b5} \u{1d412}\u{1d41e}\u{1d41c}\u{1d42b}\u{1d41e}\u{1d42d}\u{1d40c}\u{1d42e}\u{1d42c}\u{1d422}\u{1d41c}\u{1d401}\u{1d428}\u{1d42d}\n\u{2795} \u{1d400}\u{1d41d}\u{1d41d}\u{1d41e}\u{1d41d} \u{1d42d}\u{1d428} \u{1d410}\u{1d42e}\u{1d41e}\u{1d42e}\u{1d41e}\n\u{1d43e}\u{1d452}\u{1d460}\u{1d44e}\u{1d45f}\u{1d456}\u{1d466}\u{1d44e}");
    let s = song("a", "Tum Hi Ho");
    assert_eq!(playing_reply(&s, "@alice"), "\u{1f3b5} \u{1d412}\u{1d41e}\u{1d41c}\u{1d42b}\u{1d41e}\u{1d42d}\u{1d40c}\u{1d42e}\u{1d42c}\u{1d422}\u{1d41c}\u{1d401}\u{1d428}\u{1d42d}\n\u{1f3b6} \u{1d40d}\u{1d428}\u{1d430} \u{1d40f}\u{1d425}\u{1d41a}\u{1d432}\u{1d422}\u{1d427}\u{1d420}\n\u{251c}\u{2500} \u{1d412}\u{1d428}\u{1d427}\u{1d420}: \u{1d447}\u{1d462}\u{1d45a} \u{1d43b}\u{1d456} \u{1d43b}\u{1d45c}\n\u{251c}\u{2500} \u{1d400}\u{1d42b}\u{1d42d}\u{1d422}\u{1d42c}\u{1d42d}: \u{1d434}\u{1d45f}\u{1d456}\u{1d457}\u{1d456}\u{1d461} \u{1d446}\u{1d456}\u{1d45b}\u{1d454}\u{1d455}\n\u{251c}\u{2500} \u{1d400}\u{1d425}\u{1d41b}\u{1d42e}\u{1d426}: \u{1d434}\u{1d44e}\u{1d460}\u{1d455}\u{1d456}\u{1d45e}\u{1d462}\u{1d456} 2\n\u{251c}\u{2500} \u{1d403}\u{1d42e}\u{1d42b}\u{1d41a}\u{1d42d}\u{1d422}\u{1d428}\u{1d427}: 04:22\n\u{2514}\u{2500} \u{1d411}\u{1d41e}\u{1d42a}\u{1d42e}\u{1d41e}\u{1d42c}\u{1d42d}\u{1d41e}\u{1d41d} \u{1d41b}\u{1d432}: @\u{1d44e}\u{1d459}\u{1d456}\u{1d450}\u{1d452}");
    assert_eq!(auto_playing_reply(&s), "\u{1f3b5} \u{1d412}\u{1d41e}\u{1d41c}\u{1d42b}\u{1d41e}\u{1d42d}\u{1d40c}\u{1d42e}\u{1d42c}\u{1d422}\u{1d41c}\u{1d401}\u{1d428}\u{1d42d}\n\u{1f3b6} \u{1d40d}\u{1d428}\u{1d430} \u{1d40f}\u{1d425}\u{1d41a}\u{1d432}\u{1d422}\u{1d427}\u{1d420}\n\u{251c}\u{2500} \u{1d412}\u{1d428}\u{1d427}\u{1d420}: \u{1d447}\u{1d462}\u{1d45a} \u{1d43b}\u{1d456} \u{1d43b}\u{1d45c}\n\u{251c}\u{2500} \u{1d400}\u{1d42b}\u{1d42d}\u{1d422}\u{1d42c}\u{1d42d}: \u{1d434}\u{1d45f}\u{1d456}\u{1d457}\u{1d456}\u{1d461} \u{1d446}\u{1d456}\u{1d45b}\u{1d454}\u{1d455}\n\u{251c}\u{2500} \u{1d400}\u{1d425}\u{1d41b}\u{1d42e}\u{1d426}: \u{1d434}\u{1d44e}\u{1d460}\u{1d455}\u{1d456}\u{1d45e}\u{1d462}\u{1d456} 2\n\u{251c}\u{2500} \u{1d403}\u{1d42e}\u{1d42b}\u{1d41a}\u{1d42d}\u{1d422}\u{1d428}\u{1d427}: 04:22\n\u{2514}\u{2500} \u{1d411}\u{1d41e}\u{1d42a}\u{1d42e}\u{1d41e}\u{1d42c}\u{1d42d}\u{1d41e}\u{1d41d} \u{1d41b}\u{1d432}: \u{1d434}\u{1d462}\u{1d461}\u{1d45c}");
}

#[test]
fn requester_prefers_the_user_name() {
    assert_eq!(requester_tag(Some("alice"), "Alice"), "@alice");
    assert_eq!(requester_tag(None, "Alice"), "@Alice");
}

#[test]
fn play_log_record() {
    assert_eq!(play_log_text(-100123, 42, "tum hi ho"), "\u{1f4dd} \u{1d40b}\u{1d428}\u{1d420}\nChat: -100123\nUser: 42\nAction: play\nQuery: tum hi ho");
}

#[test]
fn queue_listing_and_reply() {
    let q: std::collections::VecDeque<_> = vec![song("a", "A"), song("b", "B")].into();
    let entries = queue_entries(&q);
    assert_eq!(entries, vec![(1, "A".to_string(), "Arijit Singh".to_string()), (2, "B".to_string(), "Arijit Singh".to_string())]);
    let (state, _) = ChatState::new().play(song("x", "X"));
    assert_eq!(queue_reply(&state), "\u{2705} \u{1d410}\u{1d42e}\u{1d41e}\u{1d42e}\u{1d41e} \u{1d422}\u{1d42c} \u{1d41e}\u{1d426}\u{1d429}\u{1d42d}\u{1d432}.");
    let (state, _) = state.play(song("a", "A"));
    let (state, _) = state.play(song("b", "B"));
    assert_eq!(queue_reply(&state), "\u{1f3b5} \u{1d412}\u{1d41e}\u{1d41c}\u{1d42b}\u{1d41e}\u{1d42d}\u{1d40c}\u{1d42e}\u{1d42c}\u{1d422}\u{1d41c}\u{1d401}\u{1d428}\u{1d42d}\n\u{1f4dc} \u{1d410}\u{1d42e}\u{1d41e}\u{1d42e}\u{1d41e}\n1. \u{1d434} - \u{1d434}\u{1d45f}\u{1d456}\u{1d457}\u{1d456}\u{1d461} \u{1d446}\u{1d456}\u{1d45b}\u{1d454}\u{1d455}\n2. \u{1d435} - \u{1d434}\u{1d45f}\u{1d456}\u{1d457}\u{1d456}\u{1d461} \u{1d446}\u{1d456}\u{1d45b}\u{1d454}\u{1d455}\n");
    let (state, _, _) = state.skip();
    let (state, _, _) = state.skip();
    assert_eq!(queue_reply(&state), "\u{2705} \u{1d410}\u{1d42e}\u{1d41e}\u{1d42e}\u{1d41e} \u{1d422}\u{1d42c} \u{1d41e}\u{1d426}\u{1d429}\u{1d42d}\u{1d432}.");
}

#[test]
fn nowplaying_reply_by_state() {
    assert_eq!(nowplaying_reply(&ChatState::new()), "\u{2705} \u{1d40d}\u{1d428}\u{1d42d}\u{1d421}\u{1d422}\u{1d427}\u{1d420} \u{1d422}\u{1d42c} \u{1d429}\u{1d425}\u{1d41a}\u{1d432}\u{1d422}\u{1d427}\u{1d420}.");
    let (state, _) = ChatState::new().play(song("a", "Tum Hi Ho"));
    assert_eq!(nowplaying_reply(&state), "\u{1f3b5} \u{1d412}\u{1d41e}\u{1d41c}\u{1d42b}\u{1d41e}\u{1d42d}\u{1d40c}\u{1d42e}\u{1d42c}\u{1d422}\u{1d41c}\u{1d401}\u{1d428}\u{1d42d}\n\u{1f3b6} \u{1d40d}\u{1d428}\u{1d430} \u{1d40f}\u{1d425}\u{1d41a}\u{1d432}\u{1d422}\u{1d427}\u{1d420}\n\u{251c}\u{2500} \u{1d412}\u{1d428}\u{1d427}\u{1d420}: \u{1d447}\u{1d462}\u{1d45a} \u{1d43b}\u{1d456} \u{1d43b}\u{1d45c}\n\u{251c}\u{2500} \u{1d400}\u{1d42b}\u{1d42d}\u{1d422}\u{1d42c}\u{1d42d}: \u{1d434}\u{1d45f}\u{1d456}\u{1d457}\u{1d456}\u{1d461} \u{1d446}\u{1d456}\u{1d45b}\u{1d454}\u{1d455}\n\u{251c}\u{2500} \u{1d400}\u{1d425}\u{1d41b}\u{1d42e}\u{1d426}: \u{1d434}\u{1d44e}\u{1d460}\u{1d455}\u{1d456}\u{1d45e}\u{1d462}\u{1d456} 2\n\u{251c}\u{2500} \u{1d403}\u{1d42e}\u{1d42b}\u{1d41a}\u{1d42d}\u{1d422}\u{1d428}\u{1d427}: 04:22\n\u{2514}\u{2500} \u{1d411}\u{1d41e}\u{1d42a}\u{1d42e}\u{1d41e}\u{1d42c}\u{1d42d}\u{1d41e}\u{1d41d} \u{1d41b}\u{1d432}: \u{1d436}\u{1d462}\u{1d45f}\u{1d45f}\u{1d452}\u{1d45b}\u{1d461}");
}

#[test]
fn log_record_only_with_a_log_channel() {
    assert_eq!(secret_music_bot::bot::play_log_message(0, -100123, 42, "q"), None);
    assert_eq!(
        secret_music_bot::bot::play_log_message(-1001, -100123, 42, "tum hi ho"),
        Some(play_log_text(-100123, 42, "tum hi ho"))
    );
}
