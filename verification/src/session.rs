use vstd::prelude::*;
use tokio_util::sync::CancellationToken;
use crate::bot::{
    auto_playing_reply, play_log, play_log_text, playing_reply, queued_reply, queued_text,
    skip_reply, skip_text, song_card, start_failure_reply, start_failure_text, stop_reply,
};
use crate::jiosaavn::{Song, SongView};
use crate::player::{
    model_play, model_skip, model_start_failed, model_start_next, model_started, model_stop,
    model_track_finished, Advance, AdvanceView, ChatState, ChatStateView, PlayStep,
};
use crate::utils::info_text;

verus! {

/// One thing the bot does for a chat. A step hands back a list of them, to be
/// done in that order.
pub enum Effect {
    /// Answer the message that carried the command.
    Reply(String),
    /// Send a message to the chat.
    SendToChat(String),
    /// Send a record to the log channel.
    SendLog(String),
    /// Switch the stream of the joined voice chat to this media.
    ChangeStream(String),
    /// Join the voice chat and play this media.
    JoinAndPlay(String),
    /// Stop the call.
    StopCall,
    /// Cancel the track-end monitor that holds this token.
    CancelMonitor(CancellationToken),
    /// Arm a track-end monitor for this many seconds.
    StartMonitor(u64),
    /// Start this waiting song.
    PlayNext(Song),
}

/// An [`Effect`] with its texts and song taken by their views.
pub enum EffectView {
    Reply(Seq<char>),
    SendToChat(Seq<char>),
    SendLog(Seq<char>),
    ChangeStream(Seq<char>),
    JoinAndPlay(Seq<char>),
    StopCall,
    CancelMonitor(CancellationToken),
    StartMonitor(u64),
    PlayNext(SongView),
}

impl View for Effect {
    type V = EffectView;

    open spec fn view(&self) -> EffectView {
        match self {
            Effect::Reply(t) => EffectView::Reply(t@),
            Effect::SendToChat(t) => EffectView::SendToChat(t@),
            Effect::SendLog(t) => EffectView::SendLog(t@),
            Effect::ChangeStream(u) => EffectView::ChangeStream(u@),
            Effect::JoinAndPlay(u) => EffectView::JoinAndPlay(u@),
            Effect::StopCall => EffectView::StopCall,
            Effect::CancelMonitor(t) => EffectView::CancelMonitor(*t),
            Effect::StartMonitor(d) => EffectView::StartMonitor(*d),
            Effect::PlayNext(s) => EffectView::PlayNext(s@),
        }
    }
}

/// The views of a list of effects.
pub open spec fn effects_view(effects: Seq<Effect>) -> Seq<EffectView> {
    effects.map_values(|e: Effect| e@)
}

/// Cancelling the armed monitor, when there is one.
pub open spec fn cancel_effects(monitor: Option<CancellationToken>) -> Seq<EffectView> {
    match monitor {
        Some(t) => seq![EffectView::CancelMonitor(t)],
        None => Seq::empty(),
    }
}

/// Starting a song: by switching the stream of the joined voice chat, or by joining it.
pub open spec fn start_effect(change_stream: bool, media_url: Seq<char>) -> EffectView {
    if change_stream {
        EffectView::ChangeStream(media_url)
    } else {
        EffectView::JoinAndPlay(media_url)
    }
}

/// What a play request for `song` does: a song playing makes it wait, with a
/// note that it was queued; otherwise its card is sent and then it is started.
pub open spec fn play_request_effects(s: ChatStateView, song: SongView, requested_by: Seq<char>) -> Seq<EffectView> {
    match model_play(s, song).1 {
        PlayStep::Queued => seq![EffectView::Reply(queued_text(song.title))],
        PlayStep::Start { change_stream } => seq![
            EffectView::Reply(song_card(song, requested_by)),
            start_effect(change_stream, song.media_url),
        ],
    }
}

/// What follows the start of a requested song: on failure, a note of it; on
/// success, the record for the log channel (when one is set) and then a
/// track-end monitor for the song's length.
pub open spec fn play_started_effects(
    ok: bool,
    change_stream: bool,
    song: SongView,
    log_channel_id: i64,
    chat_id: i64,
    user_id: i64,
    query: Seq<char>,
) -> Seq<EffectView> {
    if !ok {
        seq![EffectView::Reply(start_failure_text(change_stream))]
    } else if log_channel_id != 0 {
        seq![EffectView::SendLog(play_log(chat_id, user_id, query)), EffectView::StartMonitor(song.duration)]
    } else {
        seq![EffectView::StartMonitor(song.duration)]
    }
}

/// The chat after the start of a requested song, by its outcome.
pub open spec fn model_play_started(s: ChatStateView, ok: bool, change_stream: bool) -> ChatStateView {
    if ok {
        model_started(s, change_stream)
    } else {
        model_start_failed(s)
    }
}

/// What a skip does: the armed monitor is cancelled, the call is stopped, and
/// then the next waiting song is started, or the chat is told that none is left.
pub open spec fn skip_effects(monitor: Option<CancellationToken>, advance: AdvanceView) -> Seq<EffectView> {
    cancel_effects(monitor) + seq![EffectView::StopCall] + match advance {
        AdvanceView::Next(x) => seq![EffectView::PlayNext(x)],
        _ => match skip_text(advance) {
            Some(t) => seq![EffectView::Reply(t)],
            None => Seq::empty(),
        },
    }
}

/// What the end of a song does: the next waiting song is started; when none
/// waits, the call is stopped.
pub open spec fn track_end_effects(advance: AdvanceView) -> Seq<EffectView> {
    match advance {
        AdvanceView::Next(x) => seq![EffectView::PlayNext(x)],
        _ => seq![EffectView::StopCall],
    }
}

/// What a stop does: the armed monitor is cancelled, the call is stopped, and
/// the chat is told.
pub open spec fn stop_effects(monitor: Option<CancellationToken>) -> Seq<EffectView> {
    cancel_effects(monitor) + seq![
        EffectView::StopCall,
        EffectView::Reply(info_text("Stopped and left voice chat."@)),
    ]
}

/// What follows the start of a waiting song: on success, its card goes to the
/// chat and a track-end monitor is armed; on failure, nothing.
pub open spec fn next_started_effects(ok: bool, song: SongView) -> Seq<EffectView> {
    if ok {
        seq![EffectView::SendToChat(song_card(song, "Auto"@)), EffectView::StartMonitor(song.duration)]
    } else {
        Seq::empty()
    }
}

fn push_effect(effects: &mut Vec<Effect>, e: Effect)
    ensures
        effects_view(final(effects)@) == effects_view(old(effects)@).push(e@),
{
    let ghost before = effects@;
    effects.push(e);
    assert(effects_view(effects@) =~= effects_view(before).push(e@));
}

fn push_cancel(effects: &mut Vec<Effect>, monitor: Option<CancellationToken>)
    ensures
        effects_view(final(effects)@) == effects_view(old(effects)@) + cancel_effects(monitor),
{
    match monitor {
        Some(t) => push_effect(effects, Effect::CancelMonitor(t)),
        None => {
            assert(effects_view(effects@) + cancel_effects(monitor) =~= effects_view(effects@));
        },
    }
}

/// A play request for `song`, asked for by `requested_by`: the chat's next state
/// and what to do.
pub fn play_request(chat: ChatState, song: Song, requested_by: &str) -> (r: (ChatState, Vec<Effect>))
    ensures
        r.0@ == model_play(chat@, song@).0,
        r.0.monitor == chat.monitor,
        effects_view(r.1@) == play_request_effects(chat@, song@, requested_by@),
{
    let mut effects: Vec<Effect> = Vec::new();
    let ghost sv = song@;
    let queued = queued_reply(song.title.as_str());
    let card = playing_reply(&song, requested_by);
    let url = song.media_url.clone();
    let (next, step) = chat.play(song);
    match step {
        PlayStep::Queued => {
            push_effect(&mut effects, Effect::Reply(queued));
        },
        PlayStep::Start { change_stream } => {
            push_effect(&mut effects, Effect::Reply(card));
            if change_stream {
                push_effect(&mut effects, Effect::ChangeStream(url));
            } else {
                push_effect(&mut effects, Effect::JoinAndPlay(url));
            }
        },
    }
    assert(effects_view(effects@) =~= play_request_effects(chat@, sv, requested_by@));
    (next, effects)
}

/// The start of a requested song came out `ok` or not: the chat's next state and
/// what to do.
pub fn play_started(
    chat: ChatState,
    ok: bool,
    change_stream: bool,
    song: &Song,
    log_channel_id: i64,
    chat_id: i64,
    user_id: i64,
    query: &str,
) -> (r: (ChatState, Vec<Effect>))
    ensures
        r.0@ == model_play_started(chat@, ok, change_stream),
        r.0.monitor == chat.monitor,
        effects_view(r.1@) == play_started_effects(
            ok,
            change_stream,
            song@,
            log_channel_id,
            chat_id,
            user_id,
            query@,
        ),
{
    let mut effects: Vec<Effect> = Vec::new();
    if !ok {
        push_effect(&mut effects, Effect::Reply(start_failure_reply(change_stream)));
        assert(effects_view(effects@) =~= play_started_effects(
            ok,
            change_stream,
            song@,
            log_channel_id,
            chat_id,
            user_id,
            query@,
        ));
        return (chat.start_failed(), effects);
    }
    if log_channel_id != 0 {
        push_effect(&mut effects, Effect::SendLog(play_log_text(chat_id, user_id, query)));
    }
    push_effect(&mut effects, Effect::StartMonitor(song.duration));
    assert(effects_view(effects@) =~= play_started_effects(
        ok,
        change_stream,
        song@,
        log_channel_id,
        chat_id,
        user_id,
        query@,
    ));
    (chat.started(change_stream), effects)
}

/// A skip request: the chat's next state and what to do.
pub fn skip_request(chat: ChatState) -> (r: (ChatState, Vec<Effect>))
    ensures
        r.0@ == model_skip(chat@).0,
        r.0.monitor is None,
        effects_view(r.1@) == skip_effects(chat.monitor, model_skip(chat@).2),
{
    let mut effects: Vec<Effect> = Vec::new();
    let ghost monitor = chat.monitor;
    let (next, cancel, advance) = chat.skip();
    let ghost a = advance@;
    push_cancel(&mut effects, cancel);
    push_effect(&mut effects, Effect::StopCall);
    let text = skip_reply(&advance);
    match advance {
        Advance::Next(x) => {
            push_effect(&mut effects, Effect::PlayNext(x));
        },
        _ => {
            match text {
                Some(t) => push_effect(&mut effects, Effect::Reply(t)),
                None => {},
            }
        },
    }
    assert(effects_view(effects@) =~= skip_effects(monitor, a));
    (next, effects)
}

/// The track-end monitor fired: the chat's next state and what to do.
pub fn track_end(chat: ChatState) -> (r: (ChatState, Vec<Effect>))
    ensures
        r.0@ == model_track_finished(chat@).0,
        r.0.monitor is None,
        effects_view(r.1@) == track_end_effects(model_track_finished(chat@).1),
{
    let mut effects: Vec<Effect> = Vec::new();
    let (next, advance) = chat.track_finished();
    let ghost a = advance@;
    match advance {
        Advance::Next(x) => push_effect(&mut effects, Effect::PlayNext(x)),
        _ => push_effect(&mut effects, Effect::StopCall),
    }
    assert(effects_view(effects@) =~= track_end_effects(a));
    (next, effects)
}

/// A stop request: the chat's next state and what to do.
pub fn stop_request(chat: ChatState) -> (r: (ChatState, Vec<Effect>))
    ensures
        r.0@ == model_stop(chat@).0,
        r.0.monitor is None,
        effects_view(r.1@) == stop_effects(chat.monitor),
{
    let mut effects: Vec<Effect> = Vec::new();
    let (next, cancel) = chat.stop();
    push_cancel(&mut effects, cancel);
    push_effect(&mut effects, Effect::StopCall);
    push_effect(&mut effects, Effect::Reply(stop_reply()));
    assert(effects_view(effects@) =~= stop_effects(chat.monitor));
    (next, effects)
}

/// A waiting song is to start: it becomes the current one, and its media is
/// switched to.
pub fn next_song(chat: ChatState, song: Song) -> (r: (ChatState, Vec<Effect>))
    ensures
        r.0@ == model_start_next(chat@, song@),
        r.0.monitor == chat.monitor,
        effects_view(r.1@) == seq![EffectView::ChangeStream(song@.media_url)],
{
    let mut effects: Vec<Effect> = Vec::new();
    push_effect(&mut effects, Effect::ChangeStream(song.media_url.clone()));
    assert(effects_view(effects@) =~= seq![EffectView::ChangeStream(song@.media_url)]);
    (chat.start_next(song), effects)
}

/// The start of a waiting song came out `ok` or not: the chat's next state and
/// what to do.
pub fn next_started(chat: ChatState, ok: bool, song: &Song) -> (r: (ChatState, Vec<Effect>))
    ensures
        r.0@ == (if ok { chat@ } else { model_start_failed(chat@) }),
        r.0.monitor == chat.monitor,
        effects_view(r.1@) == next_started_effects(ok, song@),
{
    let mut effects: Vec<Effect> = Vec::new();
    if ok {
        push_effect(&mut effects, Effect::SendToChat(auto_playing_reply(song)));
        push_effect(&mut effects, Effect::StartMonitor(song.duration));
        assert(effects_view(effects@) =~= next_started_effects(ok, song@));
        (chat, effects)
    } else {
        assert(effects_view(effects@) =~= next_started_effects(ok, song@));
        (chat.start_failed(), effects)
    }
}


// ---------------------------------------------------------------------------
// Laws of the steps.

/// A request while a song plays starts nothing: its only effect is the note
/// that the song was queued.
pub proof fn law_queued_request_starts_nothing(s: ChatStateView, song: SongView, requested_by: Seq<char>)
    requires
        s.current is Some,
    ensures
        play_request_effects(s, song, requested_by) == seq![EffectView::Reply(queued_text(song.title))],
{
}

/// A request that starts its song sends the song's card first, and then starts
/// it: by switching the stream once the assistant is in the voice chat, by
/// joining otherwise.
pub proof fn law_card_comes_before_start(s: ChatStateView, song: SongView, requested_by: Seq<char>)
    requires
        s.current is None,
    ensures
        play_request_effects(s, song, requested_by).len() == 2,
        play_request_effects(s, song, requested_by)[0] == EffectView::Reply(song_card(song, requested_by)),
        play_request_effects(s, song, requested_by)[1] == start_effect(s.connected, song.media_url),
{
}

/// A track-end monitor is armed, as the last thing done, exactly when the song
/// started; the log channel hears of a request only then.
pub proof fn law_monitor_only_after_a_start(
    ok: bool,
    change_stream: bool,
    song: SongView,
    log_channel_id: i64,
    chat_id: i64,
    user_id: i64,
    query: Seq<char>,
)
    ensures
        ok <==> play_started_effects(ok, change_stream, song, log_channel_id, chat_id, user_id, query).last()
            == EffectView::StartMonitor(song.duration),
        ok <==> next_started_effects(ok, song).len() > 0,
        !ok ==> play_started_effects(ok, change_stream, song, log_channel_id, chat_id, user_id, query)
            == seq![EffectView::Reply(start_failure_text(change_stream))],
{
}

/// Every skip and every stop first cancels the armed monitor, if any, and then
/// stops the call.
pub proof fn law_skip_and_stop_stop_the_call(monitor: Option<CancellationToken>, advance: AdvanceView)
    ensures
        skip_effects(monitor, advance)[cancel_effects(monitor).len() as int] == EffectView::StopCall,
        stop_effects(monitor)[cancel_effects(monitor).len() as int] == EffectView::StopCall,
        monitor matches Some(t) ==> skip_effects(monitor, advance)[0] == EffectView::CancelMonitor(t),
        monitor matches Some(t) ==> stop_effects(monitor)[0] == EffectView::CancelMonitor(t),
{
}

} // verus!
