use vstd::prelude::*;
use std::collections::VecDeque;
use tokio_util::sync::CancellationToken;
use crate::jiosaavn::{Song, SongView};

verus! {

/// The token that stops a track-end monitor; the library only carries it.
#[verifier::external_type_specification]
#[verifier::external_body]
pub struct ExCancellationToken(CancellationToken);

/// What the bot holds for one chat: the song playing, the songs waiting (when
/// the chat has a queue at all), whether the assistant is in the voice chat,
/// and the token of the armed track-end monitor, if one is armed.
pub struct ChatState {
    pub current: Option<Song>,
    pub queue: Option<VecDeque<Song>>,
    pub connected: bool,
    pub monitor: Option<CancellationToken>,
}

/// A [`ChatState`] with songs taken by their views.
pub struct ChatStateView {
    pub current: Option<SongView>,
    pub queue: Option<Seq<SongView>>,
    pub connected: bool,
    pub monitored: bool,
}

/// The views of a sequence of songs.
pub open spec fn songs_view(songs: Seq<Song>) -> Seq<SongView> {
    songs.map_values(|s: Song| s@)
}

impl View for ChatState {
    type V = ChatStateView;

    open spec fn view(&self) -> ChatStateView {
        ChatStateView {
            current: match self.current {
                Some(s) => Some(s@),
                None => None,
            },
            queue: match self.queue {
                Some(q) => Some(songs_view(q@)),
                None => None,
            },
            connected: self.connected,
            monitored: self.monitor is Some,
        }
    }
}

/// What a play request leads to.
#[derive(Debug, Clone, Copy, PartialEq, Eq, Structural)]
pub enum PlayStep {
    /// A song is playing: the new one waits at the end of the queue.
    Queued,
    /// Nothing is playing: the new one starts now, by switching the stream of
    /// the joined voice chat (`change_stream`) or by joining it.
    Start { change_stream: bool },
}

/// What comes after a song ends or is skipped.
#[derive(Debug)]
pub enum Advance {
    /// The first waiting song is to be played next.
    Next(Song),
    /// The queue was there but empty: the assistant leaves the voice chat.
    QueueEmpty,
    /// There was no queue: the assistant leaves the voice chat.
    NoQueue,
}

/// An [`Advance`] with its song taken by its view.
pub enum AdvanceView {
    Next(SongView),
    QueueEmpty,
    NoQueue,
}

impl View for Advance {
    type V = AdvanceView;

    open spec fn view(&self) -> AdvanceView {
        match self {
            Advance::Next(s) => AdvanceView::Next(s@),
            Advance::QueueEmpty => AdvanceView::QueueEmpty,
            Advance::NoQueue => AdvanceView::NoQueue,
        }
    }
}

/// The songs waiting, an absent queue counting as empty.
pub open spec fn waiting(s: ChatStateView) -> Seq<SongView> {
    match s.queue {
        Some(q) => q,
        None => Seq::empty(),
    }
}

/// A chat where nothing plays, nothing waits, and the assistant is away.
pub open spec fn is_idle(s: ChatStateView) -> bool {
    s.current is None && s.queue is None && !s.connected && !s.monitored
}

/// A new chat.
pub open spec fn model_new() -> ChatStateView {
    ChatStateView { current: None, queue: None, connected: false, monitored: false }
}

/// A play request for `song`.
pub open spec fn model_play(s: ChatStateView, song: SongView) -> (ChatStateView, PlayStep) {
    if s.current is Some {
        (ChatStateView { queue: Some(waiting(s).push(song)), ..s }, PlayStep::Queued)
    } else {
        (ChatStateView { current: Some(song), ..s }, PlayStep::Start { change_stream: s.connected })
    }
}

/// Starting the current song failed: it is dropped.
pub open spec fn model_start_failed(s: ChatStateView) -> ChatStateView {
    ChatStateView { current: None, ..s }
}

/// The assistant joined the voice chat.
pub open spec fn model_joined(s: ChatStateView) -> ChatStateView {
    ChatStateView { connected: true, ..s }
}

/// The current song started: by joining the voice chat (which the chat then
/// is in), or by switching the stream of the joined one.
pub open spec fn model_started(s: ChatStateView, change_stream: bool) -> ChatStateView {
    if change_stream {
        s
    } else {
        model_joined(s)
    }
}

/// A track-end monitor was armed.
pub open spec fn model_monitor_armed(s: ChatStateView) -> ChatStateView {
    ChatStateView { monitored: true, ..s }
}

/// A track-end monitor was cancelled and let go of the chat's token.
pub open spec fn model_monitor_cancelled(s: ChatStateView) -> ChatStateView {
    ChatStateView { monitored: false, ..s }
}

/// The song playing is over (it ended or was skipped): the first waiting song,
/// if any, is taken out of the queue; otherwise the assistant leaves.
pub open spec fn model_advance(s: ChatStateView) -> (ChatStateView, AdvanceView) {
    let base = ChatStateView { current: None, monitored: false, ..s };
    match s.queue {
        Some(q) => if q.len() > 0 {
            (ChatStateView { queue: Some(q.drop_first()), ..base }, AdvanceView::Next(q[0]))
        } else {
            (ChatStateView { queue: None, connected: false, ..base }, AdvanceView::QueueEmpty)
        },
        None => (ChatStateView { connected: false, ..base }, AdvanceView::NoQueue),
    }
}

/// A skip request: the monitor, if armed, is to be cancelled (the boolean),
/// and the chat advances.
pub open spec fn model_skip(s: ChatStateView) -> (ChatStateView, bool, AdvanceView) {
    let (t, a) = model_advance(s);
    (t, s.monitored, a)
}

/// The track-end monitor fired: the chat advances.
pub open spec fn model_track_finished(s: ChatStateView) -> (ChatStateView, AdvanceView) {
    model_advance(s)
}

/// The next song is started: it becomes the current one.
pub open spec fn model_start_next(s: ChatStateView, song: SongView) -> ChatStateView {
    ChatStateView { current: Some(song), ..s }
}

/// A stop request: everything is dropped; the boolean says whether a monitor
/// is to be cancelled.
pub open spec fn model_stop(s: ChatStateView) -> (ChatStateView, bool) {
    (model_new(), s.monitored)
}

proof fn lemma_songs_view_push(q: Seq<Song>, song: Song)
    ensures
        songs_view(q.push(song)) == songs_view(q).push(song@),
{
    assert(songs_view(q.push(song)) =~= songs_view(q).push(song@));
}

proof fn lemma_songs_view_drop_first(q: Seq<Song>)
    requires
        q.len() > 0,
    ensures
        songs_view(q.subrange(1, q.len() as int)) == songs_view(q).drop_first(),
        songs_view(q)[0] == q[0]@,
{
    assert(songs_view(q.subrange(1, q.len() as int)) =~= songs_view(q).drop_first());
}

impl ChatState {
    /// A chat where nothing has happened yet.
    pub fn new() -> (r: ChatState)
        ensures
            r@ == model_new(),
    {
        ChatState { current: None, queue: None, connected: false, monitor: None }
    }

    /// Whether nothing plays, nothing waits and the assistant is away.
    pub fn is_idle(&self) -> (r: bool)
        ensures
            r == is_idle(self@),
    {
        self.current.is_none() && self.queue.is_none() && !self.connected && self.monitor.is_none()
    }

    /// Handles a play request for `song`.
    pub fn play(self, song: Song) -> (r: (ChatState, PlayStep))
        ensures
            (r.0@, r.1) == model_play(self@, song@),
            r.0.monitor == self.monitor,
    {
        let ChatState { current, queue, connected, monitor } = self;
        match current {
            Some(playing) => {
                let mut q = match queue {
                    Some(q) => q,
                    None => VecDeque::new(),
                };
                let ghost before = q@;
                assert(songs_view(before) =~= waiting(self@));
                q.push_back(song);
                proof {
                    lemma_songs_view_push(before, song);
                }
                (ChatState { current: Some(playing), queue: Some(q), connected, monitor }, PlayStep::Queued)
            },
            None => {
                (ChatState { current: Some(song), queue, connected, monitor }, PlayStep::Start { change_stream: connected })
            },
        }
    }

    /// Starting the current song failed.
    pub fn start_failed(self) -> (r: ChatState)
        ensures
            r@ == model_start_failed(self@),
            r.monitor == self.monitor,
    {
        ChatState { current: None, ..self }
    }

    /// The assistant joined the voice chat.
    pub fn joined(self) -> (r: ChatState)
        ensures
            r@ == model_joined(self@),
            r.monitor == self.monitor,
    {
        ChatState { connected: true, ..self }
    }

    /// The current song started, by switching the stream (`change_stream`) or by joining.
    pub fn started(self, change_stream: bool) -> (r: ChatState)
        ensures
            r@ == model_started(self@, change_stream),
            r.monitor == self.monitor,
    {
        if change_stream {
            self
        } else {
            self.joined()
        }
    }

    /// A track-end monitor was armed with `token`, which replaces any earlier one.
    pub fn monitor_armed(self, token: CancellationToken) -> (r: ChatState)
        ensures
            r@ == model_monitor_armed(self@),
            r.monitor == Some(token),
    {
        ChatState { monitor: Some(token), ..self }
    }

    /// A track-end monitor was cancelled and let go of the chat's token.
    pub fn monitor_cancelled(self) -> (r: ChatState)
        ensures
            r@ == model_monitor_cancelled(self@),
            r.monitor is None,
    {
        ChatState { monitor: None, ..self }
    }

    fn advance(self) -> (r: (ChatState, Advance))
        ensures
            (r.0@, r.1@) == model_advance(self@),
            r.0.monitor is None,
    {
        let ChatState { current, queue, connected, monitor } = self;
        match queue {
            Some(mut q) => {
                let ghost before = q@;
                match q.pop_front() {
                    Some(next) => {
                        proof {
                            lemma_songs_view_drop_first(before);
                        }
                        (ChatState { current: None, queue: Some(q), connected, monitor: None }, Advance::Next(next))
                    },
                    None => {
                        (ChatState { current: None, queue: None, connected: false, monitor: None }, Advance::QueueEmpty)
                    },
                }
            },
            None => (ChatState { current: None, queue: None, connected: false, monitor: None }, Advance::NoQueue),
        }
    }

    /// Handles a skip request: hands back the token of the armed monitor, which
    /// is to be cancelled, and what comes next.
    pub fn skip(self) -> (r: (ChatState, Option<CancellationToken>, Advance))
        ensures
            (r.0@, r.1 is Some, r.2@) == model_skip(self@),
            r.1 == self.monitor,
            r.0.monitor is None,
    {
        let ChatState { current, queue, connected, monitor } = self;
        let rest = ChatState { current, queue, connected, monitor: None };
        let (next_state, advance) = rest.advance();
        (next_state, monitor, advance)
    }

    /// Handles the end of the song playing; the chat lets go of the monitor's token.
    pub fn track_finished(self) -> (r: (ChatState, Advance))
        ensures
            (r.0@, r.1@) == model_track_finished(self@),
            r.0.monitor is None,
    {
        self.advance()
    }

    /// Makes `song` the current one.
    pub fn start_next(self, song: Song) -> (r: ChatState)
        ensures
            r@ == model_start_next(self@, song@),
            r@.current == Some(song@),
            r.monitor == self.monitor,
    {
        ChatState { current: Some(song), ..self }
    }

    /// Handles a stop request: hands back the token of the armed monitor, which
    /// is to be cancelled.
    pub fn stop(self) -> (r: (ChatState, Option<CancellationToken>))
        ensures
            (r.0@, r.1 is Some) == model_stop(self@),
            r.1 == self.monitor,
            is_idle(r.0@),
    {
        (ChatState::new(), self.monitor)
    }
}

// ---------------------------------------------------------------------------
// Laws of the player.

/// Play requests for `songs`, one after another.
pub open spec fn model_play_all(s: ChatStateView, songs: Seq<SongView>) -> ChatStateView
    decreases songs.len(),
{
    if songs.len() == 0 {
        s
    } else {
        model_play(model_play_all(s, songs.drop_last()), songs.last()).0
    }
}

/// The song playing ends, and the next waiting one, if any, is started.
pub open spec fn model_next_track(s: ChatStateView) -> (ChatStateView, Option<SongView>) {
    let (t, a) = model_track_finished(s);
    match a {
        AdvanceView::Next(x) => (model_start_next(t, x), Some(x)),
        _ => (t, None),
    }
}

/// The songs that start, in order, over `n` successive ends of the song playing.
pub open spec fn model_played(s: ChatStateView, n: nat) -> Seq<SongView>
    decreases n,
{
    if n == 0 {
        Seq::empty()
    } else {
        match model_next_track(s).1 {
            Some(x) => seq![x] + model_played(model_next_track(s).0, (n - 1) as nat),
            None => Seq::empty(),
        }
    }
}

proof fn lemma_play_all_while_busy(s: ChatStateView, songs: Seq<SongView>)
    requires
        s.current is Some,
    ensures
        model_play_all(s, songs).current == s.current,
        waiting(model_play_all(s, songs)) == waiting(s) + songs,
    decreases songs.len(),
{
    if songs.len() == 0 {
        assert(waiting(s) + songs =~= waiting(s));
    } else {
        lemma_play_all_while_busy(s, songs.drop_last());
        assert(waiting(s) + songs =~= (waiting(s) + songs.drop_last()).push(songs.last()));
    }
}

proof fn lemma_played_drains_queue(s: ChatStateView, n: nat)
    requires
        n == waiting(s).len(),
    ensures
        model_played(s, n) == waiting(s),
    decreases n,
{
    if n == 0 {
        assert(waiting(s) =~= Seq::<SongView>::empty());
    } else {
        let q = waiting(s);
        let t = model_next_track(s).0;
        assert(waiting(t) == q.drop_first());
        lemma_played_drains_queue(t, (n - 1) as nat);
        assert(seq![q[0]] + q.drop_first() =~= q);
    }
}

/// Songs are played in the order they were requested: when a song is playing,
/// requests for `songs` queue them behind those already waiting, and as the songs
/// playing end one after another, exactly the waiting songs and then `songs` start,
/// in that order.
pub proof fn law_requests_play_in_order(s: ChatStateView, songs: Seq<SongView>)
    requires
        s.current is Some,
    ensures
        model_played(model_play_all(s, songs), waiting(s).len() + songs.len()) == waiting(s) + songs,
{
    lemma_play_all_while_busy(s, songs);
    lemma_played_drains_queue(model_play_all(s, songs), waiting(s).len() + songs.len());
}

/// A request while a song is playing never interrupts it: the new song waits.
pub proof fn law_request_while_playing_waits(s: ChatStateView, song: SongView)
    requires
        s.current is Some,
    ensures
        model_play(s, song).1 == PlayStep::Queued,
        model_play(s, song).0.current == s.current,
        waiting(model_play(s, song).0) == waiting(s).push(song),
{
}

/// When a song is over and nothing waits, the assistant leaves the voice chat
/// and nothing plays.
pub proof fn law_nothing_waiting_leaves(s: ChatStateView)
    requires
        waiting(s).len() == 0,
    ensures
        !model_advance(s).0.connected,
        model_advance(s).0.current is None,
        !(model_advance(s).1 is Next),
{
}

/// A song that fails to start leaves the chat as it was before it was requested.
pub proof fn law_failed_start_is_undone(s: ChatStateView, song: SongView)
    requires
        s.current is None,
    ensures
        model_play(s, song).1 is Start,
        model_start_failed(model_play(s, song).0) == s,
{
}

/// A skip moves the chat on exactly as the end of the song does: same next
/// state, same song next.
pub proof fn law_skip_advances_like_track_end(s: ChatStateView)
    ensures
        model_skip(s).0 == model_track_finished(s).0,
        model_skip(s).2 == model_track_finished(s).1,
{
}

/// A stop leaves the chat idle, so a following skip finds nothing queued.
pub proof fn law_stop_leaves_idle(s: ChatStateView)
    ensures
        is_idle(model_stop(s).0),
        model_skip(model_stop(s).0).2 is NoQueue,
        !model_skip(model_stop(s).0).1,
{
}

/// Once the assistant has joined, a song that starts does so by switching the
/// stream, without joining again.
pub proof fn law_joined_switches_stream(s: ChatStateView, song: SongView)
    requires
        s.current is None,
    ensures
        model_play(model_joined(s), song).1 == (PlayStep::Start { change_stream: true }),
{
}

/// Starting the next song makes it the one playing, and changes nothing else:
/// the waiting songs, the voice chat and the monitor stay as they were.
pub proof fn law_started_song_is_playing(s: ChatStateView, song: SongView)
    ensures
        model_start_next(s, song).current == Some(song),
        model_start_next(s, song).queue == s.queue,
        model_start_next(s, song).connected == s.connected,
        model_start_next(s, song).monitored == s.monitored,
{
}

/// When a song ends and a song waits, the first waiting song is the one that
/// starts and then plays; it leaves the queue, and a request made while it
/// plays waits behind the others.
pub proof fn law_next_track_plays_first_waiting(s: ChatStateView, song: SongView)
    requires
        waiting(s).len() > 0,
    ensures
        model_next_track(s).1 == Some(waiting(s)[0]),
        model_next_track(s).0.current == Some(waiting(s)[0]),
        waiting(model_next_track(s).0) == waiting(s).drop_first(),
        model_play(model_next_track(s).0, song).1 == PlayStep::Queued,
{
}

} // verus!
