use vstd::prelude::*;
use std::collections::VecDeque;
use crate::jiosaavn::{Song, SongView};
use crate::numbers::{parse_i32, parsed_i32, push_signed_decimal, signed_decimal};
use crate::player::{Advance, AdvanceView, ChatState, songs_view, waiting};
use crate::text::{after_first, after_first_char, push_str, trim, trim_str};
use crate::utils::{
    bold, error_text, format_help, format_playing_message, format_queue, format_simple_error,
    format_simple_info, help_text, info_text, italic, playing_text, push_bold, push_italic,
    listing_view, queue_text,
};

verus! {

/// The name the bot shows in its messages.
pub open spec fn bot_name() -> Seq<char> {
    "SecretMusicBot"@
}

// ---------------------------------------------------------------------------
// Commands.

/// The query of a `/play` message: the text after the first space, trimmed,
/// when it is not empty.
pub open spec fn play_query_of(text: Seq<char>) -> Option<Seq<char>> {
    match after_first(text, ' ') {
        Some(rest) => if trim(rest).len() == 0 { None } else { Some(trim(rest)) },
        None => None,
    }
}

/// Reads the query of a `/play` message.
pub fn play_query(text: &str) -> (r: Option<String>)
    ensures
        match play_query_of(text@) {
            Some(q) => r matches Some(s) && s@ == q,
            None => r is None,
        },
{
    match after_first_char(text, ' ') {
        Some(rest) => {
            let q = trim_str(rest.as_str());
            if q.as_str().is_empty() {
                None
            } else {
                Some(q)
            }
        },
        None => None,
    }
}

/// What a `/volume` message asks for.
#[derive(Debug, Clone, Copy, PartialEq, Eq, Structural)]
pub enum VolumeCommand {
    /// Set the volume to `volume` percent, which Telegram takes as `telegram_volume`.
    SetTo { volume: i32, telegram_volume: i32 },
    /// A number outside `1..=200`.
    OutOfRange,
    /// No number after the command.
    Usage,
}

/// What the text of a `/volume` message asks for.
pub open spec fn volume_command_of(text: Seq<char>) -> VolumeCommand {
    match after_first(text, ' ') {
        Some(rest) => match parsed_i32(trim(rest)) {
            Some(v) => if v < 1 || v > 200 {
                VolumeCommand::OutOfRange
            } else {
                VolumeCommand::SetTo { volume: v, telegram_volume: (v * 100) as i32 }
            },
            None => VolumeCommand::Usage,
        },
        None => VolumeCommand::Usage,
    }
}

/// Reads a `/volume` message.
pub fn volume_command(text: &str) -> (r: VolumeCommand)
    ensures
        r == volume_command_of(text@),
{
    match after_first_char(text, ' ') {
        Some(rest) => {
            let arg = trim_str(rest.as_str());
            match parse_i32(arg.as_str()) {
                Some(v) => if v < 1 || v > 200 {
                    VolumeCommand::OutOfRange
                } else {
                    VolumeCommand::SetTo { volume: v, telegram_volume: v * 100 }
                },
                None => VolumeCommand::Usage,
            }
        },
        None => VolumeCommand::Usage,
    }
}

// ---------------------------------------------------------------------------
// Replies.

/// An error reply with a fixed message.
fn error_reply(msg: &str) -> (r: String)
    ensures
        r@ == error_text(msg@),
{
    format_simple_error(msg)
}

/// An information reply with a fixed message.
fn info_reply(msg: &str) -> (r: String)
    ensures
        r@ == info_text(msg@),
{
    format_simple_info(msg)
}

/// The reply to `/play` without a query.
pub fn play_usage_reply() -> (r: String)
    ensures
        r@ == error_text("Please provide a song name"@),
{
    error_reply("Please provide a song name")
}

/// The reply when the search failed.
pub fn search_failed_reply() -> (r: String)
    ensures
        r@ == error_text("Failed to search song"@),
{
    error_reply("Failed to search song")
}

/// The reply when the search found nothing.
pub fn no_results_reply() -> (r: String)
    ensures
        r@ == error_text("No results found"@),
{
    error_reply("No results found")
}

/// The first song found, which is the one played.
pub fn first_song(songs: Vec<Song>) -> (r: Option<Song>)
    ensures
        songs@.len() == 0 ==> r is None,
        songs@.len() > 0 ==> (r matches Some(s) && s == songs@[0]),
{
    let mut songs = songs;
    if songs.len() == 0 {
        None
    } else {
        Some(songs.remove(0))
    }
}

/// The reply when a song joins the queue.
pub open spec fn queued_text(title: Seq<char>) -> Seq<char> {
    "🎵 "@ + bold(bot_name()) + "\n➕ "@ + bold("Added to Queue"@) + "\n"@ + italic(title)
}

/// Builds the reply when a song joins the queue.
pub fn queued_reply(title: &str) -> (r: String)
    ensures
        r@ == queued_text(title@),
{
    let mut s = String::new();
    push_str(&mut s, "🎵 ");
    push_bold(&mut s, "SecretMusicBot");
    push_str(&mut s, "\n➕ ");
    push_bold(&mut s, "Added to Queue");
    push_str(&mut s, "\n");
    push_italic(&mut s, title);
    assert(s@ =~= queued_text(title@));
    s
}

/// Who asked for a song: `@` and the user name, or the first name when there is none.
pub open spec fn requester_text(username: Option<Seq<char>>, first_name: Seq<char>) -> Seq<char> {
    match username {
        Some(u) => seq!['@'] + u,
        None => seq!['@'] + first_name,
    }
}

/// Builds the requester tag of a playing card.
pub fn requester_tag(username: Option<&str>, first_name: &str) -> (r: String)
    ensures
        r@ == requester_text(
            match username {
                Some(u) => Some(u@),
                None => None,
            },
            first_name@,
        ),
{
    let mut s = String::new();
    crate::text::push_char(&mut s, '@');
    match username {
        Some(u) => push_str(&mut s, u),
        None => push_str(&mut s, first_name),
    }
    assert(s@ =~= requester_text(
        match username {
            Some(u) => Some(u@),
            None => None,
        },
        first_name@,
    ));
    s
}

/// The playing card of a song, with who (or what) asked for it.
pub open spec fn song_card(song: SongView, requested_by: Seq<char>) -> Seq<char> {
    playing_text(bot_name(), song.title, song.artists, song.album, song.duration as nat, requested_by)
}

/// Builds the playing card of a song.
pub fn playing_reply(song: &Song, requested_by: &str) -> (r: String)
    ensures
        r@ == song_card(song@, requested_by@),
{
    format_playing_message(
        "SecretMusicBot",
        song.title.as_str(),
        song.artists.as_str(),
        song.album.as_str(),
        song.duration,
        requested_by,
    )
}

/// The card sent when the next waiting song starts by itself.
pub fn auto_playing_reply(song: &Song) -> (r: String)
    ensures
        r@ == song_card(song@, "Auto"@),
{
    playing_reply(song, "Auto")
}

/// The reply when starting a song failed, by the way it was started.
pub open spec fn start_failure_text(change_stream: bool) -> Seq<char> {
    if change_stream {
        error_text("Failed to play song."@)
    } else {
        error_text("Failed to join voice chat. Is there an active VC?"@)
    }
}

/// Builds the reply when starting a song failed.
pub fn start_failure_reply(change_stream: bool) -> (r: String)
    ensures
        r@ == start_failure_text(change_stream),
{
    if change_stream {
        error_reply("Failed to play song.")
    } else {
        error_reply("Failed to join voice chat. Is there an active VC?")
    }
}

/// The record of a play request sent to the log channel.
pub open spec fn play_log(chat_id: i64, user_id: i64, query: Seq<char>) -> Seq<char> {
    "📝 "@ + bold("Log"@) + "\nChat: "@ + signed_decimal(chat_id as int) + "\nUser: "@
        + signed_decimal(user_id as int) + "\nAction: play\nQuery: "@ + query
}

/// Builds the record of a play request sent to the log channel.
pub fn play_log_text(chat_id: i64, user_id: i64, query: &str) -> (r: String)
    ensures
        r@ == play_log(chat_id, user_id, query@),
{
    let mut s = String::new();
    push_str(&mut s, "📝 ");
    push_bold(&mut s, "Log");
    push_str(&mut s, "\nChat: ");
    push_signed_decimal(&mut s, chat_id);
    push_str(&mut s, "\nUser: ");
    push_signed_decimal(&mut s, user_id);
    push_str(&mut s, "\nAction: play\nQuery: ");
    push_str(&mut s, query);
    assert(s@ =~= play_log(chat_id, user_id, query@));
    s
}

/// The record of a play request for the log channel: none when no log channel
/// is set (its id is 0).
pub fn play_log_message(log_channel_id: i64, chat_id: i64, user_id: i64, query: &str) -> (r: Option<String>)
    ensures
        log_channel_id == 0 ==> r is None,
        log_channel_id != 0 ==> (r matches Some(t) && t@ == play_log(chat_id, user_id, query@)),
{
    if log_channel_id != 0 {
        Some(play_log_text(chat_id, user_id, query))
    } else {
        None
    }
}

/// The reply to a skip, by what comes next: none when a song follows.
pub open spec fn skip_text(advance: AdvanceView) -> Option<Seq<char>> {
    match advance {
        AdvanceView::Next(_) => None,
        AdvanceView::QueueEmpty => Some(info_text("Queue finished. Left voice chat."@)),
        AdvanceView::NoQueue => Some(info_text("Skipped. No more songs in queue."@)),
    }
}

/// Builds the reply to a skip.
pub fn skip_reply(advance: &Advance) -> (r: Option<String>)
    ensures
        match skip_text(advance@) {
            Some(t) => r matches Some(s) && s@ == t,
            None => r is None,
        },
{
    match advance {
        Advance::Next(_) => None,
        Advance::QueueEmpty => Some(info_reply("Queue finished. Left voice chat.")),
        Advance::NoQueue => Some(info_reply("Skipped. No more songs in queue.")),
    }
}

/// Builds the reply to a stop.
pub fn stop_reply() -> (r: String)
    ensures
        r@ == info_text("Stopped and left voice chat."@),
{
    info_reply("Stopped and left voice chat.")
}

/// Builds the reply to `/pause`, by whether the call was playing.
pub fn pause_reply(paused: bool) -> (r: String)
    ensures
        paused ==> r@ == info_text("Paused."@),
        !paused ==> r@ == error_text("Not playing."@),
{
    if paused {
        info_reply("Paused.")
    } else {
        error_reply("Not playing.")
    }
}

/// Builds the reply to `/resume`, by whether the call was paused.
pub fn resume_reply(resumed: bool) -> (r: String)
    ensures
        resumed ==> r@ == info_text("Resumed."@),
        !resumed ==> r@ == error_text("Not paused."@),
{
    if resumed {
        info_reply("Resumed.")
    } else {
        error_reply("Not paused.")
    }
}

/// The reply to a `/volume` message that sets nothing.
pub open spec fn volume_rejection_text(cmd: VolumeCommand) -> Option<Seq<char>> {
    match cmd {
        VolumeCommand::SetTo { .. } => None,
        VolumeCommand::OutOfRange => Some(error_text("Volume must be between 1 and 200."@)),
        VolumeCommand::Usage => Some(error_text("Usage: /volume <1-200>"@)),
    }
}

/// Builds the reply to a `/volume` message that sets nothing.
pub fn volume_rejection_reply(cmd: VolumeCommand) -> (r: Option<String>)
    ensures
        match volume_rejection_text(cmd) {
            Some(t) => r matches Some(s) && s@ == t,
            None => r is None,
        },
{
    match cmd {
        VolumeCommand::SetTo { .. } => None,
        VolumeCommand::OutOfRange => Some(error_reply("Volume must be between 1 and 200.")),
        VolumeCommand::Usage => Some(error_reply("Usage: /volume <1-200>")),
    }
}

/// The reply once a volume change was tried, by whether it succeeded.
pub open spec fn volume_result_text(volume: i32, applied: bool) -> Seq<char> {
    if applied {
        info_text("Volume set to "@ + signed_decimal(volume as int) + "."@)
    } else {
        error_text("Failed to set volume."@)
    }
}

/// Builds the reply once a volume change was tried.
pub fn volume_result_reply(volume: i32, applied: bool) -> (r: String)
    ensures
        r@ == volume_result_text(volume, applied),
{
    if applied {
        let mut msg = String::new();
        push_str(&mut msg, "Volume set to ");
        push_signed_decimal(&mut msg, volume as i64);
        push_str(&mut msg, ".");
        assert(msg@ =~= "Volume set to "@ + signed_decimal(volume as int) + "."@);
        info_reply(msg.as_str())
    } else {
        error_reply("Failed to set volume.")
    }
}

/// The entries of the queue listing: position from 1, title, artists.
pub open spec fn queue_listing(songs: Seq<SongView>) -> Seq<(nat, Seq<char>, Seq<char>)> {
    Seq::new(songs.len(), |i: int| ((i + 1) as nat, songs[i].title, songs[i].artists))
}

/// Numbers the waiting songs from 1, with their titles and artists.
pub fn queue_entries(queue: &VecDeque<Song>) -> (r: Vec<(usize, String, String)>)
    ensures
        listing_view(r@) == queue_listing(songs_view(queue@)),
{
    let mut r: Vec<(usize, String, String)> = Vec::new();
    let mut i: usize = 0;
    while i < queue.len()
        invariant
            i <= queue.len(),
            listing_view(r@) == queue_listing(songs_view(queue@)).take(i as int),
        decreases queue.len() - i,
    {
        let song = &queue[i];
        let ghost before = r@;
        let title = song.title.clone();
        let artists = song.artists.clone();
        r.push((i + 1, title, artists));
        assert(r@.drop_last() == before);
        assert(listing_view(r@).drop_last() =~= listing_view(before));
        assert(listing_view(r@).last() == ((i + 1) as nat, queue@[i as int].title@, queue@[i as int].artists@));
        assert(songs_view(queue@)[i as int] == queue@[i as int]@);
        assert(listing_view(r@) =~= queue_listing(songs_view(queue@)).take(i + 1));
        i = i + 1;
    }
    assert(queue_listing(songs_view(queue@)).take(queue.len() as int) =~= queue_listing(songs_view(queue@)));
    r
}

/// Builds the reply to `/queue`: the listing of the waiting songs, or a note
/// that there are none.
pub fn queue_reply(state: &ChatState) -> (r: String)
    ensures
        waiting(state@).len() == 0 ==> r@ == info_text("Queue is empty."@),
        waiting(state@).len() > 0 ==> r@ == queue_text(bot_name(), queue_listing(waiting(state@))),
{
    match &state.queue {
        Some(q) => {
            if q.len() == 0 {
                info_reply("Queue is empty.")
            } else {
                let entries = queue_entries(q);
                let r = format_queue("SecretMusicBot", entries.as_slice());
                assert(listing_view(entries@) == queue_listing(waiting(state@)));
                r
            }
        },
        None => info_reply("Queue is empty."),
    }
}

/// Builds the reply to `/nowplaying`.
pub fn nowplaying_reply(state: &ChatState) -> (r: String)
    ensures
        match state@.current {
            Some(song) => r@ == song_card(song, "Current"@),
            None => r@ == info_text("Nothing is playing."@),
        },
{
    match &state.current {
        Some(song) => playing_reply(song, "Current"),
        None => info_reply("Nothing is playing."),
    }
}

/// Builds the reply to `/help`.
pub fn help_reply() -> (r: String)
    ensures
        r@ == help_text(bot_name()),
{
    format_help("SecretMusicBot")
}

/// The queue listing has one entry per waiting song, in order: the `i`-th
/// entry is numbered `i + 1` and carries that song's own title and artists.
pub proof fn law_listing_entry_is_its_song(songs: Seq<SongView>)
    ensures
        queue_listing(songs).len() == songs.len(),
        forall|i: int| 0 <= i < songs.len() ==>
            #[trigger] queue_listing(songs)[i] == ((i + 1) as nat, songs[i].title, songs[i].artists),
{
}

} // verus!
