use vstd::prelude::*;
use crate::numbers::{
    all_digits, decimal, digits_value, lemma_decimal_digits, lemma_digits_parse_u64,
    lemma_leading_zero, parsed_u64, push_decimal,
};
use crate::text::{chars_of, char_from_u32, push_char, push_str};

verus! {

/// The character `offset` code points after `base`, as a `char`.
pub open spec fn shifted(base: u32, offset: u32) -> char {
    ((base + offset) as u32) as char
}

/// The Mathematical Bold form of an ASCII letter or digit; any other character is kept.
pub open spec fn bold_char(c: char) -> char {
    let u = c as u32;
    if 'A' as u32 <= u <= 'Z' as u32 {
        shifted(0x1D400, (u - 'A' as u32) as u32)
    } else if 'a' as u32 <= u <= 'z' as u32 {
        shifted(0x1D41A, (u - 'a' as u32) as u32)
    } else if '0' as u32 <= u <= '9' as u32 {
        shifted(0x1D7CE, (u - '0' as u32) as u32)
    } else {
        c
    }
}

/// The Mathematical Italic form of an ASCII letter; any other character is kept.
pub open spec fn italic_char(c: char) -> char {
    let u = c as u32;
    if 'A' as u32 <= u <= 'Z' as u32 {
        shifted(0x1D434, (u - 'A' as u32) as u32)
    } else if 'a' as u32 <= u <= 'z' as u32 {
        shifted(0x1D44E, (u - 'a' as u32) as u32)
    } else {
        c
    }
}

/// `s` with every character in bold.
pub open spec fn bold(s: Seq<char>) -> Seq<char> {
    s.map_values(|c: char| bold_char(c))
}

/// `s` with every character in italics.
pub open spec fn italic(s: Seq<char>) -> Seq<char> {
    s.map_values(|c: char| italic_char(c))
}

/// Styling twice is styling once: bold and italic characters are left as they are.
pub proof fn law_styling_is_idempotent(s: Seq<char>)
    ensures
        bold(bold(s)) == bold(s),
        italic(italic(s)) == italic(s),
{
    assert forall|i: int| 0 <= i < s.len() implies bold_char(bold_char(s[i])) == bold_char(s[i]) by {
        let c = s[i];
        let u = c as u32;
        if 'A' as u32 <= u <= 'Z' as u32 || 'a' as u32 <= u <= 'z' as u32 || '0' as u32 <= u <= '9' as u32 {
            vstd::utf8::char_u32_cast(bold_char(c), (bold_char(c) as u32));
        }
    }
    assert forall|i: int| 0 <= i < s.len() implies italic_char(italic_char(s[i])) == italic_char(s[i]) by {}
    assert(bold(bold(s)) =~= bold(s));
    assert(italic(italic(s)) =~= italic(s));
}

/// `s` left-padded with `0` to at least two characters.
pub open spec fn pad2(s: Seq<char>) -> Seq<char> {
    if s.len() < 2 {
        seq!['0'] + s
    } else {
        s
    }
}

/// `mm:ss`, each part at least two digits.
pub open spec fn duration_text(seconds: nat) -> Seq<char> {
    pad2(decimal(seconds / 60)) + seq![':'] + pad2(decimal(seconds % 60))
}

/// The character `offset` code points after `base`.
fn shift(base: u32, offset: u32, fallback: char) -> (c: char)
    requires
        0x10000 <= base,
        base + offset <= 0x10FFFF,
    ensures
        c == shifted(base, offset),
{
    let v = base + offset;
    match char_from_u32(v) {
        Some(c) => {
            proof {
                vstd::utf8::char_u32_cast(c, v);
            }
            c
        },
        None => fallback,
    }
}

fn bold_of(c: char) -> (r: char)
    ensures
        r == bold_char(c),
{
    let u = c as u32;
    if 'A' as u32 <= u && u <= 'Z' as u32 {
        shift(0x1D400, u - 'A' as u32, c)
    } else if 'a' as u32 <= u && u <= 'z' as u32 {
        shift(0x1D41A, u - 'a' as u32, c)
    } else if '0' as u32 <= u && u <= '9' as u32 {
        shift(0x1D7CE, u - '0' as u32, c)
    } else {
        c
    }
}

fn italic_of(c: char) -> (r: char)
    ensures
        r == italic_char(c),
{
    let u = c as u32;
    if 'A' as u32 <= u && u <= 'Z' as u32 {
        shift(0x1D434, u - 'A' as u32, c)
    } else if 'a' as u32 <= u && u <= 'z' as u32 {
        shift(0x1D44E, u - 'a' as u32, c)
    } else {
        c
    }
}

/// Appends `text` in bold to `s`.
pub fn push_bold(s: &mut String, text: &str)
    ensures
        final(s)@ == old(s)@ + bold(text@),
{
    let cs = chars_of(text);
    let mut i: usize = 0;
    while i < cs.len()
        invariant
            i <= cs.len(),
            cs@ == text@,
            s@ == old(s)@ + bold(text@.take(i as int)),
        decreases cs.len() - i,
    {
        push_char(s, bold_of(cs[i]));
        assert(bold(text@.take(i + 1)) =~= bold(text@.take(i as int)).push(bold_char(text@[i as int])));
        i = i + 1;
    }
    assert(text@.take(cs.len() as int) =~= text@);
}

/// Appends `text` in italics to `s`.
pub fn push_italic(s: &mut String, text: &str)
    ensures
        final(s)@ == old(s)@ + italic(text@),
{
    let cs = chars_of(text);
    let mut i: usize = 0;
    while i < cs.len()
        invariant
            i <= cs.len(),
            cs@ == text@,
            s@ == old(s)@ + italic(text@.take(i as int)),
        decreases cs.len() - i,
    {
        push_char(s, italic_of(cs[i]));
        assert(italic(text@.take(i + 1)) =~= italic(text@.take(i as int)).push(italic_char(text@[i as int])));
        i = i + 1;
    }
    assert(text@.take(cs.len() as int) =~= text@);
}

/// Renders ASCII letters and digits of `text` in Mathematical Bold.
pub fn to_bold(text: &str) -> (r: String)
    ensures
        r@ == bold(text@),
{
    let mut s = String::new();
    push_bold(&mut s, text);
    assert(s@ =~= bold(text@));
    s
}

/// Renders ASCII letters of `text` in Mathematical Italic.
pub fn to_italic(text: &str) -> (r: String)
    ensures
        r@ == italic(text@),
{
    let mut s = String::new();
    push_italic(&mut s, text);
    assert(s@ =~= italic(text@));
    s
}

fn push_pad2(s: &mut String, n: u64)
    ensures
        final(s)@ == old(s)@ + pad2(decimal(n as nat)),
{
    if n < 10 {
        push_char(s, '0');
    }
    proof {
        reveal_with_fuel(decimal, 2);
    }
    push_decimal(s, n);
    assert(final(s)@ =~= old(s)@ + pad2(decimal(n as nat)));
}

/// Formats a number of seconds as `mm:ss` (minutes are not capped).
pub fn format_duration(seconds: u64) -> (r: String)
    ensures
        r@ == duration_text(seconds as nat),
{
    let m = seconds / 60;
    let sec = seconds % 60;
    let mut s = String::new();
    push_pad2(&mut s, m);
    push_char(&mut s, ':');
    push_pad2(&mut s, sec);
    assert(s@ =~= duration_text(seconds as nat));
    s
}

proof fn lemma_pad2_decimal(n: nat)
    ensures
        pad2(decimal(n)).len() >= 2,
        all_digits(pad2(decimal(n))),
        digits_value(pad2(decimal(n))) == n,
        n < 100 ==> pad2(decimal(n)).len() == 2,
{
    lemma_decimal_digits(n);
    lemma_leading_zero(decimal(n));
    reveal_with_fuel(decimal, 2);
    if n >= 10 && n < 100 {
        lemma_decimal_digits(n / 10);
        assert(decimal(n / 10) == seq![crate::numbers::digit_char((n / 10) as int)]);
    }
}

/// A duration reads back: its text is the minutes, `:`, and the seconds; both
/// parts are ASCII digits (so the `:` is the only one), the minutes at least two
/// of them and the seconds exactly two; read as `u64`s, the seconds are below 60
/// and the minutes times 60 plus the seconds give back the number of seconds.
pub proof fn law_duration_reads_back(seconds: u64)
    ensures
        ({
            let mm = pad2(decimal((seconds / 60) as nat));
            let ss = pad2(decimal((seconds % 60) as nat));
            &&& duration_text(seconds as nat) == mm + seq![':'] + ss
            &&& mm.len() >= 2
            &&& ss.len() == 2
            &&& all_digits(mm)
            &&& all_digits(ss)
            &&& parsed_u64(mm) == Some(seconds / 60)
            &&& parsed_u64(ss) == Some(seconds % 60)
            &&& seconds % 60 < 60
            &&& (seconds / 60) * 60 + seconds % 60 == seconds
        }),
{
    let m = (seconds / 60) as nat;
    let r = (seconds % 60) as nat;
    lemma_pad2_decimal(m);
    lemma_pad2_decimal(r);
    lemma_digits_parse_u64(pad2(decimal(m)));
    lemma_digits_parse_u64(pad2(decimal(r)));
}

/// The "now playing" card.
pub open spec fn playing_text(
    bot_name: Seq<char>,
    song_title: Seq<char>,
    artists: Seq<char>,
    album: Seq<char>,
    duration: nat,
    requested_by: Seq<char>,
) -> Seq<char> {
    "🎵 "@ + bold(bot_name) + "\n🎶 "@ + bold("Now Playing"@)
        + "\n├─ "@ + bold("Song"@) + ": "@ + italic(song_title)
        + "\n├─ "@ + bold("Artist"@) + ": "@ + italic(artists)
        + "\n├─ "@ + bold("Album"@) + ": "@ + italic(album)
        + "\n├─ "@ + bold("Duration"@) + ": "@ + italic(duration_text(duration))
        + "\n└─ "@ + bold("Requested by"@) + ": "@ + italic(requested_by)
}

/// The view of queue listing entries: position, title, artists.
pub open spec fn listing_view(entries: Seq<(usize, String, String)>) -> Seq<(nat, Seq<char>, Seq<char>)> {
    entries.map_values(|e: (usize, String, String)| (e.0 as nat, e.1@, e.2@))
}

/// One line of the queue listing: `n. title - artists`.
pub open spec fn listing_line(entry: (nat, Seq<char>, Seq<char>)) -> Seq<char> {
    decimal(entry.0) + ". "@ + italic(entry.1) + " - "@ + italic(entry.2) + "\n"@
}

/// The lines of the queue listing, in order.
pub open spec fn listing_lines(entries: Seq<(nat, Seq<char>, Seq<char>)>) -> Seq<char>
    decreases entries.len(),
{
    if entries.len() == 0 {
        Seq::empty()
    } else {
        listing_lines(entries.drop_last()) + listing_line(entries.last())
    }
}

/// The listing of two runs of entries, one after the other, is the listing of
/// the first run followed by that of the second; so a queue listing is its
/// header followed by one line per entry, in order.
pub proof fn law_listing_of_concatenation(
    a: Seq<(nat, Seq<char>, Seq<char>)>,
    b: Seq<(nat, Seq<char>, Seq<char>)>,
)
    ensures
        listing_lines(a + b) == listing_lines(a) + listing_lines(b),
    decreases b.len(),
{
    if b.len() == 0 {
        assert(a + b =~= a);
        assert(listing_lines(a) + listing_lines(b) =~= listing_lines(a));
    } else {
        law_listing_of_concatenation(a, b.drop_last());
        assert((a + b).drop_last() =~= a + b.drop_last());
        assert((a + b).last() == b.last());
        assert(listing_lines(a + b) =~= listing_lines(a) + listing_lines(b));
    }
}

/// A queue listing of two runs of entries is the listing of the first run
/// followed by the lines of the second.
pub proof fn law_queue_text_of_concatenation(
    bot_name: Seq<char>,
    a: Seq<(nat, Seq<char>, Seq<char>)>,
    b: Seq<(nat, Seq<char>, Seq<char>)>,
)
    ensures
        queue_text(bot_name, a + b) == queue_text(bot_name, a) + listing_lines(b),
        queue_text(bot_name, a) == queue_text(bot_name, Seq::empty()) + listing_lines(a),
{
    law_listing_of_concatenation(a, b);
    assert(listing_lines(Seq::<(nat, Seq<char>, Seq<char>)>::empty()) =~= Seq::<char>::empty());
    assert(queue_text(bot_name, a + b) =~= queue_text(bot_name, a) + listing_lines(b));
    assert(queue_text(bot_name, a) =~= queue_text(bot_name, Seq::empty()) + listing_lines(a));
}

/// The queue listing: a header, then one line per entry.
pub open spec fn queue_text(bot_name: Seq<char>, entries: Seq<(nat, Seq<char>, Seq<char>)>) -> Seq<char> {
    "🎵 "@ + bold(bot_name) + "\n📜 "@ + bold("Queue"@) + "\n"@ + listing_lines(entries)
}

/// The help message.
pub open spec fn help_text(bot_name: Seq<char>) -> Seq<char> {
    "🎵 "@ + bold(bot_name) + "\n📖 "@ + bold("Help"@)
        + "\n/play <song> - "@ + italic("Play a song"@)
        + "\n/skip - "@ + italic("Skip current song"@)
        + "\n/stop - "@ + italic("Stop and leave VC"@)
        + "\n/pause - "@ + italic("Pause playback"@)
        + "\n/resume - "@ + italic("Resume playback"@)
        + "\n/volume <1-200> - "@ + italic("Set volume"@)
        + "\n/queue - "@ + italic("Show queue"@)
        + "\n/nowplaying - "@ + italic("Show current song"@)
        + "\n/help - "@ + italic("Show this message"@)
}

/// An error reply: a cross mark, then the message in bold.
pub open spec fn error_text(msg: Seq<char>) -> Seq<char> {
    "❌ "@ + bold(msg)
}

/// An information reply: a check mark, then the message in bold.
pub open spec fn info_text(msg: Seq<char>) -> Seq<char> {
    "✅ "@ + bold(msg)
}

/// Appends `text` in italics, after `label` in bold and `: `, on a new tree line.
fn push_field(s: &mut String, branch: &str, label: &str, value: &str)
    ensures
        final(s)@ == old(s)@ + branch@ + bold(label@) + ": "@ + italic(value@),
{
    push_str(s, branch);
    push_bold(s, label);
    push_str(s, ": ");
    push_italic(s, value);
    assert(final(s)@ =~= old(s)@ + branch@ + bold(label@) + ": "@ + italic(value@));
}

/// Builds the "now playing" card for a song.
pub fn format_playing_message(
    bot_name: &str,
    song_title: &str,
    artists: &str,
    album: &str,
    duration: u64,
    requested_by: &str,
) -> (r: String)
    ensures
        r@ == playing_text(bot_name@, song_title@, artists@, album@, duration as nat, requested_by@),
{
    let dur = format_duration(duration);
    let mut s = String::new();
    push_str(&mut s, "🎵 ");
    push_bold(&mut s, bot_name);
    push_str(&mut s, "\n🎶 ");
    push_bold(&mut s, "Now Playing");
    push_field(&mut s, "\n├─ ", "Song", song_title);
    push_field(&mut s, "\n├─ ", "Artist", artists);
    push_field(&mut s, "\n├─ ", "Album", album);
    push_field(&mut s, "\n├─ ", "Duration", dur.as_str());
    push_field(&mut s, "\n└─ ", "Requested by", requested_by);
    assert(s@ =~= playing_text(bot_name@, song_title@, artists@, album@, duration as nat, requested_by@));
    s
}

/// Builds the queue listing from `(position, title, artists)` entries.
pub fn format_queue(bot_name: &str, songs: &[(usize, String, String)]) -> (r: String)
    ensures
        r@ == queue_text(bot_name@, listing_view(songs@)),
{
    let mut s = String::new();
    push_str(&mut s, "🎵 ");
    push_bold(&mut s, bot_name);
    push_str(&mut s, "\n📜 ");
    push_bold(&mut s, "Queue");
    push_str(&mut s, "\n");
    let ghost header = s@;
    let mut i: usize = 0;
    while i < songs.len()
        invariant
            i <= songs.len(),
            header == "🎵 "@ + bold(bot_name@) + "\n📜 "@ + bold("Queue"@) + "\n"@,
            s@ == header + listing_lines(listing_view(songs@.take(i as int))),
        decreases songs.len() - i,
    {
        let entry = &songs[i];
        push_decimal(&mut s, entry.0 as u64);
        push_str(&mut s, ". ");
        push_italic(&mut s, entry.1.as_str());
        push_str(&mut s, " - ");
        push_italic(&mut s, entry.2.as_str());
        push_str(&mut s, "\n");
        assert(listing_view(songs@.take(i + 1)).drop_last() =~= listing_view(songs@.take(i as int)));
        assert(listing_view(songs@.take(i + 1)).last() == (songs@[i as int].0 as nat, songs@[i as int].1@, songs@[i as int].2@));
        assert(s@ =~= header + listing_lines(listing_view(songs@.take(i + 1))));
        i = i + 1;
    }
    assert(songs@.take(songs.len() as int) =~= songs@);
    s
}

fn push_help_line(s: &mut String, command: &str, description: &str)
    ensures
        final(s)@ == old(s)@ + command@ + italic(description@),
{
    push_str(s, command);
    push_italic(s, description);
}

/// Builds the help message listing every command.
pub fn format_help(bot_name: &str) -> (r: String)
    ensures
        r@ == help_text(bot_name@),
{
    let mut s = String::new();
    push_str(&mut s, "🎵 ");
    push_bold(&mut s, bot_name);
    push_str(&mut s, "\n📖 ");
    push_bold(&mut s, "Help");
    push_help_line(&mut s, "\n/play <song> - ", "Play a song");
    push_help_line(&mut s, "\n/skip - ", "Skip current song");
    push_help_line(&mut s, "\n/stop - ", "Stop and leave VC");
    push_help_line(&mut s, "\n/pause - ", "Pause playback");
    push_help_line(&mut s, "\n/resume - ", "Resume playback");
    push_help_line(&mut s, "\n/volume <1-200> - ", "Set volume");
    push_help_line(&mut s, "\n/queue - ", "Show queue");
    push_help_line(&mut s, "\n/nowplaying - ", "Show current song");
    push_help_line(&mut s, "\n/help - ", "Show this message");
    assert(s@ =~= help_text(bot_name@));
    s
}

/// Builds an error reply.
pub fn format_simple_error(msg: &str) -> (r: String)
    ensures
        r@ == error_text(msg@),
{
    let mut s = String::new();
    push_str(&mut s, "❌ ");
    push_bold(&mut s, msg);
    assert(s@ =~= error_text(msg@));
    s
}

/// Builds an information reply.
pub fn format_simple_info(msg: &str) -> (r: String)
    ensures
        r@ == info_text(msg@),
{
    let mut s = String::new();
    push_str(&mut s, "✅ ");
    push_bold(&mut s, msg);
    assert(s@ =~= info_text(msg@));
    s
}

/// The card's Duration line shows the minutes and the seconds of the song, each
/// as its own number: the seconds always in exactly two digits, so that no two
/// lengths read alike.
pub proof fn law_card_duration_is_two_digit_seconds(
    bot_name: Seq<char>,
    song_title: Seq<char>,
    artists: Seq<char>,
    album: Seq<char>,
    seconds: u64,
    requested_by: Seq<char>,
)
    ensures
        exists|before: Seq<char>, mm: Seq<char>, ss: Seq<char>, after: Seq<char>|
            {
                &&& playing_text(bot_name, song_title, artists, album, seconds as nat, requested_by)
                    == before + bold("Duration"@) + ": "@ + italic(mm + seq![':'] + ss) + "\n└─ "@ + after
                &&& ss.len() == 2
                &&& mm.len() >= 2
                &&& parsed_u64(ss) == Some(seconds % 60)
                &&& parsed_u64(mm) == Some(seconds / 60)
            },
{
    law_duration_reads_back(seconds);
    let mm = pad2(decimal((seconds / 60) as nat));
    let ss = pad2(decimal((seconds % 60) as nat));
    let before = "🎵 "@ + bold(bot_name) + "\n🎶 "@ + bold("Now Playing"@)
        + "\n├─ "@ + bold("Song"@) + ": "@ + italic(song_title)
        + "\n├─ "@ + bold("Artist"@) + ": "@ + italic(artists)
        + "\n├─ "@ + bold("Album"@) + ": "@ + italic(album)
        + "\n├─ "@;
    let after = bold("Requested by"@) + ": "@ + italic(requested_by);
    assert(playing_text(bot_name, song_title, artists, album, seconds as nat, requested_by)
        =~= before + bold("Duration"@) + ": "@ + italic(mm + seq![':'] + ss) + "\n└─ "@ + after);
}

} // verus!
