use vstd::prelude::*;
use crate::text::push_str;

verus! {

/// How the call library gets its audio.
#[derive(Debug, Clone, Copy, PartialEq, Eq, Structural)]
pub enum InputMode {
    /// The output of a shell command.
    Shell,
}

/// The audio of a stream: raw PCM produced by a shell command.
pub struct AudioStream {
    pub input_mode: InputMode,
    pub input: String,
    pub sample_rate: u32,
    pub bits_per_sample: u8,
    pub channel_count: u8,
}

/// The `ffmpeg` command that turns a media address into 48 kHz stereo 16-bit PCM.
pub open spec fn ffmpeg_command(media_url: Seq<char>) -> Seq<char> {
    "ffmpeg -re -i \""@ + media_url + "\" -f s16le -ac 2 -ar 48000 -acodec pcm_s16le pipe:1"@
}

/// The audio stream of a media address.
pub fn audio_stream(media_url: &str) -> (r: AudioStream)
    ensures
        r.input_mode == InputMode::Shell,
        r.input@ == ffmpeg_command(media_url@),
        r.sample_rate == 48000,
        r.bits_per_sample == 16,
        r.channel_count == 2,
{
    let mut input = String::new();
    push_str(&mut input, "ffmpeg -re -i \"");
    push_str(&mut input, media_url);
    push_str(&mut input, "\" -f s16le -ac 2 -ar 48000 -acodec pcm_s16le pipe:1");
    assert(input@ =~= ffmpeg_command(media_url@));
    AudioStream { input_mode: InputMode::Shell, input, sample_rate: 48000, bits_per_sample: 16, channel_count: 2 }
}

/// A group call, as Telegram identifies it.
#[derive(Debug, Clone, Copy, PartialEq, Eq, Structural)]
pub struct InputGroupCall {
    pub id: i64,
    pub access_hash: i64,
}

/// The group call that a chat's full information names.
#[derive(Debug)]
pub enum GroupCallRef {
    Call(InputGroupCall),
    Slug(String),
}

/// What a chat resolves to.
#[derive(Debug, Clone, Copy, PartialEq, Eq, Structural)]
pub enum PeerKind {
    Chat,
    Channel { channel_id: i64, access_hash: i64 },
    Other,
}

/// The request for a chat's full information.
#[derive(Debug, Clone, Copy, PartialEq, Eq, Structural)]
pub enum FullChatRequest {
    Chat { chat_id: i64 },
    Channel { channel_id: i64, access_hash: i64 },
}

/// An update received after joining a call.
#[derive(Debug)]
pub enum CallUpdate {
    /// The connection parameters of a joined group call.
    GroupCallConnection { params: String },
    Other,
}

/// A batch of updates.
#[derive(Debug)]
pub enum CallUpdates {
    Updates(Vec<CallUpdate>),
    Combined(Vec<CallUpdate>),
    Other,
}

/// Why a voice chat operation failed.
#[derive(Debug, Clone, Copy, PartialEq, Eq, Structural)]
pub enum VoiceError {
    UnsupportedPeer,
    SlugNotSupported,
    NoActiveCall,
    NoGroupCallConnection,
    UnexpectedUpdates,
}

/// The message of each voice chat error.
pub open spec fn voice_error_text(e: VoiceError) -> Seq<char> {
    match e {
        VoiceError::UnsupportedPeer => "Unsupported peer type"@,
        VoiceError::SlugNotSupported => "Group call slug not supported"@,
        VoiceError::NoActiveCall => "No active group call in this chat"@,
        VoiceError::NoGroupCallConnection => "No GroupCallConnection found"@,
        VoiceError::UnexpectedUpdates => "Unexpected updates type"@,
    }
}

impl VoiceError {
    /// The message that explains the error.
    pub fn message(&self) -> (r: &'static str)
        ensures
            r@ == voice_error_text(*self),
    {
        match self {
            VoiceError::UnsupportedPeer => "Unsupported peer type",
            VoiceError::SlugNotSupported => "Group call slug not supported",
            VoiceError::NoActiveCall => "No active group call in this chat",
            VoiceError::NoGroupCallConnection => "No GroupCallConnection found",
            VoiceError::UnexpectedUpdates => "Unexpected updates type",
        }
    }
}

/// The request for the full information of chat `chat_id`, which resolved to `peer`.
pub open spec fn full_chat_request_of(chat_id: i64, peer: PeerKind) -> Result<FullChatRequest, VoiceError> {
    match peer {
        PeerKind::Chat => Ok(FullChatRequest::Chat { chat_id }),
        PeerKind::Channel { channel_id, access_hash } => Ok(FullChatRequest::Channel { channel_id, access_hash }),
        PeerKind::Other => Err(VoiceError::UnsupportedPeer),
    }
}

/// Builds the request for a chat's full information.
pub fn full_chat_request(chat_id: i64, peer: PeerKind) -> (r: Result<FullChatRequest, VoiceError>)
    ensures
        r == full_chat_request_of(chat_id, peer),
{
    match peer {
        PeerKind::Chat => Ok(FullChatRequest::Chat { chat_id }),
        PeerKind::Channel { channel_id, access_hash } => Ok(FullChatRequest::Channel { channel_id, access_hash }),
        PeerKind::Other => Err(VoiceError::UnsupportedPeer),
    }
}

/// The group call that can be joined, given what the chat's full information names.
pub fn active_group_call(call: Option<GroupCallRef>) -> (r: Result<InputGroupCall, VoiceError>)
    ensures
        match call {
            Some(GroupCallRef::Call(c)) => r == Ok::<InputGroupCall, VoiceError>(c),
            Some(GroupCallRef::Slug(_)) => r == Err::<InputGroupCall, VoiceError>(VoiceError::SlugNotSupported),
            None => r == Err::<InputGroupCall, VoiceError>(VoiceError::NoActiveCall),
        },
{
    match call {
        Some(GroupCallRef::Call(c)) => Ok(c),
        Some(GroupCallRef::Slug(_)) => Err(VoiceError::SlugNotSupported),
        None => Err(VoiceError::NoActiveCall),
    }
}

/// The parameters of the first group call connection among `updates`.
pub open spec fn first_connection(updates: Seq<CallUpdate>) -> Option<Seq<char>>
    decreases updates.len(),
{
    if updates.len() == 0 {
        None
    } else {
        match updates[0] {
            CallUpdate::GroupCallConnection { params } => Some(params@),
            CallUpdate::Other => first_connection(updates.drop_first()),
        }
    }
}

/// The answer parameters that joining a call gave back.
pub open spec fn answer_params(updates: CallUpdates) -> Result<Seq<char>, VoiceError> {
    match updates {
        CallUpdates::Updates(list) => match first_connection(list@) {
            Some(p) => Ok(p),
            None => Err(VoiceError::NoGroupCallConnection),
        },
        CallUpdates::Combined(list) => match first_connection(list@) {
            Some(p) => Ok(p),
            None => Err(VoiceError::NoGroupCallConnection),
        },
        CallUpdates::Other => Err(VoiceError::UnexpectedUpdates),
    }
}

proof fn lemma_first_connection_skip(updates: Seq<CallUpdate>, k: int)
    requires
        0 <= k <= updates.len(),
        forall|j: int| 0 <= j < k ==> #[trigger] updates[j] is Other,
    ensures
        first_connection(updates) == first_connection(updates.skip(k)),
    decreases k,
{
    if k > 0 {
        lemma_first_connection_skip(updates.drop_first(), k - 1);
        assert(updates.drop_first().skip(k - 1) =~= updates.skip(k));
    } else {
        assert(updates.skip(0) =~= updates);
    }
}

fn first_connection_params(list: &Vec<CallUpdate>) -> (r: Option<String>)
    ensures
        match first_connection(list@) {
            Some(p) => r matches Some(s) && s@ == p,
            None => r is None,
        },
{
    let mut i: usize = 0;
    while i < list.len()
        invariant
            i <= list.len(),
            forall|j: int| 0 <= j < i ==> #[trigger] list@[j] is Other,
        decreases list.len() - i,
    {
        match &list[i] {
            CallUpdate::GroupCallConnection { params } => {
                proof {
                    lemma_first_connection_skip(list@, i as int);
                    assert(list@.skip(i as int)[0] == list@[i as int]);
                }
                return Some(params.clone());
            },
            CallUpdate::Other => {},
        }
        i = i + 1;
    }
    proof {
        lemma_first_connection_skip(list@, i as int);
    }
    None
}

/// Finds the answer parameters in the updates that joining a call gave back.
pub fn extract_answer_params(updates: &CallUpdates) -> (r: Result<String, VoiceError>)
    ensures
        match answer_params(*updates) {
            Ok(p) => r matches Ok(s) && s@ == p,
            Err(e) => r == Err::<String, VoiceError>(e),
        },
{
    match updates {
        CallUpdates::Updates(list) => match first_connection_params(list) {
            Some(p) => Ok(p),
            None => Err(VoiceError::NoGroupCallConnection),
        },
        CallUpdates::Combined(list) => match first_connection_params(list) {
            Some(p) => Ok(p),
            None => Err(VoiceError::NoGroupCallConnection),
        },
        CallUpdates::Other => Err(VoiceError::UnexpectedUpdates),
    }
}

/// The request that joins a group call as oneself, unmuted, with the offer parameters.
pub struct JoinGroupCall {
    pub call: InputGroupCall,
    pub params: String,
    pub muted: Option<bool>,
    pub video_stopped: Option<bool>,
    pub invite_hash: Option<String>,
}

/// Builds the request that joins a group call.
pub fn join_group_call(call: InputGroupCall, offer_params: String) -> (r: JoinGroupCall)
    ensures
        r.call == call,
        r.params@ == offer_params@,
        r.muted == Some(false),
        r.video_stopped is None,
        r.invite_hash is None,
{
    JoinGroupCall { call, params: offer_params, muted: Some(false), video_stopped: None, invite_hash: None }
}

/// The request that sets one's own volume in a group call, changing nothing else.
#[derive(Debug, Clone, Copy, PartialEq, Eq, Structural)]
pub struct VolumeChange {
    pub call: InputGroupCall,
    pub volume: Option<i32>,
    pub muted: Option<bool>,
    pub raise_hand: Option<bool>,
    pub video_stopped: Option<bool>,
    pub video_paused: Option<bool>,
    pub presentation_paused: Option<bool>,
}

/// Builds the request that sets one's own volume in a group call.
pub fn volume_change(call: InputGroupCall, volume: i32) -> (r: VolumeChange)
    ensures
        r == (VolumeChange {
            call,
            volume: Some(volume),
            muted: None,
            raise_hand: None,
            video_stopped: None,
            video_paused: None,
            presentation_paused: None,
        }),
{
    VolumeChange {
        call,
        volume: Some(volume),
        muted: None,
        raise_hand: None,
        video_stopped: None,
        video_paused: None,
        presentation_paused: None,
    }
}

} // verus!
