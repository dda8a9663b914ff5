use secret_music_bot::jiosaavn::Song;
use secret_music_bot::player::ChatState;
use secret_music_bot::registry::Chats;

fn song(id: &str) -> Song {
    Song {
        id: id.to_string(),
        title: format!("title {id}"),
        artists: "A".to_string(),
        album: "B".to_string(),
        duration: 10,
        thumbnail: String::new(),
        media_url: format!("https://m/{id}"),
    }
}

#[test]
fn unknown_chat_is_taken_new() {
    let mut chats = Chats::new();
    assert!(chats.take(5).is_idle());
}

#[test]
fn put_then_take_gives_the_chat_back() {
    let mut chats = Chats::new();
    let (chat, _) = ChatState::new().play(song("a"));
    chats.put(1, chat);
    let chat = chats.take(1);
    assert_eq!(chat.current.as_ref().map(|s| s.id.as_str()), Some("a"));
    assert!(chats.take(1).is_idle());
}

#[test]
fn idle_chat_is_forgotten() {
    let mut chats = Chats::new();
    let (chat, _) = ChatState::new().play(song("a"));
    chats.put(1, chat);
    chats.put(1, ChatState::new());
    assert!(chats.take(1).is_idle());
}

#[test]
fn other_chats_stay_as_they_were() {
    let mut chats = Chats::new();
    let (a, _) = ChatState::new().play(song("a"));
    let (b, _) = ChatState::new().play(song("b"));
    chats.put(1, a);
    chats.put(2, b);
    let taken = chats.take(1);
    chats.put(1, taken.start_failed());
    let b = chats.take(2);
    assert_eq!(b.current.as_ref().map(|s| s.id.as_str()), Some("b"));
    assert!(chats.take(1).is_idle());
}
