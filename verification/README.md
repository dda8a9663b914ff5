# secret_music_bot

A Telegram music bot that plays songs from the JioSaavn catalogue in group
voice chats. The decisions of the bot live in a library whose behaviour is
stated in Verus contracts and proved; a thin program around it talks to
Telegram, the catalogue, the database and the call library.

## Layout

- `src/` — the verified library
  - `text.rs`: characters, trimming, splitting, replacing and joining text
  - `numbers.rs`: decimal rendering and integer parsing as `str::parse` does it
  - `utils.rs`: bold and italic styling, durations, and the message cards
  - `config.rs`: the settings read from environment variables
  - `jiosaavn.rs`: the search address, the response, songs, and media address decryption
  - `player.rs`: the state of a chat (playing song, queue, voice chat) and its transitions
  - `bot.rs`: command arguments and every reply the bot sends
  - `registry.rs`: the chats with something going on, kept in a concurrent map
  - `session.rs`: each command and event as a step from a chat's state to its
    next state and the list of things to do, in order
  - `voice_chat.rs`: the audio stream, group call lookup, and join/volume requests
- `tests/` — tests of the library
- `app/` — the program: Telegram updates, HTTP, MongoDB, the call library;
  it runs the steps of `session.rs` and does what they list
