use vstd::prelude::*;
use vstd::utf8::{decode_utf8, encode_utf8, valid_utf8};
use cipher::{BlockDecryptMut, KeyInit};
use crate::numbers::{digit_char, parse_u64, parsed_u64};
use crate::text::{
    chars_of, join, join_strings, occurs_at, push_str, replace_all, replace_str, slice_chars,
    starts_with, str_eq, string_of, trim, trim_bounds,
};

verus! {

/// A song of the catalogue, ready to be played.
#[derive(Debug, Clone)]
pub struct Song {
    pub id: String,
    pub title: String,
    pub artists: String,
    pub album: String,
    pub duration: u64,
    pub thumbnail: String,
    pub media_url: String,
}

/// The characters of each text field of a [`Song`].
pub struct SongView {
    pub id: Seq<char>,
    pub title: Seq<char>,
    pub artists: Seq<char>,
    pub album: Seq<char>,
    pub duration: u64,
    pub thumbnail: Seq<char>,
    pub media_url: Seq<char>,
}

impl View for Song {
    type V = SongView;

    open spec fn view(&self) -> SongView {
        SongView {
            id: self.id@,
            title: self.title@,
            artists: self.artists@,
            album: self.album@,
            duration: self.duration,
            thumbnail: self.thumbnail@,
            media_url: self.media_url@,
        }
    }
}

/// The view of an optional song.
pub open spec fn song_option_view(o: Option<Song>) -> Option<SongView> {
    match o {
        Some(s) => Some(s@),
        None => None,
    }
}

/// A JSON document. Numbers keep their textual form; an object keeps its members
/// in order.
#[derive(Debug)]
pub enum Json {
    Null,
    Bool(bool),
    Number(String),
    Str(String),
    Array(Vec<Json>),
    Object(Vec<(String, Json)>),
}

/// The value of the first member named `key`.
pub open spec fn member_value(members: Seq<(String, Json)>, key: Seq<char>) -> Option<Json>
    decreases members.len(),
{
    if members.len() == 0 {
        None
    } else if members[0].0@ == key {
        Some(members[0].1)
    } else {
        member_value(members.drop_first(), key)
    }
}

/// The member `key` of an object (what `Value::get` gives); `None` for anything else.
pub open spec fn json_get(v: Json, key: Seq<char>) -> Option<Json> {
    match v {
        Json::Object(members) => member_value(members@, key),
        _ => None,
    }
}

/// The characters of a JSON string (what `Value::as_str` gives).
pub open spec fn json_str(v: Json) -> Option<Seq<char>> {
    match v {
        Json::Str(s) => Some(s@),
        _ => None,
    }
}

/// The items of a JSON array (what `Value::as_array` gives).
pub open spec fn json_array(v: Json) -> Option<Seq<Json>> {
    match v {
        Json::Array(items) => Some(items@),
        _ => None,
    }
}

/// The member `key` of `v`, when it is a string.
pub open spec fn field_str(v: Json, key: Seq<char>) -> Option<Seq<char>> {
    match json_get(v, key) {
        Some(x) => json_str(x),
        None => None,
    }
}

/// The characters of `v` when it is a string, else `fallback`.
pub open spec fn str_or(v: Json, fallback: Seq<char>) -> Seq<char> {
    match json_str(v) {
        Some(s) => s,
        None => fallback,
    }
}

proof fn lemma_member_value_skip(members: Seq<(String, Json)>, key: Seq<char>, k: int)
    requires
        0 <= k <= members.len(),
        forall|j: int| 0 <= j < k ==> (#[trigger] members[j]).0@ != key,
    ensures
        member_value(members, key) == member_value(members.skip(k), key),
    decreases k,
{
    if k > 0 {
        lemma_member_value_skip(members.drop_first(), key, k - 1);
        assert(members.drop_first().skip(k - 1) =~= members.skip(k));
    } else {
        assert(members.skip(0) =~= members);
    }
}

/// The member `key` of an object; `None` when `v` is not an object or has no such member.
pub fn get_member<'a>(v: &'a Json, key: &str) -> (r: Option<&'a Json>)
    ensures
        match json_get(*v, key@) {
            Some(x) => r matches Some(y) && *y == x,
            None => r is None,
        },
{
    match v {
        Json::Object(members) => {
            let mut i: usize = 0;
            while i < members.len()
                invariant
                    i <= members.len(),
                    json_get(*v, key@) == member_value(members@, key@),
                    forall|j: int| 0 <= j < i ==> (#[trigger] members@[j]).0@ != key@,
                decreases members.len() - i,
            {
                if str_eq(members[i].0.as_str(), key) {
                    proof {
                        lemma_member_value_skip(members@, key@, i as int);
                        let rest = members@.skip(i as int);
                        assert(rest[0] == members@[i as int]);
                        assert(rest[0].0@ == key@);
                    }
                    return Some(&members[i].1);
                }
                i = i + 1;
            }
            proof {
                lemma_member_value_skip(members@, key@, i as int);
            }
            None
        },
        _ => None,
    }
}

/// The characters of `v` when it is a string.
pub fn as_str(v: &Json) -> (r: Option<&str>)
    ensures
        match json_str(*v) {
            Some(s) => r matches Some(t) && t@ == s,
            None => r is None,
        },
{
    match v {
        Json::Str(s) => Some(s.as_str()),
        _ => None,
    }
}

/// The items of `v` when it is an array.
pub fn as_array(v: &Json) -> (r: Option<&Vec<Json>>)
    ensures
        match json_array(*v) {
            Some(items) => r matches Some(t) && t@ == items,
            None => r is None,
        },
{
    match v {
        Json::Array(items) => Some(items),
        _ => None,
    }
}

/// The member `key` of `v`, as an owned string, when it is a string.
fn field_string(v: &Json, key: &str) -> (r: Option<String>)
    ensures
        match field_str(*v, key@) {
            Some(s) => r matches Some(t) && t@ == s,
            None => r is None,
        },
{
    match get_member(v, key) {
        Some(x) => match as_str(x) {
            Some(s) => Some(s.to_owned()),
            None => None,
        },
        None => None,
    }
}

/// The characters of `v` when it is a string, else those of `fallback`.
fn string_or(v: &Json, fallback: &str) -> (r: String)
    ensures
        r@ == str_or(*v, fallback@),
{
    match as_str(v) {
        Some(s) => s.to_owned(),
        None => fallback.to_owned(),
    }
}

// ---------------------------------------------------------------------------
// Cleaning the response and building the request.

/// The response body without surrounding whitespace and without a leading
/// `})` or `}});` left over from JSONP.
pub open spec fn cleaned_jsonp(resp: Seq<char>) -> Seq<char> {
    let t = trim(resp);
    if starts_with(t, "})"@) {
        t.skip(2)
    } else if starts_with(t, "}});"@) {
        t.skip(4)
    } else {
        t
    }
}

/// Strips whitespace and a leading JSONP remnant from a response body.
pub fn clean_jsonp(resp: &str) -> (r: String)
    ensures
        r@ == cleaned_jsonp(resp@),
{
    let cs = chars_of(resp);
    let (lo, hi) = trim_bounds(&cs);
    let t = slice_chars(&cs, lo, hi);
    let short = chars_of("})");
    let long = chars_of("}});");
    proof {
        reveal_strlit("})");
        reveal_strlit("}});");
        assert(t@.skip(0) =~= t@);
    }
    if occurs_at(&t, 0, &short) {
        let rest = slice_chars(&t, 2, t.len());
        assert(rest@ =~= t@.skip(2));
        string_of(&rest)
    } else if occurs_at(&t, 0, &long) {
        let rest = slice_chars(&t, 4, t.len());
        assert(rest@ =~= t@.skip(4));
        string_of(&rest)
    } else {
        string_of(&t)
    }
}

/// The hexadecimal digit (upper case) of a value below 16.
pub open spec fn hex_digit(d: u8) -> char {
    if d < 10 {
        digit_char(d as int)
    } else if d == 10 {
        'A'
    } else if d == 11 {
        'B'
    } else if d == 12 {
        'C'
    } else if d == 13 {
        'D'
    } else if d == 14 {
        'E'
    } else {
        'F'
    }
}

/// True for the bytes that percent-encoding leaves as they are: ASCII letters,
/// digits, `-`, `.`, `_` and `~`.
pub open spec fn is_unreserved(b: u8) -> bool {
    ||| 0x30 <= b <= 0x39
    ||| 0x41 <= b <= 0x5A
    ||| 0x61 <= b <= 0x7A
    ||| b == 0x2D
    ||| b == 0x2E
    ||| b == 0x5F
    ||| b == 0x7E
}

/// Percent-encoding of bytes: each unreserved byte as its character, any other
/// as `%` and two upper-case hexadecimal digits.
pub open spec fn percent_encoded(bytes: Seq<u8>) -> Seq<char>
    decreases bytes.len(),
{
    if bytes.len() == 0 {
        Seq::empty()
    } else {
        let b = bytes[0];
        let head = if is_unreserved(b) {
            seq![b as char]
        } else {
            seq!['%', hex_digit(b / 16), hex_digit(b % 16)]
        };
        head + percent_encoded(bytes.drop_first())
    }
}

/// Percent-encodes the UTF-8 bytes of `s`.
///
/// Calls `urlencoding::encode`, whose documentation and source percent-encode
/// every byte except ASCII alphanumerics and `-`, `_`, `.`, `~`, with upper-case
/// hexadecimal digits; the contract states exactly that.
#[verifier::external_body]
fn url_encode(s: &str) -> (r: String)
    ensures
        r@ == percent_encoded(encode_utf8(s@)),
{
    urlencoding::encode(s).into_owned()
}

/// The catalogue's search address for a query.
pub open spec fn search_url_text(query: Seq<char>) -> Seq<char> {
    "https://www.jiosaavn.com/api.php?__call=search.getResults&q="@
        + percent_encoded(encode_utf8(query))
        + "&ctx=web6dot0&api_version=4&_format=json"@
}

/// Builds the catalogue's search address for a query.
pub fn search_url(query: &str) -> (r: String)
    ensures
        r@ == search_url_text(query@),
{
    let encoded = url_encode(query);
    let mut s = String::new();
    push_str(&mut s, "https://www.jiosaavn.com/api.php?__call=search.getResults&q=");
    push_str(&mut s, encoded.as_str());
    push_str(&mut s, "&ctx=web6dot0&api_version=4&_format=json");
    assert(s@ =~= search_url_text(query@));
    s
}

// ---------------------------------------------------------------------------
// Decrypting media addresses.

/// What standard Base64 decoding (`base64::decode`) gives for a text, when it succeeds.
pub uninterp spec fn base64_standard_decoded(text: Seq<char>) -> Option<Seq<u8>>;

/// What DES in ECB mode with PKCS#7 padding decrypts, under a key, when it succeeds.
pub uninterp spec fn des_ecb_pkcs7_decrypted(key: Seq<u8>, ciphertext: Seq<u8>) -> Option<Seq<u8>>;

#[verifier::external_type_specification]
#[verifier::external_body]
pub struct ExDecodeError(base64::DecodeError);

#[verifier::external_type_specification]
#[verifier::external_body]
pub struct ExUnpadError(cipher::block_padding::UnpadError);

/// Decodes standard Base64.
///
/// Calls `base64::decode` (the standard engine); the contract claims only that
/// it succeeds exactly when the named result is defined, and gives that result.
#[verifier::external_body]
fn base64_decode(text: &str) -> (r: Result<Vec<u8>, base64::DecodeError>)
    ensures
        r is Ok <==> base64_standard_decoded(text@) is Some,
        r matches Ok(bytes) ==> base64_standard_decoded(text@) == Some(bytes@),
{
    #[allow(deprecated)]
    base64::decode(text)
}

/// Decrypts DES-ECB with PKCS#7 padding under an 8-byte key.
///
/// Calls `decrypt_padded_vec_mut::<Pkcs7>` of `ecb::Decryptor<des::Des>`. The
/// contract names its result, and claims what the `cipher` documentation states:
/// it fails when the input length is not a multiple of the 8-byte block.
#[verifier::external_body]
fn des_ecb_decrypt(key: &[u8], ciphertext: &[u8]) -> (r: Result<Vec<u8>, cipher::block_padding::UnpadError>)
    requires
        key@.len() == 8,
    ensures
        r is Ok <==> des_ecb_pkcs7_decrypted(key@, ciphertext@) is Some,
        r matches Ok(bytes) ==> des_ecb_pkcs7_decrypted(key@, ciphertext@) == Some(bytes@),
        r is Ok ==> ciphertext@.len() % 8 == 0,
{
    let decryptor = ecb::Decryptor::<des::Des>::new(cipher::generic_array::GenericArray::from_slice(key));
    decryptor.decrypt_padded_vec_mut::<cipher::block_padding::Pkcs7>(ciphertext)
}

/// Reads bytes as UTF-8 text.
///
/// Calls `String::from_utf8`, documented to fail exactly when the bytes are not
/// valid UTF-8; the contract claims that, and that the text is their decoding.
#[verifier::external_body]
fn utf8_string(bytes: Vec<u8>) -> (r: Option<String>)
    ensures
        r is Some <==> valid_utf8(bytes@),
        r matches Some(s) ==> s@ == decode_utf8(bytes@),
{
    String::from_utf8(bytes).ok()
}

/// The DES key of the catalogue's media addresses: the ASCII text `38346591`.
pub open spec fn des_key() -> Seq<u8> {
    seq![0x33u8, 0x38u8, 0x33u8, 0x34u8, 0x36u8, 0x35u8, 0x39u8, 0x31u8]
}

/// Why a media address could not be decrypted.
#[derive(Debug, Clone, Copy, PartialEq, Eq, Structural)]
pub enum DecryptError {
    Base64,
    Decryption,
    Utf8,
}

/// The text that DES-ECB under [`des_key`] recovers from a ciphertext.
pub open spec fn decrypted_text(ciphertext: Seq<u8>) -> Result<Seq<char>, DecryptError> {
    match des_ecb_pkcs7_decrypted(des_key(), ciphertext) {
        None => Err(DecryptError::Decryption),
        Some(plain) => if valid_utf8(plain) {
            Ok(decode_utf8(plain))
        } else {
            Err(DecryptError::Utf8)
        },
    }
}

/// The media address hidden in an encrypted one: Base64, then DES-ECB under
/// [`des_key`], then UTF-8.
pub open spec fn decrypted_url(encrypted: Seq<char>) -> Result<Seq<char>, DecryptError> {
    match base64_standard_decoded(encrypted) {
        None => Err(DecryptError::Base64),
        Some(ciphertext) => decrypted_text(ciphertext),
    }
}

/// Decrypts a ciphertext under the catalogue's key and reads it as UTF-8.
pub fn decrypt_ciphertext(ciphertext: &[u8]) -> (r: Result<String, DecryptError>)
    ensures
        match r {
            Ok(s) => decrypted_text(ciphertext@) == Ok::<Seq<char>, DecryptError>(s@),
            Err(e) => decrypted_text(ciphertext@) == Err::<Seq<char>, DecryptError>(e),
        },
{
    let key: Vec<u8> = vec![0x33u8, 0x38u8, 0x33u8, 0x34u8, 0x36u8, 0x35u8, 0x39u8, 0x31u8];
    assert(key@ =~= des_key());
    let plain = match des_ecb_decrypt(key.as_slice(), ciphertext) {
        Ok(bytes) => bytes,
        Err(_) => return Err(DecryptError::Decryption),
    };
    match utf8_string(plain) {
        Some(s) => Ok(s),
        None => Err(DecryptError::Utf8),
    }
}

/// Decrypts an encrypted media address.
pub fn decrypt_url(encrypted: &str) -> (r: Result<String, DecryptError>)
    ensures
        match r {
            Ok(s) => decrypted_url(encrypted@) == Ok::<Seq<char>, DecryptError>(s@),
            Err(e) => decrypted_url(encrypted@) == Err::<Seq<char>, DecryptError>(e),
        },
{
    match base64_decode(encrypted) {
        Ok(ciphertext) => decrypt_ciphertext(ciphertext.as_slice()),
        Err(_) => Err(DecryptError::Base64),
    }
}

/// The 320 kbps address of a media address: every `_96` becomes `_320`.
pub open spec fn upgraded_url(url: Seq<char>) -> Seq<char> {
    replace_all(url, "_96"@, "_320"@)
}

/// Asks for the 320 kbps stream of a media address.
pub fn upgrade_media_url(url: &str) -> (r: String)
    ensures
        r@ == upgraded_url(url@),
{
    replace_str(url, "_96", "_320")
}

/// True when `u` holds no `_96`.
pub open spec fn has_no_96(u: Seq<char>) -> bool {
    forall|i: int| 0 <= i && i + 2 < u.len() ==> !(#[trigger] u[i] == '_' && u[i + 1] == '9' && u[i + 2] == '6')
}

proof fn lemma_replace_head(s: Seq<char>, f: Seq<char>, t: Seq<char>)
    requires
        f == seq!['_', '9', '6'],
        t == seq!['_', '3', '2', '0'],
        replace_all(s, f, t).len() > 0,
        replace_all(s, f, t)[0] != '_',
    ensures
        s.len() > 0,
        !starts_with(s, f),
        replace_all(s, f, t)[0] == s[0],
        replace_all(s, f, t).drop_first() == replace_all(s.drop_first(), f, t),
{
    if s.len() > 0 && starts_with(s, f) {
        assert(replace_all(s, f, t)[0] == t[0]);
    }
    assert(replace_all(s, f, t).drop_first() =~= replace_all(s.drop_first(), f, t));
}

proof fn lemma_replace_has_no_96(s: Seq<char>, f: Seq<char>, t: Seq<char>)
    requires
        f == seq!['_', '9', '6'],
        t == seq!['_', '3', '2', '0'],
    ensures
        has_no_96(replace_all(s, f, t)),
    decreases s.len(),
{
    let u = replace_all(s, f, t);
    if s.len() == 0 {
    } else if starts_with(s, f) {
        let rest = s.skip(3);
        lemma_replace_has_no_96(rest, f, t);
        let r = replace_all(rest, f, t);
        assert(u == t + r);
        assert forall|i: int| 0 <= i && i + 2 < u.len() implies !(#[trigger] u[i] == '_' && u[i + 1] == '9' && u[i + 2] == '6') by {
            if i >= 4 {
                assert(u[i] == r[i - 4]);
                assert(u[i + 1] == r[i - 3]);
                assert(u[i + 2] == r[i - 2]);
            }
        }
    } else {
        let rest = s.drop_first();
        lemma_replace_has_no_96(rest, f, t);
        let r = replace_all(rest, f, t);
        assert(u == seq![s[0]] + r);
        assert forall|i: int| 0 <= i && i + 2 < u.len() implies !(#[trigger] u[i] == '_' && u[i + 1] == '9' && u[i + 2] == '6') by {
            if i >= 1 {
                assert(u[i] == r[i - 1]);
                assert(u[i + 1] == r[i]);
                assert(u[i + 2] == r[i + 1]);
            } else if u[0] == '_' && u[1] == '9' && u[2] == '6' {
                lemma_replace_head(rest, f, t);
                lemma_replace_head(rest.drop_first(), f, t);
                assert(s.take(3) =~= f);
            }
        }
    }
}

/// An address asked for at 320 kbps holds no `_96` any more.
pub proof fn law_upgraded_url_has_no_96(url: Seq<char>)
    ensures
        has_no_96(upgraded_url(url)),
{
    reveal_strlit("_96");
    reveal_strlit("_320");
    assert("_96"@ =~= seq!['_', '9', '6']);
    assert("_320"@ =~= seq!['_', '3', '2', '0']);
    lemma_replace_has_no_96(url, "_96"@, "_320"@);
}

/// The playable address of an encrypted media address, when it decrypts.
pub open spec fn media_url(encrypted: Seq<char>) -> Option<Seq<char>> {
    match decrypted_url(encrypted) {
        Ok(url) => Some(upgraded_url(url)),
        Err(_) => None,
    }
}

// ---------------------------------------------------------------------------
// Reading songs out of a search response.

/// The names of the artists, in order, of those entries that have a string `name`.
pub open spec fn artist_names(entries: Seq<Json>) -> Seq<Seq<char>>
    decreases entries.len(),
{
    if entries.len() == 0 {
        Seq::empty()
    } else {
        let rest = artist_names(entries.drop_last());
        match field_str(entries.last(), "name"@) {
            Some(name) => rest.push(name),
            None => rest,
        }
    }
}

/// The artist line of a song: the names joined by `, `, or `Unknown` when there is none.
pub open spec fn artists_text(entries: Seq<Json>) -> Seq<char> {
    let names = artist_names(entries);
    if names.len() == 0 {
        "Unknown"@
    } else {
        join(names, ", "@)
    }
}

/// The primary artist entries of a song's `more_info`.
pub open spec fn primary_artists(more_info: Json) -> Option<Seq<Json>> {
    match json_get(more_info, "artistMap"@) {
        Some(artist_map) => match json_get(artist_map, "primary_artists"@) {
            Some(primary) => json_array(primary),
            None => None,
        },
        None => None,
    }
}

/// The duration in seconds written in `text`, or 0 when it is not a `u64`.
pub open spec fn duration_value(text: Seq<char>) -> u64 {
    match parsed_u64(text) {
        Some(d) => d,
        None => 0,
    }
}

/// The song that a search result describes, when every required field is there
/// and the media address decrypts.
pub open spec fn parsed_song(item: Json) -> Option<SongView> {
    match (field_str(item, "id"@), field_str(item, "title"@), json_get(item, "more_info"@)) {
        (Some(id), Some(title), Some(more_info)) => match (
            json_get(more_info, "album"@),
            field_str(more_info, "duration"@),
            field_str(more_info, "encrypted_media_url"@),
            json_get(item, "image"@),
        ) {
            (Some(album), Some(duration), Some(encrypted), Some(image)) => match (
                media_url(encrypted),
                primary_artists(more_info),
            ) {
                (Some(url), Some(artists)) => Some(SongView {
                    id: id,
                    title: title,
                    artists: artists_text(artists),
                    album: str_or(album, "Unknown"@),
                    duration: duration_value(duration),
                    thumbnail: str_or(image, Seq::empty()),
                    media_url: url,
                }),
                _ => None,
            },
            _ => None,
        },
        _ => None,
    }
}

/// Builds the artist line from the primary artist entries.
fn artists_line(entries: &Vec<Json>) -> (r: String)
    ensures
        r@ == artists_text(entries@),
{
    let mut names: Vec<String> = Vec::new();
    let mut i: usize = 0;
    while i < entries.len()
        invariant
            i <= entries.len(),
            names@.map_values(|p: String| p@) == artist_names(entries@.take(i as int)),
        decreases entries.len() - i,
    {
        let ghost before = names@;
        match field_string(&entries[i], "name") {
            Some(name) => {
                names.push(name);
            },
            None => {},
        }
        assert(entries@.take(i + 1).drop_last() =~= entries@.take(i as int));
        assert(names@.map_values(|p: String| p@) =~= artist_names(entries@.take(i + 1)));
        i = i + 1;
    }
    assert(entries@.take(entries.len() as int) =~= entries@);
    if names.len() == 0 {
        "Unknown".to_owned()
    } else {
        join_strings(&names, ", ")
    }
}

/// Reads a song out of one search result.
pub fn parse_song(item: &Json) -> (r: Option<Song>)
    ensures
        song_option_view(r) == parsed_song(*item),
{
    let id = match field_string(item, "id") {
        Some(s) => s,
        None => return None,
    };
    let title = match field_string(item, "title") {
        Some(s) => s,
        None => return None,
    };
    let more_info = match get_member(item, "more_info") {
        Some(m) => m,
        None => return None,
    };
    let album = match get_member(more_info, "album") {
        Some(a) => string_or(a, "Unknown"),
        None => return None,
    };
    let duration_text = match field_string(more_info, "duration") {
        Some(s) => s,
        None => return None,
    };
    let duration: u64 = match parse_u64(duration_text.as_str()) {
        Some(d) => d,
        None => 0,
    };
    let encrypted = match field_string(more_info, "encrypted_media_url") {
        Some(s) => s,
        None => return None,
    };
    let thumbnail = match get_member(item, "image") {
        Some(t) => string_or(t, ""),
        None => return None,
    };
    proof {
        reveal_strlit("");
        assert(""@ =~= Seq::<char>::empty());
    }
    assert(thumbnail@ == str_or(json_get(*item, "image"@)->0, Seq::empty()));
    let plain_url = match decrypt_url(encrypted.as_str()) {
        Ok(u) => u,
        Err(_) => return None,
    };
    let media = upgrade_media_url(plain_url.as_str());
    let artist_map = match get_member(more_info, "artistMap") {
        Some(m) => m,
        None => return None,
    };
    let primary = match get_member(artist_map, "primary_artists") {
        Some(p) => match as_array(p) {
            Some(items) => items,
            None => return None,
        },
        None => return None,
    };
    let artists = artists_line(primary);
    Some(Song {
        id: id,
        title: title,
        artists: artists,
        album: album,
        duration: duration,
        thumbnail: thumbnail,
        media_url: media,
    })
}

/// The search results of a response: the array `results`, or none.
pub open spec fn result_items(data: Json) -> Seq<Json> {
    match json_get(data, "results"@) {
        Some(results) => match json_array(results) {
            Some(items) => items,
            None => Seq::empty(),
        },
        None => Seq::empty(),
    }
}

/// The songs read out of results, in order, skipping those that do not parse.
pub open spec fn parsed_songs(items: Seq<Json>) -> Seq<SongView>
    decreases items.len(),
{
    if items.len() == 0 {
        Seq::empty()
    } else {
        let rest = parsed_songs(items.drop_last());
        match parsed_song(items.last()) {
            Some(song) => rest.push(song),
            None => rest,
        }
    }
}

/// How many search results are looked at.
pub open spec fn max_results() -> nat {
    10
}

/// The songs of a search response: those of its first ten results that parse.
pub open spec fn search_results(data: Json) -> Seq<SongView> {
    let items = result_items(data);
    parsed_songs(if items.len() <= max_results() { items } else { items.take(max_results() as int) })
}

/// Reads the songs out of a parsed search response.
pub fn songs_from_response(data: &Json) -> (r: Vec<Song>)
    ensures
        r@.map_values(|s: Song| s@) == search_results(*data),
{
    let empty: Vec<Json> = Vec::new();
    let items: &Vec<Json> = match get_member(data, "results") {
        Some(results) => match as_array(results) {
            Some(items) => items,
            None => &empty,
        },
        None => &empty,
    };
    let ghost all = result_items(*data);
    assert(items@ == all);
    let n: usize = if items.len() <= 10 { items.len() } else { 10 };
    let ghost looked = if all.len() <= max_results() { all } else { all.take(max_results() as int) };
    assert(looked =~= all.take(n as int));
    let mut songs: Vec<Song> = Vec::new();
    let mut i: usize = 0;
    while i < n
        invariant
            i <= n,
            n <= items.len(),
            items@ == all,
            songs@.map_values(|s: Song| s@) == parsed_songs(all.take(i as int)),
        decreases n - i,
    {
        match parse_song(&items[i]) {
            Some(song) => {
                songs.push(song);
            },
            None => {},
        }
        assert(all.take(i + 1).drop_last() =~= all.take(i as int));
        assert(songs@.map_values(|s: Song| s@) =~= parsed_songs(all.take(i + 1)));
        i = i + 1;
    }
    songs
}

// ---------------------------------------------------------------------------
// Reading a response body.

#[verifier::external_type_specification]
#[verifier::external_body]
pub struct ExJsonValue(serde_json::Value);

/// The JSON document that `serde_json::from_str::<serde_json::Value>` reads from a
/// text, taken member for member into [`Json`]; `None` when the text is not JSON.
pub uninterp spec fn parsed_json(text: Seq<char>) -> Option<Json>;

/// Takes a `serde_json::Value` into [`Json`], variant for variant: numbers by
/// their `to_string` text, arrays item by item, objects member by member in the
/// map's order. It is the conversion half of [`parse_json`] and claims nothing
/// by itself.
#[verifier::external_body]
fn json_of_value(v: serde_json::Value) -> Json {
    match v {
        serde_json::Value::Null => Json::Null,
        serde_json::Value::Bool(b) => Json::Bool(b),
        serde_json::Value::Number(n) => Json::Number(n.to_string()),
        serde_json::Value::String(s) => Json::Str(s),
        serde_json::Value::Array(items) => Json::Array(items.into_iter().map(json_of_value).collect()),
        serde_json::Value::Object(members) => {
            Json::Object(members.into_iter().map(|(k, v)| (k, json_of_value(v))).collect())
        },
    }
}

/// Parses JSON text.
///
/// Calls `serde_json::from_str::<serde_json::Value>`. The contract names its
/// result: the same text always gives the same document (the member order of a
/// `serde_json` map depends on the text alone), and `None` stands for a parse
/// error.
#[verifier::external_body]
fn parse_json(text: &str) -> (r: Option<Json>)
    ensures
        r == parsed_json(text@),
{
    serde_json::from_str::<serde_json::Value>(text).ok().map(json_of_value)
}

/// The songs of a search response body: `None` when the body, once cleaned of
/// its JSONP remnant, is not JSON; otherwise the songs of its first ten results.
pub open spec fn body_songs(body: Seq<char>) -> Option<Seq<SongView>> {
    match parsed_json(cleaned_jsonp(body)) {
        Some(data) => Some(search_results(data)),
        None => None,
    }
}

/// Reads the songs out of a search response body.
pub fn songs_of_body(body: &str) -> (r: Option<Vec<Song>>)
    ensures
        match body_songs(body@) {
            Some(songs) => r matches Some(v) && v@.map_values(|s: Song| s@) == songs,
            None => r is None,
        },
{
    let cleaned = clean_jsonp(body);
    match parse_json(cleaned.as_str()) {
        Some(data) => Some(songs_from_response(&data)),
        None => None,
    }
}

/// The artist line names every artist that has a string name, in order,
/// separated by `, `; it is `Unknown` only when none has one.
pub proof fn law_artist_line_names_every_artist(entries: Seq<Json>)
    ensures
        artist_names(entries).len() > 0 ==> artists_text(entries) == join(artist_names(entries), ", "@),
        artist_names(entries).len() == 0 ==> artists_text(entries) == "Unknown"@,
{
}

/// One more artist entry with a name adds `, ` and that name to the end of the
/// artist line (or makes the line that name, when it was the first named one);
/// an entry without a string name changes nothing.
pub proof fn law_artist_line_grows_by_one_name(entries: Seq<Json>, entry: Json)
    ensures
        match field_str(entry, "name"@) {
            Some(name) => artists_text(entries.push(entry)) == (if artist_names(entries).len() == 0 {
                name
            } else {
                artists_text(entries) + ", "@ + name
            }),
            None => artists_text(entries.push(entry)) == artists_text(entries),
        },
{
    assert(entries.push(entry).drop_last() =~= entries);
    let names = artist_names(entries);
    match field_str(entry, "name"@) {
        Some(name) => {
            let more = names.push(name);
            assert(more.drop_last() =~= names);
            if names.len() == 0 {
                assert(more.len() == 1);
            } else {
                assert(join(more, ", "@) == join(names, ", "@) + ", "@ + name);
            }
        },
        None => {},
    }
}

} // verus!
