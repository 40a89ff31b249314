//! The persisted layout of a state: a discriminator byte, then the fields
//! of the variant. A text is a field's UTF-8 bytes up to the end.

use crate::profile::{Language, LastFlag, Mode, User, UserView};
use crate::render::state_view;
use crate::state::{State, StateView};
use vstd::bytes::{
    lemma_auto_spec_u32_to_from_le_bytes, spec_u32_from_le_bytes, spec_u32_to_le_bytes,
    u32_from_le_bytes, u32_to_le_bytes,
};
use vstd::prelude::*;
use vstd::slice::{slice_subrange, slice_to_vec};
use vstd::string::*;
use vstd::utf8::{
    decode_utf8, decode_utf8_encode_utf8, encode_utf8, encode_utf8_decode_utf8,
    encode_utf8_valid_utf8, valid_utf8,
};

verus! {

pub open spec fn flag_byte(flag: bool) -> u8 {
    if flag {
        1
    } else {
        0
    }
}

pub open spec fn byte_flag(byte: u8) -> Option<bool> {
    if byte == 0 {
        Some(false)
    } else if byte == 1 {
        Some(true)
    } else {
        None
    }
}

pub open spec fn language_byte(lang: Language) -> u8 {
    match lang {
        Language::EN => 0,
        Language::UA => 1,
    }
}

pub open spec fn byte_language(byte: u8) -> Option<Language> {
    if byte == 0 {
        Some(Language::EN)
    } else if byte == 1 {
        Some(Language::UA)
    } else {
        None
    }
}

pub open spec fn mode_byte(mode: Option<Mode>) -> u8 {
    match mode {
        None => 0,
        Some(Mode::Obimy) => 1,
        Some(Mode::Spotify) => 2,
        Some(Mode::Dungeons) => 3,
    }
}

pub open spec fn byte_mode(byte: u8) -> Option<Option<Mode>> {
    if byte == 0 {
        Some(None)
    } else if byte == 1 {
        Some(Some(Mode::Obimy))
    } else if byte == 2 {
        Some(Some(Mode::Spotify))
    } else if byte == 3 {
        Some(Some(Mode::Dungeons))
    } else {
        None
    }
}

/// The four bytes of a message id: the id moved up by 2^31, as an
/// unsigned number, low byte first.
pub open spec fn id_bytes(id: i32) -> Seq<u8> {
    spec_u32_to_le_bytes((id + 0x8000_0000) as u32)
}

/// The message id that four bytes stand for.
pub open spec fn bytes_id(bytes: Seq<u8>) -> i32 {
    (spec_u32_from_le_bytes(bytes) - 0x8000_0000) as i32
}

/// The bytes that a state is stored as.
pub open spec fn encoding(state: StateView) -> Seq<u8> {
    match state {
        StateView::Start => seq![0u8],
        StateView::Language(last) => seq![1u8, flag_byte(last.0)],
        StateView::ReceiveName(lang, msg_id) => seq![2u8, language_byte(lang)] + id_bytes(msg_id),
        StateView::ConfirmName { lang, name, msg_id } => seq![3u8, language_byte(lang)] + id_bytes(
            msg_id,
        ) + encode_utf8(name),
        StateView::ReceiveMode { user, last } => seq![
            4u8,
            flag_byte(last.0),
            language_byte(user.lang),
            mode_byte(user.mode),
        ] + encode_utf8(user.name),
        StateView::SelectedMode { user } => seq![
            5u8,
            language_byte(user.lang),
            mode_byte(user.mode),
        ] + encode_utf8(user.name),
    }
}

/// The profile that bytes stand for: a language, a mode, then the name.
pub open spec fn decoded_user(lang: u8, mode: u8, name: Seq<u8>) -> Option<UserView> {
    if byte_language(lang) is Some && byte_mode(mode) is Some && valid_utf8(name) {
        Some(
            UserView { name: decode_utf8(name), lang: byte_language(lang)->0, mode: byte_mode(mode)->0 },
        )
    } else {
        None
    }
}

/// The state that bytes stand for; `None` where they are no state's bytes.
pub open spec fn decoding(bytes: Seq<u8>) -> Option<StateView> {
    let len = bytes.len() as int;
    if len == 0 {
        None
    } else if bytes[0] == 0 {
        if len == 1 {
            Some(StateView::Start)
        } else {
            None
        }
    } else if bytes[0] == 1 {
        if len == 2 && byte_flag(bytes[1]) is Some {
            Some(StateView::Language(LastFlag(byte_flag(bytes[1])->0)))
        } else {
            None
        }
    } else if bytes[0] == 2 {
        if len == 6 && byte_language(bytes[1]) is Some {
            Some(StateView::ReceiveName(byte_language(bytes[1])->0, bytes_id(bytes.subrange(2, 6))))
        } else {
            None
        }
    } else if bytes[0] == 3 {
        if len >= 6 && byte_language(bytes[1]) is Some && valid_utf8(bytes.subrange(6, len)) {
            Some(
                StateView::ConfirmName {
                    lang: byte_language(bytes[1])->0,
                    name: decode_utf8(bytes.subrange(6, len)),
                    msg_id: bytes_id(bytes.subrange(2, 6)),
                },
            )
        } else {
            None
        }
    } else if bytes[0] == 4 {
        if len >= 4 && byte_flag(bytes[1]) is Some && decoded_user(
            bytes[2],
            bytes[3],
            bytes.subrange(4, len),
        ) is Some {
            Some(
                StateView::ReceiveMode {
                    user: decoded_user(bytes[2], bytes[3], bytes.subrange(4, len))->0,
                    last: LastFlag(byte_flag(bytes[1])->0),
                },
            )
        } else {
            None
        }
    } else if bytes[0] == 5 {
        if len >= 3 && decoded_user(bytes[1], bytes[2], bytes.subrange(3, len)) is Some {
            Some(
                StateView::SelectedMode {
                    user: decoded_user(bytes[1], bytes[2], bytes.subrange(3, len))->0,
                },
            )
        } else {
            None
        }
    } else {
        None
    }
}

/// A state read back from its bytes is the state that was written.
pub proof fn law_round_trip(state: StateView)
    ensures
        decoding(encoding(state)) == Some(state),
{
    lemma_auto_spec_u32_to_from_le_bytes();
    let bytes = encoding(state);
    let len = bytes.len() as int;
    match state {
        StateView::Start => {},
        StateView::Language(last) => {},
        StateView::ReceiveName(lang, msg_id) => {
            assert(bytes.subrange(2, 6) =~= id_bytes(msg_id));
        },
        StateView::ConfirmName { lang, name, msg_id } => {
            assert(bytes.subrange(2, 6) =~= id_bytes(msg_id));
            assert(bytes.subrange(6, len) =~= encode_utf8(name));
            encode_utf8_valid_utf8(name);
            encode_utf8_decode_utf8(name);
        },
        StateView::ReceiveMode { user, last } => {
            assert(bytes.subrange(4, len) =~= encode_utf8(user.name));
            encode_utf8_valid_utf8(user.name);
            encode_utf8_decode_utf8(user.name);
        },
        StateView::SelectedMode { user } => {
            assert(bytes.subrange(3, len) =~= encode_utf8(user.name));
            encode_utf8_valid_utf8(user.name);
            encode_utf8_decode_utf8(user.name);
        },
    }
}

/// Bytes that are read as a state are the bytes of that state: nothing
/// but what `encoding` writes is accepted.
pub proof fn law_only_encodings_decode(bytes: Seq<u8>)
    requires
        decoding(bytes) is Some,
    ensures
        encoding(decoding(bytes)->0) == bytes,
{
    lemma_auto_spec_u32_to_from_le_bytes();
    let len = bytes.len() as int;
    let state = decoding(bytes)->0;
    match state {
        StateView::Start => {
            assert(encoding(state) =~= bytes);
        },
        StateView::Language(last) => {
            assert(encoding(state) =~= bytes);
        },
        StateView::ReceiveName(lang, msg_id) => {
            let four = bytes.subrange(2, 6);
            assert(id_bytes(msg_id) == four);
            assert(encoding(state) =~= bytes);
        },
        StateView::ConfirmName { lang, name, msg_id } => {
            let four = bytes.subrange(2, 6);
            assert(id_bytes(msg_id) == four);
            decode_utf8_encode_utf8(bytes.subrange(6, len));
            assert(encoding(state) =~= bytes);
        },
        StateView::ReceiveMode { user, last } => {
            decode_utf8_encode_utf8(bytes.subrange(4, len));
            assert(encoding(state) =~= bytes);
        },
        StateView::SelectedMode { user } => {
            decode_utf8_encode_utf8(bytes.subrange(3, len));
            assert(encoding(state) =~= bytes);
        },
    }
}

fn language_to_byte(lang: Language) -> (byte: u8)
    ensures
        byte == language_byte(lang),
{
    match lang {
        Language::EN => 0,
        Language::UA => 1,
    }
}

fn mode_to_byte(mode: Option<Mode>) -> (byte: u8)
    ensures
        byte == mode_byte(mode),
{
    match mode {
        None => 0,
        Some(Mode::Obimy) => 1,
        Some(Mode::Spotify) => 2,
        Some(Mode::Dungeons) => 3,
    }
}

fn push_id(out: &mut Vec<u8>, id: i32)
    ensures
        final(out)@ == old(out)@ + id_bytes(id),
{
    let moved: u32 = (id as i64 + 0x8000_0000) as u32;
    let mut four = u32_to_le_bytes(moved);
    out.append(&mut four);
}

fn push_text(out: &mut Vec<u8>, text: &str)
    ensures
        final(out)@ == old(out)@ + encode_utf8(text@),
{
    let mut bytes = text.as_bytes_vec();
    out.append(&mut bytes);
}

/// The bytes to store for a state.
pub fn encode(state: &State) -> (bytes: Vec<u8>)
    ensures
        bytes@ == encoding(state@),
{
    let mut out: Vec<u8> = Vec::new();
    match state {
        State::Start => {
            out.push(0);
        },
        State::Language(last) => {
            out.push(1);
            out.push(if last.0 { 1 } else { 0 });
        },
        State::ReceiveName(lang, msg_id) => {
            out.push(2);
            out.push(language_to_byte(*lang));
            push_id(&mut out, *msg_id);
        },
        State::ConfirmName { lang, name, msg_id } => {
            out.push(3);
            out.push(language_to_byte(*lang));
            push_id(&mut out, *msg_id);
            push_text(&mut out, name.as_str());
        },
        State::ReceiveMode { user, last } => {
            out.push(4);
            out.push(if last.0 { 1 } else { 0 });
            out.push(language_to_byte(user.lang));
            out.push(mode_to_byte(user.mode));
            push_text(&mut out, user.name.as_str());
        },
        State::SelectedMode { user } => {
            out.push(5);
            out.push(language_to_byte(user.lang));
            out.push(mode_to_byte(user.mode));
            push_text(&mut out, user.name.as_str());
        },
    }
    assert(out@ =~= encoding(state@));
    out
}

/// Builds a string from bytes with std's `String::from_utf8`. Trusted: it
/// succeeds exactly on valid UTF-8, and the string then holds the
/// characters that the bytes encode.
#[verifier::external_body]
fn string_from_utf8(bytes: Vec<u8>) -> (text: Option<String>)
    ensures
        text is Some <==> valid_utf8(bytes@),
        text matches Some(t) ==> t@ == decode_utf8(bytes@),
{
    String::from_utf8(bytes).ok()
}

fn byte_to_flag(byte: u8) -> (flag: Option<bool>)
    ensures
        flag == byte_flag(byte),
{
    if byte == 0 {
        Some(false)
    } else if byte == 1 {
        Some(true)
    } else {
        None
    }
}

fn byte_to_language(byte: u8) -> (lang: Option<Language>)
    ensures
        lang == byte_language(byte),
{
    if byte == 0 {
        Some(Language::EN)
    } else if byte == 1 {
        Some(Language::UA)
    } else {
        None
    }
}

fn byte_to_mode(byte: u8) -> (mode: Option<Option<Mode>>)
    ensures
        mode == byte_mode(byte),
{
    if byte == 0 {
        Some(None)
    } else if byte == 1 {
        Some(Some(Mode::Obimy))
    } else if byte == 2 {
        Some(Some(Mode::Spotify))
    } else if byte == 3 {
        Some(Some(Mode::Dungeons))
    } else {
        None
    }
}

fn read_id(bytes: &[u8]) -> (id: i32)
    requires
        bytes@.len() >= 6,
    ensures
        id == bytes_id(bytes@.subrange(2, 6)),
{
    let moved = u32_from_le_bytes(slice_subrange(bytes, 2, 6));
    (moved as i64 - 0x8000_0000) as i32
}

fn read_text(bytes: &[u8], from: usize) -> (text: Option<String>)
    requires
        from <= bytes@.len(),
    ensures
        text is Some <==> valid_utf8(bytes@.subrange(from as int, bytes@.len() as int)),
        text matches Some(t) ==> t@ == decode_utf8(
            bytes@.subrange(from as int, bytes@.len() as int),
        ),
{
    string_from_utf8(slice_to_vec(slice_subrange(bytes, from, bytes.len())))
}

fn read_user(lang: u8, mode: u8, bytes: &[u8], from: usize) -> (user: Option<User>)
    requires
        from <= bytes@.len(),
    ensures
        match user {
            Some(u) => decoded_user(lang, mode, bytes@.subrange(from as int, bytes@.len() as int))
                == Some(u@),
            None => decoded_user(lang, mode, bytes@.subrange(from as int, bytes@.len() as int))
                is None,
        },
{
    match (byte_to_language(lang), byte_to_mode(mode)) {
        (Some(lang), Some(mode)) => match read_text(bytes, from) {
            Some(name) => Some(User { name, lang, mode }),
            None => None,
        },
        _ => None,
    }
}

/// The state that stored bytes stand for; `None` where they are not the
/// bytes of a state.
pub fn decode(bytes: &[u8]) -> (state: Option<State>)
    ensures
        state_view(state) == decoding(bytes@),
{
    let len = bytes.len();
    if len == 0 {
        return None;
    }
    let tag = bytes[0];
    if tag == 0 {
        if len == 1 {
            Some(State::Start)
        } else {
            None
        }
    } else if tag == 1 {
        if len != 2 {
            return None;
        }
        match byte_to_flag(bytes[1]) {
            Some(flag) => Some(State::Language(LastFlag(flag))),
            None => None,
        }
    } else if tag == 2 {
        if len != 6 {
            return None;
        }
        match byte_to_language(bytes[1]) {
            Some(lang) => Some(State::ReceiveName(lang, read_id(bytes))),
            None => None,
        }
    } else if tag == 3 {
        if len < 6 {
            return None;
        }
        match (byte_to_language(bytes[1]), read_text(bytes, 6)) {
            (Some(lang), Some(name)) => Some(
                State::ConfirmName { lang, name, msg_id: read_id(bytes) },
            ),
            _ => None,
        }
    } else if tag == 4 {
        if len < 4 {
            return None;
        }
        match (byte_to_flag(bytes[1]), read_user(bytes[2], bytes[3], bytes, 4)) {
            (Some(flag), Some(user)) => Some(State::ReceiveMode { user, last: LastFlag(flag) }),
            _ => None,
        }
    } else if tag == 5 {
        if len < 3 {
            return None;
        }
        match read_user(bytes[1], bytes[2], bytes, 3) {
            Some(user) => Some(State::SelectedMode { user }),
            None => None,
        }
    } else {
        None
    }
}

} // verus!
