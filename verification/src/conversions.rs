//! The conversions that the C interface of TeamSpeak needs: the flags of the
//! captured-voice callback, the buffers into which TeamSpeak writes paths,
//! the strings that are handed to TeamSpeak, and the numbers that it passes
//! for its error codes and enumerations.
use vstd::prelude::*;
use vstd::string::StrSliceExecFns;

use crate::ids::{ConnectStatus, Error, TalkStatus, TextMessageTargetMode, Visibility};

verus! {

// ******************** Codes ********************

/// The outcome of a TeamSpeak call that returned `code`: `value` if the code
/// reports success (0), the error otherwise.
pub fn result_from_code<T>(code: u32, value: T) -> (r: Result<T, Error>)
    ensures
        code == 0 ==> r == Ok::<T, Error>(value),
        code != 0 ==> r == Err::<T, Error>(Error(code)),
{
    if code == 0 {
        Ok(value)
    } else {
        Err(Error(code))
    }
}

/// The visibility change that TeamSpeak passes as a number; `None` for a
/// number that names none.
pub fn visibility_from_code(code: i32) -> (r: Option<Visibility>)
    ensures
        r == if code == 0 {
            Some(Visibility::Enter)
        } else if code == 1 {
            Some(Visibility::Retain)
        } else if code == 2 {
            Some(Visibility::Leave)
        } else {
            None::<Visibility>
        },
{
    if code == 0 {
        Some(Visibility::Enter)
    } else if code == 1 {
        Some(Visibility::Retain)
    } else if code == 2 {
        Some(Visibility::Leave)
    } else {
        None
    }
}

/// The connection status that TeamSpeak passes as a number; `None` for a
/// number that names none.
pub fn connect_status_from_code(code: i32) -> (r: Option<ConnectStatus>)
    ensures
        r == if code == 0 {
            Some(ConnectStatus::Disconnected)
        } else if code == 1 {
            Some(ConnectStatus::Connecting)
        } else if code == 2 {
            Some(ConnectStatus::Connected)
        } else if code == 3 {
            Some(ConnectStatus::ConnectionEstablishing)
        } else if code == 4 {
            Some(ConnectStatus::ConnectionEstablished)
        } else {
            None::<ConnectStatus>
        },
{
    if code == 0 {
        Some(ConnectStatus::Disconnected)
    } else if code == 1 {
        Some(ConnectStatus::Connecting)
    } else if code == 2 {
        Some(ConnectStatus::Connected)
    } else if code == 3 {
        Some(ConnectStatus::ConnectionEstablishing)
    } else if code == 4 {
        Some(ConnectStatus::ConnectionEstablished)
    } else {
        None
    }
}

/// The talk status that TeamSpeak passes as a number; `None` for a number
/// that names none.
pub fn talk_status_from_code(code: i32) -> (r: Option<TalkStatus>)
    ensures
        r == if code == 0 {
            Some(TalkStatus::NotTalking)
        } else if code == 1 {
            Some(TalkStatus::Talking)
        } else if code == 2 {
            Some(TalkStatus::TalkingWhileDisabled)
        } else {
            None::<TalkStatus>
        },
{
    if code == 0 {
        Some(TalkStatus::NotTalking)
    } else if code == 1 {
        Some(TalkStatus::Talking)
    } else if code == 2 {
        Some(TalkStatus::TalkingWhileDisabled)
    } else {
        None
    }
}

/// The target of a text message that TeamSpeak passes as a number (1 for a
/// client, 2 for a channel, 3 for the server); any other number is read as
/// `Max`, which names no target.
pub fn target_mode_from_code(code: u16) -> (r: TextMessageTargetMode)
    ensures
        r == if code == 1 {
            TextMessageTargetMode::Client
        } else if code == 2 {
            TextMessageTargetMode::Channel
        } else if code == 3 {
            TextMessageTargetMode::Server
        } else {
            TextMessageTargetMode::Max
        },
{
    if code == 1 {
        TextMessageTargetMode::Client
    } else if code == 2 {
        TextMessageTargetMode::Channel
    } else if code == 3 {
        TextMessageTargetMode::Server
    } else {
        TextMessageTargetMode::Max
    }
}

// ******************** Captured voice ********************

/// Whether the captured audio will be sent to the server: bit 1 of the
/// `edited` flags of `onEditCapturedVoiceDataEvent`.
pub fn captured_voice_send(edited: i32) -> (r: bool)
    ensures
        r == (edited & 2 != 0),
{
    (edited & 2) != 0
}

/// The `edited` flags with bit 0 set if `changed`, and bit 1 set to `send`.
pub open spec fn edited_flags(edited: i32, changed: bool, send: bool) -> i32 {
    ((edited | (if changed { 1i32 } else { 0i32 })) & !2i32) | ((if send { 1i32 } else { 0i32 }) << 1u32)
}

/// The `edited` flags that are handed back to TeamSpeak after the plugin saw
/// the captured audio: bit 0 is set if the plugin changed the sound (and
/// stays set if it was set), bit 1 tells whether the audio will be sent, the
/// other bits are kept.
pub fn captured_voice_edited(edited: i32, changed: bool, send: bool) -> (r: i32)
    ensures
        r == edited_flags(edited, changed, send),
        (r & 1 != 0) == (changed || edited & 1 != 0),
        (r & 2 != 0) == send,
        r & !3i32 == edited & !3i32,
{
    let changed_bit: i32 = if changed { 1 } else { 0 };
    let send_bit: i32 = if send { 1 } else { 0 };
    let with_changed = edited | changed_bit;
    let r = (with_changed & !2i32) | (send_bit << 1u32);
    assert(changed_bit == 0 || changed_bit == 1);
    assert(send_bit == 0 || send_bit == 1);
    assert((r & 1 != 0) == (changed_bit == 1 || edited & 1 != 0)) by (bit_vector)
        requires
            changed_bit == 0 || changed_bit == 1,
            send_bit == 0 || send_bit == 1,
            with_changed == edited | changed_bit,
            r == (with_changed & !2i32) | (send_bit << 1u32),
    ;
    assert((r & 2 != 0) == (send_bit == 1)) by (bit_vector)
        requires
            changed_bit == 0 || changed_bit == 1,
            send_bit == 0 || send_bit == 1,
            with_changed == edited | changed_bit,
            r == (with_changed & !2i32) | (send_bit << 1u32),
    ;
    assert(r & !3i32 == edited & !3i32) by (bit_vector)
        requires
            changed_bit == 0 || changed_bit == 1,
            send_bit == 0 || send_bit == 1,
            with_changed == edited | changed_bit,
            r == (with_changed & !2i32) | (send_bit << 1u32),
    ;
    r
}


// ******************** Text from TeamSpeak ********************

/// The text that `String::from_utf8_lossy` decodes from bytes (invalid
/// sequences become U+FFFD).
pub uninterp spec fn utf8_lossy(bytes: Seq<u8>) -> Seq<char>;

/// Whether all bytes are ASCII.
pub open spec fn all_ascii(bytes: Seq<u8>) -> bool {
    forall|i: int| 0 <= i < bytes.len() ==> #[trigger] bytes[i] < 128
}

/// Decodes bytes as UTF-8, replacing invalid sequences, by
/// `String::from_utf8_lossy`. The contract names the result `utf8_lossy` of
/// the bytes, and states that ASCII bytes decode to the characters with the
/// same codes (ASCII is valid UTF-8); how invalid sequences are replaced is
/// left unsaid.
#[verifier::external_body]
fn decode_lossy(bytes: &[u8]) -> (r: String)
    ensures
        r@ == utf8_lossy(bytes@),
        all_ascii(bytes@) ==> r@ == bytes@.map_values(|b: u8| b as char),
{
    String::from_utf8_lossy(bytes).into_owned()
}

/// The text of a string that TeamSpeak hands over: its bytes (without the
/// terminating zero) decoded as UTF-8, invalid sequences replaced.
pub fn text_from_c(bytes: &[u8]) -> (r: String)
    ensures
        r@ == utf8_lossy(bytes@),
        all_ascii(bytes@) ==> r@ == bytes@.map_values(|b: u8| b as char),
{
    decode_lossy(bytes)
}

/// The bytes of a zero-terminated string: those before the first zero.
pub open spec fn c_prefix(s: Seq<u8>) -> Seq<u8>
    decreases s.len(),
{
    if s.len() == 0 {
        s
    } else if s[0] == 0 {
        Seq::empty()
    } else {
        seq![s[0]] + c_prefix(s.drop_first())
    }
}

/// The size of the first buffer into which TeamSpeak writes a path.
pub const PATH_START_SIZE: usize = 512;

/// The size above which no larger buffer is tried.
pub const PATH_MAX_SIZE: usize = 100000;

/// What to do after TeamSpeak wrote a path into a buffer.
#[derive(Debug)]
pub enum PathBuffer {
    /// The buffer may have been too short: try again with this size.
    Grow(usize),
    /// The path.
    Done(String),
    /// The path does not fit into the largest buffer: give up.
    TooLong,
}

/// Read the path that TeamSpeak wrote into a buffer of `buf.len()` bytes
/// (of which it may fill all but the last). If the third last byte is set
/// the buffer may have been too short, and twice its size is tried, unless
/// that exceeds `PATH_MAX_SIZE`. Otherwise the path is the text up to the
/// first zero byte (the last byte counts as zero).
pub fn read_path_buffer(buf: Vec<u8>) -> (r: PathBuffer)
    requires
        buf.len() >= 3,
    ensures
        buf[buf.len() - 3] != 0 ==> if 2 * buf.len() > PATH_MAX_SIZE {
            r is TooLong
        } else {
            (r matches PathBuffer::Grow(n) && n == 2 * buf.len())
        },
        buf[buf.len() - 3] == 0 ==> (r matches PathBuffer::Done(s) && s@ == utf8_lossy(
            c_prefix(buf@.update(buf.len() - 1, 0)),
        )),
        buf[buf.len() - 3] == 0 && all_ascii(c_prefix(buf@.update(buf.len() - 1, 0))) ==> (r matches PathBuffer::Done(s)
            && s@ == c_prefix(buf@.update(buf.len() - 1, 0)).map_values(|b: u8| b as char)),
{
    let size = buf.len();
    if buf[size - 3] != 0 {
        if size > PATH_MAX_SIZE / 2 {
            PathBuffer::TooLong
        } else {
            PathBuffer::Grow(size * 2)
        }
    } else {
        let mut buf = buf;
        buf.set(size - 1, 0);
        let ghost full = buf@;
        let mut bytes: Vec<u8> = Vec::new();
        let mut i: usize = 0;
        assert(full.skip(0) =~= full);
        assert(bytes@ + c_prefix(full) =~= c_prefix(full));
        while i < size && buf[i] != 0
            invariant
                buf@ == full,
                size == full.len(),
                i <= size,
                c_prefix(full) == bytes@ + c_prefix(full.skip(i as int)),
            decreases size - i,
        {
            proof {
                let rest = full.skip(i as int);
                assert(rest.drop_first() =~= full.skip(i + 1));
                assert(c_prefix(rest) == seq![rest[0]] + c_prefix(rest.drop_first()));
                assert(bytes@.push(buf[i as int]) =~= bytes@ + seq![rest[0]]);
            }
            bytes.push(buf[i]);
            i = i + 1;
        }
        proof {
            if i < size {
                assert(c_prefix(full.skip(i as int)) =~= Seq::<u8>::empty());
            } else {
                assert(c_prefix(full.skip(i as int)) =~= Seq::<u8>::empty());
            }
            assert(bytes@ =~= c_prefix(full));
        }
        PathBuffer::Done(decode_lossy(bytes.as_slice()))
    }
}

// ******************** Text for TeamSpeak ********************

/// The text that is handed to TeamSpeak in place of one that contains a zero
/// character (which a C string cannot hold).
pub open spec fn null_character_message() -> Seq<char> {
    "String contains null character"@
}

/// The text that is handed to TeamSpeak for a text: the text itself, or a
/// fixed message if it contains a zero character.
pub open spec fn c_text(s: Seq<char>) -> Seq<char> {
    if s.contains('\0') {
        null_character_message()
    } else {
        s
    }
}

/// The text to hand to TeamSpeak as a C string: the text itself, or a fixed
/// message if it contains a zero character.
pub fn to_c_text(s: &str) -> (r: String)
    ensures
        r@ == c_text(s@),
{
    let n = s.unicode_len();
    let mut i: usize = 0;
    while i < n
        invariant
            n == s@.len(),
            i <= n,
            forall|j: int| 0 <= j < i ==> s@[j] != '\0',
        decreases n - i,
    {
        if s.get_char(i) == '\0' {
            return "String contains null character".to_owned();
        }
        i = i + 1;
    }
    s.to_owned()
}

} // verus!
