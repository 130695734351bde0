//! The commands of the terminal graphics protocol: an image is encoded as
//! base64 text and sent in chunks; images are deleted by number.

use vstd::prelude::*;
use vstd::string::StringExecFns;
use vstd::utf8::{encode_utf8, is_ascii_chars, is_ascii_chars_encode_utf8};
use crate::text::{append_decimal, chars_of, decimal, string_of};

verus! {

/// The most payload characters that one command carries.
pub const CHUNK_SIZE: usize = 4096;

/// The standard base64 text, with padding, of a sequence of bytes.
pub uninterp spec fn base64_standard(data: Seq<u8>) -> Seq<char>;

/// Four characters for every three bytes, the last group padded.
pub open spec fn base64_len(bytes: nat) -> nat {
    4 * ((bytes + 2) / 3)
}

/// `base64::Engine::encode` of `base64::engine::general_purpose::STANDARD`.
/// The text has four characters for every three bytes of input, padding
/// included, all of them ASCII. The call fails where that length does not
/// fit the machine's word: such inputs are left out.
#[verifier::external_body]
fn base64_encode(data: &[u8]) -> (text: String)
    requires
        base64_len(data@.len()) <= usize::MAX,
    ensures
        text@ == base64_standard(data@),
        text@.len() == base64_len(data@.len()),
        is_ascii_chars(text@),
{
    base64::Engine::encode(&base64::engine::general_purpose::STANDARD, data)
}

/// The base64 text of `data`; `None` where the text would be longer than the
/// machine can address.
pub fn encode_base64(data: &[u8]) -> (text: Option<String>)
    ensures
        base64_len(data@.len()) <= usize::MAX ==> (text matches Some(t) && t@ == base64_standard(
            data@,
        ) && t@.len() == base64_len(data@.len()) && is_ascii_chars(t@)),
        base64_len(data@.len()) > usize::MAX ==> text is None,
{
    let groups: usize = data.len() / 3 + (if data.len() % 3 > 0 {
        1usize
    } else {
        0usize
    });
    assert(groups == (data@.len() + 2) / 3);
    if groups > usize::MAX / 4 {
        None
    } else {
        Some(base64_encode(data))
    }
}

/// How many commands carry a payload of `len` characters: one for every
/// 4096 characters or part of them, and one for an empty payload.
pub open spec fn chunk_count(len: nat) -> nat {
    if len <= 4096 {
        1
    } else {
        (len + 4095) / 4096
    }
}

/// Chunk number `i` of the payload.
pub open spec fn chunk(payload: Seq<char>, i: int) -> Seq<char> {
    payload.subrange(
        4096 * i,
        if 4096 * (i + 1) < payload.len() {
            4096 * (i + 1)
        } else {
            payload.len() as int
        },
    )
}

/// The header of a command that transmits image data.
pub open spec fn transmit_header(
    image_id: u32,
    width: u32,
    height: u32,
    pos_x: u32,
    pos_y: u32,
    more: bool,
) -> Seq<char> {
    "\x1b_Ga=T,f=32,s="@ + decimal(width as nat) + ",v="@ + decimal(height as nat) + ",i="@
        + decimal(image_id as nat) + ",x="@ + decimal(pos_x as nat) + ",y="@ + decimal(
        pos_y as nat,
    ) + (if more {
        ",m=1;"@
    } else {
        ",m=0;"@
    })
}

/// One transmit command: header, payload, terminator.
pub open spec fn transmit_command(
    image_id: u32,
    width: u32,
    height: u32,
    pos_x: u32,
    pos_y: u32,
    more: bool,
    data: Seq<char>,
) -> Seq<char> {
    transmit_header(image_id, width, height, pos_x, pos_y, more) + data + "\x1b\\"@
}

/// Command number `i` of the transmission of `payload`: it carries chunk
/// `i`, and says that more data follows unless it is the last.
pub open spec fn spec_transmit_at(
    image_id: u32,
    width: u32,
    height: u32,
    payload: Seq<char>,
    pos_x: u32,
    pos_y: u32,
    i: int,
) -> Seq<char> {
    transmit_command(
        image_id,
        width,
        height,
        pos_x,
        pos_y,
        i + 1 < chunk_count(payload.len()),
        chunk(payload, i),
    )
}

fn build_command(
    image_id: u32,
    width: u32,
    height: u32,
    pos_x: u32,
    pos_y: u32,
    more: bool,
    data: &str,
) -> (command: String)
    ensures
        command@ == transmit_command(image_id, width, height, pos_x, pos_y, more, data@),
{
    let mut command = String::from_str("\x1b_Ga=T,f=32,s=");
    append_decimal(&mut command, width as u64);
    command.append(",v=");
    append_decimal(&mut command, height as u64);
    command.append(",i=");
    append_decimal(&mut command, image_id as u64);
    command.append(",x=");
    append_decimal(&mut command, pos_x as u64);
    command.append(",y=");
    append_decimal(&mut command, pos_y as u64);
    if more {
        command.append(",m=1;");
    } else {
        command.append(",m=0;");
    }
    command.append(data);
    command.append("\x1b\\");
    command
}

/// The commands that transmit an image: format 32-bit RGBA, its size, its
/// number and its place, and the payload in chunks of 4096 characters. The
/// caller writes and flushes them one by one, in order.
pub fn transmit_graphics(
    image_id: u32,
    width: u32,
    height: u32,
    base64_data: &str,
    pos_x: u32,
    pos_y: u32,
) -> (commands: Vec<String>)
    ensures
        commands@.len() == chunk_count(base64_data@.len()),
        forall|i: int|
            0 <= i < commands@.len() ==> (#[trigger] commands@[i])@ == spec_transmit_at(
                image_id,
                width,
                height,
                base64_data@,
                pos_x,
                pos_y,
                i,
            ),
{
    let chars = chars_of(base64_data);
    let n: usize = chars.len();
    let mut commands: Vec<String> = Vec::new();
    if n <= CHUNK_SIZE {
        let command = build_command(image_id, width, height, pos_x, pos_y, false, base64_data);
        commands.push(command);
        assert(chunk(base64_data@, 0) =~= base64_data@);
        return commands;
    }
    let mut start: usize = 0;
    while start < n
        invariant
            n == chars@.len(),
            chars@ == base64_data@,
            n > 4096,
            start <= n,
            start % 4096 == 0 || start == n,
            start == n ==> commands@.len() == chunk_count(n as nat),
            start < n ==> commands@.len() * 4096 == start,
            commands@.len() <= chunk_count(n as nat),
            forall|i: int|
                0 <= i < commands@.len() ==> (#[trigger] commands@[i])@ == spec_transmit_at(
                    image_id,
                    width,
                    height,
                    base64_data@,
                    pos_x,
                    pos_y,
                    i,
                ),
        decreases n - start,
    {
        let end: usize = if n - start > CHUNK_SIZE {
            start + CHUNK_SIZE
        } else {
            n
        };
        let more: bool = end < n;
        let data = string_of(&chars, start, end);
        let command = build_command(image_id, width, height, pos_x, pos_y, more, data.as_str());
        proof {
            let k = commands@.len() as int;
            assert(start == 4096 * k);
            assert(data@ =~= chunk(base64_data@, k));
            assert(more == (k + 1 < chunk_count(n as nat)));
        }
        commands.push(command);
        start = end;
    }
    commands
}

/// The command that deletes the image with the given number.
pub open spec fn spec_delete_image(image_id: u32) -> Seq<char> {
    "\x1b_Ga=d,d=I,i="@ + decimal(image_id as nat) + "\x1b\\"@
}

/// The command that deletes the image with the given number.
pub fn delete_image(image_id: u32) -> (command: String)
    ensures
        command@ == spec_delete_image(image_id),
{
    let mut command = String::from_str("\x1b_Ga=d,d=I,i=");
    append_decimal(&mut command, image_id as u64);
    command.append("\x1b\\");
    command
}

/// The command that deletes every image on the screen.
pub fn delete_all_graphics() -> (command: String)
    ensures
        command@ == "\x1b_Ga=d,d=A\x1b\\"@,
{
    String::from_str("\x1b_Ga=d,d=A\x1b\\")
}

/// A payload of more than 4096 characters goes out in `ceil(len / 4096)`
/// commands; all but the last say that more data follows, and the chunks
/// written one after the other are the payload.
pub proof fn lemma_chunking(payload: Seq<char>, i: int)
    requires
        payload.len() > 4096,
        0 <= i < chunk_count(payload.len()),
    ensures
        chunk_count(payload.len()) * 4096 >= payload.len(),
        (chunk_count(payload.len()) - 1) * 4096 < payload.len(),
        i + 1 < chunk_count(payload.len()) ==> chunk(payload, i).len() == 4096,
        i + 1 == chunk_count(payload.len()) ==> 0 < chunk(payload, i).len() <= 4096,
        i + 1 == chunk_count(payload.len()) ==> chunk(payload, i) == payload.subrange(
            4096 * i,
            payload.len() as int,
        ),
{
}

/// A chunk of a payload of ASCII characters, such as base64 text, takes as
/// many bytes as it has characters: at most 4096.
pub proof fn lemma_ascii_chunk_is_bytes(payload: Seq<char>, i: int)
    requires
        is_ascii_chars(payload),
        0 <= i < chunk_count(payload.len()),
    ensures
        encode_utf8(chunk(payload, i)).len() == chunk(payload, i).len(),
        chunk(payload, i).len() <= 4096,
{
    let part = chunk(payload, i);
    assert forall|k: int| 0 <= k < part.len() implies '\0' <= #[trigger] part[k] <= '\u{7f}' by {
        assert(part[k] == payload[4096 * i + k]);
    }
    is_ascii_chars_encode_utf8(part);
}

} // verus!
