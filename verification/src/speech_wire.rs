//! What travels between the dictation helper and the recognition servers: the
//! recording as a WAV file, the multipart request around it, the reply, and the
//! plain frames of the second server.

use vstd::prelude::*;
use vstd::utf8;

use crate::text;
use crate::text::{chars_of, concat2, concat3, decimal_of, put, string_of, trim};

verus! {

pub const HOST: &'static str = "127.0.0.1";

/// The port of the server that takes WAV files.
pub const WHISPER_PORT: u16 = 17181;

/// The port of the server that takes plain frames.
pub const PARAKEET_PORT: u16 = 17182;

pub const BOUNDARY: &'static str = "----warmupvkmic";

/// Samples per second of a recording that is sent.
pub const SEND_RATE: u32 = 16_000;

/// The server that takes plain frames refuses longer recordings.
pub const MAX_FRAME_SAMPLES: u32 = 16_000_000;

/// A 16 bit number, low byte first.
pub open spec fn le16(n: u16) -> Seq<u8> {
    seq![(n % 256) as u8, (n / 256) as u8]
}

/// A 32 bit number, low byte first.
pub open spec fn le32(n: u32) -> Seq<u8> {
    seq![
        (n % 256) as u8,
        (n / 256 % 256) as u8,
        (n / 0x1_0000 % 256) as u8,
        (n / 0x100_0000) as u8,
    ]
}

/// The 32 bit number that four bytes hold, low byte first.
pub open spec fn from_le32(b: Seq<u8>) -> u32 {
    (b[0] + b[1] * 256 + b[2] * 0x1_0000 + b[3] * 0x100_0000) as u32
}

fn push_le16(out: &mut Vec<u8>, n: u16)
    ensures
        final(out)@ == old(out)@ + le16(n),
{
    let ghost before = out@;
    out.push((n % 256) as u8);
    out.push((n / 256) as u8);
    assert(out@ =~= before + le16(n));
}

fn push_le32(out: &mut Vec<u8>, n: u32)
    ensures
        final(out)@ == old(out)@ + le32(n),
{
    let ghost before = out@;
    out.push((n % 256) as u8);
    out.push((n / 256 % 256) as u8);
    out.push((n / 0x1_0000 % 256) as u8);
    out.push((n / 0x100_0000) as u8);
    assert(out@ =~= before + le32(n));
}

fn push_bytes(out: &mut Vec<u8>, more: &[u8])
    ensures
        final(out)@ == old(out)@ + more@,
{
    let ghost before = out@;
    out.extend_from_slice(more);
    assert(out@ =~= before + more@);
}

fn push_text(out: &mut Vec<u8>, more: &str)
    ensures
        final(out)@ == old(out)@ + utf8::encode_utf8(more@),
{
    push_bytes(out, more.as_bytes());
}

/// The samples' bytes.
pub open spec fn pcm(samples: Seq<i16>) -> Seq<u8> {
    Seq::new(
        (samples.len() * 2) as nat,
        |i: int| le16(samples[i / 2] as u16)[i % 2],
    )
}

/// A WAV file of 16 bit samples, one channel, at the rate that is sent.
pub open spec fn wav_file(samples: Seq<i16>) -> Seq<u8> {
    let len = (samples.len() * 2) as u32;
    utf8::encode_utf8("RIFF"@) + le32((36 + len) as u32) + utf8::encode_utf8("WAVE"@)
        + utf8::encode_utf8("fmt "@) + le32(16) + le16(1) + le16(1) + le32(SEND_RATE) + le32(
        (SEND_RATE * 2) as u32,
    ) + le16(2) + le16(16) + utf8::encode_utf8("data"@) + le32(len) + pcm(samples)
}

/// `wav_file`, computed.
pub fn wav_16k_mono(samples: &[i16]) -> (w: Vec<u8>)
    requires
        samples@.len() * 2 + 36 <= u32::MAX,
    ensures
        w@ == wav_file(samples@),
{
    let data_len: u32 = (samples.len() * 2) as u32;
    let mut w: Vec<u8> = Vec::new();
    push_text(&mut w, "RIFF");
    push_le32(&mut w, 36 + data_len);
    push_text(&mut w, "WAVE");
    push_text(&mut w, "fmt ");
    push_le32(&mut w, 16);
    push_le16(&mut w, 1);
    push_le16(&mut w, 1);
    push_le32(&mut w, SEND_RATE);
    push_le32(&mut w, SEND_RATE * 2);
    push_le16(&mut w, 2);
    push_le16(&mut w, 16);
    push_text(&mut w, "data");
    push_le32(&mut w, data_len);
    let ghost header = w@;
    let mut i: usize = 0;
    assert(pcm(samples@.take(0)) =~= Seq::<u8>::empty());
    assert(w@ =~= header + pcm(samples@.take(0)));
    while i < samples.len()
        invariant
            i <= samples.len(),
            w@ == header + pcm(samples@.take(i as int)),
        decreases samples.len() - i,
    {
        push_le16(&mut w, samples[i] as u16);
        i += 1;
        assert(pcm(samples@.take(i as int)) =~= pcm(samples@.take(i - 1)) + le16(
            samples@[i - 1] as u16,
        ));
        assert(w@ =~= header + pcm(samples@.take(i as int)));
    }
    assert(samples@.take(i as int) =~= samples@);
    assert(w@ =~= wav_file(samples@)) by {
        assert(Seq::<u8>::empty() + utf8::encode_utf8("RIFF"@) =~= utf8::encode_utf8("RIFF"@));
    }
    w
}

/// The first part of the request: before the recording.
pub open spec fn part_before() -> Seq<char> {
    "--"@ + BOUNDARY@
        + "\r\nContent-Disposition: form-data; name=\"file\"; filename=\"a.wav\"\r\nContent-Type: audio/wav\r\n\r\n"@
}

/// The parts of the request after the recording.
pub open spec fn part_after(lang: Seq<char>) -> Seq<char> {
    "--"@ + BOUNDARY@ + "\r\nContent-Disposition: form-data; name=\"language\"\r\n\r\n"@ + lang
        + "\r\n--"@ + BOUNDARY@
        + "\r\nContent-Disposition: form-data; name=\"response_format\"\r\n\r\njson\r\n--"@
        + BOUNDARY@ + "--\r\n"@
}

/// The body of a request: the recording and its language, and that the answer is
/// to be JSON.
pub open spec fn body_of(wav: Seq<u8>, lang: Seq<char>) -> Seq<u8> {
    utf8::encode_utf8(part_before()) + wav + utf8::encode_utf8("\r\n"@) + utf8::encode_utf8(
        part_after(lang),
    )
}

/// `body_of`, computed.
pub fn request_body(wav: &[u8], lang: &str) -> (body: Vec<u8>)
    ensures
        body@ == body_of(wav@, lang@),
{
    let before = concat3(
        "--",
        BOUNDARY,
        "\r\nContent-Disposition: form-data; name=\"file\"; filename=\"a.wav\"\r\nContent-Type: audio/wav\r\n\r\n",
    );
    let mut after = concat3(
        "--",
        BOUNDARY,
        "\r\nContent-Disposition: form-data; name=\"language\"\r\n\r\n",
    );
    put(&mut after, lang);
    put(&mut after, "\r\n--");
    put(&mut after, BOUNDARY);
    put(&mut after, "\r\nContent-Disposition: form-data; name=\"response_format\"\r\n\r\njson\r\n--");
    put(&mut after, BOUNDARY);
    put(&mut after, "--\r\n");
    let mut body: Vec<u8> = Vec::new();
    push_text(&mut body, before.as_str());
    push_bytes(&mut body, wav);
    push_text(&mut body, "\r\n");
    push_text(&mut body, after.as_str());
    assert(body@ =~= body_of(wav@, lang@)) by {
        assert(Seq::<u8>::empty() + utf8::encode_utf8(part_before()) =~= utf8::encode_utf8(
            part_before(),
        ));
    }
    body
}

/// The head of a request with a body of `len` bytes.
pub open spec fn head_of(len: nat) -> Seq<char> {
    "POST /inference HTTP/1.1\r\nHost: "@ + HOST@ + ":"@ + text::decimal(WHISPER_PORT as nat)
        + "\r\nContent-Type: multipart/form-data; boundary="@ + BOUNDARY@ + "\r\nContent-Length: "@
        + text::decimal(len) + "\r\nConnection: close\r\n\r\n"@
}

/// `head_of`, computed.
pub fn request_head(len: usize) -> (head: String)
    ensures
        head@ == head_of(len as nat),
{
    let mut head = concat3("POST /inference HTTP/1.1\r\nHost: ", HOST, ":");
    put(&mut head, decimal_of(WHISPER_PORT as u64).as_str());
    put(&mut head, "\r\nContent-Type: multipart/form-data; boundary=");
    put(&mut head, BOUNDARY);
    put(&mut head, "\r\nContent-Length: ");
    put(&mut head, decimal_of(len as u64).as_str());
    put(&mut head, "\r\nConnection: close\r\n\r\n");
    head
}

/// What `String::from_utf8_lossy` makes of bytes.
pub uninterp spec fn lossy(bytes: Seq<u8>) -> Seq<char>;

/// `String::from_utf8_lossy`: the bytes as text, with replacement characters where
/// they are not UTF-8. The result depends on the bytes alone; bytes that are UTF-8
/// give their own text.
#[verifier::external_body]
fn lossy_text(bytes: &[u8]) -> (s: String)
    ensures
        s@ == lossy(bytes@),
        utf8::valid_utf8(bytes@) ==> s@ == utf8::decode_utf8(bytes@),
{
    String::from_utf8_lossy(bytes).into_owned()
}

/// What `serde_json::from_str` and the value's member `key` give: the member's
/// text where it is a text, or why the whole is not JSON.
pub uninterp spec fn json_member(json: Seq<char>, key: Seq<char>) -> Result<
    Option<Seq<char>>,
    Seq<char>,
>;

pub open spec fn member_view(r: Result<Option<String>, String>) -> Result<
    Option<Seq<char>>,
    Seq<char>,
> {
    match r {
        Ok(Some(t)) => Ok(Some(t@)),
        Ok(None) => Ok(None),
        Err(e) => Err(e@),
    }
}

/// Parses JSON with `serde_json::from_str` and gives the member `key` with
/// `Value::index` and `Value::as_str`, or the parser's message. The answer depends
/// on the two texts alone, and is only named here.
#[verifier::external_body]
fn json_text(json: &str, key: &str) -> (r: Result<Option<String>, String>)
    ensures
        member_view(r) == json_member(json@, key@),
{
    let value: serde_json::Value = serde_json::from_str(json).map_err(|e| e.to_string())?;
    Ok(value[key].as_str().map(|s| s.to_owned()))
}

/// Where a character first stands in a text.
pub open spec fn first_at(s: Seq<char>, c: char) -> Option<int>
    decreases s.len(),
{
    if s.len() == 0 {
        None
    } else if s[0] == c {
        Some(0)
    } else {
        match first_at(s.skip(1), c) {
            Some(i) => Some(i + 1),
            None => None,
        }
    }
}

/// Where a character last stands in a text.
pub open spec fn last_at(s: Seq<char>, c: char) -> Option<int>
    decreases s.len(),
{
    if s.len() == 0 {
        None
    } else if s.last() == c {
        Some(s.len() - 1)
    } else {
        last_at(s.drop_last(), c)
    }
}

pub open spec fn index_view(i: Option<usize>) -> Option<int> {
    match i {
        Some(i) => Some(i as int),
        None => None,
    }
}

fn find_first(chars: &[char], c: char) -> (r: Option<usize>)
    ensures
        index_view(r) == first_at(chars@, c),
{
    let mut i: usize = 0;
    assert(chars@.skip(0) =~= chars@);
    while i < chars.len()
        invariant
            i <= chars.len(),
            first_at(chars@, c) == (match first_at(chars@.skip(i as int), c) {
                Some(k) => Some(k + i),
                None => None,
            }),
        decreases chars.len() - i,
    {
        if chars[i] == c {
            return Some(i);
        }
        assert(chars@.skip(i as int).skip(1) =~= chars@.skip(i + 1));
        i += 1;
    }
    None
}

fn find_last(chars: &[char], c: char) -> (r: Option<usize>)
    ensures
        index_view(r) == last_at(chars@, c),
{
    let mut i: usize = chars.len();
    assert(chars@.take(i as int) =~= chars@);
    while i > 0
        invariant
            i <= chars.len(),
            last_at(chars@, c) == last_at(chars@.take(i as int), c),
        decreases i,
    {
        if chars[i - 1] == c {
            assert(chars@.take(i as int).last() == c);
            return Some(i - 1);
        }
        assert(chars@.take(i as int).drop_last() =~= chars@.take(i - 1));
        i -= 1;
    }
    None
}

/// The part of a reply from its first opening to its last closing brace.
pub open spec fn braces(s: Seq<char>) -> Option<Seq<char>> {
    match (first_at(s, '{'), last_at(s, '}')) {
        (Some(a), Some(b)) => if b > a {
            Some(s.subrange(a, b + 1))
        } else {
            None
        },
        _ => None,
    }
}

/// The first line of a text, without what ends it.
pub open spec fn first_line(s: Seq<char>) -> Seq<char> {
    match first_at(s, '\n') {
        Some(i) => if i > 0 && s[i - 1] == '\r' {
            s.take(i - 1)
        } else {
            s.take(i)
        },
        None => s,
    }
}

/// What is found is there, and nothing before it is.
pub proof fn first_at_is_first(s: Seq<char>, c: char)
    ensures
        match first_at(s, c) {
            Some(i) => 0 <= i < s.len() && s[i] == c && forall|k: int| 0 <= k < i ==> s[k] != c,
            None => forall|k: int| 0 <= k < s.len() ==> s[k] != c,
        },
    decreases s.len(),
{
    if s.len() > 0 && s[0] != c {
        first_at_is_first(s.skip(1), c);
        assert forall|k: int| 1 <= k < s.len() implies s[k] == s.skip(1)[k - 1] by {
        }
        match first_at(s.skip(1), c) {
            Some(i) => {
                assert forall|k: int| 0 <= k < i + 1 implies s[k] != c by {
                    if k > 0 {
                        assert(s.skip(1)[k - 1] != c);
                    }
                }
            },
            None => {
                assert forall|k: int| 0 <= k < s.len() implies s[k] != c by {
                    if k > 0 {
                        assert(s.skip(1)[k - 1] != c);
                    }
                }
            },
        }
    }
}

/// What is found is there, and nothing after it is.
pub proof fn last_at_is_last(s: Seq<char>, c: char)
    ensures
        match last_at(s, c) {
            Some(i) => 0 <= i < s.len() && s[i] == c && forall|k: int| i < k < s.len() ==> s[k] != c,
            None => forall|k: int| 0 <= k < s.len() ==> s[k] != c,
        },
    decreases s.len(),
{
    if s.len() > 0 && s.last() != c {
        last_at_is_last(s.drop_last(), c);
        assert forall|k: int| 0 <= k < s.len() - 1 implies s[k] == s.drop_last()[k] by {
        }
        match last_at(s.drop_last(), c) {
            Some(i) => {
                assert forall|k: int| i < k < s.len() implies s[k] != c by {
                    if k < s.len() - 1 {
                        assert(s.drop_last()[k] != c);
                    }
                }
            },
            None => {
                assert forall|k: int| 0 <= k < s.len() implies s[k] != c by {
                    if k < s.len() - 1 {
                        assert(s.drop_last()[k] != c);
                    }
                }
            },
        }
    }
}

/// The JSON object in a reply, whatever frames it, or what to say of a reply
/// without one.
pub fn json_object(reply: &str) -> (r: Result<String, String>)
    ensures
        r is Ok <==> braces(reply@) is Some,
        r matches Ok(json) ==> braces(reply@) == Some(json@),
        r matches Err(e) ==> e@ == "no JSON in response: "@ + first_line(reply@),
{
    let chars = chars_of(reply);
    let n: usize = chars.len();
    let first = find_first(chars.as_slice(), '{');
    let last = find_last(chars.as_slice(), '}');
    proof {
        first_at_is_first(reply@, '{');
        last_at_is_last(reply@, '}');
        first_at_is_first(reply@, '\n');
    }
    if let (Some(a), Some(b)) = (first, last) {
        if b > a {
            return Ok(string_of(vstd::slice::slice_subrange(chars.as_slice(), a, b + 1)));
        }
    }
    let end: usize = match find_first(chars.as_slice(), '\n') {
        Some(i) => if i > 0 && chars[i - 1] == '\r' {
            i - 1
        } else {
            i
        },
        None => n,
    };
    let line = string_of(vstd::slice::slice_subrange(chars.as_slice(), 0, end));
    assert(line@ =~= first_line(reply@)) by {
        assert(chars@.subrange(0, end as int) =~= chars@.take(end as int));
        assert(chars@.take(chars@.len() as int) =~= chars@);
    }
    Err(concat2("no JSON in response: ", line.as_str()))
}

/// The transcript in a parsed reply: the text, trimmed, and empty where there is
/// none.
pub open spec fn transcript(parsed: Result<Option<Seq<char>>, Seq<char>>) -> Result<
    Seq<char>,
    Seq<char>,
> {
    match parsed {
        Err(e) => Err("parse: "@ + e),
        Ok(Some(t)) => Ok(text::trimmed(t)),
        Ok(None) => Ok(text::trimmed(""@)),
    }
}

pub open spec fn text_view(r: Result<String, String>) -> Result<Seq<char>, Seq<char>> {
    match r {
        Ok(t) => Ok(t@),
        Err(e) => Err(e@),
    }
}

/// `transcript`, computed.
pub fn transcript_of(parsed: Result<Option<String>, String>) -> (r: Result<String, String>)
    ensures
        text_view(r) == transcript(member_view(parsed)),
{
    match parsed {
        Err(e) => Err(concat2("parse: ", e.as_str())),
        Ok(Some(t)) => Ok(trim(t.as_str())),
        Ok(None) => Ok(trim("")),
    }
}

/// What a reply comes to: the transcript of the JSON object in it.
pub open spec fn reply_outcome(reply: Seq<char>) -> Result<Seq<char>, Seq<char>> {
    match braces(reply) {
        Some(json) => transcript(json_member(json, "text"@)),
        None => Err("no JSON in response: "@ + first_line(reply)),
    }
}

/// Reads the transcript out of a server's reply.
pub fn read_reply(reply: &[u8]) -> (r: Result<String, String>)
    ensures
        text_view(r) == reply_outcome(lossy(reply@)),
        utf8::valid_utf8(reply@) ==> text_view(r) == reply_outcome(utf8::decode_utf8(reply@)),
{
    let text = lossy_text(reply);
    match json_object(text.as_str()) {
        Ok(json) => transcript_of(json_text(json.as_str(), "text")),
        Err(e) => Err(e),
    }
}

/// The text of a plain reply, trimmed.
pub fn read_plain_reply(reply: &[u8]) -> (t: String)
    ensures
        t@ == text::trimmed(lossy(reply@)),
        utf8::valid_utf8(reply@) ==> t@ == text::trimmed(utf8::decode_utf8(reply@)),
{
    trim(lossy_text(reply).as_str())
}

/// A plain frame: how many samples, then the samples, each by its 32 bits.
pub open spec fn frame(bits: Seq<u32>) -> Seq<u8> {
    le32(bits.len() as u32) + sample_bytes(bits)
}

pub open spec fn sample_bytes(bits: Seq<u32>) -> Seq<u8> {
    Seq::new((bits.len() * 4) as nat, |i: int| le32(bits[i / 4])[i % 4])
}

/// `frame`, computed.
pub fn frame_samples(bits: &[u32]) -> (out: Vec<u8>)
    requires
        bits@.len() <= u32::MAX,
    ensures
        out@ == frame(bits@),
{
    let mut out: Vec<u8> = Vec::new();
    push_le32(&mut out, bits.len() as u32);
    let ghost head = out@;
    let mut i: usize = 0;
    assert(sample_bytes(bits@.take(0)) =~= Seq::<u8>::empty());
    assert(out@ =~= head + sample_bytes(bits@.take(0)));
    while i < bits.len()
        invariant
            i <= bits.len(),
            out@ == head + sample_bytes(bits@.take(i as int)),
        decreases bits.len() - i,
    {
        push_le32(&mut out, bits[i]);
        i += 1;
        assert(sample_bytes(bits@.take(i as int)) =~= sample_bytes(bits@.take(i - 1)) + le32(
            bits@[i - 1],
        ));
        assert(out@ =~= head + sample_bytes(bits@.take(i as int)));
    }
    assert(bits@.take(i as int) =~= bits@);
    assert(out@ =~= frame(bits@)) by {
        assert(Seq::<u8>::empty() + le32(bits@.len() as u32) =~= le32(bits@.len() as u32));
    }
    out
}

/// What the server does with the first four bytes of a frame.
#[derive(Debug)]
pub enum FrameStart {
    /// Nothing is asked for.
    Done,
    /// Read so many more bytes.
    Read(u32),
    Refused(String),
}

pub open spec fn refusal(n: u32) -> Seq<char> {
    "sample count too large: "@ + text::decimal(n as nat)
}

/// Reads how long a frame is. A connection that ends before that (a readiness
/// probe) asks for nothing.
pub fn frame_start(head: Option<[u8; 4]>) -> (r: FrameStart)
    ensures
        match head {
            None => r is Done,
            Some(b) => {
                let n = from_le32(b@);
                if n == 0 {
                    r is Done
                } else if n > MAX_FRAME_SAMPLES {
                    r matches FrameStart::Refused(e) && e@ == refusal(n)
                } else {
                    r matches FrameStart::Read(len) && len == n * 4
                }
            },
        },
{
    match head {
        None => FrameStart::Done,
        Some(b) => {
            let n: u32 = b[0] as u32 + b[1] as u32 * 256 + b[2] as u32 * 0x1_0000 + b[3] as u32
                * 0x100_0000;
            if n == 0 {
                FrameStart::Done
            } else if n > MAX_FRAME_SAMPLES {
                FrameStart::Refused(
                    concat2("sample count too large: ", decimal_of(n as u64).as_str()),
                )
            } else {
                FrameStart::Read(n * 4)
            }
        },
    }
}

/// The samples that bytes hold.
pub open spec fn samples_in(bytes: Seq<u8>) -> Seq<u32> {
    Seq::new((bytes.len() / 4) as nat, |i: int| from_le32(bytes.subrange(i * 4, i * 4 + 4)))
}

/// `samples_in`, computed.
pub fn samples_of(bytes: &[u8]) -> (bits: Vec<u32>)
    ensures
        bits@ == samples_in(bytes@),
{
    let len: usize = bytes.len();
    let n: usize = len / 4;
    let mut bits: Vec<u32> = Vec::new();
    let mut i: usize = 0;
    while i < n
        invariant
            i <= n,
            n == len / 4,
            len == bytes@.len(),
            bits@ == samples_in(bytes@).take(i as int),
        decreases n - i,
    {
        let p: usize = i * 4;
        bits.push(
            bytes[p] as u32 + bytes[p + 1] as u32 * 256 + bytes[p + 2] as u32 * 0x1_0000
                + bytes[p + 3] as u32 * 0x100_0000,
        );
        i += 1;
        assert(bits@ =~= samples_in(bytes@).take(i as int));
    }
    assert(samples_in(bytes@).take(i as int) =~= samples_in(bytes@));
    bits
}

/// A number read back from its four bytes is the number.
pub proof fn le32_reads_back(n: u32)
    ensures
        from_le32(le32(n)) == n,
        le32(n).len() == 4,
{
}

/// A frame is read back as it was sent: its length is accepted, and its samples
/// are the same, bit for bit.
pub proof fn frame_reads_back(bits: Seq<u32>)
    requires
        0 < bits.len() <= MAX_FRAME_SAMPLES,
    ensures
        frame(bits).len() == 4 + 4 * bits.len(),
        from_le32(frame(bits).take(4)) == bits.len(),
        samples_in(frame(bits).skip(4)) == bits,
{
    let n = bits.len() as u32;
    le32_reads_back(n);
    assert(frame(bits).take(4) =~= le32(n));
    assert(frame(bits).skip(4) =~= sample_bytes(bits));
    assert forall|i: int| 0 <= i < bits.len() implies #[trigger] samples_in(sample_bytes(bits))[i]
        == bits[i] by {
        le32_reads_back(bits[i]);
        let part = sample_bytes(bits).subrange(i * 4, i * 4 + 4);
        assert forall|k: int| 0 <= k < 4 implies part[k] == le32(bits[i])[k] by {
            assert((i * 4 + k) / 4 == i && (i * 4 + k) % 4 == k);
        }
        assert(part =~= le32(bits[i]));
    }
    assert(samples_in(sample_bytes(bits)) =~= bits);
}

/// The recording follows its header, and the header says how long it is.
pub proof fn wav_announces_its_length(samples: Seq<i16>)
    requires
        samples.len() * 2 + 36 <= u32::MAX,
    ensures
        wav_file(samples).len() == 44 + 2 * samples.len(),
        from_le32(wav_file(samples).subrange(4, 8)) + 8 == wav_file(samples).len(),
        from_le32(wav_file(samples).subrange(40, 44)) == 2 * samples.len(),
        wav_file(samples).skip(44) == pcm(samples),
{
    reveal_strlit("RIFF");
    reveal_strlit("WAVE");
    reveal_strlit("fmt ");
    reveal_strlit("data");
    utf8::is_ascii_chars_encode_utf8("RIFF"@);
    utf8::is_ascii_chars_encode_utf8("WAVE"@);
    utf8::is_ascii_chars_encode_utf8("fmt "@);
    utf8::is_ascii_chars_encode_utf8("data"@);
    let w = wav_file(samples);
    let len = (samples.len() * 2) as u32;
    le32_reads_back((36 + len) as u32);
    le32_reads_back(len);
    assert(w.subrange(4, 8) =~= le32((36 + len) as u32));
    assert(w.subrange(40, 44) =~= le32(len));
    assert(w.skip(44) =~= pcm(samples));
}

/// A recording's file says, low byte first, that it holds plain samples (1) of one channel
/// at 16000 a second, 32000 bytes a second, two bytes and sixteen bits a sample, and holds
/// each sample in its place, in two's complement, low byte first.
pub proof fn wav_holds_the_samples(samples: Seq<i16>, i: int)
    requires
        samples.len() * 2 + 36 <= u32::MAX,
        0 <= i < samples.len(),
    ensures
        ({
            let w = wav_file(samples);
            &&& w[0] == 0x52 && w[1] == 0x49 && w[2] == 0x46 && w[3] == 0x46
            &&& w[4] + 256 * w[5] + 65536 * w[6] + 16777216 * w[7] == 36 + 2 * samples.len()
            &&& w[8] == 0x57 && w[9] == 0x41 && w[10] == 0x56 && w[11] == 0x45
            &&& w[12] == 0x66 && w[13] == 0x6d && w[14] == 0x74 && w[15] == 0x20
            &&& w[16] == 16 && w[17] == 0 && w[18] == 0 && w[19] == 0
            &&& w[20] == 1 && w[21] == 0
            &&& w[22] == 1 && w[23] == 0
            &&& w[24] + 256 * w[25] + 65536 * w[26] + 16777216 * w[27] == 16000
            &&& w[28] + 256 * w[29] + 65536 * w[30] + 16777216 * w[31] == 32000
            &&& w[32] == 2 && w[33] == 0
            &&& w[34] == 16 && w[35] == 0
            &&& w[36] == 0x64 && w[37] == 0x61 && w[38] == 0x74 && w[39] == 0x61
            &&& w[40] + 256 * w[41] + 65536 * w[42] + 16777216 * w[43] == 2 * samples.len()
            &&& w[44 + 2 * i] + 256 * w[45 + 2 * i] == samples[i] as int % 65536
        }),
{
    reveal_strlit("RIFF");
    reveal_strlit("WAVE");
    reveal_strlit("fmt ");
    reveal_strlit("data");
    utf8::is_ascii_chars_encode_utf8("RIFF"@);
    utf8::is_ascii_chars_encode_utf8("WAVE"@);
    utf8::is_ascii_chars_encode_utf8("fmt "@);
    utf8::is_ascii_chars_encode_utf8("data"@);
    let w = wav_file(samples);
    wav_announces_its_length(samples);
    let p = pcm(samples);
    assert(w.skip(44)[2 * i] == w[44 + 2 * i] && w.skip(44)[2 * i + 1] == w[45 + 2 * i]);
    assert((2 * i) / 2 == i && (2 * i) % 2 == 0 && (2 * i + 1) / 2 == i && (2 * i + 1) % 2 == 1);
    let s = samples[i];
    let u = s as u16;
    assert(u as int == s as int % 65536) by {
        assert(s >= 0 ==> s as u16 == s) by (bit_vector);
        assert(s < 0 ==> s as u16 == s + 65536) by (bit_vector);
    }
    let whole = (36 + samples.len() * 2) as u32;
    assert(w.subrange(4, 8) =~= le32(whole));
    assert(w.subrange(4, 8)[0] == w[4] && w.subrange(4, 8)[1] == w[5] && w.subrange(4, 8)[2] == w[6]
        && w.subrange(4, 8)[3] == w[7]);
    assert(whole == whole % 256 + 256 * (whole / 256 % 256) + 65536 * (whole / 65536 % 256)
        + 16777216 * (whole / 16777216));
    assert(w.subrange(16, 20) =~= le32(16));
    assert(w.subrange(16, 20)[0] == w[16] && w.subrange(16, 20)[1] == w[17] && w.subrange(
        16,
        20,
    )[2] == w[18] && w.subrange(16, 20)[3] == w[19]);
    assert(w.subrange(24, 28) =~= le32(16000));
    assert(w.subrange(28, 32) =~= le32(32000));
    assert(w.subrange(24, 28)[0] == w[24] && w.subrange(24, 28)[1] == w[25] && w.subrange(
        24,
        28,
    )[2] == w[26] && w.subrange(24, 28)[3] == w[27]);
    assert(w.subrange(28, 32)[0] == w[28] && w.subrange(28, 32)[1] == w[29] && w.subrange(
        28,
        32,
    )[2] == w[30] && w.subrange(28, 32)[3] == w[31]);
    let len = (samples.len() * 2) as u32;
    assert(w.subrange(40, 44) =~= le32(len));
    assert(w.subrange(40, 44)[0] == w[40] && w.subrange(40, 44)[1] == w[41] && w.subrange(
        40,
        44,
    )[2] == w[42] && w.subrange(40, 44)[3] == w[43]);
    assert(len == len % 256 + 256 * (len / 256 % 256) + 65536 * (len / 65536 % 256) + 16777216 * (
    len / 16777216));
}

/// A frame begins with the number of its samples and holds each in its place, low byte
/// first.
pub proof fn frames_hold_the_samples(bits: Seq<u32>, i: int)
    requires
        bits.len() <= u32::MAX,
        0 <= i < bits.len(),
    ensures
        ({
            let f = frame(bits);
            &&& f[0] + 256 * f[1] + 65536 * f[2] + 16777216 * f[3] == bits.len()
            &&& f[4 + 4 * i] + 256 * f[5 + 4 * i] + 65536 * f[6 + 4 * i] + 16777216 * f[7 + 4 * i]
                == bits[i]
        }),
{
    let n = bits.len() as u32;
    let b = bits[i];
    assert((4 * i) / 4 == i && (4 * i) % 4 == 0);
    assert((4 * i + 1) / 4 == i && (4 * i + 1) % 4 == 1);
    assert((4 * i + 2) / 4 == i && (4 * i + 2) % 4 == 2);
    assert((4 * i + 3) / 4 == i && (4 * i + 3) % 4 == 3);
    assert(n == n % 256 + 256 * (n / 256 % 256) + 65536 * (n / 65536 % 256) + 16777216 * (n
        / 16777216));
    assert(b == b % 256 + 256 * (b / 256 % 256) + 65536 * (b / 65536 % 256) + 16777216 * (b
        / 16777216));
    let f = frame(bits);
    assert(f[4 + 4 * i] == sample_bytes(bits)[4 * i]);
    assert(f[5 + 4 * i] == sample_bytes(bits)[4 * i + 1]);
    assert(f[6 + 4 * i] == sample_bytes(bits)[4 * i + 2]);
    assert(f[7 + 4 * i] == sample_bytes(bits)[4 * i + 3]);
}

/// The object in a reply is the reply from its first opening to its last closing brace,
/// whatever stands around it.
pub proof fn the_object_is_found_in_its_frame(head: Seq<char>, inside: Seq<char>, tail: Seq<char>)
    requires
        forall|i: int| 0 <= i < head.len() ==> #[trigger] head[i] != '{',
        forall|i: int| 0 <= i < tail.len() ==> #[trigger] tail[i] != '}',
    ensures
        braces(head + seq!['{'] + inside + seq!['}'] + tail) == Some(
            seq!['{'] + inside + seq!['}'],
        ),
{
    let s = head + seq!['{'] + inside + seq!['}'] + tail;
    first_at_is_first(s, '{');
    last_at_is_last(s, '}');
    let a = head.len() as int;
    let b = head.len() as int + 1 + inside.len();
    assert(s[a] == '{' && s[b] == '}');
    let fa = first_at(s, '{')->0;
    let lb = last_at(s, '}')->0;
    assert(first_at(s, '{') is Some && last_at(s, '}') is Some);
    if fa < a {
        assert(s[fa] == head[fa]);
    }
    if lb > b {
        assert(s[lb] == tail[lb - b - 1]);
    }
    assert(fa == a && lb == b);
    assert(s.subrange(a, b + 1) =~= seq!['{'] + inside + seq!['}']);
}

/// The transcript of a reply is its text without white space at its ends, an empty one
/// where it has none, and an error where the reply is no JSON.
pub proof fn a_transcript_is_the_trimmed_text(t: Seq<char>, e: Seq<char>)
    ensures
        transcript(Ok(Some(t))) == Ok::<Seq<char>, Seq<char>>(text::trimmed(t)),
        transcript(Ok(None)) matches Ok(s) && s.len() == 0,
        transcript(Err(e)) == Err::<Seq<char>, Seq<char>>("parse: "@ + e),
{
    reveal_strlit("");
    assert(""@ =~= Seq::<char>::empty());
}

/// A request goes to the server on this machine and says how long its body is and what
/// separates its parts.
pub proof fn requests_announce_their_body(len: nat)
    ensures
        head_of(len)
            == "POST /inference HTTP/1.1\r\nHost: 127.0.0.1:17181\r\nContent-Type: multipart/form-data; boundary=----warmupvkmic\r\nContent-Length: "@
            + text::decimal(len) + "\r\nConnection: close\r\n\r\n"@,
{
    reveal_strlit(
        "POST /inference HTTP/1.1\r\nHost: 127.0.0.1:17181\r\nContent-Type: multipart/form-data; boundary=----warmupvkmic\r\nContent-Length: ",
    );
    reveal_strlit("POST /inference HTTP/1.1\r\nHost: ");
    reveal_strlit("127.0.0.1");
    reveal_strlit(":");
    reveal_strlit("\r\nContent-Type: multipart/form-data; boundary=");
    reveal_strlit("----warmupvkmic");
    reveal_strlit("\r\nContent-Length: ");
    reveal_with_fuel(text::decimal, 6);
    assert(text::decimal(17181) =~= seq!['1', '7', '1', '8', '1']);
    assert("POST /inference HTTP/1.1\r\nHost: "@ + HOST@ + ":"@ + text::decimal(17181)
        + "\r\nContent-Type: multipart/form-data; boundary="@ + BOUNDARY@ + "\r\nContent-Length: "@
        =~= "POST /inference HTTP/1.1\r\nHost: 127.0.0.1:17181\r\nContent-Type: multipart/form-data; boundary=----warmupvkmic\r\nContent-Length: "@);
}

/// A request's body holds the recording as it is, then its language, and asks for JSON.
pub proof fn bodies_hold_the_recording(wav: Seq<u8>, lang: Seq<char>)
    ensures
        ({
            let body = body_of(wav, lang);
            let at = utf8::encode_utf8(part_before()).len() as int;
            &&& body.subrange(at, at + wav.len()) == wav
            &&& body == utf8::encode_utf8(part_before()) + wav + utf8::encode_utf8("\r\n"@)
                + utf8::encode_utf8(part_after(lang))
        }),
        part_before()
            == "------warmupvkmic\r\nContent-Disposition: form-data; name=\"file\"; filename=\"a.wav\"\r\nContent-Type: audio/wav\r\n\r\n"@,
        part_after(lang)
            == "------warmupvkmic\r\nContent-Disposition: form-data; name=\"language\"\r\n\r\n"@
            + lang
            + "\r\n------warmupvkmic\r\nContent-Disposition: form-data; name=\"response_format\"\r\n\r\njson\r\n------warmupvkmic--\r\n"@,
{
    let body = body_of(wav, lang);
    let at = utf8::encode_utf8(part_before()).len() as int;
    assert(body.subrange(at, at + wav.len()) =~= wav);
    reveal_strlit("--");
    reveal_strlit("----warmupvkmic");
    reveal_strlit(
        "\r\nContent-Disposition: form-data; name=\"file\"; filename=\"a.wav\"\r\nContent-Type: audio/wav\r\n\r\n",
    );
    reveal_strlit(
        "------warmupvkmic\r\nContent-Disposition: form-data; name=\"file\"; filename=\"a.wav\"\r\nContent-Type: audio/wav\r\n\r\n",
    );
    reveal_strlit("\r\nContent-Disposition: form-data; name=\"language\"\r\n\r\n");
    reveal_strlit("------warmupvkmic\r\nContent-Disposition: form-data; name=\"language\"\r\n\r\n");
    reveal_strlit("\r\n--");
    reveal_strlit(
        "\r\nContent-Disposition: form-data; name=\"response_format\"\r\n\r\njson\r\n--",
    );
    reveal_strlit("--\r\n");
    reveal_strlit(
        "\r\n------warmupvkmic\r\nContent-Disposition: form-data; name=\"response_format\"\r\n\r\njson\r\n------warmupvkmic--\r\n",
    );
    assert(part_before()
        =~= "------warmupvkmic\r\nContent-Disposition: form-data; name=\"file\"; filename=\"a.wav\"\r\nContent-Type: audio/wav\r\n\r\n"@);
    assert("--"@ + BOUNDARY@ + "\r\nContent-Disposition: form-data; name=\"language\"\r\n\r\n"@
        =~= "------warmupvkmic\r\nContent-Disposition: form-data; name=\"language\"\r\n\r\n"@);
    assert("\r\n--"@ + BOUNDARY@
        + "\r\nContent-Disposition: form-data; name=\"response_format\"\r\n\r\njson\r\n--"@
        + BOUNDARY@ + "--\r\n"@
        =~= "\r\n------warmupvkmic\r\nContent-Disposition: form-data; name=\"response_format\"\r\n\r\njson\r\n------warmupvkmic--\r\n"@);
    assert(part_after(lang)
        =~= "------warmupvkmic\r\nContent-Disposition: form-data; name=\"language\"\r\n\r\n"@ + lang
        + "\r\n------warmupvkmic\r\nContent-Disposition: form-data; name=\"response_format\"\r\n\r\njson\r\n------warmupvkmic--\r\n"@);
}

/// A text's first line ends before its first line end, whether that is one character or
/// two, and is the whole text where there is none.
pub proof fn first_lines_end_at_the_line_end(line: Seq<char>, rest: Seq<char>)
    requires
        forall|i: int| 0 <= i < line.len() ==> #[trigger] line[i] != '\n',
    ensures
        first_line(line) == line,
        first_line(line + seq!['\r', '\n'] + rest) == line,
        line.len() == 0 || line.last() != '\r' ==> first_line(line + seq!['\n'] + rest) == line,
{
    first_at_is_first(line, '\n');
    let two = line + seq!['\r', '\n'] + rest;
    first_at_is_first(two, '\n');
    let n = line.len() as int;
    assert(two[n] == '\r' && two[n + 1] == '\n');
    let i = first_at(two, '\n')->0;
    if i < n {
        assert(two[i] == line[i]);
    }
    assert(i == n + 1);
    assert(two.take(n) =~= line);
    let one = line + seq!['\n'] + rest;
    first_at_is_first(one, '\n');
    assert(one[n] == '\n');
    let j = first_at(one, '\n')->0;
    if j < n {
        assert(one[j] == line[j]);
    }
    assert(j == n);
    assert(one.take(n) =~= line);
    if n > 0 {
        assert(one[n - 1] == line.last());
    }
}

/// Samples are read four bytes each, low byte first; what is left over is dropped.
pub proof fn samples_are_four_bytes(bytes: Seq<u8>, i: int)
    requires
        0 <= i,
        4 * i + 3 < bytes.len(),
    ensures
        samples_in(bytes).len() == bytes.len() / 4,
        samples_in(bytes)[i] == bytes[4 * i] + 256 * bytes[4 * i + 1] + 65536 * bytes[4 * i + 2]
            + 16777216 * bytes[4 * i + 3],
{
    let part = bytes.subrange(i * 4, i * 4 + 4);
    assert(part[0] == bytes[4 * i] && part[1] == bytes[4 * i + 1] && part[2] == bytes[4 * i + 2]
        && part[3] == bytes[4 * i + 3]);
}

/// Recordings of more than sixteen million samples are refused by their number.
pub proof fn long_recordings_are_refused(n: u32)
    ensures
        n > MAX_FRAME_SAMPLES <==> n > 16_000_000,
        refusal(n) == "sample count too large: "@ + text::decimal(n as nat),
{
}

/// A reply without a whole object is an error that quotes its first line; one with an
/// object is read by its member `text`.
pub proof fn replies_are_read_by_their_text(reply: Seq<char>)
    ensures
        braces(reply) is None ==> reply_outcome(reply) == Err::<Seq<char>, Seq<char>>(
            "no JSON in response: "@ + first_line(reply),
        ),
        braces(reply) matches Some(json) ==> (json_member(json, "text"@) matches Ok(Some(t))
            ==> reply_outcome(reply) == Ok::<Seq<char>, Seq<char>>(text::trimmed(t))),
        (forall|i: int| 0 <= i < reply.len() ==> #[trigger] reply[i] != '{') ==> braces(reply) is None,
        (forall|i: int| 0 <= i < reply.len() ==> #[trigger] reply[i] != '}') ==> braces(reply) is None,
{
    first_at_is_first(reply, '{');
    last_at_is_last(reply, '}');
}

} // verus!
