//! Outbound request bodies, framed as JSON text with verified string
//! escaping, and the fixed request parameters of each provider call.

use vstd::prelude::*;

verus! {

/// The hexadecimal digit character for a value below sixteen.
pub open spec fn hex_digit(d: int) -> char {
    if d == 0 {
        '0'
    } else if d == 1 {
        '1'
    } else if d == 2 {
        '2'
    } else if d == 3 {
        '3'
    } else if d == 4 {
        '4'
    } else if d == 5 {
        '5'
    } else if d == 6 {
        '6'
    } else if d == 7 {
        '7'
    } else if d == 8 {
        '8'
    } else if d == 9 {
        '9'
    } else if d == 10 {
        'a'
    } else if d == 11 {
        'b'
    } else if d == 12 {
        'c'
    } else if d == 13 {
        'd'
    } else if d == 14 {
        'e'
    } else {
        'f'
    }
}

fn hex_digit_char(d: u32) -> (c: char)
    requires
        d < 16,
    ensures
        c == hex_digit(d as int),
{
    if d == 0 {
        '0'
    } else if d == 1 {
        '1'
    } else if d == 2 {
        '2'
    } else if d == 3 {
        '3'
    } else if d == 4 {
        '4'
    } else if d == 5 {
        '5'
    } else if d == 6 {
        '6'
    } else if d == 7 {
        '7'
    } else if d == 8 {
        '8'
    } else if d == 9 {
        '9'
    } else if d == 10 {
        'a'
    } else if d == 11 {
        'b'
    } else if d == 12 {
        'c'
    } else if d == 13 {
        'd'
    } else if d == 14 {
        'e'
    } else {
        'f'
    }
}

/// How one character reads inside a JSON string literal: quotes and
/// backslashes escaped, control characters as `\n`, `\r`, `\t` or a
/// `\u00..` escape, and everything else as itself.
pub open spec fn escape_char(c: char) -> Seq<char> {
    if c == '"' {
        seq!['\\', '"']
    } else if c == '\\' {
        seq!['\\', '\\']
    } else if c == '\n' {
        seq!['\\', 'n']
    } else if c == '\r' {
        seq!['\\', 'r']
    } else if c == '\t' {
        seq!['\\', 't']
    } else if (c as u32) < 32 {
        seq!['\\', 'u', '0', '0', hex_digit(c as u32 as int / 16), hex_digit(c as u32 as int % 16)]
    } else {
        seq![c]
    }
}

/// How a text reads inside a JSON string literal.
pub open spec fn json_escaped(s: Seq<char>) -> Seq<char>
    decreases s.len(),
{
    if s.len() == 0 {
        Seq::empty()
    } else {
        escape_char(s[0]) + json_escaped(s.drop_first())
    }
}

proof fn lemma_json_escaped_push(s: Seq<char>, c: char)
    ensures
        json_escaped(s.push(c)) == json_escaped(s) + escape_char(c),
    decreases s.len(),
{
    if s.len() == 0 {
        assert(s.push(c)[0] == c);
        assert(s.push(c).drop_first() =~= Seq::<char>::empty());
        assert(json_escaped(s.push(c)) == escape_char(c) + json_escaped(Seq::<char>::empty()));
        assert(json_escaped(s.push(c)) =~= json_escaped(s) + escape_char(c));
    } else {
        assert(s.push(c)[0] == s[0]);
        assert(s.push(c).drop_first() =~= s.drop_first().push(c));
        lemma_json_escaped_push(s.drop_first(), c);
        assert(json_escaped(s.push(c)) == escape_char(s[0]) + (json_escaped(s.drop_first())
            + escape_char(c)));
        assert(json_escaped(s) == escape_char(s[0]) + json_escaped(s.drop_first()));
        assert(json_escaped(s.push(c)) =~= json_escaped(s) + escape_char(c));
    }
}

/// Relies on String::push: appends the one character to the end.
#[verifier::external_body]
fn push_char(s: &mut String, c: char)
    ensures
        final(s)@ == old(s)@.push(c),
{
    s.push(c);
}

/// Escape a text for inclusion inside a JSON string literal.
pub fn escape_json(s: &str) -> (r: String)
    ensures
        r@ == json_escaped(s@),
{
    let n = s.unicode_len();
    let mut out = String::new();
    let mut i: usize = 0;
    while i < n
        invariant
            0 <= i <= n,
            n == s@.len(),
            out@ == json_escaped(s@.subrange(0, i as int)),
        decreases n - i,
    {
        let c = s.get_char(i);
        if c == '"' {
            push_char(&mut out, '\\');
            push_char(&mut out, '"');
        } else if c == '\\' {
            push_char(&mut out, '\\');
            push_char(&mut out, '\\');
        } else if c == '\n' {
            push_char(&mut out, '\\');
            push_char(&mut out, 'n');
        } else if c == '\r' {
            push_char(&mut out, '\\');
            push_char(&mut out, 'r');
        } else if c == '\t' {
            push_char(&mut out, '\\');
            push_char(&mut out, 't');
        } else if (c as u32) < 32 {
            push_char(&mut out, '\\');
            push_char(&mut out, 'u');
            push_char(&mut out, '0');
            push_char(&mut out, '0');
            push_char(&mut out, hex_digit_char((c as u32) / 16));
            push_char(&mut out, hex_digit_char((c as u32) % 16));
        } else {
            push_char(&mut out, c);
        }
        proof {
            let pre = s@.subrange(0, i as int);
            assert(out@ =~= json_escaped(pre) + escape_char(s@[i as int]));
            lemma_json_escaped_push(pre, s@[i as int]);
            assert(pre.push(s@[i as int]) =~= s@.subrange(0, i as int + 1));
        }
        i = i + 1;
    }
    proof {
        assert(s@.subrange(0, n as int) =~= s@);
    }
    out
}

/// The completion request around an escaped transcript: the fixed model,
/// the fixed system persona, the transcript as the user turn, and the
/// fixed sampling temperature and output bound.
pub open spec fn completion_body_spec(transcript: Seq<char>) -> Seq<char> {
    "{\"model\":\"llama-3.1-8b-instant\",\"messages\":[{\"role\":\"system\",\"content\":\"You are Nova, a warm friendly AI assistant. Reply in 1-2 sentences max. Be natural.\"},{\"role\":\"user\",\"content\":\""@
        + json_escaped(transcript)
        + "\"}],\"temperature\":0.7,\"max_tokens\":100}"@
}

/// Build the completion provider's request body for a transcript.
pub fn completion_request_body(transcript: &str) -> (r: String)
    ensures
        r@ == completion_body_spec(transcript@),
{
    let mut out = String::from_str(
        "{\"model\":\"llama-3.1-8b-instant\",\"messages\":[{\"role\":\"system\",\"content\":\"You are Nova, a warm friendly AI assistant. Reply in 1-2 sentences max. Be natural.\"},{\"role\":\"user\",\"content\":\"",
    );
    let escaped = escape_json(transcript);
    out.append(escaped.as_str());
    out.append("\"}],\"temperature\":0.7,\"max_tokens\":100}");
    proof {
        assert(out@ =~= completion_body_spec(transcript@));
    }
    out
}

/// The synthesis request around an escaped reply text: the fixed voice
/// model and the fixed prosody parameters.
pub open spec fn synthesis_body_spec(text: Seq<char>) -> Seq<char> {
    "{\"text\":\""@ + json_escaped(text)
        + "\",\"model_id\":\"eleven_turbo_v2_5\",\"voice_settings\":{\"stability\":0.5,\"similarity_boost\":0.85,\"style\":0.2,\"use_speaker_boost\":true}}"@
}

/// Build the synthesis provider's request body for a reply text.
pub fn synthesis_request_body(text: &str) -> (r: String)
    ensures
        r@ == synthesis_body_spec(text@),
{
    let mut out = String::from_str("{\"text\":\"");
    let escaped = escape_json(text);
    out.append(escaped.as_str());
    out.append(
        "\",\"model_id\":\"eleven_turbo_v2_5\",\"voice_settings\":{\"stability\":0.5,\"similarity_boost\":0.85,\"style\":0.2,\"use_speaker_boost\":true}}",
    );
    proof {
        assert(out@ =~= synthesis_body_spec(text@));
    }
    out
}

/// The transcription model sent with the audio.
pub fn stt_model() -> (r: &'static str)
    ensures
        r@ == "whisper-large-v3-turbo"@,
{
    "whisper-large-v3-turbo"
}

/// The language hint sent with the audio.
pub fn stt_language() -> (r: &'static str)
    ensures
        r@ == "en"@,
{
    "en"
}

/// The response format asked of the transcription provider.
pub fn stt_response_format() -> (r: &'static str)
    ensures
        r@ == "json"@,
{
    "json"
}

/// The fixed voice selection sent to the synthesis provider.
pub fn synthesis_voice_id() -> (r: &'static str)
    ensures
        r@ == "21m00Tcm4TlvDq8ikWAM"@,
{
    "21m00Tcm4TlvDq8ikWAM"
}

} // verus!
