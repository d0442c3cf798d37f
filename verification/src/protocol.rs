//! The control-plane wire format: one JSON object per line.
//!
//! Inbound lines are commands — an object with a `"cmd"` discriminator and
//! string or number fields, in any order, unknown fields skipped.  Outbound
//! lines are responses — an object with a `"type"` discriminator.  Both
//! directions are this engine's own grammar, so the library parses and
//! renders them itself, character by character, against spec-level
//! definitions of the format.
//!
//! Volumes travel as decimal numbers; the library reads and writes them in
//! thousandths (a gain of one half is `500`), truncating any digits past
//! the third fractional place and saturating far out-of-range requests,
//! which the engine clamps anyway.

use crate::sample::GAIN_UNIT;
use vstd::prelude::*;
use vstd::string::*;

verus! {

// ---------------------------------------------------------------------
// Commands and responses
// ---------------------------------------------------------------------

/// The mathematical value of a parsed command.
pub ghost enum SpecCommand {
    ListDevices,
    SetInputDevice { device_name: Seq<char> },
    SetOutputDevice { device_name: Seq<char> },
    Play { file_path: Seq<char>, volume_milli: int },
    Stop,
    Pause,
    Resume,
    SetVolume { volume_milli: int },
    GetStatus,
    Shutdown,
}

/// A command sent by the controller, one JSON object per line.
#[derive(Debug)]
pub enum Command {
    /// Enumerate all available input and output devices.
    ListDevices,
    /// Select the capture device by exact name and open it.
    SetInputDevice { device_name: String },
    /// Select the render device by exact name and open it.
    SetOutputDevice { device_name: String },
    /// Decode a file and mix it on top of the live capture.  The volume is
    /// in thousandths and defaults to unity when absent.
    Play { file_path: String, volume_milli: i64 },
    /// Stop playback immediately.
    Stop,
    /// Pause both the capture pass-through and playback.
    Pause,
    /// Resume after a pause.
    Resume,
    /// Change the master volume, in thousandths.
    SetVolume { volume_milli: i64 },
    /// Query the mixer state.
    GetStatus,
    /// Acknowledge and end the session.
    Shutdown,
}

impl View for Command {
    type V = SpecCommand;

    open spec fn view(&self) -> SpecCommand {
        match self {
            Command::ListDevices => SpecCommand::ListDevices,
            Command::SetInputDevice { device_name } => SpecCommand::SetInputDevice {
                device_name: device_name@,
            },
            Command::SetOutputDevice { device_name } => SpecCommand::SetOutputDevice {
                device_name: device_name@,
            },
            Command::Play { file_path, volume_milli } => SpecCommand::Play {
                file_path: file_path@,
                volume_milli: *volume_milli as int,
            },
            Command::Stop => SpecCommand::Stop,
            Command::Pause => SpecCommand::Pause,
            Command::Resume => SpecCommand::Resume,
            Command::SetVolume { volume_milli } => SpecCommand::SetVolume {
                volume_milli: *volume_milli as int,
            },
            Command::GetStatus => SpecCommand::GetStatus,
            Command::Shutdown => SpecCommand::Shutdown,
        }
    }
}

/// A response to the controller, one JSON object per line.
#[derive(Debug)]
pub enum Response {
    /// The device listing.
    Devices { input: Vec<String>, output: Vec<String> },
    /// Plain success.
    Accepted,
    /// The mixer status.
    Status {
        playing: bool,
        paused: bool,
        volume: u32,
        input_device: Option<String>,
        output_device: Option<String>,
    },
    /// A command failed; carries the human-readable message.
    Error { message: String },
}

impl Response {
    /// Build an error response from a message.
    pub fn error(msg: String) -> (r: Response)
        ensures
            r == (Response::Error { message: msg }),
    {
        Response::Error { message: msg }
    }
}

// ---------------------------------------------------------------------
// Rendering responses: spec
// ---------------------------------------------------------------------

/// The decimal digit characters.
pub open spec fn digit_char(d: int) -> char {
    if d == 0 {
        '0'
    } else if d == 1 {
        '1'
    } else if d == 2 {
        '2'
    } else if d == 3 {
        '3'
    } else if d == 4 {
        '4'
    } else if d == 5 {
        '5'
    } else if d == 6 {
        '6'
    } else if d == 7 {
        '7'
    } else if d == 8 {
        '8'
    } else {
        '9'
    }
}

/// The decimal digits of `n`, most significant first.
pub open spec fn dec_rep(n: nat) -> Seq<char>
    decreases n,
{
    if n < 10 {
        seq![digit_char(n as int)]
    } else {
        dec_rep(n / 10) + seq![digit_char((n % 10) as int)]
    }
}

/// How one character appears inside a JSON string: itself, or an escape.
pub open spec fn escape_char(c: char) -> Seq<char> {
    if c == '"' {
        seq!['\\', '"']
    } else if c == '\\' {
        seq!['\\', '\\']
    } else if c == '\n' {
        seq!['\\', 'n']
    } else if c == '\r' {
        seq!['\\', 'r']
    } else if c == '\t' {
        seq!['\\', 't']
    } else if c == '\u{8}' {
        seq!['\\', 'b']
    } else if c == '\u{c}' {
        seq!['\\', 'f']
    } else if (c as u32) < 0x20 {
        seq!['\\', 'u', '0', '0', digit_char((c as u32 / 16) as int), hex_char((c as u32 % 16) as int)]
    } else {
        seq![c]
    }
}

/// The hexadecimal digit characters (lower case).
pub open spec fn hex_char(d: int) -> char {
    if d < 10 {
        digit_char(d)
    } else if d == 10 {
        'a'
    } else if d == 11 {
        'b'
    } else if d == 12 {
        'c'
    } else if d == 13 {
        'd'
    } else if d == 14 {
        'e'
    } else {
        'f'
    }
}

/// A character sequence with every character escaped for JSON.
pub open spec fn escape_seq(s: Seq<char>) -> Seq<char>
    decreases s.len(),
{
    if s.len() == 0 {
        Seq::empty()
    } else {
        escape_char(s[0]) + escape_seq(s.skip(1))
    }
}

/// A JSON string literal: quotes around the escaped characters.
pub open spec fn json_string(s: Seq<char>) -> Seq<char> {
    seq!['"'] + escape_seq(s) + seq!['"']
}

/// An optional string: a JSON string, or `null`.
pub open spec fn json_opt_string(o: Option<String>) -> Seq<char> {
    match o {
        Some(s) => json_string(s@),
        None => "null"@,
    }
}

/// A JSON boolean.
pub open spec fn json_bool(b: bool) -> Seq<char> {
    if b {
        "true"@
    } else {
        "false"@
    }
}

/// The members of a JSON array of strings, comma-separated.
pub open spec fn json_array_items(v: Seq<String>) -> Seq<char>
    decreases v.len(),
{
    if v.len() == 0 {
        Seq::empty()
    } else if v.len() == 1 {
        json_string(v[0]@)
    } else {
        json_string(v[0]@) + seq![','] + json_array_items(v.skip(1))
    }
}

/// A JSON array of strings.
pub open spec fn json_array(v: Seq<String>) -> Seq<char> {
    seq!['['] + json_array_items(v) + seq![']']
}

/// A volume in thousandths as a decimal: the whole part, a point, and one
/// to three fractional digits with trailing zeros dropped.
pub open spec fn volume_text(v: int) -> Seq<char> {
    dec_rep((v / 1000) as nat) + seq!['.'] + frac_text(v % 1000)
}

/// The fractional digits of a volume: thousandths with trailing zeros
/// dropped, at least one digit.
pub open spec fn frac_text(f: int) -> Seq<char> {
    if f == 0 {
        seq!['0']
    } else if f % 100 == 0 {
        seq![digit_char(f / 100)]
    } else if f % 10 == 0 {
        seq![digit_char(f / 100), digit_char((f / 10) % 10)]
    } else {
        seq![digit_char(f / 100), digit_char((f / 10) % 10), digit_char(f % 10)]
    }
}

/// The exact line written for each response.
pub open spec fn response_text(r: Response) -> Seq<char> {
    match r {
        Response::Devices { input, output } => "{\"type\":\"devices\",\"input\":"@ + json_array(
            input@,
        ) + ",\"output\":"@ + json_array(output@) + "}"@,
        Response::Accepted => "{\"type\":\"ok\"}"@,
        Response::Status { playing, paused, volume, input_device, output_device } =>
            "{\"type\":\"status\",\"playing\":"@ + json_bool(playing) + ",\"paused\":"@ + json_bool(
            paused,
        ) + ",\"volume\":"@ + volume_text(volume as int) + ",\"input_device\":"@ + json_opt_string(
            input_device,
        ) + ",\"output_device\":"@ + json_opt_string(output_device) + "}"@,
        Response::Error { message } => "{\"type\":\"error\",\"message\":"@ + json_string(message@)
            + "}"@,
    }
}

// ---------------------------------------------------------------------
// Rendering responses: executable
// ---------------------------------------------------------------------

/// Turn a built character sequence into a `String`.
///
/// Relies on `String`'s `FromIterator` over `char`: collecting characters
/// yields the string of exactly those characters.
#[verifier::external_body]
fn chars_to_string(v: &Vec<char>) -> (r: String)
    ensures
        r@ == v@,
{
    v.iter().collect()
}

/// Append every character of `s` to `acc`.
fn push_str_chars(acc: &mut Vec<char>, s: &str)
    ensures
        final(acc)@ == old(acc)@ + s@,
{
    let n = s.unicode_len();
    let mut i: usize = 0;
    while i < n
        invariant
            i <= n,
            n == s@.len(),
            acc@ == old(acc)@ + s@.take(i as int),
        decreases n - i,
    {
        let c = s.get_char(i);
        acc.push(c);
        proof {
            assert(s@.take(i as int + 1) =~= s@.take(i as int).push(s@[i as int]));
            assert(acc@ =~= old(acc)@ + s@.take(i as int + 1));
        }
        i = i + 1;
    }
    proof {
        assert(s@.take(n as int) =~= s@);
    }
}

/// The decimal digit character for `d`.
fn digit_char_exec(d: u32) -> (c: char)
    requires
        d < 10,
    ensures
        c == digit_char(d as int),
{
    if d == 0 {
        '0'
    } else if d == 1 {
        '1'
    } else if d == 2 {
        '2'
    } else if d == 3 {
        '3'
    } else if d == 4 {
        '4'
    } else if d == 5 {
        '5'
    } else if d == 6 {
        '6'
    } else if d == 7 {
        '7'
    } else if d == 8 {
        '8'
    } else {
        '9'
    }
}

/// The hexadecimal digit character for `d`.
fn hex_char_exec(d: u32) -> (c: char)
    requires
        d < 16,
    ensures
        c == hex_char(d as int),
{
    if d < 10 {
        digit_char_exec(d)
    } else if d == 10 {
        'a'
    } else if d == 11 {
        'b'
    } else if d == 12 {
        'c'
    } else if d == 13 {
        'd'
    } else if d == 14 {
        'e'
    } else {
        'f'
    }
}

/// Append the decimal digits of `n` to `acc`.
fn push_dec(acc: &mut Vec<char>, n: u64)
    ensures
        final(acc)@ == old(acc)@ + dec_rep(n as nat),
    decreases n,
{
    if n < 10 {
        let c = digit_char_exec(n as u32);
        acc.push(c);
        proof {
            assert(acc@ =~= old(acc)@ + dec_rep(n as nat));
        }
    } else {
        push_dec(acc, n / 10);
        let c = digit_char_exec((n % 10) as u32);
        acc.push(c);
        proof {
            assert(acc@ =~= old(acc)@ + dec_rep(n as nat));
        }
    }
}

/// Append one character of a JSON string body, escaped as needed.
fn push_escaped_char(acc: &mut Vec<char>, c: char)
    ensures
        final(acc)@ == old(acc)@ + escape_char(c),
{
    if c == '"' {
        acc.push('\\');
        acc.push('"');
    } else if c == '\\' {
        acc.push('\\');
        acc.push('\\');
    } else if c == '\n' {
        acc.push('\\');
        acc.push('n');
    } else if c == '\r' {
        acc.push('\\');
        acc.push('r');
    } else if c == '\t' {
        acc.push('\\');
        acc.push('t');
    } else if c == '\u{8}' {
        acc.push('\\');
        acc.push('b');
    } else if c == '\u{c}' {
        acc.push('\\');
        acc.push('f');
    } else if (c as u32) < 0x20 {
        acc.push('\\');
        acc.push('u');
        acc.push('0');
        acc.push('0');
        let hi = digit_char_exec((c as u32) / 16);
        acc.push(hi);
        let lo = hex_char_exec((c as u32) % 16);
        acc.push(lo);
    } else {
        acc.push(c);
    }
    proof {
        assert(acc@ =~= old(acc)@ + escape_char(c));
    }
}

proof fn lemma_escape_seq_snoc(s: Seq<char>, c: char)
    ensures
        escape_seq(s.push(c)) == escape_seq(s) + escape_char(c),
    decreases s.len(),
{
    if s.len() == 0 {
        assert(s.push(c)[0] == c);
        assert(s.push(c).skip(1) =~= Seq::<char>::empty());
        assert(escape_seq(s.push(c)) == escape_char(c) + escape_seq(s.push(c).skip(1)));
        assert(escape_seq(s) + escape_char(c) =~= escape_char(c) + escape_seq(
            Seq::<char>::empty(),
        ));
    } else {
        assert(s.push(c)[0] == s[0]);
        assert(s.push(c).skip(1) =~= s.skip(1).push(c));
        lemma_escape_seq_snoc(s.skip(1), c);
        assert(escape_seq(s.push(c)) == escape_char(s[0]) + (escape_seq(s.skip(1)) + escape_char(
            c,
        )));
        assert(escape_char(s[0]) + (escape_seq(s.skip(1)) + escape_char(c)) =~= (escape_char(s[0])
            + escape_seq(s.skip(1))) + escape_char(c));
    }
}

/// Append a full JSON string literal — quotes and escaping — for `s`.
fn push_json_string(acc: &mut Vec<char>, s: &str)
    ensures
        final(acc)@ == old(acc)@ + json_string(s@),
{
    acc.push('"');
    let n = s.unicode_len();
    let mut i: usize = 0;
    while i < n
        invariant
            i <= n,
            n == s@.len(),
            acc@ == old(acc)@ + seq!['"'] + escape_seq(s@.take(i as int)),
        decreases n - i,
    {
        let c = s.get_char(i);
        push_escaped_char(acc, c);
        proof {
            assert(s@.take(i as int + 1) =~= s@.take(i as int).push(s@[i as int]));
            lemma_escape_seq_snoc(s@.take(i as int), s@[i as int]);
            assert(acc@ =~= old(acc)@ + seq!['"'] + escape_seq(s@.take(i as int + 1)));
        }
        i = i + 1;
    }
    acc.push('"');
    proof {
        assert(s@.take(n as int) =~= s@);
        assert(acc@ =~= old(acc)@ + json_string(s@));
    }
}

/// Append `null` or a JSON string for an optional name.
fn push_opt_string(acc: &mut Vec<char>, o: &Option<String>)
    ensures
        final(acc)@ == old(acc)@ + json_opt_string(*o),
{
    match o {
        Some(s) => push_json_string(acc, s.as_str()),
        None => push_str_chars(acc, "null"),
    }
}

/// Append a JSON array of the given names.
fn push_json_array(acc: &mut Vec<char>, v: &Vec<String>)
    ensures
        final(acc)@ == old(acc)@ + json_array(v@),
{
    acc.push('[');
    proof {
        assert(acc@ =~= old(acc)@ + seq!['['] + json_array_items(v@.take(0)));
    }
    let n = v.len();
    let mut i: usize = 0;
    while i < n
        invariant
            i <= n,
            n == v@.len(),
            acc@ == old(acc)@ + seq!['['] + json_array_items(v@.take(i as int)),
        decreases n - i,
    {
        if i > 0 {
            acc.push(',');
        }
        push_json_string(acc, v[i].as_str());
        proof {
            lemma_json_array_items_snoc(v@.take(i as int), v@[i as int]);
            assert(v@.take(i as int + 1) =~= v@.take(i as int).push(v@[i as int]));
            assert(acc@ =~= old(acc)@ + seq!['['] + json_array_items(v@.take(i as int + 1)));
        }
        i = i + 1;
    }
    acc.push(']');
    proof {
        assert(v@.take(n as int) =~= v@);
        assert(acc@ =~= old(acc)@ + json_array(v@));
    }
}

proof fn lemma_json_array_items_snoc(v: Seq<String>, x: String)
    ensures
        json_array_items(v.push(x)) == if v.len() == 0 {
            json_string(x@)
        } else {
            json_array_items(v) + seq![','] + json_string(x@)
        },
    decreases v.len(),
{
    if v.len() == 0 {
        assert(v.push(x)[0] == x);
        assert(v.push(x).len() == 1);
        assert(json_array_items(v.push(x)) == json_string(x@));
    } else {
        assert(v.push(x)[0] == v[0]);
        assert(v.push(x).skip(1) =~= v.skip(1).push(x));
        lemma_json_array_items_snoc(v.skip(1), x);
        assert(json_array_items(v.push(x)) == json_string(v[0]@) + seq![','] + json_array_items(
            v.skip(1).push(x),
        ));
        if v.len() == 1 {
            assert(v.skip(1).len() == 0);
            assert(json_array_items(v) == json_string(v[0]@));
            assert(json_array_items(v.push(x)) =~= json_array_items(v) + seq![','] + json_string(
                x@,
            ));
        } else {
            assert(json_array_items(v) == json_string(v[0]@) + seq![','] + json_array_items(
                v.skip(1),
            ));
            assert(json_array_items(v.push(x)) =~= json_array_items(v) + seq![','] + json_string(
                x@,
            ));
        }
    }
}

/// Append the decimal text of a volume in thousandths.
fn push_volume(acc: &mut Vec<char>, v: u32)
    requires
        v <= GAIN_UNIT,
    ensures
        final(acc)@ == old(acc)@ + volume_text(v as int),
{
    push_dec(acc, (v / 1000) as u64);
    acc.push('.');
    let f = v % 1000;
    if f == 0 {
        acc.push('0');
    } else if f % 100 == 0 {
        let c = digit_char_exec(f / 100);
        acc.push(c);
    } else if f % 10 == 0 {
        let c1 = digit_char_exec(f / 100);
        acc.push(c1);
        let c2 = digit_char_exec((f / 10) % 10);
        acc.push(c2);
    } else {
        let c1 = digit_char_exec(f / 100);
        acc.push(c1);
        let c2 = digit_char_exec((f / 10) % 10);
        acc.push(c2);
        let c3 = digit_char_exec(f % 10);
        acc.push(c3);
    }
    proof {
        assert(acc@ =~= old(acc)@ + volume_text(v as int));
    }
}

/// Render a response as its one-line JSON text.
pub fn render_response(r: &Response) -> (out: String)
    requires
        r matches Response::Status { volume, .. } ==> volume <= GAIN_UNIT,
    ensures
        out@ == response_text(*r),
{
    let mut acc: Vec<char> = Vec::new();
    match r {
        Response::Devices { input, output } => {
            push_str_chars(&mut acc, "{\"type\":\"devices\",\"input\":");
            push_json_array(&mut acc, input);
            push_str_chars(&mut acc, ",\"output\":");
            push_json_array(&mut acc, output);
            push_str_chars(&mut acc, "}");
        },
        Response::Accepted => {
            push_str_chars(&mut acc, "{\"type\":\"ok\"}");
        },
        Response::Status { playing, paused, volume, input_device, output_device } => {
            push_str_chars(&mut acc, "{\"type\":\"status\",\"playing\":");
            push_str_chars(&mut acc, if *playing { "true" } else { "false" });
            push_str_chars(&mut acc, ",\"paused\":");
            push_str_chars(&mut acc, if *paused { "true" } else { "false" });
            push_str_chars(&mut acc, ",\"volume\":");
            push_volume(&mut acc, *volume);
            push_str_chars(&mut acc, ",\"input_device\":");
            push_opt_string(&mut acc, input_device);
            push_str_chars(&mut acc, ",\"output_device\":");
            push_opt_string(&mut acc, output_device);
            push_str_chars(&mut acc, "}");
        },
        Response::Error { message } => {
            push_str_chars(&mut acc, "{\"type\":\"error\",\"message\":");
            push_json_string(&mut acc, message.as_str());
            push_str_chars(&mut acc, "}");
        },
    }
    proof {
        assert(acc@ =~= response_text(*r));
    }
    chars_to_string(&acc)
}


// ---------------------------------------------------------------------
// Parsing commands: spec
// ---------------------------------------------------------------------

/// JSON whitespace.
pub open spec fn is_ws(c: char) -> bool {
    c == ' ' || c == '\t' || c == '\n' || c == '\r'
}

/// The first position at or after `i` holding no whitespace.
pub open spec fn sp_skip_ws(s: Seq<char>, i: int) -> int
    decreases s.len() - i,
{
    if 0 <= i && i < s.len() && is_ws(s[i]) {
        sp_skip_ws(s, i + 1)
    } else {
        i
    }
}

/// An ASCII decimal digit.
pub open spec fn is_digit(c: char) -> bool {
    48 <= c as u32 <= 57
}

/// The value of a decimal digit character.
pub open spec fn digit_val(c: char) -> int {
    c as u32 - 48
}

/// The escape letters accepted after a backslash in a string.
pub open spec fn is_escape_code(e: char) -> bool {
    e == '"' || e == '\\' || e == '/' || e == 'n' || e == 't' || e == 'r' || e == 'b' || e == 'f'
}

/// The character an escape letter stands for.
pub open spec fn unescape(e: char) -> char {
    if e == 'n' {
        '\n'
    } else if e == 't' {
        '\t'
    } else if e == 'r' {
        '\r'
    } else if e == 'b' {
        '\u{8}'
    } else if e == 'f' {
        '\u{c}'
    } else {
        e
    }
}

/// Parse a JSON string body starting just after the opening quote at
/// `i - 1`: the decoded characters and the position after the closing
/// quote.  Unescaped control characters and unknown escapes are refused.
pub open spec fn sp_parse_string(s: Seq<char>, i: int) -> Option<(Seq<char>, int)>
    decreases s.len() - i,
{
    if i < 0 || i >= s.len() {
        None
    } else if s[i] == '"' {
        Some((Seq::empty(), i + 1))
    } else if s[i] == '\\' {
        if i + 1 >= s.len() {
            None
        } else {
            let e = s[i + 1];
            if is_escape_code(e) {
                match sp_parse_string(s, i + 2) {
                    Some(t) => Some((seq![unescape(e)] + t.0, t.1)),
                    None => None,
                }
            } else {
                None
            }
        }
    } else if (s[i] as u32) < 0x20 {
        None
    } else {
        match sp_parse_string(s, i + 1) {
            Some(t) => Some((seq![s[i]] + t.0, t.1)),
            None => None,
        }
    }
}

/// The saturation bound for a number's whole part.
pub open spec fn sat_acc(v: int) -> int {
    if v > 100_000_000_000 {
        100_000_000_000
    } else {
        v
    }
}

/// Read a run of digits from `i`, accumulating their saturated value.
pub open spec fn sp_digits(s: Seq<char>, i: int, acc: int) -> (int, int)
    decreases s.len() - i,
{
    if 0 <= i && i < s.len() && is_digit(s[i]) {
        sp_digits(s, i + 1, sat_acc(acc * 10 + digit_val(s[i])))
    } else {
        (acc, i)
    }
}

/// Read fractional digits from `i` with place weight `w` (thousandths):
/// their contribution in thousandths and the position after the run.
/// Digits past the third fractional place weigh nothing.
pub open spec fn sp_frac(s: Seq<char>, i: int, w: int) -> (int, int)
    decreases s.len() - i,
{
    if 0 <= i && i < s.len() && is_digit(s[i]) {
        let t = sp_frac(s, i + 1, w / 10);
        (digit_val(s[i]) * w + t.0, t.1)
    } else {
        (0, i)
    }
}

/// Parse a JSON number at `i` into thousandths: an optional minus, a whole
/// part without leading zeros, and an optional fraction.  Exponent forms
/// are not part of this grammar.
pub open spec fn sp_parse_number(s: Seq<char>, i: int) -> Option<(int, int)> {
    let neg = 0 <= i && i < s.len() && s[i] == '-';
    let i1 = if neg {
        i + 1
    } else {
        i
    };
    if !(0 <= i1 && i1 < s.len() && is_digit(s[i1])) {
        None
    } else {
        let t = if s[i1] == '0' {
            (0, i1 + 1)
        } else {
            sp_digits(s, i1, 0)
        };
        let ip = t.0;
        let i2 = t.1;
        if i2 < s.len() && s[i2] == '.' {
            if i2 + 1 < s.len() && is_digit(s[i2 + 1]) {
                let f = sp_frac(s, i2 + 1, 100);
                Some(
                    (
                        if neg {
                            -(ip * 1000 + f.0)
                        } else {
                            ip * 1000 + f.0
                        },
                        f.1,
                    ),
                )
            } else {
                None
            }
        } else {
            Some(
                (
                    if neg {
                        -(ip * 1000)
                    } else {
                        ip * 1000
                    },
                    i2,
                ),
            )
        }
    }
}

/// The literal `true` at `i`.
pub open spec fn lit_true_at(s: Seq<char>, i: int) -> bool {
    0 <= i && i + 4 <= s.len() && s[i] == 't' && s[i + 1] == 'r' && s[i + 2] == 'u' && s[i + 3]
        == 'e'
}

/// The literal `false` at `i`.
pub open spec fn lit_false_at(s: Seq<char>, i: int) -> bool {
    0 <= i && i + 5 <= s.len() && s[i] == 'f' && s[i + 1] == 'a' && s[i + 2] == 'l' && s[i + 3]
        == 's' && s[i + 4] == 'e'
}

/// The literal `null` at `i`.
pub open spec fn lit_null_at(s: Seq<char>, i: int) -> bool {
    0 <= i && i + 4 <= s.len() && s[i] == 'n' && s[i + 1] == 'u' && s[i + 2] == 'l' && s[i + 3]
        == 'l'
}

/// Skip one JSON value of any form at `i`; the position after it.  `fuel`
/// bounds the nesting and member count; one unit more than the input's
/// length is always enough.
pub open spec fn sp_skip_value(s: Seq<char>, i: int, fuel: nat) -> Option<int>
    decreases fuel, 0int,
{
    if fuel == 0 {
        None
    } else if !(0 <= i && i < s.len()) {
        None
    } else if s[i] == '"' {
        match sp_parse_string(s, i + 1) {
            Some(t) => Some(t.1),
            None => None,
        }
    } else if s[i] == '-' || is_digit(s[i]) {
        match sp_parse_number(s, i) {
            Some(t) => Some(t.1),
            None => None,
        }
    } else if lit_true_at(s, i) {
        Some(i + 4)
    } else if lit_false_at(s, i) {
        Some(i + 5)
    } else if lit_null_at(s, i) {
        Some(i + 4)
    } else if s[i] == '{' {
        let j = sp_skip_ws(s, i + 1);
        if j < s.len() && s[j] == '}' {
            Some(j + 1)
        } else {
            sp_skip_members(s, j, (fuel - 1) as nat)
        }
    } else if s[i] == '[' {
        let j = sp_skip_ws(s, i + 1);
        if j < s.len() && s[j] == ']' {
            Some(j + 1)
        } else {
            sp_skip_elements(s, j, (fuel - 1) as nat)
        }
    } else {
        None
    }
}

/// Skip the members of an object being skipped, from the start of a
/// member, through to the position after the closing brace.
pub open spec fn sp_skip_members(s: Seq<char>, i: int, fuel: nat) -> Option<int>
    decreases fuel, 1int,
{
    if fuel == 0 {
        None
    } else if !(0 <= i && i < s.len() && s[i] == '"') {
        None
    } else {
        match sp_parse_string(s, i + 1) {
            None => None,
            Some(kt) => {
                let j = sp_skip_ws(s, kt.1);
                if !(j < s.len() && s[j] == ':') {
                    None
                } else {
                    match sp_skip_value(s, sp_skip_ws(s, j + 1), fuel) {
                        None => None,
                        Some(j2) => {
                            let j3 = sp_skip_ws(s, j2);
                            if j3 < s.len() && s[j3] == ',' {
                                sp_skip_members(s, sp_skip_ws(s, j3 + 1), (fuel - 1) as nat)
                            } else if j3 < s.len() && s[j3] == '}' {
                                Some(j3 + 1)
                            } else {
                                None
                            }
                        },
                    }
                }
            },
        }
    }
}

/// Skip the elements of an array being skipped, from the start of an
/// element, through to the position after the closing bracket.
pub open spec fn sp_skip_elements(s: Seq<char>, i: int, fuel: nat) -> Option<int>
    decreases fuel, 1int,
{
    if fuel == 0 {
        None
    } else {
        match sp_skip_value(s, i, fuel) {
            None => None,
            Some(j) => {
                let j2 = sp_skip_ws(s, j);
                if j2 < s.len() && s[j2] == ',' {
                    sp_skip_elements(s, sp_skip_ws(s, j2 + 1), (fuel - 1) as nat)
                } else if j2 < s.len() && s[j2] == ']' {
                    Some(j2 + 1)
                } else {
                    None
                }
            },
        }
    }
}

/// The fields a command object may carry, as collected so far.
pub ghost struct SpecFields {
    pub cmd: Option<Seq<char>>,
    pub device_name: Option<Seq<char>>,
    pub file_path: Option<Seq<char>>,
    pub volume: Option<int>,
}

/// No fields seen yet.
pub open spec fn empty_fields() -> SpecFields {
    SpecFields { cmd: None, device_name: None, file_path: None, volume: None }
}

/// Parse the members of a command object, from the start of a member (a
/// key string), through to the position after the closing brace.  A known
/// key takes its typed value, and appearing twice is an error; an unknown
/// key's value is skipped whole.
pub open spec fn sp_fields(s: Seq<char>, i: int, fs: SpecFields, fuel: nat) -> Option<
    (SpecFields, int),
>
    decreases fuel,
{
    if fuel == 0 {
        None
    } else if !(0 <= i && i < s.len() && s[i] == '"') {
        None
    } else {
        match sp_parse_string(s, i + 1) {
            None => None,
            Some(kt) => {
                let key = kt.0;
                let j = sp_skip_ws(s, kt.1);
                if !(j < s.len() && s[j] == ':') {
                    None
                } else {
                    let j2 = sp_skip_ws(s, j + 1);
                    let vres: Option<(SpecFields, int)> = if key == "cmd"@ || key
                        == "device_name"@ || key == "file_path"@ {
                        if !(j2 < s.len() && s[j2] == '"') {
                            None
                        } else {
                            match sp_parse_string(s, j2 + 1) {
                                None => None,
                                Some(vt) => if key == "cmd"@ {
                                    if fs.cmd is Some {
                                        None
                                    } else {
                                        Some(
                                            (
                                                SpecFields {
                                                    cmd: Some(vt.0),
                                                    device_name: fs.device_name,
                                                    file_path: fs.file_path,
                                                    volume: fs.volume,
                                                },
                                                vt.1,
                                            ),
                                        )
                                    }
                                } else if key == "device_name"@ {
                                    if fs.device_name is Some {
                                        None
                                    } else {
                                        Some(
                                            (
                                                SpecFields {
                                                    cmd: fs.cmd,
                                                    device_name: Some(vt.0),
                                                    file_path: fs.file_path,
                                                    volume: fs.volume,
                                                },
                                                vt.1,
                                            ),
                                        )
                                    }
                                } else {
                                    if fs.file_path is Some {
                                        None
                                    } else {
                                        Some(
                                            (
                                                SpecFields {
                                                    cmd: fs.cmd,
                                                    device_name: fs.device_name,
                                                    file_path: Some(vt.0),
                                                    volume: fs.volume,
                                                },
                                                vt.1,
                                            ),
                                        )
                                    }
                                },
                            }
                        }
                    } else if key == "volume"@ {
                        match sp_parse_number(s, j2) {
                            None => None,
                            Some(vt) => if fs.volume is Some {
                                None
                            } else {
                                Some(
                                    (
                                        SpecFields {
                                            cmd: fs.cmd,
                                            device_name: fs.device_name,
                                            file_path: fs.file_path,
                                            volume: Some(vt.0),
                                        },
                                        vt.1,
                                    ),
                                )
                            },
                        }
                    } else {
                        match sp_skip_value(s, j2, fuel) {
                            None => None,
                            Some(j3) => Some((fs, j3)),
                        }
                    };
                    match vres {
                        None => None,
                        Some(r2) => {
                            let j4 = sp_skip_ws(s, r2.1);
                            if j4 < s.len() && s[j4] == ',' {
                                sp_fields(s, sp_skip_ws(s, j4 + 1), r2.0, (fuel - 1) as nat)
                            } else if j4 < s.len() && s[j4] == '}' {
                                Some((r2.0, j4 + 1))
                            } else {
                                None
                            }
                        },
                    }
                }
            },
        }
    }
}

/// Assemble a command from the collected fields: the discriminator picks
/// the kind, which demands its fields; a missing `volume` on `play` means
/// unity.
pub open spec fn sp_assemble(fs: SpecFields) -> Option<SpecCommand> {
    match fs.cmd {
        None => None,
        Some(c) => {
            if c == "list_devices"@ {
                Some(SpecCommand::ListDevices)
            } else if c == "set_input_device"@ {
                match fs.device_name {
                    Some(d) => Some(SpecCommand::SetInputDevice { device_name: d }),
                    None => None,
                }
            } else if c == "set_output_device"@ {
                match fs.device_name {
                    Some(d) => Some(SpecCommand::SetOutputDevice { device_name: d }),
                    None => None,
                }
            } else if c == "play"@ {
                match fs.file_path {
                    Some(p) => Some(
                        SpecCommand::Play {
                            file_path: p,
                            volume_milli: match fs.volume {
                                Some(v) => v,
                                None => 1000,
                            },
                        },
                    ),
                    None => None,
                }
            } else if c == "stop"@ {
                Some(SpecCommand::Stop)
            } else if c == "pause"@ {
                Some(SpecCommand::Pause)
            } else if c == "resume"@ {
                Some(SpecCommand::Resume)
            } else if c == "set_volume"@ {
                match fs.volume {
                    Some(v) => Some(SpecCommand::SetVolume { volume_milli: v }),
                    None => None,
                }
            } else if c == "get_status"@ {
                Some(SpecCommand::GetStatus)
            } else if c == "shutdown"@ {
                Some(SpecCommand::Shutdown)
            } else {
                None
            }
        },
    }
}

/// The whole line as a command: whitespace, one object, whitespace, end
/// of input; anything else is a protocol error.
pub open spec fn sp_parse_command(s: Seq<char>) -> Option<SpecCommand> {
    let i0 = sp_skip_ws(s, 0);
    if !(i0 < s.len() && s[i0] == '{') {
        None
    } else {
        let i1 = sp_skip_ws(s, i0 + 1);
        let fres = if i1 < s.len() && s[i1] == '}' {
            Some((empty_fields(), i1 + 1))
        } else {
            sp_fields(s, i1, empty_fields(), s.len())
        };
        match fres {
            None => None,
            Some(t) => {
                if sp_skip_ws(s, t.1) == s.len() {
                    sp_assemble(t.0)
                } else {
                    None
                }
            },
        }
    }
}

/// A line of nothing but whitespace, which the driver ignores.
pub open spec fn sp_blank_line(s: Seq<char>) -> bool {
    sp_skip_ws(s, 0) == s.len()
}


// ---------------------------------------------------------------------
// Parsing commands: executable
// ---------------------------------------------------------------------

/// Whether `v` holds exactly the characters of `s`.
fn vec_eq_str(v: &Vec<char>, s: &str) -> (r: bool)
    ensures
        r == (v@ == s@),
{
    let n = s.unicode_len();
    if v.len() != n {
        proof {
            if v@ == s@ {
                assert(v@.len() == s@.len());
            }
        }
        return false;
    }
    let mut i: usize = 0;
    while i < n
        invariant
            i <= n,
            n == s@.len(),
            v@.len() == n,
            forall|k: int| 0 <= k < i ==> v@[k] == s@[k],
        decreases n - i,
    {
        let a = v[i];
        let b = s.get_char(i);
        if a != b {
            proof {
                if v@ == s@ {
                    assert(v@[i as int] == s@[i as int]);
                }
            }
            return false;
        }
        i = i + 1;
    }
    proof {
        assert(v@ =~= s@);
    }
    true
}

/// Move past whitespace.
fn skip_ws_x(s: &str, n: usize, i: usize) -> (j: usize)
    requires
        n == s@.len(),
        i <= n,
    ensures
        j as int == sp_skip_ws(s@, i as int),
        i <= j <= n,
    decreases n - i,
{
    if i < n {
        let c = s.get_char(i);
        if c == ' ' || c == '\t' || c == '\n' || c == '\r' {
            return skip_ws_x(s, n, i + 1);
        }
    }
    i
}

/// Parse a JSON string body after its opening quote.
fn parse_string_x(s: &str, n: usize, i: usize) -> (r: Option<(Vec<char>, usize)>)
    requires
        n == s@.len(),
        i <= n,
    ensures
        match r {
            Some(t) => sp_parse_string(s@, i as int) == Some((t.0@, t.1 as int)) && i < t.1 <= n,
            None => sp_parse_string(s@, i as int) is None,
        },
    decreases n - i,
{
    if i >= n {
        return None;
    }
    let c = s.get_char(i);
    if c == '"' {
        let v: Vec<char> = Vec::new();
        return Some((v, i + 1));
    }
    if c == '\\' {
        if i + 1 >= n {
            return None;
        }
        let e = s.get_char(i + 1);
        let u: char;
        if e == '"' {
            u = '"';
        } else if e == '\\' {
            u = '\\';
        } else if e == '/' {
            u = '/';
        } else if e == 'n' {
            u = '\n';
        } else if e == 't' {
            u = '\t';
        } else if e == 'r' {
            u = '\r';
        } else if e == 'b' {
            u = '\u{8}';
        } else if e == 'f' {
            u = '\u{c}';
        } else {
            return None;
        }
        match parse_string_x(s, n, i + 2) {
            Some(t) => {
                let (mut v, j) = t;
                v.insert(0, u);
                proof {
                    assert(v@ =~= seq![unescape(s@[i as int + 1])] + v@.skip(1));
                }
                Some((v, j))
            },
            None => None,
        }
    } else if (c as u32) < 0x20 {
        None
    } else {
        match parse_string_x(s, n, i + 1) {
            Some(t) => {
                let (mut v, j) = t;
                v.insert(0, c);
                proof {
                    assert(v@ =~= seq![s@[i as int]] + v@.skip(1));
                }
                Some((v, j))
            },
            None => None,
        }
    }
}


/// Read a run of digits, saturating the accumulated whole part.
fn digits_x(s: &str, n: usize, i: usize, acc: i64) -> (r: (i64, usize))
    requires
        n == s@.len(),
        i <= n,
        0 <= acc <= 100_000_000_000i64,
    ensures
        r.0 as int == sp_digits(s@, i as int, acc as int).0,
        r.1 as int == sp_digits(s@, i as int, acc as int).1,
        i <= r.1 <= n,
        0 <= r.0 <= 100_000_000_000i64,
    decreases n - i,
{
    if i < n {
        let c = s.get_char(i);
        if (c as u32) >= 48 && (c as u32) <= 57 {
            let d = (c as u32) - 48;
            let acc1 = acc * 10 + d as i64;
            let acc2 = if acc1 > 100_000_000_000i64 {
                100_000_000_000i64
            } else {
                acc1
            };
            return digits_x(s, n, i + 1, acc2);
        }
    }
    (acc, i)
}

/// Read fractional digits with place weight `w`.
fn frac_x(s: &str, n: usize, i: usize, w: u32) -> (r: (i64, usize))
    requires
        n == s@.len(),
        i <= n,
        w == 100 || w == 10 || w == 1 || w == 0,
    ensures
        r.0 as int == sp_frac(s@, i as int, w as int).0,
        r.1 as int == sp_frac(s@, i as int, w as int).1,
        i <= r.1 <= n,
        0 <= r.0 <= if w == 100 {
            999int
        } else if w == 10 {
            99int
        } else if w == 1 {
            9int
        } else {
            0int
        },
    decreases n - i,
{
    if i < n {
        let c = s.get_char(i);
        if (c as u32) >= 48 && (c as u32) <= 57 {
            let d = (c as u32) - 48;
            let t = frac_x(s, n, i + 1, w / 10);
            proof {
                assert(0 <= d <= 9);
                if w == 100 {
                    assert((d as int) * (w as int) <= 900);
                } else if w == 10 {
                    assert((d as int) * (w as int) <= 90);
                } else if w == 1 {
                    assert((d as int) * (w as int) <= 9);
                } else {
                    assert((d as int) * (w as int) == 0);
                }
            }
            return ((d as i64) * (w as i64) + t.0, t.1);
        }
    }
    (0, i)
}

/// Parse a JSON number into thousandths.
fn parse_number_x(s: &str, n: usize, i: usize) -> (r: Option<(i64, usize)>)
    requires
        n == s@.len(),
        i <= n,
    ensures
        match r {
            Some(t) => sp_parse_number(s@, i as int) == Some((t.0 as int, t.1 as int)) && t.1 <= n
                && -100_000_000_001_000i64 <= t.0 <= 100_000_000_001_000i64,
            None => sp_parse_number(s@, i as int) is None,
        },
{
    let mut neg = false;
    let mut i1 = i;
    if i < n {
        let c = s.get_char(i);
        if c == '-' {
            neg = true;
            i1 = i + 1;
        }
    }
    if i1 >= n {
        return None;
    }
    let c1 = s.get_char(i1);
    if !((c1 as u32) >= 48 && (c1 as u32) <= 57) {
        return None;
    }
    let ip: i64;
    let i2: usize;
    if c1 == '0' {
        ip = 0;
        i2 = i1 + 1;
    } else {
        let t = digits_x(s, n, i1, 0);
        ip = t.0;
        i2 = t.1;
    }
    if i2 < n && s.get_char(i2) == '.' {
        if i2 + 1 < n {
            let cf = s.get_char(i2 + 1);
            if (cf as u32) >= 48 && (cf as u32) <= 57 {
                let f = frac_x(s, n, i2 + 1, 100);
                let v = ip * 1000 + f.0;
                return Some((if neg { -v } else { v }, f.1));
            }
        }
        None
    } else {
        let v = ip * 1000;
        Some((if neg { -v } else { v }, i2))
    }
}

/// Skip one JSON value of any form.
fn skip_value_x(s: &str, n: usize, i: usize, fuel: usize) -> (r: Option<usize>)
    requires
        n == s@.len(),
        i <= n,
    ensures
        match r {
            Some(j) => sp_skip_value(s@, i as int, fuel as nat) == Some(j as int) && j <= n,
            None => sp_skip_value(s@, i as int, fuel as nat) is None,
        },
    decreases fuel, 0int,
{
    if fuel == 0 {
        return None;
    }
    if i >= n {
        return None;
    }
    let c = s.get_char(i);
    if c == '"' {
        match parse_string_x(s, n, i + 1) {
            Some(t) => Some(t.1),
            None => None,
        }
    } else if c == '-' || ((c as u32) >= 48 && (c as u32) <= 57) {
        match parse_number_x(s, n, i) {
            Some(t) => Some(t.1),
            None => None,
        }
    } else if c == 't' && n - i >= 4 && s.get_char(i + 1) == 'r' && s.get_char(i + 2) == 'u'
        && s.get_char(i + 3) == 'e' {
        Some(i + 4)
    } else if c == 'f' && n - i >= 5 && s.get_char(i + 1) == 'a' && s.get_char(i + 2) == 'l'
        && s.get_char(i + 3) == 's' && s.get_char(i + 4) == 'e' {
        Some(i + 5)
    } else if c == 'n' && n - i >= 4 && s.get_char(i + 1) == 'u' && s.get_char(i + 2) == 'l'
        && s.get_char(i + 3) == 'l' {
        Some(i + 4)
    } else if c == '{' {
        let j = skip_ws_x(s, n, i + 1);
        if j < n && s.get_char(j) == '}' {
            Some(j + 1)
        } else {
            skip_members_x(s, n, j, fuel - 1)
        }
    } else if c == '[' {
        let j = skip_ws_x(s, n, i + 1);
        if j < n && s.get_char(j) == ']' {
            Some(j + 1)
        } else {
            skip_elements_x(s, n, j, fuel - 1)
        }
    } else {
        None
    }
}

/// Skip an object's members within a value being skipped.
fn skip_members_x(s: &str, n: usize, i: usize, fuel: usize) -> (r: Option<usize>)
    requires
        n == s@.len(),
        i <= n,
    ensures
        match r {
            Some(j) => sp_skip_members(s@, i as int, fuel as nat) == Some(j as int) && j <= n,
            None => sp_skip_members(s@, i as int, fuel as nat) is None,
        },
    decreases fuel, 1int,
{
    if fuel == 0 {
        return None;
    }
    if !(i < n && s.get_char(i) == '"') {
        return None;
    }
    match parse_string_x(s, n, i + 1) {
        None => None,
        Some(kt) => {
            let j = skip_ws_x(s, n, kt.1);
            if !(j < n && s.get_char(j) == ':') {
                return None;
            }
            let j1 = skip_ws_x(s, n, j + 1);
            match skip_value_x(s, n, j1, fuel) {
                None => None,
                Some(j2) => {
                    let j3 = skip_ws_x(s, n, j2);
                    if j3 < n && s.get_char(j3) == ',' {
                        let j5 = skip_ws_x(s, n, j3 + 1);
                        skip_members_x(s, n, j5, fuel - 1)
                    } else if j3 < n && s.get_char(j3) == '}' {
                        Some(j3 + 1)
                    } else {
                        None
                    }
                },
            }
        },
    }
}

/// Skip an array's elements within a value being skipped.
fn skip_elements_x(s: &str, n: usize, i: usize, fuel: usize) -> (r: Option<usize>)
    requires
        n == s@.len(),
        i <= n,
    ensures
        match r {
            Some(j) => sp_skip_elements(s@, i as int, fuel as nat) == Some(j as int) && j <= n,
            None => sp_skip_elements(s@, i as int, fuel as nat) is None,
        },
    decreases fuel, 1int,
{
    if fuel == 0 {
        return None;
    }
    match skip_value_x(s, n, i, fuel) {
        None => None,
        Some(j) => {
            let j2 = skip_ws_x(s, n, j);
            if j2 < n && s.get_char(j2) == ',' {
                let j4 = skip_ws_x(s, n, j2 + 1);
                skip_elements_x(s, n, j4, fuel - 1)
            } else if j2 < n && s.get_char(j2) == ']' {
                Some(j2 + 1)
            } else {
                None
            }
        },
    }
}

/// The fields collected while parsing a command object.
pub struct ParsedFields {
    /// The `cmd` discriminator, when seen.
    pub cmd: Option<Vec<char>>,
    /// The `device_name` field, when seen.
    pub device_name: Option<Vec<char>>,
    /// The `file_path` field, when seen.
    pub file_path: Option<Vec<char>>,
    /// The `volume` field in thousandths, when seen.
    pub volume: Option<i64>,
}

impl View for ParsedFields {
    type V = SpecFields;

    open spec fn view(&self) -> SpecFields {
        SpecFields {
            cmd: match self.cmd {
                Some(v) => Some(v@),
                None => None,
            },
            device_name: match self.device_name {
                Some(v) => Some(v@),
                None => None,
            },
            file_path: match self.file_path {
                Some(v) => Some(v@),
                None => None,
            },
            volume: match self.volume {
                Some(v) => Some(v as int),
                None => None,
            },
        }
    }
}

/// Parse a command object's members from the start of a member.
fn fields_x(s: &str, n: usize, i: usize, fs: ParsedFields, fuel: usize) -> (r: Option<
    (ParsedFields, usize),
>)
    requires
        n == s@.len(),
        i <= n,
        match fs@.volume {
            Some(v) => -100_000_000_001_000 <= v <= 100_000_000_001_000,
            None => true,
        },
    ensures
        match r {
            Some(t) => sp_fields(s@, i as int, fs@, fuel as nat) == Some((t.0@, t.1 as int))
                && t.1 <= n && match t.0@.volume {
                Some(v) => -100_000_000_001_000 <= v <= 100_000_000_001_000,
                None => true,
            },
            None => sp_fields(s@, i as int, fs@, fuel as nat) is None,
        },
    decreases fuel,
{
    if fuel == 0 {
        return None;
    }
    if !(i < n && s.get_char(i) == '"') {
        return None;
    }
    match parse_string_x(s, n, i + 1) {
        None => None,
        Some(kt) => {
            let (key, k1) = kt;
            let j = skip_ws_x(s, n, k1);
            if !(j < n && s.get_char(j) == ':') {
                return None;
            }
            let j2 = skip_ws_x(s, n, j + 1);
            let is_cmd = vec_eq_str(&key, "cmd");
            let is_dev = vec_eq_str(&key, "device_name");
            let is_path = vec_eq_str(&key, "file_path");
            let vres: Option<(ParsedFields, usize)> = if is_cmd || is_dev || is_path {
                if !(j2 < n && s.get_char(j2) == '"') {
                    None
                } else {
                    match parse_string_x(s, n, j2 + 1) {
                        None => None,
                        Some(vt) => {
                            let (val, v1) = vt;
                            if is_cmd {
                                if fs.cmd.is_some() {
                                    None
                                } else {
                                    Some(
                                        (
                                            ParsedFields {
                                                cmd: Some(val),
                                                device_name: fs.device_name,
                                                file_path: fs.file_path,
                                                volume: fs.volume,
                                            },
                                            v1,
                                        ),
                                    )
                                }
                            } else if is_dev {
                                if fs.device_name.is_some() {
                                    None
                                } else {
                                    Some(
                                        (
                                            ParsedFields {
                                                cmd: fs.cmd,
                                                device_name: Some(val),
                                                file_path: fs.file_path,
                                                volume: fs.volume,
                                            },
                                            v1,
                                        ),
                                    )
                                }
                            } else {
                                if fs.file_path.is_some() {
                                    None
                                } else {
                                    Some(
                                        (
                                            ParsedFields {
                                                cmd: fs.cmd,
                                                device_name: fs.device_name,
                                                file_path: Some(val),
                                                volume: fs.volume,
                                            },
                                            v1,
                                        ),
                                    )
                                }
                            }
                        },
                    }
                }
            } else if vec_eq_str(&key, "volume") {
                match parse_number_x(s, n, j2) {
                    None => None,
                    Some(vt) => {
                        if fs.volume.is_some() {
                            None
                        } else {
                            Some(
                                (
                                    ParsedFields {
                                        cmd: fs.cmd,
                                        device_name: fs.device_name,
                                        file_path: fs.file_path,
                                        volume: Some(vt.0),
                                    },
                                    vt.1,
                                ),
                            )
                        }
                    },
                }
            } else {
                match skip_value_x(s, n, j2, fuel) {
                    None => None,
                    Some(j3) => Some((fs, j3)),
                }
            };
            match vres {
                None => None,
                Some(r2) => {
                    let (f2, p2) = r2;
                    let j4 = skip_ws_x(s, n, p2);
                    if j4 < n && s.get_char(j4) == ',' {
                        let j6 = skip_ws_x(s, n, j4 + 1);
                        fields_x(s, n, j6, f2, fuel - 1)
                    } else if j4 < n && s.get_char(j4) == '}' {
                        Some((f2, j4 + 1))
                    } else {
                        None
                    }
                },
            }
        },
    }
}

/// Build the command the collected fields call for.
fn assemble_x(fs: ParsedFields) -> (r: Option<Command>)
    requires
        match fs@.volume {
            Some(v) => -100_000_000_001_000 <= v <= 100_000_000_001_000,
            None => true,
        },
    ensures
        match r {
            Some(c) => sp_assemble(fs@) == Some(c@),
            None => sp_assemble(fs@) is None,
        },
{
    match fs.cmd {
        None => None,
        Some(cv) => {
            if vec_eq_str(&cv, "list_devices") {
                Some(Command::ListDevices)
            } else if vec_eq_str(&cv, "set_input_device") {
                match fs.device_name {
                    Some(d) => Some(
                        Command::SetInputDevice { device_name: chars_to_string(&d) },
                    ),
                    None => None,
                }
            } else if vec_eq_str(&cv, "set_output_device") {
                match fs.device_name {
                    Some(d) => Some(
                        Command::SetOutputDevice { device_name: chars_to_string(&d) },
                    ),
                    None => None,
                }
            } else if vec_eq_str(&cv, "play") {
                match fs.file_path {
                    Some(p) => {
                        let vol: i64 = match fs.volume {
                            Some(v) => v,
                            None => 1000,
                        };
                        Some(Command::Play { file_path: chars_to_string(&p), volume_milli: vol })
                    },
                    None => None,
                }
            } else if vec_eq_str(&cv, "stop") {
                Some(Command::Stop)
            } else if vec_eq_str(&cv, "pause") {
                Some(Command::Pause)
            } else if vec_eq_str(&cv, "resume") {
                Some(Command::Resume)
            } else if vec_eq_str(&cv, "set_volume") {
                match fs.volume {
                    Some(v) => Some(Command::SetVolume { volume_milli: v }),
                    None => None,
                }
            } else if vec_eq_str(&cv, "get_status") {
                Some(Command::GetStatus)
            } else if vec_eq_str(&cv, "shutdown") {
                Some(Command::Shutdown)
            } else {
                None
            }
        },
    }
}

/// Parse one line as a command: `Some` exactly on the lines the grammar
/// accepts, with the command's mathematical value pinned by the spec.
pub fn parse_command(line: &str) -> (r: Option<Command>)
    ensures
        match r {
            Some(c) => sp_parse_command(line@) == Some(c@),
            None => sp_parse_command(line@) is None,
        },
{
    let n = line.unicode_len();
    let i0 = skip_ws_x(line, n, 0);
    if i0 >= n {
        return None;
    }
    if line.get_char(i0) != '{' {
        return None;
    }
    let i1 = skip_ws_x(line, n, i0 + 1);
    let fres: Option<(ParsedFields, usize)> = if i1 < n && line.get_char(i1) == '}' {
        Some((ParsedFields { cmd: None, device_name: None, file_path: None, volume: None }, i1 + 1))
    } else {
        fields_x(
            line,
            n,
            i1,
            ParsedFields { cmd: None, device_name: None, file_path: None, volume: None },
            n,
        )
    };
    match fres {
        None => None,
        Some(t) => {
            let (f2, p2) = t;
            let j = skip_ws_x(line, n, p2);
            if j == n {
                assemble_x(f2)
            } else {
                None
            }
        },
    }
}

/// Whether a line holds nothing but whitespace; such lines are ignored.
pub fn is_blank_line(line: &str) -> (r: bool)
    ensures
        r == sp_blank_line(line@),
{
    let n = line.unicode_len();
    let j = skip_ws_x(line, n, 0);
    j == n
}


} // verus!
