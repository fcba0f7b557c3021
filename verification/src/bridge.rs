//! The stdio bridge's framing rules: what a stdin line means, the JSON-RPC
//! error reply the client receives when the backend fails, and the records
//! of the optional message log.
//!
//! The loop itself — reading stdin, posting to the backend, writing stdout —
//! runs outside the library and follows the decisions made here.

use vstd::prelude::*;
use vstd::string::*;
use crate::text::{
    chars_to_string, hex_upper, hex_upper_c, push_str_chars, spec_dec, str_to_chars, u64_to_string,
};
use crate::web::{json_check, json_wf};

verus! {

/// The line with one trailing `\n` removed, then one trailing `\r`.
pub open spec fn strip_line_end(s: Seq<char>) -> Seq<char> {
    let t = if s.len() > 0 && s[s.len() - 1] == '\n' {
        s.take(s.len() - 1)
    } else {
        s
    };
    if t.len() > 0 && t[t.len() - 1] == '\r' {
        t.take(t.len() - 1)
    } else {
        t
    }
}

/// What one stdin line asks of the bridge.
#[derive(Debug, Clone)]
pub enum LineAction {
    /// The line is empty: read on, reply with nothing.
    Skip,
    /// The line is not a JSON document: warn, reply with nothing.
    Warn,
    /// Post this text to the backend.
    Forward(String),
}

/// Classify one stdin line, newline and all: empty lines are skipped,
/// lines that are not one JSON document draw a warning and no reply, and
/// anything else is forwarded exactly as it stood, minus the line ending.
pub fn classify_line(line: &str) -> (r: LineAction)
    ensures
        r is Skip <==> strip_line_end(line@).len() == 0,
        r is Warn <==> (strip_line_end(line@).len() > 0 && !json_wf(strip_line_end(line@))),
        r matches LineAction::Forward(b) ==> (b@ == strip_line_end(line@) && json_wf(
            strip_line_end(line@),
        )),
{
    let n = line.unicode_len();
    let mut end = n;
    if end > 0 && line.get_char(end - 1) == '\n' {
        end = end - 1;
    }
    if end > 0 && line.get_char(end - 1) == '\r' {
        end = end - 1;
    }
    let content = line.substring_char(0, end);
    proof {
        assert(content@ =~= strip_line_end(line@));
    }
    if content.unicode_len() == 0 {
        return LineAction::Skip;
    }
    if !json_check(content) {
        return LineAction::Warn;
    }
    LineAction::Forward(content.to_owned())
}

/// One character of JSON string-escaping: quote, backslash and the common
/// control characters by their short escapes, other control characters as
/// `\u00` and two hexadecimal digits, everything else kept.
pub open spec fn esc_char(c: char) -> Seq<char> {
    if c == '"' {
        seq!['\\', '"']
    } else if c == '\\' {
        seq!['\\', '\\']
    } else if c == '\n' {
        seq!['\\', 'n']
    } else if c == '\r' {
        seq!['\\', 'r']
    } else if c == '\t' {
        seq!['\\', 't']
    } else if (c as u32) < 32 {
        seq!['\\', 'u', '0', '0', hex_upper((c as u32 / 16) as int), hex_upper(
            (c as u32 % 16) as int,
        )]
    } else {
        seq![c]
    }
}

/// A character sequence escaped for standing inside a JSON string literal.
pub open spec fn json_escape(s: Seq<char>) -> Seq<char>
    decreases s.len(),
{
    if s.len() == 0 {
        Seq::empty()
    } else {
        esc_char(s[0]) + json_escape(s.skip(1))
    }
}

proof fn lemma_json_escape_snoc(s: Seq<char>, c: char)
    ensures
        json_escape(s.push(c)) == json_escape(s) + esc_char(c),
    decreases s.len(),
{
    if s.len() == 0 {
        assert(s.push(c).skip(1) =~= Seq::<char>::empty());
        assert(s.push(c)[0] == c);
        assert(json_escape(s.push(c).skip(1)) =~= Seq::<char>::empty());
        assert(json_escape(s.push(c)) =~= esc_char(c));
        assert(json_escape(s) + esc_char(c) =~= esc_char(c));
    } else {
        assert(s.push(c).skip(1) =~= s.skip(1).push(c));
        assert(s.push(c)[0] == s[0]);
        lemma_json_escape_snoc(s.skip(1), c);
        assert(json_escape(s.push(c)) =~= esc_char(s[0]) + (json_escape(s.skip(1)) + esc_char(c)));
        assert(esc_char(s[0]) + (json_escape(s.skip(1)) + esc_char(c)) =~= (esc_char(s[0])
            + json_escape(s.skip(1))) + esc_char(c));
    }
}

/// Append the string's characters, JSON-escaped.
pub fn json_escape_into(out: &mut Vec<char>, s: &str)
    ensures
        final(out)@ == old(out)@ + json_escape(s@),
{
    let v = str_to_chars(s);
    let n = v.len();
    let mut i: usize = 0;
    proof {
        assert(v@.take(0) =~= Seq::<char>::empty());
        assert(out@ + json_escape(v@.take(0)) =~= out@);
    }
    while i < n
        invariant
            i <= n,
            n == v@.len(),
            v@ == s@,
            out@ == old(out)@ + json_escape(v@.take(i as int)),
        decreases n - i,
    {
        let c = v[i];
        if c == '"' {
            out.push('\\');
            out.push('"');
        } else if c == '\\' {
            out.push('\\');
            out.push('\\');
        } else if c == '\n' {
            out.push('\\');
            out.push('n');
        } else if c == '\r' {
            out.push('\\');
            out.push('r');
        } else if c == '\t' {
            out.push('\\');
            out.push('t');
        } else if (c as u32) < 32 {
            out.push('\\');
            out.push('u');
            out.push('0');
            out.push('0');
            let code = c as u32;
            let b = code as u8;
            proof {
                assert(code < 32);
                assert(b as u32 == code);
            }
            out.push(hex_upper_c(b / 16));
            out.push(hex_upper_c(b % 16));
        } else {
            out.push(c);
        }
        proof {
            lemma_json_escape_snoc(v@.take(i as int), v@[i as int]);
            assert(v@.take(i as int).push(v@[i as int]) =~= v@.take(i as int + 1));
            assert(out@ =~= old(out)@ + json_escape(v@.take(i as int + 1)));
        }
        i += 1;
    }
    proof {
        assert(v@.take(n as int) =~= v@);
    }
}

proof fn lemma_esc_char_no_newline(c: char)
    ensures
        forall|j: int| 0 <= j < esc_char(c).len() ==> esc_char(c)[j] != '\n',
{
}

/// Escaping leaves no literal newline behind: whatever the text holds, its
/// escaped form never contains `\n`.
pub proof fn lemma_json_escape_no_newline(s: Seq<char>)
    ensures
        forall|i: int| 0 <= i < json_escape(s).len() ==> json_escape(s)[i] != '\n',
    decreases s.len(),
{
    if s.len() > 0 {
        lemma_esc_char_no_newline(s[0]);
        lemma_json_escape_no_newline(s.skip(1));
        assert forall|i: int| 0 <= i < json_escape(s).len() implies json_escape(s)[i]
            != '\n' by {
            if i < esc_char(s[0]).len() {
                assert(json_escape(s)[i] == esc_char(s[0])[i]);
            } else {
                assert(json_escape(s)[i] == json_escape(s.skip(1))[i - esc_char(s[0]).len()]);
            }
        }
    }
}

/// The JSON-RPC error reply the client receives when forwarding fails: an
/// internal-error object whose message is the context, a colon and space,
/// and the detail, and whose id is null.
pub open spec fn error_reply_spec(context: Seq<char>, detail: Seq<char>) -> Seq<char> {
    "{\"jsonrpc\":\"2.0\",\"error\":{\"code\":-32603,\"message\":\""@ + json_escape(
        context + ": "@ + detail,
    ) + "\"},\"id\":null}"@
}

/// Build the JSON-RPC error reply for a failed forward.
pub fn jsonrpc_error_reply(context: &str, detail: &str) -> (r: String)
    ensures
        r@ == error_reply_spec(context@, detail@),
{
    let mut msg = context.to_owned();
    msg.append(": ");
    msg.append(detail);
    let mut out: Vec<char> = Vec::new();
    push_str_chars(&mut out, "{\"jsonrpc\":\"2.0\",\"error\":{\"code\":-32603,\"message\":\"");
    json_escape_into(&mut out, msg.as_str());
    push_str_chars(&mut out, "\"},\"id\":null}");
    chars_to_string(out)
}

/// Every error reply is a single line, whatever the context and detail
/// hold: the escaped message cannot carry a newline, and the frame around
/// it holds none.  The stdout stream's one-reply-per-line discipline
/// therefore survives arbitrary error text.
pub proof fn lemma_error_reply_single_line(context: Seq<char>, detail: Seq<char>)
    ensures
        forall|i: int|
            0 <= i < error_reply_spec(context, detail).len() ==> error_reply_spec(
                context,
                detail,
            )[i] != '\n',
{
    let pre = "{\"jsonrpc\":\"2.0\",\"error\":{\"code\":-32603,\"message\":\""@;
    let mid = json_escape(context + ": "@ + detail);
    let post = "\"},\"id\":null}"@;
    reveal_strlit("{\"jsonrpc\":\"2.0\",\"error\":{\"code\":-32603,\"message\":\"");
    reveal_strlit("\"},\"id\":null}");
    lemma_json_escape_no_newline(context + ": "@ + detail);
    assert forall|i: int|
        0 <= i < error_reply_spec(context, detail).len() implies error_reply_spec(
        context,
        detail,
    )[i] != '\n' by {
        if i < pre.len() {
            assert(error_reply_spec(context, detail)[i] == pre[i]);
        } else if i < pre.len() + mid.len() {
            assert(error_reply_spec(context, detail)[i] == mid[i - pre.len()]);
        } else {
            assert(error_reply_spec(context, detail)[i] == post[i - pre.len() - mid.len()]);
        }
    }
}

/// Which leg of the bridge a log record describes.
#[derive(Debug, Clone, Copy, PartialEq, Eq, Structural)]
pub enum LogDirection {
    ClientToProxy,
    BackendToProxy,
    ProxyToClient,
}

/// The label a direction carries in the message log.
pub open spec fn direction_label(d: LogDirection) -> Seq<char> {
    match d {
        LogDirection::ClientToProxy => "CLIENT → PROXY"@,
        LogDirection::BackendToProxy => "BACKEND → PROXY"@,
        LogDirection::ProxyToClient => "PROXY → CLIENT"@,
    }
}

/// Milliseconds rendered to exactly three digits.
pub open spec fn pad3(m: nat) -> Seq<char> {
    if m < 10 {
        seq!['0', '0'] + spec_dec(m)
    } else if m < 100 {
        seq!['0'] + spec_dec(m)
    } else {
        spec_dec(m)
    }
}

/// One record of the message log: the Unix second and zero-padded
/// millisecond in brackets, the direction, and the message, ending in a
/// newline.
pub open spec fn log_record_spec(
    d: LogDirection,
    secs: nat,
    millis: nat,
    msg: Seq<char>,
) -> Seq<char> {
    "["@ + spec_dec(secs) + "."@ + pad3(millis) + "] "@ + direction_label(d) + ": "@ + msg + "\n"@
}

/// Render one record of the message log.
pub fn log_record(d: LogDirection, secs: u64, millis: u32, msg: &str) -> (r: String)
    requires
        millis < 1000,
    ensures
        r@ == log_record_spec(d, secs as nat, millis as nat, msg@),
{
    let mut s = "[".to_owned();
    let ds = u64_to_string(secs);
    s.append(ds.as_str());
    s.append(".");
    if millis < 10 {
        s.append("00");
    } else if millis < 100 {
        s.append("0");
    }
    let dm = u64_to_string(millis as u64);
    s.append(dm.as_str());
    s.append("] ");
    match d {
        LogDirection::ClientToProxy => s.append("CLIENT → PROXY"),
        LogDirection::BackendToProxy => s.append("BACKEND → PROXY"),
        LogDirection::ProxyToClient => s.append("PROXY → CLIENT"),
    }
    s.append(": ");
    s.append(msg);
    s.append("\n");
    proof {
        reveal_strlit("00");
        reveal_strlit("0");
        assert("00"@ =~= seq!['0', '0']);
        assert("0"@ =~= seq!['0']);
    }
    s
}

} // verus!
