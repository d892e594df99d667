//! Commands and responses of the client/daemon socket protocol, and their
//! wire encoding.
//!
//! The client sends one command per connection as a single JSON value on
//! one line and reads back one response line. Commands are externally
//! tagged: bare variants are a JSON string (`"Stop"`), variants with
//! parameters are a one-entry object whose value lists the fields in
//! declaration order. The encoder always produces this canonical compact
//! form, and the parser accepts exactly it.

use vstd::prelude::*;
use crate::chars::chars_to_string;
use crate::chars::push_str_chars;
use crate::chars::str_to_chars;
use crate::json::escape_string;
use crate::json::parse_string_body;
use crate::json::lemma_parse_escaped;
use crate::json::push_escaped_from;
use crate::json::scan_string_body;

verus! {

/// A command sent from the client to the daemon.
pub enum IpcCmd {
    /// Begin a recording session.
    Start { paste: bool, prompt: Option<String>, direct_input: bool },
    /// End the recording session.
    Stop,
    /// Begin when idle, end when recording.
    Toggle { paste: bool, prompt: Option<String>, direct_input: bool },
    /// Report the session state.
    Status,
    /// List the capture devices.
    ListDevices,
    /// Report whether the daemon is usable.
    Health,
}

/// The mathematical value of a command, with prompts as character
/// sequences.
pub enum CmdView {
    Start { paste: bool, prompt: Option<Seq<char>>, direct_input: bool },
    Stop,
    Toggle { paste: bool, prompt: Option<Seq<char>>, direct_input: bool },
    Status,
    ListDevices,
    Health,
}

/// The character-sequence value of an optional prompt.
pub open spec fn opt_string_view(p: Option<String>) -> Option<Seq<char>> {
    match p {
        Some(s) => Some(s@),
        None => None,
    }
}

impl View for IpcCmd {
    type V = CmdView;

    open spec fn view(&self) -> CmdView {
        match self {
            IpcCmd::Start { paste, prompt, direct_input } => CmdView::Start {
                paste: *paste,
                prompt: opt_string_view(*prompt),
                direct_input: *direct_input,
            },
            IpcCmd::Stop => CmdView::Stop,
            IpcCmd::Toggle { paste, prompt, direct_input } => CmdView::Toggle {
                paste: *paste,
                prompt: opt_string_view(*prompt),
                direct_input: *direct_input,
            },
            IpcCmd::Status => CmdView::Status,
            IpcCmd::ListDevices => CmdView::ListDevices,
            IpcCmd::Health => CmdView::Health,
        }
    }
}

/// A response from the daemon.
pub struct IpcResp {
    pub ok: bool,
    pub msg: String,
}

/// The mathematical value of a response.
pub struct RespView {
    pub ok: bool,
    pub msg: Seq<char>,
}

impl View for IpcResp {
    type V = RespView;

    open spec fn view(&self) -> RespView {
        RespView { ok: self.ok, msg: self.msg@ }
    }
}

/// The JSON rendering of a boolean.
pub open spec fn spec_encode_bool(b: bool) -> Seq<char> {
    if b {
        "true"@
    } else {
        "false"@
    }
}

/// The JSON rendering of an optional prompt: `null` or a quoted string.
pub open spec fn spec_encode_prompt(p: Option<Seq<char>>) -> Seq<char> {
    match p {
        None => "null"@,
        Some(s) => seq!['"'] + escape_string(s) + seq!['"'],
    }
}

/// The JSON object holding the parameters of `Start` and `Toggle`.
pub open spec fn spec_encode_params(
    paste: bool,
    prompt: Option<Seq<char>>,
    direct_input: bool,
) -> Seq<char> {
    "{\"paste\":"@ + spec_encode_bool(paste) + ",\"prompt\":"@ + spec_encode_prompt(prompt)
        + ",\"direct_input\":"@ + spec_encode_bool(direct_input) + "}"@
}

/// The canonical line encoding of a command.
pub open spec fn spec_encode_cmd(c: CmdView) -> Seq<char> {
    match c {
        CmdView::Start { paste, prompt, direct_input } => "{\"Start\":"@ + spec_encode_params(
            paste,
            prompt,
            direct_input,
        ) + "}"@,
        CmdView::Stop => "\"Stop\""@,
        CmdView::Toggle { paste, prompt, direct_input } => "{\"Toggle\":"@ + spec_encode_params(
            paste,
            prompt,
            direct_input,
        ) + "}"@,
        CmdView::Status => "\"Status\""@,
        CmdView::ListDevices => "\"ListDevices\""@,
        CmdView::Health => "\"Health\""@,
    }
}

/// The canonical line encoding of a response.
pub open spec fn spec_encode_resp(r: RespView) -> Seq<char> {
    "{\"ok\":"@ + spec_encode_bool(r.ok) + ",\"msg\":"@ + seq!['"'] + escape_string(r.msg)
        + seq!['"'] + "}"@
}

/// `Some(rest)` when `s` is `p` followed by `rest`.
pub open spec fn strip_prefix(s: Seq<char>, p: Seq<char>) -> Option<Seq<char>> {
    if p.len() <= s.len() && s.subrange(0, p.len() as int) == p {
        Some(s.skip(p.len() as int))
    } else {
        None
    }
}

/// Reads a boolean token off the front of `s`.
pub open spec fn parse_bool(s: Seq<char>) -> Option<(bool, Seq<char>)> {
    match strip_prefix(s, "true"@) {
        Some(r) => Some((true, r)),
        None => match strip_prefix(s, "false"@) {
            Some(r) => Some((false, r)),
            None => None,
        },
    }
}

/// Reads `null` or a quoted string off the front of `s`.
pub open spec fn parse_prompt(s: Seq<char>) -> Option<(Option<Seq<char>>, Seq<char>)> {
    match strip_prefix(s, "null"@) {
        Some(r) => Some((None, r)),
        None => match strip_prefix(s, seq!['"']) {
            Some(r) => match parse_string_body(r) {
                Some((d, rest)) => Some((Some(d), rest)),
                None => None,
            },
            None => None,
        },
    }
}

/// Reads the parameter object of `Start` and `Toggle` off the front of
/// `s`.
pub open spec fn parse_params(s: Seq<char>) -> Option<((bool, Option<Seq<char>>, bool), Seq<char>)> {
    match strip_prefix(s, "{\"paste\":"@) {
        Some(s1) => match parse_bool(s1) {
            Some((paste, s2)) => match strip_prefix(s2, ",\"prompt\":"@) {
                Some(s3) => match parse_prompt(s3) {
                    Some((prompt, s4)) => match strip_prefix(s4, ",\"direct_input\":"@) {
                        Some(s5) => match parse_bool(s5) {
                            Some((direct_input, s6)) => match strip_prefix(s6, "}"@) {
                                Some(s7) => Some(((paste, prompt, direct_input), s7)),
                                None => None,
                            },
                            None => None,
                        },
                        None => None,
                    },
                    None => None,
                },
                None => None,
            },
            None => None,
        },
        None => None,
    }
}

/// The command a whole line stands for, or `None` when the line is not a
/// canonical command encoding.
pub open spec fn spec_parse_cmd(s: Seq<char>) -> Option<CmdView> {
    if s == "\"Stop\""@ {
        Some(CmdView::Stop)
    } else if s == "\"Status\""@ {
        Some(CmdView::Status)
    } else if s == "\"ListDevices\""@ {
        Some(CmdView::ListDevices)
    } else if s == "\"Health\""@ {
        Some(CmdView::Health)
    } else {
        match strip_prefix(s, "{\"Start\":"@) {
            Some(r) => match parse_params(r) {
                Some(((paste, prompt, direct_input), rest)) => if rest == "}"@ {
                    Some(CmdView::Start { paste, prompt, direct_input })
                } else {
                    None
                },
                None => None,
            },
            None => match strip_prefix(s, "{\"Toggle\":"@) {
                Some(r) => match parse_params(r) {
                    Some(((paste, prompt, direct_input), rest)) => if rest == "}"@ {
                        Some(CmdView::Toggle { paste, prompt, direct_input })
                    } else {
                        None
                    },
                    None => None,
                },
                None => None,
            },
        }
    }
}

/// The response a whole line stands for, or `None` when the line is not a
/// canonical response encoding.
pub open spec fn spec_parse_resp(s: Seq<char>) -> Option<RespView> {
    match strip_prefix(s, "{\"ok\":"@) {
        Some(s1) => match parse_bool(s1) {
            Some((ok, s2)) => match strip_prefix(s2, ",\"msg\":"@) {
                Some(s3) => match strip_prefix(s3, seq!['"']) {
                    Some(s4) => match parse_string_body(s4) {
                        Some((msg, rest)) => if rest == "}"@ {
                            Some(RespView { ok, msg })
                        } else {
                            None
                        },
                        None => None,
                    },
                    None => None,
                },
                None => None,
            },
            None => None,
        },
        None => None,
    }
}

/// Stripping a sequence's own prefix leaves the rest.
proof fn lemma_strip_concat(p: Seq<char>, r: Seq<char>)
    ensures
        strip_prefix(p + r, p) == Some(r),
{
    assert((p + r).subrange(0, p.len() as int) =~= p);
    assert((p + r).skip(p.len() as int) =~= r);
}

/// A sequence that differs from `p` at some position does not start with
/// `p`.
proof fn lemma_not_prefix(s: Seq<char>, p: Seq<char>, i: int)
    requires
        0 <= i < p.len(),
        i < s.len(),
        s[i] != p[i],
    ensures
        strip_prefix(s, p) is None,
{
    if p.len() <= s.len() && s.subrange(0, p.len() as int) == p {
        assert(s.subrange(0, p.len() as int)[i] == s[i]);
        assert(false);
    }
}

/// Sequences of different lengths differ.
proof fn lemma_neq_len(s: Seq<char>, t: Seq<char>)
    requires
        s.len() != t.len(),
    ensures
        s != t,
{
    if s == t {
        assert(s.len() == t.len());
    }
}

/// Sequences that differ at some position differ.
proof fn lemma_neq_at(s: Seq<char>, t: Seq<char>, i: int)
    requires
        0 <= i < s.len(),
        i < t.len(),
        s[i] != t[i],
    ensures
        s != t,
{
    if s == t {
        assert(s[i] == t[i]);
    }
}

/// A boolean token reads back as itself.
proof fn lemma_bool_round_trip(b: bool, rest: Seq<char>)
    ensures
        parse_bool(spec_encode_bool(b) + rest) == Some((b, rest)),
{
    reveal_strlit("true");
    reveal_strlit("false");
    if b {
        lemma_strip_concat("true"@, rest);
    } else {
        lemma_strip_concat("false"@, rest);
        let s = "false"@ + rest;
        assert(s[0] == 'f');
        assert(strip_prefix(s, "true"@) is None);
    }
}

/// A prompt token reads back as itself.
proof fn lemma_prompt_round_trip(p: Option<Seq<char>>, rest: Seq<char>)
    ensures
        parse_prompt(spec_encode_prompt(p) + rest) == Some((p, rest)),
{
    reveal_strlit("null");
    match p {
        None => {
            lemma_strip_concat("null"@, rest);
        },
        Some(inner) => {
            let s = spec_encode_prompt(p) + rest;
            assert(s[0] == '"');
            lemma_not_prefix(s, "null"@, 0);
            lemma_strip_concat(seq!['"'], escape_string(inner) + seq!['"'] + rest);
            assert(s =~= seq!['"'] + (escape_string(inner) + seq!['"'] + rest));
            lemma_parse_escaped(inner, rest);
        },
    }
}

/// A parameter object reads back as itself.
#[verifier::rlimit(60)]
proof fn lemma_params_round_trip(
    paste: bool,
    prompt: Option<Seq<char>>,
    direct_input: bool,
    rest: Seq<char>,
)
    ensures
        parse_params(spec_encode_params(paste, prompt, direct_input) + rest) == Some(
            ((paste, prompt, direct_input), rest),
        ),
{
    let s = spec_encode_params(paste, prompt, direct_input) + rest;
    let t1 = spec_encode_bool(paste) + (",\"prompt\":"@ + (spec_encode_prompt(prompt) + (
    ",\"direct_input\":"@ + (spec_encode_bool(direct_input) + ("}"@ + rest)))));
    assert(s =~= "{\"paste\":"@ + t1);
    lemma_strip_concat("{\"paste\":"@, t1);
    let t2 = ",\"prompt\":"@ + (spec_encode_prompt(prompt) + (",\"direct_input\":"@ + (
    spec_encode_bool(direct_input) + ("}"@ + rest))));
    assert(t1 =~= spec_encode_bool(paste) + t2);
    lemma_bool_round_trip(paste, t2);
    let t3 = spec_encode_prompt(prompt) + (",\"direct_input\":"@ + (spec_encode_bool(direct_input)
        + ("}"@ + rest)));
    lemma_strip_concat(",\"prompt\":"@, t3);
    let t4 = ",\"direct_input\":"@ + (spec_encode_bool(direct_input) + ("}"@ + rest));
    assert(t3 =~= spec_encode_prompt(prompt) + t4);
    lemma_prompt_round_trip(prompt, t4);
    let t5 = spec_encode_bool(direct_input) + ("}"@ + rest);
    lemma_strip_concat(",\"direct_input\":"@, t5);
    let t6 = "}"@ + rest;
    assert(t5 =~= spec_encode_bool(direct_input) + t6);
    lemma_bool_round_trip(direct_input, t6);
    lemma_strip_concat("}"@, rest);
}

/// Parsing the canonical encoding of a command yields that command back.
/// This is the wire-format round trip: nothing of a command is lost on the
/// way to a line and back.
pub proof fn lemma_cmd_round_trip(c: CmdView)
    ensures
        spec_parse_cmd(spec_encode_cmd(c)) == Some(c),
{
    reveal_strlit("\"Stop\"");
    reveal_strlit("\"Status\"");
    reveal_strlit("\"ListDevices\"");
    reveal_strlit("\"Health\"");
    reveal_strlit("{\"Start\":");
    reveal_strlit("{\"Toggle\":");
    reveal_strlit("}");
    let s = spec_encode_cmd(c);
    match c {
        CmdView::Stop => {
        },
        CmdView::Status => {
            lemma_neq_len(s, "\"Stop\""@);
        },
        CmdView::ListDevices => {
            lemma_neq_len(s, "\"Stop\""@);
            lemma_neq_len(s, "\"Status\""@);
        },
        CmdView::Health => {
            lemma_neq_len(s, "\"Stop\""@);
            lemma_neq_at(s, "\"Status\""@, 1);
            lemma_neq_len(s, "\"ListDevices\""@);
        },
        CmdView::Start { paste, prompt, direct_input } => {
            let body = spec_encode_params(paste, prompt, direct_input);
            assert(s =~= "{\"Start\":"@ + (body + "}"@));
            assert(s[0] == '{');
            lemma_neq_at(s, "\"Stop\""@, 0);
            lemma_neq_at(s, "\"Status\""@, 0);
            lemma_neq_at(s, "\"ListDevices\""@, 0);
            lemma_neq_at(s, "\"Health\""@, 0);
            lemma_strip_concat("{\"Start\":"@, body + "}"@);
            lemma_params_round_trip(paste, prompt, direct_input, "}"@);
        },
        CmdView::Toggle { paste, prompt, direct_input } => {
            let body = spec_encode_params(paste, prompt, direct_input);
            assert(s =~= "{\"Toggle\":"@ + (body + "}"@));
            assert(s[0] == '{');
            lemma_neq_at(s, "\"Stop\""@, 0);
            lemma_neq_at(s, "\"Status\""@, 0);
            lemma_neq_at(s, "\"ListDevices\""@, 0);
            lemma_neq_at(s, "\"Health\""@, 0);
            assert(s[2] == 'T');
            lemma_not_prefix(s, "{\"Start\":"@, 2);
            lemma_strip_concat("{\"Toggle\":"@, body + "}"@);
            lemma_params_round_trip(paste, prompt, direct_input, "}"@);
        },
    }
}

/// Parsing the canonical encoding of a response yields that response back.
pub proof fn lemma_resp_round_trip(r: RespView)
    ensures
        spec_parse_resp(spec_encode_resp(r)) == Some(r),
{
    let s = spec_encode_resp(r);
    let t1 = spec_encode_bool(r.ok) + (",\"msg\":"@ + (seq!['"'] + (escape_string(r.msg) + (
    seq!['"'] + "}"@))));
    assert(s =~= "{\"ok\":"@ + t1);
    lemma_strip_concat("{\"ok\":"@, t1);
    let t2 = ",\"msg\":"@ + (seq!['"'] + (escape_string(r.msg) + (seq!['"'] + "}"@)));
    assert(t1 =~= spec_encode_bool(r.ok) + t2);
    lemma_bool_round_trip(r.ok, t2);
    let t3 = seq!['"'] + (escape_string(r.msg) + (seq!['"'] + "}"@));
    lemma_strip_concat(",\"msg\":"@, t3);
    let t4 = escape_string(r.msg) + (seq!['"'] + "}"@);
    assert(t3 =~= seq!['"'] + t4);
    lemma_strip_concat(seq!['"'], t4);
    assert(t4 =~= escape_string(r.msg) + seq!['"'] + "}"@);
    lemma_parse_escaped(r.msg, "}"@);
    assert(spec_parse_resp(s) == Some(RespView { ok: r.ok, msg: r.msg }));
    assert(RespView { ok: r.ok, msg: r.msg } == r);
}


/// Appends the JSON rendering of a boolean.
fn push_bool(out: &mut Vec<char>, b: bool)
    ensures
        final(out)@ == old(out)@ + spec_encode_bool(b),
{
    if b {
        push_str_chars(out, "true");
    } else {
        push_str_chars(out, "false");
    }
}

/// Appends the JSON rendering of an optional prompt.
fn push_prompt(out: &mut Vec<char>, p: &Option<String>)
    ensures
        final(out)@ == old(out)@ + spec_encode_prompt(opt_string_view(*p)),
{
    match p {
        None => {
            push_str_chars(out, "null");
        },
        Some(s) => {
            out.push('"');
            let cs = str_to_chars(s.as_str());
            assert(cs@.skip(0) =~= s@);
            push_escaped_from(&cs, 0, out);
            out.push('"');
            assert(out@ =~= old(out)@ + (seq!['"'] + escape_string(s@) + seq!['"']));
        },
    }
}

/// Appends the parameter object of `Start` and `Toggle`.
fn push_params(out: &mut Vec<char>, paste: bool, prompt: &Option<String>, direct_input: bool)
    ensures
        final(out)@ == old(out)@ + spec_encode_params(
            paste,
            opt_string_view(*prompt),
            direct_input,
        ),
{
    push_str_chars(out, "{\"paste\":");
    push_bool(out, paste);
    push_str_chars(out, ",\"prompt\":");
    push_prompt(out, prompt);
    push_str_chars(out, ",\"direct_input\":");
    push_bool(out, direct_input);
    push_str_chars(out, "}");
    assert(out@ =~= old(out)@ + spec_encode_params(
        paste,
        opt_string_view(*prompt),
        direct_input,
    ));
}

/// Renders a command as its canonical wire line (without the newline).
pub fn encode_cmd(c: &IpcCmd) -> (r: String)
    ensures
        r@ == spec_encode_cmd(c@),
{
    let mut out: Vec<char> = Vec::new();
    match c {
        IpcCmd::Start { paste, prompt, direct_input } => {
            push_str_chars(&mut out, "{\"Start\":");
            push_params(&mut out, *paste, prompt, *direct_input);
            push_str_chars(&mut out, "}");
        },
        IpcCmd::Stop => {
            push_str_chars(&mut out, "\"Stop\"");
        },
        IpcCmd::Toggle { paste, prompt, direct_input } => {
            push_str_chars(&mut out, "{\"Toggle\":");
            push_params(&mut out, *paste, prompt, *direct_input);
            push_str_chars(&mut out, "}");
        },
        IpcCmd::Status => {
            push_str_chars(&mut out, "\"Status\"");
        },
        IpcCmd::ListDevices => {
            push_str_chars(&mut out, "\"ListDevices\"");
        },
        IpcCmd::Health => {
            push_str_chars(&mut out, "\"Health\"");
        },
    }
    assert(out@ =~= spec_encode_cmd(c@));
    chars_to_string(&out)
}

/// Renders a response as its canonical wire line (without the newline).
pub fn encode_resp(r: &IpcResp) -> (s: String)
    ensures
        s@ == spec_encode_resp(r@),
{
    let mut out: Vec<char> = Vec::new();
    push_str_chars(&mut out, "{\"ok\":");
    push_bool(&mut out, r.ok);
    push_str_chars(&mut out, ",\"msg\":");
    out.push('"');
    let cs = str_to_chars(r.msg.as_str());
    assert(cs@.skip(0) =~= r.msg@);
    push_escaped_from(&cs, 0, &mut out);
    out.push('"');
    push_str_chars(&mut out, "}");
    assert(out@ =~= spec_encode_resp(r@));
    chars_to_string(&out)
}

/// Checks whether `kw` stands in `v` at position `i`; on success returns
/// the position just past it.
fn has_prefix(v: &Vec<char>, i: usize, kw: &str) -> (r: Option<usize>)
    requires
        i <= v@.len(),
    ensures
        r matches Some(j) ==> i <= j <= v@.len() && j == i + kw@.len() && strip_prefix(
            v@.skip(i as int),
            kw@,
        ) == Some(v@.skip(j as int)),
        r is None ==> strip_prefix(v@.skip(i as int), kw@) is None,
{
    let ghost s = v@.skip(i as int);
    let k = str_to_chars(kw);
    let n = v.len();
    if n - i < k.len() {
        assert(strip_prefix(s, kw@) is None);
        return None;
    }
    let mut t: usize = 0;
    while t < k.len()
        invariant
            k@ == kw@,
            n == v@.len(),
            i + k@.len() <= n,
            i <= n,
            t <= k@.len(),
            s == v@.skip(i as int),
            forall|m: int| 0 <= m < t ==> v@[i + m] == k@[m],
        decreases k@.len() - t,
    {
        if v[i + t] != k[t] {
            proof {
                assert(s[t as int] == v@[i + t]);
                lemma_not_prefix(s, kw@, t as int);
            }
            return None;
        }
        t = t + 1;
    }
    proof {
        assert forall|m: int| 0 <= m < k@.len() implies s.subrange(0, k@.len() as int)[m]
            == kw@[m] by {
            assert(s[m] == v@[i + m]);
        }
        assert(s.subrange(0, k@.len() as int) =~= kw@);
        assert(s.skip(k@.len() as int) =~= v@.skip(i + k@.len()));
    }
    Some(i + k.len())
}

/// Checks whether `v` is exactly the characters of `kw`.
fn eq_keyword(v: &Vec<char>, kw: &str) -> (r: bool)
    ensures
        r == (v@ == kw@),
{
    assert(v@.skip(0) =~= v@);
    match has_prefix(v, 0, kw) {
        Some(j) => {
            if j == v.len() {
                proof {
                    assert(v@.subrange(0, kw@.len() as int) == kw@);
                    assert(kw@.len() == v@.len());
                    assert(v@.subrange(0, v@.len() as int) =~= v@);
                }
                true
            } else {
                proof {
                    lemma_neq_len(v@, kw@);
                }
                false
            }
        },
        None => {
            proof {
                if v@ == kw@ {
                    assert(v@.subrange(0, kw@.len() as int) =~= kw@);
                    assert(false);
                }
            }
            false
        },
    }
}

/// Reads a boolean token at position `i`.
fn parse_bool_at(v: &Vec<char>, i: usize) -> (r: Option<(bool, usize)>)
    requires
        i <= v@.len(),
    ensures
        r matches Some(p) ==> p.1 <= v@.len() && parse_bool(v@.skip(i as int)) == Some(
            (p.0, v@.skip(p.1 as int)),
        ),
        r is None ==> parse_bool(v@.skip(i as int)) is None,
{
    match has_prefix(v, i, "true") {
        Some(j) => Some((true, j)),
        None => match has_prefix(v, i, "false") {
            Some(j) => Some((false, j)),
            None => None,
        },
    }
}

/// Reads `null` or a quoted string at position `i`.
fn parse_prompt_at(v: &Vec<char>, i: usize) -> (r: Option<(Option<String>, usize)>)
    requires
        i <= v@.len(),
    ensures
        r matches Some(p) ==> p.1 <= v@.len() && parse_prompt(v@.skip(i as int)) == Some(
            (opt_string_view(p.0), v@.skip(p.1 as int)),
        ),
        r is None ==> parse_prompt(v@.skip(i as int)) is None,
{
    let ghost s = v@.skip(i as int);
    match has_prefix(v, i, "null") {
        Some(j) => Some((None, j)),
        None => {
            if i < v.len() && v[i] == '"' {
                proof {
                    assert(s[0] == '"');
                    assert(s.subrange(0, 1) =~= seq!['"']);
                    assert(s.skip(1) =~= v@.skip(i as int + 1));
                }
                let mut decoded: Vec<char> = Vec::new();
                match scan_string_body(v, i + 1, &mut decoded) {
                    Some(j) => {
                        let p = chars_to_string(&decoded);
                        Some((Some(p), j))
                    },
                    None => None,
                }
            } else {
                proof {
                    if strip_prefix(s, seq!['"']) is Some {
                        assert(s.subrange(0, 1)[0] == s[0]);
                        assert(s[0] == '"');
                        assert(i < v@.len());
                        assert(false);
                    }
                }
                None
            }
        },
    }
}

/// Reads the parameter object of `Start` and `Toggle` at position `i`.
fn parse_params_at(v: &Vec<char>, i: usize) -> (r: Option<(bool, Option<String>, bool, usize)>)
    requires
        i <= v@.len(),
    ensures
        r matches Some(p) ==> p.3 <= v@.len() && parse_params(v@.skip(i as int)) == Some(
            ((p.0, opt_string_view(p.1), p.2), v@.skip(p.3 as int)),
        ),
        r is None ==> parse_params(v@.skip(i as int)) is None,
{
    let j1 = match has_prefix(v, i, "{\"paste\":") {
        Some(j) => j,
        None => {
            return None;
        },
    };
    let (paste, j2) = match parse_bool_at(v, j1) {
        Some(p) => p,
        None => {
            return None;
        },
    };
    let j3 = match has_prefix(v, j2, ",\"prompt\":") {
        Some(j) => j,
        None => {
            return None;
        },
    };
    let (prompt, j4) = match parse_prompt_at(v, j3) {
        Some(p) => p,
        None => {
            return None;
        },
    };
    let j5 = match has_prefix(v, j4, ",\"direct_input\":") {
        Some(j) => j,
        None => {
            return None;
        },
    };
    let (direct_input, j6) = match parse_bool_at(v, j5) {
        Some(p) => p,
        None => {
            return None;
        },
    };
    let j7 = match has_prefix(v, j6, "}") {
        Some(j) => j,
        None => {
            return None;
        },
    };
    Some((paste, prompt, direct_input, j7))
}

/// Checks that what stands at position `i` is exactly one closing brace
/// ending the line.
fn closing_brace_ends(v: &Vec<char>, i: usize) -> (r: bool)
    requires
        i <= v@.len(),
    ensures
        r == (v@.skip(i as int) == "}"@),
{
    proof {
        reveal_strlit("}");
    }
    let ghost rest = v@.skip(i as int);
    if i < v.len() && v.len() - i == 1 && v[i] == '}' {
        proof {
            assert(rest.len() == 1);
            assert(rest[0] == '}');
            assert(rest =~= "}"@);
        }
        true
    } else {
        proof {
            if rest == "}"@ {
                assert(rest.len() == 1);
                assert(rest[0] == '}');
                assert(v@[i as int] == '}');
            }
        }
        false
    }
}

/// Reads a command off a whole line. Returns the command the line encodes,
/// or `None` when the line is not a canonical command encoding.
pub fn parse_cmd(line: &str) -> (r: Option<IpcCmd>)
    ensures
        r matches Some(c) ==> spec_parse_cmd(line@) == Some(c@),
        r is None ==> spec_parse_cmd(line@) is None,
{
    let v = str_to_chars(line);
    let ghost s = line@;
    if eq_keyword(&v, "\"Stop\"") {
        return Some(IpcCmd::Stop);
    }
    if eq_keyword(&v, "\"Status\"") {
        return Some(IpcCmd::Status);
    }
    if eq_keyword(&v, "\"ListDevices\"") {
        return Some(IpcCmd::ListDevices);
    }
    if eq_keyword(&v, "\"Health\"") {
        return Some(IpcCmd::Health);
    }
    assert(v@.skip(0) =~= s);
    match has_prefix(&v, 0, "{\"Start\":") {
        Some(j) => {
            match parse_params_at(&v, j) {
                Some((paste, prompt, direct_input, j2)) => {
                    if closing_brace_ends(&v, j2) {
                        Some(IpcCmd::Start { paste, prompt, direct_input })
                    } else {
                        None
                    }
                },
                None => None,
            }
        },
        None => {
            match has_prefix(&v, 0, "{\"Toggle\":") {
                Some(j) => {
                    match parse_params_at(&v, j) {
                        Some((paste, prompt, direct_input, j2)) => {
                            if closing_brace_ends(&v, j2) {
                                Some(IpcCmd::Toggle { paste, prompt, direct_input })
                            } else {
                                None
                            }
                        },
                        None => None,
                    }
                },
                None => None,
            }
        },
    }
}

/// Reads a response off a whole line. Returns the response the line
/// encodes, or `None` when the line is not a canonical response encoding.
#[verifier::rlimit(60)]
pub fn parse_resp(line: &str) -> (r: Option<IpcResp>)
    ensures
        r matches Some(p) ==> spec_parse_resp(line@) == Some(p@),
        r is None ==> spec_parse_resp(line@) is None,
{
    let v = str_to_chars(line);
    let ghost s = line@;
    assert(v@.skip(0) =~= s);
    let j1 = match has_prefix(&v, 0, "{\"ok\":") {
        Some(j) => j,
        None => {
            return None;
        },
    };
    let (ok, j2) = match parse_bool_at(&v, j1) {
        Some(p) => p,
        None => {
            return None;
        },
    };
    let j3 = match has_prefix(&v, j2, ",\"msg\":") {
        Some(j) => j,
        None => {
            return None;
        },
    };
    let ghost s3 = v@.skip(j3 as int);
    if !(j3 < v.len() && v[j3] == '"') {
        proof {
            if strip_prefix(s3, seq!['"']) is Some {
                assert(s3.subrange(0, 1)[0] == s3[0]);
                assert(s3[0] == '"');
                assert(j3 < v@.len());
                assert(false);
            }
        }
        return None;
    }
    proof {
        assert(s3[0] == '"');
        assert(s3.subrange(0, 1) =~= seq!['"']);
        assert(s3.skip(1) =~= v@.skip(j3 as int + 1));
    }
    let mut decoded: Vec<char> = Vec::new();
    let j4 = match scan_string_body(&v, j3 + 1, &mut decoded) {
        Some(j) => j,
        None => {
            return None;
        },
    };
    if closing_brace_ends(&v, j4) {
        let msg = chars_to_string(&decoded);
        Some(IpcResp { ok, msg })
    } else {
        None
    }
}

} // verus!
