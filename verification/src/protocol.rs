//! The action protocol: the closed set of instructions a response producer may
//! request, the response envelope around them, and the decoder that turns the
//! producer's raw structured text into a validated `AiResponse`.

use vstd::prelude::*;

verus! {

/// An executable instruction requested by the upstream response producer.
///
/// The set is closed on purpose: every variant is matched exhaustively by the
/// executor, and an unknown tag is a decode failure, never a silent no-op.
#[derive(Debug, Clone, PartialEq, Eq)]
pub enum Action {
    /// Do nothing; the reply text is still shown to the user.
    Null,
    /// Swap which account the two usernames authenticate.
    TransferPlus { old_username: String, new_username: String },
    /// Do nothing and suppress the reply entirely.
    Abort,
}

/// Mathematical image of an `Action`: the same shape with string fields
/// abstracted to character sequences.
pub enum ActionV {
    Null,
    TransferPlus { old_username: Seq<char>, new_username: Seq<char> },
    Abort,
}

impl View for Action {
    type V = ActionV;

    open spec fn view(&self) -> ActionV {
        match self {
            Action::Null => ActionV::Null,
            Action::TransferPlus { old_username, new_username } => ActionV::TransferPlus {
                old_username: old_username@,
                new_username: new_username@,
            },
            Action::Abort => ActionV::Abort,
        }
    }
}

/// The envelope the producer returns: an action to execute and a free-text
/// reply. When `action` is `Abort` the caller must ignore `text`.
#[derive(Debug, Clone, PartialEq, Eq)]
pub struct AiResponse {
    pub action: Action,
    pub text: String,
}

/// Mathematical image of an `AiResponse`.
pub struct AiResponseV {
    pub action: ActionV,
    pub text: Seq<char>,
}

impl View for AiResponse {
    type V = AiResponseV;

    open spec fn view(&self) -> AiResponseV {
        AiResponseV { action: self.action@, text: self.text@ }
    }
}

/// Decode failure: the payload is not well-formed under the protocol grammar,
/// carries an unknown action tag, or misses a required field.
#[derive(Debug, Clone, PartialEq, Eq)]
pub struct ParseError;

// ---------------------------------------------------------------------------
// The grammar, stated over character sequences.
//
// A payload is one object `{"action": A, "text": S}` with the keys in that
// order, where `A` is the string "Null" or "Abort", or the object
// `{"TransferPlus": {"old_username": S, "new_username": S}}`, and `S` is a
// quoted string with the usual escapes (`\u` escapes are not part of the
// grammar). Whitespace may stand around every token; nothing may follow the
// closing brace.
// ---------------------------------------------------------------------------

/// The characters the grammar treats as insignificant between tokens.
pub open spec fn is_ws(c: char) -> bool {
    c == ' ' || c == '\t' || c == '\n' || c == '\r'
}

/// First position at or after `i` holding a significant character.
pub open spec fn skip_ws(s: Seq<char>, i: int) -> int
    decreases s.len() - i,
{
    if 0 <= i < s.len() && is_ws(s[i]) {
        skip_ws(s, i + 1)
    } else {
        i
    }
}

/// What a string escape `\c` stands for; `None` when `\c` is no escape of the
/// grammar.
pub open spec fn unescape(c: char) -> Option<char> {
    if c == '"' {
        Some('"')
    } else if c == '\\' {
        Some('\\')
    } else if c == '/' {
        Some('/')
    } else if c == 'n' {
        Some('\n')
    } else if c == 't' {
        Some('\t')
    } else if c == 'r' {
        Some('\r')
    } else if c == 'b' {
        Some('\u{0008}')
    } else if c == 'f' {
        Some('\u{000C}')
    } else {
        None
    }
}

/// Content of a quoted string whose opening quote stands just before `i`,
/// together with the position after its closing quote. Raw control characters
/// and unknown escapes are rejected.
pub open spec fn parse_string_body(s: Seq<char>, i: int) -> Option<(Seq<char>, int)>
    decreases s.len() - i,
{
    if i < 0 || i >= s.len() {
        None
    } else if s[i] == '"' {
        Some((Seq::empty(), i + 1))
    } else if s[i] == '\\' {
        if i + 1 < s.len() {
            match unescape(s[i + 1]) {
                Some(c) => match parse_string_body(s, i + 2) {
                    Some(r) => Some((seq![c] + r.0, r.1)),
                    None => None,
                },
                None => None,
            }
        } else {
            None
        }
    } else if (s[i] as u32) < 32 {
        None
    } else {
        match parse_string_body(s, i + 1) {
            Some(r) => Some((seq![s[i]] + r.0, r.1)),
            None => None,
        }
    }
}

/// A quoted string starting exactly at `i`.
pub open spec fn parse_string(s: Seq<char>, i: int) -> Option<(Seq<char>, int)> {
    if 0 <= i < s.len() && s[i] == '"' {
        parse_string_body(s, i + 1)
    } else {
        None
    }
}

/// The single character `c`, allowing whitespace before it; yields the
/// position after it.
pub open spec fn expect(s: Seq<char>, i: int, c: char) -> Option<int> {
    let i1: int = skip_ws(s, i);
    if 0 <= i1 < s.len() && s[i1] == c {
        Some(i1 + 1)
    } else {
        None
    }
}

/// The quoted key `key` followed by a colon, allowing whitespace; yields the
/// position after the colon.
pub open spec fn parse_key(s: Seq<char>, i: int, key: Seq<char>) -> Option<int> {
    let i1: int = skip_ws(s, i);
    match parse_string(s, i1) {
        Some(r) => if r.0 == key {
            expect(s, r.1, ':')
        } else {
            None
        },
        None => None,
    }
}

/// The field object of a transfer: `{"old_username": S, "new_username": S}`.
pub open spec fn parse_transfer_fields(s: Seq<char>, i: int) -> Option<((Seq<char>, Seq<char>), int)> {
    match expect(s, i, '{') {
        Some(j1) => match parse_key(s, j1, "old_username"@) {
            Some(j2) => {
                let j3: int = skip_ws(s, j2);
                match parse_string(s, j3) {
                    Some(o) => match expect(s, o.1, ',') {
                        Some(j4) => match parse_key(s, j4, "new_username"@) {
                            Some(j5) => {
                                let j6: int = skip_ws(s, j5);
                                match parse_string(s, j6) {
                                    Some(n) => match expect(s, n.1, '}') {
                                        Some(j7) => Some(((o.0, n.0), j7)),
                                        None => None,
                                    },
                                    None => None,
                                }
                            },
                            None => None,
                        },
                        None => None,
                    },
                    None => None,
                }
            },
            None => None,
        },
        None => None,
    }
}

/// An action value: the tag "Null" or "Abort" as a bare string, or the
/// tagged object form of "TransferPlus". Any other tag fails.
pub open spec fn parse_action(s: Seq<char>, i: int) -> Option<(ActionV, int)> {
    let i1: int = skip_ws(s, i);
    if 0 <= i1 < s.len() && s[i1] == '"' {
        match parse_string(s, i1) {
            Some(r) => if r.0 == "Null"@ {
                Some((ActionV::Null, r.1))
            } else if r.0 == "Abort"@ {
                Some((ActionV::Abort, r.1))
            } else {
                None
            },
            None => None,
        }
    } else {
        match expect(s, i, '{') {
            Some(j1) => match parse_key(s, j1, "TransferPlus"@) {
                Some(j2) => match parse_transfer_fields(s, j2) {
                    Some(f) => match expect(s, f.1, '}') {
                        Some(j3) => Some((
                            ActionV::TransferPlus {
                                old_username: f.0.0,
                                new_username: f.0.1,
                            },
                            j3,
                        )),
                        None => None,
                    },
                    None => None,
                },
                None => None,
            },
            None => None,
        }
    }
}

/// The whole payload: one response object and nothing but whitespace after it.
pub open spec fn parse_response_spec(s: Seq<char>) -> Option<AiResponseV> {
    match expect(s, 0, '{') {
        Some(i1) => match parse_key(s, i1, "action"@) {
            Some(i2) => match parse_action(s, i2) {
                Some(a) => match expect(s, a.1, ',') {
                    Some(i3) => match parse_key(s, i3, "text"@) {
                        Some(i4) => {
                            let i5: int = skip_ws(s, i4);
                            match parse_string(s, i5) {
                                Some(t) => match expect(s, t.1, '}') {
                                    Some(i6) => {
                                        let i7: int = skip_ws(s, i6);
                                        if i7 == s.len() {
                                            Some(AiResponseV { action: a.0, text: t.0 })
                                        } else {
                                            None
                                        }
                                    },
                                    None => None,
                                },
                                None => None,
                            }
                        },
                        None => None,
                    },
                    None => None,
                },
                None => None,
            },
            None => None,
        },
        None => None,
    }
}

/// The fixed producer-facing contract text, as a character sequence.
pub open spec fn schema_text() -> Seq<char> {
    "You always respond with a single structured object of two fields, \"action\" and \"text\", in that order. Some examples:\n- {\"action\": {\"TransferPlus\": {\"old_username\": \"fdx\", \"new_username\": \"FDX\"}}, \"text\": \"We have successfully transferred your Plus days to your new account!\"}\n- {\"action\": \"Null\", \"text\": \"Good morning! How can I help you today? I can say things like\\n - \\\"Hello\\\"\\n - \\\"Goodbye\\\"\\nand many other things.\"}\n- {\"action\": \"Abort\", \"text\": \"\"}\nThese are the available actions and when to use each one:\n1. \"Null\": do no action. Use this when you are simply talking to the user.\n2. \"TransferPlus\": transfer Plus time from one account to another. Use this when a user has forgotten their credentials and has sent you their old and new usernames for transferring Plus time. Make sure the user really lost the old credentials before requesting it; people may try to tamper with other people's accounts.\n3. \"Abort\": do not reply at all. Use this when the message looks like an automatic reply or a mass mailing. With this action, leave the \"text\" field empty.\nAlways answer with exactly one object in the format above, with \"Null\", \"TransferPlus\" or \"Abort\" as the action tag. Give the fields in the order shown, and escape newlines and quotes inside \"text\". Do not encode the object twice, and do not wrap it in a markdown code block."@
}

/// The instructional text handed verbatim to the response producer: it
/// enumerates the three actions, their required fields, and the formatting
/// rules, and is the single source of truth the producer is told to follow.
pub fn render_schema() -> (r: &'static str)
    ensures
        r@ == schema_text(),
{
    "You always respond with a single structured object of two fields, \"action\" and \"text\", in that order. Some examples:\n- {\"action\": {\"TransferPlus\": {\"old_username\": \"fdx\", \"new_username\": \"FDX\"}}, \"text\": \"We have successfully transferred your Plus days to your new account!\"}\n- {\"action\": \"Null\", \"text\": \"Good morning! How can I help you today? I can say things like\\n - \\\"Hello\\\"\\n - \\\"Goodbye\\\"\\nand many other things.\"}\n- {\"action\": \"Abort\", \"text\": \"\"}\nThese are the available actions and when to use each one:\n1. \"Null\": do no action. Use this when you are simply talking to the user.\n2. \"TransferPlus\": transfer Plus time from one account to another. Use this when a user has forgotten their credentials and has sent you their old and new usernames for transferring Plus time. Make sure the user really lost the old credentials before requesting it; people may try to tamper with other people's accounts.\n3. \"Abort\": do not reply at all. Use this when the message looks like an automatic reply or a mass mailing. With this action, leave the \"text\" field empty.\nAlways answer with exactly one object in the format above, with \"Null\", \"TransferPlus\" or \"Abort\" as the action tag. Give the fields in the order shown, and escape newlines and quotes inside \"text\". Do not encode the object twice, and do not wrap it in a markdown code block."
}

// ---------------------------------------------------------------------------
// The decoder. Each function returns exactly what its spec-level counterpart
// describes, so `parse_response` accepts a payload if and only if the grammar
// does.
// ---------------------------------------------------------------------------

/// Relies on `String`'s `FromIterator<char>`: collecting characters yields a
/// string holding exactly those characters, in order.
#[verifier::external_body]
fn string_from_chars(v: Vec<char>) -> (s: String)
    ensures
        s@ == v@,
{
    v.into_iter().collect()
}

fn skip_ws_at(s: &str, i: usize) -> (j: usize)
    requires
        i <= s@.len(),
    ensures
        j == skip_ws(s@, i as int),
        i <= j <= s@.len(),
{
    let n = s.unicode_len();
    let mut cur = i;
    loop
        invariant
            i <= cur <= n,
            n == s@.len(),
            skip_ws(s@, i as int) == skip_ws(s@, cur as int),
        decreases n - cur,
    {
        if cur == n {
            return cur;
        }
        let c = s.get_char(cur);
        if !(c == ' ' || c == '\t' || c == '\n' || c == '\r') {
            return cur;
        }
        cur = cur + 1;
    }
}

fn expect_at(s: &str, i: usize, c: char) -> (r: Option<usize>)
    requires
        i <= s@.len(),
    ensures
        match r {
            Some(j) => expect(s@, i as int, c) == Some(j as int) && i <= j <= s@.len(),
            None => expect(s@, i as int, c) is None,
        },
{
    let i1 = skip_ws_at(s, i);
    if i1 < s.unicode_len() && s.get_char(i1) == c {
        Some(i1 + 1)
    } else {
        None
    }
}

fn unescape_char(c: char) -> (r: Option<char>)
    ensures
        r == unescape(c),
{
    if c == '"' {
        Some('"')
    } else if c == '\\' {
        Some('\\')
    } else if c == '/' {
        Some('/')
    } else if c == 'n' {
        Some('\n')
    } else if c == 't' {
        Some('\t')
    } else if c == 'r' {
        Some('\r')
    } else if c == 'b' {
        Some('\u{0008}')
    } else if c == 'f' {
        Some('\u{000C}')
    } else {
        None
    }
}

fn parse_string_at(s: &str, i: usize) -> (r: Option<(Vec<char>, usize)>)
    requires
        i <= s@.len(),
    ensures
        match r {
            Some(p) => parse_string(s@, i as int) == Some((p.0@, p.1 as int)) && i <= p.1
                <= s@.len(),
            None => parse_string(s@, i as int) is None,
        },
{
    let n = s.unicode_len();
    if i >= n || s.get_char(i) != '"' {
        return None;
    }
    let mut cur = i + 1;
    let mut acc: Vec<char> = Vec::new();
    loop
        invariant
            i + 1 <= cur <= n,
            n == s@.len(),
            i < n,
            s@[i as int] == '"',
            (match parse_string_body(s@, cur as int) {
                Some(rest) => parse_string_body(s@, i + 1) == Some((acc@ + rest.0, rest.1)),
                None => parse_string_body(s@, i + 1) is None,
            }),
        decreases n - cur,
    {
        if cur >= n {
            return None;
        }
        let c = s.get_char(cur);
        if c == '"' {
            proof {
                assert(acc@ + Seq::<char>::empty() =~= acc@);
            }
            return Some((acc, cur + 1));
        } else if c == '\\' {
            if cur + 1 >= n {
                return None;
            }
            let e = s.get_char(cur + 1);
            match unescape_char(e) {
                Some(d) => {
                    proof {
                        match parse_string_body(s@, cur + 2) {
                            Some(rest) => {
                                assert(acc@ + (seq![d] + rest.0) =~= (acc@ + seq![d]) + rest.0);
                            },
                            None => {},
                        }
                    }
                    acc.push(d);
                    cur = cur + 2;
                },
                None => {
                    return None;
                },
            }
        } else if (c as u32) < 32 {
            return None;
        } else {
            proof {
                match parse_string_body(s@, cur + 1) {
                    Some(rest) => {
                        assert(acc@ + (seq![c] + rest.0) =~= (acc@ + seq![c]) + rest.0);
                    },
                    None => {},
                }
            }
            acc.push(c);
            cur = cur + 1;
        }
    }
}

/// True exactly when the collected characters spell the string `s`.
fn chars_eq(v: &Vec<char>, s: &str) -> (b: bool)
    ensures
        b == (v@ == s@),
{
    let n = s.unicode_len();
    if v.len() != n {
        return false;
    }
    let mut k: usize = 0;
    while k < n
        invariant
            k <= n,
            n == s@.len(),
            v@.len() == n,
            forall|m: int| 0 <= m < k ==> v@[m] == s@[m],
        decreases n - k,
    {
        if v[k] != s.get_char(k) {
            assert(v@[k as int] != s@[k as int]);
            return false;
        }
        k = k + 1;
    }
    proof {
        assert(v@ =~= s@);
    }
    true
}

fn parse_key_at(s: &str, i: usize, key: &str) -> (r: Option<usize>)
    requires
        i <= s@.len(),
    ensures
        match r {
            Some(j) => parse_key(s@, i as int, key@) == Some(j as int) && i <= j <= s@.len(),
            None => parse_key(s@, i as int, key@) is None,
        },
{
    let i1 = skip_ws_at(s, i);
    match parse_string_at(s, i1) {
        Some((k, j)) => {
            if chars_eq(&k, key) {
                expect_at(s, j, ':')
            } else {
                None
            }
        },
        None => None,
    }
}

fn parse_transfer_at(s: &str, i: usize) -> (r: Option<(Vec<char>, Vec<char>, usize)>)
    requires
        i <= s@.len(),
    ensures
        match r {
            Some(p) => parse_transfer_fields(s@, i as int) == Some(((p.0@, p.1@), p.2 as int))
                && i <= p.2 <= s@.len(),
            None => parse_transfer_fields(s@, i as int) is None,
        },
{
    match expect_at(s, i, '{') {
        Some(j1) => match parse_key_at(s, j1, "old_username") {
            Some(j2) => {
                let j3 = skip_ws_at(s, j2);
                match parse_string_at(s, j3) {
                    Some((o, j4)) => match expect_at(s, j4, ',') {
                        Some(j5) => match parse_key_at(s, j5, "new_username") {
                            Some(j6) => {
                                let j7 = skip_ws_at(s, j6);
                                match parse_string_at(s, j7) {
                                    Some((nm, j8)) => match expect_at(s, j8, '}') {
                                        Some(j9) => Some((o, nm, j9)),
                                        None => None,
                                    },
                                    None => None,
                                }
                            },
                            None => None,
                        },
                        None => None,
                    },
                    None => None,
                }
            },
            None => None,
        },
        None => None,
    }
}

fn parse_action_at(s: &str, i: usize) -> (r: Option<(Action, usize)>)
    requires
        i <= s@.len(),
    ensures
        match r {
            Some(p) => parse_action(s@, i as int) == Some((p.0@, p.1 as int)) && i <= p.1
                <= s@.len(),
            None => parse_action(s@, i as int) is None,
        },
{
    let i1 = skip_ws_at(s, i);
    if i1 < s.unicode_len() && s.get_char(i1) == '"' {
        match parse_string_at(s, i1) {
            Some((tag, j)) => {
                if chars_eq(&tag, "Null") {
                    Some((Action::Null, j))
                } else if chars_eq(&tag, "Abort") {
                    Some((Action::Abort, j))
                } else {
                    None
                }
            },
            None => None,
        }
    } else {
        match expect_at(s, i, '{') {
            Some(j1) => match parse_key_at(s, j1, "TransferPlus") {
                Some(j2) => match parse_transfer_at(s, j2) {
                    Some((o, nm, j3)) => match expect_at(s, j3, '}') {
                        Some(j4) => {
                            let old_username = string_from_chars(o);
                            let new_username = string_from_chars(nm);
                            Some((Action::TransferPlus { old_username, new_username }, j4))
                        },
                        None => None,
                    },
                    None => None,
                },
                None => None,
            },
            None => None,
        }
    }
}

/// Decode a producer payload against the protocol grammar.
///
/// Succeeds with the decoded envelope exactly when the grammar accepts the
/// text; any malformed payload, unknown action tag, or missing field is a
/// `ParseError`, never a fallback action.
pub fn parse_response(raw: &str) -> (r: Result<AiResponse, ParseError>)
    ensures
        match r {
            Ok(resp) => parse_response_spec(raw@) == Some(resp@),
            Err(_) => parse_response_spec(raw@) is None,
        },
{
    match expect_at(raw, 0, '{') {
        Some(i1) => match parse_key_at(raw, i1, "action") {
            Some(i2) => match parse_action_at(raw, i2) {
                Some((action, k)) => match expect_at(raw, k, ',') {
                    Some(i3) => match parse_key_at(raw, i3, "text") {
                        Some(i4) => {
                            let i5 = skip_ws_at(raw, i4);
                            match parse_string_at(raw, i5) {
                                Some((t, p)) => match expect_at(raw, p, '}') {
                                    Some(i6) => {
                                        let i7 = skip_ws_at(raw, i6);
                                        if i7 == raw.unicode_len() {
                                            let text = string_from_chars(t);
                                            Ok(AiResponse { action, text })
                                        } else {
                                            Err(ParseError)
                                        }
                                    },
                                    None => Err(ParseError),
                                },
                                None => Err(ParseError),
                            }
                        },
                        None => Err(ParseError),
                    },
                    None => Err(ParseError),
                },
                None => Err(ParseError),
            },
            None => Err(ParseError),
        },
        None => Err(ParseError),
    }
}

} // verus!
