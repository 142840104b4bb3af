//! The authentication payload and its wire form.
//!
//! A request body is a JSON object with a required `"username"` member and an
//! optional `"password"` member, for example `{"username":"alice"}` or
//! `{"username":"alice","password":"secret"}`. The accepted grammar is stated
//! by [`parse_payload_spec`]: JSON whitespace is allowed between tokens,
//! member values are JSON strings (a `null` password counts as absent), string
//! literals may use the single-character escapes, keys other than the two
//! above or given twice are rejected, and a missing or empty username makes
//! the whole body invalid.

use vstd::prelude::*;

verus! {

/// The credentials carried by one request: who is asking, and — only when an
/// authentication flow is wanted — the password to present.
#[derive(Debug, Clone)]
pub struct AuthenticationPayload {
    pub username: String,
    pub password: Option<String>,
}

/// The mathematical value of an [`AuthenticationPayload`].
#[verifier::ext_equal]
pub struct PayloadModel {
    pub username: Seq<char>,
    pub password: Option<Seq<char>>,
}

impl View for AuthenticationPayload {
    type V = PayloadModel;

    open spec fn view(&self) -> PayloadModel {
        PayloadModel { username: self.username@, password: self.password.deep_view() }
    }
}

/// The whitespace JSON allows between tokens.
pub open spec fn is_json_ws(c: char) -> bool {
    c == ' ' || c == '\n' || c == '\r' || c == '\t'
}

/// The first position at or after `i` that does not hold JSON whitespace
/// (or the end of the text).
pub open spec fn skip_ws_spec(s: Seq<char>, i: int) -> int
    decreases s.len() - i,
{
    if 0 <= i < s.len() && is_json_ws(s[i]) {
        skip_ws_spec(s, i + 1)
    } else {
        i
    }
}

/// What a backslash escape inside a JSON string stands for, if it is one of
/// the single-character escapes.
pub open spec fn escape_code(c: char) -> Option<char> {
    if c == '"' {
        Some('"')
    } else if c == '\\' {
        Some('\\')
    } else if c == '/' {
        Some('/')
    } else if c == 'n' {
        Some('\n')
    } else if c == 't' {
        Some('\t')
    } else if c == 'r' {
        Some('\r')
    } else if c == 'b' {
        Some('\u{0008}')
    } else if c == 'f' {
        Some('\u{000C}')
    } else {
        None
    }
}

/// Reads the remainder of a JSON string literal starting just after the
/// opening quote (or after the part already read into `acc`). Returns the
/// decoded contents and the position just past the closing quote; `None` when
/// the literal is unterminated, holds a raw control character, or uses an
/// escape outside the single-character ones.
pub open spec fn parse_string_body_spec(s: Seq<char>, i: int, acc: Seq<char>) -> Option<
    (Seq<char>, int),
>
    decreases s.len() - i,
{
    if !(0 <= i < s.len()) {
        None
    } else if s[i] == '"' {
        Some((acc, i + 1))
    } else if s[i] == '\\' {
        if i + 1 < s.len() {
            match escape_code(s[i + 1]) {
                Some(c) => parse_string_body_spec(s, i + 2, acc.push(c)),
                None => None,
            }
        } else {
            None
        }
    } else if (s[i] as u32) < 0x20 {
        None
    } else {
        parse_string_body_spec(s, i + 1, acc.push(s[i]))
    }
}

/// Reads one `"key": value` member starting at `i`, where the value is a JSON
/// string or `null`. Returns the key, the value (`None` for `null`), and the
/// position just past the value.
pub open spec fn parse_member_spec(s: Seq<char>, i: int) -> Option<
    (Seq<char>, Option<Seq<char>>, int),
> {
    if 0 <= i < s.len() && s[i] == '"' {
        match parse_string_body_spec(s, i + 1, Seq::empty()) {
            Some((key, j)) => {
                let k = skip_ws_spec(s, j);
                if k < s.len() && s[k] == ':' {
                    let v = skip_ws_spec(s, k + 1);
                    if v < s.len() && s[v] == '"' {
                        match parse_string_body_spec(s, v + 1, Seq::empty()) {
                            Some((val, w)) => Some((key, Some(val), w)),
                            None => None,
                        }
                    } else if v + 4 <= s.len() && s[v] == 'n' && s[v + 1] == 'u' && s[v + 2] == 'l'
                        && s[v + 3] == 'l' {
                        Some((key, None, v + 4))
                    } else {
                        None
                    }
                } else {
                    None
                }
            },
            None => None,
        }
    } else {
        None
    }
}

/// The payload denoted by an object with the single member `k1: v1`: it must
/// be a non-empty username.
pub open spec fn payload_from_one(k1: Seq<char>, v1: Option<Seq<char>>) -> Option<PayloadModel> {
    if k1 == "username"@ {
        match v1 {
            Some(u) => if u.len() > 0 {
                Some(PayloadModel { username: u, password: None })
            } else {
                None
            },
            None => None,
        }
    } else {
        None
    }
}

/// The payload denoted by an object with the two members `k1: v1` and
/// `k2: v2`: a non-empty username and a password (a `null` password counts as
/// absent), in either order.
pub open spec fn payload_from_two(
    k1: Seq<char>,
    v1: Option<Seq<char>>,
    k2: Seq<char>,
    v2: Option<Seq<char>>,
) -> Option<PayloadModel> {
    if k1 == "username"@ && k2 == "password"@ {
        match v1 {
            Some(u) => if u.len() > 0 {
                Some(PayloadModel { username: u, password: v2 })
            } else {
                None
            },
            None => None,
        }
    } else if k1 == "password"@ && k2 == "username"@ {
        match v2 {
            Some(u) => if u.len() > 0 {
                Some(PayloadModel { username: u, password: v1 })
            } else {
                None
            },
            None => None,
        }
    } else {
        None
    }
}

/// The payload a request body denotes, or `None` when the body is not a valid
/// payload. This is the whole accepted grammar: optional whitespace around an
/// object of one or two string-or-null members, whose keys are `"username"`
/// (required, a non-empty string) and `"password"` (optional).
pub open spec fn parse_payload_spec(s: Seq<char>) -> Option<PayloadModel> {
    let i = skip_ws_spec(s, 0);
    if !(i < s.len() && s[i] == '{') {
        None
    } else {
        let j = skip_ws_spec(s, i + 1);
        match parse_member_spec(s, j) {
            None => None,
            Some((k1, v1, a)) => {
                let b = skip_ws_spec(s, a);
                if b < s.len() && s[b] == ',' {
                    let c = skip_ws_spec(s, b + 1);
                    match parse_member_spec(s, c) {
                        None => None,
                        Some((k2, v2, d)) => {
                            let e = skip_ws_spec(s, d);
                            if e < s.len() && s[e] == '}' && skip_ws_spec(s, e + 1) == s.len() {
                                payload_from_two(k1, v1, k2, v2)
                            } else {
                                None
                            }
                        },
                    }
                } else if b < s.len() && s[b] == '}' && skip_ws_spec(s, b + 1) == s.len() {
                    payload_from_one(k1, v1)
                } else {
                    None
                }
            },
        }
    }
}

fn skip_ws(s: &str, i: usize, n: usize) -> (j: usize)
    requires
        n == s@.len(),
        i <= n,
    ensures
        j as int == skip_ws_spec(s@, i as int),
        i <= j <= n,
    decreases n - i,
{
    if i < n {
        let c = s.get_char(i);
        if c == ' ' || c == '\n' || c == '\r' || c == '\t' {
            skip_ws(s, i + 1, n)
        } else {
            i
        }
    } else {
        i
    }
}

fn parse_string_body(s: &str, i: usize, n: usize, acc: String) -> (r: Option<(String, usize)>)
    requires
        n == s@.len(),
        i <= n,
    ensures
        match r {
            Some(vj) => parse_string_body_spec(s@, i as int, acc@) == Some((vj.0@, vj.1 as int))
                && vj.1 <= n,
            None => parse_string_body_spec(s@, i as int, acc@) is None,
        },
    decreases n - i,
{
    if i >= n {
        None
    } else {
        let c = s.get_char(i);
        if c == '"' {
            Some((acc, i + 1))
        } else if c == '\\' {
            if i + 1 < n {
                let e = s.get_char(i + 1);
                let mapped: Option<char> = if e == '"' {
                    Some('"')
                } else if e == '\\' {
                    Some('\\')
                } else if e == '/' {
                    Some('/')
                } else if e == 'n' {
                    Some('\n')
                } else if e == 't' {
                    Some('\t')
                } else if e == 'r' {
                    Some('\r')
                } else if e == 'b' {
                    Some('\u{0008}')
                } else if e == 'f' {
                    Some('\u{000C}')
                } else {
                    None
                };
                match mapped {
                    Some(m) => {
                        let mut acc2 = acc;
                        acc2.push(m);
                        parse_string_body(s, i + 2, n, acc2)
                    },
                    None => None,
                }
            } else {
                None
            }
        } else if (c as u32) < 0x20 {
            None
        } else {
            let mut acc2 = acc;
            acc2.push(c);
            parse_string_body(s, i + 1, n, acc2)
        }
    }
}

fn parse_member(s: &str, i: usize, n: usize) -> (r: Option<(String, Option<String>, usize)>)
    requires
        n == s@.len(),
        i <= n,
    ensures
        match r {
            Some(kvj) => parse_member_spec(s@, i as int) == Some(
                (kvj.0@, kvj.1.deep_view(), kvj.2 as int),
            ) && kvj.2 <= n,
            None => parse_member_spec(s@, i as int) is None,
        },
{
    if i < n && s.get_char(i) == '"' {
        match parse_string_body(s, i + 1, n, String::new()) {
            None => None,
            Some((key, j)) => {
                let k = skip_ws(s, j, n);
                if k < n && s.get_char(k) == ':' {
                    let v = skip_ws(s, k + 1, n);
                    if v < n && s.get_char(v) == '"' {
                        match parse_string_body(s, v + 1, n, String::new()) {
                            None => None,
                            Some((val, w)) => Some((key, Some(val), w)),
                        }
                    } else if v < n && n - v >= 4 && s.get_char(v) == 'n' && s.get_char(v + 1)
                        == 'u' && s.get_char(v + 2) == 'l' && s.get_char(v + 3) == 'l' {
                        Some((key, None, v + 4))
                    } else {
                        None
                    }
                } else {
                    None
                }
            },
        }
    } else {
        None
    }
}

fn build_from_one(k1: String, v1: Option<String>) -> (r: Option<AuthenticationPayload>)
    ensures
        match r {
            Some(p) => payload_from_one(k1@, v1.deep_view()) == Some(p@),
            None => payload_from_one(k1@, v1.deep_view()) is None,
        },
{
    if k1 == String::from_str("username") {
        match v1 {
            Some(u) => if u.as_str().unicode_len() > 0 {
                Some(AuthenticationPayload { username: u, password: None })
            } else {
                None
            },
            None => None,
        }
    } else {
        None
    }
}

fn build_from_two(k1: String, v1: Option<String>, k2: String, v2: Option<String>) -> (r: Option<
    AuthenticationPayload,
>)
    ensures
        match r {
            Some(p) => payload_from_two(k1@, v1.deep_view(), k2@, v2.deep_view()) == Some(p@),
            None => payload_from_two(k1@, v1.deep_view(), k2@, v2.deep_view()) is None,
        },
{
    let username_key = String::from_str("username");
    let password_key = String::from_str("password");
    if k1 == username_key && k2 == password_key {
        match v1 {
            Some(u) => if u.as_str().unicode_len() > 0 {
                Some(AuthenticationPayload { username: u, password: v2 })
            } else {
                None
            },
            None => None,
        }
    } else if k1 == password_key && k2 == username_key {
        match v2 {
            Some(u) => if u.as_str().unicode_len() > 0 {
                Some(AuthenticationPayload { username: u, password: v1 })
            } else {
                None
            },
            None => None,
        }
    } else {
        None
    }
}

/// Decodes a request body into the payload it denotes, exactly as
/// [`parse_payload_spec`] reads it: `None` on every body outside the accepted
/// grammar, and the denoted username and password otherwise.
pub fn parse_payload(s: &str) -> (r: Option<AuthenticationPayload>)
    ensures
        match r {
            Some(p) => parse_payload_spec(s@) == Some(p@),
            None => parse_payload_spec(s@) is None,
        },
{
    let n = s.unicode_len();
    let i = skip_ws(s, 0, n);
    if !(i < n && s.get_char(i) == '{') {
        return None;
    }
    let j = skip_ws(s, i + 1, n);
    match parse_member(s, j, n) {
        None => None,
        Some((k1, v1, a)) => {
            let b = skip_ws(s, a, n);
            if b < n && s.get_char(b) == ',' {
                let c = skip_ws(s, b + 1, n);
                match parse_member(s, c, n) {
                    None => None,
                    Some((k2, v2, d)) => {
                        let e = skip_ws(s, d, n);
                        if e < n && s.get_char(e) == '}' {
                            let f = skip_ws(s, e + 1, n);
                            if f == n {
                                build_from_two(k1, v1, k2, v2)
                            } else {
                                None
                            }
                        } else {
                            None
                        }
                    },
                }
            } else if b < n && s.get_char(b) == '}' {
                let f = skip_ws(s, b + 1, n);
                if f == n {
                    build_from_one(k1, v1)
                } else {
                    None
                }
            } else {
                None
            }
        },
    }
}

} // verus!
