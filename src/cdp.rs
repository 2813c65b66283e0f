use vstd::prelude::*;
use crate::text::{
    contains, find_first, find_str, run_from, slice, stop_index, str_contains, trim, trimmed, CharClass,
    lemma_find_occurs, occurs_at,
};

verus! {

/// What the debugging endpoint says of the browser behind it, and how it was
/// classified. `raw` holds the body exactly as it was received.
pub struct CdpBrowserInfo {
    pub name: Option<String>,
    pub version: Option<String>,
    pub web_socket_debugger_url: Option<String>,
    pub protocol_version: Option<String>,
    pub user_agent: Option<String>,
    pub raw: String,
}

/// The fields of the endpoint's version payload that the classifier reads.
pub struct VersionFields {
    pub user_agent: Option<String>,
    pub browser: Option<String>,
    pub protocol_version: Option<String>,
    pub web_socket_debugger_url: Option<String>,
}

/// What an object holds under one key.
pub enum JsonField {
    Absent,
    Null,
    Text(String),
    /// A number, a boolean, an array or an object.
    Other,
}

/// What an object holds under one key, as text.
pub enum FieldView {
    Absent,
    Null,
    Text(Seq<char>),
    Other,
}

pub open spec fn field_view(f: JsonField) -> FieldView {
    match f {
        JsonField::Absent => FieldView::Absent,
        JsonField::Null => FieldView::Null,
        JsonField::Text(s) => FieldView::Text(s@),
        JsonField::Other => FieldView::Other,
    }
}

pub open spec fn lookup_view(r: Option<JsonField>) -> Option<FieldView> {
    match r {
        Some(f) => Some(field_view(f)),
        None => None,
    }
}

/// The fields of a decoded version payload, as text.
pub struct PayloadView {
    pub user_agent: Option<Seq<char>>,
    pub browser: Option<Seq<char>>,
    pub protocol_version: Option<Seq<char>>,
    pub web_socket_debugger_url: Option<Seq<char>>,
}

/// The text of an optional string.
pub open spec fn opt_seq(o: Option<String>) -> Option<Seq<char>> {
    match o {
        Some(s) => Some(s@),
        None => None,
    }
}

/// The first of two optional texts that is present.
pub open spec fn or_else(a: Option<Seq<char>>, b: Option<Seq<char>>) -> Option<Seq<char>> {
    match a {
        Some(x) => Some(x),
        None => b,
    }
}

/// The text, or the empty text where there is none.
pub open spec fn or_empty(o: Option<Seq<char>>) -> Seq<char> {
    match o {
        Some(s) => s,
        None => Seq::empty(),
    }
}

/// The version that follows the first occurrence of `token` in `text`: one `/`
/// skipped, up to the first space, `;`, `)` or `(`, then trimmed; none where the
/// token is absent or the run is empty.
pub open spec fn version_in(text: Seq<char>, token: Seq<char>) -> Option<Seq<char>> {
    match find_first(text, token) {
        None => None,
        Some(i) => {
            let after = i + token.len();
            let start = if after < text.len() && text[after] == '/' {
                after + 1
            } else {
                after
            };
            let v = trimmed(run_from(text, CharClass::VersionEnd, start));
            if v.len() == 0 {
                None
            } else {
                Some(v)
            }
        },
    }
}

/// The user-agent tokens that name a browser family, in the order they are tried.
pub open spec fn special_tokens() -> Seq<(Seq<char>, Seq<char>)> {
    seq![
        ("YaBrowser"@, "Yandex"@),
        ("Edg"@, "Edge"@),
        ("OPR"@, "Opera"@),
        ("Opera"@, "Opera"@),
        ("Brave"@, "Brave"@),
        ("Vivaldi"@, "Vivaldi"@),
        ("TorBrowser"@, "Tor"@),
        ("Firefox"@, "Firefox"@),
    ]
}

/// The first special token at or after `k` that the user agent holds.
pub open spec fn first_special(ua: Seq<char>, k: int) -> Option<int>
    decreases 8 - k,
{
    if k < 0 || k >= 8 {
        None
    } else if contains(ua, special_tokens()[k].0) {
        Some(k)
    } else {
        first_special(ua, k + 1)
    }
}

/// The name and version that the header alone gives, where the user agent holds
/// no special token.
pub open spec fn classify_header(ua: Seq<char>, hdr: Seq<char>) -> Option<(Seq<char>, Option<Seq<char>>)> {
    if hdr.len() == 0 {
        None
    } else if contains(hdr, "Chrome"@) && contains(ua, "YaBrowser"@) {
        Some(("Yandex"@, or_else(version_in(ua, "YaBrowser"@), version_in(hdr, "Chrome"@))))
    } else if contains(hdr, "Chrome"@) {
        Some(("Chrome"@, version_in(hdr, "Chrome"@)))
    } else if contains(hdr, "Chromium"@) {
        Some(("Chromium"@, version_in(hdr, "Chromium"@)))
    } else if contains(hdr, "Firefox"@) {
        Some(("Firefox"@, version_in(hdr, "Firefox"@)))
    } else {
        None
    }
}

/// The name and version that the user agent's generic tokens give.
pub open spec fn classify_agent(ua: Seq<char>) -> Option<(Seq<char>, Option<Seq<char>>)> {
    if ua.len() == 0 {
        None
    } else if contains(ua, "Chrome"@) {
        Some(("Chrome"@, version_in(ua, "Chrome"@)))
    } else if contains(ua, "Safari"@) {
        Some(("Safari"@, None))
    } else {
        None
    }
}

/// The browser's name and version from its user agent and its browser header:
/// special tokens first, then the header, then the user agent's generic tokens.
pub open spec fn classify(ua: Seq<char>, hdr: Seq<char>) -> (Option<Seq<char>>, Option<Seq<char>>) {
    match first_special(ua, 0) {
        Some(k) => {
            let (token, label) = special_tokens()[k];
            (Some(label), or_else(version_in(ua, token), version_in(hdr, token)))
        },
        None => match classify_header(ua, hdr) {
            Some((n, v)) => (Some(n), v),
            None => match classify_agent(ua) {
                Some((n, v)) => (Some(n), v),
                None => (None, None),
            },
        },
    }
}

/// One field of the payload, which may stand under a second name too: absent or
/// null gives none, text gives the text; any other value, or both names present,
/// fails the decoding.
pub open spec fn field_value(primary: FieldView, alias: FieldView) -> Option<Option<Seq<char>>> {
    match (primary, alias) {
        (FieldView::Absent, FieldView::Absent) => Some(None),
        (FieldView::Absent, f) => single_value(f),
        (f, FieldView::Absent) => single_value(f),
        _ => None,
    }
}

/// The payload that a body decodes to: a JSON object whose user agent (also under
/// `userAgent`), `Browser`, protocol version (also under `protocolVersion`) and
/// `webSocketDebuggerUrl` are each absent, null or text.
pub open spec fn decoded(body: Seq<char>) -> Option<PayloadView> {
    match (
        json_field_of(body, "User-Agent"@),
        json_field_of(body, "userAgent"@),
        json_field_of(body, "Browser"@),
        json_field_of(body, "Protocol-Version"@),
        json_field_of(body, "protocolVersion"@),
        json_field_of(body, "webSocketDebuggerUrl"@),
    ) {
        (Some(a), Some(b), Some(c), Some(d), Some(e), Some(f)) => match (
            field_value(a, b),
            field_value(c, FieldView::Absent),
            field_value(d, e),
            field_value(f, FieldView::Absent),
        ) {
            (Some(u), Some(br), Some(p), Some(w)) => Some(
                PayloadView {
                    user_agent: u,
                    browser: br,
                    protocol_version: p,
                    web_socket_debugger_url: w,
                },
            ),
            _ => None,
        },
        _ => None,
    }
}

/// A field that stands under one name only.
pub open spec fn single_value(f: FieldView) -> Option<Option<Seq<char>>> {
    match f {
        FieldView::Absent => Some(None),
        FieldView::Null => Some(None),
        FieldView::Text(s) => Some(Some(s)),
        FieldView::Other => None,
    }
}

/// What the JSON object that a text encodes holds under a key; none where the text
/// is not JSON or not an object.
pub uninterp spec fn json_field_of(body: Seq<char>, key: Seq<char>) -> Option<FieldView>;

/// Relies on `serde_json::from_str`, `serde_json::Value::as_object` and
/// `serde_json::Map::get`: parses the text and looks the key up in the object; the
/// result depends on the text and the key alone.
#[verifier::external_body]
fn payload_field(body: &str, key: &str) -> (r: Option<JsonField>)
    ensures
        lookup_view(r) == json_field_of(body@, key@),
{
    let v: serde_json::Value = serde_json::from_str(body).ok()?;
    let m = v.as_object()?;
    Some(
        match m.get(key) {
            None => JsonField::Absent,
            Some(serde_json::Value::Null) => JsonField::Null,
            Some(serde_json::Value::String(s)) => JsonField::Text(s.clone()),
            Some(_) => JsonField::Other,
        },
    )
}

/// The version that follows `token` in `text`.
pub fn extract_version(text: &str, token: &str) -> (r: Option<String>)
    ensures
        opt_seq(r) == version_in(text@, token@),
{
    let n = text.unicode_len();
    let m = token.unicode_len();
    match find_str(text, token) {
        None => None,
        Some(i) => {
            proof {
                lemma_find_occurs(text@, token@, 0);
            }
            let after = i + m;
            let start = if after < n && text.get_char(after) == '/' {
                after + 1
            } else {
                after
            };
            let e = stop_index(text, &CharClass::VersionEnd, start);
            let piece = slice(text, start, e);
            let v = trim(piece.as_str());
            if v.as_str().unicode_len() == 0 {
                None
            } else {
                Some(v)
            }
        },
    }
}

fn special_token(k: usize) -> (r: (&'static str, &'static str))
    requires
        k < 8,
    ensures
        r.0@ == special_tokens()[k as int].0,
        r.1@ == special_tokens()[k as int].1,
{
    match k {
        0 => ("YaBrowser", "Yandex"),
        1 => ("Edg", "Edge"),
        2 => ("OPR", "Opera"),
        3 => ("Opera", "Opera"),
        4 => ("Brave", "Brave"),
        5 => ("Vivaldi", "Vivaldi"),
        6 => ("TorBrowser", "Tor"),
        _ => ("Firefox", "Firefox"),
    }
}

fn or_else_exec(a: Option<String>, b: Option<String>) -> (r: Option<String>)
    ensures
        opt_seq(r) == or_else(opt_seq(a), opt_seq(b)),
{
    match a {
        Some(x) => Some(x),
        None => b,
    }
}

/// The browser's name and version from its user agent and browser header.
pub fn classify_browser(ua: &str, browser_hdr: &str) -> (r: (Option<String>, Option<String>))
    ensures
        (opt_seq(r.0), opt_seq(r.1)) == classify(ua@, browser_hdr@),
{
    let mut k: usize = 0;
    while k < 8
        invariant
            k <= 8,
            first_special(ua@, 0) == first_special(ua@, k as int),
        decreases 8 - k,
    {
        let (token, label) = special_token(k);
        if str_contains(ua, token) {
            let v = or_else_exec(extract_version(ua, token), extract_version(browser_hdr, token));
            return (Some(String::from_str(label)), v);
        }
        k += 1;
    }
    if browser_hdr.unicode_len() > 0 {
        if str_contains(browser_hdr, "Chrome") && str_contains(ua, "YaBrowser") {
            let v = or_else_exec(extract_version(ua, "YaBrowser"), extract_version(browser_hdr, "Chrome"));
            return (Some(String::from_str("Yandex")), v);
        } else if str_contains(browser_hdr, "Chrome") {
            return (Some(String::from_str("Chrome")), extract_version(browser_hdr, "Chrome"));
        } else if str_contains(browser_hdr, "Chromium") {
            return (Some(String::from_str("Chromium")), extract_version(browser_hdr, "Chromium"));
        } else if str_contains(browser_hdr, "Firefox") {
            return (Some(String::from_str("Firefox")), extract_version(browser_hdr, "Firefox"));
        }
    }
    if ua.unicode_len() > 0 {
        if str_contains(ua, "Chrome") {
            return (Some(String::from_str("Chrome")), extract_version(ua, "Chrome"));
        } else if str_contains(ua, "Safari") {
            return (Some(String::from_str("Safari")), None);
        }
    }
    (None, None)
}

fn single_value_exec(f: JsonField) -> (r: Option<Option<String>>)
    ensures
        match r {
            None => single_value(field_view(f)) is None,
            Some(o) => single_value(field_view(f)) == Some(opt_seq(o)),
        },
{
    match f {
        JsonField::Absent => Some(None),
        JsonField::Null => Some(None),
        JsonField::Text(s) => Some(Some(s)),
        JsonField::Other => None,
    }
}

/// Decodes one field that may stand under a second name.
pub fn decode_field(primary: JsonField, alias: JsonField) -> (r: Option<Option<String>>)
    ensures
        match r {
            None => field_value(field_view(primary), field_view(alias)) is None,
            Some(o) => field_value(field_view(primary), field_view(alias)) == Some(opt_seq(o)),
        },
{
    match (primary, alias) {
        (JsonField::Absent, f) => single_value_exec(f),
        (f, JsonField::Absent) => single_value_exec(f),
        _ => None,
    }
}

/// The record of a decoded payload: the classification of its user agent and
/// browser header, its reported fields, and the body as it came.
pub fn info_from_fields(body: &str, fields: VersionFields) -> (r: CdpBrowserInfo)
    ensures
        r.raw@ == body@,
        (opt_seq(r.name), opt_seq(r.version)) == classify(
            or_empty(opt_seq(fields.user_agent)),
            or_empty(opt_seq(fields.browser)),
        ),
        opt_seq(r.user_agent) == opt_seq(fields.user_agent),
        opt_seq(r.protocol_version) == opt_seq(fields.protocol_version),
        opt_seq(r.web_socket_debugger_url) == opt_seq(fields.web_socket_debugger_url),
{
    let (name, version) = {
        let ua = match &fields.user_agent {
            Some(s) => s.as_str(),
            None => "",
        };
        let hdr = match &fields.browser {
            Some(s) => s.as_str(),
            None => "",
        };
        proof {
            reveal_strlit("");
        }
        assert(ua@ == or_empty(opt_seq(fields.user_agent)));
        assert(hdr@ == or_empty(opt_seq(fields.browser)));
        classify_browser(ua, hdr)
    };
    CdpBrowserInfo {
        name,
        version,
        web_socket_debugger_url: fields.web_socket_debugger_url,
        protocol_version: fields.protocol_version,
        user_agent: fields.user_agent,
        raw: String::from_str(body),
    }
}

/// Decodes and classifies the endpoint's version payload. A body that is not a
/// JSON object of the expected shape gives none; no failure reaches the caller.
pub fn classify_payload(body: &str) -> (r: Option<CdpBrowserInfo>)
    ensures
        r is Some <==> decoded(body@) is Some,
        decoded(body@) matches Some(f) ==> (r matches Some(info) && info.raw@ == body@ && (
        opt_seq(info.name),
        opt_seq(info.version),
        ) == classify(or_empty(f.user_agent), or_empty(f.browser)) && opt_seq(info.user_agent)
            == f.user_agent && opt_seq(info.protocol_version) == f.protocol_version && opt_seq(
            info.web_socket_debugger_url,
        ) == f.web_socket_debugger_url),
{
    let ua_a = payload_field(body, "User-Agent")?;
    let ua_b = payload_field(body, "userAgent")?;
    let br = payload_field(body, "Browser")?;
    let pv_a = payload_field(body, "Protocol-Version")?;
    let pv_b = payload_field(body, "protocolVersion")?;
    let ws = payload_field(body, "webSocketDebuggerUrl")?;
    let ua = decode_field(ua_a, ua_b)?;
    let browser = decode_field(br, JsonField::Absent)?;
    let pv = decode_field(pv_a, pv_b)?;
    let ws = decode_field(ws, JsonField::Absent)?;
    let fields = VersionFields {
        user_agent: ua,
        browser,
        protocol_version: pv,
        web_socket_debugger_url: ws,
    };
    Some(info_from_fields(body, fields))
}

} // verus!
