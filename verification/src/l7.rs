//! L7 head recognition: HTTP/1.x and MySQL wire-protocol heads.
//!
//! Invoked on events that carry payload. A MySQL port pins the binary
//! protocol: byte 3 of the captured prefix is the sequence id, byte 4 the
//! command or response type; a `COM_QUERY` with sequence 0 opens a
//! session, an OK or ERR head closes one. Everything else falls back to
//! text: if the whole captured prefix is valid UTF-8, a request-method
//! prefix or an `HTTP/` prefix is recognized on the NUL-trimmed text and
//! the first line is kept. The same trimmed text feeds the noise filter
//! that drops container-runtime chatter before emission.

use crate::events::{DIR_RX, DIR_TX};
use vstd::prelude::*;

verus! {

/// Prefix relation on byte sequences.
pub open spec fn spec_has_prefix(s: Seq<u8>, p: Seq<u8>) -> bool {
    p.len() <= s.len() && s.subrange(0, p.len() as int) == p
}

/// The pattern occurs in `s` starting at position `i`.
pub open spec fn spec_match_at(s: Seq<u8>, p: Seq<u8>, i: int) -> bool {
    0 <= i && i + p.len() <= s.len() && s.subrange(i, i + p.len()) == p
}

/// Substring relation on byte sequences.
pub open spec fn spec_contains(s: Seq<u8>, p: Seq<u8>) -> bool {
    exists|i: int| spec_match_at(s, p, i)
}

fn has_prefix(s: &[u8], p: &[u8]) -> (r: bool)
    ensures
        r == spec_has_prefix(s@, p@),
{
    if p.len() > s.len() {
        return false;
    }
    let mut i: usize = 0;
    while i < p.len()
        invariant
            i <= p@.len() <= s@.len(),
            forall|j: int| 0 <= j < i ==> s@[j] == p@[j],
        decreases p@.len() - i,
    {
        if s[i] != p[i] {
            proof {
                assert(s@.subrange(0, p@.len() as int)[i as int] == s@[i as int]);
            }
            return false;
        }
        i = i + 1;
    }
    proof {
        assert(s@.subrange(0, p@.len() as int) =~= p@);
    }
    true
}

fn match_at(s: &[u8], p: &[u8], i: usize) -> (r: bool)
    requires
        i + p@.len() <= s@.len(),
    ensures
        r == spec_match_at(s@, p@, i as int),
{
    let n = s.len();
    let mut j: usize = 0;
    while j < p.len()
        invariant
            n == s@.len(),
            i + p@.len() <= s@.len(),
            j <= p@.len(),
            forall|k: int| 0 <= k < j ==> s@[i + k] == p@[k],
        decreases p@.len() - j,
    {
        if s[i + j] != p[j] {
            proof {
                assert(s@.subrange(i as int, i + p@.len())[j as int] == s@[i + j]);
            }
            return false;
        }
        j = j + 1;
    }
    proof {
        assert(s@.subrange(i as int, i + p@.len()) =~= p@);
    }
    true
}

fn contains_bytes(s: &[u8], p: &[u8]) -> (r: bool)
    ensures
        r == spec_contains(s@, p@),
{
    if p.len() > s.len() {
        proof {
            assert(forall|i: int| !spec_match_at(s@, p@, i));
        }
        return false;
    }
    if p.len() == 0 {
        proof {
            assert(s@.subrange(0, 0) =~= p@);
            assert(spec_match_at(s@, p@, 0));
        }
        return true;
    }
    let n = s.len();
    let last = n - p.len();
    let mut i: usize = 0;
    while i <= last
        invariant
            n == s@.len(),
            0 < p@.len() <= s@.len(),
            last == s@.len() - p@.len(),
            i <= last + 1,
            forall|j: int| 0 <= j < i ==> !spec_match_at(s@, p@, j),
        decreases last + 1 - i,
    {
        if match_at(s, p, i) {
            return true;
        }
        i = i + 1;
    }
    proof {
        assert(forall|j: int| j > last ==> !spec_match_at(s@, p@, j));
    }
    false
}

/// Leading NUL bytes removed.
pub open spec fn spec_trim_start(s: Seq<u8>) -> Seq<u8>
    decreases s.len(),
{
    if s.len() > 0 && s[0] == 0 {
        spec_trim_start(s.skip(1))
    } else {
        s
    }
}

/// Trailing NUL bytes removed.
pub open spec fn spec_trim_end(s: Seq<u8>) -> Seq<u8>
    decreases s.len(),
{
    if s.len() > 0 && s[s.len() - 1] == 0 {
        spec_trim_end(s.take(s.len() - 1))
    } else {
        s
    }
}

/// NUL bytes removed from both ends, as the decoded payload text is
/// cleaned before matching.
pub open spec fn spec_trim_nul(s: Seq<u8>) -> Seq<u8> {
    spec_trim_end(spec_trim_start(s))
}

fn trim_nul(s: &[u8]) -> (r: Vec<u8>)
    ensures
        r@ == spec_trim_nul(s@),
{
    let n = s.len();
    let mut a: usize = 0;
    proof {
        assert(s@.skip(0) =~= s@);
    }
    while a < n && s[a] == 0
        invariant
            a <= n == s@.len(),
            spec_trim_start(s@) == spec_trim_start(s@.skip(a as int)),
        decreases n - a,
    {
        proof {
            assert(s@.skip(a as int)[0] == s@[a as int]);
            assert(s@.skip(a as int).skip(1) =~= s@.skip(a + 1));
        }
        a = a + 1;
    }
    proof {
        if a < n {
            assert(s@.skip(a as int)[0] == s@[a as int]);
        }
        assert(spec_trim_start(s@) == s@.skip(a as int));
    }
    let ghost t = s@.skip(a as int);
    let mut b: usize = n;
    proof {
        assert(t.take(n - a) =~= t);
    }
    while b > a && s[b - 1] == 0
        invariant
            a <= b <= n == s@.len(),
            t == s@.skip(a as int),
            spec_trim_end(t) == spec_trim_end(t.take(b - a)),
        decreases b,
    {
        proof {
            let k = b - a;
            assert(t.take(k)[k - 1] == s@[b - 1]);
            assert(t.take(k).take(k - 1) =~= t.take(k - 1));
        }
        b = b - 1;
    }
    proof {
        if b > a {
            assert(t.take(b - a)[b - a - 1] == s@[b - 1]);
        }
        assert(spec_trim_end(t) == t.take(b - a));
    }
    let mut r: Vec<u8> = Vec::new();
    let mut i: usize = a;
    while i < b
        invariant
            a <= i <= b <= s@.len(),
            r@ == s@.subrange(a as int, i as int),
        decreases b - i,
    {
        r.push(s[i]);
        proof {
            assert(r@ =~= s@.subrange(a as int, i + 1));
        }
        i = i + 1;
    }
    proof {
        assert(s@.subrange(a as int, b as int) =~= s@.skip(a as int).take(b - a));
    }
    r
}

/// Length of the first line: the number of bytes before the first line
/// feed, or the whole length when none occurs.
pub open spec fn spec_line_len(s: Seq<u8>) -> int
    decreases s.len(),
{
    if s.len() == 0 {
        0
    } else if s[0] == 0x0a {
        0
    } else {
        1 + spec_line_len(s.skip(1))
    }
}

proof fn lemma_line_len_bounds(s: Seq<u8>)
    ensures
        0 <= spec_line_len(s) <= s.len(),
    decreases s.len(),
{
    if s.len() > 0 && s[0] != 0x0a {
        lemma_line_len_bounds(s.skip(1));
    }
}

/// The first line of the text: everything before the first line feed,
/// with one trailing carriage return dropped.
pub open spec fn spec_first_line(s: Seq<u8>) -> Seq<u8> {
    let l = s.take(spec_line_len(s));
    if l.len() > 0 && l[l.len() - 1] == 0x0d {
        l.take(l.len() - 1)
    } else {
        l
    }
}

fn first_line(s: &[u8]) -> (r: Vec<u8>)
    ensures
        r@ == spec_first_line(s@),
{
    let n = s.len();
    let mut i: usize = 0;
    proof {
        assert(s@.skip(0) =~= s@);
    }
    while i < n && s[i] != 0x0a
        invariant
            i <= n == s@.len(),
            spec_line_len(s@) == i + spec_line_len(s@.skip(i as int)),
            forall|j: int| 0 <= j < i ==> s@[j] != 0x0a,
        decreases n - i,
    {
        proof {
            assert(s@.skip(i as int)[0] == s@[i as int]);
            assert(s@.skip(i as int).skip(1) =~= s@.skip(i + 1));
        }
        i = i + 1;
    }
    proof {
        if i < n {
            assert(s@.skip(i as int)[0] == s@[i as int]);
        }
        lemma_line_len_bounds(s@.skip(i as int));
        assert(spec_line_len(s@) == i);
    }
    let end = if i > 0 && s[i - 1] == 0x0d {
        i - 1
    } else {
        i
    };
    let mut r: Vec<u8> = Vec::new();
    let mut j: usize = 0;
    while j < end
        invariant
            end <= i <= s@.len(),
            r@ == s@.subrange(0, j as int),
            j <= end,
        decreases end - j,
    {
        r.push(s[j]);
        proof {
            assert(r@ =~= s@.subrange(0, j + 1));
        }
        j = j + 1;
    }
    proof {
        let l = s@.take(spec_line_len(s@));
        if i > 0 && s@[i - 1] == 0x0d {
            assert(l[l.len() - 1] == s@[i - 1]);
            assert(s@.subrange(0, end as int) =~= l.take(l.len() - 1));
        } else {
            assert(s@.subrange(0, end as int) =~= l);
        }
    }
    r
}

/// A UTF-8 continuation byte.
pub open spec fn spec_is_cont(b: u8) -> bool {
    0x80 <= b && b <= 0xbf
}

/// The byte sequence is well-formed UTF-8: ASCII, or a correctly ranged
/// 2-, 3- or 4-byte sequence, excluding overlong forms, surrogates and
/// values beyond U+10FFFF.
pub open spec fn spec_is_utf8(s: Seq<u8>) -> bool
    decreases s.len(),
{
    if s.len() == 0 {
        true
    } else {
        let b0 = s[0];
        if b0 < 0x80 {
            spec_is_utf8(s.skip(1))
        } else if b0 < 0xc2 {
            false
        } else if b0 <= 0xdf {
            s.len() >= 2 && spec_is_cont(s[1]) && spec_is_utf8(s.skip(2))
        } else if b0 == 0xe0 {
            s.len() >= 3 && 0xa0 <= s[1] && s[1] <= 0xbf && spec_is_cont(s[2]) && spec_is_utf8(
                s.skip(3),
            )
        } else if b0 == 0xed {
            s.len() >= 3 && 0x80 <= s[1] && s[1] <= 0x9f && spec_is_cont(s[2]) && spec_is_utf8(
                s.skip(3),
            )
        } else if b0 <= 0xef {
            s.len() >= 3 && spec_is_cont(s[1]) && spec_is_cont(s[2]) && spec_is_utf8(s.skip(3))
        } else if b0 == 0xf0 {
            s.len() >= 4 && 0x90 <= s[1] && s[1] <= 0xbf && spec_is_cont(s[2]) && spec_is_cont(
                s[3],
            ) && spec_is_utf8(s.skip(4))
        } else if b0 <= 0xf3 {
            s.len() >= 4 && spec_is_cont(s[1]) && spec_is_cont(s[2]) && spec_is_cont(s[3])
                && spec_is_utf8(s.skip(4))
        } else if b0 == 0xf4 {
            s.len() >= 4 && 0x80 <= s[1] && s[1] <= 0x8f && spec_is_cont(s[2]) && spec_is_cont(
                s[3],
            ) && spec_is_utf8(s.skip(4))
        } else {
            false
        }
    }
}

fn is_cont(b: u8) -> (r: bool)
    ensures
        r == spec_is_cont(b),
{
    0x80 <= b && b <= 0xbf
}

/// Checks the whole slice for UTF-8 well-formedness, the precondition of
/// treating a captured payload as text.
pub fn utf8_valid(s: &[u8]) -> (r: bool)
    ensures
        r == spec_is_utf8(s@),
{
    let n = s.len();
    let mut i: usize = 0;
    proof {
        assert(s@.skip(0) =~= s@);
    }
    while i < n
        invariant
            i <= n == s@.len(),
            spec_is_utf8(s@) == spec_is_utf8(s@.skip(i as int)),
        decreases n - i,
    {
        let ghost rest = s@.skip(i as int);
        proof {
            assert(rest[0] == s@[i as int]);
            if i + 1 < n {
                assert(rest[1] == s@[i + 1]);
            }
            if i + 2 < n {
                assert(rest[2] == s@[i + 2]);
            }
            if i + 3 < n {
                assert(rest[3] == s@[i + 3]);
            }
        }
        let b0 = s[i];
        if b0 < 0x80 {
            proof {
                assert(rest.skip(1) =~= s@.skip(i + 1));
            }
            i = i + 1;
        } else if b0 < 0xc2 {
            return false;
        } else if b0 <= 0xdf {
            if n - i < 2 || !is_cont(s[i + 1]) {
                return false;
            }
            proof {
                assert(rest.skip(2) =~= s@.skip(i + 2));
            }
            i = i + 2;
        } else if b0 == 0xe0 {
            if n - i < 3 {
                return false;
            }
            let b1 = s[i + 1];
            if !(0xa0 <= b1 && b1 <= 0xbf) || !is_cont(s[i + 2]) {
                return false;
            }
            proof {
                assert(rest.skip(3) =~= s@.skip(i + 3));
            }
            i = i + 3;
        } else if b0 == 0xed {
            if n - i < 3 {
                return false;
            }
            let b1 = s[i + 1];
            if !(0x80 <= b1 && b1 <= 0x9f) || !is_cont(s[i + 2]) {
                return false;
            }
            proof {
                assert(rest.skip(3) =~= s@.skip(i + 3));
            }
            i = i + 3;
        } else if b0 <= 0xef {
            if n - i < 3 || !is_cont(s[i + 1]) || !is_cont(
                s[i + 2],
            ) {
                return false;
            }
            proof {
                assert(rest.skip(3) =~= s@.skip(i + 3));
            }
            i = i + 3;
        } else if b0 == 0xf0 {
            if n - i < 4 {
                return false;
            }
            let b1 = s[i + 1];
            if !(0x90 <= b1 && b1 <= 0xbf) || !is_cont(s[i + 2]) || !is_cont(
                s[i + 3],
            ) {
                return false;
            }
            proof {
                assert(rest.skip(4) =~= s@.skip(i + 4));
            }
            i = i + 4;
        } else if b0 <= 0xf3 {
            if n - i < 4 || !is_cont(s[i + 1]) || !is_cont(
                s[i + 2],
            ) || !is_cont(s[i + 3]) {
                return false;
            }
            proof {
                assert(rest.skip(4) =~= s@.skip(i + 4));
            }
            i = i + 4;
        } else if b0 == 0xf4 {
            if n - i < 4 {
                return false;
            }
            let b1 = s[i + 1];
            if !(0x80 <= b1 && b1 <= 0x8f) || !is_cont(s[i + 2]) || !is_cont(
                s[i + 3],
            ) {
                return false;
            }
            proof {
                assert(rest.skip(4) =~= s@.skip(i + 4));
            }
            i = i + 4;
        } else {
            return false;
        }
    }
    true
}


/// `GET ` — request-method prefix.
pub open spec fn spec_pat_get() -> Seq<u8> {
    seq![0x47u8, 0x45u8, 0x54u8, 0x20u8]
}

/// `POST ` — request-method prefix.
pub open spec fn spec_pat_post() -> Seq<u8> {
    seq![0x50u8, 0x4fu8, 0x53u8, 0x54u8, 0x20u8]
}

/// `PUT ` — request-method prefix.
pub open spec fn spec_pat_put() -> Seq<u8> {
    seq![0x50u8, 0x55u8, 0x54u8, 0x20u8]
}

/// `DELETE ` — request-method prefix.
pub open spec fn spec_pat_delete() -> Seq<u8> {
    seq![0x44u8, 0x45u8, 0x4cu8, 0x45u8, 0x54u8, 0x45u8, 0x20u8]
}

/// `HEAD ` — request-method prefix.
pub open spec fn spec_pat_head() -> Seq<u8> {
    seq![0x48u8, 0x45u8, 0x41u8, 0x44u8, 0x20u8]
}

/// `HTTP/` — response-line prefix.
pub open spec fn spec_pat_http() -> Seq<u8> {
    seq![0x48u8, 0x54u8, 0x54u8, 0x50u8, 0x2fu8]
}

/// `{"log":` — container log-driver chatter.
pub open spec fn spec_pat_log() -> Seq<u8> {
    seq![0x7bu8, 0x22u8, 0x6cu8, 0x6fu8, 0x67u8, 0x22u8, 0x3au8]
}

/// `masdeepflow` — the agent's own traffic.
pub open spec fn spec_pat_agent() -> Seq<u8> {
    seq![0x6du8, 0x61u8, 0x73u8, 0x64u8, 0x65u8, 0x65u8, 0x70u8, 0x66u8, 0x6cu8, 0x6fu8, 0x77u8]
}

/// `SandboxID` — container-runtime API chatter.
pub open spec fn spec_pat_sandbox() -> Seq<u8> {
    seq![0x53u8, 0x61u8, 0x6eu8, 0x64u8, 0x62u8, 0x6fu8, 0x78u8, 0x49u8, 0x44u8]
}

/// `Bridge` — container-network API chatter.
pub open spec fn spec_pat_bridge() -> Seq<u8> {
    seq![0x42u8, 0x72u8, 0x69u8, 0x64u8, 0x67u8, 0x65u8]
}

/// `/containers/` — container-runtime API paths.
pub open spec fn spec_pat_containers() -> Seq<u8> {
    seq![0x2fu8, 0x63u8, 0x6fu8, 0x6eu8, 0x74u8, 0x61u8, 0x69u8, 0x6eu8, 0x65u8, 0x72u8, 0x73u8,
        0x2fu8]
}

/// `GET /v1.` — container-runtime version-prefixed requests.
pub open spec fn spec_pat_get_v1() -> Seq<u8> {
    seq![0x47u8, 0x45u8, 0x54u8, 0x20u8, 0x2fu8, 0x76u8, 0x31u8, 0x2eu8]
}

/// A recognized L7 head, at the specification level: text carried as
/// byte sequences.
pub enum L7Spec {
    /// A MySQL `COM_QUERY` head; carries the SQL text bytes.
    MysqlQuery(Seq<u8>),
    /// A MySQL OK response head.
    MysqlOk,
    /// A MySQL ERR response head.
    MysqlErr,
    /// An HTTP request head; carries the first line.
    HttpRequest(Seq<u8>),
    /// An HTTP response head; carries the first line.
    HttpResponse(Seq<u8>),
}

/// A recognized L7 head: what the emitter annotates an event with.
#[derive(Clone, Debug, PartialEq, Eq)]
pub enum L7 {
    /// A MySQL `COM_QUERY` head; carries the SQL text bytes.
    MysqlQuery(Vec<u8>),
    /// A MySQL OK response head.
    MysqlOk,
    /// A MySQL ERR response head.
    MysqlErr,
    /// An HTTP request head; carries the first line.
    HttpRequest(Vec<u8>),
    /// An HTTP response head; carries the first line.
    HttpResponse(Vec<u8>),
}

impl View for L7 {
    type V = L7Spec;

    open spec fn view(&self) -> L7Spec {
        match self {
            L7::MysqlQuery(sql) => L7Spec::MysqlQuery(sql@),
            L7::MysqlOk => L7Spec::MysqlOk,
            L7::MysqlErr => L7Spec::MysqlErr,
            L7::HttpRequest(line) => L7Spec::HttpRequest(line@),
            L7::HttpResponse(line) => L7Spec::HttpResponse(line@),
        }
    }
}

/// A head that opens a request/response session and starts the latency
/// clock.
pub open spec fn spec_opens_session(l: L7Spec) -> bool {
    l is MysqlQuery || l is HttpRequest
}

/// A head that closes a request/response session and stops the latency
/// clock.
pub open spec fn spec_closes_session(l: L7Spec) -> bool {
    l is MysqlOk || l is MysqlErr || l is HttpResponse
}

/// The payload bytes the parser looks at: the captured prefix, clipped
/// to the reported data length.
pub open spec fn spec_payload_slice(payload: Seq<u8>, data_len: u32) -> Seq<u8> {
    if data_len <= payload.len() {
        payload.take(data_len as int)
    } else {
        payload
    }
}

/// MySQL head recognition on a payload that involves port 3306: whether
/// the bytes are a client request or a server response follows from
/// which side port 3306 is on and the transfer direction.
pub open spec fn spec_mysql_scan(p: Seq<u8>, sport: u16, dport: u16, direction: u8) -> Option<
    L7Spec,
> {
    if (dport == 3306 || sport == 3306) && p.len() > 4 {
        let is_request = if dport == 3306 {
            direction == DIR_TX
        } else {
            direction == DIR_RX
        };
        if is_request {
            if p[3] == 0 && p.len() > 5 && p[4] == 0x03 {
                Some(L7Spec::MysqlQuery(p.skip(5)))
            } else {
                None
            }
        } else {
            if p[4] == 0x00 {
                Some(L7Spec::MysqlOk)
            } else if p[4] == 0xff {
                Some(L7Spec::MysqlErr)
            } else {
                None
            }
        }
    } else {
        None
    }
}

/// HTTP head recognition, the fallback when no MySQL head matched: the
/// whole captured prefix must be valid UTF-8; a request-method prefix or
/// an `HTTP/` prefix is then matched on the NUL-trimmed text.
pub open spec fn spec_http_scan(p: Seq<u8>) -> Option<L7Spec> {
    if spec_is_utf8(p) {
        let clean = spec_trim_nul(p);
        if spec_has_prefix(clean, spec_pat_get()) || spec_has_prefix(clean, spec_pat_post())
            || spec_has_prefix(clean, spec_pat_put()) || spec_has_prefix(
            clean,
            spec_pat_delete(),
        ) || spec_has_prefix(clean, spec_pat_head()) {
            Some(L7Spec::HttpRequest(spec_first_line(clean)))
        } else if spec_has_prefix(clean, spec_pat_http()) {
            Some(L7Spec::HttpResponse(spec_first_line(clean)))
        } else {
            None
        }
    } else {
        None
    }
}

/// The NUL-trimmed payload text characterizes container-runtime chatter.
pub open spec fn spec_clean_noisy(clean: Seq<u8>) -> bool {
    spec_contains(clean, spec_pat_log()) || spec_contains(clean, spec_pat_agent())
        || spec_contains(clean, spec_pat_sandbox()) || spec_contains(clean, spec_pat_bridge())
        || spec_contains(clean, spec_pat_containers()) || spec_has_prefix(
        clean,
        spec_pat_get_v1(),
    )
}

/// The complete L7 scan of one event's payload: MySQL first, HTTP as
/// fallback; nothing for an empty payload.
pub open spec fn spec_l7_scan(
    payload: Seq<u8>,
    data_len: u32,
    sport: u16,
    dport: u16,
    direction: u8,
) -> Option<L7Spec> {
    if data_len == 0 {
        None
    } else {
        let p = spec_payload_slice(payload, data_len);
        match spec_mysql_scan(p, sport, dport, direction) {
            Some(l) => Some(l),
            None => spec_http_scan(p),
        }
    }
}

/// The event must be dropped as noise: the payload reached the text
/// fallback (no MySQL head, valid UTF-8) and its trimmed text matches
/// the container-runtime chatter patterns.
pub open spec fn spec_l7_noisy(
    payload: Seq<u8>,
    data_len: u32,
    sport: u16,
    dport: u16,
    direction: u8,
) -> bool {
    &&& data_len > 0
    &&& spec_mysql_scan(spec_payload_slice(payload, data_len), sport, dport, direction) is None
    &&& spec_is_utf8(spec_payload_slice(payload, data_len))
    &&& spec_clean_noisy(spec_trim_nul(spec_payload_slice(payload, data_len)))
}

/// What one payload scan yields: the recognized head, if any, and
/// whether the event is container-runtime noise to be dropped.
pub struct ScanResult {
    /// The recognized L7 head, if any.
    pub l7: Option<L7>,
    /// The event matches the noise patterns and must not be emitted.
    pub noisy: bool,
}

fn mysql_scan(p: &[u8], sport: u16, dport: u16, direction: u8) -> (r: Option<L7>)
    ensures
        match r {
            Some(l) => spec_mysql_scan(p@, sport, dport, direction) == Some(l@),
            None => spec_mysql_scan(p@, sport, dport, direction) is None,
        },
{
    if !(dport == 3306 || sport == 3306) || p.len() <= 4 {
        return None;
    }
    let is_request = if dport == 3306 {
        direction == DIR_TX
    } else {
        direction == DIR_RX
    };
    if is_request {
        if p[3] == 0 && p.len() > 5 && p[4] == 0x03 {
            let mut sql: Vec<u8> = Vec::new();
            let mut i: usize = 5;
            while i < p.len()
                invariant
                    5 <= i <= p@.len(),
                    sql@ == p@.subrange(5, i as int),
                decreases p@.len() - i,
            {
                sql.push(p[i]);
                proof {
                    assert(sql@ =~= p@.subrange(5, i + 1));
                }
                i = i + 1;
            }
            proof {
                assert(p@.subrange(5, p@.len() as int) =~= p@.skip(5));
            }
            Some(L7::MysqlQuery(sql))
        } else {
            None
        }
    } else {
        if p[4] == 0x00 {
            Some(L7::MysqlOk)
        } else if p[4] == 0xff {
            Some(L7::MysqlErr)
        } else {
            None
        }
    }
}

fn pat_get() -> (r: Vec<u8>)
    ensures
        r@ == spec_pat_get(),
{
    let mut v: Vec<u8> = Vec::new();
    v.push(0x47);
    v.push(0x45);
    v.push(0x54);
    v.push(0x20);
    proof {
        assert(v@ =~= spec_pat_get());
    }
    v
}

fn pat_post() -> (r: Vec<u8>)
    ensures
        r@ == spec_pat_post(),
{
    let mut v: Vec<u8> = Vec::new();
    v.push(0x50);
    v.push(0x4f);
    v.push(0x53);
    v.push(0x54);
    v.push(0x20);
    proof {
        assert(v@ =~= spec_pat_post());
    }
    v
}

fn pat_put() -> (r: Vec<u8>)
    ensures
        r@ == spec_pat_put(),
{
    let mut v: Vec<u8> = Vec::new();
    v.push(0x50);
    v.push(0x55);
    v.push(0x54);
    v.push(0x20);
    proof {
        assert(v@ =~= spec_pat_put());
    }
    v
}

fn pat_delete() -> (r: Vec<u8>)
    ensures
        r@ == spec_pat_delete(),
{
    let mut v: Vec<u8> = Vec::new();
    v.push(0x44);
    v.push(0x45);
    v.push(0x4c);
    v.push(0x45);
    v.push(0x54);
    v.push(0x45);
    v.push(0x20);
    proof {
        assert(v@ =~= spec_pat_delete());
    }
    v
}

fn pat_head() -> (r: Vec<u8>)
    ensures
        r@ == spec_pat_head(),
{
    let mut v: Vec<u8> = Vec::new();
    v.push(0x48);
    v.push(0x45);
    v.push(0x41);
    v.push(0x44);
    v.push(0x20);
    proof {
        assert(v@ =~= spec_pat_head());
    }
    v
}

fn pat_http() -> (r: Vec<u8>)
    ensures
        r@ == spec_pat_http(),
{
    let mut v: Vec<u8> = Vec::new();
    v.push(0x48);
    v.push(0x54);
    v.push(0x54);
    v.push(0x50);
    v.push(0x2f);
    proof {
        assert(v@ =~= spec_pat_http());
    }
    v
}

fn pat_log() -> (r: Vec<u8>)
    ensures
        r@ == spec_pat_log(),
{
    let mut v: Vec<u8> = Vec::new();
    v.push(0x7b);
    v.push(0x22);
    v.push(0x6c);
    v.push(0x6f);
    v.push(0x67);
    v.push(0x22);
    v.push(0x3a);
    proof {
        assert(v@ =~= spec_pat_log());
    }
    v
}

fn pat_agent() -> (r: Vec<u8>)
    ensures
        r@ == spec_pat_agent(),
{
    let mut v: Vec<u8> = Vec::new();
    v.push(0x6d);
    v.push(0x61);
    v.push(0x73);
    v.push(0x64);
    v.push(0x65);
    v.push(0x65);
    v.push(0x70);
    v.push(0x66);
    v.push(0x6c);
    v.push(0x6f);
    v.push(0x77);
    proof {
        assert(v@ =~= spec_pat_agent());
    }
    v
}

fn pat_sandbox() -> (r: Vec<u8>)
    ensures
        r@ == spec_pat_sandbox(),
{
    let mut v: Vec<u8> = Vec::new();
    v.push(0x53);
    v.push(0x61);
    v.push(0x6e);
    v.push(0x64);
    v.push(0x62);
    v.push(0x6f);
    v.push(0x78);
    v.push(0x49);
    v.push(0x44);
    proof {
        assert(v@ =~= spec_pat_sandbox());
    }
    v
}

fn pat_bridge() -> (r: Vec<u8>)
    ensures
        r@ == spec_pat_bridge(),
{
    let mut v: Vec<u8> = Vec::new();
    v.push(0x42);
    v.push(0x72);
    v.push(0x69);
    v.push(0x64);
    v.push(0x67);
    v.push(0x65);
    proof {
        assert(v@ =~= spec_pat_bridge());
    }
    v
}

fn pat_containers() -> (r: Vec<u8>)
    ensures
        r@ == spec_pat_containers(),
{
    let mut v: Vec<u8> = Vec::new();
    v.push(0x2f);
    v.push(0x63);
    v.push(0x6f);
    v.push(0x6e);
    v.push(0x74);
    v.push(0x61);
    v.push(0x69);
    v.push(0x6e);
    v.push(0x65);
    v.push(0x72);
    v.push(0x73);
    v.push(0x2f);
    proof {
        assert(v@ =~= spec_pat_containers());
    }
    v
}

fn pat_get_v1() -> (r: Vec<u8>)
    ensures
        r@ == spec_pat_get_v1(),
{
    let mut v: Vec<u8> = Vec::new();
    v.push(0x47);
    v.push(0x45);
    v.push(0x54);
    v.push(0x20);
    v.push(0x2f);
    v.push(0x76);
    v.push(0x31);
    v.push(0x2e);
    proof {
        assert(v@ =~= spec_pat_get_v1());
    }
    v
}

/// Scans one event's payload: MySQL head first, text fallback second,
/// and the noise decision on the same trimmed text.
pub fn l7_scan(payload: &[u8; 128], data_len: u32, sport: u16, dport: u16, direction: u8) -> (r:
    ScanResult)
    ensures
        match r.l7 {
            Some(l) => spec_l7_scan(payload@, data_len, sport, dport, direction) == Some(l@),
            None => spec_l7_scan(payload@, data_len, sport, dport, direction) is None,
        },
        r.noisy == spec_l7_noisy(payload@, data_len, sport, dport, direction),
{
    if data_len == 0 {
        return ScanResult { l7: None, noisy: false };
    }
    let n: usize = if data_len <= 128 {
        data_len as usize
    } else {
        128
    };
    let p = vstd::slice::slice_subrange(payload.as_slice(), 0, n);
    proof {
        assert(p@ =~= spec_payload_slice(payload@, data_len));
    }
    let m = mysql_scan(p, sport, dport, direction);
    if let Some(l) = m {
        return ScanResult { l7: Some(l), noisy: false };
    }
    if !utf8_valid(p) {
        return ScanResult { l7: None, noisy: false };
    }
    let clean = trim_nul(p);
    let noisy = contains_bytes(clean.as_slice(), pat_log().as_slice()) || contains_bytes(
        clean.as_slice(),
        pat_agent().as_slice(),
    ) || contains_bytes(clean.as_slice(), pat_sandbox().as_slice()) || contains_bytes(
        clean.as_slice(),
        pat_bridge().as_slice(),
    ) || contains_bytes(clean.as_slice(), pat_containers().as_slice()) || has_prefix(
        clean.as_slice(),
        pat_get_v1().as_slice(),
    );
    let l7 = if has_prefix(clean.as_slice(), pat_get().as_slice()) || has_prefix(
        clean.as_slice(),
        pat_post().as_slice(),
    ) || has_prefix(clean.as_slice(), pat_put().as_slice()) || has_prefix(
        clean.as_slice(),
        pat_delete().as_slice(),
    ) || has_prefix(clean.as_slice(), pat_head().as_slice()) {
        Some(L7::HttpRequest(first_line(clean.as_slice())))
    } else if has_prefix(clean.as_slice(), pat_http().as_slice()) {
        Some(L7::HttpResponse(first_line(clean.as_slice())))
    } else {
        None
    };
    ScanResult { l7, noisy }
}

} // verus!
