//! The option values a subscriber socket is configured with, and the client
//! identity it announces.

use vstd::prelude::*;

verus! {

/// Plain-text user name sent in the security handshake.
pub const PLAIN_USERNAME: &'static str = "stats";

/// Authentication domain tag for the security handshake.
pub const ZAP_DOMAIN: &'static str = "stats";

/// Heartbeat interval and timeout, in milliseconds (ten minutes).
pub const HEARTBEAT_MS: i32 = 600000;

/// Whether `i` is a hyphen position of a canonical hyphenated identifier.
pub open spec fn is_hyphen_position(i: int) -> bool {
    i == 8 || i == 13 || i == 18 || i == 23
}

pub open spec fn is_lower_hex(c: char) -> bool {
    ('0' <= c && c <= '9') || ('a' <= c && c <= 'f')
}

/// Lower-case hyphenated form of a unique identifier: 36 characters, hex
/// digits in 8-4-4-4-12 groups.
pub open spec fn is_hyphenated_uuid(s: Seq<char>) -> bool {
    &&& s.len() == 36
    &&& forall|i: int|
        0 <= i < 36 ==> if is_hyphen_position(i) {
            s[i] == '-'
        } else {
            is_lower_hex(#[trigger] s[i])
        }
}

/// The text with every `-` removed, order kept.
pub open spec fn strip_hyphens(s: Seq<char>) -> Seq<char>
    decreases s.len(),
{
    if s.len() == 0 {
        s
    } else if s.last() == '-' {
        strip_hyphens(s.drop_last())
    } else {
        strip_hyphens(s.drop_last()).push(s.last())
    }
}

/// How many hyphen positions lie below `i`.
pub open spec fn hyphens_below(i: int) -> int {
    (if i > 8 { 1int } else { 0 }) + (if i > 13 { 1int } else { 0 }) + (if i > 18 { 1int } else { 0 })
        + (if i > 23 { 1int } else { 0 })
}

proof fn lemma_strip_uuid_prefix(s: Seq<char>, i: int)
    requires
        is_hyphenated_uuid(s),
        0 <= i <= 36,
    ensures
        strip_hyphens(s.take(i)).len() == i - hyphens_below(i),
        forall|k: int|
            0 <= k < strip_hyphens(s.take(i)).len() ==> is_lower_hex(
                #[trigger] strip_hyphens(s.take(i))[k],
            ),
    decreases i,
{
    if i > 0 {
        lemma_strip_uuid_prefix(s, i - 1);
        assert(s.take(i).drop_last() == s.take(i - 1));
        assert(s.take(i).last() == s[i - 1]);
    }
}

/// Removing the hyphens of a hyphenated identifier leaves its 32 hex digits.
pub proof fn lemma_stripped_uuid(s: Seq<char>)
    requires
        is_hyphenated_uuid(s),
    ensures
        strip_hyphens(s).len() == 32,
        forall|k: int| 0 <= k < 32 ==> is_lower_hex(#[trigger] strip_hyphens(s)[k]),
{
    lemma_strip_uuid_prefix(s, 36);
    assert(s.take(36) == s);
}

/// Relies on `uuid::Uuid::new_v4` and its `Display`, which writes the
/// lower-case hyphenated form.
#[verifier::external_body]
fn random_uuid_text() -> (r: String)
    ensures
        is_hyphenated_uuid(r@),
{
    uuid::Uuid::new_v4().to_string()
}

/// Removes every `-` from the text.
pub fn without_hyphens(s: &str) -> (r: String)
    ensures
        r@ == strip_hyphens(s@),
{
    let n = s.unicode_len();
    let mut out = String::new();
    let mut i: usize = 0;
    while i < n
        invariant
            n == s@.len(),
            i <= n,
            out@ == strip_hyphens(s@.take(i as int)),
        decreases n - i,
    {
        let c = s.get_char(i);
        assert(s@.take(i as int + 1).drop_last() == s@.take(i as int));
        if c != '-' {
            out.append(s.substring_char(i, i + 1));
            assert(s@.subrange(i as int, i as int + 1) == seq![c]);
        }
        i = i + 1;
    }
    assert(s@.take(n as int) == s@);
    out
}

/// The identity to announce: the given one when it is not empty, otherwise
/// `fresh_uuid` without its hyphens.
pub fn identity_from(identity: &str, fresh_uuid: &str) -> (r: String)
    ensures
        identity@.len() > 0 ==> r@ == identity@,
        identity@.len() == 0 ==> r@ == strip_hyphens(fresh_uuid@),
{
    if identity.unicode_len() > 0 {
        identity.to_string()
    } else {
        without_hyphens(fresh_uuid)
    }
}

/// The identity to announce: the given one when it is not empty, otherwise a
/// freshly generated unique identifier without separators.
pub fn client_identity(identity: &str) -> (r: String)
    ensures
        identity@.len() > 0 ==> r@ == identity@,
        identity@.len() == 0 ==> exists|u: Seq<char>|
            is_hyphenated_uuid(u) && r@ == strip_hyphens(u),
        identity@.len() == 0 ==> r@.len() == 32 && forall|k: int|
            0 <= k < 32 ==> is_lower_hex(#[trigger] r@[k]),
{
    if identity.unicode_len() > 0 {
        identity.to_string()
    } else {
        let fresh = random_uuid_text();
        proof {
            lemma_stripped_uuid(fresh@);
        }
        identity_from(identity, fresh.as_str())
    }
}

/// Every option value that the subscriber socket is given before it connects.
pub struct SubscriberSettings {
    pub username: String,
    /// `None` clears the password.
    pub password: Option<String>,
    pub identity: String,
    pub recv_timeout: i32,
    pub recv_high_water_mark: i32,
    pub send_timeout: i32,
    pub send_high_water_mark: i32,
    pub heartbeat_interval: i32,
    pub heartbeat_timeout: i32,
    pub zap_domain: String,
}

/// The settings apart from the identity: fixed user name and domain, the
/// password when given, no timeouts or queue limits, ten-minute heartbeats.
pub open spec fn settings_match(s: SubscriberSettings, password: Seq<char>) -> bool {
    &&& s.username@ == PLAIN_USERNAME@
    &&& (password.len() > 0 ==> (s.password matches Some(p) && p@ == password))
    &&& (password.len() == 0 ==> s.password is None)
    &&& s.recv_timeout == 0
    &&& s.recv_high_water_mark == 0
    &&& s.send_timeout == 0
    &&& s.send_high_water_mark == 0
    &&& s.heartbeat_interval == HEARTBEAT_MS
    &&& s.heartbeat_timeout == HEARTBEAT_MS
    &&& s.zap_domain@ == ZAP_DOMAIN@
}

/// The settings for the given password and identity; an empty identity gets
/// a generated one.
pub fn subscriber_settings(password: &str, identity: &str) -> (r: SubscriberSettings)
    ensures
        settings_match(r, password@),
        identity@.len() > 0 ==> r.identity@ == identity@,
        identity@.len() == 0 ==> exists|u: Seq<char>|
            is_hyphenated_uuid(u) && r.identity@ == strip_hyphens(u),
        identity@.len() == 0 ==> r.identity@.len() == 32,
{
    let pw = if password.unicode_len() > 0 {
        Some(password.to_string())
    } else {
        None
    };
    SubscriberSettings {
        username: PLAIN_USERNAME.to_string(),
        password: pw,
        identity: client_identity(identity),
        recv_timeout: 0,
        recv_high_water_mark: 0,
        send_timeout: 0,
        send_high_water_mark: 0,
        heartbeat_interval: HEARTBEAT_MS,
        heartbeat_timeout: HEARTBEAT_MS,
        zap_domain: ZAP_DOMAIN.to_string(),
    }
}

} // verus!
