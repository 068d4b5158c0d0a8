//! Validated names and locations, and the scope rule derived from locations.

use vstd::prelude::*;
use crate::error::{LavaFlowError, Result, ValidationReason};
use crate::text::{
    ascii_lowercase, is_ascii_alphanumeric, is_ascii_digit, is_ascii_lowercase,
    is_ascii_uppercase, is_white_space, trim, trim_end, trim_start,
};

pub use crate::error::CommunicationScope;

verus! {

/// Longest accepted identifier, in characters.
pub const MAX_IDENTIFIER_LEN: usize = 64;

/// Longest accepted hostname, in characters.
pub const MAX_HOSTNAME_LEN: usize = 253;

/// Characters allowed in an identifier after the first one.
pub open spec fn is_identifier_char(c: char) -> bool {
    is_ascii_lowercase(c) || is_ascii_digit(c) || c == '-' || c == '_'
}

/// Characters allowed in a hostname after the first one.
pub open spec fn is_hostname_char(c: char) -> bool {
    is_ascii_alphanumeric(c) || c == '-' || c == '.' || c == '_'
}

/// Why `s` is not an identifier, checked in this order; `None` when it is one. The first
/// character may be any ASCII letter or digit; the rules on lowercase apply to the others.
pub open spec fn identifier_error(s: Seq<char>) -> Option<ValidationReason> {
    if s.len() == 0 {
        Some(ValidationReason::Empty)
    } else if s.len() > MAX_IDENTIFIER_LEN {
        Some(ValidationReason::IdentifierTooLong)
    } else if !is_ascii_alphanumeric(s[0]) {
        Some(ValidationReason::InvalidStartCharacter)
    } else if !(forall|i: int| 1 <= i < s.len() ==> is_identifier_char(#[trigger] s[i])) {
        Some(ValidationReason::InvalidCharacters)
    } else {
        None
    }
}

/// Why the trimmed sequence `t` is not a hostname, checked in this order.
pub open spec fn trimmed_hostname_error(t: Seq<char>) -> Option<ValidationReason> {
    if t.len() == 0 {
        Some(ValidationReason::Empty)
    } else if t.len() > MAX_HOSTNAME_LEN {
        Some(ValidationReason::HostnameTooLong)
    } else if !is_ascii_alphanumeric(t[0]) {
        Some(ValidationReason::InvalidStartCharacter)
    } else if !(forall|i: int| 0 <= i < t.len() ==> is_hostname_char(#[trigger] t[i])) {
        Some(ValidationReason::InvalidCharacters)
    } else {
        None
    }
}

/// Why `s` is not a hostname: the rules apply to `s` with surrounding white space removed.
pub open spec fn hostname_error(s: Seq<char>) -> Option<ValidationReason> {
    trimmed_hostname_error(trim(s))
}

/// The stored form of an accepted hostname: trimmed and lowercased.
pub open spec fn normalized_hostname(s: Seq<char>) -> Seq<char> {
    ascii_lowercase(trim(s))
}

/// A hostname as stored in a location: valid and without uppercase letters.
pub open spec fn is_normalized_hostname(h: Seq<char>) -> bool {
    &&& trimmed_hostname_error(h) is None
    &&& forall|i: int| 0 <= i < h.len() ==> !is_ascii_uppercase(#[trigger] h[i])
}

/// Lowercasing a valid trimmed hostname yields a normalized hostname.
proof fn lemma_normalized_is_valid(t: Seq<char>)
    requires
        trimmed_hostname_error(t) is None,
    ensures
        is_normalized_hostname(ascii_lowercase(t)),
{
    let h = ascii_lowercase(t);
    assert forall|i: int| 0 <= i < h.len() implies is_hostname_char(#[trigger] h[i])
        && !is_ascii_uppercase(h[i]) by {
        assert(is_hostname_char(t[i]));
    }
}

/// Whether every character after the first is allowed: in a hostname, or in an identifier.
fn rest_chars_match(s: &str, hostname: bool) -> (r: bool)
    ensures
        hostname ==> (r == forall|i: int| 1 <= i < s@.len() ==> is_hostname_char(#[trigger] s@[i])),
        !hostname ==> (r == forall|i: int| 1 <= i < s@.len() ==> is_identifier_char(
            #[trigger] s@[i],
        )),
{
    let n: usize = s.unicode_len();
    let mut i: usize = 1;
    while i < n
        invariant
            n == s@.len(),
            1 <= i,
            i <= n || n == 0,
            hostname ==> forall|k: int| 1 <= k < i && k < n ==> is_hostname_char(#[trigger] s@[k]),
            !hostname ==> forall|k: int| 1 <= k < i && k < n ==> is_identifier_char(#[trigger] s@[k]),
        decreases n - i,
    {
        let c = s.get_char(i);
        let ok = if hostname {
            crate::text::is_ascii_alphanumeric_char(c) || c == '-' || c == '.' || c == '_'
        } else {
            ('a' <= c && c <= 'z') || ('0' <= c && c <= '9') || c == '-' || c == '_'
        };
        if !ok {
            return false;
        }
        i = i + 1;
    }
    true
}

/// Checks the identifier rules; on failure the input comes back with the reason.
pub fn validate_identifier(value: String) -> (r: core::result::Result<String, (String, ValidationReason)>)
    ensures
        match r {
            Ok(v) => identifier_error(value@) is None && v@ == value@,
            Err((v, reason)) => v@ == value@ && identifier_error(value@) == Some(reason),
        },
{
    let n: usize = value.as_str().unicode_len();
    if n == 0 {
        return Err((value, ValidationReason::Empty));
    }
    if n > MAX_IDENTIFIER_LEN {
        return Err((value, ValidationReason::IdentifierTooLong));
    }
    let first = value.as_str().get_char(0);
    if !crate::text::is_ascii_alphanumeric_char(first) {
        return Err((value, ValidationReason::InvalidStartCharacter));
    }
    if !rest_chars_match(value.as_str(), false) {
        return Err((value, ValidationReason::InvalidCharacters));
    }
    Ok(value)
}

/// Checks the hostname rules on the trimmed input. On success the trimmed input comes back
/// lowercased; on failure the input comes back as given, with the reason.
pub fn validate_hostname(value: &str) -> (r: core::result::Result<String, (String, ValidationReason)>)
    ensures
        match r {
            Ok(v) => hostname_error(value@) is None && v@ == normalized_hostname(value@)
                && is_normalized_hostname(v@),
            Err((v, reason)) => v@ == value@ && hostname_error(value@) == Some(reason),
        },
{
    let trimmed = crate::text::trim_string(value);
    let n: usize = trimmed.as_str().unicode_len();
    if n == 0 {
        return Err((crate::text::owned(value), ValidationReason::Empty));
    }
    if n > MAX_HOSTNAME_LEN {
        return Err((crate::text::owned(value), ValidationReason::HostnameTooLong));
    }
    let first = trimmed.as_str().get_char(0);
    if !crate::text::is_ascii_alphanumeric_char(first) {
        return Err((crate::text::owned(value), ValidationReason::InvalidStartCharacter));
    }
    if !rest_chars_match(trimmed.as_str(), true) {
        return Err((crate::text::owned(value), ValidationReason::InvalidCharacters));
    }
    assert(is_hostname_char(trimmed@[0]));
    proof {
        lemma_normalized_is_valid(trimmed@);
    }
    Ok(crate::text::ascii_lowercase_string(trimmed.as_str()))
}

/// Logical process name used by channels and diagnostics.
#[derive(Debug, PartialEq, Eq, Hash)]
pub struct ProcessName(String);

impl View for ProcessName {
    type V = Seq<char>;

    closed spec fn view(&self) -> Seq<char> {
        self.0@
    }
}

impl Clone for ProcessName {
    fn clone(&self) -> (r: Self)
        ensures
            r@ == self@,
    {
        proof {
            use_type_invariant(self);
        }
        ProcessName(self.0.clone())
    }
}

impl ProcessName {
    #[verifier::type_invariant]
    closed spec fn inv(self) -> bool {
        identifier_error(self.0@) is None
    }

    /// Creates a validated process name.
    ///
    /// The name must be non-empty, at most 64 characters long, and start with an ASCII letter
    /// or digit; the characters after the first must be lowercase ASCII letters, digits, `-`
    /// or `_`.
    pub fn new(value: &str) -> (r: Result<Self>)
        ensures
            identifier_error(value@) is None <==> r is Ok,
            r matches Ok(name) ==> name@ == value@,
            r matches Err(e) ==> (e matches LavaFlowError::InvalidProcessName { value: v, reason }
                && v@ == value@ && identifier_error(value@) == Some(reason)),
    {
        match validate_identifier(crate::text::owned(value)) {
            Ok(v) => Ok(ProcessName(v)),
            Err((v, reason)) => Err(LavaFlowError::InvalidProcessName { value: v, reason }),
        }
    }

    /// Returns the process name as a borrowed string slice.
    pub fn as_str(&self) -> (r: &str)
        ensures
            r@ == self@,
            identifier_error(r@) is None,
    {
        proof {
            use_type_invariant(self);
        }
        self.0.as_str()
    }

    /// Consumes the wrapper and returns the owned inner string.
    pub fn into_inner(self) -> (r: String)
        ensures
            r@ == self@,
            identifier_error(r@) is None,
    {
        proof {
            use_type_invariant(&self);
        }
        self.0
    }
}

/// Stable identifier for a communication channel.
#[derive(Debug, PartialEq, Eq, Hash)]
pub struct ChannelId(String);

impl View for ChannelId {
    type V = Seq<char>;

    closed spec fn view(&self) -> Seq<char> {
        self.0@
    }
}

impl Clone for ChannelId {
    fn clone(&self) -> (r: Self)
        ensures
            r@ == self@,
    {
        proof {
            use_type_invariant(self);
        }
        ChannelId(self.0.clone())
    }
}

impl ChannelId {
    #[verifier::type_invariant]
    closed spec fn inv(self) -> bool {
        identifier_error(self.0@) is None
    }

    /// Creates a validated channel identifier; the rules are those of [`ProcessName::new`].
    pub fn new(value: &str) -> (r: Result<Self>)
        ensures
            identifier_error(value@) is None <==> r is Ok,
            r matches Ok(id) ==> id@ == value@,
            r matches Err(e) ==> (e matches LavaFlowError::InvalidChannelId { value: v, reason }
                && v@ == value@ && identifier_error(value@) == Some(reason)),
    {
        match validate_identifier(crate::text::owned(value)) {
            Ok(v) => Ok(ChannelId(v)),
            Err((v, reason)) => Err(LavaFlowError::InvalidChannelId { value: v, reason }),
        }
    }

    /// Returns the channel identifier as a borrowed string slice.
    pub fn as_str(&self) -> (r: &str)
        ensures
            r@ == self@,
            identifier_error(r@) is None,
    {
        proof {
            use_type_invariant(self);
        }
        self.0.as_str()
    }

    /// Consumes the wrapper and returns the owned inner string.
    pub fn into_inner(self) -> (r: String)
        ensures
            r@ == self@,
            identifier_error(r@) is None,
    {
        proof {
            use_type_invariant(&self);
        }
        self.0
    }
}

/// Location metadata used for topology-aware routing.
#[derive(Debug, PartialEq, Eq)]
pub struct ProcessLocation {
    hostname: String,
    node_id: Option<u32>,
    device_id: Option<u32>,
}

impl Clone for ProcessLocation {
    fn clone(&self) -> (r: Self)
        ensures
            r.host() == self.host(),
            r.node() == self.node(),
            r.device() == self.device(),
    {
        proof {
            use_type_invariant(self);
        }
        ProcessLocation {
            hostname: self.hostname.clone(),
            node_id: self.node_id,
            device_id: self.device_id,
        }
    }
}

impl ProcessLocation {
    #[verifier::type_invariant]
    closed spec fn inv(self) -> bool {
        is_normalized_hostname(self.hostname@)
    }

    /// The normalized hostname.
    pub closed spec fn host(self) -> Seq<char> {
        self.hostname@
    }

    /// The optional scheduler or node index.
    pub closed spec fn node(self) -> Option<u32> {
        self.node_id
    }

    /// The optional GPU or device index.
    pub closed spec fn device(self) -> Option<u32> {
        self.device_id
    }

    /// Creates a validated location with a hostname only.
    ///
    /// The hostname is trimmed, must then be non-empty, at most 253 characters long, start with an
    /// ASCII letter or digit and consist of ASCII letters, digits, `-`, `.` or `_`. It is
    /// stored lowercased so that scope comparison is stable.
    pub fn new(hostname: &str) -> (r: Result<Self>)
        ensures
            hostname_error(hostname@) is None <==> r is Ok,
            r matches Ok(loc) ==> loc.host() == normalized_hostname(hostname@) && loc.node()
                is None && loc.device() is None && is_normalized_hostname(loc.host()),
            r matches Err(e) ==> (e matches LavaFlowError::InvalidHostname { value: v, reason }
                && v@ == hostname@ && hostname_error(hostname@) == Some(reason)),
    {
        Self::with_ids(hostname, None, None)
    }

    /// Creates a validated location with a hostname plus optional node and device metadata.
    pub fn with_ids(hostname: &str, node_id: Option<u32>, device_id: Option<u32>) -> (r: Result<Self>)
        ensures
            hostname_error(hostname@) is None <==> r is Ok,
            r matches Ok(loc) ==> loc.host() == normalized_hostname(hostname@) && loc.node()
                == node_id && loc.device() == device_id && is_normalized_hostname(loc.host()),
            r matches Err(e) ==> (e matches LavaFlowError::InvalidHostname { value: v, reason }
                && v@ == hostname@ && hostname_error(hostname@) == Some(reason)),
    {
        match validate_hostname(hostname) {
            Ok(h) => Ok(ProcessLocation { hostname: h, node_id, device_id }),
            Err((v, reason)) => Err(LavaFlowError::InvalidHostname { value: v, reason }),
        }
    }

    /// Detects the local hostname through the operating system and returns a location, as
    /// [`Self::from_detected_hostname`] makes it of what the system reports.
    pub fn from_hostname() -> (r: Result<Self>)
        ensures
            r matches Ok(loc) ==> is_normalized_hostname(loc.host()) && loc.node() is None
                && loc.device() is None,
            r matches Err(e) ==> is_hostname_detection_failure(e),
    {
        Self::from_detected_hostname(system_hostname())
    }

    /// Makes a location of what hostname detection reported: the detected name, trimmed and
    /// validated as by [`Self::new`], or the detection failure's message.
    pub fn from_detected_hostname(detected: core::result::Result<String, String>) -> (r: Result<
        Self,
    >)
        ensures
            match detected {
                Ok(name) => {
                    &&& r is Ok <==> hostname_error(name@) is None
                    &&& r matches Ok(loc) ==> loc.host() == normalized_hostname(name@) && loc.node()
                        is None && loc.device() is None && is_normalized_hostname(loc.host())
                    &&& r matches Err(e) ==> e matches LavaFlowError::InvalidHostname { value, reason }
                        && value@ == trim(name@) && hostname_error(name@) == Some(reason)
                },
                Err(d) => r matches Err(e) && e matches LavaFlowError::HostnameDetection { detail }
                    && detail@ == d@,
            },
            r matches Err(e) ==> is_hostname_detection_failure(e),
    {
        match detected {
            Ok(name) => {
                let trimmed = crate::text::trim_string(name.as_str());
                proof {
                    crate::text::lemma_trim_idempotent(name@);
                }
                Self::new(trimmed.as_str())
            },
            Err(detail) => Err(LavaFlowError::HostnameDetection { detail }),
        }
    }

    /// Returns the normalized hostname.
    pub fn hostname(&self) -> (r: &str)
        ensures
            r@ == self.host(),
            is_normalized_hostname(r@),
    {
        proof {
            use_type_invariant(self);
        }
        self.hostname.as_str()
    }

    /// Returns the optional scheduler/node index metadata.
    pub fn node_id(&self) -> (r: Option<u32>)
        ensures
            r == self.node(),
    {
        self.node_id
    }

    /// Returns the optional GPU/device index metadata.
    pub fn device_id(&self) -> (r: Option<u32>)
        ensures
            r == self.device(),
    {
        self.device_id
    }
}

/// The operating system's name for this host, from `hostname::get`, converted lossily to
/// UTF-8; on failure the error's message.
///
/// Nothing is stated of the result: it depends on the machine.
#[verifier::external_body]
fn system_hostname() -> core::result::Result<String, String> {
    match hostname::get() {
        Ok(name) => Ok(name.to_string_lossy().into_owned()),
        Err(e) => Err(e.to_string()),
    }
}

/// How detecting the local hostname fails: the operating system gives no name, or the name it
/// gives is refused, with the reason it breaks the hostname rules.
pub open spec fn is_hostname_detection_failure(e: LavaFlowError) -> bool {
    ||| e is HostnameDetection
    ||| e matches LavaFlowError::InvalidHostname { value, reason } && hostname_error(value@)
        == Some(reason)
}

/// The scope of two locations: local exactly when their normalized hostnames are equal.
pub open spec fn scope_of(my_host: Seq<char>, peer_host: Seq<char>) -> CommunicationScope {
    if my_host == peer_host {
        CommunicationScope::Local
    } else {
        CommunicationScope::Remote
    }
}

/// Scope does not depend on which side asks, and every host is local to itself.
pub proof fn lemma_scope_is_symmetric(my_host: Seq<char>, peer_host: Seq<char>)
    ensures
        scope_of(my_host, peer_host) == scope_of(peer_host, my_host),
        scope_of(my_host, my_host) == CommunicationScope::Local,
{
}

/// Hostnames that differ only in ASCII case or in surrounding white space name the same host:
/// locations built from them are local to each other.
pub proof fn lemma_scope_ignores_case_and_padding(h1: Seq<char>, h2: Seq<char>)
    requires
        ascii_lowercase(trim(h1)) == ascii_lowercase(trim(h2)),
    ensures
        scope_of(normalized_hostname(h1), normalized_hostname(h2)) == CommunicationScope::Local,
{
}

/// The stored form of an accepted hostname is accepted again and stored unchanged: normalizing
/// twice is normalizing once.
pub proof fn lemma_normalized_hostname_is_stable(h: Seq<char>)
    requires
        hostname_error(h) is None,
    ensures
        hostname_error(normalized_hostname(h)) is None,
        normalized_hostname(normalized_hostname(h)) == normalized_hostname(h),
{
    let n = normalized_hostname(h);
    lemma_normalized_is_valid(trim(h));
    assert(is_hostname_char(n[0]));
    assert(is_hostname_char(n[n.len() - 1]));
    assert(!is_white_space(n[0]));
    assert(!is_white_space(n.last()));
    assert(trim_start(n) == n);
    assert(trim_end(n) == n);
    assert(trim(n) == n);
    assert(ascii_lowercase(n) =~= n) by {
        assert forall|i: int| 0 <= i < n.len() implies ascii_lowercase(n)[i] == n[i] by {
            assert(!is_ascii_uppercase(n[i]));
        }
    }
}

/// Two locations are local to each other exactly when their stored hostnames are the same
/// whole string: any difference, anywhere in the name, makes them remote.
pub proof fn lemma_scope_local_iff_same_hostname(my_host: Seq<char>, peer_host: Seq<char>)
    ensures
        scope_of(my_host, peer_host) == CommunicationScope::Local <==> my_host == peer_host,
        my_host != peer_host ==> scope_of(my_host, peer_host) == CommunicationScope::Remote,
        (exists|i: int| 0 <= i < my_host.len() && i < peer_host.len() && my_host[i] != peer_host[i])
            ==> scope_of(my_host, peer_host) == CommunicationScope::Remote,
{
    if exists|i: int| 0 <= i < my_host.len() && i < peer_host.len() && my_host[i] != peer_host[i] {
        let i = choose|i: int| 0 <= i < my_host.len() && i < peer_host.len() && my_host[i] != peer_host[i];
        assert(my_host != peer_host);
    }
}

/// An ASCII letter of either case, or an ASCII digit.
pub open spec fn ascii_letter_or_digit(c: char) -> bool {
    ('a' <= c && c <= 'z') || ('A' <= c && c <= 'Z') || ('0' <= c && c <= '9')
}

/// The identifier rules, by character ranges: 1 to 64 characters, the first an ASCII letter or
/// digit of either case, the others lowercase ASCII letters, digits, `-` or `_`. Each refusal
/// names the first rule broken, in that order.
pub proof fn lemma_identifier_rules(s: Seq<char>)
    ensures
        identifier_error(s) is None <==> {
            &&& 1 <= s.len() <= 64
            &&& ('a' <= s[0] && s[0] <= 'z') || ('A' <= s[0] && s[0] <= 'Z') || ('0' <= s[0] && s[0] <= '9')
            &&& forall|i: int|
                1 <= i < s.len() ==> ('a' <= #[trigger] s[i] && s[i] <= 'z') || ('0' <= s[i] && s[i] <= '9')
                    || s[i] == '-' || s[i] == '_'
        },
        s.len() == 0 ==> identifier_error(s) == Some(ValidationReason::Empty),
        s.len() > 64 ==> identifier_error(s) == Some(ValidationReason::IdentifierTooLong),
        1 <= s.len() <= 64 && ('0' <= s[0] && s[0] <= '9') ==> identifier_error(s)
            != Some(ValidationReason::InvalidStartCharacter),
        1 <= s.len() <= 64 && !ascii_letter_or_digit(s[0]) ==> identifier_error(s) == Some(
            ValidationReason::InvalidStartCharacter,
        ),
{
}

/// The hostname rules on a trimmed name, by character ranges: 1 to 253 characters, the first
/// an ASCII letter or digit, the others ASCII letters, digits, `-`, `.` or `_`. An address
/// such as `10.0.0.5` is therefore a valid hostname.
pub proof fn lemma_trimmed_hostname_rules(t: Seq<char>)
    ensures
        trimmed_hostname_error(t) is None <==> {
            &&& 1 <= t.len() <= 253
            &&& ('a' <= t[0] && t[0] <= 'z') || ('A' <= t[0] && t[0] <= 'Z') || ('0' <= t[0] && t[0] <= '9')
            &&& forall|i: int|
                0 <= i < t.len() ==> ('a' <= #[trigger] t[i] && t[i] <= 'z') || ('A' <= t[i] && t[i] <= 'Z')
                    || ('0' <= t[i] && t[i] <= '9') || t[i] == '-' || t[i] == '.' || t[i] == '_'
        },
        t.len() == 0 ==> trimmed_hostname_error(t) == Some(ValidationReason::Empty),
        t.len() > 253 ==> trimmed_hostname_error(t) == Some(ValidationReason::HostnameTooLong),
        1 <= t.len() <= 253 && !ascii_letter_or_digit(t[0]) ==> trimmed_hostname_error(t) == Some(
            ValidationReason::InvalidStartCharacter,
        ),
{
}

impl CommunicationScope {
    /// Computes the communication scope of two process locations.
    pub fn from_locations(my_location: &ProcessLocation, peer_location: &ProcessLocation) -> (r:
        Self)
        ensures
            r == scope_of(my_location.host(), peer_location.host()),
    {
        if my_location.hostname == peer_location.hostname {
            CommunicationScope::Local
        } else {
            CommunicationScope::Remote
        }
    }
}

/// Detects the communication scope between two process locations.
pub fn detect_scope(my_location: &ProcessLocation, peer_location: &ProcessLocation) -> (r:
    CommunicationScope)
    ensures
        r == scope_of(my_location.host(), peer_location.host()),
{
    CommunicationScope::from_locations(my_location, peer_location)
}

} // verus!
