//! Plain-value model of the URLs the engine reads, and the destination
//! policy pre-check that every inbox must pass before a task is built.

use vstd::prelude::*;
use crate::errors::FederationError;

verus! {

/// Characters that may occur in the URL strings this engine handles:
/// printable ASCII without double quote, backslash or angle brackets.
/// A URL never contains whitespace or control characters, so URL text
/// can be embedded verbatim in a JSON document and in an HTTP header.
pub open spec fn is_url_char(c: char) -> bool {
    0x20 < c as u32 <= 0x7e && c as u32 != 0x22 && c as u32 != 0x5c && c as u32 != 0x3c
        && c as u32 != 0x3e
}

/// Every character of the string is acceptable URL text.
pub open spec fn url_text(s: Seq<char>) -> bool {
    forall|i: int| 0 <= i < s.len() ==> is_url_char(#[trigger] s[i])
}

/// One inbox URL, held as the parts the engine reads: scheme, host and path.
pub struct Destination {
    /// URL scheme, `"https"` or `"http"`.
    pub scheme: String,
    /// Host name, possibly with a port.
    pub host: String,
    /// Absolute path of the inbox endpoint, beginning with `/`.
    pub path: String,
}

/// The mathematical value of a destination: its three parts as
/// character sequences.
pub struct DestinationView {
    pub scheme: Seq<char>,
    pub host: Seq<char>,
    pub path: Seq<char>,
}

impl View for Destination {
    type V = DestinationView;

    open spec fn view(&self) -> DestinationView {
        DestinationView { scheme: self.scheme@, host: self.host@, path: self.path@ }
    }
}

impl DestinationView {
    /// Structural validity: the parts are URL text, the host is nonempty
    /// and the path is absolute.
    pub open spec fn wf(self) -> bool {
        &&& url_text(self.scheme)
        &&& url_text(self.host)
        &&& url_text(self.path)
        &&& self.host.len() > 0
        &&& self.path.len() > 0
        &&& self.path[0] == '/'
    }

    /// The full URL text of this destination.
    pub open spec fn spec_url(self) -> Seq<char> {
        self.scheme + "://"@ + self.host + self.path
    }
}

impl Destination {
    /// Structural validity of the parts.
    pub open spec fn wf(self) -> bool {
        self@.wf()
    }

    /// Clones a destination, part for part.
    pub fn duplicate(&self) -> (r: Destination)
        ensures
            r@ == self@,
    {
        Destination { scheme: self.scheme.clone(), host: self.host.clone(), path: self.path.clone() }
    }

    /// Reassembles the full URL string, for the outbound `POST` target.
    pub fn url_string(&self) -> (r: String)
        ensures
            r@ == self@.spec_url(),
    {
        let mut r = self.scheme.clone();
        r.append("://");
        r.append(self.host.as_str());
        r.append(self.path.as_str());
        r
    }
}

/// Checks, character by character, that a string is URL text, so that
/// unverified callers can establish `url_text` for arbitrary input.
pub fn is_url_text_str(s: &str) -> (r: bool)
    ensures
        r == url_text(s@),
{
    let n = s.unicode_len();
    let mut i: usize = 0;
    while i < n
        invariant
            i <= n,
            n == s@.len(),
            forall|j: int| 0 <= j < i ==> is_url_char(#[trigger] s@[j]),
        decreases n - i,
    {
        let c = s.get_char(i);
        let v = c as u32;
        if v <= 0x20 || v > 0x7e || v == 0x22 || v == 0x5c || v == 0x3c || v == 0x3e {
            return false;
        }
        i = i + 1;
    }
    true
}

impl Destination {
    /// Builds a destination from its parts, accepting exactly the
    /// well-formed ones; the unverified edge that parses raw URLs goes
    /// through here before anything reaches the queue.
    pub fn try_new(scheme: String, host: String, path: String) -> (r: Option<Destination>)
        ensures
            match r {
                Some(d) => d@ == (DestinationView {
                    scheme: scheme@,
                    host: host@,
                    path: path@,
                }) && d.wf(),
                None => !(DestinationView { scheme: scheme@, host: host@, path: path@ }).wf(),
            },
    {
        if !is_url_text_str(scheme.as_str()) {
            return None;
        }
        if !is_url_text_str(host.as_str()) {
            return None;
        }
        if !is_url_text_str(path.as_str()) {
            return None;
        }
        if host.as_str().unicode_len() == 0 {
            return None;
        }
        if path.as_str().unicode_len() == 0 {
            return None;
        }
        let c0 = path.as_str().get_char(0);
        if c0 != '/' {
            return None;
        }
        Some(Destination { scheme, host, path })
    }
}

/// The administrative federation configuration read by every send.
pub struct FederationSettings {
    /// The process-wide federation gate; when false all sending is inert.
    pub enabled: bool,
    /// This instance's own host name, used when minting activity ids.
    pub hostname: String,
    /// Whether this instance serves over TLS; decides the expected scheme.
    pub tls_enabled: bool,
    /// Instance blocklist: destinations on these hosts are rejected.
    pub blocked_hosts: Vec<String>,
}

impl FederationSettings {
    /// Structural validity of the configuration strings.
    pub open spec fn wf(self) -> bool {
        &&& url_text(self.hostname@)
        &&& self.hostname@.len() > 0
    }

    /// The scheme this instance expects of federated ids.
    pub open spec fn spec_protocol(self) -> Seq<char> {
        if self.tls_enabled {
            "https"@
        } else {
            "http"@
        }
    }

    /// The protocol string of this instance, `https` when TLS is on.
    pub fn protocol_string(&self) -> (r: String)
        ensures
            r@ == self.spec_protocol(),
    {
        if self.tls_enabled {
            String::from_str("https")
        } else {
            String::from_str("http")
        }
    }
}

/// The destination policy: the scheme matches this instance's protocol and
/// the host is not on the instance blocklist. Well-formedness of the parts
/// (nonempty host, URL text) is the `Destination` invariant, assumed here.
pub open spec fn dest_valid(dest: DestinationView, settings: FederationSettings) -> bool {
    &&& dest.scheme == settings.spec_protocol()
    &&& forall|i: int|
        0 <= i < settings.blocked_hosts@.len() ==> (#[trigger] settings.blocked_hosts@[i])@
            != dest.host
}

/// Policy pre-check of one destination id, run before any task is built:
/// accepts exactly the destinations that `dest_valid` admits, and rejects
/// the rest with `InvalidDestination`.
pub fn check_is_apub_id_valid(dest: &Destination, settings: &FederationSettings) -> (r: Result<
    (),
    FederationError,
>)
    ensures
        r is Ok <==> dest_valid(dest@, *settings),
        r is Err ==> r == Err::<(), FederationError>(FederationError::InvalidDestination),
{
    let proto = settings.protocol_string();
    if !dest.scheme.eq(&proto) {
        return Err(FederationError::InvalidDestination);
    }
    let n = settings.blocked_hosts.len();
    for i in 0..n
        invariant
            n == settings.blocked_hosts@.len(),
            forall|j: int| 0 <= j < i ==> (#[trigger] settings.blocked_hosts@[j])@ != dest.host@,
    {
        if settings.blocked_hosts[i].eq(&dest.host) {
            return Err(FederationError::InvalidDestination);
        }
    }
    Ok(())
}

} // verus!
