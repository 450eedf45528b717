//! Choosing the public URL of a tunnel from the listing of `ngrok`'s local API.
use vstd::prelude::*;

use crate::builder::{decimal, port_text, Protocol};
use crate::error::Error;
use crate::trusted::{json_at, json_items, json_text, parsed_url, url_parses};

verus! {

/// The local API that lists the running tunnels.
pub const API_URL: &'static str = "http://localhost:4040/api/tunnels";

/// One entry of the API's listing, reduced to the two fields that are read.
#[derive(Debug, Clone)]
pub struct TunnelDescriptor {
    /// `public_url`: where the tunnel is reachable from outside.
    pub public_url: String,
    /// `config.addr`: the local address that the tunnel forwards to.
    pub addr: String,
}

pub struct DescriptorView {
    pub public_url: Seq<char>,
    pub addr: Seq<char>,
}

impl View for TunnelDescriptor {
    type V = DescriptorView;

    open spec fn view(&self) -> DescriptorView {
        DescriptorView { public_url: self.public_url@, addr: self.addr@ }
    }
}

pub open spec fn views(s: Seq<TunnelDescriptor>) -> Seq<DescriptorView> {
    s.map_values(|d: TunnelDescriptor| d@)
}

/// The text that a JSON pointer reaches in a document, if it reaches a string.
pub open spec fn text_at(v: serde_json::Value, path: Seq<char>) -> Option<Seq<char>> {
    match json_at(v, path) {
        Some(field) => json_text(field),
        None => None,
    }
}

/// One element of the `tunnels` array, or `None` where `public_url` or `config.addr`
/// is missing or is not a string.
pub open spec fn entry_of(item: serde_json::Value) -> Option<DescriptorView> {
    match (text_at(item, "/public_url"@), text_at(item, "/config/addr"@)) {
        (Some(u), Some(a)) => Some(DescriptorView { public_url: u, addr: a }),
        _ => None,
    }
}

/// The entries of a listing of the shape `{ "tunnels": [ { "public_url": .., "config":
/// { "addr": .. } }, .. ] }`, in order; `None` where `tunnels` is missing or not an
/// array, or one of its elements lacks one of the two fields.
pub open spec fn listing_of(response: serde_json::Value) -> Option<Seq<DescriptorView>> {
    match json_at(response, "/tunnels"@) {
        None => None,
        Some(tunnels) => match json_items(tunnels) {
            None => None,
            Some(items) => if forall|i: int| 0 <= i < items.len() ==> (#[trigger] entry_of(items[i])) is Some {
                Some(items.map_values(|item: serde_json::Value| entry_of(item)->0))
            } else {
                None
            },
        },
    }
}

/// How a public URL of the given protocol begins.
pub open spec fn scheme_prefix(p: Protocol) -> Seq<char> {
    match p {
        Protocol::Http => "http://"@,
        Protocol::Https => "https://"@,
    }
}

pub open spec fn is_prefix_of(pre: Seq<char>, s: Seq<char>) -> bool {
    pre.len() <= s.len() && s.subrange(0, pre.len() as int) == pre
}

pub open spec fn is_suffix_of(suf: Seq<char>, s: Seq<char>) -> bool {
    suf.len() <= s.len() && s.subrange(s.len() - suf.len(), s.len() as int) == suf
}

/// An address such as `localhost:3030` or `http://localhost:3030` names `port`.
pub open spec fn addr_has_port(addr: Seq<char>, port: u16) -> bool {
    is_suffix_of(seq![':'] + decimal(port as nat), addr)
}

/// The entry advertises a tunnel of the given scheme to the given local port.
pub open spec fn entry_matches(d: DescriptorView, port: u16, p: Protocol) -> bool {
    is_prefix_of(scheme_prefix(p), d.public_url) && addr_has_port(d.addr, port)
}

/// The first index from `i` on whose entry matches.
pub open spec fn first_match_from(entries: Seq<DescriptorView>, i: int, port: u16, p: Protocol) -> Option<int>
    decreases entries.len() - i,
{
    if i < 0 || i >= entries.len() {
        None
    } else if entry_matches(entries[i], port, p) {
        Some(i)
    } else {
        first_match_from(entries, i + 1, port, p)
    }
}

/// The index of the first entry that matches.
pub open spec fn first_match(entries: Seq<DescriptorView>, port: u16, p: Protocol) -> Option<int> {
    first_match_from(entries, 0, port, p)
}

/// The result of discovery on a list of entries: the URL of the first matching
/// entry; `TunnelNotFound` when none matches; `MalformedAPIResponse` when the first
/// matching entry's URL does not parse.
pub open spec fn resolution(entries: Seq<DescriptorView>, port: u16, p: Protocol) -> Result<url::Url, Error> {
    match first_match(entries, port, p) {
        None => Err(Error::TunnelNotFound),
        Some(i) => if url_parses(entries[i].public_url) {
            Ok(parsed_url(entries[i].public_url))
        } else {
            Err(Error::MalformedAPIResponse)
        },
    }
}

/// The result of discovery on one answer of the API.
pub open spec fn discovery_of(response: serde_json::Value, port: u16, p: Protocol) -> Result<url::Url, Error> {
    match listing_of(response) {
        None => Err(Error::MalformedAPIResponse),
        Some(entries) => resolution(entries, port, p),
    }
}

proof fn lemma_first_match_from(entries: Seq<DescriptorView>, i: int, port: u16, p: Protocol)
    requires
        0 <= i,
    ensures
        match first_match_from(entries, i, port, p) {
            Some(k) => i <= k < entries.len() && entry_matches(entries[k], port, p) && forall|j: int|
                i <= j < k ==> !entry_matches(#[trigger] entries[j], port, p),
            None => forall|j: int| i <= j < entries.len() ==> !entry_matches(#[trigger] entries[j], port, p),
        },
    decreases entries.len() - i,
{
    if i < entries.len() && !entry_matches(entries[i], port, p) {
        lemma_first_match_from(entries, i + 1, port, p);
        assert forall|j: int| i <= j < entries.len() && !(i + 1 <= j) implies !entry_matches(
            #[trigger] entries[j],
            port,
            p,
        ) by {
            assert(j == i);
        }
    }
}

/// The entry chosen is the first in list order whose scheme and port both match;
/// every entry before it, of another port or scheme, is passed over. When none
/// matches, nothing is chosen.
pub proof fn lemma_first_match(entries: Seq<DescriptorView>, port: u16, p: Protocol)
    ensures
        match first_match(entries, port, p) {
            Some(k) => 0 <= k < entries.len() && entry_matches(entries[k], port, p) && forall|j: int|
                0 <= j < k ==> !entry_matches(#[trigger] entries[j], port, p),
            None => forall|j: int| 0 <= j < entries.len() ==> !entry_matches(#[trigger] entries[j], port, p),
        },
{
    lemma_first_match_from(entries, 0, port, p);
}

/// Matching tells the schemes apart: an entry that matches a port for HTTP does not
/// match it for HTTPS, and the other way round, so a request for one scheme is never
/// satisfied by a tunnel of the other.
pub proof fn lemma_schemes_distinct(d: DescriptorView, port: u16)
    ensures
        !(entry_matches(d, port, Protocol::Http) && entry_matches(d, port, Protocol::Https)),
{
    reveal_strlit("http://");
    reveal_strlit("https://");
    if entry_matches(d, port, Protocol::Http) && entry_matches(d, port, Protocol::Https) {
        assert(d.public_url.subrange(0, 7)[4] == ':');
        assert(d.public_url.subrange(0, 8)[4] == 's');
    }
}

impl Protocol {
    /// How a public URL of this protocol begins.
    pub fn scheme_prefix(&self) -> (r: &'static str)
        ensures
            r@ == scheme_prefix(*self),
    {
        match self {
            Protocol::Http => "http://",
            Protocol::Https => "https://",
        }
    }
}

fn starts_with(s: &str, pre: &str) -> (r: bool)
    ensures
        r == is_prefix_of(pre@, s@),
{
    let n = pre.unicode_len();
    let m = s.unicode_len();
    if n > m {
        return false;
    }
    let mut i: usize = 0;
    while i < n
        invariant
            n == pre@.len(),
            m == s@.len(),
            n <= m,
            i <= n,
            forall|j: int| 0 <= j < i ==> pre@[j] == s@[j],
        decreases n - i,
    {
        if pre.get_char(i) != s.get_char(i) {
            assert(s@.subrange(0, n as int)[i as int] != pre@[i as int]);
            return false;
        }
        i += 1;
    }
    assert(s@.subrange(0, n as int) =~= pre@);
    true
}

/// Whether `addr` ends with a colon and then `port` in decimal.
pub fn has_port(addr: &str, port: u16) -> (r: bool)
    ensures
        r == addr_has_port(addr@, port),
{
    let digits = port_text(port);
    let digits = digits.as_str();
    let k = digits.unicode_len();
    let m = addr.unicode_len();
    let ghost suf = seq![':'] + digits@;
    if k >= m {
        return false;
    }
    let start = m - k;
    if addr.get_char(start - 1) != ':' {
        assert(addr@.subrange(m - suf.len(), m as int)[0] != suf[0]);
        return false;
    }
    let mut i: usize = 0;
    while i < k
        invariant
            k == digits@.len(),
            m == addr@.len(),
            k < m,
            start == m - k,
            suf == seq![':'] + digits@,
            digits@ == decimal(port as nat),
            i <= k,
            forall|j: int| 0 <= j < i ==> digits@[j] == addr@[start + j],
        decreases k - i,
    {
        if digits.get_char(i) != addr.get_char(start + i) {
            assert(addr@.subrange(m - suf.len(), m as int)[i + 1int] != suf[i + 1int]);
            return false;
        }
        i += 1;
    }
    assert(addr@.subrange(m - suf.len(), m as int) =~= suf);
    true
}

/// Whether one entry of the listing advertises the requested port and scheme.
pub fn matches(d: &TunnelDescriptor, port: u16, protocol: Protocol) -> (r: bool)
    ensures
        r == entry_matches(d@, port, protocol),
{
    starts_with(d.public_url.as_str(), protocol.scheme_prefix()) && has_port(d.addr.as_str(), port)
}

/// The index of the first entry that advertises the requested port and scheme.
pub fn select_tunnel(entries: &Vec<TunnelDescriptor>, port: u16, protocol: Protocol) -> (r: Option<usize>)
    ensures
        match r {
            Some(i) => first_match(views(entries@), port, protocol) == Some(i as int),
            None => first_match(views(entries@), port, protocol) is None,
        },
{
    let ghost v = views(entries@);
    let mut i: usize = 0;
    while i < entries.len()
        invariant
            i <= entries@.len(),
            v == views(entries@),
            first_match(v, port, protocol) == first_match_from(v, i as int, port, protocol),
        decreases entries@.len() - i,
    {
        if matches(&entries[i], port, protocol) {
            return Some(i);
        }
        i += 1;
    }
    None
}

/// The public URL of the first entry that advertises the requested port and scheme.
/// No such entry gives `TunnelNotFound`; an entry whose URL does not parse gives
/// `MalformedAPIResponse`.
pub fn resolve_public_url(entries: &Vec<TunnelDescriptor>, port: u16, protocol: Protocol) -> (r:
    Result<url::Url, Error>)
    ensures
        r == resolution(views(entries@), port, protocol),
{
    match select_tunnel(entries, port, protocol) {
        None => Err(Error::TunnelNotFound),
        Some(i) => {
            proof {
                lemma_first_match(views(entries@), port, protocol);
            }
            match url::Url::parse(entries[i].public_url.as_str()) {
                Ok(u) => Ok(u),
                Err(_) => Err(Error::MalformedAPIResponse),
            }
        },
    }
}

fn string_at(v: &serde_json::Value, path: &str) -> (r: Option<String>)
    ensures
        match r {
            Some(s) => text_at(*v, path@) == Some(s@),
            None => text_at(*v, path@) is None,
        },
{
    match v.pointer(path) {
        Some(field) => match field.as_str() {
            Some(s) => Some(s.to_owned()),
            None => None,
        },
        None => None,
    }
}

/// The entries of the API's answer, in order; `None` where the answer is malformed.
pub fn descriptors_of(response: &serde_json::Value) -> (r: Option<Vec<TunnelDescriptor>>)
    ensures
        match r {
            Some(entries) => listing_of(*response) == Some(views(entries@)),
            None => listing_of(*response) is None,
        },
{
    let tunnels = match response.pointer("/tunnels") {
        Some(t) => t,
        None => return None,
    };
    let list = match tunnels.as_array() {
        Some(l) => l,
        None => return None,
    };
    let mut out: Vec<TunnelDescriptor> = Vec::new();
    let mut i: usize = 0;
    while i < list.len()
        invariant
            i <= list@.len(),
            out@.len() == i,
            json_at(*response, "/tunnels"@) == Some(*tunnels),
            json_items(*tunnels) == Some(list@),
            forall|j: int| 0 <= j < i ==> entry_of(list@[j]) == Some(#[trigger] out@[j]@),
        decreases list@.len() - i,
    {
        let tunnel = &list[i];
        let public_url = match string_at(tunnel, "/public_url") {
            Some(u) => u,
            None => {
                assert(entry_of(list@[i as int]) is None);
                return None;
            },
        };
        let addr = match string_at(tunnel, "/config/addr") {
            Some(a) => a,
            None => {
                assert(entry_of(list@[i as int]) is None);
                return None;
            },
        };
        out.push(TunnelDescriptor { public_url, addr });
        i += 1;
    }
    assert forall|j: int| 0 <= j < list@.len() implies (#[trigger] entry_of(list@[j])) is Some by {
        assert(entry_of(list@[j]) == Some(out@[j]@));
    }
    assert(list@.map_values(|item: serde_json::Value| entry_of(item)->0) =~= views(out@));
    Some(out)
}

/// The public URL that an answer of the API gives for the requested port and scheme:
/// the answer is read by `descriptors_of`, then resolved by `resolve_public_url`.
pub fn find_public_url(response: &serde_json::Value, port: u16, protocol: Protocol) -> (r: Result<
    url::Url,
    Error,
>)
    ensures
        r == discovery_of(*response, port, protocol),
{
    match descriptors_of(response) {
        None => Err(Error::MalformedAPIResponse),
        Some(entries) => resolve_public_url(&entries, port, protocol),
    }
}

/// What one poll of the local API came to.
pub enum Attempt {
    /// The API could not be reached or did not answer with JSON; it may not be up yet.
    Unreachable,
    /// The API answered, and its listing was resolved.
    Answered(Result<url::Url, Error>),
}

/// What to do after a poll.
pub enum DiscoveryStep {
    /// The tunnel is up at this URL.
    Found(url::Url),
    /// Wait one poll interval and ask again.
    PollAgain,
    /// Stop the spawned process, then fail with this error.
    Abandon(Error),
}

/// Time between two polls of the local API, in milliseconds.
pub const POLL_INTERVAL_MS: u64 = 300;

/// How long discovery waits for the tunnel by default, in milliseconds.
pub const DISCOVERY_TIMEOUT_MS: u64 = 5000;

/// The decision after a poll, made `elapsed_ms` after the process was spawned.
/// A found URL ends discovery; a malformed answer fails at once, since it will not
/// mend itself; no answer, or no matching entry, is retried until more than
/// `timeout_ms` have passed, and then fails with `TunnelNotFound`.
pub fn next_step(attempt: Attempt, elapsed_ms: u64, timeout_ms: u64) -> (r: DiscoveryStep)
    ensures
        match attempt {
            Attempt::Answered(Ok(u)) => r == DiscoveryStep::Found(u),
            Attempt::Answered(Err(Error::MalformedAPIResponse)) => r == DiscoveryStep::Abandon(
                Error::MalformedAPIResponse,
            ),
            Attempt::Answered(Err(e)) => if elapsed_ms > timeout_ms {
                r == DiscoveryStep::Abandon(e)
            } else {
                r == DiscoveryStep::PollAgain
            },
            Attempt::Unreachable => if elapsed_ms > timeout_ms {
                r == DiscoveryStep::Abandon(Error::TunnelNotFound)
            } else {
                r == DiscoveryStep::PollAgain
            },
        },
{
    match attempt {
        Attempt::Answered(Ok(u)) => DiscoveryStep::Found(u),
        Attempt::Answered(Err(Error::MalformedAPIResponse)) => DiscoveryStep::Abandon(
            Error::MalformedAPIResponse,
        ),
        Attempt::Answered(Err(e)) => if elapsed_ms > timeout_ms {
            DiscoveryStep::Abandon(e)
        } else {
            DiscoveryStep::PollAgain
        },
        Attempt::Unreachable => if elapsed_ms > timeout_ms {
            DiscoveryStep::Abandon(Error::TunnelNotFound)
        } else {
            DiscoveryStep::PollAgain
        },
    }
}

} // verus!
