//! The server that a client is pointed at.

use rand::seq::SliceRandom;
use vstd::prelude::*;

use crate::bytes::{
    decimal_digits, is_digit, parse_u64, reading_a_written_number_gives_it_back,
    written_digits_stand_for_the_number,
};

verus! {

/// What a client reads of a URL. `port` is the default one of the scheme where
/// the URL names none and the scheme has one.
#[derive(Debug)]
pub struct UrlParts {
    pub host: Option<String>,
    pub port: Option<u16>,
    pub path: String,
}

/// An optional text, seen as characters.
pub open spec fn text_view(text: Option<String>) -> Option<Seq<char>> {
    match text {
        Some(t) => Some(t@),
        None => None,
    }
}

impl View for UrlParts {
    type V = (Option<Seq<char>>, Option<u16>, Seq<char>);

    open spec fn view(&self) -> Self::V {
        (text_view(self.host), self.port, self.path@)
    }
}

/// The host, the port or known default port, and the path of an absolute URL;
/// where the text is none, the reason.
pub uninterp spec fn url_parts(text: Seq<char>) -> Result<
    (Option<Seq<char>>, Option<u16>, Seq<char>),
    Seq<char>,
>;

/// Calls `url::Url::parse` and reads the host (`host_str`), the port or known
/// default port (`port_or_known_default`) and the path (`path`) off the URL.
/// Trusted: whether the text is a URL, those parts of it and the reason why it
/// is none are a function of the text.
#[verifier::external_body]
fn parse_url(text: &str) -> (parts: Result<UrlParts, String>)
    ensures
        match parts {
            Ok(p) => url_parts(text@) == Ok::<_, Seq<char>>(p@),
            Err(reason) => url_parts(text@) == Err::<
                (Option<Seq<char>>, Option<u16>, Seq<char>),
                _,
            >(reason@),
        },
{
    match url::Url::parse(text) {
        Ok(url) => Ok(
            UrlParts {
                host: url.host_str().map(str::to_owned),
                port: url.port_or_known_default(),
                path: url.path().to_owned(),
            },
        ),
        Err(e) => Err(e.to_string()),
    }
}

/// The server's host and port, the name its tokens are kept under, and the
/// path to request.
#[derive(Debug)]
pub struct Endpoint {
    pub host: String,
    pub port: u16,
    pub authority: String,
    pub path: String,
}

/// Why a text names no server.
#[derive(Debug)]
pub enum EndpointError {
    /// It is no absolute URL, for this reason.
    NotAUrl(String),
    /// The URL has no host.
    NoHost,
    /// The URL has no port, and its scheme no known default.
    NoPort,
}

/// The decimal digits of a number, as characters.
pub open spec fn decimal_text(n: nat) -> Seq<char> {
    decimal_digits(n).map_values(|b: u8| b as char)
}

/// A host and a port, written as one text.
pub open spec fn authority(host: Seq<char>, port: u16) -> Seq<char> {
    host.push(':') + decimal_text(port as nat)
}

/// What the parts of a URL give: its endpoint, or what it lacks. The host is
/// looked at before the port.
pub open spec fn is_endpoint_of(
    parts: (Option<Seq<char>>, Option<u16>, Seq<char>),
    result: Result<Endpoint, EndpointError>,
) -> bool {
    match result {
        Ok(e) => {
            &&& parts == (Some(e.host@), Some(e.port), e.path@)
            &&& e.authority@ == authority(e.host@, e.port)
        },
        Err(EndpointError::NoHost) => parts.0 is None,
        Err(EndpointError::NoPort) => parts.0 is Some && parts.1 is None,
        Err(EndpointError::NotAUrl(_)) => false,
    }
}

impl Endpoint {
    /// The endpoint that a URL names.
    pub fn from_url(text: &str) -> (endpoint: Result<Endpoint, EndpointError>)
        ensures
            match url_parts(text@) {
                Ok(parts) => is_endpoint_of(parts, endpoint),
                Err(reason) => {
                    &&& endpoint matches Err(EndpointError::NotAUrl(r))
                    &&& r@ == reason
                },
            },
    {
        match parse_url(text) {
            Ok(parts) => Endpoint::from_parts(parts),
            Err(reason) => Err(EndpointError::NotAUrl(reason)),
        }
    }

    /// The endpoint that the parts of a URL name.
    pub fn from_parts(parts: UrlParts) -> (endpoint: Result<Endpoint, EndpointError>)
        ensures
            is_endpoint_of(parts@, endpoint),
    {
        let host = match parts.host {
            Some(host) => host,
            None => return Err(EndpointError::NoHost),
        };
        let port = match parts.port {
            Some(port) => port,
            None => return Err(EndpointError::NoPort),
        };
        let authority = url_authority(&host, port);
        Ok(Endpoint { host, port, authority, path: parts.path })
    }
}

/// The host and the port, joined by a colon.
pub fn url_authority(host: &String, port: u16) -> (text: String)
    ensures
        text@ == authority(host@, port),
{
    let mut text = host.clone();
    text.append(":");
    proof {
        reveal_strlit(":");
        assert(text@ =~= host@.push(':'));
    }
    append_decimal(&mut text, port);
    text
}

/// Appends a number in decimal.
fn append_decimal(text: &mut String, n: u16)
    ensures
        final(text)@ == old(text)@ + decimal_text(n as nat),
    decreases n,
{
    let ghost before = text@;
    if n >= 10 {
        append_decimal(text, n / 10);
    }
    append_digit(text, n % 10);
    proof {
        assert(text@ =~= before + decimal_text(n as nat));
    }
}

/// Appends one decimal digit.
fn append_digit(text: &mut String, d: u16)
    requires
        d < 10,
    ensures
        final(text)@ == old(text)@.push((0x30 + d) as u8 as char),
{
    proof {
        reveal_strlit("0");
        reveal_strlit("1");
        reveal_strlit("2");
        reveal_strlit("3");
        reveal_strlit("4");
        reveal_strlit("5");
        reveal_strlit("6");
        reveal_strlit("7");
        reveal_strlit("8");
        reveal_strlit("9");
    }
    let digit = match d {
        0 => "0",
        1 => "1",
        2 => "2",
        3 => "3",
        4 => "4",
        5 => "5",
        6 => "6",
        7 => "7",
        8 => "8",
        _ => "9",
    };
    text.append(digit);
    proof {
        assert(text@ =~= old(text)@.push((0x30 + d) as u8 as char));
    }
}

/// Calls `choose` of `rand::seq::SliceRandom` with the thread's generator.
/// Trusted: it gives nothing for an empty slice, and else one of its items.
/// Which one is left to chance, and nothing is said of it.
#[verifier::external_body]
fn choose_item<T>(items: &[T]) -> (item: Option<&T>)
    ensures
        item is None <==> items@.len() == 0,
        item matches Some(i) ==> items@.contains(*i),
{
    items.choose(&mut rand::thread_rng())
}

/// Picks one of the addresses that a host resolved to, at random; `None` where
/// it resolved to none.
pub fn choose_peer<T: Copy>(peers: &[T]) -> (peer: Option<T>)
    ensures
        peer is None <==> peers@.len() == 0,
        peer matches Some(p) ==> peers@.contains(p),
{
    match choose_item(peers) {
        Some(peer) => Some(*peer),
        None => None,
    }
}

/// The decimal text of a number holds no colon.
proof fn lemma_no_colon(n: nat, i: int)
    requires
        0 <= i < decimal_text(n).len(),
    ensures
        decimal_text(n)[i] != ':',
{
    written_digits_stand_for_the_number(n);
    assert(is_digit(decimal_digits(n)[i]));
}

/// The authority tells servers apart: two of them have the same one only if
/// they have the same host and the same port.
pub proof fn authority_tells_servers_apart(
    host1: Seq<char>,
    port1: u16,
    host2: Seq<char>,
    port2: u16,
)
    requires
        authority(host1, port1) == authority(host2, port2),
    ensures
        host1 == host2,
        port1 == port2,
{
    let a1 = authority(host1, port1);
    let a2 = authority(host2, port2);
    let t1 = decimal_text(port1 as nat);
    let t2 = decimal_text(port2 as nat);
    assert(a1.len() == host1.len() + 1 + t1.len());
    assert(a2.len() == host2.len() + 1 + t2.len());
    assert(a1[host1.len() as int] == ':');
    assert(a2[host2.len() as int] == ':');
    if host1.len() < host2.len() {
        let i = host2.len() - host1.len() - 1;
        assert(a1[host2.len() as int] == t1[i]);
        lemma_no_colon(port1 as nat, i);
    }
    if host2.len() < host1.len() {
        let i = host1.len() - host2.len() - 1;
        assert(a2[host1.len() as int] == t2[i]);
        lemma_no_colon(port2 as nat, i);
    }
    assert(host1 =~= a1.take(host1.len() as int));
    assert(host2 =~= a2.take(host2.len() as int));
    let d1 = decimal_digits(port1 as nat);
    let d2 = decimal_digits(port2 as nat);
    assert(t1 =~= a1.skip(host1.len() as int + 1));
    assert(t2 =~= a2.skip(host2.len() as int + 1));
    assert forall|i: int| 0 <= i < d1.len() implies d1[i] == d2[i] by {
        assert(t1[i] == d1[i] as char);
        assert(t2[i] == d2[i] as char);
    }
    assert(d1 =~= d2);
    written_digits_stand_for_the_number(port1 as nat);
    written_digits_stand_for_the_number(port2 as nat);
}

/// Of what `url_authority` writes: the host, a colon, and then digits alone, at
/// least one of them, of which the first is no zero where there are more.
pub proof fn an_authority_is_host_colon_digits(host: &String, port: u16, text: String)
    requires
        call_ensures(url_authority, (host, port), text),
    ensures
        text@.len() > host@.len() + 1,
        text@.take(host@.len() as int) == host@,
        text@[host@.len() as int] == ':',
        forall|i: int|
            host@.len() < i < text@.len() ==> 0x30 <= (#[trigger] text@[i]) as int <= 0x39,
        text@.len() > host@.len() + 2 ==> text@[host@.len() as int + 1] != '0',
{
    let written = decimal_digits(port as nat);
    let tail = decimal_text(port as nat);
    assert(text@ == host@.push(':') + tail);
    assert(text@.take(host@.len() as int) =~= host@);
    written_digits_stand_for_the_number(port as nat);
    assert forall|i: int| host@.len() < i < text@.len() implies 0x30 <= (#[trigger] text@[i]) as int
        <= 0x39 by {
        let j = i - host@.len() - 1;
        assert(text@[i] == tail[j]);
        assert(is_digit(written[j]));
    }
    assert(text@[host@.len() as int + 1] == tail[0]);
    assert(tail[0] == written[0] as char);
    if written.len() > 1 && written[0] == 0x30 {
        assert(port == 0);
    }
}

/// The digits that `url_authority` writes after the colon are read as the port.
pub proof fn the_port_is_read_off_the_authority(
    host: &String,
    port: u16,
    text: String,
    digits: &[u8],
    number: Option<u64>,
)
    requires
        call_ensures(url_authority, (host, port), text),
        digits@ == text@.skip(host@.len() as int + 1).map_values(|c: char| c as u8),
        call_ensures(parse_u64, (digits,), number),
    ensures
        number == Some(port as u64),
{
    let written = decimal_digits(port as nat);
    let tail = decimal_text(port as nat);
    assert(text@.skip(host@.len() as int + 1) =~= tail);
    assert forall|i: int| 0 <= i < written.len() implies digits@[i] == written[i] by {
        assert(tail[i] == written[i] as char);
    }
    assert(digits@ =~= written);
    reading_a_written_number_gives_it_back(port as u64);
}

/// Of what `Endpoint::from_parts` gives: an endpoint where there are a host and
/// a port, with these and the path as they are, and its authority as
/// `url_authority` writes it. Where there are not, the host is missed first.
pub proof fn an_endpoint_is_made_of_its_parts(
    parts: UrlParts,
    endpoint: Result<Endpoint, EndpointError>,
    text: String,
)
    requires
        call_ensures(Endpoint::from_parts, (parts,), endpoint),
        endpoint is Ok ==> call_ensures(
            url_authority,
            (&endpoint->Ok_0.host, endpoint->Ok_0.port),
            text,
        ),
    ensures
        endpoint is Ok <==> parts.host is Some && parts.port is Some,
        endpoint matches Ok(e) ==> {
            &&& e.host@ == (parts.host->0)@
            &&& e.port == parts.port->0
            &&& e.path@ == parts.path@
            &&& e.authority@ == text@
        },
        (endpoint is Err && endpoint->Err_0 is NoHost) <==> parts.host is None,
        (endpoint is Err && endpoint->Err_0 is NoPort) <==> parts.host is Some
            && parts.port is None,
{
}

/// Of what `Endpoint::from_url` gives: what `Endpoint::from_parts` gives of the
/// parts of the URL, where the text is one, and otherwise the reason why it is
/// none.
pub proof fn an_endpoint_is_what_its_url_says(
    text: &str,
    named: Result<Endpoint, EndpointError>,
    parts: UrlParts,
    made: Result<Endpoint, EndpointError>,
)
    requires
        call_ensures(Endpoint::from_url, (text,), named),
        call_ensures(Endpoint::from_parts, (parts,), made),
        url_parts(text@) matches Ok(p) ==> parts@ == p,
    ensures
        url_parts(text@) is Ok ==> match (named, made) {
            (Ok(n), Ok(m)) => {
                &&& n.host@ == m.host@
                &&& n.port == m.port
                &&& n.path@ == m.path@
                &&& n.authority@ == m.authority@
            },
            (Err(n), Err(m)) => (n is NoHost && m is NoHost) || (n is NoPort && m is NoPort),
            _ => false,
        },
        url_parts(text@) matches Err(reason) ==> {
            &&& named matches Err(EndpointError::NotAUrl(r))
            &&& r@ == reason
        },
{
}

/// Of what `choose_peer` picks: one of the peers where there are any, so the
/// only one where there is one, and none where there are none.
pub proof fn one_of_the_peers_is_chosen<T: Copy>(peers: &[T], peer: Option<T>)
    requires
        call_ensures(choose_peer::<T>, (peers,), peer),
    ensures
        peer is Some <==> peers@.len() > 0,
        peer is Some ==> exists|i: int| 0 <= i < peers@.len() && #[trigger] peers@[i] == peer->0,
        peers@.len() == 1 ==> peer == Some(peers@[0]),
{
}

} // verus!
