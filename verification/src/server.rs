//! Which connections a server serves, and the tokens it issues on them.

use vstd::prelude::*;
use vstd::string::StringSliceAdditionalSpecFns;

use crate::address::{common_subnet_is_an_equivalence, in_common_subnet, IpAddr};
use crate::http::is_http3;
use crate::resume::{
    a_presented_token_is_granted_its_capacity, a_token_is_honoured_where_it_holds, all_work,
    resume_action, Action, Outcomes, ResumeSetup,
};
use crate::tokens::{is_presented, BdpToken};

verus! {

/// How long a token that the server issues is good for, in minutes.
pub const TOKEN_LIFETIME_MINUTES: i64 = 5;

/// What the tokens issued on a connection have in common: how long they are
/// good for, and the key that seals them.
#[derive(Debug, Clone, Copy)]
pub struct TokenIssuer {
    pub lifetime_minutes: i64,
    pub key: [u8; 32],
}

/// What goes into one token that is issued, beside what the transport has
/// learned: the address it is issued to, how long it is good for, and the key
/// that seals it.
#[derive(Debug, Clone, Copy)]
pub struct TokenIssue {
    pub issued_to: IpAddr,
    pub lifetime_minutes: i64,
    pub key: [u8; 32],
}

/// What becomes of a connection that is open.
#[derive(Debug, Clone, Copy)]
pub enum Admission {
    /// It is not one for HTTP/3, and is dropped.
    Drop,
    /// It is served. Tokens are issued on it where there is an issuer.
    Serve { issuer: Option<TokenIssuer> },
}

/// The issuer of tokens, where the server has a key.
pub open spec fn issuer_for(setup: ResumeSetup) -> Option<TokenIssuer> {
    match setup.bdp_key {
        Some(key) => Some(TokenIssuer { lifetime_minutes: TOKEN_LIFETIME_MINUTES, key }),
        None => None,
    }
}

/// Decides what becomes of a connection that is open, by the protocol
/// negotiated for it.
pub fn admission(setup: &ResumeSetup, alpn: &[u8]) -> (decision: Admission)
    ensures
        decision == if alpn@ == "h3".spec_bytes() {
            Admission::Serve { issuer: issuer_for(*setup) }
        } else {
            Admission::Drop
        },
{
    if !is_http3(alpn) {
        return Admission::Drop;
    }
    let issuer = match setup.bdp_key {
        Some(key) => Some(TokenIssuer { lifetime_minutes: TOKEN_LIFETIME_MINUTES, key }),
        None => None,
    };
    Admission::Serve { issuer }
}

/// What is issued to a peer.
pub open spec fn issue_to(issuer: TokenIssuer, peer_ip: IpAddr) -> TokenIssue {
    TokenIssue {
        issued_to: peer_ip,
        lifetime_minutes: issuer.lifetime_minutes,
        key: issuer.key,
    }
}

impl TokenIssuer {
    /// What to issue to the peer, by where it is at that time.
    pub fn issue(&self, peer_ip: IpAddr) -> (issue: TokenIssue)
        ensures
            issue == issue_to(*self, peer_ip),
    {
        TokenIssue {
            issued_to: peer_ip,
            lifetime_minutes: self.lifetime_minutes,
            key: self.key,
        }
    }
}

/// A token that was issued to a peer is honoured on a later connection from the
/// same subnet, where it comes back whole and in time and asks for some
/// capacity: the transport is told to resume as the token says. From another
/// subnet it is not, and from the same address it always is.
pub proof fn an_issued_token_is_honoured_in_its_subnet<E>(
    issuer: TokenIssuer,
    earlier_ip: IpAddr,
    later: ResumeSetup,
    outcomes: Outcomes<E>,
)
    requires
        later.bdp_key is Some,
        outcomes.peer_token is Some,
        outcomes.ex_token is Some && outcomes.ex_token->0.bdp_token is Some,
        outcomes.bdp_token is Some && outcomes.bdp_token->0.requested_capacity != 0,
        outcomes.issued_to == Some(issue_to(issuer, earlier_ip).issued_to),
        !outcomes.expired,
    ensures
        in_common_subnet(earlier_ip, outcomes.peer_ip) <==> all_work(later, outcomes).contains(
            resume_action(outcomes.bdp_token->0),
        ),
        earlier_ip == outcomes.peer_ip ==> all_work(later, outcomes).contains(
            resume_action(outcomes.bdp_token->0),
        ),
{
    a_token_is_honoured_where_it_holds(later, outcomes);
    common_subnet_is_an_equivalence(earlier_ip, outcomes.peer_ip, outcomes.peer_ip);
    let work = all_work(later, outcomes);
    let resume = resume_action::<E>(outcomes.bdp_token->0);
    if in_common_subnet(earlier_ip, outcomes.peer_ip) {
        assert(work[work.len() - 2] == resume);
    }
    if work.contains(resume) {
        let i = choose|i: int| 0 <= i < work.len() && work[i] == resume;
        assert(work[i] is SetupCarefulResume);
    }
}

/// The whole round: a BDP token that a client kept, and presents asking for all
/// of its saved capacity, makes the server resume from just that capacity, in
/// the subnet that the token was issued in and while it is good. One without
/// saved capacity makes it resume nowhere.
pub proof fn a_kept_token_resumes_from_its_saved_capacity<E, R: Clone>(
    setup: ResumeSetup,
    earlier_ip: IpAddr,
    kept: BdpToken<R>,
    presented: BdpToken<R>,
    outcomes: Outcomes<E>,
)
    requires
        setup.bdp_key is Some,
        is_presented(kept, presented),
        outcomes.peer_token is Some,
        outcomes.ex_token is Some && outcomes.ex_token->0.bdp_token is Some,
        outcomes.bdp_token is Some,
        outcomes.bdp_token->0.saved_capacity == presented.saved_capacity,
        outcomes.bdp_token->0.requested_capacity == presented.requested_capacity,
        outcomes.issued_to == Some(issue_to(issuer_for(setup)->0, earlier_ip).issued_to),
        !outcomes.expired,
        in_common_subnet(earlier_ip, outcomes.peer_ip),
    ensures
        0 < kept.saved_capacity <= usize::MAX ==> all_work(setup, outcomes).contains(
            Action::SetupCarefulResume {
                rtt: outcomes.bdp_token->0.saved_rtt,
                capacity: kept.saved_capacity as usize,
            },
        ),
        kept.saved_capacity == 0 ==> forall|i: int|
            0 <= i < all_work(setup, outcomes).len() ==> !(#[trigger] all_work(
                setup,
                outcomes,
            )[i] is SetupCarefulResume),
{
    if kept.saved_capacity != 0 {
        an_issued_token_is_honoured_in_its_subnet(
            issuer_for(setup)->0,
            earlier_ip,
            setup,
            outcomes,
        );
        a_presented_token_is_granted_its_capacity(kept);
    } else {
        a_token_is_honoured_where_it_holds(setup, outcomes);
    }
}

/// Of what `admission` decides: a connection is served exactly where `h3` was
/// negotiated for it. Tokens are issued on it exactly where the server has a
/// key.
pub proof fn http3_connections_are_served(setup: &ResumeSetup, alpn: &[u8], decision: Admission)
    requires
        call_ensures(admission, (setup, alpn), decision),
    ensures
        decision is Serve <==> alpn@ == "h3".spec_bytes(),
        decision matches Admission::Serve { issuer } ==> {
            &&& issuer is Some <==> setup.bdp_key is Some
            &&& issuer is Some ==> issuer->0.key == setup.bdp_key->0
            &&& issuer is Some ==> issuer->0.lifetime_minutes == 5
        },
{
}

/// Of the tokens that `TokenIssuer::issue` makes on a connection that was
/// admitted: each is good for five minutes, sealed with the server's own key and
/// issued to the peer's own address, whatever that address is.
pub proof fn every_issued_token_is_good_for_five_minutes(
    setup: &ResumeSetup,
    alpn: &[u8],
    issuer: TokenIssuer,
    peer_ip: IpAddr,
    issue: TokenIssue,
)
    requires
        call_ensures(admission, (setup, alpn), Admission::Serve { issuer: Some(issuer) }),
        call_ensures(TokenIssuer::issue, (&issuer, peer_ip), issue),
    ensures
        issue.lifetime_minutes == 5,
        setup.bdp_key == Some(issue.key),
        issue.issued_to == peer_ip,
{
}

/// An issuer issues alike to every peer: the tokens differ in nothing but the
/// address that they are issued to.
pub proof fn peers_are_issued_alike(
    issuer: TokenIssuer,
    ip1: IpAddr,
    ip2: IpAddr,
    issue1: TokenIssue,
    issue2: TokenIssue,
)
    requires
        call_ensures(TokenIssuer::issue, (&issuer, ip1), issue1),
        call_ensures(TokenIssuer::issue, (&issuer, ip2), issue2),
    ensures
        issue1.lifetime_minutes == issue2.lifetime_minutes,
        issue1.lifetime_minutes == issuer.lifetime_minutes,
        issue1.key == issue2.key,
        issue1.key == issuer.key,
        issue1.issued_to == ip1,
        issue2.issued_to == ip2,
{
}

} // verus!
