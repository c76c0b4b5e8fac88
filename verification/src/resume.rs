//! What a server does with the token that a client presents.
//!
//! The server works through the token step by step. Each step names the work
//! to do next, and takes the outcome of that work as its event.

use vstd::prelude::*;

use crate::address::{common_subnet, in_common_subnet, IpAddr};
use crate::tokens::{asking_for_all, BdpToken, ExToken};

verus! {

/// The transport error code that a connection with a bad token is closed with.
pub const BDP_ERROR_CODE: u64 = 0x4143414213370002;

/// A round-trip time, as whole seconds and nanoseconds.
#[derive(Debug, Clone, Copy)]
pub struct RoundTripTime {
    pub secs: u64,
    pub nanos: u32,
}

/// What the server reads of a decoded BDP token.
#[derive(Debug, Clone, Copy)]
pub struct PeerToken {
    pub saved_capacity: u64,
    pub requested_capacity: u64,
    pub saved_rtt: RoundTripTime,
}

/// What is fixed for the server: the key to the private data of tokens, where
/// it has one.
#[derive(Debug, Clone, Copy)]
pub struct ResumeSetup {
    pub bdp_key: Option<[u8; 32]>,
}

/// How far the server has come.
#[derive(Debug, Clone, Copy)]
pub enum Stage {
    /// The token that the peer presented is being fetched.
    PeerToken,
    /// The extensible token is being decoded.
    ExToken,
    /// The BDP token in it is being decoded.
    BdpToken,
    /// The private data of the BDP token is being decrypted.
    PrivateData { token: PeerToken },
    /// It is being looked up whether the token has expired.
    Expiry { token: PeerToken, issued_to: IpAddr },
    /// It is being looked up where the peer is.
    PeerAddress { token: PeerToken, issued_to: IpAddr },
    /// The transport is being told to resume.
    Resuming,
    /// The transport is being told to close.
    Closing,
    /// There is nothing left to do.
    Done,
}

/// The outcome of the work that a stage waits for. `E` is the transport's error.
#[derive(Debug)]
pub enum Event<E> {
    /// The token that the peer presented, if it presented one.
    PeerToken(Option<Vec<u8>>),
    /// The extensible token; `None` where it does not decode.
    ExToken(Option<ExToken>),
    /// The BDP token; `None` where it does not decode.
    BdpToken(Option<PeerToken>),
    /// The address in the private data; `None` where it does not decrypt.
    PrivateData(Option<IpAddr>),
    /// Whether the token has expired.
    Expired(bool),
    /// Where the peer is.
    PeerAddress(IpAddr),
    /// What the transport answered.
    Transport(Result<(), E>),
}

/// How the work on a token ended.
#[derive(Debug, Clone, Copy, PartialEq, Eq, Structural)]
pub enum Ending {
    /// The peer presented no token.
    NoToken,
    /// The token has no BDP token in it.
    NoBdpToken,
    /// The server has no key to decrypt the BDP token with.
    NoKey,
    /// The peer asks for no capacity, so as not to have the connection resume.
    NothingRequested,
    /// The BDP token has expired.
    Expired,
    /// The BDP token was issued to an address in another subnet.
    OtherSubnet,
    /// The connection resumes.
    Resumed,
    /// The token is bad, and the connection was closed.
    Closed,
}

/// The work to do next. `E` is the transport's error.
#[derive(Debug)]
pub enum Action<E> {
    /// Fetch the token that the peer presented.
    FetchPeerToken,
    /// Decode these bytes as an extensible token.
    DecodeExToken(Vec<u8>),
    /// Decode these bytes as a BDP token.
    DecodeBdpToken(Vec<u8>),
    /// Decrypt the private data of the BDP token with this key.
    DecryptPrivateData([u8; 32]),
    /// Look up whether the private data has expired.
    CheckExpiry,
    /// Look up where the peer is.
    LocatePeer,
    /// Tell the transport to resume carefully from this round-trip time and
    /// capacity.
    SetupCarefulResume { rtt: RoundTripTime, capacity: usize },
    /// Tell the transport to close, with this code and no reason. The code is
    /// the transport's, not the application's, unless `app` is set.
    Close { app: bool, code: u64 },
    /// Go on with the connection, or drop it where it was closed.
    Finish { closed: bool, ending: Ending },
    /// Give up with this error of the transport.
    Fail(E),
}

/// The capacity to resume from: the saved one, but no more than requested.
pub open spec fn granted_capacity(saved: u64, requested: u64) -> u64 {
    if saved <= requested {
        saved
    } else {
        requested
    }
}

/// What the transport is told where the token is in order.
pub open spec fn resume_action<E>(token: PeerToken) -> Action<E> {
    Action::SetupCarefulResume {
        rtt: token.saved_rtt,
        capacity: granted_capacity(token.saved_capacity, token.requested_capacity) as usize,
    }
}

/// What the transport is told where the token is bad.
pub open spec fn close_action<E>() -> Action<E> {
    Action::Close { app: false, code: BDP_ERROR_CODE }
}

/// The event is an outcome of the work that the stage waits for.
pub open spec fn awaits<E>(stage: Stage, event: Event<E>) -> bool {
    match stage {
        Stage::PeerToken => event is PeerToken,
        Stage::ExToken => event is ExToken,
        Stage::BdpToken => event is BdpToken,
        Stage::PrivateData { .. } => event is PrivateData,
        Stage::Expiry { .. } => event is Expired,
        Stage::PeerAddress { .. } => event is PeerAddress,
        Stage::Resuming => event is Transport,
        Stage::Closing => event is Transport,
        Stage::Done => false,
    }
}

/// Nothing is left to do but to go on with the connection.
pub open spec fn go_on<E>(ending: Ending) -> (Stage, Action<E>) {
    (Stage::Done, Action::Finish { closed: false, ending })
}

/// The next stage and the work it waits for.
pub open spec fn transition<E>(setup: ResumeSetup, stage: Stage, event: Event<E>) -> (
    Stage,
    Action<E>,
) {
    let close = (Stage::Closing, close_action());
    match event {
        Event::PeerToken(None) => go_on(Ending::NoToken),
        Event::PeerToken(Some(bytes)) => (Stage::ExToken, Action::DecodeExToken(bytes)),
        Event::ExToken(None) => close,
        Event::ExToken(Some(ex_token)) => match ex_token.bdp_token {
            None => go_on(Ending::NoBdpToken),
            Some(bytes) => (Stage::BdpToken, Action::DecodeBdpToken(bytes)),
        },
        Event::BdpToken(None) => close,
        Event::BdpToken(Some(token)) => match setup.bdp_key {
            None => go_on(Ending::NoKey),
            Some(key) => (Stage::PrivateData { token }, Action::DecryptPrivateData(key)),
        },
        Event::PrivateData(None) => close,
        Event::PrivateData(Some(issued_to)) => {
            let token = stage->PrivateData_token;
            if token.requested_capacity == 0 {
                go_on(Ending::NothingRequested)
            } else {
                (Stage::Expiry { token, issued_to }, Action::CheckExpiry)
            }
        },
        Event::Expired(true) => go_on(Ending::Expired),
        Event::Expired(false) => (
            Stage::PeerAddress { token: stage->Expiry_token, issued_to: stage->Expiry_issued_to },
            Action::LocatePeer,
        ),
        Event::PeerAddress(peer_ip) => {
            if in_common_subnet(stage->PeerAddress_issued_to, peer_ip) {
                (Stage::Resuming, resume_action(stage->PeerAddress_token))
            } else {
                go_on(Ending::OtherSubnet)
            }
        },
        Event::Transport(Err(e)) => (Stage::Done, Action::Fail(e)),
        Event::Transport(Ok(_)) => if stage is Closing {
            (Stage::Done, Action::Finish { closed: true, ending: Ending::Closed })
        } else {
            go_on(Ending::Resumed)
        },
    }
}

impl Stage {
    /// Whether the event is an outcome of the work that the stage waits for.
    pub fn takes<E>(&self, event: &Event<E>) -> (yes: bool)
        ensures
            yes == awaits(*self, *event),
    {
        match (self, event) {
            (Stage::PeerToken, Event::PeerToken(_)) => true,
            (Stage::ExToken, Event::ExToken(_)) => true,
            (Stage::BdpToken, Event::BdpToken(_)) => true,
            (Stage::PrivateData { .. }, Event::PrivateData(_)) => true,
            (Stage::Expiry { .. }, Event::Expired(_)) => true,
            (Stage::PeerAddress { .. }, Event::PeerAddress(_)) => true,
            (Stage::Resuming, Event::Transport(_)) => true,
            (Stage::Closing, Event::Transport(_)) => true,
            _ => false,
        }
    }
}

impl ResumeSetup {
    /// The first stage and the work it waits for.
    pub fn start<E>(&self) -> (first: (Stage, Action<E>))
        ensures
            first == (Stage::PeerToken, Action::<E>::FetchPeerToken),
    {
        (Stage::PeerToken, Action::FetchPeerToken)
    }

    /// Takes the outcome of the work that the stage waits for, and gives the
    /// next stage and its work.
    pub fn setup_cr<E>(&self, stage: Stage, event: Event<E>) -> (next: (Stage, Action<E>))
        requires
            awaits(stage, event),
        ensures
            next == transition(*self, stage, event),
    {
        let ending = match (stage, event) {
            (_, Event::PeerToken(Some(bytes))) => {
                return (Stage::ExToken, Action::DecodeExToken(bytes));
            },
            (_, Event::PeerToken(None)) => Ending::NoToken,
            (_, Event::ExToken(Some(ex_token))) => match ex_token.bdp_token {
                Some(bytes) => return (Stage::BdpToken, Action::DecodeBdpToken(bytes)),
                None => Ending::NoBdpToken,
            },
            (_, Event::BdpToken(Some(token))) => match self.bdp_key {
                Some(key) => {
                    return (Stage::PrivateData { token }, Action::DecryptPrivateData(key));
                },
                None => Ending::NoKey,
            },
            (Stage::PrivateData { token }, Event::PrivateData(Some(issued_to))) => {
                if token.requested_capacity != 0 {
                    return (Stage::Expiry { token, issued_to }, Action::CheckExpiry);
                }
                Ending::NothingRequested
            },
            (Stage::Expiry { token, issued_to }, Event::Expired(expired)) => {
                if !expired {
                    return (Stage::PeerAddress { token, issued_to }, Action::LocatePeer);
                }
                Ending::Expired
            },
            (Stage::PeerAddress { token, issued_to }, Event::PeerAddress(peer_ip)) => {
                if common_subnet(issued_to, peer_ip) {
                    let capacity = if token.saved_capacity <= token.requested_capacity {
                        token.saved_capacity
                    } else {
                        token.requested_capacity
                    };
                    let capacity = capacity as usize;
                    let rtt = token.saved_rtt;
                    return (Stage::Resuming, Action::SetupCarefulResume { rtt, capacity });
                }
                Ending::OtherSubnet
            },
            (_, Event::Transport(Err(e))) => return (Stage::Done, Action::Fail(e)),
            (Stage::Closing, Event::Transport(Ok(_))) => {
                return (Stage::Done, Action::Finish { closed: true, ending: Ending::Closed });
            },
            (_, Event::Transport(Ok(_))) => Ending::Resumed,
            _ => return (Stage::Closing, Action::Close { app: false, code: BDP_ERROR_CODE }),
        };
        (Stage::Done, Action::Finish { closed: false, ending })
    }
}

/// How the work on one connection's token comes out, were all of it done.
pub struct Outcomes<E> {
    pub peer_token: Option<Vec<u8>>,
    pub ex_token: Option<ExToken>,
    pub bdp_token: Option<PeerToken>,
    pub issued_to: Option<IpAddr>,
    pub expired: bool,
    pub peer_ip: IpAddr,
    pub transport: Result<(), E>,
}

/// The outcome of one piece of work.
pub open spec fn outcome<E>(outcomes: Outcomes<E>, action: Action<E>) -> Event<E> {
    match action {
        Action::FetchPeerToken => Event::PeerToken(outcomes.peer_token),
        Action::DecodeExToken(_) => Event::ExToken(outcomes.ex_token),
        Action::DecodeBdpToken(_) => Event::BdpToken(outcomes.bdp_token),
        Action::DecryptPrivateData(_) => Event::PrivateData(outcomes.issued_to),
        Action::CheckExpiry => Event::Expired(outcomes.expired),
        Action::LocatePeer => Event::PeerAddress(outcomes.peer_ip),
        _ => Event::Transport(outcomes.transport),
    }
}

/// All the work that is done from a stage on, in order, the last word included.
pub open spec fn work_from<E>(
    setup: ResumeSetup,
    outcomes: Outcomes<E>,
    stage: Stage,
    action: Action<E>,
    fuel: nat,
) -> Seq<Action<E>>
    decreases fuel,
{
    if fuel == 0 || stage is Done {
        seq![action]
    } else {
        let next = transition(setup, stage, outcome(outcomes, action));
        seq![action] + work_from(setup, outcomes, next.0, next.1, (fuel - 1) as nat)
    }
}

/// The most pieces of work that a token can take.
pub open spec fn longest_work() -> nat {
    8
}

/// All the work on one connection's token.
pub open spec fn all_work<E>(setup: ResumeSetup, outcomes: Outcomes<E>) -> Seq<Action<E>> {
    work_from(setup, outcomes, Stage::PeerToken, Action::FetchPeerToken, longest_work())
}

/// The peer presented a token that is bad: it does not decode, or its BDP
/// token does not decode, or that one does not decrypt with the server's key.
pub open spec fn token_is_bad<E>(setup: ResumeSetup, outcomes: Outcomes<E>) -> bool {
    &&& outcomes.peer_token is Some
    &&& {
        ||| outcomes.ex_token is None
        ||| {
            &&& outcomes.ex_token->0.bdp_token is Some
            &&& {
                ||| outcomes.bdp_token is None
                ||| setup.bdp_key is Some && outcomes.issued_to is None
            }
        }
    }
}

/// The peer presented a token with a BDP token that the server could decrypt,
/// that asks for some capacity, has not expired and was issued to an address in
/// the peer's subnet.
pub open spec fn token_holds<E>(setup: ResumeSetup, outcomes: Outcomes<E>) -> bool {
    &&& outcomes.peer_token is Some
    &&& outcomes.ex_token matches Some(ex_token)
    &&& ex_token.bdp_token is Some
    &&& outcomes.bdp_token matches Some(token)
    &&& setup.bdp_key is Some
    &&& outcomes.issued_to matches Some(issued_to)
    &&& token.requested_capacity != 0
    &&& !outcomes.expired
    &&& in_common_subnet(issued_to, outcomes.peer_ip)
}

/// How the work ends where the transport does as told: the first thing that is
/// missing or wrong, in the order in which the parts are looked at.
pub open spec fn ending_of<E>(setup: ResumeSetup, outcomes: Outcomes<E>) -> Ending {
    if token_is_bad(setup, outcomes) {
        Ending::Closed
    } else if token_holds(setup, outcomes) {
        Ending::Resumed
    } else if outcomes.peer_token is None {
        Ending::NoToken
    } else if outcomes.ex_token->0.bdp_token is None {
        Ending::NoBdpToken
    } else if setup.bdp_key is None {
        Ending::NoKey
    } else if outcomes.bdp_token->0.requested_capacity == 0 {
        Ending::NothingRequested
    } else if outcomes.expired {
        Ending::Expired
    } else {
        Ending::OtherSubnet
    }
}

/// The transport is told to close exactly where the token is bad, and to
/// resume, from the token's round-trip time and the capacity granted, exactly
/// where it holds. It is never told both, nor one of them twice. The last word
/// is to drop the connection where it was closed and to go on with it
/// otherwise, or, where the transport failed at what it was told, to give up
/// with the error that it gave.
pub proof fn a_token_is_honoured_where_it_holds<E>(setup: ResumeSetup, outcomes: Outcomes<E>)
    ensures
        ({
            let work = all_work(setup, outcomes);
            let bad = token_is_bad(setup, outcomes);
            let holds = token_holds(setup, outcomes);
            &&& work.last() == match outcomes.transport {
                Err(e) if bad || holds => Action::Fail(e),
                _ => Action::Finish { closed: bad, ending: ending_of(setup, outcomes) },
            }
            &&& forall|i: int| 0 <= i < work.len() - 1 ==> !(#[trigger] work[i] is Finish)
                && !(work[i] is Fail)
            &&& forall|i: int| 0 <= i < work.len() && #[trigger] work[i] is Close ==> {
                &&& bad
                &&& i == work.len() - 2
                &&& work[i] == close_action::<E>()
            }
            &&& bad ==> work.len() >= 2 && work[work.len() - 2] == close_action::<E>()
            &&& forall|i: int|
                0 <= i < work.len() && #[trigger] work[i] is SetupCarefulResume ==> {
                    &&& holds
                    &&& i == work.len() - 2
                    &&& work[i] == resume_action::<E>(outcomes.bdp_token->0)
                }
            &&& holds ==> work.len() >= 2 && work[work.len() - 2] == resume_action::<E>(
                outcomes.bdp_token->0,
            )
            &&& !(bad && holds)
        }),
{
    reveal_with_fuel(work_from, 9);
}

/// What is decoded is what came before: the extensible token is decoded from
/// what the peer presented, the BDP token from the extension of the extensible
/// token, and the private data is decrypted with the server's own key.
pub proof fn each_part_is_taken_from_the_one_before<E>(
    setup: ResumeSetup,
    outcomes: Outcomes<E>,
    i: int,
)
    requires
        0 <= i < all_work(setup, outcomes).len(),
    ensures
        match all_work(setup, outcomes)[i] {
            Action::DecodeExToken(bytes) => outcomes.peer_token == Some(bytes),
            Action::DecodeBdpToken(bytes) => {
                outcomes.ex_token is Some && outcomes.ex_token->0.bdp_token == Some(bytes)
            },
            Action::DecryptPrivateData(key) => setup.bdp_key == Some(key),
            _ => true,
        },
{
    reveal_with_fuel(work_from, 9);
}

/// Each step waits for what the work that came before it gives, until there is
/// nothing left to do; every outcome of the work named is one that the stage
/// takes.
pub proof fn every_stage_takes_the_outcome_of_its_work<E>(
    setup: ResumeSetup,
    outcomes: Outcomes<E>,
    stage: Stage,
    event: Event<E>,
)
    requires
        awaits(stage, event),
    ensures
        ({
            let next = transition(setup, stage, event);
            next.0 is Done || awaits(next.0, outcome(outcomes, next.1))
        }),
        awaits(Stage::PeerToken, outcome(outcomes, Action::FetchPeerToken)),
{
}

/// The capacity granted exceeds neither what was saved nor what is requested,
/// and is one of the two.
pub proof fn no_more_is_granted_than_saved_or_requested(saved: u64, requested: u64)
    ensures
        granted_capacity(saved, requested) <= saved,
        granted_capacity(saved, requested) <= requested,
        granted_capacity(saved, requested) == saved || granted_capacity(saved, requested)
            == requested,
{
}

/// A client that presents a token asking for all of its saved capacity is
/// granted just that.
pub proof fn a_presented_token_is_granted_its_capacity<R>(token: BdpToken<R>)
    ensures
        granted_capacity(
            asking_for_all(token).saved_capacity,
            asking_for_all(token).requested_capacity,
        ) == token.saved_capacity,
{
}

/// Of what `ResumeSetup::setup_cr` decodes next, and what it remembers of what
/// was decoded. The bytes that the peer presented are decoded, and then those of
/// the BDP token in them, as they came. The BDP token, where the server has a
/// key, is decrypted with that key. Then its expiry and, where it has not
/// expired, the peer's address are looked up, with the token and the address it
/// was issued to as they came out.
pub proof fn a_token_is_taken_apart_in_order<E>(
    setup: &ResumeSetup,
    stage: Stage,
    event: Event<E>,
    next: (Stage, Action<E>),
)
    requires
        call_ensures(ResumeSetup::setup_cr::<E>, (setup, stage, event), next),
    ensures
        event matches Event::PeerToken(Some(bytes)) ==> {
            &&& next.0 is ExToken
            &&& next.1 matches Action::DecodeExToken(b)
            &&& b@ == bytes@
        },
        event matches Event::ExToken(Some(ex_token)) ==> ex_token.bdp_token is Some ==> {
            &&& next.0 is BdpToken
            &&& next.1 matches Action::DecodeBdpToken(b)
            &&& b@ == (ex_token.bdp_token->0)@
        },
        event matches Event::BdpToken(Some(token)) ==> setup.bdp_key is Some ==> {
            &&& next.0 == (Stage::PrivateData { token })
            &&& next.1 == Action::<E>::DecryptPrivateData(setup.bdp_key->0)
        },
        match (stage, event) {
            (Stage::PrivateData { token }, Event::PrivateData(Some(ip))) => {
                token.requested_capacity != 0 ==> {
                    &&& next.0 == (Stage::Expiry { token, issued_to: ip })
                    &&& next.1 is CheckExpiry
                }
            },
            (Stage::Expiry { token, issued_to }, Event::Expired(false)) => {
                &&& next.0 == (Stage::PeerAddress { token, issued_to })
                &&& next.1 is LocatePeer
            },
            _ => true,
        },
        next.1 is DecodeExToken ==> event is PeerToken,
        next.1 is DecodeBdpToken ==> event is ExToken,
        next.1 is DecryptPrivateData ==> event is BdpToken,
        next.1 is CheckExpiry ==> event is PrivateData,
        next.1 is LocatePeer ==> event is Expired,
        !(next.1 is FetchPeerToken),
{
}

/// Of when `ResumeSetup::setup_cr` closes the connection: exactly where the
/// extensible token or the BDP token does not decode, or the private data does
/// not decrypt, and then with the transport's code for it.
pub proof fn what_does_not_decode_closes_the_connection<E>(
    setup: &ResumeSetup,
    stage: Stage,
    event: Event<E>,
    next: (Stage, Action<E>),
)
    requires
        call_ensures(ResumeSetup::setup_cr::<E>, (setup, stage, event), next),
    ensures
        next.1 is Close <==> {
            ||| event == Event::<E>::ExToken(None)
            ||| event == Event::<E>::BdpToken(None)
            ||| event == Event::<E>::PrivateData(None)
        },
        next.1 matches Action::Close { app, code } ==> {
            &&& !app
            &&& code == 0x4143414213370002
            &&& next.0 is Closing
        },
{
}

/// Of when `ResumeSetup::setup_cr` resumes: exactly where the peer is in the
/// subnet that the token was issued in, as `common_subnet` tells. It resumes
/// from the round-trip time of the token, and from the smaller of the capacity
/// that was saved and the one that is requested.
pub proof fn a_peer_in_the_tokens_subnet_resumes<E>(
    setup: &ResumeSetup,
    token: PeerToken,
    issued_to: IpAddr,
    peer_ip: IpAddr,
    same: bool,
    next: (Stage, Action<E>),
)
    requires
        call_ensures(common_subnet, (issued_to, peer_ip), same),
        call_ensures(
            ResumeSetup::setup_cr::<E>,
            (setup, Stage::PeerAddress { token, issued_to }, Event::PeerAddress(peer_ip)),
            next,
        ),
    ensures
        same ==> {
            &&& next.0 is Resuming
            &&& next.1 matches Action::SetupCarefulResume { rtt, capacity }
            &&& rtt.secs == token.saved_rtt.secs
            &&& rtt.nanos == token.saved_rtt.nanos
            &&& token.saved_capacity <= token.requested_capacity ==> capacity
                == token.saved_capacity as usize
            &&& token.requested_capacity <= token.saved_capacity ==> capacity
                == token.requested_capacity as usize
        },
        !same ==> next == (
            Stage::Done,
            Action::<E>::Finish { closed: false, ending: Ending::OtherSubnet },
        ),
{
}

/// Nothing but the peer's address makes `ResumeSetup::setup_cr` resume.
pub proof fn nothing_else_resumes<E>(
    setup: &ResumeSetup,
    stage: Stage,
    event: Event<E>,
    next: (Stage, Action<E>),
)
    requires
        call_ensures(ResumeSetup::setup_cr::<E>, (setup, stage, event), next),
    ensures
        next.1 is SetupCarefulResume ==> event is PeerAddress,
        next.0 is Resuming ==> event is PeerAddress,
{
}

/// Of where `ResumeSetup::setup_cr` ends. It gives up with an error exactly
/// where the transport answered with that error. The connection counts as closed
/// exactly where the transport did close it. Each other ending comes of the one
/// thing that it names.
pub proof fn the_work_ends_for_a_reason<E>(
    setup: &ResumeSetup,
    stage: Stage,
    event: Event<E>,
    next: (Stage, Action<E>),
)
    requires
        call_ensures(ResumeSetup::setup_cr::<E>, (setup, stage, event), next),
    ensures
        next.0 is Done <==> next.1 is Finish || next.1 is Fail,
        event matches Event::Transport(Err(e)) ==> next.1 == Action::Fail(e),
        next.1 is Fail ==> event is Transport && event->Transport_0 is Err,
        next.1 matches Action::Finish { closed, ending } ==> {
            &&& closed <==> ending is Closed
            &&& ending is Closed <==> event is Transport && stage is Closing
            &&& ending is Resumed <==> event is Transport && !(stage is Closing)
            &&& ending is NoToken <==> event == Event::<E>::PeerToken(None)
            &&& ending is NoBdpToken <==> event is ExToken
            &&& ending is NoKey <==> event is BdpToken
            &&& ending is NothingRequested <==> event is PrivateData
            &&& ending is Expired <==> event == Event::<E>::Expired(true)
            &&& ending is OtherSubnet <==> event is PeerAddress
        },
        event == Event::<E>::PeerToken(None) ==> next.1 is Finish,
        event matches Event::ExToken(Some(ex_token)) ==> (next.1 is Finish
            <==> ex_token.bdp_token is None),
        event matches Event::BdpToken(Some(_)) ==> (next.1 is Finish <==> setup.bdp_key is None),
        match (stage, event) {
            (Stage::PrivateData { token }, Event::PrivateData(Some(_))) => {
                next.1 is Finish <==> token.requested_capacity == 0
            },
            _ => true,
        },
        event == Event::<E>::Expired(true) ==> next.1 is Finish,
        event == Event::<E>::Transport(Ok(())) ==> next.1 is Finish,
{
}

/// The work that is named is what the stage beside it waits for, from the first
/// on: that stage takes every outcome of that work, and nothing else.
pub proof fn a_stage_takes_the_outcome_of_its_work<E>(
    setup: &ResumeSetup,
    first: (Stage, Action<E>),
    stage: Stage,
    event: Event<E>,
    next: (Stage, Action<E>),
    later: Event<E>,
    yes_first: bool,
    yes: bool,
)
    requires
        call_ensures(ResumeSetup::start::<E>, (setup,), first),
        call_ensures(Stage::takes::<E>, (&first.0, &later), yes_first),
        call_ensures(ResumeSetup::setup_cr::<E>, (setup, stage, event), next),
        call_ensures(Stage::takes::<E>, (&next.0, &later), yes),
    ensures
        first.1 is FetchPeerToken,
        yes_first <==> later is PeerToken,
        yes <==> match next.1 {
            Action::FetchPeerToken => later is PeerToken,
            Action::DecodeExToken(_) => later is ExToken,
            Action::DecodeBdpToken(_) => later is BdpToken,
            Action::DecryptPrivateData(_) => later is PrivateData,
            Action::CheckExpiry => later is Expired,
            Action::LocatePeer => later is PeerAddress,
            Action::SetupCarefulResume { .. } => later is Transport,
            Action::Close { .. } => later is Transport,
            Action::Finish { .. } => false,
            Action::Fail(_) => false,
        },
{
}

/// Over the whole work on a token: the transport is told to resume only from a
/// token that the peer presented, that decoded, whose BDP token decoded too and
/// was decrypted with the server's key, that asks for some capacity, has not
/// expired, and was issued in the peer's subnet; and then from its round-trip
/// time and the smaller of its capacities.
pub proof fn only_a_token_in_order_is_resumed_from<E>(
    setup: ResumeSetup,
    outcomes: Outcomes<E>,
    i: int,
)
    requires
        0 <= i < all_work(setup, outcomes).len(),
        all_work(setup, outcomes)[i] is SetupCarefulResume,
    ensures
        outcomes.peer_token is Some,
        outcomes.ex_token is Some,
        outcomes.ex_token->0.bdp_token is Some,
        outcomes.bdp_token is Some,
        setup.bdp_key is Some,
        outcomes.issued_to is Some,
        outcomes.bdp_token->0.requested_capacity > 0,
        !outcomes.expired,
        in_common_subnet(outcomes.issued_to->0, outcomes.peer_ip),
        all_work(setup, outcomes)[i] matches Action::SetupCarefulResume { rtt, capacity } && {
            let token = outcomes.bdp_token->0;
            &&& rtt == token.saved_rtt
            &&& token.saved_capacity <= token.requested_capacity ==> capacity
                == token.saved_capacity as usize
            &&& token.requested_capacity <= token.saved_capacity ==> capacity
                == token.requested_capacity as usize
        },
{
    a_token_is_honoured_where_it_holds(setup, outcomes);
}

/// Over the whole work on a token, where the transport does as told: how it ends,
/// by what the peer presented. Each part is looked at only where the parts before
/// it are there and in order, and the first that is not decides.
pub proof fn the_first_thing_that_is_wrong_decides<E>(setup: ResumeSetup, outcomes: Outcomes<E>)
    requires
        outcomes.transport is Ok,
    ensures
        ({
            let work = all_work(setup, outcomes);
            let presented = outcomes.peer_token is Some;
            let decoded = presented && outcomes.ex_token is Some;
            let has_bdp_token = decoded && outcomes.ex_token->0.bdp_token is Some;
            let bdp_decoded = has_bdp_token && outcomes.bdp_token is Some;
            let opened = bdp_decoded && setup.bdp_key is Some && outcomes.issued_to is Some;
            let asks = opened && outcomes.bdp_token->0.requested_capacity > 0;
            let in_time = asks && !outcomes.expired;
            let in_place = in_time && in_common_subnet(outcomes.issued_to->0, outcomes.peer_ip);
            &&& work.last() matches Action::Finish { closed, ending }
            &&& closed <==> {
                ||| presented && !decoded
                ||| has_bdp_token && !bdp_decoded
                ||| bdp_decoded && setup.bdp_key is Some && !opened
            }
            &&& ending is Closed <==> closed
            &&& ending is NoToken <==> !presented
            &&& ending is NoBdpToken <==> decoded && !has_bdp_token
            &&& ending is NoKey <==> bdp_decoded && setup.bdp_key is None
            &&& ending is NothingRequested <==> opened && !asks
            &&& ending is Expired <==> asks && !in_time
            &&& ending is OtherSubnet <==> in_time && !in_place
            &&& ending is Resumed <==> in_place
        }),
{
    a_token_is_honoured_where_it_holds(setup, outcomes);
}

/// Over the whole work on a token, where the transport does as told: it was told
/// to close, with its own code for it, just before the connection is dropped, and
/// to resume just before the connection goes on as one that resumes. Nothing was
/// told it otherwise.
pub proof fn the_transport_is_told_what_the_ending_says<E>(
    setup: ResumeSetup,
    outcomes: Outcomes<E>,
)
    requires
        outcomes.transport is Ok,
    ensures
        ({
            let work = all_work(setup, outcomes);
            &&& work.last() matches Action::Finish { ending, .. }
            &&& match ending {
                Ending::Closed => {
                    &&& work.len() >= 2
                    &&& work[work.len() - 2] == (Action::<E>::Close {
                        app: false,
                        code: 0x4143414213370002,
                    })
                },
                Ending::Resumed => {
                    &&& work.len() >= 2
                    &&& work[work.len() - 2] is SetupCarefulResume
                },
                _ => forall|i: int|
                    0 <= i < work.len() ==> !(#[trigger] work[i] is Close)
                        && !(work[i] is SetupCarefulResume),
            }
        }),
{
    a_token_is_honoured_where_it_holds(setup, outcomes);
}

} // verus!
