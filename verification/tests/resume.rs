use careful_resume::address::IpAddr;
use careful_resume::resume::{
    Action, Ending, Event, PeerToken, ResumeSetup, RoundTripTime, Stage, BDP_ERROR_CODE,
};
use careful_resume::server::{admission, Admission};
use careful_resume::tokens::ExToken;

const RTT: RoundTripTime = RoundTripTime { secs: 0, nanos: 25_000_000 };
const KEY: [u8; 32] = [3; 32];

struct World {
    setup: ResumeSetup,
    peer_token: Option<Vec<u8>>,
    extension: Option<Option<Vec<u8>>>,
    token: Option<PeerToken>,
    issued_to: Option<IpAddr>,
    expired: bool,
    peer_ip: IpAddr,
    transport: Result<(), u32>,
}

fn good() -> World {
    World {
        setup: ResumeSetup { bdp_key: Some(KEY) },
        peer_token: Some(vec![1, 1]),
        extension: Some(Some(vec![2, 2])),
        token: Some(PeerToken {
            saved_capacity: 9000,
            requested_capacity: 8000,
            saved_rtt: RTT,
        }),
        issued_to: Some(IpAddr::V4([192, 0, 2, 1])),
        expired: false,
        peer_ip: IpAddr::V4([192, 0, 2, 200]),
        transport: Ok(()),
    }
}

#[derive(Debug, PartialEq)]
enum Effect {
    Resume(u32, usize),
    Close(bool, u64),
}

/// Does all the work, and gives what the transport was told, and then whether
/// the connection was closed and how the work ended, or the transport's error.
fn work(w: &World) -> (Vec<Effect>, Result<(bool, Ending), u32>) {
    let mut effects = vec![];
    let (mut stage, mut action) = w.setup.start();
    for _ in 0..10 {
        let event = match action {
            Action::FetchPeerToken => Event::PeerToken(w.peer_token.clone()),
            Action::DecodeExToken(bytes) => {
                assert_eq!(Some(bytes), w.peer_token);
                Event::ExToken(w.extension.clone().map(|bdp_token| ExToken {
                    address_validation_data: vec![],
                    bdp_token,
                }))
            }
            Action::DecodeBdpToken(bytes) => {
                assert_eq!(Some(Some(bytes)), w.extension);
                Event::BdpToken(w.token)
            }
            Action::DecryptPrivateData(key) => {
                assert_eq!(Some(key), w.setup.bdp_key);
                Event::PrivateData(w.issued_to)
            }
            Action::CheckExpiry => Event::Expired(w.expired),
            Action::LocatePeer => Event::PeerAddress(w.peer_ip),
            Action::SetupCarefulResume { rtt, capacity } => {
                assert_eq!(rtt.secs, 0);
                effects.push(Effect::Resume(rtt.nanos, capacity));
                Event::Transport(w.transport)
            }
            Action::Close { app, code } => {
                effects.push(Effect::Close(app, code));
                Event::Transport(w.transport)
            }
            Action::Finish { closed, ending } => return (effects, Ok((closed, ending))),
            Action::Fail(e) => return (effects, Err(e)),
        };
        assert!(stage.takes(&event));
        (stage, action) = w.setup.setup_cr(stage, event);
    }
    panic!("the work does not end");
}

#[test]
fn a_good_token_is_honoured() {
    assert_eq!(work(&good()), (vec![Effect::Resume(25_000_000, 8000)], Ok((false, Ending::Resumed))));
}

#[test]
fn no_more_than_the_saved_capacity_is_granted() {
    let mut w = good();
    w.token = Some(PeerToken { saved_capacity: 9000, requested_capacity: 10_000, saved_rtt: RTT });
    assert_eq!(work(&w), (vec![Effect::Resume(25_000_000, 9000)], Ok((false, Ending::Resumed))));
}

#[test]
fn a_kept_token_resumes_from_its_saved_capacity() {
    let mut w = good();
    w.token = Some(PeerToken { saved_capacity: 9000, requested_capacity: 9000, saved_rtt: RTT });
    assert_eq!(work(&w), (vec![Effect::Resume(25_000_000, 9000)], Ok((false, Ending::Resumed))));
}

#[test]
fn without_a_token_the_connection_goes_on() {
    let mut w = good();
    w.peer_token = None;
    assert_eq!(work(&w), (vec![], Ok((false, Ending::NoToken))));
}

#[test]
fn without_the_extension_the_connection_goes_on() {
    let mut w = good();
    w.extension = Some(None);
    assert_eq!(work(&w), (vec![], Ok((false, Ending::NoBdpToken))));
}

#[test]
fn without_a_key_the_connection_goes_on() {
    let mut w = good();
    w.setup.bdp_key = None;
    w.issued_to = None;
    assert_eq!(work(&w), (vec![], Ok((false, Ending::NoKey))));
}

#[test]
fn a_bad_token_closes_the_connection() {
    let close = || vec![Effect::Close(false, 0x4143414213370002)];
    assert_eq!(BDP_ERROR_CODE, 0x4143414213370002);
    let mut w = good();
    w.extension = None;
    assert_eq!(work(&w), (close(), Ok((true, Ending::Closed))));
    let mut w = good();
    w.token = None;
    assert_eq!(work(&w), (close(), Ok((true, Ending::Closed))));
    let mut w = good();
    w.issued_to = None;
    assert_eq!(work(&w), (close(), Ok((true, Ending::Closed))));
}

#[test]
fn a_token_that_asks_for_nothing_is_passed_over() {
    let mut w = good();
    w.token = Some(PeerToken { saved_capacity: 9000, requested_capacity: 0, saved_rtt: RTT });
    assert_eq!(work(&w), (vec![], Ok((false, Ending::NothingRequested))));
}

#[test]
fn an_expired_token_is_passed_over() {
    let mut w = good();
    w.expired = true;
    assert_eq!(work(&w), (vec![], Ok((false, Ending::Expired))));
}

#[test]
fn a_token_of_another_subnet_is_passed_over() {
    let mut w = good();
    w.issued_to = Some(IpAddr::V4([192, 0, 3, 1]));
    assert_eq!(work(&w), (vec![], Ok((false, Ending::OtherSubnet))));
    w.issued_to = Some(IpAddr::V6([0; 16]));
    assert_eq!(work(&w), (vec![], Ok((false, Ending::OtherSubnet))));
}

#[test]
fn a_failing_transport_ends_the_work() {
    let mut w = good();
    w.transport = Err(77);
    assert_eq!(work(&w), (vec![Effect::Resume(25_000_000, 8000)], Err(77)));
    w.token = None;
    assert_eq!(work(&w), (vec![Effect::Close(false, BDP_ERROR_CODE)], Err(77)));
    w.peer_token = None;
    assert_eq!(work(&w), (vec![], Ok((false, Ending::NoToken))));
}

#[test]
fn a_stage_takes_only_what_it_waits_for() {
    assert!(Stage::Closing.takes(&Event::<u32>::Transport(Ok(()))));
    assert!(!Stage::Closing.takes(&Event::<u32>::Expired(true)));
    assert!(!Stage::Done.takes(&Event::<u32>::Transport(Ok(()))));
}

#[test]
fn only_http3_connections_are_served() {
    let setup = good().setup;
    assert!(matches!(admission(&setup, b"h3"), Admission::Serve { .. }));
    assert!(matches!(admission(&setup, b"h2"), Admission::Drop));
    assert!(matches!(admission(&setup, b"h3-29"), Admission::Drop));
    assert!(matches!(admission(&setup, b""), Admission::Drop));
}

#[test]
fn tokens_are_issued_to_the_peer_where_there_is_a_key() {
    let setup = good().setup;
    match admission(&setup, b"h3") {
        Admission::Serve { issuer: Some(issuer) } => {
            let peer_ip = IpAddr::V4([198, 51, 100, 7]);
            let issue = issuer.issue(peer_ip);
            assert_eq!(issue.issued_to, peer_ip);
            assert_eq!(issue.lifetime_minutes, 5);
            assert_eq!(issue.key, KEY);
        }
        other => panic!("{other:?}"),
    }
    let keyless = ResumeSetup { bdp_key: None };
    assert!(matches!(admission(&keyless, b"h3"), Admission::Serve { issuer: None }));
}

#[test]
fn an_issued_token_is_honoured_from_the_same_address() {
    let mut w = good();
    w.issued_to = match admission(&w.setup, b"h3") {
        Admission::Serve { issuer: Some(issuer) } => Some(issuer.issue(w.peer_ip).issued_to),
        _ => None,
    };
    assert_eq!(
        work(&w),
        (vec![Effect::Resume(25_000_000, 8000)], Ok((false, Ending::Resumed)))
    );
}
