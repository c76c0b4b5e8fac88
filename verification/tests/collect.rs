use careful_resume::collect::{
    collect_token, CollectAction, CollectEvent, CollectStage, H3_NO_ERROR,
};
use careful_resume::tokens::{BdpToken, ExToken, TokenDatabase};

fn ex_token(bdp_token: Option<Vec<u8>>) -> Option<ExToken> {
    Some(ExToken { address_validation_data: vec![4, 2], bdp_token })
}

fn bdp_token(saved_capacity: u64) -> BdpToken<u8> {
    BdpToken { saved_capacity, requested_capacity: 0, rest: 9 }
}

#[test]
fn a_token_with_bdp_token_is_kept() {
    let (stage, action) =
        collect_token::<u8>(CollectStage::Listening, CollectEvent::Received(vec![1]));
    assert!(matches!(action, CollectAction::DecodeExToken(b) if b == [1]));
    let (stage, action) =
        collect_token::<u8>(stage, CollectEvent::ExToken(ex_token(Some(vec![7]))));
    assert!(matches!(action, CollectAction::DecodeBdpToken(b) if b == [7]));
    let (stage, action) = collect_token(stage, CollectEvent::BdpToken(Some(bdp_token(11))));
    assert!(matches!(stage, CollectStage::Listening));
    match action {
        CollectAction::Store(token) => {
            assert_eq!(token.address_validation_data, [4, 2]);
            let bdp = token.bdp_token.unwrap();
            assert_eq!((bdp.saved_capacity, bdp.requested_capacity, bdp.rest), (11, 0, 9));
        }
        other => panic!("{other:?}"),
    }
}

#[test]
fn a_token_without_bdp_token_is_kept() {
    let (stage, action) = collect_token::<u8>(
        CollectStage::Decoding,
        CollectEvent::ExToken(ex_token(None)),
    );
    assert!(matches!(stage, CollectStage::Listening));
    match action {
        CollectAction::Store(token) => {
            assert_eq!(token.address_validation_data, [4, 2]);
            assert!(token.bdp_token.is_none());
        }
        other => panic!("{other:?}"),
    }
}

#[test]
fn collecting_stops_with_the_connection() {
    assert_eq!(H3_NO_ERROR, 0x100);
    let end = |event| collect_token::<u8>(CollectStage::Listening, event);
    assert!(matches!(end(CollectEvent::Ended), (CollectStage::Done, CollectAction::Stop)));
    assert!(matches!(end(CollectEvent::Failed(0x100)), (CollectStage::Done, CollectAction::Stop)));
    assert!(matches!(
        end(CollectEvent::Failed(0x101)),
        (CollectStage::Done, CollectAction::ConnectionError(0x101))
    ));
}

#[test]
fn what_is_no_token_is_given_up_on() {
    assert!(matches!(
        collect_token::<u8>(CollectStage::Decoding, CollectEvent::ExToken(None)),
        (CollectStage::Done, CollectAction::BadToken)
    ));
    let stage = CollectStage::DecodingBdp { address_validation_data: vec![] };
    assert!(matches!(
        collect_token::<u8>(stage, CollectEvent::BdpToken(None)),
        (CollectStage::Done, CollectAction::BadToken)
    ));
}

#[test]
fn the_last_token_of_a_server_stays() {
    let authority = "example.com:443".to_string();
    let mut db = TokenDatabase::default();
    for saved in [1, 2, 3] {
        let stage = CollectStage::DecodingBdp { address_validation_data: vec![] };
        match collect_token(stage, CollectEvent::BdpToken(Some(bdp_token(saved)))).1 {
            CollectAction::Store(token) => db.insert(authority.clone(), token),
            other => panic!("{other:?}"),
        }
    }
    assert_eq!(db.entries().len(), 1);
    assert_eq!(db.offer_for(&authority).unwrap().default_stream_window, Some(3));
}

#[test]
fn a_collecting_stage_takes_only_what_it_waits_for() {
    assert!(CollectStage::Listening.takes(&CollectEvent::<u8>::Ended));
    assert!(CollectStage::Decoding.takes(&CollectEvent::<u8>::ExToken(None)));
    assert!(!CollectStage::Listening.takes(&CollectEvent::<u8>::ExToken(None)));
    assert!(!CollectStage::Done.takes(&CollectEvent::<u8>::Ended));
}
