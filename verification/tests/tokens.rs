use careful_resume::tokens::{BdpToken, ExToken, Token, TokenDatabase};

fn token(data: &[u8], bdp: Option<u64>) -> Token<Vec<u8>> {
    Token {
        address_validation_data: data.to_vec(),
        bdp_token: bdp.map(|saved_capacity| BdpToken {
            saved_capacity,
            requested_capacity: 5,
            rest: vec![1, 2, 3],
        }),
    }
}

#[test]
fn an_issued_token_holds_the_bdp_token_alone() {
    let t = ExToken::issued(vec![9, 8]);
    assert!(t.address_validation_data.is_empty());
    assert_eq!(t.bdp_token, Some(vec![9, 8]));
}

#[test]
fn an_offer_asks_for_all_of_the_saved_capacity() {
    let offer = token(b"addr", Some(4000)).offer();
    assert_eq!(offer.address_validation_data, b"addr");
    assert_eq!(offer.default_stream_window, Some(4000));
    let bdp = offer.bdp_token.unwrap();
    assert_eq!((bdp.rest, bdp.saved_capacity, bdp.requested_capacity), (vec![1, 2, 3], 4000, 4000));
}

#[test]
fn an_offer_without_bdp_token_sets_no_window() {
    let offer = token(b"addr", None).offer();
    assert_eq!(offer.address_validation_data, b"addr");
    assert!(offer.bdp_token.is_none());
    assert_eq!(offer.default_stream_window, None);
}

#[test]
fn an_offer_becomes_an_extensible_token() {
    let t = token(b"addr", Some(1)).offer().into_ex_token(Some(vec![7]));
    assert_eq!(t.address_validation_data, b"addr");
    assert_eq!(t.bdp_token, Some(vec![7]));
    let t = token(b"addr", None).offer().into_ex_token(None);
    assert_eq!(t.address_validation_data, b"addr");
    assert_eq!(t.bdp_token, None);
}

#[test]
fn nothing_is_offered_to_an_unknown_server() {
    let db = TokenDatabase::<u8>::default();
    assert!(db.entries().is_empty());
    assert!(db.get(&"a:443".to_string()).is_none());
    assert!(db.offer_for(&"a:443".to_string()).is_none());
}

#[test]
fn a_kept_token_is_presented_to_its_server() {
    let mut db = TokenDatabase::default();
    db.insert("a:443".to_string(), token(b"a", Some(10)));
    db.insert("b:443".to_string(), token(b"b", None));
    let a = db.offer_for(&"a:443".to_string()).unwrap();
    assert_eq!(a.address_validation_data, b"a");
    assert_eq!(a.bdp_token.unwrap().requested_capacity, 10);
    assert_eq!(a.default_stream_window, Some(10));
    let b = db.offer_for(&"b:443".to_string()).unwrap();
    assert_eq!(b.address_validation_data, b"b");
    assert!(db.offer_for(&"c:443".to_string()).is_none());
}

#[test]
fn a_newer_token_takes_the_place_of_an_older_one() {
    let mut db = TokenDatabase::default();
    db.insert("a:443".to_string(), token(b"old", Some(10)));
    db.insert("b:443".to_string(), token(b"b", None));
    db.insert("a:443".to_string(), token(b"new", None));
    assert_eq!(db.entries().len(), 2);
    assert_eq!(db.get(&"a:443".to_string()).unwrap().address_validation_data, b"new");
    assert!(db.get(&"a:443".to_string()).unwrap().bdp_token.is_none());
    assert_eq!(db.get(&"b:443".to_string()).unwrap().address_validation_data, b"b");
}
