//! Tokens that a server hands out, and the client's store of them.

use vstd::prelude::*;

verus! {

/// A BDP token: what a connection learned of the path, for a later one to
/// start from. The capacities are those that the client looks at and, for the
/// requested one, sets; `rest` is all else that the token carries, which the
/// client hands through.
#[derive(Debug)]
pub struct BdpToken<R> {
    pub saved_capacity: u64,
    pub requested_capacity: u64,
    pub rest: R,
}

/// An extensible token: data that validates an address, and the encoded BDP
/// token where that extension is there.
#[derive(Debug)]
pub struct ExToken {
    pub address_validation_data: Vec<u8>,
    pub bdp_token: Option<Vec<u8>>,
}

impl ExToken {
    /// The token in which a server sends a new BDP token: no address
    /// validation data, and the encoded BDP token as its only extension.
    pub fn issued(bdp_token: Vec<u8>) -> (token: ExToken)
        ensures
            token.address_validation_data@ == Seq::<u8>::empty(),
            token.bdp_token == Some(bdp_token),
    {
        ExToken { address_validation_data: Vec::new(), bdp_token: Some(bdp_token) }
    }
}

/// What a client keeps of an extensible token.
#[derive(Debug)]
pub struct Token<R> {
    pub address_validation_data: Vec<u8>,
    pub bdp_token: Option<BdpToken<R>>,
}

/// What a kept token holds.
pub struct TokenView<R> {
    pub address_validation_data: Seq<u8>,
    pub bdp_token: Option<BdpToken<R>>,
}

impl<R> View for Token<R> {
    type V = TokenView<R>;

    open spec fn view(&self) -> TokenView<R> {
        TokenView {
            address_validation_data: self.address_validation_data@,
            bdp_token: self.bdp_token,
        }
    }
}

/// What a client presents to a server it has a token of.
#[derive(Debug)]
pub struct Offer<R> {
    /// Goes into the extensible token as it is.
    pub address_validation_data: Vec<u8>,
    /// To be encoded, and then to go into the extensible token.
    pub bdp_token: Option<BdpToken<R>>,
    /// The stream window to set up once the connection is open.
    pub default_stream_window: Option<u64>,
}

/// The BDP token with all of the saved capacity asked for.
pub open spec fn asking_for_all<R>(token: BdpToken<R>) -> BdpToken<R> {
    BdpToken { requested_capacity: token.saved_capacity, ..token }
}

/// A BDP token as presented: the kept one, with all of the saved capacity asked
/// for, and with a clone of what else it carries.
pub open spec fn is_presented<R: Clone>(kept: BdpToken<R>, presented: BdpToken<R>) -> bool {
    &&& presented.saved_capacity == asking_for_all(kept).saved_capacity
    &&& presented.requested_capacity == asking_for_all(kept).requested_capacity
    &&& cloned(kept.rest, presented.rest)
}

/// What is presented of a kept token: the validation data as kept, and the BDP
/// token, if there is one, with all of the saved capacity asked for. That
/// capacity is also the stream window.
pub open spec fn is_offer_of<R: Clone>(token: TokenView<R>, offer: Offer<R>) -> bool {
    &&& offer.address_validation_data@ == token.address_validation_data
    &&& match token.bdp_token {
        Some(kept) => {
            &&& offer.bdp_token matches Some(presented)
            &&& is_presented(kept, presented)
            &&& offer.default_stream_window == Some(kept.saved_capacity)
        },
        None => offer.bdp_token is None && offer.default_stream_window is None,
    }
}

impl<R: Clone> Token<R> {
    /// What to present of this token.
    pub fn offer(&self) -> (offer: Offer<R>)
        ensures
            is_offer_of(self@, offer),
    {
        let address_validation_data = self.address_validation_data.clone();
        match &self.bdp_token {
            Some(kept) => Offer {
                address_validation_data,
                bdp_token: Some(
                    BdpToken {
                        saved_capacity: kept.saved_capacity,
                        requested_capacity: kept.saved_capacity,
                        rest: kept.rest.clone(),
                    },
                ),
                default_stream_window: Some(kept.saved_capacity),
            },
            None => Offer { address_validation_data, bdp_token: None, default_stream_window: None },
        }
    }
}

impl<R> Offer<R> {
    /// The extensible token to present, given the encoding of the BDP token
    /// that the offer holds.
    pub fn into_ex_token(self, encoded_bdp_token: Option<Vec<u8>>) -> (token: ExToken)
        requires
            encoded_bdp_token is Some <==> self.bdp_token is Some,
        ensures
            token.address_validation_data == self.address_validation_data,
            token.bdp_token == encoded_bdp_token,
    {
        ExToken {
            address_validation_data: self.address_validation_data,
            bdp_token: encoded_bdp_token,
        }
    }
}

/// The client's tokens, one per server, by the server's authority.
#[derive(Debug)]
pub struct TokenDatabase<R> {
    tokens: Vec<(String, Token<R>)>,
}

impl<R> View for TokenDatabase<R> {
    type V = Map<Seq<char>, TokenView<R>>;

    closed spec fn view(&self) -> Map<Seq<char>, TokenView<R>> {
        entries_map(self.tokens@)
    }
}

/// The place of an authority among entries.
spec fn is_entry<R>(entries: Seq<(String, Token<R>)>, i: int, authority: Seq<char>) -> bool {
    0 <= i < entries.len() && entries[i].0@ == authority
}

/// An authority stands among entries.
pub open spec fn is_listed<R>(entries: Seq<(String, Token<R>)>, authority: Seq<char>) -> bool {
    exists|i: int| 0 <= i < entries.len() && #[trigger] entries[i].0@ == authority
}

/// The map that entries stand for.
spec fn entries_map<R>(entries: Seq<(String, Token<R>)>) -> Map<Seq<char>, TokenView<R>> {
    Map::new(
        |authority: Seq<char>| exists|i: int| is_entry(entries, i, authority),
        |authority: Seq<char>| entries[choose|i: int| is_entry(entries, i, authority)].1@,
    )
}

/// No authority has two entries.
spec fn distinct<R>(entries: Seq<(String, Token<R>)>) -> bool {
    forall|i: int, j: int|
        0 <= i < j < entries.len() ==> #[trigger] entries[i].0@ != #[trigger] entries[j].0@
}

/// An entry's authority maps to its token.
proof fn lemma_entry_in_map<R>(entries: Seq<(String, Token<R>)>, i: int)
    requires
        distinct(entries),
        0 <= i < entries.len(),
    ensures
        entries_map(entries).contains_key(entries[i].0@),
        entries_map(entries)[entries[i].0@] == entries[i].1@,
{
    let authority = entries[i].0@;
    assert(is_entry(entries, i, authority));
    let k = choose|k: int| is_entry(entries, k, authority);
    assert(is_entry(entries, k, authority));
    assert(k == i);
}

/// Replacing the token of an entry updates the map at its authority.
proof fn lemma_replace<R>(entries: Seq<(String, Token<R>)>, i: int, token: Token<R>)
    requires
        distinct(entries),
        0 <= i < entries.len(),
    ensures
        distinct(entries.update(i, (entries[i].0, token))),
        entries_map(entries.update(i, (entries[i].0, token))) == entries_map(entries).insert(
            entries[i].0@,
            token@,
        ),
{
    let after = entries.update(i, (entries[i].0, token));
    assert forall|a: int, b: int| 0 <= a < b < after.len() implies #[trigger] after[a].0@
        != #[trigger] after[b].0@ by {
        assert(after[a].0 == entries[a].0);
        assert(after[b].0 == entries[b].0);
    }
    let expected = entries_map(entries).insert(entries[i].0@, token@);
    lemma_entry_in_map(after, i);
    assert forall|k: Seq<char>| entries_map(after).contains_key(k) == expected.contains_key(k) by {
        if entries_map(after).contains_key(k) {
            let j = choose|j: int| is_entry(after, j, k);
            assert(is_entry(after, j, k));
            assert(is_entry(entries, j, k));
        }
        if expected.contains_key(k) && k != entries[i].0@ {
            let j = choose|j: int| is_entry(entries, j, k);
            assert(is_entry(entries, j, k));
            assert(is_entry(after, j, k));
        }
    }
    assert forall|k: Seq<char>| entries_map(after).contains_key(k) implies entries_map(after)[k]
        == expected[k] by {
        let j = choose|j: int| is_entry(after, j, k);
        assert(is_entry(after, j, k));
        lemma_entry_in_map(after, j);
        if j != i {
            lemma_entry_in_map(entries, j);
            assert(entries[j].0@ != entries[i].0@);
        }
    }
    assert(entries_map(after) =~= expected);
}

/// A new entry extends the map.
proof fn lemma_append<R>(entries: Seq<(String, Token<R>)>, authority: String, token: Token<R>)
    requires
        distinct(entries),
        forall|i: int| 0 <= i < entries.len() ==> #[trigger] entries[i].0@ != authority@,
    ensures
        distinct(entries.push((authority, token))),
        entries_map(entries.push((authority, token))) == entries_map(entries).insert(
            authority@,
            token@,
        ),
{
    let after = entries.push((authority, token));
    let expected = entries_map(entries).insert(authority@, token@);
    assert forall|a: int, b: int| 0 <= a < b < after.len() implies #[trigger] after[a].0@
        != #[trigger] after[b].0@ by {
        assert(after[a] == entries[a]);
        if b < entries.len() {
            assert(after[b] == entries[b]);
        }
    }
    lemma_entry_in_map(after, entries.len() as int);
    assert forall|k: Seq<char>| entries_map(after).contains_key(k) == expected.contains_key(k) by {
        if entries_map(after).contains_key(k) {
            let j = choose|j: int| is_entry(after, j, k);
            assert(is_entry(after, j, k));
            if j < entries.len() {
                assert(is_entry(entries, j, k));
            }
        }
        if expected.contains_key(k) && k != authority@ {
            let j = choose|j: int| is_entry(entries, j, k);
            assert(is_entry(entries, j, k));
            assert(is_entry(after, j, k));
        }
    }
    assert forall|k: Seq<char>| entries_map(after).contains_key(k) implies entries_map(after)[k]
        == expected[k] by {
        let j = choose|j: int| is_entry(after, j, k);
        assert(is_entry(after, j, k));
        lemma_entry_in_map(after, j);
        if j < entries.len() {
            lemma_entry_in_map(entries, j);
            assert(after[j] == entries[j]);
        }
    }
    assert(entries_map(after) =~= expected);
}

impl<R> Default for TokenDatabase<R> {
    /// A store without tokens.
    fn default() -> (db: TokenDatabase<R>)
        ensures
            db@ == Map::<Seq<char>, TokenView<R>>::empty(),
    {
        let db = TokenDatabase { tokens: Vec::new() };
        proof {
            assert(db@ =~= Map::<Seq<char>, TokenView<R>>::empty());
        }
        db
    }
}

impl<R> TokenDatabase<R> {
    #[verifier::type_invariant]
    spec fn one_entry_per_authority(self) -> bool {
        distinct(self.tokens@)
    }

    /// The tokens, each with its server's authority.
    pub fn entries(&self) -> (entries: &Vec<(String, Token<R>)>)
        ensures
            forall|i: int|
                0 <= i < entries@.len() ==> {
                    &&& self@.contains_key(#[trigger] entries@[i].0@)
                    &&& self@[entries@[i].0@] == entries@[i].1@
                },
            forall|authority: Seq<char>| #[trigger]
                self@.contains_key(authority) ==> exists|i: int|
                    0 <= i < entries@.len() && #[trigger] entries@[i].0@ == authority,
            forall|authority: Seq<char>|
                self@.contains_key(authority) <==> #[trigger] is_listed(entries@, authority),
            forall|i: int, j: int|
                0 <= i < j < entries@.len() ==> #[trigger] entries@[i].0@
                    != #[trigger] entries@[j].0@,
    {
        proof {
            use_type_invariant(self);
            assert forall|i: int| 0 <= i < self.tokens@.len() implies {
                &&& self@.contains_key(#[trigger] self.tokens@[i].0@)
                &&& self@[self.tokens@[i].0@] == self.tokens@[i].1@
            } by {
                lemma_entry_in_map(self.tokens@, i);
            }
            assert forall|authority: Seq<char>|
                self@.contains_key(authority) <==> #[trigger] is_listed(
                    self.tokens@,
                    authority,
                ) by {
                if self@.contains_key(authority) {
                    let i = choose|i: int| is_entry(self.tokens@, i, authority);
                    assert(is_entry(self.tokens@, i, authority));
                }
            }
            assert forall|authority: Seq<char>| #[trigger]
                self@.contains_key(authority) implies exists|i: int|
                0 <= i < self.tokens@.len() && #[trigger] self.tokens@[i].0@ == authority by {
                assert(is_listed(self.tokens@, authority));
            }
        }
        &self.tokens
    }

    /// Looks for an authority among the entries.
    fn find(&self, authority: &String) -> (place: Option<usize>)
        ensures
            match place {
                Some(i) => i < self.tokens@.len() && self.tokens@[i as int].0@ == authority@,
                None => forall|i: int|
                    0 <= i < self.tokens@.len() ==> #[trigger] self.tokens@[i].0@ != authority@,
            },
    {
        let mut i: usize = 0;
        while i < self.tokens.len()
            invariant
                i <= self.tokens@.len(),
                forall|j: int| 0 <= j < i ==> #[trigger] self.tokens@[j].0@ != authority@,
            decreases self.tokens@.len() - i,
        {
            if self.tokens[i].0 == *authority {
                return Some(i);
            }
            i += 1;
        }
        None
    }

    /// The token kept for a server.
    pub fn get(&self, authority: &String) -> (token: Option<&Token<R>>)
        ensures
            match token {
                Some(t) => self@.contains_key(authority@) && self@[authority@] == t@,
                None => !self@.contains_key(authority@),
            },
    {
        proof {
            use_type_invariant(self);
        }
        match self.find(authority) {
            Some(i) => {
                proof {
                    lemma_entry_in_map(self.tokens@, i as int);
                }
                Some(&self.tokens[i].1)
            },
            None => {
                proof {
                    if self@.contains_key(authority@) {
                        let i = choose|i: int| is_entry(self.tokens@, i, authority@);
                        assert(is_entry(self.tokens@, i, authority@));
                    }
                }
                None
            },
        }
    }

    /// Keeps a token for a server, in place of the one kept before.
    pub fn insert(&mut self, authority: String, token: Token<R>)
        ensures
            final(self)@ == old(self)@.insert(authority@, token@),
    {
        proof {
            use_type_invariant(&*self);
        }
        let place = self.find(&authority);
        let mut tokens: Vec<(String, Token<R>)> = Vec::new();
        std::mem::swap(&mut tokens, &mut self.tokens);
        match place {
            Some(i) => {
                proof {
                    lemma_replace(tokens@, i as int, token);
                }
                tokens[i].1 = token;
                assert(tokens@ =~= old(self).tokens@.update(i as int, (old(self).tokens@[i as int].0, token)));
            },
            None => {
                proof {
                    lemma_append(tokens@, authority, token);
                }
                tokens.push((authority, token));
            },
        }
        self.tokens = tokens;
    }
}

impl<R: Clone> TokenDatabase<R> {
    /// What to present to a server; `None` where no token of it is kept.
    pub fn offer_for(&self, authority: &String) -> (offer: Option<Offer<R>>)
        ensures
            match offer {
                Some(o) => self@.contains_key(authority@) && is_offer_of(self@[authority@], o),
                None => !self@.contains_key(authority@),
            },
    {
        match self.get(authority) {
            Some(token) => Some(token.offer()),
            None => None,
        }
    }
}

/// A token kept for a server is what is presented to it next: its validation
/// data and its BDP token come back as they were kept, but that all of the
/// saved capacity is asked for. What is kept for other servers does not change.
pub proof fn a_kept_token_is_presented<R: Clone>(
    db: Map<Seq<char>, TokenView<R>>,
    authority: Seq<char>,
    token: TokenView<R>,
    offer: Offer<R>,
    other: Seq<char>,
)
    requires
        is_offer_of(db.insert(authority, token)[authority], offer),
    ensures
        offer.address_validation_data@ == token.address_validation_data,
        offer.bdp_token is Some <==> token.bdp_token is Some,
        offer.bdp_token matches Some(presented) ==> {
            &&& cloned(token.bdp_token->0.rest, presented.rest)
            &&& presented.saved_capacity == token.bdp_token->0.saved_capacity
            &&& presented.requested_capacity == token.bdp_token->0.saved_capacity
            &&& offer.default_stream_window == Some(token.bdp_token->0.saved_capacity)
        },
        offer.bdp_token is None ==> offer.default_stream_window is None,
        other != authority ==> {
            &&& db.insert(authority, token).contains_key(other) == db.contains_key(other)
            &&& db.insert(authority, token)[other] == db[other]
        },
{
}

/// Of the token that `ExToken::issued` makes: it holds the encoded BDP token as
/// it is, and no address validation data.
pub proof fn an_issued_token_holds_the_bdp_token_alone(bdp_token: Vec<u8>, token: ExToken)
    requires
        call_ensures(ExToken::issued, (bdp_token,), token),
    ensures
        token.address_validation_data@.len() == 0,
        token.bdp_token is Some,
        (token.bdp_token->0)@ == bdp_token@,
{
}

/// Of what is made of a kept token to present it, `Token::offer` and then
/// `Offer::into_ex_token`. The address validation data comes back as it was
/// kept. There is a BDP token where one was kept; it has the saved capacity that
/// was kept, asks for all of it, and carries what else was kept; its encoding is
/// what is presented. The stream window is the saved capacity.
pub proof fn what_was_kept_is_presented<R: Clone>(
    token: &Token<R>,
    offer: Offer<R>,
    encoded: Option<Vec<u8>>,
    presented: ExToken,
)
    requires
        call_ensures(Token::<R>::offer, (token,), offer),
        call_ensures(Offer::<R>::into_ex_token, (offer, encoded), presented),
    ensures
        presented.address_validation_data@ == token.address_validation_data@,
        presented.bdp_token == encoded,
        offer.bdp_token is Some <==> token.bdp_token is Some,
        token.bdp_token matches Some(kept) ==> {
            &&& offer.bdp_token->0.saved_capacity == kept.saved_capacity
            &&& offer.bdp_token->0.requested_capacity == kept.saved_capacity
            &&& cloned(kept.rest, offer.bdp_token->0.rest)
            &&& offer.default_stream_window == Some(kept.saved_capacity)
        },
        token.bdp_token is None ==> offer.default_stream_window is None,
{
}

/// A new store holds no token, for any server.
pub proof fn a_new_store_holds_nothing<R>(
    db: TokenDatabase<R>,
    authority: String,
    got: Option<&Token<R>>,
)
    requires
        call_ensures(TokenDatabase::<R>::default, (), db),
        call_ensures(TokenDatabase::<R>::get, (&db, &authority), got),
    ensures
        got is None,
{
}

/// What a store gives after a token was put in: that token, for the server it
/// was put in for, whatever was kept of it before; and for every other server
/// what it gave before.
pub proof fn a_store_gives_back_what_was_put_in<R>(
    db: &mut TokenDatabase<R>,
    authority: String,
    token: Token<R>,
    asked: String,
    before: Option<&Token<R>>,
    after: Option<&Token<R>>,
)
    requires
        call_ensures(TokenDatabase::<R>::insert, (db, authority, token), ()),
        call_ensures(TokenDatabase::<R>::get, (old(db), &asked), before),
        call_ensures(TokenDatabase::<R>::get, (final(db), &asked), after),
    ensures
        asked@ == authority@ ==> {
            &&& after matches Some(t)
            &&& t.address_validation_data@ == token.address_validation_data@
            &&& t.bdp_token == token.bdp_token
        },
        asked@ != authority@ ==> match (before, after) {
            (Some(b), Some(a)) => {
                &&& a.address_validation_data@ == b.address_validation_data@
                &&& a.bdp_token == b.bdp_token
            },
            (None, None) => true,
            _ => false,
        },
{
    if asked@ == authority@ {
        assert((after->0)@ == token@);
    } else if after is Some {
        assert((after->0)@ == (before->0)@);
    }
}

/// What `TokenDatabase::offer_for` gives: for a server that a token is kept of,
/// what that token offers, and for others nothing.
pub proof fn a_server_is_offered_its_own_token<R: Clone>(
    db: &TokenDatabase<R>,
    authority: String,
    got: Option<&Token<R>>,
    offer: Option<Offer<R>>,
)
    requires
        call_ensures(TokenDatabase::<R>::get, (db, &authority), got),
        call_ensures(TokenDatabase::<R>::offer_for, (db, &authority), offer),
    ensures
        offer is Some <==> got is Some,
        offer matches Some(o) ==> {
            let token = got->0;
            &&& o.address_validation_data@ == token.address_validation_data@
            &&& o.bdp_token is Some <==> token.bdp_token is Some
            &&& token.bdp_token matches Some(kept) ==> {
                &&& o.bdp_token->0.saved_capacity == kept.saved_capacity
                &&& o.bdp_token->0.requested_capacity == kept.saved_capacity
                &&& cloned(kept.rest, o.bdp_token->0.rest)
                &&& o.default_stream_window == Some(kept.saved_capacity)
            }
            &&& token.bdp_token is None ==> o.default_stream_window is None
        },
{
    if offer is Some {
        assert((got->0)@.address_validation_data == got->0.address_validation_data@);
    }
}

/// What `TokenDatabase::entries` lists: a server stands in it once where a token
/// of it is kept, beside that token, and does not stand in it otherwise.
pub proof fn the_entries_are_what_is_kept<R>(
    db: &TokenDatabase<R>,
    entries: &Vec<(String, Token<R>)>,
    authority: String,
    got: Option<&Token<R>>,
)
    requires
        call_ensures(TokenDatabase::<R>::entries, (db,), entries),
        call_ensures(TokenDatabase::<R>::get, (db, &authority), got),
    ensures
        got is Some <==> exists|i: int|
            0 <= i < entries@.len() && #[trigger] entries@[i].0@ == authority@,
        forall|i: int|
            0 <= i < entries@.len() && #[trigger] entries@[i].0@ == authority@ ==> {
                &&& got is Some
                &&& entries@[i].1.address_validation_data@ == got->0.address_validation_data@
                &&& entries@[i].1.bdp_token == got->0.bdp_token
            },
        forall|i: int, j: int|
            0 <= i < j < entries@.len() ==> #[trigger] entries@[i].0@ != #[trigger] entries@[j].0@,
{
    if got is Some {
        assert(db@.contains_key(authority@));
        assert(is_listed(entries@, authority@));
    }
    if exists|i: int| 0 <= i < entries@.len() && #[trigger] entries@[i].0@ == authority@ {
        let i = choose|i: int| 0 <= i < entries@.len() && #[trigger] entries@[i].0@ == authority@;
        assert(db@.contains_key(entries@[i].0@));
    }
    assert forall|i: int| 0 <= i < entries@.len() && #[trigger] entries@[i].0@
        == authority@ implies {
        &&& got is Some
        &&& entries@[i].1.address_validation_data@ == got->0.address_validation_data@
        &&& entries@[i].1.bdp_token == got->0.bdp_token
    } by {
        assert(db@.contains_key(entries@[i].0@));
        assert((got->0)@ == entries@[i].1@);
    }
}

} // verus!
