//! The client's collecting of the tokens that a server sends.

use vstd::prelude::*;

use crate::tokens::{BdpToken, ExToken, Token, TokenView};

verus! {

/// The application error code of an HTTP/3 connection that ends without error.
pub const H3_NO_ERROR: u64 = 0x100;

/// How far the collecting has come.
#[derive(Debug)]
pub enum CollectStage {
    /// The next token is being waited for.
    Listening,
    /// An extensible token is being decoded.
    Decoding,
    /// The BDP token in one is being decoded.
    DecodingBdp { address_validation_data: Vec<u8> },
    /// There is nothing left to do.
    Done,
}

/// The outcome of the work that a stage waits for.
#[derive(Debug)]
pub enum CollectEvent<R> {
    /// The server sent a token.
    Received(Vec<u8>),
    /// The server will send no more.
    Ended,
    /// The connection failed, with this error code.
    Failed(u64),
    /// The extensible token; `None` where it does not decode.
    ExToken(Option<ExToken>),
    /// The BDP token; `None` where it does not decode.
    BdpToken(Option<BdpToken<R>>),
}

/// The work to do next.
#[derive(Debug)]
pub enum CollectAction<R> {
    /// Decode these bytes as an extensible token.
    DecodeExToken(Vec<u8>),
    /// Decode these bytes as a BDP token.
    DecodeBdpToken(Vec<u8>),
    /// Keep this token for the server, then wait for the next.
    Store(Token<R>),
    /// Stop: there is nothing more to collect.
    Stop,
    /// Give up: the connection failed, with this error code.
    ConnectionError(u64),
    /// Give up: the server sent what is no token.
    BadToken,
}

/// The event is an outcome of the work that the stage waits for.
pub open spec fn collect_awaits<R>(stage: CollectStage, event: CollectEvent<R>) -> bool {
    match stage {
        CollectStage::Listening => event is Received || event is Ended || event is Failed,
        CollectStage::Decoding => event is ExToken,
        CollectStage::DecodingBdp { .. } => event is BdpToken,
        CollectStage::Done => false,
    }
}

impl CollectStage {
    /// Whether the event is an outcome of the work that the stage waits for.
    pub fn takes<R>(&self, event: &CollectEvent<R>) -> (yes: bool)
        ensures
            yes == collect_awaits(*self, *event),
    {
        match (self, event) {
            (CollectStage::Listening, CollectEvent::Received(_)) => true,
            (CollectStage::Listening, CollectEvent::Ended) => true,
            (CollectStage::Listening, CollectEvent::Failed(_)) => true,
            (CollectStage::Decoding, CollectEvent::ExToken(_)) => true,
            (CollectStage::DecodingBdp { .. }, CollectEvent::BdpToken(_)) => true,
            _ => false,
        }
    }
}

/// The next stage and the work it waits for.
pub open spec fn collect_transition<R>(stage: CollectStage, event: CollectEvent<R>) -> (
    CollectStage,
    CollectAction<R>,
) {
    match event {
        CollectEvent::Received(bytes) => {
            (CollectStage::Decoding, CollectAction::DecodeExToken(bytes))
        },
        CollectEvent::Ended => (CollectStage::Done, CollectAction::Stop),
        CollectEvent::Failed(code) => if code == H3_NO_ERROR {
            (CollectStage::Done, CollectAction::Stop)
        } else {
            (CollectStage::Done, CollectAction::ConnectionError(code))
        },
        CollectEvent::ExToken(Some(ex_token)) => match ex_token.bdp_token {
            Some(bytes) => (
                CollectStage::DecodingBdp {
                    address_validation_data: ex_token.address_validation_data,
                },
                CollectAction::DecodeBdpToken(bytes),
            ),
            None => (
                CollectStage::Listening,
                CollectAction::Store(
                    Token {
                        address_validation_data: ex_token.address_validation_data,
                        bdp_token: None,
                    },
                ),
            ),
        },
        CollectEvent::BdpToken(Some(bdp_token)) => (
            CollectStage::Listening,
            CollectAction::Store(
                Token {
                    address_validation_data: stage->address_validation_data,
                    bdp_token: Some(bdp_token),
                },
            ),
        ),
        CollectEvent::ExToken(None) => (CollectStage::Done, CollectAction::BadToken),
        CollectEvent::BdpToken(None) => (CollectStage::Done, CollectAction::BadToken),
    }
}

/// Takes the outcome of the work that the stage waits for, and gives the next
/// stage and its work.
pub fn collect_token<R>(stage: CollectStage, event: CollectEvent<R>) -> (next: (
    CollectStage,
    CollectAction<R>,
))
    requires
        collect_awaits(stage, event),
    ensures
        next == collect_transition(stage, event),
{
    match (stage, event) {
        (_, CollectEvent::Received(bytes)) => {
            (CollectStage::Decoding, CollectAction::DecodeExToken(bytes))
        },
        (_, CollectEvent::Ended) => (CollectStage::Done, CollectAction::Stop),
        (_, CollectEvent::Failed(code)) => if code == H3_NO_ERROR {
            (CollectStage::Done, CollectAction::Stop)
        } else {
            (CollectStage::Done, CollectAction::ConnectionError(code))
        },
        (_, CollectEvent::ExToken(Some(ex_token))) => {
            let address_validation_data = ex_token.address_validation_data;
            match ex_token.bdp_token {
                Some(bytes) => (
                    CollectStage::DecodingBdp { address_validation_data },
                    CollectAction::DecodeBdpToken(bytes),
                ),
                None => (
                    CollectStage::Listening,
                    CollectAction::Store(Token { address_validation_data, bdp_token: None }),
                ),
            }
        },
        (
            CollectStage::DecodingBdp { address_validation_data },
            CollectEvent::BdpToken(Some(bdp_token)),
        ) => (
            CollectStage::Listening,
            CollectAction::Store(Token { address_validation_data, bdp_token: Some(bdp_token) }),
        ),
        _ => (CollectStage::Done, CollectAction::BadToken),
    }
}

/// A token that decodes is kept whole, its BDP token included where it has
/// one, and then the next token is waited for: one step after the extensible
/// token is decoded where it has no BDP token, two steps where it has.
pub proof fn a_received_token_is_kept_whole<R>(
    bytes: Vec<u8>,
    ex_token: ExToken,
    bdp_token: BdpToken<R>,
)
    ensures
        ({
            let first = collect_transition(
                CollectStage::Listening,
                CollectEvent::<R>::Received(bytes),
            );
            let second = collect_transition(first.0, CollectEvent::<R>::ExToken(Some(ex_token)));
            let third = collect_transition(second.0, CollectEvent::BdpToken(Some(bdp_token)));
            &&& first == (CollectStage::Decoding, CollectAction::<R>::DecodeExToken(bytes))
            &&& match ex_token.bdp_token {
                None => {
                    &&& second.0 is Listening
                    &&& second.1 matches CollectAction::Store(token)
                    &&& token@.address_validation_data == ex_token.address_validation_data@
                    &&& token@.bdp_token is None
                },
                Some(encoded) => {
                    &&& second.1 == CollectAction::<R>::DecodeBdpToken(encoded)
                    &&& collect_awaits(second.0, CollectEvent::BdpToken(Some(bdp_token)))
                    &&& third.0 is Listening
                    &&& third.1 matches CollectAction::Store(token)
                    &&& token@.address_validation_data == ex_token.address_validation_data@
                    &&& token@.bdp_token == Some(bdp_token)
                },
            }
        }),
{
}

/// The store after some tokens of one server were kept, one after another.
pub open spec fn after_keeping<R>(
    db: Map<Seq<char>, TokenView<R>>,
    authority: Seq<char>,
    tokens: Seq<TokenView<R>>,
) -> Map<Seq<char>, TokenView<R>>
    decreases tokens.len(),
{
    if tokens.len() == 0 {
        db
    } else {
        after_keeping(db, authority, tokens.drop_last()).insert(authority, tokens.last())
    }
}

/// Of the tokens that a server sends, the last one stays; what is kept for
/// other servers stays as it was.
pub proof fn the_last_token_stays<R>(
    db: Map<Seq<char>, TokenView<R>>,
    authority: Seq<char>,
    tokens: Seq<TokenView<R>>,
)
    ensures
        tokens.len() > 0 ==> after_keeping(db, authority, tokens) == db.insert(
            authority,
            tokens.last(),
        ),
        tokens.len() == 0 ==> after_keeping(db, authority, tokens) == db,
    decreases tokens.len(),
{
    if tokens.len() > 0 {
        the_last_token_stays(db, authority, tokens.drop_last());
        assert(after_keeping(db, authority, tokens) =~= db.insert(authority, tokens.last()));
    }
}

/// Of what `collect_token` says to do with a token that the server sends and
/// that decodes: its bytes are decoded as they came; the BDP token in it, where
/// it has one, is decoded next; and what was decoded is kept as it is, address
/// validation data and BDP token, before the next token is waited for.
pub proof fn what_the_server_sent_is_what_is_kept<R>(
    bytes: Vec<u8>,
    ex_token: ExToken,
    bdp_token: BdpToken<R>,
    first: (CollectStage, CollectAction<R>),
    second: (CollectStage, CollectAction<R>),
    third: (CollectStage, CollectAction<R>),
)
    requires
        call_ensures(
            collect_token::<R>,
            (CollectStage::Listening, CollectEvent::Received(bytes)),
            first,
        ),
        call_ensures(
            collect_token::<R>,
            (first.0, CollectEvent::ExToken(Some(ex_token))),
            second,
        ),
        ex_token.bdp_token is Some ==> call_ensures(
            collect_token::<R>,
            (second.0, CollectEvent::BdpToken(Some(bdp_token))),
            third,
        ),
    ensures
        first.0 is Decoding,
        first.1 matches CollectAction::DecodeExToken(b) && b@ == bytes@,
        ex_token.bdp_token is None ==> {
            &&& second.0 is Listening
            &&& second.1 matches CollectAction::Store(token)
            &&& token.address_validation_data@ == ex_token.address_validation_data@
            &&& token.bdp_token is None
        },
        ex_token.bdp_token is Some ==> {
            &&& second.0 is DecodingBdp
            &&& second.1 matches CollectAction::DecodeBdpToken(encoded)
            &&& encoded@ == (ex_token.bdp_token->0)@
            &&& third.0 is Listening
            &&& third.1 matches CollectAction::Store(token)
            &&& token.address_validation_data@ == ex_token.address_validation_data@
            &&& token.bdp_token matches Some(kept)
            &&& kept.saved_capacity == bdp_token.saved_capacity
            &&& kept.requested_capacity == bdp_token.requested_capacity
            &&& kept.rest == bdp_token.rest
        },
{
}

/// Of where `collect_token` stops. The collecting ends quietly where the server
/// will send no more or closed the connection without error, which is code
/// 0x100; with the error code that came, for every other one; and for a token
/// that does not decode. In no other case does it end.
pub proof fn collecting_ends_for_a_reason<R>(
    stage: CollectStage,
    event: CollectEvent<R>,
    next: (CollectStage, CollectAction<R>),
)
    requires
        call_ensures(collect_token::<R>, (stage, event), next),
    ensures
        next.1 is Stop <==> event is Ended || event == CollectEvent::<R>::Failed(0x100),
        event matches CollectEvent::Failed(code) ==> code != 0x100 ==> next.1
            == CollectAction::<R>::ConnectionError(code),
        next.1 is ConnectionError ==> event is Failed,
        next.1 is BadToken <==> event == CollectEvent::<R>::ExToken(None) || event
            == CollectEvent::<R>::BdpToken(None),
        next.0 is Done <==> next.1 is Stop || next.1 is ConnectionError || next.1 is BadToken,
{
}

/// The work that `collect_token` names is what the stage beside it waits for:
/// that stage takes every outcome of that work, and nothing else. To wait for a
/// token, at first and after one is kept, is to take what the connection gives.
pub proof fn a_collect_stage_takes_the_outcome_of_its_work<R>(
    stage: CollectStage,
    event: CollectEvent<R>,
    next: (CollectStage, CollectAction<R>),
    later: CollectEvent<R>,
    yes: bool,
    first: bool,
)
    requires
        call_ensures(collect_token::<R>, (stage, event), next),
        call_ensures(CollectStage::takes::<R>, (&next.0, &later), yes),
        call_ensures(CollectStage::takes::<R>, (&CollectStage::Listening, &later), first),
    ensures
        first <==> later is Received || later is Ended || later is Failed,
        yes <==> match next.1 {
            CollectAction::DecodeExToken(_) => later is ExToken,
            CollectAction::DecodeBdpToken(_) => later is BdpToken,
            CollectAction::Store(_) => later is Received || later is Ended || later is Failed,
            _ => false,
        },
{
}

} // verus!
