//! What the operations of the contract guarantee when they follow one
//! another, proved from their contracts.

use crate::contract::{executed, game_found, game_started, games_found, move_answered, set_up};
use crate::error::ContractError;
use crate::ledger::{views, Ledger};
use crate::msg::{ExecuteMsg, Response};
use crate::state::{beaten_by, resolve_spec, GameMove, GameResult, GameState, GameStateView};
use cosmwasm_std::StdError;
use vstd::prelude::*;

verus! {

/// The outcome is a tie exactly when the moves are equal, a move wins against
/// the one it beats, and swapping the moves swaps the winner.
pub proof fn lemma_resolve_mirrors(host_move: GameMove, opponent_move: GameMove)
    ensures
        resolve_spec(host_move, opponent_move) == GameResult::Tie <==> host_move == opponent_move,
        resolve_spec(host_move, opponent_move) == GameResult::HostWins <==> beaten_by(host_move)
            == opponent_move,
        resolve_spec(host_move, opponent_move) == GameResult::OpponentWins <==> beaten_by(
            opponent_move,
        ) == host_move,
        resolve_spec(host_move, opponent_move) == GameResult::HostWins <==> resolve_spec(
            opponent_move,
            host_move,
        ) == GameResult::OpponentWins,
        resolve_spec(host_move, opponent_move) == GameResult::Tie <==> resolve_spec(
            opponent_move,
            host_move,
        ) == GameResult::Tie,
{
}

/// No command takes a match off the record, moves it to another pair,
/// changes the host's move or takes back an outcome.
pub proof fn lemma_commands_keep_matches(
    before: Ledger,
    after: Ledger,
    sender: Seq<char>,
    msg: ExecuteMsg,
    r: Result<Response, ContractError>,
)
    requires
        executed(before, sender, msg, r, after),
    ensures
        forall|k: (Seq<char>, Seq<char>)| #[trigger]
            before.games().contains_key(k) ==> {
                &&& after.games().contains_key(k)
                &&& after.games()[k].key() == before.games()[k].key()
                &&& after.games()[k].host_move == before.games()[k].host_move
                &&& before.games()[k].result is Some ==> after.games()[k].result is Some
            },
{
}

/// Setting the contract up leaves every match as it is.
pub proof fn lemma_set_up_keeps_matches(
    before: Ledger,
    after: Ledger,
    sender: Seq<char>,
    r: Result<Response, ContractError>,
)
    requires
        set_up(before, sender, r, after),
    ensures
        after.games() == before.games(),
        after.barred() == before.barred(),
{
}

/// Whether a start of `sender` against `opponent` has all it needs: an
/// accepted opponent, a host who is not barred, and no match of the pair on
/// record.
pub open spec fn can_start(ledger: Ledger, sender: Seq<char>, opponent: Seq<char>) -> bool {
    &&& Ledger::accepts(opponent)
    &&& !ledger.barred().contains(sender)
    &&& !ledger.games().contains_key((sender, opponent))
}

/// A start that has all it needs succeeds, and the match is found right
/// after under its host and opponent, with the host's move and neither an
/// answer nor an outcome.
pub proof fn lemma_started_game_is_found(
    before: Ledger,
    after: Ledger,
    sender: Seq<char>,
    opponent: Seq<char>,
    host_move: GameMove,
    started: Result<Response, ContractError>,
    asked: Result<GameState, StdError>,
)
    requires
        can_start(before, sender, opponent),
        game_started(before, sender, opponent, host_move, started, after),
        game_found(after.games(), sender, opponent, asked),
    ensures
        started is Ok,
        asked matches Ok(game) && game@ == GameStateView::opened(sender, opponent, host_move),
        asked matches Ok(game) && game@.host_move == Some(host_move) && game@.opponent_move is None
            && game@.result is None,
{
}

/// A match that was started and then answered, by whatever sender, is found
/// with both moves and with the outcome that the two moves give.
pub proof fn lemma_answered_game_is_resolved(
    before: Ledger,
    between: Ledger,
    after: Ledger,
    host: Seq<char>,
    opponent: Seq<char>,
    sender: Seq<char>,
    host_move: GameMove,
    opponent_move: GameMove,
    started: Result<Response, ContractError>,
    answered: Result<Response, ContractError>,
    asked: Result<GameState, StdError>,
)
    requires
        can_start(before, host, opponent),
        Ledger::accepts(host),
        game_started(before, host, opponent, host_move, started, between),
        move_answered(between, sender, host, opponent, opponent_move, answered, after),
        game_found(after.games(), host, opponent, asked),
    ensures
        started is Ok,
        answered is Ok,
        asked matches Ok(game) && game@ == (GameStateView {
            host_address: host,
            opponent_address: opponent,
            host_move: Some(host_move),
            opponent_move: Some(opponent_move),
            result: Some(resolve_spec(host_move, opponent_move)),
        }),
{
}

/// Of two starts by the same host against the same opponent, the first of
/// which has all it needs, the second is refused as a duplicate, whatever its
/// move, and the match on record keeps the move of the first.
pub proof fn lemma_second_start_is_refused(
    before: Ledger,
    between: Ledger,
    after: Ledger,
    sender: Seq<char>,
    opponent: Seq<char>,
    first_move: GameMove,
    second_move: GameMove,
    first: Result<Response, ContractError>,
    second: Result<Response, ContractError>,
)
    requires
        can_start(before, sender, opponent),
        game_started(before, sender, opponent, first_move, first, between),
        game_started(between, sender, opponent, second_move, second, after),
    ensures
        first is Ok,
        second matches Err(ContractError::HostOpponentPairAlreadyHasGame),
        after == between,
        after.games().contains_key((sender, opponent)),
        after.games()[(sender, opponent)] == GameStateView::opened(sender, opponent, first_move),
{
    assert(between.barred() == before.barred());
    assert(between.games().contains_key((sender, opponent)));
}

/// An answer for a pair of accepted addresses that has no match on record is
/// refused for want of a match, and the ledger gains nothing.
pub proof fn lemma_answer_without_match_is_refused(
    before: Ledger,
    after: Ledger,
    sender: Seq<char>,
    host: Seq<char>,
    opponent: Seq<char>,
    opponent_move: GameMove,
    r: Result<Response, ContractError>,
)
    requires
        move_answered(before, sender, host, opponent, opponent_move, r, after),
        Ledger::accepts(host),
        Ledger::accepts(opponent),
        !before.games().contains_key((host, opponent)),
    ensures
        r matches Err(ContractError::NoGameFoundForHostOpponentPair { host_address, opponent_address })
            && host_address@ == host && opponent_address@ == opponent,
        after == before,
        after.games() == before.games(),
        !after.games().contains_key((host, opponent)),
{
}

/// A barred host who starts a match against an accepted address is refused
/// as barred, whether or not the pair was ever used, and no match is created.
pub proof fn lemma_barred_host_cannot_start(
    before: Ledger,
    after: Ledger,
    sender: Seq<char>,
    opponent: Seq<char>,
    host_move: GameMove,
    r: Result<Response, ContractError>,
)
    requires
        game_started(before, sender, opponent, host_move, r, after),
        Ledger::accepts(opponent),
        before.barred().contains(sender),
    ensures
        r matches Err(ContractError::HostAddressBlacklisted),
        after == before,
        after.games() == before.games(),
{
}

/// After a host without matches started one against each of two opponents,
/// and another host started one against that host, the listing of the first
/// host's matches holds exactly those two, and not the third.
pub proof fn lemma_listing_by_host_is_exact(
    start: Ledger,
    first_done: Ledger,
    second_done: Ledger,
    third_done: Ledger,
    host: Seq<char>,
    first_opponent: Seq<char>,
    second_opponent: Seq<char>,
    other_host: Seq<char>,
    first_move: GameMove,
    second_move: GameMove,
    third_move: GameMove,
    first: Result<Response, ContractError>,
    second: Result<Response, ContractError>,
    third: Result<Response, ContractError>,
    listed: Result<Vec<GameState>, StdError>,
)
    requires
        forall|k: (Seq<char>, Seq<char>)| #[trigger] start.games().contains_key(k) ==> k.0 != host,
        game_started(start, host, first_opponent, first_move, first, first_done),
        first is Ok,
        game_started(first_done, host, second_opponent, second_move, second, second_done),
        second is Ok,
        other_host != host,
        game_started(second_done, other_host, host, third_move, third, third_done),
        third is Ok,
        Ledger::accepts(host),
        games_found(third_done, true, host, listed),
    ensures
        listed matches Ok(records) && records@.len() == 2 && views(records@).contains(
            GameStateView::opened(host, first_opponent, first_move),
        ) && views(records@).contains(GameStateView::opened(host, second_opponent, second_move))
            && forall|i: int|
            0 <= i < records@.len() ==> (#[trigger] views(records@)[i]).host_address == host,
{
    let games = third_done.games();
    let first_key = (host, first_opponent);
    let second_key = (host, second_opponent);
    let first_game = GameStateView::opened(host, first_opponent, first_move);
    let second_game = GameStateView::opened(host, second_opponent, second_move);
    assert(first_done.games().contains_key(first_key));
    assert(first_key != second_key);
    assert(games.contains_key(first_key) && games[first_key] == first_game);
    assert(games.contains_key(second_key) && games[second_key] == second_game);
    let records = listed->Ok_0;
    let found = views(records@);
    assert forall|i: int| 0 <= i < found.len() implies (#[trigger] found[i]).key() == first_key
        || found[i].key() == second_key by {
        let key = found[i].key();
        assert(games.contains_key(key) && key.0 == host);
        if key != first_key && key != second_key {
            assert(key != (other_host, host));
            assert(second_done.games().contains_key(key));
            assert(first_done.games().contains_key(key));
            assert(start.games().contains_key(key));
        }
    }
    let i = choose|i: int| 0 <= i < found.len() && (#[trigger] found[i]).key() == first_key;
    let j = choose|j: int| 0 <= j < found.len() && (#[trigger] found[j]).key() == second_key;
    assert(found[i] == first_game);
    assert(found[j] == second_game);
    assert(i != j);
    if found.len() > 2 {
        assert(found[0].key() != found[1].key());
        assert(found[0].key() != found[2].key());
        assert(found[1].key() != found[2].key());
    }
    assert forall|n: int| 0 <= n < records@.len() implies (#[trigger] views(
        records@,
    )[n]).host_address == host by {
        assert(found[n].key() == first_key || found[n].key() == second_key);
    }
}

} // verus!
