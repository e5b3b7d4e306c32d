//! How a match is written to the store, and the two steps that change one.
//!
//! The store keeps a match as the two addresses and three small numbers: the
//! host's move, the opponent's move and the outcome. Zero stands for "not
//! there yet".

use crate::error::ContractError;
use crate::state::{update_opponent_move, GameMove, GameResult, GameState, GameStateView};
use vstd::prelude::*;

verus! {

/// A match in the form the store keeps.
pub type Stored = (String, String, u8, u8, u8);

/// A stored match as contracts speak of it.
pub type StoredView = (Seq<char>, Seq<char>, u8, u8, u8);

/// The ordered pair of host and opponent that a match is found by.
pub type MatchKey = (Seq<char>, Seq<char>);

/// A stored match as contracts speak of it.
pub open spec fn stored_view(t: Stored) -> StoredView {
    (t.0@, t.1@, t.2, t.3, t.4)
}

/// A stored match, if there is one, as contracts speak of it.
pub open spec fn stored_option_view(t: Option<Stored>) -> Option<StoredView> {
    match t {
        Some(t) => Some(stored_view(t)),
        None => None,
    }
}

/// The number that stands for a move, zero for none.
pub open spec fn move_code(m: Option<GameMove>) -> u8 {
    match m {
        None => 0,
        Some(GameMove::Rock) => 1,
        Some(GameMove::Paper) => 2,
        Some(GameMove::Scissors) => 3,
    }
}

/// The move a number stands for. Numbers above three stand for no move.
pub open spec fn move_of_code(code: u8) -> Option<GameMove> {
    if code == 1 {
        Some(GameMove::Rock)
    } else if code == 2 {
        Some(GameMove::Paper)
    } else if code == 3 {
        Some(GameMove::Scissors)
    } else {
        None
    }
}

/// The number that stands for an outcome, zero for none.
pub open spec fn result_code(r: Option<GameResult>) -> u8 {
    match r {
        None => 0,
        Some(GameResult::HostWins) => 1,
        Some(GameResult::OpponentWins) => 2,
        Some(GameResult::Tie) => 3,
    }
}

/// The outcome a number stands for. Numbers above three stand for none.
pub open spec fn result_of_code(code: u8) -> Option<GameResult> {
    if code == 1 {
        Some(GameResult::HostWins)
    } else if code == 2 {
        Some(GameResult::OpponentWins)
    } else if code == 3 {
        Some(GameResult::Tie)
    } else {
        None
    }
}

/// The stored form of a match.
pub open spec fn stored_of(g: GameStateView) -> StoredView {
    (
        g.host_address,
        g.opponent_address,
        move_code(g.host_move),
        move_code(g.opponent_move),
        result_code(g.result),
    )
}

/// The match that a stored form stands for.
pub open spec fn record_of(t: StoredView) -> GameStateView {
    GameStateView {
        host_address: t.0,
        opponent_address: t.1,
        host_move: move_of_code(t.2),
        opponent_move: move_of_code(t.3),
        result: result_of_code(t.4),
    }
}

/// Whether every number of a stored form stands for something.
pub open spec fn codes_in_range(t: StoredView) -> bool {
    t.2 <= 3 && t.3 <= 3 && t.4 <= 3
}

/// Reading back what was written gives the same match.
pub proof fn lemma_record_of_stored(g: GameStateView)
    ensures
        record_of(stored_of(g)) == g,
        codes_in_range(stored_of(g)),
{
}

/// The number that stands for `m`.
pub fn encode_move(m: Option<GameMove>) -> (code: u8)
    ensures
        code == move_code(m),
{
    match m {
        None => 0,
        Some(GameMove::Rock) => 1,
        Some(GameMove::Paper) => 2,
        Some(GameMove::Scissors) => 3,
    }
}

/// The move that `code` stands for.
pub fn decode_move(code: u8) -> (m: Option<GameMove>)
    ensures
        m == move_of_code(code),
{
    if code == 1 {
        Some(GameMove::Rock)
    } else if code == 2 {
        Some(GameMove::Paper)
    } else if code == 3 {
        Some(GameMove::Scissors)
    } else {
        None
    }
}

/// The number that stands for `r`.
pub fn encode_result(r: Option<GameResult>) -> (code: u8)
    ensures
        code == result_code(r),
{
    match r {
        None => 0,
        Some(GameResult::HostWins) => 1,
        Some(GameResult::OpponentWins) => 2,
        Some(GameResult::Tie) => 3,
    }
}

/// The outcome that `code` stands for.
pub fn decode_result(code: u8) -> (r: Option<GameResult>)
    ensures
        r == result_of_code(code),
{
    if code == 1 {
        Some(GameResult::HostWins)
    } else if code == 2 {
        Some(GameResult::OpponentWins)
    } else if code == 3 {
        Some(GameResult::Tie)
    } else {
        None
    }
}

/// The stored form of `game`.
pub fn to_stored(game: GameState) -> (t: Stored)
    ensures
        stored_view(t) == stored_of(game@),
{
    (
        game.host_address,
        game.opponent_address,
        encode_move(game.host_move),
        encode_move(game.opponent_move),
        encode_result(game.result),
    )
}

/// The match that `t` stands for.
pub fn from_stored(t: Stored) -> (game: GameState)
    ensures
        game@ == record_of(stored_view(t)),
{
    GameState {
        host_address: t.0,
        opponent_address: t.1,
        host_move: decode_move(t.2),
        opponent_move: decode_move(t.3),
        result: decode_result(t.4),
    }
}

/// The match that `t` stands for, leaving `t` in place.
pub fn read_stored(t: &Stored) -> (game: GameState)
    ensures
        game@ == record_of(stored_view(*t)),
{
    GameState {
        host_address: t.0.clone(),
        opponent_address: t.1.clone(),
        host_move: decode_move(t.2),
        opponent_move: decode_move(t.3),
        result: decode_result(t.4),
    }
}

/// One of the two changes a match goes through.
#[derive(Clone, Copy, Debug, PartialEq, Eq, Structural)]
pub enum Step {
    /// The host starts the match with this move.
    Open(GameMove),
    /// The opponent answers with this move.
    Close(GameMove),
}

/// Why a step cannot be taken.
pub enum Refusal {
    /// A match is on record under the key already.
    Duplicate,
    /// No match is on record under the key.
    Missing,
}

/// Whether a step can be taken on what was found under a key: a stored match
/// that is to be answered holds the host's move.
pub open spec fn answerable(found: Option<StoredView>, step: Step) -> bool {
    step is Close ==> (found matches Some(t) ==> move_of_code(t.2) is Some)
}

/// What a step makes of the match found under a key: the match to write, or
/// the reason why there is none.
pub open spec fn advance_spec(
    found: Option<GameStateView>,
    host: Seq<char>,
    opponent: Seq<char>,
    step: Step,
) -> Result<GameStateView, Refusal> {
    match step {
        Step::Open(host_move) => match found {
            Some(_) => Err(Refusal::Duplicate),
            None => Ok(GameStateView::opened(host, opponent, host_move)),
        },
        Step::Close(opponent_move) => match found {
            None => Err(Refusal::Missing),
            Some(game) => Ok(
                GameStateView { host_address: host, opponent_address: opponent, ..game }.answered(
                    opponent_move,
                ),
            ),
        },
    }
}

/// The same on stored forms.
pub open spec fn advance_stored(
    found: Option<StoredView>,
    host: Seq<char>,
    opponent: Seq<char>,
    step: Step,
) -> Result<StoredView, Refusal> {
    let found = match found {
        Some(t) => Some(record_of(t)),
        None => None,
    };
    match advance_spec(found, host, opponent, step) {
        Ok(game) => Ok(stored_of(game)),
        Err(refusal) => Err(refusal),
    }
}

/// Whether `r` is what taking a step gave, in stored form.
pub open spec fn advanced(plan: Result<StoredView, Refusal>, key: MatchKey, r: Result<Stored, ContractError>) -> bool {
    match plan {
        Ok(next) => r matches Ok(t) && stored_view(t) == next,
        Err(Refusal::Duplicate) => r matches Err(ContractError::HostOpponentPairAlreadyHasGame),
        Err(Refusal::Missing) => r matches Err(
            ContractError::NoGameFoundForHostOpponentPair { host_address, opponent_address },
        ) && host_address@ == key.0 && opponent_address@ == key.1,
    }
}

/// Takes a step on the stored match found under the key of `host` and
/// `opponent`: starting refuses a match that exists, answering refuses one
/// that does not. A match that is answered must hold the host's move.
pub fn advance(found: Option<Stored>, host: &String, opponent: &String, step: &Step) -> (r: Result<
    Stored,
    ContractError,
>)
    requires
        answerable(stored_option_view(found), *step),
    ensures
        advanced(
            advance_stored(stored_option_view(found), host@, opponent@, *step),
            (host@, opponent@),
            r,
        ),
{
    match step {
        Step::Open(host_move) => match found {
            Some(_) => Err(ContractError::HostOpponentPairAlreadyHasGame),
            None => {
                let game = GameState {
                    host_address: host.clone(),
                    opponent_address: opponent.clone(),
                    host_move: Some(*host_move),
                    opponent_move: None,
                    result: None,
                };
                Ok(to_stored(game))
            },
        },
        Step::Close(opponent_move) => match found {
            None => Err(
                ContractError::NoGameFoundForHostOpponentPair {
                    host_address: host.clone(),
                    opponent_address: opponent.clone(),
                },
            ),
            Some(t) => {
                let found_game = update_opponent_move(from_stored(t), *opponent_move);
                let game = GameState {
                    host_address: host.clone(),
                    opponent_address: opponent.clone(),
                    host_move: found_game.host_move,
                    opponent_move: Some(*opponent_move),
                    result: found_game.result,
                };
                Ok(to_stored(game))
            },
        },
    }
}

} // verus!
