//! The data a match is made of: moves, outcomes and the match record, and the
//! rule that says who wins a round.

use vstd::prelude::*;

verus! {

/// One of the three moves a player can commit to.
#[derive(Clone, Copy, Debug, PartialEq, Eq, Structural)]
pub enum GameMove {
    Rock,
    Paper,
    Scissors,
}

/// How a match ended once both moves were known.
#[derive(Clone, Copy, Debug, PartialEq, Eq, Structural)]
pub enum GameResult {
    HostWins,
    OpponentWins,
    Tie,
}

/// The identity that set the contract up.
#[derive(Clone, Debug, PartialEq)]
pub struct State {
    pub owner: String,
}

/// One match between a host and an opponent.
#[derive(Clone, Debug, PartialEq)]
pub struct GameState {
    pub host_address: String,
    pub opponent_address: String,
    pub host_move: Option<GameMove>,
    pub opponent_move: Option<GameMove>,
    pub result: Option<GameResult>,
}

/// A match as contracts speak of it: the addresses as sequences of characters.
pub struct GameStateView {
    pub host_address: Seq<char>,
    pub opponent_address: Seq<char>,
    pub host_move: Option<GameMove>,
    pub opponent_move: Option<GameMove>,
    pub result: Option<GameResult>,
}

impl View for GameState {
    type V = GameStateView;

    open spec fn view(&self) -> GameStateView {
        GameStateView {
            host_address: self.host_address@,
            opponent_address: self.opponent_address@,
            host_move: self.host_move,
            opponent_move: self.opponent_move,
            result: self.result,
        }
    }
}

impl GameStateView {
    /// The ordered pair that identifies the match.
    pub open spec fn key(self) -> (Seq<char>, Seq<char>) {
        (self.host_address, self.opponent_address)
    }

    /// The match as it stands right after the host committed a move.
    pub open spec fn opened(host: Seq<char>, opponent: Seq<char>, host_move: GameMove) -> GameStateView {
        GameStateView {
            host_address: host,
            opponent_address: opponent,
            host_move: Some(host_move),
            opponent_move: None,
            result: None,
        }
    }

    /// The match after the opponent answered the host's move with
    /// `opponent_move`.
    pub open spec fn answered(self, opponent_move: GameMove) -> GameStateView
        recommends
            self.host_move is Some,
    {
        GameStateView {
            opponent_move: Some(opponent_move),
            result: Some(resolve_spec(self.host_move->Some_0, opponent_move)),
            ..self
        }
    }

    /// The host has moved; the opponent's move and the outcome are either both
    /// missing or both present, and the outcome is the one the two moves give.
    pub open spec fn well_formed(self) -> bool {
        &&& self.host_move is Some
        &&& self.opponent_move is Some <==> self.result is Some
        &&& self.opponent_move matches Some(answer) ==> self.result == Some(
            resolve_spec(self.host_move->Some_0, answer),
        )
    }
}

/// The move that `m` beats.
pub open spec fn beaten_by(m: GameMove) -> GameMove {
    match m {
        GameMove::Rock => GameMove::Scissors,
        GameMove::Scissors => GameMove::Paper,
        GameMove::Paper => GameMove::Rock,
    }
}

/// Who wins when the host plays `host_move` and the opponent `opponent_move`.
pub open spec fn resolve_spec(host_move: GameMove, opponent_move: GameMove) -> GameResult {
    if host_move == opponent_move {
        GameResult::Tie
    } else if beaten_by(host_move) == opponent_move {
        GameResult::HostWins
    } else {
        GameResult::OpponentWins
    }
}

impl GameState {
    /// A copy of the record.
    pub fn duplicate(&self) -> (r: GameState)
        ensures
            r@ == self@,
    {
        GameState {
            host_address: self.host_address.clone(),
            opponent_address: self.opponent_address.clone(),
            host_move: self.host_move,
            opponent_move: self.opponent_move,
            result: self.result,
        }
    }
}

/// Computes the winner of one round.
pub fn resolve(host_move: GameMove, opponent_move: GameMove) -> (r: GameResult)
    ensures
        r == resolve_spec(host_move, opponent_move),
{
    match host_move {
        GameMove::Rock => match opponent_move {
            GameMove::Rock => GameResult::Tie,
            GameMove::Paper => GameResult::OpponentWins,
            GameMove::Scissors => GameResult::HostWins,
        },
        GameMove::Paper => match opponent_move {
            GameMove::Rock => GameResult::HostWins,
            GameMove::Paper => GameResult::Tie,
            GameMove::Scissors => GameResult::OpponentWins,
        },
        GameMove::Scissors => match opponent_move {
            GameMove::Rock => GameResult::OpponentWins,
            GameMove::Paper => GameResult::HostWins,
            GameMove::Scissors => GameResult::Tie,
        },
    }
}

/// Records in `game_state` the outcome that `opponent_move` gives against the
/// host's move, which must be there. Nothing else of the record changes.
pub fn update_opponent_move(game_state: GameState, opponent_move: GameMove) -> (r: GameState)
    requires
        game_state.host_move is Some,
    ensures
        r@ == (GameStateView {
            result: Some(resolve_spec(game_state.host_move->Some_0, opponent_move)),
            ..game_state@
        }),
{
    let mut game_state = game_state;
    let host_move = game_state.host_move.unwrap();
    game_state.result = Some(resolve(host_move, opponent_move));
    game_state
}

} // verus!
