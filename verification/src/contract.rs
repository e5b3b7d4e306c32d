//! The contract's entry points: setting it up, the commands that change the
//! ledger and the questions that read it.

use crate::chain::{generic_err, generic_error, texts};
use crate::error::ContractError;
use crate::ledger::{
    admin_handed_on, barred_added, barred_removed, lists_matches, views, Ledger, Selection,
};
use crate::msg::{ExecuteMsg, InstantiateMsg, MessageInfo, QueryMsg, QueryResponse, Response};
use crate::record::{MatchKey, Step};
use crate::seq_facts::{lemma_filter_keeps_all, lemma_filter_of_images};
use crate::state::{GameMove, GameState, GameStateView, State};
use cosmwasm_std::{Env, StdError};
use vstd::prelude::*;

verus! {

/// The name the contract writes down for itself when it is set up.
pub const CONTRACT_NAME: &'static str = "crates.io:counter";

/// The version the contract writes down for itself when it is set up.
pub const CONTRACT_VERSION: &'static str = "0.1.0";

/// What setting the contract up leaves behind. The contract's name and
/// version are written down in any case. A sender that is not an accepted
/// address is refused, and administrator and owner stay. Else the sender is
/// the administrator and the owner, and the call reports method and owner.
/// The matches and the barred hosts stay as they are.
pub open spec fn set_up(before: Ledger, sender: Seq<char>, r: Result<Response, ContractError>, after: Ledger) -> bool {
    &&& after.games() == before.games()
    &&& after.order() == before.order()
    &&& after.hook_list() == before.hook_list()
    &&& after.version() == Some((CONTRACT_NAME@, CONTRACT_VERSION@))
    &&& if !Ledger::accepts(sender) {
        r matches Err(ContractError::Std(_)) && after.admin() == before.admin() && after.owner()
            == before.owner()
    } else {
        r matches Ok(response) && after.admin() == Some(sender) && after.owner() == Some(sender)
            && response@ == seq![("method"@, "instantiate"@), ("owner"@, sender)]
    }
}

/// What starting a match leaves behind. An opponent that is not an accepted
/// address is refused; then a barred host; then a host who has a match against
/// this opponent on record. Else the new match is on record, with the host's
/// move and nothing more, and the call reports method and host. After any
/// failure the ledger is as it was.
pub open spec fn game_started(
    before: Ledger,
    sender: Seq<char>,
    opponent: Seq<char>,
    host_move: GameMove,
    r: Result<Response, ContractError>,
    after: Ledger,
) -> bool {
    &&& after.hook_list() == before.hook_list()
    &&& after.admin() == before.admin()
    &&& after.version() == before.version()
    &&& after.owner() == before.owner()
    &&& r is Err ==> after == before
    &&& if !Ledger::accepts(opponent) {
        r matches Err(ContractError::Std(_))
    } else if before.barred().contains(sender) {
        r matches Err(ContractError::HostAddressBlacklisted)
    } else if before.games().contains_key((sender, opponent)) {
        r matches Err(ContractError::HostOpponentPairAlreadyHasGame)
    } else {
        r matches Ok(response) && after.games() == before.games().insert(
            (sender, opponent),
            GameStateView::opened(sender, opponent, host_move),
        ) && response@ == seq![("method"@, "start_game"@), ("host"@, sender)]
    }
}

/// What answering a match leaves behind. A host or an opponent that is not an
/// accepted address is refused; then a pair without a match on record. Else
/// the match on record holds the opponent's move and the outcome, and the call
/// reports method, sender and opponent. After any failure the ledger is as it
/// was.
pub open spec fn move_answered(
    before: Ledger,
    sender: Seq<char>,
    host: Seq<char>,
    opponent: Seq<char>,
    opponent_move: GameMove,
    r: Result<Response, ContractError>,
    after: Ledger,
) -> bool {
    &&& after.hook_list() == before.hook_list()
    &&& after.admin() == before.admin()
    &&& after.version() == before.version()
    &&& after.owner() == before.owner()
    &&& r is Err ==> after == before
    &&& if !Ledger::accepts(host) || !Ledger::accepts(opponent) {
        r matches Err(ContractError::Std(_))
    } else if !before.games().contains_key((host, opponent)) {
        r matches Err(ContractError::NoGameFoundForHostOpponentPair { host_address, opponent_address })
            && host_address@ == host && opponent_address@ == opponent
    } else {
        r matches Ok(response) && after.games() == before.games().insert(
            (host, opponent),
            before.games()[(host, opponent)].answered(opponent_move),
        ) && response@ == seq![
            ("method"@, "opponent_move"@),
            ("host"@, sender),
            ("opponent"@, opponent),
        ]
    }
}

/// What a command to bar a host leaves behind: an address that is not
/// accepted is refused, an accepted one is barred as `barred_added` says.
pub open spec fn hook_add_executed(
    before: Ledger,
    sender: Seq<char>,
    hook: Seq<char>,
    r: Result<Response, ContractError>,
    after: Ledger,
) -> bool {
    if Ledger::accepts(hook) {
        barred_added(before, sender, hook, r, after)
    } else {
        r matches Err(ContractError::Std(_)) && after == before
    }
}

/// What a command to lift a bar leaves behind: an address that is not
/// accepted is refused, for an accepted one the bar is lifted as
/// `barred_removed` says.
pub open spec fn hook_remove_executed(
    before: Ledger,
    sender: Seq<char>,
    hook: Seq<char>,
    r: Result<Response, ContractError>,
    after: Ledger,
) -> bool {
    if Ledger::accepts(hook) {
        barred_removed(before, sender, hook, r, after)
    } else {
        r matches Err(ContractError::Std(_)) && after == before
    }
}

/// What a command leaves behind, command by command.
pub open spec fn executed(
    before: Ledger,
    sender: Seq<char>,
    msg: ExecuteMsg,
    r: Result<Response, ContractError>,
    after: Ledger,
) -> bool {
    match msg {
        ExecuteMsg::StartGame { opponent, host_move } => game_started(
            before,
            sender,
            opponent@,
            host_move,
            r,
            after,
        ),
        ExecuteMsg::UpdateAdmin { admin } => admin_handed_on(before, sender, admin@, r, after),
        ExecuteMsg::AddHook { hook_address } => hook_add_executed(
            before,
            sender,
            hook_address@,
            r,
            after,
        ),
        ExecuteMsg::RemoveHook { hook_address } => hook_remove_executed(
            before,
            sender,
            hook_address@,
            r,
            after,
        ),
        ExecuteMsg::OpponentMove { host_address, opponent_address, opponent_move } => move_answered(
            before,
            sender,
            host_address@,
            opponent_address@,
            opponent_move,
            r,
            after,
        ),
    }
}

/// The answer to the question for one match: the match on record under the
/// pair, and where there is none the generic error that says so.
pub open spec fn game_found(
    games: Map<MatchKey, GameStateView>,
    host: Seq<char>,
    opponent: Seq<char>,
    r: Result<GameState, StdError>,
) -> bool {
    &&& r is Ok <==> games.contains_key((host, opponent))
    &&& r matches Ok(game) ==> game@ == games[(host, opponent)]
    &&& r matches Err(e) ==> e == generic_error("Game not found"@)
}

/// The answer to the question for the matches of one identity: an error for
/// an address that is not accepted. Else the matches it hosts, or those in
/// which it is the opponent, in the order of the store: each of them on
/// record under its own pair, none twice, none missing.
pub open spec fn games_found(
    deps: Ledger,
    host: bool,
    address: Seq<char>,
    r: Result<Vec<GameState>, StdError>,
) -> bool {
    let selection = if host {
        Selection::Host(address)
    } else {
        Selection::Opponent(address)
    };
    &&& r is Ok <==> Ledger::accepts(address)
    &&& r matches Ok(records) ==> views(records@) == deps.listing(selection) && lists_matches(
        views(records@),
        deps.games(),
        selection,
    )
}

/// The answer to the question for the administrator: the administrator, an
/// error before the contract was set up.
pub open spec fn admin_found(admin: Option<Seq<char>>, r: Result<String, StdError>) -> bool {
    &&& r is Ok <==> admin is Some
    &&& r matches Ok(address) ==> admin == Some(address@)
}

/// The answer to a question, question by question.
pub open spec fn answered(deps: Ledger, msg: QueryMsg, r: Result<QueryResponse, StdError>) -> bool {
    match msg {
        QueryMsg::GetGame { host_address, opponent_address } => match r {
            Ok(QueryResponse::Game(game)) => game_found(
                deps.games(),
                host_address@,
                opponent_address@,
                Ok(game),
            ),
            Ok(_) => false,
            Err(e) => game_found(deps.games(), host_address@, opponent_address@, Err(e)),
        },
        QueryMsg::GetGameByHost { host_address } => match r {
            Ok(QueryResponse::Games(records)) => games_found(
                deps,
                true,
                host_address@,
                Ok(records),
            ),
            Ok(_) => false,
            Err(e) => games_found(deps, true, host_address@, Err(e)),
        },
        QueryMsg::GetGameByOpponent { opponent_address } => match r {
            Ok(QueryResponse::Games(records)) => games_found(
                deps,
                false,
                opponent_address@,
                Ok(records),
            ),
            Ok(_) => false,
            Err(e) => games_found(deps, false, opponent_address@, Err(e)),
        },
        QueryMsg::GetAdmin {  } => match r {
            Ok(QueryResponse::Admin(address)) => admin_found(deps.admin(), Ok(address)),
            Ok(_) => false,
            Err(e) => admin_found(deps.admin(), Err(e)),
        },
    }
}

/// Whether `record` names `address` as its opponent.
pub open spec fn answers_to(address: Seq<char>) -> spec_fn(GameStateView) -> bool {
    |record: GameStateView| record.opponent_address == address
}

/// Sets the contract up: writes down its name and version, makes the sender
/// the administrator, and writes down the sender as the owner. A sender that
/// is not an accepted address is refused once name and version are written.
pub fn instantiate(deps: &mut Ledger, _env: Env, info: MessageInfo, msg: InstantiateMsg) -> (r: Result<
    Response,
    ContractError,
>)
    ensures
        set_up(*old(deps), info@, r, *final(deps)),
{
    let state = State { owner: info.sender().clone() };
    match deps.record_version(CONTRACT_NAME, CONTRACT_VERSION) {
        Ok(()) => {},
        Err(e) => {
            return Err(ContractError::Std(e));
        },
    }
    match deps.appoint(info.sender().clone()) {
        Ok(()) => {},
        Err(e) => {
            return Err(ContractError::Std(e));
        },
    }
    match deps.record_owner(&state) {
        Ok(()) => {},
        Err(e) => {
            return Err(ContractError::Std(e));
        },
    }
    let response = Response::new().add_attribute("method", "instantiate").add_attribute(
        "owner",
        info.sender().as_str(),
    );
    assert(response@ =~= seq![("method"@, "instantiate"@), ("owner"@, info@)]);
    Ok(response)
}

/// Carries out one command.
pub fn execute(deps: &mut Ledger, _env: Env, info: MessageInfo, msg: ExecuteMsg) -> (r: Result<
    Response,
    ContractError,
>)
    ensures
        executed(*old(deps), info@, msg, r, *final(deps)),
{
    match msg {
        ExecuteMsg::StartGame { opponent, host_move } => try_start_game(
            deps,
            info,
            opponent,
            host_move,
        ),
        ExecuteMsg::UpdateAdmin { admin } => try_update_admin(deps, info, admin),
        ExecuteMsg::AddHook { hook_address } => {
            match deps.validate(hook_address.as_str()) {
                Ok(hook) => deps.add_hook(info.sender().as_str(), hook),
                Err(e) => Err(ContractError::Std(e)),
            }
        },
        ExecuteMsg::RemoveHook { hook_address } => {
            match deps.validate(hook_address.as_str()) {
                Ok(hook) => deps.remove_hook(info.sender().as_str(), hook),
                Err(e) => Err(ContractError::Std(e)),
            }
        },
        ExecuteMsg::OpponentMove { host_address, opponent_address, opponent_move } => {
            try_opponent_move(deps, info, host_address, opponent_address, opponent_move)
        },
    }
}

/// Records the opponent's move in the match of `host_address` against
/// `opponent_address`, together with the outcome. Anyone may send it, and a
/// second answer replaces the first. A move is one of the three by its type,
/// so none is refused as invalid.
pub fn try_opponent_move(
    deps: &mut Ledger,
    info: MessageInfo,
    host_address: String,
    opponent_address: String,
    opponent_move: GameMove,
) -> (r: Result<Response, ContractError>)
    ensures
        move_answered(
            *old(deps),
            info@,
            host_address@,
            opponent_address@,
            opponent_move,
            r,
            *final(deps),
        ),
{
    proof {
        use_type_invariant(&*deps);
        deps.lemma_games_in_order();
    }
    let host = match deps.validate(host_address.as_str()) {
        Ok(host) => host,
        Err(e) => {
            return Err(ContractError::Std(e));
        },
    };
    let opponent = match deps.validate(opponent_address.as_str()) {
        Ok(opponent) => opponent,
        Err(e) => {
            return Err(ContractError::Std(e));
        },
    };
    if query_game(deps, host.clone(), opponent.clone()).is_err() {
        return Err(
            ContractError::NoGameFoundForHostOpponentPair {
                host_address: host,
                opponent_address: opponent,
            },
        );
    }
    match deps.upsert_if(&host, &opponent, Step::Close(opponent_move)) {
        Ok(_) => {
            let response = Response::new().add_attribute("method", "opponent_move").add_attribute(
                "host",
                info.sender().as_str(),
            ).add_attribute("opponent", opponent.as_str());
            assert(response@ =~= seq![
                ("method"@, "opponent_move"@),
                ("host"@, info@),
                ("opponent"@, opponent@),
            ]);
            Ok(response)
        },
        Err(e) => Err(e),
    }
}

/// Hands the administrator's role to `admin`.
pub fn try_update_admin(deps: &mut Ledger, info: MessageInfo, admin: String) -> (r: Result<
    Response,
    ContractError,
>)
    ensures
        admin_handed_on(*old(deps), info@, admin@, r, *final(deps)),
{
    deps.update_admin(info.sender().as_str(), admin)
}

/// Whether `who` is one of `list`.
pub fn is_listed(list: &Vec<String>, who: &String) -> (r: bool)
    ensures
        r == texts(list@).contains(who@),
{
    let mut i: usize = 0;
    while i < list.len()
        invariant
            i <= list@.len(),
            forall|j: int| 0 <= j < i ==> texts(list@)[j] != who@,
        decreases list@.len() - i,
    {
        if list[i] == *who {
            assert(texts(list@)[i as int] == who@);
            return true;
        }
        i += 1;
    }
    false
}

/// Starts a match of the sender against `opponent` with the sender's move.
pub fn try_start_game(deps: &mut Ledger, info: MessageInfo, opponent: String, host_move: GameMove) -> (r:
    Result<Response, ContractError>)
    ensures
        game_started(*old(deps), info@, opponent@, host_move, r, *final(deps)),
{
    let opponent_address = match deps.validate(opponent.as_str()) {
        Ok(opponent_address) => opponent_address,
        Err(e) => {
            return Err(ContractError::Std(e));
        },
    };
    let hooks = match deps.blocked_hosts() {
        Ok(hooks) => hooks,
        Err(e) => {
            return Err(ContractError::Std(e));
        },
    };
    if is_listed(&hooks, info.sender()) {
        return Err(ContractError::HostAddressBlacklisted);
    }
    match deps.upsert_if(info.sender(), &opponent_address, Step::Open(host_move)) {
        Ok(_) => {
            let response = Response::new().add_attribute("method", "start_game").add_attribute(
                "host",
                info.sender().as_str(),
            );
            assert(response@ =~= seq![("method"@, "start_game"@), ("host"@, info@)]);
            Ok(response)
        },
        Err(e) => Err(e),
    }
}

/// Answers one question.
pub fn query(deps: &Ledger, _env: Env, msg: QueryMsg) -> (r: Result<QueryResponse, StdError>)
    ensures
        answered(*deps, msg, r),
{
    match msg {
        QueryMsg::GetGame { host_address, opponent_address } => {
            match query_game(deps, host_address, opponent_address) {
                Ok(game) => Ok(QueryResponse::Game(game)),
                Err(e) => Err(e),
            }
        },
        QueryMsg::GetGameByHost { host_address } => {
            match query_game_by_address(deps, true, host_address) {
                Ok(records) => Ok(QueryResponse::Games(records)),
                Err(e) => Err(e),
            }
        },
        QueryMsg::GetGameByOpponent { opponent_address } => {
            match query_game_by_address(deps, false, opponent_address) {
                Ok(records) => Ok(QueryResponse::Games(records)),
                Err(e) => Err(e),
            }
        },
        QueryMsg::GetAdmin {  } => {
            match query_admin(deps) {
                Ok(address) => Ok(QueryResponse::Admin(address)),
                Err(e) => Err(e),
            }
        },
    }
}

/// The administrator.
pub fn query_admin(deps: &Ledger) -> (r: Result<String, StdError>)
    ensures
        admin_found(deps.admin(), r),
{
    deps.query_admin()
}

/// The match of `host_address` against `opponent_address`.
pub fn query_game(deps: &Ledger, host_address: String, opponent_address: String) -> (r: Result<
    GameState,
    StdError,
>)
    ensures
        game_found(deps.games(), host_address@, opponent_address@, r),
{
    match deps.get(&host_address, &opponent_address) {
        Some(game_state) => Ok(
            GameState {
                host_address: game_state.host_address,
                opponent_address: game_state.opponent_address,
                host_move: game_state.host_move,
                opponent_move: game_state.opponent_move,
                result: game_state.result,
            },
        ),
        None => Err(generic_err("Game not found")),
    }
}

/// The records of `all` that name `address` as their opponent, in the order
/// they have in `all`.
pub fn select_by_opponent(all: &Vec<GameState>, address: &String) -> (r: Vec<GameState>)
    ensures
        views(r@) == views(all@).filter(answers_to(address@)),
{
    let mut game_states: Vec<GameState> = Vec::new();
    let mut i: usize = 0;
    assert(views(all@).take(0) =~= Seq::<GameStateView>::empty());
    reveal(Seq::filter);
    while i < all.len()
        invariant
            i <= all@.len(),
            views(game_states@) == views(all@).take(i as int).filter(answers_to(address@)),
        decreases all@.len() - i,
    {
        let ghost before = views(all@).take(i as int);
        let ghost kept = views(game_states@);
        if all[i].opponent_address == *address {
            game_states.push(all[i].duplicate());
            assert(views(game_states@) =~= kept.push(all@[i as int]@));
        }
        i += 1;
        proof {
            let now = views(all@).take(i as int);
            assert(now.drop_last() =~= before);
            assert(now.last() == all@[i - 1]@);
            reveal(Seq::filter);
        }
    }
    assert(views(all@).take(all@.len() as int) =~= views(all@));
    game_states
}

/// The matches that `address` hosts, or those in which it is the opponent.
pub fn query_game_by_address(deps: &Ledger, host: bool, address: String) -> (r: Result<
    Vec<GameState>,
    StdError,
>)
    ensures
        games_found(*deps, host, address@, r),
{
    let address = match deps.validate(address.as_str()) {
        Ok(address) => address,
        Err(e) => {
            return Err(e);
        },
    };
    proof {
        use_type_invariant(deps);
        deps.lemma_games_in_order();
        deps.lemma_order_is_exact();
        deps.lemma_listing_is_exact(Selection::Host(address@));
        deps.lemma_listing_is_exact(Selection::Opponent(address@));
    }
    if host {
        deps.scan_by_host_prefix(&address)
    } else {
        match deps.scan_all() {
            Ok(all) => {
                let game_states = select_by_opponent(&all, &address);
                proof {
                    let order = deps.order();
                    let record = |key: MatchKey| deps.games()[key];
                    lemma_filter_keeps_all(order, Selection::All.chooser());
                    assert forall|i: int| 0 <= i < order.len() implies answers_to(address@)(
                        record(#[trigger] order[i]),
                    ) == Selection::Opponent(address@).chooser()(order[i]) by {
                        assert(order.contains(order[i]));
                    }
                    lemma_filter_of_images(
                        order,
                        record,
                        Selection::Opponent(address@).chooser(),
                        answers_to(address@),
                    );
                }
                Ok(game_states)
            },
            Err(e) => Err(e),
        }
    }
}

} // verus!
