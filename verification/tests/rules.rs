use rock_paper_scissors::contract::{is_listed, select_by_opponent};
use rock_paper_scissors::error::ContractError;
use rock_paper_scissors::ledger::{key_fits, Ledger};
use rock_paper_scissors::msg::{Attribute, Response};
use rock_paper_scissors::record::{
    advance, decode_move, decode_result, encode_move, encode_result, from_stored, read_stored,
    to_stored, Step,
};
use rock_paper_scissors::state::{resolve, update_opponent_move, GameMove, GameResult, GameState};

fn record(
    host: &str,
    opponent: &str,
    host_move: Option<GameMove>,
    opponent_move: Option<GameMove>,
    result: Option<GameResult>,
) -> GameState {
    GameState {
        host_address: host.to_string(),
        opponent_address: opponent.to_string(),
        host_move,
        opponent_move,
        result,
    }
}

#[test]
fn resolve_covers_all_nine_pairs() {
    assert_eq!(resolve(GameMove::Rock, GameMove::Rock), GameResult::Tie);
    assert_eq!(resolve(GameMove::Rock, GameMove::Paper), GameResult::OpponentWins);
    assert_eq!(resolve(GameMove::Rock, GameMove::Scissors), GameResult::HostWins);
    assert_eq!(resolve(GameMove::Paper, GameMove::Rock), GameResult::HostWins);
    assert_eq!(resolve(GameMove::Paper, GameMove::Paper), GameResult::Tie);
    assert_eq!(resolve(GameMove::Paper, GameMove::Scissors), GameResult::OpponentWins);
    assert_eq!(resolve(GameMove::Scissors, GameMove::Rock), GameResult::OpponentWins);
    assert_eq!(resolve(GameMove::Scissors, GameMove::Paper), GameResult::HostWins);
    assert_eq!(resolve(GameMove::Scissors, GameMove::Scissors), GameResult::Tie);
}

#[test]
fn resolve_is_mirrored_when_the_moves_are_swapped() {
    let moves = [GameMove::Rock, GameMove::Paper, GameMove::Scissors];
    for a in moves {
        for b in moves {
            let forward = resolve(a, b);
            let backward = resolve(b, a);
            match forward {
                GameResult::HostWins => assert_eq!(backward, GameResult::OpponentWins),
                GameResult::OpponentWins => assert_eq!(backward, GameResult::HostWins),
                GameResult::Tie => {
                    assert_eq!(backward, GameResult::Tie);
                    assert_eq!(a, b);
                }
            }
        }
    }
}

#[test]
fn update_opponent_move_sets_the_result_only() {
    let before = record("host", "opponent", Some(GameMove::Scissors), None, None);
    let after = update_opponent_move(before, GameMove::Rock);
    assert_eq!(
        after,
        record("host", "opponent", Some(GameMove::Scissors), None, Some(GameResult::OpponentWins))
    );
}

#[test]
fn update_opponent_move_replaces_an_earlier_result() {
    let before = record(
        "host",
        "opponent",
        Some(GameMove::Paper),
        Some(GameMove::Rock),
        Some(GameResult::HostWins),
    );
    let after = update_opponent_move(before, GameMove::Paper);
    assert_eq!(after.result, Some(GameResult::Tie));
    assert_eq!(after.opponent_move, Some(GameMove::Rock));
}

#[test]
fn move_codes_are_as_documented() {
    assert_eq!(encode_move(None), 0);
    assert_eq!(encode_move(Some(GameMove::Rock)), 1);
    assert_eq!(encode_move(Some(GameMove::Paper)), 2);
    assert_eq!(encode_move(Some(GameMove::Scissors)), 3);
    assert_eq!(decode_move(0), None);
    assert_eq!(decode_move(1), Some(GameMove::Rock));
    assert_eq!(decode_move(2), Some(GameMove::Paper));
    assert_eq!(decode_move(3), Some(GameMove::Scissors));
    assert_eq!(decode_move(4), None);
    assert_eq!(decode_move(255), None);
}

#[test]
fn result_codes_are_as_documented() {
    assert_eq!(encode_result(None), 0);
    assert_eq!(encode_result(Some(GameResult::HostWins)), 1);
    assert_eq!(encode_result(Some(GameResult::OpponentWins)), 2);
    assert_eq!(encode_result(Some(GameResult::Tie)), 3);
    assert_eq!(decode_result(0), None);
    assert_eq!(decode_result(1), Some(GameResult::HostWins));
    assert_eq!(decode_result(2), Some(GameResult::OpponentWins));
    assert_eq!(decode_result(3), Some(GameResult::Tie));
    assert_eq!(decode_result(4), None);
}

#[test]
fn stored_form_reads_back_as_the_same_match() {
    let games = [
        record("host", "opponent", Some(GameMove::Rock), None, None),
        record(
            "alice",
            "bobby",
            Some(GameMove::Paper),
            Some(GameMove::Scissors),
            Some(GameResult::OpponentWins),
        ),
        record("", "", None, None, None),
    ];
    for g in games {
        let stored = to_stored(g.clone());
        assert_eq!(read_stored(&stored), g);
        assert_eq!(from_stored(stored), g);
    }
    assert_eq!(
        to_stored(record("h", "o", Some(GameMove::Scissors), Some(GameMove::Rock), Some(GameResult::Tie))),
        ("h".to_string(), "o".to_string(), 3, 1, 3)
    );
}

#[test]
fn opening_step_refuses_a_key_that_is_taken() {
    let host = "host".to_string();
    let opponent = "opponent".to_string();
    let opened = advance(None, &host, &opponent, &Step::Open(GameMove::Paper));
    assert_eq!(opened, Ok(("host".to_string(), "opponent".to_string(), 2, 0, 0)));
    let again = advance(opened.ok(), &host, &opponent, &Step::Open(GameMove::Rock));
    assert_eq!(again, Err(ContractError::HostOpponentPairAlreadyHasGame));
}

#[test]
fn closing_step_refuses_a_key_that_is_free() {
    let host = "host".to_string();
    let opponent = "opponent".to_string();
    let missing = advance(None, &host, &opponent, &Step::Close(GameMove::Rock));
    assert_eq!(
        missing,
        Err(ContractError::NoGameFoundForHostOpponentPair {
            host_address: "host".to_string(),
            opponent_address: "opponent".to_string()
        })
    );
    let found = Some(("host".to_string(), "opponent".to_string(), 1, 0, 0));
    let closed = advance(found, &host, &opponent, &Step::Close(GameMove::Paper));
    assert_eq!(closed, Ok(("host".to_string(), "opponent".to_string(), 1, 2, 2)));
}

#[test]
fn closing_step_files_the_match_under_the_key_it_was_asked_for() {
    let host = "host".to_string();
    let opponent = "opponent".to_string();
    let found = Some(("other".to_string(), "names".to_string(), 3, 0, 0));
    let closed = advance(found, &host, &opponent, &Step::Close(GameMove::Paper));
    assert_eq!(closed, Ok(("host".to_string(), "opponent".to_string(), 3, 2, 1)));
}

#[test]
fn is_listed_finds_exact_entries_only() {
    let list = vec!["alice".to_string(), "bobby".to_string()];
    assert!(is_listed(&list, &"alice".to_string()));
    assert!(is_listed(&list, &"bobby".to_string()));
    assert!(!is_listed(&list, &"alic".to_string()));
    assert!(!is_listed(&list, &"Alice".to_string()));
    assert!(!is_listed(&Vec::new(), &"alice".to_string()));
}

#[test]
fn select_by_opponent_keeps_order_and_drops_the_rest() {
    let all = vec![
        record("alice", "zed", Some(GameMove::Rock), None, None),
        record("alice", "bobby", Some(GameMove::Rock), None, None),
        record("bobby", "zed", Some(GameMove::Paper), None, None),
        record("zed", "alice", Some(GameMove::Paper), None, None),
    ];
    let kept = select_by_opponent(&all, &"zed".to_string());
    assert_eq!(kept, vec![all[0].clone(), all[2].clone()]);
    assert!(select_by_opponent(&all, &"nobody".to_string()).is_empty());
    assert!(select_by_opponent(&Vec::new(), &"zed".to_string()).is_empty());
}

#[test]
fn key_fits_up_to_65535_bytes() {
    assert!(key_fits(""));
    assert!(key_fits(&"a".repeat(0xFFFF)));
    assert!(!key_fits(&"a".repeat(0x10000)));
    // two bytes each
    assert!(!key_fits(&"\u{e9}".repeat(0x8000)));
    assert!(key_fits(&"\u{e9}".repeat(0x7FFF)));
}

#[test]
fn response_collects_attributes_in_order() {
    let r = Response::new();
    assert!(r.attributes.is_empty());
    let r = r.add_attribute("method", "start_game").add_attribute("host", "alice");
    assert_eq!(
        r.attributes,
        vec![
            Attribute { key: "method".to_string(), value: "start_game".to_string() },
            Attribute { key: "host".to_string(), value: "alice".to_string() }
        ]
    );
    let pairs = vec![("a".to_string(), "1".to_string()), ("b".to_string(), "2".to_string())];
    assert_eq!(
        Response::from_pairs(&pairs).attributes,
        vec![
            Attribute { key: "a".to_string(), value: "1".to_string() },
            Attribute { key: "b".to_string(), value: "2".to_string() }
        ]
    );
}

#[test]
fn duplicate_copies_every_field() {
    let g = record(
        "alice",
        "bobby",
        Some(GameMove::Paper),
        Some(GameMove::Scissors),
        Some(GameResult::OpponentWins),
    );
    assert_eq!(g.duplicate(), g);
}

#[test]
fn ledger_store_operations_agree() {
    let mut deps = Ledger::new();
    let host = "host".to_string();
    let opponent = "opponent".to_string();
    assert_eq!(deps.get(&host, &opponent), None);
    assert!(deps.scan_all().unwrap().is_empty());
    let opened = deps.upsert_if(&host, &opponent, Step::Open(GameMove::Scissors)).unwrap();
    assert_eq!(opened, record("host", "opponent", Some(GameMove::Scissors), None, None));
    assert_eq!(deps.get(&host, &opponent), Some(opened.clone()));
    assert_eq!(deps.get(&opponent, &host), None);
    assert_eq!(deps.scan_all().unwrap(), vec![opened.clone()]);
    assert_eq!(deps.scan_by_host_prefix(&host).unwrap(), vec![opened]);
    assert!(deps.scan_by_host_prefix(&opponent).unwrap().is_empty());
    assert!(deps.scan_by_host_prefix(&"h".repeat(0x10000)).unwrap().is_empty());
    let closed = deps.upsert_if(&host, &opponent, Step::Close(GameMove::Paper)).unwrap();
    assert_eq!(
        closed,
        record(
            "host",
            "opponent",
            Some(GameMove::Scissors),
            Some(GameMove::Paper),
            Some(GameResult::HostWins)
        )
    );
    assert_eq!(deps.get(&host, &opponent), Some(closed));
    assert_eq!(
        deps.upsert_if(&opponent, &host, Step::Close(GameMove::Paper)),
        Err(ContractError::NoGameFoundForHostOpponentPair {
            host_address: "opponent".to_string(),
            opponent_address: "host".to_string()
        })
    );
    assert_eq!(deps.get(&opponent, &host), None);
    assert_eq!(
        deps.upsert_if(&host, &opponent, Step::Open(GameMove::Rock)),
        Err(ContractError::HostOpponentPairAlreadyHasGame)
    );
}

#[test]
fn ledger_validates_addresses() {
    let deps = Ledger::new();
    assert_eq!(deps.validate("host").unwrap(), "host");
    assert_eq!(deps.validate("new_admin").unwrap(), "new_admin");
    assert!(deps.validate("").is_err());
    assert!(deps.validate("ab").is_err());
    assert!(deps.validate("Host").is_err());
    assert!(deps.validate(&"a".repeat(91)).is_err());
    assert!(deps.validate(&"a".repeat(90)).is_ok());
}

#[test]
fn ledger_moderation_operations_agree() {
    let mut deps = Ledger::new();
    assert!(deps.blocked_hosts().unwrap().is_empty());
    assert!(deps.query_admin().is_err());
    assert!(deps.appoint("No".to_string()).is_err());
    assert!(deps.query_admin().is_err());
    deps.appoint("admin".to_string()).unwrap();
    assert_eq!(deps.query_admin().unwrap(), "admin");
    deps.add_hook("admin", "alice".to_string()).unwrap();
    deps.add_hook("admin", "bobby".to_string()).unwrap();
    deps.add_hook("admin", "carol".to_string()).unwrap();
    assert_eq!(deps.blocked_hosts().unwrap(), vec!["alice", "bobby", "carol"]);
    deps.remove_hook("admin", "bobby".to_string()).unwrap();
    assert_eq!(deps.blocked_hosts().unwrap(), vec!["alice", "carol"]);
    assert_eq!(deps.add_hook("alice", "dave".to_string()), Err(ContractError::Unauthorized));
    assert_eq!(deps.remove_hook("alice", "alice".to_string()), Err(ContractError::Unauthorized));
    assert_eq!(deps.blocked_hosts().unwrap(), vec!["alice", "carol"]);
    deps.update_admin("admin", "alice".to_string()).unwrap();
    assert_eq!(deps.query_admin().unwrap(), "alice");
    assert_eq!(
        deps.update_admin("admin", "admin".to_string()),
        Err(ContractError::Unauthorized)
    );
}

#[test]
fn ledger_keeps_unusual_text_as_it_was_written() {
    let mut deps = Ledger::new();
    let host = "a\"b\\c\n\t\u{0}\u{7f}\u{e9}\u{1F600}".to_string();
    let opponent = "".to_string();
    let other = "{\"x\":[1,2]}".to_string();
    let first = deps.upsert_if(&host, &opponent, Step::Open(GameMove::Rock)).unwrap();
    let second = deps.upsert_if(&host, &other, Step::Open(GameMove::Paper)).unwrap();
    let third = deps.upsert_if(&other, &host, Step::Open(GameMove::Scissors)).unwrap();
    assert_eq!(first, record(&host, &opponent, Some(GameMove::Rock), None, None));
    assert_eq!(deps.get(&host, &opponent), Some(first.clone()));
    assert_eq!(deps.get(&host, &other), Some(second.clone()));
    assert_eq!(deps.get(&other, &host), Some(third.clone()));
    assert_eq!(deps.scan_by_host_prefix(&host).unwrap(), vec![first.clone(), second.clone()]);
    assert_eq!(deps.scan_by_host_prefix(&other).unwrap(), vec![third.clone()]);
    let all = deps.scan_all().unwrap();
    assert_eq!(all.len(), 3);
    assert!(all.contains(&first) && all.contains(&second) && all.contains(&third));
}

#[test]
fn listings_come_in_the_same_order_every_time() {
    let mut deps = Ledger::new();
    let names = ["delta", "alpha", "charlie", "bravo"];
    for host in names {
        for opponent in names {
            deps.upsert_if(&host.to_string(), &opponent.to_string(), Step::Open(GameMove::Rock))
                .unwrap();
        }
    }
    let all = deps.scan_all().unwrap();
    assert_eq!(all.len(), 16);
    assert_eq!(deps.scan_all().unwrap(), all);
    for name in names {
        let hosted: Vec<GameState> =
            all.iter().filter(|g| g.host_address == name).cloned().collect();
        assert_eq!(deps.scan_by_host_prefix(&name.to_string()).unwrap(), hosted);
        let answering: Vec<GameState> =
            all.iter().filter(|g| g.opponent_address == name).cloned().collect();
        assert_eq!(select_by_opponent(&all, &name.to_string()), answering);
        assert_eq!(hosted.len(), 4);
        assert_eq!(answering.len(), 4);
    }
}

#[test]
fn hosts_of_different_lengths_do_not_share_listings() {
    let mut deps = Ledger::new();
    deps.upsert_if(&"ab".to_string(), &"cd".to_string(), Step::Open(GameMove::Rock)).unwrap();
    deps.upsert_if(&"a".to_string(), &"bcd".to_string(), Step::Open(GameMove::Paper)).unwrap();
    deps.upsert_if(&"abc".to_string(), &"d".to_string(), Step::Open(GameMove::Scissors)).unwrap();
    assert_eq!(
        deps.scan_by_host_prefix(&"a".to_string()).unwrap(),
        vec![record("a", "bcd", Some(GameMove::Paper), None, None)]
    );
    assert_eq!(
        deps.scan_by_host_prefix(&"ab".to_string()).unwrap(),
        vec![record("ab", "cd", Some(GameMove::Rock), None, None)]
    );
    assert_eq!(deps.get(&"ab".to_string(), &"c".to_string()), None);
    assert_eq!(deps.get(&"abc".to_string(), &"d".to_string()).unwrap().host_move, Some(GameMove::Scissors));
}
