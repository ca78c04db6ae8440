use guess_game::service::{
    compare_guess, guess_from, guess_in, reveal_from, reveal_in, store_failure, ErrorKind,
    GameError, GameService, GuessOutcome,
};
use guess_game::store::{GameStore, StoreError};
use guess_game::table::{GameTable, SECRET_BOUND};
use std::sync::Arc;

fn table_with(id: &str, secret: u32) -> GameTable {
    let mut t = GameTable::new();
    assert!(t.insert_new(id.to_string(), secret));
    t
}

fn is_uuid_text(s: &str) -> bool {
    s.len() == 36
        && s.chars().enumerate().all(|(i, c)| {
            if i == 8 || i == 13 || i == 18 || i == 23 {
                c == '-'
            } else {
                c.is_ascii_digit() || ('a'..='f').contains(&c)
            }
        })
}

#[test]
fn new_table_is_empty() {
    let t = GameTable::new();
    assert_eq!(t.len(), 0);
    assert_eq!(t.lookup("g1"), None);
}

#[test]
fn table_insert_then_lookup() {
    let t = table_with("g1", 7);
    assert_eq!(t.len(), 1);
    assert_eq!(t.lookup("g1"), Some(7));
    assert_eq!(t.lookup("g2"), None);
}

#[test]
fn table_never_overwrites() {
    let mut t = table_with("g1", 7);
    assert!(!t.insert_new("g1".to_string(), 3));
    assert_eq!(t.lookup("g1"), Some(7));
    assert_eq!(t.len(), 1);
}

#[test]
fn compare_guess_three_ways() {
    assert_eq!(compare_guess(7, 7), GuessOutcome::Correct);
    assert_eq!(compare_guess(7, 10), GuessOutcome::TooHigh);
    assert_eq!(compare_guess(7, 3), GuessOutcome::TooLow);
    assert_eq!(compare_guess(0, 0), GuessOutcome::Correct);
    assert_eq!(compare_guess(0, u32::MAX), GuessOutcome::TooHigh);
    assert_eq!(compare_guess(19, 0), GuessOutcome::TooLow);
}

#[test]
fn scenario_on_table() {
    let t = table_with("g1", 7);
    assert_eq!(guess_in(&t, "g1", 7), Ok(GuessOutcome::Correct));
    assert_eq!(guess_in(&t, "g1", 10), Ok(GuessOutcome::TooHigh));
    assert_eq!(guess_in(&t, "g1", 3), Ok(GuessOutcome::TooLow));
    assert_eq!(reveal_in(&t, "g1"), Ok(7));
    let e = reveal_in(&t, "missing-id").unwrap_err();
    assert_eq!(e, GameError::InvalidGame { game_id: "missing-id".to_string() });
    assert_eq!(e.kind(), ErrorKind::InvalidGame);
    assert_eq!(e.game_id(), Some("missing-id"));
}

#[test]
fn scenario_on_service() {
    let svc = GameService::new();
    assert_eq!(svc.create_game_with("g1".to_string(), 7), Ok("g1".to_string()));
    assert_eq!(svc.submit_guess("g1", 7), Ok(GuessOutcome::Correct));
    assert_eq!(svc.submit_guess("g1", 10), Ok(GuessOutcome::TooHigh));
    assert_eq!(svc.submit_guess("g1", 3), Ok(GuessOutcome::TooLow));
    let e = svc.reveal_secret("missing-id").unwrap_err();
    assert_eq!(e.kind(), ErrorKind::InvalidGame);
    assert_eq!(e, GameError::InvalidGame { game_id: "missing-id".to_string() });
}

#[test]
fn guess_exhaustive_over_range() {
    let secret = 11;
    let svc = GameService::new();
    svc.create_game_with("fixed".to_string(), secret).unwrap();
    for v in 0..SECRET_BOUND {
        let expected = if v == secret {
            GuessOutcome::Correct
        } else if v > secret {
            GuessOutcome::TooHigh
        } else {
            GuessOutcome::TooLow
        };
        assert_eq!(svc.submit_guess("fixed", v), Ok(expected));
    }
}

#[test]
fn created_ids_are_distinct_and_url_safe() {
    let svc = GameService::new();
    let mut ids: Vec<String> = Vec::new();
    for _ in 0..200 {
        let id = svc.create_game().unwrap();
        assert!(is_uuid_text(&id));
        assert!(!ids.contains(&id));
        ids.push(id);
    }
}

#[test]
fn created_game_reveals_secret_in_range() {
    let svc = GameService::new();
    for _ in 0..200 {
        let id = svc.create_game().unwrap();
        let s = svc.reveal_secret(&id).unwrap();
        assert!(s < SECRET_BOUND);
        assert!(s < 20);
    }
}

#[test]
fn unknown_id_fails_both_operations() {
    let svc = GameService::new();
    svc.create_game().unwrap();
    assert_eq!(
        svc.reveal_secret("nope"),
        Err(GameError::InvalidGame { game_id: "nope".to_string() })
    );
    for v in [0, 5, 19, 20, u32::MAX] {
        let e = svc.submit_guess("nope", v).unwrap_err();
        assert_eq!(e.kind(), ErrorKind::GuessDataMissingForGame);
        assert_eq!(e, GameError::GuessDataMissingForGame { game_id: "nope".to_string() });
    }
}

#[test]
fn repeated_reveal_is_stable() {
    let svc = GameService::new();
    let id = svc.create_game().unwrap();
    let first = svc.reveal_secret(&id).unwrap();
    for _ in 0..10 {
        svc.create_game().unwrap();
        assert_eq!(svc.reveal_secret(&id), Ok(first));
    }
}

#[test]
fn concurrent_creates_are_unique_and_revealable() {
    let svc = Arc::new(GameService::new());
    let rt = tokio::runtime::Builder::new_multi_thread()
        .worker_threads(4)
        .build()
        .unwrap();
    let n = 64;
    let created: Vec<(String, u32)> = rt.block_on(async {
        let mut tasks = Vec::new();
        for _ in 0..n {
            let svc = Arc::clone(&svc);
            tasks.push(tokio::spawn(async move {
                let id = svc.create_game().unwrap();
                let s = svc.reveal_secret(&id).unwrap();
                (id, s)
            }));
        }
        let mut out = Vec::new();
        for t in tasks {
            out.push(t.await.unwrap());
        }
        out
    });
    assert_eq!(created.len(), n);
    for (i, (id, s)) in created.iter().enumerate() {
        assert!(created[i + 1..].iter().all(|(other, _)| other != id));
        assert_eq!(svc.reveal_secret(id), Ok(*s));
    }
}

#[test]
fn taken_identifier_is_unknown_error() {
    let svc = GameService::new();
    svc.create_game_with("g1".to_string(), 7).unwrap();
    assert_eq!(svc.create_game_with("g1".to_string(), 2), Err(GameError::Unknown));
    assert_eq!(svc.reveal_secret("g1"), Ok(7));
}

#[test]
fn store_level_operations() {
    let store = GameStore::new();
    assert_eq!(store.get("g1"), Ok(None));
    assert_eq!(store.create_with_id("g1".to_string(), 4), Ok("g1".to_string()));
    assert_eq!(store.get("g1"), Ok(Some(4)));
    assert_eq!(
        store.create_with_id("g1".to_string(), 5),
        Err(StoreError::IdentifierTaken)
    );
    let id = store.create(19).unwrap();
    assert!(is_uuid_text(&id));
    assert_eq!(store.get(&id), Ok(Some(19)));
}

#[test]
fn store_failures_classified() {
    assert_eq!(store_failure(StoreError::Unavailable), GameError::StoreUnavailable);
    assert_eq!(store_failure(StoreError::IdentifierTaken), GameError::Unknown);
    assert_eq!(store_failure(StoreError::Unavailable).kind(), ErrorKind::StoreUnavailable);
    assert_eq!(GameError::StoreUnavailable.game_id(), None);
    assert_eq!(GameError::default(), GameError::Unknown);
    assert_eq!(GameError::default().kind(), ErrorKind::Unknown);
}

#[test]
fn outcomes_from_lookup_results() {
    assert_eq!(reveal_from("a", Ok(Some(3))), Ok(3));
    assert_eq!(
        reveal_from("a", Ok(None)),
        Err(GameError::InvalidGame { game_id: "a".to_string() })
    );
    assert_eq!(reveal_from("a", Err(StoreError::Unavailable)), Err(GameError::StoreUnavailable));
    assert_eq!(guess_from("a", 3, Ok(Some(3))), Ok(GuessOutcome::Correct));
    assert_eq!(guess_from("a", 4, Ok(Some(3))), Ok(GuessOutcome::TooHigh));
    assert_eq!(guess_from("a", 2, Ok(Some(3))), Ok(GuessOutcome::TooLow));
    assert_eq!(
        guess_from("a", 2, Ok(None)),
        Err(GameError::GuessDataMissingForGame { game_id: "a".to_string() })
    );
    assert_eq!(
        guess_from("a", 2, Err(StoreError::Unavailable)),
        Err(GameError::StoreUnavailable)
    );
    assert_eq!(
        guess_from("a", 2, Err(StoreError::IdentifierTaken)),
        Err(GameError::Unknown)
    );
}
