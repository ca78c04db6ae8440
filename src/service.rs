use crate::store::{is_game_id, GameStore, StoreError};
use crate::table::{lookup_of, GameTable, SECRET_BOUND};
use vstd::prelude::*;

verus! {

/// How a guess compares with the secret.
#[derive(Debug, Clone, Copy, PartialEq, Eq, Structural)]
pub enum GuessOutcome {
    Correct,
    /// The guess is greater than the secret.
    TooHigh,
    /// The guess is less than the secret.
    TooLow,
}

/// The stable tag of an error, from which a transport layer can choose a
/// status without reading messages.
#[derive(Debug, Clone, Copy, PartialEq, Eq, Structural)]
pub enum ErrorKind {
    InvalidGame,
    GuessDataMissingForGame,
    StoreUnavailable,
    Unknown,
}

/// An error of the game operations, with the identifier that caused it
/// where there is one.
#[derive(Debug, Clone, PartialEq, Eq)]
pub enum GameError {
    /// A reveal named a game that does not exist.
    InvalidGame { game_id: String },
    /// A guess named a game that does not exist.
    GuessDataMissingForGame { game_id: String },
    /// The store itself could not be used.
    StoreUnavailable,
    /// A failure that fits no other kind.
    Unknown,
}

impl GameError {
    pub open spec fn kind_of(&self) -> ErrorKind {
        match self {
            GameError::InvalidGame { .. } => ErrorKind::InvalidGame,
            GameError::GuessDataMissingForGame { .. } => ErrorKind::GuessDataMissingForGame,
            GameError::StoreUnavailable => ErrorKind::StoreUnavailable,
            GameError::Unknown => ErrorKind::Unknown,
        }
    }

    /// The identifier the error carries, if its kind carries one.
    pub open spec fn id_of(&self) -> Option<Seq<char>> {
        match self {
            GameError::InvalidGame { game_id } => Some(game_id@),
            GameError::GuessDataMissingForGame { game_id } => Some(game_id@),
            _ => None,
        }
    }

    /// The error is of `kind` and carries the identifier `id`.
    pub open spec fn names(&self, kind: ErrorKind, id: Seq<char>) -> bool {
        self.kind_of() == kind && self.id_of() == Some(id)
    }

    pub fn kind(&self) -> (k: ErrorKind)
        ensures
            k == self.kind_of(),
    {
        match self {
            GameError::InvalidGame { .. } => ErrorKind::InvalidGame,
            GameError::GuessDataMissingForGame { .. } => ErrorKind::GuessDataMissingForGame,
            GameError::StoreUnavailable => ErrorKind::StoreUnavailable,
            GameError::Unknown => ErrorKind::Unknown,
        }
    }

    pub fn game_id(&self) -> (r: Option<&str>)
        ensures
            r matches Some(s) ==> self.id_of() == Some(s@),
            r is None ==> self.id_of() is None,
    {
        match self {
            GameError::InvalidGame { game_id } => Some(game_id.as_str()),
            GameError::GuessDataMissingForGame { game_id } => Some(game_id.as_str()),
            _ => None,
        }
    }
}

impl Default for GameError {
    fn default() -> (e: GameError)
        ensures
            e == GameError::Unknown,
    {
        GameError::Unknown
    }
}

/// The domain error that a failure of the store becomes.
pub open spec fn failure_of(e: StoreError) -> GameError {
    match e {
        StoreError::Unavailable => GameError::StoreUnavailable,
        StoreError::IdentifierTaken => GameError::Unknown,
    }
}

pub fn store_failure(e: StoreError) -> (r: GameError)
    ensures
        r == failure_of(e),
{
    match e {
        StoreError::Unavailable => GameError::StoreUnavailable,
        StoreError::IdentifierTaken => GameError::Unknown,
    }
}

/// Three-way comparison of a guess against the secret.
pub open spec fn outcome_of(secret: u32, guess: u32) -> GuessOutcome {
    if guess == secret {
        GuessOutcome::Correct
    } else if guess > secret {
        GuessOutcome::TooHigh
    } else {
        GuessOutcome::TooLow
    }
}

pub fn compare_guess(secret: u32, guess: u32) -> (r: GuessOutcome)
    ensures
        r == outcome_of(secret, guess),
{
    if guess == secret {
        GuessOutcome::Correct
    } else if guess > secret {
        GuessOutcome::TooHigh
    } else {
        GuessOutcome::TooLow
    }
}

/// `r` is what a reveal of `id` answers when the lookup found `found`.
pub open spec fn reveal_answers(r: Result<u32, GameError>, found: Option<u32>, id: Seq<char>) -> bool {
    match found {
        Some(s) => r == Ok::<u32, GameError>(s),
        None => r matches Err(e) && e.names(ErrorKind::InvalidGame, id),
    }
}

/// `r` is what a guess of `guess` at `id` answers when the lookup found
/// `found`.
pub open spec fn guess_answers(
    r: Result<GuessOutcome, GameError>,
    found: Option<u32>,
    id: Seq<char>,
    guess: u32,
) -> bool {
    match found {
        Some(s) => r == Ok::<GuessOutcome, GameError>(outcome_of(s, guess)),
        None => r matches Err(e) && e.names(ErrorKind::GuessDataMissingForGame, id),
    }
}

/// The answer to a reveal of `id`, from what the store's lookup gave.
pub fn reveal_from(id: &str, found: Result<Option<u32>, StoreError>) -> (r: Result<u32, GameError>)
    ensures
        match found {
            Ok(f) => reveal_answers(r, f, id@),
            Err(e) => r == Err::<u32, GameError>(failure_of(e)),
        },
{
    match found {
        Ok(Some(s)) => Ok(s),
        Ok(None) => Err(GameError::InvalidGame { game_id: id.to_string() }),
        Err(e) => Err(store_failure(e)),
    }
}

/// The answer to a guess of `guess` at `id`, from what the store's lookup
/// gave.
pub fn guess_from(id: &str, guess: u32, found: Result<Option<u32>, StoreError>) -> (r: Result<
    GuessOutcome,
    GameError,
>)
    ensures
        match found {
            Ok(f) => guess_answers(r, f, id@, guess),
            Err(e) => r == Err::<GuessOutcome, GameError>(failure_of(e)),
        },
{
    match found {
        Ok(Some(s)) => Ok(compare_guess(s, guess)),
        Ok(None) => Err(GameError::GuessDataMissingForGame { game_id: id.to_string() }),
        Err(e) => Err(store_failure(e)),
    }
}

/// Reveal on a table held by the caller.
pub fn reveal_in(table: &GameTable, id: &str) -> (r: Result<u32, GameError>)
    requires
        table.wf(),
    ensures
        reveal_answers(r, lookup_of(table@, id@), id@),
{
    reveal_from(id, Ok(table.lookup(id)))
}

/// Guess on a table held by the caller.
pub fn guess_in(table: &GameTable, id: &str, guess: u32) -> (r: Result<GuessOutcome, GameError>)
    requires
        table.wf(),
    ensures
        guess_answers(r, lookup_of(table@, id@), id@, guess),
{
    guess_from(id, guess, Ok(table.lookup(id)))
}

/// Relies on rand's `thread_rng().gen_range(0..n)`: a number in `0..n`,
/// which panics on an empty range.
#[verifier::external_body]
fn random_below(n: u32) -> (r: u32)
    requires
        0 < n,
    ensures
        r < n,
{
    rand::Rng::gen_range(&mut rand::thread_rng(), 0..n)
}

/// The three operations on the games of the process. It is shared by
/// reference between concurrent callers.
pub struct GameService {
    store: GameStore,
}

impl GameService {
    pub fn new() -> (s: GameService) {
        GameService { store: GameStore::new() }
    }

    /// Creates a game under `id` with `secret`, and returns `id`.
    pub fn create_game_with(&self, id: String, secret: u32) -> (r: Result<String, GameError>)
        requires
            secret < SECRET_BOUND,
        ensures
            r matches Ok(given) ==> given@ == id@,
            r is Err ==> r == Err::<String, GameError>(GameError::Unknown),
    {
        match self.store.create_with_id(id, secret) {
            Ok(given) => Ok(given),
            Err(e) => Err(store_failure(e)),
        }
    }

    /// Creates a game with a secret drawn uniformly below `SECRET_BOUND`
    /// under a fresh random identifier, and returns the identifier.
    pub fn create_game(&self) -> (r: Result<String, GameError>)
        ensures
            r matches Ok(id) ==> is_game_id(id@),
            r is Err ==> r == Err::<String, GameError>(GameError::Unknown),
    {
        let secret = random_below(SECRET_BOUND);
        match self.store.create(secret) {
            Ok(id) => Ok(id),
            Err(e) => Err(store_failure(e)),
        }
    }

    /// The secret of game `id`, as some moment's table holds it; an absent
    /// game is `InvalidGame` with `id`.
    pub fn reveal_secret(&self, id: &str) -> (r: Result<u32, GameError>)
        ensures
            r matches Ok(s) ==> s < SECRET_BOUND,
            r matches Err(e) ==> e.names(ErrorKind::InvalidGame, id@),
    {
        let found = self.store.get(id);
        reveal_from(id, found)
    }

    /// How `guess` compares with the secret of game `id`, as some moment's
    /// table holds it; an absent game is `GuessDataMissingForGame` with `id`.
    pub fn submit_guess(&self, id: &str, guess: u32) -> (r: Result<GuessOutcome, GameError>)
        ensures
            r matches Ok(o) ==> exists|s: u32| s < SECRET_BOUND && o == #[trigger] outcome_of(s, guess),
            r matches Err(e) ==> e.names(ErrorKind::GuessDataMissingForGame, id@),
    {
        let found = self.store.get(id);
        let r = guess_from(id, guess, found);
        proof {
            if let Ok(Some(s)) = found {
                assert(r->Ok_0 == outcome_of(s, guess));
            }
        }
        r
    }
}

} // verus!
