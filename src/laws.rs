//! Properties of the game operations over any history of a table. Every
//! operation either leaves the table as it was or adds one new game, so a
//! later table always holds an earlier one as a submap.
use crate::service::{guess_answers, outcome_of, reveal_answers, ErrorKind, GameError, GuessOutcome};
use crate::table::{created, lookup_of, secrets_in_range, Games, SECRET_BOUND};
use vstd::prelude::*;

verus! {

/// Two creations, the second made on a table that holds the result of the
/// first, return different identifiers.
pub proof fn lemma_created_ids_distinct(
    before1: Games,
    after1: Games,
    id1: Seq<char>,
    secret1: u32,
    before2: Games,
    after2: Games,
    id2: Seq<char>,
    secret2: u32,
)
    requires
        created(before1, after1, id1, secret1),
        created(before2, after2, id2, secret2),
        after1.submap_of(before2),
    ensures
        id1 != id2,
{
    assert(after1.contains_key(id1));
}

/// A created game can be revealed in every later well-formed table, and
/// the reveal gives its secret, which lies below `SECRET_BOUND`.
pub proof fn lemma_created_game_revealed(
    before: Games,
    after: Games,
    id: Seq<char>,
    secret: u32,
    later: Games,
)
    requires
        created(before, after, id, secret),
        after.submap_of(later),
        secrets_in_range(later),
    ensures
        secret < SECRET_BOUND,
        forall|r: Result<u32, GameError>|
            #[trigger] reveal_answers(r, lookup_of(later, id), id) <==> r == Ok::<u32, GameError>(secret),
{
    assert(after.contains_key(id));
    assert(later.contains_key(id));
}

/// An identifier without a game fails a reveal with `InvalidGame` and a
/// guess of any value with `GuessDataMissingForGame`, each carrying it.
pub proof fn lemma_absent_game_fails(m: Games, id: Seq<char>, guess: u32)
    requires
        !m.contains_key(id),
    ensures
        forall|r: Result<u32, GameError>|
            #[trigger] reveal_answers(r, lookup_of(m, id), id) <==> (r matches Err(e) && e.names(
                ErrorKind::InvalidGame,
                id,
            )),
        forall|r: Result<GuessOutcome, GameError>|
            #[trigger] guess_answers(r, lookup_of(m, id), id, guess) <==> (r matches Err(e)
                && e.names(ErrorKind::GuessDataMissingForGame, id)),
{
}

/// A guess at a game with secret `s` is `Correct` when equal to `s`,
/// `TooHigh` when greater and `TooLow` when less.
pub proof fn lemma_guess_compares(m: Games, id: Seq<char>, guess: u32)
    requires
        m.contains_key(id),
    ensures
        forall|r: Result<GuessOutcome, GameError>|
            #[trigger] guess_answers(r, lookup_of(m, id), id, guess) <==> r == Ok::<
                GuessOutcome,
                GameError,
            >(outcome_of(m[id], guess)),
        guess == m[id] ==> outcome_of(m[id], guess) == GuessOutcome::Correct,
        guess > m[id] ==> outcome_of(m[id], guess) == GuessOutcome::TooHigh,
        guess < m[id] ==> outcome_of(m[id], guess) == GuessOutcome::TooLow,
{
}

/// Reveals of one game at two moments give the same secret: the later table
/// holds the earlier one, and no game is ever overwritten.
pub proof fn lemma_reveal_repeats(earlier: Games, later: Games, id: Seq<char>)
    requires
        earlier.contains_key(id),
        earlier.submap_of(later),
    ensures
        forall|r: Result<u32, GameError>|
            #[trigger] reveal_answers(r, lookup_of(later, id), id) <==> reveal_answers(
                r,
                lookup_of(earlier, id),
                id,
            ),
{
    assert(later.contains_key(id));
}

} // verus!
