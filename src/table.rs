use vstd::hash_map::StringHashMap;
use vstd::prelude::*;

verus! {

/// Secrets are drawn from `0..SECRET_BOUND`.
pub const SECRET_BOUND: u32 = 20;

/// The games of one table, as a mathematical map from identifier to secret.
pub type Games = Map<Seq<char>, u32>;

/// Every secret of the table lies below `SECRET_BOUND`.
pub open spec fn secrets_in_range(m: Games) -> bool {
    forall|k: Seq<char>| #[trigger] m.contains_key(k) ==> m[k] < SECRET_BOUND
}

/// What a lookup of `id` in `m` finds.
pub open spec fn lookup_of(m: Games, id: Seq<char>) -> Option<u32> {
    if m.contains_key(id) {
        Some(m[id])
    } else {
        None
    }
}

/// `after` is `before` with one new game `id` holding `secret`, and no
/// game of `before` touched.
pub open spec fn created(before: Games, after: Games, id: Seq<char>, secret: u32) -> bool {
    &&& !before.contains_key(id)
    &&& after == before.insert(id, secret)
}

/// A mapping from game identifier to secret number. Games are only ever
/// added: an identifier once present keeps its secret.
pub struct GameTable {
    games: StringHashMap<u32>,
}

impl View for GameTable {
    type V = Games;

    closed spec fn view(&self) -> Games {
        self.games@
    }
}

impl GameTable {
    pub open spec fn wf(&self) -> bool {
        secrets_in_range(self@)
    }

    /// An empty table.
    pub fn new() -> (t: GameTable)
        ensures
            t@ == Map::<Seq<char>, u32>::empty(),
            t.wf(),
    {
        GameTable { games: StringHashMap::new() }
    }

    /// The number of games in the table.
    pub fn len(&self) -> (n: usize)
        ensures
            n == self@.len(),
    {
        self.games.len()
    }

    /// The secret of game `id`, or `None` where there is no such game.
    pub fn lookup(&self, id: &str) -> (r: Option<u32>)
        requires
            self.wf(),
        ensures
            r == lookup_of(self@, id@),
            r matches Some(s) ==> s < SECRET_BOUND,
    {
        match self.games.get(id) {
            Some(s) => Some(*s),
            None => None,
        }
    }

    /// Adds game `id` with `secret` where `id` is not taken yet, and returns
    /// whether it did; a game already present is never overwritten.
    pub fn insert_new(&mut self, id: String, secret: u32) -> (added: bool)
        requires
            old(self).wf(),
            secret < SECRET_BOUND,
        ensures
            final(self).wf(),
            added == !old(self)@.contains_key(id@),
            added ==> created(old(self)@, final(self)@, id@, secret),
            old(self)@.submap_of(final(self)@),
            !added ==> final(self)@ == old(self)@,
    {
        if self.games.contains_key(id.as_str()) {
            false
        } else {
            self.games.insert(id, secret);
            true
        }
    }
}

} // verus!
