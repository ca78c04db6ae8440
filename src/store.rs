use crate::table::{GameTable, SECRET_BOUND};
use vstd::prelude::*;
use vstd::rwlock::{RwLock, RwLockPredicate};

verus! {

/// A hexadecimal digit as `Uuid`'s lower-case formatting writes it.
pub open spec fn is_lower_hex(c: char) -> bool {
    ('0' <= c && c <= '9') || ('a' <= c && c <= 'f')
}

/// The hyphenated form of a UUID: 36 characters, hyphens at 8, 13, 18 and
/// 23, lower-case hex digits elsewhere. Such a token needs no escaping in a
/// URL path segment.
pub open spec fn is_game_id(s: Seq<char>) -> bool {
    &&& s.len() == 36
    &&& forall|i: int|
        0 <= i < 36 ==> (if i == 8 || i == 13 || i == 18 || i == 23 {
            #[trigger] s[i] == '-'
        } else {
            is_lower_hex(s[i])
        })
}

/// Relies on uuid::Uuid::new_v4 for a random identifier, and on its
/// `Display`, which writes the hyphenated lower-case form.
#[verifier::external_body]
fn new_game_id() -> (r: String)
    ensures
        is_game_id(r@),
{
    uuid::Uuid::new_v4().to_string()
}

/// A failure of the store itself, as opposed to a game that is absent.
#[derive(Debug, Clone, Copy, PartialEq, Eq)]
pub enum StoreError {
    /// The lock that guards the games could not be taken. The lock of
    /// `GameStore` is verified and is always taken in the end, so its own
    /// operations never give this.
    Unavailable,
    /// A new game drew an identifier that an earlier game holds; the
    /// earlier game is kept.
    IdentifierTaken,
}

/// What the lock holds at every moment: a well-formed table.
pub struct TableInv {}

impl RwLockPredicate<GameTable> for TableInv {
    open spec fn inv(self, t: GameTable) -> bool {
        t.wf()
    }
}

/// The games of the process, shared between concurrent callers: many
/// readers or one writer at a time, and every reader sees the table as
/// some writer left it whole.
pub struct GameStore {
    lock: RwLock<GameTable, TableInv>,
}

impl GameStore {
    #[verifier::type_invariant]
    spec fn guarded(&self) -> bool {
        self.lock.pred() == TableInv {}
    }

    /// A store with no games.
    pub fn new() -> (s: GameStore) {
        GameStore { lock: RwLock::new(GameTable::new(), Ghost(TableInv {})) }
    }

    /// Under shared access, the secret of game `id` if there is one. Any
    /// secret found lies below `SECRET_BOUND`.
    pub fn get(&self, id: &str) -> (r: Result<Option<u32>, StoreError>)
        ensures
            r is Ok,
            r matches Ok(Some(s)) ==> s < SECRET_BOUND,
    {
        proof {
            use_type_invariant(self);
        }
        let handle = self.lock.acquire_read();
        let found = handle.borrow().lookup(id);
        handle.release_read();
        Ok(found)
    }

    /// Under exclusive access, adds game `id` with `secret` and returns its
    /// identifier; where `id` is taken, the table is left as it was.
    pub fn create_with_id(&self, id: String, secret: u32) -> (r: Result<String, StoreError>)
        requires
            secret < SECRET_BOUND,
        ensures
            r matches Ok(given) ==> given@ == id@,
            r is Err ==> r == Err::<String, StoreError>(StoreError::IdentifierTaken),
    {
        proof {
            use_type_invariant(self);
        }
        let (mut table, handle) = self.lock.acquire_write();
        let key = id.clone();
        let added = table.insert_new(key, secret);
        handle.release_write(table);
        if added {
            Ok(id)
        } else {
            Err(StoreError::IdentifierTaken)
        }
    }

    /// Adds a game with `secret` under a fresh random identifier, which it
    /// returns.
    pub fn create(&self, secret: u32) -> (r: Result<String, StoreError>)
        requires
            secret < SECRET_BOUND,
        ensures
            r matches Ok(id) ==> is_game_id(id@),
            r is Err ==> r == Err::<String, StoreError>(StoreError::IdentifierTaken),
    {
        let id = new_game_id();
        self.create_with_id(id, secret)
    }
}

} // verus!
