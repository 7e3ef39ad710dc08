//! The credential store as the service sees it.
//!
//! The store itself lives outside the library. What is written here is what
//! the service relies on: the faults that the store may report, and a model
//! of a store in working order, which keeps at most one row per username and
//! never changes or drops a row.

use vstd::prelude::*;

verus! {

/// Why the credential store refused or failed a request.
#[derive(Clone, Copy, Debug, PartialEq, Eq, Structural)]
pub enum StoreFault {
    /// The write broke the uniqueness of `username`.
    UniqueViolation,
    /// Anything else: the store is unreachable, the schema is not as expected.
    Other,
}

/// The rows of a working store: the password hash of each known username.
pub struct Users {
    pub rows: Map<Seq<char>, Seq<char>>,
}

impl Users {
    /// A store without rows.
    pub open spec fn empty() -> Users {
        Users { rows: Map::empty() }
    }

    /// The store holds a row for `username`. Usernames are compared as they
    /// are written, letter case included.
    pub open spec fn knows(self, username: Seq<char>) -> bool {
        self.rows.dom().contains(username)
    }

    /// What the store answers to the insert of a row for `username`: it
    /// takes the first row of a username and refuses every further one.
    pub open spec fn insert_answer(self, username: Seq<char>) -> Result<(), StoreFault> {
        if self.knows(username) {
            Err(StoreFault::UniqueViolation)
        } else {
            Ok(())
        }
    }

    /// The rows after that insert: one more where the store took it, the
    /// same as before where it refused.
    pub open spec fn insert(self, username: Seq<char>, hash: Seq<char>) -> Users {
        if self.knows(username) {
            self
        } else {
            Users { rows: self.rows.insert(username, hash) }
        }
    }

    /// What the store answers when asked for the password hash of
    /// `username`.
    pub open spec fn lookup_answer(self, username: Seq<char>) -> Result<
        Option<Seq<char>>,
        StoreFault,
    > {
        if self.knows(username) {
            Ok(Some(self.rows[username]))
        } else {
            Ok(None)
        }
    }
}

} // verus!
