//! The table of profiles: rows keyed by an id that the table hands out,
//! counting up from one and never giving a number twice.

use vstd::prelude::*;

use crate::profile::{
    parse_port, profile_views, summary_views, Fields, Profile, ProfileView, Summary, SummaryView,
};

verus! {

/// Why the table did not do what was asked.
#[derive(Debug, Clone, Copy, PartialEq, Eq)]
pub enum StoreError {
    /// No profile has the id.
    NotFound,
    /// A required text is empty: the name, the host or the user.
    Validation,
    /// The table cannot take the rows: it has given out its last id, or the
    /// rows it was opened with are not a table.
    Persistence,
}

/// The mathematical value of the table: its rows in the order of their ids,
/// and the last id that it gave out.
pub struct StoreView {
    pub rows: Seq<ProfileView>,
    pub last_id: int,
}

/// Puts five texts together as the fields of a profile.
pub open spec fn fields(
    name: Seq<char>,
    host: Seq<char>,
    port: Seq<char>,
    username: Seq<char>,
    password: Seq<char>,
) -> Fields {
    Fields { name, host, port, username, password }
}

impl StoreView {
    /// The table with no rows, which has given out no id.
    pub open spec fn empty() -> StoreView {
        StoreView { rows: Seq::empty(), last_id: 0 }
    }

    /// Every row is a valid profile with an id that was given out, and the
    /// ids go up from row to row.
    pub open spec fn wf(self) -> bool {
        &&& 0 <= self.last_id <= i32::MAX
        &&& forall|i: int|
            0 <= i < self.rows.len() ==> (#[trigger] self.rows[i]).valid() && self.rows[i].id
                <= self.last_id
        &&& forall|i: int, j: int|
            0 <= i < j < self.rows.len() ==> (#[trigger] self.rows[i]).id < (
            #[trigger] self.rows[j]).id
    }

    /// Whether a row has the id.
    pub open spec fn has(self, id: int) -> bool {
        exists|i: int| 0 <= i < self.rows.len() && (#[trigger] self.rows[i]).id == id
    }

    /// Where the row with the id stands.
    pub open spec fn index_of(self, id: int) -> int {
        choose|i: int| 0 <= i < self.rows.len() && (#[trigger] self.rows[i]).id == id
    }

    /// The profile with the id.
    pub open spec fn find(self, id: int) -> Option<ProfileView> {
        if self.has(id) {
            Some(self.rows[self.index_of(id)])
        } else {
            None
        }
    }

    /// Whether the last id that an `i32` can hold has been given out.
    pub open spec fn full(self) -> bool {
        self.last_id >= i32::MAX
    }

    /// The table after `create`: a new row under the next id, unless a
    /// required text is missing or no id is left.
    pub open spec fn created(self, fields: Fields) -> StoreView {
        if fields.complete() && !self.full() {
            StoreView {
                rows: self.rows.push(fields.record(self.last_id + 1)),
                last_id: self.last_id + 1,
            }
        } else {
            self
        }
    }

    /// What `create` answers: the new id, or why there is none.
    pub open spec fn creation(self, fields: Fields) -> Result<int, StoreError> {
        if !fields.complete() {
            Err(StoreError::Validation)
        } else if self.full() {
            Err(StoreError::Persistence)
        } else {
            Ok(self.last_id + 1)
        }
    }

    /// The table after `update`: the row with the id holds the new fields,
    /// unless a required text is missing or no row has the id.
    pub open spec fn updated(self, id: int, fields: Fields) -> StoreView {
        if fields.complete() && self.has(id) {
            StoreView { rows: self.rows.update(self.index_of(id), fields.record(id)), ..self }
        } else {
            self
        }
    }

    /// The table after `delete`: the row with the id is gone, if there was one.
    pub open spec fn deleted(self, id: int) -> StoreView {
        if self.has(id) {
            StoreView { rows: self.rows.remove(self.index_of(id)), ..self }
        } else {
            self
        }
    }

    /// What the menu shows of the table: each row without its password.
    pub open spec fn listing(self) -> Seq<SummaryView> {
        self.rows.map_values(|p: ProfileView| p.summary())
    }
}

/// In a well-formed table one row at most has a given id.
pub proof fn lemma_index_of(table: StoreView, i: int)
    requires
        table.wf(),
        0 <= i < table.rows.len(),
    ensures
        table.has(table.rows[i].id),
        table.index_of(table.rows[i].id) == i,
{
    let id = table.rows[i].id;
    let j = table.index_of(id);
    assert(0 <= j < table.rows.len() && table.rows[j].id == id);
    if j < i {
        assert(table.rows[j].id < table.rows[i].id);
    }
    if i < j {
        assert(table.rows[i].id < table.rows[j].id);
    }
}

/// The table of profiles. A table comes from `new` or `restore` and changes
/// through its methods only, so it is well formed wherever it is met: the
/// methods ask for that and keep it.
pub struct ProfileStore {
    rows: Vec<Profile>,
    last_id: i32,
}

impl View for ProfileStore {
    type V = StoreView;

    closed spec fn view(&self) -> StoreView {
        StoreView { rows: profile_views(self.rows@), last_id: self.last_id as int }
    }
}

impl ProfileStore {
    /// An empty table.
    pub fn new() -> (store: ProfileStore)
        ensures
            store@ == StoreView::empty(),
            store@.wf(),
    {
        let store = ProfileStore { rows: Vec::new(), last_id: 0 };
        assert(store@.rows =~= Seq::empty());
        store
    }

    /// Opens a table on rows that were kept elsewhere, with the last id that
    /// was given out. Rows that are no well-formed table are refused.
    pub fn restore(rows: Vec<Profile>, last_id: i32) -> (opened: Result<ProfileStore, StoreError>)
        ensures
            match opened {
                Ok(store) => store@.wf() && store@ == (StoreView {
                    rows: profile_views(rows@),
                    last_id: last_id as int,
                }),
                Err(e) => e == StoreError::Persistence && !(StoreView {
                    rows: profile_views(rows@),
                    last_id: last_id as int,
                }).wf(),
            },
    {
        let ghost table = StoreView { rows: profile_views(rows@), last_id: last_id as int };
        if last_id < 0 {
            return Err(StoreError::Persistence);
        }
        let mut previous: i32 = 0;
        let mut i: usize = 0;
        while i < rows.len()
            invariant
                i <= rows.len(),
                0 <= previous <= last_id,
                table == (StoreView { rows: profile_views(rows@), last_id: last_id as int }),
                i == 0 ==> previous == 0,
                i > 0 ==> table.rows[i - 1].id == previous,
                forall|k: int|
                    0 <= k < i ==> (#[trigger] table.rows[k]).valid() && table.rows[k].id
                        <= previous,
                forall|k: int, l: int|
                    0 <= k < l < i ==> (#[trigger] table.rows[k]).id < (
                    #[trigger] table.rows[l]).id,
            decreases rows.len() - i,
        {
            let row = &rows[i];
            assert(table.rows[i as int] == row@);
            let valid = row.id >= 1 && !row.name.as_str().is_empty()
                && !row.host.as_str().is_empty() && !row.username.as_str().is_empty() && row.port
                >= 1;
            assert(valid == table.rows[i as int].valid());
            if !valid || row.id <= previous || row.id > last_id {
                proof {
                    if !valid {
                        assert(!table.rows[i as int].valid());
                        assert(!table.wf());
                    } else if row.id > last_id {
                        assert(table.rows[i as int].id > last_id);
                        assert(!table.wf());
                    } else {
                        assert(i > 0);
                        assert(table.rows[i - 1].id >= table.rows[i as int].id);
                        assert(!table.wf());
                    }
                }
                return Err(StoreError::Persistence);
            }
            previous = row.id;
            i += 1;
        }
        let store = ProfileStore { rows, last_id };
        Ok(store)
    }

    /// Where the row with the id stands.
    fn position(&self, id: i32) -> (at: Option<usize>)
        requires
            self@.wf(),
        ensures
            match at {
                Some(i) => i < self.rows.len() && self@.has(id as int) && self@.index_of(id as int)
                    == i,
                None => !self@.has(id as int),
            },
    {
        let mut i: usize = 0;
        while i < self.rows.len()
            invariant
                i <= self.rows.len(),
                self@.wf(),
                forall|k: int| 0 <= k < i ==> (#[trigger] self@.rows[k]).id != id,
            decreases self.rows.len() - i,
        {
            if self.rows[i].id == id {
                proof {
                    assert(self@.rows[i as int].id == id);
                    lemma_index_of(self@, i as int);
                }
                return Some(i);
            }
            i += 1;
        }
        None
    }

    /// Whether a profile has the id.
    pub fn contains(&self, id: i32) -> (found: bool)
        requires
            self@.wf(),
        ensures
            found == self@.has(id as int),
    {
        self.position(id).is_some()
    }

    /// The profile with the id, password and all.
    pub fn get(&self, id: i32) -> (found: Result<Profile, StoreError>)
        requires
            self@.wf(),
        ensures
            match found {
                Ok(profile) => self@.find(id as int) == Some(profile@),
                Err(e) => e == StoreError::NotFound && self@.find(id as int) is None,
            },
    {
        match self.position(id) {
            Some(i) => Ok(self.rows[i].duplicate()),
            None => Err(StoreError::NotFound),
        }
    }

    /// Adds a profile made of the five texts and gives its id, the one after
    /// the last that was given out. The port is read from its text as
    /// `parse_port` reads it. Nothing is added where the name, the host or the
    /// user is empty, or where no id is left.
    pub fn create(
        &mut self,
        name: &str,
        host: &str,
        port: &str,
        username: &str,
        password: &str,
    ) -> (made: Result<i32, StoreError>)
        requires
            old(self)@.wf(),
        ensures
            final(self)@.wf(),
            final(self)@ == old(self)@.created(fields(name@, host@, port@, username@, password@)),
            match made {
                Ok(id) => old(self)@.creation(fields(name@, host@, port@, username@, password@))
                    == Ok::<int, StoreError>(id as int),
                Err(e) => old(self)@.creation(fields(name@, host@, port@, username@, password@))
                    == Err::<int, StoreError>(e),
            },
    {
        if name.is_empty() || host.is_empty() || username.is_empty() {
            return Err(StoreError::Validation);
        }
        if self.last_id == i32::MAX {
            return Err(StoreError::Persistence);
        }
        let id = self.last_id + 1;
        let profile = Profile {
            id,
            name: name.to_owned(),
            host: host.to_owned(),
            port: parse_port(port),
            username: username.to_owned(),
            password: password.to_owned(),
        };
        self.last_id = id;
        self.rows.push(profile);
        proof {
            let made = fields(name@, host@, port@, username@, password@).record(id as int);
            assert(self@.rows =~= old(self)@.rows.push(made));
        }
        Ok(id)
    }

    /// Gives the profile with the id the five texts in place of what it held;
    /// its id stays. Where no profile has the id nothing changes, and that is
    /// no error. Nothing changes either where the name, the host or the user
    /// is empty.
    pub fn update(
        &mut self,
        id: i32,
        name: &str,
        host: &str,
        port: &str,
        username: &str,
        password: &str,
    ) -> (changed: Result<(), StoreError>)
        requires
            old(self)@.wf(),
        ensures
            final(self)@.wf(),
            final(self)@ == old(self)@.updated(
                id as int,
                fields(name@, host@, port@, username@, password@),
            ),
            changed is Ok <==> fields(name@, host@, port@, username@, password@).complete(),
            changed matches Err(e) ==> e == StoreError::Validation,
    {
        if name.is_empty() || host.is_empty() || username.is_empty() {
            return Err(StoreError::Validation);
        }
        match self.position(id) {
            Some(i) => {
                let profile = Profile {
                    id,
                    name: name.to_owned(),
                    host: host.to_owned(),
                    port: parse_port(port),
                    username: username.to_owned(),
                    password: password.to_owned(),
                };
                self.rows.set(i, profile);
                proof {
                    let made = fields(name@, host@, port@, username@, password@).record(id as int);
                    assert(self@.rows =~= old(self)@.rows.update(i as int, made));
                }
            },
            None => {},
        }
        Ok(())
    }

    /// Removes the profile with the id. Where no profile has it nothing
    /// changes.
    pub fn delete(&mut self, id: i32)
        requires
            old(self)@.wf(),
        ensures
            final(self)@.wf(),
            final(self)@ == old(self)@.deleted(id as int),
    {
        match self.position(id) {
            Some(i) => {
                self.rows.remove(i);
                proof {
                    assert(self@.rows =~= old(self)@.rows.remove(i as int));
                }
            },
            None => {},
        }
    }

    /// The profiles as the menu shows them, in the order of their ids.
    pub fn list(&self) -> (shown: Vec<Summary>)
        ensures
            summary_views(shown@) == self@.listing(),
    {
        let mut shown: Vec<Summary> = Vec::new();
        let mut i: usize = 0;
        while i < self.rows.len()
            invariant
                i <= self.rows.len(),
                shown.len() == i,
                forall|k: int| 0 <= k < i ==> (#[trigger] shown[k])@ == self.rows[k]@.summary(),
            decreases self.rows.len() - i,
        {
            shown.push(self.rows[i].summary());
            i += 1;
        }
        proof {
            assert(summary_views(shown@) =~= self@.listing());
        }
        shown
    }
}

/// Where the table is kept, for a user whose home directory is `home`: the
/// file `sshm.db` in the directory `.config` under it.
pub open spec fn path_under(home: Seq<char>) -> Seq<char> {
    home + "/.config/sshm.db"@
}

/// Writes the path of the file that keeps the table.
pub fn store_path(home: &str) -> (path: String)
    ensures
        path@ == path_under(home@),
{
    let mut path = home.to_owned();
    path.append("/.config/sshm.db");
    path
}

} // verus!
