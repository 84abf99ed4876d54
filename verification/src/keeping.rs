//! Keeping the table outside the program: what a file holds that is written
//! change by change, and why reading it back gives the table again.

use vstd::prelude::*;

use crate::profile::ProfileView;
use crate::replay::{law_create_then_get, law_delete_then_get, law_update_then_get};
use crate::session::{step_of, ActionView, Change, ChangeView, EventView, SessionView};
use crate::store::{lemma_index_of, StoreView};

verus! {

/// Makes the table `servers` in the file, unless the file has it: a row has
/// an id that the file counts up by itself, and the five texts of a profile.
pub const CREATE_TABLE: &'static str =
    "CREATE TABLE IF NOT EXISTS servers (id INTEGER PRIMARY KEY AUTOINCREMENT, name TEXT NOT NULL, host TEXT NOT NULL, port INTEGER DEFAULT 22, username TEXT NOT NULL, password BLOB)";

/// Reads the rows of the file in the order of their ids, each as the six
/// values of a profile.
pub const SELECT_ROWS: &'static str =
    "SELECT id, name, host, port, username, password FROM servers ORDER BY id";

/// Reads the last id that the file has counted up to. There is no answer
/// while the file has not held a row yet: the last id is then 0.
pub const SELECT_LAST_ID: &'static str = "SELECT seq FROM sqlite_sequence WHERE name = 'servers'";

/// Adds a row, from an id and five texts.
pub const INSERT_ROW: &'static str =
    "INSERT INTO servers (id, name, host, port, username, password) VALUES (?1, ?2, ?3, ?4, ?5, ?6)";

/// Gives the row with an id five other texts; the id is the last value.
pub const UPDATE_ROW: &'static str =
    "UPDATE servers SET name = ?1, host = ?2, port = ?3, username = ?4, password = ?5 WHERE id = ?6";

/// Removes the row with an id.
pub const DELETE_ROW: &'static str = "DELETE FROM servers WHERE id = ?1";

/// A value that is handed to the file with a statement.
#[derive(Debug, Clone, PartialEq, Eq)]
pub enum Value {
    /// An id or a port.
    Number(i32),
    /// One of the five texts of a profile.
    Text(String),
}

/// The mathematical value of a `Value`.
pub enum ValueView {
    Number(int),
    Text(Seq<char>),
}

impl View for Value {
    type V = ValueView;

    open spec fn view(&self) -> ValueView {
        match self {
            Value::Number(n) => ValueView::Number(*n as int),
            Value::Text(text) => ValueView::Text(text@),
        }
    }
}

/// A statement for the file, with the values for its places `?1`, `?2` and so
/// on, in that order.
#[derive(Debug, Clone, PartialEq, Eq)]
pub struct Statement {
    /// The statement, in SQL.
    pub text: String,
    /// The values for the places of the statement.
    pub values: Vec<Value>,
}

/// The mathematical value of a `Statement`.
pub struct StatementView {
    pub text: Seq<char>,
    pub values: Seq<ValueView>,
}

/// The values of a list of values.
pub open spec fn value_views(values: Seq<Value>) -> Seq<ValueView> {
    values.map_values(|v: Value| v@)
}

impl View for Statement {
    type V = StatementView;

    open spec fn view(&self) -> StatementView {
        StatementView { text: self.text@, values: value_views(self.values@) }
    }
}

/// The statement that writes a change to the file.
pub open spec fn statement_of(change: ChangeView) -> StatementView {
    match change {
        ChangeView::Insert(profile) => StatementView {
            text: INSERT_ROW@,
            values: seq![
                ValueView::Number(profile.id),
                ValueView::Text(profile.name),
                ValueView::Text(profile.host),
                ValueView::Number(profile.port),
                ValueView::Text(profile.username),
                ValueView::Text(profile.password),
            ],
        },
        ChangeView::Replace(profile) => StatementView {
            text: UPDATE_ROW@,
            values: seq![
                ValueView::Text(profile.name),
                ValueView::Text(profile.host),
                ValueView::Number(profile.port),
                ValueView::Text(profile.username),
                ValueView::Text(profile.password),
                ValueView::Number(profile.id),
            ],
        },
        ChangeView::Remove(id) => StatementView {
            text: DELETE_ROW@,
            values: seq![ValueView::Number(id)],
        },
    }
}

/// Makes the statement that writes a change to the file.
pub fn statement(change: &Change) -> (statement: Statement)
    ensures
        statement@ == statement_of(change@),
{
    let mut values: Vec<Value> = Vec::new();
    let statement = match change {
        Change::Insert(profile) => {
            values.push(Value::Number(profile.id));
            values.push(Value::Text(profile.name.clone()));
            values.push(Value::Text(profile.host.clone()));
            values.push(Value::Number(profile.port));
            values.push(Value::Text(profile.username.clone()));
            values.push(Value::Text(profile.password.clone()));
            Statement { text: String::from_str(INSERT_ROW), values }
        },
        Change::Replace(profile) => {
            values.push(Value::Text(profile.name.clone()));
            values.push(Value::Text(profile.host.clone()));
            values.push(Value::Number(profile.port));
            values.push(Value::Text(profile.username.clone()));
            values.push(Value::Text(profile.password.clone()));
            values.push(Value::Number(profile.id));
            Statement { text: String::from_str(UPDATE_ROW), values }
        },
        Change::Remove(id) => {
            values.push(Value::Number(*id));
            Statement { text: String::from_str(DELETE_ROW), values }
        },
    };
    assert(statement@.values =~= statement_of(change@).values);
    statement
}

/// The rows of a table by their ids: what a file holds that keeps the table.
pub open spec fn kept(table: StoreView) -> Map<int, ProfileView> {
    Map::new(|id: int| table.has(id), |id: int| table.rows[table.index_of(id)])
}

impl ChangeView {
    /// The rows by their ids after the change was written to them: a row
    /// more, other texts in the row with an id, or the row with an id gone.
    /// This is what the statement of the change does to the rows of the file.
    pub open spec fn written(self, rows: Map<int, ProfileView>) -> Map<int, ProfileView> {
        match self {
            ChangeView::Insert(profile) => rows.insert(profile.id, profile),
            ChangeView::Replace(profile) => if rows.contains_key(profile.id) {
                rows.insert(profile.id, profile)
            } else {
                rows
            },
            ChangeView::Remove(id) => rows.remove(id),
        }
    }

    /// The last id that was given out, after the change: the id of a row that
    /// was added, which is higher than all before it.
    pub open spec fn counted(self, last_id: int) -> int {
        match self {
            ChangeView::Insert(profile) => profile.id,
            _ => last_id,
        }
    }
}

/// A file that is written each change that the session hands out holds the
/// table after every step: a step that hands out a change has made it in the
/// table, and no more; a step that hands out none has left the table alone.
pub proof fn law_changes_keep_the_table(session: SessionView, table: StoreView, event: EventView)
    requires
        table.wf(),
    ensures
        ({
            let after = step_of(session, table, event);
            match after.action {
                ActionView::Persist(change) => {
                    &&& kept(after.table) == change.written(kept(table))
                    &&& after.table.last_id == change.counted(table.last_id)
                    &&& change matches ChangeView::Insert(profile) ==> profile.id > table.last_id
                },
                _ => after.table == table,
            }
        }),
{
    let after = step_of(session, table, event);
    match after.action {
        ActionView::Persist(ChangeView::Insert(profile)) => {
            let fields = choose|fields| #[trigger]
                table.creation(fields) is Ok && after.table == table.created(fields) && profile
                    == fields.record(table.last_id + 1);
            assert forall|id: int|
                kept(after.table).contains_key(id) == #[trigger] kept(table).insert(
                    profile.id,
                    profile,
                ).contains_key(id) && (kept(after.table).contains_key(id) ==> kept(after.table)[id]
                    == kept(table).insert(profile.id, profile)[id]) by {
                law_create_then_get(table, fields, id);
            }
            assert(kept(after.table) =~= kept(table).insert(profile.id, profile));
        },
        ActionView::Persist(ChangeView::Replace(profile)) => {
            let fields = choose|fields| #[trigger]
                after.table == table.updated(profile.id, fields) && fields.complete() && table.has(
                    profile.id,
                ) && profile == fields.record(profile.id);
            assert forall|id: int|
                kept(after.table).contains_key(id) == #[trigger] kept(table).insert(
                    profile.id,
                    profile,
                ).contains_key(id) && (kept(after.table).contains_key(id) ==> kept(after.table)[id]
                    == kept(table).insert(profile.id, profile)[id]) by {
                law_update_then_get(table, profile.id, fields, id);
            }
            assert(kept(after.table) =~= kept(table).insert(profile.id, profile));
        },
        ActionView::Persist(ChangeView::Remove(target)) => {
            assert forall|id: int|
                kept(after.table).contains_key(id) == #[trigger] kept(table).remove(
                    target,
                ).contains_key(id) && (kept(after.table).contains_key(id) ==> kept(after.table)[id]
                    == kept(table).remove(target)[id]) by {
                law_delete_then_get(table, target, id);
            }
            assert(kept(after.table) =~= kept(table).remove(target));
        },
        _ => {},
    }
}

/// Without its last row a table is a table still, and holds the same rows
/// but that one.
proof fn lemma_kept_without_last(table: StoreView)
    requires
        table.wf(),
        table.rows.len() > 0,
    ensures
        (StoreView { rows: table.rows.drop_last(), ..table }).wf(),
        kept(StoreView { rows: table.rows.drop_last(), ..table }) == kept(table).remove(
            table.rows.last().id,
        ),
{
    let front = StoreView { rows: table.rows.drop_last(), ..table };
    let n = table.rows.len() as int;
    let last = table.rows.last();
    assert forall|i: int| 0 <= i < front.rows.len() implies #[trigger] front.rows[i]
        == table.rows[i] by {}
    assert(front.wf());
    assert forall|id: int|
        kept(front).contains_key(id) == #[trigger] kept(table).remove(last.id).contains_key(id) && (
        kept(front).contains_key(id) ==> kept(front)[id] == kept(table).remove(last.id)[id]) by {
        if front.has(id) {
            let i = front.index_of(id);
            assert(table.rows[i].id == id);
            assert(table.rows[i].id < table.rows[n - 1].id);
            lemma_index_of(table, i);
        } else if table.has(id) && id != last.id {
            let i = table.index_of(id);
            assert(i != n - 1);
            assert(front.rows[i].id == id);
        }
    }
    assert(kept(front) =~= kept(table).remove(last.id));
}

/// A table is known by what is kept of it: two tables with the same rows
/// under the same ids, and the same last id, are one table. So a table that
/// is read back from its file, row by row in the order of the ids, is the
/// table that was written.
pub proof fn law_kept_rows_are_the_table(a: StoreView, b: StoreView)
    requires
        a.wf(),
        b.wf(),
        kept(a) == kept(b),
        a.last_id == b.last_id,
    ensures
        a == b,
    decreases a.rows.len(),
{
    if a.rows.len() == 0 {
        if b.rows.len() > 0 {
            assert(b.has(b.rows[0].id));
            assert(kept(b).contains_key(b.rows[0].id));
            assert(a.has(b.rows[0].id));
        }
        assert(a.rows =~= b.rows);
    } else if b.rows.len() == 0 {
        assert(a.has(a.rows[0].id));
        assert(kept(a).contains_key(a.rows[0].id));
        assert(b.has(a.rows[0].id));
    } else {
        let m = a.rows.len() - 1;
        let n = b.rows.len() - 1;
        lemma_index_of(a, m);
        lemma_index_of(b, n);
        assert(kept(a).contains_key(a.rows[m].id));
        assert(kept(b).contains_key(b.rows[n].id));
        let i = a.index_of(b.rows[n].id);
        let j = b.index_of(a.rows[m].id);
        assert(b.has(a.rows[m].id));
        assert(a.has(b.rows[n].id));
        if i < m {
            assert(a.rows[i].id < a.rows[m].id);
        }
        if j < n {
            assert(b.rows[j].id < b.rows[n].id);
        }
        assert(a.rows[m].id == b.rows[n].id);
        assert(kept(a)[a.rows[m].id] == a.rows[m]);
        assert(kept(b)[b.rows[n].id] == b.rows[n]);
        lemma_kept_without_last(a);
        lemma_kept_without_last(b);
        law_kept_rows_are_the_table(
            StoreView { rows: a.rows.drop_last(), ..a },
            StoreView { rows: b.rows.drop_last(), ..b },
        );
        assert(a.rows =~= a.rows.drop_last().push(a.rows[m]));
        assert(b.rows =~= b.rows.drop_last().push(b.rows[n]));
    }
}

} // verus!
