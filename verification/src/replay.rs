//! What holds of the table whatever is done to it: how one change shows when
//! a profile is looked up afterwards, and what a whole sequence of changes
//! leaves behind.

use vstd::prelude::*;

use crate::profile::{Fields, ProfileView};
use crate::store::{lemma_index_of, StoreView};

verus! {

/// One change to the table.
pub enum Operation {
    /// `create` with these fields.
    Create(Fields),
    /// `update` of the profile with this id, with these fields.
    Update(int, Fields),
    /// `delete` of the profile with this id.
    Delete(int),
}

/// The table after one change.
pub open spec fn apply(table: StoreView, op: Operation) -> StoreView {
    match op {
        Operation::Create(fields) => table.created(fields),
        Operation::Update(id, fields) => table.updated(id, fields),
        Operation::Delete(id) => table.deleted(id),
    }
}

/// The table after a sequence of changes, made one after the other.
pub open spec fn replay(table: StoreView, ops: Seq<Operation>) -> StoreView
    decreases ops.len(),
{
    if ops.len() == 0 {
        table
    } else {
        apply(replay(table, ops.drop_last()), ops.last())
    }
}

/// The last id that has been given out after a sequence of changes, where
/// `last_id` was the last before them: each `create` that has its required
/// texts takes the next number, as long as there is one.
pub open spec fn issued(last_id: int, ops: Seq<Operation>) -> int
    decreases ops.len(),
{
    if ops.len() == 0 {
        last_id
    } else {
        let before = issued(last_id, ops.drop_last());
        match ops.last() {
            Operation::Create(fields) => if fields.complete() && before < i32::MAX {
                before + 1
            } else {
                before
            },
            _ => before,
        }
    }
}

/// What a sequence of changes leaves under one id: the fields of the last
/// `create` or `update` that wrote to the id, unless a `delete` of the id came
/// after it; what the table held before, where no change touched the id.
pub open spec fn outcome(table: StoreView, ops: Seq<Operation>, id: int) -> Option<ProfileView>
    decreases ops.len(),
{
    if ops.len() == 0 {
        table.find(id)
    } else {
        let earlier = ops.drop_last();
        let before = outcome(table, earlier, id);
        let given = issued(table.last_id, earlier);
        match ops.last() {
            Operation::Create(fields) => if fields.complete() && given < i32::MAX && id == given
                + 1 {
                Some(fields.record(id))
            } else {
                before
            },
            Operation::Update(target, fields) => if target == id && fields.complete()
                && before is Some {
                Some(fields.record(id))
            } else {
                before
            },
            Operation::Delete(target) => if target == id {
                None
            } else {
                before
            },
        }
    }
}

/// After a `create` that succeeded the table is well formed, the new profile
/// is found under the id that was given, with the fields it was made from,
/// and every other id holds what it held.
pub proof fn law_create_then_get(table: StoreView, fields: Fields, id: int)
    requires
        table.wf(),
        table.creation(fields) is Ok,
    ensures
        table.created(fields).wf(),
        table.created(fields).last_id == table.last_id + 1,
        table.created(fields).find(id) == if id == table.last_id + 1 {
            Some(fields.record(id))
        } else {
            table.find(id)
        },
{
    let after = table.created(fields);
    let n = table.rows.len() as int;
    let made = fields.record(table.last_id + 1);
    assert(after.rows[n] == made);
    assert(made.valid());
    assert forall|i: int| 0 <= i < after.rows.len() implies (#[trigger] after.rows[i]).valid()
        && after.rows[i].id <= after.last_id by {
        if i < n {
            assert(after.rows[i] == table.rows[i]);
        }
    }
    assert forall|i: int, j: int| 0 <= i < j < after.rows.len() implies (
    #[trigger] after.rows[i]).id < (#[trigger] after.rows[j]).id by {
        assert(after.rows[i] == table.rows[i]);
        if j < n {
            assert(after.rows[j] == table.rows[j]);
        }
    }
    assert(after.wf());
    if id == table.last_id + 1 {
        lemma_index_of(after, n);
    } else if table.has(id) {
        let i = table.index_of(id);
        assert(after.rows[i] == table.rows[i]);
        lemma_index_of(after, i);
    } else if after.has(id) {
        let k = after.index_of(id);
        assert(k < n);
        assert(table.rows[k] == after.rows[k]);
        assert(table.has(id));
    }
}

/// After an `update` the table is well formed. Where its fields were
/// complete and a profile had the id, that profile now holds the new fields;
/// every other id holds what it held.
pub proof fn law_update_then_get(table: StoreView, target: int, fields: Fields, id: int)
    requires
        table.wf(),
    ensures
        table.updated(target, fields).wf(),
        table.updated(target, fields).last_id == table.last_id,
        table.updated(target, fields).find(id) == if id == target && fields.complete()
            && table.has(target) {
            Some(fields.record(id))
        } else {
            table.find(id)
        },
{
    let after = table.updated(target, fields);
    if fields.complete() && table.has(target) {
        let k = table.index_of(target);
        let made = fields.record(target);
        assert(table.rows[k].valid());
        assert(made.valid());
        assert forall|i: int| 0 <= i < after.rows.len() implies (#[trigger] after.rows[i]).valid()
            && after.rows[i].id <= after.last_id && after.rows[i].id == table.rows[i].id by {
            if i != k {
                assert(after.rows[i] == table.rows[i]);
            }
        }
        assert forall|i: int, j: int| 0 <= i < j < after.rows.len() implies (
        #[trigger] after.rows[i]).id < (#[trigger] after.rows[j]).id by {
            assert(after.rows[i].id == table.rows[i].id);
            assert(after.rows[j].id == table.rows[j].id);
        }
        assert(after.wf());
        if table.has(id) {
            let i = table.index_of(id);
            assert(after.rows[i].id == id);
            lemma_index_of(after, i);
            if id == target {
                assert(i == k);
            } else {
                assert(i != k);
                assert(after.rows[i] == table.rows[i]);
            }
        } else if after.has(id) {
            let i = after.index_of(id);
            assert(table.rows[i].id == id);
            assert(table.has(id));
        }
    }
}

/// After a `delete` the table is well formed, no profile has the id, and
/// every other id holds what it held.
pub proof fn law_delete_then_get(table: StoreView, target: int, id: int)
    requires
        table.wf(),
    ensures
        table.deleted(target).wf(),
        table.deleted(target).last_id == table.last_id,
        table.deleted(target).find(id) == if id == target {
            None
        } else {
            table.find(id)
        },
{
    let after = table.deleted(target);
    if table.has(target) {
        let k = table.index_of(target);
        assert forall|i: int| 0 <= i < after.rows.len() implies #[trigger] after.rows[i] == (if i
            < k {
            table.rows[i]
        } else {
            table.rows[i + 1]
        }) by {}
        assert forall|i: int| 0 <= i < after.rows.len() implies (#[trigger] after.rows[i]).valid()
            && after.rows[i].id <= after.last_id by {
            if i < k {
                assert(table.rows[i].valid());
            } else {
                assert(table.rows[i + 1].valid());
            }
        }
        assert forall|i: int, j: int| 0 <= i < j < after.rows.len() implies (
        #[trigger] after.rows[i]).id < (#[trigger] after.rows[j]).id by {
            let a = if i < k {
                i
            } else {
                i + 1
            };
            let b = if j < k {
                j
            } else {
                j + 1
            };
            assert(table.rows[a].id < table.rows[b].id);
        }
        assert(after.wf());
        if after.has(id) {
            let i = after.index_of(id);
            let a = if i < k {
                i
            } else {
                i + 1
            };
            assert(table.rows[a].id == id);
            lemma_index_of(table, a);
            assert(a != k);
            assert(id != target);
        } else if table.has(id) && id != target {
            let a = table.index_of(id);
            assert(a != k);
            let i = if a < k {
                a
            } else {
                a - 1
            };
            assert(after.rows[i] == table.rows[a]);
            assert(after.has(id));
        }
    } else {
        assert(table.find(target) is None);
    }
}

/// A second `delete` of the same id changes nothing.
pub proof fn law_delete_twice(table: StoreView, id: int)
    requires
        table.wf(),
    ensures
        table.deleted(id).deleted(id) == table.deleted(id),
{
    law_delete_then_get(table, id, id);
}

/// An `update` of an id that no profile has leaves the table as it was.
pub proof fn law_update_absent(table: StoreView, id: int, fields: Fields)
    requires
        !table.has(id),
    ensures
        table.updated(id, fields) == table,
        table.updated(id, fields).listing() == table.listing(),
{
}

/// Whatever sequence of changes is made to a well-formed table, the table
/// stays well formed, and it holds exactly what the changes leave behind:
/// under each id the fields that were written to it last, and nothing under an
/// id that was deleted after its last write or never written.
pub proof fn law_replay(table: StoreView, ops: Seq<Operation>, id: int)
    requires
        table.wf(),
    ensures
        replay(table, ops).wf(),
        replay(table, ops).last_id == issued(table.last_id, ops),
        replay(table, ops).find(id) == outcome(table, ops, id),
    decreases ops.len(),
{
    if ops.len() > 0 {
        let earlier = ops.drop_last();
        law_replay(table, earlier, id);
        let before = replay(table, earlier);
        match ops.last() {
            Operation::Create(fields) => {
                if before.creation(fields) is Ok {
                    law_create_then_get(before, fields, id);
                }
            },
            Operation::Update(target, fields) => {
                law_update_then_get(before, target, fields, id);
                law_update_then_get(before, target, fields, target);
                law_replay(table, earlier, target);
            },
            Operation::Delete(target) => {
                law_delete_then_get(before, target, id);
            },
        }
    }
}

/// After any sequence of changes the rows of the table, which are what the
/// menu lists, are exactly the profiles that the changes left behind: each row
/// is what was written last to its id, and each id that holds something has
/// its row.
pub proof fn law_rows_after_replay(table: StoreView, ops: Seq<Operation>)
    requires
        table.wf(),
    ensures
        forall|i: int|
            0 <= i < replay(table, ops).rows.len() ==> outcome(
                table,
                ops,
                (#[trigger] replay(table, ops).rows[i]).id,
            ) == Some(replay(table, ops).rows[i]),
        forall|id: int| #[trigger]
            outcome(table, ops, id) is Some ==> replay(table, ops).has(id),
{
    let after = replay(table, ops);
    assert forall|i: int| 0 <= i < after.rows.len() implies outcome(
        table,
        ops,
        (#[trigger] after.rows[i]).id,
    ) == Some(after.rows[i]) by {
        law_replay(table, ops, after.rows[i].id);
        lemma_index_of(after, i);
    }
    assert forall|id: int| #[trigger] outcome(table, ops, id) is Some implies after.has(id) by {
        law_replay(table, ops, id);
    }
}

/// An id that was given out and then lost its profile is never given again:
/// no sequence of changes puts a profile under it.
pub proof fn law_ids_are_not_reused(table: StoreView, ops: Seq<Operation>, id: int)
    requires
        table.wf(),
        id <= table.last_id,
        !table.has(id),
    ensures
        !replay(table, ops).has(id),
        table.last_id <= replay(table, ops).last_id,
    decreases ops.len(),
{
    if ops.len() > 0 {
        let earlier = ops.drop_last();
        law_ids_are_not_reused(table, earlier, id);
        law_replay(table, earlier, id);
        let before = replay(table, earlier);
        match ops.last() {
            Operation::Create(fields) => {
                if before.creation(fields) is Ok {
                    law_create_then_get(before, fields, id);
                }
            },
            Operation::Update(target, fields) => {
                law_update_then_get(before, target, fields, id);
            },
            Operation::Delete(target) => {
                law_delete_then_get(before, target, id);
            },
        }
    }
}

} // verus!
