//! The store gateway: the four operations on the `todos` table, what they
//! mean, and a table held in memory that carries them out.

use vstd::prelude::*;
use crate::models::{views, NewTodo, Todo, TodoView};

verus! {

/// Why the store did not carry out an operation.
#[derive(Debug, Clone, Copy, PartialEq, Eq, Structural)]
pub enum StoreError {
    /// No connection to the store could be had for this request.
    Unavailable,
    /// The store has no id left to assign to a new row.
    Exhausted,
    /// The store failed while it carried out the statement.
    Failed,
}

/// An operation on the `todos` table.
#[derive(Debug, PartialEq, Eq)]
pub enum StoreCommand {
    /// Create one row with this title.
    Insert(NewTodo),
    /// Return every row.
    ListAll,
    /// Overwrite the title and the flag of the row that has this id.
    UpdateById(Todo),
    /// Remove the row that has this id.
    DeleteById(i32),
}

/// What a `StoreCommand` holds, as mathematical values.
pub enum CommandView {
    Insert(Seq<char>),
    ListAll,
    UpdateById(TodoView),
    DeleteById(int),
}

impl View for StoreCommand {
    type V = CommandView;

    open spec fn view(&self) -> CommandView {
        match self {
            StoreCommand::Insert(new_todo) => CommandView::Insert(new_todo@),
            StoreCommand::ListAll => CommandView::ListAll,
            StoreCommand::UpdateById(todo) => CommandView::UpdateById(todo@),
            StoreCommand::DeleteById(id) => CommandView::DeleteById(*id as int),
        }
    }
}

/// What the store did. An update or a delete that found no row with the
/// id is no error: it changes nothing and reports `found: false`.
#[derive(Debug, PartialEq, Eq)]
pub enum StoreOutcome {
    /// The row that was created.
    Inserted(Todo),
    /// Every row of the table, in the table's order.
    Listed(Vec<Todo>),
    Updated { found: bool },
    Deleted { found: bool },
}

/// What a `StoreOutcome` holds, as mathematical values.
pub enum OutcomeView {
    Inserted(TodoView),
    Listed(Seq<TodoView>),
    Updated { found: bool },
    Deleted { found: bool },
}

impl View for StoreOutcome {
    type V = OutcomeView;

    open spec fn view(&self) -> OutcomeView {
        match self {
            StoreOutcome::Inserted(todo) => OutcomeView::Inserted(todo@),
            StoreOutcome::Listed(rows) => OutcomeView::Listed(views(rows@)),
            StoreOutcome::Updated { found } => OutcomeView::Updated { found: *found },
            StoreOutcome::Deleted { found } => OutcomeView::Deleted { found: *found },
        }
    }
}

/// The state of the `todos` table: its rows in the table's order, and the
/// id that the next new row gets.
pub struct TableView {
    pub rows: Seq<TodoView>,
    pub next_id: int,
}

/// A table is valid when every id lies between 1 and the next id to
/// assign, and no two rows share an id.
pub open spec fn valid(table: TableView) -> bool {
    &&& 1 <= table.next_id <= i32::MAX
    &&& forall|i: int|
        0 <= i < table.rows.len() ==> 1 <= (#[trigger] table.rows[i]).id < table.next_id
    &&& forall|i: int, j: int|
        0 <= i < j < table.rows.len() ==> (#[trigger] table.rows[i]).id
            != (#[trigger] table.rows[j]).id
}

/// The table without rows, whose first id is 1.
pub open spec fn empty_table() -> TableView {
    TableView { rows: Seq::empty(), next_id: 1 }
}

/// Whether the table can assign an id to one more row.
pub open spec fn has_room(table: TableView) -> bool {
    table.next_id < i32::MAX
}

/// Whether a row of `rows` has the id `id`.
pub open spec fn holds(rows: Seq<TodoView>, id: int) -> bool {
    exists|i: int| 0 <= i < rows.len() && (#[trigger] rows[i]).id == id
}

/// The row that an insert of `title` creates: it gets the table's next id
/// and is not done.
pub open spec fn created(table: TableView, title: Seq<char>) -> TodoView {
    TodoView { id: table.next_id, title, done: false }
}

/// The table after an insert of `title`: the new row stands last.
pub open spec fn inserted(table: TableView, title: Seq<char>) -> TableView {
    TableView { rows: table.rows.push(created(table, title)), next_id: table.next_id + 1 }
}

/// The table after an update: every row with the id gets the title and
/// the flag, and every row keeps its place.
pub open spec fn updated(table: TableView, id: int, title: Seq<char>, done: bool) -> TableView {
    TableView {
        rows: table.rows.map_values(
            |row: TodoView|
                if row.id == id {
                    TodoView { id, title, done }
                } else {
                    row
                },
        ),
        next_id: table.next_id,
    }
}

/// The table after a delete: the rows with the id are gone, and the
/// others keep their order.
pub open spec fn deleted(table: TableView, id: int) -> TableView {
    TableView { rows: table.rows.filter(|row: TodoView| row.id != id), next_id: table.next_id }
}

/// What an operation does to a table: the table afterwards, and what the
/// store reports.
pub open spec fn effect(table: TableView, command: CommandView) -> (
    TableView,
    Result<OutcomeView, StoreError>,
) {
    match command {
        CommandView::Insert(title) => if has_room(table) {
            (inserted(table, title), Ok(OutcomeView::Inserted(created(table, title))))
        } else {
            (table, Err(StoreError::Exhausted))
        },
        CommandView::ListAll => (table, Ok(OutcomeView::Listed(table.rows))),
        CommandView::UpdateById(todo) => (
            updated(table, todo.id, todo.title, todo.done),
            Ok(OutcomeView::Updated { found: holds(table.rows, todo.id) }),
        ),
        CommandView::DeleteById(id) => (
            deleted(table, id),
            Ok(OutcomeView::Deleted { found: holds(table.rows, id) }),
        ),
    }
}

/// A filter that every element passes keeps the sequence.
proof fn filter_keeps_all(rows: Seq<TodoView>, keep: spec_fn(TodoView) -> bool)
    requires
        forall|i: int| 0 <= i < rows.len() ==> keep(#[trigger] rows[i]),
    ensures
        rows.filter(keep) == rows,
    decreases rows.len(),
{
    reveal(Seq::filter);
    if rows.len() > 0 {
        let front = rows.drop_last();
        assert forall|i: int| 0 <= i < front.len() implies keep(#[trigger] front[i]) by {
            assert(front[i] == rows[i]);
        }
        filter_keeps_all(front, keep);
        assert(front.push(rows.last()) =~= rows);
    }
}

/// A filter that every element passes but the one at `at` removes that
/// one.
proof fn filter_drops_the_one(rows: Seq<TodoView>, keep: spec_fn(TodoView) -> bool, at: int)
    requires
        0 <= at < rows.len(),
        forall|i: int| 0 <= i < rows.len() ==> (keep(#[trigger] rows[i]) <==> i != at),
    ensures
        rows.filter(keep) == rows.remove(at),
    decreases rows.len(),
{
    reveal(Seq::filter);
    let front = rows.drop_last();
    if at == rows.len() - 1 {
        assert forall|i: int| 0 <= i < front.len() implies keep(#[trigger] front[i]) by {
            assert(front[i] == rows[i]);
        }
        filter_keeps_all(front, keep);
        assert(front =~= rows.remove(at));
    } else {
        assert forall|i: int| 0 <= i < front.len() implies (keep(#[trigger] front[i]) <==> i
            != at) by {
            assert(front[i] == rows[i]);
        }
        filter_drops_the_one(front, keep, at);
        assert(keep(rows[rows.len() - 1]));
        assert(front.remove(at).push(rows.last()) =~= rows.remove(at));
    }
}

/// The `todos` table held in memory.
#[derive(Debug)]
pub struct TodoTable {
    rows: Vec<Todo>,
    next_id: i32,
}

impl View for TodoTable {
    type V = TableView;

    closed spec fn view(&self) -> TableView {
        TableView { rows: views(self.rows@), next_id: self.next_id as int }
    }
}

impl TodoTable {
    /// The empty table.
    pub fn new() -> (table: TodoTable)
        ensures
            table@ == empty_table(),
            valid(table@),
    {
        let table = TodoTable { rows: Vec::new(), next_id: 1 };
        assert(table@.rows =~= Seq::empty());
        table
    }

    /// The table without rows whose first id is `first_id`; `None` where
    /// `first_id` is below 1.
    pub fn starting_at(first_id: i32) -> (result: Option<TodoTable>)
        ensures
            match result {
                Some(table) => {
                    &&& 1 <= first_id
                    &&& table@ == (TableView { rows: Seq::empty(), next_id: first_id as int })
                    &&& valid(table@)
                },
                None => first_id < 1,
            },
    {
        if first_id < 1 {
            return None;
        }
        let table = TodoTable { rows: Vec::new(), next_id: first_id };
        assert(table@.rows =~= Seq::empty());
        Some(table)
    }

    /// The position of the row with the id `id`.
    fn position(&self, id: i32) -> (found: Option<usize>)
        ensures
            match found {
                Some(at) => at < self@.rows.len() && self@.rows[at as int].id == id,
                None => !holds(self@.rows, id as int),
            },
    {
        let mut at: usize = 0;
        while at < self.rows.len()
            invariant
                at <= self.rows@.len(),
                forall|k: int| 0 <= k < at ==> (#[trigger] self@.rows[k]).id != id,
            decreases self.rows@.len() - at,
        {
            if self.rows[at].id == id {
                assert(self@.rows[at as int].id == id);
                return Some(at);
            }
            at = at + 1;
        }
        None
    }

    /// Creates one row with the title of `new_todo`, the next id and
    /// `done` false, and returns it. Fails where no id is left.
    pub fn insert(&mut self, new_todo: NewTodo) -> (result: Result<Todo, StoreError>)
        requires
            valid(old(self)@),
        ensures
            valid(final(self)@),
            match result {
                Ok(todo) => {
                    &&& has_room(old(self)@)
                    &&& todo@ == created(old(self)@, new_todo@)
                    &&& final(self)@ == inserted(old(self)@, new_todo@)
                },
                Err(e) => {
                    &&& !has_room(old(self)@)
                    &&& e == StoreError::Exhausted
                    &&& final(self)@ == old(self)@
                },
            },
    {
        if self.next_id == i32::MAX {
            return Err(StoreError::Exhausted);
        }
        let todo = Todo { id: self.next_id, title: new_todo.title, done: false };
        let copy = todo.clone();
        self.rows.push(todo);
        self.next_id = self.next_id + 1;
        assert(self@.rows =~= inserted(old(self)@, new_todo@).rows);
        Ok(copy)
    }

    /// Every row, in the table's order.
    pub fn list_all(&self) -> (rows: Vec<Todo>)
        ensures
            views(rows@) == self@.rows,
    {
        let mut rows: Vec<Todo> = Vec::new();
        let mut i: usize = 0;
        while i < self.rows.len()
            invariant
                i <= self.rows@.len(),
                rows@ == self.rows@.take(i as int),
            decreases self.rows@.len() - i,
        {
            rows.push(self.rows[i].clone());
            assert(rows@ =~= self.rows@.take(i as int + 1));
            i = i + 1;
        }
        assert(rows@ =~= self.rows@);
        rows
    }

    /// Overwrites the title and the flag of the row with the id `id`.
    /// Returns whether there was such a row.
    pub fn update_by_id(&mut self, id: i32, title: String, done: bool) -> (found: bool)
        requires
            valid(old(self)@),
        ensures
            valid(final(self)@),
            found == holds(old(self)@.rows, id as int),
            final(self)@ == updated(old(self)@, id as int, title@, done),
    {
        match self.position(id) {
            Some(at) => {
                self.rows[at] = Todo { id, title, done };
                assert(self@.rows =~= updated(old(self)@, id as int, title@, done).rows);
                true
            },
            None => {
                assert(self@.rows =~= updated(old(self)@, id as int, title@, done).rows);
                false
            },
        }
    }

    /// Removes the row with the id `id`. Returns whether there was such a
    /// row.
    pub fn delete_by_id(&mut self, id: i32) -> (found: bool)
        requires
            valid(old(self)@),
        ensures
            valid(final(self)@),
            found == holds(old(self)@.rows, id as int),
            final(self)@ == deleted(old(self)@, id as int),
    {
        let ghost others = |row: TodoView| row.id != id;
        match self.position(id) {
            Some(at) => {
                self.rows.remove(at);
                proof {
                    filter_drops_the_one(old(self)@.rows, others, at as int);
                    assert(self@.rows =~= old(self)@.rows.remove(at as int));
                }
                true
            },
            None => {
                proof {
                    filter_keeps_all(self@.rows, others);
                }
                false
            },
        }
    }

    /// Carries out one operation.
    pub fn execute(&mut self, command: StoreCommand) -> (result: Result<StoreOutcome, StoreError>)
        requires
            valid(old(self)@),
        ensures
            valid(final(self)@),
            final(self)@ == effect(old(self)@, command@).0,
            match result {
                Ok(outcome) => effect(old(self)@, command@).1 == Ok::<OutcomeView, StoreError>(
                    outcome@,
                ),
                Err(e) => effect(old(self)@, command@).1 == Err::<OutcomeView, StoreError>(e),
            },
    {
        match command {
            StoreCommand::Insert(new_todo) => match self.insert(new_todo) {
                Ok(todo) => Ok(StoreOutcome::Inserted(todo)),
                Err(e) => Err(e),
            },
            StoreCommand::ListAll => Ok(StoreOutcome::Listed(self.list_all())),
            StoreCommand::UpdateById(todo) => {
                let found = self.update_by_id(todo.id, todo.title, todo.done);
                Ok(StoreOutcome::Updated { found })
            },
            StoreCommand::DeleteById(id) => {
                let found = self.delete_by_id(id);
                Ok(StoreOutcome::Deleted { found })
            },
        }
    }
}

/// Every operation leaves a valid table valid.
pub proof fn effect_keeps_valid(table: TableView, command: CommandView)
    requires
        valid(table),
    ensures
        valid(effect(table, command).0),
{
    match command {
        CommandView::Insert(title) => {},
        CommandView::ListAll => {},
        CommandView::UpdateById(todo) => {},
        CommandView::DeleteById(id) => {
            let others = |row: TodoView| row.id != id;
            if holds(table.rows, id) {
                let at = choose|i: int| 0 <= i < table.rows.len() && (#[trigger] table.rows[i]).id
                    == id;
                filter_drops_the_one(table.rows, others, at);
                let after = table.rows.remove(at);
                assert forall|i: int| 0 <= i < after.len() implies 1 <= (#[trigger] after[i]).id
                    < table.next_id by {
                    assert(after[i] == table.rows[if i < at {
                        i
                    } else {
                        i + 1
                    }]);
                }
                assert forall|i: int, j: int| 0 <= i < j < after.len() implies (
                #[trigger] after[i]).id != (#[trigger] after[j]).id by {
                    assert(after[i] == table.rows[if i < at {
                        i
                    } else {
                        i + 1
                    }]);
                    assert(after[j] == table.rows[if j < at {
                        j
                    } else {
                        j + 1
                    }]);
                }
            } else {
                filter_keeps_all(table.rows, others);
            }
        },
    }
}

/// Whether `row` holds `title` and is not done.
pub open spec fn open_with(row: TodoView, title: Seq<char>) -> bool {
    row.title == title && !row.done
}

/// Whether the row at `at` is the only row of `rows` that holds `title`
/// and is not done.
pub open spec fn sole_open_row(rows: Seq<TodoView>, title: Seq<char>, at: int) -> bool {
    &&& 0 <= at < rows.len()
    &&& open_with(rows[at], title)
    &&& forall|j: int| 0 <= j < rows.len() && open_with(#[trigger] rows[j], title) ==> j == at
}

/// Insert, then list: where the table had no row that holds `title` and
/// is not done, the listing after the insert has exactly one such row.
pub proof fn insert_then_list(table: TableView, title: Seq<char>)
    requires
        has_room(table),
        forall|i: int| 0 <= i < table.rows.len() ==> !open_with(#[trigger] table.rows[i], title),
    ensures
        ({
            let after = effect(table, CommandView::Insert(title)).0;
            &&& effect(after, CommandView::ListAll).1 matches Ok(OutcomeView::Listed(rows))
            &&& exists|at: int| sole_open_row(rows, title, at)
        }),
{
    let rows = inserted(table, title).rows;
    let last = rows.len() - 1;
    assert forall|j: int| 0 <= j < rows.len() && open_with(#[trigger] rows[j], title) implies j
        == last by {
        if j < last {
            assert(rows[j] == table.rows[j]);
        }
    }
    let after = effect(table, CommandView::Insert(title)).0;
    assert(effect(after, CommandView::ListAll).1 matches Ok(OutcomeView::Listed(listed))
        && sole_open_row(listed, title, last));
}

/// A listing changes nothing: two listings with no write between them
/// report the same rows in the same order.
pub proof fn list_twice(table: TableView)
    ensures
        effect(table, CommandView::ListAll).0 == table,
        effect(effect(table, CommandView::ListAll).0, CommandView::ListAll).1 == effect(
            table,
            CommandView::ListAll,
        ).1,
{
}

/// Update, then list: the listing after the update shows the row with the
/// id with the new title and flag, and every other row as it was.
pub proof fn update_then_list(table: TableView, id: int, title: Seq<char>, done: bool)
    ensures
        ({
            let after = effect(table, CommandView::UpdateById(TodoView { id, title, done })).0;
            &&& effect(after, CommandView::ListAll).1 matches Ok(OutcomeView::Listed(rows))
            &&& rows.len() == table.rows.len()
            &&& forall|i: int|
                0 <= i < rows.len() ==> #[trigger] rows[i] == if table.rows[i].id == id {
                    TodoView { id, title, done }
                } else {
                    table.rows[i]
                }
        }),
{
}

/// Delete, then list: the delete is no error, the listing after it has no
/// row with the id, and it has every other row of the table and no more.
/// A delete of an id that no row has leaves the table as it was.
pub proof fn delete_then_list(table: TableView, id: int)
    ensures
        effect(table, CommandView::DeleteById(id)).1 is Ok,
        !holds(table.rows, id) ==> effect(table, CommandView::DeleteById(id)).0 == table,
        ({
            let after = effect(table, CommandView::DeleteById(id)).0;
            &&& effect(after, CommandView::ListAll).1 matches Ok(OutcomeView::Listed(rows))
            &&& !holds(rows, id)
            &&& forall|row: TodoView| #[trigger]
                rows.contains(row) <==> table.rows.contains(row) && row.id != id
        }),
{
    let others = |row: TodoView| row.id != id;
    let rows = table.rows.filter(others);
    assert forall|i: int| 0 <= i < rows.len() implies (#[trigger] rows[i]).id != id by {
        table.rows.lemma_filter_pred(others, i);
    }
    assert forall|row: TodoView| #[trigger]
        rows.contains(row) <==> table.rows.contains(row) && row.id != id by {
        if rows.contains(row) {
            table.rows.lemma_filter_contains_rev(others, row);
            let i = choose|i: int| 0 <= i < rows.len() && rows[i] == row;
            table.rows.lemma_filter_pred(others, i);
        }
        if table.rows.contains(row) && row.id != id {
            let k = choose|k: int| 0 <= k < table.rows.len() && table.rows[k] == row;
            table.rows.lemma_filter_contains(others, k);
        }
    }
    if !holds(table.rows, id) {
        filter_keeps_all(table.rows, others);
    }
}

} // verus!
