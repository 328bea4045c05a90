//! What the statements do to the table, where the database does as they say: the rows that each of
//! them leaves, the row that a read finds, and the number that a count gives. On its way to the
//! database an instant is cut to whole microseconds.

use crate::statement::StatementView;
use crate::store::StoreView;
use crate::time::{Timestamp, NANOS_PER_SEC};
use vstd::prelude::*;

verus! {

/// The second with which the year 2000 begins, counted from the Unix epoch.
pub const DATABASE_EPOCH_SECS: i64 = 946_684_800;

/// An instant as the database has it: in microseconds since the beginning of the year 2000, of
/// which a part is cut off.
pub open spec fn in_micros(time: Timestamp) -> int {
    let nanos = time.instant() - DATABASE_EPOCH_SECS * NANOS_PER_SEC;
    if nanos >= 0 {
        nanos / 1_000
    } else {
        -((-nanos) / 1_000)
    }
}

/// A row, but for its ID. One without an expiry does not expire.
pub struct Row {
    pub session: Seq<char>,
    pub expires: Option<int>,
}

/// The rows by their IDs.
pub type Table = Map<Seq<char>, Row>;

impl Row {
    /// Whether a sweep at an instant leaves the row.
    pub open spec fn outlasts(self, now: Timestamp) -> bool {
        self.expires matches Some(expires) ==> in_micros(now) <= expires
    }

    /// Whether a read at an instant takes the row.
    pub open spec fn readable(self, now: Timestamp) -> bool {
        self.expires matches Some(expires) ==> in_micros(now) < expires
    }
}

impl StoreView {
    /// The rows after a statement. One that creates the table, counts the rows or reads one of
    /// them leaves them as they are.
    pub open spec fn run(self, table: Table, statement: StatementView) -> Table {
        let params = statement.params;
        if statement == self.write_statement(
            params[0]->Text_0,
            params[1]->Text_0,
            params[2]->Time_0,
        ) {
            table.insert(
                params[0]->Text_0,
                Row { session: params[1]->Text_0, expires: Some(in_micros(params[2]->Time_0)) },
            )
        } else if statement == self.destroy_statement(params[0]->Text_0) {
            table.remove(params[0]->Text_0)
        } else if statement == self.cleanup_statement(params[0]->Time_0) {
            Map::new(
                |id: Seq<char>|
                    table.contains_key(id) && table[id].outlasts(params[0]->Time_0),
                |id: Seq<char>| table[id],
            )
        } else if statement == self.clear_statement() {
            Map::empty()
        } else {
            table
        }
    }

    /// The rows after one statement and then the next.
    pub open spec fn run_all(self, table: Table, statements: Seq<StatementView>) -> Table
        decreases statements.len(),
    {
        if statements.len() == 0 {
            table
        } else {
            self.run(self.run_all(table, statements.drop_last()), statements.last())
        }
    }

    /// The text of the row that a statement reads, where it finds one.
    pub open spec fn row_read(self, table: Table, statement: StatementView) -> Option<Seq<char>> {
        let id = statement.params[0]->Text_0;
        let now = statement.params[1]->Time_0;
        if statement == self.load_statement(id, now) && table.contains_key(id)
            && table[id].readable(now) {
            Some(table[id].session)
        } else {
            None
        }
    }

    /// The number of rows that a statement counts.
    pub open spec fn rows_counted(self, table: Table, statement: StatementView) -> Option<nat> {
        if statement == self.count_statement() {
            Some(table.dom().len())
        } else {
            None
        }
    }

    /// Whether a statement writes the row of an ID.
    pub open spec fn writes(self, statement: StatementView, id: Seq<char>) -> bool {
        statement == self.write_statement(
            id,
            statement.params[1]->Text_0,
            statement.params[2]->Time_0,
        )
    }

    /// Whether a statement leaves the row of an ID as it is.
    pub open spec fn spares(self, statement: StatementView, id: Seq<char>, row: Row) -> bool {
        let swept_at = statement.params[0]->Time_0;
        &&& !self.writes(statement, id)
        &&& statement != self.destroy_statement(id)
        &&& statement == self.cleanup_statement(swept_at) ==> row.outlasts(swept_at)
        &&& statement != self.clear_statement()
    }

    /// The statements are told apart by the values that go with them, and those without any by
    /// their texts.
    pub proof fn lemma_statements_differ(self)
        ensures
            forall|id: Seq<char>, encoded: Seq<char>, expires: Timestamp|
                (#[trigger] self.write_statement(id, encoded, expires)).params.len() == 3,
            forall|id: Seq<char>, now: Timestamp|
                (#[trigger] self.load_statement(id, now)).params.len() == 2,
            forall|id: Seq<char>| #![trigger self.destroy_statement(id)]
                self.destroy_statement(id).params.len() == 1 && self.destroy_statement(
                    id,
                ).params[0] is Text,
            forall|now: Timestamp| #![trigger self.cleanup_statement(now)]
                self.cleanup_statement(now).params.len() == 1 && self.cleanup_statement(
                    now,
                ).params[0] is Time,
            self.clear_statement().params.len() == 0,
            self.count_statement().params.len() == 0,
            self.migrate_statement().params.len() == 0,
            self.count_statement() != self.clear_statement(),
            self.migrate_statement() != self.clear_statement(),
    {
        reveal_strlit("
            CREATE TABLE IF NOT EXISTS ");
        reveal_strlit("SELECT COUNT(*) FROM ");
        reveal_strlit("TRUNCATE ");
        assert(self.clear_statement().text[0] == 'T');
        assert(self.count_statement().text[0] == 'S');
        assert(self.migrate_statement().text[0] == '\n');
    }

    /// A row that each statement leaves as it is stays as it was.
    pub proof fn lemma_row_stays(
        self,
        table: Table,
        statements: Seq<StatementView>,
        id: Seq<char>,
    )
        requires
            table.contains_key(id),
            forall|i: int|
                0 <= i < statements.len() ==> self.spares(
                    #[trigger] statements[i],
                    id,
                    table[id],
                ),
        ensures
            self.run_all(table, statements).contains_key(id),
            self.run_all(table, statements)[id] == table[id],
        decreases statements.len(),
    {
        if statements.len() > 0 {
            let rest = statements.drop_last();
            assert forall|i: int| 0 <= i < rest.len() implies self.spares(
                #[trigger] rest[i],
                id,
                table[id],
            ) by {
                assert(rest[i] == statements[i]);
            }
            self.lemma_row_stays(table, rest, id);
            assert(self.spares(statements[statements.len() - 1], id, table[id]));
        }
    }

    /// A row that is not there stays away where no statement writes it.
    pub proof fn lemma_row_stays_away(
        self,
        table: Table,
        statements: Seq<StatementView>,
        id: Seq<char>,
    )
        requires
            !table.contains_key(id),
            forall|i: int|
                0 <= i < statements.len() ==> !self.writes(#[trigger] statements[i], id),
        ensures
            !self.run_all(table, statements).contains_key(id),
        decreases statements.len(),
    {
        if statements.len() > 0 {
            let rest = statements.drop_last();
            assert forall|i: int| 0 <= i < rest.len() implies !self.writes(
                #[trigger] rest[i],
                id,
            ) by {
                assert(rest[i] == statements[i]);
            }
            self.lemma_row_stays_away(table, rest, id);
            assert(!self.writes(statements[statements.len() - 1], id));
        }
    }
}

}
