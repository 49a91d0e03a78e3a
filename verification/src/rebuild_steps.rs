use vstd::prelude::*;

use crate::json::{has_key, strings_view};
use crate::messages::{opt_view, WindowMessage};
use crate::rebuild::{contains_key, Rebuild};

verus! {

/// The SQL that asks whether `table` exists in the public schema.
pub open spec fn spec_check_table_sql(table: Seq<char>) -> Seq<char> {
    "SELECT EXISTS ( SELECT FROM pg_tables WHERE schemaname = 'public' AND tablename = '"@ + table
        + "');"@
}

/// The SQL that drops `table`.
pub open spec fn spec_drop_table_sql(table: Seq<char>) -> Seq<char> {
    "DROP TABLE "@ + table + ";"@
}

/// The report of a table that was created again.
pub open spec fn table_rebuilt_text() -> Seq<char> {
    "Table Successfully rebuilt"@
}

/// The report of rows that were inserted again.
pub open spec fn rows_added_text() -> Seq<char> {
    "Rows Successfully added"@
}

/// The message shown after a successful rebuild: the table's report, a line
/// break, and the rows' report when rows were inserted (else nothing).
pub open spec fn success_text(add_rows: bool) -> Seq<char> {
    table_rebuilt_text() + "\n"@ + if add_rows {
        rows_added_text()
    } else {
        ""@
    }
}

/// Builds the SQL that asks whether `table` exists in the public schema.
pub fn check_table_sql(table: &String) -> (res: String)
    ensures
        res@ == spec_check_table_sql(table@),
{
    let mut sql = String::from_str(
        "SELECT EXISTS ( SELECT FROM pg_tables WHERE schemaname = 'public' AND tablename = '",
    );
    sql.append(table.as_str());
    sql.append("');");
    sql
}

/// Builds the SQL that drops `table`.
pub fn drop_table_sql(table: &String) -> (res: String)
    ensures
        res@ == spec_drop_table_sql(table@),
{
    let mut sql = String::from_str("DROP TABLE ");
    sql.append(table.as_str());
    sql.append(";");
    sql
}

/// Where a rebuild stands: the step whose outcome it waits for.
#[derive(Debug, Clone, Copy, PartialEq, Eq, Structural)]
pub enum RebuildPhase {
    /// Waiting for the connection to the database.
    Connecting,
    /// Waiting for the answer to whether the table exists.
    Checking,
    /// Waiting for the table to be dropped.
    Dropping,
    /// Waiting for the table to be created.
    Creating,
    /// Waiting for the row statement with this index to be executed.
    Inserting(usize),
    /// Waiting for the connection to be closed.
    Closing,
    /// The rebuild is over.
    Finished,
}

/// What happened to the last step the driver performed.
#[derive(Debug, Clone, PartialEq, Eq)]
pub enum RebuildEvent {
    /// The connection, statement or closing succeeded.
    Done,
    /// The query succeeded and answered this.
    Answer(bool),
    /// The step failed with this error text.
    Failed(String),
}

/// The next step the driver is to perform.
#[derive(Debug, PartialEq, Eq)]
pub enum RebuildAction {
    /// Connect to the database.
    Connect,
    /// Run this query and report its single boolean answer.
    Query(String),
    /// Execute this batch of SQL.
    Execute(String),
    /// Close the connection.
    Close,
    /// The rebuild is over, with this outcome.
    Finish(Result<(), String>),
}

/// A rebuild of one table in progress.
#[derive(Debug)]
pub struct RebuildRun {
    /// The step the rebuild waits for.
    phase: RebuildPhase,
    /// The table being rebuilt.
    table: String,
    /// The SQL that creates the table, if the table has one.
    create_sql: Option<String>,
    /// The SQL statements that fill the table, if it has them (none when
    /// rows are not inserted).
    row_sqls: Option<Vec<String>>,
    /// Whether the rows are inserted.
    add_rows: bool,
}

/// A rebuild in progress, as values.
pub struct RunState {
    pub phase: RebuildPhase,
    pub table: Seq<char>,
    pub create_sql: Option<Seq<char>>,
    pub row_sqls: Option<Seq<Seq<char>>>,
    pub add_rows: bool,
}

/// An event, as values.
pub enum StepEvent {
    Done,
    Answer(bool),
    Failed(Seq<char>),
}

/// An action, as values.
pub enum StepAction {
    Connect,
    Query(Seq<char>),
    Execute(Seq<char>),
    Close,
    Finish(Result<(), Seq<char>>),
}

impl RebuildRun {
    /// The rebuild in progress, as values.
    pub closed spec fn view(&self) -> RunState {
        RunState {
            phase: self.phase,
            table: self.table@,
            create_sql: opt_view(self.create_sql),
            row_sqls: match self.row_sqls {
                Some(rows) => Some(strings_view(rows@)),
                None => None,
            },
            add_rows: self.add_rows,
        }
    }
}

impl RebuildEvent {
    pub open spec fn view(&self) -> StepEvent {
        match self {
            RebuildEvent::Done => StepEvent::Done,
            RebuildEvent::Answer(b) => StepEvent::Answer(*b),
            RebuildEvent::Failed(e) => StepEvent::Failed(e@),
        }
    }
}

impl RebuildAction {
    pub open spec fn view(&self) -> StepAction {
        match self {
            RebuildAction::Connect => StepAction::Connect,
            RebuildAction::Query(q) => StepAction::Query(q@),
            RebuildAction::Execute(s) => StepAction::Execute(s@),
            RebuildAction::Close => StepAction::Close,
            RebuildAction::Finish(Ok(())) => StepAction::Finish(Ok(())),
            RebuildAction::Finish(Err(e)) => StepAction::Finish(Err(e@)),
        }
    }
}

/// The state a rebuild of the chosen table starts in: it holds the table's
/// creating SQL and, when rows are to be inserted, its filling SQL, where the
/// table has them (no statements when rows are not inserted).
pub open spec fn start_state(rebuild: Rebuild) -> RunState {
    RunState {
        phase: RebuildPhase::Connecting,
        table: rebuild.modal@,
        create_sql: if has_key(rebuild.sql_tables@, rebuild.modal@) {
            Some(rebuild.chosen_table_sql())
        } else {
            None
        },
        row_sqls: if !rebuild.add_rows {
            Some(Seq::empty())
        } else if has_key(rebuild.sql_rows@, rebuild.modal@) {
            Some(rebuild.chosen_rows_sql())
        } else {
            None
        },
        add_rows: rebuild.add_rows,
    }
}

/// The creating SQL a state holds (empty where it holds none).
pub open spec fn create_text(s: RunState) -> Seq<char> {
    match s.create_sql {
        Some(t) => t,
        None => Seq::empty(),
    }
}

/// The row statements a state holds (none where it holds none).
pub open spec fn rows_of(s: RunState) -> Seq<Seq<char>> {
    match s.row_sqls {
        Some(rows) => rows,
        None => Seq::empty(),
    }
}

/// A state is consistent: the row statement waited for is one it holds.
pub open spec fn state_ok(s: RunState) -> bool {
    s.phase matches RebuildPhase::Inserting(k) ==> s.row_sqls is Some && k < rows_of(s).len()
}

/// The SQL that the next action needs is at hand: the creating SQL when the
/// table is to be created now, and the filling SQL when the rows are to be
/// inserted now. (Without it the rebuild cannot go on.)
pub open spec fn spec_sql_available(s: RunState, e: StepEvent) -> bool {
    &&& (s.phase == RebuildPhase::Checking && e == StepEvent::Answer(false)) ==> s.create_sql is Some
    &&& (s.phase == RebuildPhase::Dropping && e == StepEvent::Done) ==> s.create_sql is Some
    &&& (s.phase == RebuildPhase::Creating && e == StepEvent::Done) ==> s.row_sqls is Some
}

/// The event fits the step waited for: any unfinished step may fail; a
/// query that succeeds gets an answer, any other step a success; and a
/// finished rebuild gets nothing.
pub open spec fn spec_accepts(s: RunState, e: StepEvent) -> bool {
    &&& s.phase != RebuildPhase::Finished
    &&& e is Answer ==> s.phase == RebuildPhase::Checking
    &&& s.phase == RebuildPhase::Checking ==> !(e is Done)
}

/// The state with a new phase.
pub open spec fn with_phase(s: RunState, phase: RebuildPhase) -> RunState {
    RunState { phase, ..s }
}

/// What follows the successful creation of the table, or the successful
/// execution of the row statements before `next`: the next row statement,
/// or, when none is left, the success message and the closing.
pub open spec fn after_rows(s: RunState, next: nat) -> (RunState, StepAction, Option<Seq<char>>) {
    if s.add_rows && next < rows_of(s).len() {
        (
            with_phase(s, RebuildPhase::Inserting(next as usize)),
            StepAction::Execute(rows_of(s)[next as int]),
            None,
        )
    } else {
        (with_phase(s, RebuildPhase::Closing), StepAction::Close, Some(success_text(s.add_rows)))
    }
}

/// One step of a rebuild: from the state and the outcome of the step waited
/// for, the next state, the next action, and the success message to show,
/// if this step sets one. A failure ends the rebuild with its error text.
pub open spec fn step(s: RunState, e: StepEvent) -> (RunState, StepAction, Option<Seq<char>>) {
    match e {
        StepEvent::Failed(error) => (
            with_phase(s, RebuildPhase::Finished),
            StepAction::Finish(Err(error)),
            None,
        ),
        StepEvent::Answer(exists) => if exists {
            (
                with_phase(s, RebuildPhase::Dropping),
                StepAction::Execute(spec_drop_table_sql(s.table)),
                None,
            )
        } else {
            (with_phase(s, RebuildPhase::Creating), StepAction::Execute(create_text(s)), None)
        },
        StepEvent::Done => match s.phase {
            RebuildPhase::Connecting => (
                with_phase(s, RebuildPhase::Checking),
                StepAction::Query(spec_check_table_sql(s.table)),
                None,
            ),
            RebuildPhase::Dropping => (
                with_phase(s, RebuildPhase::Creating),
                StepAction::Execute(create_text(s)),
                None,
            ),
            RebuildPhase::Creating => after_rows(s, 0),
            RebuildPhase::Inserting(k) => after_rows(s, (k + 1) as nat),
            _ => (with_phase(s, RebuildPhase::Finished), StepAction::Finish(Ok(())), None),
        },
    }
}

/// Whether a step leaves the rebuild screen as it was, but for the success
/// message, which it sets when the step calls for one.
pub open spec fn screen_after_step(
    before: Rebuild,
    after: Rebuild,
    message: Option<Seq<char>>,
) -> bool {
    &&& after.modal == before.modal
    &&& after.add_rows == before.add_rows
    &&& after.sql_tables == before.sql_tables
    &&& after.sql_rows == before.sql_rows
    &&& after.gear == before.gear
    &&& match message {
        Some(m) => after.window_message@ == (true, Some(m)),
        None => after.window_message == before.window_message,
    }
}

/// Builds the message shown after a successful rebuild.
pub fn success_message(add_rows: bool) -> (res: String)
    ensures
        res@ == success_text(add_rows),
{
    let mut message = String::from_str("Table Successfully rebuilt");
    message.append("\n");
    let rows_report = if add_rows {
        String::from_str("Rows Successfully added")
    } else {
        String::from_str("")
    };
    message.append(rows_report.as_str());
    message
}

impl RebuildRun {
    #[verifier::type_invariant]
    closed spec fn inv(&self) -> bool {
        state_ok(self@)
    }

    /// Whether `event` fits the step this rebuild waits for.
    pub fn accepts(&self, event: &RebuildEvent) -> (res: bool)
        ensures
            res == spec_accepts(self@, event@),
    {
        match self.phase {
            RebuildPhase::Finished => false,
            RebuildPhase::Checking => match event {
                RebuildEvent::Done => false,
                _ => true,
            },
            _ => match event {
                RebuildEvent::Answer(_) => false,
                _ => true,
            },
        }
    }

    /// Whether the SQL that the step following `event` needs is missing.
    pub fn missing_sql_for(&self, event: &RebuildEvent) -> (res: bool)
        ensures
            res == !spec_sql_available(self@, event@),
    {
        let creates = match self.phase {
            RebuildPhase::Checking => match event {
                RebuildEvent::Answer(exists) => !*exists,
                _ => false,
            },
            RebuildPhase::Dropping => match event {
                RebuildEvent::Done => true,
                _ => false,
            },
            _ => false,
        };
        let fills = match self.phase {
            RebuildPhase::Creating => match event {
                RebuildEvent::Done => true,
                _ => false,
            },
            _ => false,
        };
        (creates && self.create_sql.is_none()) || (fills && self.row_sqls.is_none())
    }

    /// The creating SQL the run holds (empty where it holds none).
    fn create_sql_text(&self) -> (res: String)
        ensures
            res@ == create_text(self@),
    {
        match &self.create_sql {
            Some(sql) => sql.clone(),
            None => String::new(),
        }
    }

    /// Whether the rebuild waits for the table to be created.
    pub fn creating(&self) -> (res: bool)
        ensures
            res == (self@.phase == RebuildPhase::Creating),
    {
        match self.phase {
            RebuildPhase::Creating => true,
            _ => false,
        }
    }

    /// Starts the rebuild of the chosen table: the first action is to
    /// connect. The run takes along the table's creating SQL and, when rows
    /// are to be inserted, its filling SQL, where the table has them.
    pub fn begin(rebuild: &Rebuild) -> (res: (RebuildRun, RebuildAction))
        ensures
            res.0@ == start_state(*rebuild),
            res.1@ == StepAction::Connect,
            rebuild.add_rows && !has_key(rebuild.sql_rows@, rebuild.modal@) ==> res.0@.row_sqls is None,
            !has_key(rebuild.sql_tables@, rebuild.modal@) ==> res.0@.create_sql is None,
    {
        let create_sql = if contains_key(&rebuild.sql_tables, &rebuild.modal) {
            Some(rebuild.get_sql_table_string().clone())
        } else {
            None
        };
        let row_sqls = if !rebuild.add_rows {
            Some(Vec::new())
        } else if contains_key(&rebuild.sql_rows, &rebuild.modal) {
            Some(rebuild.get_sql_rows_string().clone())
        } else {
            None
        };
        let run = RebuildRun {
            phase: RebuildPhase::Connecting,
            table: rebuild.modal.clone(),
            create_sql,
            row_sqls,
            add_rows: rebuild.add_rows,
        };
        proof {
            assert(run@.row_sqls =~= start_state(*rebuild).row_sqls);
        }
        (run, RebuildAction::Connect)
    }

    /// What follows a successful creation or row statement: the row
    /// statement `next`, or the success message and the closing.
    fn continue_with_rows(&mut self, rebuild: &mut Rebuild, next: usize) -> (action: RebuildAction)
        requires
            next <= rows_of(old(self)@).len(),
        ensures
            (final(self)@, action@) == ({
                let t = after_rows(old(self)@, next as nat);
                (t.0, t.1)
            }),
            screen_after_step(*old(rebuild), *final(rebuild), after_rows(old(self)@, next as nat).2),
    {
        if self.add_rows {
            if let Some(rows) = &self.row_sqls {
                if next < rows.len() {
                    let sql = rows[next].clone();
                    self.phase = RebuildPhase::Inserting(next);
                    return RebuildAction::Execute(sql);
                }
            }
        }
        rebuild.window_message = WindowMessage::window_message(Some(success_message(self.add_rows)));
        self.phase = RebuildPhase::Closing;
        RebuildAction::Close
    }

    /// Takes the outcome of the step the rebuild waited for and gives the
    /// next action, as `step` describes; a step that calls for the success
    /// message sets it on the rebuild screen, and nothing else there changes.
    pub fn advance(&mut self, rebuild: &mut Rebuild, event: RebuildEvent) -> (action: RebuildAction)
        requires
            spec_accepts(old(self)@, event@),
            spec_sql_available(old(self)@, event@),
        ensures
            (final(self)@, action@) == ({
                let t = step(old(self)@, event@);
                (t.0, t.1)
            }),
            screen_after_step(*old(rebuild), *final(rebuild), step(old(self)@, event@).2),
    {
        proof {
            use_type_invariant(&*self);
        }
        match event {
            RebuildEvent::Failed(error) => {
                self.phase = RebuildPhase::Finished;
                RebuildAction::Finish(Err(error))
            },
            RebuildEvent::Answer(exists) => {
                if exists {
                    self.phase = RebuildPhase::Dropping;
                    RebuildAction::Execute(drop_table_sql(&self.table))
                } else {
                    self.phase = RebuildPhase::Creating;
                    RebuildAction::Execute(self.create_sql_text())
                }
            },
            RebuildEvent::Done => match self.phase {
                RebuildPhase::Connecting => {
                    self.phase = RebuildPhase::Checking;
                    RebuildAction::Query(check_table_sql(&self.table))
                },
                RebuildPhase::Dropping => {
                    self.phase = RebuildPhase::Creating;
                    RebuildAction::Execute(self.create_sql_text())
                },
                RebuildPhase::Creating => self.continue_with_rows(rebuild, 0),
                RebuildPhase::Inserting(k) => {
                    proof {
                        let rows = self.row_sqls->Some_0;
                        assert(k < rows.len());
                    }
                    self.continue_with_rows(rebuild, k + 1)
                },
                _ => {
                    self.phase = RebuildPhase::Finished;
                    RebuildAction::Finish(Ok(()))
                },
            },
        }
    }
}

} // verus!
