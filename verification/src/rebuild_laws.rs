use vstd::prelude::*;

use crate::json::{has_key, list_pairs_match_map, pairs_match_map};
use crate::rebuild::{key_index, law_rows_sql_is_parsed_sql, law_table_sql_is_parsed_sql, Rebuild};
use crate::rebuild_steps::{
    after_rows, create_text, rows_of, spec_accepts, spec_sql_available, state_ok, spec_check_table_sql, spec_drop_table_sql, start_state, step, success_text,
    with_phase, RebuildPhase, RunState, StepAction, StepEvent,
};

verus! {

/// The rebuild after each of `events` in turn: the last state, the actions
/// given, and the last success message set on the way, if any.
pub open spec fn run_steps(s: RunState, events: Seq<StepEvent>) -> (
    RunState,
    Seq<StepAction>,
    Option<Seq<char>>,
)
    decreases events.len(),
{
    if events.len() == 0 {
        (s, Seq::empty(), None)
    } else {
        let t = step(s, events[0]);
        let rest = run_steps(t.0, events.drop_first());
        (rest.0, seq![t.1] + rest.1, if rest.2 is Some { rest.2 } else { t.2 })
    }
}

/// Each of `events` in turn may be handed to the rebuild: it fits the step
/// waited for, and the SQL the following step needs is at hand.
pub open spec fn run_allowed(s: RunState, events: Seq<StepEvent>) -> bool
    decreases events.len(),
{
    events.len() == 0 || {
        &&& spec_accepts(s, events[0])
        &&& spec_sql_available(s, events[0])
        &&& run_allowed(step(s, events[0]).0, events.drop_first())
    }
}

/// `n` successes in a row.
pub open spec fn dones(n: nat) -> Seq<StepEvent> {
    Seq::new(n, |i: int| StepEvent::Done)
}

/// The outcomes of a rebuild in which every step succeeds: the connection,
/// the query (which answers `exists`), the drop if the table exists, the
/// creation, each of the `rows` row statements, and the closing.
pub open spec fn success_events(exists: bool, rows: nat) -> Seq<StepEvent> {
    seq![StepEvent::Done, StepEvent::Answer(exists)] + (if exists {
        seq![StepEvent::Done]
    } else {
        Seq::empty()
    }) + dones(rows + 2)
}

/// Executing each of the statements, in order.
pub open spec fn executes(statements: Seq<Seq<char>>) -> Seq<StepAction> {
    statements.map_values(|q: Seq<char>| StepAction::Execute(q))
}

/// The actions of a rebuild of `table` in which every step succeeds, after
/// the connection: ask whether the table exists, drop it if it does, create
/// it with `create_sql`, run `row_sqls` in order, close, and finish
/// successfully.
pub open spec fn planned_actions(
    table: Seq<char>,
    create_sql: Seq<char>,
    row_sqls: Seq<Seq<char>>,
    exists: bool,
) -> Seq<StepAction> {
    seq![StepAction::Query(spec_check_table_sql(table))] + (if exists {
        seq![StepAction::Execute(spec_drop_table_sql(table))]
    } else {
        Seq::empty()
    }) + seq![StepAction::Execute(create_sql)] + executes(row_sqls) + seq![
        StepAction::Close,
        StepAction::Finish(Ok(())),
    ]
}

/// The actions of a rebuild of the chosen table of `r` in which every step
/// succeeds: its row statements run only when rows are to be inserted.
pub open spec fn success_actions(r: Rebuild, exists: bool) -> Seq<StepAction> {
    planned_actions(r.modal@, r.chosen_table_sql(), rows_of(start_state(r)), exists)
}

/// Row statements are held only when rows are inserted.
pub open spec fn rows_consistent(s: RunState) -> bool {
    !s.add_rows ==> rows_of(s).len() == 0
}

/// Running a first event, then the rest.
proof fn lemma_run_steps_cons(s: RunState, e: StepEvent, rest: Seq<StepEvent>)
    ensures
        run_steps(s, seq![e] + rest) == ({
            let t = step(s, e);
            let r = run_steps(t.0, rest);
            (r.0, seq![t.1] + r.1, if r.2 is Some { r.2 } else { t.2 })
        }),
{
    assert((seq![e] + rest).drop_first() =~= rest);
    assert((seq![e] + rest)[0] == e);
}

/// The part of a successful rebuild that follows a successful creation (or
/// row statement): from `after_rows(s, next)` on, every remaining step
/// succeeds; the rest of the row statements run, the connection closes,
/// the rebuild finishes successfully and shows the success message.
proof fn lemma_rows_then_close(s: RunState, next: nat)
    requires
        rows_consistent(s),
        next <= rows_of(s).len(),
        rows_of(s).len() <= usize::MAX,
    ensures
        ({
            let t = after_rows(s, next);
            let r = run_steps(t.0, dones((rows_of(s).len() - next + 1) as nat));
            &&& r.0 == with_phase(s, RebuildPhase::Finished)
            &&& run_allowed(t.0, dones((rows_of(s).len() - next + 1) as nat))
            &&& seq![t.1] + r.1 == executes(rows_of(s).subrange(next as int, rows_of(s).len() as int))
                + seq![StepAction::Close, StepAction::Finish(Ok(()))]
            &&& (if r.2 is Some { r.2 } else { t.2 }) == Some(success_text(s.add_rows))
        }),
    decreases rows_of(s).len() - next,
{
    let len = rows_of(s).len();
    let t = after_rows(s, next);
    if next == len {
        let closing = with_phase(s, RebuildPhase::Closing);
        assert(t.0 == closing);
        assert(dones(1) =~= seq![StepEvent::Done] + Seq::<StepEvent>::empty());
        lemma_run_steps_cons(t.0, StepEvent::Done, Seq::<StepEvent>::empty());
        let r = run_steps(t.0, dones(1));
        assert(r.1 =~= seq![StepAction::Finish(Ok(()))]);
        assert(dones(1).drop_first() =~= Seq::<StepEvent>::empty());
        assert(run_allowed(step(t.0, StepEvent::Done).0, Seq::<StepEvent>::empty()));
        assert(rows_of(s).subrange(next as int, len as int) =~= Seq::<Seq<char>>::empty());
        assert(executes(Seq::<Seq<char>>::empty()) =~= Seq::<StepAction>::empty());
        assert(seq![t.1] + r.1 =~= executes(rows_of(s).subrange(next as int, len as int))
            + seq![StepAction::Close, StepAction::Finish(Ok(()))]);
    } else {
        assert(s.add_rows);
        lemma_rows_then_close(s, next + 1);
        let n = (len - next + 1) as nat;
        assert(dones(n) =~= seq![StepEvent::Done] + dones((len - (next + 1) + 1) as nat));
        lemma_run_steps_cons(t.0, StepEvent::Done, dones((len - (next + 1) + 1) as nat));
        let t1 = after_rows(s, next + 1);
        assert(t.0 == with_phase(s, RebuildPhase::Inserting(next as usize)));
        assert(after_rows(t.0, (next + 1) as nat) == t1);
        assert(step(t.0, StepEvent::Done) == t1);
        assert(dones(n).drop_first() =~= dones((len - (next + 1) + 1) as nat));
        let r = run_steps(t.0, dones(n));
        let r1 = run_steps(t1.0, dones((len - (next + 1) + 1) as nat));
        assert(r.1 == seq![t1.1] + r1.1);
        assert(executes(rows_of(s).subrange(next as int, len as int)) =~= seq![
            StepAction::Execute(rows_of(s)[next as int]),
        ] + executes(rows_of(s).subrange((next + 1) as int, len as int)));
        assert(seq![t.1] + r.1 =~= executes(rows_of(s).subrange(next as int, len as int))
            + seq![StepAction::Close, StepAction::Finish(Ok(()))]);
    }
}

/// A rebuild in which every step succeeds asks whether the chosen table
/// exists, drops it exactly when it exists, creates it from its SQL, runs
/// its row statements in order exactly when rows are to be inserted, closes
/// the connection and finishes successfully; it shows the message that the
/// table was rebuilt, followed by the rows' report when rows were inserted.
pub proof fn law_successful_rebuild(r: Rebuild, exists: bool)
    requires
        r.spec_ready(),
    ensures
        ({
            let s = start_state(r);
            &&& run_allowed(s, success_events(exists, rows_of(s).len()))
            &&& run_steps(s, success_events(exists, rows_of(s).len()))
                == (
                with_phase(s, RebuildPhase::Finished),
                success_actions(r, exists),
                Some(success_text(r.add_rows)),
            )
        }),
{
    let s = start_state(r);
    let len = rows_of(s).len();
    let creating = with_phase(s, RebuildPhase::Creating);
    let rows_vec = r.sql_rows@[key_index(r.sql_rows@, r.modal@)].1;
    assert(rows_vec.len() == rows_vec@.len());
    // From the creation on.
    lemma_rows_then_close(s, 0);
    assert(dones((len + 2) as nat) =~= seq![StepEvent::Done] + dones((len - 0 + 1) as nat));
    lemma_run_steps_cons(creating, StepEvent::Done, dones((len - 0 + 1) as nat));
    assert(after_rows(creating, 0) == after_rows(s, 0));
    assert(rows_of(s).subrange(0, len as int) =~= rows_of(s));
    // Before the creation.
    let checking = with_phase(s, RebuildPhase::Checking);
    let tail = (if exists {
        seq![StepEvent::Done]
    } else {
        Seq::empty()
    }) + dones((len + 2) as nat);
    assert(success_events(exists, len) =~= seq![StepEvent::Done] + (seq![StepEvent::Answer(exists)] + tail));
    lemma_run_steps_cons(s, StepEvent::Done, seq![StepEvent::Answer(exists)] + tail);
    lemma_run_steps_cons(checking, StepEvent::Answer(exists), tail);
    assert(dones((len + 2) as nat).drop_first() =~= dones((len - 0 + 1) as nat));
    assert(run_allowed(creating, dones((len + 2) as nat)));
    if exists {
        let dropping = with_phase(s, RebuildPhase::Dropping);
        assert(tail =~= seq![StepEvent::Done] + dones((len + 2) as nat));
        lemma_run_steps_cons(dropping, StepEvent::Done, dones((len + 2) as nat));
        assert(tail.drop_first() =~= dones((len + 2) as nat));
        assert(run_allowed(dropping, tail));
    } else {
        assert(tail =~= dones((len + 2) as nat));
    }
    assert((seq![StepEvent::Answer(exists)] + tail).drop_first() =~= tail);
    assert(run_allowed(checking, seq![StepEvent::Answer(exists)] + tail));
    assert(success_events(exists, len).drop_first() =~= seq![StepEvent::Answer(exists)] + tail);
    assert(run_steps(s, success_events(exists, len)).1 =~= success_actions(r, exists));
}

/// A failed step ends the rebuild at once: the next action is to finish
/// with that step's error text, and no message is shown. Any unfinished
/// step may fail.
pub proof fn law_failure_ends_rebuild(s: RunState, error: Seq<char>)
    ensures
        step(s, StepEvent::Failed(error)) == (
            with_phase(s, RebuildPhase::Finished),
            StepAction::Finish(Err(error)),
            None::<Seq<char>>,
        ),
        !spec_accepts(with_phase(s, RebuildPhase::Finished), StepEvent::Done),
        s.phase != RebuildPhase::Finished ==> spec_accepts(s, StepEvent::Failed(error)),
{
}

/// The table is dropped only right after the database answered that it
/// exists, and always then.
pub proof fn law_drop_only_if_exists(s: RunState, e: StepEvent)
    ensures
        step(s, e).0.phase == RebuildPhase::Dropping <==> e == StepEvent::Answer(true),
        e == StepEvent::Answer(true) ==> step(s, e).1 == StepAction::Execute(
            spec_drop_table_sql(s.table),
        ),
{
}

/// The success message is set only by a successful creation or row
/// statement, and then only once no row statement is left.
pub proof fn law_message_only_after_success(s: RunState, e: StepEvent)
    ensures
        step(s, e).2 is Some ==> {
            &&& e == StepEvent::Done
            &&& (s.phase == RebuildPhase::Creating || s.phase is Inserting)
            &&& step(s, e).0.phase == RebuildPhase::Closing
        },
{
}

/// How many steps a rebuild can still take at most.
pub open spec fn steps_left(s: RunState) -> nat {
    let rows = rows_of(s).len();
    match s.phase {
        RebuildPhase::Connecting => rows + 5,
        RebuildPhase::Checking => rows + 4,
        RebuildPhase::Dropping => rows + 3,
        RebuildPhase::Creating => rows + 2,
        RebuildPhase::Inserting(k) => (rows - k + 1) as nat,
        RebuildPhase::Closing => 1,
        RebuildPhase::Finished => 0,
    }
}

/// Every rebuild ends: each step it accepts keeps its state consistent and
/// leaves fewer steps to take, and a finished rebuild accepts no step.
pub proof fn law_rebuild_ends(s: RunState, e: StepEvent)
    requires
        state_ok(s),
        rows_of(s).len() <= usize::MAX,
        spec_accepts(s, e),
    ensures
        state_ok(step(s, e).0),
        step(s, e).0.row_sqls == s.row_sqls,
        steps_left(step(s, e).0) < steps_left(s),
        steps_left(s) > 0,
{
}

/// Rebuilding a table whose SQL was read from the JSON files runs exactly
/// that SQL: the table's entry of the tables object creates it, and, when
/// rows are to be inserted, the statements of its entry of the rows object
/// fill it, in order.
pub proof fn law_rebuild_runs_parsed_sql(
    r: Rebuild,
    tables: Map<Seq<char>, Seq<char>>,
    rows: Map<Seq<char>, Seq<Seq<char>>>,
    exists: bool,
)
    requires
        pairs_match_map(r.sql_tables@, tables),
        list_pairs_match_map(r.sql_rows@, rows),
        tables.dom().contains(r.modal@),
        r.add_rows ==> rows.dom().contains(r.modal@),
    ensures
        ({
            let row_sqls = if r.add_rows {
                rows[r.modal@]
            } else {
                Seq::empty()
            };
            &&& run_allowed(start_state(r), success_events(exists, row_sqls.len()))
            &&& run_steps(start_state(r), success_events(exists, row_sqls.len())) == (
                with_phase(start_state(r), RebuildPhase::Finished),
                planned_actions(r.modal@, tables[r.modal@], row_sqls, exists),
                Some(success_text(r.add_rows)),
            )
        }),
{
    law_table_sql_is_parsed_sql(r, tables);
    law_rows_sql_is_parsed_sql(r, rows);
    law_successful_rebuild(r, exists);
}

/// A rebuild whose connection fails ends with the connection's error at
/// once, sends no SQL and shows no message, whether or not the chosen table
/// has SQL.
pub proof fn law_connection_failure(r: Rebuild, error: Seq<char>)
    ensures
        run_allowed(start_state(r), seq![StepEvent::Failed(error)]),
        run_steps(start_state(r), seq![StepEvent::Failed(error)]) == (
            with_phase(start_state(r), RebuildPhase::Finished),
            seq![StepAction::Finish(Err(error))],
            None::<Seq<char>>,
        ),
{
    let s = start_state(r);
    lemma_run_steps_cons(s, StepEvent::Failed(error), Seq::empty());
    assert(run_allowed(step(s, StepEvent::Failed(error)).0, Seq::<StepEvent>::empty()));
    assert(seq![StepEvent::Failed(error)] =~= seq![StepEvent::Failed(error)] + Seq::<StepEvent>::empty());
    assert(seq![StepEvent::Failed(error)].drop_first() =~= Seq::<StepEvent>::empty());
    assert(seq![StepAction::Finish(Err(error))] + Seq::<StepAction>::empty() =~= seq![
        StepAction::Finish(Err(error)),
    ]);
}

/// When the table exists and is dropped but creating it fails, the rebuild
/// ends with the creation's error: the table stays dropped, no row
/// statement is sent and no message is shown. Only the creating SQL is
/// needed for this, not the rows' SQL.
pub proof fn law_failed_creation(r: Rebuild, error: Seq<char>)
    requires
        has_key(r.sql_tables@, r.modal@),
    ensures
        ({
            let events = seq![
                StepEvent::Done,
                StepEvent::Answer(true),
                StepEvent::Done,
                StepEvent::Failed(error),
            ];
            &&& run_allowed(start_state(r), events)
            &&& run_steps(start_state(r), events) == (
                with_phase(start_state(r), RebuildPhase::Finished),
                seq![
                    StepAction::Query(spec_check_table_sql(r.modal@)),
                    StepAction::Execute(spec_drop_table_sql(r.modal@)),
                    StepAction::Execute(r.chosen_table_sql()),
                    StepAction::Finish(Err(error)),
                ],
                None::<Seq<char>>,
            )
        }),
{
    let s = start_state(r);
    let e3 = seq![StepEvent::Failed(error)];
    let e2 = seq![StepEvent::Done] + e3;
    let e1 = seq![StepEvent::Answer(true)] + e2;
    let e0 = seq![StepEvent::Done] + e1;
    assert(e0 =~= seq![
        StepEvent::Done,
        StepEvent::Answer(true),
        StepEvent::Done,
        StepEvent::Failed(error),
    ]);
    let checking = with_phase(s, RebuildPhase::Checking);
    let dropping = with_phase(s, RebuildPhase::Dropping);
    let creating = with_phase(s, RebuildPhase::Creating);
    lemma_run_steps_cons(creating, StepEvent::Failed(error), Seq::empty());
    assert(e3 =~= seq![StepEvent::Failed(error)] + Seq::<StepEvent>::empty());
    lemma_run_steps_cons(dropping, StepEvent::Done, e3);
    lemma_run_steps_cons(checking, StepEvent::Answer(true), e2);
    lemma_run_steps_cons(s, StepEvent::Done, e1);
    assert(e0.drop_first() =~= e1);
    assert(e1.drop_first() =~= e2);
    assert(e2.drop_first() =~= e3);
    assert(e3.drop_first() =~= Seq::<StepEvent>::empty());
    assert(run_allowed(step(creating, StepEvent::Failed(error)).0, Seq::<StepEvent>::empty()));
    assert(run_allowed(creating, e3));
    assert(run_allowed(dropping, e2));
    assert(run_allowed(checking, e1));
    assert(run_steps(s, e0).1 =~= seq![
        StepAction::Query(spec_check_table_sql(r.modal@)),
        StepAction::Execute(spec_drop_table_sql(r.modal@)),
        StepAction::Execute(r.chosen_table_sql()),
        StepAction::Finish(Err(error)),
    ]);
}

/// When the query whether the table exists fails, the rebuild ends with the
/// query's error text: nothing is dropped or created and no message is
/// shown, whether or not the chosen table has SQL.
pub proof fn law_failed_existence_query(r: Rebuild, error: Seq<char>)
    ensures
        ({
            let events = seq![StepEvent::Done, StepEvent::Failed(error)];
            &&& run_allowed(start_state(r), events)
            &&& run_steps(start_state(r), events) == (
                with_phase(start_state(r), RebuildPhase::Finished),
                seq![
                    StepAction::Query(spec_check_table_sql(r.modal@)),
                    StepAction::Finish(Err(error)),
                ],
                None::<Seq<char>>,
            )
        }),
{
    let s = start_state(r);
    let checking = with_phase(s, RebuildPhase::Checking);
    let e1 = seq![StepEvent::Failed(error)];
    let e0 = seq![StepEvent::Done] + e1;
    assert(e0 =~= seq![StepEvent::Done, StepEvent::Failed(error)]);
    assert(e1 =~= seq![StepEvent::Failed(error)] + Seq::<StepEvent>::empty());
    lemma_run_steps_cons(checking, StepEvent::Failed(error), Seq::empty());
    lemma_run_steps_cons(s, StepEvent::Done, e1);
    assert(e0.drop_first() =~= e1);
    assert(e1.drop_first() =~= Seq::<StepEvent>::empty());
    assert(run_allowed(step(checking, StepEvent::Failed(error)).0, Seq::<StepEvent>::empty()));
    assert(run_allowed(checking, e1));
    assert(run_steps(s, e0).1 =~= seq![
        StepAction::Query(spec_check_table_sql(r.modal@)),
        StepAction::Finish(Err(error)),
    ]);
}

/// A rebuild whose state holds no row statements although rows are to be
/// inserted, and which is not inserting rows.
pub open spec fn rows_missing(s: RunState) -> bool {
    &&& s.add_rows
    &&& s.row_sqls is None
    &&& !(s.phase is Inserting)
}

/// From a state without the rows' SQL, no allowed run ever shows the success
/// message.
proof fn lemma_rows_missing_no_message(s: RunState, events: Seq<StepEvent>)
    requires
        rows_missing(s),
        run_allowed(s, events),
    ensures
        run_steps(s, events).2 is None,
    decreases events.len(),
{
    if events.len() > 0 {
        let e = events[0];
        let t = step(s, e);
        assert(t.2 is None);
        assert(rows_missing(t.0));
        lemma_rows_missing_no_message(t.0, events.drop_first());
    }
}

/// A rebuild that is to insert rows for a table that has no entry in the
/// rows' SQL never reports success: it starts without row statements, the
/// step after a successful creation needs SQL it does not have (the rebuild
/// cannot go on there), and no run of steps it may take ever shows the
/// success message.
pub proof fn law_missing_rows_never_succeed(r: Rebuild, events: Seq<StepEvent>)
    requires
        r.add_rows,
        !has_key(r.sql_rows@, r.modal@),
    ensures
        start_state(r).row_sqls is None,
        !spec_sql_available(with_phase(start_state(r), RebuildPhase::Creating), StepEvent::Done),
        run_allowed(start_state(r), events) ==> run_steps(start_state(r), events).2 is None,
{
    if run_allowed(start_state(r), events) {
        lemma_rows_missing_no_message(start_state(r), events);
    }
}

} // verus!
