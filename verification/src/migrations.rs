//! Schema migrations: which files of the migrations directory are SQL
//! migrations, and the order they run in (by file name, so that `000_`
//! runs before `001_`).

use vstd::prelude::*;
use crate::ai::last_index_of;
use crate::text::chars_of;

verus! {

broadcast use vstd::seq_lib::to_multiset_insert, vstd::seq_lib::to_multiset_build;

/// Whether a file name has the extension `sql`: the text after its last
/// dot, provided that dot is not the name's first character.
pub open spec fn is_sql_file(name: Seq<char>) -> bool {
    let k = last_index_of(name, '.');
    k > 0 && name.subrange(k + 1, name.len() as int) == seq!['s', 'q', 'l']
}

/// Whether a file name is that of an SQL migration.
pub fn is_sql_file_name(name: &str) -> (r: bool)
    ensures
        r == is_sql_file(name@),
{
    let cs = chars_of(name);
    let k = crate::ai::rfind_char(cs.as_slice(), '.');
    proof {
        lemma_last_index_bound(cs@, '.');
    }
    let k = match k {
        Some(k) => k,
        None => {
            return false;
        },
    };
    if k == 0 {
        return false;
    }
    let k = k as usize;
    let r = cs.len() - k == 4 && cs[k + 1] == 's' && cs[k + 2] == 'q' && cs[k + 3] == 'l';
    proof {
        if r {
            assert(cs@.subrange(k + 1, cs@.len() as int) =~= seq!['s', 'q', 'l']);
        }
        if cs@.subrange(k + 1, cs@.len() as int) == seq!['s', 'q', 'l'] {
            assert(cs@.subrange(k + 1, cs@.len() as int).len() == 3);
            assert(cs@[k + 1] == cs@.subrange(k + 1, cs@.len() as int)[0]);
            assert(cs@[k + 2] == cs@.subrange(k + 1, cs@.len() as int)[1]);
            assert(cs@[k + 3] == cs@.subrange(k + 1, cs@.len() as int)[2]);
        }
    }
    r
}

proof fn lemma_last_index_bound(s: Seq<char>, c: char)
    ensures
        -1 <= last_index_of(s, c) < s.len(),
    decreases s.len(),
{
    if s.len() > 0 {
        lemma_last_index_bound(s.drop_last(), c);
    }
}

/// Strict lexicographic order of texts, character by character (for UTF-8
/// text this is also the byte order of their encodings).
pub open spec fn lex_lt(a: Seq<char>, b: Seq<char>) -> bool
    decreases a.len(),
{
    if a.len() == 0 {
        b.len() > 0
    } else if b.len() == 0 {
        false
    } else if a[0] < b[0] {
        true
    } else if a[0] == b[0] {
        lex_lt(a.drop_first(), b.drop_first())
    } else {
        false
    }
}

/// Lexicographic order, not strict.
pub open spec fn lex_le(a: Seq<char>, b: Seq<char>) -> bool {
    lex_lt(a, b) || a == b
}

proof fn lemma_lex_transitive(a: Seq<char>, b: Seq<char>, c: Seq<char>)
    requires
        lex_lt(a, b),
        lex_lt(b, c),
    ensures
        lex_lt(a, c),
    decreases a.len(),
{
    if a.len() > 0 && b.len() > 0 && c.len() > 0 && a[0] == b[0] && b[0] == c[0] {
        lemma_lex_transitive(a.drop_first(), b.drop_first(), c.drop_first());
    }
}

proof fn lemma_lex_total(a: Seq<char>, b: Seq<char>)
    ensures
        lex_lt(a, b) || lex_lt(b, a) || a == b,
    decreases a.len(),
{
    if a.len() > 0 && b.len() > 0 && a[0] == b[0] {
        lemma_lex_total(a.drop_first(), b.drop_first());
        if a.drop_first() == b.drop_first() {
            assert(a =~= seq![a[0]] + a.drop_first());
            assert(b =~= seq![b[0]] + b.drop_first());
        }
    } else if a.len() == 0 && b.len() == 0 {
        assert(a =~= b);
    }
}

/// Compares two texts in lexicographic order.
pub fn text_lt(a: &str, b: &str) -> (r: bool)
    ensures
        r == lex_lt(a@, b@),
{
    let x = chars_of(a);
    let y = chars_of(b);
    let mut i: usize = 0;
    proof {
        assert(a@.skip(0) =~= a@);
        assert(b@.skip(0) =~= b@);
    }
    while i < x.len() && i < y.len() && x[i] == y[i]
        invariant
            x@ == a@,
            y@ == b@,
            i <= x@.len(),
            i <= y@.len(),
            lex_lt(a@, b@) == lex_lt(a@.skip(i as int), b@.skip(i as int)),
        decreases x@.len() - i,
    {
        proof {
            assert(a@.skip(i as int).drop_first() =~= a@.skip(i + 1));
            assert(b@.skip(i as int).drop_first() =~= b@.skip(i + 1));
        }
        i = i + 1;
    }
    if i == x.len() {
        i < y.len()
    } else if i == y.len() {
        false
    } else {
        x[i] < y[i]
    }
}

/// The SQL migration files among `names`, in their order.
pub open spec fn sql_files(names: Seq<String>) -> Seq<String>
    decreases names.len(),
{
    if names.len() == 0 {
        Seq::empty()
    } else if is_sql_file(names.last()@) {
        sql_files(names.drop_last()).push(names.last())
    } else {
        sql_files(names.drop_last())
    }
}

/// Whether file names are in lexicographic order.
pub open spec fn sorted_names(s: Seq<String>) -> bool {
    forall|i: int, j: int| 0 <= i < j < s.len() ==> lex_le(#[trigger] s[i]@, #[trigger] s[j]@)
}

/// The migrations to run, in the order to run them: the SQL files among the
/// directory's file names, sorted by name.
pub fn migration_plan(names: Vec<String>) -> (plan: Vec<String>)
    ensures
        sorted_names(plan@),
        plan@.to_multiset() == sql_files(names@).to_multiset(),
{
    let ghost all = names@;
    let ghost mut taken: Seq<String> = Seq::empty();
    let mut plan: Vec<String> = Vec::new();
    let mut rest = names;
    while rest.len() > 0
        invariant
            all == taken + rest@,
            sorted_names(plan@),
            plan@.to_multiset() == sql_files(taken).to_multiset(),
        decreases rest@.len(),
    {
        let x = rest.remove(0);
        let ghost xv = x;
        let ghost old_plan = plan@;
        let keep = is_sql_file_name(x.as_str());
        if keep {
            // Insert after every name not greater than it.
            let mut pos: usize = 0;
            while pos < plan.len() && !text_lt(x.as_str(), plan[pos].as_str())
                invariant
                    pos <= plan@.len(),
                    plan@ == old_plan,
                    sorted_names(plan@),
                    forall|k: int| 0 <= k < pos ==> lex_le(#[trigger] plan@[k]@, x@),
                decreases plan@.len() - pos,
            {
                proof {
                    lemma_lex_total(x@, plan@[pos as int]@);
                }
                pos = pos + 1;
            }
            proof {
                assert forall|k: int| pos <= k < plan@.len() implies lex_lt(x@, #[trigger] plan@[k]@) by {
                    if k > pos {
                        if plan@[pos as int]@ != plan@[k]@ {
                            lemma_lex_transitive(x@, plan@[pos as int]@, plan@[k]@);
                        }
                    }
                }
            }
            plan.insert(pos, x);
            proof {
                assert forall|i: int, j: int| 0 <= i < j < plan@.len() implies lex_le(
                    #[trigger] plan@[i]@,
                    #[trigger] plan@[j]@,
                ) by {
                    if i < pos && j > pos {
                        assert(plan@[j] == old_plan[j - 1]);
                        if plan@[i]@ != xv@ {
                            lemma_lex_transitive(plan@[i]@, xv@, plan@[j]@);
                        }
                    } else if i == pos {
                        assert(plan@[j] == old_plan[j - 1]);
                    } else if i > pos {
                        assert(plan@[i] == old_plan[i - 1]);
                        assert(plan@[j] == old_plan[j - 1]);
                    }
                }
            }
        }
        proof {
            let t2 = taken.push(xv);
            assert(t2.drop_last() == taken);
            assert(t2.last() == xv);
            taken = t2;
        }
        assert(all =~= taken + rest@);
    }
    assert(taken =~= all);
    plan
}

/// What happened while running migrations.
#[derive(Debug, Clone, Copy, PartialEq, Eq, Structural)]
pub enum MigrationEvent {
    /// The run starts.
    Start,
    /// Whether the migration at the cursor was already applied.
    Checked(bool),
    /// The migration at the cursor was executed and recorded.
    Applied,
    /// Checking, reading, executing or recording the migration at the cursor failed.
    Failed,
}

/// What the migration run asks to be done next.
#[derive(Debug)]
pub enum MigrationAction {
    /// Ask whether this migration was already applied.
    CheckApplied(String),
    /// Execute this migration's SQL and record it as applied.
    Apply(String),
    /// Every migration of the plan has been dealt with.
    Finished,
    /// Stop the run with the failure: no later migration is run.
    Abort,
}

/// The mathematical form of a migration action.
pub enum MigrationStep {
    CheckApplied(Seq<char>),
    Apply(Seq<char>),
    Finished,
    Abort,
}

impl MigrationAction {
    /// The mathematical form of this action.
    pub open spec fn step_view(self) -> MigrationStep {
        match self {
            MigrationAction::CheckApplied(n) => MigrationStep::CheckApplied(n@),
            MigrationAction::Apply(n) => MigrationStep::Apply(n@),
            MigrationAction::Finished => MigrationStep::Finished,
            MigrationAction::Abort => MigrationStep::Abort,
        }
    }
}

/// One step of the migration run over `plan`, with the cursor at `pos`:
/// migrations are dealt with in plan order; each is checked, and executed
/// only when it was not applied before; a failure stops the run where it is.
pub open spec fn spec_migration_step(plan: Seq<String>, pos: int, event: MigrationEvent) -> (int, MigrationStep) {
    match event {
        MigrationEvent::Checked(false) => (pos, MigrationStep::Apply(plan[pos]@)),
        MigrationEvent::Failed => (pos, MigrationStep::Abort),
        _ => {
            let next = if event == MigrationEvent::Start {
                pos
            } else {
                pos + 1
            };
            if next < plan.len() {
                (next, MigrationStep::CheckApplied(plan[next]@))
            } else {
                (next, MigrationStep::Finished)
            }
        },
    }
}

/// Advances the migration run by one event (see [`spec_migration_step`]).
pub fn migration_step(plan: &Vec<String>, pos: usize, event: MigrationEvent) -> (r: (usize, MigrationAction))
    requires
        pos < plan@.len() || (pos == plan@.len() && event == MigrationEvent::Start),
    ensures
        (r.0 as int, r.1.step_view()) == spec_migration_step(plan@, pos as int, event),
{
    let n = plan.len();
    let next = match event {
        MigrationEvent::Start => pos,
        MigrationEvent::Checked(true) => pos + 1,
        MigrationEvent::Checked(false) => {
            return (pos, MigrationAction::Apply(plan[pos].clone()));
        },
        MigrationEvent::Applied => pos + 1,
        MigrationEvent::Failed => {
            return (pos, MigrationAction::Abort);
        },
    };
    if next < n {
        (next, MigrationAction::CheckApplied(plan[next].clone()))
    } else {
        (next, MigrationAction::Finished)
    }
}

/// The actions of a run from position `pos` on in which every migration is
/// found already applied.
pub open spec fn rerun_steps(plan: Seq<String>, pos: int) -> Seq<MigrationStep>
    decreases plan.len() - pos,
{
    if pos < 0 || pos >= plan.len() {
        Seq::empty()
    } else {
        seq![spec_migration_step(plan, pos, MigrationEvent::Checked(true)).1] + rerun_steps(plan, pos + 1)
    }
}

/// Running the migrations again once all have been applied executes none of
/// them: the run checks each migration in order and then finishes.
pub proof fn law_rerun_executes_nothing(plan: Seq<String>)
    ensures
        spec_migration_step(plan, 0, MigrationEvent::Start).1 == (if plan.len() > 0 {
            MigrationStep::CheckApplied(plan[0]@)
        } else {
            MigrationStep::Finished
        }),
        rerun_steps(plan, 0).len() == plan.len(),
        forall|i: int| 0 <= i < plan.len() ==> (#[trigger] rerun_steps(plan, 0)[i]) == (if i + 1
            < plan.len() {
            MigrationStep::CheckApplied(plan[i + 1]@)
        } else {
            MigrationStep::Finished
        }),
{
    lemma_rerun_steps(plan, 0);
}

proof fn lemma_rerun_steps(plan: Seq<String>, pos: int)
    requires
        0 <= pos <= plan.len(),
    ensures
        rerun_steps(plan, pos).len() == plan.len() - pos,
        forall|i: int| 0 <= i < plan.len() - pos ==> (#[trigger] rerun_steps(plan, pos)[i]) == (if pos
            + i + 1 < plan.len() {
            MigrationStep::CheckApplied(plan[pos + i + 1]@)
        } else {
            MigrationStep::Finished
        }),
    decreases plan.len() - pos,
{
    if pos < plan.len() {
        lemma_rerun_steps(plan, pos + 1);
        let rest = rerun_steps(plan, pos + 1);
        let here = spec_migration_step(plan, pos, MigrationEvent::Checked(true)).1;
        assert forall|i: int| 0 <= i < plan.len() - pos implies (#[trigger] rerun_steps(plan, pos)[i])
            == (if pos + i + 1 < plan.len() {
            MigrationStep::CheckApplied(plan[pos + i + 1]@)
        } else {
            MigrationStep::Finished
        }) by {
            if i > 0 {
                assert(rerun_steps(plan, pos)[i] == rest[i - 1]);
            } else {
                assert(rerun_steps(plan, pos)[0] == here);
            }
        }
    }
}

/// What a database that has applied nothing answers to each action: not
/// applied yet to a check, and success to an execution.
pub open spec fn fresh_reply(a: MigrationStep) -> MigrationEvent {
    match a {
        MigrationStep::CheckApplied(_) => MigrationEvent::Checked(false),
        MigrationStep::Apply(_) => MigrationEvent::Applied,
        _ => MigrationEvent::Failed,
    }
}

/// The actions of a run from `pos` and `event` against a database that has
/// applied nothing, for at most `fuel` steps; it ends at `Finished` or `Abort`.
pub open spec fn fresh_run(plan: Seq<String>, pos: int, event: MigrationEvent, fuel: nat) -> Seq<MigrationStep>
    decreases fuel,
{
    if fuel == 0 {
        Seq::empty()
    } else {
        let (next, a) = spec_migration_step(plan, pos, event);
        if a is Finished || a is Abort {
            seq![a]
        } else {
            seq![a] + fresh_run(plan, next, fresh_reply(a), (fuel - 1) as nat)
        }
    }
}

/// Check then execute each migration from position `pos` on, in plan order, then finish.
pub open spec fn check_and_apply_all(plan: Seq<String>, pos: int) -> Seq<MigrationStep>
    decreases plan.len() - pos,
{
    if pos < 0 || pos >= plan.len() {
        seq![MigrationStep::Finished]
    } else {
        seq![MigrationStep::CheckApplied(plan[pos]@), MigrationStep::Apply(plan[pos]@)]
            + check_and_apply_all(plan, pos + 1)
    }
}

/// Once the migration at `pos` is applied, the run moves on to the next one:
/// it asks to check `plan[pos + 1]`, or finishes after the last.
pub proof fn law_applied_moves_to_next(plan: Seq<String>, pos: int)
    requires
        0 <= pos < plan.len(),
    ensures
        spec_migration_step(plan, pos, MigrationEvent::Applied).0 == pos + 1,
        pos + 1 < plan.len() ==> spec_migration_step(plan, pos, MigrationEvent::Applied).1
            == MigrationStep::CheckApplied(plan[pos + 1]@),
        pos + 1 == plan.len() ==> spec_migration_step(plan, pos, MigrationEvent::Applied).1
            == MigrationStep::Finished,
{
}

proof fn lemma_fresh_run(plan: Seq<String>, pos: int)
    requires
        0 <= pos <= plan.len(),
    ensures
        fresh_run(plan, pos, MigrationEvent::Start, (2 * (plan.len() - pos) + 1) as nat)
            == check_and_apply_all(plan, pos),
    decreases plan.len() - pos,
{
    let f = (2 * (plan.len() - pos) + 1) as nat;
    if pos < plan.len() {
        lemma_fresh_run(plan, pos + 1);
        let g = (2 * (plan.len() - (pos + 1)) + 1) as nat;
        assert(spec_migration_step(plan, pos, MigrationEvent::Applied) == spec_migration_step(
            plan,
            pos + 1,
            MigrationEvent::Start,
        ));
        assert(fresh_run(plan, pos, MigrationEvent::Applied, g) == fresh_run(
            plan,
            pos + 1,
            MigrationEvent::Start,
            g,
        ));
        assert(fresh_run(plan, pos, MigrationEvent::Checked(false), (g + 1) as nat) == seq![
            MigrationStep::Apply(plan[pos]@),
        ] + fresh_run(plan, pos, MigrationEvent::Applied, g));
        assert(fresh_run(plan, pos, MigrationEvent::Start, f) == seq![
            MigrationStep::CheckApplied(plan[pos]@),
        ] + fresh_run(plan, pos, MigrationEvent::Checked(false), (g + 1) as nat));
        assert(check_and_apply_all(plan, pos) =~= seq![
            MigrationStep::CheckApplied(plan[pos]@),
        ] + (seq![MigrationStep::Apply(plan[pos]@)] + check_and_apply_all(plan, pos + 1)));
    } else {
        assert(fresh_run(plan, pos, MigrationEvent::Start, f) == seq![MigrationStep::Finished]);
    }
}

/// On a database that has applied nothing, the run checks and then executes
/// every migration of the plan, in plan order, and only then finishes.
pub proof fn law_fresh_run_applies_every_migration(plan: Seq<String>)
    ensures
        fresh_run(plan, 0, MigrationEvent::Start, (2 * plan.len() + 1) as nat) == check_and_apply_all(
            plan,
            0,
        ),
{
    lemma_fresh_run(plan, 0);
}

} // verus!
