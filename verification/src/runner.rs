//! The migration runner: applies an ordered list of versioned migrations to a
//! database, skipping versions already recorded as applied, each migration as
//! an atomic unit, recording its version on success and stopping at the first
//! failure with the database left at the last successfully applied version.
//! Running a successfully applied sequence again changes nothing
//! ([`lemma_runner_idempotent`]).

use vstd::prelude::*;

use crate::db::{Database, DbModel, singletons_wf, snapshot};
use crate::migrate::{DbError, MigrationKind, SchemaChange, apply_change,
    lemma_change_preserves_singletons, spec_apply_change};

verus! {

/// One versioned migration record: a human-readable description, the SQL
/// statement batch the embedded database executes, and the same batch as
/// schema changes, which is what this store applies.
pub struct Migration {
    pub version: u64,
    pub description: String,
    pub sql: String,
    pub kind: MigrationKind,
    pub changes: Vec<SchemaChange>,
}

/// Mathematical model of a [`Migration`]: what the runner's behaviour
/// depends on.
#[verifier::ext_equal]
pub struct MigModel {
    pub version: u64,
    pub kind: MigrationKind,
    pub changes: Seq<SchemaChange>,
}

impl View for Migration {
    type V = MigModel;

    open spec fn view(&self) -> MigModel {
        MigModel { version: self.version, kind: self.kind, changes: self.changes@ }
    }
}

/// The models of a list of migrations.
pub open spec fn migs_view(s: Seq<Migration>) -> Seq<MigModel> {
    s.map_values(|m: Migration| m@)
}

/// A migration that failed, and why.
#[derive(Clone, Copy, Debug, PartialEq, Eq, Structural)]
pub struct MigrationError {
    pub version: u64,
    pub cause: DbError,
}

/// What a whole run leaves behind: the resulting state, and the error that
/// stopped it, if one did.
#[verifier::ext_equal]
pub struct RunOutcome {
    pub state: DbModel,
    pub err: Option<MigrationError>,
}

/// What one migration's statement batch does to the state: the changes in
/// order, stopping at the first error.
pub open spec fn spec_apply_changes(d: DbModel, cs: Seq<SchemaChange>) -> Result<DbModel, DbError>
    decreases cs.len(),
{
    if cs.len() == 0 {
        Ok(d)
    } else {
        match spec_apply_change(d, cs.first()) {
            Ok(d2) => spec_apply_changes(d2, cs.drop_first()),
            Err(e) => Err(e),
        }
    }
}

/// What a run of a migration list does to the state: each migration whose
/// version is still pending is applied as a unit and its version recorded;
/// already-recorded versions and downgrade records are skipped; the first
/// failing migration stops the run with the state it found.
pub open spec fn spec_run(d: DbModel, ms: Seq<MigModel>) -> RunOutcome
    decreases ms.len(),
{
    if ms.len() == 0 {
        RunOutcome { state: d, err: None }
    } else {
        let m = ms.first();
        if m.version <= d.user_version || m.kind == MigrationKind::Down {
            spec_run(d, ms.drop_first())
        } else {
            match spec_apply_changes(d, m.changes) {
                Ok(d2) => spec_run(DbModel { user_version: m.version, ..d2 }, ms.drop_first()),
                Err(e) => RunOutcome {
                    state: d,
                    err: Some(MigrationError { version: m.version, cause: e }),
                },
            }
        }
    }
}

/// Applies one migration's statement batch as an atomic unit: on any error
/// the database is rolled back to the state it had before the batch.
pub fn apply_migration(db: &mut Database, m: &Migration) -> (r: Result<(), DbError>)
    ensures
        match spec_apply_changes(old(db)@, m@.changes) {
            Ok(d) => r is Ok && final(db)@ == d,
            Err(e) => r == Err::<(), DbError>(e) && final(db)@ == old(db)@,
        },
{
    let ghost d0 = db@;
    let saved = snapshot(db);
    proof {
        assert(m@.changes.skip(0) =~= m@.changes);
    }
    let mut i: usize = 0;
    while i < m.changes.len()
        invariant
            i <= m.changes@.len(),
            d0 == old(db)@,
            saved@ == d0,
            spec_apply_changes(d0, m@.changes) == spec_apply_changes(db@, m@.changes.skip(i as int)),
        decreases m.changes@.len() - i,
    {
        let ghost rest = m@.changes.skip(i as int);
        proof {
            assert(rest.len() > 0);
            assert(rest.first() == m@.changes[i as int]);
            assert(rest.drop_first() =~= m@.changes.skip(i as int + 1));
        }
        let c = m.changes[i];
        let ghost dbefore = db@;
        match apply_change(db, c) {
            Ok(()) => {
                proof {
                    assert(spec_apply_change(dbefore, c) matches Ok(d2) && db@ == d2);
                    assert(spec_apply_changes(dbefore, rest) == spec_apply_changes(
                        db@,
                        rest.drop_first(),
                    ));
                }
            },
            Err(e) => {
                proof {
                    assert(spec_apply_change(dbefore, c) == Err::<DbModel, DbError>(e));
                    assert(spec_apply_changes(dbefore, rest) == Err::<DbModel, DbError>(e));
                    assert(spec_apply_changes(d0, m@.changes) == Err::<DbModel, DbError>(e));
                }
                *db = saved;
                return Err(e);
            },
        }
        i += 1;
    }
    proof {
        assert(m@.changes.skip(m.changes@.len() as int) =~= Seq::<SchemaChange>::empty());
    }
    Ok(())
}

/// Applies every pending migration of the list, in the order given, stopping
/// at the first failure with the database at the last successfully applied
/// version.
pub fn apply_migrations(db: &mut Database, migs: &Vec<Migration>) -> (r: Result<
    (),
    MigrationError,
>)
    ensures
        final(db)@ == spec_run(old(db)@, migs_view(migs@)).state,
        match r {
            Ok(()) => spec_run(old(db)@, migs_view(migs@)).err is None,
            Err(e) => spec_run(old(db)@, migs_view(migs@)).err == Some(e),
        },
{
    let ghost d0 = db@;
    let ghost ms = migs_view(migs@);
    proof {
        assert(ms.skip(0) =~= ms);
    }
    let mut i: usize = 0;
    while i < migs.len()
        invariant
            i <= migs@.len(),
            d0 == old(db)@,
            ms == migs_view(migs@),
            ms.len() == migs@.len(),
            forall|j: int| 0 <= j < migs@.len() ==> ms[j] == migs@[j]@,
            spec_run(d0, ms) == spec_run(db@, ms.skip(i as int)),
        decreases migs@.len() - i,
    {
        let ghost rest = ms.skip(i as int);
        proof {
            assert(rest.len() > 0);
            assert(rest.first() == ms[i as int]);
            assert(ms[i as int] == migs@[i as int]@);
            assert(rest.drop_first() =~= ms.skip(i as int + 1));
        }
        let m = &migs[i];
        let ghost dbefore = db@;
        if !(m.version <= db.user_version || matches!(m.kind, MigrationKind::Down)) {
            match apply_migration(db, m) {
                Ok(()) => {
                    let ghost dmid = db@;
                    proof {
                        assert(spec_apply_changes(dbefore, m@.changes) matches Ok(d2) && dmid
                            == d2);
                    }
                    db.user_version = m.version;
                    proof {
                        assert(db@ =~= (DbModel { user_version: m@.version, ..dmid }));
                        assert(spec_run(dbefore, rest) == spec_run(db@, rest.drop_first()));
                    }
                },
                Err(e) => {
                    let err = MigrationError { version: m.version, cause: e };
                    proof {
                        assert(spec_apply_changes(dbefore, m@.changes) == Err::<
                            DbModel,
                            DbError,
                        >(e));
                        assert(spec_run(dbefore, rest) == (RunOutcome {
                            state: dbefore,
                            err: Some(err),
                        }));
                        assert(db@ == dbefore);
                    }
                    return Err(err);
                },
            }
        } else {
            proof {
                assert(spec_run(dbefore, rest) == spec_run(dbefore, rest.drop_first()));
            }
        }
        i += 1;
    }
    proof {
        assert(ms.skip(migs@.len() as int) =~= Seq::<MigModel>::empty());
    }
    Ok(())
}

/// A schema change never touches the recorded migration version.
proof fn lemma_change_preserves_user_version(d: DbModel, c: SchemaChange)
    ensures
        spec_apply_change(d, c) matches Ok(d2) ==> d2.user_version == d.user_version,
{
}

/// A statement batch never touches the recorded migration version.
proof fn lemma_changes_preserve_user_version(d: DbModel, cs: Seq<SchemaChange>)
    ensures
        spec_apply_changes(d, cs) matches Ok(d2) ==> d2.user_version == d.user_version,
    decreases cs.len(),
{
    if cs.len() > 0 {
        lemma_change_preserves_user_version(d, cs.first());
        match spec_apply_change(d, cs.first()) {
            Ok(d2) => lemma_changes_preserve_user_version(d2, cs.drop_first()),
            Err(_) => {},
        }
    }
}

/// The recorded version never goes backwards over a run.
proof fn lemma_run_version_monotone(d: DbModel, ms: Seq<MigModel>)
    ensures
        spec_run(d, ms).state.user_version >= d.user_version,
    decreases ms.len(),
{
    if ms.len() > 0 {
        let m = ms.first();
        if m.version <= d.user_version || m.kind == MigrationKind::Down {
            lemma_run_version_monotone(d, ms.drop_first());
        } else {
            match spec_apply_changes(d, m.changes) {
                Ok(d2) => {
                    lemma_run_version_monotone(
                        DbModel { user_version: m.version, ..d2 },
                        ms.drop_first(),
                    );
                },
                Err(_) => {},
            }
        }
    }
}

/// A run over migrations that are all already recorded (or downgrades) does
/// nothing and does not error.
proof fn lemma_run_skips_all(d: DbModel, ms: Seq<MigModel>)
    requires
        forall|j: int|
            0 <= j < ms.len() ==> (#[trigger] ms[j]).kind == MigrationKind::Down || ms[j].version
                <= d.user_version,
    ensures
        spec_run(d, ms) == (RunOutcome { state: d, err: None }),
    decreases ms.len(),
{
    if ms.len() > 0 {
        assert(ms.first() == ms[0]);
        assert(forall|j: int|
            0 <= j < ms.drop_first().len() ==> ms.drop_first()[j] == ms[j + 1]);
        lemma_run_skips_all(d, ms.drop_first());
    }
}

/// After a successful run, every upgrade in the list is recorded: the final
/// version is at least each migration's version.
proof fn lemma_run_records_all(d: DbModel, ms: Seq<MigModel>)
    requires
        spec_run(d, ms).err is None,
    ensures
        forall|j: int|
            0 <= j < ms.len() && (#[trigger] ms[j]).kind == MigrationKind::Up ==> spec_run(
                d,
                ms,
            ).state.user_version >= ms[j].version,
    decreases ms.len(),
{
    if ms.len() > 0 {
        let m = ms.first();
        let rest = ms.drop_first();
        assert(forall|j: int| 0 <= j < rest.len() ==> rest[j] == ms[j + 1]);
        if m.version <= d.user_version || m.kind == MigrationKind::Down {
            lemma_run_records_all(d, rest);
            lemma_run_version_monotone(d, rest);
            assert forall|j: int|
                0 <= j < ms.len() && (#[trigger] ms[j]).kind == MigrationKind::Up implies spec_run(
                d,
                ms,
            ).state.user_version >= ms[j].version by {
                if j == 0 {
                    assert(spec_run(d, ms).state.user_version >= d.user_version);
                } else {
                    assert(ms[j] == rest[j - 1]);
                }
            }
        } else {
            match spec_apply_changes(d, m.changes) {
                Ok(d2) => {
                    let dnext = DbModel { user_version: m.version, ..d2 };
                    lemma_run_records_all(dnext, rest);
                    lemma_run_version_monotone(dnext, rest);
                    assert forall|j: int|
                        0 <= j < ms.len() && (#[trigger] ms[j]).kind
                            == MigrationKind::Up implies spec_run(d, ms).state.user_version
                        >= ms[j].version by {
                        if j == 0 {
                            assert(spec_run(dnext, rest).state.user_version
                                >= dnext.user_version);
                        } else {
                            assert(ms[j] == rest[j - 1]);
                        }
                    }
                },
                Err(_) => {},
            }
        }
    }
}

/// A statement batch keeps the singleton-table invariant.
proof fn lemma_changes_preserve_singletons(d: DbModel, cs: Seq<SchemaChange>)
    requires
        singletons_wf(d),
    ensures
        spec_apply_changes(d, cs) matches Ok(d2) ==> singletons_wf(d2),
    decreases cs.len(),
{
    if cs.len() > 0 {
        lemma_change_preserves_singletons(d, cs.first());
        match spec_apply_change(d, cs.first()) {
            Ok(d2) => lemma_changes_preserve_singletons(d2, cs.drop_first()),
            Err(_) => {},
        }
    }
}

/// A whole run keeps the singleton-table invariant: `timer_settings` and
/// `streak_info` never gain a second row, whatever migrations run and however
/// the run ends.
pub proof fn lemma_run_preserves_singletons(d: DbModel, ms: Seq<MigModel>)
    requires
        singletons_wf(d),
    ensures
        singletons_wf(spec_run(d, ms).state),
    decreases ms.len(),
{
    if ms.len() > 0 {
        let m = ms.first();
        if m.version <= d.user_version || m.kind == MigrationKind::Down {
            lemma_run_preserves_singletons(d, ms.drop_first());
        } else {
            lemma_changes_preserve_singletons(d, m.changes);
            match spec_apply_changes(d, m.changes) {
                Ok(d2) => {
                    lemma_run_preserves_singletons(
                        DbModel { user_version: m.version, ..d2 },
                        ms.drop_first(),
                    );
                },
                Err(_) => {},
            }
        }
    }
}

/// Idempotence of the runner: once a migration list has been applied
/// successfully, running the same list again performs no change and does not
/// error.
pub proof fn lemma_runner_idempotent(d: DbModel, ms: Seq<MigModel>)
    requires
        spec_run(d, ms).err is None,
    ensures
        spec_run(spec_run(d, ms).state, ms) == (RunOutcome {
            state: spec_run(d, ms).state,
            err: None,
        }),
{
    let d1 = spec_run(d, ms).state;
    lemma_run_records_all(d, ms);
    assert(forall|j: int|
        0 <= j < ms.len() ==> (#[trigger] ms[j]).kind == MigrationKind::Down || ms[j].version
            <= d1.user_version);
    lemma_run_skips_all(d1, ms);
}

} // verus!
