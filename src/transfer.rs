//! Backup and restore of the database file as plans of file copies, which the
//! host carries out in order and stops at the first failure.
use vstd::prelude::*;
use crate::error::{CopyStep, MissingFile, TransferError};
use crate::stamp::{clock_text, is_digit, utc_now_text, FILE_STAMP_FORMAT};

verus! {

/// File name of the database inside the application's data directory.
pub const DATABASE_FILE: &'static str = "notes.db";

/// One file copy: the bytes of `from` replace those of `to`, which is
/// created if absent.
#[derive(Clone, Debug)]
pub struct CopyOp {
    pub from: String,
    pub to: String,
    pub step: CopyStep,
}

pub struct CopyView {
    pub from: Seq<char>,
    pub to: Seq<char>,
    pub step: CopyStep,
}

impl View for CopyOp {
    type V = CopyView;

    open spec fn view(&self) -> CopyView {
        CopyView { from: self.from@, to: self.to@, step: self.step }
    }
}

pub open spec fn plan_view(r: Result<Vec<CopyOp>, TransferError>) -> Result<Seq<CopyView>, TransferError> {
    match r {
        Ok(ops) => Ok(ops@.map_values(|op: CopyOp| op@)),
        Err(e) => Err(e),
    }
}

/// Files by path, with their bytes.
pub type Files = Map<Seq<char>, Seq<u8>>;

/// The files after the copies of `ops` in order, or `None` where a copy's
/// source is missing when its turn comes.
pub open spec fn run_copies(fs: Files, ops: Seq<CopyView>) -> Option<Files>
    decreases ops.len(),
{
    if ops.len() == 0 {
        Some(fs)
    } else {
        match run_copies(fs, ops.drop_last()) {
            Some(f) => if f.contains_key(ops.last().from) {
                Some(f.insert(ops.last().to, f[ops.last().from]))
            } else {
                None
            },
            None => None,
        }
    }
}

/// Backup: the database, when it exists, is copied to `dest`.
pub open spec fn backup_ops(db: Seq<char>, db_exists: bool, dest: Seq<char>) -> Result<
    Seq<CopyView>,
    TransferError,
> {
    if !db_exists {
        Err(TransferError::NotFound(MissingFile::Database))
    } else {
        Ok(seq![CopyView { from: db, to: dest, step: CopyStep::Backup }])
    }
}

/// Restore: a missing backup stops it; otherwise an existing database is first
/// copied to `snapshot`, then the backup is copied over the database.
pub open spec fn restore_ops(
    source: Seq<char>,
    source_exists: bool,
    db: Seq<char>,
    db_exists: bool,
    snapshot: Seq<char>,
) -> Result<Seq<CopyView>, TransferError> {
    if !source_exists {
        Err(TransferError::NotFound(MissingFile::Backup))
    } else if db_exists {
        Ok(
            seq![
                CopyView { from: db, to: snapshot, step: CopyStep::Snapshot },
                CopyView { from: source, to: db, step: CopyStep::Restore },
            ],
        )
    } else {
        Ok(seq![CopyView { from: source, to: db, step: CopyStep::Restore }])
    }
}

pub open spec fn snapshot_name(stamp: Seq<char>) -> Seq<char> {
    "notes_backup_"@ + stamp + ".db"@
}

/// `s` ends with `t`.
pub open spec fn ends_with(s: Seq<char>, t: Seq<char>) -> bool {
    s.len() >= t.len() && s.subrange(s.len() - t.len(), s.len() as int) == t
}

/// A file name that every platform reads as one plain component: no path
/// separator, no drive colon, and neither `.` nor `..`.
pub open spec fn is_plain_name(name: Seq<char>) -> bool {
    &&& !name.contains('/')
    &&& !name.contains('\\')
    &&& !name.contains(':')
    &&& name != seq!['.']
    &&& name != seq!['.', '.']
}

/// A directory written with the verbatim prefix `\\?\`.
pub open spec fn is_verbatim(dir: Seq<char>) -> bool {
    dir.len() >= 4 && dir.subrange(0, 4) == seq!['\\', '\\', '?', '\\']
}

/// `p` is `name` inside `dir`: right after it, or after one separator.
pub open spec fn is_joined(p: Seq<char>, dir: Seq<char>, name: Seq<char>) -> bool {
    ||| p == dir + name
    ||| p == dir + seq!['/'] + name
    ||| p == dir + seq!['\\'] + name
}

/// Relies on std's `Path::join`, which pushes `name` onto `dir`. For a plain
/// name, `PathBuf::push` appends it to `dir`, after a separator unless `dir`
/// is empty, ends with a separator or is a bare drive; a `dir` with a verbatim
/// prefix is rebuilt from its components, with the name as the last one.
/// `to_string_lossy` keeps text that came from a `str`.
#[verifier::external_body]
fn join_path(dir: &str, name: &str) -> (r: String)
    requires
        is_plain_name(name@),
    ensures
        ends_with(r@, name@),
        !is_verbatim(dir@) ==> is_joined(r@, dir@, name@),
{
    std::path::Path::new(dir).join(name).to_string_lossy().into_owned()
}

/// Path of the database inside the data directory `data_dir`.
pub fn database_path(data_dir: &str) -> (r: String)
    ensures
        ends_with(r@, DATABASE_FILE@),
        !is_verbatim(data_dir@) ==> is_joined(r@, data_dir@, DATABASE_FILE@),
{
    proof {
        reveal_strlit("notes.db");
        let n = DATABASE_FILE@;
        assert forall|i: int| 0 <= i < n.len() implies n[i] != '/' && n[i] != '\\' && n[i] != ':' by {}
        assert(n.len() != seq!['.'].len() && n.len() != seq!['.', '.'].len());
    }
    join_path(data_dir, DATABASE_FILE)
}

/// `db` is where backup and restore both find the database inside `dir`.
pub open spec fn database_in(db: Seq<char>, dir: Seq<char>) -> bool {
    &&& ends_with(db, DATABASE_FILE@)
    &&& !is_verbatim(dir) ==> is_joined(db, dir, DATABASE_FILE@)
}

/// `snapshot` is the snapshot file for time text `stamp` inside `dir`.
pub open spec fn snapshot_in(snapshot: Seq<char>, dir: Seq<char>, stamp: Seq<char>) -> bool {
    &&& clock_text(stamp, FILE_STAMP_FORMAT@)
    &&& ends_with(snapshot, snapshot_name(stamp))
    &&& !is_verbatim(dir) ==> is_joined(snapshot, dir, snapshot_name(stamp))
}

/// A snapshot name made from a time text of the file format is a plain file
/// name.
pub proof fn lemma_snapshot_name_plain(stamp: Seq<char>)
    requires
        clock_text(stamp, FILE_STAMP_FORMAT@),
    ensures
        is_plain_name(snapshot_name(stamp)),
{
    reveal_strlit("notes_backup_");
    reveal_strlit(".db");
    reveal_strlit("%Y%m%d_%H%M%S");
    let f = FILE_STAMP_FORMAT@;
    let pre = "notes_backup_"@;
    let post = ".db"@;
    let n = snapshot_name(stamp);
    assert forall|i: int| 0 <= i < f.len() implies f[i] != '/' && f[i] != '\\' && f[i] != ':' by {}
    assert forall|i: int| 0 <= i < n.len() implies n[i] != '/' && n[i] != '\\' && n[i] != ':' by {
        if i < pre.len() {
            assert(n[i] == pre[i]);
        } else if i < pre.len() + stamp.len() {
            assert(n[i] == stamp[i - pre.len()]);
            assert(is_digit(stamp[i - pre.len()]) || stamp[i - pre.len()] == '+' || f.contains(stamp[i - pre.len()]));
        } else {
            assert(n[i] == post[i - pre.len() - stamp.len()]);
        }
    }
    assert(n.len() != seq!['.'].len() && n.len() != seq!['.', '.'].len());
}

/// File name of the safety snapshot taken at time `stamp`.
pub fn snapshot_file_name(stamp: &str) -> (r: String)
    ensures
        r@ == snapshot_name(stamp@),
{
    let mut r = String::from_str("notes_backup_");
    r.append(stamp);
    r.append(".db");
    r
}

fn copy_op(from: &str, to: &str, step: CopyStep) -> (r: CopyOp)
    ensures
        r@ == (CopyView { from: from@, to: to@, step }),
{
    CopyOp { from: String::from_str(from), to: String::from_str(to), step }
}

/// The copies of a backup of the database at `db_path` to `dest`.
pub fn backup_plan(db_path: &str, db_exists: bool, dest: &str) -> (r: Result<Vec<CopyOp>, TransferError>)
    ensures
        plan_view(r) == backup_ops(db_path@, db_exists, dest@),
{
    if !db_exists {
        return Err(TransferError::NotFound(MissingFile::Database));
    }
    let ops = vec![copy_op(db_path, dest, CopyStep::Backup)];
    assert(ops@.map_values(|op: CopyOp| op@) =~= seq![
        CopyView { from: db_path@, to: dest@, step: CopyStep::Backup },
    ]);
    Ok(ops)
}

/// The copies of a restore from `source` over the database at `db_path`,
/// with `snapshot_path` for the safety snapshot.
pub fn restore_plan(
    source: &str,
    source_exists: bool,
    db_path: &str,
    db_exists: bool,
    snapshot_path: &str,
) -> (r: Result<Vec<CopyOp>, TransferError>)
    ensures
        plan_view(r) == restore_ops(source@, source_exists, db_path@, db_exists, snapshot_path@),
{
    if !source_exists {
        return Err(TransferError::NotFound(MissingFile::Backup));
    }
    let restore = copy_op(source, db_path, CopyStep::Restore);
    if db_exists {
        let ops = vec![copy_op(db_path, snapshot_path, CopyStep::Snapshot), restore];
        assert(ops@.map_values(|op: CopyOp| op@) =~= seq![
            CopyView { from: db_path@, to: snapshot_path@, step: CopyStep::Snapshot },
            CopyView { from: source@, to: db_path@, step: CopyStep::Restore },
        ]);
        Ok(ops)
    } else {
        let ops = vec![restore];
        assert(ops@.map_values(|op: CopyOp| op@) =~= seq![
            CopyView { from: source@, to: db_path@, step: CopyStep::Restore },
        ]);
        Ok(ops)
    }
}

/// Backup of the database into `dest`. `data_dir` is where the host keeps the
/// application's data, or why it could not tell; `db_exists` whether the
/// database file is there.
pub fn backup_database(data_dir: &Result<String, String>, db_exists: bool, dest: &str) -> (r: Result<
    Vec<CopyOp>,
    TransferError,
>)
    ensures
        data_dir is Err ==> r == Err::<Vec<CopyOp>, TransferError>(
            TransferError::DataDir(data_dir->Err_0),
        ),
        data_dir is Ok ==> exists|db: Seq<char>|
            database_in(db, data_dir->Ok_0@) && #[trigger] backup_ops(db, db_exists, dest@) == plan_view(r),
{
    match data_dir {
        Err(e) => Err(TransferError::DataDir(e.clone())),
        Ok(dir) => {
            let db = database_path(dir.as_str());
            let r = backup_plan(db.as_str(), db_exists, dest);
            assert(database_in(db@, dir@) && backup_ops(db@, db_exists, dest@) == plan_view(r));
            r
        },
    }
}

/// A restore plan from `source` over the database at `db` in `dir`, where
/// `snapshot` is named after the time text `stamp` whenever a database exists.
pub open spec fn restore_outcome(
    plan: Result<Seq<CopyView>, TransferError>,
    source: Seq<char>,
    dir: Seq<char>,
    db_exists: bool,
    db: Seq<char>,
    snapshot: Seq<char>,
    stamp: Seq<char>,
) -> bool {
    &&& database_in(db, dir)
    &&& (db_exists ==> snapshot_in(snapshot, dir, stamp))
    &&& plan == restore_ops(source, true, db, db_exists, snapshot)
}

/// Restore of the database from the backup `source`. The backup is looked
/// for first; `data_dir` and `db_exists` are as for a backup. The safety
/// snapshot is named after the current time; `Clock` when the clock gives no
/// time that can be written.
pub fn restore_database(
    source: &str,
    source_exists: bool,
    data_dir: &Result<String, String>,
    db_exists: bool,
) -> (r: Result<Vec<CopyOp>, TransferError>)
    ensures
        !source_exists ==> r == Err::<Vec<CopyOp>, TransferError>(
            TransferError::NotFound(MissingFile::Backup),
        ),
        source_exists && data_dir is Err ==> r == Err::<Vec<CopyOp>, TransferError>(
            TransferError::DataDir(data_dir->Err_0),
        ),
        source_exists && data_dir is Ok && r is Err ==> r->Err_0 is Clock && db_exists,
        source_exists && data_dir is Ok && r is Ok ==> exists|
            db: Seq<char>,
            snapshot: Seq<char>,
            stamp: Seq<char>,
        | #[trigger] restore_outcome(plan_view(r), source@, data_dir->Ok_0@, db_exists, db, snapshot, stamp),
{
    if !source_exists {
        return Err(TransferError::NotFound(MissingFile::Backup));
    }
    match data_dir {
        Err(e) => Err(TransferError::DataDir(e.clone())),
        Ok(dir) => {
            let db = database_path(dir.as_str());
            if db_exists {
                match utc_now_text(FILE_STAMP_FORMAT) {
                    None => Err(TransferError::Clock),
                    Some(stamp) => {
                        let name = snapshot_file_name(stamp.as_str());
                        proof {
                            lemma_snapshot_name_plain(stamp@);
                        }
                        let snapshot = join_path(dir.as_str(), name.as_str());
                        let r = restore_plan(source, true, db.as_str(), true, snapshot.as_str());
                        assert(restore_outcome(plan_view(r), source@, dir@, db_exists, db@, snapshot@, stamp@));
                        r
                    },
                }
            } else {
                let r = restore_plan(source, true, db.as_str(), false, "");
                let ghost stamp = Seq::<char>::empty();
                assert(restore_outcome(plan_view(r), source@, dir@, db_exists, db@, ""@, stamp));
                r
            }
        },
    }
}

/// What follows a finished copy: the next copy's index, or `None` once the
/// plan is done.
pub open spec fn next_after(
    plan: Seq<CopyView>,
    index: int,
    outcome: Result<(), String>,
) -> Result<Option<int>, TransferError> {
    match outcome {
        Err(d) => Err(TransferError::Copy(plan[index].step, d)),
        Ok(_) => if index < plan.len() - 1 {
            Ok(Some(index + 1))
        } else {
            Ok(None)
        },
    }
}

/// The first copy of a plan to run, if any.
pub fn first_copy(plan: &Vec<CopyOp>) -> (r: Option<usize>)
    ensures
        r == (if plan@.len() == 0 {
            None::<usize>
        } else {
            Some(0usize)
        }),
{
    if plan.len() == 0 {
        None
    } else {
        Some(0)
    }
}

/// After copy `index` of `plan` finished with `outcome`: a failure ends the
/// plan with that copy's error, so no later copy runs; a success moves on to
/// the next copy, or ends the plan after the last.
pub fn next_copy(plan: &Vec<CopyOp>, index: usize, outcome: Result<(), String>) -> (r: Result<
    Option<usize>,
    TransferError,
>)
    requires
        index < plan@.len(),
    ensures
        next_after(plan@.map_values(|op: CopyOp| op@), index as int, outcome) == match r {
            Ok(Some(i)) => Ok::<Option<int>, TransferError>(Some(i as int)),
            Ok(None) => Ok(None),
            Err(e) => Err(e),
        },
{
    match outcome {
        Err(d) => Err(copy_failed(&plan[index], d)),
        Ok(_) => if index < plan.len() - 1 {
            Ok(Some(index + 1))
        } else {
            Ok(None)
        },
    }
}

/// The error for a copy of the plan that failed with `detail`.
pub fn copy_failed(op: &CopyOp, detail: String) -> (r: TransferError)
    ensures
        r == TransferError::Copy(op.step, detail),
{
    TransferError::Copy(op.step, detail)
}

/// A backup with no database file fails as not found and plans no copy, so
/// no file is created.
pub proof fn lemma_backup_without_database(fs: Files, db: Seq<char>, dest: Seq<char>)
    requires
        !fs.contains_key(db),
    ensures
        backup_ops(db, fs.contains_key(db), dest) == Err::<Seq<CopyView>, TransferError>(
            TransferError::NotFound(MissingFile::Database),
        ),
{
}

/// A restore from an existing backup leaves the database holding the
/// backup's bytes, whether or not a database existed before. The snapshot
/// path must not be the backup itself, which the snapshot would overwrite
/// first.
pub proof fn lemma_restore_copies_backup(
    fs: Files,
    source: Seq<char>,
    db: Seq<char>,
    snapshot: Seq<char>,
)
    requires
        fs.contains_key(source),
        source != db,
        snapshot != source,
    ensures
        restore_ops(source, true, db, fs.contains_key(db), snapshot) is Ok,
        run_copies(fs, restore_ops(source, true, db, fs.contains_key(db), snapshot)->Ok_0) is Some,
        run_copies(fs, restore_ops(source, true, db, fs.contains_key(db), snapshot)->Ok_0)->Some_0[db]
            == fs[source],
{
    let ops = restore_ops(source, true, db, fs.contains_key(db), snapshot)->Ok_0;
    reveal_with_fuel(run_copies, 3);
    if fs.contains_key(db) {
        assert(ops.drop_last().drop_last() =~= Seq::<CopyView>::empty());
        let mid = fs.insert(snapshot, fs[db]);
        assert(run_copies(fs, ops.drop_last()) == Some(mid));
        assert(mid[source] == fs[source]);
    } else {
        assert(ops.drop_last() =~= Seq::<CopyView>::empty());
    }
}

/// A restore over an existing database adds exactly one file, the snapshot,
/// which holds the former database, and leaves every other file as it was.
pub proof fn lemma_restore_keeps_snapshot(
    fs: Files,
    source: Seq<char>,
    db: Seq<char>,
    snapshot: Seq<char>,
)
    requires
        fs.contains_key(source),
        fs.contains_key(db),
        !fs.contains_key(snapshot),
        source != db,
    ensures
        restore_ops(source, true, db, true, snapshot) is Ok,
        run_copies(fs, restore_ops(source, true, db, true, snapshot)->Ok_0) is Some,
        ({
            let after = run_copies(fs, restore_ops(source, true, db, true, snapshot)->Ok_0)->Some_0;
            &&& after.dom() == fs.dom().insert(snapshot)
            &&& after[db] == fs[source]
            &&& after[snapshot] == fs[db]
            &&& forall|p: Seq<char>| p != db && p != snapshot && fs.contains_key(p) ==> after[p] == fs[p]
        }),
{
    let ops = restore_ops(source, true, db, true, snapshot)->Ok_0;
    reveal_with_fuel(run_copies, 3);
    assert(ops.drop_last().drop_last() =~= Seq::<CopyView>::empty());
    let mid = fs.insert(snapshot, fs[db]);
    assert(run_copies(fs, ops.drop_last()) == Some(mid));
    let after = mid.insert(db, fs[source]);
    assert(run_copies(fs, ops) == Some(after));
    assert(after.dom() =~= fs.dom().insert(snapshot));
}

/// A restore from a backup that does not exist fails as not found and plans
/// no copy, so no file changes.
pub proof fn lemma_restore_without_backup(
    fs: Files,
    source: Seq<char>,
    db: Seq<char>,
    snapshot: Seq<char>,
)
    requires
        !fs.contains_key(source),
    ensures
        restore_ops(source, fs.contains_key(source), db, fs.contains_key(db), snapshot)
            == Err::<Seq<CopyView>, TransferError>(TransferError::NotFound(MissingFile::Backup)),
{
}

/// A restore over an existing database whose snapshot copy fails ends with
/// that failure before the copy that overwrites the database.
pub proof fn lemma_failed_snapshot_stops_restore(
    source: Seq<char>,
    db: Seq<char>,
    snapshot: Seq<char>,
    detail: String,
)
    ensures
        restore_ops(source, true, db, true, snapshot)->Ok_0[0].to == snapshot,
        restore_ops(source, true, db, true, snapshot)->Ok_0[1].to == db,
        next_after(restore_ops(source, true, db, true, snapshot)->Ok_0, 0, Err(detail)) == Err::<
            Option<int>,
            TransferError,
        >(TransferError::Copy(CopyStep::Snapshot, detail)),
{
}

} // verus!
