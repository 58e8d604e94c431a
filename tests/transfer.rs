use std::collections::HashMap;

use note_shell::error::{CopyStep, MissingFile, TransferError};
use note_shell::transfer::{
    backup_database, backup_plan, copy_failed, database_path, first_copy, next_copy, restore_database,
    restore_plan, snapshot_file_name, CopyOp, DATABASE_FILE,
};

fn run(files: &mut HashMap<String, Vec<u8>>, ops: &[CopyOp]) {
    for op in ops {
        let bytes = files[&op.from].clone();
        files.insert(op.to.clone(), bytes);
    }
}

#[test]
fn backup_without_database_is_not_found() {
    match backup_plan("/d/notes.db", false, "/out.db") {
        Err(TransferError::NotFound(MissingFile::Database)) => {}
        other => panic!("{:?}", other),
    }
}

#[test]
fn backup_copies_database_to_destination() {
    let ops = backup_plan("/d/notes.db", true, "/out.db").unwrap();
    assert_eq!(ops.len(), 1);
    assert_eq!(ops[0].from, "/d/notes.db");
    assert_eq!(ops[0].to, "/out.db");
    assert_eq!(ops[0].step, CopyStep::Backup);
}

#[test]
fn backup_reports_data_dir_failure() {
    match backup_database(&Err("no home".to_string()), false, "/out.db") {
        Err(TransferError::DataDir(d)) => assert_eq!(d, "no home"),
        other => panic!("{:?}", other),
    }
}

#[test]
fn backup_database_in_data_dir() {
    let dir = Ok("/data/app".to_string());
    let ops = backup_database(&dir, true, "/out.db").unwrap();
    assert_eq!(ops[0].from, database_path("/data/app"));
    assert!(matches!(
        backup_database(&dir, false, "/out.db"),
        Err(TransferError::NotFound(MissingFile::Database))
    ));
}

#[test]
fn database_path_joins_file_name() {
    let p = database_path("/data/app");
    assert_ne!(p, "/data/app");
    assert_eq!(p, format!("/data/app{}notes.db", std::path::MAIN_SEPARATOR));
    assert_eq!(DATABASE_FILE, "notes.db");
}

#[test]
fn snapshot_names() {
    assert_eq!(snapshot_file_name("20240102_030405"), "notes_backup_20240102_030405.db");
}

#[test]
fn restore_without_backup_is_not_found() {
    assert!(matches!(
        restore_plan("/b.db", false, "/d/notes.db", true, "/d/s.db"),
        Err(TransferError::NotFound(MissingFile::Backup))
    ));
    assert!(matches!(
        restore_database("/b.db", false, &Err("x".to_string()), true),
        Err(TransferError::NotFound(MissingFile::Backup))
    ));
}

#[test]
fn restore_reports_data_dir_failure() {
    assert!(matches!(
        restore_database("/b.db", true, &Err("x".to_string()), true),
        Err(TransferError::DataDir(_))
    ));
}

#[test]
fn restore_snapshots_then_overwrites() {
    let ops = restore_plan("/b.db", true, "/d/notes.db", true, "/d/s.db").unwrap();
    assert_eq!(ops.len(), 2);
    assert_eq!((ops[0].from.as_str(), ops[0].to.as_str(), ops[0].step), ("/d/notes.db", "/d/s.db", CopyStep::Snapshot));
    assert_eq!((ops[1].from.as_str(), ops[1].to.as_str(), ops[1].step), ("/b.db", "/d/notes.db", CopyStep::Restore));
}

#[test]
fn restore_without_database_copies_only() {
    let ops = restore_plan("/b.db", true, "/d/notes.db", false, "/d/s.db").unwrap();
    assert_eq!(ops.len(), 1);
    assert_eq!(ops[0].step, CopyStep::Restore);
}

#[test]
fn restore_leaves_one_new_snapshot() {
    let mut files: HashMap<String, Vec<u8>> = HashMap::new();
    let db = database_path("/data/app");
    files.insert(db.clone(), vec![1, 2, 3]);
    files.insert("/backup.db".to_string(), vec![9, 9]);
    let before: Vec<String> = files.keys().cloned().collect();
    let ops = restore_database("/backup.db", true, &Ok("/data/app".to_string()), true).unwrap();
    run(&mut files, &ops);
    assert_eq!(files[&db], vec![9, 9]);
    let new: Vec<&String> = files.keys().filter(|k| !before.contains(k)).collect();
    assert_eq!(new.len(), 1);
    let snap = new[0];
    let prefix = format!("/data/app{}notes_backup_", std::path::MAIN_SEPARATOR);
    assert!(snap.starts_with(&prefix));
    assert!(snap.ends_with(".db"));
    let stamp = &snap[prefix.len()..snap.len() - 3];
    assert_eq!(stamp.len(), 15);
    assert_eq!(&stamp[8..9], "_");
    assert!(stamp.chars().enumerate().all(|(i, c)| i == 8 || c.is_ascii_digit()));
    assert_eq!(files[snap], vec![1, 2, 3]);
}

#[test]
fn copy_failure_names_step() {
    let ops = restore_plan("/b.db", true, "/d/notes.db", true, "/d/s.db").unwrap();
    let e = copy_failed(&ops[0], "denied".to_string());
    assert!(matches!(&e, TransferError::Copy(CopyStep::Snapshot, d) if d == "denied"));
    assert_eq!(e.message(), "备份当前数据库失败: denied");
}

#[test]
fn error_messages() {
    assert_eq!(TransferError::NotFound(MissingFile::Database).message(), "数据库文件不存在");
    assert_eq!(TransferError::NotFound(MissingFile::Backup).message(), "备份文件不存在");
    assert_eq!(TransferError::Export("disk full".to_string()).message(), "导出失败: disk full");
    assert_eq!(TransferError::DataDir("x".to_string()).message(), "无法获取应用数据目录: x");
    assert_eq!(TransferError::Copy(CopyStep::Backup, "e".to_string()).message(), "备份数据库失败: e");
    assert_eq!(TransferError::Copy(CopyStep::Restore, "e".to_string()).message(), "恢复数据库失败: e");
}


#[test]
fn stepping_runs_every_copy_in_order() {
    let ops = restore_plan("/b.db", true, "/d/notes.db", true, "/d/s.db").unwrap();
    assert_eq!(first_copy(&ops), Some(0));
    assert_eq!(next_copy(&ops, 0, Ok(())).unwrap(), Some(1));
    assert_eq!(next_copy(&ops, 1, Ok(())).unwrap(), None);
}

#[test]
fn failed_snapshot_stops_restore() {
    let ops = restore_plan("/b.db", true, "/d/notes.db", true, "/d/s.db").unwrap();
    match next_copy(&ops, 0, Err("denied".to_string())) {
        Err(TransferError::Copy(CopyStep::Snapshot, d)) => assert_eq!(d, "denied"),
        other => panic!("{:?}", other),
    }
}

#[test]
fn failed_restore_copy_is_reported() {
    let ops = restore_plan("/b.db", true, "/d/notes.db", false, "").unwrap();
    assert!(matches!(next_copy(&ops, 0, Err("x".to_string())), Err(TransferError::Copy(CopyStep::Restore, _))));
}

#[test]
fn empty_plan_has_no_first_copy() {
    assert_eq!(first_copy(&Vec::new()), None);
}
