//! Failures of the export, backup and restore commands.
use vstd::prelude::*;

verus! {

/// The copy that failed, which names the failure in its message.
#[derive(Clone, Copy, Debug, PartialEq, Eq, Structural)]
pub enum CopyStep {
    /// Copying the database out to a chosen file.
    Backup,
    /// The safety snapshot of the current database before a restore.
    Snapshot,
    /// Copying a backup over the database.
    Restore,
}

/// The file whose absence stopped a command.
#[derive(Clone, Copy, Debug, PartialEq, Eq, Structural)]
pub enum MissingFile {
    /// The application's database.
    Database,
    /// The backup chosen for a restore.
    Backup,
}

/// Why a command failed. The `String`s hold the underlying error's text.
#[derive(Clone, Debug)]
pub enum TransferError {
    /// The notes handed to an export were not a JSON array.
    Parse(String),
    /// Writing an exported document failed.
    Export(String),
    /// The host could not tell where the application keeps its data.
    DataDir(String),
    /// An expected source file does not exist.
    NotFound(MissingFile),
    /// A file copy failed.
    Copy(CopyStep, String),
    /// The system clock gave no time that can be written.
    Clock,
}

pub open spec fn copy_prefix(step: CopyStep) -> Seq<char> {
    match step {
        CopyStep::Backup => "备份数据库失败: "@,
        CopyStep::Snapshot => "备份当前数据库失败: "@,
        CopyStep::Restore => "恢复数据库失败: "@,
    }
}

pub open spec fn missing_text(f: MissingFile) -> Seq<char> {
    match f {
        MissingFile::Database => "数据库文件不存在"@,
        MissingFile::Backup => "备份文件不存在"@,
    }
}

/// The message shown to the user for an error.
pub open spec fn error_text(e: TransferError) -> Seq<char> {
    match e {
        TransferError::Parse(d) => "解析笔记数据失败: "@ + d@,
        TransferError::Export(d) => "导出失败: "@ + d@,
        TransferError::DataDir(d) => "无法获取应用数据目录: "@ + d@,
        TransferError::NotFound(f) => missing_text(f),
        TransferError::Copy(step, d) => copy_prefix(step) + d@,
        TransferError::Clock => "无法读取当前时间"@,
    }
}

impl TransferError {
    /// The message shown to the user.
    pub fn message(&self) -> (r: String)
        ensures
            r@ == error_text(*self),
    {
        match self {
            TransferError::Parse(d) => {
                let mut r = String::from_str("解析笔记数据失败: ");
                r.append(d.as_str());
                r
            },
            TransferError::Export(d) => {
                let mut r = String::from_str("导出失败: ");
                r.append(d.as_str());
                r
            },
            TransferError::DataDir(d) => {
                let mut r = String::from_str("无法获取应用数据目录: ");
                r.append(d.as_str());
                r
            },
            TransferError::NotFound(MissingFile::Database) => String::from_str("数据库文件不存在"),
            TransferError::NotFound(MissingFile::Backup) => String::from_str("备份文件不存在"),
            TransferError::Copy(step, d) => {
                let mut r = match step {
                    CopyStep::Backup => String::from_str("备份数据库失败: "),
                    CopyStep::Snapshot => String::from_str("备份当前数据库失败: "),
                    CopyStep::Restore => String::from_str("恢复数据库失败: "),
                };
                r.append(d.as_str());
                r
            },
            TransferError::Clock => String::from_str("无法读取当前时间"),
        }
    }
}

} // verus!
