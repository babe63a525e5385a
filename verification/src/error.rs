//! Error taxonomy for the whole core.
//!
//! Two rules hold everywhere below. Nothing internal crosses the bridge: an
//! [`AppError`] carries a Russian sentence and a stable code, and the driver or
//! file-system detail behind it stays out of the wire form. And every variant
//! is actionable or explanatory: if the UI can do something about a failure,
//! the code says which.

use vstd::prelude::*;

use crate::text::{
    append_chars, append_str, decimal, decimal_chars, owned, signed_decimal, signed_decimal_chars,
    string_of,
};

verus! {

pub type AppResult<T> = Result<T, AppError>;

#[derive(Clone, Debug, PartialEq, Eq)]
pub enum AppError {
    Database(DatabaseError),
    Validation(ValidationError),
    Reminder(ReminderError),
    Notification(NotificationError),
    FileSystem(FileSystemError),
    Encryption(EncryptionError),
    Backup(BackupError),
    Import(ImportError),
    Platform(PlatformError),
}

#[derive(Clone, Debug, PartialEq, Eq)]
pub enum DatabaseError {
    /// The database could not be opened.
    Open,
    /// A schema migration failed.
    Migration { version: i64 },
    /// The schema is newer than this build supports.
    SchemaTooNew { found: i64, supported: i64 },
    /// A query failed.
    Query,
    NotFound { entity: &'static str, id: String },
    Conflict { entity: &'static str, id: String },
    /// The database is locked by another operation.
    Busy,
    /// The integrity check failed.
    Corrupt,
}

#[derive(Clone, Debug, PartialEq, Eq)]
pub enum ValidationError {
    Required { field: &'static str },
    TooLong { field: &'static str, max: usize },
    Invalid { field: &'static str },
    UnknownTimeZone { value: String },
    TimeInPast,
    CyclicHierarchy { child: String, parent: String },
}

#[derive(Clone, Debug, PartialEq, Eq)]
pub enum ReminderError {
    InvalidRecurrence { reason: String },
    NoFutureOccurrence,
    UnparsableText,
    Ended,
}

#[derive(Clone, Debug, PartialEq, Eq)]
pub enum NotificationError {
    ExactAlarmDenied,
    NotificationsDenied,
    ScheduleFailed { reason: String },
    ChannelUnavailable,
}

#[derive(Clone, Debug, PartialEq, Eq)]
pub enum FileSystemError {
    NotFound,
    OutOfSpace { needed: u64 },
    PermissionDenied,
    /// Any other input/output failure.
    Io,
    PathEscape,
    TooLarge { max: u64 },
}

#[derive(Clone, Debug, PartialEq, Eq)]
pub enum EncryptionError {
    DecryptionFailed,
    KeyDerivation,
    KeyUnavailable,
    UnsupportedFormat { version: u32 },
}

#[derive(Clone, Debug, PartialEq, Eq)]
pub enum BackupError {
    Corrupt,
    ChecksumMismatch,
    MissingEntry { entry: String },
    UnsupportedVersion { found: u32 },
    WriteFailed,
}

#[derive(Clone, Debug, PartialEq, Eq)]
pub enum ImportError {
    UnsupportedFormat,
    Malformed { line: usize },
    IdConflict { count: usize },
    Empty,
}

#[derive(Clone, Debug, PartialEq, Eq)]
pub enum PlatformError {
    Unsupported { capability: &'static str },
    PluginCall { reason: String },
    DataDirUnavailable,
}

/// What the database driver reported, as far as the core distinguishes it.
#[derive(Clone, Debug, PartialEq, Eq)]
pub enum DriverFailure {
    Busy,
    Locked,
    Corrupt,
    Other,
}

/// The kind of an input/output failure, as far as the core distinguishes it.
#[derive(Clone, Debug, PartialEq, Eq)]
pub enum IoFailure {
    NotFound,
    PermissionDenied,
    Other,
}

/// Wire representation of [`AppError`].
#[derive(Clone, Debug, PartialEq, Eq)]
pub struct AppErrorDto {
    pub kind: &'static str,
    pub code: &'static str,
    pub message: String,
    /// Small structured facts, keyed and in key order; `None` when there are none.
    pub details: Option<Vec<(String, String)>>,
}

// ------------------------------------------------------------- the spec --

/// Broad category, used by the UI to pick an icon and a recovery hint.
pub open spec fn kind_of(e: AppError) -> Seq<char> {
    match e {
    AppError::Database(error) => match error {
    DatabaseError::Open => "database"@,
    DatabaseError::Migration { .. } => "database"@,
    DatabaseError::SchemaTooNew { .. } => "database"@,
    DatabaseError::Query => "database"@,
    DatabaseError::NotFound { .. } => "not_found"@,
    DatabaseError::Conflict { .. } => "conflict"@,
    DatabaseError::Busy => "database"@,
    DatabaseError::Corrupt => "database"@,
    },
    AppError::Validation(error) => match error {
    ValidationError::Required { .. } => "validation"@,
    ValidationError::TooLong { max, .. } => "validation"@,
    ValidationError::Invalid { .. } => "validation"@,
    ValidationError::UnknownTimeZone { .. } => "validation"@,
    ValidationError::TimeInPast => "validation"@,
    ValidationError::CyclicHierarchy { .. } => "validation"@,
    },
    AppError::Reminder(error) => match error {
    ReminderError::InvalidRecurrence { .. } => "reminder"@,
    ReminderError::NoFutureOccurrence => "reminder"@,
    ReminderError::UnparsableText => "reminder"@,
    ReminderError::Ended => "reminder"@,
    },
    AppError::Notification(error) => match error {
    NotificationError::ExactAlarmDenied => "notification"@,
    NotificationError::NotificationsDenied => "notification"@,
    NotificationError::ScheduleFailed { .. } => "notification"@,
    NotificationError::ChannelUnavailable => "notification"@,
    },
    AppError::FileSystem(error) => match error {
    FileSystemError::NotFound => "file_system"@,
    FileSystemError::OutOfSpace { .. } => "file_system"@,
    FileSystemError::PermissionDenied => "file_system"@,
    FileSystemError::Io => "file_system"@,
    FileSystemError::PathEscape => "file_system"@,
    FileSystemError::TooLarge { .. } => "file_system"@,
    },
    AppError::Encryption(error) => match error {
    EncryptionError::DecryptionFailed => "encryption"@,
    EncryptionError::KeyDerivation => "encryption"@,
    EncryptionError::KeyUnavailable => "encryption"@,
    EncryptionError::UnsupportedFormat { .. } => "encryption"@,
    },
    AppError::Backup(error) => match error {
    BackupError::Corrupt => "backup"@,
    BackupError::ChecksumMismatch => "backup"@,
    BackupError::MissingEntry { .. } => "backup"@,
    BackupError::UnsupportedVersion { .. } => "backup"@,
    BackupError::WriteFailed => "backup"@,
    },
    AppError::Import(error) => match error {
    ImportError::UnsupportedFormat => "import"@,
    ImportError::Malformed { line } => "import"@,
    ImportError::IdConflict { count } => "import"@,
    ImportError::Empty => "import"@,
    },
    AppError::Platform(error) => match error {
    PlatformError::Unsupported { .. } => "platform"@,
    PlatformError::PluginCall { .. } => "platform"@,
    PlatformError::DataDirUnavailable => "platform"@,
    },
    }
}

/// Stable identifier the UI may branch on.
pub open spec fn code_of(e: AppError) -> Seq<char> {
    match e {
    AppError::Database(error) => match error {
    DatabaseError::Open => "database_open_failed"@,
    DatabaseError::Migration { .. } => "database_migration_failed"@,
    DatabaseError::SchemaTooNew { .. } => "database_schema_too_new"@,
    DatabaseError::Query => "database_query_failed"@,
    DatabaseError::NotFound { .. } => "not_found"@,
    DatabaseError::Conflict { .. } => "conflict"@,
    DatabaseError::Busy => "database_busy"@,
    DatabaseError::Corrupt => "database_corrupt"@,
    },
    AppError::Validation(error) => match error {
    ValidationError::Required { .. } => "validation_required"@,
    ValidationError::TooLong { max, .. } => "validation_too_long"@,
    ValidationError::Invalid { .. } => "validation_invalid"@,
    ValidationError::UnknownTimeZone { .. } => "validation_unknown_timezone"@,
    ValidationError::TimeInPast => "validation_time_in_past"@,
    ValidationError::CyclicHierarchy { .. } => "validation_cyclic_hierarchy"@,
    },
    AppError::Reminder(error) => match error {
    ReminderError::InvalidRecurrence { .. } => "reminder_invalid_recurrence"@,
    ReminderError::NoFutureOccurrence => "reminder_no_future_occurrence"@,
    ReminderError::UnparsableText => "reminder_unparsable_text"@,
    ReminderError::Ended => "reminder_ended"@,
    },
    AppError::Notification(error) => match error {
    NotificationError::ExactAlarmDenied => "exact_alarm_permission_denied"@,
    NotificationError::NotificationsDenied => "notification_permission_denied"@,
    NotificationError::ScheduleFailed { .. } => "notification_schedule_failed"@,
    NotificationError::ChannelUnavailable => "notification_channel_unavailable"@,
    },
    AppError::FileSystem(error) => match error {
    FileSystemError::NotFound => "file_not_found"@,
    FileSystemError::OutOfSpace { .. } => "file_out_of_space"@,
    FileSystemError::PermissionDenied => "storage_permission_denied"@,
    FileSystemError::Io => "file_io_failed"@,
    FileSystemError::PathEscape => "file_path_escape"@,
    FileSystemError::TooLarge { .. } => "file_too_large"@,
    },
    AppError::Encryption(error) => match error {
    EncryptionError::DecryptionFailed => "encryption_decryption_failed"@,
    EncryptionError::KeyDerivation => "encryption_key_derivation_failed"@,
    EncryptionError::KeyUnavailable => "encryption_key_unavailable"@,
    EncryptionError::UnsupportedFormat { .. } => "encryption_unsupported_format"@,
    },
    AppError::Backup(error) => match error {
    BackupError::Corrupt => "backup_corrupt"@,
    BackupError::ChecksumMismatch => "backup_checksum_mismatch"@,
    BackupError::MissingEntry { .. } => "backup_missing_entry"@,
    BackupError::UnsupportedVersion { .. } => "backup_unsupported_version"@,
    BackupError::WriteFailed => "backup_write_failed"@,
    },
    AppError::Import(error) => match error {
    ImportError::UnsupportedFormat => "import_unsupported_format"@,
    ImportError::Malformed { line } => "import_malformed"@,
    ImportError::IdConflict { count } => "import_id_conflict"@,
    ImportError::Empty => "import_empty"@,
    },
    AppError::Platform(error) => match error {
    PlatformError::Unsupported { .. } => "platform_unsupported"@,
    PlatformError::PluginCall { .. } => "platform_plugin_call_failed"@,
    PlatformError::DataDirUnavailable => "platform_data_dir_unavailable"@,
    },
    }
}

/// The sentence shown to the user.
pub open spec fn message_of(e: AppError) -> Seq<char> {
    match e {
    AppError::Database(error) => match error {
    DatabaseError::Open => "Не удалось открыть базу данных."@,
    DatabaseError::Migration { .. } => "Не удалось обновить структуру базы данных."@,
    DatabaseError::SchemaTooNew { .. } => "База создана более новой версией приложения. Обновите приложение."@,
    DatabaseError::Query => "Не удалось выполнить операцию с данными."@,
    DatabaseError::NotFound { .. } => "Запись больше недоступна."@,
    DatabaseError::Conflict { .. } => "Запись была изменена. Обновите экран и повторите."@,
    DatabaseError::Busy => "База занята. Повторите через мгновение."@,
    DatabaseError::Corrupt => "База данных повреждена. Восстановите из резервной копии."@,
    },
    AppError::Validation(error) => match error {
    ValidationError::Required { .. } => "Заполните обязательное поле."@,
    ValidationError::TooLong { max, .. } => "Значение слишком длинное, максимум "@ + decimal(max as nat) + " символов."@,
    ValidationError::Invalid { .. } => "Недопустимое значение поля."@,
    ValidationError::UnknownTimeZone { .. } => "Неизвестный часовой пояс."@,
    ValidationError::TimeInPast => "Указанное время уже прошло."@,
    ValidationError::CyclicHierarchy { .. } => "Нельзя переместить элемент внутрь самого себя."@,
    },
    AppError::Reminder(error) => match error {
    ReminderError::InvalidRecurrence { .. } => "Правило повторения некорректно."@,
    ReminderError::NoFutureOccurrence => "У этого повторения нет будущих срабатываний."@,
    ReminderError::UnparsableText => "Не удалось распознать дату и время. Укажите их вручную."@,
    ReminderError::Ended => "Напоминание уже завершено."@,
    },
    AppError::Notification(error) => match error {
    NotificationError::ExactAlarmDenied => "Разрешите точные напоминания в настройках Android."@,
    NotificationError::NotificationsDenied => "Разрешите уведомления в настройках Android."@,
    NotificationError::ScheduleFailed { .. } => "Не удалось создать точное напоминание."@,
    NotificationError::ChannelUnavailable => "Не удалось настроить канал уведомлений."@,
    },
    AppError::FileSystem(error) => match error {
    FileSystemError::NotFound => "Файл больше недоступен."@,
    FileSystemError::OutOfSpace { .. } => "Недостаточно свободного места."@,
    FileSystemError::PermissionDenied => "Нет доступа к файлу."@,
    FileSystemError::Io => "Не удалось прочитать или записать файл."@,
    FileSystemError::PathEscape => "Недопустимый путь к файлу."@,
    FileSystemError::TooLarge { .. } => "Файл слишком большой."@,
    },
    AppError::Encryption(error) => match error {
    EncryptionError::DecryptionFailed => "Неверный пароль или файл повреждён."@,
    EncryptionError::KeyDerivation => "Не удалось подготовить ключ."@,
    EncryptionError::KeyUnavailable => "Ключ шифрования недоступен на этом устройстве."@,
    EncryptionError::UnsupportedFormat { .. } => "Формат шифрования не поддерживается этой версией."@,
    },
    AppError::Backup(error) => match error {
    BackupError::Corrupt => "Резервная копия повреждена."@,
    BackupError::ChecksumMismatch => "Контрольная сумма резервной копии не совпадает."@,
    BackupError::MissingEntry { .. } => "В резервной копии не хватает данных."@,
    BackupError::UnsupportedVersion { .. } => "Резервная копия создана более новой версией приложения."@,
    BackupError::WriteFailed => "Не удалось записать резервную копию."@,
    },
    AppError::Import(error) => match error {
    ImportError::UnsupportedFormat => "Формат файла не поддерживается."@,
    ImportError::Malformed { line } => "Файл повреждён: ошибка в строке "@ + decimal(line as nat) + "."@,
    ImportError::IdConflict { count } => decimal(count as nat) + " записей уже существуют. Выберите способ разрешения."@,
    ImportError::Empty => "В файле нет данных для импорта."@,
    },
    AppError::Platform(error) => match error {
    PlatformError::Unsupported { .. } => "Эта возможность недоступна на текущем устройстве."@,
    PlatformError::PluginCall { .. } => "Системный компонент не ответил."@,
    PlatformError::DataDirUnavailable => "Хранилище приложения недоступно."@,
    },
    }
}

/// The one-line description of an error, as a log line or a test reads it:
/// the category, a colon, and what went wrong.
pub open spec fn description_of(e: AppError) -> Seq<char> {
    match e {
    AppError::Database(error) => "database: "@ + match error {
    DatabaseError::Open => "failed to open the database"@,
    DatabaseError::Migration { version } => "migration "@ + signed_decimal(version as int) + " failed"@,
    DatabaseError::SchemaTooNew { found, supported } => "schema is newer ("@ + signed_decimal(found as int)
        + ") than this build supports ("@ + signed_decimal(supported as int) + ")"@,
    DatabaseError::Query => "query failed"@,
    DatabaseError::NotFound { entity, id } => entity@ + " "@ + id@ + " not found"@,
    DatabaseError::Conflict { entity, id } => entity@ + " "@ + id@ + " was modified by another change"@,
    DatabaseError::Busy => "the database is locked by another operation"@,
    DatabaseError::Corrupt => "integrity check failed"@,
    },
    AppError::Validation(error) => "validation: "@ + match error {
    ValidationError::Required { field } => "field `"@ + field@ + "` is required"@,
    ValidationError::TooLong { field, max } => "field `"@ + field@ + "` is longer than "@ + decimal(max as nat)
        + " characters"@,
    ValidationError::Invalid { field } => "field `"@ + field@ + "` has an unsupported value"@,
    ValidationError::UnknownTimeZone { value } => "`"@ + value@ + "` is not a known time zone"@,
    ValidationError::TimeInPast => "the scheduled time is in the past"@,
    ValidationError::CyclicHierarchy { child, parent } => "making "@ + child@ + " a child of "@ + parent@
        + " would create a cycle"@,
    },
    AppError::Reminder(error) => "reminder: "@ + match error {
    ReminderError::InvalidRecurrence { .. } => "recurrence rule is not valid"@,
    ReminderError::NoFutureOccurrence => "the recurrence produced no future occurrence"@,
    ReminderError::UnparsableText => "could not parse the reminder text"@,
    ReminderError::Ended => "the reminder has already ended"@,
    },
    AppError::Notification(error) => "notification: "@ + match error {
    NotificationError::ExactAlarmDenied => "exact alarms are not permitted"@,
    NotificationError::NotificationsDenied => "notifications are not permitted"@,
    NotificationError::ScheduleFailed { .. } => "the platform refused to schedule the alarm"@,
    NotificationError::ChannelUnavailable => "the notification channel could not be created"@,
    },
    AppError::FileSystem(error) => "filesystem: "@ + match error {
    FileSystemError::NotFound => "file not found"@,
    FileSystemError::OutOfSpace { needed } => "not enough free space: "@ + decimal(needed as nat)
        + " bytes required"@,
    FileSystemError::PermissionDenied => "permission denied"@,
    FileSystemError::Io => "io failure"@,
    FileSystemError::PathEscape => "the path escapes the application directory"@,
    FileSystemError::TooLarge { max } => "the file is larger than the "@ + decimal(max as nat) + " byte limit"@,
    },
    AppError::Encryption(error) => "encryption: "@ + match error {
    EncryptionError::DecryptionFailed => "the password is wrong or the data is damaged"@,
    EncryptionError::KeyDerivation => "key derivation failed"@,
    EncryptionError::KeyUnavailable => "the key material is unavailable"@,
    EncryptionError::UnsupportedFormat { version } => "unsupported encryption format version "@
        + decimal(version as nat),
    },
    AppError::Backup(error) => "backup: "@ + match error {
    BackupError::Corrupt => "the archive is damaged"@,
    BackupError::ChecksumMismatch => "the checksum does not match"@,
    BackupError::MissingEntry { entry } => "the archive is missing `"@ + entry@ + "`"@,
    BackupError::UnsupportedVersion { found } => "the archive was produced by a newer version ("@
        + decimal(found as nat) + ")"@,
    BackupError::WriteFailed => "the archive could not be written"@,
    },
    AppError::Import(error) => "import: "@ + match error {
    ImportError::UnsupportedFormat => "the file format is not supported"@,
    ImportError::Malformed { line } => "the file could not be parsed at line "@ + decimal(line as nat),
    ImportError::IdConflict { count } => decimal(count as nat) + " identifiers already exist"@,
    ImportError::Empty => "the file contains no importable entries"@,
    },
    AppError::Platform(error) => "platform: "@ + match error {
    PlatformError::Unsupported { .. } => "this capability is not available on the current platform"@,
    PlatformError::PluginCall { .. } => "the Android plugin call failed"@,
    PlatformError::DataDirUnavailable => "the application data directory is unavailable"@,
    },
    }
}

/// Structured facts that accompany an error, never including user content.
pub open spec fn detail_pairs_of(e: AppError) -> Seq<(Seq<char>, Seq<char>)> {
    match e {
        AppError::Validation(ValidationError::Required { field }) => seq![("field"@, field@)],
        AppError::Validation(ValidationError::Invalid { field }) => seq![("field"@, field@)],
        AppError::Validation(ValidationError::TooLong { field, max }) => seq![
            ("field"@, field@),
            ("max"@, decimal(max as nat)),
        ],
        AppError::FileSystem(FileSystemError::OutOfSpace { needed }) => seq![
            ("needed"@, decimal(needed as nat)),
        ],
        AppError::FileSystem(FileSystemError::TooLarge { max }) => seq![
            ("max"@, decimal(max as nat)),
        ],
        AppError::Import(ImportError::IdConflict { count }) => seq![
            ("count"@, decimal(count as nat)),
        ],
        AppError::Database(DatabaseError::SchemaTooNew { found, supported }) => seq![
            ("found"@, signed_decimal(found as int)),
            ("supported"@, signed_decimal(supported as int)),
        ],
        _ => Seq::empty(),
    }
}

pub open spec fn pair_views(v: Seq<(String, String)>) -> Seq<(Seq<char>, Seq<char>)> {
    Seq::new(v.len(), |i: int| (v[i].0@, v[i].1@))
}

impl AppErrorDto {
    /// The details as plain text pairs, or nothing.
    pub open spec fn details_view(self) -> Option<Seq<(Seq<char>, Seq<char>)>> {
        match self.details {
            Some(d) => Some(pair_views(d@)),
            None => None,
        }
    }

    /// This is the whole wire form of `e`: its category, code, sentence and
    /// facts, the facts absent when it has none.
    pub open spec fn is_wire_form_of(self, e: AppError) -> bool {
        &&& self.kind@ == kind_of(e)
        &&& self.code@ == code_of(e)
        &&& self.message@ == message_of(e)
        &&& self.details_view() == (if detail_pairs_of(e).len() == 0 {
            None
        } else {
            Some(detail_pairs_of(e))
        })
    }
}

impl AppError {
    pub fn kind(&self) -> (k: &'static str)
        ensures
            k@ == kind_of(*self),
    {
        match self {
        AppError::Database(error) => match error {
        DatabaseError::Open => "database",
        DatabaseError::Migration { .. } => "database",
        DatabaseError::SchemaTooNew { .. } => "database",
        DatabaseError::Query => "database",
        DatabaseError::NotFound { .. } => "not_found",
        DatabaseError::Conflict { .. } => "conflict",
        DatabaseError::Busy => "database",
        DatabaseError::Corrupt => "database",
        },
        AppError::Validation(error) => match error {
        ValidationError::Required { .. } => "validation",
        ValidationError::TooLong { max, .. } => "validation",
        ValidationError::Invalid { .. } => "validation",
        ValidationError::UnknownTimeZone { .. } => "validation",
        ValidationError::TimeInPast => "validation",
        ValidationError::CyclicHierarchy { .. } => "validation",
        },
        AppError::Reminder(error) => match error {
        ReminderError::InvalidRecurrence { .. } => "reminder",
        ReminderError::NoFutureOccurrence => "reminder",
        ReminderError::UnparsableText => "reminder",
        ReminderError::Ended => "reminder",
        },
        AppError::Notification(error) => match error {
        NotificationError::ExactAlarmDenied => "notification",
        NotificationError::NotificationsDenied => "notification",
        NotificationError::ScheduleFailed { .. } => "notification",
        NotificationError::ChannelUnavailable => "notification",
        },
        AppError::FileSystem(error) => match error {
        FileSystemError::NotFound => "file_system",
        FileSystemError::OutOfSpace { .. } => "file_system",
        FileSystemError::PermissionDenied => "file_system",
        FileSystemError::Io => "file_system",
        FileSystemError::PathEscape => "file_system",
        FileSystemError::TooLarge { .. } => "file_system",
        },
        AppError::Encryption(error) => match error {
        EncryptionError::DecryptionFailed => "encryption",
        EncryptionError::KeyDerivation => "encryption",
        EncryptionError::KeyUnavailable => "encryption",
        EncryptionError::UnsupportedFormat { .. } => "encryption",
        },
        AppError::Backup(error) => match error {
        BackupError::Corrupt => "backup",
        BackupError::ChecksumMismatch => "backup",
        BackupError::MissingEntry { .. } => "backup",
        BackupError::UnsupportedVersion { .. } => "backup",
        BackupError::WriteFailed => "backup",
        },
        AppError::Import(error) => match error {
        ImportError::UnsupportedFormat => "import",
        ImportError::Malformed { line } => "import",
        ImportError::IdConflict { count } => "import",
        ImportError::Empty => "import",
        },
        AppError::Platform(error) => match error {
        PlatformError::Unsupported { .. } => "platform",
        PlatformError::PluginCall { .. } => "platform",
        PlatformError::DataDirUnavailable => "platform",
        },
        }
    }

    pub fn code(&self) -> (c: &'static str)
        ensures
            c@ == code_of(*self),
    {
        match self {
        AppError::Database(error) => match error {
        DatabaseError::Open => "database_open_failed",
        DatabaseError::Migration { .. } => "database_migration_failed",
        DatabaseError::SchemaTooNew { .. } => "database_schema_too_new",
        DatabaseError::Query => "database_query_failed",
        DatabaseError::NotFound { .. } => "not_found",
        DatabaseError::Conflict { .. } => "conflict",
        DatabaseError::Busy => "database_busy",
        DatabaseError::Corrupt => "database_corrupt",
        },
        AppError::Validation(error) => match error {
        ValidationError::Required { .. } => "validation_required",
        ValidationError::TooLong { max, .. } => "validation_too_long",
        ValidationError::Invalid { .. } => "validation_invalid",
        ValidationError::UnknownTimeZone { .. } => "validation_unknown_timezone",
        ValidationError::TimeInPast => "validation_time_in_past",
        ValidationError::CyclicHierarchy { .. } => "validation_cyclic_hierarchy",
        },
        AppError::Reminder(error) => match error {
        ReminderError::InvalidRecurrence { .. } => "reminder_invalid_recurrence",
        ReminderError::NoFutureOccurrence => "reminder_no_future_occurrence",
        ReminderError::UnparsableText => "reminder_unparsable_text",
        ReminderError::Ended => "reminder_ended",
        },
        AppError::Notification(error) => match error {
        NotificationError::ExactAlarmDenied => "exact_alarm_permission_denied",
        NotificationError::NotificationsDenied => "notification_permission_denied",
        NotificationError::ScheduleFailed { .. } => "notification_schedule_failed",
        NotificationError::ChannelUnavailable => "notification_channel_unavailable",
        },
        AppError::FileSystem(error) => match error {
        FileSystemError::NotFound => "file_not_found",
        FileSystemError::OutOfSpace { .. } => "file_out_of_space",
        FileSystemError::PermissionDenied => "storage_permission_denied",
        FileSystemError::Io => "file_io_failed",
        FileSystemError::PathEscape => "file_path_escape",
        FileSystemError::TooLarge { .. } => "file_too_large",
        },
        AppError::Encryption(error) => match error {
        EncryptionError::DecryptionFailed => "encryption_decryption_failed",
        EncryptionError::KeyDerivation => "encryption_key_derivation_failed",
        EncryptionError::KeyUnavailable => "encryption_key_unavailable",
        EncryptionError::UnsupportedFormat { .. } => "encryption_unsupported_format",
        },
        AppError::Backup(error) => match error {
        BackupError::Corrupt => "backup_corrupt",
        BackupError::ChecksumMismatch => "backup_checksum_mismatch",
        BackupError::MissingEntry { .. } => "backup_missing_entry",
        BackupError::UnsupportedVersion { .. } => "backup_unsupported_version",
        BackupError::WriteFailed => "backup_write_failed",
        },
        AppError::Import(error) => match error {
        ImportError::UnsupportedFormat => "import_unsupported_format",
        ImportError::Malformed { line } => "import_malformed",
        ImportError::IdConflict { count } => "import_id_conflict",
        ImportError::Empty => "import_empty",
        },
        AppError::Platform(error) => match error {
        PlatformError::Unsupported { .. } => "platform_unsupported",
        PlatformError::PluginCall { .. } => "platform_plugin_call_failed",
        PlatformError::DataDirUnavailable => "platform_data_dir_unavailable",
        },
        }
    }

    pub fn user_message(&self) -> (m: String)
        ensures
            m@ == message_of(*self),
    {
        match self {
        AppError::Database(error) => match error {
        DatabaseError::Open => owned("Не удалось открыть базу данных."),
        DatabaseError::Migration { .. } => owned("Не удалось обновить структуру базы данных."),
        DatabaseError::SchemaTooNew { .. } => owned("База создана более новой версией приложения. Обновите приложение."),
        DatabaseError::Query => owned("Не удалось выполнить операцию с данными."),
        DatabaseError::NotFound { .. } => owned("Запись больше недоступна."),
        DatabaseError::Conflict { .. } => owned("Запись была изменена. Обновите экран и повторите."),
        DatabaseError::Busy => owned("База занята. Повторите через мгновение."),
        DatabaseError::Corrupt => owned("База данных повреждена. Восстановите из резервной копии."),
        },
        AppError::Validation(error) => match error {
        ValidationError::Required { .. } => owned("Заполните обязательное поле."),
        ValidationError::TooLong { max, .. } => {
        let mut out: Vec<char> = Vec::new();
        append_str(&mut out, "Значение слишком длинное, максимум ");
        let digits = decimal_chars(*max as u64);
        append_chars(&mut out, &digits);
        append_str(&mut out, " символов.");
        string_of(&out)
        },
        ValidationError::Invalid { .. } => owned("Недопустимое значение поля."),
        ValidationError::UnknownTimeZone { .. } => owned("Неизвестный часовой пояс."),
        ValidationError::TimeInPast => owned("Указанное время уже прошло."),
        ValidationError::CyclicHierarchy { .. } => owned("Нельзя переместить элемент внутрь самого себя."),
        },
        AppError::Reminder(error) => match error {
        ReminderError::InvalidRecurrence { .. } => owned("Правило повторения некорректно."),
        ReminderError::NoFutureOccurrence => owned("У этого повторения нет будущих срабатываний."),
        ReminderError::UnparsableText => owned("Не удалось распознать дату и время. Укажите их вручную."),
        ReminderError::Ended => owned("Напоминание уже завершено."),
        },
        AppError::Notification(error) => match error {
        NotificationError::ExactAlarmDenied => owned("Разрешите точные напоминания в настройках Android."),
        NotificationError::NotificationsDenied => owned("Разрешите уведомления в настройках Android."),
        NotificationError::ScheduleFailed { .. } => owned("Не удалось создать точное напоминание."),
        NotificationError::ChannelUnavailable => owned("Не удалось настроить канал уведомлений."),
        },
        AppError::FileSystem(error) => match error {
        FileSystemError::NotFound => owned("Файл больше недоступен."),
        FileSystemError::OutOfSpace { .. } => owned("Недостаточно свободного места."),
        FileSystemError::PermissionDenied => owned("Нет доступа к файлу."),
        FileSystemError::Io => owned("Не удалось прочитать или записать файл."),
        FileSystemError::PathEscape => owned("Недопустимый путь к файлу."),
        FileSystemError::TooLarge { .. } => owned("Файл слишком большой."),
        },
        AppError::Encryption(error) => match error {
        EncryptionError::DecryptionFailed => owned("Неверный пароль или файл повреждён."),
        EncryptionError::KeyDerivation => owned("Не удалось подготовить ключ."),
        EncryptionError::KeyUnavailable => owned("Ключ шифрования недоступен на этом устройстве."),
        EncryptionError::UnsupportedFormat { .. } => owned("Формат шифрования не поддерживается этой версией."),
        },
        AppError::Backup(error) => match error {
        BackupError::Corrupt => owned("Резервная копия повреждена."),
        BackupError::ChecksumMismatch => owned("Контрольная сумма резервной копии не совпадает."),
        BackupError::MissingEntry { .. } => owned("В резервной копии не хватает данных."),
        BackupError::UnsupportedVersion { .. } => owned("Резервная копия создана более новой версией приложения."),
        BackupError::WriteFailed => owned("Не удалось записать резервную копию."),
        },
        AppError::Import(error) => match error {
        ImportError::UnsupportedFormat => owned("Формат файла не поддерживается."),
        ImportError::Malformed { line } => {
        let mut out: Vec<char> = Vec::new();
        append_str(&mut out, "Файл повреждён: ошибка в строке ");
        let digits = decimal_chars(*line as u64);
        append_chars(&mut out, &digits);
        append_str(&mut out, ".");
        string_of(&out)
        },
        ImportError::IdConflict { count } => {
        let mut out: Vec<char> = Vec::new();
        let digits = decimal_chars(*count as u64);
        append_chars(&mut out, &digits);
        append_str(&mut out, " записей уже существуют. Выберите способ разрешения.");
        string_of(&out)
        },
        ImportError::Empty => owned("В файле нет данных для импорта."),
        },
        AppError::Platform(error) => match error {
        PlatformError::Unsupported { .. } => owned("Эта возможность недоступна на текущем устройстве."),
        PlatformError::PluginCall { .. } => owned("Системный компонент не ответил."),
        PlatformError::DataDirUnavailable => owned("Хранилище приложения недоступно."),
        },
        }
    }

    /// The one-line description of the error.
    pub fn to_string(&self) -> (s: String)
        ensures
            s@ == description_of(*self),
    {
        let mut out: Vec<char> = Vec::new();
        match self {
        AppError::Database(error) => {
            append_str(&mut out, "database: ");
            match error {
            DatabaseError::Open => append_str(&mut out, "failed to open the database"),
            DatabaseError::Migration { version } => {
                append_str(&mut out, "migration ");
                append_chars(&mut out, &signed_decimal_chars(*version));
                append_str(&mut out, " failed");
            },
            DatabaseError::SchemaTooNew { found, supported } => {
                append_str(&mut out, "schema is newer (");
                append_chars(&mut out, &signed_decimal_chars(*found));
                append_str(&mut out, ") than this build supports (");
                append_chars(&mut out, &signed_decimal_chars(*supported));
                append_str(&mut out, ")");
            },
            DatabaseError::Query => append_str(&mut out, "query failed"),
            DatabaseError::NotFound { entity, id } => {
                append_str(&mut out, entity);
                append_str(&mut out, " ");
                append_str(&mut out, id.as_str());
                append_str(&mut out, " not found");
            },
            DatabaseError::Conflict { entity, id } => {
                append_str(&mut out, entity);
                append_str(&mut out, " ");
                append_str(&mut out, id.as_str());
                append_str(&mut out, " was modified by another change");
            },
            DatabaseError::Busy => append_str(&mut out, "the database is locked by another operation"),
            DatabaseError::Corrupt => append_str(&mut out, "integrity check failed"),
            }
        },
        AppError::Validation(error) => {
            append_str(&mut out, "validation: ");
            match error {
            ValidationError::Required { field } => {
                append_str(&mut out, "field `");
                append_str(&mut out, field);
                append_str(&mut out, "` is required");
            },
            ValidationError::TooLong { field, max } => {
                append_str(&mut out, "field `");
                append_str(&mut out, field);
                append_str(&mut out, "` is longer than ");
                append_chars(&mut out, &decimal_chars(*max as u64));
                append_str(&mut out, " characters");
            },
            ValidationError::Invalid { field } => {
                append_str(&mut out, "field `");
                append_str(&mut out, field);
                append_str(&mut out, "` has an unsupported value");
            },
            ValidationError::UnknownTimeZone { value } => {
                append_str(&mut out, "`");
                append_str(&mut out, value.as_str());
                append_str(&mut out, "` is not a known time zone");
            },
            ValidationError::TimeInPast => append_str(&mut out, "the scheduled time is in the past"),
            ValidationError::CyclicHierarchy { child, parent } => {
                append_str(&mut out, "making ");
                append_str(&mut out, child.as_str());
                append_str(&mut out, " a child of ");
                append_str(&mut out, parent.as_str());
                append_str(&mut out, " would create a cycle");
            },
            }
        },
        AppError::Reminder(error) => {
            append_str(&mut out, "reminder: ");
            match error {
            ReminderError::InvalidRecurrence { .. } => append_str(&mut out, "recurrence rule is not valid"),
            ReminderError::NoFutureOccurrence => append_str(&mut out, "the recurrence produced no future occurrence"),
            ReminderError::UnparsableText => append_str(&mut out, "could not parse the reminder text"),
            ReminderError::Ended => append_str(&mut out, "the reminder has already ended"),
            }
        },
        AppError::Notification(error) => {
            append_str(&mut out, "notification: ");
            match error {
            NotificationError::ExactAlarmDenied => append_str(&mut out, "exact alarms are not permitted"),
            NotificationError::NotificationsDenied => append_str(&mut out, "notifications are not permitted"),
            NotificationError::ScheduleFailed { .. } => append_str(&mut out, "the platform refused to schedule the alarm"),
            NotificationError::ChannelUnavailable => append_str(&mut out, "the notification channel could not be created"),
            }
        },
        AppError::FileSystem(error) => {
            append_str(&mut out, "filesystem: ");
            match error {
            FileSystemError::NotFound => append_str(&mut out, "file not found"),
            FileSystemError::OutOfSpace { needed } => {
                append_str(&mut out, "not enough free space: ");
                append_chars(&mut out, &decimal_chars(*needed));
                append_str(&mut out, " bytes required");
            },
            FileSystemError::PermissionDenied => append_str(&mut out, "permission denied"),
            FileSystemError::Io => append_str(&mut out, "io failure"),
            FileSystemError::PathEscape => append_str(&mut out, "the path escapes the application directory"),
            FileSystemError::TooLarge { max } => {
                append_str(&mut out, "the file is larger than the ");
                append_chars(&mut out, &decimal_chars(*max));
                append_str(&mut out, " byte limit");
            },
            }
        },
        AppError::Encryption(error) => {
            append_str(&mut out, "encryption: ");
            match error {
            EncryptionError::DecryptionFailed => append_str(&mut out, "the password is wrong or the data is damaged"),
            EncryptionError::KeyDerivation => append_str(&mut out, "key derivation failed"),
            EncryptionError::KeyUnavailable => append_str(&mut out, "the key material is unavailable"),
            EncryptionError::UnsupportedFormat { version } => {
                append_str(&mut out, "unsupported encryption format version ");
                append_chars(&mut out, &decimal_chars(*version as u64));
            },
            }
        },
        AppError::Backup(error) => {
            append_str(&mut out, "backup: ");
            match error {
            BackupError::Corrupt => append_str(&mut out, "the archive is damaged"),
            BackupError::ChecksumMismatch => append_str(&mut out, "the checksum does not match"),
            BackupError::MissingEntry { entry } => {
                append_str(&mut out, "the archive is missing `");
                append_str(&mut out, entry.as_str());
                append_str(&mut out, "`");
            },
            BackupError::UnsupportedVersion { found } => {
                append_str(&mut out, "the archive was produced by a newer version (");
                append_chars(&mut out, &decimal_chars(*found as u64));
                append_str(&mut out, ")");
            },
            BackupError::WriteFailed => append_str(&mut out, "the archive could not be written"),
            }
        },
        AppError::Import(error) => {
            append_str(&mut out, "import: ");
            match error {
            ImportError::UnsupportedFormat => append_str(&mut out, "the file format is not supported"),
            ImportError::Malformed { line } => {
                append_str(&mut out, "the file could not be parsed at line ");
                append_chars(&mut out, &decimal_chars(*line as u64));
            },
            ImportError::IdConflict { count } => {
                append_chars(&mut out, &decimal_chars(*count as u64));
                append_str(&mut out, " identifiers already exist");
            },
            ImportError::Empty => append_str(&mut out, "the file contains no importable entries"),
            }
        },
        AppError::Platform(error) => {
            append_str(&mut out, "platform: ");
            match error {
            PlatformError::Unsupported { .. } => append_str(&mut out, "this capability is not available on the current platform"),
            PlatformError::PluginCall { .. } => append_str(&mut out, "the Android plugin call failed"),
            PlatformError::DataDirUnavailable => append_str(&mut out, "the application data directory is unavailable"),
            }
        },
        }
        assert(out@ =~= description_of(*self));
        string_of(&out)
    }

    fn detail_pairs(&self) -> (out: Vec<(String, String)>)
        ensures
            pair_views(out@) == detail_pairs_of(*self),
    {
        let mut out: Vec<(String, String)> = Vec::new();
        match self {
            AppError::Validation(ValidationError::Required { field })
            | AppError::Validation(ValidationError::Invalid { field }) => {
                out.push((owned("field"), owned(field)));
            },
            AppError::Validation(ValidationError::TooLong { field, max }) => {
                out.push((owned("field"), owned(field)));
                out.push((owned("max"), string_of(&decimal_chars(*max as u64))));
            },
            AppError::FileSystem(FileSystemError::OutOfSpace { needed }) => {
                out.push((owned("needed"), string_of(&decimal_chars(*needed))));
            },
            AppError::FileSystem(FileSystemError::TooLarge { max }) => {
                out.push((owned("max"), string_of(&decimal_chars(*max))));
            },
            AppError::Import(ImportError::IdConflict { count }) => {
                out.push((owned("count"), string_of(&decimal_chars(*count as u64))));
            },
            AppError::Database(DatabaseError::SchemaTooNew { found, supported }) => {
                out.push((owned("found"), string_of(&signed_decimal_chars(*found))));
                out.push((owned("supported"), string_of(&signed_decimal_chars(*supported))));
            },
            _ => {},
        }
        assert(pair_views(out@) =~= detail_pairs_of(*self));
        out
    }

    /// The wire form: category, code, sentence and facts, and nothing internal.
    pub fn to_dto(&self) -> (dto: AppErrorDto)
        ensures
            dto.is_wire_form_of(*self),
    {
        let pairs = self.detail_pairs();
        let details = if pairs.len() == 0 {
            None
        } else {
            Some(pairs)
        };
        AppErrorDto {
            kind: self.kind(),
            code: self.code(),
            message: self.user_message(),
            details,
        }
    }

    /// Classifies a database driver failure.
    pub fn from_driver(failure: DriverFailure) -> (e: AppError)
        ensures
            e == (match failure {
                DriverFailure::Busy | DriverFailure::Locked => AppError::Database(DatabaseError::Busy),
                DriverFailure::Corrupt => AppError::Database(DatabaseError::Corrupt),
                DriverFailure::Other => AppError::Database(DatabaseError::Query),
            }),
    {
        match failure {
            DriverFailure::Busy | DriverFailure::Locked => AppError::Database(DatabaseError::Busy),
            DriverFailure::Corrupt => AppError::Database(DatabaseError::Corrupt),
            DriverFailure::Other => AppError::Database(DatabaseError::Query),
        }
    }

    /// Classifies an input/output failure.
    pub fn from_io(failure: IoFailure) -> (e: AppError)
        ensures
            e == (match failure {
                IoFailure::NotFound => AppError::FileSystem(FileSystemError::NotFound),
                IoFailure::PermissionDenied => AppError::FileSystem(FileSystemError::PermissionDenied),
                IoFailure::Other => AppError::FileSystem(FileSystemError::Io),
            }),
    {
        match failure {
            IoFailure::NotFound => AppError::FileSystem(FileSystemError::NotFound),
            IoFailure::PermissionDenied => AppError::FileSystem(FileSystemError::PermissionDenied),
            IoFailure::Other => AppError::FileSystem(FileSystemError::Io),
        }
    }
}

/// Shorthand for a validation error naming the field it is about.
pub fn invalid(field: &'static str) -> (e: AppError)
    ensures
        e == AppError::Validation(ValidationError::Invalid { field }),
{
    AppError::Validation(ValidationError::Invalid { field })
}

} // verus!
