use keeps_core::error::{
    AppError, BackupError, DatabaseError, DriverFailure, FileSystemError, ImportError, IoFailure,
    NotificationError, ValidationError,
};

#[test]
fn not_found_is_reported_as_its_own_kind() {
    let error = AppError::Database(DatabaseError::NotFound {
        entity: "note",
        id: "abc".to_owned(),
    });
    assert_eq!(error.kind(), "not_found");
    assert_eq!(error.code(), "not_found");
}

#[test]
fn exact_alarm_denial_tells_the_user_what_to_do() {
    let error = AppError::Notification(NotificationError::ExactAlarmDenied);
    assert_eq!(error.code(), "exact_alarm_permission_denied");
    assert!(error.user_message().contains("настройках Android"));
}

#[test]
fn the_dto_never_carries_the_internal_message() {
    let error = AppError::Database(DatabaseError::Open);
    let dto = error.to_dto();
    assert_eq!(dto.message, "Не удалось открыть базу данных.");
    assert!(!dto.message.contains("rusqlite"));
    assert!(dto.details.is_none());
}

#[test]
fn validation_details_name_the_offending_field() {
    let error = AppError::Validation(ValidationError::TooLong {
        field: "title",
        max: 200,
    });
    let dto = error.to_dto();
    let details = dto.details.expect("details are present");
    let get = |key: &str| details.iter().find(|(k, _)| k == key).map(|(_, v)| v.as_str());
    assert_eq!(get("field"), Some("title"));
    assert_eq!(get("max"), Some("200"));
    assert!(dto.message.contains("200"));
}

#[test]
fn a_busy_database_is_distinguished_from_a_query_failure() {
    assert_eq!(AppError::from_driver(DriverFailure::Busy).code(), "database_busy");
    assert_ne!(AppError::from_driver(DriverFailure::Other).code(), "database_busy");
}

#[test]
fn a_missing_file_maps_to_a_user_facing_message() {
    let error = AppError::from_io(IoFailure::NotFound);
    assert_eq!(error.code(), "file_not_found");
    assert_eq!(error.user_message(), "Файл больше недоступен.");
}

#[test]
fn an_error_describes_itself_in_one_line() {
    assert_eq!(
        AppError::Database(DatabaseError::NotFound {
            entity: "note",
            id: "42".to_owned(),
        })
        .to_string(),
        "database: note 42 not found"
    );
    assert_eq!(
        AppError::Database(DatabaseError::SchemaTooNew {
            found: 9,
            supported: -1,
        })
        .to_string(),
        "database: schema is newer (9) than this build supports (-1)"
    );
    assert_eq!(
        AppError::Validation(ValidationError::TooLong {
            field: "title",
            max: 500,
        })
        .to_string(),
        "validation: field `title` is longer than 500 characters"
    );
    assert_eq!(
        AppError::FileSystem(FileSystemError::OutOfSpace { needed: 1024 }).to_string(),
        "filesystem: not enough free space: 1024 bytes required"
    );
    assert_eq!(
        AppError::Backup(BackupError::MissingEntry {
            entry: "notes.db".to_owned(),
        })
        .to_string(),
        "backup: the archive is missing `notes.db`"
    );
    assert_eq!(
        AppError::Import(ImportError::IdConflict { count: 3 }).to_string(),
        "import: 3 identifiers already exist"
    );
}
