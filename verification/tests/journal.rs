use std::str::FromStr;
use tj2::db::ids::{
    CustomFieldId, CustomFieldUid, EntryId, FileEntryId, FileEntryUid, JournalId, JournalUid, RemoteServerId, UserId,
};
use tj2::router::handles::journals::entries::search::CustomFieldPartial;
use tj2::db::ErrorKind;
use tj2::error::create_error_list;
use tj2::journal::custom_field::{
    default_precision, default_time_range_show_diff, IntegerRangeType, IntegerRangeValue,
    IntegerType, IntegerValue, TimeRangeType, TimeRangeValue, TimeType, TimeValue, Type, ValidationError,
    Value,
};
use tj2::journal::sharing::{Ability, JournalShareInviteStatus};
use tj2::journal::{
    CreateCustomFieldError, CustomField, EntryCreateError, EntryUpdateError, FileEntry, FileStatus, Journal, JournalCreateError,
    JournalDir, JournalKind, JournalUpdateError, LocalJournal, PromoteOptions, RemoteJournal, RequestedFile,
};
use tj2::time::Timestamp;

#[test]
fn journal_kind_codes() {
    for code in 0i16..4 {
        match JournalKind::try_from_code(code) {
            Ok(kind) => assert_eq!(kind.to_code(), code),
            Err(_) => assert!(code > 1),
        }
    }
    assert!(JournalKind::try_from_code(-1).is_err());
}

#[test]
fn file_status_codes() {
    for code in -1i16..4 {
        if let Ok(status) = FileStatus::try_from_code(code) {
            assert_eq!(status.to_code(), code);
        }
    }
    assert!(FileStatus::try_from_code(100).is_err());
}

#[test]
fn share_invite_status() {
    let pending = JournalShareInviteStatus::try_from_code(0).unwrap();
    assert!(pending.is_pending());
    for code in 1i16..3 {
        let status = JournalShareInviteStatus::try_from_code(code).unwrap();
        assert!(!status.is_pending());
        assert_eq!(status.to_code(), code);
    }
    assert!(JournalShareInviteStatus::try_from_code(3).is_err());
}

#[test]
fn share_abilities() {
    assert_eq!(Ability::parse("entry_create").unwrap().as_str(), "entry_create");
    assert_eq!(Ability::parse("journal_update").unwrap().as_str(), "journal_update");
    assert!(Ability::parse("nope").is_err());
    let parsed: Ability = "entry_delete".parse().unwrap();
    assert_eq!(parsed.as_str(), "entry_delete");
}

#[test]
fn journal_directories() {
    let dir = JournalDir::new("/storage", JournalId::new(12).unwrap());
    assert_eq!(dir.root(), "/storage/journals/12");
    assert_eq!(dir.file_path(&FileEntryId::new(5).unwrap()), "/storage/journals/12/files/5.file");
}

#[test]
fn local_journal_options() {
    let opts = LocalJournal::create_options(UserId::new(1).unwrap(), String::from("daily"))
        .description(String::from("notes"));
    assert_eq!(opts.name(), "daily");
    assert_eq!(*opts.users_id().inner(), 1);
}

#[test]
fn integer_fields() {
    let ty = IntegerType { minimum: Some(0), maximum: Some(10) };
    assert!(ty.validate(&IntegerValue { value: 10 }));
    assert!(!ty.validate(&IntegerValue { value: 11 }));
    assert_eq!(ty.make_value().value, 0);
    assert_eq!(IntegerType { minimum: None, maximum: None }.make_value().value, 0);
}

#[test]
fn integer_range_fields() {
    let ty = IntegerRangeType { minimum: Some(5), maximum: None };
    let v = ty.make_value();
    assert_eq!((v.low, v.high), (5, 15));
    assert!(ty.validate(&v));
    assert!(!ty.validate(&IntegerRangeValue { low: 6, high: 6 }));
    let ty = IntegerRangeType { minimum: None, maximum: Some(3) };
    let v = ty.make_value();
    assert_eq!((v.low, v.high), (-7, 3));
}

#[test]
fn time_range_fields() {
    let ty = TimeRangeType { show_diff: default_time_range_show_diff() };
    let now = Timestamp { secs: 1_000_000, nanos: 7 };
    let v = ty.value_around(now);
    assert_eq!(v.low, Timestamp { secs: 996_400, nanos: 7 });
    assert_eq!(v.high, Timestamp { secs: 1_003_600, nanos: 7 });
    assert!(ty.validate(&v));
    assert!(!ty.validate(&TimeRangeValue { low: now, high: now }));
    assert!(ty.validate(&ty.make_value().unwrap()));
    assert_eq!(default_precision(), 2);
}

#[test]
fn error_lists() {
    let chain = vec![String::from("top"), String::from("middle"), String::from("root cause")];
    assert_eq!(
        create_error_list("failed", &chain).unwrap(),
        "failed: \n0) top\n1) middle\n2) root cause"
    );
}

type Field = Type<&'static str, &'static str>;
type FieldValue = Value<&'static str, &'static str>;

#[test]
fn field_validation_by_kind() {
    let int_field: Field = Type::Integer(IntegerType { minimum: Some(1), maximum: Some(5) });
    let in_bounds: FieldValue = Value::Integer(IntegerValue { value: 3 });
    let out_of_bounds: FieldValue = Value::Integer(IntegerValue { value: 9 });
    assert_eq!(int_field.validate(&in_bounds, false), Ok(()));
    assert_eq!(int_field.validate(&out_of_bounds, true), Err(ValidationError::Invalid));

    let range: FieldValue = Value::IntegerRange(IntegerRangeValue { low: 3, high: 2 });
    assert_eq!(int_field.validate(&range, true), Err(ValidationError::Mismatched));
    let range_field: Field = Type::IntegerRange(IntegerRangeType { minimum: None, maximum: None });
    assert_eq!(range_field.validate(&range, true), Err(ValidationError::Invalid));

    let float_field: Field = Type::Float("float");
    let float_value: FieldValue = Value::Float("1.5");
    assert_eq!(float_field.validate(&float_value, true), Ok(()));
    assert_eq!(float_field.validate(&float_value, false), Err(ValidationError::Invalid));
    assert_eq!(float_field.validate(&in_bounds, true), Err(ValidationError::Mismatched));

    let time_field: Field = Type::Time(TimeType {});
    let now: FieldValue = Value::Time(TimeValue { value: Timestamp { secs: 10, nanos: 0 } });
    assert_eq!(time_field.validate(&now, false), Ok(()));
    let backwards: FieldValue = Value::TimeRange(TimeRangeValue {
        low: Timestamp { secs: 10, nanos: 0 },
        high: Timestamp { secs: 5, nanos: 0 },
    });
    let time_range_field: Field = Type::TimeRange(TimeRangeType { show_diff: false });
    assert_eq!(time_range_field.validate(&backwards, true), Err(ValidationError::Invalid));
}

#[test]
fn values_by_kind() {
    let value: FieldValue = Value::Integer(IntegerValue { value: 4 });
    assert_eq!(value.clone().try_integer().unwrap().value, 4);
    assert!(value.clone().try_time().is_err());
    let float_value: FieldValue = Value::FloatRange("0..1");
    assert_eq!(float_value.clone().try_float_range().unwrap(), "0..1");
    assert!(float_value.try_float().is_err());
}

fn uid(text: &str) -> FileEntryUid {
    FileEntryUid::new(text.to_owned()).unwrap()
}

#[test]
fn journals_by_where_they_are_kept() {
    let local = LocalJournal {
        id: JournalId::new(3).unwrap(),
        uid: JournalUid::new("abcdefghijklmnop".to_owned()).unwrap(),
        users_id: UserId::new(7).unwrap(),
        name: "daily".to_owned(),
        description: None,
        created: Timestamp { secs: 0, nanos: 0 },
        updated: None,
    };
    let journal = Journal::Local(local);
    assert_eq!(*journal.id(), JournalId::new(3).unwrap());
    assert_eq!(*journal.users_id(), UserId::new(7).unwrap());
    let journal = match journal.into_remote() {
        Ok(_) => panic!("a local journal is not remote"),
        Err(back) => back,
    };
    assert_eq!(journal.into_local().unwrap().name, "daily");

    let remote = Journal::Remote(RemoteJournal {
        id: JournalId::new(4).unwrap(),
        uid: JournalUid::new("ABCDEFGHIJKLMNOP".to_owned()).unwrap(),
        users_id: UserId::new(8).unwrap(),
        server_id: RemoteServerId::new(1).unwrap(),
        name: "shared".to_owned(),
        description: Some("from afar".to_owned()),
        created: Timestamp { secs: 0, nanos: 0 },
        updated: None,
    });
    assert_eq!(*remote.id(), JournalId::new(4).unwrap());
    assert!(remote.into_local().is_err());
}

#[test]
fn requested_file_becomes_received() {
    let requested = RequestedFile {
        id: FileEntryId::new(11).unwrap(),
        uid: uid("file0000file0000"),
        entries_id: EntryId::new(5).unwrap(),
        name: Some("photo.png".to_owned()),
        created: Timestamp { secs: 1, nanos: 0 },
        updated: Some(Timestamp { secs: 2, nanos: 0 }),
    };
    let entry = FileEntry::Requested(requested);
    assert_eq!(entry.uid().inner(), "file0000file0000");
    let entry = match entry.into_received() {
        Ok(_) => panic!("a requested file has no bytes yet"),
        Err(back) => back,
    };
    let requested = entry.into_requested().unwrap();
    let received = requested.into_received(PromoteOptions {
        mime_type: "image".to_owned(),
        mime_subtype: "png".to_owned(),
        mime_param: None,
        size: 1024,
        hash: [7u8; 32],
        created: Timestamp { secs: 3, nanos: 0 },
    });
    assert_eq!(received.id, FileEntryId::new(11).unwrap());
    assert_eq!(received.name.as_deref(), Some("photo.png"));
    assert_eq!(received.size, 1024);
    assert_eq!(received.hash, [7u8; 32]);
    assert!(received.updated.is_none());
    assert_eq!(received.mime_text(), "image/png");

    let mut with_param = received;
    with_param.mime_type = "text".to_owned();
    with_param.mime_subtype = "plain".to_owned();
    with_param.mime_param = Some("charset=utf-8".to_owned());
    assert_eq!(with_param.mime_text(), "text/plain;charset=utf-8");
}

#[test]
fn violations_by_constraint() {
    assert!(matches!(
        JournalCreateError::from_violation(&ErrorKind::Unique("journals_users_id_name_key")),
        Some(JournalCreateError::NameExists)
    ));
    assert!(matches!(
        JournalCreateError::from_violation(&ErrorKind::ForeignKey("journals_users_id_fkey")),
        Some(JournalCreateError::UserNotFound)
    ));
    assert!(JournalCreateError::from_violation(&ErrorKind::Unique("other")).is_none());
    assert!(matches!(
        JournalUpdateError::from_violation(&ErrorKind::Unique("journals_users_id_name_key")),
        Some(JournalUpdateError::NameExists)
    ));
    assert!(matches!(JournalUpdateError::from_rows(0), Err(JournalUpdateError::NotFound)));
    assert!(JournalUpdateError::from_rows(1).is_ok());
    assert!(matches!(
        EntryCreateError::from_violation(&ErrorKind::Unique("entries_journals_id_entry_date_key")),
        Some(EntryCreateError::DateExists)
    ));
    assert!(matches!(
        EntryCreateError::from_violation(&ErrorKind::Unique("entries_uid_key")),
        Some(EntryCreateError::UidExists)
    ));
    assert!(matches!(
        EntryCreateError::from_violation(&ErrorKind::ForeignKey("entries_journals_id_fkey")),
        Some(EntryCreateError::JournalNotFound)
    ));
    assert!(matches!(
        EntryCreateError::from_violation(&ErrorKind::ForeignKey("entries_users_id_fkey")),
        Some(EntryCreateError::UserNotFound)
    ));
    assert!(EntryUpdateError::from_violation(&ErrorKind::ForeignKey("entries_users_id_fkey")).is_none());
    assert!(matches!(
        EntryUpdateError::from_violation(&ErrorKind::Unique("entries_journals_id_entry_date_key")),
        Some(EntryUpdateError::DateExists)
    ));
    assert!(matches!(EntryUpdateError::from_rows(0), Err(EntryUpdateError::NotFound)));
    assert!(matches!(
        CreateCustomFieldError::from_violation(&ErrorKind::Unique("custom_fields_journals_id_name_key")),
        Some(CreateCustomFieldError::NameExists)
    ));
    assert!(matches!(
        CreateCustomFieldError::from_violation(&ErrorKind::Unique("custom_fields_uid_key")),
        Some(CreateCustomFieldError::UidExists)
    ));
    assert!(matches!(
        CreateCustomFieldError::from_violation(&ErrorKind::ForeignKey("custom_fields_journals_id_fkey")),
        Some(CreateCustomFieldError::JournalNotFound)
    ));
}

#[test]
fn custom_field_from_options() {
    let config: Field = Type::Integer(IntegerType { minimum: Some(0), maximum: None });
    let mut options = CustomField::create_options(JournalId::new(2).unwrap(), "steps".to_owned(), config);
    assert_eq!(options.order, 0);
    assert!(options.description.is_none());
    options.order = 3;
    options.description = Some("per day".to_owned());
    let field = options.into_field(
        CustomFieldId::new(9).unwrap(),
        CustomFieldUid::new("cfcfcfcfcfcfcfcf".to_owned()).unwrap(),
        Timestamp { secs: 5, nanos: 0 },
    );
    assert_eq!(field.id, CustomFieldId::new(9).unwrap());
    assert_eq!(field.journals_id, JournalId::new(2).unwrap());
    assert_eq!(field.name, "steps");
    assert_eq!(field.order, 3);
    assert_eq!(field.description.as_deref(), Some("per day"));
    assert!(field.updated.is_none());
    let partial = CustomFieldPartial::from_field(field);
    assert_eq!(partial.id, CustomFieldId::new(9).unwrap());
    assert_eq!(partial.name, "steps");
    assert!(matches!(partial.config, Type::Integer(IntegerType { minimum: Some(0), maximum: None })));
}

#[test]
fn abilities_from_text() {
    assert_eq!(Ability::from_str("entry_create").unwrap(), Ability::EntryCreate);
    assert_eq!("journal_update".parse::<Ability>().unwrap(), Ability::JournalUpdate);
    assert!("entry".parse::<Ability>().is_err());
}
