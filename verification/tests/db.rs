use std::collections::{HashMap, HashSet};
use tj2::db::ids::{
    check_uid, gen_uid, uid_alphabet, unique_ids, EntryUid, FileEntryId, InvalidUidString, JournalId, UserId,
    UserUid, UID_SIZE,
};
use tj2::db::{default_admin_permissions, try_from_bytea, try_from_int, ErrorKind, ToBytea, U16toI32, U8toI16};
use tj2::router::admin::roles::{Ability, Scope};

#[test]
fn integer_parameters() {
    let port: u16 = 8443;
    assert_eq!(U16toI32(&port).value(), 8443i32);
    let max: u16 = u16::MAX;
    assert_eq!(U16toI32(&max).value(), 65535i32);
    let small: u8 = 255;
    assert_eq!(U8toI16(&small).value(), 255i16);
    let bytes = [1u8, 2, 3];
    assert_eq!(ToBytea(&bytes).bytes(), &[1, 2, 3]);
}

#[test]
fn integers_from_columns() {
    assert_eq!(try_from_int::<u16>(443).unwrap(), 443u16);
    assert!(try_from_int::<u16>(70_000).is_err());
    assert!(try_from_int::<u16>(-1).is_err());
}

#[test]
fn bytes_from_columns() {
    let data = [7u8, 8];
    let arr: [u8; 2] = try_from_bytea(&data).unwrap();
    assert_eq!(arr, [7, 8]);
    assert!(try_from_bytea::<[u8; 3]>(&data).is_err());
}

#[test]
fn error_kinds_from_parts() {
    assert!(matches!(ErrorKind::from_parts("23505", Some("users_username_key")), Some(ErrorKind::Unique("users_username_key"))));
    assert!(matches!(ErrorKind::from_parts("23503", Some("fk")), Some(ErrorKind::ForeignKey("fk"))));
    assert!(ErrorKind::from_parts("23505", None).is_none());
    assert!(ErrorKind::from_parts("42P01", Some("x")).is_none());
}

#[test]
fn ids_refuse_negative_numbers() {
    assert_eq!(*UserId::new(5).unwrap().inner(), 5);
    assert!(UserId::new(-1).is_err());
    assert!(JournalId::zero().is_zero());
    assert!(!FileEntryId::new(1).unwrap().is_zero());
}

#[test]
fn uids_are_checked() {
    assert!(check_uid("abcdefghijklmnop"));
    assert!(check_uid("ABCDEFGHIJ_12345"));
    assert!(!check_uid("abcdefghijklmno"));
    assert!(!check_uid("abcdefghijklmnop1"));
    assert!(!check_uid("abcdefghijklmn-p"));
    let err: Result<UserUid, InvalidUidString> = UserUid::new(String::from("short"));
    assert!(err.is_err());
    assert_eq!(UserUid::new(String::from("abcdefghijklmnop")).unwrap().inner(), "abcdefghijklmnop");
}

#[test]
fn generated_uids_are_valid() {
    assert_eq!(uid_alphabet().len(), 63);
    for _ in 0..20 {
        let uid = gen_uid();
        assert_eq!(uid.len(), UID_SIZE);
        assert!(check_uid(&uid));
        assert!(EntryUid::new(uid).is_ok());
    }
    let a = EntryUid::gen();
    assert!(check_uid(a.inner()));
}

#[test]
fn admin_role_gets_every_permission() {
    let all = vec![Ability::Create, Ability::Read, Ability::Update, Ability::Delete];
    assert_eq!(
        default_admin_permissions(),
        vec![
            (Scope::Users, all.clone()),
            (Scope::Journals, all.clone()),
            (Scope::Entries, all.clone()),
            (Scope::Groups, all.clone()),
            (Scope::Roles, all),
        ]
    );
}

#[test]
fn unique_ids_known_unknown_and_missing() {
    let mut cur = HashMap::from([(1u32, 'a')]);
    let (unknown, list, known) = unique_ids(vec![1u32, 1, 2], Some(&mut cur));
    assert_eq!(known, HashMap::from([(1u32, 'a')]));
    assert_eq!(list, vec![2]);
    assert_eq!(unknown, HashSet::from([2]));
    assert!(cur.is_empty());

    let mut cur = HashMap::from([(1u32, 'a'), (3u32, 'c')]);
    let (unknown, list, known) = unique_ids(vec![2u32, 1, 2, 4, 1], Some(&mut cur));
    assert_eq!(known, HashMap::from([(1u32, 'a')]));
    assert_eq!(list, vec![2, 4]);
    assert_eq!(unknown, HashSet::from([2, 4]));
    assert_eq!(cur, HashMap::from([(3u32, 'c')]));

    let (set, list, known) = unique_ids::<u32, char>(vec![3, 1, 3], None);
    assert_eq!(list, vec![3, 1]);
    assert_eq!(set, HashSet::from([1, 3]));
    assert!(known.is_empty());
}
