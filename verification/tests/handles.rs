use axum::http::{HeaderMap, HeaderValue};
use tj2::db::ids::{JournalId, JournalShareId, UserId};
use tj2::db::ErrorKind;
use tj2::net::header::MediaType;
use tj2::router::handles::admin::groups::{NewGroupError, UpdateGroupError};
use tj2::router::handles::api::authn::{check_response, patch_step, ApiSessionLookup, AuthnError, PatchStep};
use tj2::router::handles::journals::entries::files::{
    attachment_disposition, get_mime, hash_outcome, media_of, FileEntryQuery, HashCheck,
    UploadError, WriteError,
};
use tj2::router::handles::journals::share::invite::{
    share_invite_insert_query, CreateInviteError, DeleteInviteError, SharePath,
};
use tj2::router::handles::me::{retrieve_me, MeAnswer};
use tj2::router::handles::settings::peer_client::{from_violation, NewClientError};
use tj2::router::handles::verify::{check_code, session_step, VerifyBody, VerifyError, VerifySession};
use tj2::time::Timestamp;

#[test]
fn verify_steps() {
    assert_eq!(session_step(VerifySession::Verified), Err(VerifyError::AlreadyVerified));
    assert_eq!(session_step(VerifySession::Unverified), Ok(true));
    assert_eq!(session_step(VerifySession::DbFailed), Ok(false));
    assert_eq!(session_step(VerifySession::Invalid), Err(VerifyError::InvalidSession));
    let totp = VerifyBody::Totp { code: String::from("123456") };
    let recovery = VerifyBody::Recovery { code: String::from("abc") };
    assert_eq!(check_code(&totp, false, true, true), Err(VerifyError::MFANotFound));
    assert_eq!(check_code(&totp, true, false, true), Err(VerifyError::InvalidCode));
    assert_eq!(check_code(&recovery, true, false, true), Err(VerifyError::InvalidRecovery));
    assert_eq!(check_code(&recovery, true, true, false), Err(VerifyError::UserNotFound));
    assert_eq!(check_code(&totp, true, true, true), Ok(()));
    assert_eq!(VerifyError::MFANotFound.status(), 404);
    assert_eq!(VerifyError::InvalidCode.status(), 400);
}

#[test]
fn client_violations() {
    assert_eq!(from_violation(&ErrorKind::Unique("user_clients_public_key_key"), false), Some(NewClientError::InvalidPublicKey));
    assert_eq!(from_violation(&ErrorKind::Unique("user_clients_users_id_name_key"), false), Some(NewClientError::NameAlreadyExists));
    assert_eq!(from_violation(&ErrorKind::Unique("user_peers_public_key_key"), true), Some(NewClientError::InvalidPublicKey));
    assert_eq!(from_violation(&ErrorKind::Unique("user_peers_users_id_name_key"), true), Some(NewClientError::NameAlreadyExists));
    assert_eq!(from_violation(&ErrorKind::ForeignKey("user_clients_users_id_fkey"), false), None);
    assert_eq!(NewClientError::InvalidPublicKey.status(), 400);
}

#[test]
fn file_downloads() {
    assert!(FileEntryQuery { download: Some(true) }.wants_download());
    assert!(!FileEntryQuery { download: Some(false) }.wants_download());
    assert!(!FileEntryQuery { download: None }.wants_download());
    assert_eq!(attachment_disposition(Some("photo.png"), "uid"), "attachment; filename=\"photo.png\"");
    assert_eq!(attachment_disposition(None, "abcdefghijklmnop"), "attachment; filename=\"abcdefghijklmnop\"");
}

#[test]
fn upload_content_types() {
    assert_eq!(
        media_of(Some("image/png")),
        Ok(MediaType { type_: String::from("image"), subtype: String::from("png") })
    );
    assert_eq!(media_of(Some("not a type")), Err(UploadError::InvalidContentType));
    assert_eq!(media_of(None), Err(UploadError::InvalidContentType));
    let mut headers = HeaderMap::new();
    assert_eq!(get_mime(&headers), Err(UploadError::InvalidContentType));
    headers.insert("content-type", HeaderValue::from_static("text/plain; charset=utf-8"));
    assert_eq!(get_mime(&headers).unwrap().subtype, "plain");
    assert_eq!(UploadError::TooLarge.status(), 400);
    assert_eq!(UploadError::FileNotFound.status(), 404);
}

#[test]
fn upload_hashes() {
    let hash = [7u8; 32];
    assert_eq!(hash_outcome(&HashCheck::Given(hash.to_vec()), &hash, &[]), Ok(()));
    assert_eq!(hash_outcome(&HashCheck::Given(vec![1u8; 32]), &hash, &[]), Err(WriteError::InvalidHash));
    assert_eq!(hash_outcome(&HashCheck::AtEnd, &hash, &hash), Ok(()));
    assert_eq!(hash_outcome(&HashCheck::AtEnd, &hash, &[7u8; 31]), Err(WriteError::TooSmall));
    assert_eq!(hash_outcome(&HashCheck::AtEnd, &hash, &[8u8; 32]), Err(WriteError::InvalidHash));
    assert_eq!(hash_outcome(&HashCheck::Unchecked, &hash, &[]), Ok(()));
}

#[test]
fn share_invites() {
    let path = SharePath { journals_id: JournalId::new(1).unwrap(), share_id: JournalShareId::new(2).unwrap() };
    assert_eq!(*path.share_id.inner(), 2);
    let now = Timestamp { secs: 50, nanos: 0 };
    assert_eq!(CreateInviteError::check_batch(0, None, now), Err(CreateInviteError::InvalidAmount));
    assert_eq!(CreateInviteError::check_batch(3, Some(Timestamp { secs: 49, nanos: 0 }), now), Err(CreateInviteError::InvalidExpiresOn));
    assert_eq!(CreateInviteError::check_batch(3, Some(Timestamp { secs: 50, nanos: 1 }), now), Ok(()));
    assert_eq!(CreateInviteError::ShareNotFound.status(), 404);
    assert_eq!(
        share_invite_insert_query(3),
        "insert into journal_share_invites (token, journal_shares_id, issued_on, status) values ($4, $1, $2, $3), ($5, $1, $2, $3), ($6, $1, $2, $3)"
    );
    assert!(DeleteInviteError::check_single(1, String::from("x")).is_ok());
    assert!(matches!(DeleteInviteError::check_single(2, String::from("x")), Err(DeleteInviteError::TokensNotFound { .. })));
}

#[test]
fn me_answers() {
    let id = UserId::new(4).unwrap();
    match retrieve_me(true, id, String::from("ann")) {
        MeAnswer::Redirect(loc) => assert_eq!(loc.into_header_value().unwrap(), "/"),
        other => panic!("expected a redirect, got {other:?}"),
    }
    match retrieve_me(false, id, String::from("ann")) {
        MeAnswer::Info(info) => {
            assert_eq!(info.id, id);
            assert_eq!(info.username, "ann");
        }
        other => panic!("expected the record, got {other:?}"),
    }
}

#[test]
fn error_statuses() {
    assert_eq!(AuthnError::Expired.status(), 401);
    assert_eq!(AuthnError::InvalidData.status(), 400);
    assert_eq!(AuthnError::KeyNotFound.status(), 404);
    assert_eq!(NewGroupError::GroupExists.status(), 400);
    assert_eq!(UpdateGroupError::GroupNotFound.status(), 404);
}

#[test]
fn peer_response_steps() {
    assert_eq!(patch_step(ApiSessionLookup::Authenticated), PatchStep::AlreadyAuthenticated);
    assert_eq!(patch_step(ApiSessionLookup::Unauthenticated), PatchStep::Compare);
    assert_eq!(patch_step(ApiSessionLookup::NotFound), PatchStep::Refuse(AuthnError::SessionNotFound));
    assert_eq!(patch_step(ApiSessionLookup::UserNotFound), PatchStep::Refuse(AuthnError::UserNotFound));
    assert_eq!(patch_step(ApiSessionLookup::Expired), PatchStep::Refuse(AuthnError::Expired));
    assert_eq!(
        patch_step(ApiSessionLookup::InvalidAuthorization),
        PatchStep::Refuse(AuthnError::InvalidAuthorization)
    );
}

#[test]
fn peer_response_data() {
    let sent = [1u8, 2, 3, 4];
    assert_eq!(check_response(None, &sent), Err(AuthnError::DataNotFound));
    assert_eq!(check_response(Some(&sent), &[1, 2, 3, 4]), Ok(()));
    assert_eq!(check_response(Some(&sent), &[1, 2, 3, 5]), Err(AuthnError::InvalidData));
    assert_eq!(check_response(Some(&sent), &[1, 2, 3]), Err(AuthnError::InvalidData));
    assert_eq!(AuthnError::InvalidData.status(), 400);
}

#[test]
fn upload_content_type_from_first_visible_value() {
    let mut headers = HeaderMap::new();
    headers.insert("content-type", HeaderValue::from_bytes(b"text/pl\xffain").unwrap());
    assert_eq!(get_mime(&headers), Err(UploadError::InvalidContentType));
    headers.insert("content-type", HeaderValue::from_static("image/png"));
    headers.append("content-type", HeaderValue::from_static("text/plain"));
    assert_eq!(get_mime(&headers).unwrap().subtype, "png");
    headers.insert("content-type", HeaderValue::from_static("nonsense"));
    assert_eq!(get_mime(&headers), Err(UploadError::InvalidContentType));
}
