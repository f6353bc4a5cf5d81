use store_service::cql::{login_query, user_query};
use store_service::model::{CreateUserRequest, DbUserInfo, UserLoginRequest};
use store_service::users::{
    activation_target, activation_update, issue_auth_codes, login_lookup, login_outcome, new_user_rows,
    prepare_activation, prepare_new_user, prepare_reactivation, prepare_sample_user, reactivation_row, registration_answer,
    reactivation_target, sample_user_info, user_from_records, LoginRecord, UserRecord,
};

fn is_v4(id: u128) -> bool {
    (id >> 76) & 0xF == 4 && (id >> 62) & 0x3 == 2
}

fn user() -> CreateUserRequest {
    CreateUserRequest {
        email: Some("ann@example.com".to_string()),
        password_hash: Some("h4sh".to_string()),
        firstname: Some("Ann".to_string()),
        lastname: Some("Lee".to_string()),
    }
}

fn login_row(userid: u128, password: &str, active: bool) -> Result<LoginRecord, String> {
    Ok(LoginRecord { userid, password: password.to_string(), active })
}

fn user_record(userid: u128, email: &str) -> UserRecord {
    UserRecord {
        userid,
        email: email.to_string(),
        firstname: "Ann".to_string(),
        lastname: "Lee".to_string(),
        created_date: 10,
        modified_date: 20,
        active: true,
    }
}

#[test]
fn registration_rows_are_inactive() {
    let rows = new_user_rows(&user(), 5, 6, 1000);
    assert_eq!(rows.info.userid, 5);
    assert_eq!(rows.info.email, Some("ann@example.com".to_string()));
    assert_eq!(rows.info.firstname, Some("Ann".to_string()));
    assert_eq!(rows.info.lastname, Some("Lee".to_string()));
    assert!(!rows.info.active);
    assert_eq!(rows.info.created_date, 1000);
    assert_eq!(rows.info.modified_date, 1000);
    assert_eq!(rows.creds.userid, 5);
    assert_eq!(rows.creds.password_hash, Some("h4sh".to_string()));
    assert!(!rows.creds.active);
    assert_eq!(rows.activation.activation_code, 6);
    assert_eq!(rows.activation.userid, 5);
}

#[test]
fn prepared_registration_uses_fresh_ids() {
    let rows = prepare_new_user(&user());
    assert!(is_v4(rows.info.userid));
    assert!(is_v4(rows.activation.activation_code));
    assert_ne!(rows.info.userid, rows.activation.activation_code);
    assert_eq!(rows.creds.userid, rows.info.userid);
    assert_eq!(rows.activation.userid, rows.info.userid);
    assert!(rows.info.created_date > 0);
}

#[test]
fn login_needs_email_and_password() {
    let no_email = UserLoginRequest { email: None, password_hash: Some("p".to_string()) };
    assert_eq!(login_lookup(&no_email).err(), Some("email is required".to_string()));
    let no_pass = UserLoginRequest { email: Some("a@b".to_string()), password_hash: None };
    assert_eq!(login_lookup(&no_pass).err(), Some("password is required".to_string()));
    let neither = UserLoginRequest { email: None, password_hash: None };
    assert_eq!(login_lookup(&neither).err(), Some("email is required".to_string()));
    let ok = login_lookup(&UserLoginRequest { email: Some("a@b".to_string()), password_hash: Some("p".to_string()) })
        .ok()
        .unwrap();
    assert_eq!(ok.query, "SELECT userid, password, active FROM user_data.user_credentials WHERE email = 'a@b' LIMIT 1");
    assert_eq!(ok.password, "p");
}

#[test]
fn login_query_text() {
    assert_eq!(
        login_query("x@y.z"),
        "SELECT userid, password, active FROM user_data.user_credentials WHERE email = 'x@y.z' LIMIT 1"
    );
}

#[test]
fn user_query_shows_hyphenated_id() {
    assert_eq!(
        user_query(0xa1a2a3a4b1b2c1c2d1d2d3d4d5d6d7d8),
        "SELECT userid, email, firstname, lastname, created_date, modified_date, active FROM user_data.user_info WHERE userid = a1a2a3a4-b1b2-c1c2-d1d2-d3d4d5d6d7d8 LIMIT 1"
    );
}

#[test]
fn login_outcomes() {
    let pw = "h4sh".to_string();
    assert_eq!(login_outcome(&pw, &Err("timeout".to_string())), Err("query error: timeout".to_string()));
    assert_eq!(login_outcome(&pw, &Ok(None)), Ok(0));
    assert_eq!(login_outcome(&pw, &Ok(Some(vec![]))), Ok(0));
    assert_eq!(login_outcome(&pw, &Ok(Some(vec![login_row(9, "h4sh", true)]))), Ok(9));
    assert_eq!(
        login_outcome(&pw, &Ok(Some(vec![login_row(9, "h4sh", false)]))),
        Err("account is not activated".to_string())
    );
    assert_eq!(
        login_outcome(&pw, &Ok(Some(vec![login_row(9, "other", true)]))),
        Err("invalid login".to_string())
    );
    assert_eq!(
        login_outcome(&pw, &Ok(Some(vec![Err("bad column".to_string())]))),
        Err("invalid login: bad column".to_string())
    );
    assert_eq!(
        login_outcome(&pw, &Ok(Some(vec![login_row(1, "h4sh", true), login_row(2, "h4sh", true)]))),
        Ok(2)
    );
}

#[test]
fn new_account_cannot_log_in_until_activated() {
    let rows = new_user_rows(&user(), 5, 6, 1000);
    let stored = rows.creds.password_hash.clone().unwrap();
    let before = vec![login_row(rows.creds.userid, &stored, rows.creds.active)];
    assert_eq!(login_outcome(&stored, &Ok(Some(before))), Err("account is not activated".to_string()));
    let update = activation_update(&Some(vec![Ok(rows.activation.userid)]), 2000).ok().unwrap();
    assert_eq!(update.userid, 5);
    let after = vec![login_row(rows.creds.userid, &stored, update.active)];
    assert_eq!(login_outcome(&stored, &Ok(Some(after))), Ok(5));
    let wrong = vec![login_row(rows.creds.userid, &stored, update.active)];
    assert_eq!(login_outcome(&"guess".to_string(), &Ok(Some(wrong))), Err("invalid login".to_string()));
}

#[test]
fn profile_lookup_takes_last_readable_row() {
    let blank = user_from_records(&None);
    assert_eq!(blank, DbUserInfo::default());
    assert_eq!(user_from_records(&Some(vec![Err("x".to_string())])), DbUserInfo::default());
    let info = user_from_records(&Some(vec![
        Ok(user_record(1, "a@x")),
        Ok(user_record(2, "b@x")),
        Err("bad".to_string()),
    ]));
    assert_eq!(info.userid, 2);
    assert_eq!(info.email, Some("b@x".to_string()));
    assert_eq!(info.firstname, Some("Ann".to_string()));
    assert_eq!(info.created_date, 10);
    assert_eq!(info.modified_date, 20);
    assert!(info.active);
}

#[test]
fn activation_lookups() {
    assert_eq!(activation_target(&None), Ok(0));
    assert_eq!(activation_target(&Some(vec![Ok(3), Ok(4)])), Ok(4));
    assert_eq!(
        activation_target(&Some(vec![Ok(3), Err("bad".to_string())])),
        Err("activation unsuccessful, please refresh activation code & try again. bad".to_string())
    );
    assert_eq!(reactivation_target(&Some(vec![])), Ok(0));
    assert_eq!(
        reactivation_target(&Some(vec![Err("gone".to_string())])),
        Err("Error locating user info. Does this account exist? gone".to_string())
    );
    let row = reactivation_row(&Some(vec![Ok(8)]), 77).ok().unwrap();
    assert_eq!((row.activation_code, row.userid), (77, 8));
    let fresh = prepare_reactivation(&Some(vec![Ok(8)])).ok().unwrap();
    assert!(is_v4(fresh.activation_code));
    assert_eq!(fresh.userid, 8);
    assert!(prepare_reactivation(&Some(vec![Err("e".to_string())])).is_err());
    let upd = activation_update(&Some(vec![Ok(8)]), 55).ok().unwrap();
    assert_eq!((upd.userid, upd.active, upd.modified_date), (8, true, 55));
    let now = prepare_activation(&None).ok().unwrap();
    assert_eq!(now.userid, 0);
    assert!(now.active && now.modified_date > 0);
    assert!(prepare_activation(&Some(vec![Err("e".to_string())])).is_err());
}

#[test]
fn auth_codes_are_fresh() {
    let codes = issue_auth_codes(42);
    assert_eq!(codes.userid, 42);
    assert!(is_v4(codes.access_code) && is_v4(codes.refresh_code));
    assert_ne!(codes.access_code, codes.refresh_code);
}

#[test]
fn sample_user_is_tom_bob() {
    let u = sample_user_info(3, "t@b", 1, 2);
    assert_eq!(u.userid, 3);
    assert_eq!(u.email, Some("t@b".to_string()));
    assert_eq!(u.firstname, Some("tom".to_string()));
    assert_eq!(u.lastname, Some("bob".to_string()));
    assert!(!u.active);
    assert_eq!((u.created_date, u.modified_date), (1, 2));
    let p = prepare_sample_user("z@z");
    assert!(is_v4(p.userid));
    assert_eq!(p.email, Some("z@z".to_string()));
    assert!(p.created_date > 0);
}

#[test]
fn registration_answers_its_activation_code() {
    let rows = new_user_rows(&user(), 5, 6, 1000);
    assert_eq!(registration_answer(&rows), 6);
}

#[test]
fn new_code_then_activation_scenario() {
    let row = reactivation_row(&Some(vec![Ok(8)]), 77).ok().unwrap();
    // The lookup of code 77 returns the user the code was written for.
    let update = activation_update(&Some(vec![Ok(row.userid)]), 90).ok().unwrap();
    assert_eq!(update.userid, 8);
    assert!(update.active);
}

#[test]
fn sample_profile_reads_back_scenario() {
    let sample = sample_user_info(3, "t@b", 1, 2);
    let rec = UserRecord {
        userid: sample.userid,
        email: sample.email.clone().unwrap(),
        firstname: sample.firstname.clone().unwrap(),
        lastname: sample.lastname.clone().unwrap(),
        created_date: sample.created_date,
        modified_date: sample.modified_date,
        active: sample.active,
    };
    let got = user_from_records(&Some(vec![Ok(rec)]));
    assert_eq!(got.userid, 3);
    assert_eq!(got.email, Some("t@b".to_string()));
    assert_eq!(got.firstname, Some("tom".to_string()));
    assert_eq!(got.lastname, Some("bob".to_string()));
    assert!(!got.active);
    assert_eq!((got.created_date, got.modified_date), (1, 2));
}
