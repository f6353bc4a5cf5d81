//! Accounts: registration, login, profile lookup, activation and the
//! session codes handed out at login.
use vstd::prelude::*;
use vstd::string::*;
use crate::cql::{login_query, login_query_text};
use crate::ids::{id_result, is_random_id, lemma_random_id_not_nil, new_random_id, now_seconds, NIL_ID};
use crate::model::{clone_text, is_blank_user_info, CreateUserRequest, DbUserInfo, UserInfo, UserLoginRequest, UserLoginResponse};
use crate::rows::{first_row_error, lemma_first_row_error_prefix, lemma_first_row_error_step, row_count, rows_error};
use crate::text::option_text;

verus! {

/// Values bound to the user-info insert, in the statement's column order.
pub struct UserInfoRow {
    pub userid: u128,
    pub email: Option<String>,
    pub firstname: Option<String>,
    pub lastname: Option<String>,
    pub active: bool,
    pub created_date: i64,
    pub modified_date: i64,
}

/// Values bound to the credentials insert, in the statement's column order.
pub struct UserCredsRow {
    pub userid: u128,
    pub email: Option<String>,
    pub password_hash: Option<String>,
    pub active: bool,
}

/// Values bound to the activation-code insert: the code and the user it activates.
pub struct ActivationRow {
    pub activation_code: u128,
    pub userid: u128,
}

/// Everything written when a user registers.
pub struct NewUserRows {
    pub info: UserInfoRow,
    pub creds: UserCredsRow,
    pub activation: ActivationRow,
}

/// A row of the credentials lookup made at login: id, stored password, activation flag.
pub struct LoginRecord {
    pub userid: u128,
    pub password: String,
    pub active: bool,
}

/// The lookup to run for a login attempt, and the password to check.
pub struct LoginLookup {
    pub query: String,
    pub password: String,
}

/// A row of the user-info table as read back, every column present.
pub struct UserRecord {
    pub userid: u128,
    pub email: String,
    pub firstname: String,
    pub lastname: String,
    pub created_date: i64,
    pub modified_date: i64,
    pub active: bool,
}

/// Values bound to the two activation updates: the credentials row and the
/// user-info row of `userid` are set to `active`, the latter with a new
/// modification time.
pub struct ActivationUpdate {
    pub userid: u128,
    pub active: bool,
    pub modified_date: i64,
}

/// `rows` is what registering `user` writes under the given ids and time:
/// the profile and the credentials, both inactive, and the activation code.
pub open spec fn is_new_user_rows(user: CreateUserRequest, userid: u128, code: u128, now: i64, rows: NewUserRows) -> bool {
    &&& rows.info.userid == userid
    &&& rows.info.email == user.email
    &&& rows.info.firstname == user.firstname
    &&& rows.info.lastname == user.lastname
    &&& !rows.info.active
    &&& rows.info.created_date == now
    &&& rows.info.modified_date == now
    &&& rows.creds.userid == userid
    &&& rows.creds.email == user.email
    &&& rows.creds.password_hash == user.password_hash
    &&& !rows.creds.active
    &&& rows.activation.activation_code == code
    &&& rows.activation.userid == userid
}

/// Why one row of the login lookup refuses the attempt, if it does.
pub open spec fn login_row_failure(password: Seq<char>, row: Result<LoginRecord, String>) -> Option<Seq<char>> {
    match row {
        Err(e) => Some("invalid login: "@ + e@),
        Ok(r) => if !r.active {
            Some("account is not activated"@)
        } else if r.password@ != password {
            Some("invalid login"@)
        } else {
            None
        },
    }
}

/// The refusal of the first row that refuses the attempt, rows taken in order.
pub open spec fn first_login_failure(password: Seq<char>, rows: Seq<Result<LoginRecord, String>>) -> Option<Seq<char>>
    decreases rows.len(),
{
    if rows.len() == 0 {
        None
    } else {
        match first_login_failure(password, rows.drop_last()) {
            Some(m) => Some(m),
            None => login_row_failure(password, rows.last()),
        }
    }
}

/// The answer to a login whose lookup returned `rows`: the first refusal,
/// or else the id of the last row (the nil id when there is none).
pub open spec fn login_verdict(password: Seq<char>, rows: Seq<Result<LoginRecord, String>>) -> Result<u128, Seq<char>> {
    match first_login_failure(password, rows) {
        Some(m) => Err(m),
        None => Ok(
            if rows.len() == 0 {
                NIL_ID
            } else {
                rows.last()->Ok_0.userid
            },
        ),
    }
}

/// The last row of a profile lookup that could be read, if any.
pub open spec fn last_user_record(rows: Seq<Result<UserRecord, String>>) -> Option<UserRecord>
    decreases rows.len(),
{
    if rows.len() == 0 {
        None
    } else {
        match rows.last() {
            Ok(r) => Some(r),
            Err(_) => last_user_record(rows.drop_last()),
        }
    }
}

/// `info` is the profile that a lookup by id gives from `rows`: the last row
/// that could be read, or the blank profile when there is none.
pub open spec fn is_profile_of_rows(rows: Option<Vec<Result<UserRecord, String>>>, info: DbUserInfo) -> bool {
    let last = match rows {
        Some(v) => last_user_record(v@),
        None => None,
    };
    &&& (last matches Some(r) ==> is_info_of_record(info, r))
    &&& (last is None ==> is_blank_user_info(info))
}

/// `info` is the fixed sample profile for `email` under `userid`: first name
/// "tom", last name "bob", inactive, with the two given dates.
pub open spec fn is_sample_profile(info: UserInfo, userid: u128, email: Seq<char>, created: i64, modified: i64) -> bool {
    &&& info.userid == userid
    &&& info.email is Some && info.email->Some_0@ == email
    &&& info.firstname is Some && info.firstname->Some_0@ == "tom"@
    &&& info.lastname is Some && info.lastname->Some_0@ == "bob"@
    &&& !info.active
    &&& info.created_date == created
    &&& info.modified_date == modified
}

/// `info` holds the columns of `r`.
pub open spec fn is_info_of_record(info: DbUserInfo, r: UserRecord) -> bool {
    &&& info.userid == r.userid
    &&& info.email == Some(r.email)
    &&& info.firstname == Some(r.firstname)
    &&& info.lastname == Some(r.lastname)
    &&& info.active == r.active
    &&& info.created_date == r.created_date
    &&& info.modified_date == r.modified_date
}

/// The user that an id lookup names: the first row that failed to convert
/// makes it fail with `prefix` before the row's error; otherwise it is the
/// id of the last row, or the nil id when there is no row.
pub open spec fn looked_up_user(prefix: Seq<char>, rows: Option<Vec<Result<u128, String>>>) -> Result<u128, Seq<char>> {
    match rows_error(rows) {
        Some(e) => Err(prefix + e),
        None => Ok(
            if row_count(rows) == 0 {
                NIL_ID
            } else {
                rows->0@.last()->Ok_0
            },
        ),
    }
}

/// Prefix of the error when the user to send a new activation code to cannot be read.
pub open spec fn reactivation_error_prefix() -> Seq<char> {
    "Error locating user info. Does this account exist? "@
}

/// Prefix of the error when the user of an activation code cannot be read.
pub open spec fn activation_error_prefix() -> Seq<char> {
    "activation unsuccessful, please refresh activation code & try again. "@
}

/// The rows that registering `user` writes, under the given ids and time.
pub fn new_user_rows(user: &CreateUserRequest, userid: u128, activation_code: u128, now: i64) -> (rows: NewUserRows)
    ensures
        is_new_user_rows(*user, userid, activation_code, now, rows),
{
    NewUserRows {
        info: UserInfoRow {
            userid,
            email: clone_text(&user.email),
            firstname: clone_text(&user.firstname),
            lastname: clone_text(&user.lastname),
            active: false,
            created_date: now,
            modified_date: now,
        },
        creds: UserCredsRow {
            userid,
            email: clone_text(&user.email),
            password_hash: clone_text(&user.password_hash),
            active: false,
        },
        activation: ActivationRow { activation_code, userid },
    }
}

/// The rows that registering `user` writes: a fresh random user id and a
/// fresh random activation code, stamped with the current time. The
/// registration answers the activation code.
pub fn prepare_new_user(user: &CreateUserRequest) -> (rows: NewUserRows)
    ensures
        is_new_user_rows(*user, rows.info.userid, rows.activation.activation_code, rows.info.created_date, rows),
        is_random_id(rows.info.userid),
        is_random_id(rows.activation.activation_code),
        rows.info.userid != NIL_ID,
        rows.info.created_date >= 0,
{
    let userid = new_random_id();
    let activation_code = new_random_id();
    let now = now_seconds();
    proof {
        lemma_random_id_not_nil(userid);
    }
    new_user_rows(user, userid, activation_code, now)
}

/// The id that a registration answers: its activation code (the answer
/// names it `userid`).
pub fn registration_answer(rows: &NewUserRows) -> (id: u128)
    ensures
        id == rows.activation.activation_code,
{
    rows.activation.activation_code
}

/// Checks that a login attempt carries an email and a password, and gives
/// the credentials lookup for the email with the password to check.
pub fn login_lookup(req: &UserLoginRequest) -> (r: Result<LoginLookup, String>)
    ensures
        req.email is None ==> r is Err && r->Err_0@ == "email is required"@,
        req.email is Some && req.password_hash is None ==> r is Err && r->Err_0@ == "password is required"@,
        req.email is Some && req.password_hash is Some ==> r is Ok && r->Ok_0.query@ == login_query_text(
            req.email->Some_0@,
        ) && r->Ok_0.password@ == req.password_hash->Some_0@,
        req.email is Some && req.password_hash is Some ==> r->Ok_0.query@.subrange(
            79int,
            79int + req.email->Some_0@.len(),
        ) == req.email->Some_0@,
{
    match &req.email {
        None => Err(String::from_str("email is required")),
        Some(email) => match &req.password_hash {
            None => Err(String::from_str("password is required")),
            Some(pass) => Ok(LoginLookup { query: login_query(email.as_str()), password: pass.clone() }),
        },
    }
}

/// The answer to a login attempt with `password`, from the outcome of the
/// credentials lookup: a failed query is reported as such; otherwise every
/// row returned must be readable, active and hold that password, and the
/// answer is the id of the last row (the nil id when none came back).
pub fn login_outcome(password: &String, lookup: &Result<Option<Vec<Result<LoginRecord, String>>>, String>) -> (r: Result<u128, String>)
    ensures
        id_result(r) == match lookup {
            Err(q) => Err("query error: "@ + q@),
            Ok(None) => Ok(NIL_ID),
            Ok(Some(rows)) => login_verdict(password@, rows@),
        },
{
    match lookup {
        Err(q) => {
            let mut m = String::from_str("query error: ");
            m.append(q.as_str());
            Err(m)
        },
        Ok(None) => Ok(NIL_ID),
        Ok(Some(rows)) => {
            let mut userid: u128 = NIL_ID;
            let n = rows.len();
            for i in 0..n
                invariant
                    n == rows@.len(),
                    lookup is Ok && lookup->Ok_0 == Some(*rows),
                    first_login_failure(password@, rows@.take(i as int)) is None,
                    userid == (if i == 0 {
                        NIL_ID
                    } else {
                        rows@[i - 1]->Ok_0.userid
                    }),
            {
                let ghost t = rows@.take(i as int + 1);
                proof {
                    assert(t.drop_last() =~= rows@.take(i as int));
                    assert(t.last() == rows@[i as int]);
                }
                match &rows[i] {
                    Err(e) => {
                        let mut m = String::from_str("invalid login: ");
                        m.append(e.as_str());
                        proof { lemma_login_failure_prefix(password@, rows@, i as int + 1); }
                        return Err(m);
                    },
                    Ok(rec) => {
                        userid = rec.userid;
                        if !rec.active {
                            proof { lemma_login_failure_prefix(password@, rows@, i as int + 1); }
                            return Err(String::from_str("account is not activated"));
                        }
                        if !rec.password.eq(password) {
                            proof { lemma_login_failure_prefix(password@, rows@, i as int + 1); }
                            return Err(String::from_str("invalid login"));
                        }
                    },
                }
            }
            assert(rows@.take(n as int) =~= rows@);
            Ok(userid)
        },
    }
}

/// A prefix's first refusal is the first refusal of all the rows.
proof fn lemma_login_failure_prefix(password: Seq<char>, rows: Seq<Result<LoginRecord, String>>, k: int)
    requires
        0 <= k <= rows.len(),
        first_login_failure(password, rows.take(k)) is Some,
    ensures
        first_login_failure(password, rows) == first_login_failure(password, rows.take(k)),
    decreases rows.len() - k,
{
    if k < rows.len() {
        assert(rows.take(k + 1).drop_last() =~= rows.take(k));
        lemma_login_failure_prefix(password, rows, k + 1);
    } else {
        assert(rows.take(k) =~= rows);
    }
}

/// The profile that a lookup by id gives: the last row that could be read
/// (rows that could not are passed over), or the blank profile when there
/// is none.
pub fn user_from_records(rows: &Option<Vec<Result<UserRecord, String>>>) -> (info: DbUserInfo)
    ensures
        is_profile_of_rows(*rows, info),
{
    let mut info = DbUserInfo::default();
    if let Some(v) = rows {
        let n = v.len();
        for i in 0..n
            invariant
                n == v@.len(),
                last_user_record(v@.take(i as int)) matches Some(r) ==> is_info_of_record(info, r),
                last_user_record(v@.take(i as int)) is None ==> is_blank_user_info(info),
        {
            let ghost t = v@.take(i as int + 1);
            proof {
                assert(t.drop_last() =~= v@.take(i as int));
                assert(t.last() == v@[i as int]);
            }
            if let Ok(r) = &v[i] {
                info = DbUserInfo {
                    userid: r.userid,
                    email: Some(r.email.clone()),
                    firstname: Some(r.firstname.clone()),
                    lastname: Some(r.lastname.clone()),
                    active: r.active,
                    created_date: r.created_date,
                    modified_date: r.modified_date,
                };
            }
        }
        assert(v@.take(n as int) =~= v@);
    }
    info
}

/// The user named by an id lookup; see `looked_up_user`.
fn user_from_id_rows(prefix: &str, rows: &Option<Vec<Result<u128, String>>>) -> (r: Result<u128, String>)
    ensures
        id_result(r) == looked_up_user(prefix@, *rows),
{
    let mut userid: u128 = NIL_ID;
    if let Some(v) = rows {
        let n = v.len();
        for i in 0..n
            invariant
                n == v@.len(),
                *rows == Some(*v),
                first_row_error(v@.take(i as int)) is None,
                userid == (if i == 0 {
                    NIL_ID
                } else {
                    v@[i - 1]->Ok_0
                }),
        {
            proof {
                lemma_first_row_error_step(v@, i as int);
            }
            match &v[i] {
                Ok(id) => {
                    userid = *id;
                },
                Err(e) => {
                    proof {
                        lemma_first_row_error_prefix(v@, i as int + 1);
                    }
                    let mut m = String::from_str(prefix);
                    m.append(e.as_str());
                    return Err(m);
                },
            }
        }
        assert(v@.take(n as int) =~= v@);
    }
    Ok(userid)
}

/// The user to send a new activation code to, from the lookup of the email.
pub fn reactivation_target(rows: &Option<Vec<Result<u128, String>>>) -> (r: Result<u128, String>)
    ensures
        id_result(r) == looked_up_user(reactivation_error_prefix(), *rows),
{
    user_from_id_rows("Error locating user info. Does this account exist? ", rows)
}

/// The activation-code insert for a new code, from the lookup of the email.
pub fn reactivation_row(rows: &Option<Vec<Result<u128, String>>>, code: u128) -> (r: Result<ActivationRow, String>)
    ensures
        looked_up_user(reactivation_error_prefix(), *rows) matches Ok(id) ==> r is Ok && r->Ok_0.userid == id
            && r->Ok_0.activation_code == code,
        looked_up_user(reactivation_error_prefix(), *rows) matches Err(m) ==> r is Err && r->Err_0@ == m,
{
    match reactivation_target(rows) {
        Ok(userid) => Ok(ActivationRow { activation_code: code, userid }),
        Err(m) => Err(m),
    }
}

/// The activation-code insert for a fresh random code; the answer is the code.
pub fn prepare_reactivation(rows: &Option<Vec<Result<u128, String>>>) -> (r: Result<ActivationRow, String>)
    ensures
        looked_up_user(reactivation_error_prefix(), *rows) matches Ok(id) ==> r is Ok && r->Ok_0.userid == id
            && is_random_id(r->Ok_0.activation_code),
        looked_up_user(reactivation_error_prefix(), *rows) matches Err(m) ==> r is Err && r->Err_0@ == m,
{
    let code = new_random_id();
    reactivation_row(rows, code)
}

/// The user that an activation code names, from the lookup of the code.
pub fn activation_target(rows: &Option<Vec<Result<u128, String>>>) -> (r: Result<u128, String>)
    ensures
        id_result(r) == looked_up_user(activation_error_prefix(), *rows),
{
    user_from_id_rows("activation unsuccessful, please refresh activation code & try again. ", rows)
}

/// The updates that activate the user named by the lookup of an activation
/// code, stamped `now`.
pub fn activation_update(rows: &Option<Vec<Result<u128, String>>>, now: i64) -> (r: Result<ActivationUpdate, String>)
    ensures
        looked_up_user(activation_error_prefix(), *rows) matches Ok(id) ==> r is Ok && r->Ok_0.userid == id
            && r->Ok_0.active && r->Ok_0.modified_date == now,
        looked_up_user(activation_error_prefix(), *rows) matches Err(m) ==> r is Err && r->Err_0@ == m,
{
    match activation_target(rows) {
        Ok(userid) => Ok(ActivationUpdate { userid, active: true, modified_date: now }),
        Err(m) => Err(m),
    }
}

/// The activation updates, stamped with the current time.
pub fn prepare_activation(rows: &Option<Vec<Result<u128, String>>>) -> (r: Result<ActivationUpdate, String>)
    ensures
        looked_up_user(activation_error_prefix(), *rows) matches Ok(id) ==> r is Ok && r->Ok_0.userid == id
            && r->Ok_0.active && r->Ok_0.modified_date >= 0,
        looked_up_user(activation_error_prefix(), *rows) matches Err(m) ==> r is Err && r->Err_0@ == m,
{
    let now = now_seconds();
    activation_update(rows, now)
}

/// Fresh session codes for a user who has logged in: a random access code
/// and a random refresh code, each stored against the user.
pub fn issue_auth_codes(userid: u128) -> (r: UserLoginResponse)
    ensures
        r.userid == userid,
        is_random_id(r.access_code),
        is_random_id(r.refresh_code),
{
    let access_code = new_random_id();
    let refresh_code = new_random_id();
    UserLoginResponse { access_code, refresh_code, userid }
}

/// The fixed sample profile written for `email`: first name "tom", last
/// name "bob", inactive.
pub fn sample_user_info(userid: u128, email: &str, created: i64, modified: i64) -> (r: UserInfo)
    ensures
        is_sample_profile(r, userid, email@, created, modified),
{
    UserInfo {
        userid,
        email: Some(String::from_str(email)),
        firstname: Some(String::from_str("tom")),
        lastname: Some(String::from_str("bob")),
        active: false,
        created_date: created,
        modified_date: modified,
    }
}

/// The sample profile under a fresh random id; its two dates are two
/// readings of the clock.
pub fn prepare_sample_user(email: &str) -> (r: UserInfo)
    ensures
        is_sample_profile(r, r.userid, email@, r.created_date, r.modified_date),
        is_random_id(r.userid),
        r.created_date >= 0,
        r.modified_date >= 0,
{
    let userid = new_random_id();
    let created = now_seconds();
    let modified = now_seconds();
    sample_user_info(userid, email, created, modified)
}

/// A new account cannot log in: the credentials written at registration
/// are inactive, so a lookup that returns them refuses every password with
/// "account is not activated".
pub proof fn lemma_new_account_refused(
    user: CreateUserRequest,
    userid: u128,
    code: u128,
    now: i64,
    rows: NewUserRows,
    rec: LoginRecord,
    password: Seq<char>,
)
    requires
        is_new_user_rows(user, userid, code, now, rows),
        rec.userid == rows.creds.userid,
        rec.active == rows.creds.active,
    ensures
        login_verdict(password, seq![Ok::<LoginRecord, String>(rec)]) == Err::<u128, Seq<char>>(
            "account is not activated"@,
        ),
{
    let rs = seq![Ok::<LoginRecord, String>(rec)];
    assert(rs.drop_last() =~= Seq::<Result<LoginRecord, String>>::empty());
    assert(first_login_failure(password, rs.drop_last()) is None);
    assert(rs.last() == Ok::<LoginRecord, String>(rec));
    assert(first_login_failure(password, rs) == login_row_failure(password, rs.last()));
}

/// Once activated, an account logs in with its password: when the
/// credentials of a registered user have been set active by an activation
/// update for that user, a lookup that returns them answers the user's id
/// for the stored password, and "invalid login" for any other.
pub proof fn lemma_activated_account_logs_in(
    user: CreateUserRequest,
    userid: u128,
    code: u128,
    now: i64,
    rows: NewUserRows,
    update: ActivationUpdate,
    rec: LoginRecord,
    password: Seq<char>,
)
    requires
        is_new_user_rows(user, userid, code, now, rows),
        update.userid == rows.creds.userid,
        update.active,
        rec.userid == update.userid,
        rec.password@ == option_text(rows.creds.password_hash),
        rec.active == update.active,
    ensures
        login_verdict(password, seq![Ok::<LoginRecord, String>(rec)]) == (if password == option_text(
            user.password_hash,
        ) {
            Ok::<u128, Seq<char>>(userid)
        } else {
            Err::<u128, Seq<char>>("invalid login"@)
        }),
{
    let rs = seq![Ok::<LoginRecord, String>(rec)];
    assert(rs.drop_last() =~= Seq::<Result<LoginRecord, String>>::empty());
    assert(first_login_failure(password, rs.drop_last()) is None);
    assert(rs.last() == Ok::<LoginRecord, String>(rec));
    assert(first_login_failure(password, rs) == login_row_failure(password, rs.last()));
}

/// What a profile read gives back of a registration: when the user sent an
/// email and both names, the record that the profile table returns for the
/// written row is read as that profile, inactive, with both dates at the
/// registration time.
pub proof fn lemma_registered_profile_reads_back(
    user: CreateUserRequest,
    userid: u128,
    code: u128,
    now: i64,
    rows: NewUserRows,
    rec: UserRecord,
    info: DbUserInfo,
)
    requires
        is_new_user_rows(user, userid, code, now, rows),
        user.email == Some(rec.email),
        user.firstname == Some(rec.firstname),
        user.lastname == Some(rec.lastname),
        rec.userid == rows.info.userid,
        rec.active == rows.info.active,
        rec.created_date == rows.info.created_date,
        rec.modified_date == rows.info.modified_date,
        last_user_record(seq![Ok::<UserRecord, String>(rec)]) matches Some(r) ==> is_info_of_record(info, r),
    ensures
        info.userid == userid,
        info.email == user.email,
        info.firstname == user.firstname,
        info.lastname == user.lastname,
        !info.active,
        info.created_date == now,
        info.modified_date == now,
{
}

} // verus!
