//! A model of the tables that the service writes, and what later lookups
//! give back of what was written.
//!
//! Each table holds its rows under their primary key; a write of a row puts
//! it under its key, replacing any row there (the database's inserts and
//! updates both behave so). The lookups model the queries of the service,
//! read as the library reads them. The model speaks of rows whose columns
//! are all present; expiry of rows written with a time to live is not
//! modelled.
use vstd::prelude::*;
use crate::ids::{is_random_id, lemma_random_id_not_nil, NIL_ID};
use crate::menu::{
    is_item_of_record, is_menu_item_row, is_menu_of_rows, is_menu_option_row, is_option_of_record,
    MenuItemRecord, MenuItemRow, MenuOptionRecord, MenuOptionRow,
};
use crate::model::{CreateMenuRequest, CreateOrUpdateMenuOptionRequest, CreateUserRequest, DbUserInfo, MenuResponse, UserInfo};
use crate::rows::{first_row_error, rows_error};
use crate::text::{comma_pieces, option_text};
use crate::users::{
    activation_error_prefix, is_info_of_record, is_new_user_rows, is_profile_of_rows, is_sample_profile,
    last_user_record, login_verdict, first_login_failure, login_row_failure, looked_up_user, ActivationRow,
    ActivationUpdate, LoginRecord, NewUserRows, UserCredsRow, UserInfoRow, UserRecord,
};

verus! {

/// The rows of the tables the service writes, each under its primary key:
/// profiles and credentials by user id, activation codes by code, menu items
/// and menu options by store id.
pub struct Tables {
    pub user_info: Map<u128, UserInfoRow>,
    pub user_credentials: Map<u128, UserCredsRow>,
    pub user_activation: Map<u128, u128>,
    pub menu_item: Map<u128, MenuItemRow>,
    pub menu_option: Map<u128, MenuOptionRow>,
}

/// The tables after a registration's three writes.
pub open spec fn after_registration(t: Tables, rows: NewUserRows) -> Tables {
    Tables {
        user_info: t.user_info.insert(rows.info.userid, rows.info),
        user_credentials: t.user_credentials.insert(rows.creds.userid, rows.creds),
        user_activation: t.user_activation.insert(rows.activation.activation_code, rows.activation.userid),
        menu_item: t.menu_item,
        menu_option: t.menu_option,
    }
}

/// The tables after a new activation code is written.
pub open spec fn after_new_code(t: Tables, row: ActivationRow) -> Tables {
    Tables {
        user_info: t.user_info,
        user_credentials: t.user_credentials,
        user_activation: t.user_activation.insert(row.activation_code, row.userid),
        menu_item: t.menu_item,
        menu_option: t.menu_option,
    }
}

/// The credentials of `userid` after the activation update: the flag is
/// set; a user without credentials gets a row holding only the flag.
pub open spec fn activated_credentials(t: Tables, u: ActivationUpdate) -> UserCredsRow {
    if t.user_credentials.contains_key(u.userid) {
        UserCredsRow { active: u.active, ..t.user_credentials[u.userid] }
    } else {
        UserCredsRow { userid: u.userid, email: None, password_hash: None, active: u.active }
    }
}

/// The profile of `userid` after the activation update: the flag and the
/// modification time are set; a user without a profile gets a row holding
/// only these.
pub open spec fn activated_profile(t: Tables, u: ActivationUpdate) -> UserInfoRow {
    if t.user_info.contains_key(u.userid) {
        UserInfoRow { active: u.active, modified_date: u.modified_date, ..t.user_info[u.userid] }
    } else {
        UserInfoRow {
            userid: u.userid,
            email: None,
            firstname: None,
            lastname: None,
            active: u.active,
            created_date: 0,
            modified_date: u.modified_date,
        }
    }
}

/// The tables after the two activation updates.
pub open spec fn after_activation(t: Tables, u: ActivationUpdate) -> Tables {
    Tables {
        user_info: t.user_info.insert(u.userid, activated_profile(t, u)),
        user_credentials: t.user_credentials.insert(u.userid, activated_credentials(t, u)),
        user_activation: t.user_activation,
        menu_item: t.menu_item,
        menu_option: t.menu_option,
    }
}

/// The profile row written for a sample profile.
pub open spec fn sample_row(info: UserInfo) -> UserInfoRow {
    UserInfoRow {
        userid: info.userid,
        email: info.email,
        firstname: info.firstname,
        lastname: info.lastname,
        active: info.active,
        created_date: info.created_date,
        modified_date: info.modified_date,
    }
}

/// The tables after a sample profile is written.
pub open spec fn after_sample_profile(t: Tables, info: UserInfo) -> Tables {
    Tables {
        user_info: t.user_info.insert(info.userid, sample_row(info)),
        user_credentials: t.user_credentials,
        user_activation: t.user_activation,
        menu_item: t.menu_item,
        menu_option: t.menu_option,
    }
}

/// The tables after a menu item is written.
pub open spec fn after_menu_item(t: Tables, row: MenuItemRow) -> Tables {
    Tables {
        user_info: t.user_info,
        user_credentials: t.user_credentials,
        user_activation: t.user_activation,
        menu_item: t.menu_item.insert(row.store_id, row),
        menu_option: t.menu_option,
    }
}

/// The option table after the writes of `order`, made in that order.
pub open spec fn options_written(m: Map<u128, MenuOptionRow>, order: Seq<MenuOptionRow>) -> Map<u128, MenuOptionRow>
    decreases order.len(),
{
    if order.len() == 0 {
        m
    } else {
        options_written(m, order.drop_last()).insert(order.last().store_id, order.last())
    }
}

/// The tables after menu options are written in the order `order`.
pub open spec fn after_menu_options(t: Tables, order: Seq<MenuOptionRow>) -> Tables {
    Tables {
        user_info: t.user_info,
        user_credentials: t.user_credentials,
        user_activation: t.user_activation,
        menu_item: t.menu_item,
        menu_option: options_written(t.menu_option, order),
    }
}

/// What the lookup of an activation code returns.
pub open spec fn activation_lookup(t: Tables, code: u128) -> Seq<Result<u128, String>> {
    if t.user_activation.contains_key(code) {
        seq![Ok(t.user_activation[code])]
    } else {
        Seq::empty()
    }
}

/// `u` holds credentials under the email `e`.
pub open spec fn owns_email(t: Tables, e: Seq<char>, u: u128) -> bool {
    &&& t.user_credentials.contains_key(u)
    &&& t.user_credentials[u].email is Some
    &&& t.user_credentials[u].email->Some_0@ == e
}

/// The login record read from a credentials row.
pub open spec fn login_record(row: UserCredsRow) -> LoginRecord {
    LoginRecord { userid: row.userid, password: row.password_hash->Some_0, active: row.active }
}

/// What the credentials lookup for email `e` returns when at most one user
/// holds that email.
pub open spec fn credentials_lookup(t: Tables, e: Seq<char>) -> Seq<Result<LoginRecord, String>> {
    if exists|u: u128| owns_email(t, e, u) {
        seq![Ok(login_record(t.user_credentials[choose|u: u128| owns_email(t, e, u)]))]
    } else {
        Seq::empty()
    }
}

/// The profile record read from a profile row.
pub open spec fn profile_record(row: UserInfoRow) -> UserRecord {
    UserRecord {
        userid: row.userid,
        email: row.email->Some_0,
        firstname: row.firstname->Some_0,
        lastname: row.lastname->Some_0,
        created_date: row.created_date,
        modified_date: row.modified_date,
        active: row.active,
    }
}

/// What the profile lookup for `userid` returns.
pub open spec fn profile_lookup(t: Tables, userid: u128) -> Seq<Result<UserRecord, String>> {
    if t.user_info.contains_key(userid) {
        seq![Ok(profile_record(t.user_info[userid]))]
    } else {
        Seq::empty()
    }
}

/// The menu-item record read from a menu-item row.
pub open spec fn item_record(row: MenuItemRow) -> MenuItemRecord {
    MenuItemRecord {
        store_id: row.store_id,
        item_id: row.item_id,
        item_name: row.item_name->Some_0,
        item_desc: row.item_desc->Some_0,
        item_size: row.item_size,
        item_temp: row.item_temp,
        item_cost: row.item_cost->Some_0,
        created_date: row.created_date,
        modified_date: row.modified_date,
    }
}

/// What the lookup of a store's menu items returns.
pub open spec fn menu_item_lookup(t: Tables, store_id: u128) -> Seq<Result<MenuItemRecord, String>> {
    if t.menu_item.contains_key(store_id) {
        seq![Ok(item_record(t.menu_item[store_id]))]
    } else {
        Seq::empty()
    }
}

/// The menu-option record read from a menu-option row.
pub open spec fn option_record(row: MenuOptionRow) -> MenuOptionRecord {
    MenuOptionRecord {
        store_id: row.store_id,
        option_id: row.option_id,
        option_name: row.option_name->Some_0,
        option_cost: row.option_cost->Some_0,
        created_date: row.created_date,
        modified_date: row.modified_date,
    }
}

/// What the lookup of a store's menu options returns.
pub open spec fn menu_option_lookup(t: Tables, store_id: u128) -> Seq<Result<MenuOptionRecord, String>> {
    if t.menu_option.contains_key(store_id) {
        seq![Ok(option_record(t.menu_option[store_id]))]
    } else {
        Seq::empty()
    }
}

/// A result set of one readable row names that row's user.
pub proof fn lemma_one_row_lookup(prefix: Seq<char>, rows: Option<Vec<Result<u128, String>>>, id: u128)
    requires
        rows is Some,
        rows->0@ == seq![Ok::<u128, String>(id)],
    ensures
        looked_up_user(prefix, rows) == Ok::<u128, Seq<char>>(id),
{
    let s = rows->0@;
    assert(s.drop_last() =~= Seq::<Result<u128, String>>::empty());
    assert(first_row_error(s.drop_last()) is None);
    assert(s.last() == Ok::<u128, String>(id));
}

/// One readable row, no failure.
proof fn lemma_one_row_no_error<R>(s: Seq<Result<R, String>>, x: R)
    requires
        s == seq![Ok::<R, String>(x)],
    ensures
        first_row_error(s) is None,
{
    assert(s.drop_last() =~= Seq::<Result<R, String>>::empty());
    assert(first_row_error(s.drop_last()) is None);
    assert(s.last() == Ok::<R, String>(x));
}

/// What a menu read gives back of a written item. When an item was sent
/// with a name, a description and a price, and its row written, the store's
/// menu read afterwards (its options readable) holds exactly one item,
/// because the item table is keyed by store: the written one, with its id,
/// name, description and price, and the comma-separated pieces of its size
/// and temperature texts (an absent one gives a single empty piece).
pub proof fn lemma_menu_item_written_then_read(
    t: Tables,
    req: CreateMenuRequest,
    row: MenuItemRow,
    items: Option<Vec<Result<MenuItemRecord, String>>>,
    options: Option<Vec<Result<MenuOptionRecord, String>>>,
    r: Result<MenuResponse, String>,
)
    requires
        is_menu_item_row(req, row.item_id, row.created_date, row),
        req.name is Some,
        req.desc is Some,
        req.cost is Some,
        items is Some,
        items->0@ == menu_item_lookup(after_menu_item(t, row), req.store_id),
        rows_error(options) is None,
        is_menu_of_rows(req.store_id, items, options, r),
    ensures
        r is Ok,
        r->Ok_0.store_id == req.store_id,
        r->Ok_0.items@.len() == 1,
        r->Ok_0.items@[0].item_id == row.item_id,
        r->Ok_0.items@[0].item_name == req.name,
        r->Ok_0.items@[0].item_desc == req.desc,
        r->Ok_0.items@[0].item_cost == req.cost,
        r->Ok_0.items@[0].item_size.deep_view() == comma_pieces(option_text(req.size)),
        r->Ok_0.items@[0].item_temp.deep_view() == comma_pieces(option_text(req.temp)),
{
    let t1 = after_menu_item(t, row);
    assert(t1.menu_item.contains_key(req.store_id));
    assert(t1.menu_item[req.store_id] == row);
    let rec = item_record(row);
    lemma_one_row_no_error(items->0@, rec);
    let menu = r->Ok_0;
    assert(is_item_of_record(menu.items@[0], items->0@[0]->Ok_0));
}

/// What a menu read gives back of written options. When options, each with a
/// name and a price, are written for a store in any order, the store's menu
/// read afterwards (its items readable) holds exactly one option, because
/// the option table is keyed by store: one of the options that were sent.
pub proof fn lemma_menu_options_written_then_read(
    t: Tables,
    req: CreateOrUpdateMenuOptionRequest,
    rows: Seq<MenuOptionRow>,
    now: i64,
    order: Seq<MenuOptionRow>,
    items: Option<Vec<Result<MenuItemRecord, String>>>,
    options: Option<Vec<Result<MenuOptionRecord, String>>>,
    r: Result<MenuResponse, String>,
)
    requires
        rows.len() == req.options@.len(),
        forall|i: int|
            0 <= i < rows.len() ==> is_menu_option_row(
                req.store_id,
                req.options@[i],
                rows[i].option_id,
                now,
                #[trigger] rows[i],
            ),
        forall|i: int|
            0 <= i < req.options@.len() ==> (#[trigger] req.options@[i]).name is Some && req.options@[i].cost is Some,
        order.len() > 0,
        forall|k: int| 0 <= k < order.len() ==> exists|j: int| 0 <= j < rows.len() && #[trigger] order[k] == rows[j],
        options is Some,
        options->0@ == menu_option_lookup(after_menu_options(t, order), req.store_id),
        rows_error(items) is None,
        is_menu_of_rows(req.store_id, items, options, r),
    ensures
        r is Ok,
        r->Ok_0.options@.len() == 1,
        exists|j: int| 0 <= j < req.options@.len() && r->Ok_0.options@[0] == #[trigger] req.options@[j],
{
    let last = order.last();
    assert(order[order.len() - 1] == last);
    let j = choose|j: int| 0 <= j < rows.len() && order[order.len() - 1] == rows[j];
    assert(is_menu_option_row(req.store_id, req.options@[j], rows[j].option_id, now, rows[j]));
    let t1 = after_menu_options(t, order);
    assert(t1.menu_option == options_written(t.menu_option, order.drop_last()).insert(last.store_id, last));
    assert(t1.menu_option.contains_key(req.store_id));
    assert(t1.menu_option[req.store_id] == last);
    let rec = option_record(last);
    lemma_one_row_no_error(options->0@, rec);
    let menu = r->Ok_0;
    assert(is_option_of_record(menu.options@[0], options->0@[0]->Ok_0));
    let want = req.options@[j];
    assert(want.name is Some && want.cost is Some);
    assert(menu.options@[0].name == want.name);
    assert(menu.options@[0].cost == want.cost);
    assert(menu.options@[0] == want);
}

/// Register, activate, log in. When a user registers with an email that no
/// account holds and a password, a login with that email is refused as not
/// activated, whatever the password. The activation code of the
/// registration names the new user, so the update that the code's lookup
/// leads to activates that user; afterwards the registered password logs
/// in as the new user (whose id is not nil), and any other password is
/// refused as an invalid login.
pub proof fn lemma_register_activate_login(
    t: Tables,
    user: CreateUserRequest,
    userid: u128,
    code: u128,
    now: i64,
    rows: NewUserRows,
    e: Seq<char>,
    lookup: Option<Vec<Result<u128, String>>>,
    update: ActivationUpdate,
    password: Seq<char>,
)
    requires
        is_new_user_rows(user, userid, code, now, rows),
        is_random_id(userid),
        user.email is Some,
        user.email->Some_0@ == e,
        user.password_hash is Some,
        forall|u: u128| !owns_email(t, e, u),
        lookup is Some,
        lookup->0@ == activation_lookup(after_registration(t, rows), code),
        looked_up_user(activation_error_prefix(), lookup) matches Ok(id) ==> update.userid == id && update.active,
    ensures
        login_verdict(password, credentials_lookup(after_registration(t, rows), e)) == Err::<u128, Seq<char>>(
            "account is not activated"@,
        ),
        looked_up_user(activation_error_prefix(), lookup) == Ok::<u128, Seq<char>>(userid),
        update.userid == userid,
        userid != NIL_ID,
        login_verdict(password, credentials_lookup(after_activation(after_registration(t, rows), update), e)) == (
        if password == option_text(user.password_hash) {
            Ok::<u128, Seq<char>>(userid)
        } else {
            Err::<u128, Seq<char>>("invalid login"@)
        }),
{
    lemma_random_id_not_nil(userid);
    let t1 = after_registration(t, rows);
    assert(t1.user_activation.contains_key(code));
    assert(t1.user_activation[code] == userid);
    lemma_one_row_lookup(activation_error_prefix(), lookup, userid);
    // Before activation: the only holder of the email is the new user.
    assert(owns_email(t1, e, userid));
    assert forall|u: u128| owns_email(t1, e, u) implies u == userid by {
        if u != userid {
            assert(t1.user_credentials[u] == t.user_credentials[u]);
            assert(owns_email(t, e, u));
        }
    }
    let k1 = choose|u: u128| owns_email(t1, e, u);
    assert(k1 == userid);
    let rec1 = login_record(t1.user_credentials[userid]);
    let s1 = seq![Ok::<LoginRecord, String>(rec1)];
    assert(credentials_lookup(t1, e) == s1);
    assert(s1.drop_last() =~= Seq::<Result<LoginRecord, String>>::empty());
    assert(first_login_failure(password, s1.drop_last()) is None);
    assert(s1.last() == Ok::<LoginRecord, String>(rec1));
    assert(!rec1.active);
    assert(first_login_failure(password, s1) == login_row_failure(password, s1.last()));
    // After activation.
    let t2 = after_activation(t1, update);
    assert(t2.user_credentials[userid] == activated_credentials(t1, update));
    assert(owns_email(t2, e, userid));
    assert forall|u: u128| owns_email(t2, e, u) implies u == userid by {
        if u != userid {
            assert(t2.user_credentials[u] == t1.user_credentials[u]);
            assert(owns_email(t1, e, u));
        }
    }
    let k2 = choose|u: u128| owns_email(t2, e, u);
    assert(k2 == userid);
    let rec2 = login_record(t2.user_credentials[userid]);
    let s2 = seq![Ok::<LoginRecord, String>(rec2)];
    assert(credentials_lookup(t2, e) == s2);
    assert(rec2.active);
    assert(rec2.userid == userid);
    assert(rec2.password@ == option_text(user.password_hash));
    assert(s2.drop_last() =~= Seq::<Result<LoginRecord, String>>::empty());
    assert(first_login_failure(password, s2.drop_last()) is None);
    assert(s2.last() == Ok::<LoginRecord, String>(rec2));
    assert(first_login_failure(password, s2) == login_row_failure(password, s2.last()));
}

/// A new activation code activates its user. When a new code is written for
/// a user, the lookup of that code names the user, so the update it leads
/// to sets both the user's credentials and profile active.
pub proof fn lemma_new_code_activates(
    t: Tables,
    row: ActivationRow,
    lookup: Option<Vec<Result<u128, String>>>,
    update: ActivationUpdate,
)
    requires
        lookup is Some,
        lookup->0@ == activation_lookup(after_new_code(t, row), row.activation_code),
        looked_up_user(activation_error_prefix(), lookup) matches Ok(id) ==> update.userid == id && update.active,
    ensures
        looked_up_user(activation_error_prefix(), lookup) == Ok::<u128, Seq<char>>(row.userid),
        update.userid == row.userid,
        after_activation(after_new_code(t, row), update).user_credentials[row.userid].active,
        after_activation(after_new_code(t, row), update).user_info[row.userid].active,
{
    let t1 = after_new_code(t, row);
    assert(t1.user_activation.contains_key(row.activation_code));
    assert(t1.user_activation[row.activation_code] == row.userid);
    lemma_one_row_lookup(activation_error_prefix(), lookup, row.userid);
    let t2 = after_activation(t1, update);
    assert(t2.user_credentials[row.userid] == activated_credentials(t1, update));
    assert(t2.user_info[row.userid] == activated_profile(t1, update));
}

/// What the profile lookup gives back of a written sample profile: the
/// profile of the sample's id is the sample: its email, "tom", "bob",
/// inactive, with the two dates written.
pub proof fn lemma_sample_profile_reads_back(
    t: Tables,
    info: UserInfo,
    userid: u128,
    email: Seq<char>,
    created: i64,
    modified: i64,
    records: Option<Vec<Result<UserRecord, String>>>,
    got: DbUserInfo,
)
    requires
        is_sample_profile(info, userid, email, created, modified),
        records is Some,
        records->0@ == profile_lookup(after_sample_profile(t, info), userid),
        is_profile_of_rows(records, got),
    ensures
        got.userid == userid,
        got.email is Some && got.email->Some_0@ == email,
        got.firstname is Some && got.firstname->Some_0@ == "tom"@,
        got.lastname is Some && got.lastname->Some_0@ == "bob"@,
        !got.active,
        got.created_date == created,
        got.modified_date == modified,
{
    let t1 = after_sample_profile(t, info);
    assert(t1.user_info.contains_key(userid));
    assert(t1.user_info[userid] == sample_row(info));
    let rec = profile_record(sample_row(info));
    let s = records->0@;
    assert(s == seq![Ok::<UserRecord, String>(rec)]);
    assert(s.last() == Ok::<UserRecord, String>(rec));
    assert(last_user_record(s) == Some(rec));
    assert(is_info_of_record(got, rec));
}

/// A registration's activation code keeps naming its user after another
/// registration, as long as the other's code is a different one: the code
/// table is keyed by code, so only a write under the same code replaces it.
pub proof fn lemma_code_survives_other_registration(t: Tables, first: NewUserRows, second: NewUserRows)
    requires
        second.activation.activation_code != first.activation.activation_code,
    ensures
        activation_lookup(after_registration(after_registration(t, first), second), first.activation.activation_code)
            == seq![Ok::<u128, String>(first.activation.userid)],
{
    let t2 = after_registration(after_registration(t, first), second);
    assert(t2.user_activation.contains_key(first.activation.activation_code));
    assert(t2.user_activation[first.activation.activation_code] == first.activation.userid);
}

/// A new activation code keeps naming its user after another request for a
/// new code, as long as the other code is a different one.
pub proof fn lemma_new_code_survives_other_request(t: Tables, first: ActivationRow, second: ActivationRow)
    requires
        second.activation_code != first.activation_code,
    ensures
        activation_lookup(after_new_code(after_new_code(t, first), second), first.activation_code)
            == seq![Ok::<u128, String>(first.userid)],
{
    let t2 = after_new_code(after_new_code(t, first), second);
    assert(t2.user_activation.contains_key(first.activation_code));
    assert(t2.user_activation[first.activation_code] == first.userid);
}

} // verus!
