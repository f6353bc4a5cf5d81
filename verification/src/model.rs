//! Records exchanged with clients and read from the database.
//!
//! A UUID is held as its `u128` value (see `ids`), a point in time as whole
//! seconds since the Unix epoch.
use vstd::prelude::*;
use vstd::string::*;

verus! {

/// Copy of an optional text, equal to it.
pub fn clone_text(o: &Option<String>) -> (r: Option<String>)
    ensures
        r == *o,
{
    match o {
        Some(s) => Some(s.clone()),
        None => None,
    }
}

/// `Some` of the empty text.
pub fn some_empty() -> (r: Option<String>)
    ensures
        r is Some,
        r->Some_0@ == Seq::<char>::empty(),
{
    Some(String::new())
}

/// A menu item as the service returns it.
#[derive(Clone, Debug, PartialEq, Eq)]
pub struct DbMenuItem {
    pub item_id: u128,
    pub item_name: Option<String>,
    pub item_desc: Option<String>,
    pub item_size: Vec<String>,
    pub item_temp: Vec<String>,
    pub item_cost: Option<i32>,
}

impl Default for DbMenuItem {
    fn default() -> (r: DbMenuItem)
        ensures
            r.item_id == 0,
            r.item_name is None,
            r.item_desc is None,
            r.item_size@.len() == 0,
            r.item_temp@.len() == 0,
            r.item_cost is None,
    {
        DbMenuItem {
            item_id: 0,
            item_name: None,
            item_desc: None,
            item_size: Vec::new(),
            item_temp: Vec::new(),
            item_cost: None,
        }
    }
}

/// A menu option (an extra with its price).
#[derive(Clone, Debug, PartialEq, Eq)]
pub struct DbMenuOption {
    pub name: Option<String>,
    pub cost: Option<i32>,
}

impl Default for DbMenuOption {
    fn default() -> (r: DbMenuOption)
        ensures
            r.name is None,
            r.cost is None,
    {
        DbMenuOption { name: None, cost: None }
    }
}

/// A user's profile as stored in the user-info table.
#[derive(Clone, Debug, PartialEq, Eq)]
pub struct DbUserInfo {
    pub userid: u128,
    pub email: Option<String>,
    pub firstname: Option<String>,
    pub lastname: Option<String>,
    pub active: bool,
    pub created_date: i64,
    pub modified_date: i64,
}

/// `text` is present and empty.
pub open spec fn is_some_empty(text: Option<String>) -> bool {
    text is Some && text->Some_0@ == Seq::<char>::empty()
}

/// The profile that a lookup gives when it finds no user: nil id, empty
/// texts, inactive, both dates at the epoch.
pub open spec fn is_blank_user_info(r: DbUserInfo) -> bool {
    &&& r.userid == 0
    &&& is_some_empty(r.email)
    &&& is_some_empty(r.firstname)
    &&& is_some_empty(r.lastname)
    &&& !r.active
    &&& r.created_date == 0
    &&& r.modified_date == 0
}

impl Default for DbUserInfo {
    fn default() -> (r: DbUserInfo)
        ensures
            is_blank_user_info(r),
    {
        DbUserInfo {
            userid: 0,
            email: some_empty(),
            firstname: some_empty(),
            lastname: some_empty(),
            active: false,
            created_date: 0,
            modified_date: 0,
        }
    }
}

/// A user's profile (same shape as `DbUserInfo`).
#[derive(Clone, Debug, PartialEq, Eq)]
pub struct UserInfo {
    pub userid: u128,
    pub email: Option<String>,
    pub firstname: Option<String>,
    pub lastname: Option<String>,
    pub active: bool,
    pub created_date: i64,
    pub modified_date: i64,
}

impl Default for UserInfo {
    fn default() -> (r: UserInfo)
        ensures
            r.userid == 0,
            r.email is Some && r.email->Some_0@ == Seq::<char>::empty(),
            r.firstname is Some && r.firstname->Some_0@ == Seq::<char>::empty(),
            r.lastname is Some && r.lastname->Some_0@ == Seq::<char>::empty(),
            !r.active,
            r.created_date == 0,
            r.modified_date == 0,
    {
        UserInfo {
            userid: 0,
            email: some_empty(),
            firstname: some_empty(),
            lastname: some_empty(),
            active: false,
            created_date: 0,
            modified_date: 0,
        }
    }
}

/// Credentials sent to log in.
#[derive(Clone, Debug, PartialEq, Eq)]
pub struct UserLoginRequest {
    pub email: Option<String>,
    pub password_hash: Option<String>,
}

impl Default for UserLoginRequest {
    fn default() -> (r: UserLoginRequest)
        ensures
            r.email is Some && r.email->Some_0@ == Seq::<char>::empty(),
            r.password_hash is Some && r.password_hash->Some_0@ == Seq::<char>::empty(),
    {
        UserLoginRequest { email: some_empty(), password_hash: some_empty() }
    }
}

/// Options to add to a store's menu.
#[derive(Clone, Debug, PartialEq, Eq)]
pub struct CreateOrUpdateMenuOptionRequest {
    pub store_id: u128,
    pub options: Vec<DbMenuOption>,
}

impl Default for CreateOrUpdateMenuOptionRequest {
    fn default() -> (r: CreateOrUpdateMenuOptionRequest)
        ensures
            r.store_id == 0,
            r.options@.len() == 0,
    {
        CreateOrUpdateMenuOptionRequest { store_id: 0, options: Vec::new() }
    }
}

/// A menu item to add to a store.
#[derive(Clone, Debug, PartialEq, Eq)]
pub struct CreateMenuRequest {
    pub store_id: u128,
    pub name: Option<String>,
    pub desc: Option<String>,
    pub size: Option<String>,
    pub temp: Option<String>,
    pub cost: Option<i32>,
}

impl Default for CreateMenuRequest {
    fn default() -> (r: CreateMenuRequest)
        ensures
            r.store_id == 0,
            r.name is None,
            r.desc is None,
            r.size is None,
            r.temp is None,
            r.cost is None,
    {
        CreateMenuRequest { store_id: 0, name: None, desc: None, size: None, temp: None, cost: None }
    }
}

/// Registration of a store's staff user.
#[derive(Clone, Debug, PartialEq, Eq)]
pub struct CreateStoreUserRequest {
    pub email: Option<String>,
    pub password_hash: Option<String>,
    pub firstname: Option<String>,
    pub lastname: Option<String>,
}

impl Default for CreateStoreUserRequest {
    fn default() -> (r: CreateStoreUserRequest)
        ensures
            r.email is Some && r.email->Some_0@ == Seq::<char>::empty(),
            r.password_hash is Some && r.password_hash->Some_0@ == Seq::<char>::empty(),
            r.firstname is Some && r.firstname->Some_0@ == Seq::<char>::empty(),
            r.lastname is Some && r.lastname->Some_0@ == Seq::<char>::empty(),
    {
        CreateStoreUserRequest {
            email: some_empty(),
            password_hash: some_empty(),
            firstname: some_empty(),
            lastname: some_empty(),
        }
    }
}

/// Registration of a customer.
#[derive(Clone, Debug, PartialEq, Eq)]
pub struct CreateUserRequest {
    pub email: Option<String>,
    pub password_hash: Option<String>,
    pub firstname: Option<String>,
    pub lastname: Option<String>,
}

impl Default for CreateUserRequest {
    fn default() -> (r: CreateUserRequest)
        ensures
            r.email is Some && r.email->Some_0@ == Seq::<char>::empty(),
            r.password_hash is Some && r.password_hash->Some_0@ == Seq::<char>::empty(),
            r.firstname is Some && r.firstname->Some_0@ == Seq::<char>::empty(),
            r.lastname is Some && r.lastname->Some_0@ == Seq::<char>::empty(),
    {
        CreateUserRequest {
            email: some_empty(),
            password_hash: some_empty(),
            firstname: some_empty(),
            lastname: some_empty(),
        }
    }
}

/// Answer to a registration.
#[derive(Clone, Debug, PartialEq, Eq)]
pub struct CreateUserResponse {
    pub email_auth_token: Option<String>,
}

impl Default for CreateUserResponse {
    fn default() -> (r: CreateUserResponse)
        ensures
            r.email_auth_token is Some && r.email_auth_token->Some_0@ == Seq::<char>::empty(),
    {
        CreateUserResponse { email_auth_token: some_empty() }
    }
}

/// Session codes handed out at login.
#[derive(Clone, Copy, Debug, PartialEq, Eq)]
pub struct UserLoginResponse {
    pub access_code: u128,
    pub refresh_code: u128,
    pub userid: u128,
}

impl Default for UserLoginResponse {
    fn default() -> (r: UserLoginResponse)
        ensures
            r.access_code == 0,
            r.refresh_code == 0,
            r.userid == 0,
    {
        UserLoginResponse { access_code: 0, refresh_code: 0, userid: 0 }
    }
}

/// A store's menu: its items and its options.
#[derive(Clone, Debug, PartialEq, Eq)]
pub struct MenuResponse {
    pub store_id: u128,
    pub items: Vec<DbMenuItem>,
    pub options: Vec<DbMenuOption>,
}

impl Default for MenuResponse {
    fn default() -> (r: MenuResponse)
        ensures
            r.store_id == 0,
            r.items@.len() == 0,
            r.options@.len() == 0,
    {
        MenuResponse { store_id: 0, items: Vec::new(), options: Vec::new() }
    }
}

} // verus!
