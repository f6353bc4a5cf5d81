//! CQL statements of the service's three keyspaces, and the lookups whose
//! text is built per request.
use vstd::prelude::*;
use vstd::string::*;
use crate::ids::{hyphenated_text, id_text};

verus! {

/// Keyspace of user profiles, credentials and activation codes.
pub const USER_KS_NAME: &'static str = "user_data";

/// Keyspace of session codes.
pub const AUTH_KS_NAME: &'static str = "session_auth_ks";

/// Keyspace of stores and their menus.
pub const STORE_KS_NAME: &'static str = "store_ks";

/// Time to live, in seconds, of an activation code.
pub const USER_ACTIVATION_TTL: i32 = 86400;

/// Time to live, in seconds, of an access code.
pub const AUTH_CODE_TTL: i32 = 3600;

/// Time to live, in seconds, of a refresh code.
pub const AUTH_REFRESH_TTL: i32 = 2592000;

/// Insert of a user profile.
pub const USER_INFO_INSERT: &'static str = "INSERT INTO user_data.user_info (userid,email,firstname,lastname,active,created_date,modified_date) VALUES (?, ?, ?, ?, ?, ?, ?)";

/// Insert of a user's credentials.
pub const USER_CREDS_INSERT: &'static str = "INSERT INTO user_data.user_credentials (userid, email, password_hash, active) VALUES (?, ?, ?, ?)";

/// Insert of the email-to-user map.
pub const USER_EMAIL_MAP_INSERT: &'static str = "INSERT INTO user_data.email_userid_map (email, userid) VALUES (?, ?)";

/// Insert of an activation code, kept one day.
pub const USER_ACTIVATION_INSERT: &'static str = "INSERT INTO user_data.user_activation (activation_code, userid) VALUES (?, ?) USING TTL 86400";

/// Lookup of a user's id by email.
pub const USER_ID_BY_EMAIL_SELECT: &'static str = "SELECT userid FROM user_data.user_credentials WHERE email = ? LIMIT 1";

/// Lookup of the user of an activation code.
pub const USER_ID_BY_ACTIVATION_SELECT: &'static str = "SELECT userid FROM user_data.user_activation WHERE activation_code = ? LIMIT 1";

/// Activation of a user's credentials.
pub const USER_CREDS_ACTIVATE: &'static str = "UPDATE user_data.user_credentials SET active = ? WHERE userid = ?";

/// Activation of a user's profile.
pub const USER_INFO_ACTIVATE: &'static str = "UPDATE user_data.user_info SET active = ?, modified_date = ? WHERE userid = ?";

/// Insert of an access code.
pub const AUTH_CODE_INSERT: &'static str = "INSERT INTO session_auth_ks.auth_code (auth_code, userid) VALUES (?, ?)";

/// Insert of a refresh code.
pub const AUTH_REFRESH_CODE_INSERT: &'static str = "INSERT INTO session_auth_ks.refresh_code (refresh_code, userid) VALUES (?, ?)";

/// Insert of a store.
pub const STORE_INFO_INSERT: &'static str = "INSERT INTO store_ks.store_info (store_id, place_id, store_name, store_desc, formatted_addr, lat, lng, active, created_date, modified_date) VALUES (?, ?, ?, ?, ?, ?, ?, ?, ?, ?)";

/// Lookup of the stores near a point: three latitude cells, three longitude
/// cells, then the corners of the box around the point.
pub const STORE_NEAR_SELECT: &'static str = "SELECT store_id, place_id, store_name, store_desc, formatted_addr, lat, lng, slat, slng, active FROM store_ks.store_info WHERE slat IN (?,?,?) AND slng IN (?,?,?) AND (lat,lng) > (?,?) AND (lat,lng) < (?,?) LIMIT 20;";

/// Insert of a menu item.
pub const MENU_ITEM_INSERT: &'static str = "INSERT INTO store_ks.menu_item (store_id, item_id, item_name, item_desc, item_size, item_temp, item_cost, created_date, modified_date) VALUES (?, ?, ?, ?, ?, ?, ?, ?, ?)";

/// Lookup of a store's menu items.
pub const MENU_ITEM_SELECT: &'static str = "SELECT store_id, item_id, item_name, item_desc, item_size, item_temp, item_cost, created_date, modified_date FROM store_ks.menu_item WHERE store_id = ?";

/// Insert of a menu option.
pub const MENU_OPTION_INSERT: &'static str = "INSERT INTO store_ks.menu_option (store_id, option_id, option_name, option_cost, created_date, modified_date) VALUES (?, ?, ?, ?, ?, ?)";

/// Lookup of a store's menu options.
pub const MENU_OPTION_SELECT: &'static str = "SELECT store_id, option_id, option_name, option_cost, created_date, modified_date FROM store_ks.menu_option WHERE store_id = ?";

/// Creation of the user keyspace.
pub const CREATE_USER_KS: &'static str = "CREATE KEYSPACE IF NOT EXISTS user_data WITH replication = {'class':'NetworkTopologyStrategy','datacenter1':1, 'replication_factor' : 3};";

/// Creation of the session keyspace.
pub const CREATE_AUTH_KS: &'static str = "CREATE KEYSPACE IF NOT EXISTS session_auth_ks WITH replication = {'class':'NetworkTopologyStrategy','datacenter1':1, 'replication_factor' : 3};";

/// Creation of the store keyspace.
pub const CREATE_STORE_KS: &'static str = "CREATE KEYSPACE IF NOT EXISTS store_ks WITH replication = {'class':'NetworkTopologyStrategy','datacenter1':1, 'replication_factor' : 3};";

/// Creation of the profile table.
pub const CREATE_USER_INFO: &'static str = "CREATE TABLE IF NOT EXISTS user_data.user_info (userid UUID PRIMARY KEY, email text, firstname text, lastname text, active boolean, created_date timestamp, modified_date timestamp)";

/// Creation of the credentials table.
pub const CREATE_USER_CREDS: &'static str = "CREATE TABLE IF NOT EXISTS user_data.user_credentials (userid UUID PRIMARY KEY, email text, password_hash text, active boolean)";

/// Creation of the email-to-user table.
pub const CREATE_EMAIL_MAP: &'static str = "CREATE TABLE IF NOT EXISTS user_data.email_userid_map (email text PRIMARY KEY, userid UUID)";

/// Creation of the activation-code table.
pub const CREATE_ACTIVATION: &'static str = "CREATE TABLE IF NOT EXISTS user_data.user_activation (activation_code UUID PRIMARY KEY, userid UUID)";

/// Creation of the access-code table.
pub const CREATE_AUTH_CODE: &'static str = "CREATE TABLE IF NOT EXISTS session_auth_ks.auth_code (auth_code UUID PRIMARY KEY, userid UUID)";

/// Creation of the refresh-code table.
pub const CREATE_REFRESH_CODE: &'static str = "CREATE TABLE IF NOT EXISTS session_auth_ks.refresh_code (refresh_code UUID PRIMARY KEY, userid UUID)";

/// Creation of the store table.
pub const CREATE_STORE_INFO: &'static str = "CREATE TABLE IF NOT EXISTS store_ks.store_info (store_id UUID, place_id text, store_name text, store_desc text, formatted_addr text, lat double, lng double, created_date timestamp, modified_date timestamp, active boolean, PRIMARY KEY (store_id));";

/// Creation of the store-location table.
pub const CREATE_STORE_LOC_MAP: &'static str = "CREATE TABLE IF NOT EXISTS store_ks.store_loc_map (slat smallint, slng smallint, store_id UUID, place_id text, lat double, lng double, created_date timestamp, modified_date timestamp, PRIMARY KEY ((slat, slng), lat, lng)) WITH CLUSTERING ORDER BY (lat ASC, lng ASC);";

/// Creation of the menu-item table.
pub const CREATE_MENU_ITEM: &'static str = "CREATE TABLE IF NOT EXISTS store_ks.menu_item (store_id UUID PRIMARY KEY, item_id UUID, item_name text, item_desc text, item_size text, item_temp text, item_cost int, created_date timestamp, modified_date timestamp);";

/// Creation of the menu-option table.
pub const CREATE_MENU_OPTION: &'static str = "CREATE TABLE IF NOT EXISTS store_ks.menu_option (store_id UUID PRIMARY KEY, option_id UUID, option_name text, option_cost int, created_date timestamp, modified_date timestamp);";

/// Text of the credentials lookup for a login with `email`. The email is
/// placed between quotes as it was given.
pub open spec fn login_query_text(email: Seq<char>) -> Seq<char> {
    "SELECT userid, password, active FROM user_data.user_credentials WHERE email = '"@ + email
        + "' LIMIT 1"@
}

/// Text of the profile lookup for the user `userid`.
pub open spec fn user_query_text(userid: u128) -> Seq<char> {
    "SELECT userid, email, firstname, lastname, created_date, modified_date, active FROM user_data.user_info WHERE userid = "@
        + hyphenated_text(userid) + " LIMIT 1"@
}

/// Builds the credentials lookup made at login.
///
/// The email stands between the quotes character for character, as it was
/// given: the lookup finds the credentials stored under exactly that email.
pub fn login_query(email: &str) -> (q: String)
    ensures
        q@ == login_query_text(email@),
        q@.len() == 79 + email@.len() + 9,
        q@.subrange(79int, 79int + email@.len()) == email@,
{
    let mut q = String::from_str(
        "SELECT userid, password, active FROM user_data.user_credentials WHERE email = '",
    );
    proof {
        reveal_strlit("SELECT userid, password, active FROM user_data.user_credentials WHERE email = '");
        reveal_strlit("' LIMIT 1");
    }
    let ghost pre = q@;
    q.append(email);
    let ghost mid = q@;
    q.append("' LIMIT 1");
    assert(pre.len() == 79);
    assert(mid == pre + email@);
    assert(q@.subrange(79int, 79int + email@.len()) =~= email@);
    q
}

/// The login lookup quotes the email as given. For every email, the lookup
/// text holds the fixed 79-character query start, the email itself
/// character for character (letter case included), and the closing quote
/// with the row limit; so two different emails never give the same lookup.
pub proof fn lemma_login_query_quotes_email(e: Seq<char>, f: Seq<char>)
    ensures
        login_query_text(e).len() == 79 + e.len() + 9,
        login_query_text(e)[78] == '\'',
        login_query_text(e).subrange(79int, 79int + e.len()) == e,
        login_query_text(e).subrange(79int + e.len(), 79int + e.len() + 9) == "' LIMIT 1"@,
        login_query_text(e) == login_query_text(f) ==> e == f,
{
    reveal_strlit("SELECT userid, password, active FROM user_data.user_credentials WHERE email = '");
    reveal_strlit("' LIMIT 1");
    let pre = "SELECT userid, password, active FROM user_data.user_credentials WHERE email = '"@;
    let suf = "' LIMIT 1"@;
    assert(pre.len() == 79);
    assert(pre[78] == '\'');
    assert(login_query_text(e) == pre + e + suf);
    assert(login_query_text(e).subrange(79int, 79int + e.len()) =~= e);
    assert(login_query_text(e).subrange(79int + e.len(), 79int + e.len() + 9) =~= suf);
    if login_query_text(e) == login_query_text(f) {
        assert(login_query_text(f) == pre + f + suf);
        assert(e.len() == f.len());
        assert(login_query_text(f).subrange(79int, 79int + f.len()) =~= f);
    }
}

/// Builds the profile lookup for a user id.
pub fn user_query(userid: u128) -> (q: String)
    ensures
        q@ == user_query_text(userid),
{
    let mut q = String::from_str(
        "SELECT userid, email, firstname, lastname, created_date, modified_date, active FROM user_data.user_info WHERE userid = ",
    );
    let id = id_text(userid);
    q.append(id.as_str());
    q.append(" LIMIT 1");
    q
}

} // verus!
