use store_service::model::{
    CreateMenuRequest, CreateOrUpdateMenuOptionRequest, CreateStoreUserRequest, CreateUserRequest,
    CreateUserResponse, DbMenuItem, DbMenuOption, DbUserInfo, MenuResponse, UserInfo, UserLoginRequest,
    UserLoginResponse,
};

fn empty() -> Option<String> {
    Some(String::new())
}

#[test]
fn default_menu_item_is_blank() {
    let d = DbMenuItem::default();
    assert_eq!(d.item_id, 0);
    assert_eq!(d.item_name, None);
    assert_eq!(d.item_desc, None);
    assert!(d.item_size.is_empty());
    assert!(d.item_temp.is_empty());
    assert_eq!(d.item_cost, None);
}

#[test]
fn default_menu_option_is_blank() {
    let d = DbMenuOption::default();
    assert_eq!(d, DbMenuOption { name: None, cost: None });
}

#[test]
fn default_user_info_has_empty_texts_and_epoch_dates() {
    let d = DbUserInfo::default();
    assert_eq!(d.userid, 0);
    assert_eq!(d.email, empty());
    assert_eq!(d.firstname, empty());
    assert_eq!(d.lastname, empty());
    assert!(!d.active);
    assert_eq!(d.created_date, 0);
    assert_eq!(d.modified_date, 0);
    let u = UserInfo::default();
    assert_eq!(u.userid, 0);
    assert_eq!(u.email, empty());
    assert!(!u.active);
    assert_eq!(u.modified_date, 0);
}

#[test]
fn default_requests() {
    let l = UserLoginRequest::default();
    assert_eq!(l.email, empty());
    assert_eq!(l.password_hash, empty());
    let c = CreateUserRequest::default();
    assert_eq!(c.email, empty());
    assert_eq!(c.password_hash, empty());
    assert_eq!(c.firstname, empty());
    assert_eq!(c.lastname, empty());
    let s = CreateStoreUserRequest::default();
    assert_eq!(s.email, empty());
    assert_eq!(s.lastname, empty());
    let m = CreateMenuRequest::default();
    assert_eq!(m.store_id, 0);
    assert_eq!(m.name, None);
    assert_eq!(m.size, None);
    assert_eq!(m.cost, None);
    let o = CreateOrUpdateMenuOptionRequest::default();
    assert_eq!(o.store_id, 0);
    assert!(o.options.is_empty());
}

#[test]
fn default_responses() {
    assert_eq!(CreateUserResponse::default().email_auth_token, empty());
    assert_eq!(
        UserLoginResponse::default(),
        UserLoginResponse { access_code: 0, refresh_code: 0, userid: 0 }
    );
    let m = MenuResponse::default();
    assert_eq!(m.store_id, 0);
    assert!(m.items.is_empty());
    assert!(m.options.is_empty());
}
