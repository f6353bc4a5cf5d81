use store_service::menu::{
    menu_from_rows, menu_item_from_record, menu_item_row, menu_option_rows, prepare_menu_item,
    prepare_menu_options, MenuItemRecord, MenuOptionRecord,
};
use store_service::model::{CreateMenuRequest, CreateOrUpdateMenuOptionRequest, DbMenuOption};
use store_service::rows::rows_or_error;
use store_service::stores::{nearby_cells, new_store_stamp};
use store_service::text::{field_text, split_commas};

fn is_v4(id: u128) -> bool {
    (id >> 76) & 0xF == 4 && (id >> 62) & 0x3 == 2
}

fn strings(v: &[&str]) -> Vec<String> {
    v.iter().map(|s| s.to_string()).collect()
}

fn request() -> CreateMenuRequest {
    CreateMenuRequest {
        store_id: 7,
        name: Some("latte".to_string()),
        desc: Some("milk coffee".to_string()),
        size: Some("small,large".to_string()),
        temp: None,
        cost: Some(450),
    }
}

fn record(size: &str, temp: &str) -> MenuItemRecord {
    MenuItemRecord {
        store_id: 7,
        item_id: 11,
        item_name: "latte".to_string(),
        item_desc: "milk coffee".to_string(),
        item_size: size.to_string(),
        item_temp: temp.to_string(),
        item_cost: 450,
        created_date: 100,
        modified_date: 100,
    }
}

#[test]
fn split_commas_matches_str_split() {
    assert_eq!(split_commas(""), strings(&[""]));
    assert_eq!(split_commas("small"), strings(&["small"]));
    assert_eq!(split_commas("small,large"), strings(&["small", "large"]));
    assert_eq!(split_commas("a,"), strings(&["a", ""]));
    assert_eq!(split_commas(",,"), strings(&["", "", ""]));
    assert_eq!(split_commas("hot,iced,warm"), strings(&["hot", "iced", "warm"]));
}

#[test]
fn split_commas_rejoins() {
    for s in ["", "a", "a,b", ",x,", "é,ü"] {
        assert_eq!(split_commas(s).join(","), s);
    }
}

#[test]
fn field_text_of_absent_field_is_empty() {
    assert_eq!(field_text(&None), "");
    assert_eq!(field_text(&Some("hot".to_string())), "hot");
}

#[test]
fn menu_item_row_binds_request() {
    let row = menu_item_row(&request(), 11, 100);
    assert_eq!(row.store_id, 7);
    assert_eq!(row.item_id, 11);
    assert_eq!(row.item_name, Some("latte".to_string()));
    assert_eq!(row.item_desc, Some("milk coffee".to_string()));
    assert_eq!(row.item_size, "small,large");
    assert_eq!(row.item_temp, "");
    assert_eq!(row.item_cost, Some(450));
    assert_eq!(row.created_date, 100);
    assert_eq!(row.modified_date, 100);
}

#[test]
fn prepare_menu_item_uses_fresh_random_id() {
    let a = prepare_menu_item(&request());
    let b = prepare_menu_item(&request());
    assert!(is_v4(a.item_id));
    assert!(is_v4(b.item_id));
    assert_ne!(a.item_id, b.item_id);
    assert!(a.created_date > 0);
    assert_eq!(a.created_date, a.modified_date);
    assert_eq!(a.item_size, "small,large");
}

#[test]
fn option_rows_follow_request_order() {
    let req = CreateOrUpdateMenuOptionRequest {
        store_id: 9,
        options: vec![
            DbMenuOption { name: Some("shot".to_string()), cost: Some(50) },
            DbMenuOption { name: None, cost: None },
        ],
    };
    let rows = menu_option_rows(&req, &vec![1, 2], 30);
    assert_eq!(rows.len(), 2);
    assert_eq!(rows[0].store_id, 9);
    assert_eq!(rows[0].option_id, 1);
    assert_eq!(rows[0].option_name, Some("shot".to_string()));
    assert_eq!(rows[0].option_cost, Some(50));
    assert_eq!(rows[1].option_id, 2);
    assert_eq!(rows[1].option_name, None);
    assert_eq!(rows[1].created_date, 30);
    let fresh = prepare_menu_options(&req);
    assert_eq!(fresh.len(), 2);
    assert!(is_v4(fresh[0].option_id) && is_v4(fresh[1].option_id));
    assert_ne!(fresh[0].option_id, fresh[1].option_id);
    assert_eq!(fresh[0].created_date, fresh[1].created_date);
    assert!(prepare_menu_options(&CreateOrUpdateMenuOptionRequest::default()).is_empty());
}

#[test]
fn item_from_record_splits_lists() {
    let item = menu_item_from_record(&record("small,large", "hot"));
    assert_eq!(item.item_id, 11);
    assert_eq!(item.item_name, Some("latte".to_string()));
    assert_eq!(item.item_desc, Some("milk coffee".to_string()));
    assert_eq!(item.item_size, strings(&["small", "large"]));
    assert_eq!(item.item_temp, strings(&["hot"]));
    assert_eq!(item.item_cost, Some(450));
}

#[test]
fn menu_item_read_back_scenario() {
    let req = request();
    let row = menu_item_row(&req, 11, 100);
    let rec = record(&row.item_size, &row.item_temp);
    let item = menu_item_from_record(&rec);
    assert_eq!(item.item_name, req.name);
    assert_eq!(item.item_size.join(","), "small,large");
    assert_eq!(item.item_temp, strings(&[""]));
}

#[test]
fn menu_from_rows_reads_items_and_options() {
    let items = Some(vec![Ok(record("s", "hot")), Ok(record("m,l", "iced"))]);
    let options = Some(vec![Ok(MenuOptionRecord {
        store_id: 7,
        option_id: 3,
        option_name: "syrup".to_string(),
        option_cost: 60,
        created_date: 1,
        modified_date: 1,
    })]);
    let menu = menu_from_rows(7, &items, &options).unwrap();
    assert_eq!(menu.store_id, 7);
    assert_eq!(menu.items.len(), 2);
    assert_eq!(menu.items[1].item_size, strings(&["m", "l"]));
    assert_eq!(menu.options, vec![DbMenuOption { name: Some("syrup".to_string()), cost: Some(60) }]);
    let none = menu_from_rows(5, &None, &None).unwrap();
    assert_eq!(none.store_id, 5);
    assert!(none.items.is_empty() && none.options.is_empty());
}

#[test]
fn menu_from_rows_reports_first_bad_row() {
    let items = Some(vec![Ok(record("s", "hot")), Err("bad item".to_string()), Err("later".to_string())]);
    let options: Option<Vec<Result<MenuOptionRecord, String>>> = Some(vec![Err("bad option".to_string())]);
    assert_eq!(
        menu_from_rows(7, &items, &options),
        Err("Error locating stores. bad item".to_string())
    );
    let good_items = Some(vec![Ok(record("s", "hot"))]);
    assert_eq!(
        menu_from_rows(7, &good_items, &options),
        Err("Error locating stores. bad option".to_string())
    );
}

#[test]
fn rows_or_error_keeps_order_or_fails() {
    let ok: Option<Vec<Result<i32, String>>> = Some(vec![Ok(1), Ok(2), Ok(3)]);
    assert_eq!(rows_or_error(ok), Ok(vec![1, 2, 3]));
    let bad: Option<Vec<Result<i32, String>>> = Some(vec![Ok(1), Err("x".to_string()), Err("y".to_string())]);
    assert_eq!(rows_or_error(bad), Err("Error locating stores. x".to_string()));
    assert_eq!(rows_or_error::<i32>(None), Ok(vec![]));
}

#[test]
fn nearby_cells_around_a_point() {
    assert_eq!(nearby_cells(37), (36, 37, 38));
    assert_eq!(nearby_cells(-122), (-123, -122, -121));
}

#[test]
fn store_stamp_is_fresh() {
    let s = new_store_stamp();
    assert!(is_v4(s.store_id));
    assert_eq!(s.created_date, s.modified_date);
    assert!(s.created_date > 0);
}

#[test]
fn menu_options_read_back_scenario() {
    let req = CreateOrUpdateMenuOptionRequest {
        store_id: 9,
        options: vec![
            DbMenuOption { name: Some("shot".to_string()), cost: Some(50) },
            DbMenuOption { name: Some("syrup".to_string()), cost: Some(60) },
        ],
    };
    let rows = menu_option_rows(&req, &vec![1, 2], 30);
    // The table keeps one row per store: the last one written.
    let kept = &rows[1];
    let record = MenuOptionRecord {
        store_id: kept.store_id,
        option_id: kept.option_id,
        option_name: kept.option_name.clone().unwrap(),
        option_cost: kept.option_cost.unwrap(),
        created_date: kept.created_date,
        modified_date: kept.modified_date,
    };
    let menu = menu_from_rows(9, &Some(vec![]), &Some(vec![Ok(record)])).unwrap();
    assert_eq!(menu.options.len(), 1);
    assert!(req.options.contains(&menu.options[0]));
}
