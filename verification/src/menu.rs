//! Store menus: the rows written for new items and options, and the menu
//! read back from the item and option tables.
use vstd::prelude::*;
use vstd::string::*;
use crate::ids::{is_random_id, new_random_id, now_seconds};
use crate::model::{clone_text, CreateMenuRequest, CreateOrUpdateMenuOptionRequest, DbMenuItem, DbMenuOption, MenuResponse};
use crate::rows::{first_row_error, locating_error, locating_error_text, lemma_first_row_error_prefix, lemma_first_row_error_step, row_count, rows_error};
use crate::text::{comma_pieces, field_text, join_commas, lemma_comma_pieces_rejoin, lemma_comma_pieces_single, option_text, split_commas};

verus! {

/// Values bound to the menu-item insert, in the statement's column order.
pub struct MenuItemRow {
    pub store_id: u128,
    pub item_id: u128,
    pub item_name: Option<String>,
    pub item_desc: Option<String>,
    pub item_size: String,
    pub item_temp: String,
    pub item_cost: Option<i32>,
    pub created_date: i64,
    pub modified_date: i64,
}

/// Values bound to the menu-option insert, in the statement's column order.
pub struct MenuOptionRow {
    pub store_id: u128,
    pub option_id: u128,
    pub option_name: Option<String>,
    pub option_cost: Option<i32>,
    pub created_date: i64,
    pub modified_date: i64,
}

/// A row of the menu-item table as read back, every column present.
pub struct MenuItemRecord {
    pub store_id: u128,
    pub item_id: u128,
    pub item_name: String,
    pub item_desc: String,
    pub item_size: String,
    pub item_temp: String,
    pub item_cost: i32,
    pub created_date: i64,
    pub modified_date: i64,
}

/// A row of the menu-option table as read back, every column present.
pub struct MenuOptionRecord {
    pub store_id: u128,
    pub option_id: u128,
    pub option_name: String,
    pub option_cost: i32,
    pub created_date: i64,
    pub modified_date: i64,
}

/// `row` is the insert for `item` under the id `item_id`, stamped `now`:
/// the size and temperature are stored as their text (empty when absent).
pub open spec fn is_menu_item_row(item: CreateMenuRequest, item_id: u128, now: i64, row: MenuItemRow) -> bool {
    &&& row.store_id == item.store_id
    &&& row.item_id == item_id
    &&& row.item_name == item.name
    &&& row.item_desc == item.desc
    &&& row.item_size@ == option_text(item.size)
    &&& row.item_temp@ == option_text(item.temp)
    &&& row.item_cost == item.cost
    &&& row.created_date == now
    &&& row.modified_date == now
}

/// `row` is the insert for `option` of store `store_id` under `option_id`, stamped `now`.
pub open spec fn is_menu_option_row(store_id: u128, option: DbMenuOption, option_id: u128, now: i64, row: MenuOptionRow) -> bool {
    &&& row.store_id == store_id
    &&& row.option_id == option_id
    &&& row.option_name == option.name
    &&& row.option_cost == option.cost
    &&& row.created_date == now
    &&& row.modified_date == now
}

/// `item` is what the service makes of the record `r`: the sizes and
/// temperatures are the comma-separated pieces of the stored texts.
pub open spec fn is_item_of_record(item: DbMenuItem, r: MenuItemRecord) -> bool {
    &&& item.item_id == r.item_id
    &&& item.item_name == Some(r.item_name)
    &&& item.item_desc == Some(r.item_desc)
    &&& item.item_size.deep_view() == comma_pieces(r.item_size@)
    &&& item.item_temp.deep_view() == comma_pieces(r.item_temp@)
    &&& item.item_cost == Some(r.item_cost)
}

/// `option` is what the service makes of the record `r`.
pub open spec fn is_option_of_record(option: DbMenuOption, r: MenuOptionRecord) -> bool {
    &&& option.name == Some(r.option_name)
    &&& option.cost == Some(r.option_cost)
}

/// `r` is the menu read from the item rows and the option rows that the two
/// queries returned: the first row that failed to convert (items before
/// options) makes it fail with its error text; otherwise every row, in order.
pub open spec fn is_menu_of_rows(
    store_id: u128,
    items: Option<Vec<Result<MenuItemRecord, String>>>,
    options: Option<Vec<Result<MenuOptionRecord, String>>>,
    r: Result<MenuResponse, String>,
) -> bool {
    &&& (r is Err <==> (rows_error(items) is Some || rows_error(options) is Some))
    &&& (r matches Err(m) ==> m@ == locating_error_text(
        if rows_error(items) is Some {
            rows_error(items)->0
        } else {
            rows_error(options)->0
        },
    ))
    &&& (r matches Ok(menu) ==> {
        &&& menu.store_id == store_id
        &&& menu.items@.len() == row_count(items)
        &&& forall|i: int|
            0 <= i < menu.items@.len() ==> is_item_of_record(
                #[trigger] menu.items@[i],
                items->0@[i]->Ok_0,
            )
        &&& menu.options@.len() == row_count(options)
        &&& forall|i: int|
            0 <= i < menu.options@.len() ==> is_option_of_record(
                #[trigger] menu.options@[i],
                options->0@[i]->Ok_0,
            )
    })
}

/// The insert for a new menu item with the given id and time.
pub fn menu_item_row(item: &CreateMenuRequest, item_id: u128, now: i64) -> (row: MenuItemRow)
    ensures
        is_menu_item_row(*item, item_id, now, row),
{
    MenuItemRow {
        store_id: item.store_id,
        item_id,
        item_name: clone_text(&item.name),
        item_desc: clone_text(&item.desc),
        item_size: field_text(&item.size),
        item_temp: field_text(&item.temp),
        item_cost: item.cost,
        created_date: now,
        modified_date: now,
    }
}

/// The insert for a new menu item: a fresh random id, stamped with the
/// current time.
pub fn prepare_menu_item(item: &CreateMenuRequest) -> (row: MenuItemRow)
    ensures
        is_menu_item_row(*item, row.item_id, row.created_date, row),
        is_random_id(row.item_id),
        row.created_date >= 0,
{
    let item_id = new_random_id();
    let now = now_seconds();
    menu_item_row(item, item_id, now)
}

/// The inserts for a request's options, one per option in order, under the
/// given ids and time.
pub fn menu_option_rows(req: &CreateOrUpdateMenuOptionRequest, option_ids: &Vec<u128>, now: i64) -> (rows: Vec<MenuOptionRow>)
    requires
        option_ids@.len() == req.options@.len(),
    ensures
        rows@.len() == req.options@.len(),
        forall|i: int|
            0 <= i < rows@.len() ==> is_menu_option_row(
                req.store_id,
                req.options@[i],
                option_ids@[i],
                now,
                #[trigger] rows@[i],
            ),
{
    let mut rows: Vec<MenuOptionRow> = Vec::new();
    let n = req.options.len();
    for i in 0..n
        invariant
            n == req.options@.len(),
            option_ids@.len() == n,
            rows@.len() == i,
            forall|j: int|
                0 <= j < i ==> is_menu_option_row(
                    req.store_id,
                    req.options@[j],
                    option_ids@[j],
                    now,
                    #[trigger] rows@[j],
                ),
    {
        let opt = &req.options[i];
        rows.push(
            MenuOptionRow {
                store_id: req.store_id,
                option_id: option_ids[i],
                option_name: clone_text(&opt.name),
                option_cost: opt.cost,
                created_date: now,
                modified_date: now,
            },
        );
    }
    rows
}

/// The inserts for a request's options: each option gets its own fresh
/// random id; all are stamped with one reading of the clock.
pub fn prepare_menu_options(req: &CreateOrUpdateMenuOptionRequest) -> (rows: Vec<MenuOptionRow>)
    ensures
        rows@.len() == req.options@.len(),
        forall|i: int|
            0 <= i < rows@.len() ==> is_menu_option_row(
                req.store_id,
                req.options@[i],
                rows@[i].option_id,
                rows@[0].created_date,
                #[trigger] rows@[i],
            ),
        forall|i: int| 0 <= i < rows@.len() ==> is_random_id(#[trigger] rows@[i].option_id),
        rows@.len() > 0 ==> rows@[0].created_date >= 0,
{
    let now = now_seconds();
    let mut ids: Vec<u128> = Vec::new();
    let n = req.options.len();
    for i in 0..n
        invariant
            ids@.len() == i,
            forall|j: int| 0 <= j < i ==> is_random_id(#[trigger] ids@[j]),
    {
        ids.push(new_random_id());
    }
    let rows = menu_option_rows(req, &ids, now);
    rows
}

/// The item that the service makes of a menu-item record.
pub fn menu_item_from_record(r: &MenuItemRecord) -> (item: DbMenuItem)
    ensures
        is_item_of_record(item, *r),
{
    DbMenuItem {
        item_id: r.item_id,
        item_name: Some(r.item_name.clone()),
        item_desc: Some(r.item_desc.clone()),
        item_size: split_commas(r.item_size.as_str()),
        item_temp: split_commas(r.item_temp.as_str()),
        item_cost: Some(r.item_cost),
    }
}

/// A store's menu from the item rows and the option rows that the two
/// queries returned, each in order. The first row that failed to convert
/// (items before options) makes the whole read fail with its error text.
pub fn menu_from_rows(
    store_id: u128,
    items: &Option<Vec<Result<MenuItemRecord, String>>>,
    options: &Option<Vec<Result<MenuOptionRecord, String>>>,
) -> (r: Result<MenuResponse, String>)
    ensures
        is_menu_of_rows(store_id, *items, *options, r),
{
    let mut menu_items: Vec<DbMenuItem> = Vec::new();
    let mut menu_options: Vec<DbMenuOption> = Vec::new();
    if let Some(rows) = items {
        let n = rows.len();
        for i in 0..n
            invariant
                n == rows@.len(),
                *items == Some(*rows),
                menu_items@.len() == i,
                first_row_error(rows@.take(i as int)) is None,
                forall|j: int|
                    0 <= j < i ==> is_item_of_record(#[trigger] menu_items@[j], rows@[j]->Ok_0),
        {
            proof {
                lemma_first_row_error_step(rows@, i as int);
            }
            match &rows[i] {
                Ok(rec) => {
                    menu_items.push(menu_item_from_record(rec));
                },
                Err(e) => {
                    proof {
                        lemma_first_row_error_prefix(rows@, i as int + 1);
                    }
                    return Err(locating_error(e));
                },
            }
        }
        assert(rows@.take(n as int) =~= rows@);
    }
    if let Some(rows) = options {
        let n = rows.len();
        for i in 0..n
            invariant
                n == rows@.len(),
                *options == Some(*rows),
                rows_error(*items) is None,
                menu_options@.len() == i,
                first_row_error(rows@.take(i as int)) is None,
                forall|j: int|
                    0 <= j < i ==> is_option_of_record(#[trigger] menu_options@[j], rows@[j]->Ok_0),
        {
            proof {
                lemma_first_row_error_step(rows@, i as int);
            }
            match &rows[i] {
                Ok(rec) => {
                    menu_options.push(DbMenuOption { name: Some(rec.option_name.clone()), cost: Some(rec.option_cost) });
                },
                Err(e) => {
                    proof {
                        lemma_first_row_error_prefix(rows@, i as int + 1);
                    }
                    return Err(locating_error(e));
                },
            }
        }
        assert(rows@.take(n as int) =~= rows@);
    }
    Ok(MenuResponse { store_id, items: menu_items, options: menu_options })
}

/// What a read gives back of a written menu item. When the item was sent
/// with a name, a description and a price, the record that the table returns
/// for the written row is read as that item: same id, name, description and
/// price. Its sizes (and temperatures) are the comma-separated pieces of the
/// text that was stored, which join back to it; a size without commas comes
/// back as a single piece, and an absent one as a single empty piece.
pub proof fn lemma_menu_item_read_back(
    req: CreateMenuRequest,
    row: MenuItemRow,
    rec: MenuItemRecord,
    item: DbMenuItem,
)
    requires
        is_menu_item_row(req, row.item_id, row.created_date, row),
        req.name == Some(rec.item_name),
        req.desc == Some(rec.item_desc),
        req.cost == Some(rec.item_cost),
        rec.item_id == row.item_id,
        rec.item_size@ == row.item_size@,
        rec.item_temp@ == row.item_temp@,
        is_item_of_record(item, rec),
    ensures
        item.item_id == row.item_id,
        item.item_name == req.name,
        item.item_desc == req.desc,
        item.item_cost == req.cost,
        join_commas(item.item_size.deep_view()) == option_text(req.size),
        join_commas(item.item_temp.deep_view()) == option_text(req.temp),
        !option_text(req.size).contains(',') ==> item.item_size.deep_view() == seq![option_text(req.size)],
        !option_text(req.temp).contains(',') ==> item.item_temp.deep_view() == seq![option_text(req.temp)],
{
    lemma_comma_pieces_rejoin(option_text(req.size));
    lemma_comma_pieces_rejoin(option_text(req.temp));
    if !option_text(req.size).contains(',') {
        lemma_comma_pieces_single(option_text(req.size));
    }
    if !option_text(req.temp).contains(',') {
        lemma_comma_pieces_single(option_text(req.temp));
    }
}

} // verus!
