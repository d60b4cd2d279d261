use crud_auth::db::Database;
use crud_auth::items::{
    create_item, delete_item, edit_item_form, list_items, new_item_form, prepare_item,
    update_item, validate_item_form, ItemError, ItemResponse,
};
use crud_auth::models::{CreateItem, ItemForm, UserInfo};

const AT: &str = "2024-01-01 00:00:00";

fn setup_user(db: &mut Database, name: &str) -> UserInfo {
    let u = db
        .create_user(name, &format!("{}@example.com", name), "hash", AT)
        .expect("create user");
    UserInfo::from(u)
}

fn location(r: &ItemResponse) -> Option<&str> {
    match r {
        ItemResponse::Redirect(l) => Some(l.as_str()),
        _ => None,
    }
}

fn form(title: &str, description: Option<&str>) -> ItemForm {
    ItemForm { title: title.to_string(), description: description.map(|d| d.to_string()) }
}

#[test]
fn list_items_requires_auth() {
    let db = Database::new();
    let r = list_items(&db, None);
    assert_eq!(location(&r), Some("/login"));
    assert_eq!(location(&new_item_form(None)), Some("/login"));
}

#[test]
fn list_items_returns_ok_for_authenticated_user() {
    let mut db = Database::new();
    let user = setup_user(&mut db, "user");
    db.create_item(
        CreateItem { user_id: user.id, title: "Item".to_string(), description: None },
        AT,
    )
    .expect("create item");
    match list_items(&db, Some(&user)) {
        ItemResponse::List { items } => {
            assert_eq!(items.len(), 1);
            assert_eq!(items[0].title, "Item");
        }
        _ => panic!("expected the list"),
    }
}

#[test]
fn create_item_validates_title() {
    let mut db = Database::new();
    let user = setup_user(&mut db, "user");
    let r = create_item(&mut db, Some(&user), &form("", None), AT);
    match r {
        ItemResponse::Form { item: None, error: Some(e) } => assert_eq!(e, "Title is required"),
        _ => panic!("expected the form again"),
    }
    assert!(db.get_user_items(user.id).is_empty());
    let blank = create_item(&mut db, Some(&user), &form("   ", None), AT);
    assert!(matches!(blank, ItemResponse::Form { item: None, error: Some(_) }));
    assert!(db.get_user_items(user.id).is_empty());
    assert_eq!(validate_item_form(&form(" \t ", None)), Err(ItemError::TitleRequired));
    assert_eq!(validate_item_form(&form(&format!("  {}  ", "x".repeat(200)), None)), Ok(()));
    let long = "x".repeat(201);
    assert_eq!(validate_item_form(&form(&long, None)), Err(ItemError::TitleTooLong));
    assert_eq!(validate_item_form(&form(&"x".repeat(200), None)), Ok(()));
}

#[test]
fn create_item_redirects_on_success() {
    let mut db = Database::new();
    let user = setup_user(&mut db, "user");
    let r = create_item(&mut db, Some(&user), &form("New", Some("Desc")), AT);
    assert_eq!(location(&r), Some("/items?success=created"));
    let items = db.get_user_items(user.id);
    assert_eq!(items.len(), 1);
    assert_eq!(items[0].user_id, user.id);
}

#[test]
fn prepare_item_trims_and_drops_blank_description() {
    let c = prepare_item(&form("  Title  ", Some("  body \n")), 3).expect("valid");
    assert_eq!((c.user_id, c.title.as_str()), (3, "Title"));
    assert_eq!(c.description.as_deref(), Some("body"));
    let c = prepare_item(&form("T", Some("   ")), 3).expect("valid");
    assert_eq!(c.description, None);
    let c = prepare_item(&form("T", None), 3).expect("valid");
    assert_eq!(c.description, None);
    assert_eq!(prepare_item(&form("", None), 3).err(), Some(ItemError::TitleRequired));
}

#[test]
fn edit_item_form_redirects_when_missing() {
    let mut db = Database::new();
    let user = setup_user(&mut db, "user");
    let r = edit_item_form(&db, Some(&user), 999);
    assert_eq!(location(&r), Some("/items?error=not_found"));
}

#[test]
fn update_item_redirects_when_missing() {
    let mut db = Database::new();
    let user = setup_user(&mut db, "user");
    let r = update_item(&mut db, Some(&user), 999, &form("Title", None), AT);
    assert_eq!(location(&r), Some("/items?error=not_found"));
}

#[test]
fn delete_item_redirects_on_success() {
    let mut db = Database::new();
    let user = setup_user(&mut db, "user");
    let item = db
        .create_item(
            CreateItem { user_id: user.id, title: "Delete".to_string(), description: None },
            AT,
        )
        .expect("create item");
    let r = delete_item(&mut db, Some(&user), item.id);
    assert_eq!(location(&r), Some("/items?success=deleted"));
    assert!(db.get_item(item.id, user.id).is_none());
}

#[test]
fn other_account_gets_not_found_owner_succeeds() {
    let mut db = Database::new();
    let alice = setup_user(&mut db, "alice");
    let bob = setup_user(&mut db, "bob");
    let r = create_item(&mut db, Some(&alice), &form("Secret", Some("plans")), AT);
    assert_eq!(location(&r), Some("/items?success=created"));
    let id = db.get_user_items(alice.id)[0].id;

    assert_eq!(location(&edit_item_form(&db, Some(&bob), id)), Some("/items?error=not_found"));
    assert_eq!(
        location(&update_item(&mut db, Some(&bob), id, &form("Mine", None), AT)),
        Some("/items?error=not_found")
    );
    assert_eq!(location(&delete_item(&mut db, Some(&bob), id)), Some("/items?error=not_found"));
    assert_eq!(db.get_item(id, alice.id).expect("untouched").title, "Secret");

    match edit_item_form(&db, Some(&alice), id) {
        ItemResponse::Form { item: Some(it), error: None } => assert_eq!(it.title, "Secret"),
        _ => panic!("expected the edit form"),
    }
    assert_eq!(
        location(&update_item(&mut db, Some(&alice), id, &form(" Renamed ", Some(" ")), "later")),
        Some("/items?success=updated")
    );
    let it = db.get_item(id, alice.id).expect("still there");
    assert_eq!((it.title.as_str(), it.description.clone(), it.updated_at.as_str()), ("Renamed", None, "later"));
    assert_eq!(location(&delete_item(&mut db, Some(&alice), id)), Some("/items?success=deleted"));
    assert!(db.get_user_items(alice.id).is_empty());
}

#[test]
fn update_with_bad_title_shows_form_with_item() {
    let mut db = Database::new();
    let user = setup_user(&mut db, "user");
    let it = db
        .create_item(CreateItem { user_id: user.id, title: "Keep".to_string(), description: None }, AT)
        .unwrap();
    match update_item(&mut db, Some(&user), it.id, &form("", None), AT) {
        ItemResponse::Form { item: Some(i), error: Some(e) } => {
            assert_eq!(i.title, "Keep");
            assert_eq!(e, "Title is required");
        }
        _ => panic!("expected the form again"),
    }
}
