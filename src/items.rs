use crate::db::{edited_from, get_spec, owned_index, owned_by_stamp, text_opt, Database};
use crate::models::{CreateItem, Item, ItemForm, UserInfo};
use vstd::prelude::*;
use vstd::string::*;

verus! {

/// Whether a character has the Unicode `White_Space` property.
pub open spec fn is_space(c: char) -> bool {
    let n = c as u32;
    (9 <= n <= 13) || n == 32 || n == 0x85 || n == 0xA0 || n == 0x1680 || (0x2000 <= n <= 0x200A)
        || n == 0x2028 || n == 0x2029 || n == 0x202F || n == 0x205F || n == 0x3000
}

/// The text without its trailing whitespace.
pub open spec fn trimmed_end(s: Seq<char>) -> Seq<char>
    decreases s.len(),
{
    if s.len() > 0 && is_space(s.last()) {
        trimmed_end(s.drop_last())
    } else {
        s
    }
}

/// The text without its leading and trailing whitespace.
pub open spec fn trimmed(s: Seq<char>) -> Seq<char>
    decreases s.len(),
{
    if s.len() > 0 && is_space(s[0]) {
        trimmed(s.drop_first())
    } else {
        trimmed_end(s)
    }
}

/// Relies on std's `str::trim`: the text without leading and trailing
/// whitespace, whitespace being the Unicode `White_Space` property.
#[verifier::external_body]
fn trim_text(s: &str) -> (r: &str)
    ensures
        r@ == trimmed(s@),
{
    s.trim()
}

/// Why an item form was refused.
#[derive(Debug, PartialEq, Eq, Structural)]
pub enum ItemError {
    TitleRequired,
    TitleTooLong,
}

impl ItemError {
    /// The message shown to the user.
    pub fn message(&self) -> (r: &'static str)
        ensures
            r@ == item_message(*self),
    {
        match self {
            ItemError::TitleRequired => "Title is required",
            ItemError::TitleTooLong => "Title must be 200 characters or less",
        }
    }
}

/// The message shown for each item form refusal.
pub open spec fn item_message(e: ItemError) -> Seq<char> {
    match e {
        ItemError::TitleRequired => "Title is required"@,
        ItemError::TitleTooLong => "Title must be 200 characters or less"@,
    }
}

/// The title, trimmed, has 1 to 200 characters.
pub open spec fn title_check(title: Seq<char>) -> Result<(), ItemError> {
    if title.len() < 1 {
        Err(ItemError::TitleRequired)
    } else if title.len() > 200 {
        Err(ItemError::TitleTooLong)
    } else {
        Ok(())
    }
}

/// A description is stored trimmed, and a blank one not at all.
pub open spec fn clean_description(d: Option<Seq<char>>) -> Option<Seq<char>> {
    match d {
        Some(s) => if trimmed(s).len() == 0 {
            None
        } else {
            Some(trimmed(s))
        },
        None => None,
    }
}

/// Checks the title of an item form, once trimmed.
pub fn validate_item_form(form: &ItemForm) -> (r: Result<(), ItemError>)
    ensures
        r == title_check(trimmed(form.title@)),
{
    let n = trim_text(form.title.as_str()).unicode_len();
    if n < 1 {
        Err(ItemError::TitleRequired)
    } else if n > 200 {
        Err(ItemError::TitleTooLong)
    } else {
        Ok(())
    }
}

/// The description to store: trimmed, and none where it is blank.
pub fn clean_item_description(description: &Option<String>) -> (r: Option<String>)
    ensures
        text_opt(r) == clean_description(text_opt(*description)),
{
    match description {
        Some(d) => {
            let t = trim_text(d.as_str());
            if t.unicode_len() == 0 {
                None
            } else {
                Some(t.to_owned())
            }
        },
        None => None,
    }
}

/// The item to create from a valid form, for the given owner: title and
/// description trimmed, a blank description dropped.
pub fn prepare_item(form: &ItemForm, user_id: i64) -> (r: Result<CreateItem, ItemError>)
    ensures
        match title_check(trimmed(form.title@)) {
            Err(e) => r == Err::<CreateItem, ItemError>(e),
            Ok(()) => r matches Ok(c) && c.user_id == user_id && c.title@ == trimmed(form.title@)
                && text_opt(c.description) == clean_description(text_opt(form.description)),
        },
{
    match validate_item_form(form) {
        Err(e) => Err(e),
        Ok(()) => Ok(
            CreateItem {
                user_id,
                title: trim_text(form.title.as_str()).to_owned(),
                description: clean_item_description(&form.description),
            },
        ),
    }
}

/// What an item request leads to.
pub enum ItemResponse {
    /// A redirect to this location.
    Redirect(String),
    /// The item form, with the item being edited and an error, where there are.
    Form { item: Option<Item>, error: Option<String> },
    /// The list of the account's items.
    List { items: Vec<Item> },
}

/// Whether the response redirects to this location.
pub open spec fn redirects_to(r: ItemResponse, location: Seq<char>) -> bool {
    r matches ItemResponse::Redirect(l) && l@ == location
}

fn redirect(location: &str) -> (r: ItemResponse)
    ensures
        redirects_to(r, location@),
{
    ItemResponse::Redirect(String::from_str(location))
}

/// The item list of the signed-in account, latest creation stamp first; anonymous visitors
/// are sent to the login page.
pub fn list_items(db: &Database, user: Option<&UserInfo>) -> (r: ItemResponse)
    ensures
        user is None ==> redirects_to(r, "/login"@),
        user matches Some(u) ==> r matches ItemResponse::List { items } && items@ == owned_by_stamp(
            db.items(),
            u.id,
        ),
{
    match user {
        None => redirect("/login"),
        Some(u) => ItemResponse::List { items: db.get_user_items(u.id) },
    }
}

/// The empty item form; anonymous visitors are sent to the login page.
pub fn new_item_form(user: Option<&UserInfo>) -> (r: ItemResponse)
    ensures
        user is None ==> redirects_to(r, "/login"@),
        user is Some ==> r matches ItemResponse::Form { item: None, error: None },
{
    match user {
        None => redirect("/login"),
        Some(_) => ItemResponse::Form { item: None, error: None },
    }
}

/// Creates an item owned by the signed-in account.
pub fn create_item(db: &mut Database, user: Option<&UserInfo>, form: &ItemForm, at: &str) -> (r: ItemResponse)
    ensures
        final(db).users() == old(db).users(),
        user is None ==> redirects_to(r, "/login"@) && final(db).items() == old(db).items(),
        user is Some && title_check(trimmed(form.title@)) is Err ==> final(db).items() == old(db).items() && (r matches ItemResponse::Form { item: None, error: Some(e) } && e@ == item_message(title_check(trimmed(form.title@))->Err_0)),
        final(db).user_id_counter() == old(db).user_id_counter(),
        final(db).items().len() == old(db).items().len() ==> final(db).item_id_counter() == old(db).item_id_counter(),
        user is Some && title_check(trimmed(form.title@)) is Ok && old(db).item_ids_left() && old(
            db,
        ).has_user_id(user->0.id) ==> redirects_to(r, "/items?success=created"@) && exists|it: Item| {
            &&& final(db).items() == old(db).items().push(it)
            &&& it.id == old(db).item_id_counter()
            &&& final(db).item_id_counter() == old(db).item_id_counter() + 1
            &&& it.user_id == user->0.id
            &&& it.title@ == trimmed(form.title@)
            &&& text_opt(it.description) == clean_description(text_opt(form.description))
        },
        !old(db).item_ids_left() ==> final(db).items() == old(db).items(),
        user is Some && !old(db).has_user_id(user->0.id) ==> final(db).items() == old(db).items(),
{
    let u = match user {
        None => {
            return redirect("/login");
        },
        Some(u) => u,
    };
    let item = match prepare_item(form, u.id) {
        Err(e) => {
            return ItemResponse::Form { item: None, error: Some(String::from_str(e.message())) };
        },
        Ok(c) => c,
    };
    match db.create_item(item, at) {
        Some(_) => redirect("/items?success=created"),
        None => ItemResponse::Form { item: None, error: Some(String::from_str("Failed to create item")) },
    }
}

/// The edit form of an item of the signed-in account. An item of another
/// account and a missing one alike send the visitor back to the list.
pub fn edit_item_form(db: &Database, user: Option<&UserInfo>, id: i64) -> (r: ItemResponse)
    ensures
        user is None ==> redirects_to(r, "/login"@),
        user matches Some(u) ==> match get_spec(db.items(), id, u.id) {
            Some(it) => r matches ItemResponse::Form { item: Some(i), error: None } && i == it,
            None => redirects_to(r, "/items?error=not_found"@),
        },
{
    match user {
        None => redirect("/login"),
        Some(u) => match db.get_item(id, u.id) {
            Some(it) => ItemResponse::Form { item: Some(it), error: None },
            None => redirect("/items?error=not_found"),
        },
    }
}

/// Updates an item of the signed-in account. An item of another account and
/// a missing one alike are left alone and answered with not-found.
pub fn update_item(db: &mut Database, user: Option<&UserInfo>, id: i64, form: &ItemForm, at: &str) -> (r: ItemResponse)
    ensures
        final(db).users() == old(db).users(),
        final(db).user_id_counter() == old(db).user_id_counter(),
        final(db).item_id_counter() == old(db).item_id_counter(),
        user is None ==> redirects_to(r, "/login"@) && final(db).items() == old(db).items(),
        user is Some && title_check(trimmed(form.title@)) is Err ==> final(db).items() == old(db).items() && (r matches ItemResponse::Form { item, error: Some(e) } && e@ == item_message(title_check(trimmed(form.title@))->Err_0) && item == get_spec(old(db).items(), id, user->0.id)),
        user is Some && title_check(trimmed(form.title@)) is Ok ==> match owned_index(old(db).items(), id, user->0.id) {
            Some(k) => redirects_to(r, "/items?success=updated"@) && exists|it: Item| edited_from(
                it,
                old(db).items()[k],
                trimmed(form.title@),
                clean_description(text_opt(form.description)),
                at@,
            ) && final(db).items() == old(db).items().update(k, it),
            None => redirects_to(r, "/items?error=not_found"@) && final(db).items() == old(db).items(),
        },
{
    let u = match user {
        None => {
            return redirect("/login");
        },
        Some(u) => u,
    };
    match validate_item_form(form) {
        Err(e) => {
            return ItemResponse::Form { item: db.get_item(id, u.id), error: Some(String::from_str(e.message())) };
        },
        Ok(()) => {},
    }
    let title = trim_text(form.title.as_str());
    let description = clean_item_description(&form.description);
    let desc_ref: Option<&str> = match &description {
        Some(d) => Some(d.as_str()),
        None => None,
    };
    match db.update_item(id, u.id, title, desc_ref, at) {
        Some(_) => redirect("/items?success=updated"),
        None => redirect("/items?error=not_found"),
    }
}

/// Deletes an item of the signed-in account. An item of another account and
/// a missing one alike are left alone and answered with not-found.
pub fn delete_item(db: &mut Database, user: Option<&UserInfo>, id: i64) -> (r: ItemResponse)
    ensures
        final(db).users() == old(db).users(),
        final(db).user_id_counter() == old(db).user_id_counter(),
        final(db).item_id_counter() == old(db).item_id_counter(),
        user is None ==> redirects_to(r, "/login"@) && final(db).items() == old(db).items(),
        user matches Some(u) ==> match owned_index(old(db).items(), id, u.id) {
            Some(k) => redirects_to(r, "/items?success=deleted"@) && final(db).items() == old(db).items().remove(k),
            None => redirects_to(r, "/items?error=not_found"@) && final(db).items() == old(db).items(),
        },
{
    match user {
        None => redirect("/login"),
        Some(u) => if db.delete_item(id, u.id) {
            redirect("/items?success=deleted")
        } else {
            redirect("/items?error=not_found")
        },
    }
}

} // verus!
