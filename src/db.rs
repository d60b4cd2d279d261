use crate::models::{
    lemma_text_le_total, lemma_text_le_trans, same_text, text_at_most, text_le, CreateItem, Item, User,
};
use vstd::prelude::*;

verus! {

/// Whether the item at position `k` has id `id` and belongs to `owner`.
pub open spec fn owned_at(items: Seq<Item>, id: i64, owner: i64, k: int) -> bool {
    0 <= k < items.len() && items[k].id == id && items[k].user_id == owner
}

/// Position of the item with id `id` owned by `owner`, if there is one.
pub open spec fn owned_index(items: Seq<Item>, id: i64, owner: i64) -> Option<int> {
    if exists|k: int| owned_at(items, id, owner, k) {
        Some(choose|k: int| owned_at(items, id, owner, k))
    } else {
        None
    }
}

/// What an owner-scoped read returns: the item only where both id and owner match.
pub open spec fn get_spec(items: Seq<Item>, id: i64, owner: i64) -> Option<Item> {
    match owned_index(items, id, owner) {
        Some(k) => Some(items[k]),
        None => None,
    }
}

/// An optional text as characters.
pub open spec fn text_opt(t: Option<String>) -> Option<Seq<char>> {
    match t {
        Some(s) => Some(s@),
        None => None,
    }
}

/// An optional borrowed text as characters.
pub open spec fn str_opt(t: Option<&str>) -> Option<Seq<char>> {
    match t {
        Some(s) => Some(s@),
        None => None,
    }
}

/// `new` is `old` with the given title, description and update time; its id,
/// owner and creation time are kept.
pub open spec fn edited_from(
    new: Item,
    old: Item,
    title: Seq<char>,
    description: Option<Seq<char>>,
    at: Seq<char>,
) -> bool {
    &&& new.id == old.id
    &&& new.user_id == old.user_id
    &&& new.created_at == old.created_at
    &&& new.title@ == title
    &&& text_opt(new.description) == description
    &&& new.updated_at@ == at
}

/// `x` placed into a list ordered by creation stamp, latest stamp first:
/// before the first item whose stamp is no later than its own.
pub open spec fn insert_by_stamp(x: Item, s: Seq<Item>) -> Seq<Item>
    decreases s.len(),
{
    if s.len() == 0 {
        seq![x]
    } else if text_le(s[0].created_at@, x.created_at@) {
        seq![x] + s
    } else {
        seq![s[0]] + insert_by_stamp(x, s.drop_first())
    }
}

/// The items of `owner`, ordered by creation stamp (`created_at`, compared as
/// text), latest first; among equal stamps the later-created item comes first.
pub open spec fn owned_by_stamp(items: Seq<Item>, owner: i64) -> Seq<Item>
    decreases items.len(),
{
    if items.len() == 0 {
        Seq::empty()
    } else {
        let rest = owned_by_stamp(items.drop_last(), owner);
        if items.last().user_id == owner {
            insert_by_stamp(items.last(), rest)
        } else {
            rest
        }
    }
}

/// Creation stamps never increase along the list.
pub open spec fn stamps_descending(s: Seq<Item>) -> bool {
    forall|i: int, j: int|
        0 <= i < j < s.len() ==> text_le(#[trigger] s[j].created_at@, #[trigger] s[i].created_at@)
}

/// Placing an item into a list ordered by stamp keeps it ordered, and adds
/// that item and nothing else.
pub proof fn lemma_insert_by_stamp_sorted(x: Item, s: Seq<Item>)
    requires
        stamps_descending(s),
    ensures
        stamps_descending(insert_by_stamp(x, s)),
        insert_by_stamp(x, s).len() == s.len() + 1,
        forall|k: int|
            0 <= k < s.len() + 1 ==> #[trigger] insert_by_stamp(x, s)[k] == x || exists|m: int|
                0 <= m < s.len() && insert_by_stamp(x, s)[k] == s[m],
    decreases s.len(),
{
    let r = insert_by_stamp(x, s);
    if s.len() == 0 {
    } else if text_le(s[0].created_at@, x.created_at@) {
        assert(r == seq![x] + s);
        assert forall|i: int, j: int| 0 <= i < j < r.len() implies text_le(
            #[trigger] r[j].created_at@,
            #[trigger] r[i].created_at@,
        ) by {
            assert(r[j] == s[j - 1]);
            if i == 0 {
                if j - 1 > 0 {
                    lemma_text_le_trans(s[j - 1].created_at@, s[0].created_at@, x.created_at@);
                }
            } else {
                assert(r[i] == s[i - 1]);
            }
        }
        assert forall|k: int| 0 <= k < s.len() + 1 implies #[trigger] r[k] == x || exists|m: int|
            0 <= m < s.len() && r[k] == s[m] by {
            if k > 0 {
                assert(r[k] == s[k - 1]);
            }
        }
    } else {
        let t = s.drop_first();
        assert forall|i: int, j: int| 0 <= i < j < t.len() implies text_le(
            #[trigger] t[j].created_at@,
            #[trigger] t[i].created_at@,
        ) by {
            assert(t[j] == s[j + 1] && t[i] == s[i + 1]);
        }
        lemma_insert_by_stamp_sorted(x, t);
        lemma_text_le_total(s[0].created_at@, x.created_at@);
        let q = insert_by_stamp(x, t);
        assert(r == seq![s[0]] + q);
        assert forall|k: int| 0 <= k < q.len() implies text_le(#[trigger] q[k].created_at@, s[0].created_at@) by {
            if q[k] != x {
                let m = choose|m: int| 0 <= m < t.len() && q[k] == t[m];
                assert(t[m] == s[m + 1]);
            }
        }
        assert forall|i: int, j: int| 0 <= i < j < r.len() implies text_le(
            #[trigger] r[j].created_at@,
            #[trigger] r[i].created_at@,
        ) by {
            assert(r[j] == q[j - 1]);
            if i > 0 {
                assert(r[i] == q[i - 1]);
            }
        }
        assert forall|k: int| 0 <= k < s.len() + 1 implies #[trigger] r[k] == x || exists|m: int|
            0 <= m < s.len() && r[k] == s[m] by {
            if k == 0 {
                assert(r[0] == s[0]);
            } else {
                assert(r[k] == q[k - 1]);
                if q[k - 1] != x {
                    let m = choose|m: int| 0 <= m < t.len() && q[k - 1] == t[m];
                    assert(t[m] == s[m + 1]);
                }
            }
        }
    }
}

/// An owner's listing holds only that owner's items, latest creation stamp
/// first.
pub proof fn lemma_listing_by_stamp(items: Seq<Item>, owner: i64)
    ensures
        stamps_descending(owned_by_stamp(items, owner)),
        forall|k: int|
            0 <= k < owned_by_stamp(items, owner).len() ==> (#[trigger] owned_by_stamp(items, owner)[k]).user_id
                == owner,
    decreases items.len(),
{
    if items.len() > 0 {
        let rest = owned_by_stamp(items.drop_last(), owner);
        lemma_listing_by_stamp(items.drop_last(), owner);
        if items.last().user_id == owner {
            lemma_insert_by_stamp_sorted(items.last(), rest);
            let r = insert_by_stamp(items.last(), rest);
            assert forall|k: int| 0 <= k < r.len() implies (#[trigger] r[k]).user_id == owner by {
                if r[k] != items.last() {
                    let m = choose|m: int| 0 <= m < rest.len() && r[k] == rest[m];
                }
            }
        }
    }
}

/// Placing `x` at the first position whose stamp is no later than its own is
/// `insert_by_stamp`.
pub proof fn lemma_insert_by_stamp_at(x: Item, s: Seq<Item>, k: int)
    requires
        0 <= k <= s.len(),
        forall|j: int| 0 <= j < k ==> !text_le(#[trigger] s[j].created_at@, x.created_at@),
        k == s.len() || text_le(s[k].created_at@, x.created_at@),
    ensures
        insert_by_stamp(x, s) == s.insert(k, x),
    decreases k,
{
    if k == 0 {
        assert(s.insert(0, x) =~= seq![x] + s);
    } else {
        assert(!text_le(s[0].created_at@, x.created_at@));
        let t = s.drop_first();
        assert forall|j: int| 0 <= j < k - 1 implies !text_le(#[trigger] t[j].created_at@, x.created_at@) by {
            assert(t[j] == s[j + 1]);
        }
        lemma_insert_by_stamp_at(x, t, k - 1);
        assert(seq![s[0]] + t.insert(k - 1, x) =~= s.insert(k, x));
    }
}

/// No two items share an id.
pub open spec fn item_ids_unique(items: Seq<Item>) -> bool {
    forall|i: int, j: int|
        0 <= i < items.len() && 0 <= j < items.len() && #[trigger] items[i].id == #[trigger] items[j].id
            ==> i == j
}

/// No two accounts share an id, a username or an email.
pub open spec fn user_keys_unique(users: Seq<User>) -> bool {
    forall|i: int, j: int|
        0 <= i < users.len() && 0 <= j < users.len() && i != j ==> {
            &&& #[trigger] users[i].id != #[trigger] users[j].id
            &&& users[i].username@ != users[j].username@
            &&& users[i].email@ != users[j].email@
        }
}

/// No two accounts share a username.
pub proof fn lemma_username_unique(users: Seq<User>, i: int, j: int)
    requires
        user_keys_unique(users),
        0 <= i < users.len(),
        0 <= j < users.len(),
        users[i].username@ == users[j].username@,
    ensures
        i == j,
{
    if i != j {
        assert(users[i].id != users[j].id);
    }
}

/// With unique item ids, a matching position is the one `owned_index` names.
pub proof fn lemma_owned_index_is(items: Seq<Item>, id: i64, owner: i64, k: int)
    requires
        item_ids_unique(items),
        owned_at(items, id, owner, k),
    ensures
        owned_index(items, id, owner) == Some(k),
{
    let c = choose|c: int| owned_at(items, id, owner, c);
    assert(items[c].id == items[k].id);
}

/// An item is out of reach of every account but its owner. Keyed by another
/// owner, a read finds nothing, exactly as for an id that no item has, so an
/// update or a delete keyed by that owner changes nothing and reports
/// failure (see `Database::update_item` and `Database::delete_item`). Keyed
/// by its owner, the item is found.
pub proof fn lemma_foreign_owner_sees_nothing(items: Seq<Item>, k: int, other: i64, missing: i64)
    requires
        item_ids_unique(items),
        0 <= k < items.len(),
        items[k].user_id != other,
        forall|i: int| 0 <= i < items.len() ==> #[trigger] items[i].id != missing,
    ensures
        owned_index(items, items[k].id, other) is None,
        owned_index(items, items[k].id, other) == owned_index(items, missing, other),
        get_spec(items, items[k].id, other) is None,
        get_spec(items, items[k].id, other) == get_spec(items, missing, other),
        owned_index(items, items[k].id, items[k].user_id) == Some(k),
        get_spec(items, items[k].id, items[k].user_id) == Some(items[k]),
{
    assert forall|c: int| !owned_at(items, items[k].id, other, c) by {
        if owned_at(items, items[k].id, other, c) {
            assert(items[c].id == items[k].id);
        }
    }
    assert forall|c: int| !owned_at(items, missing, other, c) by {
        if 0 <= c < items.len() {
            assert(items[c].id != missing);
        }
    }
    lemma_owned_index_is(items, items[k].id, items[k].user_id, k);
}

/// The account and item store. Every read, update and delete of a single
/// item is keyed by the item id and the owner id together.
pub struct Database {
    users: Vec<User>,
    items: Vec<Item>,
    next_user_id: i64,
    next_item_id: i64,
}

impl Database {
    /// The accounts, in order of creation.
    pub closed spec fn users(&self) -> Seq<User> {
        self.users@
    }

    /// The items, in order of creation.
    pub closed spec fn items(&self) -> Seq<Item> {
        self.items@
    }

    /// Ids are unique and positive; usernames and emails are unique.
    #[verifier::type_invariant]
    closed spec fn wf(self) -> bool {
        &&& 1 <= self.next_user_id
        &&& 1 <= self.next_item_id
        &&& user_keys_unique(self.users@)
        &&& item_ids_unique(self.items@)
        &&& forall|i: int| 0 <= i < self.users@.len() ==> 1 <= #[trigger] self.users@[i].id < self.next_user_id
        &&& forall|i: int| 0 <= i < self.items@.len() ==> 1 <= #[trigger] self.items@[i].id < self.next_item_id
    }

    /// An empty store.
    pub fn new() -> (r: Database)
        ensures
            r.user_id_counter() == 1,
            r.item_id_counter() == 1,
            r.users() == Seq::<User>::empty(),
            r.items() == Seq::<Item>::empty(),
    {
        Database { users: Vec::new(), items: Vec::new(), next_user_id: 1, next_item_id: 1 }
    }

    /// The id the next account will get.
    pub closed spec fn user_id_counter(&self) -> i64 {
        self.next_user_id
    }

    /// The id the next item will get.
    pub closed spec fn item_id_counter(&self) -> i64 {
        self.next_item_id
    }

    /// Whether another account id can be handed out.
    pub open spec fn user_ids_left(&self) -> bool {
        self.user_id_counter() < i64::MAX
    }

    /// Whether another item id can be handed out.
    pub open spec fn item_ids_left(&self) -> bool {
        self.item_id_counter() < i64::MAX
    }

    /// Whether an account has this username.
    pub open spec fn has_username(&self, username: Seq<char>) -> bool {
        exists|i: int| 0 <= i < self.users().len() && #[trigger] self.users()[i].username@ == username
    }

    /// Whether an account has this email.
    pub open spec fn has_email(&self, email: Seq<char>) -> bool {
        exists|i: int| 0 <= i < self.users().len() && #[trigger] self.users()[i].email@ == email
    }

    /// Whether an account has this id.
    pub open spec fn has_user_id(&self, id: i64) -> bool {
        exists|i: int| 0 <= i < self.users().len() && #[trigger] self.users()[i].id == id
    }

    /// Looks an account up by username.
    pub fn find_user_by_username(&self, username: &str) -> (r: Option<User>)
        ensures
            user_keys_unique(self.users()),
            r matches Some(u) ==> self.users().contains(u) && u.username@ == username@,
            r is None <==> forall|i: int|
                0 <= i < self.users().len() ==> #[trigger] self.users()[i].username@ != username@,
    {
        proof {
            use_type_invariant(self);
        }
        let mut i: usize = 0;
        while i < self.users.len()
            invariant
                user_keys_unique(self.users@),
                i <= self.users@.len(),
                forall|k: int| 0 <= k < i ==> #[trigger] self.users@[k].username@ != username@,
            decreases self.users@.len() - i,
        {
            if same_text(self.users[i].username.as_str(), username) {
                assert(self.users@[i as int] == self.users()[i as int]);
                return Some(self.users[i].duplicate());
            }
            i = i + 1;
        }
        assert(self.users() == self.users@);
        None
    }

    /// Looks an account up by id.
    pub fn find_user_by_id(&self, id: i64) -> (r: Option<User>)
        ensures
            user_keys_unique(self.users()),
            r matches Some(u) ==> self.users().contains(u) && u.id == id,
            r is None <==> forall|i: int| 0 <= i < self.users().len() ==> #[trigger] self.users()[i].id != id,
    {
        proof {
            use_type_invariant(self);
        }
        let mut i: usize = 0;
        while i < self.users.len()
            invariant
                user_keys_unique(self.users@),
                i <= self.users@.len(),
                forall|k: int| 0 <= k < i ==> #[trigger] self.users@[k].id != id,
            decreases self.users@.len() - i,
        {
            if self.users[i].id == id {
                assert(self.users@[i as int] == self.users()[i as int]);
                return Some(self.users[i].duplicate());
            }
            i = i + 1;
        }
        None
    }

    /// Whether an account has this username.
    pub fn username_exists(&self, username: &str) -> (r: bool)
        ensures
            r == self.has_username(username@),
    {
        let mut i: usize = 0;
        while i < self.users.len()
            invariant
                i <= self.users@.len(),
                forall|k: int| 0 <= k < i ==> #[trigger] self.users@[k].username@ != username@,
            decreases self.users@.len() - i,
        {
            if same_text(self.users[i].username.as_str(), username) {
                assert(self.users()[i as int].username@ == username@);
                return true;
            }
            i = i + 1;
        }
        assert(self.users() == self.users@);
        false
    }

    /// Whether an account has this email.
    pub fn email_exists(&self, email: &str) -> (r: bool)
        ensures
            r == self.has_email(email@),
    {
        let mut i: usize = 0;
        while i < self.users.len()
            invariant
                i <= self.users@.len(),
                forall|k: int| 0 <= k < i ==> #[trigger] self.users@[k].email@ != email@,
            decreases self.users@.len() - i,
        {
            if same_text(self.users[i].email.as_str(), email) {
                assert(self.users()[i as int].email@ == email@);
                return true;
            }
            i = i + 1;
        }
        assert(self.users() == self.users@);
        false
    }

    /// Adds an account. Refused, with the store unchanged, where the username
    /// or the email is taken or no id is left.
    pub fn create_user(&mut self, username: &str, email: &str, password_hash: &str, at: &str) -> (r:
        Option<User>)
        ensures
            final(self).item_id_counter() == old(self).item_id_counter(),
            r is None ==> final(self).user_id_counter() == old(self).user_id_counter(),
            r matches Some(u) ==> u.id == old(self).user_id_counter() && final(self).user_id_counter()
                == old(self).user_id_counter() + 1,
            final(self).items() == old(self).items(),
            r is Some <==> !old(self).has_username(username@) && !old(self).has_email(email@)
                && old(self).user_ids_left(),
            r is None ==> final(self).users() == old(self).users(),
            r matches Some(u) ==> {
                &&& u.username@ == username@
                &&& u.email@ == email@
                &&& u.password_hash@ == password_hash@
                &&& u.created_at@ == at@
                &&& final(self).users() == old(self).users().push(u)
                &&& forall|i: int| 0 <= i < old(self).users().len() ==> #[trigger] old(self).users()[i].id != u.id
            },
    {
        proof {
            use_type_invariant(&*self);
        }
        if self.username_exists(username) || self.email_exists(email) || self.next_user_id == i64::MAX {
            return None;
        }
        let u = User {
            id: self.next_user_id,
            username: username.to_owned(),
            email: email.to_owned(),
            password_hash: password_hash.to_owned(),
            created_at: at.to_owned(),
        };
        let mut users: Vec<User> = Vec::new();
        std::mem::swap(&mut users, &mut self.users);
        let ghost before = users@;
        users.push(u.duplicate());
        assert(users@[before.len() as int] == u);
        assert(forall|i: int| 0 <= i < before.len() ==> #[trigger] users@[i] == before[i]);
        assert(forall|i: int| 0 <= i < before.len() ==> #[trigger] before[i].username@ != username@);
        assert(forall|i: int| 0 <= i < before.len() ==> #[trigger] before[i].email@ != email@);
        assert forall|i: int, j: int|
            0 <= i < users@.len() && 0 <= j < users@.len() && i != j implies {
                &&& #[trigger] users@[i].id != #[trigger] users@[j].id
                &&& users@[i].username@ != users@[j].username@
                &&& users@[i].email@ != users@[j].email@
            } by {
            if i < before.len() && j < before.len() {
                assert(before[i] == users@[i] && before[j] == users@[j]);
                assert(user_keys_unique(before));
                assert(before[i].id != before[j].id);
            } else if i < before.len() {
                assert(before[i] == users@[i]);
                assert(before[i].id < u.id);
                assert(before[i].username@ != username@);
                assert(users@[j] == u);
            } else {
                assert(before[j] == users@[j]);
                assert(before[j].id < u.id);
                assert(before[j].username@ != username@);
                assert(users@[i] == u);
            }
        }
        self.next_user_id = self.next_user_id + 1;
        self.users = users;
        Some(u)
    }

    /// Adds an item for `item.user_id`, stamped `at`. Refused, with the store
    /// unchanged, where no account has that id or no item id is left.
    pub fn create_item(&mut self, item: CreateItem, at: &str) -> (r: Option<Item>)
        ensures
            final(self).user_id_counter() == old(self).user_id_counter(),
            r is None ==> final(self).item_id_counter() == old(self).item_id_counter(),
            r matches Some(it) ==> it.id == old(self).item_id_counter() && final(self).item_id_counter()
                == old(self).item_id_counter() + 1,
            final(self).users() == old(self).users(),
            r is Some <==> old(self).item_ids_left() && old(self).has_user_id(item.user_id),
            r is None ==> final(self).items() == old(self).items(),
            r matches Some(it) ==> {
                &&& it.user_id == item.user_id
                &&& it.title == item.title
                &&& it.description == item.description
                &&& it.created_at@ == at@
                &&& it.updated_at@ == at@
                &&& final(self).items() == old(self).items().push(it)
                &&& forall|i: int| 0 <= i < old(self).items().len() ==> #[trigger] old(self).items()[i].id != it.id
            },
    {
        proof {
            use_type_invariant(&*self);
        }
        if self.next_item_id == i64::MAX {
            return None;
        }
        match self.find_user_by_id(item.user_id) {
            None => {
                return None;
            },
            Some(u) => {
                let ghost k = choose|k: int| 0 <= k < self.users().len() && self.users()[k] == u;
                assert(self.users()[k].id == item.user_id);
            },
        }
        let it = Item {
            id: self.next_item_id,
            user_id: item.user_id,
            title: item.title,
            description: item.description,
            created_at: at.to_owned(),
            updated_at: at.to_owned(),
        };
        let mut items: Vec<Item> = Vec::new();
        std::mem::swap(&mut items, &mut self.items);
        let ghost before = items@;
        items.push(it.duplicate());
        assert(items@[before.len() as int] == it);
        assert(forall|i: int| 0 <= i < before.len() ==> #[trigger] items@[i] == before[i]);
        self.next_item_id = self.next_item_id + 1;
        self.items = items;
        Some(it)
    }

    /// The items of one owner, latest creation stamp first (see `owned_by_stamp`).
    pub fn get_user_items(&self, user_id: i64) -> (r: Vec<Item>)
        ensures
            r@ == owned_by_stamp(self.items(), user_id),
            stamps_descending(r@),
            forall|k: int| 0 <= k < r@.len() ==> (#[trigger] r@[k]).user_id == user_id,
    {
        proof {
            lemma_listing_by_stamp(self.items(), user_id);
        }
        let mut r: Vec<Item> = Vec::new();
        let mut i: usize = 0;
        while i < self.items.len()
            invariant
                i <= self.items@.len(),
                r@ == owned_by_stamp(self.items@.subrange(0, i as int), user_id),
            decreases self.items@.len() - i,
        {
            let ghost prefix = self.items@.subrange(0, i as int + 1);
            assert(prefix.drop_last() =~= self.items@.subrange(0, i as int));
            assert(prefix.last() == self.items@[i as int]);
            if self.items[i].user_id == user_id {
                let x = &self.items[i];
                let mut k: usize = 0;
                while k < r.len() && !text_at_most(r[k].created_at.as_str(), x.created_at.as_str())
                    invariant
                        k <= r@.len(),
                        forall|j: int| 0 <= j < k ==> !text_le(#[trigger] r@[j].created_at@, x.created_at@),
                    decreases r@.len() - k,
                {
                    k = k + 1;
                }
                proof {
                    lemma_insert_by_stamp_at(*x, r@, k as int);
                }
                r.insert(k, x.duplicate());
            }
            i = i + 1;
        }
        assert(self.items@.subrange(0, self.items@.len() as int) =~= self.items@);
        r
    }

    fn find_owned(&self, id: i64, user_id: i64) -> (r: Option<usize>)
        ensures
            item_ids_unique(self.items()),
            r matches Some(k) ==> owned_index(self.items(), id, user_id) == Some(k as int),
            r is None ==> owned_index(self.items(), id, user_id) is None,
    {
        proof {
            use_type_invariant(self);
        }
        let mut i: usize = 0;
        while i < self.items.len()
            invariant
                item_ids_unique(self.items@),
                i <= self.items@.len(),
                forall|k: int| 0 <= k < i ==> !owned_at(self.items@, id, user_id, k),
            decreases self.items@.len() - i,
        {
            if self.items[i].id == id && self.items[i].user_id == user_id {
                proof {
                    lemma_owned_index_is(self.items@, id, user_id, i as int);
                }
                return Some(i);
            }
            i = i + 1;
        }
        assert(!exists|k: int| owned_at(self.items@, id, user_id, k));
        None
    }

    /// The item with this id, only where it belongs to `user_id`. An item of
    /// another owner and a missing id give the same answer.
    pub fn get_item(&self, id: i64, user_id: i64) -> (r: Option<Item>)
        ensures
            item_ids_unique(self.items()),
            r == get_spec(self.items(), id, user_id),
    {
        match self.find_owned(id, user_id) {
            Some(k) => Some(self.items[k].duplicate()),
            None => None,
        }
    }

    /// Sets title, description and update time of the item with this id,
    /// only where it belongs to `user_id`; otherwise nothing changes and the
    /// answer is `None`.
    pub fn update_item(
        &mut self,
        id: i64,
        user_id: i64,
        title: &str,
        description: Option<&str>,
        at: &str,
    ) -> (r: Option<Item>)
        ensures
            final(self).user_id_counter() == old(self).user_id_counter(),
            final(self).item_id_counter() == old(self).item_id_counter(),
            item_ids_unique(old(self).items()),
            final(self).users() == old(self).users(),
            match owned_index(old(self).items(), id, user_id) {
                Some(k) => r matches Some(it) && edited_from(
                    it,
                    old(self).items()[k],
                    title@,
                    str_opt(description),
                    at@,
                ) && final(self).items() == old(self).items().update(k, it),
                None => r is None && final(self).items() == old(self).items(),
            },
    {
        proof {
            use_type_invariant(&*self);
        }
        match self.find_owned(id, user_id) {
            Some(k) => {
                let desc = match description {
                    Some(d) => Some(d.to_owned()),
                    None => None,
                };
                let it = Item {
                    id: self.items[k].id,
                    user_id: self.items[k].user_id,
                    title: title.to_owned(),
                    description: desc,
                    created_at: self.items[k].created_at.clone(),
                    updated_at: at.to_owned(),
                };
                let mut items: Vec<Item> = Vec::new();
                std::mem::swap(&mut items, &mut self.items);
                let ghost before = items@;
                items.set(k, it.duplicate());
                assert(forall|i: int| 0 <= i < before.len() ==> #[trigger] items@[i].id == before[i].id);
                self.items = items;
                Some(it)
            },
            None => None,
        }
    }

    /// Removes the item with this id, only where it belongs to `user_id`.
    /// The answer says whether an item was removed.
    pub fn delete_item(&mut self, id: i64, user_id: i64) -> (r: bool)
        ensures
            final(self).user_id_counter() == old(self).user_id_counter(),
            final(self).item_id_counter() == old(self).item_id_counter(),
            item_ids_unique(old(self).items()),
            final(self).users() == old(self).users(),
            match owned_index(old(self).items(), id, user_id) {
                Some(k) => r && final(self).items() == old(self).items().remove(k),
                None => !r && final(self).items() == old(self).items(),
            },
    {
        proof {
            use_type_invariant(&*self);
        }
        match self.find_owned(id, user_id) {
            Some(k) => {
                let mut items: Vec<Item> = Vec::new();
                std::mem::swap(&mut items, &mut self.items);
                let ghost before = items@;
                items.remove(k);
                assert(forall|i: int| 0 <= i < items@.len() ==> #[trigger] items@[i] == before[if i < k { i } else { i + 1 }]);
                self.items = items;
                true
            },
            None => false,
        }
    }
}

} // verus!
