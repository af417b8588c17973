//! The users subgraph: a fixed list of users, the signed-in one first.
use vstd::prelude::*;

verus! {

/// The name under which any user looked up by key is served.
pub const DEFAULT_NAME: &'static str = "John Deere";

/// A user, the entity that the other subgraphs extend.
pub struct User {
    pub id: String,
    pub name: String,
}

impl View for User {
    type V = (Seq<char>, Seq<char>);

    open spec fn view(&self) -> (Seq<char>, Seq<char>) {
        (self.id@, self.name@)
    }
}

/// Every user, as (identifier, name).
pub open spec fn user_table() -> Seq<(Seq<char>, Seq<char>)> {
    seq![
        ("1"@, "John Deere"@),
        ("2"@, "Abby Moore"@),
        ("3"@, "Tom Hubble"@),
        ("4"@, "Bob Thorn"@),
        ("5"@, "Millie Wadler"@),
    ]
}

/// The view of a list of users.
pub open spec fn users_view(v: Seq<User>) -> Seq<(Seq<char>, Seq<char>)> {
    v.map_values(|u: User| u@)
}

fn user(id: &str, name: &str) -> (r: User)
    ensures
        r@ == (id@, name@),
{
    User { id: String::from_str(id), name: String::from_str(name) }
}

/// The root query type of the users subgraph.
pub struct Query;

impl Query {
    /// Entity lookup by key: the user with identifier `id`.
    pub fn find_user_by_id(&self, id: String) -> (r: User)
        ensures
            r.id == id,
            r.name@ == DEFAULT_NAME@,
    {
        User { id, name: String::from_str(DEFAULT_NAME) }
    }

    /// The signed-in user: the first of the list.
    pub fn me(&self) -> (r: User)
        ensures
            r@ == user_table()[0],
    {
        user("1", "John Deere")
    }

    /// Every user, in order.
    pub fn users(&self) -> (r: Vec<User>)
        ensures
            users_view(r@) == user_table(),
    {
        let mut v: Vec<User> = Vec::new();
        v.push(user("1", "John Deere"));
        v.push(user("2", "Abby Moore"));
        v.push(user("3", "Tom Hubble"));
        v.push(user("4", "Bob Thorn"));
        v.push(user("5", "Millie Wadler"));
        assert(users_view(v@) =~= user_table());
        v
    }
}

} // verus!
