use vstd::prelude::*;

verus! {

/// A user document of the "users" collection.
#[derive(Clone, Copy, Debug, PartialEq, Eq, Structural)]
pub struct User {
    pub admin: bool,
}

/// The admin flag on its own.
#[derive(Clone, Copy, Debug, PartialEq, Eq, Structural)]
pub struct Admin(pub bool);

/// The collection that holds users.
pub fn users_collection() -> (r: String)
    ensures
        r@ == seq!['u', 's', 'e', 'r', 's'],
{
    let t = "users";
    proof {
        reveal_strlit("users");
    }
    assert(t@ =~= seq!['u', 's', 'e', 'r', 's']);
    t.to_string()
}

} // verus!
