//! Fixed configuration for trying the server out.
use crate::users::Users;
use vstd::prelude::*;
use vstd::string::*;

verus! {

/// Two users, `a` and `b`, whose passwords are their names.
pub fn test_users() -> (r: Users)
    ensures
        r@ == map!["a"@ => "a"@, "b"@ => "b"@],
{
    let mut users = Users::new();
    users.insert(String::from_str("a"), String::from_str("a"));
    users.insert(String::from_str("b"), String::from_str("b"));
    proof {
        reveal_strlit("a");
        reveal_strlit("b");
        assert(users@ =~= map!["a"@ => "a"@, "b"@ => "b"@]);
    }
    users
}

} // verus!
