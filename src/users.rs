//! The credential store: user names and their passwords.
use vstd::prelude::*;
use vstd::string::*;

verus! {

/// User names with their passwords; each name appears once.
pub struct Users {
    entries: Vec<(String, String)>,
}

/// Whether each name appears once among `entries`.
spec fn names_unique(entries: Seq<(String, String)>) -> bool {
    forall|i: int, j: int|
        0 <= i < j < entries.len() ==> #[trigger] entries[i].0@ != #[trigger] entries[j].0@
}

/// Whether `name` appears among `entries`.
spec fn holds(entries: Seq<(String, String)>, name: Seq<char>) -> bool {
    exists|i: int| 0 <= i < entries.len() && #[trigger] entries[i].0@ == name
}

/// The map from names to passwords that `entries` hold.
spec fn as_map(entries: Seq<(String, String)>) -> Map<Seq<char>, Seq<char>> {
    Map::new(
        |name: Seq<char>| holds(entries, name),
        |name: Seq<char>|
            entries[choose|i: int| 0 <= i < entries.len() && #[trigger] entries[i].0@ == name].1@,
    )
}

impl Users {
    #[verifier::type_invariant]
    spec fn inv(self) -> bool {
        names_unique(self.entries@)
    }
}

impl View for Users {
    type V = Map<Seq<char>, Seq<char>>;

    closed spec fn view(&self) -> Map<Seq<char>, Seq<char>> {
        as_map(self.entries@)
    }
}

/// Where `name` stands among `entries`, if it does.
fn position(entries: &Vec<(String, String)>, name: &String) -> (r: Option<usize>)
    ensures
        r matches Some(i) ==> i < entries@.len() && entries@[i as int].0@ == name@,
        r is None ==> !holds(entries@, name@),
{
    let mut i: usize = 0;
    while i < entries.len()
        invariant
            i <= entries@.len(),
            forall|j: int| 0 <= j < i ==> #[trigger] entries@[j].0@ != name@,
        decreases entries@.len() - i,
    {
        if entries[i].0 == *name {
            return Some(i);
        }
        i = i + 1;
    }
    None
}

impl Users {
    /// No users.
    pub fn new() -> (r: Users)
        ensures
            r@ == Map::<Seq<char>, Seq<char>>::empty(),
    {
        let r = Users { entries: Vec::new() };
        assert(r@ =~= Map::<Seq<char>, Seq<char>>::empty());
        r
    }

    /// The password of `name`, if `name` is a user.
    pub fn password(&self, name: &String) -> (r: Option<&String>)
        ensures
            r matches Some(p) ==> self@.contains_key(name@) && self@[name@] == p@,
            r is None ==> !self@.contains_key(name@),
    {
        proof {
            use_type_invariant(self);
        }
        match position(&self.entries, name) {
            Some(i) => {
                proof {
                    let k = choose|k: int|
                        0 <= k < self.entries@.len() && #[trigger] self.entries@[k].0@ == name@;
                    assert(k == i);
                }
                Some(&self.entries[i].1)
            },
            None => None,
        }
    }

    /// Adds a user, or gives an existing user a new password.
    pub fn insert(&mut self, name: String, password: String)
        ensures
            final(self)@ == old(self)@.insert(name@, password@),
    {
        proof {
            use_type_invariant(&*self);
        }
        let ghost key = name@;
        let ghost value = password@;
        let mut entries: Vec<(String, String)> = Vec::new();
        core::mem::swap(&mut self.entries, &mut entries);
        let ghost before = entries@;
        match position(&entries, &name) {
            Some(i) => {
                entries.set(i, (name, password));
            },
            None => {
                entries.push((name, password));
            },
        }
        proof {
            let after = entries@;
            assert forall|i: int, j: int| 0 <= i < j < after.len() implies #[trigger] after[i].0@
                != #[trigger] after[j].0@ by {
                if j == before.len() {
                    assert(before[i].0@ == after[i].0@);
                }
            }
            assert forall|k: Seq<char>| holds(after, k) == (holds(before, k) || k == key) by {
                if holds(after, k) {
                    let j = choose|j: int| 0 <= j < after.len() && #[trigger] after[j].0@ == k;
                    if k != key {
                        assert(before[j].0@ == k);
                    }
                }
                if holds(before, k) {
                    let j = choose|j: int| 0 <= j < before.len() && #[trigger] before[j].0@ == k;
                    assert(after[j].0@ == k);
                }
                if k == key {
                    if holds(before, key) {
                        let j = choose|j: int| 0 <= j < before.len() && #[trigger] before[j].0@ == key;
                        assert(after[j].0@ == key);
                    } else {
                        assert(after[before.len() as int].0@ == key);
                    }
                }
            }
            assert forall|k: Seq<char>| #[trigger] holds(after, k) implies as_map(after)[k] == if k
                == key {
                value
            } else {
                as_map(before)[k]
            } by {
                let j = choose|j: int| 0 <= j < after.len() && #[trigger] after[j].0@ == k;
                if k == key {
                    assert(after[j].1@ == value);
                } else {
                    assert(before[j].0@ == k);
                    let j0 = choose|j0: int| 0 <= j0 < before.len() && #[trigger] before[j0].0@ == k;
                    assert(j0 == j);
                }
            }
            assert(as_map(after) =~= as_map(before).insert(key, value));
        }
        core::mem::swap(&mut self.entries, &mut entries);
    }
}

/// The server's configuration, shared by every session.
pub struct Config {
    users: Users,
}

impl View for Config {
    type V = Map<Seq<char>, Seq<char>>;

    closed spec fn view(&self) -> Map<Seq<char>, Seq<char>> {
        self.users@
    }
}

impl Config {
    pub fn new(users: Users) -> (r: Config)
        ensures
            r@ == users@,
    {
        Config { users }
    }

    /// The users who may log in.
    pub fn users(&self) -> (r: &Users)
        ensures
            r@ == self@,
    {
        &self.users
    }
}

} // verus!
