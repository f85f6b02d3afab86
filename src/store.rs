use vstd::prelude::*;

verus! {

/// A registered user, as the credential store holds it.
pub struct User {
    pub id: i32,
    pub email: String,
    /// The bcrypt hash of the password; never the plaintext.
    pub password: String,
    pub first_name: String,
    pub last_name: String,
}

pub struct UserView {
    pub id: int,
    pub email: Seq<char>,
    pub password: Seq<char>,
    pub first_name: Seq<char>,
    pub last_name: Seq<char>,
}

impl View for User {
    type V = UserView;

    open spec fn view(&self) -> UserView {
        UserView {
            id: self.id as int,
            email: self.email@,
            password: self.password@,
            first_name: self.first_name@,
            last_name: self.last_name@,
        }
    }
}

impl User {
    /// A copy of this record.
    pub fn duplicate(&self) -> (r: User)
        ensures
            r@ == self@,
    {
        User {
            id: self.id,
            email: self.email.clone(),
            password: self.password.clone(),
            first_name: self.first_name.clone(),
            last_name: self.last_name.clone(),
        }
    }
}

/// Why an insertion into the store failed.
#[derive(Debug, Clone, Copy, PartialEq, Eq, Structural)]
pub enum StoreError {
    /// A user with exactly this email address exists already.
    DuplicateEmail,
    /// No identifier is left for a new user.
    Full,
}

/// Whether some user of `users` has exactly the address `email`.
pub open spec fn has_email(users: Seq<UserView>, email: Seq<char>) -> bool {
    exists|i: int| 0 <= i < users.len() && #[trigger] users[i].email == email
}

/// The user registered under `email`, if there is one.
pub open spec fn lookup(users: Seq<UserView>, email: Seq<char>) -> Option<UserView> {
    if has_email(users, email) {
        Some(users[choose|i: int| 0 <= i < users.len() && #[trigger] users[i].email == email])
    } else {
        None
    }
}

/// Identifiers count up from 1 in order of registration, and no two users
/// share an email address.
pub open spec fn users_wf(users: Seq<UserView>) -> bool {
    &&& users.len() <= i32::MAX
    &&& forall|i: int| 0 <= i < users.len() ==> #[trigger] users[i].id == i + 1
    &&& forall|i: int, j: int|
        0 <= i < users.len() && 0 <= j < users.len() && i != j ==> #[trigger] users[i].email
            != #[trigger] users[j].email
}

/// Under well-formedness the user found by address is the one at any index
/// that holds that address.
pub proof fn lemma_lookup_at(users: Seq<UserView>, email: Seq<char>, i: int)
    requires
        users_wf(users),
        0 <= i < users.len(),
        users[i].email == email,
    ensures
        lookup(users, email) == Some(users[i]),
{
    assert(has_email(users, email));
}

/// The credential store: the registered users, keyed by email address.
pub struct UserStore {
    users: Vec<User>,
}

impl View for UserStore {
    type V = Seq<UserView>;

    closed spec fn view(&self) -> Seq<UserView> {
        self.users@.map_values(|u: User| u@)
    }
}

impl UserStore {
    pub open spec fn wf(&self) -> bool {
        users_wf(self@)
    }

    /// An empty store.
    pub fn new() -> (r: UserStore)
        ensures
            r.wf(),
            r@ == Seq::<UserView>::empty(),
    {
        let r = UserStore { users: Vec::new() };
        assert(r@ =~= Seq::<UserView>::empty());
        r
    }

    /// The number of registered users.
    pub fn len(&self) -> (r: usize)
        ensures
            r == self@.len(),
    {
        self.users.len()
    }

    /// Looks a user up by exact, case-sensitive email address.
    pub fn find_by_email(&self, email: &String) -> (r: Option<User>)
        requires
            self.wf(),
        ensures
            match r {
                Some(u) => lookup(self@, email@) == Some(u@),
                None => lookup(self@, email@) is None,
            },
    {
        let mut i: usize = 0;
        while i < self.users.len()
            invariant
                self.wf(),
                i <= self.users.len(),
                forall|k: int| 0 <= k < i ==> #[trigger] self@[k].email != email@,
            decreases self.users.len() - i,
        {
            if self.users[i].email == *email {
                proof {
                    lemma_lookup_at(self@, email@, i as int);
                }
                return Some(self.users[i].duplicate());
            }
            i = i + 1;
        }
        assert(!has_email(self@, email@));
        None
    }

    /// Registers a new user under the next identifier. Fails with
    /// `DuplicateEmail` where the address is taken and with `Full` where no
    /// identifier is left; the store is unchanged then.
    pub fn insert(
        &mut self,
        email: String,
        password: String,
        first_name: String,
        last_name: String,
    ) -> (r: Result<User, StoreError>)
        requires
            old(self).wf(),
        ensures
            final(self).wf(),
            has_email(old(self)@, email@) ==> r == Err::<User, StoreError>(
                StoreError::DuplicateEmail,
            ),
            !has_email(old(self)@, email@) && old(self)@.len() >= i32::MAX ==> r == Err::<
                User,
                StoreError,
            >(StoreError::Full),
            r is Err ==> final(self)@ == old(self)@,
            !has_email(old(self)@, email@) && old(self)@.len() < i32::MAX ==> r is Ok,
            r matches Ok(u) ==> {
                &&& u@ == (UserView {
                    id: old(self)@.len() as int + 1,
                    email: email@,
                    password: password@,
                    first_name: first_name@,
                    last_name: last_name@,
                })
                &&& final(self)@ == old(self)@.push(u@)
            },
    {
        let found = self.find_by_email(&email);
        if found.is_some() {
            return Err(StoreError::DuplicateEmail);
        }
        let n = self.users.len();
        if n >= i32::MAX as usize {
            return Err(StoreError::Full);
        }
        let user = User {
            id: (n + 1) as i32,
            email,
            password,
            first_name,
            last_name,
        };
        let result = user.duplicate();
        let ghost before = self@;
        self.users.push(user);
        assert(self@ =~= before.push(result@));
        Ok(result)
    }
}

} // verus!
