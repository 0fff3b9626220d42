use vstd::prelude::*;
use crate::object_id::RecordId;

verus! {

broadcast use vstd::string::to_string_from_display_ensures_for_str;

/// A record type bound to the collection that holds it. The storage
/// operations are written once over this trait.
pub trait CollectionTrait: Sized {
    /// The record's identifier.
    spec fn id_of(&self) -> RecordId;

    /// The name of the collection that holds records of this type.
    spec fn collection_name_spec() -> Seq<char>;

    fn collection_name() -> (r: &'static str)
        ensures
            r@ == Self::collection_name_spec(),
    ;

    fn record_id(&self) -> (r: RecordId)
        ensures
            r == self.id_of(),
    ;
}

/// A user account.
#[derive(Debug)]
pub struct User {
    pub _id: RecordId,
    pub username: String,
    pub password: String,
}

/// The fields a caller gives to create a user.
#[derive(Debug)]
pub struct UserCreationRequest {
    pub username: String,
    pub password: String,
}

/// A sparse change to a user: only the fields present are replaced.
#[derive(Debug)]
pub struct UserUpdateRequest {
    pub username: Option<String>,
    pub password: Option<String>,
}

/// A mailing list owned by a user.
#[derive(Debug)]
pub struct EmailList {
    pub _id: RecordId,
    pub user_id: RecordId,
    pub name: String,
}

/// A subscriber of a mailing list.
#[derive(Debug)]
pub struct Subscriber {
    pub _id: RecordId,
    pub email_list_id: RecordId,
    pub name: String,
    pub email_addr: String,
}

impl CollectionTrait for User {
    open spec fn id_of(&self) -> RecordId {
        self._id
    }

    open spec fn collection_name_spec() -> Seq<char> {
        "user"@
    }

    fn collection_name() -> (r: &'static str) {
        "user"
    }

    fn record_id(&self) -> (r: RecordId) {
        self._id
    }
}

impl CollectionTrait for EmailList {
    open spec fn id_of(&self) -> RecordId {
        self._id
    }

    open spec fn collection_name_spec() -> Seq<char> {
        "email_list"@
    }

    fn collection_name() -> (r: &'static str) {
        "email_list"
    }

    fn record_id(&self) -> (r: RecordId) {
        self._id
    }
}

impl CollectionTrait for Subscriber {
    open spec fn id_of(&self) -> RecordId {
        self._id
    }

    open spec fn collection_name_spec() -> Seq<char> {
        "subscriber"@
    }

    fn collection_name() -> (r: &'static str) {
        "subscriber"
    }

    fn record_id(&self) -> (r: RecordId) {
        self._id
    }
}

/// A user as the collection model holds it.
pub struct UserView {
    pub id: Seq<u8>,
    pub username: Seq<char>,
    pub password: Seq<char>,
}

impl View for User {
    type V = UserView;

    open spec fn view(&self) -> UserView {
        UserView { id: self._id@, username: self.username@, password: self.password@ }
    }
}

impl User {
    /// A new user with a freshly generated identifier.
    pub fn new(username: String, password: String) -> (r: User)
        ensures
            r.username@ == username@,
            r.password@ == password@,
    {
        User { _id: RecordId::generate(), username, password }
    }

    pub fn new_from(creation_req: UserCreationRequest) -> (r: User)
        ensures
            r.username@ == creation_req.username@,
            r.password@ == creation_req.password@,
    {
        User::new(creation_req.username, creation_req.password)
    }
}

/// Named fields and the text each is set to, in order.
#[derive(Debug)]
pub struct FieldUpdates {
    pub fields: Vec<(String, String)>,
}

impl View for FieldUpdates {
    type V = Seq<(Seq<char>, Seq<char>)>;

    open spec fn view(&self) -> Seq<(Seq<char>, Seq<char>)> {
        self.fields@.map_values(|p: (String, String)| (p.0@, p.1@))
    }
}

pub open spec fn opt_view(o: Option<String>) -> Option<Seq<char>> {
    match o {
        Some(s) => Some(s@),
        None => None,
    }
}

/// The fields a user patch sets: the user name first, then the password,
/// each only when given.
pub open spec fn user_patch_fields(username: Option<Seq<char>>, password: Option<Seq<char>>) -> Seq<
    (Seq<char>, Seq<char>),
> {
    let a = match username {
        Some(u) => seq![("username"@, u)],
        None => Seq::empty(),
    };
    let b = match password {
        Some(p) => seq![("password"@, p)],
        None => Seq::empty(),
    };
    a + b
}

/// The (user name, password) pair after setting the given fields in order;
/// a field a user does not have is ignored.
pub open spec fn apply_user_fields(u: (Seq<char>, Seq<char>), f: Seq<(Seq<char>, Seq<char>)>) -> (
    Seq<char>,
    Seq<char>,
)
    decreases f.len(),
{
    if f.len() == 0 {
        u
    } else {
        let before = apply_user_fields(u, f.drop_last());
        let last = f.last();
        if last.0 == "username"@ {
            (last.1, before.1)
        } else if last.0 == "password"@ {
            (before.0, last.1)
        } else {
            before
        }
    }
}

/// A stored user after the fields `f` are set on it; its identifier stays.
pub open spec fn patched_user(u: UserView, f: Seq<(Seq<char>, Seq<char>)>) -> UserView {
    let set = apply_user_fields((u.username, u.password), f);
    UserView { id: u.id, username: set.0, password: set.1 }
}

impl UserUpdateRequest {
    /// The fields this patch sets; absent fields are left out, so they stay
    /// untouched where the patch is applied.
    pub fn to_doc(&self) -> (r: FieldUpdates)
        ensures
            r@ == user_patch_fields(opt_view(self.username), opt_view(self.password)),
    {
        let mut fields: Vec<(String, String)> = Vec::new();
        if let Some(username) = &self.username {
            fields.push(("username".to_string(), username.clone()));
        }
        if let Some(password) = &self.password {
            fields.push(("password".to_string(), password.clone()));
        }
        let r = FieldUpdates { fields };
        assert(r@ =~= user_patch_fields(opt_view(self.username), opt_view(self.password)));
        r
    }
}

/// Setting the fields of a user patch replaces exactly the fields it names:
/// the others keep their values.
pub proof fn lemma_patch_keeps_unnamed_fields(
    u: (Seq<char>, Seq<char>),
    username: Option<Seq<char>>,
    password: Option<Seq<char>>,
)
    ensures
        apply_user_fields(u, user_patch_fields(username, password)) == (
            match username {
                Some(n) => n,
                None => u.0,
            },
            match password {
                Some(p) => p,
                None => u.1,
            },
        ),
{
    reveal_strlit("username");
    reveal_strlit("password");
    assert("username"@ != "password"@) by {
        assert("username"@[0] != "password"@[0]);
    }
    let f = user_patch_fields(username, password);
    let a = match username {
        Some(n) => seq![("username"@, n)],
        None => Seq::<(Seq<char>, Seq<char>)>::empty(),
    };
    assert(apply_user_fields(u, a) == (
        match username {
            Some(n) => n,
            None => u.0,
        },
        u.1,
    )) by {
        if username is Some {
            assert(a.drop_last() =~= Seq::<(Seq<char>, Seq<char>)>::empty());
            assert(apply_user_fields(u, a.drop_last()) == u);
        } else {
            assert(a.len() == 0);
        }
    }
    if password is Some {
        assert(f.drop_last() =~= a);
    } else {
        assert(f =~= a);
    }
}

} // verus!
