use vstd::prelude::*;
use crate::password::{bcrypt_verdict, hash_password, password_is_strong, validate_password};
use crate::prelude::{ServiceError, ServiceResult, ValidationError};

verus! {

/// What `str::to_lowercase` makes of a string.
pub uninterp spec fn lower_of(s: Seq<char>) -> Seq<char>;

/// Relies on str::to_lowercase: the result depends on the characters alone,
/// and an empty string stays empty.
#[verifier::external_body]
fn lowercase(s: &str) -> (r: String)
    ensures
        r@ == lower_of(s@),
        s@.len() == 0 ==> r@.len() == 0,
{
    s.to_lowercase()
}

/// Relies on chrono::Utc::now and DateTime::timestamp: the current time in
/// seconds since the Unix epoch. Nothing is known of its value.
#[verifier::external_body]
fn now_timestamp() -> (r: i64) {
    chrono::Utc::now().timestamp()
}

/// Fewest and most characters of an id at creation.
pub const ID_MIN_CHARS: usize = 4;
pub const ID_MAX_CHARS: usize = 20;
/// Fewest and most characters of an email address at creation.
pub const EMAIL_MIN_CHARS: usize = 3;
pub const EMAIL_MAX_CHARS: usize = 50;
/// Fewest and most characters of a name at creation.
pub const NAME_MIN_CHARS: usize = 2;
pub const NAME_MAX_CHARS: usize = 40;
/// Fewest characters of a name when it is changed.
pub const NAME_UPDATE_MIN_CHARS: usize = 5;
/// A changed email address, phone number or id must be longer than this.
pub const UPDATE_MIN_EXCLUSIVE: usize = 5;

/// One user account.
///
/// Creation and change apply different rules to some fields: a name needs
/// 2 characters at creation but 5 when changed, a phone may be empty at
/// creation but must be longer than 5 characters when changed, and a changed
/// email address is not lowercased. Both rule sets are kept as they are.
#[derive(Debug)]
pub struct User {
    id: String,
    name: String,
    email: String,
    phone: String,
    password_hash: String,
    date_created: i64,
    created_by: String,
    customers: Vec<String>,
}

/// The abstract value of a `User`.
pub struct UserView {
    pub id: Seq<char>,
    pub name: Seq<char>,
    pub email: Seq<char>,
    pub phone: Seq<char>,
    pub password_hash: Seq<char>,
    pub date_created: i64,
    pub created_by: Seq<char>,
    pub customers: Seq<Seq<char>>,
}

pub open spec fn views_of(v: Seq<String>) -> Seq<Seq<char>> {
    v.map_values(|s: String| s@)
}

impl View for User {
    type V = UserView;

    closed spec fn view(&self) -> UserView {
        UserView {
            id: self.id@,
            name: self.name@,
            email: self.email@,
            phone: self.phone@,
            password_hash: self.password_hash@,
            date_created: self.date_created,
            created_by: self.created_by@,
            customers: views_of(self.customers@),
        }
    }
}

pub open spec fn id_char_allowed(c: char) -> bool {
    ('a' <= c && c <= 'z') || ('0' <= c && c <= '9') || c == '_'
}

pub open spec fn id_length_ok(id: Seq<char>) -> bool {
    ID_MIN_CHARS <= id.len() <= ID_MAX_CHARS
}

pub open spec fn id_chars_ok(id: Seq<char>) -> bool {
    forall|i: int| 0 <= i < id.len() ==> id_char_allowed(#[trigger] id[i])
}

pub open spec fn email_length_ok(email: Seq<char>) -> bool {
    EMAIL_MIN_CHARS <= email.len() <= EMAIL_MAX_CHARS
}

pub open spec fn email_format_ok(email: Seq<char>) -> bool {
    email.contains('@') && email.contains('.')
}

pub open spec fn name_length_ok(name: Seq<char>) -> bool {
    NAME_MIN_CHARS <= name.len() <= NAME_MAX_CHARS
}

/// The first creation rule that the (already lowercased) id and email and the
/// name break, in the order id length, id charset, email length, email
/// content, name length; `None` when all hold.
pub open spec fn construct_error(id: Seq<char>, name: Seq<char>, email: Seq<char>) -> Option<
    ValidationError,
> {
    if !id_length_ok(id) {
        Some(ValidationError::IdLength)
    } else if !id_chars_ok(id) {
        Some(ValidationError::IdCharset)
    } else if !email_length_ok(email) {
        Some(ValidationError::EmailLength)
    } else if !email_format_ok(email) {
        Some(ValidationError::EmailFormat)
    } else if !name_length_ok(name) {
        Some(ValidationError::NameLength)
    } else {
        None
    }
}

/// The record a successful creation makes: no password, no customers.
pub open spec fn fresh_user(
    id: Seq<char>,
    name: Seq<char>,
    email: Seq<char>,
    phone: Seq<char>,
    created_by: Seq<char>,
    date_created: i64,
) -> UserView {
    UserView {
        id,
        name,
        email,
        phone,
        password_hash: Seq::empty(),
        date_created,
        created_by,
        customers: Seq::empty(),
    }
}

/// The rule for a changed name.
pub open spec fn name_update_ok(name: Seq<char>) -> bool {
    name.len() >= NAME_UPDATE_MIN_CHARS
}

/// The rule for a changed email address.
pub open spec fn email_update_ok(email: Seq<char>) -> bool {
    email_format_ok(email) && email.len() > UPDATE_MIN_EXCLUSIVE
}

/// The error a rejected email change reports.
pub open spec fn email_update_error(email: Seq<char>) -> ValidationError {
    if !email_format_ok(email) {
        ValidationError::EmailFormat
    } else {
        ValidationError::EmailLength
    }
}

/// The rule for a changed phone number.
pub open spec fn phone_update_ok(phone: Seq<char>) -> bool {
    phone.len() > UPDATE_MIN_EXCLUSIVE
}

/// The rule for a changed id (legacy).
pub open spec fn id_update_ok(id: Seq<char>) -> bool {
    id.len() > UPDATE_MIN_EXCLUSIVE
}

/// The first rule that a change of name, email and phone together breaks,
/// checked in that order; `None` when all three hold.
pub open spec fn update_error(name: Seq<char>, email: Seq<char>, phone: Seq<char>) -> Option<
    ValidationError,
> {
    if !name_update_ok(name) {
        Some(ValidationError::NameLength)
    } else if !email_update_ok(email) {
        Some(email_update_error(email))
    } else if !phone_update_ok(phone) {
        Some(ValidationError::PhoneLength)
    } else {
        None
    }
}

/// Creation lowercases id and email and keeps every other field as given:
/// a created record, read back field by field, shows exactly its inputs,
/// with no password and no customers.
pub proof fn lemma_construct_round_trip(
    id: Seq<char>,
    name: Seq<char>,
    email: Seq<char>,
    phone: Seq<char>,
    created_by: Seq<char>,
    date_created: i64,
)
    requires
        construct_error(lower_of(id), name, lower_of(email)) is None,
    ensures
        ({
            let u = fresh_user(lower_of(id), name, lower_of(email), phone, created_by, date_created);
            &&& u.id == lower_of(id)
            &&& u.email == lower_of(email)
            &&& u.name == name
            &&& u.phone == phone
            &&& u.created_by == created_by
            &&& u.date_created == date_created
            &&& u.password_hash.len() == 0
            &&& u.customers.len() == 0
            &&& id_length_ok(u.id) && id_chars_ok(u.id)
            &&& email_length_ok(u.email) && email_format_ok(u.email)
            &&& name_length_ok(u.name)
        }),
{
}

/// Whether `s` holds the character `c`.
fn has_char(s: &str, c: char) -> (r: bool)
    ensures
        r == s@.contains(c),
{
    let n = s.unicode_len();
    let mut i: usize = 0;
    while i < n
        invariant
            n == s@.len(),
            i <= n,
            forall|j: int| 0 <= j < i ==> s@[j] != c,
        decreases n - i,
    {
        if s.get_char(i) == c {
            return true;
        }
        i = i + 1;
    }
    false
}

/// Whether every character of `s` is allowed in an id.
fn id_chars_valid(s: &str) -> (r: bool)
    ensures
        r == id_chars_ok(s@),
{
    let n = s.unicode_len();
    let mut i: usize = 0;
    while i < n
        invariant
            n == s@.len(),
            i <= n,
            forall|j: int| 0 <= j < i ==> id_char_allowed(#[trigger] s@[j]),
        decreases n - i,
    {
        let c = s.get_char(i);
        if !(('a' <= c && c <= 'z') || ('0' <= c && c <= '9') || c == '_') {
            return false;
        }
        i = i + 1;
    }
    true
}

fn email_format_valid(email: &str) -> (r: bool)
    ensures
        r == email_format_ok(email@),
{
    has_char(email, '@') && has_char(email, '.')
}

fn copy_strings(v: &Vec<String>) -> (r: Vec<String>)
    ensures
        views_of(r@) == views_of(v@),
{
    let mut r: Vec<String> = Vec::new();
    let mut i: usize = 0;
    while i < v.len()
        invariant
            i <= v.len(),
            r@.len() == i,
            views_of(r@) == views_of(v@).subrange(0, i as int),
        decreases v.len() - i,
    {
        let s: String = v[i].clone();
        assert(s@ == v@[i as int]@);
        let ghost before = r@;
        r.push(s);
        assert(r@ == before.push(s));
        assert forall|j: int| 0 <= j < i ==> #[trigger] views_of(r@)[j] == views_of(before)[j] by {}
        assert(views_of(r@) =~= views_of(v@).subrange(0, i + 1));
        i = i + 1;
    }
    assert(views_of(v@).subrange(0, v.len() as int) =~= views_of(v@));
    r
}

impl User {
    /// Creates a user. `id` and `email` are lowercased first; then the
    /// creation rules are checked in order and the first broken one is
    /// returned. The record gets the current time, no password and no
    /// customers.
    pub fn new(id: String, name: String, email: String, phone: String, created_by: String) -> (r:
        Result<Self, ValidationError>)
        ensures
            r is Err <==> construct_error(lower_of(id@), name@, lower_of(email@)) is Some,
            r matches Err(e) ==> construct_error(lower_of(id@), name@, lower_of(email@)) == Some(
                e,
            ),
            r matches Ok(u) ==> u@ == fresh_user(
                lower_of(id@),
                name@,
                lower_of(email@),
                phone@,
                created_by@,
                u@.date_created,
            ),
    {
        let id = lowercase(id.as_str());
        let email = lowercase(email.as_str());
        let now = now_timestamp();
        Self::from_normalized(id, name, email, phone, created_by, now)
    }

    /// Creates a user from an id and email that are already lowercase, with
    /// the given creation time. The creation rules are checked in the order
    /// id length, id charset, email length, email content, name length, and
    /// the first broken one is returned.
    pub fn from_normalized(
        id: String,
        name: String,
        email: String,
        phone: String,
        created_by: String,
        date_created: i64,
    ) -> (r: Result<Self, ValidationError>)
        ensures
            r is Err <==> construct_error(id@, name@, email@) is Some,
            r matches Err(e) ==> construct_error(id@, name@, email@) == Some(e),
            r matches Ok(u) ==> u@ == fresh_user(
                id@,
                name@,
                email@,
                phone@,
                created_by@,
                date_created,
            ),
    {
        let id_len = id.as_str().unicode_len();
        if id_len > ID_MAX_CHARS || id_len < ID_MIN_CHARS {
            return Err(ValidationError::IdLength);
        }
        if !id_chars_valid(id.as_str()) {
            return Err(ValidationError::IdCharset);
        }
        let email_len = email.as_str().unicode_len();
        if email_len > EMAIL_MAX_CHARS || email_len < EMAIL_MIN_CHARS {
            return Err(ValidationError::EmailLength);
        }
        if !email_format_valid(email.as_str()) {
            return Err(ValidationError::EmailFormat);
        }
        let name_len = name.as_str().unicode_len();
        if name_len > NAME_MAX_CHARS || name_len < NAME_MIN_CHARS {
            return Err(ValidationError::NameLength);
        }
        let u = User {
            id,
            name,
            email,
            phone,
            password_hash: String::new(),
            date_created,
            created_by,
            customers: Vec::new(),
        };
        assert(views_of(u.customers@) =~= Seq::<Seq<char>>::empty());
        Ok(u)
    }

    /// Rebuilds a user from a stored record, field for field, with no checks:
    /// the record was validated when it was first stored.
    pub fn from_stored(
        id: String,
        name: String,
        email: String,
        phone: String,
        password_hash: String,
        date_created: i64,
        created_by: String,
        customers: Vec<String>,
    ) -> (r: Self)
        ensures
            r@ == (UserView {
                id: id@,
                name: name@,
                email: email@,
                phone: phone@,
                password_hash: password_hash@,
                date_created,
                created_by: created_by@,
                customers: views_of(customers@),
            }),
    {
        User { id, name, email, phone, password_hash, date_created, created_by, customers }
    }

    /// A copy of this user with the same abstract value.
    pub fn snapshot(&self) -> (r: Self)
        ensures
            r@ == self@,
    {
        User {
            id: self.id.clone(),
            name: self.name.clone(),
            email: self.email.clone(),
            phone: self.phone.clone(),
            password_hash: self.password_hash.clone(),
            date_created: self.date_created,
            created_by: self.created_by.clone(),
            customers: copy_strings(&self.customers),
        }
    }
}

impl User {
    /// Changes the name; it must have at least 5 characters.
    pub fn set_user_name(&mut self, name: String) -> (r: Result<(), ValidationError>)
        ensures
            r is Ok <==> name_update_ok(name@),
            r matches Err(e) ==> e == ValidationError::NameLength,
            r is Ok ==> final(self)@ == (UserView { name: name@, ..old(self)@ }),
            r is Err ==> final(self)@ == old(self)@,
    {
        if name.as_str().unicode_len() < NAME_UPDATE_MIN_CHARS {
            Err(ValidationError::NameLength)
        } else {
            self.name = name;
            Ok(())
        }
    }

    /// Changes the email address. It is lowercased first, as at creation;
    /// the lowercased address must contain `@` and `.` and be longer than 5
    /// characters.
    pub fn set_user_email(&mut self, email: String) -> (r: Result<(), ValidationError>)
        ensures
            r is Ok <==> email_update_ok(lower_of(email@)),
            r matches Err(e) ==> e == email_update_error(lower_of(email@)),
            r is Ok ==> final(self)@ == (UserView { email: lower_of(email@), ..old(self)@ }),
            r is Err ==> final(self)@ == old(self)@,
    {
        let email = lowercase(email.as_str());
        if !email_format_valid(email.as_str()) {
            Err(ValidationError::EmailFormat)
        } else if email.as_str().unicode_len() <= UPDATE_MIN_EXCLUSIVE {
            Err(ValidationError::EmailLength)
        } else {
            self.email = email;
            Ok(())
        }
    }

    /// Changes the phone number; it must be longer than 5 characters.
    pub fn set_user_phone(&mut self, phone: String) -> (r: Result<(), ValidationError>)
        ensures
            r is Ok <==> phone_update_ok(phone@),
            r matches Err(e) ==> e == ValidationError::PhoneLength,
            r is Ok ==> final(self)@ == (UserView { phone: phone@, ..old(self)@ }),
            r is Err ==> final(self)@ == old(self)@,
    {
        if phone.as_str().unicode_len() <= UPDATE_MIN_EXCLUSIVE {
            Err(ValidationError::PhoneLength)
        } else {
            self.phone = phone;
            Ok(())
        }
    }

    /// Legacy: replaces the id with its lowercase form; it must be longer
    /// than 5 characters. An id is meant to be fixed once a user is stored,
    /// and the registry never calls this.
    pub fn set_user_id(&mut self, user_id: String) -> (r: Result<(), ValidationError>)
        ensures
            r is Ok <==> id_update_ok(user_id@),
            r matches Err(e) ==> e == ValidationError::IdLength,
            r is Ok ==> final(self)@ == (UserView { id: lower_of(user_id@), ..old(self)@ }),
            r is Err ==> final(self)@ == old(self)@,
    {
        if user_id.as_str().unicode_len() <= UPDATE_MIN_EXCLUSIVE {
            Err(ValidationError::IdLength)
        } else {
            self.id = lowercase(user_id.as_str());
            Ok(())
        }
    }

    /// Changes name, email and phone together. The email is lowercased
    /// first; then all three are checked, in that order, against the same
    /// rules as their setters, and either all three are stored or none is.
    pub fn update(&mut self, name: String, email: String, phone: String) -> (r: Result<
        (),
        ValidationError,
    >)
        ensures
            r is Err <==> update_error(name@, lower_of(email@), phone@) is Some,
            r matches Err(e) ==> update_error(name@, lower_of(email@), phone@) == Some(e),
            r is Ok ==> final(self)@ == (UserView {
                name: name@,
                email: lower_of(email@),
                phone: phone@,
                ..old(self)@
            }),
            r is Err ==> final(self)@ == old(self)@,
    {
        let email = lowercase(email.as_str());
        self.update_normalized(name, email, phone)
    }

    /// Changes name, email and phone together, the email being already
    /// lowercase. All three are checked first, in that order; then either
    /// all three are stored or none is.
    pub fn update_normalized(&mut self, name: String, email: String, phone: String) -> (r: Result<
        (),
        ValidationError,
    >)
        ensures
            r is Err <==> update_error(name@, email@, phone@) is Some,
            r matches Err(e) ==> update_error(name@, email@, phone@) == Some(e),
            r is Ok ==> final(self)@ == (UserView {
                name: name@,
                email: email@,
                phone: phone@,
                ..old(self)@
            }),
            r is Err ==> final(self)@ == old(self)@,
    {
        if name.as_str().unicode_len() < NAME_UPDATE_MIN_CHARS {
            return Err(ValidationError::NameLength);
        }
        if !email_format_valid(email.as_str()) {
            return Err(ValidationError::EmailFormat);
        }
        if email.as_str().unicode_len() <= UPDATE_MIN_EXCLUSIVE {
            return Err(ValidationError::EmailLength);
        }
        if phone.as_str().unicode_len() <= UPDATE_MIN_EXCLUSIVE {
            return Err(ValidationError::PhoneLength);
        }
        self.name = name;
        self.email = email;
        self.phone = phone;
        Ok(())
    }

    /// Sets a new password: it must meet the password policy, and its
    /// salted hash is stored. A weak password is reported as
    /// `Invalid(WeakPassword)`, and only a weak one; a failure of the hashing
    /// primitive is an internal error. On failure nothing changes.
    pub fn set_password(&mut self, password: String) -> (r: ServiceResult<()>)
        ensures
            !password_is_strong(password@) <==> r matches Err(
                ServiceError::Invalid(ValidationError::WeakPassword),
            ),
            r matches Err(e) ==> (e is Invalid || e is InternalError),
            r matches Err(ServiceError::Invalid(_)) ==> !password_is_strong(password@),
            r is Ok ==> password_is_strong(password@),
            r is Ok ==> final(self)@.password_hash.len() == 60,
            r is Ok ==> bcrypt_verdict(password@, final(self)@.password_hash) == Some(true),
            r is Ok ==> final(self)@ == (UserView {
                password_hash: final(self)@.password_hash,
                ..old(self)@
            }),
            r is Err ==> final(self)@ == old(self)@,
    {
        match validate_password(password.as_str()) {
            Ok(()) => {},
            Err(e) => {
                return Err(ServiceError::invalid(e));
            },
        }
        match hash_password(password.as_str()) {
            Ok(h) => {
                self.password_hash = h;
                Ok(())
            },
            Err(_) => Err(ServiceError::internal_error("password hashing failed")),
        }
    }

    /// Clears the stored credential, so that no password verifies until a
    /// new one is set. A reset workflow starts here.
    pub fn invalidate_credential(&mut self)
        ensures
            final(self)@ == (UserView { password_hash: Seq::empty(), ..old(self)@ }),
    {
        self.password_hash = String::new();
    }

    /// Resetting a password needs a notification service that this library
    /// does not have: the call is reported as unsupported and changes nothing.
    pub fn reset_password(&mut self) -> (r: ServiceResult<()>)
        ensures
            r matches Err(ServiceError::Unsupported(_)),
            final(self)@ == old(self)@,
    {
        Err(ServiceError::unsupported("password reset is not supported"))
    }
}

impl User {
    pub fn get_user_id(&self) -> (r: &str)
        ensures
            r@ == self@.id,
    {
        self.id.as_str()
    }

    pub fn get_date_created(&self) -> (r: i64)
        ensures
            r == self@.date_created,
    {
        self.date_created
    }

    pub fn get_user_name(&self) -> (r: &str)
        ensures
            r@ == self@.name,
    {
        self.name.as_str()
    }

    pub fn get_user_email(&self) -> (r: &str)
        ensures
            r@ == self@.email,
    {
        self.email.as_str()
    }

    pub fn get_user_phone(&self) -> (r: &str)
        ensures
            r@ == self@.phone,
    {
        self.phone.as_str()
    }

    pub fn get_created_by(&self) -> (r: &str)
        ensures
            r@ == self@.created_by,
    {
        self.created_by.as_str()
    }

    pub fn get_customers(&self) -> (r: &Vec<String>)
        ensures
            views_of(r@) == self@.customers,
    {
        &self.customers
    }

    pub fn get_password_hash(&self) -> (r: &str)
        ensures
            r@ == self@.password_hash,
    {
        self.password_hash.as_str()
    }

    /// The key under which the registry keeps this user.
    pub fn get_id(&self) -> (r: &str)
        ensures
            r@ == self@.id,
    {
        self.id.as_str()
    }
}

} // verus!
