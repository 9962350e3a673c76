use vstd::prelude::*;

verus! {

/// The service-level error taxonomy. A caller tells the classes apart by
/// variant, never by the message.
#[derive(Debug, PartialEq, Eq)]
pub enum ServiceError {
    /// The server is broken: a lock, storage or credential primitive failed.
    InternalError(String),
    /// The requested record does not exist.
    NotFound(String),
    /// A record with the requested id already exists.
    AlreadyExists(String),
    /// The request was malformed as a whole (for instance, a missing payload).
    BadRequest(String),
    /// A field of the input broke the named rule.
    Invalid(ValidationError),
    /// The operation is not provided by this service.
    Unsupported(String),
}

pub type ServiceResult<T> = Result<T, ServiceError>;

/// Which field rule an input broke. Each kind is either a length rule or a
/// format rule.
#[derive(Debug, Clone, Copy, PartialEq, Eq, Structural)]
pub enum ValidationError {
    /// The id is shorter or longer than allowed.
    IdLength,
    /// The id holds a character outside `[a-z0-9_]`.
    IdCharset,
    /// The email address is shorter or longer than allowed.
    EmailLength,
    /// The email address lacks `@` or `.`.
    EmailFormat,
    /// The name is shorter or longer than allowed.
    NameLength,
    /// The phone number is too short.
    PhoneLength,
    /// The password does not meet the strength policy.
    WeakPassword,
}

impl ValidationError {
    pub open spec fn spec_is_length(&self) -> bool {
        match self {
            ValidationError::IdLength => true,
            ValidationError::EmailLength => true,
            ValidationError::NameLength => true,
            ValidationError::PhoneLength => true,
            _ => false,
        }
    }

    /// True for a broken length rule, false for a broken format rule.
    pub fn is_length(&self) -> (r: bool)
        ensures
            r == self.spec_is_length(),
    {
        match self {
            ValidationError::IdLength => true,
            ValidationError::EmailLength => true,
            ValidationError::NameLength => true,
            ValidationError::PhoneLength => true,
            _ => false,
        }
    }

    /// True for a broken format rule (charset, shape, password policy).
    pub fn is_format(&self) -> (r: bool)
        ensures
            r == !self.spec_is_length(),
    {
        !self.is_length()
    }

    /// The name of the field whose rule was broken.
    pub fn field(&self) -> (r: &'static str)
        ensures
            r@ == field_name(*self),
    {
        match self {
            ValidationError::IdLength => "id",
            ValidationError::IdCharset => "id",
            ValidationError::EmailLength => "email",
            ValidationError::EmailFormat => "email",
            ValidationError::NameLength => "name",
            ValidationError::PhoneLength => "phone",
            ValidationError::WeakPassword => "password",
        }
    }

    /// A short description of the broken rule.
    pub fn describe(&self) -> (r: &'static str)
        ensures
            r@ == description(*self),
    {
        match self {
            ValidationError::IdLength => "id must be 4 to 20 characters long",
            ValidationError::IdCharset => "id may only hold a-z, 0-9 and _",
            ValidationError::EmailLength => "email must be 3 to 50 characters long",
            ValidationError::EmailFormat => "email must contain @ and .",
            ValidationError::NameLength => "name is too short or too long",
            ValidationError::PhoneLength => "phone must be longer than 5 characters",
            ValidationError::WeakPassword =>
                "password needs 5 characters, an uppercase letter and a digit",
        }
    }
}

/// The field each rule is about.
pub open spec fn field_name(e: ValidationError) -> Seq<char> {
    match e {
        ValidationError::IdLength => "id"@,
        ValidationError::IdCharset => "id"@,
        ValidationError::EmailLength => "email"@,
        ValidationError::EmailFormat => "email"@,
        ValidationError::NameLength => "name"@,
        ValidationError::PhoneLength => "phone"@,
        ValidationError::WeakPassword => "password"@,
    }
}

/// The text that describes each rule.
pub open spec fn description(e: ValidationError) -> Seq<char> {
    match e {
        ValidationError::IdLength => "id must be 4 to 20 characters long"@,
        ValidationError::IdCharset => "id may only hold a-z, 0-9 and _"@,
        ValidationError::EmailLength => "email must be 3 to 50 characters long"@,
        ValidationError::EmailFormat => "email must contain @ and ."@,
        ValidationError::NameLength => "name is too short or too long"@,
        ValidationError::PhoneLength => "phone must be longer than 5 characters"@,
        ValidationError::WeakPassword =>
            "password needs 5 characters, an uppercase letter and a digit"@,
    }
}

impl ServiceError {
    pub fn internal_error(msg: &str) -> (r: Self)
        ensures
            r matches ServiceError::InternalError(m) && m@ == msg@,
    {
        ServiceError::InternalError(String::from_str(msg))
    }

    pub fn not_found(msg: &str) -> (r: Self)
        ensures
            r matches ServiceError::NotFound(m) && m@ == msg@,
    {
        ServiceError::NotFound(String::from_str(msg))
    }

    pub fn already_exist(msg: &str) -> (r: Self)
        ensures
            r matches ServiceError::AlreadyExists(m) && m@ == msg@,
    {
        ServiceError::AlreadyExists(String::from_str(msg))
    }

    pub fn bad_request(msg: &str) -> (r: Self)
        ensures
            r matches ServiceError::BadRequest(m) && m@ == msg@,
    {
        ServiceError::BadRequest(String::from_str(msg))
    }

    pub fn unsupported(msg: &str) -> (r: Self)
        ensures
            r matches ServiceError::Unsupported(m) && m@ == msg@,
    {
        ServiceError::Unsupported(String::from_str(msg))
    }

    /// A broken field rule, carried as it is.
    pub fn invalid(e: ValidationError) -> (r: ServiceError)
        ensures
            r == ServiceError::Invalid(e),
    {
        ServiceError::Invalid(e)
    }

    /// Whether the caller's input was at fault: a malformed request or a
    /// broken field rule.
    pub fn is_input_error(&self) -> (r: bool)
        ensures
            r == (self is BadRequest || self is Invalid),
    {
        match self {
            ServiceError::BadRequest(_) => true,
            ServiceError::Invalid(_) => true,
            _ => false,
        }
    }

    /// The human-readable message carried by the error.
    pub fn message(&self) -> (r: &str)
        ensures
            r@ == self.message_view(),
    {
        match self {
            ServiceError::InternalError(m) => m.as_str(),
            ServiceError::NotFound(m) => m.as_str(),
            ServiceError::AlreadyExists(m) => m.as_str(),
            ServiceError::BadRequest(m) => m.as_str(),
            ServiceError::Invalid(e) => e.describe(),
            ServiceError::Unsupported(m) => m.as_str(),
        }
    }

    pub open spec fn message_view(&self) -> Seq<char> {
        match self {
            ServiceError::InternalError(m) => m@,
            ServiceError::NotFound(m) => m@,
            ServiceError::AlreadyExists(m) => m@,
            ServiceError::BadRequest(m) => m@,
            ServiceError::Invalid(e) => description(*e),
            ServiceError::Unsupported(m) => m@,
        }
    }
}

} // verus!
