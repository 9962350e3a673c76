use vstd::prelude::*;
use crate::prelude::{ServiceError, ServiceResult};
use crate::registry::{
    after_insert, has_id, ids_distinct, index_of, record_of, updated, user_views, Registry, RegistryError,
    UserUpdate,
};
use crate::user::{construct_error, fresh_user, lower_of, update_error, User, UserView};

verus! {

impl ServiceError {
    /// The service-level class of a registry failure: a duplicate id is
    /// `AlreadyExists`, a missing one `NotFound`, a broken rule `Invalid` with that rule.
    pub fn from_registry(e: RegistryError) -> (r: ServiceError)
        ensures
            e == RegistryError::DuplicateId ==> r is AlreadyExists,
            e == RegistryError::NotFound ==> r is NotFound,
            e matches RegistryError::Invalid(v) ==> r == ServiceError::Invalid(v),
    {
        match e {
            RegistryError::DuplicateId => ServiceError::already_exist("user already exists"),
            RegistryError::NotFound => ServiceError::not_found("user not found"),
            RegistryError::Invalid(v) => ServiceError::invalid(v),
        }
    }
}

/// The request-facing side of the registry. Every operation runs to
/// completion on the one registry it owns; a caller that shares the service
/// between tasks holds it behind a single lock.
pub struct UserService {
    users: Registry,
}

impl View for UserService {
    type V = Seq<UserView>;

    closed spec fn view(&self) -> Seq<UserView> {
        self.users@
    }
}

impl UserService {
    /// No two stored users share an id.
    pub open spec fn wf(&self) -> bool {
        ids_distinct(self@)
    }

    pub fn new(users: Registry) -> (r: Self)
        requires
            users.wf(),
        ensures
            r.wf(),
            r@ == users@,
    {
        UserService { users }
    }

    /// Creates a user: the fields are validated first (the first broken rule
    /// is returned as `Invalid`), then the user is inserted, the uniqueness check and the
    /// insertion being one step (a taken id is `AlreadyExists`). On success
    /// the stored record is returned.
    pub fn create_new_user(
        &mut self,
        id: String,
        name: String,
        email: String,
        phone: String,
        created_by: String,
    ) -> (r: ServiceResult<User>)
        requires
            old(self).wf(),
        ensures
            final(self).wf(),
            construct_error(lower_of(id@), name@, lower_of(email@)) matches Some(e) ==> r matches Err(
                ServiceError::Invalid(v),
            ) && v == e,
            construct_error(lower_of(id@), name@, lower_of(email@)) is None ==> (r is Err
                <==> has_id(old(self)@, lower_of(id@))),
            construct_error(lower_of(id@), name@, lower_of(email@)) is None && r is Err
                ==> r->Err_0 is AlreadyExists,
            r is Err ==> final(self)@ == old(self)@,
            r matches Ok(u) ==> u@ == fresh_user(
                lower_of(id@),
                name@,
                lower_of(email@),
                phone@,
                created_by@,
                u@.date_created,
            ) && final(self)@ == old(self)@.push(u@),
            r matches Ok(u) ==> !has_id(old(self)@, u@.id),
    {
        let user = match User::new(id, name, email, phone, created_by) {
            Ok(u) => u,
            Err(e) => {
                return Err(ServiceError::invalid(e));
            },
        };
        let out = user.snapshot();
        match self.users.insert(user) {
            Ok(()) => Ok(out),
            Err(e) => Err(ServiceError::from_registry(e)),
        }
    }

    /// Snapshots of all users.
    pub fn get_all(&self) -> (r: Vec<User>)
        requires
            self.wf(),
        ensures
            user_views(r@) == self@,
    {
        self.users.list()
    }

    /// A snapshot of the user with this id, or `NotFound`.
    pub fn get_by_id(&self, id: &str) -> (r: ServiceResult<User>)
        requires
            self.wf(),
        ensures
            r is Ok <==> has_id(self@, id@),
            r is Err ==> r->Err_0 is NotFound,
            r matches Ok(u) ==> u@ == record_of(self@, id@),
    {
        match self.users.find(id) {
            Ok(u) => Ok(u),
            Err(e) => Err(ServiceError::from_registry(e)),
        }
    }

    /// Changes name, email and phone of the user with this id and returns
    /// the changed record (the email lowercased): `NotFound` when the id is
    /// absent, `Invalid` with the first broken field rule otherwise; on
    /// failure nothing changes.
    pub fn update_by_id(&mut self, id: &str, name: String, email: String, phone: String) -> (r:
        ServiceResult<User>)
        requires
            old(self).wf(),
        ensures
            final(self).wf(),
            !has_id(old(self)@, id@) ==> r is Err && r->Err_0 is NotFound,
            has_id(old(self)@, id@) ==> (update_error(name@, lower_of(email@), phone@) matches Some(
                e,
            ) ==> r matches Err(ServiceError::Invalid(v)) && v == e),
            r is Ok <==> has_id(old(self)@, id@) && update_error(name@, lower_of(email@), phone@)
                is None,
            r is Err ==> final(self)@ == old(self)@,
            r matches Ok(u) ==> u@ == updated(
                record_of(old(self)@, id@),
                name@,
                lower_of(email@),
                phone@,
            )
                && final(self)@ == old(self)@.update(index_of(old(self)@, id@), u@),
    {
        let change = UserUpdate { name, email, phone };
        match self.users.find_mut_and_apply(id, change) {
            Ok(u) => Ok(u),
            Err(e) => Err(ServiceError::from_registry(e)),
        }
    }

    /// Whether a user with this id exists. Never fails.
    pub fn is_user(&self, id: &str) -> (r: bool)
        requires
            self.wf(),
        ensures
            r == has_id(self@, id@),
    {
        self.users.contains_id(id)
    }

    /// Password reset is not provided: the call is reported as unsupported.
    pub fn reset_password(&mut self, _id: &str) -> (r: ServiceResult<()>)
        ensures
            r is Err && r->Err_0 is Unsupported,
            final(self)@ == old(self)@,
    {
        Err(ServiceError::unsupported("password reset is not supported"))
    }

    /// Settles a creation once the durability write has been tried: on a
    /// successful write the created record is returned; on a failed one the
    /// creation is taken back and the write's error is reported as internal.
    pub fn settle_create(&mut self, created: User, write: Result<(), String>) -> (r: ServiceResult<
        User,
    >)
        requires
            old(self).wf(),
        ensures
            final(self).wf(),
            write is Ok ==> final(self)@ == old(self)@ && (r matches Ok(u) && u@ == created@),
            write matches Err(m) ==> r matches Err(ServiceError::InternalError(msg)) && msg@
                == m@,
            write is Err && has_id(old(self)@, created@.id) ==> final(self)@ == old(self)@.remove(
                index_of(old(self)@, created@.id),
            ),
            write is Err && !has_id(old(self)@, created@.id) ==> final(self)@ == old(self)@,
    {
        match write {
            Ok(()) => Ok(created),
            Err(m) => {
                let _ = self.users.remove(created.get_user_id());
                Err(ServiceError::InternalError(m))
            },
        }
    }

    /// Settles a change once the durability write has been tried: on a
    /// successful write the changed record is returned; on a failed one the
    /// record is put back as it was before and the write's error is reported
    /// as internal. If the earlier record cannot be put back either, that is
    /// reported too.
    pub fn settle_update(&mut self, before: User, after: User, write: Result<(), String>) -> (r:
        ServiceResult<User>)
        requires
            old(self).wf(),
        ensures
            final(self).wf(),
            write is Ok ==> final(self)@ == old(self)@ && (r matches Ok(u) && u@ == after@),
            write is Err ==> r matches Err(ServiceError::InternalError(_)),
            write matches Err(m) ==> (has_id(old(self)@, before@.id) ==> (r matches Err(
                ServiceError::InternalError(msg),
            ) && msg@ == m@)),
            write is Err && has_id(old(self)@, before@.id) ==> final(self)@ == old(self)@.update(
                index_of(old(self)@, before@.id),
                before@,
            ),
            write is Err && !has_id(old(self)@, before@.id) ==> final(self)@ == old(self)@,
    {
        match write {
            Ok(()) => Ok(after),
            Err(m) => match self.users.restore(before) {
                Ok(()) => Err(ServiceError::InternalError(m)),
                Err(_) => Err(
                    ServiceError::internal_error("the earlier record could not be put back"),
                ),
            },
        }
    }
}

} // verus!
