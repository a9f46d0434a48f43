use crate::clock;
use crate::ids::{new_id, Id};
use crate::pagination::{
    effective_page, effective_page_size, get_pagination_params, pagination_accepted,
};
use crate::repo::{page_slice, slice_window, RepoError};
use crate::validation::{personal_id_valid, validate_personal_id};
use vstd::prelude::*;

verus! {

/// A pharmacist as persisted.
#[derive(Debug)]
pub struct Pharmacist {
    pub id: Id,
    pub name: String,
    pub pesel_number: String,
    pub created_at: i64,
    pub updated_at: i64,
}

impl Clone for Pharmacist {
    fn clone(&self) -> (res: Self)
        ensures
            res == *self,
    {
        Pharmacist {
            id: self.id,
            name: self.name.clone(),
            pesel_number: self.pesel_number.clone(),
            created_at: self.created_at,
            updated_at: self.updated_at,
        }
    }
}

/// A pharmacist validated and ready for persistence.
#[derive(Debug)]
pub struct NewPharmacist {
    pub id: Id,
    pub name: String,
    pub pesel_number: String,
}

impl Clone for NewPharmacist {
    fn clone(&self) -> (res: Self)
        ensures
            res == *self,
    {
        NewPharmacist {
            id: self.id,
            name: self.name.clone(),
            pesel_number: self.pesel_number.clone(),
        }
    }
}

#[derive(Debug, Clone, Copy, PartialEq, Eq, Structural)]
pub enum NewPharmacistError {
    InvalidPeselNumber,
}

impl NewPharmacistError {
    pub fn message(&self) -> (r: String)
        ensures
            r@ == "invalid personal identity number"@,
    {
        String::from_str("invalid personal identity number")
    }
}

impl NewPharmacist {
    /// The single place a pharmacist becomes valid: accepts the name and
    /// personal identity number exactly when the number validates, and
    /// assigns a fresh id.
    pub fn new(name: String, pesel_number: String) -> (res: Result<
        NewPharmacist,
        NewPharmacistError,
    >)
        ensures
            res is Ok <==> personal_id_valid(pesel_number@),
            res matches Ok(p) ==> p.name@ == name@ && p.pesel_number@ == pesel_number@,
    {
        let valid = match validate_personal_id(pesel_number) {
            Ok(v) => v,
            Err(_) => {
                return Err(NewPharmacistError::InvalidPeselNumber);
            },
        };
        Ok(NewPharmacist { id: new_id(), name, pesel_number: valid.into_value() })
    }
}

/// The repository port for pharmacists; same shape and guarantees as the
/// other entity ports.
pub trait PharmacistsRepositoryTrait: Sized {
    /// The stored pharmacists, in creation order.
    spec fn pharmacists(&self) -> Seq<Pharmacist>;

    fn create_pharmacist(&mut self, new_pharmacist: NewPharmacist) -> (res: Result<
        Pharmacist,
        RepoError,
    >)
        requires
            personal_id_valid(new_pharmacist.pesel_number@),
        ensures
            res matches Ok(p) ==> {
                &&& p.id == new_pharmacist.id
                &&& p.name@ == new_pharmacist.name@
                &&& p.pesel_number@ == new_pharmacist.pesel_number@
                &&& final(self).pharmacists() == old(self).pharmacists().push(p)
                &&& forall|j: int|
                    0 <= j < old(self).pharmacists().len() ==> (#[trigger] old(
                        self,
                    ).pharmacists()[j]).pesel_number@ != new_pharmacist.pesel_number@
            },
            res is Err ==> final(self).pharmacists() == old(self).pharmacists(),
            (exists|j: int|
                0 <= j < old(self).pharmacists().len() && (#[trigger] old(
                    self,
                ).pharmacists()[j]).pesel_number@ == new_pharmacist.pesel_number@) ==> res == Err::<
                Pharmacist,
                RepoError,
            >(RepoError::Duplicate),
    ;

    fn get_pharmacist_by_id(&self, pharmacist_id: Id) -> (res: Result<Pharmacist, RepoError>)
        ensures
            res matches Ok(p) ==> p.id == pharmacist_id && self.pharmacists().contains(p),
            (forall|j: int|
                0 <= j < self.pharmacists().len() ==> (#[trigger] self.pharmacists()[j]).id
                    != pharmacist_id) ==> res == Err::<Pharmacist, RepoError>(RepoError::NotFound),
    ;

    fn get_pharmacists(&self, page: Option<i64>, page_size: Option<i64>) -> (res: Result<
        Vec<Pharmacist>,
        RepoError,
    >)
        requires
            pagination_accepted(page, page_size) ==> (effective_page(page) + 1)
                * effective_page_size(page_size) <= i64::MAX as int,
        ensures
            !pagination_accepted(page, page_size) ==> res == Err::<Vec<Pharmacist>, RepoError>(
                RepoError::InvalidPagination,
            ),
            res matches Ok(v) ==> pagination_accepted(page, page_size) && v@ == page_slice(
                self.pharmacists(),
                effective_page(page),
                effective_page_size(page_size),
            ),
    ;
}

/// An in-memory pharmacists repository, proved against the full port
/// contract.
pub struct InMemoryPharmacistsRepository {
    pharmacists: Vec<Pharmacist>,
}

impl InMemoryPharmacistsRepository {
    pub fn new() -> (r: Self)
        ensures
            r.pharmacists() == Seq::<Pharmacist>::empty(),
    {
        InMemoryPharmacistsRepository { pharmacists: Vec::new() }
    }
}

impl PharmacistsRepositoryTrait for InMemoryPharmacistsRepository {
    closed spec fn pharmacists(&self) -> Seq<Pharmacist> {
        self.pharmacists@
    }

    fn create_pharmacist(&mut self, new_pharmacist: NewPharmacist) -> (res: Result<
        Pharmacist,
        RepoError,
    >)
        ensures
            res is Ok <==> forall|j: int|
                0 <= j < old(self).pharmacists().len() ==> (#[trigger] old(
                    self,
                ).pharmacists()[j]).pesel_number@ != new_pharmacist.pesel_number@,
    {
        let mut i: usize = 0;
        while i < self.pharmacists.len()
            invariant
                i <= self.pharmacists.len(),
                forall|j: int|
                    0 <= j < i ==> (#[trigger] self.pharmacists@[j]).pesel_number@
                        != new_pharmacist.pesel_number@,
            decreases self.pharmacists.len() - i,
        {
            if self.pharmacists[i].pesel_number == new_pharmacist.pesel_number {
                proof {
                    assert((#[trigger] self.pharmacists()[i as int]).pesel_number@
                        == new_pharmacist.pesel_number@);
                }
                return Err(RepoError::Duplicate);
            }
            i += 1;
        }
        let now = clock::now_millis();
        let pharmacist = Pharmacist {
            id: new_pharmacist.id,
            name: new_pharmacist.name,
            pesel_number: new_pharmacist.pesel_number,
            created_at: now,
            updated_at: now,
        };
        self.pharmacists.push(pharmacist.clone());
        Ok(pharmacist)
    }

    fn get_pharmacist_by_id(&self, pharmacist_id: Id) -> (res: Result<Pharmacist, RepoError>)
        ensures
            res is Ok <==> exists|j: int|
                0 <= j < self.pharmacists().len() && (#[trigger] self.pharmacists()[j]).id
                    == pharmacist_id,
    {
        let mut i: usize = 0;
        while i < self.pharmacists.len()
            invariant
                i <= self.pharmacists.len(),
                forall|j: int| 0 <= j < i ==> (#[trigger] self.pharmacists@[j]).id != pharmacist_id,
            decreases self.pharmacists.len() - i,
        {
            if self.pharmacists[i].id == pharmacist_id {
                let found = self.pharmacists[i].clone();
                proof {
                    assert((#[trigger] self.pharmacists()[i as int]).id == pharmacist_id);
                    assert(self.pharmacists().contains(found));
                }
                return Ok(found);
            }
            i += 1;
        }
        Err(RepoError::NotFound)
    }

    fn get_pharmacists(&self, page: Option<i64>, page_size: Option<i64>) -> (res: Result<
        Vec<Pharmacist>,
        RepoError,
    >)
        ensures
            res is Ok <==> pagination_accepted(page, page_size),
    {
        proof {
            if pagination_accepted(page, page_size) {
                assert((effective_page(page) + 1) * effective_page_size(page_size) == effective_page(
                    page,
                ) * effective_page_size(page_size) + effective_page_size(page_size))
                    by (nonlinear_arith);
            }
        }
        let (limit, offset) = match get_pagination_params(page, page_size) {
            Ok(pair) => pair,
            Err(_) => {
                return Err(RepoError::InvalidPagination);
            },
        };
        let ghost s = self.pharmacists@;
        let mut out: Vec<Pharmacist> = Vec::new();
        let mut j: usize = 0;
        while j < self.pharmacists.len()
            invariant
                j <= self.pharmacists.len(),
                s == self.pharmacists@,
                offset >= 0,
                limit >= 1,
                out@ == slice_window(s.take(j as int), offset as int, limit as int),
            decreases self.pharmacists.len() - j,
        {
            if j as u128 >= offset as u128 && (j as u128) < offset as u128 + limit as u128 {
                out.push(self.pharmacists[j].clone());
                proof {
                    assert(out@ =~= slice_window(s.take(j + 1), offset as int, limit as int));
                }
            } else {
                proof {
                    assert(out@ =~= slice_window(s.take(j + 1), offset as int, limit as int));
                }
            }
            j += 1;
        }
        proof {
            assert(s.take(s.len() as int) =~= s);
            assert(out@ == page_slice(
                self.pharmacists(),
                effective_page(page),
                effective_page_size(page_size),
            ));
        }
        Ok(out)
    }
}

#[derive(Debug)]
pub enum CreatePharmacistError {
    ValidationError(String),
    DatabaseError(String),
}

#[derive(Debug)]
pub enum GetPharmacistByIdError {
    InputError,
    DatabaseError(String),
}

#[derive(Debug)]
pub enum GetPharmacistWithPaginationError {
    InputError(String),
}

/// The pharmacists service: constructs a validated pharmacist, delegates to
/// the repository port, and maps each failure to its service-level category.
#[derive(Clone)]
pub struct PharmacistsService<R: PharmacistsRepositoryTrait> {
    repository: R,
}

impl<R: PharmacistsRepositoryTrait> PharmacistsService<R> {
    /// The pharmacists the backing repository holds, in creation order.
    pub closed spec fn pharmacists(&self) -> Seq<Pharmacist> {
        self.repository.pharmacists()
    }

    pub fn new(repository: R) -> (s: Self)
        ensures
            s.pharmacists() == repository.pharmacists(),
    {
        Self { repository }
    }

    pub fn create_pharmacist(&mut self, name: String, pesel_number: String) -> (res: Result<
        Pharmacist,
        CreatePharmacistError,
    >)
        ensures
            res matches Err(CreatePharmacistError::ValidationError(_)) <==> !personal_id_valid(
                pesel_number@,
            ),
            res matches Ok(p) ==> {
                &&& p.name@ == name@
                &&& p.pesel_number@ == pesel_number@
                &&& final(self).pharmacists() == old(self).pharmacists().push(p)
                &&& forall|j: int|
                    0 <= j < old(self).pharmacists().len() ==> (#[trigger] old(
                        self,
                    ).pharmacists()[j]).pesel_number@ != pesel_number@
            },
            res is Err ==> final(self).pharmacists() == old(self).pharmacists(),
            (personal_id_valid(pesel_number@) && exists|j: int|
                0 <= j < old(self).pharmacists().len() && (#[trigger] old(
                    self,
                ).pharmacists()[j]).pesel_number@ == pesel_number@) ==> res matches Err(
                CreatePharmacistError::DatabaseError(_),
            ),
    {
        let new_pharmacist = match NewPharmacist::new(name, pesel_number) {
            Ok(p) => p,
            Err(e) => {
                return Err(CreatePharmacistError::ValidationError(e.message()));
            },
        };
        match self.repository.create_pharmacist(new_pharmacist) {
            Ok(p) => Ok(p),
            Err(e) => Err(CreatePharmacistError::DatabaseError(e.message())),
        }
    }

    pub fn get_pharmacist_by_id(&self, pharmacist_id: Id) -> (res: Result<
        Pharmacist,
        GetPharmacistByIdError,
    >)
        ensures
            res matches Ok(p) ==> p.id == pharmacist_id && self.pharmacists().contains(p),
            (forall|j: int|
                0 <= j < self.pharmacists().len() ==> (#[trigger] self.pharmacists()[j]).id
                    != pharmacist_id) ==> res matches Err(GetPharmacistByIdError::DatabaseError(_)),
    {
        match self.repository.get_pharmacist_by_id(pharmacist_id) {
            Ok(p) => Ok(p),
            Err(e) => Err(GetPharmacistByIdError::DatabaseError(e.message())),
        }
    }

    pub fn get_pharmacists_with_pagination(
        &self,
        page: Option<i64>,
        page_size: Option<i64>,
    ) -> (res: Result<Vec<Pharmacist>, GetPharmacistWithPaginationError>)
        requires
            pagination_accepted(page, page_size) ==> (effective_page(page) + 1)
                * effective_page_size(page_size) <= i64::MAX as int,
        ensures
            !pagination_accepted(page, page_size) ==> res matches Err(
                GetPharmacistWithPaginationError::InputError(_),
            ),
            res matches Ok(v) ==> pagination_accepted(page, page_size) && v@ == page_slice(
                self.pharmacists(),
                effective_page(page),
                effective_page_size(page_size),
            ),
    {
        match self.repository.get_pharmacists(page, page_size) {
            Ok(v) => Ok(v),
            Err(e) => Err(GetPharmacistWithPaginationError::InputError(e.message())),
        }
    }
}

} // verus!
