use crate::clock;
use crate::ids::{new_id, Id};
use crate::pagination::{
    effective_page, effective_page_size, get_pagination_params, pagination_accepted,
};
use crate::repo::{page_slice, slice_window, RepoError};
use crate::validation::{personal_id_valid, validate_personal_id};
use vstd::prelude::*;

verus! {

/// A patient as persisted.
#[derive(Debug)]
pub struct Patient {
    pub id: Id,
    pub name: String,
    pub pesel_number: String,
    pub created_at: i64,
    pub updated_at: i64,
}

impl Clone for Patient {
    fn clone(&self) -> (res: Self)
        ensures
            res == *self,
    {
        Patient {
            id: self.id,
            name: self.name.clone(),
            pesel_number: self.pesel_number.clone(),
            created_at: self.created_at,
            updated_at: self.updated_at,
        }
    }
}

/// A patient validated and ready for persistence.
#[derive(Debug)]
pub struct NewPatient {
    pub id: Id,
    pub name: String,
    pub pesel_number: String,
}

impl Clone for NewPatient {
    fn clone(&self) -> (res: Self)
        ensures
            res == *self,
    {
        NewPatient {
            id: self.id,
            name: self.name.clone(),
            pesel_number: self.pesel_number.clone(),
        }
    }
}

#[derive(Debug, Clone, Copy, PartialEq, Eq, Structural)]
pub enum NewPatientError {
    InvalidPeselNumber,
}

impl NewPatientError {
    pub fn message(&self) -> (r: String)
        ensures
            r@ == "invalid personal identity number"@,
    {
        String::from_str("invalid personal identity number")
    }
}

impl NewPatient {
    /// The single place a patient becomes valid: accepts the name and
    /// personal identity number exactly when the number validates, and
    /// assigns a fresh id.
    pub fn new(name: String, pesel_number: String) -> (res: Result<NewPatient, NewPatientError>)
        ensures
            res is Ok <==> personal_id_valid(pesel_number@),
            res matches Ok(p) ==> p.name@ == name@ && p.pesel_number@ == pesel_number@,
    {
        let valid = match validate_personal_id(pesel_number) {
            Ok(v) => v,
            Err(_) => {
                return Err(NewPatientError::InvalidPeselNumber);
            },
        };
        Ok(NewPatient { id: new_id(), name, pesel_number: valid.into_value() })
    }
}

/// The repository port for patients. Its contract is what every caller may
/// rely on: creation persists exactly the validated value and refuses a
/// duplicate identity number, reads return stored values, and listings obey
/// the shared pagination policy.
pub trait PatientsRepositoryTrait: Sized {
    /// The stored patients, in creation order.
    spec fn patients(&self) -> Seq<Patient>;

    fn create_patient(&mut self, new_patient: NewPatient) -> (res: Result<Patient, RepoError>)
        requires
            personal_id_valid(new_patient.pesel_number@),
        ensures
            res matches Ok(p) ==> {
                &&& p.id == new_patient.id
                &&& p.name@ == new_patient.name@
                &&& p.pesel_number@ == new_patient.pesel_number@
                &&& final(self).patients() == old(self).patients().push(p)
                &&& forall|j: int|
                    0 <= j < old(self).patients().len() ==> (#[trigger] old(
                        self,
                    ).patients()[j]).pesel_number@ != new_patient.pesel_number@
            },
            res is Err ==> final(self).patients() == old(self).patients(),
            (exists|j: int|
                0 <= j < old(self).patients().len() && (#[trigger] old(
                    self,
                ).patients()[j]).pesel_number@ == new_patient.pesel_number@) ==> res == Err::<
                Patient,
                RepoError,
            >(RepoError::Duplicate),
    ;

    fn get_patient_by_id(&self, patient_id: Id) -> (res: Result<Patient, RepoError>)
        ensures
            res matches Ok(p) ==> p.id == patient_id && self.patients().contains(p),
            (forall|j: int|
                0 <= j < self.patients().len() ==> (#[trigger] self.patients()[j]).id
                    != patient_id) ==> res == Err::<Patient, RepoError>(RepoError::NotFound),
    ;

    fn get_patients(&self, page: Option<i64>, page_size: Option<i64>) -> (res: Result<
        Vec<Patient>,
        RepoError,
    >)
        requires
            pagination_accepted(page, page_size) ==> (effective_page(page) + 1)
                * effective_page_size(page_size) <= i64::MAX as int,
        ensures
            !pagination_accepted(page, page_size) ==> res == Err::<Vec<Patient>, RepoError>(
                RepoError::InvalidPagination,
            ),
            res matches Ok(v) ==> pagination_accepted(page, page_size) && v@ == page_slice(
                self.patients(),
                effective_page(page),
                effective_page_size(page_size),
            ),
    ;
}

/// An in-memory patients repository: the storage collaborator used by tests,
/// proved against the full port contract.
pub struct InMemoryPatientsRepository {
    patients: Vec<Patient>,
}

impl InMemoryPatientsRepository {
    pub fn new() -> (r: Self)
        ensures
            r.patients() == Seq::<Patient>::empty(),
    {
        InMemoryPatientsRepository { patients: Vec::new() }
    }
}

impl PatientsRepositoryTrait for InMemoryPatientsRepository {
    closed spec fn patients(&self) -> Seq<Patient> {
        self.patients@
    }

    fn create_patient(&mut self, new_patient: NewPatient) -> (res: Result<Patient, RepoError>)
        ensures
            res is Ok <==> forall|j: int|
                0 <= j < old(self).patients().len() ==> (#[trigger] old(
                    self,
                ).patients()[j]).pesel_number@ != new_patient.pesel_number@,
    {
        let mut i: usize = 0;
        while i < self.patients.len()
            invariant
                i <= self.patients.len(),
                forall|j: int|
                    0 <= j < i ==> (#[trigger] self.patients@[j]).pesel_number@
                        != new_patient.pesel_number@,
            decreases self.patients.len() - i,
        {
            if self.patients[i].pesel_number == new_patient.pesel_number {
                proof {
                    assert((#[trigger] self.patients()[i as int]).pesel_number@
                        == new_patient.pesel_number@);
                }
                return Err(RepoError::Duplicate);
            }
            i += 1;
        }
        let now = clock::now_millis();
        let patient = Patient {
            id: new_patient.id,
            name: new_patient.name,
            pesel_number: new_patient.pesel_number,
            created_at: now,
            updated_at: now,
        };
        self.patients.push(patient.clone());
        Ok(patient)
    }

    fn get_patient_by_id(&self, patient_id: Id) -> (res: Result<Patient, RepoError>)
        ensures
            res is Ok <==> exists|j: int|
                0 <= j < self.patients().len() && (#[trigger] self.patients()[j]).id == patient_id,
    {
        let mut i: usize = 0;
        while i < self.patients.len()
            invariant
                i <= self.patients.len(),
                forall|j: int| 0 <= j < i ==> (#[trigger] self.patients@[j]).id != patient_id,
            decreases self.patients.len() - i,
        {
            if self.patients[i].id == patient_id {
                let found = self.patients[i].clone();
                proof {
                    assert((#[trigger] self.patients()[i as int]).id == patient_id);
                    assert(self.patients().contains(found));
                }
                return Ok(found);
            }
            i += 1;
        }
        Err(RepoError::NotFound)
    }

    fn get_patients(&self, page: Option<i64>, page_size: Option<i64>) -> (res: Result<
        Vec<Patient>,
        RepoError,
    >)
        ensures
            res is Ok <==> pagination_accepted(page, page_size),
    {
        proof {
            if pagination_accepted(page, page_size) {
                assert((effective_page(page) + 1) * effective_page_size(page_size) == effective_page(
                    page,
                ) * effective_page_size(page_size) + effective_page_size(page_size))
                    by (nonlinear_arith);
            }
        }
        let (limit, offset) = match get_pagination_params(page, page_size) {
            Ok(pair) => pair,
            Err(_) => {
                return Err(RepoError::InvalidPagination);
            },
        };
        let ghost s = self.patients@;
        let mut out: Vec<Patient> = Vec::new();
        let mut j: usize = 0;
        while j < self.patients.len()
            invariant
                j <= self.patients.len(),
                s == self.patients@,
                offset >= 0,
                limit >= 1,
                out@ == slice_window(s.take(j as int), offset as int, limit as int),
            decreases self.patients.len() - j,
        {
            if j as u128 >= offset as u128 && (j as u128) < offset as u128 + limit as u128 {
                out.push(self.patients[j].clone());
                proof {
                    assert(out@ =~= slice_window(s.take(j + 1), offset as int, limit as int));
                }
            } else {
                proof {
                    assert(out@ =~= slice_window(s.take(j + 1), offset as int, limit as int));
                }
            }
            j += 1;
        }
        proof {
            assert(s.take(s.len() as int) =~= s);
            assert(out@ == page_slice(
                self.patients(),
                effective_page(page),
                effective_page_size(page_size),
            ));
        }
        Ok(out)
    }
}

#[derive(Debug)]
pub enum CreatePatientError {
    DomainError(String),
    RepositoryError(String),
}

#[derive(Debug)]
pub enum GetPatientByIdError {
    DomainError,
    RepositoryError(String),
}

#[derive(Debug)]
pub enum GetPatientWithPaginationError {
    DomainError(String),
}

/// The patients service: constructs a validated patient, delegates to the
/// repository port, and maps each failure to its service-level category.
#[derive(Clone)]
pub struct PatientsService<R: PatientsRepositoryTrait> {
    repository: R,
}

impl<R: PatientsRepositoryTrait> PatientsService<R> {
    /// The patients the backing repository holds, in creation order.
    pub closed spec fn patients(&self) -> Seq<Patient> {
        self.repository.patients()
    }

    pub fn new(repository: R) -> (s: Self)
        ensures
            s.patients() == repository.patients(),
    {
        Self { repository }
    }

    pub fn create_patient(&mut self, name: String, pesel_number: String) -> (res: Result<
        Patient,
        CreatePatientError,
    >)
        ensures
            res matches Err(CreatePatientError::DomainError(_)) <==> !personal_id_valid(
                pesel_number@,
            ),
            res matches Ok(p) ==> {
                &&& p.name@ == name@
                &&& p.pesel_number@ == pesel_number@
                &&& final(self).patients() == old(self).patients().push(p)
                &&& forall|j: int|
                    0 <= j < old(self).patients().len() ==> (#[trigger] old(
                        self,
                    ).patients()[j]).pesel_number@ != pesel_number@
            },
            res is Err ==> final(self).patients() == old(self).patients(),
            (personal_id_valid(pesel_number@) && exists|j: int|
                0 <= j < old(self).patients().len() && (#[trigger] old(
                    self,
                ).patients()[j]).pesel_number@ == pesel_number@) ==> res matches Err(
                CreatePatientError::RepositoryError(_),
            ),
    {
        let new_patient = match NewPatient::new(name, pesel_number) {
            Ok(p) => p,
            Err(e) => {
                return Err(CreatePatientError::DomainError(e.message()));
            },
        };
        match self.repository.create_patient(new_patient) {
            Ok(p) => Ok(p),
            Err(e) => Err(CreatePatientError::RepositoryError(e.message())),
        }
    }

    pub fn get_patient_by_id(&self, patient_id: Id) -> (res: Result<Patient, GetPatientByIdError>)
        ensures
            res matches Ok(p) ==> p.id == patient_id && self.patients().contains(p),
            (forall|j: int|
                0 <= j < self.patients().len() ==> (#[trigger] self.patients()[j]).id
                    != patient_id) ==> res matches Err(GetPatientByIdError::RepositoryError(_)),
    {
        match self.repository.get_patient_by_id(patient_id) {
            Ok(p) => Ok(p),
            Err(e) => Err(GetPatientByIdError::RepositoryError(e.message())),
        }
    }

    pub fn get_patients_with_pagination(&self, page: Option<i64>, page_size: Option<i64>) -> (res:
        Result<Vec<Patient>, GetPatientWithPaginationError>)
        requires
            pagination_accepted(page, page_size) ==> (effective_page(page) + 1)
                * effective_page_size(page_size) <= i64::MAX as int,
        ensures
            !pagination_accepted(page, page_size) ==> res matches Err(
                GetPatientWithPaginationError::DomainError(_),
            ),
            res matches Ok(v) ==> pagination_accepted(page, page_size) && v@ == page_slice(
                self.patients(),
                effective_page(page),
                effective_page_size(page_size),
            ),
    {
        match self.repository.get_patients(page, page_size) {
            Ok(v) => Ok(v),
            Err(e) => Err(GetPatientWithPaginationError::DomainError(e.message())),
        }
    }
}

} // verus!
