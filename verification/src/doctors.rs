use crate::clock;
use crate::ids::{new_id, Id};
use crate::pagination::{
    effective_page, effective_page_size, get_pagination_params, pagination_accepted,
};
use crate::repo::{page_slice, slice_window, RepoError};
use crate::validation::{
    license_number_valid, personal_id_valid, validate_license_number, validate_personal_id,
};
use vstd::prelude::*;

verus! {

/// A doctor as persisted.
#[derive(Debug)]
pub struct Doctor {
    pub id: Id,
    pub name: String,
    pub pwz_number: String,
    pub pesel_number: String,
    pub created_at: i64,
    pub updated_at: i64,
}

impl Clone for Doctor {
    fn clone(&self) -> (res: Self)
        ensures
            res == *self,
    {
        Doctor {
            id: self.id,
            name: self.name.clone(),
            pwz_number: self.pwz_number.clone(),
            pesel_number: self.pesel_number.clone(),
            created_at: self.created_at,
            updated_at: self.updated_at,
        }
    }
}

/// A doctor validated and ready for persistence.
#[derive(Debug)]
pub struct NewDoctor {
    pub id: Id,
    pub name: String,
    pub pwz_number: String,
    pub pesel_number: String,
}

impl Clone for NewDoctor {
    fn clone(&self) -> (res: Self)
        ensures
            res == *self,
    {
        NewDoctor {
            id: self.id,
            name: self.name.clone(),
            pwz_number: self.pwz_number.clone(),
            pesel_number: self.pesel_number.clone(),
        }
    }
}

/// Which field of a new doctor failed validation; the first invalid field,
/// in declaration order, is reported.
#[derive(Debug, Clone, Copy, PartialEq, Eq, Structural)]
pub enum NewDoctorError {
    InvalidPwzNumber,
    InvalidPeselNumber,
}

impl NewDoctorError {
    pub fn message(&self) -> (r: String)
        ensures
            self is InvalidPwzNumber ==> r@ == "invalid license number"@,
            self is InvalidPeselNumber ==> r@ == "invalid personal identity number"@,
    {
        match self {
            NewDoctorError::InvalidPwzNumber => String::from_str("invalid license number"),
            NewDoctorError::InvalidPeselNumber => String::from_str(
                "invalid personal identity number",
            ),
        }
    }
}

impl NewDoctor {
    /// The single place a doctor becomes valid: accepts the name, license
    /// number and personal identity number exactly when both numbers
    /// validate, reports the first invalid field, and assigns a fresh id.
    pub fn new(name: String, pwz_number: String, pesel_number: String) -> (res: Result<
        NewDoctor,
        NewDoctorError,
    >)
        ensures
            res is Ok <==> license_number_valid(pwz_number@) && personal_id_valid(pesel_number@),
            res == Err::<NewDoctor, NewDoctorError>(NewDoctorError::InvalidPwzNumber)
                <==> !license_number_valid(pwz_number@),
            res == Err::<NewDoctor, NewDoctorError>(NewDoctorError::InvalidPeselNumber)
                <==> license_number_valid(pwz_number@) && !personal_id_valid(pesel_number@),
            res matches Ok(d) ==> d.name@ == name@ && d.pwz_number@ == pwz_number@
                && d.pesel_number@ == pesel_number@,
    {
        let valid_pwz = match validate_license_number(pwz_number) {
            Ok(v) => v,
            Err(_) => {
                return Err(NewDoctorError::InvalidPwzNumber);
            },
        };
        let valid_pesel = match validate_personal_id(pesel_number) {
            Ok(v) => v,
            Err(_) => {
                return Err(NewDoctorError::InvalidPeselNumber);
            },
        };
        Ok(
            NewDoctor {
                id: new_id(),
                name,
                pwz_number: valid_pwz.into_value(),
                pesel_number: valid_pesel.into_value(),
            },
        )
    }
}

/// The repository port for doctors. Both the personal identity number and
/// the license number are unique across stored doctors.
pub trait DoctorsRepositoryTrait: Sized {
    /// The stored doctors, in creation order.
    spec fn doctors(&self) -> Seq<Doctor>;

    fn create_doctor(&mut self, new_doctor: NewDoctor) -> (res: Result<Doctor, RepoError>)
        requires
            license_number_valid(new_doctor.pwz_number@),
            personal_id_valid(new_doctor.pesel_number@),
        ensures
            res matches Ok(d) ==> {
                &&& d.id == new_doctor.id
                &&& d.name@ == new_doctor.name@
                &&& d.pwz_number@ == new_doctor.pwz_number@
                &&& d.pesel_number@ == new_doctor.pesel_number@
                &&& final(self).doctors() == old(self).doctors().push(d)
                &&& forall|j: int|
                    0 <= j < old(self).doctors().len() ==> (#[trigger] old(
                        self,
                    ).doctors()[j]).pesel_number@ != new_doctor.pesel_number@ && old(
                        self,
                    ).doctors()[j].pwz_number@ != new_doctor.pwz_number@
            },
            res is Err ==> final(self).doctors() == old(self).doctors(),
            (exists|j: int|
                0 <= j < old(self).doctors().len() && ((#[trigger] old(
                    self,
                ).doctors()[j]).pesel_number@ == new_doctor.pesel_number@ || old(
                    self,
                ).doctors()[j].pwz_number@ == new_doctor.pwz_number@)) ==> res == Err::<
                Doctor,
                RepoError,
            >(RepoError::Duplicate),
    ;

    fn get_doctor_by_id(&self, doctor_id: Id) -> (res: Result<Doctor, RepoError>)
        ensures
            res matches Ok(d) ==> d.id == doctor_id && self.doctors().contains(d),
            (forall|j: int|
                0 <= j < self.doctors().len() ==> (#[trigger] self.doctors()[j]).id != doctor_id)
                ==> res == Err::<Doctor, RepoError>(RepoError::NotFound),
    ;

    fn get_doctors(&self, page: Option<i64>, page_size: Option<i64>) -> (res: Result<
        Vec<Doctor>,
        RepoError,
    >)
        requires
            pagination_accepted(page, page_size) ==> (effective_page(page) + 1)
                * effective_page_size(page_size) <= i64::MAX as int,
        ensures
            !pagination_accepted(page, page_size) ==> res == Err::<Vec<Doctor>, RepoError>(
                RepoError::InvalidPagination,
            ),
            res matches Ok(v) ==> pagination_accepted(page, page_size) && v@ == page_slice(
                self.doctors(),
                effective_page(page),
                effective_page_size(page_size),
            ),
    ;
}

/// An in-memory doctors repository, proved against the full port contract.
pub struct InMemoryDoctorsRepository {
    doctors: Vec<Doctor>,
}

impl InMemoryDoctorsRepository {
    pub fn new() -> (r: Self)
        ensures
            r.doctors() == Seq::<Doctor>::empty(),
    {
        InMemoryDoctorsRepository { doctors: Vec::new() }
    }
}

impl DoctorsRepositoryTrait for InMemoryDoctorsRepository {
    closed spec fn doctors(&self) -> Seq<Doctor> {
        self.doctors@
    }

    fn create_doctor(&mut self, new_doctor: NewDoctor) -> (res: Result<Doctor, RepoError>)
        ensures
            res is Ok <==> forall|j: int|
                0 <= j < old(self).doctors().len() ==> (#[trigger] old(
                    self,
                ).doctors()[j]).pesel_number@ != new_doctor.pesel_number@ && old(
                    self,
                ).doctors()[j].pwz_number@ != new_doctor.pwz_number@,
    {
        let mut i: usize = 0;
        while i < self.doctors.len()
            invariant
                i <= self.doctors.len(),
                forall|j: int|
                    0 <= j < i ==> (#[trigger] self.doctors@[j]).pesel_number@
                        != new_doctor.pesel_number@ && self.doctors@[j].pwz_number@
                        != new_doctor.pwz_number@,
            decreases self.doctors.len() - i,
        {
            if self.doctors[i].pesel_number == new_doctor.pesel_number || self.doctors[i].pwz_number
                == new_doctor.pwz_number {
                proof {
                    assert((#[trigger] self.doctors()[i as int]).pesel_number@
                        == new_doctor.pesel_number@ || self.doctors()[i as int].pwz_number@
                        == new_doctor.pwz_number@);
                }
                return Err(RepoError::Duplicate);
            }
            i += 1;
        }
        let now = clock::now_millis();
        let doctor = Doctor {
            id: new_doctor.id,
            name: new_doctor.name,
            pwz_number: new_doctor.pwz_number,
            pesel_number: new_doctor.pesel_number,
            created_at: now,
            updated_at: now,
        };
        self.doctors.push(doctor.clone());
        Ok(doctor)
    }

    fn get_doctor_by_id(&self, doctor_id: Id) -> (res: Result<Doctor, RepoError>)
        ensures
            res is Ok <==> exists|j: int|
                0 <= j < self.doctors().len() && (#[trigger] self.doctors()[j]).id == doctor_id,
    {
        let mut i: usize = 0;
        while i < self.doctors.len()
            invariant
                i <= self.doctors.len(),
                forall|j: int| 0 <= j < i ==> (#[trigger] self.doctors@[j]).id != doctor_id,
            decreases self.doctors.len() - i,
        {
            if self.doctors[i].id == doctor_id {
                let found = self.doctors[i].clone();
                proof {
                    assert((#[trigger] self.doctors()[i as int]).id == doctor_id);
                    assert(self.doctors().contains(found));
                }
                return Ok(found);
            }
            i += 1;
        }
        Err(RepoError::NotFound)
    }

    fn get_doctors(&self, page: Option<i64>, page_size: Option<i64>) -> (res: Result<
        Vec<Doctor>,
        RepoError,
    >)
        ensures
            res is Ok <==> pagination_accepted(page, page_size),
    {
        proof {
            if pagination_accepted(page, page_size) {
                assert((effective_page(page) + 1) * effective_page_size(page_size) == effective_page(
                    page,
                ) * effective_page_size(page_size) + effective_page_size(page_size))
                    by (nonlinear_arith);
            }
        }
        let (limit, offset) = match get_pagination_params(page, page_size) {
            Ok(pair) => pair,
            Err(_) => {
                return Err(RepoError::InvalidPagination);
            },
        };
        let ghost s = self.doctors@;
        let mut out: Vec<Doctor> = Vec::new();
        let mut j: usize = 0;
        while j < self.doctors.len()
            invariant
                j <= self.doctors.len(),
                s == self.doctors@,
                offset >= 0,
                limit >= 1,
                out@ == slice_window(s.take(j as int), offset as int, limit as int),
            decreases self.doctors.len() - j,
        {
            if j as u128 >= offset as u128 && (j as u128) < offset as u128 + limit as u128 {
                out.push(self.doctors[j].clone());
                proof {
                    assert(out@ =~= slice_window(s.take(j + 1), offset as int, limit as int));
                }
            } else {
                proof {
                    assert(out@ =~= slice_window(s.take(j + 1), offset as int, limit as int));
                }
            }
            j += 1;
        }
        proof {
            assert(s.take(s.len() as int) =~= s);
            assert(out@ == page_slice(
                self.doctors(),
                effective_page(page),
                effective_page_size(page_size),
            ));
        }
        Ok(out)
    }
}

} // verus!
