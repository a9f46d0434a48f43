use crate::clock;
use crate::ids::{new_id, Id};
use crate::pagination::{
    effective_page, effective_page_size, get_pagination_params, pagination_accepted,
};
use crate::repo::{page_slice, slice_window, RepoError};
use vstd::prelude::*;

verus! {

/// What a drug's package contains.
#[derive(Debug, Clone, Copy, PartialEq, Eq, Structural)]
pub enum DrugContentType {
    SolidPills,
    LiquidPills,
    BottleOfLiquid,
    BottleOfPills,
}

/// Exactly the attributes matching the declared content type must be
/// present, and every other attribute must be absent: pill count and mg per
/// pill for solid pills; pill count and ml per pill for liquid-filled pills;
/// the bottle volume alone for a bottle of liquid; pill count and bottle
/// volume for a bottle of pills.
pub open spec fn drug_attributes_valid(
    content_type: DrugContentType,
    pills_count: Option<i32>,
    mg_per_pill: Option<i32>,
    ml_per_pill: Option<i32>,
    volume_ml: Option<i32>,
) -> bool {
    match content_type {
        DrugContentType::SolidPills => pills_count is Some && mg_per_pill is Some
            && ml_per_pill is None && volume_ml is None,
        DrugContentType::LiquidPills => pills_count is Some && ml_per_pill is Some
            && mg_per_pill is None && volume_ml is None,
        DrugContentType::BottleOfLiquid => volume_ml is Some && pills_count is None
            && mg_per_pill is None && ml_per_pill is None,
        DrugContentType::BottleOfPills => pills_count is Some && volume_ml is Some
            && mg_per_pill is None && ml_per_pill is None,
    }
}

/// A drug as persisted.
#[derive(Debug)]
pub struct Drug {
    pub id: Id,
    pub name: String,
    pub content_type: DrugContentType,
    pub pills_count: Option<i32>,
    pub mg_per_pill: Option<i32>,
    pub ml_per_pill: Option<i32>,
    pub volume_ml: Option<i32>,
    pub created_at: i64,
    pub updated_at: i64,
}

impl Clone for Drug {
    fn clone(&self) -> (res: Self)
        ensures
            res == *self,
    {
        Drug {
            id: self.id,
            name: self.name.clone(),
            content_type: self.content_type,
            pills_count: self.pills_count,
            mg_per_pill: self.mg_per_pill,
            ml_per_pill: self.ml_per_pill,
            volume_ml: self.volume_ml,
            created_at: self.created_at,
            updated_at: self.updated_at,
        }
    }
}

/// A drug validated and ready for persistence.
#[derive(Debug)]
pub struct NewDrug {
    pub id: Id,
    pub name: String,
    pub content_type: DrugContentType,
    pub pills_count: Option<i32>,
    pub mg_per_pill: Option<i32>,
    pub ml_per_pill: Option<i32>,
    pub volume_ml: Option<i32>,
}

impl Clone for NewDrug {
    fn clone(&self) -> (res: Self)
        ensures
            res == *self,
    {
        NewDrug {
            id: self.id,
            name: self.name.clone(),
            content_type: self.content_type,
            pills_count: self.pills_count,
            mg_per_pill: self.mg_per_pill,
            ml_per_pill: self.ml_per_pill,
            volume_ml: self.volume_ml,
        }
    }
}

#[derive(Debug, Clone, Copy, PartialEq, Eq, Structural)]
pub enum NewDrugError {
    InvalidContentTypeAttributes,
}

impl NewDrugError {
    pub fn message(&self) -> (r: String)
        ensures
            r@ == "attributes do not match the declared content type"@,
    {
        String::from_str("attributes do not match the declared content type")
    }
}

impl NewDrug {
    /// The single place a drug becomes valid: accepted exactly when the
    /// attribute set matches the declared content type; assigns a fresh id.
    pub fn new(
        name: String,
        content_type: DrugContentType,
        pills_count: Option<i32>,
        mg_per_pill: Option<i32>,
        ml_per_pill: Option<i32>,
        volume_ml: Option<i32>,
    ) -> (res: Result<NewDrug, NewDrugError>)
        ensures
            res is Ok <==> drug_attributes_valid(
                content_type,
                pills_count,
                mg_per_pill,
                ml_per_pill,
                volume_ml,
            ),
            res matches Ok(d) ==> {
                &&& d.name@ == name@
                &&& d.content_type == content_type
                &&& d.pills_count == pills_count
                &&& d.mg_per_pill == mg_per_pill
                &&& d.ml_per_pill == ml_per_pill
                &&& d.volume_ml == volume_ml
            },
    {
        let valid = match content_type {
            DrugContentType::SolidPills => pills_count.is_some() && mg_per_pill.is_some()
                && ml_per_pill.is_none() && volume_ml.is_none(),
            DrugContentType::LiquidPills => pills_count.is_some() && ml_per_pill.is_some()
                && mg_per_pill.is_none() && volume_ml.is_none(),
            DrugContentType::BottleOfLiquid => volume_ml.is_some() && pills_count.is_none()
                && mg_per_pill.is_none() && ml_per_pill.is_none(),
            DrugContentType::BottleOfPills => pills_count.is_some() && volume_ml.is_some()
                && mg_per_pill.is_none() && ml_per_pill.is_none(),
        };
        if !valid {
            return Err(NewDrugError::InvalidContentTypeAttributes);
        }
        Ok(
            NewDrug {
                id: new_id(),
                name,
                content_type,
                pills_count,
                mg_per_pill,
                ml_per_pill,
                volume_ml,
            },
        )
    }
}

/// The repository port for drugs; same shape and guarantees as the other
/// entity ports. Drugs carry no unique business key, so creation always
/// stores the validated value.
pub trait DrugsRepositoryTrait: Sized {
    /// The stored drugs, in creation order.
    spec fn drugs(&self) -> Seq<Drug>;

    fn create_drug(&mut self, new_drug: NewDrug) -> (res: Result<Drug, RepoError>)
        requires
            drug_attributes_valid(
                new_drug.content_type,
                new_drug.pills_count,
                new_drug.mg_per_pill,
                new_drug.ml_per_pill,
                new_drug.volume_ml,
            ),
        ensures
            res matches Ok(d) ==> {
                &&& d.id == new_drug.id
                &&& d.name@ == new_drug.name@
                &&& d.content_type == new_drug.content_type
                &&& d.pills_count == new_drug.pills_count
                &&& d.mg_per_pill == new_drug.mg_per_pill
                &&& d.ml_per_pill == new_drug.ml_per_pill
                &&& d.volume_ml == new_drug.volume_ml
                &&& final(self).drugs() == old(self).drugs().push(d)
            },
            res is Err ==> final(self).drugs() == old(self).drugs(),
    ;

    fn get_drug_by_id(&self, drug_id: Id) -> (res: Result<Drug, RepoError>)
        ensures
            res matches Ok(d) ==> d.id == drug_id && self.drugs().contains(d),
            (forall|j: int|
                0 <= j < self.drugs().len() ==> (#[trigger] self.drugs()[j]).id != drug_id) ==> res
                == Err::<Drug, RepoError>(RepoError::NotFound),
    ;

    fn get_drugs(&self, page: Option<i64>, page_size: Option<i64>) -> (res: Result<
        Vec<Drug>,
        RepoError,
    >)
        requires
            pagination_accepted(page, page_size) ==> (effective_page(page) + 1)
                * effective_page_size(page_size) <= i64::MAX as int,
        ensures
            !pagination_accepted(page, page_size) ==> res == Err::<Vec<Drug>, RepoError>(
                RepoError::InvalidPagination,
            ),
            res matches Ok(v) ==> pagination_accepted(page, page_size) && v@ == page_slice(
                self.drugs(),
                effective_page(page),
                effective_page_size(page_size),
            ),
    ;
}

/// An in-memory drugs repository, proved against the full port contract.
pub struct InMemoryDrugsRepository {
    drugs: Vec<Drug>,
}

impl InMemoryDrugsRepository {
    pub fn new() -> (r: Self)
        ensures
            r.drugs() == Seq::<Drug>::empty(),
    {
        InMemoryDrugsRepository { drugs: Vec::new() }
    }
}

impl DrugsRepositoryTrait for InMemoryDrugsRepository {
    closed spec fn drugs(&self) -> Seq<Drug> {
        self.drugs@
    }

    fn create_drug(&mut self, new_drug: NewDrug) -> (res: Result<Drug, RepoError>)
        ensures
            res is Ok,
    {
        let now = clock::now_millis();
        let drug = Drug {
            id: new_drug.id,
            name: new_drug.name,
            content_type: new_drug.content_type,
            pills_count: new_drug.pills_count,
            mg_per_pill: new_drug.mg_per_pill,
            ml_per_pill: new_drug.ml_per_pill,
            volume_ml: new_drug.volume_ml,
            created_at: now,
            updated_at: now,
        };
        self.drugs.push(drug.clone());
        Ok(drug)
    }

    fn get_drug_by_id(&self, drug_id: Id) -> (res: Result<Drug, RepoError>)
        ensures
            res is Ok <==> exists|j: int|
                0 <= j < self.drugs().len() && (#[trigger] self.drugs()[j]).id == drug_id,
    {
        let mut i: usize = 0;
        while i < self.drugs.len()
            invariant
                i <= self.drugs.len(),
                forall|j: int| 0 <= j < i ==> (#[trigger] self.drugs@[j]).id != drug_id,
            decreases self.drugs.len() - i,
        {
            if self.drugs[i].id == drug_id {
                let found = self.drugs[i].clone();
                proof {
                    assert((#[trigger] self.drugs()[i as int]).id == drug_id);
                    assert(self.drugs().contains(found));
                }
                return Ok(found);
            }
            i += 1;
        }
        Err(RepoError::NotFound)
    }

    fn get_drugs(&self, page: Option<i64>, page_size: Option<i64>) -> (res: Result<
        Vec<Drug>,
        RepoError,
    >)
        ensures
            res is Ok <==> pagination_accepted(page, page_size),
    {
        proof {
            if pagination_accepted(page, page_size) {
                assert((effective_page(page) + 1) * effective_page_size(page_size) == effective_page(
                    page,
                ) * effective_page_size(page_size) + effective_page_size(page_size))
                    by (nonlinear_arith);
            }
        }
        let (limit, offset) = match get_pagination_params(page, page_size) {
            Ok(pair) => pair,
            Err(_) => {
                return Err(RepoError::InvalidPagination);
            },
        };
        let ghost s = self.drugs@;
        let mut out: Vec<Drug> = Vec::new();
        let mut j: usize = 0;
        while j < self.drugs.len()
            invariant
                j <= self.drugs.len(),
                s == self.drugs@,
                offset >= 0,
                limit >= 1,
                out@ == slice_window(s.take(j as int), offset as int, limit as int),
            decreases self.drugs.len() - j,
        {
            if j as u128 >= offset as u128 && (j as u128) < offset as u128 + limit as u128 {
                out.push(self.drugs[j].clone());
                proof {
                    assert(out@ =~= slice_window(s.take(j + 1), offset as int, limit as int));
                }
            } else {
                proof {
                    assert(out@ =~= slice_window(s.take(j + 1), offset as int, limit as int));
                }
            }
            j += 1;
        }
        proof {
            assert(s.take(s.len() as int) =~= s);
            assert(out@ == page_slice(
                self.drugs(),
                effective_page(page),
                effective_page_size(page_size),
            ));
        }
        Ok(out)
    }
}

#[derive(Debug)]
pub enum CreateDrugError {
    ValidationError(String),
    DatabaseError(String),
}

#[derive(Debug)]
pub enum GetDrugByIdError {
    InputError,
    DatabaseError(String),
}

#[derive(Debug)]
pub enum GetDrugsWithPaginationError {
    InputError(String),
}

/// The drugs service: constructs a validated drug, delegates to the
/// repository port, and maps each failure to its service-level category.
pub struct DrugsService<R: DrugsRepositoryTrait> {
    repository: R,
}

impl<R: DrugsRepositoryTrait> DrugsService<R> {
    /// The drugs the backing repository holds, in creation order.
    pub closed spec fn drugs(&self) -> Seq<Drug> {
        self.repository.drugs()
    }

    pub fn new(repository: R) -> (s: Self)
        ensures
            s.drugs() == repository.drugs(),
    {
        Self { repository }
    }

    pub fn create_drug(
        &mut self,
        name: String,
        content_type: DrugContentType,
        pills_count: Option<i32>,
        mg_per_pill: Option<i32>,
        ml_per_pill: Option<i32>,
        volume_ml: Option<i32>,
    ) -> (res: Result<Drug, CreateDrugError>)
        ensures
            res matches Err(CreateDrugError::ValidationError(_)) <==> !drug_attributes_valid(
                content_type,
                pills_count,
                mg_per_pill,
                ml_per_pill,
                volume_ml,
            ),
            res matches Ok(d) ==> {
                &&& d.name@ == name@
                &&& d.content_type == content_type
                &&& d.pills_count == pills_count
                &&& d.mg_per_pill == mg_per_pill
                &&& d.ml_per_pill == ml_per_pill
                &&& d.volume_ml == volume_ml
                &&& final(self).drugs() == old(self).drugs().push(d)
            },
            res is Err ==> final(self).drugs() == old(self).drugs(),
    {
        let new_drug = match NewDrug::new(
            name,
            content_type,
            pills_count,
            mg_per_pill,
            ml_per_pill,
            volume_ml,
        ) {
            Ok(d) => d,
            Err(e) => {
                return Err(CreateDrugError::ValidationError(e.message()));
            },
        };
        match self.repository.create_drug(new_drug) {
            Ok(d) => Ok(d),
            Err(e) => Err(CreateDrugError::DatabaseError(e.message())),
        }
    }

    pub fn get_drug_by_id(&self, drug_id: Id) -> (res: Result<Drug, GetDrugByIdError>)
        ensures
            res matches Ok(d) ==> d.id == drug_id && self.drugs().contains(d),
            (forall|j: int|
                0 <= j < self.drugs().len() ==> (#[trigger] self.drugs()[j]).id != drug_id) ==> res
                matches Err(GetDrugByIdError::DatabaseError(_)),
    {
        match self.repository.get_drug_by_id(drug_id) {
            Ok(d) => Ok(d),
            Err(e) => Err(GetDrugByIdError::DatabaseError(e.message())),
        }
    }

    pub fn get_drugs_with_pagination(&self, page: Option<i64>, page_size: Option<i64>) -> (res:
        Result<Vec<Drug>, GetDrugsWithPaginationError>)
        requires
            pagination_accepted(page, page_size) ==> (effective_page(page) + 1)
                * effective_page_size(page_size) <= i64::MAX as int,
        ensures
            !pagination_accepted(page, page_size) ==> res matches Err(
                GetDrugsWithPaginationError::InputError(_),
            ),
            res matches Ok(v) ==> pagination_accepted(page, page_size) && v@ == page_slice(
                self.drugs(),
                effective_page(page),
                effective_page_size(page_size),
            ),
    {
        match self.repository.get_drugs(page, page_size) {
            Ok(v) => Ok(v),
            Err(e) => Err(GetDrugsWithPaginationError::InputError(e.message())),
        }
    }
}

} // verus!
