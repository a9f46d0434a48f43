use crate::clock::now_millis;
use crate::ids::{new_id, Id};
use crate::pagination::{
    effective_page, effective_page_size, get_pagination_params, pagination_accepted,
};
use crate::prescriptions::aggregation::{lemma_views_push, lemma_views_update, prescription_views};
use crate::prescriptions::models::{
    new_prescription_wf, NewPrescription, NewPrescriptionFill, NewPrescriptionModel, PrescribedDrug,
    Prescription, PrescriptionDoctor, PrescriptionFill, PrescriptionModel, PrescriptionPatient,
};
use crate::repo::{page_slice, slice_window, RepoError};
use vstd::prelude::*;

verus! {

/// The persisted aggregate a committed prescription corresponds to: same
/// header, one stored line item per requested line item in order, no fill.
pub open spec fn prescription_matches_new(p: PrescriptionModel, n: NewPrescriptionModel) -> bool {
    &&& p.id == n.id
    &&& p.doctor.id == n.doctor_id
    &&& p.patient.id == n.patient_id
    &&& p.prescription_type == n.prescription_type
    &&& p.start_date == n.start_date
    &&& p.end_date == n.end_date
    &&& p.fill is None
    &&& p.prescribed_drugs.len() == n.prescribed_drugs.len()
    &&& forall|k: int|
        0 <= k < n.prescribed_drugs.len() ==> {
            &&& (#[trigger] p.prescribed_drugs[k]).prescription_id == n.id
            &&& p.prescribed_drugs[k].drug_id == n.prescribed_drugs[k].drug_id
            &&& p.prescribed_drugs[k].quantity == n.prescribed_drugs[k].quantity as int
        }
}

/// `j` is the index of the first stored prescription with the given id.
pub open spec fn first_match_at(s: Seq<PrescriptionModel>, id: Id, j: int) -> bool {
    &&& 0 <= j < s.len()
    &&& s[j].id == id
    &&& forall|k: int| 0 <= k < j ==> (#[trigger] s[k]).id != id
}

/// The aggregate with its fill attached.
pub open spec fn with_fill(m: PrescriptionModel, f: PrescriptionFill) -> PrescriptionModel {
    PrescriptionModel { fill: Some(f), ..m }
}

/// The repository port for prescriptions: creation persists the whole
/// aggregate atomically, reads return stored aggregates, listings obey the
/// shared pagination policy over whole prescriptions, and a fill attaches to
/// the prescription it names exactly once — a missing prescription is a
/// not-found failure and an already-filled one a conflict.
pub trait PrescriptionsRepository: Sized {
    /// The stored prescription aggregates, in creation order.
    spec fn prescriptions(&self) -> Seq<PrescriptionModel>;

    fn create_prescription(&mut self, new_prescription: NewPrescription) -> (res: Result<
        Prescription,
        RepoError,
    >)
        requires
            new_prescription_wf(new_prescription),
            forall|k: int|
                0 <= k < new_prescription.prescribed_drugs@.len() ==> (#[trigger] new_prescription.prescribed_drugs@[k]).quantity
                    <= i32::MAX,
        ensures
            res matches Ok(p) ==> {
                &&& prescription_matches_new(p@, new_prescription@)
                &&& final(self).prescriptions() == old(self).prescriptions().push(p@)
            },
            res is Err ==> final(self).prescriptions() == old(self).prescriptions(),
    ;

    fn get_prescriptions(&self, page: Option<i64>, page_size: Option<i64>) -> (res: Result<
        Vec<Prescription>,
        RepoError,
    >)
        requires
            pagination_accepted(page, page_size) ==> (effective_page(page) + 1)
                * effective_page_size(page_size) <= i64::MAX as int,
        ensures
            !pagination_accepted(page, page_size) ==> res == Err::<Vec<Prescription>, RepoError>(
                RepoError::InvalidPagination,
            ),
            res matches Ok(v) ==> pagination_accepted(page, page_size) && prescription_views(v@)
                == page_slice(
                self.prescriptions(),
                effective_page(page),
                effective_page_size(page_size),
            ),
    ;

    fn get_prescription_by_id(&self, prescription_id: Id) -> (res: Result<Prescription, RepoError>)
        ensures
            res matches Ok(p) ==> p@.id == prescription_id && self.prescriptions().contains(p@),
            (forall|j: int|
                0 <= j < self.prescriptions().len() ==> (#[trigger] self.prescriptions()[j]).id
                    != prescription_id) ==> res == Err::<Prescription, RepoError>(
                RepoError::NotFound,
            ),
    ;

    fn fill_prescription(&mut self, prescription_fill: NewPrescriptionFill) -> (res: Result<
        PrescriptionFill,
        RepoError,
    >)
        ensures
            (forall|j: int|
                0 <= j < old(self).prescriptions().len() ==> (#[trigger] old(
                    self,
                ).prescriptions()[j]).id != prescription_fill.prescription_id) ==> res == Err::<
                PrescriptionFill,
                RepoError,
            >(RepoError::NotFound),
            (exists|j: int|
                first_match_at(
                    old(self).prescriptions(),
                    prescription_fill.prescription_id,
                    j,
                ) && (#[trigger] old(self).prescriptions()[j]).fill is Some) ==> res == Err::<
                PrescriptionFill,
                RepoError,
            >(RepoError::Duplicate),
            res matches Ok(f) ==> {
                &&& f.id == prescription_fill.id
                &&& f.prescription_id == prescription_fill.prescription_id
                &&& f.pharmacist_id == prescription_fill.pharmacist_id
                &&& exists|j: int|
                    {
                        &&& first_match_at(
                            old(self).prescriptions(),
                            prescription_fill.prescription_id,
                            j,
                        )
                        &&& (#[trigger] old(self).prescriptions()[j]).fill is None
                        &&& final(self).prescriptions() == old(self).prescriptions().update(
                            j,
                            with_fill(old(self).prescriptions()[j], f),
                        )
                    }
            },
            res is Err ==> final(self).prescriptions() == old(self).prescriptions(),
    ;
}

/// An in-memory prescriptions repository: the storage collaborator used by
/// tests, proved against the full port contract.
pub struct InMemoryPrescriptionsRepository {
    prescriptions: Vec<Prescription>,
}

impl InMemoryPrescriptionsRepository {
    pub fn new() -> (r: Self)
        ensures
            r.prescriptions() == Seq::<PrescriptionModel>::empty(),
    {
        let r = InMemoryPrescriptionsRepository { prescriptions: Vec::new() };
        proof {
            assert(r.prescriptions() =~= Seq::<PrescriptionModel>::empty());
        }
        r
    }
}

impl PrescriptionsRepository for InMemoryPrescriptionsRepository {
    closed spec fn prescriptions(&self) -> Seq<PrescriptionModel> {
        prescription_views(self.prescriptions@)
    }

    fn create_prescription(&mut self, new_prescription: NewPrescription) -> (res: Result<
        Prescription,
        RepoError,
    >)
        ensures
            res is Ok,
    {
        let now = now_millis();
        let mut drugs: Vec<PrescribedDrug> = Vec::new();
        let mut i: usize = 0;
        while i < new_prescription.prescribed_drugs.len()
            invariant
                i <= new_prescription.prescribed_drugs@.len(),
                forall|k: int|
                    0 <= k < new_prescription.prescribed_drugs@.len()
                        ==> (#[trigger] new_prescription.prescribed_drugs@[k]).quantity
                        <= i32::MAX,
                drugs@.len() == i,
                forall|k: int|
                    0 <= k < i ==> {
                        &&& (#[trigger] drugs@[k]).prescription_id == new_prescription.id
                        &&& drugs@[k].drug_id == new_prescription.prescribed_drugs@[k].drug_id
                        &&& drugs@[k].quantity == new_prescription.prescribed_drugs@[k].quantity as int
                    },
            decreases new_prescription.prescribed_drugs@.len() - i,
        {
            let item = new_prescription.prescribed_drugs[i];
            drugs.push(
                PrescribedDrug {
                    id: new_id(),
                    prescription_id: new_prescription.id,
                    drug_id: item.drug_id,
                    quantity: item.quantity as i32,
                    created_at: now,
                    updated_at: now,
                },
            );
            i += 1;
        }
        let prescription = Prescription {
            id: new_prescription.id,
            doctor: PrescriptionDoctor {
                id: new_prescription.doctor_id,
                name: String::new(),
                pesel_number: String::new(),
                pwz_number: String::new(),
            },
            patient: PrescriptionPatient {
                id: new_prescription.patient_id,
                name: String::new(),
                pesel_number: String::new(),
            },
            prescribed_drugs: drugs,
            prescription_type: new_prescription.prescription_type,
            fill: None,
            start_date: new_prescription.start_date,
            end_date: new_prescription.end_date,
            created_at: now,
            updated_at: now,
        };
        let ghost old_store = self.prescriptions@;
        let stored = prescription.clone();
        proof {
            lemma_views_push(old_store, stored);
            assert(stored@ == prescription@);
        }
        self.prescriptions.push(stored);
        Ok(prescription)
    }

    fn get_prescriptions(&self, page: Option<i64>, page_size: Option<i64>) -> (res: Result<
        Vec<Prescription>,
        RepoError,
    >)
        ensures
            res is Ok <==> pagination_accepted(page, page_size),
    {
        proof {
            if pagination_accepted(page, page_size) {
                assert((effective_page(page) + 1) * effective_page_size(page_size) == effective_page(
                    page,
                ) * effective_page_size(page_size) + effective_page_size(page_size))
                    by (nonlinear_arith);
            }
        }
        let (limit, offset) = match get_pagination_params(page, page_size) {
            Ok(pair) => pair,
            Err(_) => {
                return Err(RepoError::InvalidPagination);
            },
        };
        let ghost s = self.prescriptions();
        let mut out: Vec<Prescription> = Vec::new();
        let mut j: usize = 0;
        proof {
            assert(prescription_views(out@) =~= slice_window(
                s.take(0),
                offset as int,
                limit as int,
            ));
        }
        while j < self.prescriptions.len()
            invariant
                j <= self.prescriptions@.len(),
                s == self.prescriptions(),
                s.len() == self.prescriptions@.len(),
                offset >= 0,
                limit >= 1,
                prescription_views(out@) == slice_window(
                    s.take(j as int),
                    offset as int,
                    limit as int,
                ),
            decreases self.prescriptions@.len() - j,
        {
            if j as u128 >= offset as u128 && (j as u128) < offset as u128 + limit as u128 {
                let item = self.prescriptions[j].clone();
                proof {
                    assert(item@ == s[j as int]);
                    lemma_views_push(out@, item);
                }
                out.push(item);
                proof {
                    assert(prescription_views(out@) =~= slice_window(
                        s.take(j + 1),
                        offset as int,
                        limit as int,
                    ));
                }
            } else {
                proof {
                    assert(prescription_views(out@) =~= slice_window(
                        s.take(j + 1),
                        offset as int,
                        limit as int,
                    ));
                }
            }
            j += 1;
        }
        proof {
            assert(s.take(s.len() as int) =~= s);
            assert(prescription_views(out@) == page_slice(
                self.prescriptions(),
                effective_page(page),
                effective_page_size(page_size),
            ));
        }
        Ok(out)
    }

    fn get_prescription_by_id(&self, prescription_id: Id) -> (res: Result<Prescription, RepoError>)
        ensures
            res is Ok <==> exists|j: int|
                0 <= j < self.prescriptions().len() && (#[trigger] self.prescriptions()[j]).id
                    == prescription_id,
    {
        let mut i: usize = 0;
        while i < self.prescriptions.len()
            invariant
                i <= self.prescriptions@.len(),
                self.prescriptions().len() == self.prescriptions@.len(),
                forall|j: int|
                    0 <= j < i ==> (#[trigger] self.prescriptions()[j]).id != prescription_id,
            decreases self.prescriptions@.len() - i,
        {
            if self.prescriptions[i].id == prescription_id {
                let found = self.prescriptions[i].clone();
                proof {
                    assert((#[trigger] self.prescriptions()[i as int]).id == prescription_id);
                    assert(found@ == self.prescriptions()[i as int]);
                    assert(self.prescriptions().contains(found@));
                }
                return Ok(found);
            }
            proof {
                assert((#[trigger] self.prescriptions()[i as int]).id != prescription_id);
            }
            i += 1;
        }
        Err(RepoError::NotFound)
    }

    fn fill_prescription(&mut self, prescription_fill: NewPrescriptionFill) -> (res: Result<
        PrescriptionFill,
        RepoError,
    >)
        ensures
            res is Ok <==> exists|j: int|
                first_match_at(
                    old(self).prescriptions(),
                    prescription_fill.prescription_id,
                    j,
                ) && (#[trigger] old(self).prescriptions()[j]).fill is None,
    {
        let target = prescription_fill.prescription_id;
        let ghost old_store = self.prescriptions@;
        let mut i: usize = 0;
        while i < self.prescriptions.len()
            invariant
                i <= self.prescriptions@.len(),
                self.prescriptions@ == old(self).prescriptions@,
                old_store == old(self).prescriptions@,
                self.prescriptions().len() == self.prescriptions@.len(),
                target == prescription_fill.prescription_id,
                forall|j: int| 0 <= j < i ==> (#[trigger] self.prescriptions()[j]).id != target,
            decreases self.prescriptions@.len() - i,
        {
            if self.prescriptions[i].id == target {
                proof {
                    assert((#[trigger] self.prescriptions()[i as int]).id == target);
                    assert(first_match_at(old(self).prescriptions(), target, i as int));
                }
                if self.prescriptions[i].fill.is_some() {
                    proof {
                        assert((#[trigger] old(self).prescriptions()[i as int]).fill is Some);
                    }
                    return Err(RepoError::Duplicate);
                }
                let now = now_millis();
                let fill = PrescriptionFill {
                    id: prescription_fill.id,
                    prescription_id: prescription_fill.prescription_id,
                    pharmacist_id: prescription_fill.pharmacist_id,
                    created_at: now,
                    updated_at: now,
                };
                proof {
                    assert((#[trigger] old(self).prescriptions()[i as int]).fill is None);
                }
                let elem = &mut self.prescriptions[i];
                elem.fill = Some(fill);
                proof {
                    assert(self.prescriptions@ == old_store.update(
                        i as int,
                        self.prescriptions@[i as int],
                    ));
                    assert(self.prescriptions@[i as int]@ == with_fill(
                        prescription_views(old_store)[i as int],
                        fill,
                    ));
                    lemma_views_update(old_store, i as int, self.prescriptions@[i as int]);
                    assert(final(self).prescriptions() == old(self).prescriptions().update(
                        i as int,
                        with_fill(old(self).prescriptions()[i as int], fill),
                    ));
                }
                return Ok(fill);
            }
            proof {
                assert((#[trigger] self.prescriptions()[i as int]).id != target);
            }
            i += 1;
        }
        Err(RepoError::NotFound)
    }
}

} // verus!
