use crate::clock::{now_millis, MILLIS_ONE_YEAR, MILLIS_THIRTY_DAYS, TIMESTAMP_BOUND_MILLIS};
use crate::ids::{new_id, Id};
use vstd::prelude::*;

verus! {

#[derive(Debug, PartialEq, Eq, Structural, Clone, Copy)]
pub enum PrescriptionType {
    Regular,
    ForAntibiotics,
    ForImmunologicalDrugs,
    ForChronicDiseaseDrugs,
}

/// How long a prescription of the given type stays valid: a year for
/// chronic-disease drugs, thirty days otherwise.
pub open spec fn validity_span_millis(t: PrescriptionType) -> int {
    match t {
        PrescriptionType::ForChronicDiseaseDrugs => MILLIS_ONE_YEAR as int,
        _ => MILLIS_THIRTY_DAYS as int,
    }
}

/// The most units of one drug a prescription of the given type may carry:
/// one for antibiotics, two for immunological drugs, four for
/// chronic-disease drugs, unbounded for a regular prescription.
pub open spec fn quantity_cap(t: PrescriptionType) -> Option<int> {
    match t {
        PrescriptionType::Regular => None,
        PrescriptionType::ForAntibiotics => Some(1),
        PrescriptionType::ForImmunologicalDrugs => Some(2),
        PrescriptionType::ForChronicDiseaseDrugs => Some(4),
    }
}

/// One (drug, quantity) line item of a prescription under construction.
#[derive(Debug, PartialEq, Eq, Structural, Clone, Copy)]
pub struct NewPrescribedDrug {
    pub drug_id: Id,
    pub quantity: u32,
}

/// The total quantity of one drug across all line items.
pub open spec fn total_quantity_of(s: Seq<NewPrescribedDrug>, drug_id: Id) -> int
    decreases s.len(),
{
    if s.len() == 0 {
        0
    } else {
        total_quantity_of(s.drop_last(), drug_id) + if s.last().drug_id == drug_id {
            s.last().quantity as int
        } else {
            0
        }
    }
}

/// Every drug's total stays within the cap of the prescription type.
pub open spec fn quantities_within_cap(s: Seq<NewPrescribedDrug>, t: PrescriptionType) -> bool {
    match quantity_cap(t) {
        None => true,
        Some(c) => forall|i: int|
            0 <= i < s.len() ==> total_quantity_of(s, (#[trigger] s[i]).drug_id) <= c,
    }
}

/// The business invariant of a prescription ready to persist: one to ten
/// line items, each with a positive quantity, and every drug's total within
/// the type's cap.
pub open spec fn new_prescription_wf(p: NewPrescription) -> bool {
    &&& 1 <= p.prescribed_drugs@.len() <= 10
    &&& forall|i: int|
        0 <= i < p.prescribed_drugs@.len() ==> (#[trigger] p.prescribed_drugs@[i]).quantity >= 1
    &&& quantities_within_cap(p.prescribed_drugs@, p.prescription_type)
}

/// The digit character for a value 0..=9.
pub open spec fn digit_char(d: int) -> char {
    if d == 0 {
        '0'
    } else if d == 1 {
        '1'
    } else if d == 2 {
        '2'
    } else if d == 3 {
        '3'
    } else if d == 4 {
        '4'
    } else if d == 5 {
        '5'
    } else if d == 6 {
        '6'
    } else if d == 7 {
        '7'
    } else if d == 8 {
        '8'
    } else {
        '9'
    }
}

/// The decimal digits of `n`, most significant first.
pub open spec fn dec_digits(n: nat) -> Seq<char>
    decreases n,
{
    if n < 10 {
        seq![digit_char(n as int)]
    } else {
        dec_digits(n / 10).push(digit_char((n % 10) as int))
    }
}

/// The human-presentable code a prescription carries, derived from its id so
/// that distinct prescriptions get distinct codes.
pub open spec fn code_of(n: nat) -> Seq<char> {
    "RX"@ + dec_digits(n)
}

/// The decimal digit string has at least one character.
proof fn lemma_dec_digits_nonempty(n: nat)
    ensures
        dec_digits(n).len() >= 1,
    decreases n,
{
    if n >= 10 {
        lemma_dec_digits_nonempty(n / 10);
    }
}

/// Distinct values have distinct decimal digit strings.
proof fn lemma_dec_digits_injective(a: nat, b: nat)
    requires
        dec_digits(a) == dec_digits(b),
    ensures
        a == b,
    decreases a,
{
    lemma_dec_digits_nonempty(a / 10);
    lemma_dec_digits_nonempty(b / 10);
    if a < 10 && b < 10 {
        assert(dec_digits(a)[0] == digit_char(a as int));
        assert(dec_digits(b)[0] == digit_char(b as int));
    } else if a < 10 && b >= 10 {
        assert(dec_digits(a).len() == 1);
        assert(dec_digits(b).len() >= 2);
    } else if a >= 10 && b < 10 {
        assert(dec_digits(a).len() >= 2);
        assert(dec_digits(b).len() == 1);
    } else {
        assert(dec_digits(a).last() == digit_char((a % 10) as int));
        assert(dec_digits(b).last() == digit_char((b % 10) as int));
        assert(a % 10 == b % 10);
        assert(dec_digits(a).drop_last() == dec_digits(a / 10));
        assert(dec_digits(b).drop_last() == dec_digits(b / 10));
        lemma_dec_digits_injective(a / 10, b / 10);
    }
}

/// A prescription's code is unique per prescription: two prescriptions whose
/// codes agree carry the same id value.
pub proof fn lemma_code_injective(a: nat, b: nat)
    requires
        code_of(a) == code_of(b),
    ensures
        a == b,
{
    assert(code_of(a).skip("RX"@.len() as int) == dec_digits(a));
    assert(code_of(b).skip("RX"@.len() as int) == dec_digits(b));
    lemma_dec_digits_injective(a, b);
}

/// The digit character for a value 0..=9, executably.
fn digit_str(d: u128) -> (r: &'static str)
    requires
        d < 10,
    ensures
        r@ == seq![digit_char(d as int)],
{
    if d == 0 {
        proof {
            reveal_strlit("0");
            assert("0"@ =~= seq![digit_char(0)]);
        }
        "0"
    } else if d == 1 {
        proof {
            reveal_strlit("1");
            assert("1"@ =~= seq![digit_char(1)]);
        }
        "1"
    } else if d == 2 {
        proof {
            reveal_strlit("2");
            assert("2"@ =~= seq![digit_char(2)]);
        }
        "2"
    } else if d == 3 {
        proof {
            reveal_strlit("3");
            assert("3"@ =~= seq![digit_char(3)]);
        }
        "3"
    } else if d == 4 {
        proof {
            reveal_strlit("4");
            assert("4"@ =~= seq![digit_char(4)]);
        }
        "4"
    } else if d == 5 {
        proof {
            reveal_strlit("5");
            assert("5"@ =~= seq![digit_char(5)]);
        }
        "5"
    } else if d == 6 {
        proof {
            reveal_strlit("6");
            assert("6"@ =~= seq![digit_char(6)]);
        }
        "6"
    } else if d == 7 {
        proof {
            reveal_strlit("7");
            assert("7"@ =~= seq![digit_char(7)]);
        }
        "7"
    } else if d == 8 {
        proof {
            reveal_strlit("8");
            assert("8"@ =~= seq![digit_char(8)]);
        }
        "8"
    } else {
        proof {
            reveal_strlit("9");
            assert("9"@ =~= seq![digit_char(9)]);
        }
        "9"
    }
}

/// The decimal digit string of `n`, executably.
fn digits_string(n: u128) -> (r: String)
    ensures
        r@ == dec_digits(n as nat),
    decreases n,
{
    if n < 10 {
        String::from_str(digit_str(n))
    } else {
        let mut s = digits_string(n / 10);
        s.append(digit_str(n % 10));
        s
    }
}

/// Builds the presentable code for an id value.
fn build_code(n: u128) -> (r: String)
    ensures
        r@ == code_of(n as nat),
{
    let mut s = String::from_str("RX");
    let digits = digits_string(n);
    s.append(digits.as_str());
    s
}

/// A prescription under construction, validated rule by rule as line items
/// are added, ready to persist once `validate` passes.
#[derive(Debug)]
pub struct NewPrescription {
    pub id: Id,
    pub doctor_id: Id,
    pub patient_id: Id,
    pub prescribed_drugs: Vec<NewPrescribedDrug>,
    pub prescription_type: PrescriptionType,
    pub code: String,
    pub start_date: i64,
    pub end_date: i64,
}

/// The mathematical value of a prescription under construction: its fields
/// with the line items as a sequence.
pub struct NewPrescriptionModel {
    pub id: Id,
    pub doctor_id: Id,
    pub patient_id: Id,
    pub prescribed_drugs: Seq<NewPrescribedDrug>,
    pub prescription_type: PrescriptionType,
    pub code: Seq<char>,
    pub start_date: int,
    pub end_date: int,
}

impl View for NewPrescription {
    type V = NewPrescriptionModel;

    open spec fn view(&self) -> NewPrescriptionModel {
        NewPrescriptionModel {
            id: self.id,
            doctor_id: self.doctor_id,
            patient_id: self.patient_id,
            prescribed_drugs: self.prescribed_drugs@,
            prescription_type: self.prescription_type,
            code: self.code@,
            start_date: self.start_date as int,
            end_date: self.end_date as int,
        }
    }
}

impl Clone for NewPrescription {
    fn clone(&self) -> (res: Self)
        ensures
            res@ == self@,
    {
        let res = NewPrescription {
            id: self.id,
            doctor_id: self.doctor_id,
            patient_id: self.patient_id,
            prescribed_drugs: self.prescribed_drugs.clone(),
            prescription_type: self.prescription_type,
            code: self.code.clone(),
            start_date: self.start_date,
            end_date: self.end_date,
        };
        proof {
            assert(res.prescribed_drugs@ =~= self.prescribed_drugs@);
        }
        res
    }
}

/// Which business rule an added or validated line item set breaks. The
/// quantity-limit variant names the offending drug.
#[derive(Debug, Clone, Copy, PartialEq, Eq, Structural)]
pub enum PrescriptionRuleError {
    NoPrescribedDrugs,
    TooManyPrescribedDrugs,
    InvalidQuantity,
    QuantityLimitExceeded(Id),
}

impl PrescriptionRuleError {
    pub fn message(&self) -> (r: String)
        ensures
            self is NoPrescribedDrugs ==> r@ == "prescription has no prescribed drugs"@,
            self is TooManyPrescribedDrugs ==> r@ == "prescription has too many prescribed drugs"@,
            self is InvalidQuantity ==> r@ == "prescribed quantity must be positive"@,
            self matches PrescriptionRuleError::QuantityLimitExceeded(_) ==> r@
                == "prescribed quantity exceeds the limit for this drug"@,
    {
        match self {
            PrescriptionRuleError::NoPrescribedDrugs => String::from_str(
                "prescription has no prescribed drugs",
            ),
            PrescriptionRuleError::TooManyPrescribedDrugs => String::from_str(
                "prescription has too many prescribed drugs",
            ),
            PrescriptionRuleError::InvalidQuantity => String::from_str(
                "prescribed quantity must be positive",
            ),
            PrescriptionRuleError::QuantityLimitExceeded(_) => String::from_str(
                "prescribed quantity exceeds the limit for this drug",
            ),
        }
    }
}

/// The total quantity of one drug across the line items, executably.
fn total_quantity(drugs: &Vec<NewPrescribedDrug>, drug_id: Id) -> (t: u64)
    requires
        drugs@.len() <= 10,
    ensures
        t == total_quantity_of(drugs@, drug_id),
        t <= 10 * (u32::MAX as u64),
{
    let mut t: u64 = 0;
    let mut i: usize = 0;
    while i < drugs.len()
        invariant
            i <= drugs@.len() <= 10,
            t == total_quantity_of(drugs@.take(i as int), drug_id),
            t <= i * (u32::MAX as u64),
        decreases drugs@.len() - i,
    {
        proof {
            assert(drugs@.take(i + 1).drop_last() =~= drugs@.take(i as int));
            assert(drugs@.take(i + 1).last() == drugs@[i as int]);
        }
        if drugs[i].drug_id == drug_id {
            t = t + drugs[i].quantity as u64;
        }
        i += 1;
    }
    proof {
        assert(drugs@.take(drugs@.len() as int) =~= drugs@);
    }
    t
}

/// The cap for the prescription type, executably.
fn quantity_cap_value(t: PrescriptionType) -> (c: Option<u64>)
    ensures
        c is Some <==> quantity_cap(t) is Some,
        c matches Some(v) ==> quantity_cap(t) == Some(v as int),
{
    match t {
        PrescriptionType::Regular => None,
        PrescriptionType::ForAntibiotics => Some(1),
        PrescriptionType::ForImmunologicalDrugs => Some(2),
        PrescriptionType::ForChronicDiseaseDrugs => Some(4),
    }
}

impl NewPrescription {
    /// Starts a prescription: a fresh id and code, the given parties, the
    /// given start date or the current time, the given type or a regular
    /// one, and the end date the type's validity span after the start.
    pub fn new(
        doctor_id: Id,
        patient_id: Id,
        start_date: Option<i64>,
        prescription_type: Option<PrescriptionType>,
    ) -> (res: NewPrescription)
        requires
            start_date matches Some(s) ==> -TIMESTAMP_BOUND_MILLIS < s < TIMESTAMP_BOUND_MILLIS,
        ensures
            res.doctor_id == doctor_id,
            res.patient_id == patient_id,
            res.prescription_type == (match prescription_type {
                Some(t) => t,
                None => PrescriptionType::Regular,
            }),
            start_date matches Some(s) ==> res.start_date == s,
            -TIMESTAMP_BOUND_MILLIS < res.start_date < TIMESTAMP_BOUND_MILLIS,
            res.end_date == res.start_date + validity_span_millis(res.prescription_type),
            res.prescribed_drugs@ == Seq::<NewPrescribedDrug>::empty(),
            res.code@ == code_of(res.id.0 as nat),
    {
        let id = new_id();
        let start: i64 = match start_date {
            Some(s) => s,
            None => now_millis(),
        };
        let prescription_type = match prescription_type {
            Some(t) => t,
            None => PrescriptionType::Regular,
        };
        let span: i64 = match prescription_type {
            PrescriptionType::ForChronicDiseaseDrugs => MILLIS_ONE_YEAR,
            _ => MILLIS_THIRTY_DAYS,
        };
        let code = build_code(id.0);
        let res = NewPrescription {
            id,
            doctor_id,
            patient_id,
            prescribed_drugs: Vec::new(),
            prescription_type,
            code,
            start_date: start,
            end_date: start + span,
        };
        proof {
            assert(res.prescribed_drugs@ =~= Seq::<NewPrescribedDrug>::empty());
        }
        res
    }

    /// Adds one line item. Rejected when the prescription already carries
    /// ten line items, when the quantity is zero, or when the drug's total
    /// would exceed the cap of the prescription type; the quantity error
    /// names the drug.
    pub fn add_drug(&mut self, drug_id: Id, quantity: u32) -> (res: Result<
        (),
        PrescriptionRuleError,
    >)
        ensures
            old(self).prescribed_drugs@.len() >= 10 ==> res == Err::<(), PrescriptionRuleError>(
                PrescriptionRuleError::TooManyPrescribedDrugs,
            ),
            old(self).prescribed_drugs@.len() < 10 && quantity == 0 ==> res == Err::<
                (),
                PrescriptionRuleError,
            >(PrescriptionRuleError::InvalidQuantity),
            old(self).prescribed_drugs@.len() < 10 && quantity >= 1 ==> {
                let exceeded = match quantity_cap(old(self).prescription_type) {
                    Some(c) => total_quantity_of(old(self).prescribed_drugs@, drug_id) + quantity
                        > c,
                    None => false,
                };
                if exceeded {
                    res == Err::<(), PrescriptionRuleError>(
                        PrescriptionRuleError::QuantityLimitExceeded(drug_id),
                    )
                } else {
                    res is Ok && final(self).prescribed_drugs@ == old(self).prescribed_drugs@.push(
                        NewPrescribedDrug { drug_id, quantity },
                    )
                }
            },
            res is Err ==> final(self).prescribed_drugs@ == old(self).prescribed_drugs@,
            ({
                &&& final(self).id == old(self).id
                &&& final(self).doctor_id == old(self).doctor_id
                &&& final(self).patient_id == old(self).patient_id
                &&& final(self).prescription_type == old(self).prescription_type
                &&& final(self).code == old(self).code
                &&& final(self).start_date == old(self).start_date
                &&& final(self).end_date == old(self).end_date
            }),
    {
        if self.prescribed_drugs.len() >= 10 {
            return Err(PrescriptionRuleError::TooManyPrescribedDrugs);
        }
        if quantity == 0 {
            return Err(PrescriptionRuleError::InvalidQuantity);
        }
        if let Some(cap) = quantity_cap_value(self.prescription_type) {
            let total = total_quantity(&self.prescribed_drugs, drug_id);
            if total + quantity as u64 > cap {
                return Err(PrescriptionRuleError::QuantityLimitExceeded(drug_id));
            }
        }
        self.prescribed_drugs.push(NewPrescribedDrug { drug_id, quantity });
        Ok(())
    }

    /// Re-checks the business invariant as a whole, in rule order: at least
    /// one line item, at most ten, every quantity positive, every drug's
    /// total within the type's cap. Passes exactly on well-formed values.
    pub fn validate(&self) -> (res: Result<(), PrescriptionRuleError>)
        ensures
            res is Ok <==> new_prescription_wf(*self),
            res == Err::<(), PrescriptionRuleError>(PrescriptionRuleError::NoPrescribedDrugs)
                <==> self.prescribed_drugs@.len() == 0,
            res == Err::<(), PrescriptionRuleError>(PrescriptionRuleError::TooManyPrescribedDrugs)
                <==> self.prescribed_drugs@.len() > 10,
            res == Err::<(), PrescriptionRuleError>(PrescriptionRuleError::InvalidQuantity) <==> (1
                <= self.prescribed_drugs@.len() <= 10 && exists|i: int|
                0 <= i < self.prescribed_drugs@.len() && (#[trigger] self.prescribed_drugs@[i]).quantity
                    == 0),
            res matches Err(PrescriptionRuleError::QuantityLimitExceeded(d)) ==> {
                &&& 1 <= self.prescribed_drugs@.len() <= 10
                &&& quantity_cap(self.prescription_type) matches Some(c) && total_quantity_of(
                    self.prescribed_drugs@,
                    d,
                ) > c
            },
    {
        let n = self.prescribed_drugs.len();
        if n == 0 {
            return Err(PrescriptionRuleError::NoPrescribedDrugs);
        }
        if n > 10 {
            return Err(PrescriptionRuleError::TooManyPrescribedDrugs);
        }
        let mut i: usize = 0;
        while i < n
            invariant
                i <= n,
                n == self.prescribed_drugs@.len(),
                1 <= n <= 10,
                forall|j: int| 0 <= j < i ==> (#[trigger] self.prescribed_drugs@[j]).quantity >= 1,
            decreases n - i,
        {
            if self.prescribed_drugs[i].quantity == 0 {
                proof {
                    assert((#[trigger] self.prescribed_drugs@[i as int]).quantity == 0);
                }
                return Err(PrescriptionRuleError::InvalidQuantity);
            }
            i += 1;
        }
        if let Some(cap) = quantity_cap_value(self.prescription_type) {
            let mut k: usize = 0;
            while k < n
                invariant
                    k <= n,
                    n == self.prescribed_drugs@.len(),
                    1 <= n <= 10,
                    quantity_cap(self.prescription_type) == Some(cap as int),
                    forall|j: int|
                        0 <= j < n ==> (#[trigger] self.prescribed_drugs@[j]).quantity >= 1,
                    forall|j: int|
                        0 <= j < k ==> total_quantity_of(
                            self.prescribed_drugs@,
                            (#[trigger] self.prescribed_drugs@[j]).drug_id,
                        ) <= cap,
                decreases n - k,
            {
                let total = total_quantity(&self.prescribed_drugs, self.prescribed_drugs[k].drug_id);
                if total > cap {
                    proof {
                        assert(total_quantity_of(
                            self.prescribed_drugs@,
                            (#[trigger] self.prescribed_drugs@[k as int]).drug_id,
                        ) > cap);
                    }
                    return Err(
                        PrescriptionRuleError::QuantityLimitExceeded(
                            self.prescribed_drugs[k].drug_id,
                        ),
                    );
                }
                k += 1;
            }
        }
        Ok(())
    }
}

/// The patient header a read-back prescription carries.
#[derive(Debug)]
pub struct PrescriptionPatient {
    pub id: Id,
    pub name: String,
    pub pesel_number: String,
}

impl Clone for PrescriptionPatient {
    fn clone(&self) -> (res: Self)
        ensures
            res == *self,
    {
        PrescriptionPatient {
            id: self.id,
            name: self.name.clone(),
            pesel_number: self.pesel_number.clone(),
        }
    }
}

/// The doctor header a read-back prescription carries.
#[derive(Debug)]
pub struct PrescriptionDoctor {
    pub id: Id,
    pub name: String,
    pub pesel_number: String,
    pub pwz_number: String,
}

impl Clone for PrescriptionDoctor {
    fn clone(&self) -> (res: Self)
        ensures
            res == *self,
    {
        PrescriptionDoctor {
            id: self.id,
            name: self.name.clone(),
            pesel_number: self.pesel_number.clone(),
            pwz_number: self.pwz_number.clone(),
        }
    }
}

/// One persisted line item of a prescription.
#[derive(Debug, PartialEq, Eq, Structural, Clone, Copy)]
pub struct PrescribedDrug {
    pub id: Id,
    pub prescription_id: Id,
    pub drug_id: Id,
    pub quantity: i32,
    pub created_at: i64,
    pub updated_at: i64,
}

/// A persisted fill: the one-time dispensing of a prescription.
#[derive(Debug, PartialEq, Eq, Structural, Clone, Copy)]
pub struct PrescriptionFill {
    pub id: Id,
    pub prescription_id: Id,
    pub pharmacist_id: Id,
    pub created_at: i64,
    pub updated_at: i64,
}

/// A fill validated and ready for persistence.
#[derive(Debug, PartialEq, Eq, Structural, Clone, Copy)]
pub struct NewPrescriptionFill {
    pub id: Id,
    pub prescription_id: Id,
    pub pharmacist_id: Id,
}

/// A fully populated prescription aggregate as read back: the header, the
/// owned line items, and at most one fill.
#[derive(Debug)]
pub struct Prescription {
    pub id: Id,
    pub doctor: PrescriptionDoctor,
    pub patient: PrescriptionPatient,
    pub prescribed_drugs: Vec<PrescribedDrug>,
    pub prescription_type: PrescriptionType,
    pub fill: Option<PrescriptionFill>,
    pub start_date: i64,
    pub end_date: i64,
    pub created_at: i64,
    pub updated_at: i64,
}

/// The mathematical value of a read-back prescription aggregate: its fields
/// with the line items as a sequence.
pub struct PrescriptionModel {
    pub id: Id,
    pub doctor: PrescriptionDoctor,
    pub patient: PrescriptionPatient,
    pub prescribed_drugs: Seq<PrescribedDrug>,
    pub prescription_type: PrescriptionType,
    pub fill: Option<PrescriptionFill>,
    pub start_date: int,
    pub end_date: int,
    pub created_at: int,
    pub updated_at: int,
}

impl View for Prescription {
    type V = PrescriptionModel;

    open spec fn view(&self) -> PrescriptionModel {
        PrescriptionModel {
            id: self.id,
            doctor: self.doctor,
            patient: self.patient,
            prescribed_drugs: self.prescribed_drugs@,
            prescription_type: self.prescription_type,
            fill: self.fill,
            start_date: self.start_date as int,
            end_date: self.end_date as int,
            created_at: self.created_at as int,
            updated_at: self.updated_at as int,
        }
    }
}

impl Clone for Prescription {
    fn clone(&self) -> (res: Self)
        ensures
            res@ == self@,
    {
        let res = Prescription {
            id: self.id,
            doctor: self.doctor.clone(),
            patient: self.patient.clone(),
            prescribed_drugs: self.prescribed_drugs.clone(),
            prescription_type: self.prescription_type,
            fill: self.fill,
            start_date: self.start_date,
            end_date: self.end_date,
            created_at: self.created_at,
            updated_at: self.updated_at,
        };
        proof {
            assert(res.prescribed_drugs@ =~= self.prescribed_drugs@);
        }
        res
    }
}

/// Why a fill request was refused: the prescription was already filled, or
/// its validity window has passed.
#[derive(Debug, Clone, Copy, PartialEq, Eq, Structural)]
pub enum FillPrescriptionError {
    AlreadyFilled,
    Expired,
}

impl FillPrescriptionError {
    pub fn message(&self) -> (r: String)
        ensures
            self is AlreadyFilled ==> r@ == "prescription is already filled"@,
            self is Expired ==> r@ == "prescription has expired"@,
    {
        match self {
            FillPrescriptionError::AlreadyFilled => String::from_str(
                "prescription is already filled",
            ),
            FillPrescriptionError::Expired => String::from_str("prescription has expired"),
        }
    }
}

impl Prescription {
    /// The fill decision against an explicit clock reading and fill id:
    /// refused as already filled when a fill exists, refused as expired when
    /// the reading lies past the end date, and otherwise exactly the new
    /// fill value for this prescription and pharmacist.
    pub fn fill_at(&self, pharmacist_id: Id, fill_id: Id, now: i64) -> (res: Result<
        NewPrescriptionFill,
        FillPrescriptionError,
    >)
        ensures
            self.fill is Some ==> res == Err::<NewPrescriptionFill, FillPrescriptionError>(
                FillPrescriptionError::AlreadyFilled,
            ),
            self.fill is None && now > self.end_date ==> res == Err::<
                NewPrescriptionFill,
                FillPrescriptionError,
            >(FillPrescriptionError::Expired),
            self.fill is None && now <= self.end_date ==> res == Ok::<
                NewPrescriptionFill,
                FillPrescriptionError,
            >(NewPrescriptionFill { id: fill_id, prescription_id: self.id, pharmacist_id }),
    {
        if self.fill.is_some() {
            return Err(FillPrescriptionError::AlreadyFilled);
        }
        if now > self.end_date {
            return Err(FillPrescriptionError::Expired);
        }
        Ok(NewPrescriptionFill { id: fill_id, prescription_id: self.id, pharmacist_id })
    }

    /// Produces the fill value for this prescription, against the current
    /// time: refused when a fill already exists or the prescription has
    /// expired. Whatever the clock read, a produced fill belongs to this
    /// prescription and the given pharmacist.
    pub fn fill(&self, pharmacist_id: Id) -> (res: Result<
        NewPrescriptionFill,
        FillPrescriptionError,
    >)
        ensures
            self.fill is Some <==> res == Err::<NewPrescriptionFill, FillPrescriptionError>(
                FillPrescriptionError::AlreadyFilled,
            ),
            res matches Ok(f) ==> self.fill is None && f.prescription_id == self.id
                && f.pharmacist_id == pharmacist_id,
            res == Err::<NewPrescriptionFill, FillPrescriptionError>(FillPrescriptionError::Expired)
                ==> self.fill is None,
    {
        let now = now_millis();
        let fill_id = new_id();
        self.fill_at(pharmacist_id, fill_id, now)
    }
}

} // verus!
