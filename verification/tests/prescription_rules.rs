use clinic::ids::Id;
use clinic::prescriptions::models::{
    FillPrescriptionError, NewPrescription, Prescription, PrescriptionDoctor, PrescriptionPatient,
    PrescriptionRuleError, PrescriptionType,
};

const DAY_MILLIS: i64 = 86_400_000;

fn fresh_id() -> Id {
    Id(uuid::Uuid::new_v4().as_u128())
}

#[test]
fn defaults_to_regular_type_and_thirty_days() {
    let prescription = NewPrescription::new(fresh_id(), fresh_id(), Some(1_000), None);

    assert_eq!(prescription.prescription_type, PrescriptionType::Regular);
    assert_eq!(prescription.start_date, 1_000);
    assert_eq!(prescription.end_date, 1_000 + 30 * DAY_MILLIS);
    assert!(prescription.prescribed_drugs.is_empty());
}

#[test]
fn chronic_disease_prescriptions_last_a_year() {
    let prescription = NewPrescription::new(
        fresh_id(),
        fresh_id(),
        Some(5_000),
        Some(PrescriptionType::ForChronicDiseaseDrugs),
    );

    assert_eq!(prescription.end_date, 5_000 + 365 * DAY_MILLIS);
}

#[test]
fn codes_are_presentable_and_distinct_per_prescription() {
    let a = NewPrescription::new(fresh_id(), fresh_id(), Some(0), None);
    let b = NewPrescription::new(fresh_id(), fresh_id(), Some(0), None);

    assert!(a.code.starts_with("RX"));
    assert!(a.code.len() > 2);
    assert_ne!(a.id, b.id);
    assert_ne!(a.code, b.code);
}

#[test]
fn add_drug_rejects_zero_quantity() {
    let mut prescription = NewPrescription::new(fresh_id(), fresh_id(), None, None);

    assert_eq!(
        prescription.add_drug(fresh_id(), 0),
        Err(PrescriptionRuleError::InvalidQuantity)
    );
}

#[test]
fn add_drug_rejects_an_eleventh_line_item() {
    let mut prescription = NewPrescription::new(fresh_id(), fresh_id(), None, None);

    for _ in 0..10 {
        prescription.add_drug(fresh_id(), 1).unwrap();
    }
    assert_eq!(
        prescription.add_drug(fresh_id(), 1),
        Err(PrescriptionRuleError::TooManyPrescribedDrugs)
    );
}

#[test]
fn quantity_caps_follow_the_prescription_type() {
    // antibiotics: at most one unit of one drug
    let mut antibiotics = NewPrescription::new(
        fresh_id(),
        fresh_id(),
        None,
        Some(PrescriptionType::ForAntibiotics),
    );
    let drug = fresh_id();
    assert_eq!(
        antibiotics.add_drug(drug, 2),
        Err(PrescriptionRuleError::QuantityLimitExceeded(drug))
    );
    antibiotics.add_drug(drug, 1).unwrap();
    assert_eq!(
        antibiotics.add_drug(drug, 1),
        Err(PrescriptionRuleError::QuantityLimitExceeded(drug))
    );

    // immunological: at most two units of one drug
    let mut immunological = NewPrescription::new(
        fresh_id(),
        fresh_id(),
        None,
        Some(PrescriptionType::ForImmunologicalDrugs),
    );
    immunological.add_drug(drug, 2).unwrap();
    assert_eq!(
        immunological.add_drug(drug, 1),
        Err(PrescriptionRuleError::QuantityLimitExceeded(drug))
    );

    // chronic disease: at most four units of one drug
    let mut chronic = NewPrescription::new(
        fresh_id(),
        fresh_id(),
        None,
        Some(PrescriptionType::ForChronicDiseaseDrugs),
    );
    chronic.add_drug(drug, 4).unwrap();
    assert_eq!(
        chronic.add_drug(drug, 1),
        Err(PrescriptionRuleError::QuantityLimitExceeded(drug))
    );

    // regular: no per-drug cap, only the ten-line-item cap
    let mut regular = NewPrescription::new(fresh_id(), fresh_id(), None, None);
    regular.add_drug(drug, 1_000).unwrap();
    regular.add_drug(drug, 1_000).unwrap();
}

#[test]
fn validate_demands_one_to_ten_line_items() {
    let empty = NewPrescription::new(fresh_id(), fresh_id(), None, None);
    assert_eq!(
        empty.validate(),
        Err(PrescriptionRuleError::NoPrescribedDrugs)
    );

    let mut filled = NewPrescription::new(fresh_id(), fresh_id(), None, None);
    for _ in 0..3 {
        filled.add_drug(fresh_id(), 2).unwrap();
    }
    assert_eq!(filled.validate(), Ok(()));
}

fn prescription_with_window(start_date: i64, end_date: i64) -> Prescription {
    Prescription {
        id: fresh_id(),
        doctor: PrescriptionDoctor {
            id: fresh_id(),
            name: "John Doctor".into(),
            pesel_number: "96021807250".into(),
            pwz_number: "3123456".into(),
        },
        patient: PrescriptionPatient {
            id: fresh_id(),
            name: "John Patient".into(),
            pesel_number: "96021807250".into(),
        },
        prescribed_drugs: vec![],
        prescription_type: PrescriptionType::Regular,
        fill: None,
        start_date,
        end_date,
        created_at: start_date,
        updated_at: start_date,
    }
}

#[test]
fn fill_at_refuses_expired_and_filled_prescriptions() {
    let prescription = prescription_with_window(0, 1_000);
    let pharmacist = fresh_id();
    let fill_id = fresh_id();

    let fill = prescription.fill_at(pharmacist, fill_id, 500).unwrap();
    assert_eq!(fill.id, fill_id);
    assert_eq!(fill.prescription_id, prescription.id);
    assert_eq!(fill.pharmacist_id, pharmacist);

    // exactly at the end date the prescription can still be filled
    assert!(prescription.fill_at(pharmacist, fill_id, 1_000).is_ok());

    // past the end date it is expired
    assert_eq!(
        prescription.fill_at(pharmacist, fill_id, 1_001),
        Err(FillPrescriptionError::Expired)
    );

    // a prescription that already carries a fill conflicts, whatever the time
    let mut filled = prescription_with_window(0, 1_000);
    filled.fill = Some(clinic::prescriptions::models::PrescriptionFill {
        id: fresh_id(),
        prescription_id: filled.id,
        pharmacist_id: pharmacist,
        created_at: 100,
        updated_at: 100,
    });
    assert_eq!(
        filled.fill_at(pharmacist, fill_id, 500),
        Err(FillPrescriptionError::AlreadyFilled)
    );
    assert_eq!(
        filled.fill(pharmacist),
        Err(FillPrescriptionError::AlreadyFilled)
    );
}
