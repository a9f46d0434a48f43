use clinic::doctors::{DoctorsRepositoryTrait, InMemoryDoctorsRepository, NewDoctor};
use clinic::drugs::{DrugContentType, DrugsRepositoryTrait, InMemoryDrugsRepository, NewDrug};
use clinic::ids::Id;
use clinic::patients::{InMemoryPatientsRepository, NewPatient, PatientsRepositoryTrait};
use clinic::pharmacists::{
    InMemoryPharmacistsRepository, NewPharmacist, PharmacistsRepositoryTrait,
};
use clinic::prescriptions::models::{NewPrescription, PrescriptionType};
use clinic::prescriptions::repository::{InMemoryPrescriptionsRepository, PrescriptionsRepository};

struct DatabaseSeedData {
    doctor: NewDoctor,
    pharmacist: NewPharmacist,
    patient: NewPatient,
    drugs: Vec<NewDrug>,
}

fn seed_database() -> DatabaseSeedData {
    let mut pharmacists_repo = InMemoryPharmacistsRepository::new();
    let pharmacist = NewPharmacist::new(
        "John Pharmacist".into(), //
        "96021807250".into(),
    )
    .unwrap();
    pharmacists_repo
        .create_pharmacist(pharmacist.clone())
        .unwrap();

    let mut patients_repo = InMemoryPatientsRepository::new();
    let patient = NewPatient::new(
        "John Patient".into(), //
        "96021807250".into(),
    )
    .unwrap();
    patients_repo.create_patient(patient.clone()).unwrap();

    let mut drugs_repo = InMemoryDrugsRepository::new();
    let mut drugs = vec![];
    for _ in 0..4 {
        let drug = NewDrug::new(
            "Gripex".into(),
            DrugContentType::SolidPills,
            Some(20),
            Some(300),
            None,
            None,
        )
        .unwrap();
        drugs.push(drug.clone());
        drugs_repo.create_drug(drug).unwrap();
    }

    let mut doctors_repo = InMemoryDoctorsRepository::new();
    let doctor = NewDoctor::new(
        "John Doctor".into(), //
        "3123456".into(),
        "96021807250".into(),
    )
    .unwrap();
    doctors_repo.create_doctor(doctor.clone()).unwrap();

    DatabaseSeedData {
        doctor,
        pharmacist,
        patient,
        drugs,
    }
}

fn setup_repository() -> (InMemoryPrescriptionsRepository, DatabaseSeedData) {
    let seed_data = seed_database();
    let repository = InMemoryPrescriptionsRepository::new();
    (repository, seed_data)
}

#[test]
fn creates_and_reads_prescriptions_from_database() {
    let (mut repository, seed_data) = setup_repository();

    let mut new_prescription =
        NewPrescription::new(seed_data.doctor.id, seed_data.patient.id, None, None);
    for i in 0..4 {
        new_prescription.add_drug(seed_data.drugs[i].id, 1).unwrap();
    }

    repository
        .create_prescription(new_prescription.clone())
        .unwrap();

    for _ in 0..10 {
        let mut another_prescription =
            NewPrescription::new(seed_data.doctor.id, seed_data.patient.id, None, None);
        another_prescription
            .add_drug(seed_data.drugs[0].id, 1)
            .unwrap();
        repository.create_prescription(another_prescription).unwrap();
    }

    let prescriptions = repository.get_prescriptions(None, Some(7)).unwrap();

    assert_eq!(prescriptions.len(), 7);
    assert_eq!(prescriptions[0].id, new_prescription.id);
    assert_eq!(prescriptions[0].doctor.id, new_prescription.doctor_id);
    assert_eq!(prescriptions[0].patient.id, new_prescription.patient_id);
    assert_eq!(prescriptions[0].prescribed_drugs.len(), 4);

    let prescriptions = repository.get_prescriptions(None, Some(20)).unwrap();
    assert!(prescriptions.len() == 11);

    let prescriptions = repository.get_prescriptions(Some(1), Some(10)).unwrap();
    assert!(prescriptions.len() == 1);
}

#[test]
fn creates_and_reads_prescription_by_id() {
    let (mut repository, seed_data) = setup_repository();

    let mut new_prescription =
        NewPrescription::new(seed_data.doctor.id, seed_data.patient.id, None, None);
    for i in 0..2 {
        new_prescription.add_drug(seed_data.drugs[i].id, 1).unwrap();
    }

    repository
        .create_prescription(new_prescription.clone())
        .unwrap();

    let prescription_from_db = repository
        .get_prescription_by_id(new_prescription.id)
        .unwrap();

    assert_eq!(prescription_from_db.id, new_prescription.id);
    assert_eq!(prescription_from_db.doctor.id, new_prescription.doctor_id);
    assert_eq!(prescription_from_db.patient.id, new_prescription.patient_id);
    assert_eq!(
        prescription_from_db.prescription_type,
        new_prescription.prescription_type
    );
    assert_eq!(prescription_from_db.start_date, new_prescription.start_date);
    assert_eq!(prescription_from_db.end_date, new_prescription.end_date);
    assert_eq!(prescription_from_db.prescribed_drugs.len(), 2);
    for i in 0..2 {
        assert_eq!(
            prescription_from_db.prescribed_drugs[i].drug_id,
            new_prescription.prescribed_drugs[i].drug_id
        );
        assert_eq!(
            prescription_from_db.prescribed_drugs[i].quantity,
            new_prescription.prescribed_drugs[i].quantity as i32
        );
    }
}

#[test]
fn returns_error_if_prescription_doesnt_exist() {
    let (repository, _) = setup_repository();
    let prescription_id = Id(uuid::Uuid::new_v4().as_u128());

    let prescription_from_db = repository.get_prescription_by_id(prescription_id);

    assert!(prescription_from_db.is_err());
}

#[test]
fn fills_prescription_and_saves_to_database() {
    let (mut repository, seed_data) = setup_repository();

    let mut prescription =
        NewPrescription::new(seed_data.doctor.id, seed_data.patient.id, None, None);
    prescription.add_drug(seed_data.drugs[0].id, 1).unwrap();

    repository.create_prescription(prescription.clone()).unwrap();

    let prescription_from_db = repository.get_prescription_by_id(prescription.id).unwrap();

    assert!(prescription_from_db.fill.is_none());

    let new_prescription_fill = prescription_from_db.fill(seed_data.pharmacist.id).unwrap();
    let created_prescription_fill = repository
        .fill_prescription(new_prescription_fill.clone())
        .unwrap();

    assert_eq!(created_prescription_fill.id, new_prescription_fill.id);
    assert_eq!(
        created_prescription_fill.prescription_id,
        new_prescription_fill.prescription_id
    );
    assert_eq!(
        created_prescription_fill.pharmacist_id,
        new_prescription_fill.pharmacist_id
    );

    let prescription_from_db = repository.get_prescription_by_id(prescription.id).unwrap();

    assert_eq!(prescription_from_db.fill.unwrap(), created_prescription_fill);
}

#[test]
fn round_trip_keeps_line_items_and_has_no_fill() {
    let (mut repository, seed_data) = setup_repository();

    let drug_one = seed_data.drugs[0].id;
    let drug_two = seed_data.drugs[1].id;
    let mut prescription = NewPrescription::new(
        seed_data.doctor.id,
        seed_data.patient.id,
        None,
        Some(PrescriptionType::ForChronicDiseaseDrugs),
    );
    prescription.add_drug(drug_one, 2).unwrap();
    prescription.add_drug(drug_two, 3).unwrap();

    repository.create_prescription(prescription.clone()).unwrap();

    let read_back = repository.get_prescription_by_id(prescription.id).unwrap();

    assert!(read_back.fill.is_none());
    assert_eq!(read_back.prescribed_drugs.len(), 2);
    let mut line_items: Vec<(Id, i32)> = read_back
        .prescribed_drugs
        .iter()
        .map(|d| (d.drug_id, d.quantity))
        .collect();
    let mut expected = vec![(drug_one, 2), (drug_two, 3)];
    line_items.sort_by_key(|(id, _)| id.0);
    expected.sort_by_key(|(id, _)| id.0);
    assert_eq!(line_items, expected);
}

#[test]
fn filling_twice_conflicts_and_filling_missing_is_not_found() {
    let (mut repository, seed_data) = setup_repository();

    let mut prescription =
        NewPrescription::new(seed_data.doctor.id, seed_data.patient.id, None, None);
    prescription.add_drug(seed_data.drugs[0].id, 1).unwrap();
    let prescription_id = prescription.id;

    repository.create_prescription(prescription).unwrap();

    let read_back = repository.get_prescription_by_id(prescription_id).unwrap();
    let fill = read_back.fill(seed_data.pharmacist.id).unwrap();
    repository.fill_prescription(fill).unwrap();

    // a second fill of the same prescription is a conflict
    let again = clinic::prescriptions::models::NewPrescriptionFill {
        id: Id(uuid::Uuid::new_v4().as_u128()),
        prescription_id,
        pharmacist_id: seed_data.pharmacist.id,
    };
    assert_eq!(
        repository.fill_prescription(again),
        Err(clinic::repo::RepoError::Duplicate)
    );

    // filling a prescription that does not exist is a not-found failure
    let missing = clinic::prescriptions::models::NewPrescriptionFill {
        id: Id(uuid::Uuid::new_v4().as_u128()),
        prescription_id: Id(uuid::Uuid::new_v4().as_u128()),
        pharmacist_id: seed_data.pharmacist.id,
    };
    assert_eq!(
        repository.fill_prescription(missing),
        Err(clinic::repo::RepoError::NotFound)
    );
}

#[test]
fn pages_of_two_over_four_prescriptions() {
    let (mut repository, seed_data) = setup_repository();

    for _ in 0..4 {
        let mut prescription =
            NewPrescription::new(seed_data.doctor.id, seed_data.patient.id, None, None);
        prescription.add_drug(seed_data.drugs[0].id, 1).unwrap();
        repository.create_prescription(prescription).unwrap();
    }

    assert_eq!(repository.get_prescriptions(Some(0), Some(2)).unwrap().len(), 2);
    assert_eq!(repository.get_prescriptions(Some(1), Some(2)).unwrap().len(), 2);
    assert_eq!(repository.get_prescriptions(Some(2), Some(2)).unwrap().len(), 0);
}
