use clinic::doctors::{
    DoctorsRepositoryTrait, InMemoryDoctorsRepository, NewDoctor, NewDoctorError,
};

#[test]
fn create_and_read_doctors_from_database() {
    let mut repository = InMemoryDoctorsRepository::new();

    let doctor = NewDoctor::new("John Doe".into(), "5425740".into(), "96021817257".into()).unwrap();

    repository.create_doctor(doctor).unwrap();

    let doctors = repository.get_doctors(None, None).unwrap();
    let first_doctor = doctors.first().unwrap();

    assert_eq!(first_doctor.name, "John Doe");
    assert_eq!(first_doctor.pwz_number, "5425740");
    assert_eq!(first_doctor.pesel_number, "96021817257");
}

#[test]
fn create_and_read_doctor_by_id() {
    let mut repository = InMemoryDoctorsRepository::new();

    let doctor = NewDoctor::new("John Doe".into(), "5425740".into(), "96021817257".into()).unwrap();
    let doctor_id = doctor.id;

    repository.create_doctor(doctor).unwrap();

    let doctor_from_repo = repository.get_doctor_by_id(doctor_id).unwrap();

    assert_eq!(doctor_from_repo.name, "John Doe");
    assert_eq!(doctor_from_repo.pwz_number, "5425740");
    assert_eq!(doctor_from_repo.pesel_number, "96021817257");
}

#[test]
fn new_doctor_reports_first_invalid_field() {
    // bad license and bad identity number: the license is reported first
    let result = NewDoctor::new("John Doe".into(), "54257".into(), "96021807251".into());
    assert_eq!(result.unwrap_err(), NewDoctorError::InvalidPwzNumber);

    // valid license, bad identity number
    let result = NewDoctor::new("John Doe".into(), "5425740".into(), "96021807251".into());
    assert_eq!(result.unwrap_err(), NewDoctorError::InvalidPeselNumber);
}

#[test]
fn create_doctor_rejects_duplicate_license_or_identity_number() {
    let mut repository = InMemoryDoctorsRepository::new();

    let doctor = NewDoctor::new("John Doe".into(), "5425740".into(), "96021817257".into()).unwrap();
    repository.create_doctor(doctor).unwrap();

    let same_pesel =
        NewDoctor::new("Jane Doe".into(), "3123456".into(), "96021817257".into()).unwrap();
    assert!(repository.create_doctor(same_pesel).is_err());

    let same_pwz =
        NewDoctor::new("Jane Doe".into(), "5425740".into(), "96021807250".into()).unwrap();
    assert!(repository.create_doctor(same_pwz).is_err());

    let distinct =
        NewDoctor::new("Jane Doe".into(), "3123456".into(), "96021807250".into()).unwrap();
    assert!(repository.create_doctor(distinct).is_ok());
}
