use clinic::prescriptions::models::FillPrescriptionError;
use clinic::validation::{validate_license_number, validate_personal_id};

#[test]
fn validation_errors_carry_their_messages() {
    let personal = validate_personal_id("123".to_string()).unwrap_err();
    assert_eq!(personal.message(), "invalid personal identity number");

    let license = validate_license_number("123".to_string()).unwrap_err();
    assert_eq!(license.message(), "invalid license number");
}

#[test]
fn fill_errors_carry_their_messages() {
    assert_eq!(
        FillPrescriptionError::AlreadyFilled.message(),
        "prescription is already filled"
    );
    assert_eq!(
        FillPrescriptionError::Expired.message(),
        "prescription has expired"
    );
}
