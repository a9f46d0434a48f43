use clinic::validation::{validate_license_number, validate_personal_id};

#[test]
fn accepts_valid_personal_ids() {
    for pesel in ["96021817257", "96021807250", "99031301347", "92022900002"] {
        assert!(validate_personal_id(pesel.to_string()).is_ok(), "{pesel} should be valid");
    }
}

#[test]
fn rejects_personal_id_with_wrong_checksum() {
    assert!(validate_personal_id("96021807251".to_string()).is_err());
}

#[test]
fn rejects_personal_id_with_wrong_length() {
    assert!(validate_personal_id("9602180725".to_string()).is_err());
    assert!(validate_personal_id("960218072500".to_string()).is_err());
    assert!(validate_personal_id("".to_string()).is_err());
}

#[test]
fn rejects_personal_id_with_non_digit() {
    assert!(validate_personal_id("9602180725a".to_string()).is_err());
    assert!(validate_personal_id("96o2180725O".to_string()).is_err());
}

#[test]
fn rejects_personal_id_with_implausible_month() {
    // checksum holds, but the embedded month reads 13
    assert!(validate_personal_id("96131807256".to_string()).is_err());
}

#[test]
fn rejects_every_single_digit_mutation_of_a_valid_personal_id() {
    let valid = "96021817257";
    for i in 0..valid.len() {
        for d in b'0'..=b'9' {
            let mut bytes = valid.as_bytes().to_vec();
            if bytes[i] == d {
                continue;
            }
            bytes[i] = d;
            let mutated = String::from_utf8(bytes).unwrap();
            assert!(
                validate_personal_id(mutated.clone()).is_err(),
                "mutation {mutated} should be invalid"
            );
        }
    }
}

#[test]
fn accepts_seven_digit_license_numbers() {
    assert!(validate_license_number("5425740".to_string()).is_ok());
    assert!(validate_license_number("3123456".to_string()).is_ok());
    assert!(validate_license_number("0000000".to_string()).is_ok());
}

#[test]
fn rejects_malformed_license_numbers() {
    assert!(validate_license_number("542574".to_string()).is_err());
    assert!(validate_license_number("54257400".to_string()).is_err());
    assert!(validate_license_number("54257a0".to_string()).is_err());
    assert!(validate_license_number("".to_string()).is_err());
}
