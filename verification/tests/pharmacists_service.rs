use clinic::ids::Id;
use clinic::pharmacists::{InMemoryPharmacistsRepository, PharmacistsService};

fn setup_service() -> PharmacistsService<InMemoryPharmacistsRepository> {
    PharmacistsService::new(InMemoryPharmacistsRepository::new())
}

#[test]
fn creates_pharmacist_and_reads_by_id() {
    let mut service = setup_service();

    let created_pharmacist = service
        .create_pharmacist("John Doex".into(), "96021807250".into())
        .unwrap();

    assert_eq!(created_pharmacist.name, "John Doex");
    assert_eq!(created_pharmacist.pesel_number, "96021807250");

    let pharmacist_from_repository = service
        .get_pharmacist_by_id(created_pharmacist.id)
        .unwrap();

    assert_eq!(pharmacist_from_repository.name, "John Doex");
    assert_eq!(pharmacist_from_repository.pesel_number, "96021807250");
}

#[test]
fn create_pharmacist_returns_error_if_body_is_incorrect() {
    let mut service = setup_service();

    let result = service.create_pharmacist("John Doex".into(), "96021807251".into()); // invalid pesel

    assert!(result.is_err());
}

#[test]
fn create_pharmacist_returns_error_if_pesel_number_is_duplicated() {
    let mut service = setup_service();

    let first = service.create_pharmacist("John Doex".into(), "96021807250".into());
    assert!(first.is_ok());

    let duplicated_pesel_number_result =
        service.create_pharmacist("John Doex".into(), "96021807250".into());

    assert!(duplicated_pesel_number_result.is_err());
}

#[test]
fn get_pharmacist_by_id_returns_error_if_such_pharmacist_does_not_exist() {
    let service = setup_service();

    let result = service.get_pharmacist_by_id(Id(uuid::Uuid::new_v4().as_u128()));

    assert!(result.is_err());
}

#[test]
fn gets_pharmacists_with_pagination() {
    let mut service = setup_service();

    service
        .create_pharmacist("John Doex".into(), "96021817257".into())
        .unwrap();
    service
        .create_pharmacist("John Doey".into(), "99031301347".into())
        .unwrap();
    service
        .create_pharmacist("John Doez".into(), "92022900002".into())
        .unwrap();
    service
        .create_pharmacist("John Doeq".into(), "96021807250".into())
        .unwrap();

    let pharmacists = service
        .get_pharmacists_with_pagination(Some(1), Some(2))
        .unwrap();
    assert_eq!(pharmacists.len(), 2);

    let pharmacists = service
        .get_pharmacists_with_pagination(Some(1), Some(3))
        .unwrap();
    assert_eq!(pharmacists.len(), 1);

    let pharmacists = service
        .get_pharmacists_with_pagination(None, Some(10))
        .unwrap();
    assert_eq!(pharmacists.len(), 4);

    let pharmacists = service
        .get_pharmacists_with_pagination(Some(1), None)
        .unwrap();
    assert_eq!(pharmacists.len(), 0);

    let pharmacists = service.get_pharmacists_with_pagination(None, None).unwrap();
    assert_eq!(pharmacists.len(), 4);

    let pharmacists = service
        .get_pharmacists_with_pagination(Some(2), Some(3))
        .unwrap();
    assert_eq!(pharmacists.len(), 0);
}

#[test]
fn get_pharmacists_with_pagination_returns_error_if_params_are_invalid() {
    let service = setup_service();

    assert!(service
        .get_pharmacists_with_pagination(Some(-1), None)
        .is_err());

    assert!(service
        .get_pharmacists_with_pagination(None, Some(0))
        .is_err());
}
