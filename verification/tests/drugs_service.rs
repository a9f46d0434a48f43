use clinic::drugs::{
    CreateDrugError, DrugContentType, DrugsService, InMemoryDrugsRepository, NewDrug,
};
use clinic::ids::Id;

fn setup_service() -> DrugsService<InMemoryDrugsRepository> {
    DrugsService::new(InMemoryDrugsRepository::new())
}

#[test]
fn creates_drug_and_reads_by_id() {
    let mut service = setup_service();

    let result = service.create_drug(
        "Gripex".into(),
        DrugContentType::SolidPills,
        Some(20),
        Some(300),
        None,
        None,
    );

    assert!(result.is_ok());

    let created_drug = result.unwrap();

    assert_eq!(created_drug.name, "Gripex");
    assert_eq!(created_drug.content_type, DrugContentType::SolidPills);
    assert_eq!(created_drug.pills_count, Some(20));
    assert_eq!(created_drug.mg_per_pill, Some(300));
    assert_eq!(created_drug.ml_per_pill, None);
    assert_eq!(created_drug.volume_ml, None);

    let get_drug_by_id_result = service.get_drug_by_id(created_drug.id);

    assert!(get_drug_by_id_result.is_ok());

    let drug_from_repository = get_drug_by_id_result.unwrap();

    assert_eq!(drug_from_repository.name, "Gripex");
    assert_eq!(drug_from_repository.content_type, DrugContentType::SolidPills);
    assert_eq!(drug_from_repository.pills_count, Some(20));
    assert_eq!(drug_from_repository.mg_per_pill, Some(300));
    assert_eq!(drug_from_repository.ml_per_pill, None);
    assert_eq!(drug_from_repository.volume_ml, None);
}

#[test]
fn get_drug_by_id_returns_error_if_drug_doesnt_exist() {
    let service = setup_service();

    let result = service.get_drug_by_id(Id(uuid::Uuid::new_v4().as_u128()));

    assert!(result.is_err());
}

#[test]
fn gets_drugs_with_pagination() {
    let mut service = setup_service();

    let result = service
        .create_drug(
            "Gripex".into(),
            DrugContentType::SolidPills,
            Some(20),
            Some(300),
            None,
            None,
        )
        .unwrap();

    assert_eq!(result.name, "Gripex");
    assert_eq!(result.content_type, DrugContentType::SolidPills);
    assert_eq!(result.pills_count, Some(20));
    assert_eq!(result.mg_per_pill, Some(300));
    assert_eq!(result.ml_per_pill, None);
    assert_eq!(result.volume_ml, None);

    service
        .create_drug(
            "Apap".into(),
            DrugContentType::SolidPills,
            Some(10),
            Some(400),
            None,
            None,
        )
        .unwrap();
    service
        .create_drug(
            "Aspirin".into(),
            DrugContentType::SolidPills,
            Some(30),
            Some(200),
            None,
            None,
        )
        .unwrap();
    service
        .create_drug(
            "Flegamax".into(),
            DrugContentType::BottleOfLiquid,
            None,
            None,
            None,
            Some(400),
        )
        .unwrap();

    let drugs = service.get_drugs_with_pagination(Some(1), Some(2)).unwrap();
    assert_eq!(drugs.len(), 2);

    let drugs = service.get_drugs_with_pagination(Some(1), Some(3)).unwrap();
    assert_eq!(drugs.len(), 1);

    let drugs = service.get_drugs_with_pagination(None, Some(10)).unwrap();
    assert_eq!(drugs.len(), 4);

    let drugs = service.get_drugs_with_pagination(Some(1), None).unwrap();
    assert_eq!(drugs.len(), 0);

    let drugs = service.get_drugs_with_pagination(None, None).unwrap();
    assert_eq!(drugs.len(), 4);

    let drugs = service.get_drugs_with_pagination(Some(2), Some(3)).unwrap();
    assert_eq!(drugs.len(), 0);
}

#[test]
fn get_drugs_with_pagination_returns_error_if_params_are_invalid() {
    let service = setup_service();

    assert!(service.get_drugs_with_pagination(Some(-1), None).is_err());

    assert!(service.get_drugs_with_pagination(None, Some(0)).is_err());
}

#[test]
fn rejects_bottle_of_liquid_with_pills_count() {
    let mut service = setup_service();

    let result = service.create_drug(
        "Flegamax".into(),
        DrugContentType::BottleOfLiquid,
        Some(20),
        None,
        None,
        Some(400),
    );

    assert!(matches!(result, Err(CreateDrugError::ValidationError(_))));
}

#[test]
fn accepts_bottle_of_liquid_with_only_volume() {
    let mut service = setup_service();

    let result = service.create_drug(
        "Flegamax".into(),
        DrugContentType::BottleOfLiquid,
        None,
        None,
        None,
        Some(400),
    );

    assert!(result.is_ok());
}

#[test]
fn rejects_each_content_type_with_missing_or_forbidden_attributes() {
    assert!(NewDrug::new("A".into(), DrugContentType::SolidPills, Some(1), None, None, None)
        .is_err());
    assert!(NewDrug::new(
        "A".into(),
        DrugContentType::SolidPills,
        Some(1),
        Some(2),
        Some(3),
        None
    )
    .is_err());
    assert!(NewDrug::new("A".into(), DrugContentType::LiquidPills, Some(1), Some(2), None, None)
        .is_err());
    assert!(NewDrug::new("A".into(), DrugContentType::LiquidPills, Some(1), None, Some(2), None)
        .is_ok());
    assert!(NewDrug::new(
        "A".into(),
        DrugContentType::BottleOfPills,
        Some(1),
        None,
        None,
        Some(2)
    )
    .is_ok());
    assert!(NewDrug::new("A".into(), DrugContentType::BottleOfPills, None, None, None, Some(2))
        .is_err());
}
