use store_service::handler::{
    create_store, create_store_with_id, delete_store, delete_store_by_id, get_all_stores,
    get_store, get_store_by_id, respond_created, respond_deleted, respond_list, respond_store,
    update_store, update_store_by_id, Body, Response,
};
use store_service::model::dto::{ErrorResponse, OkResponse, StorePayload};
use store_service::model::Store;
use store_service::repository::{DatabaseError, RepositoryError, StoreTable};

const ID: &str = "550e8400-e29b-41d4-a716-446655440000";
const ID_VALUE: u128 = 0x550e8400e29b41d4a716446655440000;
const OTHER_ID: &str = "a1a2a3a4-b1b2-c1c2-d1d2-d3d4d5d6d7d8";

fn text(s: &str) -> Option<String> {
    Some(s.to_string())
}

fn payload(name: Option<&str>, address: Option<&str>, phone: Option<&str>) -> StorePayload {
    StorePayload {
        name: name.map(|s| s.to_string()),
        address: address.map(|s| s.to_string()),
        phone: phone.map(|s| s.to_string()),
    }
}

fn abc(id: u128) -> Store {
    Store { id, name: text("A"), address: text("B"), phone: text("C") }
}

fn failure(status: u16, message: &str) -> Response {
    Response {
        status,
        body: Body::Failure(ErrorResponse { status, message: message.to_string() }),
    }
}

fn invalid_uuid() -> Response {
    failure(400, "Invalid UUID format")
}

fn not_found() -> Response {
    failure(404, "Store not found")
}

fn with_store(status: u16, store: Store) -> Response {
    Response { status, body: Body::Store(store) }
}

fn database_error(message: &str) -> DatabaseError {
    DatabaseError { message: message.to_string() }
}

fn hyphenated(id: u128) -> String {
    uuid::Uuid::from_u128(id).hyphenated().to_string()
}

#[test]
fn respond_list_maps_rows_to_200() {
    assert_eq!(
        respond_list(Ok(vec![abc(1), abc(2)])),
        Response { status: 200, body: Body::Stores(vec![abc(1), abc(2)]) }
    );
}

#[test]
fn respond_list_maps_failure_to_bare_500() {
    assert_eq!(
        respond_list(Err(database_error("connection refused"))),
        Response { status: 500, body: Body::Empty }
    );
}

#[test]
fn respond_created_maps_row_to_201() {
    assert_eq!(respond_created(Ok(abc(1))), with_store(201, abc(1)));
}

#[test]
fn respond_created_maps_failure_to_bare_500() {
    assert_eq!(
        respond_created(Err(database_error("duplicate key"))),
        Response { status: 500, body: Body::Empty }
    );
}

#[test]
fn respond_store_maps_row_to_200() {
    assert_eq!(respond_store(Ok(abc(1))), with_store(200, abc(1)));
}

#[test]
fn respond_store_maps_every_failure_to_404() {
    assert_eq!(respond_store(Err(RepositoryError::NotFound)), not_found());
    assert_eq!(
        respond_store(Err(RepositoryError::Database(database_error("connection refused")))),
        not_found()
    );
}

#[test]
fn respond_deleted_reports_the_count() {
    assert_eq!(
        respond_deleted(Ok(1)),
        Response {
            status: 200,
            body: Body::Notice(OkResponse {
                status: 200,
                message: "Store deleted successfully 1 rows affected".to_string(),
            }),
        }
    );
    assert_eq!(
        respond_deleted(Ok(12)),
        Response {
            status: 200,
            body: Body::Notice(OkResponse {
                status: 200,
                message: "Store deleted successfully 12 rows affected".to_string(),
            }),
        }
    );
}

#[test]
fn respond_deleted_maps_zero_rows_to_404() {
    assert_eq!(respond_deleted(Ok(0)), not_found());
}

#[test]
fn respond_deleted_passes_the_failure_text_on() {
    assert_eq!(
        respond_deleted(Err(database_error("connection refused"))),
        failure(500, "Error deleting store: connection refused")
    );
    assert_eq!(respond_deleted(Err(database_error(""))), failure(500, "Error deleting store: "));
}

#[test]
fn get_of_unknown_id_is_404() {
    let mut table = StoreTable::new();
    assert_eq!(get_store_by_id(&table, ID), not_found());
    assert_eq!(create_store_with_id(&mut table, ID_VALUE, payload(None, None, None)).status, 201);
    assert_eq!(get_store_by_id(&table, OTHER_ID), not_found());
    assert_eq!(get_store(&table, Some(3)), not_found());
}

#[test]
fn malformed_id_is_400_on_every_id_route() {
    for id in ["not-a-uuid", "", "1234"] {
        let mut table = StoreTable::new();
        assert_eq!(create_store_with_id(&mut table, ID_VALUE, payload(Some("A"), None, None)).status, 201);
        let before = table.list_all();
        assert_eq!(get_store_by_id(&table, id), invalid_uuid());
        assert_eq!(update_store_by_id(&mut table, id, payload(Some("Z"), None, None)), invalid_uuid());
        assert_eq!(delete_store_by_id(&mut table, id), invalid_uuid());
        assert_eq!(table.list_all(), before);
    }
}

#[test]
fn unparsed_id_is_400_and_the_table_stays() {
    let mut table = StoreTable::new();
    assert_eq!(create_store_with_id(&mut table, 1, payload(Some("A"), None, None)).status, 201);
    assert_eq!(get_store(&table, None), invalid_uuid());
    assert_eq!(update_store(&mut table, None, payload(Some("Z"), None, None)), invalid_uuid());
    assert_eq!(delete_store(&mut table, None), invalid_uuid());
    assert_eq!(
        table.list_all(),
        Ok(vec![Store { id: 1, name: text("A"), address: None, phone: None }])
    );
}

#[test]
fn created_store_is_found_again() {
    let mut table = StoreTable::new();
    let created = create_store(&mut table, payload(Some("A"), Some("B"), Some("C")));
    assert_eq!(created.status, 201);
    let store = match created.body {
        Body::Store(store) => store,
        other => panic!("unexpected body {:?}", other),
    };
    assert_eq!(store, abc(store.id));
    let found = get_store_by_id(&table, &hyphenated(store.id));
    assert_eq!(found, with_store(200, store));
}

#[test]
fn created_store_with_given_id_is_found_again() {
    let mut table = StoreTable::new();
    assert_eq!(
        create_store_with_id(&mut table, ID_VALUE, payload(Some("A"), Some("B"), Some("C"))),
        with_store(201, abc(ID_VALUE))
    );
    assert_eq!(get_store_by_id(&table, ID), with_store(200, abc(ID_VALUE)));
    assert_eq!(get_store(&table, Some(ID_VALUE)), with_store(200, abc(ID_VALUE)));
}

#[test]
fn create_under_a_taken_id_is_500() {
    let mut table = StoreTable::new();
    assert_eq!(create_store_with_id(&mut table, 1, payload(Some("A"), Some("B"), Some("C"))).status, 201);
    assert_eq!(
        create_store_with_id(&mut table, 1, payload(Some("X"), None, None)),
        Response { status: 500, body: Body::Empty }
    );
    assert_eq!(table.list_all(), Ok(vec![abc(1)]));
}

#[test]
fn partial_update_keeps_omitted_fields() {
    let mut table = StoreTable::new();
    assert_eq!(
        create_store_with_id(&mut table, ID_VALUE, payload(Some("A"), Some("B"), Some("C"))).status,
        201
    );
    let expected = Store { id: ID_VALUE, name: text("Z"), address: text("B"), phone: text("C") };
    assert_eq!(
        update_store_by_id(&mut table, ID, payload(Some("Z"), None, None)),
        with_store(200, expected.clone())
    );
    assert_eq!(get_store_by_id(&table, ID), with_store(200, expected));
}

#[test]
fn update_of_unknown_id_is_404() {
    let mut table = StoreTable::new();
    assert_eq!(update_store_by_id(&mut table, ID, payload(Some("Z"), None, None)), not_found());
    assert_eq!(update_store(&mut table, Some(5), payload(Some("Z"), None, None)), not_found());
    assert_eq!(table.len(), 0);
}

#[test]
fn delete_twice_is_200_then_404() {
    let mut table = StoreTable::new();
    assert_eq!(create_store_with_id(&mut table, ID_VALUE, payload(Some("A"), None, None)).status, 201);
    assert_eq!(
        delete_store_by_id(&mut table, ID),
        Response {
            status: 200,
            body: Body::Notice(OkResponse {
                status: 200,
                message: "Store deleted successfully 1 rows affected".to_string(),
            }),
        }
    );
    assert_eq!(delete_store_by_id(&mut table, ID), not_found());
    assert_eq!(table.len(), 0);
}

#[test]
fn delete_removes_only_the_named_store() {
    let mut table = StoreTable::new();
    assert_eq!(create_store_with_id(&mut table, 1, payload(Some("A"), Some("B"), Some("C"))).status, 201);
    assert_eq!(create_store_with_id(&mut table, 2, payload(Some("A"), Some("B"), Some("C"))).status, 201);
    assert_eq!(delete_store(&mut table, Some(1)).status, 200);
    assert_eq!(get_all_stores(&table), Response { status: 200, body: Body::Stores(vec![abc(2)]) });
}

#[test]
fn list_of_empty_table_is_empty_array_with_200() {
    let table = StoreTable::new();
    assert_eq!(get_all_stores(&table), Response { status: 200, body: Body::Stores(vec![]) });
}

#[test]
fn list_returns_every_store() {
    let mut table = StoreTable::new();
    assert_eq!(create_store_with_id(&mut table, 1, payload(Some("A"), Some("B"), Some("C"))).status, 201);
    assert_eq!(create_store_with_id(&mut table, 2, payload(Some("A"), Some("B"), Some("C"))).status, 201);
    assert_eq!(
        get_all_stores(&table),
        Response { status: 200, body: Body::Stores(vec![abc(1), abc(2)]) }
    );
}

#[test]
fn post_acme_is_201_with_a_fresh_id() {
    let mut table = StoreTable::new();
    let first = create_store(&mut table, payload(Some("Acme"), Some("1 Main St"), None));
    assert_eq!(first.status, 201);
    let store = match first.body {
        Body::Store(store) => store,
        other => panic!("unexpected body {:?}", other),
    };
    assert_eq!(store.name, text("Acme"));
    assert_eq!(store.address, text("1 Main St"));
    assert_eq!(store.phone, None);
    assert_eq!(uuid::Uuid::from_u128(store.id).get_version_num(), 4);
    let second = create_store(&mut table, payload(Some("Acme"), Some("1 Main St"), None));
    match second.body {
        Body::Store(other) => assert_ne!(other.id, store.id),
        other => panic!("unexpected body {:?}", other),
    }
    assert_eq!(table.len(), 2);
}
