use wasmrs::{OperationList, OperationType};
use wasmrs_wasmtime::operations::{get_export, get_import, get_operation_list, OpListError};

fn sample() -> OperationList {
    let mut list = OperationList::default();
    list.add_export(0, OperationType::RequestResponse, "suite.test", "test");
    list.add_export(1, OperationType::RequestResponse, "suite.test", "echo");
    list.add_export(0, OperationType::RequestStream, "suite.test", "chars");
    list.add_export(7, OperationType::RequestResponse, "suite.test", "echo");
    list.add_import(3, OperationType::RequestResponse, "host", "log");
    list
}

#[test]
fn export_lookup_finds_index() {
    let list = sample();
    assert_eq!(get_export(&list, "suite.test", "echo").unwrap(), 1);
    assert_eq!(get_export(&list, "suite.test", "chars").unwrap(), 0);
}

#[test]
fn export_lookup_missing_names_operation() {
    let list = sample();
    match get_export(&list, "suite.test", "nope") {
        Err(OpListError::OpMissing { namespace, operation }) => {
            assert_eq!(namespace, "suite.test");
            assert_eq!(operation, "nope");
        }
        Ok(i) => panic!("unexpected index {}", i),
    }
}

#[test]
fn export_lookup_does_not_see_imports() {
    let list = sample();
    assert!(get_export(&list, "host", "log").is_err());
    assert_eq!(get_import(&list, "host", "log").unwrap(), 3);
    assert!(get_import(&list, "suite.test", "echo").is_err());
}

#[test]
fn copied_list_answers_alike() {
    let list = sample();
    let copy = get_operation_list(&list);
    assert_eq!(get_export(&copy, "suite.test", "echo").unwrap(), 1);
    assert_eq!(get_import(&copy, "host", "log").unwrap(), 3);
    assert_eq!(copy.get_exports(), list.get_exports());
}

#[test]
fn echo_export_of_test_component() {
    let mut guest = OperationList::default();
    guest.add_export(0, OperationType::RequestResponse, "suite.test", "test");
    guest.add_export(1, OperationType::RequestResponse, "suite.test", "echo");
    guest.add_export(0, OperationType::RequestStream, "suite.test", "chars");
    guest.add_export(0, OperationType::RequestChannel, "suite.test", "reverse");
    guest.add_export(1, OperationType::RequestChannel, "suite.test", "wrap");
    let host = OperationList::decode(guest.encode()).unwrap();
    assert_eq!(get_export(&host, "suite.test", "echo").unwrap(), 1);
    assert_eq!(get_export(&host, "suite.test", "wrap").unwrap(), 1);
    assert!(get_import(&host, "suite.test", "echo").is_err());
}
