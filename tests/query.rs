use customer_service::error::ErrorKind;
use customer_service::query::{check_id, get_query, list_query, render, QuerySpec, WarehouseConfig};

fn config() -> WarehouseConfig {
    WarehouseConfig::new("my-project".to_string(), "test_tokyo".to_string(), "customers".to_string())
        .unwrap()
}

#[test]
fn list_query_orders_by_id_and_caps_at_one_thousand() {
    assert_eq!(
        list_query(&config()),
        "SELECT * FROM `my-project.test_tokyo.customers` ORDER BY customer_id ASC LIMIT 1000"
    );
}

#[test]
fn get_query_for_numeric_id() {
    assert_eq!(
        get_query(&config(), &"999".to_string()).unwrap(),
        "SELECT * FROM `my-project.test_tokyo.customers` WHERE customer_id = 999 LIMIT 1"
    );
}

#[test]
fn get_query_rejects_injection() {
    let e = get_query(&config(), &"1 OR 1=1".to_string()).unwrap_err();
    assert_eq!(e.kind, ErrorKind::Validation);
}

#[test]
fn get_query_rejects_empty_id() {
    assert_eq!(get_query(&config(), &String::new()).unwrap_err().kind, ErrorKind::Validation);
}

#[test]
fn check_id_bounds() {
    assert!(check_id(&"0".to_string()));
    assert!(check_id(&"1".repeat(64)));
    assert!(!check_id(&"1".repeat(65)));
    assert!(!check_id(&"12a".to_string()));
    assert!(!check_id(&"-1".to_string()));
}

#[test]
fn render_both_specs() {
    let cfg = config();
    assert_eq!(render(&cfg, &QuerySpec::ListAll).unwrap(), list_query(&cfg));
    assert_eq!(
        render(&cfg, &QuerySpec::GetById("42".to_string())).unwrap(),
        "SELECT * FROM `my-project.test_tokyo.customers` WHERE customer_id = 42 LIMIT 1"
    );
    assert_eq!(
        render(&cfg, &QuerySpec::GetById("x".to_string())).unwrap_err().kind,
        ErrorKind::Validation
    );
}

#[test]
fn config_rejects_empty_or_quoted_parts() {
    let e = WarehouseConfig::new(String::new(), "d".to_string(), "t".to_string()).unwrap_err();
    assert_eq!(e.kind, ErrorKind::Validation);
    assert!(WarehouseConfig::new("p".to_string(), "d`x".to_string(), "t".to_string()).is_err());
    assert!(WarehouseConfig::new("p".to_string(), "d".to_string(), String::new()).is_err());
}

#[test]
fn config_keeps_its_parts() {
    let cfg = config();
    assert_eq!(cfg.project_id, "my-project");
    assert_eq!(cfg.dataset, "test_tokyo");
    assert_eq!(cfg.table, "customers");
}
