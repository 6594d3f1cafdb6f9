use landlock_runner::db::{DatabaseConfig, DatabaseConnection, DatabaseError, DatabaseManager};

fn test_config() -> DatabaseConfig {
    DatabaseConfig {
        host: "localhost".to_string(),
        port: 5432,
        username: "test_user".to_string(),
        password: "test_pass".to_string(),
        database: "test_db".to_string(),
    }
}

#[test]
fn test_database_connection() {
    let config = DatabaseConfig {
        host: "localhost".to_string(),
        port: 5432,
        username: "test_user".to_string(),
        password: "test_pass".to_string(),
        database: "test_db".to_string(),
    };

    let connection = DatabaseConnection::new(&config);
    assert!(connection.is_ok());
}

#[test]
fn test_query_execution() {
    let config = DatabaseConfig {
        host: "localhost".to_string(),
        port: 5432,
        username: "test_user".to_string(),
        password: "test_pass".to_string(),
        database: "test_db".to_string(),
    };

    let connection = DatabaseConnection::new(&config).unwrap();
    let result = connection.execute_query("SELECT * FROM users", &[]);
    assert!(result.is_ok());
}

#[test]
fn connection_fails_on_empty_host() {
    let mut config = test_config();
    config.host = String::new();
    match DatabaseConnection::new(&config) {
        Err(DatabaseError::ConnectionFailed(m)) => {
            assert_eq!(m, "Failed to establish connection")
        },
        _ => panic!("connection with an empty host must fail"),
    }
}

#[test]
fn connection_fails_on_zero_port() {
    let mut config = test_config();
    config.port = 0;
    assert!(DatabaseConnection::new(&config).is_err());
}

#[test]
fn fresh_connections_are_active() {
    let connection = DatabaseConnection::new(&test_config()).unwrap();
    assert!(connection.is_active);
}

#[test]
fn fresh_connection_ids_carry_the_prefix() {
    let a = DatabaseConnection::new(&test_config()).unwrap();
    let b = DatabaseConnection::new(&test_config()).unwrap();
    assert!(a.id.starts_with("conn_"));
    assert!(b.id.starts_with("conn_"));
    assert_ne!(a.id, b.id);
}

#[test]
fn query_results_echo_query_and_parameter_count() {
    let connection = DatabaseConnection::new(&test_config()).unwrap();
    let records = connection.execute_query("SELECT 1", &["a", "b"]).unwrap();
    assert_eq!(records.len(), 1);
    assert_eq!(records[0].id, 1);
    assert_eq!(records[0].data[0], ("query".to_string(), "SELECT 1".to_string()));
    assert_eq!(records[0].data[1], ("params_count".to_string(), "2".to_string()));
}

#[test]
fn parameter_counts_format_in_decimal() {
    let connection = DatabaseConnection::new(&test_config()).unwrap();
    let params: Vec<&str> = vec!["x"; 12];
    let records = connection.execute_query("SELECT 1", &params).unwrap();
    assert_eq!(records[0].data[1], ("params_count".to_string(), "12".to_string()));
    let records = connection.execute_query("SELECT 1", &[]).unwrap();
    assert_eq!(records[0].data[1], ("params_count".to_string(), "0".to_string()));
}

#[test]
fn empty_query_fails() {
    let connection = DatabaseConnection::new(&test_config()).unwrap();
    match connection.execute_query("", &[]) {
        Err(DatabaseError::QueryFailed(m)) => assert_eq!(m, "Empty query"),
        _ => panic!("empty query must fail"),
    }
}

#[test]
fn empty_table_name_is_invalid() {
    let connection = DatabaseConnection::new(&test_config()).unwrap();
    match connection.insert_record("", Vec::new()) {
        Err(DatabaseError::InvalidData(m)) => assert_eq!(m, "Empty table name"),
        _ => panic!("empty table name must fail"),
    }
}

#[test]
fn update_and_delete_validate_table_and_id() {
    let connection = DatabaseConnection::new(&test_config()).unwrap();
    assert!(matches!(
        connection.update_record("users", 0, Vec::new()),
        Err(DatabaseError::InvalidData(_))
    ));
    assert!(matches!(
        connection.update_record("", 7, Vec::new()),
        Err(DatabaseError::InvalidData(_))
    ));
    assert_eq!(connection.update_record("users", 7, Vec::new()).unwrap(), true);
    assert!(matches!(connection.delete_record("users", 0), Err(DatabaseError::InvalidData(_))));
    assert_eq!(connection.delete_record("users", 7).unwrap(), true);
}

#[test]
fn manager_requires_a_pooled_connection() {
    let manager = DatabaseManager::new(test_config());
    match manager.execute_query("SELECT 1", &[]) {
        Err(DatabaseError::ConnectionFailed(m)) => assert_eq!(m, "No available connections"),
        _ => panic!("a fresh pool has no connections"),
    }
}

#[test]
fn manager_pools_connections_up_to_capacity() {
    let mut manager = DatabaseManager::new(test_config());
    for _ in 0..10 {
        assert!(manager.connect().is_ok());
    }
    match manager.connect() {
        Err(DatabaseError::ConnectionFailed(m)) => assert_eq!(m, "Maximum connections reached"),
        _ => panic!("the pool is bounded"),
    }
}

#[test]
fn manager_delegates_to_a_pooled_connection() {
    let mut manager = DatabaseManager::new(test_config());
    manager.connect().unwrap();
    assert!(manager.execute_query("SELECT * FROM users", &[]).is_ok());
    assert!(manager.insert_record("users", Vec::new()).is_ok());
    assert_eq!(manager.update_record("users", 3, Vec::new()).unwrap(), true);
    assert_eq!(manager.delete_record("users", 3).unwrap(), true);
}

#[test]
fn error_messages_carry_their_prefix() {
    let e = DatabaseError::ConnectionFailed("down".to_string());
    assert_eq!(e.message(), "Connection failed: down");
    let e = DatabaseError::QueryFailed("bad".to_string());
    assert_eq!(e.message(), "Query failed: bad");
    let e = DatabaseError::InvalidData("odd".to_string());
    assert_eq!(e.message(), "Invalid data: odd");
    let e = DatabaseError::NotFound("gone".to_string());
    assert_eq!(e.message(), "Not found: gone");
}
