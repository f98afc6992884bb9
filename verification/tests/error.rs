use axum_playground::api::is_failure_status;
use axum_playground::config::models::{
    AppConfig, DatabaseConfig, EnvironmentType, LogExporter, LoggingConfig, ServerConfig,
};
use axum_playground::error::DemoError;
use axum_playground::services::simple::{SimpleService, SimpleServiceImpl};

#[test]
fn a_validation_failure_shows_its_message() {
    let error = DemoError::validation("User name cannot be empty");
    assert_eq!(422, error.status_code());
    assert_eq!("User name cannot be empty", error.client_message());
    assert_eq!("User name cannot be empty", error.message());
}

#[test]
fn a_missing_resource_is_not_found() {
    let error = DemoError::ResourceNotFound;
    assert_eq!(404, error.status_code());
    assert_eq!("Resource not found", error.client_message());
    assert_eq!("Resource not found", error.message());
}

#[test]
fn we_return_500_if_repository_returns_an_io_error_when_attempting_to_delete_a_user() {
    let error = DemoError::IO { cause: sqlx::Error::Protocol("Fake IO Error".to_owned()) };
    assert_eq!(500, error.status_code());
    assert_eq!("Internal server error", error.client_message());
    assert!(error.message().contains("Fake IO Error"));
}

#[test]
fn a_storage_error_becomes_an_io_error() {
    let error = DemoError::from(sqlx::Error::RowNotFound);
    assert!(matches!(&error, DemoError::IO { cause: sqlx::Error::RowNotFound }));
    assert_eq!(sqlx::Error::RowNotFound.to_string(), error.message());
    let other: DemoError = sqlx::Error::PoolClosed.into();
    assert!(matches!(other, DemoError::IO { cause: sqlx::Error::PoolClosed }));
}

#[test]
fn failures_start_at_400() {
    assert!(!is_failure_status(200));
    assert!(!is_failure_status(201));
    assert!(!is_failure_status(399));
    assert!(is_failure_status(400));
    assert!(is_failure_status(404));
    assert!(is_failure_status(422));
    assert!(is_failure_status(500));
}

#[test]
fn the_simple_service_greets() {
    assert_eq!("Hello dependency injection", SimpleServiceImpl.get());
}

#[test]
fn a_configuration_is_plain_data() {
    let config = AppConfig {
        environment_type: EnvironmentType::Development,
        database_config: DatabaseConfig {
            name: "users".to_owned(),
            address: "sqlite::memory:".to_owned(),
        },
        server_config: ServerConfig { address: "0.0.0.0:0".to_owned() },
    };
    let copy = config.clone();
    assert_eq!(EnvironmentType::Development, copy.environment_type);
    assert!(copy.environment_type != EnvironmentType::Production);
    assert_eq!("sqlite::memory:", copy.database_config.address);
    assert_eq!("0.0.0.0:0", copy.server_config.address);
    let logging = LoggingConfig {
        level: "info".to_owned(),
        exporter: Some(LogExporter { otel_api_key: "key".to_owned() }),
    };
    assert_eq!("key", logging.clone().exporter.unwrap().otel_api_key);
}

struct SimpleServiceMock;

impl SimpleService for SimpleServiceMock {
    fn get(&self) -> String {
        "Mocked from test".to_owned()
    }
}

#[test]
fn the_real_deal() {
    let services: Vec<Box<dyn SimpleService>> =
        vec![Box::new(SimpleServiceMock), Box::new(SimpleServiceImpl)];
    assert_eq!("Mocked from test", services[0].get());
    assert_eq!("Hello dependency injection", services[1].get());
}
