use arena_ffi::dependency::http::{http_container_name, http_port, HttpDependencyConfig};
use arena_ffi::dependency::kafka::{kafka_settings, KafkaDependencyConfig, KafkaFlavor};
use arena_ffi::dependency::localstack::{check_lambda_sources, lambda_sources_outcome, LambdaSpecConfig, LocalstackDependencyConfig};
use arena_ffi::dependency::postgres::{build, PostgresDependencyConfig};
use arena_ffi::dependency::smtp::{smtp_tls_mode, SmtpDependencyConfig, SmtpTls};
use arena_ffi::expiry::{expiry_override, ExpiryOverride};

fn minimal_postgres_config() -> PostgresDependencyConfig {
    PostgresDependencyConfig {
        identifier: "pg".to_string(),
        expiry_seconds: None,
        image_name: None,
        image: None,
        port: None,
        database_name: None,
        database_username: None,
        database_password: None,
        container_name: None,
        startup_sql_scripts: None,
    }
}

#[test]
fn build_minimal_config_returns_dependency() {
    assert!(build(&minimal_postgres_config(), None).is_ok());
}

#[test]
fn build_image_overrides_apply() {
    let mut config = minimal_postgres_config();
    config.image = Some("17".to_string());
    config.image_name = Some("postgres".to_string());
    config.container_name = Some("pg-box".to_string());
    assert!(build(&config, Some("arena-net")).is_ok());
}

#[test]
fn postgres_defaults_fill_unset_settings() {
    let plan = build(&minimal_postgres_config(), None).unwrap();
    assert_eq!(plan.identifier, "pg");
    assert_eq!(plan.port, 5432);
    assert_eq!(plan.database_name, "arena_db");
    assert_eq!(plan.database_username, "arena_user");
    assert_eq!(plan.database_password, "postgres");
    assert!(plan.startup_sql_scripts.is_empty());
    assert_eq!(plan.network, None);
    assert_eq!(plan.expiry, None);
}

#[test]
fn postgres_given_settings_are_kept() {
    let mut config = minimal_postgres_config();
    config.image = Some("17".to_string());
    config.image_name = Some("postgres".to_string());
    config.container_name = Some("pg-box".to_string());
    config.port = Some(6543);
    config.database_name = Some("orders".to_string());
    config.database_username = Some("svc".to_string());
    config.database_password = Some("secret".to_string());
    config.startup_sql_scripts = Some(vec!["a.sql".to_string(), "b.sql".to_string()]);
    config.expiry_seconds = Some(0);
    let plan = build(&config, Some("arena-net")).unwrap();
    assert_eq!(plan.image.as_deref(), Some("17"));
    assert_eq!(plan.image_name.as_deref(), Some("postgres"));
    assert_eq!(plan.container_name.as_deref(), Some("pg-box"));
    assert_eq!(plan.port, 6543);
    assert_eq!(plan.database_name, "orders");
    assert_eq!(plan.database_username, "svc");
    assert_eq!(plan.database_password, "secret");
    assert_eq!(plan.startup_sql_scripts, vec!["a.sql".to_string(), "b.sql".to_string()]);
    assert_eq!(plan.network.as_deref(), Some("arena-net"));
    assert_eq!(plan.expiry, Some(ExpiryOverride::Disabled));
}

#[test]
fn expiry_zero_disables_and_positive_sets_seconds() {
    assert_eq!(expiry_override(None), None);
    assert_eq!(expiry_override(Some(0)), Some(ExpiryOverride::Disabled));
    assert_eq!(expiry_override(Some(90)), Some(ExpiryOverride::After(90)));
}

fn smtp(mode: Option<&str>) -> SmtpDependencyConfig {
    SmtpDependencyConfig {
        identifier: "mail".to_string(),
        image_name: None,
        image: None,
        port: None,
        ui_port: None,
        container_name: None,
        tls_mode: mode.map(|m| m.to_string()),
    }
}

#[test]
fn smtp_tls_modes() {
    assert_eq!(smtp_tls_mode(&smtp(None)).unwrap(), SmtpTls::Default);
    assert_eq!(smtp_tls_mode(&smtp(Some("starttls"))).unwrap(), SmtpTls::StartTls);
    assert_eq!(smtp_tls_mode(&smtp(Some("implicit"))).unwrap(), SmtpTls::Implicit);
    assert_eq!(
        smtp_tls_mode(&smtp(Some("STARTTLS"))).unwrap_err(),
        "unknown smtp tls_mode: STARTTLS"
    );
}

fn kafka(flavor: Option<&str>, port: Option<u16>, expiry: Option<u64>) -> KafkaDependencyConfig {
    KafkaDependencyConfig {
        identifier: "bus".to_string(),
        expiry_seconds: expiry,
        image_name: None,
        flavor: flavor.map(|f| f.to_string()),
        port,
        container_name: None,
        topics: None,
    }
}

#[test]
fn kafka_flavor_port_and_expiry() {
    let s = kafka_settings(&kafka(None, None, None)).unwrap();
    assert_eq!(s.flavor, KafkaFlavor::ApacheNative);
    assert_eq!(s.port, 9092);
    assert_eq!(s.expiry, None);
    let s = kafka_settings(&kafka(Some("confluent"), Some(19092), Some(30))).unwrap();
    assert_eq!(s.flavor, KafkaFlavor::Confluent);
    assert_eq!(s.port, 19092);
    assert_eq!(s.expiry, Some(ExpiryOverride::After(30)));
    assert_eq!(
        kafka_settings(&kafka(Some("apache_native"), None, None)).unwrap().flavor,
        KafkaFlavor::ApacheNative
    );
    assert_eq!(
        kafka_settings(&kafka(Some("redpanda"), None, None)).unwrap_err(),
        "unknown kafka flavor 'redpanda'"
    );
}

#[test]
fn http_dependency_container_name_and_port() {
    let mut config = HttpDependencyConfig {
        identifier: "payments api".to_string(),
        image_name: None,
        image_tag: None,
        port: None,
        container_name: None,
    };
    assert_eq!(http_container_name(&config), "arena-http-payments-api");
    assert_eq!(http_port(&config), 0);
    config.container_name = Some("stub".to_string());
    config.port = Some(8089);
    assert_eq!(http_container_name(&config), "stub");
    assert_eq!(http_port(&config), 8089);
}

fn localstack_with(source_dir: &str) -> LocalstackDependencyConfig {
    LocalstackDependencyConfig {
        identifier: "aws".to_string(),
        port: None,
        image_name: None,
        image_tag: None,
        container_name: None,
        services: None,
        queues: None,
        lambdas: Some(vec![LambdaSpecConfig {
            name: "fn1".to_string(),
            runtime: "python3.12".to_string(),
            handler: "h.main".to_string(),
            source_dir: source_dir.to_string(),
            environment: None,
        }]),
        event_buses: None,
        event_rules: None,
    }
}

#[test]
fn localstack_lambda_source_dir_must_exist() {
    assert!(check_lambda_sources(&localstack_with("/")).is_ok());
    let missing = "/definitely/not/a/dir/for/arena";
    assert_eq!(
        check_lambda_sources(&localstack_with(missing)).unwrap_err(),
        "localstack lambda 'fn1': source_dir '/definitely/not/a/dir/for/arena' does not exist or is not a directory"
    );
}

#[test]
fn localstack_first_missing_source_is_reported() {
    let mut config = localstack_with("/src/one");
    config.lambdas.as_mut().unwrap().push(LambdaSpecConfig {
        name: "fn2".to_string(),
        runtime: "nodejs20.x".to_string(),
        handler: "index.handler".to_string(),
        source_dir: "/src/two".to_string(),
        environment: None,
    });
    assert!(lambda_sources_outcome(&config, &vec![true, true]).is_ok());
    assert_eq!(
        lambda_sources_outcome(&config, &vec![true, false]).unwrap_err(),
        "localstack lambda 'fn2': source_dir '/src/two' does not exist or is not a directory"
    );
    assert_eq!(
        lambda_sources_outcome(&config, &vec![false, false]).unwrap_err(),
        "localstack lambda 'fn1': source_dir '/src/one' does not exist or is not a directory"
    );
}
