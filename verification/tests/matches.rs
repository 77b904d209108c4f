use arena_ffi::component::containerized::ContainerizedComponentConfig;
use arena_ffi::component::executable::{BuildToolConfig, ExecutableComponentConfig};
use arena_ffi::component::tree::{ComponentConfig, ComponentNode};
use arena_ffi::dependency::http::HttpDependencyConfig;
use arena_ffi::dependency::kafka::{KafkaDependencyConfig, KafkaFlavor};
use arena_ffi::dependency::localstack::{LambdaSpecConfig, LocalstackDependencyConfig};
use arena_ffi::dependency::oracle::OracleDependencyConfig;
use arena_ffi::dependency::postgres::PostgresDependencyConfig;
use arena_ffi::dependency::smtp::{SmtpDependencyConfig, SmtpTls};
use arena_ffi::dependency::tree::{
    build_dependency, build_dependency_node, build_dependency_node_at_depth, DependencyConfig,
    DependencyNode, DependencyPlan, RuntimeDependencyConfig,
};
use arena_ffi::managed_playbook::{
    DependencyPlaybookConfig, HttpPlaybookConfig, ManagedPlaybookConfig, PlaybookKind, PlaybookKindConfig,
};
use arena_ffi::matches::{build_components, build_dependencies, plan_match, MatchConfig};

fn postgres(id: &str) -> DependencyConfig {
    DependencyConfig::Postgres(PostgresDependencyConfig {
        identifier: id.to_string(),
        expiry_seconds: None,
        image_name: None,
        image: None,
        port: None,
        database_name: None,
        database_username: None,
        database_password: None,
        container_name: None,
        startup_sql_scripts: None,
    })
}

fn kafka(flavor: Option<&str>) -> DependencyConfig {
    DependencyConfig::Kafka(KafkaDependencyConfig {
        identifier: "bus".to_string(),
        expiry_seconds: None,
        image_name: None,
        flavor: flavor.map(|f| f.to_string()),
        port: None,
        container_name: None,
        topics: None,
    })
}

fn smtp(mode: Option<&str>) -> DependencyConfig {
    DependencyConfig::Smtp(SmtpDependencyConfig {
        identifier: "mail".to_string(),
        image_name: None,
        image: None,
        port: None,
        ui_port: None,
        container_name: None,
        tls_mode: mode.map(|m| m.to_string()),
    })
}

fn localstack(source_dir: &str) -> DependencyConfig {
    DependencyConfig::Localstack(LocalstackDependencyConfig {
        identifier: "aws".to_string(),
        port: None,
        image_name: None,
        image_tag: None,
        container_name: None,
        services: None,
        queues: None,
        lambdas: Some(vec![LambdaSpecConfig {
            name: "fn1".to_string(),
            runtime: "python3.12".to_string(),
            handler: "h.main".to_string(),
            source_dir: source_dir.to_string(),
            environment: None,
        }]),
        event_buses: None,
        event_rules: None,
    })
}

fn leaf(config: DependencyConfig) -> DependencyNode {
    DependencyNode { config, children: vec![] }
}

fn exec(id: &str) -> ExecutableComponentConfig {
    ExecutableComponentConfig {
        identifier: id.to_string(),
        executable_path: "./run".to_string(),
        source_path: None,
        build_tool: None,
        env_vars: None,
        runtime_args: None,
        readiness_checks: None,
        readiness_check_url: None,
        cpu_profile_output: None,
        cpu_profile_auto_open: false,
        cpu_profile_hotspots: false,
    }
}

fn empty_match() -> MatchConfig {
    MatchConfig { network: None, match_name: None, dependencies: None, components: None, playbooks: None }
}

#[test]
fn each_dependency_kind_plans() {
    assert!(matches!(build_dependency(&postgres("pg"), Some("net")).unwrap(), DependencyPlan::Postgres(p) if p.network.as_deref() == Some("net")));
    assert!(matches!(build_dependency(&kafka(Some("confluent")), None).unwrap(), DependencyPlan::Kafka(s) if s.flavor == KafkaFlavor::Confluent && s.port == 9092));
    assert!(matches!(build_dependency(&smtp(Some("implicit")), None).unwrap(), DependencyPlan::Smtp(SmtpTls::Implicit)));
    let http = DependencyConfig::Http(HttpDependencyConfig {
        identifier: "my api".to_string(),
        image_name: None,
        image_tag: None,
        port: None,
        container_name: None,
    });
    assert!(matches!(build_dependency(&http, None).unwrap(), DependencyPlan::Http { container_name, port: 0 } if container_name == "arena-http-my-api"));
    let oracle = DependencyConfig::Oracle(OracleDependencyConfig {
        identifier: "ora".to_string(),
        image_name: None,
        image: None,
        port: None,
        database_name: None,
        database_username: None,
        database_password: None,
        admin_password: None,
        container_name: None,
        startup_sql_scripts: None,
    });
    assert!(matches!(build_dependency(&oracle, None).unwrap(), DependencyPlan::Oracle));
    assert!(matches!(build_dependency(&localstack("/"), None).unwrap(), DependencyPlan::Localstack));
    assert_eq!(
        build_dependency(&localstack("/no/such/arena/dir"), None).unwrap_err(),
        "localstack lambda 'fn1': source_dir '/no/such/arena/dir' does not exist or is not a directory"
    );
}

#[test]
fn dependency_tree_reports_first_error_depth_first() {
    let tree = DependencyNode {
        config: postgres("root"),
        children: vec![
            DependencyNode { config: kafka(None), children: vec![leaf(smtp(Some("tls13")))] },
            leaf(kafka(Some("redpanda"))),
        ],
    };
    assert_eq!(build_dependency_node(&tree, None).unwrap_err(), "unknown smtp tls_mode: tls13");
    let ok = DependencyNode { config: postgres("root"), children: vec![leaf(kafka(None)), leaf(smtp(None))] };
    let plan = build_dependency_node(&ok, Some("n")).unwrap();
    assert_eq!(plan.children.len(), 2);
    assert!(matches!(plan.children[1].dependency, DependencyPlan::Smtp(SmtpTls::Default)));
}

#[test]
fn dependency_tree_depth_is_bounded() {
    let mut node = leaf(postgres("bottom"));
    for _ in 0..31 {
        node = DependencyNode { config: postgres("mid"), children: vec![node] };
    }
    assert!(build_dependency_node(&node, None).is_ok());
    let deeper = DependencyNode { config: postgres("top"), children: vec![node] };
    assert_eq!(
        build_dependency_node(&deeper, None).unwrap_err(),
        "dependency children nesting exceeds max depth of 32"
    );
    assert!(build_dependency_node_at_depth(&leaf(postgres("x")), None, 32).is_err());
}

#[test]
fn match_plan_uses_default_name_and_network() {
    let mut config = empty_match();
    let plan = plan_match(&config).unwrap();
    assert_eq!(plan.name, "arena-match");
    assert!(plan.dependencies.is_empty());
    assert!(plan.components.is_empty());
    config.match_name = Some("m1".to_string());
    config.network = Some("net1".to_string());
    config.dependencies = Some(vec![leaf(postgres("pg"))]);
    config.components = Some(vec![ComponentNode {
        config: ComponentConfig::Containerized(ContainerizedComponentConfig {
            identifier: "web".to_string(),
            containerfile: "FROM alpine".to_string(),
            build_context: None,
            image_tag: None,
            network: None,
            env_vars: None,
            runtime_args: None,
            port_mappings: None,
            readiness_checks: None,
            host_mappings: None,
            volume_mappings: None,
        }),
        children: vec![],
    }]);
    let plan = plan_match(&config).unwrap();
    assert_eq!(plan.name, "m1");
    assert!(matches!(&plan.dependencies[0].dependency, DependencyPlan::Postgres(p) if p.network.as_deref() == Some("net1")));
    assert_eq!(plan.components.len(), 1);
}

#[test]
fn dependencies_are_refused_before_components() {
    let mut config = empty_match();
    let mut bad_exec = exec("api");
    bad_exec.build_tool = Some(BuildToolConfig::Simple("ant".to_string()));
    config.components = Some(vec![ComponentNode { config: ComponentConfig::Exec(bad_exec), children: vec![] }]);
    assert_eq!(build_components(&config).unwrap_err(), "unknown build_tool 'ant'");
    assert_eq!(plan_match(&config).unwrap_err(), "unknown build_tool 'ant'");
    config.dependencies = Some(vec![leaf(postgres("a")), leaf(kafka(Some("x")))]);
    assert_eq!(build_dependencies(&config, None).unwrap_err(), "unknown kafka flavor 'x'");
    assert_eq!(plan_match(&config).unwrap_err(), "unknown kafka flavor 'x'");
}

#[test]
fn dependency_tree_missing_lambda_source_comes_first_in_pre_order() {
    let tree = DependencyNode {
        config: postgres("root"),
        children: vec![leaf(localstack("/no/such/lambda/source")), leaf(kafka(Some("x")))],
    };
    assert_eq!(
        build_dependency_node(&tree, None).unwrap_err(),
        "localstack lambda 'fn1': source_dir '/no/such/lambda/source' does not exist or is not a directory"
    );
    let later = DependencyNode {
        config: postgres("root"),
        children: vec![leaf(kafka(Some("x"))), leaf(localstack("/no/such/lambda/source"))],
    };
    assert_eq!(build_dependency_node(&later, None).unwrap_err(), "unknown kafka flavor 'x'");
}

#[test]
fn match_plan_registers_playbooks_in_order() {
    let mut config = empty_match();
    config.playbooks = Some(vec![
        ManagedPlaybookConfig {
            identifier: "seed".to_string(),
            exec_on_dependency_start: true,
            kind: PlaybookKindConfig::Postgres(DependencyPlaybookConfig { dependency_identifier: "pg".to_string() }),
        },
        ManagedPlaybookConfig {
            identifier: "stubs".to_string(),
            exec_on_dependency_start: false,
            kind: PlaybookKindConfig::Http(HttpPlaybookConfig {
                dependency_identifier: "api".to_string(),
                mappings: vec![],
            }),
        },
    ]);
    let plan = plan_match(&config).unwrap();
    assert_eq!(plan.playbooks.len(), 2);
    assert_eq!(plan.playbooks[0].identifier, "seed");
    assert_eq!(plan.playbooks[0].dependency_identifier, "pg");
    assert_eq!(plan.playbooks[0].kind, PlaybookKind::Postgres);
    assert!(plan.playbooks[0].exec_on_dependency_start);
    assert_eq!(plan.playbooks[1].identifier, "stubs");
    assert_eq!(plan.playbooks[1].kind, PlaybookKind::Http);
    assert!(!plan.playbooks[1].exec_on_dependency_start);
    assert!(plan_match(&empty_match()).unwrap().playbooks.is_empty());
}

#[test]
fn runtime_built_dependencies_pass_their_settings_on() {
    let settings = "{\"identifier\":\"db\"}".to_string();
    let mssql = DependencyConfig::Mssql(RuntimeDependencyConfig { settings_json: settings.clone() });
    assert!(matches!(build_dependency(&mssql, None).unwrap(), DependencyPlan::Mssql(s) if s == settings));
    let oauth = DependencyConfig::Oauth(RuntimeDependencyConfig { settings_json: settings.clone() });
    assert!(matches!(build_dependency(&oauth, None).unwrap(), DependencyPlan::Oauth(s) if s == settings));
    let temporal = DependencyConfig::Temporal(RuntimeDependencyConfig { settings_json: settings.clone() });
    let tree = DependencyNode { config: temporal, children: vec![leaf(kafka(Some("x")))] };
    assert_eq!(build_dependency_node(&tree, None).unwrap_err(), "unknown kafka flavor 'x'");
}
