use arena_ffi::component::executable::BuildTool;
use arena_ffi::dependency::kafka::KafkaFlavor;
use arena_ffi::encounter::{
    build_tool_from_json, collect_container_readiness, collect_exec_readiness,
    encounter_container_name, encounter_kafka_flavor, encounter_plan, order_runtime_args,
    BuildToolJson, ComponentJson, ContainerJson, DependencyJson, EncounterComponentPlan,
    EncounterDependencyPlan, EncounterJson, ExecJson, KafkaJson, PortMappingJson, PostgresJson,
    ReadinessCheckJson,
};

fn pairs(v: &[(&str, &str)]) -> Vec<(String, String)> {
    v.iter().map(|(a, b)| (a.to_string(), b.to_string())).collect()
}

fn exec_json(id: &str) -> ExecJson {
    ExecJson {
        identifier: id.to_string(),
        executable_path: "./bin/app".to_string(),
        source_path: None,
        build_tool: None,
        env_vars: None,
        runtime_args: None,
        readiness_checks: None,
        readiness_check_url: None,
    }
}

#[test]
fn priority_runtime_args_come_first_in_fixed_order() {
    let args = pairs(&[
        ("zeta", "1"),
        ("kafka_bootstrap", "k:9092"),
        ("alpha", "2"),
        ("web_app_port", "8080"),
    ]);
    assert_eq!(
        order_runtime_args(&args),
        pairs(&[("web_app_port", "8080"), ("kafka_bootstrap", "k:9092"), ("zeta", "1"), ("alpha", "2")])
    );
    assert_eq!(order_runtime_args(&vec![]), vec![]);
}

#[test]
fn encounter_build_tool_names_fall_back_to_cargo() {
    assert!(matches!(build_tool_from_json(&BuildToolJson::Simple("gradle".to_string())), BuildTool::Gradle));
    assert!(matches!(build_tool_from_json(&BuildToolJson::Simple("python".to_string())), BuildTool::Cargo));
    assert!(matches!(build_tool_from_json(&BuildToolJson::Simple("whatever".to_string())), BuildTool::Cargo));
    match build_tool_from_json(&BuildToolJson::Custom { command: "just".to_string(), args: vec!["b".to_string()] }) {
        BuildTool::Custom { command, args } => {
            assert_eq!(command, "just");
            assert_eq!(args, vec!["b".to_string()]);
        }
        other => panic!("unexpected {:?}", other),
    }
}

#[test]
fn exec_readiness_uses_legacy_url_only_without_checks() {
    let mut json = exec_json("api");
    assert!(collect_exec_readiness(&json).is_empty());
    json.readiness_check_url = Some("http://x/health".to_string());
    let v = collect_exec_readiness(&json);
    assert!(matches!(&v[..], [ReadinessCheckJson::Http { target }] if target == "http://x/health"));
    json.readiness_checks = Some(vec![ReadinessCheckJson::Http { target: "http://y".to_string() }]);
    let v = collect_exec_readiness(&json);
    assert!(matches!(&v[..], [ReadinessCheckJson::Http { target }] if target == "http://y"));
    assert!(collect_container_readiness(&None).is_empty());
}

#[test]
fn encounter_names_and_flavors() {
    assert_eq!(encounter_container_name("arena-kafka-", "my bus", &None), "arena-kafka-my-bus");
    assert_eq!(encounter_container_name("arena-kafka-", "my bus", &Some("k".to_string())), "k");
    assert_eq!(encounter_kafka_flavor(&Some("confluent".to_string())), KafkaFlavor::Confluent);
    assert_eq!(encounter_kafka_flavor(&Some("other".to_string())), KafkaFlavor::ApacheNative);
    assert_eq!(encounter_kafka_flavor(&None), KafkaFlavor::ApacheNative);
}

#[test]
fn encounter_plan_fills_defaults() {
    let json = EncounterJson {
        network: None,
        encounter_name: None,
        dependencies: Some(vec![
            DependencyJson::Postgres(PostgresJson {
                identifier: "main db".to_string(),
                image_name: None,
                image: None,
                port: None,
                database_name: None,
                database_username: None,
                database_password: None,
                container_name: None,
                startup_sql_scripts: None,
            }),
            DependencyJson::Kafka(KafkaJson {
                identifier: "bus".to_string(),
                image_name: Some("apache/kafka".to_string()),
                flavor: Some("confluent".to_string()),
                port: Some(19092),
                container_name: None,
                topics: Some(vec!["orders".to_string()]),
            }),
        ]),
        components: None,
    };
    let plan = encounter_plan(&json);
    assert_eq!(plan.name, "arena-encounter");
    assert_eq!(plan.network, "arena-network");
    assert!(plan.components.is_empty());
    match &plan.dependencies[0] {
        EncounterDependencyPlan::Postgres(p) => {
            assert_eq!(p.identifier, "main db");
            assert_eq!(p.image, "14.20-trixie");
            assert_eq!(p.image_name, None);
            assert_eq!(p.port, 5432);
            assert_eq!(p.database_name, "arena_db");
            assert_eq!(p.database_username, "arena_user");
            assert_eq!(p.database_password, "postgres");
            assert_eq!(p.container_name, "arena-postgres-main-db");
            assert_eq!(p.network, "arena-network");
            assert!(p.startup_sql_scripts.is_empty());
        }
        other => panic!("unexpected {:?}", other),
    }
    match &plan.dependencies[1] {
        EncounterDependencyPlan::Kafka(k) => {
            assert_eq!(k.flavor, KafkaFlavor::Confluent);
            assert_eq!(k.port, 19092);
            assert_eq!(k.container_name, "arena-kafka-bus");
            assert_eq!(k.image_name.as_deref(), Some("apache/kafka"));
            assert_eq!(k.topics, vec!["orders".to_string()]);
        }
        other => panic!("unexpected {:?}", other),
    }
}

#[test]
fn encounter_components_keep_settings() {
    let mut exec = exec_json("api");
    exec.build_tool = Some(BuildToolJson::Simple("maven".to_string()));
    exec.runtime_args = Some(pairs(&[("x", "1"), ("postgres_connection_string", "pg://")]));
    exec.env_vars = Some(pairs(&[("A", "1")]));
    let container = ContainerJson {
        identifier: "web".to_string(),
        dockerfile: "Dockerfile".to_string(),
        build_context: Some(".".to_string()),
        image_tag: None,
        network: Some("n1".to_string()),
        env_vars: None,
        runtime_args: None,
        port_mappings: Some(vec![PortMappingJson { host_port: 8080, container_port: 80 }]),
        readiness_checks: Some(vec![ReadinessCheckJson::Http { target: "http://web".to_string() }]),
    };
    let json = EncounterJson {
        network: Some("custom-net".to_string()),
        encounter_name: Some("e1".to_string()),
        dependencies: None,
        components: Some(vec![ComponentJson::Exec(exec), ComponentJson::Container(container)]),
    };
    let plan = encounter_plan(&json);
    assert_eq!(plan.name, "e1");
    assert_eq!(plan.network, "custom-net");
    assert!(plan.dependencies.is_empty());
    match &plan.components[0] {
        EncounterComponentPlan::Exec(e) => {
            assert!(matches!(e.build_tool, Some(BuildTool::Maven)));
            assert_eq!(e.runtime_args, pairs(&[("postgres_connection_string", "pg://"), ("x", "1")]));
            assert_eq!(e.env_vars, pairs(&[("A", "1")]));
            assert!(e.readiness_checks.is_empty());
        }
        other => panic!("unexpected {:?}", other),
    }
    match &plan.components[1] {
        EncounterComponentPlan::Container(c) => {
            assert_eq!(c.network.as_deref(), Some("n1"));
            assert_eq!(c.port_mappings, vec![PortMappingJson { host_port: 8080, container_port: 80 }]);
            assert_eq!(c.readiness_checks.len(), 1);
            assert!(c.runtime_args.is_empty());
        }
        other => panic!("unexpected {:?}", other),
    }
}
