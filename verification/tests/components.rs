use arena_ffi::component::containerized::ContainerizedComponentConfig;
use arena_ffi::component::executable::{
    build, build_tool_config_debug_text, build_tool_from_config, readiness_checks_for,
    BuildTool, BuildToolConfig, ExecutableComponentConfig,
};
use arena_ffi::component::tree::{
    build_component, build_component_node, build_component_node_at_depth, ComponentConfig,
    ComponentNode, ComponentPlan, MAX_CHILDREN_DEPTH,
};
use arena_ffi::healthcheck::ReadinessCheckConfig;

fn exec(identifier: &str) -> ExecutableComponentConfig {
    ExecutableComponentConfig {
        identifier: identifier.to_string(),
        executable_path: "./run".to_string(),
        source_path: None,
        build_tool: None,
        env_vars: None,
        runtime_args: None,
        readiness_checks: None,
        readiness_check_url: None,
        cpu_profile_output: None,
        cpu_profile_auto_open: false,
        cpu_profile_hotspots: false,
    }
}

fn containerized(identifier: &str) -> ContainerizedComponentConfig {
    ContainerizedComponentConfig {
        identifier: identifier.to_string(),
        containerfile: "FROM alpine:3.20".to_string(),
        build_context: None,
        image_tag: None,
        network: None,
        env_vars: None,
        runtime_args: None,
        port_mappings: None,
        readiness_checks: None,
        host_mappings: None,
        volume_mappings: None,
    }
}

fn leaf(config: ComponentConfig) -> ComponentNode {
    ComponentNode { config, children: vec![] }
}

#[test]
fn known_build_tools_and_custom_commands() {
    let names = ["cargo", "maven", "gradle", "dotnet", "make", "cmake", "python"];
    for name in names {
        assert!(build_tool_from_config(&BuildToolConfig::Simple(name.to_string())).is_ok());
    }
    assert!(matches!(
        build_tool_from_config(&BuildToolConfig::Simple("cmake".to_string())).unwrap(),
        BuildTool::CMake
    ));
    let custom = BuildToolConfig::Custom { command: "bazel".to_string(), args: vec!["build".to_string()] };
    match build_tool_from_config(&custom).unwrap() {
        BuildTool::Custom { command, args } => {
            assert_eq!(command, "bazel");
            assert_eq!(args, vec!["build".to_string()]);
        }
        other => panic!("unexpected {:?}", other),
    }
    assert_eq!(
        build_tool_from_config(&BuildToolConfig::Simple("Cargo".to_string())).unwrap_err(),
        "unknown build_tool 'Cargo'"
    );
}

#[test]
fn debug_text_of_build_tool_config() {
    assert_eq!(
        build_tool_config_debug_text(&Some(BuildToolConfig::Simple("a\"b".to_string()))),
        "Some(Simple(\"a\\\"b\"))"
    );
    assert_eq!(build_tool_config_debug_text(&None), "None");
    assert_eq!(
        build_tool_config_debug_text(&Some(BuildToolConfig::Simple("make".to_string()))),
        "Some(Simple(\"make\"))"
    );
    assert_eq!(
        build_tool_config_debug_text(&Some(BuildToolConfig::Custom {
            command: "sh".to_string(),
            args: vec!["-c".to_string(), "x".to_string()],
        })),
        "Some(Custom { command: \"sh\", args: [\"-c\", \"x\"] })"
    );
}

#[test]
fn cpu_profiling_needs_a_supporting_tool() {
    let mut config = exec("api");
    config.cpu_profile_output = Some("out.svg".to_string());
    assert_eq!(
        build(&config).unwrap_err(),
        "api: cpu_profile_output requires build_tool to be one of cargo, maven, gradle, or python (got None)"
    );
    config.build_tool = Some(BuildToolConfig::Simple("make".to_string()));
    assert_eq!(
        build(&config).unwrap_err(),
        "api: cpu_profile_output requires build_tool to be one of cargo, maven, gradle, or python (got Some(Simple(\"make\")))"
    );
    config.build_tool = Some(BuildToolConfig::Simple("cargo".to_string()));
    config.cpu_profile_hotspots = true;
    let plan = build(&config).unwrap();
    let profile = plan.cpu_profile.unwrap();
    assert_eq!(profile.output, "out.svg");
    assert!(!profile.auto_open);
    assert!(profile.hotspots);
    assert!(matches!(plan.build_tool, Some(BuildTool::Cargo)));
}

#[test]
fn unknown_tool_is_reported_before_profiling() {
    let mut config = exec("api");
    config.cpu_profile_output = Some("out.svg".to_string());
    config.build_tool = Some(BuildToolConfig::Simple("ant".to_string()));
    assert_eq!(build(&config).unwrap_err(), "unknown build_tool 'ant'");
}

#[test]
fn legacy_readiness_url_applies_only_without_checks() {
    let mut config = exec("api");
    assert!(readiness_checks_for(&config).is_empty());
    config.readiness_check_url = Some("http://localhost:8080/health".to_string());
    let checks = readiness_checks_for(&config);
    assert_eq!(checks.len(), 1);
    assert!(matches!(&checks[0], ReadinessCheckConfig::Http { target, timeout_ms: 10_000 } if target == "http://localhost:8080/health"));
    config.readiness_checks = Some(vec![ReadinessCheckConfig::Tcp { target: "localhost:5432".to_string(), timeout_ms: 500 }]);
    let checks = readiness_checks_for(&config);
    assert_eq!(checks.len(), 1);
    assert!(matches!(&checks[0], ReadinessCheckConfig::Tcp { target, timeout_ms: 500 } if target == "localhost:5432"));
    config.readiness_checks = Some(vec![]);
    assert!(matches!(&readiness_checks_for(&config)[0], ReadinessCheckConfig::Http { .. }));
}

#[test]
fn component_kinds_plan() {
    assert!(matches!(build_component(&ComponentConfig::Containerized(containerized("web"))).unwrap(), ComponentPlan::Containerized));
    assert!(matches!(build_component(&ComponentConfig::Exec(exec("api"))).unwrap(), ComponentPlan::Exec(_)));
}

fn chain(levels: usize) -> ComponentNode {
    let mut node = leaf(ComponentConfig::Containerized(containerized("bottom")));
    for _ in 0..levels {
        node = ComponentNode { config: ComponentConfig::Containerized(containerized("mid")), children: vec![node] };
    }
    node
}

#[test]
fn tree_plan_mirrors_children() {
    let tree = ComponentNode {
        config: ComponentConfig::Exec(exec("root")),
        children: vec![
            leaf(ComponentConfig::Containerized(containerized("a"))),
            ComponentNode {
                config: ComponentConfig::Exec(exec("b")),
                children: vec![leaf(ComponentConfig::Exec(exec("c")))],
            },
        ],
    };
    let plan = build_component_node(&tree).unwrap();
    assert_eq!(plan.children.len(), 2);
    assert!(matches!(plan.children[0].component, ComponentPlan::Containerized));
    assert_eq!(plan.children[1].children.len(), 1);
}

#[test]
fn tree_depth_is_bounded() {
    assert_eq!(MAX_CHILDREN_DEPTH, 32);
    assert!(build_component_node(&chain(MAX_CHILDREN_DEPTH - 1)).is_ok());
    assert_eq!(
        build_component_node(&chain(MAX_CHILDREN_DEPTH)).unwrap_err(),
        "component children nesting exceeds max depth of 32"
    );
    assert!(build_component_node_at_depth(&chain(0), MAX_CHILDREN_DEPTH).is_err());
}

#[test]
fn first_refused_child_is_reported() {
    let mut bad = exec("bad");
    bad.build_tool = Some(BuildToolConfig::Simple("scons".to_string()));
    let mut worse = exec("worse");
    worse.build_tool = Some(BuildToolConfig::Simple("ant".to_string()));
    let tree = ComponentNode {
        config: ComponentConfig::Containerized(containerized("root")),
        children: vec![
            leaf(ComponentConfig::Exec(exec("fine"))),
            leaf(ComponentConfig::Exec(bad)),
            leaf(ComponentConfig::Exec(worse)),
        ],
    };
    assert_eq!(build_component_node(&tree).unwrap_err(), "unknown build_tool 'scons'");
}
