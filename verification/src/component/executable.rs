//! Executable components: the build tool, CPU profiling and readiness
//! checks that a configuration asks for, validated.
use vstd::prelude::*;
use vstd::string::*;

use crate::healthcheck::{default_timeout_ms, ReadinessCheckConfig};
use crate::text::{join, str_eq, string_of};

verus! {

/// A build tool as configured: a known tool's name, or a custom command.
#[derive(Debug)]
pub enum BuildToolConfig {
    Simple(String),
    Custom { command: String, args: Vec<String> },
}

/// The build tool that builds a component before it starts.
#[derive(Debug)]
pub enum BuildTool {
    Cargo,
    Maven,
    Gradle,
    Dotnet,
    Make,
    CMake,
    Python,
    Custom { command: String, args: Vec<String> },
}

/// One `--name value` argument handed to a component.
#[derive(Debug)]
pub struct RuntimeArgConfig {
    pub name: String,
    pub value: String,
}

/// An executable component as configured. Environment variables are
/// name/value pairs in the order the client's map yielded them.
#[derive(Debug)]
pub struct ExecutableComponentConfig {
    pub identifier: String,
    pub executable_path: String,
    pub source_path: Option<String>,
    pub build_tool: Option<BuildToolConfig>,
    pub env_vars: Option<Vec<(String, String)>>,
    pub runtime_args: Option<Vec<RuntimeArgConfig>>,
    pub readiness_checks: Option<Vec<ReadinessCheckConfig>>,
    pub readiness_check_url: Option<String>,
    pub cpu_profile_output: Option<String>,
    pub cpu_profile_auto_open: bool,
    pub cpu_profile_hotspots: bool,
}

/// CPU profiling of a component.
#[derive(Debug)]
pub struct CpuProfilePlan {
    pub output: String,
    pub auto_open: bool,
    pub hotspots: bool,
}

/// What building a component involves beyond its identifier, paths,
/// environment and arguments: its build tool, its profiling, and its
/// readiness checks in order.
#[derive(Debug)]
pub struct ExecutableComponentPlan {
    pub build_tool: Option<BuildTool>,
    pub cpu_profile: Option<CpuProfilePlan>,
    pub readiness_checks: Vec<ReadinessCheckConfig>,
}

/// The known tool that a name selects.
pub open spec fn simple_build_tool(name: Seq<char>) -> Option<BuildTool> {
    if name == "cargo"@ {
        Some(BuildTool::Cargo)
    } else if name == "maven"@ {
        Some(BuildTool::Maven)
    } else if name == "gradle"@ {
        Some(BuildTool::Gradle)
    } else if name == "dotnet"@ {
        Some(BuildTool::Dotnet)
    } else if name == "make"@ {
        Some(BuildTool::Make)
    } else if name == "cmake"@ {
        Some(BuildTool::CMake)
    } else if name == "python"@ {
        Some(BuildTool::Python)
    } else {
        None
    }
}

/// Where a tool name selects no known tool.
pub open spec fn unknown_tool_message(name: Seq<char>) -> Seq<char> {
    "unknown build_tool '"@ + name + "'"@
}

/// Whether `tool` is what `spec` selects.
pub open spec fn build_tool_matches(tool: BuildTool, spec: BuildToolConfig) -> bool {
    match spec {
        BuildToolConfig::Simple(name) => simple_build_tool(name@) == Some(tool),
        BuildToolConfig::Custom { command, args } => match tool {
            BuildTool::Custom { command: c, args: a } => c == command && a@ == args@,
            _ => false,
        },
    }
}

/// Whether a configured tool is accepted.
pub open spec fn build_tool_accepted(spec: BuildToolConfig) -> bool {
    match spec {
        BuildToolConfig::Simple(name) => simple_build_tool(name@) is Some,
        BuildToolConfig::Custom { .. } => true,
    }
}

/// Tools under which CPU profiling is available.
pub open spec fn profiling_supported(tool: BuildTool) -> bool {
    tool is Cargo || tool is Maven || tool is Gradle || tool is Python
}

/// `Debug` text of a string (quoted, with escapes), as `format!("{:?}")` gives it.
pub uninterp spec fn debug_quoted(s: Seq<char>) -> Seq<char>;

/// `Debug` text of `s` through `format!("{:?}")`. Claims that it is `debug_quoted(s)`.
#[verifier::external_body]
pub(crate) fn debug_string(s: &str) -> (r: String)
    ensures
        r@ == debug_quoted(s@),
{
    format!("{:?}", s)
}

/// `Debug` text of the configured build tool, as derived `Debug` prints it.
pub open spec fn build_tool_config_debug(b: Option<BuildToolConfig>) -> Seq<char> {
    match b {
        None => "None"@,
        Some(BuildToolConfig::Simple(s)) => "Some(Simple("@ + debug_quoted(s@) + "))"@,
        Some(BuildToolConfig::Custom { command, args }) => "Some(Custom { command: "@
            + debug_quoted(command@) + ", args: ["@ + join(
            Seq::new(args@.len(), |i: int| debug_quoted(args@[i]@)),
            ", "@,
        ) + "] })"@,
    }
}

/// Where CPU profiling is asked for under a tool that does not support it.
pub open spec fn profiling_message(identifier: Seq<char>, b: Option<BuildToolConfig>) -> Seq<char> {
    identifier
        + ": cpu_profile_output requires build_tool to be one of cargo, maven, gradle, or python (got "@
        + build_tool_config_debug(b) + ")"@
}

/// The readiness checks of a component: those configured, or, where none
/// are, an HTTP check of the legacy `readiness_check_url` with the default
/// timeout.
pub open spec fn readiness_checks_of(config: ExecutableComponentConfig) -> Seq<ReadinessCheckConfig> {
    let v = match config.readiness_checks {
        Some(c) => c@,
        None => Seq::<ReadinessCheckConfig>::empty(),
    };
    if v.len() == 0 {
        match config.readiness_check_url {
            Some(url) => seq![ReadinessCheckConfig::Http { target: url, timeout_ms: default_timeout_ms() }],
            None => v,
        }
    } else {
        v
    }
}

/// The error that building a component gives, if any: a refused build tool,
/// else profiling under a tool that does not support it.
pub open spec fn build_error(config: ExecutableComponentConfig) -> Option<Seq<char>> {
    let tool_refused = match config.build_tool {
        Some(b) => !build_tool_accepted(b),
        None => false,
    };
    let supported = match config.build_tool {
        Some(BuildToolConfig::Simple(name)) => profiling_supported(simple_build_tool(name@)->0),
        _ => false,
    };
    if tool_refused {
        match config.build_tool {
            Some(BuildToolConfig::Simple(name)) => Some(unknown_tool_message(name@)),
            _ => None,
        }
    } else if config.cpu_profile_output is Some && !supported {
        Some(profiling_message(config.identifier@, config.build_tool))
    } else {
        None
    }
}

/// A copy of a list of strings.
pub fn clone_strings(v: &Vec<String>) -> (r: Vec<String>)
    ensures
        r@ == v@,
{
    let mut out: Vec<String> = Vec::new();
    let mut i: usize = 0;
    while i < v.len()
        invariant
            i <= v@.len(),
            out@ == v@.subrange(0, i as int),
        decreases v@.len() - i,
    {
        out.push(v[i].clone());
        i = i + 1;
        assert(out@ =~= v@.subrange(0, i as int));
    }
    assert(v@.subrange(0, v@.len() as int) =~= v@);
    out
}

/// The tool that `spec` selects.
pub fn build_tool_from_config(spec: &BuildToolConfig) -> (r: Result<BuildTool, String>)
    ensures
        match r {
            Ok(t) => build_tool_accepted(*spec) && build_tool_matches(t, *spec),
            Err(m) => !build_tool_accepted(*spec) && (spec matches BuildToolConfig::Simple(name)
                && m@ == unknown_tool_message(name@)),
        },
{
    match spec {
        BuildToolConfig::Simple(s) => {
            let s = s.as_str();
            if str_eq(s, "cargo") {
                Ok(BuildTool::Cargo)
            } else if str_eq(s, "maven") {
                Ok(BuildTool::Maven)
            } else if str_eq(s, "gradle") {
                Ok(BuildTool::Gradle)
            } else if str_eq(s, "dotnet") {
                Ok(BuildTool::Dotnet)
            } else if str_eq(s, "make") {
                Ok(BuildTool::Make)
            } else if str_eq(s, "cmake") {
                Ok(BuildTool::CMake)
            } else if str_eq(s, "python") {
                Ok(BuildTool::Python)
            } else {
                let mut m = string_of("unknown build_tool '");
                m.append(s);
                m.append("'");
                Err(m)
            }
        },
        BuildToolConfig::Custom { command, args } => Ok(
            BuildTool::Custom { command: command.clone(), args: clone_strings(args) },
        ),
    }
}

/// A simple build-tool name selects the tool of that very name and no
/// other: "cargo" Cargo, "maven" Maven, "gradle" Gradle, "dotnet" .NET,
/// "make" Make, "cmake" CMake, "python" Python; each of these tools is
/// selected by its own name only, and a simple name never selects a
/// custom command.
pub proof fn lemma_simple_tool_names(name: String, tool: BuildTool)
    requires
        build_tool_matches(tool, BuildToolConfig::Simple(name)),
    ensures
        name@ == "cargo"@ <==> tool is Cargo,
        name@ == "maven"@ <==> tool is Maven,
        name@ == "gradle"@ <==> tool is Gradle,
        name@ == "dotnet"@ <==> tool is Dotnet,
        name@ == "make"@ <==> tool is Make,
        name@ == "cmake"@ <==> tool is CMake,
        name@ == "python"@ <==> tool is Python,
        !(tool is Custom),
{
    reveal_strlit("cargo");
    reveal_strlit("maven");
    reveal_strlit("gradle");
    reveal_strlit("dotnet");
    reveal_strlit("make");
    reveal_strlit("cmake");
    reveal_strlit("python");
    assert("cargo"@[0] != "maven"@[0]);
    assert("cargo"@[0] != "gradle"@[0]);
    assert("cargo"@[0] != "dotnet"@[0]);
    assert("cargo"@[0] != "make"@[0]);
    assert("cargo"@[1] != "cmake"@[1]);
    assert("cargo"@[0] != "python"@[0]);
    assert("maven"@[0] != "gradle"@[0]);
    assert("maven"@[0] != "dotnet"@[0]);
    assert("maven"@[2] != "make"@[2]);
    assert("maven"@[0] != "cmake"@[0]);
    assert("maven"@[0] != "python"@[0]);
    assert("gradle"@[0] != "dotnet"@[0]);
    assert("gradle"@[0] != "make"@[0]);
    assert("gradle"@[0] != "cmake"@[0]);
    assert("gradle"@[0] != "python"@[0]);
    assert("dotnet"@[0] != "make"@[0]);
    assert("dotnet"@[0] != "cmake"@[0]);
    assert("dotnet"@[0] != "python"@[0]);
    assert("make"@[0] != "cmake"@[0]);
    assert("make"@[0] != "python"@[0]);
    assert("cmake"@[0] != "python"@[0]);
}

/// CPU profiling is available under Cargo, Maven, Gradle and Python, and
/// under no other tool: not under .NET, Make, CMake or a custom command.
pub proof fn lemma_profiling_tools(tool: BuildTool)
    ensures
        profiling_supported(tool) <==> !(tool is Dotnet || tool is Make || tool is CMake || tool is Custom),
        tool is Cargo ==> profiling_supported(tool),
        tool is Maven ==> profiling_supported(tool),
        tool is Gradle ==> profiling_supported(tool),
        tool is Python ==> profiling_supported(tool),
{
}

/// Exactly the seven tool names are accepted as simple build tools; any
/// other name is refused.
pub proof fn lemma_simple_tool_accepted(name: String)
    ensures
        build_tool_accepted(BuildToolConfig::Simple(name)) <==> (name@ == "cargo"@ || name@ == "maven"@
            || name@ == "gradle"@ || name@ == "dotnet"@ || name@ == "make"@ || name@ == "cmake"@
            || name@ == "python"@),
{
}

/// `Debug` text of the configured build tool.
pub fn build_tool_config_debug_text(b: &Option<BuildToolConfig>) -> (r: String)
    ensures
        r@ == build_tool_config_debug(*b),
{
    match b {
        None => string_of("None"),
        Some(BuildToolConfig::Simple(s)) => {
            let mut m = string_of("Some(Simple(");
            m.append(debug_string(s.as_str()).as_str());
            m.append("))");
            m
        },
        Some(BuildToolConfig::Custom { command, args }) => {
            let mut quoted: Vec<String> = Vec::new();
            let mut i: usize = 0;
            while i < args.len()
                invariant
                    i <= args@.len(),
                    quoted@.len() == i,
                    forall|j: int| 0 <= j < i ==> #[trigger] quoted@[j]@ == debug_quoted(args@[j]@),
                decreases args@.len() - i,
            {
                quoted.push(debug_string(args[i].as_str()));
                i = i + 1;
            }
            let joined = crate::text::join_strings(&quoted, ", ");
            assert(crate::text::string_views(quoted@) =~= Seq::new(
                args@.len(),
                |k: int| debug_quoted(args@[k]@),
            ));
            let mut m = string_of("Some(Custom { command: ");
            m.append(debug_string(command.as_str()).as_str());
            m.append(", args: [");
            m.append(joined.as_str());
            m.append("] })");
            m
        },
    }
}

/// The readiness checks of a component.
pub fn readiness_checks_for(config: &ExecutableComponentConfig) -> (r: Vec<ReadinessCheckConfig>)
    ensures
        r@ == readiness_checks_of(*config),
{
    let mut v: Vec<ReadinessCheckConfig> = Vec::new();
    if let Some(checks) = &config.readiness_checks {
        let mut i: usize = 0;
        while i < checks.len()
            invariant
                i <= checks@.len(),
                v@ == checks@.subrange(0, i as int),
            decreases checks@.len() - i,
        {
            v.push(checks[i].duplicate());
            i = i + 1;
            assert(v@ =~= checks@.subrange(0, i as int));
        }
        assert(checks@.subrange(0, checks@.len() as int) =~= checks@);
    } else {
        assert(v@ =~= Seq::<ReadinessCheckConfig>::empty());
    }
    if v.len() == 0 {
        if let Some(url) = &config.readiness_check_url {
            v.push(ReadinessCheckConfig::Http { target: url.clone(), timeout_ms: 10_000 });
            assert(v@ =~= seq![ReadinessCheckConfig::Http { target: *url, timeout_ms: default_timeout_ms() }]);
        }
    }
    v
}

/// What building the component involves, or the message that refuses it.
pub fn build(config: &ExecutableComponentConfig) -> (r: Result<ExecutableComponentPlan, String>)
    ensures
        match r {
            Ok(plan) => {
                &&& build_error(*config) is None
                &&& match config.build_tool {
                    Some(b) => plan.build_tool matches Some(t) && build_tool_matches(t, b),
                    None => plan.build_tool is None,
                }
                &&& match config.cpu_profile_output {
                    Some(out) => plan.cpu_profile matches Some(p) && p.output == out && p.auto_open
                        == config.cpu_profile_auto_open && p.hotspots == config.cpu_profile_hotspots,
                    None => plan.cpu_profile is None,
                }
                &&& plan.readiness_checks@ == readiness_checks_of(*config)
            },
            Err(m) => build_error(*config) == Some(m@),
        },
{
    let mut cpu_profile_supported = false;
    let mut tool: Option<BuildTool> = None;
    if let Some(bt) = &config.build_tool {
        match build_tool_from_config(bt) {
            Ok(t) => {
                cpu_profile_supported = match t {
                    BuildTool::Cargo | BuildTool::Maven | BuildTool::Gradle | BuildTool::Python => true,
                    _ => false,
                };
                tool = Some(t);
            },
            Err(e) => return Err(e),
        }
    }
    let mut cpu_profile: Option<CpuProfilePlan> = None;
    if let Some(output) = &config.cpu_profile_output {
        if !cpu_profile_supported {
            let mut m = string_of(config.identifier.as_str());
            m.append(
                ": cpu_profile_output requires build_tool to be one of cargo, maven, gradle, or python (got ",
            );
            m.append(build_tool_config_debug_text(&config.build_tool).as_str());
            m.append(")");
            return Err(m);
        }
        cpu_profile = Some(
            CpuProfilePlan {
                output: output.clone(),
                auto_open: config.cpu_profile_auto_open,
                hotspots: config.cpu_profile_hotspots,
            },
        );
    }
    Ok(
        ExecutableComponentPlan {
            build_tool: tool,
            cpu_profile,
            readiness_checks: readiness_checks_for(config),
        },
    )
}

} // verus!
