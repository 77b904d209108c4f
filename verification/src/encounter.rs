//! Encounter descriptions (the older JSON form of a match): readiness
//! descriptors, build tool names, the order of runtime arguments, and the
//! defaults of its dependencies.
use vstd::prelude::*;
use vstd::string::*;

use crate::component::executable::{clone_strings, BuildTool};
use crate::dependency::postgres::{string_or, text_or};
use crate::http::mapping::{clone_opt_string, clone_pairs};
use crate::dependency::kafka::KafkaFlavor;
use crate::text::{replace_char, replace_char_str, str_eq, string_of};

verus! {

/// Network an encounter joins where none is named.
pub open spec fn default_network() -> Seq<char> {
    "arena-network"@
}

/// Name of an encounter where none is given.
pub open spec fn default_encounter_name() -> Seq<char> {
    "arena-encounter"@
}

/// A readiness descriptor of an encounter component.
#[derive(Debug)]
pub enum ReadinessCheckJson {
    Http { target: String },
}

/// A build tool as an encounter names it.
#[derive(Debug)]
pub enum BuildToolJson {
    Simple(String),
    Custom { command: String, args: Vec<String> },
}

/// A Postgres dependency of an encounter.
#[derive(Debug)]
pub struct PostgresJson {
    pub identifier: String,
    pub image_name: Option<String>,
    pub image: Option<String>,
    pub port: Option<u16>,
    pub database_name: Option<String>,
    pub database_username: Option<String>,
    pub database_password: Option<String>,
    pub container_name: Option<String>,
    pub startup_sql_scripts: Option<Vec<String>>,
}

/// A Kafka dependency of an encounter.
#[derive(Debug)]
pub struct KafkaJson {
    pub identifier: String,
    pub image_name: Option<String>,
    pub flavor: Option<String>,
    pub port: Option<u16>,
    pub container_name: Option<String>,
    pub topics: Option<Vec<String>>,
}

/// A dependency of an encounter.
#[derive(Debug)]
pub enum DependencyJson {
    Postgres(PostgresJson),
    Kafka(KafkaJson),
}

/// A host port published as a container port.
#[derive(Clone, Copy, Debug, PartialEq, Eq, Structural)]
pub struct PortMappingJson {
    pub host_port: u16,
    pub container_port: u16,
}

/// An executable component of an encounter. Environment variables and
/// runtime arguments are name/value pairs in the order the client's map
/// yielded them.
#[derive(Debug)]
pub struct ExecJson {
    pub identifier: String,
    pub executable_path: String,
    pub source_path: Option<String>,
    pub build_tool: Option<BuildToolJson>,
    pub env_vars: Option<Vec<(String, String)>>,
    pub runtime_args: Option<Vec<(String, String)>>,
    pub readiness_checks: Option<Vec<ReadinessCheckJson>>,
    pub readiness_check_url: Option<String>,
}

/// A container component of an encounter.
#[derive(Debug)]
pub struct ContainerJson {
    pub identifier: String,
    pub dockerfile: String,
    pub build_context: Option<String>,
    pub image_tag: Option<String>,
    pub network: Option<String>,
    pub env_vars: Option<Vec<(String, String)>>,
    pub runtime_args: Option<Vec<(String, String)>>,
    pub port_mappings: Option<Vec<PortMappingJson>>,
    pub readiness_checks: Option<Vec<ReadinessCheckJson>>,
}

impl ReadinessCheckJson {
    /// A copy of this descriptor.
    pub fn duplicate(&self) -> (r: Self)
        ensures
            r == *self,
    {
        match self {
            ReadinessCheckJson::Http { target } => ReadinessCheckJson::Http { target: target.clone() },
        }
    }
}

/// A copy of a list of descriptors.
pub fn clone_readiness(v: &Vec<ReadinessCheckJson>) -> (r: Vec<ReadinessCheckJson>)
    ensures
        r@ == v@,
{
    let mut out: Vec<ReadinessCheckJson> = Vec::new();
    let mut i: usize = 0;
    while i < v.len()
        invariant
            i <= v@.len(),
            out@ == v@.subrange(0, i as int),
        decreases v@.len() - i,
    {
        out.push(v[i].duplicate());
        i = i + 1;
        assert(out@ =~= v@.subrange(0, i as int));
    }
    assert(v@.subrange(0, v@.len() as int) =~= v@);
    out
}

/// The readiness descriptors of an executable component: those given, or,
/// where none are, one HTTP descriptor of the legacy URL.
pub open spec fn exec_readiness_of(json: ExecJson) -> Seq<ReadinessCheckJson> {
    let v = match json.readiness_checks {
        Some(c) => c@,
        None => Seq::<ReadinessCheckJson>::empty(),
    };
    if v.len() == 0 {
        match json.readiness_check_url {
            Some(url) => seq![ReadinessCheckJson::Http { target: url }],
            None => v,
        }
    } else {
        v
    }
}

/// The readiness descriptors of an executable component.
pub fn collect_exec_readiness(json: &ExecJson) -> (r: Vec<ReadinessCheckJson>)
    ensures
        r@ == exec_readiness_of(*json),
{
    let mut v = match &json.readiness_checks {
        Some(c) => clone_readiness(c),
        None => Vec::new(),
    };
    if v.len() == 0 {
        if let Some(url) = &json.readiness_check_url {
            v.push(ReadinessCheckJson::Http { target: url.clone() });
            assert(v@ =~= seq![ReadinessCheckJson::Http { target: *url }]);
        }
    }
    v
}

/// The readiness descriptors of a container component: those given.
pub fn collect_container_readiness(readiness_checks: &Option<Vec<ReadinessCheckJson>>) -> (r: Vec<
    ReadinessCheckJson,
>)
    ensures
        r@ == match readiness_checks {
            Some(c) => c@,
            None => Seq::<ReadinessCheckJson>::empty(),
        },
{
    match readiness_checks {
        Some(c) => clone_readiness(c),
        None => Vec::new(),
    }
}

/// The tool an encounter's build tool name selects; unknown names build with cargo.
pub open spec fn encounter_tool_of(name: Seq<char>) -> BuildTool {
    if name == "maven"@ {
        BuildTool::Maven
    } else if name == "gradle"@ {
        BuildTool::Gradle
    } else if name == "dotnet"@ {
        BuildTool::Dotnet
    } else if name == "make"@ {
        BuildTool::Make
    } else if name == "cmake"@ {
        BuildTool::CMake
    } else {
        BuildTool::Cargo
    }
}

/// The tool that an encounter's build tool selects.
pub fn build_tool_from_json(json: &BuildToolJson) -> (r: BuildTool)
    ensures
        encounter_tool_matches(r, *json),
        match *json {
            BuildToolJson::Simple(name) => r == encounter_tool_of(name@),
            BuildToolJson::Custom { command, args } => r matches BuildTool::Custom { command: c, args: a }
                && c == command && a@ == args@,
        },
{
    match json {
        BuildToolJson::Simple(s) => {
            let s = s.as_str();
            if str_eq(s, "maven") {
                BuildTool::Maven
            } else if str_eq(s, "gradle") {
                BuildTool::Gradle
            } else if str_eq(s, "dotnet") {
                BuildTool::Dotnet
            } else if str_eq(s, "make") {
                BuildTool::Make
            } else if str_eq(s, "cmake") {
                BuildTool::CMake
            } else {
                BuildTool::Cargo
            }
        },
        BuildToolJson::Custom { command, args } => BuildTool::Custom {
            command: command.clone(),
            args: clone_strings(args),
        },
    }
}

/// Runtime arguments handed first, in this order, where they are given.
pub open spec fn priority_keys() -> Seq<Seq<char>> {
    seq!["web_app_port"@, "postgres_connection_string"@, "kafka_bootstrap"@]
}

/// The value of the first argument named `key`, where there is one.
pub open spec fn lookup(args: Seq<(String, String)>, key: Seq<char>) -> Option<String>
    decreases args.len(),
{
    if args.len() == 0 {
        None
    } else {
        match lookup(args.drop_last(), key) {
            Some(v) => Some(v),
            None => if args.last().0@ == key {
                Some(args.last().1)
            } else {
                None
            },
        }
    }
}

/// The arguments whose names are not priority keys, in order.
pub open spec fn non_priority(args: Seq<(String, String)>) -> Seq<(String, String)>
    decreases args.len(),
{
    if args.len() == 0 {
        Seq::<(String, String)>::empty()
    } else {
        let init = non_priority(args.drop_last());
        if priority_keys().contains(args.last().0@) {
            init
        } else {
            init.push(args.last())
        }
    }
}

/// The priority arguments that are given, as name/value texts, in priority order.
pub open spec fn priority_present(args: Seq<(String, String)>, upto: int) -> Seq<(Seq<char>, Seq<char>)>
    decreases upto,
{
    if upto <= 0 {
        Seq::<(Seq<char>, Seq<char>)>::empty()
    } else {
        let init = priority_present(args, upto - 1);
        let key = priority_keys()[upto - 1];
        match lookup(args, key) {
            Some(v) => init.push((key, v@)),
            None => init,
        }
    }
}

/// The name/value texts of a list of arguments.
pub open spec fn pair_views(args: Seq<(String, String)>) -> Seq<(Seq<char>, Seq<char>)> {
    Seq::new(args.len(), |i: int| (args[i].0@, args[i].1@))
}

/// The order in which runtime arguments are handed to a component: the
/// priority arguments that are given, in priority order, then every other
/// argument in its given order.
pub open spec fn ordered_runtime_args(args: Seq<(String, String)>) -> Seq<(Seq<char>, Seq<char>)> {
    priority_present(args, 3) + pair_views(non_priority(args))
}

/// The value of the first argument named `key`.
fn lookup_arg(args: &Vec<(String, String)>, key: &str) -> (r: Option<String>)
    ensures
        match lookup(args@, key@) {
            Some(v) => r matches Some(x) && x@ == v@,
            None => r is None,
        },
{
    let mut i: usize = 0;
    while i < args.len()
        invariant
            i <= args@.len(),
            lookup(args@.subrange(0, i as int), key@) is None,
        decreases args@.len() - i,
    {
        assert(args@.subrange(0, i + 1).drop_last() =~= args@.subrange(0, i as int));
        if str_eq(args[i].0.as_str(), key) {
            proof {
                lemma_lookup_prefix(args@, i as int + 1, key@);
            }
            return Some(args[i].1.clone());
        }
        i = i + 1;
    }
    assert(args@.subrange(0, args@.len() as int) =~= args@);
    None
}

/// Where a prefix already holds the key, the whole list gives the same value.
proof fn lemma_lookup_prefix(args: Seq<(String, String)>, k: int, key: Seq<char>)
    requires
        0 <= k <= args.len(),
        lookup(args.subrange(0, k), key) is Some,
    ensures
        lookup(args, key) == lookup(args.subrange(0, k), key),
    decreases args.len() - k,
{
    if k < args.len() {
        assert(args.subrange(0, k + 1).drop_last() =~= args.subrange(0, k));
        lemma_lookup_prefix(args, k + 1, key);
    } else {
        assert(args.subrange(0, k) =~= args);
    }
}

/// Whether `name` is a priority key.
fn is_priority_key(name: &str) -> (r: bool)
    ensures
        r == priority_keys().contains(name@),
{
    let a = str_eq(name, "web_app_port");
    let b = str_eq(name, "postgres_connection_string");
    let c = str_eq(name, "kafka_bootstrap");
    proof {
        let keys = priority_keys();
        if keys.contains(name@) {
            let i = choose|i: int| 0 <= i < keys.len() && keys[i] == name@;
            assert(i == 0 || i == 1 || i == 2);
        }
        if a {
            assert(keys[0] == name@);
        }
        if b {
            assert(keys[1] == name@);
        }
        if c {
            assert(keys[2] == name@);
        }
    }
    a || b || c
}

/// The runtime arguments in the order they are handed to a component.
pub fn order_runtime_args(args: &Vec<(String, String)>) -> (r: Vec<(String, String)>)
    ensures
        pair_views(r@) == ordered_runtime_args(args@),
{
    let mut out: Vec<(String, String)> = Vec::new();
    let keys = ["web_app_port", "postgres_connection_string", "kafka_bootstrap"];
    let mut k: usize = 0;
    assert(pair_views(out@) =~= priority_present(args@, 0));
    while k < 3
        invariant
            k <= 3,
            keys@ == seq!["web_app_port", "postgres_connection_string", "kafka_bootstrap"],
            pair_views(out@) == priority_present(args@, k as int),
        decreases 3 - k,
    {
        let key = keys[k];
        assert(key@ == priority_keys()[k as int]);
        let ghost before = pair_views(out@);
        match lookup_arg(args, key) {
            Some(v) => {
                out.push((string_of(key), v));
                assert(pair_views(out@) =~= before.push((key@, lookup(args@, key@)->0@)));
            },
            None => {
            },
        }
        k = k + 1;
    }
    let ghost prefix = pair_views(out@);
    let mut i: usize = 0;
    while i < args.len()
        invariant
            i <= args@.len(),
            prefix == priority_present(args@, 3),
            pair_views(out@) == prefix + pair_views(non_priority(args@.subrange(0, i as int))),
        decreases args@.len() - i,
    {
        let ghost before = pair_views(non_priority(args@.subrange(0, i as int)));
        assert(args@.subrange(0, i + 1).drop_last() =~= args@.subrange(0, i as int));
        let (name, value) = &args[i];
        if !is_priority_key(name.as_str()) {
            let ghost pv = pair_views(out@);
            out.push((name.clone(), value.clone()));
            assert(pair_views(out@) =~= pv.push((name@, value@)));
            assert(pair_views(non_priority(args@.subrange(0, i + 1))) =~= before.push(
                (name@, value@),
            ));
            assert(pair_views(out@) =~= prefix + pair_views(non_priority(args@.subrange(0, i + 1))));
        }
        i = i + 1;
    }
    assert(args@.subrange(0, args@.len() as int) =~= args@);
    out
}

/// The names of the arguments are pairwise distinct (as the keys of a map are).
pub open spec fn distinct_names(args: Seq<(String, String)>) -> bool {
    forall|i: int, j: int| 0 <= i < j < args.len() ==> (#[trigger] args[i]).0@ != (#[trigger] args[j]).0@
}

/// The names of the texts are pairwise distinct.
pub open spec fn distinct_texts(v: Seq<(Seq<char>, Seq<char>)>) -> bool {
    forall|i: int, j: int| 0 <= i < j < v.len() ==> (#[trigger] v[i]).0 != (#[trigger] v[j]).0
}

/// A value found by name belongs to an argument of that name.
proof fn lemma_lookup_found(args: Seq<(String, String)>, key: Seq<char>)
    ensures
        lookup(args, key) matches Some(v) ==> exists|i: int|
            0 <= i < args.len() && (#[trigger] args[i]).0@ == key && args[i].1 == v,
    decreases args.len(),
{
    if args.len() > 0 {
        lemma_lookup_found(args.drop_last(), key);
        if let Some(v) = lookup(args.drop_last(), key) {
            let i = choose|i: int|
                0 <= i < args.drop_last().len() && (#[trigger] args.drop_last()[i]).0@ == key
                    && args.drop_last()[i].1 == v;
            assert(args[i] == args.drop_last()[i]);
        } else if args.last().0@ == key {
            assert(args[args.len() - 1] == args.last());
        }
    }
}

/// Where names are distinct, an argument is found by its name.
proof fn lemma_lookup_finds(args: Seq<(String, String)>, i: int)
    requires
        distinct_names(args),
        0 <= i < args.len(),
    ensures
        lookup(args, args[i].0@) == Some(args[i].1),
    decreases args.len(),
{
    let init = args.drop_last();
    assert(distinct_names(init)) by {
        assert forall|a: int, b: int| 0 <= a < b < init.len() implies (#[trigger] init[a]).0@
            != (#[trigger] init[b]).0@ by {
            assert(init[a] == args[a] && init[b] == args[b]);
        }
    }
    if i < args.len() - 1 {
        assert(init[i] == args[i]);
        lemma_lookup_finds(init, i);
    } else {
        assert(args.last() == args[i]);
        assert(lookup(init, args[i].0@) is None) by {
            lemma_lookup_found(init, args[i].0@);
            if let Some(v) = lookup(init, args[i].0@) {
                let k = choose|k: int| 0 <= k < init.len() && (#[trigger] init[k]).0@ == args[i].0@ && init[k].1 == v;
                assert(init[k] == args[k]);
            }
        }
    }
}

/// What is kept of the arguments with names outside the priority keys is
/// among the arguments, and every such argument is kept.
proof fn lemma_non_priority_members(args: Seq<(String, String)>)
    ensures
        forall|x: (String, String)| non_priority(args).contains(x) ==> args.contains(x),
        forall|i: int|
            0 <= i < args.len() && !priority_keys().contains((#[trigger] args[i]).0@) ==> non_priority(
                args,
            ).contains(args[i]),
    decreases args.len(),
{
    if args.len() > 0 {
        let init = args.drop_last();
        lemma_non_priority_members(init);
        let np = non_priority(args);
        assert forall|x: (String, String)| np.contains(x) implies args.contains(x) by {
            let k = choose|k: int| 0 <= k < np.len() && np[k] == x;
            if !priority_keys().contains(args.last().0@) && k == np.len() - 1 {
                assert(args[args.len() - 1] == x);
            } else {
                assert(non_priority(init).contains(x)) by {
                    assert(non_priority(init)[k] == x);
                }
                assert(init.contains(x));
                let m = choose|m: int| 0 <= m < init.len() && init[m] == x;
                assert(args[m] == x);
            }
        }
        assert forall|i: int| 0 <= i < args.len() && !priority_keys().contains((#[trigger] args[i]).0@) implies np.contains(
            args[i],
        ) by {
            if i == args.len() - 1 {
                assert(args.last() == args[i]);
                assert(np[np.len() - 1] == args[i]);
            } else {
                assert(init[i] == args[i]);
                let k = choose|k: int| 0 <= k < non_priority(init).len() && non_priority(init)[k] == args[i];
                assert(np[k] == args[i]);
            }
        }
    }
}

/// The arguments kept outside the priority keys have distinct names, none of
/// them a priority key.
proof fn lemma_non_priority_distinct(args: Seq<(String, String)>)
    requires
        distinct_names(args),
    ensures
        distinct_names(non_priority(args)),
        forall|k: int| 0 <= k < non_priority(args).len() ==> !priority_keys().contains((#[trigger] non_priority(args)[k]).0@),
    decreases args.len(),
{
    if args.len() > 0 {
        let init = args.drop_last();
        assert(distinct_names(init)) by {
            assert forall|a: int, b: int| 0 <= a < b < init.len() implies (#[trigger] init[a]).0@
                != (#[trigger] init[b]).0@ by {
                assert(init[a] == args[a] && init[b] == args[b]);
            }
        }
        lemma_non_priority_distinct(init);
        lemma_non_priority_members(init);
        let prev = non_priority(init);
        if !priority_keys().contains(args.last().0@) {
            let np = prev.push(args.last());
            assert forall|a: int, b: int| 0 <= a < b < np.len() implies (#[trigger] np[a]).0@ != (#[trigger] np[b]).0@ by {
                if b == np.len() - 1 {
                    assert(prev.contains(np[a])) by {
                        assert(prev[a] == np[a]);
                    }
                    assert(init.contains(np[a]));
                    let m = choose|m: int| 0 <= m < init.len() && init[m] == np[a];
                    assert(args[m] == np[a]);
                    assert(args[args.len() - 1] == args.last());
                } else {
                    assert(prev[a] == np[a] && prev[b] == np[b]);
                }
            }
            assert forall|k: int| 0 <= k < np.len() implies !priority_keys().contains((#[trigger] np[k]).0@) by {
                if k < prev.len() {
                    assert(prev[k] == np[k]);
                }
            }
        }
    }
}

/// The priority arguments handed first: each one given under one of the
/// first `upto` keys, with distinct names, each a priority key.
proof fn lemma_priority_present_members(args: Seq<(String, String)>, upto: int)
    requires
        0 <= upto <= 3,
    ensures
        forall|x: (Seq<char>, Seq<char>)|
            priority_present(args, upto).contains(x) ==> pair_views(args).contains(x),
        forall|k: int|
            0 <= k < priority_present(args, upto).len() ==> exists|m: int|
                0 <= m < upto && (#[trigger] priority_present(args, upto)[k]).0 == priority_keys()[m],
        distinct_texts(priority_present(args, upto)),
        forall|m: int, i: int|
            0 <= m < upto && 0 <= i < args.len() && distinct_names(args) && (#[trigger] args[i]).0@
                == #[trigger] priority_keys()[m] ==> priority_present(args, upto).contains((args[i].0@, args[i].1@)),
    decreases upto,
{
    reveal_strlit("web_app_port");
    reveal_strlit("postgres_connection_string");
    reveal_strlit("kafka_bootstrap");
    let keys = priority_keys();
    assert(keys[0] != keys[1] && keys[0] != keys[2] && keys[1] != keys[2]) by {
        assert(keys[0].len() != keys[1].len());
        assert(keys[0].len() != keys[2].len());
        assert(keys[1].len() != keys[2].len());
    }
    if upto > 0 {
        lemma_priority_present_members(args, upto - 1);
        let prev = priority_present(args, upto - 1);
        let key = keys[upto - 1];
        lemma_lookup_found(args, key);
        match lookup(args, key) {
            Some(v) => {
                let cur = prev.push((key, v@));
                assert(priority_present(args, upto) == cur);
                assert forall|x: (Seq<char>, Seq<char>)| cur.contains(x) implies pair_views(args).contains(x) by {
                    let k = choose|k: int| 0 <= k < cur.len() && cur[k] == x;
                    if k == cur.len() - 1 {
                        let i = choose|i: int| 0 <= i < args.len() && (#[trigger] args[i]).0@ == key && args[i].1 == v;
                        assert(pair_views(args)[i] == x);
                    } else {
                        assert(prev[k] == x);
                        assert(prev.contains(x));
                    }
                }
                assert forall|k: int| 0 <= k < cur.len() implies exists|m: int|
                    0 <= m < upto && (#[trigger] cur[k]).0 == keys[m] by {
                    if k == cur.len() - 1 {
                        assert(cur[k].0 == keys[upto - 1]);
                    } else {
                        assert(prev[k] == cur[k]);
                        let m = choose|m: int| 0 <= m < upto - 1 && (#[trigger] prev[k]).0 == keys[m];
                        assert(cur[k].0 == keys[m]);
                    }
                }
                assert forall|a: int, b: int| 0 <= a < b < cur.len() implies (#[trigger] cur[a]).0 != (#[trigger] cur[b]).0 by {
                    if b == cur.len() - 1 {
                        assert(prev[a] == cur[a]);
                        let m = choose|m: int| 0 <= m < upto - 1 && (#[trigger] prev[a]).0 == keys[m];
                        assert(cur[b].0 == keys[upto - 1]);
                    } else {
                        assert(prev[a] == cur[a] && prev[b] == cur[b]);
                    }
                }
                assert forall|m: int, i: int|
                    0 <= m < upto && 0 <= i < args.len() && distinct_names(args) && (#[trigger] args[i]).0@
                        == #[trigger] keys[m] implies cur.contains((args[i].0@, args[i].1@)) by {
                    if m == upto - 1 {
                        lemma_lookup_finds(args, i);
                        assert(cur[cur.len() - 1] == (args[i].0@, args[i].1@));
                    } else {
                        assert(prev.contains((args[i].0@, args[i].1@)));
                        let k = choose|k: int| 0 <= k < prev.len() && prev[k] == (args[i].0@, args[i].1@);
                        assert(cur[k] == prev[k]);
                    }
                }
            },
            None => {
                assert forall|m: int, i: int|
                    0 <= m < upto && 0 <= i < args.len() && distinct_names(args) && (#[trigger] args[i]).0@
                        == #[trigger] keys[m] implies prev.contains((args[i].0@, args[i].1@)) by {
                    if m == upto - 1 {
                        lemma_lookup_finds(args, i);
                    }
                }
            },
        }
    }
}

/// Where the argument names are distinct (as the keys of a map are), every
/// argument is handed exactly once: each is in the handing order, everything
/// handed is one of them, and no name is handed twice.
pub proof fn lemma_runtime_args_handed_once(args: Seq<(String, String)>)
    requires
        distinct_names(args),
    ensures
        forall|i: int|
            0 <= i < args.len() ==> ordered_runtime_args(args).contains(
                ((#[trigger] args[i]).0@, args[i].1@),
            ),
        forall|x: (Seq<char>, Seq<char>)| ordered_runtime_args(args).contains(x) ==> pair_views(args).contains(x),
        distinct_texts(ordered_runtime_args(args)),
{
    let keys = priority_keys();
    let pp = priority_present(args, 3);
    let np = non_priority(args);
    let out = ordered_runtime_args(args);
    lemma_priority_present_members(args, 3);
    lemma_non_priority_members(args);
    lemma_non_priority_distinct(args);
    assert(out == pp + pair_views(np));
    assert forall|i: int| 0 <= i < args.len() implies out.contains(((#[trigger] args[i]).0@, args[i].1@)) by {
        if keys.contains(args[i].0@) {
            let m = choose|m: int| 0 <= m < keys.len() && keys[m] == args[i].0@;
            assert(pp.contains((args[i].0@, args[i].1@)));
            let k = choose|k: int| 0 <= k < pp.len() && pp[k] == (args[i].0@, args[i].1@);
            assert(out[k] == pp[k]);
        } else {
            assert(np.contains(args[i]));
            let k = choose|k: int| 0 <= k < np.len() && np[k] == args[i];
            assert(out[pp.len() + k] == pair_views(np)[k]);
        }
    }
    assert forall|x: (Seq<char>, Seq<char>)| out.contains(x) implies pair_views(args).contains(x) by {
        let k = choose|k: int| 0 <= k < out.len() && out[k] == x;
        if k < pp.len() {
            assert(pp[k] == x);
            assert(pp.contains(x));
        } else {
            let j = k - pp.len();
            assert(pair_views(np)[j] == x);
            assert(np.contains(np[j]));
            assert(args.contains(np[j]));
            let m = choose|m: int| 0 <= m < args.len() && args[m] == np[j];
            assert(pair_views(args)[m] == x);
        }
    }
    assert forall|a: int, b: int| 0 <= a < b < out.len() implies (#[trigger] out[a]).0 != (#[trigger] out[b]).0 by {
        if b < pp.len() {
            assert(pp[a] == out[a] && pp[b] == out[b]);
        } else if a >= pp.len() {
            assert(out[a] == pair_views(np)[a - pp.len()]);
            assert(out[b] == pair_views(np)[b - pp.len()]);
            assert(np[a - pp.len()].0@ != np[b - pp.len()].0@);
        } else {
            assert(pp[a] == out[a]);
            let m = choose|m: int| 0 <= m < 3 && (#[trigger] pp[a]).0 == keys[m];
            assert(out[b] == pair_views(np)[b - pp.len()]);
            assert(!keys.contains(np[b - pp.len()].0@));
            assert(keys[m] == out[a].0);
        }
    }
}

/// The container name used where none is given: `prefix` and the identifier
/// with its spaces turned into dashes.
pub open spec fn default_container_name(prefix: Seq<char>, identifier: Seq<char>) -> Seq<char> {
    prefix + replace_char(identifier, ' ', '-')
}

/// The container name of an encounter dependency: as given, else the default.
pub fn encounter_container_name(prefix: &str, identifier: &str, given: &Option<String>) -> (r: String)
    ensures
        r@ == match *given {
            Some(n) => n@,
            None => default_container_name(prefix@, identifier@),
        },
{
    match given {
        Some(n) => n.clone(),
        None => {
            let mut m = string_of(prefix);
            m.append(replace_char_str(identifier, ' ', '-').as_str());
            m
        },
    }
}

/// The flavor an encounter names: `confluent`, and the native one otherwise.
pub fn encounter_kafka_flavor(flavor: &Option<String>) -> (r: KafkaFlavor)
    ensures
        r == match *flavor {
            Some(f) => if f@ == "confluent"@ {
                KafkaFlavor::Confluent
            } else {
                KafkaFlavor::ApacheNative
            },
            None => KafkaFlavor::ApacheNative,
        },
{
    match flavor {
        Some(f) => if str_eq(f.as_str(), "confluent") {
            KafkaFlavor::Confluent
        } else {
            KafkaFlavor::ApacheNative
        },
        None => KafkaFlavor::ApacheNative,
    }
}

/// The tool that an encounter's build tool selects, as a relation.
pub open spec fn encounter_tool_matches(tool: BuildTool, json: BuildToolJson) -> bool {
    match json {
        BuildToolJson::Simple(name) => tool == encounter_tool_of(name@),
        BuildToolJson::Custom { command, args } => tool matches BuildTool::Custom { command: c, args: a }
            && c == command && a@ == args@,
    }
}

/// An encounter's simple build-tool name selects the tool of that name:
/// "maven" Maven, "gradle" Gradle, "dotnet" .NET, "make" Make, "cmake"
/// CMake; every other name, "cargo" among them, selects Cargo, and no simple
/// name selects a custom command or Python.
pub proof fn lemma_encounter_tool_names(name: String, tool: BuildTool)
    requires
        encounter_tool_matches(tool, BuildToolJson::Simple(name)),
    ensures
        name@ == "maven"@ <==> tool is Maven,
        name@ == "gradle"@ <==> tool is Gradle,
        name@ == "dotnet"@ <==> tool is Dotnet,
        name@ == "make"@ <==> tool is Make,
        name@ == "cmake"@ <==> tool is CMake,
        name@ == "cargo"@ ==> tool is Cargo,
        (name@ != "maven"@ && name@ != "gradle"@ && name@ != "dotnet"@ && name@ != "make"@ && name@
            != "cmake"@) <==> tool is Cargo,
        !(tool is Custom),
        !(tool is Python),
{
    reveal_strlit("maven");
    reveal_strlit("gradle");
    reveal_strlit("dotnet");
    reveal_strlit("make");
    reveal_strlit("cmake");
    reveal_strlit("cargo");
    assert("maven"@[0] != "gradle"@[0]);
    assert("maven"@[0] != "dotnet"@[0]);
    assert("maven"@[2] != "make"@[2]);
    assert("maven"@[0] != "cmake"@[0]);
    assert("maven"@[0] != "cargo"@[0]);
    assert("gradle"@[0] != "dotnet"@[0]);
    assert("gradle"@[0] != "make"@[0]);
    assert("gradle"@[0] != "cmake"@[0]);
    assert("gradle"@[0] != "cargo"@[0]);
    assert("dotnet"@[0] != "make"@[0]);
    assert("dotnet"@[0] != "cmake"@[0]);
    assert("dotnet"@[0] != "cargo"@[0]);
    assert("make"@[0] != "cmake"@[0]);
    assert("make"@[0] != "cargo"@[0]);
    assert("cmake"@[1] != "cargo"@[1]);
}

/// Image tag of an encounter's Postgres dependency where none is given.
pub open spec fn default_postgres_image() -> Seq<char> {
    "14.20-trixie"@
}

/// The settings an encounter's Postgres dependency is built with.
#[derive(Debug)]
pub struct EncounterPostgresPlan {
    pub identifier: String,
    pub image: String,
    pub image_name: Option<String>,
    pub port: u16,
    pub database_name: String,
    pub database_username: String,
    pub database_password: String,
    pub container_name: String,
    pub network: String,
    pub startup_sql_scripts: Vec<String>,
}

/// The settings an encounter's Kafka dependency is built with.
#[derive(Debug)]
pub struct EncounterKafkaPlan {
    pub identifier: String,
    pub flavor: KafkaFlavor,
    pub port: u16,
    pub container_name: String,
    pub network: String,
    pub image_name: Option<String>,
    pub topics: Vec<String>,
}

/// The settings an encounter's dependency is built with.
#[derive(Debug)]
pub enum EncounterDependencyPlan {
    Postgres(EncounterPostgresPlan),
    Kafka(EncounterKafkaPlan),
}

/// The strings of an optional list, none where it is absent.
pub open spec fn strings_or_empty(v: Option<Vec<String>>) -> Seq<String> {
    match v {
        Some(x) => x@,
        None => Seq::<String>::empty(),
    }
}

/// Whether `plan` is what an encounter's dependency `json` is built with on
/// `network`: the given settings, and the defaults elsewhere.
pub open spec fn dependency_plan_matches(plan: EncounterDependencyPlan, json: DependencyJson, network: Seq<char>) -> bool {
    match (plan, json) {
        (EncounterDependencyPlan::Postgres(p), DependencyJson::Postgres(j)) => {
            &&& p.identifier == j.identifier
            &&& p.image@ == text_or(j.image, default_postgres_image())
            &&& p.image_name == j.image_name
            &&& p.port == match j.port {
                Some(x) => x,
                None => 5432u16,
            }
            &&& p.database_name@ == text_or(j.database_name, "arena_db"@)
            &&& p.database_username@ == text_or(j.database_username, "arena_user"@)
            &&& p.database_password@ == text_or(j.database_password, "postgres"@)
            &&& p.container_name@ == match j.container_name {
                Some(n) => n@,
                None => default_container_name("arena-postgres-"@, j.identifier@),
            }
            &&& p.network@ == network
            &&& p.startup_sql_scripts@ == strings_or_empty(j.startup_sql_scripts)
        },
        (EncounterDependencyPlan::Kafka(k), DependencyJson::Kafka(j)) => {
            &&& k.identifier == j.identifier
            &&& k.flavor == match j.flavor {
                Some(f) => if f@ == "confluent"@ {
                    KafkaFlavor::Confluent
                } else {
                    KafkaFlavor::ApacheNative
                },
                None => KafkaFlavor::ApacheNative,
            }
            &&& k.port == match j.port {
                Some(x) => x,
                None => 9092u16,
            }
            &&& k.container_name@ == match j.container_name {
                Some(n) => n@,
                None => default_container_name("arena-kafka-"@, j.identifier@),
            }
            &&& k.network@ == network
            &&& k.image_name == j.image_name
            &&& k.topics@ == strings_or_empty(j.topics)
        },
        _ => false,
    }
}

/// A copy of an optional list of strings, empty where it is absent.
fn strings_or_new(v: &Option<Vec<String>>) -> (r: Vec<String>)
    ensures
        r@ == strings_or_empty(*v),
{
    match v {
        Some(x) => clone_strings(x),
        None => Vec::new(),
    }
}

/// The settings an encounter's dependency is built with on `network`.
pub fn encounter_dependency_plan(json: &DependencyJson, network: &str) -> (r: EncounterDependencyPlan)
    ensures
        dependency_plan_matches(r, *json, network@),
{
    match json {
        DependencyJson::Postgres(p) => EncounterDependencyPlan::Postgres(
            EncounterPostgresPlan {
                identifier: p.identifier.clone(),
                image: string_or(&p.image, "14.20-trixie"),
                image_name: clone_opt_string(&p.image_name),
                port: match p.port {
                    Some(x) => x,
                    None => 5432,
                },
                database_name: string_or(&p.database_name, "arena_db"),
                database_username: string_or(&p.database_username, "arena_user"),
                database_password: string_or(&p.database_password, "postgres"),
                container_name: encounter_container_name("arena-postgres-", p.identifier.as_str(), &p.container_name),
                network: string_of(network),
                startup_sql_scripts: strings_or_new(&p.startup_sql_scripts),
            },
        ),
        DependencyJson::Kafka(k) => EncounterDependencyPlan::Kafka(
            EncounterKafkaPlan {
                identifier: k.identifier.clone(),
                flavor: encounter_kafka_flavor(&k.flavor),
                port: match k.port {
                    Some(x) => x,
                    None => 9092,
                },
                container_name: encounter_container_name("arena-kafka-", k.identifier.as_str(), &k.container_name),
                network: string_of(network),
                image_name: clone_opt_string(&k.image_name),
                topics: strings_or_new(&k.topics),
            },
        ),
    }
}

/// The dependencies of an encounter, none where none are listed.
pub open spec fn dependencies_of(deps: Option<Vec<DependencyJson>>) -> Seq<DependencyJson> {
    match deps {
        Some(v) => v@,
        None => Seq::<DependencyJson>::empty(),
    }
}

/// The settings of each of an encounter's dependencies, in order.
pub fn encounter_dependency_plans(deps: &Option<Vec<DependencyJson>>, network: &str) -> (r: Vec<EncounterDependencyPlan>)
    ensures
        r@.len() == dependencies_of(*deps).len(),
        forall|i: int|
            0 <= i < r@.len() ==> dependency_plan_matches(#[trigger] r@[i], dependencies_of(*deps)[i], network@),
{
    let mut out: Vec<EncounterDependencyPlan> = Vec::new();
    if let Some(v) = deps {
        let mut i: usize = 0;
        while i < v.len()
            invariant
                *deps == Some(*v),
                i <= v@.len(),
                out@.len() == i,
                forall|j: int| 0 <= j < i ==> dependency_plan_matches(#[trigger] out@[j], v@[j], network@),
            decreases v@.len() - i,
        {
            out.push(encounter_dependency_plan(&v[i], network));
            i = i + 1;
        }
    }
    out
}

/// A component of an encounter.
#[derive(Debug)]
pub enum ComponentJson {
    Exec(ExecJson),
    Container(ContainerJson),
}

/// What an encounter's executable component is built with.
#[derive(Debug)]
pub struct EncounterExecPlan {
    pub identifier: String,
    pub executable_path: String,
    pub source_path: Option<String>,
    pub build_tool: Option<BuildTool>,
    pub env_vars: Vec<(String, String)>,
    pub runtime_args: Vec<(String, String)>,
    pub readiness_checks: Vec<ReadinessCheckJson>,
}

/// What an encounter's container component is built with.
#[derive(Debug)]
pub struct EncounterContainerPlan {
    pub identifier: String,
    pub dockerfile: String,
    pub build_context: Option<String>,
    pub image_tag: Option<String>,
    pub network: Option<String>,
    pub env_vars: Vec<(String, String)>,
    pub runtime_args: Vec<(String, String)>,
    pub port_mappings: Vec<PortMappingJson>,
    pub readiness_checks: Vec<ReadinessCheckJson>,
}

/// What an encounter's component is built with.
#[derive(Debug)]
pub enum EncounterComponentPlan {
    Exec(EncounterExecPlan),
    Container(EncounterContainerPlan),
}

/// The pairs of an optional list, none where it is absent.
pub open spec fn pairs_or_empty(v: Option<Vec<(String, String)>>) -> Seq<(String, String)> {
    match v {
        Some(x) => x@,
        None => Seq::<(String, String)>::empty(),
    }
}

/// The runtime arguments handed to a component, in order, as texts.
pub open spec fn runtime_args_order(v: Option<Vec<(String, String)>>) -> Seq<(Seq<char>, Seq<char>)> {
    ordered_runtime_args(pairs_or_empty(v))
}

/// Whether `plan` is what an encounter's component `json` is built with:
/// its settings as given, runtime arguments in handing order, and its
/// readiness descriptors.
pub open spec fn component_plan_matches(plan: EncounterComponentPlan, json: ComponentJson) -> bool {
    match (plan, json) {
        (EncounterComponentPlan::Exec(p), ComponentJson::Exec(j)) => {
            &&& p.identifier == j.identifier
            &&& p.executable_path == j.executable_path
            &&& p.source_path == j.source_path
            &&& match j.build_tool {
                Some(b) => p.build_tool matches Some(t) && encounter_tool_matches(t, b),
                None => p.build_tool is None,
            }
            &&& p.env_vars@ == pairs_or_empty(j.env_vars)
            &&& pair_views(p.runtime_args@) == runtime_args_order(j.runtime_args)
            &&& p.readiness_checks@ == exec_readiness_of(j)
        },
        (EncounterComponentPlan::Container(p), ComponentJson::Container(j)) => {
            &&& p.identifier == j.identifier
            &&& p.dockerfile == j.dockerfile
            &&& p.build_context == j.build_context
            &&& p.image_tag == j.image_tag
            &&& p.network == j.network
            &&& p.env_vars@ == pairs_or_empty(j.env_vars)
            &&& pair_views(p.runtime_args@) == runtime_args_order(j.runtime_args)
            &&& p.port_mappings@ == match j.port_mappings {
                Some(m) => m@,
                None => Seq::<PortMappingJson>::empty(),
            }
            &&& p.readiness_checks@ == match j.readiness_checks {
                Some(c) => c@,
                None => Seq::<ReadinessCheckJson>::empty(),
            }
        },
        _ => false,
    }
}

/// A copy of an optional list of pairs, empty where it is absent.
fn pairs_or_new(v: &Option<Vec<(String, String)>>) -> (r: Vec<(String, String)>)
    ensures
        r@ == pairs_or_empty(*v),
{
    match v {
        Some(x) => clone_pairs(x),
        None => Vec::new(),
    }
}

/// The runtime arguments in handing order, none where none are given.
fn ordered_or_new(v: &Option<Vec<(String, String)>>) -> (r: Vec<(String, String)>)
    ensures
        pair_views(r@) == runtime_args_order(*v),
{
    match v {
        Some(x) => order_runtime_args(x),
        None => {
            let r: Vec<(String, String)> = Vec::new();
            assert(pair_views(r@) =~= ordered_runtime_args(Seq::<(String, String)>::empty())) by {
                assert(priority_present(Seq::<(String, String)>::empty(), 3) =~= Seq::<(Seq<char>, Seq<char>)>::empty()) by {
                    reveal_with_fuel(priority_present, 4);
                }
                assert(non_priority(Seq::<(String, String)>::empty()) =~= Seq::<(String, String)>::empty());
            }
            r
        },
    }
}

/// A copy of an optional list of port mappings, empty where it is absent.
fn port_mappings_or_new(v: &Option<Vec<PortMappingJson>>) -> (r: Vec<PortMappingJson>)
    ensures
        r@ == match *v {
            Some(m) => m@,
            None => Seq::<PortMappingJson>::empty(),
        },
{
    let mut out: Vec<PortMappingJson> = Vec::new();
    if let Some(m) = v {
        let mut i: usize = 0;
        while i < m.len()
            invariant
                i <= m@.len(),
                out@ == m@.subrange(0, i as int),
            decreases m@.len() - i,
        {
            out.push(m[i]);
            i = i + 1;
            assert(out@ =~= m@.subrange(0, i as int));
        }
        assert(m@.subrange(0, m@.len() as int) =~= m@);
    }
    out
}

/// What an encounter's component is built with.
pub fn encounter_component_plan(json: &ComponentJson) -> (r: EncounterComponentPlan)
    ensures
        component_plan_matches(r, *json),
{
    match json {
        ComponentJson::Exec(e) => EncounterComponentPlan::Exec(
            EncounterExecPlan {
                identifier: e.identifier.clone(),
                executable_path: e.executable_path.clone(),
                source_path: clone_opt_string(&e.source_path),
                build_tool: match &e.build_tool {
                    Some(b) => Some(build_tool_from_json(b)),
                    None => None,
                },
                env_vars: pairs_or_new(&e.env_vars),
                runtime_args: ordered_or_new(&e.runtime_args),
                readiness_checks: collect_exec_readiness(e),
            },
        ),
        ComponentJson::Container(c) => EncounterComponentPlan::Container(
            EncounterContainerPlan {
                identifier: c.identifier.clone(),
                dockerfile: c.dockerfile.clone(),
                build_context: clone_opt_string(&c.build_context),
                image_tag: clone_opt_string(&c.image_tag),
                network: clone_opt_string(&c.network),
                env_vars: pairs_or_new(&c.env_vars),
                runtime_args: ordered_or_new(&c.runtime_args),
                port_mappings: port_mappings_or_new(&c.port_mappings),
                readiness_checks: collect_container_readiness(&c.readiness_checks),
            },
        ),
    }
}

/// An encounter: the older JSON form of a match.
#[derive(Debug)]
pub struct EncounterJson {
    pub network: Option<String>,
    pub encounter_name: Option<String>,
    pub dependencies: Option<Vec<DependencyJson>>,
    pub components: Option<Vec<ComponentJson>>,
}

/// What an encounter is built with: its name and network (defaults where
/// absent), its dependencies on that network and its components, in order.
#[derive(Debug)]
pub struct EncounterPlan {
    pub name: String,
    pub network: String,
    pub dependencies: Vec<EncounterDependencyPlan>,
    pub components: Vec<EncounterComponentPlan>,
}

/// The components of an encounter, none where none are listed.
pub open spec fn components_of(comps: Option<Vec<ComponentJson>>) -> Seq<ComponentJson> {
    match comps {
        Some(v) => v@,
        None => Seq::<ComponentJson>::empty(),
    }
}

/// What an encounter is built with.
pub fn encounter_plan(json: &EncounterJson) -> (r: EncounterPlan)
    ensures
        r.name@ == text_or(json.encounter_name, default_encounter_name()),
        r.network@ == text_or(json.network, default_network()),
        r.dependencies@.len() == dependencies_of(json.dependencies).len(),
        forall|i: int|
            0 <= i < r.dependencies@.len() ==> dependency_plan_matches(
                #[trigger] r.dependencies@[i],
                dependencies_of(json.dependencies)[i],
                r.network@,
            ),
        r.components@.len() == components_of(json.components).len(),
        forall|i: int|
            0 <= i < r.components@.len() ==> component_plan_matches(
                #[trigger] r.components@[i],
                components_of(json.components)[i],
            ),
{
    let network = string_or(&json.network, "arena-network");
    let name = string_or(&json.encounter_name, "arena-encounter");
    let dependencies = encounter_dependency_plans(&json.dependencies, network.as_str());
    let mut components: Vec<EncounterComponentPlan> = Vec::new();
    if let Some(v) = &json.components {
        let mut i: usize = 0;
        while i < v.len()
            invariant
                json.components == Some(*v),
                i <= v@.len(),
                components@.len() == i,
                forall|j: int| 0 <= j < i ==> component_plan_matches(#[trigger] components@[j], v@[j]),
            decreases v@.len() - i,
        {
            components.push(encounter_component_plan(&v[i]));
            i = i + 1;
        }
    }
    EncounterPlan { name, network, dependencies, components }
}

} // verus!
