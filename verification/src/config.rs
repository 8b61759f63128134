//! Configuration of an engine launch and of the scenario that seeds it.

use crate::protocol::{EntityParameters, ServerRequest, ServerRequestView};
use crate::text::{decimal, decimal_string, starts_with, text_starts_with};
use crate::time::{TimeSpan, NANOS_PER_MILLI, NANOS_PER_SEC};
use vstd::prelude::*;
use vstd::string::*;

verus! {

/// The environment that a list of assignments leaves behind: they are applied
/// in order, so that the last assignment to a key wins.
pub open spec fn assigned(entries: Seq<(Seq<char>, Seq<char>)>) -> Map<Seq<char>, Seq<char>>
    decreases entries.len(),
{
    if entries.len() == 0 {
        Map::empty()
    } else {
        assigned(entries.drop_last()).insert(entries.last().0, entries.last().1)
    }
}

/// Process-level configuration for launching the engine binary.
#[derive(Debug)]
pub struct EngineConfig {
    /// Path to the engine binary to spawn.
    pub binary_path: String,
    /// Additional CLI arguments passed through to the engine.
    pub extra_args: Vec<String>,
    /// Optional path to a serialized scenario log (passed via `--scenario`).
    pub scenario_path: Option<String>,
    /// Optional context plugin to load before ticking.
    pub context_plugin: Option<String>,
    /// Optional deterministic world seed supplied to the engine.
    pub world_seed: Option<u64>,
    /// Extra environment variables applied to the child process, as
    /// assignments in the order in which they were made. What they amount
    /// to is the map [`assigned`]. They are not held in an ordered map
    /// keyed by text: vstd gives `String` no order to reason with.
    pub env: Vec<(String, String)>,
    /// Optional working directory override for the child process.
    pub working_directory: Option<String>,
    /// Upper bound on how long to wait for the engine to announce its listen address.
    pub startup_timeout: TimeSpan,
    /// Expected delay between engine ticks when no telemetry events are available.
    pub tick_wait: TimeSpan,
}

/// View of an [`EngineConfig`]: texts as character sequences, the environment
/// as the map that its assignments leave behind, time spans in nanoseconds.
pub ghost struct EngineConfigView {
    pub binary_path: Seq<char>,
    pub extra_args: Seq<Seq<char>>,
    pub scenario_path: Option<Seq<char>>,
    pub context_plugin: Option<Seq<char>>,
    pub world_seed: Option<u64>,
    pub env: Map<Seq<char>, Seq<char>>,
    pub working_directory: Option<Seq<char>>,
    pub startup_timeout: nat,
    pub tick_wait: nat,
}

impl View for EngineConfig {
    type V = EngineConfigView;

    open spec fn view(&self) -> EngineConfigView {
        EngineConfigView {
            binary_path: self.binary_path@,
            extra_args: self.extra_args.deep_view(),
            scenario_path: self.scenario_path.deep_view(),
            context_plugin: self.context_plugin.deep_view(),
            world_seed: self.world_seed,
            env: assigned(self.env.deep_view()),
            working_directory: self.working_directory.deep_view(),
            startup_timeout: self.startup_timeout@,
            tick_wait: self.tick_wait@,
        }
    }
}

/// An argument that tells the engine where to listen: any that begins with
/// `--bind-addr`, be it that word alone, the word with a value behind `=`,
/// or a longer spelling of it.
pub open spec fn is_bind_arg(arg: Seq<char>) -> bool {
    starts_with(arg, "--bind-addr"@)
}

/// Some argument of `args` tells the engine where to listen.
pub open spec fn has_bind_arg(args: Seq<Seq<char>>) -> bool {
    exists|i: int| 0 <= i < args.len() && is_bind_arg(#[trigger] args[i])
}

/// A flag and its value, where the value is set.
pub open spec fn flag_with(flag: Seq<char>, value: Option<Seq<char>>) -> Seq<Seq<char>> {
    match value {
        Some(v) => seq![flag, v],
        None => seq![],
    }
}

/// The arguments that a configuration asks for: the passthrough arguments,
/// then the scenario, the seed and the context plugin, each where it is set.
pub open spec fn requested_args(config: EngineConfigView) -> Seq<Seq<char>> {
    config.extra_args + flag_with("--scenario"@, config.scenario_path) + flag_with(
        "--seed"@,
        match config.world_seed {
            Some(seed) => Some(decimal(seed as nat)),
            None => None,
        },
    ) + flag_with("--context-plugin"@, config.context_plugin)
}

/// The arguments that the engine is launched with: those asked for, and a
/// loopback address with a port of the system's choice unless one of them
/// already says where to listen.
pub open spec fn launch_args(config: EngineConfigView) -> Seq<Seq<char>> {
    let asked = requested_args(config);
    if has_bind_arg(asked) {
        asked
    } else {
        asked + seq!["--bind-addr"@, "127.0.0.1:0"@]
    }
}

/// The launch arguments always say where to listen, and the default address
/// is added only where the arguments asked for do not: then it comes once,
/// as the last two arguments.
pub proof fn lemma_launch_args_say_where_to_listen(config: EngineConfigView)
    ensures
        has_bind_arg(launch_args(config)),
        has_bind_arg(requested_args(config)) ==> launch_args(config) == requested_args(config),
        !has_bind_arg(requested_args(config)) ==> launch_args(config) == requested_args(config)
            + seq!["--bind-addr"@, "127.0.0.1:0"@],
{
    let asked = requested_args(config);
    if !has_bind_arg(asked) {
        let args = launch_args(config);
        let flag = "--bind-addr"@;
        assert(args[asked.len() as int] == flag);
        assert(flag.subrange(0, flag.len() as int) =~= flag);
        assert(is_bind_arg(args[asked.len() as int]));
    }
}

/// Tells whether `arg` tells the engine where to listen.
fn bind_arg(arg: &str) -> (out: bool)
    ensures
        out == is_bind_arg(arg@),
{
    text_starts_with(arg, "--bind-addr")
}

/// Appends `flag` and `value` to `args`.
fn push_flag(args: &mut Vec<String>, flag: &str, value: String)
    ensures
        final(args).deep_view() == old(args).deep_view() + flag_with(flag@, Some(value@)),
{
    args.push(String::from_str(flag));
    args.push(value);
    assert(args.deep_view() =~= old(args).deep_view() + flag_with(flag@, Some(value@)));
}

/// A copy of a text that may be absent.
fn copy_optional(text: &Option<String>) -> (out: Option<String>)
    ensures
        out.deep_view() == text.deep_view(),
{
    match text {
        Some(text) => Some(text.clone()),
        None => None,
    }
}

/// A copy of a list of environment assignments.
pub(crate) fn copy_assignments(entries: &Vec<(String, String)>) -> (out: Vec<(String, String)>)
    ensures
        out.deep_view() == entries.deep_view(),
{
    let mut out: Vec<(String, String)> = Vec::new();
    let mut i: usize = 0;
    while i < entries.len()
        invariant
            i <= entries.len(),
            out@.len() == i,
            forall|k: int|
                0 <= k < i ==> (#[trigger] out@[k]).0@ == entries@[k].0@ && out@[k].1@
                    == entries@[k].1@,
        decreases entries.len() - i,
    {
        out.push((entries[i].0.clone(), entries[i].1.clone()));
        i = i + 1;
    }
    assert(out.deep_view() =~= entries.deep_view());
    out
}

/// A copy of a list of texts.
fn copy_texts(texts: &Vec<String>) -> (out: Vec<String>)
    ensures
        out.deep_view() == texts.deep_view(),
{
    let mut out: Vec<String> = Vec::new();
    let mut i: usize = 0;
    while i < texts.len()
        invariant
            i <= texts.len(),
            out@.len() == i,
            forall|k: int| 0 <= k < i ==> out@[k]@ == texts@[k]@,
        decreases texts.len() - i,
    {
        out.push(texts[i].clone());
        i = i + 1;
    }
    assert(out.deep_view() =~= texts.deep_view());
    out
}

impl Clone for EngineConfig {
    fn clone(&self) -> (out: EngineConfig)
        ensures
            out@ == self@,
    {
        EngineConfig {
            binary_path: self.binary_path.clone(),
            extra_args: copy_texts(&self.extra_args),
            scenario_path: copy_optional(&self.scenario_path),
            context_plugin: copy_optional(&self.context_plugin),
            world_seed: self.world_seed,
            env: copy_assignments(&self.env),
            working_directory: copy_optional(&self.working_directory),
            startup_timeout: self.startup_timeout,
            tick_wait: self.tick_wait,
        }
    }
}

impl EngineConfig {
    /// Create a new config targeting a specific engine binary: no arguments, no
    /// overrides, five seconds to start up and ten milliseconds between ticks.
    pub fn new(binary_path: &str) -> (out: EngineConfig)
        ensures
            out@ == (EngineConfigView {
                binary_path: binary_path@,
                extra_args: Seq::empty(),
                scenario_path: None,
                context_plugin: None,
                world_seed: None,
                env: Map::empty(),
                working_directory: None,
                startup_timeout: (5 * NANOS_PER_SEC) as nat,
                tick_wait: (10 * NANOS_PER_MILLI) as nat,
            }),
    {
        let out = EngineConfig {
            binary_path: String::from_str(binary_path),
            extra_args: Vec::new(),
            scenario_path: None,
            context_plugin: None,
            world_seed: None,
            env: Vec::new(),
            working_directory: None,
            startup_timeout: TimeSpan::from_secs(5),
            tick_wait: TimeSpan::from_millis(10),
        };
        assert(out.extra_args.deep_view() =~= Seq::empty());
        assert(out.env.deep_view() =~= Seq::empty());
        out
    }

    /// Add a passthrough CLI argument.
    pub fn with_arg(self, arg: &str) -> (out: EngineConfig)
        ensures
            out@ == (EngineConfigView { extra_args: self@.extra_args.push(arg@), ..self@ }),
    {
        let mut out = self;
        out.extra_args.push(String::from_str(arg));
        assert(out.extra_args.deep_view() =~= self.extra_args.deep_view().push(arg@));
        out
    }

    /// Provide a scenario file path to pass through `--scenario`.
    pub fn with_scenario_path(self, path: &str) -> (out: EngineConfig)
        ensures
            out@ == (EngineConfigView { scenario_path: Some(path@), ..self@ }),
    {
        let mut out = self;
        out.scenario_path = Some(String::from_str(path));
        out
    }

    /// Provide a context plugin to load eagerly.
    pub fn with_context_plugin(self, path: &str) -> (out: EngineConfig)
        ensures
            out@ == (EngineConfigView { context_plugin: Some(path@), ..self@ }),
    {
        let mut out = self;
        out.context_plugin = Some(String::from_str(path));
        out
    }

    /// Set a deterministic world seed.
    pub fn with_world_seed(self, seed: u64) -> (out: EngineConfig)
        ensures
            out@ == (EngineConfigView { world_seed: Some(seed), ..self@ }),
    {
        let mut out = self;
        out.world_seed = Some(seed);
        out
    }

    /// Add an environment variable override; it replaces an earlier one for the same key.
    pub fn with_env(self, key: &str, value: &str) -> (out: EngineConfig)
        ensures
            out@ == (EngineConfigView { env: self@.env.insert(key@, value@), ..self@ }),
    {
        let mut out = self;
        out.env.push((String::from_str(key), String::from_str(value)));
        proof {
            let entries = out.env.deep_view();
            assert(entries.drop_last() =~= self.env.deep_view());
            assert(entries.last() == (key@, value@));
        }
        out
    }

    /// Override the working directory for the spawned process.
    pub fn with_working_directory(self, dir: &str) -> (out: EngineConfig)
        ensures
            out@ == (EngineConfigView { working_directory: Some(dir@), ..self@ }),
    {
        let mut out = self;
        out.working_directory = Some(String::from_str(dir));
        out
    }

    /// Override the startup timeout used while waiting for the listen address.
    pub fn with_startup_timeout(self, timeout: TimeSpan) -> (out: EngineConfig)
        ensures
            out@ == (EngineConfigView { startup_timeout: timeout@, ..self@ }),
    {
        let mut out = self;
        out.startup_timeout = timeout;
        out
    }

    /// Override the expected tick-to-tick wait used when telemetry is absent.
    pub fn with_tick_wait(self, wait: TimeSpan) -> (out: EngineConfig)
        ensures
            out@ == (EngineConfigView { tick_wait: wait@, ..self@ }),
    {
        let mut out = self;
        out.tick_wait = wait;
        out
    }

    /// The value that the environment overrides give to `key`, if any.
    pub fn env_value(&self, key: &str) -> (out: Option<String>)
        ensures
            out.deep_view() == if self@.env.contains_key(key@) {
                Some(self@.env[key@])
            } else {
                None
            },
    {
        let wanted = String::from_str(key);
        let mut at: usize = self.env.len();
        assert(self.env.deep_view().take(at as int) =~= self.env.deep_view());
        while at > 0
            invariant
                at <= self.env.len(),
                wanted@ == key@,
                assigned(self.env.deep_view()).contains_key(key@) == assigned(
                    self.env.deep_view().take(at as int),
                ).contains_key(key@),
                assigned(self.env.deep_view()).contains_key(key@) ==> assigned(
                    self.env.deep_view(),
                )[key@] == assigned(self.env.deep_view().take(at as int))[key@],
            decreases at,
        {
            proof {
                let upto = self.env.deep_view().take(at as int);
                assert(upto.drop_last() =~= self.env.deep_view().take(at - 1));
                assert(upto.last() == (self.env@[at - 1].0@, self.env@[at - 1].1@));
            }
            at = at - 1;
            if self.env[at].0 == wanted {
                return Some(self.env[at].1.clone());
            }
        }
        assert(self.env.deep_view().take(0) =~= Seq::empty());
        None
    }

    /// The arguments to launch the engine with.
    pub fn launch_args(&self) -> (out: Vec<String>)
        ensures
            out.deep_view() == launch_args(self@),
    {
        let mut args = copy_texts(&self.extra_args);
        match &self.scenario_path {
            Some(path) => push_flag(&mut args, "--scenario", path.clone()),
            None => {},
        }
        match self.world_seed {
            Some(seed) => push_flag(&mut args, "--seed", decimal_string(seed)),
            None => {},
        }
        match &self.context_plugin {
            Some(path) => push_flag(&mut args, "--context-plugin", path.clone()),
            None => {},
        }
        assert(args.deep_view() =~= requested_args(self@));
        let mut bound: bool = false;
        let mut i: usize = 0;
        while i < args.len() && !bound
            invariant
                i <= args.len(),
                bound ==> has_bind_arg(args.deep_view()),
                !bound ==> forall|k: int| 0 <= k < i ==> !is_bind_arg(#[trigger] args.deep_view()[k]),
            decreases args.len() - i + if bound { 0int } else { 1int },
        {
            if bind_arg(args[i].as_str()) {
                assert(is_bind_arg(args.deep_view()[i as int]));
                bound = true;
            } else {
                i = i + 1;
            }
        }
        if !bound {
            push_flag(&mut args, "--bind-addr", String::from_str("127.0.0.1:0"));
        }
        args
    }
}

/// Entity spawn request issued once the engine is reachable.
#[derive(Debug)]
pub struct SpawnSpec {
    pub entity_type: String,
    pub parameters: EntityParameters,
    pub dimension: Option<u32>,
}

/// View of a [`SpawnSpec`].
pub ghost struct SpawnSpecView {
    pub entity_type: Seq<char>,
    pub parameters: EntityParameters,
    pub dimension: Option<u32>,
}

impl View for SpawnSpec {
    type V = SpawnSpecView;

    open spec fn view(&self) -> SpawnSpecView {
        SpawnSpecView {
            entity_type: self.entity_type@,
            parameters: self.parameters,
            dimension: self.dimension,
        }
    }
}

impl DeepView for SpawnSpec {
    type V = SpawnSpecView;

    open spec fn deep_view(&self) -> SpawnSpecView {
        self@
    }
}

impl Clone for SpawnSpec {
    fn clone(&self) -> (out: SpawnSpec)
        ensures
            out@ == self@,
    {
        SpawnSpec {
            entity_type: self.entity_type.clone(),
            parameters: self.parameters,
            dimension: self.dimension,
        }
    }
}

/// The request that asks the engine for what a spawn directive describes.
pub open spec fn spawn_request(spec: SpawnSpecView) -> ServerRequestView {
    ServerRequestView::Spawn {
        entity_type: spec.entity_type,
        parameters: spec.parameters,
        dimension: spec.dimension,
    }
}

impl SpawnSpec {
    /// Create a spawn request for a specific entity type, with no parameters
    /// and no dimension.
    pub fn new(entity_type: &str) -> (out: SpawnSpec)
        ensures
            out@ == (SpawnSpecView {
                entity_type: entity_type@,
                parameters: EntityParameters { position: None, velocity: None, mass: None },
                dimension: None,
            }),
    {
        SpawnSpec {
            entity_type: String::from_str(entity_type),
            parameters: EntityParameters::default(),
            dimension: None,
        }
    }

    /// Provide initial parameters for the entity.
    pub fn with_parameters(self, parameters: EntityParameters) -> (out: SpawnSpec)
        ensures
            out@ == (SpawnSpecView { parameters, ..self@ }),
    {
        let mut out = self;
        out.parameters = parameters;
        out
    }

    /// Target a specific dimension for the entity.
    pub fn in_dimension(self, dimension: u32) -> (out: SpawnSpec)
        ensures
            out@ == (SpawnSpecView { dimension: Some(dimension), ..self@ }),
    {
        let mut out = self;
        out.dimension = Some(dimension);
        out
    }

    /// The request that asks the engine to spawn this entity.
    pub fn request(&self) -> (out: ServerRequest)
        ensures
            out@ == spawn_request(self@),
    {
        ServerRequest::Spawn {
            entity_type: self.entity_type.clone(),
            parameters: self.parameters,
            dimension: self.dimension,
        }
    }
}

/// Minimal scenario description used to seed entities before ticking.
#[derive(Debug)]
pub struct ScenarioConfig {
    /// Entities to spawn before returning a session handle.
    pub spawns: Vec<SpawnSpec>,
}

impl View for ScenarioConfig {
    type V = Seq<SpawnSpecView>;

    open spec fn view(&self) -> Seq<SpawnSpecView> {
        self.spawns.deep_view()
    }
}

impl Clone for ScenarioConfig {
    fn clone(&self) -> (out: ScenarioConfig)
        ensures
            out@ == self@,
    {
        let mut spawns: Vec<SpawnSpec> = Vec::new();
        let mut i: usize = 0;
        while i < self.spawns.len()
            invariant
                i <= self.spawns.len(),
                spawns@.len() == i,
                forall|k: int| 0 <= k < i ==> (#[trigger] spawns@[k])@ == self.spawns@[k]@,
            decreases self.spawns.len() - i,
        {
            spawns.push(self.spawns[i].clone());
            i = i + 1;
        }
        let out = ScenarioConfig { spawns };
        assert(out@ =~= self@);
        out
    }
}

impl Default for ScenarioConfig {
    fn default() -> (out: ScenarioConfig)
        ensures
            out@ == Seq::<SpawnSpecView>::empty(),
    {
        let out = ScenarioConfig { spawns: Vec::new() };
        assert(out@ =~= Seq::<SpawnSpecView>::empty());
        out
    }
}

impl ScenarioConfig {
    /// Add a spawn directive to the scenario.
    pub fn with_spawn(self, spec: SpawnSpec) -> (out: ScenarioConfig)
        ensures
            out@ == self@.push(spec@),
    {
        let mut out = self;
        out.spawns.push(spec);
        assert(out@ =~= self@.push(spec@));
        out
    }

    /// The requests that seed the scenario, in the order of its directives.
    pub fn requests(&self) -> (out: Vec<ServerRequest>)
        ensures
            out@.len() == self@.len(),
            forall|i: int| 0 <= i < out@.len() ==> (#[trigger] out@[i])@ == spawn_request(self@[i]),
    {
        let mut out: Vec<ServerRequest> = Vec::new();
        let mut i: usize = 0;
        while i < self.spawns.len()
            invariant
                i <= self.spawns.len(),
                out@.len() == i,
                forall|k: int| 0 <= k < i ==> (#[trigger] out@[k])@ == spawn_request(self@[k]),
            decreases self.spawns.len() - i,
        {
            out.push(self.spawns[i].request());
            i = i + 1;
        }
        out
    }
}

} // verus!
