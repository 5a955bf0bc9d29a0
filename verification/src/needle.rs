//! The Needle tool-calling engine's data: its errors, the envelope it
//! returns from every turn, the settings an engine instance is created
//! with, and the decisions around binding an instance to the engine's one
//! process-global session.

use vstd::prelude::*;
use crate::decimal::{push_signed_decimal, signed_decimal};
use crate::json::{JsonModel, JsonValue, members_model};
use crate::text::{push_str, str_eq, string_of};

verus! {

#[verifier::external_type_specification]
#[verifier::external_body]
pub struct ExIoError(std::io::Error);

/// `std::io::Error`'s display text. It depends on the operating system's
/// own messages, so nothing is claimed of it.
#[verifier::external_body]
fn io_error_text(error: &std::io::Error) -> String {
    error.to_string()
}

/// Errors from locating, loading, binding, or running the engine.
#[derive(Debug)]
pub enum NeedleError {
    /// No engine library could be found.
    EngineNotFound(String),
    /// The engine library exists but could not be loaded.
    LibraryLoad(String),
    /// The engine library is missing an expected C symbol.
    MissingSymbol(String),
    /// `needle_init` returned an error code.
    InitFailed(i32),
    /// `needle_load` returned an error code.
    LoadFailed(i32),
    /// The engine already has different tuned weights bound and cannot
    /// unload them.
    WeightsConflict(String),
    /// `needle_complete` returned an error code.
    CompleteFailed(i32),
    /// The engine returned output that could not be parsed as the expected
    /// envelope.
    InvalidOutput(String),
    /// A failure in the subprocess (CLI) backend.
    Cli(String),
    /// A filesystem or process-level failure.
    Io(std::io::Error),
}

/// The display text of an error (for an I/O error, the text that precedes
/// the operating system's own message).
pub open spec fn needle_error_text(e: NeedleError) -> Seq<char> {
    match e {
        NeedleError::EngineNotFound(s) => "needle engine library not found (set NEEDLE_LIB_PATH or place libneedle in prebuilt/needle/<platform>/): "@
            + s@,
        NeedleError::LibraryLoad(s) => "failed to load needle engine library: "@ + s@,
        NeedleError::MissingSymbol(s) => "needle engine library is missing required symbol `"@ + s@ + "`"@,
        NeedleError::InitFailed(c) => "needle_init failed with code "@ + signed_decimal(c as int),
        NeedleError::LoadFailed(c) => "needle_load failed with code "@ + signed_decimal(c as int),
        NeedleError::WeightsConflict(s) => "tuned weights `"@ + s@
            + "` are bound and the engine cannot unload them; construct base-model agents first or run tuned and base workloads in separate processes"@,
        NeedleError::CompleteFailed(c) => "needle_complete failed with code "@ + signed_decimal(c as int),
        NeedleError::InvalidOutput(s) => "needle engine returned an unparseable envelope: "@ + s@,
        NeedleError::Cli(s) => "needle CLI backend failed: "@ + s@,
        NeedleError::Io(_) => "io error: "@,
    }
}

impl NeedleError {
    /// The display text of the error: its category, then its detail. An
    /// I/O error's detail is the operating system's message.
    pub fn message(&self) -> (m: String)
        ensures
            !(*self is Io) ==> m@ == needle_error_text(*self),
            *self is Io ==> m@.len() >= 10 && m@.subrange(0, 10) == needle_error_text(*self),
    {
        let mut m = String::new();
        match self {
            NeedleError::EngineNotFound(s) => {
                push_str(
                    &mut m,
                    "needle engine library not found (set NEEDLE_LIB_PATH or place libneedle in prebuilt/needle/<platform>/): ",
                );
                push_str(&mut m, s.as_str());
            },
            NeedleError::LibraryLoad(s) => {
                push_str(&mut m, "failed to load needle engine library: ");
                push_str(&mut m, s.as_str());
            },
            NeedleError::MissingSymbol(s) => {
                push_str(&mut m, "needle engine library is missing required symbol `");
                push_str(&mut m, s.as_str());
                push_str(&mut m, "`");
            },
            NeedleError::InitFailed(c) => {
                push_str(&mut m, "needle_init failed with code ");
                push_signed_decimal(&mut m, *c as i64);
            },
            NeedleError::LoadFailed(c) => {
                push_str(&mut m, "needle_load failed with code ");
                push_signed_decimal(&mut m, *c as i64);
            },
            NeedleError::WeightsConflict(s) => {
                push_str(&mut m, "tuned weights `");
                push_str(&mut m, s.as_str());
                push_str(
                    &mut m,
                    "` are bound and the engine cannot unload them; construct base-model agents first or run tuned and base workloads in separate processes",
                );
            },
            NeedleError::CompleteFailed(c) => {
                push_str(&mut m, "needle_complete failed with code ");
                push_signed_decimal(&mut m, *c as i64);
            },
            NeedleError::InvalidOutput(s) => {
                push_str(&mut m, "needle engine returned an unparseable envelope: ");
                push_str(&mut m, s.as_str());
            },
            NeedleError::Cli(s) => {
                push_str(&mut m, "needle CLI backend failed: ");
                push_str(&mut m, s.as_str());
            },
            NeedleError::Io(e) => {
                proof {
                    reveal_strlit("io error: ");
                }
                push_str(&mut m, "io error: ");
                let detail = io_error_text(e);
                let ghost head = m@;
                push_str(&mut m, detail.as_str());
                assert(m@.subrange(0, 10) =~= head);
            },
        }
        m
    }
}

impl From<std::io::Error> for NeedleError {
    fn from(error: std::io::Error) -> (e: Self) {
        NeedleError::Io(error)
    }
}

impl vstd::std_specs::convert::FromSpecImpl<std::io::Error> for NeedleError {
    open spec fn obeys_from_spec() -> bool {
        true
    }

    open spec fn from_spec(error: std::io::Error) -> NeedleError {
        NeedleError::Io(error)
    }
}

/// A single structured tool call produced by the model.
#[derive(Debug)]
pub struct FunctionCall {
    /// The declared tool name.
    pub name: String,
    /// The arguments, which match the tool's schema; optional arguments
    /// with no evidence in the input are omitted.
    pub arguments: JsonValue,
}

impl FunctionCall {
    /// The arguments' members, when the model emitted an object.
    pub fn arguments_map(&self) -> (r: Option<&Vec<(String, JsonValue)>>)
        ensures
            self.arguments matches JsonValue::Object(m) ==> r == Some(&m),
            !(self.arguments is Object) ==> r is None,
    {
        match &self.arguments {
            JsonValue::Object(members) => Some(members),
            _ => None,
        }
    }

    /// A copy of this call.
    pub fn duplicate(&self) -> (c: FunctionCall)
        ensures
            c.name@ == self.name@,
            c.arguments@ == self.arguments@,
    {
        FunctionCall { name: self.name.clone(), arguments: self.arguments.duplicate() }
    }
}

/// The `validation` section of the envelope, when present.
#[derive(Debug)]
pub struct ValidationInfo {
    /// Argument paths the model could not ground in the input.
    pub ungrounded: Vec<JsonValue>,
    /// Whether the call was produced under a negated instruction.
    pub negation: Option<bool>,
}

/// The envelope the engine returns from every turn (the throughput and
/// confidence figures, floating-point numbers, are kept by the application
/// layer).
#[derive(Debug)]
pub struct NeedleResponse {
    /// `"call"` when the model wants tool calls (an empty call list is the
    /// refusal for unsupported input), `"respond"` when the turn is
    /// finished.
    pub response_type: String,
    /// Whether the turn succeeded.
    pub success: Option<bool>,
    /// A human-readable error, when the engine reported one.
    pub error: Option<String>,
    /// A structured error code, when the engine reported one.
    pub error_code: Option<JsonValue>,
    /// A short reason, when the engine reported one.
    pub reason: Option<String>,
    /// The tool calls the model wants executed.
    pub function_calls: Vec<FunctionCall>,
    /// The model's short derivation of each argument from its source span.
    pub reasoning: Option<String>,
    /// Grounding validation, when the engine reports it.
    pub validation: Option<ValidationInfo>,
}

impl Default for NeedleResponse {
    fn default() -> (r: Self)
        ensures
            r.response_type@ == Seq::<char>::empty(),
            r.success is None,
            r.error is None,
            r.error_code is None,
            r.reason is None,
            r.function_calls@.len() == 0,
            r.reasoning is None,
            r.validation is None,
    {
        NeedleResponse {
            response_type: String::new(),
            success: None,
            error: None,
            error_code: None,
            reason: None,
            function_calls: Vec::new(),
            reasoning: None,
            validation: None,
        }
    }
}

impl NeedleResponse {
    /// Whether the model wants tool calls executed (`type == "call"`).
    pub fn is_call(&self) -> (b: bool)
        ensures
            b == (self.response_type@ == "call"@),
    {
        str_eq(self.response_type.as_str(), "call")
    }

    /// Whether the turn is finished (`type == "respond"`).
    pub fn is_respond(&self) -> (b: bool)
        ensures
            b == (self.response_type@ == "respond"@),
    {
        str_eq(self.response_type.as_str(), "respond")
    }

    /// The tool calls, if any.
    pub fn calls(&self) -> (r: &Vec<FunctionCall>)
        ensures
            r == &self.function_calls,
    {
        &self.function_calls
    }

    /// Whether this is the documented refusal for unsupported input: a call
    /// turn with no calls at all.
    pub fn is_refusal(&self) -> (b: bool)
        ensures
            b == (self.response_type@ == "call"@ && self.function_calls@.len() == 0),
    {
        self.is_call() && self.function_calls.len() == 0
    }
}

/// Common settings for an engine instance.
#[derive(Debug)]
pub struct EngineSettings {
    /// Optional system turn carrying environment facts (`date:`,
    /// `locale:`, ...), which the engine treats as facts.
    pub system: Option<String>,
    /// The JSON array of tool schemas the model may call.
    pub tools_json: String,
    /// Optional path to persist tool embeddings for large tool catalogues.
    pub tool_index_path: Option<String>,
    /// Optional path to tuned weights to load instead of the baked base
    /// model. The engine cannot unload tuned weights once bound.
    pub weights: Option<String>,
    /// Output buffer size for a completion, in bytes.
    pub buffer_size: usize,
}

impl EngineSettings {
    /// Settings with the given tool schema JSON array, no system turn, no
    /// tool index, the baked weights, and a 64 KiB output buffer.
    pub fn new(tools_json: &str) -> (s: EngineSettings)
        ensures
            s.system is None,
            s.tools_json@ == tools_json@,
            s.tool_index_path is None,
            s.weights is None,
            s.buffer_size == 65536,
    {
        EngineSettings {
            system: None,
            tools_json: string_of(tools_json),
            tool_index_path: None,
            weights: None,
            buffer_size: 65536,
        }
    }

    /// Sets the system turn.
    pub fn with_system(self, system: &str) -> (s: EngineSettings)
        ensures
            s.system matches Some(t) && t@ == system@,
            s.tools_json == self.tools_json,
            s.tool_index_path == self.tool_index_path,
            s.weights == self.weights,
            s.buffer_size == self.buffer_size,
    {
        EngineSettings { system: Some(string_of(system)), ..self }
    }

    /// Sets the tool-index persistence path.
    pub fn with_tool_index(self, path: &str) -> (s: EngineSettings)
        ensures
            s.tool_index_path matches Some(t) && t@ == path@,
            s.system == self.system,
            s.tools_json == self.tools_json,
            s.weights == self.weights,
            s.buffer_size == self.buffer_size,
    {
        EngineSettings { tool_index_path: Some(string_of(path)), ..self }
    }

    /// Sets tuned weights to load.
    pub fn with_weights(self, path: &str) -> (s: EngineSettings)
        ensures
            s.weights matches Some(t) && t@ == path@,
            s.system == self.system,
            s.tools_json == self.tools_json,
            s.tool_index_path == self.tool_index_path,
            s.buffer_size == self.buffer_size,
    {
        EngineSettings { weights: Some(string_of(path)), ..self }
    }

    /// Sets the completion output buffer size, in bytes.
    pub fn with_buffer_size(self, bytes: usize) -> (s: EngineSettings)
        ensures
            s.buffer_size == bytes,
            s.system == self.system,
            s.tools_json == self.tools_json,
            s.tool_index_path == self.tool_index_path,
            s.weights == self.weights,
    {
        EngineSettings { buffer_size: bytes, ..self }
    }
}

/// The `<os>-<arch>` folder name of a platform, as Rust names the
/// operating system and the architecture; unknown platforms fall back to
/// `linux-x86_64`.
pub open spec fn platform_tag_of(os: Seq<char>, arch: Seq<char>) -> Seq<char> {
    if os == "windows"@ && arch == "x86_64"@ {
        "windows-x86_64"@
    } else if os == "windows"@ && arch == "aarch64"@ {
        "windows-arm64"@
    } else if os == "linux"@ && arch == "x86_64"@ {
        "linux-x86_64"@
    } else if os == "linux"@ && arch == "aarch64"@ {
        "linux-arm64"@
    } else if os == "linux"@ && arch == "arm"@ {
        "linux-armv7"@
    } else if os == "macos"@ && arch == "aarch64"@ {
        "macos-arm64"@
    } else if os == "macos"@ && arch == "x86_64"@ {
        "macos-x86_64"@
    } else {
        "linux-x86_64"@
    }
}

/// The `<os>-<arch>` folder name used under `prebuilt/needle/` for the
/// given operating system and architecture (as `std::env::consts` names
/// them).
pub fn platform_tag(os: &str, arch: &str) -> (t: &'static str)
    ensures
        t@ == platform_tag_of(os@, arch@),
{
    let windows = str_eq(os, "windows");
    let linux = str_eq(os, "linux");
    let macos = str_eq(os, "macos");
    let x86_64 = str_eq(arch, "x86_64");
    let aarch64 = str_eq(arch, "aarch64");
    let arm = str_eq(arch, "arm");
    if windows && x86_64 {
        "windows-x86_64"
    } else if windows && aarch64 {
        "windows-arm64"
    } else if linux && x86_64 {
        "linux-x86_64"
    } else if linux && aarch64 {
        "linux-arm64"
    } else if linux && arm {
        "linux-armv7"
    } else if macos && aarch64 {
        "macos-arm64"
    } else if macos && x86_64 {
        "macos-x86_64"
    } else {
        "linux-x86_64"
    }
}

/// The name of the shared engine library on an operating system.
pub fn lib_name(os: &str) -> (n: &'static str)
    ensures
        os@ == "windows"@ ==> n@ == "libneedle.dll"@,
        os@ == "macos"@ ==> n@ == "libneedle.dylib"@,
        os@ != "windows"@ && os@ != "macos"@ ==> n@ == "libneedle.so"@,
{
    proof {
        reveal_strlit("windows");
        reveal_strlit("macos");
        assert("windows"@.len() != "macos"@.len());
    }
    if str_eq(os, "windows") {
        "libneedle.dll"
    } else if str_eq(os, "macos") {
        "libneedle.dylib"
    } else {
        "libneedle.so"
    }
}

/// The name of the command-line engine binary on an operating system.
pub fn binary_name(os: &str) -> (n: &'static str)
    ensures
        os@ == "windows"@ ==> n@ == "needle.exe"@,
        os@ != "windows"@ ==> n@ == "needle"@,
{
    if str_eq(os, "windows") {
        "needle.exe"
    } else {
        "needle"
    }
}

/// What binding an engine instance to the process-global session does.
#[derive(Debug)]
pub enum BindStep {
    /// The instance is bound already: nothing to do.
    AlreadyBound,
    /// Initialize the session with the instance's system turn and tools,
    /// after loading these tuned weights when present.
    Init {
        /// The tuned weights to load first.
        load_weights: Option<String>,
    },
}

/// Whether two texts name the same path, by `std::path::Path`'s equality
/// (which compares components: `a//b` and `a/b` are the same path).
pub uninterp spec fn paths_equal(a: Seq<char>, b: Seq<char>) -> bool;

/// `Path::new(a) == Path::new(b)`: whether the texts name the same path,
/// named [`paths_equal`]; a text names the same path as itself (the
/// equality is reflexive).
#[verifier::external_body]
fn same_path(a: &str, b: &str) -> (r: bool)
    ensures
        r == paths_equal(a@, b@),
        a@ == b@ ==> r,
{
    std::path::Path::new(a) == std::path::Path::new(b)
}

/// Decides how to bind an instance: nothing when it is bound already;
/// otherwise its tuned weights must name the path of those the engine
/// holds (the engine cannot unload them), in which case they are loaded
/// (again), and an instance that wants the base model cannot run once
/// tuned weights are loaded.
pub fn bind_step(already_bound: bool, wanted: Option<&str>, loaded: Option<&str>) -> (r: Result<BindStep, NeedleError>)
    ensures
        already_bound ==> r matches Ok(BindStep::AlreadyBound),
        !already_bound && wanted is None && loaded is Some ==> (r matches Err(NeedleError::WeightsConflict(s))
            && s@ == loaded->0@),
        !already_bound && wanted is Some && loaded is Some && !paths_equal(wanted->0@, loaded->0@) ==> (r matches Err(
            NeedleError::WeightsConflict(s),
        ) && s@ == loaded->0@),
        !already_bound && wanted is Some && (loaded is None || paths_equal(wanted->0@, loaded->0@)) ==> (r matches Ok(
            BindStep::Init { load_weights: Some(w) },
        ) && w@ == wanted->0@),
        !already_bound && wanted is None && loaded is None ==> r matches Ok(BindStep::Init { load_weights: None }),
{
    if already_bound {
        return Ok(BindStep::AlreadyBound);
    }
    match (wanted, loaded) {
        (None, Some(l)) => Err(NeedleError::WeightsConflict(string_of(l))),
        (Some(w), Some(l)) => {
            if same_path(w, l) {
                Ok(BindStep::Init { load_weights: Some(string_of(w)) })
            } else {
                Err(NeedleError::WeightsConflict(string_of(l)))
            }
        },
        (Some(w), None) => Ok(BindStep::Init { load_weights: Some(string_of(w)) }),
        (None, None) => Ok(BindStep::Init { load_weights: None }),
    }
}

/// Whether a statically linked engine holds an instance's tools already:
/// the tools bound last are the instance's own.
pub open spec fn holds_tools(bound_tools: Option<Seq<char>>, tools_json: Seq<char>) -> bool {
    bound_tools == Some(tools_json)
}

/// Decides how to bind an instance of the statically linked engine, which
/// remembers the tools it holds rather than the instance: nothing when it
/// holds this instance's tools already, otherwise as [`bind_step`] does,
/// except that weights are compared as text.
pub fn static_bind_step(bound_tools: Option<&str>, tools_json: &str, wanted: Option<&str>, loaded: Option<&str>) -> (r: Result<
    BindStep,
    NeedleError,
>)
    ensures
        holds_tools(opt_view(bound_tools), tools_json@) ==> r matches Ok(BindStep::AlreadyBound),
        !holds_tools(opt_view(bound_tools), tools_json@) && wanted is None && loaded is Some ==> (r matches Err(
            NeedleError::WeightsConflict(s),
        ) && s@ == loaded->0@),
        !holds_tools(opt_view(bound_tools), tools_json@) && wanted is Some && loaded is Some && wanted->0@ != loaded->0@
            ==> (r matches Err(NeedleError::WeightsConflict(s)) && s@ == loaded->0@),
        !holds_tools(opt_view(bound_tools), tools_json@) && wanted is Some && (loaded is None || wanted->0@ == loaded->0@)
            ==> (r matches Ok(BindStep::Init { load_weights: Some(w) }) && w@ == wanted->0@),
        !holds_tools(opt_view(bound_tools), tools_json@) && wanted is None && loaded is None ==> r matches Ok(
            BindStep::Init { load_weights: None },
        ),
{
    let held = match bound_tools {
        Some(b) => str_eq(b, tools_json),
        None => false,
    };
    if held {
        return Ok(BindStep::AlreadyBound);
    }
    match (wanted, loaded) {
        (None, Some(l)) => Err(NeedleError::WeightsConflict(string_of(l))),
        (Some(w), Some(l)) => {
            if str_eq(w, l) {
                Ok(BindStep::Init { load_weights: Some(string_of(w)) })
            } else {
                Err(NeedleError::WeightsConflict(string_of(l)))
            }
        },
        (Some(w), None) => Ok(BindStep::Init { load_weights: Some(string_of(w)) }),
        (None, None) => Ok(BindStep::Init { load_weights: None }),
    }
}

/// The text of an optional string.
pub open spec fn opt_view(s: Option<&str>) -> Option<Seq<char>> {
    match s {
        Some(t) => Some(t@),
        None => None,
    }
}

/// Loading tuned weights is never undone: once the engine holds weights,
/// every instance that binds next either wants weights naming the same path
/// or is refused, so the path of the weights the engine holds never
/// changes.
pub proof fn law_loaded_weights_are_permanent(wanted: Option<Seq<char>>, loaded: Seq<char>)
    ensures
        bind_loads(wanted, Some(loaded)) matches Some(w) ==> paths_equal(w, loaded),
{
}

/// The weights a binding loads (`None` when it loads none or is refused).
pub open spec fn bind_loads(wanted: Option<Seq<char>>, loaded: Option<Seq<char>>) -> Option<Seq<char>> {
    match (wanted, loaded) {
        (Some(w), Some(l)) => if paths_equal(w, l) { Some(w) } else { None },
        (Some(w), None) => Some(w),
        _ => None,
    }
}

/// What the engine's single process-global session holds: the instance
/// bound to it, and the tuned weights loaded into it.
#[derive(Debug)]
pub struct EngineSlot {
    active: Option<u64>,
    weights: Option<String>,
}

impl EngineSlot {
    /// The instance bound to the session, if any.
    pub closed spec fn active(&self) -> Option<u64> {
        self.active
    }

    /// The tuned weights loaded into the session, if any.
    pub closed spec fn weights(&self) -> Option<Seq<char>> {
        match self.weights {
            Some(w) => Some(w@),
            None => None,
        }
    }

    /// A session with nothing bound and the base model.
    pub fn new() -> (s: EngineSlot)
        ensures
            s.active() is None,
            s.weights() is None,
    {
        EngineSlot { active: None, weights: None }
    }

    /// How binding instance `id`, which wants the tuned weights `wanted`,
    /// proceeds (see [`bind_step`]).
    pub fn step(&self, id: u64, wanted: Option<&str>) -> (r: Result<BindStep, NeedleError>)
        ensures
            self.active() == Some(id) ==> r matches Ok(BindStep::AlreadyBound),
            self.active() != Some(id) && wanted is None && self.weights() is Some ==> (r matches Err(
                NeedleError::WeightsConflict(s),
            ) && Some(s@) == self.weights()),
            self.active() != Some(id) && wanted is Some && self.weights() is Some && !paths_equal(
                wanted->0@,
                self.weights()->0,
            ) ==> (r matches Err(NeedleError::WeightsConflict(s)) && s@ == self.weights()->0),
            self.active() != Some(id) && wanted is Some && (self.weights() is None || paths_equal(
                wanted->0@,
                self.weights()->0,
            )) ==> (r matches Ok(BindStep::Init { load_weights: Some(w) }) && w@ == wanted->0@),
            self.active() != Some(id) && wanted is None && self.weights() is None ==> r matches Ok(
                BindStep::Init { load_weights: None },
            ),
    {
        let bound = match self.active {
            Some(a) => a == id,
            None => false,
        };
        let loaded = match &self.weights {
            Some(w) => Some(w.as_str()),
            None => None,
        };
        bind_step(bound, wanted, loaded)
    }

    /// Records the engine's answer to loading the tuned weights `path`:
    /// code 0 means they are loaded; any other code is
    /// [`NeedleError::LoadFailed`] and nothing changes.
    pub fn loaded(&mut self, path: &str, rc: i32) -> (r: Result<(), NeedleError>)
        ensures
            rc == 0 ==> r is Ok && final(self).weights() == Some(path@),
            rc != 0 ==> (r matches Err(NeedleError::LoadFailed(c)) && c == rc) && final(self).weights() == old(
                self,
            ).weights(),
            final(self).active() == old(self).active(),
    {
        if rc != 0 {
            return Err(NeedleError::LoadFailed(rc));
        }
        self.weights = Some(string_of(path));
        Ok(())
    }

    /// Records the engine's answer to initialising instance `id`: a
    /// non-negative code binds it; a negative one is
    /// [`NeedleError::InitFailed`] and nothing changes.
    pub fn initialised(&mut self, id: u64, rc: i32) -> (r: Result<(), NeedleError>)
        ensures
            rc >= 0 ==> r is Ok && final(self).active() == Some(id),
            rc < 0 ==> (r matches Err(NeedleError::InitFailed(c)) && c == rc) && final(self).active() == old(
                self,
            ).active(),
            final(self).weights() == old(self).weights(),
    {
        if rc < 0 {
            return Err(NeedleError::InitFailed(rc));
        }
        self.active = Some(id);
        Ok(())
    }
}

} // verus!
