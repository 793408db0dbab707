use vstd::prelude::*;

use crate::text::{join, joined, same_text, texts};

verus! {

/// A version of the system interface, named by the import namespace that
/// selects it.
#[derive(Clone, Copy, Debug, PartialEq, Eq, Structural)]
pub enum WasiVersion {
    Snapshot0,
    Snapshot1,
}

/// What to do when a module references more than one system-interface version.
#[derive(Clone, Copy, Debug, PartialEq, Eq, Structural)]
pub enum VersionPolicy {
    /// Fail, listing the versions.
    Deny,
    /// Go on after one warning that lists the versions.
    Warn,
    /// Go on silently.
    Allow,
}

/// What the runner knows of a module before it picks an environment.
#[derive(Clone, Debug)]
pub struct ModuleFacts {
    /// The namespace of each import, in order.
    pub import_namespaces: Vec<String>,
    /// The module carries the import markers of the Emscripten ABI.
    pub is_emscripten: bool,
}

/// How a module is to be run.
#[derive(Clone, Debug)]
pub enum Plan {
    /// Instantiate without imports and call `function` with the command-line
    /// arguments.
    Invoke { function: String },
    /// Instantiate with the Emscripten imports and run under `program_name`.
    Emscripten { program_name: String },
    /// Instantiate with the imports of every version in `versions` and run the
    /// system-interface entrypoint under `program_name`. `warning`, when
    /// present, is the list of versions to warn about.
    Wasi { versions: Vec<WasiVersion>, warning: Option<String>, program_name: String },
    /// Instantiate without imports and call `entrypoint` with no arguments.
    Bare { entrypoint: String },
}

/// Why no plan could be made.
#[derive(Clone, Debug)]
pub enum DispatchError {
    /// Several versions are referenced and the policy denies that; `list`
    /// names them.
    MultipleWasiVersions { list: String },
}

/// What a failed Emscripten instantiation is reported as.
#[derive(Clone, Copy, Debug, PartialEq, Eq, Structural)]
pub enum EmscriptenFailure {
    /// The module also imports the system interface, which cannot be combined.
    DualAbi,
    /// Any other failure.
    Instantiation,
}

pub open spec fn namespace_of(v: WasiVersion) -> Seq<char> {
    match v {
        WasiVersion::Snapshot0 => "wasi_unstable"@,
        WasiVersion::Snapshot1 => "wasi_snapshot_preview1"@,
    }
}

/// The version that an import namespace selects, if any.
pub open spec fn version_of(ns: Seq<char>) -> Option<WasiVersion> {
    if ns == namespace_of(WasiVersion::Snapshot0) {
        Some(WasiVersion::Snapshot0)
    } else if ns == namespace_of(WasiVersion::Snapshot1) {
        Some(WasiVersion::Snapshot1)
    } else {
        None
    }
}

pub open spec fn references(namespaces: Seq<String>, v: WasiVersion) -> bool {
    exists|i: int| 0 <= i < namespaces.len() && version_of((#[trigger] namespaces[i])@) == Some(v)
}

/// The distinct versions that the namespaces reference, oldest first.
pub open spec fn detected_versions(namespaces: Seq<String>) -> Seq<WasiVersion> {
    (if references(namespaces, WasiVersion::Snapshot0) {
        seq![WasiVersion::Snapshot0]
    } else {
        Seq::empty()
    }) + (if references(namespaces, WasiVersion::Snapshot1) {
        seq![WasiVersion::Snapshot1]
    } else {
        Seq::empty()
    })
}

/// The versions as a list of quoted namespaces, separated by commas.
pub open spec fn version_list_text(vs: Seq<WasiVersion>) -> Seq<char> {
    joined(vs.map_values(|v: WasiVersion| "`"@ + namespace_of(v) + "`"@), ", "@)
}

pub open spec fn policy_of(deny: bool, allow: bool) -> VersionPolicy {
    if deny {
        VersionPolicy::Deny
    } else if allow {
        VersionPolicy::Allow
    } else {
        VersionPolicy::Warn
    }
}

pub open spec fn text_of(o: Option<String>) -> Option<Seq<char>> {
    match o {
        Some(s) => Some(s@),
        None => None,
    }
}

/// The name under which an Emscripten module runs.
pub open spec fn emscripten_name(command_name: Option<String>, path: Seq<char>) -> Seq<char> {
    match command_name {
        Some(c) => c@,
        None => path,
    }
}

/// The name under which a system-interface module runs.
pub open spec fn wasi_name(command_name: Option<String>, file_name: Option<String>) -> Seq<char> {
    match command_name {
        Some(c) => c@,
        None => match file_name {
            Some(f) => f@,
            None => Seq::empty(),
        },
    }
}

/// The name of the entrypoint that the bare path calls.
pub open spec fn default_entrypoint() -> Seq<char> {
    "_start"@
}

/// A module whose imports reference both versions is detected as using both,
/// and they are listed by their namespaces, oldest first.
pub proof fn lemma_both_versions_listed(namespaces: Seq<String>)
    requires
        references(namespaces, WasiVersion::Snapshot0),
        references(namespaces, WasiVersion::Snapshot1),
    ensures
        detected_versions(namespaces) == seq![WasiVersion::Snapshot0, WasiVersion::Snapshot1],
        version_list_text(detected_versions(namespaces))
            == "`wasi_unstable`, `wasi_snapshot_preview1`"@,
{
    let vs = detected_versions(namespaces);
    assert(vs =~= seq![WasiVersion::Snapshot0, WasiVersion::Snapshot1]);
    let items = vs.map_values(|v: WasiVersion| "`"@ + namespace_of(v) + "`"@);
    reveal_strlit("`");
    reveal_strlit(", ");
    reveal_strlit("wasi_unstable");
    reveal_strlit("wasi_snapshot_preview1");
    reveal_strlit("`wasi_unstable`, `wasi_snapshot_preview1`");
    assert(items.drop_last() =~= seq![items[0]]);
    assert(joined(items.drop_last(), ", "@) == items[0]);
    assert(joined(items, ", "@) =~= "`wasi_unstable`, `wasi_snapshot_preview1`"@);
}

/// The warning given when several versions are referenced and the policy
/// only warns.
pub open spec fn warning_text(list: Seq<char>) -> Seq<char> {
    "Found more than 1 WASI version in this module ("@ + list
        + "). If this is intentional, pass `--allow-multiple-wasi-versions` to suppress this warning."@
}

/// The text that reports an error.
pub open spec fn dispatch_message(e: DispatchError) -> Seq<char> {
    match e {
        DispatchError::MultipleWasiVersions { list } =>
            "Found more than 1 WASI version in this module ("@ + list@
            + ") and `--deny-multiple-wasi-versions` is enabled."@,
    }
}

/// The context put around any failure of a run.
pub open spec fn failure_context_text(path: Seq<char>, compilers_enabled: bool) -> Seq<char> {
    "failed to run `"@ + path + "`"@ + (if compilers_enabled {
        ""@
    } else {
        " (no compilers enabled)"@
    })
}

/// The context put around a failure to compile a module.
pub open spec fn compile_context_text(engine: Seq<char>, compiler: Seq<char>) -> Seq<char> {
    "module instantiation failed (engine: "@ + engine + ", compiler: "@ + compiler + ")"@
}

/// The warning about several referenced versions, given their list.
pub fn wasi_warning(list: &String) -> (r: String)
    ensures
        r@ == warning_text(list@),
{
    proof {
        reveal_strlit("Found more than 1 WASI version in this module (");
        reveal_strlit(
            "). If this is intentional, pass `--allow-multiple-wasi-versions` to suppress this warning.",
        );
    }
    let mut r = String::from_str("Found more than 1 WASI version in this module (");
    r.append(list.as_str());
    r.append(
        "). If this is intentional, pass `--allow-multiple-wasi-versions` to suppress this warning.",
    );
    r
}

/// The text that reports a failed Emscripten instantiation.
pub open spec fn emscripten_message(f: EmscriptenFailure) -> Seq<char> {
    match f {
        EmscriptenFailure::DualAbi =>
            "This module has both Emscripten and WASI imports. Wasmer does not currently support Emscripten modules using WASI imports."@,
        EmscriptenFailure::Instantiation => "Can't instantiate emscripten module"@,
    }
}

impl EmscriptenFailure {
    /// The text that reports this failure.
    pub fn message(&self) -> (r: String)
        ensures
            r@ == emscripten_message(*self),
    {
        proof {
            reveal_strlit(
                "This module has both Emscripten and WASI imports. Wasmer does not currently support Emscripten modules using WASI imports.",
            );
            reveal_strlit("Can't instantiate emscripten module");
        }
        match self {
            EmscriptenFailure::DualAbi => String::from_str(
                "This module has both Emscripten and WASI imports. Wasmer does not currently support Emscripten modules using WASI imports.",
            ),
            EmscriptenFailure::Instantiation => String::from_str(
                "Can't instantiate emscripten module",
            ),
        }
    }
}

impl DispatchError {
    /// The text that reports this error.
    pub fn message(&self) -> (r: String)
        ensures
            r@ == dispatch_message(*self),
    {
        proof {
            reveal_strlit("Found more than 1 WASI version in this module (");
            reveal_strlit(") and `--deny-multiple-wasi-versions` is enabled.");
        }
        match self {
            DispatchError::MultipleWasiVersions { list } => {
                let mut r = String::from_str("Found more than 1 WASI version in this module (");
                r.append(list.as_str());
                r.append(") and `--deny-multiple-wasi-versions` is enabled.");
                r
            },
        }
    }
}

/// The context put around any failure of a run of the module at `path`;
/// it notes when the build enables no compiler.
pub fn failure_context(path: &str, compilers_enabled: bool) -> (r: String)
    ensures
        r@ == failure_context_text(path@, compilers_enabled),
{
    proof {
        reveal_strlit("failed to run `");
        reveal_strlit("`");
        reveal_strlit("");
        reveal_strlit(" (no compilers enabled)");
    }
    let mut r = String::from_str("failed to run `");
    r.append(path);
    r.append("`");
    if !compilers_enabled {
        r.append(" (no compilers enabled)");
    } else {
        assert(r@ + ""@ =~= r@);
    }
    r
}

/// The context put around a failure to compile, naming the engine and the
/// compiler that were used.
pub fn compile_context(engine: &str, compiler: &str) -> (r: String)
    ensures
        r@ == compile_context_text(engine@, compiler@),
{
    proof {
        reveal_strlit("module instantiation failed (engine: ");
        reveal_strlit(", compiler: ");
        reveal_strlit(")");
    }
    let mut r = String::from_str("module instantiation failed (engine: ");
    r.append(engine);
    r.append(", compiler: ");
    r.append(compiler);
    r.append(")");
    r
}

/// Turns the conflict flags into a policy; denying wins over allowing.
pub fn version_policy(deny: bool, allow: bool) -> (r: VersionPolicy)
    ensures
        r == policy_of(deny, allow),
{
    if deny {
        VersionPolicy::Deny
    } else if allow {
        VersionPolicy::Allow
    } else {
        VersionPolicy::Warn
    }
}

/// The import namespace of a version.
pub fn namespace(v: WasiVersion) -> (r: String)
    ensures
        r@ == namespace_of(v),
{
    proof {
        reveal_strlit("wasi_unstable");
        reveal_strlit("wasi_snapshot_preview1");
    }
    match v {
        WasiVersion::Snapshot0 => String::from_str("wasi_unstable"),
        WasiVersion::Snapshot1 => String::from_str("wasi_snapshot_preview1"),
    }
}

/// The version that an import namespace selects.
pub fn version_of_namespace(ns: &str) -> (r: Option<WasiVersion>)
    ensures
        r == version_of(ns@),
{
    let s0 = namespace(WasiVersion::Snapshot0);
    let s1 = namespace(WasiVersion::Snapshot1);
    if same_text(ns, s0.as_str()) {
        Some(WasiVersion::Snapshot0)
    } else if same_text(ns, s1.as_str()) {
        Some(WasiVersion::Snapshot1)
    } else {
        None
    }
}

/// The distinct system-interface versions that a module's imports reference.
pub fn detect_wasi_versions(namespaces: &Vec<String>) -> (r: Vec<WasiVersion>)
    ensures
        r@ == detected_versions(namespaces@),
{
    let mut has0 = false;
    let mut has1 = false;
    let mut i: usize = 0;
    while i < namespaces.len()
        invariant
            0 <= i <= namespaces.len(),
            has0 == exists|j: int|
                0 <= j < i && version_of((#[trigger] namespaces@[j])@) == Some(
                    WasiVersion::Snapshot0,
                ),
            has1 == exists|j: int|
                0 <= j < i && version_of((#[trigger] namespaces@[j])@) == Some(
                    WasiVersion::Snapshot1,
                ),
        decreases namespaces.len() - i,
    {
        match version_of_namespace(namespaces[i].as_str()) {
            Some(WasiVersion::Snapshot0) => {
                has0 = true;
            },
            Some(WasiVersion::Snapshot1) => {
                has1 = true;
            },
            None => {},
        }
        i = i + 1;
    }
    let mut r: Vec<WasiVersion> = Vec::new();
    if has0 {
        r.push(WasiVersion::Snapshot0);
    }
    if has1 {
        r.push(WasiVersion::Snapshot1);
    }
    assert(r@ =~= detected_versions(namespaces@));
    r
}

/// Lists versions as quoted namespaces separated by commas.
pub fn version_list(versions: &Vec<WasiVersion>) -> (r: String)
    ensures
        r@ == version_list_text(versions@),
{
    let mut items: Vec<String> = Vec::new();
    let mut i: usize = 0;
    proof {
        reveal_strlit("`");
    }
    while i < versions.len()
        invariant
            0 <= i <= versions.len(),
            items@.len() == i,
            forall|j: int|
                0 <= j < i ==> (#[trigger] items@[j])@ == "`"@ + namespace_of(versions@[j])
                    + "`"@,
        decreases versions.len() - i,
    {
        let mut item = String::from_str("`");
        let ns = namespace(versions[i]);
        item.append(ns.as_str());
        item.append("`");
        items.push(item);
        i = i + 1;
    }
    assert(texts(items@) =~= versions@.map_values(
        |v: WasiVersion| "`"@ + namespace_of(v) + "`"@,
    ));
    join(&items, ", ")
}

/// Decides how a module is run: an explicit call first, then Emscripten,
/// then the system interface, and else the bare entrypoint.
pub fn plan_run(
    invoke: Option<String>,
    facts: &ModuleFacts,
    policy: VersionPolicy,
    command_name: Option<String>,
    path: &str,
    file_name: Option<String>,
) -> (r: Result<Plan, DispatchError>)
    ensures
        invoke matches Some(f) ==> (r matches Ok(Plan::Invoke { function }) && function@ == f@),
        invoke is None && facts.is_emscripten ==> (r matches Ok(Plan::Emscripten { program_name })
            && program_name@ == emscripten_name(command_name, path@)),
        invoke is None && !facts.is_emscripten && detected_versions(facts.import_namespaces@).len()
            > 0 ==> {
            let vs = detected_versions(facts.import_namespaces@);
            if vs.len() >= 2 && policy == VersionPolicy::Deny {
                (r matches Err(DispatchError::MultipleWasiVersions { list }) && list@
                    == version_list_text(vs))
            } else {
                (r matches Ok(Plan::Wasi { versions, warning, program_name }) && versions@ == vs
                    && text_of(warning) == (if vs.len() >= 2 && policy == VersionPolicy::Warn {
                    Some(version_list_text(vs))
                } else {
                    None
                }) && program_name@ == wasi_name(command_name, file_name))
            }
        },
        invoke is None && !facts.is_emscripten && detected_versions(facts.import_namespaces@).len()
            == 0 ==> (r matches Ok(Plan::Bare { entrypoint }) && entrypoint@ == default_entrypoint()),
{
    if let Some(f) = invoke {
        return Ok(Plan::Invoke { function: f });
    }
    if facts.is_emscripten {
        let program_name = match command_name {
            Some(c) => c,
            None => String::from_str(path),
        };
        return Ok(Plan::Emscripten { program_name });
    }
    let versions = detect_wasi_versions(&facts.import_namespaces);
    if versions.len() > 0 {
        let mut warning: Option<String> = None;
        if versions.len() >= 2 {
            let list = version_list(&versions);
            match policy {
                VersionPolicy::Deny => {
                    return Err(DispatchError::MultipleWasiVersions { list });
                },
                VersionPolicy::Warn => {
                    warning = Some(list);
                },
                VersionPolicy::Allow => {},
            }
        }
        let program_name = match command_name {
            Some(c) => c,
            None => match file_name {
                Some(f) => f,
                None => String::new(),
            },
        };
        return Ok(Plan::Wasi { versions, warning, program_name });
    }
    proof {
        reveal_strlit("_start");
    }
    Ok(Plan::Bare { entrypoint: String::from_str("_start") })
}

/// Classifies a failed Emscripten instantiation: a module that also imports
/// the system interface asks for two ABIs that cannot be combined.
pub fn emscripten_failure(facts: &ModuleFacts) -> (r: EmscriptenFailure)
    ensures
        r == (if detected_versions(facts.import_namespaces@).len() > 0 {
            EmscriptenFailure::DualAbi
        } else {
            EmscriptenFailure::Instantiation
        }),
{
    let versions = detect_wasi_versions(&facts.import_namespaces);
    if versions.len() > 0 {
        EmscriptenFailure::DualAbi
    } else {
        EmscriptenFailure::Instantiation
    }
}

} // verus!
