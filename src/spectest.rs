use vstd::prelude::*;

use crate::dispatch::{
    default_entrypoint, detected_versions, plan_run, version_list_text, DispatchError, ModuleFacts,
    Plan, VersionPolicy,
};

verus! {

/// Plans the run that starts the first module of a spec-test script: no
/// explicit call, the default version policy, and the script's `path` as the
/// program name. It only plans; starting the instance is the caller's part.
pub fn start_module_1(facts: &ModuleFacts, path: &str) -> (r: Result<Plan, DispatchError>)
    ensures
        facts.is_emscripten ==> (r matches Ok(Plan::Emscripten { program_name })
            && program_name@ == path@),
        !facts.is_emscripten && detected_versions(facts.import_namespaces@).len() > 0 ==> (
        r matches Ok(Plan::Wasi { versions, warning, program_name }) && versions@
            == detected_versions(facts.import_namespaces@) && program_name@ == path@ && (
        warning is Some <==> versions@.len() >= 2) && (warning matches Some(w) ==> w@
            == version_list_text(versions@))),
        !facts.is_emscripten && detected_versions(facts.import_namespaces@).len() == 0 ==> (
        r matches Ok(Plan::Bare { entrypoint }) && entrypoint@ == default_entrypoint()),
{
    let name = String::from_str(path);
    plan_run(None, facts, VersionPolicy::Warn, Some(name), path, None)
}

} // verus!
