use vstd::prelude::*;

use crate::cache::{
    begins_with, choose_cache_key, chosen_key, jit_header, load_plan, plan_payload_load, LoadPlan,
};
use crate::dispatch::{
    default_entrypoint, detected_versions, emscripten_name, plan_run, policy_of, text_of,
    version_list_text, version_policy, wasi_name, DispatchError, ModuleFacts, Plan, VersionPolicy,
};

verus! {

/// The options of one run of a module.
#[derive(Clone, Debug)]
pub struct Run {
    /// Compile directly, never through the cache.
    pub disable_cache: bool,
    /// The file that holds the module.
    pub path: String,
    /// The base name of `path`, if it has one.
    pub file_name: Option<String>,
    /// A function to call instead of running the module.
    pub invoke: Option<String>,
    /// The program name handed to the guest in place of the file's.
    pub command_name: Option<String>,
    /// A digest that names the module in the cache, to skip hashing it.
    pub cache_key: Option<String>,
    /// Fail when the module references several system-interface versions.
    pub deny_multiple_wasi_versions: bool,
    /// Accept several system-interface versions without a warning.
    pub allow_multiple_wasi_versions: bool,
    /// The arguments for the guest.
    pub args: Vec<String>,
}

impl Run {
    /// How the module in `payload` is obtained under these options.
    pub fn load_plan(&self, payload: &Vec<u8>) -> (r: LoadPlan)
        ensures
            exists|native: bool|
                (native ==> payload@.len() >= 2) && r == load_plan(
                    native,
                    begins_with(payload@, jit_header()),
                    self.disable_cache,
                    payload@.len(),
                ),
    {
        plan_payload_load(payload, self.disable_cache)
    }

    /// The cache key: the supplied digest when it reads as one, else the
    /// digest of the payload.
    pub fn cache_key_for(&self, payload_digest: &Vec<u8>) -> (r: Vec<u8>)
        ensures
            r@ == chosen_key(self.cache_key, payload_digest@),
    {
        choose_cache_key(&self.cache_key, payload_digest)
    }

    /// How the module described by `facts` is run under these options.
    pub fn plan(&self, facts: &ModuleFacts) -> (r: Result<Plan, DispatchError>)
        ensures
            self.invoke matches Some(f) ==> (r matches Ok(Plan::Invoke { function }) && function@
                == f@),
            self.invoke is None && facts.is_emscripten ==> (r matches Ok(
                Plan::Emscripten { program_name },
            ) && program_name@ == emscripten_name(self.command_name, self.path@)),
            self.invoke is None && !facts.is_emscripten && detected_versions(
                facts.import_namespaces@,
            ).len() > 0 ==> {
                let vs = detected_versions(facts.import_namespaces@);
                let policy = policy_of(
                    self.deny_multiple_wasi_versions,
                    self.allow_multiple_wasi_versions,
                );
                if vs.len() >= 2 && policy == VersionPolicy::Deny {
                    (r matches Err(DispatchError::MultipleWasiVersions { list }) && list@
                        == version_list_text(vs))
                } else {
                    (r matches Ok(Plan::Wasi { versions, warning, program_name }) && versions@ == vs
                        && text_of(warning) == (if vs.len() >= 2 && policy == VersionPolicy::Warn {
                        Some(version_list_text(vs))
                    } else {
                        None
                    }) && program_name@ == wasi_name(self.command_name, self.file_name))
                }
            },
            self.invoke is None && !facts.is_emscripten && detected_versions(
                facts.import_namespaces@,
            ).len() == 0 ==> (r matches Ok(Plan::Bare { entrypoint }) && entrypoint@
                == default_entrypoint()),
    {
        let policy = version_policy(
            self.deny_multiple_wasi_versions,
            self.allow_multiple_wasi_versions,
        );
        plan_run(
            self.invoke.clone(),
            facts,
            policy,
            self.command_name.clone(),
            self.path.as_str(),
            self.file_name.clone(),
        )
    }
}

} // verus!
