use vstd::prelude::*;

verus! {

/// Payloads of at most this many bytes are compiled directly: caching them
/// costs more than it saves.
pub const CACHE_THRESHOLD: usize = 4096;

/// The number of bytes in a cache key.
pub const KEY_LEN: usize = 32;

/// An engine that turns compiled artifacts into files of its own kind.
#[derive(Clone, Copy, Debug, PartialEq, Eq, Structural)]
pub enum EngineKind {
    Native,
    Jit,
    Other,
}

/// How a module is obtained from its payload.
#[derive(Clone, Copy, Debug, PartialEq, Eq, Structural)]
pub enum LoadPlan {
    /// The payload is already an artifact of this engine: deserialize it
    /// without a compiler, skipping hashing and the cache.
    Headless(EngineKind),
    /// Compile the payload, leaving the cache alone.
    Direct,
    /// Look the payload up in the cache, compiling and storing it on a miss.
    Cached,
}

/// What a cache lookup gave.
#[derive(Clone, Copy, Debug, PartialEq, Eq, Structural)]
pub enum LoadOutcome {
    /// A stored artifact was read back.
    Loaded,
    /// No entry could be read: the key is not stored.
    Absent,
    /// An entry is stored but does not deserialize.
    Corrupt,
}

/// What follows a cache lookup.
#[derive(Clone, Copy, Debug, PartialEq, Eq, Structural)]
pub enum CacheStep {
    /// Use the artifact that was read back.
    UseCached,
    /// Compile the payload and overwrite the entry; `warn` asks for a
    /// warning that the entry was corrupted.
    Recompile { warn: bool },
}

pub open spec fn uses_cache(disable_cache: bool, payload_len: nat) -> bool {
    !disable_cache && payload_len > CACHE_THRESHOLD
}

pub open spec fn load_plan(
    native_artifact: bool,
    jit_artifact: bool,
    disable_cache: bool,
    payload_len: nat,
) -> LoadPlan {
    if native_artifact {
        LoadPlan::Headless(EngineKind::Native)
    } else if jit_artifact {
        LoadPlan::Headless(EngineKind::Jit)
    } else if uses_cache(disable_cache, payload_len) {
        LoadPlan::Cached
    } else {
        LoadPlan::Direct
    }
}

pub open spec fn step_after(outcome: LoadOutcome) -> CacheStep {
    match outcome {
        LoadOutcome::Loaded => CacheStep::UseCached,
        LoadOutcome::Absent => CacheStep::Recompile { warn: false },
        LoadOutcome::Corrupt => CacheStep::Recompile { warn: true },
    }
}

pub open spec fn is_hex_digit(c: char) -> bool {
    ('0' <= c && c <= '9') || ('a' <= c && c <= 'f') || ('A' <= c && c <= 'F')
}

pub open spec fn hex_value(c: char) -> nat {
    if '0' <= c && c <= '9' {
        (c as int - '0' as int) as nat
    } else if 'a' <= c && c <= 'f' {
        (c as int - 'a' as int + 10) as nat
    } else {
        (c as int - 'A' as int + 10) as nat
    }
}

/// The key that a digest string names: exactly `2 * KEY_LEN` hexadecimal
/// digits, in either case, two per byte, high nibble first.
pub open spec fn decoded_key(s: Seq<char>) -> Option<Seq<u8>> {
    if s.len() == 2 * KEY_LEN && forall|i: int| 0 <= i < s.len() ==> is_hex_digit(#[trigger] s[i]) {
        Some(
            Seq::new(
                KEY_LEN as nat,
                |i: int| (hex_value(s[2 * i]) * 16 + hex_value(s[2 * i + 1])) as u8,
            ),
        )
    } else {
        None
    }
}

/// The header that begins every serialized JIT artifact: a zero byte, then
/// `wasmer-jit`.
pub open spec fn jit_header() -> Seq<u8> {
    seq![0u8, 119u8, 97u8, 115u8, 109u8, 101u8, 114u8, 45u8, 106u8, 105u8, 116u8]
}

pub open spec fn begins_with(bytes: Seq<u8>, header: Seq<u8>) -> bool {
    header.len() <= bytes.len() && bytes.subrange(0, header.len() as int) == header
}

/// Relies on wasmer_engine_jit::JITArtifact::is_deserializable, which tests
/// whether the bytes begin with the JIT artifact header.
#[verifier::external_body]
fn is_jit_artifact(bytes: &Vec<u8>) -> (r: bool)
    ensures
        r == begins_with(bytes@, jit_header()),
{
    wasmer_engine_jit::JITArtifact::is_deserializable(bytes.as_slice())
}

/// Relies on wasmer_engine_native::NativeArtifact::is_deserializable, which
/// tests whether the bytes begin with the host platform's shared-object
/// header (at least two bytes on every platform; always false on others).
#[verifier::external_body]
fn is_native_artifact(bytes: &Vec<u8>) -> (r: bool)
    ensures
        r ==> bytes@.len() >= 2,
{
    wasmer_engine_native::NativeArtifact::is_deserializable(bytes.as_slice())
}

/// Chooses how the module in `payload` is obtained, after asking each engine
/// whether the payload is already one of its artifacts.
pub fn plan_payload_load(payload: &Vec<u8>, disable_cache: bool) -> (r: LoadPlan)
    ensures
        exists|native: bool|
            (native ==> payload@.len() >= 2) && r == load_plan(
                native,
                begins_with(payload@, jit_header()),
                disable_cache,
                payload@.len(),
            ),
{
    let native = is_native_artifact(payload);
    let jit = is_jit_artifact(payload);
    plan_module_load(native, jit, disable_cache, payload.len())
}

/// Whether a payload of `payload_len` bytes goes through the cache.
pub fn should_use_cache(disable_cache: bool, payload_len: usize) -> (r: bool)
    ensures
        r == uses_cache(disable_cache, payload_len as nat),
{
    !disable_cache && payload_len > CACHE_THRESHOLD
}

/// Chooses how a module is obtained: a payload that is already an artifact
/// (native first, then JIT) is deserialized as it is; otherwise it is
/// compiled, through the cache where that pays off.
pub fn plan_module_load(
    native_artifact: bool,
    jit_artifact: bool,
    disable_cache: bool,
    payload_len: usize,
) -> (r: LoadPlan)
    ensures
        r == load_plan(native_artifact, jit_artifact, disable_cache, payload_len as nat),
{
    if native_artifact {
        LoadPlan::Headless(EngineKind::Native)
    } else if jit_artifact {
        LoadPlan::Headless(EngineKind::Jit)
    } else if should_use_cache(disable_cache, payload_len) {
        LoadPlan::Cached
    } else {
        LoadPlan::Direct
    }
}

/// What follows a cache lookup: a corrupt entry is recompiled and
/// overwritten with a warning, an absent one silently.
pub fn after_cache_load(outcome: LoadOutcome) -> (r: CacheStep)
    ensures
        r == step_after(outcome),
{
    match outcome {
        LoadOutcome::Loaded => CacheStep::UseCached,
        LoadOutcome::Absent => CacheStep::Recompile { warn: false },
        LoadOutcome::Corrupt => CacheStep::Recompile { warn: true },
    }
}

fn hex_digit(c: char) -> (r: Option<u8>)
    ensures
        r is Some <==> is_hex_digit(c),
        r matches Some(d) ==> d == hex_value(c) && d < 16,
{
    if '0' <= c && c <= '9' {
        Some((c as u32 - '0' as u32) as u8)
    } else if 'a' <= c && c <= 'f' {
        Some((c as u32 - 'a' as u32 + 10) as u8)
    } else if 'A' <= c && c <= 'F' {
        Some((c as u32 - 'A' as u32 + 10) as u8)
    } else {
        None
    }
}

/// Reads a caller-supplied digest string as a cache key.
pub fn parse_cache_key(s: &str) -> (r: Option<Vec<u8>>)
    ensures
        r is Some <==> decoded_key(s@) is Some,
        r matches Some(k) ==> decoded_key(s@) == Some(k@),
{
    let n = s.unicode_len();
    if n != 2 * KEY_LEN {
        return None;
    }
    let mut key: Vec<u8> = Vec::new();
    let mut i: usize = 0;
    while i < KEY_LEN
        invariant
            n == s@.len(),
            n == 2 * KEY_LEN,
            0 <= i <= KEY_LEN,
            key@.len() == i,
            forall|j: int| 0 <= j < 2 * i ==> is_hex_digit(#[trigger] s@[j]),
            forall|j: int|
                0 <= j < i ==> #[trigger] key@[j] == (hex_value(s@[2 * j]) * 16 + hex_value(
                    s@[2 * j + 1],
                )) as u8,
        decreases KEY_LEN - i,
    {
        let hi = hex_digit(s.get_char(2 * i));
        let lo = hex_digit(s.get_char(2 * i + 1));
        match (hi, lo) {
            (Some(h), Some(l)) => {
                key.push(h * 16 + l);
            },
            _ => {
                return None;
            },
        }
        proof {
            assert forall|j: int| 0 <= j < 2 * (i + 1) implies is_hex_digit(#[trigger] s@[j]) by {
                if j >= 2 * i {
                    assert(j == 2 * i || j == 2 * i + 1);
                }
            }
        }
        i = i + 1;
    }
    proof {
        let want = decoded_key(s@);
        assert(want is Some);
        assert(key@ =~= want->0);
    }
    Some(key)
}

/// The key of a run: the supplied digest when it reads as one, else the
/// digest of the payload.
pub open spec fn chosen_key(supplied: Option<String>, payload_digest: Seq<u8>) -> Seq<u8> {
    match supplied {
        Some(s) => match decoded_key(s@) {
            Some(k) => k,
            None => payload_digest,
        },
        None => payload_digest,
    }
}

/// The key depends on nothing but the supplied digest and the payload's
/// digest; without a usable supplied digest, payloads with different digests
/// get different keys.
pub proof fn lemma_key_follows_digest(supplied: Option<String>, d1: Seq<u8>, d2: Seq<u8>)
    ensures
        d1 == d2 ==> chosen_key(supplied, d1) == chosen_key(supplied, d2),
        (supplied is None || decoded_key(supplied->0@) is None) && d1 != d2 ==> chosen_key(
            supplied,
            d1,
        ) != chosen_key(supplied, d2),
{
}

/// The key of the caller-supplied digest when it reads as one, else the
/// digest of the payload.
pub fn choose_cache_key(supplied: &Option<String>, payload_digest: &Vec<u8>) -> (r: Vec<u8>)
    ensures
        r@ == chosen_key(*supplied, payload_digest@),
{
    if let Some(s) = supplied {
        if let Some(k) = parse_cache_key(s.as_str()) {
            return k;
        }
    }
    payload_digest.clone()
}

/// The file extension of cache entries: the engine's own for native and JIT
/// artifacts, else the compiler's name.
pub fn cache_extension(engine: EngineKind, native_ext: &str, jit_ext: &str, compiler_id: &str) -> (r:
    String)
    ensures
        r@ == match engine {
            EngineKind::Native => native_ext@,
            EngineKind::Jit => jit_ext@,
            EngineKind::Other => compiler_id@,
        },
{
    match engine {
        EngineKind::Native => String::from_str(native_ext),
        EngineKind::Jit => String::from_str(jit_ext),
        EngineKind::Other => String::from_str(compiler_id),
    }
}

/// Whether a key is stored, as a lookup reports it.
pub open spec fn outcome_in(stored: Set<Seq<u8>>, key: Seq<u8>) -> LoadOutcome {
    if stored.contains(key) {
        LoadOutcome::Loaded
    } else {
        LoadOutcome::Absent
    }
}

/// The stored keys after a run that followed `plan` on `key`.
pub open spec fn stored_after(stored: Set<Seq<u8>>, plan: LoadPlan, key: Seq<u8>) -> Set<Seq<u8>> {
    if plan == LoadPlan::Cached && step_after(outcome_in(stored, key)) is Recompile {
        stored.insert(key)
    } else {
        stored
    }
}

/// A run that follows `plan` on `key` compiles the payload.
pub open spec fn run_compiles(stored: Set<Seq<u8>>, plan: LoadPlan, key: Seq<u8>) -> bool {
    match plan {
        LoadPlan::Headless(_) => false,
        LoadPlan::Direct => true,
        LoadPlan::Cached => step_after(outcome_in(stored, key)) is Recompile,
    }
}

/// A payload of at most `CACHE_THRESHOLD` bytes never changes the cache. A
/// larger one, when caching is on and it is no artifact already, goes
/// through the cache: a first run stores its key, and a second run with the
/// same key reads it back without compiling.
pub proof fn lemma_cache_threshold(
    stored: Set<Seq<u8>>,
    key: Seq<u8>,
    native_artifact: bool,
    jit_artifact: bool,
    disable_cache: bool,
    payload_len: nat,
)
    ensures
        payload_len <= CACHE_THRESHOLD ==> stored_after(
            stored,
            load_plan(native_artifact, jit_artifact, disable_cache, payload_len),
            key,
        ) == stored,
        ({
            let plan = load_plan(native_artifact, jit_artifact, disable_cache, payload_len);
            (payload_len > CACHE_THRESHOLD && !disable_cache && !native_artifact && !jit_artifact)
                ==> plan == LoadPlan::Cached && stored_after(stored, plan, key).contains(key)
                && !run_compiles(stored_after(stored, plan, key), plan, key)
        }),
{
}

} // verus!
