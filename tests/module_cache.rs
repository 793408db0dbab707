use wasmer_run::cache::{
    after_cache_load, cache_extension, choose_cache_key, parse_cache_key, plan_module_load,
    should_use_cache, plan_payload_load, CacheStep, EngineKind, LoadOutcome, LoadPlan,
};
use wasmer_run::run::Run;

fn hex_key() -> String {
    "00112233445566778899aabbccddeeff00112233445566778899AABBCCDDEEFF".to_string()
}

fn key_bytes() -> Vec<u8> {
    let half: Vec<u8> = vec![
        0x00, 0x11, 0x22, 0x33, 0x44, 0x55, 0x66, 0x77, 0x88, 0x99, 0xaa, 0xbb, 0xcc, 0xdd, 0xee,
        0xff,
    ];
    let mut k = half.clone();
    k.extend(half);
    k
}

#[test]
fn threshold_is_exclusive() {
    assert!(!should_use_cache(false, 4096));
    assert!(should_use_cache(false, 4097));
    assert!(!should_use_cache(false, 0));
    assert!(!should_use_cache(true, 1_000_000));
}

#[test]
fn load_plans() {
    assert_eq!(plan_module_load(true, true, false, 10_000), LoadPlan::Headless(EngineKind::Native));
    assert_eq!(plan_module_load(false, true, false, 10), LoadPlan::Headless(EngineKind::Jit));
    assert_eq!(plan_module_load(false, false, false, 10_000), LoadPlan::Cached);
    assert_eq!(plan_module_load(false, false, false, 4096), LoadPlan::Direct);
    assert_eq!(plan_module_load(false, false, true, 10_000), LoadPlan::Direct);
}

#[test]
fn corrupt_entries_are_recompiled_with_a_warning() {
    assert_eq!(after_cache_load(LoadOutcome::Loaded), CacheStep::UseCached);
    assert_eq!(after_cache_load(LoadOutcome::Absent), CacheStep::Recompile { warn: false });
    assert_eq!(after_cache_load(LoadOutcome::Corrupt), CacheStep::Recompile { warn: true });
}

#[test]
fn supplied_digest_is_decoded() {
    assert_eq!(parse_cache_key(&hex_key()), Some(key_bytes()));
}

#[test]
fn malformed_digests_are_rejected() {
    assert_eq!(parse_cache_key(""), None);
    assert_eq!(parse_cache_key(&hex_key()[1..]), None);
    let mut long = hex_key();
    long.push('0');
    long.push('0');
    assert_eq!(parse_cache_key(&long), None);
    let bad = hex_key().replace('a', "g");
    assert_eq!(parse_cache_key(&bad), None);
}

#[test]
fn invalid_supplied_key_falls_back_to_the_digest() {
    let digest: Vec<u8> = (0u8..32).collect();
    assert_eq!(choose_cache_key(&Some("not-a-digest".to_string()), &digest), digest);
    assert_eq!(choose_cache_key(&None, &digest), digest);
    assert_eq!(choose_cache_key(&Some(hex_key()), &digest), key_bytes());
}

#[test]
fn same_payload_digest_gives_same_key() {
    let digest: Vec<u8> = (0u8..32).collect();
    let a = choose_cache_key(&None, &digest);
    let b = choose_cache_key(&None, &digest.clone());
    assert_eq!(a, b);
    let mut flipped = digest.clone();
    flipped[5] ^= 1;
    assert_ne!(choose_cache_key(&None, &flipped), a);
}

#[test]
fn cache_extensions() {
    assert_eq!(cache_extension(EngineKind::Native, "so", "wjit", "llvm"), "so");
    assert_eq!(cache_extension(EngineKind::Jit, "so", "wjit", "llvm"), "wjit");
    assert_eq!(cache_extension(EngineKind::Other, "so", "wjit", "llvm"), "llvm");
}

#[test]
fn run_options_drive_the_plans() {
    let run = Run {
        disable_cache: false,
        path: "m.wasm".to_string(),
        file_name: Some("m.wasm".to_string()),
        invoke: None,
        command_name: None,
        cache_key: Some(hex_key()),
        deny_multiple_wasi_versions: false,
        allow_multiple_wasi_versions: false,
        args: vec![],
    };
    assert_eq!(run.load_plan(&vec![0u8; 5000]), LoadPlan::Cached);
    assert_eq!(run.load_plan(&vec![0u8; 100]), LoadPlan::Direct);
    assert_eq!(run.cache_key_for(&vec![0u8; 32]), key_bytes());
}

#[test]
fn jit_artifacts_are_deserialized_headless() {
    let mut payload: Vec<u8> = b"\0wasmer-jit".to_vec();
    payload.extend(vec![1u8; 6000]);
    assert_eq!(plan_payload_load(&payload, false), LoadPlan::Headless(EngineKind::Jit));
    let wasm: Vec<u8> = b"\0asm\x01\0\0\0".to_vec();
    assert_eq!(plan_payload_load(&wasm, false), LoadPlan::Direct);
    let mut big = wasm.clone();
    big.extend(vec![0u8; 5000]);
    assert_eq!(plan_payload_load(&big, false), LoadPlan::Cached);
    assert_eq!(plan_payload_load(&big, true), LoadPlan::Direct);
}
