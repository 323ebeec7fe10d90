use zkmtd::adapters::{SolanaAdapter, SolanaChainAdapter};
use zkmtd::common::types::Proof;

#[test]
fn test_solana_adapter_name() {
    let adapter = SolanaAdapter::new();
    assert_eq!(adapter.name(), "Solana");
}


#[test]
fn test_cu_limit_check() {
let adapter = SolanaAdapter::new();

// Small proof: should pass
let small_cu = adapter.check_cu_limit(100);
assert!(small_cu.is_ok(), "Small proof failed CU limit");
println!("100 byte proof: {} CU", small_cu.unwrap());

// Medium proof: should pass
let medium_cu = adapter.check_cu_limit(500);
assert!(medium_cu.is_ok(), "Medium proof failed CU limit");
println!("500 byte proof: {} CU", medium_cu.unwrap());

// Very large proof: should fail
let huge_size = 50_000; // 50KB
let huge_cu = adapter.check_cu_limit(huge_size);
// 50KB * 10 CU/byte = 500,000 CU > 200,000 limit
assert!(huge_cu.is_err(), "Very large proof passed CU limit");
println!("{} byte proof: CU limit exceeded (as expected)", huge_size);

println!("CU limit check passed");
}

#[test]
fn test_cu_estimation_scaling() {
let adapter = SolanaAdapter::new();

let sizes = [50, 100, 200, 500, 1000];
let mut prev_cu = 0u32;

println!("\nCU estimation scaling:");
for &size in &sizes {
    let cu = adapter.estimate_compute_units(size);
    println!("  {} bytes: {} CU", size, cu);

    // CU should increase with size
    assert!(cu > prev_cu, "CU does not increase with size");
    prev_cu = cu;
}

println!("CU estimation scaling passed");
}

#[test]
fn test_solana_adapter_serialize() {
    let adapter = SolanaAdapter::new();
    let proof = Proof::new(vec![1, 2, 3, 4, 5], 12345);

    let serialized = adapter.serialize_proof(&proof).unwrap();
    assert!(!serialized.is_empty());
    assert_eq!(serialized[0], 1); // version
}

// test_solana_adapter_roundtrip skip=out_of_reach
#[test]
fn test_solana_adapter_roundtrip() {
    let adapter = SolanaAdapter::new();
    let original = Proof::new(vec![1, 2, 3, 4, 5], 12345);

    let serialized = adapter.serialize_proof(&original).unwrap();
    let deserialized = adapter.deserialize_proof(&serialized).unwrap();

    assert_eq!(original.version, deserialized.version);
    assert_eq!(original.epoch, deserialized.epoch);
    assert_eq!(original.data, deserialized.data);
}

