use std::collections::BTreeSet;
use zkmtd::utils::hash::{
    bytes_to_field, combine_hashes, constant_time_eq, derive_mtd_params, derive_pv_salt,
    field_to_bytes, poseidon_hash,
};
use zkmtd::utils::constants::GOLDILOCKS_ORDER;

#[test]
fn test_bytes_to_field_conversion() {
    let bytes = [1, 2, 3, 4, 5, 6, 7, 8];
    let field = bytes_to_field(&bytes);
    let back = field_to_bytes(field);
    assert_eq!(bytes, back);
}

#[test]
fn test_poseidon_hash_deterministic() {
    let data = b"test data";
    let domain = b"test domain";

    let hash1 = poseidon_hash(data, domain);
    let hash2 = poseidon_hash(data, domain);

    assert_eq!(hash1, hash2, "Hash must be deterministic");
}

#[test]
fn test_poseidon_hash_different_domain() {
    let data = b"test data";
    let domain1 = b"domain1";
    let domain2 = b"domain2";

    let hash1 = poseidon_hash(data, domain1);
    let hash2 = poseidon_hash(data, domain2);

    assert_ne!(
        hash1, hash2,
        "Different domains must produce different hashes"
    );
}

#[test]
fn test_combine_hashes() {
    let left = [1u8; 32];
    let right = [2u8; 32];
    let domain = b"test";

    let combined = combine_hashes(&left, &right, domain);
    assert_ne!(combined, left);
    assert_ne!(combined, right);
}

#[test]
fn test_derive_mtd_params() {
    let seed = b"my-secret-seed";
    let epoch = 12345u64;
    let salt = b"salt";

    let params1 = derive_mtd_params(seed, epoch, salt).unwrap();
    let params2 = derive_mtd_params(seed, epoch, salt).unwrap();

    assert_eq!(params1, params2, "Same inputs must produce same parameters");
}

#[test]
fn test_derive_mtd_params_different_epoch() {
    let seed = b"my-secret-seed";
    let salt = b"salt";

    let params1 = derive_mtd_params(seed, 100, salt).unwrap();
    let params2 = derive_mtd_params(seed, 200, salt).unwrap();

    assert_ne!(
        params1, params2,
        "Different Epochs must produce different parameters"
    );
}

#[test]
fn test_empty_seed_error() {
    let result = derive_mtd_params(&[], 100, b"salt");
    assert!(result.is_err());
}

#[test]
fn test_constant_time_eq() {
    let a = [1u8, 2, 3, 4];
    let b = [1u8, 2, 3, 4];
    let c = [1u8, 2, 3, 5];

    assert!(constant_time_eq(&a, &b));
    assert!(!constant_time_eq(&a, &c));
}

#[test]
fn test_derive_pv_salt_deterministic() {
    let salt1 = derive_pv_salt(b"seed", 100, b"nonce");
    let salt2 = derive_pv_salt(b"seed", 100, b"nonce");
    assert_eq!(salt1, salt2);
}

#[test]
fn test_derive_pv_salt_different_epoch() {
    let salt1 = derive_pv_salt(b"seed", 100, b"nonce");
    let salt2 = derive_pv_salt(b"seed", 101, b"nonce");
    assert_ne!(salt1, salt2);
}

#[test]
fn test_derive_pv_salt_different_seed() {
    let salt1 = derive_pv_salt(b"seed-A", 100, b"nonce");
    let salt2 = derive_pv_salt(b"seed-B", 100, b"nonce");
    assert_ne!(salt1, salt2);
}

#[test]
fn test_collision_resistance() {
    // Different inputs must produce different hashes
    let data1 = b"test data 1";
    let data2 = b"test data 2";
    let domain = b"test";

    let hash1 = poseidon_hash(data1, domain);
    let hash2 = poseidon_hash(data2, domain);

    assert_ne!(hash1, hash2, "Collision resistance verification");
}

#[test]
fn test_domain_separation_effectiveness() {
    // Same data, different domain -> different hash
    let data = b"identical data for testing";

    let hash1 = poseidon_hash(data, b"DOMAIN_A");
    let hash2 = poseidon_hash(data, b"DOMAIN_B");
    let hash3 = poseidon_hash(data, b"DOMAIN_C");

    assert_ne!(hash1, hash2, "DOMAIN_A and DOMAIN_B produced same hash");
    assert_ne!(hash1, hash3, "DOMAIN_A and DOMAIN_C produced same hash");
    assert_ne!(hash2, hash3, "DOMAIN_B and DOMAIN_C produced same hash");
}

#[test]
fn test_data_sensitivity() {
    // Different data, same domain -> different hash
    let domain = b"SAME_DOMAIN";

    let hash1 = poseidon_hash(b"data1", domain);
    let hash2 = poseidon_hash(b"data2", domain);
    let hash3 = poseidon_hash(b"data3", domain);

    assert_ne!(hash1, hash2, "data1 and data2 produced same hash");
    assert_ne!(hash1, hash3, "data1 and data3 produced same hash");
    assert_ne!(hash2, hash3, "data2 and data3 produced same hash");
}

#[test]
fn test_similar_domain_tags() {
    // Similar domain tags must also produce different hashes
    let data = b"test data";

    let hash1 = poseidon_hash(data, b"MTD_DOMAIN");
    let hash2 = poseidon_hash(data, b"MTD_SALT");
    let hash3 = poseidon_hash(data, b"MTD_FRI");

    assert_ne!(hash1, hash2, "MTD_DOMAIN and MTD_SALT produced same hash");
    assert_ne!(hash1, hash3, "MTD_DOMAIN and MTD_FRI produced same hash");
    assert_ne!(hash2, hash3, "MTD_SALT and MTD_FRI produced same hash");
}

#[test]
fn test_append_vs_domain_separation() {
    // Data append vs domain separation: must produce different results
    let base_data = b"base";
    let tag = b"TAG";

    // Method 1: Append tag to data
    {
        let mut combined = Vec::new();
        combined.extend_from_slice(base_data);
        combined.extend_from_slice(tag);
        let hash1 = poseidon_hash(&combined, b"DOMAIN");

        // Method 2: Use tag as domain
        let hash2 = poseidon_hash(base_data, tag);

        // Two methods must produce different hashes
        assert_ne!(
            hash1, hash2,
            "Data append and domain separation produced same hash"
        );
    }
}

#[test]
fn test_empty_domain() {
    // Empty domain must also be handled correctly
    let data = b"test data";

    let hash1 = poseidon_hash(data, b"");
    let hash2 = poseidon_hash(data, b"NON_EMPTY");

    assert_ne!(
        hash1, hash2,
        "Empty domain and non-empty domain produced same hash"
    );
}

#[test]
fn test_avalanche_effect() {
    // 1-bit change must cause many bit changes (Avalanche Effect)
    let data1 = [0u8; 32];
    let mut data2 = [0u8; 32];
    data2[0] = 1; // 1-bit change

    let hash1 = poseidon_hash(&data1, b"test");
    let hash2 = poseidon_hash(&data2, b"test");

    assert_ne!(hash1, hash2);

    // Calculate Hamming distance (number of different bits)
    let mut diff_bits = 0;
    for i in 0..32 {
        diff_bits += (hash1[i] ^ hash2[i]).count_ones();
    }

    // At least 25% of bits must change (25% of 256 bits = 64 bits)
    assert!(
        diff_bits >= 64,
        "Avalanche effect insufficient: only {} bits changed (minimum 64 bits required)",
        diff_bits
    );
}

#[test]
fn test_preimage_resistance() {
    // Given a hash output, it should be computationally infeasible
    // to find any input that produces that output
    let known_hash = poseidon_hash(b"secret_input", b"domain");

    // Try many different inputs - none should produce the same hash
    for i in 0..1000u64 {
        let test_input = i.to_le_bytes();
        let test_hash = poseidon_hash(&test_input, b"domain");
        assert_ne!(test_hash, known_hash, "Preimage found at iteration {}", i);
    }
}

#[test]
fn test_second_preimage_resistance() {
    // Given an input, it should be hard to find a different input
    // that produces the same hash
    let input1 = b"original_message";
    let hash1 = poseidon_hash(input1, b"domain");

    // Similar inputs should not produce the same hash
    let similar_inputs = [
        b"original_messagE".as_slice(),  // 1 char different
        b"Original_message".as_slice(),  // case change
        b"original_message ".as_slice(), // trailing space
        b" original_message".as_slice(), // leading space
        b"original_messag".as_slice(),   // truncated
        b"original_message!".as_slice(), // appended
    ];

    for (i, input2) in similar_inputs.iter().enumerate() {
        let hash2 = poseidon_hash(input2, b"domain");
        assert_ne!(hash1, hash2, "Second preimage found at case {}", i);
    }
}

#[test]
fn test_collision_resistance_extended() {
    // Test that different random inputs produce different hashes

    let mut hashes = BTreeSet::new();

    // Generate 1000 different hashes
    for i in 0..1000u64 {
        let input = i.to_le_bytes();
        let hash = poseidon_hash(&input, b"collision_test");

        // Check no collision
        let hash_vec: Vec<u8> = hash.to_vec();
        assert!(
            hashes.insert(hash_vec),
            "Collision found at iteration {}",
            i
        );
    }

    assert_eq!(hashes.len(), 1000, "Expected 1000 unique hashes");
}

#[test]
fn test_length_extension_resistance() {
    // Sponge construction should resist length extension attacks
    let short_data = b"short";
    let long_data = b"short_with_extension";

    let hash_short = poseidon_hash(short_data, b"domain");
    let hash_long = poseidon_hash(long_data, b"domain");

    // Hashes should be completely unrelated
    assert_ne!(hash_short, hash_long);

    // Check bit difference is significant (not just appended)
    let mut diff_bits = 0;
    for i in 0..32 {
        diff_bits += (hash_short[i] ^ hash_long[i]).count_ones();
    }
    assert!(diff_bits >= 64, "Length extension may be possible: only {} bits differ", diff_bits);
}

#[test]
fn test_diffusion_completeness() {
    // Every output bit should depend on every input bit
    // Test by changing single input bytes and measuring output change
    let base_input = [0u8; 64];
    let base_hash = poseidon_hash(&base_input, b"diffusion");

    let mut total_affected_bytes = [false; 32];

    for byte_pos in 0..64 {
        let mut modified = base_input;
        modified[byte_pos] = 0xFF;

        let modified_hash = poseidon_hash(&modified, b"diffusion");

        for i in 0..32 {
            if base_hash[i] != modified_hash[i] {
                total_affected_bytes[i] = true;
            }
        }
    }

    // All output bytes should be affected by at least one input change
    let affected_count = total_affected_bytes.iter().filter(|&&x| x).count();
    assert!(
        affected_count >= 28, // At least 28/32 bytes affected
        "Diffusion incomplete: only {}/32 output bytes affected",
        affected_count
    );
}

#[test]
fn test_statistical_uniformity() {
    // Hash outputs should be statistically uniform
    let mut byte_sums = [0u64; 32];
    let iterations = 1000u64;

    for i in 0..iterations {
        let input = i.to_le_bytes();
        let hash = poseidon_hash(&input, b"uniformity");

        for (j, &byte) in hash.iter().enumerate() {
            byte_sums[j] += byte as u64;
        }
    }

    // Expected average: 127.5 per byte * 1000 iterations = 127500
    let expected = 127500u64;
    let tolerance = 15000u64; // ~12% tolerance

    for (i, &sum) in byte_sums.iter().enumerate() {
        assert!(
            sum > expected - tolerance && sum < expected + tolerance,
            "Byte {} is statistically biased: sum={}, expected={}Â±{}",
            i, sum, expected, tolerance
        );
    }
}

