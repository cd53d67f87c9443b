use aisland::weights::db_reads;
use aisland::weights::db_writes;
use aisland::weights::SubstrateWeight;
use aisland::weights::Weight;
use aisland::weights::WeightInfo;

#[test]
fn weight_arithmetic() {
    let a = Weight::from_parts(3, 10);
    let b = Weight::from_parts(4, 20);
    assert_eq!(a.saturating_add(b), Weight { ref_time: 7, proof_size: 30 });
    let big = Weight::from_parts(u64::MAX, 0);
    assert_eq!(
        big.saturating_add(Weight::from_parts(1, 1)),
        Weight { ref_time: u64::MAX, proof_size: 1 }
    );
    assert_eq!(db_reads(2), Weight { ref_time: 50_000_000, proof_size: 0 });
    assert_eq!(db_writes(1), Weight { ref_time: 100_000_000, proof_size: 0 });
}

#[test]
fn operation_weights_exact_values() {
    assert_eq!(
        SubstrateWeight::new_document(),
        Weight { ref_time: 129_000_000, proof_size: 3471 }
    );
    assert_eq!(
        SubstrateWeight::destroy_document(),
        Weight { ref_time: 131_000_000, proof_size: 3631 }
    );
    assert_eq!(
        SubstrateWeight::sign_document(),
        Weight { ref_time: 129_000_000, proof_size: 3471 }
    );
    assert_eq!(
        SubstrateWeight::store_publickey(),
        Weight { ref_time: 129_000_000, proof_size: 3471 }
    );
    assert_eq!(
        SubstrateWeight::new_blob(),
        Weight { ref_time: 130_000_000, proof_size: 3471 }
    );
    assert_eq!(
        SubstrateWeight::destroy_blob(),
        Weight { ref_time: 159_000_000, proof_size: 13588 }
    );
}
