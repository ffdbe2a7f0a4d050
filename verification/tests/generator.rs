use request_id::generator::generate;
use std::collections::HashSet;

#[test]
fn generated_id_is_ten_alphanumeric_chars() {
    for _ in 0..100 {
        let id = generate();
        assert_eq!(id.0.len(), 10);
        assert!(id.0.chars().all(|c| c.is_ascii_alphanumeric()));
    }
}

#[test]
fn generated_ids_are_pairwise_distinct_in_a_large_sample() {
    let mut seen: HashSet<String> = HashSet::new();
    for _ in 0..10_000 {
        let id = generate();
        assert!(seen.insert(id.0), "duplicate identifier in a sample of 10000");
    }
    assert_eq!(seen.len(), 10_000);
}
