use std::collections::HashSet;

use rand::{Rng, SeedableRng};
use rand_chacha::ChaCha8Rng;

use data_analysis_with_rust_book::data::etl::{shorten_census_column_names, RAW_URL};
use data_analysis_with_rust_book::data::synthesise::{synthesise_census_columns, EXPANSION_TIMES};

#[test]
fn census_columns_are_shortened() {
    let cols = shorten_census_column_names();
    assert_eq!(cols.len(), 19);
    assert_eq!(cols[0].source, "resident_id_m");
    assert_eq!(cols[0].alias, "id");
    assert_eq!(cols[3].source, "economic_activity_status_10m");
    assert_eq!(cols[3].alias, "econ");
    assert_eq!(cols[13].source, "region");
    assert_eq!(cols[13].alias, "region");
    assert_eq!(cols[18].source, "usual_short_student");
    assert_eq!(cols[18].alias, "keep_type");
    let aliases: HashSet<&str> = cols.iter().map(|c| c.alias.as_str()).collect();
    assert_eq!(aliases.len(), 19);
}

#[test]
fn raw_url_points_at_ons_sample() {
    assert!(RAW_URL.starts_with("https://www.ons.gov.uk/file?uri="));
    assert!(RAW_URL.ends_with("upload-publicmicrodatateachingsample.csv"));
}

#[test]
fn synthetic_columns_have_height_and_ranges() {
    let (income, weight) = synthesise_census_columns(1000);
    assert_eq!(income.len(), 1000);
    assert_eq!(weight.len(), 1000);
    assert!(income.iter().all(|v| (10_000..=100_000).contains(v)));
    assert!(weight.iter().all(|v| (75..=125).contains(v)));
    assert!(income.iter().any(|v| *v != income[0]));
}

#[test]
fn synthetic_columns_are_reproducible() {
    assert_eq!(synthesise_census_columns(50), synthesise_census_columns(50));
    let (a, b) = synthesise_census_columns(0);
    assert!(a.is_empty() && b.is_empty());
}

#[test]
fn expansion_repeats_one_hundred_times() {
    assert_eq!(EXPANSION_TIMES, 100);
}

#[test]
fn synthetic_columns_follow_the_seeded_stream() {
    let mut rng = ChaCha8Rng::seed_from_u64(1949);
    let income: Vec<i64> = (0..200).map(|_| rng.random_range(10_000..=100_000)).collect();
    let weight: Vec<i64> = (0..200).map(|_| rng.random_range(75..=125)).collect();
    assert_eq!(synthesise_census_columns(200), (income, weight));
}
