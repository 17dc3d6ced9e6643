use c_kzg::byte_types::Blob;
use c_kzg::cache::{
    ethereum_kzg_settings, ethereum_kzg_settings_arc, ethereum_kzg_settings_inner, SettingsCache,
};
use c_kzg::commitment::KZGCommitment;
use c_kzg::kzg_proof::KZGProof;
use c_kzg::settings::{check_all_g1, check_all_g2, KZGSettings};
use c_kzg::setup_text::parse_trusted_setup;
use c_kzg::{Error, BYTES_PER_BLOB};
use std::sync::Arc;

/// The points of the setup embedded in the engine, compressed.
fn embedded_points() -> (Vec<[u8; 48]>, Vec<[u8; 96]>) {
    let setup = rust_eth_kzg::TrustedSetup::default();
    (
        setup.g1_monomial.iter().map(|p| p.to_compressed()).collect(),
        setup.g2_monomial.iter().map(|p| p.to_compressed()).collect(),
    )
}

fn hex_of(bytes: &[u8]) -> String {
    bytes.iter().map(|b| format!("{:02x}", b)).collect()
}

/// The text of a setup: the two counts, then one point on each line.
fn text_of(g1_monomial: &[[u8; 48]], g1_lagrange: &[[u8; 48]], g2: &[[u8; 96]]) -> String {
    let mut text = String::from("4096\n65\n");
    for p in g1_monomial.iter().chain(g1_lagrange) {
        text.push_str(&hex_of(p));
        text.push('\n');
    }
    for p in g2 {
        text.push_str(&hex_of(p));
        text.push('\n');
    }
    text
}

fn message_of(result: Result<KZGSettings, Error>) -> String {
    match result {
        Err(Error::InvalidTrustedSetup(m)) => m,
        Err(other) => panic!("unexpected {:?}", other),
        Ok(_) => panic!("unexpected success"),
    }
}

fn blob() -> Blob {
    Blob::from_bytes(&vec![1u8; BYTES_PER_BLOB]).unwrap()
}

#[test]
fn compare_default_with_file() {
    let precompute = 0;
    // The contents of the file are written out here from the points of the
    // default setup. The list that stands for the Lagrange points only has
    // to hold points that decode, which the monomial points do.
    let (g1, g2) = embedded_points();
    let text = text_of(&g1, &g1, &g2);
    let ts_settings = KZGSettings::load_trusted_setup_text(text.as_bytes(), precompute).unwrap();
    let mut cache = SettingsCache::new();
    let eth_settings = ethereum_kzg_settings(&mut cache, precompute);
    let blob = blob();

    // generate commitment
    let ts_commitment =
        KZGCommitment::blob_to_kzg_commitment(blob.clone(), &ts_settings).unwrap().to_bytes();
    let eth_commitment =
        KZGCommitment::blob_to_kzg_commitment(blob.clone(), eth_settings).unwrap().to_bytes();
    assert_eq!(ts_commitment, eth_commitment);

    // generate proof
    let ts_proof = KZGProof::compute_blob_kzg_proof(blob.clone(), ts_commitment, &ts_settings)
        .unwrap()
        .to_bytes();
    let eth_proof = KZGProof::compute_blob_kzg_proof(blob.clone(), eth_commitment, eth_settings)
        .unwrap()
        .to_bytes();
    assert_eq!(ts_proof, eth_proof);
}

#[test]
fn loading_points_gives_working_settings() {
    let (g1, g2) = embedded_points();
    let settings = KZGSettings::load_trusted_setup(g1.clone(), g1.clone(), g2.clone(), 0).unwrap();
    assert_eq!(settings.precompute(), 0);
    let blob = blob();
    let commitment =
        KZGCommitment::blob_to_kzg_commitment(blob.clone(), &settings).unwrap().to_bytes();
    let proof =
        KZGProof::compute_blob_kzg_proof(blob.clone(), commitment, &settings).unwrap().to_bytes();
    assert!(KZGProof::verify_blob_kzg_proof(blob.clone(), commitment, proof, &settings).unwrap());

    // Other points give other commitments: the settings hold what was loaded.
    let mut swapped = g1.clone();
    swapped.swap(0, 1);
    let other = KZGSettings::load_trusted_setup(swapped, g1.clone(), g2.clone(), 0).unwrap();
    let mut bytes = vec![0u8; BYTES_PER_BLOB];
    bytes[32 + 31] = 1;
    let unit = Blob::from_bytes(&bytes).unwrap();
    let a = KZGCommitment::blob_to_kzg_commitment(unit.clone(), &settings).unwrap();
    let b = KZGCommitment::blob_to_kzg_commitment(unit, &other).unwrap();
    assert_ne!(a, b);
}

/// Cells and proofs of the embedded setup, computed with and without tables
/// of the given level.
fn with_and_without_tables(level: u64) {
    let mut cache = SettingsCache::new();
    let plain = ethereum_kzg_settings_arc(&mut cache, 0);
    let tabled = ethereum_kzg_settings_arc(&mut cache, level);
    assert_eq!(plain.precompute(), 0);
    assert_eq!(tabled.precompute(), level);
    let blob = blob();
    let a = c_kzg::byte_types::Cell::compute_cells_and_kzg_proofs(&blob, &plain).unwrap();
    let b = c_kzg::byte_types::Cell::compute_cells_and_kzg_proofs(&blob, &tabled).unwrap();
    assert_eq!(a, b);
    // The zero blob, where every scalar of the table arithmetic is zero.
    let zero = Blob::from_bytes(&vec![0u8; BYTES_PER_BLOB]).unwrap();
    let (cells, proofs) =
        c_kzg::byte_types::Cell::compute_cells_and_kzg_proofs(&zero, &tabled).unwrap();
    let mut infinity = [0u8; 48];
    infinity[0] = 0xc0;
    assert!(cells.iter().all(|c| c.as_slice().iter().all(|b| *b == 0)));
    assert!(proofs.iter().all(|p| p.to_bytes().into_inner() == infinity));
}

#[test]
fn smallest_precompute_level_changes_nothing_but_speed() {
    with_and_without_tables(1);
}

#[test]
fn higher_precompute_level_changes_nothing_but_speed() {
    with_and_without_tables(4);
}

#[test]
fn loaded_settings_record_their_level() {
    let (g1, g2) = embedded_points();
    let settings = KZGSettings::load_trusted_setup(g1.clone(), g1, g2, 15).unwrap();
    assert_eq!(settings.precompute(), 15);
    let blob = blob();
    let cells = c_kzg::byte_types::Cell::compute_cells_and_kzg_proofs(&blob, &settings).unwrap();
    let mut cache = SettingsCache::new();
    let reference = ethereum_kzg_settings_arc(&mut cache, 0);
    let expected =
        c_kzg::byte_types::Cell::compute_cells_and_kzg_proofs(&blob, &reference).unwrap();
    assert_eq!(cells, expected);
}

/// Cells are computed and recovered without trouble on a setup whose G1
/// points are all the same point.
fn cells_on_a_setup_of_one_point(point: [u8; 48], level: u64) {
    let (_, g2) = embedded_points();
    let g1 = vec![point; 4096];
    let settings = KZGSettings::load_trusted_setup(g1.clone(), g1, g2, level).unwrap();
    let blob = blob();
    let (cells, proofs) =
        c_kzg::byte_types::Cell::compute_cells_and_kzg_proofs(&blob, &settings).unwrap();
    assert_eq!(cells.len(), 128);
    assert_eq!(proofs.len(), 128);
    let indices: Vec<u64> = (64..128).collect();
    let (recovered, again) = c_kzg::byte_types::Cell::recover_cells_and_kzg_proofs(
        &indices,
        &cells[64..],
        &settings,
    )
    .unwrap();
    assert_eq!(recovered, cells);
    assert_eq!(again, proofs);
}

#[test]
fn a_setup_of_points_at_infinity_is_no_trouble() {
    let mut infinity = [0u8; 48];
    infinity[0] = 0xc0;
    cells_on_a_setup_of_one_point(infinity, 1);
}

#[test]
fn a_setup_of_equal_points_is_no_trouble() {
    let (g1, _) = embedded_points();
    cells_on_a_setup_of_one_point(g1[1], 1);
}

#[test]
fn wrong_counts_are_reported_with_both_numbers() {
    let (g1, g2) = embedded_points();
    assert_eq!(
        message_of(KZGSettings::load_trusted_setup(g1[..4095].to_vec(), g1.clone(), g2.clone(), 0)),
        "Invalid number of g1 points in trusted setup. Expected 4096 got 4095"
    );
    assert_eq!(
        message_of(KZGSettings::load_trusted_setup(g1.clone(), vec![], g2.clone(), 0)),
        "Invalid number of g1 lagrange points in trusted setup. Expected 4096 got 0"
    );
    let mut more = g2.clone();
    more.push(g2[0]);
    assert_eq!(
        message_of(KZGSettings::load_trusted_setup(g1.clone(), g1.clone(), more, 0)),
        "Invalid number of g2 points in trusted setup. Expected 65 got 66"
    );
}

#[test]
fn bad_points_and_levels_are_refused() {
    let (g1, g2) = embedded_points();
    assert!(check_all_g1(&g1));
    assert!(check_all_g2(&g2));
    assert!(check_all_g1(&vec![]));
    assert!(!check_all_g1(&vec![g1[0], [1u8; 48]]));
    assert!(!check_all_g2(&vec![[1u8; 96], g2[0]]));
    assert_eq!(
        message_of(KZGSettings::load_trusted_setup(g1.clone(), g1.clone(), g2.clone(), 16)),
        "Invalid trusted setup: C_KZG_BADARGS"
    );
    let mut bad = g1.clone();
    bad[4095] = [1u8; 48];
    assert_eq!(
        message_of(KZGSettings::load_trusted_setup(bad.clone(), g1.clone(), g2.clone(), 0)),
        "Invalid trusted setup: C_KZG_BADARGS"
    );
    assert_eq!(
        message_of(KZGSettings::load_trusted_setup(g1.clone(), bad, g2.clone(), 0)),
        "Invalid trusted setup: C_KZG_BADARGS"
    );
    let mut bad = g2.clone();
    bad[64] = [1u8; 96];
    assert_eq!(
        message_of(KZGSettings::load_trusted_setup(g1.clone(), g1.clone(), bad, 0)),
        "Invalid trusted setup: C_KZG_BADARGS"
    );
}

#[test]
fn text_of_a_setup_is_read_value_by_value() {
    let (g1, g2) = embedded_points();
    let mut lagrange = g1.clone();
    lagrange.reverse();
    let text = text_of(&g1, &lagrange, &g2);
    let (a, b, c) = parse_trusted_setup(text.as_bytes()).unwrap();
    assert_eq!(a, g1);
    assert_eq!(b, lagrange);
    assert_eq!(c, g2);

    // Any white space separates, digits may be upper case, zeros may lead.
    let spaced = text.replacen("4096\n65\n", "  004096 \t065\r\n\n", 1).to_uppercase();
    let (a, b, c) = parse_trusted_setup(spaced.as_bytes()).unwrap();
    assert_eq!((a, b, c), (g1.clone(), lagrange.clone(), g2.clone()));
    let one_line = text.replace('\n', " ");
    assert!(parse_trusted_setup(one_line.as_bytes()).is_some());
}

#[test]
fn text_that_is_no_setup_is_refused() {
    let (g1, g2) = embedded_points();
    let text = text_of(&g1, &g1, &g2);
    assert!(parse_trusted_setup(b"").is_none());
    assert!(parse_trusted_setup(b"4096\n65\n").is_none());
    // Wrong counts in the header.
    assert!(parse_trusted_setup(text.replacen("4096", "4097", 1).as_bytes()).is_none());
    assert!(parse_trusted_setup(text.replacen("65", "64", 1).as_bytes()).is_none());
    assert!(parse_trusted_setup(text.replacen("4096", "0x1000", 1).as_bytes()).is_none());
    assert!(parse_trusted_setup(text.replacen("4096", "+4096", 1).as_bytes()).is_none());
    assert!(parse_trusted_setup(
        text.replacen("4096", "99999999999999999999999999999999999994096", 1).as_bytes()
    )
    .is_none());
    // A value too many, a value too few.
    assert!(parse_trusted_setup(format!("{}00\n", text).as_bytes()).is_none());
    let cut = &text[..text.len() - 193];
    assert!(parse_trusted_setup(cut.as_bytes()).is_none());
    // A point with a digit missing, and one with a letter that is no digit.
    let first_point = hex_of(&g1[0]);
    assert!(parse_trusted_setup(text.replacen(&first_point, &first_point[1..], 1).as_bytes())
        .is_none());
    let mut broken = first_point.clone();
    broken.replace_range(10..11, "g");
    assert!(parse_trusted_setup(text.replacen(&first_point, &broken, 1).as_bytes()).is_none());

    assert_eq!(
        message_of(KZGSettings::load_trusted_setup_text(b"4096 65", 0)),
        "Invalid trusted setup: C_KZG_BADARGS"
    );
    // Well-formed text whose level is out of range.
    assert_eq!(
        message_of(KZGSettings::load_trusted_setup_text(text.as_bytes(), 16)),
        "Invalid trusted setup: C_KZG_BADARGS"
    );
}

#[test]
fn cache_loads_each_level_once() {
    let mut cache = SettingsCache::new();
    assert!(!cache.is_loaded(0));
    assert!(!cache.is_loaded(16));
    let first = ethereum_kzg_settings_arc(&mut cache, 0);
    assert!(cache.is_loaded(0));
    assert!(!cache.is_loaded(1));
    let second = ethereum_kzg_settings_inner(&mut cache, 0);
    assert!(Arc::ptr_eq(&first, &second));
    assert_eq!(first.precompute(), 0);
    let borrowed = ethereum_kzg_settings(&mut cache, 0);
    assert!(std::ptr::eq(borrowed, &*first));

    let other = ethereum_kzg_settings_arc(&mut cache, 1);
    assert_eq!(other.precompute(), 1);
    assert!(cache.is_loaded(1));
    assert!(cache.is_loaded(0));
    assert!(!Arc::ptr_eq(&first, &other));
    let again = ethereum_kzg_settings_arc(&mut cache, 0);
    assert!(Arc::ptr_eq(&first, &again));
}
