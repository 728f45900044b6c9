use bitwarden_pin::brute_force_pin;
use bitwarden_pin::CrackError;
use bitwarden_pin::KDFConfig;

const EMAIL: &str = "tenire3448@fashlend.com";

const PBKDF2_BLOB: &str = "2.P6TpPPpMf5zkHUfTplnocw==|KZ7/pR8ft+LwcjfXs2ym9hmxE7DLIeA9Kl+IPwTVCwLmbpkFtYKPWvK53DEDDrVUeYvz/rPcl3MEH3wXl200HCsV5ZbGLGVU4bha5Aw20fk=|+Y46Za3Oo63XRbvqLFz5cVuvbqMvBqopD16+8HV83mk=";

fn pin_range(from: usize, to: usize) -> Vec<String> {
    (from..to).map(|pin| format!("{pin:04}")).collect()
}

#[test]
fn memory_pbkdf2_600000() {
    let encrypted = PBKDF2_BLOB;
    let kdf_config = KDFConfig::Pbkdf2 { iterations: 600000 };

    // small range to speed up tests
    let pins = pin_range(1330, 1340);

    assert_eq!(
        brute_force_pin(encrypted, EMAIL, kdf_config, pins, None),
        Ok(Some("1337".to_string()))
    );
}

#[test]
fn disk_pbkdf2_600000() {
    let encrypted = "2.AVcSzI6mgEA9a2oKtV9WOw==|mSLNpc7qoZFnwnoGnL08N1eDiauYM5VRnr0QSZ134cjR6xgVYD7JjAkmsXDmVNP6lL1lB2fOq7uFTynIqNdA41ZUCj6KoceIz4edGrLi8TY=|UgXNesoPaz0gup17dfw6pqQsab8rtAHb6MvFDrrjSAY=";
    let kdf_config = KDFConfig::Pbkdf2 { iterations: 600000 };

    let pins = pin_range(1330, 1340);

    assert_eq!(
        brute_force_pin(encrypted, EMAIL, kdf_config, pins, None),
        Ok(Some("1337".to_string()))
    );
}

#[test]
fn memory_argon2_64_3_4() {
    let encrypted = "2.GcLsRNPIwGWG+Q7X+KspXw==|tgn2oSFE6uXzlJzJ6rFBfqmlMjVaFVTe/weQRwBXF+BLlh8g5aE7VTw4yd5H3+j4f+YMGMiVTsHmphHdwrbKifmjkxcf35KPYJ93O6Zp4T0=|Im0X4t25NP+lf3oFo1Dp2ag1pc3eQwrRuEu9a5ecvVM=";
    let kdf_config = KDFConfig::Argon2 { memory: 64, iterations: 3, parallelism: 4 };

    let pins = pin_range(1330, 1340);

    assert_eq!(
        brute_force_pin(encrypted, EMAIL, kdf_config, pins, None),
        Ok(Some("1337".to_string()))
    );
}

#[test]
fn disk_argon2_64_3_4() {
    let encrypted = "2.FA4aPsq/5jKajc8tGqYKaQ==|CO/t9f1EQ4O5LL6O1anBAd1/4Hb+l4I32UMlW+3O7CoxTRXlEuLK5xvDCFmeRCYmylt206B22roFXycaRG3Z9fnN1aVVbBJ59qfCDEGusHw=|vmWmAb9kfqPPljRNhDMe+fDlwwat8XN5BZSsMAH8p8w=";
    let kdf_config = KDFConfig::Argon2 { memory: 64, iterations: 3, parallelism: 4 };

    let pins = pin_range(1330, 1340);

    assert_eq!(
        brute_force_pin(encrypted, EMAIL, kdf_config, pins, None),
        Ok(Some("1337".to_string()))
    );
}

#[test]
fn unique_match_found_for_any_worker_count() {
    let kdf_config = KDFConfig::Pbkdf2 { iterations: 600000 };
    for workers in [1usize, 2, 4] {
        let pool = rayon::ThreadPoolBuilder::new().num_threads(workers).build().unwrap();
        let found = pool.install(|| {
            brute_force_pin(PBKDF2_BLOB, EMAIL, kdf_config, vec!["1337".to_string()], Some(1))
        });
        assert_eq!(found, Ok(Some("1337".to_string())));
    }
}

#[test]
fn unique_match_found_in_reversed_order() {
    let kdf_config = KDFConfig::Pbkdf2 { iterations: 600000 };
    let pins = vec!["1338".to_string(), "1337".to_string(), "1336".to_string()];
    assert_eq!(
        brute_force_pin(PBKDF2_BLOB, EMAIL, kdf_config, pins, None),
        Ok(Some("1337".to_string()))
    );
}

#[test]
fn exhausted_range_returns_none() {
    let kdf_config = KDFConfig::Pbkdf2 { iterations: 600000 };
    let pins = vec!["0000".to_string(), "0001".to_string()];
    assert_eq!(brute_force_pin(PBKDF2_BLOB, EMAIL, kdf_config, pins, None), Ok(None));
}

#[test]
fn empty_sequence_returns_none() {
    let kdf_config = KDFConfig::Pbkdf2 { iterations: 600000 };
    assert_eq!(brute_force_pin(PBKDF2_BLOB, EMAIL, kdf_config, Vec::new(), None), Ok(None));
}

#[test]
fn malformed_blob_fails_before_search() {
    let kdf_config = KDFConfig::Pbkdf2 { iterations: 600000 };
    assert_eq!(
        brute_force_pin("no separators here", EMAIL, kdf_config, vec!["1337".to_string()], None),
        Err(CrackError::Format)
    );
}

#[test]
fn invalid_argon2_config_fails_before_search() {
    let kdf_config = KDFConfig::Argon2 { memory: 0, iterations: 3, parallelism: 4 };
    assert_eq!(
        brute_force_pin(PBKDF2_BLOB, EMAIL, kdf_config, vec!["1337".to_string()], None),
        Err(CrackError::Config)
    );
}
