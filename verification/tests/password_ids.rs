use ferre_pos::ids::{current_timestamp_string, format_uuid_like, generate_uuid_like};
use ferre_pos::password::{hash_password, is_bcrypt_hash, verify_password_and_migrate, PasswordCheck};

#[test]
fn bcrypt_markers() {
    assert!(is_bcrypt_hash("$2b$12$abc"));
    assert!(is_bcrypt_hash("$2a$04$x"));
    assert!(is_bcrypt_hash("$2y$10$x"));
    assert!(!is_bcrypt_hash("$2x$10$x"));
    assert!(!is_bcrypt_hash("1234"));
}

#[test]
fn plain_text_passwords_are_upgraded_and_then_verified() {
    match verify_password_and_migrate("1234", "1234").unwrap() {
        PasswordCheck::AcceptedWithNewHash(h) => {
            assert!(h.starts_with("$2b$12$"));
            assert!(is_bcrypt_hash(&h));
            assert!(matches!(verify_password_and_migrate("1234", &h).unwrap(), PasswordCheck::Accepted));
            assert!(matches!(verify_password_and_migrate("9999", &h).unwrap(), PasswordCheck::Rejected));
        }
        other => panic!("{other:?}"),
    }
    assert!(matches!(verify_password_and_migrate("1234", "abcd").unwrap(), PasswordCheck::Rejected));
}

#[test]
fn broken_hashes_are_crypto_errors() {
    let r = verify_password_and_migrate("1234", "$2b$12$short");
    assert!(matches!(r, Err(ferre_pos::error::AppError::Crypto(_))));
}

#[test]
fn uuid_like_layout() {
    assert_eq!(format_uuid_like(0), "00000000-0000-4000-a000-000000000000");
    let n: u128 = 0x0123_4567_89ab_cdef_0011_2233_4455_6677;
    // low 32 bits, next 16, then 12-bit fields at 48 and 60, then 48 bits at 72.
    assert_eq!(format_uuid_like(n), "44556677-2233-4011-aef0-23456789abcd");
    let g = generate_uuid_like();
    assert_eq!(g.len(), 36);
    assert_eq!(&g[14..15], "4");
    assert_eq!(&g[19..20], "a");
    let ts = current_timestamp_string();
    assert!(ts.parse::<u64>().unwrap() > 1_600_000_000);
}

#[test]
fn a_stored_hash_accepts_its_password() {
    let h = hash_password("s3creto").unwrap();
    assert!(is_bcrypt_hash(&h));
    assert!(h.starts_with("$2b$12$"));
    assert!(matches!(verify_password_and_migrate("s3creto", &h).unwrap(), PasswordCheck::Accepted));
    assert!(matches!(verify_password_and_migrate("otro", &h).unwrap(), PasswordCheck::Rejected));
}

#[test]
fn an_upgraded_password_is_accepted_next_time() {
    match verify_password_and_migrate("pin-77", "pin-77").unwrap() {
        PasswordCheck::AcceptedWithNewHash(h) => {
            assert!(h.starts_with("$2b$12$"));
            assert!(matches!(verify_password_and_migrate("pin-77", &h).unwrap(), PasswordCheck::Accepted));
        }
        _ => panic!("a plain-text record must be upgraded"),
    }
}
