//! The pin verifier: exact byte equality is the whole trust decision.

use secure_tcp_gender_changer::identity::{Identity, KeyMaterial};
use secure_tcp_gender_changer::pin::{SingleCertVerifier, VerifyError};

#[test]
fn accepts_the_exact_pinned_reference() {
    let pinned = Identity::new(vec![0x30, 0x82, 0x01, 0x0a, 0xff]);
    let v = SingleCertVerifier::new(pinned);
    let presented = Identity::new(vec![0x30, 0x82, 0x01, 0x0a, 0xff]);
    assert!(v.verify_client_cert(&presented, &Vec::new()).is_ok());
    assert!(v
        .verify_server_cert(&presented, &Vec::new(), &Vec::new(), &Vec::new())
        .is_ok());
}

#[test]
fn rejects_a_single_byte_difference() {
    let pinned = Identity::new(vec![0x30, 0x82, 0x01, 0x0a, 0xff]);
    let v = SingleCertVerifier::new(pinned);
    // Differs from the pinned reference in exactly one byte.
    let presented = Identity::new(vec![0x30, 0x82, 0x01, 0x0b, 0xff]);
    let r = v.verify_client_cert(&presented, &Vec::new());
    assert!(matches!(r, Err(VerifyError::ApplicationVerificationFailure)));
    let r = v.verify_server_cert(&presented, &Vec::new(), &Vec::new(), &Vec::new());
    assert!(matches!(r, Err(VerifyError::ApplicationVerificationFailure)));
}

#[test]
fn rejects_a_length_difference() {
    let pinned = Identity::new(vec![1, 2, 3]);
    let v = SingleCertVerifier::new(pinned);
    assert!(v.verify_client_cert(&Identity::new(vec![1, 2]), &Vec::new()).is_err());
    assert!(v.verify_client_cert(&Identity::new(vec![1, 2, 3, 4]), &Vec::new()).is_err());
    assert!(v.verify_client_cert(&Identity::new(vec![]), &Vec::new()).is_err());
}

#[test]
fn intermediates_play_no_part() {
    let pinned = Identity::new(vec![9, 9, 9]);
    let v = SingleCertVerifier::new(pinned);
    let unrelated = vec![Identity::new(vec![1]), Identity::new(vec![2, 3])];
    assert!(v.verify_client_cert(&Identity::new(vec![9, 9, 9]), &unrelated).is_ok());
    let mismatched = vec![Identity::new(vec![9, 9, 9])];
    // A pinned certificate among the intermediates does not rescue a
    // mismatched end entity.
    assert!(v.verify_client_cert(&Identity::new(vec![8]), &mismatched).is_err());
}

#[test]
fn advertises_one_empty_issuer_name() {
    let v = SingleCertVerifier::new(Identity::new(vec![5, 5]));
    let names = v.client_auth_root_subjects();
    assert_eq!(names.len(), 1);
    assert!(names[0].is_empty());
}

#[test]
fn key_material_keeps_the_bytes_as_given() {
    let k = KeyMaterial::new(vec![0x02, 0x01, 0x00]);
    assert_eq!(k.key_der, vec![0x02, 0x01, 0x00]);
}

#[test]
fn identity_equality_is_byte_equality() {
    let a = Identity::new(vec![1, 2, 3]);
    let b = Identity::new(vec![1, 2, 3]);
    let c = Identity::new(vec![1, 2, 4]);
    assert!(a.same_bytes(&b));
    assert!(b.same_bytes(&a));
    assert!(!a.same_bytes(&c));
    let d = a.duplicate();
    assert!(a.same_bytes(&d));
}
