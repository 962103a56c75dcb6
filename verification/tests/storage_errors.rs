use vaulty_mail::address::Address;
use vaulty_mail::dropbox;
use vaulty_mail::storage::{Backend, StorageError};

#[test]
fn backend_is_selected_by_name() {
    assert_eq!(Backend::from_name("dropbox"), Backend::Dropbox);
    assert_eq!(Backend::from_name("Dropbox"), Backend::Unsupported);
    assert_eq!(Backend::from_name(""), Backend::Unsupported);
    assert_eq!(Backend::from_name("s3"), Backend::Unsupported);
}

#[test]
fn dropbox_errors_map_onto_common_errors() {
    assert_eq!(StorageError::from_dropbox(dropbox::Error::BadInput), StorageError::BadInput);
    assert_eq!(
        StorageError::from_dropbox(dropbox::Error::TokenExpired),
        StorageError::InvalidCredential
    );
    assert_eq!(StorageError::from_dropbox(dropbox::Error::Endpoint), StorageError::PathConflict);
    assert_eq!(
        StorageError::from_dropbox(dropbox::Error::RateLimited),
        StorageError::RateLimited
    );
    assert_eq!(
        StorageError::from_dropbox(dropbox::Error::Internal(503)),
        StorageError::ProviderFault(503)
    );
}

#[test]
fn transient_errors_are_those_worth_retrying() {
    assert!(StorageError::RateLimited.is_transient());
    assert!(StorageError::ProviderFault(500).is_transient());
    assert!(StorageError::PayloadInterrupted.is_transient());
    assert!(!StorageError::BadInput.is_transient());
    assert!(!StorageError::InvalidCredential.is_transient());
    assert!(!StorageError::PathConflict.is_transient());
    assert!(!StorageError::UnsupportedBackend.is_transient());
}

#[test]
fn storage_errors_describe_themselves() {
    assert_eq!(StorageError::BadInput.describe(), "storage rejected the request");
    assert_eq!(
        StorageError::InvalidCredential.describe(),
        "storage credential is expired or invalid"
    );
    assert_eq!(StorageError::PathConflict.describe(), "storage path conflict");
    assert_eq!(StorageError::RateLimited.describe(), "storage rate limit reached");
    assert_eq!(
        StorageError::ProviderFault(503).describe(),
        "storage provider fault, status 503"
    );
    assert_eq!(
        StorageError::PayloadInterrupted.describe(),
        "attachment payload was interrupted"
    );
    assert_eq!(StorageError::UnsupportedBackend.describe(), "storage backend is not supported");
}

fn address(max_email_size: i32, quota: i32, received: i32) -> Address {
    Address {
        address: "b@x".to_string(),
        user_id: 1,
        max_email_size,
        quota,
        received,
        storage_token: "t".to_string(),
        storage_backend: Backend::Dropbox,
        storage_path: "/vault".to_string(),
        last_renewal_time: 0,
    }
}

#[test]
fn size_limit_is_exclusive() {
    let a = address(1000, 5, 0);
    assert!(!a.size_exceeded(999));
    assert!(!a.size_exceeded(1000));
    assert!(a.size_exceeded(1001));
    assert!(a.size_exceeded(usize::MAX));
    assert!(!address(0, 5, 0).size_exceeded(0));
    assert!(address(0, 5, 0).size_exceeded(1));
    assert!(address(-1, 5, 0).size_exceeded(0));
}

#[test]
fn quota_counts_the_email_at_hand() {
    assert!(!address(1000, 5, 0).quota_exceeded());
    assert!(!address(1000, 5, 4).quota_exceeded());
    assert!(address(1000, 5, 5).quota_exceeded());
    assert!(address(1000, 5, 6).quota_exceeded());
    assert!(address(1000, 0, 0).quota_exceeded());
    assert!(address(1000, i32::MAX, i32::MAX).quota_exceeded());
    assert!(!address(1000, i32::MAX, i32::MAX - 1).quota_exceeded());
}

#[test]
fn address_clone_keeps_every_field() {
    let a = address(1000, 5, 2);
    assert_eq!(a.clone(), a);
}
