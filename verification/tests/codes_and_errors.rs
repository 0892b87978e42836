use wolfssl_async::codes::{
    ASN_AFTER_DATE_E, ASN_BEFORE_DATE_E, ASN_INPUT_E, BAD_MUTEX_E, BAD_PATH_ERROR, BUFFER_E,
    MEMORY_E, WC_INIT_E, WOLFSSL_BAD_FILE, WOLFSSL_BAD_FILETYPE, WOLFSSL_ERROR_WANT_READ,
    WOLFSSL_ERROR_WANT_WRITE, WOLFSSL_FAILURE, WOLFSSL_SUCCESS,
};
use wolfssl_async::engine::{interpret_engine_return, wolf_cleanup, wolf_init, EngineStatus};
use wolfssl_async::errors::{
    AdapterError, FatalKind, LoadRootCertificateError, WolfCleanupError, WolfInitError,
};
use wolfssl_async::ssl::{cleanup, init, CleanupError, InitError};

#[test]
fn init_cleanup() {
    init(WOLFSSL_SUCCESS).unwrap();
    cleanup(WOLFSSL_SUCCESS).unwrap();
}

#[test]
fn init_wolfssl() {
    let res = init(WOLFSSL_SUCCESS);
    assert_eq!(res, Ok(()));
}

#[test]
fn init_classifies_each_documented_code() {
    assert_eq!(init(WOLFSSL_SUCCESS), Ok(()));
    assert_eq!(init(BAD_MUTEX_E), Err(InitError::Mutex));
    assert_eq!(init(WC_INIT_E), Err(InitError::WolfCrypt));
}

#[test]
fn cleanup_classifies_each_documented_code() {
    assert_eq!(cleanup(WOLFSSL_SUCCESS), Ok(()));
    assert_eq!(cleanup(BAD_MUTEX_E), Err(CleanupError::Mutex));
}

#[test]
fn wolf_init_test() {
    wolf_init(WOLFSSL_SUCCESS).unwrap();
    assert_eq!(wolf_init(BAD_MUTEX_E), Err(WolfInitError::Mutex));
    assert_eq!(wolf_init(WC_INIT_E), Err(WolfInitError::WolfCrypt));
}

#[test]
fn wolf_cleanup_test() {
    wolf_cleanup(WOLFSSL_SUCCESS).unwrap();
    assert_eq!(wolf_cleanup(BAD_MUTEX_E), Err(WolfCleanupError::Mutex));
}

#[test]
fn load_root_certificate_error_classifies_each_documented_code() {
    assert_eq!(
        LoadRootCertificateError::from(WOLFSSL_BAD_FILETYPE),
        LoadRootCertificateError::BadFiletype
    );
    assert_eq!(
        LoadRootCertificateError::from(WOLFSSL_BAD_FILE),
        LoadRootCertificateError::BadFile
    );
    assert_eq!(
        LoadRootCertificateError::from(MEMORY_E),
        LoadRootCertificateError::Memory
    );
    assert_eq!(
        LoadRootCertificateError::from(ASN_INPUT_E),
        LoadRootCertificateError::AsnInput
    );
    assert_eq!(
        LoadRootCertificateError::from(BUFFER_E),
        LoadRootCertificateError::Buffer
    );
    assert_eq!(
        LoadRootCertificateError::from(WOLFSSL_FAILURE),
        LoadRootCertificateError::Failure
    );
    assert_eq!(
        LoadRootCertificateError::from(ASN_AFTER_DATE_E),
        LoadRootCertificateError::AsnAfterDate
    );
    assert_eq!(
        LoadRootCertificateError::from(ASN_BEFORE_DATE_E),
        LoadRootCertificateError::AsnBeforeDate
    );
    assert_eq!(
        LoadRootCertificateError::from(BAD_PATH_ERROR),
        LoadRootCertificateError::Path
    );
}

#[test]
fn load_root_certificate_error_keeps_undocumented_codes() {
    assert_eq!(
        LoadRootCertificateError::from(-12345),
        LoadRootCertificateError::Other(-12345)
    );
}

#[test]
fn positive_engine_return_is_a_byte_count() {
    assert_eq!(interpret_engine_return(42, 0), EngineStatus::Done(42));
    assert_eq!(
        interpret_engine_return(1, WOLFSSL_ERROR_WANT_READ),
        EngineStatus::Done(1)
    );
}

#[test]
fn want_read_and_want_write_are_transient() {
    assert_eq!(
        interpret_engine_return(-1, WOLFSSL_ERROR_WANT_READ),
        EngineStatus::WouldBlock
    );
    assert_eq!(
        interpret_engine_return(0, WOLFSSL_ERROR_WANT_WRITE),
        EngineStatus::WouldBlock
    );
}

#[test]
fn other_engine_codes_are_fatal_and_keep_the_code() {
    assert_eq!(
        interpret_engine_return(-1, -155),
        EngineStatus::Fatal(-155)
    );
    assert_eq!(interpret_engine_return(0, 0), EngineStatus::Fatal(0));
}

#[test]
fn fatal_kind_maps_to_the_matching_error() {
    assert_eq!(
        FatalKind::Transport(104).to_error(),
        AdapterError::Transport(104)
    );
    assert_eq!(
        FatalKind::Protocol(-155).to_error(),
        AdapterError::Protocol(-155)
    );
}
