use fdk_aac::error::{
    check, EncoderError, ENGINE_ENCODE_EOF, ENGINE_ENCODE_ERROR, ENGINE_INIT_AAC_ERROR,
    ENGINE_INIT_ERROR, ENGINE_INIT_META_ERROR, ENGINE_INIT_MPS_ERROR, ENGINE_INIT_SBR_ERROR,
    ENGINE_INIT_TP_ERROR, ENGINE_INVALID_CONFIG, ENGINE_INVALID_HANDLE, ENGINE_MEMORY_ERROR,
    ENGINE_OK, ENGINE_UNSUPPORTED_PARAMETER,
};

#[test]
fn status_codes_match_engine_bindings() {
    assert_eq!(ENGINE_OK, fdk_aac_sys::AACENC_ERROR_AACENC_OK);
    assert_eq!(ENGINE_INVALID_HANDLE, fdk_aac_sys::AACENC_ERROR_AACENC_INVALID_HANDLE);
    assert_eq!(ENGINE_MEMORY_ERROR, fdk_aac_sys::AACENC_ERROR_AACENC_MEMORY_ERROR);
    assert_eq!(ENGINE_UNSUPPORTED_PARAMETER, fdk_aac_sys::AACENC_ERROR_AACENC_UNSUPPORTED_PARAMETER);
    assert_eq!(ENGINE_INVALID_CONFIG, fdk_aac_sys::AACENC_ERROR_AACENC_INVALID_CONFIG);
    assert_eq!(ENGINE_INIT_ERROR, fdk_aac_sys::AACENC_ERROR_AACENC_INIT_ERROR);
    assert_eq!(ENGINE_INIT_AAC_ERROR, fdk_aac_sys::AACENC_ERROR_AACENC_INIT_AAC_ERROR);
    assert_eq!(ENGINE_INIT_SBR_ERROR, fdk_aac_sys::AACENC_ERROR_AACENC_INIT_SBR_ERROR);
    assert_eq!(ENGINE_INIT_TP_ERROR, fdk_aac_sys::AACENC_ERROR_AACENC_INIT_TP_ERROR);
    assert_eq!(ENGINE_INIT_META_ERROR, fdk_aac_sys::AACENC_ERROR_AACENC_INIT_META_ERROR);
    assert_eq!(ENGINE_INIT_MPS_ERROR, fdk_aac_sys::AACENC_ERROR_AACENC_INIT_MPS_ERROR);
    assert_eq!(ENGINE_ENCODE_ERROR, fdk_aac_sys::AACENC_ERROR_AACENC_ENCODE_ERROR);
    assert_eq!(ENGINE_ENCODE_EOF, fdk_aac_sys::AACENC_ERROR_AACENC_ENCODE_EOF);
}

#[test]
fn known_codes_have_fixed_messages() {
    let cases = [
        (32, "Handle passed to function call was invalid."),
        (33, "Memory allocation failed."),
        (34, "Parameter not available."),
        (35, "Configuration not provided."),
        (64, "General initialization error."),
        (65, "AAC library initialization error."),
        (66, "SBR library initialization error."),
        (67, "Transport library initialization error."),
        (68, "Meta data library initialization error."),
        (69, "MPS library initialization error."),
        (96, "The encoding process was interrupted by an unexpected error."),
    ];
    for (code, message) in cases {
        let e = EncoderError::FdkAac(code);
        assert_eq!(e.message(), message);
        assert_eq!(e.code(), code);
    }
}

#[test]
fn unknown_codes_fall_back() {
    for code in [1u32, 31, 36, 70, 97, 128, 0xffff_ffff] {
        let e = EncoderError::FdkAac(code);
        assert_eq!(e.message(), "Unknown error");
        assert_eq!(e.code(), code);
    }
}

#[test]
fn io_errors_are_distinct() {
    let e = EncoderError::from(std::io::Error::new(std::io::ErrorKind::Other, "broken pipe"));
    assert!(matches!(e, EncoderError::Io(_)));
    assert_eq!(e.message(), "io error");
    assert_eq!(e.code(), 0);
}

#[test]
fn check_passes_only_ok() {
    assert!(check(ENGINE_OK).is_ok());
    assert!(matches!(check(ENGINE_INVALID_CONFIG), Err(EncoderError::FdkAac(35))));
    assert!(matches!(check(ENGINE_ENCODE_EOF), Err(EncoderError::FdkAac(128))));
}
