use vstd::prelude::*;

verus! {

/// Status code: the call succeeded.
pub const ENGINE_OK: u32 = 0;
/// Status code: the session handle was invalid.
pub const ENGINE_INVALID_HANDLE: u32 = 32;
/// Status code: a memory allocation failed.
pub const ENGINE_MEMORY_ERROR: u32 = 33;
/// Status code: the parameter is not available.
pub const ENGINE_UNSUPPORTED_PARAMETER: u32 = 34;
/// Status code: the configuration is missing or invalid.
pub const ENGINE_INVALID_CONFIG: u32 = 35;
/// Status code: general initialization failure.
pub const ENGINE_INIT_ERROR: u32 = 64;
/// Status code: the compression core failed to initialize.
pub const ENGINE_INIT_AAC_ERROR: u32 = 65;
/// Status code: the bandwidth-extension module failed to initialize.
pub const ENGINE_INIT_SBR_ERROR: u32 = 66;
/// Status code: the transport module failed to initialize.
pub const ENGINE_INIT_TP_ERROR: u32 = 67;
/// Status code: the metadata module failed to initialize.
pub const ENGINE_INIT_META_ERROR: u32 = 68;
/// Status code: the multichannel-extension module failed to initialize.
pub const ENGINE_INIT_MPS_ERROR: u32 = 69;
/// Status code: encoding was interrupted by an unexpected error.
pub const ENGINE_ENCODE_ERROR: u32 = 96;
/// Status code: the engine has reached its logical end of stream.
pub const ENGINE_ENCODE_EOF: u32 = 128;

/// std's `io::Error`, carried opaque inside `EncoderError::Io`; nothing
/// about its contents is relied on.
#[verifier::external_type_specification]
#[verifier::external_body]
pub struct ExIoError(std::io::Error);

/// A failure of an encode session: an I/O failure of the input source or the
/// output sink, or a non-OK status code reported by the engine.
#[derive(Debug)]
pub enum EncoderError {
    Io(std::io::Error),
    FdkAac(u32),
}

/// The fixed human-readable message of an engine status code.
pub open spec fn code_message(code: u32) -> Seq<char> {
    if code == ENGINE_INVALID_HANDLE {
        "Handle passed to function call was invalid."@
    } else if code == ENGINE_MEMORY_ERROR {
        "Memory allocation failed."@
    } else if code == ENGINE_UNSUPPORTED_PARAMETER {
        "Parameter not available."@
    } else if code == ENGINE_INVALID_CONFIG {
        "Configuration not provided."@
    } else if code == ENGINE_INIT_ERROR {
        "General initialization error."@
    } else if code == ENGINE_INIT_AAC_ERROR {
        "AAC library initialization error."@
    } else if code == ENGINE_INIT_SBR_ERROR {
        "SBR library initialization error."@
    } else if code == ENGINE_INIT_TP_ERROR {
        "Transport library initialization error."@
    } else if code == ENGINE_INIT_META_ERROR {
        "Meta data library initialization error."@
    } else if code == ENGINE_INIT_MPS_ERROR {
        "MPS library initialization error."@
    } else if code == ENGINE_ENCODE_ERROR {
        "The encoding process was interrupted by an unexpected error."@
    } else {
        "Unknown error"@
    }
}

impl EncoderError {
    /// The message of this error, as a sequence of characters.
    pub open spec fn message_spec(&self) -> Seq<char> {
        match self {
            EncoderError::Io(_) => "io error"@,
            EncoderError::FdkAac(code) => code_message(*code),
        }
    }

    /// The numeric code kept for diagnostics: the engine's code, or 0 for I/O.
    pub open spec fn code_spec(&self) -> u32 {
        match self {
            EncoderError::Io(_) => 0,
            EncoderError::FdkAac(code) => *code,
        }
    }

    pub fn message(&self) -> (r: &'static str)
        ensures
            r@ == self.message_spec(),
    {
        match self {
            EncoderError::Io(_) => "io error",
            EncoderError::FdkAac(code) => {
                let code = *code;
                if code == ENGINE_INVALID_HANDLE {
                    "Handle passed to function call was invalid."
                } else if code == ENGINE_MEMORY_ERROR {
                    "Memory allocation failed."
                } else if code == ENGINE_UNSUPPORTED_PARAMETER {
                    "Parameter not available."
                } else if code == ENGINE_INVALID_CONFIG {
                    "Configuration not provided."
                } else if code == ENGINE_INIT_ERROR {
                    "General initialization error."
                } else if code == ENGINE_INIT_AAC_ERROR {
                    "AAC library initialization error."
                } else if code == ENGINE_INIT_SBR_ERROR {
                    "SBR library initialization error."
                } else if code == ENGINE_INIT_TP_ERROR {
                    "Transport library initialization error."
                } else if code == ENGINE_INIT_META_ERROR {
                    "Meta data library initialization error."
                } else if code == ENGINE_INIT_MPS_ERROR {
                    "MPS library initialization error."
                } else if code == ENGINE_ENCODE_ERROR {
                    "The encoding process was interrupted by an unexpected error."
                } else {
                    "Unknown error"
                }
            },
        }
    }

    pub fn code(&self) -> (r: u32)
        ensures
            r == self.code_spec(),
    {
        match self {
            EncoderError::Io(_) => 0,
            EncoderError::FdkAac(code) => *code,
        }
    }
}

impl From<std::io::Error> for EncoderError {
    fn from(err: std::io::Error) -> (r: EncoderError)
        ensures
            r == EncoderError::Io(err),
    {
        EncoderError::Io(err)
    }
}

impl vstd::std_specs::convert::FromSpecImpl<std::io::Error> for EncoderError {
    open spec fn obeys_from_spec() -> bool {
        true
    }

    open spec fn from_spec(v: std::io::Error) -> EncoderError {
        EncoderError::Io(v)
    }
}

/// Turns an engine status code into a result: `Ok` exactly for the OK code,
/// otherwise the engine error carrying that code.
pub fn check(code: u32) -> (r: Result<(), EncoderError>)
    ensures
        code == ENGINE_OK <==> r is Ok,
        r matches Err(e) ==> e == EncoderError::FdkAac(code),
{
    if code == ENGINE_OK {
        Ok(())
    } else {
        Err(EncoderError::FdkAac(code))
    }
}

} // verus!
