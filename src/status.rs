use vstd::prelude::*;
use vstd::utf8::{decode_utf8, valid_utf8};

verus! {

/// The `HRESULT` of a call that succeeded.
pub const S_OK: i32 = 0;

/// The `HRESULT` of a call that succeeded with a nonstandard completion.
pub const S_FALSE: i32 = 1;

/// How a native call that did not fail completed.
#[derive(Clone, Copy, Debug, PartialEq, Eq, Structural)]
pub enum Completion {
    /// `S_OK`.
    Success,
    /// `S_FALSE`: successful, with a meaning that depends on the call.
    NonStandard,
}

/// A failed `HRESULT`, as the 32-bit pattern that documentation lists.
#[derive(Clone, Copy, Debug, PartialEq, Eq, Structural)]
pub struct WinError {
    pub code: u32,
}

/// The 32-bit pattern of an `HRESULT`.
pub open spec fn hresult_bits(hr: i32) -> int {
    if hr < 0 {
        hr + 0x1_0000_0000
    } else {
        hr as int
    }
}

/// How an `HRESULT` reads: `S_OK` and `S_FALSE` are successes, anything
/// else is an error carrying its bit pattern.
pub open spec fn hresult_outcome(hr: i32) -> Result<Completion, WinError> {
    if hr == S_FALSE {
        Ok(Completion::NonStandard)
    } else if hr == S_OK {
        Ok(Completion::Success)
    } else {
        Err(WinError { code: hresult_bits(hr) as u32 })
    }
}

/// A status code of a native call, read as success or error.
pub trait WinResult: Sized {
    spec fn outcome(self) -> Result<Completion, WinError>;

    fn check(self) -> (r: Result<Completion, WinError>)
        ensures
            r == self.outcome(),
    ;
}

impl WinResult for i32 {
    open spec fn outcome(self) -> Result<Completion, WinError> {
        hresult_outcome(self)
    }

    fn check(self) -> (r: Result<Completion, WinError>) {
        if self == S_FALSE {
            Ok(Completion::NonStandard)
        } else if self == S_OK {
            Ok(Completion::Success)
        } else if self < 0 {
            Err(WinError { code: (self as i64 + 0x1_0000_0000i64) as u32 })
        } else {
            Err(WinError { code: self as u32 })
        }
    }
}

impl Completion {
    /// What the completion means, for a log line.
    pub fn message(&self) -> (r: &'static str)
        ensures
            r == completion_text(*self),
    {
        match self {
            Completion::Success => "Success.",
            Completion::NonStandard => "Successful but nonstandard completion (the precise meaning depends on context).",
        }
    }
}

pub open spec fn completion_text(c: Completion) -> &'static str {
    match c {
        Completion::Success => "Success.",
        Completion::NonStandard => "Successful but nonstandard completion (the precise meaning depends on context).",
    }
}

/// The name and meaning of the Direct3D 11, DXGI and COM error codes that
/// are documented for device, swap chain and resource calls.
pub open spec fn hresult_text(code: u32) -> Option<&'static str> {
    match code {
        0x887C0002u32 => Some("D3D11_ERROR_FILE_NOT_FOUND - The file was not found."),
        0x887C0001u32 => Some("D3D11_ERROR_TOO_MANY_UNIQUE_STATE_OBJECTS - There are too many unique instances of a particular type of state object."),
        0x887C0003u32 => Some("D3D11_ERROR_TOO_MANY_UNIQUE_VIEW_OBJECTS - There are too many unique instances of a particular type of view object."),
        0x887C0004u32 => Some("D3D11_ERROR_DEFERRED_CONTEXT_MAP_WITHOUT_INITIAL_DISCARD - The first call to ID3D11DeviceContext::Map after either ID3D11Device::CreateDeferredContext or ID3D11DeviceContext::FinishCommandList per Resource was not D3D11_MAP_WRITE_DISCARD."),
        0x887A0001u32 => Some("DXGI_ERROR_INVALID_CALL - The method call is invalid. For example, a method's parameter may not be a valid pointer."),
        0x887A000Au32 => Some("DXGI_ERROR_WAS_STILL_DRAWING - The previous blit operation that is transferring information to or from this surface is incomplete."),
        0x80004005u32 => Some("E_FAIL - Attempted to create a device with the debug layer enabled and the layer is not installed."),
        0x80070057u32 => Some("E_INVALIDARG - An invalid parameter was passed to the returning function."),
        0x8007000Eu32 => Some("E_OUTOFMEMORY - Direct3D could not allocate sufficient memory to complete the call."),
        0x80004001u32 => Some("E_NOTIMPL - The method call isn't implemented with the passed parameter combination."),
        0x8007000Au32 => Some("E_PENDING - The data necessary to complete this operation is not yet available."),
        0x80004002u32 => Some("E_POINTER - An invalid pointer was used."),
        0x80070006u32 => Some("E_HANDLE - The handle is invalid."),
        0x80070005u32 => Some("E_ACCESSDENIED - General access denied error."),
        0x800700AAu32 => Some("E_ABORT - Operation aborted."),
        0x800700DFu32 => Some("E_UNEXPECTED - Catastrophic failure."),
        0x8007007Au32 => Some("E_REMCLOSED - The object has been closed."),
        0x80070070u32 => Some("E_DISK_FULL - The disk is full."),
        0x8007000Cu32 => Some("E_PAGENOTACTIVE - The page is not active."),
        0x80004003u32 => Some("E_POINTER - Invalid pointer."),
        0x80070017u32 => Some("E_NOTIMPL - Requested function is not implemented."),
        0x8007001Fu32 => Some("E_INVALIDARG - An invalid parameter was passed to the returning function."),
        0x8007000Du32 => Some("E_PENDING - The data necessary to complete this operation is not yet available."),
        0x887A002Bu32 => Some("DXGI_ERROR_ACCESS_DENIED - You tried to use a resource to which you did not have the required access privileges. This error is most typically caused when you write to a shared resource with read-only access."),
        0x887A0026u32 => Some("DXGI_ERROR_ACCESS_LOST - The desktop duplication interface is invalid. The desktop duplication interface typically becomes invalid when a different type of image is displayed on the desktop."),
        0x887A0036u32 => Some("DXGI_ERROR_ALREADY_EXISTS - The desired element already exists. This is returned by DXGIDeclareAdapterRemovalSupport if it is not the first time that the function is called."),
        0x887A002Au32 => Some("DXGI_ERROR_CANNOT_PROTECT_CONTENT - DXGI can't provide content protection on the swap chain. This error is typically caused by an older driver, or when you use a swap chain that is incompatible with content protection."),
        0x887A0006u32 => Some("DXGI_ERROR_DEVICE_HUNG - The application's device failed due to badly formed commands sent by the application. This is a design-time issue that should be investigated and fixed."),
        0x887A0005u32 => Some("DXGI_ERROR_DEVICE_REMOVED - The video card has been physically removed from the system, or a driver upgrade for the video card has occurred. The application should destroy and recreate the device."),
        0x887A0007u32 => Some("DXGI_ERROR_DEVICE_RESET - The device failed due to a badly formed command. This is a run-time issue; The application should destroy and recreate the device."),
        0x887A0020u32 => Some("DXGI_ERROR_DRIVER_INTERNAL_ERROR - The driver encountered a problem and was put into the device removed state."),
        0x887A000Bu32 => Some("DXGI_ERROR_FRAME_STATISTICS_DISJOINT - An event (for example, a power cycle) interrupted the gathering of presentation statistics."),
        0x887A000Cu32 => Some("DXGI_ERROR_GRAPHICS_VIDPN_SOURCE_IN_USE - The application attempted to acquire exclusive ownership of an output, but failed because some other application (or device within the application) already acquired ownership."),
        0x887A0003u32 => Some("DXGI_ERROR_MORE_DATA - The buffer supplied by the application is not big enough to hold the requested data."),
        0x887A002Cu32 => Some("DXGI_ERROR_NAME_ALREADY_EXISTS - The supplied name of a resource in a call to IDXGIResource1::CreateSharedHandle is already associated with some other resource."),
        0x887A0021u32 => Some("DXGI_ERROR_NONEXCLUSIVE - A global counter resource is in use, and the Direct3D device can't currently use the counter resource."),
        0x887A0022u32 => Some("DXGI_ERROR_NOT_CURRENTLY_AVAILABLE - The resource or request is not currently available, but it might become available later."),
        0x887A0002u32 => Some("DXGI_ERROR_NOT_FOUND - When calling IDXGIObject::GetPrivateData, the GUID passed in is not recognized as one previously passed to IDXGIObject::SetPrivateData or IDXGIObject::SetPrivateDataInterface. When calling IDXGIFactory::EnumAdapters or IDXGIAdapter::EnumOutputs, the enumerated ordinal is out of range."),
        0x887A0023u32 => Some("DXGI_ERROR_REMOTE_CLIENT_DISCONNECTED - Reserved"),
        0x887A0024u32 => Some("DXGI_ERROR_REMOTE_OUTOFMEMORY - Reserved"),
        0x887A0029u32 => Some("DXGI_ERROR_RESTRICT_TO_OUTPUT_STALE - The DXGI output (monitor) to which the swap chain content was restricted is now disconnected or changed."),
        0x887A002Du32 => Some("DXGI_ERROR_SDK_COMPONENT_MISSING - The operation depends on an SDK component that is missing or mismatched."),
        0x887A0028u32 => Some("DXGI_ERROR_SESSION_DISCONNECTED - The Remote Desktop Services session is currently disconnected."),
        0x887A0004u32 => Some("DXGI_ERROR_UNSUPPORTED - The requested functionality is not supported by the device or the driver."),
        0x887A0027u32 => Some("DXGI_ERROR_WAIT_TIMEOUT - The time-out interval elapsed before the next desktop frame was available."),
        _ => None,
    }
}

impl WinError {
    /// The name and meaning of this error, where it is a documented one.
    pub fn description(&self) -> (r: Option<&'static str>)
        ensures
            r == hresult_text(self.code),
    {
        match self.code {
            0x887C0002u32 => Some("D3D11_ERROR_FILE_NOT_FOUND - The file was not found."),
            0x887C0001u32 => Some("D3D11_ERROR_TOO_MANY_UNIQUE_STATE_OBJECTS - There are too many unique instances of a particular type of state object."),
            0x887C0003u32 => Some("D3D11_ERROR_TOO_MANY_UNIQUE_VIEW_OBJECTS - There are too many unique instances of a particular type of view object."),
            0x887C0004u32 => Some("D3D11_ERROR_DEFERRED_CONTEXT_MAP_WITHOUT_INITIAL_DISCARD - The first call to ID3D11DeviceContext::Map after either ID3D11Device::CreateDeferredContext or ID3D11DeviceContext::FinishCommandList per Resource was not D3D11_MAP_WRITE_DISCARD."),
            0x887A0001u32 => Some("DXGI_ERROR_INVALID_CALL - The method call is invalid. For example, a method's parameter may not be a valid pointer."),
            0x887A000Au32 => Some("DXGI_ERROR_WAS_STILL_DRAWING - The previous blit operation that is transferring information to or from this surface is incomplete."),
            0x80004005u32 => Some("E_FAIL - Attempted to create a device with the debug layer enabled and the layer is not installed."),
            0x80070057u32 => Some("E_INVALIDARG - An invalid parameter was passed to the returning function."),
            0x8007000Eu32 => Some("E_OUTOFMEMORY - Direct3D could not allocate sufficient memory to complete the call."),
            0x80004001u32 => Some("E_NOTIMPL - The method call isn't implemented with the passed parameter combination."),
            0x8007000Au32 => Some("E_PENDING - The data necessary to complete this operation is not yet available."),
            0x80004002u32 => Some("E_POINTER - An invalid pointer was used."),
            0x80070006u32 => Some("E_HANDLE - The handle is invalid."),
            0x80070005u32 => Some("E_ACCESSDENIED - General access denied error."),
            0x800700AAu32 => Some("E_ABORT - Operation aborted."),
            0x800700DFu32 => Some("E_UNEXPECTED - Catastrophic failure."),
            0x8007007Au32 => Some("E_REMCLOSED - The object has been closed."),
            0x80070070u32 => Some("E_DISK_FULL - The disk is full."),
            0x8007000Cu32 => Some("E_PAGENOTACTIVE - The page is not active."),
            0x80004003u32 => Some("E_POINTER - Invalid pointer."),
            0x80070017u32 => Some("E_NOTIMPL - Requested function is not implemented."),
            0x8007001Fu32 => Some("E_INVALIDARG - An invalid parameter was passed to the returning function."),
            0x8007000Du32 => Some("E_PENDING - The data necessary to complete this operation is not yet available."),
            0x887A002Bu32 => Some("DXGI_ERROR_ACCESS_DENIED - You tried to use a resource to which you did not have the required access privileges. This error is most typically caused when you write to a shared resource with read-only access."),
            0x887A0026u32 => Some("DXGI_ERROR_ACCESS_LOST - The desktop duplication interface is invalid. The desktop duplication interface typically becomes invalid when a different type of image is displayed on the desktop."),
            0x887A0036u32 => Some("DXGI_ERROR_ALREADY_EXISTS - The desired element already exists. This is returned by DXGIDeclareAdapterRemovalSupport if it is not the first time that the function is called."),
            0x887A002Au32 => Some("DXGI_ERROR_CANNOT_PROTECT_CONTENT - DXGI can't provide content protection on the swap chain. This error is typically caused by an older driver, or when you use a swap chain that is incompatible with content protection."),
            0x887A0006u32 => Some("DXGI_ERROR_DEVICE_HUNG - The application's device failed due to badly formed commands sent by the application. This is a design-time issue that should be investigated and fixed."),
            0x887A0005u32 => Some("DXGI_ERROR_DEVICE_REMOVED - The video card has been physically removed from the system, or a driver upgrade for the video card has occurred. The application should destroy and recreate the device."),
            0x887A0007u32 => Some("DXGI_ERROR_DEVICE_RESET - The device failed due to a badly formed command. This is a run-time issue; The application should destroy and recreate the device."),
            0x887A0020u32 => Some("DXGI_ERROR_DRIVER_INTERNAL_ERROR - The driver encountered a problem and was put into the device removed state."),
            0x887A000Bu32 => Some("DXGI_ERROR_FRAME_STATISTICS_DISJOINT - An event (for example, a power cycle) interrupted the gathering of presentation statistics."),
            0x887A000Cu32 => Some("DXGI_ERROR_GRAPHICS_VIDPN_SOURCE_IN_USE - The application attempted to acquire exclusive ownership of an output, but failed because some other application (or device within the application) already acquired ownership."),
            0x887A0003u32 => Some("DXGI_ERROR_MORE_DATA - The buffer supplied by the application is not big enough to hold the requested data."),
            0x887A002Cu32 => Some("DXGI_ERROR_NAME_ALREADY_EXISTS - The supplied name of a resource in a call to IDXGIResource1::CreateSharedHandle is already associated with some other resource."),
            0x887A0021u32 => Some("DXGI_ERROR_NONEXCLUSIVE - A global counter resource is in use, and the Direct3D device can't currently use the counter resource."),
            0x887A0022u32 => Some("DXGI_ERROR_NOT_CURRENTLY_AVAILABLE - The resource or request is not currently available, but it might become available later."),
            0x887A0002u32 => Some("DXGI_ERROR_NOT_FOUND - When calling IDXGIObject::GetPrivateData, the GUID passed in is not recognized as one previously passed to IDXGIObject::SetPrivateData or IDXGIObject::SetPrivateDataInterface. When calling IDXGIFactory::EnumAdapters or IDXGIAdapter::EnumOutputs, the enumerated ordinal is out of range."),
            0x887A0023u32 => Some("DXGI_ERROR_REMOTE_CLIENT_DISCONNECTED - Reserved"),
            0x887A0024u32 => Some("DXGI_ERROR_REMOTE_OUTOFMEMORY - Reserved"),
            0x887A0029u32 => Some("DXGI_ERROR_RESTRICT_TO_OUTPUT_STALE - The DXGI output (monitor) to which the swap chain content was restricted is now disconnected or changed."),
            0x887A002Du32 => Some("DXGI_ERROR_SDK_COMPONENT_MISSING - The operation depends on an SDK component that is missing or mismatched."),
            0x887A0028u32 => Some("DXGI_ERROR_SESSION_DISCONNECTED - The Remote Desktop Services session is currently disconnected."),
            0x887A0004u32 => Some("DXGI_ERROR_UNSUPPORTED - The requested functionality is not supported by the device or the driver."),
            0x887A0027u32 => Some("DXGI_ERROR_WAIT_TIMEOUT - The time-out interval elapsed before the next desktop frame was available."),
            _ => None,
        }
    }
}

/// `GL_INVALID_ENUM`.
pub const INVALID_ENUM: u32 = 0x0500;

/// `GL_INVALID_VALUE`.
pub const INVALID_VALUE: u32 = 0x0501;

/// `GL_INVALID_OPERATION`.
pub const INVALID_OPERATION: u32 = 0x0502;

/// `GL_STACK_OVERFLOW`.
pub const STACK_OVERFLOW: u32 = 0x0503;

/// `GL_STACK_UNDERFLOW`.
pub const STACK_UNDERFLOW: u32 = 0x0504;

/// `GL_OUT_OF_MEMORY`.
pub const OUT_OF_MEMORY: u32 = 0x0505;

/// `GL_INVALID_FRAMEBUFFER_OPERATION`.
pub const INVALID_FRAMEBUFFER_OPERATION: u32 = 0x0506;

/// An error that OpenGL reported through `glGetError`.
#[derive(Clone, Copy, Debug, PartialEq, Eq, Structural)]
pub enum GlError {
    InvalidEnum,
    InvalidValue,
    InvalidOperation,
    StackOverflow,
    StackUnderflow,
    OutOfMemory,
    InvalidFramebufferOperation,
    /// A code that OpenGL does not define.
    Unknown { code: u32 },
}

/// How a `glGetError` code reads: 0 is no error.
pub open spec fn gl_outcome(code: u32) -> Result<(), GlError> {
    if code == 0 {
        Ok(())
    } else if code == INVALID_ENUM {
        Err(GlError::InvalidEnum)
    } else if code == INVALID_VALUE {
        Err(GlError::InvalidValue)
    } else if code == INVALID_OPERATION {
        Err(GlError::InvalidOperation)
    } else if code == STACK_OVERFLOW {
        Err(GlError::StackOverflow)
    } else if code == STACK_UNDERFLOW {
        Err(GlError::StackUnderflow)
    } else if code == OUT_OF_MEMORY {
        Err(GlError::OutOfMemory)
    } else if code == INVALID_FRAMEBUFFER_OPERATION {
        Err(GlError::InvalidFramebufferOperation)
    } else {
        Err(GlError::Unknown { code })
    }
}

/// Reads the code that `glGetError` returned.
pub fn check_error(code: u32) -> (r: Result<(), GlError>)
    ensures
        r == gl_outcome(code),
{
    if code == 0 {
        Ok(())
    } else if code == INVALID_ENUM {
        Err(GlError::InvalidEnum)
    } else if code == INVALID_VALUE {
        Err(GlError::InvalidValue)
    } else if code == INVALID_OPERATION {
        Err(GlError::InvalidOperation)
    } else if code == STACK_OVERFLOW {
        Err(GlError::StackOverflow)
    } else if code == STACK_UNDERFLOW {
        Err(GlError::StackUnderflow)
    } else if code == OUT_OF_MEMORY {
        Err(GlError::OutOfMemory)
    } else if code == INVALID_FRAMEBUFFER_OPERATION {
        Err(GlError::InvalidFramebufferOperation)
    } else {
        Err(GlError::Unknown { code })
    }
}

pub open spec fn gl_error_name(e: GlError) -> &'static str {
    match e {
        GlError::InvalidEnum => "INVALID_ENUM",
        GlError::InvalidValue => "INVALID_VALUE",
        GlError::InvalidOperation => "INVALID_OPERATION",
        GlError::StackOverflow => "STACK_OVERFLOW",
        GlError::StackUnderflow => "STACK_UNDERFLOW",
        GlError::OutOfMemory => "OUT_OF_MEMORY",
        GlError::InvalidFramebufferOperation => "INVALID_FRAMEBUFFER_OPERATION",
        GlError::Unknown { .. } => "UNKNOWN",
    }
}

impl GlError {
    /// The name OpenGL gives the error.
    pub fn name(&self) -> (r: &'static str)
        ensures
            r == gl_error_name(*self),
    {
        match self {
            GlError::InvalidEnum => "INVALID_ENUM",
            GlError::InvalidValue => "INVALID_VALUE",
            GlError::InvalidOperation => "INVALID_OPERATION",
            GlError::StackOverflow => "STACK_OVERFLOW",
            GlError::StackUnderflow => "STACK_UNDERFLOW",
            GlError::OutOfMemory => "OUT_OF_MEMORY",
            GlError::InvalidFramebufferOperation => "INVALID_FRAMEBUFFER_OPERATION",
            GlError::Unknown { .. } => "UNKNOWN",
        }
    }
}

/// A Direct3D shader stage to compile for.
#[derive(Clone, Copy, Debug, PartialEq, Eq, Structural)]
pub enum Target {
    Vertex,
    Pixel,
    Fragment,
    Compute,
    Domain,
    Geometry,
    Hull,
}

/// The shader model 5.0 profile of a stage; a fragment shader is a pixel shader.
pub open spec fn target_profile(t: Target) -> &'static str {
    match t {
        Target::Vertex => "vs_5_0",
        Target::Pixel | Target::Fragment => "ps_5_0",
        Target::Compute => "cs_5_0",
        Target::Domain => "ds_5_0",
        Target::Geometry => "gs_5_0",
        Target::Hull => "hs_5_0",
    }
}

impl Target {
    /// The compiler profile name of this stage.
    pub fn profile(&self) -> (r: &'static str)
        ensures
            r == target_profile(*self),
    {
        match self {
            Target::Vertex => "vs_5_0",
            Target::Pixel | Target::Fragment => "ps_5_0",
            Target::Compute => "cs_5_0",
            Target::Domain => "ds_5_0",
            Target::Geometry => "gs_5_0",
            Target::Hull => "hs_5_0",
        }
    }
}

/// Index of the first NUL in `s`.
pub open spec fn first_nul(s: Seq<i8>) -> int
    recommends
        exists|i: int| 0 <= i < s.len() && s[i] == 0,
{
    choose|i: int| 0 <= i < s.len() && s[i] == 0 && forall|j: int| 0 <= j < i ==> s[j] != 0
}

/// The bytes of a C string held in `s`: those before its first NUL, each read
/// as unsigned.
pub open spec fn c_bytes(s: Seq<i8>) -> Seq<u8> {
    s.take(first_nul(s)).map_values(|c: i8| c as u8)
}

/// Relies on `String::from_utf8`: it accepts exactly the well-formed UTF-8
/// byte sequences and decodes them.
#[verifier::external_body]
fn string_from_utf8(bytes: Vec<u8>) -> (r: Option<String>)
    ensures
        r is Some <==> valid_utf8(bytes@),
        r is Some ==> r->Some_0@ == decode_utf8(bytes@),
{
    String::from_utf8(bytes).ok()
}

/// Decodes the NUL-terminated UTF-8 string held in a C character array, as
/// Vulkan reports device and layer names; `None` where it is not UTF-8.
pub fn str_from_i8(slice: &[i8]) -> (r: Option<String>)
    requires
        exists|i: int| 0 <= i < slice@.len() && slice@[i] == 0,
    ensures
        r is Some <==> valid_utf8(c_bytes(slice@)),
        r is Some ==> r->Some_0@ == decode_utf8(c_bytes(slice@)),
{
    let mut bytes: Vec<u8> = Vec::new();
    let mut i: usize = 0;
    while slice[i] != 0
        invariant
            0 <= i < slice@.len(),
            exists|n: int| i <= n < slice@.len() && slice@[n] == 0,
            forall|j: int| 0 <= j < i ==> slice@[j] != 0,
            bytes@ == slice@.take(i as int).map_values(|c: i8| c as u8),
        decreases slice@.len() - i,
    {
        bytes.push(slice[i] as u8);
        proof {
            assert(slice@.take(i + 1).map_values(|c: i8| c as u8) =~= slice@.take(i as int).map_values(
                |c: i8| c as u8,
            ).push(slice[i as int] as u8));
            let n = choose|n: int| i <= n < slice@.len() && slice@[n] == 0;
            assert(n != i);
        }
        i = i + 1;
    }
    proof {
        let n = first_nul(slice@);
        assert(0 <= n < slice@.len() && slice@[n] == 0 && forall|j: int| 0 <= j < n ==> slice@[j] != 0);
        assert(n == i);
    }
    string_from_utf8(bytes)
}

} // verus!
