use vstd::prelude::*;

verus! {

/// `VK_QUEUE_GRAPHICS_BIT`.
pub const QUEUE_GRAPHICS: u32 = 0x1;

pub open spec fn has_graphics(flags: u32) -> bool {
    flags & QUEUE_GRAPHICS != 0
}

/// The first queue family, given each family's `VkQueueFlags`, that supports
/// graphics; `None` when none does.
pub fn graphics_queue_family(queue_flags: &[u32]) -> (r: Option<usize>)
    ensures
        match r {
            Some(i) => {
                &&& i < queue_flags@.len()
                &&& has_graphics(queue_flags@[i as int])
                &&& forall|j: int| 0 <= j < i ==> !has_graphics(#[trigger] queue_flags@[j])
            },
            None => forall|j: int|
                0 <= j < queue_flags@.len() ==> !has_graphics(#[trigger] queue_flags@[j]),
        },
{
    let mut i: usize = 0;
    while i < queue_flags.len()
        invariant
            i <= queue_flags@.len(),
            forall|j: int| 0 <= j < i ==> !has_graphics(#[trigger] queue_flags@[j]),
        decreases queue_flags@.len() - i,
    {
        if queue_flags[i] & QUEUE_GRAPHICS != 0 {
            return Some(i);
        }
        i = i + 1;
    }
    None
}

/// Whether the surface offers the wanted `(format, color space)` pair, given
/// the pairs it reports.
pub fn supports_surface_format(formats: &[(i32, i32)], format: i32, color_space: i32) -> (r: bool)
    ensures
        r <==> exists|i: int| 0 <= i < formats@.len() && #[trigger] formats@[i] == (format, color_space),
{
    let mut i: usize = 0;
    while i < formats.len()
        invariant
            i <= formats@.len(),
            forall|j: int| 0 <= j < i ==> #[trigger] formats@[j] != (format, color_space),
        decreases formats@.len() - i,
    {
        let (f, c) = formats[i];
        if f == format && c == color_space {
            assert(formats@[i as int] == (format, color_space));
            return true;
        }
        i = i + 1;
    }
    false
}

/// The number of swapchain images to ask for: one more than the surface's
/// minimum, so that one image can be drawn while the others are presented.
pub fn swapchain_image_count(min_image_count: u32) -> (r: u32)
    requires
        min_image_count < u32::MAX,
    ensures
        r == min_image_count + 1,
{
    min_image_count + 1
}

/// `VK_DEBUG_UTILS_MESSAGE_SEVERITY_VERBOSE_BIT_EXT`.
pub const SEVERITY_VERBOSE: u32 = 0x1;

/// `VK_DEBUG_UTILS_MESSAGE_SEVERITY_INFO_BIT_EXT`.
pub const SEVERITY_INFO: u32 = 0x10;

/// `VK_DEBUG_UTILS_MESSAGE_SEVERITY_WARNING_BIT_EXT`.
pub const SEVERITY_WARNING: u32 = 0x100;

/// `VK_DEBUG_UTILS_MESSAGE_SEVERITY_ERROR_BIT_EXT`.
pub const SEVERITY_ERROR: u32 = 0x1000;

/// The log level a validation message is reported at.
#[derive(Clone, Copy, Debug, PartialEq, Eq, Structural)]
pub enum Level {
    Info,
    Warn,
    Error,
}

pub open spec fn severity_level_of(severity: u32) -> Option<Level> {
    if severity == SEVERITY_VERBOSE || severity == SEVERITY_INFO {
        Some(Level::Info)
    } else if severity == SEVERITY_WARNING {
        Some(Level::Warn)
    } else if severity == SEVERITY_ERROR {
        Some(Level::Error)
    } else {
        None
    }
}

/// The log level of a debug message of the given single severity bit:
/// verbose and info messages are information; `None` for anything that is not
/// one severity bit.
pub fn severity_level(severity: u32) -> (r: Option<Level>)
    ensures
        r == severity_level_of(severity),
{
    if severity == SEVERITY_VERBOSE || severity == SEVERITY_INFO {
        Some(Level::Info)
    } else if severity == SEVERITY_WARNING {
        Some(Level::Warn)
    } else if severity == SEVERITY_ERROR {
        Some(Level::Error)
    } else {
        None
    }
}

} // verus!
