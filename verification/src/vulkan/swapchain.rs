use vstd::prelude::*;
use crate::vulkan::physical_device::QueueFamilyIndices;

verus! {

/// Errors of swapchain creation.
#[derive(Debug, Clone, Copy, PartialEq, Eq, Structural)]
pub enum SwapchainError {
    /// A Vulkan call failed with this result code.
    Vulkan(i32),
    /// The surface offers no format at all.
    NoSuitableFormat,
    /// The surface has zero extent (window minimized?).
    ZeroExtent,
}

/// A pixel format of a surface. Only the one the engine prefers is named.
#[derive(Debug, Clone, Copy, PartialEq, Eq, Structural)]
pub enum Format {
    /// 8-bit BGRA with sRGB encoding.
    B8G8R8A8Srgb,
    /// Any other format, by its Vulkan code.
    Other(i32),
}

/// A color space of a surface. Only the one the engine prefers is named.
#[derive(Debug, Clone, Copy, PartialEq, Eq, Structural)]
pub enum ColorSpace {
    /// Non-linear sRGB.
    SrgbNonlinear,
    /// Any other color space, by its Vulkan code.
    Other(i32),
}

impl Format {
    /// The format a Vulkan `VkFormat` code names (`B8G8R8A8_SRGB` is 50).
    pub fn from_code(code: i32) -> (f: Format)
        ensures
            f == spec_format_of_code(code),
    {
        if code == 50 {
            Format::B8G8R8A8Srgb
        } else {
            Format::Other(code)
        }
    }

    /// The Vulkan code of this format.
    pub fn code(&self) -> (code: i32)
        ensures
            code == spec_format_code(*self),
    {
        match self {
            Format::B8G8R8A8Srgb => 50,
            Format::Other(c) => *c,
        }
    }
}

pub open spec fn spec_format_of_code(code: i32) -> Format {
    if code == 50 {
        Format::B8G8R8A8Srgb
    } else {
        Format::Other(code)
    }
}

pub open spec fn spec_format_code(f: Format) -> i32 {
    match f {
        Format::B8G8R8A8Srgb => 50,
        Format::Other(c) => c,
    }
}

/// A format in canonical form: a named format is never written as `Other`.
pub open spec fn is_canonical_format(f: Format) -> bool {
    f matches Format::Other(c) ==> c != 50
}

impl ColorSpace {
    /// The color space a Vulkan `VkColorSpaceKHR` code names (`SRGB_NONLINEAR` is 0).
    pub fn from_code(code: i32) -> (c: ColorSpace)
        ensures
            c == spec_color_space_of_code(code),
    {
        if code == 0 {
            ColorSpace::SrgbNonlinear
        } else {
            ColorSpace::Other(code)
        }
    }

    /// The Vulkan code of this color space.
    pub fn code(&self) -> (code: i32)
        ensures
            code == spec_color_space_code(*self),
    {
        match self {
            ColorSpace::SrgbNonlinear => 0,
            ColorSpace::Other(c) => *c,
        }
    }
}

pub open spec fn spec_color_space_of_code(code: i32) -> ColorSpace {
    if code == 0 {
        ColorSpace::SrgbNonlinear
    } else {
        ColorSpace::Other(code)
    }
}

pub open spec fn spec_color_space_code(c: ColorSpace) -> i32 {
    match c {
        ColorSpace::SrgbNonlinear => 0,
        ColorSpace::Other(code) => code,
    }
}

/// A color space in canonical form: a named color space is never written as `Other`.
pub open spec fn is_canonical_color_space(c: ColorSpace) -> bool {
    c matches ColorSpace::Other(code) ==> code != 0
}

/// A format and color space pair that a surface supports.
#[derive(Debug, Clone, Copy, PartialEq, Eq, Structural)]
pub struct SurfaceFormat {
    pub format: Format,
    pub color_space: ColorSpace,
}

/// A presentation mode of a surface.
#[derive(Debug, Clone, Copy, PartialEq, Eq, Structural)]
pub enum PresentMode {
    Immediate,
    Mailbox,
    Fifo,
    FifoRelaxed,
    /// Any other mode, by its Vulkan code.
    Other(i32),
}

impl PresentMode {
    /// The present mode a Vulkan `VkPresentModeKHR` code names
    /// (`IMMEDIATE` 0, `MAILBOX` 1, `FIFO` 2, `FIFO_RELAXED` 3).
    pub fn from_code(code: i32) -> (m: PresentMode)
        ensures
            m == spec_present_mode_of_code(code),
    {
        match code {
            0 => PresentMode::Immediate,
            1 => PresentMode::Mailbox,
            2 => PresentMode::Fifo,
            3 => PresentMode::FifoRelaxed,
            _ => PresentMode::Other(code),
        }
    }

    /// The Vulkan code of this present mode.
    pub fn code(&self) -> (code: i32)
        ensures
            code == spec_present_mode_code(*self),
    {
        match self {
            PresentMode::Immediate => 0,
            PresentMode::Mailbox => 1,
            PresentMode::Fifo => 2,
            PresentMode::FifoRelaxed => 3,
            PresentMode::Other(c) => *c,
        }
    }
}

pub open spec fn spec_present_mode_of_code(code: i32) -> PresentMode {
    if code == 0 {
        PresentMode::Immediate
    } else if code == 1 {
        PresentMode::Mailbox
    } else if code == 2 {
        PresentMode::Fifo
    } else if code == 3 {
        PresentMode::FifoRelaxed
    } else {
        PresentMode::Other(code)
    }
}

pub open spec fn spec_present_mode_code(m: PresentMode) -> i32 {
    match m {
        PresentMode::Immediate => 0,
        PresentMode::Mailbox => 1,
        PresentMode::Fifo => 2,
        PresentMode::FifoRelaxed => 3,
        PresentMode::Other(c) => c,
    }
}

/// A present mode in canonical form: a named mode is never written as `Other`.
pub open spec fn is_canonical_present_mode(m: PresentMode) -> bool {
    m matches PresentMode::Other(c) ==> !(0 <= c <= 3)
}

/// Values read from Vulkan codes are canonical, and a canonical value and its
/// code convert into each other without loss.
pub proof fn lemma_codes_round_trip(code: i32, f: Format, c: ColorSpace, m: PresentMode)
    ensures
        is_canonical_format(spec_format_of_code(code)),
        spec_format_code(spec_format_of_code(code)) == code,
        is_canonical_format(f) ==> spec_format_of_code(spec_format_code(f)) == f,
        is_canonical_color_space(spec_color_space_of_code(code)),
        spec_color_space_code(spec_color_space_of_code(code)) == code,
        is_canonical_color_space(c) ==> spec_color_space_of_code(spec_color_space_code(c)) == c,
        is_canonical_present_mode(spec_present_mode_of_code(code)),
        spec_present_mode_code(spec_present_mode_of_code(code)) == code,
        is_canonical_present_mode(m) ==> spec_present_mode_of_code(spec_present_mode_code(m)) == m,
{
}

/// A two-dimensional size in pixels.
#[derive(Debug, Clone, Copy, PartialEq, Eq, Structural)]
pub struct Extent2D {
    pub width: u32,
    pub height: u32,
}

/// What swapchain creation reads of the surface capabilities.
#[derive(Debug, Clone, Copy, PartialEq, Eq, Structural)]
pub struct SurfaceCapabilities {
    pub min_image_count: u32,
    /// Zero when the surface sets no maximum.
    pub max_image_count: u32,
    /// A width of `u32::MAX` means the surface size follows the swapchain.
    pub current_extent: Extent2D,
    pub min_image_extent: Extent2D,
    pub max_image_extent: Extent2D,
}

/// How the swapchain images are shared between queue families.
#[derive(Debug, Clone, Copy, PartialEq, Eq, Structural)]
pub enum SharingMode {
    Exclusive,
    Concurrent,
}

/// The parameters of a created swapchain.
#[derive(Debug, Clone, Copy, PartialEq, Eq, Structural)]
pub struct SwapchainConfig {
    pub format: SurfaceFormat,
    pub present_mode: PresentMode,
    pub extent: Extent2D,
    pub image_count: u32,
}

/// The format the engine prefers: BGRA8 sRGB in the non-linear sRGB color space.
pub open spec fn is_preferred_format(f: SurfaceFormat) -> bool {
    f.format == Format::B8G8R8A8Srgb && f.color_space == ColorSpace::SrgbNonlinear
}

/// Index of the first preferred format at or after `from`, or -1 when there is none.
pub open spec fn first_preferred(formats: Seq<SurfaceFormat>, from: int) -> int
    decreases formats.len() - from,
{
    if from < 0 || from >= formats.len() {
        -1
    } else if is_preferred_format(formats[from]) {
        from
    } else {
        first_preferred(formats, from + 1)
    }
}

/// The format chosen among those offered: the first preferred one, else the first one.
pub open spec fn spec_choose_format(formats: Seq<SurfaceFormat>) -> Result<SurfaceFormat, SwapchainError> {
    if formats.len() == 0 {
        Err(SwapchainError::NoSuitableFormat)
    } else if first_preferred(formats, 0) >= 0 {
        Ok(formats[first_preferred(formats, 0)])
    } else {
        Ok(formats[0])
    }
}

/// Choose the surface format: the first BGRA8 sRGB / sRGB non-linear format
/// offered, else the first format offered; an error when none is offered.
pub fn choose_format(formats: &[SurfaceFormat]) -> (r: Result<SurfaceFormat, SwapchainError>)
    ensures
        r == spec_choose_format(formats@),
        formats@.len() == 0 ==> r == Err::<SurfaceFormat, SwapchainError>(SwapchainError::NoSuitableFormat),
        (exists|i: int| 0 <= i < formats@.len() && (#[trigger] formats@[i]).format == Format::B8G8R8A8Srgb
            && formats@[i].color_space == ColorSpace::SrgbNonlinear) ==> (r matches Ok(f) && f.format
            == Format::B8G8R8A8Srgb && f.color_space == ColorSpace::SrgbNonlinear),
        (formats@.len() > 0 && forall|i: int| 0 <= i < formats@.len() ==> !((#[trigger] formats@[i]).format
            == Format::B8G8R8A8Srgb && formats@[i].color_space == ColorSpace::SrgbNonlinear)) ==> r == Ok::<
            SurfaceFormat,
            SwapchainError,
        >(formats@[0]),
{
    proof {
        law_choose_format(formats@);
    }
    if formats.len() == 0 {
        return Err(SwapchainError::NoSuitableFormat);
    }
    let n = formats.len();
    for i in 0..n
        invariant
            n == formats@.len(),
            n > 0,
            first_preferred(formats@, 0) == first_preferred(formats@, i as int),
    {
        let f = formats[i];
        if f.format == Format::B8G8R8A8Srgb && f.color_space == ColorSpace::SrgbNonlinear {
            assert(is_preferred_format(formats@[i as int]));
            return Ok(f);
        }
    }
    Ok(formats[0])
}

/// Choose the present mode: mailbox when offered, else FIFO (always available).
pub fn choose_present_mode(modes: &[PresentMode]) -> (m: PresentMode)
    ensures
        m == (if modes@.contains(PresentMode::Mailbox) { PresentMode::Mailbox } else { PresentMode::Fifo }),
{
    let n = modes.len();
    for i in 0..n
        invariant
            n == modes@.len(),
            forall|j: int| 0 <= j < i ==> modes@[j] != PresentMode::Mailbox,
    {
        if modes[i] == PresentMode::Mailbox {
            assert(modes@[i as int] == PresentMode::Mailbox);
            return PresentMode::Mailbox;
        }
    }
    PresentMode::Fifo
}

/// `x` clamped to `[lo, hi]`.
pub open spec fn clamp(x: u32, lo: u32, hi: u32) -> u32 {
    if x < lo {
        lo
    } else if x > hi {
        hi
    } else {
        x
    }
}

/// Whether the surface dictates its extent (rather than following the swapchain).
pub open spec fn surface_fixes_extent(caps: SurfaceCapabilities) -> bool {
    caps.current_extent.width != u32::MAX
}

/// The extent chosen for the swapchain.
pub open spec fn spec_choose_extent(caps: SurfaceCapabilities, window: (u32, u32)) -> Result<Extent2D, SwapchainError> {
    if surface_fixes_extent(caps) {
        if caps.current_extent.width == 0 || caps.current_extent.height == 0 {
            Err(SwapchainError::ZeroExtent)
        } else {
            Ok(caps.current_extent)
        }
    } else if window.0 == 0 || window.1 == 0 {
        Err(SwapchainError::ZeroExtent)
    } else {
        Ok(Extent2D {
            width: clamp(window.0, caps.min_image_extent.width, caps.max_image_extent.width),
            height: clamp(window.1, caps.min_image_extent.height, caps.max_image_extent.height),
        })
    }
}

/// Inputs on which choosing the extent clamps the window size: the bounds must be ordered there.
pub open spec fn extent_bounds_ok(caps: SurfaceCapabilities, window: (u32, u32)) -> bool {
    (!surface_fixes_extent(caps) && window.0 != 0 && window.1 != 0) ==> {
        &&& caps.min_image_extent.width <= caps.max_image_extent.width
        &&& caps.min_image_extent.height <= caps.max_image_extent.height
    }
}

/// Choose the swapchain extent: the surface's current extent when it fixes
/// one, else the window size clamped to the supported range. A zero-sized
/// extent is an error (the window is minimized).
pub fn choose_extent(caps: &SurfaceCapabilities, window: (u32, u32)) -> (r: Result<Extent2D, SwapchainError>)
    requires
        extent_bounds_ok(*caps, window),
    ensures
        r == spec_choose_extent(*caps, window),
{
    if caps.current_extent.width != u32::MAX {
        let e = caps.current_extent;
        if e.width == 0 || e.height == 0 {
            return Err(SwapchainError::ZeroExtent);
        }
        return Ok(e);
    }
    let (width, height) = window;
    if width == 0 || height == 0 {
        return Err(SwapchainError::ZeroExtent);
    }
    Ok(Extent2D {
        width: clamp_u32(width, caps.min_image_extent.width, caps.max_image_extent.width),
        height: clamp_u32(height, caps.min_image_extent.height, caps.max_image_extent.height),
    })
}

fn clamp_u32(x: u32, lo: u32, hi: u32) -> (r: u32)
    requires
        lo <= hi,
    ensures
        r == clamp(x, lo, hi),
{
    if x < lo {
        lo
    } else if x > hi {
        hi
    } else {
        x
    }
}

/// The number of images to ask for: one more than the minimum, capped at the
/// maximum when the surface sets one.
pub open spec fn spec_image_count(caps: SurfaceCapabilities) -> int {
    let wanted = caps.min_image_count + 1;
    if caps.max_image_count > 0 && caps.max_image_count < wanted {
        caps.max_image_count as int
    } else {
        wanted
    }
}

/// Choose how many swapchain images to request.
pub fn choose_image_count(caps: &SurfaceCapabilities) -> (n: u32)
    requires
        caps.min_image_count < u32::MAX,
    ensures
        n == spec_image_count(*caps),
{
    let mut image_count = caps.min_image_count + 1;
    if caps.max_image_count > 0 && caps.max_image_count < image_count {
        image_count = caps.max_image_count;
    }
    image_count
}

/// Choose how images are shared: exclusively when graphics and presentation use
/// the same family, concurrently between both families otherwise.
pub fn choose_sharing(indices: QueueFamilyIndices) -> (r: (SharingMode, Vec<u32>))
    ensures
        indices.graphics == indices.present ==> r.0 == SharingMode::Exclusive && r.1@ == Seq::<u32>::empty(),
        indices.graphics != indices.present ==> r.0 == SharingMode::Concurrent && r.1@ == seq![indices.graphics, indices.present],
{
    if indices.graphics == indices.present {
        (SharingMode::Exclusive, Vec::new())
    } else {
        let mut families = Vec::new();
        families.push(indices.graphics);
        families.push(indices.present);
        (SharingMode::Concurrent, families)
    }
}

} // verus!

verus! {

/// The creation parameters decided for a swapchain, before it is created.
#[derive(Debug)]
pub struct SwapchainPlan {
    pub format: SurfaceFormat,
    pub present_mode: PresentMode,
    pub extent: Extent2D,
    pub min_image_count: u32,
    pub sharing: SharingMode,
    /// The queue families that share the images; empty when exclusive.
    pub queue_family_indices: Vec<u32>,
}

/// Inputs on which planning computes the image count: its increment must not overflow.
pub open spec fn image_count_ok(
    caps: SurfaceCapabilities,
    formats: Seq<SurfaceFormat>,
    window: (u32, u32),
) -> bool {
    (spec_choose_format(formats) is Ok && spec_choose_extent(caps, window) is Ok) ==> caps.min_image_count < u32::MAX
}

/// The error of planning a swapchain, if any: a missing format is reported
/// before a zero extent.
pub open spec fn plan_error(
    caps: SurfaceCapabilities,
    formats: Seq<SurfaceFormat>,
    window: (u32, u32),
) -> Option<SwapchainError> {
    match spec_choose_format(formats) {
        Err(e) => Some(e),
        Ok(_) => match spec_choose_extent(caps, window) {
            Err(e) => Some(e),
            Ok(_) => None,
        },
    }
}

/// Decide the parameters of a swapchain for a surface: its format, present mode,
/// extent, image count and image sharing. The format is checked before the extent.
pub fn plan_swapchain(
    caps: &SurfaceCapabilities,
    formats: &[SurfaceFormat],
    present_modes: &[PresentMode],
    window: (u32, u32),
    indices: QueueFamilyIndices,
) -> (r: Result<SwapchainPlan, SwapchainError>)
    requires
        formats@.len() > 0 ==> extent_bounds_ok(*caps, window),
        image_count_ok(*caps, formats@, window),
    ensures
        r is Err <==> plan_error(*caps, formats@, window) is Some,
        r matches Err(e) ==> plan_error(*caps, formats@, window) == Some(e),
        r matches Ok(plan) ==> {
            &&& spec_choose_format(formats@) == Ok::<SurfaceFormat, SwapchainError>(plan.format)
            &&& plan.present_mode == (if present_modes@.contains(PresentMode::Mailbox) { PresentMode::Mailbox } else { PresentMode::Fifo })
            &&& spec_choose_extent(*caps, window) == Ok::<Extent2D, SwapchainError>(plan.extent)
            &&& plan.min_image_count == spec_image_count(*caps)
            &&& indices.graphics == indices.present ==> plan.sharing == SharingMode::Exclusive && plan.queue_family_indices@ == Seq::<u32>::empty()
            &&& indices.graphics != indices.present ==> plan.sharing == SharingMode::Concurrent
                && plan.queue_family_indices@ == seq![indices.graphics, indices.present]
        },
{
    let format = match choose_format(formats) {
        Ok(f) => f,
        Err(e) => return Err(e),
    };
    let present_mode = choose_present_mode(present_modes);
    let extent = match choose_extent(caps, window) {
        Ok(e) => e,
        Err(e) => return Err(e),
    };
    let min_image_count = choose_image_count(caps);
    let (sharing, queue_family_indices) = choose_sharing(indices);
    Ok(SwapchainPlan { format, present_mode, extent, min_image_count, sharing, queue_family_indices })
}

impl SwapchainPlan {
    /// The configuration of the swapchain created from this plan, which holds
    /// `image_count` images.
    pub fn config(&self, image_count: u32) -> (c: SwapchainConfig)
        ensures
            c.format == self.format,
            c.present_mode == self.present_mode,
            c.extent == self.extent,
            c.image_count == image_count,
    {
        SwapchainConfig {
            format: self.format,
            present_mode: self.present_mode,
            extent: self.extent,
            image_count,
        }
    }
}

/// Whether rebuilding the swapchain is skipped for this window size before the
/// surface is even asked: it is, silently, when the window is minimized (a zero side).
pub fn rebuild_skipped(window: (u32, u32)) -> (skip: bool)
    ensures
        skip == (window.0 == 0 || window.1 == 0),
{
    window.0 == 0 || window.1 == 0
}

/// What becomes of a swapchain rebuild that failed with `err`: a zero extent
/// means the window is minimized, and the rebuild is skipped silently
/// (`Ok(false)`: nothing was rebuilt); any other error fails the rebuild.
pub fn rebuild_failure(err: SwapchainError) -> (r: Result<bool, SwapchainError>)
    ensures
        err == SwapchainError::ZeroExtent ==> r == Ok::<bool, SwapchainError>(false),
        err != SwapchainError::ZeroExtent ==> r == Err::<bool, SwapchainError>(err),
{
    match err {
        SwapchainError::ZeroExtent => Ok(false),
        other => Err(other),
    }
}

} // verus!

verus! {

proof fn lemma_first_preferred_prop(formats: Seq<SurfaceFormat>, i: int)
    requires
        0 <= i,
    ensures
        first_preferred(formats, i) == -1 || (i <= first_preferred(formats, i) < formats.len()
            && is_preferred_format(formats[first_preferred(formats, i)])),
        first_preferred(formats, i) == -1 ==> forall|j: int| i <= j < formats.len() ==> !is_preferred_format(#[trigger] formats[j]),
        forall|j: int| i <= j < first_preferred(formats, i) ==> !is_preferred_format(#[trigger] formats[j]),
    decreases formats.len() - i,
{
    if i < formats.len() && !is_preferred_format(formats[i]) {
        lemma_first_preferred_prop(formats, i + 1);
    }
}

/// The chosen format is one the surface offers, and it is the preferred
/// BGRA8 sRGB format whenever the surface offers that one.
pub proof fn lemma_chosen_format_offered(formats: Seq<SurfaceFormat>)
    ensures
        spec_choose_format(formats) matches Ok(f) ==> formats.contains(f),
        (exists|i: int| 0 <= i < formats.len() && is_preferred_format(#[trigger] formats[i]))
            ==> (spec_choose_format(formats) matches Ok(f) && is_preferred_format(f)),
{
    lemma_first_preferred_prop(formats, 0);
    if formats.len() > 0 {
        let fp = first_preferred(formats, 0);
        if fp >= 0 {
            assert(formats[fp] == formats[fp]);
        } else {
            assert(formats[0] == formats[0]);
        }
    }
}

/// The format chosen is the first BGRA8 sRGB format with the sRGB non-linear
/// color space that the surface offers; when it offers none, the first format
/// it offers; when it offers no format, there is none to choose.
pub proof fn law_choose_format(formats: Seq<SurfaceFormat>)
    ensures
        formats.len() == 0 ==> spec_choose_format(formats) == Err::<SurfaceFormat, SwapchainError>(
            SwapchainError::NoSuitableFormat,
        ),
        (exists|i: int| 0 <= i < formats.len() && (#[trigger] formats[i]).format == Format::B8G8R8A8Srgb
            && formats[i].color_space == ColorSpace::SrgbNonlinear) ==> exists|i: int| {
            &&& 0 <= i < formats.len()
            &&& (#[trigger] formats[i]).format == Format::B8G8R8A8Srgb
            &&& formats[i].color_space == ColorSpace::SrgbNonlinear
            &&& forall|j: int| 0 <= j < i ==> !((#[trigger] formats[j]).format == Format::B8G8R8A8Srgb
                && formats[j].color_space == ColorSpace::SrgbNonlinear)
            &&& spec_choose_format(formats) == Ok::<SurfaceFormat, SwapchainError>(formats[i])
        },
        (exists|i: int| 0 <= i < formats.len() && (#[trigger] formats[i]).format == Format::B8G8R8A8Srgb
            && formats[i].color_space == ColorSpace::SrgbNonlinear) ==> (spec_choose_format(formats) matches Ok(f)
            && f.format == Format::B8G8R8A8Srgb && f.color_space == ColorSpace::SrgbNonlinear),
        (formats.len() > 0 && forall|i: int| 0 <= i < formats.len() ==> !((#[trigger] formats[i]).format
            == Format::B8G8R8A8Srgb && formats[i].color_space == ColorSpace::SrgbNonlinear))
            ==> spec_choose_format(formats) == Ok::<SurfaceFormat, SwapchainError>(formats[0]),
{
    lemma_first_preferred_prop(formats, 0);
    let fp = first_preferred(formats, 0);
    if exists|i: int| 0 <= i < formats.len() && (#[trigger] formats[i]).format == Format::B8G8R8A8Srgb
        && formats[i].color_space == ColorSpace::SrgbNonlinear {
        let w = choose|i: int| 0 <= i < formats.len() && (#[trigger] formats[i]).format == Format::B8G8R8A8Srgb
            && formats[i].color_space == ColorSpace::SrgbNonlinear;
        assert(is_preferred_format(formats[w]));
        assert(fp >= 0);
        assert forall|j: int| 0 <= j < fp implies !((#[trigger] formats[j]).format == Format::B8G8R8A8Srgb
            && formats[j].color_space == ColorSpace::SrgbNonlinear) by {
            assert(!is_preferred_format(formats[j]));
        }
        assert(formats[fp].format == Format::B8G8R8A8Srgb);
    } else if formats.len() > 0 {
        if fp >= 0 {
            assert(is_preferred_format(formats[fp]));
            assert(formats[fp].format == Format::B8G8R8A8Srgb);
        }
    }
}

/// The chosen extent is the surface's own, non-zero, when the surface fixes
/// one; otherwise it lies within the supported range.
pub proof fn lemma_extent_within_bounds(caps: SurfaceCapabilities, window: (u32, u32))
    requires
        extent_bounds_ok(caps, window),
    ensures
        spec_choose_extent(caps, window) matches Ok(e) ==> (if surface_fixes_extent(caps) {
            e == caps.current_extent && e.width > 0 && e.height > 0
        } else {
            &&& caps.min_image_extent.width <= e.width <= caps.max_image_extent.width
            &&& caps.min_image_extent.height <= e.height <= caps.max_image_extent.height
        }),
{
}

/// The requested image count is at least one more than the minimum, unless
/// the maximum stops it; it never exceeds a maximum the surface sets.
pub proof fn lemma_image_count_bounds(caps: SurfaceCapabilities)
    requires
        caps.max_image_count == 0 || caps.max_image_count >= caps.min_image_count,
    ensures
        spec_image_count(caps) >= caps.min_image_count,
        spec_image_count(caps) >= 1,
        caps.max_image_count > 0 ==> spec_image_count(caps) <= caps.max_image_count,
        (caps.max_image_count == 0 || caps.max_image_count > caps.min_image_count)
            ==> spec_image_count(caps) == caps.min_image_count + 1,
{
}

} // verus!
