//! Vulkan resource descriptors, over plain values.
//!
//! Handles, enumerations and flag words are carried as the plain integers the
//! GPU interface defines for them; a null handle is 0. The descriptors own
//! none of the resources they name: a handle stored here is a caller-managed
//! token, and the caller keeps the named resource alive for as long as the
//! descriptor is used.

use vstd::prelude::*;

verus! {

/// A device-memory handle.
pub type DeviceMemory = u64;

/// A byte offset or byte size within device memory.
pub type DeviceSize = u64;

/// An image handle.
pub type Image = u64;

/// An instance handle.
pub type Instance = u64;

/// A logical-device handle.
pub type Device = u64;

/// A secondary command-buffer handle.
pub type CommandBuffer = u64;

/// A render-pass handle.
pub type RenderPass = u64;

/// The engine's opaque backend-memory token.
pub type BackendMemory = u64;

/// A pixel format, as its enumeration word.
pub type Format = u32;

/// A YCbCr color-model conversion, as its enumeration word.
pub type SamplerYcbcrModelConversion = u32;

/// A YCbCr value range, as its enumeration word.
pub type SamplerYcbcrRange = u32;

/// A chroma sample location, as its enumeration word.
pub type ChromaLocation = u32;

/// A sampler filter mode, as its enumeration word.
pub type Filter = u32;

/// An image tiling mode, as its enumeration word.
pub type ImageTiling = u32;

/// An image layout state, as its enumeration word.
pub type ImageLayout = u32;

/// A 32-bit boolean word: 0 is false, anything else is true.
pub type Bool32 = u32;

/// A format-feature bit mask.
pub type FormatFeatureFlags = u32;

/// The null value of every handle type.
pub const NULL_HANDLE: u64 = 0;

/// The undefined pixel format.
pub const FORMAT_UNDEFINED: Format = 0;

/// The identity color model: such a conversion converts nothing.
pub const SAMPLER_YCBCR_MODEL_CONVERSION_RGB_IDENTITY: SamplerYcbcrModelConversion = 0;

/// The full-range YCbCr encoding.
pub const SAMPLER_YCBCR_RANGE_ITU_FULL: SamplerYcbcrRange = 0;

/// Chroma samples co-sited with the even luma samples.
pub const CHROMA_LOCATION_COSITED_EVEN: ChromaLocation = 0;

/// Nearest-sample filtering.
pub const FILTER_NEAREST: Filter = 0;

/// Optimal (opaque) image tiling.
pub const IMAGE_TILING_OPTIMAL: ImageTiling = 0;

/// The undefined image layout.
pub const IMAGE_LAYOUT_UNDEFINED: ImageLayout = 0;

/// The sentinel queue-family index meaning "no owning family".
pub const QUEUE_FAMILY_IGNORED: u32 = 0xFFFF_FFFF;

/// The flag word of a non-coherent allocation.
pub const ALLOC_FLAG_NONCOHERENT: u32 = 1;

/// The flag word of a mappable allocation.
pub const ALLOC_FLAG_MAPPABLE: u32 = 2;

/// The allocation flags: a bit set over the closed pair of flags an
/// allocation can carry, held as two named bits.
#[derive(Clone, Copy, PartialEq, Eq, Structural, Debug)]
pub struct AllocFlag {
    /// The allocation is not host-coherent.
    pub noncoherent: bool,
    /// The allocation can be mapped for host access.
    pub mappable: bool,
}

impl AllocFlag {
    /// The flag word the set stands for.
    pub open spec fn spec_bits(self) -> u32 {
        if self.noncoherent && self.mappable {
            3
        } else if self.mappable {
            2
        } else if self.noncoherent {
            1
        } else {
            0
        }
    }

    /// The empty set: no flag is raised.
    pub fn empty() -> (r: AllocFlag)
        ensures
            r == (AllocFlag { noncoherent: false, mappable: false }),
            r.spec_bits() == 0,
    {
        AllocFlag { noncoherent: false, mappable: false }
    }

    /// No flag is raised.
    pub fn is_empty(&self) -> (r: bool)
        ensures
            r == (self.spec_bits() == 0),
    {
        !self.noncoherent && !self.mappable
    }

    /// The flag word the set stands for.
    pub fn bits(&self) -> (r: u32)
        ensures
            r == self.spec_bits(),
    {
        if self.noncoherent && self.mappable {
            3
        } else if self.mappable {
            2
        } else if self.noncoherent {
            1
        } else {
            0
        }
    }

    /// The set a flag word stands for: only words over the two defined
    /// flags name a set.
    pub fn from_bits(bits: u32) -> (r: Option<AllocFlag>)
        ensures
            r matches Some(f) ==> bits <= 3 && f.spec_bits() == bits,
            r is None <==> bits > 3,
    {
        if bits > 3 {
            None
        } else {
            Some(
                AllocFlag {
                    noncoherent: bits == ALLOC_FLAG_NONCOHERENT || bits == 3,
                    mappable: bits == ALLOC_FLAG_MAPPABLE || bits == 3,
                },
            )
        }
    }
}

/// An allocation descriptor: a region of caller-owned device memory plus
/// its metadata. The descriptor does not own the memory; the caller keeps
/// the memory alive for as long as the descriptor is used.
#[derive(Clone, Copy, Debug)]
pub struct Alloc {
    /// The device-memory handle the region lies in.
    pub memory: DeviceMemory,
    /// Byte offset of the region within the memory.
    pub offset: DeviceSize,
    /// Byte size of the region.
    pub size: DeviceSize,
    /// The coherency and mappability flags of the region.
    pub flags: AllocFlag,
    /// The engine's opaque backend-memory token, when the engine made the
    /// allocation itself.
    pub backend_memory: BackendMemory,
    /// The allocation came from the system heap rather than device memory.
    /// Only the engine itself marks an allocation so.
    pub uses_system_heap: bool,
}

impl Alloc {
    /// The allocation names no memory and carries no flags: a value safe to
    /// inspect, which no resource stands behind.
    pub open spec fn is_inert(self) -> bool {
        &&& self.memory == NULL_HANDLE
        &&& self.offset == 0
        &&& self.size == 0
        &&& self.flags.spec_bits() == 0
        &&& self.backend_memory == 0
        &&& !self.uses_system_heap
    }

    /// The allocation descriptor for a region of device memory the caller
    /// owns. The caller keeps the memory alive for as long as the returned
    /// descriptor is used.
    pub fn from_device_memory(
        memory: DeviceMemory,
        offset: DeviceSize,
        size: DeviceSize,
        flags: AllocFlag,
    ) -> (r: Alloc)
        ensures
            r.memory == memory,
            r.offset == offset,
            r.size == size,
            r.flags == flags,
            r.backend_memory == 0,
            !r.uses_system_heap,
    {
        Alloc { memory, offset, size, flags, backend_memory: 0, uses_system_heap: false }
    }
}

impl Default for Alloc {
    /// The null allocation: no memory, zero extent, no flags.
    fn default() -> (r: Self)
        ensures
            r.is_inert(),
    {
        Alloc {
            memory: NULL_HANDLE,
            offset: 0,
            size: 0,
            flags: AllocFlag::empty(),
            backend_memory: 0,
            uses_system_heap: false,
        }
    }
}

impl PartialEq for Alloc {
    /// Allocations are equal when the fields that identify the region are:
    /// memory, offset, size and flags. The backend token and the
    /// system-heap mark are the engine's bookkeeping and do not
    /// distinguish allocations.
    fn eq(&self, other: &Self) -> (r: bool) {
        self.memory == other.memory && self.offset == other.offset && self.size == other.size
            && self.flags == other.flags
    }
}

impl vstd::std_specs::cmp::PartialEqSpecImpl for Alloc {
    open spec fn obeys_eq_spec() -> bool {
        true
    }

    open spec fn eq_spec(&self, other: &Alloc) -> bool {
        &&& self.memory == other.memory
        &&& self.offset == other.offset
        &&& self.size == other.size
        &&& self.flags == other.flags
    }
}

/// A YCbCr conversion descriptor: the parameters of a color-space
/// conversion for a chroma-subsampled image format. Exactly one of the
/// concrete format and the external-format tag is set in a real conversion;
/// a descriptor whose color model is the identity stands for no conversion
/// at all.
#[derive(Clone, Copy, PartialEq, Eq, Structural, Debug)]
pub struct YcbcrConversionInfo {
    /// The concrete image format the conversion applies to, or
    /// [`FORMAT_UNDEFINED`] when an external format is tagged instead.
    pub format: Format,
    /// The external-format tag, or 0 when a concrete format is set.
    pub external_format: u64,
    /// The color model of the conversion.
    pub ycrbcr_model: SamplerYcbcrModelConversion,
    /// The value range of the encoded components.
    pub ycbcr_range: SamplerYcbcrRange,
    /// Where the chroma samples sit horizontally.
    pub x_chroma_offset: ChromaLocation,
    /// Where the chroma samples sit vertically.
    pub y_chroma_offset: ChromaLocation,
    /// The filter used when sampling the chroma planes.
    pub chroma_filter: Filter,
    /// Whether chroma reconstruction is forced to be explicit.
    pub force_explicit_reconstruction: Bool32,
    /// The format features the conversion's format supports.
    pub format_features: FormatFeatureFlags,
}

impl YcbcrConversionInfo {
    /// Mutual exclusivity: exactly one of the concrete format and the
    /// external-format tag is set. Every real conversion keeps this; the
    /// constructors demand it of their callers and hand it on to what they
    /// build.
    pub open spec fn sets_one_format_source(self) -> bool {
        (self.format != FORMAT_UNDEFINED) != (self.external_format != 0)
    }

    /// The descriptor of no conversion: the identity color model with every
    /// other parameter zero.
    pub open spec fn spec_default() -> YcbcrConversionInfo {
        YcbcrConversionInfo {
            format: FORMAT_UNDEFINED,
            external_format: 0,
            ycrbcr_model: SAMPLER_YCBCR_MODEL_CONVERSION_RGB_IDENTITY,
            ycbcr_range: SAMPLER_YCBCR_RANGE_ITU_FULL,
            x_chroma_offset: CHROMA_LOCATION_COSITED_EVEN,
            y_chroma_offset: CHROMA_LOCATION_COSITED_EVEN,
            chroma_filter: FILTER_NEAREST,
            force_explicit_reconstruction: 0,
            format_features: 0,
        }
    }

    /// The conversion descriptor with every parameter given. A real
    /// conversion never uses the identity color model, and sets exactly one
    /// of the concrete format and the external-format tag; both demands are
    /// the caller's contract.
    pub fn new_with_format(
        format: Format,
        external_format: u64,
        ycrbcr_model: SamplerYcbcrModelConversion,
        ycbcr_range: SamplerYcbcrRange,
        x_chroma_offset: ChromaLocation,
        y_chroma_offset: ChromaLocation,
        chroma_filter: Filter,
        force_explicit_reconstruction: Bool32,
        format_features: FormatFeatureFlags,
    ) -> (r: YcbcrConversionInfo)
        requires
            ycrbcr_model != SAMPLER_YCBCR_MODEL_CONVERSION_RGB_IDENTITY,
            (format != FORMAT_UNDEFINED) != (external_format != 0),
        ensures
            r == (YcbcrConversionInfo {
                format,
                external_format,
                ycrbcr_model,
                ycbcr_range,
                x_chroma_offset,
                y_chroma_offset,
                chroma_filter,
                force_explicit_reconstruction,
                format_features,
            }),
            r.sets_one_format_source(),
    {
        YcbcrConversionInfo {
            format,
            external_format,
            ycrbcr_model,
            ycbcr_range,
            x_chroma_offset,
            y_chroma_offset,
            chroma_filter,
            force_explicit_reconstruction,
            format_features,
        }
    }

    /// The conversion descriptor for an externally tagged format: the
    /// concrete format is left undefined, so the tag must be non-zero.
    pub fn new(
        ycrbcr_model: SamplerYcbcrModelConversion,
        ycbcr_range: SamplerYcbcrRange,
        x_chroma_offset: ChromaLocation,
        y_chroma_offset: ChromaLocation,
        chroma_filter: Filter,
        force_explicit_reconstruction: Bool32,
        external_format: u64,
        external_format_features: FormatFeatureFlags,
    ) -> (r: YcbcrConversionInfo)
        requires
            ycrbcr_model != SAMPLER_YCBCR_MODEL_CONVERSION_RGB_IDENTITY,
            external_format != 0,
        ensures
            r == (YcbcrConversionInfo {
                format: FORMAT_UNDEFINED,
                external_format,
                ycrbcr_model,
                ycbcr_range,
                x_chroma_offset,
                y_chroma_offset,
                chroma_filter,
                force_explicit_reconstruction,
                format_features: external_format_features,
            }),
            r.sets_one_format_source(),
    {
        Self::new_with_format(
            FORMAT_UNDEFINED,
            external_format,
            ycrbcr_model,
            ycbcr_range,
            x_chroma_offset,
            y_chroma_offset,
            chroma_filter,
            force_explicit_reconstruction,
            external_format_features,
        )
    }

    /// The descriptor names a real conversion: its color model is not the
    /// identity.
    pub fn is_valid(&self) -> (r: bool)
        ensures
            r == (self.ycrbcr_model != SAMPLER_YCBCR_MODEL_CONVERSION_RGB_IDENTITY),
    {
        self.ycrbcr_model != SAMPLER_YCBCR_MODEL_CONVERSION_RGB_IDENTITY
    }
}

impl Default for YcbcrConversionInfo {
    /// The descriptor of no conversion.
    fn default() -> (r: Self)
        ensures
            r == YcbcrConversionInfo::spec_default(),
    {
        YcbcrConversionInfo {
            format: FORMAT_UNDEFINED,
            external_format: 0,
            ycrbcr_model: SAMPLER_YCBCR_MODEL_CONVERSION_RGB_IDENTITY,
            ycbcr_range: SAMPLER_YCBCR_RANGE_ITU_FULL,
            x_chroma_offset: CHROMA_LOCATION_COSITED_EVEN,
            y_chroma_offset: CHROMA_LOCATION_COSITED_EVEN,
            chroma_filter: FILTER_NEAREST,
            force_explicit_reconstruction: 0,
            format_features: 0,
        }
    }
}

/// Whether an image holds protected content.
#[derive(Clone, Copy, PartialEq, Eq, Structural, Debug)]
pub enum Protected {
    No,
    Yes,
}

/// An image descriptor: the identity and current state of a caller-owned
/// image. The caller keeps the image and its allocation alive for as long
/// as the descriptor is used.
#[derive(Clone, Copy, Debug)]
pub struct ImageInfo {
    /// The image handle.
    pub image: Image,
    /// The allocation backing the image.
    pub alloc: Alloc,
    /// The image's tiling mode.
    pub tiling: ImageTiling,
    /// The image's current layout state.
    pub layout: ImageLayout,
    /// The image's pixel format.
    pub format: Format,
    /// How many mip levels the image has.
    pub level_count: u32,
    /// The queue family owning the image, or [`QUEUE_FAMILY_IGNORED`].
    pub current_queue_family: u32,
    /// Whether the image holds protected content.
    pub protected: Protected,
    /// The YCbCr conversion the image's format takes, if any.
    pub ycbcr_conversion_info: YcbcrConversionInfo,
}

impl ImageInfo {
    /// Every handle is null, every extent zero, every state the undefined
    /// one: a value safe to inspect, which no resource stands behind.
    pub open spec fn is_inert(self) -> bool {
        &&& self.image == NULL_HANDLE
        &&& self.alloc.is_inert()
        &&& self.tiling == IMAGE_TILING_OPTIMAL
        &&& self.layout == IMAGE_LAYOUT_UNDEFINED
        &&& self.format == FORMAT_UNDEFINED
        &&& self.level_count == 0
        &&& self.current_queue_family == QUEUE_FAMILY_IGNORED
        &&& self.protected == Protected::No
        &&& self.ycbcr_conversion_info == YcbcrConversionInfo::spec_default()
    }

    /// The image descriptor with the given identity and state; an absent
    /// queue family defaults to the ignored sentinel, an absent conversion
    /// to no conversion, an absent protection mark to unprotected. The
    /// caller keeps the image and the allocation alive for as long as the
    /// returned descriptor is used.
    pub fn new(
        image: Image,
        alloc: Alloc,
        tiling: ImageTiling,
        layout: ImageLayout,
        format: Format,
        level_count: u32,
        current_queue_family: Option<u32>,
        ycbcr_conversion_info: Option<YcbcrConversionInfo>,
        protected: Option<Protected>,
    ) -> (r: ImageInfo)
        ensures
            r.image == image,
            r.alloc == alloc,
            r.tiling == tiling,
            r.layout == layout,
            r.format == format,
            r.level_count == level_count,
            current_queue_family matches Some(q) ==> r.current_queue_family == q,
            current_queue_family is None ==> r.current_queue_family == QUEUE_FAMILY_IGNORED,
            ycbcr_conversion_info matches Some(y) ==> r.ycbcr_conversion_info == y,
            ycbcr_conversion_info is None ==> r.ycbcr_conversion_info
                == YcbcrConversionInfo::spec_default(),
            protected matches Some(p) ==> r.protected == p,
            protected is None ==> r.protected == Protected::No,
    {
        let current_queue_family = match current_queue_family {
            Some(q) => q,
            None => QUEUE_FAMILY_IGNORED,
        };
        let ycbcr_conversion_info = match ycbcr_conversion_info {
            Some(y) => y,
            None => YcbcrConversionInfo::default(),
        };
        let protected = match protected {
            Some(p) => p,
            None => Protected::No,
        };
        ImageInfo {
            image,
            alloc,
            tiling,
            layout,
            format,
            level_count,
            current_queue_family,
            protected,
            ycbcr_conversion_info,
        }
    }

    /// The image descriptor with the given identity and state: the older
    /// name of [`ImageInfo::new`], kept for callers that still use it.
    pub fn from_image(
        image: Image,
        alloc: Alloc,
        tiling: ImageTiling,
        layout: ImageLayout,
        format: Format,
        level_count: u32,
        current_queue_family: Option<u32>,
        ycbcr_conversion_info: Option<YcbcrConversionInfo>,
        protected: Option<Protected>,
    ) -> (r: ImageInfo)
        ensures
            r.image == image,
            r.alloc == alloc,
            r.tiling == tiling,
            r.layout == layout,
            r.format == format,
            r.level_count == level_count,
            current_queue_family matches Some(q) ==> r.current_queue_family == q,
            current_queue_family is None ==> r.current_queue_family == QUEUE_FAMILY_IGNORED,
            ycbcr_conversion_info matches Some(y) ==> r.ycbcr_conversion_info == y,
            ycbcr_conversion_info is None ==> r.ycbcr_conversion_info
                == YcbcrConversionInfo::spec_default(),
            protected matches Some(p) ==> r.protected == p,
            protected is None ==> r.protected == Protected::No,
    {
        Self::new(
            image,
            alloc,
            tiling,
            layout,
            format,
            level_count,
            current_queue_family,
            ycbcr_conversion_info,
            protected,
        )
    }

    /// A copy of the descriptor with its layout state overridden and every
    /// other field kept. The caller keeps the copied descriptor's image and
    /// allocation alive for as long as the copy is used.
    pub fn from_info(info: &ImageInfo, layout: ImageLayout) -> (r: ImageInfo)
        ensures
            r == (ImageInfo { layout, ..*info }),
    {
        ImageInfo { layout, ..*info }
    }
}

impl Default for ImageInfo {
    /// The inert image descriptor: null handles, zero extents, undefined
    /// states.
    fn default() -> (r: Self)
        ensures
            r.is_inert(),
    {
        ImageInfo {
            image: NULL_HANDLE,
            alloc: Alloc::default(),
            tiling: IMAGE_TILING_OPTIMAL,
            layout: IMAGE_LAYOUT_UNDEFINED,
            format: FORMAT_UNDEFINED,
            level_count: 0,
            current_queue_family: QUEUE_FAMILY_IGNORED,
            protected: Protected::No,
            ycbcr_conversion_info: YcbcrConversionInfo::default(),
        }
    }
}

/// A procedure-resolution request: look a named procedure up for an
/// instance or for a logical device.
#[derive(Clone, Debug)]
pub enum GetProcOf {
    /// Resolve the named procedure for the given instance.
    Instance(Instance, String),
    /// Resolve the named procedure for the given logical device.
    Device(Device, String),
}

impl GetProcOf {
    /// The requested procedure's name.
    pub open spec fn spec_name(self) -> Seq<char> {
        match self {
            GetProcOf::Instance(_, name) => name@,
            GetProcOf::Device(_, name) => name@,
        }
    }

    /// The requested procedure's name.
    pub fn name(&self) -> (r: &String)
        ensures
            r@ == self.spec_name(),
    {
        match self {
            GetProcOf::Instance(_, name) => name,
            GetProcOf::Device(_, name) => name,
        }
    }
}

/// A resolved procedure address, as an opaque word; 0 when the procedure
/// was not found.
pub type GetProcResult = u64;

/// A procedure-address resolver: maps a resolution request to an opaque
/// procedure address. Callers implement it over their loader.
pub trait GetProc {
    /// The address of the requested procedure, or 0 when it has none.
    fn get_proc(&self, of: GetProcOf) -> GetProcResult;
}

/// A drawable descriptor: the handles a caller-recorded draw needs. The
/// draw-bounds token names a caller-owned rectangle the descriptor does not
/// own; the caller keeps it, and every named resource, alive for as long as
/// the descriptor is used.
#[derive(Clone, Copy, Debug)]
pub struct DrawableInfo {
    /// The secondary command buffer the draw is recorded into.
    pub secondary_command_buffer: CommandBuffer,
    /// Which color attachment the draw targets.
    pub color_attachment_index: u32,
    /// A render pass compatible with the one the draw runs in.
    pub compatible_render_pass: RenderPass,
    /// The pixel format of the color attachment.
    pub format: Format,
    /// A non-owning token naming the caller-owned draw-bounds rectangle;
    /// 0 when absent.
    pub draw_bounds: u64,
    /// The image the draw targets.
    pub image: Image,
}

impl Default for DrawableInfo {
    /// The inert drawable descriptor: every handle and token null.
    fn default() -> (r: Self)
        ensures
            r.secondary_command_buffer == NULL_HANDLE,
            r.color_attachment_index == 0,
            r.compatible_render_pass == NULL_HANDLE,
            r.format == FORMAT_UNDEFINED,
            r.draw_bounds == 0,
            r.image == NULL_HANDLE,
    {
        DrawableInfo {
            secondary_command_buffer: NULL_HANDLE,
            color_attachment_index: 0,
            compatible_render_pass: NULL_HANDLE,
            format: FORMAT_UNDEFINED,
            draw_bounds: 0,
            image: NULL_HANDLE,
        }
    }
}

} // verus!
