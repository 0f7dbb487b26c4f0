//! An image of the application as a surface that the backend draws into.
//!
//! The image and its memory stay the application's. The surface keeps a copy
//! of what the backend was told of them, and the layout of the image as the
//! backend last reported it.

use crate::context::Context;
use crate::driver::{DeviceMemory, Image};
use vstd::prelude::*;

verus! {

/// How the texels of an image are arranged in memory.
#[derive(Clone, Copy, Debug, PartialEq, Eq, Structural)]
pub enum ImageTiling {
    Optimal,
    Linear,
}

/// The use that the contents of an image are arranged for at a point in time.
#[derive(Clone, Copy, Debug, PartialEq, Eq, Structural)]
pub enum ImageLayout {
    Undefined,
    General,
    ColorAttachmentOptimal,
    DepthStencilAttachmentOptimal,
    DepthStencilReadOnlyOptimal,
    ShaderReadOnlyOptimal,
    TransferSrcOptimal,
    TransferDstOptimal,
    Preinitialized,
    PresentSrc,
    /// A layout of an extension, by its number.
    Extension(u32),
}

/// The number of the layout for presenting an image.
pub const PRESENT_SRC: u32 = 1000001002;

impl ImageLayout {
    /// The number that the driver knows the layout by.
    pub open spec fn raw_spec(self) -> u32 {
        match self {
            ImageLayout::Undefined => 0,
            ImageLayout::General => 1,
            ImageLayout::ColorAttachmentOptimal => 2,
            ImageLayout::DepthStencilAttachmentOptimal => 3,
            ImageLayout::DepthStencilReadOnlyOptimal => 4,
            ImageLayout::ShaderReadOnlyOptimal => 5,
            ImageLayout::TransferSrcOptimal => 6,
            ImageLayout::TransferDstOptimal => 7,
            ImageLayout::Preinitialized => 8,
            ImageLayout::PresentSrc => PRESENT_SRC,
            ImageLayout::Extension(raw) => raw,
        }
    }

    /// The layout that the driver knows by a number.
    pub open spec fn from_raw_spec(raw: u32) -> ImageLayout {
        if raw == 0 {
            ImageLayout::Undefined
        } else if raw == 1 {
            ImageLayout::General
        } else if raw == 2 {
            ImageLayout::ColorAttachmentOptimal
        } else if raw == 3 {
            ImageLayout::DepthStencilAttachmentOptimal
        } else if raw == 4 {
            ImageLayout::DepthStencilReadOnlyOptimal
        } else if raw == 5 {
            ImageLayout::ShaderReadOnlyOptimal
        } else if raw == 6 {
            ImageLayout::TransferSrcOptimal
        } else if raw == 7 {
            ImageLayout::TransferDstOptimal
        } else if raw == 8 {
            ImageLayout::Preinitialized
        } else if raw == PRESENT_SRC {
            ImageLayout::PresentSrc
        } else {
            ImageLayout::Extension(raw)
        }
    }

    /// A layout is canonical when no named layout is written as an extension.
    pub open spec fn canonical(self) -> bool {
        self matches ImageLayout::Extension(raw) ==> raw > 8 && raw != PRESENT_SRC
    }

    /// Numbers and canonical layouts stand for each other: a number names
    /// the canonical layout that has that number, and no other.
    pub proof fn lemma_raw_round_trip(self, raw: u32)
        ensures
            ImageLayout::from_raw_spec(raw).canonical(),
            ImageLayout::from_raw_spec(raw).raw_spec() == raw,
            self.canonical() ==> ImageLayout::from_raw_spec(self.raw_spec()) == self,
    {
    }

    /// The number that the driver knows the layout by.
    pub fn raw(&self) -> (raw: u32)
        ensures
            raw == self.raw_spec(),
    {
        match self {
            ImageLayout::Undefined => 0,
            ImageLayout::General => 1,
            ImageLayout::ColorAttachmentOptimal => 2,
            ImageLayout::DepthStencilAttachmentOptimal => 3,
            ImageLayout::DepthStencilReadOnlyOptimal => 4,
            ImageLayout::ShaderReadOnlyOptimal => 5,
            ImageLayout::TransferSrcOptimal => 6,
            ImageLayout::TransferDstOptimal => 7,
            ImageLayout::Preinitialized => 8,
            ImageLayout::PresentSrc => PRESENT_SRC,
            ImageLayout::Extension(raw) => *raw,
        }
    }

    /// The layout that the driver knows by a number, in canonical form.
    pub fn from_raw(raw: u32) -> (layout: ImageLayout)
        ensures
            layout == ImageLayout::from_raw_spec(raw),
            layout.canonical(),
            layout.raw_spec() == raw,
    {
        if raw == 0 {
            ImageLayout::Undefined
        } else if raw == 1 {
            ImageLayout::General
        } else if raw == 2 {
            ImageLayout::ColorAttachmentOptimal
        } else if raw == 3 {
            ImageLayout::DepthStencilAttachmentOptimal
        } else if raw == 4 {
            ImageLayout::DepthStencilReadOnlyOptimal
        } else if raw == 5 {
            ImageLayout::ShaderReadOnlyOptimal
        } else if raw == 6 {
            ImageLayout::TransferSrcOptimal
        } else if raw == 7 {
            ImageLayout::TransferDstOptimal
        } else if raw == 8 {
            ImageLayout::Preinitialized
        } else if raw == PRESENT_SRC {
            ImageLayout::PresentSrc
        } else {
            ImageLayout::Extension(raw)
        }
    }
}

/// The format of the texels of an image: four channels of eight bits.
#[derive(Clone, Copy, Debug, PartialEq, Eq, Structural)]
pub enum Format {
    R8G8B8A8Unorm,
    R8G8B8A8Srgb,
    B8G8R8A8Unorm,
    B8G8R8A8Srgb,
}

/// The corner of a surface that its coordinates start from.
#[derive(Clone, Copy, Debug, PartialEq, Eq, Structural)]
pub enum SurfaceOrigin {
    TopLeft,
    BottomLeft,
}

/// How the backend reads the channels of a pixel.
#[derive(Clone, Copy, Debug, PartialEq, Eq, Structural)]
pub enum ColorType {
    Rgba8888,
    Bgra8888,
}

/// What the backend does with pending work when it hands out the texture
/// behind a surface.
#[derive(Clone, Copy, Debug, PartialEq, Eq, Structural)]
pub enum BackendHandleAccess {
    /// Pending writes are submitted: the texture can be read.
    FlushRead,
    /// Pending writes are submitted: the texture can be written.
    FlushWrite,
    /// Pending writes are dropped: the texture will be overwritten.
    DiscardWrite,
}

/// The part of an allocation of device memory that backs an image.
#[derive(Clone, Copy, Debug, PartialEq, Eq, Structural)]
pub struct Alloc {
    pub memory: u64,
    pub offset: u64,
    pub size: u64,
    /// Flags of the allocation, one bit each; zero for none.
    pub flags: u32,
}

/// An image as the backend is told of it.
#[derive(Clone, Copy, Debug, PartialEq, Eq, Structural)]
pub struct ImageInfo {
    pub image: u64,
    pub alloc: Alloc,
    pub tiling: ImageTiling,
    pub layout: ImageLayout,
    pub format: Format,
    pub level_count: u32,
}

/// An image of the application wrapped as a texture of the backend.
#[derive(Clone, Copy, Debug, PartialEq, Eq, Structural)]
pub struct BackendTexture {
    pub width: i32,
    pub height: i32,
    pub image_info: ImageInfo,
}

/// What the backend is asked for when a surface is made of a texture.
#[derive(Clone, Copy, Debug, PartialEq, Eq, Structural)]
pub struct SurfaceRequest {
    pub texture: BackendTexture,
    pub origin: SurfaceOrigin,
    pub sample_count: usize,
    pub color_type: ColorType,
}

/// What is known of the drawing handle of a surface: the extent that can be
/// drawn to.
#[derive(Clone, Copy, Debug, PartialEq, Eq, Structural)]
pub struct Canvas {
    pub width: i32,
    pub height: i32,
}

/// The allocation that backs an image: all that the image requires, from the
/// start of the application's memory, with no flag set.
pub open spec fn alloc_of(image: Image, memory: DeviceMemory) -> Alloc {
    Alloc { memory: memory.handle, offset: 0, size: image.required_size, flags: 0 }
}

/// An image as the backend is told of it at import: optimal tiling, laid out
/// for reading by shaders, eight-bit RGBA texels in non-linear encoding, one
/// mip level.
pub open spec fn image_info_of(image: Image, memory: DeviceMemory) -> ImageInfo {
    ImageInfo {
        image: image.handle,
        alloc: alloc_of(image, memory),
        tiling: ImageTiling::Optimal,
        layout: ImageLayout::ShaderReadOnlyOptimal,
        format: Format::R8G8B8A8Srgb,
        level_count: 1,
    }
}

/// What the backend is asked for at import: a surface of the declared size
/// over the image, with its origin at the top left, one sample per pixel and
/// pixels read as eight-bit RGBA.
pub open spec fn request_of(image: Image, memory: DeviceMemory, width: i32, height: i32) -> SurfaceRequest {
    SurfaceRequest {
        texture: BackendTexture { width, height, image_info: image_info_of(image, memory) },
        origin: SurfaceOrigin::TopLeft,
        sample_count: 1,
        color_type: ColorType::Rgba8888,
    }
}

/// What every import fixes of a texture, whatever the image: the allocation
/// is taken from its start and has no flag set, the tiling is optimal, the
/// texels are eight-bit RGBA in non-linear encoding, and there is one mip
/// level.
pub open spec fn follows_policy(texture: BackendTexture) -> bool {
    &&& texture.image_info.alloc.offset == 0
    &&& texture.image_info.alloc.flags == 0
    &&& texture.image_info.tiling == ImageTiling::Optimal
    &&& texture.image_info.format == Format::R8G8B8A8Srgb
    &&& texture.image_info.level_count == 1
}

/// A texture with another layout recorded for its image.
pub open spec fn with_layout(texture: BackendTexture, layout: ImageLayout) -> BackendTexture {
    BackendTexture {
        image_info: ImageInfo { layout, ..texture.image_info },
        ..texture
    }
}

/// Recording a layout changes the layout and nothing else, and the layout
/// that was recorded last is the one that stands.
pub proof fn lemma_with_layout(texture: BackendTexture, first: ImageLayout, last: ImageLayout)
    ensures
        with_layout(texture, last).image_info.layout == last,
        with_layout(texture, last).width == texture.width,
        with_layout(texture, last).height == texture.height,
        with_layout(texture, last).image_info.image == texture.image_info.image,
        with_layout(texture, last).image_info.alloc == texture.image_info.alloc,
        with_layout(texture, last).image_info.tiling == texture.image_info.tiling,
        with_layout(texture, last).image_info.format == texture.image_info.format,
        with_layout(texture, last).image_info.level_count == texture.image_info.level_count,
        with_layout(with_layout(texture, first), last) == with_layout(texture, last),
        with_layout(texture, texture.image_info.layout) == texture,
{
}

/// Two imports stand apart: each request names the image and the memory that
/// it was made for, so requests for different images name different images,
/// and requests for different allocations name different allocations.
pub proof fn lemma_imports_stand_apart(
    image: Image,
    memory: DeviceMemory,
    size: (i32, i32),
    other_image: Image,
    other_memory: DeviceMemory,
    other_size: (i32, i32),
)
    ensures
        request_of(image, memory, size.0, size.1).texture.image_info.image == image.handle,
        request_of(image, memory, size.0, size.1).texture.image_info.alloc.memory == memory.handle,
        image.handle != other_image.handle ==> request_of(
            image,
            memory,
            size.0,
            size.1,
        ).texture.image_info.image != request_of(
            other_image,
            other_memory,
            other_size.0,
            other_size.1,
        ).texture.image_info.image,
        memory.handle != other_memory.handle ==> request_of(
            image,
            memory,
            size.0,
            size.1,
        ).texture.image_info.alloc.memory != request_of(
            other_image,
            other_memory,
            other_size.0,
            other_size.1,
        ).texture.image_info.alloc.memory,
{
}

/// A surface of the backend over an image of the application.
pub struct Surface {
    texture: BackendTexture,
}

impl Surface {
    /// The texture behind the surface, with the layout that was last
    /// established for its image.
    pub closed spec fn backend_texture(&self) -> BackendTexture {
        self.texture
    }

    #[verifier::type_invariant]
    spec fn imported(&self) -> bool {
        follows_policy(self.texture)
    }

    /// The extent that can be drawn to.
    pub open spec fn extent(&self) -> Canvas {
        Canvas { width: self.backend_texture().width, height: self.backend_texture().height }
    }

    /// A surface that was imported with a declared size draws to exactly that
    /// extent, whatever layout was read back for its image since.
    pub proof fn lemma_extent_is_declared_size(
        self,
        image: Image,
        memory: DeviceMemory,
        width: i32,
        height: i32,
        layout: ImageLayout,
    )
        requires
            self.backend_texture() == with_layout(
                request_of(image, memory, width, height).texture,
                layout,
            ),
        ensures
            self.extent() == (Canvas { width, height }),
    {
    }

    /// Imports an image as a surface.
    ///
    /// `create` asks the backend for the surface and says whether the backend
    /// made it. There is a surface exactly when it did.
    pub fn from_texture<F>(
        context: &mut Context,
        texture: (&Image, &DeviceMemory, (i32, i32)),
        create: F,
    ) -> (surface: Option<Surface>) where F: FnOnce(&SurfaceRequest) -> bool
        requires
            call_requires(
                create,
                (&request_of(*texture.0, *texture.1, texture.2.0, texture.2.1),),
            ),
        ensures
            *final(context) == *old(context),
            surface is Some ==> call_ensures(
                create,
                (&request_of(*texture.0, *texture.1, texture.2.0, texture.2.1),),
                true,
            ) && surface->0.backend_texture() == request_of(
                *texture.0,
                *texture.1,
                texture.2.0,
                texture.2.1,
            ).texture,
            surface is None ==> call_ensures(
                create,
                (&request_of(*texture.0, *texture.1, texture.2.0, texture.2.1),),
                false,
            ),
    {
        let (image, image_memory, (width, height)) = texture;
        let allocation_size: u64 = image.required_size;
        let alloc = Alloc { memory: image_memory.handle, offset: 0, size: allocation_size, flags: 0 };
        let image_info = ImageInfo {
            image: image.handle,
            alloc,
            tiling: ImageTiling::Optimal,
            layout: ImageLayout::ShaderReadOnlyOptimal,
            format: Format::R8G8B8A8Srgb,
            level_count: 1,
        };
        let backend_texture = BackendTexture { width, height, image_info };
        let request = SurfaceRequest {
            texture: backend_texture,
            origin: SurfaceOrigin::TopLeft,
            sample_count: 1,
            color_type: ColorType::Rgba8888,
        };
        if create(&request) {
            Some(Surface { texture: backend_texture })
        } else {
            None
        }
    }

    /// The texture behind the surface, with the layout that was last
    /// established for its image.
    pub fn texture(&self) -> (texture: BackendTexture)
        ensures
            texture == self.backend_texture(),
            follows_policy(texture),
    {
        proof {
            use_type_invariant(self);
        }
        self.texture
    }

    /// What is known of the drawing handle: it draws to the extent that was
    /// declared at import.
    pub fn canvas(&mut self) -> (canvas: Canvas)
        ensures
            canvas == old(self).extent(),
            *final(self) == *old(self),
    {
        Canvas { width: self.texture.width, height: self.texture.height }
    }

    /// Has the backend submit the drawing work that it holds back.
    pub fn flush<F>(&mut self, submit: F) where F: FnOnce() -> ()
        requires
            call_requires(submit, ()),
        ensures
            call_ensures(submit, (), ()),
            *final(self) == *old(self),
    {
        submit()
    }

    /// The layout that the image is in.
    ///
    /// `read_back` asks the backend for the layout that it records for the
    /// texture behind the surface, with the access that it is given. It is
    /// asked with the access for reading, so that pending writes are
    /// submitted first. What it reports is returned, whatever was recorded
    /// before, and recorded.
    pub fn image_layout<F>(&mut self, read_back: F) -> (layout: ImageLayout) where
        F: FnOnce(BackendHandleAccess) -> ImageLayout,

        requires
            call_requires(read_back, (BackendHandleAccess::FlushRead,)),
        ensures
            call_ensures(read_back, (BackendHandleAccess::FlushRead,), layout),
            final(self).backend_texture() == with_layout(old(self).backend_texture(), layout),
    {
        proof {
            use_type_invariant(&*self);
        }
        let layout = read_back(BackendHandleAccess::FlushRead);
        self.texture.image_info.layout = layout;
        layout
    }
}

} // verus!
