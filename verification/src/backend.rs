//! Trusted bindings to the GPU backend: gfx's handle types and the two
//! factory calls the asset manager makes, gfx_device_gl supplying the OpenGL
//! implementation behind them.

use vstd::prelude::*;

use crate::kind::{AaMode, TextureKind};
use gfx::texture::AaMode as GlAa;
use gfx::texture::Kind as GlKind;

verus! {

/// gfx_device_gl's GPU resource factory; one is obtained from a live OpenGL
/// context and all creation calls go through it.
#[verifier::external_type_specification]
#[verifier::external_body]
pub struct ExGlFactory(gfx_device_gl::Factory);

/// gfx's texture dimension descriptor (extent, layering and anti-aliasing).
#[verifier::external_type_specification]
#[verifier::external_body]
pub struct ExKind(gfx::texture::Kind);

/// One vertex as the GPU buffer stores it: eight 32-bit words, the position
/// (three), the normal (three) and the texture coordinates (two), each the
/// bit pattern of an IEEE-754 single-precision value.
pub type Vertex = [u32; 8];

/// A vertex buffer handle of the OpenGL backend: gfx's typed buffer handle,
/// held opaquely. Verus sees nothing inside; unverified rendering code may
/// take the handle out through the public field.
#[verifier::external_body]
pub struct GlBuffer {
    pub inner: gfx::handle::Buffer<gfx_device_gl::Resources, Vertex>,
}

/// A draw range of the OpenGL backend: gfx's `Slice`, held opaquely.
#[verifier::external_body]
pub struct GlSlice {
    pub inner: gfx::Slice<gfx_device_gl::Resources>,
}

/// A shader-resource-view handle of the OpenGL backend: gfx's untyped view
/// handle, held opaquely.
#[verifier::external_body]
pub struct GlShaderView {
    pub inner: gfx::handle::RawShaderResourceView<gfx_device_gl::Resources>,
}

/// Relies on gfx's `Factory::create_buffer_immutable` to allocate an
/// immutable GPU vertex buffer holding the given vertices, and on gfx's
/// `Slice::from_vertex_count` for the draw range covering the whole buffer,
/// exactly as gfx's `FactoryExt::create_vertex_buffer_with_slice` builds it
/// for unindexed data. The vertex count must fit the 32-bit draw range. The
/// factory is cloned before use: gfx_device_gl factories share one device
/// behind a reference count, so the clone drives the same device. Returns
/// `None` where gfx reports a creation error; errors the GL driver raises
/// stop the process inside gfx_device_gl.
#[verifier::external_body]
pub(crate) fn create_vertex_buffer(
    factory: &gfx_device_gl::Factory,
    data: &Vec<Vertex>,
) -> (r: Option<(GlBuffer, GlSlice)>)
    requires
        data@.len() <= 0xffff_ffff,
{
    let mut f = factory.clone();
    let role = gfx::buffer::Role::Vertex;
    let bind = gfx::memory::Bind::empty();
    let buffer = match gfx::Factory::create_buffer_immutable(&mut f, data.as_slice(), role, bind) {
        Ok(b) => b,
        Err(_) => return None,
    };
    let slice = gfx::Slice::from_vertex_count(data.len() as u32);
    Some((GlBuffer { inner: buffer }, GlSlice { inner: slice }))
}

/// Builds gfx's texture kind carrying the same dimensions, layer count and
/// anti-aliasing mode as the library's. Relies only on gfx's `Kind` and
/// `AaMode` constructors; the result is opaque here.
#[verifier::external_body]
fn to_gl_kind(kind: TextureKind) -> (r: gfx::texture::Kind) {
    let aa = |m: AaMode| match m {
        AaMode::Single => GlAa::Single,
        AaMode::Multi(n) => GlAa::Multi(n),
        AaMode::Coverage(c, f) => GlAa::Coverage(c, f),
    };
    match kind {
        TextureKind::D1(w) => GlKind::D1(w),
        TextureKind::D1Array(w, a) => GlKind::D1Array(w, a),
        TextureKind::D2(w, h, m) => GlKind::D2(w, h, aa(m)),
        TextureKind::D2Array(w, h, a, m) => GlKind::D2Array(w, h, a, aa(m)),
        TextureKind::D3(w, h, d) => GlKind::D3(w, h, d),
        TextureKind::Cube(w) => GlKind::Cube(w),
        TextureKind::CubeArray(w, a) => GlKind::CubeArray(w, a),
    }
}

/// Relies on gfx's `Factory::create_texture_immutable` with gfx's 8-bit RGBA
/// color format: it uploads the given pixel chunks (one chunk per layer,
/// face and mip level, mip data provided in full) into a fresh immutable
/// texture and returns a shader-resource view of it, untyped through gfx's
/// `Typed::raw`. The data must satisfy `TextureKind::valid_data`: gfx
/// panics on more than 256 chunks, divides by the layer count, and its
/// OpenGL upload reads each chunk to its mip level's extent without
/// checking the chunk's length. Returns `None` where gfx reports a creation
/// error; errors the GL driver raises stop the process inside
/// gfx_device_gl.
#[verifier::external_body]
pub(crate) fn create_texture(
    factory: &gfx_device_gl::Factory,
    kind: TextureKind,
    data: &[&[[u8; 4]]],
) -> (r: Option<GlShaderView>)
    requires
        kind.valid_data(data@),
{
    let mut f = factory.clone();
    let made = gfx::Factory::create_texture_immutable::<gfx::format::Rgba8>(
        &mut f,
        to_gl_kind(kind),
        gfx::texture::Mipmap::Provided,
        data,
    );
    match made {
        Ok((_, view)) => Some(GlShaderView { inner: gfx::memory::Typed::raw(&view).clone() }),
        Err(_) => None,
    }
}

/// Relies on `Clone` of gfx's buffer handle: the clone is a handle to the
/// same GPU buffer, equal to the original.
#[verifier::external_body]
pub(crate) fn clone_buffer(buffer: &GlBuffer) -> (r: GlBuffer)
    ensures
        r == *buffer,
{
    GlBuffer { inner: buffer.inner.clone() }
}

/// Relies on `Clone` of gfx's `Slice`: the clone holds the same range fields
/// and a handle to the same index buffer, equal to the original.
#[verifier::external_body]
pub(crate) fn clone_slice(slice: &GlSlice) -> (r: GlSlice)
    ensures
        r == *slice,
{
    GlSlice { inner: slice.inner.clone() }
}

/// Relies on `Clone` of gfx's untyped shader-resource-view handle: the clone
/// is a handle to the same view, equal to the original.
#[verifier::external_body]
pub(crate) fn clone_view(view: &GlShaderView) -> (r: GlShaderView)
    ensures
        r == *view,
{
    GlShaderView { inner: view.inner.clone() }
}

} // verus!
