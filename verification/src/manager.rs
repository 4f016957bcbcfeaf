//! The asset manager: named caches of meshes and textures over a selectable
//! GPU backend, and on-demand assembly of renderable fragments.

use vstd::prelude::*;

use crate::backend;
use crate::backend::{GlBuffer, GlShaderView, GlSlice, Vertex};
use crate::cache::NameCache;
use crate::kind::TextureKind;

verus! {

/// Selects the GPU backend behind an `AssetManager`.
pub enum FactoryImpl {
    /// The OpenGL backend, driven through a gfx_device_gl factory.
    OpenGL { factory: gfx_device_gl::Factory },
    /// A backend that performs no GPU work; loads are dropped.
    Null,
}

/// A mesh handle as the chosen backend represents it.
pub enum MeshImpl {
    /// A GPU vertex buffer and the draw range covering it.
    OpenGL { buffer: GlBuffer, slice: GlSlice },
    /// The null backend keeps nothing.
    Null,
}

/// A named mesh asset: a backend vertex buffer plus its draw range.
pub struct Mesh {
    pub mesh_impl: MeshImpl,
}

/// Texture contents as the backend holds them: either a shader-resource view
/// of uploaded pixel data, or a constant color kept as plain values.
pub enum BackendTexture {
    /// A view of a texture uploaded to the GPU.
    View { view: GlShaderView },
    /// A solid color; each component is the bit pattern of an IEEE-754
    /// single-precision value, red, green, blue, alpha in order.
    Constant { color: [u32; 4] },
}

/// A texture handle as the chosen backend represents it.
pub enum TextureImpl {
    /// The OpenGL backend's texture contents.
    OpenGL { texture: BackendTexture },
    /// The null backend keeps nothing.
    Null,
}

/// A named texture asset.
pub struct Texture {
    pub texture_impl: TextureImpl,
}

/// The parts of a renderable unit: mesh buffer and draw range, ambient (ka)
/// and diffuse (kd) textures, and a transform matrix whose entries are
/// IEEE-754 single-precision bit patterns, row major.
pub struct FragmentData {
    pub buffer: GlBuffer,
    pub slice: GlSlice,
    pub ka: BackendTexture,
    pub kd: BackendTexture,
    pub transform: [[u32; 4]; 4],
}

/// A renderable unit as the chosen backend represents it.
pub enum FragmentImpl {
    /// The OpenGL backend's renderable unit.
    OpenGL { fragment: FragmentData },
    /// The null backend keeps nothing.
    Null,
}

/// A renderable unit combining a cached mesh, two cached textures and a
/// transform, constructed on demand by `AssetManager::get_fragment`.
pub struct Fragment {
    pub fragment_impl: FragmentImpl,
}

impl Clone for Mesh {
    /// Cloning a mesh clones the underlying backend handles; the clone equals
    /// the original.
    fn clone(&self) -> (r: Self)
        ensures
            r == *self,
    {
        match &self.mesh_impl {
            MeshImpl::OpenGL { buffer, slice } => (Mesh {
                mesh_impl: MeshImpl::OpenGL {
                    buffer: backend::clone_buffer(buffer),
                    slice: backend::clone_slice(slice),
                },
            }),
            MeshImpl::Null => (Mesh { mesh_impl: MeshImpl::Null }),
        }
    }
}

impl Clone for BackendTexture {
    /// Cloning clones the view handle, or copies the constant color; the
    /// clone equals the original.
    fn clone(&self) -> (r: Self)
        ensures
            r == *self,
    {
        match self {
            BackendTexture::View { view } => (BackendTexture::View {
                view: backend::clone_view(view),
            }),
            BackendTexture::Constant { color } => (BackendTexture::Constant { color: *color }),
        }
    }
}

impl Clone for Texture {
    /// Cloning a texture clones its backend contents; the clone equals the
    /// original.
    fn clone(&self) -> (r: Self)
        ensures
            r == *self,
    {
        match &self.texture_impl {
            TextureImpl::OpenGL { texture } => (Texture {
                texture_impl: TextureImpl::OpenGL { texture: texture.clone() },
            }),
            TextureImpl::Null => (Texture { texture_impl: TextureImpl::Null }),
        }
    }
}

/// Loads assets and provides access to them: meshes and textures are cached
/// by name, and fragments are assembled from cached assets.
pub struct AssetManager {
    factory_impl: FactoryImpl,
    meshes: NameCache<Mesh>,
    textures: NameCache<Texture>,
}

impl AssetManager {
    /// The backend selector this manager was created with.
    pub closed spec fn factory(self) -> FactoryImpl {
        self.factory_impl
    }

    /// The mesh cache, as a map from name to mesh.
    pub closed spec fn mesh_cache(self) -> Map<Seq<char>, Mesh> {
        self.meshes@
    }

    /// The texture cache, as a map from name to texture.
    pub closed spec fn texture_cache(self) -> Map<Seq<char>, Texture> {
        self.textures@
    }

    /// Both caches hold at most one entry per name.
    pub closed spec fn wf(self) -> bool {
        self.meshes.wf() && self.textures.wf()
    }

    /// The fragment this manager would assemble from the cached mesh `mesh`,
    /// the cached textures `ka` and `kd`, and a transform: the parts are
    /// combined if the backend is OpenGL and every asset carries OpenGL
    /// contents, and the result is nothing otherwise.
    pub open spec fn fragment_for(
        self,
        mesh: Seq<char>,
        ka: Seq<char>,
        kd: Seq<char>,
        transform: [[u32; 4]; 4],
    ) -> Option<Fragment> {
        if !(self.factory() is OpenGL) {
            None
        } else {
            match (
                self.mesh_cache()[mesh].mesh_impl,
                self.texture_cache()[ka].texture_impl,
                self.texture_cache()[kd].texture_impl,
            ) {
                (
                    MeshImpl::OpenGL { buffer, slice },
                    TextureImpl::OpenGL { texture: ka_texture },
                    TextureImpl::OpenGL { texture: kd_texture },
                ) => Some(
                    Fragment {
                        fragment_impl: FragmentImpl::OpenGL {
                            fragment: FragmentData {
                                buffer,
                                slice,
                                ka: ka_texture,
                                kd: kd_texture,
                                transform,
                            },
                        },
                    },
                ),
                _ => None,
            }
        }
    }

    /// Create a new `AssetManager` over the given backend, with empty caches.
    pub fn new(factory_impl: FactoryImpl) -> (r: AssetManager)
        ensures
            r.wf(),
            r.factory() == factory_impl,
            r.mesh_cache() == Map::<Seq<char>, Mesh>::empty(),
            r.texture_cache() == Map::<Seq<char>, Texture>::empty(),
    {
        AssetManager { factory_impl, meshes: NameCache::new(), textures: NameCache::new() }
    }

    /// Store a mesh under `name`, replacing any mesh already stored there.
    /// `load_mesh` stores the handles it creates through this function;
    /// callers may also cache a mesh obtained elsewhere.
    pub fn insert_mesh(&mut self, name: &str, mesh: Mesh)
        requires
            old(self).wf(),
        ensures
            final(self).wf(),
            final(self).mesh_cache() == old(self).mesh_cache().insert(name@, mesh),
            final(self).texture_cache() == old(self).texture_cache(),
            final(self).factory() == old(self).factory(),
    {
        self.meshes.insert(name, mesh);
    }

    /// Store a texture under `name`, replacing any texture already stored
    /// there. `load_texture` and `create_constant_texture` store their
    /// textures through this function; callers may also cache a texture
    /// obtained elsewhere.
    pub fn insert_texture(&mut self, name: &str, texture: Texture)
        requires
            old(self).wf(),
        ensures
            final(self).wf(),
            final(self).texture_cache() == old(self).texture_cache().insert(name@, texture),
            final(self).mesh_cache() == old(self).mesh_cache(),
            final(self).factory() == old(self).factory(),
    {
        self.textures.insert(name, texture);
    }

    /// Load a mesh from vertex data: the OpenGL backend is asked for a vertex
    /// buffer and the resulting handles are cached under `name`; the null
    /// backend drops the request. A backend creation failure, or more
    /// vertices than the 32-bit draw range can count, leaves the cache
    /// unchanged.
    pub fn load_mesh(&mut self, name: &str, data: &Vec<Vertex>)
        requires
            old(self).wf(),
        ensures
            final(self).wf(),
            final(self).texture_cache() == old(self).texture_cache(),
            final(self).factory() == old(self).factory(),
            old(self).factory() is Null ==> final(self).mesh_cache() == old(self).mesh_cache(),
            old(self).factory() is OpenGL && data@.len() > 0xffff_ffff
                ==> final(self).mesh_cache() == old(self).mesh_cache(),
            old(self).factory() is OpenGL ==> final(self).mesh_cache() == old(self).mesh_cache()
                || (exists|m: Mesh|
                m.mesh_impl is OpenGL && final(self).mesh_cache() == old(self).mesh_cache().insert(
                    name@,
                    m,
                )),
    {
        let created: Option<(GlBuffer, GlSlice)> = match &self.factory_impl {
            FactoryImpl::OpenGL { factory } => {
                if data.len() as u64 <= 0xffff_ffff {
                    backend::create_vertex_buffer(factory, data)
                } else {
                    None
                }
            },
            FactoryImpl::Null => None,
        };
        match created {
            Some((buffer, slice)) => {
                let mesh = Mesh { mesh_impl: MeshImpl::OpenGL { buffer, slice } };
                self.insert_mesh(name, mesh);
            },
            None => {},
        }
    }

    /// Look up a mesh by name; the result is a clone of the cached mesh.
    pub fn get_mesh(&mut self, name: &str) -> (r: Option<Mesh>)
        requires
            old(self).wf(),
        ensures
            *final(self) == *old(self),
            r == (if old(self).mesh_cache().contains_key(name@) {
                Some(old(self).mesh_cache()[name@])
            } else {
                None::<Mesh>
            }),
    {
        match self.meshes.get(name) {
            Some(mesh) => Some(mesh.clone()),
            None => None,
        }
    }

    /// Load a texture from pixel data: the OpenGL backend uploads the pixel
    /// chunks (one chunk per layer, face and mip level) and the resulting
    /// view is cached under `name`; the null backend drops the request. A
    /// backend creation failure, or data whose shape does not fit the kind
    /// (`TextureKind::valid_data`), leaves the cache unchanged.
    pub fn load_texture(&mut self, name: &str, kind: TextureKind, data: &[&[[u8; 4]]])
        requires
            old(self).wf(),
        ensures
            final(self).wf(),
            final(self).mesh_cache() == old(self).mesh_cache(),
            final(self).factory() == old(self).factory(),
            old(self).factory() is Null ==> final(self).texture_cache() == old(
                self,
            ).texture_cache(),
            old(self).factory() is OpenGL && !kind.valid_data(data@)
                ==> final(self).texture_cache() == old(self).texture_cache(),
            old(self).factory() is OpenGL ==> final(self).texture_cache() == old(
                self,
            ).texture_cache() || (exists|t: Texture|
                (t.texture_impl matches TextureImpl::OpenGL {
                    texture: BackendTexture::View { .. },
                }) && final(self).texture_cache() == old(self).texture_cache().insert(name@, t)),
    {
        let created: Option<GlShaderView> = match &self.factory_impl {
            FactoryImpl::OpenGL { factory } => {
                if kind.data_valid(data) {
                    backend::create_texture(factory, kind, data)
                } else {
                    None
                }
            },
            FactoryImpl::Null => None,
        };
        match created {
            Some(view) => {
                let texture = Texture {
                    texture_impl: TextureImpl::OpenGL {
                        texture: BackendTexture::View { view },
                    },
                };
                self.insert_texture(name, texture);
            },
            None => {},
        }
    }

    /// Create a constant solid color texture under `name`; the components are
    /// IEEE-754 single-precision bit patterns, red, green, blue, alpha in
    /// order. A constant color needs no GPU work, so it is cached whatever
    /// the backend.
    pub fn create_constant_texture(&mut self, name: &str, color: [u32; 4])
        requires
            old(self).wf(),
        ensures
            final(self).wf(),
            final(self).mesh_cache() == old(self).mesh_cache(),
            final(self).factory() == old(self).factory(),
            final(self).texture_cache() == old(self).texture_cache().insert(
                name@,
                (Texture {
                    texture_impl: TextureImpl::OpenGL {
                        texture: BackendTexture::Constant { color },
                    },
                }),
            ),
    {
        let texture = Texture {
            texture_impl: TextureImpl::OpenGL { texture: BackendTexture::Constant { color } },
        };
        self.insert_texture(name, texture);
    }

    /// Look up a texture by name; the result is a clone of the cached
    /// texture.
    pub fn get_texture(&mut self, name: &str) -> (r: Option<Texture>)
        requires
            old(self).wf(),
        ensures
            *final(self) == *old(self),
            r == (if old(self).texture_cache().contains_key(name@) {
                Some(old(self).texture_cache()[name@])
            } else {
                None::<Texture>
            }),
    {
        match self.textures.get(name) {
            Some(texture) => Some(texture.clone()),
            None => None,
        }
    }

    /// Construct a `Fragment` from a previously cached mesh, ka and kd
    /// textures, and a transform matrix (entries as IEEE-754 bit patterns).
    /// The three names must be present in the caches.
    pub fn get_fragment(
        &mut self,
        mesh: &str,
        ka: &str,
        kd: &str,
        transform: [[u32; 4]; 4],
    ) -> (r: Option<Fragment>)
        requires
            old(self).wf(),
            old(self).mesh_cache().contains_key(mesh@),
            old(self).texture_cache().contains_key(ka@),
            old(self).texture_cache().contains_key(kd@),
        ensures
            *final(self) == *old(self),
            r == old(self).fragment_for(mesh@, ka@, kd@, transform),
    {
        let mesh_asset = self.get_mesh(mesh).unwrap();
        let ka_asset = self.get_texture(ka).unwrap();
        let kd_asset = self.get_texture(kd).unwrap();
        match &self.factory_impl {
            FactoryImpl::OpenGL { .. } => {
                let ka_texture = match ka_asset.texture_impl {
                    TextureImpl::OpenGL { texture } => texture,
                    TextureImpl::Null => {
                        return None;
                    },
                };
                let kd_texture = match kd_asset.texture_impl {
                    TextureImpl::OpenGL { texture } => texture,
                    TextureImpl::Null => {
                        return None;
                    },
                };
                let (buffer, slice) = match mesh_asset.mesh_impl {
                    MeshImpl::OpenGL { buffer, slice } => (buffer, slice),
                    MeshImpl::Null => {
                        return None;
                    },
                };
                Some(
                    Fragment {
                        fragment_impl: FragmentImpl::OpenGL {
                            fragment: FragmentData {
                                buffer,
                                slice,
                                ka: ka_texture,
                                kd: kd_texture,
                                transform,
                            },
                        },
                    },
                )
            },
            FactoryImpl::Null => None,
        }
    }
}

} // verus!
