//! The library's form of gfx's texture kind: dimensions, layering and
//! anti-aliasing as plain values, together with the data-shape condition
//! under which gfx's immutable-texture creation is safe to call.

use vstd::prelude::*;
use vstd::arithmetic::div_mod::lemma_fundamental_div_mod;

verus! {

/// Anti-aliasing mode of a texture.
#[derive(Clone, Copy)]
pub enum AaMode {
    /// One sample per pixel.
    Single,
    /// The given number of samples per pixel.
    Multi(u8),
    /// Coverage sampling with the given numbers of color and coverage
    /// samples.
    Coverage(u8, u8),
}

/// Texture dimensions, layering and anti-aliasing: the library's form of
/// gfx's texture kind. Sizes are in pixels, layer counts in layers.
#[derive(Clone, Copy)]
pub enum TextureKind {
    /// A one-dimensional texture of the given width.
    D1(u16),
    /// An array of one-dimensional textures: width and layer count.
    D1Array(u16, u16),
    /// A two-dimensional texture: width and height.
    D2(u16, u16, AaMode),
    /// An array of two-dimensional textures: width, height and layer count.
    D2Array(u16, u16, u16, AaMode),
    /// A volume texture: width, height and depth.
    D3(u16, u16, u16),
    /// A cube texture of the given edge size, six faces.
    Cube(u16),
    /// An array of cube textures: edge size and layer count.
    CubeArray(u16, u16),
}

/// An extent halved the given number of times, rounding down.
pub open spec fn halved(extent: nat, steps: nat) -> nat
    decreases steps,
{
    if steps == 0 {
        extent
    } else {
        halved(extent, (steps - 1) as nat) / 2
    }
}

/// The extent of one dimension at a mip level, as gfx computes it in
/// `Kind::get_level_dimensions`: halved once per level, the halving capped
/// at fifteen levels, and never below one pixel once any pixel is present.
pub open spec fn level_extent(extent: u16, level: nat) -> nat {
    let capped: nat = if level <= 15 {
        level
    } else {
        15
    };
    let h = halved(extent as nat, capped);
    if extent > 0 && h == 0 {
        1
    } else {
        h
    }
}

/// Computes `level_extent`.
fn extent_at(extent: u16, level: u64) -> (r: u16)
    ensures
        r as nat == level_extent(extent, level as nat),
{
    let capped: u64 = if level <= 15 {
        level
    } else {
        15
    };
    let mut e: u16 = extent;
    let mut k: u64 = 0;
    while k < capped
        invariant
            k <= capped,
            capped <= 15,
            e as nat == halved(extent as nat, k as nat),
        decreases capped - k,
    {
        e = e / 2;
        k = k + 1;
    }
    if extent > 0 && e == 0 {
        1
    } else {
        e
    }
}

impl TextureKind {
    /// The number of array layers, as gfx counts them in
    /// `Kind::get_num_slices`: the layer count for array kinds, one
    /// otherwise.
    pub open spec fn slice_count(self) -> nat {
        match self {
            TextureKind::D1Array(_, a) => a as nat,
            TextureKind::D2Array(_, _, a, _) => a as nat,
            TextureKind::CubeArray(_, a) => a as nat,
            _ => 1,
        }
    }

    /// The number of faces: six for cube kinds, one otherwise.
    pub open spec fn face_count(self) -> nat {
        match self {
            TextureKind::Cube(_) | TextureKind::CubeArray(_, _) => 6,
            _ => 1,
        }
    }

    /// The number of mip levels that a given number of data chunks
    /// describes: gfx divides the chunk count by layers times faces.
    pub open spec fn chunk_levels(self, chunks: nat) -> nat {
        chunks / (self.slice_count() * self.face_count())
    }

    /// The pixel count of one data chunk at the given mip level: the mipped
    /// extents gfx's OpenGL upload reads from the chunk, which treats array
    /// layers one at a time and cube faces one at a time.
    pub open spec fn level_pixel_count(self, level: nat) -> nat {
        match self {
            TextureKind::D1(w) => level_extent(w, level),
            TextureKind::D1Array(w, _) => level_extent(w, level),
            TextureKind::D2(w, h, _) => level_extent(w, level) * level_extent(h, level),
            TextureKind::D2Array(w, h, _, _) => level_extent(w, level) * level_extent(h, level),
            TextureKind::D3(w, h, d) => level_extent(w, level) * level_extent(h, level)
                * level_extent(d, level),
            TextureKind::Cube(w) => level_extent(w, level) * level_extent(w, level),
            TextureKind::CubeArray(w, _) => level_extent(w, level) * level_extent(w, level),
        }
    }

    /// The condition under which gfx's immutable-texture creation is safe
    /// for this kind and data: at most 256 data chunks (gfx refuses more by
    /// panicking); at least one layer for array kinds (gfx divides by the
    /// layer count); the chunks filling whole mip chains; and each chunk
    /// holding exactly the pixels of its mip level, which the OpenGL upload
    /// reads from the chunk without checking its length.
    pub open spec fn valid_data(self, data: Seq<&[[u8; 4]]>) -> bool {
        &&& data.len() <= 256
        &&& self.slice_count() >= 1
        &&& data.len() % (self.slice_count() * self.face_count()) == 0
        &&& forall|j: int|
            0 <= j < data.len() ==> (#[trigger] data[j])@.len() == self.level_pixel_count(
                (j as nat) % self.chunk_levels(data.len() as nat),
            )
    }

    /// Computes `slice_count`.
    fn slice_count_exec(&self) -> (r: u64)
        ensures
            r as nat == self.slice_count(),
    {
        match *self {
            TextureKind::D1Array(_, a) => a as u64,
            TextureKind::D2Array(_, _, a, _) => a as u64,
            TextureKind::CubeArray(_, a) => a as u64,
            _ => 1,
        }
    }

    /// Computes `face_count`.
    fn face_count_exec(&self) -> (r: u64)
        ensures
            r as nat == self.face_count(),
    {
        match *self {
            TextureKind::Cube(_) | TextureKind::CubeArray(_, _) => 6,
            _ => 1,
        }
    }

    /// Computes `level_pixel_count`.
    fn level_pixels_exec(&self, level: u64) -> (r: u64)
        ensures
            r as nat == self.level_pixel_count(level as nat),
    {
        match *self {
            TextureKind::D1(w) => extent_at(w, level) as u64,
            TextureKind::D1Array(w, _) => extent_at(w, level) as u64,
            TextureKind::D2(w, h, _) => {
                let x: u64 = extent_at(w, level) as u64;
                let y: u64 = extent_at(h, level) as u64;
                proof {
                    assert(x * y <= 0xffff * 0xffff) by (nonlinear_arith)
                        requires
                            x <= 0xffff,
                            y <= 0xffff,
                    ;
                }
                x * y
            },
            TextureKind::D2Array(w, h, _, _) => {
                let x: u64 = extent_at(w, level) as u64;
                let y: u64 = extent_at(h, level) as u64;
                proof {
                    assert(x * y <= 0xffff * 0xffff) by (nonlinear_arith)
                        requires
                            x <= 0xffff,
                            y <= 0xffff,
                    ;
                }
                x * y
            },
            TextureKind::D3(w, h, d) => {
                let x: u64 = extent_at(w, level) as u64;
                let y: u64 = extent_at(h, level) as u64;
                let z: u64 = extent_at(d, level) as u64;
                proof {
                    assert(x * y <= 0xffff * 0xffff && x * y * z <= 0xffff * 0xffff
                        * 0xffff) by (nonlinear_arith)
                        requires
                            x <= 0xffff,
                            y <= 0xffff,
                            z <= 0xffff,
                    ;
                }
                x * y * z
            },
            TextureKind::Cube(w) => {
                let x: u64 = extent_at(w, level) as u64;
                proof {
                    assert(x * x <= 0xffff * 0xffff) by (nonlinear_arith)
                        requires
                            x <= 0xffff,
                    ;
                }
                x * x
            },
            TextureKind::CubeArray(w, _) => {
                let x: u64 = extent_at(w, level) as u64;
                proof {
                    assert(x * x <= 0xffff * 0xffff) by (nonlinear_arith)
                        requires
                            x <= 0xffff,
                    ;
                }
                x * x
            },
        }
    }

    /// Decides `valid_data` for the given data chunks.
    pub fn data_valid(&self, data: &[&[[u8; 4]]]) -> (b: bool)
        ensures
            b == self.valid_data(data@),
    {
        if data.len() > 256 {
            return false;
        }
        let s: u64 = self.slice_count_exec();
        let f: u64 = self.face_count_exec();
        if s == 0 {
            return false;
        }
        proof {
            assert(1 <= s * f <= 0xffff * 6) by (nonlinear_arith)
                requires
                    1 <= s <= 0xffff,
                    1 <= f <= 6,
            ;
        }
        let q: u64 = s * f;
        let n: u64 = data.len() as u64;
        if n % q != 0 {
            return false;
        }
        let levels: u64 = n / q;
        let mut j: usize = 0;
        while j < data.len()
            invariant
                j <= data@.len(),
                data@.len() <= 256,
                s as nat == self.slice_count(),
                f as nat == self.face_count(),
                1 <= s,
                q == s * f,
                n == data@.len(),
                n % q == 0,
                levels as nat == self.chunk_levels(data@.len() as nat),
                forall|i: int|
                    0 <= i < j ==> (#[trigger] data@[i])@.len() == self.level_pixel_count(
                        (i as nat) % (levels as nat),
                    ),
            decreases data@.len() - j,
        {
            proof {
                if levels == 0 {
                    lemma_fundamental_div_mod(n as int, q as int);
                    assert(false);
                }
            }
            let m: u64 = (j as u64) % levels;
            let expected: u64 = self.level_pixels_exec(m);
            if data[j].len() as u64 != expected {
                return false;
            }
            j = j + 1;
        }
        true
    }
}

} // verus!
