//! Textures of four 32-bit words per texel.

use vstd::prelude::*;
use crate::uvec::{UVec2, UVec4};

verus! {

/// A two-dimensional texture, stored row by row.
pub struct Image {
    size: UVec2,
    texels: Vec<UVec4>,
}

/// The texel that reads outside a texture return.
pub open spec fn spec_zero_texel() -> UVec4 {
    UVec4 { x: 0, y: 0, z: 0, w: 0 }
}

impl Image {
    #[verifier::type_invariant]
    spec fn wf(&self) -> bool {
        self.texels@.len() == self.size.x * self.size.y
    }

    pub closed spec fn spec_size(&self) -> UVec2 {
        self.size
    }

    /// Whether a position lies inside the texture.
    pub open spec fn spec_contains(&self, pos: UVec2) -> bool {
        pos.x < self.spec_size().x && pos.y < self.spec_size().y
    }

    /// The texel at a position inside the texture.
    pub closed spec fn spec_texel(&self, pos: UVec2) -> UVec4 {
        self.texels@[pos.y * self.size.x + pos.x]
    }

    /// What a read at a position returns: the texel, or zeroes outside.
    pub open spec fn spec_read(&self, pos: UVec2) -> UVec4 {
        if self.spec_contains(pos) {
            self.spec_texel(pos)
        } else {
            spec_zero_texel()
        }
    }

    /// A texture of the given size with every word zero.
    pub fn new(size: UVec2) -> (r: Image)
        requires
            size.x * size.y <= usize::MAX,
        ensures
            r.spec_size() == size,
            forall|pos: UVec2| #[trigger] r.spec_read(pos) == spec_zero_texel(),
    {
        let ghost total: int = size.x * size.y;
        assert(total >= 0) by (nonlinear_arith)
            requires
                total == size.x * size.y,
        ;
        let mut texels: Vec<UVec4> = Vec::new();
        let mut row: u32 = 0;
        while row < size.y
            invariant
                row <= size.y,
                texels@.len() == row * size.x,
                total == size.x * size.y,
                total <= usize::MAX,
                forall|i: int| 0 <= i < texels@.len() ==> texels@[i] == spec_zero_texel(),
            decreases size.y - row,
        {
            let mut col: u32 = 0;
            while col < size.x
                invariant
                    col <= size.x,
                    row < size.y,
                    texels@.len() == row * size.x + col,
                    total == size.x * size.y,
                    total <= usize::MAX,
                    forall|i: int| 0 <= i < texels@.len() ==> texels@[i] == spec_zero_texel(),
                decreases size.x - col,
            {
                texels.push(UVec4 { x: 0, y: 0, z: 0, w: 0 });
                col = col + 1;
            }
            assert((row + 1) * size.x == row * size.x + size.x) by (nonlinear_arith);
            row = row + 1;
        }
        assert(size.y * size.x == size.x * size.y) by (nonlinear_arith);
        let r = Image { size, texels };
        assert forall|pos: UVec2| #[trigger] r.spec_read(pos) == spec_zero_texel() by {
            if r.spec_contains(pos) {
                lemma_index_in_range(size, pos);
            }
        }
        r
    }

    pub fn size(&self) -> (r: UVec2)
        ensures
            r == self.spec_size(),
    {
        self.size
    }

    /// Reads one texel. A read outside the texture gives zeroes.
    pub fn read(&self, pos: UVec2) -> (r: UVec4)
        ensures
            r == self.spec_read(pos),
    {
        proof {
            use_type_invariant(self);
        }
        if pos.x < self.size.x && pos.y < self.size.y {
            let len: usize = self.texels.len();
            proof {
                lemma_index_in_range(self.size, pos);
            }
            let idx: usize = (pos.y as usize) * (self.size.x as usize) + (pos.x as usize);
            self.texels[idx]
        } else {
            UVec4 { x: 0, y: 0, z: 0, w: 0 }
        }
    }

    /// Writes one texel. A write outside the texture changes nothing.
    pub fn write(&mut self, pos: UVec2, texel: UVec4)
        ensures
            final(self).spec_size() == old(self).spec_size(),
            old(self).spec_contains(pos) ==> final(self).spec_read(pos) == texel,
            forall|other: UVec2|
                other != pos ==> #[trigger] final(self).spec_read(other) == old(self).spec_read(
                    other,
                ),
            !old(self).spec_contains(pos) ==> *final(self) == *old(self),
    {
        proof {
            use_type_invariant(&*self);
        }
        if pos.x < self.size.x && pos.y < self.size.y {
            let len: usize = self.texels.len();
            proof {
                lemma_index_in_range(self.size, pos);
            }
            let idx: usize = (pos.y as usize) * (self.size.x as usize) + (pos.x as usize);
            self.texels[idx] = texel;
            assert forall|other: UVec2| other != pos implies #[trigger] self.spec_read(other)
                == old(self).spec_read(other) by {
                if self.spec_contains(other) {
                    lemma_index_in_range(self.size, other);
                    if pos.y * self.size.x + pos.x == other.y * self.size.x + other.x {
                        lemma_index_injective(self.size, pos, other);
                    }
                }
            }
        }
    }
}

/// The row-major index of a position inside a texture lies inside its
/// storage.
pub proof fn lemma_index_in_range(size: UVec2, pos: UVec2)
    requires
        pos.x < size.x,
        pos.y < size.y,
    ensures
        0 <= pos.y * size.x + pos.x < size.x * size.y,
        pos.y * size.x >= 0,
{
    assert(pos.y * size.x + size.x <= size.y * size.x) by (nonlinear_arith)
        requires
            pos.y + 1 <= size.y,
            0 <= size.x,
    ;
    assert(pos.y * size.x >= 0) by (nonlinear_arith)
        requires
            0 <= pos.y,
            0 <= size.x,
    ;
    assert(size.y * size.x == size.x * size.y) by (nonlinear_arith);
}

/// Two positions inside a texture that share an index are the same.
pub proof fn lemma_index_injective(size: UVec2, a: UVec2, b: UVec2)
    requires
        a.x < size.x,
        b.x < size.x,
        a.y * size.x + a.x == b.y * size.x + b.x,
    ensures
        a == b,
{
    if a.y < b.y {
        assert(a.y * size.x + size.x <= b.y * size.x) by (nonlinear_arith)
            requires
                a.y + 1 <= b.y,
                0 <= size.x,
        ;
    } else if b.y < a.y {
        assert(b.y * size.x + size.x <= a.y * size.x) by (nonlinear_arith)
            requires
                b.y + 1 <= a.y,
                0 <= size.x,
        ;
    }
}

/// A shared handle on a texture, as a pass binds it.
#[derive(Clone, Copy)]
pub struct TexRgba32<'a> {
    image: &'a Image,
}

impl<'a> TexRgba32<'a> {
    pub closed spec fn spec_image(&self) -> &'a Image {
        self.image
    }

    pub open spec fn spec_contains(&self, pos: UVec2) -> bool {
        self.spec_image().spec_contains(pos)
    }

    pub open spec fn spec_read(&self, pos: UVec2) -> UVec4 {
        self.spec_image().spec_read(pos)
    }

    /// The handle on an image.
    pub closed spec fn spec_new(image: &'a Image) -> Self {
        Self { image }
    }

    pub fn new(image: &'a Image) -> (r: Self)
        ensures
            r.spec_image() == image,
            r == Self::spec_new(image),
    {
        Self { image }
    }

    /// A handle reads the image that it was made for.
    pub proof fn lemma_new(image: &'a Image)
        ensures
            Self::spec_new(image).spec_image() == image,
    {
    }

    /// Reads one texel. A read outside the texture gives zeroes.
    pub fn read(&self, pos: UVec2) -> (r: UVec4)
        ensures
            r == self.spec_read(pos),
    {
        self.image.read(pos)
    }
}

} // verus!
