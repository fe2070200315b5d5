//! The integer side of the sprite renderer: the index buffer of the quad
//! batch, the batching limits, the texture-unit bookkeeping, animation
//! frame stepping and the decoding of sprite images.

use vstd::prelude::*;

use crate::asset::{Sprite, ZERO_F64_BITS};
use crate::game::TableRow;

verus! {

/// How many quads one draw call holds at most.
pub const MAX_QUAD_COUNT: i32 = 1000;

/// Indices per quad (two triangles).
pub const INDCIES_PER_QUAD: i32 = 6;

/// Vertices per quad.
pub const VERTICES_PER_QUAD: i32 = 4;

/// Floats per vertex: position, colour, texture point, texture size,
/// scale and texture unit.
pub const FLOATS_PER_VERTEX: i32 = 13;

/// Floats in a full batch of quads.
pub const FLOATS_PER_BATCH: i32 = 52000;

/// The six indices that draw quad `q` as two triangles.
pub open spec fn quad_index(q: int, k: int) -> int {
    let offset: int = if k == 0 {
        0
    } else if k == 1 {
        1
    } else if k == 2 {
        2
    } else if k == 3 {
        2
    } else if k == 4 {
        1
    } else {
        3
    };
    4 * q + offset
}

/// The index buffer for `quad_count` quads: quad `q` draws the triangles
/// (4q, 4q+1, 4q+2) and (4q+2, 4q+1, 4q+3).
pub fn quad_indices(quad_count: usize) -> (r: Vec<u16>)
    requires
        quad_count <= 16384,
    ensures
        r.len() == 6 * quad_count,
        forall|q: int, k: int|
            0 <= q < quad_count && 0 <= k < 6 ==> #[trigger] r@[6 * q + k] as int == quad_index(q, k),
{
    let mut indices: Vec<u16> = Vec::new();
    let mut i: usize = 0;
    while i < quad_count
        invariant
            quad_count <= 16384,
            i <= quad_count,
            indices.len() == 6 * i,
            forall|q: int, k: int|
                0 <= q < i && 0 <= k < 6 ==> #[trigger] indices@[6 * q + k] as int == quad_index(q, k),
        decreases quad_count - i,
    {
        let base = (4 * i) as u16;
        indices.push(base);
        indices.push(base + 1);
        indices.push(base + 2);
        indices.push(base + 2);
        indices.push(base + 1);
        indices.push(base + 3);
        proof {
            assert forall|q: int, k: int|
                0 <= q < i + 1 && 0 <= k < 6 implies #[trigger] indices@[6 * q + k] as int == quad_index(q, k) by {
                if q == i {
                    assert(6 * q + k == 6 * i + k);
                }
            }
        }
        i = i + 1;
    }
    indices
}

/// Whether a vertex vector of `len` floats holds a full batch and has to
/// be drawn before more quads are added.
pub fn batch_is_full(len: usize) -> (r: bool)
    ensures
        r == ((len as i32) >= FLOATS_PER_BATCH),
{
    (len as i32) / (FLOATS_PER_VERTEX * VERTICES_PER_QUAD * MAX_QUAD_COUNT) >= 1
}

/// The number of indices to draw for a vertex vector of `len` floats.
pub fn draw_count(len: usize) -> (r: i32)
    requires
        len * 6 <= i32::MAX,
    ensures
        r as int == (len * 6) / 52,
{
    (len as i32 * INDCIES_PER_QUAD) / (VERTICES_PER_QUAD * FLOATS_PER_VERTEX)
}

/// How the renderer gets a texture unit for a sprite's texture.
#[derive(Clone, Copy, Debug, PartialEq, Eq)]
pub enum TextureUnit {
    /// The texture is already bound to this unit.
    Bound(usize),
    /// Bind the texture to this unit, which was free.
    Bind(usize),
    /// Draw the batch first (which frees every unit but the white
    /// texture's), then bind the texture to this unit.
    FlushAndBind(usize),
}

/// Which texture (by asset rowid) is bound to each texture unit of the
/// current batch. Unit 0 holds the white texture of untextured quads.
pub struct TextureSlots {
    pub slots: Vec<u32>,
    pub max_texture_units: i32,
}

/// `u` is the first unit that holds the texture `id`.
pub open spec fn is_first_slot(slots: Seq<u32>, id: u32, u: int) -> bool {
    &&& 0 <= u < slots.len()
    &&& slots[u] == id
    &&& forall|v: int| 0 <= v < u ==> #[trigger] slots[v] != id
}

impl TextureSlots {
    /// Slots for a batch with only the white texture bound.
    pub fn new(max_texture_units: i32) -> (r: TextureSlots)
        ensures
            r.slots@ == seq![0u32],
            r.max_texture_units == max_texture_units,
    {
        let mut slots: Vec<u32> = Vec::new();
        slots.push(0);
        TextureSlots { slots, max_texture_units }
    }

    /// Frees every unit but the white texture's, as drawing a batch does.
    pub fn reset(&mut self)
        ensures
            final(self).slots@ == old(self).slots@.subrange(0, if old(self).slots.len() > 0 { 1 } else { 0 }),
            final(self).max_texture_units == old(self).max_texture_units,
    {
        if self.slots.len() > 1 {
            self.slots.truncate(1);
        }
        assert(self.slots@ =~= old(self).slots@.subrange(0, if old(self).slots.len() > 0 { 1 } else { 0 }));
    }

    /// Gets a texture unit for the texture `id`: the first unit that holds
    /// it already, else the next free unit, else (all units taken) the
    /// first unit past the white texture's after the batch is drawn.
    pub fn assign(&mut self, id: u32) -> (r: TextureUnit)
        requires
            old(self).slots.len() >= 1,
            old(self).slots.len() < usize::MAX,
        ensures
            final(self).max_texture_units == old(self).max_texture_units,
            (exists|u: int| #[trigger] is_first_slot(old(self).slots@, id, u)) ==> final(self).slots@
                == old(self).slots@,
            forall|u: int| #[trigger] is_first_slot(old(self).slots@, id, u) ==> r == TextureUnit::Bound(u as usize),
            !old(self).slots@.contains(id) && old(self).slots.len() < old(self).max_texture_units as usize
                ==> r == TextureUnit::Bind(old(self).slots.len()) && final(self).slots@ == old(self).slots@.push(id),
            !old(self).slots@.contains(id) && old(self).slots.len() >= old(self).max_texture_units as usize
                ==> r == TextureUnit::FlushAndBind(1) && final(self).slots@ == seq![old(self).slots@[0], id],
    {
        let mut u: usize = 0;
        while u < self.slots.len()
            invariant
                *self == *old(self),
                u <= self.slots.len(),
                forall|v: int| 0 <= v < u ==> #[trigger] self.slots@[v] != id,
            decreases self.slots.len() - u,
        {
            if self.slots[u] == id {
                assert(is_first_slot(self.slots@, id, u as int));
                assert forall|w: int| #[trigger] is_first_slot(old(self).slots@, id, w) implies w == u by {
                    if w < u {
                    } else if w > u {
                        assert(self.slots@[u as int] == id);
                    }
                }
                return TextureUnit::Bound(u);
            }
            u = u + 1;
        }
        if self.slots.len() < self.max_texture_units as usize {
            let unit = self.slots.len();
            self.slots.push(id);
            TextureUnit::Bind(unit)
        } else {
            self.slots.truncate(1);
            self.slots.push(id);
            assert(self.slots@ =~= seq![old(self).slots@[0], id]);
            TextureUnit::FlushAndBind(1)
        }
    }
}

/// Puts a playing sprite on the frame `frame` its clock has reached in an
/// animation of `frame_count` frames. Past the last frame, a repeating
/// animation starts over (frame 0, clock 0) and any other stops on its
/// last frame.
pub fn settle_animation_frame(sprite: &mut Sprite, frame: u32, frame_count: usize)
    requires
        frame_count > 0,
    ensures
        frame < frame_count as u32 ==> *final(sprite) == (Sprite { cur_frame: frame, ..*old(sprite) }),
        frame >= frame_count as u32 && old(sprite).repeat ==> *final(sprite) == (Sprite {
            cur_frame: 0,
            animation_time: ZERO_F64_BITS,
            ..*old(sprite)
        }),
        frame >= frame_count as u32 && !old(sprite).repeat ==> *final(sprite) == (Sprite {
            cur_frame: (frame_count - 1) as u32,
            is_animation_finished: true,
            ..*old(sprite)
        }),
{
    sprite.cur_frame = frame;
    if sprite.cur_frame >= frame_count as u32 {
        sprite.cur_frame = (frame_count - 1) as u32;
        if !sprite.repeat {
            sprite.is_animation_finished = true;
        } else {
            sprite.cur_frame = 0;
            sprite.animation_time = ZERO_F64_BITS;
        }
    }
}

/// Why an asset definition cannot be loaded for a row.
#[derive(Clone, Copy, Debug, PartialEq, Eq)]
pub enum AssetDefinitionError {
    /// The asset is not a sprite: audio and font assets are not loaded.
    Unsupported,
    /// The row is an element's, not an asset's.
    ElementAsAsset,
}

/// The asset type number of sprites.
pub const SPRITE_TYPE: u8 = 1;

/// The rowid of the sprite whose image an asset definition for `row`
/// loads, or why none is loaded.
pub open spec fn spec_image_asset_rowid(row: TableRow) -> Result<u32, AssetDefinitionError> {
    match row {
        TableRow::Asset(id, kind) => if kind == SPRITE_TYPE {
            Ok(id)
        } else {
            Err(AssetDefinitionError::Unsupported)
        },
        _ => Err(AssetDefinitionError::ElementAsAsset),
    }
}

/// An asset definition loads an image exactly for a sprite asset row
/// (type 1), and then for that row's rowid.
pub proof fn lemma_image_asset_rules(row: TableRow)
    ensures
        spec_image_asset_rowid(row) is Ok <==> (row matches TableRow::Asset(_, 1)),
        forall|id: u32| spec_image_asset_rowid(row) == Ok::<u32, AssetDefinitionError>(id) ==> row == TableRow::Asset(id, 1),
        row !is Asset ==> spec_image_asset_rowid(row) == Err::<u32, AssetDefinitionError>(AssetDefinitionError::ElementAsAsset),
{
}

/// Decides what an asset definition for `row` loads: only sprite assets
/// have data the engine loads.
pub fn image_asset_rowid(row: TableRow) -> (r: Result<u32, AssetDefinitionError>)
    ensures
        r == spec_image_asset_rowid(row),
{
    match row {
        TableRow::Asset(id, kind) => {
            if kind == SPRITE_TYPE {
                Ok(id)
            } else {
                Err(AssetDefinitionError::Unsupported)
            }
        },
        _ => Err(AssetDefinitionError::ElementAsAsset),
    }
}

impl AssetDefinitionError {
    /// The message the error is reported with.
    pub fn message(&self) -> (r: &'static str)
        ensures
            r@ == (match self {
                AssetDefinitionError::Unsupported =>
                    "Audio / Font asset definitions are not implemented in this version of the engine. Please remove any use of them from your project."@,
                AssetDefinitionError::ElementAsAsset => "Can't define an element as an asset."@,
            }),
    {
        match self {
            AssetDefinitionError::Unsupported =>
                "Audio / Font asset definitions are not implemented in this version of the engine. Please remove any use of them from your project.",
            AssetDefinitionError::ElementAsAsset => "Can't define an element as an asset.",
        }
    }
}

/// The big-endian `i32` in four bytes.
pub open spec fn be_i32(b0: u8, b1: u8, b2: u8, b3: u8) -> i32 {
    (b0 as int * 0x1000000 + b1 as int * 0x10000 + b2 as int * 0x100 + b3 as int) as i32
}

/// The four bytes are the base-256 digits of the `i32`'s bit pattern,
/// most significant first, as in `i32::from_be_bytes`; a first byte below
/// 128 gives a non-negative number.
pub proof fn lemma_be_i32_digits(b0: u8, b1: u8, b2: u8, b3: u8)
    ensures
        (be_i32(b0, b1, b2, b3) as u32) % 256 == b3,
        ((be_i32(b0, b1, b2, b3) as u32) / 256) % 256 == b2,
        ((be_i32(b0, b1, b2, b3) as u32) / 65536) % 256 == b1,
        (be_i32(b0, b1, b2, b3) as u32) / 16777216 == b0,
        b0 < 128 ==> be_i32(b0, b1, b2, b3) >= 0,
{
    let x: u32 = ((b0 as u32) * 0x1000000 + (b1 as u32) * 0x10000 + (b2 as u32) * 0x100 + (b3 as u32)) as u32;
    assert(x as int == b0 as int * 0x1000000 + b1 as int * 0x10000 + b2 as int * 0x100 + b3 as int);
    assert(be_i32(b0, b1, b2, b3) == x as i32);
    assert((x as i32) as u32 == x) by (bit_vector);
    assert(x % 256 == b3 as u32 && (x / 256) % 256 == b2 as u32 && (x / 65536) % 256 == b1 as u32
        && x / 16777216 == b0 as u32) by (bit_vector)
        requires
            x == ((b0 as u32) * 0x1000000 + (b1 as u32) * 0x10000 + (b2 as u32) * 0x100 + (b3 as u32)) as u32,
    ;
    assert(b0 < 128 ==> (x as i32) >= 0) by (bit_vector)
        requires
            x == ((b0 as u32) * 0x1000000 + (b1 as u32) * 0x10000 + (b2 as u32) * 0x100 + (b3 as u32)) as u32,
    ;
}

fn read_be_i32(b0: u8, b1: u8, b2: u8, b3: u8) -> (r: i32)
    ensures
        r == be_i32(b0, b1, b2, b3),
{
    let v: u32 = (b0 as u32) * 0x1000000 + (b1 as u32) * 0x10000 + (b2 as u32) * 0x100 + (b3 as u32);
    v as i32
}

/// The pixels a PNG file decodes to, as RGBA bytes row by row, or `None`
/// when the bytes are not a PNG file the decoder reads.
pub uninterp spec fn png_rgba(data: Seq<u8>) -> Option<Seq<u8>>;

/// Decodes PNG bytes with the `image` crate
/// (`image::load_from_memory_with_format` with `ImageFormat::Png`, then
/// `to_rgba8`). The contract only names the result: decoding is a
/// function of the bytes alone.
#[verifier::external_body]
fn decode_png_rgba(data: &[u8]) -> (r: Option<Vec<u8>>)
    ensures
        match png_rgba(data@) {
            Some(pixels) => r matches Some(v) && v@ == pixels,
            None => r is None,
        },
{
    match image::load_from_memory_with_format(data, image::ImageFormat::Png) {
        Ok(img) => Some(img.to_rgba8().into_raw()),
        Err(_) => None,
    }
}

/// A sprite's image: the size its PNG header states and its RGBA pixels.
pub struct ImageData {
    pub width: i32,
    pub height: i32,
    pub pixels: Vec<u8>,
}

/// Why a sprite's image could not be loaded.
#[derive(Clone, Copy, Debug, PartialEq, Eq)]
pub enum ImageError {
    /// The data ends before the PNG header's width and height.
    Truncated,
    /// The data is not a PNG file the decoder reads.
    NotPng,
}

/// Loads a sprite's image from the bytes of its PNG file: the width and
/// height are read from the header (bytes 16 to 23, big-endian), the
/// pixels are decoded.
pub fn load_image(data: &[u8]) -> (r: Result<ImageData, ImageError>)
    ensures
        data@.len() < 24 ==> r == Err::<ImageData, ImageError>(ImageError::Truncated),
        data@.len() >= 24 && png_rgba(data@) is None ==> r == Err::<ImageData, ImageError>(ImageError::NotPng),
        data@.len() >= 24 && png_rgba(data@) is Some ==> (r matches Ok(img) && img.width == be_i32(
            data@[16],
            data@[17],
            data@[18],
            data@[19],
        ) && img.height == be_i32(data@[20], data@[21], data@[22], data@[23]) && img.pixels@ == png_rgba(
            data@,
        )->0),
{
    if data.len() < 24 {
        return Err(ImageError::Truncated);
    }
    let width = read_be_i32(data[16], data[17], data[18], data[19]);
    let height = read_be_i32(data[20], data[21], data[22], data[23]);
    match decode_png_rgba(data) {
        Some(pixels) => Ok(ImageData { width, height, pixels }),
        None => Err(ImageError::NotPng),
    }
}

} // verus!
