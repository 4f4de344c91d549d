//! Conversion of indexed images into 8x8 tiles of 4-bit pixels.
use vstd::prelude::*;

use super::grid::{is_resized, resize_grid};
use super::palette::{MappedPalette, Palette};

verus! {

/// Width and height of a tile, in pixels.
pub const TILE_SIZE: usize = 8;

/// Eight 4-bit indices packed into a word, the first in the lowest bits.
pub open spec fn packed_row(p: Seq<u8>) -> int {
    p[0] + 16 * p[1] + 256 * p[2] + 4096 * p[3] + 65536 * p[4] + 1048576 * p[5]
        + 16777216 * p[6] + 268435456 * p[7]
}

/// Where row `s` of tile `(tx, ty)` starts in a row-major image of width `width`.
pub open spec fn tile_row_start(width: int, ty: int, tx: int, s: int) -> int {
    (ty * 8 + s) * width + tx * 8
}

/// A tile of 4-bit pixels: one packed word per row.
#[derive(Clone, Copy, Debug)]
pub struct Tile4 {
    data: [u32; 8],
}

/// `t` holds tile `(tx, ty)` of the image `img` of width `width`.
pub open spec fn is_tile_at(t: Tile4, img: Seq<u8>, width: int, ty: int, tx: int) -> bool {
    forall|s: int| 0 <= s < 8 ==> (#[trigger] t@[s]) as int == packed_row(
        img.subrange(tile_row_start(width, ty, tx, s), tile_row_start(width, ty, tx, s) + 8),
    )
}

impl Tile4 {
    /// The packed rows, top to bottom.
    pub closed spec fn view(&self) -> Seq<u32> {
        self.data@
    }

    pub fn new(data: [u32; 8]) -> (r: Self)
        ensures
            r@ == data@,
    {
        Self { data }
    }

    /// The tile of 64 row-major 4-bit pixels.
    pub fn from_pixels(tile: &Vec<u8>) -> (r: Self)
        requires
            tile@.len() == 64,
            forall|p: int| 0 <= p < 64 ==> (#[trigger] tile@[p]) < 16,
        ensures
            is_tile_at(r, tile@, 8, 0, 0),
    {
        tile_at(tile, 8, 8, 0, 0)
    }

    pub fn data(&self) -> (r: [u32; 8])
        ensures
            r@ == self@,
    {
        self.data
    }
}

/// The tiles of one image, row by row, with the image's size in tiles.
pub struct TileVec {
    vec: Vec<Tile4>,
    num_rows: usize,
    num_cols: usize,
}

impl TileVec {
    pub closed spec fn view(&self) -> Seq<Tile4> {
        self.vec@
    }

    pub closed spec fn spec_rows(&self) -> usize {
        self.num_rows
    }

    pub closed spec fn spec_cols(&self) -> usize {
        self.num_cols
    }

    pub fn new(vec: Vec<Tile4>, num_cols: usize, num_rows: usize) -> (r: Self)
        ensures
            r@ == vec@,
            r.spec_cols() == num_cols,
            r.spec_rows() == num_rows,
    {
        Self { vec, num_cols, num_rows }
    }

    pub fn num_rows(&self) -> (r: usize)
        ensures
            r == self.spec_rows(),
    {
        self.num_rows
    }

    pub fn num_cols(&self) -> (r: usize)
        ensures
            r == self.spec_cols(),
    {
        self.num_cols
    }

    pub fn tiles(&self) -> (r: &Vec<Tile4>)
        ensures
            r@ == self@,
    {
        &self.vec
    }
}

/// Packs a row of eight 4-bit indices into a word, the first index in the
/// lowest four bits.
pub fn pack_tile_row(indices: [u8; 8]) -> (r: u32)
    requires
        forall|i: int| 0 <= i < 8 ==> (#[trigger] indices@[i]) < 16,
    ensures
        r == packed_row(indices@),
{
    let px0 = indices[0] as u32;
    let px1 = indices[1] as u32;
    let px2 = indices[2] as u32;
    let px3 = indices[3] as u32;
    let px4 = indices[4] as u32;
    let px5 = indices[5] as u32;
    let px6 = indices[6] as u32;
    let px7 = indices[7] as u32;
    px0 + 16 * px1 + 256 * px2 + 4096 * px3 + 65536 * px4 + 1048576 * px5 + 16777216 * px6 + 268435456 * px7
}

/// The sizes a sprite may have, smallest area first.
pub open spec fn sprite_sizes() -> Seq<(usize, usize)> {
    seq![(8, 8), (16, 8), (8, 16), (16, 16), (32, 8), (8, 32), (32, 16), (16, 32), (32, 32), (64, 32), (32, 64), (64, 64)]
}

/// The size `s` holds a `width` by `height` image.
pub open spec fn size_holds(s: (usize, usize), width: int, height: int) -> bool {
    s.0 >= width && s.1 >= height
}

/// The first size of the table, from entry `k` on, that holds the image;
/// the largest where none does.
pub open spec fn first_holding(width: int, height: int, k: int) -> (usize, usize)
    decreases 11 - k,
{
    if k >= 11 {
        sprite_sizes()[11]
    } else if size_holds(sprite_sizes()[k], width, height) {
        sprite_sizes()[k]
    } else {
        first_holding(width, height, k + 1)
    }
}

/// The padded size of a `width` by `height` sprite.
pub open spec fn padded_dims(width: int, height: int) -> (usize, usize) {
    first_holding(width, height, 0)
}

/// The smallest valid sprite size, by area, that holds a `width` by
/// `height` image; among equal areas the earlier of the table
/// 8x8, 16x8, 8x16, 16x16, 32x8, 8x32, 32x16, 16x32, 32x32, 64x32, 32x64, 64x64.
pub fn get_padded_sprite_dimensions(width: usize, height: usize) -> (r: (usize, usize))
    requires
        width <= 64,
        height <= 64,
    ensures
        r == padded_dims(width as int, height as int),
        size_holds(r, width as int, height as int),
        exists|k: int| 0 <= k < 12 && sprite_sizes()[k] == r
            && forall|j: int| 0 <= j < k ==> !size_holds(#[trigger] sprite_sizes()[j], width as int, height as int),
{
    let sizes: [(usize, usize); 12] = [(8, 8), (16, 8), (8, 16), (16, 16), (32, 8), (8, 32), (32, 16), (16, 32), (32, 32), (64, 32), (32, 64), (64, 64)];
    assert(sizes@ =~= sprite_sizes());
    let mut k: usize = 0;
    while k < 11
        invariant
            sizes@ == sprite_sizes(),
            k <= 11,
            width <= 64,
            height <= 64,
            padded_dims(width as int, height as int) == first_holding(width as int, height as int, k as int),
            forall|j: int| 0 <= j < k ==> !size_holds(#[trigger] sprite_sizes()[j], width as int, height as int),
        decreases 11 - k,
    {
        let s = sizes[k];
        if s.0 >= width && s.1 >= height {
            assert(sprite_sizes()[k as int] == s);
            return s;
        }
        k = k + 1;
    }
    assert(sprite_sizes()[11] == sizes@[11]);
    sizes[11]
}

fn read_row(img: &Vec<u8>, start: usize) -> (r: [u8; 8])
    requires
        start + 8 <= img@.len(),
    ensures
        r@ == img@.subrange(start as int, start + 8),
{
    let n = img.len();
    assert(start + 8 <= n);
    let r = [img[start], img[start + 1], img[start + 2], img[start + 3], img[start + 4], img[start + 5], img[start + 6], img[start + 7]];
    assert(r@ =~= img@.subrange(start as int, start + 8));
    r
}

proof fn lemma_row_in_image(width: int, height: int, ty: int, tx: int, s: int)
    requires
        0 <= ty < height / 8,
        0 <= tx < width / 8,
        0 <= s < 8,
        width >= 0,
        height >= 0,
    ensures
        0 <= tile_row_start(width, ty, tx, s),
        tile_row_start(width, ty, tx, s) + 8 <= width * height,
{
    assert(ty * 8 + s + 1 <= height) by (nonlinear_arith)
        requires ty < height / 8, s < 8, height >= 0;
    assert(tx * 8 + 8 <= width) by (nonlinear_arith)
        requires tx < width / 8, width >= 0;
    assert((ty * 8 + s) * width + tx * 8 + 8 <= (ty * 8 + s) * width + width);
    assert((ty * 8 + s) * width + width == (ty * 8 + s + 1) * width) by (nonlinear_arith);
    assert((ty * 8 + s + 1) * width <= height * width) by (nonlinear_arith)
        requires ty * 8 + s + 1 <= height, width >= 0;
    assert(height * width == width * height) by (nonlinear_arith);
    assert(0 <= (ty * 8 + s) * width) by (nonlinear_arith)
        requires ty >= 0, s >= 0, width >= 0;
}

/// Tile `(tx, ty)` of the row-major image `img` of width `width`.
fn tile_at(img: &Vec<u8>, width: usize, height: usize, ty: usize, tx: usize) -> (r: Tile4)
    requires
        img@.len() == width * height,
        ty < height / 8,
        tx < width / 8,
        forall|p: int| 0 <= p < img@.len() ==> (#[trigger] img@[p]) < 16,
    ensures
        is_tile_at(r, img@, width as int, ty as int, tx as int),
{
    let n = img.len();
    let mut data: [u32; 8] = [0u32; 8];
    let mut s: usize = 0;
    while s < 8
        invariant
            n == img@.len(),
            img@.len() == width * height,
            ty < height / 8,
            tx < width / 8,
            forall|p: int| 0 <= p < img@.len() ==> (#[trigger] img@[p]) < 16,
            s <= 8,
            forall|k: int| 0 <= k < s ==> (#[trigger] data@[k]) as int == packed_row(
                img@.subrange(tile_row_start(width as int, ty as int, tx as int, k), tile_row_start(width as int, ty as int, tx as int, k) + 8),
            ),
        decreases 8 - s,
    {
        proof {
            lemma_row_in_image(width as int, height as int, ty as int, tx as int, s as int);
            assert(0 <= (ty * 8 + s) * width <= (ty * 8 + s) * width + tx * 8);
            assert(tx * 8 >= 0);
        }
        let start: usize = (ty * 8 + s) * width + tx * 8;
        let row = read_row(img, start);
        proof {
            assert forall|i: int| 0 <= i < 8 implies (#[trigger] row@[i]) < 16 by {
                assert(row@[i] == img@[start + i]);
            }
        }
        let packed = pack_tile_row(row);
        data[s] = packed;
        s = s + 1;
    }
    Tile4 { data }
}

/// Cuts a row-major image into 8x8 tiles, left to right and top to bottom.
/// Returns the tiles with the number of tile columns and rows; pixels past
/// the last whole tile are dropped.
pub fn image_to_tiles(img: &Vec<u8>, width: usize, height: usize) -> (r: (Vec<Tile4>, usize, usize))
    requires
        img@.len() == width * height,
        forall|p: int| 0 <= p < img@.len() ==> (#[trigger] img@[p]) < 16,
    ensures
        r.1 == width / 8,
        r.2 == height / 8,
        r.0@.len() == r.1 * r.2,
        forall|ty: int, tx: int| 0 <= ty < r.2 && 0 <= tx < r.1
            ==> is_tile_at(#[trigger] r.0@[ty * r.1 + tx], img@, width as int, ty, tx),
{
    let num_cols = width / TILE_SIZE;
    let num_rows = height / TILE_SIZE;
    let mut tiles: Vec<Tile4> = Vec::new();
    let mut ty: usize = 0;
    proof {
        assert(num_cols * num_rows <= width * height) by (nonlinear_arith)
            requires num_cols == width / 8, num_rows == height / 8;
    }
    while ty < num_rows
        invariant
            img@.len() == width * height,
            forall|p: int| 0 <= p < img@.len() ==> (#[trigger] img@[p]) < 16,
            num_cols == width / 8,
            num_rows == height / 8,
            num_cols * num_rows <= width * height,
            ty <= num_rows,
            tiles@.len() == ty * num_cols,
            forall|y: int, x: int| 0 <= y < ty && 0 <= x < num_cols
                ==> is_tile_at(#[trigger] tiles@[y * num_cols + x], img@, width as int, y, x),
        decreases num_rows - ty,
    {
        let mut tx: usize = 0;
        while tx < num_cols
            invariant
                img@.len() == width * height,
                forall|p: int| 0 <= p < img@.len() ==> (#[trigger] img@[p]) < 16,
                num_cols == width / 8,
                num_rows == height / 8,
                ty < num_rows,
                tx <= num_cols,
                tiles@.len() == ty * num_cols + tx,
                forall|y: int, x: int| 0 <= y < ty && 0 <= x < num_cols
                    ==> is_tile_at(#[trigger] tiles@[y * num_cols + x], img@, width as int, y, x),
                forall|x: int| 0 <= x < tx ==> is_tile_at(#[trigger] tiles@[ty * num_cols + x], img@, width as int, ty as int, x),
            decreases num_cols - tx,
        {
            let ghost before = tiles@;
            let t = tile_at(img, width, height, ty, tx);
            tiles.push(t);
            proof {
                assert forall|y: int, x: int| 0 <= y < ty && 0 <= x < num_cols
                    implies is_tile_at(#[trigger] tiles@[y * num_cols + x], img@, width as int, y, x) by {
                    assert(y * num_cols + x < ty * num_cols) by (nonlinear_arith)
                        requires y < ty, x < num_cols;
                    assert(0 <= y * num_cols) by (nonlinear_arith) requires y >= 0, num_cols >= 0;
                    assert(tiles@[y * num_cols + x] == before[y * num_cols + x]);
                }
                assert forall|x: int| 0 <= x < tx + 1 implies is_tile_at(#[trigger] tiles@[ty * num_cols + x], img@, width as int, ty as int, x) by {
                    if x < tx {
                        assert(tiles@[ty * num_cols + x] == before[ty * num_cols + x]);
                    }
                }
            }
            tx = tx + 1;
        }
        proof {
            assert((ty + 1) * num_cols == ty * num_cols + num_cols) by (nonlinear_arith);
        }
        ty = ty + 1;
    }
    proof {
        assert(ty * num_cols == num_cols * num_rows) by (nonlinear_arith)
            requires ty == num_rows;
    }
    (tiles, num_cols, num_rows)
}

/// A sprite as read from its source image: frames of palette indices.
pub struct SpriteWithPalette {
    pub name: String,
    pub palette: Palette,
    pub width: usize,
    pub height: usize,
    pub image_data: Vec<Vec<u8>>,
    pub transparency_index: Option<u8>,
    pub num_frames: usize,
}

/// A frame's indices once mapped into a palette bank.
pub open spec fn mapped_frame(frame: Seq<u8>, m: MappedPalette) -> Seq<u8> {
    Seq::new(frame.len(), |i: int| m.spec_map(frame[i]))
}

/// `tv` holds the tiles of `frame` once mapped into the bank, padded with
/// index 0 to its sprite size and cut into tiles.
pub open spec fn frame_converted(tv: TileVec, frame: Seq<u8>, m: MappedPalette, width: int, height: int) -> bool {
    let (pw, ph) = padded_dims(width, height);
    let cols = pw / 8;
    let rows = ph / 8;
    &&& tv.spec_cols() == cols
    &&& tv.spec_rows() == rows
    &&& tv@.len() == cols * rows
    &&& exists|img: Seq<u8>|
        is_resized(img, mapped_frame(frame, m), width, height, pw as int, ph as int, 0u8)
        && forall|ty: int, tx: int| 0 <= ty < rows && 0 <= tx < cols
            ==> is_tile_at(#[trigger] tv@[ty * cols + tx], img, pw as int, ty, tx)
}

proof fn lemma_padded_pixels_small(img: Seq<u8>, src: Seq<u8>, w: int, h: int, pw: int, ph: int)
    requires
        is_resized(img, src, w, h, pw, ph, 0u8),
        src.len() == w * h,
        w >= 0,
        h >= 0,
        pw > 0,
        ph >= 0,
        forall|p: int| 0 <= p < src.len() ==> (#[trigger] src[p]) < 16,
    ensures
        forall|p: int| 0 <= p < img.len() ==> (#[trigger] img[p]) < 16,
{
    assert forall|p: int| 0 <= p < img.len() implies (#[trigger] img[p]) < 16 by {
        let row = p / pw;
        let col = p % pw;
        vstd::arithmetic::div_mod::lemma_fundamental_div_mod(p, pw);
        vstd::arithmetic::div_mod::lemma_mod_pos_bound(p, pw);
        assert(p == row * pw + col) by (nonlinear_arith)
            requires p == pw * row + col;
        assert(0 <= row < ph) by (nonlinear_arith)
            requires p == row * pw + col, 0 <= col < pw, 0 <= p < pw * ph, pw > 0;
        assert(img[row * pw + col] == super::grid::resized_cell(src, w, h, row, col, 0u8));
        if row < h && col < w {
            assert(0 <= row * w + col < w * h) by (nonlinear_arith)
                requires 0 <= row < h, 0 <= col < w;
        }
    }
}

/// Converts every frame of a sprite into tiles: its indices are mapped into
/// the palette bank, the frame is padded with index 0 to the sprite size
/// that holds it, and cut into tiles row by row.
pub fn convert_sprite_to_tiles(sprite: &SpriteWithPalette, mapped_palette: &MappedPalette) -> (r: Vec<TileVec>)
    requires
        sprite.width <= 64,
        sprite.height <= 64,
        sprite.num_frames <= sprite.image_data@.len(),
        mapped_palette.wf(),
        forall|f: int| 0 <= f < sprite.num_frames ==> (#[trigger] sprite.image_data@[f])@.len() == sprite.width * sprite.height,
        forall|f: int, p: int| 0 <= f < sprite.num_frames && 0 <= p < sprite.image_data@[f]@.len()
            ==> mapped_palette.maps(#[trigger] sprite.image_data@[f]@[p]),
    ensures
        r@.len() == sprite.num_frames,
        forall|f: int| 0 <= f < sprite.num_frames ==> frame_converted(
            #[trigger] r@[f], sprite.image_data@[f]@, *mapped_palette, sprite.width as int, sprite.height as int),
{
    let mut tile_vecs: Vec<TileVec> = Vec::new();
    let mut i: usize = 0;
    while i < sprite.num_frames
        invariant
            i <= sprite.num_frames,
            tile_vecs@.len() == i,
            sprite.width <= 64,
            sprite.height <= 64,
            sprite.num_frames <= sprite.image_data@.len(),
            mapped_palette.wf(),
            forall|f: int| 0 <= f < sprite.num_frames ==> (#[trigger] sprite.image_data@[f])@.len() == sprite.width * sprite.height,
            forall|f: int, p: int| 0 <= f < sprite.num_frames && 0 <= p < sprite.image_data@[f]@.len()
                ==> mapped_palette.maps(#[trigger] sprite.image_data@[f]@[p]),
            forall|f: int| 0 <= f < i ==> frame_converted(
                #[trigger] tile_vecs@[f], sprite.image_data@[f]@, *mapped_palette, sprite.width as int, sprite.height as int),
        decreases sprite.num_frames - i,
    {
        let image_data: &Vec<u8> = &sprite.image_data[i];
        let ghost frame = image_data@;
        let mut converted: Vec<u8> = Vec::new();
        let mut p: usize = 0;
        while p < image_data.len()
            invariant
                frame == image_data@,
                frame == sprite.image_data@[i as int]@,
                i < sprite.num_frames,
                forall|f: int, q: int| 0 <= f < sprite.num_frames && 0 <= q < sprite.image_data@[f]@.len()
                    ==> mapped_palette.maps(#[trigger] sprite.image_data@[f]@[q]),
                mapped_palette.wf(),
                p <= frame.len(),
                converted@ == mapped_frame(frame, *mapped_palette).subrange(0, p as int),
                forall|q: int| 0 <= q < p ==> (#[trigger] converted@[q]) < 16,
            decreases frame.len() - p,
        {
            let v = mapped_palette.map_index(image_data[p]);
            converted.push(v);
            p = p + 1;
            assert(converted@ =~= mapped_frame(frame, *mapped_palette).subrange(0, p as int));
        }
        assert(converted@ =~= mapped_frame(frame, *mapped_palette));
        let (padded_width, padded_height) = get_padded_sprite_dimensions(sprite.width, sprite.height);
        proof {
            assert(padded_width * padded_height <= 4096) by (nonlinear_arith)
                requires padded_width <= 64, padded_height <= 64;
        }
        let padded = resize_grid(converted, sprite.width, sprite.height, padded_width, padded_height);
        let ghost pad = choose|pad: u8| call_ensures(<u8 as Default>::default, (), pad)
            && is_resized(padded@, mapped_frame(frame, *mapped_palette), sprite.width as int, sprite.height as int,
                padded_width as int, padded_height as int, pad);
        proof {
            assert(pad == 0u8);
            lemma_padded_pixels_small(padded@, mapped_frame(frame, *mapped_palette), sprite.width as int,
                sprite.height as int, padded_width as int, padded_height as int);
        }
        let (tiles, n_cols, n_rows) = image_to_tiles(&padded, padded_width, padded_height);
        let tile_vec = TileVec::new(tiles, n_cols, n_rows);
        proof {
            assert(frame_converted(tile_vec, frame, *mapped_palette, sprite.width as int, sprite.height as int));
        }
        tile_vecs.push(tile_vec);
        i = i + 1;
    }
    tile_vecs
}

} // verus!
