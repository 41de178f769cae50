//! Decoded texture data: palettes, floor/ceiling flats and wall texture
//! directories read from the archive by bounds-checked byte decoding,
//! plus the sky-name rules the renderer relies on.

use vstd::prelude::*;
use crate::math::Vector2;
use crate::wad::{name_eq, DirectoryList, Reader};

verus! {

/// A 256-colour palette: one RGB triple per index.
pub struct Palette {
    pub colors: Vec<[u8; 3]>,
}

impl Palette {
    /// A palette holds exactly 256 colours.
    pub open spec fn wf(self) -> bool {
        self.colors@.len() == 256
    }

    /// The palette's colour triples.
    pub fn slices(&self) -> (r: &Vec<[u8; 3]>)
        ensures
            r == &self.colors,
    {
        &self.colors
    }
}

/// One raw 64 by 64 flat: a palette index per pixel.
pub struct RawFlats {
    pub pixels: Vec<u8>,
}

impl RawFlats {
    /// A raw flat holds exactly 64 * 64 palette indices.
    pub open spec fn wf(self) -> bool {
        self.pixels@.len() == 4096
    }

    /// The flat's palette indices.
    pub fn slices(&self) -> (r: &Vec<u8>)
        ensures
            r == &self.pixels,
    {
        &self.pixels
    }
}

/// A decoded image: its pixel size and one colour of `C` channels per
/// pixel, row after row.
pub struct Texture<const C: usize> {
    pub size: Vector2<u16>,
    pub colors: Vec<[u8; C]>,
}

impl<const C: usize> Texture<C> {
    /// The colour array covers the pixel grid.
    pub open spec fn wf(self) -> bool {
        self.colors@.len() == self.size.x as int * self.size.y as int
    }

    /// The colour at `(x, y)`.
    pub fn get(&self, x: u16, y: u16) -> (r: [u8; C])
        requires
            self.wf(),
            x < self.size.x,
            y < self.size.y,
        ensures
            r == self.colors@[self.size.x as int * y + x],
    {
        proof {
            assert(0 <= self.size.x as int * y + x < self.size.x as int * self.size.y as int
                && self.size.x as int * self.size.y as int <= 0x10000 * 0x10000)
                by (nonlinear_arith)
                requires
                    x < self.size.x && y < self.size.y && self.size.x <= 0x10000 && self.size.y
                        <= 0x10000,
            ;
        }
        self.colors[(self.size.x as usize) * (y as usize) + (x as usize)]
    }
}

/// Whether a flat name names the sky: any name beginning with the sky
/// marker bytes `F_S`.
pub open spec fn spec_is_sky(pname: [u8; 8]) -> bool {
    pname@[0] == 0x46 && pname@[1] == 0x5F && pname@[2] == 0x53
}

/// Whether a flat name names the sky.
pub fn is_sky_texture(pname: &[u8; 8]) -> (r: bool)
    ensures
        r == spec_is_sky(*pname),
{
    pname[0] == 0x46 && pname[1] == 0x5F && pname[2] == 0x53
}

/// The wall-texture name the sky flat name maps to: the marker prefix is
/// dropped and an `S` put in front; any other name passes unchanged.
pub fn remap_sky_texture(pname: &[u8; 8]) -> (r: [u8; 8])
    ensures
        spec_is_sky(*pname) ==> r@ == seq![
            0x53u8,
            pname@[3],
            pname@[4],
            pname@[5],
            pname@[6],
            pname@[7],
            0u8,
            0u8,
        ],
        !spec_is_sky(*pname) ==> r@ == pname@,
{
    if is_sky_texture(pname) {
        let out = [0x53, pname[3], pname[4], pname[5], pname[6], pname[7], 0, 0];
        proof {
            assert(out@ =~= seq![
                0x53u8,
                pname@[3],
                pname@[4],
                pname@[5],
                pname@[6],
                pname@[7],
                0u8,
                0u8,
            ]);
        }
        out
    } else {
        let out = *pname;
        proof {
            assert(out@ =~= pname@);
        }
        out
    }
}

/// A string of the printable part of an 8-byte name; `None` when a byte
/// is not ASCII.
pub fn u8str_to_string(name: &[u8; 8]) -> (r: Option<String>)
    ensures
        r matches Some(s) ==> forall|i: int| 0 <= i < s@.len() ==> s@[i] as u8 == name@[i],
{
    let mut out = String::new();
    let mut i: usize = 0;
    while i < 8
        invariant
            i <= 8,
            out@.len() == i,
            forall|j: int| 0 <= j < i ==> out@[j] as u8 == name@[j],
        decreases 8 - i,
    {
        let b = name[i];
        if b >= 0x80 {
            return None;
        }
        out.push(b as char);
        i += 1;
    }
    Some(out)
}

/// The position of the first name in the list spelling `name`.
pub open spec fn spec_first_name(names: Seq<[u8; 8]>, name: Seq<u8>) -> Option<int>
    decreases names.len(),
{
    if names.len() == 0 {
        None
    } else if names[0]@ == name {
        Some(0int)
    } else {
        match spec_first_name(names.drop_first(), name) {
            Some(i) => Some(i + 1),
            None => None,
        }
    }
}

/// A match-free prefix shifts the first-name search past itself.
proof fn lemma_first_name_skip(names: Seq<[u8; 8]>, name: Seq<u8>, i: int)
    requires
        0 <= i <= names.len(),
        forall|j: int| 0 <= j < i ==> (#[trigger] names[j])@ != name,
    ensures
        spec_first_name(names, name) == match spec_first_name(names.skip(i), name) {
            Some(k) => Some(i + k),
            None => None::<int>,
        },
    decreases i,
{
    if i == 0 {
        assert(names.skip(0) =~= names);
    } else {
        assert(names[0]@ != name);
        assert(names.drop_first().skip(i - 1) =~= names.skip(i));
        assert(forall|j: int|
            0 <= j < i - 1 ==> (#[trigger] names.drop_first()[j])@ != name) by {
            assert(forall|j: int|
                0 <= j < i - 1 ==> names.drop_first()[j] == #[trigger] names[j + 1]);
        }
        lemma_first_name_skip(names.drop_first(), name, i - 1);
    }
}

/// First position of a name in a name list.
pub fn find_name(names: &Vec<[u8; 8]>, name: &[u8; 8]) -> (r: Option<usize>)
    ensures
        ({
            let s = spec_first_name(names@, name@);
            match r {
                Some(i) => s == Some(i as int),
                None => s is None,
            }
        }),
        r matches Some(i) ==> i < names@.len() && names@[i as int]@ == name@ && forall|j: int|
            0 <= j < i ==> (#[trigger] names@[j])@ != name@,
        r is None ==> forall|j: int| 0 <= j < names@.len() ==> (#[trigger] names@[j])@ != name@,
{
    let mut i: usize = 0;
    while i < names.len()
        invariant
            i <= names@.len(),
            forall|j: int| 0 <= j < i ==> (#[trigger] names@[j])@ != name@,
        decreases names@.len() - i,
    {
        if name_eq(&names[i], name) {
            proof {
                lemma_first_name_skip(names@, name@, i as int);
                assert(names@.skip(i as int)[0] == names@[i as int]);
            }
            return Some(i);
        }
        i += 1;
    }
    proof {
        lemma_first_name_skip(names@, name@, names@.len() as int);
        assert(names@.skip(names@.len() as int).len() == 0);
    }
    None
}

/// One vertical run of opaque pixels inside a patch column.
pub struct PatchPost {
    pub y_offset: u8,
    pub pixels: Vec<u8>,
}

/// One column of a patch: its posts from top to bottom.
pub struct PatchColumn {
    pub posts: Vec<PatchPost>,
}

impl PatchColumn {
    /// The column's posts.
    pub fn slices(&self) -> (r: &Vec<PatchPost>)
        ensures
            r == &self.posts,
    {
        &self.posts
    }
}

/// A picture patch: its size and one column of posts per pixel column.
pub struct Patch {
    pub name: [u8; 8],
    pub width: u16,
    pub height: u16,
    pub columns: Vec<PatchColumn>,
}

impl Patch {
    /// One decoded column per pixel column.
    pub open spec fn wf(self) -> bool {
        self.columns@.len() == self.width as int
    }
}

/// Index of the first directory entry whose trimmed name spells the
/// trimmed 8-byte name.
pub fn index_of_name8(directories: &DirectoryList, name: &[u8; 8]) -> (r: Option<usize>)
    ensures
        r matches Some(i) ==> i < directories.directories@.len() && crate::wad::trimmed(
            directories.directories@[i as int].lump_name@,
        ) == crate::wad::trimmed(name@),
{
    let mut i: usize = 0;
    let n = directories.len();
    while i < n
        invariant
            i <= n,
            n == directories.directories@.len(),
        decreases n - i,
    {
        if crate::wad::name_trim_eq(&directories.get(i).lump_name, name) {
            return Some(i);
        }
        i += 1;
    }
    None
}

/// Decodes the patch of a lump name: the header, the column offset
/// table, and each column's posts; `None` when the lump is missing or
/// any post runs outside it.
pub fn extract_patch(
    reader: &Reader,
    directories: &DirectoryList,
    name: &[u8; 8],
) -> (r: Option<Patch>)
    ensures
        r matches Some(p) ==> p.wf(),
{
    let patch_id = match index_of_name8(directories, name) {
        Some(i) => i,
        None => {
            return None;
        },
    };
    let directory = directories.get(patch_id);
    let start = directory.lump_offset as usize;
    let buffer = &reader.buffer;
    let blen: u64 = buffer.len() as u64;
    // Lump offsets are 32-bit; an archive past that cannot be valid.
    if blen > 0xFFFF_FFFF {
        return None;
    }
    if (start as u64) + 8 > blen {
        return None;
    }
    let width = crate::wad::read_u16_le(buffer, start);
    let height = crate::wad::read_u16_le(buffer, start + 2);
    if width > 2048 || height > 2048 {
        return None;
    }
    let mut columns: Vec<PatchColumn> = Vec::new();
    let mut x: u16 = 0;
    while x < width
        invariant
            columns@.len() == x as int,
            x <= width,
            width <= 2048,
            start <= 0xFFFF_FFFF,
            blen == buffer@.len(),
            blen <= 0xFFFF_FFFF,
        decreases width - x,
    {
        let off_pos64 = (start as u64) + 8 + (x as u64) * 4;
        if off_pos64 + 4 > blen {
            return None;
        }
        let col_off = crate::wad::read_u32_le(buffer, off_pos64 as usize);
        let mut posts: Vec<PatchPost> = Vec::new();
        let mut pos64 = (start as u64) + (col_off as u64);
        let mut guard: u32 = 0;
        loop
            invariant
                guard <= 0x10000,
                pos64 <= 0x2_0000_0000,
                blen == buffer@.len(),
                blen <= 0xFFFF_FFFF,
            decreases 0x10000 - guard,
        {
            if guard >= 0x10000 {
                return None;
            }
            if pos64 + 1 > blen {
                return None;
            }
            let y_offset = buffer[pos64 as usize];
            if y_offset == 0xFF {
                break ;
            }
            if pos64 + 3 > blen {
                return None;
            }
            let length = buffer[(pos64 + 1) as usize];
            let data_start = pos64 + 3;
            if data_start + (length as u64) + 1 > blen {
                return None;
            }
            let mut pixels: Vec<u8> = Vec::new();
            let mut k: u8 = 0;
            while k < length
                invariant
                    pixels@.len() == k as int,
                    k <= length,
                    data_start + length as int <= buffer@.len(),
                    data_start <= 0x2_0000_0004,
                    blen == buffer@.len(),
                    blen <= 0xFFFF_FFFF,
                decreases length - k,
            {
                pixels.push(buffer[(data_start + (k as u64)) as usize]);
                k += 1;
            }
            posts.push(PatchPost { y_offset, pixels });
            // One trailing padding byte closes every post.
            pos64 = data_start + (length as u64) + 1;
            guard += 1;
        }
        columns.push(PatchColumn { posts });
        x += 1;
    }
    Some(Patch { name: *name, width, height, columns })
}

/// Composes one patch into an image through a palette: each post's
/// palette indices become opaque pixels at their column and row; rows
/// past the patch height are dropped.
pub fn build_patch_as_texture(patch: &Patch, palette: &Palette) -> (r: Texture<4>)
    requires
        patch.wf(),
        palette.wf(),
        patch.width <= 2048,
        patch.height <= 2048,
    ensures
        r.wf(),
        r.size == (Vector2 { x: patch.width, y: patch.height }),
{
    let width = patch.width as usize;
    let height = patch.height as usize;
    proof {
        assert(width * height <= 2048 * 2048) by (nonlinear_arith)
            requires
                width <= 2048 && height <= 2048,
        ;
    }
    let total = width * height;
    let mut colors: Vec<[u8; 4]> = Vec::new();
    let mut i: usize = 0;
    while i < total
        invariant
            colors@.len() == i,
            i <= total,
        decreases total - i,
    {
        colors.push([0, 0, 0, 0]);
        i += 1;
    }
    let mut x: usize = 0;
    while x < width
        invariant
            colors@.len() == total,
            total == width * height,
            width == patch.width,
            height == patch.height,
            width <= 2048,
            height <= 2048,
            patch.wf(),
            palette.wf(),
            x <= width,
        decreases width - x,
    {
        let column = &patch.columns[x];
        let mut p: usize = 0;
        while p < column.posts.len()
            invariant
                colors@.len() == total,
                total == width * height,
                width == patch.width,
                height == patch.height,
                width <= 2048,
                height <= 2048,
                palette.wf(),
                x < width,
                p <= column.posts@.len(),
            decreases column.posts@.len() - p,
        {
            let post = &column.posts[p];
            let mut k: usize = 0;
            let plen = post.pixels.len();
            while k < plen
                invariant
                    colors@.len() == total,
                    total == width * height,
                    width == patch.width,
                    height == patch.height,
                    width <= 2048,
                    height <= 2048,
                    palette.wf(),
                    x < width,
                    plen == post.pixels@.len(),
                    k <= plen,
                decreases plen - k,
            {
                // Rows past the patch height are dropped; the height
                // cap keeps the row arithmetic small.
                if k < 4096 {
                    let y = (post.y_offset as usize) + k;
                    if y < height {
                        let idx = post.pixels[k] as usize;
                        let rgb = palette.colors[idx];
                        proof {
                            assert(y * width + x < height * width && height * width == width
                                * height) by (nonlinear_arith)
                                requires
                                    y < height && x < width,
                            ;
                        }
                        colors.set(y * width + x, [rgb[0], rgb[1], rgb[2], 0xFF]);
                    }
                }
                k += 1;
            }
            p += 1;
        }
        x += 1;
    }
    Texture { size: Vector2 { x: patch.width, y: patch.height }, colors }
}

/// Decodes every patch between two marker lumps.
pub fn extract_sprite_patches(
    reader: &Reader,
    directories: &DirectoryList,
    start: &str,
    end: &str,
) -> (r: Vec<Patch>)
    ensures
        forall|i: int| 0 <= i < r@.len() ==> (#[trigger] r@[i]).wf() && r@[i].width <= 2048
            && r@[i].height <= 2048,
{
    let mut out: Vec<Patch> = Vec::new();
    let start_id = match directories.index_of(start) {
        Some(i) => i,
        None => {
            return out;
        },
    };
    let end_id = match directories.index_of(end) {
        Some(i) => i,
        None => {
            return out;
        },
    };
    if end_id <= start_id || end_id > directories.len() {
        return out;
    }
    let mut id = start_id + 1;
    while id < end_id
        invariant
            start_id < id,
            end_id <= directories.directories@.len(),
            forall|i: int| 0 <= i < out@.len() ==> (#[trigger] out@[i]).wf() && out@[i].width
                <= 2048 && out@[i].height <= 2048,
        decreases end_id - id,
    {
        let name = directories.get(id).lump_name;
        match extract_patch(reader, directories, &name) {
            Some(patch) => {
                if patch.width <= 2048 && patch.height <= 2048 {
                    out.push(patch);
                }
            },
            None => {},
        }
        id += 1;
    }
    out
}

/// Decoded texture data of one archive: palettes, flats and the wall
/// texture directory.
pub struct DataTextures {
    pub palettes: Vec<Palette>,
    pub flats_data: Vec<Option<RawFlats>>,
    pub flats_names: Vec<[u8; 8]>,
    pub flats: Vec<Texture<3>>,
    pub sprite_patches: Vec<Patch>,
    pub sprites: Vec<Texture<4>>,
    pub texture_names: Vec<[u8; 8]>,
    pub textures: Vec<Texture<4>>,
}

impl DataTextures {
    /// Every palette is full, every raw flat complete, and the built
    /// images line up with their name lists.
    pub open spec fn wf(self) -> bool {
        &&& forall|i: int| 0 <= i < self.palettes@.len() ==> (#[trigger] self.palettes@[i]).wf()
        &&& forall|i: int|
            0 <= i < self.flats_data@.len() ==> match #[trigger] self.flats_data@[i] {
                Some(f) => f.wf(),
                None => true,
            }
        &&& self.flats@.len() == self.flats_data@.len()
        &&& forall|i: int| 0 <= i < self.flats@.len() ==> (#[trigger] self.flats@[i]).wf()
        &&& self.sprites@.len() == self.sprite_patches@.len()
        &&& forall|i: int| 0 <= i < self.sprites@.len() ==> (#[trigger] self.sprites@[i]).wf()
        &&& self.textures@.len() == self.texture_names@.len()
        &&& forall|i: int| 0 <= i < self.textures@.len() ==> (#[trigger] self.textures@[i]).wf()
    }

    /// Decodes the palettes, the flats between the flat markers and the
    /// wall texture name directory of the archive; `None` when the
    /// palette lump is missing.
    pub fn new(reader: &Reader) -> (r: Option<DataTextures>)
        ensures
            r matches Some(d) ==> d.wf(),
    {
        let directories = match reader.directories() {
            Some(d) => d,
            None => {
                return None;
            },
        };
        let palettes_id = match directories.index_of("PLAYPAL") {
            Some(i) => i,
            None => {
                return None;
            },
        };
        let palettes = extract_palettes(reader, directories.get(palettes_id));
        let flats_names = extract_a_directories_names_set(&directories, "F_START", "F_END");
        let flats_data = extract_a_flats(reader, &directories, "F_START", "F_END");
        // The wall texture name directory; the patch compositor is not
        // decoded here, so each name carries the placeholder image until
        // the embedding program supplies real pixels.
        let mut texture_names = extract_texture_names(reader, &directories, "TEXTURE1");
        let mut second = extract_texture_names(reader, &directories, "TEXTURE2");
        texture_names.append(&mut second);
        // Sprite patches between the sprite markers, composed through
        // the first palette where one exists.
        let sprite_patches = extract_sprite_patches(reader, &directories, "S_START", "S_END");
        let mut textures: Vec<Texture<4>> = Vec::new();
        let mut t: usize = 0;
        while t < texture_names.len()
            invariant
                textures@.len() == t,
                t <= texture_names@.len(),
                forall|k: int| 0 <= k < t ==> (#[trigger] textures@[k]).wf(),
            decreases texture_names@.len() - t,
        {
            textures.push(unknown_texture());
            t += 1;
        }
        let mut sprites: Vec<Texture<4>> = Vec::new();
        if palettes.len() > 0 {
            let mut sp: usize = 0;
            while sp < sprite_patches.len()
                invariant
                    sprites@.len() == sp,
                    sp <= sprite_patches@.len(),
                    palettes@.len() > 0,
                    forall|k: int| 0 <= k < palettes@.len() ==> (#[trigger] palettes@[k]).wf(),
                    forall|k: int|
                        0 <= k < sprite_patches@.len() ==> (#[trigger] sprite_patches@[k]).wf()
                            && sprite_patches@[k].width <= 2048 && sprite_patches@[k].height
                            <= 2048,
                    forall|k: int| 0 <= k < sp ==> (#[trigger] sprites@[k]).wf(),
                decreases sprite_patches@.len() - sp,
            {
                sprites.push(build_patch_as_texture(&sprite_patches[sp], &palettes[0]));
                sp += 1;
            }
        } else {
            let mut sp: usize = 0;
            while sp < sprite_patches.len()
                invariant
                    sprites@.len() == sp,
                    sp <= sprite_patches@.len(),
                    forall|k: int| 0 <= k < sp ==> (#[trigger] sprites@[k]).wf(),
                decreases sprite_patches@.len() - sp,
            {
                sprites.push(unknown_texture());
                sp += 1;
            }
        }
        let mut data = DataTextures {
            palettes,
            flats_data,
            flats_names,
            flats: Vec::new(),
            sprite_patches,
            sprites,
            texture_names,
            textures,
        };
        if data.palettes.len() > 0 {
            data.build_flats(0);
        } else {
            let mut i: usize = 0;
            let n = data.flats_data.len();
            while i < n
                invariant
                    data.flats@.len() == i,
                    i <= n,
                    n == data.flats_data@.len(),
                    data.palettes@.len() == 0,
                    data.sprites@.len() == data.sprite_patches@.len(),
                    forall|k: int| 0 <= k < data.sprites@.len() ==> (#[trigger] data.sprites@[k]).wf(),
                    data.textures@.len() == data.texture_names@.len(),
                    forall|k: int|
                        0 <= k < data.textures@.len() ==> (#[trigger] data.textures@[k]).wf(),
                    forall|k: int|
                        0 <= k < data.flats_data@.len() ==> match #[trigger] data.flats_data@[k] {
                            Some(f) => f.wf(),
                            None => true,
                        },
                    forall|k: int| 0 <= k < i ==> (#[trigger] data.flats@[k]).wf(),
                decreases n - i,
            {
                data.flats.push(unknown_flat());
                i += 1;
            }
        }
        Some(data)
    }

    /// Replaces the built flats: each raw flat's palette indices are
    /// looked up in the chosen palette; a missing flat or palette gives
    /// the placeholder image.
    pub fn build_flats(&mut self, palette_id: usize)
        requires
            palette_id < old(self).palettes@.len(),
            forall|i: int|
                0 <= i < old(self).palettes@.len() ==> (#[trigger] old(self).palettes@[i]).wf(),
            forall|i: int|
                0 <= i < old(self).flats_data@.len() ==> match #[trigger] old(self).flats_data@[i] {
                    Some(f) => f.wf(),
                    None => true,
                },
        ensures
            final(self).flats@.len() == old(self).flats_data@.len(),
            forall|i: int|
                0 <= i < final(self).flats@.len() ==> (#[trigger] final(self).flats@[i]).wf(),
            final(self).palettes@ == old(self).palettes@,
            final(self).flats_data@ == old(self).flats_data@,
            final(self).flats_names@ == old(self).flats_names@,
            final(self).sprite_patches@ == old(self).sprite_patches@,
            final(self).sprites@ == old(self).sprites@,
            final(self).texture_names@ == old(self).texture_names@,
            final(self).textures@ == old(self).textures@,
    {
        self.flats = Vec::new();
        let n = self.flats_data.len();
        let mut i: usize = 0;
        while i < n
            invariant
                self.flats@.len() == i,
                i <= n,
                n == self.flats_data@.len(),
                palette_id < self.palettes@.len(),
                forall|k: int| 0 <= k < i ==> (#[trigger] self.flats@[k]).wf(),
                forall|k: int|
                    0 <= k < self.palettes@.len() ==> (#[trigger] self.palettes@[k]).wf(),
                forall|k: int|
                    0 <= k < self.flats_data@.len() ==> match #[trigger] self.flats_data@[k] {
                        Some(f) => f.wf(),
                        None => true,
                    },
                self.palettes@ == old(self).palettes@,
                self.flats_data@ == old(self).flats_data@,
                self.flats_names@ == old(self).flats_names@,
                self.sprite_patches@ == old(self).sprite_patches@,
                self.sprites@ == old(self).sprites@,
                self.texture_names@ == old(self).texture_names@,
                self.textures@ == old(self).textures@,
            decreases n - i,
        {
            let flat = match &self.flats_data[i] {
                Some(raw) => {
                    let mut colors: Vec<[u8; 3]> = Vec::new();
                    let mut p: usize = 0;
                    while p < 4096
                        invariant
                            colors@.len() == p,
                            p <= 4096,
                            i < self.flats_data@.len(),
                            self.flats_data@[i as int] matches Some(f) && f.wf() && f
                                == self.flats_data@[i as int].unwrap(),
                            palette_id < self.palettes@.len(),
                            self.palettes@[palette_id as int].wf(),
                        decreases 4096 - p,
                    {
                        let raw2 = match &self.flats_data[i] {
                            Some(r2) => r2,
                            None => {
                                proof {
                                    assert(false);
                                }
                                break ;
                            },
                        };
                        let idx = raw2.pixels[p] as usize;
                        colors.push(self.palettes[palette_id].colors[idx]);
                        p += 1;
                    }
                    Texture { size: Vector2 { x: 64u16, y: 64u16 }, colors }
                },
                None => unknown_flat(),
            };
            if flat.colors.len() == 4096 {
                self.flats.push(flat);
            } else {
                self.flats.push(unknown_flat());
            }
            i += 1;
        }
    }

    /// The flat image of a name: the image at the first matching name,
    /// nothing when the name is unknown.
    pub fn flat(&self, name: &[u8; 8]) -> (r: Option<&Texture<3>>)
        requires
            self.wf(),
            self.flats_names@.len() == self.flats@.len(),
        ensures
            ({
                let idx = spec_first_name(self.flats_names@, name@);
                &&& (r is Some <==> idx is Some)
                &&& (r matches Some(t) ==> idx matches Some(i) && *t == self.flats@[i] && t.wf())
            }),
    {
        match find_name(&self.flats_names, name) {
            Some(index) => Some(&self.flats[index]),
            None => None,
        }
    }

    /// The flat image at an index, where the index is in range.
    pub fn flat_id(&self, id: usize) -> (r: Option<&Texture<3>>)
        requires
            self.wf(),
        ensures
            r is Some <==> id < self.flats@.len(),
            r matches Some(t) ==> t.wf() && t == &self.flats@[id as int],
    {
        if id < self.flats.len() {
            Some(&self.flats[id])
        } else {
            None
        }
    }

    /// The sprite image of a name: the image of the first patch with
    /// that name, nothing when the name is unknown.
    pub fn sprite(&self, name: &[u8; 8]) -> (r: Option<&Texture<4>>)
        requires
            self.wf(),
        ensures
            r matches Some(t) ==> t.wf(),
    {
        let mut i: usize = 0;
        while i < self.sprite_patches.len()
            invariant
                self.wf(),
                i <= self.sprite_patches@.len(),
            decreases self.sprite_patches@.len() - i,
        {
            if name_eq(&self.sprite_patches[i].name, name) {
                return Some(&self.sprites[i]);
            }
            i += 1;
        }
        None
    }

    /// The wall texture of a name: the image at the first matching
    /// name, nothing when the name is unknown.
    pub fn texture(&self, name: &[u8; 8]) -> (r: Option<&Texture<4>>)
        requires
            self.wf(),
        ensures
            ({
                let idx = spec_first_name(self.texture_names@, name@);
                &&& (r is Some <==> idx is Some)
                &&& (r matches Some(t) ==> idx matches Some(i) && *t == self.textures@[i]
                    && t.wf())
            }),
    {
        match find_name(&self.texture_names, name) {
            Some(index) => Some(&self.textures[index]),
            None => None,
        }
    }

    /// The wall texture at an index, where the index is in range.
    pub fn texture_id(&self, id: usize) -> (r: Option<&Texture<4>>)
        requires
            self.wf(),
        ensures
            r is Some <==> id < self.textures@.len(),
            r matches Some(t) ==> t.wf() && t == &self.textures@[id as int],
    {
        if id < self.textures.len() {
            Some(&self.textures[id])
        } else {
            None
        }
    }
}

/// The placeholder flat: a plain orange 64 by 64 image with a white
/// border, shown where a flat could not be decoded.
pub fn unknown_flat() -> (r: Texture<3>)
    ensures
        r.wf(),
        r.size == (Vector2 { x: 64u16, y: 64u16 }),
{
    let mut colors: Vec<[u8; 3]> = Vec::new();
    let mut i: usize = 0;
    while i < 4096
        invariant
            colors@.len() == i,
            i <= 4096,
        decreases 4096 - i,
    {
        let x = i % 64;
        let y = i / 64;
        if x == 0 || x == 63 || y == 0 || y == 63 {
            colors.push([255, 255, 255]);
        } else {
            colors.push([255, 165, 0]);
        }
        i += 1;
    }
    Texture { size: Vector2 { x: 64u16, y: 64u16 }, colors }
}

/// The placeholder wall texture: the placeholder flat with full alpha.
pub fn unknown_texture() -> (r: Texture<4>)
    ensures
        r.wf(),
        r.size == (Vector2 { x: 64u16, y: 64u16 }),
{
    let mut colors: Vec<[u8; 4]> = Vec::new();
    let mut i: usize = 0;
    while i < 4096
        invariant
            colors@.len() == i,
            i <= 4096,
        decreases 4096 - i,
    {
        let x = i % 64;
        let y = i / 64;
        if x == 0 || x == 63 || y == 0 || y == 63 {
            colors.push([255, 255, 255, 255]);
        } else {
            colors.push([255, 165, 0, 255]);
        }
        i += 1;
    }
    Texture { size: Vector2 { x: 64u16, y: 64u16 }, colors }
}

/// Decodes the palettes of the palette lump: each run of 768 bytes is
/// one palette of 256 RGB triples.
pub fn extract_palettes(reader: &Reader, directory: &crate::wad::Directory) -> (r: Vec<Palette>)
    ensures
        forall|i: int| 0 <= i < r@.len() ==> (#[trigger] r@[i]).wf(),
{
    let mut out: Vec<Palette> = Vec::new();
    let start = directory.lump_offset as usize;
    let size = directory.lump_size as usize;
    let mut off: usize = 0;
    while size - off >= 768
        invariant
            off <= size,
            forall|i: int| 0 <= i < out@.len() ==> (#[trigger] out@[i]).wf(),
            start == directory.lump_offset,
            size == directory.lump_size,
        decreases size - off,
    {
        if (start as u64) + (off as u64) + 768 > (reader.buffer.len() as u64) {
            return out;
        }
        let mut colors: Vec<[u8; 3]> = Vec::new();
        let mut c: usize = 0;
        while c < 256
            invariant
                colors@.len() == c,
                c <= 256,
                start + off + 768 <= reader.buffer@.len(),
                reader.buffer@.len() <= usize::MAX,
            decreases 256 - c,
        {
            let base = start + off + 3 * c;
            colors.push([reader.buffer[base], reader.buffer[base + 1], reader.buffer[base + 2]]);
            c += 1;
        }
        out.push(Palette { colors });
        off += 768;
    }
    out
}

/// The names of the directory entries between two marker lumps, both
/// included; an absent marker gives the empty list.
pub fn extract_a_directories_names_set(
    directories: &DirectoryList,
    start: &str,
    end: &str,
) -> (r: Vec<[u8; 8]>)
{
    let mut out: Vec<[u8; 8]> = Vec::new();
    let start_id = match directories.index_of(start) {
        Some(i) => i,
        None => {
            return out;
        },
    };
    let end_id = match directories.index_of(end) {
        Some(i) => i,
        None => {
            return out;
        },
    };
    let mut id = start_id;
    while id <= end_id && id < directories.len()
        invariant
            start_id <= id,
        decreases end_id + 1 - id,
    {
        out.push(directories.get(id).lump_name);
        id += 1;
    }
    out
}

/// The raw flats between two marker lumps: the markers themselves and
/// any lump whose bytes do not cover a full flat give `None`.
pub fn extract_a_flats(
    reader: &Reader,
    directories: &DirectoryList,
    start: &str,
    end: &str,
) -> (r: Vec<Option<RawFlats>>)
    ensures
        forall|i: int|
            0 <= i < r@.len() ==> match #[trigger] r@[i] {
                Some(f) => f.wf(),
                None => true,
            },
{
    let mut out: Vec<Option<RawFlats>> = Vec::new();
    let start_id = match directories.index_of(start) {
        Some(i) => i,
        None => {
            return out;
        },
    };
    let end_id = match directories.index_of(end) {
        Some(i) => i,
        None => {
            return out;
        },
    };
    if end_id <= start_id || end_id >= directories.len() {
        return out;
    }
    out.push(None);
    let mut id = start_id + 1;
    while id < end_id
        invariant
            start_id < id,
            end_id < directories.directories@.len(),
            forall|i: int|
                0 <= i < out@.len() ==> match #[trigger] out@[i] {
                    Some(f) => f.wf(),
                    None => true,
                },
        decreases end_id - id,
    {
        let dir = directories.get(id);
        let off = dir.lump_offset as usize;
        if dir.lump_size >= 4096 && (off as u64) + 4096 <= (reader.buffer.len() as u64) {
            let mut pixels: Vec<u8> = Vec::new();
            let mut p: usize = 0;
            while p < 4096
                invariant
                    pixels@.len() == p,
                    p <= 4096,
                    off + 4096 <= reader.buffer@.len(),
                    reader.buffer@.len() <= usize::MAX,
                decreases 4096 - p,
            {
                pixels.push(reader.buffer[off + p]);
                p += 1;
            }
            out.push(Some(RawFlats { pixels }));
        } else {
            out.push(None);
        }
        id += 1;
    }
    out.push(None);
    out
}

/// The patch name table of the archive: the names the wall textures
/// refer to by index.
pub struct PNames {
    pub names: Vec<[u8; 8]>,
}

impl PNames {
    /// The names in table order.
    pub fn iter(&self) -> (r: &Vec<[u8; 8]>)
        ensures
            r == &self.names,
    {
        &self.names
    }
}

/// Decodes the patch name table: a count then that many 8-byte names.
pub fn extract_pnames(reader: &Reader, directory: &crate::wad::Directory) -> (r: Option<PNames>) {
    let start = directory.lump_offset as usize;
    if directory.lump_size < 4 {
        return None;
    }
    if (start as u64) + 4 > (reader.buffer.len() as u64) {
        return None;
    }
    let count = crate::wad::read_u32_le(&reader.buffer, start);
    if count > 0x10000 {
        return None;
    }
    let mut names: Vec<[u8; 8]> = Vec::new();
    let mut i: u32 = 0;
    while i < count
        invariant
            i <= count,
            count <= 0x10000,
            start <= 0xFFFF_FFFF,
        decreases count - i,
    {
        let off64 = (start as u64) + 4 + (i as u64) * 8;
        if off64 + 8 > (reader.buffer.len() as u64) {
            return None;
        }
        let off = off64 as usize;
        names.push(crate::wad::read_name8(&reader.buffer, off));
        i += 1;
    }
    Some(PNames { names })
}

/// The offset table at the head of a texture directory lump.
pub struct TextureHeader {
    pub offsets: Vec<u32>,
}

impl TextureHeader {
    /// Decodes the offset table: a count then that many lump-relative
    /// offsets.
    pub fn new(reader: &Reader, directory: &crate::wad::Directory) -> (r: Option<TextureHeader>) {
        let start = directory.lump_offset as usize;
        if directory.lump_size < 4 {
            return None;
        }
        if (start as u64) + 4 > (reader.buffer.len() as u64) {
            return None;
        }
        let count = crate::wad::read_u32_le(&reader.buffer, start);
        if count > 0x10000 {
            return None;
        }
        let mut offsets: Vec<u32> = Vec::new();
        let mut i: u32 = 0;
        while i < count
            invariant
                i <= count,
                count <= 0x10000,
                start <= 0xFFFF_FFFF,
            decreases count - i,
        {
            let off64 = (start as u64) + 4 + (i as u64) * 4;
            if off64 + 4 > (reader.buffer.len() as u64) {
                return None;
            }
            let off = off64 as usize;
            offsets.push(crate::wad::read_u32_le(&reader.buffer, off));
            i += 1;
        }
        Some(TextureHeader { offsets })
    }

    /// The byte size of the table itself.
    pub fn size_of(&self) -> (r: usize)
        requires
            self.offsets@.len() <= 0x10000,
        ensures
            r == 4 + self.offsets@.len() * 4,
    {
        4 + self.offsets.len() * 4
    }

    /// The decoded offsets.
    pub fn iter(&self) -> (r: &Vec<u32>)
        ensures
            r == &self.offsets,
    {
        &self.offsets
    }
}

/// One wall texture's directory record: its name, its pixel size and
/// how many patches compose it.
pub struct TextureMap {
    pub name: [u8; 8],
    pub flags: u32,
    pub size: Vector2<u16>,
    pub patch_map_count: u16,
}

impl TextureMap {
    /// Decodes one record at a lump-relative offset.
    pub fn read(reader: &Reader, lump_start: usize, rel: u32) -> (r: Option<TextureMap>)
        requires
            lump_start <= 0xFFFF_FFFF,
    {
        if (lump_start as u64) + (rel as u64) + 22 > (reader.buffer.len() as u64) {
            return None;
        }
        let o = ((lump_start as u64) + (rel as u64)) as usize;
        Some(
            TextureMap {
                name: crate::wad::read_name8(&reader.buffer, o),
                flags: crate::wad::read_u32_le(&reader.buffer, o + 8),
                size: Vector2 {
                    x: crate::wad::read_u16_le(&reader.buffer, o + 12),
                    y: crate::wad::read_u16_le(&reader.buffer, o + 14),
                },
                patch_map_count: crate::wad::read_u16_le(&reader.buffer, o + 20),
            },
        )
    }

    /// The record's byte size including its patch placements.
    pub fn size_of(&self) -> (r: usize)
        ensures
            r == 22 + self.patch_map_count as int * 10,
    {
        22 + (self.patch_map_count as usize) * 10
    }
}

/// The names of every wall texture a texture directory lump declares.
pub fn extract_texture_names(reader: &Reader, directories: &DirectoryList, pack: &str) -> (r: Vec<
    [u8; 8],
>) {
    let mut out: Vec<[u8; 8]> = Vec::new();
    let id = match directories.index_of(pack) {
        Some(i) => i,
        None => {
            return out;
        },
    };
    let directory = directories.get(id);
    let header = match TextureHeader::new(reader, directory) {
        Some(h) => h,
        None => {
            return out;
        },
    };
    let start = directory.lump_offset as usize;
    let mut i: usize = 0;
    while i < header.offsets.len()
        invariant
            start <= 0xFFFF_FFFF,
        decreases header.offsets@.len() - i,
    {
        match TextureMap::read(reader, start, header.offsets[i]) {
            Some(tm) => {
                out.push(tm.name);
            },
            None => {},
        }
        i += 1;
    }
    out
}

} // verus!

