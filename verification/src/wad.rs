//! Archive parsing: the header and lump directory of a binary level
//! archive, decoded from a byte buffer by explicit, bounds-checked
//! little-endian reads.

use vstd::prelude::*;
use vstd::string::StringSliceAdditionalSpecFns;

verus! {

/// Relies on String::push of std: appends the given character to the end
/// of the string.
pub assume_specification[ String::push ](s: &mut String, c: char)
    ensures
        final(s)@ == old(s)@.push(c),
;

/// Little-endian 16-bit value of two consecutive bytes.
pub open spec fn le16(b0: u8, b1: u8) -> u16 {
    (b0 + b1 * 256) as u16
}

/// Little-endian 32-bit value of four consecutive bytes.
pub open spec fn le32(b0: u8, b1: u8, b2: u8, b3: u8) -> u32 {
    (b0 + b1 * 0x100 + b2 * 0x10000 + b3 * 0x1000000) as u32
}

/// Two's-complement reading of a 16-bit value.
pub open spec fn as_signed16(v: u16) -> int {
    if v < 0x8000 {
        v as int
    } else {
        v - 0x10000
    }
}

/// Reads the little-endian 16-bit value at `off`.
pub fn read_u16_le(buffer: &Vec<u8>, off: usize) -> (r: u16)
    requires
        off + 2 <= buffer.len(),
    ensures
        r == le16(buffer[off as int], buffer[off + 1]),
{
    (buffer[off] as u16) + (buffer[off + 1] as u16) * 256
}

/// Reads the little-endian 16-bit value at `off` as a signed quantity.
pub fn read_i16_le(buffer: &Vec<u8>, off: usize) -> (r: i16)
    requires
        off + 2 <= buffer.len(),
    ensures
        r == as_signed16(le16(buffer[off as int], buffer[off + 1])),
{
    let v: u16 = read_u16_le(buffer, off);
    if v >= 0x8000 {
        ((v as i32) - 0x10000) as i16
    } else {
        v as i16
    }
}

/// Reads the little-endian 32-bit value at `off`.
pub fn read_u32_le(buffer: &Vec<u8>, off: usize) -> (r: u32)
    requires
        off + 4 <= buffer.len(),
    ensures
        r == le32(
            buffer[off as int],
            buffer[off + 1],
            buffer[off + 2],
            buffer[off + 3],
        ),
{
    (buffer[off] as u32) + (buffer[off + 1] as u32) * 0x100 + (buffer[off + 2] as u32) * 0x10000
        + (buffer[off + 3] as u32) * 0x1000000
}

/// Reads the 8-byte name field at `off`.
pub fn read_name8(buffer: &Vec<u8>, off: usize) -> (r: [u8; 8])
    requires
        off + 8 <= buffer.len(),
    ensures
        forall|i: int| 0 <= i < 8 ==> r[i] == buffer[off + i],
{
    [
        buffer[off],
        buffer[off + 1],
        buffer[off + 2],
        buffer[off + 3],
        buffer[off + 4],
        buffer[off + 5],
        buffer[off + 6],
        buffer[off + 7],
    ]
}

/// True when the two 8-byte names hold the same bytes.
pub fn name_eq(a: &[u8; 8], b: &[u8; 8]) -> (r: bool)
    ensures
        r <==> a@ == b@,
{
    let mut i: usize = 0;
    while i < 8
        invariant
            i <= 8,
            forall|j: int| 0 <= j < i ==> a@[j] == b@[j],
        decreases 8 - i,
    {
        if a[i] != b[i] {
            assert(a@ != b@) by {
                assert(a@[i as int] != b@[i as int]);
            }
            return false;
        }
        i += 1;
    }
    proof {
        assert(a@ =~= b@);
    }
    true
}

/// True when the two 8-byte names, trailing zeros dropped, spell the
/// same bytes.
pub fn name_trim_eq(a: &[u8; 8], b: &[u8; 8]) -> (r: bool)
    ensures
        r <==> trimmed(a@) == trimmed(b@),
{
    proof {
        assert(a@.take(8) =~= a@);
        assert(b@.take(8) =~= b@);
    }
    let mut na: usize = 8;
    while na > 0 && a[na - 1] == 0
        invariant
            na <= 8,
            trimmed(a@) == trimmed(a@.take(na as int)),
        decreases na,
    {
        proof {
            assert(a@.take(na as int).drop_last() =~= a@.take(na - 1));
        }
        na -= 1;
    }
    let mut nb: usize = 8;
    while nb > 0 && b[nb - 1] == 0
        invariant
            nb <= 8,
            trimmed(b@) == trimmed(b@.take(nb as int)),
        decreases nb,
    {
        proof {
            assert(b@.take(nb as int).drop_last() =~= b@.take(nb - 1));
        }
        nb -= 1;
    }
    proof {
        if na > 0 {
            assert(trimmed(a@.take(na as int)) =~= a@.take(na as int));
        } else {
            assert(trimmed(a@.take(0)) =~= a@.take(0));
        }
        if nb > 0 {
            assert(trimmed(b@.take(nb as int)) =~= b@.take(nb as int));
        } else {
            assert(trimmed(b@.take(0)) =~= b@.take(0));
        }
    }
    if na != nb {
        return false;
    }
    let mut i: usize = 0;
    while i < na
        invariant
            i <= na <= 8,
            nb == na,
            trimmed(a@) == a@.take(na as int),
            trimmed(b@) == b@.take(na as int),
            forall|j: int| 0 <= j < i ==> a@[j] == b@[j],
        decreases na - i,
    {
        if a[i] != b[i] {
            assert(trimmed(a@) != trimmed(b@)) by {
                assert(trimmed(a@)[i as int] != trimmed(b@)[i as int]);
            }
            return false;
        }
        i += 1;
    }
    proof {
        assert(trimmed(a@) =~= trimmed(b@));
    }
    true
}

/// A name with its trailing padding zero bytes dropped.
pub open spec fn trimmed(s: Seq<u8>) -> Seq<u8>
    decreases s.len(),
{
    if s.len() == 0 {
        s
    } else if s[s.len() - 1] == 0 {
        trimmed(s.drop_last())
    } else {
        s
    }
}

/// True when the 8-byte name, trailing zeros dropped, spells the bytes of
/// `name`.
pub fn name_matches_str(lump_name: &[u8; 8], name: &str) -> (r: bool)
    ensures
        r <==> trimmed(lump_name@) == name.spec_bytes(),
{
    proof {
        assert(lump_name@.take(8) =~= lump_name@);
    }
    // Length of the name once trailing zeros are dropped.
    let mut n: usize = 8;
    while n > 0 && lump_name[n - 1] == 0
        invariant
            n <= 8,
            trimmed(lump_name@) == trimmed(lump_name@.take(n as int)),
        decreases n,
    {
        proof {
            assert(lump_name@.take(n as int).drop_last() =~= lump_name@.take(n - 1));
        }
        n -= 1;
    }
    proof {
        if n > 0 {
            assert(trimmed(lump_name@.take(n as int)) =~= lump_name@.take(n as int));
        } else {
            assert(trimmed(lump_name@.take(0)) =~= lump_name@.take(0));
        }
    }
    let name_bytes = name.as_bytes();
    if name_bytes.len() != n {
        return false;
    }
    let mut i: usize = 0;
    while i < n
        invariant
            i <= n <= 8,
            name_bytes@.len() == n,
            name_bytes@ == name.spec_bytes(),
            trimmed(lump_name@) == lump_name@.take(n as int),
            forall|j: int| 0 <= j < i ==> lump_name@[j] == name.spec_bytes()[j],
        decreases n - i,
    {
        if lump_name[i] != name_bytes[i] {
            assert(trimmed(lump_name@) != name.spec_bytes()) by {
                assert(trimmed(lump_name@)[i as int] != name.spec_bytes()[i as int]);
            }
            return false;
        }
        i += 1;
    }
    proof {
        assert(trimmed(lump_name@) =~= name.spec_bytes());
    }
    true
}

/// The archive header: a four-byte type tag and the directory's location.
#[derive(Clone, Copy, Debug)]
pub struct Header {
    pub wad_type: [u8; 4],
    pub directory_count: u32,
    pub directory_offset: u32,
}

impl Header {
    /// True when the type tag spells one of the two accepted archive kinds.
    pub open spec fn is_valid(self) -> bool {
        self.wad_type@ == seq![0x49u8, 0x57u8, 0x41u8, 0x44u8] || self.wad_type@ == seq![0x50u8, 0x57u8, 0x41u8, 0x44u8]
    }

    /// Whether this archive header carries an accepted type tag.
    pub fn valid(&self) -> (r: bool)
        ensures
            r <==> self.is_valid(),
    {
        let iwad = self.wad_type[0] == 0x49 && self.wad_type[1] == 0x57 && self.wad_type[2] == 0x41
            && self.wad_type[3] == 0x44;
        let pwad = self.wad_type[0] == 0x50 && self.wad_type[1] == 0x57 && self.wad_type[2] == 0x41
            && self.wad_type[3] == 0x44;
        proof {
            if self.wad_type@[0] == 0x49 && self.wad_type@[1] == 0x57 && self.wad_type@[2] == 0x41
                && self.wad_type@[3] == 0x44 {
                assert(self.wad_type@ =~= seq![0x49u8, 0x57u8, 0x41u8, 0x44u8]);
            }
            if self.wad_type@[0] == 0x50 && self.wad_type@[1] == 0x57 && self.wad_type@[2] == 0x41
                && self.wad_type@[3] == 0x44 {
                assert(self.wad_type@ =~= seq![0x50u8, 0x57u8, 0x41u8, 0x44u8]);
            }
        }
        iwad || pwad
    }

    /// The type tag as a string, for display; `None` when not ASCII.
    pub fn name(&self) -> (r: Option<String>)
        ensures
            r matches Some(s) ==> forall|i: int|
                0 <= i < s@.len() ==> s@[i] as u8 == self.wad_type@[i],
    {
        let mut out = String::new();
        let mut i: usize = 0;
        while i < 4
            invariant
                i <= 4,
                out@.len() == i,
                forall|j: int| 0 <= j < i ==> out@[j] as u8 == self.wad_type@[j],
            decreases 4 - i,
        {
            let b = self.wad_type[i];
            if b >= 0x80 {
                return None;
            }
            out.push(b as char);
            i += 1;
        }
        Some(out)
    }
}

/// One lump directory entry: where a lump's bytes lie and its name.
#[derive(Clone, Copy, Debug)]
pub struct Directory {
    pub lump_offset: u32,
    pub lump_size: u32,
    pub lump_name: [u8; 8],
}

impl Directory {
    /// First byte offset of the lump's data.
    pub fn start(&self) -> (r: usize)
        ensures
            r == self.lump_offset,
    {
        self.lump_offset as usize
    }

    /// One past the last byte offset of the lump's data.
    pub fn end(&self) -> (r: usize)
        requires
            self.lump_offset + self.lump_size <= usize::MAX,
        ensures
            r == self.lump_offset + self.lump_size,
    {
        self.lump_offset as usize + self.lump_size as usize
    }

    /// Byte count of the lump's data.
    pub fn size(&self) -> (r: usize)
        ensures
            r == self.lump_size,
    {
        self.lump_size as usize
    }

    /// Offsets of the fixed-size records the lump holds, one per record.
    pub fn data(&self, chunk_size: usize) -> (r: Vec<usize>)
        requires
            chunk_size > 0,
            self.lump_offset + self.lump_size <= usize::MAX,
        ensures
            forall|i: int|
                0 <= i < r.len() ==> r[i] == self.lump_offset + i * chunk_size,
            forall|i: int|
                0 <= i < r.len() ==> #[trigger] r[i] + chunk_size <= self.lump_offset
                    + self.lump_size,
            r.len() == self.lump_size as int / chunk_size as int,
    {
        self.data_by_step(0, chunk_size)
    }

    /// Offsets stepped by `step`, starting `offset` bytes into the lump.
    pub fn data_by_step(&self, offset: usize, step: usize) -> (r: Vec<usize>)
        requires
            step > 0,
            offset <= self.lump_size,
            self.lump_offset + self.lump_size <= usize::MAX,
        ensures
            forall|i: int|
                0 <= i < r.len() ==> r[i] == self.lump_offset + offset + i * step,
            forall|i: int|
                0 <= i < r.len() ==> #[trigger] r[i] + step <= self.lump_offset + self.lump_size,
            offset == 0 ==> r.len() == self.lump_size as int / step as int,
    {
        let mut out: Vec<usize> = Vec::new();
        let base = self.lump_offset as usize + offset;
        let end = self.lump_offset as usize + self.lump_size as usize;
        let mut pos = base;
        assert(pos == base + out.len() * step) by {
            assert(0 * step == 0);
        }
        while end - pos >= step
            invariant
                base == self.lump_offset + offset,
                end == self.lump_offset + self.lump_size,
                pos == base + out.len() * step,
                step > 0,
                base <= pos <= end,
                forall|i: int| 0 <= i < out.len() ==> out[i] == base + i * step,
                forall|i: int|
                    0 <= i < out.len() ==> #[trigger] out[i] + step <= end,
            decreases end - pos,
        {
            out.push(pos);
            proof {
                assert((out.len()) * step == (out.len() - 1) * step + step) by (nonlinear_arith);
            }
            pos += step;
        }
        proof {
            if offset == 0 {
                let q = self.lump_size as int / step as int;
                vstd::arithmetic::div_mod::lemma_fundamental_div_mod(
                    self.lump_size as int,
                    step as int,
                );
                vstd::arithmetic::div_mod::lemma_mod_bound(self.lump_size as int, step as int);
                assert(out.len() * step <= self.lump_size < (out.len() + 1) * step)
                    by (nonlinear_arith)
                    requires
                        pos == base + out.len() * step,
                        base == self.lump_offset,
                        offset == 0,
                        end == self.lump_offset + self.lump_size,
                        pos <= end,
                        end - pos < step,
                ;
                assert(q * step <= self.lump_size < (q + 1) * step) by (nonlinear_arith)
                    requires
                        self.lump_size == step * q + (self.lump_size as int % (step as int)),
                        0 <= (self.lump_size as int % (step as int)) && (self.lump_size as int % (
                        step as int)) < step,
                ;
                assert(out.len() == q) by (nonlinear_arith)
                    requires
                        out.len() * step <= self.lump_size < (out.len() + 1) * step,
                        q * step <= self.lump_size < (q + 1) * step,
                        step > 0,
                ;
            }
        }
        out
    }

    /// The lump name as a string, trailing zeros dropped; `None` when not
    /// ASCII.
    pub fn name(&self) -> (r: Option<String>)
        ensures
            r matches Some(s) ==> forall|i: int|
                0 <= i < s@.len() ==> s@[i] as u8 == self.lump_name@[i],
    {
        let mut out = String::new();
        let mut i: usize = 0;
        while i < 8
            invariant
                i <= 8,
                out@.len() == i,
                forall|j: int| 0 <= j < i ==> out@[j] as u8 == self.lump_name@[j],
            decreases 8 - i,
        {
            let b = self.lump_name[i];
            if b >= 0x80 {
                return None;
            }
            out.push(b as char);
            i += 1;
        }
        Some(out)
    }
}

/// The ordered list of directory entries of one archive.
pub struct DirectoryList {
    pub directories: Vec<Directory>,
}

impl DirectoryList {
    /// An empty list.
    pub fn new(capacity: usize) -> (r: Self)
        ensures
            r.directories@.len() == 0,
    {
        let mut directories: Vec<Directory> = Vec::new();
        DirectoryList { directories }
    }

    /// Number of entries.
    pub fn len(&self) -> (r: usize)
        ensures
            r == self.directories@.len(),
    {
        self.directories.len()
    }

    /// Appends one entry.
    pub fn push(&mut self, directory: &Directory)
        ensures
            final(self).directories@ == old(self).directories@.push(*directory),
    {
        self.directories.push(*directory);
    }

    /// The entry at `index`.
    pub fn get(&self, index: usize) -> (r: &Directory)
        requires
            index < self.directories@.len(),
        ensures
            *r == self.directories@[index as int],
    {
        &self.directories[index]
    }

    /// Index of the first entry whose trimmed name spells `name`.
    pub fn index_of(&self, name: &str) -> (r: Option<usize>)
        ensures
            r matches Some(i) ==> i < self.directories@.len() && trimmed(
                self.directories@[i as int].lump_name@,
            ) == name.spec_bytes() && forall|j: int|
                0 <= j < i ==> trimmed(#[trigger] self.directories@[j].lump_name@) != name.spec_bytes(),
            r is None ==> forall|j: int|
                0 <= j < self.directories@.len() ==> trimmed(
                    #[trigger] self.directories@[j].lump_name@,
                ) != name.spec_bytes(),
    {
        let mut i: usize = 0;
        while i < self.directories.len()
            invariant
                i <= self.directories@.len(),
                forall|j: int|
                    0 <= j < i ==> trimmed(#[trigger] self.directories@[j].lump_name@)
                        != name.spec_bytes(),
            decreases self.directories@.len() - i,
        {
            if name_matches_str(&self.directories[i].lump_name, name) {
                return Some(i);
            }
            i += 1;
        }
        None
    }
}

/// An archive held in memory as one byte buffer.
pub struct Reader {
    pub buffer: Vec<u8>,
}

impl Reader {
    /// Wraps a byte buffer, accepting it only when it starts with a valid
    /// archive header.
    pub fn new(buffer: Vec<u8>) -> (r: Option<Reader>)
        ensures
            r matches Some(rd) ==> rd.buffer@ == buffer@ && buffer.len() >= 12,
    {
        if buffer.len() < 12 {
            return None;
        }
        let reader = Reader { buffer };
        let header = reader.header();
        match header {
            Some(h) => {
                if h.valid() {
                    Some(reader)
                } else {
                    None
                }
            },
            None => None,
        }
    }

    /// Decodes the archive header when the buffer is long enough.
    pub fn header(&self) -> (r: Option<Header>)
        ensures
            r is Some <==> self.buffer@.len() >= 12,
            r matches Some(h) ==> {
                &&& forall|i: int| 0 <= i < 4 ==> h.wad_type@[i] == self.buffer@[i]
                &&& h.directory_count == le32(
                    self.buffer@[4],
                    self.buffer@[5],
                    self.buffer@[6],
                    self.buffer@[7],
                )
                &&& h.directory_offset == le32(
                    self.buffer@[8],
                    self.buffer@[9],
                    self.buffer@[10],
                    self.buffer@[11],
                )
            },
    {
        if self.buffer.len() < 12 {
            return None;
        }
        let wad_type = [self.buffer[0], self.buffer[1], self.buffer[2], self.buffer[3]];
        let directory_count = read_u32_le(&self.buffer, 4);
        let directory_offset = read_u32_le(&self.buffer, 8);
        Some(Header { wad_type, directory_count, directory_offset })
    }

    /// Decodes the directory list; `None` when the header or the directory
    /// lies outside the buffer.
    pub fn directories(&self) -> (r: Option<DirectoryList>)
        ensures
            r matches Some(list) ==> {
                &&& self.buffer@.len() >= 12
                &&& forall|i: int|
                    0 <= i < list.directories@.len() ==> {
                        let off = le32(
                            self.buffer@[8],
                            self.buffer@[9],
                            self.buffer@[10],
                            self.buffer@[11],
                        ) + i * 16;
                        &&& (#[trigger] list.directories@[i]).lump_offset == le32(
                            self.buffer@[off],
                            self.buffer@[off + 1],
                            self.buffer@[off + 2],
                            self.buffer@[off + 3],
                        )
                        &&& list.directories@[i].lump_size == le32(
                            self.buffer@[off + 4],
                            self.buffer@[off + 5],
                            self.buffer@[off + 6],
                            self.buffer@[off + 7],
                        )
                        &&& forall|k: int|
                            0 <= k < 8 ==> list.directories@[i].lump_name@[k] == self.buffer@[off
                                + 8 + k]
                    }
            },
    {
        let header = match self.header() {
            Some(h) => h,
            None => {
                return None;
            },
        };
        let count = header.directory_count as usize;
        let start = header.directory_offset as usize;
        if count > 0x0100_0000 {
            return None;
        }
        let bytes = count * 16;
        let blen = self.buffer.len();
        if (start as u64) + (bytes as u64) > (blen as u64) {
            return None;
        }
        let mut out = DirectoryList::new(count);
        let mut i: usize = 0;
        while i < count
            invariant
                count <= 0x0100_0000,
                start == le32(self.buffer@[8], self.buffer@[9], self.buffer@[10], self.buffer@[11]),
                start + count * 16 <= blen,
                blen == self.buffer@.len(),
                self.buffer@.len() >= 12,
                i <= count,
                out.directories@.len() == i,
                forall|j: int|
                    0 <= j < i ==> {
                        let off = start + j * 16;
                        &&& (#[trigger] out.directories@[j]).lump_offset == le32(
                            self.buffer@[off],
                            self.buffer@[off + 1],
                            self.buffer@[off + 2],
                            self.buffer@[off + 3],
                        )
                        &&& out.directories@[j].lump_size == le32(
                            self.buffer@[off + 4],
                            self.buffer@[off + 5],
                            self.buffer@[off + 6],
                            self.buffer@[off + 7],
                        )
                        &&& forall|k: int|
                            0 <= k < 8 ==> out.directories@[j].lump_name@[k] == self.buffer@[off + 8
                                + k]
                    },
            decreases count - i,
        {
            assert(start + i * 16 + 16 <= blen) by (nonlinear_arith)
                requires
                    i < count && start + count * 16 <= blen,
            ;
            let off = start + i * 16;
            let lump_offset = read_u32_le(&self.buffer, off);
            let lump_size = read_u32_le(&self.buffer, off + 4);
            let lump_name = read_name8(&self.buffer, off + 8);
            out.push(&Directory { lump_offset, lump_size, lump_name });
            i += 1;
        }
        Some(out)
    }
}

} // verus!
