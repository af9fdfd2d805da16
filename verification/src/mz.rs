use vstd::prelude::*;

verus! {

/// The fixed 28-byte header of an MZ executable.
#[derive(Clone, Copy, Debug, PartialEq, Eq)]
pub struct Header {
    pub magic: [u8; 2],
    pub cblp: u16,
    pub cp: u16,
    pub crlc: u16,
    pub cparhdr: u16,
    pub minalloc: u16,
    pub maxalloc: u16,
    pub ss: u16,
    pub sp: u16,
    pub csum: u16,
    pub ip: u16,
    pub cs: u16,
    pub lfarlc: u16,
    pub ovno: u16,
}

/// One relocation: the image word at `segment:offset` holds a segment
/// number relative to the load segment.
#[derive(Clone, Copy, Debug, PartialEq, Eq)]
pub struct Reloc {
    pub offset: u16,
    pub segment: u16,
}

/// A decoded MZ executable.
#[derive(Debug)]
pub struct Exe {
    pub hdr: Header,
    /// File offset of the load image (just past the header paragraphs).
    pub exe_start: usize,
    /// File offset one past the last byte of the load image.
    pub exe_end: usize,
    pub relocs: Vec<Reloc>,
    pub rawdata: Vec<u8>,
}

/// The size of the fixed header.
pub const HEADER_SIZE: usize = 28;

/// The little-endian word at byte `i`.
pub open spec fn word_at(data: Seq<u8>, i: int) -> u16 {
    (data[i] + 0x100 * data[i + 1]) as u16
}

/// The header fields read from the first 28 bytes.
pub open spec fn header_of(data: Seq<u8>) -> Header {
    Header {
        magic: [data[0], data[1]],
        cblp: word_at(data, 2),
        cp: word_at(data, 4),
        crlc: word_at(data, 6),
        cparhdr: word_at(data, 8),
        minalloc: word_at(data, 10),
        maxalloc: word_at(data, 12),
        ss: word_at(data, 14),
        sp: word_at(data, 16),
        csum: word_at(data, 18),
        ip: word_at(data, 20),
        cs: word_at(data, 22),
        lfarlc: word_at(data, 24),
        ovno: word_at(data, 26),
    }
}

/// The end of the load image: `cp` pages of 512 bytes, the last holding
/// only `cblp` bytes when `cblp` is not zero.
pub open spec fn image_end(h: Header) -> int {
    if h.cblp == 0 {
        h.cp * 512
    } else {
        h.cp * 512 - 512 + h.cblp
    }
}

/// Why a byte string is not an MZ executable, or `None` when it is one:
/// too short for the header, a magic other than "MZ", a relocation table
/// past the end, or a load image that does not lie within the file.
pub open spec fn decode_error(data: Seq<u8>) -> Option<DecodeError> {
    if data.len() < HEADER_SIZE {
        Some(DecodeError::TooShort)
    } else if data[0] != 0x4d || data[1] != 0x5a {
        Some(DecodeError::BadMagic)
    } else if header_of(data).lfarlc + 4 * header_of(data).crlc > data.len() {
        Some(DecodeError::RelocsOutOfBounds)
    } else if !(0 <= header_of(data).cparhdr * 16 <= image_end(header_of(data)) <= data.len()) {
        Some(DecodeError::ImageOutOfBounds)
    } else {
        None
    }
}

/// The ways an MZ decode fails.
#[derive(Clone, Copy, Debug, PartialEq, Eq, Structural)]
pub enum DecodeError {
    TooShort,
    BadMagic,
    RelocsOutOfBounds,
    ImageOutOfBounds,
}

impl DecodeError {
    /// A message describing the failure.
    pub fn message(&self) -> (r: &'static str)
        ensures
            r@ == match *self {
                DecodeError::TooShort => "file too short for an MZ header"@,
                DecodeError::BadMagic => "missing MZ signature"@,
                DecodeError::RelocsOutOfBounds => "relocation table extends past the end of the file"@,
                DecodeError::ImageOutOfBounds => "load image extends past the end of the file"@,
            },
    {
        match self {
            DecodeError::TooShort => "file too short for an MZ header",
            DecodeError::BadMagic => "missing MZ signature",
            DecodeError::RelocsOutOfBounds => "relocation table extends past the end of the file",
            DecodeError::ImageOutOfBounds => "load image extends past the end of the file",
        }
    }
}

/// The relocation entries the table at `lfarlc` lists.
pub open spec fn relocs_of(data: Seq<u8>) -> Seq<Reloc> {
    let h = header_of(data);
    Seq::new(
        h.crlc as nat,
        |i: int| Reloc { offset: word_at(data, h.lfarlc + 4 * i), segment: word_at(data, h.lfarlc + 4 * i + 2) },
    )
}

fn read_word(data: &[u8], i: usize) -> (r: u16)
    requires
        i + 1 < data@.len(),
    ensures
        r == word_at(data@, i as int),
{
    (data[i] as u16) + 0x100 * (data[i + 1] as u16)
}

impl Exe {
    /// Decodes an MZ executable from the bytes of the file.
    pub fn decode(data: &[u8]) -> (r: Result<Exe, DecodeError>)
        ensures
            decode_error(data@) is Some <==> r is Err,
            r matches Err(e) ==> decode_error(data@) == Some(e),
            r matches Ok(exe) ==> {
                &&& exe.hdr == header_of(data@)
                &&& exe.relocs@ == relocs_of(data@)
                &&& exe.rawdata@ == data@
                &&& exe.exe_start == header_of(data@).cparhdr * 16
                &&& exe.exe_end == image_end(header_of(data@))
            },
    {
        if data.len() < HEADER_SIZE {
            return Err(DecodeError::TooShort);
        }
        if data[0] != 0x4d || data[1] != 0x5a {
            return Err(DecodeError::BadMagic);
        }
        let hdr = Header {
            magic: [data[0], data[1]],
            cblp: read_word(data, 2),
            cp: read_word(data, 4),
            crlc: read_word(data, 6),
            cparhdr: read_word(data, 8),
            minalloc: read_word(data, 10),
            maxalloc: read_word(data, 12),
            ss: read_word(data, 14),
            sp: read_word(data, 16),
            csum: read_word(data, 18),
            ip: read_word(data, 20),
            cs: read_word(data, 22),
            lfarlc: read_word(data, 24),
            ovno: read_word(data, 26),
        };
        assert(hdr == header_of(data@));
        let table_start = hdr.lfarlc as usize;
        let count = hdr.crlc as usize;
        if table_start + 4 * count > data.len() {
            return Err(DecodeError::RelocsOutOfBounds);
        }
        let start = hdr.cparhdr as usize * 16;
        let end: usize = if hdr.cblp == 0 {
            hdr.cp as usize * 512
        } else if (hdr.cp as usize) * 512 + (hdr.cblp as usize) < 512 {
            return Err(DecodeError::ImageOutOfBounds);
        } else {
            hdr.cp as usize * 512 + hdr.cblp as usize - 512
        };
        if start > end || end > data.len() {
            return Err(DecodeError::ImageOutOfBounds);
        }
        let mut relocs: Vec<Reloc> = Vec::new();
        let mut i: usize = 0;
        while i < count
            invariant
                i <= count,
                count == hdr.crlc,
                table_start == hdr.lfarlc,
                hdr == header_of(data@),
                table_start + 4 * count <= data@.len(),
                relocs@ == relocs_of(data@).subrange(0, i as int),
            decreases count - i,
        {
            let at = table_start + 4 * i;
            let rel = Reloc { offset: read_word(data, at), segment: read_word(data, at + 2) };
            relocs.push(rel);
            i = i + 1;
            assert(relocs@ =~= relocs_of(data@).subrange(0, i as int));
        }
        assert(relocs@ =~= relocs_of(data@));
        let mut rawdata: Vec<u8> = Vec::new();
        let mut j: usize = 0;
        while j < data.len()
            invariant
                j <= data@.len(),
                rawdata@ == data@.subrange(0, j as int),
            decreases data@.len() - j,
        {
            rawdata.push(data[j]);
            j = j + 1;
            assert(rawdata@ =~= data@.subrange(0, j as int));
        }
        assert(rawdata@ =~= data@);
        Ok(Exe { hdr, exe_start: start, exe_end: end, relocs, rawdata })
    }
}

} // verus!
