use vstd::prelude::*;
use vstd::string::StringExecFns;
use crate::segoff::{Seg, SegOff};
use crate::mz::{decode_error, header_of, image_end, word_at};

verus! {

/// A byte-for-byte compared linear address range `[start, end)`.
#[derive(Clone, Copy, Debug, PartialEq, Eq, Structural)]
pub struct MemoryRange {
    pub start: usize,
    pub end: usize,
}

/// The memory a fixture compares at every boundary: ranges of absolute
/// linear addresses in conventional memory.
#[derive(Clone, Debug, PartialEq, Eq)]
pub struct MemoryWindow {
    pub ranges: Vec<MemoryRange>,
}

impl Default for MemoryWindow {
    fn default() -> (r: Self)
        ensures
            r.ranges@.len() == 0,
    {
        MemoryWindow { ranges: Vec::new() }
    }
}

impl MemoryWindow {
    /// Whether the window holds no range.
    pub fn is_empty(&self) -> (r: bool)
        ensures
            r == (self.ranges@.len() == 0),
    {
        self.ranges.len() == 0
    }
}

/// The segment:offset pair whose linear address is `abs`: segment
/// `abs / 16`, offset `abs % 16`, so that any two sides that slice memory
/// by linear address agree on the byte. `abs` lies below the 1 MiB wrap.
pub fn seg_off_from_abs(abs: usize) -> (r: SegOff)
    requires
        abs < 0x100000,
    ensures
        r.seg == Seg::Normal((abs / 16) as u16),
        r.off.0 == abs % 16,
        r.abs() == abs,
{
    SegOff::new((abs / 16) as u16, (abs % 16) as u16)
}

/// The paragraphs of the MZ header a fixture builds.
pub const HEADER_PARAGRAPHS: u16 = 2;

/// The bytes of that header.
pub const HEADER_SIZE: usize = 32;

/// The size of the file: header and code.
pub open spec fn total_size(code_len: nat) -> nat {
    HEADER_SIZE as nat + code_len
}

/// The 512-byte pages the file spans, the last one partial.
pub open spec fn page_count(code_len: nat) -> nat {
    ((total_size(code_len) + 511) / 512) as nat
}

/// The fourteen header words: signature, bytes in the last page, pages,
/// no relocations, a two-paragraph header, minimum and maximum
/// allocation, SS:SP = 0000:0200, no checksum, entry CS:IP = 0000:0000,
/// the relocation table offset and overlay zero.
pub open spec fn header_words(code_len: nat) -> Seq<u16> {
    seq![
        0x5A4Du16,
        (total_size(code_len) % 512) as u16,
        (page_count(code_len) % 0x10000) as u16,
        0u16,
        HEADER_PARAGRAPHS,
        0x0020u16,
        0xFFFFu16,
        0u16,
        0x0200u16,
        0u16,
        0u16,
        0u16,
        0x001Cu16,
        0u16,
    ]
}

/// Byte `i` of little-endian words.
pub open spec fn word_byte(words: Seq<u16>, i: int) -> u8 {
    if i % 2 == 0 {
        (words[i / 2] % 256) as u8
    } else {
        (words[i / 2] / 256) as u8
    }
}

/// Byte `i` of the MZ file of `code`: the header words, zeros to the end
/// of the header, the code, zeros to the end of the last page.
pub open spec fn mz_byte(code: Seq<u8>, i: int) -> u8 {
    if i < 28 {
        word_byte(header_words(code.len()), i)
    } else if i < HEADER_SIZE {
        0
    } else if i < HEADER_SIZE + code.len() {
        code[i - HEADER_SIZE]
    } else {
        0
    }
}

/// The MZ file of `code`, whole pages long.
pub open spec fn mz_image(code: Seq<u8>) -> Seq<u8> {
    Seq::new(page_count(code.len()) * 512, |i: int| mz_byte(code, i))
}

/// The length of the loaded image: the pages less the header.
pub open spec fn image_len(code_len: nat) -> nat {
    (page_count(code_len) * 512 - HEADER_SIZE) as nat
}

/// A real-mode program for the differential corpus: raw instruction bytes
/// loaded at the MZ entry CS:IP = 0000:0000, and the absolute scratch
/// ranges outside the image that the code writes and that are compared too.
#[derive(Clone, Debug)]
pub struct Fixture {
    /// A stable, file-name-safe name.
    pub name: String,
    pub code: Vec<u8>,
    pub scratch: Vec<MemoryRange>,
}

impl Fixture {
    /// A fixture with no scratch range.
    pub fn new(name: &str, code: Vec<u8>) -> (r: Self)
        ensures
            r.name@ == name@,
            r.code@ == code@,
            r.scratch@.len() == 0,
    {
        Fixture { name: String::from_str(name), code, scratch: Vec::new() }
    }

    /// The fixture with its scratch ranges replaced.
    pub fn with_scratch(self, ranges: Vec<MemoryRange>) -> (r: Self)
        ensures
            r.name == self.name,
            r.code == self.code,
            r.scratch@ == ranges@,
    {
        Fixture { name: self.name, code: self.code, scratch: ranges }
    }

    /// The length of the loaded image region: the MZ pages less the header
    /// paragraphs, as the loader counts it.
    pub fn image_length(&self) -> (r: usize)
        requires
            self.code@.len() <= usize::MAX - 1024,
        ensures
            r == image_len(self.code@.len()),
    {
        let total = HEADER_SIZE + self.code.len();
        let pages = (total + 511) / 512;
        assert(pages * 512 >= total) by (nonlinear_arith)
            requires
                pages == (total + 511) / 512,
        ;
        assert(pages * 512 <= total + 511) by (nonlinear_arith)
            requires
                pages == (total + 511) / 512,
        ;
        pages * 512 - HEADER_SIZE
    }

    /// The MZ file of the fixture: the header, the code at the entry point,
    /// padding to whole pages.
    pub fn build_mz(&self) -> (r: Vec<u8>)
        requires
            self.code@.len() <= usize::MAX - 1024,
        ensures
            r@ == mz_image(self.code@),
    {
        let n = self.code.len();
        let total = HEADER_SIZE + n;
        let pages = (total + 511) / 512;
        assert(pages * 512 >= total) by (nonlinear_arith)
            requires
                pages == (total + 511) / 512,
        ;
        assert(pages * 512 <= total + 511) by (nonlinear_arith)
            requires
                pages == (total + 511) / 512,
        ;
        let ghost code = self.code@;
        let words: [u16; 14] = [
            0x5A4D,
            (total % 512) as u16,
            (pages % 0x10000) as u16,
            0,
            HEADER_PARAGRAPHS,
            0x0020,
            0xFFFF,
            0x0000,
            0x0200,
            0x0000,
            0x0000,
            0x0000,
            0x001C,
            0x0000,
        ];
        assert(words@ =~= header_words(n as nat));
        let mut image: Vec<u8> = Vec::new();
        let mut k: usize = 0;
        while k < 14
            invariant
                k <= 14,
                words@ == header_words(code.len()),
                image@.len() == 2 * k,
                forall|i: int| 0 <= i < 2 * k ==> image@[i] == mz_byte(code, i),
            decreases 14 - k,
        {
            let w = words[k];
            image.push((w % 256) as u8);
            image.push((w / 256) as u8);
            k = k + 1;
        }
        while image.len() < HEADER_SIZE
            invariant
                28 <= image@.len() <= HEADER_SIZE,
                forall|i: int| 0 <= i < image@.len() ==> image@[i] == mz_byte(code, i),
            decreases HEADER_SIZE - image@.len(),
        {
            image.push(0);
        }
        let mut j: usize = 0;
        while j < n
            invariant
                j <= n,
                n == code.len(),
                self.code@ == code,
                image@.len() == HEADER_SIZE + j,
                forall|i: int| 0 <= i < image@.len() ==> image@[i] == mz_byte(code, i),
            decreases n - j,
        {
            image.push(self.code[j]);
            j = j + 1;
        }
        let size = pages * 512;
        while image.len() < size
            invariant
                HEADER_SIZE + n <= image@.len() <= size,
                size == pages * 512,
                n == code.len(),
                forall|i: int| 0 <= i < image@.len() ==> image@[i] == mz_byte(code, i),
            decreases size - image@.len(),
        {
            image.push(0);
        }
        assert(image@ =~= mz_image(code));
        image
    }

    /// The memory compared in a run whose code segment is `code_seg`: the
    /// loaded image region, then the scratch ranges.
    pub fn window(&self, code_seg: u16) -> (r: MemoryWindow)
        requires
            self.code@.len() <= usize::MAX - 1024,
            code_seg * 16 + image_len(self.code@.len()) <= usize::MAX,
        ensures
            r.ranges@ == seq![
                MemoryRange {
                    start: (code_seg * 16) as usize,
                    end: (code_seg * 16 + image_len(self.code@.len())) as usize,
                },
            ] + self.scratch@,
    {
        let start = code_seg as usize * 16;
        let end = start + self.image_length();
        let mut ranges: Vec<MemoryRange> = Vec::new();
        ranges.push(MemoryRange { start, end });
        let mut k: usize = 0;
        while k < self.scratch.len()
            invariant
                k <= self.scratch@.len(),
                ranges@ == seq![MemoryRange { start, end }] + self.scratch@.subrange(0, k as int),
            decreases self.scratch@.len() - k,
        {
            ranges.push(self.scratch[k]);
            k = k + 1;
            assert(ranges@ =~= seq![MemoryRange { start, end }] + self.scratch@.subrange(0, k as int));
        }
        assert(self.scratch@.subrange(0, self.scratch@.len() as int) =~= self.scratch@);
        MemoryWindow { ranges }
    }
}

/// A word is the little-endian pair of its bytes.
proof fn lemma_word_bytes(data: Seq<u8>, i: int, w: u16)
    requires
        0 <= i,
        i + 1 < data.len(),
        data[i] == (w % 256) as u8,
        data[i + 1] == (w / 256) as u8,
    ensures
        word_at(data, i) == w,
{
}

/// A fixture's MZ file is one the loader accepts: it decodes, its entry
/// point is CS:IP = 0000:0000 behind a two-paragraph header, the code
/// follows the header, and the image region the fixture compares runs
/// from the end of the header to the end of the last page.
pub proof fn lemma_mz_image_decodes(code: Seq<u8>)
    requires
        total_size(code.len()) <= 0xFFFF * 512,
    ensures
        decode_error(mz_image(code)) is None,
        header_of(mz_image(code)).cs == 0,
        header_of(mz_image(code)).ip == 0,
        header_of(mz_image(code)).cparhdr == HEADER_PARAGRAPHS,
        header_of(mz_image(code)).cp * 512 - header_of(mz_image(code)).cparhdr * 16 == image_len(code.len()),
        image_end(header_of(mz_image(code))) == total_size(code.len()),
        mz_image(code).subrange(HEADER_SIZE as int, HEADER_SIZE + code.len()) == code,
{
    let d = mz_image(code);
    let words = header_words(code.len());
    let n = code.len();
    assert(page_count(n) * 512 >= total_size(n));
    assert(page_count(n) >= 1);
    assert(d.len() >= 512);
    assert forall|k: int| 0 <= k < 14 implies word_at(d, 2 * k) == words[k] by {
        assert(d[2 * k] == word_byte(words, 2 * k));
        assert(d[2 * k + 1] == word_byte(words, 2 * k + 1));
        assert((2 * k + 1) / 2 == k);
        assert((2 * k) / 2 == k);
        lemma_word_bytes(d, 2 * k, words[k]);
    }
    assert(word_at(d, 2) == words[1]);
    assert(word_at(d, 4) == words[2]);
    assert(word_at(d, 6) == words[3]);
    assert(word_at(d, 8) == words[4]);
    assert(word_at(d, 20) == words[10]);
    assert(word_at(d, 22) == words[11]);
    assert(word_at(d, 24) == words[12]);
    assert(d[0] == 0x4d && d[1] == 0x5a);
    assert(page_count(n) < 0x10000);
    assert(d.subrange(HEADER_SIZE as int, HEADER_SIZE + n) =~= code);
}

} // verus!
