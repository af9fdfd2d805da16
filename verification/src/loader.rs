use vstd::prelude::*;
use crate::cpu::{CS, IP, SS, SP, DS, ES, FLAGS};
use crate::machine::Machine;
use crate::mem::{MEM_SIZE, spec_read_u16, spec_write_u8, spec_write_u16};
use crate::mz::{Exe, Reloc};
use crate::segoff::{Seg, SegOff};

verus! {

/// The top-of-memory paragraph recorded in the program segment prefix.
pub const MEM_TOP: u16 = 0x9fff;

/// The environment segment recorded in the program segment prefix.
pub const ENV_SEG: u16 = 0x0803;

/// The program's FLAGS at entry: only IF set.
pub const INITIAL_FLAGS: u16 = 0x0200;

/// The segment the image is loaded at: the paragraph after the 256-byte
/// program segment prefix.
pub open spec fn code_seg_of(psp: u16) -> int {
    psp + 0x10
}

/// The start of the load image within the file.
pub open spec fn image_start(exe: &Exe) -> int {
    exe.hdr.cparhdr * 16
}

/// The end of the load image within the file: whole 512-byte pages.
pub open spec fn image_stop(exe: &Exe) -> int {
    exe.hdr.cp * 512
}

/// The address a relocation patches.
pub open spec fn reloc_addr(code_seg: u16, r: Reloc) -> SegOff {
    SegOff { seg: Seg::Normal((code_seg + r.segment) as u16), off: crate::segoff::Off(r.offset) }
}

/// Whether the executable can be loaded behind a PSP at `psp`: the load
/// segment and the segments the header and relocations name stay within 16
/// bits, and the image lies within the file and within memory.
pub open spec fn loadable(psp: u16, exe: &Exe) -> bool {
    let cs = code_seg_of(psp);
    &&& cs <= 0xffff
    &&& image_start(exe) <= image_stop(exe) <= exe.rawdata.len()
    &&& cs * 16 + (image_stop(exe) - image_start(exe)) <= MEM_SIZE
    &&& cs + exe.hdr.cs <= 0xffff
    &&& cs + exe.hdr.ss <= 0xffff
    &&& forall|i: int| 0 <= i < exe.relocs.len() ==> cs + #[trigger] exe.relocs@[i].segment <= 0xffff
}

/// Tests whether `exe` can be loaded behind a PSP at `psp`.
pub fn is_loadable(psp: u16, exe: &Exe) -> (r: bool)
    ensures
        r == loadable(psp, exe),
{
    let cs = psp as u64 + 0x10;
    if cs > 0xffff {
        return false;
    }
    let start = exe.hdr.cparhdr as u64 * 16;
    let stop = exe.hdr.cp as u64 * 512;
    if !(start <= stop && stop <= exe.rawdata.len() as u64) {
        return false;
    }
    if cs * 16 + (stop - start) > MEM_SIZE as u64 {
        return false;
    }
    if cs + exe.hdr.cs as u64 > 0xffff || cs + exe.hdr.ss as u64 > 0xffff {
        return false;
    }
    let mut i: usize = 0;
    while i < exe.relocs.len()
        invariant
            i <= exe.relocs.len(),
            cs == psp + 0x10,
            forall|j: int| 0 <= j < i ==> cs + #[trigger] exe.relocs@[j].segment <= 0xffff,
        decreases exe.relocs.len() - i,
    {
        if cs + exe.relocs[i].segment as u64 > 0xffff {
            return false;
        }
        i = i + 1;
    }
    true
}

/// Memory with the PSP fields the loader fills in: the top of memory, the
/// environment segment and an empty command tail.
pub open spec fn psp_written(mem: Seq<u8>, psp: u16) -> Seq<u8> {
    let m1 = spec_write_u16(mem, SegOff { seg: Seg::Normal(psp), off: crate::segoff::Off(0x02) }, MEM_TOP);
    let m2 = spec_write_u16(m1, SegOff { seg: Seg::Normal(psp), off: crate::segoff::Off(0x2c) }, ENV_SEG);
    spec_write_u8(m2, SegOff { seg: Seg::Normal(psp), off: crate::segoff::Off(0x81) }, 0x0d)
}

/// Memory with `image` copied to linear address `start`.
pub open spec fn image_copied(mem: Seq<u8>, start: int, image: Seq<u8>) -> Seq<u8> {
    mem.subrange(0, start) + image + mem.subrange(start + image.len(), mem.len() as int)
}

/// Memory after applying the first `n` relocations in order: each adds the
/// load segment to the word it names.
pub open spec fn relocated(mem: Seq<u8>, code_seg: u16, relocs: Seq<Reloc>, n: nat) -> Seq<u8>
    decreases n,
{
    if n == 0 {
        mem
    } else {
        let prev = relocated(mem, code_seg, relocs, (n - 1) as nat);
        let addr = reloc_addr(code_seg, relocs[n - 1]);
        spec_write_u16(prev, addr, ((code_seg + spec_read_u16(prev, addr)) % 0x10000) as u16)
    }
}

/// The memory image after loading `exe` behind a PSP at `psp`.
pub open spec fn loaded_mem(mem: Seq<u8>, psp: u16, exe: &Exe) -> Seq<u8> {
    let cs = code_seg_of(psp) as u16;
    let image = exe.rawdata@.subrange(image_start(exe), image_stop(exe));
    relocated(image_copied(psp_written(mem, psp), cs * 16, image), cs, exe.relocs@, exe.relocs.len() as nat)
}

/// The registers after loading: CS:IP and SS:SP from the header rebased to
/// the load segment, DS and ES at the PSP, FLAGS with only IF set.
pub open spec fn loaded_regs(regs: Seq<u16>, psp: u16, exe: &Exe) -> Seq<u16> {
    let cs = code_seg_of(psp);
    regs.update(CS as int, (cs + exe.hdr.cs) as u16).update(IP as int, exe.hdr.ip).update(
        SS as int,
        (cs + exe.hdr.ss) as u16,
    ).update(SP as int, exe.hdr.sp).update(DS as int, psp).update(ES as int, psp).update(
        FLAGS as int,
        INITIAL_FLAGS,
    )
}

impl Machine {
    /// The segment the program image is loaded at.
    pub fn code_load_seg(&self) -> (r: Seg)
        requires
            self.psp_segment <= 0xffef,
        ensures
            r == Seg::Normal(code_seg_of(self.psp_segment) as u16),
    {
        Seg::Normal(self.psp_segment + 0x10)
    }

    /// Loads an MZ executable: fills in the PSP, copies the image behind
    /// it, applies the relocations and sets up the registers.
    pub fn load_exe(&mut self, exe: &Exe) -> (r: Result<(), String>)
        requires
            old(self).wf(),
            loadable(old(self).psp_segment, exe),
        ensures
            r is Ok,
            final(self).wf(),
            final(self).mem.0@ == loaded_mem(old(self).mem.0@, old(self).psp_segment, exe),
            final(self).regs() == loaded_regs(old(self).regs(), old(self).psp_segment, exe),
            final(self).psp_segment == old(self).psp_segment,
            final(self).interrupt_vectors == old(self).interrupt_vectors,
            final(self).halted == old(self).halted,
            final(self).exec_count == old(self).exec_count,
    {
        let code_seg = self.code_load_seg();
        let code_seg_u16 = code_seg.unwrap_normal();
        let psp = self.psp_segment;
        let ghost mem0 = self.mem.0@;
        assert(self.interrupt_vectors.len() == 256);

        // Configure the PSP.
        self.mem.write_u16(SegOff::new(psp, 0x02), MEM_TOP);
        self.mem.write_u16(SegOff::new(psp, 0x2c), ENV_SEG);
        self.mem.write_u8(SegOff::new(psp, 0x81), 0x0d);
        let ghost mem1 = self.mem.0@;
        assert(mem1 == psp_written(mem0, psp));

        // Copy the image.
        let image_start = exe.hdr.cparhdr as usize * 16;
        let image_end = exe.hdr.cp as usize * 512;
        let image_length = image_end - image_start;
        let mem_start = code_seg.abs_normal();
        let ghost image = exe.rawdata@.subrange(image_start as int, image_end as int);
        let mut i: usize = 0;
        while i < image_length
            invariant
                i <= image_length,
                image_length == image_end - image_start,
                image_end <= exe.rawdata@.len(),
                mem_start + image_length <= MEM_SIZE,
                image == exe.rawdata@.subrange(image_start as int, image_end as int),
                self.mem.0@.len() == MEM_SIZE,
                mem1.len() == MEM_SIZE,
                self.cpu == old(self).cpu,
                self.interrupt_vectors == old(self).interrupt_vectors,
                self.halted == old(self).halted,
                self.exec_count == old(self).exec_count,
                self.psp_segment == old(self).psp_segment,
                forall|j: int|
                    0 <= j < MEM_SIZE ==> #[trigger] self.mem.0@[j] == if mem_start <= j < mem_start + i {
                        image[j - mem_start]
                    } else {
                        mem1[j]
                    },
            decreases image_length - i,
        {
            let b = exe.rawdata[image_start + i];
            self.mem.0.set(mem_start + i, b);
            i = i + 1;
        }
        let ghost mem2 = self.mem.0@;
        assert(mem2 =~= image_copied(mem1, mem_start as int, image));

        // Perform relocations.
        let mut k: usize = 0;
        while k < exe.relocs.len()
            invariant
                k <= exe.relocs.len(),
                self.mem.wf(),
                code_seg_u16 == code_seg_of(psp),
                self.cpu == old(self).cpu,
                self.interrupt_vectors == old(self).interrupt_vectors,
                self.halted == old(self).halted,
                self.exec_count == old(self).exec_count,
                self.psp_segment == old(self).psp_segment,
                forall|j: int|
                    0 <= j < exe.relocs.len() ==> code_seg_of(psp) + #[trigger] exe.relocs@[j].segment
                        <= 0xffff,
                self.mem.0@ == relocated(mem2, code_seg_u16, exe.relocs@, k as nat),
            decreases exe.relocs.len() - k,
        {
            let reloc = exe.relocs[k];
            let addr = SegOff::new(code_seg_u16 + reloc.segment, reloc.offset);
            let val = self.mem.read_u16(addr);
            self.mem.write_u16(addr, code_seg_u16.wrapping_add(val));
            k = k + 1;
        }

        // Set up CS:IP and SS:SP, point DS and ES at the PSP, set IF.
        self.reg_set(CS, code_seg_u16 + exe.hdr.cs);
        self.reg_set(IP, exe.hdr.ip);
        self.reg_set(SS, code_seg_u16 + exe.hdr.ss);
        self.reg_set(SP, exe.hdr.sp);
        self.reg_set(DS, psp);
        self.reg_set(ES, psp);
        self.reg_set(FLAGS, INITIAL_FLAGS);
        Ok(())
    }
}

} // verus!
