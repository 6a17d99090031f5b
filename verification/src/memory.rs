//! The byte-addressable memory space, partitioned into regions: ROM banks,
//! video and working RAM, I/O registers, and explicitly unmapped ranges.
//! Reads from unmapped or disabled regions return an absent value; writes to
//! read-only or unmapped regions are silently dropped. Bank switching is
//! represented by an active-bank index; the switching logic itself is
//! outside this model and the indices are pre-set state.

use vstd::prelude::*;
use crate::number_types::d8_type::d8;
use crate::number_types::d16_type::d16;
use crate::number_types::d16_type::word_add;
use crate::number_types::d16_type::word_of;
use crate::number_types::d16_type::lsb_of;
use crate::number_types::d16_type::msb_of;
use crate::number_types::a16_type::a16;

verus! {

/// The mathematical contents of a memory: one sequence per region, the
/// active bank indices, and the cartridge RAM if the cartridge has any.
#[verifier::ext_equal]
pub struct MemView {
    pub restart_and_int_vectors: Seq<u8>,
    pub cartridge_header: Seq<u8>,
    pub cart_rom_bank_0: Seq<u8>,
    pub other_cart_rom_banks: Seq<Seq<u8>>,
    pub active_rom_bank_index: int,
    pub character_ram: Seq<u8>,
    pub background_data_0: Seq<u8>,
    pub background_data_1: Seq<u8>,
    pub cart_ram: Option<Seq<u8>>,
    pub internal_ram_bank_0: Seq<u8>,
    pub other_internal_ram_banks: Seq<Seq<u8>>,
    pub active_ram_bank_index: int,
    pub object_attribute_memory: Seq<u8>,
    pub hardware_io_regs: Seq<u8>,
    pub enable_interrupt_flag: u8,
}

/// Every region has its fixed size and each active-bank index names an
/// existing bank.
pub open spec fn mem_wf(m: MemView) -> bool {
    &&& m.restart_and_int_vectors.len() == 0x100
    &&& m.cartridge_header.len() == 0x50
    &&& m.cart_rom_bank_0.len() == 0x3eb0
    &&& m.other_cart_rom_banks.len() > 0
    &&& 0 <= m.active_rom_bank_index < m.other_cart_rom_banks.len()
    &&& forall|i: int|
        0 <= i < m.other_cart_rom_banks.len() ==> (#[trigger] m.other_cart_rom_banks[i]).len()
            == 0x4000
    &&& m.character_ram.len() == 0x1800
    &&& m.background_data_0.len() == 0x400
    &&& m.background_data_1.len() == 0x400
    &&& m.cart_ram is Some ==> m.cart_ram.unwrap().len() == 0x2000
    &&& m.internal_ram_bank_0.len() == 0x1000
    &&& m.other_internal_ram_banks.len() > 0
    &&& 0 <= m.active_ram_bank_index < m.other_internal_ram_banks.len()
    &&& forall|i: int|
        0 <= i < m.other_internal_ram_banks.len() ==> (#[trigger] m.other_internal_ram_banks[i]).len()
            == 0x1000
    &&& m.object_attribute_memory.len() == 0xa0
    &&& m.hardware_io_regs.len() == 0x80
}

/// What a one-byte read returns at each address: the byte of the region the
/// address falls in, or `None` where the region is unmapped or absent. The
/// zero page reads as constant zero in this model.
#[verifier::opaque]
pub open spec fn spec_read(m: MemView, a: u16) -> Option<u8> {
    if a < 0x0100 {
        Some(m.restart_and_int_vectors[a as int])
    } else if a < 0x0150 {
        Some(m.cartridge_header[a - 0x0100])
    } else if a < 0x4000 {
        Some(m.cart_rom_bank_0[a - 0x0150])
    } else if a < 0x8000 {
        Some(m.other_cart_rom_banks[m.active_rom_bank_index][a - 0x4000])
    } else if a < 0x9800 {
        Some(m.character_ram[a - 0x8000])
    } else if a < 0x9c00 {
        Some(m.background_data_0[a - 0x9800])
    } else if a < 0xa000 {
        Some(m.background_data_1[a - 0x9c00])
    } else if a < 0xc000 {
        match m.cart_ram {
            Some(ram) => Some(ram[a - 0xa000]),
            None => None,
        }
    } else if a < 0xd000 {
        Some(m.internal_ram_bank_0[a - 0xc000])
    } else if a < 0xe000 {
        Some(m.other_internal_ram_banks[m.active_ram_bank_index][a - 0xd000])
    } else if a < 0xfe00 {
        None
    } else if a < 0xfea0 {
        Some(m.object_attribute_memory[a - 0xfe00])
    } else if a < 0xff00 {
        None
    } else if a < 0xff80 {
        Some(m.hardware_io_regs[a - 0xff00])
    } else if a < 0xffff {
        Some(0)
    } else {
        Some(m.enable_interrupt_flag)
    }
}

/// A read that substitutes zero for an absent byte: the recovery the
/// engine applies to every memory read.
pub open spec fn read0(m: MemView, a: u16) -> u8 {
    match spec_read(m, a) {
        Some(v) => v,
        None => 0,
    }
}

/// Whether a one-byte write to the address lands: ROM, unmapped ranges and
/// the zero page reject writes; cartridge RAM accepts them only when the
/// cartridge has RAM.
pub open spec fn spec_writable(m: MemView, a: u16) -> bool {
    if a < 0x0100 {
        true
    } else if a < 0x8000 {
        false
    } else if a < 0xa000 {
        true
    } else if a < 0xc000 {
        m.cart_ram is Some
    } else if a < 0xe000 {
        true
    } else if a < 0xfe00 {
        false
    } else if a < 0xfea0 {
        true
    } else if a < 0xff00 {
        false
    } else if a < 0xff80 {
        true
    } else if a < 0xffff {
        false
    } else {
        true
    }
}

/// The memory after a one-byte write: the addressed cell holds the new
/// value where the address is writable, and nothing else changes; a write
/// to a read-only or unmapped address changes nothing at all.
#[verifier::opaque]
pub open spec fn spec_put(m: MemView, a: u16, v: u8) -> MemView {
    if a < 0x0100 {
        MemView { restart_and_int_vectors: m.restart_and_int_vectors.update(a as int, v), ..m }
    } else if a < 0x8000 {
        m
    } else if a < 0x9800 {
        MemView { character_ram: m.character_ram.update(a - 0x8000, v), ..m }
    } else if a < 0x9c00 {
        MemView { background_data_0: m.background_data_0.update(a - 0x9800, v), ..m }
    } else if a < 0xa000 {
        MemView { background_data_1: m.background_data_1.update(a - 0x9c00, v), ..m }
    } else if a < 0xc000 {
        match m.cart_ram {
            Some(ram) => MemView { cart_ram: Some(ram.update(a - 0xa000, v)), ..m },
            None => m,
        }
    } else if a < 0xd000 {
        MemView { internal_ram_bank_0: m.internal_ram_bank_0.update(a - 0xc000, v), ..m }
    } else if a < 0xe000 {
        MemView {
            other_internal_ram_banks: m.other_internal_ram_banks.update(
                m.active_ram_bank_index,
                m.other_internal_ram_banks[m.active_ram_bank_index].update(a - 0xd000, v),
            ),
            ..m
        }
    } else if a < 0xfe00 {
        m
    } else if a < 0xfea0 {
        MemView { object_attribute_memory: m.object_attribute_memory.update(a - 0xfe00, v), ..m }
    } else if a < 0xff00 {
        m
    } else if a < 0xff80 {
        MemView { hardware_io_regs: m.hardware_io_regs.update(a - 0xff00, v), ..m }
    } else if a < 0xffff {
        m
    } else {
        MemView { enable_interrupt_flag: v, ..m }
    }
}

/// An all-zero sequence of the given length.
pub open spec fn zero_seq(n: nat) -> Seq<u8> {
    Seq::new(n, |i: int| 0u8)
}

/// A fresh memory: every mapped byte zero, one ROM bank and one working
/// RAM bank besides the fixed ones, and no cartridge RAM.
pub open spec fn mem_init() -> MemView {
    MemView {
        restart_and_int_vectors: zero_seq(0x100),
        cartridge_header: zero_seq(0x50),
        cart_rom_bank_0: zero_seq(0x3eb0),
        other_cart_rom_banks: seq![zero_seq(0x4000)],
        active_rom_bank_index: 0,
        character_ram: zero_seq(0x1800),
        background_data_0: zero_seq(0x400),
        background_data_1: zero_seq(0x400),
        cart_ram: None,
        internal_ram_bank_0: zero_seq(0x1000),
        other_internal_ram_banks: seq![zero_seq(0x1000)],
        active_ram_bank_index: 0,
        object_attribute_memory: zero_seq(0xa0),
        hardware_io_regs: zero_seq(0x80),
        enable_interrupt_flag: 0,
    }
}

/// A partitioned, fixed-size address space. The cartridge RAM vector is
/// meaningful only while `cart_ram_present` holds; a memory without
/// cartridge RAM rejects reads and drops writes in that range.
pub struct Memory {
    pub restart_and_int_vectors: Vec<u8>,
    pub cartridge_header: Vec<u8>,
    pub cart_rom_bank_0: Vec<u8>,
    pub other_cart_rom_banks: Vec<Vec<u8>>,
    pub active_rom_bank_index: usize,
    pub character_ram: Vec<u8>,
    pub background_data_0: Vec<u8>,
    pub background_data_1: Vec<u8>,
    pub cart_ram_present: bool,
    pub cart_ram: Vec<u8>,
    pub internal_ram_bank_0: Vec<u8>,
    pub other_internal_ram_banks: Vec<Vec<u8>>,
    pub active_ram_bank_index: usize,
    pub object_attribute_memory: Vec<u8>,
    pub hardware_io_regs: Vec<u8>,
    pub enable_interrupt_flag: u8,
}

impl View for Memory {
    type V = MemView;

    open spec fn view(&self) -> MemView {
        MemView {
            restart_and_int_vectors: self.restart_and_int_vectors@,
            cartridge_header: self.cartridge_header@,
            cart_rom_bank_0: self.cart_rom_bank_0@,
            other_cart_rom_banks: Seq::new(
                self.other_cart_rom_banks@.len(),
                |i: int| self.other_cart_rom_banks@[i]@,
            ),
            active_rom_bank_index: self.active_rom_bank_index as int,
            character_ram: self.character_ram@,
            background_data_0: self.background_data_0@,
            background_data_1: self.background_data_1@,
            cart_ram: if self.cart_ram_present {
                Some(self.cart_ram@)
            } else {
                None
            },
            internal_ram_bank_0: self.internal_ram_bank_0@,
            other_internal_ram_banks: Seq::new(
                self.other_internal_ram_banks@.len(),
                |i: int| self.other_internal_ram_banks@[i]@,
            ),
            active_ram_bank_index: self.active_ram_bank_index as int,
            object_attribute_memory: self.object_attribute_memory@,
            hardware_io_regs: self.hardware_io_regs@,
            enable_interrupt_flag: self.enable_interrupt_flag,
        }
    }
}

impl Memory {
    /// Well-formedness of the backing store, stated over the view.
    pub open spec fn wf(self) -> bool {
        mem_wf(self@)
    }

    /// A fresh memory with every mapped byte zero.
    pub fn new_zeros() -> (r: Memory)
        ensures
            r@ == mem_init(),
            r.wf(),
    {
        let mut rom_banks: Vec<Vec<u8>> = Vec::new();
        rom_banks.push(zero_vec(0x4000));
        let mut ram_banks: Vec<Vec<u8>> = Vec::new();
        ram_banks.push(zero_vec(0x1000));
        let m = Memory {
            restart_and_int_vectors: zero_vec(0x100),
            cartridge_header: zero_vec(0x50),
            cart_rom_bank_0: zero_vec(0x3eb0),
            other_cart_rom_banks: rom_banks,
            active_rom_bank_index: 0,
            character_ram: zero_vec(0x1800),
            background_data_0: zero_vec(0x400),
            background_data_1: zero_vec(0x400),
            cart_ram_present: false,
            cart_ram: Vec::new(),
            internal_ram_bank_0: zero_vec(0x1000),
            other_internal_ram_banks: ram_banks,
            active_ram_bank_index: 0,
            object_attribute_memory: zero_vec(0xa0),
            hardware_io_regs: zero_vec(0x80),
            enable_interrupt_flag: 0,
        };
        proof {
            assert(m@.other_cart_rom_banks =~= seq![zero_seq(0x4000)]);
            assert(m@.other_internal_ram_banks =~= seq![zero_seq(0x1000)]);
            assert(m@ =~= mem_init());
        }
        m
    }

    /// Reads one byte, or reports it absent where the address falls in an
    /// unmapped or disabled region.
    pub fn read_d8(&self, idx: a16) -> (r: Option<d8>)
        requires
            self.wf(),
        ensures
            match r {
                Some(v) => spec_read(self@, idx.0) == Some(v.0),
                None => spec_read(self@, idx.0) is None,
            },
    {
        proof {
            reveal(spec_read);
        }
        let a = idx.0;
        if a < 0x0100 {
            Some(d8(self.restart_and_int_vectors[a as usize]))
        } else if a < 0x0150 {
            Some(d8(self.cartridge_header[(a - 0x0100) as usize]))
        } else if a < 0x4000 {
            Some(d8(self.cart_rom_bank_0[(a - 0x0150) as usize]))
        } else if a < 0x8000 {
            let bank = self.active_rom_bank_index;
            Some(d8(self.other_cart_rom_banks[bank][(a - 0x4000) as usize]))
        } else if a < 0x9800 {
            Some(d8(self.character_ram[(a - 0x8000) as usize]))
        } else if a < 0x9c00 {
            Some(d8(self.background_data_0[(a - 0x9800) as usize]))
        } else if a < 0xa000 {
            Some(d8(self.background_data_1[(a - 0x9c00) as usize]))
        } else if a < 0xc000 {
            if self.cart_ram_present {
                Some(d8(self.cart_ram[(a - 0xa000) as usize]))
            } else {
                None
            }
        } else if a < 0xd000 {
            Some(d8(self.internal_ram_bank_0[(a - 0xc000) as usize]))
        } else if a < 0xe000 {
            let bank = self.active_ram_bank_index;
            Some(d8(self.other_internal_ram_banks[bank][(a - 0xd000) as usize]))
        } else if a < 0xfe00 {
            None
        } else if a < 0xfea0 {
            Some(d8(self.object_attribute_memory[(a - 0xfe00) as usize]))
        } else if a < 0xff00 {
            None
        } else if a < 0xff80 {
            Some(d8(self.hardware_io_regs[(a - 0xff00) as usize]))
        } else if a < 0xffff {
            Some(d8(0))
        } else {
            Some(d8(self.enable_interrupt_flag))
        }
    }

    /// Writes one byte. The result reports whether the write landed; a
    /// write to a read-only or unmapped region is dropped and nothing in
    /// the memory changes.
    pub fn put_d8(&mut self, idx: a16, val: d8) -> (r: Option<()>)
        requires
            old(self).wf(),
        ensures
            final(self).wf(),
            r is Some <==> spec_writable(old(self)@, idx.0),
            final(self)@ == spec_put(old(self)@, idx.0, val.0),
    {
        proof {
            reveal(spec_put);
        }
        let a = idx.0;
        if a < 0x0100 {
            self.restart_and_int_vectors[a as usize] = val.0;
            Some(())
        } else if a < 0x8000 {
            None
        } else if a < 0x9800 {
            self.character_ram[(a - 0x8000) as usize] = val.0;
            Some(())
        } else if a < 0x9c00 {
            self.background_data_0[(a - 0x9800) as usize] = val.0;
            Some(())
        } else if a < 0xa000 {
            self.background_data_1[(a - 0x9c00) as usize] = val.0;
            Some(())
        } else if a < 0xc000 {
            if self.cart_ram_present {
                self.cart_ram[(a - 0xa000) as usize] = val.0;
                Some(())
            } else {
                None
            }
        } else if a < 0xd000 {
            self.internal_ram_bank_0[(a - 0xc000) as usize] = val.0;
            Some(())
        } else if a < 0xe000 {
            let bank = self.active_ram_bank_index;
            self.other_internal_ram_banks[bank][(a - 0xd000) as usize] = val.0;
            proof {
                let ov = old(self)@.other_internal_ram_banks;
                assert(self@.other_internal_ram_banks =~= ov.update(
                    old(self)@.active_ram_bank_index,
                    ov[old(self)@.active_ram_bank_index].update(a - 0xd000, val.0),
                ));
            }
            Some(())
        } else if a < 0xfe00 {
            None
        } else if a < 0xfea0 {
            self.object_attribute_memory[(a - 0xfe00) as usize] = val.0;
            Some(())
        } else if a < 0xff00 {
            None
        } else if a < 0xff80 {
            self.hardware_io_regs[(a - 0xff00) as usize] = val.0;
            Some(())
        } else if a < 0xffff {
            None
        } else {
            self.enable_interrupt_flag = val.0;
            Some(())
        }
    }

    /// Reads a word: the low byte at the address, the high byte one past
    /// it. A half that is absent reads as zero, so the word read as a whole
    /// always succeeds.
    pub fn read_d16(&self, idx: a16) -> (r: Option<d16>)
        requires
            self.wf(),
        ensures
            r == Some(d16(word_of(read0(self@, idx.0), read0(self@, word_add(idx.0, 1))))),
    {
        let lo = match self.read_d8(idx) {
            Some(v) => v,
            None => d8(0),
        };
        let hi = match self.read_d8(idx.offset(1)) {
            Some(v) => v,
            None => d8(0),
        };
        Some(d16::from_bytes(lo, hi))
    }

    /// Writes a word: the low byte at the address, the high byte one past
    /// it. Each half lands or is dropped by its own region's rule, and the
    /// word write reports failure if either half was dropped.
    pub fn put_d16(&mut self, idx: a16, val: d16) -> (r: Option<()>)
        requires
            old(self).wf(),
        ensures
            final(self).wf(),
            final(self)@ == spec_put(
                spec_put(old(self)@, idx.0, lsb_of(val.0)),
                word_add(idx.0, 1),
                msb_of(val.0),
            ),
            r is Some <==> spec_writable(old(self)@, idx.0) && spec_writable(
                old(self)@,
                word_add(idx.0, 1),
            ),
    {
        let lo = self.put_d8(idx, val.lsb());
        let hi = self.put_d8(idx.offset(1), val.msb());
        proof {
            reveal(spec_put);
            assert(spec_writable(old(self)@, word_add(idx.0, 1)) == spec_writable(
                spec_put(old(self)@, idx.0, lsb_of(val.0)),
                word_add(idx.0, 1),
            ));
        }
        if lo.is_some() && hi.is_some() {
            Some(())
        } else {
            None
        }
    }
}

/// An all-zero byte vector of the given length.
fn zero_vec(n: usize) -> (r: Vec<u8>)
    ensures
        r@ == zero_seq(n as nat),
{
    let mut v: Vec<u8> = Vec::new();
    let mut i: usize = 0;
    while i < n
        invariant
            i <= n,
            v@.len() == i,
            forall|k: int| 0 <= k < i ==> v@[k] == 0u8,
        decreases n - i,
    {
        v.push(0);
        i = i + 1;
    }
    proof {
        assert(v@ =~= zero_seq(n as nat));
    }
    v
}

} // verus!
