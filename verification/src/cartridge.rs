//! Cartridge loading and MBC (memory bank controller) emulation.
//! Supports ROM-only, MBC1, MBC3 (incl. battery RAM), and MBC5.
use vstd::prelude::*;
use crate::text::push_char;

verus! {

#[derive(Debug, Clone, Copy, PartialEq, Eq, Structural)]
pub enum MbcKind {
    RomOnly,
    Mbc1,
    Mbc3,
    Mbc5,
}

#[derive(Debug, Clone, Copy, PartialEq, Eq, Structural)]
pub enum CartError {
    TooSmall,
    UnsupportedMbc(u8),
}

pub struct Cartridge {
    pub rom: Vec<u8>,
    pub ram: Vec<u8>,
    pub kind: MbcKind,
    pub title: String,
    /// Selected ROM bank for 0x4000-0x7FFF.
    pub rom_bank: usize,
    /// Selected RAM bank (MBC1: also the upper ROM bank bits).
    pub ram_bank: usize,
    pub ram_enabled: bool,
    /// MBC1 banking mode.
    pub banking_mode: u8,
    /// Set whenever cartridge RAM is written; the host clears it after
    /// persisting the RAM to a save file.
    pub ram_dirty: bool,
}

pub ghost struct CartView {
    pub rom: Seq<u8>,
    pub ram: Seq<u8>,
    pub kind: MbcKind,
    pub title: Seq<char>,
    pub rom_bank: usize,
    pub ram_bank: usize,
    pub ram_enabled: bool,
    pub banking_mode: u8,
    pub ram_dirty: bool,
}

impl View for Cartridge {
    type V = CartView;

    open spec fn view(&self) -> CartView {
        CartView {
            rom: self.rom@,
            ram: self.ram@,
            kind: self.kind,
            title: self.title@,
            rom_bank: self.rom_bank,
            ram_bank: self.ram_bank,
            ram_enabled: self.ram_enabled,
            banking_mode: self.banking_mode,
            ram_dirty: self.ram_dirty,
        }
    }
}

/// The controller named by the cartridge-type header byte (0x147).
pub open spec fn kind_of(t: u8) -> Option<MbcKind> {
    if t == 0x00 || t == 0x08 || t == 0x09 {
        Some(MbcKind::RomOnly)
    } else if 0x01 <= t <= 0x03 {
        Some(MbcKind::Mbc1)
    } else if 0x0F <= t <= 0x13 {
        Some(MbcKind::Mbc3)
    } else if 0x19 <= t <= 0x1E {
        Some(MbcKind::Mbc5)
    } else {
        None
    }
}

/// Cartridge RAM size for the RAM-size header byte (0x149).
pub open spec fn ram_size_of(code: u8) -> nat {
    if code == 0x02 {
        0x2000
    } else if code == 0x03 {
        0x8000
    } else if code == 0x04 {
        0x20000
    } else if code == 0x05 {
        0x10000
    } else {
        0
    }
}

/// How a title byte is shown: printable ASCII as itself, anything else '?'.
pub open spec fn title_char(b: u8) -> char {
    if 0x20 <= b <= 0x7E {
        b as char
    } else {
        '?'
    }
}

/// Length of the title: up to the first zero byte of the 16-byte title
/// field at 0x134.
pub open spec fn title_len(rom: Seq<u8>, i: int) -> int
    decreases 16 - i,
{
    if i >= 16 || rom[0x134 + i] == 0 {
        i
    } else {
        title_len(rom, i + 1)
    }
}

pub open spec fn title_spec(rom: Seq<u8>) -> Seq<char> {
    Seq::new(title_len(rom, 0) as nat, |i: int| title_char(rom[0x134 + i]))
}

/// The byte at `i`, or 0xFF past the end (open bus).
pub open spec fn byte_or_ff(s: Seq<u8>, i: int) -> u8 {
    if 0 <= i < s.len() {
        s[i]
    } else {
        0xFF
    }
}

/// Whether the cartridge-type byte names a battery-backed cartridge.
pub open spec fn battery_type(t: u8) -> bool {
    t == 0x03 || t == 0x09 || t == 0x0F || t == 0x10 || t == 0x13 || t == 0x1B || t == 0x1E
}

impl CartView {
    pub open spec fn wf(self) -> bool {
        &&& self.rom.len() >= 0x150
        &&& self.banks_ok()
    }

    /// The bank registers are within what the controllers can select.
    pub open spec fn banks_ok(self) -> bool {
        &&& self.rom_bank < 512
        &&& self.ram_bank < 16
        &&& self.banking_mode < 2
        &&& (self.kind == MbcKind::Mbc1 ==> self.rom_bank < 32)
    }

    pub open spec fn bank_count(self) -> int {
        if self.rom.len() / 0x4000 >= 1 {
            (self.rom.len() / 0x4000) as int
        } else {
            1
        }
    }

    /// The ROM bank mapped at 0x0000-0x3FFF.
    pub open spec fn low_bank(self) -> int {
        if self.kind == MbcKind::Mbc1 && self.banking_mode == 1 {
            (self.ram_bank * 32) as int % self.bank_count()
        } else {
            0
        }
    }

    /// The ROM bank mapped at 0x4000-0x7FFF.
    pub open spec fn high_bank(self) -> int {
        if self.kind == MbcKind::Mbc1 {
            (self.ram_bank * 32 + self.rom_bank) as int % self.bank_count()
        } else {
            self.rom_bank as int % self.bank_count()
        }
    }

    pub open spec fn read_spec(self, addr: u16) -> u8 {
        if addr <= 0x3FFF {
            byte_or_ff(self.rom, self.low_bank() * 0x4000 + addr)
        } else if addr <= 0x7FFF {
            byte_or_ff(self.rom, self.high_bank() * 0x4000 + (addr - 0x4000))
        } else if 0xA000 <= addr <= 0xBFFF {
            if !self.ram_enabled || self.ram.len() == 0 {
                0xFF
            } else {
                byte_or_ff(self.ram, self.ram_bank * 0x2000 + (addr - 0xA000))
            }
        } else {
            0xFF
        }
    }

    /// A write to the banked RAM window through an MBC.
    pub open spec fn write_ram_spec(self, addr: u16, val: u8) -> CartView {
        let idx = self.ram_bank * 0x2000 + (addr - 0xA000);
        if !self.ram_enabled || self.ram.len() == 0 || idx >= self.ram.len() {
            self
        } else {
            CartView { ram: self.ram.update(idx, val), ram_dirty: true, ..self }
        }
    }

    pub open spec fn write_spec(self, addr: u16, val: u8) -> CartView {
        match self.kind {
            MbcKind::RomOnly => {
                if 0xA000 <= addr <= 0xBFFF && self.ram.len() != 0 {
                    CartView {
                        ram: self.ram.update((addr - 0xA000) % (self.ram.len() as int), val),
                        ram_dirty: true,
                        ..self
                    }
                } else {
                    self
                }
            },
            MbcKind::Mbc1 => {
                if addr <= 0x1FFF {
                    CartView { ram_enabled: val & 0x0F == 0x0A, ..self }
                } else if addr <= 0x3FFF {
                    let v = (val & 0x1F) as usize;
                    CartView { rom_bank: if v == 0 { 1 } else { v }, ..self }
                } else if addr <= 0x5FFF {
                    CartView { ram_bank: (val & 0x03) as usize, ..self }
                } else if addr <= 0x7FFF {
                    CartView { banking_mode: val & 1, ..self }
                } else if 0xA000 <= addr <= 0xBFFF {
                    self.write_ram_spec(addr, val)
                } else {
                    self
                }
            },
            MbcKind::Mbc3 => {
                if addr <= 0x1FFF {
                    CartView { ram_enabled: val & 0x0F == 0x0A, ..self }
                } else if addr <= 0x3FFF {
                    let v = (val & 0x7F) as usize;
                    CartView { rom_bank: if v == 0 { 1 } else { v }, ..self }
                } else if addr <= 0x5FFF {
                    // 0x08-0x0C select RTC registers; they map to no RAM.
                    CartView { ram_bank: (val & 0x03) as usize, ..self }
                } else if 0xA000 <= addr <= 0xBFFF {
                    self.write_ram_spec(addr, val)
                } else {
                    self
                }
            },
            MbcKind::Mbc5 => {
                if addr <= 0x1FFF {
                    CartView { ram_enabled: val & 0x0F == 0x0A, ..self }
                } else if addr <= 0x2FFF {
                    CartView { rom_bank: ((self.rom_bank / 256) * 256 + val as usize) as usize, ..self }
                } else if addr <= 0x3FFF {
                    CartView { rom_bank: (self.rom_bank % 256 + (val & 1) as usize * 256) as usize, ..self }
                } else if addr <= 0x5FFF {
                    CartView { ram_bank: (val & 0x0F) as usize, ..self }
                } else if 0xA000 <= addr <= 0xBFFF {
                    self.write_ram_spec(addr, val)
                } else {
                    self
                }
            },
        }
    }
}

impl Cartridge {
    pub open spec fn wf(&self) -> bool {
        self@.wf()
    }

    /// Parse the header and set up the controller. ROMs shorter than the
    /// header (0x150 bytes) and unknown cartridge types are rejected.
    pub fn from_rom(rom: Vec<u8>) -> (r: Result<Self, CartError>)
        ensures
            rom.len() < 0x150 ==> r == Err::<Self, CartError>(CartError::TooSmall),
            rom.len() >= 0x150 && kind_of(rom[0x147]) is None ==> r == Err::<Self, CartError>(
                CartError::UnsupportedMbc(rom[0x147]),
            ),
            rom.len() >= 0x150 && kind_of(rom[0x147]) is Some ==> (r matches Ok(c) && {
                &&& c.wf()
                &&& c@ == CartView {
                    rom: rom@,
                    ram: Seq::new(ram_size_of(rom[0x149]), |i: int| 0u8),
                    kind: kind_of(rom[0x147])->Some_0,
                    title: title_spec(rom@),
                    rom_bank: 1,
                    ram_bank: 0,
                    ram_enabled: false,
                    banking_mode: 0,
                    ram_dirty: false,
                }
            }),
    {
        if rom.len() < 0x150 {
            return Err(CartError::TooSmall);
        }
        let t = rom[0x147];
        let kind = if t == 0x00 || t == 0x08 || t == 0x09 {
            MbcKind::RomOnly
        } else if 0x01 <= t && t <= 0x03 {
            MbcKind::Mbc1
        } else if 0x0F <= t && t <= 0x13 {
            MbcKind::Mbc3
        } else if 0x19 <= t && t <= 0x1E {
            MbcKind::Mbc5
        } else {
            return Err(CartError::UnsupportedMbc(t));
        };
        let code = rom[0x149];
        let ram_size: usize = if code == 0x02 {
            0x2000
        } else if code == 0x03 {
            0x8000
        } else if code == 0x04 {
            0x20000
        } else if code == 0x05 {
            0x10000
        } else {
            0
        };
        let ram = vec![0u8; ram_size];
        let title = Self::parse_title(&rom);
        proof {
            assert(ram@ =~= Seq::new(ram_size_of(rom[0x149]), |i: int| 0u8));
        }
        Ok(
            Cartridge {
                rom,
                ram,
                kind,
                title,
                rom_bank: 1,
                ram_bank: 0,
                ram_enabled: false,
                banking_mode: 0,
                ram_dirty: false,
            },
        )
    }

    fn parse_title(rom: &Vec<u8>) -> (title: String)
        requires
            rom.len() >= 0x150,
        ensures
            title@ == title_spec(rom@),
    {
        let mut title = String::new();
        let mut i: usize = 0;
        while i < 16 && rom[0x134 + i] != 0
            invariant
                i <= 16,
                rom.len() >= 0x150,
                title_len(rom@, i as int) == title_len(rom@, 0),
                title@ =~= Seq::new(i as nat, |k: int| title_char(rom@[0x134 + k])),
            decreases 16 - i,
        {
            let b = rom[0x134 + i];
            let c = if 0x20 <= b && b <= 0x7E {
                b as char
            } else {
                '?'
            };
            push_char(&mut title, c);
            i = i + 1;
        }
        proof {
            assert(title_len(rom@, i as int) == i);
        }
        title
    }

    fn rom_bank_count(&self) -> (r: usize)
        ensures
            r == self@.bank_count(),
            r >= 1,
    {
        let n = self.rom.len() / 0x4000;
        if n >= 1 {
            n
        } else {
            1
        }
    }

    pub fn read(&self, addr: u16) -> (r: u8)
        requires
            self@.banks_ok(),
        ensures
            r == self@.read_spec(addr),
    {
        if addr <= 0x3FFF {
            let count = self.rom_bank_count();
            let bank = if self.kind == MbcKind::Mbc1 && self.banking_mode == 1 {
                (self.ram_bank * 32) % count
            } else {
                0
            };
            Self::rom_byte(&self.rom, bank, addr as usize)
        } else if addr <= 0x7FFF {
            let count = self.rom_bank_count();
            let bank = if self.kind == MbcKind::Mbc1 {
                (self.ram_bank * 32 + self.rom_bank) % count
            } else {
                self.rom_bank % count
            };
            Self::rom_byte(&self.rom, bank, addr as usize - 0x4000)
        } else if 0xA000 <= addr && addr <= 0xBFFF {
            if !self.ram_enabled || self.ram.len() == 0 {
                return 0xFF;
            }
            let idx = self.ram_bank * 0x2000 + (addr as usize - 0xA000);
            if idx < self.ram.len() {
                self.ram[idx]
            } else {
                0xFF
            }
        } else {
            0xFF
        }
    }

    /// The byte at `off` within ROM bank `bank`, or 0xFF past the end.
    fn rom_byte(rom: &Vec<u8>, bank: usize, off: usize) -> (r: u8)
        requires
            off < 0x4000,
            bank == 0 || bank < rom.len() / 0x4000,
        ensures
            r == byte_or_ff(rom@, bank * 0x4000 + off),
    {
        proof {
            if bank > 0 {
                assert(bank * 0x4000 <= rom.len()) by (nonlinear_arith)
                    requires
                        bank < rom.len() / 0x4000,
                ;
            }
        }
        let idx = bank * 0x4000 + off;
        if idx < rom.len() {
            rom[idx]
        } else {
            0xFF
        }
    }

    pub fn write(&mut self, addr: u16, val: u8)
        requires
            old(self)@.banks_ok(),
        ensures
            final(self)@.banks_ok(),
            old(self).wf() ==> final(self).wf(),
            final(self)@ == old(self)@.write_spec(addr, val),
    {
        match self.kind {
            MbcKind::RomOnly => {
                if 0xA000 <= addr && addr <= 0xBFFF && self.ram.len() != 0 {
                    let idx = (addr as usize - 0xA000) % self.ram.len();
                    self.ram.set(idx, val);
                    self.ram_dirty = true;
                }
            },
            MbcKind::Mbc1 => {
                if addr <= 0x1FFF {
                    self.ram_enabled = val & 0x0F == 0x0A;
                } else if addr <= 0x3FFF {
                    let v = (val & 0x1F) as usize;
                    self.rom_bank = if v == 0 {
                        1
                    } else {
                        v
                    };
                } else if addr <= 0x5FFF {
                    self.ram_bank = (val & 0x03) as usize;
                } else if addr <= 0x7FFF {
                    self.banking_mode = val & 1;
                } else if 0xA000 <= addr && addr <= 0xBFFF {
                    self.write_ram(addr, val);
                }
            },
            MbcKind::Mbc3 => {
                if addr <= 0x1FFF {
                    self.ram_enabled = val & 0x0F == 0x0A;
                } else if addr <= 0x3FFF {
                    let v = (val & 0x7F) as usize;
                    self.rom_bank = if v == 0 {
                        1
                    } else {
                        v
                    };
                } else if addr <= 0x5FFF {
                    self.ram_bank = (val & 0x03) as usize;
                } else if 0xA000 <= addr && addr <= 0xBFFF {
                    self.write_ram(addr, val);
                }
            },
            MbcKind::Mbc5 => {
                if addr <= 0x1FFF {
                    self.ram_enabled = val & 0x0F == 0x0A;
                } else if addr <= 0x2FFF {
                    self.rom_bank = (self.rom_bank / 256) * 256 + val as usize;
                } else if addr <= 0x3FFF {
                    self.rom_bank = self.rom_bank % 256 + (val & 1) as usize * 256;
                } else if addr <= 0x5FFF {
                    self.ram_bank = (val & 0x0F) as usize;
                } else if 0xA000 <= addr && addr <= 0xBFFF {
                    self.write_ram(addr, val);
                }
            },
        }
        proof {
            assert(val & 0x1F <= 0x1F && val & 0x7F <= 0x7F && val & 0x03 <= 3 && val & 0x0F <= 15
                && val & 1 <= 1) by (bit_vector);
        }
    }

    fn write_ram(&mut self, addr: u16, val: u8)
        requires
            0xA000 <= addr <= 0xBFFF,
            old(self)@.banks_ok(),
        ensures
            final(self)@ == old(self)@.write_ram_spec(addr, val),
    {
        if !self.ram_enabled || self.ram.len() == 0 {
            return;
        }
        let idx = self.ram_bank * 0x2000 + (addr as usize - 0xA000);
        if idx < self.ram.len() {
            self.ram.set(idx, val);
            self.ram_dirty = true;
        }
    }

    /// Whether this cartridge has battery-backed RAM worth persisting.
    pub fn has_battery(&self) -> (r: bool)
        ensures
            r == (self.rom.len() > 0x147 && battery_type(self.rom[0x147])),
    {
        if self.rom.len() > 0x147 {
            let t = self.rom[0x147];
            t == 0x03 || t == 0x09 || t == 0x0F || t == 0x10 || t == 0x13 || t == 0x1B || t == 0x1E
        } else {
            false
        }
    }

    /// The battery-backed RAM, for writing to a save file.
    pub fn ram(&self) -> (r: &[u8])
        ensures
            r@ == self.ram@,
    {
        self.ram.as_slice()
    }

    /// Restore battery-backed RAM from a save file. Ignored unless the sizes
    /// match, so a stale or foreign save can't corrupt state.
    pub fn load_ram(&mut self, data: &[u8])
        ensures
            data.len() == old(self).ram.len() ==> final(self)@ == (CartView {
                ram: data@,
                ram_dirty: false,
                ..old(self)@
            }),
            data.len() != old(self).ram.len() ==> final(self)@ == old(self)@,
    {
        if data.len() == self.ram.len() {
            self.ram = vstd::slice::slice_to_vec(data);
            self.ram_dirty = false;
        }
    }

    /// Return whether RAM changed since the last call, clearing the flag.
    pub fn take_ram_dirty(&mut self) -> (r: bool)
        ensures
            r == old(self).ram_dirty,
            final(self)@ == (CartView { ram_dirty: false, ..old(self)@ }),
    {
        let r = self.ram_dirty;
        self.ram_dirty = false;
        r
    }

    pub open spec fn identity_spec(self) -> Seq<u8> {
        self.rom@.subrange(0x134, 0x144) + self.rom@.subrange(0x14E, 0x150)
    }

    /// The ROM's identity for save states: the 16-byte title field and the
    /// 2-byte global checksum from the header.
    pub fn rom_identity(&self) -> (r: Vec<u8>)
        requires
            self.wf(),
        ensures
            r@ == self.identity_spec(),
    {
        let mut r: Vec<u8> = Vec::new();
        let mut i: usize = 0x134;
        while i < 0x144
            invariant
                0x134 <= i <= 0x144,
                self.rom.len() >= 0x150,
                r@ == self.rom@.subrange(0x134, i as int),
            decreases 0x144 - i,
        {
            r.push(self.rom[i]);
            i = i + 1;
        }
        r.push(self.rom[0x14E]);
        r.push(self.rom[0x14F]);
        proof {
            assert(r@ =~= self.identity_spec());
        }
        r
    }
}

/// Writing a byte to enabled cartridge RAM and reading it back gives the
/// byte (within the RAM's size; ROM-only cartridges have no enable gate).
pub proof fn lemma_ram_write_read(c: CartView, addr: u16, val: u8)
    requires
        c.wf(),
        0xA000 <= addr <= 0xBFFF,
        c.ram_enabled || c.kind == MbcKind::RomOnly,
        c.ram.len() > c.ram_bank * 0x2000 + (addr - 0xA000),
        c.kind != MbcKind::RomOnly || c.ram_bank == 0,
    ensures
        c.write_spec(addr, val).ram_enabled == c.ram_enabled,
        c.ram_enabled ==> c.write_spec(addr, val).read_spec(addr) == val,
        c.write_spec(addr, val).ram_dirty,
{
    let off = (addr - 0xA000) as int;
    if c.kind == MbcKind::RomOnly {
        vstd::arithmetic::div_mod::lemma_small_mod(off as nat, c.ram.len());
    }
    let w = c.write_spec(addr, val);
    assert(w.ram.len() == c.ram.len());
    assert(w.ram[c.ram_bank * 0x2000 + off] == val);
}

/// What a write to the ROM-bank register (0x2000-0x3FFF) maps at
/// 0x4000-0x7FFF: MBC1 takes the low 5 bits of the value and MBC3 the low
/// 7 bits, a 0 selecting bank 1 (MBC1 adds the upper bits held in the RAM
/// bank register); MBC5 takes all 8 bits at 0x2000-0x2FFF and bit 0 as the
/// ninth bank bit at 0x3000-0x3FFF, 0 selecting bank 0. The bank number
/// wraps at the ROM's bank count, and ROM-only cartridges ignore the write.
pub proof fn lemma_rom_bank_select(c: CartView, addr: u16, val: u8, k: u16)
    requires
        c.banks_ok(),
        0x2000 <= addr <= 0x3FFF,
        k < 0x4000,
    ensures
        ({
            let w = c.write_spec(addr, val);
            let got = w.read_spec((0x4000 + k) as u16);
            let n = c.bank_count();
            let sel5: int = if val % 32 == 0 { 1 } else { val as int % 32 };
            let sel7: int = if val % 128 == 0 { 1 } else { val as int % 128 };
            &&& w.banks_ok()
            &&& c.kind == MbcKind::Mbc1 ==> got == byte_or_ff(
                c.rom,
                ((c.ram_bank * 32 + sel5) % n) * 0x4000 + k,
            )
            &&& c.kind == MbcKind::Mbc3 ==> got == byte_or_ff(c.rom, (sel7 % n) * 0x4000 + k)
            &&& (c.kind == MbcKind::Mbc5 && addr <= 0x2FFF) ==> got == byte_or_ff(
                c.rom,
                (((c.rom_bank / 256) * 256 + val) % n) * 0x4000 + k,
            )
            &&& (c.kind == MbcKind::Mbc5 && addr >= 0x3000) ==> got == byte_or_ff(
                c.rom,
                ((c.rom_bank % 256 + (val % 2) * 256) % n) * 0x4000 + k,
            )
            &&& c.kind == MbcKind::RomOnly ==> w == c
        }),
{
    assert(val & 0x7F == val % 128 && val & 0x1F == val % 32 && val & 1 == val % 2) by (bit_vector);
}

/// The other controller registers: a write to 0x0000-0x1FFF enables the
/// cartridge RAM exactly when the value's low nibble is 0xA, and a write to
/// 0x4000-0x5FFF selects RAM bank `val % 4` (MBC1, MBC3) or `val % 16`
/// (MBC5); nothing else changes. MBC1's 0x6000-0x7FFF picks the banking
/// mode from bit 0.
pub proof fn lemma_mbc_registers(c: CartView, addr: u16, val: u8)
    requires
        c.kind != MbcKind::RomOnly,
        addr <= 0x7FFF,
    ensures
        ({
            let w = c.write_spec(addr, val);
            &&& addr <= 0x1FFF ==> w == (CartView { ram_enabled: val % 16 == 10, ..c })
            &&& (0x4000 <= addr <= 0x5FFF && c.kind != MbcKind::Mbc5) ==> w == (CartView {
                ram_bank: (val % 4) as usize,
                ..c
            })
            &&& (0x4000 <= addr <= 0x5FFF && c.kind == MbcKind::Mbc5) ==> w == (CartView {
                ram_bank: (val % 16) as usize,
                ..c
            })
            &&& (0x6000 <= addr && c.kind == MbcKind::Mbc1) ==> w == (CartView {
                banking_mode: val % 2,
                ..c
            })
            &&& (0x6000 <= addr && c.kind != MbcKind::Mbc1) ==> w == c
        }),
{
    assert(val & 0x0F == val % 16 && val & 0x03 == val % 4 && val & 1 == val % 2) by (bit_vector);
}

impl Cartridge {
    /// Whether the controller state is consistent with the ROM.
    pub fn is_valid(&self) -> (r: bool)
        ensures
            r == self@.wf(),
    {
        self.rom.len() >= 0x150 && self.rom_bank < 512 && self.ram_bank < 16 && self.banking_mode < 2
            && (self.kind != MbcKind::Mbc1 || self.rom_bank < 32)
    }
}

} // verus!
