use vstd::prelude::*;

verus! {

/// The processor status register `P`, one field per bit, lowest bit first.
#[derive(Debug, Copy, Clone, PartialEq, Eq, Structural)]
pub struct Status {
    /// bit 0, `C`
    pub carry: bool,
    /// bit 1, `Z`
    pub zero: bool,
    /// bit 2, `I`
    pub irqb_disable: bool,
    /// bit 3, `D`
    pub decimal_mode: bool,
    /// bit 4, `B`
    pub brk_command: bool,
    /// bit 5, always 1 in a live register
    pub unused: bool,
    /// bit 6, `V`
    pub overflow: bool,
    /// bit 7, `N`
    pub negative: bool,
}

/// `mask` if `flag` holds, else 0.
pub open spec fn flag_bits(flag: bool, mask: u8) -> u8 {
    if flag {
        mask
    } else {
        0
    }
}

/// The byte with the eight given bits, lowest first.
pub open spec fn pack(
    b0: bool,
    b1: bool,
    b2: bool,
    b3: bool,
    b4: bool,
    b5: bool,
    b6: bool,
    b7: bool,
) -> u8 {
    flag_bits(b0, 0x01) | flag_bits(b1, 0x02) | flag_bits(b2, 0x04) | flag_bits(b3, 0x08)
        | flag_bits(b4, 0x10) | flag_bits(b5, 0x20) | flag_bits(b6, 0x40) | flag_bits(b7, 0x80)
}

/// Each bit of a packed byte is the flag it was packed from.
pub proof fn lemma_pack_bits(
    b0: bool,
    b1: bool,
    b2: bool,
    b3: bool,
    b4: bool,
    b5: bool,
    b6: bool,
    b7: bool,
)
    by (bit_vector)
    ensures
        (pack(b0, b1, b2, b3, b4, b5, b6, b7) & 0x01 != 0) == b0,
        (pack(b0, b1, b2, b3, b4, b5, b6, b7) & 0x02 != 0) == b1,
        (pack(b0, b1, b2, b3, b4, b5, b6, b7) & 0x04 != 0) == b2,
        (pack(b0, b1, b2, b3, b4, b5, b6, b7) & 0x08 != 0) == b3,
        (pack(b0, b1, b2, b3, b4, b5, b6, b7) & 0x10 != 0) == b4,
        (pack(b0, b1, b2, b3, b4, b5, b6, b7) & 0x20 != 0) == b5,
        (pack(b0, b1, b2, b3, b4, b5, b6, b7) & 0x40 != 0) == b6,
        (pack(b0, b1, b2, b3, b4, b5, b6, b7) & 0x80 != 0) == b7,
{
}

/// A byte is the packing of its own bits.
pub proof fn lemma_bits_pack(byte: u8)
    by (bit_vector)
    ensures
        pack(
            byte & 0x01 != 0,
            byte & 0x02 != 0,
            byte & 0x04 != 0,
            byte & 0x08 != 0,
            byte & 0x10 != 0,
            byte & 0x20 != 0,
            byte & 0x40 != 0,
            byte & 0x80 != 0,
        ) == byte,
{
}

impl Status {
    /// The register after reset: `I`, `B` and bit 5 set, all else clear.
    pub open spec fn initial() -> Status {
        Status {
            carry: false,
            zero: false,
            irqb_disable: true,
            decimal_mode: false,
            brk_command: true,
            unused: true,
            overflow: false,
            negative: false,
        }
    }

    /// The packed byte.
    pub open spec fn bits(self) -> u8 {
        pack(
            self.carry,
            self.zero,
            self.irqb_disable,
            self.decimal_mode,
            self.brk_command,
            self.unused,
            self.overflow,
            self.negative,
        )
    }

    /// The register whose packed byte is `byte`.
    pub open spec fn unpack(byte: u8) -> Status {
        Status {
            carry: byte & 0x01 != 0,
            zero: byte & 0x02 != 0,
            irqb_disable: byte & 0x04 != 0,
            decimal_mode: byte & 0x08 != 0,
            brk_command: byte & 0x10 != 0,
            unused: byte & 0x20 != 0,
            overflow: byte & 0x40 != 0,
            negative: byte & 0x80 != 0,
        }
    }

    /// The register with bits 4 and 5 forced to 1.
    pub open spec fn with_fixed_bits(self) -> Status {
        Status { brk_command: true, unused: true, ..self }
    }

    /// Bits 4 and 5 are set, as they are in every live register.
    pub open spec fn has_fixed_bits(self) -> bool {
        self.brk_command && self.unused
    }

    /// Unpacks a byte into the register, bit for bit.
    pub fn from_bits(byte: u8) -> (status: Status)
        ensures
            status == Status::unpack(byte),
            status.bits() == byte,
    {
        proof {
            lemma_bits_pack(byte);
        }
        Status {
            carry: byte & 0x01 != 0,
            zero: byte & 0x02 != 0,
            irqb_disable: byte & 0x04 != 0,
            decimal_mode: byte & 0x08 != 0,
            brk_command: byte & 0x10 != 0,
            unused: byte & 0x20 != 0,
            overflow: byte & 0x40 != 0,
            negative: byte & 0x80 != 0,
        }
    }

    /// Packs the register into a byte, bit for bit.
    pub fn into_bits(self) -> (byte: u8)
        ensures
            byte == self.bits(),
            Status::unpack(byte) == self,
    {
        proof {
            Status::lemma_pack_unpack(self, 0);
        }
        let b0: u8 = if self.carry { 0x01 } else { 0 };
        let b1: u8 = if self.zero { 0x02 } else { 0 };
        let b2: u8 = if self.irqb_disable { 0x04 } else { 0 };
        let b3: u8 = if self.decimal_mode { 0x08 } else { 0 };
        let b4: u8 = if self.brk_command { 0x10 } else { 0 };
        let b5: u8 = if self.unused { 0x20 } else { 0 };
        let b6: u8 = if self.overflow { 0x40 } else { 0 };
        let b7: u8 = if self.negative { 0x80 } else { 0 };
        b0 | b1 | b2 | b3 | b4 | b5 | b6 | b7
    }

    /// Packing and unpacking are inverse to each other.
    pub proof fn lemma_pack_unpack(status: Status, byte: u8)
        ensures
            Status::unpack(status.bits()) == status,
            Status::unpack(byte).bits() == byte,
    {
        lemma_pack_bits(
            status.carry,
            status.zero,
            status.irqb_disable,
            status.decimal_mode,
            status.brk_command,
            status.unused,
            status.overflow,
            status.negative,
        );
        lemma_bits_pack(byte);
    }

    pub fn new() -> (status: Status)
        ensures
            status == Status::initial(),
    {
        Status {
            carry: false,
            zero: false,
            irqb_disable: true,
            decimal_mode: false,
            brk_command: true,
            unused: true,
            overflow: false,
            negative: false,
        }
    }

    pub fn carry(&self) -> (flag: bool)
        ensures
            flag == self.carry,
    {
        self.carry
    }

    pub fn zero(&self) -> (flag: bool)
        ensures
            flag == self.zero,
    {
        self.zero
    }

    pub fn irqb_disable(&self) -> (flag: bool)
        ensures
            flag == self.irqb_disable,
    {
        self.irqb_disable
    }

    pub fn decimal_mode(&self) -> (flag: bool)
        ensures
            flag == self.decimal_mode,
    {
        self.decimal_mode
    }

    pub fn overflow(&self) -> (flag: bool)
        ensures
            flag == self.overflow,
    {
        self.overflow
    }

    pub fn negative(&self) -> (flag: bool)
        ensures
            flag == self.negative,
    {
        self.negative
    }

    pub fn set_carry(&mut self, flag: bool)
        ensures
            *final(self) == (Status { carry: flag, ..*old(self) }),
    {
        self.carry = flag;
    }

    pub fn set_zero(&mut self, flag: bool)
        ensures
            *final(self) == (Status { zero: flag, ..*old(self) }),
    {
        self.zero = flag;
    }

    pub fn set_irqb_disable(&mut self, flag: bool)
        ensures
            *final(self) == (Status { irqb_disable: flag, ..*old(self) }),
    {
        self.irqb_disable = flag;
    }

    pub fn set_decimal_mode(&mut self, flag: bool)
        ensures
            *final(self) == (Status { decimal_mode: flag, ..*old(self) }),
    {
        self.decimal_mode = flag;
    }

    pub fn set_overflow(&mut self, flag: bool)
        ensures
            *final(self) == (Status { overflow: flag, ..*old(self) }),
    {
        self.overflow = flag;
    }

    pub fn set_negative(&mut self, flag: bool)
        ensures
            *final(self) == (Status { negative: flag, ..*old(self) }),
    {
        self.negative = flag;
    }
}

impl Default for Status {
    fn default() -> (status: Status)
        ensures
            status == Status::initial(),
    {
        Status::new()
    }
}

} // verus!
