use crate::interrupt::Interrupt;
use crate::memory::{high_byte, low_byte, make_word, split_word, word, Memory};
use vstd::prelude::*;

verus! {

pub const VIA_IORB: u16 = 0x0;

pub const VIA_IORA: u16 = 0x1;

pub const VIA_DDRB: u16 = 0x2;

pub const VIA_DDRA: u16 = 0x3;

pub const VIA_T1CL: u16 = 0x4;

pub const VIA_T1CH: u16 = 0x5;

pub const VIA_T1LL: u16 = 0x6;

pub const VIA_T1LH: u16 = 0x7;

pub const VIA_T2CL: u16 = 0x8;

pub const VIA_T2CH: u16 = 0x9;

pub const VIA_SR: u16 = 0xA;

pub const VIA_ACR: u16 = 0xB;

pub const VIA_PCR: u16 = 0xC;

pub const VIA_IFR: u16 = 0xD;

pub const VIA_IER: u16 = 0xE;

pub const VIA_IORA_NO_HANDSHAKE: u16 = 0xF;

/// The keys of the keyboard matrix and the joystick lines, in matrix order:
/// five to a row.
#[derive(Debug, Clone, Copy, PartialEq, Eq, Structural, Hash)]
pub enum CodyKeyCode {
    KeyQ,
    KeyE,
    KeyT,
    KeyU,
    KeyO,
    KeyA,
    KeyD,
    KeyG,
    KeyJ,
    KeyL,
    Cody,
    KeyX,
    KeyV,
    KeyN,
    Meta,
    KeyZ,
    KeyC,
    KeyB,
    KeyM,
    Enter,
    KeyS,
    KeyF,
    KeyH,
    KeyK,
    Space,
    KeyW,
    KeyR,
    KeyY,
    KeyI,
    KeyP,
    Joystick1Up,
    Joystick1Down,
    Joystick1Left,
    Joystick1Right,
    Joystick1Fire,
    Joystick2Up,
    Joystick2Down,
    Joystick2Left,
    Joystick2Right,
    Joystick2Fire,
}

impl CodyKeyCode {
    /// The number of key codes.
    pub const COUNT: usize = 40;

    /// The place of the key in the matrix, counted row by row.
    pub open spec fn spec_index(&self) -> u8 {
        match self {
            CodyKeyCode::KeyQ => 0,
            CodyKeyCode::KeyE => 1,
            CodyKeyCode::KeyT => 2,
            CodyKeyCode::KeyU => 3,
            CodyKeyCode::KeyO => 4,
            CodyKeyCode::KeyA => 5,
            CodyKeyCode::KeyD => 6,
            CodyKeyCode::KeyG => 7,
            CodyKeyCode::KeyJ => 8,
            CodyKeyCode::KeyL => 9,
            CodyKeyCode::Cody => 10,
            CodyKeyCode::KeyX => 11,
            CodyKeyCode::KeyV => 12,
            CodyKeyCode::KeyN => 13,
            CodyKeyCode::Meta => 14,
            CodyKeyCode::KeyZ => 15,
            CodyKeyCode::KeyC => 16,
            CodyKeyCode::KeyB => 17,
            CodyKeyCode::KeyM => 18,
            CodyKeyCode::Enter => 19,
            CodyKeyCode::KeyS => 20,
            CodyKeyCode::KeyF => 21,
            CodyKeyCode::KeyH => 22,
            CodyKeyCode::KeyK => 23,
            CodyKeyCode::Space => 24,
            CodyKeyCode::KeyW => 25,
            CodyKeyCode::KeyR => 26,
            CodyKeyCode::KeyY => 27,
            CodyKeyCode::KeyI => 28,
            CodyKeyCode::KeyP => 29,
            CodyKeyCode::Joystick1Up => 30,
            CodyKeyCode::Joystick1Down => 31,
            CodyKeyCode::Joystick1Left => 32,
            CodyKeyCode::Joystick1Right => 33,
            CodyKeyCode::Joystick1Fire => 34,
            CodyKeyCode::Joystick2Up => 35,
            CodyKeyCode::Joystick2Down => 36,
            CodyKeyCode::Joystick2Left => 37,
            CodyKeyCode::Joystick2Right => 38,
            CodyKeyCode::Joystick2Fire => 39,
        }
    }

    /// The place of the key in the matrix, counted row by row.
    #[verifier::when_used_as_spec(spec_index)]
    pub fn index(&self) -> (index: u8)
        ensures
            index == self.spec_index(),
            index < 40,
    {
        match self {
            CodyKeyCode::KeyQ => 0,
            CodyKeyCode::KeyE => 1,
            CodyKeyCode::KeyT => 2,
            CodyKeyCode::KeyU => 3,
            CodyKeyCode::KeyO => 4,
            CodyKeyCode::KeyA => 5,
            CodyKeyCode::KeyD => 6,
            CodyKeyCode::KeyG => 7,
            CodyKeyCode::KeyJ => 8,
            CodyKeyCode::KeyL => 9,
            CodyKeyCode::Cody => 10,
            CodyKeyCode::KeyX => 11,
            CodyKeyCode::KeyV => 12,
            CodyKeyCode::KeyN => 13,
            CodyKeyCode::Meta => 14,
            CodyKeyCode::KeyZ => 15,
            CodyKeyCode::KeyC => 16,
            CodyKeyCode::KeyB => 17,
            CodyKeyCode::KeyM => 18,
            CodyKeyCode::Enter => 19,
            CodyKeyCode::KeyS => 20,
            CodyKeyCode::KeyF => 21,
            CodyKeyCode::KeyH => 22,
            CodyKeyCode::KeyK => 23,
            CodyKeyCode::Space => 24,
            CodyKeyCode::KeyW => 25,
            CodyKeyCode::KeyR => 26,
            CodyKeyCode::KeyY => 27,
            CodyKeyCode::KeyI => 28,
            CodyKeyCode::KeyP => 29,
            CodyKeyCode::Joystick1Up => 30,
            CodyKeyCode::Joystick1Down => 31,
            CodyKeyCode::Joystick1Left => 32,
            CodyKeyCode::Joystick1Right => 33,
            CodyKeyCode::Joystick1Fire => 34,
            CodyKeyCode::Joystick2Up => 35,
            CodyKeyCode::Joystick2Down => 36,
            CodyKeyCode::Joystick2Left => 37,
            CodyKeyCode::Joystick2Right => 38,
            CodyKeyCode::Joystick2Fire => 39,
        }
    }

    /// The key at place `index` of the matrix, where there is one.
    pub fn from_index(index: u8) -> (code: Option<CodyKeyCode>)
        ensures
            index < 40 ==> (code matches Some(key) && key.spec_index() == index),
            index >= 40 ==> code is None,
    {
        match index {
            0 => Some(CodyKeyCode::KeyQ),
            1 => Some(CodyKeyCode::KeyE),
            2 => Some(CodyKeyCode::KeyT),
            3 => Some(CodyKeyCode::KeyU),
            4 => Some(CodyKeyCode::KeyO),
            5 => Some(CodyKeyCode::KeyA),
            6 => Some(CodyKeyCode::KeyD),
            7 => Some(CodyKeyCode::KeyG),
            8 => Some(CodyKeyCode::KeyJ),
            9 => Some(CodyKeyCode::KeyL),
            10 => Some(CodyKeyCode::Cody),
            11 => Some(CodyKeyCode::KeyX),
            12 => Some(CodyKeyCode::KeyV),
            13 => Some(CodyKeyCode::KeyN),
            14 => Some(CodyKeyCode::Meta),
            15 => Some(CodyKeyCode::KeyZ),
            16 => Some(CodyKeyCode::KeyC),
            17 => Some(CodyKeyCode::KeyB),
            18 => Some(CodyKeyCode::KeyM),
            19 => Some(CodyKeyCode::Enter),
            20 => Some(CodyKeyCode::KeyS),
            21 => Some(CodyKeyCode::KeyF),
            22 => Some(CodyKeyCode::KeyH),
            23 => Some(CodyKeyCode::KeyK),
            24 => Some(CodyKeyCode::Space),
            25 => Some(CodyKeyCode::KeyW),
            26 => Some(CodyKeyCode::KeyR),
            27 => Some(CodyKeyCode::KeyY),
            28 => Some(CodyKeyCode::KeyI),
            29 => Some(CodyKeyCode::KeyP),
            30 => Some(CodyKeyCode::Joystick1Up),
            31 => Some(CodyKeyCode::Joystick1Down),
            32 => Some(CodyKeyCode::Joystick1Left),
            33 => Some(CodyKeyCode::Joystick1Right),
            34 => Some(CodyKeyCode::Joystick1Fire),
            35 => Some(CodyKeyCode::Joystick2Up),
            36 => Some(CodyKeyCode::Joystick2Down),
            37 => Some(CodyKeyCode::Joystick2Left),
            38 => Some(CodyKeyCode::Joystick2Right),
            39 => Some(CodyKeyCode::Joystick2Fire),
            _ => None,
        }
    }
}

/// The two modifier keys of the keyboard.
#[derive(Debug, Clone, Copy, PartialEq, Eq, Structural, Hash)]
pub enum CodyModifier {
    Cody,
    Meta,
}

/// The mask that selects the bit of a key in its row: rows use bits 3 to 7.
pub open spec fn key_mask(code: CodyKeyCode) -> u8 {
    1u8 << ((code.spec_index() % 5 + 3) as u8)
}

/// The row of a key in the matrix.
pub open spec fn key_row(code: CodyKeyCode) -> int {
    code.spec_index() as int / 5
}

/// The matrix after a key is pressed or released: a pressed key clears its
/// bit, a released key sets it.
pub open spec fn with_key(keys: Seq<u8>, code: CodyKeyCode, pressed: bool) -> Seq<u8> {
    keys.update(
        key_row(code),
        if pressed {
            keys[key_row(code)] & !key_mask(code)
        } else {
            keys[key_row(code)] | key_mask(code)
        },
    )
}

/// The keyboard matrix: one byte for each of eight rows.
#[derive(Debug, Copy, Clone)]
pub struct KeyState {
    pub state: [u8; 8],
}

impl View for KeyState {
    type V = Seq<u8>;

    open spec fn view(&self) -> Seq<u8> {
        self.state@
    }
}

impl KeyState {
    /// Records that a key is pressed or released.
    pub fn set_pressed(&mut self, code: CodyKeyCode, pressed: bool)
        ensures
            final(self)@ == with_key(old(self)@, code, pressed),
    {
        let code = code.index();
        let bit = (code % 5) + 3;
        let index = code / 5;
        let mask = 1u8 << bit;
        if pressed {
            self.state[index as usize] &= !mask;
        } else {
            self.state[index as usize] |= mask;
        }
    }
}

impl Default for KeyState {
    fn default() -> (keys: Self)
        ensures
            keys@ == Seq::new(8, |i: int| 0u8),
    {
        let keys = KeyState { state: [0; 8] };
        assert(keys@ =~= Seq::new(8, |i: int| 0u8));
        keys
    }
}

/// The state of the interface adapter.
pub struct ViaState {
    /// the sixteen registers as last written
    pub registers: Seq<u8>,
    /// the keyboard matrix
    pub keys: Seq<u8>,
    /// the cycle of the last clock tick
    pub last_update: usize,
    pub t1_latch_lo: u8,
    pub t1_latch_hi: u8,
    pub t1_counter: u16,
    pub t1_enabled: bool,
    pub t2_latch_lo: u8,
    pub t2_latch_hi: u8,
    pub t2_counter: u16,
    pub t2_enabled: bool,
    /// interrupt flag register
    pub ifr: u8,
    /// interrupt enable register
    pub ier: u8,
}

/// `value - 1` modulo 65536.
pub open spec fn count_down(value: u16) -> u16 {
    if value == 0 {
        0xFFFF
    } else {
        (value - 1) as u16
    }
}

/// `cycle - last` modulo the width of `usize`.
pub open spec fn elapsed(cycle: usize, last: usize) -> usize {
    if cycle >= last {
        (cycle - last) as usize
    } else {
        (cycle - last + usize::MAX + 1) as usize
    }
}

impl ViaState {
    pub open spec fn wf(self) -> bool {
        self.registers.len() == 16 && self.keys.len() == 8
    }

    /// The state after power-up: everything zero, the timers stopped.
    pub open spec fn initial() -> ViaState {
        ViaState {
            registers: Seq::new(16, |i: int| 0u8),
            keys: Seq::new(8, |i: int| 0u8),
            last_update: 0,
            t1_latch_lo: 0,
            t1_latch_hi: 0,
            t1_counter: 0,
            t1_enabled: false,
            t2_latch_lo: 0,
            t2_latch_hi: 0,
            t2_counter: 0,
            t2_enabled: false,
            ifr: 0,
            ier: 0,
        }
    }

    /// The state with the low seven flags as in `ifr`. Bit 7 is derived: it
    /// is set when a flag is set whose interrupt is enabled.
    pub open spec fn with_ifr(self, ifr: u8) -> ViaState {
        let flags = ifr & 0x7F;
        ViaState {
            ifr: if (flags & self.ier) != 0 {
                flags | 0x80
            } else {
                flags
            },
            ..self
        }
    }

    /// The state after a write of `ier` to the enable register: with bit 7
    /// set the listed interrupts are enabled, with bit 7 clear they are
    /// disabled. Bit 7 of the flag register follows.
    pub open spec fn with_ier(self, ier: u8) -> ViaState {
        let enabled = ViaState {
            ier: if (ier & 0x80) != 0 {
                self.ier | ier
            } else {
                self.ier & !ier
            },
            ..self
        };
        enabled.with_ifr(enabled.ifr)
    }

    /// What port A reads as: the selected row of the keyboard matrix, with
    /// the number of the row in the low bits. The row is selected by the
    /// output bits of the port, the bits of IORA that DDRA marks as outputs.
    pub open spec fn port_a(self) -> u8 {
        let output = self.registers[VIA_IORA as int] & self.registers[VIA_DDRA as int];
        self.keys[(output & 0x7) as int] | output
    }

    /// The byte that the register at `address` reads as.
    pub open spec fn read(self, address: u16) -> u8 {
        if address == VIA_IORA {
            self.port_a()
        } else if address == VIA_T1CL {
            low_byte(self.t1_counter)
        } else if address == VIA_T1CH {
            high_byte(self.t1_counter)
        } else if address == VIA_T1LL {
            self.t1_latch_lo
        } else if address == VIA_T1LH {
            self.t1_latch_hi
        } else if address == VIA_T2CL {
            low_byte(self.t2_counter)
        } else if address == VIA_T2CH {
            high_byte(self.t2_counter)
        } else if address == VIA_IFR {
            self.ifr
        } else if address == VIA_IER {
            self.ier | 0x80
        } else if address <= 0xF {
            self.registers[address as int]
        } else {
            0
        }
    }

    /// The state after the register at `address` was read: reading the low
    /// byte of a counter clears the flag of its timer.
    pub open spec fn after_read(self, address: u16) -> ViaState {
        if address == VIA_T1CL {
            self.with_ifr(self.ifr & !0x40u8)
        } else if address == VIA_T2CL {
            self.with_ifr(self.ifr & !0x20u8)
        } else {
            self
        }
    }

    /// The state after `value` was written to the register at `address`.
    /// Writing the high byte of a counter loads the counter from the
    /// latches, clears the flag of the timer and starts it.
    pub open spec fn write(self, address: u16, value: u8) -> ViaState {
        if address == VIA_T1CL || address == VIA_T1LL {
            ViaState { t1_latch_lo: value, ..self }
        } else if address == VIA_T1CH {
            let cleared = (ViaState { t1_latch_hi: value, ..self }).with_ifr(self.ifr & !0x40u8);
            ViaState { t1_counter: word(self.t1_latch_lo, value), t1_enabled: true, ..cleared }
        } else if address == VIA_T1LH {
            (ViaState { t1_latch_hi: value, ..self }).with_ifr(self.ifr & !0x40u8)
        } else if address == VIA_T2CL {
            ViaState { t2_latch_lo: value, ..self }
        } else if address == VIA_T2CH {
            let cleared = (ViaState { t2_latch_hi: value, ..self }).with_ifr(self.ifr & !0x20u8);
            ViaState { t2_counter: word(self.t2_latch_lo, value), t2_enabled: true, ..cleared }
        } else if address == VIA_IFR {
            self.with_ifr(value)
        } else if address == VIA_IER {
            self.with_ier(value)
        } else if address <= 0xF {
            ViaState { registers: self.registers.update(address as int, value), ..self }
        } else {
            self
        }
    }

    /// Timer 1 after one cycle: the counter counts down; when it reaches
    /// zero it is reloaded from the latches, and a running timer raises
    /// flag 6 and, unless bit 6 of ACR asks for continuous mode, stops.
    pub open spec fn tick_timer_1(self) -> ViaState {
        let acr = self.registers[VIA_ACR as int];
        let counter = count_down(self.t1_counter);
        if counter == 0 {
            let fired = if self.t1_enabled {
                ViaState {
                    t1_enabled: (acr & 0x40) != 0,
                    ..self.with_ifr(self.ifr | 0x40)
                }
            } else {
                self
            };
            ViaState { t1_counter: word(self.t1_latch_lo, self.t1_latch_hi), ..fired }
        } else {
            ViaState { t1_counter: counter, ..self }
        }
    }

    /// Timer 2 after one cycle: unless bit 5 of ACR selects pulse counting,
    /// the counter counts down; a running timer whose counter is zero
    /// raises flag 5 and stops.
    pub open spec fn tick_timer_2(self) -> ViaState {
        let acr = self.registers[VIA_ACR as int];
        let counted = if (acr & 0x20) != 0 {
            self
        } else {
            ViaState { t2_counter: count_down(self.t2_counter), ..self }
        };
        if counted.t2_counter == 0 && counted.t2_enabled {
            ViaState { t2_enabled: false, ..counted.with_ifr(counted.ifr | 0x20) }
        } else {
            counted
        }
    }

    /// Both timers after one cycle.
    pub open spec fn tick(self) -> ViaState {
        self.tick_timer_1().tick_timer_2()
    }

    /// Both timers after `cycles` cycles.
    pub open spec fn ticks(self, cycles: nat) -> ViaState
        decreases cycles,
    {
        if cycles == 0 {
            self
        } else {
            self.ticks((cycles - 1) as nat).tick()
        }
    }

    /// The state after the clock reached `cycle`: the timers run for the
    /// cycles that passed since the last tick.
    pub open spec fn advance_to(self, cycle: usize) -> ViaState {
        (ViaState { last_update: cycle, ..self }).ticks(elapsed(cycle, self.last_update) as nat)
    }

    /// Whether the interrupt line is raised: bit 7 of the flag register.
    pub open spec fn interrupts(self) -> bool {
        (self.ifr & 0x80) != 0
    }

    /// Bit 7 of the flag register is set exactly when one of the seven
    /// flags is set and enabled.
    pub proof fn lemma_ifr_bit_7(self, ifr: u8)
        ensures
            self.with_ifr(ifr).interrupts() <==> (self.with_ifr(ifr).ifr & self.ier & 0x7F) != 0,
            self.with_ifr(ifr).ifr & 0x7F == ifr & 0x7F,
            self.with_ier(ifr).interrupts() <==> (self.with_ier(ifr).ifr & self.with_ier(ifr).ier
                & 0x7F) != 0,
    {
        let ier = self.ier;
        assert(({
            let flags = ifr & 0x7F;
            let new = if (flags & ier) != 0 {
                flags | 0x80
            } else {
                flags
            };
            ((new & 0x80) != 0) == ((new & ier & 0x7F) != 0) && new & 0x7F == ifr & 0x7F
        })) by (bit_vector);
        let enabled = if (ifr & 0x80) != 0 {
            self.ier | ifr
        } else {
            self.ier & !ifr
        };
        let old_flags = self.ifr;
        assert(({
            let flags = old_flags & 0x7F;
            let new = if (flags & enabled) != 0 {
                flags | 0x80
            } else {
                flags
            };
            ((new & 0x80) != 0) == ((new & enabled & 0x7F) != 0)
        })) by (bit_vector);
    }
}

/// A versatile interface adapter: two timers, the interrupt flag and enable
/// registers, and port A wired to the keyboard matrix.
#[derive(Debug, Clone)]
pub struct Via {
    pub registers: [u8; 16],
    pub key_state: KeyState,
    pub last_update: usize,
    pub t1_latch_lo: u8,
    pub t1_latch_hi: u8,
    pub t1_counter: u16,
    pub t1_enabled: bool,
    pub t2_latch_lo: u8,
    pub t2_latch_hi: u8,
    pub t2_counter: u16,
    pub t2_enabled: bool,
    pub ifr: u8,
    pub ier: u8,
}

impl View for Via {
    type V = ViaState;

    open spec fn view(&self) -> ViaState {
        ViaState {
            registers: self.registers@,
            keys: self.key_state@,
            last_update: self.last_update,
            t1_latch_lo: self.t1_latch_lo,
            t1_latch_hi: self.t1_latch_hi,
            t1_counter: self.t1_counter,
            t1_enabled: self.t1_enabled,
            t2_latch_lo: self.t2_latch_lo,
            t2_latch_hi: self.t2_latch_hi,
            t2_counter: self.t2_counter,
            t2_enabled: self.t2_enabled,
            ifr: self.ifr,
            ier: self.ier,
        }
    }
}

impl Default for Via {
    fn default() -> (adapter: Self)
        ensures
            adapter@ == ViaState::initial(),
    {
        let adapter = Via {
            registers: [0; 16],
            key_state: KeyState::default(),
            last_update: 0,
            t1_latch_lo: 0,
            t1_latch_hi: 0,
            t1_counter: 0,
            t1_enabled: false,
            t2_latch_lo: 0,
            t2_latch_hi: 0,
            t2_counter: 0,
            t2_enabled: false,
            ifr: 0,
            ier: 0,
        };
        assert(adapter@.registers =~= ViaState::initial().registers);
        adapter
    }
}

impl Via {
    /// Reads port A.
    pub fn read_iora(&self) -> (value: u8)
        ensures
            value == self@.port_a(),
    {
        let ddr = self.registers[VIA_DDRA as usize];
        let ior = self.registers[VIA_IORA as usize];
        let output = ior & ddr;
        assert(output & 0x7 < 8) by (bit_vector);
        self.key_state.state[(output & 0x7) as usize] | output
    }

    /// The keyboard matrix that port A reads.
    pub fn get_key_state(&self) -> (keys: &KeyState)
        ensures
            keys@ == self@.keys,
    {
        &self.key_state
    }

    /// Records in the keyboard matrix that a key is pressed or released.
    pub fn set_pressed(&mut self, code: CodyKeyCode, pressed: bool)
        ensures
            final(self)@ == (ViaState { keys: with_key(old(self)@.keys, code, pressed), ..old(self)@ }),
    {
        self.key_state.set_pressed(code, pressed);
    }

    /// Sets the low seven interrupt flags and derives bit 7.
    pub fn set_ifr(&mut self, ifr: u8)
        ensures
            final(self)@ == old(self)@.with_ifr(ifr),
    {
        let mut ifr = ifr & 0x7F;
        if (ifr & self.ier) != 0 {
            ifr |= 0x80;
        }
        self.ifr = ifr;
    }

    /// Enables or disables the interrupts listed in `ier`.
    pub fn set_ier(&mut self, ier: u8)
        ensures
            final(self)@ == old(self)@.with_ier(ier),
    {
        if (ier & 0x80) != 0 {
            self.ier |= ier;
        } else {
            self.ier &= !ier;
        }

        // update ifr bit 7
        self.set_ifr(self.ifr);
    }

    /// Lets both timers run for one cycle.
    fn tick(&mut self)
        ensures
            final(self)@ == old(self)@.tick(),
    {
        let acr = self.registers[VIA_ACR as usize];
        self.t1_counter = self.t1_counter.wrapping_sub(1);
        if self.t1_counter == 0 {
            if self.t1_enabled {
                self.set_ifr(self.ifr | 0x40);

                // if not in continuous mode we stop the interrupt trigger
                if (acr & 0x40) == 0 {
                    self.t1_enabled = false;
                }
            }
            // reset counter to latched value
            self.t1_counter = make_word(self.t1_latch_lo, self.t1_latch_hi);
        }
        if (acr & 0x20) != 0 {
            // pulse counting is not modelled: the counter stands still
        } else {
            self.t2_counter = self.t2_counter.wrapping_sub(1);
        }
        if self.t2_counter == 0 && self.t2_enabled {
            self.set_ifr(self.ifr | 0x20);
            self.t2_enabled = false;
        }
    }
}

impl Memory for Via {
    open spec fn wf(&self) -> bool {
        true
    }

    open spec fn read_value(m: ViaState, address: u16) -> u8 {
        m.read(address)
    }

    open spec fn read_effect(m: ViaState, address: u16) -> ViaState {
        m.after_read(address)
    }

    open spec fn write_effect(m: ViaState, address: u16, value: u8) -> ViaState {
        m.write(address, value)
    }

    open spec fn update_signal(m: ViaState, cycle: usize) -> Interrupt {
        Interrupt { irq: m.advance_to(cycle).interrupts(), nmi: false }
    }

    open spec fn update_effect(m: ViaState, cycle: usize) -> ViaState {
        m.advance_to(cycle)
    }

    fn read_u8(&mut self, address: u16) -> (value: u8) {
        if address == VIA_IORA {
            self.read_iora()
        } else if address == VIA_T1CL {
            self.set_ifr(self.ifr & !0x40u8);
            split_word(self.t1_counter).0
        } else if address == VIA_T1CH {
            split_word(self.t1_counter).1
        } else if address == VIA_T1LL {
            self.t1_latch_lo
        } else if address == VIA_T1LH {
            self.t1_latch_hi
        } else if address == VIA_T2CL {
            self.set_ifr(self.ifr & !0x20u8);
            split_word(self.t2_counter).0
        } else if address == VIA_T2CH {
            split_word(self.t2_counter).1
        } else if address == VIA_IFR {
            self.ifr
        } else if address == VIA_IER {
            self.ier | 0x80
        } else if address <= 0xF {
            self.registers[address as usize]
        } else {
            0
        }
    }

    fn write_u8(&mut self, address: u16, value: u8) {
        if address == VIA_T1CL {
            self.t1_latch_lo = value;
        } else if address == VIA_T1CH {
            self.t1_latch_hi = value;
            self.set_ifr(self.ifr & !0x40u8);
            self.t1_counter = make_word(self.t1_latch_lo, self.t1_latch_hi);
            self.t1_enabled = true;
        } else if address == VIA_T1LL {
            self.t1_latch_lo = value;
        } else if address == VIA_T1LH {
            self.t1_latch_hi = value;
            self.set_ifr(self.ifr & !0x40u8);
        } else if address == VIA_T2CL {
            self.t2_latch_lo = value;
        } else if address == VIA_T2CH {
            self.t2_latch_hi = value;
            self.set_ifr(self.ifr & !0x20u8);
            self.t2_counter = make_word(self.t2_latch_lo, self.t2_latch_hi);
            self.t2_enabled = true;
        } else if address == VIA_IFR {
            self.set_ifr(value);
        } else if address == VIA_IER {
            self.set_ier(value);
        } else if address <= 0xF {
            self.registers[address as usize] = value;
        }
    }

    fn update(&mut self, cycle: usize) -> (signal: Interrupt) {
        let cycles_elapsed = cycle.wrapping_sub(self.last_update);
        self.last_update = cycle;
        let ghost start = self@;
        let mut done: usize = 0;
        while done < cycles_elapsed
            invariant
                done <= cycles_elapsed,
                self@ == start.ticks(done as nat),
            decreases cycles_elapsed - done,
        {
            self.tick();
            done += 1;
        }
        if (self.ifr & 0x80) != 0 {
            Interrupt::irq()
        } else {
            Interrupt::none()
        }
    }
}

} // verus!
