use crate::device::via::{with_key, CodyKeyCode, CodyModifier, KeyState};
use vstd::prelude::*;

verus! {

/// How the keys of the host stand for the keys of the machine.
#[derive(Debug, Clone, Copy, PartialEq, Eq, Structural)]
pub enum KeyboardEmulation {
    /// by their place on the keyboard, whatever the layout of the host
    Physical,
    /// by the character they produce
    Logical,
}

/// Whether a key of the machine is pressed alone or together with a
/// modifier.
#[derive(Debug, Clone, Copy, PartialEq, Eq, Structural)]
pub enum Chord {
    Alone,
    WithCody,
    WithMeta,
}

impl Chord {
    /// The modifier of the chord, where it has one.
    pub open spec fn spec_modifier(&self) -> Option<CodyModifier> {
        match self {
            Chord::Alone => None,
            Chord::WithCody => Some(CodyModifier::Cody),
            Chord::WithMeta => Some(CodyModifier::Meta),
        }
    }

    /// The modifier of the chord, where it has one.
    #[verifier::when_used_as_spec(spec_modifier)]
    pub fn modifier(&self) -> (modifier: Option<CodyModifier>)
        ensures
            modifier == self.spec_modifier(),
    {
        match self {
            Chord::Alone => None,
            Chord::WithCody => Some(CodyModifier::Cody),
            Chord::WithMeta => Some(CodyModifier::Meta),
        }
    }
}

/// The number of host keys in the physical mapping.
pub const PHYSICAL_KEYS: usize = 38;

/// The number of host keys in the logical mapping.
pub const LOGICAL_KEYS: usize = 72;

/// The physical mapping: the key of the machine for each host key, in the
/// order in which the host keys are polled. The two control keys stand for
/// the Cody key, the two alt keys for the Meta key, the arrow keys and the
/// shift keys for the first joystick.
pub const PHYSICAL_MAPPING: [CodyKeyCode; 38] = [
    CodyKeyCode::KeyQ,
    CodyKeyCode::KeyE,
    CodyKeyCode::KeyT,
    CodyKeyCode::KeyU,
    CodyKeyCode::KeyO,
    CodyKeyCode::KeyA,
    CodyKeyCode::KeyD,
    CodyKeyCode::KeyG,
    CodyKeyCode::KeyJ,
    CodyKeyCode::KeyL,
    CodyKeyCode::Cody,
    CodyKeyCode::Cody,
    CodyKeyCode::KeyX,
    CodyKeyCode::KeyV,
    CodyKeyCode::KeyN,
    CodyKeyCode::Meta,
    CodyKeyCode::Meta,
    CodyKeyCode::KeyZ,
    CodyKeyCode::KeyC,
    CodyKeyCode::KeyB,
    CodyKeyCode::KeyM,
    CodyKeyCode::Enter,
    CodyKeyCode::KeyS,
    CodyKeyCode::KeyF,
    CodyKeyCode::KeyH,
    CodyKeyCode::KeyK,
    CodyKeyCode::Space,
    CodyKeyCode::KeyW,
    CodyKeyCode::KeyR,
    CodyKeyCode::KeyY,
    CodyKeyCode::KeyI,
    CodyKeyCode::KeyP,
    CodyKeyCode::Joystick1Up,
    CodyKeyCode::Joystick1Down,
    CodyKeyCode::Joystick1Left,
    CodyKeyCode::Joystick1Right,
    CodyKeyCode::Joystick1Fire,
    CodyKeyCode::Joystick1Fire,
];

/// The logical mapping: the key of the machine for each host key, and the
/// modifier that has to be held with it to produce the character of the
/// host key, in the order in which the host keys are polled.
pub const LOGICAL_MAPPING: [(CodyKeyCode, Chord); 72] = [
    (CodyKeyCode::KeyQ, Chord::Alone),
    (CodyKeyCode::KeyE, Chord::Alone),
    (CodyKeyCode::KeyT, Chord::Alone),
    (CodyKeyCode::KeyU, Chord::Alone),
    (CodyKeyCode::KeyO, Chord::Alone),
    (CodyKeyCode::KeyA, Chord::Alone),
    (CodyKeyCode::KeyD, Chord::Alone),
    (CodyKeyCode::KeyG, Chord::Alone),
    (CodyKeyCode::KeyJ, Chord::Alone),
    (CodyKeyCode::KeyL, Chord::Alone),
    (CodyKeyCode::Cody, Chord::WithCody),
    (CodyKeyCode::KeyX, Chord::Alone),
    (CodyKeyCode::KeyV, Chord::Alone),
    (CodyKeyCode::KeyN, Chord::Alone),
    (CodyKeyCode::Meta, Chord::WithMeta),
    (CodyKeyCode::KeyZ, Chord::Alone),
    (CodyKeyCode::KeyC, Chord::Alone),
    (CodyKeyCode::KeyB, Chord::Alone),
    (CodyKeyCode::KeyM, Chord::Alone),
    (CodyKeyCode::Enter, Chord::Alone),
    (CodyKeyCode::KeyS, Chord::Alone),
    (CodyKeyCode::KeyF, Chord::Alone),
    (CodyKeyCode::KeyH, Chord::Alone),
    (CodyKeyCode::KeyK, Chord::Alone),
    (CodyKeyCode::Space, Chord::Alone),
    (CodyKeyCode::KeyW, Chord::Alone),
    (CodyKeyCode::KeyR, Chord::Alone),
    (CodyKeyCode::KeyY, Chord::Alone),
    (CodyKeyCode::KeyI, Chord::Alone),
    (CodyKeyCode::KeyP, Chord::Alone),
    (CodyKeyCode::Joystick1Up, Chord::Alone),
    (CodyKeyCode::Joystick1Down, Chord::Alone),
    (CodyKeyCode::Joystick1Left, Chord::Alone),
    (CodyKeyCode::Joystick1Right, Chord::Alone),
    (CodyKeyCode::Joystick1Fire, Chord::Alone),
    (CodyKeyCode::KeyQ, Chord::WithCody),
    (CodyKeyCode::KeyW, Chord::WithCody),
    (CodyKeyCode::KeyE, Chord::WithCody),
    (CodyKeyCode::KeyR, Chord::WithCody),
    (CodyKeyCode::KeyT, Chord::WithCody),
    (CodyKeyCode::KeyY, Chord::WithCody),
    (CodyKeyCode::KeyU, Chord::WithCody),
    (CodyKeyCode::KeyI, Chord::WithCody),
    (CodyKeyCode::KeyO, Chord::WithCody),
    (CodyKeyCode::KeyP, Chord::WithCody),
    (CodyKeyCode::Enter, Chord::WithMeta),
    (CodyKeyCode::KeyQ, Chord::WithMeta),
    (CodyKeyCode::KeyW, Chord::WithMeta),
    (CodyKeyCode::KeyE, Chord::WithMeta),
    (CodyKeyCode::KeyR, Chord::WithMeta),
    (CodyKeyCode::KeyT, Chord::WithMeta),
    (CodyKeyCode::KeyY, Chord::WithMeta),
    (CodyKeyCode::KeyU, Chord::WithMeta),
    (CodyKeyCode::KeyI, Chord::WithMeta),
    (CodyKeyCode::KeyO, Chord::WithMeta),
    (CodyKeyCode::KeyP, Chord::WithMeta),
    (CodyKeyCode::KeyA, Chord::WithMeta),
    (CodyKeyCode::KeyS, Chord::WithMeta),
    (CodyKeyCode::KeyD, Chord::WithMeta),
    (CodyKeyCode::KeyF, Chord::WithMeta),
    (CodyKeyCode::KeyG, Chord::WithMeta),
    (CodyKeyCode::KeyH, Chord::WithMeta),
    (CodyKeyCode::KeyJ, Chord::WithMeta),
    (CodyKeyCode::KeyK, Chord::WithMeta),
    (CodyKeyCode::KeyL, Chord::WithMeta),
    (CodyKeyCode::KeyZ, Chord::WithMeta),
    (CodyKeyCode::KeyX, Chord::WithMeta),
    (CodyKeyCode::KeyC, Chord::WithMeta),
    (CodyKeyCode::KeyV, Chord::WithMeta),
    (CodyKeyCode::KeyB, Chord::WithMeta),
    (CodyKeyCode::KeyN, Chord::WithMeta),
    (CodyKeyCode::KeyM, Chord::WithMeta),
];

/// The key of the machine that a modifier stands for.
pub open spec fn modifier_key(modifier: CodyModifier) -> CodyKeyCode {
    match modifier {
        CodyModifier::Cody => CodyKeyCode::Cody,
        CodyModifier::Meta => CodyKeyCode::Meta,
    }
}

/// Whether the held host key in slot `slot` of a mapping presses the key
/// `code` of the machine: as its own key or as the modifier it needs.
pub open spec fn slot_presses(
    emulation: KeyboardEmulation,
    slot: int,
    code: CodyKeyCode,
) -> bool {
    match emulation {
        KeyboardEmulation::Physical => 0 <= slot < 38 && PHYSICAL_MAPPING@[slot] == code,
        KeyboardEmulation::Logical => 0 <= slot < 72 && (LOGICAL_MAPPING@[slot].0 == code || (
        LOGICAL_MAPPING@[slot].1.spec_modifier() matches Some(modifier) && modifier_key(modifier)
            == code)),
    }
}

/// Whether the host keys held among the first `count` slots press the key
/// `code` of the machine.
pub open spec fn pressed(
    emulation: KeyboardEmulation,
    held: Seq<bool>,
    code: CodyKeyCode,
    count: int,
) -> bool {
    exists|slot: int|
        0 <= slot < count && slot < held.len() && held[slot] && #[trigger] slot_presses(
            emulation,
            slot,
            code,
        )
}

/// The number of slots of a mapping.
pub open spec fn slots(emulation: KeyboardEmulation) -> int {
    match emulation {
        KeyboardEmulation::Physical => 38,
        KeyboardEmulation::Logical => 72,
    }
}

/// The key with index `index`, for an index below 40.
pub open spec fn key_at(index: int) -> CodyKeyCode {
    choose|code: CodyKeyCode| code.spec_index() == index
}

/// The matrix after the first `count` keys of the machine, by their index,
/// were set as the held host keys press them.
pub open spec fn scanned(
    keys: Seq<u8>,
    emulation: KeyboardEmulation,
    held: Seq<bool>,
    count: int,
) -> Seq<u8>
    decreases count,
{
    if count <= 0 {
        keys
    } else {
        with_key(
            scanned(keys, emulation, held, count - 1),
            key_at(count - 1),
            pressed(emulation, held, key_at(count - 1), slots(emulation)),
        )
    }
}

/// The keyboard of the machine as the host drives it.
#[derive(Debug, Clone)]
pub struct Keyboard {
    pub keyboard_emulation: KeyboardEmulation,
    pub key_state: KeyState,
}

impl Keyboard {
    pub fn new(keyboard_emulation: KeyboardEmulation, key_state: KeyState) -> (keyboard: Self)
        ensures
            keyboard.keyboard_emulation == keyboard_emulation,
            keyboard.key_state == key_state,
    {
        Self { keyboard_emulation, key_state }
    }

    /// Which keys of the machine the held host keys press. `held` says for
    /// each slot of the mapping whether its host key is held; slots that it
    /// does not list count as not held.
    pub fn pressed_keys(emulation: KeyboardEmulation, held: &[bool]) -> (state: [bool; 40])
        ensures
            forall|code: CodyKeyCode|
                state@[code.spec_index() as int] == pressed(
                    emulation,
                    held@,
                    code,
                    slots(emulation),
                ),
    {
        let mut state: [bool; 40] = [false; 40];
        let count: usize = match emulation {
            KeyboardEmulation::Physical => PHYSICAL_KEYS,
            KeyboardEmulation::Logical => LOGICAL_KEYS,
        };
        let mut slot: usize = 0;
        while slot < count
            invariant
                slot <= count,
                count == slots(emulation),
                forall|code: CodyKeyCode|
                    state@[code.spec_index() as int] == pressed(
                        emulation,
                        held@,
                        code,
                        slot as int,
                    ),
            decreases count - slot,
        {
            let ghost before = state@;
            let is_held = slot < held.len() && held[slot];
            if is_held {
                match emulation {
                    KeyboardEmulation::Physical => {
                        let code = PHYSICAL_MAPPING[slot];
                        state[code.index() as usize] = true;
                    },
                    KeyboardEmulation::Logical => {
                        let (code, chord) = LOGICAL_MAPPING[slot];
                        match chord.modifier() {
                            Some(CodyModifier::Cody) => {
                                state[CodyKeyCode::Cody.index() as usize] = true;
                            },
                            Some(CodyModifier::Meta) => {
                                state[CodyKeyCode::Meta.index() as usize] = true;
                            },
                            None => {},
                        }
                        state[code.index() as usize] = true;
                    },
                }
            }
            proof {
                assert forall|code: CodyKeyCode|
                    state@[code.spec_index() as int] == pressed(
                        emulation,
                        held@,
                        code,
                        slot as int + 1,
                    ) by {
                    let now = is_held && slot_presses(emulation, slot as int, code);
                    assert(state@[code.spec_index() as int] == (before[code.spec_index() as int]
                        || now)) by {
                        lemma_index_injective(code);
                    }
                    if pressed(emulation, held@, code, slot as int + 1) {
                        let witness = choose|s: int|
                            0 <= s < slot as int + 1 && s < held@.len() && held@[s]
                                && #[trigger] slot_presses(emulation, s, code);
                        if witness < slot {
                            assert(slot_presses(emulation, witness, code));
                            assert(pressed(emulation, held@, code, slot as int));
                        } else {
                            assert(witness == slot);
                            assert(now);
                        }
                    }
                    if now {
                        assert(slot_presses(emulation, slot as int, code));
                        assert(pressed(emulation, held@, code, slot as int + 1));
                    }
                    if pressed(emulation, held@, code, slot as int) {
                        let earlier = choose|s: int|
                            0 <= s < slot as int && s < held@.len() && held@[s]
                                && #[trigger] slot_presses(emulation, s, code);
                        assert(slot_presses(emulation, earlier, code));
                        assert(pressed(emulation, held@, code, slot as int + 1));
                    }
                    assert(before[code.spec_index() as int] == pressed(
                        emulation,
                        held@,
                        code,
                        slot as int,
                    ));
                }
            }
            slot += 1;
        }
        state
    }

    /// Sets the keyboard matrix from the host keys that are held. `held`
    /// says for each slot of the mapping in use whether its host key is
    /// held. Every key of the machine is set: pressed where a held host key
    /// presses it, released otherwise.
    pub fn update(&mut self, held: &[bool])
        ensures
            final(self).keyboard_emulation == old(self).keyboard_emulation,
            final(self).key_state@ == scanned(
                old(self).key_state@,
                old(self).keyboard_emulation,
                held@,
                40,
            ),
    {
        let state = Self::pressed_keys(self.keyboard_emulation, held);
        let mut index: u8 = 0;
        while index < 40
            invariant
                index <= 40,
                self.keyboard_emulation == old(self).keyboard_emulation,
                forall|code: CodyKeyCode|
                    state@[code.spec_index() as int] == pressed(
                        self.keyboard_emulation,
                        held@,
                        code,
                        slots(self.keyboard_emulation),
                    ),
                self.key_state@ == scanned(
                    old(self).key_state@,
                    old(self).keyboard_emulation,
                    held@,
                    index as int,
                ),
            decreases 40 - index,
        {
            match CodyKeyCode::from_index(index) {
                Some(code) => {
                    proof {
                        lemma_key_at(code);
                    }
                    self.key_state.set_pressed(code, state[index as usize]);
                },
                None => {},
            }
            index += 1;
        }
    }
}

/// Two keys with the same index are the same key.
pub proof fn lemma_index_injective(code: CodyKeyCode)
    ensures
        forall|other: CodyKeyCode|
            other.spec_index() == code.spec_index() ==> other == code,
{
}

/// The key at the index of a key is that key.
pub proof fn lemma_key_at(code: CodyKeyCode)
    ensures
        key_at(code.spec_index() as int) == code,
{
    lemma_index_injective(code);
}

} // verus!
