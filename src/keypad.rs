use vstd::prelude::*;

verus! {

/// The sixteen host keys that stand for the hexadecimal keypad, by their
/// QWERTY position: the block from `1` to `V`.
#[derive(Clone, Copy, Debug, PartialEq, Eq, Structural)]
pub enum HostKey {
    Key1,
    Key2,
    Key3,
    Key4,
    Q,
    W,
    E,
    R,
    A,
    S,
    D,
    F,
    Z,
    X,
    C,
    V,
}

/// A keypad value, `0x0..=0xF`.
#[derive(Clone, Copy, Debug, PartialEq, Eq, Structural)]
pub struct KeyValue(pub u8);

/// The keypad value that a host key stands for, laid out as
///
/// ```text
/// 1 2 3 C      1 2 3 4
/// 4 5 6 D  <=  Q W E R
/// 7 8 9 E      A S D F
/// A 0 B F      Z X C V
/// ```
pub open spec fn key_value_spec(k: HostKey) -> u8 {
    match k {
        HostKey::Key1 => 0x1,
        HostKey::Key2 => 0x2,
        HostKey::Key3 => 0x3,
        HostKey::Key4 => 0xC,
        HostKey::Q => 0x4,
        HostKey::W => 0x5,
        HostKey::E => 0x6,
        HostKey::R => 0xD,
        HostKey::A => 0x7,
        HostKey::S => 0x8,
        HostKey::D => 0x9,
        HostKey::F => 0xE,
        HostKey::Z => 0xA,
        HostKey::X => 0x0,
        HostKey::C => 0xB,
        HostKey::V => 0xF,
    }
}

impl KeyValue {
    /// The keypad value that the host key `k` stands for.
    pub fn from_host_key(k: HostKey) -> (r: KeyValue)
        ensures
            r.0 == key_value_spec(k),
            r.0 <= 0xF,
    {
        match k {
            HostKey::Key1 => KeyValue(0x1),
            HostKey::Key2 => KeyValue(0x2),
            HostKey::Key3 => KeyValue(0x3),
            HostKey::Key4 => KeyValue(0xC),
            HostKey::Q => KeyValue(0x4),
            HostKey::W => KeyValue(0x5),
            HostKey::E => KeyValue(0x6),
            HostKey::R => KeyValue(0xD),
            HostKey::A => KeyValue(0x7),
            HostKey::S => KeyValue(0x8),
            HostKey::D => KeyValue(0x9),
            HostKey::F => KeyValue(0xE),
            HostKey::Z => KeyValue(0xA),
            HostKey::X => KeyValue(0x0),
            HostKey::C => KeyValue(0xB),
            HostKey::V => KeyValue(0xF),
        }
    }
}

} // verus!
