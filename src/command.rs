use vstd::prelude::*;

verus! {

/// The largest parameter a command byte can carry: five bits.
pub const MAX_VALUE: u8 = 0x1f;

/// The eight commands the chip understands.
///
/// Each has a fixed three-bit opcode that occupies bits 7 to 5 of the wire byte.
#[derive(Clone, Copy)]
pub enum Command {
    Shutdown,
    SetMaxCurrent,
    SetRed,
    SetGreen,
    SetBlue,
    UpwardTarget,
    DownwardTarget,
    DimmingStart,
}

impl Command {
    /// The command's opcode, already shifted into the high three bits.
    pub open spec fn opcode(self) -> u8 {
        match self {
            Command::Shutdown => 0x00,
            Command::SetMaxCurrent => 0x20,
            Command::SetRed => 0x40,
            Command::SetGreen => 0x60,
            Command::SetBlue => 0x80,
            Command::UpwardTarget => 0xa0,
            Command::DownwardTarget => 0xc0,
            Command::DimmingStart => 0xe0,
        }
    }
}

/// A parameter fits the command byte when it needs no more than five bits.
pub open spec fn valid_value(value: u8) -> bool {
    value <= MAX_VALUE
}

/// A command can go out carrying `value`: shutdown ignores its value, every other
/// command needs one that fits in five bits.
pub open spec fn accepts(cmd: Command, value: u8) -> bool {
    cmd is Shutdown || valid_value(value)
}

/// The wire byte for `cmd` carrying `value`: the opcode bits or-ed with the parameter,
/// except for shutdown, which always goes out as the zero byte.
pub open spec fn encode(cmd: Command, value: u8) -> u8 {
    match cmd {
        Command::Shutdown => 0,
        _ => cmd.opcode() | value,
    }
}

proof fn lemma_or_low_bits(op: u8, value: u8)
    by (bit_vector)
    requires
        op % 32 == 0,
        value <= 31,
    ensures
        (op | value) & 0x1f == value,
        (op | value) & 0xe0 == op,
{
}

/// A valid parameter survives encoding bit for bit: the low five bits of the wire byte
/// of any command but shutdown are the parameter, and the high three bits are the
/// command's opcode.
pub proof fn lemma_encode_round_trip(cmd: Command, value: u8)
    requires
        !(cmd is Shutdown),
        valid_value(value),
    ensures
        encode(cmd, value) & 0x1f == value,
        encode(cmd, value) & 0xe0 == cmd.opcode(),
{
    lemma_or_low_bits(cmd.opcode(), value);
}

/// Shutdown's wire byte is zero, whatever value comes with it.
pub proof fn lemma_shutdown_is_zero(value: u8)
    ensures
        encode(Command::Shutdown, value) == 0,
{
}

} // verus!
