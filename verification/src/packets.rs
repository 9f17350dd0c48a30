use vstd::prelude::*;

verus! {

/// First byte of a power command.
pub const POWER_HEADER: u8 = 0xCC;
/// Middle byte of the command that turns the strip on.
pub const POWER_ON: u8 = 0x23;
/// Middle byte of the command that turns the strip off.
pub const POWER_OFF: u8 = 0x24;
/// Last byte of a power command.
pub const POWER_TRAILER: u8 = 0x33;

/// First byte of a colour command.
pub const RGB_HEADER: u8 = 0x56;
/// Second to last byte of a colour command.
pub const RGB_MARKER: u8 = 0xF0;
/// Last byte of a colour command.
pub const RGB_TRAILER: u8 = 0xAA;

/// First byte of a mode command.
pub const MODE_HEADER: u8 = 0xBB;
/// Last byte of a mode command.
pub const MODE_TRAILER: u8 = 0x44;

/// The bytes that switch the strip on (`on`) or off.
pub open spec fn power_packet(on: bool) -> Seq<u8> {
    seq![POWER_HEADER, if on { POWER_ON } else { POWER_OFF }, POWER_TRAILER]
}

/// The bytes that set the colour `(r, g, b)` with the fourth channel `q`.
pub open spec fn rgb_packet(r: u8, g: u8, b: u8, q: u8) -> Seq<u8> {
    seq![RGB_HEADER, r, g, b, q, RGB_MARKER, RGB_TRAILER]
}

/// The bytes that select the built-in `mode` at the given `speed`.
pub open spec fn mode_packet(mode: u8, speed: u8) -> Seq<u8> {
    seq![MODE_HEADER, mode, speed, MODE_TRAILER]
}

/// Builds the power command.
pub fn power_command(on: bool) -> (data: Vec<u8>)
    ensures
        data@ == power_packet(on),
{
    let middle: u8 = if on { POWER_ON } else { POWER_OFF };
    let v: Vec<u8> = vec![POWER_HEADER, middle, POWER_TRAILER];
    assert(v@ =~= power_packet(on));
    v
}

/// Builds the colour command.
pub fn rgb_command(r: u8, g: u8, b: u8, q: u8) -> (data: Vec<u8>)
    ensures
        data@ == rgb_packet(r, g, b, q),
{
    let v: Vec<u8> = vec![RGB_HEADER, r, g, b, q, RGB_MARKER, RGB_TRAILER];
    assert(v@ =~= rgb_packet(r, g, b, q));
    v
}

/// Builds the mode command; the speed is sent as its low byte.
pub fn mode_command(mode: u8, speed: u8) -> (data: Vec<u8>)
    ensures
        data@ == mode_packet(mode, speed),
{
    let low: u8 = speed & 0xFF;
    assert(low == speed) by (bit_vector)
        requires
            low == speed & 0xFF,
    ;
    let v: Vec<u8> = vec![MODE_HEADER, mode, low, MODE_TRAILER];
    assert(v@ =~= mode_packet(mode, speed));
    v
}

/// Each field of a power command stands in its own byte: 204, then 35 to
/// switch on or 36 to switch off, then 51.
pub proof fn lemma_power_packet_bytes(on: bool)
    ensures
        power_packet(on).len() == 3,
        power_packet(on)[0] == 204,
        power_packet(on)[1] == (if on { 35u8 } else { 36u8 }),
        power_packet(on)[2] == 51,
{
}

/// Each channel of a colour command lands in its own byte, in the order
/// red, green, blue, fourth channel, between the fixed bytes 86 and 240, 170.
pub proof fn lemma_rgb_packet_bytes(r: u8, g: u8, b: u8, q: u8)
    ensures
        rgb_packet(r, g, b, q).len() == 7,
        rgb_packet(r, g, b, q)[0] == 86,
        rgb_packet(r, g, b, q)[1] == r,
        rgb_packet(r, g, b, q)[2] == g,
        rgb_packet(r, g, b, q)[3] == b,
        rgb_packet(r, g, b, q)[4] == q,
        rgb_packet(r, g, b, q)[5] == 240,
        rgb_packet(r, g, b, q)[6] == 170,
{
}

/// A mode command carries the mode asked for and the speed asked for, in
/// that order, between the fixed bytes 187 and 68.
pub proof fn lemma_mode_packet_bytes(mode: u8, speed: u8)
    ensures
        mode_packet(mode, speed).len() == 4,
        mode_packet(mode, speed)[0] == 187,
        mode_packet(mode, speed)[1] == mode,
        mode_packet(mode, speed)[2] == speed,
        mode_packet(mode, speed)[3] == 68,
{
}

/// Turning the strip on and turning it off are different commands.
pub proof fn lemma_power_commands_differ()
    ensures
        power_packet(true) != power_packet(false),
{
    assert(power_packet(true)[1] != power_packet(false)[1]);
}

/// A colour command determines its colour: two colour commands are equal
/// exactly when all four channels are equal.
pub proof fn lemma_rgb_packet_injective(r1: u8, g1: u8, b1: u8, q1: u8, r2: u8, g2: u8, b2: u8, q2: u8)
    ensures
        rgb_packet(r1, g1, b1, q1) == rgb_packet(r2, g2, b2, q2) <==> (r1 == r2 && g1 == g2
            && b1 == b2 && q1 == q2),
{
    if rgb_packet(r1, g1, b1, q1) == rgb_packet(r2, g2, b2, q2) {
        assert(rgb_packet(r1, g1, b1, q1)[1] == rgb_packet(r2, g2, b2, q2)[1]);
        assert(rgb_packet(r1, g1, b1, q1)[2] == rgb_packet(r2, g2, b2, q2)[2]);
        assert(rgb_packet(r1, g1, b1, q1)[3] == rgb_packet(r2, g2, b2, q2)[3]);
        assert(rgb_packet(r1, g1, b1, q1)[4] == rgb_packet(r2, g2, b2, q2)[4]);
    }
}

/// A mode command determines its mode and its speed.
pub proof fn lemma_mode_packet_injective(m1: u8, s1: u8, m2: u8, s2: u8)
    ensures
        mode_packet(m1, s1) == mode_packet(m2, s2) <==> (m1 == m2 && s1 == s2),
{
    if mode_packet(m1, s1) == mode_packet(m2, s2) {
        assert(mode_packet(m1, s1)[1] == mode_packet(m2, s2)[1]);
        assert(mode_packet(m1, s1)[2] == mode_packet(m2, s2)[2]);
    }
}

/// The three kinds of command never coincide: each has its own first byte
/// and its own length.
pub proof fn lemma_command_kinds_distinct(on: bool, r: u8, g: u8, b: u8, q: u8, mode: u8, speed: u8)
    ensures
        power_packet(on).len() == 3,
        rgb_packet(r, g, b, q).len() == 7,
        mode_packet(mode, speed).len() == 4,
        power_packet(on)[0] == POWER_HEADER,
        rgb_packet(r, g, b, q)[0] == RGB_HEADER,
        mode_packet(mode, speed)[0] == MODE_HEADER,
        power_packet(on) != rgb_packet(r, g, b, q),
        power_packet(on) != mode_packet(mode, speed),
        rgb_packet(r, g, b, q) != mode_packet(mode, speed),
{
}

} // verus!
