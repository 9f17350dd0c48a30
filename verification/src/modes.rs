use vstd::prelude::*;

verus! {

/// Number of built-in modes of the strip.
pub const MODE_COUNT: usize = 23;

/// Command value of the first built-in mode; the others follow in order.
pub const FIRST_MODE_VALUE: u8 = 36;

/// A built-in mode of the strip: its name and the value a mode command carries.
#[derive(Clone, Copy, Debug)]
pub struct Mode {
    name: &'static str,
    value: u8,
}

impl View for Mode {
    type V = (Seq<char>, u8);

    closed spec fn view(&self) -> (Seq<char>, u8) {
        (self.name@, self.value)
    }
}

impl Mode {
    /// A mode with the given name and command value.
    pub fn new(name: &'static str, value: u8) -> (m: Mode)
        ensures
            m@ == (name@, value),
    {
        Mode { name, value }
    }

    /// The mode's name.
    pub fn name(&self) -> (n: &'static str)
        ensures
            n@ == self@.0,
    {
        self.name
    }

    /// The value a mode command carries to select this mode.
    pub fn value(&self) -> (v: u8)
        ensures
            v == self@.1,
    {
        self.value
    }
}

/// Name of the built-in mode at position `i` of the table.
pub open spec fn mode_name(i: int) -> Seq<char> {
    if i == 0 { "Normal"@ }
    else if i == 1 { "PulsatingRainbow"@ }
    else if i == 2 { "PulsatingRed"@ }
    else if i == 3 { "PulsatingGreen"@ }
    else if i == 4 { "PulsatingBlue"@ }
    else if i == 5 { "PulsatingYellow"@ }
    else if i == 6 { "PulsatingCyan"@ }
    else if i == 7 { "PulsatingPurple"@ }
    else if i == 8 { "PulsatingWhite"@ }
    else if i == 9 { "PulsatingRedGreen"@ }
    else if i == 10 { "PulsatingRedBlue"@ }
    else if i == 11 { "PulsatingGreenBlue"@ }
    else if i == 12 { "RainbowStrobe"@ }
    else if i == 13 { "RedStrobe"@ }
    else if i == 14 { "GreenStrobe"@ }
    else if i == 15 { "BlueStrobe"@ }
    else if i == 16 { "YellowStrobe"@ }
    else if i == 17 { "CyanStrobe"@ }
    else if i == 18 { "PurpleStrobe"@ }
    else if i == 19 { "WhiteStrobe"@ }
    else if i == 20 { "RainbowJumpingChange"@ }
    else if i == 21 { "PulsatingRgb"@ }
    else { "RgbJumpingChange"@ }
}

/// The mode at position `i` of the table, as a view.
pub open spec fn mode_entry(i: int) -> (Seq<char>, u8) {
    (mode_name(i), (FIRST_MODE_VALUE + i) as u8)
}

/// The table of built-in modes, in the order of their values.
pub fn modes() -> (table: Vec<Mode>)
    ensures
        table@.len() == MODE_COUNT,
        forall|i: int| 0 <= i < MODE_COUNT ==> #[trigger] table@[i]@ == mode_entry(i),
{
    let table: Vec<Mode> = vec![
        Mode::new("Normal", 36),
        Mode::new("PulsatingRainbow", 37),
        Mode::new("PulsatingRed", 38),
        Mode::new("PulsatingGreen", 39),
        Mode::new("PulsatingBlue", 40),
        Mode::new("PulsatingYellow", 41),
        Mode::new("PulsatingCyan", 42),
        Mode::new("PulsatingPurple", 43),
        Mode::new("PulsatingWhite", 44),
        Mode::new("PulsatingRedGreen", 45),
        Mode::new("PulsatingRedBlue", 46),
        Mode::new("PulsatingGreenBlue", 47),
        Mode::new("RainbowStrobe", 48),
        Mode::new("RedStrobe", 49),
        Mode::new("GreenStrobe", 50),
        Mode::new("BlueStrobe", 51),
        Mode::new("YellowStrobe", 52),
        Mode::new("CyanStrobe", 53),
        Mode::new("PurpleStrobe", 54),
        Mode::new("WhiteStrobe", 55),
        Mode::new("RainbowJumpingChange", 56),
        Mode::new("PulsatingRgb", 57),
        Mode::new("RgbJumpingChange", 58),
    ];
    table
}

/// The values of the modes are consecutive: the mode at position `i` is
/// selected by `FIRST_MODE_VALUE + i`, so no two modes share a value.
pub proof fn lemma_mode_values_consecutive(i: int, j: int)
    requires
        0 <= i < MODE_COUNT,
        0 <= j < MODE_COUNT,
    ensures
        mode_entry(i).1 == FIRST_MODE_VALUE + i,
        i != j ==> mode_entry(i).1 != mode_entry(j).1,
{
}

/// No two modes share a name.
pub proof fn lemma_mode_names_distinct(i: int, j: int)
    requires
        0 <= i < MODE_COUNT,
        0 <= j < MODE_COUNT,
        i != j,
    ensures
        mode_name(i) != mode_name(j),
{
    reveal_strlit("Normal");
    reveal_strlit("PulsatingRainbow");
    reveal_strlit("PulsatingRed");
    reveal_strlit("PulsatingGreen");
    reveal_strlit("PulsatingBlue");
    reveal_strlit("PulsatingYellow");
    reveal_strlit("PulsatingCyan");
    reveal_strlit("PulsatingPurple");
    reveal_strlit("PulsatingWhite");
    reveal_strlit("PulsatingRedGreen");
    reveal_strlit("PulsatingRedBlue");
    reveal_strlit("PulsatingGreenBlue");
    reveal_strlit("RainbowStrobe");
    reveal_strlit("RedStrobe");
    reveal_strlit("GreenStrobe");
    reveal_strlit("BlueStrobe");
    reveal_strlit("YellowStrobe");
    reveal_strlit("CyanStrobe");
    reveal_strlit("PurpleStrobe");
    reveal_strlit("WhiteStrobe");
    reveal_strlit("RainbowJumpingChange");
    reveal_strlit("PulsatingRgb");
    reveal_strlit("RgbJumpingChange");
    let a = mode_name(i);
    let b = mode_name(j);
    assert(a.len() != b.len() || a[0] != b[0] || a[a.len() - 2] != b[b.len() - 2]);
}

/// The device's assignment of names to mode values, entry by entry.
pub proof fn lemma_mode_table()
    ensures
        mode_entry(0) == ("Normal"@, 36u8),
        mode_entry(1) == ("PulsatingRainbow"@, 37u8),
        mode_entry(2) == ("PulsatingRed"@, 38u8),
        mode_entry(3) == ("PulsatingGreen"@, 39u8),
        mode_entry(4) == ("PulsatingBlue"@, 40u8),
        mode_entry(5) == ("PulsatingYellow"@, 41u8),
        mode_entry(6) == ("PulsatingCyan"@, 42u8),
        mode_entry(7) == ("PulsatingPurple"@, 43u8),
        mode_entry(8) == ("PulsatingWhite"@, 44u8),
        mode_entry(9) == ("PulsatingRedGreen"@, 45u8),
        mode_entry(10) == ("PulsatingRedBlue"@, 46u8),
        mode_entry(11) == ("PulsatingGreenBlue"@, 47u8),
        mode_entry(12) == ("RainbowStrobe"@, 48u8),
        mode_entry(13) == ("RedStrobe"@, 49u8),
        mode_entry(14) == ("GreenStrobe"@, 50u8),
        mode_entry(15) == ("BlueStrobe"@, 51u8),
        mode_entry(16) == ("YellowStrobe"@, 52u8),
        mode_entry(17) == ("CyanStrobe"@, 53u8),
        mode_entry(18) == ("PurpleStrobe"@, 54u8),
        mode_entry(19) == ("WhiteStrobe"@, 55u8),
        mode_entry(20) == ("RainbowJumpingChange"@, 56u8),
        mode_entry(21) == ("PulsatingRgb"@, 57u8),
        mode_entry(22) == ("RgbJumpingChange"@, 58u8),
{
}

} // verus!
