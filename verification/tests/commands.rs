use happy::packets::{mode_command, power_command, rgb_command};
use happy::controller::{Controller, WriteType};
use happy::modes::{modes, FIRST_MODE_VALUE, MODE_COUNT};

#[test]
fn power_on_command_bytes() {
    assert_eq!(power_command(true), vec![204, 35, 51]);
}

#[test]
fn power_off_command_bytes() {
    assert_eq!(power_command(false), vec![204, 36, 51]);
}

#[test]
fn power_commands_differ() {
    assert_ne!(power_command(true), power_command(false));
}

#[test]
fn rgb_command_bytes() {
    assert_eq!(rgb_command(1, 2, 3, 4), vec![86, 1, 2, 3, 4, 240, 170]);
    assert_eq!(rgb_command(255, 0, 128, 0), vec![86, 255, 0, 128, 0, 255 - 15, 255 - 85]);
}

#[test]
fn rgb_commands_of_different_colours_differ() {
    assert_ne!(rgb_command(1, 2, 3, 0), rgb_command(3, 2, 1, 0));
    assert_ne!(rgb_command(1, 2, 3, 0), rgb_command(1, 2, 3, 1));
}

#[test]
fn mode_command_bytes() {
    assert_eq!(mode_command(37, 0), vec![187, 37, 0, 68]);
    assert_eq!(mode_command(58, 255), vec![255 - 68, 58, 255, 68]);
}

#[test]
fn command_kinds_have_distinct_headers() {
    let p = power_command(true);
    let r = rgb_command(0, 0, 0, 0);
    let m = mode_command(36, 0);
    assert_eq!((p.len(), r.len(), m.len()), (3, 7, 4));
    assert_ne!(p[0], r[0]);
    assert_ne!(p[0], m[0]);
    assert_ne!(r[0], m[0]);
}

#[test]
fn mode_table_contents() {
    let table = modes();
    assert_eq!(table.len(), MODE_COUNT);
    assert_eq!(table[0].name(), "Normal");
    assert_eq!(table[0].value(), 36);
    assert_eq!(table[12].name(), "RainbowStrobe");
    assert_eq!(table[12].value(), 48);
    assert_eq!(table[22].name(), "RgbJumpingChange");
    assert_eq!(table[22].value(), 58);
}

#[test]
fn mode_values_are_consecutive_and_names_distinct() {
    let table = modes();
    for (i, m) in table.iter().enumerate() {
        assert_eq!(m.value() as usize, FIRST_MODE_VALUE as usize + i);
        for other in table.iter().skip(i + 1) {
            assert_ne!(m.name(), other.name());
        }
    }
}

#[test]
fn controller_writes_to_its_peripheral_and_characteristic() {
    let mut c: Controller<String, u32> = Controller::new();
    c.set_peripheral("AA:BB".to_string());
    c.set_char(7);
    let w = c.set_power(true);
    assert_eq!(w.peripheral, "AA:BB");
    assert_eq!(*w.characteristic, 7);
    assert_eq!(w.data, vec![204, 35, 51]);
    assert_eq!(w.write_type, WriteType::WithoutResponse);
}

#[test]
fn controller_setup_in_either_order() {
    let mut c: Controller<String, u32> = Controller::new();
    c.set_char(3);
    c.set_peripheral("p".to_string());
    let w = c.set_rgb(10, 20, 30, 0);
    assert_eq!(w.peripheral, "p");
    assert_eq!(*w.characteristic, 3);
    assert_eq!(w.data, vec![86, 10, 20, 30, 0, 240, 170]);
}

#[test]
fn controller_set_mode_and_disconnect() {
    let mut c: Controller<String, u32> = Controller::new();
    c.set_peripheral("first".to_string());
    c.set_peripheral("second".to_string());
    c.set_char(1);
    let w = c.set_mode(40, 5);
    assert_eq!(w.data, vec![187, 40, 5, 68]);
    assert_eq!(w.peripheral, "second");
    assert_eq!(c.disconnect(), "second");
}
