use rustboy::debugger::BreakPoint;
use rustboy::mother_board::{Config, ConfigError};

#[test]
fn breakpoints_on_opcodes_and_counts() {
    let mut bp = BreakPoint::new(&[0x00C3]);
    assert!(!bp.hit(0x0000));
    assert!(bp.hit(0x00C3));
    bp.add_count(4);
    assert!(!bp.hit(0x0001));
    assert!(bp.hit(0x0001));
    bp.step_next();
    assert!(bp.hit(0x0002));
    assert!(!bp.hit(0x0002));
    bp.remove_breakpoint(0x00C3);
    assert!(!bp.hit(0x00C3));
    bp.add_breakpoint(0x0010);
    assert!(bp.hit(0x0010));
    assert_eq!(bp.counter, 8);
}

#[test]
fn config_takes_rom_path() {
    let args = vec!["rustboy".to_string(), "game.gb".to_string()];
    assert_eq!(Config::new(&args).unwrap().rom_file, "game.gb");
    let short = vec!["rustboy".to_string()];
    assert_eq!(Config::new(&short).err(), Some(ConfigError::MissingRomFile));
}
