use space_invaders::cpu::{EmuError, PortDir};
use space_invaders::space_invader::{
    Controls, FOREGROUND, FRAME_PIXELS, GameState, IOState, SCREEN_WIDTH, SpaceInvaderIO,
};

#[test]
fn shift_register() {
    let mut io = SpaceInvaderIO::new();
    assert_eq!(io.output(4, 0xAA), Ok(()));
    assert_eq!(io.output(4, 0xBB), Ok(()));
    assert_eq!(io.output(2, 0x04), Ok(()));
    assert_eq!(io.input(3), Ok(0xBA));
    assert_eq!(io.shift_register.both(), 0xBBAA);
}

#[test]
fn shift_register_offsets() {
    let mut io = SpaceInvaderIO::new();
    io.output(4, 0x0F).unwrap();
    io.output(4, 0xF0).unwrap();
    io.output(2, 0).unwrap();
    assert_eq!(io.input(3), Ok(0xF0));
    io.output(2, 7).unwrap();
    assert_eq!(io.input(3), Ok(0x07));
    // only the low three bits set the offset
    io.output(2, 0xFC).unwrap();
    assert_eq!(io.shift_offset, 4);
    assert_eq!(io.input(3), Ok(0x00));
}

#[test]
fn sound_and_watchdog_ports_are_accepted() {
    let mut io = SpaceInvaderIO::new();
    let before = io;
    for port in [3u8, 5, 6] {
        assert_eq!(io.output(port, 0xFF), Ok(()));
    }
    assert_eq!(io, before);
}

#[test]
fn unknown_ports_fail() {
    let mut io = SpaceInvaderIO::new();
    assert_eq!(io.input(4), Err(EmuError::UnsupportedPort { port: 4, dir: PortDir::In }));
    assert_eq!(io.output(0, 1), Err(EmuError::UnsupportedPort { port: 0, dir: PortDir::Out }));
    assert_eq!(io.output(7, 1), Err(EmuError::UnsupportedPort { port: 7, dir: PortDir::Out }));
}

#[test]
fn io_power_on_values() {
    let io = SpaceInvaderIO::new();
    assert_eq!(io.input(0), Ok(0b0111_0000));
    assert_eq!(io.input(1), Ok(0b0001_0000));
    assert_eq!(io.input(2), Ok(0));
    assert_eq!(io.input(3), Ok(0));
}

fn pixel_index(video_byte: usize, bit: usize) -> usize {
    let k = 8 * video_byte + bit;
    let x = k / 256;
    let y = 255 - k % 256;
    x + SCREEN_WIDTH * y
}

#[test]
fn frame_runs_and_renders() {
    // MVI A,0x81; STA 0x2400; MVI A,0x01; STA 0x3FFF; NOP; JMP 0x000B
    let rom = [0x3E, 0x81, 0x32, 0x00, 0x24, 0x3E, 0x01, 0x32, 0xFF, 0x3F, 0x00, 0xC3, 0x0B, 0x00];
    let mut game = GameState::new_game(&rom).expect("fits");
    assert!(game.frame_buffer().iter().all(|p| *p == 0));
    assert_eq!(game.next_frame(), Ok(()));
    let frame = game.frame_buffer();
    assert_eq!(frame.len(), FRAME_PIXELS);
    assert_eq!(frame[pixel_index(0, 0)], FOREGROUND);
    assert_eq!(frame[pixel_index(0, 7)], FOREGROUND);
    assert_eq!(frame[pixel_index(0, 1)], 0);
    assert_eq!(frame[pixel_index(0x1BFF, 0)], FOREGROUND);
    // bit 0 of the first byte is the bottom-left pixel, bit 7 of the last the top-right
    assert_eq!(pixel_index(0, 0), SCREEN_WIDTH * 255);
    assert_eq!(pixel_index(0x1BFF, 7), 223);
    assert_eq!(frame.iter().filter(|p| **p == FOREGROUND).count(), 3);
    // interrupts stay disabled, so the program is still in its loop
    assert_eq!(game.cpu().pc, 0x000B);
    assert_eq!(game.cpu().sp, 0);
}

#[test]
fn mid_frame_interrupt_is_taken() {
    // EI; JMP 0x0001; RST 1 handler at 0x0008: MVI A,0x42; STA 0x2500; JMP 0x0008
    let mut rom = vec![0u8; 0x20];
    rom[..4].copy_from_slice(&[0xFB, 0xC3, 0x01, 0x00]);
    rom[0x08..0x10].copy_from_slice(&[0x3E, 0x42, 0x32, 0x00, 0x25, 0xC3, 0x0D, 0x00]);
    let mut game = GameState::new_game(&rom).expect("fits");
    assert_eq!(game.next_frame(), Ok(()));
    assert_eq!(game.cpu().memory()[0x2500], 0x42);
    // interrupts were disabled by the first one, so the second was ignored
    assert_eq!(game.cpu().pc, 0x000D);
    assert_eq!(game.cpu().sp, 0xFFFE);
}

#[test]
fn frame_stops_on_halt() {
    let rom = [0x00, 0x00, 0x76];
    let mut game = GameState::new_game(&rom).expect("fits");
    assert_eq!(game.next_frame(), Err(EmuError::Halted { pc: 2 }));
}

#[test]
fn game_rom_too_large() {
    let rom = vec![0u8; 0x10001];
    assert_eq!(
        GameState::new_game(&rom).err(),
        Some(EmuError::RomTooLarge { offset: 0, len: 0x10001 })
    );
}

#[test]
fn controls_set_port_bits() {
    let rom = [0x00];
    let mut game = GameState::new_game(&rom).expect("fits");
    let mut c = Controls {
        coin: true,
        start1: true,
        start2: false,
        p1_left: false,
        p1_right: true,
        p1_fire: true,
        p2_left: true,
        p2_right: false,
        p2_fire: false,
    };
    game.handle_input(c);
    assert_eq!(game.io_state().port1, 0b0101_0101);
    assert_eq!(game.io_state().port2, 0b0010_0000);
    c.coin = false;
    c.start1 = false;
    c.start2 = true;
    c.p1_left = true;
    c.p1_right = false;
    c.p1_fire = false;
    c.p2_left = false;
    c.p2_fire = true;
    c.p2_right = true;
    game.handle_input(c);
    assert_eq!(game.io_state().port1, 0b0010_0010);
    assert_eq!(game.io_state().port2, 0b0101_0000);
}
