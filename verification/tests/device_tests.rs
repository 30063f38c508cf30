use intel8080_emu::cpu::{Intel8080, Stop};
use intel8080_emu::io::bus::IoBus;
use intel8080_emu::io::device::IoDevice;
use intel8080_emu::io::devices::console::{key_action, Console, Key, KeyAction, KeyPress};
use intel8080_emu::io::devices::null::NullDevice;
use intel8080_emu::io::devices::test_console::TestConsole;
use intel8080_emu::io::devices::timer::Timer;
use intel8080_emu::memory::{FlatMemory, Memory};

fn console_bus(input: &str) -> (IoBus<TestConsole>, usize) {
    let mut bus = IoBus::new();
    let id = bus.add_device(TestConsole::new(input));
    assert!(bus.map_port(0x00, id));
    assert!(bus.map_port(0x01, id));
    assert!(bus.map_port(0x02, id));
    (bus, id)
}

#[test]
fn test_unbound_port_reads_floating_bus() {
    let mut bus: IoBus<NullDevice> = IoBus::new();
    for port in [0x00u8, 0x10, 0x30, 0xFF] {
        assert_eq!(bus.read(port), 0xFF);
        bus.write(port, 0x42);
        assert_eq!(bus.port_device(port), None);
    }
    assert_eq!(bus.device_count(), 0);
}

#[test]
fn test_map_port_refuses_unknown_device() {
    let mut bus: IoBus<NullDevice> = IoBus::new();
    assert!(!bus.map_port(0x10, 0));
    assert_eq!(bus.port_device(0x10), None);
    let id = bus.add_device(NullDevice);
    assert_eq!(id, 0);
    assert!(!bus.map_port(0x10, 1));
    assert!(bus.map_port(0x10, id));
    assert_eq!(bus.port_device(0x10), Some(0));
    assert_eq!(bus.port_device(0x11), None);
    assert!(bus.device(0).is_some());
    assert!(bus.device(1).is_none());
}

#[test]
fn test_one_device_on_two_ports_shares_state() {
    let mut bus = IoBus::new();
    let id = bus.add_device(Timer::new());
    assert!(bus.map_port(0x30, id));
    assert!(bus.map_port(0x31, id));
    bus.write(0x30, 0x34);
    assert_eq!(bus.read(0x30), 0x00);
    bus.write(0x31, 0x12);
    assert_eq!(bus.read(0x30), 0x34);
    assert_eq!(bus.read(0x31), 0x12);
}

#[test]
fn test_console_on_three_ports_shares_state() {
    let (mut bus, id) = console_bus("AB");
    assert_eq!(bus.read(0x02), 0x03);
    assert_eq!(bus.read(0x01), b'A');
    assert_eq!(bus.read(0x01), b'B');
    assert_eq!(bus.read(0x02), 0x02);
    assert_eq!(bus.read(0x01), 0);
    bus.write(0x00, b'o');
    bus.write(0x00, b'k');
    bus.write(0x01, b'x');
    assert_eq!(bus.device(id).unwrap().get_output(), "ok");
    assert_eq!(bus.device(id).unwrap().output_bytes(), b"ok");
}

#[test]
fn test_two_devices_keep_apart() {
    let mut bus = IoBus::new();
    let first = bus.add_device(TestConsole::new("1"));
    let second = bus.add_device(TestConsole::new("2"));
    assert!(bus.map_port(0x01, first));
    assert!(bus.map_port(0x00, second));
    bus.write(0x00, b'z');
    assert_eq!(bus.device(first).unwrap().output_bytes(), b"");
    assert_eq!(bus.device(second).unwrap().output_bytes(), b"z");
    assert_eq!(bus.read(0x01), b'1');
    assert!(bus.map_port(0x01, second));
    assert_eq!(bus.read(0x01), b'2');
}

#[test]
fn test_engine_talks_to_console() {
    let (bus, id) = console_bus("Hi");
    let mut cpu = Intel8080::with_io_bus(bus);
    cpu.load_program(
        &[
            0xDB, 0x02, // IN 02h
            0x47, // MOV B,A
            0xDB, 0x01, // IN 01h
            0xD3, 0x00, // OUT 00h
            0xDB, 0x01, // IN 01h
            0xD3, 0x00, // OUT 00h
            0xDB, 0x02, // IN 02h
            0x76,
        ],
        0,
    );
    assert_eq!(cpu.run_for(100).stop, Stop::Halted);
    assert_eq!(cpu.b, 0x03);
    assert_eq!(cpu.a, 0x02);
    assert_eq!(cpu.io_bus().device(id).unwrap().get_output(), "Hi");
    assert_eq!(cpu.cycles, 5 * 10 + 10 + 5 + 7);
}

#[test]
fn test_engine_reads_floating_bus_on_unbound_port() {
    let mut cpu = Intel8080::new();
    cpu.load_program(&[0xDB, 0x10, 0x76], 0);
    assert_eq!(cpu.execute_one(), 10);
    assert_eq!(cpu.a, 0xFF);
}

#[test]
fn test_io_bus_mut_wires_devices_later() {
    let mut cpu: Intel8080<TestConsole> = Intel8080::with_io_bus(IoBus::new());
    let id = cpu.io_bus_mut().add_device(TestConsole::new("x"));
    assert!(cpu.io_bus_mut().map_port(0x01, id));
    cpu.load_program(&[0xDB, 0x01, 0x76], 0);
    cpu.execute_one();
    assert_eq!(cpu.a, b'x');
}

#[test]
fn test_timer_ports_bypass_the_bus() {
    let (mut bus, id) = console_bus("");
    assert!(bus.map_port(0x30, id));
    assert!(bus.map_port(0x31, id));
    assert!(bus.map_port(0x32, id));
    let mut cpu = Intel8080::with_io_bus(bus);
    cpu.load_program(
        &[
            0x3E, 0x10, 0xD3, 0x30, // reload low = 10h
            0x3E, 0x00, 0xD3, 0x31, // reload high = 0, counter loaded
            0x3E, 0x01, 0xD3, 0x32, // enable
            0xDB, 0x32, // status
            0x76,
        ],
        0,
    );
    for _ in 0..6 {
        cpu.execute_one();
    }
    assert_eq!(cpu.timer.read(0x30), 0x10 - 10);
    cpu.execute_one();
    assert_eq!(cpu.a, 0x01);
    assert!(cpu.timer.interrupt_pending);
    assert_eq!(cpu.timer.read(0x30), 0x10);
    assert_eq!(cpu.io_bus().device(id).unwrap().output_bytes(), b"");
}

#[test]
fn test_timer_registers() {
    let mut timer = Timer::new();
    assert_eq!(timer.read(0x30), 0);
    assert_eq!(timer.read(0x31), 0);
    assert_eq!(timer.read(0x32), 0);
    assert_eq!(timer.read(0x33), 0xFF);
    timer.write(0x30, 0xCD);
    assert_eq!(timer.read(0x30), 0);
    timer.write(0x31, 0xAB);
    assert_eq!(timer.read(0x30), 0xCD);
    assert_eq!(timer.read(0x31), 0xAB);
    timer.write(0x30, 0x01);
    assert_eq!(timer.read(0x30), 0xCD);
    timer.write(0x32, 0x01);
    assert_eq!(timer.read(0x32), 0x01);
    timer.write(0x40, 0xFF);
    assert_eq!(timer.read(0x32), 0x01);
}

#[test]
fn test_timer_tick() {
    let mut timer = Timer::new();
    timer.write(0x30, 20);
    timer.write(0x31, 0);
    timer.tick(7);
    assert_eq!(timer.read(0x30), 20);
    timer.write(0x32, 0x01);
    timer.tick(7);
    assert_eq!(timer.read(0x30), 13);
    assert!(!timer.interrupt_pending);
    timer.tick(12);
    assert_eq!(timer.read(0x30), 1);
    timer.tick(1);
    assert_eq!(timer.read(0x30), 20);
    assert!(timer.interrupt_pending);
    assert_eq!(timer.read(0x32), 0x03);
    timer.tick(100);
    assert_eq!(timer.read(0x30), 20);
    timer.write(0x32, 0x03);
    assert!(!timer.interrupt_pending);
    assert_eq!(timer.read(0x32), 0x01);
    timer.tick(0x1_0000);
    assert_eq!(timer.read(0x30), 20);
    assert!(timer.interrupt_pending);
}

#[test]
fn test_timer_stands_still_without_reload_value() {
    let mut timer = Timer::new();
    timer.write(0x32, 0x01);
    timer.tick(50);
    assert_eq!(timer.read(0x30), 0);
    assert!(!timer.interrupt_pending);
}

#[test]
fn test_timer_check_interrupt_clears() {
    let mut timer = Timer::new();
    assert!(!timer.check_interrupt());
    timer.interrupt_pending = true;
    assert!(timer.interrupt_requested());
    assert!(timer.check_interrupt());
    assert!(!timer.interrupt_pending);
    assert!(!timer.check_interrupt());
}

#[test]
fn test_interrupt_delivery_replaces_the_fetch() {
    let mut cpu = Intel8080::new();
    cpu.load_program(&[0x3C, 0x3C], 0x0100);
    cpu.write_byte(0x0038, 0x04);
    cpu.sp = 0xF000;
    cpu.interrupts_enabled = true;
    cpu.timer.interrupt_pending = true;
    assert_eq!(cpu.execute_one(), 0);
    assert_eq!(cpu.pc, 0x0038);
    assert_eq!(cpu.sp, 0xEFFE);
    assert_eq!(cpu.read_word(0xEFFE), 0x0100);
    assert!(!cpu.interrupts_enabled);
    assert!(!cpu.timer.interrupt_pending);
    assert_eq!(cpu.a, 0);
    assert_eq!(cpu.b, 0);
    assert_eq!(cpu.cycles, 0);
    assert_eq!(cpu.execute_one(), 5);
    assert_eq!(cpu.b, 1);
}

#[test]
fn test_no_interrupt_while_disabled() {
    let mut cpu = Intel8080::new();
    cpu.load_program(&[0x3C], 0x0100);
    cpu.timer.interrupt_pending = true;
    assert_eq!(cpu.execute_one(), 5);
    assert_eq!(cpu.pc, 0x0101);
    assert!(cpu.timer.interrupt_pending);
}

#[test]
fn test_interrupt_is_deliverable_over_unknown_opcode() {
    let mut cpu = Intel8080::new();
    cpu.load_program(&[0xED], 0x0100);
    cpu.interrupts_enabled = true;
    cpu.timer.interrupt_pending = true;
    assert!(cpu.can_step());
    assert_eq!(cpu.step(), Ok(0));
    assert_eq!(cpu.pc, 0x0038);
}

#[test]
fn test_timer_interrupt_end_to_end() {
    let mut cpu = Intel8080::new();
    cpu.load_program(
        &[
            0x3E, 0x08, 0xD3, 0x30, // reload low = 8
            0x3E, 0x00, 0xD3, 0x31, // reload high = 0, counter loaded
            0x3E, 0x01, 0xD3, 0x32, // enable
            0xFB, // EI
            0x00, 0x00, 0x00, 0x00, 0x76,
        ],
        0,
    );
    cpu.write_byte(0x0038, 0x76);
    let summary = cpu.run_for(100);
    assert_eq!(summary.stop, Stop::Halted);
    assert_eq!(summary.steps, 9);
    assert_eq!(cpu.pc, 0x0039);
    assert_eq!(cpu.read_word(cpu.sp), 0x000D);
    assert!(!cpu.interrupts_enabled);
    assert_eq!(cpu.cycles, 3 * 17 + 4 + 7);
}

#[test]
fn test_test_console_script() {
    let mut console = TestConsole::new("a");
    console.add_input("bc");
    assert_eq!(console.read(0x02), 0x03);
    assert_eq!(console.read(0x01), b'a');
    assert_eq!(console.read(0x01), b'b');
    assert_eq!(console.read(0x01), b'c');
    assert_eq!(console.read(0x01), 0);
    assert_eq!(console.read(0x02), 0x02);
    assert_eq!(console.read(0x00), 0xFF);
    console.write(0x00, b'H');
    console.write(0x00, b'i');
    console.write(0x02, b'!');
    assert_eq!(console.get_output(), "Hi");
    assert_eq!(console.output_bytes(), &[b'H', b'i']);
    console.write(0x00, 0xFF);
    assert_eq!(console.get_output(), "Hi\u{FFFD}");
    console.clear_output();
    assert_eq!(console.get_output(), "");
    assert_eq!(console.output_bytes().len(), 0);
}

#[test]
fn test_test_console_takes_utf8_bytes() {
    let mut console = TestConsole::new("\u{e9}");
    assert_eq!(console.read(0x01), 0xC3);
    assert_eq!(console.read(0x01), 0xA9);
    assert_eq!(console.read(0x01), 0);
}

#[test]
fn test_null_device() {
    let mut device = NullDevice;
    device.write(0x00, 0x12);
    assert_eq!(device.read(0x00), 0xFF);
    assert_eq!(device.read(0x77), 0xFF);
}

#[test]
fn test_flat_memory() {
    let mut memory = FlatMemory::new();
    assert_eq!(memory.read(0x0000), 0);
    assert_eq!(memory.read(0xFFFF), 0);
    memory.write(0xFFFF, 0x12);
    memory.write(0x0000, 0x34);
    assert_eq!(memory.read(0xFFFF), 0x12);
    assert_eq!(memory.load(0x0000), 0x34);
    memory.store(0x8000, 0x56);
    assert_eq!(memory.read(0x8000), 0x56);
    assert_eq!(memory.read(0x8001), 0);
}

fn press(key: Key) -> KeyPress {
    KeyPress { key, control: false, pressed: true }
}

#[test]
fn test_key_actions() {
    assert_eq!(key_action(press(Key::Char('a'))), KeyAction::Input(b'a'));
    assert_eq!(key_action(press(Key::Char('c'))), KeyAction::Input(b'c'));
    assert_eq!(key_action(press(Key::Enter)), KeyAction::Input(0x0D));
    assert_eq!(key_action(press(Key::Backspace)), KeyAction::Input(0x08));
    assert_eq!(key_action(press(Key::Other)), KeyAction::Ignore);
    assert_eq!(key_action(press(Key::Char('\u{141}'))), KeyAction::Input(0x41));
    assert_eq!(
        key_action(KeyPress { key: Key::Char('c'), control: true, pressed: true }),
        KeyAction::Quit
    );
    assert_eq!(
        key_action(KeyPress { key: Key::Char('d'), control: true, pressed: true }),
        KeyAction::Input(b'd')
    );
    assert_eq!(
        key_action(KeyPress { key: Key::Char('c'), control: true, pressed: false }),
        KeyAction::Ignore
    );
    assert_eq!(
        key_action(KeyPress { key: Key::Enter, control: false, pressed: false }),
        KeyAction::Ignore
    );
}

#[test]
fn test_console_buffer() {
    let mut console = Console::new();
    assert!(!console.has_input());
    assert_eq!(console.status(), 0x02);
    assert_eq!(console.take_input(), 0);
    console.queue_input(b'x');
    assert_eq!(console.accept(press(Key::Enter)), KeyAction::Input(0x0D));
    assert_eq!(console.accept(press(Key::Other)), KeyAction::Ignore);
    assert!(console.has_input());
    assert_eq!(console.read_port(0x02), 0x03);
    assert_eq!(console.read_port(0x01), b'x');
    assert_eq!(console.read_port(0x05), 0xFF);
    assert_eq!(console.read_port(0x01), 0x0D);
    assert_eq!(console.read_port(0x01), 0);
    assert_eq!(console.read_port(0x02), 0x02);
}

#[test]
fn test_device_mut_reaches_the_registered_device() {
    let (mut bus, id) = console_bus("");
    assert_eq!(bus.read(0x02), 0x02);
    bus.device_mut(id).unwrap().add_input("q");
    assert_eq!(bus.read(0x02), 0x03);
    assert_eq!(bus.read(0x01), b'q');
    assert!(bus.device_mut(id + 1).is_none());
    bus.write(0x00, b'!');
    bus.device_mut(id).unwrap().clear_output();
    assert_eq!(bus.device(id).unwrap().output_bytes(), b"");
}

#[test]
fn test_timer_accessors_reach_the_embedded_timer() {
    let mut cpu = Intel8080::new();
    assert!(!cpu.timer().interrupt_requested());
    cpu.timer_mut().set_interrupt_pending(true);
    assert!(cpu.timer().interrupt_requested());
    assert!(cpu.timer.interrupt_pending);
    cpu.timer_mut().write(0x30, 0x05);
    cpu.timer_mut().write(0x31, 0x00);
    cpu.timer_mut().write(0x32, 0x03);
    assert!(!cpu.timer().interrupt_requested());
    cpu.timer_mut().tick(4);
    assert_eq!(cpu.timer_mut().read(0x30), 1);
    cpu.load_program(&[0xDB, 0x30, 0x76], 0);
    cpu.execute_one();
    assert_eq!(cpu.a, 1);
    assert!(cpu.timer().interrupt_requested());
    cpu.timer_mut().set_interrupt_pending(false);
    assert!(!cpu.timer.interrupt_pending);
}

#[test]
fn test_interrupt_set_up_through_setters() {
    let mut cpu = Intel8080::new();
    cpu.set_sp(0xF000);
    cpu.set_pc(0x0100);
    cpu.set_interrupts_enabled(true);
    cpu.timer_mut().set_interrupt_pending(true);
    assert_eq!(cpu.execute_one(), 0);
    assert_eq!(cpu.pc, 0x0038);
    assert_eq!(cpu.sp, 0xEFFE);
    assert_eq!(cpu.read_word(0xEFFE), 0x0100);
    assert!(!cpu.interrupts_enabled);
    assert!(!cpu.timer.interrupt_pending);
}

#[test]
fn test_stack_from_power_on_wraps_below_zero() {
    let mut cpu = Intel8080::new();
    cpu.load_program(&[0xC5, 0xC1, 0x76], 0x0100);
    cpu.set_bc(0xBEEF);
    cpu.execute_one();
    assert_eq!(cpu.sp, 0xFFFE);
    assert_eq!(cpu.read_word(0xFFFE), 0xBEEF);
    cpu.set_bc(0);
    cpu.execute_one();
    assert_eq!(cpu.sp, 0x0000);
    assert_eq!(cpu.get_bc(), 0xBEEF);
}
