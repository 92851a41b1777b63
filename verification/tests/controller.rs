use gb::bus::GBHandlerHolder;
use gb::cartridge::Cartridge;
use gb::controller::{handle_event, key_for, Event, HostKey, InputEvent};
use gb::handler_holder::{JoypadRegister, Key};
use gb::machine::Cpu;

fn cpu() -> Cpu<GBHandlerHolder> {
    let data = vec![0u8; 0x8000];
    Cpu::new(GBHandlerHolder::new(Cartridge::from_data(&data)))
}

fn snapshot(j: &JoypadRegister) -> [bool; 10] {
    [j.p14, j.p15, j.up, j.down, j.left, j.right, j.a, j.b, j.select, j.start]
}

#[test]
fn keys_map_to_buttons() {
    assert_eq!(key_for(HostKey::Left), Some(Key::Left));
    assert_eq!(key_for(HostKey::Right), Some(Key::Right));
    assert_eq!(key_for(HostKey::Up), Some(Key::Up));
    assert_eq!(key_for(HostKey::Down), Some(Key::Down));
    assert_eq!(key_for(HostKey::A), Some(Key::A));
    assert_eq!(key_for(HostKey::S), Some(Key::B));
    assert_eq!(key_for(HostKey::D), Some(Key::Start));
    assert_eq!(key_for(HostKey::F), Some(Key::Select));
    assert_eq!(key_for(HostKey::F1), None);
    assert_eq!(key_for(HostKey::Other), None);
}

#[test]
fn function_keys_and_closing_control_the_loop() {
    let mut c = cpu();
    assert_eq!(handle_event(InputEvent::CloseRequested, &mut c), Event::Quit);
    assert_eq!(handle_event(InputEvent::Keyboard { key: HostKey::F1, pressed: true }, &mut c), Event::Break);
    assert_eq!(handle_event(InputEvent::Keyboard { key: HostKey::F2, pressed: true }, &mut c), Event::ToggleSpeed);
    assert_eq!(handle_event(InputEvent::Keyboard { key: HostKey::F1, pressed: false }, &mut c), Event::Continue);
    assert_eq!(handle_event(InputEvent::Other, &mut c), Event::Continue);
    assert!(!c.interrupt_handler.register.joypad);
}

#[test]
fn button_keys_reach_the_joypad() {
    let mut c = cpu();
    assert_eq!(handle_event(InputEvent::Keyboard { key: HostKey::S, pressed: true }, &mut c), Event::Continue);
    assert!(c.handler_holder.inner.joypad_register.b);
    assert!(c.interrupt_handler.register.joypad);
    c.interrupt_handler.register.joypad = false;
    assert_eq!(handle_event(InputEvent::Keyboard { key: HostKey::S, pressed: false }, &mut c), Event::Continue);
    assert!(!c.handler_holder.inner.joypad_register.b);
    assert!(c.interrupt_handler.register.joypad);
}

#[test]
fn pressing_and_releasing_a_key_restores_the_joypad() {
    let mut c = cpu();
    let before = snapshot(&c.handler_holder.inner.joypad_register);
    handle_event(InputEvent::Keyboard { key: HostKey::Up, pressed: true }, &mut c);
    assert!(c.handler_holder.inner.joypad_register.up);
    handle_event(InputEvent::Keyboard { key: HostKey::Up, pressed: false }, &mut c);
    assert_eq!(snapshot(&c.handler_holder.inner.joypad_register), before);
}
