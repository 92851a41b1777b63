//! What the front end does with an input event of its window: the function keys control the
//! emulator, and the keys of the keyboard that stand for the Game Boy's buttons press and
//! release them, each change raising the joypad interrupt.

use vstd::prelude::*;
use crate::bus::GBHandlerHolder;
use crate::handler_holder::Key;
use crate::interrupt::{Interrupt, InterruptHandler};
use crate::machine::{Cpu, noted};

verus! {

/// What the emulator's main loop does after an input event.
#[derive(PartialEq, Eq, Structural, Debug, Clone, Copy)]
pub enum Event {
    /// The window was closed.
    Quit,
    /// Stop in the debugger.
    Break,
    /// Switch between natural speed and full speed.
    ToggleSpeed,
    /// Go on running.
    Continue,
}

/// A key of the host's keyboard, as far as the emulator tells them apart.
#[derive(PartialEq, Eq, Structural, Debug, Clone, Copy)]
pub enum HostKey {
    F1,
    F2,
    Left,
    Right,
    Up,
    Down,
    A,
    S,
    D,
    F,
    Other,
}

/// An event of the front end's window.
#[derive(PartialEq, Eq, Structural, Debug, Clone, Copy)]
pub enum InputEvent {
    CloseRequested,
    Keyboard { key: HostKey, pressed: bool },
    Other,
}

/// The Game Boy button that a host key stands for: the arrows for the pad, `A` for A, `S` for B,
/// `D` for Start and `F` for Select.
pub open spec fn button_of(k: HostKey) -> Option<Key> {
    match k {
        HostKey::Left => Some(Key::Left),
        HostKey::Right => Some(Key::Right),
        HostKey::Up => Some(Key::Up),
        HostKey::Down => Some(Key::Down),
        HostKey::A => Some(Key::A),
        HostKey::S => Some(Key::B),
        HostKey::D => Some(Key::Start),
        HostKey::F => Some(Key::Select),
        _ => None,
    }
}

/// The Game Boy button that a host key stands for.
pub fn key_for(k: HostKey) -> (r: Option<Key>)
    ensures
        r == button_of(k),
{
    match k {
        HostKey::Left => Some(Key::Left),
        HostKey::Right => Some(Key::Right),
        HostKey::Up => Some(Key::Up),
        HostKey::Down => Some(Key::Down),
        HostKey::A => Some(Key::A),
        HostKey::S => Some(Key::B),
        HostKey::D => Some(Key::Start),
        HostKey::F => Some(Key::Select),
        _ => None,
    }
}

/// What the main loop does after `e`: closing the window quits, pressing F1 breaks, pressing F2
/// toggles the speed, and anything else lets the emulator go on.
pub open spec fn event_outcome(e: InputEvent) -> Event {
    match e {
        InputEvent::CloseRequested => Event::Quit,
        InputEvent::Keyboard { key: HostKey::F1, pressed: true } => Event::Break,
        InputEvent::Keyboard { key: HostKey::F2, pressed: true } => Event::ToggleSpeed,
        _ => Event::Continue,
    }
}

/// The button that `e` presses or releases, if any.
pub open spec fn event_button(e: InputEvent) -> Option<Key> {
    match e {
        InputEvent::Keyboard { key, pressed: _ } => button_of(key),
        _ => None,
    }
}

/// Handles an input event: a button's key press or release reaches the joypad and asks for
/// the joypad interrupt; the result says what the main loop does next.
pub fn handle_event(e: InputEvent, cpu: &mut Cpu<GBHandlerHolder>) -> (r: Event)
    requires
        old(cpu).wf(),
    ensures
        final(cpu).wf(),
        r == event_outcome(e),
        final(cpu).regs == old(cpu).regs,
        final(cpu).interrupt_handler.enabled == old(cpu).interrupt_handler.enabled,
        match event_button(e) {
            Some(k) => {
                &&& e matches InputEvent::Keyboard { pressed, .. } && final(cpu).handler_holder.inner.joypad_register.held(k)
                    == pressed
                &&& final(cpu).handler_holder.inner.joypad_register.same_but(&old(cpu).handler_holder.inner.joypad_register, k)
                &&& final(cpu).handler_holder == (GBHandlerHolder { inner: crate::bus::InnerHandlerHolder {
                    joypad_register: final(cpu).handler_holder.inner.joypad_register, ..old(cpu).handler_holder.inner },
                    ..old(cpu).handler_holder })
                &&& final(cpu).interrupt_handler.register.joypad
                &&& *final(cpu) == (Cpu { handler_holder: final(cpu).handler_holder, interrupt_handler: InterruptHandler {
                    register: noted(old(cpu).interrupt_handler.register, Some(Interrupt::Joypad)),
                    ..old(cpu).interrupt_handler }, ..*old(cpu) })
            },
            None => *final(cpu) == *old(cpu),
        },
{
    match e {
        InputEvent::CloseRequested => Event::Quit,
        InputEvent::Keyboard { key, pressed } => {
            if pressed {
                match key {
                    HostKey::F1 => {
                        return Event::Break;
                    },
                    HostKey::F2 => {
                        return Event::ToggleSpeed;
                    },
                    _ => {},
                }
            }
            match key_for(key) {
                Some(k) => {
                    if pressed {
                        cpu.handler_holder.key_down(k);
                    } else {
                        cpu.handler_holder.key_up(k);
                    }
                    cpu.request_interrupt(Interrupt::Joypad);
                },
                None => {},
            }
            Event::Continue
        },
        InputEvent::Other => Event::Continue,
    }
}

} // verus!
