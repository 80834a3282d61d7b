//! The emulator: a bus with a cartridge in it, run a frame at a time, and
//! the mapping of keyboard keys to joypad buttons.
use vstd::prelude::*;
use crate::{
    NesRom, RomError, has_ines_header, header_mapper_id, image_chr_rom, image_prg_rom,
    rom_image_valid,
};
use crate::bus::{
    Bus, BusState, bus_clock, bus_inv, bus_power_on, bus_reset, cpu_stepped, is_blank_frame,
    is_ppu_frame, is_test_frame, nmi_delivered, ppu_dots, with_test_pattern,
};
use crate::cartridge::{Cartridge, CartState, unsupported_mapper_text};
use crate::controller::{Button, ControllerState, with_button};
use crate::ppu::{FrameData, PpuState};

verus! {

/// Errors an emulator front end can report.
#[derive(Debug)]
pub enum EmulatorError {
    RomLoadError(String),
    InvalidRomFormat,
    StateError(String),
}

/// CPU cycles after which `run_frame` gives up waiting for a frame.
pub const MAX_RUN_FRAME_CYCLES: u32 = 30000;

/// CPU cycles in one NTSC frame, the budget of `get_frame`.
pub const TARGET_CYCLES_PER_FRAME: u64 = 29780;

/// The emulator: the system bus and the front end's bookkeeping.
pub struct Emulator {
    pub bus: Bus,
    pub cycles_this_frame: u64,
    pub is_running: bool,
    pub rom_loaded: bool,
    pub rom_path: Option<String>,
    pub brk_counter: u32,
    pub frame_count: u32,
    pub test_mode: bool,
    pub frame_complete: bool,
    pub irq_cooldown: bool,
}

/// The observable state of the emulator.
pub struct EmulatorState {
    pub bus: BusState,
    pub cycles_this_frame: u64,
    pub is_running: bool,
    pub rom_loaded: bool,
    pub rom_path: Option<Seq<char>>,
    pub brk_counter: u32,
    pub frame_count: u32,
    pub test_mode: bool,
    pub frame_complete: bool,
    pub irq_cooldown: bool,
}

impl View for Emulator {
    type V = EmulatorState;

    open spec fn view(&self) -> EmulatorState {
        EmulatorState {
            bus: self.bus@,
            cycles_this_frame: self.cycles_this_frame,
            is_running: self.is_running,
            rom_loaded: self.rom_loaded,
            rom_path: match self.rom_path {
                Some(p) => Some(p@),
                None => None,
            },
            brk_counter: self.brk_counter,
            frame_count: self.frame_count,
            test_mode: self.test_mode,
            frame_complete: self.frame_complete,
            irq_cooldown: self.irq_cooldown,
        }
    }
}

// ---------------------------------------------------------------------------
// Keyboard mapping
// ---------------------------------------------------------------------------

/// The joypad button bound to a keyboard key code: Z and X for A and B,
/// right Shift for Select, Enter for Start, and the arrow keys.
pub open spec fn key_button(key: Seq<char>) -> Option<Button> {
    if key == "KeyZ"@ {
        Some(Button::A)
    } else if key == "KeyX"@ {
        Some(Button::B)
    } else if key == "ShiftRight"@ {
        Some(Button::Select)
    } else if key == "Enter"@ {
        Some(Button::Start)
    } else if key == "ArrowUp"@ {
        Some(Button::Up)
    } else if key == "ArrowDown"@ {
        Some(Button::Down)
    } else if key == "ArrowLeft"@ {
        Some(Button::Left)
    } else if key == "ArrowRight"@ {
        Some(Button::Right)
    } else {
        None
    }
}

/// Whether `key` names the key whose code is `code`.
fn key_is(key: &String, code: &str) -> (r: bool)
    ensures
        r == (key@ == code@),
{
    let c = code.to_owned();
    *key == c
}

/// The joypad button bound to a keyboard key code.
fn key_to_button(key_code: &str) -> (r: Option<Button>)
    ensures
        r == key_button(key_code@),
{
    let key = key_code.to_owned();
    if key_is(&key, "KeyZ") {
        Some(Button::A)
    } else if key_is(&key, "KeyX") {
        Some(Button::B)
    } else if key_is(&key, "ShiftRight") {
        Some(Button::Select)
    } else if key_is(&key, "Enter") {
        Some(Button::Start)
    } else if key_is(&key, "ArrowUp") {
        Some(Button::Up)
    } else if key_is(&key, "ArrowDown") {
        Some(Button::Down)
    } else if key_is(&key, "ArrowLeft") {
        Some(Button::Left)
    } else if key_is(&key, "ArrowRight") {
        Some(Button::Right)
    } else {
        None
    }
}

/// The key code bound to each joypad button.
pub open spec fn button_key_text(b: Button) -> Seq<char> {
    match b {
        Button::A => "KeyZ"@,
        Button::B => "KeyX"@,
        Button::Select => "ShiftRight"@,
        Button::Start => "Enter"@,
        Button::Up => "ArrowUp"@,
        Button::Down => "ArrowDown"@,
        Button::Left => "ArrowLeft"@,
        Button::Right => "ArrowRight"@,
    }
}

/// The key code bound to a joypad button.
pub fn button_key_code(button: Button) -> (r: &'static str)
    ensures
        r@ == button_key_text(button),
{
    match button {
        Button::A => "KeyZ",
        Button::B => "KeyX",
        Button::Select => "ShiftRight",
        Button::Start => "Enter",
        Button::Up => "ArrowUp",
        Button::Down => "ArrowDown",
        Button::Left => "ArrowLeft",
        Button::Right => "ArrowRight",
    }
}

/// Every button's key code maps back to that button.
pub proof fn lemma_key_code_roundtrip(b: Button)
    ensures
        key_button(button_key_text(b)) == Some(b),
{
    reveal_strlit("KeyZ");
    reveal_strlit("KeyX");
    reveal_strlit("ShiftRight");
    reveal_strlit("Enter");
    reveal_strlit("ArrowUp");
    reveal_strlit("ArrowDown");
    reveal_strlit("ArrowLeft");
    reveal_strlit("ArrowRight");
    assert("KeyX"@[3] != "KeyZ"@[3]);
    assert("ArrowRight"@[0] != "ShiftRight"@[0]);
    assert("ArrowLeft"@[5] != "ArrowDown"@[5]);
    assert("KeyZ"@.len() == 4 && "KeyX"@.len() == 4 && "ShiftRight"@.len() == 10 && "Enter"@.len()
        == 5 && "ArrowUp"@.len() == 7 && "ArrowDown"@.len() == 9 && "ArrowLeft"@.len() == 9
        && "ArrowRight"@.len() == 10);
}

/// The bus with `button` of controller 1 pressed or released.
pub open spec fn with_pad1_button(s: BusState, button: Button, pressed: bool) -> BusState {
    BusState {
        controller1: ControllerState {
            button_states: with_button(s.controller1.button_states, button, pressed),
            ..s.controller1
        },
        ..s
    }
}

// ---------------------------------------------------------------------------
// Frames
// ---------------------------------------------------------------------------

/// The bus with the PPU's frame-complete flag cleared.
pub open spec fn frame_flag_cleared(s: BusState) -> BusState {
    BusState { ppu: PpuState { frame_complete: false, ..s.ppu }, ..s }
}

/// One step of `run_frame`: a CPU instruction, three PPU dots per CPU cycle,
/// and NMI delivery (no OAM DMA, and the bus's cycle count is left alone).
pub open spec fn run_step(s: BusState) -> (BusState, u8) {
    let (s1, r) = cpu_stepped(s);
    (nmi_delivered(BusState { ppu: ppu_dots(s1.ppu, s1.cartridge, (3 * r) as nat), ..s1 }), r)
}

/// The bus after `run_frame` from state `s` with `total` cycles already
/// run: steps until the PPU completes a frame (whose flag is then cleared)
/// or 30000 cycles have run.
pub open spec fn frame_ran(s: BusState, total: nat) -> BusState
    decreases 30256 - total,
{
    if total >= 30000 {
        s
    } else {
        let (s1, r) = run_step(s);
        if s1.ppu.frame_complete {
            frame_flag_cleared(s1)
        } else if r == 0 {
            s1
        } else {
            frame_ran(s1, total + r as nat)
        }
    }
}

/// The bus after executing a frame from state `s` with `executed` cycles
/// already run, and whether the PPU completed a frame: bus clocks until a
/// frame completes (its flag then cleared) or 29780 CPU cycles have run.
pub open spec fn frame_executed(s: BusState, executed: nat) -> (BusState, bool)
    decreases 30036 - executed, s.oam_dma_cycles_remaining,
{
    if executed >= 29780 {
        (s, false)
    } else {
        let (s1, r) = bus_clock(s);
        if s1.ppu.frame_complete {
            (frame_flag_cleared(s1), true)
        } else if 0 < r < 256 {
            frame_executed(s1, executed + r as nat)
        } else if r == 0 && s1.oam_dma_cycles_remaining < s.oam_dma_cycles_remaining {
            frame_executed(s1, executed)
        } else {
            (s1, false)
        }
    }
}

// ---------------------------------------------------------------------------
// Loading a ROM
// ---------------------------------------------------------------------------

/// The message `load_rom` reports for an image that does not parse.
pub open spec fn rom_error_text(e: RomError) -> Seq<char> {
    match e {
        RomError::InvalidHeader => "ROM read error: Invalid NES ROM header"@,
        RomError::SizeMismatch => "ROM read error: ROM file size mismatch with header info"@,
    }
}

fn rom_error_message(e: RomError) -> (r: String)
    ensures
        r@ == rom_error_text(e),
{
    match e {
        RomError::InvalidHeader => "ROM read error: Invalid NES ROM header".to_owned(),
        RomError::SizeMismatch => "ROM read error: ROM file size mismatch with header info".to_owned(),
    }
}

/// The bus once cartridge `c` is inserted and the system reset again.
pub open spec fn bus_loaded(s: BusState, c: CartState) -> BusState {
    bus_reset(bus_reset(BusState { cartridge: Some(c), ..s }))
}

impl Emulator {
    pub fn new() -> (r: Self)
        ensures
            r@ == (EmulatorState {
                bus: bus_power_on(),
                cycles_this_frame: 0,
                is_running: false,
                rom_loaded: false,
                rom_path: None,
                brk_counter: 0,
                frame_count: 0,
                test_mode: false,
                frame_complete: false,
                irq_cooldown: false,
            }),
            bus_inv(r.bus@),
    {
        let bus = Bus::new();
        Emulator {
            bus,
            cycles_this_frame: 0,
            is_running: false,
            rom_loaded: false,
            rom_path: None,
            brk_counter: 0,
            frame_count: 0,
            test_mode: false,
            frame_complete: false,
            irq_cooldown: false,
        }
    }

    /// Loads a parsed ROM read from `file_path`: builds its cartridge, inserts
    /// it, resets the system and starts running. Fails, changing nothing,
    /// when the ROM needs a mapper other than 0.
    #[verifier::rlimit(40)]
    pub fn load_nes_rom(&mut self, nes_rom: NesRom, file_path: &str) -> (r: Result<(), String>)
        requires
            bus_inv(old(self).bus@),
        ensures
            bus_inv(final(self).bus@),
            r is Ok <==> nes_rom.mapper_id == 0,
            r matches Err(e) ==> e@ == unsupported_mapper_text(nes_rom.mapper_id) && final(self)@
                == old(self)@,
            r is Ok ==> final(self)@ == (EmulatorState {
                bus: bus_loaded(
                    old(self).bus@,
                    Cartridge::spec_new_state(
                        nes_rom.prg_rom@,
                        nes_rom.chr_rom@,
                        crate::mirroring_flags(nes_rom.mirroring),
                    ),
                ),
                is_running: true,
                rom_loaded: true,
                rom_path: Some(file_path@),
                ..old(self)@
            }),
    {
        let mirroring_flags = nes_rom.mirroring.into_flags();
        let cartridge = match Cartridge::new(
            nes_rom.prg_rom,
            nes_rom.chr_rom,
            nes_rom.mapper_id,
            mirroring_flags,
        ) {
            Ok(c) => c,
            Err(e) => {
                return Err(e);
            },
        };
        self.bus.insert_cartridge(cartridge);
        self.bus.reset();
        let cpu_state = self.bus.get_cpu_state();
        if cpu_state.registers.stack_pointer != 0xFD {
            self.bus.get_cpu_state_mut().registers.stack_pointer = 0xFD;
        }
        self.is_running = true;
        self.rom_loaded = true;
        self.rom_path = Some(file_path.to_owned());
        Ok(())
    }

    /// Loads the iNES image `rom_image` read from `file_path`. Fails,
    /// changing nothing, when the image does not parse or needs a mapper
    /// other than 0.
    #[verifier::rlimit(40)]
    pub fn load_rom(&mut self, file_path: &str, rom_image: &[u8]) -> (r: Result<(), String>)
        requires
            bus_inv(old(self).bus@),
        ensures
            bus_inv(final(self).bus@),
            r is Ok <==> rom_image_valid(rom_image@) && header_mapper_id(rom_image@) == 0,
            r is Err ==> final(self)@ == old(self)@,
            !has_ines_header(rom_image@) ==> (r matches Err(e) && e@ == rom_error_text(
                RomError::InvalidHeader,
            )),
            has_ines_header(rom_image@) && !rom_image_valid(rom_image@) ==> (r matches Err(e)
                && e@ == rom_error_text(RomError::SizeMismatch)),
            rom_image_valid(rom_image@) && header_mapper_id(rom_image@) != 0 ==> (r matches Err(e)
                && e@ == unsupported_mapper_text(header_mapper_id(rom_image@))),
            r is Ok ==> final(self)@ == (EmulatorState {
                bus: bus_loaded(
                    old(self).bus@,
                    Cartridge::spec_new_state(
                        image_prg_rom(rom_image@),
                        image_chr_rom(rom_image@),
                        crate::mirroring_flags(crate::mirroring_from_flags(rom_image@[6])),
                    ),
                ),
                is_running: true,
                rom_loaded: true,
                rom_path: Some(file_path@),
                ..old(self)@
            }),
    {
        match NesRom::from_bytes(rom_image) {
            Ok(rom) => self.load_nes_rom(rom, file_path),
            Err(e) => Err(rom_error_message(e)),
        }
    }

    /// Presses or releases the controller-1 button bound to `key_code`;
    /// other keys are ignored.
    pub fn handle_key_event(&mut self, key_code: &str, pressed: bool)
        ensures
            final(self)@ == (match key_button(key_code@) {
                Some(b) => EmulatorState {
                    bus: with_pad1_button(old(self)@.bus, b, pressed),
                    ..old(self)@
                },
                None => old(self)@,
            }),
    {
        let btn = key_to_button(key_code);
        if let Some(btn) = btn {
            self.bus.controller1.set_button_state(btn, pressed);
        }
    }

    /// One CPU instruction with its PPU dots and NMI delivery.
    fn run_step(&mut self) -> (r: u8)
        requires
            bus_inv(old(self).bus@),
        ensures
            bus_inv(final(self).bus@),
            (final(self).bus@, r) == run_step(old(self).bus@),
            final(self)@ == (EmulatorState { bus: final(self).bus@, ..old(self)@ }),
            2 <= r <= 11,
    {
        let step_cycles = self.bus.step_cpu();
        self.bus.clock_ppu(step_cycles as u64);
        self.bus.deliver_nmi();
        step_cycles
    }

    /// Keyboard commands: pressing Space toggles test mode; other keys and
    /// releases change nothing.
    pub fn handle_keyboard_event(&mut self, key_code: &str, pressed: bool) -> (r: Result<(), String>)
        requires
            bus_inv(old(self).bus@),
        ensures
            bus_inv(final(self).bus@),
            r is Ok,
            key_code@ == "Space"@ && pressed ==> final(self)@ == (EmulatorState {
                bus: if !old(self).bus.test_mode {
                    BusState { test_mode: true, test_pattern_rendered: false, ..old(self).bus@ }
                } else {
                    bus_reset(BusState { test_mode: false, ..old(self).bus@ })
                },
                ..old(self)@
            }),
            !(key_code@ == "Space"@ && pressed) ==> final(self)@ == old(self)@,
    {
        let key = key_code.to_owned();
        if key_is(&key, "Space") && pressed {
            self.toggle_test_mode()
        } else {
            Ok(())
        }
    }

    /// Runs CPU instructions, with the PPU alongside, until a frame is
    /// complete or 30000 cycles have run; returns the PPU's frame. Without
    /// a ROM, returns a blank frame and changes nothing.
    #[verifier::rlimit(40)]
    pub fn run_frame(&mut self) -> (r: Result<FrameData, String>)
        requires
            bus_inv(old(self).bus@),
        ensures
            bus_inv(final(self).bus@),
            r is Ok,
            !old(self).rom_loaded ==> final(self)@ == old(self)@ && is_blank_frame(r->Ok_0),
            old(self).rom_loaded ==> final(self)@ == (EmulatorState {
                bus: frame_ran(old(self).bus@, 0),
                ..old(self)@
            }) && is_ppu_frame(r->Ok_0, final(self).bus@),
    {
        if !self.rom_loaded {
            return Ok(FrameData::default());
        }
        let ghost s0 = self@;
        let max_cycles: u32 = MAX_RUN_FRAME_CYCLES;
        let mut total_cycles: u32 = 0;
        let mut frame_complete = false;
        while !frame_complete && total_cycles < max_cycles
            invariant
                max_cycles == 30000,
                total_cycles <= 30011,
                bus_inv(self.bus@),
                self@ == (EmulatorState { bus: self.bus@, ..s0 }),
                !frame_complete ==> frame_ran(self.bus@, total_cycles as nat) == frame_ran(
                    s0.bus,
                    0,
                ),
                frame_complete ==> self.bus@ == frame_ran(s0.bus, 0),
            decreases 30011 - total_cycles,
        {
            let ghost before = self.bus@;
            let step_cycles = self.run_step() as u32;
            total_cycles = total_cycles + step_cycles;
            assert(frame_ran(before, (total_cycles - step_cycles) as nat) == (if self.bus@.ppu.frame_complete {
                frame_flag_cleared(self.bus@)
            } else {
                frame_ran(self.bus@, total_cycles as nat)
            }));
            frame_complete = self.bus.is_frame_complete();
            if frame_complete {
                self.bus.reset_frame_complete();
            }
        }
        let frame = self.bus.get_ppu_frame();
        Ok(frame)
    }

    /// Clocks the bus until a frame is complete or a frame's worth of CPU
    /// cycles has run; returns the PPU's frame.
    #[verifier::rlimit(40)]
    fn execute_frame(&mut self, frame_number: u64) -> (r: Result<FrameData, String>)
        requires
            bus_inv(old(self).bus@),
            old(self).bus.total_cycles <= u64::MAX - 30000,
        ensures
            bus_inv(final(self).bus@),
            (final(self).bus@, final(self).frame_complete) == frame_executed(old(self).bus@, 0),
            final(self)@ == (EmulatorState {
                bus: final(self).bus@,
                frame_complete: final(self).frame_complete,
                ..old(self)@
            }),
            r is Ok,
            is_ppu_frame(r->Ok_0, final(self).bus@),
    {
        let ghost s0 = self@;
        let target_cycles: u64 = TARGET_CYCLES_PER_FRAME;
        let mut cycles_executed: u64 = 0;
        self.frame_complete = false;
        while cycles_executed < target_cycles
            invariant_except_break
                !self.frame_complete,
                frame_executed(self.bus@, cycles_executed as nat) == frame_executed(s0.bus, 0),
            invariant
                target_cycles == 29780,
                cycles_executed <= 29791,
                bus_inv(self.bus@),
                self.bus.total_cycles == s0.bus.total_cycles + cycles_executed,
                s0.bus.total_cycles <= u64::MAX - 30000,
                self@ == (EmulatorState {
                    bus: self.bus@,
                    frame_complete: self.frame_complete,
                    ..s0
                }),
            ensures
                (self.bus@, self.frame_complete) == frame_executed(s0.bus, 0),
            decreases 29791 - cycles_executed, self.bus.oam_dma_cycles_remaining,
        {
            let step_cycles = self.bus.clock();
            cycles_executed = cycles_executed + step_cycles;
            self.frame_complete = self.bus.is_frame_complete();
            if self.frame_complete {
                self.bus.reset_frame_complete();
                break;
            }
        }
        let frame_data = self.bus.get_ppu_frame_direct();
        Ok(frame_data)
    }

    /// The next frame: a blank one without a ROM, the test frame in test
    /// mode, and otherwise a frame's worth of emulation (counted in
    /// `frame_count`, which wraps).
    #[verifier::rlimit(40)]
    pub fn get_frame(&mut self) -> (r: Result<FrameData, String>)
        requires
            bus_inv(old(self).bus@),
            old(self).bus.total_cycles <= u64::MAX - 30000,
        ensures
            bus_inv(final(self).bus@),
            r is Ok,
            !old(self).rom_loaded ==> final(self)@ == old(self)@ && is_blank_frame(r->Ok_0),
            old(self).rom_loaded && old(self).bus.test_mode ==> final(self)@ == (EmulatorState {
                bus: if old(self).bus.test_pattern_rendered {
                    old(self).bus@
                } else {
                    with_test_pattern(old(self).bus@)
                },
                ..old(self)@
            }) && is_test_frame(r->Ok_0, final(self).bus@),
            old(self).rom_loaded && !old(self).bus.test_mode ==> final(self)@ == (EmulatorState {
                bus: frame_executed(old(self).bus@, 0).0,
                frame_complete: frame_executed(old(self).bus@, 0).1,
                frame_count: crate::wadd32(old(self).frame_count, 1),
                ..old(self)@
            }) && is_ppu_frame(r->Ok_0, final(self).bus@),
    {
        if !self.rom_loaded {
            return Ok(FrameData::default());
        }
        if self.bus.test_mode {
            return self.bus.get_ppu_test_frame();
        }
        let current_frame = self.frame_count;
        let result = self.execute_frame(current_frame as u64);
        self.frame_count = self.frame_count.wrapping_add(1);
        result
    }

    pub fn is_rom_loaded(&self) -> (r: bool)
        ensures
            r == self.bus.cartridge.is_some(),
    {
        self.bus.is_rom_loaded()
    }

    /// The test frame (the test pattern is installed first if it is not yet).
    pub fn get_ppu_test_frame(&mut self) -> (r: Result<FrameData, String>)
        ensures
            final(self)@ == (EmulatorState {
                bus: if old(self).bus.test_pattern_rendered {
                    old(self).bus@
                } else {
                    with_test_pattern(old(self).bus@)
                },
                ..old(self)@
            }),
            r is Ok,
            is_test_frame(r->Ok_0, final(self).bus@),
    {
        self.bus.get_ppu_test_frame()
    }

    /// Resets the system.
    pub fn reset(&mut self)
        requires
            bus_inv(old(self).bus@),
        ensures
            bus_inv(final(self).bus@),
            final(self)@ == (EmulatorState { bus: bus_reset(old(self).bus@), ..old(self)@ }),
    {
        self.bus.reset();
    }

    /// Enters or leaves test mode; see `Bus::toggle_test_mode`.
    pub fn toggle_test_mode(&mut self) -> (r: Result<(), String>)
        requires
            bus_inv(old(self).bus@),
        ensures
            bus_inv(final(self).bus@),
            r is Ok,
            final(self)@ == (EmulatorState {
                bus: if !old(self).bus.test_mode {
                    BusState { test_mode: true, test_pattern_rendered: false, ..old(self).bus@ }
                } else {
                    bus_reset(BusState { test_mode: false, ..old(self).bus@ })
                },
                ..old(self)@
            }),
    {
        self.bus.toggle_test_mode();
        Ok(())
    }
}

impl Default for Emulator {
    fn default() -> (r: Self)
        ensures
            r@.bus == bus_power_on(),
            !r.rom_loaded,
            !r.is_running,
            r.rom_path is None,
            bus_inv(r.bus@),
    {
        Self::new()
    }
}

} // verus!
