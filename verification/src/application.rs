//! What a host keeps around the machine: the ROMs on offer, the one that is
//! loaded, the commands that switch between them, and the display as the
//! flat cell array a renderer uploads.

use vstd::prelude::*;
use crate::chip8::{display_view, Chip8, Chip8Rom};

verus! {

/// A request from the user interface.
#[allow(non_camel_case_types)]
#[derive(Debug, Clone, Copy, PartialEq, Eq, Structural)]
pub enum AppCommand {
    /// Start the loaded ROM afresh.
    RESET,
    /// Load the ROM with this number and start it.
    LOAD_ROM(u8),
}

/// The machine, the ROMs on offer and the number of the one that is loaded.
pub struct RuntimeData {
    pub chip8: Chip8,
    pub current_rom: u8,
    pub roms: Vec<Chip8Rom>,
}

impl RuntimeData {
    /// The first of `roms`, loaded into a fresh machine.
    pub fn new(roms: Vec<Chip8Rom>) -> (data: RuntimeData)
        requires
            roms@.len() > 0,
        ensures
            data.roms == roms,
            data.current_rom == 0,
            data.chip8@ == roms@[0].device_state(),
    {
        let chip8 = roms[0].to_device();
        RuntimeData { chip8, current_rom: 0, roms }
    }

    /// Replaces the machine by a fresh one with the current ROM loaded.
    pub fn reset_device(&mut self)
        requires
            old(self).current_rom < old(self).roms@.len(),
        ensures
            final(self).chip8@ == old(self).roms@[old(self).current_rom as int].device_state(),
            final(self).current_rom == old(self).current_rom,
            final(self).roms == old(self).roms,
    {
        self.chip8 = self.roms[self.current_rom as usize].to_device();
    }

    /// Makes ROM `id` the current one and replaces the machine by a fresh
    /// one with that ROM loaded.
    pub fn set_rom(&mut self, id: u8)
        requires
            id < old(self).roms@.len(),
        ensures
            final(self).chip8@ == old(self).roms@[id as int].device_state(),
            final(self).current_rom == id,
            final(self).roms == old(self).roms,
    {
        self.current_rom = id;
        self.reset_device();
    }

    /// Whether `command` can be carried out: the ROM it asks for is on offer.
    pub fn accepts(&self, command: AppCommand) -> (accepted: bool)
        ensures
            accepted == command_applies(*self, command),
    {
        match command {
            AppCommand::RESET => (self.current_rom as usize) < self.roms.len(),
            AppCommand::LOAD_ROM(id) => (id as usize) < self.roms.len(),
        }
    }

    /// The names of the ROMs on offer, in order.
    pub fn rom_list(&self) -> (names: Vec<String>)
        ensures
            names@.len() == self.roms@.len(),
            forall|index: int|
                0 <= index < names@.len() ==> (#[trigger] names@[index])@
                    == self.roms@[index].name@,
    {
        let mut names: Vec<String> = Vec::new();
        let mut index: usize = 0;
        while index < self.roms.len()
            invariant
                index <= self.roms@.len(),
                names@.len() == index,
                forall|earlier: int|
                    0 <= earlier < index ==> (#[trigger] names@[earlier])@
                        == self.roms@[earlier].name@,
            decreases self.roms@.len() - index,
        {
            names.push(self.roms[index].name.clone());
            index += 1;
        }
        names
    }
}

/// Whether `data` can take `command`: the ROM it asks for is on offer.
pub open spec fn command_applies(data: RuntimeData, command: AppCommand) -> bool {
    match command {
        AppCommand::RESET => data.current_rom < data.roms@.len(),
        AppCommand::LOAD_ROM(id) => id < data.roms@.len(),
    }
}

/// The number of the ROM that is loaded once `command` is done.
pub open spec fn rom_after_command(data: RuntimeData, command: AppCommand) -> u8 {
    match command {
        AppCommand::RESET => data.current_rom,
        AppCommand::LOAD_ROM(id) => id,
    }
}

/// Carries out a command: either way the machine is replaced by a fresh one,
/// with the current ROM on `RESET` and with the named one on `LOAD_ROM`.
pub fn on_message(data: &mut RuntimeData, command: AppCommand)
    requires
        command_applies(*old(data), command),
    ensures
        final(data).current_rom == rom_after_command(*old(data), command),
        final(data).chip8@ == old(data).roms@[final(data).current_rom as int].device_state(),
        final(data).roms == old(data).roms,
{
    match command {
        AppCommand::RESET => {
            data.reset_device();
        },
        AppCommand::LOAD_ROM(id) => {
            data.set_rom(id);
        },
    }
}

/// The display as 2048 cells, row after row: 1 for a lit pixel, 0 for a dark
/// one.
pub open spec fn cell_values(display: Seq<Seq<bool>>) -> Seq<u32> {
    Seq::new(
        2048,
        |cell: int|
            if display[cell / 64][cell % 64] {
                1u32
            } else {
                0u32
            },
    )
}

/// The cells before `filled`, as in [`cell_values`]; zero from there on.
spec fn cells_filled(display: Seq<Seq<bool>>, filled: int) -> Seq<u32> {
    Seq::new(
        2048,
        |cell: int|
            if cell < filled && display[cell / 64][cell % 64] {
                1u32
            } else {
                0u32
            },
    )
}

/// Flattens the display into the cell array that the renderer uploads.
pub fn display_cells(display: &[[bool; 64]; 32]) -> (cells: [u32; 2048])
    ensures
        cells@ == cell_values(display_view(*display)),
{
    let mut cells: [u32; 2048] = [0; 2048];
    assert(cells@ =~= cells_filled(display_view(*display), 0));
    let mut row: usize = 0;
    while row < 32
        invariant
            row <= 32,
            cells@ == cells_filled(display_view(*display), row * 64),
        decreases 32 - row,
    {
        let mut column: usize = 0;
        while column < 64
            invariant
                row < 32,
                column <= 64,
                cells@ == cells_filled(display_view(*display), row * 64 + column),
            decreases 64 - column,
        {
            if display[row][column] {
                cells[row * 64 + column] = 1;
            }
            proof {
                let cell = row * 64 + column;
                assert(cell / 64 == row && cell % 64 == column);
                assert(display_view(*display)[row as int][column as int]
                    == display[row as int][column as int]);
                assert(cells@ =~= cells_filled(display_view(*display), cell + 1));
            }
            column += 1;
        }
        row += 1;
    }
    assert(cells@ =~= cell_values(display_view(*display)));
    cells
}

} // verus!
