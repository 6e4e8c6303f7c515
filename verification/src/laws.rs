//! Theorems about the instruction semantics, proved from the definitions in
//! [`crate::semantics`].

use vstd::prelude::*;
use crate::model::{blank_display, MachineState};
use crate::opcode::Opcode;

verus! {

/// `8XY4` with `X` other than `F` leaves the sum of the two registers modulo
/// 256 in `VX`, and 1 in `VF` exactly when the sum passed 255 (0 otherwise).
/// With `X = F` the flag overwrites the sum.
pub proof fn law_add_wraps_and_carries(s: MachineState, x: u8, y: u8, draw: Option<u8>)
    requires
        s.wf(),
        x < 0xF,
        y <= 0xF,
    ensures
        ({
            let after = s.execute(Opcode::decode(Opcode::encode(0x8, x, y, 0x4)), draw);
            &&& after.register(x) == (s.register(x) + s.register(y)) % 256
            &&& after.register(0xF) == 1 <==> s.register(x) + s.register(y) > 255
            &&& after.register(0xF) == 0 <==> s.register(x) + s.register(y) <= 255
        }),
{
    Opcode::lemma_decode_encode(0x8, x, y, 0x4);
    reveal(MachineState::execute);
}

/// `8XY5` with `X` other than `F` leaves `VX - VY` modulo 256 in `VX`, and 1
/// in `VF` exactly when `VX` was at least `VY` (0 otherwise). With `X = F`
/// the flag overwrites the difference.
pub proof fn law_subtract_wraps_and_borrows(s: MachineState, x: u8, y: u8, draw: Option<u8>)
    requires
        s.wf(),
        x < 0xF,
        y <= 0xF,
    ensures
        ({
            let after = s.execute(Opcode::decode(Opcode::encode(0x8, x, y, 0x5)), draw);
            &&& after.register(x) == (s.register(x) - s.register(y)) % 256
            &&& after.register(0xF) == 1 <==> s.register(x) >= s.register(y)
            &&& after.register(0xF) == 0 <==> s.register(x) < s.register(y)
        }),
{
    Opcode::lemma_decode_encode(0x8, x, y, 0x5);
    reveal(MachineState::execute);
}

/// What `FX55` stored, `FX65` with the same `X` and the same index register
/// reads back: whatever the registers hold by then, `V0` to `VX` get the
/// values they had when they were stored.
pub proof fn law_store_then_load_restores(
    s: MachineState,
    later: MachineState,
    x: u8,
    draw: Option<u8>,
)
    requires
        s.wf(),
        later.wf(),
        x <= 0xF,
        later.memory == s.execute(Opcode::decode(Opcode::encode(0xF, x, 0x5, 0x5)), draw).memory,
        later.index_register == s.index_register,
    ensures
        forall|index: u8|
            index <= x ==> #[trigger] later.execute(
                Opcode::decode(Opcode::encode(0xF, x, 0x6, 0x5)),
                draw,
            ).register(index) == s.register(index),
{
    let store = Opcode::decode(Opcode::encode(0xF, x, 0x5, 0x5));
    let load = Opcode::decode(Opcode::encode(0xF, x, 0x6, 0x5));
    assert(s.execute(store, draw) == s.register_to_memory(x)) by {
        Opcode::lemma_decode_encode(0xF, x, 0x5, 0x5);
        reveal(MachineState::execute);
    }
    assert(later.execute(load, draw) == later.memory_to_register(x)) by {
        Opcode::lemma_decode_encode(0xF, x, 0x6, 0x5);
        reveal(MachineState::execute);
    }
    assert forall|index: u8| index <= x implies #[trigger] later.memory_to_register(x).register(
        index,
    ) == s.register(index) by {
        lemma_stored_byte(s, x, index);
    }
}

/// After `FX55` the byte at `I + index` is what register `index` held, for
/// each register stored.
proof fn lemma_stored_byte(s: MachineState, x: u8, index: u8)
    requires
        s.wf(),
        index <= x <= 0xF,
    ensures
        s.register_to_memory(x).memory[(s.index_register + index) % 4096] == s.register(index),
{
    let address = (s.index_register + index) % 4096;
    assert((address - s.index_register) % 4096 == index);
}

/// `00E0` leaves every pixel dark, and a second `00E0` changes nothing more.
pub proof fn law_clear_screen_idempotent(s: MachineState, draw: Option<u8>)
    ensures
        ({
            let once = s.execute(Opcode::decode(0x00E0), draw);
            let twice = once.execute(Opcode::decode(0x00E0), draw);
            &&& once.display == blank_display()
            &&& twice == once
            &&& forall|row: int, column: int|
                0 <= row < 32 && 0 <= column < 64 ==> !#[trigger] once.pixel(row, column)
            &&& forall|row: int, column: int|
                0 <= row < 32 && 0 <= column < 64 ==> !#[trigger] twice.pixel(row, column)
        }),
{
    reveal(MachineState::execute);
}

/// Drawing is a pure XOR: `DXYN` performed twice in a row, with `X` and `Y`
/// other than `F` so that the position stays the same, gives the display
/// back as it was. Every pixel that the first draw lit is dark again, and the
/// second draw sets `VF` to 1 exactly when the first one lit a pixel.
pub proof fn law_draw_twice_restores(s: MachineState, x: u8, y: u8, n: u8, draw: Option<u8>)
    requires
        s.wf(),
        x < 0xF,
        y < 0xF,
        n <= 0xF,
    ensures
        ({
            let once = s.execute(Opcode::decode(Opcode::encode(0xD, x, y, n)), draw);
            let twice = once.execute(Opcode::decode(Opcode::encode(0xD, x, y, n)), draw);
            &&& twice.display == s.display
            &&& forall|row: int, column: int|
                0 <= row < 32 && 0 <= column < 64 && !s.pixel(row, column) && #[trigger] once.pixel(
                    row,
                    column,
                ) ==> !twice.pixel(row, column)
            &&& twice.register(0xF) == 1 <==> exists|row: int, column: int|
                0 <= row < 32 && 0 <= column < 64 && !s.pixel(row, column) && #[trigger] once.pixel(
                    row,
                    column,
                )
            &&& twice.register(0xF) == 0 || twice.register(0xF) == 1
        }),
{
    Opcode::lemma_decode_encode(0xD, x, y, n);
    reveal(MachineState::execute);
    let once = s.draw_sprite(x, y, n);
    let twice = once.draw_sprite(x, y, n);
    let left = (s.register(x) % 64) as int;
    let top = (s.register(y) % 32) as int;
    let height = n as int;
    assert(once.register(x) == s.register(x) && once.register(y) == s.register(y));
    assert forall|row: int, column: int| 0 <= row < 32 && 0 <= column < 64 implies once.pixel(
        row,
        column,
    ) == (s.pixel(row, column) != s.sprite_pixel(left, top, height, row, column))
        && once.sprite_pixel(left, top, height, row, column) == s.sprite_pixel(
        left,
        top,
        height,
        row,
        column,
    ) && twice.pixel(row, column) == s.pixel(row, column) by {}
    assert(twice.display =~~= s.display);
    if once.sprite_collides(left, top, height) {
        let (r, c) = choose|r: int, c: int|
            0 <= r < 32 && 0 <= c < 64 && once.pixel(r, c) && #[trigger] once.sprite_pixel(
                left,
                top,
                height,
                r,
                c,
            );
        assert(!s.pixel(r, c) && once.pixel(r, c));
    }
    if exists|row: int, column: int|
        0 <= row < 32 && 0 <= column < 64 && !s.pixel(row, column) && #[trigger] once.pixel(
            row,
            column,
        ) {
        let (r, c) = choose|r: int, c: int|
            0 <= r < 32 && 0 <= c < 64 && !s.pixel(r, c) && #[trigger] once.pixel(r, c);
        assert(once.sprite_pixel(left, top, height, r, c));
    }
}

/// After any `DXYN` the machine waits: further cycles change nothing until a
/// tick releases it.
pub proof fn law_draw_blocks_until_tick(
    s: MachineState,
    x: u8,
    y: u8,
    n: u8,
    draw: Option<u8>,
    next_draw: Option<u8>,
)
    requires
        x <= 0xF,
        y <= 0xF,
        n <= 0xF,
    ensures
        ({
            let after = s.execute(Opcode::decode(Opcode::encode(0xD, x, y, n)), draw);
            &&& after.blocking_on_draw
            &&& after.cycle(next_draw) == after
            &&& after.cycle(next_draw).cycle(next_draw) == after
            &&& !after.update().blocking_on_draw
        }),
{
    Opcode::lemma_decode_encode(0xD, x, y, n);
    reveal(MachineState::execute);
}

/// `BNNN` continues at exactly `NNN + V0`: the sum always fits.
pub proof fn law_jump_offset_is_exact(s: MachineState, x: u8, y: u8, n: u8, draw: Option<u8>)
    requires
        s.wf(),
        x <= 0xF,
        y <= 0xF,
        n <= 0xF,
    ensures
        s.execute(Opcode::decode(Opcode::encode(0xB, x, y, n)), draw).program_counter == x * 256
            + y * 16 + n + s.register(0),
{
    Opcode::lemma_decode_encode(0xB, x, y, n);
    reveal(MachineState::execute);
}

/// A halted machine stays as it is, cycle after cycle.
pub proof fn law_halted_machine_stays(s: MachineState, draw: Option<u8>)
    requires
        s.halted(),
    ensures
        s.cycle(draw) == s,
{
}

/// A word that matches no instruction halts the machine on a fault that
/// names the word and leaves everything else alone.
pub proof fn law_unsupported_halts(s: MachineState, instruction: u16, draw: Option<u8>)
    requires
        ({
            let op = Opcode::decode(instruction);
            ||| op.opcode == 0x0 && instruction != 0x00E0 && instruction != 0x00EE
            ||| (op.opcode == 0x5 || op.opcode == 0x9) && op.n != 0
            ||| op.opcode == 0x8 && op.n > 0x7 && op.n != 0xE
            ||| op.opcode == 0xE && op.nn != 0x9E && op.nn != 0xA1
            ||| op.opcode == 0xF && op.nn != 0x07 && op.nn != 0x0A && op.nn != 0x15 && op.nn
                != 0x18 && op.nn != 0x1E && op.nn != 0x29 && op.nn != 0x33 && op.nn != 0x55
                && op.nn != 0x65
        }),
    ensures
        s.execute(Opcode::decode(instruction), draw) == s.unsupported(instruction),
        s.execute(Opcode::decode(instruction), draw).halted(),
{
    reveal(MachineState::execute);
}

/// Every transition keeps the machine's shape.
pub proof fn law_transitions_preserve_wf(
    s: MachineState,
    instruction: u16,
    draw: Option<u8>,
    key: u8,
    pressed: bool,
    rom: Seq<u8>,
)
    requires
        s.wf(),
    ensures
        s.execute(Opcode::decode(instruction), draw).wf(),
        s.cycle(draw).wf(),
        s.update().wf(),
        s.set_input(key, pressed).wf(),
        s.set_rom(rom).wf(),
{
    Opcode::lemma_decode_ranges(instruction);
    Opcode::lemma_decode_ranges(s.fetch_instruction());
    lemma_execute_preserves_wf(s, Opcode::decode(instruction), draw);
    lemma_execute_preserves_wf(s.advance(), Opcode::decode(s.fetch_instruction()), draw);
}

proof fn lemma_execute_preserves_wf(s: MachineState, op: Opcode, draw: Option<u8>)
    requires
        s.wf(),
        op.x <= 0xF,
        op.y <= 0xF,
    ensures
        s.execute(op, draw).wf(),
{
    reveal(MachineState::execute);
    if op.opcode == 0xF && op.nn == 0x0A {
        let waited = s.wait_for_input(op.x);
        if s.blocking_input is None && crate::model::first_pressed(s.input) is Some {
            let key = choose|key: int| crate::model::is_first_pressed(s.input, key);
            assert(key < 16);
        }
        assert(waited.wf());
    }
}

} // verus!
