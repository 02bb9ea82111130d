use vstd::prelude::*;
use crate::bits::bit;
use crate::memory::Memory;

verus! {

/// The buttons held down, and the P1 register as the last update left it.
pub struct JoyPad {
    pub previous: u8,
    pub start: bool,
    pub select: bool,
    pub a: bool,
    pub b: bool,
    pub up: bool,
    pub down: bool,
    pub left: bool,
    pub right: bool,
}

/// Pressing button `button` of the selected group: if its P1 bit was set at the last update the
/// joypad interrupt is requested, and its P1 bit is cleared (bit 4 and the other bits kept).
pub open spec fn set_button_bit_spec(previous: u8, m: Memory, button: u8) -> Memory {
    let m1 = if bit(previous, button) {
        m.write_spec(0xFF0F, m.write_cell_spec(0xFF0F) | 0x10)
    } else {
        m
    };
    m1.write_spec(0xFF00, m1.write_cell_spec(0xFF00) & (0x10u8 | !(1u8 << button)))
}

/// Presses the buttons of a group in order (P1 bits 0 to 3).
pub open spec fn press_group(previous: u8, m: Memory, b0: bool, b1: bool, b2: bool, b3: bool) -> Memory {
    let m0 = if b0 { set_button_bit_spec(previous, m, 0) } else { m };
    let m1 = if b1 { set_button_bit_spec(previous, m0, 1) } else { m0 };
    let m2 = if b2 { set_button_bit_spec(previous, m1, 2) } else { m1 };
    if b3 { set_button_bit_spec(previous, m2, 3) } else { m2 }
}

impl JoyPad {
    /// The P1 update: the low nibble is set (no button), then, for the group that bits 4 and 5
    /// select (0b10: start, select, A, B; 0b01: down, up, left, right), each held button clears
    /// its bit; the result is remembered.
    pub open spec fn update_spec(self, m: Memory) -> (JoyPad, Memory) {
        let m0 = m.write_spec(0xFF00, m.write_cell_spec(0xFF00) | 0x0F);
        let m1 = if m0.read_spec(0xFF00) / 16 == 2 {
            press_group(self.previous, m0, self.start, self.select, self.a, self.b)
        } else {
            m0
        };
        let m2 = if m1.read_spec(0xFF00) / 16 == 1 {
            press_group(self.previous, m1, self.down, self.up, self.left, self.right)
        } else {
            m1
        };
        (JoyPad { previous: m2.read_spec(0xFF00), ..self }, m2)
    }

    /// No button held, P1 low nibble remembered as all ones.
    pub fn new() -> (j: Self)
        ensures
            j == (JoyPad {
                previous: 0x0F,
                start: false,
                select: false,
                a: false,
                b: false,
                up: false,
                down: false,
                left: false,
                right: false,
            }),
    {
        JoyPad {
            previous: 0x0F,
            start: false,
            select: false,
            a: false,
            b: false,
            up: false,
            down: false,
            left: false,
            right: false,
        }
    }

    /// Releases every button.
    pub fn reset(&mut self)
        ensures
            *final(self) == (JoyPad {
                start: false,
                select: false,
                a: false,
                b: false,
                up: false,
                down: false,
                left: false,
                right: false,
                ..*old(self)
            }),
    {
        self.start = false;
        self.select = false;
        self.a = false;
        self.b = false;
        self.up = false;
        self.down = false;
        self.left = false;
        self.right = false;
    }

    /// Holds the button that a key maps to, after releasing every button:
    /// w up, a left, s down, d right, j A, i B, n start, m select; other keys hold nothing.
    pub fn press_key(&mut self, c: char)
        ensures
            final(self).previous == old(self).previous,
            final(self).up == (c == 'w'),
            final(self).left == (c == 'a'),
            final(self).down == (c == 's'),
            final(self).right == (c == 'd'),
            final(self).a == (c == 'j'),
            final(self).b == (c == 'i'),
            final(self).start == (c == 'n'),
            final(self).select == (c == 'm'),
    {
        self.reset();
        match c {
            'w' => self.up = true,
            'a' => self.left = true,
            's' => self.down = true,
            'd' => self.right = true,
            'j' => self.a = true,
            'i' => self.b = true,
            'n' => self.start = true,
            'm' => self.select = true,
            _ => {},
        }
    }

    /// Writes the held buttons of the selected group into P1 (see `update_spec`).
    pub fn update(&mut self, mem: &mut Memory)
        ensures
            (*final(self), *final(mem)) == old(self).update_spec(*old(mem)),
    {
        let p1 = mem.write_cell(0xFF00);
        mem.write(0xFF00, p1 | 0x0F);
        if mem.read(0xFF00) / 16 == 0b10 {
            self.press_group(mem, self.start, self.select, self.a, self.b);
        }
        if mem.read(0xFF00) / 16 == 0b01 {
            self.press_group(mem, self.down, self.up, self.left, self.right);
        }
        self.previous = mem.read(0xFF00);
    }

    fn press_group(&mut self, mem: &mut Memory, b0: bool, b1: bool, b2: bool, b3: bool)
        ensures
            *final(self) == *old(self),
            *final(mem) == press_group(old(self).previous, *old(mem), b0, b1, b2, b3),
    {
        if b0 {
            self.set_button_bit(mem, 0);
        }
        if b1 {
            self.set_button_bit(mem, 1);
        }
        if b2 {
            self.set_button_bit(mem, 2);
        }
        if b3 {
            self.set_button_bit(mem, 3);
        }
    }

    /// Presses button `button` (0 to 3) of the selected group (see `set_button_bit_spec`).
    pub fn set_button_bit(&mut self, mem: &mut Memory, button: u8)
        requires
            button <= 3,
        ensures
            *final(self) == *old(self),
            *final(mem) == set_button_bit_spec(old(self).previous, *old(mem), button),
    {
        let prev = self.previous;
        assert(((prev & (1u8 << button)) != 0) == ((prev >> button) & 1u8 == 1u8)) by (bit_vector)
            requires
                button <= 3,
        ;
        if self.previous & (1u8 << button) != 0 {
            let iflags = mem.write_cell(0xFF0F);
            mem.write(0xFF0F, iflags | 0x10u8);
        }
        let p1 = mem.write_cell(0xFF00);
        mem.write(0xFF00, p1 & (0x10u8 | !(1u8 << button)));
    }
}

/// With no button held, an update leaves the low nibble of P1 all ones (nothing pressed) and
/// requests no interrupt.
pub proof fn lemma_no_button_no_press(j: JoyPad, m: Memory)
    requires
        !j.start && !j.select && !j.a && !j.b && !j.up && !j.down && !j.left && !j.right,
    ensures
        j.update_spec(m).1 == m.write_spec(0xFF00, m.write_cell_spec(0xFF00) | 0x0F),
        j.update_spec(m).0.previous == j.update_spec(m).1.read_spec(0xFF00),
{
}

/// The P1 mask that pressing a held button clears: its bit, if the button is held.
pub open spec fn press_mask(held: bool, b: u8) -> u8 {
    if held { !(1u8 << b) } else { 0xFFu8 }
}

/// Pressing a button clears its bit of P1 and leaves the other bits.
proof fn lemma_set_button_bit_p1(previous: u8, m: Memory, b: u8)
    requires
        b <= 3,
    ensures
        set_button_bit_spec(previous, m, b).read_spec(0xFF00) == m.read_spec(0xFF00) & !(1u8 << b),
        set_button_bit_spec(previous, m, b).write_cell_spec(0xFF00) == m.read_spec(0xFF00) & !(1u8 << b),
{
    let x = m.read_spec(0xFF00);
    assert(x & (0x10u8 | !(1u8 << b)) == x & !(1u8 << b)) by (bit_vector)
        requires
            b <= 3,
    ;
}

/// Pressing a group clears, in P1, the bits of the held buttons.
proof fn lemma_press_group_p1(previous: u8, m: Memory, b0: bool, b1: bool, b2: bool, b3: bool)
    ensures
        press_group(previous, m, b0, b1, b2, b3).read_spec(0xFF00) == m.read_spec(0xFF00) & press_mask(b0, 0)
            & press_mask(b1, 1) & press_mask(b2, 2) & press_mask(b3, 3),
{
    let x = m.read_spec(0xFF00);
    let m0 = if b0 { set_button_bit_spec(previous, m, 0) } else { m };
    let m1 = if b1 { set_button_bit_spec(previous, m0, 1) } else { m0 };
    let m2 = if b2 { set_button_bit_spec(previous, m1, 2) } else { m1 };
    lemma_set_button_bit_p1(previous, m, 0);
    lemma_set_button_bit_p1(previous, m0, 1);
    lemma_set_button_bit_p1(previous, m1, 2);
    lemma_set_button_bit_p1(previous, m2, 3);
    assert(x & 0xFFu8 == x) by (bit_vector);
    let y = m0.read_spec(0xFF00);
    assert(y & 0xFFu8 == y) by (bit_vector);
    let z = m1.read_spec(0xFF00);
    assert(z & 0xFFu8 == z) by (bit_vector);
    let w = m2.read_spec(0xFF00);
    assert(w & 0xFFu8 == w) by (bit_vector);
}

/// An update writes the held buttons into P1: the selection bits (7 to 4) are kept; with the
/// direction group selected (P1 bits 5 and 4 are 0b01) Down clears bit 0, Up bit 1, Left bit 2
/// and Right bit 3; with the action group selected (0b10) Start clears bit 0, Select bit 1, A
/// bit 2 and B bit 3; a bit is cleared exactly when its button is held, and with no group
/// selected no bit is cleared. The update remembers the P1 it leaves.
pub proof fn lemma_update_writes_the_buttons(j: JoyPad, m: Memory)
    ensures
        ({
            let p = m.read_spec(0xFF00);
            let q = j.update_spec(m).1.read_spec(0xFF00);
            &&& q / 16 == p / 16
            &&& p / 16 == 1 ==> {
                &&& bit(q, 0) == !j.down
                &&& bit(q, 1) == !j.up
                &&& bit(q, 2) == !j.left
                &&& bit(q, 3) == !j.right
            }
            &&& p / 16 == 2 ==> {
                &&& bit(q, 0) == !j.start
                &&& bit(q, 1) == !j.select
                &&& bit(q, 2) == !j.a
                &&& bit(q, 3) == !j.b
            }
            &&& (p / 16 != 1 && p / 16 != 2) ==> q % 16 == 15
            &&& j.update_spec(m).0 == (JoyPad { previous: q, ..j })
        }),
{
    let p = m.read_spec(0xFF00);
    let m0 = m.write_spec(0xFF00, m.write_cell_spec(0xFF00) | 0x0F);
    let x = p | 0x0Fu8;
    assert(m0.read_spec(0xFF00) == x);
    assert(x / 16 == p / 16) by (bit_vector)
        requires
            x == p | 0x0Fu8,
    ;
    let (d, u, l, r) = (j.down, j.up, j.left, j.right);
    let (st, se, a, b) = (j.start, j.select, j.a, j.b);
    if p / 16 == 2 {
        lemma_press_group_p1(j.previous, m0, st, se, a, b);
        assert({
            let q = x & press_mask(st, 0) & press_mask(se, 1) & press_mask(a, 2) & press_mask(b, 3);
            &&& q / 16 == p / 16
            &&& ((q >> 0u8) & 1u8 == 1u8) == !st
            &&& ((q >> 1u8) & 1u8 == 1u8) == !se
            &&& ((q >> 2u8) & 1u8 == 1u8) == !a
            &&& ((q >> 3u8) & 1u8 == 1u8) == !b
        }) by (bit_vector)
            requires
                x == p | 0x0Fu8,
        ;
    } else if p / 16 == 1 {
        lemma_press_group_p1(j.previous, m0, d, u, l, r);
        assert({
            let q = x & press_mask(d, 0) & press_mask(u, 1) & press_mask(l, 2) & press_mask(r, 3);
            &&& q / 16 == p / 16
            &&& ((q >> 0u8) & 1u8 == 1u8) == !d
            &&& ((q >> 1u8) & 1u8 == 1u8) == !u
            &&& ((q >> 2u8) & 1u8 == 1u8) == !l
            &&& ((q >> 3u8) & 1u8 == 1u8) == !r
        }) by (bit_vector)
            requires
                x == p | 0x0Fu8,
        ;
    } else {
        assert(x % 16 == 15) by (bit_vector)
            requires
                x == p | 0x0Fu8,
        ;
    }
}

/// Whether pressing a group with these held buttons requests the joypad interrupt: a held
/// button whose P1 bit was set (not pressed) at the last update.
pub open spec fn newly_pressed(previous: u8, b0: bool, b1: bool, b2: bool, b3: bool) -> bool {
    (b0 && bit(previous, 0)) || (b1 && bit(previous, 1)) || (b2 && bit(previous, 2)) || (b3 && bit(previous, 3))
}

/// Pressing a button sets IF bit 4 when its P1 bit was set at the last update.
proof fn lemma_set_button_bit_if(previous: u8, m: Memory, b: u8)
    requires
        b <= 3,
    ensures
        set_button_bit_spec(previous, m, b).read_spec(0xFF0F) == if bit(previous, b) {
            m.read_spec(0xFF0F) | 0x10u8
        } else {
            m.read_spec(0xFF0F)
        },
{
}

/// Pressing a group sets IF bit 4 exactly when a held button is newly pressed.
proof fn lemma_press_group_if(previous: u8, m: Memory, b0: bool, b1: bool, b2: bool, b3: bool)
    ensures
        press_group(previous, m, b0, b1, b2, b3).read_spec(0xFF0F) == if newly_pressed(previous, b0, b1, b2, b3) {
            m.read_spec(0xFF0F) | 0x10u8
        } else {
            m.read_spec(0xFF0F)
        },
{
    let m0 = if b0 { set_button_bit_spec(previous, m, 0) } else { m };
    let m1 = if b1 { set_button_bit_spec(previous, m0, 1) } else { m0 };
    let m2 = if b2 { set_button_bit_spec(previous, m1, 2) } else { m1 };
    lemma_set_button_bit_if(previous, m, 0);
    lemma_set_button_bit_if(previous, m0, 1);
    lemma_set_button_bit_if(previous, m1, 2);
    lemma_set_button_bit_if(previous, m2, 3);
    let f = m.read_spec(0xFF0F);
    assert((f | 0x10u8) | 0x10u8 == f | 0x10u8) by (bit_vector);
}

/// An update requests the joypad interrupt (IF bit 4) exactly when a held button of the
/// selected group is newly pressed (its P1 bit was set at the last update); IF keeps its other
/// bits, and with no group selected it is left alone.
pub proof fn lemma_update_requests_the_interrupt(j: JoyPad, m: Memory)
    ensures
        ({
            let p = m.read_spec(0xFF00);
            let f = m.read_spec(0xFF0F);
            let f1 = j.update_spec(m).1.read_spec(0xFF0F);
            &&& p / 16 == 1 ==> f1 == if newly_pressed(j.previous, j.down, j.up, j.left, j.right) { f | 0x10u8 } else { f }
            &&& p / 16 == 2 ==> f1 == if newly_pressed(j.previous, j.start, j.select, j.a, j.b) { f | 0x10u8 } else { f }
            &&& (p / 16 != 1 && p / 16 != 2) ==> f1 == f
        }),
{
    let p = m.read_spec(0xFF00);
    let m0 = m.write_spec(0xFF00, m.write_cell_spec(0xFF00) | 0x0F);
    let x = p | 0x0Fu8;
    assert(x / 16 == p / 16) by (bit_vector)
        requires
            x == p | 0x0Fu8,
    ;
    assert(m0.read_spec(0xFF0F) == m.read_spec(0xFF0F));
    if p / 16 == 2 {
        lemma_press_group_if(j.previous, m0, j.start, j.select, j.a, j.b);
        lemma_press_group_p1(j.previous, m0, j.start, j.select, j.a, j.b);
        let (st, se, a, b) = (j.start, j.select, j.a, j.b);
        assert((x & press_mask(st, 0) & press_mask(se, 1) & press_mask(a, 2) & press_mask(b, 3)) / 16 == x / 16)
            by (bit_vector);
    } else if p / 16 == 1 {
        lemma_press_group_if(j.previous, m0, j.down, j.up, j.left, j.right);
    }
}

} // verus!
