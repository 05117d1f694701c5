//! A model of the memory bus that the drivers talk to.
//!
//! Every register access of a driver goes through a [`Bus`]. The bus keeps the
//! ordered record of what was done to the hardware: each 32-bit store, each
//! clock gate that was opened and each interrupt line that was unmasked. The
//! value of a register is the last word stored at its address (zero, the reset
//! value, before any store), so the record is at once the memory and the trace
//! in which the order of the stores can be checked.

use vstd::prelude::*;
use crate::field::{fits, field_of, with_field, get_field, set_field, mask, lemma_round_trip, lemma_isolation};

verus! {

/// The identity of a peripheral's clock gate at the system controller.
#[derive(Clone, Copy, Debug, PartialEq, Eq, Structural)]
pub enum PeripheralClock {
    /// A GPIO port, by its number (port A is 0).
    Gpio(u8),
    /// A 16/32-bit general purpose timer module.
    Timer(u8),
    /// A 32/64-bit wide timer module.
    WideTimer(u8),
    /// A PWM module.
    Pwm(u8),
    /// A quadrature encoder interface.
    Qei(u8),
}

/// One thing done to the hardware.
#[derive(Clone, Copy, Debug, PartialEq, Eq, Structural)]
pub enum Event {
    /// A 32-bit volatile store of `value` at `addr`.
    Write { addr: u32, value: u32 },
    /// The clock gate `clock` was opened.
    ClockOn { clock: PeripheralClock },
    /// The external interrupt line `line` was unmasked at the interrupt controller.
    IrqOn { line: u32 },
}

/// The value that the register at `addr` holds after `log`.
pub open spec fn value_at(log: Seq<Event>, addr: u32) -> u32
    decreases log.len(),
{
    if log.len() == 0 {
        0
    } else {
        match log.last() {
            Event::Write { addr: a, value } if a == addr => value,
            _ => value_at(log.drop_last(), addr),
        }
    }
}

/// `log` followed by a store of `value` at `addr`.
pub open spec fn store(log: Seq<Event>, addr: u32, value: u32) -> Seq<Event> {
    log.push(Event::Write { addr, value })
}

/// `log` followed by a read-modify-write of one field of the register at `addr`:
/// the whole word is stored back with only that field changed.
pub open spec fn rmw(log: Seq<Event>, addr: u32, lo: u32, width: u32, v: u32) -> Seq<Event> {
    store(log, addr, with_field(value_at(log, addr), lo, width, v))
}

/// `log` followed by a store to a write-only register of a word that holds `v`
/// in one field and zero in every other bit.
pub open spec fn write_field(log: Seq<Event>, addr: u32, lo: u32, width: u32, v: u32) -> Seq<Event> {
    store(log, addr, with_field(0, lo, width, v))
}

/// The clock gate `clock` has been opened in `log`.
pub open spec fn clock_on(log: Seq<Event>, clock: PeripheralClock) -> bool {
    exists|i: int| 0 <= i < log.len() && log[i] == (Event::ClockOn { clock })
}

/// `log` after making sure that `clock` is open: it is recorded once, the first time.
pub open spec fn ensure_clock(log: Seq<Event>, clock: PeripheralClock) -> Seq<Event> {
    if clock_on(log, clock) {
        log
    } else {
        log.push(Event::ClockOn { clock })
    }
}

/// `log` after unmasking the interrupt of hardware vector `vector`, whose
/// external line is `vector - 16`.
pub open spec fn irq_on(log: Seq<Event>, vector: nat) -> Seq<Event> {
    log.push(Event::IrqOn { line: (vector - 16) as u32 })
}

/// The address `offset` bytes into the register block at `base`.
pub open spec fn reg_addr(base: u32, offset: u32) -> u32 {
    (base + offset) as u32
}

/// What one more event does to the value of a register: a store at its
/// address replaces it, anything else leaves it.
pub broadcast proof fn lemma_value_after_push(log: Seq<Event>, e: Event, addr: u32)
    ensures
        #[trigger] value_at(log.push(e), addr) == (match e {
            Event::Write { addr: a, value } => if a == addr { value } else { value_at(log, addr) },
            _ => value_at(log, addr),
        }),
{
    assert(log.push(e).drop_last() =~= log);
}

/// Opening a clock gate stores nothing.
pub proof fn lemma_ensure_clock_keeps_values(log: Seq<Event>, clock: PeripheralClock, addr: u32)
    ensures
        value_at(ensure_clock(log, clock), addr) == value_at(log, addr),
{
    lemma_value_after_push(log, Event::ClockOn { clock }, addr);
}

/// A field written through the bus reads back as the value written, for every
/// value that the field's width can hold.
pub proof fn lemma_field_round_trip(log: Seq<Event>, addr: u32, lo: u32, width: u32, v: u32)
    requires
        fits(lo, width),
        v <= mask(width),
    ensures
        field_of(value_at(rmw(log, addr, lo, width, v), addr), lo, width) == v,
{
    lemma_value_after_push(log, Event::Write { addr, value: with_field(value_at(log, addr), lo, width, v) }, addr);
    lemma_round_trip(value_at(log, addr), lo, width, v);
}

/// A read-modify-write of one field keeps the value of every other field: of
/// a field of the same register that does not overlap it, and of any field of
/// another register.
pub proof fn lemma_field_isolation(
    log: Seq<Event>,
    addr: u32,
    lo: u32,
    width: u32,
    v: u32,
    other_addr: u32,
    other_lo: u32,
    other_width: u32,
)
    requires
        fits(lo, width),
        fits(other_lo, other_width),
        addr != other_addr || lo + width <= other_lo || other_lo + other_width <= lo,
    ensures
        field_of(value_at(rmw(log, addr, lo, width, v), other_addr), other_lo, other_width)
            == field_of(value_at(log, other_addr), other_lo, other_width),
{
    let word = with_field(value_at(log, addr), lo, width, v);
    lemma_value_after_push(log, Event::Write { addr, value: word }, other_addr);
    if addr == other_addr {
        lemma_isolation(value_at(log, addr), lo, width, v, other_lo, other_width);
    }
}

/// Every store in `log`, from event `from` on, to an address in `addrs` found
/// bit `lane` of the register at `enable_addr` clear when it was made.
pub open spec fn stored_while_clear(log: Seq<Event>, from: nat, addrs: Set<u32>, enable_addr: u32, lane: u32) -> bool
    decreases log.len(),
{
    if log.len() <= from {
        true
    } else {
        &&& stored_while_clear(log.drop_last(), from, addrs, enable_addr, lane)
        &&& match log.last() {
            Event::Write { addr, value: _ } => addrs.contains(addr) ==> field_of(
                value_at(log.drop_last(), enable_addr),
                lane,
                1,
            ) == 0,
            _ => true,
        }
    }
}

/// What one more event adds to `stored_while_clear`.
pub broadcast proof fn lemma_stored_while_clear_push(
    log: Seq<Event>,
    e: Event,
    from: nat,
    addrs: Set<u32>,
    enable_addr: u32,
    lane: u32,
)
    requires
        from <= log.len(),
    ensures
        #[trigger] stored_while_clear(log.push(e), from, addrs, enable_addr, lane) == (stored_while_clear(
            log,
            from,
            addrs,
            enable_addr,
            lane,
        ) && match e {
            Event::Write { addr, value: _ } => addrs.contains(addr) ==> field_of(value_at(log, enable_addr), lane, 1)
                == 0,
            _ => true,
        }),
{
    assert(log.push(e).drop_last() =~= log);
}

/// Nothing has been stored from the end of `log` on.
pub proof fn lemma_stored_while_clear_start(log: Seq<Event>, addrs: Set<u32>, enable_addr: u32, lane: u32)
    ensures
        stored_while_clear(log, log.len(), addrs, enable_addr, lane),
{
}

/// The bus: the record of everything done to the hardware so far.
pub struct Bus {
    events: Vec<Event>,
}

impl View for Bus {
    type V = Seq<Event>;

    closed spec fn view(&self) -> Seq<Event> {
        self.events@
    }
}

impl Bus {
    /// A bus on which nothing has happened yet: every register holds zero.
    pub fn new() -> (r: Bus)
        ensures
            r@ == Seq::<Event>::empty(),
    {
        Bus { events: Vec::new() }
    }

    /// Everything done to the hardware so far, in order.
    pub fn events(&self) -> (r: &Vec<Event>)
        ensures
            r@ == self@,
    {
        &self.events
    }

    /// Reads the register at `addr`.
    pub fn read(&self, addr: u32) -> (r: u32)
        ensures
            r == value_at(self@, addr),
    {
        let mut i: usize = self.events.len();
        assert(self.events@.take(i as int) =~= self.events@);
        while i > 0
            invariant
                i <= self.events@.len(),
                value_at(self.events@.take(i as int), addr) == value_at(self.events@, addr),
            decreases i,
        {
            let e = self.events[i - 1];
            proof {
                assert(self.events@.take(i as int).drop_last() =~= self.events@.take(i - 1));
            }
            match e {
                Event::Write { addr: a, value } => {
                    if a == addr {
                        return value;
                    }
                },
                _ => {},
            }
            i = i - 1;
        }
        0
    }

    /// Stores `value` at `addr`.
    pub fn write(&mut self, addr: u32, value: u32)
        ensures
            final(self)@ == store(old(self)@, addr, value),
    {
        self.events.push(Event::Write { addr, value });
    }

    /// Reads the field `lo .. lo + width` of the register at `addr`.
    pub fn field(&self, addr: u32, lo: u32, width: u32) -> (r: u32)
        requires
            fits(lo, width),
        ensures
            r == field_of(value_at(self@, addr), lo, width),
    {
        get_field(self.read(addr), lo, width)
    }

    /// Sets the field `lo .. lo + width` of the register at `addr` to the low
    /// bits of `v` by a read-modify-write that keeps every other bit.
    pub fn modify(&mut self, addr: u32, lo: u32, width: u32, v: u32)
        requires
            fits(lo, width),
        ensures
            final(self)@ == rmw(old(self)@, addr, lo, width, v),
    {
        let word = self.read(addr);
        self.write(addr, set_field(word, lo, width, v));
    }

    /// Stores at the write-only register `addr` a word that holds `v` in the
    /// field `lo .. lo + width` and zero elsewhere.
    pub fn write_field(&mut self, addr: u32, lo: u32, width: u32, v: u32)
        requires
            fits(lo, width),
        ensures
            final(self)@ == write_field(old(self)@, addr, lo, width, v),
    {
        self.write(addr, set_field(0, lo, width, v));
    }

    /// Makes sure that the clock gate `clock` is open. Opening an open gate
    /// does nothing.
    pub fn ensure_enabled(&mut self, clock: PeripheralClock)
        ensures
            final(self)@ == ensure_clock(old(self)@, clock),
    {
        let mut i: usize = 0;
        while i < self.events.len()
            invariant
                i <= self.events@.len(),
                forall|j: int| 0 <= j < i ==> self.events@[j] != (Event::ClockOn { clock }),
            decreases self.events@.len() - i,
        {
            if self.events[i] == (Event::ClockOn { clock }) {
                return;
            }
            i = i + 1;
        }
        self.events.push(Event::ClockOn { clock });
    }

    /// Unmasks at the interrupt controller the interrupt of hardware vector
    /// `vector`. The first 16 vectors are the core's own exceptions.
    pub fn enable_irq(&mut self, vector: usize)
        requires
            16 <= vector < 16 + 0x1_0000_0000,
        ensures
            final(self)@ == irq_on(old(self)@, vector as nat),
    {
        self.events.push(Event::IrqOn { line: (vector - 16) as u32 });
    }
}

} // verus!
