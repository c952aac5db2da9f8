//! Stepper phase sequencer: a cyclic table of coil patterns and a cursor into it.

use vstd::arithmetic::div_mod::{
    lemma_add_mod_noop_right, lemma_mod_add_multiples_vanish, lemma_mod_self_0, lemma_small_mod,
};
use vstd::prelude::*;

verus! {

/// A coil pattern drives four outputs. Bit 3 is coil 1 and bit 0 is coil 4,
/// so the pattern written `1010` energizes coils 1 and 3.
pub open spec fn is_pattern(p: u8) -> bool {
    p < 16
}

/// The value of coil `coil`'s bit in a pattern (coil 0 is coil 1, the highest bit).
pub open spec fn coil_weight(coil: int) -> int {
    if coil == 0 {
        8
    } else if coil == 1 {
        4
    } else if coil == 2 {
        2
    } else {
        1
    }
}

/// Whether pattern `p` drives coil `coil` high.
pub open spec fn coil_high(p: u8, coil: int) -> bool {
    (p as int / coil_weight(coil)) % 2 == 1
}

/// Whether `pattern` drives coil `coil` (0 to 3, in the order coil 1 to
/// coil 4) high.
pub fn coil_is_high(pattern: u8, coil: usize) -> (r: bool)
    requires
        coil < 4,
    ensures
        r == coil_high(pattern, coil as int),
{
    let weight: u8 = if coil == 0 {
        8
    } else if coil == 1 {
        4
    } else if coil == 2 {
        2
    } else {
        1
    };
    (pattern / weight) % 2 == 1
}

/// A table that a sequencer can cycle through: not empty, each entry a pattern.
pub open spec fn valid_table(t: Seq<u8>) -> bool {
    &&& t.len() > 0
    &&& forall|i: int| 0 <= i < t.len() ==> is_pattern(#[trigger] t[i])
}

/// Full-step drive: two adjacent coils energized in each phase.
pub open spec fn full_step_table() -> Seq<u8> {
    seq![0b1010u8, 0b0110u8, 0b0101u8, 0b1001u8]
}

/// Half-step drive: single- and double-coil phases interleaved.
pub open spec fn half_step_table() -> Seq<u8> {
    seq![0b0001u8, 0b0011u8, 0b0010u8, 0b0110u8, 0b0100u8, 0b1100u8, 0b1000u8, 0b1001u8]
}

/// Why a list of patterns was not accepted as a phase table.
#[derive(Debug, Clone, Copy, PartialEq, Eq, Structural)]
pub enum TableError {
    /// The list holds no pattern.
    Empty,
    /// The entry at this position has a bit set above the four coils.
    NotAPattern { index: usize },
}

/// `index` is the first position of `t` that holds no pattern.
pub open spec fn first_bad_pattern(t: Seq<u8>, index: int) -> bool {
    &&& 0 <= index < t.len()
    &&& !is_pattern(t[index])
    &&& forall|j: int| 0 <= j < index ==> is_pattern(#[trigger] t[j])
}

/// An ordered, cyclic list of coil patterns.
pub struct PhaseTable {
    patterns: Vec<u8>,
}

impl View for PhaseTable {
    type V = Seq<u8>;

    closed spec fn view(&self) -> Seq<u8> {
        self.patterns@
    }
}

impl PhaseTable {
    /// The four-phase full-step table.
    pub fn full_step() -> (r: PhaseTable)
        ensures
            r@ == full_step_table(),
            valid_table(r@),
    {
        let patterns: Vec<u8> = vec![0b1010u8, 0b0110u8, 0b0101u8, 0b1001u8];
        assert(patterns@ =~= full_step_table());
        PhaseTable { patterns }
    }

    /// The eight-phase half-step table.
    pub fn half_step() -> (r: PhaseTable)
        ensures
            r@ == half_step_table(),
            valid_table(r@),
    {
        let patterns: Vec<u8> = vec![
            0b0001u8,
            0b0011u8,
            0b0010u8,
            0b0110u8,
            0b0100u8,
            0b1100u8,
            0b1000u8,
            0b1001u8,
        ];
        assert(patterns@ =~= half_step_table());
        PhaseTable { patterns }
    }

    /// A table of the caller's own, checked entry by entry.
    pub fn from_patterns(patterns: Vec<u8>) -> (r: Result<PhaseTable, TableError>)
        ensures
            patterns@.len() == 0 ==> r == Err::<PhaseTable, TableError>(TableError::Empty),
            patterns@.len() > 0 ==> match r {
                Ok(t) => t@ == patterns@ && valid_table(t@),
                Err(TableError::NotAPattern { index }) => first_bad_pattern(patterns@, index as int),
                Err(TableError::Empty) => false,
            },
            r is Ok <==> valid_table(patterns@),
    {
        if patterns.len() == 0 {
            return Err(TableError::Empty);
        }
        let mut i: usize = 0;
        while i < patterns.len()
            invariant
                0 <= i <= patterns@.len(),
                forall|j: int| 0 <= j < i ==> is_pattern(#[trigger] patterns@[j]),
            decreases patterns@.len() - i,
        {
            if patterns[i] >= 16 {
                return Err(TableError::NotAPattern { index: i });
            }
            i = i + 1;
        }
        Ok(PhaseTable { patterns })
    }

    /// Number of phases in one electrical cycle.
    pub fn len(&self) -> (r: usize)
        ensures
            r == self@.len(),
    {
        self.patterns.len()
    }

    /// The pattern of phase `i`.
    pub fn pattern(&self, i: usize) -> (r: u8)
        requires
            i < self@.len(),
        ensures
            r == self@[i as int],
    {
        self.patterns[i]
    }
}

/// Which way a step turns the motor.
#[derive(Debug, Clone, Copy, PartialEq, Eq, Structural)]
pub enum Direction {
    Forward,
    Backward,
}

/// The abstract state of a motor: its table, the phase it stands at, and
/// the pattern its four outputs carry.
pub struct MotorView {
    pub table: Seq<u8>,
    pub index: nat,
    pub outputs: u8,
}

impl MotorView {
    /// The table is usable, the index lies in it and the outputs hold a pattern.
    pub open spec fn valid(self) -> bool {
        &&& valid_table(self.table)
        &&& self.index < self.table.len()
        &&& is_pattern(self.outputs)
    }

    /// The pattern of the phase the motor stands at.
    pub open spec fn current_pattern(self) -> u8 {
        self.table[self.index as int]
    }

    /// One step forward: write the current phase, then move to the next one.
    pub open spec fn forward(self) -> MotorView {
        MotorView {
            table: self.table,
            index: ((self.index + 1) % self.table.len()) as nat,
            outputs: self.current_pattern(),
        }
    }

    /// One step back: write the current phase, then move to the previous one.
    pub open spec fn back(self) -> MotorView {
        MotorView {
            table: self.table,
            index: ((self.index + self.table.len() - 1) % (self.table.len() as int)) as nat,
            outputs: self.current_pattern(),
        }
    }

    /// One step in direction `d`.
    pub open spec fn step(self, d: Direction) -> MotorView {
        match d {
            Direction::Forward => self.forward(),
            Direction::Backward => self.back(),
        }
    }

    /// All four outputs low; the phase is kept.
    pub open spec fn stop(self) -> MotorView {
        MotorView { outputs: 0, ..self }
    }

    /// `n` steps forward.
    pub open spec fn forward_n(self, n: nat) -> MotorView
        decreases n,
    {
        if n == 0 {
            self
        } else {
            self.forward().forward_n((n - 1) as nat)
        }
    }
}

/// A step forward followed by a step back brings the motor back to the phase
/// it stood at. The two calls write different patterns: the first writes the
/// phase it leaves, the second the phase after it.
pub proof fn lemma_forward_then_back(m: MotorView)
    requires
        m.valid(),
    ensures
        m.forward().back().index == m.index,
        m.forward().back().table == m.table,
        m.forward().outputs == m.table[m.index as int],
        m.forward().back().outputs == m.table[(m.index as int + 1) % (m.table.len() as int)],
{
    let len = m.table.len() as int;
    if m.index + 1 == len {
        lemma_mod_self_0(len);
        lemma_small_mod((len - 1) as nat, len as nat);
    } else {
        lemma_small_mod((m.index + 1) as nat, len as nat);
        lemma_mod_add_multiples_vanish(m.index as int, len);
        lemma_small_mod(m.index, len as nat);
    }
}

/// After `n` steps forward the motor stands `n` phases further on, modulo
/// the length of its table.
pub proof fn lemma_forward_n_index(m: MotorView, n: nat)
    requires
        m.valid(),
    ensures
        m.forward_n(n).valid(),
        m.forward_n(n).table == m.table,
        m.forward_n(n).index == (m.index as int + n) % (m.table.len() as int),
    decreases n,
{
    let len = m.table.len() as int;
    if n == 0 {
        lemma_small_mod(m.index, len as nat);
    } else {
        let f = m.forward();
        lemma_forward_n_index(f, (n - 1) as nat);
        lemma_add_mod_noop_right(n - 1, m.index as int + 1, len);
    }
}

/// As many steps forward as the table has phases bring the motor back to
/// the phase it started from.
pub proof fn lemma_forward_cycle(m: MotorView)
    requires
        m.valid(),
    ensures
        m.forward_n(m.table.len()).index == m.index,
{
    let len = m.table.len() as int;
    lemma_forward_n_index(m, m.table.len());
    lemma_mod_add_multiples_vanish(m.index as int, len);
    lemma_small_mod(m.index, len as nat);
}

/// Stopping is idempotent: a second stop changes nothing, and a stop never
/// moves the phase.
pub proof fn lemma_stop_idempotent(m: MotorView)
    ensures
        m.stop().stop() == m.stop(),
        m.stop().index == m.index,
        m.stop().table == m.table,
        m.stop().outputs == 0,
{
}

/// A four-coil stepper motor driven through a phase table.
///
/// The motor holds the pattern its outputs should carry; after each call
/// the caller writes `outputs()` to the four pins.
pub struct Motor {
    table: PhaseTable,
    index: usize,
    outputs: u8,
}

impl View for Motor {
    type V = MotorView;

    closed spec fn view(&self) -> MotorView {
        MotorView { table: self.table@, index: self.index as nat, outputs: self.outputs }
    }
}

impl Motor {
    /// A motor at phase 0 with all outputs low.
    pub fn new(table: PhaseTable) -> (r: Motor)
        requires
            valid_table(table@),
        ensures
            r@ == (MotorView { table: table@, index: 0, outputs: 0 }),
            r@.valid(),
    {
        Motor { table, index: 0, outputs: 0 }
    }

    /// The phase the motor stands at.
    pub fn current_index(&self) -> (r: usize)
        ensures
            r == self@.index,
    {
        self.index
    }

    /// The pattern the four outputs carry.
    pub fn outputs(&self) -> (r: u8)
        ensures
            r == self@.outputs,
    {
        self.outputs
    }

    /// Number of phases in the motor's table.
    pub fn table_len(&self) -> (r: usize)
        ensures
            r == self@.table.len(),
    {
        self.table.len()
    }

    /// Puts the current phase's pattern on the outputs.
    fn do_step(&mut self)
        requires
            old(self)@.valid(),
        ensures
            final(self)@ == (MotorView { outputs: old(self)@.current_pattern(), ..old(self)@ }),
            final(self)@.valid(),
    {
        self.outputs = self.table.pattern(self.index);
    }

    /// Writes the current phase, then advances to the next, wrapping at the end.
    pub fn step_forward(&mut self)
        requires
            old(self)@.valid(),
        ensures
            final(self)@ == old(self)@.forward(),
            final(self)@.valid(),
    {
        self.do_step();
        let len = self.table.len();
        if self.index == len - 1 {
            proof {
                lemma_mod_self_0(len as int);
            }
            self.index = 0;
        } else {
            proof {
                lemma_small_mod((self.index + 1) as nat, len as nat);
            }
            self.index = self.index + 1;
        }
    }

    /// Writes the current phase, then moves back to the previous, wrapping at the start.
    pub fn step_back(&mut self)
        requires
            old(self)@.valid(),
        ensures
            final(self)@ == old(self)@.back(),
            final(self)@.valid(),
    {
        self.do_step();
        let len = self.table.len();
        if self.index == 0 {
            proof {
                lemma_small_mod((len - 1) as nat, len as nat);
            }
            self.index = len - 1;
        } else {
            proof {
                lemma_mod_add_multiples_vanish(self.index - 1, len as int);
                lemma_small_mod((self.index - 1) as nat, len as nat);
            }
            self.index = self.index - 1;
        }
    }

    /// One step in direction `d`.
    pub fn step(&mut self, d: Direction)
        requires
            old(self)@.valid(),
        ensures
            final(self)@ == old(self)@.step(d),
            final(self)@.valid(),
    {
        match d {
            Direction::Forward => self.step_forward(),
            Direction::Backward => self.step_back(),
        }
    }

    /// Forces all four outputs low; the phase is kept.
    pub fn stop(&mut self)
        requires
            old(self)@.valid(),
        ensures
            final(self)@ == old(self)@.stop(),
            final(self)@.valid(),
    {
        self.outputs = 0;
    }
}

} // verus!
