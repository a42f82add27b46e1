//! Breakpoint bookkeeping for the debug console: which opcodes and which
//! instruction counts stop execution. The console itself lives with the host.
use vstd::prelude::*;

verus! {

pub struct BreakPoint {
    /// Opcodes that stop execution.
    pub breakpoints: Vec<u16>,
    /// Whether the next instruction stops execution (single-stepping).
    pub should_stop: bool,
    /// Instruction counts that stop execution.
    pub counts: Vec<u64>,
    /// Instructions seen so far.
    pub counter: u64,
}

fn contains16(v: &Vec<u16>, x: u16) -> (r: bool)
    ensures
        r == v@.contains(x),
{
    let mut i: usize = 0;
    while i < v.len()
        invariant
            i <= v.len(),
            forall|k: int| 0 <= k < i ==> v@[k] != x,
        decreases v.len() - i,
    {
        if v[i] == x {
            return true;
        }
        i = i + 1;
    }
    false
}

fn contains64(v: &Vec<u64>, x: u64) -> (r: bool)
    ensures
        r == v@.contains(x),
{
    let mut i: usize = 0;
    while i < v.len()
        invariant
            i <= v.len(),
            forall|k: int| 0 <= k < i ==> v@[k] != x,
        decreases v.len() - i,
    {
        if v[i] == x {
            return true;
        }
        i = i + 1;
    }
    false
}

impl BreakPoint {
    /// Breakpoints on the given opcodes, nothing counted yet.
    pub fn new(points: &[u16]) -> (r: Self)
        ensures
            r.breakpoints@ == points@,
            r.counts@.len() == 0,
            r.counter == 0,
            !r.should_stop,
    {
        let mut breakpoints: Vec<u16> = Vec::new();
        let mut i: usize = 0;
        while i < points.len()
            invariant
                i <= points.len(),
                breakpoints@ == points@.subrange(0, i as int),
            decreases points.len() - i,
        {
            breakpoints.push(points[i]);
            i = i + 1;
            assert(breakpoints@ =~= points@.subrange(0, i as int));
        }
        assert(breakpoints@ =~= points@);
        BreakPoint { breakpoints, should_stop: false, counts: Vec::new(), counter: 0 }
    }

    /// Counts one more instruction, `opcode`, and says whether execution
    /// stops before it: when single-stepping, when the opcode has a
    /// breakpoint, or when the count has one.
    pub fn hit(&mut self, opcode: u16) -> (stop: bool)
        ensures
            final(self).counter == if old(self).counter == u64::MAX {
                u64::MAX
            } else {
                (old(self).counter + 1) as u64
            },
            stop == (old(self).should_stop || old(self).breakpoints@.contains(opcode)
                || old(self).counts@.contains(final(self).counter)),
            !final(self).should_stop,
            final(self).breakpoints@ == old(self).breakpoints@,
            final(self).counts@ == old(self).counts@,
    {
        self.counter = self.counter.saturating_add(1);
        let stop = self.should_stop || contains16(&self.breakpoints, opcode) || contains64(
            &self.counts,
            self.counter,
        );
        self.should_stop = false;
        stop
    }

    /// Stops again before the next instruction.
    pub fn step_next(&mut self)
        ensures
            final(self).should_stop,
            final(self).breakpoints@ == old(self).breakpoints@,
            final(self).counts@ == old(self).counts@,
            final(self).counter == old(self).counter,
    {
        self.should_stop = true;
    }

    /// Adds a breakpoint on `point`.
    pub fn add_breakpoint(&mut self, point: u16)
        ensures
            final(self).breakpoints@ == old(self).breakpoints@.push(point),
            final(self).counts@ == old(self).counts@,
            final(self).counter == old(self).counter,
            final(self).should_stop == old(self).should_stop,
    {
        self.breakpoints.push(point);
    }

    /// Removes the first breakpoint on `point`, if there is one.
    pub fn remove_breakpoint(&mut self, point: u16)
        ensures
            !old(self).breakpoints@.contains(point) ==> final(self).breakpoints@
                == old(self).breakpoints@,
            old(self).breakpoints@.contains(point) ==> exists|i: int|
                0 <= i < old(self).breakpoints@.len() && old(self).breakpoints@[i] == point
                    && (forall|k: int| 0 <= k < i ==> old(self).breakpoints@[k] != point)
                    && final(self).breakpoints@ == old(self).breakpoints@.remove(i),
            final(self).counts@ == old(self).counts@,
            final(self).counter == old(self).counter,
            final(self).should_stop == old(self).should_stop,
    {
        let mut i: usize = 0;
        while i < self.breakpoints.len()
            invariant
                i <= self.breakpoints.len(),
                self.breakpoints@ == old(self).breakpoints@,
                self.counts@ == old(self).counts@,
                self.counter == old(self).counter,
                self.should_stop == old(self).should_stop,
                forall|k: int| 0 <= k < i ==> self.breakpoints@[k] != point,
            decreases self.breakpoints.len() - i,
        {
            if self.breakpoints[i] == point {
                self.breakpoints.remove(i);
                return;
            }
            i = i + 1;
        }
    }

    /// Adds a breakpoint on instruction count `count`.
    pub fn add_count(&mut self, count: u64)
        ensures
            final(self).counts@ == old(self).counts@.push(count),
            final(self).breakpoints@ == old(self).breakpoints@,
            final(self).counter == old(self).counter,
            final(self).should_stop == old(self).should_stop,
    {
        self.counts.push(count);
    }
}

} // verus!
