//! The counting pattern: which value legally follows a given count.

use vstd::prelude::*;

verus! {

/// An observed counter value: one unsigned integer extracted from a row.
pub type Count = u32;

/// Why a pattern description was rejected at construction.
#[derive(Clone, Copy, Debug, PartialEq, Eq, Structural)]
pub enum ConfigError {
    /// `dims` was zero: a pattern needs at least one dimension.
    ZeroDims,
    /// `rollover` was zero: counts wrap at `rollover`, which must be positive.
    ZeroRollover,
    /// `steps` must hold exactly one entry per dimension.
    StepsLengthMismatch,
    /// `sizes` must hold one entry per dimension, the outermost optionally omitted.
    SizesLengthMismatch,
    /// Every listed dimension size must be positive.
    ZeroSize,
}

/// Describes the legal successor of a count: a plain increment within the
/// innermost dimension, a restart value when a dimension boundary is
/// crossed, and a rollover ceiling at which the count wraps back to zero.
#[derive(Clone, Debug, PartialEq, Eq)]
pub struct Pattern {
    /// Number of dimensions in which the counting pattern takes place.
    pub dims: u32,

    /// The rollover value for the pattern: the value at which a count
    /// wraps back to 0 (rollover 4 gives counts 0, 1, 2, 3, 0, ...).
    pub rollover: Count,

    /// The step taken when crossing between dimensions, one per dimension:
    /// the value the count restarts from when a carry lands in that
    /// dimension. A step of 0 means the count resets to 0 on crossing.
    pub steps: Vec<Count>,

    /// The number of elements in each dimension. The outermost dimension's
    /// entry may be omitted, meaning that dimension repeats without bound
    /// and never itself triggers a carry.
    pub sizes: Vec<Count>,
}

/// How many dimension boundaries the successor index `inc` crosses:
/// the innermost boundary is crossed when `inc` is a multiple of the
/// innermost size, and the carry recurses outward through each enclosing
/// dimension whose own boundary is reached in turn.
pub open spec fn carry_levels(sizes: Seq<Count>, inc: int) -> int
    decreases sizes.len(),
{
    if sizes.len() == 0 || inc % (sizes[0] as int) != 0 {
        0
    } else {
        1 + carry_levels(sizes.drop_first(), inc / (sizes[0] as int))
    }
}

impl Pattern {
    /// A well-formed pattern: at least one dimension, a positive rollover,
    /// one step per dimension, one size per dimension (the outermost
    /// optionally omitted), every listed size positive.
    pub open spec fn wf(self) -> bool {
        &&& self.dims >= 1
        &&& self.rollover > 0
        &&& self.steps@.len() == self.dims as int
        &&& (self.sizes@.len() == self.dims as int
            || self.sizes@.len() == self.dims as int - 1)
        &&& forall|i: int| 0 <= i < self.sizes@.len() ==> self.sizes@[i] > 0
    }

    /// The successor of `current` before the rollover wrap: `current + 1`
    /// while no dimension boundary is crossed; otherwise the restart value
    /// of the dimension the carry lands in. A carry that would leave the
    /// outermost dimension restarts at the outermost dimension's own step.
    pub open spec fn raw_next(self, current: Count) -> int {
        let inc = current as int + 1;
        let lvl = carry_levels(self.sizes@, inc);
        if lvl == 0 {
            inc
        } else if lvl < self.dims as int {
            self.steps@[lvl] as int
        } else {
            self.steps@[self.dims as int - 1] as int
        }
    }

    /// The next legal count after `current`: the raw successor, wrapped to
    /// 0 when it would reach the rollover ceiling.
    pub open spec fn next_expected_spec(self, current: Count) -> Count {
        if self.raw_next(current) >= self.rollover as int {
            0
        } else {
            self.raw_next(current) as Count
        }
    }

    /// Validated construction: every `Pattern` built here is well formed;
    /// an invalid description is rejected with the reason, never deferred
    /// to the first use.
    pub fn new(dims: u32, rollover: Count, steps: Vec<Count>, sizes: Vec<Count>) -> (r: Result<
        Pattern,
        ConfigError,
    >)
        ensures
            r is Ok <==> config_error_spec(dims, rollover, steps@, sizes@) is None,
            r matches Ok(p) ==> p == (Pattern { dims, rollover, steps, sizes }) && p.wf(),
            r matches Err(e) ==> config_error_spec(dims, rollover, steps@, sizes@) == Some(e),
    {
        if dims == 0 {
            return Err(ConfigError::ZeroDims);
        }
        if rollover == 0 {
            return Err(ConfigError::ZeroRollover);
        }
        if steps.len() != dims as usize {
            return Err(ConfigError::StepsLengthMismatch);
        }
        if sizes.len() != dims as usize && sizes.len() != dims as usize - 1 {
            return Err(ConfigError::SizesLengthMismatch);
        }
        let mut i: usize = 0;
        while i < sizes.len()
            invariant
                0 <= i <= sizes@.len(),
                forall|j: int| 0 <= j < i ==> sizes@[j] > 0,
                dims != 0,
                rollover != 0,
                steps@.len() == dims as int,
                sizes@.len() == dims as int || sizes@.len() == dims as int - 1,
            decreases sizes@.len() - i,
        {
            if sizes[i] == 0 {
                proof {
                    assert(0 <= i < sizes@.len() && sizes@[i as int] == 0);
                    assert(exists|j: int| 0 <= j < sizes@.len() && sizes@[j] == 0);
                    assert(config_error_spec(dims, rollover, steps@, sizes@) == Some(
                        ConfigError::ZeroSize,
                    ));
                }
                return Err(ConfigError::ZeroSize);
            }
            i = i + 1;
        }
        Ok(Pattern { dims, rollover, steps, sizes })
    }

    /// Compute the next legal count after `count`, exactly as
    /// [`Pattern::next_expected_spec`] describes it. The result always
    /// lies below the rollover ceiling.
    pub fn next_expected(&self, count: Count) -> (r: Count)
        requires
            self.wf(),
        ensures
            r == self.next_expected_spec(count),
            r < self.rollover,
    {
        let inc: u64 = count as u64 + 1;
        let mut lvl: usize = 0;
        let mut q: u64 = inc;
        proof {
            assert(self.sizes@.skip(0) =~= self.sizes@);
        }
        while lvl < self.sizes.len() && q % (self.sizes[lvl] as u64) == 0
            invariant
                self.wf(),
                0 <= lvl <= self.sizes@.len(),
                carry_levels(self.sizes@, inc as int) == lvl + carry_levels(
                    self.sizes@.skip(lvl as int),
                    q as int,
                ),
            decreases self.sizes@.len() - lvl,
        {
            proof {
                assert(self.sizes@.skip(lvl as int)[0] == self.sizes@[lvl as int]);
                assert(self.sizes@.skip(lvl as int).drop_first() =~= self.sizes@.skip(
                    lvl as int + 1,
                ));
            }
            q = q / (self.sizes[lvl] as u64);
            lvl = lvl + 1;
        }
        proof {
            if lvl < self.sizes@.len() {
                assert(self.sizes@.skip(lvl as int)[0] == self.sizes@[lvl as int]);
            }
            assert(carry_levels(self.sizes@.skip(lvl as int), q as int) == 0);
        }
        let candidate: u64 = if lvl == 0 {
            inc
        } else if lvl < self.dims as usize {
            self.steps[lvl] as u64
        } else {
            self.steps[self.dims as usize - 1] as u64
        };
        if candidate >= self.rollover as u64 {
            0
        } else {
            candidate as u32
        }
    }
}

/// The reason, if any, a pattern description is invalid, checked in a
/// fixed order: dimension count, rollover, step count, size count, then
/// each listed size.
pub open spec fn config_error_spec(
    dims: u32,
    rollover: Count,
    steps: Seq<Count>,
    sizes: Seq<Count>,
) -> Option<ConfigError> {
    if dims == 0 {
        Some(ConfigError::ZeroDims)
    } else if rollover == 0 {
        Some(ConfigError::ZeroRollover)
    } else if steps.len() != dims as int {
        Some(ConfigError::StepsLengthMismatch)
    } else if sizes.len() != dims as int && sizes.len() != dims as int - 1 {
        Some(ConfigError::SizesLengthMismatch)
    } else if exists|i: int| 0 <= i < sizes.len() && sizes[i] == 0 {
        Some(ConfigError::ZeroSize)
    } else {
        None
    }
}

/// The successor strategy a counting machine is parameterized over: what
/// value should legally follow a given count.
pub trait Successor {
    /// When the strategy's description is well formed.
    spec fn valid(&self) -> bool;

    /// The value that should follow `c`.
    spec fn succ_spec(&self, c: Count) -> Count;

    /// Compute the successor of `c`.
    fn succ(&self, c: Count) -> (r: Count)
        requires
            self.valid(),
        ensures
            r == self.succ_spec(c),
    ;
}

impl Successor for Pattern {
    open spec fn valid(&self) -> bool {
        self.wf()
    }

    open spec fn succ_spec(&self, c: Count) -> Count {
        self.next_expected_spec(c)
    }

    fn succ(&self, c: Count) -> (r: Count) {
        self.next_expected(c)
    }
}

/// The implicit successor of the plain counting machine: counts advance by
/// one, with no rollover below the machine word's end. The successor of the
/// largest representable count wraps to 0, the one point where a plain
/// `+ 1` does not exist.
#[derive(Clone, Copy, Debug, PartialEq, Eq, Structural)]
pub struct SimpleSuccessor;

impl Successor for SimpleSuccessor {
    open spec fn valid(&self) -> bool {
        true
    }

    open spec fn succ_spec(&self, c: Count) -> Count {
        if c == u32::MAX {
            0
        } else {
            (c + 1) as Count
        }
    }

    fn succ(&self, c: Count) -> (r: Count) {
        if c == u32::MAX {
            0
        } else {
            c + 1
        }
    }
}

/// Law: the successor function is deterministic and pure — equal patterns
/// fed equal counts always yield equal results, and computing it has no
/// observable side effect (it is a function of its arguments alone).
pub proof fn lemma_next_expected_deterministic(p1: Pattern, p2: Pattern, c1: Count, c2: Count)
    requires
        p1 == p2,
        c1 == c2,
    ensures
        p1.next_expected_spec(c1) == p2.next_expected_spec(c2),
{
}

/// Law: rollover correctness. For a pattern with no dimensional stepping,
/// the last count before the rollover ceiling wraps to zero.
pub proof fn lemma_rollover_wraps(p: Pattern)
    requires
        p.wf(),
        p.sizes@.len() == 0,
    ensures
        p.next_expected_spec((p.rollover - 1) as Count) == 0,
{
    let c = (p.rollover - 1) as Count;
    assert(carry_levels(p.sizes@, c as int + 1) == 0);
    assert(p.raw_next(c) == p.rollover as int);
}

} // verus!
