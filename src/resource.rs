use vstd::prelude::*;
use crate::exceptions::{ExcType, RunError, opt_text};

verus! {

/// Ceilings for one execution; `None` leaves a resource unbounded.
#[derive(Debug, Clone, Copy, PartialEq, Eq, Structural)]
pub struct ResourceLimits {
    pub max_instructions: Option<u64>,
    pub max_memory: Option<usize>,
}

impl ResourceLimits {
    /// No ceiling on either resource.
    pub fn new() -> (r: ResourceLimits)
        ensures
            r.max_instructions.is_none(),
            r.max_memory.is_none(),
    {
        ResourceLimits { max_instructions: None, max_memory: None }
    }
}

/// Whether `n` stays within an optional ceiling.
pub open spec fn within(limit: Option<int>, n: int) -> bool {
    match limit {
        Some(m) => n <= m,
        None => true,
    }
}

pub open spec fn instruction_limit(l: ResourceLimits) -> Option<int> {
    match l.max_instructions {
        Some(m) => Some(m as int),
        None => None,
    }
}

pub open spec fn memory_limit(l: ResourceLimits) -> Option<int> {
    match l.max_memory {
        Some(m) => Some(m as int),
        None => None,
    }
}

/// The instruction count after `n` more units, as the tracker saturates it.
pub open spec fn counted(start: nat, n: nat) -> nat {
    if start + n <= u64::MAX {
        start + n
    } else {
        u64::MAX as nat
    }
}

/// The message of the exception that ends a run out of instructions.
pub open spec fn instruction_limit_message() -> Seq<char> {
    "instruction limit exceeded"@
}

/// The message of the exception that refuses an allocation.
pub open spec fn memory_limit_message() -> Seq<char> {
    "memory limit exceeded"@
}

/// The error that a spent instruction budget gives.
pub open spec fn is_instruction_exhaustion(e: RunError) -> bool {
    e matches RunError::Exc(x) && x.exc_type == ExcType::RuntimeError && opt_text(x.message)
        == Some(instruction_limit_message())
}

/// The error that a refused allocation gives.
pub open spec fn is_memory_exhaustion(e: RunError) -> bool {
    e matches RunError::Exc(x) && x.exc_type == ExcType::MemoryError && opt_text(x.message)
        == Some(memory_limit_message())
}

/// Memory only grows from `old` to `new`, and any growth stays within the ceiling.
pub open spec fn charged_within(old: LimitedTracker, new: LimitedTracker) -> bool {
    new.memory() >= old.memory() && (new.memory() == old.memory() || within(
        memory_limit(new.limits()),
        new.memory() as int,
    ))
}

/// Counters of one execution, held against its limits. They only grow.
#[derive(Debug)]
pub struct LimitedTracker {
    limits: ResourceLimits,
    instructions: u64,
    memory: usize,
}

impl LimitedTracker {
    pub closed spec fn limits(&self) -> ResourceLimits {
        self.limits
    }

    /// Units of work counted so far.
    pub closed spec fn instructions(&self) -> nat {
        self.instructions as nat
    }

    /// Bytes charged so far.
    pub closed spec fn memory(&self) -> nat {
        self.memory as nat
    }

    /// Both counters are within their ceilings.
    pub open spec fn within_limits(&self) -> bool {
        within(instruction_limit(self.limits()), self.instructions() as int) && within(
            memory_limit(self.limits()),
            self.memory() as int,
        )
    }

    pub fn new(limits: ResourceLimits) -> (r: LimitedTracker)
        ensures
            r.limits() == limits,
            r.instructions() == 0,
            r.memory() == 0,
    {
        LimitedTracker { limits, instructions: 0, memory: 0 }
    }

    pub fn instruction_count(&self) -> (r: u64)
        ensures
            r == self.instructions(),
    {
        self.instructions
    }

    pub fn memory_used(&self) -> (r: usize)
        ensures
            r == self.memory(),
    {
        self.memory
    }

    /// Counts one unit of work. Fails, for good, once the count passes the ceiling.
    pub fn tick(&mut self) -> (r: Result<(), RunError>)
        ensures
            final(self).limits() == old(self).limits(),
            final(self).memory() == old(self).memory(),
            final(self).instructions() == counted(old(self).instructions(), 1),
            final(self).instructions() >= old(self).instructions(),
            old(self).instructions() < u64::MAX ==> final(self).instructions() == old(self).instructions() + 1,
            r.is_ok() == within(instruction_limit(old(self).limits()), final(self).instructions() as int),
            r matches Err(e) ==> is_instruction_exhaustion(e),
    {
        if self.instructions < u64::MAX {
            self.instructions = self.instructions + 1;
        }
        match self.limits.max_instructions {
            Some(m) => {
                if self.instructions > m {
                    return Err(RunError::exc(ExcType::RuntimeError, "instruction limit exceeded"));
                }
            },
            None => {},
        }
        Ok(())
    }

    /// Charges `size` bytes, or refuses them where the ceiling would be passed.
    pub fn charge_memory(&mut self, size: usize) -> (r: Result<(), RunError>)
        ensures
            final(self).limits() == old(self).limits(),
            final(self).instructions() == old(self).instructions(),
            r.is_ok() == (old(self).memory() + size <= usize::MAX && within(
                memory_limit(old(self).limits()),
                old(self).memory() + size,
            )),
            r.is_ok() ==> final(self).memory() == old(self).memory() + size,
            r.is_err() ==> final(self).memory() == old(self).memory(),
            r matches Err(e) ==> is_memory_exhaustion(e),
    {
        if self.memory > usize::MAX - size {
            return Err(RunError::exc(ExcType::MemoryError, "memory limit exceeded"));
        }
        let total = self.memory + size;
        match self.limits.max_memory {
            Some(m) => {
                if total > m {
                    return Err(RunError::exc(ExcType::MemoryError, "memory limit exceeded"));
                }
            },
            None => {},
        }
        self.memory = total;
        Ok(())
    }
}

} // verus!
