use vstd::prelude::*;

verus! {

/// Least urgent task priority.
pub const LOWEST_PRIORITY: u8 = 1;
/// Most urgent task priority (three NVIC priority bits give eight levels).
pub const HIGHEST_PRIORITY: u8 = 8;
/// The level at which the protocol stack serves its supervisor calls.
/// Calls into the stack are legal only from levels strictly below it.
pub const SVC_PRIORITY: u8 = 4;

/// Levels that the protocol stack keeps for its own interrupts
/// (NVIC priorities 0, 1 and 4).
pub open spec fn is_reserved(level: u8) -> bool {
    level == SVC_PRIORITY || level == 7 || level == 8
}

/// Levels that an application task may be given.
pub open spec fn is_app_level(level: u8) -> bool {
    LOWEST_PRIORITY <= level <= HIGHEST_PRIORITY && !is_reserved(level)
}

/// Why a level cannot be given to an application task.
#[derive(Clone, Copy, Debug, PartialEq, Eq, Structural)]
pub enum PriorityError {
    /// The level is outside `LOWEST_PRIORITY..=HIGHEST_PRIORITY`.
    OutOfRange(u8),
    /// The level belongs to the protocol stack.
    Reserved(u8),
}

/// The priority of an application task. A value of this type never holds a
/// reserved or out-of-range level: such a level is refused when the value is
/// built.
#[derive(Clone, Copy, Debug, PartialEq, Eq)]
pub struct TaskPriority {
    level: u8,
}

impl TaskPriority {
    #[verifier::type_invariant]
    spec fn inv(self) -> bool {
        is_app_level(self.level)
    }

    pub closed spec fn spec_level(self) -> u8 {
        self.level
    }

    /// Whether a task at this priority may call into the protocol stack.
    pub open spec fn spec_can_call_stack(self) -> bool {
        self.spec_level() < SVC_PRIORITY
    }

    /// Gives a task the level `level`, or says why it cannot have it.
    pub fn new(level: u8) -> (r: Result<TaskPriority, PriorityError>)
        ensures
            (level < LOWEST_PRIORITY || level > HIGHEST_PRIORITY) ==> r == Err::<
                TaskPriority,
                PriorityError,
            >(PriorityError::OutOfRange(level)),
            (LOWEST_PRIORITY <= level <= HIGHEST_PRIORITY && is_reserved(level)) ==> r == Err::<
                TaskPriority,
                PriorityError,
            >(PriorityError::Reserved(level)),
            is_app_level(level) ==> (r matches Ok(p) && p.spec_level() == level),
    {
        if level < LOWEST_PRIORITY || level > HIGHEST_PRIORITY {
            Err(PriorityError::OutOfRange(level))
        } else if level == SVC_PRIORITY || level == 7 || level == 8 {
            Err(PriorityError::Reserved(level))
        } else {
            Ok(TaskPriority { level })
        }
    }

    /// The numeric level; never one that the protocol stack keeps.
    pub fn level(&self) -> (r: u8)
        ensures
            r == self.spec_level(),
            is_app_level(r),
    {
        proof {
            use_type_invariant(self);
        }
        self.level
    }

    /// Whether a task at this priority may call into the protocol stack.
    pub fn can_call_stack(&self) -> (r: bool)
        ensures
            r == self.spec_can_call_stack(),
    {
        self.level < SVC_PRIORITY
    }
}

} // verus!
