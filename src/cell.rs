use vstd::prelude::*;
use crate::priority::{is_app_level, TaskPriority};

verus! {

/// Why an access to a shared cell was refused.
#[derive(Clone, Copy, Debug, PartialEq, Eq, Structural)]
pub enum LockError {
    /// The caller runs above the cell's ceiling: it was not declared as an
    /// accessor, and the ceiling would not shield its access.
    AboveCeiling { caller: u8, ceiling: u8 },
}

/// State shared by tasks of different priorities. Every access runs at the
/// cell's ceiling, the highest priority of any task that touches it, so no
/// task that could touch the cell preempts an access in progress: a read
/// never sees half of a write.
pub struct SharedCell<T> {
    value: T,
    ceiling: u8,
}

/// Whether a task at `level` may access a cell with ceiling `ceiling`.
pub open spec fn may_access(ceiling: u8, level: u8) -> bool {
    level <= ceiling
}

/// The highest level in a non-empty list of accessors.
pub open spec fn max_level(accessors: Seq<TaskPriority>) -> u8
    decreases accessors.len(),
{
    if accessors.len() <= 1 {
        if accessors.len() == 0 { 0 } else { accessors[0].spec_level() }
    } else {
        let rest = max_level(accessors.drop_last());
        let last = accessors.last().spec_level();
        if last > rest { last } else { rest }
    }
}

proof fn lemma_max_level_is_app_level(accessors: Seq<TaskPriority>)
    requires
        accessors.len() > 0,
        forall|i: int| 0 <= i < accessors.len() ==> is_app_level(#[trigger] accessors[i].spec_level()),
    ensures
        is_app_level(max_level(accessors)),
        forall|i: int| 0 <= i < accessors.len() ==> #[trigger] accessors[i].spec_level() <= max_level(accessors),
    decreases accessors.len(),
{
    if accessors.len() > 1 {
        let rest = accessors.drop_last();
        assert forall|i: int| 0 <= i < rest.len() implies is_app_level(#[trigger] rest[i].spec_level()) by {
            assert(rest[i] == accessors[i]);
        }
        lemma_max_level_is_app_level(rest);
        assert forall|i: int| 0 <= i < accessors.len() implies #[trigger] accessors[i].spec_level() <= max_level(accessors) by {
            if i < accessors.len() - 1 {
                assert(rest[i] == accessors[i]);
            }
        }
    }
}

/// The value a cell holds after a write of `v`: the ceiling stays.
pub open spec fn spec_written<T>(cell: (T, u8), v: T) -> (T, u8) {
    (v, cell.1)
}

impl<T> View for SharedCell<T> {
    /// The held value and the ceiling.
    type V = (T, u8);

    closed spec fn view(&self) -> (T, u8) {
        (self.value, self.ceiling)
    }
}

impl<T> SharedCell<T> {
    /// A cell holding `value`, touched by tasks of the listed priorities.
    /// Its ceiling is the highest of them.
    pub fn new(value: T, accessors: &[TaskPriority]) -> (c: SharedCell<T>)
        requires
            accessors@.len() > 0,
        ensures
            c@ == (value, max_level(accessors@)),
            is_app_level(c@.1),
            forall|i: int| 0 <= i < accessors@.len() ==> may_access(c@.1, #[trigger] accessors@[i].spec_level()),
    {
        let mut ceiling: u8 = accessors[0].level();
        let mut i: usize = 1;
        while i < accessors.len()
            invariant
                1 <= i <= accessors@.len(),
                ceiling == max_level(accessors@.take(i as int)),
                forall|j: int| 0 <= j < i ==> is_app_level(#[trigger] accessors@[j].spec_level()),
            decreases accessors@.len() - i,
        {
            let level = accessors[i].level();
            proof {
                let s = accessors@.take(i as int + 1);
                assert(s.drop_last() =~= accessors@.take(i as int));
            }
            if level > ceiling {
                ceiling = level;
            }
            i = i + 1;
        }
        proof {
            assert(accessors@.take(i as int) =~= accessors@);
            lemma_max_level_is_app_level(accessors@);
        }
        SharedCell { value, ceiling }
    }

    /// The ceiling at which every access to this cell runs.
    pub fn ceiling(&self) -> (r: u8)
        ensures
            r == self@.1,
    {
        self.ceiling
    }

    /// Reads the value on behalf of a task at priority `caller`.
    pub fn read(&self, caller: &TaskPriority) -> (r: Result<&T, LockError>)
        ensures
            may_access(self@.1, caller.spec_level()) ==> (r matches Ok(v) && *v == self@.0),
            !may_access(self@.1, caller.spec_level()) ==> r == Err::<&T, LockError>(
                LockError::AboveCeiling { caller: caller.spec_level(), ceiling: self@.1 },
            ),
    {
        let level = caller.level();
        if level <= self.ceiling {
            Ok(&self.value)
        } else {
            Err(LockError::AboveCeiling { caller: level, ceiling: self.ceiling })
        }
    }

    /// Replaces the value on behalf of a task at priority `caller`; a
    /// refused write leaves the cell as it was.
    pub fn write(&mut self, caller: &TaskPriority, v: T) -> (r: Result<(), LockError>)
        ensures
            may_access(old(self)@.1, caller.spec_level()) ==> r is Ok && final(self)@ == spec_written(old(self)@, v),
            !may_access(old(self)@.1, caller.spec_level()) ==> r == Err::<(), LockError>(
                LockError::AboveCeiling { caller: caller.spec_level(), ceiling: old(self)@.1 },
            ) && final(self)@ == old(self)@,
    {
        let level = caller.level();
        if level <= self.ceiling {
            self.value = v;
            Ok(())
        } else {
            Err(LockError::AboveCeiling { caller: level, ceiling: self.ceiling })
        }
    }
}

/// A value written to a shared cell is what any task allowed on the cell
/// reads next, whatever its priority: the write keeps the ceiling, so the
/// reader stays allowed, and it reads the written value whole.
pub proof fn lemma_cell_round_trip<T>(cell: (T, u8), k: T, writer: u8, reader: u8)
    requires
        may_access(cell.1, writer),
        may_access(cell.1, reader),
    ensures
        may_access(spec_written(cell, k).1, reader),
        spec_written(cell, k).0 == k,
{
}

} // verus!
