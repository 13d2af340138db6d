//! The holder of the one module instance that a process has.

use vstd::prelude::*;
use crate::fatal::Fatal;
use crate::module::Module;

verus! {

/// Holds at most one module instance, and remembers whether a fatal
/// violation was ever contained at the boundary. Once poisoned, a holder
/// stays poisoned, and no longer lets go of what it holds.
pub struct ModuleHolder<U, H> {
    module: Option<Module<U, H>>,
    panicked: bool,
}

/// What a holder holds.
pub struct HolderState<U, H> {
    /// The installed module instance, if there is one.
    pub module: Option<Module<U, H>>,
    /// Whether a fatal violation was contained since the holder was made.
    pub poisoned: bool,
}

impl<U, H> HolderState<U, H> {
    /// The state of a new holder: nothing installed, not poisoned.
    pub open spec fn empty() -> Self {
        HolderState { module: None, poisoned: false }
    }

    /// The state after `module` is installed in place of what was there.
    pub open spec fn set(self, module: Module<U, H>) -> Self {
        HolderState { module: Some(module), poisoned: self.poisoned }
    }

    /// The state after teardown: the instance is gone, unless the holder is
    /// poisoned, in which case nothing changes.
    pub open spec fn cleared(self) -> Self {
        if self.poisoned {
            self
        } else {
            HolderState { module: None, poisoned: false }
        }
    }

    /// The state after a fatal violation was contained.
    pub open spec fn poison(self) -> Self {
        HolderState { module: self.module, poisoned: true }
    }

    /// What acquiring the instance gives: the instance, or the fatal
    /// violation of asking for one that is not there.
    pub open spec fn acquire(self) -> Result<Module<U, H>, Fatal> {
        match self.module {
            Some(m) => Ok(m),
            None => Err(Fatal::NoModule),
        }
    }
}

impl<U, H> View for ModuleHolder<U, H> {
    type V = HolderState<U, H>;

    closed spec fn view(&self) -> HolderState<U, H> {
        HolderState { module: self.module, poisoned: self.panicked }
    }
}

impl<U, H> ModuleHolder<U, H> {
    /// A holder with nothing installed and no poison.
    pub fn empty() -> (holder: Self)
        ensures
            holder@ == HolderState::<U, H>::empty(),
    {
        Self { module: None, panicked: false }
    }
}

/// Installs `module`, in place of any instance that was installed before.
pub fn set_mod<U, H>(holder: &mut ModuleHolder<U, H>, module: Module<U, H>)
    ensures
        final(holder)@ == old(holder)@.set(module),
{
    holder.module = Some(module);
}

/// Removes the installed instance, unless the holder is poisoned: then it is
/// left as it is.
pub fn drop_mod<U, H>(holder: &mut ModuleHolder<U, H>)
    ensures
        final(holder)@ == old(holder)@.cleared(),
{
    if !panicked(holder) {
        holder.module.take();
    }
}

/// Hands out the installed instance for the caller to use and change. That
/// none is installed is fatal.
pub fn get_mod<U, H>(holder: &mut ModuleHolder<U, H>) -> (r: Result<&mut Module<U, H>, Fatal>)
    ensures
        match r {
            Ok(m) => old(holder)@.acquire() == Ok::<Module<U, H>, Fatal>(*m)
                && final(holder)@ == old(holder)@.set(*final(m)),
            Err(e) => old(holder)@.acquire() == Err::<Module<U, H>, Fatal>(e)
                && final(holder)@ == old(holder)@,
        },
{
    match holder.module.as_mut() {
        Some(m) => Ok(m),
        None => Err(Fatal::NoModule),
    }
}

/// Whether the holder is poisoned.
pub fn panicked<U, H>(holder: &ModuleHolder<U, H>) -> (poisoned: bool)
    ensures
        poisoned == holder@.poisoned,
{
    holder.panicked
}

/// Poisons the holder. What it holds stays.
pub(crate) fn mark_panicked<U, H>(holder: &mut ModuleHolder<U, H>)
    ensures
        final(holder)@ == old(holder)@.poison(),
{
    holder.panicked = true;
}

/// One change of a holder's state: an instance is installed or the
/// installed one is changed, the holder is torn down, or it is poisoned.
/// Every function that takes a holder changes its state by one such step,
/// or not at all.
pub open spec fn step<U, H>(before: HolderState<U, H>, after: HolderState<U, H>) -> bool {
    ||| after == before
    ||| exists|module: Module<U, H>| after == #[trigger] before.set(module)
    ||| after == before.cleared()
    ||| after == before.poison()
}

/// No step takes poison away, and no step takes the instance out of a
/// poisoned holder.
pub proof fn lemma_poison_is_permanent<U, H>(before: HolderState<U, H>, after: HolderState<U, H>)
    requires
        before.poisoned,
        step(before, after),
    ensures
        after.poisoned,
        before.module is Some ==> after.module is Some,
{
}

/// Acquiring the instance is fatal as long as nothing was installed, and
/// again once a holder without poison was torn down.
pub proof fn lemma_acquire_outside_life<U, H>(state: HolderState<U, H>)
    requires
        !state.poisoned,
    ensures
        HolderState::<U, H>::empty().acquire() == Err::<Module<U, H>, Fatal>(Fatal::NoModule),
        state.cleared().acquire() == Err::<Module<U, H>, Fatal>(Fatal::NoModule),
{
}

/// Teardown twice is teardown once, poisoned or not.
pub proof fn lemma_cleared_idempotent<U, H>(state: HolderState<U, H>)
    ensures
        state.cleared().cleared() == state.cleared(),
{
}

/// Poison stays. Neither installing an instance nor teardown nor another
/// fatal violation takes it away, and teardown of a poisoned holder changes
/// nothing: what was installed remains so.
pub proof fn lemma_poison_stays<U, H>(state: HolderState<U, H>, module: Module<U, H>)
    ensures
        state.poison().poisoned,
        state.poison().module == state.module,
        state.poison().cleared() == state.poison(),
        state.poisoned ==> state.set(module).poisoned && state.cleared() == state
            && state.poison() == state,
{
}

} // verus!
