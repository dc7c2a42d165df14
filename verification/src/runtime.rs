//! Executors: the one for WASM, which holds back what is spawned until it runs, and the
//! executor that is set up on first use.
use vstd::prelude::*;

verus! {

/// An executor that works on WASM. Futures spawned before it runs are queued; once it runs,
/// they are all spawned on the browser's event loop, and so is everything spawned afterwards.
/// `F` is the type of a spawned future.
pub struct WasmRT<F> {
    spawned: Vec<F>,
    running: bool,
}

impl<F> WasmRT<F> {
    /// The futures waiting for the executor to run.
    pub closed spec fn queued(&self) -> Seq<F> {
        self.spawned@
    }

    /// Whether the executor runs.
    pub closed spec fn is_running(&self) -> bool {
        self.running
    }

    /// Spawn a future: when the executor runs, it is given back to be spawned on the event
    /// loop right away; before that it is queued.
    pub fn spawn(&mut self, fut: F) -> (res: Option<F>)
        ensures
            old(self).is_running() ==> res == Some(fut) && final(self).queued() == old(
                self,
            ).queued(),
            !old(self).is_running() ==> res is None && final(self).queued() == old(
                self,
            ).queued().push(fut),
            final(self).is_running() == old(self).is_running(),
    {
        if self.running {
            Some(fut)
        } else {
            self.spawned.push(fut);
            None
        }
    }

    /// Run: from now on spawned futures go straight to the event loop. Gives back every
    /// future queued so far, in the order they were spawned, to be spawned on the event loop.
    pub fn run(&mut self) -> (res: Vec<F>)
        ensures
            res@ == old(self).queued(),
            final(self).queued() == Seq::<F>::empty(),
            final(self).is_running(),
    {
        self.running = true;
        let mut queued: Vec<F> = Vec::new();
        std::mem::swap(&mut queued, &mut self.spawned);
        queued
    }
}

impl<F> Default for WasmRT<F> {
    /// A new executor that does not run yet and holds nothing.
    fn default() -> (res: Self)
        ensures
            res.queued() == Seq::<F>::empty(),
            !res.is_running(),
    {
        WasmRT { spawned: Vec::new(), running: false }
    }

}

/// Set up the executor. There can be only one: when one is already set up, the new one is
/// given back as the error and nothing changes.
pub fn init<E>(exec: &mut Option<E>, new_exec: E) -> (res: Result<(), E>)
    ensures
        *old(exec) is None ==> res is Ok && *final(exec) == Some(new_exec),
        *old(exec) is Some ==> res == Err::<(), E>(new_exec) && *final(exec) == *old(exec),
{
    if exec.is_some() {
        Err(new_exec)
    } else {
        *exec = Some(new_exec);
        Ok(())
    }
}

/// The executor slot after [`default_init`], when `made` is what the default maker would make:
/// an executor set before stays, an empty slot gets `made`.
pub open spec fn after_default_init<E>(slot: Option<E>, made: E) -> Option<E> {
    match slot {
        Some(_) => slot,
        None => Some(made),
    }
}

/// Set up the executor if none was set up yet, with the one `make_default` makes.
pub fn default_init<E, M: FnOnce() -> E>(exec: &mut Option<E>, make_default: M)
    requires
        *old(exec) is None ==> make_default.requires(()),
    ensures
        *old(exec) is Some ==> *final(exec) == *old(exec),
        *old(exec) is None ==> (*final(exec) matches Some(e) && make_default.ensures((), e)),
        exists|made: E| *final(exec) == after_default_init(*old(exec), made),
{
    if exec.is_none() {
        *exec = Some(make_default());
        assert(*exec == after_default_init(None, exec->0));
    } else {
        assert(*exec == after_default_init(*exec, exec->0));
    }
}

/// Setting up the default executor leaves the slot set: it keeps an executor set before (by
/// [`init`] or an earlier [`default_init`]), and an empty slot gets the default one. Calling it
/// twice has the effect of calling it once, whatever the second call would make.
pub proof fn law_default_init_once<E>(slot: Option<E>, made: E, made_again: E)
    ensures
        after_default_init(slot, made) is Some,
        slot is Some ==> after_default_init(slot, made) == slot,
        slot is None ==> after_default_init(slot, made) == Some(made),
        after_default_init(after_default_init(slot, made), made_again) == after_default_init(
            slot,
            made,
        ),
{
}

} // verus!
