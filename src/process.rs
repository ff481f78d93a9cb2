use vstd::prelude::*;

verus! {

/// The library-wide switches: one-time initialisation, the multithreading
/// mode, and shutdown. One value of this type stands for the whole process.
pub struct CoreState {
    initialized: bool,
    multithreaded: bool,
    shut_down: bool,
    next_context: u64,
}

/// What the library-wide switches are set to, and the handle the next
/// context receives.
pub struct CoreView {
    pub initialized: bool,
    pub multithreaded: bool,
    pub shut_down: bool,
    pub next_context: u64,
}

impl CoreView {
    /// Every context handle handed out is non-null.
    pub open spec fn wf(&self) -> bool {
        self.next_context >= 1
    }
}

impl View for CoreState {
    type V = CoreView;

    closed spec fn view(&self) -> CoreView {
        CoreView {
            initialized: self.initialized,
            multithreaded: self.multithreaded,
            shut_down: self.shut_down,
            next_context: self.next_context,
        }
    }
}

impl CoreState {
    /// The state before anything is initialised: single-threaded, not shut
    /// down, no context created.
    pub fn new() -> (s: CoreState)
        ensures
            s@ == (CoreView {
                initialized: false,
                multithreaded: false,
                shut_down: false,
                next_context: 1,
            }),
            s@.wf(),
    {
        CoreState { initialized: false, multithreaded: false, shut_down: false, next_context: 1 }
    }

    /// Hands out a context handle that no earlier call handed out.
    pub(crate) fn take_context_handle(&mut self) -> (h: u64)
        requires
            old(self)@.next_context < u64::MAX,
        ensures
            h == old(self)@.next_context,
            final(self)@ == (CoreView { next_context: (h + 1) as u64, ..old(self)@ }),
    {
        let h = self.next_context;
        self.next_context = h + 1;
        h
    }
}

/// Registers the core of the library; doing it again changes nothing.
pub fn initialize_core(state: &mut CoreState)
    requires
        !old(state)@.shut_down,
    ensures
        final(state)@.wf() == old(state)@.wf(),
        final(state)@ == (CoreView { initialized: true, ..old(state)@ }),
{
    state.initialized = true;
}

/// Tears the library down for good: it leaves multithreaded mode and no
/// longer counts as initialised.
pub fn shutdown(state: &mut CoreState)
    ensures
        final(state)@.wf() == old(state)@.wf(),
        final(state)@ == (CoreView {
            initialized: false,
            multithreaded: false,
            shut_down: true,
            ..old(state)@
        }),
{
    state.initialized = false;
    state.multithreaded = false;
    state.shut_down = true;
}

/// Enters multithreaded mode; reports whether the mode is now on.
pub fn start_multithreaded(state: &mut CoreState) -> (on: bool)
    requires
        !old(state)@.shut_down,
    ensures
        final(state)@.wf() == old(state)@.wf(),
        on,
        final(state)@ == (CoreView { multithreaded: true, ..old(state)@ }),
{
    state.multithreaded = true;
    true
}

/// Leaves multithreaded mode.
pub fn stop_multithreaded(state: &mut CoreState)
    ensures
        final(state)@.wf() == old(state)@.wf(),
        final(state)@ == (CoreView { multithreaded: false, ..old(state)@ }),
{
    state.multithreaded = false;
}

/// Whether multithreaded mode is on.
pub fn is_multithreaded(state: &CoreState) -> (on: bool)
    ensures
        on == state@.multithreaded,
{
    state.multithreaded
}

} // verus!
