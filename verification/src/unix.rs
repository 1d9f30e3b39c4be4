//! POSIX-family backend: signal identifiers are POSIX signal numbers, and the
//! process-wide state is a single word with one bit per signal number.

use vstd::prelude::*;

verus! {

use crate::Error;
use crate::Flag;

/// A watchable interrupt condition on POSIX-family systems.
///
/// The named variants carry the conventional Linux signal numbers; `SIGRT`
/// names a realtime signal by its absolute number.
#[derive(Clone, Copy, PartialEq, Eq, Structural, Debug)]
pub enum Signal {
    SIGHUP,
    SIGINT,
    SIGQUIT,
    SIGILL,
    SIGTRAP,
    SIGABRT,
    SIGBUS,
    SIGFPE,
    SIGKILL,
    SIGUSR1,
    SIGSEGV,
    SIGUSR2,
    SIGPIPE,
    SIGALRM,
    SIGTERM,
    SIGSTKFLT,
    SIGCHLD,
    SIGCONT,
    SIGSTOP,
    SIGTSTP,
    SIGTTIN,
    SIGTTOU,
    SIGURG,
    SIGXCPU,
    SIGXFSZ,
    SIGVTALRM,
    SIGPROF,
    SIGWINCH,
    SIGIO,
    SIGPWR,
    SIGSYS,
    /// A realtime signal, named by its absolute signal number.
    SIGRT(u32),
}

impl Signal {
    /// The signal's number, which is also its bit position in the shared word.
    pub open spec fn num(self) -> u32 {
        match self {
            Signal::SIGHUP => 1,
            Signal::SIGINT => 2,
            Signal::SIGQUIT => 3,
            Signal::SIGILL => 4,
            Signal::SIGTRAP => 5,
            Signal::SIGABRT => 6,
            Signal::SIGBUS => 7,
            Signal::SIGFPE => 8,
            Signal::SIGKILL => 9,
            Signal::SIGUSR1 => 10,
            Signal::SIGSEGV => 11,
            Signal::SIGUSR2 => 12,
            Signal::SIGPIPE => 13,
            Signal::SIGALRM => 14,
            Signal::SIGTERM => 15,
            Signal::SIGSTKFLT => 16,
            Signal::SIGCHLD => 17,
            Signal::SIGCONT => 18,
            Signal::SIGSTOP => 19,
            Signal::SIGTSTP => 20,
            Signal::SIGTTIN => 21,
            Signal::SIGTTOU => 22,
            Signal::SIGURG => 23,
            Signal::SIGXCPU => 24,
            Signal::SIGXFSZ => 25,
            Signal::SIGVTALRM => 26,
            Signal::SIGPROF => 27,
            Signal::SIGWINCH => 28,
            Signal::SIGIO => 29,
            Signal::SIGPWR => 30,
            Signal::SIGSYS => 31,
            Signal::SIGRT(n) => n,
        }
    }

    /// The signal's number, as executable code.
    pub fn number(&self) -> (n: u32)
        ensures
            n == self.num(),
    {
        match self {
            Signal::SIGHUP => 1,
            Signal::SIGINT => 2,
            Signal::SIGQUIT => 3,
            Signal::SIGILL => 4,
            Signal::SIGTRAP => 5,
            Signal::SIGABRT => 6,
            Signal::SIGBUS => 7,
            Signal::SIGFPE => 8,
            Signal::SIGKILL => 9,
            Signal::SIGUSR1 => 10,
            Signal::SIGSEGV => 11,
            Signal::SIGUSR2 => 12,
            Signal::SIGPIPE => 13,
            Signal::SIGALRM => 14,
            Signal::SIGTERM => 15,
            Signal::SIGSTKFLT => 16,
            Signal::SIGCHLD => 17,
            Signal::SIGCONT => 18,
            Signal::SIGSTOP => 19,
            Signal::SIGTSTP => 20,
            Signal::SIGTTIN => 21,
            Signal::SIGTTOU => 22,
            Signal::SIGURG => 23,
            Signal::SIGXCPU => 24,
            Signal::SIGXFSZ => 25,
            Signal::SIGVTALRM => 26,
            Signal::SIGPROF => 27,
            Signal::SIGWINCH => 28,
            Signal::SIGIO => 29,
            Signal::SIGPWR => 30,
            Signal::SIGSYS => 31,
            Signal::SIGRT(n) => *n,
        }
    }
}

/// The bit a signal number selects in the shared word.
pub open spec fn bit(n: u32) -> usize {
    1usize << (n as usize)
}

/// A signal is supported when its bit position fits the shared word.
pub open spec fn supported(s: Signal) -> bool {
    s.num() < usize::BITS
}

/// Every signal of the sequence fits the shared word.
pub open spec fn all_supported(ss: Seq<Signal>) -> bool {
    forall|i: int| 0 <= i < ss.len() ==> supported(#[trigger] ss[i])
}

/// The selection mask of a registration request: the bitwise OR of the bit
/// of every requested signal.
pub open spec fn mask_of(ss: Seq<Signal>) -> usize
    decreases ss.len(),
{
    if ss.len() == 0 {
        0usize
    } else {
        mask_of(ss.drop_last()) | bit(ss.last().num())
    }
}

/// What a watcher observes: some bit of its selection is pending.
pub open spec fn caught_spec(word: usize, mask: usize) -> bool {
    word & mask != 0
}

/// The process-wide signal state: one word of pending-signal bits, mutated
/// only by the interrupt handler (which sets bits) and by a handle's `reset`
/// (which clears the handle's own bits), and one word recording which signal
/// numbers have a handler binding installed.
///
/// In a running process this word lives in a single static atomic updated
/// only with fetch-or and fetch-and; here it is an explicit value, so every
/// transition the handler and the handles may perform is stated exactly.
pub struct SignalState {
    bits: usize,
    installed: usize,
}

impl SignalState {
    /// The pending-signal word.
    pub closed spec fn pending(self) -> usize {
        self.bits
    }

    /// The word of signal numbers whose handler binding is installed.
    pub closed spec fn handlers(self) -> usize {
        self.installed
    }

    /// The state at process start: nothing pending, nothing installed.
    pub fn new() -> (s: SignalState)
        ensures
            s.pending() == 0,
            s.handlers() == 0,
    {
        SignalState { bits: 0, installed: 0 }
    }

    /// The pending-signal word, as executable code.
    pub fn pending_word(&self) -> (w: usize)
        ensures
            w == self.pending(),
    {
        self.bits
    }

    /// The installed-handler word, as executable code.
    pub fn handlers_word(&self) -> (w: usize)
        ensures
            w == self.handlers(),
    {
        self.installed
    }
}

/// The interrupt-context procedure: records that `sig` occurred by setting
/// its one bit of the pending word. Installed bindings are untouched, and a
/// bit that is already set stays set, so repeated deliveries coalesce.
///
/// In a running process this is the entire body of the handler the operating
/// system invokes; it must stay a single lock-free atomic fetch-or.
pub fn os_handler(state: &mut SignalState, sig: Signal)
    requires
        supported(sig),
    ensures
        final(state).pending() == (old(state).pending() | bit(sig.num())),
        final(state).handlers() == old(state).handlers(),
{
    state.bits = state.bits | (1usize << (sig.number() as usize));
}

/// A watcher: selects which bits of the process-wide state it observes and
/// may clear. Copies share the same selection and thus the same view.
#[derive(Clone, Copy, Debug)]
pub struct SignalBool {
    mask: usize,
}

impl SignalBool {
    /// The watcher's selection: one bit per registered signal.
    pub closed spec fn selection(self) -> usize {
        self.mask
    }

    /// The selection mask, as executable code.
    pub fn selection_mask(&self) -> (m: usize)
        ensures
            m == self.selection(),
    {
        self.mask
    }

    /// Register a set of signals to set the internal flag when received.
    ///
    /// Succeeds exactly when every requested signal's bit position fits the
    /// shared word; the handle then selects the bit of every requested
    /// signal, and a handler binding is installed for each. A signal whose
    /// bit does not fit is rejected with [`Error::UnsupportedSignal`] before
    /// anything is installed. Pending bits are never touched.
    ///
    /// A signal registered with multiple handles is watched by all of them;
    /// see [`lemma_overlap_reset_clears_covered`] for the consequence.
    pub fn new(state: &mut SignalState, signals: &[Signal], _flag: Flag) -> (r: Result<
        SignalBool,
        Error,
    >)
        ensures
            r is Ok <==> all_supported(signals@),
            r is Ok ==> (r->Ok_0).selection() == mask_of(signals@)
                && final(state).handlers() == (old(state).handlers() | mask_of(signals@))
                && final(state).pending() == old(state).pending(),
            r is Err ==> (r->Err_0) == Error::UnsupportedSignal && *final(state) == *old(state),
    {
        let mut mask: usize = 0;
        let mut i: usize = 0;
        while i < signals.len()
            invariant
                0 <= i <= signals@.len(),
                forall|j: int| 0 <= j < i ==> supported(#[trigger] signals@[j]),
                mask == mask_of(signals@.take(i as int)),
                *state == *old(state),
            decreases signals@.len() - i,
        {
            let n: u32 = signals[i].number();
            if n >= usize::BITS {
                assert(!supported(signals@[i as int]));
                return Err(Error::UnsupportedSignal);
            }
            proof {
                lemma_mask_of_take_step(signals@, i as int);
            }
            mask = mask | (1usize << (n as usize));
            i = i + 1;
        }
        assert(signals@.take(signals@.len() as int) =~= signals@);
        state.installed = state.installed | mask;
        Ok(SignalBool { mask })
    }

    /// Check whether a registered signal has been caught: true exactly when
    /// some bit of this handle's selection is pending. Read-only.
    pub fn caught(&self, state: &SignalState) -> (r: bool)
        ensures
            r == caught_spec(state.pending(), self.selection()),
    {
        state.pending_word() & self.mask != 0
    }

    /// Reset the internal flag: clear exactly this handle's selected bits of
    /// the pending word. Bits outside the selection, and the installed
    /// bindings, are untouched.
    pub fn reset(&self, state: &mut SignalState)
        ensures
            final(state).pending() == (old(state).pending() & !self.selection()),
            final(state).handlers() == old(state).handlers(),
    {
        state.bits = state.bits & !self.mask;
    }
}

/// Registering a single signal selects exactly that signal's bit.
pub proof fn lemma_single_selection(s: Signal)
    ensures
        mask_of(seq![s]) == bit(s.num()),
{
    assert(seq![s].drop_last() =~= Seq::<Signal>::empty());
    assert(seq![s].last() == s);
    assert(mask_of(Seq::<Signal>::empty()) == 0usize);
    assert(mask_of(seq![s]) == (0usize | bit(s.num())));
    let b: usize = bit(s.num());
    assert((0usize | b) == b) by (bit_vector);
}

/// Delivering a registered signal makes its watcher caught, and stays so
/// until the watcher resets, after which it is no longer caught.
pub proof fn lemma_deliver_then_reset(word: usize, s: Signal)
    requires
        supported(s),
    ensures
        caught_spec(word | bit(s.num()), mask_of(seq![s])),
        !caught_spec((word | bit(s.num())) & !mask_of(seq![s]), mask_of(seq![s])),
{
    lemma_single_selection(s);
    let n: u32 = s.num();
    assert((word | (1usize << (n as usize))) & (1usize << (n as usize)) != 0) by (bit_vector)
        requires
            n < usize::BITS,
    ;
    assert(((word | (1usize << (n as usize))) & !(1usize << (n as usize))) & (1usize << (
    n as usize)) == 0) by (bit_vector);
}

/// Delivering a signal twice before a reset is observably identical to
/// delivering it once: the second delivery leaves the whole state unchanged,
/// so no count of firings is retained.
pub proof fn lemma_coalesce(word: usize, s: Signal)
    ensures
        ((word | bit(s.num())) | bit(s.num())) == (word | bit(s.num())),
{
    let b: usize = bit(s.num());
    assert(((word | b) | b) == (word | b)) by (bit_vector);
}

/// Watchers of distinct signals are isolated: delivering `x` makes a watcher
/// of `x` caught and leaves what a watcher of `y` observes unchanged.
pub proof fn lemma_isolation(word: usize, x: Signal, y: Signal)
    requires
        supported(x),
        supported(y),
        x.num() != y.num(),
    ensures
        caught_spec(word | bit(x.num()), mask_of(seq![x])),
        caught_spec(word | bit(x.num()), mask_of(seq![y])) == caught_spec(word, mask_of(seq![y])),
{
    lemma_single_selection(x);
    lemma_single_selection(y);
    let nx: u32 = x.num();
    let ny: u32 = y.num();
    assert((word | (1usize << (nx as usize))) & (1usize << (nx as usize)) != 0) by (bit_vector)
        requires
            nx < usize::BITS,
    ;
    assert(((word | (1usize << (nx as usize))) & (1usize << (ny as usize)) != 0) == (word & (
    1usize << (ny as usize)) != 0)) by (bit_vector)
        requires
            nx < usize::BITS,
            ny < usize::BITS,
            nx != ny,
    ;
}

/// The overlap hazard: a reset clears the view of every watcher whose
/// selection lies inside the resetting watcher's selection. In particular,
/// two watchers registered for the same signal steal each other's
/// notification: either one's reset leaves the other seeing nothing.
pub proof fn lemma_overlap_reset_clears_covered(word: usize, mask_a: usize, mask_b: usize)
    requires
        mask_b & !mask_a == 0,
    ensures
        !caught_spec(word & !mask_a, mask_b),
{
    assert((word & !mask_a) & mask_b == 0) by (bit_vector)
        requires
            mask_b & !mask_a == 0,
    ;
}

/// Extending a request by one signal ORs that signal's bit into the mask.
proof fn lemma_mask_of_take_step(ss: Seq<Signal>, i: int)
    requires
        0 <= i < ss.len(),
    ensures
        mask_of(ss.take(i + 1)) == (mask_of(ss.take(i)) | bit(ss[i].num())),
{
    assert(ss.take(i + 1).drop_last() =~= ss.take(i));
    assert(ss.take(i + 1).last() == ss[i]);
}

} // verus!
