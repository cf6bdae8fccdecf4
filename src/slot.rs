use core::marker::PhantomData;
use core::sync::atomic::{AtomicI64, Ordering};
use vstd::prelude::*;

verus! {

/// Register value of a slot whose key has not been asked for yet.
pub const UNINITIALIZED: i64 = -1;

/// Register value of a slot whose key one thread is creating.
pub const UNDER_INITIALIZATION: i64 = -2;

/// Largest thread-local key.
pub const MAX_KEY: i64 = 4294967295;

/// State of a slot's key register.
#[derive(Clone, Copy, Debug, PartialEq, Eq, Structural)]
pub enum KeyState {
    Uninitialized,
    UnderInitialization,
    Initialized(u32),
}

/// The register value that stands for `s`.
pub open spec fn encoding(s: KeyState) -> int {
    match s {
        KeyState::Uninitialized => UNINITIALIZED as int,
        KeyState::UnderInitialization => UNDER_INITIALIZATION as int,
        KeyState::Initialized(k) => k as int,
    }
}

/// The state that register value `raw` stands for: a key when it is
/// non-negative, creation under way at `UNDER_INITIALIZATION`, and no key
/// otherwise.
pub open spec fn decoding(raw: int) -> KeyState {
    if 0 <= raw <= MAX_KEY {
        KeyState::Initialized(raw as u32)
    } else if raw == UNDER_INITIALIZATION {
        KeyState::UnderInitialization
    } else {
        KeyState::Uninitialized
    }
}

impl KeyState {
    /// The register value for this state.
    pub fn encode(&self) -> (r: i64)
        ensures
            r == encoding(*self),
    {
        match self {
            KeyState::Uninitialized => UNINITIALIZED,
            KeyState::UnderInitialization => UNDER_INITIALIZATION,
            KeyState::Initialized(k) => *k as i64,
        }
    }

    /// The state for register value `raw`.
    pub fn decode(raw: i64) -> (r: KeyState)
        ensures
            r == decoding(raw as int),
    {
        if 0 <= raw && raw <= MAX_KEY {
            KeyState::Initialized(raw as u32)
        } else if raw == UNDER_INITIALIZATION {
            KeyState::UnderInitialization
        } else {
            KeyState::Uninitialized
        }
    }

    /// The key to read values under: present only once the key exists, so
    /// that reading never forces its creation.
    pub fn readable_key(&self) -> (r: Option<u32>)
        ensures
            r == (match *self {
                KeyState::Initialized(k) => Some(k),
                _ => None::<u32>,
            }),
    {
        match self {
            KeyState::Initialized(k) => Some(*k),
            _ => None,
        }
    }
}

/// Decoding a state's register value gives the state back; so distinct
/// states have distinct register values.
pub proof fn lemma_encoding_round_trip(s: KeyState, t: KeyState)
    ensures
        decoding(encoding(s)) == s,
        encoding(s) == encoding(t) ==> s == t,
{
}

/// An operation on a key register, as the threads of a process interleave
/// them.
#[derive(Clone, Copy, Debug, PartialEq, Eq, Structural)]
pub enum RegisterOp {
    /// A read, which changes nothing.
    Load,
    /// An attempt to move from `Uninitialized` to `UnderInitialization`;
    /// it succeeds only from `Uninitialized`.
    Claim,
    /// The store of a created key.
    Publish(u32),
}

/// The register after `op`.
pub open spec fn apply_op(s: KeyState, op: RegisterOp) -> KeyState {
    match op {
        RegisterOp::Load => s,
        RegisterOp::Claim => if s == KeyState::Uninitialized {
            KeyState::UnderInitialization
        } else {
            s
        },
        RegisterOp::Publish(k) => KeyState::Initialized(k),
    }
}

/// The register after `ops`, in order.
pub open spec fn run_ops(s: KeyState, ops: Seq<RegisterOp>) -> KeyState
    decreases ops.len(),
{
    if ops.len() == 0 {
        s
    } else {
        run_ops(apply_op(s, ops[0]), ops.drop_first())
    }
}

/// How many claims among `ops` succeed, from register state `s`.
pub open spec fn won_claims(s: KeyState, ops: Seq<RegisterOp>) -> nat
    decreases ops.len(),
{
    if ops.len() == 0 {
        0
    } else {
        (if ops[0] == RegisterOp::Claim && s == KeyState::Uninitialized {
            1nat
        } else {
            0nat
        }) + won_claims(apply_op(s, ops[0]), ops.drop_first())
    }
}

/// Once a register has left `Uninitialized` no claim succeeds.
proof fn lemma_no_win_after_claim(s: KeyState, ops: Seq<RegisterOp>)
    requires
        s != KeyState::Uninitialized,
    ensures
        won_claims(s, ops) == 0,
        run_ops(s, ops) != KeyState::Uninitialized,
    decreases ops.len(),
{
    if ops.len() > 0 {
        lemma_no_win_after_claim(apply_op(s, ops[0]), ops.drop_first());
    }
}

/// However the threads interleave their operations on a fresh register,
/// at most one claim succeeds: one thread alone creates the key.
pub proof fn lemma_single_winner(ops: Seq<RegisterOp>)
    ensures
        won_claims(KeyState::Uninitialized, ops) <= 1,
    decreases ops.len(),
{
    if ops.len() > 0 {
        let s = apply_op(KeyState::Uninitialized, ops[0]);
        if s == KeyState::Uninitialized {
            lemma_single_winner(ops.drop_first());
        } else {
            lemma_no_win_after_claim(s, ops.drop_first());
        }
    }
}

/// A published key stays: loads and claims leave `Initialized(k)` as it is.
pub proof fn lemma_initialized_is_stable(k: u32, ops: Seq<RegisterOp>)
    requires
        forall|i: int| 0 <= i < ops.len() ==> !(ops[i] is Publish),
    ensures
        run_ops(KeyState::Initialized(k), ops) == KeyState::Initialized(k),
    decreases ops.len(),
{
    if ops.len() > 0 {
        assert(!(ops[0] is Publish));
        assert forall|i: int| 0 <= i < ops.drop_first().len() implies !(
        ops.drop_first()[i] is Publish) by {
            assert(ops.drop_first()[i] == ops[i + 1]);
        }
        lemma_initialized_is_stable(k, ops.drop_first());
    }
}

/// Where one thread stands in obtaining a slot's key.
#[derive(Clone, Copy, Debug, PartialEq, Eq, Structural)]
pub enum KeyPhase {
    /// Nothing read yet.
    Start,
    /// The key is missing: try to claim its creation.
    Claiming,
    /// The claim succeeded: this thread creates the key.
    Creating,
    /// The key was created: store it in the register.
    Publishing(u32),
    /// Another thread creates the key: yield, then read again.
    Waiting,
    /// The key to use.
    Ready(u32),
    /// Key creation failed with this status: the process cannot go on.
    Failed(i32),
}

/// What a thread learns from the work of its current phase.
#[derive(Clone, Copy, Debug, PartialEq, Eq, Structural)]
pub enum KeyEvent {
    /// The register was read.
    Loaded(KeyState),
    /// The claim succeeded or not.
    Claimed(bool),
    /// Key creation returned a status and, when that is zero, a key.
    Created(i32, u32),
    /// The key was stored.
    Published,
}

/// The work a phase asks for.
#[derive(Clone, Copy, Debug, PartialEq, Eq, Structural)]
pub enum KeyAction {
    /// Read the register.
    Load,
    /// Compare-and-swap the register from `Uninitialized` to
    /// `UnderInitialization`.
    Claim,
    /// Create a key with the slot's destructor.
    CreateKey,
    /// Store this key in the register.
    Store(u32),
    /// Yield the processor, then read the register.
    YieldThenLoad,
    /// Done: use this key.
    Use(u32),
    /// Done: creation failed with this status.
    Abort(i32),
}

/// The work that `p` asks for.
pub open spec fn phase_action(p: KeyPhase) -> KeyAction {
    match p {
        KeyPhase::Start => KeyAction::Load,
        KeyPhase::Claiming => KeyAction::Claim,
        KeyPhase::Creating => KeyAction::CreateKey,
        KeyPhase::Publishing(k) => KeyAction::Store(k),
        KeyPhase::Waiting => KeyAction::YieldThenLoad,
        KeyPhase::Ready(k) => KeyAction::Use(k),
        KeyPhase::Failed(c) => KeyAction::Abort(c),
    }
}

/// The phase after `p` on event `e`. A key that is read as present is used
/// at once; a missing one is claimed; the winner creates and stores it, the
/// losers wait until they read it. An event that does not answer the work
/// of `p` leaves `p` as it is.
pub open spec fn next_phase(p: KeyPhase, e: KeyEvent) -> KeyPhase {
    match (p, e) {
        (KeyPhase::Start, KeyEvent::Loaded(KeyState::Initialized(k))) => KeyPhase::Ready(k),
        (KeyPhase::Start, KeyEvent::Loaded(_)) => KeyPhase::Claiming,
        (KeyPhase::Claiming, KeyEvent::Claimed(won)) => if won {
            KeyPhase::Creating
        } else {
            KeyPhase::Waiting
        },
        (KeyPhase::Creating, KeyEvent::Created(code, k)) => if code == 0 {
            KeyPhase::Publishing(k)
        } else {
            KeyPhase::Failed(code)
        },
        (KeyPhase::Publishing(k), KeyEvent::Published) => KeyPhase::Ready(k),
        (KeyPhase::Waiting, KeyEvent::Loaded(KeyState::Initialized(k))) => KeyPhase::Ready(k),
        _ => p,
    }
}

impl KeyPhase {
    /// The work this phase asks for.
    pub fn action(&self) -> (r: KeyAction)
        ensures
            r == phase_action(*self),
    {
        match self {
            KeyPhase::Start => KeyAction::Load,
            KeyPhase::Claiming => KeyAction::Claim,
            KeyPhase::Creating => KeyAction::CreateKey,
            KeyPhase::Publishing(k) => KeyAction::Store(*k),
            KeyPhase::Waiting => KeyAction::YieldThenLoad,
            KeyPhase::Ready(k) => KeyAction::Use(*k),
            KeyPhase::Failed(c) => KeyAction::Abort(*c),
        }
    }

    /// The phase that follows this one on `event`.
    pub fn next(self, event: KeyEvent) -> (r: KeyPhase)
        ensures
            r == next_phase(self, event),
    {
        match (self, event) {
            (KeyPhase::Start, KeyEvent::Loaded(KeyState::Initialized(k))) => KeyPhase::Ready(k),
            (KeyPhase::Start, KeyEvent::Loaded(_)) => KeyPhase::Claiming,
            (KeyPhase::Claiming, KeyEvent::Claimed(won)) => {
                if won {
                    KeyPhase::Creating
                } else {
                    KeyPhase::Waiting
                }
            },
            (KeyPhase::Creating, KeyEvent::Created(code, k)) => {
                if code == 0 {
                    KeyPhase::Publishing(k)
                } else {
                    KeyPhase::Failed(code)
                }
            },
            (KeyPhase::Publishing(k), KeyEvent::Published) => KeyPhase::Ready(k),
            (KeyPhase::Waiting, KeyEvent::Loaded(KeyState::Initialized(k))) => KeyPhase::Ready(k),
            _ => self,
        }
    }
}

/// The phase after the events `es`, in order.
pub open spec fn run_phases(p: KeyPhase, es: Seq<KeyEvent>) -> KeyPhase
    decreases es.len(),
{
    if es.len() == 0 {
        p
    } else {
        run_phases(next_phase(p, es[0]), es.drop_first())
    }
}

/// How many times the events `es` move a thread into `Creating`, from `p`.
pub open spec fn creations(p: KeyPhase, es: Seq<KeyEvent>) -> nat
    decreases es.len(),
{
    if es.len() == 0 {
        0
    } else {
        let q = next_phase(p, es[0]);
        (if q == KeyPhase::Creating && p != KeyPhase::Creating {
            1nat
        } else {
            0nat
        }) + creations(q, es.drop_first())
    }
}

/// Past `Start` and `Claiming`, a thread never enters `Creating` again.
proof fn lemma_no_creation_past_claim(p: KeyPhase, es: Seq<KeyEvent>)
    requires
        p != KeyPhase::Start,
        p != KeyPhase::Claiming,
    ensures
        creations(p, es) == 0,
        run_phases(p, es) != KeyPhase::Start,
        run_phases(p, es) != KeyPhase::Claiming,
    decreases es.len(),
{
    if es.len() > 0 {
        lemma_no_creation_past_claim(next_phase(p, es[0]), es.drop_first());
    }
}

/// A thread creates the key at most once, whatever it observes.
pub proof fn lemma_at_most_one_creation(es: Seq<KeyEvent>)
    ensures
        creations(KeyPhase::Start, es) <= 1,
    decreases es.len(),
{
    if es.len() > 0 {
        let q = next_phase(KeyPhase::Start, es[0]);
        if q == KeyPhase::Start {
            lemma_at_most_one_creation(es.drop_first());
        } else if q == KeyPhase::Claiming {
            let es1 = es.drop_first();
            if es1.len() > 0 {
                let q1 = next_phase(q, es1[0]);
                if q1 == KeyPhase::Claiming {
                    lemma_claiming_creates_once(es1);
                } else {
                    lemma_no_creation_past_claim(q1, es1.drop_first());
                }
            }
        } else {
            lemma_no_creation_past_claim(q, es.drop_first());
        }
    }
}

/// From `Claiming`, a thread enters `Creating` at most once.
proof fn lemma_claiming_creates_once(es: Seq<KeyEvent>)
    ensures
        creations(KeyPhase::Claiming, es) <= 1,
    decreases es.len(),
{
    if es.len() > 0 {
        let q = next_phase(KeyPhase::Claiming, es[0]);
        if q == KeyPhase::Claiming {
            lemma_claiming_creates_once(es.drop_first());
        } else {
            lemma_no_creation_past_claim(q, es.drop_first());
        }
    }
}

/// `Ready(k)` is final: no event moves a thread off the key it holds.
pub proof fn lemma_ready_is_final(k: u32, es: Seq<KeyEvent>)
    ensures
        run_phases(KeyPhase::Ready(k), es) == KeyPhase::Ready(k),
    decreases es.len(),
{
    if es.len() > 0 {
        lemma_ready_is_final(k, es.drop_first());
    }
}

/// A thread that starts without a key and ends with `k` either read `k`
/// from the register or created `k` itself: it never uses a key that was
/// not fully made.
pub proof fn lemma_ready_key_origin(es: Seq<KeyEvent>, k: u32)
    requires
        run_phases(KeyPhase::Start, es) == KeyPhase::Ready(k),
    ensures
        exists|i: int|
            0 <= i < es.len() && (es[i] == KeyEvent::Loaded(KeyState::Initialized(k)) || es[i]
                == KeyEvent::Created(0, k)),
{
    lemma_ready_key_origin_from(KeyPhase::Start, es, k);
}

proof fn lemma_ready_key_origin_from(p: KeyPhase, es: Seq<KeyEvent>, k: u32)
    requires
        run_phases(p, es) == KeyPhase::Ready(k),
        p != KeyPhase::Ready(k),
        p != KeyPhase::Publishing(k),
    ensures
        exists|i: int|
            0 <= i < es.len() && (es[i] == KeyEvent::Loaded(KeyState::Initialized(k)) || es[i]
                == KeyEvent::Created(0, k)),
    decreases es.len(),
{
    let q = next_phase(p, es[0]);
    if q == KeyPhase::Ready(k) || q == KeyPhase::Publishing(k) {
        assert(es[0] == KeyEvent::Loaded(KeyState::Initialized(k)) || es[0] == KeyEvent::Created(
            0,
            k,
        ));
    } else {
        let rest = es.drop_first();
        lemma_ready_key_origin_from(q, rest, k);
        let i = choose|i: int|
            0 <= i < rest.len() && (rest[i] == KeyEvent::Loaded(KeyState::Initialized(k))
                || rest[i] == KeyEvent::Created(0, k));
        assert(es[i + 1] == rest[i]);
    }
}

/// One thread-local slot: a key register shared by all threads, created on
/// first need, and the destructor run on each thread's value at its exit.
pub struct LLThreadLocal<T> {
    key: AtomicI64,
    destructor: usize,
    _marker: PhantomData<T>,
}

impl<T> LLThreadLocal<T> {
    /// The destructor's address.
    pub closed spec fn destructor_spec(&self) -> usize {
        self.destructor
    }

    /// Creates a slot with no key yet, whose values are destroyed by the
    /// function at address `destructor`.
    pub fn new(destructor: usize) -> (r: Self)
        ensures
            r.destructor_spec() == destructor,
    {
        LLThreadLocal { key: AtomicI64::new(UNINITIALIZED), destructor, _marker: PhantomData }
    }

    /// Address of the destructor run on each thread's value.
    pub fn destructor(&self) -> (r: usize)
        ensures
            r == self.destructor_spec(),
    {
        self.destructor
    }

    /// Reads the key register.
    pub fn key_state(&self) -> (r: KeyState) {
        KeyState::decode(self.key.load(Ordering::Relaxed))
    }

    /// The key to read values under, if it exists already. Reading never
    /// creates it.
    pub fn get_key(&self) -> (r: Option<u32>) {
        self.key_state().readable_key()
    }

    /// Does the register work of `phase` and returns the phase that
    /// follows: reads the register from `Start` and `Waiting`, claims from
    /// `Claiming`, stores from `Publishing`. Key creation and yielding are
    /// the caller's; on those and on the final phases nothing is done.
    pub fn advance(&self, phase: KeyPhase) -> (r: KeyPhase)
        ensures
            phase == KeyPhase::Start ==> (r == KeyPhase::Claiming || r is Ready),
            phase == KeyPhase::Claiming ==> (r == KeyPhase::Creating || r == KeyPhase::Waiting),
            phase == KeyPhase::Waiting ==> (r == KeyPhase::Waiting || r is Ready),
            phase matches KeyPhase::Publishing(k) ==> r == KeyPhase::Ready(k),
            !(phase == KeyPhase::Start || phase == KeyPhase::Claiming || phase
                == KeyPhase::Waiting || phase is Publishing) ==> r == phase,
            exists|e: KeyEvent| r == next_phase(phase, e),
    {
        match phase {
            KeyPhase::Start | KeyPhase::Waiting => {
                let e = KeyEvent::Loaded(self.key_state());
                phase.next(e)
            },
            KeyPhase::Claiming => {
                let won = self.key.compare_exchange(
                    UNINITIALIZED,
                    UNDER_INITIALIZATION,
                    Ordering::Relaxed,
                    Ordering::Relaxed,
                ).is_ok();
                phase.next(KeyEvent::Claimed(won))
            },
            KeyPhase::Publishing(k) => {
                self.key.store(k as i64, Ordering::Relaxed);
                phase.next(KeyEvent::Published)
            },
            _ => {
                assert(next_phase(phase, KeyEvent::Published) == phase);
                phase
            },
        }
    }
}

} // verus!
