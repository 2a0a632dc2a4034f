//! Liveliness tokens.
//!
//! Every wrapped foreign object has one token. The token says whether the
//! object still exists (its strong count is positive), how many weak
//! observers point at it, and whether a strong handle derived from a weak one
//! is currently checked out. The tokens of one compositor live side by side
//! in a [`Registry`]; a token is named by its index there, and an index is
//! never given out twice, so a dead token stays dead for every observer.
use vstd::prelude::*;

verus! {

/// What one liveliness token holds, as mathematics.
pub struct TokenState {
    /// Number of strong owners. The token is alive while this is positive.
    pub strong: nat,
    /// Number of weak observers.
    pub weak: nat,
    /// Whether a strong handle is checked out.
    pub borrowed: bool,
}

impl TokenState {
    /// The state of a token that was just made.
    pub open spec fn fresh() -> TokenState {
        TokenState { strong: 1, weak: 0, borrowed: false }
    }

    pub open spec fn alive(self) -> bool {
        self.strong > 0
    }

    /// A token has one strong owner at most, and a dead token is never
    /// checked out.
    pub open spec fn wf(self) -> bool {
        self.strong <= 1 && (self.strong == 0 ==> !self.borrowed)
    }

    pub open spec fn with_flag(self, val: bool) -> TokenState {
        TokenState { borrowed: val, ..self }
    }

    pub open spec fn with_weak_added(self) -> TokenState {
        TokenState { weak: self.weak + 1, ..self }
    }

    /// One weak observer less, where there is one to take away.
    pub open spec fn with_weak_dropped(self) -> TokenState {
        TokenState {
            weak: if self.weak > 0 {
                (self.weak - 1) as nat
            } else {
                0
            },
            ..self
        }
    }

    /// One strong owner less. With the last owner the flag goes too.
    pub open spec fn with_strong_dropped(self) -> TokenState {
        TokenState {
            strong: (self.strong - 1) as nat,
            weak: self.weak,
            borrowed: self.strong > 1 && self.borrowed,
        }
    }
}

/// The tokens of a registry, by index.
pub type Tokens = Seq<TokenState>;

/// The index names a token of `s`.
pub open spec fn known(s: Tokens, id: usize) -> bool {
    id < s.len()
}

/// The token exists and has a strong owner.
pub open spec fn alive(s: Tokens, id: usize) -> bool {
    known(s, id) && s[id as int].alive()
}

/// The token exists and has lost its last strong owner.
pub open spec fn dead(s: Tokens, id: usize) -> bool {
    known(s, id) && !s[id as int].alive()
}

/// The token exists and its flag is set.
pub open spec fn borrowed(s: Tokens, id: usize) -> bool {
    known(s, id) && s[id as int].borrowed
}

pub open spec fn tokens_wf(s: Tokens) -> bool {
    forall|i: int| 0 <= i < s.len() ==> (#[trigger] s[i]).wf()
}

pub open spec fn with_flag(s: Tokens, id: usize, val: bool) -> Tokens {
    s.update(id as int, s[id as int].with_flag(val))
}

pub open spec fn with_weak_added(s: Tokens, id: usize) -> Tokens {
    s.update(id as int, s[id as int].with_weak_added())
}

pub open spec fn with_weak_dropped(s: Tokens, id: usize) -> Tokens {
    if known(s, id) {
        s.update(id as int, s[id as int].with_weak_dropped())
    } else {
        s
    }
}

pub open spec fn with_strong_dropped(s: Tokens, id: usize) -> Tokens {
    s.update(id as int, s[id as int].with_strong_dropped())
}

/// One change that a registry can undergo.
pub enum RegistryOp {
    Create,
    Weak(usize),
    DropWeak(usize),
    SetBorrowed(usize, bool),
    DropStrong(usize),
}

impl RegistryOp {
    /// The states in which the change may be asked for.
    pub open spec fn permitted(self, s: Tokens) -> bool {
        match self {
            RegistryOp::Create => true,
            RegistryOp::Weak(id) => alive(s, id),
            RegistryOp::DropWeak(_) => true,
            RegistryOp::SetBorrowed(id, _) => alive(s, id),
            RegistryOp::DropStrong(id) => alive(s, id),
        }
    }

    /// The state that the change leaves.
    pub open spec fn apply(self, s: Tokens) -> Tokens {
        match self {
            RegistryOp::Create => s.push(TokenState::fresh()),
            RegistryOp::Weak(id) => with_weak_added(s, id),
            RegistryOp::DropWeak(id) => with_weak_dropped(s, id),
            RegistryOp::SetBorrowed(id, val) => with_flag(s, id, val),
            RegistryOp::DropStrong(id) => with_strong_dropped(s, id),
        }
    }
}

/// The state after a run of changes, each applied to what the one before left.
pub open spec fn apply_all(s: Tokens, ops: Seq<RegistryOp>) -> Tokens
    decreases ops.len(),
{
    if ops.len() == 0 {
        s
    } else {
        apply_all(ops[0].apply(s), ops.skip(1))
    }
}

/// Every change of the run is permitted in the state in which it is made.
pub open spec fn all_permitted(s: Tokens, ops: Seq<RegistryOp>) -> bool
    decreases ops.len(),
{
    if ops.len() == 0 {
        true
    } else {
        ops[0].permitted(s) && all_permitted(ops[0].apply(s), ops.skip(1))
    }
}

/// A permitted change keeps the registry well formed.
pub proof fn lemma_apply_keeps_wf(s: Tokens, op: RegistryOp)
    requires
        tokens_wf(s),
        op.permitted(s),
    ensures
        tokens_wf(op.apply(s)),
{
}

/// No change revives a token: one that is dead stays dead, and it keeps its
/// index.
pub proof fn lemma_apply_keeps_dead(s: Tokens, op: RegistryOp, id: usize)
    requires
        dead(s, id),
        op.permitted(s),
    ensures
        dead(op.apply(s), id),
{
}

/// Death is permanent: after any run of permitted changes a dead token is
/// still dead, the registry is still well formed, and so the token is not
/// checked out either.
pub proof fn lemma_dead_is_permanent(s: Tokens, ops: Seq<RegistryOp>, id: usize)
    requires
        tokens_wf(s),
        dead(s, id),
        all_permitted(s, ops),
    ensures
        tokens_wf(apply_all(s, ops)),
        dead(apply_all(s, ops), id),
        !alive(apply_all(s, ops), id),
        !borrowed(apply_all(s, ops), id),
    decreases ops.len(),
{
    if ops.len() > 0 {
        lemma_apply_keeps_wf(s, ops[0]);
        lemma_apply_keeps_dead(s, ops[0], id);
        lemma_dead_is_permanent(ops[0].apply(s), ops.skip(1), id);
    }
}

/// Counting observers touches no lock: after a weak observer was added or
/// dropped, every token is alive exactly if it was, and checked out exactly
/// if it was.
pub proof fn lemma_weak_counts_keep_locks(s: Tokens, id: usize, other: usize)
    ensures
        alive(with_weak_dropped(s, id), other) == alive(s, other),
        borrowed(with_weak_dropped(s, id), other) == borrowed(s, other),
        alive(s, id) ==> alive(with_weak_added(s, id), other) == alive(s, other),
        alive(s, id) ==> borrowed(with_weak_added(s, id), other) == borrowed(s, other),
{
}

/// What is known when a strong owner lets go of its token.
#[derive(Clone, Copy, Debug, PartialEq, Eq, Structural)]
pub struct DropReport {
    /// The owner was the last one: the token is dead now.
    pub finalized: bool,
    /// Weak observers that still point at the token.
    pub weak_count: usize,
}

/// One liveliness token: the counts of its owners and observers, and the
/// flag that says whether a strong handle is checked out.
pub struct LivelinessToken {
    strong: usize,
    weak: usize,
    borrowed: bool,
}

impl View for LivelinessToken {
    type V = TokenState;

    closed spec fn view(&self) -> TokenState {
        TokenState { strong: self.strong as nat, weak: self.weak as nat, borrowed: self.borrowed }
    }
}

impl LivelinessToken {
    /// A fresh token: one strong owner, no weak observer, not checked out.
    pub fn new() -> (token: Self)
        ensures
            token@ == TokenState::fresh(),
    {
        LivelinessToken { strong: 1, weak: 0, borrowed: false }
    }

    pub fn strong_count(&self) -> (n: usize)
        ensures
            n == self@.strong,
    {
        self.strong
    }

    pub fn weak_count(&self) -> (n: usize)
        ensures
            n == self@.weak,
    {
        self.weak
    }

    pub fn is_alive(&self) -> (b: bool)
        ensures
            b == self@.alive(),
    {
        self.strong > 0
    }

    pub fn is_borrowed(&self) -> (b: bool)
        ensures
            b == self@.borrowed,
    {
        self.borrowed
    }

    /// Sets or clears the flag of a living token.
    pub fn set_borrowed(&mut self, val: bool)
        requires
            old(self)@.alive(),
        ensures
            final(self)@ == old(self)@.with_flag(val),
        no_unwind
    {
        self.borrowed = val;
    }

    /// Counts one more weak observer. The strong count is not touched.
    pub fn weak(&mut self)
        requires
            old(self)@.alive(),
            old(self)@.weak < usize::MAX,
        ensures
            final(self)@ == old(self)@.with_weak_added(),
        no_unwind
    {
        self.weak = self.weak + 1;
    }

    /// Counts one weak observer less, where one is counted.
    pub fn drop_weak(&mut self)
        ensures
            final(self)@ == old(self)@.with_weak_dropped(),
        no_unwind
    {
        if self.weak > 0 {
            self.weak = self.weak - 1;
        }
    }

    /// Takes one strong owner away. When it was the last, the token is dead
    /// from now on and its flag is cleared.
    pub fn drop_strong(&mut self) -> (report: DropReport)
        requires
            old(self)@.alive(),
        ensures
            final(self)@ == old(self)@.with_strong_dropped(),
            report.finalized == (old(self)@.strong == 1),
            report.weak_count == old(self)@.weak,
        no_unwind
    {
        self.strong = self.strong - 1;
        if self.strong == 0 {
            self.borrowed = false;
        }
        DropReport { finalized: self.strong == 0, weak_count: self.weak }
    }
}

/// The liveliness tokens of one compositor.
pub struct Registry {
    tokens: Vec<LivelinessToken>,
}

/// The states of a run of tokens.
pub closed spec fn states_of(tokens: Seq<LivelinessToken>) -> Tokens {
    Seq::new(tokens.len(), |i: int| tokens[i]@)
}

impl View for Registry {
    type V = Tokens;

    closed spec fn view(&self) -> Tokens {
        states_of(self.tokens@)
    }
}

impl Registry {
    /// Every token has one strong owner at most, and a dead token is never
    /// checked out: this holds of every registry.
    #[verifier::type_invariant]
    pub open spec fn inv(&self) -> bool {
        tokens_wf(self@)
    }

    /// An empty registry.
    pub fn new() -> (registry: Self)
        ensures
            registry@ == Seq::<TokenState>::empty(),
            tokens_wf(registry@),
    {
        let registry = Registry { tokens: Vec::new() };
        assert(registry@ =~= Seq::<TokenState>::empty());
        registry
    }

    /// Number of tokens ever made, dead ones included.
    pub fn len(&self) -> (n: usize)
        ensures
            n == self@.len(),
            tokens_wf(self@),
    {
        proof {
            use_type_invariant(self);
        }
        self.tokens.len()
    }

    /// Makes a fresh token and returns its index.
    pub fn create(&mut self) -> (id: usize)
        ensures
            id == old(self)@.len(),
            final(self)@ == RegistryOp::Create.apply(old(self)@),
            tokens_wf(final(self)@),
    {
        proof {
            use_type_invariant(&*self);
        }
        let mut tokens: Vec<LivelinessToken> = Vec::new();
        assert(states_of(tokens@) =~= Seq::<TokenState>::empty());
        core::mem::swap(&mut self.tokens, &mut tokens);
        let id = tokens.len();
        tokens.push(LivelinessToken::new());
        assert(states_of(tokens@) =~= old(self)@.push(TokenState::fresh()));
        core::mem::swap(&mut self.tokens, &mut tokens);
        id
    }

    /// Whether the token exists and still has a strong owner.
    pub fn is_alive(&self, id: usize) -> (b: bool)
        ensures
            b == alive(self@, id),
            tokens_wf(self@),
    {
        proof {
            use_type_invariant(self);
        }
        id < self.tokens.len() && self.tokens[id].is_alive()
    }

    /// Whether the token exists and is checked out. Only a living token is
    /// ever checked out.
    pub fn is_borrowed(&self, id: usize) -> (b: bool)
        ensures
            b == borrowed(self@, id),
            b ==> alive(self@, id),
            tokens_wf(self@),
    {
        proof {
            use_type_invariant(self);
        }
        id < self.tokens.len() && self.tokens[id].is_borrowed()
    }

    pub fn strong_count(&self, id: usize) -> (n: usize)
        requires
            known(self@, id),
        ensures
            n == self@[id as int].strong,
    {
        self.tokens[id].strong_count()
    }

    pub fn weak_count(&self, id: usize) -> (n: usize)
        requires
            known(self@, id),
        ensures
            n == self@[id as int].weak,
    {
        self.tokens[id].weak_count()
    }

    /// Sets or clears the flag of a living token. No other token changes.
    pub fn set_borrowed(&mut self, id: usize, val: bool)
        requires
            alive(old(self)@, id),
        ensures
            final(self)@ == RegistryOp::SetBorrowed(id, val).apply(old(self)@),
            tokens_wf(final(self)@),
    {
        proof {
            use_type_invariant(&*self);
        }
        let mut tokens: Vec<LivelinessToken> = Vec::new();
        assert(states_of(tokens@) =~= Seq::<TokenState>::empty());
        core::mem::swap(&mut self.tokens, &mut tokens);
        tokens[id].set_borrowed(val);
        assert(states_of(tokens@) =~= with_flag(old(self)@, id, val));
        core::mem::swap(&mut self.tokens, &mut tokens);
    }

    /// Counts one more weak observer of a living token and returns the
    /// index by which the observer finds it again.
    pub fn weak(&mut self, id: usize) -> (observer: usize)
        requires
            alive(old(self)@, id),
            old(self)@[id as int].weak < usize::MAX,
        ensures
            observer == id,
            final(self)@ == RegistryOp::Weak(id).apply(old(self)@),
            tokens_wf(final(self)@),
    {
        proof {
            use_type_invariant(&*self);
        }
        let mut tokens: Vec<LivelinessToken> = Vec::new();
        assert(states_of(tokens@) =~= Seq::<TokenState>::empty());
        core::mem::swap(&mut self.tokens, &mut tokens);
        tokens[id].weak();
        assert(states_of(tokens@) =~= with_weak_added(old(self)@, id));
        core::mem::swap(&mut self.tokens, &mut tokens);
        id
    }

    /// Counts one weak observer less, where the token exists and counts one.
    /// The token may be dead already.
    pub fn drop_weak(&mut self, id: usize)
        ensures
            final(self)@ == RegistryOp::DropWeak(id).apply(old(self)@),
            tokens_wf(final(self)@),
    {
        proof {
            use_type_invariant(&*self);
        }
        if id < self.tokens.len() {
            let mut tokens: Vec<LivelinessToken> = Vec::new();
            assert(states_of(tokens@) =~= Seq::<TokenState>::empty());
            core::mem::swap(&mut self.tokens, &mut tokens);
            tokens[id].drop_weak();
            assert(states_of(tokens@) =~= with_weak_dropped(old(self)@, id));
            core::mem::swap(&mut self.tokens, &mut tokens);
        }
    }

    /// Takes one strong owner from a living token. With the last owner the
    /// token dies: it keeps its index, and no later call revives it.
    pub fn drop_strong(&mut self, id: usize) -> (report: DropReport)
        requires
            alive(old(self)@, id),
        ensures
            final(self)@ == RegistryOp::DropStrong(id).apply(old(self)@),
            report.finalized == (old(self)@[id as int].strong == 1),
            report.weak_count == old(self)@[id as int].weak,
            tokens_wf(final(self)@),
    {
        proof {
            use_type_invariant(&*self);
        }
        let mut tokens: Vec<LivelinessToken> = Vec::new();
        assert(states_of(tokens@) =~= Seq::<TokenState>::empty());
        core::mem::swap(&mut self.tokens, &mut tokens);
        let report = tokens[id].drop_strong();
        assert(states_of(tokens@) =~= with_strong_dropped(old(self)@, id));
        core::mem::swap(&mut self.tokens, &mut tokens);
        report
    }
}

} // verus!
