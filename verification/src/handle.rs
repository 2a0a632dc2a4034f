//! Strong and weak handles to foreign objects.
//!
//! A [`StrongHandle`] stands for a foreign object that exists right now. The
//! one made when the object is discovered owns the object's liveliness token.
//! A [`WeakHandle`] may be kept for as long as one likes: before each use it
//! is upgraded, which fails once the object is gone and which hands out at
//! most one strong handle at a time.
use vstd::prelude::*;
use crate::liveliness::{
    alive, borrowed, dead, tokens_wf, with_flag, DropReport, Registry, RegistryOp, Tokens,
};

verus! {

/// A handle to a foreign object that is known to exist.
///
/// `T` is what the handle remembers of the object: its address and whatever
/// else names it.
#[derive(Debug)]
pub struct StrongHandle<T> {
    /// The token that this handle owns. `None` in a handle that came out of
    /// an upgrade: such a handle borrows its liveliness from the weak handle
    /// that it was made from.
    liveliness: Option<usize>,
    data: T,
}

/// A handle that may outlive the foreign object it points at.
#[derive(Debug)]
pub struct WeakHandle<T> {
    handle: usize,
    data: T,
}

/// What an upgrade of a weak handle would meet.
#[derive(Clone, Copy, Debug, PartialEq, Eq, Structural)]
pub enum HandleStatus {
    /// The foreign object is gone.
    Absent,
    /// The object exists and no strong handle is checked out.
    Available,
    /// The object exists and a strong handle is checked out already.
    CheckedOut,
}

/// A fault in the use of handles. None can be recovered from: the caller
/// has broken the rule that a foreign object is borrowed once at a time.
#[derive(Clone, Copy, Debug, PartialEq, Eq, Structural)]
pub enum Violation {
    /// An upgrade met a strong handle that was checked out already.
    DoubleBorrow,
    /// After a runner had returned, the flag of the living token was clear.
    LockCleared,
}

impl Violation {
    /// What to say of the fault.
    pub fn message(&self) -> (text: &'static str)
        ensures
            text@ == (match *self {
                Violation::DoubleBorrow => "Double mutable borrows detected"@,
                Violation::LockCleared => "Lock in incorrect state!"@,
            }),
    {
        match self {
            Violation::DoubleBorrow => "Double mutable borrows detected",
            Violation::LockCleared => "Lock in incorrect state!",
        }
    }
}

/// A fault together with the foreign object that it was found on.
#[derive(Clone, Copy, Debug, PartialEq, Eq)]
pub struct Fault<T> {
    pub violation: Violation,
    /// The token of the foreign object.
    pub token: usize,
    /// What the handle remembers of the foreign object.
    pub identity: T,
}

/// The registry after a strong handle for `id` was checked out, where the
/// token is alive; the registry unchanged, where it is not.
pub open spec fn checked_out(s: Tokens, id: usize) -> Tokens {
    if alive(s, id) {
        with_flag(s, id, true)
    } else {
        s
    }
}

/// The registry after the strong handle for `id` was handed back, where the
/// token is alive; the registry unchanged, where it is not.
pub open spec fn checked_in(s: Tokens, id: usize) -> Tokens {
    if alive(s, id) {
        with_flag(s, id, false)
    } else {
        s
    }
}

/// The status that `s` gives the token `id`.
pub open spec fn status_of(s: Tokens, id: usize) -> HandleStatus {
    if !alive(s, id) {
        HandleStatus::Absent
    } else if borrowed(s, id) {
        HandleStatus::CheckedOut
    } else {
        HandleStatus::Available
    }
}

impl<T: Copy> StrongHandle<T> {
    /// The token that the handle owns, if it owns one.
    pub closed spec fn token(&self) -> Option<usize> {
        self.liveliness
    }

    /// What the handle remembers of the foreign object.
    pub closed spec fn identity(&self) -> T {
        self.data
    }

    /// The handle was made from a freshly discovered foreign object.
    pub open spec fn original(&self) -> bool {
        self.token() is Some
    }

    /// The handle owns a token, and in `s` that token is alive.
    pub open spec fn valid(&self, s: Tokens) -> bool {
        self.token() is Some && alive(s, self.token().unwrap())
    }

    /// Wraps a foreign object that no handle wraps yet, and makes its token.
    pub fn from_foreign(registry: &mut Registry, data: T) -> (strong: Self)
        ensures
            strong.token() == Some(old(registry)@.len() as usize),
            strong.identity() == data,
            final(registry)@ == RegistryOp::Create.apply(old(registry)@),
            strong.valid(final(registry)@),
            tokens_wf(final(registry)@),
    {
        let id = registry.create();
        StrongHandle { liveliness: Some(id), data }
    }

    /// The strong handle that an upgrade of `handle` hands out. It owns no
    /// token.
    pub(crate) fn from_handle(handle: &WeakHandle<T>) -> (strong: Self)
        ensures
            strong == handle.upgraded(),
    {
        StrongHandle { liveliness: None, data: handle.data }
    }

    /// The index of the token that the handle owns, if it owns one.
    pub fn token_id(&self) -> (id: Option<usize>)
        ensures
            id == self.token(),
    {
        self.liveliness
    }

    pub fn is_original(&self) -> (b: bool)
        ensures
            b == self.original(),
    {
        self.liveliness.is_some()
    }

    /// Whether the handle owns a token that is alive in `registry`.
    pub fn is_valid(&self, registry: &Registry) -> (b: bool)
        ensures
            b == self.valid(registry@),
    {
        match self.liveliness {
            None => false,
            Some(id) => registry.is_alive(id),
        }
    }

    pub fn data(&self) -> (data: T)
        ensures
            data == self.identity(),
    {
        self.data
    }

    /// Makes a weak handle to the same foreign object.
    ///
    /// Only the handle that owns the token can do this.
    pub fn weak_reference(&self, registry: &mut Registry) -> (weak: WeakHandle<T>)
        requires
            self.valid(old(registry)@),
            old(registry)@[self.token().unwrap() as int].weak < usize::MAX,
        ensures
            weak.token() == self.token().unwrap(),
            weak.identity() == self.identity(),
            final(registry)@ == RegistryOp::Weak(self.token().unwrap()).apply(old(registry)@),
            self.valid(final(registry)@),
            tokens_wf(final(registry)@),
    {
        let id = self.liveliness.unwrap();
        let observer = registry.weak(id);
        WeakHandle { handle: observer, data: self.data }
    }

    /// Sets or clears the flag by which a second borrow of the foreign
    /// object is found out.
    ///
    /// Only the handle that owns the token can do this.
    pub fn set_lock(&self, registry: &mut Registry, val: bool)
        requires
            self.valid(old(registry)@),
        ensures
            final(registry)@ == RegistryOp::SetBorrowed(self.token().unwrap(), val).apply(
                old(registry)@,
            ),
            self.valid(final(registry)@),
            tokens_wf(final(registry)@),
    {
        registry.set_borrowed(self.liveliness.unwrap(), val);
    }

    /// Gives the handle up. A handle that owns its token lets go of it, and
    /// the report says whether the token died of that; a handle that came
    /// out of an upgrade changes nothing.
    pub fn destroy(self, registry: &mut Registry) -> (report: Option<DropReport>)
        requires
            self.original() ==> self.valid(old(registry)@),
        ensures
            !self.original() ==> report is None && final(registry)@ == old(registry)@,
            self.original() ==> report == Some(
                DropReport {
                    finalized: old(registry)@[self.token().unwrap() as int].strong == 1,
                    weak_count: old(registry)@[self.token().unwrap() as int].weak as usize,
                },
            ) && final(registry)@ == RegistryOp::DropStrong(self.token().unwrap()).apply(
                old(registry)@,
            ),
            tokens_wf(final(registry)@),
    {
        proof {
            use_type_invariant(&*registry);
        }
        match self.liveliness {
            None => None,
            Some(id) => Some(registry.drop_strong(id)),
        }
    }
}

impl<T: Copy> WeakHandle<T> {
    /// The token that the handle observes.
    pub closed spec fn token(&self) -> usize {
        self.handle
    }

    /// What the handle remembers of the foreign object.
    pub closed spec fn identity(&self) -> T {
        self.data
    }

    /// The strong handle that an upgrade hands out: the same identity, and
    /// no token of its own.
    pub closed spec fn upgraded(&self) -> StrongHandle<T> {
        StrongHandle { liveliness: None, data: self.data }
    }

    /// The fault `violation`, found on the foreign object of this handle.
    pub open spec fn fault(&self, violation: Violation) -> Fault<T> {
        Fault { violation, token: self.token(), identity: self.identity() }
    }

    /// What `run` hands to its runner when it starts from the registry `s`:
    /// the registry with this handle's flag set, and the upgraded strong
    /// handle.
    pub open spec fn hands_to_runner(&self, s: Tokens, r: Tokens, k: StrongHandle<T>) -> bool {
        r == checked_out(s, self.token()) && k == self.upgraded()
    }

    /// What `run` asks of the registry that its runner leaves: if the token
    /// is still alive, its flag is still set.
    pub open spec fn runner_kept_flag(&self, left: Tokens) -> bool {
        alive(left, self.token()) ==> borrowed(left, self.token())
    }

    /// The strong handle that an upgrade hands out owns no token and
    /// remembers what the weak handle remembers.
    pub proof fn lemma_upgraded(&self)
        ensures
            self.upgraded().token() is None,
            !self.upgraded().original(),
            self.upgraded().identity() == self.identity(),
    {
    }

    /// The index of the observed token.
    pub fn id(&self) -> (id: usize)
        ensures
            id == self.token(),
    {
        self.handle
    }

    pub fn data(&self) -> (data: T)
        ensures
            data == self.identity(),
    {
        self.data
    }

    /// What an upgrade would meet, without changing anything.
    pub fn status(&self, registry: &Registry) -> (status: HandleStatus)
        ensures
            status == status_of(registry@, self.token()),
    {
        if !registry.is_alive(self.handle) {
            HandleStatus::Absent
        } else if registry.is_borrowed(self.handle) {
            HandleStatus::CheckedOut
        } else {
            HandleStatus::Available
        }
    }

    /// Checks a strong handle out, if the foreign object still exists.
    ///
    /// A second upgrade while the first strong handle is out is a fault of
    /// the caller: the flag must be clear.
    pub fn upgrade(&self, registry: &mut Registry) -> (strong: Option<StrongHandle<T>>)
        requires
            !borrowed(old(registry)@, self.token()),
        ensures
            strong is Some <==> alive(old(registry)@, self.token()),
            strong is Some ==> strong.unwrap() == self.upgraded() && !strong.unwrap().original()
                && strong.unwrap().identity() == self.identity(),
            final(registry)@ == checked_out(old(registry)@, self.token()),
            tokens_wf(final(registry)@),
    {
        if registry.is_alive(self.handle) {
            let strong = StrongHandle::from_handle(self);
            registry.set_borrowed(self.handle, true);
            Some(strong)
        } else {
            None
        }
    }

    /// Hands the checked-out strong handle back, if the foreign object still
    /// exists.
    ///
    /// Finding the flag clear here is a fault of the caller: somebody took a
    /// second strong handle in between.
    pub fn check_in(&self, registry: &mut Registry)
        requires
            alive(old(registry)@, self.token()) ==> borrowed(old(registry)@, self.token()),
        ensures
            final(registry)@ == checked_in(old(registry)@, self.token()),
            tokens_wf(final(registry)@),
    {
        if registry.is_alive(self.handle) {
            registry.set_borrowed(self.handle, false);
        }
    }

    /// Runs `runner` on the foreign object, if it still exists.
    ///
    /// The strong handle is checked out for the call and handed back after
    /// it. `runner` gets the registry too, and must leave the flag of this
    /// handle as it found it.
    pub fn run<F, R>(&mut self, registry: &mut Registry, runner: F) -> (res: Option<R>) where
        F: FnOnce(&mut Registry, &mut StrongHandle<T>) -> R,

        requires
            !borrowed(old(registry)@, old(self).token()),
            alive(old(registry)@, old(self).token()) ==> forall|
                r: &mut Registry,
                k: &mut StrongHandle<T>,
            |
                old(self).hands_to_runner(old(registry)@, r@, *k) ==> #[trigger] call_requires(
                    runner,
                    (r, k),
                ),
            alive(old(registry)@, old(self).token()) ==> forall|
                r: &mut Registry,
                k: &mut StrongHandle<T>,
                out: R,
            |
                old(self).hands_to_runner(old(registry)@, r@, *k) && #[trigger] call_ensures(
                    runner,
                    (r, k),
                    out,
                ) ==> old(self).runner_kept_flag(final(r)@),
        ensures
            *final(self) == *old(self),
            res is Some <==> alive(old(registry)@, old(self).token()),
            res is None ==> final(registry)@ == old(registry)@,
            res is Some ==> exists|r: &mut Registry, k: &mut StrongHandle<T>, out: R|
                res == Some(out) && old(self).hands_to_runner(old(registry)@, r@, *k)
                    && #[trigger] call_ensures(runner, (r, k), out) && final(registry)@
                    == checked_in(final(r)@, old(self).token()),
            tokens_wf(final(registry)@),
            !borrowed(final(registry)@, old(self).token()),
    {
        let upgraded = self.upgrade(registry);
        match upgraded {
            None => None,
            Some(strong) => {
                let mut strong = strong;
                let out = runner(registry, &mut strong);
                self.check_in(registry);
                Some(out)
            },
        }
    }

    /// The fault `violation`, found on the foreign object of this handle.
    fn found(&self, violation: Violation) -> (fault: Fault<T>)
        ensures
            fault == self.fault(violation),
    {
        Fault { violation, token: self.handle, identity: self.data }
    }

    /// Checks a strong handle out like `upgrade`, but finds a second borrow
    /// out itself: where a strong handle is checked out already, nothing
    /// changes and the fault is returned.
    pub fn try_upgrade(&self, registry: &mut Registry) -> (res: Result<
        Option<StrongHandle<T>>,
        Fault<T>,
    >)
        ensures
            match status_of(old(registry)@, self.token()) {
                HandleStatus::CheckedOut => res == Err::<Option<StrongHandle<T>>, Fault<T>>(
                    self.fault(Violation::DoubleBorrow),
                ) && final(registry)@ == old(registry)@,
                HandleStatus::Absent => res == Ok::<Option<StrongHandle<T>>, Fault<T>>(None)
                    && final(registry)@ == old(registry)@,
                HandleStatus::Available => res == Ok::<Option<StrongHandle<T>>, Fault<T>>(
                    Some(self.upgraded()),
                ) && final(registry)@ == checked_out(old(registry)@, self.token()),
            },
            tokens_wf(final(registry)@),
    {
        if registry.is_borrowed(self.handle) {
            Err(self.found(Violation::DoubleBorrow))
        } else {
            Ok(self.upgrade(registry))
        }
    }

    /// Runs `runner` like `run`, but finds the faults out itself. Where a
    /// strong handle is checked out already, `runner` is not called and
    /// nothing changes. Where `runner` leaves the flag of the living token
    /// clear, the registry stays as `runner` left it.
    pub fn try_run<F, R>(&mut self, registry: &mut Registry, runner: F) -> (res: Result<
        Option<R>,
        Fault<T>,
    >) where F: FnOnce(&mut Registry, &mut StrongHandle<T>) -> R
        requires
            status_of(old(registry)@, old(self).token()) == HandleStatus::Available ==> forall|
                r: &mut Registry,
                k: &mut StrongHandle<T>,
            |
                old(self).hands_to_runner(old(registry)@, r@, *k) ==> #[trigger] call_requires(
                    runner,
                    (r, k),
                ),
        ensures
            *final(self) == *old(self),
            tokens_wf(final(registry)@),
            match status_of(old(registry)@, old(self).token()) {
                HandleStatus::CheckedOut => res == Err::<Option<R>, Fault<T>>(
                    old(self).fault(Violation::DoubleBorrow),
                ) && final(registry)@ == old(registry)@,
                HandleStatus::Absent => res == Ok::<Option<R>, Fault<T>>(None)
                    && final(registry)@ == old(registry)@,
                HandleStatus::Available => exists|
                    r: &mut Registry,
                    k: &mut StrongHandle<T>,
                    out: R,
                |
                    old(self).hands_to_runner(old(registry)@, r@, *k) && #[trigger] call_ensures(
                        runner,
                        (r, k),
                        out,
                    ) && (if old(self).runner_kept_flag(final(r)@) {
                        res == Ok::<Option<R>, Fault<T>>(Some(out)) && final(registry)@
                            == checked_in(final(r)@, old(self).token())
                    } else {
                        res == Err::<Option<R>, Fault<T>>(
                            old(self).fault(Violation::LockCleared),
                        ) && final(registry)@ == final(r)@
                    }),
            },
    {
        if registry.is_borrowed(self.handle) {
            return Err(self.found(Violation::DoubleBorrow));
        }
        let upgraded = self.upgrade(registry);
        match upgraded {
            None => Ok(None),
            Some(strong) => {
                let mut strong = strong;
                let out = runner(registry, &mut strong);
                if registry.is_alive(self.handle) && !registry.is_borrowed(self.handle) {
                    Err(self.found(Violation::LockCleared))
                } else {
                    self.check_in(registry);
                    Ok(Some(out))
                }
            },
        }
    }

    /// Gives the weak handle up: its token counts one observer less.
    pub fn release(self, registry: &mut Registry)
        ensures
            final(registry)@ == RegistryOp::DropWeak(self.token()).apply(old(registry)@),
            tokens_wf(final(registry)@),
    {
        registry.drop_weak(self.handle);
    }
}

/// One call made through a weak handle.
pub enum HandleCall {
    /// An upgrade.
    Upgrade,
    /// The strong handle is handed back, as at the end of `run`.
    CheckIn,
}

impl HandleCall {
    /// The call is no fault in `s`: an upgrade needs the flag clear, and a
    /// check-in of a living token needs it set.
    pub open spec fn permitted(self, s: Tokens, id: usize) -> bool {
        match self {
            HandleCall::Upgrade => !borrowed(s, id),
            HandleCall::CheckIn => alive(s, id) ==> borrowed(s, id),
        }
    }

    /// The registry that the call leaves.
    pub open spec fn apply(self, s: Tokens, id: usize) -> Tokens {
        match self {
            HandleCall::Upgrade => checked_out(s, id),
            HandleCall::CheckIn => checked_in(s, id),
        }
    }

    /// By how much the call changes the number of strong handles that are
    /// out: an upgrade of a living token hands one out, a check-in of a
    /// living token takes one back.
    pub open spec fn handed_out(self, s: Tokens, id: usize) -> int {
        if !alive(s, id) {
            0
        } else {
            match self {
                HandleCall::Upgrade => 1,
                HandleCall::CheckIn => -1,
            }
        }
    }
}

/// Every call of the run is permitted in the state in which it is made.
pub open spec fn calls_permitted(s: Tokens, id: usize, calls: Seq<HandleCall>) -> bool
    decreases calls.len(),
{
    if calls.len() == 0 {
        true
    } else {
        calls[0].permitted(s, id) && calls_permitted(calls[0].apply(s, id), id, calls.skip(1))
    }
}

/// The registry after a run of calls.
pub open spec fn after_calls(s: Tokens, id: usize, calls: Seq<HandleCall>) -> Tokens
    decreases calls.len(),
{
    if calls.len() == 0 {
        s
    } else {
        after_calls(calls[0].apply(s, id), id, calls.skip(1))
    }
}

/// The number of strong handles that are out after a run of calls, when
/// `out` were out before it.
pub open spec fn out_after_calls(s: Tokens, id: usize, calls: Seq<HandleCall>, out: int) -> int
    decreases calls.len(),
{
    if calls.len() == 0 {
        out
    } else {
        out_after_calls(
            calls[0].apply(s, id),
            id,
            calls.skip(1),
            out + calls[0].handed_out(s, id),
        )
    }
}

/// At most one strong handle is out at any time: of a living token whose
/// flag tells how many are out, every run of permitted upgrades and
/// check-ins leaves none or one out, and the flag still tells which.
pub proof fn lemma_at_most_one_checked_out(
    s: Tokens,
    id: usize,
    calls: Seq<HandleCall>,
    out: int,
)
    requires
        alive(s, id),
        out == (if borrowed(s, id) {
            1int
        } else {
            0int
        }),
        calls_permitted(s, id, calls),
    ensures
        alive(after_calls(s, id, calls), id),
        0 <= out_after_calls(s, id, calls, out) <= 1,
        out_after_calls(s, id, calls, out) == 1 <==> borrowed(after_calls(s, id, calls), id),
    decreases calls.len(),
{
    if calls.len() > 0 {
        lemma_at_most_one_checked_out(
            calls[0].apply(s, id),
            id,
            calls.skip(1),
            out + calls[0].handed_out(s, id),
        );
    }
}

/// While a strong handle is out, a second upgrade is a fault: right after an
/// upgrade that handed one out, no upgrade is permitted, and the status says
/// so.
pub proof fn lemma_upgrade_excludes_upgrade(s: Tokens, id: usize)
    requires
        alive(s, id),
        HandleCall::Upgrade.permitted(s, id),
    ensures
        !HandleCall::Upgrade.permitted(HandleCall::Upgrade.apply(s, id), id),
        status_of(HandleCall::Upgrade.apply(s, id), id) == HandleStatus::CheckedOut,
{
}

/// A weak handle to a dead token is absent for good: every upgrade is
/// permitted, hands nothing out and changes nothing, whatever run of upgrades
/// and check-ins came before.
pub proof fn lemma_dead_handle_stays_absent(s: Tokens, id: usize, calls: Seq<HandleCall>)
    requires
        tokens_wf(s),
        dead(s, id),
    ensures
        calls_permitted(s, id, calls),
        after_calls(s, id, calls) == s,
        out_after_calls(s, id, calls, 0) == 0,
        status_of(after_calls(s, id, calls), id) == HandleStatus::Absent,
    decreases calls.len(),
{
    if calls.len() > 0 {
        lemma_dead_handle_stays_absent(s, id, calls.skip(1));
    }
}

/// When the last strong owner lets go, every weak handle to the token is
/// absent from then on.
pub proof fn lemma_destroyed_is_absent(s: Tokens, id: usize)
    requires
        alive(s, id),
        s[id as int].strong == 1,
    ensures
        dead(RegistryOp::DropStrong(id).apply(s), id),
        status_of(RegistryOp::DropStrong(id).apply(s), id) == HandleStatus::Absent,
        !borrowed(RegistryOp::DropStrong(id).apply(s), id),
{
}

/// A check-in after an upgrade gives back the registry as it was before,
/// where the flag was clear: the pair leaves no trace.
pub proof fn lemma_check_in_undoes_upgrade(s: Tokens, id: usize)
    requires
        !borrowed(s, id),
    ensures
        checked_in(checked_out(s, id), id) =~= s,
        !borrowed(checked_in(checked_out(s, id), id), id),
{
}

} // verus!
