//! Token-keyed registries: log targets, lifecycle observers and the log
//! subscriptions handed to the C side each live in one. Registering hands out
//! a fresh non-zero token; releasing a token removes exactly its entry.
use vstd::prelude::*;

verus! {

/// Abstract state of a registry: its entries in registration order, and the
/// token the next registration receives.
pub struct RegistryView<R> {
    pub entries: Seq<(u64, R)>,
    pub next: u64,
}

/// `entries` without the entries holding token `t`, order kept.
pub open spec fn without_token<R>(entries: Seq<(u64, R)>, t: u64) -> Seq<(u64, R)>
    decreases entries.len(),
{
    if entries.len() == 0 {
        Seq::<(u64, R)>::empty()
    } else {
        let init = without_token(entries.drop_last(), t);
        if entries.last().0 == t {
            init
        } else {
            init.push(entries.last())
        }
    }
}

impl<R> RegistryView<R> {
    /// Some entry holds token `t`.
    pub open spec fn contains(self, t: u64) -> bool {
        exists|i: int| 0 <= i < self.entries.len() && #[trigger] self.entries[i].0 == t
    }

    /// Tokens are non-zero, below `next`, and held by one entry each.
    pub open spec fn wf(self) -> bool {
        &&& 1 <= self.next
        &&& forall|i: int|
            0 <= i < self.entries.len() ==> 1 <= #[trigger] self.entries[i].0 < self.next
        &&& forall|i: int, j: int|
            0 <= i < j < self.entries.len() ==> #[trigger] self.entries[i].0
                != #[trigger] self.entries[j].0
    }

    /// The state after registering `recipient`: it is appended under token `next`.
    pub open spec fn registered(self, recipient: R) -> Self {
        RegistryView { entries: self.entries.push((self.next, recipient)), next: (self.next + 1) as u64 }
    }

    /// The state after releasing token `t`.
    pub open spec fn released(self, t: u64) -> Self {
        RegistryView { entries: without_token(self.entries, t), next: self.next }
    }
}

/// A registry of recipients keyed by the tokens it hands out.
pub struct TokenRegistry<R> {
    entries: Vec<(u64, R)>,
    next_token: u64,
}

impl<R> View for TokenRegistry<R> {
    type V = RegistryView<R>;

    closed spec fn view(&self) -> RegistryView<R> {
        RegistryView { entries: self.entries@, next: self.next_token }
    }
}

/// Releasing a token that no entry holds leaves the entries as they are.
pub proof fn lemma_without_absent<R>(entries: Seq<(u64, R)>, t: u64)
    requires
        forall|i: int| 0 <= i < entries.len() ==> #[trigger] entries[i].0 != t,
    ensures
        without_token(entries, t) == entries,
    decreases entries.len(),
{
    if entries.len() > 0 {
        lemma_without_absent(entries.drop_last(), t);
        assert(entries.drop_last().push(entries.last()) =~= entries);
    }
}

/// Releasing the token of entry `k`, where tokens are distinct, removes
/// exactly that entry.
pub proof fn lemma_without_is_remove<R>(entries: Seq<(u64, R)>, k: int)
    requires
        0 <= k < entries.len(),
        forall|i: int, j: int|
            0 <= i < j < entries.len() ==> #[trigger] entries[i].0 != #[trigger] entries[j].0,
    ensures
        without_token(entries, entries[k].0) == entries.remove(k),
    decreases entries.len(),
{
    let t = entries[k].0;
    let init = entries.drop_last();
    if k == entries.len() - 1 {
        assert forall|i: int| 0 <= i < init.len() implies #[trigger] init[i].0 != t by {
            assert(entries[i].0 != entries[k].0);
        }
        lemma_without_absent(init, t);
        assert(entries.remove(k) =~= init);
    } else {
        assert(entries.last().0 != t) by {
            assert(entries[k].0 != entries[entries.len() - 1].0);
        }
        assert forall|i: int, j: int| 0 <= i < j < init.len() implies #[trigger] init[i].0
            != #[trigger] init[j].0 by {
            assert(entries[i].0 != entries[j].0);
        }
        assert(init[k] == entries[k]);
        lemma_without_is_remove(init, k);
        assert(entries.remove(k) =~= init.remove(k).push(entries.last()));
    }
}

/// After releasing `t` no entry holds it, every other token is held exactly
/// where it was held before, and each entry left was an entry before.
pub proof fn lemma_without_membership<R>(entries: Seq<(u64, R)>, t: u64, u: u64)
    ensures
        forall|i: int|
            0 <= i < without_token(entries, t).len() ==> #[trigger] without_token(
                entries,
                t,
            )[i].0 != t,
        forall|i: int|
            0 <= i < without_token(entries, t).len() ==> entries.contains(
                #[trigger] without_token(entries, t)[i],
            ),
        u != t ==> ((exists|i: int|
            0 <= i < entries.len() && #[trigger] entries[i].0 == u) <==> (exists|i: int|
            0 <= i < without_token(entries, t).len() && #[trigger] without_token(entries, t)[i].0
                == u)),
        without_token(entries, t).len() <= entries.len(),
    decreases entries.len(),
{
    if entries.len() > 0 {
        let init = entries.drop_last();
        let w = without_token(entries, t);
        let wi = without_token(init, t);
        lemma_without_membership(init, t, u);
        assert forall|i: int| 0 <= i < w.len() implies entries.contains(#[trigger] w[i]) by {
            if i < wi.len() {
                assert(init.contains(wi[i]));
                let k = choose|k: int| 0 <= k < init.len() && init[k] == wi[i];
                assert(entries[k] == init[k]);
            } else {
                assert(entries[entries.len() - 1] == entries.last());
            }
        }
        if u != t {
            if exists|i: int| 0 <= i < entries.len() && #[trigger] entries[i].0 == u {
                let i = choose|i: int| 0 <= i < entries.len() && #[trigger] entries[i].0 == u;
                if i < init.len() {
                    assert(init[i].0 == u);
                    let j = choose|j: int| 0 <= j < wi.len() && #[trigger] wi[j].0 == u;
                    assert(w[j].0 == u);
                } else {
                    assert(w[w.len() - 1].0 == u);
                }
            }
            if exists|i: int| 0 <= i < w.len() && #[trigger] w[i].0 == u {
                let i = choose|i: int| 0 <= i < w.len() && #[trigger] w[i].0 == u;
                if i < wi.len() {
                    assert(wi[i].0 == u);
                    let j = choose|j: int| 0 <= j < init.len() && #[trigger] init[j].0 == u;
                    assert(entries[j].0 == u);
                } else {
                    assert(entries[entries.len() - 1].0 == u);
                }
            }
        }
    }
}

/// Registering keeps a registry well formed.
pub proof fn lemma_registered_wf<R>(reg: RegistryView<R>, recipient: R)
    requires
        reg.wf(),
        reg.next < u64::MAX,
    ensures
        reg.registered(recipient).wf(),
        reg.registered(recipient).contains(reg.next),
        !reg.contains(reg.next),
        reg.next != 0,
{
    let n = reg.registered(recipient);
    assert(n.entries[n.entries.len() - 1].0 == reg.next);
    assert forall|i: int, j: int| 0 <= i < j < n.entries.len() implies #[trigger] n.entries[i].0
        != #[trigger] n.entries[j].0 by {
        if j == n.entries.len() - 1 {
            assert(reg.entries[i].0 < reg.next);
        } else {
            assert(reg.entries[i].0 != reg.entries[j].0);
        }
    }
    assert forall|i: int| 0 <= i < n.entries.len() implies 1 <= #[trigger] n.entries[i].0
        < n.next by {
        if i < reg.entries.len() {
            assert(reg.entries[i].0 < reg.next);
        }
    }
}

/// Releasing keeps a registry well formed.
pub proof fn lemma_released_wf<R>(reg: RegistryView<R>, t: u64)
    requires
        reg.wf(),
    ensures
        reg.released(t).wf(),
{
    let w = without_token(reg.entries, t);
    lemma_without_membership(reg.entries, t, t);
    assert forall|i: int| 0 <= i < w.len() implies 1 <= #[trigger] w[i].0 < reg.next by {
        assert(reg.entries.contains(w[i]));
        let k = choose|k: int| 0 <= k < reg.entries.len() && reg.entries[k] == w[i];
        assert(reg.entries[k].0 < reg.next);
    }
    if exists|k: int| 0 <= k < reg.entries.len() && #[trigger] reg.entries[k].0 == t {
        let k = choose|k: int| 0 <= k < reg.entries.len() && #[trigger] reg.entries[k].0 == t;
        lemma_without_is_remove(reg.entries, k);
        assert forall|i: int, j: int| 0 <= i < j < w.len() implies #[trigger] w[i].0
            != #[trigger] w[j].0 by {
            let ii = if i < k { i } else { i + 1 };
            let jj = if j < k { j } else { j + 1 };
            assert(w[i] == reg.entries[ii]);
            assert(w[j] == reg.entries[jj]);
            assert(reg.entries[ii].0 != reg.entries[jj].0);
        }
    } else {
        assert forall|i: int| 0 <= i < reg.entries.len() implies #[trigger] reg.entries[i].0
            != t by {}
        lemma_without_absent(reg.entries, t);
    }
}

/// Releasing the token that a registration just handed out gives back the
/// entries there were before it.
pub proof fn lemma_release_undoes_register<R>(reg: RegistryView<R>, recipient: R)
    requires
        reg.wf(),
        reg.next < u64::MAX,
    ensures
        reg.registered(recipient).released(reg.next).entries == reg.entries,
{
    let e = reg.entries.push((reg.next, recipient));
    assert(e.drop_last() =~= reg.entries);
    assert forall|i: int| 0 <= i < reg.entries.len() implies #[trigger] reg.entries[i].0
        != reg.next by {
        assert(reg.entries[i].0 < reg.next);
    }
    lemma_without_absent(reg.entries, reg.next);
}

/// After a release the released token is held by no entry, and every other
/// token is held exactly where it was held before.
pub proof fn lemma_release_removes_only<R>(reg: RegistryView<R>, t: u64, u: u64)
    ensures
        !reg.released(t).contains(t),
        u != t ==> (reg.released(t).contains(u) == reg.contains(u)),
{
    lemma_without_membership(reg.entries, t, u);
    let w = without_token(reg.entries, t);
    if u != t {
        if reg.contains(u) {
            let i = choose|i: int| 0 <= i < reg.entries.len() && #[trigger] reg.entries[i].0 == u;
            assert(reg.entries[i].0 == u);
            let j = choose|j: int| 0 <= j < w.len() && #[trigger] w[j].0 == u;
            assert(reg.released(t).entries[j].0 == u);
        }
        if reg.released(t).contains(u) {
            let i = choose|i: int| 0 <= i < w.len() && #[trigger] w[i].0 == u;
            assert(w[i].0 == u);
            let j = choose|j: int| 0 <= j < reg.entries.len() && #[trigger] reg.entries[j].0 == u;
            assert(reg.entries[j].0 == u);
        }
    }
}

/// Releasing the same token twice is the same as releasing it once.
pub proof fn lemma_release_idempotent<R>(reg: RegistryView<R>, t: u64)
    ensures
        reg.released(t).released(t) == reg.released(t),
{
    lemma_without_membership(reg.entries, t, t);
    lemma_without_absent(without_token(reg.entries, t), t);
}

/// A released token is not handed out again: the registration that follows
/// the release receives a token above it.
pub proof fn lemma_released_token_not_reissued<R>(reg: RegistryView<R>, t: u64, recipient: R)
    requires
        reg.wf(),
        reg.contains(t),
    ensures
        t < reg.released(t).next,
        reg.released(t).registered(recipient).entries.last().0 != t,
{
    let i = choose|i: int| 0 <= i < reg.entries.len() && #[trigger] reg.entries[i].0 == t;
    assert(reg.entries[i].0 < reg.next);
}

/// Releasing token 0, which no registration hands out, changes nothing.
pub proof fn lemma_release_zero_unchanged<R>(reg: RegistryView<R>)
    requires
        reg.wf(),
    ensures
        reg.released(0) == reg,
{
    assert forall|i: int| 0 <= i < reg.entries.len() implies #[trigger] reg.entries[i].0 != 0 by {
        assert(1 <= reg.entries[i].0);
    }
    lemma_without_absent(reg.entries, 0);
}

/// Releasing a held token removes its one entry and keeps every other entry
/// in order; releasing a token that no entry holds changes nothing.
pub proof fn lemma_release_keeps_order<R>(reg: RegistryView<R>, t: u64)
    requires
        reg.wf(),
    ensures
        reg.contains(t) ==> exists|k: int|
            0 <= k < reg.entries.len() && #[trigger] reg.entries[k].0 == t
                && reg.released(t).entries == reg.entries.remove(k),
        !reg.contains(t) ==> reg.released(t) == reg,
{
    if reg.contains(t) {
        let k = choose|k: int| 0 <= k < reg.entries.len() && #[trigger] reg.entries[k].0 == t;
        lemma_without_is_remove(reg.entries, k);
    } else {
        assert forall|i: int| 0 <= i < reg.entries.len() implies #[trigger] reg.entries[i].0 != t by {}
        lemma_without_absent(reg.entries, t);
    }
}

/// A change to a registry: registering a recipient, or releasing a token.
pub enum RegistryChange<R> {
    Register(R),
    Release(u64),
}

/// The registry after `changes`, in order; a registration once every token
/// has been handed out is refused and changes nothing.
pub open spec fn after_changes<R>(reg: RegistryView<R>, changes: Seq<RegistryChange<R>>) -> RegistryView<R>
    decreases changes.len(),
{
    if changes.len() == 0 {
        reg
    } else {
        let before = after_changes(reg, changes.drop_last());
        match changes.last() {
            RegistryChange::Register(r) => if before.next < u64::MAX {
                before.registered(r)
            } else {
                before
            },
            RegistryChange::Release(u) => before.released(u),
        }
    }
}

/// A released token stays released: whatever registrations and releases
/// follow, no entry holds it again, so the recipient it named is never
/// reached again, and the registry stays well formed.
pub proof fn lemma_released_stays_released<R>(reg: RegistryView<R>, t: u64, changes: Seq<RegistryChange<R>>)
    requires
        reg.wf(),
        t < reg.next,
        !reg.contains(t),
    ensures
        after_changes(reg, changes).wf(),
        t < after_changes(reg, changes).next,
        !after_changes(reg, changes).contains(t),
    decreases changes.len(),
{
    if changes.len() > 0 {
        let before = after_changes(reg, changes.drop_last());
        lemma_released_stays_released(reg, t, changes.drop_last());
        match changes.last() {
            RegistryChange::Register(r) => {
                if before.next < u64::MAX {
                    lemma_registered_wf(before, r);
                    let after = before.registered(r);
                    if after.contains(t) {
                        let i = choose|i: int| 0 <= i < after.entries.len() && #[trigger] after.entries[i].0 == t;
                        if i < before.entries.len() {
                            assert(before.entries[i].0 == t);
                        }
                    }
                }
            },
            RegistryChange::Release(u) => {
                lemma_released_wf(before, u);
                lemma_release_removes_only(before, u, t);
            },
        }
    }
}

impl<R> TokenRegistry<R> {
    /// An empty registry whose first token is 1.
    pub fn new() -> (r: Self)
        ensures
            r@.wf(),
            r@.entries == Seq::<(u64, R)>::empty(),
            r@.next == 1,
    {
        TokenRegistry { entries: Vec::new(), next_token: 1 }
    }

    /// Registers `recipient` and returns the token it is held under.
    pub fn open_slot(&mut self, recipient: R) -> (token: u64)
        requires
            old(self)@.wf(),
            old(self)@.next < u64::MAX,
        ensures
            final(self)@ == old(self)@.registered(recipient),
            final(self)@.wf(),
            token == old(self)@.next,
            token != 0,
            !old(self)@.contains(token),
            final(self)@.contains(token),
    {
        proof {
            lemma_registered_wf(self@, recipient);
        }
        let token = self.next_token;
        self.entries.push((token, recipient));
        self.next_token = token + 1;
        token
    }

    /// Registers `recipient` where one is given and a token is left, and
    /// returns its token; returns 0, changing nothing, where none is given
    /// or every token has been handed out.
    pub fn register_optional(&mut self, recipient: Option<R>) -> (token: u64)
        requires
            old(self)@.wf(),
        ensures
            final(self)@.wf(),
            recipient is None ==> token == 0 && final(self)@ == old(self)@,
            recipient matches Some(r) ==> if old(self)@.next < u64::MAX {
                &&& token == old(self)@.next
                &&& token != 0
                &&& !old(self)@.contains(token)
                &&& final(self)@ == old(self)@.registered(r)
            } else {
                token == 0 && final(self)@ == old(self)@
            },
    {
        match recipient {
            None => 0,
            Some(r) => if self.next_token == u64::MAX {
                0
            } else {
                self.open_slot(r)
            },
        }
    }

    /// Releases `token`, handing back the recipient it held, if any.
    pub fn release_slot(&mut self, token: u64) -> (r: Option<R>)
        requires
            old(self)@.wf(),
        ensures
            final(self)@ == old(self)@.released(token),
            final(self)@.wf(),
            !final(self)@.contains(token),
            r is Some <==> old(self)@.contains(token),
            r matches Some(v) ==> old(self)@.entries.contains((token, v)),
    {
        proof {
            lemma_released_wf(self@, token);
            lemma_release_removes_only(self@, token, token);
        }
        let ghost before_view = self@;
        let ghost before = self@.entries;
        let mut k: usize = 0;
        while k < self.entries.len()
            invariant
                k <= self.entries@.len(),
                self@ == before_view,
                before_view == old(self)@,
                before_view.wf(),
                before == before_view.entries,
                forall|i: int| 0 <= i < k ==> #[trigger] before[i].0 != token,
            decreases self.entries@.len() - k,
        {
            if self.entries[k].0 == token {
                assert(before[k as int].0 == token);
                assert(before_view.entries[k as int].0 == token);
                proof {
                    lemma_without_is_remove(before, k as int);
                }
                let (t, v) = self.entries.remove(k);
                assert(before[k as int] == (t, v));
                assert(self.entries@ == without_token(before, token));
                assert(self@.entries == before_view.released(token).entries);
                return Some(v);
            }
            k = k + 1;
        }
        proof {
            lemma_without_absent(before, token);
        }
        None
    }

    /// Whether some entry holds `token`.
    pub fn is_registered(&self, token: u64) -> (r: bool)
        ensures
            r == self@.contains(token),
    {
        let mut k: usize = 0;
        while k < self.entries.len()
            invariant
                k <= self.entries@.len(),
                forall|i: int| 0 <= i < k ==> #[trigger] self.entries@[i].0 != token,
            decreases self.entries@.len() - k,
        {
            if self.entries[k].0 == token {
                assert(self@.entries[k as int].0 == token);
                return true;
            }
            k = k + 1;
        }
        false
    }

    /// How many recipients are registered.
    pub fn len(&self) -> (r: usize)
        ensures
            r == self@.entries.len(),
    {
        self.entries.len()
    }

    /// The recipient of entry `i`, in registration order.
    pub fn recipient_at(&self, i: usize) -> (r: &R)
        requires
            i < self@.entries.len(),
        ensures
            *r == self@.entries[i as int].1,
    {
        &self.entries[i].1
    }

    /// The token of entry `i`, in registration order.
    pub fn token_at(&self, i: usize) -> (r: u64)
        requires
            i < self@.entries.len(),
        ensures
            r == self@.entries[i as int].0,
    {
        self.entries[i].0
    }

    /// The token the next registration receives.
    pub fn next_token(&self) -> (r: u64)
        ensures
            r == self@.next,
    {
        self.next_token
    }
}

} // verus!
