//! The mathematical model of the platform arbiter.
//!
//! The station's state is modelled as plain sequences: the registry of
//! admitted trains, the FIFO wait queue of names, and the name now holding
//! the platform, if any.  Each operation of the arbiter is a transition
//! function on this model, and the laws of the arbiter — mutual exclusion,
//! FIFO fairness, and the no-op character of duplicate admissions and of
//! unknown releases — are proved here once and for all states.

use vstd::prelude::*;

verus! {

/// The two train kinds.  The kind selects display behaviour only; the
/// arbitration logic never reads it.
#[derive(Clone, Copy, PartialEq, Eq, Structural, Debug)]
pub enum TrainKind {
    Passenger,
    Freight,
}

/// What the arbiter keeps of one admitted train: its identifying name and
/// its kind.
#[verifier::ext_equal]
pub struct TrainView {
    pub name: Seq<char>,
    pub kind: TrainKind,
}

/// The abstract state of a station: the registry of admitted trains, the
/// FIFO wait queue of names, and the occupant of the single platform slot.
#[verifier::ext_equal]
pub struct StationView {
    pub registry: Seq<TrainView>,
    pub queue: Seq<Seq<char>>,
    pub platform: Option<Seq<char>>,
}

/// The answer a train receives when it is presented for admission.
#[derive(Clone, Copy, PartialEq, Eq, Structural, Debug)]
pub enum Admission {
    /// The platform was free: the train occupies it at once.
    Granted,
    /// The platform is held: the train now waits at the tail of the queue.
    Blocked,
    /// A train of that name is already known; nothing changes.
    AlreadyArrived,
}

impl StationView {
    /// The registered names, in registration order.
    pub open spec fn names(self) -> Seq<Seq<char>> {
        self.registry.map_values(|t: TrainView| t.name)
    }

    pub open spec fn registered(self, name: Seq<char>) -> bool {
        self.names().contains(name)
    }

    pub open spec fn queued(self, name: Seq<char>) -> bool {
        self.queue.contains(name)
    }

    pub open spec fn occupant_is(self, name: Seq<char>) -> bool {
        self.platform == Some(name)
    }

    /// Registered names are pairwise distinct.
    pub open spec fn registry_distinct(self) -> bool {
        forall|i: int, j: int|
            0 <= i < j < self.registry.len() ==> self.registry[i].name != self.registry[j].name
    }

    /// The queue holds registered names only, holds no name twice, and never
    /// holds the occupant.
    pub open spec fn queue_ok(self) -> bool {
        &&& forall|i: int| 0 <= i < self.queue.len() ==> self.registered(#[trigger] self.queue[i])
        &&& forall|i: int, j: int| 0 <= i < j < self.queue.len() ==> self.queue[i] != self.queue[j]
        &&& self.platform matches Some(n) ==> !self.queued(n)
    }

    /// The occupant, if any, is a registered train.
    pub open spec fn occupant_registered(self) -> bool {
        self.platform matches Some(n) ==> self.registered(n)
    }

    /// The invariant every reachable station state satisfies.
    pub open spec fn wf(self) -> bool {
        self.registry_distinct() && self.queue_ok() && self.occupant_registered()
    }

    /// The state of a freshly opened station: nothing registered, nothing
    /// queued, the platform free.
    pub open spec fn empty() -> StationView {
        StationView { registry: Seq::empty(), queue: Seq::empty(), platform: None }
    }
}

/// One arrival notification against the slot: a free platform is granted to
/// the arriving name; a held platform sends the name to the tail of the
/// queue.  Returns the next state and whether the slot was granted.
pub open spec fn arrival_transition(s: StationView, name: Seq<char>) -> (StationView, bool) {
    match s.platform {
        None => (StationView { platform: Some(name), ..s }, true),
        Some(_) => (StationView { queue: s.queue.push(name), ..s }, false),
    }
}

/// Admission of a train: an already-known name is a diagnosed no-op; a fresh
/// name is registered and immediately raises its arrival notification.
pub open spec fn admit_transition(s: StationView, t: TrainView) -> (StationView, Admission) {
    if s.registered(t.name) {
        (s, Admission::AlreadyArrived)
    } else {
        let s1 = StationView { registry: s.registry.push(t), ..s };
        let granted = arrival_transition(s1, t.name).1;
        (
            arrival_transition(s1, t.name).0,
            if granted {
                Admission::Granted
            } else {
                Admission::Blocked
            },
        )
    }
}

/// One departure notification against the slot, under the checked policy:
/// only the occupant's own departure frees the platform, and the freed
/// platform immediately promotes the head of the queue, if any.  A departure
/// notification by any other name changes nothing.
pub open spec fn departure_transition(s: StationView, name: Seq<char>) -> StationView {
    if s.platform == Some(name) {
        if s.queue.len() > 0 {
            StationView { platform: Some(s.queue[0]), queue: s.queue.drop_first(), ..s }
        } else {
            StationView { platform: None, ..s }
        }
    } else {
        s
    }
}

/// The queue with its first occurrence of `name`, if any, taken out.
pub open spec fn remove_name(q: Seq<Seq<char>>, name: Seq<char>) -> Seq<Seq<char>>
    decreases q.len(),
{
    if q.len() == 0 {
        q
    } else if q[0] == name {
        q.drop_first()
    } else {
        seq![q[0]] + remove_name(q.drop_first(), name)
    }
}

/// The registry with its first train of `name`, if any, taken out.
pub open spec fn remove_train(r: Seq<TrainView>, name: Seq<char>) -> Seq<TrainView>
    decreases r.len(),
{
    if r.len() == 0 {
        r
    } else if r[0].name == name {
        r.drop_first()
    } else {
        seq![r[0]] + remove_train(r.drop_first(), name)
    }
}

/// The first registry entry of `name`; meaningful only when one exists.
pub open spec fn lookup_train(r: Seq<TrainView>, name: Seq<char>) -> TrainView
    decreases r.len(),
{
    if r.len() == 0 {
        TrainView { name: name, kind: TrainKind::Passenger }
    } else if r[0].name == name {
        r[0]
    } else {
        lookup_train(r.drop_first(), name)
    }
}

/// Release of a train: an unknown name is a diagnosed no-op; a known train
/// leaves the registry (and the queue, should it still be waiting there),
/// and its departure notification is raised with the name captured before
/// the removal.
pub open spec fn release_transition(s: StationView, name: Seq<char>) -> StationView {
    if !s.registered(name) {
        s
    } else {
        let s1 = StationView {
            registry: remove_train(s.registry, name),
            queue: remove_name(s.queue, name),
            ..s
        };
        departure_transition(s1, name)
    }
}

/// Removing a name that does not occur leaves the queue unchanged.
pub proof fn lemma_remove_name_absent(q: Seq<Seq<char>>, name: Seq<char>)
    requires
        !q.contains(name),
    ensures
        remove_name(q, name) == q,
    decreases q.len(),
{
    if q.len() > 0 {
        assert(q[0] != name) by {
            if q[0] == name {
                assert(q.contains(name));
            }
        }
        assert(!q.drop_first().contains(name)) by {
            if q.drop_first().contains(name) {
                let i = choose|i: int| 0 <= i < q.drop_first().len() && q.drop_first()[i] == name;
                assert(q[i + 1] == name);
            }
        }
        lemma_remove_name_absent(q.drop_first(), name);
        assert(remove_name(q, name) =~= q);
    }
}

/// When `name` first occurs at position `i`, removing it is removing that
/// position.
pub proof fn lemma_remove_name_at(q: Seq<Seq<char>>, name: Seq<char>, i: int)
    requires
        0 <= i < q.len(),
        q[i] == name,
        forall|k: int| 0 <= k < i ==> q[k] != name,
    ensures
        remove_name(q, name) == q.remove(i),
    decreases i,
{
    if i == 0 {
        assert(remove_name(q, name) =~= q.remove(0));
    } else {
        lemma_remove_name_at(q.drop_first(), name, i - 1);
        assert(seq![q[0]] + q.drop_first().remove(i - 1) =~= q.remove(i));
    }
}

/// When the train of `name` first stands at position `i`, removing it is
/// removing that position.
pub proof fn lemma_remove_train_at(r: Seq<TrainView>, name: Seq<char>, i: int)
    requires
        0 <= i < r.len(),
        r[i].name == name,
        forall|k: int| 0 <= k < i ==> r[k].name != name,
    ensures
        remove_train(r, name) == r.remove(i),
    decreases i,
{
    if i == 0 {
        assert(remove_train(r, name) =~= r.remove(0));
    } else {
        lemma_remove_train_at(r.drop_first(), name, i - 1);
        assert(seq![r[0]] + r.drop_first().remove(i - 1) =~= r.remove(i));
    }
}

/// When the train of `name` first stands at position `i`, the lookup finds
/// exactly that entry.
pub proof fn lemma_lookup_train_at(r: Seq<TrainView>, name: Seq<char>, i: int)
    requires
        0 <= i < r.len(),
        r[i].name == name,
        forall|k: int| 0 <= k < i ==> r[k].name != name,
    ensures
        lookup_train(r, name) == r[i],
    decreases i,
{
    if i > 0 {
        lemma_lookup_train_at(r.drop_first(), name, i - 1);
    }
}

/// Admission preserves the station invariant.
pub proof fn lemma_admit_preserves_wf(s: StationView, t: TrainView)
    requires
        s.wf(),
    ensures
        admit_transition(s, t).0.wf(),
{
    broadcast use vstd::seq_lib::lemma_seq_contains_after_push;

    if !s.registered(t.name) {
        let s1 = StationView { registry: s.registry.push(t), ..s };
        assert(s1.names() =~= s.names().push(t.name));
        assert forall|k: int| 0 <= k < s.registry.len() implies s.registry[k].name != t.name by {
            if s.registry[k].name == t.name {
                assert(s.names()[k] == t.name);
                assert(s.registered(t.name));
            }
        }
        assert(s1.registry_distinct());
        assert forall|n: Seq<char>|
            #[trigger] s1.registered(n) <==> s.registered(n) || n == t.name by {
            assert(s1.names().contains(n) <==> s.names().push(t.name).contains(n));
        }
        let s2 = arrival_transition(s1, t.name).0;
        assert(s2.registry == s1.registry);
        assert forall|n: Seq<char>|
            #[trigger] s2.registered(n) <==> s.registered(n) || n == t.name by {
            assert(s2.names() == s1.names());
        }
        assert(!s.queued(t.name)) by {
            if s.queued(t.name) {
                let k = choose|k: int| 0 <= k < s.queue.len() && s.queue[k] == t.name;
                assert(s.registered(s.queue[k]));
            }
        }
        match s.platform {
            None => {
                assert(s2.queue == s.queue);
                assert forall|i: int|
                    0 <= i < s2.queue.len() implies s2.registered(#[trigger] s2.queue[i]) by {
                    assert(s.registered(s.queue[i]));
                }
                assert(s2.platform == Some(t.name));
                assert(!s2.queued(t.name)) by {
                    if s2.queued(t.name) {
                        let k = choose|k: int| 0 <= k < s2.queue.len() && s2.queue[k] == t.name;
                        assert(s.queue[k] == t.name);
                        assert(s.queued(t.name));
                    }
                }
                assert(s2.wf());
            },
            Some(p) => {
                assert(s2.queue == s.queue.push(t.name));
                assert(s.registered(p));
                assert forall|i: int|
                    0 <= i < s2.queue.len() implies s2.registered(#[trigger] s2.queue[i]) by {
                    if i < s.queue.len() {
                        assert(s2.queue[i] == s.queue[i]);
                        assert(s.registered(s.queue[i]));
                    } else {
                        assert(s2.queue[i] == t.name);
                    }
                }
                assert forall|i: int, j: int|
                    0 <= i < j < s2.queue.len() implies s2.queue[i] != s2.queue[j] by {
                    if j == s.queue.len() {
                        assert(s2.queue[i] == s.queue[i]);
                        assert(s.registered(s.queue[i]));
                        assert(s2.queue[j] == t.name);
                    }
                }
                assert(!s2.queued(p)) by {
                    if s2.queued(p) {
                        let k = choose|k: int| 0 <= k < s2.queue.len() && s2.queue[k] == p;
                        if k == s.queue.len() {
                            assert(p == t.name);
                        } else {
                            assert(s.queue[k] == p);
                            assert(s.queued(p));
                        }
                    }
                }
                assert(s2.wf());
            },
        }
    }
}

/// A departure notification preserves the registry and queue parts of the
/// invariant, and yields a fully well-formed state whenever the departing
/// name held the platform, or the previous occupant was registered.
pub proof fn lemma_departure_preserves_wf(s: StationView, name: Seq<char>)
    requires
        s.registry_distinct(),
        s.queue_ok(),
    ensures
        departure_transition(s, name).registry_distinct(),
        departure_transition(s, name).queue_ok(),
        s.platform == Some(name) ==> departure_transition(s, name).wf(),
        s.occupant_registered() ==> departure_transition(s, name).wf(),
{
    if s.platform == Some(name) && s.queue.len() > 0 {
        let s2 = departure_transition(s, name);
        assert(s2.queue =~= s.queue.drop_first());
        assert forall|i: int|
            0 <= i < s2.queue.len() implies s2.registered(#[trigger] s2.queue[i]) by {
            assert(s.registered(s.queue[i + 1]));
        }
        assert forall|i: int, j: int|
            0 <= i < j < s2.queue.len() implies s2.queue[i] != s2.queue[j] by {
            assert(s.queue[i + 1] != s.queue[j + 1]);
        }
        assert(s2.registered(s.queue[0])) by {
            assert(s.registered(s.queue[0]));
        }
        assert(!s2.queued(s.queue[0])) by {
            if s2.queued(s.queue[0]) {
                let k = choose|k: int| 0 <= k < s2.queue.len() && s2.queue[k] == s.queue[0];
                assert(s.queue[k + 1] == s.queue[0]);
            }
        }
    }
}

/// Registering a fresh name keeps the invariant and leaves the new name
/// neither queued nor on the platform.
pub proof fn lemma_register_fresh(s: StationView, t: TrainView)
    requires
        s.wf(),
        !s.registered(t.name),
    ensures
        ({
            let s1 = StationView { registry: s.registry.push(t), ..s };
            s1.wf() && s1.registered(t.name) && !s1.queued(t.name) && s1.platform != Some(t.name)
        }),
{
    broadcast use vstd::seq_lib::lemma_seq_contains_after_push;

    let s1 = StationView { registry: s.registry.push(t), ..s };
    assert(s1.names() =~= s.names().push(t.name));
    assert forall|k: int| 0 <= k < s.registry.len() implies s.registry[k].name != t.name by {
        if s.registry[k].name == t.name {
            assert(s.names()[k] == t.name);
            assert(s.registered(t.name));
        }
    }
    assert(s1.registry_distinct());
    assert forall|n: Seq<char>|
        #[trigger] s1.registered(n) <==> s.registered(n) || n == t.name by {
        assert(s1.names().contains(n) <==> s.names().push(t.name).contains(n));
    }
    assert forall|i: int| 0 <= i < s1.queue.len() implies s1.registered(#[trigger] s1.queue[i]) by {
        assert(s.registered(s.queue[i]));
    }
    assert(!s1.queued(t.name)) by {
        if s1.queued(t.name) {
            let k = choose|k: int| 0 <= k < s.queue.len() && s.queue[k] == t.name;
            assert(s.registered(s.queue[k]));
        }
    }
    match s.platform {
        Some(p) => {
            assert(s.registered(p));
        },
        None => {},
    }
}

/// An arrival notification by a registered name that is neither queued nor
/// already the occupant preserves the invariant.
pub proof fn lemma_arrival_preserves_wf(s: StationView, name: Seq<char>)
    requires
        s.wf(),
        s.registered(name),
        !s.queued(name),
        s.platform != Some(name),
    ensures
        arrival_transition(s, name).0.wf(),
{
    let s2 = arrival_transition(s, name).0;
    assert(s2.names() == s.names());
    match s.platform {
        None => {
            assert forall|i: int|
                0 <= i < s2.queue.len() implies s2.registered(#[trigger] s2.queue[i]) by {
                assert(s.registered(s.queue[i]));
            }
            assert(s2.wf());
        },
        Some(p) => {
            assert(s2.queue == s.queue.push(name));
            assert forall|i: int|
                0 <= i < s2.queue.len() implies s2.registered(#[trigger] s2.queue[i]) by {
                if i < s.queue.len() {
                    assert(s2.queue[i] == s.queue[i]);
                    assert(s.registered(s.queue[i]));
                } else {
                    assert(s2.queue[i] == name);
                }
            }
            assert forall|i: int, j: int|
                0 <= i < j < s2.queue.len() implies s2.queue[i] != s2.queue[j] by {
                if j == s.queue.len() {
                    assert(s2.queue[i] == s.queue[i]);
                    assert(s2.queue[j] == name);
                    if s.queue[i] == name {
                        assert(s.queued(name));
                    }
                }
            }
            assert(!s2.queued(p)) by {
                if s2.queued(p) {
                    let k = choose|k: int| 0 <= k < s2.queue.len() && s2.queue[k] == p;
                    if k == s.queue.len() {
                        assert(p == name);
                    } else {
                        assert(s.queue[k] == p);
                        assert(s.queued(p));
                    }
                }
            }
            assert(s2.wf());
        },
    }
}

/// After a registered name leaves both the registry and the queue, the
/// registry and queue parts of the invariant still hold, and the occupant is
/// still registered unless it was the removed name itself.
pub proof fn lemma_removed_state_ok(s: StationView, name: Seq<char>)
    requires
        s.wf(),
        s.registered(name),
    ensures
        ({
            let s1 = StationView {
                registry: remove_train(s.registry, name),
                queue: remove_name(s.queue, name),
                ..s
            };
            s1.registry_distinct() && s1.queue_ok() && (s.platform != Some(name)
                ==> s1.occupant_registered())
        }),
{
    {
        let i = choose|i: int| 0 <= i < s.names().len() && s.names()[i] == name;
        assert(s.registry[i].name == name);
        assert forall|k: int| 0 <= k < i implies s.registry[k].name != name by {
            assert(s.registry[k].name != s.registry[i].name);
        }
        lemma_remove_train_at(s.registry, name, i);
        s.registry.remove_ensures(i);
        let reg1 = s.registry.remove(i);
        let q1 = remove_name(s.queue, name);
        if s.queued(name) {
            let j = choose|j: int| 0 <= j < s.queue.len() && s.queue[j] == name;
            assert forall|k: int| 0 <= k < j implies s.queue[k] != name by {
                assert(s.queue[k] != s.queue[j]);
            }
            lemma_remove_name_at(s.queue, name, j);
            s.queue.remove_ensures(j);
            assert forall|k: int|
                0 <= k < q1.len() implies (exists|l: int|
                    0 <= l < s.queue.len() && l != j && s.queue[l] == #[trigger] q1[k]) by {
                if k < j {
                    assert(s.queue[k] == q1[k]);
                } else {
                    assert(s.queue[k + 1] == q1[k]);
                }
            }
        } else {
            lemma_remove_name_absent(s.queue, name);
            assert forall|k: int|
                0 <= k < q1.len() implies (exists|l: int|
                    0 <= l < s.queue.len() && s.queue[l] == #[trigger] q1[k] && s.queue[l]
                        != name) by {
                assert(s.queue[k] == q1[k]);
                if s.queue[k] == name {
                    assert(s.queued(name));
                }
            }
        }
        let s1 = StationView { registry: reg1, queue: q1, ..s };
        assert(s1.registry_distinct()) by {
            assert forall|a: int, b: int|
                0 <= a < b < reg1.len() implies reg1[a].name != reg1[b].name by {
                let a0: int = if a < i {
                    a
                } else {
                    a + 1
                };
                let b0: int = if b < i {
                    b
                } else {
                    b + 1
                };
                assert(reg1[a] == s.registry[a0]);
                assert(reg1[b] == s.registry[b0]);
            }
        }
        assert forall|n: Seq<char>| s.registered(n) && n != name implies #[trigger] s1.registered(
            n,
        ) by {
            let l = choose|l: int| 0 <= l < s.names().len() && s.names()[l] == n;
            assert(s.registry[l].name == n);
            if l < i {
                assert(reg1[l] == s.registry[l]);
                assert(s1.names()[l] == n);
            } else {
                assert(l > i) by {
                    if l == i {
                        assert(n == name);
                    }
                }
                assert(reg1[l - 1] == s.registry[l]);
                assert(s1.names()[l - 1] == n);
            }
        }
        assert forall|k: int| 0 <= k < q1.len() implies s1.registered(#[trigger] q1[k]) by {
            let l = choose|l: int|
                0 <= l < s.queue.len() && s.queue[l] == q1[k] && (s.queued(name) ==> l
                    != (choose|j: int| 0 <= j < s.queue.len() && s.queue[j] == name));
            assert(s.registered(s.queue[l]));
            assert(q1[k] != name) by {
                if s.queued(name) {
                    let j = choose|j: int| 0 <= j < s.queue.len() && s.queue[j] == name;
                    if q1[k] == name {
                        assert(s.queue[l] == s.queue[j]);
                    }
                }
            }
        }
        assert(s1.queue_ok()) by {
            assert forall|a: int, b: int| 0 <= a < b < q1.len() implies q1[a] != q1[b] by {
                if s.queued(name) {
                    let j = choose|j: int| 0 <= j < s.queue.len() && s.queue[j] == name;
                    let a0: int = if a < j {
                        a
                    } else {
                        a + 1
                    };
                    let b0: int = if b < j {
                        b
                    } else {
                        b + 1
                    };
                    assert(q1[a] == s.queue[a0]);
                    assert(q1[b] == s.queue[b0]);
                }
            }
            match s.platform {
                Some(p) => {
                    if s1.queued(p) {
                        let k = choose|k: int| 0 <= k < q1.len() && q1[k] == p;
                        assert(exists|l: int| 0 <= l < s.queue.len() && s.queue[l] == q1[k]);
                        let l = choose|l: int| 0 <= l < s.queue.len() && s.queue[l] == q1[k];
                        assert(s.queued(p));
                    }
                },
                None => {},
            }
        }
        if s.platform != Some(name) {
            assert(s1.occupant_registered()) by {
                match s1.platform {
                    Some(p) => {
                        assert(s.registered(p));
                        assert(p != name);
                    },
                    None => {},
                }
            }
        }
    }
}

/// Release preserves the station invariant.
pub proof fn lemma_release_preserves_wf(s: StationView, name: Seq<char>)
    requires
        s.wf(),
    ensures
        release_transition(s, name).wf(),
{
    if s.registered(name) {
        lemma_removed_state_ok(s, name);
        let s1 = StationView {
            registry: remove_train(s.registry, name),
            queue: remove_name(s.queue, name),
            ..s
        };
        lemma_departure_preserves_wf(s1, name);
    }
}

/// Mutual exclusion: the platform names at most one occupant, so two trains
/// observed as occupant at the same point are one and the same.
pub proof fn lemma_mutual_exclusion(s: StationView, a: Seq<char>, b: Seq<char>)
    requires
        s.occupant_is(a),
        s.occupant_is(b),
    ensures
        a == b,
{
}

/// Release of a name never admitted leaves every part of the state — the
/// registry, the queue and the occupant — unchanged.
pub proof fn lemma_unknown_release_noop(s: StationView, name: Seq<char>)
    requires
        !s.registered(name),
    ensures
        release_transition(s, name) == s,
{
}

/// Admitting the same name twice leaves the registry, the queue and the
/// occupant exactly as after the single admission, and the second attempt is
/// answered with the duplicate diagnostic.
pub proof fn lemma_duplicate_admission(s: StationView, t1: TrainView, t2: TrainView)
    requires
        t1.name == t2.name,
    ensures
        admit_transition(admit_transition(s, t1).0, t2).0 == admit_transition(s, t1).0,
        admit_transition(admit_transition(s, t1).0, t2).1 == Admission::AlreadyArrived,
{
    let s1 = admit_transition(s, t1).0;
    if !s.registered(t1.name) {
        assert(s1.registry == s.registry.push(t1));
        assert(s1.names()[s.registry.len() as int] == t1.name);
        assert(s1.registered(t2.name));
    }
}

/// The release in which the current occupant departs; without an occupant it
/// changes nothing.
pub open spec fn release_occupant(s: StationView) -> StationView {
    match s.platform {
        Some(n) => release_transition(s, n),
        None => s,
    }
}

/// `k` successive occupant releases.
pub open spec fn release_occupant_n(s: StationView, k: nat) -> StationView
    decreases k,
{
    if k == 0 {
        s
    } else {
        release_occupant(release_occupant_n(s, (k - 1) as nat))
    }
}

/// One occupant release frees the platform and promotes exactly the head of
/// the queue, leaving the rest of the queue in order.
pub proof fn lemma_release_occupant_step(s: StationView)
    requires
        s.wf(),
        s.platform is Some,
    ensures
        release_occupant(s).wf(),
        s.queue.len() > 0 ==> release_occupant(s).platform == Some(s.queue[0])
            && release_occupant(s).queue == s.queue.drop_first(),
        s.queue.len() == 0 ==> release_occupant(s).platform is None && release_occupant(s).queue
            == s.queue,
{
    match s.platform {
        Some(n) => {
            assert(!s.queued(n));
            lemma_remove_name_absent(s.queue, n);
            lemma_release_preserves_wf(s, n);
        },
        None => {},
    }
}

/// FIFO fairness: a train blocked earlier is promoted earlier.  When the
/// occupant and its successors each release in turn, the `k`-th queued train
/// holds the platform after exactly `k + 1` such releases, with the trains
/// queued behind it still waiting, in order.
pub proof fn lemma_fifo_fairness(s: StationView, k: int)
    requires
        s.wf(),
        s.platform is Some,
        0 <= k < s.queue.len(),
    ensures
        release_occupant_n(s, (k + 1) as nat).wf(),
        release_occupant_n(s, (k + 1) as nat).platform == Some(s.queue[k]),
        release_occupant_n(s, (k + 1) as nat).queue == s.queue.skip(k + 1),
    decreases k,
{
    if k == 0 {
        assert(release_occupant_n(s, 0) == s);
        lemma_release_occupant_step(s);
        assert(s.queue.drop_first() =~= s.queue.skip(1));
    } else {
        lemma_fifo_fairness(s, k - 1);
        let sk = release_occupant_n(s, k as nat);
        assert(sk.queue == s.queue.skip(k));
        assert(sk.queue.len() == s.queue.len() - k);
        assert(sk.queue[0] == s.queue[k]);
        lemma_release_occupant_step(sk);
        assert(release_occupant_n(s, (k + 1) as nat) == release_occupant(sk));
        assert(sk.queue.drop_first() =~= s.queue.skip(k + 1));
    }
}

} // verus!
