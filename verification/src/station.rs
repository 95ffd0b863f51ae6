//! The station arbiter: executable trains and the mediator that grants the
//! single platform slot among them.
//!
//! Every operation's contract equates the station's view with the matching
//! transition function of [`crate::model`], so the laws proved there —
//! mutual exclusion, FIFO fairness, and the no-op character of duplicate
//! admissions and unknown releases — hold of every run of this code.
//!
//! Departures follow the checked policy: only the occupant's own departure
//! frees the platform; a departure notification by any other name changes
//! nothing.  A released train that was still waiting also leaves the queue,
//! so the registry, queue and platform never disagree.

use vstd::prelude::*;

use crate::model::{
    admit_transition, arrival_transition, departure_transition, lemma_arrival_preserves_wf,
    lemma_departure_preserves_wf, lemma_lookup_train_at, lemma_register_fresh,
    lemma_remove_name_absent, lemma_remove_name_at, lemma_remove_train_at,
    lemma_removed_state_ok, lookup_train, release_transition, remove_name, remove_train,
    Admission, StationView, TrainKind, TrainView,
};

verus! {

/// The registry entries of a sequence of trains.
pub open spec fn trains_view(ts: Seq<Train>) -> Seq<TrainView> {
    ts.map_values(|t: Train| t@)
}

/// The name sequence of a queue of owned strings.
pub open spec fn queue_view(q: Seq<String>) -> Seq<Seq<char>> {
    q.map_values(|s: String| s@)
}

/// A freight train, known to the station by its name.
#[derive(Debug)]
pub struct FreightTrain {
    pub name: String,
}

impl FreightTrain {
    pub fn new(name: String) -> (t: FreightTrain)
        ensures
            t.name == name,
    {
        FreightTrain { name }
    }

    pub fn name(&self) -> (n: &String)
        ensures
            n == &self.name,
    {
        &self.name
    }
}

/// A passenger train, known to the station by its name.
#[derive(Debug)]
pub struct PassengerTrain {
    pub name: String,
}

impl PassengerTrain {
    pub fn new(name: String) -> (t: PassengerTrain)
        ensures
            t.name == name,
    {
        PassengerTrain { name }
    }

    pub fn name(&self) -> (n: &String)
        ensures
            n == &self.name,
    {
        &self.name
    }
}

/// A train of either kind.  The kind selects display behaviour only; the
/// station arbitrates by name alone.
#[derive(Debug)]
pub enum Train {
    Freight(FreightTrain),
    Passenger(PassengerTrain),
}

impl View for Train {
    type V = TrainView;

    open spec fn view(&self) -> TrainView {
        match self {
            Train::Freight(t) => TrainView { name: t.name@, kind: TrainKind::Freight },
            Train::Passenger(t) => TrainView { name: t.name@, kind: TrainKind::Passenger },
        }
    }
}

impl Train {
    pub fn name(&self) -> (n: &String)
        ensures
            n@ == self@.name,
    {
        match self {
            Train::Freight(t) => &t.name,
            Train::Passenger(t) => &t.name,
        }
    }

    pub fn kind(&self) -> (k: TrainKind)
        ensures
            k == self@.kind,
    {
        match self {
            Train::Freight(_) => TrainKind::Freight,
            Train::Passenger(_) => TrainKind::Passenger,
        }
    }
}

/// The answer to a release request.
#[derive(Debug)]
pub enum Departure {
    /// No train of that name is on the station: a diagnosed no-op.
    NotOnStation,
    /// The named train left; its registry record is handed back.
    Departed(Train),
}

/// The mediator: owns the registry of admitted trains, the FIFO wait queue,
/// and the single platform slot.
pub struct TrainStation {
    trains: Vec<Train>,
    train_queue: Vec<String>,
    train_on_platform: Option<String>,
}

impl View for TrainStation {
    type V = StationView;

    closed spec fn view(&self) -> StationView {
        StationView {
            registry: trains_view(self.trains@),
            queue: queue_view(self.train_queue@),
            platform: match self.train_on_platform {
                Some(s) => Some(s@),
                None => None,
            },
        }
    }
}

impl TrainStation {
    /// A station with a free platform and no trains known.
    pub fn new() -> (s: TrainStation)
        ensures
            s@ == StationView::empty(),
            s@.wf(),
    {
        let s = TrainStation {
            trains: Vec::new(),
            train_queue: Vec::new(),
            train_on_platform: None,
        };
        proof {
            assert(s@.registry =~= Seq::<TrainView>::empty());
            assert(s@.queue =~= Seq::<Seq<char>>::empty());
            assert(s@ =~= StationView::empty());
        }
        s
    }

    /// The position of the named train in the registry, scanning from the
    /// front.
    fn find_train(&self, name: &String) -> (r: Option<usize>)
        ensures
            match r {
                Some(i) => i < self.trains@.len() && self.trains@[i as int]@.name == name@
                    && forall|k: int| 0 <= k < i ==> self.trains@[k]@.name != name@,
                None => !self@.registered(name@),
            },
    {
        let mut i: usize = 0;
        while i < self.trains.len()
            invariant
                i <= self.trains@.len(),
                forall|k: int| 0 <= k < i ==> self.trains@[k]@.name != name@,
            decreases self.trains@.len() - i,
        {
            if *self.trains[i].name() == *name {
                return Some(i);
            }
            i += 1;
        }
        proof {
            if self@.registered(name@) {
                let k = choose|k: int|
                    0 <= k < self@.names().len() && self@.names()[k] == name@;
                assert(self@.names()[k] == self@.registry[k].name);
                assert(self@.registry[k] == self.trains@[k]@);
            }
        }
        None
    }

    /// The position of the named train in the wait queue, scanning from the
    /// front.
    fn find_queued(&self, name: &String) -> (r: Option<usize>)
        ensures
            match r {
                Some(j) => j < self.train_queue@.len() && self.train_queue@[j as int]@ == name@
                    && forall|k: int| 0 <= k < j ==> self.train_queue@[k]@ != name@,
                None => !self@.queued(name@),
            },
    {
        let mut j: usize = 0;
        while j < self.train_queue.len()
            invariant
                j <= self.train_queue@.len(),
                forall|k: int| 0 <= k < j ==> self.train_queue@[k]@ != name@,
            decreases self.train_queue@.len() - j,
        {
            if *&self.train_queue[j] == *name {
                return Some(j);
            }
            j += 1;
        }
        proof {
            if self@.queued(name@) {
                let k = choose|k: int| 0 <= k < self@.queue.len() && self@.queue[k] == name@;
                assert(self@.queue[k] == self.train_queue@[k]@);
            }
        }
        None
    }

    /// Whether a train of this name is currently registered at the station.
    pub fn contains_name(&self, name: &str) -> (r: bool)
        ensures
            r == self@.registered(name@),
    {
        let owned: String = name.to_owned();
        match self.find_train(&owned) {
            Some(i) => {
                proof {
                    assert(self@.registry[i as int] == self.trains@[i as int]@);
                    assert(self@.names()[i as int] == name@);
                }
                true
            },
            None => false,
        }
    }

    /// The name now holding the platform, if any.
    pub fn occupant(&self) -> (r: Option<&String>)
        ensures
            match r {
                Some(n) => self@.platform == Some(n@),
                None => self@.platform is None,
            },
    {
        self.train_on_platform.as_ref()
    }

    /// How many trains wait for the platform.
    pub fn queue_len(&self) -> (n: usize)
        ensures
            n == self@.queue.len(),
    {
        self.train_queue.len()
    }

    /// The name at position `i` of the wait queue.
    pub fn queued_name(&self, i: usize) -> (n: &String)
        requires
            i < self@.queue.len(),
        ensures
            n@ == self@.queue[i as int],
    {
        &self.train_queue[i]
    }

    /// The kind of the registered train of this name, if any.
    pub fn registered_kind(&self, name: &str) -> (r: Option<TrainKind>)
        ensures
            match r {
                Some(k) => self@.registered(name@) && k == lookup_train(
                    self@.registry,
                    name@,
                ).kind,
                None => !self@.registered(name@),
            },
    {
        let owned: String = name.to_owned();
        match self.find_train(&owned) {
            Some(i) => {
                proof {
                    assert(self@.registry[i as int] == self.trains@[i as int]@);
                    assert(self@.names()[i as int] == name@);
                    assert forall|k: int| 0 <= k < i implies self@.registry[k].name != name@ by {
                        assert(self@.registry[k] == self.trains@[k]@);
                    }
                    lemma_lookup_train_at(self@.registry, name@, i as int);
                }
                Some(self.trains[i].kind())
            },
            None => None,
        }
    }

    /// How many trains are registered.
    pub fn registered_count(&self) -> (n: usize)
        ensures
            n == self@.registry.len(),
    {
        self.trains.len()
    }

    /// The arrival notification: a free platform is granted to the named
    /// train; a held platform appends the name to the tail of the queue.
    /// Admission raises this exactly once per train, so the name is
    /// registered but neither queued nor already the occupant.
    pub fn notify_about_arrival(&mut self, train_name: &str) -> (granted: bool)
        requires
            old(self)@.wf(),
            old(self)@.registered(train_name@),
            !old(self)@.queued(train_name@),
            old(self)@.platform != Some(train_name@),
        ensures
            final(self)@ == arrival_transition(old(self)@, train_name@).0,
            granted == arrival_transition(old(self)@, train_name@).1,
            final(self)@.wf(),
    {
        proof {
            lemma_arrival_preserves_wf(old(self)@, train_name@);
        }
        if self.train_on_platform.is_some() {
            self.train_queue.push(train_name.to_owned());
            proof {
                assert(self@.queue =~= old(self)@.queue.push(train_name@));
                assert(self@ =~= arrival_transition(old(self)@, train_name@).0);
            }
            false
        } else {
            self.train_on_platform = Some(train_name.to_owned());
            proof {
                assert(self@ =~= arrival_transition(old(self)@, train_name@).0);
            }
            true
        }
    }

    /// The departure notification, under the checked policy: only the
    /// occupant's own name frees the platform, and the freed platform
    /// immediately promotes the head of the queue, if any.
    pub fn notify_about_departure(&mut self, train_name: &str)
        requires
            old(self)@.registry_distinct(),
            old(self)@.queue_ok(),
        ensures
            final(self)@ == departure_transition(old(self)@, train_name@),
            old(self)@.platform == Some(train_name@) ==> final(self)@.wf(),
            old(self)@.wf() ==> final(self)@.wf(),
    {
        proof {
            lemma_departure_preserves_wf(old(self)@, train_name@);
        }
        let name_owned: String = train_name.to_owned();
        let is_occupant = match &self.train_on_platform {
            Some(p) => *p == name_owned,
            None => false,
        };
        if is_occupant {
            self.train_on_platform = None;
            if self.train_queue.len() > 0 {
                let next_name = self.train_queue.remove(0);
                self.train_on_platform = Some(next_name);
                proof {
                    assert(self@.queue =~= old(self)@.queue.drop_first());
                    assert(self@ =~= departure_transition(old(self)@, train_name@));
                }
            } else {
                proof {
                    assert(self@ =~= departure_transition(old(self)@, train_name@));
                }
            }
        } else {
            proof {
                assert(self@ =~= departure_transition(old(self)@, train_name@));
            }
        }
    }

    /// Admission: a train of an unknown name is registered and its arrival
    /// is raised at once; an already-known name is reported and nothing
    /// changes.
    pub fn accept(&mut self, train: Train) -> (outcome: Admission)
        requires
            old(self)@.wf(),
        ensures
            final(self)@ == admit_transition(old(self)@, train@).0,
            outcome == admit_transition(old(self)@, train@).1,
            final(self)@.wf(),
    {
        if self.contains_name(train.name().as_str()) {
            return Admission::AlreadyArrived;
        }
        proof {
            lemma_register_fresh(old(self)@, train@);
        }
        let name: String = train.name().clone();
        self.trains.push(train);
        proof {
            assert(self@.registry =~= old(self)@.registry.push(train@));
            assert(self@ =~= StationView { registry: old(self)@.registry.push(train@), ..old(self)@ });
        }
        let granted = self.notify_about_arrival(name.as_str());
        if granted {
            Admission::Granted
        } else {
            Admission::Blocked
        }
    }

    /// Release: an unknown name is reported and changes nothing; a known
    /// train leaves the registry (and the wait queue, should it still be
    /// waiting there), and its departure notification is raised with the
    /// name captured before the removal.
    pub fn depart(&mut self, name: &str) -> (outcome: Departure)
        requires
            old(self)@.wf(),
        ensures
            final(self)@ == release_transition(old(self)@, name@),
            final(self)@.wf(),
            !old(self)@.registered(name@) ==> (*final(self) == *old(self) && outcome
                matches Departure::NotOnStation),
            old(self)@.registered(name@) ==> (outcome matches Departure::Departed(t) && t@
                == lookup_train(old(self)@.registry, name@)),
    {
        let owned: String = name.to_owned();
        match self.find_train(&owned) {
            None => {
                Departure::NotOnStation
            },
            Some(i) => {
                proof {
                    assert(self@.registry[i as int] == self.trains@[i as int]@);
                    assert(self@.names()[i as int] == name@);
                    assert forall|k: int| 0 <= k < i implies self@.registry[k].name != name@ by {
                        assert(self@.registry[k] == self.trains@[k]@);
                    }
                    lemma_remove_train_at(old(self)@.registry, name@, i as int);
                    lemma_lookup_train_at(old(self)@.registry, name@, i as int);
                    lemma_removed_state_ok(old(self)@, name@);
                }
                let train = self.trains.remove(i);
                proof {
                    assert(self@.registry =~= old(self)@.registry.remove(i as int));
                }
                match self.find_queued(&owned) {
                    Some(j) => {
                        proof {
                            assert forall|k: int|
                                0 <= k < j implies old(self)@.queue[k] != name@ by {
                                assert(old(self)@.queue[k] == self.train_queue@[k]@);
                            }
                            assert(old(self)@.queue[j as int] == name@);
                            lemma_remove_name_at(old(self)@.queue, name@, j as int);
                        }
                        let _waiting = self.train_queue.remove(j);
                        proof {
                            assert(self@.queue =~= old(self)@.queue.remove(j as int));
                        }
                    },
                    None => {
                        proof {
                            assert(!old(self)@.queued(name@));
                            lemma_remove_name_absent(old(self)@.queue, name@);
                        }
                    },
                }
                proof {
                    assert(self@ =~= StationView {
                        registry: remove_train(old(self)@.registry, name@),
                        queue: remove_name(old(self)@.queue, name@),
                        ..old(self)@
                    });
                }
                self.notify_about_departure(name);
                proof {
                    assert(final(self)@ == release_transition(old(self)@, name@));
                }
                Departure::Departed(train)
            },
        }
    }
}

impl Default for TrainStation {
    /// The same fresh station as [`TrainStation::new`].
    fn default() -> (s: TrainStation)
        ensures
            s@ == StationView::empty(),
            s@.wf(),
    {
        TrainStation::new()
    }
}

impl Train {
    /// The client side of arrival: announce this train to the station and
    /// learn whether the platform was granted at once, or the train now
    /// waits.  Raised once per train, at its admission.
    pub fn arrive(&self, station: &mut TrainStation) -> (granted: bool)
        requires
            old(station)@.wf(),
            old(station)@.registered(self@.name),
            !old(station)@.queued(self@.name),
            old(station)@.platform != Some(self@.name),
        ensures
            final(station)@ == arrival_transition(old(station)@, self@.name).0,
            granted == arrival_transition(old(station)@, self@.name).1,
            final(station)@.wf(),
    {
        station.notify_about_arrival(self.name().as_str())
    }

    /// The client side of departure: notify the station unconditionally;
    /// the station frees the platform only when this train is the occupant.
    pub fn depart(&self, station: &mut TrainStation)
        requires
            old(station)@.wf(),
        ensures
            final(station)@ == departure_transition(old(station)@, self@.name),
            final(station)@.wf(),
    {
        station.notify_about_departure(self.name().as_str())
    }
}

} // verus!
