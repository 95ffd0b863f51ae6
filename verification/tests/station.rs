use patterns::model::Admission;
use patterns::model::TrainKind;
use patterns::station::Departure;
use patterns::station::FreightTrain;
use patterns::station::PassengerTrain;
use patterns::station::Train;
use patterns::station::TrainStation;

fn occupant_of(station: &TrainStation) -> Option<&str> {
    station.occupant().map(|s| s.as_str())
}

#[test]
fn scenario_single_then_blocked_then_release() {
    let mut station = TrainStation::new();
    let a = Train::Passenger(PassengerTrain::new("A".to_string()));
    assert_eq!(station.accept(a), Admission::Granted);
    assert_eq!(occupant_of(&station), Some("A"));
    assert_eq!(station.queue_len(), 0);

    let b = Train::Freight(FreightTrain::new("B".to_string()));
    assert_eq!(station.accept(b), Admission::Blocked);
    assert_eq!(occupant_of(&station), Some("A"));
    assert_eq!(station.queue_len(), 1);
    assert_eq!(station.queued_name(0).as_str(), "B");

    let outcome = station.depart("A");
    assert!(matches!(outcome, Departure::Departed(_)));
    assert_eq!(occupant_of(&station), Some("B"));
    assert_eq!(station.queue_len(), 0);
}

#[test]
fn scenario_duplicate_admission_is_noop() {
    let mut station = TrainStation::new();
    let a1 = Train::Passenger(PassengerTrain::new("A".to_string()));
    assert_eq!(station.accept(a1), Admission::Granted);

    let a2 = Train::Passenger(PassengerTrain::new("A".to_string()));
    assert_eq!(station.accept(a2), Admission::AlreadyArrived);

    assert_eq!(station.registered_count(), 1);
    assert_eq!(station.queue_len(), 0);
    assert_eq!(occupant_of(&station), Some("A"));
}

#[test]
fn scenario_three_trains_fifo() {
    let mut station = TrainStation::new();
    let a = Train::Passenger(PassengerTrain::new("A".to_string()));
    let b = Train::Freight(FreightTrain::new("B".to_string()));
    let c = Train::Passenger(PassengerTrain::new("C".to_string()));
    assert_eq!(station.accept(a), Admission::Granted);
    assert_eq!(station.accept(b), Admission::Blocked);
    assert_eq!(station.accept(c), Admission::Blocked);
    assert_eq!(occupant_of(&station), Some("A"));
    assert_eq!(station.queue_len(), 2);
    assert_eq!(station.queued_name(0).as_str(), "B");
    assert_eq!(station.queued_name(1).as_str(), "C");

    station.depart("A");
    assert_eq!(occupant_of(&station), Some("B"));
    assert_eq!(station.queue_len(), 1);
    assert_eq!(station.queued_name(0).as_str(), "C");

    station.depart("B");
    assert_eq!(occupant_of(&station), Some("C"));
    assert_eq!(station.queue_len(), 0);

    station.depart("C");
    assert_eq!(occupant_of(&station), None);
    assert_eq!(station.queue_len(), 0);
    assert_eq!(station.registered_count(), 0);
}

#[test]
fn scenario_unknown_release_is_noop() {
    let mut station = TrainStation::new();
    let outcome = station.depart("Z");
    assert!(matches!(outcome, Departure::NotOnStation));
    assert_eq!(occupant_of(&station), None);
    assert_eq!(station.queue_len(), 0);
    assert_eq!(station.registered_count(), 0);
}

#[test]
fn unknown_release_with_occupied_station() {
    let mut station = TrainStation::new();
    let a = Train::Freight(FreightTrain::new("A".to_string()));
    let b = Train::Freight(FreightTrain::new("B".to_string()));
    station.accept(a);
    station.accept(b);
    let outcome = station.depart("Z");
    assert!(matches!(outcome, Departure::NotOnStation));
    assert_eq!(occupant_of(&station), Some("A"));
    assert_eq!(station.queue_len(), 1);
    assert_eq!(station.registered_count(), 2);
}

#[test]
fn release_of_waiting_train_withdraws_it() {
    let mut station = TrainStation::new();
    let a = Train::Passenger(PassengerTrain::new("A".to_string()));
    let b = Train::Passenger(PassengerTrain::new("B".to_string()));
    let c = Train::Passenger(PassengerTrain::new("C".to_string()));
    station.accept(a);
    station.accept(b);
    station.accept(c);

    let outcome = station.depart("B");
    assert!(matches!(outcome, Departure::Departed(_)));
    assert_eq!(occupant_of(&station), Some("A"));
    assert_eq!(station.queue_len(), 1);
    assert_eq!(station.queued_name(0).as_str(), "C");
    assert!(!station.contains_name("B"));

    station.depart("A");
    assert_eq!(occupant_of(&station), Some("C"));
    assert_eq!(station.queue_len(), 0);
}

#[test]
fn departed_record_keeps_name_and_kind() {
    let mut station = TrainStation::new();
    let a = Train::Freight(FreightTrain::new("cargo".to_string()));
    station.accept(a);
    match station.depart("cargo") {
        Departure::Departed(train) => {
            assert_eq!(train.name().as_str(), "cargo");
            assert_eq!(train.kind(), TrainKind::Freight);
        },
        Departure::NotOnStation => panic!("the train was on the station"),
    }
}

#[test]
fn contains_name_tracks_registry() {
    let mut station = TrainStation::new();
    assert!(!station.contains_name("A"));
    let a = Train::Passenger(PassengerTrain::new("A".to_string()));
    station.accept(a);
    assert!(station.contains_name("A"));
    assert!(!station.contains_name("B"));
    station.depart("A");
    assert!(!station.contains_name("A"));
}

#[test]
fn client_protocol_arrive_and_depart() {
    let mut station = TrainStation::new();
    let a = Train::Passenger(PassengerTrain::new("A".to_string()));
    let b = Train::Freight(FreightTrain::new("B".to_string()));
    assert_eq!(station.accept(a), Admission::Granted);
    assert_eq!(station.accept(b), Admission::Blocked);

    // A departure announced by a train that does not hold the platform
    // changes nothing.
    let waiting = Train::Freight(FreightTrain::new("B".to_string()));
    waiting.depart(&mut station);
    assert_eq!(occupant_of(&station), Some("A"));
    assert_eq!(station.queue_len(), 1);

    // The occupant's own departure frees the platform and promotes the head.
    let holder = Train::Passenger(PassengerTrain::new("A".to_string()));
    holder.depart(&mut station);
    assert_eq!(occupant_of(&station), Some("B"));
    assert_eq!(station.queue_len(), 0);
}

#[test]
fn default_station_is_empty() {
    let station = TrainStation::default();
    assert_eq!(occupant_of(&station), None);
    assert_eq!(station.queue_len(), 0);
    assert_eq!(station.registered_count(), 0);
}

#[test]
fn registered_kind_follows_the_registry() {
    let mut station = TrainStation::new();
    assert_eq!(station.registered_kind("A"), None);
    station.accept(Train::Freight(FreightTrain::new("A".to_string())));
    station.accept(Train::Passenger(PassengerTrain::new("B".to_string())));
    assert_eq!(station.registered_kind("A"), Some(TrainKind::Freight));
    assert_eq!(station.registered_kind("B"), Some(TrainKind::Passenger));
    station.depart("A");
    assert_eq!(station.registered_kind("A"), None);
}

#[test]
fn train_names_and_kinds() {
    let f = FreightTrain::new("f1".to_string());
    assert_eq!(f.name().as_str(), "f1");
    let p = PassengerTrain::new("p1".to_string());
    assert_eq!(p.name().as_str(), "p1");
    let t = Train::Freight(f);
    assert_eq!(t.name().as_str(), "f1");
    assert_eq!(t.kind(), TrainKind::Freight);
    let t2 = Train::Passenger(p);
    assert_eq!(t2.kind(), TrainKind::Passenger);
}
