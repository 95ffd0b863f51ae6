use patterns::adapter::call;
use patterns::adapter::OrdinaryTarget;
use patterns::adapter::SpecificTarget;
use patterns::adapter::Target;
use patterns::adapter::TargetAdapter;
use patterns::chain::Cashier;
use patterns::chain::Department;
use patterns::chain::Doctor;
use patterns::chain::Medical;
use patterns::chain::Patient;
use patterns::chain::Reception;
use patterns::chain::into_next;
use patterns::counter::do_call;
use patterns::data::Data;
use patterns::person::Person;
use patterns::player::Player;
use patterns::player::Track;

#[test]
fn adapter_bridges_the_specific_service() {
    let adaptee = SpecificTarget;
    assert_eq!(adaptee.specific_request(), "test");
    let adapter = TargetAdapter::new(adaptee);
    assert_eq!(adapter.request(), "test");
    assert_eq!(OrdinaryTarget.request(), "Ordinary request");
    assert_eq!(call(TargetAdapter::new(SpecificTarget)), "test");
}

fn fresh_patient(name: &str) -> Patient {
    let mut p = Patient::default();
    p.name = name.to_string();
    p
}

fn full_chain() -> Department {
    let cashier = Cashier::default();
    let medical = Medical::new(Department::Cashier(cashier));
    let doctor = Doctor::new(Department::Medical(medical));
    let reception = Reception::new(Department::Doctor(doctor));
    Department::Reception(reception)
}

#[test]
fn chain_handles_every_stage_once() {
    let chain = full_chain();
    let mut patient = fresh_patient("John");
    chain.execute(&mut patient);
    assert!(patient.registration_done);
    assert!(patient.doctor_check_up_done);
    assert!(patient.medical_done);
    assert!(patient.payment_done);
    assert_eq!(patient.name, "John");

    // A second pass changes nothing further.
    chain.execute(&mut patient);
    assert!(patient.registration_done);
    assert!(patient.doctor_check_up_done);
    assert!(patient.medical_done);
    assert!(patient.payment_done);
}

#[test]
fn partial_chain_leaves_other_stages_untouched() {
    let cashier = Cashier::default();
    let chain = Department::Cashier(cashier);
    let mut patient = fresh_patient("Jane");
    chain.execute(&mut patient);
    assert!(patient.payment_done);
    assert!(!patient.registration_done);
    assert!(!patient.doctor_check_up_done);
    assert!(!patient.medical_done);
}

#[test]
fn handle_reports_repeat_visits() {
    let cashier = Cashier::default();
    let mut patient = fresh_patient("John");
    assert!(!cashier.handle(&mut patient));
    assert!(patient.payment_done);
    assert!(cashier.handle(&mut patient));
    assert!(patient.payment_done);
}

#[test]
fn into_next_wraps_the_department() {
    let linked = into_next(Department::Cashier(Cashier::default()));
    match linked {
        Some(boxed) => assert!(matches!(*boxed, Department::Cashier(_))),
        None => panic!("the department must be wrapped"),
    }
}

#[test]
fn counter_records_each_call() {
    let mut calls: Vec<i32> = Vec::new();
    do_call(&mut calls);
    do_call(&mut calls);
    do_call(&mut calls);
    assert_eq!(calls.len(), 3);
    assert_eq!(calls, vec![1, 1, 1]);
}

#[test]
fn data_reads_back_as_string() {
    let text = Data::Text("test".to_string());
    assert_eq!(text.get_as(), "test");
    let list = Data::List(vec![Data::Text("inner".to_string())]);
    assert_eq!(list.get_as(), "test1234");
}

#[test]
fn person_has_stock_contents() {
    let p = Person::new();
    assert_eq!(p.name, "andy");
    assert_eq!(p.age, 18);
    assert_eq!(p.address, "test");
}

#[test]
fn player_default_playlist() {
    let player = Player::default();
    assert_eq!(player.playlist.len(), 4);
    assert_eq!(player.current_track, 0);
    assert_eq!(player.volume, 25);
    assert_eq!(player.playlist[0].title, "Track1");
    assert_eq!(player.playlist[0].duration, 180);
    assert_eq!(player.playlist[3].title, "Track4");
    assert_eq!(player.playlist[3].duration, 205);
    assert!(player.playlist.iter().all(|t| t.cursor == 0));
}

#[test]
fn player_track_stepping_wraps() {
    let mut player = Player::default();
    player.next_track();
    assert_eq!(player.current_track, 1);
    player.next_track();
    player.next_track();
    player.next_track();
    assert_eq!(player.current_track, 0);
    player.prev_track();
    assert_eq!(player.current_track, 3);
    player.prev_track();
    assert_eq!(player.current_track, 2);
}

#[test]
fn player_cursor_moves() {
    let mut player = Player::default();
    player.play();
    assert_eq!(player.track().cursor, 10);
    player.pause();
    assert_eq!(player.track().cursor, 43);
    player.rewind();
    assert_eq!(player.track().cursor, 0);
    player.next_track();
    assert_eq!(player.track().cursor, 0);
    assert_eq!(player.track().title, "Track2");
}

#[test]
fn player_track_mut_edits_in_place() {
    let mut player = Player::default();
    player.track_mut().cursor = 99;
    assert_eq!(player.playlist[0].cursor, 99);
    assert_eq!(player.track().cursor, 99);
}

#[test]
fn track_new_starts_at_zero() {
    let t = Track::new("song".to_string(), 120);
    assert_eq!(t.title, "song");
    assert_eq!(t.duration, 120);
    assert_eq!(t.cursor, 0);
}
