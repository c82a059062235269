use etudes::logging::{Logger, VerbosityFilter};
use etudes::pets::{Animal, Dogs, Meters, Multiply, Pets, Player};
use etudes::race::CarRace;

#[test]
fn test_car_race() {
    let mut race = CarRace::new("Monaco GP");

    assert_eq!(race.name, "Monaco GP");
    assert!(race.laps.is_empty());

    race.add_lap(72);
    race.add_lap(71);

    assert_eq!(race.laps.len(), 2);
    assert_eq!(race.laps, vec![72, 71]);

    let total = race.finish();
    assert_eq!(total, 72 + 71)
}

#[test]
fn test_empty_race_total() {
    let race = CarRace::new("quiet sunday");
    assert_eq!(race.finish(), 0);
}

#[test]
fn test_super_traits() {
    let puppy = Dogs(String::from("Rex"));

    assert_eq!(puppy.name(), "Rex");
    assert_eq!(puppy.leg_count(), 4);
}

#[test]
fn test_associated_types() {
    println!("{:?}", Meters(10).multiply(&Meters(20)));
    assert_eq!(Meters(10).multiply(&Meters(20)).0, 200);
}

#[test]
fn test_deriving() {
    let p1: Player = Player::default();
    let mut p2 = p1.clone();
    p2.name = String::from("EldurScrollz");
    // Debug trait adds support for printing with `{:?}`.
    println!("{p1:?} vs. {p2:?}");
    assert_eq!(p1.name, "");
    assert_eq!(p2.name, "EldurScrollz");
}

struct StderrLogger;

impl Logger for StderrLogger {
    fn log(&self, verbosity: u8, message: &str) {
        println!("verbosity={verbosity}: {message}");
    }
}

#[test]
fn test_exercise() {
    let logger = VerbosityFilter { max_verbosity: 3, inner: StderrLogger };

    logger.log(5, "FYI");
    logger.log(2, "Uhoh");
}
