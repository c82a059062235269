use etudes::generics::{add_42_millions, duplicate, min, pair_of, pick, Foo};
use etudes::logging::{Logger, VerbosityFilter};

#[test]
fn test_pick() {
    println!("picked a number: {:?}", pick(true, 222, 333));
    println!("picked a char: {:?}", pick(false, 'L', 'R'));
}

#[test]
fn test_trail_bounds() {
    let foo = String::from("foo");
    let pair = duplicate(foo);
    println!("{pair:?}");
}

struct StderrLogger;

impl Logger for StderrLogger {
    fn log(&self, verbosity: u8, message: &str) {
        println!("verbosity={verbosity}: {message}");
    }
}

#[test]
fn test_generic_data_types() {
    let logger = VerbosityFilter { max_verbosity: 3, inner: StderrLogger };

    logger.log(5, "FYI");
    logger.log(2, "Uhoh");
}

#[test]
fn test_generic_traits() {
    let from_int = Foo::from(123);
    let from_bool = Foo::from(true);
    println!("{}", from_int.0);
    println!("{}", from_bool.0);
    assert_eq!(from_int.0, "Converted from integer: 123");
    assert_eq!(from_bool.0, "Converted from bool : true");
}

#[test]
fn test_foo_from_false() {
    assert_eq!(Foo::from(false).0, "Converted from bool : false");
}

#[test]
fn test_impl_trait() {
    let many = add_42_millions(42_i8);
    println!("{many}");
    assert_eq!(many, 42_000_042);
    let many_more = add_42_millions(10_000_000);
    println!("{many_more}");
    assert_eq!(many_more, 52_000_000);
    let debuggable = pair_of(27);
    println!("{debuggable:?}");
    assert_eq!(debuggable, (28, 26));
}

#[test]
fn integers() {
    assert_eq!(min(0, 10), 0);
    assert_eq!(min(500, 123), 123);
}

#[test]
fn chars() {
    assert_eq!(min('a', 'z'), 'a');
    assert_eq!(min('7', '1'), '1');
}

#[test]
fn strings() {
    assert_eq!(min("hello", "goodbye"), "goodbye");
    assert_eq!(min("bat", "armadillo"), "armadillo");
}
