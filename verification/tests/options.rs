use titration_curve::options::Options;
use titration_curve::util::Either;

#[test]
fn default_options_are_light_and_plain() {
    let options = Options::default();
    assert!(!options.is_dark());
    assert!(!options.is_colored());
}

#[test]
fn set_dark_changes_only_dark() {
    let mut options = Options::default();
    options.set_dark(true);
    assert!(options.is_dark());
    assert!(!options.is_colored());
    options.set_dark(false);
    assert!(!options.is_dark());
}

#[test]
fn set_colored_changes_only_colored() {
    let mut options = Options::default();
    options.set_colored(true);
    assert!(options.is_colored());
    assert!(!options.is_dark());
    options.set_colored(false);
    assert!(!options.is_colored());
}

#[test]
fn either_compares_by_side_and_value() {
    let left: Either<u8, u8> = Either::Left(1);
    let right: Either<u8, u8> = Either::Right(1);
    assert_ne!(left, right);
    assert_eq!(left, Either::Left(1));
    let copy = left;
    assert_eq!(copy, left);
}
