// String-to-variant conversion for a small fixture enum, written out by
// hand: each variant answers to its lowercased name, fields defaulted.

use std::str::FromStr;

enum E {
    Foo,
    Bar(String),
}

impl FromStr for E {
    type Err = ();

    fn from_str(input: &str) -> Result<E, Self::Err> {
        match input {
            "foo" => Ok(E::Foo),
            "bar" => Ok(E::Bar(Default::default())),
            _ => Err(()),
        }
    }
}

#[test]
fn test_foo() {
    assert!(matches!(E::from_str("foo").unwrap(), E::Foo))
}

#[test]
fn test_param_member() {
    assert!(matches!(E::from_str("bar").unwrap(), E::Bar(_)))
}

#[test]
fn bad_convert() {
    assert!(E::from_str("otherShit").is_err());
}
