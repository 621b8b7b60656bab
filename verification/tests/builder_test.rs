// The builder pattern for a one-field record, written out by hand.

#[derive(Debug, PartialEq)]
pub struct Foo {
    bar: String,
}

impl Foo {
    pub fn builder() -> FooBuilder {
        FooBuilder::default()
    }
}

#[derive(Default)]
pub struct FooBuilder {
    set_bar: Option<String>,
}

impl FooBuilder {
    pub fn new() -> FooBuilder {
        FooBuilder { set_bar: None }
    }

    pub fn bar(mut self, bar: String) -> FooBuilder {
        self.set_bar = Some(bar);
        self
    }

    pub fn build(self) -> Foo {
        Foo {
            bar: self.set_bar.unwrap_or_default(),
        }
    }
}

#[test]
fn builder_test() {
    let foo = Foo {
        bar: String::from("Y"),
    };

    let foo_from_builder: Foo = FooBuilder::new().bar(String::from("Y")).build();

    assert_eq!(foo, foo_from_builder);
}
