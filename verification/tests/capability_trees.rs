use mobile_ambients::capabilities::Capability;
use mobile_ambients::capabilities::Empty;
use mobile_ambients::capabilities::In;
use mobile_ambients::capabilities::Name;
use mobile_ambients::capabilities::Open;
use mobile_ambients::capabilities::Out;
use mobile_ambients::capabilities::Path;
use mobile_ambients::capabilities::Variable;

fn name(s: &str) -> Capability {
    Capability::Name(Name::new(String::from(s)))
}

fn variable(s: &str) -> Capability {
    Capability::Variable(Variable::new(String::from(s)))
}

#[test]
fn leaf_payloads_are_kept() {
    let v = Variable::new(String::from("x"));
    assert_eq!(v.value, "x");
    let n = Name::new(String::from("room"));
    assert_eq!(n.value, "room");
}

#[test]
fn composite_payloads_are_kept() {
    let enter = In::new(name("a"));
    assert_eq!(*enter.capability, name("a"));
    let exit = Out::new(name("b"));
    assert_eq!(*exit.capability, name("b"));
    let open = Open::new(variable("c"));
    assert_eq!(*open.capability, variable("c"));
}

#[test]
fn path_keeps_both_sides_unchanged() {
    let p = Path::new(name("first"), name("second"));
    assert_eq!(*p.capability_l, name("first"));
    assert_eq!(*p.capability_r, name("second"));
    assert_ne!(*p.capability_l, *p.capability_r);
}

#[test]
fn each_capability_shape_matches_only_itself() {
    let shapes: Vec<Capability> = vec![
        variable("x"),
        name("n"),
        Capability::In(In::new(name("n"))),
        Capability::Out(Out::new(name("n"))),
        Capability::Open(Open::new(name("n"))),
        Capability::Path(Path::new(name("n"), name("m"))),
        Capability::Empty(Empty::new()),
    ];
    for (index, shape) in shapes.iter().enumerate() {
        let arm: usize = match shape {
            Capability::Variable(_) => 0,
            Capability::Name(_) => 1,
            Capability::In(_) => 2,
            Capability::Out(_) => 3,
            Capability::Open(_) => 4,
            Capability::Path(_) => 5,
            Capability::Empty(_) => 6,
        };
        assert_eq!(arm, index);
    }
}

#[test]
fn nested_capability_round_trip() {
    // in (n.open m), deconstructed back to its leaves.
    let tree = In::new(Capability::Path(Path::new(
        name("n"),
        Capability::Open(Open::new(name("m"))),
    )));
    match &*tree.capability {
        Capability::Path(p) => {
            assert_eq!(*p.capability_l, name("n"));
            match &*p.capability_r {
                Capability::Open(o) => assert_eq!(*o.capability, name("m")),
                other => panic!("expected an open capability, found {:?}", other),
            }
        }
        other => panic!("expected a path capability, found {:?}", other),
    }
}

#[test]
fn empty_capabilities_are_equal() {
    assert_eq!(Empty::new(), Empty::new());
    assert_eq!(Capability::Empty(Empty::new()), Capability::Empty(Empty::new()));
    assert_ne!(Capability::Empty(Empty::new()), name("n"));
}
