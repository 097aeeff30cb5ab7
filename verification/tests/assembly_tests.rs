use ad_astra::assembly::{Assembly, Cmd, NodeRef, OpCmd, PackageMeta, Source, Subroutines};
use ad_astra::origin::{Origin, ScriptOrigin};

fn at(start: usize) -> Origin {
    Origin::Script(ScriptOrigin { id: 7, start, end: start + 1 })
}

fn sample() -> Assembly {
    let mut assembly = Assembly::new(false, 2, 1, 0, at(0));
    assembly.origins.push(at(10));
    assembly.origins.push(at(20));
    assembly.origins.push(at(30));
    assembly.strings.push(String::from("name"));
    assembly.commands.push(Cmd::PushUsize { value: 42 });
    assembly.commands.push(Cmd::Op(OpCmd::Add));
    assembly.commands.push(Cmd::IfTrue { otherwise: 7 });
    assembly.sources.push(Source { origins: vec![1] });
    assembly.sources.push(Source { origins: vec![2, 3, 9] });
    assembly
}

#[test]
fn new_assembly() {
    let assembly = Assembly::new(true, 3, 2, 5, at(4));
    assert_eq!((assembly.arity, assembly.frame, assembly.closures), (3, 3, 3));
    assert_eq!(assembly.subroutines.len(), 0);
    assert_eq!(assembly.decl_origin(), at(4));
    let assembly = Assembly::new(false, 0, 0, 5, at(4));
    assert_eq!(assembly.subroutines.len(), 5);
}

#[test]
fn command_sources() {
    let assembly = sample();
    assert_eq!(assembly.cmd_1_source(0), at(10));
    assert_eq!(assembly.cmd_2_source(0), (at(10), at(0)));
    assert_eq!(assembly.cmd_3_source(1), (at(20), at(30), Origin::nil()));
    assert_eq!(assembly.cmd_1_source(2), at(0));
    assert_eq!(assembly.cmd_3_source(2), (at(0), at(0), at(0)));
    assert_eq!(assembly.cmd_many_source(1), vec![at(20), at(30), Origin::nil()]);
    assert!(assembly.cmd_many_source(5).is_empty());
}

#[test]
fn command_listings() {
    let strings = vec![String::from("a\"b")];
    assert_eq!(Cmd::IfTrue { otherwise: 3 }.listing(0, 5, &strings, ""), "0: if-true 3");
    assert_eq!(Cmd::IfFalse { otherwise: 5 }.listing(1, 5, &strings, ""), "1: if-false ret");
    assert_eq!(Cmd::Jump { command: usize::MAX }.listing(2, 5, &strings, ""), "2: jump ret");
    assert_eq!(Cmd::Iterate { finish: 4 }.listing(3, 5, &strings, ""), "3: iter 4");
    assert_eq!(Cmd::Lift { depth: 2 }.listing(4, 5, &strings, ""), "4: lift s2");
    assert_eq!(Cmd::Swap { depth: 0 }.listing(4, 5, &strings, ""), "4: swap s0");
    assert_eq!(Cmd::Dup { depth: 1 }.listing(4, 5, &strings, ""), "4: dup s1");
    assert_eq!(Cmd::Shrink { depth: 3 }.listing(4, 5, &strings, ""), "4: shrink 3");
    assert_eq!(Cmd::PushNil.listing(10, 5, &strings, ""), "10: push nil");
    assert_eq!(Cmd::PushIsize { value: -12 }.listing(0, 1, &strings, ""), "0: push -12isize");
    assert_eq!(Cmd::PushFloat { value: 0 }.listing(0, 1, &strings, "1.5"), "0: push 1.5float");
    assert_eq!(
        Cmd::PushString { string_index: 0 }.listing(0, 1, &strings, ""),
        "0: push string0(\"a\\\"b\")",
    );
    assert_eq!(Cmd::Field { field_index: 3 }.listing(0, 1, &strings, ""), "0: field string3(?)");
    assert_eq!(
        Cmd::PushPackage { package: PackageMeta { name: "std", version: "1.0" } }.listing(0, 1, &strings, ""),
        "0: push \u{2039}std@1.0\u{203a}",
    );
    assert_eq!(Cmd::Op(OpCmd::GreaterOrEqual).listing(0, 1, &strings, ""), "0: greater_or_equal");
    assert_eq!(Cmd::Op(OpCmd::BitXorAssign).listing(0, 1, &strings, ""), "0: bit-xor-assign");
    assert_eq!(Cmd::Invoke { arity: 2 }.listing(0, 1, &strings, ""), "0: invoke 2");
    assert_eq!(Cmd::Concat { items: 4 }.listing(0, 1, &strings, ""), "0: concat 4");
}

#[test]
fn assembly_listing() {
    let assembly = sample();
    let listing = assembly.listing(0, &vec![], &vec![]);
    assert_eq!(
        listing,
        "ScriptFn {\n    arity: 2\n    frame: 2\n    closures: 2\n    commands:\n        0: push 42usize\n        1: add\n        2: if-true ret\n    strings:\n        string0: \"name\"\n}\n",
    );
    let inner = Assembly::new(false, 0, 0, 0, at(1)).listing(2, &vec![], &vec![]);
    assert_eq!(inner, "ScriptFn {\n            arity: 0\n            frame: 0\n            closures: 1\n        }\n");
    let outer = Assembly::new(false, 1, 0, 1, at(0)).listing(0, &vec![], &vec![inner]);
    assert_eq!(
        outer,
        "ScriptFn {\n    arity: 1\n    frame: 1\n    closures: 1\n    fns:\n        fn0: ScriptFn {\n            arity: 0\n            frame: 0\n            closures: 1\n        }\n}\n",
    );
}

#[test]
fn subroutine_lists() {
    let node = |id| NodeRef { id, index: 1, version: 1 };
    let mut refs = Subroutines::Refs(vec![]);
    refs.push(node(1));
    refs.push(node(2));
    assert_eq!(refs.len(), 2);
    assert!(refs.eq(&Subroutines::Len(2)));
    assert!(Subroutines::Len(2).eq(&refs));
    assert!(refs.eq(&Subroutines::Refs(vec![node(1), node(2)])));
    assert!(!refs.eq(&Subroutines::Refs(vec![node(1), node(3)])));
    assert!(!refs.eq(&Subroutines::Len(3)));
}
