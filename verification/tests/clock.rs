use api_desc::clock::new;
use api_desc::item::{Field, Fn, Item, Mod, Type};

fn strings(lines: &[&str]) -> Vec<String> {
    lines.iter().map(|line| line.to_string()).collect()
}

fn expected() -> Item {
    Item::Mod(Mod {
        docs: strings(&[" Clock operations."]),
        name: "clock".to_string(),
        items: vec![Item::Fn(Fn {
            docs: strings(&[
                " Returns the time spent since some initial event, in micro-seconds.",
                "",
                " The initial event may be the first time this function is called.",
            ]),
            name: "uptime_us".to_string(),
            link: "clk".to_string(),
            params: vec![Field {
                docs: strings(&[" Pointer to the 64-bits time."]),
                name: "ptr".to_string(),
                type_: Type::Pointer {
                    mutable: true,
                    type_: Box::new(Type::Integer { signed: false, bits: Some(64) }),
                },
            }],
            result: Type::Unit,
        })],
    })
}

#[test]
fn clock_module_is_described_exactly() {
    assert_eq!(new(), expected());
}

#[test]
fn clock_module_name_and_docs() {
    match new() {
        Item::Mod(m) => {
            assert_eq!(m.name, "clock");
            assert_eq!(m.docs, vec![" Clock operations.".to_string()]);
            assert_eq!(m.items.len(), 1);
        }
        Item::Fn(_) => panic!("the clock description is a module"),
    }
}

#[test]
fn uptime_us_signature() {
    let Item::Mod(m) = new() else { panic!("the clock description is a module") };
    let Item::Fn(f) = &m.items[0] else { panic!("the clock module holds a function") };
    assert_eq!(f.name, "uptime_us");
    assert_eq!(f.link, "clk");
    assert_eq!(f.docs.len(), 3);
    assert_eq!(f.docs[1], "");
    assert_eq!(f.result, Type::Unit);
    assert_eq!(f.params.len(), 1);
    assert_eq!(f.params[0].name, "ptr");
    assert_eq!(f.params[0].docs, vec![" Pointer to the 64-bits time.".to_string()]);
    assert_eq!(
        f.params[0].type_,
        Type::Pointer { mutable: true, type_: Box::new(Type::Integer { signed: false, bits: Some(64) }) }
    );
}

#[test]
fn time_pointer_is_not_signed_nor_const() {
    let Item::Mod(m) = new() else { panic!("the clock description is a module") };
    let Item::Fn(f) = &m.items[0] else { panic!("the clock module holds a function") };
    assert_ne!(
        f.params[0].type_,
        Type::Pointer { mutable: false, type_: Box::new(Type::Integer { signed: false, bits: Some(64) }) }
    );
    assert_ne!(
        f.params[0].type_,
        Type::Pointer { mutable: true, type_: Box::new(Type::Integer { signed: true, bits: Some(64) }) }
    );
}

#[test]
fn two_descriptions_are_equal() {
    assert_eq!(new(), new());
}
