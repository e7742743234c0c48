use vstd::prelude::*;
use crate::item::{Field, Fn, Item, Mod, SpecField, SpecFn, SpecItem, SpecMod, Type};

verus! {

/// The clock module: one function, `uptime_us`, imported as `clk`, which
/// writes through its only parameter, a mutable pointer to a 64-bit unsigned
/// integer, and returns nothing.
pub open spec fn clock_module() -> SpecItem {
    SpecItem::Mod(SpecMod {
        docs: seq![" Clock operations."@],
        name: "clock"@,
        items: seq![SpecItem::Fn(SpecFn {
            docs: seq![
                " Returns the time spent since some initial event, in micro-seconds."@,
                ""@,
                " The initial event may be the first time this function is called."@,
            ],
            name: "uptime_us"@,
            link: "clk"@,
            params: seq![SpecField {
                docs: seq![" Pointer to the 64-bits time."@],
                name: "ptr"@,
                type_: Type::Pointer {
                    mutable: true,
                    type_: Box::new(Type::Integer { signed: false, bits: Some(64) }),
                },
            }],
            result: Type::Unit,
        })],
    })
}

/// Describes the clock module.
pub fn new() -> (item: Item)
    ensures
        item@ == clock_module(),
{
    let ghost described = clock_module()->Mod_0.items[0]->Fn_0;
    let docs = vec![" Clock operations.".to_owned()];
    let name = "clock".to_owned();
    let ptr = Field {
        docs: vec![" Pointer to the 64-bits time.".to_owned()],
        name: "ptr".to_owned(),
        type_: Type::Pointer {
            mutable: true,
            type_: Box::new(Type::Integer { signed: false, bits: Some(64) }),
        },
    };
    assert(ptr@ == described.params[0]) by {
        assert(ptr@.docs =~= described.params[0].docs);
    }
    let uptime_us = Fn {
        docs: vec![
            " Returns the time spent since some initial event, in micro-seconds.".to_owned(),
            "".to_owned(),
            " The initial event may be the first time this function is called.".to_owned(),
        ],
        name: "uptime_us".to_owned(),
        link: "clk".to_owned(),
        params: vec![ptr],
        result: Type::Unit,
    };
    assert(uptime_us@ == described) by {
        assert(uptime_us@.docs =~= described.docs);
        assert(uptime_us@.params =~= described.params);
    }
    let function = Item::Fn(uptime_us);
    let item = Item::Mod(Mod { docs, name, items: vec![function] });
    assert(item@ == clock_module()) by {
        assert(function@ == SpecItem::Fn(described));
        assert(item@->Mod_0.docs =~= clock_module()->Mod_0.docs);
        assert(item@->Mod_0.items =~= clock_module()->Mod_0.items);
    }
    item
}

}
