use vstd::prelude::*;

verus! {

/// The type of a parameter or of a result.
#[derive(Debug, PartialEq, Eq)]
pub enum Type {
    /// The type with one value, `()`.
    Unit,
    /// An integer; `bits` is `None` for the pointer-sized integers.
    Integer { signed: bool, bits: Option<usize> },
    /// A raw pointer to a value of `type_`.
    Pointer { mutable: bool, type_: Box<Type> },
}

/// A named and documented parameter of a function.
#[derive(Debug, PartialEq, Eq)]
pub struct Field {
    pub docs: Vec<String>,
    pub name: String,
    pub type_: Type,
}

/// A function of the API: `link` is the name under which it is imported.
#[derive(Debug, PartialEq, Eq)]
pub struct Fn {
    pub docs: Vec<String>,
    pub name: String,
    pub link: String,
    pub params: Vec<Field>,
    pub result: Type,
}

/// A module of the API, holding further items.
#[derive(Debug, PartialEq, Eq)]
pub struct Mod {
    pub docs: Vec<String>,
    pub name: String,
    pub items: Vec<Item>,
}

/// An item of the API.
#[derive(Debug, PartialEq, Eq)]
pub enum Item {
    Mod(Mod),
    Fn(Fn),
}

/// A field as plain values: documentation lines and name as characters.
pub struct SpecField {
    pub docs: Seq<Seq<char>>,
    pub name: Seq<char>,
    pub type_: Type,
}

/// A function as plain values.
pub struct SpecFn {
    pub docs: Seq<Seq<char>>,
    pub name: Seq<char>,
    pub link: Seq<char>,
    pub params: Seq<SpecField>,
    pub result: Type,
}

/// A module as plain values.
pub struct SpecMod {
    pub docs: Seq<Seq<char>>,
    pub name: Seq<char>,
    pub items: Seq<SpecItem>,
}

/// An item as plain values.
pub enum SpecItem {
    Mod(SpecMod),
    Fn(SpecFn),
}

/// The lines of a documentation comment, each as characters.
pub open spec fn docs_view(docs: Seq<String>) -> Seq<Seq<char>> {
    docs.map_values(|line: String| line@)
}

impl View for Field {
    type V = SpecField;

    open spec fn view(&self) -> SpecField {
        SpecField { docs: docs_view(self.docs@), name: self.name@, type_: self.type_ }
    }
}

impl View for Fn {
    type V = SpecFn;

    open spec fn view(&self) -> SpecFn {
        SpecFn {
            docs: docs_view(self.docs@),
            name: self.name@,
            link: self.link@,
            params: self.params@.map_values(|param: Field| param@),
            result: self.result,
        }
    }
}

impl View for Item {
    type V = SpecItem;

    open spec fn view(&self) -> SpecItem
        decreases self,
    {
        match self {
            Item::Mod(m) => SpecItem::Mod(m.view()),
            Item::Fn(f) => SpecItem::Fn(f.view()),
        }
    }
}

impl View for Mod {
    type V = SpecMod;

    open spec fn view(&self) -> SpecMod
        decreases self,
    {
        SpecMod {
            docs: docs_view(self.docs@),
            name: self.name@,
            // The guard on `i` lets the recursion through the vector's
            // elements be seen to terminate.
            items: Seq::new(
                self.items@.len(),
                |i: int|
                    if 0 <= i < self.items@.len() {
                        self.items@[i].view()
                    } else {
                        SpecItem::Mod(SpecMod { docs: Seq::empty(), name: Seq::empty(), items: Seq::empty() })
                    },
            ),
        }
    }
}

}
