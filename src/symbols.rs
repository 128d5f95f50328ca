//! Symbol-table entries: the names that a program image gives to addresses,
//! how labels and variables are resolved into them, and the lookup that a
//! debugger uses to show an address by name.
use vstd::prelude::*;
use crate::memory::Address;

verus! {

/// What a symbol names.
#[derive(Debug, Clone, Copy, PartialEq, Eq, Structural)]
pub enum SymbolType {
    Label,
    Variable,
    LabelTable(u16),
    VariableTable(u16),
}

/// The parts of a program source; `Unset` before the first section header.
#[derive(Debug, Clone, Copy, PartialEq, Eq, Structural)]
pub enum Section {
    Unset,
    Config,
    Code,
    Data,
}

/// A name bound to an address.
#[derive(Debug)]
pub struct DefinedSymbol<'a> {
    pub name: &'a str,
    pub kind: SymbolType,
    pub address: u16,
}

impl<'a> DefinedSymbol<'a> {
    pub fn new(name: &'a str, kind: SymbolType, address: u16) -> (r: DefinedSymbol<'a>)
        ensures
            r.name == name,
            r.kind == kind,
            r.address == address,
    {
        DefinedSymbol { name, kind, address }
    }
}

/// A label whose address is known relative to the start of its section.
#[derive(Debug)]
pub struct UndefinedLabel<'a> {
    pub name: &'a str,
    pub section: Section,
    pub offset: u16,
}

impl<'a> UndefinedLabel<'a> {
    pub fn new(name: &'a str, section: Section, offset: u16) -> (r: UndefinedLabel<'a>)
        ensures
            r.name == name,
            r.section == section,
            r.offset == offset,
    {
        UndefinedLabel { name, section, offset }
    }

    /// The label placed in a section that starts at `section_start`; a
    /// non-zero `len` makes it a table of that many words.
    pub fn define(&self, section_start: u16, len: u16) -> (r: DefinedSymbol<'a>)
        requires
            section_start + self.offset <= u16::MAX,
        ensures
            r.name == self.name,
            r.address == section_start + self.offset,
            r.kind == if len == 0 {
                SymbolType::Label
            } else {
                SymbolType::LabelTable(len)
            },
    {
        if len == 0 {
            DefinedSymbol::new(self.name, SymbolType::Label, section_start + self.offset)
        } else {
            DefinedSymbol::new(self.name, SymbolType::LabelTable(len), section_start + self.offset)
        }
    }
}

/// A name whose address is not known yet, with what kind of symbol it is,
/// if that is known.
#[derive(Debug)]
pub struct UndefinedSymbol<'a> {
    pub name: &'a str,
    pub kind: Option<SymbolType>,
}

impl<'a> UndefinedSymbol<'a> {
    pub fn new(name: &'a str, kind: Option<SymbolType>) -> (r: UndefinedSymbol<'a>)
        ensures
            r.name == name,
            r.kind == kind,
    {
        UndefinedSymbol { name, kind }
    }

    /// The symbol bound to `value`. With `len` zero it keeps its kind (a
    /// variable when none is known); otherwise a variable becomes a table
    /// of `len` words and anything else a label.
    pub fn define(&self, value: u16, len: u16) -> (r: DefinedSymbol<'a>)
        ensures
            r.name == self.name,
            r.address == value,
            r.kind == if len == 0 {
                match self.kind {
                    Some(k) => k,
                    None => SymbolType::Variable,
                }
            } else if self.kind == Some(SymbolType::Variable) {
                SymbolType::VariableTable(len)
            } else {
                SymbolType::Label
            },
    {
        if len == 0 {
            let kind = match self.kind {
                Some(k) => k,
                None => SymbolType::Variable,
            };
            DefinedSymbol::new(self.name, kind, value)
        } else {
            let is_variable = match self.kind {
                Some(SymbolType::Variable) => true,
                _ => false,
            };
            if is_variable {
                DefinedSymbol::new(self.name, SymbolType::VariableTable(len), value)
            } else {
                DefinedSymbol::new(self.name, SymbolType::Label, value)
            }
        }
    }
}

/// A table declared by name and length, before it has an address.
#[derive(Debug)]
pub struct UndefinedTable<'a> {
    pub name: &'a str,
    pub len: u16,
}

impl<'a> UndefinedTable<'a> {
    pub fn new(name: &'a str, len: u16) -> (r: UndefinedTable<'a>)
        ensures
            r.name == name,
            r.len == len,
    {
        UndefinedTable { name, len }
    }
}

/// The name of the first symbol in `symbols` bound to `addr`, if any.
pub fn get_address_name<'a>(symbols: &Vec<DefinedSymbol<'a>>, addr: Address) -> (r: Option<&'a str>)
    ensures
        match r {
            Some(n) => exists|i: int|
                0 <= i < symbols@.len() && symbols@[i].address == addr && symbols@[i].name == n
                    && forall|j: int| 0 <= j < i ==> symbols@[j].address != addr,
            None => forall|i: int| 0 <= i < symbols@.len() ==> symbols@[i].address != addr,
        },
{
    let mut i: usize = 0;
    while i < symbols.len()
        invariant
            i <= symbols@.len(),
            forall|j: int| 0 <= j < i ==> symbols@[j].address != addr,
        decreases symbols@.len() - i,
    {
        if symbols[i].address == addr {
            return Some(symbols[i].name);
        }
        i = i + 1;
    }
    None
}

} // verus!
