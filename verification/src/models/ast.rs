//! The items of a Rust source file, as plain records.

use vstd::prelude::*;

verus! {

#[derive(Debug)]
pub struct SerializableAst {
    pub items: Vec<Item>,
}

#[derive(Debug)]
pub enum Item {
    Function(Function),
    Struct(Struct),
    Enum(Enum),
    Module(Module),
    Use(Use),
    /// Any other item, as its source text.
    Other(String),
}

#[derive(Debug)]
pub struct Function {
    pub name: String,
    pub visibility: Option<String>,
    pub inputs: Vec<String>,
    pub output: Option<String>,
    pub is_async: bool,
}

#[derive(Debug)]
pub struct Struct {
    pub name: String,
    pub visibility: Option<String>,
    pub fields: Vec<Field>,
}

#[derive(Debug)]
pub struct Field {
    pub name: String,
    pub ty: String,
    pub visibility: Option<String>,
}

#[derive(Debug)]
pub struct Enum {
    pub name: String,
    pub visibility: Option<String>,
    pub variants: Vec<String>,
}

#[derive(Debug)]
pub struct Module {
    pub name: String,
    pub visibility: Option<String>,
}

#[derive(Debug)]
pub struct Use {
    pub path: String,
}

} // verus!
