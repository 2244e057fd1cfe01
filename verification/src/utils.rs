//! Fenced code blocks of a Markdown text, and the items of Rust source.

use crate::models::ast::{Enum, Field, Function, Item, Module, SerializableAst, Struct, Use};
use crate::models::code::CodeBlockView;
use crate::text::{
    chars_of, is_whitespace, leading_space, line_views, lines, push_char, split_lines, string_of,
    trailing_space, trimmed,
};
use quote::ToTokens;
use vstd::prelude::*;

verus! {

/// A fenced block of a Markdown text.
pub struct CodeBlock {
    /// What the opening fence says after its backticks, if anything.
    pub language: Option<String>,
    /// The lines between the fences, each followed by a line feed.
    pub content: String,
}

impl View for CodeBlock {
    type V = CodeBlockView;

    open spec fn view(&self) -> CodeBlockView {
        CodeBlockView {
            language: match self.language {
                Some(language) => Some(language@),
                None => None,
            },
            content: self.content@,
        }
    }
}

impl CodeBlock {
    pub fn new(language: Option<String>, content: String) -> (block: CodeBlock)
        ensures
            block.language == language,
            block.content == content,
    {
        CodeBlock { language, content }
    }
}

/// The views of a list of blocks.
pub open spec fn block_views(blocks: Seq<CodeBlock>) -> Seq<CodeBlockView> {
    blocks.map_values(|block: CodeBlock| block@)
}

/// `line` opens or closes a block: it begins with three backticks.
pub open spec fn is_fence(line: Seq<char>) -> bool {
    line.len() >= 3 && line[0] == '`' && line[1] == '`' && line[2] == '`'
}

/// The number of backticks that `line` begins with.
pub open spec fn leading_ticks(line: Seq<char>) -> nat
    decreases line.len(),
{
    if line.len() > 0 && line[0] == '`' {
        1 + leading_ticks(line.drop_first())
    } else {
        0
    }
}

/// The language that a fence names: what follows its backticks, without
/// white space at either end, if that is anything at all.
pub open spec fn fence_language(line: Seq<char>) -> Option<Seq<char>> {
    let name = trimmed(line.skip(leading_ticks(line) as int));
    if name.len() == 0 {
        None
    } else {
        Some(name)
    }
}

/// The first position at or after `i` that holds a fence, or the number
/// of lines where none follows.
pub open spec fn body_end(lines: Seq<Seq<char>>, i: int) -> int
    decreases lines.len() - i,
{
    if i < 0 || i >= lines.len() || is_fence(lines[i]) {
        i
    } else {
        body_end(lines, i + 1)
    }
}

pub proof fn lemma_body_end(lines: Seq<Seq<char>>, i: int)
    requires
        0 <= i <= lines.len(),
    ensures
        i <= body_end(lines, i) <= lines.len(),
    decreases lines.len() - i,
{
    if i < lines.len() && !is_fence(lines[i]) {
        lemma_body_end(lines, i + 1);
    }
}

/// The lines from position `from` up to, and without, position `to`, each
/// followed by a line feed.
pub open spec fn body_text(lines: Seq<Seq<char>>, from: int, to: int) -> Seq<char>
    decreases to - from,
{
    if from >= to {
        Seq::empty()
    } else {
        body_text(lines, from, to - 1) + lines[to - 1] + seq!['\n']
    }
}

/// The blocks that open at or after line `i`. A fence opens a block; the
/// block holds the lines up to the next fence, which closes it, or up to
/// the end of the text where no fence follows.
pub open spec fn blocks_from(lines: Seq<Seq<char>>, i: int) -> Seq<CodeBlockView>
    decreases lines.len() + 1 - i,
{
    if i < 0 || i >= lines.len() {
        Seq::empty()
    } else if is_fence(lines[i]) {
        proof {
            lemma_body_end(lines, i + 1);
        }
        let end = body_end(lines, i + 1);
        seq![
            CodeBlockView {
                language: fence_language(lines[i]),
                content: body_text(lines, i + 1, end),
            },
        ] + blocks_from(lines, end + 1)
    } else {
        blocks_from(lines, i + 1)
    }
}

/// The fenced blocks of a Markdown text, in the order in which they open.
pub open spec fn code_blocks(markdown: Seq<char>) -> Seq<CodeBlockView> {
    blocks_from(lines(markdown), 0)
}

fn starts_fence(line: &Vec<char>) -> (fence: bool)
    ensures
        fence == is_fence(line@),
{
    line.len() >= 3 && line[0] == '`' && line[1] == '`' && line[2] == '`'
}

fn language_of(line: &Vec<char>) -> (language: Option<String>)
    ensures
        match language {
            Some(name) => fence_language(line@) == Some(name@),
            None => fence_language(line@) is None,
        },
{
    let mut from: usize = 0;
    assert(line@.skip(0) =~= line@);
    while from < line.len() && line[from] == '`'
        invariant
            from <= line.len(),
            leading_ticks(line@) == from + leading_ticks(line@.skip(from as int)),
        decreases line.len() - from,
    {
        assert(line@.skip(from as int).drop_first() =~= line@.skip(from + 1));
        from += 1;
    }
    let ghost rest = line@.skip(from as int);
    let ticks = from;
    while from < line.len() && is_whitespace(line[from])
        invariant
            ticks <= from <= line.len(),
            rest == line@.skip(ticks as int),
            leading_space(rest) == (from - ticks) + leading_space(line@.skip(from as int)),
        decreases line.len() - from,
    {
        assert(line@.skip(from as int).drop_first() =~= line@.skip(from + 1));
        from += 1;
    }
    let ghost tail = line@.skip(from as int);
    assert(tail =~= rest.skip(leading_space(rest) as int));
    let mut to: usize = line.len();
    while from < to && is_whitespace(line[to - 1])
        invariant
            from <= to <= line.len(),
            tail == line@.skip(from as int),
            trailing_space(tail) == (line.len() - to) + trailing_space(
                line@.subrange(from as int, to as int),
            ),
        decreases to - from,
    {
        assert(line@.subrange(from as int, to as int).drop_last() =~= line@.subrange(
            from as int,
            to - 1,
        ));
        to -= 1;
    }
    assert(line@.subrange(from as int, line.len() as int) =~= tail);
    assert(trimmed(rest) =~= line@.subrange(from as int, to as int));
    if from == to {
        None
    } else {
        Some(string_of(line, from, to))
    }
}

/// Finds the fenced code blocks of a Markdown text. A line that begins
/// with three backticks opens a block and names its language; the lines
/// after it, up to the next such line, are its content. A block that is
/// still open at the end of the text ends there.
pub fn extract_code_blocks(markdown: &str) -> (blocks: Vec<CodeBlock>)
    ensures
        block_views(blocks@) == code_blocks(markdown@),
{
    let text = chars_of(markdown);
    let found = split_lines(&text);
    let ghost all = line_views(found@);
    let mut blocks: Vec<CodeBlock> = Vec::new();
    let mut i: usize = 0;
    while i < found.len()
        invariant
            i <= found.len(),
            all == line_views(found@),
            all == lines(markdown@),
            block_views(blocks@) + blocks_from(all, i as int) == code_blocks(markdown@),
        decreases found.len() - i,
    {
        assert(all[i as int] == found@[i as int]@);
        if starts_fence(&found[i]) {
            let language = language_of(&found[i]);
            let mut content = String::new();
            let mut j: usize = i + 1;
            while j < found.len() && !starts_fence(&found[j])
                invariant
                    i < j <= found.len(),
                    all == line_views(found@),
                    body_end(all, i + 1) == body_end(all, j as int),
                    content@ == body_text(all, i + 1, j as int),
                decreases found.len() - j,
            {
                assert(all[j as int] == found@[j as int]@);
                let line = &found[j];
                let ghost held = content@;
                let mut k: usize = 0;
                while k < line.len()
                    invariant
                        k <= line.len(),
                        content@ == held + line@.take(k as int),
                    decreases line.len() - k,
                {
                    push_char(&mut content, line[k]);
                    k += 1;
                    assert(content@ =~= held + line@.take(k as int));
                }
                push_char(&mut content, '\n');
                assert(line@.take(line.len() as int) =~= line@);
                assert(content@ =~= held + line@ + seq!['\n']);
                j += 1;
            }
            proof {
                if j < found.len() {
                    assert(all[j as int] == found@[j as int]@);
                }
            }
            let ghost before = block_views(blocks@);
            let block = CodeBlock::new(language, content);
            blocks.push(block);
            assert(block_views(blocks@) =~= before.push(block@));
            assert(block_views(blocks@) + blocks_from(all, j + 1) =~= before + blocks_from(
                all,
                i as int,
            ));
            i = if j < found.len() {
                j + 1
            } else {
                j
            };
        } else {
            i += 1;
        }
    }
    assert(block_views(blocks@) + Seq::<CodeBlockView>::empty() =~= block_views(blocks@));
    blocks
}

/// The error with which `syn` refuses a source text.
#[verifier::external_type_specification]
#[verifier::external_body]
pub struct ExSynError(syn::Error);

/// A function of a source file as `syn` holds it.
#[verifier::external_type_specification]
#[verifier::external_body]
pub struct ExSynItemFn(syn::ItemFn);

/// A struct of a source file as `syn` holds it.
#[verifier::external_type_specification]
#[verifier::external_body]
pub struct ExSynItemStruct(syn::ItemStruct);

/// An enum of a source file as `syn` holds it.
#[verifier::external_type_specification]
#[verifier::external_body]
pub struct ExSynItemEnum(syn::ItemEnum);

/// A module of a source file as `syn` holds it.
#[verifier::external_type_specification]
#[verifier::external_body]
pub struct ExSynItemMod(syn::ItemMod);

/// A `use` declaration of a source file as `syn` holds it.
#[verifier::external_type_specification]
#[verifier::external_body]
pub struct ExSynItemUse(syn::ItemUse);

/// An `impl` block of a source file as `syn` holds it.
#[verifier::external_type_specification]
#[verifier::external_body]
pub struct ExSynItemImpl(syn::ItemImpl);

/// What kind of item stands at the top level of a source file. Functions,
/// structs, enums, modules, `use` declarations and `impl` blocks are told
/// apart; every other item is known by its source text.
pub enum ItemShape {
    Function,
    Struct,
    Enum,
    Module,
    Use,
    Impl,
    Other(Seq<char>),
}

/// The items at the top level of `code` as `syn::parse_file` reads it, in
/// the order of the file, or nothing where it refuses `code`.
pub uninterp spec fn rust_items(code: Seq<char>) -> Option<Seq<ItemShape>>;

/// An item of a source file by its kind. The kinds that get a record of
/// their own come as `syn` holds them, every other item as source text.
pub(crate) enum ParsedItem {
    Function(syn::ItemFn),
    Struct(syn::ItemStruct),
    Enum(syn::ItemEnum),
    Module(syn::ItemMod),
    Use(syn::ItemUse),
    Impl(syn::ItemImpl),
    Other(String),
}

impl ParsedItem {
    /// The kind of the item, and its text where it is of no kind that is
    /// told apart.
    pub(crate) open spec fn shape(self) -> ItemShape {
        match self {
            ParsedItem::Function(_) => ItemShape::Function,
            ParsedItem::Struct(_) => ItemShape::Struct,
            ParsedItem::Enum(_) => ItemShape::Enum,
            ParsedItem::Module(_) => ItemShape::Module,
            ParsedItem::Use(_) => ItemShape::Use,
            ParsedItem::Impl(_) => ItemShape::Impl,
            ParsedItem::Other(text) => ItemShape::Other(text@),
        }
    }
}

/// The shapes of a list of items.
pub(crate) open spec fn shapes_of(items: Seq<ParsedItem>) -> Seq<ItemShape> {
    items.map_values(|item: ParsedItem| item.shape())
}

/// Calls `syn::parse_file`, takes the items out of the file it returns
/// and tells their variants apart; an item of no variant that is told
/// apart is printed with `ToTokens::to_token_stream` and
/// `TokenStream::to_string`. Whether the text is accepted, which kinds of
/// items it has in which order, and the text of the others depend on the
/// text alone; the contract names that. Of what is inside a function, a
/// struct, an enum, a module, a `use` declaration or an `impl` block it
/// claims nothing.
#[verifier::external_body]
pub(crate) fn parse_items(code: &str) -> (result: Result<Vec<ParsedItem>, syn::Error>)
    ensures
        match result {
            Ok(items) => rust_items(code@) == Some(shapes_of(items@)),
            Err(_) => rust_items(code@) is None,
        },
{
    syn::parse_file(code).map(|file| file.items.into_iter().map(|item| match item {
        syn::Item::Fn(function) => ParsedItem::Function(function),
        syn::Item::Struct(structure) => ParsedItem::Struct(structure),
        syn::Item::Enum(enumeration) => ParsedItem::Enum(enumeration),
        syn::Item::Mod(module) => ParsedItem::Module(module),
        syn::Item::Use(import) => ParsedItem::Use(import),
        syn::Item::Impl(implementation) => ParsedItem::Impl(implementation),
        other => ParsedItem::Other(other.to_token_stream().to_string()),
    }).collect())
}

/// Calls `to_string` on a `syn::Error`, which formats the message of the
/// error. Nothing is claimed of the text.
#[verifier::external_body]
pub(crate) fn error_message(error: &syn::Error) -> String {
    error.to_string()
}

/// Reads `sig.ident` of a `syn::ItemFn` and calls `Ident::to_string`: the
/// name of the function. Nothing is claimed of the text.
#[verifier::external_body]
pub(crate) fn function_name(function: &syn::ItemFn) -> String {
    function.sig.ident.to_string()
}

/// Reads `vis` of a `syn::ItemFn` and prints it with
/// `ToTokens::to_token_stream` and `TokenStream::to_string`: the
/// visibility of the function as source text, empty where none is written.
/// Nothing is claimed of the text.
#[verifier::external_body]
pub(crate) fn function_visibility(function: &syn::ItemFn) -> String {
    function.vis.to_token_stream().to_string()
}

/// Walks `sig.inputs` of a `syn::ItemFn` and prints each parameter with
/// `ToTokens::to_token_stream` and `TokenStream::to_string`: the parameters
/// as source text, in their order. Nothing is claimed of the texts.
#[verifier::external_body]
pub(crate) fn function_inputs(function: &syn::ItemFn) -> Vec<String> {
    function.sig.inputs.iter().map(|input| input.to_token_stream().to_string()).collect()
}

/// Tells the variants of `sig.output` of a `syn::ItemFn` apart and prints
/// a written return type with `ToTokens::to_token_stream` and
/// `TokenStream::to_string`. Nothing is claimed of the text.
#[verifier::external_body]
pub(crate) fn function_output(function: &syn::ItemFn) -> Option<String> {
    match &function.sig.output {
        syn::ReturnType::Default => None,
        syn::ReturnType::Type(_, ty) => Some(ty.to_token_stream().to_string()),
    }
}

/// Reads `sig.asyncness` of a `syn::ItemFn`: whether the function is
/// declared `async`. Nothing is claimed of the answer.
#[verifier::external_body]
pub(crate) fn function_is_async(function: &syn::ItemFn) -> bool {
    function.sig.asyncness.is_some()
}

/// Reads `ident` of a `syn::ItemStruct` and calls `Ident::to_string`: the
/// name of the struct. Nothing is claimed of the text.
#[verifier::external_body]
pub(crate) fn struct_name(structure: &syn::ItemStruct) -> String {
    structure.ident.to_string()
}

/// Reads `vis` of a `syn::ItemStruct` and prints it with
/// `ToTokens::to_token_stream` and `TokenStream::to_string`. Nothing is
/// claimed of the text.
#[verifier::external_body]
pub(crate) fn struct_visibility(structure: &syn::ItemStruct) -> String {
    structure.vis.to_token_stream().to_string()
}

/// A field of a struct as `syn` spells it: its name where it has one, its
/// type and its visibility.
pub(crate) struct RawField {
    pub name: Option<String>,
    pub ty: String,
    pub visibility: String,
}

/// Walks the fields of a `syn::ItemStruct` with `Fields::iter` and takes
/// from each its name, where it has one, and its type and visibility as
/// `ToTokens::to_token_stream` and `TokenStream::to_string` print them.
/// Nothing is claimed of the fields.
#[verifier::external_body]
pub(crate) fn struct_fields(structure: &syn::ItemStruct) -> Vec<RawField> {
    structure.fields.iter().map(|field| RawField {
        name: field.ident.as_ref().map(|ident| ident.to_string()),
        ty: field.ty.to_token_stream().to_string(),
        visibility: field.vis.to_token_stream().to_string(),
    }).collect()
}

/// Reads `ident` of a `syn::ItemEnum` and calls `Ident::to_string`: the
/// name of the enum. Nothing is claimed of the text.
#[verifier::external_body]
pub(crate) fn enum_name(enumeration: &syn::ItemEnum) -> String {
    enumeration.ident.to_string()
}

/// Reads `vis` of a `syn::ItemEnum` and prints it with
/// `ToTokens::to_token_stream` and `TokenStream::to_string`. Nothing is
/// claimed of the text.
#[verifier::external_body]
pub(crate) fn enum_visibility(enumeration: &syn::ItemEnum) -> String {
    enumeration.vis.to_token_stream().to_string()
}

/// Walks `variants` of a `syn::ItemEnum` and calls `Ident::to_string` on
/// the name of each: the names of the variants, in their order. Nothing is
/// claimed of the texts.
#[verifier::external_body]
pub(crate) fn enum_variants(enumeration: &syn::ItemEnum) -> Vec<String> {
    enumeration.variants.iter().map(|variant| variant.ident.to_string()).collect()
}

/// Reads `ident` of a `syn::ItemMod` and calls `Ident::to_string`: the
/// name of the module. Nothing is claimed of the text.
#[verifier::external_body]
pub(crate) fn module_name(module: &syn::ItemMod) -> String {
    module.ident.to_string()
}

/// Reads `vis` of a `syn::ItemMod` and prints it with
/// `ToTokens::to_token_stream` and `TokenStream::to_string`. Nothing is
/// claimed of the text.
#[verifier::external_body]
pub(crate) fn module_visibility(module: &syn::ItemMod) -> String {
    module.vis.to_token_stream().to_string()
}

/// Reads `tree` of a `syn::ItemUse` and prints it with
/// `ToTokens::to_token_stream` and `TokenStream::to_string`: what the
/// declaration imports, as source text. Nothing is claimed of the text.
#[verifier::external_body]
pub(crate) fn use_path(import: &syn::ItemUse) -> String {
    import.tree.to_token_stream().to_string()
}

/// Formats `self_ty` of a `syn::ItemImpl` with its `Debug` impl: the type
/// that the block is for. Nothing is claimed of the text.
#[verifier::external_body]
pub(crate) fn impl_self_type(implementation: &syn::ItemImpl) -> String {
    format!("{:?}", implementation.self_ty)
}

/// Walks `items` of a `syn::ItemImpl` and tells the variants of
/// `syn::ImplItem` apart: for a function the name that `Ident::to_string`
/// gives, and nothing for an item of another kind, in the order of the
/// block. Nothing is claimed of the names.
#[verifier::external_body]
pub(crate) fn impl_function_names(implementation: &syn::ItemImpl) -> Vec<Option<String>> {
    implementation.items.iter().map(|item| match item {
        syn::ImplItem::Fn(function) => Some(function.sig.ident.to_string()),
        _ => None,
    }).collect()
}

/// Prints a `syn::ItemImpl` with `ToTokens::to_token_stream` and
/// `TokenStream::to_string`: the whole block as source text. Nothing is
/// claimed of the text.
#[verifier::external_body]
pub(crate) fn impl_tokens(implementation: &syn::ItemImpl) -> String {
    implementation.to_token_stream().to_string()
}

fn convert_function(
    name: String,
    visibility: String,
    inputs: Vec<String>,
    output: Option<String>,
    is_async: bool,
) -> (record: Function)
    ensures
        record.name == name,
        record.visibility == Some(visibility),
        record.inputs == inputs,
        record.output == output,
        record.is_async == is_async,
{
    Function { name, visibility: Some(visibility), inputs, output, is_async }
}

/// The name that a field without a name gets.
pub open spec fn unnamed() -> Seq<char> {
    Seq::empty()
}

fn convert_field(raw: &RawField) -> (field: Field)
    ensures
        field.name@ == match raw.name {
            Some(name) => name@,
            None => unnamed(),
        },
        field.ty == raw.ty,
        field.visibility == Some(raw.visibility),
{
    let name = match &raw.name {
        Some(name) => name.clone(),
        None => String::new(),
    };
    Field { name, ty: raw.ty.clone(), visibility: Some(raw.visibility.clone()) }
}

fn convert_fields(raw: Vec<RawField>) -> (fields: Vec<Field>)
    ensures
        fields@.len() == raw@.len(),
        forall|i: int|
            0 <= i < raw@.len() ==> {
                &&& (#[trigger] fields@[i]).name@ == match raw@[i].name {
                    Some(name) => name@,
                    None => unnamed(),
                }
                &&& fields@[i].ty == raw@[i].ty
                &&& fields@[i].visibility == Some(raw@[i].visibility)
            },
{
    let mut fields: Vec<Field> = Vec::new();
    let mut i: usize = 0;
    while i < raw.len()
        invariant
            i <= raw.len(),
            fields@.len() == i,
            forall|k: int|
                0 <= k < i ==> {
                    &&& (#[trigger] fields@[k]).name@ == match raw@[k].name {
                        Some(name) => name@,
                        None => unnamed(),
                    }
                    &&& fields@[k].ty == raw@[k].ty
                    &&& fields@[k].visibility == Some(raw@[k].visibility)
                },
        decreases raw.len() - i,
    {
        fields.push(convert_field(&raw[i]));
        i += 1;
    }
    fields
}

fn convert_struct(name: String, visibility: String, raw: Vec<RawField>) -> (record: Struct)
    ensures
        record.name == name,
        record.visibility == Some(visibility),
        record.fields@.len() == raw@.len(),
        forall|i: int|
            0 <= i < raw@.len() ==> {
                &&& (#[trigger] record.fields@[i]).name@ == match raw@[i].name {
                    Some(name) => name@,
                    None => unnamed(),
                }
                &&& record.fields@[i].ty == raw@[i].ty
                &&& record.fields@[i].visibility == Some(raw@[i].visibility)
            },
{
    Struct { name, visibility: Some(visibility), fields: convert_fields(raw) }
}

fn convert_enum(name: String, visibility: String, variants: Vec<String>) -> (record: Enum)
    ensures
        record.name == name,
        record.visibility == Some(visibility),
        record.variants == variants,
{
    Enum { name, visibility: Some(visibility), variants }
}

fn convert_module(name: String, visibility: String) -> (record: Module)
    ensures
        record.name == name,
        record.visibility == Some(visibility),
{
    Module { name, visibility: Some(visibility) }
}

fn convert_use(path: String) -> (record: Use)
    ensures
        record.path == path,
{
    Use { path }
}

/// `record` is the record of an item of the shape `shape`: functions,
/// structs, enums, modules and `use` declarations have a record of their
/// own kind, in which the visibility is always given, as an empty text
/// where none is written; an `impl` block and every other item is kept as
/// text, and an item that is known by its text has that text.
pub open spec fn is_record_of(record: Item, shape: ItemShape) -> bool {
    match shape {
        ItemShape::Function => record matches Item::Function(function)
            && function.visibility is Some,
        ItemShape::Struct => record matches Item::Struct(structure) && structure.visibility
            is Some && forall|i: int|
            0 <= i < structure.fields@.len() ==> (#[trigger] structure.fields@[i]).visibility
                is Some,
        ItemShape::Enum => record matches Item::Enum(enumeration) && enumeration.visibility
            is Some,
        ItemShape::Module => record matches Item::Module(module) && module.visibility is Some,
        ItemShape::Use => record is Use,
        ItemShape::Impl => record is Other,
        ItemShape::Other(text) => record matches Item::Other(held) && held@ == text,
    }
}

/// `records` are the records of items of the shapes `shapes`, one for
/// each and in the same order.
pub open spec fn are_records_of(records: Seq<Item>, shapes: Seq<ItemShape>) -> bool {
    &&& records.len() == shapes.len()
    &&& forall|i: int| 0 <= i < records.len() ==> is_record_of(#[trigger] records[i], shapes[i])
}

fn convert_item(parsed: &ParsedItem) -> (record: Item)
    ensures
        is_record_of(record, parsed.shape()),
{
    match parsed {
        ParsedItem::Function(function) => Item::Function(
            convert_function(
                function_name(function),
                function_visibility(function),
                function_inputs(function),
                function_output(function),
                function_is_async(function),
            ),
        ),
        ParsedItem::Struct(structure) => Item::Struct(
            convert_struct(
                struct_name(structure),
                struct_visibility(structure),
                struct_fields(structure),
            ),
        ),
        ParsedItem::Enum(enumeration) => Item::Enum(
            convert_enum(
                enum_name(enumeration),
                enum_visibility(enumeration),
                enum_variants(enumeration),
            ),
        ),
        ParsedItem::Module(module) => Item::Module(
            convert_module(module_name(module), module_visibility(module)),
        ),
        ParsedItem::Use(import) => Item::Use(convert_use(use_path(import))),
        ParsedItem::Impl(implementation) => Item::Other(impl_tokens(implementation)),
        ParsedItem::Other(text) => Item::Other(text.clone()),
    }
}

/// What reading `code` as a Rust source file gives: `result` holds one
/// record for each item that `syn::parse_file` finds at the top level, of
/// the kind of that item and in the order of the file, or the parser's
/// error where it refuses `code`.
pub open spec fn is_ast_of(result: Result<SerializableAst, syn::Error>, code: Seq<char>) -> bool {
    match result {
        Ok(ast) => rust_items(code) matches Some(shapes) && are_records_of(ast.items@, shapes),
        Err(_) => rust_items(code) is None,
    }
}

/// Reads `code` as a Rust source file and gives one record for each item
/// at its top level, in the order of the file. Text that is not a Rust
/// source file gives the parser's error.
pub fn parse_rust_ast(code: &str) -> (result: Result<SerializableAst, syn::Error>)
    ensures
        is_ast_of(result, code@),
{
    match parse_items(code) {
        Ok(parsed) => {
            let ghost shapes = shapes_of(parsed@);
            let mut items: Vec<Item> = Vec::new();
            let mut i: usize = 0;
            while i < parsed.len()
                invariant
                    i <= parsed.len(),
                    items@.len() == i,
                    shapes == shapes_of(parsed@),
                    forall|k: int| 0 <= k < i ==> is_record_of(#[trigger] items@[k], shapes[k]),
                decreases parsed.len() - i,
            {
                items.push(convert_item(&parsed[i]));
                i += 1;
            }
            Ok(SerializableAst { items })
        },
        Err(error) => Err(error),
    }
}

/// `language` names Rust: it is `rust` or `rs`.
pub open spec fn names_rust(language: Option<Seq<char>>) -> bool {
    language == Some("rust"@) || language == Some("rs"@)
}

impl CodeBlock {
    /// The items of the block where its language is Rust, and no items
    /// for a block in any other language or in none.
    pub fn parse(&self) -> (result: Result<SerializableAst, syn::Error>)
        ensures
            if names_rust(self@.language) {
                is_ast_of(result, self.content@)
            } else {
                result matches Ok(ast) && ast.items@.len() == 0
            },
    {
        let rust = match &self.language {
            Some(language) => *language == "rust".to_owned() || *language == "rs".to_owned(),
            None => false,
        };
        if rust {
            parse_rust_ast(self.content.as_str())
        } else {
            Ok(SerializableAst { items: Vec::new() })
        }
    }
}

} // verus!
