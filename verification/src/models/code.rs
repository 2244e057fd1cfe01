//! Code found in Markdown, and the outline of Rust source.

use crate::utils::{
    enum_name, function_name, impl_function_names, impl_self_type, parse_items, rust_items,
    shapes_of, ItemShape,
    struct_name, ParsedItem,
};
use pulldown_cmark::{CodeBlockKind, Event, Parser, Tag};
use vstd::prelude::*;
use vstd::string::StringExecFns;

verus! {

/// A code block of a Markdown text.
#[derive(Debug, Clone)]
pub struct CodeBlock {
    /// The language that the block names, if it names one.
    pub language: Option<String>,
    /// The text of the block.
    pub content: String,
}

/// A code block with its texts as sequences of characters.
pub struct CodeBlockView {
    pub language: Option<Seq<char>>,
    pub content: Seq<char>,
}

impl View for CodeBlock {
    type V = CodeBlockView;

    open spec fn view(&self) -> CodeBlockView {
        CodeBlockView {
            language: match self.language {
                Some(language) => Some(language@),
                None => None,
            },
            content: self.content@,
        }
    }
}

/// The views of a list of blocks.
pub open spec fn block_views(blocks: Seq<CodeBlock>) -> Seq<CodeBlockView> {
    blocks.map_values(|block: CodeBlock| block@)
}

/// An item of Rust source in outline: what kind of item it is, how it is
/// called, and the items inside it.
#[derive(Debug)]
pub struct AstNode {
    pub kind: String,
    pub content: String,
    pub children: Vec<AstNode>,
}

/// The two vectors of a piece of source code: one of its text and one of
/// its syntax tree. Components are bit patterns of single-precision
/// numbers.
#[derive(Debug, Clone)]
pub struct CodeEmbedding {
    pub text_embedding: Vec<u32>,
    pub ast_embedding: Vec<u32>,
}

/// What the Markdown parser reports, as far as code blocks go.
#[derive(Debug, Clone)]
pub enum MarkdownEvent {
    /// A code block begins. A fenced block carries what stands after its
    /// fence, which may be empty; an indented block carries nothing.
    CodeBlockStart(Option<String>),
    /// A run of text.
    Text(String),
    /// A code block ends.
    CodeBlockEnd,
    /// Anything else.
    Other,
}

/// [`MarkdownEvent`] with its texts as sequences of characters.
pub enum MarkdownEventView {
    CodeBlockStart(Option<Seq<char>>),
    Text(Seq<char>),
    CodeBlockEnd,
    Other,
}

impl View for MarkdownEvent {
    type V = MarkdownEventView;

    open spec fn view(&self) -> MarkdownEventView {
        match self {
            MarkdownEvent::CodeBlockStart(Some(language)) => MarkdownEventView::CodeBlockStart(
                Some(language@),
            ),
            MarkdownEvent::CodeBlockStart(None) => MarkdownEventView::CodeBlockStart(None),
            MarkdownEvent::Text(text) => MarkdownEventView::Text(text@),
            MarkdownEvent::CodeBlockEnd => MarkdownEventView::CodeBlockEnd,
            MarkdownEvent::Other => MarkdownEventView::Other,
        }
    }
}

/// The views of a list of events.
pub open spec fn event_views(events: Seq<MarkdownEvent>) -> Seq<MarkdownEventView> {
    events.map_values(|event: MarkdownEvent| event@)
}

/// The events that `pulldown_cmark::Parser` reports for `markdown`, in
/// its order, each reduced to what it says about code blocks.
pub uninterp spec fn markdown_events(markdown: Seq<char>) -> Seq<MarkdownEventView>;

/// Runs `pulldown_cmark::Parser::new` over `markdown` and reduces each
/// event it yields: the start of a code block keeps the text after the
/// fence, a text keeps its characters, the end of a code block and every
/// other event keep nothing. The events depend on the text alone; the
/// contract gives them their name and claims nothing else.
#[verifier::external_body]
pub(crate) fn parse_markdown(markdown: &str) -> (events: Vec<MarkdownEvent>)
    ensures
        event_views(events@) == markdown_events(markdown@),
{
    Parser::new(markdown).map(|event| match event {
        Event::Start(Tag::CodeBlock(CodeBlockKind::Fenced(info))) => {
            MarkdownEvent::CodeBlockStart(Some(info.to_string()))
        },
        Event::Start(Tag::CodeBlock(CodeBlockKind::Indented)) => MarkdownEvent::CodeBlockStart(None),
        Event::Text(text) => MarkdownEvent::Text(text.to_string()),
        Event::End(Tag::CodeBlock(_)) => MarkdownEvent::CodeBlockEnd,
        _ => MarkdownEvent::Other,
    }).collect()
}

/// What reading a run of events has found: the blocks that are complete,
/// and the block that is open, if one is.
pub struct Scan {
    pub blocks: Seq<CodeBlockView>,
    pub open: Option<CodeBlockView>,
}

impl Scan {
    /// The scan before any event.
    pub open spec fn start() -> Scan {
        Scan { blocks: Seq::empty(), open: None }
    }

    /// The scan after one more event. The start of a code block opens a
    /// new block, dropping one that was still open; text goes to the open
    /// block and is passed over where none is open; the end of a code block
    /// completes the open block.
    pub open spec fn step(self, event: MarkdownEventView) -> Scan {
        match event {
            MarkdownEventView::CodeBlockStart(language) => Scan {
                blocks: self.blocks,
                open: Some(CodeBlockView { language, content: Seq::empty() }),
            },
            MarkdownEventView::Text(text) => match self.open {
                Some(block) => Scan {
                    blocks: self.blocks,
                    open: Some(
                        CodeBlockView { language: block.language, content: block.content + text },
                    ),
                },
                None => self,
            },
            MarkdownEventView::CodeBlockEnd => match self.open {
                Some(block) => Scan { blocks: self.blocks.push(block), open: None },
                None => self,
            },
            MarkdownEventView::Other => self,
        }
    }

    /// The scan after the first `n` of `events`.
    pub open spec fn after(events: Seq<MarkdownEventView>, n: int) -> Scan
        decreases n,
    {
        if n <= 0 {
            Scan::start()
        } else {
            Scan::after(events, n - 1).step(events[n - 1])
        }
    }
}

/// The code blocks that a run of events describes: those that were
/// completed, in the order in which they ended.
pub open spec fn blocks_of(events: Seq<MarkdownEventView>) -> Seq<CodeBlockView> {
    Scan::after(events, events.len() as int).blocks
}

/// Collects the code blocks that a run of parser events describes.
pub fn collect_code_blocks(events: &Vec<MarkdownEvent>) -> (blocks: Vec<CodeBlock>)
    ensures
        block_views(blocks@) == blocks_of(event_views(events@)),
{
    let ghost seen = event_views(events@);
    let mut blocks: Vec<CodeBlock> = Vec::new();
    let mut open = false;
    let mut language: Option<String> = None;
    let mut content = String::new();
    let mut i: usize = 0;
    assert(block_views(blocks@) =~= Seq::empty());
    while i < events.len()
        invariant
            i <= events.len(),
            seen == event_views(events@),
            block_views(blocks@) == Scan::after(seen, i as int).blocks,
            match Scan::after(seen, i as int).open {
                Some(block) => open && block == (CodeBlock { language, content })@,
                None => !open,
            },
        decreases events.len() - i,
    {
        assert(seen[i as int] == events@[i as int]@);
        match &events[i] {
            MarkdownEvent::CodeBlockStart(named) => {
                language =
                match named {
                    Some(name) => Some(name.clone()),
                    None => None,
                };
                content = String::new();
                open = true;
            },
            MarkdownEvent::Text(text) => {
                if open {
                    content.append(text.as_str());
                }
            },
            MarkdownEvent::CodeBlockEnd => {
                if open {
                    let ghost before = block_views(blocks@);
                    let block = CodeBlock { language, content };
                    blocks.push(block);
                    assert(block_views(blocks@) =~= before.push(block@));
                    language = None;
                    content = String::new();
                    open = false;
                }
            },
            MarkdownEvent::Other => {},
        }
        i += 1;
    }
    blocks
}

/// Finds the code blocks of a Markdown text as the CommonMark parser sees
/// them, fenced and indented ones alike.
pub fn extract_code_blocks(markdown: &str) -> (blocks: Vec<CodeBlock>)
    ensures
        block_views(blocks@) == blocks_of(markdown_events(markdown@)),
{
    let events = parse_markdown(markdown);
    collect_code_blocks(&events)
}

/// The kind that the outline gives an item of the shape `shape`.
pub open spec fn kind_of(shape: ItemShape) -> Seq<char> {
    match shape {
        ItemShape::Function => "function"@,
        ItemShape::Struct => "struct"@,
        ItemShape::Enum => "enum"@,
        ItemShape::Impl => "impl"@,
        _ => "other"@,
    }
}

/// `node` stands for an item inside an `impl` block: a function or
/// something else, with nothing inside it.
pub open spec fn is_member(node: AstNode) -> bool {
    &&& node.kind@ == "function"@ || node.kind@ == "other"@
    &&& node.kind@ == "other"@ ==> node.content@.len() == 0
    &&& node.children@.len() == 0
}

/// `node` is a node of the outline of a source file: only an `impl`
/// block has nodes inside it, and those are its members.
pub open spec fn is_outline(node: AstNode) -> bool {
    &&& node.kind@ == "function"@ || node.kind@ == "struct"@ || node.kind@ == "enum"@
        || node.kind@ == "impl"@ || node.kind@ == "other"@
    &&& node.kind@ == "other"@ ==> node.content@.len() == 0
    &&& node.kind@ != "impl"@ ==> node.children@.len() == 0
    &&& forall|i: int| 0 <= i < node.children@.len() ==> is_member(#[trigger] node.children@[i])
}

proof fn lemma_kind_names()
    ensures
        "function"@.len() == 8,
        "struct"@.len() == 6,
        "enum"@.len() == 4,
        "impl"@.len() == 4,
        "other"@.len() == 5,
        "enum"@[0] == 'e',
        "impl"@[0] == 'i',
{
    reveal_strlit("function");
    reveal_strlit("struct");
    reveal_strlit("enum");
    reveal_strlit("impl");
    reveal_strlit("other");
}

fn leaf(kind: &str, content: String) -> (node: AstNode)
    ensures
        node.kind@ == kind@,
        node.content == content,
        node.children@.len() == 0,
{
    AstNode { kind: kind.to_owned(), content, children: Vec::new() }
}

fn parse_members(names: Vec<Option<String>>) -> (members: Vec<AstNode>)
    ensures
        members@.len() == names@.len(),
        forall|i: int| 0 <= i < members@.len() ==> is_member(#[trigger] members@[i]),
        forall|i: int|
            0 <= i < members@.len() ==> match names@[i] {
                Some(name) => (#[trigger] members@[i]).kind@ == "function"@ && members@[i].content
                    == name,
                None => members@[i].kind@ == "other"@,
            },
{
    let mut members: Vec<AstNode> = Vec::new();
    let mut i: usize = 0;
    proof {
        lemma_kind_names();
    }
    while i < names.len()
        invariant
            i <= names.len(),
            members@.len() == i,
            "function"@.len() == 8,
            "other"@.len() == 5,
            forall|k: int| 0 <= k < i ==> is_member(#[trigger] members@[k]),
            forall|k: int|
                0 <= k < i ==> match names@[k] {
                    Some(name) => (#[trigger] members@[k]).kind@ == "function"@
                        && members@[k].content == name,
                    None => members@[k].kind@ == "other"@,
                },
        decreases names.len() - i,
    {
        let member = match &names[i] {
            Some(name) => leaf("function", name.clone()),
            None => leaf("other", String::new()),
        };
        assert(is_member(member));
        members.push(member);
        i += 1;
    }
    members
}

fn parse_item(parsed: &ParsedItem) -> (node: AstNode)
    ensures
        node.kind@ == kind_of(parsed.shape()),
        is_outline(node),
{
    proof {
        lemma_kind_names();
    }
    let node = match parsed {
        ParsedItem::Function(function) => leaf("function", function_name(function)),
        ParsedItem::Struct(structure) => leaf("struct", struct_name(structure)),
        ParsedItem::Enum(enumeration) => leaf("enum", enum_name(enumeration)),
        ParsedItem::Impl(implementation) => AstNode {
            kind: "impl".to_owned(),
            content: impl_self_type(implementation),
            children: parse_members(impl_function_names(implementation)),
        },
        _ => leaf("other", String::new()),
    };
    assert(node.kind@ == "other"@ ==> node.content@.len() == 0);
    assert(node.kind@ != "impl"@ ==> node.children@.len() == 0);
    node
}

/// Reads `code` as a Rust source file and gives its outline: one node for
/// each item at its top level, in the order of the file. Functions,
/// structs and enums are named; an `impl` block holds a node for each of
/// its members; every other item is a node without a name.
pub fn parse_rust_ast(code: &str) -> (result: Result<Vec<AstNode>, syn::Error>)
    ensures
        match result {
            Ok(nodes) => {
                &&& rust_items(code@) matches Some(shapes) && nodes@.len() == shapes.len()
                    && forall|i: int|
                    0 <= i < nodes@.len() ==> (#[trigger] nodes@[i]).kind@ == kind_of(shapes[i])
                &&& forall|i: int| 0 <= i < nodes@.len() ==> is_outline(#[trigger] nodes@[i])
            },
            Err(_) => rust_items(code@) is None,
        },
{
    match parse_items(code) {
        Ok(parsed) => {
            let mut nodes: Vec<AstNode> = Vec::new();
            let mut i: usize = 0;
            let ghost shapes = shapes_of(parsed@);
            while i < parsed.len()
                invariant
                    i <= parsed.len(),
                    nodes@.len() == i,
                    shapes == shapes_of(parsed@),
                    forall|k: int| 0 <= k < i ==> (#[trigger] nodes@[k]).kind@ == kind_of(shapes[k]),
                    forall|k: int| 0 <= k < i ==> is_outline(#[trigger] nodes@[k]),
                decreases parsed.len() - i,
            {
                nodes.push(parse_item(&parsed[i]));
                i += 1;
            }
            Ok(nodes)
        },
        Err(error) => Err(error),
    }
}

} // verus!
