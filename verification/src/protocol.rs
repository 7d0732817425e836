//! The i3bar protocol: the header that starts the status stream and the
//! blocks that make up each status line.
use vstd::prelude::*;

use crate::bar::RenderedWidget;
use crate::errors::clone_opt_string;
use crate::output::color::Color;

verus! {

/// The first message in the protocol.
#[derive(Clone, Debug, Eq, PartialEq, Structural)]
pub struct Header {
    /// The version number of the i3bar protocol in use.
    pub version: usize,
    /// The signal that i3bar should send to pause the output (SIGSTOP where
    /// none is given).
    pub stop_signal: Option<usize>,
    /// The signal that i3bar should send to resume the output (SIGCONT where
    /// none is given).
    pub cont_signal: Option<usize>,
    /// Whether i3bar should write click events to the standard input.
    pub click_events: Option<bool>,
}

impl Default for Header {
    fn default() -> (res: Header)
        ensures
            res == (Header { version: 1, stop_signal: None, cont_signal: None, click_events: Some(true) }),
    {
        Header { version: 1, stop_signal: None, cont_signal: None, click_events: Some(true) }
    }
}

impl Header {
    /// The header of protocol version 1, with click events.
    pub fn new() -> (res: Header)
        ensures
            res == (Header { version: 1, stop_signal: None, cont_signal: None, click_events: Some(true) }),
    {
        Header::default()
    }
}

/// The minimum width of a block.
#[derive(Debug)]
pub enum BlockWidth {
    Pixels(usize),
    /// The width of the text determines the width of the block.
    Text(String),
}

impl Clone for BlockWidth {
    fn clone(&self) -> (res: BlockWidth)
        ensures
            res == *self,
    {
        match self {
            BlockWidth::Pixels(p) => BlockWidth::Pixels(*p),
            BlockWidth::Text(t) => BlockWidth::Text(t.clone()),
        }
    }
}

fn clone_opt_color(o: &Option<Color>) -> (res: Option<Color>)
    ensures
        res == *o,
{
    match o {
        Some(c) => Some(c.clone()),
        None => None,
    }
}

/// How the text of a block is aligned where it is narrower than the
/// minimum width.
#[derive(Clone, Copy, Debug, Eq, PartialEq, Structural)]
pub enum Alignment {
    Center,
    Right,
    Left,
}

impl Default for Alignment {
    fn default() -> (res: Alignment)
        ensures
            res == Alignment::Left,
    {
        Alignment::Left
    }
}

/// How the text of a block is parsed: as it is, or as Pango markup.
#[derive(Clone, Copy, Debug, Eq, PartialEq, Structural)]
pub enum Markup {
    Plain,
    Pango,
}

impl Default for Markup {
    fn default() -> (res: Markup)
        ensures
            res == Markup::Plain,
    {
        Markup::Plain
    }
}

/// The contents of the status line for one module.
#[derive(Debug)]
pub struct Block {
    /// The text; a block whose text is empty is skipped.
    pub full_text: String,
    /// The text used where the status line has to be shortened.
    pub short_text: Option<String>,
    /// The color of the text.
    pub color: Option<Color>,
    /// The background color.
    pub background: Option<Color>,
    /// The border color.
    pub border: Option<Color>,
    /// The width in pixels of the top border.
    pub border_top: Option<usize>,
    /// The width in pixels of the right border.
    pub border_right: Option<usize>,
    /// The width in pixels of the bottom border.
    pub border_bottom: Option<usize>,
    /// The width in pixels of the left border.
    pub border_left: Option<usize>,
    /// The minimum width of the block.
    pub min_width: Option<BlockWidth>,
    /// The alignment of the text where it is narrower than `min_width`.
    pub align: Alignment,
    /// Whether the value is urgent.
    pub urgent: Option<bool>,
    /// The name of the block.
    pub name: Option<String>,
    /// The instance of the block, where a module has several.
    pub instance: Option<String>,
    /// Whether a separator line is drawn after the block.
    pub separator: Option<bool>,
    /// The blank pixels after the block.
    pub separator_block_width: Option<usize>,
    /// How the text is parsed.
    pub markup: Markup,
}

/// The view of an optional color.
pub open spec fn opt_color(c: Option<Color>) -> Option<Seq<char>> {
    match c {
        Some(c) => Some(c@),
        None => None,
    }
}

/// The settings that every block has unless they are set: white text on a
/// black background with a grey border one pixel wide, left aligned, with a
/// separator and 9 blank pixels after it, plain text.
pub open spec fn has_block_defaults(b: Block) -> bool {
    &&& opt_color(b.color) == Some("#ffffff"@)
    &&& b.name is None
    &&& b.instance is None
    &&& b.markup == Markup::Plain
    &&& has_block_style_defaults(b)
}

/// The default settings of a block, but for its text, color, name,
/// instance and markup.
pub open spec fn has_block_style_defaults(b: Block) -> bool {
    &&& b.short_text is None
    &&& opt_color(b.background) == Some("#000000"@)
    &&& opt_color(b.border) == Some("#222222"@)
    &&& b.border_top == Some(1usize)
    &&& b.border_right == Some(1usize)
    &&& b.border_bottom == Some(1usize)
    &&& b.border_left == Some(1usize)
    &&& b.min_width is None
    &&& b.align == Alignment::Left
    &&& b.urgent is None
    &&& b.separator == Some(true)
    &&& b.separator_block_width == Some(9usize)
}

impl Default for Block {
    fn default() -> (res: Block)
        ensures
            res.full_text@ == Seq::<char>::empty(),
            has_block_defaults(res),
    {
        proof {
            reveal_strlit("#000000");
            reveal_strlit("#222222");
            crate::output::color::lemma_byte_len("#000000"@);
            crate::output::color::lemma_byte_len("#222222"@);
        }
        Block {
            full_text: String::new(),
            short_text: None,
            color: Some(Color::default()),
            background: Some(Color::known("#000000")),
            border: Some(Color::known("#222222")),
            border_top: Some(1),
            border_right: Some(1),
            border_bottom: Some(1),
            border_left: Some(1),
            min_width: None,
            align: Alignment::Left,
            urgent: None,
            name: None,
            instance: None,
            separator: Some(true),
            separator_block_width: Some(9),
            markup: Markup::Plain,
        }
    }
}

impl Clone for Block {
    fn clone(&self) -> (res: Block)
        ensures
            res == *self,
    {
        Block {
            full_text: self.full_text.clone(),
            short_text: clone_opt_string(&self.short_text),
            color: clone_opt_color(&self.color),
            background: clone_opt_color(&self.background),
            border: clone_opt_color(&self.border),
            border_top: self.border_top,
            border_right: self.border_right,
            border_bottom: self.border_bottom,
            border_left: self.border_left,
            min_width: match &self.min_width {
                Some(w) => Some(w.clone()),
                None => None,
            },
            align: self.align,
            urgent: self.urgent,
            name: clone_opt_string(&self.name),
            instance: clone_opt_string(&self.instance),
            separator: self.separator,
            separator_block_width: self.separator_block_width,
            markup: self.markup,
        }
    }
}

impl Block {
    /// A block with `full_text` and every other setting at its default.
    pub fn new(full_text: String) -> (res: Block)
        ensures
            res.full_text@ == full_text@,
            has_block_defaults(res),
    {
        Block { full_text, ..Block::default() }
    }
}

/// The i3bar blocks among `rendered`, in order.
pub open spec fn i3_blocks(rendered: Seq<RenderedWidget>) -> Seq<Block>
    decreases rendered.len(),
{
    if rendered.len() == 0 {
        Seq::empty()
    } else {
        let before = i3_blocks(rendered.drop_last());
        match rendered.last() {
            RenderedWidget::I3Block(b) => before.push(b),
            _ => before,
        }
    }
}

/// The blocks of a status line: the i3bar blocks among the rendered widgets,
/// in order.
pub fn status_blocks(rendered_widgets: &[RenderedWidget]) -> (res: Vec<Block>)
    ensures
        res@ == i3_blocks(rendered_widgets@),
{
    let mut res: Vec<Block> = Vec::new();
    let mut i: usize = 0;
    while i < rendered_widgets.len()
        invariant
            i <= rendered_widgets@.len(),
            res@ == i3_blocks(rendered_widgets@.take(i as int)),
        decreases rendered_widgets.len() - i,
    {
        assert(rendered_widgets@.take(i + 1).drop_last() =~= rendered_widgets@.take(i as int));
        if let RenderedWidget::I3Block(b) = &rendered_widgets[i] {
            res.push(b.clone());
        }
        i = i + 1;
    }
    assert(rendered_widgets@.take(i as int) =~= rendered_widgets@);
    res
}

/// The click events that i3bar writes (none are handled).
#[derive(Clone, Copy, Debug, Default, Eq, PartialEq)]
pub struct ClickEvent;

/// The blocks of the widgets of `a` then `b` are the blocks of `a`, then
/// those of `b`.
proof fn lemma_i3_blocks_append(a: Seq<RenderedWidget>, b: Seq<RenderedWidget>)
    ensures
        i3_blocks(a + b) == i3_blocks(a) + i3_blocks(b),
    decreases b.len(),
{
    if b.len() == 0 {
        assert(a + b =~= a);
        assert(i3_blocks(a) + i3_blocks(b) =~= i3_blocks(a));
    } else {
        lemma_i3_blocks_append(a, b.drop_last());
        assert((a + b).drop_last() =~= a + b.drop_last());
        assert((a + b).last() == b.last());
        match b.last() {
            RenderedWidget::I3Block(x) => {
                assert(i3_blocks(a) + i3_blocks(b.drop_last()).push(x) =~= (i3_blocks(a) + i3_blocks(
                    b.drop_last(),
                )).push(x));
            },
            _ => {},
        }
    }
}

proof fn lemma_i3_blocks_of_blocks(blocks: Seq<Block>)
    ensures
        i3_blocks(blocks.map_values(|x: Block| RenderedWidget::I3Block(x))) == blocks,
    decreases blocks.len(),
{
    if blocks.len() > 0 {
        lemma_i3_blocks_of_blocks(blocks.drop_last());
        let w = blocks.map_values(|x: Block| RenderedWidget::I3Block(x));
        assert(w.drop_last() =~= blocks.drop_last().map_values(|x: Block| RenderedWidget::I3Block(x)));
        assert(w.last() == RenderedWidget::I3Block(blocks.last()));
        assert(blocks.drop_last().push(blocks.last()) =~= blocks);
    }
}

proof fn lemma_i3_blocks_none(a: Seq<RenderedWidget>)
    requires
        forall|i: int| 0 <= i < a.len() ==> !(#[trigger] a[i] is I3Block),
    ensures
        i3_blocks(a) == Seq::<Block>::empty(),
    decreases a.len(),
{
    if a.len() > 0 {
        let init = a.drop_last();
        assert forall|i: int| 0 <= i < init.len() implies !(#[trigger] init[i] is I3Block) by {
            assert(init[i] == a[i]);
        }
        lemma_i3_blocks_none(init);
        assert(!(a[a.len() - 1] is I3Block));
    }
}

/// The status line keeps the order of the modules: the blocks of two lists
/// of rendered widgets one after the other are the blocks of the first,
/// then those of the second; a list of blocks alone gives those very
/// blocks, in the same order; widgets that are not blocks give none.
pub proof fn lemma_status_blocks_in_order(a: Seq<RenderedWidget>, b: Seq<RenderedWidget>, blocks: Seq<Block>)
    ensures
        i3_blocks(a + b) == i3_blocks(a) + i3_blocks(b),
        i3_blocks(blocks.map_values(|x: Block| RenderedWidget::I3Block(x))) == blocks,
        (forall|i: int| 0 <= i < a.len() ==> !(#[trigger] a[i] is I3Block)) ==> i3_blocks(a) == Seq::<
            Block,
        >::empty(),
{
    lemma_i3_blocks_append(a, b);
    lemma_i3_blocks_of_blocks(blocks);
    if forall|i: int| 0 <= i < a.len() ==> !(#[trigger] a[i] is I3Block) {
        lemma_i3_blocks_none(a);
    }
}

} // verus!
