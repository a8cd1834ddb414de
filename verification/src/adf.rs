//! The part of the Atlassian Document Format that the client reads: a
//! document is a list of blocks, a block a list of inline nodes, and an inline
//! node may carry text.

use vstd::prelude::*;
use crate::text::{join, string_views, join_strings};
use crate::issue::opt_text;

verus! {

/// An inline node; `text` holds its "text" member where that is a string.
pub struct AdfInline {
    pub text: Option<String>,
}

/// A block node; `content` holds its "content" member where that is an array.
pub struct AdfBlock {
    pub content: Option<Vec<AdfInline>>,
}

/// A whole document; `content` holds its "content" member where that is an array.
pub struct AdfDoc {
    pub content: Option<Vec<AdfBlock>>,
}

/// The texts of the inline nodes that carry one, in order.
pub open spec fn inline_texts(inlines: Seq<AdfInline>) -> Seq<Seq<char>>
    decreases inlines.len(),
{
    if inlines.len() == 0 {
        Seq::empty()
    } else {
        let rest = inline_texts(inlines.drop_last());
        match inlines.last().text {
            Some(t) => rest.push(t@),
            None => rest,
        }
    }
}

/// The text of a block: its inline texts joined by `sep`, or nothing where
/// the block has no content array.
pub open spec fn block_text(block: AdfBlock, sep: Seq<char>) -> Option<Seq<char>> {
    match block.content {
        Some(v) => Some(join(inline_texts(v@), sep)),
        None => None,
    }
}

/// The texts of the blocks that have one, in order.
pub open spec fn block_texts(blocks: Seq<AdfBlock>, sep: Seq<char>) -> Seq<Seq<char>>
    decreases blocks.len(),
{
    if blocks.len() == 0 {
        Seq::empty()
    } else {
        let rest = block_texts(blocks.drop_last(), sep);
        match block_text(blocks.last(), sep) {
            Some(t) => rest.push(t),
            None => rest,
        }
    }
}

/// The plain text of an issue description: one line per block with content,
/// the inline texts of a block separated by a space; nothing where that text
/// is empty.
pub open spec fn description_text(blocks: Seq<AdfBlock>) -> Option<Seq<char>> {
    let t = join(block_texts(blocks, " "@), "\n"@);
    if t.len() == 0 {
        None
    } else {
        Some(t)
    }
}

/// The text that stands in for a comment body without a content array.
pub open spec fn unparsable_comment_text() -> Seq<char> {
    "Unable to parse comment content"@
}

/// The plain text of a comment body: one line per block with content, the
/// inline texts of a block run together.
pub open spec fn document_text(doc: AdfDoc) -> Seq<char> {
    match doc.content {
        Some(blocks) => join(block_texts(blocks@, ""@), "\n"@),
        None => unparsable_comment_text(),
    }
}

/// Collects the texts of the inline nodes that carry one.
pub fn inline_text_parts(inlines: &Vec<AdfInline>) -> (res: Vec<String>)
    ensures
        string_views(res@) == inline_texts(inlines@),
{
    let mut res: Vec<String> = Vec::new();
    let mut i: usize = 0;
    while i < inlines.len()
        invariant
            i <= inlines.len(),
            string_views(res@) == inline_texts(inlines@.take(i as int)),
        decreases inlines.len() - i,
    {
        proof {
            assert(inlines@.take(i + 1).drop_last() =~= inlines@.take(i as int));
        }
        match &inlines[i].text {
            Some(t) => {
                res.push(t.clone());
                assert(string_views(res@) =~= inline_texts(inlines@.take(i as int)).push(t@));
            },
            None => {},
        }
        i = i + 1;
    }
    proof {
        assert(inlines@.take(inlines.len() as int) =~= inlines@);
    }
    res
}

/// The text of one block, its inline texts joined by `sep`.
pub fn block_text_of(block: &AdfBlock, sep: &str) -> (res: Option<String>)
    ensures
        opt_text(res) == block_text(*block, sep@),
{
    match &block.content {
        Some(inlines) => {
            let parts = inline_text_parts(inlines);
            Some(join_strings(&parts, sep))
        },
        None => None,
    }
}

/// Collects the texts of the blocks that have content.
pub fn block_text_parts(blocks: &Vec<AdfBlock>, sep: &str) -> (res: Vec<String>)
    ensures
        string_views(res@) == block_texts(blocks@, sep@),
{
    let mut res: Vec<String> = Vec::new();
    let mut i: usize = 0;
    while i < blocks.len()
        invariant
            i <= blocks.len(),
            string_views(res@) == block_texts(blocks@.take(i as int), sep@),
        decreases blocks.len() - i,
    {
        proof {
            assert(blocks@.take(i + 1).drop_last() =~= blocks@.take(i as int));
        }
        let t = block_text_of(&blocks[i], sep);
        match t {
            Some(t) => {
                res.push(t);
                assert(string_views(res@) =~= block_texts(blocks@.take(i as int), sep@).push(t@));
            },
            None => {},
        }
        i = i + 1;
    }
    proof {
        assert(blocks@.take(blocks.len() as int) =~= blocks@);
    }
    res
}

/// The plain text of an issue description, or nothing where it is empty.
pub fn description_from_blocks(blocks: &Vec<AdfBlock>) -> (res: Option<String>)
    ensures
        opt_text(res) == description_text(blocks@),
{
    let parts = block_text_parts(blocks, " ");
    let joined = join_strings(&parts, "\n");
    if joined.as_str().is_empty() {
        None
    } else {
        Some(joined)
    }
}

/// The plain text of a comment body.
pub fn document_text_of(doc: &AdfDoc) -> (res: String)
    ensures
        res@ == document_text(*doc),
{
    match &doc.content {
        Some(blocks) => {
            let parts = block_text_parts(blocks, "");
            join_strings(&parts, "\n")
        },
        None => "Unable to parse comment content".to_owned(),
    }
}

} // verus!
