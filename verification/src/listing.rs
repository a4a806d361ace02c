//! The transaction listing: a monospace block with one entry for each
//! transaction of a reply, shown as the first attachment of the message.

use crate::message::{Attachment, AttachmentView, ColorTag};
use crate::text::{decimal, push_decimal, push_signed_decimal, signed_decimal};
use crate::types::{RawTxInput, RawTxView};
use vstd::prelude::*;
use vstd::seq_lib::lemma_flatten_concat;

verus! {

/// The line that precedes the first entry and closes each entry.
pub open spec fn separator_line() -> Seq<char> {
    "----------------------------------------\n"@
}

/// A text followed by a line break.
pub open spec fn line(text: Seq<char>) -> Seq<char> {
    text + "\n"@
}

/// The description line of a transaction: present exactly when the
/// transaction has a description.
pub open spec fn description_line(description: Option<Seq<char>>) -> Seq<char> {
    match description {
        Some(text) => line("Description: "@ + text),
        None => Seq::empty(),
    }
}

/// The lines that every transaction shows: its number, chain and
/// destination.
pub open spec fn entry_head(position: nat, tx: RawTxView) -> Seq<char> {
    line("Transaction #"@ + decimal(position)) + line("Chain ID: "@ + signed_decimal(tx.chain_id))
        + line("To: "@ + tx.to_address)
}

/// The block of the transaction at 1-based `position`: the lines that every
/// transaction shows, its description if it has one, and a closing
/// separator. The payload and the short description are not shown.
pub open spec fn tx_entry(position: nat, tx: RawTxView) -> Seq<char> {
    entry_head(position, tx) + description_line(tx.description) + separator_line()
}

/// One block per transaction, in the order of the list, the block of the
/// element at index `i` numbered `i + 1`.
pub open spec fn tx_blocks(txs: Seq<RawTxView>) -> Seq<Seq<char>> {
    Seq::new(txs.len(), |i: int| tx_entry((i + 1) as nat, txs[i]))
}

/// The blocks of all transactions, one after the other.
pub open spec fn tx_entries(txs: Seq<RawTxView>) -> Seq<char> {
    tx_blocks(txs).flatten()
}

/// What opens the listing: the fence, the heading and a first separator.
pub open spec fn listing_head() -> Seq<char> {
    "```\nTransaction Details:\n"@ + separator_line()
}

/// The fenced listing: the opening, the blocks, the closing fence.
pub open spec fn tx_listing(txs: Seq<RawTxView>) -> Seq<char> {
    listing_head() + tx_entries(txs) + "```"@
}

/// The attachment that lists `txs`.
pub open spec fn transactions_view(txs: Seq<RawTxView>) -> AttachmentView {
    AttachmentView { title: "Transactions"@, body: tx_listing(txs), color_tag: ColorTag::Success }
}

fn push_entry(out: &mut String, position: usize, tx: &RawTxInput)
    ensures
        final(out)@ == old(out)@ + tx_entry(position as nat, tx@),
{
    out.append("Transaction #");
    push_decimal(out, position as u64);
    out.append("\n");
    out.append("Chain ID: ");
    push_signed_decimal(out, tx.chain_id);
    out.append("\n");
    out.append("To: ");
    out.append(tx.to_address.as_str());
    out.append("\n");
    match &tx.description {
        Some(text) => {
            out.append("Description: ");
            out.append(text.as_str());
            out.append("\n");
        },
        None => {},
    }
    out.append("----------------------------------------\n");
    assert(out@ =~= old(out)@ + tx_entry(position as nat, tx@));
}

/// Builds the attachment that lists the given transactions, in their order.
/// Whether a list is shown at all is the caller's decision: an empty list
/// gives a listing without entries.
pub fn transactions_attachment(txs: &Vec<RawTxInput>) -> (attachment: Attachment)
    ensures
        attachment@ == transactions_view(txs.deep_view()),
{
    let mut body: String = "```\nTransaction Details:\n".to_owned();
    body.append("----------------------------------------\n");
    let ghost blocks = tx_blocks(txs.deep_view());
    assert(blocks.take(0) =~= Seq::<Seq<char>>::empty());
    let mut i: usize = 0;
    while i < txs.len()
        invariant
            i <= txs.len(),
            blocks == tx_blocks(txs.deep_view()),
            body@ == listing_head() + blocks.take(i as int).flatten(),
        decreases txs.len() - i,
    {
        proof {
            assert(blocks.take(i + 1) =~= blocks.take(i as int).push(blocks[i as int]));
            blocks.take(i as int).lemma_flatten_push(blocks[i as int]);
        }
        push_entry(&mut body, i + 1, &txs[i]);
        i += 1;
    }
    assert(blocks.take(i as int) =~= blocks);
    body.append("```");
    Attachment { title: "Transactions".to_owned(), body, color_tag: ColorTag::Success }
}

/// Where in the listing the block of the transaction at index `k` begins.
/// For `k` the length of the list, where the last block ends.
pub open spec fn block_start(txs: Seq<RawTxView>, k: int) -> int {
    (listing_head().len() + tx_blocks(txs).take(k).flatten().len()) as int
}

/// The listing holds exactly one block for each transaction, in the order of
/// the list and numbered from 1: the block of the transaction at index `k`
/// is that of position `k + 1`, the first block begins right after the
/// opening, each block ends where the next begins, and the last ends at the
/// closing fence.
pub proof fn listing_holds_each_block(txs: Seq<RawTxView>, k: int)
    requires
        0 <= k < txs.len(),
    ensures
        tx_blocks(txs).len() == txs.len(),
        tx_blocks(txs)[k] == tx_entry((k + 1) as nat, txs[k]),
        block_start(txs, 0) == listing_head().len(),
        block_start(txs, k + 1) == block_start(txs, k) + tx_blocks(txs)[k].len(),
        block_start(txs, txs.len() as int) + "```"@.len() == tx_listing(txs).len(),
        tx_listing(txs).subrange(block_start(txs, k), block_start(txs, k + 1)) == tx_blocks(
            txs,
        )[k],
{
    let blocks = tx_blocks(txs);
    let before = blocks.take(k);
    let upto = blocks.take(k + 1);
    let after = blocks.skip(k + 1);
    assert(blocks.take(0) =~= Seq::<Seq<char>>::empty());
    assert(blocks.take(txs.len() as int) =~= blocks);
    assert(upto =~= before.push(blocks[k]));
    before.lemma_flatten_push(blocks[k]);
    assert(blocks =~= upto + after);
    lemma_flatten_concat(upto, after);
    assert(tx_listing(txs) =~= listing_head() + before.flatten() + blocks[k] + after.flatten()
        + "```"@);
    assert(tx_listing(txs).subrange(block_start(txs, k), block_start(txs, k + 1)) =~= blocks[k]);
}

/// The description line stands in the block of a transaction if and only if
/// the transaction has a description: without one, the separator follows the
/// destination line directly.
pub proof fn description_shown_iff_present(position: nat, tx: RawTxView)
    ensures
        tx.description is None ==> tx_entry(position, tx) == entry_head(position, tx)
            + separator_line(),
        tx.description is Some ==> tx_entry(position, tx) == entry_head(position, tx) + line(
            "Description: "@ + tx.description->0,
        ) + separator_line(),
        description_line(tx.description).len() > 0 <==> tx.description is Some,
{
    reveal_strlit("\n");
    if tx.description is None {
        assert(tx_entry(position, tx) =~= entry_head(position, tx) + separator_line());
    }
}

} // verus!
