//! A mathematical model of the storage layer: what is stored per chain, what
//! each request does to it, and which answers it gives.

use vstd::prelude::*;
use crate::chain::Chain;
use crate::db::Block;
use crate::task::{ActionView, Event};

verus! {

/// The stored records: blocks keyed by chain and block number, and the
/// highest block number of each chain that has one.
pub struct Store {
    pub blocks: Map<(Chain, u64), Block>,
    pub highest: Map<Chain, u64>,
}

impl Store {
    pub open spec fn block(self, chain: Chain, number: u64) -> Option<Block> {
        if self.blocks.dom().contains((chain, number)) {
            Some(self.blocks[(chain, number)])
        } else {
            None
        }
    }

    pub open spec fn highest_block_number(self, chain: Chain) -> Option<u64> {
        if self.highest.dom().contains(chain) {
            Some(self.highest[chain])
        } else {
            None
        }
    }

    /// The store once the driver has carried out `action`. A block is stored
    /// under its own chain and number; reads and remote calls change nothing.
    pub open spec fn after(self, action: ActionView) -> Store {
        match action {
            ActionView::StoreBlock(block) => Store {
                blocks: self.blocks.insert((block.chain, block.block_number), block),
                highest: self.highest,
            },
            ActionView::StoreHighestBlockNumber(chain, number) => Store {
                blocks: self.blocks,
                highest: self.highest.insert(chain, number),
            },
            ActionView::RemoveBlocks(chain, numbers) => Store {
                blocks: self.blocks.remove_keys(
                    Set::new(|key: (Chain, u64)| key.0 == chain && numbers.contains(key.1)),
                ),
                highest: self.highest,
            },
            _ => self,
        }
    }

    /// `event` is an answer that the driver may give to `action` on this
    /// store. What is read from storage is fixed by the store; what the
    /// remote node says is not.
    pub open spec fn answers(self, action: ActionView, event: Event) -> bool {
        match action {
            ActionView::LoadHighestBlockNumber(chain) => event == Event::HighestBlockNumber(
                self.highest_block_number(chain),
            ),
            ActionView::LoadBlock(chain, number) => event == Event::Loaded(self.block(chain, number)),
            ActionView::FetchLatestBlockNumber(_) => event is LatestBlockNumber,
            ActionView::FetchBlock(_, _) => event is Fetched,
            _ => event == Event::Done,
        }
    }
}

/// A block that has been stored is read back as it was, and nothing else
/// that is stored changes.
pub proof fn stored_block_is_loaded_back(store: Store, block: Block)
    ensures
        store.after(ActionView::StoreBlock(block)).block(block.chain, block.block_number) == Some(
            block,
        ),
        store.after(ActionView::StoreBlock(block)).highest == store.highest,
        forall|chain: Chain, number: u64|
            (chain, number) != (block.chain, block.block_number) ==> store.after(
                ActionView::StoreBlock(block),
            ).block(chain, number) == store.block(chain, number),
{
}

} // verus!
