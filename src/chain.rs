//! The chain: an append-only sequence of mined blocks, and its validator.

use crate::block::{preimage, Block, Difficulty, MiningError};
use crate::decimal::{decimal, lemma_decimal_injective};
use crate::digest::sha256_hex;
use vstd::prelude::*;

verus! {

/// The leading-zero count that `Blockchain::new` mines with.
pub const DEFAULT_LEADING_ZEROS: usize = 4;

/// The `previous_digest` of the first block.
pub open spec fn genesis_previous() -> Seq<char> {
    seq!['0']
}

/// The `previous_digest` that the next appended block gets.
pub open spec fn next_previous(blocks: Seq<Block>) -> Seq<char> {
    if blocks.len() == 0 {
        genesis_previous()
    } else {
        blocks.last().digest@
    }
}

/// The digest that the block appended next to `blocks` gets with the nonce `nonce`.
pub open spec fn candidate_digest(
    blocks: Seq<Block>,
    created_at: u64,
    payload: Seq<char>,
    nonce: nat,
) -> Seq<char> {
    sha256_hex(
        preimage(blocks.len(), next_previous(blocks), created_at as nat, payload, nonce),
    )
}

/// Some nonce up to the difficulty's bound gives the next block an accepted digest.
pub open spec fn minable(
    blocks: Seq<Block>,
    created_at: u64,
    payload: Seq<char>,
    difficulty: Difficulty,
) -> bool {
    exists|k: nat|
        k <= difficulty.max_nonce && difficulty.accepts_spec(
            #[trigger] candidate_digest(blocks, created_at, payload, k),
        )
}

/// `after` is `before` with one block appended: made of `payload` at `created_at`, linked
/// to the last block of `before`, and mined with the least nonce that `difficulty` accepts.
pub open spec fn appended(
    before: Seq<Block>,
    after: Seq<Block>,
    created_at: u64,
    payload: Seq<char>,
    difficulty: Difficulty,
) -> bool {
    let b = after.last();
    &&& after.len() == before.len() + 1
    &&& after.take(before.len() as int) == before
    &&& b.index == before.len()
    &&& b.previous_digest@ == next_previous(before)
    &&& b.created_at == created_at
    &&& b.payload@ == payload
    &&& b.digest_consistent()
    &&& difficulty.accepts_spec(b.digest@)
    &&& forall|k: nat|
        k < b.nonce ==> !difficulty.accepts_spec(
            #[trigger] candidate_digest(before, created_at, payload, k),
        )
}

/// What the validator checks of the adjacent pair `(blocks[i - 1], blocks[i])`: the link,
/// and that both stored digests are the digests of their blocks' current fields.
pub open spec fn pair_valid(blocks: Seq<Block>, i: int) -> bool {
    &&& blocks[i].previous_digest@ == blocks[i - 1].digest@
    &&& blocks[i].digest_consistent()
    &&& blocks[i - 1].digest_consistent()
}

/// Every adjacent pair is valid; chains of length 0 and 1 have no pair to check.
pub open spec fn chain_valid(blocks: Seq<Block>) -> bool {
    forall|i: int| 1 <= i < blocks.len() ==> #[trigger] pair_valid(blocks, i)
}

/// Block `i` stands where appending puts it: right index, right link, a digest of its own
/// fields that `difficulty` accepts.
pub open spec fn well_placed(blocks: Seq<Block>, i: int, difficulty: Difficulty) -> bool {
    &&& blocks[i].index == i
    &&& blocks[i].previous_digest@ == next_previous(blocks.take(i))
    &&& blocks[i].digest_consistent()
    &&& difficulty.accepts_spec(blocks[i].digest@)
}

/// What every chain built by appending alone satisfies.
pub open spec fn well_formed(blocks: Seq<Block>, difficulty: Difficulty) -> bool {
    forall|i: int| 0 <= i < blocks.len() ==> #[trigger] well_placed(blocks, i, difficulty)
}

/// Appending a mined block to a chain built by appending gives a chain built by appending.
pub proof fn lemma_append_keeps_well_formed(
    before: Seq<Block>,
    after: Seq<Block>,
    created_at: u64,
    payload: Seq<char>,
    difficulty: Difficulty,
)
    requires
        well_formed(before, difficulty),
        appended(before, after, created_at, payload, difficulty),
    ensures
        well_formed(after, difficulty),
{
    let n = before.len() as int;
    assert forall|i: int| 0 <= i < after.len() implies #[trigger] well_placed(after, i, difficulty) by {
        if i < n {
            assert(after[i] == after.take(n)[i]);
            assert(after.take(i) =~= before.take(i));
            assert(well_placed(before, i, difficulty));
        } else {
            assert(after.take(i) == before);
        }
    }
}

/// A chain built by appending passes the validator.
pub proof fn lemma_well_formed_chain_is_valid(blocks: Seq<Block>, difficulty: Difficulty)
    requires
        well_formed(blocks, difficulty),
    ensures
        chain_valid(blocks),
{
    assert forall|i: int| 1 <= i < blocks.len() implies #[trigger] pair_valid(blocks, i) by {
        assert(well_placed(blocks, i, difficulty));
        assert(well_placed(blocks, i - 1, difficulty));
        assert(blocks.take(i).last() == blocks[i - 1]);
    }
}

/// In a chain built by appending, the first block links to `"0"` and has index 0.
pub proof fn lemma_first_block_is_genesis(blocks: Seq<Block>, difficulty: Difficulty)
    requires
        well_formed(blocks, difficulty),
        blocks.len() >= 1,
    ensures
        blocks[0].previous_digest@ == genesis_previous(),
        blocks[0].index == 0,
{
    assert(well_placed(blocks, 0, difficulty));
}

/// In a chain built by appending, block `i` has index `i`.
pub proof fn lemma_indices_in_order(blocks: Seq<Block>, difficulty: Difficulty)
    requires
        well_formed(blocks, difficulty),
    ensures
        forall|i: int| 0 <= i < blocks.len() ==> #[trigger] blocks[i].index == i,
{
    assert forall|i: int| 0 <= i < blocks.len() implies #[trigger] blocks[i].index == i by {
        assert(well_placed(blocks, i, difficulty));
    }
}

/// The empty chain and every single-block chain pass the validator.
pub proof fn lemma_short_chain_is_valid(blocks: Seq<Block>)
    requires
        blocks.len() <= 1,
    ensures
        chain_valid(blocks),
{
}

/// `b` is `a` with exactly one of `payload`, `created_at`, `nonce` and
/// `previous_digest` changed; index and stored digest kept.
pub open spec fn differs_in_one_field(a: Block, b: Block) -> bool {
    let same_payload = a.payload@ == b.payload@;
    let same_time = a.created_at == b.created_at;
    let same_nonce = a.nonce == b.nonce;
    let same_previous = a.previous_digest@ == b.previous_digest@;
    &&& a.index == b.index
    &&& a.digest@ == b.digest@
    &&& {
        ||| !same_payload && same_time && same_nonce && same_previous
        ||| same_payload && !same_time && same_nonce && same_previous
        ||| same_payload && same_time && !same_nonce && same_previous
        ||| same_payload && same_time && same_nonce && !same_previous
    }
}

/// The digest tells the texts `x` and `y` apart when they differ: the one assumption
/// that tamper detection rests on, since a collision would hide a change.
pub open spec fn digest_separates(x: Seq<char>, y: Seq<char>) -> bool {
    x != y ==> sha256_hex(x) != sha256_hex(y)
}

proof fn lemma_middle_differs(a: Seq<char>, x: Seq<char>, y: Seq<char>, b: Seq<char>)
    requires
        x != y,
    ensures
        a + x + b != a + y + b,
{
    if x.len() == y.len() {
        assert(!(x =~= y));
        let j = choose|j: int| 0 <= j < x.len() && x[j] != y[j];
        assert((a + x + b)[a.len() + j] == x[j]);
        assert((a + y + b)[a.len() + j] == y[j]);
    } else {
        assert((a + x + b).len() != (a + y + b).len());
    }
}

/// Changing one field of a block changes the text that its digest is taken over.
pub proof fn lemma_field_change_alters_preimage(a: Block, b: Block)
    requires
        differs_in_one_field(a, b),
    ensures
        a.preimage_with_nonce(a.nonce as nat) != b.preimage_with_nonce(b.nonce as nat),
{
    let di = decimal(a.index as nat);
    let (pa, pb) = (a.previous_digest@, b.previous_digest@);
    let (ta, tb) = (decimal(a.created_at as nat), decimal(b.created_at as nat));
    let (la, lb) = (a.payload@, b.payload@);
    let (na, nb) = (decimal(a.nonce as nat), decimal(b.nonce as nat));
    let xa = a.preimage_with_nonce(a.nonce as nat);
    let xb = b.preimage_with_nonce(b.nonce as nat);
    if la != lb {
        lemma_middle_differs(di + pa + ta, la, lb, na);
    } else if a.created_at != b.created_at {
        if ta == tb {
            lemma_decimal_injective(a.created_at as nat, b.created_at as nat);
        }
        lemma_middle_differs(di + pa, ta, tb, la + na);
        assert(xa =~= di + pa + ta + (la + na));
        assert(xb =~= di + pa + tb + (la + na));
    } else if a.nonce != b.nonce {
        if na == nb {
            lemma_decimal_injective(a.nonce as nat, b.nonce as nat);
        }
        lemma_middle_differs(di + pa + ta + la, na, nb, Seq::empty());
        assert(xa =~= di + pa + ta + la + na + Seq::<char>::empty());
        assert(xb =~= di + pa + ta + la + nb + Seq::<char>::empty());
    } else {
        lemma_middle_differs(di, pa, pb, ta + la + na);
        assert(xa =~= di + pa + (ta + la + na));
        assert(xb =~= di + pb + (ta + la + na));
    }
}

/// In a valid chain of two or more blocks, changing one field of any block without
/// mining it again makes the validator fail, unless the digest collides on the old and
/// the new text of that block.
pub proof fn lemma_tampering_detected(blocks: Seq<Block>, k: int, tampered: Block)
    requires
        chain_valid(blocks),
        blocks.len() >= 2,
        0 <= k < blocks.len(),
        differs_in_one_field(blocks[k], tampered),
        digest_separates(
            blocks[k].preimage_with_nonce(blocks[k].nonce as nat),
            tampered.preimage_with_nonce(tampered.nonce as nat),
        ),
    ensures
        !chain_valid(blocks.update(k, tampered)),
{
    lemma_field_change_alters_preimage(blocks[k], tampered);
    let after = blocks.update(k, tampered);
    if k == 0 {
        assert(pair_valid(blocks, 1));
        assert(!pair_valid(after, 1));
    } else {
        assert(pair_valid(blocks, k));
        assert(!pair_valid(after, k));
    }
}

/// Changing only the payload of the first block of a valid chain keeps the second
/// block's link to the old digest, which the first block still stores; recomputing the
/// first block's digest then shows the change, unless the digest collides.
pub proof fn lemma_genesis_payload_tampering(blocks: Seq<Block>, tampered: Block)
    requires
        chain_valid(blocks),
        blocks.len() >= 2,
        tampered.payload@ != blocks[0].payload@,
        tampered.index == blocks[0].index,
        tampered.previous_digest@ == blocks[0].previous_digest@,
        tampered.created_at == blocks[0].created_at,
        tampered.nonce == blocks[0].nonce,
        tampered.digest@ == blocks[0].digest@,
        digest_separates(
            blocks[0].preimage_with_nonce(blocks[0].nonce as nat),
            tampered.preimage_with_nonce(tampered.nonce as nat),
        ),
    ensures
        blocks.update(0, tampered)[1].previous_digest@ == blocks[0].digest@,
        blocks.update(0, tampered)[0].digest@ == blocks[0].digest@,
        !blocks.update(0, tampered)[0].digest_consistent(),
        !chain_valid(blocks.update(0, tampered)),
{
    assert(pair_valid(blocks, 1));
    lemma_field_change_alters_preimage(blocks[0], tampered);
    lemma_tampering_detected(blocks, 0, tampered);
}

/// The ledger: blocks in index order, and the difficulty that new blocks are mined to.
#[derive(Debug, Clone)]
pub struct Blockchain {
    pub blocks: Vec<Block>,
    pub difficulty: Difficulty,
}

impl Blockchain {
    pub open spec fn wf(&self) -> bool {
        well_formed(self.blocks@, self.difficulty)
    }

    /// An empty chain that mines with `DEFAULT_LEADING_ZEROS` over the whole nonce range.
    pub fn new() -> (r: Blockchain)
        ensures
            r.blocks@.len() == 0,
            r.difficulty.leading_zeros == DEFAULT_LEADING_ZEROS,
            r.difficulty.max_nonce == u32::MAX,
            r.wf(),
            chain_valid(r.blocks@),
    {
        Blockchain { blocks: Vec::new(), difficulty: Difficulty::new(DEFAULT_LEADING_ZEROS) }
    }

    /// An empty chain that mines with `difficulty`.
    pub fn with_difficulty(difficulty: Difficulty) -> (r: Blockchain)
        ensures
            r.blocks@.len() == 0,
            r.difficulty == difficulty,
            r.wf(),
            chain_valid(r.blocks@),
    {
        Blockchain { blocks: Vec::new(), difficulty }
    }

    /// The number of blocks.
    pub fn len(&self) -> (r: usize)
        ensures
            r == self.blocks@.len(),
    {
        self.blocks.len()
    }

    /// Makes a block of `payload` made at `created_at`, linked to the last block (or to
    /// `"0"` when the chain is empty), mines it, and appends it. When no nonce up to the
    /// difficulty's bound is accepted, the chain is left as it was.
    pub fn add_block(&mut self, payload: String, created_at: u64) -> (r: Result<(), MiningError>)
        ensures
            final(self).difficulty == old(self).difficulty,
            r is Ok <==> minable(old(self).blocks@, created_at, payload@, old(self).difficulty),
            r is Ok ==> appended(
                old(self).blocks@,
                final(self).blocks@,
                created_at,
                payload@,
                old(self).difficulty,
            ),
            r is Err ==> final(self).blocks@ == old(self).blocks@,
            old(self).wf() ==> final(self).wf(),
    {
        let index = self.blocks.len();
        let previous_digest = if index == 0 {
            proof {
                reveal_strlit("0");
            }
            String::from_str("0")
        } else {
            self.blocks[index - 1].digest.clone()
        };
        assert(previous_digest@ == next_previous(self.blocks@));
        let mut block = Block::new(index, previous_digest, created_at, payload);
        let ghost pre = block;
        let mined = block.mine(&self.difficulty);
        let ghost old_blocks = self.blocks@;
        assert forall|k: nat|
            #[trigger] candidate_digest(old_blocks, created_at, block.payload@, k)
                == block.digest_with_nonce(k) && candidate_digest(
                old_blocks,
                created_at,
                block.payload@,
                k,
            ) == pre.digest_with_nonce(k) by {}
        match mined {
            Ok(_) => {
                assert(candidate_digest(old_blocks, created_at, block.payload@, block.nonce as nat)
                    == block.digest@);
                self.blocks.push(block);
                assert(self.blocks@.take(old_blocks.len() as int) =~= old_blocks);
                proof {
                    if old(self).wf() {
                        lemma_append_keeps_well_formed(
                            old_blocks,
                            self.blocks@,
                            created_at,
                            self.blocks@.last().payload@,
                            self.difficulty,
                        );
                    }
                }
                Ok(())
            },
            Err(e) => Err(e),
        }
    }

    /// Whether every adjacent pair of blocks is linked and both of its stored digests are
    /// the digests of their blocks' current fields. Stops at the first failing pair.
    pub fn is_chain_valid(&self) -> (r: bool)
        ensures
            r == chain_valid(self.blocks@),
    {
        let n = self.blocks.len();
        if n < 2 {
            return true;
        }
        if !self.blocks[0].digest_matches() {
            assert(!pair_valid(self.blocks@, 1));
            return false;
        }
        let mut i: usize = 1;
        while i < n
            invariant
                1 <= i <= n,
                n == self.blocks@.len(),
                self.blocks@[i - 1].digest_consistent(),
                forall|j: int| 1 <= j < i ==> #[trigger] pair_valid(self.blocks@, j),
            decreases n - i,
        {
            let current = &self.blocks[i];
            let previous = &self.blocks[i - 1];
            if current.previous_digest != previous.digest {
                assert(!pair_valid(self.blocks@, i as int));
                return false;
            }
            if !current.digest_matches() {
                assert(!pair_valid(self.blocks@, i as int));
                return false;
            }
            assert(pair_valid(self.blocks@, i as int));
            i = i + 1;
        }
        true
    }
}

} // verus!
