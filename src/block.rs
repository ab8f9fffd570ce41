//! One ledger entry, its digest, and the proof-of-work search that admits it.

use crate::decimal::{decimal, push_decimal};
use crate::digest::{sha256_hex, sha256_hex_of};
use vstd::prelude::*;

verus! {

/// The text that a block's digest is taken over: its fields in a fixed order, with no
/// separators.
pub open spec fn preimage(
    index: nat,
    previous_digest: Seq<char>,
    created_at: nat,
    payload: Seq<char>,
    nonce: nat,
) -> Seq<char> {
    decimal(index) + previous_digest + decimal(created_at) + payload + decimal(nonce)
}

/// Whether `digest` begins with `zeros` characters `'0'`; read as a hexadecimal number of
/// `digest.len()` digits, this is the number being below `16^(digest.len() - zeros)`.
pub open spec fn has_leading_zeros(digest: Seq<char>, zeros: nat) -> bool {
    &&& zeros <= digest.len()
    &&& forall|i: int| 0 <= i < zeros ==> digest[i] == '0'
}

/// What a mined digest must satisfy, and how far the nonce search may go.
#[derive(Debug, Clone, Copy, PartialEq, Eq, Structural)]
pub struct Difficulty {
    /// The number of leading `'0'` hex digits that an accepted digest has.
    pub leading_zeros: usize,
    /// The largest nonce that mining tries before it gives up.
    pub max_nonce: u32,
}

impl Difficulty {
    /// A difficulty that searches the whole nonce range.
    pub fn new(leading_zeros: usize) -> (r: Difficulty)
        ensures
            r.leading_zeros == leading_zeros,
            r.max_nonce == u32::MAX,
    {
        Difficulty { leading_zeros, max_nonce: u32::MAX }
    }

    pub open spec fn accepts_spec(&self, digest: Seq<char>) -> bool {
        has_leading_zeros(digest, self.leading_zeros as nat)
    }

    /// Whether `digest` satisfies this difficulty.
    pub fn accepts(&self, digest: &String) -> (r: bool)
        ensures
            r == self.accepts_spec(digest@),
    {
        let text = digest.as_str();
        let len = text.unicode_len();
        if self.leading_zeros > len {
            return false;
        }
        let mut i: usize = 0;
        while i < self.leading_zeros
            invariant
                i <= self.leading_zeros,
                self.leading_zeros <= len,
                len == text@.len(),
                text@ == digest@,
                forall|j: int| 0 <= j < i ==> text@[j] == '0',
            decreases self.leading_zeros - i,
        {
            if text.get_char(i) != '0' {
                return false;
            }
            i = i + 1;
        }
        true
    }
}

/// The ways in which mining can fail.
#[derive(Debug, Clone, Copy, PartialEq, Eq, Structural)]
pub enum MiningError {
    /// No nonce up to the difficulty's bound gives an accepted digest.
    Exhausted,
}

/// One entry of the ledger.
#[derive(Debug, Clone)]
pub struct Block {
    /// Position in the chain.
    pub index: usize,
    /// Digest of the preceding block, or `"0"` for the first block.
    pub previous_digest: String,
    /// Seconds since the Unix epoch at which the block was made.
    pub created_at: u64,
    /// The data that the block records.
    pub payload: String,
    /// The field that mining varies.
    pub nonce: u32,
    /// The digest found by mining; empty before.
    pub digest: String,
}

impl Block {
    /// The text that this block's digest is taken over, with the nonce `nonce`.
    pub open spec fn preimage_with_nonce(&self, nonce: nat) -> Seq<char> {
        preimage(
            self.index as nat,
            self.previous_digest@,
            self.created_at as nat,
            self.payload@,
            nonce,
        )
    }

    /// The digest of this block's fields, with the nonce `nonce`.
    pub open spec fn digest_with_nonce(&self, nonce: nat) -> Seq<char> {
        sha256_hex(self.preimage_with_nonce(nonce))
    }

    /// The digest of this block's current fields.
    pub open spec fn expected_digest(&self) -> Seq<char> {
        self.digest_with_nonce(self.nonce as nat)
    }

    /// Whether the stored digest is the digest of the current fields.
    pub open spec fn digest_consistent(&self) -> bool {
        self.digest@ == self.expected_digest()
    }

    /// Whether mining from `start` finds no accepted digest before `end`.
    pub open spec fn rejected_between(&self, difficulty: Difficulty, start: nat, end: nat) -> bool {
        forall|n: nat| start <= n < end ==> !difficulty.accepts_spec(#[trigger] self.digest_with_nonce(n))
    }

    /// A block that is not mined yet: nonce 0, empty digest.
    pub fn new(index: usize, previous_digest: String, created_at: u64, payload: String) -> (r: Block)
        ensures
            r.index == index,
            r.previous_digest == previous_digest,
            r.created_at == created_at,
            r.payload == payload,
            r.nonce == 0,
            r.digest@ == Seq::<char>::empty(),
    {
        Block { index, previous_digest, created_at, payload, nonce: 0, digest: String::new() }
    }

    /// The digest of the block's current fields.
    pub fn calculate_hash(&self) -> (r: String)
        ensures
            r@ == self.expected_digest(),
    {
        let mut text = String::new();
        push_decimal(&mut text, self.index as u64);
        text.append(self.previous_digest.as_str());
        push_decimal(&mut text, self.created_at);
        text.append(self.payload.as_str());
        push_decimal(&mut text, self.nonce as u64);
        assert(text@ =~= self.preimage_with_nonce(self.nonce as nat));
        sha256_hex_of(text.as_str())
    }

    /// Whether the stored digest is the digest of the block's current fields.
    pub fn digest_matches(&self) -> (r: bool)
        ensures
            r == self.digest_consistent(),
    {
        let fresh = self.calculate_hash();
        self.digest == fresh
    }

    /// Whether the stored digest satisfies `difficulty`.
    pub fn is_valid(&self, difficulty: &Difficulty) -> (r: bool)
        ensures
            r == difficulty.accepts_spec(self.digest@),
    {
        difficulty.accepts(&self.digest)
    }

    /// Tries nonces upward from the current one until the digest satisfies `difficulty`,
    /// and keeps that nonce and digest. Gives up after the nonce `difficulty.max_nonce`
    /// (or after the first attempt, when the block's nonce is already past it).
    /// On success returns the number of digests computed.
    pub fn mine(&mut self, difficulty: &Difficulty) -> (r: Result<u64, MiningError>)
        ensures
            final(self).index == old(self).index,
            final(self).previous_digest == old(self).previous_digest,
            final(self).created_at == old(self).created_at,
            final(self).payload == old(self).payload,
            old(self).nonce <= final(self).nonce,
            old(self).nonce < difficulty.max_nonce ==> final(self).nonce <= difficulty.max_nonce,
            old(self).nonce >= difficulty.max_nonce ==> final(self).nonce == old(self).nonce,
            final(self).digest_consistent(),
            old(self).rejected_between(*difficulty, old(self).nonce as nat, final(self).nonce as nat),
            r is Ok <==> difficulty.accepts_spec(final(self).digest@),
            r matches Ok(k) ==> k == final(self).nonce - old(self).nonce + 1,
            r is Err ==> final(self).nonce as int == if old(self).nonce < difficulty.max_nonce {
                difficulty.max_nonce as int
            } else {
                old(self).nonce as int
            },
    {
        let ghost orig = *self;
        let start = self.nonce;
        loop
            invariant
                self.index == orig.index,
                self.previous_digest == orig.previous_digest,
                self.created_at == orig.created_at,
                self.payload == orig.payload,
                start == orig.nonce,
                orig == *old(self),
                start <= self.nonce,
                start < difficulty.max_nonce ==> self.nonce <= difficulty.max_nonce,
                start >= difficulty.max_nonce ==> self.nonce == start,
                orig.rejected_between(*difficulty, start as nat, self.nonce as nat),
            decreases u32::MAX - self.nonce,
        {
            let fresh = self.calculate_hash();
            self.digest = fresh;
            if difficulty.accepts(&self.digest) {
                return Ok((self.nonce - start) as u64 + 1);
            }
            if self.nonce >= difficulty.max_nonce {
                return Err(MiningError::Exhausted);
            }
            self.nonce = self.nonce + 1;
        }
    }
}

} // verus!
