//! Guarded task stacks.
//!
//! A stack is a byte block with a sentinel word at each end. An overflow or
//! underflow of the usable region lands in a sentinel first, which
//! [`TaskStack::verify`] detects in constant time.

use vstd::prelude::*;

verus! {

/// Default task stack size in bytes.
pub const DEFAULT_STACK_SIZE: usize = 4096;

/// Alignment that a stack block is laid out for.
pub const STACK_ALIGN: usize = 16;

/// Sentinel word stored at both ends of a block, least significant byte first.
pub const CANARY: u32 = 0xDEAD_BEEF;

/// Width of one guard in bytes.
pub const CANARY_BYTES: usize = 4;

/// Size and alignment of the block behind a stack.
#[derive(Clone, Copy, Debug, PartialEq, Eq, Structural)]
pub struct StackLayout {
    /// Bytes in the block, guards included.
    pub size: usize,
    /// Alignment of the block.
    pub align: usize,
}

/// The little-endian word that starts at `at`.
pub open spec fn word_at(block: Seq<u8>, at: int) -> int {
    block[at] + 256 * block[at + 1] + 65536 * block[at + 2] + 16777216 * block[at + 3]
}

/// Both guards of `block` hold the sentinel word.
pub open spec fn guards_intact(block: Seq<u8>) -> bool {
    &&& block.len() >= 2 * CANARY_BYTES
    &&& word_at(block, 0) == CANARY
    &&& word_at(block, block.len() - CANARY_BYTES) == CANARY
}

/// The four bytes of the sentinel word, in memory order.
pub open spec fn guard_pattern() -> Seq<u8> {
    seq![0xEFu8, 0xBEu8, 0xADu8, 0xDEu8]
}

/// A block for `size` usable bytes as allocation leaves it: zeroed, with the
/// sentinel in the first and last four bytes.
pub open spec fn fresh_block(size: nat) -> Seq<u8> {
    Seq::new(
        (size + 2 * CANARY_BYTES) as nat,
        |i: int|
            if i < CANARY_BYTES {
                guard_pattern()[i]
            } else if i >= size + CANARY_BYTES {
                guard_pattern()[i - size - CANARY_BYTES]
            } else {
                0u8
            },
    )
}

/// `index` lies in one of the two guards of a block of `len` bytes.
pub open spec fn in_guard(len: nat, index: int) -> bool {
    0 <= index < CANARY_BYTES || len - CANARY_BYTES <= index < len
}

/// Bytes needed for a stack of `stack_size` usable bytes, guards included.
pub open spec fn block_size(stack_size: usize) -> int {
    stack_size + 2 * CANARY_BYTES
}

/// A block for `stack_size` usable bytes, padded to the alignment, does not
/// exceed `isize::MAX`.
pub open spec fn layout_fits(stack_size: usize) -> bool {
    block_size(stack_size) + (STACK_ALIGN - 1) <= isize::MAX
}

/// Bytes needed for a stack of `stack_size` usable bytes, guards included;
/// `None` if that number does not fit in `usize`.
pub fn allocation_size(stack_size: usize) -> (total: Option<usize>)
    ensures
        block_size(stack_size) <= usize::MAX ==> total == Some(block_size(stack_size) as usize),
        block_size(stack_size) > usize::MAX ==> total is None,
{
    stack_size.checked_add(CANARY_BYTES * 2)
}

/// Layout of the block for a stack of `stack_size` usable bytes; `None` if the
/// padded block would exceed `isize::MAX`.
pub fn stack_layout(stack_size: usize) -> (layout: Option<StackLayout>)
    ensures
        layout_fits(stack_size) ==> layout == Some(
            StackLayout { size: block_size(stack_size) as usize, align: STACK_ALIGN },
        ),
        !layout_fits(stack_size) ==> layout is None,
{
    let limit: usize = (isize::MAX as usize) - (STACK_ALIGN - 1);
    match allocation_size(stack_size) {
        Some(total) => {
            if total <= limit {
                Some(StackLayout { size: total, align: STACK_ALIGN })
            } else {
                None
            }
        },
        None => None,
    }
}

/// Stores `word` at `at`, least significant byte first.
fn write_word(block: &mut Vec<u8>, at: usize, word: u32)
    requires
        at + CANARY_BYTES <= old(block).len(),
    ensures
        final(block)@.len() == old(block)@.len(),
        word_at(final(block)@, at as int) == word,
        forall|i: int|
            0 <= i < old(block)@.len() && !(at <= i < at + CANARY_BYTES) ==> final(block)@[i]
                == old(block)@[i],
        final(block)@[at as int] == word % 256,
        final(block)@[at + 1] == word / 256 % 256,
        final(block)@[at + 2] == word / 65536 % 256,
        final(block)@[at + 3] == word / 16777216,
{
    block[at] = (word % 256) as u8;
    block[at + 1] = (word / 256 % 256) as u8;
    block[at + 2] = (word / 65536 % 256) as u8;
    block[at + 3] = (word / 16777216) as u8;
}

/// Reads the word at `at`, least significant byte first.
fn read_word(block: &Vec<u8>, at: usize) -> (word: u32)
    requires
        at + CANARY_BYTES <= block.len(),
    ensures
        word == word_at(block@, at as int),
{
    let b0: u32 = block[at] as u32;
    let b1: u32 = block[at + 1] as u32;
    let b2: u32 = block[at + 2] as u32;
    let b3: u32 = block[at + 3] as u32;
    b0 + 256 * b1 + 65536 * b2 + 16777216 * b3
}

/// Guarded stack block of one task.
pub struct TaskStack {
    block: Vec<u8>,
    size: usize,
}

impl TaskStack {
    /// The block always spans the usable bytes and the two guards.
    #[verifier::type_invariant]
    pub closed spec fn wf(self) -> bool {
        self.block@.len() == self.size + 2 * CANARY_BYTES
    }

    /// The bytes of the whole block, guards included.
    pub closed spec fn view(&self) -> Seq<u8> {
        self.block@
    }

    /// Number of usable bytes.
    pub closed spec fn spec_len(&self) -> nat {
        self.size as nat
    }

    /// Lays a stack of `size` usable bytes out in `storage`, if the layout
    /// fits and storage was obtained.
    pub fn with_storage(size: usize, storage: Option<Vec<u8>>) -> (stack: Option<TaskStack>)
        ensures
            stack is Some <==> layout_fits(size) && storage is Some,
            stack matches Some(s) ==> {
                &&& s.wf()
                &&& s.spec_len() == size
                &&& s@ == fresh_block(size as nat)
                &&& guards_intact(s@)
            },
    {
        let layout = match stack_layout(size) {
            Some(layout) => layout,
            None => {
                return None;
            },
        };
        let mut block = match storage {
            Some(block) => block,
            None => {
                return None;
            },
        };
        block.clear();
        let total = layout.size;
        let mut filled: usize = 0;
        while filled < total
            invariant
                filled <= total,
                block@.len() == filled,
                forall|i: int| 0 <= i < filled ==> block@[i] == 0u8,
            decreases total - filled,
        {
            block.push(0u8);
            filled += 1;
        }
        write_word(&mut block, 0, CANARY);
        write_word(&mut block, CANARY_BYTES + size, CANARY);
        assert(block@ =~= fresh_block(size as nat));
        Some(TaskStack { block, size })
    }

    /// Allocates a stack of `size` usable bytes. Fails if the layout does not
    /// fit or the heap has no room.
    pub fn new(size: usize) -> (stack: Option<TaskStack>)
        ensures
            !layout_fits(size) ==> stack is None,
            stack matches Some(s) ==> {
                &&& s.wf()
                &&& s.spec_len() == size
                &&& s@ == fresh_block(size as nat)
                &&& guards_intact(s@)
            },
    {
        let layout = match stack_layout(size) {
            Some(layout) => layout,
            None => {
                return None;
            },
        };
        let mut block: Vec<u8> = Vec::new();
        let storage = match block.try_reserve(layout.size) {
            Ok(_) => Some(block),
            Err(_) => None,
        };
        TaskStack::with_storage(size, storage)
    }

    /// Offset in the block of the first usable byte.
    pub fn bottom(&self) -> (offset: usize)
        ensures
            offset == CANARY_BYTES,
    {
        CANARY_BYTES
    }

    /// Offset in the block just past the last usable byte.
    pub fn top(&self) -> (offset: usize)
        ensures
            offset == CANARY_BYTES + self.spec_len(),
            offset + CANARY_BYTES == self@.len(),
    {
        proof {
            use_type_invariant(self);
            assert(self.block.len() <= usize::MAX);
        }
        CANARY_BYTES + self.size
    }

    /// Number of usable bytes.
    pub fn len(&self) -> (size: usize)
        ensures
            size == self.spec_len(),
            size + 2 * CANARY_BYTES == self@.len(),
    {
        proof {
            use_type_invariant(self);
            assert(self.block.len() <= usize::MAX);
        }
        self.size
    }

    /// Checks both guard words.
    pub fn verify(&self) -> (intact: bool)
        ensures
            intact == guards_intact(self@),
    {
        proof {
            use_type_invariant(self);
            assert(self.block.len() <= usize::MAX);
        }
        let lower = read_word(&self.block, 0);
        let upper = read_word(&self.block, CANARY_BYTES + self.size);
        lower == CANARY && upper == CANARY
    }

    /// Reads the usable byte at block offset `offset`; `None` outside
    /// `bottom()..top()`.
    pub fn read(&self, offset: usize) -> (byte: Option<u8>)
        ensures
            CANARY_BYTES <= offset < CANARY_BYTES + self.spec_len() ==> byte == Some(
                self@[offset as int],
            ),
            !(CANARY_BYTES <= offset < CANARY_BYTES + self.spec_len()) ==> byte is None,
    {
        proof {
            use_type_invariant(self);
            assert(self.block.len() <= usize::MAX);
        }
        if CANARY_BYTES <= offset && offset - CANARY_BYTES < self.size {
            Some(self.block[offset])
        } else {
            None
        }
    }

    /// Stores `value` at block offset `offset` if that is a usable byte, and
    /// says whether it did. The guards are out of its reach.
    pub fn write(&mut self, offset: usize, value: u8) -> (stored: bool)
        ensures
            final(self).spec_len() == old(self).spec_len(),
            stored == (CANARY_BYTES <= offset < CANARY_BYTES + old(self).spec_len()),
            stored ==> final(self)@ == old(self)@.update(offset as int, value),
            !stored ==> final(self)@ == old(self)@,
            guards_intact(final(self)@) == guards_intact(old(self)@),
    {
        proof {
            use_type_invariant(&*self);
            assert(self.block.len() <= usize::MAX);
        }
        if CANARY_BYTES <= offset && offset - CANARY_BYTES < self.size {
            self.block[offset] = value;
            true
        } else {
            false
        }
    }

    /// Stores `value` at block offset `offset` wherever in the block that is,
    /// guards included, as a stray store past either end of the usable region
    /// does. Says whether `offset` was inside the block.
    pub fn poke(&mut self, offset: usize, value: u8) -> (stored: bool)
        ensures
            final(self).spec_len() == old(self).spec_len(),
            stored == (offset < old(self)@.len()),
            stored ==> final(self)@ == old(self)@.update(offset as int, value),
            !stored ==> final(self)@ == old(self)@,
    {
        proof {
            use_type_invariant(&*self);
        }
        if offset < self.block.len() {
            self.block[offset] = value;
            true
        } else {
            false
        }
    }
}

/// A freshly laid out block passes the guard check, whatever its size.
pub proof fn lemma_fresh_block_is_intact(size: nat)
    ensures
        guards_intact(fresh_block(size)),
{
}

/// Overwriting any single guard byte with a different value makes the guard
/// check fail. This covers the byte just below the usable region and the
/// byte just above it, where an underflow or overflow lands first.
pub proof fn lemma_guard_write_is_detected(block: Seq<u8>, index: int, value: u8)
    requires
        guards_intact(block),
        in_guard(block.len(), index),
        value != block[index],
    ensures
        !guards_intact(block.update(index, value)),
{
}

/// A store inside the usable region never disturbs the guard check.
pub proof fn lemma_usable_write_keeps_guards(block: Seq<u8>, index: int, value: u8)
    requires
        block.len() >= 2 * CANARY_BYTES,
        CANARY_BYTES <= index < block.len() - CANARY_BYTES,
    ensures
        guards_intact(block.update(index, value)) == guards_intact(block),
{
}

} // verus!
