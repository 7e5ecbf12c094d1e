use vstd::prelude::*;

verus! {

/// Alignment, in bytes, that the initial stack pointer of a routine must have.
pub const DEFAULT_STACK_ALIGN: usize = 16;

/// Round `addr` down to a multiple of the stack alignment.
pub open spec fn align_down(addr: int) -> int {
    addr - addr % (DEFAULT_STACK_ALIGN as int)
}

/// The machine address of the first byte of `bytes`' buffer.
///
/// Calls `<[u8]>::as_ptr` (through `Vec`'s deref) and reads the pointer's
/// address. The contract claims only what std documents of every outcome:
/// a `Vec`'s pointer is never null, and an allocation never wraps around the
/// address space, so the address of one past its last byte still fits in a
/// `usize`. Which address comes back is left open.
#[verifier::external_body]
fn buffer_address(bytes: &Vec<u8>) -> (addr: usize)
    ensures
        addr > 0,
        addr + bytes.len() <= usize::MAX,
{
    bytes.as_ptr().addr()
}

/// A zero-filled region of memory that a routine uses as its call stack.
///
/// The address of the buffer is read once, when the stack is made: the
/// buffer is never grown, so moving the `Stack` leaves it where it is.
pub struct Stack {
    bytes: Vec<u8>,
    base: usize,
}

impl Stack {
    #[verifier::type_invariant]
    closed spec fn inv(self) -> bool {
        &&& self.base > 0
        &&& self.base + self.bytes.len() <= usize::MAX
    }

    /// The bytes of the stack.
    pub closed spec fn contents(self) -> Seq<u8> {
        self.bytes@
    }

    /// The address of the lowest byte of the stack.
    pub closed spec fn bottom(self) -> int {
        self.base as int
    }

    /// The address one past the highest byte of the stack.
    pub open spec fn top(self) -> int {
        self.bottom() + self.contents().len()
    }

    /// A stack of `size` zero bytes.
    pub fn new(size: usize) -> (stack: Stack)
        ensures
            stack.contents() == Seq::new(size as nat, |i: int| 0u8),
    {
        let mut bytes: Vec<u8> = Vec::with_capacity(size);
        let mut i: usize = 0;
        while i < size
            invariant
                i <= size,
                bytes@ == Seq::new(i as nat, |j: int| 0u8),
            decreases size - i,
        {
            bytes.push(0u8);
            i = i + 1;
        }
        let base = buffer_address(&bytes);
        Stack { bytes, base }
    }

    /// The bytes of the stack.
    pub fn bytes(&self) -> (bytes: &Vec<u8>)
        ensures
            bytes@ == self.contents(),
    {
        &self.bytes
    }

    /// The size of the stack in bytes.
    pub fn len(&self) -> (len: usize)
        ensures
            len == self.contents().len(),
    {
        self.bytes.len()
    }

    /// The address of the lowest byte of the stack.
    pub fn bottom_addr(&self) -> (addr: usize)
        ensures
            addr == self.bottom(),
            addr > 0,
    {
        proof {
            use_type_invariant(self);
        }
        self.base
    }

    /// The address one past the highest byte of the stack.
    pub fn top_addr(&self) -> (addr: usize)
        ensures
            addr == self.top(),
            addr == self.bottom() + self.contents().len(),
    {
        proof {
            use_type_invariant(self);
        }
        self.bottom_addr() + self.bytes.len()
    }

    /// The top of the stack rounded down to the stack alignment: where a
    /// routine's stack pointer starts.
    pub fn aligned_top(&self) -> (addr: usize)
        ensures
            addr == align_down(self.top()),
            addr % DEFAULT_STACK_ALIGN == 0,
            addr <= self.top(),
            self.top() - addr < DEFAULT_STACK_ALIGN,
    {
        let top_addr = self.top_addr();
        top_addr - (top_addr % DEFAULT_STACK_ALIGN)
    }
}

/// The initial stack pointer lies within the stack's own memory, at most one
/// alignment unit below its top, whenever the stack is at least that large.
pub proof fn lemma_aligned_top_within_stack(stack: Stack)
    requires
        stack.contents().len() >= DEFAULT_STACK_ALIGN,
    ensures
        stack.bottom() <= align_down(stack.top()) <= stack.top(),
        stack.top() - align_down(stack.top()) < DEFAULT_STACK_ALIGN,
        align_down(stack.top()) % (DEFAULT_STACK_ALIGN as int) == 0,
{
}

}
