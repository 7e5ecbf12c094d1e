use vstd::prelude::*;

use crate::stack::{align_down, Stack};

verus! {

/// The callee-saved register state of a suspended routine or worker
/// (AArch64: stack pointer, x19 to x28, frame pointer and link register).
#[derive(Debug)]
pub struct Context {
    /// Stack pointer.
    pub sp: usize,
    /// Callee-saved general-purpose registers.
    pub x19: usize,
    pub x20: usize,
    pub x21: usize,
    pub x22: usize,
    pub x23: usize,
    pub x24: usize,
    pub x25: usize,
    pub x26: usize,
    pub x27: usize,
    pub x28: usize,
    /// Frame pointer.
    pub x29: usize,
    /// Link register / return address.
    pub x30: usize,
}

impl Context {
    /// Every register holds zero.
    pub open spec fn is_zeroed(self) -> bool {
        &&& self.sp == 0
        &&& self.callee_saved_zeroed()
        &&& self.x29 == 0
        &&& self.x30 == 0
    }

    /// x19 to x28 hold zero.
    pub open spec fn callee_saved_zeroed(self) -> bool {
        &&& self.x19 == 0
        &&& self.x20 == 0
        &&& self.x21 == 0
        &&& self.x22 == 0
        &&& self.x23 == 0
        &&& self.x24 == 0
        &&& self.x25 == 0
        &&& self.x26 == 0
        &&& self.x27 == 0
        &&& self.x28 == 0
    }

    /// The state in which a fresh routine on `stack` starts: stack and frame
    /// pointer at the stack's aligned top, return address at `entry_addr`,
    /// every other register zero.
    pub open spec fn starts_on(self, stack: Stack, entry_addr: usize) -> bool {
        &&& self.sp == align_down(stack.top())
        &&& self.x29 == align_down(stack.top())
        &&& self.x30 == entry_addr
        &&& self.callee_saved_zeroed()
    }

    /// The context of a routine that starts at `entry_addr` on `stack`.
    pub fn new(stack: &Stack, entry_addr: usize) -> (context: Context)
        ensures
            context.starts_on(*stack, entry_addr),
    {
        let aligned_top = stack.aligned_top();
        Context {
            sp: aligned_top,
            x29: aligned_top,
            x30: entry_addr,
            ..Context::default()
        }
    }
}

impl Default for Context {
    fn default() -> (context: Context)
        ensures
            context.is_zeroed(),
    {
        Context {
            sp: 0,
            x19: 0,
            x20: 0,
            x21: 0,
            x22: 0,
            x23: 0,
            x24: 0,
            x25: 0,
            x26: 0,
            x27: 0,
            x28: 0,
            x29: 0,
            x30: 0,
        }
    }
}

}
