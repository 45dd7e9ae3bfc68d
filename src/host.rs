//! The decisions of the host's main loop. The host owns the key slot, the
//! tick counter and storage; each pass it hands over what it found.

use vstd::prelude::*;
use crate::input::KeyEvent;
use crate::kernel::{after_key, request_for, Kernel, Request, RequestView};

verus! {

/// One pass of the main loop. A pending key goes to the kernel, whose
/// request comes back for the host to perform (the host then redraws); a
/// tick count beyond `last_tick` is taken as seen and refreshes the status;
/// then a running program gets its step.
pub fn cpu_loop(
    kernel: &mut Kernel,
    last_tick: &mut usize,
    pending: Option<KeyEvent>,
    current_tick: usize,
    file_count: usize,
) -> (r: Request)
    requires
        old(kernel).wf(),
    ensures
        final(kernel).wf(),
        match pending {
            Some(key) => final(kernel)@ == after_key(old(kernel)@, key, file_count as nat) && r@
                == request_for(old(kernel)@, key, file_count as nat),
            None => final(kernel)@ == old(kernel)@ && r@ == RequestView::Nothing,
        },
        *final(last_tick) == if current_tick > *old(last_tick) {
            current_tick
        } else {
            *old(last_tick)
        },
{
    let request = match pending {
        Some(key) => kernel.key(key, file_count),
        None => Request::Nothing,
    };
    if current_tick > *last_tick {
        *last_tick = current_tick;
        kernel.draw_proc_status();
    }
    kernel.run_one_instruction();
    request
}

/// The tick counter after one more timer tick; it wraps around.
pub fn tick(ticks: usize) -> (r: usize)
    ensures
        r == if ticks < usize::MAX {
            ticks + 1
        } else {
            0
        },
{
    if ticks < usize::MAX {
        ticks + 1
    } else {
        0
    }
}

} // verus!
