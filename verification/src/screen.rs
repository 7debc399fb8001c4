//! The frame builder: samples the fixed memory window `0x0200..0x0600` and
//! the palette to fill an RGB frame buffer, reporting whether any pixel
//! changed so a host can skip redundant redraws.

use vstd::prelude::*;

use crate::color::{get_rgb_color, spec_rgb};
use crate::cpu::{CPU, CpuView};
use crate::mem::Mem;

verus! {

/// The first sampled address.
pub const FRAME_WINDOW_START: u16 = 0x0200;
/// One past the last sampled address.
pub const FRAME_WINDOW_END: u16 = 0x0600;
/// Three color components for each of the 1024 sampled bytes.
pub const FRAME_BYTES: usize = 3072;

/// The RGB bytes that the machine's frame window paints: three components
/// per sampled memory byte, in address order.
pub open spec fn spec_frame(v: CpuView) -> Seq<u8> {
    Seq::new(FRAME_BYTES as nat, |i: int|
        {
            let color = spec_rgb(v.byte((FRAME_WINDOW_START + i / 3) as u16));
            if i % 3 == 0 {
                color.0
            } else if i % 3 == 1 {
                color.1
            } else {
                color.2
            }
        },
    )
}

/// Repaints the frame buffer from the machine's frame window and reports
/// whether anything changed: the first `FRAME_BYTES` bytes of the buffer
/// become the sampled image, the rest stays untouched, and the result is
/// true exactly when the buffer did not already hold that image.
pub fn should_update_screen(cpu: &CPU, frame: &mut Vec<u8>) -> (updated: bool)
    requires
        cpu.wf(),
        old(frame)@.len() >= FRAME_BYTES,
    ensures
        final(frame)@.len() == old(frame)@.len(),
        final(frame)@.subrange(0, FRAME_BYTES as int) == spec_frame(cpu@),
        final(frame)@.skip(FRAME_BYTES as int) == old(frame)@.skip(FRAME_BYTES as int),
        updated == (old(frame)@.subrange(0, FRAME_BYTES as int) != spec_frame(cpu@)),
{
    let mut should_update = false;
    let mut frame_idx: usize = 0;
    let mut addr: u16 = FRAME_WINDOW_START;
    while addr < FRAME_WINDOW_END
        invariant
            cpu.wf(),
            FRAME_WINDOW_START <= addr <= FRAME_WINDOW_END,
            frame_idx == 3 * (addr - FRAME_WINDOW_START),
            frame@.len() == old(frame)@.len() >= FRAME_BYTES,
            forall|k: int| 0 <= k < frame_idx ==> frame@[k] == spec_frame(cpu@)[k],
            forall|k: int| frame_idx <= k < frame@.len() ==> frame@[k] == old(frame)@[k],
            should_update == exists|k: int|
                0 <= k < frame_idx && old(frame)@[k] != spec_frame(cpu@)[k],
        decreases FRAME_WINDOW_END - addr,
    {
        let color_byte = cpu.bus.mem_read(addr);
        let rgb = get_rgb_color(color_byte);
        let r = rgb.0;
        let g = rgb.1;
        let b = rgb.2;
        if frame[frame_idx] != r || frame[frame_idx + 1] != g || frame[frame_idx + 2] != b {
            proof {
                if frame@[frame_idx as int] != r {
                    assert(old(frame)@[frame_idx as int] != spec_frame(cpu@)[frame_idx as int]);
                } else if frame@[frame_idx + 1] != g {
                    assert(old(frame)@[frame_idx + 1] != spec_frame(cpu@)[frame_idx + 1]);
                } else {
                    assert(old(frame)@[frame_idx + 2] != spec_frame(cpu@)[frame_idx + 2]);
                }
            }
            frame[frame_idx] = r;
            frame[frame_idx + 1] = g;
            frame[frame_idx + 2] = b;
            should_update = true;
        } else {
            proof {
                assert(frame@[frame_idx as int] == spec_frame(cpu@)[frame_idx as int]);
                assert(frame@[frame_idx + 1] == spec_frame(cpu@)[frame_idx + 1]);
                assert(frame@[frame_idx + 2] == spec_frame(cpu@)[frame_idx + 2]);
            }
        }
        frame_idx = frame_idx + 3;
        addr = addr + 1;
    }
    proof {
        if !should_update {
            assert(old(frame)@.subrange(0, FRAME_BYTES as int) =~= spec_frame(cpu@));
        } else {
            let k = choose|k: int|
                0 <= k < frame_idx && old(frame)@[k] != spec_frame(cpu@)[k];
            assert(old(frame)@.subrange(0, FRAME_BYTES as int)[k] != spec_frame(cpu@)[k]);
        }
        assert(frame@.subrange(0, FRAME_BYTES as int) =~= spec_frame(cpu@));
        assert(frame@.skip(FRAME_BYTES as int) =~= old(frame)@.skip(FRAME_BYTES as int));
    }
    should_update
}

} // verus!
