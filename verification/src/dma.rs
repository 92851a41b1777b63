//! The OAM DMA controller: sprite attribute memory ($FE00-$FE9F) and the copy into it that a
//! write to $FF46 starts.

use vstd::prelude::*;
use crate::bus::InnerHandlerHolder;

verus! {

/// The sprite attribute memory and the DMA transfer into it.
pub struct DmaController {
    pub running: bool,
    /// The first source address of the transfer.
    pub base: u16,
    /// Steps since the transfer started.
    pub cycles: usize,
    pub oam_ram: Vec<u8>,
}

impl DmaController {
    pub open spec fn wf(&self) -> bool {
        &&& self.oam_ram@.len() == 160
        &&& self.base <= 0xDF00
        &&& self.running ==> self.cycles <= 161
    }

    /// The address that the transfer copies from in the next step, if it copies in that step:
    /// after one idle step it copies the 160 bytes from `base` on, one a step.
    pub open spec fn source(&self) -> Option<u16> {
        if self.running && 1 <= self.cycles <= 160 {
            Some((self.base + self.cycles - 1) as u16)
        } else {
            None
        }
    }

    pub fn new() -> (r: DmaController)
        ensures
            r.wf(),
            !r.running,
            forall|i: int| 0 <= i < 160 ==> r.oam_ram@[i] == 0,
    {
        DmaController { running: false, base: 0, cycles: 0, oam_ram: vec![0u8; 160] }
    }

    /// Reads sprite attribute memory.
    pub fn read(&self, address: u16) -> (r: u8)
        requires
            self.wf(),
            0xFE00 <= address <= 0xFE9F,
        ensures
            r == self.oam_ram@[address - 0xFE00],
    {
        self.oam_ram[address as usize - 0xFE00]
    }

    /// Writes sprite attribute memory, or starts a transfer from `v * 256` ($FF46; sources from
    /// $E000 on are not taken).
    pub fn write(&mut self, address: u16, v: u8)
        requires
            old(self).wf(),
            (0xFE00 <= address <= 0xFE9F) || (address == 0xFF46 && v < 0xE0),
        ensures
            final(self).wf(),
            address != 0xFF46 ==> *final(self) == (DmaController { oam_ram: final(self).oam_ram, ..*old(self) })
                && final(self).oam_ram@ == old(self).oam_ram@.update(address - 0xFE00, v),
            address == 0xFF46 ==> *final(self) == (DmaController { running: true, base: (v * 256) as u16, cycles: 0,
                ..*old(self) }),
    {
        if address == 0xFF46 {
            proof {
                assert((v as u16) << 8u16 == v as u16 * 256) by (bit_vector) requires v < 256;
            }
            self.base = (v as u16) << 8;
            // A write while a transfer runs starts it again.
            self.running = true;
            self.cycles = 0;
        } else {
            self.oam_ram.set(address as usize - 0xFE00, v);
        }
    }

    /// One step of the CPU: a running transfer waits one step, then copies one byte a step
    /// from the bus, and stops after the 160th.
    pub fn cpu_step(&mut self, mapper_holder: &InnerHandlerHolder)
        requires
            old(self).wf(),
            mapper_holder.wf(),
            old(self).source() matches Some(a) ==> mapper_holder.can_read(a),
        ensures
            final(self).wf(),
            !old(self).running ==> *final(self) == *old(self),
            old(self).running ==> final(self).cycles == old(self).cycles + 1 && final(self).base == old(self).base,
            old(self).running && old(self).cycles == 161 ==> !final(self).running && final(self).oam_ram
                == old(self).oam_ram,
            old(self).running && old(self).cycles == 0 ==> final(self).running && final(self).oam_ram == old(self).oam_ram,
            old(self).source() matches Some(a) ==> final(self).running && final(self).oam_ram@.len() == 160 && (forall|i: int|
                0 <= i < 160 && i != old(self).cycles - 1 ==> #[trigger] final(self).oam_ram@[i] == old(self).oam_ram@[i])
                && mapper_holder.read_result(a, final(self).oam_ram@[old(self).cycles - 1]),
            dma_stepped(*old(self), *mapper_holder, *final(self)),
    {
        if !self.running {
            return;
        }

        if self.cycles == 0 {
            // There's a 1 cycle wait after enabling DMA
        } else if self.cycles <= 160 {
            let dma_step = self.cycles as u16 - 1;
            let from = self.base + dma_step;
            let v = mapper_holder.read(from);
            self.oam_ram.set(dma_step as usize, v);
        } else {
            // DMA is done
            self.running = false;
        }

        self.cycles = self.cycles + 1;
    }
}

/// One step of the transfer `d` with the components `m` gives `a`: an idle transfer stays; a
/// running one counts the step, waits on its first, copies the byte at its source on the next
/// 160 and ends on the one after.
pub open spec fn dma_stepped(d: DmaController, m: InnerHandlerHolder, a: DmaController) -> bool {
    &&& a.wf()
    &&& !d.running ==> a == d
    &&& d.running ==> a.cycles == d.cycles + 1 && a.base == d.base
    &&& d.running && d.cycles == 161 ==> !a.running && a.oam_ram == d.oam_ram
    &&& d.running && d.cycles == 0 ==> a.running && a.oam_ram == d.oam_ram
    &&& d.source() matches Some(s) ==> a.running && (forall|i: int| 0 <= i < 160 && i != d.cycles - 1
        ==> #[trigger] a.oam_ram@[i] == d.oam_ram@[i]) && m.read_result(s, a.oam_ram@[d.cycles - 1])
}

proof fn lemma_dma_prefix(steps: Seq<DmaController>, m: InnerHandlerHolder, k: int)
    requires
        steps.len() == 163,
        steps[0].wf(),
        steps[0].running,
        steps[0].cycles == 0,
        forall|j: int| 0 <= j < 162 ==> #[trigger] dma_stepped(steps[j], m, steps[j + 1]),
        1 <= k <= 161,
    ensures
        steps[k].running,
        steps[k].cycles == k,
        steps[k].base == steps[0].base,
        forall|i: int| 0 <= i < k - 1 ==> m.read_result((steps[0].base + i) as u16, #[trigger] steps[k].oam_ram@[i]),
    decreases k,
{
    let j = k - 1;
    assert(dma_stepped(steps[j], m, steps[j + 1]));
    if k > 1 {
        lemma_dma_prefix(steps, m, k - 1);
        let d = steps[k - 1];
        assert(d.source() == Some((d.base + d.cycles - 1) as u16));
        assert forall|i: int| 0 <= i < k - 1 implies m.read_result((steps[0].base + i) as u16,
            #[trigger] steps[k].oam_ram@[i]) by {
            if i < k - 2 {
                assert(steps[k].oam_ram@[i] == d.oam_ram@[i]);
            }
        }
    }
}

/// A transfer started by a write to $FF46 copies the whole block: after its idle step and 160
/// copying steps with the same components `m`, each byte of sprite memory is what a read of its
/// source address in `m` gives, and the step after that ends the transfer.
pub proof fn law_dma_copies_block(steps: Seq<DmaController>, m: InnerHandlerHolder)
    requires
        steps.len() == 163,
        steps[0].wf(),
        steps[0].running,
        steps[0].cycles == 0,
        forall|k: int| 0 <= k < 162 ==> #[trigger] dma_stepped(steps[k], m, steps[k + 1]),
    ensures
        forall|i: int| 0 <= i < 160 ==> m.read_result((steps[0].base + i) as u16, #[trigger] steps[161].oam_ram@[i]),
        steps[161].running,
        !steps[162].running,
{
    lemma_dma_prefix(steps, m, 161);
    let k: int = 161;
    assert(dma_stepped(steps[k], m, steps[k + 1]));
}

} // verus!
