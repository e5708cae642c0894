//! The interrupt lines of one SH-2.

use crate::interrupts::{
    queue_removed, queue_sent, queue_top, queue_wf, InterruptQueue, PendingInterrupt,
};
use vstd::prelude::*;

verus! {

/// Vector and level of the VBLANK-IN interrupt.
pub const VBLANK_IN_VECTOR: u8 = 0x40;
pub const VBLANK_IN_LEVEL: u8 = 15;
/// Vector and level of the VBLANK-OUT interrupt.
pub const VBLANK_OUT_VECTOR: u8 = 0x41;
pub const VBLANK_OUT_LEVEL: u8 = 14;
/// Vector and level of the SMPC's System Manager interrupt.
pub const SMPC_IRQ_VECTOR: u8 = 0x47;
pub const SMPC_IRQ_LEVEL: u8 = 8;
/// Vector and level of the sound CPU's interrupt.
pub const SOUND_REQ_IRQ_VECTOR: u8 = 0x46;
pub const SOUND_REQ_IRQ_LEVEL: u8 = 9;
/// Vector and level of the non-maskable interrupt.
pub const NMI_VECTOR: u8 = 0x0B;
pub const NMI_LEVEL: u8 = 16;

/// A request to the synchroniser to let a core run or to park it.
#[derive(Debug, Clone, Copy, PartialEq, Eq, Structural)]
pub struct ThreadRequest {
    pub core: usize,
    pub active: bool,
}

/// Pending interrupts, and what follows from raising one.
pub struct IrqLines {
    /// The core this is.
    pub core_id: usize,
    /// A queue that others feed too, if there is one.
    pub irq_in: Option<InterruptQueue>,
    /// The queue that is used otherwise.
    pub local_irq_in: InterruptQueue,
    /// Whether VBLANK-IN is pending.
    pub vblank_pending: bool,
    /// Whether VBLANK-OUT is pending.
    pub vblank_out_pending: bool,
    /// Whether the System Manager interrupt is pending.
    pub smpc_irq_pending: bool,
    /// The line of the sound CPU, if it is connected.
    pub sound_req_irq: Option<bool>,
    /// Whether the core runs under a synchroniser.
    pub sync_linked: bool,
    /// What the synchroniser has been asked since it last looked.
    pub sync_requests: Vec<ThreadRequest>,
}

/// The value of a core's interrupt lines.
pub struct IrqView {
    pub core_id: usize,
    pub irq_in: Option<Seq<PendingInterrupt>>,
    pub local_irq_in: Seq<PendingInterrupt>,
    pub vblank_pending: bool,
    pub vblank_out_pending: bool,
    pub smpc_irq_pending: bool,
    pub sound_req_irq: Option<bool>,
    pub sync_linked: bool,
    pub sync_requests: Seq<ThreadRequest>,
}

impl IrqView {
    pub open spec fn wf(self) -> bool {
        &&& queue_wf(self.local_irq_in)
        &&& self.irq_in is Some ==> queue_wf(self.irq_in.unwrap())
    }

    /// The queue in use.
    pub open spec fn queue(self) -> Seq<PendingInterrupt> {
        if self.irq_in is Some {
            self.irq_in.unwrap()
        } else {
            self.local_irq_in
        }
    }

    pub open spec fn with_queue(self, q: Seq<PendingInterrupt>) -> IrqView {
        if self.irq_in is Some {
            IrqView { irq_in: Some(q), ..self }
        } else {
            IrqView { local_irq_in: q, ..self }
        }
    }

    /// Note whether the interrupt of a vector is pending.
    pub open spec fn with_flag(self, vector: u8, on: bool) -> IrqView {
        if vector == VBLANK_IN_VECTOR {
            IrqView { vblank_pending: on, ..self }
        } else if vector == VBLANK_OUT_VECTOR {
            IrqView { vblank_out_pending: on, ..self }
        } else if vector == SMPC_IRQ_VECTOR {
            IrqView { smpc_irq_pending: on, ..self }
        } else {
            self
        }
    }

    /// Ask the synchroniser, if there is one.
    pub open spec fn asked(self, core: usize, active: bool) -> IrqView {
        if self.sync_linked {
            IrqView {
                sync_requests: self.sync_requests.push(ThreadRequest { core, active }),
                ..self
            }
        } else {
            self
        }
    }

    /// After an interrupt was raised: queued, noted, and the core woken.
    pub open spec fn sent(self, vector: u8, level: u8) -> IrqView {
        self.with_queue(queue_sent(self.queue(), vector, level)).with_flag(vector, true).asked(
            self.core_id,
            true,
        )
    }

    /// After an interrupt was taken back.
    pub open spec fn removed(self, vector: u8) -> IrqView {
        self.with_queue(queue_removed(self.queue(), vector)).with_flag(vector, false)
    }
}

impl IrqLines {
    pub open spec fn view(&self) -> IrqView {
        IrqView {
            core_id: self.core_id,
            irq_in: match self.irq_in {
                Some(q) => Some(q.pending@),
                None => None,
            },
            local_irq_in: self.local_irq_in.pending@,
            vblank_pending: self.vblank_pending,
            vblank_out_pending: self.vblank_out_pending,
            smpc_irq_pending: self.smpc_irq_pending,
            sound_req_irq: self.sound_req_irq,
            sync_linked: self.sync_linked,
            sync_requests: self.sync_requests@,
        }
    }

    pub open spec fn wf(&self) -> bool {
        self@.wf()
    }

    /// Nothing pending, no shared queue, no synchroniser.
    pub fn new(core_id: usize) -> (r: Self)
        ensures
            r.wf(),
            r@ == irq_init(core_id),
    {
        let r = IrqLines {
            core_id,
            irq_in: None,
            local_irq_in: InterruptQueue::new(),
            vblank_pending: false,
            vblank_out_pending: false,
            smpc_irq_pending: false,
            sound_req_irq: None,
            sync_linked: false,
            sync_requests: Vec::new(),
        };
        assert(r@.local_irq_in =~= Seq::<PendingInterrupt>::empty());
        assert(r@.sync_requests =~= Seq::<ThreadRequest>::empty());
        r
    }

    /// Ask the synchroniser to let a core run or to park it.
    pub fn ask(&mut self, core: usize, active: bool)
        requires
            old(self).wf(),
        ensures
            final(self).wf(),
            final(self)@ == old(self)@.asked(core, active),
    {
        if self.sync_linked {
            self.sync_requests.push(ThreadRequest { core, active });
        }
    }

    fn note(&mut self, vector: u8, on: bool)
        requires
            old(self).wf(),
        ensures
            final(self).wf(),
            final(self)@ == old(self)@.with_flag(vector, on),
    {
        if vector == VBLANK_IN_VECTOR {
            self.vblank_pending = on;
        } else if vector == VBLANK_OUT_VECTOR {
            self.vblank_out_pending = on;
        } else if vector == SMPC_IRQ_VECTOR {
            self.smpc_irq_pending = on;
        }
    }

    /// Raise an interrupt.
    pub fn send(&mut self, vector: u8, level: u8)
        requires
            old(self).wf(),
        ensures
            final(self).wf(),
            final(self)@ == old(self)@.sent(vector, level),
    {
        match &mut self.irq_in {
            Some(q) => {
                q.send(vector, level);
            },
            None => {
                self.local_irq_in.send(vector, level);
            },
        }
        assert(self@ == old(self)@.with_queue(
            queue_sent(old(self)@.queue(), vector, level),
        ));
        self.note(vector, true);
        let core: usize = self.core_id;
        self.ask(core, true);
    }

    /// Take an interrupt back.
    pub fn remove(&mut self, vector: u8)
        requires
            old(self).wf(),
        ensures
            final(self).wf(),
            final(self)@ == old(self)@.removed(vector),
    {
        match &mut self.irq_in {
            Some(q) => {
                q.remove(vector);
            },
            None => {
                self.local_irq_in.remove(vector);
            },
        }
        assert(self@ == old(self)@.with_queue(queue_removed(old(self)@.queue(), vector)));
        self.note(vector, false);
    }

    /// Look at the line of the sound CPU.
    pub fn poll_sound_line(&mut self)
        requires
            old(self).wf(),
        ensures
            final(self).wf(),
            final(self)@ == sound_line_polled(old(self)@),
    {
        reveal(sound_line_polled);
        if let Some(line) = self.sound_req_irq {
            if line {
                self.send(SOUND_REQ_IRQ_VECTOR, SOUND_REQ_IRQ_LEVEL);
            } else {
                self.remove(SOUND_REQ_IRQ_VECTOR);
            }
        }
    }

    /// Accept an interrupt.
    pub fn take(&mut self, vector: u8)
        requires
            old(self).wf(),
        ensures
            final(self).wf(),
            final(self)@ == line_taken(old(self)@, vector),
    {
        reveal(line_taken);
        self.remove(vector);
        if vector == SOUND_REQ_IRQ_VECTOR && self.sound_req_irq.is_some() {
            self.sound_req_irq = Some(false);
        }
        let core: usize = self.core_id;
        self.ask(core, true);
    }

    /// The interrupt of the highest level.
    pub fn peek(&self) -> (r: Option<PendingInterrupt>)
        ensures
            r == queue_top(self@.queue()),
    {
        match &self.irq_in {
            Some(q) => q.peek(),
            None => self.local_irq_in.peek(),
        }
    }
}

/// The interrupt lines once that of the sound CPU has been looked at.
#[verifier::opaque]
pub open spec fn sound_line_polled(i: IrqView) -> IrqView {
    match i.sound_req_irq {
        Some(true) => i.sent(SOUND_REQ_IRQ_VECTOR, SOUND_REQ_IRQ_LEVEL),
        Some(false) => i.removed(SOUND_REQ_IRQ_VECTOR),
        None => i,
    }
}

/// The interrupt lines once an interrupt has been accepted.
#[verifier::opaque]
pub open spec fn line_taken(i: IrqView, vector: u8) -> IrqView {
    let i1 = i.removed(vector);
    let i2 = if vector == SOUND_REQ_IRQ_VECTOR && i1.sound_req_irq is Some {
        IrqView { sound_req_irq: Some(false), ..i1 }
    } else {
        i1
    };
    i2.asked(i2.core_id, true)
}

/// Interrupt lines at power-on.
pub open spec fn irq_init(core_id: usize) -> IrqView {
    IrqView {
        core_id,
        irq_in: None,
        local_irq_in: Seq::empty(),
        vblank_pending: false,
        vblank_out_pending: false,
        smpc_irq_pending: false,
        sound_req_irq: None,
        sync_linked: false,
        sync_requests: Seq::empty(),
    }
}

} // verus!
