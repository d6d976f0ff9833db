use vstd::prelude::*;

use crate::engine::engine_accepts;
use crate::engine::verify_poseidon;
use crate::engine::CircuitVk;
use crate::errors::VerifyError;
use crate::output::limbs_of;
use crate::params::params_decodable;
use crate::params::params_value;

verus! {

/// The four acquisition slots of one verification session, in the
/// fixed order the constrained host reads them from its witness
/// fields: commitment parameters, verifying key, proof, public output.
#[derive(PartialEq, Eq, Structural, Clone, Copy, Debug)]
pub enum Slot {
    Params,
    Vk,
    Proof,
    Output,
}

/// Where a session stands: still acquiring one of the four slots,
/// ready to verify with all four acquired, or failed for good — an
/// acquisition failure is terminal, there are no retries.
#[derive(PartialEq, Eq, Structural, Clone, Copy, Debug)]
pub enum Phase {
    Acquiring(Slot),
    Ready,
    Failed,
}

/// The slot acquired after `s`, in the fixed order; `None` after the
/// last one.
pub open spec fn next_slot(s: Slot) -> Option<Slot> {
    match s {
        Slot::Params => Some(Slot::Vk),
        Slot::Vk => Some(Slot::Proof),
        Slot::Proof => Some(Slot::Output),
        Slot::Output => None,
    }
}

/// The witness index a slot is read from.
pub open spec fn slot_index_of(s: Slot) -> usize {
    match s {
        Slot::Params => 0usize,
        Slot::Vk => 1usize,
        Slot::Proof => 2usize,
        Slot::Output => 3usize,
    }
}

/// One acquisition step: a successful read advances to the next slot
/// (or to `Ready` after the last), a failed read is terminal.  `Ready`
/// and `Failed` absorb further events.
pub open spec fn step_phase(p: Phase, ok: bool) -> Phase {
    match p {
        Phase::Acquiring(s) => if ok {
            match next_slot(s) {
                Some(s2) => Phase::Acquiring(s2),
                None => Phase::Ready,
            }
        } else {
            Phase::Failed
        },
        Phase::Ready => Phase::Ready,
        Phase::Failed => Phase::Failed,
    }
}

/// The phase after a whole sequence of acquisition outcomes, first
/// outcome first.
pub open spec fn phase_after(p: Phase, oks: Seq<bool>) -> Phase
    decreases oks.len(),
{
    if oks.len() == 0 {
        p
    } else {
        phase_after(step_phase(p, oks[0]), oks.drop_first())
    }
}

/// One verification session: the acquisition state machine shared by
/// both hosts.  The host feeds it one outcome per slot, in order;
/// buffers are stored as they arrive and handed to the verification
/// routine only once every slot has been acquired.  The verifying-key
/// slot is acquired like the others to keep the four-buffer protocol,
/// but its bytes stay untouched: the proving-system backend offers no
/// key deserialization, so the typed key reaches `verify` separately.
pub struct Session {
    phase: Phase,
    params: Vec<u8>,
    vk: Vec<u8>,
    proof: Vec<u8>,
    output: Vec<u8>,
}

impl Session {
    pub closed spec fn spec_phase(&self) -> Phase {
        self.phase
    }

    pub closed spec fn spec_params(&self) -> Seq<u8> {
        self.params@
    }

    pub closed spec fn spec_vk(&self) -> Seq<u8> {
        self.vk@
    }

    pub closed spec fn spec_proof(&self) -> Seq<u8> {
        self.proof@
    }

    pub closed spec fn spec_output(&self) -> Seq<u8> {
        self.output@
    }

    /// A fresh session, about to acquire the first slot.
    pub fn new() -> (s: Session)
        ensures
            s.spec_phase() == Phase::Acquiring(Slot::Params),
            s.spec_params() == Seq::<u8>::empty(),
            s.spec_vk() == Seq::<u8>::empty(),
            s.spec_proof() == Seq::<u8>::empty(),
            s.spec_output() == Seq::<u8>::empty(),
    {
        Session {
            phase: Phase::Acquiring(Slot::Params),
            params: Vec::new(),
            vk: Vec::new(),
            proof: Vec::new(),
            output: Vec::new(),
        }
    }

    pub fn phase(&self) -> (p: Phase)
        ensures
            p == self.spec_phase(),
    {
        self.phase
    }

    /// The witness index to read next: 0 through 3 while acquiring, in
    /// the fixed slot order; nothing once the session is decided.
    pub fn slot_index(&self) -> (r: Option<usize>)
        ensures
            match r {
                Some(i) => self.spec_phase() matches Phase::Acquiring(s) && i == slot_index_of(s),
                None => !(self.spec_phase() is Acquiring),
            },
    {
        match self.phase {
            Phase::Acquiring(s) => match s {
                Slot::Params => Some(0),
                Slot::Vk => Some(1),
                Slot::Proof => Some(2),
                Slot::Output => Some(3),
            },
            Phase::Ready => None,
            Phase::Failed => None,
        }
    }

    /// Records a successfully acquired buffer for the current slot and
    /// advances: the stored buffer for that slot becomes `data`, every
    /// other buffer is unchanged, and the phase takes one successful
    /// step.
    pub fn supply(&mut self, data: Vec<u8>)
        requires
            old(self).spec_phase() is Acquiring,
        ensures
            final(self).spec_phase() == step_phase(old(self).spec_phase(), true),
            old(self).spec_phase() matches Phase::Acquiring(s) ==> {
                &&& final(self).spec_params() == (if s == Slot::Params {
                    data@
                } else {
                    old(self).spec_params()
                })
                &&& final(self).spec_vk() == (if s == Slot::Vk {
                    data@
                } else {
                    old(self).spec_vk()
                })
                &&& final(self).spec_proof() == (if s == Slot::Proof {
                    data@
                } else {
                    old(self).spec_proof()
                })
                &&& final(self).spec_output() == (if s == Slot::Output {
                    data@
                } else {
                    old(self).spec_output()
                })
            },
    {
        match self.phase {
            Phase::Acquiring(s) => {
                match s {
                    Slot::Params => {
                        self.params = data;
                        self.phase = Phase::Acquiring(Slot::Vk);
                    },
                    Slot::Vk => {
                        self.vk = data;
                        self.phase = Phase::Acquiring(Slot::Proof);
                    },
                    Slot::Proof => {
                        self.proof = data;
                        self.phase = Phase::Acquiring(Slot::Output);
                    },
                    Slot::Output => {
                        self.output = data;
                        self.phase = Phase::Ready;
                    },
                }
            },
            _ => {},
        }
    }

    /// Records an acquisition failure: terminal, nothing else changes,
    /// and no decode or cryptographic work will ever be attempted.
    pub fn fail(&mut self)
        requires
            old(self).spec_phase() is Acquiring,
        ensures
            final(self).spec_phase() == Phase::Failed,
            final(self).spec_phase() == step_phase(old(self).spec_phase(), false),
            final(self).spec_params() == old(self).spec_params(),
            final(self).spec_vk() == old(self).spec_vk(),
            final(self).spec_proof() == old(self).spec_proof(),
            final(self).spec_output() == old(self).spec_output(),
    {
        self.phase = Phase::Failed;
    }

    /// Runs the shared verification routine on the acquired buffers.
    /// Only a session that acquired all four slots can verify; the
    /// result is exactly that of `verify_poseidon` on the stored
    /// proof, output and parameter buffers with the given key.
    pub fn verify(&self, vk: &CircuitVk) -> (r: Result<(), VerifyError>)
        requires
            self.spec_phase() is Ready,
        ensures
            match r {
                Ok(()) => params_decodable(self.spec_params()) && self.spec_output().len() == 32
                    && vk.spec_rows() == (1u64 << params_value(self.spec_params()).spec_k())
                    && engine_accepts(
                    params_value(self.spec_params()),
                    *vk,
                    limbs_of(self.spec_output()),
                    self.spec_proof(),
                ),
                Err(e) => match e {
                    VerifyError::Decode(_) => !params_decodable(self.spec_params()),
                    VerifyError::Length(n) => params_decodable(self.spec_params()) && n != 32 && n
                        == self.spec_output().len(),
                    VerifyError::Reject(_) => params_decodable(self.spec_params())
                        && self.spec_output().len() == 32 && !(vk.spec_rows() == (1u64
                        << params_value(self.spec_params()).spec_k()) && engine_accepts(
                        params_value(self.spec_params()),
                        *vk,
                        limbs_of(self.spec_output()),
                        self.spec_proof(),
                    )),
                },
            },
    {
        verify_poseidon(
            self.proof.as_slice(),
            self.output.as_slice(),
            self.params.as_slice(),
            vk,
        )
    }
}

/// A decided session stays decided: further events change nothing.
proof fn lemma_absorbing(p: Phase, oks: Seq<bool>)
    requires
        !(p is Acquiring),
    ensures
        phase_after(p, oks) == p,
    decreases oks.len(),
{
    if oks.len() > 0 {
        lemma_absorbing(p, oks.drop_first());
    }
}

/// Acquisition failure short-circuits, and only full acquisition
/// verifies: starting from a fresh session, a sequence of acquisition
/// outcomes ends ready exactly when it holds at least four outcomes
/// and the first four all succeeded.  In particular a failure in any
/// of the four reads keeps decode and cryptographic work out of reach
/// for good.
pub proof fn lemma_ready_iff_all_acquired(oks: Seq<bool>)
    ensures
        phase_after(Phase::Acquiring(Slot::Params), oks) is Ready <==> (oks.len() >= 4 && oks[0]
            && oks[1] && oks[2] && oks[3]),
{
    let p0 = Phase::Acquiring(Slot::Params);
    if oks.len() == 0 {
    } else {
        let t1 = oks.drop_first();
        let p1 = step_phase(p0, oks[0]);
        assert(phase_after(p0, oks) == phase_after(p1, t1));
        if !oks[0] {
            lemma_absorbing(Phase::Failed, t1);
        } else if t1.len() == 0 {
        } else {
            let t2 = t1.drop_first();
            let p2 = step_phase(p1, t1[0]);
            assert(phase_after(p1, t1) == phase_after(p2, t2));
            assert(t1[0] == oks[1]);
            if !t1[0] {
                lemma_absorbing(Phase::Failed, t2);
            } else if t2.len() == 0 {
            } else {
                let t3 = t2.drop_first();
                let p3 = step_phase(p2, t2[0]);
                assert(phase_after(p2, t2) == phase_after(p3, t3));
                assert(t2[0] == oks[2]);
                if !t2[0] {
                    lemma_absorbing(Phase::Failed, t3);
                } else if t3.len() == 0 {
                } else {
                    let t4 = t3.drop_first();
                    let p4 = step_phase(p3, t3[0]);
                    assert(phase_after(p3, t3) == phase_after(p4, t4));
                    assert(t3[0] == oks[3]);
                    if !t3[0] {
                        lemma_absorbing(Phase::Failed, t4);
                    } else {
                        lemma_absorbing(Phase::Ready, t4);
                    }
                }
            }
        }
    }
}

} // verus!
