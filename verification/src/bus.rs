use vstd::prelude::*;

use crate::error::{Error, SpiError};

verus! {

/// One step of a driver operation on the SPI bus.
#[derive(Debug, PartialEq, Eq, Structural, Copy, Clone)]
pub enum BusOp {
    /// `write(&[addr, val])`: a register write; `addr` has bit 7 clear.
    Write { addr: u8, val: u8 },
    /// A transaction that writes `[addr]` and then reads `len` bytes; `addr`
    /// has bit 7 set.
    Read { addr: u8, len: usize },
    /// Wait `ms` milliseconds without touching the bus.
    Delay { ms: u64 },
}

impl BusOp {
    /// The error a failed step reports.
    pub open spec fn failure(self) -> Error {
        match self {
            BusOp::Read { .. } => Error::Spi(SpiError::Read),
            _ => Error::Spi(SpiError::Write),
        }
    }

    /// The error this step reports when the bus refuses it.
    pub fn failure_error(&self) -> (r: Error)
        ensures
            r == self.failure(),
    {
        match self {
            BusOp::Read { .. } => Error::Spi(SpiError::Read),
            _ => Error::Spi(SpiError::Write),
        }
    }
}

/// The address byte that reads register `reg` over SPI: bit 7 set.
pub open spec fn spi_read_address(reg: u8) -> u8 {
    reg | 0x80
}

/// The address byte that writes register `reg` over SPI: bit 7 clear.
pub open spec fn spi_write_address(reg: u8) -> u8 {
    reg & 0x7F
}

/// Both SPI address forms keep the register's low seven bits; the read
/// form has bit 7 set and the write form has it clear.
pub proof fn lemma_spi_addresses(reg: u8)
    ensures
        spi_read_address(reg) & 0x7F == reg & 0x7F,
        spi_write_address(reg) & 0x7F == reg & 0x7F,
        spi_read_address(reg) & 0x80 == 0x80,
        spi_write_address(reg) & 0x80 == 0,
        spi_read_address(reg) >= 0x80,
        spi_write_address(reg) < 0x80,
{
    assert((reg | 0x80) & 0x7F == reg & 0x7F && (reg & 0x7F) & 0x7F == reg & 0x7F && (reg | 0x80)
        & 0x80 == 0x80 && (reg & 0x7F) & 0x80 == 0 && (reg | 0x80) >= 0x80 && (reg & 0x7F) < 0x80)
        by (bit_vector);
}

/// What the bus did with the step a transfer asked for.
#[derive(Debug, PartialEq, Eq)]
pub enum Outcome {
    /// A write or a delay completed.
    Done,
    /// A read completed with these bytes.
    Data(Vec<u8>),
    /// The bus reported an error.
    Failed,
}

/// A run of bus steps that stops at the first failure.
///
/// The caller asks `next_op` for the step to perform, performs it and hands
/// the outcome to `complete`, until `next_op` gives `None`.
#[derive(Debug)]
pub struct Transfer {
    ops: Vec<BusOp>,
    data: Vec<Vec<u8>>,
    error: Option<Error>,
}

impl Transfer {
    /// The steps this transfer performs, in order.
    pub closed spec fn ops(&self) -> Seq<BusOp> {
        self.ops@
    }

    /// One entry per completed step: the bytes a read returned, nothing for
    /// any other step.
    pub closed spec fn data(&self) -> Seq<Seq<u8>> {
        self.data@.map_values(|v: Vec<u8>| v@)
    }

    /// The failure that stopped the transfer, if any.
    pub closed spec fn error(&self) -> Option<Error> {
        self.error
    }

    /// Reads returned the requested number of bytes, and a failure stops
    /// the transfer before its last step counts as completed, with the
    /// error of the step that failed.
    #[verifier::type_invariant]
    pub open spec fn wf(&self) -> bool {
        &&& self.data().len() <= self.ops().len()
        &&& self.error() is Some ==> self.data().len() < self.ops().len()
        &&& self.error() matches Some(e) ==> e == self.current().failure()
        &&& forall|i: int|
            #![trigger self.data()[i]]
            0 <= i < self.data().len() ==> match self.ops()[i] {
                BusOp::Read { len, .. } => self.data()[i].len() == len,
                _ => self.data()[i].len() == 0,
            }
    }

    /// No step is left to perform.
    pub open spec fn finished(&self) -> bool {
        self.error() is Some || self.data().len() == self.ops().len()
    }

    /// Every step completed.
    pub open spec fn succeeded(&self) -> bool {
        self.error() is None && self.data().len() == self.ops().len()
    }

    /// The step `next_op` hands out.
    pub open spec fn current(&self) -> BusOp {
        self.ops()[self.data().len() as int]
    }

    pub fn new(ops: Vec<BusOp>) -> (t: Transfer)
        ensures
            t.ops() == ops@,
            t.data() == Seq::<Seq<u8>>::empty(),
            t.error() is None,
    {
        let t = Transfer { ops, data: Vec::new(), error: None };
        assert(t.data() =~= Seq::<Seq<u8>>::empty());
        t
    }

    /// The step to perform now, or `None` once the transfer has finished.
    pub fn next_op(&self) -> (r: Option<BusOp>)
        ensures
            r == (if self.finished() {
                None
            } else {
                Some(self.current())
            }),
    {
        proof {
            use_type_invariant(self);
        }
        if self.error.is_some() || self.data.len() >= self.ops.len() {
            None
        } else {
            Some(self.ops[self.data.len()])
        }
    }

    /// Records what the bus did with the current step.  A failure ends the
    /// transfer with that step's error.
    pub fn complete(&mut self, outcome: Outcome)
        requires
            !old(self).finished(),
            match outcome {
                Outcome::Data(v) => match old(self).current() {
                    BusOp::Read { len, .. } => v.len() == len,
                    _ => false,
                },
                Outcome::Done => !(old(self).current() is Read),
                Outcome::Failed => !(old(self).current() is Delay),
            },
        ensures
            final(self).ops() == old(self).ops(),
            match outcome {
                Outcome::Data(v) => {
                    &&& final(self).data() == old(self).data().push(v@)
                    &&& final(self).error() is None
                },
                Outcome::Done => {
                    &&& final(self).data() == old(self).data().push(Seq::empty())
                    &&& final(self).error() is None
                },
                Outcome::Failed => {
                    &&& final(self).data() == old(self).data()
                    &&& final(self).error() == Some(old(self).current().failure())
                },
            },
    {
        proof {
            use_type_invariant(&*self);
        }
        let ghost old_data = self.data();
        let op = self.ops[self.data.len()];
        match outcome {
            Outcome::Data(v) => {
                let ghost gv = v@;
                let mut data: Vec<Vec<u8>> = Vec::new();
                core::mem::swap(&mut data, &mut self.data);
                data.push(v);
                assert(data@.map_values(|w: Vec<u8>| w@) =~= old_data.push(gv));
                self.data = data;
            },
            Outcome::Done => {
                let mut data: Vec<Vec<u8>> = Vec::new();
                core::mem::swap(&mut data, &mut self.data);
                let empty: Vec<u8> = Vec::new();
                data.push(empty);
                assert(data@.map_values(|w: Vec<u8>| w@) =~= old_data.push(Seq::empty()));
                self.data = data;
            },
            Outcome::Failed => {
                self.error = Some(op.failure_error());
            },
        }
    }

    /// `Ok` when every step completed, else the failure that stopped it.
    pub fn result(&self) -> (r: Result<(), Error>)
        requires
            self.finished(),
        ensures
            r == (match self.error() {
                Some(e) => Err(e),
                None => Ok(()),
            }),
            r is Ok <==> self.succeeded(),
            self.error() matches Some(e) ==> e == self.current().failure(),
    {
        proof {
            use_type_invariant(self);
        }
        match self.error {
            Some(e) => Err(e),
            None => Ok(()),
        }
    }

    /// The bytes the `i`-th step read.
    pub fn data_at(&self, i: usize) -> (r: &Vec<u8>)
        requires
            i < self.data().len(),
        ensures
            r@ == self.data()[i as int],
    {
        &self.data[i]
    }

    /// How many steps have completed.
    pub fn completed(&self) -> (r: usize)
        ensures
            r == self.data().len(),
    {
        self.data.len()
    }
}

} // verus!
