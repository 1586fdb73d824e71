//! The text sink behind the serial link: a program sends one byte at a time
//! by writing it to the data register and then 0x81 to the control register.
use vstd::prelude::*;
use crate::mmu::{MMU, MmuState};

verus! {

/// Address of the serial data register.
pub const SERIAL_DATA: u16 = 0xFF01;

/// Address of the serial control register.
pub const SERIAL_CONTROL: u16 = 0xFF02;

/// The control value that says that a byte waits in the data register.
pub const SERIAL_READY: u8 = 0x81;

/// The byte that ends a line.
pub const LINE_END: u8 = 10;

/// The text "empty": what an empty first line is reported as.
pub open spec fn empty_text() -> Seq<u8> {
    seq![101u8, 109u8, 112u8, 116u8, 121u8]
}

/// The text "DBG: ": what every line after the first begins with.
pub open spec fn line_prefix() -> Seq<u8> {
    seq![68u8, 66u8, 71u8, 58u8, 32u8]
}

/// The bus after the sink has taken the waiting byte, if one waits: the
/// control register is cleared.
pub open spec fn acknowledge_serial(mmu: MmuState) -> MmuState {
    if mmu.read(SERIAL_CONTROL) == SERIAL_READY {
        mmu.write(SERIAL_CONTROL, 0)
    } else {
        mmu
    }
}

/// The mathematical model of the sink.
pub ghost struct DbgState {
    /// The bytes of the line that is being received.
    pub word: Seq<u8>,
    /// The last complete line that has not been taken yet.
    pub line: Option<Seq<u8>>,
}

impl DbgState {
    /// The sink after it has looked at the serial link: a waiting byte is
    /// added to the current line, or, if it is the line end, the current
    /// line becomes the complete one and the next line starts with the
    /// prefix.
    pub open spec fn update(self, mmu: MmuState) -> DbgState {
        if mmu.read(SERIAL_CONTROL) == SERIAL_READY {
            let c = mmu.read(SERIAL_DATA);
            if c == LINE_END {
                DbgState {
                    word: line_prefix(),
                    line: Some(
                        if self.word.len() == 0 {
                            empty_text()
                        } else {
                            self.word
                        },
                    ),
                }
            } else {
                DbgState { word: self.word.push(c), ..self }
            }
        } else {
            self
        }
    }
}

/// The sink.
#[derive(Debug)]
pub struct DBG {
    word: Vec<u8>,
    line: Option<Vec<u8>>,
}

impl View for DBG {
    type V = DbgState;

    closed spec fn view(&self) -> DbgState {
        DbgState {
            word: self.word@,
            line: match self.line {
                Some(text) => Some(text@),
                None => None,
            },
        }
    }
}

impl Default for DBG {
    fn default() -> (r: Self)
        ensures
            r@ == (DbgState { word: Seq::empty(), line: None }),
    {
        DBG { word: Vec::new(), line: None }
    }
}

impl DBG {
    /// Takes the byte that waits at the serial link, if one waits, and
    /// clears the control register.
    pub fn dbg_update(&mut self, mmu: &mut MMU)
        ensures
            final(self)@ == old(self)@.update(old(mmu)@),
            final(mmu)@ == acknowledge_serial(old(mmu)@),
            old(mmu)@.wf() ==> final(mmu)@.wf(),
    {
        if mmu.read_byte(0xFF02) == 0x81 {
            let c: u8 = mmu.read_byte(0xFF01);
            if c == 10 {
                let mut finished: Vec<u8> = vec![68, 66, 71, 58, 32];
                core::mem::swap(&mut finished, &mut self.word);
                if finished.len() == 0 {
                    finished = vec![101, 109, 112, 116, 121];
                }
                proof {
                    assert(self.word@ =~= line_prefix());
                    if old(self).word@.len() == 0 {
                        assert(finished@ =~= empty_text());
                    }
                }
                self.line = Some(finished);
            } else {
                self.word.push(c);
            }
            mmu.write_byte(0xFF02, 0);
        }
    }

    /// Does nothing: complete lines wait until `take_line` fetches them.
    pub fn dbg_print(&self) {
    }

    /// Hands out the last complete line, if there is one that has not been
    /// taken yet.
    pub fn take_line(&mut self) -> (r: Option<Vec<u8>>)
        ensures
            match r {
                Some(text) => old(self)@.line == Some(text@),
                None => old(self)@.line is None,
            },
            final(self)@ == (DbgState { line: None, ..old(self)@ }),
    {
        self.line.take()
    }
}

} // verus!
