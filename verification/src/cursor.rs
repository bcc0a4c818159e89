use crate::error::{ErrorKind, ErrorKindView, ParseErr};
use crate::model::cp_info::FromPool;
use vstd::prelude::*;

verus! {

/// Whether `n` bytes can be read from `s` at `pos`.
pub open spec fn has_bytes(s: Seq<u8>, pos: int, n: int) -> bool {
    0 <= pos && pos + n <= s.len()
}

/// The big-endian 16-bit number in the two bytes of `s` at `pos`.
pub open spec fn be_u16(s: Seq<u8>, pos: int) -> u16 {
    (s[pos] * 0x100 + s[pos + 1]) as u16
}

/// The big-endian 32-bit number in the four bytes of `s` at `pos`.
pub open spec fn be_u32(s: Seq<u8>, pos: int) -> u32 {
    (s[pos] * 0x100_0000 + s[pos + 1] * 0x1_0000 + s[pos + 2] * 0x100 + s[pos + 3]) as u32
}

/// A forward-only cursor over a byte slice that reads big-endian unsigned
/// integers of one, two and four bytes.
///
/// The cursor never stands behind the end of its input. A read that fails
/// leaves the cursor where it was.
#[derive(Debug, Clone, Copy)]
pub struct Data<'a> {
    data: &'a [u8],
    pointer: usize,
}

impl<'a> Data<'a> {
    #[verifier::type_invariant]
    spec fn in_bounds(self) -> bool {
        self.pointer <= self.data@.len()
    }

    /// The whole input, read or not.
    pub closed spec fn bytes(&self) -> Seq<u8> {
        self.data@
    }

    /// The number of bytes read so far.
    pub closed spec fn pos(&self) -> int {
        self.pointer as int
    }

    /// A cursor at the start of `data`.
    pub fn new(data: &'a [u8]) -> (d: Self)
        ensures
            d.bytes() == data@,
            d.pos() == 0,
    {
        Data { data, pointer: 0 }
    }

    /// The number of bytes that are left to read.
    pub fn remaining(&self) -> (n: usize)
        ensures
            n == self.bytes().len() - self.pos(),
    {
        proof {
            use_type_invariant(self);
        }
        self.data.len() - self.pointer
    }

    /// Reads one byte.
    pub fn u1(&mut self) -> (r: Result<u8, ParseErr>)
        ensures
            final(self).bytes() == old(self).bytes(),
            match r {
                Ok(v) => {
                    &&& has_bytes(old(self).bytes(), old(self).pos(), 1)
                    &&& v == old(self).bytes()[old(self).pos()]
                    &&& final(self).pos() == old(self).pos() + 1
                },
                Err(e) => {
                    &&& !has_bytes(old(self).bytes(), old(self).pos(), 1)
                    &&& e@ == ErrorKindView::TruncatedInput
                    &&& final(self).pos() == old(self).pos()
                },
            },
    {
        proof {
            use_type_invariant(&*self);
        }
        if self.data.len() - self.pointer < 1 {
            return Err(ParseErr::new(ErrorKind::TruncatedInput));
        }
        let v = self.data[self.pointer];
        self.pointer = self.pointer + 1;
        Ok(v)
    }

    /// Reads a big-endian 16-bit number.
    pub fn u2(&mut self) -> (r: Result<u16, ParseErr>)
        ensures
            final(self).bytes() == old(self).bytes(),
            match r {
                Ok(v) => {
                    &&& has_bytes(old(self).bytes(), old(self).pos(), 2)
                    &&& v == be_u16(old(self).bytes(), old(self).pos())
                    &&& final(self).pos() == old(self).pos() + 2
                },
                Err(e) => {
                    &&& !has_bytes(old(self).bytes(), old(self).pos(), 2)
                    &&& e@ == ErrorKindView::TruncatedInput
                    &&& final(self).pos() == old(self).pos()
                },
            },
    {
        proof {
            use_type_invariant(&*self);
        }
        if self.data.len() - self.pointer < 2 {
            return Err(ParseErr::new(ErrorKind::TruncatedInput));
        }
        let hi = self.data[self.pointer] as u16;
        let lo = self.data[self.pointer + 1] as u16;
        self.pointer = self.pointer + 2;
        Ok(hi * 0x100 + lo)
    }

    /// Reads a pool reference: a big-endian 16-bit index.
    pub fn cp<T>(&mut self) -> (r: Result<FromPool<T>, ParseErr>)
        ensures
            final(self).bytes() == old(self).bytes(),
            match r {
                Ok(v) => {
                    &&& has_bytes(old(self).bytes(), old(self).pos(), 2)
                    &&& v == FromPool::<T>::spec_new(be_u16(old(self).bytes(), old(self).pos()))
                    &&& final(self).pos() == old(self).pos() + 2
                },
                Err(e) => {
                    &&& !has_bytes(old(self).bytes(), old(self).pos(), 2)
                    &&& e@ == ErrorKindView::TruncatedInput
                    &&& final(self).pos() == old(self).pos()
                },
            },
    {
        match self.u2() {
            Ok(n) => Ok(FromPool::new(n)),
            Err(e) => Err(e),
        }
    }

    /// Reads a big-endian 32-bit number.
    pub fn u4(&mut self) -> (r: Result<u32, ParseErr>)
        ensures
            final(self).bytes() == old(self).bytes(),
            match r {
                Ok(v) => {
                    &&& has_bytes(old(self).bytes(), old(self).pos(), 4)
                    &&& v == be_u32(old(self).bytes(), old(self).pos())
                    &&& final(self).pos() == old(self).pos() + 4
                },
                Err(e) => {
                    &&& !has_bytes(old(self).bytes(), old(self).pos(), 4)
                    &&& e@ == ErrorKindView::TruncatedInput
                    &&& final(self).pos() == old(self).pos()
                },
            },
    {
        proof {
            use_type_invariant(&*self);
        }
        if self.data.len() - self.pointer < 4 {
            return Err(ParseErr::new(ErrorKind::TruncatedInput));
        }
        let b0 = self.data[self.pointer] as u32;
        let b1 = self.data[self.pointer + 1] as u32;
        let b2 = self.data[self.pointer + 2] as u32;
        let b3 = self.data[self.pointer + 3] as u32;
        self.pointer = self.pointer + 4;
        Ok(b0 * 0x100_0000 + b1 * 0x1_0000 + b2 * 0x100 + b3)
    }

    /// The byte read last, without moving.
    pub fn last_u1(&self) -> (r: Result<u8, ParseErr>)
        ensures
            match r {
                Ok(v) => self.pos() >= 1 && v == self.bytes()[self.pos() - 1],
                Err(e) => self.pos() < 1 && e@ == ErrorKindView::TruncatedInput,
            },
    {
        proof {
            use_type_invariant(self);
        }
        if self.pointer < 1 {
            return Err(ParseErr::new(ErrorKind::TruncatedInput));
        }
        Ok(self.data[self.pointer - 1])
    }

    /// The big-endian 16-bit number in the two bytes read last, without moving.
    pub fn last_u2(&self) -> (r: Result<u16, ParseErr>)
        ensures
            match r {
                Ok(v) => self.pos() >= 2 && v == be_u16(self.bytes(), self.pos() - 2),
                Err(e) => self.pos() < 2 && e@ == ErrorKindView::TruncatedInput,
            },
    {
        proof {
            use_type_invariant(self);
        }
        if self.pointer < 2 {
            return Err(ParseErr::new(ErrorKind::TruncatedInput));
        }
        let hi = self.data[self.pointer - 2] as u16;
        let lo = self.data[self.pointer - 1] as u16;
        Ok(hi * 0x100 + lo)
    }

    /// The big-endian 32-bit number in the four bytes read last, without moving.
    pub fn last_u4(&self) -> (r: Result<u32, ParseErr>)
        ensures
            match r {
                Ok(v) => self.pos() >= 4 && v == be_u32(self.bytes(), self.pos() - 4),
                Err(e) => self.pos() < 4 && e@ == ErrorKindView::TruncatedInput,
            },
    {
        proof {
            use_type_invariant(self);
        }
        if self.pointer < 4 {
            return Err(ParseErr::new(ErrorKind::TruncatedInput));
        }
        let b0 = self.data[self.pointer - 4] as u32;
        let b1 = self.data[self.pointer - 3] as u32;
        let b2 = self.data[self.pointer - 2] as u32;
        let b3 = self.data[self.pointer - 1] as u32;
        Ok(b0 * 0x100_0000 + b1 * 0x1_0000 + b2 * 0x100 + b3)
    }

    /// Hands out the next `length` bytes and moves behind them.
    pub fn take(&mut self, length: usize) -> (r: Result<&'a [u8], ParseErr>)
        ensures
            final(self).bytes() == old(self).bytes(),
            match r {
                Ok(window) => {
                    &&& has_bytes(old(self).bytes(), old(self).pos(), length as int)
                    &&& window@ == old(self).bytes().subrange(
                        old(self).pos(),
                        old(self).pos() + length,
                    )
                    &&& final(self).pos() == old(self).pos() + length
                },
                Err(e) => {
                    &&& !has_bytes(old(self).bytes(), old(self).pos(), length as int)
                    &&& e@ == ErrorKindView::TruncatedInput
                    &&& final(self).pos() == old(self).pos()
                },
            },
    {
        proof {
            use_type_invariant(&*self);
        }
        if self.data.len() - self.pointer < length {
            return Err(ParseErr::new(ErrorKind::TruncatedInput));
        }
        let start = self.pointer;
        let end = start + length;
        let data: &'a [u8] = self.data;
        let window = &data[start..end];
        self.pointer = end;
        Ok(window)
    }

    /// A new cursor over the next `length` bytes; this cursor moves behind them.
    /// What reads from the new cursor cannot run over the window.
    pub fn sub(&mut self, length: usize) -> (r: Result<Data<'a>, ParseErr>)
        ensures
            final(self).bytes() == old(self).bytes(),
            match r {
                Ok(inner) => {
                    &&& has_bytes(old(self).bytes(), old(self).pos(), length as int)
                    &&& inner.bytes() == old(self).bytes().subrange(
                        old(self).pos(),
                        old(self).pos() + length,
                    )
                    &&& inner.pos() == 0
                    &&& final(self).pos() == old(self).pos() + length
                },
                Err(e) => {
                    &&& !has_bytes(old(self).bytes(), old(self).pos(), length as int)
                    &&& e@ == ErrorKindView::TruncatedInput
                    &&& final(self).pos() == old(self).pos()
                },
            },
    {
        match self.take(length) {
            Ok(window) => Ok(Data::new(window)),
            Err(e) => Err(e),
        }
    }
}

} // verus!
