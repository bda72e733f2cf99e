use vstd::prelude::*;

use crate::error::Error;

verus! {

/// The big-endian unsigned value of a two-byte sequence.
pub open spec fn be_u16(s: Seq<u8>) -> int
    recommends
        s.len() == 2,
{
    s[0] * 0x100 + s[1]
}

/// The big-endian unsigned value of a four-byte sequence.
pub open spec fn be_u32(s: Seq<u8>) -> int
    recommends
        s.len() == 4,
{
    s[0] * 0x100_0000 + s[1] * 0x1_0000 + s[2] * 0x100 + s[3]
}

/// The big-endian unsigned value of an eight-byte sequence.
pub open spec fn be_u64(s: Seq<u8>) -> int
    recommends
        s.len() == 8,
{
    s[0] * 0x100_0000_0000_0000 + s[1] * 0x1_0000_0000_0000 + s[2] * 0x100_0000_0000 + s[3]
        * 0x1_0000_0000 + s[4] * 0x100_0000 + s[5] * 0x1_0000 + s[6] * 0x100 + s[7]
}

/// The two's-complement signed reading of an unsigned 32-bit value.
pub open spec fn to_signed_32(n: int) -> int
    recommends
        0 <= n < 0x1_0000_0000,
{
    if n < 0x8000_0000 {
        n
    } else {
        n - 0x1_0000_0000
    }
}

/// The two's-complement signed reading of an unsigned 64-bit value.
pub open spec fn to_signed_64(n: int) -> int
    recommends
        0 <= n < 0x1_0000_0000_0000_0000,
{
    if n < 0x8000_0000_0000_0000 {
        n
    } else {
        n - 0x1_0000_0000_0000_0000
    }
}

/// A cursor over an in-memory byte stream. Reads decode big-endian
/// fixed-width values and advance the position; a read past the end of the
/// stream fails atomically, leaving the cursor where it was.
pub struct Reader<'a> {
    bytes: &'a [u8],
    pos: usize,
}

impl<'a> Reader<'a> {
    /// The whole underlying byte stream.
    pub closed spec fn data(&self) -> Seq<u8> {
        self.bytes@
    }

    /// The current cursor position.
    pub closed spec fn pos(&self) -> int {
        self.pos as int
    }

    /// The cursor never points past the end of the stream.
    pub open spec fn wf(&self) -> bool {
        0 <= self.pos() <= self.data().len()
    }

    /// A reader positioned at the start of the given bytes.
    pub fn new(bytes: &'a [u8]) -> (r: Reader<'a>)
        ensures
            r.wf(),
            r.data() == bytes@,
            r.pos() == 0,
    {
        Reader { bytes, pos: 0 }
    }

    /// Reads one byte.
    pub fn read_u8(&mut self) -> (r: Result<u8, Error>)
        requires
            old(self).wf(),
        ensures
            final(self).wf(),
            final(self).data() == old(self).data(),
            match r {
                Ok(v) => {
                    &&& old(self).pos() + 1 <= old(self).data().len()
                    &&& final(self).pos() == old(self).pos() + 1
                    &&& v == old(self).data()[old(self).pos()]
                },
                Err(e) => {
                    &&& e == Error::IoError
                    &&& old(self).data().len() < old(self).pos() + 1
                    &&& *final(self) == *old(self)
                },
            },
    {
        if self.bytes.len() - self.pos >= 1 {
            let v = self.bytes[self.pos];
            self.pos = self.pos + 1;
            Ok(v)
        } else {
            Err(Error::IoError)
        }
    }

    /// Reads a big-endian unsigned 16-bit value.
    pub fn read_u16(&mut self) -> (r: Result<u16, Error>)
        requires
            old(self).wf(),
        ensures
            final(self).wf(),
            final(self).data() == old(self).data(),
            match r {
                Ok(v) => {
                    &&& old(self).pos() + 2 <= old(self).data().len()
                    &&& final(self).pos() == old(self).pos() + 2
                    &&& v == be_u16(old(self).data().subrange(old(self).pos(), old(self).pos() + 2))
                },
                Err(e) => {
                    &&& e == Error::IoError
                    &&& old(self).data().len() < old(self).pos() + 2
                    &&& *final(self) == *old(self)
                },
            },
    {
        if self.bytes.len() - self.pos >= 2 {
            let b0 = self.bytes[self.pos];
            let b1 = self.bytes[self.pos + 1];
            let v: u16 = (b0 as u16) * 0x100 + (b1 as u16);
            proof {
                let s = self.data().subrange(self.pos(), self.pos() + 2);
                assert(s[0] == b0 && s[1] == b1);
            }
            self.pos = self.pos + 2;
            Ok(v)
        } else {
            Err(Error::IoError)
        }
    }

    /// Reads a big-endian unsigned 32-bit value.
    pub fn read_u32(&mut self) -> (r: Result<u32, Error>)
        requires
            old(self).wf(),
        ensures
            final(self).wf(),
            final(self).data() == old(self).data(),
            match r {
                Ok(v) => {
                    &&& old(self).pos() + 4 <= old(self).data().len()
                    &&& final(self).pos() == old(self).pos() + 4
                    &&& v == be_u32(old(self).data().subrange(old(self).pos(), old(self).pos() + 4))
                },
                Err(e) => {
                    &&& e == Error::IoError
                    &&& old(self).data().len() < old(self).pos() + 4
                    &&& *final(self) == *old(self)
                },
            },
    {
        if self.bytes.len() - self.pos >= 4 {
            let b0 = self.bytes[self.pos];
            let b1 = self.bytes[self.pos + 1];
            let b2 = self.bytes[self.pos + 2];
            let b3 = self.bytes[self.pos + 3];
            let v: u32 = (b0 as u32) * 0x100_0000 + (b1 as u32) * 0x1_0000 + (b2 as u32) * 0x100 + (
            b3 as u32);
            proof {
                let s = self.data().subrange(self.pos(), self.pos() + 4);
                assert(s[0] == b0 && s[1] == b1 && s[2] == b2 && s[3] == b3);
            }
            self.pos = self.pos + 4;
            Ok(v)
        } else {
            Err(Error::IoError)
        }
    }

    /// Reads a big-endian unsigned 64-bit value.
    pub fn read_u64(&mut self) -> (r: Result<u64, Error>)
        requires
            old(self).wf(),
        ensures
            final(self).wf(),
            final(self).data() == old(self).data(),
            match r {
                Ok(v) => {
                    &&& old(self).pos() + 8 <= old(self).data().len()
                    &&& final(self).pos() == old(self).pos() + 8
                    &&& v == be_u64(old(self).data().subrange(old(self).pos(), old(self).pos() + 8))
                },
                Err(e) => {
                    &&& e == Error::IoError
                    &&& old(self).data().len() < old(self).pos() + 8
                    &&& *final(self) == *old(self)
                },
            },
    {
        if self.bytes.len() - self.pos >= 8 {
            let b0 = self.bytes[self.pos];
            let b1 = self.bytes[self.pos + 1];
            let b2 = self.bytes[self.pos + 2];
            let b3 = self.bytes[self.pos + 3];
            let b4 = self.bytes[self.pos + 4];
            let b5 = self.bytes[self.pos + 5];
            let b6 = self.bytes[self.pos + 6];
            let b7 = self.bytes[self.pos + 7];
            let v: u64 = (b0 as u64) * 0x100_0000_0000_0000 + (b1 as u64) * 0x1_0000_0000_0000 + (b2
                as u64) * 0x100_0000_0000 + (b3 as u64) * 0x1_0000_0000 + (b4 as u64) * 0x100_0000
                + (b5 as u64) * 0x1_0000 + (b6 as u64) * 0x100 + (b7 as u64);
            proof {
                let s = self.data().subrange(self.pos(), self.pos() + 8);
                assert(s[0] == b0 && s[1] == b1 && s[2] == b2 && s[3] == b3);
                assert(s[4] == b4 && s[5] == b5 && s[6] == b6 && s[7] == b7);
            }
            self.pos = self.pos + 8;
            Ok(v)
        } else {
            Err(Error::IoError)
        }
    }

    /// Reads a big-endian signed 32-bit value (two's complement).
    pub fn read_i32(&mut self) -> (r: Result<i32, Error>)
        requires
            old(self).wf(),
        ensures
            final(self).wf(),
            final(self).data() == old(self).data(),
            match r {
                Ok(v) => {
                    &&& old(self).pos() + 4 <= old(self).data().len()
                    &&& final(self).pos() == old(self).pos() + 4
                    &&& v as int == to_signed_32(
                        be_u32(old(self).data().subrange(old(self).pos(), old(self).pos() + 4)),
                    )
                },
                Err(e) => {
                    &&& e == Error::IoError
                    &&& old(self).data().len() < old(self).pos() + 4
                    &&& *final(self) == *old(self)
                },
            },
    {
        let u = match self.read_u32() {
            Ok(u) => u,
            Err(e) => {
                return Err(e);
            },
        };
        let v: i32 = if u < 0x8000_0000 {
            u as i32
        } else {
            -((0xFFFF_FFFFu32 - u) as i32) - 1
        };
        Ok(v)
    }

    /// Reads a big-endian signed 64-bit value (two's complement).
    pub fn read_i64(&mut self) -> (r: Result<i64, Error>)
        requires
            old(self).wf(),
        ensures
            final(self).wf(),
            final(self).data() == old(self).data(),
            match r {
                Ok(v) => {
                    &&& old(self).pos() + 8 <= old(self).data().len()
                    &&& final(self).pos() == old(self).pos() + 8
                    &&& v as int == to_signed_64(
                        be_u64(old(self).data().subrange(old(self).pos(), old(self).pos() + 8)),
                    )
                },
                Err(e) => {
                    &&& e == Error::IoError
                    &&& old(self).data().len() < old(self).pos() + 8
                    &&& *final(self) == *old(self)
                },
            },
    {
        let u = match self.read_u64() {
            Ok(u) => u,
            Err(e) => {
                return Err(e);
            },
        };
        let v: i64 = if u < 0x8000_0000_0000_0000 {
            u as i64
        } else {
            -((0xFFFF_FFFF_FFFF_FFFFu64 - u) as i64) - 1
        };
        Ok(v)
    }

    /// Reads exactly `n` bytes. The read is atomic: on failure no bytes are
    /// consumed.
    pub fn read_exact(&mut self, n: usize) -> (r: Result<Vec<u8>, Error>)
        requires
            old(self).wf(),
        ensures
            final(self).wf(),
            final(self).data() == old(self).data(),
            match r {
                Ok(v) => {
                    &&& old(self).pos() + n <= old(self).data().len()
                    &&& final(self).pos() == old(self).pos() + n
                    &&& v@ == old(self).data().subrange(old(self).pos(), old(self).pos() + n)
                },
                Err(e) => {
                    &&& e == Error::IoError
                    &&& old(self).data().len() < old(self).pos() + n
                    &&& *final(self) == *old(self)
                },
            },
    {
        if self.bytes.len() - self.pos >= n {
            let taken = vstd::slice::slice_subrange(self.bytes, self.pos, self.pos + n);
            let v = vstd::slice::slice_to_vec(taken);
            self.pos = self.pos + n;
            Ok(v)
        } else {
            Err(Error::IoError)
        }
    }
}

} // verus!
