use vstd::prelude::*;

use crate::scanner::sp_u16;
use crate::scanner::sp_u32;
use crate::scanner::sp_u8;
use crate::scanner::Scanner;

verus! {

/// Helper methods to read little-endian values out of a byte source, yielding
/// nothing once the source is exhausted.
pub trait BytesLE {
    /// The bytes the source still holds.
    spec fn le_bytes(&self) -> Seq<u8>;

    /// The source is in a readable state.
    spec fn le_wf(&self) -> bool;

    /// Read one byte.
    fn next_u8(&mut self) -> (r: Option<u8>)
        requires
            old(self).le_wf(),
        ensures
            final(self).le_wf(),
            match sp_u8(old(self).le_bytes()) {
                Some(p) => r == Some(p.0) && final(self).le_bytes() == p.1,
                None => r == None::<u8>,
            },
    ;

    /// Read a little-endian unsigned 16-bit value.
    fn next_u16(&mut self) -> (r: Option<u16>)
        requires
            old(self).le_wf(),
        ensures
            final(self).le_wf(),
            match sp_u16(old(self).le_bytes()) {
                Some(p) => r == Some(p.0) && final(self).le_bytes() == p.1,
                None => r == None::<u16>,
            },
    ;

    /// Read a little-endian unsigned 32-bit value.
    fn next_u32(&mut self) -> (r: Option<u32>)
        requires
            old(self).le_wf(),
        ensures
            final(self).le_wf(),
            match sp_u32(old(self).le_bytes()) {
                Some(p) => r == Some(p.0) && final(self).le_bytes() == p.1,
                None => r == None::<u32>,
            },
    ;
}

impl<'a> BytesLE for Scanner<'a> {
    open spec fn le_bytes(&self) -> Seq<u8> {
        self.remaining()
    }

    open spec fn le_wf(&self) -> bool {
        self.wf()
    }

    fn next_u8(&mut self) -> (r: Option<u8>) {
        match self.u8() {
            Ok(v) => Some(v),
            Err(_) => None,
        }
    }

    fn next_u16(&mut self) -> (r: Option<u16>) {
        match self.u16() {
            Ok(v) => Some(v),
            Err(_) => None,
        }
    }

    fn next_u32(&mut self) -> (r: Option<u32>) {
        match self.u32() {
            Ok(v) => Some(v),
            Err(_) => None,
        }
    }
}

} // verus!
