//! The `portio` object of the kernel's object table: opening `map` gives a
//! cursor over the 16-bit I/O port space. Reads, peeks and writes move one
//! byte at the cursor. This module decides which port each access touches
//! and where the cursor goes; the port instructions themselves are issued by
//! the caller.
use vstd::prelude::*;

verus! {

/// Errors that the port-I/O objects report.
#[derive(Debug, Clone, Copy, PartialEq, Eq, Structural)]
pub enum Error {
    InvalidData,
}

/// Where a seek counts from.
#[derive(Debug, Clone, Copy, PartialEq, Eq, Structural)]
pub enum SeekFrom {
    Start(u64),
    End(i64),
    Current(i64),
}

/// The root object, which only opens `map`.
#[derive(Debug, Clone, Copy)]
pub struct Io;

/// A cursor over the I/O port space.
#[derive(Debug)]
pub struct IoMap {
    head: u16,
}

impl View for IoMap {
    type V = u16;

    /// The port the cursor stands on.
    closed spec fn view(&self) -> u16 {
        self.head
    }
}

/// The port that a seek from `from` lands on, with the cursor on `head`:
/// offsets are taken modulo 2^16, and the end of the port space is one past
/// port `0xffff`.
pub open spec fn seek_target(head: u16, from: SeekFrom) -> u16 {
    match from {
        SeekFrom::Start(n) => n as u16,
        SeekFrom::Current(n) => ((head + (n as u16)) % 0x10000) as u16,
        SeekFrom::End(n) => (((n as u16) + 0xffff) % 0x10000) as u16,
    }
}

/// The port after `port`, wrapping at the end of the port space.
pub open spec fn next_port(port: u16) -> u16 {
    ((port + 1) % 0x10000) as u16
}

/// Seeking by zero from the current position stays put.
pub proof fn lemma_seek_current_zero(head: u16)
    ensures
        seek_target(head, SeekFrom::Current(0)) == head,
{
    assert(0i64 as u16 == 0) by (bit_vector);
}

/// Two seeks relative to the current position land where one seek by the
/// sum of the offsets lands.
pub proof fn lemma_seek_current_twice(head: u16, a: i64, b: i64)
    requires
        i64::MIN <= a + b <= i64::MAX,
    ensures
        seek_target(seek_target(head, SeekFrom::Current(a)), SeekFrom::Current(b)) == seek_target(
            head,
            SeekFrom::Current((a + b) as i64),
        ),
{
    let s: i64 = (a + b) as i64;
    let x: int = (a as u16) as int;
    let y: int = (b as u16) as int;
    let h: int = head as int;
    assert((s as u16) as int == ((a as u16) + (b as u16)) % 0x10000) by (bit_vector)
        requires
            s == a + b,
    ;
    vstd::arithmetic::div_mod::lemma_add_mod_noop_right(y, h + x, 0x10000);
    vstd::arithmetic::div_mod::lemma_add_mod_noop_right(h, x + y, 0x10000);
    assert((y + (h + x)) % 0x10000 == (h + (x + y)) % 0x10000);
}

/// The end of the port space is one past the last port: seeking to the
/// end lands on port `0xffff`, and seeking `n` bytes past the end lands
/// where seeking to `n - 1` from the start does.
pub proof fn lemma_seek_end(head: u16, n: i64)
    requires
        n >= 1,
    ensures
        seek_target(head, SeekFrom::End(0)) == 0xffff,
        seek_target(head, SeekFrom::End(n)) == seek_target(head, SeekFrom::Start((n - 1) as u64)),
{
    let m: u64 = (n - 1) as u64;
    assert(0i64 as u16 == 0) by (bit_vector);
    assert((m as u16) as int == ((n as u16) + 0xffff) % 0x10000) by (bit_vector)
        requires
            n >= 1,
            m == n - 1,
    ;
}

/// The port after `port` is one higher, and after the last port comes
/// port 0.
pub proof fn law_next_port(port: u16)
    ensures
        port < 0xffff ==> next_port(port) == port + 1,
        port == 0xffff ==> next_port(port) == 0,
{
}

/// A seek from the start lands on the offset modulo 2^16, whatever the
/// cursor stood on.
pub proof fn law_seek_start(head: u16, n: u64)
    ensures
        seek_target(head, SeekFrom::Start(n)) == n % 0x10000,
{
    assert((n as u16) as u64 == n % 0x10000) by (bit_vector);
}

/// A seek from the current position moves the cursor by the offset, modulo
/// 2^16: forwards for a positive offset, backwards for a negative one.
pub proof fn law_seek_current(head: u16, n: i64)
    ensures
        (seek_target(head, SeekFrom::Current(n)) - head - n) % 0x10000 == 0,
{
    let x: u16 = n as u16;
    let w: u64 = n as u64;
    assert(x as u64 == w % 0x10000) by (bit_vector)
        requires
            x == n as u16,
            w == n as u64,
    ;
    assert(n >= 0 ==> w as int == n as int) by (bit_vector)
        requires
            w == n as u64,
    ;
    assert(n < 0 ==> w as int == n as int + 0x1_0000_0000_0000_0000) by (bit_vector)
        requires
            w == n as u64,
    ;
}

/// A seek from the end lands `n` ports past the end of the port space,
/// which is one past port 0xffff, modulo 2^16.
pub proof fn law_seek_end(head: u16, n: i64)
    ensures
        (seek_target(head, SeekFrom::End(n)) - n + 1) % 0x10000 == 0,
{
    let x: u16 = n as u16;
    let w: u64 = n as u64;
    assert(x as u64 == w % 0x10000) by (bit_vector)
        requires
            x == n as u16,
            w == n as u64,
    ;
    assert(n >= 0 ==> w as int == n as int) by (bit_vector)
        requires
            w == n as u64,
    ;
    assert(n < 0 ==> w as int == n as int + 0x1_0000_0000_0000_0000) by (bit_vector)
        requires
            w == n as u64,
    ;
}

impl Io {
    /// Opens `path`; only `map` (the bytes 0x6d 0x61 0x70) exists, and its cursor starts on port 0.
    pub fn open(&self, path: &[u8]) -> (r: Result<IoMap, Error>)
        ensures
            r is Ok <==> path@ == seq![0x6du8, 0x61u8, 0x70u8],
            r matches Ok(m) ==> m@ == 0,
            r matches Err(e) ==> e == Error::InvalidData,
    {
        if path.len() == 3 && path[0] == 0x6d && path[1] == 0x61 && path[2] == 0x70 {
            assert(path@ =~= seq![0x6du8, 0x61u8, 0x70u8]);
            Ok(IoMap { head: 0 })
        } else {
            Err(Error::InvalidData)
        }
    }
}

impl IoMap {
    /// Moves the cursor and returns the port it now stands on.
    pub fn seek(&mut self, from: SeekFrom) -> (pos: u64)
        ensures
            final(self)@ == seek_target(old(self)@, from),
            pos == final(self)@,
    {
        let n: u16 = match from {
            SeekFrom::Start(n) => n as u16,
            SeekFrom::Current(n) => self.head.wrapping_add(n as u16),
            SeekFrom::End(n) => (n as u16).wrapping_sub(1),
        };
        self.head = n;
        u64::from(n)
    }

    /// A read of `length` bytes: only single bytes are supported, and the
    /// byte is read from the port under the cursor, which then moves on.
    /// Returns that port.
    pub fn read(&mut self, length: usize) -> (r: Result<u16, Error>)
        requires
            length != 2,
            length != 4,
        ensures
            length == 1 ==> r == Ok::<u16, Error>(old(self)@) && final(self)@ == next_port(old(self)@),
            length != 1 ==> r == Err::<u16, Error>(Error::InvalidData) && final(self)@ == old(self)@,
    {
        if length == 1 {
            let port = self.head;
            self.head = self.head.wrapping_add(1);
            Ok(port)
        } else {
            Err(Error::InvalidData)
        }
    }

    /// Like [`IoMap::read`], but the cursor stays where it is.
    pub fn peek(&self, length: usize) -> (r: Result<u16, Error>)
        requires
            length != 2,
            length != 4,
        ensures
            length == 1 ==> r == Ok::<u16, Error>(self@),
            length != 1 ==> r == Err::<u16, Error>(Error::InvalidData),
    {
        if length == 1 {
            Ok(self.head)
        } else {
            Err(Error::InvalidData)
        }
    }

    /// A write of `data`: only single bytes are supported, and the byte goes
    /// to the port under the cursor, which then moves on. Returns that port
    /// and the byte.
    pub fn write(&mut self, data: &[u8]) -> (r: Result<(u16, u8), Error>)
        requires
            data@.len() != 2,
            data@.len() != 4,
        ensures
            data@.len() == 1 ==> r == Ok::<(u16, u8), Error>((old(self)@, data@[0]))
                && final(self)@ == next_port(old(self)@),
            data@.len() != 1 ==> r == Err::<(u16, u8), Error>(Error::InvalidData) && final(self)@ == old(self)@,
    {
        if data.len() == 1 {
            let port = self.head;
            self.head = self.head.wrapping_add(1);
            Ok((port, data[0]))
        } else {
            Err(Error::InvalidData)
        }
    }
}

} // verus!
