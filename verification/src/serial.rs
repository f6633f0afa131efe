//! The serial console: bytes arrive one at a time and are gathered into a
//! line until a carriage return or a full buffer; a line is then echoed
//! back reversed, or read as a command for the motion sensor.
use vstd::prelude::*;
use vstd::utf8::{decode_utf8, encode_utf8, valid_utf8};

verus! {

/// The carriage return that ends a line.
pub const CARRIAGE_RETURN: u8 = 13;

/// `core::str::from_utf8`: the bytes as a string when they are valid UTF-8.
#[verifier::external_body]
fn str_from_utf8(bytes: &[u8]) -> (r: Option<&str>)
    ensures
        r is Some <==> valid_utf8(bytes@),
        r matches Some(s) ==> encode_utf8(s@) == bytes@,
{
    core::str::from_utf8(bytes).ok()
}

/// The characters of a line in reverse order, or `None` when the line is
/// not valid UTF-8.
pub fn reverse_line(line: &[u8]) -> (r: Option<Vec<char>>)
    ensures
        r is Some <==> valid_utf8(line@),
        r matches Some(cs) ==> cs@ == decode_utf8(line@).reverse(),
{
    match str_from_utf8(line) {
        None => None,
        Some(s) => {
            proof {
                vstd::utf8::encode_utf8_decode_utf8(s@);
            }
            let mut chars: Vec<char> = Vec::new();
            for c in it: s.chars()
                invariant
                    it.seq() == s@,
                    chars@ == it.seq().take(it.index() as int),
            {
                chars.push(c);
            }
            let n = chars.len();
            let mut reversed: Vec<char> = Vec::new();
            for i in 0..n
                invariant
                    n == chars@.len(),
                    reversed@ == chars@.reverse().take(i as int),
            {
                reversed.push(chars[n - 1 - i]);
                assert(reversed@ =~= chars@.reverse().take(i + 1));
            }
            assert(reversed@ =~= chars@.reverse());
            Some(reversed)
        },
    }
}


/// A line being gathered in a buffer of `N` bytes.
pub struct LineBuffer<const N: usize> {
    buffer: [u8; N],
    count: usize,
}

impl<const N: usize> LineBuffer<N> {
    /// No more bytes are counted than the buffer holds.
    #[verifier::type_invariant]
    spec fn fits(self) -> bool {
        self.count <= N
    }

    /// The bytes gathered so far.
    pub closed spec fn line(&self) -> Seq<u8> {
        self.buffer@.take(self.count as int)
    }

    /// An empty line.
    pub fn new() -> (r: Self)
        ensures
            r.line() == Seq::<u8>::empty(),
    {
        LineBuffer { buffer: [0u8; N], count: 0 }
    }

    /// Whether the buffer is full.
    pub fn is_full(&self) -> (r: bool)
        ensures
            r == (self.line().len() == N),
    {
        proof {
            use_type_invariant(self);
        }
        self.count == N
    }

    /// Takes one received byte: a carriage return ends the line, any other
    /// byte is appended. Returns whether the line is complete: on a carriage
    /// return or once the buffer is full. A byte other than a carriage
    /// return cannot be taken into a full buffer.
    pub fn push(&mut self, byte: u8) -> (complete: bool)
        requires
            byte == CARRIAGE_RETURN || old(self).line().len() < N,
        ensures
            final(self).line() == (if byte == CARRIAGE_RETURN {
                old(self).line()
            } else {
                old(self).line().push(byte)
            }),
            complete == (byte == CARRIAGE_RETURN || final(self).line().len() == N),
    {
        proof {
            use_type_invariant(&*self);
        }
        let ghost old_line = self.line();
        if byte != CARRIAGE_RETURN {
            self.buffer[self.count] = byte;
            self.count = self.count + 1;
            assert(self.line() =~= old_line.push(byte));
        }
        byte == CARRIAGE_RETURN || self.count == N
    }

    /// The bytes gathered so far.
    pub fn as_bytes(&self) -> (r: &[u8])
        ensures
            r@ == self.line(),
    {
        proof {
            use_type_invariant(self);
        }
        &self.buffer[0..self.count]
    }

    /// Empties the line.
    pub fn clear(&mut self)
        ensures
            final(self).line() == Seq::<u8>::empty(),
    {
        *self = LineBuffer { buffer: [0u8; N], count: 0 };
    }
}

/// A command line of the motion-sensor console.
#[derive(Clone, Copy, Debug, PartialEq, Eq, Structural)]
pub enum Command {
    /// `mag`: report the magnetic field.
    Magnetometer,
    /// `acc`: report the acceleration.
    Accelerometer,
    /// Any other text.
    Unknown,
    /// Bytes that are not valid UTF-8.
    NotText,
}

/// The bytes of the text `mag`.
pub open spec fn mag_text() -> Seq<u8> {
    seq![109u8, 97u8, 103u8]
}

/// The bytes of the text `acc`.
pub open spec fn acc_text() -> Seq<u8> {
    seq![97u8, 99u8, 99u8]
}

/// Whether a line is exactly the three given bytes.
fn line_is(line: &[u8], a: u8, b: u8, c: u8) -> (r: bool)
    ensures
        r == (line@ == seq![a, b, c]),
{
    let r = line.len() == 3 && line[0] == a && line[1] == b && line[2] == c;
    proof {
        if line@.len() == 3 {
            assert(r ==> line@ =~= seq![a, b, c]);
        }
    }
    r
}

impl Command {
    /// The command that a complete line holds.
    pub fn parse(line: &[u8]) -> (r: Command)
        ensures
            r == (if !valid_utf8(line@) {
                Command::NotText
            } else if line@ == mag_text() {
                Command::Magnetometer
            } else if line@ == acc_text() {
                Command::Accelerometer
            } else {
                Command::Unknown
            }),
    {
        match str_from_utf8(line) {
            None => Command::NotText,
            Some(_) => {
                if line_is(line, 109, 97, 103) {
                    Command::Magnetometer
                } else if line_is(line, 97, 99, 99) {
                    Command::Accelerometer
                } else {
                    Command::Unknown
                }
            },
        }
    }

    /// Whether the console starts a new line after answering: it does for
    /// every command but bytes that are not text, which stay in the buffer.
    pub fn clears_line(&self) -> (r: bool)
        ensures
            r == !(*self == Command::NotText),
    {
        match self {
            Command::NotText => false,
            _ => true,
        }
    }
}

/// Echoing a reversed line reverses it back: the characters of the reversed
/// text, reversed again, are the line's characters.
pub proof fn lemma_reverse_twice(line: Seq<u8>)
    requires
        valid_utf8(line),
    ensures
        valid_utf8(encode_utf8(decode_utf8(line).reverse())),
        decode_utf8(encode_utf8(decode_utf8(line).reverse())).reverse() == decode_utf8(line),
{
    let r = decode_utf8(line).reverse();
    vstd::utf8::encode_utf8_valid_utf8(r);
    vstd::utf8::encode_utf8_decode_utf8(r);
    assert(r.reverse() =~= decode_utf8(line));
}

} // verus!
