//! Serial time protocol: a query `?` is answered with the current time as
//! `HH:MM\n`; a command `HH:MM` sets the time and is echoed back the same way.
use vstd::prelude::*;
use numtoa::NumToA;

verus! {

/// ASCII code of `0`.
pub const ASCII_ZERO: u8 = 48;

/// ASCII code of `?`, the time query.
pub const QUERY: u8 = 63;

/// ASCII code of `:`, the separator of a time command.
pub const SEPARATOR: u8 = 58;

/// ASCII code of the line feed that ends a reply.
pub const NEWLINE: u8 = 10;

/// Whether `b` is an ASCII decimal digit.
pub open spec fn is_digit(b: u8) -> bool {
    ASCII_ZERO <= b <= ASCII_ZERO + 9
}

/// The two-digit number written by the ASCII digits `tens` and `units`.
pub open spec fn two_digit_value(tens: u8, units: u8) -> int {
    (tens - ASCII_ZERO) * 10 + (units - ASCII_ZERO)
}

/// The reply that reports `h:m`: two zero-padded digits each, a colon
/// between them and a line feed after.
pub open spec fn time_reply(h: u8, m: u8) -> Seq<u8> {
    seq![
        (ASCII_ZERO + h / 10) as u8,
        (ASCII_ZERO + h % 10) as u8,
        SEPARATOR,
        (ASCII_ZERO + m / 10) as u8,
        (ASCII_ZERO + m % 10) as u8,
        NEWLINE,
    ]
}

/// The time that a command asks for: bytes 0-1 and 3-4 must be ASCII digits
/// giving hours below 24 and minutes below 60.
pub open spec fn requested_time(bytes: Seq<u8>) -> Option<(u8, u8)> {
    if bytes.len() >= 5 && is_digit(bytes[0]) && is_digit(bytes[1]) && is_digit(bytes[3])
        && is_digit(bytes[4]) && two_digit_value(bytes[0], bytes[1]) < 24
        && two_digit_value(bytes[3], bytes[4]) < 60 {
        Some((two_digit_value(bytes[0], bytes[1]) as u8, two_digit_value(bytes[3], bytes[4]) as u8))
    } else {
        None
    }
}

/// Relies on numtoa's `NumToA<u8>::numtoa` in base 10: it writes the decimal
/// digits of `n` at the end of the buffer and leaves the bytes before them
/// as they were.
#[verifier::external_body]
fn write_decimal(n: u8, buf: &mut [u8; 3])
    ensures
        final(buf)@[2] == ASCII_ZERO + n % 10,
        n >= 10 ==> final(buf)@[1] == ASCII_ZERO + (n / 10) % 10,
        n < 10 ==> final(buf)@[1] == old(buf)@[1],
        n >= 100 ==> final(buf)@[0] == ASCII_ZERO + n / 100,
        n < 100 ==> final(buf)@[0] == old(buf)@[0],
{
    n.numtoa(10, buf);
}

/// The two zero-padded decimal digits of `n`.
fn two_digits(n: u8) -> (r: (u8, u8))
    requires
        n < 100,
    ensures
        r.0 == ASCII_ZERO + n / 10,
        r.1 == ASCII_ZERO + n % 10,
{
    let mut buf: [u8; 3] = [ASCII_ZERO; 3];
    write_decimal(n, &mut buf);
    (buf[1], buf[2])
}

/// Formats `hours:minutes` as the six-byte reply `HH:MM\n`.
pub fn format_time(hours: u8, minutes: u8) -> (r: Vec<u8>)
    requires
        hours < 100,
        minutes < 100,
    ensures
        r@ == time_reply(hours, minutes),
{
    let (h1, h2) = two_digits(hours);
    let (m1, m2) = two_digits(minutes);
    let mut r: Vec<u8> = Vec::new();
    r.push(h1);
    r.push(h2);
    r.push(SEPARATOR);
    r.push(m1);
    r.push(m2);
    r.push(NEWLINE);
    assert(r@ =~= time_reply(hours, minutes));
    r
}

/// Whether `byte` occurs anywhere in `buf`.
pub fn contains_byte(buf: &[u8], byte: u8) -> (r: bool)
    ensures
        r == buf@.contains(byte),
{
    let mut i: usize = 0;
    while i < buf.len()
        invariant
            i <= buf@.len(),
            forall|j: int| 0 <= j < i ==> buf@[j] != byte,
        decreases buf@.len() - i,
    {
        if buf[i] == byte {
            assert(buf@[i as int] == byte);
            return true;
        }
        i += 1;
    }
    false
}

/// The value of an ASCII digit, or `None` for any other byte.
fn digit_value(b: u8) -> (r: Option<u8>)
    ensures
        r == (if is_digit(b) { Some((b - ASCII_ZERO) as u8) } else { None::<u8> }),
{
    if ASCII_ZERO <= b && b <= ASCII_ZERO + 9 {
        Some(b - ASCII_ZERO)
    } else {
        None
    }
}

/// Reads the time of a command `HH:MM`: digits at bytes 0-1 and 3-4, hours
/// below 24 and minutes below 60; `None` otherwise.
pub fn parse_time(bytes: &[u8]) -> (r: Option<(u8, u8)>)
    ensures
        r == requested_time(bytes@),
{
    if bytes.len() < 5 {
        return None;
    }
    match (digit_value(bytes[0]), digit_value(bytes[1]), digit_value(bytes[3]), digit_value(bytes[4])) {
        (Some(h1), Some(h2), Some(m1), Some(m2)) => {
            let hours: u8 = h1 * 10 + h2;
            let minutes: u8 = m1 * 10 + m2;
            if hours < 24 && minutes < 60 {
                Some((hours, minutes))
            } else {
                None
            }
        },
        _ => None,
    }
}

/// What handling one batch of received bytes gives: whether a new time was
/// accepted, and the bytes to send back, if any.
#[derive(Debug)]
pub struct Response {
    pub time_set: bool,
    pub reply: Option<Vec<u8>>,
}

/// The protocol's state: the last time accepted from a command.
pub struct UsbSerial {
    pub hours: u8,
    pub minutes: u8,
}

impl UsbSerial {
    /// No time accepted yet: 00:00.
    pub fn new() -> (r: UsbSerial)
        ensures
            r.hours == 0,
            r.minutes == 0,
    {
        UsbSerial { hours: 0, minutes: 0 }
    }

    /// Handles the bytes of one read, given the current time `hours:minutes`.
    ///
    /// A `?` anywhere is a query: the reply is the current time and nothing
    /// changes. Otherwise, with a `:` somewhere and a valid `HH:MM` at the
    /// start, the new time is kept, echoed back, and reported as set. Any
    /// other input gets no reply and changes nothing.
    pub fn handle(&mut self, hours: u8, minutes: u8, received: &[u8]) -> (r: Response)
        requires
            hours < 24,
            minutes < 60,
        ensures
            received@.contains(QUERY) ==> {
                &&& !r.time_set
                &&& r.reply matches Some(v) && v@ == time_reply(hours, minutes)
                &&& final(self).hours == old(self).hours
                &&& final(self).minutes == old(self).minutes
            },
            !received@.contains(QUERY) && received@.contains(SEPARATOR) && requested_time(received@) is Some
                ==> {
                &&& r.time_set
                &&& requested_time(received@) == Some((final(self).hours, final(self).minutes))
                &&& r.reply matches Some(v) && v@ == time_reply(final(self).hours, final(self).minutes)
            },
            !received@.contains(QUERY) && !(received@.contains(SEPARATOR) && requested_time(received@) is Some)
                ==> {
                &&& !r.time_set
                &&& r.reply is None
                &&& final(self).hours == old(self).hours
                &&& final(self).minutes == old(self).minutes
            },
    {
        if contains_byte(received, QUERY) {
            Response { time_set: false, reply: Some(format_time(hours, minutes)) }
        } else if contains_byte(received, SEPARATOR) {
            match parse_time(received) {
                Some((h, m)) => {
                    self.hours = h;
                    self.minutes = m;
                    Response { time_set: true, reply: Some(format_time(h, m)) }
                },
                None => Response { time_set: false, reply: None },
            }
        } else {
            Response { time_set: false, reply: None }
        }
    }

    /// The last time accepted from a command.
    pub fn get_time(&self) -> (r: (u8, u8))
        ensures
            r == (self.hours, self.minutes),
    {
        (self.hours, self.minutes)
    }
}

/// A reply, read back as a command, gives the time it reports.
pub proof fn lemma_reply_parses_back(h: u8, m: u8)
    requires
        h < 24,
        m < 60,
    ensures
        requested_time(time_reply(h, m)) == Some((h, m)),
{
    let r = time_reply(h, m);
    assert(two_digit_value(r[0], r[1]) == h as int);
    assert(two_digit_value(r[3], r[4]) == m as int);
}

} // verus!
