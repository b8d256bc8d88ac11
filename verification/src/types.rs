//! The plain values that the shell works on: hashes, times, addresses, keys.

use crate::text::{decimal, decimal_string, hex_string, hex_upper, join3};
use vstd::prelude::*;
use vstd::string::StringExecFns;

verus! {

/// The content hash of a transaction or of a block's state.
#[derive(Debug, Clone, Copy)]
pub struct Hash {
    pub bytes: [u8; 32],
}

impl View for Hash {
    type V = Seq<u8>;

    open spec fn view(&self) -> Seq<u8> {
        self.bytes@
    }
}

impl Hash {
    /// The hash that the given bytes are.
    pub fn new(bytes: [u8; 32]) -> (r: Hash)
        ensures
            r.bytes == bytes,
    {
        Hash { bytes }
    }

    /// Whether two hashes are the same 32 bytes.
    pub fn same(&self, other: &Hash) -> (r: bool)
        ensures
            r == (*self == *other),
    {
        let mut i: usize = 0;
        while i < 32
            invariant
                i <= 32,
                forall|j: int| 0 <= j < i ==> self.bytes@[j] == other.bytes@[j],
            decreases 32 - i,
        {
            if self.bytes[i] != other.bytes[i] {
                return false;
            }
            i += 1;
        }
        assert(self.bytes@ =~= other.bytes@);
        assert(self.bytes == other.bytes);
        true
    }

    /// The hash in upper-case hexadecimal, 64 digits.
    pub fn to_string(&self) -> (r: String)
        ensures
            r@ == hex_upper(self@),
    {
        hex_string(self.bytes.as_slice())
    }

    /// The 32 bytes, owned.
    pub fn to_vec(&self) -> (r: Vec<u8>)
        ensures
            r@ == self@,
    {
        let mut out: Vec<u8> = Vec::new();
        let mut i: usize = 0;
        while i < 32
            invariant
                i <= 32,
                out@ == self.bytes@.take(i as int),
            decreases 32 - i,
        {
            out.push(self.bytes[i]);
            assert(out@ =~= self.bytes@.take(i + 1));
            i += 1;
        }
        assert(self.bytes@.take(32) =~= self.bytes@);
        out
    }
}

/// A point in time, UTC: whole seconds since the Unix epoch and the
/// nanoseconds into that second.
#[derive(Debug, Clone, Copy, PartialEq, Eq, Structural)]
pub struct DateTimeUtc {
    pub secs: i64,
    pub nanos: u32,
}

/// A point in time as the consensus engine gives it: seconds since the
/// Unix epoch and nanoseconds to add to them, which may be negative or more
/// than a second.
#[derive(Debug, Clone, Copy, PartialEq, Eq, Structural)]
pub struct Timestamp {
    pub seconds: i64,
    pub nanos: i32,
}

impl Timestamp {
    /// Nanoseconds since the Unix epoch.
    pub open spec fn instant(self) -> int {
        self.seconds * 1_000_000_000 + self.nanos
    }
}

/// The text of a signed number: a minus sign before the digits of a
/// negative one.
pub open spec fn signed_decimal(n: int) -> Seq<char> {
    if n < 0 {
        seq!['-'] + decimal((-n) as nat)
    } else {
        decimal(n as nat)
    }
}

impl DateTimeUtc {
    /// A valid time has less than a second's worth of nanoseconds.
    pub open spec fn well_formed(self) -> bool {
        self.nanos < 1_000_000_000
    }

    /// Nanoseconds since the Unix epoch.
    pub open spec fn instant(self) -> int {
        self.secs * 1_000_000_000 + self.nanos
    }

    /// Whether this time comes strictly after the other.
    pub open spec fn later_than(self, other: DateTimeUtc) -> bool {
        self.secs > other.secs || (self.secs == other.secs && self.nanos > other.nanos)
    }

    /// How the time is written in log lines: the seconds, `s+`, the
    /// nanoseconds, `ns`.
    pub open spec fn rendered(self) -> Seq<char> {
        signed_decimal(self.secs as int) + seq!['s', '+'] + decimal(self.nanos as nat) + seq![
            'n',
            's',
        ]
    }

    /// The valid time at an instant, given in nanoseconds since the Unix
    /// epoch: its whole seconds and what is left of it. None where the
    /// seconds do not fit.
    pub open spec fn at_instant(instant: int) -> Option<DateTimeUtc> {
        if i64::MIN * 1_000_000_000 <= instant < (i64::MAX + 1) * 1_000_000_000 {
            Some(
                DateTimeUtc {
                    secs: (instant / 1_000_000_000) as i64,
                    nanos: (instant % 1_000_000_000) as u32,
                },
            )
        } else {
            None
        }
    }

    /// The time that a timestamp of the consensus engine stands for: the
    /// valid time at the same instant, if there is one.
    pub fn from_timestamp(timestamp: Timestamp) -> (r: Option<DateTimeUtc>)
        ensures
            r == Self::at_instant(timestamp.instant()),
    {
        let nanos: i64 = timestamp.nanos as i64;
        let (carry, rest): (i64, i64) = if nanos < 0 {
            if nanos >= -1_000_000_000 {
                (-1, nanos + 1_000_000_000)
            } else if nanos >= -2_000_000_000 {
                (-2, nanos + 2_000_000_000)
            } else {
                (-3, nanos + 3_000_000_000)
            }
        } else if nanos < 1_000_000_000 {
            (0, nanos)
        } else if nanos < 2_000_000_000 {
            (1, nanos - 1_000_000_000)
        } else {
            (2, nanos - 2_000_000_000)
        };
        assert(0 <= rest <= 1_000_000_000);
        let (carry, rest): (i64, i64) = if rest == 1_000_000_000 {
            (carry + 1, 0)
        } else {
            (carry, rest)
        };
        match timestamp.seconds.checked_add(carry) {
            Some(secs) => {
                let time = DateTimeUtc { secs, nanos: rest as u32 };
                proof {
                    valid_time_is_at_its_instant(time);
                }
                Some(time)
            },
            None => None,
        }
    }

    /// Whether this time comes strictly after the other.
    pub fn is_after(&self, other: &DateTimeUtc) -> (r: bool)
        ensures
            r == self.later_than(*other),
    {
        self.secs > other.secs || (self.secs == other.secs && self.nanos > other.nanos)
    }

    /// The time as it stands in log lines.
    pub fn to_string(&self) -> (r: String)
        ensures
            r@ == self.rendered(),
    {
        proof {
            reveal_strlit("-");
            reveal_strlit("s+");
            reveal_strlit("ns");
            reveal_strlit("");
        }
        let magnitude: u64 = if self.secs < 0 {
            ((-(self.secs + 1)) as u64) + 1
        } else {
            self.secs as u64
        };
        let sign: &str = if self.secs < 0 {
            "-"
        } else {
            ""
        };
        let digits = decimal_string(magnitude);
        let mut s = join3(sign, digits.as_str(), "s+");
        let nanos = decimal_string(self.nanos as u64);
        s.append(nanos.as_str());
        s.append("ns");
        assert(s@ =~= self.rendered());
        s
    }
}

/// A valid time is the time at its instant, and the time at an instant
/// is valid and has that instant.
pub proof fn valid_time_is_at_its_instant(time: DateTimeUtc)
    requires
        time.well_formed(),
    ensures
        DateTimeUtc::at_instant(time.instant()) == Some(time),
{
    let secs = time.secs as int;
    let nanos = time.nanos as int;
    assert((secs * 1_000_000_000 + nanos) / 1_000_000_000 == secs && (secs * 1_000_000_000
        + nanos) % 1_000_000_000 == nanos) by (nonlinear_arith)
        requires
            0 <= nanos < 1_000_000_000,
    ;
}

/// The time at an instant, where there is one, is valid and has that
/// instant.
pub proof fn time_at_instant_has_it(instant: int)
    ensures
        DateTimeUtc::at_instant(instant) matches Some(time) ==> time.well_formed()
            && time.instant() == instant,
{
    assert(0 <= instant % 1_000_000_000 < 1_000_000_000 && (instant / 1_000_000_000)
        * 1_000_000_000 + instant % 1_000_000_000 == instant) by (nonlinear_arith);
    if i64::MIN * 1_000_000_000 <= instant < (i64::MAX + 1) * 1_000_000_000 {
        assert(i64::MIN <= instant / 1_000_000_000 <= i64::MAX) by (nonlinear_arith)
            requires
                i64::MIN * 1_000_000_000 <= instant < (i64::MAX + 1) * 1_000_000_000,
        ;
    }
}

/// On valid times, `later_than` is the order of the instants.
pub proof fn later_than_is_instant_order(a: DateTimeUtc, b: DateTimeUtc)
    requires
        a.well_formed(),
        b.well_formed(),
    ensures
        a.later_than(b) <==> a.instant() > b.instant(),
        !a.later_than(b) && !b.later_than(a) <==> a == b,
{
}

/// The address of an account, as text.
#[derive(Debug)]
pub struct Address {
    pub raw: String,
}

impl View for Address {
    type V = Seq<char>;

    open spec fn view(&self) -> Seq<char> {
        self.raw@
    }
}

impl Clone for Address {
    fn clone(&self) -> (r: Address)
        ensures
            r == *self,
    {
        Address { raw: self.raw.clone() }
    }
}

impl Address {
    /// The address that the text names.
    pub fn new(raw: &str) -> (r: Address)
        ensures
            r@ == raw@,
    {
        Address { raw: String::from_str(raw) }
    }

    /// Whether both name the same account.
    pub fn same(&self, other: &Address) -> (r: bool)
        ensures
            r == (self@ == other@),
    {
        self.raw == other.raw
    }
}

/// A public key, as text.
#[derive(Debug)]
pub struct PublicKey {
    pub raw: String,
}

impl View for PublicKey {
    type V = Seq<char>;

    open spec fn view(&self) -> Seq<char> {
        self.raw@
    }
}

impl Clone for PublicKey {
    fn clone(&self) -> (r: PublicKey)
        ensures
            r == *self,
    {
        PublicKey { raw: self.raw.clone() }
    }
}

impl PublicKey {
    /// The key that the text encodes.
    pub fn new(raw: &str) -> (r: PublicKey)
        ensures
            r@ == raw@,
    {
        PublicKey { raw: String::from_str(raw) }
    }

    /// Whether both are the same key.
    pub fn same(&self, other: &PublicKey) -> (r: bool)
        ensures
            r == (self@ == other@),
    {
        self.raw == other.raw
    }
}

/// A secret key, as text. The shell hands it to whoever signs and never
/// looks inside.
#[derive(Debug)]
pub struct SecretKey {
    pub raw: String,
}

impl View for SecretKey {
    type V = Seq<char>;

    open spec fn view(&self) -> Seq<char> {
        self.raw@
    }
}

impl Clone for SecretKey {
    fn clone(&self) -> (r: SecretKey)
        ensures
            r == *self,
    {
        SecretKey { raw: self.raw.clone() }
    }
}

impl SecretKey {
    /// The key that the text encodes.
    pub fn new(raw: &str) -> (r: SecretKey)
        ensures
            r@ == raw@,
    {
        SecretKey { raw: String::from_str(raw) }
    }
}

} // verus!
