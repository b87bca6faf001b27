//! Network interfaces as read from the host: hardware addresses in text
//! form and traffic totals, both without the loopback interfaces.

use crate::text::{starts_with, starts_with_text, texts_of};
use vstd::prelude::*;
use vstd::string::StringExecFns;

verus! {

/// Prefix that the names of loopback interfaces carry.
pub const LOOPBACK_PREFIX: &'static str = "lo";

/// One network interface of the host.
#[derive(Clone, Debug, PartialEq, Eq)]
pub struct InterfaceReading {
    pub name: String,
    /// Hardware address.
    pub mac: [u8; 6],
    /// Bytes received since the interface came up.
    pub received: u64,
    /// Bytes sent since the interface came up.
    pub transmitted: u64,
}

/// Mathematical content of an [`InterfaceReading`].
pub struct InterfaceReadingView {
    pub name: Seq<char>,
    pub mac: Seq<u8>,
    pub received: nat,
    pub transmitted: nat,
}

impl View for InterfaceReading {
    type V = InterfaceReadingView;

    open spec fn view(&self) -> InterfaceReadingView {
        InterfaceReadingView {
            name: self.name@,
            mac: self.mac@,
            received: self.received as nat,
            transmitted: self.transmitted as nat,
        }
    }
}

impl InterfaceReadingView {
    /// Whether the interface is of the loopback class.
    pub open spec fn is_loopback(self) -> bool {
        starts_with_text(self.name, LOOPBACK_PREFIX@)
    }
}

/// The content of each reading of a list.
pub open spec fn readings_of(v: Seq<InterfaceReading>) -> Seq<InterfaceReadingView> {
    Seq::new(v.len(), |i: int| v[i]@)
}

/// The lower-case hexadecimal digit of `n`, for `n` below 16.
pub open spec fn hex_char(n: int) -> char {
    if n < 10 {
        ((48 + n) as u8) as char
    } else {
        ((87 + n) as u8) as char
    }
}

/// The two hexadecimal digits of a byte, high one first.
pub open spec fn hex_pair(b: u8) -> Seq<char> {
    seq![hex_char(b as int / 16), hex_char(b as int % 16)]
}

/// A hardware address in text form: six pairs of hexadecimal digits with
/// colons between them.
pub open spec fn mac_text(mac: Seq<u8>) -> Seq<char> {
    hex_pair(mac[0]) + seq![':'] + hex_pair(mac[1]) + seq![':'] + hex_pair(mac[2]) + seq![':']
        + hex_pair(mac[3]) + seq![':'] + hex_pair(mac[4]) + seq![':'] + hex_pair(mac[5])
}

/// The hardware addresses of the interfaces that are not loopback, in
/// order and in text form.
pub open spec fn mac_texts(all: Seq<InterfaceReadingView>) -> Seq<Seq<char>>
    decreases all.len(),
{
    if all.len() == 0 {
        Seq::empty()
    } else if all.last().is_loopback() {
        mac_texts(all.drop_last())
    } else {
        mac_texts(all.drop_last()).push(mac_text(all.last().mac))
    }
}

/// Bytes received over all interfaces that are not loopback.
pub open spec fn received_total(all: Seq<InterfaceReadingView>) -> nat
    decreases all.len(),
{
    if all.len() == 0 {
        0
    } else if all.last().is_loopback() {
        received_total(all.drop_last())
    } else {
        received_total(all.drop_last()) + all.last().received
    }
}

/// Bytes sent over all interfaces that are not loopback.
pub open spec fn transmitted_total(all: Seq<InterfaceReadingView>) -> nat
    decreases all.len(),
{
    if all.len() == 0 {
        0
    } else if all.last().is_loopback() {
        transmitted_total(all.drop_last())
    } else {
        transmitted_total(all.drop_last()) + all.last().transmitted
    }
}

/// Whether both traffic totals fit the 64-bit counters of a snapshot.
pub open spec fn totals_fit(all: Seq<InterfaceReadingView>) -> bool {
    received_total(all) <= u64::MAX && transmitted_total(all) <= u64::MAX
}

fn hex_digit(n: u8) -> (d: &'static str)
    requires
        n < 16,
    ensures
        d@ == seq![hex_char(n as int)],
{
    proof {
        reveal_strlit("0");
        reveal_strlit("1");
        reveal_strlit("2");
        reveal_strlit("3");
        reveal_strlit("4");
        reveal_strlit("5");
        reveal_strlit("6");
        reveal_strlit("7");
        reveal_strlit("8");
        reveal_strlit("9");
        reveal_strlit("a");
        reveal_strlit("b");
        reveal_strlit("c");
        reveal_strlit("d");
        reveal_strlit("e");
        reveal_strlit("f");
    }
    let d = match n {
        0 => "0",
        1 => "1",
        2 => "2",
        3 => "3",
        4 => "4",
        5 => "5",
        6 => "6",
        7 => "7",
        8 => "8",
        9 => "9",
        10 => "a",
        11 => "b",
        12 => "c",
        13 => "d",
        14 => "e",
        _ => "f",
    };
    assert(d@ =~= seq![hex_char(n as int)]);
    d
}

fn push_hex_pair(out: &mut String, b: u8)
    ensures
        final(out)@ == old(out)@ + hex_pair(b),
{
    out.append(hex_digit(b / 16));
    out.append(hex_digit(b % 16));
    assert(out@ =~= old(out)@ + hex_pair(b));
}

/// Writes a hardware address as six pairs of lower-case hexadecimal digits
/// with colons between them.
pub fn format_mac(mac: &[u8; 6]) -> (text: String)
    ensures
        text@ == mac_text(mac@),
{
    proof {
        reveal_strlit(":");
    }
    let mut text = String::new();
    push_hex_pair(&mut text, mac[0]);
    text.append(":");
    push_hex_pair(&mut text, mac[1]);
    text.append(":");
    push_hex_pair(&mut text, mac[2]);
    text.append(":");
    push_hex_pair(&mut text, mac[3]);
    text.append(":");
    push_hex_pair(&mut text, mac[4]);
    text.append(":");
    push_hex_pair(&mut text, mac[5]);
    assert(text@ =~= mac_text(mac@));
    text
}

/// Lists the hardware addresses of the interfaces that are not loopback,
/// in the order in which the interfaces were read.
pub fn mac_addresses(all: &Vec<InterfaceReading>) -> (macs: Vec<String>)
    ensures
        texts_of(macs@) == mac_texts(readings_of(all@)),
{
    let mut macs: Vec<String> = Vec::new();
    let mut k: usize = 0;
    while k < all.len()
        invariant
            k <= all.len(),
            texts_of(macs@) == mac_texts(readings_of(all@).take(k as int)),
        decreases all.len() - k,
    {
        let ghost before = texts_of(macs@);
        proof {
            let views = readings_of(all@);
            assert(views.take(k + 1).drop_last() =~= views.take(k as int));
            assert(views.take(k + 1).last() == all@[k as int]@);
        }
        if !starts_with(all[k].name.as_str(), LOOPBACK_PREFIX) {
            macs.push(format_mac(&all[k].mac));
            assert(texts_of(macs@) =~= before.push(mac_text(all@[k as int].mac@)));
        }
        k = k + 1;
    }
    assert(readings_of(all@).take(all.len() as int) =~= readings_of(all@));
    macs
}

/// Sums the traffic counters of the interfaces that are not loopback:
/// bytes received, then bytes sent.
pub fn traffic_totals(all: &Vec<InterfaceReading>) -> (totals: (u128, u128))
    ensures
        totals.0 == received_total(readings_of(all@)),
        totals.1 == transmitted_total(readings_of(all@)),
{
    let mut rx: u128 = 0;
    let mut tx: u128 = 0;
    let mut k: usize = 0;
    while k < all.len()
        invariant
            k <= all.len(),
            rx == received_total(readings_of(all@).take(k as int)),
            tx == transmitted_total(readings_of(all@).take(k as int)),
            rx <= k * 0xFFFF_FFFF_FFFF_FFFF,
            tx <= k * 0xFFFF_FFFF_FFFF_FFFF,
        decreases all.len() - k,
    {
        proof {
            let views = readings_of(all@);
            assert(views.take(k + 1).drop_last() =~= views.take(k as int));
            assert(views.take(k + 1).last() == all@[k as int]@);
        }
        if !starts_with(all[k].name.as_str(), LOOPBACK_PREFIX) {
            rx = rx + all[k].received as u128;
            tx = tx + all[k].transmitted as u128;
        }
        k = k + 1;
    }
    assert(readings_of(all@).take(all.len() as int) =~= readings_of(all@));
    (rx, tx)
}

/// Decides whether both traffic totals fit the 64-bit counters of a
/// snapshot.
pub fn traffic_fits(all: &Vec<InterfaceReading>) -> (ok: bool)
    ensures
        ok == totals_fit(readings_of(all@)),
{
    let (rx, tx) = traffic_totals(all);
    rx <= 0xFFFF_FFFF_FFFF_FFFF && tx <= 0xFFFF_FFFF_FFFF_FFFF
}

} // verus!
