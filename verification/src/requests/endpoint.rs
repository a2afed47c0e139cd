//! The bit fields of an endpoint descriptor: its address and its attributes.
use vstd::prelude::*;

verus! {

/// Direction of a transfer, as seen from the host.
#[derive(Debug, Clone, Copy, PartialEq, Eq, Structural)]
pub enum Direction {
    In,
    Out,
}

/// `bEndpointAddress` of an endpoint descriptor: bit 7 is the direction,
/// bits 0..=3 the endpoint number.
#[derive(Debug, Clone, Copy, PartialEq, Eq, Structural)]
pub struct EndpointAddress(pub u8);

impl View for EndpointAddress {
    type V = u8;

    open spec fn view(&self) -> u8 {
        self.0
    }
}

/// The direction that bit 7 of an endpoint address selects.
pub open spec fn address_direction(raw: u8) -> Direction {
    if raw & 0x80 == 0 {
        Direction::Out
    } else {
        Direction::In
    }
}

impl EndpointAddress {
    pub fn direction(&self) -> (d: Direction)
        ensures
            d == address_direction(self@),
    {
        assert(1u8 << 7u8 == 0x80) by (bit_vector);
        if self.0 & 1 << 7 == 0 {
            Direction::Out
        } else {
            Direction::In
        }
    }

    /// Describes the address by its decoded fields, as
    /// `EndpointAddress { direction: In, number: N1 }`.
    pub fn debug_text(&self) -> (t: String)
        requires
            self@ & 0xf != 0,
        ensures
            t@ == address_text(address_direction(self@), endpoint_number(self@)),
    {
        let mut t = String::from_str("EndpointAddress { direction: ");
        t.append(direction_str(self.direction()));
        t.append(", number: ");
        t.append(number_str(self.number()));
        t.append(" }");
        t
    }

    /// The endpoint number, bits 0..=3. Number 0 is the default control
    /// endpoint, which has no endpoint descriptor, so it is left out.
    pub fn number(&self) -> (n: EndpointNumber)
        requires
            self@ & 0xf != 0,
        ensures
            n.spec_index() == self@ & 0xf,
            n == endpoint_number(self@),
    {
        let raw: u8 = self.0;
        let v: u8 = raw & 0xf;
        assert(v <= 15) by (bit_vector)
            requires
                v == raw & 0xf,
        ;
        match v {
            1 => EndpointNumber::N1,
            2 => EndpointNumber::N2,
            3 => EndpointNumber::N3,
            4 => EndpointNumber::N4,
            5 => EndpointNumber::N5,
            6 => EndpointNumber::N6,
            7 => EndpointNumber::N7,
            8 => EndpointNumber::N8,
            9 => EndpointNumber::N9,
            10 => EndpointNumber::N10,
            11 => EndpointNumber::N11,
            12 => EndpointNumber::N12,
            13 => EndpointNumber::N13,
            14 => EndpointNumber::N14,
            _ => EndpointNumber::N15,
        }
    }
}

/// A non-zero endpoint number.
#[derive(Debug, Clone, Copy, PartialEq, Eq, Structural)]
pub enum EndpointNumber {
    N1,
    N2,
    N3,
    N4,
    N5,
    N6,
    N7,
    N8,
    N9,
    N10,
    N11,
    N12,
    N13,
    N14,
    N15,
}

/// The endpoint number that the address byte `raw` holds in bits 0..=3.
pub open spec fn endpoint_number(raw: u8) -> EndpointNumber {
    number_of(raw & 0xf)
}

/// The endpoint number variant for the bits `v` (1..=15).
pub open spec fn number_of(v: u8) -> EndpointNumber {
    match v {
        1 => EndpointNumber::N1,
        2 => EndpointNumber::N2,
        3 => EndpointNumber::N3,
        4 => EndpointNumber::N4,
        5 => EndpointNumber::N5,
        6 => EndpointNumber::N6,
        7 => EndpointNumber::N7,
        8 => EndpointNumber::N8,
        9 => EndpointNumber::N9,
        10 => EndpointNumber::N10,
        11 => EndpointNumber::N11,
        12 => EndpointNumber::N12,
        13 => EndpointNumber::N13,
        14 => EndpointNumber::N14,
        _ => EndpointNumber::N15,
    }
}

/// The name of an endpoint number variant.
pub open spec fn number_name(n: EndpointNumber) -> Seq<char> {
    match n {
        EndpointNumber::N1 => "N1"@,
        EndpointNumber::N2 => "N2"@,
        EndpointNumber::N3 => "N3"@,
        EndpointNumber::N4 => "N4"@,
        EndpointNumber::N5 => "N5"@,
        EndpointNumber::N6 => "N6"@,
        EndpointNumber::N7 => "N7"@,
        EndpointNumber::N8 => "N8"@,
        EndpointNumber::N9 => "N9"@,
        EndpointNumber::N10 => "N10"@,
        EndpointNumber::N11 => "N11"@,
        EndpointNumber::N12 => "N12"@,
        EndpointNumber::N13 => "N13"@,
        EndpointNumber::N14 => "N14"@,
        EndpointNumber::N15 => "N15"@,
    }
}

fn number_str(n: EndpointNumber) -> (s: &'static str)
    ensures
        s@ == number_name(n),
{
    match n {
        EndpointNumber::N1 => "N1",
        EndpointNumber::N2 => "N2",
        EndpointNumber::N3 => "N3",
        EndpointNumber::N4 => "N4",
        EndpointNumber::N5 => "N5",
        EndpointNumber::N6 => "N6",
        EndpointNumber::N7 => "N7",
        EndpointNumber::N8 => "N8",
        EndpointNumber::N9 => "N9",
        EndpointNumber::N10 => "N10",
        EndpointNumber::N11 => "N11",
        EndpointNumber::N12 => "N12",
        EndpointNumber::N13 => "N13",
        EndpointNumber::N14 => "N14",
        EndpointNumber::N15 => "N15",
    }
}

/// The name of a direction.
pub open spec fn direction_name(d: Direction) -> Seq<char> {
    match d {
        Direction::In => "In"@,
        Direction::Out => "Out"@,
    }
}

fn direction_str(d: Direction) -> (s: &'static str)
    ensures
        s@ == direction_name(d),
{
    match d {
        Direction::In => "In",
        Direction::Out => "Out",
    }
}

/// The text that describes an endpoint address with direction `d` and
/// number `n`.
pub open spec fn address_text(d: Direction, n: EndpointNumber) -> Seq<char> {
    "EndpointAddress { direction: "@ + direction_name(d) + ", number: "@ + number_name(n) + " }"@
}

impl EndpointNumber {
    /// The number that the variant stands for.
    pub open spec fn spec_index(self) -> nat {
        match self {
            EndpointNumber::N1 => 1,
            EndpointNumber::N2 => 2,
            EndpointNumber::N3 => 3,
            EndpointNumber::N4 => 4,
            EndpointNumber::N5 => 5,
            EndpointNumber::N6 => 6,
            EndpointNumber::N7 => 7,
            EndpointNumber::N8 => 8,
            EndpointNumber::N9 => 9,
            EndpointNumber::N10 => 10,
            EndpointNumber::N11 => 11,
            EndpointNumber::N12 => 12,
            EndpointNumber::N13 => 13,
            EndpointNumber::N14 => 14,
            EndpointNumber::N15 => 15,
        }
    }
}

impl From<EndpointNumber> for usize {
    fn from(n: EndpointNumber) -> (r: usize) {
        match n {
            EndpointNumber::N1 => 1,
            EndpointNumber::N2 => 2,
            EndpointNumber::N3 => 3,
            EndpointNumber::N4 => 4,
            EndpointNumber::N5 => 5,
            EndpointNumber::N6 => 6,
            EndpointNumber::N7 => 7,
            EndpointNumber::N8 => 8,
            EndpointNumber::N9 => 9,
            EndpointNumber::N10 => 10,
            EndpointNumber::N11 => 11,
            EndpointNumber::N12 => 12,
            EndpointNumber::N13 => 13,
            EndpointNumber::N14 => 14,
            EndpointNumber::N15 => 15,
        }
    }
}

impl vstd::std_specs::convert::FromSpecImpl<EndpointNumber> for usize {
    open spec fn obeys_from_spec() -> bool {
        true
    }

    open spec fn from_spec(n: EndpointNumber) -> usize {
        n.spec_index() as usize
    }
}

/// Converting an endpoint address's number to `usize` gives bits 0..=3 of
/// the address back.
pub proof fn lemma_number_to_usize(a: EndpointAddress, n: EndpointNumber)
    requires
        a@ & 0xf != 0,
        n.spec_index() == a@ & 0xf,
    ensures
        <usize as vstd::std_specs::convert::FromSpec<EndpointNumber>>::from_spec(n) == (a@ & 0xf) as usize,
        1 <= <usize as vstd::std_specs::convert::FromSpec<EndpointNumber>>::from_spec(n) <= 15,
{
    let raw: u8 = a@;
    assert(raw & 0xf <= 15) by (bit_vector);
}

/// `bmAttributes` of an endpoint descriptor.
#[derive(Debug, Clone, Copy, PartialEq, Eq, Structural)]
pub struct EndpointAttributes(pub u8);

impl View for EndpointAttributes {
    type V = u8;

    open spec fn view(&self) -> u8 {
        self.0
    }
}

/// Usage type, bits 4..=5 of the attributes (isochronous endpoints).
#[derive(Debug, Clone, Copy, PartialEq, Eq, Structural)]
pub enum EndpointUsage {
    Data,
    Feedback,
    Implicit,
}

/// Synchronisation type, bits 2..=3 of the attributes.
#[derive(Debug, Clone, Copy, PartialEq, Eq, Structural)]
pub enum EndpointSync {
    NoSync,
    Async,
    Adapt,
    Sync,
}

/// Transfer type, bits 0..=1 of the attributes.
#[derive(Debug, Clone, Copy, PartialEq, Eq, Structural)]
pub enum EndpointTransfer {
    Control,
    Isoch,
    Bulk,
    Interrupt,
}

/// The usage type that the two bits `field` (0..=2) encode.
pub open spec fn usage_of(field: u8) -> EndpointUsage {
    if field == 0 {
        EndpointUsage::Data
    } else if field == 1 {
        EndpointUsage::Feedback
    } else {
        EndpointUsage::Implicit
    }
}

/// The synchronisation type that the two bits `field` encode.
pub open spec fn sync_of(field: u8) -> EndpointSync {
    if field == 0 {
        EndpointSync::NoSync
    } else if field == 1 {
        EndpointSync::Async
    } else if field == 2 {
        EndpointSync::Adapt
    } else {
        EndpointSync::Sync
    }
}

/// The transfer type that the two bits `field` encode.
pub open spec fn transfer_of(field: u8) -> EndpointTransfer {
    if field == 0 {
        EndpointTransfer::Control
    } else if field == 1 {
        EndpointTransfer::Isoch
    } else if field == 2 {
        EndpointTransfer::Bulk
    } else {
        EndpointTransfer::Interrupt
    }
}

/// The name of a usage type.
pub open spec fn usage_name(u: EndpointUsage) -> Seq<char> {
    match u {
        EndpointUsage::Data => "Data"@,
        EndpointUsage::Feedback => "Feedback"@,
        EndpointUsage::Implicit => "Implicit"@,
    }
}

fn usage_str(u: EndpointUsage) -> (s: &'static str)
    ensures
        s@ == usage_name(u),
{
    match u {
        EndpointUsage::Data => "Data",
        EndpointUsage::Feedback => "Feedback",
        EndpointUsage::Implicit => "Implicit",
    }
}

/// The name of a synchronisation type; "no synchronisation" reads `None`.
pub open spec fn sync_name(s: EndpointSync) -> Seq<char> {
    match s {
        EndpointSync::NoSync => "None"@,
        EndpointSync::Async => "Async"@,
        EndpointSync::Adapt => "Adapt"@,
        EndpointSync::Sync => "Sync"@,
    }
}

fn sync_str(s: EndpointSync) -> (r: &'static str)
    ensures
        r@ == sync_name(s),
{
    match s {
        EndpointSync::NoSync => "None",
        EndpointSync::Async => "Async",
        EndpointSync::Adapt => "Adapt",
        EndpointSync::Sync => "Sync",
    }
}

/// The name of a transfer type.
pub open spec fn transfer_name(t: EndpointTransfer) -> Seq<char> {
    match t {
        EndpointTransfer::Control => "Control"@,
        EndpointTransfer::Isoch => "Isoch"@,
        EndpointTransfer::Bulk => "Bulk"@,
        EndpointTransfer::Interrupt => "Interrupt"@,
    }
}

fn transfer_str(t: EndpointTransfer) -> (s: &'static str)
    ensures
        s@ == transfer_name(t),
{
    match t {
        EndpointTransfer::Control => "Control",
        EndpointTransfer::Isoch => "Isoch",
        EndpointTransfer::Bulk => "Bulk",
        EndpointTransfer::Interrupt => "Interrupt",
    }
}

/// The text that describes endpoint attributes by their decoded fields.
pub open spec fn attributes_text(u: EndpointUsage, s: EndpointSync, t: EndpointTransfer) -> Seq<
    char,
> {
    "EndpointAttributes { usage: "@ + usage_name(u) + ", sync: "@ + sync_name(s) + ", transfer: "@
        + transfer_name(t) + " }"@
}

/// The usage type that the attribute byte `raw` holds in bits 4..=5.
pub open spec fn endpoint_usage(raw: u8) -> EndpointUsage {
    usage_of((raw >> 4u8) & 3)
}

/// The synchronisation type that the attribute byte `raw` holds in bits 2..=3.
pub open spec fn endpoint_sync(raw: u8) -> EndpointSync {
    sync_of((raw >> 2u8) & 3)
}

/// The transfer type that the attribute byte `raw` holds in bits 0..=1.
pub open spec fn endpoint_transfer(raw: u8) -> EndpointTransfer {
    transfer_of(raw & 3)
}

impl EndpointAttributes {
    /// Describes the attributes by their decoded fields, as
    /// `EndpointAttributes { usage: Data, sync: None, transfer: Bulk }`.
    pub fn debug_text(&self) -> (t: String)
        requires
            (self@ >> 4u8) & 3 != 3,
        ensures
            t@ == attributes_text(
                endpoint_usage(self@),
                endpoint_sync(self@),
                endpoint_transfer(self@),
            ),
    {
        let mut t = String::from_str("EndpointAttributes { usage: ");
        t.append(usage_str(self.usage()));
        t.append(", sync: ");
        t.append(sync_str(self.sync()));
        t.append(", transfer: ");
        t.append(transfer_str(self.transfer()));
        t.append(" }");
        t
    }

    /// Bits 4..=5; the value 3 is reserved and left out.
    pub fn usage(&self) -> (u: EndpointUsage)
        requires
            (self@ >> 4u8) & 3 != 3,
        ensures
            u == endpoint_usage(self@),
    {
        let f: u8 = self.0 >> 4 & 0x3;
        match f {
            0 => EndpointUsage::Data,
            1 => EndpointUsage::Feedback,
            _ => EndpointUsage::Implicit,
        }
    }

    /// Bits 2..=3.
    pub fn sync(&self) -> (s: EndpointSync)
        ensures
            s == endpoint_sync(self@),
    {
        let f: u8 = self.0 >> 2 & 0x3;
        match f {
            0 => EndpointSync::NoSync,
            1 => EndpointSync::Async,
            2 => EndpointSync::Adapt,
            _ => EndpointSync::Sync,
        }
    }

    /// Bits 0..=1.
    pub fn transfer(&self) -> (t: EndpointTransfer)
        ensures
            t == endpoint_transfer(self@),
    {
        let f: u8 = self.0 & 0x3;
        match f {
            0 => EndpointTransfer::Control,
            1 => EndpointTransfer::Isoch,
            2 => EndpointTransfer::Bulk,
            _ => EndpointTransfer::Interrupt,
        }
    }
}

} // verus!
