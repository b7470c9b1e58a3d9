//! Identity of a radio as seen by a scan.

use vstd::prelude::*;
use vstd::string::StringExecFns;

verus! {

/// Largest value of a 48-bit hardware address.
pub const MAX_ADDRESS: u64 = 0xffff_ffff_ffff;

/// What a [`DeviceId`] stands for: an optional broadcast name and a
/// hardware address.
pub struct DeviceIdView {
    pub name: Option<Seq<char>>,
    pub address: nat,
}

/// A radio found by a scan: its broadcast name, where it sent one, and its
/// 48-bit hardware address. Two identifiers are the same device exactly when
/// both parts agree.
#[derive(Debug, PartialEq, Eq, Hash)]
pub struct DeviceId {
    name: Option<String>,
    address: u64,
}

/// The view of an optional text.
pub open spec fn text_view(t: Option<String>) -> Option<Seq<char>> {
    match t {
        Some(n) => Some(n@),
        None => None,
    }
}

impl View for DeviceId {
    type V = DeviceIdView;

    closed spec fn view(&self) -> DeviceIdView {
        DeviceIdView { name: text_view(self.name), address: self.address as nat }
    }
}

impl DeviceId {
    #[verifier::type_invariant]
    spec fn fits(&self) -> bool {
        self.address <= MAX_ADDRESS
    }

    /// Builds an identifier; `None` where the address does not fit in 48 bits.
    pub fn new(name: Option<String>, address: u64) -> (r: Option<DeviceId>)
        ensures
            r is Some <==> address <= MAX_ADDRESS,
            r matches Some(d) ==> d@ == (DeviceIdView {
                name: text_view(name),
                address: address as nat,
            }),
    {
        if address <= MAX_ADDRESS {
            Some(DeviceId { name, address })
        } else {
            None
        }
    }

    /// The broadcast name, if the radio sent one.
    pub fn name(&self) -> (r: &Option<String>)
        ensures
            text_view(*r) == self@.name,
    {
        &self.name
    }

    /// The hardware address, which fits in 48 bits.
    pub fn address(&self) -> (r: u64)
        ensures
            r == self@.address,
            r <= MAX_ADDRESS,
    {
        proof {
            use_type_invariant(self);
        }
        self.address
    }

    /// Whether both identifiers name the same radio.
    pub fn same_device(&self, other: &DeviceId) -> (r: bool)
        ensures
            r == (self@ == other@),
    {
        if self.address != other.address {
            return false;
        }
        match (&self.name, &other.name) {
            (Some(a), Some(b)) => *a == *b,
            (None, None) => true,
            _ => false,
        }
    }

    /// A copy that names the same radio.
    pub fn duplicate(&self) -> (r: DeviceId)
        ensures
            r@ == self@,
    {
        proof {
            use_type_invariant(self);
        }
        let name = match &self.name {
            Some(n) => Some(n.clone()),
            None => None,
        };
        DeviceId { name, address: self.address }
    }
}

impl Clone for DeviceId {
    fn clone(&self) -> (r: Self)
        ensures
            r@ == self@,
    {
        self.duplicate()
    }
}

/// The upper-case hexadecimal digit for a value below sixteen.
pub open spec fn hex_digit(n: nat) -> char {
    seq![
        '0',
        '1',
        '2',
        '3',
        '4',
        '5',
        '6',
        '7',
        '8',
        '9',
        'A',
        'B',
        'C',
        'D',
        'E',
        'F',
    ][n as int]
}

/// The byte of a 48-bit address at `index`, counted from the most
/// significant one.
pub open spec fn address_byte(address: nat, index: nat) -> nat
    recommends
        index < 6,
{
    if index == 0 {
        (address / 0x100_0000_0000) % 256
    } else if index == 1 {
        (address / 0x1_0000_0000) % 256
    } else if index == 2 {
        (address / 0x100_0000) % 256
    } else if index == 3 {
        (address / 0x1_0000) % 256
    } else if index == 4 {
        (address / 0x100) % 256
    } else {
        address % 256
    }
}

/// Two hexadecimal digits for one byte.
pub open spec fn byte_text(b: nat) -> Seq<char> {
    seq![hex_digit(b / 16), hex_digit(b % 16)]
}

/// A hardware address as six two-digit upper-case hexadecimal bytes, most
/// significant first, with a colon between them.
pub open spec fn address_text(address: nat) -> Seq<char> {
    byte_text(address_byte(address, 0)) + seq![':'] + byte_text(address_byte(address, 1)) + seq![
        ':',
    ] + byte_text(address_byte(address, 2)) + seq![':'] + byte_text(address_byte(address, 3))
        + seq![':'] + byte_text(address_byte(address, 4)) + seq![':'] + byte_text(
        address_byte(address, 5),
    )
}

/// The name by which a radio is shown: its broadcast name, or its address
/// where it has none.
pub open spec fn display_name(id: DeviceIdView) -> Seq<char> {
    match id.name {
        Some(n) => n,
        None => address_text(id.address),
    }
}

fn hex_str(n: u64) -> (r: &'static str)
    requires
        n < 16,
    ensures
        r@ == seq![hex_digit(n as nat)],
{
    proof {
        reveal_strlit("0");
        reveal_strlit("1");
        reveal_strlit("2");
        reveal_strlit("3");
        reveal_strlit("4");
        reveal_strlit("5");
        reveal_strlit("6");
        reveal_strlit("7");
        reveal_strlit("8");
        reveal_strlit("9");
        reveal_strlit("A");
        reveal_strlit("B");
        reveal_strlit("C");
        reveal_strlit("D");
        reveal_strlit("E");
        reveal_strlit("F");
    }
    let r = if n == 0 {
        "0"
    } else if n == 1 {
        "1"
    } else if n == 2 {
        "2"
    } else if n == 3 {
        "3"
    } else if n == 4 {
        "4"
    } else if n == 5 {
        "5"
    } else if n == 6 {
        "6"
    } else if n == 7 {
        "7"
    } else if n == 8 {
        "8"
    } else if n == 9 {
        "9"
    } else if n == 10 {
        "A"
    } else if n == 11 {
        "B"
    } else if n == 12 {
        "C"
    } else if n == 13 {
        "D"
    } else if n == 14 {
        "E"
    } else {
        "F"
    };
    assert(r@ =~= seq![hex_digit(n as nat)]);
    r
}

fn push_byte(text: &mut String, b: u64)
    requires
        b < 256,
    ensures
        final(text)@ == old(text)@ + byte_text(b as nat),
{
    text.append(hex_str(b / 16));
    text.append(hex_str(b % 16));
    assert(text@ =~= old(text)@ + byte_text(b as nat));
}

fn push_colon(text: &mut String)
    ensures
        final(text)@ == old(text)@ + seq![':'],
{
    proof {
        reveal_strlit(":");
    }
    text.append(":");
    assert(text@ =~= old(text)@ + seq![':']);
}

/// Writes a hardware address as text, as in `AA:BB:CC:DD:EE:FF`.
pub fn address_to_string(address: u64) -> (r: String)
    requires
        address <= MAX_ADDRESS,
    ensures
        r@ == address_text(address as nat),
{
    let mut text = String::new();
    push_byte(&mut text, (address / 0x100_0000_0000) % 256);
    push_colon(&mut text);
    push_byte(&mut text, (address / 0x1_0000_0000) % 256);
    push_colon(&mut text);
    push_byte(&mut text, (address / 0x100_0000) % 256);
    push_colon(&mut text);
    push_byte(&mut text, (address / 0x1_0000) % 256);
    push_colon(&mut text);
    push_byte(&mut text, (address / 0x100) % 256);
    push_colon(&mut text);
    push_byte(&mut text, address % 256);
    assert(text@ =~= address_text(address as nat));
    text
}

/// The name by which a radio is shown: its broadcast name, or its address
/// where it has none.
pub fn name_from_id(id: &DeviceId) -> (r: String)
    ensures
        r@ == display_name(id@),
{
    match id.name() {
        Some(name) => name.clone(),
        None => address_to_string(id.address()),
    }
}

} // verus!
