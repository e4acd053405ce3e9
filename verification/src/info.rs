//! Device identity: name, hardware address, firmware version and the
//! big-endian device identifier, read from the identity routes.

use vstd::prelude::*;
use crate::codec::{Decimal, hex_bytes, hex_to_bytes, is_hex_pairs, push_char};
use crate::property::Item;
use crate::response::DaikinResponse;
use crate::status::{extract_field, spec_field};
use crate::types::DomainValue;

verus! {

/// The version string with underscores turned into dots.
pub open spec fn spec_dotted(s: Seq<char>) -> Seq<char> {
    Seq::new(s.len(), |i: int| if s[i] == '_' { '.' } else { s[i] })
}

/// Replace every underscore with a dot.
fn dotted(s: &str) -> (r: String)
    ensures
        r@ == spec_dotted(s@),
{
    let n = s.unicode_len();
    let mut out = String::new();
    let mut i: usize = 0;
    while i < n
        invariant
            i <= n,
            n == s@.len(),
            out@ =~= spec_dotted(s@).take(i as int),
        decreases n - i,
    {
        let c = s.get_char(i);
        push_char(&mut out, if c == '_' { '.' } else { c });
        proof {
            assert(out@ =~= spec_dotted(s@).take(i as int + 1));
        }
        i = i + 1;
    }
    proof {
        assert(out@ =~= spec_dotted(s@));
    }
    out
}

/// The unsigned value of bytes read big-endian: the first byte is the
/// most significant.
pub open spec fn be_value(bytes: Seq<u8>) -> nat
    decreases bytes.len(),
{
    if bytes.len() == 0 {
        0
    } else {
        be_value(bytes.drop_last()) * 256 + bytes.last() as nat
    }
}

/// The big-endian value of eight bytes, which always fits a `u64`.
fn be_u64(bytes: &Vec<u8>) -> (r: u64)
    requires
        bytes@.len() == 8,
    ensures
        r == be_value(bytes@),
{
    proof {
        reveal_with_fuel(crate::codec::pow256, 9);
    }
    let mut r: u64 = 0;
    let mut i: usize = 0;
    while i < 8
        invariant
            i <= 8,
            bytes@.len() == 8,
            r == be_value(bytes@.take(i as int)),
            r < crate::codec::pow256(i as nat),
            crate::codec::pow256(8) == 0x1_0000_0000_0000_0000,
        decreases 8 - i,
    {
        proof {
            reveal_with_fuel(crate::codec::pow256, 9);
            let wi = i as nat;
            assert(crate::codec::pow256(wi) <= 0x100_0000_0000_0000) by {
                if wi == 0 {} else if wi == 1 {} else if wi == 2 {} else if wi == 3 {}
                else if wi == 4 {} else if wi == 5 {} else if wi == 6 {}
                else { assert(wi == 7); }
            };
            assert(crate::codec::pow256(wi + 1) == 256 * crate::codec::pow256(wi));
            let t = bytes@.take(i as int + 1);
            assert(t.drop_last() =~= bytes@.take(i as int));
            assert(t.last() == bytes@[i as int]);
        }
        r = r * 256 + bytes[i] as u64;
        i = i + 1;
    }
    proof {
        assert(bytes@.take(8) =~= bytes@);
    }
    r
}

/// Device identity as the identity routes report it: each field is kept
/// as received; the getters apply the decoding their field needs.
#[derive(Debug)]
pub struct DaikinInfo {
    pub name: Option<String>,
    pub mac: Option<String>,
    pub version: Option<String>,
    pub edid: Option<String>,
}

/// The mathematical content of a device identity.
pub ghost struct InfoView {
    pub name: Option<Seq<char>>,
    pub mac: Option<Seq<char>>,
    pub version: Option<Seq<char>>,
    pub edid: Option<Seq<char>>,
}

impl View for DaikinInfo {
    type V = InfoView;

    open spec fn view(&self) -> InfoView {
        InfoView {
            name: match self.name {
                Some(ref s) => Some(s@),
                None => None,
            },
            mac: match self.mac {
                Some(ref s) => Some(s@),
                None => None,
            },
            version: match self.version {
                Some(ref s) => Some(s@),
                None => None,
            },
            edid: match self.edid {
                Some(ref s) => Some(s@),
                None => None,
            },
        }
    }
}

/// The text a leaf under a one-segment path carries, if any.
fn field_string(res: &DaikinResponse, route: &str, seg: &str) -> (r: Option<String>)
    ensures
        ({
            let it = spec_field(res@, route@, seq![seg@]);
            &&& (r is Some <==> it.string_readable())
            &&& (r matches Some(s) ==> s@ == it.string_value())
        }),
{
    let mut p: Vec<&str> = Vec::new();
    p.push(seg);
    let s = p.as_slice();
    proof {
        assert(s.deep_view() =~= seq![seg@]);
    }
    let item: Item<Decimal> = extract_field(res, route, s);
    item.get_string()
}

impl DaikinInfo {
    /// An identity from explicit parts.
    pub fn new(name: Option<String>, mac: Option<String>, version: Option<String>,
        edid: Option<String>) -> (r: DaikinInfo)
        ensures
            r.name == name,
            r.mac == mac,
            r.version == version,
            r.edid == edid,
    {
        DaikinInfo { name, mac, version, edid }
    }

    /// The device's display name.
    pub fn name(&self) -> (r: Option<String>)
        ensures
            r is Some <==> self@.name is Some,
            r matches Some(s) ==> self@.name == Some(s@),
    {
        match &self.name {
            Some(s) => Some(s.clone()),
            None => None,
        }
    }

    /// The device's hardware address.
    pub fn mac(&self) -> (r: Option<String>)
        ensures
            r is Some <==> self@.mac is Some,
            r matches Some(s) ==> self@.mac == Some(s@),
    {
        match &self.mac {
            Some(s) => Some(s.clone()),
            None => None,
        }
    }

    /// The firmware version, with the wire form's underscores turned
    /// into dots.
    pub fn version(&self) -> (r: Option<String>)
        ensures
            r is Some <==> self@.version is Some,
            r matches Some(s) ==> self@.version matches Some(v) && s@ == spec_dotted(v),
    {
        match &self.version {
            Some(s) => Some(dotted(s.as_str())),
            None => None,
        }
    }

    /// The device identifier: sixteen hex digits decoded as a big-endian
    /// eight-byte integer, unlike property values, which read their
    /// bytes little-endian.
    pub fn edid(&self) -> (r: Option<u64>)
        ensures
            r is Some <==> (self@.edid matches Some(s) && s.len() == 16 && is_hex_pairs(s)),
            r matches Some(v) ==> self@.edid matches Some(s) && v == be_value(hex_bytes(s)),
    {
        match &self.edid {
            Some(s) => {
                if s.as_str().unicode_len() != 16 {
                    return None;
                }
                match hex_to_bytes(s.as_str()) {
                    Some(bytes) => Some(be_u64(&bytes)),
                    None => None,
                }
            },
            None => None,
        }
    }

    /// Read the identity fields out of a response envelope: the display
    /// name from the description route, the rest from the interface
    /// route. A missing field stays empty.
    pub fn from_response(res: &DaikinResponse) -> (r: DaikinInfo)
        ensures
            ({
                let name = spec_field(res@, "/dsiot/edge.adp_d"@, seq!["name"@]);
                let mac = spec_field(res@, "/dsiot/edge.adp_i"@, seq!["mac"@]);
                let ver = spec_field(res@, "/dsiot/edge.adp_i"@, seq!["ver"@]);
                let edid = spec_field(res@, "/dsiot/edge.adp_i"@, seq!["edid"@]);
                &&& (r@.name is Some <==> name.string_readable())
                &&& (r@.name matches Some(s) ==> s == name.string_value())
                &&& (r@.mac is Some <==> mac.string_readable())
                &&& (r@.mac matches Some(s) ==> s == mac.string_value())
                &&& (r@.version is Some <==> ver.string_readable())
                &&& (r@.version matches Some(s) ==> s == ver.string_value())
                &&& (r@.edid is Some <==> edid.string_readable())
                &&& (r@.edid matches Some(s) ==> s == edid.string_value())
            }),
    {
        DaikinInfo {
            name: field_string(res, "/dsiot/edge.adp_d", "name"),
            mac: field_string(res, "/dsiot/edge.adp_i", "mac"),
            version: field_string(res, "/dsiot/edge.adp_i", "ver"),
            edid: field_string(res, "/dsiot/edge.adp_i", "edid"),
        }
    }
}

} // verus!
