//! The property tree: nested `Tree`/`Leaf` nodes carrying named values and
//! their metadata, with name-keyed lookup, appending, and auto-vivifying
//! path writes.
//!
//! Every type here has a mathematical view (`PropView`, `MetaView`,
//! `ItemView`, `NodeView`) over which all contracts are stated.

use vstd::prelude::*;
use core::marker::PhantomData;
use crate::codec::{
    Decimal, ValueError, div_toward_zero, div_tz_i128, effective_step, encode_hex, hex_bytes,
    hex_to_bytes, is_hex_pairs, pow10, push_char, sat_i32, sat_i64, spec_decode_int,
    spec_effective_coeff_e8, spec_encode_hex, valid_hex_int, valid_hex_len, decode_int,
};
use crate::types::DomainValue;

verus! {

broadcast use vstd::std_specs::vec::axiom_vec_index_decreases;

/// `serde_json::Value` carried opaquely: the payload of an `Object` value
/// passes through the tree untouched.
#[verifier::external_type_specification]
#[verifier::external_body]
pub struct ExValue(serde_json::Value);

/// Relies on `serde_json::Value::clone`: yields a value equal to the
/// original.
pub assume_specification[ <serde_json::Value as Clone>::clone ](
    v: &serde_json::Value,
) -> (r: serde_json::Value)
    ensures
        r == *v,
;

/// The mathematical content of a leaf value.
pub ghost enum PropView {
    Str(Seq<char>),
    Int(i32),
    Null,
    StrList(Seq<Seq<char>>),
    IntList(Seq<i32>),
    Object(serde_json::Value),
}

/// The mathematical content of leaf metadata.
pub ghost enum MetaView {
    Integer,
    Str,
    Step { step: u8, min: Seq<char>, max: Seq<char> },
    Enum { max: Seq<char> },
    Raw,
    Object,
    StrList,
    IntList,
    Undefined,
}

/// The mathematical content of a leaf: its name, value and metadata.
pub ghost struct ItemView {
    pub name: Seq<char>,
    pub value: PropView,
    pub meta: MetaView,
}

impl ItemView {
    /// The not-found sentinel: empty name, null value, undefined metadata.
    pub open spec fn sentinel() -> ItemView {
        ItemView { name: Seq::empty(), value: PropView::Null, meta: MetaView::Undefined }
    }
}

/// The mathematical content of a tree node.
pub ghost enum NodeView {
    Tree { name: Seq<char>, children: Seq<NodeView> },
    Leaf(ItemView),
}

impl NodeView {
    /// The name of a node of either kind.
    pub open spec fn name(self) -> Seq<char> {
        match self {
            NodeView::Tree { name, .. } => name,
            NodeView::Leaf(item) => item.name,
        }
    }
}

/// The value stored at a leaf.
#[derive(Debug, PartialEq)]
pub enum PropValue {
    String(String),
    Integer(i32),
    Null,
    StringList(Vec<String>),
    IntegerList(Vec<i32>),
    Object(serde_json::Value),
}

impl View for PropValue {
    type V = PropView;

    open spec fn view(&self) -> PropView {
        match self {
            PropValue::String(s) => PropView::Str(s@),
            PropValue::Integer(i) => PropView::Int(*i),
            PropValue::Null => PropView::Null,
            PropValue::StringList(v) => PropView::StrList(v.deep_view()),
            PropValue::IntegerList(v) => PropView::IntList(v@),
            PropValue::Object(o) => PropView::Object(*o),
        }
    }
}

/// The metadata a read reports for a leaf. Writes never carry metadata.
#[derive(Debug)]
pub enum Metadata {
    Integer,
    String,
    Binary(Binary),
    Object,
    StringList,
    IntegerList,
    Undefined,
}

/// The binary kinds a leaf's packed hex value can have.
#[derive(Debug)]
pub enum Binary {
    Step(BinaryStep),
    Enum { max: String },
    String {},
}

/// Step-scaled binary metadata: a step byte and the hex-coded bounds.
#[derive(Debug)]
pub struct BinaryStep {
    pub step: u8,
    pub min: String,
    pub max: String,
}

impl View for Metadata {
    type V = MetaView;

    open spec fn view(&self) -> MetaView {
        match self {
            Metadata::Integer => MetaView::Integer,
            Metadata::String => MetaView::Str,
            Metadata::Binary(Binary::Step(bs)) => MetaView::Step {
                step: bs.step,
                min: bs.min@,
                max: bs.max@,
            },
            Metadata::Binary(Binary::Enum { max }) => MetaView::Enum { max: max@ },
            Metadata::Binary(Binary::String {}) => MetaView::Raw,
            Metadata::Object => MetaView::Object,
            Metadata::StringList => MetaView::StrList,
            Metadata::IntegerList => MetaView::IntList,
            Metadata::Undefined => MetaView::Undefined,
        }
    }
}

/// Compare two strings by their character sequences.
pub fn str_eq(a: &str, b: &str) -> (r: bool)
    ensures
        r == (a@ == b@),
{
    let n = a.unicode_len();
    if n != b.unicode_len() {
        return false;
    }
    let mut i: usize = 0;
    while i < n
        invariant
            i <= n,
            n == a@.len(),
            n == b@.len(),
            forall|j: int| 0 <= j < i ==> a@[j] == b@[j],
        decreases n - i,
    {
        if a.get_char(i) != b.get_char(i) {
            return false;
        }
        i = i + 1;
    }
    proof {
        assert(a@ =~= b@);
    }
    true
}

impl BinaryStep {
    /// The scaling coefficient this metadata's step byte encodes.
    pub fn step(&self) -> (r: Decimal)
        ensures
            r.wf(),
            r.mant == crate::codec::spec_step_base(self.step),
            r.exp == crate::codec::spec_step_exp(self.step),
    {
        crate::codec::decode_step(self.step)
    }
}

impl Clone for BinaryStep {
    fn clone(&self) -> (r: Self)
        ensures
            r.step == self.step,
            r.min@ == self.min@,
            r.max@ == self.max@,
    {
        BinaryStep { step: self.step, min: self.min.clone(), max: self.max.clone() }
    }
}

impl Clone for Metadata {
    fn clone(&self) -> (r: Self)
        ensures
            r@ == self@,
    {
        match self {
            Metadata::Integer => Metadata::Integer,
            Metadata::String => Metadata::String,
            Metadata::Binary(Binary::Step(bs)) => Metadata::Binary(Binary::Step(bs.clone())),
            Metadata::Binary(Binary::Enum { max }) => Metadata::Binary(
                Binary::Enum { max: max.clone() },
            ),
            Metadata::Binary(Binary::String {}) => Metadata::Binary(Binary::String {}),
            Metadata::Object => Metadata::Object,
            Metadata::StringList => Metadata::StringList,
            Metadata::IntegerList => Metadata::IntegerList,
            Metadata::Undefined => Metadata::Undefined,
        }
    }
}

/// Copy a vector of strings element by element.
fn clone_string_vec(v: &Vec<String>) -> (r: Vec<String>)
    ensures
        r.deep_view() == v.deep_view(),
{
    let mut out: Vec<String> = Vec::new();
    let mut i: usize = 0;
    while i < v.len()
        invariant
            i <= v@.len(),
            out@.len() == i,
            forall|j: int| 0 <= j < i ==> #[trigger] out@[j]@ == v@[j]@,
        decreases v@.len() - i,
    {
        out.push(v[i].clone());
        i = i + 1;
    }
    proof {
        assert forall|j: int| 0 <= j < out@.len() implies out.deep_view()[j]
            == v.deep_view()[j] by {
            assert(out@[j]@ == v@[j]@);
        }
        assert(out.deep_view() =~= v.deep_view());
    }
    out
}

/// Copy a vector of integers element by element.
fn clone_i32_vec(v: &Vec<i32>) -> (r: Vec<i32>)
    ensures
        r@ == v@,
{
    let mut out: Vec<i32> = Vec::new();
    let mut i: usize = 0;
    while i < v.len()
        invariant
            i <= v@.len(),
            out@ =~= v@.take(i as int),
        decreases v@.len() - i,
    {
        out.push(v[i]);
        i = i + 1;
    }
    proof {
        assert(out@ =~= v@);
    }
    out
}

impl Clone for PropValue {
    fn clone(&self) -> (r: Self)
        ensures
            r@ == self@,
    {
        match self {
            PropValue::String(s) => PropValue::String(s.clone()),
            PropValue::Integer(i) => PropValue::Integer(*i),
            PropValue::Null => PropValue::Null,
            PropValue::StringList(v) => PropValue::StringList(clone_string_vec(v)),
            PropValue::IntegerList(v) => PropValue::IntegerList(clone_i32_vec(v)),
            PropValue::Object(o) => PropValue::Object(o.clone()),
        }
    }
}

/// The character sequence with its trailing NUL characters removed.
pub open spec fn trim_trailing_nul(s: Seq<char>) -> Seq<char>
    decreases s.len(),
{
    if s.len() > 0 && s.last() == '\0' {
        trim_trailing_nul(s.drop_last())
    } else {
        s
    }
}

/// Relies on `String::from_utf8`: accepts exactly the byte sequences that
/// are valid UTF-8, and decodes them to their characters.
#[verifier::external_body]
fn utf8_to_string(bytes: Vec<u8>) -> (r: Option<String>)
    ensures
        r is Some <==> vstd::utf8::valid_utf8(bytes@),
        r matches Some(s) ==> s@ == vstd::utf8::decode_utf8(bytes@),
{
    String::from_utf8(bytes).ok()
}

/// Trimming the trailing NULs off a reversed sequence keeps exactly the
/// part after the leading NULs, reversed.
proof fn lemma_trim_reverse(s: Seq<char>, k: int)
    requires
        0 <= k <= s.len(),
        forall|j: int| 0 <= j < k ==> s[j] == '\0',
        k < s.len() ==> s[k] != '\0',
    ensures
        trim_trailing_nul(s.reverse()) == s.subrange(k, s.len() as int).reverse(),
    decreases k,
{
    let r = s.reverse();
    if k == 0 {
        if s.len() == 0 {
            assert(r.len() == 0);
            assert(s.subrange(0, 0).reverse() =~= r);
        } else {
            assert(r.last() == s[0]);
            assert(s.subrange(0, s.len() as int).reverse() =~= r);
        }
    } else {
        assert(r.last() == s[0]);
        assert(r.last() == '\0');
        let s1 = s.subrange(1, s.len() as int);
        assert(r.drop_last() =~= s1.reverse());
        lemma_trim_reverse(s1, k - 1);
        assert(s1.subrange(k - 1, s1.len() as int) =~= s.subrange(k, s.len() as int));
    }
}

/// Reverse the characters, then drop trailing NULs: the observed wire
/// convention for raw binary strings.
fn reversed_trimmed(t: &String) -> (r: String)
    ensures
        r@ == trim_trailing_nul(t@.reverse()),
{
    let n = t.as_str().unicode_len();
    let mut k: usize = 0;
    while k < n && t.as_str().get_char(k) == '\0'
        invariant
            k <= n,
            n == t@.len(),
            forall|j: int| 0 <= j < k ==> t@[j] == '\0',
        decreases n - k,
    {
        k = k + 1;
    }
    let mut out = String::new();
    let mut idx: usize = n;
    while idx > k
        invariant
            k <= idx <= n,
            n == t@.len(),
            out@ =~= Seq::new((n - idx) as nat, |i: int| t@[n - 1 - i]),
        decreases idx,
    {
        push_char(&mut out, t.as_str().get_char(idx - 1));
        proof {
            assert(out@ =~= Seq::new((n - idx + 1) as nat, |i: int| t@[n - 1 - i]));
        }
        idx = idx - 1;
    }
    proof {
        lemma_trim_reverse(t@, k as int);
        assert(out@ =~= t@.subrange(k as int, n as int).reverse());
    }
    out
}

impl ItemView {
    /// Whether the leaf holds a readable scaled numeric value: step
    /// metadata over a valid hex string of an accepted width.
    pub open spec fn numeric_readable(self) -> bool {
        match (self.meta, self.value) {
            (MetaView::Step { .. }, PropView::Str(s)) => valid_hex_int(s),
            _ => false,
        }
    }

    /// The numeric value of the leaf, in units of 10^-8: the decoded
    /// integer scaled by the step byte's effective coefficient.
    pub open spec fn numeric_value_e8(self) -> int {
        match (self.meta, self.value) {
            (MetaView::Step { step, .. }, PropView::Str(s)) => spec_decode_int(s)
                * spec_effective_coeff_e8(step),
            _ => 0,
        }
    }

    /// Whether the leaf holds a readable coded value: enum metadata over a
    /// valid hex string.
    pub open spec fn enum_readable(self) -> bool {
        match (self.meta, self.value) {
            (MetaView::Enum { .. }, PropView::Str(s)) => valid_hex_int(s),
            _ => false,
        }
    }

    /// The integer code the leaf holds.
    pub open spec fn enum_code(self) -> int {
        match self.value {
            PropView::Str(s) => spec_decode_int(s),
            _ => 0,
        }
    }

    /// Whether the leaf holds a readable plain integer.
    pub open spec fn int_readable(self) -> bool {
        match (self.meta, self.value) {
            (MetaView::Integer, PropView::Int(_)) => true,
            _ => false,
        }
    }

    pub open spec fn int_value(self) -> i32 {
        match self.value {
            PropView::Int(v) => v,
            _ => 0,
        }
    }

    /// Whether the leaf holds a readable text value: literal text under
    /// string metadata, or hex-packed UTF-8 under raw binary metadata.
    pub open spec fn string_readable(self) -> bool {
        match (self.meta, self.value) {
            (MetaView::Str, PropView::Str(_)) => true,
            (MetaView::Raw, PropView::Str(s)) => is_hex_pairs(s) && vstd::utf8::valid_utf8(
                hex_bytes(s)),
            _ => false,
        }
    }

    /// The text the leaf holds. Under raw binary metadata the decoded
    /// characters come out reversed and trailing NULs are trimmed: this
    /// reversal is preserved exactly as observed on the wire.
    pub open spec fn string_value(self) -> Seq<char> {
        match (self.meta, self.value) {
            (MetaView::Str, PropView::Str(s)) => s,
            (MetaView::Raw, PropView::Str(s)) => trim_trailing_nul(
                vstd::utf8::decode_utf8(hex_bytes(s)).reverse()),
            _ => Seq::empty(),
        }
    }

    /// The outcome a write to this leaf reports: string metadata does not
    /// support writes, and binary metadata whose `max` field is no valid
    /// hex width cannot fix the encoded byte count.
    pub open spec fn write_result(self) -> Result<(), ValueError> {
        match self.meta {
            MetaView::Str => Err(ValueError::UnsupportedWrite),
            MetaView::Step { max, .. } => if valid_hex_len(max.len()) {
                Ok(())
            } else {
                Err(ValueError::MalformedHex)
            },
            MetaView::Enum { max } => if valid_hex_len(max.len()) {
                Ok(())
            } else {
                Err(ValueError::MalformedHex)
            },
            _ => Ok(()),
        }
    }

    /// The leaf after a value of `v8` (in units of 10^-8) is written:
    /// integer metadata stores the truncated integer; step metadata
    /// divides by the effective coefficient and hex-encodes at the width
    /// the `max` field fixes; enum metadata hex-encodes the plain integer
    /// at that width; string metadata leaves the leaf unchanged; all other
    /// metadata clears the value.
    pub open spec fn written(self, v8: int) -> ItemView {
        match self.meta {
            MetaView::Integer => ItemView {
                name: self.name,
                value: PropView::Int(sat_i32(div_toward_zero(v8, pow10(8) as int)) as i32),
                meta: self.meta,
            },
            MetaView::Str => self,
            MetaView::Step { step, max, .. } => if valid_hex_len(max.len()) {
                ItemView {
                    name: self.name,
                    value: PropView::Str(
                        spec_encode_hex(
                            sat_i64(div_toward_zero(v8, spec_effective_coeff_e8(step))),
                            max.len() / 2,
                        ),
                    ),
                    meta: self.meta,
                }
            } else {
                self
            },
            MetaView::Enum { max } => if valid_hex_len(max.len()) {
                ItemView {
                    name: self.name,
                    value: PropView::Str(
                        spec_encode_hex(
                            sat_i64(div_toward_zero(v8, pow10(8) as int)),
                            max.len() / 2,
                        ),
                    ),
                    meta: self.meta,
                }
            } else {
                self
            },
            _ => ItemView { name: self.name, value: PropView::Null, meta: self.meta },
        }
    }
}

/// A typed view over one leaf: a cloned snapshot of its name, value and
/// metadata, bound to the domain type `T` that reads and writes it.
#[derive(Debug)]
pub struct Item<T: DomainValue> {
    pub name: String,
    pub value: PropValue,
    pub metadata: Metadata,
    pub phantom: PhantomData<T>,
}

impl<T: DomainValue> View for Item<T> {
    type V = ItemView;

    open spec fn view(&self) -> ItemView {
        ItemView { name: self.name@, value: self.value@, meta: self.metadata@ }
    }
}

impl<T: DomainValue> Clone for Item<T> {
    fn clone(&self) -> (r: Self)
        ensures
            r@ == self@,
    {
        Item {
            name: self.name.clone(),
            value: self.value.clone(),
            metadata: self.metadata.clone(),
            phantom: PhantomData,
        }
    }
}

impl<T: DomainValue> Item<T> {
    /// The not-found sentinel: empty name, null value, undefined metadata.
    pub fn not_found() -> (r: Item<T>)
        ensures
            r@ == ItemView::sentinel(),
    {
        let r = Item {
            name: String::new(),
            value: PropValue::Null,
            metadata: Metadata::Undefined,
            phantom: PhantomData,
        };
        proof {
            assert(r@.name =~= ItemView::sentinel().name);
        }
        r
    }

    /// Rebind the accessor to the raw numeric type, keeping its content.
    pub fn into_raw(self) -> (r: Item<Decimal>)
        ensures
            r@ == self@,
    {
        Item {
            name: self.name,
            value: self.value,
            metadata: self.metadata,
            phantom: PhantomData,
        }
    }

    /// The scaled numeric value of the leaf: the hex value decoded and
    /// multiplied by the step coefficient. Only a leaf with step metadata
    /// and a well-formed hex value has one.
    pub fn get_numeric(&self) -> (r: Option<Decimal>)
        ensures
            r is Some <==> self@.numeric_readable(),
            r matches Some(d) ==> d.wf() && d.value_e8() == self@.numeric_value_e8(),
    {
        match (&self.metadata, &self.value) {
            (Metadata::Binary(Binary::Step(bs)), PropValue::String(s)) => {
                match decode_int(s.as_str()) {
                    Ok(k) => {
                        let c = effective_step(bs.step);
                        proof {
                            assert(-0x8_0000_0000_0000 <= (k as i64) * c.mant
                                <= 0x8_0000_0000_0000) by (nonlinear_arith)
                                requires
                                    -0x8000_0000 <= k <= 0x7FFF_FFFF,
                                    0 < c.mant <= 15,
                            ;
                        }
                        let m: i64 = (k as i64) * c.mant;
                        proof {
                            assert((k as i64) * c.mant * pow10((c.exp + 8) as nat) == (k as int)
                                * (c.mant * pow10((c.exp + 8) as nat))) by (nonlinear_arith);
                        }
                        Some(Decimal { mant: m, exp: c.exp })
                    },
                    Err(_) => None,
                }
            },
            _ => None,
        }
    }

    /// The domain value of the leaf: the hex value decoded and mapped
    /// through the type's code table. Only a leaf with enum metadata and a
    /// well-formed hex value has one; an unmapped code yields the type's
    /// sentinel, never an error.
    pub fn get_enum(&self) -> (r: Option<T>)
        ensures
            r is Some <==> self@.enum_readable(),
            r matches Some(t) ==> t == T::spec_from_code(self@.enum_code() as i32),
    {
        match (&self.metadata, &self.value) {
            (Metadata::Binary(Binary::Enum { .. }), PropValue::String(s)) => {
                match decode_int(s.as_str()) {
                    Ok(k) => Some(T::from_code(k)),
                    Err(_) => None,
                }
            },
            _ => None,
        }
    }

    /// The plain integer of the leaf: only integer metadata over an
    /// integer value has one.
    pub fn get_int(&self) -> (r: Option<i32>)
        ensures
            r is Some <==> self@.int_readable(),
            r matches Some(v) ==> v == self@.int_value(),
    {
        match (&self.metadata, &self.value) {
            (Metadata::Integer, PropValue::Integer(v)) => Some(*v),
            _ => None,
        }
    }

    /// The text of the leaf: literal text under string metadata; under
    /// raw binary metadata the hex value is decoded to UTF-8, reversed,
    /// and trailing NULs are trimmed.
    pub fn get_string(&self) -> (r: Option<String>)
        ensures
            r is Some <==> self@.string_readable(),
            r matches Some(s) ==> s@ == self@.string_value(),
    {
        match (&self.metadata, &self.value) {
            (Metadata::String, PropValue::String(s)) => Some(s.clone()),
            (Metadata::Binary(Binary::String {}), PropValue::String(s)) => {
                match hex_to_bytes(s.as_str()) {
                    Some(bytes) => {
                        match utf8_to_string(bytes) {
                            Some(t) => Some(reversed_trimmed(&t)),
                            None => None,
                        }
                    },
                    None => None,
                }
            },
            _ => None,
        }
    }

    /// Write a domain value into the leaf, dispatching on its metadata.
    /// String metadata does not support writes and reports so; other
    /// non-binary, non-integer metadata clears the value.
    pub fn set_value(&mut self, v: T) -> (r: Result<(), ValueError>)
        requires
            v.inv(),
        ensures
            final(self)@ == old(self)@.written(v.spec_value().value_e8()),
            r == old(self)@.write_result(),
    {
        let d = v.as_value();
        let v8 = d.to_e8();
        proof {
            reveal_with_fuel(pow10, 9);
            assert(pow10(8) == 100_000_000);
        }
        match &self.metadata {
            Metadata::Integer => {
                let q = div_tz_i128(v8, 100_000_000);
                let c: i32 = if q > 0x7FFF_FFFF {
                    0x7FFF_FFFF
                } else if q < -0x8000_0000 {
                    -0x8000_0000
                } else {
                    q as i32
                };
                self.value = PropValue::Integer(c);
                Ok(())
            },
            Metadata::String => Err(ValueError::UnsupportedWrite),
            Metadata::Binary(Binary::Step(bs)) => {
                let wlen = bs.max.as_str().unicode_len();
                if !(wlen == 2 || wlen == 4 || wlen == 6 || wlen == 8) {
                    return Err(ValueError::MalformedHex);
                }
                let c = effective_step(bs.step);
                let c8 = c.to_e8();
                let q = div_tz_i128(v8, c8);
                let k: i64 = if q > 0x7FFF_FFFF_FFFF_FFFF {
                    0x7FFF_FFFF_FFFF_FFFF
                } else if q < -0x8000_0000_0000_0000 {
                    -0x8000_0000_0000_0000
                } else {
                    q as i64
                };
                self.value = PropValue::String(encode_hex(k, wlen / 2));
                Ok(())
            },
            Metadata::Binary(Binary::Enum { max }) => {
                let wlen = max.as_str().unicode_len();
                if !(wlen == 2 || wlen == 4 || wlen == 6 || wlen == 8) {
                    return Err(ValueError::MalformedHex);
                }
                let q = div_tz_i128(v8, 100_000_000);
                let k: i64 = if q > 0x7FFF_FFFF_FFFF_FFFF {
                    0x7FFF_FFFF_FFFF_FFFF
                } else if q < -0x8000_0000_0000_0000 {
                    -0x8000_0000_0000_0000
                } else {
                    q as i64
                };
                self.value = PropValue::String(encode_hex(k, wlen / 2));
                Ok(())
            },
            _ => {
                self.value = PropValue::Null;
                Ok(())
            },
        }
    }
}

/// A node of the property tree: an inner node with ordered children, or a
/// leaf.
#[derive(Debug)]
pub enum Property {
    Tree { name: String, children: Vec<Property> },
    Node(Item<Decimal>),
}

/// The mathematical content of a tree node, recursively.
pub open spec fn node_view(p: Property) -> NodeView
    decreases p,
{
    match p {
        Property::Tree { name, children } => NodeView::Tree {
            name: name@,
            children: Seq::new(
                children@.len(),
                |i: int|
                    if 0 <= i < children@.len() {
                        node_view(children@[i])
                    } else {
                        NodeView::Leaf(ItemView::sentinel())
                    },
            ),
        },
        Property::Node(item) => NodeView::Leaf(
            ItemView { name: item.name@, value: item.value@, meta: item.metadata@ },
        ),
    }
}

impl View for Property {
    type V = NodeView;

    open spec fn view(&self) -> NodeView {
        node_view(*self)
    }
}

/// The first child with the given name, scanning in order across both
/// node kinds.
pub open spec fn spec_find(children: Seq<NodeView>, name: Seq<char>) -> Option<NodeView>
    decreases children.len(),
{
    if children.len() == 0 {
        None
    } else if children[0].name() == name {
        Some(children[0])
    } else {
        spec_find(children.skip(1), name)
    }
}

/// The index of the first child with the given name.
pub open spec fn spec_find_index(children: Seq<NodeView>, name: Seq<char>) -> Option<int>
    decreases children.len(),
{
    if children.len() == 0 {
        None
    } else if children[0].name() == name {
        Some(0)
    } else {
        match spec_find_index(children.skip(1), name) {
            Some(i) => Some(i + 1),
            None => None,
        }
    }
}

/// The two find forms agree: the first matching index carries the first
/// matching child.
pub proof fn lemma_find_index(children: Seq<NodeView>, name: Seq<char>)
    ensures
        spec_find(children, name) is Some <==> spec_find_index(children, name) is Some,
        spec_find_index(children, name) matches Some(i) ==> 0 <= i < children.len()
            && children[i] == spec_find(children, name)->0
            && children[i].name() == name
            && (forall|j: int| 0 <= j < i ==> children[j].name() != name),
        spec_find_index(children, name) is None ==> forall|j: int|
            0 <= j < children.len() ==> children[j].name() != name,
    decreases children.len(),
{
    if children.len() > 0 && children[0].name() != name {
        lemma_find_index(children.skip(1), name);
        let rest = children.skip(1);
        assert(forall|j: int| 0 <= j < rest.len() ==> #[trigger] rest[j] == children[j + 1]);
        match spec_find_index(rest, name) {
            Some(i) => {
                assert(children[i + 1] == rest[i]);
                assert(forall|j: int| 1 <= j < i + 1 ==> #[trigger] children[j].name() == rest[
                    j - 1].name());
            },
            None => {
                assert forall|j: int| 0 <= j < children.len() implies children[
                    j].name() != name by {
                    if j > 0 {
                        assert(children[j] == rest[j - 1]);
                    }
                }
            },
        }
    }
}

impl Property {
    /// A fresh inner node with no children.
    pub fn new_tree(name: &str) -> (r: Property)
        ensures
            r@ == (NodeView::Tree { name: name@, children: Seq::empty() }),
    {
        let r = Property::Tree { name: name.to_owned(), children: Vec::new() };
        proof {
            assert(r@ matches NodeView::Tree { children, .. } && children =~= Seq::empty());
        }
        r
    }

    /// The node's own name.
    pub fn name_ref(&self) -> (r: &str)
        ensures
            r@ == self@.name(),
    {
        match self {
            Property::Tree { name, .. } => name.as_str(),
            Property::Node(item) => item.name.as_str(),
        }
    }

    /// Find the first child with the given name; a leaf has none. Lookup
    /// never descends: it scans one level.
    pub fn find(&self, name: &str) -> (r: Option<&Property>)
        ensures
            self@ matches NodeView::Tree { children, .. } ==> {
                &&& (r is Some <==> spec_find(children, name@) is Some)
                &&& (r matches Some(p) ==> Some(p@) == spec_find(children, name@))
            },
            self@ matches NodeView::Leaf(_) ==> r is None,
    {
        match self {
            Property::Node(_) => None,
            Property::Tree { name: tname, children } => {
                let ghost cv = self@->Tree_children;
                proof {
                    assert(cv.len() == children@.len());
                    assert(forall|k: int| 0 <= k < cv.len() ==> #[trigger] cv[k] == node_view(
                        children@[k]));
                    assert(cv.skip(0) =~= cv);
                }
                let mut i: usize = 0;
                while i < children.len()
                    invariant
                        i <= children@.len(),
                        cv == self@->Tree_children,
                        self@ is Tree,
                        cv.len() == children@.len(),
                        forall|k: int| 0 <= k < cv.len() ==> #[trigger] cv[k] == node_view(
                            children@[k]),
                        spec_find(cv, name@) == spec_find(cv.skip(i as int), name@),
                    decreases children@.len() - i,
                {
                    proof {
                        assert(cv.skip(i as int)[0] == cv[i as int]);
                    }
                    if str_eq(children[i].name_ref(), name) {
                        proof {
                            assert(children[i as int]@ == cv[i as int]);
                            assert(spec_find(cv.skip(i as int), name@) == Some(cv[i as int]));
                        }
                        return Some(&children[i]);
                    }
                    proof {
                        assert(cv.skip(i as int).skip(1) =~= cv.skip(i as int + 1));
                    }
                    i = i + 1;
                }
                proof {
                    assert(cv.skip(i as int) =~= Seq::<NodeView>::empty());
                }
                None
            },
        }
    }

    /// Find the first child with the given name for mutation; a leaf has
    /// none. The tree afterwards is the tree before with that child
    /// replaced by whatever the caller made of the returned borrow.
    pub fn find_mut(&mut self, name: &str) -> (r: Option<&mut Property>)
        ensures
            old(self)@ matches NodeView::Leaf(_) ==> r is None,
            r is None ==> final(self)@ == old(self)@,
            old(self)@ matches NodeView::Tree { name: tn, children } ==> {
                &&& (r is Some <==> spec_find_index(children, name@) is Some)
                &&& (r matches Some(p) ==> {
                    &&& spec_find_index(children, name@) matches Some(i)
                    &&& (*p)@ == children[i]
                    &&& final(self)@ matches NodeView::Tree { name: tn2, children: c2 }
                    &&& tn2 == tn
                    &&& c2.len() == children.len()
                    &&& c2[i] == (*final(p))@
                    &&& forall|k: int| 0 <= k < children.len() && k != i ==> #[trigger] c2[k]
                        == children[k]
                })
            },
    {
        let ghost oldview = self@;
        match self {
            Property::Node(_) => None,
            Property::Tree { name: tname, children } => {
                let ghost cv = oldview->Tree_children;
                proof {
                    assert(cv.len() == children@.len());
                    assert(forall|k: int| 0 <= k < cv.len() ==> #[trigger] cv[k] == node_view(
                        children@[k]));
                    assert(children_views(children@) =~= cv);
                }
                match find_child_index(children, name) {
                    Some(i) => Some(&mut children[i]),
                    None => None,
                }
            },
        }
    }

    /// Append a child to an inner node and return a borrow of the
    /// inserted node; a leaf takes no children and is left unchanged.
    pub fn push(&mut self, child: Property) -> (r: Option<&mut Property>)
        ensures
            old(self)@ matches NodeView::Leaf(_) ==> r is None && final(self)@ == old(self)@,
            old(self)@ matches NodeView::Tree { name, children } ==> {
                &&& r matches Some(p)
                &&& (*p)@ == child@
                &&& final(self)@ matches NodeView::Tree { name: tn2, children: c2 }
                &&& tn2 == name
                &&& c2.len() == children.len() + 1
                &&& c2[children.len() as int] == (*final(p))@
                &&& forall|k: int| 0 <= k < children.len() ==> #[trigger] c2[k] == children[k]
            },
    {
        let ghost oldview = self@;
        let ghost childview = child@;
        match self {
            Property::Tree { name: tname, children } => {
                let ghost oldseq = oldview->Tree_children;
                proof {
                    assert(oldseq.len() == children@.len());
                    assert(forall|k: int| 0 <= k < children@.len() ==> #[trigger] oldseq[k]
                        == node_view(children@[k]));
                }
                let n = children.len();
                children.push(child);
                Some(&mut children[n])
            },
            Property::Node(_) => None,
        }
    }
}

/// The views of a sequence of nodes, elementwise.
pub open spec fn children_views(cs: Seq<Property>) -> Seq<NodeView> {
    Seq::new(cs.len(), |i: int| node_view(cs[i]))
}

/// The view of an inner node carries the views of its children.
pub proof fn lemma_tree_children_views(p: Property)
    requires
        p is Tree,
    ensures
        node_view(p) == (NodeView::Tree {
            name: p->Tree_name@,
            children: children_views(p->Tree_children@),
        }),
{
    assert(children_views(p->Tree_children@) =~= node_view(p)->Tree_children);
}

/// A scan that fails up to `i` and matches at `i` pins the find index.
pub proof fn lemma_find_index_from_scan(children: Seq<NodeView>, name: Seq<char>, i: int)
    requires
        0 <= i <= children.len(),
        forall|j: int| 0 <= j < i ==> (#[trigger] children[j].name()) != name,
        i < children.len() ==> children[i].name() == name,
    ensures
        i == children.len() ==> spec_find_index(children, name) is None,
        i < children.len() ==> spec_find_index(children, name) == Some(i),
    decreases children.len(),
{
    if children.len() == 0 {
    } else if i == 0 {
    } else {
        let rest = children.skip(1);
        assert(forall|j: int| 0 <= j < rest.len() ==> #[trigger] rest[j] == children[j + 1]);
        assert(children[0].name() != name);
        assert forall|j: int| 0 <= j < i - 1 implies (#[trigger] rest[j].name()) != name by {
            assert(rest[j] == children[j + 1]);
        }
        lemma_find_index_from_scan(rest, name, i - 1);
    }
}

/// The index of the first child with the given name, or nothing.
fn find_child_index(children: &Vec<Property>, name: &str) -> (r: Option<usize>)
    ensures
        r matches Some(i) ==> i < children@.len() && spec_find_index(
            children_views(children@), name@) == Some(i as int),
        r is None ==> spec_find_index(children_views(children@), name@) is None,
{
    let ghost cv = children_views(children@);
    let mut i: usize = 0;
    while i < children.len()
        invariant
            i <= children@.len(),
            cv == children_views(children@),
            forall|j: int| 0 <= j < i ==> (#[trigger] cv[j].name()) != name@,
        decreases children@.len() - i,
    {
        if str_eq(children[i].name_ref(), name) {
            proof {
                lemma_find_index_from_scan(cv, name@, i as int);
            }
            return Some(i);
        }
        i = i + 1;
    }
    proof {
        lemma_find_index_from_scan(cv, name@, i as int);
    }
    None
}

/// The tree after writing a leaf at a path, one level per segment.
///
/// Missing intermediate nodes are created; at the terminal segment an
/// existing leaf keeps its name and metadata and only its value changes,
/// and anything else appends a fresh leaf named after the written item
/// with undefined metadata (metadata is never reconstructed on a write).
/// An existing leaf standing in the way of an intermediate segment leaves
/// the tree unchanged. Writing into a leaf node leaves it unchanged.
pub open spec fn spec_set_path(node: NodeView, path: Seq<Seq<char>>, leaf: ItemView) -> NodeView
    decreases path.len(),
{
    match node {
        NodeView::Leaf(_) => node,
        NodeView::Tree { name, children } => {
            if path.len() == 0 {
                node
            } else {
                let appended = NodeView::Leaf(
                    ItemView { name: leaf.name, value: leaf.value, meta: MetaView::Undefined },
                );
                match spec_find_index(children, path[0]) {
                    Some(i) => {
                        if path.len() == 1 {
                            match children[i] {
                                NodeView::Leaf(it) => NodeView::Tree {
                                    name,
                                    children: children.update(
                                        i,
                                        NodeView::Leaf(
                                            ItemView {
                                                name: it.name,
                                                value: leaf.value,
                                                meta: it.meta,
                                            },
                                        ),
                                    ),
                                },
                                NodeView::Tree { .. } => NodeView::Tree {
                                    name,
                                    children: children.push(appended),
                                },
                            }
                        } else {
                            match children[i] {
                                NodeView::Tree { .. } => NodeView::Tree {
                                    name,
                                    children: children.update(
                                        i,
                                        spec_set_path(children[i], path.skip(1), leaf),
                                    ),
                                },
                                NodeView::Leaf(_) => node,
                            }
                        }
                    },
                    None => {
                        if path.len() == 1 {
                            NodeView::Tree { name, children: children.push(appended) }
                        } else {
                            NodeView::Tree {
                                name,
                                children: children.push(
                                    spec_set_path(
                                        NodeView::Tree { name: path[0], children: Seq::empty() },
                                        path.skip(1),
                                        leaf,
                                    ),
                                ),
                            }
                        }
                    },
                }
            }
        },
    }
}

impl Property {
    /// Write a leaf at the given path, creating missing intermediate
    /// nodes.
    pub fn set_path(self, path: &[&str], leaf: Item<Decimal>) -> (r: Property)
        requires
            path@.len() >= 1,
        ensures
            r@ == spec_set_path(self@, path.deep_view(), leaf@),
        decreases path@.len(),
    {
        let ghost sv = self@;
        let ghost lv = leaf@;
        let ghost pd = path.deep_view();
        proof {
            assert(pd.len() == path@.len());
            assert(forall|k: int| 0 <= k < path@.len() ==> pd[k] == path@[k]@);
            if self is Tree {
                lemma_tree_children_views(self);
            }
        }
        match self {
            Property::Node(item) => Property::Node(item),
            Property::Tree { name, mut children } => {
                let ghost cv0 = children_views(children@);
                proof {
                    assert(sv == (NodeView::Tree { name: name@, children: cv0 }));
                }
                let seg: &str = path[0];
                let terminal = path.len() == 1;
                match find_child_index(&children, seg) {
                    Some(i) => {
                        proof {
                            lemma_find_index(cv0, seg@);
                        }
                        let c = children.remove(i);
                        proof {
                            assert(c@ == cv0[i as int]);
                        }
                        if terminal {
                            match c {
                                Property::Node(it) => {
                                    let updated = Property::Node(
                                        Item {
                                            name: it.name,
                                            value: leaf.value,
                                            metadata: it.metadata,
                                            phantom: PhantomData,
                                        },
                                    );
                                    children.insert(i, updated);
                                    proof {
                                        let expect = spec_set_path(sv, pd, lv)->Tree_children;
                                        assert(expect == cv0.update(i as int, node_view(updated)));
                                        assert(children_views(children@) =~= expect);
                                    }
                                },
                                _ => {
                                    children.insert(i, c);
                                    let fresh = Property::Node(
                                        Item {
                                            name: leaf.name,
                                            value: leaf.value,
                                            metadata: Metadata::Undefined,
                                            phantom: PhantomData,
                                        },
                                    );
                                    children.push(fresh);
                                    proof {
                                        let expect = spec_set_path(sv, pd, lv)->Tree_children;
                                        assert(children_views(children@) =~= expect);
                                    }
                                },
                            }
                        } else {
                            match c {
                                Property::Tree { .. } => {
                                    let rest = &path[1..path.len()];
                                    proof {
                                        assert(rest.deep_view() =~= pd.skip(1));
                                    }
                                    let c2 = c.set_path(rest, leaf);
                                    children.insert(i, c2);
                                    proof {
                                        let expect = spec_set_path(sv, pd, lv)->Tree_children;
                                        assert(children_views(children@) =~= expect);
                                    }
                                },
                                _ => {
                                    children.insert(i, c);
                                    proof {
                                        assert(spec_set_path(sv, pd, lv) == sv);
                                        assert(children_views(children@) =~= cv0);
                                    }
                                },
                            }
                        }
                    },
                    None => {
                        if terminal {
                            let fresh = Property::Node(
                                Item {
                                    name: leaf.name,
                                    value: leaf.value,
                                    metadata: Metadata::Undefined,
                                    phantom: PhantomData,
                                },
                            );
                            children.push(fresh);
                            proof {
                                let expect = spec_set_path(sv, pd, lv)->Tree_children;
                                assert(children_views(children@) =~= expect);
                            }
                        } else {
                            let rest = &path[1..path.len()];
                            proof {
                                assert(rest.deep_view() =~= pd.skip(1));
                            }
                            let sub = Property::new_tree(seg).set_path(rest, leaf);
                            children.push(sub);
                            proof {
                                let expect = spec_set_path(sv, pd, lv)->Tree_children;
                                assert(children_views(children@) =~= expect);
                            }
                        }
                    },
                }
                let out = Property::Tree { name, children };
                proof {
                    lemma_tree_children_views(out);
                    assert(out@ == spec_set_path(sv, pd, lv));
                }
                out
            },
        }
    }
}

/// The node a path leads to: each segment selects the first child with
/// that name; an empty path selects the node itself.
pub open spec fn spec_lookup(node: NodeView, path: Seq<Seq<char>>) -> Option<NodeView>
    decreases path.len(),
{
    if path.len() == 0 {
        Some(node)
    } else {
        match node {
            NodeView::Tree { children, .. } => match spec_find(children, path[0]) {
                Some(c) => spec_lookup(c, path.skip(1)),
                None => None,
            },
            NodeView::Leaf(_) => None,
        }
    }
}

/// The leaf a path leads to, or the not-found sentinel: a missing path or
/// one that ends on an inner node is no error.
pub open spec fn spec_extract(node: NodeView, path: Seq<Seq<char>>) -> ItemView {
    match spec_lookup(node, path) {
        Some(NodeView::Leaf(it)) => it,
        _ => ItemView::sentinel(),
    }
}

/// Extract the leaf at a path as a typed accessor: a cloned snapshot of
/// its name, value and metadata. A missing path yields the sentinel.
pub fn extract<T: DomainValue>(node: &Property, path: &[&str]) -> (r: Item<T>)
    ensures
        r@ == spec_extract(node@, path.deep_view()),
{
    let ghost pd = path.deep_view();
    proof {
        assert(pd.len() == path@.len());
        assert(forall|k: int| 0 <= k < path@.len() ==> pd[k] == path@[k]@);
        assert(pd.skip(0) =~= pd);
    }
    let mut cur: &Property = node;
    let mut i: usize = 0;
    while i < path.len()
        invariant
            i <= path@.len(),
            pd == path.deep_view(),
            pd.len() == path@.len(),
            forall|k: int| 0 <= k < path@.len() ==> pd[k] == path@[k]@,
            spec_lookup(node@, pd) == spec_lookup(cur@, pd.skip(i as int)),
        decreases path@.len() - i,
    {
        proof {
            assert(pd.skip(i as int)[0] == pd[i as int]);
        }
        match cur.find(path[i]) {
            Some(c) => {
                proof {
                    assert(pd.skip(i as int).skip(1) =~= pd.skip(i as int + 1));
                }
                cur = c;
            },
            None => {
                return Item::not_found();
            },
        }
        i = i + 1;
    }
    proof {
        assert(pd.skip(i as int) =~= Seq::<Seq<char>>::empty());
    }
    match cur {
        Property::Node(item) => Item {
            name: item.name.clone(),
            value: item.value.clone(),
            metadata: item.metadata.clone(),
            phantom: PhantomData,
        },
        Property::Tree { .. } => Item::not_found(),
    }
}

/// Law: pushing a child whose name no existing child carries, then
/// finding that name, returns the pushed child. (With the name already
/// taken, find returns the earlier child instead: lookup takes the first
/// match.)
pub proof fn lemma_find_push(children: Seq<NodeView>, child: NodeView)
    requires
        forall|j: int| 0 <= j < children.len() ==> (#[trigger] children[j].name())
            != child.name(),
    ensures
        spec_find(children.push(child), child.name()) == Some(child),
    decreases children.len(),
{
    let all = children.push(child);
    if children.len() == 0 {
        assert(all[0] == child);
    } else {
        assert(all[0] == children[0]);
        assert(all.skip(1) =~= children.skip(1).push(child));
        assert forall|j: int| 0 <= j < children.skip(1).len() implies (#[trigger] children.skip(
            1)[j].name()) != child.name() by {
            assert(children.skip(1)[j] == children[j + 1]);
        }
        lemma_find_push(children.skip(1), child);
    }
}

/// Every decoded integer fits the width it was decoded from.
pub proof fn lemma_decode_int_fits(s: Seq<char>)
    requires
        valid_hex_int(s),
    ensures
        crate::codec::fits_width(spec_decode_int(s), s.len() / 2),
{
    crate::codec::lemma_hex_le_unsigned_bound(s);
    reveal_with_fuel(crate::codec::pow256, 5);
}

/// Law: a step-scaled value on the leaf's own grid, between the leaf's
/// bounds, survives a write followed by a read exactly; in particular the
/// read value is within half a step of the written one.
///
/// The grid premise is needed: writing rounds toward the nearest lower
/// grid point, so a value strictly between grid points (0.9 on a 0.5
/// step, say) comes back as the grid point below it, up to a whole step
/// away.
pub proof fn lemma_step_write_read_roundtrip(item: ItemView, k: int)
    requires
        item.meta is Step,
        valid_hex_len(item.meta->Step_max.len()),
        valid_hex_int(item.meta->Step_max),
        valid_hex_int(item.meta->Step_min),
        item.meta->Step_min.len() == item.meta->Step_max.len(),
        spec_decode_int(item.meta->Step_min) <= k <= spec_decode_int(item.meta->Step_max),
    ensures
        item.written(k * spec_effective_coeff_e8(item.meta->Step_step)).numeric_readable(),
        item.written(k * spec_effective_coeff_e8(item.meta->Step_step)).numeric_value_e8() == k
            * spec_effective_coeff_e8(item.meta->Step_step),
        ({
            let c8 = spec_effective_coeff_e8(item.meta->Step_step);
            let diff = item.written(k * c8).numeric_value_e8() - k * c8;
            -c8 <= 2 * diff <= c8
        }),
{
    let st = item.meta->Step_step;
    let maxs = item.meta->Step_max;
    let mins = item.meta->Step_min;
    let w = maxs.len() / 2;
    let c8 = spec_effective_coeff_e8(st);
    let v8 = k * c8;
    assert(c8 > 0) by {
        if crate::codec::spec_step_base(st) == 0 {
            crate::codec::lemma_pow10_le_15(8);
        } else {
            crate::codec::lemma_pow10_le_15((crate::codec::spec_step_exp(st) + 8) as nat);
            assert(crate::codec::spec_step_base(st) * crate::codec::pow10((
            crate::codec::spec_step_exp(st) + 8) as nat) as int > 0) by (nonlinear_arith)
                requires
                    crate::codec::spec_step_base(st) > 0,
                    crate::codec::pow10((crate::codec::spec_step_exp(st) + 8) as nat) > 0,
            ;
        }
    };
    crate::codec::lemma_div_toward_zero_exact(k, c8);
    lemma_decode_int_fits(maxs);
    lemma_decode_int_fits(mins);
    reveal_with_fuel(crate::codec::pow256, 5);
    assert(crate::codec::fits_width(k, w));
    assert(crate::codec::sat_i64(k) == k);
    crate::codec::lemma_encode_decode(k, w);
}

} // verus!
