//! The device status snapshot: the fixed set of readable and writable
//! properties of one device, each bound to one wire path, with conversion
//! from a response envelope and to a write request envelope.

use vstd::prelude::*;
use vstd::string::StringExecFns;
use core::marker::PhantomData;
use crate::codec::Decimal;
use crate::property::{
    Item, ItemView, MetaView, NodeView, Property, spec_extract, spec_set_path, extract,
};
use crate::request::{DaikinRequest, Request, RequestView, OP_WRITE};
use crate::response::{DaikinResponse, ResponseView};
use crate::types::{
    AutoModeWindSpeed, DomainValue, HorizontalDirection, Mode, VerticalDirection, WindSpeed,
};

verus! {

/// The route that carries the main status block.
pub open spec fn spec_route_main() -> Seq<char> {
    "/dsiot/edge/adr_0100.dgc_status"@
}

/// The route that carries the outdoor unit's block.
pub open spec fn spec_route_outdoor() -> Seq<char> {
    "/dsiot/edge/adr_0200.dgc_status"@
}

/// The first response entry answering for a route; path lookup is exact
/// string match, and an unknown route is no error at this layer.
pub open spec fn spec_route(rs: Seq<ResponseView>, route: Seq<char>) -> Option<ResponseView>
    decreases rs.len(),
{
    if rs.len() == 0 {
        None
    } else if rs[0].from == route {
        Some(rs[0])
    } else {
        spec_route(rs.skip(1), route)
    }
}

/// The leaf a route and tree path select in a response, or the sentinel.
pub open spec fn spec_field(rs: Seq<ResponseView>, route: Seq<char>, path: Seq<Seq<char>>)
    -> ItemView {
    match spec_route(rs, route) {
        Some(rv) => match rv.content {
            Some(t) => spec_extract(t, path),
            None => ItemView::sentinel(),
        },
        None => ItemView::sentinel(),
    }
}

/// The payload tree of the first entry answering for a route.
fn route_content<'a>(res: &'a DaikinResponse, route: &str) -> (r: Option<&'a Property>)
    ensures
        spec_route(res@, route@) matches Some(rv) ==> {
            &&& (rv.content is Some <==> r is Some)
            &&& (r matches Some(p) ==> rv.content == Some(p@))
        },
        spec_route(res@, route@) is None ==> r is None,
{
    let ghost rs = res@;
    proof {
        assert(rs.skip(0) =~= rs);
    }
    let n = res.responses.len();
    let mut i: usize = 0;
    while i < n
        invariant
            i <= n,
            n == res.responses@.len(),
            rs == res@,
            rs.len() == n,
            spec_route(rs, route@) == spec_route(rs.skip(i as int), route@),
        decreases n - i,
    {
        proof {
            assert(rs.skip(i as int)[0] == rs[i as int]);
            assert(rs[i as int] == res.responses@[i as int]@);
        }
        let entry = &res.responses[i];
        if crate::property::str_eq(entry.from.as_str(), route) {
            return match &entry.content {
                Some(p) => Some(p),
                None => None,
            };
        }
        proof {
            assert(rs.skip(i as int).skip(1) =~= rs.skip(i as int + 1));
        }
        i = i + 1;
    }
    proof {
        assert(rs.skip(i as int) =~= Seq::<ResponseView>::empty());
    }
    None
}

/// Extract the leaf at a route and tree path as a typed accessor; a
/// missing route or missing path yields the not-found sentinel.
pub fn extract_field<T: DomainValue>(res: &DaikinResponse, route: &str, path: &[&str])
    -> (r: Item<T>)
    ensures
        r@ == spec_field(res@, route@, path.deep_view()),
{
    match route_content(res, route) {
        Some(p) => extract(p, path),
        None => Item::not_found(),
    }
}

/// Extract the leaf three segments deep under a route.
fn field3<T: DomainValue>(res: &DaikinResponse, route: &str, a: &str, b: &str, c: &str)
    -> (r: Item<T>)
    ensures
        r@ == spec_field(res@, route@, seq![a@, b@, c@]),
{
    let mut p: Vec<&str> = Vec::new();
    p.push(a);
    p.push(b);
    p.push(c);
    let s = p.as_slice();
    proof {
        assert(s.deep_view() =~= seq![a@, b@, c@]);
    }
    extract_field(res, route, s)
}

/// Write a leaf three segments deep into a tree.
fn set3(tree: Property, a: &str, b: &str, c: &str, leaf: Item<Decimal>) -> (r: Property)
    ensures
        r@ == spec_set_path(tree@, seq![a@, b@, c@], leaf@),
{
    let mut p: Vec<&str> = Vec::new();
    p.push(a);
    p.push(b);
    p.push(c);
    let s = p.as_slice();
    proof {
        assert(s.deep_view() =~= seq![a@, b@, c@]);
    }
    tree.set_path(s, leaf)
}

/// The mathematical content of a device status: its twelve bound leaves.
pub ghost struct StatusView {
    pub power: ItemView,
    pub current_temperature: ItemView,
    pub current_humidity: ItemView,
    pub current_outside_temperature: ItemView,
    pub mode: ItemView,
    pub target_cooling_temperature: ItemView,
    pub target_heating_temperature: ItemView,
    pub target_automatic_temperature: ItemView,
    pub wind_speed: ItemView,
    pub automode_wind_speed: ItemView,
    pub vertical_wind_direction: ItemView,
    pub horizontal_wind_direction: ItemView,
}

/// A complete device status: each field is a typed accessor over one
/// fixed wire path, extracted once from a response envelope.
#[derive(Debug)]
pub struct DaikinStatus {
    pub power: Item<Decimal>,
    pub current_temperature: Item<Decimal>,
    pub current_humidity: Item<Decimal>,
    pub current_outside_temperature: Item<Decimal>,
    pub mode: Item<Mode>,
    pub target_cooling_temperature: Item<Decimal>,
    pub target_heating_temperature: Item<Decimal>,
    pub target_automatic_temperature: Item<Decimal>,
    pub wind_speed: Item<WindSpeed>,
    pub automode_wind_speed: Item<AutoModeWindSpeed>,
    pub vertical_wind_direction: Item<VerticalDirection>,
    pub horizontal_wind_direction: Item<HorizontalDirection>,
}

impl View for DaikinStatus {
    type V = StatusView;

    open spec fn view(&self) -> StatusView {
        StatusView {
            power: self.power@,
            current_temperature: self.current_temperature@,
            current_humidity: self.current_humidity@,
            current_outside_temperature: self.current_outside_temperature@,
            mode: self.mode@,
            target_cooling_temperature: self.target_cooling_temperature@,
            target_heating_temperature: self.target_heating_temperature@,
            target_automatic_temperature: self.target_automatic_temperature@,
            wind_speed: self.wind_speed@,
            automode_wind_speed: self.automode_wind_speed@,
            vertical_wind_direction: self.vertical_wind_direction@,
            horizontal_wind_direction: self.horizontal_wind_direction@,
        }
    }
}

impl Clone for DaikinStatus {
    fn clone(&self) -> (r: Self)
        ensures
            r@ == self@,
    {
        DaikinStatus {
            power: self.power.clone(),
            current_temperature: self.current_temperature.clone(),
            current_humidity: self.current_humidity.clone(),
            current_outside_temperature: self.current_outside_temperature.clone(),
            mode: self.mode.clone(),
            target_cooling_temperature: self.target_cooling_temperature.clone(),
            target_heating_temperature: self.target_heating_temperature.clone(),
            target_automatic_temperature: self.target_automatic_temperature.clone(),
            wind_speed: self.wind_speed.clone(),
            automode_wind_speed: self.automode_wind_speed.clone(),
            vertical_wind_direction: self.vertical_wind_direction.clone(),
            horizontal_wind_direction: self.horizontal_wind_direction.clone(),
        }
    }
}

/// The status a response envelope carries: each field looked up at its
/// fixed route and tree path.
pub open spec fn spec_status_of(rs: Seq<ResponseView>) -> StatusView {
    StatusView {
        power: spec_field(rs, spec_route_main(), seq!["e_1002"@, "e_A002"@, "p_01"@]),
        current_temperature: spec_field(rs, spec_route_main(),
            seq!["e_1002"@, "e_A00B"@, "p_01"@]),
        current_humidity: spec_field(rs, spec_route_main(), seq!["e_1002"@, "e_A00B"@, "p_02"@]),
        current_outside_temperature: spec_field(rs, spec_route_outdoor(),
            seq!["e_1003"@, "e_A00D"@, "p_01"@]),
        mode: spec_field(rs, spec_route_main(), seq!["e_1002"@, "e_3001"@, "p_01"@]),
        target_cooling_temperature: spec_field(rs, spec_route_main(),
            seq!["e_1002"@, "e_3001"@, "p_02"@]),
        target_heating_temperature: spec_field(rs, spec_route_main(),
            seq!["e_1002"@, "e_3001"@, "p_03"@]),
        target_automatic_temperature: spec_field(rs, spec_route_main(),
            seq!["e_1002"@, "e_3001"@, "p_1F"@]),
        wind_speed: spec_field(rs, spec_route_main(), seq!["e_1002"@, "e_3001"@, "p_09"@]),
        automode_wind_speed: spec_field(rs, spec_route_main(),
            seq!["e_1002"@, "e_3001"@, "p_26"@]),
        vertical_wind_direction: spec_field(rs, spec_route_main(),
            seq!["e_1002"@, "e_3001"@, "p_05"@]),
        horizontal_wind_direction: spec_field(rs, spec_route_main(),
            seq!["e_1002"@, "e_3001"@, "p_06"@]),
    }
}

/// The tree a status writes back: the nine writable fields set one after
/// the other under the canonical write route's root, in a fixed order.
pub open spec fn spec_request_tree(sv: StatusView) -> NodeView {
    let t0 = NodeView::Tree { name: "dgc_status"@, children: Seq::empty() };
    let t1 = spec_set_path(t0, seq!["e_1002"@, "e_A002"@, "p_01"@], sv.power);
    let t2 = spec_set_path(t1, seq!["e_1002"@, "e_3001"@, "p_01"@], sv.mode);
    let t3 = spec_set_path(t2, seq!["e_1002"@, "e_3001"@, "p_02"@],
        sv.target_cooling_temperature);
    let t4 = spec_set_path(t3, seq!["e_1002"@, "e_3001"@, "p_03"@],
        sv.target_heating_temperature);
    let t5 = spec_set_path(t4, seq!["e_1002"@, "e_3001"@, "p_1F"@],
        sv.target_automatic_temperature);
    let t6 = spec_set_path(t5, seq!["e_1002"@, "e_3001"@, "p_09"@], sv.wind_speed);
    let t7 = spec_set_path(t6, seq!["e_1002"@, "e_3001"@, "p_26"@], sv.automode_wind_speed);
    let t8 = spec_set_path(t7, seq!["e_1002"@, "e_3001"@, "p_05"@], sv.vertical_wind_direction);
    spec_set_path(t8, seq!["e_1002"@, "e_3001"@, "p_06"@], sv.horizontal_wind_direction)
}

impl DaikinStatus {
    /// Build the status from a validated response envelope: twelve fixed
    /// lookups, each yielding the leaf or the not-found sentinel.
    pub fn from_response(res: &DaikinResponse) -> (r: DaikinStatus)
        ensures
            r@ == spec_status_of(res@),
    {
        let main = "/dsiot/edge/adr_0100.dgc_status";
        let outdoor = "/dsiot/edge/adr_0200.dgc_status";
        let r = DaikinStatus {
            power: field3(res, main, "e_1002", "e_A002", "p_01"),
            current_temperature: field3(res, main, "e_1002", "e_A00B", "p_01"),
            current_humidity: field3(res, main, "e_1002", "e_A00B", "p_02"),
            current_outside_temperature: field3(res, outdoor, "e_1003", "e_A00D", "p_01"),
            mode: field3(res, main, "e_1002", "e_3001", "p_01"),
            target_cooling_temperature: field3(res, main, "e_1002", "e_3001", "p_02"),
            target_heating_temperature: field3(res, main, "e_1002", "e_3001", "p_03"),
            target_automatic_temperature: field3(res, main, "e_1002", "e_3001", "p_1F"),
            wind_speed: field3(res, main, "e_1002", "e_3001", "p_09"),
            automode_wind_speed: field3(res, main, "e_1002", "e_3001", "p_26"),
            vertical_wind_direction: field3(res, main, "e_1002", "e_3001", "p_05"),
            horizontal_wind_direction: field3(res, main, "e_1002", "e_3001", "p_06"),
        };
        r
    }

    /// Convert the status into a write request: one entry, addressed at
    /// the canonical write route, holding the nine writable fields. The
    /// model forwards any field combination; the device applies partial
    /// updates server-side.
    pub fn to_request(self) -> (r: DaikinRequest)
        ensures
            r@.len() == 1,
            r@[0].op == OP_WRITE,
            r@[0].to == spec_route_main(),
            r@[0].pc == spec_request_tree(self@),
    {
        let mut tree = Property::new_tree("dgc_status");
        tree = set3(tree, "e_1002", "e_A002", "p_01", self.power);
        tree = set3(tree, "e_1002", "e_3001", "p_01", self.mode.into_raw());
        tree = set3(tree, "e_1002", "e_3001", "p_02", self.target_cooling_temperature);
        tree = set3(tree, "e_1002", "e_3001", "p_03", self.target_heating_temperature);
        tree = set3(tree, "e_1002", "e_3001", "p_1F", self.target_automatic_temperature);
        tree = set3(tree, "e_1002", "e_3001", "p_09", self.wind_speed.into_raw());
        tree = set3(tree, "e_1002", "e_3001", "p_26", self.automode_wind_speed.into_raw());
        tree = set3(tree, "e_1002", "e_3001", "p_05", self.vertical_wind_direction.into_raw());
        tree = set3(tree, "e_1002", "e_3001", "p_06", self.horizontal_wind_direction.into_raw());
        let entry = Request {
            op: OP_WRITE,
            pc: tree,
            to: String::from_str("/dsiot/edge/adr_0100.dgc_status"),
        };
        let r = DaikinRequest { requests: vec![entry] };
        proof {
            assert(r@ =~= seq![RequestView {
                op: OP_WRITE,
                pc: spec_request_tree(self@),
                to: spec_route_main(),
            }]);
        }
        r
    }
}

/// The leaf a write appends for an item: its name and value under
/// undefined metadata.
pub open spec fn appended_leaf(iv: ItemView) -> NodeView {
    NodeView::Leaf(ItemView { name: iv.name, value: iv.value, meta: MetaView::Undefined })
}

/// Writing one segment into an empty tree appends the leaf.
proof fn lemma_set1_fresh(tname: Seq<char>, pn: Seq<char>, kids: Seq<NodeView>, item: ItemView)
    requires
        crate::property::spec_find_index(kids, pn) is None,
    ensures
        spec_set_path(NodeView::Tree { name: tname, children: kids }, seq![pn], item)
            == (NodeView::Tree { name: tname, children: kids.push(appended_leaf(item)) }),
{
}

/// Writing below a segment that no child carries vivifies a fresh
/// subtree and appends it.
proof fn lemma_set_vivify(tname: Seq<char>, kids: Seq<NodeView>, path: Seq<Seq<char>>,
    item: ItemView)
    requires
        path.len() >= 2,
        crate::property::spec_find_index(kids, path[0]) is None,
    ensures
        spec_set_path(NodeView::Tree { name: tname, children: kids }, path, item)
            == (NodeView::Tree {
            name: tname,
            children: kids.push(
                spec_set_path(NodeView::Tree { name: path[0], children: Seq::empty() },
                    path.skip(1), item),
            ),
        }),
{
}

/// Writing below a segment an inner child carries descends into it.
proof fn lemma_set_descend(tname: Seq<char>, kids: Seq<NodeView>, path: Seq<Seq<char>>,
    item: ItemView, i: int)
    requires
        path.len() >= 2,
        crate::property::spec_find_index(kids, path[0]) == Some(i),
        0 <= i < kids.len(),
        kids[i] is Tree,
    ensures
        spec_set_path(NodeView::Tree { name: tname, children: kids }, path, item)
            == (NodeView::Tree {
            name: tname,
            children: kids.update(i, spec_set_path(kids[i], path.skip(1), item)),
        }),
{
}

/// Two character sequences differing at one position differ.
proof fn lemma_str_neq(a: Seq<char>, b: Seq<char>, i: int)
    requires
        0 <= i < a.len(),
        0 <= i < b.len(),
        a[i] != b[i],
    ensures
        a != b,
{
}

/// A path lookup descends into the first child carrying its head.
proof fn lemma_lookup_at(tname: Seq<char>, kids: Seq<NodeView>, path: Seq<Seq<char>>, i: int)
    requires
        path.len() >= 1,
        crate::property::spec_find_index(kids, path[0]) == Some(i),
        0 <= i < kids.len(),
    ensures
        crate::property::spec_lookup(NodeView::Tree { name: tname, children: kids }, path)
            == crate::property::spec_lookup(kids[i], path.skip(1)),
{
    crate::property::lemma_find_index(kids, path[0]);
}

/// A path lookup fails where no child carries its head.
proof fn lemma_lookup_none(tname: Seq<char>, kids: Seq<NodeView>, path: Seq<Seq<char>>)
    requires
        path.len() >= 1,
        crate::property::spec_find_index(kids, path[0]) is None,
    ensures
        crate::property::spec_lookup(NodeView::Tree { name: tname, children: kids }, path)
            is None,
{
    crate::property::lemma_find_index(kids, path[0]);
}

/// A status whose writable fields carry the leaf names of their wire
/// paths: the shape a complete device response yields.
pub open spec fn spec_writable_names_ok(sv: StatusView) -> bool {
    &&& sv.power.name == "p_01"@
    &&& sv.mode.name == "p_01"@
    &&& sv.target_cooling_temperature.name == "p_02"@
    &&& sv.target_heating_temperature.name == "p_03"@
    &&& sv.target_automatic_temperature.name == "p_1F"@
    &&& sv.wind_speed.name == "p_09"@
    &&& sv.automode_wind_speed.name == "p_26"@
    &&& sv.vertical_wind_direction.name == "p_05"@
    &&& sv.horizontal_wind_direction.name == "p_06"@
}

/// The item a leaf reads back as after a round trip: its name and value
/// unchanged, its metadata gone, because writes never carry metadata.
pub open spec fn spec_reparsed(iv: ItemView) -> ItemView {
    ItemView { name: iv.name, value: iv.value, meta: MetaView::Undefined }
}

/// Law: converting a complete status into its write request and parsing
/// that request's tree back as if it were a response reproduces every
/// one of the nine written fields: same name, same value, metadata
/// undefined. The three sensor fields live on read-only paths that the
/// write request does not carry, so they come back as the not-found
/// sentinel.
#[verifier::rlimit(80)]
pub proof fn lemma_status_request_roundtrip(sv: StatusView)
    requires
        spec_writable_names_ok(sv),
    ensures
        ({
            let rs = seq![ResponseView {
                from: spec_route_main(),
                content: Some(spec_request_tree(sv)),
                status_code: 2000u32,
            }];
            let sv2 = spec_status_of(rs);
            &&& sv2.power == spec_reparsed(sv.power)
            &&& sv2.mode == spec_reparsed(sv.mode)
            &&& sv2.target_cooling_temperature == spec_reparsed(sv.target_cooling_temperature)
            &&& sv2.target_heating_temperature == spec_reparsed(sv.target_heating_temperature)
            &&& sv2.target_automatic_temperature == spec_reparsed(
                sv.target_automatic_temperature)
            &&& sv2.wind_speed == spec_reparsed(sv.wind_speed)
            &&& sv2.automode_wind_speed == spec_reparsed(sv.automode_wind_speed)
            &&& sv2.vertical_wind_direction == spec_reparsed(sv.vertical_wind_direction)
            &&& sv2.horizontal_wind_direction == spec_reparsed(sv.horizontal_wind_direction)
            &&& sv2.current_temperature == ItemView::sentinel()
            &&& sv2.current_humidity == ItemView::sentinel()
            &&& sv2.current_outside_temperature == ItemView::sentinel()
        }),
{
    reveal_strlit("dgc_status");
    reveal_strlit("e_1002");
    reveal_strlit("e_1003");
    reveal_strlit("e_A002");
    reveal_strlit("e_A00B");
    reveal_strlit("e_A00D");
    reveal_strlit("e_3001");
    reveal_strlit("p_01");
    reveal_strlit("p_02");
    reveal_strlit("p_03");
    reveal_strlit("p_1F");
    reveal_strlit("p_09");
    reveal_strlit("p_26");
    reveal_strlit("p_05");
    reveal_strlit("p_06");
    reveal_strlit("/dsiot/edge/adr_0100.dgc_status");
    reveal_strlit("/dsiot/edge/adr_0200.dgc_status");
    let e1002 = "e_1002"@;
    let ea002 = "e_A002"@;
    let ea00b = "e_A00B"@;
    let e3001 = "e_3001"@;
    let p01 = "p_01"@;
    let p02 = "p_02"@;
    let p03 = "p_03"@;
    let p1f = "p_1F"@;
    let p09 = "p_09"@;
    let p26 = "p_26"@;
    let p05 = "p_05"@;
    let p06 = "p_06"@;
    lemma_str_neq(e1002, ea002, 2);
    lemma_str_neq(e1002, e3001, 2);
    lemma_str_neq(e1002, ea00b, 2);
    lemma_str_neq(ea002, e3001, 2);
    lemma_str_neq(ea002, ea00b, 5);
    lemma_str_neq(e3001, ea00b, 2);
    lemma_str_neq(p01, p02, 3);
    lemma_str_neq(p01, p03, 3);
    lemma_str_neq(p01, p1f, 2);
    lemma_str_neq(p01, p09, 3);
    lemma_str_neq(p01, p26, 2);
    lemma_str_neq(p01, p05, 3);
    lemma_str_neq(p01, p06, 3);
    lemma_str_neq(p02, p03, 3);
    lemma_str_neq(p02, p1f, 2);
    lemma_str_neq(p02, p09, 3);
    lemma_str_neq(p02, p26, 2);
    lemma_str_neq(p02, p05, 3);
    lemma_str_neq(p02, p06, 3);
    lemma_str_neq(p03, p1f, 2);
    lemma_str_neq(p03, p09, 3);
    lemma_str_neq(p03, p26, 2);
    lemma_str_neq(p03, p05, 3);
    lemma_str_neq(p03, p06, 3);
    lemma_str_neq(p1f, p09, 2);
    lemma_str_neq(p1f, p26, 2);
    lemma_str_neq(p1f, p05, 2);
    lemma_str_neq(p1f, p06, 2);
    lemma_str_neq(p09, p26, 2);
    lemma_str_neq(p09, p05, 3);
    lemma_str_neq(p09, p06, 3);
    lemma_str_neq(p26, p05, 2);
    lemma_str_neq(p26, p06, 2);
    lemma_str_neq(p05, p06, 3);
    lemma_str_neq(spec_route_main(), spec_route_outdoor(), 17);

    // The nine written leaves, with their paths.
    let lp = appended_leaf(sv.power);
    let lm = appended_leaf(sv.mode);
    let lc = appended_leaf(sv.target_cooling_temperature);
    let lh = appended_leaf(sv.target_heating_temperature);
    let la = appended_leaf(sv.target_automatic_temperature);
    let lw = appended_leaf(sv.wind_speed);
    let law = appended_leaf(sv.automode_wind_speed);
    let lv = appended_leaf(sv.vertical_wind_direction);
    let lhz = appended_leaf(sv.horizontal_wind_direction);

    let path_a002 = seq![e1002, ea002, p01];
    assert(path_a002.skip(1) =~= seq![ea002, p01]);
    assert(seq![ea002, p01].skip(1) =~= seq![p01]);

    // Step 1: the power leaf vivifies dgc_status/e_1002/e_A002.
    let t0 = NodeView::Tree { name: "dgc_status"@, children: Seq::empty() };
    let a002 = NodeView::Tree { name: ea002, children: seq![lp] };
    lemma_set1_fresh(ea002, p01, Seq::empty(), sv.power);
    assert(Seq::<NodeView>::empty().push(lp) =~= seq![lp]);
    lemma_set_vivify(e1002, Seq::empty(), seq![ea002, p01], sv.power);
    assert(Seq::<NodeView>::empty().push(a002) =~= seq![a002]);
    let e1002_1 = NodeView::Tree { name: e1002, children: seq![a002] };
    lemma_set_vivify("dgc_status"@, Seq::empty(), path_a002, sv.power);
    assert(Seq::<NodeView>::empty().push(e1002_1) =~= seq![e1002_1]);
    let t1 = spec_set_path(t0, path_a002, sv.power);
    assert(t1 == (NodeView::Tree { name: "dgc_status"@, children: seq![e1002_1] }));

    // Step 2: the mode leaf vivifies e_3001 beside e_A002.
    let path_mode = seq![e1002, e3001, p01];
    assert(path_mode.skip(1) =~= seq![e3001, p01]);
    assert(seq![e3001, p01].skip(1) =~= seq![p01]);
    crate::property::lemma_find_index_from_scan(seq![e1002_1], e1002, 0);
    crate::property::lemma_find_index_from_scan(seq![a002], e3001, 1);
    lemma_set1_fresh(e3001, p01, Seq::empty(), sv.mode);
    assert(Seq::<NodeView>::empty().push(lm) =~= seq![lm]);
    let k1 = seq![lm];
    let e3001_1 = NodeView::Tree { name: e3001, children: k1 };
    lemma_set_vivify(e1002, seq![a002], seq![e3001, p01], sv.mode);
    assert(seq![a002].push(e3001_1) =~= seq![a002, e3001_1]);
    let c2 = seq![a002, e3001_1];
    let e1002_2 = NodeView::Tree { name: e1002, children: c2 };
    lemma_set_descend("dgc_status"@, seq![e1002_1], path_mode, sv.mode, 0);
    assert(seq![e1002_1].update(0, e1002_2) =~= seq![e1002_2]);
    let t2 = spec_set_path(t1, path_mode, sv.mode);
    assert(t2 == (NodeView::Tree { name: "dgc_status"@, children: seq![e1002_2] }));

    // Steps 3 to 9: each remaining field appends its leaf under e_3001.
    let k2 = seq![lm, lc];
    let k3 = seq![lm, lc, lh];
    let k4 = seq![lm, lc, lh, la];
    let k5 = seq![lm, lc, lh, la, lw];
    let k6 = seq![lm, lc, lh, la, lw, law];
    let k7 = seq![lm, lc, lh, la, lw, law, lv];
    let k8 = seq![lm, lc, lh, la, lw, law, lv, lhz];

    let path_cool = seq![e1002, e3001, p02];
    assert(path_cool.skip(1) =~= seq![e3001, p02]);
    assert(seq![e3001, p02].skip(1) =~= seq![p02]);
    crate::property::lemma_find_index_from_scan(seq![e1002_2], e1002, 0);
    crate::property::lemma_find_index_from_scan(c2, e3001, 1);
    crate::property::lemma_find_index_from_scan(k1, p02, 1);
    lemma_set1_fresh(e3001, p02, k1, sv.target_cooling_temperature);
    assert(k1.push(lc) =~= k2);
    let e3001_2 = NodeView::Tree { name: e3001, children: k2 };
    lemma_set_descend(e1002, c2, seq![e3001, p02], sv.target_cooling_temperature, 1);
    assert(c2.update(1, e3001_2) =~= seq![a002, e3001_2]);
    let c3 = seq![a002, e3001_2];
    let e1002_3 = NodeView::Tree { name: e1002, children: c3 };
    lemma_set_descend("dgc_status"@, seq![e1002_2], path_cool, sv.target_cooling_temperature,
        0);
    assert(seq![e1002_2].update(0, e1002_3) =~= seq![e1002_3]);
    let t3 = spec_set_path(t2, path_cool, sv.target_cooling_temperature);
    assert(t3 == (NodeView::Tree { name: "dgc_status"@, children: seq![e1002_3] }));

    let path_heat = seq![e1002, e3001, p03];
    assert(path_heat.skip(1) =~= seq![e3001, p03]);
    assert(seq![e3001, p03].skip(1) =~= seq![p03]);
    crate::property::lemma_find_index_from_scan(seq![e1002_3], e1002, 0);
    crate::property::lemma_find_index_from_scan(c3, e3001, 1);
    crate::property::lemma_find_index_from_scan(k2, p03, 2);
    lemma_set1_fresh(e3001, p03, k2, sv.target_heating_temperature);
    assert(k2.push(lh) =~= k3);
    let e3001_3 = NodeView::Tree { name: e3001, children: k3 };
    lemma_set_descend(e1002, c3, seq![e3001, p03], sv.target_heating_temperature, 1);
    assert(c3.update(1, e3001_3) =~= seq![a002, e3001_3]);
    let c4 = seq![a002, e3001_3];
    let e1002_4 = NodeView::Tree { name: e1002, children: c4 };
    lemma_set_descend("dgc_status"@, seq![e1002_3], path_heat, sv.target_heating_temperature,
        0);
    assert(seq![e1002_3].update(0, e1002_4) =~= seq![e1002_4]);
    let t4 = spec_set_path(t3, path_heat, sv.target_heating_temperature);
    assert(t4 == (NodeView::Tree { name: "dgc_status"@, children: seq![e1002_4] }));

    let path_auto = seq![e1002, e3001, p1f];
    assert(path_auto.skip(1) =~= seq![e3001, p1f]);
    assert(seq![e3001, p1f].skip(1) =~= seq![p1f]);
    crate::property::lemma_find_index_from_scan(seq![e1002_4], e1002, 0);
    crate::property::lemma_find_index_from_scan(c4, e3001, 1);
    crate::property::lemma_find_index_from_scan(k3, p1f, 3);
    lemma_set1_fresh(e3001, p1f, k3, sv.target_automatic_temperature);
    assert(k3.push(la) =~= k4);
    let e3001_4 = NodeView::Tree { name: e3001, children: k4 };
    lemma_set_descend(e1002, c4, seq![e3001, p1f], sv.target_automatic_temperature, 1);
    assert(c4.update(1, e3001_4) =~= seq![a002, e3001_4]);
    let c5 = seq![a002, e3001_4];
    let e1002_5 = NodeView::Tree { name: e1002, children: c5 };
    lemma_set_descend("dgc_status"@, seq![e1002_4], path_auto, sv.target_automatic_temperature,
        0);
    assert(seq![e1002_4].update(0, e1002_5) =~= seq![e1002_5]);
    let t5 = spec_set_path(t4, path_auto, sv.target_automatic_temperature);
    assert(t5 == (NodeView::Tree { name: "dgc_status"@, children: seq![e1002_5] }));

    let path_wind = seq![e1002, e3001, p09];
    assert(path_wind.skip(1) =~= seq![e3001, p09]);
    assert(seq![e3001, p09].skip(1) =~= seq![p09]);
    crate::property::lemma_find_index_from_scan(seq![e1002_5], e1002, 0);
    crate::property::lemma_find_index_from_scan(c5, e3001, 1);
    crate::property::lemma_find_index_from_scan(k4, p09, 4);
    lemma_set1_fresh(e3001, p09, k4, sv.wind_speed);
    assert(k4.push(lw) =~= k5);
    let e3001_5 = NodeView::Tree { name: e3001, children: k5 };
    lemma_set_descend(e1002, c5, seq![e3001, p09], sv.wind_speed, 1);
    assert(c5.update(1, e3001_5) =~= seq![a002, e3001_5]);
    let c6 = seq![a002, e3001_5];
    let e1002_6 = NodeView::Tree { name: e1002, children: c6 };
    lemma_set_descend("dgc_status"@, seq![e1002_5], path_wind, sv.wind_speed, 0);
    assert(seq![e1002_5].update(0, e1002_6) =~= seq![e1002_6]);
    let t6 = spec_set_path(t5, path_wind, sv.wind_speed);
    assert(t6 == (NodeView::Tree { name: "dgc_status"@, children: seq![e1002_6] }));

    let path_am = seq![e1002, e3001, p26];
    assert(path_am.skip(1) =~= seq![e3001, p26]);
    assert(seq![e3001, p26].skip(1) =~= seq![p26]);
    crate::property::lemma_find_index_from_scan(seq![e1002_6], e1002, 0);
    crate::property::lemma_find_index_from_scan(c6, e3001, 1);
    crate::property::lemma_find_index_from_scan(k5, p26, 5);
    lemma_set1_fresh(e3001, p26, k5, sv.automode_wind_speed);
    assert(k5.push(law) =~= k6);
    let e3001_6 = NodeView::Tree { name: e3001, children: k6 };
    lemma_set_descend(e1002, c6, seq![e3001, p26], sv.automode_wind_speed, 1);
    assert(c6.update(1, e3001_6) =~= seq![a002, e3001_6]);
    let c7 = seq![a002, e3001_6];
    let e1002_7 = NodeView::Tree { name: e1002, children: c7 };
    lemma_set_descend("dgc_status"@, seq![e1002_6], path_am, sv.automode_wind_speed, 0);
    assert(seq![e1002_6].update(0, e1002_7) =~= seq![e1002_7]);
    let t7 = spec_set_path(t6, path_am, sv.automode_wind_speed);
    assert(t7 == (NodeView::Tree { name: "dgc_status"@, children: seq![e1002_7] }));

    let path_vert = seq![e1002, e3001, p05];
    assert(path_vert.skip(1) =~= seq![e3001, p05]);
    assert(seq![e3001, p05].skip(1) =~= seq![p05]);
    crate::property::lemma_find_index_from_scan(seq![e1002_7], e1002, 0);
    crate::property::lemma_find_index_from_scan(c7, e3001, 1);
    crate::property::lemma_find_index_from_scan(k6, p05, 6);
    lemma_set1_fresh(e3001, p05, k6, sv.vertical_wind_direction);
    assert(k6.push(lv) =~= k7);
    let e3001_7 = NodeView::Tree { name: e3001, children: k7 };
    lemma_set_descend(e1002, c7, seq![e3001, p05], sv.vertical_wind_direction, 1);
    assert(c7.update(1, e3001_7) =~= seq![a002, e3001_7]);
    let c8 = seq![a002, e3001_7];
    let e1002_8 = NodeView::Tree { name: e1002, children: c8 };
    lemma_set_descend("dgc_status"@, seq![e1002_7], path_vert, sv.vertical_wind_direction, 0);
    assert(seq![e1002_7].update(0, e1002_8) =~= seq![e1002_8]);
    let t8 = spec_set_path(t7, path_vert, sv.vertical_wind_direction);
    assert(t8 == (NodeView::Tree { name: "dgc_status"@, children: seq![e1002_8] }));

    let path_horiz = seq![e1002, e3001, p06];
    assert(path_horiz.skip(1) =~= seq![e3001, p06]);
    assert(seq![e3001, p06].skip(1) =~= seq![p06]);
    crate::property::lemma_find_index_from_scan(seq![e1002_8], e1002, 0);
    crate::property::lemma_find_index_from_scan(c8, e3001, 1);
    crate::property::lemma_find_index_from_scan(k7, p06, 7);
    lemma_set1_fresh(e3001, p06, k7, sv.horizontal_wind_direction);
    assert(k7.push(lhz) =~= k8);
    let e3001_8 = NodeView::Tree { name: e3001, children: k8 };
    lemma_set_descend(e1002, c8, seq![e3001, p06], sv.horizontal_wind_direction, 1);
    assert(c8.update(1, e3001_8) =~= seq![a002, e3001_8]);
    let c9 = seq![a002, e3001_8];
    let e1002_9 = NodeView::Tree { name: e1002, children: c9 };
    lemma_set_descend("dgc_status"@, seq![e1002_8], path_horiz, sv.horizontal_wind_direction,
        0);
    assert(seq![e1002_8].update(0, e1002_9) =~= seq![e1002_9]);
    let t9 = spec_set_path(t8, path_horiz, sv.horizontal_wind_direction);
    assert(t9 == (NodeView::Tree { name: "dgc_status"@, children: seq![e1002_9] }));
    assert(t9 == spec_request_tree(sv));

    // The simulated re-parse: one response entry on the write route.
    let rv = ResponseView {
        from: spec_route_main(),
        content: Some(t9),
        status_code: 2000u32,
    };
    let rs = seq![rv];
    assert(spec_route(rs, spec_route_main()) == Some(rv));
    assert(rs.skip(1) =~= Seq::<ResponseView>::empty());
    assert(spec_route(Seq::<ResponseView>::empty(), spec_route_outdoor()) is None);
    assert(spec_route(rs, spec_route_outdoor()) is None);

    // Lookups on the re-parsed tree.
    let top = seq![e1002_9];
    crate::property::lemma_find_index_from_scan(top, e1002, 0);
    crate::property::lemma_find_index_from_scan(c9, ea002, 0);
    crate::property::lemma_find_index_from_scan(c9, e3001, 1);
    crate::property::lemma_find_index_from_scan(c9, ea00b, 2);
    crate::property::lemma_find_index_from_scan(seq![lp], p01, 0);
    crate::property::lemma_find_index_from_scan(k8, p01, 0);
    crate::property::lemma_find_index_from_scan(k8, p02, 1);
    crate::property::lemma_find_index_from_scan(k8, p03, 2);
    crate::property::lemma_find_index_from_scan(k8, p1f, 3);
    crate::property::lemma_find_index_from_scan(k8, p09, 4);
    crate::property::lemma_find_index_from_scan(k8, p26, 5);
    crate::property::lemma_find_index_from_scan(k8, p05, 6);
    crate::property::lemma_find_index_from_scan(k8, p06, 7);
    assert(seq![p01].skip(1) =~= Seq::<Seq<char>>::empty());
    assert(seq![p02].skip(1) =~= Seq::<Seq<char>>::empty());
    assert(seq![p03].skip(1) =~= Seq::<Seq<char>>::empty());
    assert(seq![p1f].skip(1) =~= Seq::<Seq<char>>::empty());
    assert(seq![p09].skip(1) =~= Seq::<Seq<char>>::empty());
    assert(seq![p26].skip(1) =~= Seq::<Seq<char>>::empty());
    assert(seq![p05].skip(1) =~= Seq::<Seq<char>>::empty());
    assert(seq![p06].skip(1) =~= Seq::<Seq<char>>::empty());

    // The nine written fields come back with name and value unchanged.
    lemma_lookup_at("dgc_status"@, top, path_a002, 0);
    lemma_lookup_at(e1002, c9, seq![ea002, p01], 0);
    lemma_lookup_at(ea002, seq![lp], seq![p01], 0);
    assert(spec_extract(t9, path_a002) == spec_reparsed(sv.power));

    lemma_lookup_at("dgc_status"@, top, path_mode, 0);
    lemma_lookup_at(e1002, c9, seq![e3001, p01], 1);
    lemma_lookup_at(e3001, k8, seq![p01], 0);
    assert(spec_extract(t9, path_mode) == spec_reparsed(sv.mode));

    lemma_lookup_at("dgc_status"@, top, path_cool, 0);
    lemma_lookup_at(e1002, c9, seq![e3001, p02], 1);
    lemma_lookup_at(e3001, k8, seq![p02], 1);
    assert(spec_extract(t9, path_cool) == spec_reparsed(sv.target_cooling_temperature));

    lemma_lookup_at("dgc_status"@, top, path_heat, 0);
    lemma_lookup_at(e1002, c9, seq![e3001, p03], 1);
    lemma_lookup_at(e3001, k8, seq![p03], 2);
    assert(spec_extract(t9, path_heat) == spec_reparsed(sv.target_heating_temperature));

    lemma_lookup_at("dgc_status"@, top, path_auto, 0);
    lemma_lookup_at(e1002, c9, seq![e3001, p1f], 1);
    lemma_lookup_at(e3001, k8, seq![p1f], 3);
    assert(spec_extract(t9, path_auto) == spec_reparsed(sv.target_automatic_temperature));

    lemma_lookup_at("dgc_status"@, top, path_wind, 0);
    lemma_lookup_at(e1002, c9, seq![e3001, p09], 1);
    lemma_lookup_at(e3001, k8, seq![p09], 4);
    assert(spec_extract(t9, path_wind) == spec_reparsed(sv.wind_speed));

    lemma_lookup_at("dgc_status"@, top, path_am, 0);
    lemma_lookup_at(e1002, c9, seq![e3001, p26], 1);
    lemma_lookup_at(e3001, k8, seq![p26], 5);
    assert(spec_extract(t9, path_am) == spec_reparsed(sv.automode_wind_speed));

    lemma_lookup_at("dgc_status"@, top, path_vert, 0);
    lemma_lookup_at(e1002, c9, seq![e3001, p05], 1);
    lemma_lookup_at(e3001, k8, seq![p05], 6);
    assert(spec_extract(t9, path_vert) == spec_reparsed(sv.vertical_wind_direction));

    lemma_lookup_at("dgc_status"@, top, path_horiz, 0);
    lemma_lookup_at(e1002, c9, seq![e3001, p06], 1);
    lemma_lookup_at(e3001, k8, seq![p06], 7);
    assert(spec_extract(t9, path_horiz) == spec_reparsed(sv.horizontal_wind_direction));

    // The sensor paths are not in the request: they come back as the
    // sentinel.
    let path_temp = seq![e1002, ea00b, p01];
    assert(path_temp.skip(1) =~= seq![ea00b, p01]);
    let path_hum = seq![e1002, ea00b, p02];
    assert(path_hum.skip(1) =~= seq![ea00b, p02]);
    lemma_lookup_at("dgc_status"@, top, path_temp, 0);
    lemma_lookup_none(e1002, c9, seq![ea00b, p01]);
    assert(spec_extract(t9, path_temp) == ItemView::sentinel());
    lemma_lookup_at("dgc_status"@, top, path_hum, 0);
    lemma_lookup_none(e1002, c9, seq![ea00b, p02]);
    assert(spec_extract(t9, path_hum) == ItemView::sentinel());
}

} // verus!
