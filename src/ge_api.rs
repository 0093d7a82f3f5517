//! The records of the price API and their decoders.
//!
//! Each decoder reads one JSON text and either builds the whole record or
//! fails: no partial result is ever produced. Unknown members are ignored,
//! the optional price fields become `None` when missing or `null`, and the
//! numeric catalog attributes default to 0 when missing.
use vstd::prelude::*;
use crate::json::{
    keys_distinct,
    find_member, parse_array, parse_bool, parse_nullable_u64, parse_object, parse_string,
    json_array_of, json_bool_of, json_nullable_u64_of, json_object_of, json_string_of, member_of,
};

verus! {

/// Aggregate buy and sell statistics of one item over the snapshot window.
#[allow(non_snake_case)]
#[derive(Clone, Copy, Debug, PartialEq, Eq, Structural)]
pub struct PriceData {
    pub avgHighPrice: Option<u64>,
    pub avgLowPrice: Option<u64>,
    pub highPriceVolume: Option<u64>,
    pub lowPriceVolume: Option<u64>,
}

/// A timestamped price snapshot: item id (in decimal) to its prices.
#[derive(Clone, Debug, PartialEq, Eq)]
pub struct FiveMinResponse {
    pub data: Vec<(String, PriceData)>,
    pub timestamp: u64,
}

/// One point of a price history.
#[derive(Clone, Copy, Debug, PartialEq, Eq, Structural)]
pub struct TimeseriesPoint {
    pub timestamp: u64,
    pub price: u64,
}

/// A price history.
#[derive(Clone, Debug, PartialEq, Eq)]
pub struct TimeseriesResponse {
    pub data: Vec<TimeseriesPoint>,
}

/// Display and game-mechanic attributes of one item.
#[derive(Clone, Debug, PartialEq, Eq)]
pub struct ItemMapping {
    pub id: u32,
    pub name: String,
    pub examine: String,
    pub members: bool,
    pub lowalch: u32,
    pub limit: u32,
    pub value: u32,
    pub highalch: u32,
    pub icon: String,
}

/// The mathematical content of a `FiveMinResponse`.
pub struct SnapshotModel {
    pub prices: Seq<(Seq<char>, PriceData)>,
    pub timestamp: u64,
}

/// The mathematical content of an `ItemMapping`.
pub struct ItemModel {
    pub id: u32,
    pub name: Seq<char>,
    pub examine: Seq<char>,
    pub members: bool,
    pub lowalch: u32,
    pub limit: u32,
    pub value: u32,
    pub highalch: u32,
    pub icon: Seq<char>,
}

pub open spec fn prices_view(data: Seq<(String, PriceData)>) -> Seq<(Seq<char>, PriceData)> {
    data.map_values(|e: (String, PriceData)| (e.0@, e.1))
}

impl View for FiveMinResponse {
    type V = SnapshotModel;

    open spec fn view(&self) -> SnapshotModel {
        SnapshotModel { prices: prices_view(self.data@), timestamp: self.timestamp }
    }
}

impl View for ItemMapping {
    type V = ItemModel;

    open spec fn view(&self) -> ItemModel {
        ItemModel {
            id: self.id,
            name: self.name@,
            examine: self.examine@,
            members: self.members,
            lowalch: self.lowalch,
            limit: self.limit,
            value: self.value,
            highalch: self.highalch,
            icon: self.icon@,
        }
    }
}

/// The item ids of a snapshot, in order.
pub open spec fn price_keys(prices: Seq<(Seq<char>, PriceData)>) -> Seq<Seq<char>> {
    prices.map_values(|e: (Seq<char>, PriceData)| e.0)
}

/// The keys of JSON object members, in order.
pub open spec fn member_keys(members: Seq<(Seq<char>, Seq<char>)>) -> Seq<Seq<char>> {
    members.map_values(|e: (Seq<char>, Seq<char>)| e.0)
}

/// No item id occurs twice.
pub open spec fn ids_distinct(prices: Seq<(Seq<char>, PriceData)>) -> bool {
    forall|i: int, j: int| 0 <= i < j < prices.len() ==> #[trigger] prices[i].0 != #[trigger] prices[j].0
}

impl FiveMinResponse {
    /// Every item id occurs once.
    pub open spec fn wf(&self) -> bool {
        ids_distinct(self@.prices)
    }
}

/// An optional price field: missing or `null` is `None`.
pub open spec fn optional_u64_field(
    members: Seq<(Seq<char>, Seq<char>)>,
    key: Seq<char>,
) -> Option<Option<u64>> {
    match member_of(members, key) {
        None => Some(None),
        Some(t) => json_nullable_u64_of(t),
    }
}

/// A required integer field.
pub open spec fn required_u64_field(members: Seq<(Seq<char>, Seq<char>)>, key: Seq<char>) -> Option<
    u64,
> {
    match member_of(members, key) {
        None => None,
        Some(t) => match json_nullable_u64_of(t) {
            Some(Some(n)) => Some(n),
            _ => None,
        },
    }
}

/// An integer field within `u32`: required, or 0 when missing if `defaulted`.
pub open spec fn u32_field(members: Seq<(Seq<char>, Seq<char>)>, key: Seq<char>, defaulted: bool) -> Option<
    u32,
> {
    match member_of(members, key) {
        None => if defaulted {
            Some(0u32)
        } else {
            None
        },
        Some(t) => match json_nullable_u64_of(t) {
            Some(Some(n)) => if n <= u32::MAX {
                Some(n as u32)
            } else {
                None
            },
            _ => None,
        },
    }
}

/// A required string field.
pub open spec fn string_field(members: Seq<(Seq<char>, Seq<char>)>, key: Seq<char>) -> Option<
    Seq<char>,
> {
    match member_of(members, key) {
        None => None,
        Some(t) => json_string_of(t),
    }
}

/// A required boolean field.
pub open spec fn bool_field(members: Seq<(Seq<char>, Seq<char>)>, key: Seq<char>) -> Option<bool> {
    match member_of(members, key) {
        None => None,
        Some(t) => json_bool_of(t),
    }
}

/// The prices of one item decoded from `text`.
pub open spec fn price_data_of(text: Seq<char>) -> Option<PriceData> {
    match json_object_of(text) {
        None => None,
        Some(m) => {
            let h = optional_u64_field(m, "avgHighPrice"@);
            let l = optional_u64_field(m, "avgLowPrice"@);
            let hv = optional_u64_field(m, "highPriceVolume"@);
            let lv = optional_u64_field(m, "lowPriceVolume"@);
            if h is Some && l is Some && hv is Some && lv is Some {
                Some(
                    PriceData {
                        avgHighPrice: h.unwrap(),
                        avgLowPrice: l.unwrap(),
                        highPriceVolume: hv.unwrap(),
                        lowPriceVolume: lv.unwrap(),
                    },
                )
            } else {
                None
            }
        },
    }
}

/// The members of the `data` object, each decoded as prices; `None` when one fails.
pub open spec fn price_entries_of(members: Seq<(Seq<char>, Seq<char>)>) -> Option<
    Seq<(Seq<char>, PriceData)>,
> {
    if forall|i: int| 0 <= i < members.len() ==> #[trigger] price_data_of(members[i].1) is Some {
        Some(Seq::new(members.len(), |i: int| (members[i].0, price_data_of(members[i].1).unwrap())))
    } else {
        None
    }
}

/// The members of the `data` object of the snapshot text, if it has one.
pub open spec fn data_members_of(text: Seq<char>) -> Option<Seq<(Seq<char>, Seq<char>)>> {
    match json_object_of(text) {
        None => None,
        Some(top) => match member_of(top, "data"@) {
            None => None,
            Some(d) => json_object_of(d),
        },
    }
}

/// The snapshot decoded from `text`.
pub open spec fn snapshot_of(text: Seq<char>) -> Option<SnapshotModel> {
    match json_object_of(text) {
        None => None,
        Some(top) => {
            let prices = match data_members_of(text) {
                None => None,
                Some(dm) => price_entries_of(dm),
            };
            let ts = required_u64_field(top, "timestamp"@);
            if prices is Some && ts is Some {
                Some(SnapshotModel { prices: prices.unwrap(), timestamp: ts.unwrap() })
            } else {
                None
            }
        },
    }
}

/// One catalog entry decoded from `text`.
pub open spec fn item_of(text: Seq<char>) -> Option<ItemModel> {
    match json_object_of(text) {
        None => None,
        Some(m) => {
            let id = u32_field(m, "id"@, false);
            let name = string_field(m, "name"@);
            let examine = string_field(m, "examine"@);
            let members = bool_field(m, "members"@);
            let lowalch = u32_field(m, "lowalch"@, true);
            let limit = u32_field(m, "limit"@, true);
            let value = u32_field(m, "value"@, true);
            let highalch = u32_field(m, "highalch"@, true);
            let icon = string_field(m, "icon"@);
            if id is Some && name is Some && examine is Some && members is Some && lowalch is Some
                && limit is Some && value is Some && highalch is Some && icon is Some {
                Some(
                    ItemModel {
                        id: id.unwrap(),
                        name: name.unwrap(),
                        examine: examine.unwrap(),
                        members: members.unwrap(),
                        lowalch: lowalch.unwrap(),
                        limit: limit.unwrap(),
                        value: value.unwrap(),
                        highalch: highalch.unwrap(),
                        icon: icon.unwrap(),
                    },
                )
            } else {
                None
            }
        },
    }
}

/// The catalog decoded from `text`, in the order of the array.
pub open spec fn catalog_of(text: Seq<char>) -> Option<Seq<ItemModel>> {
    match json_array_of(text) {
        None => None,
        Some(elems) => if forall|i: int| 0 <= i < elems.len() ==> #[trigger] item_of(elems[i]) is Some {
            Some(Seq::new(elems.len(), |i: int| item_of(elems[i]).unwrap()))
        } else {
            None
        },
    }
}


/// Reads an optional price field: `Some(None)` when missing or `null`.
fn optional_u64_member(members: &Vec<(String, String)>, key: &str) -> (r: Option<Option<u64>>)
    ensures
        r == optional_u64_field(members.deep_view(), key@),
{
    match find_member(members, key) {
        None => Some(None),
        Some(i) => {
            assert(members.deep_view()[i as int].1 == members@[i as int].1@);
            parse_nullable_u64(members[i].1.as_str())
        },
    }
}

/// Reads a required integer field.
fn required_u64_member(members: &Vec<(String, String)>, key: &str) -> (r: Option<u64>)
    ensures
        r == required_u64_field(members.deep_view(), key@),
{
    match find_member(members, key) {
        None => None,
        Some(i) => {
            assert(members.deep_view()[i as int].1 == members@[i as int].1@);
            match parse_nullable_u64(members[i].1.as_str()) {
                Some(Some(n)) => Some(n),
                _ => None,
            }
        },
    }
}

/// Reads an integer field within `u32`; when `defaulted`, a missing field is 0.
fn u32_member(members: &Vec<(String, String)>, key: &str, defaulted: bool) -> (r: Option<u32>)
    ensures
        r == u32_field(members.deep_view(), key@, defaulted),
{
    match find_member(members, key) {
        None => if defaulted {
            Some(0)
        } else {
            None
        },
        Some(i) => {
            assert(members.deep_view()[i as int].1 == members@[i as int].1@);
            match parse_nullable_u64(members[i].1.as_str()) {
                Some(Some(n)) => if n <= u32::MAX as u64 {
                    Some(n as u32)
                } else {
                    None
                },
                _ => None,
            }
        },
    }
}

/// Reads a required string field.
fn string_member(members: &Vec<(String, String)>, key: &str) -> (r: Option<String>)
    ensures
        r is Some <==> string_field(members.deep_view(), key@) is Some,
        r matches Some(s) ==> string_field(members.deep_view(), key@) == Some(s@),
{
    match find_member(members, key) {
        None => None,
        Some(i) => {
            assert(members.deep_view()[i as int].1 == members@[i as int].1@);
            parse_string(members[i].1.as_str())
        },
    }
}

/// Reads a required boolean field.
fn bool_member(members: &Vec<(String, String)>, key: &str) -> (r: Option<bool>)
    ensures
        r == bool_field(members.deep_view(), key@),
{
    match find_member(members, key) {
        None => None,
        Some(i) => {
            assert(members.deep_view()[i as int].1 == members@[i as int].1@);
            parse_bool(members[i].1.as_str())
        },
    }
}

/// Decodes the prices of one item from a JSON object.
pub fn decode_price_data(text: &str) -> (r: Option<PriceData>)
    ensures
        r == price_data_of(text@),
{
    let members = match parse_object(text) {
        None => return None,
        Some(m) => m,
    };
    let h = optional_u64_member(&members, "avgHighPrice");
    let l = optional_u64_member(&members, "avgLowPrice");
    let hv = optional_u64_member(&members, "highPriceVolume");
    let lv = optional_u64_member(&members, "lowPriceVolume");
    match (h, l, hv, lv) {
        (Some(h), Some(l), Some(hv), Some(lv)) => Some(
            PriceData { avgHighPrice: h, avgLowPrice: l, highPriceVolume: hv, lowPriceVolume: lv },
        ),
        _ => None,
    }
}

/// Decodes every member of the `data` object as the prices of the item it names.
fn decode_price_entries(members: &Vec<(String, String)>) -> (r: Option<Vec<(String, PriceData)>>)
    ensures
        r is Some <==> price_entries_of(members.deep_view()) is Some,
        r matches Some(v) ==> price_entries_of(members.deep_view()) == Some(prices_view(v@)),
        r matches Some(v) ==> (keys_distinct(members.deep_view()) ==> ids_distinct(prices_view(v@))),
{
    let ghost dm = members.deep_view();
    let mut out: Vec<(String, PriceData)> = Vec::new();
    let mut i: usize = 0;
    while i < members.len()
        invariant
            i <= members.len(),
            dm == members.deep_view(),
            out@.len() == i,
            forall|k: int| 0 <= k < i ==> #[trigger] price_data_of(dm[k].1) is Some,
            forall|k: int|
                0 <= k < i ==> (#[trigger] out@[k]).0@ == dm[k].0 && out@[k].1 == price_data_of(
                    dm[k].1,
                ).unwrap(),
        decreases members.len() - i,
    {
        assert(dm[i as int] == members@[i as int].deep_view());
        match decode_price_data(members[i].1.as_str()) {
            None => {
                assert(!(price_data_of(dm[i as int].1) is Some));
                return None;
            },
            Some(p) => {
                let key = members[i].0.clone();
                out.push((key, p));
                i = i + 1;
            },
        }
    }
    assert(prices_view(out@) =~= Seq::new(
        dm.len(),
        |k: int| (dm[k].0, price_data_of(dm[k].1).unwrap()),
    ));
    assert(keys_distinct(dm) ==> ids_distinct(prices_view(out@))) by {
        if keys_distinct(dm) {
            assert forall|a: int, b: int| 0 <= a < b < prices_view(out@).len() implies #[trigger] prices_view(out@)[a].0
                != #[trigger] prices_view(out@)[b].0 by {
                assert(prices_view(out@)[a].0 == dm[a].0);
                assert(prices_view(out@)[b].0 == dm[b].0);
            }
        }
    }
    Some(out)
}

/// Decodes a price snapshot: an object whose `data` member maps item ids to
/// their prices, with an integer `timestamp` member.
pub fn decode_latest_prices(text: &str) -> (r: Option<FiveMinResponse>)
    ensures
        r is Some <==> snapshot_of(text@) is Some,
        r matches Some(s) ==> snapshot_of(text@) == Some(s@) && s.wf(),
        text@.len() == 0 ==> r is None,
{
    let top = match parse_object(text) {
        None => return None,
        Some(m) => m,
    };
    let prices = match find_member(&top, "data") {
        None => None,
        Some(i) => {
            assert(top.deep_view()[i as int].1 == top@[i as int].1@);
            match parse_object(top[i].1.as_str()) {
                None => None,
                Some(dm) => decode_price_entries(&dm),
            }
        },
    };
    let ts = required_u64_member(&top, "timestamp");
    match (prices, ts) {
        (Some(data), Some(timestamp)) => {
            let r = FiveMinResponse { data, timestamp };
            assert(r@.prices == prices_view(data@));
            Some(r)
        },
        _ => None,
    }
}


/// Decodes one catalog entry from a JSON object. `id`, `name`, `examine`,
/// `members` and `icon` are required; `lowalch`, `limit`, `value` and
/// `highalch` are 0 when missing.
pub fn decode_item(text: &str) -> (r: Option<ItemMapping>)
    ensures
        r is Some <==> item_of(text@) is Some,
        r matches Some(it) ==> item_of(text@) == Some(it@),
{
    let m = match parse_object(text) {
        None => return None,
        Some(m) => m,
    };
    let id = u32_member(&m, "id", false);
    let name = string_member(&m, "name");
    let examine = string_member(&m, "examine");
    let members = bool_member(&m, "members");
    let lowalch = u32_member(&m, "lowalch", true);
    let limit = u32_member(&m, "limit", true);
    let value = u32_member(&m, "value", true);
    let highalch = u32_member(&m, "highalch", true);
    let icon = string_member(&m, "icon");
    match (id, name, examine, members, lowalch, limit, value, highalch, icon) {
        (
            Some(id),
            Some(name),
            Some(examine),
            Some(members),
            Some(lowalch),
            Some(limit),
            Some(value),
            Some(highalch),
            Some(icon),
        ) => Some(
            ItemMapping { id, name, examine, members, lowalch, limit, value, highalch, icon },
        ),
        _ => None,
    }
}

/// Decodes the item catalog: a JSON array of entries, kept in array order.
pub fn decode_item_mapping(text: &str) -> (r: Option<Vec<ItemMapping>>)
    ensures
        r is Some <==> catalog_of(text@) is Some,
        r matches Some(v) ==> catalog_of(text@) == Some(v@.map_values(|it: ItemMapping| it@)),
        text@.len() == 0 ==> r is None,
{
    let elems = match parse_array(text) {
        None => return None,
        Some(e) => e,
    };
    let ghost ev = elems.deep_view();
    let mut out: Vec<ItemMapping> = Vec::new();
    let mut i: usize = 0;
    while i < elems.len()
        invariant
            i <= elems.len(),
            ev == elems.deep_view(),
            json_array_of(text@) == Some(ev),
            out@.len() == i,
            forall|k: int| 0 <= k < i ==> #[trigger] item_of(ev[k]) == Some(out@[k]@),
        decreases elems.len() - i,
    {
        assert(ev[i as int] == elems@[i as int]@);
        match decode_item(elems[i].as_str()) {
            None => {
                assert(!(item_of(ev[i as int]) is Some));
                return None;
            },
            Some(it) => {
                out.push(it);
                i = i + 1;
            },
        }
    }
    assert(out@.map_values(|it: ItemMapping| it@) =~= Seq::new(
        ev.len(),
        |k: int| item_of(ev[k]).unwrap(),
    ));
    Some(out)
}


/// A member that is missing, or whose value is JSON `null`.
pub open spec fn absent_or_null(members: Seq<(Seq<char>, Seq<char>)>, key: Seq<char>) -> bool {
    match member_of(members, key) {
        None => true,
        Some(t) => json_nullable_u64_of(t) == Some(Option::<u64>::None),
    }
}

/// A decoded snapshot holds exactly the item ids of the `data` object, in
/// its order, and each price field of an item is absent exactly when the
/// member is missing from that item's object or is `null`.
pub proof fn lemma_snapshot_mirrors_input(text: Seq<char>)
    requires
        snapshot_of(text) is Some,
    ensures
        data_members_of(text) is Some,
        price_keys(snapshot_of(text).unwrap().prices) == member_keys(data_members_of(text).unwrap()),
        forall|i: int|
            0 <= i < snapshot_of(text).unwrap().prices.len() ==> {
                let entry = #[trigger] snapshot_of(text).unwrap().prices[i].1;
                let item = json_object_of(data_members_of(text).unwrap()[i].1).unwrap();
                &&& (entry.avgHighPrice is None <==> absent_or_null(item, "avgHighPrice"@))
                &&& (entry.avgLowPrice is None <==> absent_or_null(item, "avgLowPrice"@))
                &&& (entry.highPriceVolume is None <==> absent_or_null(item, "highPriceVolume"@))
                &&& (entry.lowPriceVolume is None <==> absent_or_null(item, "lowPriceVolume"@))
            },
{
    let dm = data_members_of(text).unwrap();
    let prices = snapshot_of(text).unwrap().prices;
    assert(price_keys(prices) =~= member_keys(dm));
    assert forall|i: int| 0 <= i < prices.len() implies {
        let entry = #[trigger] prices[i].1;
        let item = json_object_of(dm[i].1).unwrap();
        &&& (entry.avgHighPrice is None <==> absent_or_null(item, "avgHighPrice"@))
        &&& (entry.avgLowPrice is None <==> absent_or_null(item, "avgLowPrice"@))
        &&& (entry.highPriceVolume is None <==> absent_or_null(item, "highPriceVolume"@))
        &&& (entry.lowPriceVolume is None <==> absent_or_null(item, "lowPriceVolume"@))
    } by {
        assert(price_data_of(dm[i].1) is Some);
    }
}

/// A catalog entry without a `lowalch` member decodes with `lowalch` 0.
pub proof fn lemma_missing_lowalch_is_zero(text: Seq<char>)
    requires
        catalog_of(text) is Some,
    ensures
        forall|i: int|
            0 <= i < catalog_of(text).unwrap().len() && member_of(
                json_object_of(json_array_of(text).unwrap()[i]).unwrap(),
                "lowalch"@,
            ) is None ==> #[trigger] catalog_of(text).unwrap()[i].lowalch == 0,
{
    let elems = json_array_of(text).unwrap();
    assert forall|i: int|
        0 <= i < catalog_of(text).unwrap().len() && member_of(
            json_object_of(elems[i]).unwrap(),
            "lowalch"@,
        ) is None implies #[trigger] catalog_of(text).unwrap()[i].lowalch == 0 by {
        assert(item_of(elems[i]) is Some);
    }
}

/// A catalog with an entry that has no `name` member does not decode.
pub proof fn lemma_missing_name_fails(text: Seq<char>, i: int)
    requires
        json_array_of(text) is Some,
        0 <= i < json_array_of(text).unwrap().len(),
        json_object_of(json_array_of(text).unwrap()[i]) is Some,
        member_of(json_object_of(json_array_of(text).unwrap()[i]).unwrap(), "name"@) is None,
    ensures
        catalog_of(text) is None,
{
    let elems = json_array_of(text).unwrap();
    assert(item_of(elems[i]) is None);
}

} // verus!
