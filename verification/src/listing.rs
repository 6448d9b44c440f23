//! Read-only enumeration snapshots (installed drivers, registered data
//! sources) and the table-listing column plan. Enumeration carries no
//! decoding logic: each entry renders to one line, and an empty snapshot
//! yields an empty listing, not an error.

use vstd::prelude::*;
use crate::dispatch::DecodeStrategy;

verus! {

/// One registered data source, as the driver manager reports it.
#[derive(Clone, PartialEq, Eq, Debug)]
pub struct DataSourceInfo {
    pub server_name: String,
    pub driver: String,
}

/// One installed driver: its description and its attribute pairs, in the
/// order the driver manager reported them.
#[derive(Clone, PartialEq, Eq, Debug)]
pub struct DriverInfo {
    pub description: String,
    pub attributes: Vec<(String, String)>,
}

/// How one data source renders: `server_name | driver`.
pub open spec fn spec_render_data_source(d: DataSourceInfo) -> Seq<char> {
    d.server_name@ + " | "@ + d.driver@
}

/// Renders one data source entry.
pub fn render_data_source(d: &DataSourceInfo) -> (s: String)
    ensures
        s@ == spec_render_data_source(*d),
{
    let mut s = String::from_str(d.server_name.as_str());
    s.append(" | ");
    s.append(d.driver.as_str());
    s
}

/// Renders a data-source snapshot, one line per entry, in the reported
/// order. An empty snapshot yields an empty listing.
pub fn render_data_sources(items: &Vec<DataSourceInfo>) -> (lines: Vec<String>)
    ensures
        lines@.len() == items@.len(),
        forall|i: int|
            0 <= i < items@.len() ==> (#[trigger] lines@[i])@ == spec_render_data_source(
                items@[i],
            ),
{
    let mut lines: Vec<String> = Vec::new();
    let mut i: usize = 0;
    while i < items.len()
        invariant
            0 <= i <= items@.len(),
            lines@.len() == i as int,
            forall|j: int|
                0 <= j < i ==> (#[trigger] lines@[j])@ == spec_render_data_source(items@[j]),
        decreases items@.len() - i,
    {
        let line = render_data_source(&items[i]);
        lines.push(line);
        i = i + 1;
    }
    lines
}

/// The rendering of the first `k` attribute pairs of a driver entry.
pub open spec fn spec_render_attributes(ps: Seq<(String, String)>, k: int) -> Seq<char>
    decreases k,
{
    if k <= 0 {
        Seq::empty()
    } else {
        spec_render_attributes(ps, k - 1) + " "@ + ps[k - 1].0@ + "="@ + ps[k - 1].1@
    }
}

/// How one driver entry renders: its description, then each attribute as
/// ` key=value` in reported order.
pub open spec fn spec_render_driver(d: DriverInfo) -> Seq<char> {
    d.description@ + spec_render_attributes(d.attributes@, d.attributes@.len() as int)
}

/// Renders one installed-driver entry.
#[verifier::loop_isolation(false)]
pub fn render_driver(d: &DriverInfo) -> (s: String)
    ensures
        s@ == spec_render_driver(*d),
{
    proof {
        reveal_strlit(" ");
        reveal_strlit("=");
    }
    let mut s = String::from_str(d.description.as_str());
    let mut i: usize = 0;
    while i < d.attributes.len()
        invariant
            0 <= i <= d.attributes@.len(),
            s@ == d.description@ + spec_render_attributes(d.attributes@, i as int),
        decreases d.attributes@.len() - i,
    {
        s.append(" ");
        s.append(d.attributes[i].0.as_str());
        s.append("=");
        s.append(d.attributes[i].1.as_str());
        proof {
            assert(s@ =~= d.description@ + spec_render_attributes(d.attributes@, i + 1));
        }
        i = i + 1;
    }
    s
}

/// Renders an installed-driver snapshot, one line per entry, in the
/// reported order. An empty snapshot yields an empty listing.
pub fn render_drivers(items: &Vec<DriverInfo>) -> (lines: Vec<String>)
    ensures
        lines@.len() == items@.len(),
        forall|i: int|
            0 <= i < items@.len() ==> (#[trigger] lines@[i])@ == spec_render_driver(items@[i]),
{
    let mut lines: Vec<String> = Vec::new();
    let mut i: usize = 0;
    while i < items.len()
        invariant
            0 <= i <= items@.len(),
            lines@.len() == i as int,
            forall|j: int|
                0 <= j < i ==> (#[trigger] lines@[j])@ == spec_render_driver(items@[j]),
        decreases items@.len() - i,
    {
        let line = render_driver(&items[i]);
        lines.push(line);
        i = i + 1;
    }
    lines
}

/// The column plan for a table-listing result set: the metadata query has
/// a fixed, driver-defined textual layout (catalog, schema, table name,
/// table type, remarks), so every reported column decodes as text.
pub fn text_strategies(count: usize) -> (v: Vec<DecodeStrategy>)
    ensures
        v@.len() == count as int,
        forall|i: int| 0 <= i < count as int ==> v@[i] == DecodeStrategy::Text,
{
    let mut v: Vec<DecodeStrategy> = Vec::new();
    let mut i: usize = 0;
    while i < count
        invariant
            0 <= i <= count,
            v@.len() == i as int,
            forall|j: int| 0 <= j < i ==> v@[j] == DecodeStrategy::Text,
        decreases count - i,
    {
        v.push(DecodeStrategy::Text);
        i = i + 1;
    }
    v
}

} // verus!
