//! A point-in-time snapshot of node metadata: version counters, timestamps
//! and counts, held as plain integers. The store client hands one over after
//! an exists/set-data call; the display asks for its lines.

use vstd::prelude::*;

use crate::decimal::{i32_to_string, i64_to_string, spec_i64_string};

verus! {

/// Metadata of one node, as the store reports it.
#[derive(Debug, Clone, Copy, PartialEq, Eq, Structural)]
pub struct NodeStat {
    pub czxid: i64,
    pub mzxid: i64,
    pub ctime: i64,
    pub mtime: i64,
    pub version: i32,
    pub cversion: i32,
    pub aversion: i32,
    pub ephemeral_owner: i64,
    pub data_length: i32,
    pub num_children: i32,
    pub pzxid: i64,
}

/// The display lines of a snapshot, one field per line.
pub open spec fn spec_stat_lines(s: NodeStat) -> Seq<Seq<char>> {
    seq![
        "\t czxid : "@ + spec_i64_string(s.czxid as int),
        "\t mzxid : "@ + spec_i64_string(s.mzxid as int),
        "\t ctime : "@ + spec_i64_string(s.ctime as int),
        "\t mtime : "@ + spec_i64_string(s.mtime as int),
        "\t version : "@ + spec_i64_string(s.version as int),
        "\t cversion : "@ + spec_i64_string(s.cversion as int),
        "\t aversion : "@ + spec_i64_string(s.aversion as int),
        "\t ephemeral owner : "@ + spec_i64_string(s.ephemeral_owner as int),
        "\t data length : "@ + spec_i64_string(s.data_length as int),
        "\t num children : "@ + spec_i64_string(s.num_children as int),
        "\t pzxid : "@ + spec_i64_string(s.pzxid as int),
    ]
}

fn labeled_i64(label: &str, n: i64) -> (r: String)
    ensures
        r@ == label@ + spec_i64_string(n as int),
{
    let digits = i64_to_string(n);
    label.to_owned().concat(digits.as_str())
}

fn labeled_i32(label: &str, n: i32) -> (r: String)
    ensures
        r@ == label@ + spec_i64_string(n as int),
{
    let digits = i32_to_string(n);
    label.to_owned().concat(digits.as_str())
}

impl NodeStat {
    /// The display lines of this snapshot, one field per line.
    pub fn lines(&self) -> (r: Vec<String>)
        ensures
            r.deep_view() == spec_stat_lines(*self),
    {
        let mut out: Vec<String> = Vec::new();
        out.push(labeled_i64("\t czxid : ", self.czxid));
        out.push(labeled_i64("\t mzxid : ", self.mzxid));
        out.push(labeled_i64("\t ctime : ", self.ctime));
        out.push(labeled_i64("\t mtime : ", self.mtime));
        out.push(labeled_i32("\t version : ", self.version));
        out.push(labeled_i32("\t cversion : ", self.cversion));
        out.push(labeled_i32("\t aversion : ", self.aversion));
        out.push(labeled_i64("\t ephemeral owner : ", self.ephemeral_owner));
        out.push(labeled_i32("\t data length : ", self.data_length));
        out.push(labeled_i32("\t num children : ", self.num_children));
        out.push(labeled_i64("\t pzxid : ", self.pzxid));
        proof {
            assert(out.deep_view() =~~= spec_stat_lines(*self));
        }
        out
    }
}

} // verus!
