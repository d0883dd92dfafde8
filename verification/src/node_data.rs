//! The node payload and its three representations: raw bytes, text, and a
//! structured (JSON) value kept as its canonical text. Conversions between
//! representations either succeed and replace the representation, or fail and
//! hand the value back unchanged.

use vstd::prelude::*;
use vstd::utf8::{decode_utf8, decode_utf8_encode_utf8, encode_utf8, valid_utf8};
use vstd::string::StrSliceExecFns;

use crate::decimal::{spec_u64_string, u64_to_string};
use crate::text::push_char;

verus! {

/// A node payload, in exactly one representation at a time.
///
/// `Json` holds the canonical text of a structured value: the text a parser
/// produced and a renderer would produce again, so that rendering and
/// serialising need no further parse.
#[derive(Debug, Clone, PartialEq)]
pub enum NodeData {
    Raw(Vec<u8>),
    Text(String),
    Json(String),
}

/// The mathematical shadow of `NodeData`.
#[verifier::ext_equal]
pub ghost enum NodeDataView {
    Raw(Seq<u8>),
    Text(Seq<char>),
    Json(Seq<char>),
}

impl View for NodeData {
    type V = NodeDataView;

    open spec fn view(&self) -> NodeDataView {
        match self {
            NodeData::Raw(b) => NodeDataView::Raw(b@),
            NodeData::Text(s) => NodeDataView::Text(s@),
            NodeData::Json(s) => NodeDataView::Json(s@),
        }
    }
}

/// What `String::from_utf8_lossy` yields on bytes that are not valid UTF-8.
/// On valid UTF-8 the trusted wrapper below pins the result to `decode_utf8`,
/// so this name only ever carries the lossy corner.
pub uninterp spec fn lossy_decode(bytes: Seq<u8>) -> Seq<char>;

/// The canonical text of the JSON value that the given text parses to, or
/// `None` when the text is not well-formed JSON.
pub uninterp spec fn json_canon(text: Seq<char>) -> Option<Seq<char>>;

/// The canonical text of the JSON value that the given bytes parse to, or
/// `None` when the bytes are not well-formed JSON.
pub uninterp spec fn json_canon_bytes(bytes: Seq<u8>) -> Option<Seq<char>>;

/// Relies on String::from_utf8_lossy: bytes that are valid UTF-8 decode to
/// exactly their character sequence; any invalid sequence is replaced with
/// U+FFFD, so the result then holds at least one replacement character.
#[verifier::external_body]
fn utf8_lossy(bytes: &[u8]) -> (r: String)
    ensures
        r@ == (if valid_utf8(bytes@) {
            decode_utf8(bytes@)
        } else {
            lossy_decode(bytes@)
        }),
        !valid_utf8(bytes@) ==> r@.contains('\u{FFFD}'),
{
    String::from_utf8_lossy(bytes).into_owned()
}

/// Relies on serde_json::from_str::<Value> and Value's to_string: parsing
/// succeeds exactly on well-formed JSON text, and rendering the parsed value
/// yields its canonical text. serde_json round-trips a Value through its
/// text, so the canonical text parses back to an equal value and renders the
/// same way again; for floating-point numbers that rests on the
/// float_roundtrip feature, which this crate enables to make the parse
/// exact.
#[verifier::external_body]
fn json_canonical_text(s: &str) -> (r: Option<String>)
    ensures
        (r matches Some(c) ==> json_canon(s@) == Some(c@) && json_canon(c@) == Some(c@)),
        r is None ==> json_canon(s@) is None,
{
    match serde_json::from_str::<serde_json::Value>(s) {
        Ok(v) => Some(v.to_string()),
        Err(_) => None,
    }
}

/// Relies on serde_json::from_slice::<Value> and Value's to_string, as
/// json_canonical_text does for text: parsing succeeds exactly on bytes that
/// are well-formed JSON, and the canonical text round-trips through the
/// parser unchanged (for floating-point numbers by the float_roundtrip
/// feature, as above).
#[verifier::external_body]
fn json_canonical_raw(bytes: &[u8]) -> (r: Option<String>)
    ensures
        (r matches Some(c) ==> json_canon_bytes(bytes@) == Some(c@) && json_canon(c@) == Some(
            c@,
        )),
        r is None ==> json_canon_bytes(bytes@) is None,
{
    match serde_json::from_slice::<serde_json::Value>(bytes) {
        Ok(v) => Some(v.to_string()),
        Err(_) => None,
    }
}

/// Conversion of a payload to its textual representation. Raw bytes decode
/// lossily (this always succeeds); a structured value renders as its
/// canonical text; text stays itself.
pub open spec fn spec_to_text(d: NodeDataView) -> NodeDataView {
    match d {
        NodeDataView::Raw(b) => NodeDataView::Text(
            if valid_utf8(b) {
                decode_utf8(b)
            } else {
                lossy_decode(b)
            },
        ),
        NodeDataView::Text(s) => NodeDataView::Text(s),
        NodeDataView::Json(s) => NodeDataView::Text(s),
    }
}

/// Conversion of a payload to its structured representation: raw bytes or
/// text are parsed, and on parse failure the payload stays as it was.
pub open spec fn spec_to_json(d: NodeDataView) -> NodeDataView {
    match d {
        NodeDataView::Raw(b) => match json_canon_bytes(b) {
            Some(c) => NodeDataView::Json(c),
            None => d,
        },
        NodeDataView::Text(s) => match json_canon(s) {
            Some(c) => NodeDataView::Json(c),
            None => d,
        },
        NodeDataView::Json(_) => d,
    }
}

/// Conversion of a payload to raw bytes: text and canonical structured text
/// become their UTF-8 bytes; raw bytes stay themselves.
pub open spec fn spec_to_raw(d: NodeDataView) -> NodeDataView {
    match d {
        NodeDataView::Raw(_) => d,
        NodeDataView::Text(s) => NodeDataView::Raw(encode_utf8(s)),
        NodeDataView::Json(s) => NodeDataView::Raw(encode_utf8(s)),
    }
}

/// A structured payload always holds canonical text: parsing it back
/// succeeds and changes nothing.
pub open spec fn json_wf(d: NodeDataView) -> bool {
    d matches NodeDataView::Json(s) ==> json_canon(s) == Some(s)
}

/// The display form of a payload: raw bytes as a bracketed byte list, text
/// and structured values as their text.
pub open spec fn spec_render(d: NodeDataView) -> Seq<char> {
    match d {
        NodeDataView::Raw(b) => spec_debug_bytes(b),
        NodeDataView::Text(s) => s,
        NodeDataView::Json(s) => s,
    }
}

/// The byte values in decimal, separated by ", ".
pub open spec fn spec_byte_list(b: Seq<u8>, sep: Seq<char>) -> Seq<char>
    decreases b.len(),
{
    if b.len() == 0 {
        Seq::empty()
    } else if b.len() == 1 {
        spec_u64_string(b[0] as int)
    } else {
        spec_byte_list(b.drop_last(), sep) + sep + spec_u64_string(b.last() as int)
    }
}

/// A byte sequence written the way the debug form of a byte vector is
/// written: "[1, 255]".
pub open spec fn spec_debug_bytes(b: Seq<u8>) -> Seq<char> {
    seq!['['] + spec_byte_list(b, seq![',', ' ']) + seq![']']
}

/// A byte sequence written as a JSON array of numbers: "[1,255]".
pub open spec fn spec_json_byte_array(b: Seq<u8>) -> Seq<char> {
    seq!['['] + spec_byte_list(b, seq![',']) + seq![']']
}

/// Writes the bytes in decimal with the given separator between them.
fn byte_list_string(bytes: &[u8], comma_space: bool) -> (r: String)
    ensures
        r@ == spec_byte_list(
            bytes@,
            if comma_space {
                seq![',', ' ']
            } else {
                seq![',']
            },
        ),
{
    let ghost sep: Seq<char> = if comma_space {
        seq![',', ' ']
    } else {
        seq![',']
    };
    let mut r = String::new();
    let mut i: usize = 0;
    proof {
        assert(bytes@.take(0) =~= Seq::<u8>::empty());
    }
    while i < bytes.len()
        invariant
            i <= bytes@.len(),
            sep == (if comma_space {
                seq![',', ' ']
            } else {
                seq![',']
            }),
            r@ == spec_byte_list(bytes@.take(i as int), sep),
        decreases bytes@.len() - i,
    {
        if i > 0 {
            push_char(&mut r, ',');
            if comma_space {
                push_char(&mut r, ' ');
            }
        }
        let digits = u64_to_string(bytes[i] as u64);
        let joined = r.concat(digits.as_str());
        r = joined;
        proof {
            let prefix = bytes@.take(i as int);
            let grown = bytes@.take(i as int + 1);
            assert(grown.drop_last() =~= prefix);
            assert(grown.last() == bytes@[i as int]);
            if i == 0 {
                assert(r@ =~= spec_byte_list(grown, sep));
            } else {
                assert(r@ =~= spec_byte_list(prefix, sep) + sep + spec_u64_string(
                    bytes@[i as int] as int,
                ));
                assert(r@ =~= spec_byte_list(grown, sep));
            }
        }
        i = i + 1;
    }
    proof {
        assert(bytes@.take(bytes@.len() as int) =~= bytes@);
    }
    r
}

impl NodeData {
    /// A fresh payload: empty raw bytes.
    pub fn empty() -> (r: Self)
        ensures
            r@ == NodeDataView::Raw(Seq::<u8>::empty()),
    {
        NodeData::Raw(Vec::new())
    }

    /// Serialises the given bytes as a JSON array of their decimal values,
    /// the way a JSON serialiser writes a byte slice.
    pub fn parse_data_as_json(data: &[u8]) -> (r: Option<String>)
        ensures
            r matches Some(s) && s@ == spec_json_byte_array(data@),
    {
        let mut out = String::new();
        push_char(&mut out, '[');
        let listed = byte_list_string(data, false);
        let mut joined = out.concat(listed.as_str());
        push_char(&mut joined, ']');
        proof {
            assert(joined@ =~= spec_json_byte_array(data@));
        }
        Some(joined)
    }

    /// Decodes the given bytes as text, lossily; this always succeeds, and
    /// on bytes that are not valid UTF-8 the text shows at least one
    /// replacement character.
    pub fn parse_data_as_string(data: &[u8]) -> (r: Option<String>)
        ensures
            r matches Some(s) && NodeDataView::Text(s@) == spec_to_text(NodeDataView::Raw(data@))
                && (!valid_utf8(data@) ==> s@.contains('\u{FFFD}')),
    {
        Some(utf8_lossy(data))
    }

    /// Requests the structured representation: raw bytes or text are parsed
    /// as JSON; on parse failure the payload is handed back unchanged.
    pub fn convert_to_json(self) -> (r: Self)
        ensures
            r@ == spec_to_json(self@),
            json_wf(self@) ==> json_wf(r@),
    {
        match self {
            NodeData::Raw(bytes) => match json_canonical_raw(bytes.as_slice()) {
                Some(c) => NodeData::Json(c),
                None => NodeData::Raw(bytes),
            },
            NodeData::Text(s) => match json_canonical_text(s.as_str()) {
                Some(c) => NodeData::Json(c),
                None => NodeData::Text(s),
            },
            NodeData::Json(s) => NodeData::Json(s),
        }
    }

    /// Requests the textual representation; this always succeeds, and raw
    /// bytes that are not valid UTF-8 decode to text showing at least one
    /// replacement character.
    pub fn convert_to_string(self) -> (r: Self)
        ensures
            r@ == spec_to_text(self@),
            json_wf(r@),
            (match (self@, r@) {
                (NodeDataView::Raw(b), NodeDataView::Text(s)) => !valid_utf8(b) ==> s.contains(
                    '\u{FFFD}',
                ),
                _ => true,
            }),
    {
        match self {
            NodeData::Raw(bytes) => NodeData::Text(utf8_lossy(bytes.as_slice())),
            NodeData::Text(s) => NodeData::Text(s),
            NodeData::Json(s) => NodeData::Text(s),
        }
    }

    /// Requests the raw representation: text becomes its UTF-8 bytes, a
    /// structured value its serialised bytes.
    pub fn convert_to_raw(self) -> (r: Self)
        ensures
            r@ == spec_to_raw(self@),
            json_wf(r@),
    {
        match self {
            NodeData::Raw(bytes) => NodeData::Raw(bytes),
            NodeData::Text(s) => NodeData::Raw(s.as_str().as_bytes_vec()),
            NodeData::Json(s) => NodeData::Raw(s.as_str().as_bytes_vec()),
        }
    }

    /// The display form of the payload.
    pub fn display_string(&self) -> (r: String)
        ensures
            r@ == spec_render(self@),
    {
        match self {
            NodeData::Raw(bytes) => {
                let mut out = String::new();
                push_char(&mut out, '[');
                let listed = byte_list_string(bytes.as_slice(), true);
                let mut joined = out.concat(listed.as_str());
                push_char(&mut joined, ']');
                proof {
                    assert(joined@ =~= spec_debug_bytes(bytes@));
                }
                joined
            },
            NodeData::Text(s) => s.clone(),
            NodeData::Json(s) => s.clone(),
        }
    }
}

impl Default for NodeData {
    /// A fresh payload: empty raw bytes.
    fn default() -> (r: Self)
        ensures
            r@ == NodeDataView::Raw(Seq::<u8>::empty()),
    {
        NodeData::Raw(Vec::new())
    }
}

/// Law: converting raw bytes to text and back to raw is the identity on any
/// byte sequence that is valid UTF-8.
pub proof fn lemma_raw_text_round_trip(b: Seq<u8>)
    requires
        valid_utf8(b),
    ensures
        spec_to_raw(spec_to_text(NodeDataView::Raw(b))) == NodeDataView::Raw(b),
{
    decode_utf8_encode_utf8(b);
}

/// Law: converting a structured value to text and back to structured yields
/// the same value, for any structured payload, since a structured payload
/// always holds text that round-trips through the parser.
pub proof fn lemma_structured_text_round_trip(t: Seq<char>)
    requires
        json_canon(t) == Some(t),
    ensures
        spec_to_json(spec_to_text(NodeDataView::Json(t))) == NodeDataView::Json(t),
{
}

} // verus!
