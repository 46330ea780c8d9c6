//! The grammar of script data: a name and a value, in AMF0 encoding.
//!
//! A value starts with a marker byte that tells its kind. Objects and ECMA
//! arrays hold pairs of a name and a value up to an end marker; strict arrays
//! hold a counted run of values. The parser checks the framing of the whole
//! graph and keeps the top level: of a value that holds other values it keeps
//! the kind alone, and of a top-level ECMA array its pairs.

use vstd::prelude::*;
use vstd::slice::slice_subrange;
use vstd::utf8::{decode_utf8, valid_utf8};
use vstd::string::StringSliceAdditionalSpecFns;
use crate::flv::parser::{be16, be32};
use crate::number::Number;
use crate::text::str_from_utf8;

verus! {

/// A value of script data. The kinds that hold other values (`Object`,
/// `ECMAArray`, `StrictArray`) are kept without their contents.
#[derive(Debug, Clone, PartialEq, Eq)]
pub enum ScriptDataValue {
    Number(Number),
    Boolean(bool),
    String(String),
    Object,
    MovieClip(String),
    Null,
    Undefined,
    Reference(u16),
    ECMAArray,
    StrictArray,
    Date { date_time: Number, local_date_time_offset: i16 },
    LongString(String),
}

/// A pair of a name and a value, as objects and ECMA arrays hold them.
#[derive(Debug, Clone, PartialEq, Eq)]
pub struct ScriptDataObject {
    pub name: String,
    pub data: ScriptDataValue,
}

/// The payload of a script tag.
#[derive(Debug, Clone, PartialEq, Eq)]
pub struct ScriptData {
    pub name: String,
    /// The value that follows the name.
    pub arguments: ScriptDataValue,
    /// The pairs of `arguments` where that is an ECMA array; else empty.
    pub properties: Vec<ScriptDataObject>,
}

/// What a [`ScriptDataValue`] stands for.
pub enum ScriptDataValueView {
    Number(Number),
    Boolean(bool),
    String(Seq<char>),
    Object,
    MovieClip(Seq<char>),
    Null,
    Undefined,
    Reference(u16),
    ECMAArray,
    StrictArray,
    Date { date_time: Number, local_date_time_offset: i16 },
    LongString(Seq<char>),
}

/// What a [`ScriptDataObject`] stands for.
pub struct ScriptDataObjectView {
    pub name: Seq<char>,
    pub data: ScriptDataValueView,
}

/// What a [`ScriptData`] stands for.
pub struct ScriptDataView {
    pub name: Seq<char>,
    pub arguments: ScriptDataValueView,
    pub properties: Seq<ScriptDataObjectView>,
}

impl View for ScriptDataValue {
    type V = ScriptDataValueView;

    open spec fn view(&self) -> ScriptDataValueView {
        match *self {
            ScriptDataValue::Number(n) => ScriptDataValueView::Number(n),
            ScriptDataValue::Boolean(v) => ScriptDataValueView::Boolean(v),
            ScriptDataValue::String(s) => ScriptDataValueView::String(s@),
            ScriptDataValue::Object => ScriptDataValueView::Object,
            ScriptDataValue::MovieClip(s) => ScriptDataValueView::MovieClip(s@),
            ScriptDataValue::Null => ScriptDataValueView::Null,
            ScriptDataValue::Undefined => ScriptDataValueView::Undefined,
            ScriptDataValue::Reference(r) => ScriptDataValueView::Reference(r),
            ScriptDataValue::ECMAArray => ScriptDataValueView::ECMAArray,
            ScriptDataValue::StrictArray => ScriptDataValueView::StrictArray,
            ScriptDataValue::Date { date_time, local_date_time_offset } => ScriptDataValueView::Date {
                date_time,
                local_date_time_offset,
            },
            ScriptDataValue::LongString(s) => ScriptDataValueView::LongString(s@),
        }
    }
}

impl View for ScriptDataObject {
    type V = ScriptDataObjectView;

    open spec fn view(&self) -> ScriptDataObjectView {
        ScriptDataObjectView { name: self.name@, data: self.data@ }
    }
}

/// The views of the pairs in `v`, in order.
pub open spec fn objects_view(v: Seq<ScriptDataObject>) -> Seq<ScriptDataObjectView> {
    Seq::new(v.len(), |i: int| v[i]@)
}

impl View for ScriptData {
    type V = ScriptDataView;

    open spec fn view(&self) -> ScriptDataView {
        ScriptDataView {
            name: self.name@,
            arguments: self.arguments@,
            properties: objects_view(self.properties@),
        }
    }
}

/// The big-endian number in the eight bytes at `i`.
pub open spec fn be64(b: Seq<u8>, i: int) -> int {
    be32(b, i) * 0x1_0000_0000 + be32(b, i + 4)
}

/// A 16-bit number read as a signed one.
pub open spec fn signed16(v: int) -> int {
    if v >= 0x8000 {
        v - 0x1_0000
    } else {
        v
    }
}

/// The position after the `n` bytes at `i`, if `b` holds them.
pub open spec fn fits(b: Seq<u8>, i: int, n: int) -> Option<int> {
    if 0 <= i && 0 <= n && i + n <= b.len() {
        Some(i + n)
    } else {
        None
    }
}

/// The position after the string at `i`: a 16-bit length and as many bytes,
/// which must be valid UTF-8.
pub open spec fn string_end(b: Seq<u8>, i: int) -> Option<int> {
    if 0 <= i && i + 2 <= b.len() && i + 2 + be16(b, i) <= b.len() && valid_utf8(
        b.subrange(i + 2, i + 2 + be16(b, i)),
    ) {
        Some(i + 2 + be16(b, i))
    } else {
        None
    }
}

/// The text of the string at `i`.
pub open spec fn string_at(b: Seq<u8>, i: int) -> Seq<char> {
    decode_utf8(b.subrange(i + 2, i + 2 + be16(b, i)))
}

/// The position after the long string at `i`: a 32-bit length and as many
/// bytes, which must be valid UTF-8.
pub open spec fn long_string_end(b: Seq<u8>, i: int) -> Option<int> {
    if 0 <= i && i + 4 <= b.len() && i + 4 + be32(b, i) <= b.len() && valid_utf8(
        b.subrange(i + 4, i + 4 + be32(b, i)),
    ) {
        Some(i + 4 + be32(b, i))
    } else {
        None
    }
}

/// The text of the long string at `i`.
pub open spec fn long_string_at(b: Seq<u8>, i: int) -> Seq<char> {
    decode_utf8(b.subrange(i + 4, i + 4 + be32(b, i)))
}

/// Whether the end marker of a pair list stands at `i`.
pub open spec fn end_marker_at(b: Seq<u8>, i: int) -> bool {
    0 <= i && i + 3 <= b.len() && b[i] == 0 && b[i + 1] == 0 && b[i + 2] == 9
}

/// The position after the value at `i`, if a well-formed value stands there.
pub open spec fn value_end(b: Seq<u8>, i: int) -> Option<int>
    decreases b.len() - i, 0int, 0int,
{
    if i < 0 || i >= b.len() {
        None
    } else if b[i] == 0 {
        fits(b, i + 1, 8)
    } else if b[i] == 1 {
        fits(b, i + 1, 1)
    } else if b[i] == 2 || b[i] == 4 {
        string_end(b, i + 1)
    } else if b[i] == 3 {
        objects_end(b, i + 1)
    } else if b[i] == 5 || b[i] == 6 {
        Some(i + 1)
    } else if b[i] == 7 {
        fits(b, i + 1, 2)
    } else if b[i] == 8 {
        if i + 5 <= b.len() {
            objects_end(b, i + 5)
        } else {
            None
        }
    } else if b[i] == 10 {
        if i + 5 <= b.len() {
            array_end(b, i + 5, be32(b, i + 1))
        } else {
            None
        }
    } else if b[i] == 11 {
        fits(b, i + 1, 10)
    } else if b[i] == 12 {
        long_string_end(b, i + 1)
    } else {
        None
    }
}

/// The position after the pair at `i`: a string, then a value.
pub open spec fn pair_end(b: Seq<u8>, i: int) -> Option<int>
    decreases b.len() - i, 1int, 0int,
{
    match string_end(b, i) {
        Some(s) => if i < s <= b.len() {
            value_end(b, s)
        } else {
            None
        },
        None => None,
    }
}

/// The position after the pair list at `i`: pairs for as long as a pair can be
/// read, then the end marker.
pub open spec fn objects_end(b: Seq<u8>, i: int) -> Option<int>
    decreases b.len() - i, 2int, 0int,
{
    match pair_end(b, i) {
        Some(e) => if i < e <= b.len() {
            objects_end(b, e)
        } else {
            None
        },
        None => if end_marker_at(b, i) {
            Some(i + 3)
        } else {
            None
        },
    }
}

/// The position after `count` values in a row from `i`.
pub open spec fn array_end(b: Seq<u8>, i: int, count: int) -> Option<int>
    decreases b.len() - i, 2int, count,
{
    if count <= 0 {
        Some(i)
    } else {
        match value_end(b, i) {
            Some(e) => if i < e <= b.len() {
                array_end(b, e, count - 1)
            } else {
                None
            },
            None => None,
        }
    }
}

/// The value at `i`, where a well-formed value stands there.
pub open spec fn value_at(b: Seq<u8>, i: int) -> ScriptDataValueView {
    if b[i] == 0 {
        ScriptDataValueView::Number(Number { bits: be64(b, i + 1) as u64 })
    } else if b[i] == 1 {
        ScriptDataValueView::Boolean(b[i + 1] != 0)
    } else if b[i] == 2 {
        ScriptDataValueView::String(string_at(b, i + 1))
    } else if b[i] == 3 {
        ScriptDataValueView::Object
    } else if b[i] == 4 {
        ScriptDataValueView::MovieClip(string_at(b, i + 1))
    } else if b[i] == 5 {
        ScriptDataValueView::Null
    } else if b[i] == 6 {
        ScriptDataValueView::Undefined
    } else if b[i] == 7 {
        ScriptDataValueView::Reference(be16(b, i + 1) as u16)
    } else if b[i] == 8 {
        ScriptDataValueView::ECMAArray
    } else if b[i] == 10 {
        ScriptDataValueView::StrictArray
    } else if b[i] == 11 {
        ScriptDataValueView::Date {
            date_time: Number { bits: be64(b, i + 1) as u64 },
            local_date_time_offset: signed16(be16(b, i + 9)) as i16,
        }
    } else {
        ScriptDataValueView::LongString(long_string_at(b, i + 1))
    }
}

/// The pairs that can be read in a row from `i`.
pub open spec fn pairs_at(b: Seq<u8>, i: int) -> Seq<ScriptDataObjectView>
    decreases b.len() - i,
{
    match pair_end(b, i) {
        Some(e) => if i < e <= b.len() {
            seq![
                ScriptDataObjectView {
                    name: string_at(b, i),
                    data: value_at(b, i + 2 + be16(b, i)),
                },
            ] + pairs_at(b, e)
        } else {
            Seq::empty()
        },
        None => Seq::empty(),
    }
}

/// The script data that `b` starts with, and its length in bytes.
///
/// The payload is the marker of a string, the name as a string, and one value.
pub open spec fn spec_parse_script_data(b: Seq<u8>) -> Option<(ScriptDataView, usize)> {
    if b.len() >= 1 && b[0] == 2 {
        match string_end(b, 1) {
            Some(s) => match value_end(b, s) {
                Some(e) => Some(
                    (
                        ScriptDataView {
                            name: string_at(b, 1),
                            arguments: value_at(b, s),
                            properties: if b[s] == 8 {
                                pairs_at(b, s + 5)
                            } else {
                                Seq::empty()
                            },
                        },
                        e as usize,
                    ),
                ),
                None => None,
            },
            None => None,
        }
    } else {
        None
    }
}

/// Reads the big-endian number in the two bytes at `i`.
pub fn read_be16(b: &[u8], i: usize) -> (v: u16)
    requires
        i + 2 <= b@.len(),
    ensures
        v == be16(b@, i as int),
{
    let b0: u16 = b[i] as u16;
    let b1: u16 = b[i + 1] as u16;
    b0 * 0x100 + b1
}

/// Reads the big-endian number in the eight bytes at `i`.
pub fn read_be64(b: &[u8], i: usize) -> (v: u64)
    requires
        i + 8 <= b@.len(),
    ensures
        v == be64(b@, i as int),
{
    let _len: usize = b.len();
    let high: u64 = crate::flv::parser::read_be32(b, i) as u64;
    let low: u64 = crate::flv::parser::read_be32(b, i + 4) as u64;
    high * 0x1_0000_0000 + low
}

/// Reads the string at `i` and gives it back with the position after it.
fn read_string(b: &[u8], i: usize) -> (r: Option<(String, usize)>)
    ensures
        match r {
            Some((s, e)) => string_end(b@, i as int) == Some(e as int) && s@ == string_at(
                b@,
                i as int,
            ),
            None => string_end(b@, i as int) is None,
        },
{
    if i > b.len() || b.len() - i < 2 {
        return None;
    }
    let len: usize = read_be16(b, i) as usize;
    if b.len() - i - 2 < len {
        return None;
    }
    let raw: &[u8] = slice_subrange(b, i + 2, i + 2 + len);
    match str_from_utf8(raw) {
        Some(text) => {
            proof {
                vstd::utf8::encode_utf8_decode_utf8(text@);
            }
            Some((text.to_owned(), i + 2 + len))
        },
        None => None,
    }
}

/// Reads the long string at `i` and gives it back with the position after it.
fn read_long_string(b: &[u8], i: usize) -> (r: Option<(String, usize)>)
    ensures
        match r {
            Some((s, e)) => long_string_end(b@, i as int) == Some(e as int) && s@
                == long_string_at(b@, i as int),
            None => long_string_end(b@, i as int) is None,
        },
{
    if i > b.len() || b.len() - i < 4 {
        return None;
    }
    let len32: u32 = crate::flv::parser::read_be32(b, i);
    let room: u64 = (b.len() - i - 4) as u64;
    if room < (len32 as u64) {
        return None;
    }
    let len: usize = len32 as usize;
    let raw: &[u8] = slice_subrange(b, i + 4, i + 4 + len);
    match str_from_utf8(raw) {
        Some(text) => {
            proof {
                vstd::utf8::encode_utf8_decode_utf8(text@);
            }
            Some((text.to_owned(), i + 4 + len))
        },
        None => None,
    }
}

/// The position after the `n` bytes at `i`, if `b` holds them.
fn take(b: &[u8], i: usize, n: usize) -> (r: Option<usize>)
    ensures
        r is Some <==> fits(b@, i as int, n as int) is Some,
        r matches Some(e) ==> fits(b@, i as int, n as int) == Some(e as int),
{
    if i <= b.len() && b.len() - i >= n {
        Some(i + n)
    } else {
        None
    }
}

/// Whether the end marker of a pair list stands at `i`.
fn is_end_marker(b: &[u8], i: usize) -> (r: bool)
    ensures
        r == end_marker_at(b@, i as int),
{
    i <= b.len() && b.len() - i >= 3 && b[i] == 0 && b[i + 1] == 0 && b[i + 2] == 9
}

/// Steps over the value at `i`.
fn skip_value(b: &[u8], i: usize) -> (r: Option<usize>)
    ensures
        r is Some <==> value_end(b@, i as int) is Some,
        r matches Some(e) ==> value_end(b@, i as int) == Some(e as int) && i < e <= b@.len(),
    decreases b@.len() - i, 0int, 0int,
{
    if i >= b.len() {
        return None;
    }
    let marker: u8 = b[i];
    match marker {
        0 => take(b, i + 1, 8),
        1 => take(b, i + 1, 1),
        2 | 4 => match read_string(b, i + 1) {
            Some((_, e)) => Some(e),
            None => None,
        },
        3 => skip_objects(b, i + 1),
        5 | 6 => Some(i + 1),
        7 => take(b, i + 1, 2),
        8 => if b.len() - i >= 5 {
            skip_objects(b, i + 5)
        } else {
            None
        },
        10 => if b.len() - i >= 5 {
            let count: u32 = crate::flv::parser::read_be32(b, i + 1);
            skip_array(b, i + 5, count)
        } else {
            None
        },
        11 => take(b, i + 1, 10),
        12 => match read_long_string(b, i + 1) {
            Some((_, e)) => Some(e),
            None => None,
        },
        _ => None,
    }
}

/// Steps over the pair at `i`.
fn skip_pair(b: &[u8], i: usize) -> (r: Option<usize>)
    ensures
        r is Some <==> pair_end(b@, i as int) is Some,
        r matches Some(e) ==> pair_end(b@, i as int) == Some(e as int) && i < e <= b@.len(),
    decreases b@.len() - i, 1int, 0int,
{
    match read_string(b, i) {
        Some((_, s)) => skip_value(b, s),
        None => None,
    }
}

/// Steps over the pair list at `i`, end marker included.
fn skip_objects(b: &[u8], i: usize) -> (r: Option<usize>)
    requires
        i <= b@.len(),
    ensures
        r is Some <==> objects_end(b@, i as int) is Some,
        r matches Some(e) ==> objects_end(b@, i as int) == Some(e as int) && i < e <= b@.len(),
    decreases b@.len() - i, 2int, 0int,
{
    let len: usize = b.len();
    let mut pos: usize = i;
    loop
        invariant
            i <= pos <= b@.len(),
            len == b@.len(),
            objects_end(b@, pos as int) == objects_end(b@, i as int),
        decreases b@.len() - pos,
    {
        match skip_pair(b, pos) {
            Some(e) => {
                pos = e;
            },
            None => {
                return if is_end_marker(b, pos) {
                    Some(pos + 3)
                } else {
                    None
                };
            },
        }
    }
}

/// Steps over `count` values in a row from `i`.
fn skip_array(b: &[u8], i: usize, count: u32) -> (r: Option<usize>)
    requires
        i <= b@.len(),
    ensures
        r is Some <==> array_end(b@, i as int, count as int) is Some,
        r matches Some(e) ==> array_end(b@, i as int, count as int) == Some(e as int) && i <= e
            <= b@.len(),
    decreases b@.len() - i, 2int, count,
{
    let mut pos: usize = i;
    let mut left: u32 = count;
    while left > 0
        invariant
            i <= pos <= b@.len(),
            array_end(b@, pos as int, left as int) == array_end(b@, i as int, count as int),
        decreases left,
    {
        match skip_value(b, pos) {
            Some(e) => {
                pos = e;
                left = left - 1;
            },
            None => {
                return None;
            },
        }
    }
    Some(pos)
}

/// Reads the value at `i`, without the contents of a value that holds others.
fn read_value(b: &[u8], i: usize) -> (r: Option<(ScriptDataValue, usize)>)
    ensures
        r is Some <==> value_end(b@, i as int) is Some,
        r matches Some((v, e)) ==> value_end(b@, i as int) == Some(e as int) && v@ == value_at(
            b@,
            i as int,
        ) && i < e <= b@.len(),
{
    if i >= b.len() {
        return None;
    }
    let marker: u8 = b[i];
    match marker {
        0 => match take(b, i + 1, 8) {
            Some(e) => Some((ScriptDataValue::Number(Number { bits: read_be64(b, i + 1) }), e)),
            None => None,
        },
        1 => match take(b, i + 1, 1) {
            Some(e) => Some((ScriptDataValue::Boolean(b[i + 1] != 0), e)),
            None => None,
        },
        2 => match read_string(b, i + 1) {
            Some((s, e)) => Some((ScriptDataValue::String(s), e)),
            None => None,
        },
        3 => match skip_objects(b, i + 1) {
            Some(e) => Some((ScriptDataValue::Object, e)),
            None => None,
        },
        4 => match read_string(b, i + 1) {
            Some((s, e)) => Some((ScriptDataValue::MovieClip(s), e)),
            None => None,
        },
        5 => Some((ScriptDataValue::Null, i + 1)),
        6 => Some((ScriptDataValue::Undefined, i + 1)),
        7 => match take(b, i + 1, 2) {
            Some(e) => Some((ScriptDataValue::Reference(read_be16(b, i + 1)), e)),
            None => None,
        },
        8 | 10 => match skip_value(b, i) {
            Some(e) => Some(
                (
                    if marker == 8 {
                        ScriptDataValue::ECMAArray
                    } else {
                        ScriptDataValue::StrictArray
                    },
                    e,
                ),
            ),
            None => None,
        },
        11 => match take(b, i + 1, 10) {
            Some(e) => {
                let raw: u16 = read_be16(b, i + 9);
                let offset: i16 = if raw >= 0x8000 {
                    ((raw - 0x8000) as i16) + i16::MIN
                } else {
                    raw as i16
                };
                Some(
                    (
                        ScriptDataValue::Date {
                            date_time: Number { bits: read_be64(b, i + 1) },
                            local_date_time_offset: offset,
                        },
                        e,
                    ),
                )
            },
            None => None,
        },
        12 => match read_long_string(b, i + 1) {
            Some((s, e)) => Some((ScriptDataValue::LongString(s), e)),
            None => None,
        },
        _ => None,
    }
}

/// Reads the pairs that stand in a row from `i`.
fn read_pairs(b: &[u8], i: usize) -> (pairs: Vec<ScriptDataObject>)
    ensures
        objects_view(pairs@) == pairs_at(b@, i as int),
{
    let mut pairs: Vec<ScriptDataObject> = Vec::new();
    let mut pos: usize = i;
    loop
        invariant
            objects_view(pairs@) + pairs_at(b@, pos as int) == pairs_at(b@, i as int),
        decreases b@.len() - pos,
    {
        let ghost before: Seq<ScriptDataObjectView> = objects_view(pairs@);
        match read_string(b, pos) {
            Some((name, s)) => match read_value(b, s) {
                Some((data, e)) => {
                    let ghost head: ScriptDataObjectView = ScriptDataObjectView {
                        name: name@,
                        data: data@,
                    };
                    pairs.push(ScriptDataObject { name, data });
                    proof {
                        assert(objects_view(pairs@) =~= before.push(head));
                        assert(pairs_at(b@, pos as int) == seq![head] + pairs_at(b@, e as int));
                        assert(before.push(head) + pairs_at(b@, e as int) =~= before + (seq![head]
                            + pairs_at(b@, e as int)));
                    }
                    pos = e;
                },
                None => {
                    assert(pairs_at(b@, pos as int) == Seq::<ScriptDataObjectView>::empty());
                    assert(before + Seq::<ScriptDataObjectView>::empty() =~= before);
                    return pairs;
                },
            },
            None => {
                assert(pairs_at(b@, pos as int) == Seq::<ScriptDataObjectView>::empty());
                assert(before + Seq::<ScriptDataObjectView>::empty() =~= before);
                return pairs;
            },
        }
    }
}

/// Decodes the script data at the start of `bytes`: the record and the number
/// of bytes it took, or `None` where the bytes are no well-formed script data.
pub fn parse_script_data(bytes: &[u8]) -> (r: Option<(ScriptData, usize)>)
    ensures
        r is Some <==> spec_parse_script_data(bytes@) is Some,
        r matches Some((data, n)) ==> spec_parse_script_data(bytes@) == Some((data@, n)),
{
    if bytes.len() < 1 || bytes[0] != 2 {
        return None;
    }
    match read_string(bytes, 1) {
        Some((name, s)) => match read_value(bytes, s) {
            Some((arguments, e)) => {
                let properties: Vec<ScriptDataObject> = if bytes[s] == 8 {
                    read_pairs(bytes, s + 5)
                } else {
                    Vec::new()
                };
                let data: ScriptData = ScriptData { name, arguments, properties };
                assert(data@.properties =~= spec_parse_script_data(bytes@).unwrap().0.properties);
                Some((data, e))
            },
            None => None,
        },
        None => None,
    }
}

} // verus!
