//! Conversion of YAML value trees into CBOR value trees.
use vstd::prelude::*;

verus! {

/// A YAML number as the document model stores it.
#[derive(Clone, Copy, Debug, PartialEq, Eq, Structural)]
pub enum YamlNumber {
    /// A non-negative integer.
    PosInt(u64),
    /// A negative integer.
    NegInt(i64),
    /// A floating-point number, as the bit pattern of an IEEE 754 double.
    Float(u64),
}

/// A node of a YAML document.
#[derive(Debug, PartialEq)]
pub enum YamlValue {
    Null,
    Bool(bool),
    Number(YamlNumber),
    String(String),
    Sequence(Vec<YamlValue>),
    /// Entries in document order; keys are arbitrary values.
    Mapping(Vec<(YamlValue, YamlValue)>),
}

/// The mathematical content of a [`YamlValue`].
pub enum YamlTree {
    Null,
    Bool(bool),
    Number(YamlNumber),
    String(Seq<char>),
    Sequence(Seq<YamlTree>),
    Mapping(Seq<(YamlTree, YamlTree)>),
}

impl View for YamlValue {
    type V = YamlTree;

    open spec fn view(&self) -> YamlTree
        decreases self,
    {
        match self {
            YamlValue::Null => YamlTree::Null,
            YamlValue::Bool(b) => YamlTree::Bool(*b),
            YamlValue::Number(n) => YamlTree::Number(*n),
            YamlValue::String(s) => YamlTree::String(s@),
            YamlValue::Sequence(items) => YamlTree::Sequence(
                Seq::new(items@.len(), |i: int| if 0 <= i < items@.len() { items[i]@ } else { YamlTree::Null }),
            ),
            YamlValue::Mapping(entries) => YamlTree::Mapping(
                Seq::new(entries@.len(), |i: int| if 0 <= i < entries@.len() { (entries[i].0@, entries[i].1@) } else { (YamlTree::Null, YamlTree::Null) }),
            ),
        }
    }
}

/// A node of a CBOR value tree.
#[derive(Debug, PartialEq)]
pub enum CborValue {
    Null,
    Bool(bool),
    Integer(i128),
    /// A floating-point number, as the bit pattern of an IEEE 754 double.
    Float(u64),
    Bytes(Vec<u8>),
    Text(String),
    Array(Vec<CborValue>),
    /// Entries in the order they were produced; keys are arbitrary values.
    Mapping(Vec<(CborValue, CborValue)>),
}

/// The mathematical content of a [`CborValue`].
pub enum CborTree {
    Null,
    Bool(bool),
    Integer(int),
    Float(u64),
    Bytes(Seq<u8>),
    Text(Seq<char>),
    Array(Seq<CborTree>),
    Mapping(Seq<(CborTree, CborTree)>),
}

impl View for CborValue {
    type V = CborTree;

    open spec fn view(&self) -> CborTree
        decreases self,
    {
        match self {
            CborValue::Null => CborTree::Null,
            CborValue::Bool(b) => CborTree::Bool(*b),
            CborValue::Integer(n) => CborTree::Integer(*n as int),
            CborValue::Float(bits) => CborTree::Float(*bits),
            CborValue::Bytes(b) => CborTree::Bytes(b@),
            CborValue::Text(s) => CborTree::Text(s@),
            CborValue::Array(items) => CborTree::Array(
                Seq::new(items@.len(), |i: int| if 0 <= i < items@.len() { items[i]@ } else { CborTree::Null }),
            ),
            CborValue::Mapping(entries) => CborTree::Mapping(
                Seq::new(entries@.len(), |i: int| if 0 <= i < entries@.len() { (entries[i].0@, entries[i].1@) } else { (CborTree::Null, CborTree::Null) }),
            ),
        }
    }
}

/// Why a YAML tree has no CBOR counterpart.
#[derive(Clone, Copy, Debug, PartialEq, Eq, Structural)]
pub enum ConvertError {
    /// A number that is neither an integer of 64 bits nor a double. Every
    /// [`YamlNumber`] is one of those, so no conversion ends with this error.
    InvalidNumber,
}

/// The CBOR counterpart of a YAML number: an integer whenever the number is
/// one, a float otherwise.
pub open spec fn number_to_cbor(n: YamlNumber) -> CborTree {
    match n {
        YamlNumber::PosInt(u) => CborTree::Integer(u as int),
        YamlNumber::NegInt(i) => CborTree::Integer(i as int),
        YamlNumber::Float(bits) => CborTree::Float(bits),
    }
}

/// The CBOR counterpart of a YAML tree: the same shape, node for node, with
/// mapping keys converted like any other value.
pub open spec fn yaml_to_cbor_tree(y: YamlTree) -> CborTree
    decreases y,
{
    match y {
        YamlTree::Null => CborTree::Null,
        YamlTree::Bool(b) => CborTree::Bool(b),
        YamlTree::Number(n) => number_to_cbor(n),
        YamlTree::String(s) => CborTree::Text(s),
        YamlTree::Sequence(items) => CborTree::Array(
            Seq::new(items.len(), |i: int| if 0 <= i < items.len() { yaml_to_cbor_tree(items[i]) } else { CborTree::Null }),
        ),
        YamlTree::Mapping(entries) => CborTree::Mapping(
            Seq::new(entries.len(), |i: int| if 0 <= i < entries.len() { (yaml_to_cbor_tree(entries[i].0), yaml_to_cbor_tree(entries[i].1)) } else { (CborTree::Null, CborTree::Null) }),
        ),
    }
}

impl YamlNumber {
    /// The number as a `u64`, if it is a non-negative integer.
    pub fn as_u64(&self) -> (r: Option<u64>)
        ensures
            r == (match *self {
                YamlNumber::PosInt(u) => Some(u),
                _ => None::<u64>,
            }),
    {
        match self {
            YamlNumber::PosInt(u) => Some(*u),
            _ => None,
        }
    }

    /// The number as an `i64`, if it is an integer in its range.
    pub fn as_i64(&self) -> (r: Option<i64>)
        ensures
            r == (match *self {
                YamlNumber::PosInt(u) => if u <= i64::MAX { Some(u as i64) } else { None::<i64> },
                YamlNumber::NegInt(i) => Some(i),
                YamlNumber::Float(_) => None::<i64>,
            }),
    {
        match self {
            YamlNumber::PosInt(u) => if *u <= i64::MAX as u64 { Some(*u as i64) } else { None },
            YamlNumber::NegInt(i) => Some(*i),
            YamlNumber::Float(_) => None,
        }
    }

    /// The bit pattern of the number, if it is stored as a double.
    pub fn as_f64_bits(&self) -> (r: Option<u64>)
        ensures
            r == (match *self {
                YamlNumber::Float(bits) => Some(bits),
                _ => None::<u64>,
            }),
    {
        match self {
            YamlNumber::Float(bits) => Some(*bits),
            _ => None,
        }
    }
}

/// Converts a YAML number, trying an unsigned integer first, then a signed
/// one, then a double.
pub fn number_to_cbor_value(n: &YamlNumber) -> (r: Result<CborValue, ConvertError>)
    ensures
        r matches Ok(c) && c@ == number_to_cbor(*n),
{
    if let Some(u) = n.as_u64() {
        Ok(CborValue::Integer(u as i128))
    } else if let Some(i) = n.as_i64() {
        Ok(CborValue::Integer(i as i128))
    } else if let Some(bits) = n.as_f64_bits() {
        Ok(CborValue::Float(bits))
    } else {
        Err(ConvertError::InvalidNumber)
    }
}

/// What [`yaml_to_cbor`] promises of its result `r` for `val`: success, with
/// the CBOR counterpart of the YAML tree.
pub open spec fn converts_to(val: YamlValue, r: Result<CborValue, ConvertError>) -> bool {
    r matches Ok(c) && c@ == yaml_to_cbor_tree(val@)
}

/// Converts a YAML tree into the CBOR tree of the same shape. Sequence items
/// and mapping entries keep their order; of each entry the key is converted
/// before the value, and the first failure ends the conversion. Every tree
/// has a counterpart, so the result is always `Ok`.
#[verifier::loop_isolation(false)]
pub fn yaml_to_cbor(val: &YamlValue) -> (r: Result<CborValue, ConvertError>)
    ensures
        converts_to(*val, r),
    decreases val,
{
    proof {
        reveal_with_fuel(<YamlValue as View>::view, 2);
        reveal_with_fuel(<CborValue as View>::view, 2);
        reveal_with_fuel(yaml_to_cbor_tree, 2);
    }
    match val {
        YamlValue::Null => Ok(CborValue::Null),
        YamlValue::Bool(b) => Ok(CborValue::Bool(*b)),
        YamlValue::Number(n) => number_to_cbor_value(n),
        YamlValue::String(s) => Ok(CborValue::Text(s.clone())),
        YamlValue::Sequence(items) => {
            let mut out: Vec<CborValue> = Vec::new();
            let mut i: usize = 0;
            while i < items.len()
                invariant
                    i <= items.len(),
                    out@.len() == i,
                    forall|j: int| 0 <= j < i ==> (#[trigger] out@[j])@ == yaml_to_cbor_tree(items@[j]@),
                decreases items.len() - i,
            {
                proof {
                    vstd::std_specs::vec::axiom_vec_index_decreases(*items, i as int);
                }
                match yaml_to_cbor(&items[i]) {
                    Ok(c) => out.push(c),
                    Err(e) => return Err(e),
                }
                i += 1;
            }
            let r = CborValue::Array(out);
            proof {
                assert(r@->Array_0 =~= yaml_to_cbor_tree((*val)@)->Array_0);
            }
            Ok(r)
        },
        YamlValue::Mapping(entries) => {
            let mut out: Vec<(CborValue, CborValue)> = Vec::new();
            let mut i: usize = 0;
            while i < entries.len()
                invariant
                    i <= entries.len(),
                    out@.len() == i,
                    forall|j: int|
                        0 <= j < i ==> (#[trigger] out@[j]).0@ == yaml_to_cbor_tree(entries@[j].0@)
                            && out@[j].1@ == yaml_to_cbor_tree(entries@[j].1@),
                decreases entries.len() - i,
            {
                let entry = &entries[i];
                proof {
                    vstd::std_specs::vec::axiom_vec_index_decreases(*entries, i as int);
                }
                let key = match yaml_to_cbor(&entry.0) {
                    Ok(c) => c,
                    Err(e) => return Err(e),
                };
                let value = match yaml_to_cbor(&entry.1) {
                    Ok(c) => c,
                    Err(e) => return Err(e),
                };
                out.push((key, value));
                i += 1;
            }
            let r = CborValue::Mapping(out);
            proof {
                assert(r@->Mapping_0 =~= yaml_to_cbor_tree((*val)@)->Mapping_0);
            }
            Ok(r)
        },
    }
}

/// Converting the same tree twice gives structurally equal results.
pub proof fn lemma_conversion_deterministic(
    val: YamlValue,
    r1: Result<CborValue, ConvertError>,
    r2: Result<CborValue, ConvertError>,
)
    requires
        converts_to(val, r1),
        converts_to(val, r2),
    ensures
        r1 matches Ok(c1) && r2 matches Ok(c2) && c1@ == c2@,
{
}

/// A non-negative integer of 64 bits becomes the CBOR integer of the same
/// value, and a number held only as a double becomes the CBOR float with the
/// same bits.
pub proof fn lemma_number_tiers(n: YamlNumber)
    ensures
        n matches YamlNumber::PosInt(u) ==> yaml_to_cbor_tree(YamlTree::Number(n))
            == CborTree::Integer(u as int),
        n matches YamlNumber::Float(bits) ==> yaml_to_cbor_tree(YamlTree::Number(n))
            == CborTree::Float(bits),
{
}

} // verus!
