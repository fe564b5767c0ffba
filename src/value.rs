//! Dynamically typed values as the host language hands them over, and the
//! decoders that turn them into typed settings.
use vstd::prelude::*;

use crate::engine::{filters_in, insert_filter, insert_tag, new_filter_set, new_tag_set, tags_in};
use crate::options::{filters_from_engine, tags_from_engine};
use crate::types::{engine_filter, Deflater, Filter, Interlace, StripPolicy};

verus! {

/// A value handed over by the host language.
pub enum Value {
    /// The host's "nothing" value.
    Null,
    Bool(bool),
    Int(i64),
    /// A number of seconds, held as whole milliseconds.
    Millis(u64),
    Bytes(Vec<u8>),
    Text(String),
    List(Vec<Value>),
    Tuple(Vec<Value>),
    /// An unordered collection; accepted where a list is, but deprecated.
    Unordered(Vec<Value>),
    Filter(Filter),
    Interlace(Interlace),
    Strip(StripPolicy),
    Deflater(Deflater),
    /// Any value of a kind that no setting accepts.
    Other,
}

/// What a decoder expected to find.
#[derive(Clone, Copy, Debug, PartialEq, Eq, Structural)]
pub enum ValueKind {
    Bool,
    Seconds,
    Filter,
    Interlace,
    Strip,
    Deflater,
    Collection,
}

/// Why a value was refused.
#[derive(Debug)]
pub enum ValueError {
    /// The value is not of the expected kind.
    WrongType(ValueKind),
    /// A chunk name that is not exactly four bytes long.
    BadChunkName(Vec<u8>),
    /// A number of seconds that no duration holds.
    OutOfRange(i64),
    /// A zopfli iteration count of zero.
    ZeroIterations,
    /// A libdeflate level outside 1 to 12.
    CompressionOutOfRange(u8),
    /// A chunk name that is not a byte string; what was given instead.
    NotBytes(Given),
}

/// A refused value, as an error carries it: scalars and text in full,
/// collections and settings objects by their kind.
#[derive(Debug)]
pub enum Given {
    Null,
    Bool(bool),
    Int(i64),
    Millis(u64),
    Bytes(Vec<u8>),
    Text(String),
    List,
    Tuple,
    Unordered,
    Filter(Filter),
    Interlace(Interlace),
    Strip,
    Deflater(Deflater),
    Other,
}

/// Whether `g` describes the value `v`.
pub open spec fn describes(g: Given, v: Value) -> bool {
    match v {
        Value::Null => g is Null,
        Value::Bool(b) => g == Given::Bool(b),
        Value::Int(n) => g == Given::Int(n),
        Value::Millis(m) => g == Given::Millis(m),
        Value::Bytes(b) => g matches Given::Bytes(c) && c@ == b@,
        Value::Text(s) => g matches Given::Text(t) && t@ == s@,
        Value::List(_) => g is List,
        Value::Tuple(_) => g is Tuple,
        Value::Unordered(_) => g is Unordered,
        Value::Filter(f) => g == Given::Filter(f),
        Value::Interlace(i) => g == Given::Interlace(i),
        Value::Strip(_) => g is Strip,
        Value::Deflater(d) => g == Given::Deflater(d),
        Value::Other => g is Other,
    }
}

/// A description of `v` for an error message.
pub fn describe(v: &Value) -> (r: Given)
    ensures
        describes(r, *v),
{
    match v {
        Value::Null => Given::Null,
        Value::Bool(b) => Given::Bool(*b),
        Value::Int(n) => Given::Int(*n),
        Value::Millis(m) => Given::Millis(*m),
        Value::Bytes(b) => Given::Bytes(crate::options::copy_vec(b)),
        Value::Text(s) => Given::Text(s.clone()),
        Value::List(_) => Given::List,
        Value::Tuple(_) => Given::Tuple,
        Value::Unordered(_) => Given::Unordered,
        Value::Filter(f) => Given::Filter(*f),
        Value::Interlace(i) => Given::Interlace(*i),
        Value::Strip(_) => Given::Strip,
        Value::Deflater(d) => Given::Deflater(*d),
        Value::Other => Given::Other,
    }
}

/// Whether `v` is a list, a tuple or an unordered collection.
pub open spec fn is_collection(v: Value) -> bool {
    v is List || v is Tuple || v is Unordered
}

/// The items of a collection value.
pub open spec fn items_of(v: Value) -> Seq<Value> {
    match v {
        Value::List(l) => l@,
        Value::Tuple(l) => l@,
        Value::Unordered(l) => l@,
        _ => Seq::empty(),
    }
}

/// `s` without repeats, each element where it first occurs.
pub open spec fn dedup<T>(s: Seq<T>) -> Seq<T>
    decreases s.len(),
{
    if s.len() == 0 {
        Seq::empty()
    } else {
        let d = dedup(s.drop_last());
        if d.contains(s.last()) {
            d
        } else {
            d.push(s.last())
        }
    }
}

/// `Null` decodes to nothing; anything else is passed on.
pub fn py_option(val: &Value) -> (r: Option<&Value>)
    ensures
        *val is Null <==> r is None,
        r matches Some(v) ==> v == val,
{
    match val {
        Value::Null => None,
        _ => Some(val),
    }
}

/// A boolean setting.
pub fn py_bool(val: &Value) -> (r: Result<bool, ValueError>)
    ensures
        *val matches Value::Bool(b) ==> r == Ok::<bool, ValueError>(b),
        !(*val is Bool) ==> r matches Err(ValueError::WrongType(ValueKind::Bool)),
{
    match val {
        Value::Bool(b) => Ok(*b),
        _ => Err(ValueError::WrongType(ValueKind::Bool)),
    }
}

/// An optional interlacing mode: `Null` means "leave as it is".
pub fn py_option_extract(val: &Value) -> (r: Result<Option<Interlace>, ValueError>)
    ensures
        *val is Null ==> r == Ok::<Option<Interlace>, ValueError>(None),
        *val matches Value::Interlace(i) ==> r == Ok::<Option<Interlace>, ValueError>(Some(i)),
        !(*val is Null || *val is Interlace) ==> r matches Err(ValueError::WrongType(ValueKind::Interlace)),
{
    match py_option(val) {
        None => Ok(None),
        Some(Value::Interlace(i)) => Ok(Some(*i)),
        Some(_) => Err(ValueError::WrongType(ValueKind::Interlace)),
    }
}

/// The largest number of whole seconds that a timeout in milliseconds holds.
pub const MAX_TIMEOUT_SECONDS: i64 = 18446744073709551;

/// An optional timeout, in milliseconds: `Null` means no timeout, a whole
/// number is seconds.
pub fn py_duration(val: &Value) -> (r: Result<Option<u64>, ValueError>)
    ensures
        *val is Null ==> r == Ok::<Option<u64>, ValueError>(None),
        *val matches Value::Millis(m) ==> r == Ok::<Option<u64>, ValueError>(Some(m)),
        *val matches Value::Int(n) ==> (0 <= n <= MAX_TIMEOUT_SECONDS ==> r
            == Ok::<Option<u64>, ValueError>(Some((n * 1000) as u64))),
        *val matches Value::Int(n) ==> (!(0 <= n <= MAX_TIMEOUT_SECONDS) ==> (r matches Err(
            ValueError::OutOfRange(m),
        ) && m == n)),
        !(*val is Null || *val is Millis || *val is Int) ==> r matches Err(
            ValueError::WrongType(ValueKind::Seconds),
        ),
{
    match py_option(val) {
        None => Ok(None),
        Some(Value::Millis(m)) => Ok(Some(*m)),
        Some(Value::Int(n)) => {
            if 0 <= *n && *n <= MAX_TIMEOUT_SECONDS {
                Ok(Some((*n as u64) * 1000))
            } else {
                Err(ValueError::OutOfRange(*n))
            }
        },
        Some(_) => Err(ValueError::WrongType(ValueKind::Seconds)),
    }
}

/// The items of a list, tuple or unordered collection.
pub fn py_iter_extract(val: &Value) -> (r: Result<&Vec<Value>, ValueError>)
    ensures
        is_collection(*val) ==> (r matches Ok(items) && items@ == items_of(*val)),
        !is_collection(*val) ==> r matches Err(ValueError::WrongType(ValueKind::Collection)),
{
    match val {
        Value::List(items) => Ok(items),
        Value::Tuple(items) => Ok(items),
        Value::Unordered(items) => Ok(items),
        _ => Err(ValueError::WrongType(ValueKind::Collection)),
    }
}

/// Whether `v` is a collection of row filters.
pub open spec fn filters_ok(v: Value) -> bool {
    is_collection(v) && forall|i: int| 0 <= i < items_of(v).len() ==> (#[trigger] items_of(v)[i]) is Filter
}

/// The row filters in a collection, in order, repeats included.
pub open spec fn filter_items(v: Value) -> Seq<Filter> {
    items_of(v).map_values(|x: Value| x->Filter_0)
}

/// Whether `v` names one chunk: exactly four bytes.
pub open spec fn chunk_ok(v: Value) -> bool {
    v matches Value::Bytes(b) && b@.len() == 4
}

/// Whether `e` is the error that the chunk name `v` is refused with.
pub open spec fn chunk_error(v: Value, e: ValueError) -> bool {
    match v {
        Value::Bytes(b) => e matches ValueError::BadChunkName(c) && c@ == b@,
        _ => e matches ValueError::NotBytes(g) && describes(g, v),
    }
}

/// Whether `v` is a collection of chunk names.
pub open spec fn chunks_ok(v: Value) -> bool {
    is_collection(v) && forall|i: int| 0 <= i < items_of(v).len() ==> chunk_ok(#[trigger] items_of(v)[i])
}

/// The chunk names in a collection, in order, repeats included.
pub open spec fn chunk_items(v: Value) -> Seq<Seq<u8>> {
    items_of(v).map_values(|x: Value| x->Bytes_0@)
}

/// The views of a sequence of chunk names.
pub open spec fn tag_views(tags: Seq<[u8; 4]>) -> Seq<Seq<u8>> {
    tags.map_values(|t: [u8; 4]| t@)
}

/// Whether `e` is the error that a collection of chunk names `v` is
/// refused with: its first bad item decides.
pub open spec fn chunks_error(v: Value, e: ValueError) -> bool {
    if !is_collection(v) {
        e == ValueError::WrongType(ValueKind::Collection)
    } else {
        exists|i: int|
            #![trigger items_of(v)[i]]
            0 <= i < items_of(v).len() && !chunk_ok(items_of(v)[i]) && chunk_error(items_of(v)[i], e)
                && forall|j: int| 0 <= j < i ==> chunk_ok(#[trigger] items_of(v)[j])
    }
}

/// A set of row filters, kept in the order in which each first occurs; the
/// set is the engine's, so repeats go as the engine's sets drop them.
pub fn py_iter_extract_map(val: &Value) -> (r: Result<Vec<Filter>, ValueError>)
    ensures
        r is Ok <==> filters_ok(*val),
        r matches Ok(fs) ==> fs@ == dedup(filter_items(*val)) && fs@.no_duplicates(),
        !is_collection(*val) ==> r matches Err(ValueError::WrongType(ValueKind::Collection)),
        is_collection(*val) && !filters_ok(*val) ==> r matches Err(
            ValueError::WrongType(ValueKind::Filter),
        ),
{
    let items = py_iter_extract(val)?;
    let mut set = new_filter_set();
    let mut i: usize = 0;
    while i < items.len()
        invariant
            items@ == items_of(*val),
            is_collection(*val),
            i <= items@.len(),
            forall|j: int| 0 <= j < i ==> (#[trigger] items@[j]) is Filter,
            filters_in(set) == dedup(
                filter_items(*val).take(i as int).map_values(|f: Filter| engine_filter(f)),
            ),
        decreases items@.len() - i,
    {
        match &items[i] {
            Value::Filter(f) => {
                let ghost next = filter_items(*val).take(i + 1).map_values(|f: Filter| engine_filter(f));
                assert(next.drop_last() =~= filter_items(*val).take(i as int).map_values(
                    |f: Filter| engine_filter(f),
                ));
                assert(next.last() == engine_filter(*f));
                insert_filter(&mut set, f.to_engine());
            },
            _ => {
                return Err(ValueError::WrongType(ValueKind::Filter));
            },
        }
        i = i + 1;
    }
    let out = filters_from_engine(&set);
    proof {
        let fs = filter_items(*val);
        assert(fs.take(i as int) =~= fs);
        lemma_dedup_map(fs, |f: Filter| engine_filter(f));
        assert(out@ =~= dedup(fs));
        lemma_dedup_no_duplicates(fs);
    }
    Ok(out)
}

/// One chunk name: exactly four bytes.
pub fn py_str_to_chunk(val: &Value) -> (r: Result<[u8; 4], ValueError>)
    ensures
        r is Ok <==> chunk_ok(*val),
        r matches Ok(t) ==> t@ == val->Bytes_0@,
        r matches Err(e) ==> chunk_error(*val, e),
{
    match val {
        Value::Bytes(b) => {
            if b.len() == 4 {
                let t: [u8; 4] = [b[0], b[1], b[2], b[3]];
                assert(t@ =~= b@);
                Ok(t)
            } else {
                Err(ValueError::BadChunkName(b.clone()))
            }
        },
        _ => Err(ValueError::NotBytes(describe(val))),
    }
}

/// A set of chunk names, kept in the order in which each first occurs; the
/// set is the engine's, so repeats go as the engine's sets drop them.
pub fn py_iter_to_collection(val: &Value) -> (r: Result<Vec<[u8; 4]>, ValueError>)
    ensures
        r is Ok <==> chunks_ok(*val),
        r matches Ok(tags) ==> tag_views(tags@) == dedup(chunk_items(*val)) && tags@.no_duplicates(),
        r matches Err(e) ==> chunks_error(*val, e),
{
    let items = py_iter_extract(val)?;
    let mut set = new_tag_set();
    let ghost mut given: Seq<[u8; 4]> = Seq::empty();
    let mut i: usize = 0;
    while i < items.len()
        invariant
            items@ == items_of(*val),
            is_collection(*val),
            i <= items@.len(),
            forall|j: int| 0 <= j < i ==> chunk_ok(#[trigger] items@[j]),
            given.len() == i,
            tag_views(given) == chunk_items(*val).take(i as int),
            tags_in(set) == dedup(given),
        decreases items@.len() - i,
    {
        let t = match py_str_to_chunk(&items[i]) {
            Ok(t) => t,
            Err(e) => {
                assert(!chunk_ok(items_of(*val)[i as int]));
                return Err(e);
            },
        };
        proof {
            assert(given.push(t).drop_last() =~= given);
            assert(chunk_items(*val)[i as int] == t@);
            assert forall|j: int| 0 <= j < i implies tag_views(given.push(t))[j] == chunk_items(*val).take(i + 1)[j] by {
                assert(tag_views(given)[j] == chunk_items(*val).take(i as int)[j]);
            }
            assert(tag_views(given.push(t)) =~= chunk_items(*val).take(i + 1));
            given = given.push(t);
        }
        insert_tag(&mut set, t);
        i = i + 1;
    }
    let out = tags_from_engine(&set);
    proof {
        assert(chunk_items(*val).take(i as int) =~= chunk_items(*val));
        assert forall|a: [u8; 4], b: [u8; 4]| a@ == b@ implies a == b by {
            assert forall|k: int| 0 <= k < 4 implies a[k] == b[k] by {
                assert(a[k] == a@[k] && b[k] == b@[k]);
            }
            assert(a =~= b);
        }
        lemma_dedup_map(given, |t: [u8; 4]| t@);
        lemma_dedup_no_duplicates(given);
    }
    Ok(out)
}

/// `dedup` holds no element twice.
pub proof fn lemma_dedup_no_duplicates<T>(s: Seq<T>)
    ensures
        dedup(s).no_duplicates(),
    decreases s.len(),
{
    if s.len() > 0 {
        lemma_dedup_no_duplicates(s.drop_last());
    }
}

/// Dropping repeats commutes with a map that tells elements apart.
pub proof fn lemma_dedup_map<A, B>(s: Seq<A>, f: spec_fn(A) -> B)
    requires
        forall|x: A, y: A| #[trigger] f(x) == #[trigger] f(y) ==> x == y,
    ensures
        dedup(s.map_values(f)) == dedup(s).map_values(f),
    decreases s.len(),
{
    if s.len() > 0 {
        let t = s.drop_last();
        lemma_dedup_map(t, f);
        assert(s.map_values(f).drop_last() =~= t.map_values(f));
        let d = dedup(t);
        let x = s.last();
        if d.contains(x) {
            let k = choose|k: int| 0 <= k < d.len() && d[k] == x;
            assert(d.map_values(f)[k] == f(x));
        }
        if d.map_values(f).contains(f(x)) {
            let k = choose|k: int| 0 <= k < d.len() && d.map_values(f)[k] == f(x);
            assert(f(d[k]) == f(x));
        }
        assert(d.push(x).map_values(f) =~= d.map_values(f).push(f(x)));
    }
}

/// Whether any override hands over an unordered collection, which is
/// deprecated: the caller reports it once per resolution.
pub fn uses_unordered(overrides: &Vec<(String, Value)>) -> (r: bool)
    ensures
        r == exists|i: int| 0 <= i < overrides@.len() && (#[trigger] overrides@[i]).1 is Unordered,
{
    let mut i: usize = 0;
    while i < overrides.len()
        invariant
            i <= overrides@.len(),
            forall|j: int| 0 <= j < i ==> !((#[trigger] overrides@[j]).1 is Unordered),
        decreases overrides@.len() - i,
    {
        if let Value::Unordered(_) = &overrides[i].1 {
            return true;
        }
        i = i + 1;
    }
    false
}

} // verus!
