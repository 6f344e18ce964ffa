//! The value model of the bus type system, and the shapes of the messages
//! that travel over it.
//!
//! Every value the daemon publishes or accepts is a [`BusValue`]: a tagged
//! value mirroring the bus wire types.  A snapshot of the daemon's published
//! object tree is a vector of [`ObjectRecord`]s, and outgoing traffic is
//! described by [`MethodCall`] and [`PropSet`] requests that the transport
//! layer performs verbatim.

use vstd::prelude::*;
use crate::BlurzError;

verus! {

/// A typed value drawn from the bus type system.
///
/// Property dictionaries publish their values as plain typed values; the
/// transport unwraps the wire-level variant framing before handing a value
/// to this crate, and [`BusValue::Variant`] appears only where a dictionary
/// explicitly carries variant-typed entries (for example an options or
/// filter dictionary sent to the daemon).
#[derive(Debug, PartialEq)]
pub enum BusValue {
    Bool(bool),
    Byte(u8),
    U16(u16),
    I16(i16),
    U32(u32),
    I32(i32),
    U64(u64),
    Str(String),
    ObjectPath(String),
    Array(Vec<BusValue>),
    Dict(Vec<(BusValue, BusValue)>),
    Variant(Box<BusValue>),
}

impl BusValue {
    /// The string carried by a `Str` value.
    pub open spec fn str_value(self) -> Option<Seq<char>> {
        match self {
            BusValue::Str(s) => Some(s@),
            _ => None,
        }
    }

    /// The path carried by a value that names a remote object.  The daemon
    /// publishes parent references both as object paths and, in a few
    /// places, as plain strings; both spell a path.
    pub open spec fn path_value(self) -> Option<Seq<char>> {
        match self {
            BusValue::Str(s) => Some(s@),
            BusValue::ObjectPath(s) => Some(s@),
            _ => None,
        }
    }

    pub open spec fn bool_value(self) -> Option<bool> {
        match self {
            BusValue::Bool(b) => Some(b),
            _ => None,
        }
    }

    pub open spec fn u16_value(self) -> Option<u16> {
        match self {
            BusValue::U16(x) => Some(x),
            _ => None,
        }
    }

    pub open spec fn i16_value(self) -> Option<i16> {
        match self {
            BusValue::I16(x) => Some(x),
            _ => None,
        }
    }

    pub open spec fn u32_value(self) -> Option<u32> {
        match self {
            BusValue::U32(x) => Some(x),
            _ => None,
        }
    }

    /// The element views of an `Array` whose elements are all strings.
    pub open spec fn string_array_value(self) -> Option<Seq<Seq<char>>> {
        match self {
            BusValue::Array(items) => if forall|i: int|
                0 <= i < items@.len() ==> items@[i] is Str {
                Some(Seq::new(items@.len(), |i: int| match items@[i] {
                    BusValue::Str(s) => s@,
                    _ => Seq::empty(),
                }))
            } else {
                None
            },
            _ => None,
        }
    }

    /// The entries of a `Dict` keyed by unsigned 16-bit values, each entry
    /// carrying an array of bytes.
    pub open spec fn u16_bytes_dict_value(self) -> Option<Seq<(u16, Seq<u8>)>> {
        match self {
            BusValue::Dict(entries) => if forall|i: int|
                0 <= i < entries@.len() ==> (#[trigger] entries@[i].0 is U16
                    && entries@[i].1.byte_array_value() is Some) {
                Some(Seq::new(entries@.len(), |i: int| (match entries@[i].0 {
                    BusValue::U16(k) => k,
                    _ => 0u16,
                }, entries@[i].1.byte_array_value().unwrap())))
            } else {
                None
            },
            _ => None,
        }
    }

    /// The entries of a `Dict` keyed by strings, each entry carrying an
    /// array of bytes.
    pub open spec fn string_bytes_dict_value(self) -> Option<Seq<(Seq<char>, Seq<u8>)>> {
        match self {
            BusValue::Dict(entries) => if forall|i: int|
                0 <= i < entries@.len() ==> (#[trigger] entries@[i].0 is Str
                    && entries@[i].1.byte_array_value() is Some) {
                Some(Seq::new(entries@.len(), |i: int| (match entries@[i].0 {
                    BusValue::Str(k) => k@,
                    _ => Seq::empty(),
                }, entries@[i].1.byte_array_value().unwrap())))
            } else {
                None
            },
            _ => None,
        }
    }

    /// The bytes of an `Array` whose elements are all bytes.
    pub open spec fn byte_array_value(self) -> Option<Seq<u8>> {
        match self {
            BusValue::Array(items) => if forall|i: int|
                0 <= i < items@.len() ==> items@[i] is Byte {
                Some(Seq::new(items@.len(), |i: int| match items@[i] {
                    BusValue::Byte(b) => b,
                    _ => 0u8,
                }))
            } else {
                None
            },
            _ => None,
        }
    }
}

impl BusValue {
    /// Reads this value as a string, surfacing a bus error on any other tag.
    pub fn as_string(&self) -> (r: Result<String, BlurzError>)
        ensures
            match (*self).str_value() {
                Some(s) => r matches Ok(v) && v@ == s,
                None => r matches Err(e) && e is BusError,
            },
    {
        match self {
            BusValue::Str(s) => Ok(s.clone()),
            _ => Err(BlurzError::BusError("expected a string value".to_owned())),
        }
    }

    /// Reads this value as the path of a remote object; both object-path
    /// and string tags qualify.
    pub fn as_path_string(&self) -> (r: Result<String, BlurzError>)
        ensures
            match (*self).path_value() {
                Some(s) => r matches Ok(v) && v@ == s,
                None => r matches Err(e) && e is BusError,
            },
    {
        match self {
            BusValue::Str(s) => Ok(s.clone()),
            BusValue::ObjectPath(s) => Ok(s.clone()),
            _ => Err(BlurzError::BusError("expected an object path value".to_owned())),
        }
    }

    pub fn as_bool(&self) -> (r: Result<bool, BlurzError>)
        ensures
            match (*self).bool_value() {
                Some(b) => r == Ok::<bool, BlurzError>(b),
                None => r matches Err(e) && e is BusError,
            },
    {
        match self {
            BusValue::Bool(b) => Ok(*b),
            _ => Err(BlurzError::BusError("expected a boolean value".to_owned())),
        }
    }

    pub fn as_u16(&self) -> (r: Result<u16, BlurzError>)
        ensures
            match (*self).u16_value() {
                Some(x) => r == Ok::<u16, BlurzError>(x),
                None => r matches Err(e) && e is BusError,
            },
    {
        match self {
            BusValue::U16(x) => Ok(*x),
            _ => Err(BlurzError::BusError("expected an unsigned 16-bit value".to_owned())),
        }
    }

    pub fn as_i16(&self) -> (r: Result<i16, BlurzError>)
        ensures
            match (*self).i16_value() {
                Some(x) => r == Ok::<i16, BlurzError>(x),
                None => r matches Err(e) && e is BusError,
            },
    {
        match self {
            BusValue::I16(x) => Ok(*x),
            _ => Err(BlurzError::BusError("expected a signed 16-bit value".to_owned())),
        }
    }

    pub fn as_u32(&self) -> (r: Result<u32, BlurzError>)
        ensures
            match (*self).u32_value() {
                Some(x) => r == Ok::<u32, BlurzError>(x),
                None => r matches Err(e) && e is BusError,
            },
    {
        match self {
            BusValue::U32(x) => Ok(*x),
            _ => Err(BlurzError::BusError("expected an unsigned 32-bit value".to_owned())),
        }
    }

    /// Reads this value as an array of strings.
    pub fn as_string_list(&self) -> (r: Result<Vec<String>, BlurzError>)
        ensures
            match (*self).string_array_value() {
                Some(s) => r matches Ok(v) && v.deep_view() == s,
                None => r matches Err(e) && e is BusError,
            },
    {
        match self {
            BusValue::Array(items) => {
                let mut out: Vec<String> = Vec::new();
                let mut i: usize = 0;
                while i < items.len()
                    invariant
                        *self == BusValue::Array(*items),
                        i <= items.len(),
                        out@.len() == i,
                        forall|j: int| 0 <= j < i ==> items@[j] is Str,
                        forall|j: int| 0 <= j < i ==> out@[j]@ == (match items@[j] {
                            BusValue::Str(s) => s@,
                            _ => Seq::empty(),
                        }),
                    decreases items.len() - i,
                {
                    match &items[i] {
                        BusValue::Str(s) => { out.push(s.clone()); }
                        _ => {
                            assert(items@[i as int] !is Str);
                            return Err(BlurzError::BusError(
                                "expected an array of strings".to_owned(),
                            ));
                        }
                    }
                    i = i + 1;
                }
                assert(out.deep_view() =~= (*self).string_array_value().unwrap());
                Ok(out)
            }
            _ => Err(BlurzError::BusError("expected an array of strings".to_owned())),
        }
    }

    /// Reads this value as an array of bytes.
    pub fn as_byte_list(&self) -> (r: Result<Vec<u8>, BlurzError>)
        ensures
            match (*self).byte_array_value() {
                Some(s) => r matches Ok(v) && v@ == s,
                None => r matches Err(e) && e is BusError,
            },
    {
        match self {
            BusValue::Array(items) => {
                let mut out: Vec<u8> = Vec::new();
                let mut i: usize = 0;
                while i < items.len()
                    invariant
                        *self == BusValue::Array(*items),
                        i <= items.len(),
                        out@.len() == i,
                        forall|j: int| 0 <= j < i ==> items@[j] is Byte,
                        forall|j: int| 0 <= j < i ==> out@[j] == (match items@[j] {
                            BusValue::Byte(b) => b,
                            _ => 0u8,
                        }),
                    decreases items.len() - i,
                {
                    match &items[i] {
                        BusValue::Byte(b) => { out.push(*b); }
                        _ => {
                            assert(items@[i as int] !is Byte);
                            return Err(BlurzError::BusError(
                                "expected an array of bytes".to_owned(),
                            ));
                        }
                    }
                    i = i + 1;
                }
                assert(out@ =~= (*self).byte_array_value().unwrap());
                Ok(out)
            }
            _ => Err(BlurzError::BusError("expected an array of bytes".to_owned())),
        }
    }

    /// Reads this value as a dictionary from unsigned 16-bit keys to byte
    /// sequences.
    pub fn as_u16_bytes_dict(&self) -> (r: Result<Vec<(u16, Vec<u8>)>, BlurzError>)
        ensures
            match (*self).u16_bytes_dict_value() {
                Some(s) => r matches Ok(v) && v@.len() == s.len() && forall|i: int|
                    0 <= i < s.len() ==> (#[trigger] v@[i]).0 == s[i].0 && v@[i].1@ == s[i].1,
                None => r matches Err(e) && e is BusError,
            },
    {
        match self {
            BusValue::Dict(entries) => {
                let mut out: Vec<(u16, Vec<u8>)> = Vec::new();
                let mut i: usize = 0;
                while i < entries.len()
                    invariant
                        *self == BusValue::Dict(*entries),
                        i <= entries.len(),
                        out@.len() == i,
                        forall|j: int| 0 <= j < i ==> (#[trigger] entries@[j].0 is U16
                            && entries@[j].1.byte_array_value() is Some),
                        forall|j: int| 0 <= j < i ==> (match entries@[j].0 {
                            BusValue::U16(k) => (#[trigger] out@[j]).0 == k,
                            _ => false,
                        }) && out@[j].1@ == entries@[j].1.byte_array_value().unwrap(),
                    decreases entries.len() - i,
                {
                    let key: u16 = match &entries[i].0 {
                        BusValue::U16(k) => *k,
                        _ => {
                            assert(entries@[i as int].0 !is U16);
                            return Err(BlurzError::BusError(
                                "expected unsigned 16-bit dictionary keys".to_owned(),
                            ));
                        }
                    };
                    let bytes = match entries[i].1.as_byte_list() {
                        Ok(b) => b,
                        Err(_) => {
                            assert(entries@[i as int].1.byte_array_value() is None);
                            return Err(BlurzError::BusError(
                                "expected byte-array dictionary entries".to_owned(),
                            ));
                        }
                    };
                    out.push((key, bytes));
                    i = i + 1;
                }
                Ok(out)
            }
            _ => Err(BlurzError::BusError("expected a dictionary value".to_owned())),
        }
    }

    /// Reads this value as a dictionary from string keys to byte sequences.
    pub fn as_string_bytes_dict(&self) -> (r: Result<Vec<(String, Vec<u8>)>, BlurzError>)
        ensures
            match (*self).string_bytes_dict_value() {
                Some(s) => r matches Ok(v) && v@.len() == s.len() && forall|i: int|
                    0 <= i < s.len() ==> (#[trigger] v@[i]).0@ == s[i].0 && v@[i].1@ == s[i].1,
                None => r matches Err(e) && e is BusError,
            },
    {
        match self {
            BusValue::Dict(entries) => {
                let mut out: Vec<(String, Vec<u8>)> = Vec::new();
                let mut i: usize = 0;
                while i < entries.len()
                    invariant
                        *self == BusValue::Dict(*entries),
                        i <= entries.len(),
                        out@.len() == i,
                        forall|j: int| 0 <= j < i ==> (#[trigger] entries@[j].0 is Str
                            && entries@[j].1.byte_array_value() is Some),
                        forall|j: int| 0 <= j < i ==> (match entries@[j].0 {
                            BusValue::Str(k) => (#[trigger] out@[j]).0@ == k@,
                            _ => false,
                        }) && out@[j].1@ == entries@[j].1.byte_array_value().unwrap(),
                    decreases entries.len() - i,
                {
                    let key: String = match &entries[i].0 {
                        BusValue::Str(k) => k.clone(),
                        _ => {
                            assert(entries@[i as int].0 !is Str);
                            return Err(BlurzError::BusError(
                                "expected string dictionary keys".to_owned(),
                            ));
                        }
                    };
                    let bytes = match entries[i].1.as_byte_list() {
                        Ok(b) => b,
                        Err(_) => {
                            assert(entries@[i as int].1.byte_array_value() is None);
                            return Err(BlurzError::BusError(
                                "expected byte-array dictionary entries".to_owned(),
                            ));
                        }
                    };
                    out.push((key, bytes));
                    i = i + 1;
                }
                Ok(out)
            }
            _ => Err(BlurzError::BusError("expected a dictionary value".to_owned())),
        }
    }

    /// Packs a list of strings as an `Array` of string values.
    pub fn string_array(items: Vec<String>) -> (r: BusValue)
        ensures
            r.string_array_value() == Some(items.deep_view()),
    {
        let mut wrapped: Vec<BusValue> = Vec::new();
        let mut i: usize = 0;
        while i < items.len()
            invariant
                i <= items.len(),
                wrapped@.len() == i,
                forall|j: int| 0 <= j < i ==> wrapped@[j] is Str,
                forall|j: int| 0 <= j < i ==> (match wrapped@[j] {
                    BusValue::Str(s) => s@,
                    _ => Seq::empty(),
                }) == items@[j]@,
            decreases items.len() - i,
        {
            wrapped.push(BusValue::Str(items[i].clone()));
            i = i + 1;
        }
        let r = BusValue::Array(wrapped);
        assert(r.string_array_value() matches Some(v) && v =~= items.deep_view());
        r
    }

    /// Packs a list of bytes as an `Array` of byte values.
    pub fn byte_array(items: &Vec<u8>) -> (r: BusValue)
        ensures
            r.byte_array_value() == Some(items@),
    {
        let mut wrapped: Vec<BusValue> = Vec::new();
        let mut i: usize = 0;
        while i < items.len()
            invariant
                i <= items.len(),
                wrapped@.len() == i,
                forall|j: int| 0 <= j < i ==> wrapped@[j] is Byte,
                forall|j: int| 0 <= j < i ==> (match wrapped@[j] {
                    BusValue::Byte(b) => b,
                    _ => 0u8,
                }) == items@[j],
            decreases items.len() - i,
        {
            wrapped.push(BusValue::Byte(items[i]));
            i = i + 1;
        }
        let r = BusValue::Array(wrapped);
        assert(r.byte_array_value() matches Some(v) && v =~= items@);
        r
    }
}

/// Law: a boolean read out of a published value and written back is the
/// identical typed value.
pub proof fn lemma_bool_round_trip(v: BusValue, b: bool)
    requires
        v.bool_value() == Some(b),
    ensures
        BusValue::Bool(b) == v,
{
}

/// Law: an unsigned 16-bit value read out and written back is identical.
pub proof fn lemma_u16_round_trip(v: BusValue, x: u16)
    requires
        v.u16_value() == Some(x),
    ensures
        BusValue::U16(x) == v,
{
}

/// Law: a signed 16-bit value read out and written back is identical.
pub proof fn lemma_i16_round_trip(v: BusValue, x: i16)
    requires
        v.i16_value() == Some(x),
    ensures
        BusValue::I16(x) == v,
{
}

/// Law: an unsigned 32-bit value read out and written back is identical.
pub proof fn lemma_u32_round_trip(v: BusValue, x: u32)
    requires
        v.u32_value() == Some(x),
    ensures
        BusValue::U32(x) == v,
{
}

/// Law: a string read out of a published value and written back is observed
/// by the daemon with the same contents and the same type tag.
pub proof fn lemma_string_round_trip(v: BusValue, s: String)
    requires
        v.str_value() == Some(s@),
    ensures
        v is Str,
        (BusValue::Str(s)).str_value() == v.str_value(),
{
}

/// A single named property as published by the daemon.
#[derive(Debug, PartialEq)]
pub struct PropertyRecord {
    pub name: String,
    pub value: BusValue,
}

/// One interface of a published object, with its property dictionary.
#[derive(Debug, PartialEq)]
pub struct InterfaceRecord {
    pub name: String,
    pub properties: Vec<PropertyRecord>,
}

/// One object of the daemon's published object tree.
#[derive(Debug, PartialEq)]
pub struct ObjectRecord {
    pub object_path: String,
    pub interfaces: Vec<InterfaceRecord>,
}

/// A method invocation for the transport to perform: which service and
/// object to address, the interface and member to invoke, the arguments,
/// and the reply deadline in milliseconds.
#[derive(Debug, PartialEq)]
pub struct MethodCall {
    pub service: String,
    pub object_path: String,
    pub interface: String,
    pub member: String,
    pub args: Vec<BusValue>,
    pub timeout_ms: i32,
}

/// A property write for the transport to perform against the daemon.
#[derive(Debug, PartialEq)]
pub struct PropSet {
    pub interface: String,
    pub object_path: String,
    pub name: String,
    pub value: BusValue,
    pub timeout_ms: i32,
}

/// An incoming broadcast signal, as delivered by the transport: the path of
/// the emitting object, the interface and member of the signal, and its
/// decoded argument list.
#[derive(Debug, PartialEq)]
pub struct SignalMessage {
    pub object_path: String,
    pub interface: String,
    pub member: String,
    pub body: Vec<BusValue>,
}

/// A character allowed inside an element of an object path.
pub open spec fn is_path_elem_char(c: char) -> bool {
    ||| ('a' as u32) <= (c as u32) && (c as u32) <= ('z' as u32)
    ||| ('A' as u32) <= (c as u32) && (c as u32) <= ('Z' as u32)
    ||| ('0' as u32) <= (c as u32) && (c as u32) <= ('9' as u32)
    ||| c == '_'
}

/// The grammar of object paths: `/`, or `/`-separated non-empty elements of
/// letters, digits and underscores, with no trailing separator.
pub open spec fn is_valid_object_path(s: Seq<char>) -> bool {
    &&& s.len() >= 1
    &&& s[0] == '/'
    &&& forall|i: int| 1 <= i < s.len() ==> (is_path_elem_char(#[trigger] s[i]) || s[i] == '/')
    &&& forall|i: int|
        #![trigger s[i], s[i + 1]]
        0 <= i < s.len() - 1 ==> !(s[i] == '/' && s[i + 1] == '/')
    &&& (s.len() > 1 ==> s[s.len() - 1] != '/')
}

/// Decides whether a string is a well-formed object path.
pub fn check_object_path(s: &str) -> (r: bool)
    ensures
        r == is_valid_object_path(s@),
{
    let n = s.unicode_len();
    if n == 0 {
        return false;
    }
    if s.get_char(0) != '/' {
        return false;
    }
    if n > 1 && s.get_char(n - 1) == '/' {
        return false;
    }
    let mut i: usize = 1;
    while i < n
        invariant
            1 <= i <= n,
            n == s@.len(),
            s@[0] == '/',
            n > 1 ==> s@[n - 1] != '/',
            forall|j: int| 1 <= j < i ==> (is_path_elem_char(#[trigger] s@[j]) || s@[j] == '/'),
            forall|j: int|
                #![trigger s@[j], s@[j + 1]]
                0 <= j < i - 1 ==> !(s@[j] == '/' && s@[j + 1] == '/'),
        decreases n - i,
    {
        let c = s.get_char(i);
        let elem = (c as u32 >= 'a' as u32 && c as u32 <= 'z' as u32)
            || (c as u32 >= 'A' as u32 && c as u32 <= 'Z' as u32)
            || (c as u32 >= '0' as u32 && c as u32 <= '9' as u32) || c == '_';
        if !elem && c != '/' {
            assert(!(is_path_elem_char(s@[i as int]) || s@[i as int] == '/'));
            return false;
        }
        if c == '/' {
            let prev = s.get_char(i - 1);
            if prev == '/' {
                proof {
                    let j: int = i as int - 1;
                    assert(s@[j] == '/' && s@[j + 1] == '/');
                }
                return false;
            }
        }
        i = i + 1;
    }
    true
}

/// The byte payload of a reply whose first argument is an array of bytes.
pub open spec fn reply_byte_array(body: Seq<BusValue>) -> Option<Seq<u8>> {
    if body.len() >= 1 {
        body[0].byte_array_value()
    } else {
        None
    }
}

/// Reads a reply body whose first argument is an array of bytes, as the
/// daemon answers a value read.
pub fn decode_byte_array_reply(body: &Vec<BusValue>) -> (r: Result<Vec<u8>, BlurzError>)
    ensures
        match reply_byte_array(body@) {
            Some(s) => r matches Ok(v) && v@ == s,
            None => r matches Err(e) && e is BusError,
        },
{
    if body.len() == 0 {
        return Err(BlurzError::BusError("empty reply".to_owned()));
    }
    body[0].as_byte_list()
}

/// The path payload of a reply whose first argument is an object path.
pub open spec fn reply_object_path(body: Seq<BusValue>) -> Option<Seq<char>> {
    if body.len() >= 1 {
        match body[0] {
            BusValue::ObjectPath(p) => Some(p@),
            _ => None,
        }
    } else {
        None
    }
}

/// Reads a reply body whose first argument is the path of a remote object
/// that the daemon allocated.
pub fn decode_object_path_reply(body: &Vec<BusValue>) -> (r: Result<String, BlurzError>)
    ensures
        match reply_object_path(body@) {
            Some(s) => r matches Ok(v) && v@ == s,
            None => r matches Err(e) && e is BusError,
        },
{
    if body.len() == 0 {
        return Err(BlurzError::BusError("empty reply".to_owned()));
    }
    match &body[0] {
        BusValue::ObjectPath(p) => Ok(p.clone()),
        _ => Err(BlurzError::BusError("expected an object path reply".to_owned())),
    }
}

/// String comparison by contents.
pub fn str_eq(a: &str, b: &str) -> (r: bool)
    ensures
        r == (a@ == b@),
{
    let oa: String = a.to_owned();
    let ob: String = b.to_owned();
    oa == ob
}

} // verus!
