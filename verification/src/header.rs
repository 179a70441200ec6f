//! Header sections of MRCP messages and C strings, seen as plain values.
//!
//! A message's header section is given by its presence flags: entry `i` tells
//! whether the field with identifier `i` is set in the message.

use vstd::prelude::*;
use crate::protocol::GENERIC_HEADER_COUNT;

verus! {

/// Field `id` is set in a header section with presence flags `fields`.
pub open spec fn field_present(fields: Seq<bool>, id: int) -> bool {
    0 <= id < fields.len() && fields[id]
}

/// Whether field `id` is set: false for an identifier past the end of the
/// section.
pub fn header_field_present(fields: &[bool], id: usize) -> (present: bool)
    ensures
        present == field_present(fields@, id as int),
{
    if id < fields.len() {
        fields[id]
    } else {
        false
    }
}

/// Whether the generic header field `id` is set in a message.
pub fn generic_property_present(fields: &[bool], id: usize) -> (present: bool)
    ensures
        present == field_present(fields@, id as int),
{
    header_field_present(fields, id)
}

/// Whether the resource header field `id` is set in a message: resource
/// fields follow the generic ones in the header section.
pub fn resource_property_present(fields: &[bool], id: usize) -> (present: bool)
    requires
        id + GENERIC_HEADER_COUNT <= usize::MAX,
    ensures
        present == field_present(fields@, id + GENERIC_HEADER_COUNT),
{
    header_field_present(fields, id + GENERIC_HEADER_COUNT)
}

/// Where the data of a message header comes from when it is prepared.
pub enum HeaderSource {
    /// The header was already allocated: use it.
    Existing,
    /// Allocate it with the accessor's allocator.
    Allocate,
    /// No allocator is available: there is no header.
    Unavailable,
}

/// How a header accessor yields its header. `has_data` tells whether the
/// header is allocated; `allocator` is `None` when the accessor has no
/// method table, else whether that table has an allocator.
pub fn header_source(has_data: bool, allocator: Option<bool>) -> (source: HeaderSource)
    ensures
        has_data ==> source is Existing,
        !has_data && allocator == Some(true) ==> source is Allocate,
        !has_data && allocator != Some(true) ==> source is Unavailable,
{
    if has_data {
        HeaderSource::Existing
    } else {
        match allocator {
            Some(true) => HeaderSource::Allocate,
            _ => HeaderSource::Unavailable,
        }
    }
}

/// `s` holds a NUL byte.
pub open spec fn has_nul(s: Seq<u8>) -> bool {
    exists|i: int| 0 <= i < s.len() && s[i] == 0
}

/// `n` is the length of the C string that starts `s`: the index of its
/// first NUL byte.
pub open spec fn is_c_str_len(s: Seq<u8>, n: int) -> bool {
    &&& 0 <= n < s.len()
    &&& s[n] == 0
    &&& forall|i: int| 0 <= i < n ==> s[i] != 0
}

/// Length of the NUL-terminated string at the start of `s`.
pub fn c_str_len(s: &[u8]) -> (n: usize)
    requires
        has_nul(s@),
    ensures
        is_c_str_len(s@, n as int),
{
    let mut n: usize = 0;
    while n < s.len() && s[n] != 0
        invariant
            n <= s.len(),
            has_nul(s@),
            forall|i: int| 0 <= i < n ==> s@[i] != 0,
        decreases s.len() - n,
    {
        n = n + 1;
    }
    proof {
        if n == s.len() {
            let w = choose|i: int| 0 <= i < s@.len() && s@[i] == 0;
            assert(s@[w] == 0);
        }
    }
    n
}

/// Length of an optional C string: zero for a null string.
pub fn c_string_length(src: Option<&[u8]>) -> (n: usize)
    requires
        src matches Some(s) ==> has_nul(s@),
    ensures
        src is None ==> n == 0,
        src matches Some(s) ==> is_c_str_len(s@, n as int),
{
    match src {
        None => 0,
        Some(s) => c_str_len(s),
    }
}

/// How a string field is assigned a copy of a C string.
#[derive(Debug, Clone, Copy)]
pub struct StrAssign {
    /// Length of the assigned string.
    pub length: usize,
    /// Whether a buffer holding a copy of the string is allocated; otherwise
    /// the field's buffer is null.
    pub copy: bool,
}

/// Plan of the assignment of `src` to a string field: its length, and a copy
/// only for a non-empty string.
pub fn string_assign(src: Option<&[u8]>) -> (plan: StrAssign)
    requires
        src matches Some(s) ==> has_nul(s@),
    ensures
        src is None ==> plan.length == 0,
        src matches Some(s) ==> is_c_str_len(s@, plan.length as int),
        plan.copy == (plan.length > 0),
{
    let length = c_string_length(src);
    StrAssign { length, copy: length > 0 }
}

} // verus!
