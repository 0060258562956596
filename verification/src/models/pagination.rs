//! Pagination of list requests: an optional cap and a skip count.
//!
//! Both query parameters must be supplied together; a partial pair is
//! rejected rather than defaulted. A list request with no pagination at
//! all uses [`Pagination::default`], which caps nothing.

use crate::custom_errors::common::Error;
use crate::digits::parse_i16;
use crate::digits::parse_i16_spec;
use vstd::prelude::*;
use vstd::string::StringSliceAdditionalSpecFns;

verus! {

/// Request-scoped pagination values: `limit` caps the number of rows
/// (`None` means no cap), `offset` skips that many newest rows first.
#[derive(Clone, Copy, Debug, PartialEq, Eq, Structural)]
pub struct Pagination {
    pub limit: Option<i16>,
    pub offset: i16,
}

impl Default for Pagination {
    /// No cap and no skip: the whole list, newest first.
    fn default() -> (res: Self)
        ensures
            res.limit is None,
            res.offset == 0,
    {
        Pagination { limit: None, offset: 0 }
    }
}

/// The byte sequences of an optional pair of query-parameter strings.
pub open spec fn param_bytes(s: Option<&str>) -> Option<Seq<u8>> {
    match s {
        Some(v) => Some(v.spec_bytes()),
        None => None,
    }
}

/// What reading the pagination pair yields: rejected as incomplete
/// unless both values are present, rejected as unparsable unless both
/// are signed 16-bit decimal numbers.
pub open spec fn extract_pagination_spec(limit: Option<Seq<u8>>, offset: Option<Seq<u8>>) -> Result<
    Pagination,
    Error,
> {
    match (limit, offset) {
        (Some(l), Some(o)) => match (parse_i16_spec(l), parse_i16_spec(o)) {
            (Some(lv), Some(ov)) => Ok(Pagination { limit: Some(lv), offset: ov }),
            _ => Err(Error::ParseError),
        },
        _ => Err(Error::MissingParameters),
    }
}

/// Reads the `limit` and `offset` query parameters. Both must be
/// present, or the request is rejected with `MissingParameters`; a
/// value that is not a signed 16-bit decimal number is rejected with
/// `ParseError`.
pub fn extract_pagination(limit: Option<&str>, offset: Option<&str>) -> (r: Result<
    Pagination,
    Error,
>)
    ensures
        r == extract_pagination_spec(param_bytes(limit), param_bytes(offset)),
{
    match (limit, offset) {
        (Some(l), Some(o)) => {
            let lv = parse_i16(l.as_bytes());
            let ov = parse_i16(o.as_bytes());
            match (lv, ov) {
                (Some(lv), Some(ov)) => Ok(Pagination { limit: Some(lv), offset: ov }),
                _ => Err(Error::ParseError),
            }
        },
        _ => Err(Error::MissingParameters),
    }
}

} // verus!
