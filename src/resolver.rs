use vstd::prelude::*;
use crate::error::{PostgrestError, QueryError};
use crate::filter::{FilterBuilder, Method, Request, Shape, pairs_view, option_view};
use crate::range::{parse_content_range, item_count_of, total_of};
use crate::result::PostgrestResult;

verus! {

pub open spec fn null_bytes() -> Seq<u8> {
    seq![110u8, 117u8, 108u8, 108u8]
}

pub open spec fn empty_array_bytes() -> Seq<u8> {
    seq![91u8, 93u8]
}

/// The JSON text that a response is decoded from: `null` where the body is not read (a
/// `HEAD` or a write), `[]` where it is read and empty, else the body itself.
pub open spec fn decode_input(method: Method, body: Seq<u8>) -> Seq<u8> {
    if !method.reads_body() {
        null_bytes()
    } else if body.len() == 0 {
        empty_array_bytes()
    } else {
        body
    }
}

/// Picks the JSON text to decode; an empty body read for rows decodes as an empty array.
pub fn body_to_decode(method: Method, body: Vec<u8>) -> (r: Vec<u8>)
    ensures
        r@ == decode_input(method, body@),
        method == Method::Get && body@.len() == 0 ==> r@ == empty_array_bytes(),
{
    if method != Method::Get {
        let r = vec![110u8, 117u8, 108u8, 108u8];
        assert(r@ =~= null_bytes());
        r
    } else if body.len() == 0 {
        let r = vec![91u8, 93u8];
        assert(r@ =~= empty_array_bytes());
        r
    } else {
        body
    }
}

/// The first of `rows`, if any: how zero or one row becomes an optional value.
pub fn first_row<V>(rows: Vec<V>) -> (r: Option<V>)
    ensures
        r == (if rows@.len() > 0 {
            Some(rows@[0])
        } else {
            None
        }),
{
    let mut rows = rows;
    if rows.len() > 0 {
        Some(rows.remove(0))
    } else {
        None
    }
}

/// Where a resolution stands.
pub enum Phase<T> {
    /// Nothing sent yet; the builder may still change.
    Configuring,
    /// The request is out; its response has not come.
    Pending,
    /// The response has come and its counts are read; its body is being decoded.
    Decoding { success: bool, item_count: usize, total_item_count: Option<usize> },
    /// Resolved, once and for all.
    Done(Result<PostgrestResult<T>, QueryError>),
    /// Resolved, and the outcome handed over by `take_outcome`.
    Taken,
}

/// What the driver of a resolution is to do next.
pub enum Action {
    /// Send this request, then hand its response to `receive`.
    Send(Request),
    /// Wait for what is in flight.
    Wait,
    /// Resolved: read the outcome with `outcome`, or take it with `take_outcome`.
    Ready,
}

/// The body that `receive` hands back for decoding, and as what.
pub struct Decode {
    pub bytes: Vec<u8>,
    /// Decode the rows (`true`) or the server's error body (`false`).
    pub success: bool,
    /// Decode an array and keep its first row, if any (zero-or-one-row mode).
    pub first_only: bool,
}

/// Resolves one builder into one outcome, sending exactly one request however often it is
/// driven.
pub struct Resolver<T> {
    pub builder: FilterBuilder,
    pub phase: Phase<T>,
}

impl<T> Resolver<T> {
    pub fn new(builder: FilterBuilder) -> (r: Resolver<T>)
        ensures
            r.builder == builder,
            r.phase is Configuring,
    {
        Resolver { builder, phase: Phase::Configuring }
    }

    /// Drives the resolution: the first drive hands out the request to send, later drives
    /// send nothing and change nothing; once done, every drive reports the same outcome.
    pub fn drive(&mut self) -> (r: Action)
        ensures
            old(self).phase is Configuring ==> (r matches Action::Send(req) && ({
                let b = old(self).builder;
                &&& req.method == b.method
                &&& req.url@ == b.url@
                &&& pairs_view(req.query@) == pairs_view(b.query@)
                &&& req.headers.map() == b.request_headers()
                &&& option_view(req.body) == option_view(b.body)
            })) && final(self).phase is Pending && final(self).builder == old(self).builder,
            !(old(self).phase is Configuring) ==> *final(self) == *old(self),
            (old(self).phase is Done || old(self).phase is Taken) ==> r is Ready,
            (old(self).phase is Pending || old(self).phase is Decoding) ==> r is Wait,
    {
        match self.phase {
            Phase::Configuring => {
                let req = self.builder.request();
                self.phase = Phase::Pending;
                Action::Send(req)
            },
            Phase::Done(_) => Action::Ready,
            Phase::Taken => Action::Ready,
            _ => Action::Wait,
        }
    }

    /// Takes in the response: its status, its `content-range` value and its body (empty
    /// where it was not read), and hands back the body to decode. On a failure status the
    /// counts are not read: the error body is all that is decoded. On success the counts
    /// are read, and a requested total that is no number ends the resolution with an error.
    pub fn receive(&mut self, success: bool, content_range: Option<&[u8]>, body: Vec<u8>) -> (r:
        Option<Decode>)
        requires
            old(self).phase is Pending,
        ensures
            final(self).builder == old(self).builder,
            !success ==> {
                &&& r matches Some(d) && !d.success && !d.first_only && d.bytes@ == decode_input(
                    old(self).builder.method,
                    body@,
                )
                &&& final(self).phase == Phase::<T>::Decoding {
                    success: false,
                    item_count: 0,
                    total_item_count: None,
                }
            },
            success ==> ({
                let count_requested = old(self).builder.count is Some;
                match content_range {
                    Some(v) if count_requested && total_of(v@) is None => {
                        &&& r is None
                        &&& final(self).phase matches Phase::Done(
                            Err(QueryError::InvalidContentRange),
                        )
                    },
                    _ => {
                        let n = match content_range {
                            Some(v) => item_count_of(v@),
                            None => 0,
                        };
                        let t = match content_range {
                            Some(v) => if count_requested {
                                Some(total_of(v@)->0 as usize)
                            } else {
                                None
                            },
                            None => None,
                        };
                        &&& r matches Some(d) && d.success && d.first_only == (old(self).builder.shape
                            == Shape::MaybeSingle) && d.bytes@ == decode_input(
                            old(self).builder.method,
                            body@,
                        )
                        &&& final(self).phase == Phase::<T>::Decoding {
                            success: true,
                            item_count: n as usize,
                            total_item_count: t,
                        }
                    },
                }
            }),
    {
        if !success {
            self.phase = Phase::Decoding { success: false, item_count: 0, total_item_count: None };
            return Some(
                Decode {
                    bytes: body_to_decode(self.builder.method, body),
                    success: false,
                    first_only: false,
                },
            );
        }
        let counts = parse_content_range(content_range, self.builder.count.is_some());
        match counts {
            Err(e) => {
                self.phase = Phase::Done(Err(e));
                None
            },
            Ok((item_count, total_item_count)) => {
                self.phase = Phase::Decoding { success: true, item_count, total_item_count };
                Some(
                    Decode {
                        bytes: body_to_decode(self.builder.method, body),
                        success: true,
                        first_only: self.builder.shape == Shape::MaybeSingle,
                    },
                )
            },
        }
    }

    /// Ends a successful resolution with the decoded value, or with the decode error.
    pub fn settle(&mut self, value: Result<T, QueryError>)
        requires
            old(self).phase matches Phase::Decoding { success, .. } && success,
        ensures
            final(self).builder == old(self).builder,
            old(self).phase matches Phase::Decoding { item_count, total_item_count, .. }
                && final(self).phase == Phase::Done(
                match value {
                    Ok(v) => Ok(PostgrestResult { value: v, item_count, total_item_count }),
                    Err(e) => Err(e),
                },
            ),
    {
        if let Phase::Decoding { item_count, total_item_count, .. } = self.phase {
            self.phase = Phase::Done(
                match value {
                    Ok(v) => Ok(PostgrestResult { value: v, item_count, total_item_count }),
                    Err(e) => Err(e),
                },
            );
        }
    }

    /// Ends the resolution with a failure of the transport, before any response.
    pub fn abort(&mut self, error: QueryError)
        requires
            old(self).phase is Pending,
        ensures
            final(self).builder == old(self).builder,
            final(self).phase == Phase::<T>::Done(Err(error)),
    {
        self.phase = Phase::Done(Err(error));
    }

    /// Ends a successful zero-or-one-row resolution with the value decoded from the first
    /// row, or from nothing; `found` tells whether the array held a row, which makes the
    /// item count 1.
    pub fn settle_first(&mut self, value: Result<T, QueryError>, found: bool)
        requires
            old(self).phase matches Phase::Decoding { success, .. } && success,
        ensures
            final(self).builder == old(self).builder,
            old(self).phase matches Phase::Decoding { item_count, total_item_count, .. }
                && final(self).phase == Phase::Done(
                match value {
                    Ok(v) => Ok(
                        PostgrestResult {
                            value: v,
                            item_count: if found {
                                1
                            } else {
                                item_count
                            },
                            total_item_count,
                        },
                    ),
                    Err(e) => Err(e),
                },
            ),
    {
        if let Phase::Decoding { item_count, total_item_count, .. } = self.phase {
            let n = if found {
                1
            } else {
                item_count
            };
            self.phase = Phase::Done(
                match value {
                    Ok(v) => Ok(PostgrestResult { value: v, item_count: n, total_item_count }),
                    Err(e) => Err(e),
                },
            );
        }
    }

    /// Ends a failed resolution: the server's error body becomes the API error, without
    /// counts; a body that does not decode gives the decode error.
    pub fn fail(&mut self, error: Result<PostgrestError, QueryError>)
        requires
            old(self).phase matches Phase::Decoding { success, .. } && !success,
        ensures
            final(self).builder == old(self).builder,
            final(self).phase == Phase::<T>::Done(
                Err(
                    match error {
                        Ok(e) => QueryError::PostgrestError(e),
                        Err(e) => e,
                    },
                ),
            ),
    {
        self.phase = Phase::Done(
            Err(
                match error {
                    Ok(e) => QueryError::PostgrestError(e),
                    Err(e) => e,
                },
            ),
        );
    }

    /// The outcome, once there is one.
    pub fn outcome(&self) -> (r: Option<&Result<PostgrestResult<T>, QueryError>>)
        ensures
            r is Some <==> self.phase is Done,
            r matches Some(o) ==> self.phase == Phase::Done(*o),
    {
        match &self.phase {
            Phase::Done(o) => Some(o),
            _ => None,
        }
    }

    /// Hands the outcome over and leaves the resolver without one.
    pub fn take_outcome(&mut self) -> (r: Option<Result<PostgrestResult<T>, QueryError>>)
        ensures
            old(self).phase matches Phase::Done(o) ==> r == Some(o) && final(self).phase is Taken,
            !(old(self).phase is Done) ==> r is None && *final(self) == *old(self),
            final(self).builder == old(self).builder,
    {
        match self.phase {
            Phase::Done(_) => {
                let mut p = Phase::Taken;
                core::mem::swap(&mut self.phase, &mut p);
                match p {
                    Phase::Done(o) => Some(o),
                    _ => None,
                }
            },
            _ => None,
        }
    }
}

} // verus!
