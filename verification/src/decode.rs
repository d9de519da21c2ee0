//! Executable decoders for the wire format, each proved to return exactly
//! what the specification decoders of [`crate::codec`] describe.

use crate::codec::{
    spec_add_request_fields, spec_add_response_fields, spec_client_fields, spec_decode_client,
    spec_decode_server, spec_echo_fields, spec_server_fields, spec_skip_field, u64_to_i32,
};
use crate::messages::{
    client_payload_opt_view, server_payload_opt_view, AddRequest, AddResponse, ClientMessage,
    ClientPayload, EchoMessage, ServerMessage, ServerPayload,
};
use crate::varint::{decode_varint, lemma_decode_varint_bounds};
use vstd::prelude::*;

verus! {

/// Witness that a byte buffer is not a well-formed message.
#[derive(Clone, Copy, Debug, PartialEq, Eq)]
pub struct DecodeError;

/// Copies `s[from..to]` into a fresh vector.
fn copy_range(s: &Vec<u8>, from: usize, to: usize) -> (r: Vec<u8>)
    requires
        from <= to <= s.len(),
    ensures
        r@ == s@.subrange(from as int, to as int),
{
    let mut r: Vec<u8> = Vec::new();
    let mut k: usize = from;
    while k < to
        invariant
            from <= k <= to <= s.len(),
            r@ == s@.subrange(from as int, k as int),
        decreases to - k,
    {
        r.push(s[k]);
        k = k + 1;
        assert(r@ =~= s@.subrange(from as int, k as int));
    }
    r
}

/// Steps over one unknown field's value, as `spec_skip_field` describes.
fn skip_field(s: &Vec<u8>, i: usize, end: usize, wire: u64) -> (r: Option<usize>)
    requires
        end <= s.len(),
    ensures
        r matches Some(j) ==> spec_skip_field(s@, i as int, end as int, wire) == Some(j as int),
        r is None ==> spec_skip_field(s@, i as int, end as int, wire) is None,
{
    if wire == 0 {
        match decode_varint(s, i, end) {
            None => None,
            Some((_v, j)) => Some(j),
        }
    } else if wire == 1 {
        if i <= end && end - i >= 8 {
            Some(i + 8)
        } else {
            None
        }
    } else if wire == 2 {
        match decode_varint(s, i, end) {
            None => None,
            Some((l, j)) => {
                proof {
                    lemma_decode_varint_bounds(s@, i as int, end as int);
                }
                if l <= (end - j) as u64 {
                    Some(j + (l as usize))
                } else {
                    None
                }
            },
        }
    } else if wire == 5 {
        if i <= end && end - i >= 4 {
            Some(i + 4)
        } else {
            None
        }
    } else {
        None
    }
}

/// Folds the fields of an echo message body, as `spec_echo_fields` describes.
fn echo_fields(s: &Vec<u8>, i: usize, end: usize, cur: Vec<u8>) -> (r: Option<Vec<u8>>)
    requires
        end <= s.len(),
    ensures
        r matches Some(c) ==> spec_echo_fields(s@, i as int, end as int, cur@) == Some(c@),
        r is None ==> spec_echo_fields(s@, i as int, end as int, cur@) is None,
    decreases end - i,
{
    if i >= end {
        return Some(cur);
    }
    match decode_varint(s, i, end) {
        None => None,
        Some((tag, j)) => {
            proof {
                lemma_decode_varint_bounds(s@, i as int, end as int);
            }
            let field = tag / 8;
            let wire = tag % 8;
            if field == 0 {
                None
            } else if field == 1 {
                if wire != 2 {
                    None
                } else {
                    match decode_varint(s, j, end) {
                        None => None,
                        Some((l, j2)) => {
                            proof {
                                lemma_decode_varint_bounds(s@, j as int, end as int);
                            }
                            if l <= (end - j2) as u64 {
                                let next = copy_range(s, j2, j2 + (l as usize));
                                echo_fields(s, j2 + (l as usize), end, next)
                            } else {
                                None
                            }
                        },
                    }
                }
            } else {
                match skip_field(s, j, end, wire) {
                    None => None,
                    Some(k) => {
                        proof {
                            crate::codec::lemma_skip_field_bounds(s@, j as int, end as int, wire);
                        }
                        echo_fields(s, k, end, cur)
                    },
                }
            }
        },
    }
}

/// Folds the fields of an add request body, as `spec_add_request_fields`
/// describes.
fn add_request_fields(s: &Vec<u8>, i: usize, end: usize, a: i32, b: i32) -> (r: Option<(i32, i32)>)
    requires
        end <= s.len(),
    ensures
        r matches Some(p) ==> spec_add_request_fields(s@, i as int, end as int, a, b)
            == Some((p.0, p.1)),
        r is None ==> spec_add_request_fields(s@, i as int, end as int, a, b) is None,
    decreases end - i,
{
    if i >= end {
        return Some((a, b));
    }
    match decode_varint(s, i, end) {
        None => None,
        Some((tag, j)) => {
            proof {
                lemma_decode_varint_bounds(s@, i as int, end as int);
            }
            let field = tag / 8;
            let wire = tag % 8;
            if field == 0 {
                None
            } else if field == 1 || field == 2 {
                if wire != 0 {
                    None
                } else {
                    match decode_varint(s, j, end) {
                        None => None,
                        Some((v, j2)) => {
                            proof {
                                lemma_decode_varint_bounds(s@, j as int, end as int);
                            }
                            let w = u64_to_i32(v);
                            if field == 1 {
                                add_request_fields(s, j2, end, w, b)
                            } else {
                                add_request_fields(s, j2, end, a, w)
                            }
                        },
                    }
                }
            } else {
                match skip_field(s, j, end, wire) {
                    None => None,
                    Some(k) => {
                        proof {
                            crate::codec::lemma_skip_field_bounds(s@, j as int, end as int, wire);
                        }
                        add_request_fields(s, k, end, a, b)
                    },
                }
            }
        },
    }
}

/// Folds the fields of an add result body, as `spec_add_response_fields`
/// describes.
fn add_response_fields(s: &Vec<u8>, i: usize, end: usize, result: i32) -> (r: Option<i32>)
    requires
        end <= s.len(),
    ensures
        r matches Some(v) ==> spec_add_response_fields(s@, i as int, end as int, result)
            == Some(v),
        r is None ==> spec_add_response_fields(s@, i as int, end as int, result) is None,
    decreases end - i,
{
    if i >= end {
        return Some(result);
    }
    match decode_varint(s, i, end) {
        None => None,
        Some((tag, j)) => {
            proof {
                lemma_decode_varint_bounds(s@, i as int, end as int);
            }
            let field = tag / 8;
            let wire = tag % 8;
            if field == 0 {
                None
            } else if field == 1 {
                if wire != 0 {
                    None
                } else {
                    match decode_varint(s, j, end) {
                        None => None,
                        Some((v, j2)) => {
                            proof {
                                lemma_decode_varint_bounds(s@, j as int, end as int);
                            }
                            let w = u64_to_i32(v);
                            add_response_fields(s, j2, end, w)
                        },
                    }
                }
            } else {
                match skip_field(s, j, end, wire) {
                    None => None,
                    Some(k) => {
                        proof {
                            crate::codec::lemma_skip_field_bounds(s@, j as int, end as int, wire);
                        }
                        add_response_fields(s, k, end, result)
                    },
                }
            }
        },
    }
}

/// Folds the fields of a client message, as `spec_client_fields` describes.
fn client_fields(s: &Vec<u8>, i: usize, end: usize, cur: Option<ClientPayload>) -> (r: Option<
    Option<ClientPayload>,
>)
    requires
        end <= s.len(),
    ensures
        r matches Some(p) ==> spec_client_fields(
            s@,
            i as int,
            end as int,
            client_payload_opt_view(cur),
        ) == Some(client_payload_opt_view(p)),
        r is None ==> spec_client_fields(s@, i as int, end as int, client_payload_opt_view(cur))
            is None,
    decreases end - i,
{
    if i >= end {
        return Some(cur);
    }
    match decode_varint(s, i, end) {
        None => None,
        Some((tag, j)) => {
            proof {
                lemma_decode_varint_bounds(s@, i as int, end as int);
            }
            let field = tag / 8;
            let wire = tag % 8;
            if field == 0 {
                None
            } else if field == 1 || field == 2 {
                if wire != 2 {
                    None
                } else {
                    match decode_varint(s, j, end) {
                        None => None,
                        Some((l, j2)) => {
                            proof {
                                lemma_decode_varint_bounds(s@, j as int, end as int);
                            }
                            if l <= (end - j2) as u64 {
                                let stop = j2 + (l as usize);
                                if field == 1 {
                                    match echo_fields(s, j2, stop, Vec::new()) {
                                        None => None,
                                        Some(content) => client_fields(
                                            s,
                                            stop,
                                            end,
                                            Some(ClientPayload::Echo(EchoMessage { content })),
                                        ),
                                    }
                                } else {
                                    match add_request_fields(s, j2, stop, 0, 0) {
                                        None => None,
                                        Some((a, b)) => client_fields(
                                            s,
                                            stop,
                                            end,
                                            Some(ClientPayload::Add(AddRequest { a, b })),
                                        ),
                                    }
                                }
                            } else {
                                None
                            }
                        },
                    }
                }
            } else {
                match skip_field(s, j, end, wire) {
                    None => None,
                    Some(k) => {
                        proof {
                            crate::codec::lemma_skip_field_bounds(s@, j as int, end as int, wire);
                        }
                        client_fields(s, k, end, cur)
                    },
                }
            }
        },
    }
}

/// Folds the fields of a server message, as `spec_server_fields` describes.
fn server_fields(s: &Vec<u8>, i: usize, end: usize, cur: Option<ServerPayload>) -> (r: Option<
    Option<ServerPayload>,
>)
    requires
        end <= s.len(),
    ensures
        r matches Some(p) ==> spec_server_fields(
            s@,
            i as int,
            end as int,
            server_payload_opt_view(cur),
        ) == Some(server_payload_opt_view(p)),
        r is None ==> spec_server_fields(s@, i as int, end as int, server_payload_opt_view(cur))
            is None,
    decreases end - i,
{
    if i >= end {
        return Some(cur);
    }
    match decode_varint(s, i, end) {
        None => None,
        Some((tag, j)) => {
            proof {
                lemma_decode_varint_bounds(s@, i as int, end as int);
            }
            let field = tag / 8;
            let wire = tag % 8;
            if field == 0 {
                None
            } else if field == 1 || field == 2 {
                if wire != 2 {
                    None
                } else {
                    match decode_varint(s, j, end) {
                        None => None,
                        Some((l, j2)) => {
                            proof {
                                lemma_decode_varint_bounds(s@, j as int, end as int);
                            }
                            if l <= (end - j2) as u64 {
                                let stop = j2 + (l as usize);
                                if field == 1 {
                                    match echo_fields(s, j2, stop, Vec::new()) {
                                        None => None,
                                        Some(content) => server_fields(
                                            s,
                                            stop,
                                            end,
                                            Some(ServerPayload::Echo(EchoMessage { content })),
                                        ),
                                    }
                                } else {
                                    match add_response_fields(s, j2, stop, 0) {
                                        None => None,
                                        Some(result) => server_fields(
                                            s,
                                            stop,
                                            end,
                                            Some(ServerPayload::AddResult(AddResponse { result })),
                                        ),
                                    }
                                }
                            } else {
                                None
                            }
                        },
                    }
                }
            } else {
                match skip_field(s, j, end, wire) {
                    None => None,
                    Some(k) => {
                        proof {
                            crate::codec::lemma_skip_field_bounds(s@, j as int, end as int, wire);
                        }
                        server_fields(s, k, end, cur)
                    },
                }
            }
        },
    }
}

/// Decodes one client message from the whole buffer. Succeeds exactly when
/// `spec_decode_client` does, and then returns exactly the message it names.
pub fn decode_client_message(s: &Vec<u8>) -> (r: Result<ClientMessage, DecodeError>)
    ensures
        r matches Ok(m) ==> spec_decode_client(s@) == Some(m@),
        r is Err ==> spec_decode_client(s@) is None,
{
    match client_fields(s, 0, s.len(), None) {
        None => Err(DecodeError),
        Some(p) => Ok(ClientMessage { message: p }),
    }
}

/// Decodes one server message from the whole buffer. Succeeds exactly when
/// `spec_decode_server` does, and then returns exactly the message it names.
pub fn decode_server_message(s: &Vec<u8>) -> (r: Result<ServerMessage, DecodeError>)
    ensures
        r matches Ok(m) ==> spec_decode_server(s@) == Some(m@),
        r is Err ==> spec_decode_server(s@) is None,
{
    match server_fields(s, 0, s.len(), None) {
        None => Err(DecodeError),
        Some(p) => Ok(ServerMessage { message: p }),
    }
}

} // verus!
