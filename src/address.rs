//! Data-connection addresses, and how the replies to `PASV` and `EPSV` give them.
use vstd::prelude::*;

use crate::error::Error;
use crate::text::{
    chars_of, find_char, find_triple, first_index_of, first_triple_of, last_index_of,
    parse_decimal, parsed_decimal, rfind_char, split_chars, split_on, views_of,
};

verus! {

/// An IP address: four octets, or the 128 bits of an IPv6 address.
#[derive(Clone, Copy, Debug, PartialEq, Eq, Structural)]
pub enum IpAddress {
    V4(u8, u8, u8, u8),
    V6(u128),
}

/// An IP address and a port.
#[derive(Clone, Copy, Debug, PartialEq, Eq, Structural)]
pub struct SocketAddress {
    pub ip: IpAddress,
    pub port: u16,
}

/// The byte that the `i`-th field of a `PASV` tuple spells.
pub open spec fn field_byte(fields: Seq<Seq<char>>, i: int) -> u8 {
    parsed_decimal(fields[i], 255)->0 as u8
}

/// Every field spells a byte.
pub open spec fn all_bytes(fields: Seq<Seq<char>>) -> bool {
    forall|i: int| 0 <= i < fields.len() ==> (#[trigger] parsed_decimal(fields[i], 255)) is Some
}

/// The comma-separated fields between the first `(` and the first `)`.
pub open spec fn passive_fields(message: Seq<char>) -> Option<Seq<Seq<char>>> {
    let open = first_index_of(message, '(');
    let close = first_index_of(message, ')');
    if 0 <= open && open < close {
        Some(split_on(message.subrange(open + 1, close), ','))
    } else {
        None
    }
}

/// The address that a `PASV` reply gives: `(a,b,c,d,hi,lo)`, each field
/// a byte, at least six of them, the port `hi * 256 + lo`.
pub open spec fn passive_address(message: Seq<char>) -> Option<SocketAddress> {
    match passive_fields(message) {
        Some(fields) => if fields.len() >= 6 && all_bytes(fields) {
            Some(
                SocketAddress {
                    ip: IpAddress::V4(
                        field_byte(fields, 0),
                        field_byte(fields, 1),
                        field_byte(fields, 2),
                        field_byte(fields, 3),
                    ),
                    port: (field_byte(fields, 4) * 256 + field_byte(fields, 5)) as u16,
                },
            )
        } else {
            None
        },
        None => None,
    }
}

/// A `PASV` message that lacks a parenthesis, or whose parentheses hold fewer
/// than six fields, or a field that is not a byte, gives no address; the
/// decoder then fails rather than guess one.
pub proof fn lemma_malformed_passive(message: Seq<char>)
    ensures
        first_index_of(message, '(') < 0 ==> passive_address(message) is None,
        first_index_of(message, ')') < 0 ==> passive_address(message) is None,
        passive_fields(message) matches Some(fields) && fields.len() < 6 ==> passive_address(
            message,
        ) is None,
        passive_fields(message) matches Some(fields) && !all_bytes(fields) ==> passive_address(
            message,
        ) is None,
{
}

/// The port that an `EPSV` reply gives: the number between the first `|||`
/// and the last `|`.
pub open spec fn extended_port(message: Seq<char>) -> Option<u16> {
    let start = first_triple_of(message, '|');
    let end = last_index_of(message, '|');
    if 0 <= start && start + 3 <= end {
        match parsed_decimal(message.subrange(start + 3, end), 65535) {
            Some(p) => Some(p as u16),
            None => None,
        }
    } else {
        None
    }
}

/// The text of the error for a passive-mode reply that cannot be read.
pub open spec fn passive_error_text(message: Seq<char>) -> Seq<char> {
    "Cannot parse socket sent from server for passive mode: "@ + message + "."@
}

fn passive_error(message: &str) -> (e: Error)
    ensures
        e matches Error::InvalidSocketPassiveMode(t) && t@ == passive_error_text(message@),
{
    let mut t = String::from_str("Cannot parse socket sent from server for passive mode: ");
    t.append(message);
    t.append(".");
    Error::InvalidSocketPassiveMode(t)
}

/// Read the address of a `PASV` reply's message.
pub fn decode_passive_mode_ip(message: &str) -> (r: Result<SocketAddress, Error>)
    ensures
        r is Ok <==> passive_address(message@) is Some,
        r matches Ok(a) ==> passive_address(message@) == Some(a),
        r matches Err(e) ==> e matches Error::InvalidSocketPassiveMode(t) && t@
            == passive_error_text(message@),
{
    let cs = chars_of(message);
    let open = find_char(&cs, '(');
    let close = find_char(&cs, ')');
    let (open, close) = match (open, close) {
        (Some(o), Some(c)) if o < c => (o, c),
        _ => return Err(passive_error(message)),
    };
    let inner = crate::text::slice_chars(&cs, open + 1, close);
    let fields = split_chars(&inner, ',');
    let ghost spec_fields = split_on(cs@.subrange(open + 1, close as int), ',');
    assert(views_of(fields@) == spec_fields);
    assert(inner@ == cs@.subrange(open + 1, close as int));
    assert(passive_fields(message@) == Some(spec_fields));
    if fields.len() < 6 {
        return Err(passive_error(message));
    }
    let mut bytes: Vec<u8> = Vec::new();
    let mut i: usize = 0;
    while i < fields.len()
        invariant
            i <= fields@.len(),
            views_of(fields@) == spec_fields,
            passive_fields(message@) == Some(spec_fields),
            bytes@.len() == i,
            forall|j: int|
                0 <= j < i ==> (#[trigger] parsed_decimal(spec_fields[j], 255)) == Some(
                    bytes@[j] as int,
                ),
        decreases fields.len() - i,
    {
        let field = &fields[i];
        assert(spec_fields[i as int] == field@);
        assert(field@.subrange(0, field@.len() as int) =~= field@);
        match parse_decimal(field, 0, field.len(), 255) {
            Some(v) => {
                bytes.push(v as u8);
            },
            None => {
                proof {
                    assert(spec_fields.len() == fields@.len());
                    assert(parsed_decimal(spec_fields[i as int], 255) is None);
                    assert(!all_bytes(spec_fields));
                    assert(passive_address(message@) is None);
                }
                return Err(passive_error(message));
            },
        }
        i = i + 1;
    }
    let port: u16 = bytes[4] as u16 * 256 + bytes[5] as u16;
    let addr = SocketAddress { ip: IpAddress::V4(bytes[0], bytes[1], bytes[2], bytes[3]), port };
    proof {
        assert(parsed_decimal(spec_fields[0], 255) == Some(bytes@[0] as int));
        assert(parsed_decimal(spec_fields[1], 255) == Some(bytes@[1] as int));
        assert(parsed_decimal(spec_fields[2], 255) == Some(bytes@[2] as int));
        assert(parsed_decimal(spec_fields[3], 255) == Some(bytes@[3] as int));
        assert(parsed_decimal(spec_fields[4], 255) == Some(bytes@[4] as int));
        assert(parsed_decimal(spec_fields[5], 255) == Some(bytes@[5] as int));
    }
    Ok(addr)
}

/// Read the port of an `EPSV` reply's message; the host is `peer`, the
/// address of the server at the other end of the control connection.
pub fn decode_extended_passive_mode_socket(message: &str, peer: IpAddress) -> (r: Result<
    SocketAddress,
    Error,
>)
    ensures
        r is Ok <==> extended_port(message@) is Some,
        r matches Ok(a) ==> a.ip == peer && Some(a.port) == extended_port(message@),
        r matches Err(e) ==> e matches Error::InvalidSocketPassiveMode(t) && t@
            == passive_error_text(message@),
{
    let cs = chars_of(message);
    let start = find_triple(&cs, '|');
    let end = rfind_char(&cs, '|');
    let (start, end) = match (start, end) {
        (Some(s), Some(e)) if s < e && e - s >= 3 => (s, e),
        _ => return Err(passive_error(message)),
    };
    match parse_decimal(&cs, start + 3, end, 65535) {
        Some(port) => Ok(SocketAddress { ip: peer, port: port as u16 }),
        None => Err(passive_error(message)),
    }
}

} // verus!
