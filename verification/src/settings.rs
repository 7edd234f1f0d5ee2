//! Settings that arrive as text: the lists of muted users and of chats to
//! notify, and the address to listen on.

use crate::models::text_view;
use crate::text::{
    parse_i64_chars, parse_signed, parse_u64_chars, parse_unsigned, split, split_chars,
};
use vstd::prelude::*;
use vstd::string::*;

verus! {

pub const COLON: &'static str = ":";

/// The numbers of a comma-separated list of unsigned numbers; `None` when
/// a piece of the list is not a number.
pub open spec fn unsigned_list(raw: Seq<char>) -> Option<Seq<u64>> {
    let pieces = split(raw, ',');
    if forall|i: int| 0 <= i < pieces.len() ==> parse_unsigned(#[trigger] pieces[i]) is Some {
        Some(pieces.map_values(|piece: Seq<char>| parse_unsigned(piece).unwrap()))
    } else {
        None
    }
}

/// The numbers of a comma-separated list of signed numbers; `None` when a
/// piece of the list is not a number.
pub open spec fn signed_list(raw: Seq<char>) -> Option<Seq<i64>> {
    let pieces = split(raw, ',');
    if forall|i: int| 0 <= i < pieces.len() ==> parse_signed(#[trigger] pieces[i]) is Some {
        Some(pieces.map_values(|piece: Seq<char>| parse_signed(piece).unwrap()))
    } else {
        None
    }
}

/// The muted users: nobody when the setting is absent, otherwise the list it holds.
pub open spec fn muted(raw: Option<Seq<char>>) -> Option<Seq<u64>> {
    match raw {
        None => Some(Seq::empty()),
        Some(text) => unsigned_list(text),
    }
}

/// The audience of arrival announcements: nobody when the setting is
/// absent, otherwise the list it holds.
pub open spec fn audience(raw: Option<Seq<char>>) -> Option<Seq<i64>> {
    match raw {
        None => Some(Seq::empty()),
        Some(text) => signed_list(text),
    }
}

/// Reads the list of muted users. `None` tells that the setting is not a
/// comma-separated list of user identifiers.
pub fn disabled_users(raw: &Option<String>) -> (r: Option<Vec<u64>>)
    ensures
        match r {
            Some(list) => muted(text_view(*raw)) == Some(list@),
            None => muted(text_view(*raw)) is None,
        },
{
    match raw {
        None => Some(Vec::new()),
        Some(text) => {
            let pieces = split_chars(text.as_str(), ',');
            let ghost wanted = split(text@, ',');
            let mut out: Vec<u64> = Vec::new();
            let mut i: usize = 0;
            while i < pieces.len()
                invariant
                    i <= pieces.len(),
                    text_view(*raw) == Some(text@),
                    wanted == split(text@, ','),
                    pieces@.len() == wanted.len(),
                    forall|j: int| 0 <= j < pieces@.len() ==> (#[trigger] pieces@[j])@ == wanted[j],
                    out@.len() == i,
                    forall|j: int| 0 <= j < i ==> parse_unsigned(#[trigger] wanted[j]) == Some(out@[j]),
                decreases pieces.len() - i,
            {
                match parse_u64_chars(&pieces[i]) {
                    Some(id) => {
                        out.push(id);
                    },
                    None => {
                        assert(parse_unsigned(wanted[i as int]) is None);
                        assert(unsigned_list(text@) is None);
                        return None;
                    },
                }
                i += 1;
            }
            assert(out@ =~= wanted.map_values(|piece: Seq<char>| parse_unsigned(piece).unwrap()));
            Some(out)
        },
    }
}

/// Reads the list of chats to notify. `None` tells that the setting is not
/// a comma-separated list of chat identifiers.
pub fn notify_chats(raw: &Option<String>) -> (r: Option<Vec<i64>>)
    ensures
        match r {
            Some(list) => audience(text_view(*raw)) == Some(list@),
            None => audience(text_view(*raw)) is None,
        },
{
    match raw {
        None => Some(Vec::new()),
        Some(text) => {
            let pieces = split_chars(text.as_str(), ',');
            let ghost wanted = split(text@, ',');
            let mut out: Vec<i64> = Vec::new();
            let mut i: usize = 0;
            while i < pieces.len()
                invariant
                    i <= pieces.len(),
                    text_view(*raw) == Some(text@),
                    wanted == split(text@, ','),
                    pieces@.len() == wanted.len(),
                    forall|j: int| 0 <= j < pieces@.len() ==> (#[trigger] pieces@[j])@ == wanted[j],
                    out@.len() == i,
                    forall|j: int| 0 <= j < i ==> parse_signed(#[trigger] wanted[j]) == Some(out@[j]),
                decreases pieces.len() - i,
            {
                match parse_i64_chars(&pieces[i]) {
                    Some(id) => {
                        out.push(id);
                    },
                    None => {
                        assert(parse_signed(wanted[i as int]) is None);
                        assert(signed_list(text@) is None);
                        return None;
                    },
                }
                i += 1;
            }
            assert(out@ =~= wanted.map_values(|piece: Seq<char>| parse_signed(piece).unwrap()));
            Some(out)
        },
    }
}

/// The socket address to listen on: the host, a colon, the port.
pub fn bind_address(address: &str, port: &str) -> (r: String)
    ensures
        r@ == address@ + COLON@ + port@,
{
    let mut out = String::from_str(address);
    out.append(COLON);
    out.append(port);
    out
}

} // verus!
