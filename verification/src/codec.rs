//! The identifier carried by each control of an invitation message.
//!
//! A control's identifier is a plain string, so everything a click has to
//! tell is packed into it: the creator, the creation time and, for the
//! control that deletes the message, a tag. The pieces are joined by hyphens.

use crate::decimal::{
    decimal, lemma_digits_of_shape, lemma_i64_roundtrip, parse_i64, parse_i64_spec, to_decimal,
};
use crate::text::{free_of, lemma_split_head, lemma_split_whole, split, split_spec};
use vstd::prelude::*;
use vstd::string::*;

verus! {

/// What a control asks for beyond fetching the link.
#[derive(Clone, Copy, Debug, PartialEq, Eq, Structural)]
pub enum ActionTag {
    /// The control deletes the invitation message.
    Delete,
}

/// What a click on a control means.
#[derive(Clone, Debug, PartialEq, Eq)]
pub enum ControlIntent {
    /// Hand the room link of the invitation to whoever clicked.
    FetchLink { creator_id: String, timestamp: i64 },
    /// Delete the invitation message.
    DeleteRequest { creator_id: String, timestamp: i64 },
}

/// The mathematical content of a [`ControlIntent`].
pub enum IntentView {
    FetchLink { creator_id: Seq<char>, timestamp: int },
    DeleteRequest { creator_id: Seq<char>, timestamp: int },
}

impl View for ControlIntent {
    type V = IntentView;

    open spec fn view(&self) -> IntentView {
        match *self {
            ControlIntent::FetchLink { creator_id, timestamp } => IntentView::FetchLink {
                creator_id: creator_id@,
                timestamp: timestamp as int,
            },
            ControlIntent::DeleteRequest { creator_id, timestamp } => IntentView::DeleteRequest {
                creator_id: creator_id@,
                timestamp: timestamp as int,
            },
        }
    }
}

/// The identifier is not one that [`encode`] writes: it has fewer than two or
/// more than three pieces, or its second piece is no `i64`.
#[derive(Clone, Copy, Debug, PartialEq, Eq, Structural)]
pub struct MalformedIdentifier;

/// The character between the pieces of an identifier.
pub open spec fn separator() -> char {
    '-'
}

/// The text of a tag inside an identifier.
pub open spec fn tag_text(tag: ActionTag) -> Seq<char> {
    match tag {
        ActionTag::Delete => seq!['d', 'e', 'l'],
    }
}

/// The identifier of a control: creator and time, then the tag if there is one.
pub open spec fn encode_spec(creator_id: Seq<char>, timestamp: int, tag: Option<ActionTag>) -> Seq<
    char,
> {
    let base = creator_id + seq![separator()] + decimal(timestamp);
    match tag {
        None => base,
        Some(t) => base + seq![separator()] + tag_text(t),
    }
}

/// What an identifier means. Two pieces ask for the link, three for deletion;
/// the second piece is the creation time. Anything else means nothing.
pub open spec fn decode_spec(token: Seq<char>) -> Option<IntentView> {
    let parts = split_spec(token, separator());
    if parts.len() == 2 || parts.len() == 3 {
        match parse_i64_spec(parts[1]) {
            Some(t) => Some(
                if parts.len() == 2 {
                    IntentView::FetchLink { creator_id: parts[0], timestamp: t as int }
                } else {
                    IntentView::DeleteRequest { creator_id: parts[0], timestamp: t as int }
                },
            ),
            None => None,
        }
    } else {
        None
    }
}

/// The intent that an identifier with the given pieces was written for.
pub open spec fn intent_of(creator_id: Seq<char>, timestamp: int, tag: Option<ActionTag>)
    -> IntentView {
    match tag {
        None => IntentView::FetchLink { creator_id, timestamp },
        Some(ActionTag::Delete) => IntentView::DeleteRequest { creator_id, timestamp },
    }
}

/// Writes the identifier of a control.
pub fn encode(creator_id: &str, timestamp: i64, tag: Option<ActionTag>) -> (r: String)
    ensures
        r@ == encode_spec(creator_id@, timestamp as int, tag),
{
    proof {
        reveal_strlit("-");
        reveal_strlit("del");
    }
    let mut out = String::from_str(creator_id);
    out.append("-");
    let stamp = to_decimal(timestamp);
    out.append(stamp.as_str());
    match tag {
        None => {},
        Some(ActionTag::Delete) => {
            out.append("-");
            out.append("del");
        },
    }
    out
}

/// Reads the identifier of a clicked control.
///
/// Fails exactly on the identifiers that have fewer than two or more than
/// three hyphen-separated pieces, or whose second piece is no `i64`.
pub fn decode(token: &str) -> (r: Result<ControlIntent, MalformedIdentifier>)
    ensures
        match r {
            Ok(intent) => decode_spec(token@) == Some(intent@),
            Err(_) => decode_spec(token@) is None,
        },
        split_spec(token@, separator()).len() < 2 ==> r is Err,
        split_spec(token@, separator()).len() > 3 ==> r is Err,
{
    let mut parts = split(token, '-');
    let count = parts.len();
    if count != 2 && count != 3 {
        return Err(MalformedIdentifier);
    }
    if count == 3 {
        parts.pop();
    }
    let stamp = parts.pop().unwrap();
    let creator_id = parts.pop().unwrap();
    match parse_i64(stamp.as_str()) {
        None => Err(MalformedIdentifier),
        Some(timestamp) => {
            if count == 2 {
                Ok(ControlIntent::FetchLink { creator_id, timestamp })
            } else {
                Ok(ControlIntent::DeleteRequest { creator_id, timestamp })
            }
        },
    }
}

/// A number that is not negative is written without a hyphen.
pub proof fn lemma_decimal_free_of_separator(n: int)
    requires
        n >= 0,
    ensures
        free_of(decimal(n), separator()),
{
    lemma_digits_of_shape(n as nat);
}

/// Decoding undoes encoding: an identifier written for a creator whose id
/// holds no hyphen, at a time that is not negative, is read back as the
/// intent it was written for, with the same creator and the same time.
pub proof fn lemma_decode_encode(creator_id: Seq<char>, timestamp: i64, tag: Option<ActionTag>)
    requires
        free_of(creator_id, separator()),
        timestamp >= 0,
    ensures
        decode_spec(encode_spec(creator_id, timestamp as int, tag)) == Some(
            intent_of(creator_id, timestamp as int, tag),
        ),
{
    let sep = separator();
    let stamp = decimal(timestamp as int);
    lemma_decimal_free_of_separator(timestamp as int);
    lemma_i64_roundtrip(timestamp);
    match tag {
        None => {
            lemma_split_whole(stamp, sep);
            lemma_split_head(creator_id, stamp, sep);
            assert(split_spec(encode_spec(creator_id, timestamp as int, tag), sep) =~= seq![
                creator_id,
                stamp,
            ]);
        },
        Some(t) => {
            let word = tag_text(t);
            lemma_split_whole(word, sep);
            lemma_split_head(stamp, word, sep);
            let tail = stamp + seq![sep] + word;
            lemma_split_head(creator_id, tail, sep);
            assert(encode_spec(creator_id, timestamp as int, tag) =~= creator_id + seq![sep]
                + tail);
            assert(split_spec(encode_spec(creator_id, timestamp as int, tag), sep) =~= seq![
                creator_id,
                stamp,
                word,
            ]);
        },
    }
}

/// An identifier with one piece, or with four or more, means nothing.
pub proof fn lemma_decode_rejects_other_counts(token: Seq<char>)
    requires
        split_spec(token, separator()).len() != 2,
        split_spec(token, separator()).len() != 3,
    ensures
        decode_spec(token) is None,
{
}

} // verus!
