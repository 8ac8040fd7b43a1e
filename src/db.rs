//! What the library knows of the link store: its rows and the form of a
//! full-text query.
use vstd::prelude::*;

pub mod model;

use crate::text::{char_vec, push_char};

verus! {

/// `s` with each double quote doubled.
pub open spec fn doubled_quotes(s: Seq<char>) -> Seq<char>
    decreases s.len(),
{
    if s.len() == 0 {
        Seq::empty()
    } else {
        doubled_quotes(s.drop_last()) + if s.last() == '"' {
            seq!['"', '"']
        } else {
            seq![s.last()]
        }
    }
}

/// A full-text phrase query that matches `search` literally: the text in
/// double quotes, with its own double quotes doubled.
pub open spec fn fts_phrase(search: Seq<char>) -> Seq<char> {
    seq!['"'] + doubled_quotes(search) + seq!['"']
}

/// Quotes `search` as a full-text phrase.
pub fn escape_fts(search: &str) -> (r: String)
    ensures
        r@ == fts_phrase(search@),
{
    let chars = char_vec(search);
    let mut escaped = String::new();
    push_char(&mut escaped, '"');
    let mut i: usize = 0;
    while i < chars.len()
        invariant
            chars@ == search@,
            i <= chars@.len(),
            escaped@ == seq!['"'] + doubled_quotes(chars@.take(i as int)),
        decreases chars@.len() - i,
    {
        let c = chars[i];
        assert(chars@.take(i as int + 1).drop_last() =~= chars@.take(i as int));
        if c == '"' {
            push_char(&mut escaped, '"');
            push_char(&mut escaped, '"');
        } else {
            push_char(&mut escaped, c);
        }
        i += 1;
        assert(escaped@ =~= seq!['"'] + doubled_quotes(chars@.take(i as int)));
    }
    assert(chars@.take(i as int) =~= search@);
    push_char(&mut escaped, '"');
    assert(escaped@ =~= fts_phrase(search@));
    escaped
}

} // verus!
