//! What a refused insertion reports.

use vstd::prelude::*;
use vstd::string::StringExecFns;
use std::collections::HashMap;
use crate::assets::asset::Asset;
use crate::util::text::{decimal, push_decimal};

verus! {

/// An asset that was not stored because its identifier was taken. It holds
/// the asset that was turned away, the asset that holds the identifier, and
/// the whole collection as it stood.
#[derive(Debug)]
pub struct AssetKeyError<'a, T> where T: Asset {
    message: String,
    old_val: Box<T>,
    new_val: &'a T,
    state: &'a HashMap<u128, T>,
}

impl<'a, T> AssetKeyError<'a, T> where T: Asset {
    /// The tag of the operation that failed.
    pub closed spec fn message(&self) -> Seq<char> {
        self.message@
    }

    /// The asset that was turned away.
    pub closed spec fn rejected(&self) -> T {
        *self.old_val
    }

    /// The asset that holds the identifier.
    pub closed spec fn present(&self) -> T {
        *self.new_val
    }

    /// The collection at the moment of the failure.
    pub closed spec fn state(&self) -> Map<u128, T> {
        self.state@
    }

    pub fn new(message: String, old_val: T, new_val: &'a T, state: &'a HashMap<u128, T>) -> (error:
        Self)
        ensures
            error.message() == message@,
            error.rejected() == old_val,
            error.present() == *new_val,
            error.state() == state@,
    {
        Self { message, old_val: Box::new(old_val), new_val, state }
    }

    pub fn get_message(&self) -> (message: &str)
        ensures
            message@ == self.message(),
    {
        self.message.as_str()
    }

    pub fn get_rejected(&self) -> (rejected: &T)
        ensures
            *rejected == self.rejected(),
    {
        &*self.old_val
    }

    pub fn get_present(&self) -> (present: &'a T)
        ensures
            *present == self.present(),
    {
        self.new_val
    }

    pub fn get_state(&self) -> (state: &'a HashMap<u128, T>)
        ensures
            state@ == self.state(),
    {
        self.state
    }

    /// The asset that was turned away, handed back to the caller.
    pub fn into_rejected(self) -> (rejected: T)
        ensures
            rejected == self.rejected(),
    {
        *self.old_val
    }
}

/// The lines that list the pairs of a collection: one line for each
/// identifier and the text of what is stored under it.
pub open spec fn pairs_text(pairs: Seq<(u128, String)>) -> Seq<char>
    decreases pairs.len(),
{
    if pairs.len() == 0 {
        Seq::empty()
    } else {
        pairs_text(pairs.drop_last()) + "\t\t{ "@ + decimal(pairs.last().0 as nat) + ", "@
            + pairs.last().1@ + " }\n"@
    }
}

/// The text of a refused insertion: the tag of the operation, then the
/// asset that was turned away, the asset in its place and the identifier,
/// then the pairs of the collection in the order given.
pub open spec fn key_error_text(
    message: Seq<char>,
    rejected: Seq<char>,
    present: Seq<char>,
    uuid: u128,
    pairs: Seq<(u128, String)>,
) -> Seq<char> {
    message + "\n"@ + "\t(Value to add: "@ + rejected + "; present value: "@ + present
        + "; UUID "@ + decimal(uuid as nat) + ")\n"@ + "\tProblematic HashMap: \n"@ + pairs_text(
        pairs,
    )
}

/// The text of a refused insertion, from the texts of its parts and the
/// pairs of the collection in the order in which they are to be listed.
pub fn format_key_error(
    message: &str,
    rejected: &str,
    present: &str,
    uuid: u128,
    pairs: &Vec<(u128, String)>,
) -> (text: String)
    ensures
        text@ == key_error_text(message@, rejected@, present@, uuid, pairs@),
{
    let mut text: String = String::from_str(message);
    text.append("\n");
    text.append("\t(Value to add: ");
    text.append(rejected);
    text.append("; present value: ");
    text.append(present);
    text.append("; UUID ");
    push_decimal(&mut text, uuid);
    text.append(")\n");
    text.append("\tProblematic HashMap: \n");
    let ghost head = text@;
    let mut i: usize = 0;
    while i < pairs.len()
        invariant
            i <= pairs@.len(),
            text@ == head + pairs_text(pairs@.take(i as int)),
        decreases pairs@.len() - i,
    {
        proof {
            let upto = pairs@.take(i + 1);
            assert(upto.drop_last() =~= pairs@.take(i as int));
            assert(upto.last() == pairs@[i as int]);
        }
        text.append("\t\t{ ");
        push_decimal(&mut text, pairs[i].0);
        text.append(", ");
        text.append(pairs[i].1.as_str());
        text.append(" }\n");
        i += 1;
        assert(text@ =~= head + pairs_text(pairs@.take(i as int)));
    }
    assert(pairs@.take(i as int) =~= pairs@);
    text
}

} // verus!
