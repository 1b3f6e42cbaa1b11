//! `retract` — take back a record: one way, never reversed, and nothing is
//! removed. What is here is the sentence that says what a retraction did and
//! did not do.

use vstd::prelude::*;
use crate::claims::{address_text_of, FactAddress};
use crate::capture::opt_text;
use crate::declined::memory_error;
use crate::claims::address_of;
use crate::parse::{date_of, given_text, parse_date, refused};
use crate::text::{decimal, decimal_text, push_str, text};
use crate::vocab::{Day, McpError};

verus! {

/// Arguments to `retract`.
#[derive(Debug)]
pub struct RetractArgs {
    /// The record's global address, `kind:slug#local-id`.
    pub address: String,
    /// Why it is being taken back, in one line. Optional.
    pub reason: Option<String>,
    /// The day the record was taken back; today in the caller's zone when
    /// omitted.
    pub recorded_at: Option<String>,
    /// The caller's session id.
    pub sid: Option<String>,
}

/// Resting.
pub open spec fn resting_msg(count: Seq<char>) -> Seq<char> {
    " "@ + count + " claims were worked out from it and are unchanged; deciding what they are worth now is yours."@
}

/// Taken back.
pub open spec fn taken_back_msg(address: Seq<char>, resting: Seq<char>) -> Seq<char> {
    address + " is marked as taken back. It is still stored, a read still returns it, and it still carries the edge it drew, so a walk arriving along that edge still reaches it."@ + resting
}
fn resting_text(count: &str) -> (m: String)
    ensures
        m@ == resting_msg(count@),
{
    let mut m = text(" ");
    push_str(&mut m, count);
    push_str(&mut m, " claims were worked out from it and are unchanged; deciding what they are worth now is yours.");
    m
}

fn taken_back_text(address: &str, resting: &str) -> (m: String)
    ensures
        m@ == taken_back_msg(address@, resting@),
{
    let mut m = String::new();
    push_str(&mut m, address);
    push_str(&mut m, " is marked as taken back. It is still stored, a read still returns it, and it still carries the edge it drew, so a walk arriving along that edge still reaches it.");
    push_str(&mut m, resting);
    m
}

/// **What a caller's own retraction did, and what it did not do**: the record
/// is still stored, still read, and still carries its edge; and the claims
/// worked out from it are named by count, because what they are worth now is
/// the caller's judgement.
pub open spec fn retraction_left_standing(address: Seq<char>, built_on: nat) -> Seq<char> {
    taken_back_msg(
        address,
        if built_on == 0 {
            Seq::empty()
        } else {
            resting_msg(decimal(built_on))
        },
    )
}

/// What a retraction left standing, for the record at `address` and the
/// claims `built_on` it.
pub fn what_a_retraction_left_standing<F>(address: &FactAddress, built_on: &[F]) -> (s: String)
    ensures
        s@ == retraction_left_standing(address_text_of(address@), built_on@.len()),
{
    let resting = if built_on.len() == 0 {
        String::new()
    } else {
        let count = decimal_text(built_on.len());
        resting_text(count.as_str())
    };
    let at = address.to_text();
    taken_back_text(at.as_str(), resting.as_str())
}

/// **What a retraction names**: the record, by its address, and the day it
/// was taken back (`None` is the caller's day, which only the edge reads) —
/// or the refusal of an address that is none, then of a day that is none.
pub fn retract_plan(args: &RetractArgs) -> (r: Result<(FactAddress, Option<Day>), McpError>)
    ensures
        match address_of(args.address@) {
            Err(why) => refused(r, "this is no fact address: "@ + why),
            Ok(a) => match date_of(given_text(opt_text(args.recorded_at))) {
                Err(m) => refused(r, m),
                Ok(d) => r matches Ok((got, day)) && got@ == a && day == d,
            },
        },
{
    let address = match FactAddress::parse(args.address.as_str()) {
        Ok(a) => a,
        Err(e) => return Err(memory_error(e)),
    };
    let day = match &args.recorded_at {
        Some(d) => parse_date(Some(d.as_str())),
        None => parse_date(None),
    };
    match day {
        Ok(d) => Ok((address, d)),
        Err(e) => Err(e),
    }
}

} // verus!
