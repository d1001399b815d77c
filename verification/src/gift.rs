use vstd::prelude::*;
use crate::member::{fits_i64, Member};

verus! {

/// Why a gift was refused.
#[derive(Clone, Copy, Debug, PartialEq, Eq, Structural)]
pub enum GiftRefusal {
    /// Gifts are of at least 1 cm.
    InvalidAmount,
    /// Nobody gifts themselves.
    SelfGift,
    /// The giver holds only this much.
    InsufficientLength { has: i64 },
}

/// The lengths of giver and recipient after a gift.
#[derive(Clone, Copy, Debug, PartialEq, Eq, Structural)]
pub struct GiftDone {
    pub giver_length: i64,
    pub recipient_length: i64,
}

/// The gift of `amount` cm from `giver_id`, holding `giver_length`, to
/// `recipient_id`: refused for a non-positive amount, then for a gift to
/// oneself, then when the giver holds less than the amount.
pub open spec fn spec_gift_check(giver_id: u64, recipient_id: u64, amount: i64, giver_length: i64) -> Result<(), GiftRefusal> {
    if amount <= 0 {
        Err(GiftRefusal::InvalidAmount)
    } else if giver_id == recipient_id {
        Err(GiftRefusal::SelfGift)
    } else if giver_length < amount {
        Err(GiftRefusal::InsufficientLength { has: giver_length })
    } else {
        Ok(())
    }
}

/// Checks a gift before any record is touched.
pub fn check_gift(giver_id: u64, recipient_id: u64, amount: i64, giver_length: i64) -> (r: Result<(), GiftRefusal>)
    ensures
        r == spec_gift_check(giver_id, recipient_id, amount, giver_length),
{
    if amount <= 0 {
        Err(GiftRefusal::InvalidAmount)
    } else if giver_id == recipient_id {
        Err(GiftRefusal::SelfGift)
    } else if giver_length < amount {
        Err(GiftRefusal::InsufficientLength { has: giver_length })
    } else {
        Ok(())
    }
}

/// The giver's and the recipient's records after a gift of `amount` cm:
/// only the two lengths change.
pub open spec fn after_gift(giver: Member, recipient: Member, amount: i64) -> (Member, Member) {
    (
        Member { length: (giver.length - amount) as i64, ..giver },
        Member { length: (recipient.length + amount) as i64, ..recipient },
    )
}

/// Moves `amount` cm from the giver's record to the recipient's, after
/// `check_gift` for the two players; refused gifts change nothing.
pub fn gift_length(
    giver_id: u64,
    recipient_id: u64,
    amount: i64,
    giver: &mut Member,
    recipient: &mut Member,
) -> (r: Result<GiftDone, GiftRefusal>)
    requires
        spec_gift_check(giver_id, recipient_id, amount, old(giver).length) is Ok ==> fits_i64(
            old(recipient).length + amount,
        ),
    ensures
        spec_gift_check(giver_id, recipient_id, amount, old(giver).length) is Err ==> r == Err::<
            GiftDone,
            GiftRefusal,
        >(spec_gift_check(giver_id, recipient_id, amount, old(giver).length)->Err_0)
            && *final(giver) == *old(giver) && *final(recipient) == *old(recipient),
        spec_gift_check(giver_id, recipient_id, amount, old(giver).length) is Ok ==> {
            &&& (*final(giver), *final(recipient)) == after_gift(*old(giver), *old(recipient), amount)
            &&& r == Ok::<GiftDone, GiftRefusal>(
                GiftDone {
                    giver_length: final(giver).length,
                    recipient_length: final(recipient).length,
                },
            )
        },
{
    match check_gift(giver_id, recipient_id, amount, giver.length) {
        Err(e) => Err(e),
        Ok(()) => {
            giver.length = giver.length - amount;
            recipient.length = recipient.length + amount;
            Ok(GiftDone { giver_length: giver.length, recipient_length: recipient.length })
        },
    }
}

/// A gift that passes the checks moves length and creates none: the two
/// lengths add up to what they did before, and the giver is left with no
/// negative length.
pub proof fn lemma_gift_conserves_length(
    giver_id: u64,
    recipient_id: u64,
    giver: Member,
    recipient: Member,
    amount: i64,
)
    requires
        spec_gift_check(giver_id, recipient_id, amount, giver.length) is Ok,
        fits_i64(recipient.length + amount),
    ensures
        after_gift(giver, recipient, amount).0.length + after_gift(giver, recipient, amount).1.length
            == giver.length + recipient.length,
        after_gift(giver, recipient, amount).0.length >= 0,
        after_gift(giver, recipient, amount).1.length > recipient.length,
{
}

/// A comment on the size of a gift.
pub open spec fn spec_gift_comment(amount: int) -> Seq<char> {
    if amount >= 50 {
        "What an incredibly generous donation! This kind of philanthropy will go down in history!"@
    } else if amount >= 25 {
        "That's a substantial gift! Your generosity knows no bounds!"@
    } else if amount >= 10 {
        "A respectable gift! The recipient will surely appreciate your kindness."@
    } else if amount >= 5 {
        "A modest but thoughtful gift. Every centimeter counts!"@
    } else {
        "A small token of appreciation. It's the thought that counts... right?"@
    }
}

/// The comment shown with a gift of `amount` cm.
pub fn gift_comment(amount: i64) -> (r: &'static str)
    ensures
        r@ == spec_gift_comment(amount as int),
{
    if amount >= 50 {
        "What an incredibly generous donation! This kind of philanthropy will go down in history!"
    } else if amount >= 25 {
        "That's a substantial gift! Your generosity knows no bounds!"
    } else if amount >= 10 {
        "A respectable gift! The recipient will surely appreciate your kindness."
    } else if amount >= 5 {
        "A modest but thoughtful gift. Every centimeter counts!"
    } else {
        "A small token of appreciation. It's the thought that counts... right?"
    }
}

} // verus!
