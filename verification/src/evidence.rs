//! The monotonic receipt for action-scoped evidence.

#[allow(unused_imports)]
use crate::text::decimal;
use crate::text::{decimal_text, join2};
use vstd::prelude::*;

verus! {

/// A receipt that moves forward whenever action-scoped evidence is dropped.
#[derive(Debug, Clone, Copy, PartialEq, Eq, PartialOrd, Structural)]
pub struct ActionEvidenceEpoch {
    pub value: u64,
}

impl Default for ActionEvidenceEpoch {
    fn default() -> (r: Self)
        ensures
            r.value == 0,
    {
        ActionEvidenceEpoch { value: 0 }
    }
}

impl ActionEvidenceEpoch {
    /// The epoch after this one. It stays put only at the end of its range.
    pub open spec fn next(self) -> ActionEvidenceEpoch {
        if self.value < u64::MAX {
            ActionEvidenceEpoch { value: (self.value + 1) as u64 }
        } else {
            self
        }
    }

    pub fn advanced(self) -> (r: Self)
        ensures
            r == self.next(),
    {
        if self.value < u64::MAX {
            ActionEvidenceEpoch { value: self.value + 1 }
        } else {
            self
        }
    }

    /// The receipt text of an epoch.
    pub open spec fn token(self) -> Seq<char> {
        "evidence-"@ + decimal(self.value as nat)
    }

    pub fn opaque_token(self) -> (r: String)
        ensures
            r@ == self.token(),
    {
        let digits = decimal_text(self.value);
        join2("evidence-", digits.as_str())
    }
}

proof fn lemma_decimal_injective(a: nat, b: nat)
    requires
        decimal(a) == decimal(b),
    ensures
        a == b,
    decreases a,
{
    assert(decimal(a).len() == decimal(b).len());
    lemma_decimal_nonempty(a / 10);
    lemma_decimal_nonempty(b / 10);
    assert(decimal(a).last() == decimal(b).last());
    assert(decimal(a).last() == ('0' as int + a % 10) as char);
    assert(decimal(b).last() == ('0' as int + b % 10) as char);
    assert(decimal(a).last() as int == '0' as int + a % 10);
    assert(decimal(b).last() as int == '0' as int + b % 10);
    if a >= 10 && b >= 10 {
        assert(decimal(a).drop_last() =~= decimal(a / 10));
        assert(decimal(b).drop_last() =~= decimal(b / 10));
        lemma_decimal_injective(a / 10, b / 10);
    }
}

proof fn lemma_decimal_nonempty(n: nat)
    ensures
        decimal(n).len() >= 1,
    decreases n,
{
    if n >= 10 {
        lemma_decimal_nonempty(n / 10);
    }
}

/// Two epochs have the same receipt only if they are the same epoch.
pub proof fn law_receipts_identify_epochs(a: ActionEvidenceEpoch, b: ActionEvidenceEpoch)
    ensures
        a.token() == b.token() ==> a == b,
        a.token().len() > 0,
{
    lemma_decimal_nonempty(a.value as nat);
    if a.token() == b.token() {
        let prefix = "evidence-"@;
        let x = decimal(a.value as nat);
        let y = decimal(b.value as nat);
        assert((prefix + x).subrange(prefix.len() as int, (prefix + x).len() as int) =~= x);
        assert((prefix + y).subrange(prefix.len() as int, (prefix + y).len() as int) =~= y);
        lemma_decimal_injective(a.value as nat, b.value as nat);
    }
}

/// Advancing leaves the earlier epoch behind for good.
pub proof fn law_epochs_only_advance(epoch: ActionEvidenceEpoch)
    requires
        epoch.value < u64::MAX,
    ensures
        epoch.next().value > epoch.value,
        epoch.next().token() != epoch.token(),
{
    law_receipts_identify_epochs(epoch.next(), epoch);
}

} // verus!
