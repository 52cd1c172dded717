//! Audit-trail records of payments.
use crate::text::same_text;
use vstd::prelude::*;

verus! {

/// Payment status in the audit trail.
#[derive(Debug, Clone, Copy, PartialEq, Eq, Structural)]
pub enum PaymentStatus {
    /// Payment initiation received.
    Received,
    /// On-chain transaction submitted.
    Submitted,
    /// On-chain transaction confirmed.
    Confirmed,
    /// ISO 20022 message forwarded to bank.
    Forwarded,
    /// Payment failed.
    Failed,
}

/// The stored text of a status.
pub open spec fn status_text(s: PaymentStatus) -> Seq<char> {
    match s {
        PaymentStatus::Received => "received"@,
        PaymentStatus::Submitted => "submitted"@,
        PaymentStatus::Confirmed => "confirmed"@,
        PaymentStatus::Forwarded => "forwarded"@,
        PaymentStatus::Failed => "failed"@,
    }
}

/// The status a stored text names; unknown texts read as `Received`.
pub open spec fn status_from_text(t: Seq<char>) -> PaymentStatus {
    if t == "received"@ {
        PaymentStatus::Received
    } else if t == "submitted"@ {
        PaymentStatus::Submitted
    } else if t == "confirmed"@ {
        PaymentStatus::Confirmed
    } else if t == "forwarded"@ {
        PaymentStatus::Forwarded
    } else if t == "failed"@ {
        PaymentStatus::Failed
    } else {
        PaymentStatus::Received
    }
}

impl PaymentStatus {
    /// The text under which the status is stored.
    pub fn as_str(&self) -> (r: &'static str)
        ensures
            r@ == status_text(*self),
    {
        match self {
            PaymentStatus::Received => "received",
            PaymentStatus::Submitted => "submitted",
            PaymentStatus::Confirmed => "confirmed",
            PaymentStatus::Forwarded => "forwarded",
            PaymentStatus::Failed => "failed",
        }
    }

    /// The status a stored text names; unknown texts read as `Received`.
    pub fn from_str(s: &str) -> (r: PaymentStatus)
        ensures
            r == status_from_text(s@),
    {
        if same_text(s, "received") {
            PaymentStatus::Received
        } else if same_text(s, "submitted") {
            PaymentStatus::Submitted
        } else if same_text(s, "confirmed") {
            PaymentStatus::Confirmed
        } else if same_text(s, "forwarded") {
            PaymentStatus::Forwarded
        } else if same_text(s, "failed") {
            PaymentStatus::Failed
        } else {
            PaymentStatus::Received
        }
    }
}

/// Reading back the stored text of a status gives the status.
pub proof fn lemma_status_text_roundtrip(s: PaymentStatus)
    ensures
        status_from_text(status_text(s)) == s,
{
    reveal_strlit("received");
    reveal_strlit("submitted");
    reveal_strlit("confirmed");
    reveal_strlit("forwarded");
    reveal_strlit("failed");
    assert("received"@ != "submitted"@ && "received"@ != "confirmed"@ && "received"@ != "forwarded"@
        && "received"@ != "failed"@) by {
        assert("received"@[0] != "submitted"@[0]);
        assert("received"@.len() != "confirmed"@.len() || "received"@[0] != "confirmed"@[0]);
        assert("received"@[0] != "forwarded"@[0]);
        assert("received"@[0] != "failed"@[0]);
    }
    assert("submitted"@ != "confirmed"@ && "submitted"@ != "forwarded"@ && "submitted"@
        != "failed"@) by {
        assert("submitted"@[0] != "confirmed"@[0]);
        assert("submitted"@[0] != "forwarded"@[0]);
        assert("submitted"@[0] != "failed"@[0]);
    }
    assert("confirmed"@ != "forwarded"@ && "confirmed"@ != "failed"@) by {
        assert("confirmed"@[0] != "forwarded"@[0]);
        assert("confirmed"@[0] != "failed"@[0]);
    }
    assert("forwarded"@ != "failed"@) by {
        assert("forwarded"@.len() != "failed"@.len());
    }
}

/// A payment record in the audit store.
#[derive(Debug, Clone)]
pub struct PaymentRecord {
    /// Auto-increment ID.
    pub id: i64,
    /// ISO 20022 end-to-end identification.
    pub end_to_end_id: String,
    /// Current status.
    pub status: PaymentStatus,
    /// On-chain transaction hash (if submitted).
    pub chain_tx_hash: Option<String>,
    /// IPFS hash of the archived ISO message.
    pub ipfs_hash: Option<String>,
    /// Account (debtor or creditor address).
    pub account: String,
    /// Creation timestamp.
    pub created_at: String,
    /// Last forwarded timestamp.
    pub forwarded_at: Option<String>,
}

} // verus!
