//! How far a payjoin has come.
use vstd::prelude::*;

verus! {

/// The state of a payjoin as the wallet shows it.
#[derive(Debug, Clone, Copy, PartialEq, Eq, Structural)]
pub enum PayjoinStatus {
    Pending,
    WaitingReceiver,
    Signing,
    Completed,
    Failed,
}

/// The number under which a status is stored.
pub open spec fn status_code(status: PayjoinStatus) -> i32 {
    match status {
        PayjoinStatus::Pending => 0,
        PayjoinStatus::WaitingReceiver => 1,
        PayjoinStatus::Signing => 2,
        PayjoinStatus::Completed => 3,
        PayjoinStatus::Failed => 4,
    }
}

impl PayjoinStatus {
    /// The status that is stored under a number; only 0 to 4 are such numbers.
    pub fn from(status: i32) -> (result: Self)
        requires
            0 <= status <= 4,
        ensures
            status_code(result) == status,
            status == 0 <==> result == PayjoinStatus::Pending,
            status == 1 <==> result == PayjoinStatus::WaitingReceiver,
            status == 2 <==> result == PayjoinStatus::Signing,
            status == 3 <==> result == PayjoinStatus::Completed,
            status == 4 <==> result == PayjoinStatus::Failed,
    {
        match status {
            0 => PayjoinStatus::Pending,
            1 => PayjoinStatus::WaitingReceiver,
            2 => PayjoinStatus::Signing,
            3 => PayjoinStatus::Completed,
            _ => PayjoinStatus::Failed,
        }
    }

    /// The number under which this status is stored.
    pub fn code(self) -> (code: i32)
        ensures
            code == status_code(self),
    {
        match self {
            PayjoinStatus::Pending => 0,
            PayjoinStatus::WaitingReceiver => 1,
            PayjoinStatus::Signing => 2,
            PayjoinStatus::Completed => 3,
            PayjoinStatus::Failed => 4,
        }
    }
}

/// A status and the number under which it is stored determine each other, and every number from
/// 0 to 4 stands for a status.
pub proof fn law_status_codes(a: PayjoinStatus, b: PayjoinStatus, code: i32)
    ensures
        0 <= status_code(a) <= 4,
        status_code(a) == 0 <==> a == PayjoinStatus::Pending,
        status_code(a) == 1 <==> a == PayjoinStatus::WaitingReceiver,
        status_code(a) == 2 <==> a == PayjoinStatus::Signing,
        status_code(a) == 3 <==> a == PayjoinStatus::Completed,
        status_code(a) == 4 <==> a == PayjoinStatus::Failed,
        status_code(a) == status_code(b) ==> a == b,
        0 <= code <= 4 ==> exists|status: PayjoinStatus| status_code(status) == code,
{
    if 0 <= code <= 4 {
        let status = if code == 0 {
            PayjoinStatus::Pending
        } else if code == 1 {
            PayjoinStatus::WaitingReceiver
        } else if code == 2 {
            PayjoinStatus::Signing
        } else if code == 3 {
            PayjoinStatus::Completed
        } else {
            PayjoinStatus::Failed
        };
        assert(status_code(status) == code);
    }
}

/// What the wallet shows of a payjoin: its status, once there is one, and its BIP 21 URI.
#[derive(Debug)]
pub struct PayjoinInfo {
    pub status: Option<PayjoinStatus>,
    pub bip21: String,
}

impl Clone for PayjoinInfo {
    fn clone(&self) -> (copy: Self)
        ensures
            copy.status == self.status,
            copy.bip21@ == self.bip21@,
    {
        PayjoinInfo { status: self.status, bip21: self.bip21.clone() }
    }
}

} // verus!
