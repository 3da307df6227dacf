//! The decisions of a session: which mode the user picked, and what to do after each reply
//! of the voucher service.

use vstd::prelude::*;
use crate::text::{trim, trim_spec};

verus! {

/// How vouchers are found.
#[derive(Clone, Copy, Debug, PartialEq, Eq, Structural)]
pub enum Mode {
    /// The user types the promotion id and the signature.
    Normal,
    /// The user types a collection id; the voucher is looked up in that collection.
    Collection,
}

/// The mode that a menu answer picks: `1` or `2`, white space around it ignored.
pub open spec fn mode_spec(answer: Seq<char>) -> Option<Mode> {
    if trim_spec(answer) == "1"@ {
        Some(Mode::Normal)
    } else if trim_spec(answer) == "2"@ {
        Some(Mode::Collection)
    } else {
        None
    }
}

/// Reads a menu answer; `None` for anything but `1` or `2`.
pub fn mode_from_choice(answer: &str) -> (res: Option<Mode>)
    ensures
        res == mode_spec(answer@),
{
    let choice = String::from_str(trim(answer));
    let one = String::from_str("1");
    let two = String::from_str("2");
    if choice == one {
        Some(Mode::Normal)
    } else if choice == two {
        Some(Mode::Collection)
    } else {
        None
    }
}

/// HTTP `200 OK`.
pub const STATUS_OK: u16 = 200;

/// HTTP `418 I'm a teapot`, which the service answers when it wants the request again.
pub const STATUS_TEAPOT: u16 = 418;

/// How many times a save request is sent at most.
pub const MAX_SAVE_ATTEMPTS: u32 = 3;

/// What to do after a reply to the save request.
#[derive(Clone, Copy, Debug, PartialEq, Eq, Structural)]
pub enum SaveStep {
    /// The voucher was saved.
    Saved,
    /// Send the request again; `attempts` teapot replies came so far.
    Retry { attempts: u32 },
    /// The last allowed attempt was refused as well.
    GiveUp,
    /// Any other status ends the session.
    Failed,
}

/// The step after a reply with `status`, when `attempts` teapot replies came before.
pub open spec fn save_step_spec(attempts: u32, status: u16) -> SaveStep {
    if status == STATUS_OK {
        SaveStep::Saved
    } else if status == STATUS_TEAPOT {
        if attempts + 1 >= MAX_SAVE_ATTEMPTS {
            SaveStep::GiveUp
        } else {
            SaveStep::Retry { attempts: (attempts + 1) as u32 }
        }
    } else {
        SaveStep::Failed
    }
}

/// Decides what follows a reply to the save request.
pub fn save_step(attempts: u32, status: u16) -> (res: SaveStep)
    ensures
        res == save_step_spec(attempts, status),
{
    if status == STATUS_OK {
        SaveStep::Saved
    } else if status == STATUS_TEAPOT {
        if attempts >= MAX_SAVE_ATTEMPTS - 1 {
            SaveStep::GiveUp
        } else {
            SaveStep::Retry { attempts: attempts + 1 }
        }
    } else {
        SaveStep::Failed
    }
}

/// How many save requests go out when the replies come as `statuses`, starting after
/// `attempts` teapot replies.
pub open spec fn save_requests_sent(attempts: u32, statuses: Seq<u16>) -> nat
    decreases statuses.len(),
{
    if statuses.len() == 0 {
        0
    } else {
        match save_step_spec(attempts, statuses[0]) {
            SaveStep::Retry { attempts: next } => 1 + save_requests_sent(next, statuses.drop_first()),
            _ => 1,
        }
    }
}

/// Whatever the service answers, a session sends the save request at most three times.
pub proof fn law_save_attempts_bounded(attempts: u32, statuses: Seq<u16>)
    requires
        attempts < MAX_SAVE_ATTEMPTS,
    ensures
        save_requests_sent(attempts, statuses) <= MAX_SAVE_ATTEMPTS - attempts,
    decreases statuses.len(),
{
    if statuses.len() > 0 {
        if let SaveStep::Retry { attempts: next } = save_step_spec(attempts, statuses[0]) {
            law_save_attempts_bounded(next, statuses.drop_first());
        }
    }
}

/// A `200 OK` reply always means the voucher was saved, whatever came before; giving up only
/// follows the third `418`; a retry only follows a `418` and counts it; any other status fails.
pub proof fn law_save_step_outcomes(attempts: u32, status: u16)
    ensures
        status == 200 ==> save_step_spec(attempts, status) == SaveStep::Saved,
        save_step_spec(attempts, status) == SaveStep::Saved ==> status == 200,
        save_step_spec(attempts, status) == SaveStep::GiveUp ==> status == 418 && attempts >= 2,
        status == 418 && attempts >= 2 ==> save_step_spec(attempts, status) == SaveStep::GiveUp,
        (save_step_spec(attempts, status) matches SaveStep::Retry { attempts: next } ==> status
            == 418 && next == attempts + 1 && next < 3),
        status == 418 && attempts < 2 ==> save_step_spec(attempts, status) == (SaveStep::Retry {
            attempts: (attempts + 1) as u32,
        }),
        save_step_spec(attempts, status) == SaveStep::Failed <==> (status != 200 && status != 418),
{
}

/// What to do after a reply to a voucher-collection request.
#[derive(Clone, Copy, Debug, PartialEq, Eq, Structural)]
pub enum CollectionStep {
    /// Read the vouchers out of the reply.
    Read,
    /// Send the request again.
    Retry,
    /// Give up on the collection.
    Stop,
}

/// The step after a reply with `status` to a voucher-collection request.
pub open spec fn collection_step_spec(status: u16) -> CollectionStep {
    if status == STATUS_OK {
        CollectionStep::Read
    } else if status == STATUS_TEAPOT {
        CollectionStep::Retry
    } else {
        CollectionStep::Stop
    }
}

/// Only a `418` reply is retried, only a `200 OK` reply is read, and every other status stops
/// the lookup.
pub proof fn law_collection_step_outcomes(status: u16)
    ensures
        collection_step_spec(status) == CollectionStep::Retry <==> status == 418,
        collection_step_spec(status) == CollectionStep::Read <==> status == 200,
        collection_step_spec(status) == CollectionStep::Stop <==> (status != 200 && status != 418),
{
}

/// Decides what follows a reply to a voucher-collection request.
pub fn collection_step(status: u16) -> (res: CollectionStep)
    ensures
        res == collection_step_spec(status),
{
    if status == STATUS_OK {
        CollectionStep::Read
    } else if status == STATUS_TEAPOT {
        CollectionStep::Retry
    } else {
        CollectionStep::Stop
    }
}

} // verus!
