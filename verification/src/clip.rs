//! Clipboard session model.
//!
//! The system clipboard is a machine-wide, single-slot text store guarded
//! by an exclusive lock that any process may hold transiently.  This
//! module models a transfer through it: acquiring the lock with a bounded
//! number of retries, reading or replacing the text payload while the
//! lock is held, and reporting the distinct failure modes.  The outcome
//! of each lock attempt and any payload-transfer fault are inputs to the
//! functions here, so the decision logic is verified for every sequence
//! of outcomes the operating system could produce.

use vstd::prelude::*;
use vstd::slice::slice_to_vec;
use crate::norm::{collapse_crlf, collapse_spec, expand_lf, expand_spec};

verus! {

/// Number of retries after a failed first attempt to open the clipboard,
/// so at most `RETRY_LIMIT + 1` attempts are made in all.
pub const RETRY_LIMIT: usize = 10;

/// A failed clipboard transfer.  An absent text payload is not a failure:
/// reading it yields empty text.
#[derive(Clone, Copy, Debug, PartialEq, Eq, Structural)]
pub enum ClipboardError {
    /// The clipboard lock was not obtained within the retry budget; carries
    /// the operating-system error code of the last attempt.
    Unavailable { code: u32 },
    /// The lock was held but the payload transfer itself failed; carries
    /// the operating-system error code.
    TransferFailed { code: u32 },
}

/// The state of the machine-wide clipboard, as a transfer sees it.
pub struct Clipboard {
    /// The text payload, or `None` when no text format is present.
    pub text: Option<Vec<u8>>,
    /// An operating-system error injected into any payload transfer
    /// attempted on this state, or `None` when transfers succeed.
    pub fault: Option<u32>,
}

impl Clipboard {
    /// The text payload as a sequence of bytes, or `None` when no text
    /// format is present.
    pub open spec fn contents(self) -> Option<Seq<u8>> {
        match self.text {
            Some(v) => Some(v@),
            None => None,
        }
    }

    /// A clipboard with no text format present and no transfer fault.
    pub fn empty() -> (c: Clipboard)
        ensures
            c.contents() == None::<Seq<u8>>,
            c.fault == None::<u32>,
    {
        Clipboard { text: None, fault: None }
    }
}

/// The lock attempt at index `j` of `outcomes` succeeded (the
/// operating-system error code 0 means success).
pub open spec fn attempt_ok(outcomes: Seq<u32>, j: int) -> bool {
    0 <= j < outcomes.len() && outcomes[j] == 0
}

/// Some attempt within the budget of one first try plus `retries` retries
/// succeeds, so the lock is obtained.
pub open spec fn acquire_ok(outcomes: Seq<u32>, retries: int) -> bool {
    exists|j: int| 0 <= j <= retries && attempt_ok(outcomes, j)
}

/// What reading the clipboard returns: empty text when no text format is
/// present, otherwise the payload, collapsed when `collapse` is set.
pub open spec fn read_result(contents: Option<Seq<u8>>, collapse: bool) -> Seq<u8> {
    match contents {
        None => Seq::empty(),
        Some(t) => if collapse { collapse_spec(t) } else { t },
    }
}

/// What writing `t` stores on the clipboard: `t` itself, expanded when
/// `expand` is set.
pub open spec fn write_result(t: Seq<u8>, expand: bool) -> Seq<u8> {
    if expand { expand_spec(t) } else { t }
}

/// Acquire the clipboard lock, given the operating-system outcome of each
/// attempt (0 for success, an error code otherwise): try once, then retry
/// up to `retries` times, and give up with the last attempt's error code
/// once the budget is exhausted.  Returns the index of the successful
/// attempt, which earlier failures below the budget do not prevent.
pub fn acquire_session(outcomes: &[u32], retries: usize) -> (r: Result<usize, u32>)
    requires
        outcomes@.len() >= retries + 1,
    ensures
        match r {
            Ok(j) => ({
                &&& j <= retries
                &&& outcomes@[j as int] == 0
                &&& forall|k: int| 0 <= k < j ==> outcomes@[k] != 0
            }),
            Err(code) => ({
                &&& forall|k: int| 0 <= k <= retries ==> outcomes@[k] != 0
                &&& code == outcomes@[retries as int]
            }),
        },
{
    let mut j: usize = 0;
    loop
        invariant
            j <= retries,
            outcomes@.len() >= retries + 1,
            forall|k: int| 0 <= k < j ==> outcomes@[k] != 0,
        decreases retries - j,
    {
        if outcomes[j] == 0 {
            return Ok(j);
        }
        if j == retries {
            return Err(outcomes[j]);
        }
        j = j + 1;
    }
}

/// Read the clipboard's text: acquire the lock with bounded retries, then
/// copy the payload out, collapsing CRLF pairs to lone LF when `collapse`
/// is set.  An absent text format yields empty text, not an error; a
/// payload-transfer fault yields `TransferFailed`; an exhausted retry
/// budget yields `Unavailable` with the last attempt's error code.
pub fn get_clipboard(clip: &Clipboard, attempts: &[u32], collapse: bool) -> (r: Result<
    Vec<u8>,
    ClipboardError,
>)
    requires
        attempts@.len() >= RETRY_LIMIT + 1,
    ensures
        match r {
            Ok(text) => ({
                &&& acquire_ok(attempts@, RETRY_LIMIT as int)
                &&& (clip.text is None || clip.fault is None)
                &&& text@ == read_result(clip.contents(), collapse)
            }),
            Err(e) => match e {
                ClipboardError::Unavailable { code } => ({
                    &&& !acquire_ok(attempts@, RETRY_LIMIT as int)
                    &&& code == attempts@[RETRY_LIMIT as int]
                }),
                ClipboardError::TransferFailed { code } => ({
                    &&& acquire_ok(attempts@, RETRY_LIMIT as int)
                    &&& clip.text is Some
                    &&& clip.fault == Some(code)
                }),
            },
        },
{
    match acquire_session(attempts, RETRY_LIMIT) {
        Err(code) => Err(ClipboardError::Unavailable { code }),
        Ok(j) => {
            proof {
                assert(attempt_ok(attempts@, j as int));
            }
            match &clip.text {
                None => Ok(Vec::new()),
                Some(raw) => match clip.fault {
                    Some(code) => Err(ClipboardError::TransferFailed { code }),
                    None => if collapse {
                        Ok(collapse_crlf(raw.as_slice()))
                    } else {
                        Ok(slice_to_vec(raw.as_slice()))
                    },
                },
            }
        },
    }
}

/// Replace the clipboard's text: acquire the lock with bounded retries,
/// then store `content`, expanding lone LF to CRLF when `expand` is set.
/// The replacement is all-or-nothing: on any failure the clipboard is
/// left exactly as it was.
pub fn set_clipboard(clip: &mut Clipboard, content: &[u8], attempts: &[u32], expand: bool) -> (r:
    Result<(), ClipboardError>)
    requires
        attempts@.len() >= RETRY_LIMIT + 1,
    ensures
        final(clip).fault == old(clip).fault,
        match r {
            Ok(()) => ({
                &&& acquire_ok(attempts@, RETRY_LIMIT as int)
                &&& old(clip).fault is None
                &&& final(clip).contents() == Some(write_result(content@, expand))
            }),
            Err(e) => (*final(clip) == *old(clip) && match e {
                ClipboardError::Unavailable { code } => ({
                    &&& !acquire_ok(attempts@, RETRY_LIMIT as int)
                    &&& code == attempts@[RETRY_LIMIT as int]
                }),
                ClipboardError::TransferFailed { code } => ({
                    &&& acquire_ok(attempts@, RETRY_LIMIT as int)
                    &&& old(clip).fault == Some(code)
                }),
            }),
        },
{
    match acquire_session(attempts, RETRY_LIMIT) {
        Err(code) => Err(ClipboardError::Unavailable { code }),
        Ok(j) => {
            proof {
                assert(attempt_ok(attempts@, j as int));
            }
            match clip.fault {
                Some(code) => Err(ClipboardError::TransferFailed { code }),
                None => {
                    let data = if expand {
                        expand_lf(content)
                    } else {
                        slice_to_vec(content)
                    };
                    clip.text = Some(data);
                    Ok(())
                },
            }
        },
    }
}

/// Round trip without normalization: text written to the clipboard with
/// no expansion and read back with no collapsing is returned exactly as
/// it was written, whatever mix of lone LF, lone CR and CRLF it holds.
pub proof fn lemma_round_trip_plain(s: Seq<u8>)
    ensures
        read_result(Some(write_result(s, false)), false) == s,
{
}

} // verus!
