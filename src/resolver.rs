use vstd::prelude::*;

verus! {

/// How many recent dialogs are scanned when the direct lookup fails.
pub const DIALOG_WINDOW: usize = 50;

/// One entry of the operator account's recent dialog list.
#[derive(Debug, Clone, Copy, PartialEq, Eq, Structural)]
pub struct DialogEntry {
    pub is_user: bool,
    pub id: i64,
    pub access_hash: Option<i64>,
}

/// An identity together with the handle that addresses it.
#[derive(Debug, Clone, Copy, PartialEq, Eq, Structural)]
pub struct PackedUser {
    pub id: i64,
    pub access_hash: i64,
}

/// A handle can address an identity only when present and non-zero.
pub open spec fn usable(h: Option<i64>) -> bool {
    h matches Some(v) && v != 0
}

/// The handle of the first dialog in `d[i..n]` that is the user `target`.
pub open spec fn dialog_handle(d: Seq<DialogEntry>, i: int, n: int, target: i64) -> Option<i64>
    decreases n - i,
{
    if i >= n {
        None
    } else if d[i].is_user && d[i].id == target {
        d[i].access_hash
    } else {
        dialog_handle(d, i + 1, n, target)
    }
}

/// The number of dialogs scanned.
pub open spec fn window_len(d: Seq<DialogEntry>) -> int {
    if d.len() < DIALOG_WINDOW {
        d.len() as int
    } else {
        DIALOG_WINDOW as int
    }
}

/// The handle resolved from a direct lookup result and the recent dialogs.
pub open spec fn resolved(lookup: Option<i64>, d: Seq<DialogEntry>, target: i64) -> Option<i64> {
    if usable(lookup) {
        lookup
    } else if usable(dialog_handle(d, 0, window_len(d), target)) {
        dialog_handle(d, 0, window_len(d), target)
    } else {
        None
    }
}

/// Whether a handle is present and non-zero.
pub fn is_usable_handle(h: Option<i64>) -> (r: bool)
    ensures
        r == usable(h),
{
    match h {
        Some(v) => v != 0,
        None => false,
    }
}

/// The handle of the first recent dialog (within the window) that is the
/// user `target_id`, as that dialog has it cached.
pub fn find_in_dialogs(dialogs: &Vec<DialogEntry>, target_id: i64) -> (r: Option<i64>)
    ensures
        r == dialog_handle(dialogs@, 0, window_len(dialogs@), target_id),
{
    let n: usize = if dialogs.len() < DIALOG_WINDOW {
        dialogs.len()
    } else {
        DIALOG_WINDOW
    };
    let mut i: usize = 0;
    while i < n
        invariant
            n == window_len(dialogs@),
            n <= dialogs@.len(),
            i <= n,
            dialog_handle(dialogs@, 0, n as int, target_id) == dialog_handle(
                dialogs@,
                i as int,
                n as int,
                target_id,
            ),
        decreases n - i,
    {
        let d = dialogs[i];
        if d.is_user && d.id == target_id {
            return d.access_hash;
        }
        i = i + 1;
    }
    None
}

/// Resolves a bare numeric id to a handle: the direct lookup's handle when
/// usable, else the handle cached in the recent dialogs when usable, else
/// none (the identity never interacted with the operator account).
pub fn get_access_hash(lookup: Option<i64>, dialogs: &Vec<DialogEntry>, target_id: i64) -> (r:
    Option<i64>)
    ensures
        r == resolved(lookup, dialogs@, target_id),
        r is None || usable(r),
{
    if is_usable_handle(lookup) {
        return lookup;
    }
    let found = find_in_dialogs(dialogs, target_id);
    if is_usable_handle(found) {
        found
    } else {
        None
    }
}

/// An addressable identity, or `None` when the handle is absent or zero.
pub fn get_packed_user(target_id: i64, hash: Option<i64>) -> (r: Option<PackedUser>)
    ensures
        usable(hash) <==> r is Some,
        r matches Some(u) ==> u.id == target_id && hash == Some(u.access_hash),
{
    match hash {
        Some(h) => {
            if h != 0 {
                Some(PackedUser { id: target_id, access_hash: h })
            } else {
                None
            }
        },
        None => None,
    }
}

} // verus!
