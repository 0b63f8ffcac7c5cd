use vstd::prelude::*;

verus! {

/// The message for a session identifier that cannot cross the C boundary.
pub open spec fn invalid_session_id_message() -> Seq<char> {
    "Niepoprawny identyfikator sesji"@
}

/// The message for a failed volume change.
pub open spec fn volume_failed_message() -> Seq<char> {
    "Nie udało się zmienić głośności sesji"@
}

/// The message for a failed mute change.
pub open spec fn mute_failed_message() -> Seq<char> {
    "Nie udało się zmienić wyciszenia sesji"@
}

/// An audio session identifier goes to the native engine as a NUL-terminated
/// C string, so it must not hold a NUL character itself.
pub fn check_session_id(id: &str) -> (checked: Result<(), String>)
    ensures
        checked is Ok <==> !id@.contains('\0'),
        checked matches Err(message) ==> message@ == invalid_session_id_message(),
{
    let n = id.unicode_len();
    let mut i: usize = 0;
    while i < n
        invariant
            n == id@.len(),
            0 <= i <= n,
            forall|j: int| 0 <= j < i ==> id@[j] != '\0',
        decreases n - i,
    {
        if id.get_char(i) == '\0' {
            return Err(String::from_str("Niepoprawny identyfikator sesji"));
        }
        i = i + 1;
    }
    Ok(())
}

/// The C flag for a mute request: 1 to mute, 0 to unmute.
pub fn mute_argument(muted: bool) -> (flag: i32)
    ensures
        flag == (if muted {
            1i32
        } else {
            0i32
        }),
{
    if muted {
        1
    } else {
        0
    }
}

/// The native engine reports success of a volume change with a non-zero status.
pub fn volume_outcome(status: i32) -> (outcome: Result<(), String>)
    ensures
        outcome is Ok <==> status != 0,
        outcome matches Err(message) ==> message@ == volume_failed_message(),
{
    if status != 0 {
        Ok(())
    } else {
        Err(String::from_str("Nie udało się zmienić głośności sesji"))
    }
}

/// The native engine reports success of a mute change with a non-zero status.
pub fn mute_outcome(status: i32) -> (outcome: Result<(), String>)
    ensures
        outcome is Ok <==> status != 0,
        outcome matches Err(message) ==> message@ == mute_failed_message(),
{
    if status != 0 {
        Ok(())
    } else {
        Err(String::from_str("Nie udało się zmienić wyciszenia sesji"))
    }
}

} // verus!
