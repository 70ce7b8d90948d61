use vstd::prelude::*;
use crate::error::{InputField, MutationError};

verus! {

/// What `str::to_lowercase` makes of a text.
pub uninterp spec fn lower_of(s: Seq<char>) -> Seq<char>;

/// Relies on str::to_lowercase: the lowercase form depends on the characters
/// alone, and the empty text stays empty.
#[verifier::external_body]
fn lowercase(s: &str) -> (r: String)
    ensures
        r@ == lower_of(s@),
        s@.len() == 0 ==> r@.len() == 0,
{
    s.to_lowercase()
}

/// The display-name rule on texts already lowered: they must be equal.
pub fn check_display_name_folded(username_lower: &String, display_name_lower: &String) -> (r: Result<(), MutationError>)
    ensures
        r is Ok <==> username_lower@ == display_name_lower@,
        r is Err ==> r == Err::<(), MutationError>(MutationError::InvalidInput { field: InputField::DisplayName }),
{
    if *username_lower == *display_name_lower {
        Ok(())
    } else {
        Err(MutationError::InvalidInput { field: InputField::DisplayName })
    }
}

/// A display name is accepted only when it equals the username up to case.
pub fn check_display_name(username: &String, display_name: &String) -> (r: Result<(), MutationError>)
    ensures
        r is Ok <==> lower_of(username@) == lower_of(display_name@),
        r is Err ==> r == Err::<(), MutationError>(MutationError::InvalidInput { field: InputField::DisplayName }),
{
    let u = lowercase(username.as_str());
    let d = lowercase(display_name.as_str());
    check_display_name_folded(&u, &d)
}

/// Nobody follows their own channel.
pub fn check_follow(user_id: u128, channel_id: u128) -> (r: Result<(), MutationError>)
    ensures
        r is Ok <==> user_id != channel_id,
        r is Err ==> r == Err::<(), MutationError>(MutationError::InvalidInput { field: InputField::ChannelId }),
{
    if user_id == channel_id {
        Err(MutationError::InvalidInput { field: InputField::ChannelId })
    } else {
        Ok(())
    }
}

/// A password change goes on only when the current password was verified.
pub fn check_password(current_password_matches: bool) -> (r: Result<(), MutationError>)
    ensures
        r is Ok <==> current_password_matches,
        r is Err ==> r == Err::<(), MutationError>(MutationError::InvalidInput { field: InputField::Password }),
{
    if current_password_matches {
        Ok(())
    } else {
        Err(MutationError::InvalidInput { field: InputField::Password })
    }
}

} // verus!
