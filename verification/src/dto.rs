//! Data-transfer shapes for the surrounding CRUD surface, with their input
//! validation.
//!
//! The engine itself never sees these; they are the plain values the
//! external persistence and authentication collaborators exchange with the
//! handlers. Validation is deliberately simple and stated exactly: an email
//! is accepted when an `@` stands strictly inside it, a password needs at
//! least six characters, a name must not be empty.

use vstd::prelude::*;

verus! {

/// The claims carried in an authentication token: the subject (a user
/// identifier) and the expiry time in seconds since the epoch.
pub struct Claims {
    pub sub: String,
    pub exp: usize,
}

/// Input for registering a user.
pub struct CreateUserDto {
    pub email: String,
    pub password: String,
    pub name: Option<String>,
}

/// Input for logging in.
pub struct LoginDto {
    pub email: String,
    pub password: String,
}

/// Input for creating a collection of stored requests.
pub struct CreateCollectionDto {
    pub name: String,
    pub description: Option<String>,
}

/// Input for updating a collection; absent fields stay unchanged.
pub struct UpdateCollectionDto {
    pub name: Option<String>,
    pub description: Option<String>,
}

/// An email passes when some `@` stands strictly inside it: at least one
/// character before it and one after it.
pub open spec fn is_plausible_email(s: Seq<char>) -> bool {
    exists|i: int| 0 < i < s.len() - 1 && s[i] == '@'
}

/// Decides whether an email string passes the check.
pub fn check_email(s: &str) -> (r: bool)
    ensures
        r == is_plausible_email(s@),
{
    let n = s.unicode_len();
    if n < 3 {
        return false;
    }
    let mut i: usize = 1;
    while i < n - 1
        invariant
            3 <= n == s@.len(),
            1 <= i <= n - 1,
            forall|j: int| 0 < j < i ==> s@[j] != '@',
        decreases n - i,
    {
        if s.get_char(i) == '@' {
            return true;
        }
        i = i + 1;
    }
    false
}

impl CreateUserDto {
    /// Accepts the input when the email passes the check and the password
    /// has at least six characters; the first failing rule names itself.
    pub fn validate(&self) -> (r: Result<(), String>)
        ensures
            r is Ok <==> (is_plausible_email(self.email@) && self.password@.len() >= 6),
            match r {
                Ok(_) => true,
                Err(m) => if !is_plausible_email(self.email@) {
                    m@ == "Invalid email format"@
                } else {
                    m@ == "Password must be at least 6 characters"@
                },
            },
    {
        if !check_email(self.email.as_str()) {
            Err(String::from_str("Invalid email format"))
        } else if self.password.as_str().unicode_len() < 6 {
            Err(String::from_str("Password must be at least 6 characters"))
        } else {
            Ok(())
        }
    }
}

impl LoginDto {
    /// Accepts the input when the email passes the check.
    pub fn validate(&self) -> (r: Result<(), String>)
        ensures
            r is Ok <==> is_plausible_email(self.email@),
            match r {
                Ok(_) => true,
                Err(m) => m@ == "Invalid email format"@,
            },
    {
        if check_email(self.email.as_str()) {
            Ok(())
        } else {
            Err(String::from_str("Invalid email format"))
        }
    }
}

impl CreateCollectionDto {
    /// Accepts the input when the name is not empty.
    pub fn validate(&self) -> (r: Result<(), String>)
        ensures
            r is Ok <==> self.name@.len() > 0,
            match r {
                Ok(_) => true,
                Err(m) => m@ == "Name cannot be empty"@,
            },
    {
        if self.name.as_str().unicode_len() > 0 {
            Ok(())
        } else {
            Err(String::from_str("Name cannot be empty"))
        }
    }
}

} // verus!
