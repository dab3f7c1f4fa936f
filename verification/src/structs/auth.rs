use vstd::prelude::*;

verus! {

/// What the API tells about a user: never the password hash.
pub struct DetailUserStruct {
    pub id: i32,
    pub username: String,
    pub role: String,
}

/// A full row of the `client` table, password hash included.
pub struct ClientRow {
    pub id: i32,
    pub username: String,
    pub password: String,
    pub role: String,
}

/// The claims signed into the session token.
pub struct TokenStruct {
    pub id: i32,
    pub username: String,
    pub role: String,
    /// Issued at, in seconds since the Unix epoch.
    pub iat: u64,
    /// Expires at, in seconds since the Unix epoch.
    pub exp: u64,
}

/// The body of a login request.
pub struct Credentials {
    pub username: String,
    pub password: String,
}

/// The body of a registration request.
pub struct Registration {
    pub username: String,
    pub password: String,
    pub role: String,
}

/// The row a registration inserts into the `client` table.
pub struct NewClient {
    pub username: String,
    /// The bcrypt hash of the password.
    pub password: String,
    pub role: String,
}

impl DetailUserStruct {
    /// A copy equal to this one field by field.
    pub fn duplicate(&self) -> (copy: Self)
        ensures
            copy == *self,
    {
        DetailUserStruct {
            id: self.id,
            username: self.username.clone(),
            role: self.role.clone(),
        }
    }
}

} // verus!
