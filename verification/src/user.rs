use vstd::prelude::*;

use crate::error::AppError;
use crate::hash::{hash, pw_verifies, verify};
use crate::time::now_ts;

verus! {

/// The two parties a verified identity can act as: a support agent, or an
/// ordinary user (the customer side).
#[derive(Debug, Clone, Copy, PartialEq, Eq, Structural)]
pub enum UserRole {
    Agent,
    User,
}

impl UserRole {
    /// The storage text of this role.
    pub open spec fn spec_text(self) -> Seq<char> {
        match self {
            UserRole::Agent => "agent"@,
            UserRole::User => "user"@,
        }
    }

    pub fn is_user(&self) -> (r: bool)
        ensures
            r == (*self == UserRole::User),
    {
        *self == UserRole::User
    }

    pub fn is_agent(&self) -> (r: bool)
        ensures
            r == (*self == UserRole::Agent),
    {
        *self == UserRole::Agent
    }

    /// The storage text of this role.
    pub fn to_text(&self) -> (r: &'static str)
        ensures
            r@ == self.spec_text(),
    {
        match self {
            UserRole::Agent => "agent",
            UserRole::User => "user",
        }
    }
}

/// The role a stored text names, exactly; None when it names no role at
/// all.
pub open spec fn spec_role_of_text(s: Seq<char>) -> Option<UserRole> {
    if s == "agent"@ {
        Some(UserRole::Agent)
    } else if s == "user"@ {
        Some(UserRole::User)
    } else {
        None
    }
}

impl UserRole {
    /// Parses a stored role text. A text that names no role is rejected as
    /// its own internal error rather than defaulted to some role.
    pub fn from_text(s: &str) -> (r: Result<UserRole, AppError>)
        ensures
            r matches Ok(role) ==> spec_role_of_text(s@) == Some(role),
            r is Err <==> spec_role_of_text(s@) is None,
            r matches Err(e) ==> e matches AppError::InternalError(m) && m@ == "Invalid UserRole: "@
                + s@,
    {
        let owned = s.to_owned();
        if owned == String::from_str("agent") {
            Ok(UserRole::Agent)
        } else if owned == String::from_str("user") {
            Ok(UserRole::User)
        } else {
            Err(AppError::InternalError(String::from_str("Invalid UserRole: ").concat(s)))
        }
    }
}

/// The role's storage text reads back as the same role, and no other role:
/// the storage mapping is a bijection on the two names.
pub proof fn lemma_role_text_round_trip(role: UserRole)
    ensures
        spec_role_of_text(role.spec_text()) == Some(role),
{
    reveal_strlit("agent");
    reveal_strlit("user");
    if role == UserRole::User {
        assert("user"@.len() == 4);
        assert("agent"@.len() == 5);
        assert("user"@ != "agent"@);
    }
}

/// One registered identity: storage key, credentials and role.
#[derive(Debug, Clone)]
pub struct User {
    pub user_id: i64,
    pub email: String,
    pub password: String,
    pub name: String,
    pub role: UserRole,
}

impl User {
    pub fn new(id: i64, email: String, password: String, name: String, role: UserRole) -> (r: User)
        ensures
            r == (User { user_id: id, email, password, name, role }),
    {
        User { user_id: id, email, password, name, role }
    }
}

/// The verified (identity, role) pair that the session collaborator hands a
/// connection at its join boundary, together with the login instant (whole
/// seconds since the Unix epoch).
#[derive(Debug, Clone)]
pub struct UserSession {
    pub user_id: i64,
    pub email: String,
    pub name: String,
    pub role: UserRole,
    pub last_login: i64,
}

impl UserSession {
    /// The session of a user logging in at instant `now`.
    pub fn new_at(user: &User, now: i64) -> (r: UserSession)
        ensures
            r == (UserSession {
                user_id: user.user_id,
                email: user.email,
                name: user.name,
                role: user.role,
                last_login: now,
            }),
    {
        UserSession {
            user_id: user.user_id,
            email: user.email.clone(),
            name: user.name.clone(),
            role: user.role,
            last_login: now,
        }
    }

    /// The session of a user logging in now (clock instant drawn inside).
    pub fn new(user: &User) -> (r: UserSession)
        ensures
            r.user_id == user.user_id,
            r.email == user.email,
            r.name == user.name,
            r.role == user.role,
    {
        let now = now_ts();
        UserSession::new_at(user, now)
    }

    pub fn is_agent(&self) -> (r: bool)
        ensures
            r == (self.role == UserRole::Agent),
    {
        self.role.is_agent()
    }

    pub fn is_user(&self) -> (r: bool)
        ensures
            r == (self.role == UserRole::User),
    {
        self.role.is_user()
    }
}

/// A registration request: the plain credentials and the role to grant.
#[derive(Debug, Clone)]
pub struct UserRegister {
    pub email: String,
    pub password: String,
    pub name: String,
    pub role: UserRole,
}

impl UserRegister {
    pub fn new(email: String, password: String, name: String, role: UserRole) -> (r: UserRegister)
        ensures
            r == (UserRegister { email, password, name, role }),
    {
        UserRegister { email, password, name, role }
    }

    /// The same request with the plain password replaced by its stored hash
    /// form; on success the plain password verifies against that form.
    pub fn hash_password(self) -> (r: Result<UserRegister, AppError>)
        ensures
            r matches Ok(h) ==> h.email == self.email && h.name == self.name && h.role == self.role
                && pw_verifies(self.password@, h.password@),
            r matches Err(e) ==> e matches AppError::InternalError(_),
    {
        let hashed = hash(&self.password)?;
        Ok(UserRegister { password: hashed, ..self })
    }
}

/// A login attempt: the claimed email and the plain password.
#[derive(Debug, Clone)]
pub struct UserLogin {
    pub email: String,
    pub password: String,
}

impl UserLogin {
    pub fn new(email: String, password: String) -> (r: UserLogin)
        ensures
            r == (UserLogin { email, password }),
    {
        UserLogin { email, password }
    }
}

/// A user-registration request as it arrives at the boundary.
#[derive(Debug, Clone)]
pub struct RegisterUserRequest {
    pub email: String,
    pub password: String,
    pub name: String,
}

/// A login request as it arrives at the boundary.
#[derive(Debug, Clone)]
pub struct LoginRequest {
    pub email: String,
    pub password: String,
}

/// Decides a login against the stored user record: exactly when the offered
/// password verifies against the stored hash, a fresh session for that user
/// is issued; otherwise the attempt is rejected as unauthorized.
pub fn verify_login(user: &User, password: &String) -> (r: Result<UserSession, AppError>)
    ensures
        r is Ok <==> pw_verifies(password@, user.password@),
        r matches Ok(s) ==> s.user_id == user.user_id && s.email == user.email && s.name
            == user.name && s.role == user.role,
        r matches Err(e) ==> e matches AppError::Unauthorized(m) && m@ == "Invalid Password"@,
{
    if verify(password, &user.password) {
        Ok(UserSession::new(user))
    } else {
        Err(AppError::Unauthorized(String::from_str("Invalid Password")))
    }
}

} // verus!
