use vstd::prelude::*;

verus! {

/// A refusal that an endpoint answers with: an HTTP status and a short text.
#[derive(Clone, Copy, Debug, PartialEq, Eq, Structural)]
pub enum ApiError {
    /// 401 "unauthorized": the caller does not teach the class.
    Unauthorized,
    /// 400 "teacher cant join": a teacher tried to join their own class.
    TeacherCannotJoin,
    /// 409 "name is used": a rename to a name that another class has.
    NameUsed,
    /// 409 "name already used": a new class with a name that a class has.
    NameAlreadyUsed,
    /// 404 "class not found": the class or membership named in the path does not exist.
    ClassNotFound,
    /// 500 "internal server error": a failure of the store or of another service.
    Internal,
    /// 500 "invalid jwt decode key": the key that checks tokens could not be built.
    InvalidDecodeKey,
    /// 401 "Failed to verify token": the bearer token did not pass the checks.
    TokenRejected,
}

impl ApiError {
    pub open spec fn status_code(self) -> u16 {
        match self {
            ApiError::Unauthorized => 401,
            ApiError::TeacherCannotJoin => 400,
            ApiError::NameUsed => 409,
            ApiError::NameAlreadyUsed => 409,
            ApiError::ClassNotFound => 404,
            ApiError::Internal => 500,
            ApiError::InvalidDecodeKey => 500,
            ApiError::TokenRejected => 401,
        }
    }

    pub open spec fn message_text(self) -> Seq<char> {
        match self {
            ApiError::Unauthorized => "unauthorized"@,
            ApiError::TeacherCannotJoin => "teacher cant join"@,
            ApiError::NameUsed => "name is used"@,
            ApiError::NameAlreadyUsed => "name already used"@,
            ApiError::ClassNotFound => "class not found"@,
            ApiError::Internal => "internal server error"@,
            ApiError::InvalidDecodeKey => "invalid jwt decode key"@,
            ApiError::TokenRejected => "Failed to verify token"@,
        }
    }

    /// The HTTP status code of the refusal.
    pub fn status(&self) -> (r: u16)
        ensures
            r == self.status_code(),
    {
        match self {
            ApiError::Unauthorized => 401,
            ApiError::TeacherCannotJoin => 400,
            ApiError::NameUsed => 409,
            ApiError::NameAlreadyUsed => 409,
            ApiError::ClassNotFound => 404,
            ApiError::Internal => 500,
            ApiError::InvalidDecodeKey => 500,
            ApiError::TokenRejected => 401,
        }
    }

    /// The text sent with the refusal.
    pub fn message(&self) -> (r: &'static str)
        ensures
            r@ == self.message_text(),
    {
        match self {
            ApiError::Unauthorized => "unauthorized",
            ApiError::TeacherCannotJoin => "teacher cant join",
            ApiError::NameUsed => "name is used",
            ApiError::NameAlreadyUsed => "name already used",
            ApiError::ClassNotFound => "class not found",
            ApiError::Internal => "internal server error",
            ApiError::InvalidDecodeKey => "invalid jwt decode key",
            ApiError::TokenRejected => "Failed to verify token",
        }
    }
}

/// The refusal that any failure of the store or of another service turns into.
pub fn handle_error() -> (r: ApiError)
    ensures
        r == ApiError::Internal,
{
    ApiError::Internal
}

} // verus!
