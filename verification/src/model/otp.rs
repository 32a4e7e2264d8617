//! The one-time-password record of a user: data only.

use vstd::prelude::*;

use chrono::NaiveDateTime;
use uuid::Uuid;

verus! {

/// An active or expiring one-time password. The record is carried, never
/// interpreted: checking a password against it is done elsewhere.
#[derive(Debug)]
pub struct OtpCode {
    user_id: Uuid,
    code: String,
    active: bool,
    expires_at: NaiveDateTime,
}

/// The mathematical content of an `OtpCode`.
pub struct OtpCodeView {
    pub user_id: Uuid,
    pub code: Seq<char>,
    pub active: bool,
    pub expires_at: NaiveDateTime,
}

impl View for OtpCode {
    type V = OtpCodeView;

    closed spec fn view(&self) -> OtpCodeView {
        OtpCodeView {
            user_id: self.user_id,
            code: self.code@,
            active: self.active,
            expires_at: self.expires_at,
        }
    }
}

impl Clone for OtpCode {
    fn clone(&self) -> (copy: Self)
        ensures
            copy@ == self@,
    {
        OtpCode {
            user_id: self.user_id,
            code: self.code.clone(),
            active: self.active,
            expires_at: self.expires_at,
        }
    }
}

impl OtpCode {
    /// Puts the four fields together. Nothing is validated.
    pub fn new(user_id: Uuid, code: String, active: bool, expires_at: NaiveDateTime) -> (otp: Self)
        ensures
            otp@ == (OtpCodeView { user_id, code: code@, active, expires_at }),
    {
        OtpCode { user_id, code, active, expires_at }
    }

    pub fn user_id(&self) -> (id: Uuid)
        ensures
            id == self@.user_id,
    {
        self.user_id
    }

    pub fn code(&self) -> (code: &str)
        ensures
            code@ == self@.code,
    {
        self.code.as_str()
    }

    pub fn active(&self) -> (active: bool)
        ensures
            active == self@.active,
    {
        self.active
    }

    pub fn expires_at(&self) -> (at: NaiveDateTime)
        ensures
            at == self@.expires_at,
    {
        self.expires_at
    }
}

} // verus!
