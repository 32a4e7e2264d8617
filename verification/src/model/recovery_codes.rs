//! Recovery codes: single-use backup credentials of sixteen letters, built
//! through a validating builder.

use vstd::prelude::*;

use chrono::NaiveDateTime;
use uuid::Uuid;

use crate::model::user::UserError;
use crate::trusted::current_time;
use crate::trusted::random_in_range;
use crate::trusted::validate_length;

verus! {

/// The number of characters of every recovery code.
pub const CODE_LENGTH: usize = 16;

/// The number of letters of each case that a generated code draws from. It
/// is one short of the alphabet: the draw is made over the indices below
/// this number, so a generated code holds `A` to `Y` and `a` to `y`, and
/// never `Z` or `z`.
pub const LETTER_CHOICES: u8 = 25;

/// The letter with the given index in its case: index 0 is `A` or `a`.
pub open spec fn letter_at(capitalized: bool, index: u8) -> char
    recommends
        index < 26,
{
    if capitalized {
        (index + 65) as u8 as char
    } else {
        (index + 97) as u8 as char
    }
}

/// Whether a generated code can hold the character: it is one of the first
/// `LETTER_CHOICES` capital letters, or one of the first as many small ones.
pub open spec fn is_code_letter(c: char) -> bool {
    let point = c as u32;
    (65 <= point < 65 + LETTER_CHOICES) || (97 <= point < 97 + LETTER_CHOICES)
}

/// Whether the text has the shape of a generated code: sixteen characters,
/// each of them a letter that the generator draws.
pub open spec fn is_generated_code(code: Seq<char>) -> bool {
    &&& code.len() == CODE_LENGTH
    &&& forall|i: int| 0 <= i < code.len() ==> is_code_letter(#[trigger] code[i])
}

/// The letter that a draw stands for.
pub fn code_character(capitalized: bool, index: u8) -> (c: char)
    requires
        index < LETTER_CHOICES,
    ensures
        c == letter_at(capitalized, index),
        is_code_letter(c),
{
    if capitalized {
        (index + 65) as char
    } else {
        (index + 97) as char
    }
}

/// A single-use backup credential that belongs to one user.
///
/// Every live value holds a code of exactly sixteen characters.
#[derive(Debug)]
pub struct RecoveryCode {
    user_id: Uuid,
    code: String,
    active: bool,
    date_created: NaiveDateTime,
}

/// The mathematical content of a `RecoveryCode`.
pub struct RecoveryCodeView {
    pub user_id: Uuid,
    pub code: Seq<char>,
    pub active: bool,
    pub date_created: NaiveDateTime,
}

impl View for RecoveryCode {
    type V = RecoveryCodeView;

    closed spec fn view(&self) -> RecoveryCodeView {
        RecoveryCodeView {
            user_id: self.user_id,
            code: self.code@,
            active: self.active,
            date_created: self.date_created,
        }
    }
}

impl Clone for RecoveryCode {
    fn clone(&self) -> (copy: Self)
        ensures
            copy@ == self@,
    {
        proof {
            use_type_invariant(self);
        }
        RecoveryCode {
            user_id: self.user_id,
            code: self.code.clone(),
            active: self.active,
            date_created: self.date_created,
        }
    }
}

impl RecoveryCode {
    #[verifier::type_invariant]
    spec fn well_formed(&self) -> bool {
        self.code@.len() == CODE_LENGTH
    }

    /// The owning user's identifier.
    pub fn user_id(&self) -> (id: Uuid)
        ensures
            id == self@.user_id,
    {
        self.user_id
    }

    /// The code itself, which has sixteen characters.
    pub fn code(&self) -> (code: &str)
        ensures
            code@ == self@.code,
            code@.len() == CODE_LENGTH,
    {
        proof {
            use_type_invariant(self);
        }
        self.code.as_str()
    }

    /// Whether this is the code with the given text.
    pub(crate) fn has_code(&self, code: &String) -> (same: bool)
        ensures
            same == (self@.code == code@),
    {
        self.code == *code
    }

    /// The flag kept for the workflow that checks codes. No operation of
    /// this crate changes it.
    pub fn active(&self) -> (active: bool)
        ensures
            active == self@.active,
    {
        self.active
    }

    /// The time at which the code was created.
    pub fn date_created(&self) -> (at: NaiveDateTime)
        ensures
            at == self@.date_created,
    {
        self.date_created
    }

    /// The validated constructor. A code that is supplied must have sixteen
    /// characters; one that is omitted is generated. `active` defaults to
    /// `false`, `date_created` to the current time.
    pub fn build(
        user_id: Uuid,
        code: Option<String>,
        active: Option<bool>,
        date_created: Option<NaiveDateTime>,
    ) -> (result: Result<RecoveryCode, UserError>)
        ensures
            result is Ok <==> (code matches Some(given) ==> given@.len() == CODE_LENGTH),
            result matches Err(error) ==> error == UserError::InvalidRecoveryCode,
            result matches Ok(built) ==> {
                &&& built@.user_id == user_id
                &&& code matches Some(given) ==> built@.code == given@
                &&& code is None ==> is_generated_code(built@.code)
                &&& built@.active == (active matches Some(true))
                &&& date_created matches Some(given) ==> built@.date_created == given
            },
    {
        let builder = RecoveryCodeBuilder { user_id: Some(user_id), code, active, date_created };
        match builder.build() {
            Ok(built) => Ok(built),
            Err(_) => Err(UserError::InvalidRecoveryCode),
        }
    }
}

/// Why a `RecoveryCodeBuilder` did not build.
#[derive(Debug)]
pub enum RecoveryCodeBuilderError {
    /// A required field was never set; the field's name is given.
    UninitializedField(&'static str),
    /// The fields that were set do not make a valid code; the reason is given.
    ValidationError(String),
}

/// The mathematical content of a builder's error.
pub enum BuilderErrorView {
    UninitializedField(Seq<char>),
    ValidationError(Seq<char>),
}

impl View for RecoveryCodeBuilderError {
    type V = BuilderErrorView;

    open spec fn view(&self) -> BuilderErrorView {
        match self {
            RecoveryCodeBuilderError::UninitializedField(name) => BuilderErrorView::UninitializedField(
                name@,
            ),
            RecoveryCodeBuilderError::ValidationError(reason) => BuilderErrorView::ValidationError(
                reason@,
            ),
        }
    }
}

/// Collects the fields of a `RecoveryCode`; `build` validates them.
#[derive(Debug)]
pub struct RecoveryCodeBuilder {
    user_id: Option<Uuid>,
    code: Option<String>,
    active: Option<bool>,
    date_created: Option<NaiveDateTime>,
}

/// The mathematical content of a `RecoveryCodeBuilder`: what was set so far.
pub struct RecoveryCodeBuilderView {
    pub user_id: Option<Uuid>,
    pub code: Option<Seq<char>>,
    pub active: Option<bool>,
    pub date_created: Option<NaiveDateTime>,
}

impl RecoveryCodeBuilderView {
    /// Whether the code, if one was set, has the length of a recovery code.
    pub open spec fn code_acceptable(self) -> bool {
        self.code matches Some(given) ==> given.len() == CODE_LENGTH
    }

    /// The error that `build` answers with, where it does not build:
    /// validation comes before the test for missing fields.
    pub open spec fn build_error(self) -> BuilderErrorView {
        if !self.code_acceptable() {
            BuilderErrorView::ValidationError("Invalid recovery code length"@)
        } else {
            BuilderErrorView::UninitializedField("user_id"@)
        }
    }
}

impl View for RecoveryCodeBuilder {
    type V = RecoveryCodeBuilderView;

    closed spec fn view(&self) -> RecoveryCodeBuilderView {
        RecoveryCodeBuilderView {
            user_id: self.user_id,
            code: match self.code {
                Some(given) => Some(given@),
                None => None,
            },
            active: self.active,
            date_created: self.date_created,
        }
    }
}

impl Default for RecoveryCodeBuilder {
    fn default() -> (builder: Self)
        ensures
            builder@ == (RecoveryCodeBuilderView {
                user_id: None,
                code: None,
                active: None,
                date_created: None,
            }),
    {
        RecoveryCodeBuilder { user_id: None, code: None, active: None, date_created: None }
    }
}

impl RecoveryCodeBuilder {
    /// Sets the owning user's identifier.
    pub fn user_id(&mut self, value: Uuid) -> (builder: &mut Self)
        ensures
            builder@ == (RecoveryCodeBuilderView { user_id: Some(value), ..old(self)@ }),
            *final(self) == *final(builder),
    {
        self.user_id = Some(value);
        self
    }

    /// Sets the code, in place of a generated one.
    pub fn code(&mut self, value: String) -> (builder: &mut Self)
        ensures
            builder@ == (RecoveryCodeBuilderView { code: Some(value@), ..old(self)@ }),
            *final(self) == *final(builder),
    {
        self.code = Some(value);
        self
    }

    /// Sets the flag, in place of `false`.
    pub fn active(&mut self, value: bool) -> (builder: &mut Self)
        ensures
            builder@ == (RecoveryCodeBuilderView { active: Some(value), ..old(self)@ }),
            *final(self) == *final(builder),
    {
        self.active = Some(value);
        self
    }

    /// Sets the time of creation, in place of the current time.
    pub fn date_created(&mut self, value: NaiveDateTime) -> (builder: &mut Self)
        ensures
            builder@ == (RecoveryCodeBuilderView { date_created: Some(value), ..old(self)@ }),
            *final(self) == *final(builder),
    {
        self.date_created = Some(value);
        self
    }

    /// Draws one letter: first its case, with even odds, then its index in
    /// that case.
    pub fn generate_code_character() -> (c: char)
        ensures
            is_code_letter(c),
    {
        let capitalized = rand::random_ratio(1, 2);
        let index = random_in_range(0, LETTER_CHOICES);
        code_character(capitalized, index)
    }

    /// Generates a code: sixteen letters, each drawn on its own.
    pub fn generate_recovery_code() -> (code: String)
        ensures
            is_generated_code(code@),
    {
        let mut code = String::new();
        let mut drawn: usize = 0;
        while drawn < CODE_LENGTH
            invariant
                drawn <= CODE_LENGTH,
                code@.len() == drawn,
                forall|i: int| 0 <= i < code@.len() ==> is_code_letter(#[trigger] code@[i]),
            decreases CODE_LENGTH - drawn,
        {
            let c = Self::generate_code_character();
            code.push(c);
            drawn = drawn + 1;
        }
        code
    }

    /// Tests the fields that were set: a code, if there is one, must have
    /// sixteen characters.
    pub fn validate(&self) -> (result: Result<(), String>)
        ensures
            result is Ok <==> self@.code_acceptable(),
            result matches Err(reason) ==> reason@ == "Invalid recovery code length"@,
    {
        match &self.code {
            Some(code) => {
                if validate_length(code, None, None, Some(16)) {
                    Ok(())
                } else {
                    Err("Invalid recovery code length".to_owned())
                }
            },
            None => Ok(()),
        }
    }

    /// Builds the code from what was set. The fields are validated first;
    /// then the owner must have been set; what else is missing gets its
    /// default.
    pub fn build(&self) -> (result: Result<RecoveryCode, RecoveryCodeBuilderError>)
        ensures
            result is Ok <==> self@.code_acceptable() && self@.user_id is Some,
            result matches Err(error) ==> error@ == self@.build_error(),
            result matches Ok(built) ==> {
                &&& Some(built@.user_id) == self@.user_id
                &&& self@.code matches Some(given) ==> built@.code == given
                &&& self@.code is None ==> is_generated_code(built@.code)
                &&& built@.active == (self@.active matches Some(true))
                &&& self@.date_created matches Some(given) ==> built@.date_created == given
            },
    {
        match self.validate() {
            Err(reason) => {
                return Err(RecoveryCodeBuilderError::ValidationError(reason));
            },
            Ok(()) => {},
        }
        let user_id = match self.user_id {
            Some(id) => id,
            None => {
                return Err(RecoveryCodeBuilderError::UninitializedField("user_id"));
            },
        };
        let code = match &self.code {
            Some(given) => given.clone(),
            None => Self::generate_recovery_code(),
        };
        let active = match self.active {
            Some(flag) => flag,
            None => false,
        };
        let date_created = match self.date_created {
            Some(at) => at,
            None => current_time(),
        };
        Ok(RecoveryCode { user_id, code, active, date_created })
    }
}

} // verus!
