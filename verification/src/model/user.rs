//! The user aggregate: validated construction and the two transitions of
//! its recovery-code pool.

use vstd::prelude::*;

use uuid::Uuid;

use crate::model::otp::OtpCode;
use crate::model::otp::OtpCodeView;
use crate::model::recovery_codes::is_generated_code;
use crate::model::recovery_codes::CODE_LENGTH;
use crate::model::recovery_codes::BuilderErrorView;
use crate::model::recovery_codes::RecoveryCode;
use crate::model::recovery_codes::RecoveryCodeView;
use crate::trusted::email_accepted;
use crate::trusted::validate_email;

verus! {

/// The number of recovery codes that a regenerated pool holds.
pub const RECOVERY_CODE_COUNT: usize = 4;

/// Why a construction or a transition of the aggregate was turned down.
#[derive(Debug, Clone, Copy, PartialEq, Eq, Structural)]
pub enum UserError {
    /// The e-mail address does not have the form of one.
    InvalidEmail,
    /// A recovery code has the wrong length, or is not in the pool.
    InvalidRecoveryCode,
}

impl UserError {
    /// The text that describes the error.
    pub open spec fn message_text(self) -> Seq<char> {
        match self {
            UserError::InvalidEmail => "Invalid email"@,
            UserError::InvalidRecoveryCode => "Invalid recovery code"@,
        }
    }

    /// The error in words.
    pub fn message(&self) -> (text: String)
        ensures
            text@ == self.message_text(),
    {
        match self {
            UserError::InvalidEmail => "Invalid email".to_owned(),
            UserError::InvalidRecoveryCode => "Invalid recovery code".to_owned(),
        }
    }
}

/// The contents of a sequence of recovery codes.
pub open spec fn codes_view(codes: Seq<RecoveryCode>) -> Seq<RecoveryCodeView> {
    codes.map_values(|entry: RecoveryCode| entry@)
}

/// Whether some entry of the pool carries the code.
pub open spec fn holds_code(pool: Seq<RecoveryCodeView>, code: Seq<char>) -> bool {
    exists|i: int| 0 <= i < pool.len() && (#[trigger] pool[i]).code == code
}

/// The entries of the pool that do not carry the code, in their order.
pub open spec fn without_code(pool: Seq<RecoveryCodeView>, code: Seq<char>) -> Seq<
    RecoveryCodeView,
> {
    pool.filter(|entry: RecoveryCodeView| entry.code != code)
}

/// How many entries of the pool carry the code.
pub open spec fn occurrences(pool: Seq<RecoveryCodeView>, code: Seq<char>) -> nat {
    pool.filter(|entry: RecoveryCodeView| entry.code == code).len()
}

/// Whether the entry is as a newly generated code of the user is: owned by
/// the user, not active, and of the generated shape.
pub open spec fn is_fresh_for(entry: RecoveryCodeView, user_id: Uuid) -> bool {
    &&& entry.user_id == user_id
    &&& !entry.active
    &&& is_generated_code(entry.code)
}

/// The root of the aggregate: an identity, its e-mail address, its pool of
/// recovery codes and, if there is one, its one-time-password record.
///
/// Every live value holds an e-mail address that passed validation.
#[derive(Debug)]
pub struct User {
    user_id: Uuid,
    email: String,
    recovery_codes: Vec<RecoveryCode>,
    otp: Option<OtpCode>,
}

/// The mathematical content of a `User`.
pub struct UserView {
    pub user_id: Uuid,
    pub email: Seq<char>,
    pub recovery_codes: Seq<RecoveryCodeView>,
    pub otp: Option<OtpCodeView>,
}

impl UserView {
    /// The aggregate with another pool and everything else as it is.
    pub open spec fn with_pool(self, pool: Seq<RecoveryCodeView>) -> UserView {
        UserView { recovery_codes: pool, ..self }
    }

    /// The aggregate after a code was used: every entry that carries the
    /// code is gone, and the fresh entry stands at the end of the pool.
    pub open spec fn with_code_replaced(self, code: Seq<char>, fresh: RecoveryCodeView) -> UserView {
        self.with_pool(without_code(self.recovery_codes, code).push(fresh))
    }
}

/// The contents of an optional one-time-password record.
pub open spec fn otp_view(otp: Option<OtpCode>) -> Option<OtpCodeView> {
    match otp {
        Some(record) => Some(record@),
        None => None,
    }
}

impl View for User {
    type V = UserView;

    closed spec fn view(&self) -> UserView {
        UserView {
            user_id: self.user_id,
            email: self.email@,
            recovery_codes: codes_view(self.recovery_codes@),
            otp: otp_view(self.otp),
        }
    }
}

/// A copy of the codes, entry by entry.
fn copy_codes(codes: &Vec<RecoveryCode>) -> (copy: Vec<RecoveryCode>)
    ensures
        codes_view(copy@) == codes_view(codes@),
{
    let mut copy: Vec<RecoveryCode> = Vec::new();
    let mut at: usize = 0;
    while at < codes.len()
        invariant
            at <= codes.len(),
            copy.len() == at,
            forall|i: int| 0 <= i < at ==> (#[trigger] copy@[i])@ == codes@[i]@,
        decreases codes.len() - at,
    {
        copy.push(codes[at].clone());
        at = at + 1;
    }
    assert(codes_view(copy@) =~= codes_view(codes@));
    copy
}

/// A copy of the optional record.
fn copy_otp(otp: &Option<OtpCode>) -> (copy: Option<OtpCode>)
    ensures
        otp_view(copy) == otp_view(*otp),
{
    match otp {
        Some(record) => Some(record.clone()),
        None => None,
    }
}

impl Clone for User {
    fn clone(&self) -> (copy: Self)
        ensures
            copy@ == self@,
    {
        proof {
            use_type_invariant(self);
        }
        User {
            user_id: self.user_id,
            email: self.email.clone(),
            recovery_codes: copy_codes(&self.recovery_codes),
            otp: copy_otp(&self.otp),
        }
    }
}

impl User {
    #[verifier::type_invariant]
    spec fn well_formed(&self) -> bool {
        email_accepted(self.email@)
    }

    /// The user's identifier.
    pub fn user_id(&self) -> (id: Uuid)
        ensures
            id == self@.user_id,
    {
        self.user_id
    }

    /// The e-mail address, which passed validation when the user was built.
    pub fn email(&self) -> (email: &str)
        ensures
            email@ == self@.email,
            email_accepted(email@),
    {
        proof {
            use_type_invariant(self);
        }
        self.email.as_str()
    }

    /// The pool of recovery codes.
    pub fn recovery_codes(&self) -> (pool: &[RecoveryCode])
        ensures
            codes_view(pool@) == self@.recovery_codes,
    {
        self.recovery_codes.as_slice()
    }

    /// The one-time-password record, if there is one.
    pub fn otp(&self) -> (otp: Option<&OtpCode>)
        ensures
            otp is Some <==> self@.otp is Some,
            otp matches Some(record) ==> Some(record@) == self@.otp,
    {
        self.otp.as_ref()
    }

    /// The validated constructor. The e-mail address must pass validation;
    /// nothing else is tested. A pool that is omitted is empty.
    pub fn build(
        user_id: Uuid,
        email: String,
        recovery_codes: Option<Vec<RecoveryCode>>,
        otp: Option<OtpCode>,
    ) -> (result: Result<User, UserError>)
        ensures
            result is Ok <==> email_accepted(email@),
            email@.len() == 0 || !email@.contains('@') ==> result is Err,
            result matches Err(error) ==> error == UserError::InvalidEmail,
            result matches Ok(built) ==> built@ == (UserView {
                user_id,
                email: email@,
                recovery_codes: match recovery_codes {
                    Some(pool) => codes_view(pool@),
                    None => Seq::empty(),
                },
                otp: otp_view(otp),
            }),
    {
        let accepted = validate_email(&email);
        match UserBuilder::verdict(accepted) {
            Err(_) => Err(UserError::InvalidEmail),
            Ok(()) => {
                let pool = match recovery_codes {
                    Some(pool) => pool,
                    None => Vec::new(),
                };
                assert(codes_view(Seq::<RecoveryCode>::empty()) =~= Seq::empty());
                Ok(User { user_id, email, recovery_codes: pool, otp })
            },
        }
    }
}

impl User {
    /// The user with another pool and everything else copied.
    fn with_recovery_codes(&self, pool: Vec<RecoveryCode>) -> (next: User)
        ensures
            next@ == self@.with_pool(codes_view(pool@)),
    {
        proof {
            use_type_invariant(self);
        }
        User {
            user_id: self.user_id,
            email: self.email.clone(),
            recovery_codes: pool,
            otp: copy_otp(&self.otp),
        }
    }

    /// Whether the pool holds the code, by exact match.
    pub fn holds_recovery_code(&self, code: &str) -> (found: bool)
        ensures
            found == holds_code(self@.recovery_codes, code@),
    {
        let wanted = code.to_owned();
        let mut at: usize = 0;
        while at < self.recovery_codes.len()
            invariant
                at <= self.recovery_codes.len(),
                wanted@ == code@,
                forall|i: int| 0 <= i < at ==> self.recovery_codes@[i]@.code != code@,
            decreases self.recovery_codes.len() - at,
        {
            if self.recovery_codes[at].has_code(&wanted) {
                assert(codes_view(self.recovery_codes@)[at as int].code == code@);
                return true;
            }
            at = at + 1;
        }
        false
    }

    /// The pool without the entries that carry the code, and with the fresh
    /// entry at its end.
    fn swapped_pool(&self, code: &str, fresh: RecoveryCode) -> (pool: Vec<RecoveryCode>)
        ensures
            codes_view(pool@) == without_code(self@.recovery_codes, code@).push(fresh@),
    {
        let wanted = code.to_owned();
        let ghost kept = |entry: RecoveryCodeView| entry.code != code@;
        let mut pool: Vec<RecoveryCode> = Vec::new();
        let mut at: usize = 0;
        assert(codes_view(self.recovery_codes@).take(0).filter(kept) =~= Seq::empty()) by {
            reveal(Seq::filter);
        }
        while at < self.recovery_codes.len()
            invariant
                at <= self.recovery_codes.len(),
                wanted@ == code@,
                kept == |entry: RecoveryCodeView| entry.code != code@,
                codes_view(pool@) =~= codes_view(self.recovery_codes@).take(at as int).filter(kept),
            decreases self.recovery_codes.len() - at,
        {
            let ghost seen = codes_view(self.recovery_codes@).take(at as int);
            let ghost entry = self.recovery_codes@[at as int]@;
            proof {
                assert(codes_view(self.recovery_codes@).take(at + 1) =~= seen.push(entry));
                seen.lemma_filter_push(entry, kept);
            }
            if !self.recovery_codes[at].has_code(&wanted) {
                pool.push(self.recovery_codes[at].clone());
            }
            at = at + 1;
        }
        assert(codes_view(self.recovery_codes@).take(at as int) =~= codes_view(
            self.recovery_codes@,
        ));
        pool.push(fresh);
        assert(codes_view(pool@) =~= without_code(self@.recovery_codes, code@).push(fresh@));
        pool
    }

    /// Uses up a code and puts the given fresh one in its place: the
    /// transition of `use_recovery_code`, with the new entry supplied by the
    /// caller instead of generated.
    pub fn replace_recovery_code(&self, code: &str, fresh: RecoveryCode) -> (result: Result<
        User,
        UserError,
    >)
        ensures
            result is Ok <==> holds_code(self@.recovery_codes, code@),
            result matches Err(error) ==> error == UserError::InvalidRecoveryCode,
            result matches Ok(next) ==> next@ == self@.with_code_replaced(code@, fresh@),
    {
        if !self.holds_recovery_code(code) {
            return Err(UserError::InvalidRecoveryCode);
        }
        Ok(self.with_recovery_codes(self.swapped_pool(code, fresh)))
    }

    /// Uses up a recovery code. The code must be in the pool. Every entry
    /// that carries it leaves the pool, and one newly generated code of the
    /// same user is put at the end. Nothing else changes, and `self` is left
    /// as it is.
    ///
    /// Where the code stood in the pool once, the pool keeps its size. The
    /// used code is gone from the pool unless the newly generated code
    /// happens to be the same text again. Every other entry stays.
    pub fn use_recovery_code(&self, code: &str) -> (result: Result<User, UserError>)
        ensures
            result is Ok <==> holds_code(self@.recovery_codes, code@),
            result matches Err(error) ==> error == UserError::InvalidRecoveryCode,
            result matches Ok(next) ==> {
                &&& next@.recovery_codes.len() > 0
                &&& next@ == self@.with_code_replaced(code@, next@.recovery_codes.last())
                &&& is_fresh_for(next@.recovery_codes.last(), self@.user_id)
                &&& occurrences(self@.recovery_codes, code@) == 1 ==> next@.recovery_codes.len()
                    == self@.recovery_codes.len()
                &&& next@.recovery_codes.last().code != code@ ==> !holds_code(
                    next@.recovery_codes,
                    code@,
                )
                &&& forall|i: int|
                    0 <= i < self@.recovery_codes.len() && (#[trigger] self@.recovery_codes[i]).code
                        != code@ ==> next@.recovery_codes.contains(self@.recovery_codes[i])
            },
    {
        if !self.holds_recovery_code(code) {
            return Err(UserError::InvalidRecoveryCode);
        }
        let fresh = match RecoveryCode::build(self.user_id, None, None, None) {
            Ok(fresh) => fresh,
            Err(_) => {
                return Err(UserError::InvalidRecoveryCode);
            },
        };
        proof {
            if occurrences(self@.recovery_codes, code@) == 1 {
                lemma_used_code_keeps_pool_size(self@, code@, fresh@);
            }
            if fresh@.code != code@ {
                lemma_used_code_is_gone(self@, code@, fresh@);
            }
            assert forall|i: int|
                0 <= i < self@.recovery_codes.len() && (#[trigger] self@.recovery_codes[i]).code
                    != code@ implies self@.with_code_replaced(
                code@,
                fresh@,
            ).recovery_codes.contains(self@.recovery_codes[i]) by {
                lemma_other_codes_stay(self@, code@, fresh@, i);
            }
        }
        Ok(self.with_recovery_codes(self.swapped_pool(code, fresh)))
    }

    /// Replaces the pool by `count` newly generated codes of the user. The
    /// old codes are dropped, not merged. Nothing else changes, and `self`
    /// is left as it is.
    pub fn generate_recovery_codes(&self, count: usize) -> (result: Result<User, UserError>)
        ensures
            result matches Ok(next) && {
                &&& next@ == self@.with_pool(next@.recovery_codes)
                &&& next@.recovery_codes.len() == count
                &&& forall|i: int|
                    0 <= i < count ==> is_fresh_for(
                        #[trigger] next@.recovery_codes[i],
                        self@.user_id,
                    )
            },
    {
        let mut pool: Vec<RecoveryCode> = Vec::new();
        let mut made: usize = 0;
        while made < count
            invariant
                made <= count,
                pool.len() == made,
                forall|i: int| 0 <= i < made ==> is_fresh_for(#[trigger] pool@[i]@, self@.user_id),
            decreases count - made,
        {
            match RecoveryCode::build(self.user_id, None, None, None) {
                Ok(fresh) => {
                    pool.push(fresh);
                },
                Err(_) => {
                    return Err(UserError::InvalidRecoveryCode);
                },
            }
            made = made + 1;
        }
        Ok(self.with_recovery_codes(pool))
    }

    /// Replaces the pool by `RECOVERY_CODE_COUNT` newly generated codes of
    /// the user, each of sixteen letters.
    pub fn generate_new_recovery_codes(&self) -> (result: Result<User, UserError>)
        ensures
            result matches Ok(next) && {
                &&& next@ == self@.with_pool(next@.recovery_codes)
                &&& next@.recovery_codes.len() == RECOVERY_CODE_COUNT
                &&& forall|i: int|
                    0 <= i < RECOVERY_CODE_COUNT ==> {
                        &&& is_fresh_for(#[trigger] next@.recovery_codes[i], self@.user_id)
                        &&& next@.recovery_codes[i].code.len() == CODE_LENGTH
                    }
            },
    {
        self.generate_recovery_codes(RECOVERY_CODE_COUNT)
    }
}

/// The entries that carry a code and those that do not make up the pool.
pub proof fn lemma_pool_splits(pool: Seq<RecoveryCodeView>, code: Seq<char>)
    ensures
        without_code(pool, code).len() + occurrences(pool, code) == pool.len(),
    decreases pool.len(),
{
    reveal(Seq::filter);
    if pool.len() > 0 {
        lemma_pool_splits(pool.drop_last(), code);
    }
}

/// A code that stood in the pool once leaves the pool at its size when it is
/// used: one entry goes, one comes.
pub proof fn lemma_used_code_keeps_pool_size(
    before: UserView,
    code: Seq<char>,
    fresh: RecoveryCodeView,
)
    requires
        occurrences(before.recovery_codes, code) == 1,
    ensures
        before.with_code_replaced(code, fresh).recovery_codes.len() == before.recovery_codes.len(),
{
    lemma_pool_splits(before.recovery_codes, code);
}

/// A used code is no longer in the pool, provided the fresh entry does not
/// carry the same text.
pub proof fn lemma_used_code_is_gone(before: UserView, code: Seq<char>, fresh: RecoveryCodeView)
    requires
        fresh.code != code,
    ensures
        !holds_code(before.with_code_replaced(code, fresh).recovery_codes, code),
{
    let kept = |entry: RecoveryCodeView| entry.code != code;
    let rest = before.recovery_codes.filter(kept);
    let after = before.with_code_replaced(code, fresh).recovery_codes;
    assert forall|i: int| 0 <= i < after.len() implies (#[trigger] after[i]).code != code by {
        if i < rest.len() {
            before.recovery_codes.lemma_filter_pred(kept, i);
        }
    }
}

/// An entry that carries another code than the one used stays in the pool,
/// unchanged.
pub proof fn lemma_other_codes_stay(
    before: UserView,
    code: Seq<char>,
    fresh: RecoveryCodeView,
    i: int,
)
    requires
        0 <= i < before.recovery_codes.len(),
        before.recovery_codes[i].code != code,
    ensures
        before.with_code_replaced(code, fresh).recovery_codes.contains(before.recovery_codes[i]),
        holds_code(
            before.with_code_replaced(code, fresh).recovery_codes,
            before.recovery_codes[i].code,
        ),
{
    let kept = |entry: RecoveryCodeView| entry.code != code;
    let rest = before.recovery_codes.filter(kept);
    let after = before.with_code_replaced(code, fresh).recovery_codes;
    before.recovery_codes.lemma_filter_contains(kept, i);
    let j = choose|j: int| 0 <= j < rest.len() && rest[j] == before.recovery_codes[i];
    assert(after[j] == before.recovery_codes[i]);
}

/// Why a `UserBuilder` did not build.
#[derive(Debug)]
pub enum UserBuilderError {
    /// A required field was never set; the field's name is given.
    UninitializedField(&'static str),
    /// The fields that were set do not make a valid user; the reason is given.
    ValidationError(String),
}

impl View for UserBuilderError {
    type V = BuilderErrorView;

    open spec fn view(&self) -> BuilderErrorView {
        match self {
            UserBuilderError::UninitializedField(name) => BuilderErrorView::UninitializedField(
                name@,
            ),
            UserBuilderError::ValidationError(reason) => BuilderErrorView::ValidationError(reason@),
        }
    }
}

/// Collects the fields of a `User`; `build` validates them.
#[derive(Debug)]
pub struct UserBuilder {
    user_id: Option<Uuid>,
    email: Option<String>,
    recovery_codes: Option<Vec<RecoveryCode>>,
    otp: Option<Option<OtpCode>>,
}

/// The mathematical content of a `UserBuilder`: what was set so far.
pub struct UserBuilderView {
    pub user_id: Option<Uuid>,
    pub email: Option<Seq<char>>,
    pub recovery_codes: Option<Seq<RecoveryCodeView>>,
    pub otp: Option<Option<OtpCodeView>>,
}

impl UserBuilderView {
    /// Whether the e-mail address, if one was set, passes validation.
    pub open spec fn email_acceptable(self) -> bool {
        self.email matches Some(given) ==> email_accepted(given)
    }

    /// Whether `build` builds: what was set is valid, and both required
    /// fields were set.
    pub open spec fn complete(self) -> bool {
        self.email_acceptable() && self.user_id is Some && self.email is Some
    }

    /// The error that `build` answers with, where it does not build:
    /// validation comes first, then the required fields in their order.
    pub open spec fn build_error(self) -> BuilderErrorView {
        if !self.email_acceptable() {
            BuilderErrorView::ValidationError("Invalid email"@)
        } else if self.user_id is None {
            BuilderErrorView::UninitializedField("user_id"@)
        } else {
            BuilderErrorView::UninitializedField("email"@)
        }
    }

    /// The user that `build` builds: what was set, an empty pool where none
    /// was, and no one-time-password record where none was.
    pub open spec fn built(self) -> UserView
        recommends
            self.complete(),
    {
        UserView {
            user_id: self.user_id.unwrap(),
            email: self.email.unwrap(),
            recovery_codes: match self.recovery_codes {
                Some(pool) => pool,
                None => Seq::empty(),
            },
            otp: match self.otp {
                Some(record) => record,
                None => None,
            },
        }
    }
}

impl View for UserBuilder {
    type V = UserBuilderView;

    closed spec fn view(&self) -> UserBuilderView {
        UserBuilderView {
            user_id: self.user_id,
            email: match self.email {
                Some(given) => Some(given@),
                None => None,
            },
            recovery_codes: match self.recovery_codes {
                Some(pool) => Some(codes_view(pool@)),
                None => None,
            },
            otp: match self.otp {
                Some(record) => Some(otp_view(record)),
                None => None,
            },
        }
    }
}

impl Default for UserBuilder {
    fn default() -> (builder: Self)
        ensures
            builder@ == (UserBuilderView {
                user_id: None,
                email: None,
                recovery_codes: None,
                otp: None,
            }),
    {
        UserBuilder { user_id: None, email: None, recovery_codes: None, otp: None }
    }
}

impl UserBuilder {
    /// Sets the user's identifier.
    pub fn user_id(&mut self, value: Uuid) -> (builder: &mut Self)
        ensures
            builder@ == (UserBuilderView { user_id: Some(value), ..old(self)@ }),
            *final(self) == *final(builder),
    {
        self.user_id = Some(value);
        self
    }

    /// Sets the e-mail address.
    pub fn email(&mut self, value: String) -> (builder: &mut Self)
        ensures
            builder@ == (UserBuilderView { email: Some(value@), ..old(self)@ }),
            *final(self) == *final(builder),
    {
        self.email = Some(value);
        self
    }

    /// Sets the pool of recovery codes, in place of an empty one.
    pub fn recovery_codes(&mut self, value: Vec<RecoveryCode>) -> (builder: &mut Self)
        ensures
            builder@ == (UserBuilderView {
                recovery_codes: Some(codes_view(value@)),
                ..old(self)@
            }),
            *final(self) == *final(builder),
    {
        self.recovery_codes = Some(value);
        self
    }

    /// Sets the one-time-password record, in place of none.
    pub fn otp(&mut self, value: Option<OtpCode>) -> (builder: &mut Self)
        ensures
            builder@ == (UserBuilderView { otp: Some(otp_view(value)), ..old(self)@ }),
            *final(self) == *final(builder),
    {
        self.otp = Some(value);
        self
    }

    /// What follows from the validator's answer on an e-mail address.
    pub fn verdict(accepted: bool) -> (result: Result<(), String>)
        ensures
            result is Ok <==> accepted,
            result matches Err(reason) ==> reason@ == "Invalid email"@,
    {
        if accepted {
            Ok(())
        } else {
            Err("Invalid email".to_owned())
        }
    }

    /// Tests the fields that were set: an e-mail address, if there is one,
    /// must pass validation.
    pub fn validate(&self) -> (result: Result<(), String>)
        ensures
            result is Ok <==> self@.email_acceptable(),
            self@.email matches Some(given) && (given.len() == 0 || !given.contains('@'))
                ==> result is Err,
            result matches Err(reason) ==> reason@ == "Invalid email"@,
    {
        match &self.email {
            Some(email) => Self::verdict(validate_email(email)),
            None => Ok(()),
        }
    }

    /// Builds the user from what was set. The fields are validated first;
    /// then the identifier and the e-mail address must have been set; what
    /// else is missing gets its default.
    pub fn build(&self) -> (result: Result<User, UserBuilderError>)
        ensures
            result is Ok <==> self@.complete(),
            self@.email matches Some(given) && (given.len() == 0 || !given.contains('@'))
                ==> result is Err,
            result matches Err(error) ==> error@ == self@.build_error(),
            result matches Ok(built) ==> built@ == self@.built(),
    {
        match self.validate() {
            Err(reason) => {
                return Err(UserBuilderError::ValidationError(reason));
            },
            Ok(()) => {},
        }
        let user_id = match self.user_id {
            Some(id) => id,
            None => {
                return Err(UserBuilderError::UninitializedField("user_id"));
            },
        };
        let email = match &self.email {
            Some(given) => given.clone(),
            None => {
                return Err(UserBuilderError::UninitializedField("email"));
            },
        };
        let recovery_codes = match &self.recovery_codes {
            Some(pool) => copy_codes(pool),
            None => Vec::new(),
        };
        let otp = match &self.otp {
            Some(record) => copy_otp(record),
            None => None,
        };
        assert(codes_view(Seq::<RecoveryCode>::empty()) =~= Seq::empty());
        Ok(User { user_id, email, recovery_codes, otp })
    }
}

} // verus!
